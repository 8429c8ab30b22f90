use crate::dsp::regs::{lemma_low40, Registers};
use crate::dsp::status::two40;
use vstd::prelude::*;
use vstd::std_specs::iter::IteratorSpec;
use vstd::string::{axiom_spec_iter, next_postcondition};

verus! {

/// The escape character that starts an ANSI colour sequence.
pub const ESC: char = '\x1b';

/// What follows an escape sequence: everything after the first `m`
/// (nothing when there is none).
pub open spec fn skip_escape(t: Seq<char>) -> Seq<char>
    decreases t.len(),
{
    if t.len() == 0 {
        t
    } else if t[0] == 'm' {
        t.drop_first()
    } else {
        skip_escape(t.drop_first())
    }
}

pub proof fn lemma_skip_escape_len(t: Seq<char>)
    ensures
        skip_escape(t).len() <= t.len(),
    decreases t.len(),
{
    if t.len() > 0 && t[0] != 'm' {
        lemma_skip_escape_len(t.drop_first());
    }
}

/// Number of characters that show on a terminal: escape sequences
/// (`ESC` up to and including `m`) take no room.
pub open spec fn visible_count(s: Seq<char>) -> nat
    decreases s.len(),
{
    if s.len() == 0 {
        0
    } else if s[0] == ESC {
        proof {
            lemma_skip_escape_len(s.drop_first());
        }
        visible_count(skip_escape(s.drop_first()))
    } else {
        1 + visible_count(s.drop_first())
    }
}

proof fn lemma_visible_count_le(s: Seq<char>)
    ensures
        visible_count(s) <= s.len(),
    decreases s.len(),
{
    if s.len() > 0 {
        if s[0] == ESC {
            lemma_skip_escape_len(s.drop_first());
            lemma_visible_count_le(skip_escape(s.drop_first()));
        } else {
            lemma_visible_count_le(s.drop_first());
        }
    }
}

/// Display width of `s` with ANSI colour sequences left out.
pub fn visible_len(s: &str) -> (len: usize)
    requires
        s@.len() <= usize::MAX,
    ensures
        len == visible_count(s@),
{
    broadcast use axiom_spec_iter, next_postcondition;

    let mut len: usize = 0;
    let mut chars = s.chars();
    loop
        invariant
            chars.obeys_prophetic_iter_laws(),
            chars.decrease() is Some,
            visible_count(s@) == len + visible_count(chars.remaining()),
            len + chars.remaining().len() <= s@.len(),
            s@.len() <= usize::MAX,
        ensures
            len == visible_count(s@),
        decreases chars.decrease()->0,
    {
        let ghost rest = chars.remaining();
        let ghost d0 = chars.decrease()->0;
        match chars.next() {
            None => {
                break;
            },
            Some(c) => {
                if c == ESC {
                    loop
                        invariant_except_break
                            skip_escape(rest.drop_first()) == skip_escape(chars.remaining()),
                        invariant
                            chars.obeys_prophetic_iter_laws(),
                            chars.decrease() is Some,
                            chars.remaining().len() < rest.len(),
                            decreases_to!(d0 => chars.decrease()->0),
                            visible_count(s@) == len + visible_count(skip_escape(rest.drop_first())),
                        ensures
                            skip_escape(rest.drop_first()) == chars.remaining(),
                            chars.remaining().len() < rest.len(),
                            chars.obeys_prophetic_iter_laws(),
                            chars.decrease() is Some,
                            decreases_to!(d0 => chars.decrease()->0),
                        decreases chars.decrease()->0,
                    {
                        let ghost r2 = chars.remaining();
                        match chars.next() {
                            None => {
                                return len;
                            },
                            Some(c2) => {
                                if c2 == 'm' {
                                    break;
                                }
                            },
                        }
                    }
                    proof {
                        lemma_visible_count_le(chars.remaining());
                    }
                } else {
                    proof {
                        lemma_visible_count_le(chars.remaining());
                    }
                    len += 1;
                }
            },
        }
    }
    len
}

/// Characters a register name is made of after `$`: ASCII letters and
/// digits, and `.`.
pub open spec fn is_name_char(c: char) -> bool {
    ('0' <= c && c <= '9') || ('a' <= c && c <= 'z') || ('A' <= c && c <= 'Z') || c == '.'
}

fn name_char(c: char) -> (r: bool)
    ensures
        r == is_name_char(c),
{
    ('0' <= c && c <= '9') || ('a' <= c && c <= 'z') || ('A' <= c && c <= 'Z') || c == '.'
}

/// End of the register name that starts at `j`: the first position from
/// `j` on that holds no name character.
pub open spec fn name_end(s: Seq<char>, j: int) -> int
    decreases s.len() - j,
{
    if 0 <= j < s.len() && is_name_char(s[j]) {
        name_end(s, j + 1)
    } else {
        j
    }
}

pub proof fn lemma_name_end(s: Seq<char>, j: int)
    requires
        0 <= j <= s.len(),
    ensures
        j <= name_end(s, j) <= s.len(),
    decreases s.len() - j,
{
    if j < s.len() && is_name_char(s[j]) {
        lemma_name_end(s, j + 1);
    }
}

/// The register names that `s` marks with `$`, from position `i` on, in
/// order of appearance.
pub open spec fn names_from(s: Seq<char>, i: int) -> Seq<Seq<char>>
    decreases s.len() - i,
{
    if i < 0 || i >= s.len() {
        Seq::empty()
    } else if s[i] == '$' {
        proof {
            lemma_name_end(s, i + 1);
        }
        seq![s.subrange(i + 1, name_end(s, i + 1))] + names_from(s, name_end(s, i + 1))
    } else {
        names_from(s, i + 1)
    }
}

/// Index of a 16-bit DSP register by its disassembly name.
pub open spec fn dsp_reg_index_spec(name: Seq<char>) -> Option<u8> {
    if name == "ar0"@ {
        Some(0u8)
    } else if name == "ar1"@ {
        Some(1u8)
    } else if name == "ar2"@ {
        Some(2u8)
    } else if name == "ar3"@ {
        Some(3u8)
    } else if name == "ix0"@ {
        Some(4u8)
    } else if name == "ix1"@ {
        Some(5u8)
    } else if name == "ix2"@ {
        Some(6u8)
    } else if name == "ix3"@ {
        Some(7u8)
    } else if name == "wr0"@ {
        Some(8u8)
    } else if name == "wr1"@ {
        Some(9u8)
    } else if name == "wr2"@ {
        Some(10u8)
    } else if name == "wr3"@ {
        Some(11u8)
    } else if name == "st0"@ {
        Some(12u8)
    } else if name == "st1"@ {
        Some(13u8)
    } else if name == "st2"@ {
        Some(14u8)
    } else if name == "st3"@ {
        Some(15u8)
    } else if name == "ac0.h"@ {
        Some(16u8)
    } else if name == "ac1.h"@ {
        Some(17u8)
    } else if name == "cr"@ {
        Some(18u8)
    } else if name == "sr"@ {
        Some(19u8)
    } else if name == "prod.l"@ {
        Some(20u8)
    } else if name == "prod.m1"@ {
        Some(21u8)
    } else if name == "prod.h"@ {
        Some(22u8)
    } else if name == "prod.m2"@ {
        Some(23u8)
    } else if name == "ax0.l"@ {
        Some(24u8)
    } else if name == "ax1.l"@ {
        Some(25u8)
    } else if name == "ax0.h"@ {
        Some(26u8)
    } else if name == "ax1.h"@ {
        Some(27u8)
    } else if name == "ac0.l"@ {
        Some(28u8)
    } else if name == "ac1.l"@ {
        Some(29u8)
    } else if name == "ac0.m"@ {
        Some(30u8)
    } else if name == "ac1.m"@ {
        Some(31u8)
    } else {
        None
    }
}

/// What a register name shows: the whole accumulators (32, 33), the
/// whole AX pairs (34, 35), the product (36), or a 16-bit register by its
/// index.
pub open spec fn ref_key(name: Seq<char>) -> Option<u8> {
    if name == "ac0"@ {
        Some(32u8)
    } else if name == "ac1"@ {
        Some(33u8)
    } else if name == "ax0"@ {
        Some(34u8)
    } else if name == "ax1"@ {
        Some(35u8)
    } else if name == "prod"@ {
        Some(36u8)
    } else {
        dsp_reg_index_spec(name)
    }
}

/// Whether characters `start..end` of `chars` spell `lit`.
fn chars_are(chars: &Vec<char>, start: usize, end: usize, lit: &str) -> (r: bool)
    requires
        start <= end <= chars@.len(),
    ensures
        r == (chars@.subrange(start as int, end as int) == lit@),
{
    let n = lit.unicode_len();
    if end - start != n {
        return false;
    }
    let mut k: usize = 0;
    while k < n
        invariant
            start <= end <= chars@.len(),
            end - start == n,
            n == lit@.len(),
            k <= n,
            forall|j: int| 0 <= j < k ==> chars@[start + j] == #[trigger] lit@[j],
        decreases n - k,
    {
        if chars[start + k] != lit.get_char(k) {
            assert(chars@.subrange(start as int, end as int)[k as int] != lit@[k as int]);
            return false;
        }
        k = k + 1;
    }
    assert(chars@.subrange(start as int, end as int) =~= lit@);
    true
}

fn dsp_reg_index(chars: &Vec<char>, start: usize, end: usize) -> (r: Option<u8>)
    requires
        start <= end <= chars@.len(),
    ensures
        r == dsp_reg_index_spec(chars@.subrange(start as int, end as int)),
{
    if chars_are(chars, start, end, "ar0") {
        Some(0)
    } else if chars_are(chars, start, end, "ar1") {
        Some(1)
    } else if chars_are(chars, start, end, "ar2") {
        Some(2)
    } else if chars_are(chars, start, end, "ar3") {
        Some(3)
    } else if chars_are(chars, start, end, "ix0") {
        Some(4)
    } else if chars_are(chars, start, end, "ix1") {
        Some(5)
    } else if chars_are(chars, start, end, "ix2") {
        Some(6)
    } else if chars_are(chars, start, end, "ix3") {
        Some(7)
    } else if chars_are(chars, start, end, "wr0") {
        Some(8)
    } else if chars_are(chars, start, end, "wr1") {
        Some(9)
    } else if chars_are(chars, start, end, "wr2") {
        Some(10)
    } else if chars_are(chars, start, end, "wr3") {
        Some(11)
    } else if chars_are(chars, start, end, "st0") {
        Some(12)
    } else if chars_are(chars, start, end, "st1") {
        Some(13)
    } else if chars_are(chars, start, end, "st2") {
        Some(14)
    } else if chars_are(chars, start, end, "st3") {
        Some(15)
    } else if chars_are(chars, start, end, "ac0.h") {
        Some(16)
    } else if chars_are(chars, start, end, "ac1.h") {
        Some(17)
    } else if chars_are(chars, start, end, "cr") {
        Some(18)
    } else if chars_are(chars, start, end, "sr") {
        Some(19)
    } else if chars_are(chars, start, end, "prod.l") {
        Some(20)
    } else if chars_are(chars, start, end, "prod.m1") {
        Some(21)
    } else if chars_are(chars, start, end, "prod.h") {
        Some(22)
    } else if chars_are(chars, start, end, "prod.m2") {
        Some(23)
    } else if chars_are(chars, start, end, "ax0.l") {
        Some(24)
    } else if chars_are(chars, start, end, "ax1.l") {
        Some(25)
    } else if chars_are(chars, start, end, "ax0.h") {
        Some(26)
    } else if chars_are(chars, start, end, "ax1.h") {
        Some(27)
    } else if chars_are(chars, start, end, "ac0.l") {
        Some(28)
    } else if chars_are(chars, start, end, "ac1.l") {
        Some(29)
    } else if chars_are(chars, start, end, "ac0.m") {
        Some(30)
    } else if chars_are(chars, start, end, "ac1.m") {
        Some(31)
    } else {
        None
    }
}

fn register_ref(chars: &Vec<char>, start: usize, end: usize) -> (r: Option<u8>)
    requires
        start <= end <= chars@.len(),
    ensures
        r == ref_key(chars@.subrange(start as int, end as int)),
        r is Some ==> r->0 < 37,
{
    if chars_are(chars, start, end, "ac0") {
        Some(32)
    } else if chars_are(chars, start, end, "ac1") {
        Some(33)
    } else if chars_are(chars, start, end, "ax0") {
        Some(34)
    } else if chars_are(chars, start, end, "ax1") {
        Some(35)
    } else if chars_are(chars, start, end, "prod") {
        Some(36)
    } else {
        dsp_reg_index(chars, start, end)
    }
}

/// Value of 16-bit DSP register `idx`, read without side effects: the
/// four stack registers show their top entries.
pub open spec fn dsp_reg_value(regs: Registers, idx: u8) -> u16 {
    if idx < 4 {
        regs.ar[idx as int]
    } else if idx < 8 {
        regs.ix[idx - 4]
    } else if idx < 12 {
        regs.wr[idx - 8]
    } else if idx == 12 {
        regs.call_stack.top_spec()
    } else if idx == 13 {
        regs.data_stack.top_spec()
    } else if idx == 14 {
        regs.loop_addr.top_spec()
    } else if idx == 15 {
        regs.loop_counter.top_spec()
    } else if idx == 16 {
        regs.ac0_high
    } else if idx == 17 {
        regs.ac1_high
    } else if idx == 18 {
        regs.config
    } else if idx == 19 {
        regs.status.raw
    } else if idx == 20 {
        regs.product_low
    } else if idx == 21 {
        regs.product_mid1
    } else if idx == 22 {
        regs.product_high
    } else if idx == 23 {
        regs.product_mid2
    } else if idx < 26 {
        regs.ax[idx - 24]
    } else if idx < 28 {
        regs.axh[idx - 26]
    } else if idx == 28 {
        regs.ac0_low
    } else if idx == 29 {
        regs.ac1_low
    } else if idx == 30 {
        regs.ac0_mid
    } else if idx == 31 {
        regs.ac1_mid
    } else {
        0
    }
}

pub fn dsp_reg_read(regs: &Registers, idx: u8) -> (r: u16)
    requires
        regs.stacks_wf(),
    ensures
        r == dsp_reg_value(*regs, idx),
{
    if idx < 4 {
        regs.ar[idx as usize]
    } else if idx < 8 {
        regs.ix[(idx - 4) as usize]
    } else if idx < 12 {
        regs.wr[(idx - 8) as usize]
    } else if idx == 12 {
        regs.call_stack.top()
    } else if idx == 13 {
        regs.data_stack.top()
    } else if idx == 14 {
        regs.loop_addr.top()
    } else if idx == 15 {
        regs.loop_counter.top()
    } else if idx == 16 {
        regs.ac0_high
    } else if idx == 17 {
        regs.ac1_high
    } else if idx == 18 {
        regs.config
    } else if idx == 19 {
        regs.status.to_raw()
    } else if idx == 20 {
        regs.product_low
    } else if idx == 21 {
        regs.product_mid1
    } else if idx == 22 {
        regs.product_high
    } else if idx == 23 {
        regs.product_mid2
    } else if idx < 26 {
        regs.ax[(idx - 24) as usize]
    } else if idx < 28 {
        regs.axh[(idx - 26) as usize]
    } else if idx == 28 {
        regs.ac0_low
    } else if idx == 29 {
        regs.ac1_low
    } else if idx == 30 {
        regs.ac0_mid
    } else if idx == 31 {
        regs.ac1_mid
    } else {
        0
    }
}

/// Upper-case hexadecimal digit `d`.
pub open spec fn hex_digit(d: int) -> Seq<char> {
    "0123456789ABCDEF"@.subrange(d, d + 1)
}

/// `v` as four upper-case hexadecimal digits (`{:04X}`).
pub open spec fn hex4(v: int) -> Seq<char> {
    hex_digit((v / 0x1000) % 16) + hex_digit((v / 0x100) % 16) + hex_digit((v / 0x10) % 16) + hex_digit(v % 16)
}

/// `v` as two upper-case hexadecimal digits (`{:02X}`).
pub open spec fn hex2(v: int) -> Seq<char> {
    hex_digit((v / 0x10) % 16) + hex_digit(v % 16)
}

/// Whether `s` holds no escape character.
pub open spec fn no_escape(s: Seq<char>) -> bool {
    forall|i: int| 0 <= i < s.len() ==> s[i] != ESC
}

fn push_hex_digit(out: &mut String, d: u64)
    requires
        d < 16,
        no_escape(old(out)@),
    ensures
        final(out)@ == old(out)@ + hex_digit(d as int),
        no_escape(final(out)@),
{
    let digits = "0123456789ABCDEF";
    proof {
        reveal_strlit("0123456789ABCDEF");
        assert(digits.is_ascii());
    }
    out.append(digits.substring_ascii(d as usize, d as usize + 1));
}

fn push_hex4(out: &mut String, v: u64)
    requires
        no_escape(old(out)@),
    ensures
        final(out)@ == old(out)@ + hex4(v as int),
        no_escape(final(out)@),
{
    push_hex_digit(out, (v / 0x1000) % 16);
    push_hex_digit(out, (v / 0x100) % 16);
    push_hex_digit(out, (v / 0x10) % 16);
    push_hex_digit(out, v % 16);
    assert(final(out)@ =~= old(out)@ + hex4(v as int));
}

fn push_hex2(out: &mut String, v: u64)
    requires
        no_escape(old(out)@),
    ensures
        final(out)@ == old(out)@ + hex2(v as int),
        no_escape(final(out)@),
{
    push_hex_digit(out, (v / 0x10) % 16);
    push_hex_digit(out, v % 16);
    assert(final(out)@ =~= old(out)@ + hex2(v as int));
}

/// Appends `lit`, which holds no escape character.
fn push_text(out: &mut String, lit: &str)
    requires
        no_escape(old(out)@),
        no_escape(lit@),
    ensures
        final(out)@ == old(out)@ + lit@,
        no_escape(final(out)@),
{
    out.append(lit);
}

/// A whole accumulator as `label` and its 40 bits in hexadecimal, split
/// `HH_MMMM_LLLL`.
pub open spec fn acc_text(label: Seq<char>, v: int) -> Seq<char> {
    let w = v % two40();
    label + hex2(w / 0x1_0000_0000) + "_"@ + hex4((w / 0x10000) % 0x10000) + "_"@ + hex4(w % 0x10000)
}

/// The comment part of the register that `key` names (see `ref_key`),
/// spelled `name` in the disassembly.
pub open spec fn part_text(key: u8, name: Seq<char>, regs: Registers) -> Seq<char> {
    if key == 32 {
        acc_text("ac0="@, regs.ac_spec(0))
    } else if key == 33 {
        acc_text("ac1="@, regs.ac_spec(1))
    } else if key == 34 {
        "ax0="@ + hex4(regs.axh[0] as int) + "_"@ + hex4(regs.ax[0] as int)
    } else if key == 35 {
        "ax1="@ + hex4(regs.axh[1] as int) + "_"@ + hex4(regs.ax[1] as int)
    } else if key == 36 {
        "prod="@ + hex4(regs.product_mid2 as int) + "_"@ + hex4(regs.product_high as int) + "_"@ + hex4(
            regs.product_mid1 as int,
        ) + "_"@ + hex4(regs.product_low as int)
    } else {
        name + "="@ + hex4(dsp_reg_value(regs, key) as int)
    }
}

fn push_acc(out: &mut String, label: &str, v: i64)
    requires
        no_escape(old(out)@),
        no_escape(label@),
    ensures
        final(out)@ == old(out)@ + acc_text(label@, v as int),
        no_escape(final(out)@),
{
    let w = (v as u64) & 0xFF_FFFF_FFFF;
    proof {
        lemma_low40(v);
        reveal_strlit("_");
    }
    push_text(out, label);
    push_hex2(out, w / 0x1_0000_0000);
    push_text(out, "_");
    push_hex4(out, (w / 0x10000) % 0x10000);
    push_text(out, "_");
    push_hex4(out, w % 0x10000);
    assert(final(out)@ =~= old(out)@ + acc_text(label@, v as int));
}

fn push_part(out: &mut String, key: u8, name: &str, regs: &Registers)
    requires
        key < 37,
        regs.stacks_wf(),
        no_escape(old(out)@),
        no_escape(name@),
    ensures
        final(out)@ == old(out)@ + part_text(key, name@, *regs),
        no_escape(final(out)@),
{
    proof {
        reveal_strlit("_");
        reveal_strlit("=");
        reveal_strlit("ac0=");
        reveal_strlit("ac1=");
        reveal_strlit("ax0=");
        reveal_strlit("ax1=");
        reveal_strlit("prod=");
    }
    if key == 32 {
        push_acc(out, "ac0=", regs.ac(0));
    } else if key == 33 {
        push_acc(out, "ac1=", regs.ac(1));
    } else if key == 34 || key == 35 {
        let r = (key - 34) as usize;
        push_text(out, if r == 0 { "ax0=" } else { "ax1=" });
        push_hex4(out, regs.axh[r] as u64);
        push_text(out, "_");
        push_hex4(out, regs.ax[r] as u64);
        assert(final(out)@ =~= old(out)@ + part_text(key, name@, *regs));
    } else if key == 36 {
        push_text(out, "prod=");
        push_hex4(out, regs.product_mid2 as u64);
        push_text(out, "_");
        push_hex4(out, regs.product_high as u64);
        push_text(out, "_");
        push_hex4(out, regs.product_mid1 as u64);
        push_text(out, "_");
        push_hex4(out, regs.product_low as u64);
        assert(final(out)@ =~= old(out)@ + part_text(key, name@, *regs));
    } else {
        push_text(out, name);
        push_text(out, "=");
        push_hex4(out, dsp_reg_read(regs, key) as u64);
        assert(final(out)@ =~= old(out)@ + part_text(key, name@, *regs));
    }
}

/// The comment parts of `names`, in order: one per register not shown
/// yet (`seen` holds the keys already shown), names that are no register
/// left out.
pub open spec fn parts_from(names: Seq<Seq<char>>, seen: Set<u8>, regs: Registers) -> Seq<Seq<char>>
    decreases names.len(),
{
    if names.len() == 0 {
        Seq::empty()
    } else {
        let rest = names.drop_first();
        match ref_key(names[0]) {
            Some(k) => if seen.contains(k) {
                parts_from(rest, seen, regs)
            } else {
                seq![part_text(k, names[0], regs)] + parts_from(rest, seen.insert(k), regs)
            },
            None => parts_from(rest, seen, regs),
        }
    }
}

/// `parts` separated by `", "`.
pub open spec fn joined(parts: Seq<Seq<char>>) -> Seq<char>
    decreases parts.len(),
{
    if parts.len() == 0 {
        Seq::empty()
    } else if parts.len() == 1 {
        parts[0]
    } else {
        joined(parts.drop_last()) + ", "@ + parts.last()
    }
}

/// The comment that shows the registers a disassembled DSP instruction
/// names: `"; "` and the parts joined by `", "`, or nothing when it names
/// no register.
pub open spec fn dsp_comment_body(text: Seq<char>, regs: Registers) -> Seq<char> {
    let parts = parts_from(names_from(text, 0), Set::empty(), regs);
    if parts.len() == 0 {
        Seq::empty()
    } else {
        "; "@ + joined(parts)
    }
}

fn collect_chars(s: &str) -> (r: Vec<char>)
    ensures
        r@ == s@,
{
    broadcast use axiom_spec_iter, next_postcondition;

    let mut out: Vec<char> = Vec::new();
    let mut chars = s.chars();
    loop
        invariant
            chars.obeys_prophetic_iter_laws(),
            chars.decrease() is Some,
            out@ + chars.remaining() == s@,
        ensures
            out@ == s@,
        decreases chars.decrease()->0,
    {
        let ghost rest = chars.remaining();
        match chars.next() {
            None => {
                assert(out@ =~= s@);
                break;
            },
            Some(c) => {
                out.push(c);
                assert(out@ + chars.remaining() =~= s@);
            },
        }
    }
    out
}

/// The register comment of a disassembled DSP instruction, undimmed:
/// each `$name` of a register shows its value, each register once.
pub fn dsp_reg_comment_text(text: &str, regs: &Registers) -> (r: String)
    requires
        regs.stacks_wf(),
    ensures
        r@ == dsp_comment_body(text@, *regs),
        no_escape(r@),
{
    let chars = collect_chars(text);
    let len = chars.len();
    let mut seen: [bool; 37] = [false; 37];
    let ghost mut seen_set: Set<u8> = Set::empty();
    let ghost mut parts: Seq<Seq<char>> = Seq::empty();
    let mut out = String::new();
    let mut any = false;
    let mut i: usize = 0;
    while i < len
        invariant
            any == (parts.len() > 0),
            chars@ == text@,
            len == chars@.len(),
            i <= len,
            regs.stacks_wf(),
            no_escape(out@),
            out@ == (if parts.len() == 0 { Seq::empty() } else { "; "@ + joined(parts) }),
            parts + parts_from(names_from(text@, i as int), seen_set, *regs) == parts_from(
                names_from(text@, 0),
                Set::empty(),
                *regs,
            ),
            forall|k: u8| k < 37 ==> (seen[k as int] <==> seen_set.contains(k)),
            forall|k: u8| seen_set.contains(k) ==> k < 37,
        decreases len - i,
    {
        if chars[i] == '$' {
            let start = i + 1;
            let mut end = start;
            while end < len && name_char(chars[end])
                invariant
                    chars@ == text@,
                    len == chars@.len(),
                    start <= end <= len,
                    name_end(text@, start as int) == name_end(text@, end as int),
                    forall|k: int| start <= k < end ==> is_name_char(#[trigger] chars@[k]),
                decreases len - end,
            {
                end = end + 1;
            }
            let ghost name = text@.subrange(start as int, end as int);
            let ghost rest = names_from(text@, end as int);
            assert(names_from(text@, i as int) == seq![name] + rest);
            assert((seq![name] + rest)[0] == name);
            assert((seq![name] + rest).drop_first() =~= rest);
            match register_ref(&chars, start, end) {
                Some(k) => {
                    if !seen[k as usize] {
                        let piece = text.substring_char(start, end);
                        let ghost before = out@;
                        let ghost part = part_text(k, name, *regs);
                        proof {
                            reveal_strlit("; ");
                            reveal_strlit(", ");
                        }
                        if !any {
                            push_text(&mut out, "; ");
                        } else {
                            push_text(&mut out, ", ");
                        }
                        push_part(&mut out, k, piece, regs);
                        seen[k as usize] = true;
                        any = true;
                        proof {
                            let np = parts.push(part);
                            assert(np.drop_last() =~= parts);
                            if parts.len() == 0 {
                                assert(out@ =~= "; "@ + joined(np));
                            } else {
                                assert(out@ =~= "; "@ + joined(np));
                            }
                            assert(np + parts_from(rest, seen_set.insert(k), *regs) =~= parts + (seq![part]
                                + parts_from(rest, seen_set.insert(k), *regs)));
                            parts = np;
                            seen_set = seen_set.insert(k);
                        }
                    }
                },
                None => {},
            }
            i = end;
        } else {
            i = i + 1;
        }
    }
    assert(parts + Seq::<Seq<char>>::empty() =~= parts);
    out
}

/// `s` as a dimmed terminal string: `ESC [2m`, `s`, `ESC [0m`.
pub open spec fn dim_wrapped(s: Seq<char>) -> Seq<char> {
    seq![ESC, '[', '2', 'm'] + s + seq![ESC, '[', '0', 'm']
}

/// `colored::Colorize::dimmed` on `s`, then `to_string`. Whether colours
/// are written depends on the environment and the terminal, so the result
/// is `s` itself or `s` wrapped in the dim and reset sequences; for an `s`
/// with escape sequences of its own the crate rewrites them, which is not
/// stated here.
#[verifier::external_body]
fn dimmed(s: &str) -> (r: String)
    ensures
        no_escape(s@) ==> (r@ == s@ || r@ == dim_wrapped(s@)),
{
    colored::Colorize::dimmed(s).to_string()
}

/// The inline comment that shows the DSP registers a disassembled
/// instruction names (`$ac0`, `$ax1.h`, `$prod`, ...), each once, dimmed
/// where the terminal takes colours; empty when it names none.
pub fn dsp_reg_comment(text: &str, regs: &Registers) -> (r: String)
    requires
        regs.stacks_wf(),
    ensures
        dsp_comment_body(text@, *regs).len() == 0 ==> r@.len() == 0,
        dsp_comment_body(text@, *regs).len() > 0 ==> (r@ == dsp_comment_body(text@, *regs) || r@
            == dim_wrapped(dsp_comment_body(text@, *regs))),
{
    let body = dsp_reg_comment_text(text, regs);
    if body.as_str().is_empty() {
        return String::new();
    }
    dimmed(body.as_str())
}

} // verus!

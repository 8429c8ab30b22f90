use vstd::prelude::*;

verus! {

/// Unsigned LEB128 encoding of `v`: seven bits per byte, least
/// significant first, the high bit set on every byte but the last.
pub open spec fn uleb(v: nat) -> Seq<u8>
    decreases v,
{
    if v < 128 {
        seq![v as u8]
    } else {
        seq![(v % 128 + 128) as u8] + uleb(v / 128)
    }
}

/// The number unsigned LEB128 bytes stand for (continuation bits aside).
pub open spec fn uleb_value(bytes: Seq<u8>) -> nat
    decreases bytes.len(),
{
    if bytes.len() == 0 {
        0
    } else {
        (bytes[0] % 128) as nat + 128 * uleb_value(bytes.drop_first())
    }
}

/// Signed LEB128 encoding of `v`: seven bits per byte, least significant
/// first, until the rest is only sign; the high bit set on every byte but
/// the last, whose bit 6 carries the sign.
pub open spec fn sleb(v: int) -> Seq<u8>
    decreases (if v < 0 { -v } else { v }),
{
    let byte = v % 128;
    let rest = (v - byte) / 128;
    let negative = byte >= 64;
    if (rest == 0 && !negative) || (rest == -1 && negative) {
        seq![byte as u8]
    } else {
        seq![(byte + 128) as u8] + sleb(rest)
    }
}

/// The number signed LEB128 bytes stand for: the last byte is
/// sign-extended from its bit 6.
pub open spec fn sleb_value(bytes: Seq<u8>) -> int
    decreases bytes.len(),
{
    if bytes.len() == 0 {
        0
    } else if bytes.len() == 1 {
        if bytes[0] % 128 >= 64 {
            (bytes[0] % 128) as int - 128
        } else {
            (bytes[0] % 128) as int
        }
    } else {
        (bytes[0] % 128) + 128 * sleb_value(bytes.drop_first())
    }
}

/// Whether `bytes` is framed as one LEB128 number: every byte but the
/// last has its high bit set, the last has it clear.
pub open spec fn leb_framed(bytes: Seq<u8>) -> bool {
    &&& bytes.len() > 0
    &&& forall|i: int| 0 <= i < bytes.len() - 1 ==> #[trigger] bytes[i] >= 128
    &&& bytes.last() < 128
}

/// Unsigned LEB128 reads back: the encoding of `v` is one framed number
/// that stands for `v`.
pub proof fn lemma_uleb_roundtrip(v: nat)
    ensures
        uleb_value(uleb(v)) == v,
        leb_framed(uleb(v)),
    decreases v,
{
    if v < 128 {
        assert(uleb(v).drop_first() =~= Seq::<u8>::empty());
        assert(uleb_value(Seq::<u8>::empty()) == 0);
    } else {
        lemma_uleb_roundtrip(v / 128);
        let s = uleb(v);
        assert(s.drop_first() =~= uleb(v / 128));
        assert(s[0] % 128 == v % 128);
        assert forall|i: int| 0 <= i < s.len() - 1 implies #[trigger] s[i] >= 128 by {
            if i > 0 {
                assert(s[i] == uleb(v / 128)[i - 1]);
            }
        }
    }
}

/// Signed LEB128 reads back: the encoding of `v` is one framed number
/// that stands for `v`.
pub proof fn lemma_sleb_roundtrip(v: int)
    ensures
        sleb_value(sleb(v)) == v,
        leb_framed(sleb(v)),
    decreases (if v < 0 { -v } else { v }),
{
    let byte = v % 128;
    let rest = (v - byte) / 128;
    let negative = byte >= 64;
    if !((rest == 0 && !negative) || (rest == -1 && negative)) {
        lemma_sleb_roundtrip(rest);
        let s = sleb(v);
        assert(s.drop_first() =~= sleb(rest));
        assert(sleb(rest).len() >= 1);
        assert forall|i: int| 0 <= i < s.len() - 1 implies #[trigger] s[i] >= 128 by {
            if i > 0 {
                assert(s[i] == sleb(rest)[i - 1]);
            }
        }
    }
}

/// Appends the unsigned LEB128 encoding of `value`.
pub fn write_uleb(out: &mut Vec<u8>, value: u32)
    ensures
        final(out)@ == old(out)@ + uleb(value as nat),
{
    let ghost start = out@;
    let mut value = value;
    let ghost v0 = value as nat;
    loop
        invariant_except_break
            start + uleb(v0) == out@ + uleb(value as nat),
        ensures
            final(out)@ == start + uleb(v0),
        decreases value,
    {
        let byte = (value % 128) as u8;
        let ghost before = out@;
        if value < 128 {
            out.push(byte);
            assert(out@ =~= before + uleb(value as nat));
            break;
        } else {
            out.push(byte + 128);
            proof {
                assert(uleb(value as nat) =~= seq![(byte + 128) as u8] + uleb((value / 128) as nat));
                assert(before + uleb(value as nat) =~= out@ + uleb((value / 128) as nat));
            }
            value = value / 128;
        }
    }
}

/// Appends the signed LEB128 encoding of `value`.
pub fn write_sleb(out: &mut Vec<u8>, value: i32)
    ensures
        final(out)@ == old(out)@ + sleb(value as int),
{
    let ghost start = out@;
    let mut value: i64 = value as i64;
    let ghost v0 = value as int;
    loop
        invariant_except_break
            start + sleb(v0) == out@ + sleb(value as int),
        invariant
            -0x8000_0000 <= value < 0x8000_0000,
        ensures
            final(out)@ == start + sleb(v0),
        decreases (if value < 0 { -(value as int) } else { value as int }),
    {
        let r = value % 128;
        let byte: i64 = if r < 0 { r + 128 } else { r };
        assert(byte == value as int % 128);
        let rest: i64 = (value - byte) / 128;
        assert(rest == (value as int - byte) / 128);
        let negative = byte >= 64;
        let ghost before = out@;
        if (rest == 0 && !negative) || (rest == -1 && negative) {
            out.push(byte as u8);
            assert(out@ =~= before + sleb(value as int));
            break;
        } else {
            out.push((byte + 128) as u8);
            proof {
                assert(sleb(value as int) =~= seq![(byte + 128) as u8] + sleb(rest as int));
                assert(before + sleb(value as int) =~= out@ + sleb(rest as int));
            }
            value = rest;
        }
    }
}

} // verus!

use crate::dsp::stack::DspStack;
use crate::dsp::status::{
    carry_add40, carry_sub40, is_over_s32, overflow40, top_two_bits_equal, two40, wrap40,
    SignExtensionMode, StatusRegister, SR_ABOVE_S32, SR_ARITHMETIC_ZERO, SR_CARRY, SR_OVERFLOW,
    SR_OVERFLOW_STICKY, SR_SIGN, SR_SIGN_EXTENSION_MODE, SR_TOP_TWO_BITS_EQUAL,
};
use vstd::prelude::*;

verus! {

broadcast use vstd::array::group_array_axioms;

/// Register-file indices of the DSP.
pub const AR0: u8 = 0;
pub const IX0: u8 = 4;
pub const WR0: u8 = 8;
pub const ST0: u8 = 12;
pub const ST1: u8 = 13;
pub const ST2: u8 = 14;
pub const ST3: u8 = 15;
pub const AC0H: u8 = 16;
pub const AC1H: u8 = 17;
pub const CONFIG: u8 = 18;
pub const SR: u8 = 19;
pub const PRODL: u8 = 20;
pub const PRODM1: u8 = 21;
pub const PRODH: u8 = 22;
pub const PRODM2: u8 = 23;
pub const AX0L: u8 = 24;
pub const AX1L: u8 = 25;
pub const AX0H: u8 = 26;
pub const AX1H: u8 = 27;
pub const AC0L: u8 = 28;
pub const AC1L: u8 = 29;
pub const AC0M: u8 = 30;
pub const AC1M: u8 = 31;

/// The low 8 bits of `h`, read as a signed byte.
pub open spec fn sext8(h: u16) -> int {
    let b = h % 256;
    if b >= 128 {
        b - 256
    } else {
        b as int
    }
}

/// Value of a 40-bit accumulator held as high (8 bits used), mid and low words.
pub open spec fn acc_value(h: u16, m: u16, l: u16) -> int {
    sext8(h) * 0x1_0000_0000 + m * 0x10000 + l
}

/// Low word of the 40-bit pattern of `v`.
pub open spec fn acc_low_of(v: int) -> u16 {
    ((v % two40()) % 0x10000) as u16
}

/// Middle word of the 40-bit pattern of `v`.
pub open spec fn acc_mid_of(v: int) -> u16 {
    (((v % two40()) / 0x10000) % 0x10000) as u16
}

/// High byte of the 40-bit pattern of `v`.
pub open spec fn acc_high_of(v: int) -> u16 {
    ((v % two40()) / 0x1_0000_0000) as u16
}

/// Low 16 bits of `v`.
pub open spec fn word_of(v: int) -> u16 {
    (v % 0x10000) as u16
}

pub struct Registers {
    pub pc: u16,
    pub nia: u16,
    pub cia: u16,
    pub ar: [u16; 4],
    pub ix: [u16; 4],
    pub wr: [u16; 4],
    pub call_stack: DspStack<8>,
    pub data_stack: DspStack<4>,
    pub loop_addr: DspStack<4>,
    pub loop_counter: DspStack<4>,
    pub ac0_high: u16,
    pub ac1_high: u16,
    pub config: u16,
    pub status: StatusRegister,
    pub product_low: u16,
    pub product_mid1: u16,
    pub product_high: u16,
    pub product_mid2: u16,
    pub ax: [u16; 2],
    pub axh: [u16; 2],
    pub ac0_low: u16,
    pub ac1_low: u16,
    pub ac0_mid: u16,
    pub ac1_mid: u16,
}

pub proof fn lemma_low40(v: i64)
    ensures
        ((v as u64) & 0xFF_FFFF_FFFFu64) as int == (v as int) % two40(),
{
    assert(((v as u64) & 0xFF_FFFF_FFFFu64) as int == v % 0x100_0000_0000) by (bit_vector);
}

pub proof fn lemma_split40(w: u64)
    requires
        w < 0x100_0000_0000,
    ensures
        (w & 0xFFFF) as int == w % 0x10000,
        ((w >> 16) & 0xFFFF) as int == (w / 0x10000) % 0x10000,
        (w >> 32) as int == w / 0x1_0000_0000,
        w / 0x1_0000_0000 < 256,
        (w / 0x1_0000_0000) * 0x1_0000_0000 + ((w / 0x10000) % 0x10000) * 0x10000 + w % 0x10000
            == w,
        (w >= 0x80_0000_0000) == (w / 0x1_0000_0000 >= 128),
{
    assert((w & 0xFFFF) as int == w % 0x10000 && ((w >> 16) & 0xFFFF) as int == (w / 0x10000)
        % 0x10000 && (w >> 32) as int == w / 0x1_0000_0000 && w / 0x1_0000_0000 < 256 && (w
        / 0x1_0000_0000) * 0x1_0000_0000 + ((w / 0x10000) % 0x10000) * 0x10000 + w % 0x10000 == w
        && (w >= 0x80_0000_0000) == (w / 0x1_0000_0000 >= 128)) by (bit_vector)
        requires
            w < 0x100_0000_0000u64,
    ;
}

/// Storing `v` into an accumulator and reading it back gives `v` wrapped to 40 bits.
pub proof fn lemma_acc_roundtrip(v: int)
    ensures
        acc_value(acc_high_of(v), acc_mid_of(v), acc_low_of(v)) == wrap40(v),
        acc_high_of(v) < 256,
{
    let u = v % two40();
    assert(0 <= u < two40());
    let w = u as u64;
    lemma_split40(w);
}

proof fn lemma_sext8(h: u16)
    ensures
        (h as u8 as i8) as int == sext8(h),
{
    assert((h as u8 as i8) as int == (if h % 256 >= 128 { h % 256 - 256 } else { (h % 256) as int }))
        by (bit_vector);
}

proof fn lemma_word_of(v: i64)
    ensures
        (v as u16) == word_of(v as int),
        ((v >> 16) as u16) == word_of(v as int / 0x10000),
        ((v >> 32) as u16) == word_of(v as int / 0x1_0000_0000),
{
    assert((v as u16) as int == v % 0x10000 && ((v >> 16) as u16) as int == (v / 0x10000) % 0x10000
        && ((v >> 32) as u16) as int == (v / 0x1_0000_0000) % 0x10000) by (bit_vector);
}

proof fn lemma_s32(v: i64)
    ensures
        ((v as i32) as i64 == v) == !is_over_s32(v as int),
{
    assert(((v as i32) as i64 == v) == !(v < -0x8000_0000 || v >= 0x8000_0000)) by (bit_vector);
}

proof fn lemma_tb(v: i64)
    ensures
        ((((v as u64) >> 30) & 3) == 0 || (((v as u64) >> 30) & 3) == 3) == top_two_bits_equal(
            v as int,
        ),
{
    assert((((v as u64) >> 30) & 3) as int == (v % 0x1_0000_0000) / 0x4000_0000) by (bit_vector);
}

/// Wraps `v` to a signed 40-bit value.
pub fn sext40(v: i64) -> (r: i64)
    ensures
        r == wrap40(v as int),
{
    let u = (v as u64) & 0xFF_FFFF_FFFFu64;
    proof {
        lemma_low40(v);
    }
    if u >= 0x80_0000_0000u64 {
        (u as i64) - 0x100_0000_0000i64
    } else {
        u as i64
    }
}

impl Registers {
    /// Value of accumulator `$ac{r}`.
    pub open spec fn ac_spec(&self, r: u8) -> int {
        if r == 0 {
            acc_value(self.ac0_high, self.ac0_mid, self.ac0_low)
        } else {
            acc_value(self.ac1_high, self.ac1_mid, self.ac1_low)
        }
    }

    /// Middle word of accumulator `$ac{r}`.
    pub open spec fn ac_mid_spec(&self, r: u8) -> u16 {
        if r == 0 {
            self.ac0_mid
        } else {
            self.ac1_mid
        }
    }

    /// The register file with `$ac{r}` holding `v` wrapped to 40 bits.
    pub open spec fn with_ac(self, r: u8, v: int) -> Registers {
        if r == 0 {
            Registers {
                ac0_high: acc_high_of(v),
                ac0_mid: acc_mid_of(v),
                ac0_low: acc_low_of(v),
                ..self
            }
        } else {
            Registers {
                ac1_high: acc_high_of(v),
                ac1_mid: acc_mid_of(v),
                ac1_low: acc_low_of(v),
                ..self
            }
        }
    }

    /// Value of the product register.
    pub open spec fn product_spec(&self) -> int {
        sext8(self.product_high) * 0x1_0000_0000 + (self.product_mid1 + self.product_mid2) * 0x10000
            + self.product_low
    }

    /// The register file with the product register holding `v`.
    pub open spec fn with_product(self, v: int) -> Registers {
        Registers {
            product_high: word_of(v / 0x1_0000_0000),
            product_mid1: word_of(v / 0x10000),
            product_low: word_of(v),
            product_mid2: 0,
            ..self
        }
    }

    pub open spec fn with_status(self, s: StatusRegister) -> Registers {
        Registers { status: s, ..self }
    }

    pub open spec fn sign_extended_spec(&self) -> bool {
        self.status.flag(SR_SIGN_EXTENSION_MODE)
    }

    pub open spec fn stacks_wf(&self) -> bool {
        &&& self.call_stack.wf()
        &&& self.data_stack.wf()
        &&& self.loop_addr.wf()
        &&& self.loop_counter.wf()
    }

    /// Accumulator `$ac{r}` as a 40-bit signed value.
    pub fn ac(&self, r: u8) -> (v: i64)
        requires
            r < 2,
        ensures
            v == self.ac_spec(r),
            -0x80_0000_0000 <= v < 0x80_0000_0000,
    {
        let (h, m, l) = if r == 0 {
            (self.ac0_high, self.ac0_mid, self.ac0_low)
        } else {
            (self.ac1_high, self.ac1_mid, self.ac1_low)
        };
        proof {
            lemma_sext8(h);
        }
        let hi = (h as u8) as i8 as i64;
        hi * 0x1_0000_0000i64 + (m as i64) * 0x10000i64 + (l as i64)
    }

    /// Middle word of accumulator `$ac{r}`.
    pub fn ac_mid(&self, r: u8) -> (v: u16)
        requires
            r < 2,
        ensures
            v == self.ac_mid_spec(r),
    {
        if r == 0 {
            self.ac0_mid
        } else {
            self.ac1_mid
        }
    }

    /// Stores `v`, wrapped to 40 bits, into accumulator `$ac{r}`.
    pub fn set_ac(&mut self, r: u8, v: i64)
        requires
            r < 2,
        ensures
            *final(self) == old(self).with_ac(r, v as int),
            final(self).ac_spec(r) == wrap40(v as int),
    {
        let u = (v as u64) & 0xFF_FFFF_FFFFu64;
        proof {
            lemma_low40(v);
            lemma_split40(u);
            lemma_acc_roundtrip(v as int);
        }
        let l = (u & 0xFFFF) as u16;
        let m = ((u >> 16) & 0xFFFF) as u16;
        let h = (u >> 32) as u16;
        if r == 0 {
            self.ac0_high = h;
            self.ac0_mid = m;
            self.ac0_low = l;
        } else {
            self.ac1_high = h;
            self.ac1_mid = m;
            self.ac1_low = l;
        }
    }

    /// Value of the product register.
    pub fn product(&self) -> (v: i64)
        ensures
            v == self.product_spec(),
    {
        proof {
            lemma_sext8(self.product_high);
        }
        let ph = (self.product_high as u8) as i8 as i64;
        let pm1 = self.product_mid1 as i64;
        let pm2 = self.product_mid2 as i64;
        let pl = self.product_low as i64;
        ph * 0x1_0000_0000i64 + (pm1 + pm2) * 0x10000i64 + pl
    }

    /// Stores `val` into the product register.
    pub fn write_product(&mut self, val: i64)
        ensures
            *final(self) == old(self).with_product(val as int),
    {
        proof {
            lemma_word_of(val);
        }
        self.product_high = (val >> 32) as u16;
        self.product_mid1 = (val >> 16) as u16;
        self.product_low = val as u16;
        self.product_mid2 = 0;
    }

    /// Sets the zero, sign, above-s32 and top-two-bits flags from `v`.
    pub fn update_flags_ac(&mut self, v: i64)
        ensures
            *final(self) == old(self).with_status(old(self).status.with_value_flags(v as int)),
    {
        proof {
            lemma_s32(v);
            lemma_tb(v);
        }
        let t = ((v as u64) >> 30) & 3;
        self.status.set(SR_ARITHMETIC_ZERO, v == 0);
        self.status.set(SR_SIGN, v < 0);
        self.status.set(SR_ABOVE_S32, (v as i32) as i64 != v);
        self.status.set(SR_TOP_TWO_BITS_EQUAL, t == 0 || t == 3);
    }

    fn update_flags_arith(&mut self, result: i64, c: bool, o: bool)
        ensures
            *final(self) == old(self).with_status(
                old(self).status.with_arith_flags(wrap40(result as int), c, o),
            ),
    {
        let os = self.status.overflow_sticky();
        self.status.set(SR_CARRY, c);
        self.status.set(SR_OVERFLOW, o);
        self.status.set(SR_OVERFLOW_STICKY, os || o);
        let v = sext40(result);
        self.update_flags_ac(v);
    }

    /// Flags after `result = a + b` on 40-bit accumulators.
    pub fn update_flags_add(&mut self, a: i64, b: i64, result: i64)
        ensures
            *final(self) == old(self).with_status(
                old(self).status.with_arith_flags(
                    wrap40(result as int),
                    carry_add40(a as int, result as int),
                    overflow40(a as int, b as int, result as int),
                ),
            ),
    {
        proof {
            lemma_low40(a);
            lemma_low40(b);
            lemma_low40(result);
        }
        let ua = (a as u64) & 0xFF_FFFF_FFFFu64;
        let ub = (b as u64) & 0xFF_FFFF_FFFFu64;
        let ur = (result as u64) & 0xFF_FFFF_FFFFu64;
        let sa = ua >= 0x80_0000_0000u64;
        let sb = ub >= 0x80_0000_0000u64;
        let sr = ur >= 0x80_0000_0000u64;
        self.update_flags_arith(result, ua > ur, sa == sb && sa != sr);
    }

    /// Flags after `result = a - b` on 40-bit accumulators.
    pub fn update_flags_sub(&mut self, a: i64, b: i64, result: i64)
        requires
            b > i64::MIN,
        ensures
            *final(self) == old(self).with_status(
                old(self).status.with_arith_flags(
                    wrap40(result as int),
                    carry_sub40(a as int, result as int),
                    overflow40(a as int, -b, result as int),
                ),
            ),
    {
        let nb: i64 = -b;
        proof {
            lemma_low40(a);
            lemma_low40(nb);
            lemma_low40(result);
        }
        let ua = (a as u64) & 0xFF_FFFF_FFFFu64;
        let ub = (nb as u64) & 0xFF_FFFF_FFFFu64;
        let ur = (result as u64) & 0xFF_FFFF_FFFFu64;
        let sa = ua >= 0x80_0000_0000u64;
        let sb = ub >= 0x80_0000_0000u64;
        let sr = ur >= 0x80_0000_0000u64;
        self.update_flags_arith(result, ua >= ur, sa == sb && sa != sr);
    }
}


/// `$acX.m` clamped to 16 bits when `$acX.h` is not its sign extension.
pub open spec fn saturate_spec(high: u16, mid: u16) -> u16 {
    let sign_ext: u16 = if mid & 0x8000 != 0 { 0x00FF } else { 0 };
    if high != sign_ext {
        if high & 0x80 != 0 { 0x8000 } else { 0x7FFF }
    } else {
        mid
    }
}

/// `$acX.h` as set by a sign-extending write of `mid`.
pub open spec fn high_ext_of(mid: u16) -> u16 {
    if mid & 0x8000 != 0 { 0x00FF } else { 0 }
}

impl Registers {
    /// Value read from register-file index `index`.
    pub open spec fn read_spec(&self, allow_saturation: bool, index: u8) -> u16 {
        if index < 4 {
            self.ar[index as int]
        } else if index < 8 {
            self.ix[index - 4]
        } else if index < 12 {
            self.wr[index - 8]
        } else if index == ST0 {
            self.call_stack.top_spec()
        } else if index == ST1 {
            self.data_stack.top_spec()
        } else if index == ST2 {
            self.loop_addr.top_spec()
        } else if index == ST3 {
            self.loop_counter.top_spec()
        } else if index == AC0H {
            self.ac0_high
        } else if index == AC1H {
            self.ac1_high
        } else if index == CONFIG {
            self.config
        } else if index == SR {
            self.status.raw
        } else if index == PRODL {
            self.product_low
        } else if index == PRODM1 {
            self.product_mid1
        } else if index == PRODH {
            self.product_high
        } else if index == PRODM2 {
            self.product_mid2
        } else if index < 26 {
            self.ax[index - 24]
        } else if index < 28 {
            self.axh[index - 26]
        } else if index == AC0L {
            self.ac0_low
        } else if index == AC1L {
            self.ac1_low
        } else if index == AC0M {
            if allow_saturation && self.sign_extended_spec() {
                saturate_spec(self.ac0_high, self.ac0_mid)
            } else {
                self.ac0_mid
            }
        } else {
            if allow_saturation && self.sign_extended_spec() {
                saturate_spec(self.ac1_high, self.ac1_mid)
            } else {
                self.ac1_mid
            }
        }
    }

    /// The register file after writing `value` to index `index`.
    pub open spec fn write_spec(self, allow_sign_extension: bool, index: u8, value: u16) -> Registers {
        if index < 4 {
            Registers { ar: vstd::array::spec_array_update(self.ar, index as int, value), ..self }
        } else if index < 8 {
            Registers { ix: vstd::array::spec_array_update(self.ix, index - 4, value), ..self }
        } else if index < 12 {
            Registers { wr: vstd::array::spec_array_update(self.wr, index - 8, value), ..self }
        } else if index == ST0 {
            Registers { call_stack: self.call_stack.with_top(value), ..self }
        } else if index == ST1 {
            Registers { data_stack: self.data_stack.with_top(value), ..self }
        } else if index == ST2 {
            Registers { loop_addr: self.loop_addr.with_top(value), ..self }
        } else if index == ST3 {
            Registers { loop_counter: self.loop_counter.with_top(value), ..self }
        } else if index == AC0H {
            Registers { ac0_high: value, ..self }
        } else if index == AC1H {
            Registers { ac1_high: value, ..self }
        } else if index == CONFIG {
            Registers { config: value, ..self }
        } else if index == SR {
            Registers { status: StatusRegister { raw: value }, ..self }
        } else if index == PRODL {
            Registers { product_low: value, ..self }
        } else if index == PRODM1 {
            Registers { product_mid1: value, ..self }
        } else if index == PRODH {
            Registers { product_high: value, ..self }
        } else if index == PRODM2 {
            Registers { product_mid2: value, ..self }
        } else if index < 26 {
            Registers { ax: vstd::array::spec_array_update(self.ax, index - 24, value), ..self }
        } else if index < 28 {
            Registers { axh: vstd::array::spec_array_update(self.axh, index - 26, value), ..self }
        } else if index == AC0L {
            Registers { ac0_low: value, ..self }
        } else if index == AC1L {
            Registers { ac1_low: value, ..self }
        } else if index == AC0M {
            if allow_sign_extension && self.sign_extended_spec() {
                Registers { ac0_mid: value, ac0_high: high_ext_of(value), ac0_low: 0, ..self }
            } else {
                Registers { ac0_mid: value, ..self }
            }
        } else {
            if allow_sign_extension && self.sign_extended_spec() {
                Registers { ac1_mid: value, ac1_high: high_ext_of(value), ac1_low: 0, ..self }
            } else {
                Registers { ac1_mid: value, ..self }
            }
        }
    }

    #[inline(always)]
    pub fn sign_extended(&self) -> (r: bool)
        ensures
            r == self.sign_extended_spec(),
    {
        self.status.sign_extension_mode() == SignExtensionMode::Bits40
    }

    #[inline(always)]
    fn saturate_ac_mid(&self, high: u16, mid: u16) -> (r: u16)
        ensures
            r == saturate_spec(high, mid),
    {
        let sign_ext = if mid & 0x8000 != 0 { 0x00FF } else { 0 };
        if high != sign_ext {
            if high & 0x80 != 0 { 0x8000 } else { 0x7FFF }
        } else {
            mid
        }
    }

    /// Reads register-file index `index`; with saturation enabled, `$acX.m`
    /// reads are clamped while sign extension is on.
    #[inline(always)]
    pub fn read<const ALLOW_SATURATION: bool>(&self, index: u8) -> (r: u16)
        requires
            index < 32,
            self.stacks_wf(),
        ensures
            r == self.read_spec(ALLOW_SATURATION, index),
    {
        match index {
            0..=3 => self.ar[index as usize],
            4..=7 => self.ix[(index - 4) as usize],
            8..=11 => self.wr[(index - 8) as usize],
            12 => self.call_stack.top(),
            13 => self.data_stack.top(),
            14 => self.loop_addr.top(),
            15 => self.loop_counter.top(),
            16 => self.ac0_high,
            17 => self.ac1_high,
            18 => self.config,
            19 => self.status.to_raw(),
            20 => self.product_low,
            21 => self.product_mid1,
            22 => self.product_high,
            23 => self.product_mid2,
            24..=25 => self.ax[(index - 24) as usize],
            26..=27 => self.axh[(index - 26) as usize],
            28 => self.ac0_low,
            29 => self.ac1_low,
            30 => {
                if ALLOW_SATURATION && self.sign_extended() {
                    return self.saturate_ac_mid(self.ac0_high, self.ac0_mid);
                }
                self.ac0_mid
            },
            _ => {
                if ALLOW_SATURATION && self.sign_extended() {
                    return self.saturate_ac_mid(self.ac1_high, self.ac1_mid);
                }
                self.ac1_mid
            },
        }
    }

    /// Writes register-file index `index`; with sign extension enabled, a
    /// write to `$acX.m` also sets `$acX.h` and clears `$acX.l` while sign
    /// extension is on.
    #[inline(always)]
    pub fn write<const ALLOW_SIGN_EXTENSION: bool>(&mut self, index: u8, value: u16)
        requires
            index < 32,
            old(self).stacks_wf(),
        ensures
            *final(self) == old(self).write_spec(ALLOW_SIGN_EXTENSION, index, value),
            final(self).stacks_wf(),
    {
        proof {
            self.call_stack.lemma_with_top(value);
            self.data_stack.lemma_with_top(value);
            self.loop_addr.lemma_with_top(value);
            self.loop_counter.lemma_with_top(value);
        }
        match index {
            0..=3 => {
                self.ar[index as usize] = value;
                assert(self.ar =~= vstd::array::spec_array_update(old(self).ar, index as int, value));
            },
            4..=7 => {
                self.ix[(index - 4) as usize] = value;
                assert(self.ix =~= vstd::array::spec_array_update(old(self).ix, index - 4, value));
            },
            8..=11 => {
                self.wr[(index - 8) as usize] = value;
                assert(self.wr =~= vstd::array::spec_array_update(old(self).wr, index - 8, value));
            },
            12 => self.call_stack.set_top(value),
            13 => self.data_stack.set_top(value),
            14 => self.loop_addr.set_top(value),
            15 => self.loop_counter.set_top(value),
            16 => self.ac0_high = value,
            17 => self.ac1_high = value,
            18 => self.config = value,
            19 => self.status = StatusRegister::from_raw(value),
            20 => self.product_low = value,
            21 => self.product_mid1 = value,
            22 => self.product_high = value,
            23 => self.product_mid2 = value,
            24..=25 => {
                self.ax[(index - 24) as usize] = value;
                assert(self.ax =~= vstd::array::spec_array_update(old(self).ax, index - 24, value));
            },
            26..=27 => {
                self.axh[(index - 26) as usize] = value;
                assert(self.axh =~= vstd::array::spec_array_update(old(self).axh, index - 26, value));
            },
            28 => self.ac0_low = value,
            29 => self.ac1_low = value,
            30 => {
                let ext = ALLOW_SIGN_EXTENSION && self.sign_extended();
                self.ac0_mid = value;
                if ext {
                    self.ac0_high = if value & 0x8000 != 0 { 0x00FF } else { 0 };
                    self.ac0_low = 0;
                }
            },
            _ => {
                let ext = ALLOW_SIGN_EXTENSION && self.sign_extended();
                self.ac1_mid = value;
                if ext {
                    self.ac1_high = if value & 0x8000 != 0 { 0x00FF } else { 0 };
                    self.ac1_low = 0;
                }
            },
        }
    }
}


impl Registers {
    /// Status flags describing `v`.
    pub open spec fn flags_ac(self, v: int) -> Registers {
        self.with_status(self.status.with_value_flags(v))
    }

    /// Status flags after `r = a + b` on 40-bit accumulators.
    pub open spec fn flags_add(self, a: int, b: int, r: int) -> Registers {
        self.with_status(
            self.status.with_arith_flags(wrap40(r), carry_add40(a, r), overflow40(a, b, r)),
        )
    }

    /// Status flags after `r = a - b` on 40-bit accumulators.
    pub open spec fn flags_sub(self, a: int, b: int, r: int) -> Registers {
        self.with_status(
            self.status.with_arith_flags(wrap40(r), carry_sub40(a, r), overflow40(a, -b, r)),
        )
    }

    /// The register file with status bit `i` set to `b`.
    pub open spec fn with_sr(self, i: u16, b: bool) -> Registers {
        self.with_status(self.status.with_flag(i, b))
    }

    /// The register file with `$ar{i}` holding `v`.
    pub open spec fn with_ar(self, i: int, v: u16) -> Registers {
        Registers { ar: vstd::array::spec_array_update(self.ar, i, v), ..self }
    }

    /// Sets status bit `i`.
    pub fn set_sr(&mut self, i: u16, b: bool)
        requires
            i < 16,
        ensures
            *final(self) == old(self).with_sr(i, b),
    {
        self.status.set(i, b);
    }

    /// Sets address register `$ar{i}`.
    pub fn set_ar(&mut self, i: usize, v: u16)
        requires
            i < 4,
        ensures
            *final(self) == old(self).with_ar(i as int, v),
    {
        self.ar[i] = v;
        assert(self.ar =~= vstd::array::spec_array_update(old(self).ar, i as int, v));
    }
}

/// A sign-extending write of `value` to any register, followed by a
/// saturating read of the same register, returns `value`.
pub proof fn lemma_register_write_read(r: Registers, index: u8, value: u16)
    requires
        index < 32,
        r.stacks_wf(),
    ensures
        r.write_spec(true, index, value).read_spec(true, index) == value,
{
    if index == ST0 {
        r.call_stack.lemma_with_top(value);
    } else if index == ST1 {
        r.data_stack.lemma_with_top(value);
    } else if index == ST2 {
        r.loop_addr.lemma_with_top(value);
    } else if index == ST3 {
        r.loop_counter.lemma_with_top(value);
    }
}

} // verus!

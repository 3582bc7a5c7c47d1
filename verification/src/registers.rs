//! The SM83 core registers: eight 8-bit registers (with the flag register F),
//! the internal W/Z pair, and the 16-bit SP and PC.
use vstd::prelude::*;
use crate::types::Address;

verus! {

/// The four flags kept in the high nibble of register F.
#[derive(Debug, Clone, Copy, PartialEq, Eq, Structural)]
pub enum FlagBits {
    Z,
    N,
    H,
    C,
}

/// The bit of register F that holds a flag.
pub open spec fn flag_mask(flag: FlagBits) -> u8 {
    match flag {
        FlagBits::Z => 0x80,
        FlagBits::N => 0x40,
        FlagBits::H => 0x20,
        FlagBits::C => 0x10,
    }
}

impl FlagBits {
    /// The bit of register F that holds this flag.
    pub fn mask(self) -> (r: u8)
        ensures
            r == flag_mask(self),
    {
        match self {
            FlagBits::Z => 0x80,
            FlagBits::N => 0x40,
            FlagBits::H => 0x20,
            FlagBits::C => 0x10,
        }
    }
}

/// A detached copy of the four flags.
#[derive(Debug, Clone, Copy, PartialEq, Eq, Structural)]
pub struct FlagsView {
    pub z: bool,
    pub n: bool,
    pub h: bool,
    pub c: bool,
}

/// The four flags (zero, negative, half carry, carry) as booleans.
#[derive(Debug, Clone, Copy)]
pub struct Flags {
    z: bool,
    n: bool,
    h: bool,
    c: bool,
}

impl View for Flags {
    type V = FlagsView;

    closed spec fn view(&self) -> FlagsView {
        FlagsView { z: self.z, n: self.n, h: self.h, c: self.c }
    }
}

/// Carry out of bit 7 of `lhs + rhs + carry`.
pub open spec fn spec_add_carry(lhs: u8, rhs: u8, carry: bool) -> bool {
    lhs + rhs + (if carry { 1int } else { 0int }) > 0xff
}

/// Borrow of `lhs - rhs - carry`.
pub open spec fn spec_sub_carry(lhs: u8, rhs: u8, carry: bool) -> bool {
    lhs < rhs + (if carry { 1int } else { 0int })
}

/// Carry out of bit 3 of `lhs + rhs + carry`.
pub open spec fn spec_add_half_carry(lhs: u8, rhs: u8, carry: bool) -> bool {
    lhs % 16 + rhs % 16 + (if carry { 1int } else { 0int }) > 0x0f
}

/// Borrow from bit 4 of `lhs - rhs - carry`.
pub open spec fn spec_sub_half_carry(lhs: u8, rhs: u8, carry: bool) -> bool {
    lhs % 16 < rhs % 16 + (if carry { 1int } else { 0int })
}

impl Flags {
    pub fn new(z: bool, n: bool, h: bool, c: bool) -> (r: Self)
        ensures
            r@ == (FlagsView { z, n, h, c }),
    {
        Self { z, n, h, c }
    }

    pub fn z(&self) -> (r: bool)
        ensures
            r == self@.z,
    {
        self.z
    }

    pub fn n(&self) -> (r: bool)
        ensures
            r == self@.n,
    {
        self.n
    }

    pub fn h(&self) -> (r: bool)
        ensures
            r == self@.h,
    {
        self.h
    }

    pub fn c(&self) -> (r: bool)
        ensures
            r == self@.c,
    {
        self.c
    }

    pub fn add_carry(lhs: u8, rhs: u8, carry: bool) -> (r: bool)
        ensures
            r == spec_add_carry(lhs, rhs, carry),
    {
        (lhs as u16 + rhs as u16 + if carry { 1u16 } else { 0u16 }) > 0xff
    }

    pub fn sub_carry(lhs: u8, rhs: u8, carry: bool) -> (r: bool)
        ensures
            r == spec_sub_carry(lhs, rhs, carry),
    {
        (lhs as u16) < (rhs as u16 + if carry { 1u16 } else { 0u16 })
    }

    pub fn add_half_carry(lhs: u8, rhs: u8, carry: bool) -> (r: bool)
        ensures
            r == spec_add_half_carry(lhs, rhs, carry),
    {
        let l = lhs & 0x0F;
        let r = rhs & 0x0F;
        assert(l == lhs % 16 && r == rhs % 16) by (bit_vector)
            requires
                l == lhs & 0x0F,
                r == rhs & 0x0F,
        ;
        (l + r + if carry { 1u8 } else { 0u8 }) > 0x0F
    }

    pub fn sub_half_carry(lhs: u8, rhs: u8, carry: bool) -> (r: bool)
        ensures
            r == spec_sub_half_carry(lhs, rhs, carry),
    {
        let l = lhs & 0x0F;
        let r = rhs & 0x0F;
        assert(l == lhs % 16 && r == rhs % 16) by (bit_vector)
            requires
                l == lhs & 0x0F,
                r == rhs & 0x0F,
        ;
        l < (r + if carry { 1u8 } else { 0u8 })
    }
}

/// The 8-bit registers, including the internal W and Z.
#[derive(Debug, Clone, Copy, PartialEq, Eq, Structural)]
pub enum Registers8Bit {
    A,
    B,
    C,
    D,
    E,
    F,
    H,
    L,
    W,
    Z,
}

/// The 16-bit registers and register pairs.
#[derive(Debug, Clone, Copy, PartialEq, Eq, Structural)]
pub enum Registers16Bit {
    AF,
    BC,
    DE,
    HL,
    WZ,
    SP,
    PC,
}

/// The value of every register.
#[derive(Debug, Clone, Copy, PartialEq, Eq, Structural)]
pub struct RegistersView {
    pub a: u8,
    pub b: u8,
    pub c: u8,
    pub d: u8,
    pub e: u8,
    pub f: u8,
    pub h: u8,
    pub l: u8,
    pub z: u8,
    pub w: u8,
    pub sp: u16,
    pub pc: u16,
}

/// A flag register value with one flag set or cleared.
pub open spec fn set_flag_bit(f: u8, flag: FlagBits, on: bool) -> u8 {
    if on {
        f | flag_mask(flag)
    } else {
        f & (flag_mask(flag) ^ 0xFF)
    }
}

/// The 16-bit value whose high byte is `hi` and low byte `lo`.
pub open spec fn join_bytes(hi: u8, lo: u8) -> u16 {
    (hi * 256 + lo) as u16
}

/// The high byte of a 16-bit value.
pub open spec fn high_byte(v: u16) -> u8 {
    (v / 256) as u8
}

/// The low byte of a 16-bit value.
pub open spec fn low_byte(v: u16) -> u8 {
    (v % 256) as u8
}

proof fn lemma_join_split(v: u16)
    ensures
        join_bytes(high_byte(v), low_byte(v)) == v,
{
}

proof fn lemma_bytes_bits(hi: u8, lo: u8, v: u16)
    ensures
        ((hi as u16) << 8u16) | (lo as u16) == hi * 256 + lo,
        ((v >> 8u16) as u8) == v / 256,
        (v as u8) == v % 256,
{
    assert(((hi as u16) << 8u16) | (lo as u16) == hi * 256 + lo) by (bit_vector);
    assert(((v >> 8u16) as u8) == v / 256) by (bit_vector);
    assert((v as u8) == v % 256) by (bit_vector);
}

/// Law: the register pairs BC, DE, HL and WZ read back the word written to them, and a pair
/// reads as its high register times 256 plus its low one, so writing one 8-bit register
/// changes only its byte of the pair.
pub proof fn lemma_register_pairs(r: RegistersView, pair: Registers16Bit, v: u16, x: u8)
    requires
        pair is BC || pair is DE || pair is HL || pair is WZ,
    ensures
        r.with_word(pair, v).word(pair) == v,
        r.with_byte(Registers8Bit::B, x).word(Registers16Bit::BC) == x * 256 + r.c,
        r.with_byte(Registers8Bit::C, x).word(Registers16Bit::BC) == r.b * 256 + x,
        r.with_byte(Registers8Bit::D, x).word(Registers16Bit::DE) == x * 256 + r.e,
        r.with_byte(Registers8Bit::E, x).word(Registers16Bit::DE) == r.d * 256 + x,
        r.with_byte(Registers8Bit::H, x).word(Registers16Bit::HL) == x * 256 + r.l,
        r.with_byte(Registers8Bit::L, x).word(Registers16Bit::HL) == r.h * 256 + x,
        r.with_byte(Registers8Bit::W, x).word(Registers16Bit::WZ) == x * 256 + r.z,
        r.with_byte(Registers8Bit::Z, x).word(Registers16Bit::WZ) == r.w * 256 + x,
{
    lemma_join_split(v);
}

/// Law: each 16-bit register reads as its high byte times 256 plus its low byte, the two
/// bytes that `get_word_msb` and `get_word_lsb` give.
pub proof fn lemma_word_halves(r: RegistersView, reg: Registers16Bit)
    ensures
        join_bytes(r.word_msb(reg), r.word_lsb(reg)) == r.word(reg),
{
    lemma_join_split(r.sp);
    lemma_join_split(r.pc);
}

proof fn lemma_masked_high_nibble(v: u16)
    by (bit_vector)
    ensures
        ((v & 0x00F0) as u8) & 0x0F == 0,
        ((v as u8) & 0xF0) & 0x0F == 0,
        0xB0u8 & 0x0F == 0,
        0u8 & 0x0F == 0,
{
}

proof fn lemma_flag_bits_read_back(f: u8, z: bool, n: bool, h: bool, c: bool)
    by (bit_vector)
    ensures
        ({
            let f1 = if z { f | 0x80 } else { f & (0x80u8 ^ 0xFFu8) };
            let f2 = if n { f1 | 0x40 } else { f1 & (0x40u8 ^ 0xFFu8) };
            let f3 = if h { f2 | 0x20 } else { f2 & (0x20u8 ^ 0xFFu8) };
            let f4 = if c { f3 | 0x10 } else { f3 & (0x10u8 ^ 0xFFu8) };
            &&& (f4 & 0x80 != 0) == z
            &&& (f4 & 0x40 != 0) == n
            &&& (f4 & 0x20 != 0) == h
            &&& (f4 & 0x10 != 0) == c
        }),
{
}

/// Law: the four flags read back from F as they were written into it.
pub proof fn lemma_flags_read_back(r: RegistersView, flags: FlagsView)
    ensures
        (RegistersView { f: r.f_with_flags(flags), ..r }).flags() == flags,
        (r.f_with_flags(flags) & 0x80 != 0) == flags.z,
        (r.f_with_flags(flags) & 0x40 != 0) == flags.n,
        (r.f_with_flags(flags) & 0x20 != 0) == flags.h,
        (r.f_with_flags(flags) & 0x10 != 0) == flags.c,
{
    lemma_flag_bits_read_back(r.f, flags.z, flags.n, flags.h, flags.c);
}

proof fn lemma_high_nibble_ops(f: u8, v: u8, m: u8)
    by (bit_vector)
    requires
        f & 0x0F == 0,
        m == 0 || m == 0x80 || m == 0x40 || m == 0x20 || m == 0x10,
    ensures
        (v & 0xF0) & 0x0F == 0,
        (f | m) & 0x0F == 0,
        (f & (m ^ 0xFF)) & 0x0F == 0,
{
}

/// Law: the low nibble of F reads 0 after every write that reaches F (a byte, the pair AF, its
/// low byte, one flag or all four), where it read 0 before.
pub proof fn lemma_f_low_nibble_clear(
    r: RegistersView,
    v: u8,
    w: u16,
    flag: FlagBits,
    on: bool,
    flags: FlagsView,
)
    requires
        r.f & 0x0F == 0,
    ensures
        r.with_byte(Registers8Bit::F, v).f & 0x0F == 0,
        r.with_word(Registers16Bit::AF, w).f & 0x0F == 0,
        r.with_word_lsb(Registers16Bit::AF, v).f & 0x0F == 0,
        r.f_with_flag(flag, on) & 0x0F == 0,
        r.f_with_flags(flags) & 0x0F == 0,
{
    lemma_high_nibble_ops(r.f, v, flag_mask(flag));
    lemma_high_nibble_ops(r.f, low_byte(w), 0);
    let f1 = set_flag_bit(r.f, FlagBits::Z, flags.z);
    lemma_high_nibble_ops(r.f, v, 0x80);
    let f2 = set_flag_bit(f1, FlagBits::N, flags.n);
    lemma_high_nibble_ops(f1, v, 0x40);
    let f3 = set_flag_bit(f2, FlagBits::H, flags.h);
    lemma_high_nibble_ops(f2, v, 0x20);
    lemma_high_nibble_ops(f3, v, 0x10);
}

impl RegistersView {
    /// Whether the flag is set in F.
    pub open spec fn flag(self, flag: FlagBits) -> bool {
        self.f & flag_mask(flag) != 0
    }

    /// The four flags of F.
    pub open spec fn flags(self) -> FlagsView {
        FlagsView {
            z: self.flag(FlagBits::Z),
            n: self.flag(FlagBits::N),
            h: self.flag(FlagBits::H),
            c: self.flag(FlagBits::C),
        }
    }

    /// F with one flag set or cleared.
    pub open spec fn f_with_flag(self, flag: FlagBits, on: bool) -> u8 {
        set_flag_bit(self.f, flag, on)
    }

    /// F with the four flags replaced.
    pub open spec fn f_with_flags(self, flags: FlagsView) -> u8 {
        set_flag_bit(
            set_flag_bit(set_flag_bit(set_flag_bit(self.f, FlagBits::Z, flags.z), FlagBits::N, flags.n), FlagBits::H, flags.h),
            FlagBits::C,
            flags.c,
        )
    }

    /// The value of an 8-bit register.
    pub open spec fn byte(self, r: Registers8Bit) -> u8 {
        match r {
            Registers8Bit::A => self.a,
            Registers8Bit::B => self.b,
            Registers8Bit::C => self.c,
            Registers8Bit::D => self.d,
            Registers8Bit::E => self.e,
            Registers8Bit::F => self.f,
            Registers8Bit::H => self.h,
            Registers8Bit::L => self.l,
            Registers8Bit::W => self.w,
            Registers8Bit::Z => self.z,
        }
    }

    /// The registers after writing an 8-bit register; the low nibble of F always reads 0.
    pub open spec fn with_byte(self, r: Registers8Bit, v: u8) -> RegistersView {
        match r {
            Registers8Bit::A => RegistersView { a: v, ..self },
            Registers8Bit::B => RegistersView { b: v, ..self },
            Registers8Bit::C => RegistersView { c: v, ..self },
            Registers8Bit::D => RegistersView { d: v, ..self },
            Registers8Bit::E => RegistersView { e: v, ..self },
            Registers8Bit::F => RegistersView { f: v & 0xF0, ..self },
            Registers8Bit::H => RegistersView { h: v, ..self },
            Registers8Bit::L => RegistersView { l: v, ..self },
            Registers8Bit::W => RegistersView { w: v, ..self },
            Registers8Bit::Z => RegistersView { z: v, ..self },
        }
    }

    /// The value of a 16-bit register or register pair.
    pub open spec fn word(self, r: Registers16Bit) -> u16 {
        match r {
            Registers16Bit::AF => join_bytes(self.a, self.f),
            Registers16Bit::BC => join_bytes(self.b, self.c),
            Registers16Bit::DE => join_bytes(self.d, self.e),
            Registers16Bit::HL => join_bytes(self.h, self.l),
            Registers16Bit::WZ => join_bytes(self.w, self.z),
            Registers16Bit::SP => self.sp,
            Registers16Bit::PC => self.pc,
        }
    }

    /// The registers after writing a 16-bit register; for AF only the high nibble of the low byte is kept.
    pub open spec fn with_word(self, r: Registers16Bit, v: u16) -> RegistersView {
        match r {
            Registers16Bit::AF => RegistersView { a: high_byte(v), f: low_byte(v) & 0xF0, ..self },
            Registers16Bit::BC => RegistersView { b: high_byte(v), c: low_byte(v), ..self },
            Registers16Bit::DE => RegistersView { d: high_byte(v), e: low_byte(v), ..self },
            Registers16Bit::HL => RegistersView { h: high_byte(v), l: low_byte(v), ..self },
            Registers16Bit::WZ => RegistersView { w: high_byte(v), z: low_byte(v), ..self },
            Registers16Bit::SP => RegistersView { sp: v, ..self },
            Registers16Bit::PC => RegistersView { pc: v, ..self },
        }
    }

    /// What `get_word_lsb` gives: the low register of a pair, or the low byte of SP and PC.
    pub open spec fn word_lsb(self, r: Registers16Bit) -> u8 {
        match r {
            Registers16Bit::AF => self.f,
            Registers16Bit::BC => self.c,
            Registers16Bit::DE => self.e,
            Registers16Bit::HL => self.l,
            Registers16Bit::WZ => self.z,
            Registers16Bit::SP => low_byte(self.sp),
            Registers16Bit::PC => low_byte(self.pc),
        }
    }

    /// What `get_word_msb` gives: the high register of a pair, or the high byte of SP and PC.
    pub open spec fn word_msb(self, r: Registers16Bit) -> u8 {
        match r {
            Registers16Bit::AF => self.a,
            Registers16Bit::BC => self.b,
            Registers16Bit::DE => self.d,
            Registers16Bit::HL => self.h,
            Registers16Bit::WZ => self.w,
            Registers16Bit::SP => high_byte(self.sp),
            Registers16Bit::PC => high_byte(self.pc),
        }
    }

    /// What `set_word_lsb` leaves: the low register of a pair, or the low byte of SP and PC, is
    /// written; the rest is kept.
    pub open spec fn with_word_lsb(self, r: Registers16Bit, v: u8) -> RegistersView {
        match r {
            Registers16Bit::AF => RegistersView { f: v & 0xF0, ..self },
            Registers16Bit::BC => RegistersView { c: v, ..self },
            Registers16Bit::DE => RegistersView { e: v, ..self },
            Registers16Bit::HL => RegistersView { l: v, ..self },
            Registers16Bit::WZ => RegistersView { z: v, ..self },
            Registers16Bit::SP => RegistersView { sp: join_bytes(high_byte(self.sp), v), ..self },
            Registers16Bit::PC => RegistersView { pc: join_bytes(high_byte(self.pc), v), ..self },
        }
    }

    /// What `set_word_msb` leaves: the high register of a pair, or the high byte of SP and PC,
    /// is written; the rest is kept.
    pub open spec fn with_word_msb(self, r: Registers16Bit, v: u8) -> RegistersView {
        match r {
            Registers16Bit::AF => RegistersView { a: v, ..self },
            Registers16Bit::BC => RegistersView { b: v, ..self },
            Registers16Bit::DE => RegistersView { d: v, ..self },
            Registers16Bit::HL => RegistersView { h: v, ..self },
            Registers16Bit::WZ => RegistersView { w: v, ..self },
            Registers16Bit::SP => RegistersView { sp: join_bytes(v, low_byte(self.sp)), ..self },
            Registers16Bit::PC => RegistersView { pc: join_bytes(v, low_byte(self.pc)), ..self },
        }
    }
}

/// The core registers.
#[derive(Debug, Clone, Copy)]
pub struct Registers {
    a: u8,
    b: u8,
    c: u8,
    d: u8,
    e: u8,
    f: u8,
    h: u8,
    l: u8,
    z: u8,
    w: u8,
    sp: u16,
    pc: u16,
}

impl View for Registers {
    type V = RegistersView;

    closed spec fn view(&self) -> RegistersView {
        RegistersView {
            a: self.a,
            b: self.b,
            c: self.c,
            d: self.d,
            e: self.e,
            f: self.f,
            h: self.h,
            l: self.l,
            z: self.z,
            w: self.w,
            sp: self.sp,
            pc: self.pc,
        }
    }
}

impl Registers {
    /// The low nibble of F reads 0.
    #[verifier::type_invariant]
    spec fn f_low_nibble_clear(self) -> bool {
        self.f & 0x0F == 0
    }

    /// The register values of a DMG after its boot ROM.
    pub fn new() -> (r: Registers)
        ensures
            r@ == (RegistersView {
                a: 0x01,
                b: 0,
                c: 0x13,
                d: 0,
                e: 0xD8,
                f: 0xB0,
                h: 0x01,
                l: 0x4D,
                z: 0,
                w: 0,
                sp: 0xFFFE,
                pc: 0x0100,
            }),
    {
        proof { lemma_masked_high_nibble(0); }
        Registers {
            a: 0x01,
            b: 0,
            c: 0x13,
            d: 0,
            e: 0xD8,
            f: 0xB0,
            h: 0x01,
            l: 0x4D,
            z: 0,
            w: 0,
            sp: 0xFFFE,
            pc: 0x0100,
        }
    }

    /// Registers that all read 0, but for the stack pointer.
    pub fn cleared(sp: u16) -> (r: Registers)
        ensures
            r@ == (RegistersView {
                a: 0,
                b: 0,
                c: 0,
                d: 0,
                e: 0,
                f: 0,
                h: 0,
                l: 0,
                z: 0,
                w: 0,
                sp,
                pc: 0,
            }),
    {
        proof { lemma_masked_high_nibble(0); }
        Registers { a: 0, b: 0, c: 0, d: 0, e: 0, f: 0, h: 0, l: 0, z: 0, w: 0, sp, pc: 0 }
    }

    pub fn get_a(&self) -> (r: u8)
        ensures
            r == self@.a,
    {
        self.a
    }

    pub fn set_a(&mut self, val: u8)
        ensures
            final(self)@ == (RegistersView { a: val, ..old(self)@ }),
    {
        proof { use_type_invariant(&*self); }
        self.a = val;
    }

    pub fn get_b(&self) -> (r: u8)
        ensures
            r == self@.b,
    {
        self.b
    }

    pub fn set_b(&mut self, val: u8)
        ensures
            final(self)@ == (RegistersView { b: val, ..old(self)@ }),
    {
        proof { use_type_invariant(&*self); }
        self.b = val;
    }

    pub fn get_c(&self) -> (r: u8)
        ensures
            r == self@.c,
    {
        self.c
    }

    pub fn set_c(&mut self, val: u8)
        ensures
            final(self)@ == (RegistersView { c: val, ..old(self)@ }),
    {
        proof { use_type_invariant(&*self); }
        self.c = val;
    }

    pub fn get_d(&self) -> (r: u8)
        ensures
            r == self@.d,
    {
        self.d
    }

    pub fn set_d(&mut self, val: u8)
        ensures
            final(self)@ == (RegistersView { d: val, ..old(self)@ }),
    {
        proof { use_type_invariant(&*self); }
        self.d = val;
    }

    pub fn get_e(&self) -> (r: u8)
        ensures
            r == self@.e,
    {
        self.e
    }

    pub fn set_e(&mut self, val: u8)
        ensures
            final(self)@ == (RegistersView { e: val, ..old(self)@ }),
    {
        proof { use_type_invariant(&*self); }
        self.e = val;
    }

    pub fn get_h(&self) -> (r: u8)
        ensures
            r == self@.h,
    {
        self.h
    }

    pub fn set_h(&mut self, val: u8)
        ensures
            final(self)@ == (RegistersView { h: val, ..old(self)@ }),
    {
        proof { use_type_invariant(&*self); }
        self.h = val;
    }

    pub fn get_l(&self) -> (r: u8)
        ensures
            r == self@.l,
    {
        self.l
    }

    pub fn set_l(&mut self, val: u8)
        ensures
            final(self)@ == (RegistersView { l: val, ..old(self)@ }),
    {
        proof { use_type_invariant(&*self); }
        self.l = val;
    }

    pub fn get_z(&self) -> (r: u8)
        ensures
            r == self@.z,
    {
        self.z
    }

    pub fn set_z(&mut self, val: u8)
        ensures
            final(self)@ == (RegistersView { z: val, ..old(self)@ }),
    {
        proof { use_type_invariant(&*self); }
        self.z = val;
    }

    pub fn get_w(&self) -> (r: u8)
        ensures
            r == self@.w,
    {
        self.w
    }

    pub fn set_w(&mut self, val: u8)
        ensures
            final(self)@ == (RegistersView { w: val, ..old(self)@ }),
    {
        proof { use_type_invariant(&*self); }
        self.w = val;
    }

    pub fn get_sp(&self) -> (r: u16)
        ensures
            r == self@.sp,
    {
        self.sp
    }

    pub fn set_sp(&mut self, val: u16)
        ensures
            final(self)@ == (RegistersView { sp: val, ..old(self)@ }),
    {
        proof { use_type_invariant(&*self); }
        self.sp = val;
    }

    pub fn get_pc(&self) -> (r: u16)
        ensures
            r == self@.pc,
    {
        self.pc
    }

    pub fn set_pc(&mut self, val: u16)
        ensures
            final(self)@ == (RegistersView { pc: val, ..old(self)@ }),
    {
        proof { use_type_invariant(&*self); }
        self.pc = val;
    }

    pub fn get_sp_lsb(&self) -> (r: u8)
        ensures
            r == self@.word_lsb(Registers16Bit::SP),
    {
        Self::lsb_of(self.sp)
    }

    pub fn set_sp_lsb(&mut self, value: u8)
        ensures
            final(self)@ == old(self)@.with_word_lsb(Registers16Bit::SP, value),
    {
        proof { use_type_invariant(&*self); }
        self.sp = Self::with_lsb(self.sp, value);
    }

    pub fn get_sp_msb(&self) -> (r: u8)
        ensures
            r == self@.word_msb(Registers16Bit::SP),
    {
        Self::msb_of(self.sp)
    }

    pub fn set_sp_msb(&mut self, value: u8)
        ensures
            final(self)@ == old(self)@.with_word_msb(Registers16Bit::SP, value),
    {
        proof { use_type_invariant(&*self); }
        self.sp = Self::with_msb(self.sp, value);
    }

    pub fn get_pc_lsb(&self) -> (r: u8)
        ensures
            r == self@.word_lsb(Registers16Bit::PC),
    {
        Self::lsb_of(self.pc)
    }

    pub fn set_pc_lsb(&mut self, value: u8)
        ensures
            final(self)@ == old(self)@.with_word_lsb(Registers16Bit::PC, value),
    {
        proof { use_type_invariant(&*self); }
        self.pc = Self::with_lsb(self.pc, value);
    }

    pub fn get_pc_msb(&self) -> (r: u8)
        ensures
            r == self@.word_msb(Registers16Bit::PC),
    {
        Self::msb_of(self.pc)
    }

    pub fn set_pc_msb(&mut self, value: u8)
        ensures
            final(self)@ == old(self)@.with_word_msb(Registers16Bit::PC, value),
    {
        proof { use_type_invariant(&*self); }
        self.pc = Self::with_msb(self.pc, value);
    }

    fn lsb_of(v: u16) -> (r: u8)
        ensures
            r == low_byte(v),
    {
        assert((v & 0xFF) as u8 == (v % 256) as u8) by (bit_vector);
        (v & 0xFF) as u8
    }

    fn msb_of(v: u16) -> (r: u8)
        ensures
            r == high_byte(v),
    {
        assert((v >> 8u16) as u8 == (v / 256) as u8) by (bit_vector);
        (v >> 8) as u8
    }

    fn with_lsb(v: u16, b: u8) -> (r: u16)
        ensures
            r == join_bytes(high_byte(v), b),
    {
        assert((v & 0xFF00) | (b as u16) == ((v / 256) as u8 * 256 + b) as u16) by (bit_vector);
        (v & 0xFF00) | (b as u16)
    }

    fn with_msb(v: u16, b: u8) -> (r: u16)
        ensures
            r == join_bytes(b, low_byte(v)),
    {
        assert((v & 0x00FF) | ((b as u16) << 8u16) == (b * 256 + (v % 256) as u8) as u16) by (bit_vector);
        (v & 0x00FF) | ((b as u16) << 8)
    }

    pub fn get_sp_as_address(&self) -> (r: Address)
        ensures
            r.0 == self@.sp,
    {
        Address(self.sp)
    }

    pub fn get_pc_as_address(&self) -> (r: Address)
        ensures
            r.0 == self@.pc,
    {
        Address(self.pc)
    }

    /// Returns PC and then moves it to the next byte.
    pub fn get_and_inc_pc(&mut self) -> (r: u16)
        requires
            old(self)@.pc < u16::MAX,
        ensures
            r == old(self)@.pc,
            final(self)@ == (RegistersView { pc: (old(self)@.pc + 1) as u16, ..old(self)@ }),
    {
        proof { use_type_invariant(&*self); }
        let ret_pc = self.pc;
        self.pc += 1;
        ret_pc
    }

    /// Moves PC to the next byte and returns it.
    pub fn inc_pc(&mut self) -> (r: u16)
        requires
            old(self)@.pc < u16::MAX,
        ensures
            r == old(self)@.pc + 1,
            final(self)@ == (RegistersView { pc: r, ..old(self)@ }),
    {
        proof { use_type_invariant(&*self); }
        self.pc += 1;
        self.pc
    }

    pub fn get_bc(&self) -> (r: u16)
        ensures
            r == self@.word(Registers16Bit::BC),
    {
        proof { lemma_bytes_bits(self.b, self.c, 0); }
        (self.b as u16) << 8 | self.c as u16
    }

    pub fn get_bc_as_address(&self) -> (r: Address)
        ensures
            r.0 == self@.word(Registers16Bit::BC),
    {
        Address(self.get_bc())
    }

    pub fn set_bc(&mut self, val: u16)
        ensures
            final(self)@ == old(self)@.with_word(Registers16Bit::BC, val),
    {
        proof { use_type_invariant(&*self); }
        proof { lemma_bytes_bits(0, 0, val); }
        self.b = (val >> 8) as u8;
        self.c = val as u8;
    }

    pub fn get_de(&self) -> (r: u16)
        ensures
            r == self@.word(Registers16Bit::DE),
    {
        proof { lemma_bytes_bits(self.d, self.e, 0); }
        (self.d as u16) << 8 | self.e as u16
    }

    pub fn get_de_as_address(&self) -> (r: Address)
        ensures
            r.0 == self@.word(Registers16Bit::DE),
    {
        Address(self.get_de())
    }

    pub fn set_de(&mut self, val: u16)
        ensures
            final(self)@ == old(self)@.with_word(Registers16Bit::DE, val),
    {
        proof { use_type_invariant(&*self); }
        proof { lemma_bytes_bits(0, 0, val); }
        self.d = (val >> 8) as u8;
        self.e = val as u8;
    }

    pub fn get_hl(&self) -> (r: u16)
        ensures
            r == self@.word(Registers16Bit::HL),
    {
        proof { lemma_bytes_bits(self.h, self.l, 0); }
        (self.h as u16) << 8 | self.l as u16
    }

    pub fn get_hl_as_address(&self) -> (r: Address)
        ensures
            r.0 == self@.word(Registers16Bit::HL),
    {
        Address(self.get_hl())
    }

    pub fn set_hl(&mut self, val: u16)
        ensures
            final(self)@ == old(self)@.with_word(Registers16Bit::HL, val),
    {
        proof { use_type_invariant(&*self); }
        proof { lemma_bytes_bits(0, 0, val); }
        self.h = (val >> 8) as u8;
        self.l = val as u8;
    }

    pub fn get_wz(&self) -> (r: u16)
        ensures
            r == self@.word(Registers16Bit::WZ),
    {
        proof { lemma_bytes_bits(self.w, self.z, 0); }
        (self.w as u16) << 8 | self.z as u16
    }

    pub fn get_wz_as_address(&self) -> (r: Address)
        ensures
            r.0 == self@.word(Registers16Bit::WZ),
    {
        Address(self.get_wz())
    }

    pub fn set_wz(&mut self, val: u16)
        ensures
            final(self)@ == old(self)@.with_word(Registers16Bit::WZ, val),
    {
        proof { use_type_invariant(&*self); }
        proof { lemma_bytes_bits(0, 0, val); }
        self.w = (val >> 8) as u8;
        self.z = val as u8;
    }

    /// Reads F. Its low nibble reads 0 whatever the registers went through: every write to F
    /// keeps it clear.
    pub fn get_f(&self) -> (r: u8)
        ensures
            r == self@.f,
            r & 0x0F == 0,
    {
        proof { use_type_invariant(self); }
        self.f
    }

    /// Writes F; its low nibble always reads 0.
    pub fn set_f(&mut self, val: u8)
        ensures
            final(self)@ == old(self)@.with_byte(Registers8Bit::F, val),
    {
        proof { use_type_invariant(&*self); }
        proof { lemma_masked_high_nibble(val as u16); }
        self.f = val & 0xF0;
    }

    pub fn get_af(&self) -> (r: u16)
        ensures
            r == self@.word(Registers16Bit::AF),
    {
        proof { lemma_bytes_bits(self.a, self.f, 0); }
        (self.a as u16) << 8 | self.f as u16
    }

    pub fn get_af_as_address(&self) -> (r: Address)
        ensures
            r.0 == self@.word(Registers16Bit::AF),
    {
        Address(self.get_af())
    }

    pub fn set_af(&mut self, val: u16)
        ensures
            final(self)@ == old(self)@.with_word(Registers16Bit::AF, val),
    {
        proof { use_type_invariant(&*self); }
        proof { lemma_bytes_bits(0, 0, val); }
        assert(((val & 0x00F0) as u8) == (val as u8) & 0xF0) by (bit_vector);
        proof { lemma_masked_high_nibble(val); }
        self.a = (val >> 8) as u8;
        self.f = (val & 0x00F0) as u8;
    }

    pub fn get_zero_flag(&self) -> (r: bool)
        ensures
            r == self@.flag(FlagBits::Z),
    {
        (self.f & FlagBits::Z.mask()) != 0
    }

    pub fn set_zero_flag(&mut self, on: bool)
        ensures
            final(self)@ == (RegistersView { f: old(self)@.f_with_flag(FlagBits::Z, on), ..old(self)@ }),
    {
        proof {
            use_type_invariant(&*self);
            lemma_high_nibble_ops(self.f, 0, flag_mask(FlagBits::Z));
        }
        if on {
            self.f = self.f | FlagBits::Z.mask();
        } else {
            self.f = self.f & (FlagBits::Z.mask() ^ 0xFF);
        }
    }

    pub fn get_negative_flag(&self) -> (r: bool)
        ensures
            r == self@.flag(FlagBits::N),
    {
        (self.f & FlagBits::N.mask()) != 0
    }

    pub fn set_negative_flag(&mut self, on: bool)
        ensures
            final(self)@ == (RegistersView { f: old(self)@.f_with_flag(FlagBits::N, on), ..old(self)@ }),
    {
        proof {
            use_type_invariant(&*self);
            lemma_high_nibble_ops(self.f, 0, flag_mask(FlagBits::N));
        }
        if on {
            self.f = self.f | FlagBits::N.mask();
        } else {
            self.f = self.f & (FlagBits::N.mask() ^ 0xFF);
        }
    }

    pub fn get_half_carry_flag(&self) -> (r: bool)
        ensures
            r == self@.flag(FlagBits::H),
    {
        (self.f & FlagBits::H.mask()) != 0
    }

    pub fn set_half_carry_flag(&mut self, on: bool)
        ensures
            final(self)@ == (RegistersView { f: old(self)@.f_with_flag(FlagBits::H, on), ..old(self)@ }),
    {
        proof {
            use_type_invariant(&*self);
            lemma_high_nibble_ops(self.f, 0, flag_mask(FlagBits::H));
        }
        if on {
            self.f = self.f | FlagBits::H.mask();
        } else {
            self.f = self.f & (FlagBits::H.mask() ^ 0xFF);
        }
    }

    pub fn get_carry_flag(&self) -> (r: bool)
        ensures
            r == self@.flag(FlagBits::C),
    {
        (self.f & FlagBits::C.mask()) != 0
    }

    pub fn set_carry_flag(&mut self, on: bool)
        ensures
            final(self)@ == (RegistersView { f: old(self)@.f_with_flag(FlagBits::C, on), ..old(self)@ }),
    {
        proof {
            use_type_invariant(&*self);
            lemma_high_nibble_ops(self.f, 0, flag_mask(FlagBits::C));
        }
        if on {
            self.f = self.f | FlagBits::C.mask();
        } else {
            self.f = self.f & (FlagBits::C.mask() ^ 0xFF);
        }
    }

    pub fn get_flags(&self) -> (r: Flags)
        ensures
            r@ == self@.flags(),
    {
        Flags::new(
            (self.f & 0b10000000) != 0,
            (self.f & 0b01000000) != 0,
            (self.f & 0b00100000) != 0,
            (self.f & 0b00010000) != 0,
        )
    }

    pub fn set_flags(&mut self, flags: Flags)
        ensures
            final(self)@ == (RegistersView { f: old(self)@.f_with_flags(flags@), ..old(self)@ }),
    {
        proof { use_type_invariant(&*self); }
        self.set_zero_flag(flags.z);
        self.set_negative_flag(flags.n);
        self.set_half_carry_flag(flags.h);
        self.set_carry_flag(flags.c);
    }

    pub fn get_byte(&self, register: Registers8Bit) -> (r: u8)
        ensures
            r == self@.byte(register),
    {
        match register {
            Registers8Bit::A => self.get_a(),
            Registers8Bit::B => self.get_b(),
            Registers8Bit::C => self.get_c(),
            Registers8Bit::D => self.get_d(),
            Registers8Bit::E => self.get_e(),
            Registers8Bit::F => self.get_f(),
            Registers8Bit::H => self.get_h(),
            Registers8Bit::L => self.get_l(),
            Registers8Bit::W => self.get_w(),
            Registers8Bit::Z => self.get_z(),
        }
    }

    pub fn get_word(&self, register: Registers16Bit) -> (r: u16)
        ensures
            r == self@.word(register),
    {
        match register {
            Registers16Bit::AF => self.get_af(),
            Registers16Bit::BC => self.get_bc(),
            Registers16Bit::DE => self.get_de(),
            Registers16Bit::HL => self.get_hl(),
            Registers16Bit::WZ => self.get_wz(),
            Registers16Bit::SP => self.get_sp(),
            Registers16Bit::PC => self.get_pc(),
        }
    }

    pub fn get_word_lsb(&self, register: Registers16Bit) -> (r: u8)
        ensures
            r == self@.word_lsb(register),
    {
        match register {
            Registers16Bit::AF => self.get_f(),
            Registers16Bit::BC => self.get_c(),
            Registers16Bit::DE => self.get_e(),
            Registers16Bit::HL => self.get_l(),
            Registers16Bit::WZ => self.get_z(),
            Registers16Bit::SP => self.get_sp_lsb(),
            Registers16Bit::PC => self.get_pc_lsb(),
        }
    }

    pub fn get_word_msb(&self, register: Registers16Bit) -> (r: u8)
        ensures
            r == self@.word_msb(register),
    {
        match register {
            Registers16Bit::AF => self.get_a(),
            Registers16Bit::BC => self.get_b(),
            Registers16Bit::DE => self.get_d(),
            Registers16Bit::HL => self.get_h(),
            Registers16Bit::WZ => self.get_w(),
            Registers16Bit::SP => self.get_sp_msb(),
            Registers16Bit::PC => self.get_pc_msb(),
        }
    }

    pub fn set_word_lsb(&mut self, register: Registers16Bit, value: u8)
        ensures
            final(self)@ == old(self)@.with_word_lsb(register, value),
    {
        proof { use_type_invariant(&*self); }
        match register {
            Registers16Bit::AF => self.set_f(value),
            Registers16Bit::BC => self.set_c(value),
            Registers16Bit::DE => self.set_e(value),
            Registers16Bit::HL => self.set_l(value),
            Registers16Bit::WZ => self.set_z(value),
            Registers16Bit::SP => self.set_sp_lsb(value),
            Registers16Bit::PC => self.set_pc_lsb(value),
        }
    }

    pub fn set_word_msb(&mut self, register: Registers16Bit, value: u8)
        ensures
            final(self)@ == old(self)@.with_word_msb(register, value),
    {
        proof { use_type_invariant(&*self); }
        match register {
            Registers16Bit::AF => self.set_a(value),
            Registers16Bit::BC => self.set_b(value),
            Registers16Bit::DE => self.set_d(value),
            Registers16Bit::HL => self.set_h(value),
            Registers16Bit::WZ => self.set_w(value),
            Registers16Bit::SP => self.set_sp_msb(value),
            Registers16Bit::PC => self.set_pc_msb(value),
        }
    }

    pub fn set_byte(&mut self, register: Registers8Bit, byte: u8)
        ensures
            final(self)@ == old(self)@.with_byte(register, byte),
    {
        proof { use_type_invariant(&*self); }
        match register {
            Registers8Bit::A => self.set_a(byte),
            Registers8Bit::B => self.set_b(byte),
            Registers8Bit::C => self.set_c(byte),
            Registers8Bit::D => self.set_d(byte),
            Registers8Bit::E => self.set_e(byte),
            Registers8Bit::F => self.set_f(byte),
            Registers8Bit::H => self.set_h(byte),
            Registers8Bit::L => self.set_l(byte),
            Registers8Bit::W => self.set_w(byte),
            Registers8Bit::Z => self.set_z(byte),
        }
    }

    pub fn set_word(&mut self, register: Registers16Bit, data: u16)
        ensures
            final(self)@ == old(self)@.with_word(register, data),
    {
        proof { use_type_invariant(&*self); }
        match register {
            Registers16Bit::AF => self.set_af(data),
            Registers16Bit::BC => self.set_bc(data),
            Registers16Bit::DE => self.set_de(data),
            Registers16Bit::HL => self.set_hl(data),
            Registers16Bit::WZ => self.set_wz(data),
            Registers16Bit::SP => self.set_sp(data),
            Registers16Bit::PC => self.set_pc(data),
        }
    }
}

impl Default for Registers {
    fn default() -> (r: Self)
        ensures
            r@ == (RegistersView {
                a: 0x01,
                b: 0,
                c: 0x13,
                d: 0,
                e: 0xD8,
                f: 0xB0,
                h: 0x01,
                l: 0x4D,
                z: 0,
                w: 0,
                sp: 0xFFFE,
                pc: 0x0100,
            }),
    {
        Self::new()
    }
}

} // verus!

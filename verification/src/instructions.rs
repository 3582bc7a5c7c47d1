//! The instruction set: each opcode with its micro-operations.
pub mod opcodes;
pub mod cb_opcodes;
pub mod interrupt;

use vstd::prelude::*;
use crate::registers::{FlagBits, spec_add_carry, spec_add_half_carry, spec_sub_carry, spec_sub_half_carry};
use crate::microcode::{MCycleOp, micro_ops_wf};
use crate::instructions::opcodes::{create_opcodes, opcode_defined, instruction_matches, register_block_micro_ops};

verus! {

/// An instruction: its opcode, mnemonic, M-cycles, size in bytes, the flags it may change
/// and one micro-operation per M-cycle.
#[derive(Debug, Clone)]
pub struct Instruction {
    pub opcode: u8,
    pub name: &'static str,
    pub cycles: u8,
    pub size: u8,
    pub flags: Vec<FlagBits>,
    pub micro_ops: Vec<MCycleOp>,
}

impl Instruction {
    /// Micro-operations that never run past their end and only run supported operations.
    pub open spec fn wf(&self) -> bool {
        micro_ops_wf(self.micro_ops@)
    }

    /// The instruction of an unprefixed opcode, `None` for the opcodes the set leaves undefined.
    pub fn new(opcode: u8) -> (r: Option<Instruction>)
        ensures
            r is Some <==> opcode_defined(opcode),
            r matches Some(i) ==> i.wf() && instruction_matches(i, opcode),
            0x40 <= opcode <= 0xBF ==> (r matches Some(i) && i.micro_ops@ == register_block_micro_ops(opcode)),
    {
        create_opcodes(opcode)
    }
}

/// The correction DAA adds to (or, after a subtraction, takes from) A: 0x06 when the low digit
/// overflowed, 0x60 when the high one did.
pub open spec fn daa_adjust(a: u8, flags: u8) -> u8 {
    let half_carry = flags & 0x20 != 0;
    let carry = flags & 0x10 != 0;
    let subtract = flags & 0x40 != 0;
    let low: u8 = if half_carry || (!subtract && a % 16 > 9) { 0x06 } else { 0 };
    let high: u8 = if carry || a > 0x99 { 0x60 } else { 0 };
    (low + high) as u8
}

/// A after the decimal adjust.
pub open spec fn daa_result(a: u8, flags: u8) -> u8 {
    if flags & 0x40 == 0 {
        ((a + daa_adjust(a, flags)) % 256) as u8
    } else {
        ((a - daa_adjust(a, flags) + 256) % 256) as u8
    }
}

/// The flags after the decimal adjust: Z when A is zero, H cleared, C when the high digit was
/// corrected; N and the low nibble are kept.
pub open spec fn daa_flags(a: u8, flags: u8) -> u8 {
    let z: u8 = if daa_result(a, flags) == 0 { 0x80 } else { 0 };
    let c: u8 = if daa_adjust(a, flags) >= 0x60 { 0x10 } else { 0 };
    ((flags & 0x4F) | z | c) as u8
}

/// Whether a byte holds two decimal digits.
pub open spec fn is_bcd(x: u8) -> bool {
    x % 16 <= 9 && x / 16 <= 9
}

/// The number two decimal digits stand for.
pub open spec fn bcd_value(x: u8) -> int {
    (x / 16) * 10 + x % 16
}

/// F after `ADD A, y` with A holding `x`: H and C from the addition, N clear (Z is not read).
pub open spec fn add_flags_byte(x: u8, y: u8) -> u8 {
    ((if spec_add_half_carry(x, y, false) { 0x20int } else { 0 }) + (if spec_add_carry(x, y, false) { 0x10int } else { 0 })) as u8
}

/// F after `SUB A, y` with A holding `x`: N set, H and C from the borrows (Z is not read).
pub open spec fn sub_flags_byte(x: u8, y: u8) -> u8 {
    (0x40int + (if spec_sub_half_carry(x, y, false) { 0x20int } else { 0 }) + (if spec_sub_carry(x, y, false) { 0x10int } else { 0 })) as u8
}

/// Law: after an addition of two BCD numbers, DAA leaves in A the BCD digits of their sum
/// modulo 100 and sets C exactly when the sum reached 100; after a subtraction, the digits of
/// the difference modulo 100 and C exactly when it borrowed.
pub proof fn lemma_daa_bcd(x: u8, y: u8)
    requires
        is_bcd(x),
        is_bcd(y),
    ensures
        is_bcd(daa_result(((x + y) % 256) as u8, add_flags_byte(x, y))),
        bcd_value(daa_result(((x + y) % 256) as u8, add_flags_byte(x, y))) == (bcd_value(x) + bcd_value(y)) % 100,
        (daa_flags(((x + y) % 256) as u8, add_flags_byte(x, y)) & 0x10 != 0) == (bcd_value(x) + bcd_value(y) >= 100),
        is_bcd(daa_result(((x - y + 256) % 256) as u8, sub_flags_byte(x, y))),
        bcd_value(daa_result(((x - y + 256) % 256) as u8, sub_flags_byte(x, y))) == (bcd_value(x) - bcd_value(y) + 100) % 100,
        (daa_flags(((x - y + 256) % 256) as u8, sub_flags_byte(x, y)) & 0x10 != 0) == (bcd_value(x) < bcd_value(y)),
{
    let h = spec_add_half_carry(x, y, false);
    let c = spec_add_carry(x, y, false);
    lemma_flag_bits(false, h, c);
    lemma_daa_add_bits(x, y, h, c);
    let a = ((x + y) % 256) as u8;
    let f = add_flags_byte(x, y);
    lemma_daa_carry_bit(f, if daa_result(a, f) == 0 { 0x80u8 } else { 0 }, if daa_adjust(a, f) >= 0x60 { 0x10u8 } else { 0 });
    let hs = spec_sub_half_carry(x, y, false);
    let cs = spec_sub_carry(x, y, false);
    lemma_flag_bits(true, hs, cs);
    lemma_daa_sub_bits(x, y, hs, cs);
    let a2 = ((x - y + 256) % 256) as u8;
    let f2 = sub_flags_byte(x, y);
    lemma_daa_carry_bit(f2, if daa_result(a2, f2) == 0 { 0x80u8 } else { 0 }, if daa_adjust(a2, f2) >= 0x60 { 0x10u8 } else { 0 });
}

proof fn lemma_flag_bits(n: bool, h: bool, c: bool)
    ensures
        ({
            let f = ((if n { 0x40int } else { 0 }) + (if h { 0x20int } else { 0 }) + (if c { 0x10int } else { 0 })) as u8;
            &&& (f & 0x40 != 0) == n
            &&& (f & 0x20 != 0) == h
            &&& (f & 0x10 != 0) == c
        }),
{
    let f: u8 = ((if n { 0x40int } else { 0 }) + (if h { 0x20int } else { 0 }) + (if c { 0x10int } else { 0 })) as u8;
    let nb: u8 = if n { 0x40 } else { 0 };
    let hb: u8 = if h { 0x20 } else { 0 };
    let cb: u8 = if c { 0x10 } else { 0 };
    assert(f == nb + hb + cb);
    assert((((nb + hb + cb) as u8) & 0x40 != 0) == (nb == 0x40) && (((nb + hb + cb) as u8) & 0x20 != 0) == (hb == 0x20)
        && (((nb + hb + cb) as u8) & 0x10 != 0) == (cb == 0x10)) by (bit_vector)
        requires
            nb == 0 || nb == 0x40,
            hb == 0 || hb == 0x20,
            cb == 0 || cb == 0x10,
    ;
}

proof fn lemma_daa_carry_bit(f: u8, z: u8, c: u8)
    by (bit_vector)
    requires
        z == 0 || z == 0x80,
        c == 0 || c == 0x10,
    ensures
        (((f & 0x4F) | z | c) & 0x10 != 0) == (c == 0x10),
{
}

proof fn lemma_daa_add_bits(x: u8, y: u8, h: bool, c: bool)
    by (bit_vector)
    requires
        x % 16 <= 9 && x / 16 <= 9,
        y % 16 <= 9 && y / 16 <= 9,
        h == (x % 16 + y % 16 > 15),
        c == (x + y > 255),
    ensures
        ({
            let a = ((x + y) % 256) as u8;
            let low: u8 = if h || a % 16 > 9 { 0x06 } else { 0 };
            let high: u8 = if c || a > 0x99 { 0x60 } else { 0 };
            let r = ((a + ((low + high) as u8)) % 256) as u8;
            &&& r % 16 <= 9 && r / 16 <= 9
            &&& (r / 16) * 10 + r % 16 == ((x / 16) * 10 + x % 16 + (y / 16) * 10 + y % 16) % 100
            &&& (((low + high) as u8) >= 0x60) == ((x / 16) * 10 + x % 16 + (y / 16) * 10 + y % 16 >= 100)
        }),
{
}

proof fn lemma_daa_sub_bits(x: u8, y: u8, h: bool, c: bool)
    by (bit_vector)
    requires
        x % 16 <= 9 && x / 16 <= 9,
        y % 16 <= 9 && y / 16 <= 9,
        h == (x % 16 < y % 16),
        c == (x < y),
    ensures
        ({
            let a = ((x + 256 - y) % 256) as u8;
            let low: u8 = if h { 0x06 } else { 0 };
            let high: u8 = if c || a > 0x99 { 0x60 } else { 0 };
            let r = ((a + 256 - ((low + high) as u8)) % 256) as u8;
            &&& r % 16 <= 9 && r / 16 <= 9
            &&& (r / 16) * 10 + r % 16 == ((x / 16) * 10 + x % 16 + 100 - (y / 16) * 10 - y % 16) % 100
            &&& (((low + high) as u8) >= 0x60) == ((x / 16) * 10 + x % 16 < (y / 16) * 10 + y % 16)
        }),
{
}

/// Adjusts A to binary-coded decimal after an addition or subtraction of two BCD numbers;
/// returns the new A and the new flags.
pub fn daa(a: u8, flags: u8) -> (r: (u8, u8))
    ensures
        r.0 == daa_result(a, flags),
        r.1 == daa_flags(a, flags),
{
    let carry_flag = flags & 0x10 != 0;
    let half_carry_flag = flags & 0x20 != 0;
    let subtract = flags & 0x40 != 0;
    let mut adjust: u8 = 0;
    if half_carry_flag || (!subtract && a % 16 > 9) {
        adjust = 0x06;
    }
    if carry_flag || a > 0x99 {
        adjust = adjust + 0x60;
    }
    let new_a = if !subtract {
        a.wrapping_add(adjust)
    } else {
        a.wrapping_sub(adjust)
    };
    let zero: u8 = if new_a == 0 { 0x80 } else { 0 };
    let carry: u8 = if adjust >= 0x60 { 0x10 } else { 0 };
    (new_a, (flags & 0x4F) | zero | carry)
}

} // verus!

//! What each ALU operation does to the registers.
use vstd::prelude::*;
use crate::instructions::{daa_flags, daa_result};
use crate::registers::{
    Flags, FlagsView, Registers, Registers8Bit, RegistersView, spec_add_carry, spec_add_half_carry, spec_sub_carry,
    spec_sub_half_carry,
};
use crate::microcode::{AluOp, ByteBit, SetFlagZ, SetFlagN, SetFlagH, SetFlagC, byte_bit_index};

verus! {

/// An integer taken modulo 256.
pub open spec fn wrap8(x: int) -> u8 {
    (x % 256) as u8
}

proof fn lemma_wrap8_offset(b: int)
    ensures
        wrap8(b + 256) == wrap8(b),
        wrap8(b + 512) == wrap8(b),
{
    vstd::arithmetic::div_mod::lemma_mod_add_multiples_vanish(b, 256);
    vstd::arithmetic::div_mod::lemma_mod_add_multiples_vanish(b + 256, 256);
}

/// 1 for a set carry, 0 otherwise.
pub open spec fn carry_value(c: bool) -> int {
    if c { 1 } else { 0 }
}

/// A byte rotated one bit to the left.
pub open spec fn rotate_left8(x: u8) -> u8 {
    ((x * 2) % 256 + x / 128) as u8
}

/// A byte rotated one bit to the right.
pub open spec fn rotate_right8(x: u8) -> u8 {
    (x / 2 + (x % 2) * 128) as u8
}

/// A byte with its two nibbles exchanged.
pub open spec fn swap_nibbles(x: u8) -> u8 {
    ((x % 16) * 16 + x / 16) as u8
}

/// Whether bit `b` of `x` is set.
pub open spec fn bit_is_set(x: u8, b: u8) -> bool {
    x & (1u8 << b) != 0
}

/// The registers with the four flags replaced.
pub open spec fn with_flags(r: RegistersView, z: bool, n: bool, h: bool, c: bool) -> RegistersView {
    RegistersView { f: r.f_with_flags(FlagsView { z, n, h, c }), ..r }
}

/// The new value of a flag under an explicit flag update.
pub open spec fn flag_update_z(s: SetFlagZ, old: bool) -> bool {
    match s {
        SetFlagZ::Same => old,
        SetFlagZ::On => true,
        SetFlagZ::Off => false,
    }
}

pub open spec fn flag_update_n(s: SetFlagN, old: bool) -> bool {
    match s {
        SetFlagN::Same => old,
        SetFlagN::On => true,
        SetFlagN::Off => false,
    }
}

pub open spec fn flag_update_h(s: SetFlagH, old: bool) -> bool {
    match s {
        SetFlagH::Same => old,
        SetFlagH::On => true,
        SetFlagH::Off => false,
    }
}

pub open spec fn flag_update_c(s: SetFlagC, old: bool) -> bool {
    match s {
        SetFlagC::Same => old,
        SetFlagC::On => true,
        SetFlagC::Off => false,
    }
}

/// The registers after an ALU operation.
///
/// Additions report the carries out of bits 3 and 7, subtractions and comparisons the borrows
/// into them; INC and DEC keep the carry flag; AND, OR and XOR store their result in the left
/// register; DAA adjusts A to decimal as `daa` does; BIT, RES and SET work on `1 << bit`.
pub open spec fn alu_spec(r: RegistersView, op: AluOp) -> RegistersView {
    let fl = r.flags();
    match op {
        AluOp::Add(l, s) => {
            let x = r.byte(l);
            let y = r.byte(s);
            let v = wrap8(x + y);
            with_flags(r.with_byte(l, v), v == 0, false,
                spec_add_half_carry(x, y, false), spec_add_carry(x, y, false))
        },
        AluOp::Adc(l, s) => {
            let x = r.byte(l);
            let y = r.byte(s);
            let v = wrap8(x + y + carry_value(fl.c));
            with_flags(r.with_byte(l, v), v == 0, false,
                spec_add_half_carry(x, y, fl.c), spec_add_carry(x, y, fl.c))
        },
        AluOp::Sub(l, s) => {
            let x = r.byte(l);
            let y = r.byte(s);
            let v = wrap8(x - y);
            with_flags(r.with_byte(l, v), v == 0, true,
                spec_sub_half_carry(x, y, false), spec_sub_carry(x, y, false))
        },
        AluOp::Sbc(l, s) => {
            let x = r.byte(l);
            let y = r.byte(s);
            let v = wrap8(x - y - carry_value(fl.c));
            with_flags(r.with_byte(l, v), v == 0, true,
                spec_sub_half_carry(x, y, fl.c), spec_sub_carry(x, y, fl.c))
        },
        AluOp::Cp(l, s) => {
            let x = r.byte(l);
            let y = r.byte(s);
            with_flags(r, wrap8(x - y) == 0, true,
                spec_sub_half_carry(x, y, false), spec_sub_carry(x, y, false))
        },
        AluOp::Inc(s) => {
            let x = r.byte(s);
            let v = wrap8(x + 1);
            with_flags(r.with_byte(s, v), v == 0, false, spec_add_half_carry(x, 1, false), fl.c)
        },
        AluOp::Dec(s) => {
            let x = r.byte(s);
            let v = wrap8(x - 1);
            with_flags(r.with_byte(s, v), v == 0, true, spec_sub_half_carry(x, 1, false), fl.c)
        },
        AluOp::And(l, s) => {
            let v = r.byte(l) & r.byte(s);
            with_flags(r.with_byte(l, v), v == 0, false, true, false)
        },
        AluOp::Or(l, s) => {
            let v = r.byte(l) | r.byte(s);
            with_flags(r.with_byte(l, v), v == 0, false, false, false)
        },
        AluOp::Xor(l, s) => {
            let v = r.byte(l) ^ r.byte(s);
            with_flags(r.with_byte(l, v), v == 0, false, false, false)
        },
        AluOp::Ccf => with_flags(r, fl.z, false, false, !fl.c),
        AluOp::Scf => with_flags(r, fl.z, false, false, true),
        AluOp::Daa => r.with_byte(Registers8Bit::A, daa_result(r.a, r.f)).with_byte(Registers8Bit::F, daa_flags(r.a, r.f)),
        AluOp::Cpl(s) => with_flags(r.with_byte(s, (255 - r.byte(s)) as u8), fl.z, true, true, fl.c),
        AluOp::Rlca => {
            let v = rotate_left8(r.a);
            with_flags(RegistersView { a: v, ..r }, false, false, false, v % 2 == 1)
        },
        AluOp::Rrca => {
            let v = rotate_right8(r.a);
            with_flags(RegistersView { a: v, ..r }, false, false, false, v >= 128)
        },
        AluOp::Rla => {
            let v = wrap8(r.a * 2 + carry_value(fl.c));
            with_flags(RegistersView { a: v, ..r }, false, false, false, r.a >= 128)
        },
        AluOp::Rra => {
            let v = (r.a / 2 + carry_value(fl.c) * 128) as u8;
            with_flags(RegistersView { a: v, ..r }, false, false, false, r.a % 2 == 1)
        },
        AluOp::Rlc(s) => {
            let v = rotate_left8(r.byte(s));
            with_flags(r.with_byte(s, v), v == 0, false, false, v % 2 == 1)
        },
        AluOp::Rrc(s) => {
            let v = rotate_right8(r.byte(s));
            with_flags(r.with_byte(s, v), v == 0, false, false, v >= 128)
        },
        AluOp::Rl(s) => {
            let x = r.byte(s);
            let v = wrap8(x * 2 + carry_value(fl.c));
            with_flags(r.with_byte(s, v), v == 0, false, false, x >= 128)
        },
        AluOp::Rr(s) => {
            let x = r.byte(s);
            let v = (x / 2 + carry_value(fl.c) * 128) as u8;
            with_flags(r.with_byte(s, v), v == 0, false, false, x % 2 == 1)
        },
        AluOp::Sla(s) => {
            let x = r.byte(s);
            let v = wrap8(x * 2);
            with_flags(r.with_byte(s, v), v == 0, false, false, x >= 128)
        },
        AluOp::Sra(s) => {
            let x = r.byte(s);
            let v = (x / 2 + (x / 128) * 128) as u8;
            with_flags(r.with_byte(s, v), v == 0, false, false, x % 2 == 1)
        },
        AluOp::Sll(s) => {
            let x = r.byte(s);
            let v = wrap8(x * 2 + x % 2);
            with_flags(r.with_byte(s, v), v == 0, false, false, x >= 128)
        },
        AluOp::Srl(s) => {
            let x = r.byte(s);
            let v = (x / 2) as u8;
            with_flags(r.with_byte(s, v), v == 0, false, false, x % 2 == 1)
        },
        AluOp::Swap(s) => {
            let v = swap_nibbles(r.byte(s));
            with_flags(r.with_byte(s, v), v == 0, false, false, false)
        },
        AluOp::Bit(b, s) => with_flags(
            r,
            !bit_is_set(r.byte(s), byte_bit_index(b)),
            false,
            true,
            fl.c,
        ),
        AluOp::Res(b, s) => r.with_byte(s, r.byte(s) & !(1u8 << byte_bit_index(b))),
        AluOp::SetBit(b, s) => r.with_byte(s, r.byte(s) | (1u8 << byte_bit_index(b))),
        AluOp::AddLsb(d, s) => {
            let x = r.word_lsb(d);
            let y = r.word_lsb(s);
            let v = wrap8(x + y);
            with_flags(r.with_word_lsb(d, v), fl.z, false,
                spec_add_half_carry(x, y, false), spec_add_carry(x, y, false))
        },
        AluOp::AddMsb(d, s) => {
            let x = r.word_msb(d);
            let y = r.word_msb(s);
            let v = wrap8(x + y + carry_value(fl.c));
            with_flags(r.with_word_msb(d, v), fl.z, false,
                spec_add_half_carry(x, y, fl.c), spec_add_carry(x, y, fl.c))
        },
        AluOp::SetFlags(z, n, h, c) => with_flags(
            r,
            flag_update_z(z, fl.z),
            flag_update_n(n, fl.n),
            flag_update_h(h, fl.h),
            flag_update_c(c, fl.c),
        ),
    }
}

/// Additions, increments and decrements.
pub(crate) fn alu_add(registers: &mut Registers, op: AluOp)
    requires
        op is Add || op is Adc || op is Inc || op is Dec,
    ensures
        final(registers)@ == alu_spec(old(registers)@, op),
{
    let flags = registers.get_flags();
    match op {
            AluOp::Add(lhs, rhs) => {
                let old_lhs = registers.get_byte(lhs);
                let rhs = registers.get_byte(rhs);
                let new_lhs = ((old_lhs as u16 + rhs as u16) % 256) as u8;
                registers.set_byte(lhs, new_lhs);
                registers.set_flags(Flags::new(
                    new_lhs == 0,
                    false,
                    Flags::add_half_carry(old_lhs, rhs, false),
                    Flags::add_carry(old_lhs, rhs, false),
                ));
            },
            AluOp::Adc(lhs, rhs) => {
                let old_lhs = registers.get_byte(lhs);
                let rhs = registers.get_byte(rhs);
                let carry = registers.get_carry_flag();
                let cv: u16 = if carry { 1 } else { 0 };
                let new_lhs = ((old_lhs as u16 + rhs as u16 + cv) % 256) as u8;
                registers.set_byte(lhs, new_lhs);
                registers.set_flags(Flags::new(
                    new_lhs == 0,
                    false,
                    Flags::add_half_carry(old_lhs, rhs, carry),
                    Flags::add_carry(old_lhs, rhs, carry),
                ));
            },
            AluOp::Inc(rhs) => {
                let old_lhs = registers.get_byte(rhs);
                let new_lhs = ((old_lhs as u16 + 1) % 256) as u8;
                registers.set_byte(rhs, new_lhs);
                registers.set_flags(Flags::new(
                    new_lhs == 0,
                    false,
                    Flags::add_half_carry(old_lhs, 1, false),
                    flags.c(),
                ));
            },
            AluOp::Dec(rhs) => {
                let old_lhs = registers.get_byte(rhs);
                let new_lhs = ((old_lhs as u16 + 255) % 256) as u8;
                proof { lemma_wrap8_offset(old_lhs - 1); }
                registers.set_byte(rhs, new_lhs);
                registers.set_flags(Flags::new(
                    new_lhs == 0,
                    true,
                    Flags::sub_half_carry(old_lhs, 1, false),
                    flags.c(),
                ));
            },
        _ => {},
    }
}

/// Subtractions and comparisons.
pub(crate) fn alu_sub(registers: &mut Registers, op: AluOp)
    requires
        op is Sub || op is Sbc || op is Cp,
    ensures
        final(registers)@ == alu_spec(old(registers)@, op),
{
    let flags = registers.get_flags();
    match op {
            AluOp::Sub(lhs, rhs) => {
                let old_lhs = registers.get_byte(lhs);
                let rhs = registers.get_byte(rhs);
                let new_lhs = ((old_lhs as u16 + 256 - rhs as u16) % 256) as u8;
                proof { lemma_wrap8_offset(old_lhs - rhs); }
                registers.set_byte(lhs, new_lhs);
                registers.set_flags(Flags::new(
                    new_lhs == 0,
                    true,
                    Flags::sub_half_carry(old_lhs, rhs, false),
                    Flags::sub_carry(old_lhs, rhs, false),
                ));
            },
            AluOp::Sbc(lhs, rhs) => {
                let old_lhs = registers.get_byte(lhs);
                let rhs = registers.get_byte(rhs);
                let carry = registers.get_carry_flag();
                let cv: u16 = if carry { 1 } else { 0 };
                let new_lhs = ((old_lhs as u16 + 512 - rhs as u16 - cv) % 256) as u8;
                proof { lemma_wrap8_offset(old_lhs - rhs - cv); }
                registers.set_byte(lhs, new_lhs);
                registers.set_flags(Flags::new(
                    new_lhs == 0,
                    true,
                    Flags::sub_half_carry(old_lhs, rhs, carry),
                    Flags::sub_carry(old_lhs, rhs, carry),
                ));
            },
            AluOp::Cp(lhs, rhs) => {
                let old_lhs = registers.get_byte(lhs);
                let rhs = registers.get_byte(rhs);
                let new_lhs = ((old_lhs as u16 + 256 - rhs as u16) % 256) as u8;
                proof { lemma_wrap8_offset(old_lhs - rhs); }
                registers.set_flags(Flags::new(
                    new_lhs == 0,
                    true,
                    Flags::sub_half_carry(old_lhs, rhs, false),
                    Flags::sub_carry(old_lhs, rhs, false),
                ));
            },
        _ => {},
    }
}

/// Logic operations, flag operations and single-bit operations.
pub(crate) fn alu_logic(registers: &mut Registers, op: AluOp)
    requires
        op is And || op is Or || op is Xor || op is Ccf || op is Scf || op is Cpl || op is Bit || op is Res || op is SetBit || op is SetFlags,
    ensures
        final(registers)@ == alu_spec(old(registers)@, op),
{
    let flags = registers.get_flags();
    match op {
            AluOp::And(lhs, rhs) => {
                let old_lhs = registers.get_byte(lhs);
                let rhs = registers.get_byte(rhs);
                let new_lhs = old_lhs & rhs;
                registers.set_byte(lhs, new_lhs);
                registers.set_flags(Flags::new(new_lhs == 0, false, true, false));
            },
            AluOp::Or(lhs, rhs) => {
                let old_lhs = registers.get_byte(lhs);
                let rhs = registers.get_byte(rhs);
                let new_lhs = old_lhs | rhs;
                registers.set_byte(lhs, new_lhs);
                registers.set_flags(Flags::new(new_lhs == 0, false, false, false));
            },
            AluOp::Xor(lhs, rhs) => {
                let old_lhs = registers.get_byte(lhs);
                let rhs = registers.get_byte(rhs);
                let new_lhs = old_lhs ^ rhs;
                registers.set_byte(lhs, new_lhs);
                registers.set_flags(Flags::new(new_lhs == 0, false, false, false));
            },
            AluOp::Ccf => {
                registers.set_flags(Flags::new(flags.z(), false, false, !flags.c()));
            },
            AluOp::Scf => {
                registers.set_flags(Flags::new(flags.z(), false, false, true));
            },
            AluOp::Cpl(rhs) => {
                let old_lhs = registers.get_byte(rhs);
                let new_lhs = 255 - old_lhs;
                registers.set_byte(rhs, new_lhs);
                registers.set_flags(Flags::new(flags.z(), true, true, flags.c()));
            },
            AluOp::Bit(bit, rhs) => {
                let bit_on = (registers.get_byte(rhs) & (1u8 << bit.index())) != 0;
                registers.set_flags(Flags::new(!bit_on, false, true, flags.c()));
            },
            AluOp::Res(bit, rhs) => {
                let v = registers.get_byte(rhs) & !(1u8 << bit.index());
                registers.set_byte(rhs, v);
            },
            AluOp::SetBit(bit, rhs) => {
                let v = registers.get_byte(rhs) | (1u8 << bit.index());
                registers.set_byte(rhs, v);
            },
            AluOp::SetFlags(z, n, h, c) => {
                let z = match z {
                    SetFlagZ::Same => flags.z(),
                    SetFlagZ::On => true,
                    SetFlagZ::Off => false,
                };
                let n = match n {
                    SetFlagN::Same => flags.n(),
                    SetFlagN::On => true,
                    SetFlagN::Off => false,
                };
                let h = match h {
                    SetFlagH::Same => flags.h(),
                    SetFlagH::On => true,
                    SetFlagH::Off => false,
                };
                let c = match c {
                    SetFlagC::Same => flags.c(),
                    SetFlagC::On => true,
                    SetFlagC::Off => false,
                };
                registers.set_flags(Flags::new(z, n, h, c));
            },
        _ => {},
    }
}

/// Rotations, shifts and nibble swaps.
pub(crate) fn alu_shift(registers: &mut Registers, op: AluOp)
    requires
        op is Rlca || op is Rrca || op is Rla || op is Rra || op is Rlc || op is Rrc || op is Rl || op is Rr || op is Sla || op is Sra || op is Sll || op is Srl || op is Swap,
    ensures
        final(registers)@ == alu_spec(old(registers)@, op),
{
    let flags = registers.get_flags();
    match op {
            AluOp::Rlca => {
                let old_lhs = registers.get_a();
                let new_lhs = ((old_lhs as u16 * 2) % 256 + old_lhs as u16 / 128) as u8;
                registers.set_a(new_lhs);
                registers.set_flags(Flags::new(false, false, false, new_lhs % 2 == 1));
            },
            AluOp::Rrca => {
                let old_lhs = registers.get_a();
                let new_lhs = old_lhs / 2 + (old_lhs % 2) * 128;
                registers.set_a(new_lhs);
                registers.set_flags(Flags::new(false, false, false, new_lhs >= 128));
            },
            AluOp::Rla => {
                let old_lhs = registers.get_a();
                let carry = old_lhs >= 128;
                let cv: u16 = if flags.c() { 1 } else { 0 };
                let new_lhs = ((old_lhs as u16 * 2 + cv) % 256) as u8;
                registers.set_a(new_lhs);
                registers.set_flags(Flags::new(false, false, false, carry));
            },
            AluOp::Rra => {
                let old_lhs = registers.get_a();
                let carry = old_lhs % 2 == 1;
                let cv: u8 = if flags.c() { 128 } else { 0 };
                let new_lhs = old_lhs / 2 + cv;
                registers.set_a(new_lhs);
                registers.set_flags(Flags::new(false, false, false, carry));
            },
            AluOp::Rlc(rhs) => {
                let old_lhs = registers.get_byte(rhs);
                let new_lhs = ((old_lhs as u16 * 2) % 256 + old_lhs as u16 / 128) as u8;
                registers.set_byte(rhs, new_lhs);
                registers.set_flags(Flags::new(new_lhs == 0, false, false, new_lhs % 2 == 1));
            },
            AluOp::Rrc(rhs) => {
                let old_lhs = registers.get_byte(rhs);
                let new_lhs = old_lhs / 2 + (old_lhs % 2) * 128;
                registers.set_byte(rhs, new_lhs);
                registers.set_flags(Flags::new(new_lhs == 0, false, false, new_lhs >= 128));
            },
            AluOp::Rl(rhs) => {
                let old_lhs = registers.get_byte(rhs);
                let carry = old_lhs >= 128;
                let cv: u16 = if flags.c() { 1 } else { 0 };
                let new_lhs = ((old_lhs as u16 * 2 + cv) % 256) as u8;
                registers.set_byte(rhs, new_lhs);
                registers.set_flags(Flags::new(new_lhs == 0, false, false, carry));
            },
            AluOp::Rr(rhs) => {
                let old_lhs = registers.get_byte(rhs);
                let carry = old_lhs % 2 == 1;
                let cv: u8 = if flags.c() { 128 } else { 0 };
                let new_lhs = old_lhs / 2 + cv;
                registers.set_byte(rhs, new_lhs);
                registers.set_flags(Flags::new(new_lhs == 0, false, false, carry));
            },
            AluOp::Sla(rhs) => {
                let old_lhs = registers.get_byte(rhs);
                let carry = old_lhs >= 128;
                let new_lhs = ((old_lhs as u16 * 2) % 256) as u8;
                registers.set_byte(rhs, new_lhs);
                registers.set_flags(Flags::new(new_lhs == 0, false, false, carry));
            },
            AluOp::Sra(rhs) => {
                let old_lhs = registers.get_byte(rhs);
                let carry = old_lhs % 2 == 1;
                let new_lhs = old_lhs / 2 + (old_lhs / 128) * 128;
                registers.set_byte(rhs, new_lhs);
                registers.set_flags(Flags::new(new_lhs == 0, false, false, carry));
            },
            AluOp::Sll(rhs) => {
                let old_lhs = registers.get_byte(rhs);
                let carry = old_lhs >= 128;
                let new_lhs = ((old_lhs as u16 * 2 + old_lhs as u16 % 2) % 256) as u8;
                registers.set_byte(rhs, new_lhs);
                registers.set_flags(Flags::new(new_lhs == 0, false, false, carry));
            },
            AluOp::Srl(rhs) => {
                let old_lhs = registers.get_byte(rhs);
                let carry = old_lhs % 2 == 1;
                let new_lhs = old_lhs / 2;
                registers.set_byte(rhs, new_lhs);
                registers.set_flags(Flags::new(new_lhs == 0, false, false, carry));
            },
            AluOp::Swap(rhs) => {
                let old_lhs = registers.get_byte(rhs);
                let new_lhs = (old_lhs % 16) * 16 + old_lhs / 16;
                registers.set_byte(rhs, new_lhs);
                registers.set_flags(Flags::new(new_lhs == 0, false, false, false));
            },
        _ => {},
    }
}

/// The two halves of a 16-bit addition.
pub(crate) fn alu_add16(registers: &mut Registers, op: AluOp)
    requires
        op is AddLsb || op is AddMsb,
    ensures
        final(registers)@ == alu_spec(old(registers)@, op),
{
    let flags = registers.get_flags();
    match op {
            AluOp::AddLsb(lhs, rhs) => {
                let old_lhs = registers.get_word_lsb(lhs);
                let rhs = registers.get_word_lsb(rhs);
                let new_lhs = ((old_lhs as u16 + rhs as u16) % 256) as u8;
                registers.set_word_lsb(lhs, new_lhs);
                registers.set_flags(Flags::new(
                    flags.z(),
                    false,
                    Flags::add_half_carry(old_lhs, rhs, false),
                    Flags::add_carry(old_lhs, rhs, false),
                ));
            },
            AluOp::AddMsb(lhs, rhs) => {
                let old_lhs = registers.get_word_msb(lhs);
                let rhs = registers.get_word_msb(rhs);
                let carry = flags.c();
                let cv: u16 = if carry { 1 } else { 0 };
                let new_lhs = ((old_lhs as u16 + rhs as u16 + cv) % 256) as u8;
                registers.set_word_msb(lhs, new_lhs);
                registers.set_flags(Flags::new(
                    flags.z(),
                    false,
                    Flags::add_half_carry(old_lhs, rhs, carry),
                    Flags::add_carry(old_lhs, rhs, carry),
                ));
            },
        _ => {},
    }
}

/// Law: the 8-bit arithmetic on A and B. ADD leaves in A the sum modulo 256, with Z for a zero
/// result, N clear, H for a carry out of the low nibble and C for a sum above 0xFF; SUB leaves
/// the difference modulo 256, with Z when A equalled B, N set, H for a borrow into the low
/// nibble and C when B was the larger; CP sets the flags of SUB and keeps A; SUB undoes ADD;
/// B is never changed.
#[verifier::rlimit(80)]
#[verifier::spinoff_prover]
pub proof fn lemma_alu_add_sub(r: RegistersView)
    ensures
        ({
            let s = alu_spec(r, AluOp::Add(Registers8Bit::A, Registers8Bit::B));
            &&& s.a == (r.a + r.b) % 256 && s.b == r.b
            &&& s.flags() == (FlagsView {
                z: (r.a + r.b) % 256 == 0,
                n: false,
                h: r.a % 16 + r.b % 16 > 15,
                c: r.a + r.b > 255,
            })
        }),
        ({
            let s = alu_spec(r, AluOp::Sub(Registers8Bit::A, Registers8Bit::B));
            &&& s.a == (r.a - r.b + 256) % 256 && s.b == r.b
            &&& s.flags() == (FlagsView { z: r.a == r.b, n: true, h: r.a % 16 < r.b % 16, c: r.a < r.b })
        }),
        ({
            let s = alu_spec(r, AluOp::Cp(Registers8Bit::A, Registers8Bit::B));
            &&& s.a == r.a && s.b == r.b
            &&& s.flags() == alu_spec(r, AluOp::Sub(Registers8Bit::A, Registers8Bit::B)).flags()
        }),
        alu_spec(alu_spec(r, AluOp::Add(Registers8Bit::A, Registers8Bit::B)), AluOp::Sub(Registers8Bit::A, Registers8Bit::B)).a == r.a,
{
    let x = r.a;
    let y = r.b;
    let sum = wrap8(x + y);
    crate::registers::lemma_flags_read_back(RegistersView { a: sum, ..r }, FlagsView {
        z: sum == 0, n: false, h: spec_add_half_carry(x, y, false), c: spec_add_carry(x, y, false),
    });
    let diff = wrap8(x - y);
    assert(diff == (x - y + 256) % 256) by {
        vstd::arithmetic::div_mod::lemma_mod_add_multiples_vanish(x - y, 256);
    }
    assert(diff == 0 <==> x == y);
    crate::registers::lemma_flags_read_back(RegistersView { a: diff, ..r }, FlagsView {
        z: diff == 0, n: true, h: spec_sub_half_carry(x, y, false), c: spec_sub_carry(x, y, false),
    });
    crate::registers::lemma_flags_read_back(r, FlagsView {
        z: diff == 0, n: true, h: spec_sub_half_carry(x, y, false), c: spec_sub_carry(x, y, false),
    });
    let s = alu_spec(r, AluOp::Add(Registers8Bit::A, Registers8Bit::B));
    assert(wrap8(s.a - y) == x) by {
        assert(s.a == (x + y) % 256);
        if x + y < 256 {
        } else {
            assert(s.a == x + y - 256);
        }
    }
}

/// Law: INC and DEC step a register by one modulo 256, each undoing the other; Z tells a zero
/// result, N is clear after INC and set after DEC, H tells a carry out of (or a borrow into)
/// the low nibble, and C is kept.
#[verifier::rlimit(40)]
#[verifier::spinoff_prover]
pub proof fn lemma_alu_inc_dec(r: RegistersView)
    ensures
        ({
            let s = alu_spec(r, AluOp::Inc(Registers8Bit::B));
            &&& s.b == (r.b + 1) % 256 && s.a == r.a
            &&& s.flags() == (FlagsView { z: r.b == 255, n: false, h: r.b % 16 == 15, c: r.flags().c })
        }),
        ({
            let s = alu_spec(r, AluOp::Dec(Registers8Bit::B));
            &&& s.b == (r.b + 255) % 256 && s.a == r.a
            &&& s.flags() == (FlagsView { z: r.b == 1, n: true, h: r.b % 16 == 0, c: r.flags().c })
        }),
        alu_spec(alu_spec(r, AluOp::Inc(Registers8Bit::B)), AluOp::Dec(Registers8Bit::B)).b == r.b,
        alu_spec(alu_spec(r, AluOp::Dec(Registers8Bit::B)), AluOp::Inc(Registers8Bit::B)).b == r.b,
{
    let x = r.b;
    let up = wrap8(x + 1);
    let down = wrap8(x - 1);
    assert(down == (x + 255) % 256) by {
        vstd::arithmetic::div_mod::lemma_mod_add_multiples_vanish(x - 1, 256);
    }
    crate::registers::lemma_flags_read_back(RegistersView { b: up, ..r }, FlagsView {
        z: up == 0, n: false, h: spec_add_half_carry(x, 1, false), c: r.flags().c,
    });
    crate::registers::lemma_flags_read_back(RegistersView { b: down, ..r }, FlagsView {
        z: down == 0, n: true, h: spec_sub_half_carry(x, 1, false), c: r.flags().c,
    });
    let s1 = alu_spec(r, AluOp::Inc(Registers8Bit::B));
    let s2 = alu_spec(r, AluOp::Dec(Registers8Bit::B));
    assert(wrap8(s1.b - 1) == x) by {
        if x == 255 { assert(s1.b == 0); } else { assert(s1.b == x + 1); }
    }
    assert(wrap8(s2.b + 1) == x) by {
        if x == 0 { assert(s2.b == 255); } else { assert(s2.b == x - 1); }
    }
}

proof fn lemma_rotate_left_bits(x: u8, c: u8)
    by (bit_vector)
    requires
        c == 0 || c == 1,
    ensures
        ((x * 2) % 256 + x / 128) as u8 == (x << 1u8) | (x >> 7u8),
        (((x * 2) % 256 + x / 128) as u8 % 2 == 1) == (x & 0x80 != 0),
{
}

proof fn lemma_rotate_right_bits(x: u8, c: u8)
    by (bit_vector)
    requires
        c == 0 || c == 1,
    ensures
        (x / 2 + (x % 2) * 128) as u8 == (x >> 1u8) | (x << 7u8),
        ((x / 2 + (x % 2) * 128) as u8 >= 128) == (x & 0x01 != 0),
{
}

proof fn lemma_carry_shift_bits(x: u8, c: u8)
    by (bit_vector)
    requires
        c == 0 || c == 1,
    ensures
        ((x * 2 + c) % 256) as u8 == (x << 1u8) | c,
        (x / 2 + c * 128) as u8 == (x >> 1u8) | (c << 7u8),
        ((x * 2) % 256) as u8 == x << 1u8,
{
}

proof fn lemma_shift_bits(x: u8, c: u8)
    by (bit_vector)
    requires
        c == 0 || c == 1,
    ensures
        (x / 2 + (x / 128) * 128) as u8 == (x >> 1u8) | (x & 0x80),
        (x / 2) as u8 == x >> 1u8,
        ((x % 16) * 16 + x / 16) as u8 == (x >> 4u8) | (x << 4u8),
        (x >= 128) == (x & 0x80 != 0),
        (x % 2 == 1) == (x & 0x01 != 0),
        ((((x >> 1u8) | (x << 7u8)) << 1u8) | (((x >> 1u8) | (x << 7u8)) >> 7u8)) == x,
        ((((x >> 4u8) | (x << 4u8)) >> 4u8) | (((x >> 4u8) | (x << 4u8)) << 4u8)) == x,
{
}

/// Law: the logic operations and the arithmetic with carry on A and B. AND, OR and XOR leave
/// the bitwise result in A with Z for a zero result, N and C clear, and H set by AND only;
/// ADC adds the carry flag in, with C for a sum above 0xFF and H for a carry out of the low
/// nibble; SBC subtracts it too, with C when B and the carry exceed A.
#[verifier::rlimit(60)]
#[verifier::spinoff_prover]
pub proof fn lemma_alu_logic_and_carry(r: RegistersView)
    ensures
        ({
            let s = alu_spec(r, AluOp::And(Registers8Bit::A, Registers8Bit::B));
            &&& s.a == r.a & r.b && s.b == r.b
            &&& s.flags() == (FlagsView { z: r.a & r.b == 0, n: false, h: true, c: false })
        }),
        ({
            let s = alu_spec(r, AluOp::Or(Registers8Bit::A, Registers8Bit::B));
            &&& s.a == r.a | r.b && s.b == r.b
            &&& s.flags() == (FlagsView { z: r.a | r.b == 0, n: false, h: false, c: false })
        }),
        ({
            let s = alu_spec(r, AluOp::Xor(Registers8Bit::A, Registers8Bit::B));
            &&& s.a == r.a ^ r.b && s.b == r.b
            &&& s.flags() == (FlagsView { z: r.a == r.b, n: false, h: false, c: false })
        }),
        ({
            let c: int = if r.flags().c { 1 } else { 0 };
            let s = alu_spec(r, AluOp::Adc(Registers8Bit::A, Registers8Bit::B));
            &&& s.a == (r.a + r.b + c) % 256 && s.b == r.b
            &&& s.flags() == (FlagsView {
                z: (r.a + r.b + c) % 256 == 0,
                n: false,
                h: r.a % 16 + r.b % 16 + c > 15,
                c: r.a + r.b + c > 255,
            })
        }),
        ({
            let c: int = if r.flags().c { 1 } else { 0 };
            let s = alu_spec(r, AluOp::Sbc(Registers8Bit::A, Registers8Bit::B));
            &&& s.a == (r.a - r.b - c + 512) % 256 && s.b == r.b
            &&& s.flags() == (FlagsView {
                z: (r.a - r.b - c + 512) % 256 == 0,
                n: true,
                h: r.a % 16 < r.b % 16 + c,
                c: r.a < r.b + c,
            })
        }),
{
    let x = r.a;
    let y = r.b;
    let fc = r.flags().c;
    let c = carry_value(fc);
    assert((x ^ y == 0) == (x == y)) by (bit_vector);
    crate::registers::lemma_flags_read_back(RegistersView { a: x & y, ..r }, FlagsView { z: x & y == 0, n: false, h: true, c: false });
    crate::registers::lemma_flags_read_back(RegistersView { a: x | y, ..r }, FlagsView { z: x | y == 0, n: false, h: false, c: false });
    crate::registers::lemma_flags_read_back(RegistersView { a: x ^ y, ..r }, FlagsView { z: x ^ y == 0, n: false, h: false, c: false });
    let sum = wrap8(x + y + c);
    crate::registers::lemma_flags_read_back(RegistersView { a: sum, ..r }, FlagsView {
        z: sum == 0, n: false, h: spec_add_half_carry(x, y, fc), c: spec_add_carry(x, y, fc),
    });
    let diff = wrap8(x - y - c);
    assert(diff == (x - y - c + 512) % 256) by {
        vstd::arithmetic::div_mod::lemma_mod_add_multiples_vanish(x - y - c + 256, 256);
        vstd::arithmetic::div_mod::lemma_mod_add_multiples_vanish(x - y - c, 256);
    }
    crate::registers::lemma_flags_read_back(RegistersView { a: diff, ..r }, FlagsView {
        z: diff == 0, n: true, h: spec_sub_half_carry(x, y, fc), c: spec_sub_carry(x, y, fc),
    });
}

proof fn lemma_single_bit_ops(x: u8, k: u8)
    by (bit_vector)
    requires
        k < 8,
    ensures
        (x & (1u8 << k) != 0) == ((x >> k) & 1 == 1),
        (x & (1u8 << k) == 0) == ((x >> k) & 1 == 0),
        (x & !(1u8 << k)) & (1u8 << k) == 0,
        (x & !(1u8 << k)) | (1u8 << k) == x | (1u8 << k),
        (x | (1u8 << k)) & (1u8 << k) != 0,
        (x | (1u8 << k)) & !(1u8 << k) == x & !(1u8 << k),
{
}

/// Law: BIT, RES and SET on bit `k` of B, k in 0 ..= 7. BIT sets Z exactly when that bit is
/// 0, clears N, sets H, keeps C and leaves B; RES clears the bit and SET sets it, each keeping
/// the other seven bits and the flags.
pub proof fn lemma_alu_bit_ops(r: RegistersView, b: ByteBit)
    ensures
        ({
            let k = byte_bit_index(b);
            let s = alu_spec(r, AluOp::Bit(b, Registers8Bit::B));
            &&& k < 8
            &&& s.b == r.b
            &&& s.flags() == (FlagsView { z: (r.b >> k) & 1 == 0, n: false, h: true, c: r.flags().c })
        }),
        ({
            let k = byte_bit_index(b);
            let s = alu_spec(r, AluOp::Res(b, Registers8Bit::B));
            &&& (s.b >> k) & 1 == 0
            &&& s.b | (1u8 << k) == r.b | (1u8 << k)
            &&& s.f == r.f
        }),
        ({
            let k = byte_bit_index(b);
            let s = alu_spec(r, AluOp::SetBit(b, Registers8Bit::B));
            &&& (s.b >> k) & 1 == 1
            &&& s.b & !(1u8 << k) == r.b & !(1u8 << k)
            &&& s.f == r.f
        }),
{
    let k = byte_bit_index(b);
    let x = r.b;
    lemma_single_bit_ops(x, k);
    lemma_single_bit_ops(x & !(1u8 << k), k);
    lemma_single_bit_ops(x | (1u8 << k), k);
    crate::registers::lemma_flags_read_back(r, FlagsView { z: !bit_is_set(x, k), n: false, h: true, c: r.flags().c });
}

/// Law: the accumulator rotations of the ALU, as bit operations on A. RLCA and RRCA rotate A
/// by one bit and put the bit that went round in C, each undoing the other; RLA and RRA rotate
/// through C. All four clear Z, N and H.
#[verifier::rlimit(60)]
#[verifier::spinoff_prover]
pub proof fn lemma_alu_rotations(r: RegistersView)
    ensures
        ({
            let s = alu_spec(r, AluOp::Rlca);
            &&& s.a == (r.a << 1u8) | (r.a >> 7u8)
            &&& s.flags() == (FlagsView { z: false, n: false, h: false, c: r.a & 0x80 != 0 })
        }),
        ({
            let s = alu_spec(r, AluOp::Rrca);
            &&& s.a == (r.a >> 1u8) | (r.a << 7u8)
            &&& s.flags() == (FlagsView { z: false, n: false, h: false, c: r.a & 0x01 != 0 })
        }),
        alu_spec(alu_spec(r, AluOp::Rrca), AluOp::Rlca).a == r.a,
        ({
            let s = alu_spec(r, AluOp::Rla);
            &&& s.a == (r.a << 1u8) | (if r.flags().c { 1u8 } else { 0u8 })
            &&& s.flags() == (FlagsView { z: false, n: false, h: false, c: r.a & 0x80 != 0 })
        }),
        ({
            let s = alu_spec(r, AluOp::Rra);
            &&& s.a == (r.a >> 1u8) | ((if r.flags().c { 1u8 } else { 0u8 }) << 7u8)
            &&& s.flags() == (FlagsView { z: false, n: false, h: false, c: r.a & 0x01 != 0 })
        }),
{
    let x = r.a;
    let c: u8 = if r.flags().c { 1 } else { 0 };
    lemma_rotate_left_bits(x, c);
    lemma_rotate_right_bits(x, c);
    lemma_carry_shift_bits(x, c);
    lemma_shift_bits(x, c);
    let rl = rotate_left8(x);
    let rr = rotate_right8(x);
    lemma_shift_bits(rr, 0);
    lemma_rotate_left_bits(rr, 0);
    crate::registers::lemma_flags_read_back(RegistersView { a: rl, ..r }, FlagsView { z: false, n: false, h: false, c: rl % 2 == 1 });
    crate::registers::lemma_flags_read_back(RegistersView { a: rr, ..r }, FlagsView { z: false, n: false, h: false, c: rr >= 128 });
    let rla = wrap8(x * 2 + carry_value(r.flags().c));
    crate::registers::lemma_flags_read_back(RegistersView { a: rla, ..r }, FlagsView { z: false, n: false, h: false, c: x >= 128 });
    let rra = (x / 2 + carry_value(r.flags().c) * 128) as u8;
    crate::registers::lemma_flags_read_back(RegistersView { a: rra, ..r }, FlagsView { z: false, n: false, h: false, c: x % 2 == 1 });
}

/// Law: the shifts and nibble swap of the ALU, as bit operations on A. SLA shifts left with bit
/// 7 to C, SRA shifts right keeping bit 7, SRL shifts right with bit 0 to C; SWAP exchanges
/// the nibbles, clears C, and twice leaves A as it was.
#[verifier::rlimit(60)]
#[verifier::spinoff_prover]
pub proof fn lemma_alu_shifts(r: RegistersView)
    ensures
        ({
            let s = alu_spec(r, AluOp::Sla(Registers8Bit::A));
            &&& s.a == r.a << 1u8
            &&& s.flags() == (FlagsView { z: r.a << 1u8 == 0, n: false, h: false, c: r.a & 0x80 != 0 })
        }),
        ({
            let s = alu_spec(r, AluOp::Sra(Registers8Bit::A));
            &&& s.a == (r.a >> 1u8) | (r.a & 0x80)
            &&& s.flags().c == (r.a & 0x01 != 0)
        }),
        ({
            let s = alu_spec(r, AluOp::Srl(Registers8Bit::A));
            &&& s.a == r.a >> 1u8
            &&& s.flags() == (FlagsView { z: r.a >> 1u8 == 0, n: false, h: false, c: r.a & 0x01 != 0 })
        }),
        ({
            let s = alu_spec(r, AluOp::Swap(Registers8Bit::A));
            &&& s.a == (r.a >> 4u8) | (r.a << 4u8)
            &&& s.flags() == (FlagsView { z: r.a == 0, n: false, h: false, c: false })
        }),
        alu_spec(alu_spec(r, AluOp::Swap(Registers8Bit::A)), AluOp::Swap(Registers8Bit::A)).a == r.a,
{
    let x = r.a;
    lemma_carry_shift_bits(x, 0);
    lemma_shift_bits(x, 0);
    let sw = swap_nibbles(x);
    lemma_shift_bits(sw, 0);
    let sla = wrap8(x * 2);
    crate::registers::lemma_flags_read_back(RegistersView { a: sla, ..r }, FlagsView { z: sla == 0, n: false, h: false, c: x >= 128 });
    let sra = (x / 2 + (x / 128) * 128) as u8;
    crate::registers::lemma_flags_read_back(RegistersView { a: sra, ..r }, FlagsView { z: sra == 0, n: false, h: false, c: x % 2 == 1 });
    let srl = (x / 2) as u8;
    crate::registers::lemma_flags_read_back(RegistersView { a: srl, ..r }, FlagsView { z: srl == 0, n: false, h: false, c: x % 2 == 1 });
    crate::registers::lemma_flags_read_back(RegistersView { a: sw, ..r }, FlagsView { z: sw == 0, n: false, h: false, c: false });
    assert(sw == 0 <==> x == 0) by {
        assert(sw == (x % 16) * 16 + x / 16);
    }
}

} // verus!

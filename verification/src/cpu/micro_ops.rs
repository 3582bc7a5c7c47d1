//! The micro-operations that move data between the registers and the bus.
use vstd::prelude::*;
use crate::types::Address;
use crate::registers::{Registers, RegistersView, Registers8Bit, Registers16Bit};
use crate::bus::{Bus, MmioContext};
use crate::registers::Flags;
use crate::cpu::micro::{high_page, wrapping_inc, wrapping_dec, add_signed, signed_add_flags};

verus! {

/// Reads the byte addressed by `address` into `dst`, then moves `address` by `step`
/// (0, 1 or -1, wrapping).
pub(crate) fn read8(registers: &mut Registers, bus: &Bus, ctx: &MmioContext, dst: Registers8Bit, address: Registers16Bit, step: i8)
    requires
        ctx.view().wf(),
        ctx.view().readable(old(registers)@.word(address)),
        step == 0 || step == 1 || step == -1,
    ensures
        ({
            let r = old(registers)@;
            let a = r.word(address);
            let loaded = r.with_byte(dst, ctx.view().read(a));
            final(registers)@ == if step == 0 {
                loaded
            } else if step == 1 {
                loaded.with_word(address, wrapping_inc(a))
            } else {
                loaded.with_word(address, wrapping_dec(a))
            }
        }),
{
    let addr = registers.get_word(address);
    let value = bus.read(ctx, Address(addr));
    registers.set_byte(dst, value);
    if step == 1 {
        registers.set_word(address, addr.wrapping_add(1));
    } else if step == -1 {
        registers.set_word(address, addr.wrapping_sub(1));
    }
}

/// Reads the byte at `0xFF00 + src` into `dst`.
pub(crate) fn read8_high(registers: &mut Registers, bus: &Bus, ctx: &MmioContext, dst: Registers8Bit, src: Registers8Bit)
    requires
        ctx.view().wf(),
        ctx.view().readable(high_page(old(registers)@.byte(src))),
    ensures
        final(registers)@ == old(registers)@.with_byte(dst, ctx.view().read(high_page(old(registers)@.byte(src)))),
{
    let addr = 0xFF00u16 + registers.get_byte(src) as u16;
    let value = bus.read(ctx, Address(addr));
    registers.set_byte(dst, value);
}

/// Reads the byte addressed by `address` into the low (`msb` false) or high byte of `dst`,
/// then moves `address` up by one, wrapping.
pub(crate) fn read16_part_inc(registers: &mut Registers, bus: &Bus, ctx: &MmioContext, dst: Registers16Bit, address: Registers16Bit, msb: bool)
    requires
        ctx.view().wf(),
        ctx.view().readable(old(registers)@.word(address)),
    ensures
        ({
            let r = old(registers)@;
            let a = r.word(address);
            let v = ctx.view().read(a);
            final(registers)@ == if msb {
                r.with_word_msb(dst, v).with_word(address, wrapping_inc(a))
            } else {
                r.with_word_lsb(dst, v).with_word(address, wrapping_inc(a))
            }
        }),
{
    let addr = registers.get_word(address);
    let value = bus.read(ctx, Address(addr));
    if msb {
        registers.set_word_msb(dst, value);
    } else {
        registers.set_word_lsb(dst, value);
    }
    registers.set_word(address, addr.wrapping_add(1));
}

/// Writes `value` at the byte addressed by `address`, then moves `address` by `step`.
pub(crate) fn write8(registers: &mut Registers, bus: &mut Bus, ctx: &mut MmioContext, address: Registers16Bit, value: u8, step: i8)
    requires
        old(ctx).view().wf(),
        old(ctx).view().writable(old(registers)@.word(address)),
        step == 0 || step == 1 || step == -1,
    ensures
        final(ctx).view() == old(ctx).view().written(old(registers)@.word(address), value),
        final(ctx).view().wf(),
        final(ctx).cartridge_identity() == old(ctx).cartridge_identity(),
        ({
            let r = old(registers)@;
            let a = r.word(address);
            final(registers)@ == if step == 0 {
                r
            } else if step == 1 {
                r.with_word(address, wrapping_inc(a))
            } else {
                r.with_word(address, wrapping_dec(a))
            }
        }),
{
    let addr = registers.get_word(address);
    bus.write(ctx, Address(addr), value);
    if step == 1 {
        registers.set_word(address, addr.wrapping_add(1));
    } else if step == -1 {
        registers.set_word(address, addr.wrapping_sub(1));
    }
}

/// Writes `value` at `0xFF00 + dst`.
pub(crate) fn write8_high(registers: &Registers, bus: &mut Bus, ctx: &mut MmioContext, dst: Registers8Bit, value: u8)
    requires
        old(ctx).view().wf(),
        old(ctx).view().writable(high_page(registers@.byte(dst))),
    ensures
        final(ctx).view() == old(ctx).view().written(high_page(registers@.byte(dst)), value),
        final(ctx).view().wf(),
        final(ctx).cartridge_identity() == old(ctx).cartridge_identity(),
{
    let addr = 0xFF00u16 + registers.get_byte(dst) as u16;
    bus.write(ctx, Address(addr), value);
}

/// Writes `src`, moved by `step` (0, 1 or -1, wrapping), to `dst`.
pub(crate) fn move16(registers: &mut Registers, dst: Registers16Bit, src: Registers16Bit, step: i8)
    requires
        step == 0 || step == 1 || step == -1,
    ensures
        ({
            let r = old(registers)@;
            final(registers)@ == if step == 0 {
                r.with_word(dst, r.word(src))
            } else if step == 1 {
                r.with_word(dst, wrapping_inc(r.word(src)))
            } else {
                r.with_word(dst, wrapping_dec(r.word(src)))
            }
        }),
{
    let word = registers.get_word(src);
    if step == 0 {
        registers.set_word(dst, word);
    } else if step == 1 {
        registers.set_word(dst, word.wrapping_add(1));
    } else {
        registers.set_word(dst, word.wrapping_sub(1));
    }
}

proof fn lemma_add_signed(v: u16, b: u8, sum: u16)
    requires
        b < 128 ==> sum == (v + b) % 0x10000,
        b >= 128 ==> sum == (v + 0x10000 - (256 - b)) % 0x10000,
    ensures
        sum == add_signed(v, b),
{
}

/// Writes `src` plus Z, read as a signed byte, to `dst`; with `flags`, sets the flags of the
/// addition (Z and N cleared, H and C from the low byte).
pub(crate) fn sum_signed_byte16(registers: &mut Registers, src: Registers16Bit, dst: Registers16Bit, flags: bool)
    ensures
        ({
            let r = old(registers)@;
            let sum = r.with_word(dst, add_signed(r.word(src), r.z));
            final(registers)@ == if flags {
                RegistersView { f: sum.f_with_flags(signed_add_flags(r.word(src), r.z)), ..sum }
            } else {
                sum
            }
        }),
{
    let word = registers.get_word(src);
    let offset = registers.get_z();
    let sum = if offset < 128 {
        word.wrapping_add(offset as u16)
    } else {
        word.wrapping_sub(256 - offset as u16)
    };
    proof {
        lemma_add_signed(word, offset, sum);
    }
    registers.set_word(dst, sum);
    if flags {
        let half_carry = (word % 16) + (offset % 16) as u16 > 15;
        let carry = (word % 256) + offset as u16 > 255;
        registers.set_flags(Flags::new(false, false, half_carry, carry));
    }
}

} // verus!

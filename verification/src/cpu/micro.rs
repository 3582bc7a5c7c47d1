//! What each micro-operation does to the registers, the interrupt master enable and the
//! devices behind the bus.
use vstd::prelude::*;
use crate::registers::{RegistersView, FlagsView, FlagBits, Registers8Bit};
use crate::microcode::{MicroOp, MicroFlow, MCycleOp, IduOp, CheckCondition, AluOp, vector_address};
use crate::alu::alu_spec;
use crate::bus::MmioContextView;

verus! {

/// The address `0xFF00 + b` of the high page.
pub open spec fn high_page(b: u8) -> u16 {
    (0xFF00 + b) as u16
}

/// `v + 1`, wrapping to 0.
pub open spec fn wrapping_inc(v: u16) -> u16 {
    ((v + 1) % 0x10000) as u16
}

/// `v - 1`, wrapping to 0xFFFF.
pub open spec fn wrapping_dec(v: u16) -> u16 {
    ((v + 0xFFFF) % 0x10000) as u16
}

/// A byte read as a two's complement number.
pub open spec fn signed_byte(b: u8) -> int {
    if b < 128 { b as int } else { b - 256 }
}

/// `v` plus a signed byte, wrapping.
pub open spec fn add_signed(v: u16, b: u8) -> u16 {
    ((v + signed_byte(b) + 0x10000) % 0x10000) as u16
}

/// The flags of an addition of a signed byte to a 16-bit register: Z and N cleared, H and C
/// from the unsigned addition of the byte to the register's low byte.
pub open spec fn signed_add_flags(v: u16, b: u8) -> FlagsView {
    FlagsView { z: false, n: false, h: (v % 16) + (b % 16) > 15, c: (v % 256) + b > 255 }
}

/// Whether a flag condition holds.
pub open spec fn condition_holds(r: RegistersView, cc: CheckCondition) -> bool {
    match cc {
        CheckCondition::Z => r.flag(FlagBits::Z),
        CheckCondition::N => r.flag(FlagBits::N),
        CheckCondition::H => r.flag(FlagBits::H),
        CheckCondition::C => r.flag(FlagBits::C),
        CheckCondition::NZ => !r.flag(FlagBits::Z),
        CheckCondition::NN => !r.flag(FlagBits::N),
        CheckCondition::NH => !r.flag(FlagBits::H),
        CheckCondition::NC => !r.flag(FlagBits::C),
    }
}

/// Law: a conditional step jumps exactly when its test on F holds, and goes on otherwise: Z,
/// N, H and C jump when bit 7, 6, 5 or 4 of F is set, NZ, NN, NH and NC when it is clear; a
/// test and its negation never both jump. After a comparison `CP A, B`, Z jumps exactly when A
/// equals B and C exactly when A is below B; after `ADD A, B`, C jumps exactly when the sum
/// passed 0xFF.
pub proof fn lemma_conditional_step_jumps(m: MicroOp, idx: usize, r: RegistersView)
    requires
        m != MicroOp::PrefixCB,
    ensures
        (m_cycle_flow(MCycleOp::Cc(m, CheckCondition::Z, idx), r) is Jump) == (r.f & 0x80 != 0),
        (m_cycle_flow(MCycleOp::Cc(m, CheckCondition::N, idx), r) is Jump) == (r.f & 0x40 != 0),
        (m_cycle_flow(MCycleOp::Cc(m, CheckCondition::H, idx), r) is Jump) == (r.f & 0x20 != 0),
        (m_cycle_flow(MCycleOp::Cc(m, CheckCondition::C, idx), r) is Jump) == (r.f & 0x10 != 0),
        (m_cycle_flow(MCycleOp::Cc(m, CheckCondition::NZ, idx), r) is Jump) == (r.f & 0x80 == 0),
        (m_cycle_flow(MCycleOp::Cc(m, CheckCondition::NN, idx), r) is Jump) == (r.f & 0x40 == 0),
        (m_cycle_flow(MCycleOp::Cc(m, CheckCondition::NH, idx), r) is Jump) == (r.f & 0x20 == 0),
        (m_cycle_flow(MCycleOp::Cc(m, CheckCondition::NC, idx), r) is Jump) == (r.f & 0x10 == 0),
        m_cycle_flow(MCycleOp::Cc(m, CheckCondition::C, idx), r) is Jump
            != m_cycle_flow(MCycleOp::Cc(m, CheckCondition::NC, idx), r) is Jump,
        m_cycle_flow(MCycleOp::Cc(m, CheckCondition::Z, idx), r) is Jump
            != m_cycle_flow(MCycleOp::Cc(m, CheckCondition::NZ, idx), r) is Jump,
        forall|cc: CheckCondition| #![trigger m_cycle_flow(MCycleOp::Cc(m, cc, idx), r)]
            m_cycle_flow(MCycleOp::Cc(m, cc, idx), r) == MicroFlow::Jump(idx)
                || m_cycle_flow(MCycleOp::Cc(m, cc, idx), r) == MicroFlow::Next,
        condition_holds(alu_spec(r, AluOp::Cp(Registers8Bit::A, Registers8Bit::B)), CheckCondition::Z) == (r.a == r.b),
        condition_holds(alu_spec(r, AluOp::Cp(Registers8Bit::A, Registers8Bit::B)), CheckCondition::C) == (r.a < r.b),
        condition_holds(alu_spec(r, AluOp::Cp(Registers8Bit::A, Registers8Bit::B)), CheckCondition::NC) == (r.a >= r.b),
        condition_holds(alu_spec(r, AluOp::Add(Registers8Bit::A, Registers8Bit::B)), CheckCondition::C) == (r.a + r.b > 0xFF),
{
    let cp = alu_spec(r, AluOp::Cp(Registers8Bit::A, Registers8Bit::B));
    let x = r.a;
    let y = r.b;
    crate::registers::lemma_flags_read_back(r, FlagsView {
        z: crate::alu::wrap8(x - y) == 0,
        n: true,
        h: crate::registers::spec_sub_half_carry(x, y, false),
        c: crate::registers::spec_sub_carry(x, y, false),
    });
    let v = crate::alu::wrap8(x + y);
    crate::registers::lemma_flags_read_back(RegistersView { a: v, ..r }, FlagsView {
        z: v == 0,
        n: false,
        h: crate::registers::spec_add_half_carry(x, y, false),
        c: crate::registers::spec_add_carry(x, y, false),
    });
    assert(crate::alu::wrap8(x - y) == 0 <==> x == y) by {
        if x != y {
            assert(-256 < x - y < 256);
        }
    }
}

/// Whether a micro-operation reads through the bus.
pub open spec fn reads_bus(op: MicroOp) -> bool {
    op is Fetch8 || op is Read8 || op is Read8Inc || op is Read8Dec || op is Read8H || op is Read16lsbInc
        || op is Read16msbInc || op is Pop16msb || op is Pop16lsb
}

/// Whether a micro-operation writes through the bus.
pub open spec fn writes_bus(op: MicroOp) -> bool {
    op is Write8 || op is Write8Inc || op is Write8Dec || op is Write8H || op is Write16msbDec
        || op is Write16lsb || op is Write16lsbInc || op is Write16msb || op is Push16msb
        || op is Push16lsb || op is AluAndWrite8
}

/// Whether a micro-operation can run: the bus serves what it reads and writes, its ALU
/// operation is implemented, and PC (for a fetch) and SP (for a push or pop) do not step
/// out of the 16-bit range.
pub open spec fn micro_op_ok(r: RegistersView, v: MmioContextView, op: MicroOp) -> bool {
    match op {
        MicroOp::Fetch8(_) => r.pc < 0xFFFF && v.readable(r.pc),
        MicroOp::Read8(_, a) | MicroOp::Read8Inc(_, a) | MicroOp::Read8Dec(_, a)
        | MicroOp::Read16lsbInc(_, a) | MicroOp::Read16msbInc(_, a) => v.readable(r.word(a)),
        MicroOp::Read8H(_, s) => v.readable(high_page(r.byte(s))),
        MicroOp::Write8(a, _) | MicroOp::Write8Inc(a, _) | MicroOp::Write8Dec(a, _)
        | MicroOp::Write16msbDec(a, _) | MicroOp::Write16lsb(a, _) | MicroOp::Write16lsbInc(a, _)
        | MicroOp::Write16msb(a, _) => v.writable(r.word(a)),
        MicroOp::Write8H(d, _) => v.writable(high_page(r.byte(d))),
        MicroOp::Push16msb(_) | MicroOp::Push16lsb(_) => r.sp > 0 && v.writable(r.sp),
        MicroOp::Pop16msb(_) | MicroOp::Pop16lsb(_) => r.sp < 0xFFFF && v.readable((r.sp + 1) as u16),
        MicroOp::AluAndWrite8(a, d, _) => v.writable(alu_spec(r, a).word(d)),
        _ => true,
    }
}

/// The registers after a micro-operation.
pub open spec fn micro_registers(r: RegistersView, v: MmioContextView, op: MicroOp) -> RegistersView {
    match op {
        MicroOp::Fetch8(d) => RegistersView { pc: (r.pc + 1) as u16, ..r }.with_byte(d, v.read(r.pc)),
        MicroOp::Ld8(d, s) => r.with_byte(d, r.byte(s)),
        MicroOp::Ld16(d, s) => r.with_word(d, r.word(s)),
        MicroOp::Read8(d, a) => r.with_byte(d, v.read(r.word(a))),
        MicroOp::Read8Inc(d, a) => r.with_byte(d, v.read(r.word(a))).with_word(a, wrapping_inc(r.word(a))),
        MicroOp::Read8Dec(d, a) => r.with_byte(d, v.read(r.word(a))).with_word(a, wrapping_dec(r.word(a))),
        MicroOp::Read8H(d, s) => r.with_byte(d, v.read(high_page(r.byte(s)))),
        MicroOp::Write8Inc(a, _) => r.with_word(a, wrapping_inc(r.word(a))),
        MicroOp::Write8Dec(a, _) => r.with_word(a, wrapping_dec(r.word(a))),
        MicroOp::Read16lsbInc(d, a) => r.with_word_lsb(d, v.read(r.word(a))).with_word(a, wrapping_inc(r.word(a))),
        MicroOp::Read16msbInc(d, a) => r.with_word_msb(d, v.read(r.word(a))).with_word(a, wrapping_inc(r.word(a))),
        MicroOp::Write16msbDec(a, _) => r.with_word(a, wrapping_dec(r.word(a))),
        MicroOp::Write16lsbInc(a, _) => r.with_word(a, wrapping_inc(r.word(a))),
        MicroOp::Push16msb(_) | MicroOp::Push16lsb(_) => RegistersView { sp: (r.sp - 1) as u16, ..r },
        MicroOp::Pop16msb(d) => RegistersView { sp: (r.sp + 1) as u16, ..r }.with_word_msb(d, v.read((r.sp + 1) as u16)),
        MicroOp::Pop16lsb(d) => RegistersView { sp: (r.sp + 1) as u16, ..r }.with_word_lsb(d, v.read((r.sp + 1) as u16)),
        MicroOp::Inc16(d) => r.with_word(d, wrapping_inc(r.word(d))),
        MicroOp::Dec16(d) => r.with_word(d, wrapping_dec(r.word(d))),
        MicroOp::SumSignedByte16(s, d, flags) => {
            let sum = r.with_word(d, add_signed(r.word(s), r.z));
            if flags {
                RegistersView { f: sum.f_with_flags(signed_add_flags(r.word(s), r.z)), ..sum }
            } else {
                sum
            }
        },
        MicroOp::Idu(IduOp::Pass(d, s)) => r.with_word(d, r.word(s)),
        MicroOp::Idu(IduOp::Inc(d, s)) => r.with_word(d, wrapping_inc(r.word(s))),
        MicroOp::Idu(IduOp::Dec(d, s)) => r.with_word(d, wrapping_dec(r.word(s))),
        MicroOp::AluAndWrite8(a, _, _) => alu_spec(r, a),
        MicroOp::JumpVector(t) => RegistersView { pc: vector_address(t), ..r },
        MicroOp::Alu(a) => alu_spec(r, a),
        _ => r,
    }
}

/// The devices after a micro-operation.
pub open spec fn micro_context(r: RegistersView, v: MmioContextView, op: MicroOp) -> MmioContextView {
    match op {
        MicroOp::Write8(a, s) | MicroOp::Write8Inc(a, s) | MicroOp::Write8Dec(a, s) => v.written(r.word(a), r.byte(s)),
        MicroOp::Write8H(d, s) => v.written(high_page(r.byte(d)), r.byte(s)),
        MicroOp::Write16msbDec(a, s) | MicroOp::Write16msb(a, s) => v.written(r.word(a), r.word_msb(s)),
        MicroOp::Write16lsb(a, s) | MicroOp::Write16lsbInc(a, s) => v.written(r.word(a), r.word_lsb(s)),
        MicroOp::Push16msb(s) => v.written(r.sp, r.word_msb(s)),
        MicroOp::Push16lsb(s) => v.written(r.sp, r.word_lsb(s)),
        MicroOp::AluAndWrite8(a, d, s) => {
            let r2 = alu_spec(r, a);
            v.written(r2.word(d), r2.byte(s))
        },
        _ => v,
    }
}

/// The interrupt master enable after a micro-operation.
pub open spec fn micro_ime(ime: bool, op: MicroOp) -> bool {
    match op {
        MicroOp::ImeEnabled(e) => e,
        _ => ime,
    }
}

/// How the sequence goes on after a micro-operation: the CB prefix switches to the prefixed
/// table, every other operation goes on with the next one.
pub open spec fn micro_flow(op: MicroOp) -> MicroFlow {
    match op {
        MicroOp::PrefixCB => MicroFlow::PrefixCB,
        _ => MicroFlow::Next,
    }
}

/// How the sequence goes on after an M-cycle step, given the registers after its
/// micro-operation.
pub open spec fn m_cycle_flow(op: MCycleOp, after: RegistersView) -> MicroFlow {
    match op {
        MCycleOp::Main(m) => micro_flow(m),
        MCycleOp::Cc(m, cc, idx) => if condition_holds(after, cc) { MicroFlow::Jump(idx) } else { micro_flow(m) },
        MCycleOp::End(_) => MicroFlow::End,
        MCycleOp::Empty => MicroFlow::End,
    }
}

} // verus!

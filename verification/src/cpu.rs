//! The SM83 CPU: fetches, decodes and runs instructions one micro-operation per M-cycle.
pub mod micro;
pub mod micro_ops;

use vstd::prelude::*;
use crate::types::{Address, Byte};
use crate::registers::{Registers, RegistersView};
use crate::microcode::{AluOp, MCycleOp, MicroOp, MicroFlow, IduOp, CheckCondition, m_cycle_micro_op};
use crate::alu::{alu_spec, alu_add, alu_sub, alu_logic, alu_shift, alu_add16};
use crate::instructions::{Instruction, daa};
use crate::instructions::opcodes::{create_opcodes, opcode_defined, instruction_matches};
use crate::instructions::cb_opcodes::{create_cb_opcodes, cb_instruction_matches};
use crate::instructions::interrupt::{InterruptType, interrupt_instruction_matches, interrupt_vector, interrupt_micro_ops};
use crate::microcode::vector_address;
use vstd::arithmetic::power2::{pow2, lemma2_to64};
use crate::interrupt_registers::{InterruptRegisters, InterruptRegistersView, InterruptFlagsMask, interrupt_flag_mask,
    INTERRUPT_VBLANK_ADDR, INTERRUPT_STAT_ADDR, INTERRUPT_TIMER_ADDR, INTERRUPT_SERIAL_ADDR, INTERRUPT_JOYPAD_ADDR};
use crate::cpu_mmio::CpuMmio;
use crate::bus::{Bus, MmioContext, MmioContextView};
use crate::cpu::micro_ops::{read8, read8_high, read16_part_inc, write8, write8_high, sum_signed_byte16, move16};
use crate::cpu::micro::{reads_bus, writes_bus, micro_op_ok, micro_registers, micro_context, micro_ime, micro_flow, m_cycle_flow};

verus! {

/// Whether the CPU is in the middle of an instruction or ready for the next one.
#[derive(Debug, Copy, Clone, PartialEq, Eq, Structural)]
pub enum CpuStatus {
    Execute,
    Ready,
}

/// The state of the CPU.
pub struct CPU {
    pub registers: Registers,
    /// Interrupt master enable.
    pub ime: bool,
    /// The opcode being run.
    pub opcode: u8,
    /// The instruction being run.
    pub instruction: Option<Instruction>,
    /// The micro-operation of the current M-cycle.
    pub micro_code: MCycleOp,
    /// Its index in the instruction's micro-operations.
    pub micro_code_index: usize,
    /// T-cycles counted inside the current M-cycle.
    pub micro_code_t_cycle: u8,
}

/// The interrupt the CPU serves: none while IME is off, else the enabled and requested one
/// with the lowest bit (VBlank, LCD, timer, serial, joypad).
pub open spec fn pending_interrupt(ime: bool, ir: InterruptRegistersView) -> Option<InterruptType> {
    let pending = ir.ie & ir.iflag;
    if !ime {
        None
    } else if pending & 0x01 != 0 {
        Some(InterruptType::VBlank)
    } else if pending & 0x02 != 0 {
        Some(InterruptType::LCD)
    } else if pending & 0x04 != 0 {
        Some(InterruptType::Timer)
    } else if pending & 0x08 != 0 {
        Some(InterruptType::Serial)
    } else if pending & 0x10 != 0 {
        Some(InterruptType::Joypad)
    } else {
        None
    }
}

/// The bit of IE and IF an interrupt owns.
pub open spec fn interrupt_bit(t: InterruptType) -> u8 {
    match t {
        InterruptType::VBlank => 0x01,
        InterruptType::LCD => 0x02,
        InterruptType::Timer => 0x04,
        InterruptType::Serial => 0x08,
        InterruptType::Joypad => 0x10,
    }
}

/// The registers after the micro-operation of an M-cycle step.
pub open spec fn step_registers(r: RegistersView, v: MmioContextView, op: MCycleOp) -> RegistersView {
    match m_cycle_micro_op(op) {
        Some(m) => micro_registers(r, v, m),
        None => r,
    }
}

/// The devices after the micro-operation of an M-cycle step.
pub open spec fn step_context(r: RegistersView, v: MmioContextView, op: MCycleOp) -> MmioContextView {
    match m_cycle_micro_op(op) {
        Some(m) => micro_context(r, v, m),
        None => v,
    }
}

/// The interrupt master enable after the micro-operation of an M-cycle step.
pub open spec fn step_ime(ime: bool, op: MCycleOp) -> bool {
    match m_cycle_micro_op(op) {
        Some(m) => micro_ime(ime, m),
        None => ime,
    }
}

/// How the instruction goes on after an M-cycle step.
pub open spec fn step_flow(r: RegistersView, v: MmioContextView, op: MCycleOp) -> MicroFlow {
    m_cycle_flow(op, step_registers(r, v, op))
}

/// Whether an M-cycle step can run: its micro-operation can, and after a CB prefix the
/// prefixed opcode can be fetched.
pub open spec fn step_ok(r: RegistersView, v: MmioContextView, op: MCycleOp) -> bool {
    &&& (m_cycle_micro_op(op) matches Some(m) ==> micro_op_ok(r, v, m))
    &&& (step_flow(r, v, op) is PrefixCB ==> {
        let r1 = step_registers(r, v, op);
        r1.pc < 0xFFFF && step_context(r, v, op).readable(r1.pc)
    })
}

/// What a T-cycle does to the CPU and to the devices `v0` it started with (`v_new` after):
/// nothing but the T-cycle count until the M-cycle ends; then the step runs and, when the
/// instruction ends, the pending interrupt's routine is loaded or the instruction of the byte
/// at PC is fetched, decoded and loaded.
pub open spec fn tick_done(old: &CPU, new: &CPU, v0: MmioContextView, v_new: MmioContextView) -> bool {
    &&& new.micro_code_t_cycle == (old.micro_code_t_cycle + 1) % 4
    &&& ((old.micro_code_t_cycle + 1) % 4 != 0 ==> {
        &&& v_new == v0
        &&& new.registers@ == old.registers@
        &&& new.ime == old.ime
        &&& new.opcode == old.opcode
        &&& new.instruction == old.instruction
        &&& new.micro_code == old.micro_code
        &&& new.micro_code_index == old.micro_code_index
    })
    &&& ((old.micro_code_t_cycle + 1) % 4 == 0 ==> {
        let r = old.registers@;
        let op = old.micro_code;
        let r1 = step_registers(r, v0, op);
        let v1 = step_context(r, v0, op);
        &&& v_new == v1
        &&& if step_flow(r, v0, op) is End {
            &&& new.ime == step_ime(old.ime, op)
            &&& match pending_interrupt(step_ime(old.ime, op), v1.cpu.interrupts) {
                Some(t) => {
                    &&& new.registers@ == r1
                    &&& new.opcode == old.opcode
                    &&& new.instruction matches Some(i) && interrupt_instruction_matches(i, t)
                    &&& new.micro_code_index == 0
                },
                None => {
                    &&& new.registers@ == (RegistersView { pc: (r1.pc + 1) as u16, ..r1 })
                    &&& new.opcode == v1.read(r1.pc)
                    &&& (new.instruction is Some <==> opcode_defined(new.opcode))
                    &&& (new.instruction matches Some(i) ==> instruction_matches(i, new.opcode))
                    &&& new.micro_code_index == 0
                },
            }
        } else {
            m_cycle_done(old, new, v0, CpuStatus::Execute)
        }
    })
}

/// What an M-cycle step does to the CPU, given the devices `v` it started with: the
/// micro-operation runs, then the instruction goes on with the next step, jumps, switches to
/// the prefixed table (fetching the prefixed opcode) or ends.
pub open spec fn m_cycle_done(old: &CPU, new: &CPU, v: MmioContextView, status: CpuStatus) -> bool {
    let r = old.registers@;
    let op = old.micro_code;
    let r1 = step_registers(r, v, op);
    let v1 = step_context(r, v, op);
    &&& new.ime == step_ime(old.ime, op)
    &&& match step_flow(r, v, op) {
        MicroFlow::Next => {
            &&& status == CpuStatus::Execute
            &&& new.registers@ == r1
            &&& new.opcode == old.opcode
            &&& new.instruction == old.instruction
            &&& new.micro_code_index == old.micro_code_index + 1
        },
        MicroFlow::Jump(to) => {
            &&& status == CpuStatus::Execute
            &&& new.registers@ == r1
            &&& new.opcode == old.opcode
            &&& new.instruction == old.instruction
            &&& new.micro_code_index == to
        },
        MicroFlow::PrefixCB => {
            &&& status == CpuStatus::Execute
            &&& new.registers@ == (RegistersView { pc: (r1.pc + 1) as u16, ..r1 })
            &&& new.opcode == v1.read(r1.pc)
            &&& new.instruction matches Some(i) && cb_instruction_matches(i, new.opcode)
            &&& new.micro_code_index == 0
        },
        MicroFlow::End => {
            &&& status == CpuStatus::Ready
            &&& new.registers@ == r1
            &&& new.opcode == old.opcode
            &&& new.instruction == old.instruction
            &&& new.micro_code_index == old.micro_code_index
            &&& new.micro_code == old.micro_code
        },
    }
}

impl CPU {
    /// Whether the next T-cycle can run: when it ends an M-cycle, that step can run, and if
    /// the instruction then ends with no interrupt to serve, the byte at PC can be fetched.
    pub open spec fn tick_ok(&self, v: MmioContextView) -> bool {
        let r = self.registers@;
        let op = self.micro_code;
        (self.micro_code_t_cycle + 1) % 4 == 0 ==> {
            &&& step_ok(r, v, op)
            &&& (step_flow(r, v, op) is End
                && pending_interrupt(step_ime(self.ime, op), step_context(r, v, op).cpu.interrupts) is None
                ==> {
                    let r1 = step_registers(r, v, op);
                    r1.pc < 0xFFFF && step_context(r, v, op).readable(r1.pc)
                })
        }
    }
}

proof fn lemma_pending_bit(ie: u8, iflag: u8, bit: u8)
    by (bit_vector)
    requires
        bit == 0x01 || bit == 0x02 || bit == 0x04 || bit == 0x08 || bit == 0x10,
    ensures
        (ie & iflag) & bit != 0 <==> (ie & bit != 0 && iflag & bit != 0),
{
}

impl CPU {
    /// The CPU's own invariant: the running instruction is well formed and the current step is
    /// the one its index points at; the T-cycle counter stays below 4.
    pub open spec fn wf(&self) -> bool {
        &&& self.micro_code_t_cycle < 4
        &&& match self.instruction {
            Some(i) => i.wf() && self.micro_code_index < i.micro_ops@.len()
                && self.micro_code == i.micro_ops@[self.micro_code_index as int],
            None => self.micro_code == MCycleOp::Empty,
        }
    }

    /// A CPU with all registers cleared but SP, which points at the top of work RAM.
    pub fn new() -> (r: Self)
        ensures
            r.registers@ == (RegistersView {
                a: 0, b: 0, c: 0, d: 0, e: 0, f: 0, h: 0, l: 0, z: 0, w: 0, sp: 0xDFFF, pc: 0,
            }),
            !r.ime,
            r.opcode == 0,
            r.instruction is None,
            r.micro_code == MCycleOp::Empty,
            r.micro_code_index == 0,
            r.micro_code_t_cycle == 0,
            r.wf(),
    {
        Self {
            registers: Registers::cleared(0xDFFF),
            ime: false,
            opcode: 0,
            instruction: None,
            micro_code: MCycleOp::Empty,
            micro_code_index: 0,
            micro_code_t_cycle: 0,
        }
    }

    /// Reads the byte at PC and moves PC on.
    pub fn fetch_next(&mut self, bus: &Bus, ctx: &mut MmioContext) -> (r: Byte)
        requires
            old(ctx).view().wf(),
            old(self).registers@.pc < 0xFFFF,
            old(ctx).view().readable(old(self).registers@.pc),
        ensures
            r == old(ctx).view().read(old(self).registers@.pc),
            final(self).registers@ == (RegistersView { pc: (old(self).registers@.pc + 1) as u16, ..old(self).registers@ }),
            *final(ctx) == *old(ctx),
            final(self).ime == old(self).ime,
            final(self).opcode == old(self).opcode,
            final(self).instruction == old(self).instruction,
            final(self).micro_code == old(self).micro_code,
            final(self).micro_code_index == old(self).micro_code_index,
            final(self).micro_code_t_cycle == old(self).micro_code_t_cycle,
    {
        let addr = self.registers.get_and_inc_pc();
        bus.read(ctx, Address(addr))
    }

    /// The instruction of an opcode, from the prefixed table when `cb_optable` holds.
    pub fn decode(opcode: u8, cb_optable: bool) -> (r: Option<Instruction>)
        ensures
            cb_optable ==> (r matches Some(i) && cb_instruction_matches(i, opcode) && i.wf()),
            !cb_optable ==> (r is Some <==> opcode_defined(opcode)),
            !cb_optable ==> (r matches Some(i) ==> i.wf() && instruction_matches(i, opcode)),
    {
        if cb_optable {
            return create_cb_opcodes(opcode);
        }
        create_opcodes(opcode)
    }

    /// Fetches the byte at PC and decodes it; returns the instruction and the opcode.
    pub fn fetch_and_decode(&mut self, bus: &Bus, ctx: &mut MmioContext, cb_optable: bool) -> (r: (Option<Instruction>, Byte))
        requires
            old(ctx).view().wf(),
            old(self).registers@.pc < 0xFFFF,
            old(ctx).view().readable(old(self).registers@.pc),
        ensures
            r.1 == old(ctx).view().read(old(self).registers@.pc),
            cb_optable ==> (r.0 matches Some(i) && cb_instruction_matches(i, r.1) && i.wf()),
            !cb_optable ==> (r.0 is Some <==> opcode_defined(r.1)),
            !cb_optable ==> (r.0 matches Some(i) ==> i.wf() && instruction_matches(i, r.1)),
            final(self).registers@ == (RegistersView { pc: (old(self).registers@.pc + 1) as u16, ..old(self).registers@ }),
            *final(ctx) == *old(ctx),
            final(self).ime == old(self).ime,
            final(self).opcode == old(self).opcode,
            final(self).instruction == old(self).instruction,
            final(self).micro_code == old(self).micro_code,
            final(self).micro_code_index == old(self).micro_code_index,
            final(self).micro_code_t_cycle == old(self).micro_code_t_cycle,
    {
        let opcode = self.fetch_next(bus, ctx);
        (Self::decode(opcode, cb_optable), opcode)
    }

    /// Loading a program into memory is left to the cartridge: the CPU is left as it is.
    pub fn load(&mut self, data: &Vec<u8>)
        ensures
            final(self).registers@ == old(self).registers@,
            final(self).ime == old(self).ime,
            final(self).opcode == old(self).opcode,
            final(self).instruction == old(self).instruction,
            final(self).micro_code == old(self).micro_code,
            final(self).micro_code_index == old(self).micro_code_index,
            final(self).micro_code_t_cycle == old(self).micro_code_t_cycle,
    {
    }

    /// The routine of the interrupt to serve, if any: with IME on, the enabled and requested
    /// interrupt with the lowest bit, bit 0 (VBlank) having the highest priority.
    pub fn interrupt(&mut self, interrupt_registers: &InterruptRegisters) -> (r: Option<Instruction>)
        ensures
            match pending_interrupt(old(self).ime, interrupt_registers@) {
                Some(t) => r matches Some(i) && interrupt_instruction_matches(i, t) && i.wf(),
                None => r is None,
            },
            final(self).registers@ == old(self).registers@,
            final(self).ime == old(self).ime,
            final(self).opcode == old(self).opcode,
            final(self).instruction == old(self).instruction,
            final(self).micro_code == old(self).micro_code,
            final(self).micro_code_index == old(self).micro_code_index,
            final(self).micro_code_t_cycle == old(self).micro_code_t_cycle,
    {
        let ir = interrupt_registers;
        proof {
            let ie = ir@.ie;
            let iflag = ir@.iflag;
            lemma_pending_bit(ie, iflag, 0x01);
            lemma_pending_bit(ie, iflag, 0x02);
            lemma_pending_bit(ie, iflag, 0x04);
            lemma_pending_bit(ie, iflag, 0x08);
            lemma_pending_bit(ie, iflag, 0x10);
        }
        let mut interrupt = None;
        if self.ime {
            if ir.get_vblank_enabled() && ir.get_vblank_interrupt() {
                interrupt = Some(InterruptType::interrupt_instruction(InterruptType::VBlank));
            } else if ir.get_lcd_enabled() && ir.get_lcd_interrupt() {
                interrupt = Some(InterruptType::interrupt_instruction(InterruptType::LCD));
            } else if ir.get_timer_enabled() && ir.get_timer_interrupt() {
                interrupt = Some(InterruptType::interrupt_instruction(InterruptType::Timer));
            } else if ir.get_serial_enabled() && ir.get_serial_interrupt() {
                interrupt = Some(InterruptType::interrupt_instruction(InterruptType::Serial));
            } else if ir.get_joypad_enabled() && ir.get_joypad_interrupt() {
                interrupt = Some(InterruptType::interrupt_instruction(InterruptType::Joypad));
            }
        }
        interrupt
    }

    /// Writes a byte at SP, then moves SP down by one.
    pub fn push(&mut self, bus: &mut Bus, ctx: &mut MmioContext, byte: u8)
        requires
            old(ctx).view().wf(),
            old(self).registers@.sp > 0,
            old(ctx).view().writable(old(self).registers@.sp),
        ensures
            final(ctx).view() == old(ctx).view().written(old(self).registers@.sp, byte),
            final(ctx).view().wf(),
            final(ctx).cartridge_identity() == old(ctx).cartridge_identity(),
            final(self).registers@ == (RegistersView { sp: (old(self).registers@.sp - 1) as u16, ..old(self).registers@ }),
            final(self).ime == old(self).ime,
            final(self).opcode == old(self).opcode,
            final(self).instruction == old(self).instruction,
            final(self).micro_code == old(self).micro_code,
            final(self).micro_code_index == old(self).micro_code_index,
            final(self).micro_code_t_cycle == old(self).micro_code_t_cycle,
    {
        bus.write(ctx, self.registers.get_sp_as_address(), byte);
        let sp = self.registers.get_sp();
        self.registers.set_sp(sp - 1);
    }

    /// Moves SP up by one, then reads the byte at SP.
    pub fn pop(&mut self, bus: &mut Bus, ctx: &mut MmioContext) -> (r: Byte)
        requires
            old(ctx).view().wf(),
            old(self).registers@.sp < 0xFFFF,
            old(ctx).view().readable((old(self).registers@.sp + 1) as u16),
        ensures
            r == old(ctx).view().read((old(self).registers@.sp + 1) as u16),
            *final(ctx) == *old(ctx),
            final(self).registers@ == (RegistersView { sp: (old(self).registers@.sp + 1) as u16, ..old(self).registers@ }),
            final(self).ime == old(self).ime,
            final(self).opcode == old(self).opcode,
            final(self).instruction == old(self).instruction,
            final(self).micro_code == old(self).micro_code,
            final(self).micro_code_index == old(self).micro_code_index,
            final(self).micro_code_t_cycle == old(self).micro_code_t_cycle,
    {
        let sp = self.registers.get_sp();
        self.registers.set_sp(sp + 1);
        bus.read(ctx, self.registers.get_sp_as_address())
    }

    /// Runs a micro-operation that reads through the bus.
    fn micro_read(&mut self, bus: &mut Bus, ctx: &mut MmioContext, micro_op: MicroOp)
        requires
            old(ctx).view().wf(),
            reads_bus(micro_op),
            micro_op_ok(old(self).registers@, old(ctx).view(), micro_op),
        ensures
            final(self).registers@ == micro_registers(old(self).registers@, old(ctx).view(), micro_op),
            final(ctx).view() == micro_context(old(self).registers@, old(ctx).view(), micro_op),
            final(ctx).view().wf(),
            final(ctx).cartridge_identity() == old(ctx).cartridge_identity(),
            final(self).ime == micro_ime(old(self).ime, micro_op),
            final(self).opcode == old(self).opcode,
            final(self).instruction == old(self).instruction,
            final(self).micro_code == old(self).micro_code,
            final(self).micro_code_index == old(self).micro_code_index,
            final(self).micro_code_t_cycle == old(self).micro_code_t_cycle,
    {
        match micro_op {
            MicroOp::Fetch8(lhs) => {
                let fetched = self.fetch_next(bus, ctx);
                self.registers.set_byte(lhs, fetched);
            },
            MicroOp::Read8(lhs, rhs) => read8(&mut self.registers, bus, ctx, lhs, rhs, 0),
            MicroOp::Read8Inc(lhs, rhs) => read8(&mut self.registers, bus, ctx, lhs, rhs, 1),
            MicroOp::Read8Dec(lhs, rhs) => read8(&mut self.registers, bus, ctx, lhs, rhs, -1),
            MicroOp::Read8H(lhs, rhs) => read8_high(&mut self.registers, bus, ctx, lhs, rhs),
            MicroOp::Read16lsbInc(lhs, rhs) => read16_part_inc(&mut self.registers, bus, ctx, lhs, rhs, false),
            MicroOp::Read16msbInc(lhs, rhs) => read16_part_inc(&mut self.registers, bus, ctx, lhs, rhs, true),
            MicroOp::Pop16msb(rhs) => {
                let msb = self.pop(bus, ctx);
                self.registers.set_word_msb(rhs, msb);
            },
            MicroOp::Pop16lsb(rhs) => {
                let lsb = self.pop(bus, ctx);
                self.registers.set_word_lsb(rhs, lsb);
            },
            _ => {},
        }
    }

    /// Runs a micro-operation that writes through the bus.
    fn micro_write(&mut self, bus: &mut Bus, ctx: &mut MmioContext, micro_op: MicroOp)
        requires
            old(ctx).view().wf(),
            writes_bus(micro_op),
            micro_op_ok(old(self).registers@, old(ctx).view(), micro_op),
        ensures
            final(self).registers@ == micro_registers(old(self).registers@, old(ctx).view(), micro_op),
            final(ctx).view() == micro_context(old(self).registers@, old(ctx).view(), micro_op),
            final(ctx).view().wf(),
            final(ctx).cartridge_identity() == old(ctx).cartridge_identity(),
            final(self).ime == micro_ime(old(self).ime, micro_op),
            final(self).opcode == old(self).opcode,
            final(self).instruction == old(self).instruction,
            final(self).micro_code == old(self).micro_code,
            final(self).micro_code_index == old(self).micro_code_index,
            final(self).micro_code_t_cycle == old(self).micro_code_t_cycle,
    {
        match micro_op {
            MicroOp::Write8(lhs, rhs) => {
                let value = self.registers.get_byte(rhs);
                write8(&mut self.registers, bus, ctx, lhs, value, 0);
            },
            MicroOp::Write8Inc(lhs, rhs) => {
                let value = self.registers.get_byte(rhs);
                write8(&mut self.registers, bus, ctx, lhs, value, 1);
            },
            MicroOp::Write8Dec(lhs, rhs) => {
                let value = self.registers.get_byte(rhs);
                write8(&mut self.registers, bus, ctx, lhs, value, -1);
            },
            MicroOp::Write8H(lhs, rhs) => {
                let value = self.registers.get_byte(rhs);
                write8_high(&self.registers, bus, ctx, lhs, value);
            },
            MicroOp::Write16msbDec(lhs, rhs) => {
                let value = self.registers.get_word_msb(rhs);
                write8(&mut self.registers, bus, ctx, lhs, value, -1);
            },
            MicroOp::Write16lsb(lhs, rhs) => {
                let value = self.registers.get_word_lsb(rhs);
                write8(&mut self.registers, bus, ctx, lhs, value, 0);
            },
            MicroOp::Write16lsbInc(lhs, rhs) => {
                let value = self.registers.get_word_lsb(rhs);
                write8(&mut self.registers, bus, ctx, lhs, value, 1);
            },
            MicroOp::Write16msb(lhs, rhs) => {
                let value = self.registers.get_word_msb(rhs);
                write8(&mut self.registers, bus, ctx, lhs, value, 0);
            },
            MicroOp::Push16msb(rhs) => {
                let msb = self.registers.get_word_msb(rhs);
                self.push(bus, ctx, msb);
            },
            MicroOp::Push16lsb(rhs) => {
                let lsb = self.registers.get_word_lsb(rhs);
                self.push(bus, ctx, lsb);
            },
            MicroOp::AluAndWrite8(alu_op, lhs, rhs) => {
                self.alu_operation(alu_op);
                let value = self.registers.get_byte(rhs);
                write8(&mut self.registers, bus, ctx, lhs, value, 0);
            },
            _ => {},
        }
    }

    /// Runs a micro-operation that only works on the registers.
    fn micro_internal(&mut self, Ghost(v): Ghost<MmioContextView>, micro_op: MicroOp)
        requires
            !reads_bus(micro_op) && !writes_bus(micro_op) && !(micro_op is Alu),
            micro_op_ok(old(self).registers@, v, micro_op),
        ensures
            final(self).registers@ == micro_registers(old(self).registers@, v, micro_op),
            final(self).ime == micro_ime(old(self).ime, micro_op),
            final(self).opcode == old(self).opcode,
            final(self).instruction == old(self).instruction,
            final(self).micro_code == old(self).micro_code,
            final(self).micro_code_index == old(self).micro_code_index,
            final(self).micro_code_t_cycle == old(self).micro_code_t_cycle,
    {
        match micro_op {
            MicroOp::Ld8(lhs, rhs) => {
                let moved = self.registers.get_byte(rhs);
                self.registers.set_byte(lhs, moved);
            },
            MicroOp::Ld16(lhs, rhs) => move16(&mut self.registers, lhs, rhs, 0),
            MicroOp::Inc16(lhs) => move16(&mut self.registers, lhs, lhs, 1),
            MicroOp::Dec16(lhs) => move16(&mut self.registers, lhs, lhs, -1),
            MicroOp::SumSignedByte16(src, dst, flags) => sum_signed_byte16(&mut self.registers, src, dst, flags),
            MicroOp::Idu(IduOp::Pass(lhs, rhs)) => move16(&mut self.registers, lhs, rhs, 0),
            MicroOp::Idu(IduOp::Inc(lhs, rhs)) => move16(&mut self.registers, lhs, rhs, 1),
            MicroOp::Idu(IduOp::Dec(lhs, rhs)) => move16(&mut self.registers, lhs, rhs, -1),
            MicroOp::JumpVector(jump_addr) => {
                self.registers.set_pc(jump_addr.address());
            },
            MicroOp::ImeEnabled(enabled) => {
                self.ime = enabled;
            },
            MicroOp::PrefixCB => {},
            MicroOp::Idle => {},
            _ => {},
        }
    }

    /// One T-cycle (four make an M-cycle). The last T-cycle of an M-cycle runs the current
    /// step; when the instruction then ends, the CPU serves the pending interrupt, if any, by
    /// loading its routine, and otherwise fetches, decodes and loads the instruction at PC (an
    /// undefined opcode loads none, and the next M-cycle fetches again).
    pub fn tick(&mut self, bus: &mut Bus, ctx: &mut MmioContext)
        requires
            old(self).wf(),
            old(ctx).view().wf(),
            old(self).tick_ok(old(ctx).view()),
        ensures
            final(self).wf(),
            final(ctx).view().wf(),
            final(ctx).cartridge_identity() == old(ctx).cartridge_identity(),
            final(self).micro_code_t_cycle == (old(self).micro_code_t_cycle + 1) % 4,
            (old(self).micro_code_t_cycle + 1) % 4 != 0 ==> *final(ctx) == *old(ctx),
            tick_done(old(self), final(self), old(ctx).view(), final(ctx).view()),
    {
        let t = self.micro_code_t_cycle;
        self.micro_code_t_cycle = (self.micro_code_t_cycle + 1) & 0b0000_0011;
        assert(((t + 1) as u8) & 0b11 == (t + 1) % 4) by (bit_vector)
            requires
                t < 4,
        ;
        let cpu_status;
        if self.micro_code_t_cycle == 0 {
            let op = self.micro_code;
            cpu_status = self.m_cycle_tick(bus, ctx, op);
        } else {
            cpu_status = CpuStatus::Execute;
        }
        match cpu_status {
            CpuStatus::Execute => {},
            CpuStatus::Ready => {
                let interrupt = self.interrupt(ctx.cpu_mmio.interrupt_registers());
                match interrupt {
                    None => {
                        let (instruction, opcode) = self.fetch_and_decode(bus, ctx, false);
                        self.instruction = instruction;
                        self.opcode = opcode;
                        self.micro_code_index = 0;
                        self.micro_code = match &self.instruction {
                            Some(i) => i.micro_ops[0],
                            None => MCycleOp::Empty,
                        };
                    },
                    Some(routine) => {
                        self.micro_code_index = 0;
                        self.micro_code = routine.micro_ops[0];
                        self.instruction = Some(routine);
                    },
                }
            },
        }
    }

    /// Runs the step of the current M-cycle and moves the instruction on.
    fn m_cycle_tick(&mut self, bus: &mut Bus, ctx: &mut MmioContext, m_cycle_op: MCycleOp) -> (r: CpuStatus)
        requires
            old(self).wf(),
            old(ctx).view().wf(),
            m_cycle_op == old(self).micro_code,
            step_ok(old(self).registers@, old(ctx).view(), m_cycle_op),
        ensures
            final(self).wf(),
            m_cycle_done(old(self), final(self), old(ctx).view(), r),
            final(self).micro_code_t_cycle == old(self).micro_code_t_cycle,
            final(ctx).view() == step_context(old(self).registers@, old(ctx).view(), m_cycle_op),
            final(ctx).view().wf(),
            final(ctx).cartridge_identity() == old(ctx).cartridge_identity(),
    {
        proof {
            if self.instruction is Some {
                let ops = self.instruction->0.micro_ops@;
                let k = self.micro_code_index as int;
                assert(m_cycle_micro_op(ops[k]) == m_cycle_micro_op(m_cycle_op));
            }
        }
        let mut flow: MicroFlow;
        match m_cycle_op {
            MCycleOp::Main(micro_op) => {
                flow = self.micro_tick(bus, ctx, micro_op);
            },
            MCycleOp::Cc(micro_op, cc, idx) => {
                flow = self.micro_tick(bus, ctx, micro_op);
                let holds = match cc {
                    CheckCondition::Z => self.registers.get_zero_flag(),
                    CheckCondition::N => self.registers.get_negative_flag(),
                    CheckCondition::H => self.registers.get_half_carry_flag(),
                    CheckCondition::C => self.registers.get_carry_flag(),
                    CheckCondition::NZ => !self.registers.get_zero_flag(),
                    CheckCondition::NN => !self.registers.get_negative_flag(),
                    CheckCondition::NH => !self.registers.get_half_carry_flag(),
                    CheckCondition::NC => !self.registers.get_carry_flag(),
                };
                if holds {
                    flow = MicroFlow::Jump(idx);
                }
            },
            MCycleOp::End(end_micro_op) => {
                self.micro_tick(bus, ctx, end_micro_op);
                flow = MicroFlow::End;
            },
            MCycleOp::Empty => {
                flow = MicroFlow::End;
            },
        }
        match flow {
            MicroFlow::Next => {
                assert(self.micro_code_index + 1 < self.instruction->0.micro_ops.len());
                self.micro_code_index = self.micro_code_index + 1;
                self.micro_code = match &self.instruction {
                    Some(i) => i.micro_ops[self.micro_code_index],
                    None => MCycleOp::Empty,
                };
                CpuStatus::Execute
            },
            MicroFlow::Jump(to) => {
                self.micro_code_index = to;
                self.micro_code = match &self.instruction {
                    Some(i) => i.micro_ops[self.micro_code_index],
                    None => MCycleOp::Empty,
                };
                CpuStatus::Execute
            },
            MicroFlow::PrefixCB => {
                self.micro_code_index = 0;
                let (instruction, opcode) = self.fetch_and_decode(bus, ctx, true);
                self.instruction = instruction;
                self.opcode = opcode;
                self.micro_code = match &self.instruction {
                    Some(i) => i.micro_ops[0],
                    None => MCycleOp::Empty,
                };
                CpuStatus::Execute
            },
            MicroFlow::End => CpuStatus::Ready,
        }
    }

    /// Runs one micro-operation; returns how the instruction goes on.
    fn micro_tick(&mut self, bus: &mut Bus, ctx: &mut MmioContext, micro_op: MicroOp) -> (r: MicroFlow)
        requires
            old(ctx).view().wf(),
            micro_op_ok(old(self).registers@, old(ctx).view(), micro_op),
        ensures
            r == micro_flow(micro_op),
            final(self).registers@ == micro_registers(old(self).registers@, old(ctx).view(), micro_op),
            final(ctx).view() == micro_context(old(self).registers@, old(ctx).view(), micro_op),
            final(ctx).view().wf(),
            final(ctx).cartridge_identity() == old(ctx).cartridge_identity(),
            final(self).ime == micro_ime(old(self).ime, micro_op),
            final(self).opcode == old(self).opcode,
            final(self).instruction == old(self).instruction,
            final(self).micro_code == old(self).micro_code,
            final(self).micro_code_index == old(self).micro_code_index,
            final(self).micro_code_t_cycle == old(self).micro_code_t_cycle,
    {
        match micro_op {
            MicroOp::Fetch8(..) | MicroOp::Read8(..) | MicroOp::Read8Inc(..) | MicroOp::Read8Dec(..)
            | MicroOp::Read8H(..) | MicroOp::Read16lsbInc(..) | MicroOp::Read16msbInc(..)
            | MicroOp::Pop16msb(..) | MicroOp::Pop16lsb(..) => {
                self.micro_read(bus, ctx, micro_op);
                MicroFlow::Next
            },
            MicroOp::Write8(..) | MicroOp::Write8Inc(..) | MicroOp::Write8Dec(..) | MicroOp::Write8H(..)
            | MicroOp::Write16msbDec(..) | MicroOp::Write16lsb(..) | MicroOp::Write16lsbInc(..)
            | MicroOp::Write16msb(..) | MicroOp::Push16msb(..) | MicroOp::Push16lsb(..)
            | MicroOp::AluAndWrite8(..) => {
                self.micro_write(bus, ctx, micro_op);
                MicroFlow::Next
            },
            MicroOp::PrefixCB => MicroFlow::PrefixCB,
            MicroOp::Alu(alu_op) => {
                self.alu_operation(alu_op);
                MicroFlow::Next
            },
            _ => {
                self.micro_internal(Ghost(ctx.view()), micro_op);
                MicroFlow::Next
            },
        }
    }

    /// Runs an ALU operation on the registers.
    pub fn alu_operation(&mut self, op: AluOp)
        ensures
            final(self).registers@ == alu_spec(old(self).registers@, op),
            final(self).ime == old(self).ime,
            final(self).opcode == old(self).opcode,
            final(self).instruction == old(self).instruction,
            final(self).micro_code == old(self).micro_code,
            final(self).micro_code_index == old(self).micro_code_index,
            final(self).micro_code_t_cycle == old(self).micro_code_t_cycle,
    {
        match op {
            AluOp::Add(..) | AluOp::Adc(..) | AluOp::Inc(..) | AluOp::Dec(..) => alu_add(&mut self.registers, op),
            AluOp::Sub(..) | AluOp::Sbc(..) | AluOp::Cp(..) => alu_sub(&mut self.registers, op),
            AluOp::Rlca | AluOp::Rrca | AluOp::Rla | AluOp::Rra | AluOp::Rlc(..) | AluOp::Rrc(..)
            | AluOp::Rl(..) | AluOp::Rr(..) | AluOp::Sla(..) | AluOp::Sra(..) | AluOp::Sll(..)
            | AluOp::Srl(..) | AluOp::Swap(..) => alu_shift(&mut self.registers, op),
            AluOp::AddLsb(..) | AluOp::AddMsb(..) => alu_add16(&mut self.registers, op),
            AluOp::Daa => {
                let (a, f) = daa(self.registers.get_a(), self.registers.get_f());
                self.registers.set_a(a);
                self.registers.set_f(f);
            },
            _ => alu_logic(&mut self.registers, op),
        }
    }
}

/// The interrupt the CPU serves is enabled and requested, and no interrupt with a lower bit
/// is; with IME on, one is served whenever any of the five is enabled and requested.
pub proof fn lemma_interrupt_priority(ime: bool, ir: InterruptRegistersView)
    ensures
        match pending_interrupt(ime, ir) {
            Some(t) => {
                let pending = ir.ie & ir.iflag;
                &&& ime
                &&& pending & interrupt_bit(t) != 0
                &&& interrupt_bit(t) > 0x01 ==> pending & 0x01 == 0
                &&& interrupt_bit(t) > 0x02 ==> pending & 0x02 == 0
                &&& interrupt_bit(t) > 0x04 ==> pending & 0x04 == 0
                &&& interrupt_bit(t) > 0x08 ==> pending & 0x08 == 0
            },
            None => !ime || (ir.ie & ir.iflag) & 0x1F == 0,
        },
{
    let p = ir.ie & ir.iflag;
    assert(p & 0x01 == 0 && p & 0x02 == 0 && p & 0x04 == 0 && p & 0x08 == 0 && p & 0x10 == 0 ==> p & 0x1F == 0)
        by (bit_vector);
}

/// Law: an interrupt jumps to 0x40 plus eight times the index of the IE/IF bit it owns, so
/// VBlank (bit 0) goes to 0x40, LCD STAT to 0x48, the timer to 0x50, serial to 0x58 and the
/// joypad (bit 4) to 0x60; the routine served for the pending bits with IME on jumps there.
pub proof fn lemma_interrupt_vector_of_bit(t: InterruptType, ime: bool, ir: InterruptRegistersView)
    ensures
        ({
            let a = vector_address(interrupt_vector(t)) as int;
            let k = (a - 0x40) / 8;
            &&& 0 <= k < 5
            &&& a == 0x40 + 8 * k
            &&& interrupt_bit(t) as int == pow2(k as nat)
        }),
        pending_interrupt(ime, ir) matches Some(u) ==> {
            let k = (vector_address(interrupt_vector(u)) - 0x40) / 8;
            &&& (ir.ie & ir.iflag) & interrupt_bit(u) != 0
            &&& interrupt_micro_ops(u).last() == MCycleOp::End(MicroOp::JumpVector(interrupt_vector(u)))
            &&& interrupt_bit(u) as int == pow2(k as nat)
        },
{
    lemma2_to64();
    lemma_interrupt_priority(ime, ir);
}

/// Law: an interrupt requested by setting its IF bit, with IME on and every source enabled,
/// is served at its own address: VBlank at 0x40, LCD STAT at 0x48, the timer at 0x50, serial
/// at 0x58 and the joypad at 0x60.
pub proof fn lemma_requested_interrupt_vector(m: InterruptFlagsMask)
    ensures
        pending_interrupt(true, InterruptRegistersView { ie: 0xFF, iflag: interrupt_flag_mask(m) }) matches Some(t)
            && vector_address(interrupt_vector(t)) == match m {
                InterruptFlagsMask::VBlank => INTERRUPT_VBLANK_ADDR,
                InterruptFlagsMask::LCD => INTERRUPT_STAT_ADDR,
                InterruptFlagsMask::Timer => INTERRUPT_TIMER_ADDR,
                InterruptFlagsMask::Serial => INTERRUPT_SERIAL_ADDR,
                InterruptFlagsMask::JoyPad => INTERRUPT_JOYPAD_ADDR,
            },
{
    let f = interrupt_flag_mask(m);
    assert((0xFFu8 & f) == f && (f == 0x01 ==> f & 0x01 != 0) && (f == 0x02 ==> f & 0x01 == 0 && f & 0x02 != 0)
        && (f == 0x04 ==> f & 0x03 == 0 && f & 0x01 == 0 && f & 0x02 == 0 && f & 0x04 != 0)
        && (f == 0x08 ==> f & 0x01 == 0 && f & 0x02 == 0 && f & 0x04 == 0 && f & 0x08 != 0)
        && (f == 0x10 ==> f & 0x01 == 0 && f & 0x02 == 0 && f & 0x04 == 0 && f & 0x08 == 0 && f & 0x10 != 0))
        by (bit_vector);
}

/// Popping right after a push gives back the pushed byte and SP as it was, when SP points
/// into plain memory (video RAM, the LCD registers, IE, IF, work RAM, OAM or high RAM).
pub proof fn lemma_push_then_pop(r: RegistersView, v: MmioContextView, byte: u8)
    requires
        v.wf(),
        r.sp > 0,
        crate::bus::is_plain_memory(r.sp),
    ensures
        ({
            let pushed_sp = (r.sp - 1) as u16;
            let v1 = v.written(r.sp, byte);
            &&& v1.wf()
            &&& v1.readable((pushed_sp + 1) as u16)
            &&& v1.read((pushed_sp + 1) as u16) == byte
            &&& (pushed_sp + 1) as u16 == r.sp
        }),
{
    crate::bus::lemma_read_after_write(v, r.sp, byte);
}

/// A CPU with its memory-mapped registers.
pub struct CpuCtx {
    pub cpu: CPU,
    pub mmio: CpuMmio,
}

} // verus!

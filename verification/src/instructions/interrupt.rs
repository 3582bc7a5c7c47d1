//! The routines the CPU runs to serve an interrupt.
use vstd::prelude::*;
use crate::registers::Registers16Bit;
use crate::microcode::{MCycleOp, MicroOp, VectorAddress};
use crate::instructions::Instruction;

verus! {

/// The five interrupt sources, from the highest priority to the lowest.
#[derive(Copy, Clone, Debug, PartialEq, Eq, Structural)]
pub enum InterruptType {
    VBlank,
    LCD,
    Timer,
    Serial,
    Joypad,
}

/// The vector an interrupt jumps to.
pub open spec fn interrupt_vector(t: InterruptType) -> VectorAddress {
    match t {
        InterruptType::VBlank => VectorAddress::VBlank,
        InterruptType::LCD => VectorAddress::STAT,
        InterruptType::Timer => VectorAddress::Timer,
        InterruptType::Serial => VectorAddress::Serial,
        InterruptType::Joypad => VectorAddress::Joypad,
    }
}

/// The name of an interrupt's routine.
pub open spec fn interrupt_name(t: InterruptType) -> &'static str {
    match t {
        InterruptType::VBlank => "Interrupt - VBlank",
        InterruptType::LCD => "Interrupt - LCD",
        InterruptType::Timer => "Interrupt - Timer",
        InterruptType::Serial => "Interrupt - Serial",
        InterruptType::Joypad => "Interrupt - Joypad",
    }
}

/// The micro-operations of an interrupt routine: two idle M-cycles in effect, PC pushed on
/// the stack, then a jump to the interrupt's vector.
pub open spec fn interrupt_micro_ops(t: InterruptType) -> Seq<MCycleOp> {
    seq![
        MCycleOp::Main(MicroOp::Idle),
        MCycleOp::Main(MicroOp::Dec16(Registers16Bit::SP)),
        MCycleOp::Main(MicroOp::Write16msbDec(Registers16Bit::SP, Registers16Bit::PC)),
        MCycleOp::Main(MicroOp::Write16lsb(Registers16Bit::SP, Registers16Bit::PC)),
        MCycleOp::End(MicroOp::JumpVector(interrupt_vector(t))),
    ]
}

/// The routine of an interrupt: its name, no opcode, no size, five M-cycles.
pub open spec fn interrupt_instruction_matches(i: Instruction, t: InterruptType) -> bool {
    &&& i.name == interrupt_name(t)
    &&& i.opcode == 0
    &&& i.size == 0
    &&& i.cycles == 5
    &&& i.flags@ == Seq::<crate::registers::FlagBits>::empty()
    &&& i.micro_ops@ == interrupt_micro_ops(t)
}

fn interrupt_routine(name: &'static str, vector: VectorAddress) -> (r: Instruction)
    ensures
        r.opcode == 0 && r.size == 0 && r.cycles == 5 && r.name == name,
        r.flags@ =~= Seq::<crate::registers::FlagBits>::empty(),
        r.micro_ops@ =~= seq![
            MCycleOp::Main(MicroOp::Idle),
            MCycleOp::Main(MicroOp::Dec16(Registers16Bit::SP)),
            MCycleOp::Main(MicroOp::Write16msbDec(Registers16Bit::SP, Registers16Bit::PC)),
            MCycleOp::Main(MicroOp::Write16lsb(Registers16Bit::SP, Registers16Bit::PC)),
            MCycleOp::End(MicroOp::JumpVector(vector)),
        ],
{
    Instruction {
        opcode: 0x00,
        name,
        cycles: 5,
        size: 0,
        flags: vec![],
        micro_ops: vec![
            MCycleOp::Main(MicroOp::Idle),
            MCycleOp::Main(MicroOp::Dec16(Registers16Bit::SP)),
            MCycleOp::Main(MicroOp::Write16msbDec(Registers16Bit::SP, Registers16Bit::PC)),
            MCycleOp::Main(MicroOp::Write16lsb(Registers16Bit::SP, Registers16Bit::PC)),
            MCycleOp::End(MicroOp::JumpVector(vector)),
        ],
    }
}

impl InterruptType {
    /// The routine that serves an interrupt.
    pub fn interrupt_instruction(interrupt_type: InterruptType) -> (r: Instruction)
        ensures
            interrupt_instruction_matches(r, interrupt_type),
            r.wf(),
    {
        match interrupt_type {
            InterruptType::VBlank => interrupt_routine("Interrupt - VBlank", VectorAddress::VBlank),
            InterruptType::LCD => interrupt_routine("Interrupt - LCD", VectorAddress::STAT),
            InterruptType::Timer => interrupt_routine("Interrupt - Timer", VectorAddress::Timer),
            InterruptType::Serial => interrupt_routine("Interrupt - Serial", VectorAddress::Serial),
            InterruptType::Joypad => interrupt_routine("Interrupt - Joypad", VectorAddress::Joypad),
        }
    }

    /// The routine that serves this interrupt.
    pub fn instruction(&self) -> (r: Instruction)
        ensures
            interrupt_instruction_matches(r, *self),
            r.wf(),
    {
        Self::interrupt_instruction(*self)
    }
}

} // verus!

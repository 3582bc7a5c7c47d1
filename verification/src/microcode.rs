//! The micro-operations an instruction is made of: one per M-cycle.
use vstd::prelude::*;
use crate::registers::{Registers8Bit, Registers16Bit};

verus! {

pub type Lhs8Bit = Registers8Bit;
pub type Rhs8Bit = Registers8Bit;
pub type Lhs16Bit = Registers16Bit;
pub type Rhs16Bit = Registers16Bit;
pub type AddressRegister = Registers16Bit;

/// A bit position inside a byte.
#[derive(Debug, Clone, Copy, PartialEq, Eq, Structural)]
pub enum ByteBit {
    Zero,
    One,
    Two,
    Three,
    Four,
    Five,
    Six,
    Seven,
}

/// The position of a bit, 0 for the least significant one.
pub open spec fn byte_bit_index(bit: ByteBit) -> u8 {
    match bit {
        ByteBit::Zero => 0,
        ByteBit::One => 1,
        ByteBit::Two => 2,
        ByteBit::Three => 3,
        ByteBit::Four => 4,
        ByteBit::Five => 5,
        ByteBit::Six => 6,
        ByteBit::Seven => 7,
    }
}

impl ByteBit {
    /// The position of the bit, 0 for the least significant one.
    pub fn index(self) -> (r: u8)
        ensures
            r == byte_bit_index(self),
            r < 8,
    {
        match self {
            ByteBit::Zero => 0,
            ByteBit::One => 1,
            ByteBit::Two => 2,
            ByteBit::Three => 3,
            ByteBit::Four => 4,
            ByteBit::Five => 5,
            ByteBit::Six => 6,
            ByteBit::Seven => 7,
        }
    }
}

/// The fixed addresses that RST instructions and interrupts jump to.
#[derive(Debug, Clone, Copy, PartialEq, Eq, Structural)]
pub enum VectorAddress {
    V0,
    V1,
    V2,
    V3,
    V4,
    V5,
    V6,
    V7,
    VBlank,
    STAT,
    Timer,
    Serial,
    Joypad,
}

/// The address a vector jumps to.
pub open spec fn vector_address(v: VectorAddress) -> u16 {
    match v {
        VectorAddress::V0 => 0x00,
        VectorAddress::V1 => 0x08,
        VectorAddress::V2 => 0x10,
        VectorAddress::V3 => 0x18,
        VectorAddress::V4 => 0x20,
        VectorAddress::V5 => 0x28,
        VectorAddress::V6 => 0x30,
        VectorAddress::V7 => 0x38,
        VectorAddress::VBlank => 0x40,
        VectorAddress::STAT => 0x48,
        VectorAddress::Timer => 0x50,
        VectorAddress::Serial => 0x58,
        VectorAddress::Joypad => 0x60,
    }
}

impl VectorAddress {
    /// The address this vector jumps to.
    pub fn address(self) -> (r: u16)
        ensures
            r == vector_address(self),
    {
        match self {
            VectorAddress::V0 => 0x00,
            VectorAddress::V1 => 0x08,
            VectorAddress::V2 => 0x10,
            VectorAddress::V3 => 0x18,
            VectorAddress::V4 => 0x20,
            VectorAddress::V5 => 0x28,
            VectorAddress::V6 => 0x30,
            VectorAddress::V7 => 0x38,
            VectorAddress::VBlank => 0x40,
            VectorAddress::STAT => 0x48,
            VectorAddress::Timer => 0x50,
            VectorAddress::Serial => 0x58,
            VectorAddress::Joypad => 0x60,
        }
    }
}

/// A flag condition tested by conditional jumps, calls and returns.
#[derive(Debug, Clone, Copy, PartialEq, Eq, Structural)]
pub enum CheckCondition {
    Z,
    N,
    H,
    C,
    NZ,
    NN,
    NH,
    NC,
}

/// A 16-bit move through the increment/decrement unit: `(destination, source)`.
#[derive(Debug, Clone, Copy, PartialEq, Eq, Structural)]
pub enum IduOp {
    Pass(Lhs16Bit, Rhs16Bit),
    Inc(Lhs16Bit, Rhs16Bit),
    Dec(Lhs16Bit, Rhs16Bit),
}

/// How an explicit flag update treats the zero flag.
#[derive(Debug, Clone, Copy, PartialEq, Eq, Structural)]
pub enum SetFlagZ {
    Same,
    On,
    Off,
}

/// How an explicit flag update treats the negative flag.
#[derive(Debug, Clone, Copy, PartialEq, Eq, Structural)]
pub enum SetFlagN {
    Same,
    On,
    Off,
}

/// How an explicit flag update treats the half carry flag.
#[derive(Debug, Clone, Copy, PartialEq, Eq, Structural)]
pub enum SetFlagH {
    Same,
    On,
    Off,
}

/// How an explicit flag update treats the carry flag.
#[derive(Debug, Clone, Copy, PartialEq, Eq, Structural)]
pub enum SetFlagC {
    Same,
    On,
    Off,
}

/// An operation of the arithmetic and logic unit.
#[derive(Debug, Clone, Copy, PartialEq, Eq, Structural)]
pub enum AluOp {
    Add(Lhs8Bit, Rhs8Bit),
    Adc(Lhs8Bit, Rhs8Bit),
    Sub(Lhs8Bit, Rhs8Bit),
    Sbc(Lhs8Bit, Rhs8Bit),
    Cp(Lhs8Bit, Rhs8Bit),
    Inc(Rhs8Bit),
    Dec(Rhs8Bit),
    And(Lhs8Bit, Rhs8Bit),
    Or(Lhs8Bit, Rhs8Bit),
    Xor(Lhs8Bit, Rhs8Bit),
    Ccf,
    Scf,
    Daa,
    Cpl(Rhs8Bit),
    Rlca,
    Rrca,
    Rla,
    Rra,
    Rlc(Rhs8Bit),
    Rrc(Rhs8Bit),
    Rl(Rhs8Bit),
    Rr(Rhs8Bit),
    Sla(Rhs8Bit),
    Swap(Rhs8Bit),
    Sra(Rhs8Bit),
    Sll(Rhs8Bit),
    Srl(Rhs8Bit),
    Bit(ByteBit, Rhs8Bit),
    Res(ByteBit, Rhs8Bit),
    SetBit(ByteBit, Rhs8Bit),
    /// Adds the low byte of a 16-bit register into the low byte of another.
    AddLsb(Lhs16Bit, Rhs16Bit),
    /// Adds, with the carry, the high byte of a 16-bit register into the high byte of another.
    AddMsb(Lhs16Bit, Rhs16Bit),
    SetFlags(SetFlagZ, SetFlagN, SetFlagH, SetFlagC),
}

/// What one M-cycle of an instruction does.
#[derive(Debug, Clone, Copy, PartialEq, Eq, Structural)]
pub enum MicroOp {
    /// Reads the byte at PC into a register and moves PC on.
    Fetch8(Registers8Bit),
    Ld8(Lhs8Bit, Rhs8Bit),
    Ld16(Lhs16Bit, Rhs16Bit),
    /// Reads the byte addressed by a 16-bit register.
    Read8(Lhs8Bit, AddressRegister),
    /// As `Read8`, then increments the address register.
    Read8Inc(Lhs8Bit, AddressRegister),
    /// As `Read8`, then decrements the address register.
    Read8Dec(Lhs8Bit, AddressRegister),
    /// Reads the byte at 0xFF00 plus an 8-bit register.
    Read8H(Lhs8Bit, Rhs8Bit),
    /// Writes a register to the byte addressed by a 16-bit register.
    Write8(AddressRegister, Rhs8Bit),
    Write8Inc(AddressRegister, Rhs8Bit),
    Write8Dec(AddressRegister, Rhs8Bit),
    /// Writes a register to 0xFF00 plus an 8-bit register.
    Write8H(Lhs8Bit, Rhs8Bit),
    /// Reads the low byte of a 16-bit register, then increments the address register.
    Read16lsbInc(Lhs16Bit, AddressRegister),
    /// Reads the high byte of a 16-bit register, then increments the address register.
    Read16msbInc(Lhs16Bit, AddressRegister),
    /// Writes the high byte of a 16-bit register, then decrements the address register.
    Write16msbDec(AddressRegister, Rhs16Bit),
    Write16lsb(AddressRegister, Rhs16Bit),
    Write16lsbInc(AddressRegister, Rhs16Bit),
    Write16msb(AddressRegister, Rhs16Bit),
    Push16msb(Rhs16Bit),
    Push16lsb(Rhs16Bit),
    Pop16msb(Rhs16Bit),
    Pop16lsb(Rhs16Bit),
    Inc16(Rhs16Bit),
    Dec16(Rhs16Bit),
    /// `(source, destination, flags)`: destination gets source plus Z read as a signed byte.
    SumSignedByte16(Lhs16Bit, Rhs16Bit, bool),
    Idu(IduOp),
    /// Runs an ALU operation, then writes a register to the byte addressed by a 16-bit register.
    AluAndWrite8(AluOp, AddressRegister, Rhs8Bit),
    JumpVector(VectorAddress),
    Alu(AluOp),
    ImeEnabled(bool),
    PrefixCB,
    Idle,
}

/// A micro-operation with what follows it.
#[derive(Debug, Clone, Copy, PartialEq, Eq, Structural)]
pub enum MCycleOp {
    /// The instruction goes on with the next micro-operation.
    Main(MicroOp),
    /// The instruction goes on with the next micro-operation, or jumps to the given one
    /// when the condition holds.
    Cc(MicroOp, CheckCondition, usize),
    /// The instruction ends after this micro-operation.
    End(MicroOp),
    Empty,
}

/// How the micro-operation sequence goes on.
#[derive(Debug, Clone, Copy, PartialEq, Eq, Structural)]
pub enum MicroFlow {
    Next,
    Jump(usize),
    PrefixCB,
    End,
}

/// The micro-operation that an M-cycle step runs, if any.
pub open spec fn m_cycle_micro_op(op: MCycleOp) -> Option<MicroOp> {
    match op {
        MCycleOp::Main(m) => Some(m),
        MCycleOp::Cc(m, _, _) => Some(m),
        MCycleOp::End(m) => Some(m),
        MCycleOp::Empty => None,
    }
}

/// A sequence of M-cycle steps that never runs past its end.
pub open spec fn micro_ops_wf(ops: Seq<MCycleOp>) -> bool {
    &&& ops.len() > 0
    &&& forall|i: int|
        0 <= i < ops.len() ==> {
            &&& (#[trigger] ops[i] matches MCycleOp::Main(m) && m != MicroOp::PrefixCB ==> i + 1 < ops.len())
            &&& (ops[i] matches MCycleOp::Cc(m, _, idx) ==> i + 1 < ops.len() && idx < ops.len())
        }
}

} // verus!

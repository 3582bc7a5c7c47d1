//! The table of opcodes that follow the 0xCB prefix: rotations, shifts and bit operations.
use vstd::prelude::*;
use crate::registers::{FlagBits, Registers8Bit, Registers16Bit};
use crate::microcode::{MCycleOp, MicroOp, AluOp, ByteBit, byte_bit_index};
use crate::instructions::Instruction;

verus! {

/// The register a prefixed opcode works on, from its low three bits; the `[HL]` column works
/// on the Z buffer register.
pub open spec fn cb_register(opcode: u8) -> Registers8Bit {
    let column = opcode % 8;
    if column == 0 {
        Registers8Bit::B
    } else if column == 1 {
        Registers8Bit::C
    } else if column == 2 {
        Registers8Bit::D
    } else if column == 3 {
        Registers8Bit::E
    } else if column == 4 {
        Registers8Bit::H
    } else if column == 5 {
        Registers8Bit::L
    } else if column == 6 {
        Registers8Bit::Z
    } else {
        Registers8Bit::A
    }
}

/// The bit a BIT, RES or SET opcode tests or changes, from bits 3 to 5.
pub open spec fn cb_bit(opcode: u8) -> ByteBit {
    let b = (opcode / 8) % 8;
    if b == 0 {
        ByteBit::Zero
    } else if b == 1 {
        ByteBit::One
    } else if b == 2 {
        ByteBit::Two
    } else if b == 3 {
        ByteBit::Three
    } else if b == 4 {
        ByteBit::Four
    } else if b == 5 {
        ByteBit::Five
    } else if b == 6 {
        ByteBit::Six
    } else {
        ByteBit::Seven
    }
}

/// Whether a prefixed opcode works on the byte addressed by HL.
pub open spec fn cb_on_memory(opcode: u8) -> bool {
    opcode % 8 == 6
}

/// The ALU operation of a prefixed opcode, decoded from its bits: rows 0x00 ..= 0x3F hold the
/// rotations and shifts (bits 3..=5 pick which), then BIT, RES and SET of bit 3..=5, each on
/// the register of bits 0..=2.
pub open spec fn cb_alu_op(opcode: u8) -> AluOp {
    let r = cb_register(opcode);
    let row = opcode / 8;
    if opcode >= 0xC0 {
        AluOp::SetBit(cb_bit(opcode), r)
    } else if opcode >= 0x80 {
        AluOp::Res(cb_bit(opcode), r)
    } else if opcode >= 0x40 {
        AluOp::Bit(cb_bit(opcode), r)
    } else if row == 0 {
        AluOp::Rlc(r)
    } else if row == 1 {
        AluOp::Rrc(r)
    } else if row == 2 {
        AluOp::Rl(r)
    } else if row == 3 {
        AluOp::Rr(r)
    } else if row == 4 {
        AluOp::Sla(r)
    } else if row == 5 {
        AluOp::Sra(r)
    } else if row == 6 {
        AluOp::Swap(r)
    } else {
        AluOp::Srl(r)
    }
}

/// Law: prefixed opcodes 0x40 ..= 0x7F are BIT, 0x80 ..= 0xBF RES and 0xC0 ..= 0xFF SET, of
/// the bit that bits 3 to 5 of the opcode number, 0 for the least significant one.
pub proof fn lemma_cb_bit_decoding(opcode: u8)
    ensures
        (cb_alu_op(opcode) is Bit) == (opcode / 64 == 1),
        (cb_alu_op(opcode) is Res) == (opcode / 64 == 2),
        (cb_alu_op(opcode) is SetBit) == (opcode / 64 == 3),
        opcode >= 0x40 ==> match cb_alu_op(opcode) {
            AluOp::Bit(b, _) => byte_bit_index(b) == (opcode / 8) % 8,
            AluOp::Res(b, _) => byte_bit_index(b) == (opcode / 8) % 8,
            AluOp::SetBit(b, _) => byte_bit_index(b) == (opcode / 8) % 8,
            _ => false,
        },
{
}

/// The micro-operations of a prefixed opcode: the ALU operation alone, or on a byte read
/// from `[HL]` into Z and written back.
pub open spec fn cb_micro_ops(opcode: u8) -> Seq<MCycleOp> {
    if cb_on_memory(opcode) {
        seq![
            MCycleOp::Main(MicroOp::Read8(Registers8Bit::Z, Registers16Bit::HL)),
            MCycleOp::Main(MicroOp::Alu(cb_alu_op(opcode))),
            MCycleOp::End(MicroOp::Write8(Registers16Bit::HL, Registers8Bit::Z)),
        ]
    } else {
        seq![MCycleOp::End(MicroOp::Alu(cb_alu_op(opcode)))]
    }
}

/// The flags a prefixed opcode may change: all four for rotations and shifts, all but the
/// carry for BIT, none for RES and SET.
pub open spec fn cb_flags(opcode: u8) -> Seq<FlagBits> {
    if opcode >= 0x80 {
        seq![]
    } else if opcode >= 0x40 {
        seq![FlagBits::Z, FlagBits::N, FlagBits::H]
    } else {
        seq![FlagBits::Z, FlagBits::N, FlagBits::H, FlagBits::C]
    }
}

/// The mnemonic of a prefixed opcode.
pub open spec fn cb_name(opcode: u8) -> &'static str {
    if opcode <= 0x3F {
        cb_name_00_3f(opcode)
    } else if opcode <= 0x7F {
        cb_name_40_7f(opcode)
    } else if opcode <= 0xBF {
        cb_name_80_bf(opcode)
    } else {
        cb_name_c0_ff(opcode)
    }
}

/// The mnemonics of prefixed opcodes 0x00 ..= 0x3F.
pub open spec fn cb_name_00_3f(opcode: u8) -> &'static str {
    match opcode {
        0x00 => "RLC B",
        0x01 => "RLC C",
        0x02 => "RLC D",
        0x03 => "RLC E",
        0x04 => "RLC H",
        0x05 => "RLC L",
        0x06 => "RLC [HL]",
        0x07 => "RLC A",
        0x08 => "RRC B",
        0x09 => "RRC C",
        0x0A => "RRC D",
        0x0B => "RRC E",
        0x0C => "RRC H",
        0x0D => "RRC L",
        0x0E => "RRC [HL]",
        0x0F => "RRC A",
        0x10 => "RL B",
        0x11 => "RL C",
        0x12 => "RL D",
        0x13 => "RL E",
        0x14 => "RL H",
        0x15 => "RL L",
        0x16 => "RL [HL]",
        0x17 => "RL A",
        0x18 => "RR B",
        0x19 => "RR C",
        0x1A => "RR D",
        0x1B => "RR E",
        0x1C => "RR H",
        0x1D => "RR L",
        0x1E => "RR [HL]",
        0x1F => "RR A",
        0x20 => "SLA B",
        0x21 => "SLA C",
        0x22 => "SLA D",
        0x23 => "SLA E",
        0x24 => "SLA H",
        0x25 => "SLA L",
        0x26 => "SLA [HL]",
        0x27 => "SLA A",
        0x28 => "SRA B",
        0x29 => "SRA C",
        0x2A => "SRA D",
        0x2B => "SRA E",
        0x2C => "SRA H",
        0x2D => "SRA L",
        0x2E => "SRA [HL]",
        0x2F => "SRA A",
        0x30 => "SWAP B",
        0x31 => "SWAP C",
        0x32 => "SWAP D",
        0x33 => "SWAP E",
        0x34 => "SWAP H",
        0x35 => "SWAP L",
        0x36 => "SWAP [HL]",
        0x37 => "SWAP A",
        0x38 => "SRL B",
        0x39 => "SRL C",
        0x3A => "SRL D",
        0x3B => "SRL E",
        0x3C => "SRL H",
        0x3D => "SRL L",
        0x3E => "SRL [HL]",
        _ => "SRL A",
    }
}

/// The mnemonics of prefixed opcodes 0x40 ..= 0x7F.
pub open spec fn cb_name_40_7f(opcode: u8) -> &'static str {
    match opcode {
        0x40 => "BIT 0, B",
        0x41 => "BIT 0, C",
        0x42 => "BIT 0, D",
        0x43 => "BIT 0, E",
        0x44 => "BIT 0, H",
        0x45 => "BIT 0, L",
        0x46 => "BIT 0, [HL]",
        0x47 => "BIT 0, A",
        0x48 => "BIT 1, B",
        0x49 => "BIT 1, C",
        0x4A => "BIT 1, D",
        0x4B => "BIT 1, E",
        0x4C => "BIT 1, H",
        0x4D => "BIT 1, L",
        0x4E => "BIT 1, [HL]",
        0x4F => "BIT 1, A",
        0x50 => "BIT 2, B",
        0x51 => "BIT 2, C",
        0x52 => "BIT 2, D",
        0x53 => "BIT 2, E",
        0x54 => "BIT 2, H",
        0x55 => "BIT 2, L",
        0x56 => "BIT 2, [HL]",
        0x57 => "BIT 2, A",
        0x58 => "BIT 3, B",
        0x59 => "BIT 3, C",
        0x5A => "BIT 3, D",
        0x5B => "BIT 3, E",
        0x5C => "BIT 3, H",
        0x5D => "BIT 3, L",
        0x5E => "BIT 3, [HL]",
        0x5F => "BIT 3, A",
        0x60 => "BIT 4, B",
        0x61 => "BIT 4, C",
        0x62 => "BIT 4, D",
        0x63 => "BIT 4, E",
        0x64 => "BIT 4, H",
        0x65 => "BIT 4, L",
        0x66 => "BIT 4, [HL]",
        0x67 => "BIT 4, A",
        0x68 => "BIT 5, B",
        0x69 => "BIT 5, C",
        0x6A => "BIT 5, D",
        0x6B => "BIT 5, E",
        0x6C => "BIT 5, H",
        0x6D => "BIT 5, L",
        0x6E => "BIT 5, [HL]",
        0x6F => "BIT 5, A",
        0x70 => "BIT 6, B",
        0x71 => "BIT 6, C",
        0x72 => "BIT 6, D",
        0x73 => "BIT 6, E",
        0x74 => "BIT 6, H",
        0x75 => "BIT 6, L",
        0x76 => "BIT 6, [HL]",
        0x77 => "BIT 6, A",
        0x78 => "BIT 7, B",
        0x79 => "BIT 7, C",
        0x7A => "BIT 7, D",
        0x7B => "BIT 7, E",
        0x7C => "BIT 7, H",
        0x7D => "BIT 7, L",
        0x7E => "BIT 7, [HL]",
        _ => "BIT 7, A",
    }
}

/// The mnemonics of prefixed opcodes 0x80 ..= 0xBF.
pub open spec fn cb_name_80_bf(opcode: u8) -> &'static str {
    match opcode {
        0x80 => "RES 0, B",
        0x81 => "RES 0, C",
        0x82 => "RES 0, D",
        0x83 => "RES 0, E",
        0x84 => "RES 0, H",
        0x85 => "RES 0, L",
        0x86 => "RES 0, [HL]",
        0x87 => "RES 0, A",
        0x88 => "RES 1, B",
        0x89 => "RES 1, C",
        0x8A => "RES 1, D",
        0x8B => "RES 1, E",
        0x8C => "RES 1, H",
        0x8D => "RES 1, L",
        0x8E => "RES 1, [HL]",
        0x8F => "RES 1, A",
        0x90 => "RES 2, B",
        0x91 => "RES 2, C",
        0x92 => "RES 2, D",
        0x93 => "RES 2, E",
        0x94 => "RES 2, H",
        0x95 => "RES 2, L",
        0x96 => "RES 2, [HL]",
        0x97 => "RES 2, A",
        0x98 => "RES 3, B",
        0x99 => "RES 3, C",
        0x9A => "RES 3, D",
        0x9B => "RES 3, E",
        0x9C => "RES 3, H",
        0x9D => "RES 3, L",
        0x9E => "RES 3, [HL]",
        0x9F => "RES 3, A",
        0xA0 => "RES 4, B",
        0xA1 => "RES 4, C",
        0xA2 => "RES 4, D",
        0xA3 => "RES 4, E",
        0xA4 => "RES 4, H",
        0xA5 => "RES 4, L",
        0xA6 => "RES 4, [HL]",
        0xA7 => "RES 4, A",
        0xA8 => "RES 5, B",
        0xA9 => "RES 5, C",
        0xAA => "RES 5, D",
        0xAB => "RES 5, E",
        0xAC => "RES 5, H",
        0xAD => "RES 5, L",
        0xAE => "RES 5, [HL]",
        0xAF => "RES 5, A",
        0xB0 => "RES 6, B",
        0xB1 => "RES 6, C",
        0xB2 => "RES 6, D",
        0xB3 => "RES 6, E",
        0xB4 => "RES 6, H",
        0xB5 => "RES 6, L",
        0xB6 => "RES 6, [HL]",
        0xB7 => "RES 6, A",
        0xB8 => "RES 7, B",
        0xB9 => "RES 7, C",
        0xBA => "RES 7, D",
        0xBB => "RES 7, E",
        0xBC => "RES 7, H",
        0xBD => "RES 7, L",
        0xBE => "RES 7, [HL]",
        _ => "RES 7, A",
    }
}

/// The mnemonics of prefixed opcodes 0xC0 ..= 0xFF.
pub open spec fn cb_name_c0_ff(opcode: u8) -> &'static str {
    match opcode {
        0xC0 => "SET 0, B",
        0xC1 => "SET 0, C",
        0xC2 => "SET 0, D",
        0xC3 => "SET 0, E",
        0xC4 => "SET 0, H",
        0xC5 => "SET 0, L",
        0xC6 => "SET 0, [HL]",
        0xC7 => "SET 0, A",
        0xC8 => "SET 1, B",
        0xC9 => "SET 1, C",
        0xCA => "SET 1, D",
        0xCB => "SET 1, E",
        0xCC => "SET 1, H",
        0xCD => "SET 1, L",
        0xCE => "SET 1, [HL ",
        0xCF => "SET 1, A",
        0xD0 => "SET 2, B",
        0xD1 => "SET 2, C",
        0xD2 => "SET 2, D",
        0xD3 => "SET 2, E",
        0xD4 => "SET 2, H",
        0xD5 => "SET 2, L",
        0xD6 => "SET 2, [HL]",
        0xD7 => "SET 2, A",
        0xD8 => "SET 3, B",
        0xD9 => "SET 3, C",
        0xDA => "SET 3, D",
        0xDB => "SET 3, E",
        0xDC => "SET 3, H",
        0xDD => "SET 3, L",
        0xDE => "SET 3, [HL]",
        0xDF => "SET 3, A",
        0xE0 => "SET 4, B",
        0xE1 => "SET 4, C",
        0xE2 => "SET 4, D",
        0xE3 => "SET 4, E",
        0xE4 => "SET 4, H",
        0xE5 => "SET 4, L",
        0xE6 => "SET 4, [HL]",
        0xE7 => "SET 4, A",
        0xE8 => "SET 5, B",
        0xE9 => "SET 5, C",
        0xEA => "SET 5, D",
        0xEB => "SET 5, E",
        0xEC => "SET 5, H",
        0xED => "SET 5, L",
        0xEE => "SET 5, [HL]",
        0xEF => "SET 5, A",
        0xF0 => "SET 6, B",
        0xF1 => "SET 6, C",
        0xF2 => "SET 6, D",
        0xF3 => "SET 6, E",
        0xF4 => "SET 6, H",
        0xF5 => "SET 6, L",
        0xF6 => "SET 6, [HL]",
        0xF7 => "SET 6, A",
        0xF8 => "SET 7, B",
        0xF9 => "SET 7, C",
        0xFA => "SET 7, D",
        0xFB => "SET 7, E",
        0xFC => "SET 7, H",
        0xFD => "SET 7, L",
        0xFE => "SET 7, [HL]",
        _ => "SET 7, A",
    }
}

/// An instruction is the table entry of a prefixed opcode: its mnemonic, two bytes long, two M-cycles, or
/// four when it reads and writes `[HL]`.
pub open spec fn cb_instruction_matches(i: Instruction, opcode: u8) -> bool {
    &&& i.opcode == opcode
    &&& i.name == cb_name(opcode)
    &&& i.size == 2
    &&& i.cycles == if cb_on_memory(opcode) { 4u8 } else { 2u8 }
    &&& i.flags@ == cb_flags(opcode)
    &&& i.micro_ops@ == cb_micro_ops(opcode)
}

/// The instruction of an opcode that follows the 0xCB prefix; every such opcode is defined.
pub fn create_cb_opcodes(opcode: u8) -> (r: Option<Instruction>)
    ensures
        r matches Some(i) && cb_instruction_matches(i, opcode) && i.wf(),
{
    let i = if opcode <= 0x3F {
        cb_opcodes_00_3f(opcode)
    } else if opcode <= 0x7F {
        cb_opcodes_40_7f(opcode)
    } else if opcode <= 0xBF {
        cb_opcodes_80_bf(opcode)
    } else {
        cb_opcodes_c0_ff(opcode)
    };
    assert(i.wf());
    Some(i)
}

fn cb_opcodes_00_3f(opcode: u8) -> (r: Instruction)
    requires
        0x00 <= opcode <= 0x3F,
    ensures
        r.opcode == opcode,
        r.name == cb_name_00_3f(opcode),
        r.size == 2,
        r.cycles == if cb_on_memory(opcode) { 4u8 } else { 2u8 },
        r.flags@ =~= cb_flags(opcode),
        r.micro_ops@ =~= cb_micro_ops(opcode),
{
    match opcode {
        0x00 => Instruction {
            opcode: 0x00,
            name: "RLC B",
            cycles: 2,
            size: 2,
            flags: vec![FlagBits::Z, FlagBits::N, FlagBits::H, FlagBits::C],
            micro_ops: vec![
                MCycleOp::End(MicroOp::Alu(AluOp::Rlc(Registers8Bit::B))),
            ],
        },
        0x01 => Instruction {
            opcode: 0x01,
            name: "RLC C",
            cycles: 2,
            size: 2,
            flags: vec![FlagBits::Z, FlagBits::N, FlagBits::H, FlagBits::C],
            micro_ops: vec![
                MCycleOp::End(MicroOp::Alu(AluOp::Rlc(Registers8Bit::C))),
            ],
        },
        0x02 => Instruction {
            opcode: 0x02,
            name: "RLC D",
            cycles: 2,
            size: 2,
            flags: vec![FlagBits::Z, FlagBits::N, FlagBits::H, FlagBits::C],
            micro_ops: vec![
                MCycleOp::End(MicroOp::Alu(AluOp::Rlc(Registers8Bit::D))),
            ],
        },
        0x03 => Instruction {
            opcode: 0x03,
            name: "RLC E",
            cycles: 2,
            size: 2,
            flags: vec![FlagBits::Z, FlagBits::N, FlagBits::H, FlagBits::C],
            micro_ops: vec![
                MCycleOp::End(MicroOp::Alu(AluOp::Rlc(Registers8Bit::E))),
            ],
        },
        0x04 => Instruction {
            opcode: 0x04,
            name: "RLC H",
            cycles: 2,
            size: 2,
            flags: vec![FlagBits::Z, FlagBits::N, FlagBits::H, FlagBits::C],
            micro_ops: vec![
                MCycleOp::End(MicroOp::Alu(AluOp::Rlc(Registers8Bit::H))),
            ],
        },
        0x05 => Instruction {
            opcode: 0x05,
            name: "RLC L",
            cycles: 2,
            size: 2,
            flags: vec![FlagBits::Z, FlagBits::N, FlagBits::H, FlagBits::C],
            micro_ops: vec![
                MCycleOp::End(MicroOp::Alu(AluOp::Rlc(Registers8Bit::L))),
            ],
        },
        0x06 => Instruction {
            opcode: 0x06,
            name: "RLC [HL]",
            cycles: 4,
            size: 2,
            flags: vec![FlagBits::Z, FlagBits::N, FlagBits::H, FlagBits::C],
            micro_ops: vec![
                MCycleOp::Main(MicroOp::Read8(Registers8Bit::Z, Registers16Bit::HL)),
                MCycleOp::Main(MicroOp::Alu(AluOp::Rlc(Registers8Bit::Z))),
                MCycleOp::End(MicroOp::Write8(Registers16Bit::HL, Registers8Bit::Z)),
            ],
        },
        0x07 => Instruction {
            opcode: 0x07,
            name: "RLC A",
            cycles: 2,
            size: 2,
            flags: vec![FlagBits::Z, FlagBits::N, FlagBits::H, FlagBits::C],
            micro_ops: vec![
                MCycleOp::End(MicroOp::Alu(AluOp::Rlc(Registers8Bit::A))),
            ],
        },
        0x08 => Instruction {
            opcode: 0x08,
            name: "RRC B",
            cycles: 2,
            size: 2,
            flags: vec![FlagBits::Z, FlagBits::N, FlagBits::H, FlagBits::C],
            micro_ops: vec![
                MCycleOp::End(MicroOp::Alu(AluOp::Rrc(Registers8Bit::B))),
            ],
        },
        0x09 => Instruction {
            opcode: 0x09,
            name: "RRC C",
            cycles: 2,
            size: 2,
            flags: vec![FlagBits::Z, FlagBits::N, FlagBits::H, FlagBits::C],
            micro_ops: vec![
                MCycleOp::End(MicroOp::Alu(AluOp::Rrc(Registers8Bit::C))),
            ],
        },
        0x0A => Instruction {
            opcode: 0x0A,
            name: "RRC D",
            cycles: 2,
            size: 2,
            flags: vec![FlagBits::Z, FlagBits::N, FlagBits::H, FlagBits::C],
            micro_ops: vec![
                MCycleOp::End(MicroOp::Alu(AluOp::Rrc(Registers8Bit::D))),
            ],
        },
        0x0B => Instruction {
            opcode: 0x0B,
            name: "RRC E",
            cycles: 2,
            size: 2,
            flags: vec![FlagBits::Z, FlagBits::N, FlagBits::H, FlagBits::C],
            micro_ops: vec![
                MCycleOp::End(MicroOp::Alu(AluOp::Rrc(Registers8Bit::E))),
            ],
        },
        0x0C => Instruction {
            opcode: 0x0C,
            name: "RRC H",
            cycles: 2,
            size: 2,
            flags: vec![FlagBits::Z, FlagBits::N, FlagBits::H, FlagBits::C],
            micro_ops: vec![
                MCycleOp::End(MicroOp::Alu(AluOp::Rrc(Registers8Bit::H))),
            ],
        },
        0x0D => Instruction {
            opcode: 0x0D,
            name: "RRC L",
            cycles: 2,
            size: 2,
            flags: vec![FlagBits::Z, FlagBits::N, FlagBits::H, FlagBits::C],
            micro_ops: vec![
                MCycleOp::End(MicroOp::Alu(AluOp::Rrc(Registers8Bit::L))),
            ],
        },
        0x0E => Instruction {
            opcode: 0x0E,
            name: "RRC [HL]",
            cycles: 4,
            size: 2,
            flags: vec![FlagBits::Z, FlagBits::N, FlagBits::H, FlagBits::C],
            micro_ops: vec![
                MCycleOp::Main(MicroOp::Read8(Registers8Bit::Z, Registers16Bit::HL)),
                MCycleOp::Main(MicroOp::Alu(AluOp::Rrc(Registers8Bit::Z))),
                MCycleOp::End(MicroOp::Write8(Registers16Bit::HL, Registers8Bit::Z)),
            ],
        },
        0x0F => Instruction {
            opcode: 0x0F,
            name: "RRC A",
            cycles: 2,
            size: 2,
            flags: vec![FlagBits::Z, FlagBits::N, FlagBits::H, FlagBits::C],
            micro_ops: vec![
                MCycleOp::End(MicroOp::Alu(AluOp::Rrc(Registers8Bit::A))),
            ],
        },
        0x10 => Instruction {
            opcode: 0x10,
            name: "RL B",
            cycles: 2,
            size: 2,
            flags: vec![FlagBits::Z, FlagBits::N, FlagBits::H, FlagBits::C],
            micro_ops: vec![
                MCycleOp::End(MicroOp::Alu(AluOp::Rl(Registers8Bit::B))),
            ],
        },
        0x11 => Instruction {
            opcode: 0x11,
            name: "RL C",
            cycles: 2,
            size: 2,
            flags: vec![FlagBits::Z, FlagBits::N, FlagBits::H, FlagBits::C],
            micro_ops: vec![
                MCycleOp::End(MicroOp::Alu(AluOp::Rl(Registers8Bit::C))),
            ],
        },
        0x12 => Instruction {
            opcode: 0x12,
            name: "RL D",
            cycles: 2,
            size: 2,
            flags: vec![FlagBits::Z, FlagBits::N, FlagBits::H, FlagBits::C],
            micro_ops: vec![
                MCycleOp::End(MicroOp::Alu(AluOp::Rl(Registers8Bit::D))),
            ],
        },
        0x13 => Instruction {
            opcode: 0x13,
            name: "RL E",
            cycles: 2,
            size: 2,
            flags: vec![FlagBits::Z, FlagBits::N, FlagBits::H, FlagBits::C],
            micro_ops: vec![
                MCycleOp::End(MicroOp::Alu(AluOp::Rl(Registers8Bit::E))),
            ],
        },
        0x14 => Instruction {
            opcode: 0x14,
            name: "RL H",
            cycles: 2,
            size: 2,
            flags: vec![FlagBits::Z, FlagBits::N, FlagBits::H, FlagBits::C],
            micro_ops: vec![
                MCycleOp::End(MicroOp::Alu(AluOp::Rl(Registers8Bit::H))),
            ],
        },
        0x15 => Instruction {
            opcode: 0x15,
            name: "RL L",
            cycles: 2,
            size: 2,
            flags: vec![FlagBits::Z, FlagBits::N, FlagBits::H, FlagBits::C],
            micro_ops: vec![
                MCycleOp::End(MicroOp::Alu(AluOp::Rl(Registers8Bit::L))),
            ],
        },
        0x16 => Instruction {
            opcode: 0x16,
            name: "RL [HL]",
            cycles: 4,
            size: 2,
            flags: vec![FlagBits::Z, FlagBits::N, FlagBits::H, FlagBits::C],
            micro_ops: vec![
                MCycleOp::Main(MicroOp::Read8(Registers8Bit::Z, Registers16Bit::HL)),
                MCycleOp::Main(MicroOp::Alu(AluOp::Rl(Registers8Bit::Z))),
                MCycleOp::End(MicroOp::Write8(Registers16Bit::HL, Registers8Bit::Z)),
            ],
        },
        0x17 => Instruction {
            opcode: 0x17,
            name: "RL A",
            cycles: 2,
            size: 2,
            flags: vec![FlagBits::Z, FlagBits::N, FlagBits::H, FlagBits::C],
            micro_ops: vec![
                MCycleOp::End(MicroOp::Alu(AluOp::Rl(Registers8Bit::A))),
            ],
        },
        0x18 => Instruction {
            opcode: 0x18,
            name: "RR B",
            cycles: 2,
            size: 2,
            flags: vec![FlagBits::Z, FlagBits::N, FlagBits::H, FlagBits::C],
            micro_ops: vec![
                MCycleOp::End(MicroOp::Alu(AluOp::Rr(Registers8Bit::B))),
            ],
        },
        0x19 => Instruction {
            opcode: 0x19,
            name: "RR C",
            cycles: 2,
            size: 2,
            flags: vec![FlagBits::Z, FlagBits::N, FlagBits::H, FlagBits::C],
            micro_ops: vec![
                MCycleOp::End(MicroOp::Alu(AluOp::Rr(Registers8Bit::C))),
            ],
        },
        0x1A => Instruction {
            opcode: 0x1A,
            name: "RR D",
            cycles: 2,
            size: 2,
            flags: vec![FlagBits::Z, FlagBits::N, FlagBits::H, FlagBits::C],
            micro_ops: vec![
                MCycleOp::End(MicroOp::Alu(AluOp::Rr(Registers8Bit::D))),
            ],
        },
        0x1B => Instruction {
            opcode: 0x1B,
            name: "RR E",
            cycles: 2,
            size: 2,
            flags: vec![FlagBits::Z, FlagBits::N, FlagBits::H, FlagBits::C],
            micro_ops: vec![
                MCycleOp::End(MicroOp::Alu(AluOp::Rr(Registers8Bit::E))),
            ],
        },
        0x1C => Instruction {
            opcode: 0x1C,
            name: "RR H",
            cycles: 2,
            size: 2,
            flags: vec![FlagBits::Z, FlagBits::N, FlagBits::H, FlagBits::C],
            micro_ops: vec![
                MCycleOp::End(MicroOp::Alu(AluOp::Rr(Registers8Bit::H))),
            ],
        },
        0x1D => Instruction {
            opcode: 0x1D,
            name: "RR L",
            cycles: 2,
            size: 2,
            flags: vec![FlagBits::Z, FlagBits::N, FlagBits::H, FlagBits::C],
            micro_ops: vec![
                MCycleOp::End(MicroOp::Alu(AluOp::Rr(Registers8Bit::L))),
            ],
        },
        0x1E => Instruction {
            opcode: 0x1E,
            name: "RR [HL]",
            cycles: 4,
            size: 2,
            flags: vec![FlagBits::Z, FlagBits::N, FlagBits::H, FlagBits::C],
            micro_ops: vec![
                MCycleOp::Main(MicroOp::Read8(Registers8Bit::Z, Registers16Bit::HL)),
                MCycleOp::Main(MicroOp::Alu(AluOp::Rr(Registers8Bit::Z))),
                MCycleOp::End(MicroOp::Write8(Registers16Bit::HL, Registers8Bit::Z)),
            ],
        },
        0x1F => Instruction {
            opcode: 0x1F,
            name: "RR A",
            cycles: 2,
            size: 2,
            flags: vec![FlagBits::Z, FlagBits::N, FlagBits::H, FlagBits::C],
            micro_ops: vec![
                MCycleOp::End(MicroOp::Alu(AluOp::Rr(Registers8Bit::A))),
            ],
        },
        0x20 => Instruction {
            opcode: 0x20,
            name: "SLA B",
            cycles: 2,
            size: 2,
            flags: vec![FlagBits::Z, FlagBits::N, FlagBits::H, FlagBits::C],
            micro_ops: vec![
                MCycleOp::End(MicroOp::Alu(AluOp::Sla(Registers8Bit::B))),
            ],
        },
        0x21 => Instruction {
            opcode: 0x21,
            name: "SLA C",
            cycles: 2,
            size: 2,
            flags: vec![FlagBits::Z, FlagBits::N, FlagBits::H, FlagBits::C],
            micro_ops: vec![
                MCycleOp::End(MicroOp::Alu(AluOp::Sla(Registers8Bit::C))),
            ],
        },
        0x22 => Instruction {
            opcode: 0x22,
            name: "SLA D",
            cycles: 2,
            size: 2,
            flags: vec![FlagBits::Z, FlagBits::N, FlagBits::H, FlagBits::C],
            micro_ops: vec![
                MCycleOp::End(MicroOp::Alu(AluOp::Sla(Registers8Bit::D))),
            ],
        },
        0x23 => Instruction {
            opcode: 0x23,
            name: "SLA E",
            cycles: 2,
            size: 2,
            flags: vec![FlagBits::Z, FlagBits::N, FlagBits::H, FlagBits::C],
            micro_ops: vec![
                MCycleOp::End(MicroOp::Alu(AluOp::Sla(Registers8Bit::E))),
            ],
        },
        0x24 => Instruction {
            opcode: 0x24,
            name: "SLA H",
            cycles: 2,
            size: 2,
            flags: vec![FlagBits::Z, FlagBits::N, FlagBits::H, FlagBits::C],
            micro_ops: vec![
                MCycleOp::End(MicroOp::Alu(AluOp::Sla(Registers8Bit::H))),
            ],
        },
        0x25 => Instruction {
            opcode: 0x25,
            name: "SLA L",
            cycles: 2,
            size: 2,
            flags: vec![FlagBits::Z, FlagBits::N, FlagBits::H, FlagBits::C],
            micro_ops: vec![
                MCycleOp::End(MicroOp::Alu(AluOp::Sla(Registers8Bit::L))),
            ],
        },
        0x26 => Instruction {
            opcode: 0x26,
            name: "SLA [HL]",
            cycles: 4,
            size: 2,
            flags: vec![FlagBits::Z, FlagBits::N, FlagBits::H, FlagBits::C],
            micro_ops: vec![
                MCycleOp::Main(MicroOp::Read8(Registers8Bit::Z, Registers16Bit::HL)),
                MCycleOp::Main(MicroOp::Alu(AluOp::Sla(Registers8Bit::Z))),
                MCycleOp::End(MicroOp::Write8(Registers16Bit::HL, Registers8Bit::Z)),
            ],
        },
        0x27 => Instruction {
            opcode: 0x27,
            name: "SLA A",
            cycles: 2,
            size: 2,
            flags: vec![FlagBits::Z, FlagBits::N, FlagBits::H, FlagBits::C],
            micro_ops: vec![
                MCycleOp::End(MicroOp::Alu(AluOp::Sla(Registers8Bit::A))),
            ],
        },
        0x28 => Instruction {
            opcode: 0x28,
            name: "SRA B",
            cycles: 2,
            size: 2,
            flags: vec![FlagBits::Z, FlagBits::N, FlagBits::H, FlagBits::C],
            micro_ops: vec![
                MCycleOp::End(MicroOp::Alu(AluOp::Sra(Registers8Bit::B))),
            ],
        },
        0x29 => Instruction {
            opcode: 0x29,
            name: "SRA C",
            cycles: 2,
            size: 2,
            flags: vec![FlagBits::Z, FlagBits::N, FlagBits::H, FlagBits::C],
            micro_ops: vec![
                MCycleOp::End(MicroOp::Alu(AluOp::Sra(Registers8Bit::C))),
            ],
        },
        0x2A => Instruction {
            opcode: 0x2A,
            name: "SRA D",
            cycles: 2,
            size: 2,
            flags: vec![FlagBits::Z, FlagBits::N, FlagBits::H, FlagBits::C],
            micro_ops: vec![
                MCycleOp::End(MicroOp::Alu(AluOp::Sra(Registers8Bit::D))),
            ],
        },
        0x2B => Instruction {
            opcode: 0x2B,
            name: "SRA E",
            cycles: 2,
            size: 2,
            flags: vec![FlagBits::Z, FlagBits::N, FlagBits::H, FlagBits::C],
            micro_ops: vec![
                MCycleOp::End(MicroOp::Alu(AluOp::Sra(Registers8Bit::E))),
            ],
        },
        0x2C => Instruction {
            opcode: 0x2C,
            name: "SRA H",
            cycles: 2,
            size: 2,
            flags: vec![FlagBits::Z, FlagBits::N, FlagBits::H, FlagBits::C],
            micro_ops: vec![
                MCycleOp::End(MicroOp::Alu(AluOp::Sra(Registers8Bit::H))),
            ],
        },
        0x2D => Instruction {
            opcode: 0x2D,
            name: "SRA L",
            cycles: 2,
            size: 2,
            flags: vec![FlagBits::Z, FlagBits::N, FlagBits::H, FlagBits::C],
            micro_ops: vec![
                MCycleOp::End(MicroOp::Alu(AluOp::Sra(Registers8Bit::L))),
            ],
        },
        0x2E => Instruction {
            opcode: 0x2E,
            name: "SRA [HL]",
            cycles: 4,
            size: 2,
            flags: vec![FlagBits::Z, FlagBits::N, FlagBits::H, FlagBits::C],
            micro_ops: vec![
                MCycleOp::Main(MicroOp::Read8(Registers8Bit::Z, Registers16Bit::HL)),
                MCycleOp::Main(MicroOp::Alu(AluOp::Sra(Registers8Bit::Z))),
                MCycleOp::End(MicroOp::Write8(Registers16Bit::HL, Registers8Bit::Z)),
            ],
        },
        0x2F => Instruction {
            opcode: 0x2F,
            name: "SRA A",
            cycles: 2,
            size: 2,
            flags: vec![FlagBits::Z, FlagBits::N, FlagBits::H, FlagBits::C],
            micro_ops: vec![
                MCycleOp::End(MicroOp::Alu(AluOp::Sra(Registers8Bit::A))),
            ],
        },
        0x30 => Instruction {
            opcode: 0x30,
            name: "SWAP B",
            cycles: 2,
            size: 2,
            flags: vec![FlagBits::Z, FlagBits::N, FlagBits::H, FlagBits::C],
            micro_ops: vec![
                MCycleOp::End(MicroOp::Alu(AluOp::Swap(Registers8Bit::B))),
            ],
        },
        0x31 => Instruction {
            opcode: 0x31,
            name: "SWAP C",
            cycles: 2,
            size: 2,
            flags: vec![FlagBits::Z, FlagBits::N, FlagBits::H, FlagBits::C],
            micro_ops: vec![
                MCycleOp::End(MicroOp::Alu(AluOp::Swap(Registers8Bit::C))),
            ],
        },
        0x32 => Instruction {
            opcode: 0x32,
            name: "SWAP D",
            cycles: 2,
            size: 2,
            flags: vec![FlagBits::Z, FlagBits::N, FlagBits::H, FlagBits::C],
            micro_ops: vec![
                MCycleOp::End(MicroOp::Alu(AluOp::Swap(Registers8Bit::D))),
            ],
        },
        0x33 => Instruction {
            opcode: 0x33,
            name: "SWAP E",
            cycles: 2,
            size: 2,
            flags: vec![FlagBits::Z, FlagBits::N, FlagBits::H, FlagBits::C],
            micro_ops: vec![
                MCycleOp::End(MicroOp::Alu(AluOp::Swap(Registers8Bit::E))),
            ],
        },
        0x34 => Instruction {
            opcode: 0x34,
            name: "SWAP H",
            cycles: 2,
            size: 2,
            flags: vec![FlagBits::Z, FlagBits::N, FlagBits::H, FlagBits::C],
            micro_ops: vec![
                MCycleOp::End(MicroOp::Alu(AluOp::Swap(Registers8Bit::H))),
            ],
        },
        0x35 => Instruction {
            opcode: 0x35,
            name: "SWAP L",
            cycles: 2,
            size: 2,
            flags: vec![FlagBits::Z, FlagBits::N, FlagBits::H, FlagBits::C],
            micro_ops: vec![
                MCycleOp::End(MicroOp::Alu(AluOp::Swap(Registers8Bit::L))),
            ],
        },
        0x36 => Instruction {
            opcode: 0x36,
            name: "SWAP [HL]",
            cycles: 4,
            size: 2,
            flags: vec![FlagBits::Z, FlagBits::N, FlagBits::H, FlagBits::C],
            micro_ops: vec![
                MCycleOp::Main(MicroOp::Read8(Registers8Bit::Z, Registers16Bit::HL)),
                MCycleOp::Main(MicroOp::Alu(AluOp::Swap(Registers8Bit::Z))),
                MCycleOp::End(MicroOp::Write8(Registers16Bit::HL, Registers8Bit::Z)),
            ],
        },
        0x37 => Instruction {
            opcode: 0x37,
            name: "SWAP A",
            cycles: 2,
            size: 2,
            flags: vec![FlagBits::Z, FlagBits::N, FlagBits::H, FlagBits::C],
            micro_ops: vec![
                MCycleOp::End(MicroOp::Alu(AluOp::Swap(Registers8Bit::A))),
            ],
        },
        0x38 => Instruction {
            opcode: 0x38,
            name: "SRL B",
            cycles: 2,
            size: 2,
            flags: vec![FlagBits::Z, FlagBits::N, FlagBits::H, FlagBits::C],
            micro_ops: vec![
                MCycleOp::End(MicroOp::Alu(AluOp::Srl(Registers8Bit::B))),
            ],
        },
        0x39 => Instruction {
            opcode: 0x39,
            name: "SRL C",
            cycles: 2,
            size: 2,
            flags: vec![FlagBits::Z, FlagBits::N, FlagBits::H, FlagBits::C],
            micro_ops: vec![
                MCycleOp::End(MicroOp::Alu(AluOp::Srl(Registers8Bit::C))),
            ],
        },
        0x3A => Instruction {
            opcode: 0x3A,
            name: "SRL D",
            cycles: 2,
            size: 2,
            flags: vec![FlagBits::Z, FlagBits::N, FlagBits::H, FlagBits::C],
            micro_ops: vec![
                MCycleOp::End(MicroOp::Alu(AluOp::Srl(Registers8Bit::D))),
            ],
        },
        0x3B => Instruction {
            opcode: 0x3B,
            name: "SRL E",
            cycles: 2,
            size: 2,
            flags: vec![FlagBits::Z, FlagBits::N, FlagBits::H, FlagBits::C],
            micro_ops: vec![
                MCycleOp::End(MicroOp::Alu(AluOp::Srl(Registers8Bit::E))),
            ],
        },
        0x3C => Instruction {
            opcode: 0x3C,
            name: "SRL H",
            cycles: 2,
            size: 2,
            flags: vec![FlagBits::Z, FlagBits::N, FlagBits::H, FlagBits::C],
            micro_ops: vec![
                MCycleOp::End(MicroOp::Alu(AluOp::Srl(Registers8Bit::H))),
            ],
        },
        0x3D => Instruction {
            opcode: 0x3D,
            name: "SRL L",
            cycles: 2,
            size: 2,
            flags: vec![FlagBits::Z, FlagBits::N, FlagBits::H, FlagBits::C],
            micro_ops: vec![
                MCycleOp::End(MicroOp::Alu(AluOp::Srl(Registers8Bit::L))),
            ],
        },
        0x3E => Instruction {
            opcode: 0x3E,
            name: "SRL [HL]",
            cycles: 4,
            size: 2,
            flags: vec![FlagBits::Z, FlagBits::N, FlagBits::H, FlagBits::C],
            micro_ops: vec![
                MCycleOp::Main(MicroOp::Read8(Registers8Bit::Z, Registers16Bit::HL)),
                MCycleOp::Main(MicroOp::Alu(AluOp::Srl(Registers8Bit::Z))),
                MCycleOp::End(MicroOp::Write8(Registers16Bit::HL, Registers8Bit::Z)),
            ],
        },
        _ => Instruction {
            opcode: 0x3F,
            name: "SRL A",
            cycles: 2,
            size: 2,
            flags: vec![FlagBits::Z, FlagBits::N, FlagBits::H, FlagBits::C],
            micro_ops: vec![
                MCycleOp::End(MicroOp::Alu(AluOp::Srl(Registers8Bit::A))),
            ],
        },
    }
}

fn cb_opcodes_40_7f(opcode: u8) -> (r: Instruction)
    requires
        0x40 <= opcode <= 0x7F,
    ensures
        r.opcode == opcode,
        r.name == cb_name_40_7f(opcode),
        r.size == 2,
        r.cycles == if cb_on_memory(opcode) { 4u8 } else { 2u8 },
        r.flags@ =~= cb_flags(opcode),
        r.micro_ops@ =~= cb_micro_ops(opcode),
{
    match opcode {
        0x40 => Instruction {
            opcode: 0x40,
            name: "BIT 0, B",
            cycles: 2,
            size: 2,
            flags: vec![FlagBits::Z, FlagBits::N, FlagBits::H],
            micro_ops: vec![
                MCycleOp::End(MicroOp::Alu(AluOp::Bit(ByteBit::Zero, Registers8Bit::B))),
            ],
        },
        0x41 => Instruction {
            opcode: 0x41,
            name: "BIT 0, C",
            cycles: 2,
            size: 2,
            flags: vec![FlagBits::Z, FlagBits::N, FlagBits::H],
            micro_ops: vec![
                MCycleOp::End(MicroOp::Alu(AluOp::Bit(ByteBit::Zero, Registers8Bit::C))),
            ],
        },
        0x42 => Instruction {
            opcode: 0x42,
            name: "BIT 0, D",
            cycles: 2,
            size: 2,
            flags: vec![FlagBits::Z, FlagBits::N, FlagBits::H],
            micro_ops: vec![
                MCycleOp::End(MicroOp::Alu(AluOp::Bit(ByteBit::Zero, Registers8Bit::D))),
            ],
        },
        0x43 => Instruction {
            opcode: 0x43,
            name: "BIT 0, E",
            cycles: 2,
            size: 2,
            flags: vec![FlagBits::Z, FlagBits::N, FlagBits::H],
            micro_ops: vec![
                MCycleOp::End(MicroOp::Alu(AluOp::Bit(ByteBit::Zero, Registers8Bit::E))),
            ],
        },
        0x44 => Instruction {
            opcode: 0x44,
            name: "BIT 0, H",
            cycles: 2,
            size: 2,
            flags: vec![FlagBits::Z, FlagBits::N, FlagBits::H],
            micro_ops: vec![
                MCycleOp::End(MicroOp::Alu(AluOp::Bit(ByteBit::Zero, Registers8Bit::H))),
            ],
        },
        0x45 => Instruction {
            opcode: 0x45,
            name: "BIT 0, L",
            cycles: 2,
            size: 2,
            flags: vec![FlagBits::Z, FlagBits::N, FlagBits::H],
            micro_ops: vec![
                MCycleOp::End(MicroOp::Alu(AluOp::Bit(ByteBit::Zero, Registers8Bit::L))),
            ],
        },
        0x46 => Instruction {
            opcode: 0x46,
            name: "BIT 0, [HL]",
            cycles: 4,
            size: 2,
            flags: vec![FlagBits::Z, FlagBits::N, FlagBits::H],
            micro_ops: vec![
                MCycleOp::Main(MicroOp::Read8(Registers8Bit::Z, Registers16Bit::HL)),
                MCycleOp::Main(MicroOp::Alu(AluOp::Bit(ByteBit::Zero, Registers8Bit::Z))),
                MCycleOp::End(MicroOp::Write8(Registers16Bit::HL, Registers8Bit::Z)),
            ],
        },
        0x47 => Instruction {
            opcode: 0x47,
            name: "BIT 0, A",
            cycles: 2,
            size: 2,
            flags: vec![FlagBits::Z, FlagBits::N, FlagBits::H],
            micro_ops: vec![
                MCycleOp::End(MicroOp::Alu(AluOp::Bit(ByteBit::Zero, Registers8Bit::A))),
            ],
        },
        0x48 => Instruction {
            opcode: 0x48,
            name: "BIT 1, B",
            cycles: 2,
            size: 2,
            flags: vec![FlagBits::Z, FlagBits::N, FlagBits::H],
            micro_ops: vec![
                MCycleOp::End(MicroOp::Alu(AluOp::Bit(ByteBit::One, Registers8Bit::B))),
            ],
        },
        0x49 => Instruction {
            opcode: 0x49,
            name: "BIT 1, C",
            cycles: 2,
            size: 2,
            flags: vec![FlagBits::Z, FlagBits::N, FlagBits::H],
            micro_ops: vec![
                MCycleOp::End(MicroOp::Alu(AluOp::Bit(ByteBit::One, Registers8Bit::C))),
            ],
        },
        0x4A => Instruction {
            opcode: 0x4A,
            name: "BIT 1, D",
            cycles: 2,
            size: 2,
            flags: vec![FlagBits::Z, FlagBits::N, FlagBits::H],
            micro_ops: vec![
                MCycleOp::End(MicroOp::Alu(AluOp::Bit(ByteBit::One, Registers8Bit::D))),
            ],
        },
        0x4B => Instruction {
            opcode: 0x4B,
            name: "BIT 1, E",
            cycles: 2,
            size: 2,
            flags: vec![FlagBits::Z, FlagBits::N, FlagBits::H],
            micro_ops: vec![
                MCycleOp::End(MicroOp::Alu(AluOp::Bit(ByteBit::One, Registers8Bit::E))),
            ],
        },
        0x4C => Instruction {
            opcode: 0x4C,
            name: "BIT 1, H",
            cycles: 2,
            size: 2,
            flags: vec![FlagBits::Z, FlagBits::N, FlagBits::H],
            micro_ops: vec![
                MCycleOp::End(MicroOp::Alu(AluOp::Bit(ByteBit::One, Registers8Bit::H))),
            ],
        },
        0x4D => Instruction {
            opcode: 0x4D,
            name: "BIT 1, L",
            cycles: 2,
            size: 2,
            flags: vec![FlagBits::Z, FlagBits::N, FlagBits::H],
            micro_ops: vec![
                MCycleOp::End(MicroOp::Alu(AluOp::Bit(ByteBit::One, Registers8Bit::L))),
            ],
        },
        0x4E => Instruction {
            opcode: 0x4E,
            name: "BIT 1, [HL]",
            cycles: 4,
            size: 2,
            flags: vec![FlagBits::Z, FlagBits::N, FlagBits::H],
            micro_ops: vec![
                MCycleOp::Main(MicroOp::Read8(Registers8Bit::Z, Registers16Bit::HL)),
                MCycleOp::Main(MicroOp::Alu(AluOp::Bit(ByteBit::One, Registers8Bit::Z))),
                MCycleOp::End(MicroOp::Write8(Registers16Bit::HL, Registers8Bit::Z)),
            ],
        },
        0x4F => Instruction {
            opcode: 0x4F,
            name: "BIT 1, A",
            cycles: 2,
            size: 2,
            flags: vec![FlagBits::Z, FlagBits::N, FlagBits::H],
            micro_ops: vec![
                MCycleOp::End(MicroOp::Alu(AluOp::Bit(ByteBit::One, Registers8Bit::A))),
            ],
        },
        0x50 => Instruction {
            opcode: 0x50,
            name: "BIT 2, B",
            cycles: 2,
            size: 2,
            flags: vec![FlagBits::Z, FlagBits::N, FlagBits::H],
            micro_ops: vec![
                MCycleOp::End(MicroOp::Alu(AluOp::Bit(ByteBit::Two, Registers8Bit::B))),
            ],
        },
        0x51 => Instruction {
            opcode: 0x51,
            name: "BIT 2, C",
            cycles: 2,
            size: 2,
            flags: vec![FlagBits::Z, FlagBits::N, FlagBits::H],
            micro_ops: vec![
                MCycleOp::End(MicroOp::Alu(AluOp::Bit(ByteBit::Two, Registers8Bit::C))),
            ],
        },
        0x52 => Instruction {
            opcode: 0x52,
            name: "BIT 2, D",
            cycles: 2,
            size: 2,
            flags: vec![FlagBits::Z, FlagBits::N, FlagBits::H],
            micro_ops: vec![
                MCycleOp::End(MicroOp::Alu(AluOp::Bit(ByteBit::Two, Registers8Bit::D))),
            ],
        },
        0x53 => Instruction {
            opcode: 0x53,
            name: "BIT 2, E",
            cycles: 2,
            size: 2,
            flags: vec![FlagBits::Z, FlagBits::N, FlagBits::H],
            micro_ops: vec![
                MCycleOp::End(MicroOp::Alu(AluOp::Bit(ByteBit::Two, Registers8Bit::E))),
            ],
        },
        0x54 => Instruction {
            opcode: 0x54,
            name: "BIT 2, H",
            cycles: 2,
            size: 2,
            flags: vec![FlagBits::Z, FlagBits::N, FlagBits::H],
            micro_ops: vec![
                MCycleOp::End(MicroOp::Alu(AluOp::Bit(ByteBit::Two, Registers8Bit::H))),
            ],
        },
        0x55 => Instruction {
            opcode: 0x55,
            name: "BIT 2, L",
            cycles: 2,
            size: 2,
            flags: vec![FlagBits::Z, FlagBits::N, FlagBits::H],
            micro_ops: vec![
                MCycleOp::End(MicroOp::Alu(AluOp::Bit(ByteBit::Two, Registers8Bit::L))),
            ],
        },
        0x56 => Instruction {
            opcode: 0x56,
            name: "BIT 2, [HL]",
            cycles: 4,
            size: 2,
            flags: vec![FlagBits::Z, FlagBits::N, FlagBits::H],
            micro_ops: vec![
                MCycleOp::Main(MicroOp::Read8(Registers8Bit::Z, Registers16Bit::HL)),
                MCycleOp::Main(MicroOp::Alu(AluOp::Bit(ByteBit::Two, Registers8Bit::Z))),
                MCycleOp::End(MicroOp::Write8(Registers16Bit::HL, Registers8Bit::Z)),
            ],
        },
        0x57 => Instruction {
            opcode: 0x57,
            name: "BIT 2, A",
            cycles: 2,
            size: 2,
            flags: vec![FlagBits::Z, FlagBits::N, FlagBits::H],
            micro_ops: vec![
                MCycleOp::End(MicroOp::Alu(AluOp::Bit(ByteBit::Two, Registers8Bit::A))),
            ],
        },
        0x58 => Instruction {
            opcode: 0x58,
            name: "BIT 3, B",
            cycles: 2,
            size: 2,
            flags: vec![FlagBits::Z, FlagBits::N, FlagBits::H],
            micro_ops: vec![
                MCycleOp::End(MicroOp::Alu(AluOp::Bit(ByteBit::Three, Registers8Bit::B))),
            ],
        },
        0x59 => Instruction {
            opcode: 0x59,
            name: "BIT 3, C",
            cycles: 2,
            size: 2,
            flags: vec![FlagBits::Z, FlagBits::N, FlagBits::H],
            micro_ops: vec![
                MCycleOp::End(MicroOp::Alu(AluOp::Bit(ByteBit::Three, Registers8Bit::C))),
            ],
        },
        0x5A => Instruction {
            opcode: 0x5A,
            name: "BIT 3, D",
            cycles: 2,
            size: 2,
            flags: vec![FlagBits::Z, FlagBits::N, FlagBits::H],
            micro_ops: vec![
                MCycleOp::End(MicroOp::Alu(AluOp::Bit(ByteBit::Three, Registers8Bit::D))),
            ],
        },
        0x5B => Instruction {
            opcode: 0x5B,
            name: "BIT 3, E",
            cycles: 2,
            size: 2,
            flags: vec![FlagBits::Z, FlagBits::N, FlagBits::H],
            micro_ops: vec![
                MCycleOp::End(MicroOp::Alu(AluOp::Bit(ByteBit::Three, Registers8Bit::E))),
            ],
        },
        0x5C => Instruction {
            opcode: 0x5C,
            name: "BIT 3, H",
            cycles: 2,
            size: 2,
            flags: vec![FlagBits::Z, FlagBits::N, FlagBits::H],
            micro_ops: vec![
                MCycleOp::End(MicroOp::Alu(AluOp::Bit(ByteBit::Three, Registers8Bit::H))),
            ],
        },
        0x5D => Instruction {
            opcode: 0x5D,
            name: "BIT 3, L",
            cycles: 2,
            size: 2,
            flags: vec![FlagBits::Z, FlagBits::N, FlagBits::H],
            micro_ops: vec![
                MCycleOp::End(MicroOp::Alu(AluOp::Bit(ByteBit::Three, Registers8Bit::L))),
            ],
        },
        0x5E => Instruction {
            opcode: 0x5E,
            name: "BIT 3, [HL]",
            cycles: 4,
            size: 2,
            flags: vec![FlagBits::Z, FlagBits::N, FlagBits::H],
            micro_ops: vec![
                MCycleOp::Main(MicroOp::Read8(Registers8Bit::Z, Registers16Bit::HL)),
                MCycleOp::Main(MicroOp::Alu(AluOp::Bit(ByteBit::Three, Registers8Bit::Z))),
                MCycleOp::End(MicroOp::Write8(Registers16Bit::HL, Registers8Bit::Z)),
            ],
        },
        0x5F => Instruction {
            opcode: 0x5F,
            name: "BIT 3, A",
            cycles: 2,
            size: 2,
            flags: vec![FlagBits::Z, FlagBits::N, FlagBits::H],
            micro_ops: vec![
                MCycleOp::End(MicroOp::Alu(AluOp::Bit(ByteBit::Three, Registers8Bit::A))),
            ],
        },
        0x60 => Instruction {
            opcode: 0x60,
            name: "BIT 4, B",
            cycles: 2,
            size: 2,
            flags: vec![FlagBits::Z, FlagBits::N, FlagBits::H],
            micro_ops: vec![
                MCycleOp::End(MicroOp::Alu(AluOp::Bit(ByteBit::Four, Registers8Bit::B))),
            ],
        },
        0x61 => Instruction {
            opcode: 0x61,
            name: "BIT 4, C",
            cycles: 2,
            size: 2,
            flags: vec![FlagBits::Z, FlagBits::N, FlagBits::H],
            micro_ops: vec![
                MCycleOp::End(MicroOp::Alu(AluOp::Bit(ByteBit::Four, Registers8Bit::C))),
            ],
        },
        0x62 => Instruction {
            opcode: 0x62,
            name: "BIT 4, D",
            cycles: 2,
            size: 2,
            flags: vec![FlagBits::Z, FlagBits::N, FlagBits::H],
            micro_ops: vec![
                MCycleOp::End(MicroOp::Alu(AluOp::Bit(ByteBit::Four, Registers8Bit::D))),
            ],
        },
        0x63 => Instruction {
            opcode: 0x63,
            name: "BIT 4, E",
            cycles: 2,
            size: 2,
            flags: vec![FlagBits::Z, FlagBits::N, FlagBits::H],
            micro_ops: vec![
                MCycleOp::End(MicroOp::Alu(AluOp::Bit(ByteBit::Four, Registers8Bit::E))),
            ],
        },
        0x64 => Instruction {
            opcode: 0x64,
            name: "BIT 4, H",
            cycles: 2,
            size: 2,
            flags: vec![FlagBits::Z, FlagBits::N, FlagBits::H],
            micro_ops: vec![
                MCycleOp::End(MicroOp::Alu(AluOp::Bit(ByteBit::Four, Registers8Bit::H))),
            ],
        },
        0x65 => Instruction {
            opcode: 0x65,
            name: "BIT 4, L",
            cycles: 2,
            size: 2,
            flags: vec![FlagBits::Z, FlagBits::N, FlagBits::H],
            micro_ops: vec![
                MCycleOp::End(MicroOp::Alu(AluOp::Bit(ByteBit::Four, Registers8Bit::L))),
            ],
        },
        0x66 => Instruction {
            opcode: 0x66,
            name: "BIT 4, [HL]",
            cycles: 4,
            size: 2,
            flags: vec![FlagBits::Z, FlagBits::N, FlagBits::H],
            micro_ops: vec![
                MCycleOp::Main(MicroOp::Read8(Registers8Bit::Z, Registers16Bit::HL)),
                MCycleOp::Main(MicroOp::Alu(AluOp::Bit(ByteBit::Four, Registers8Bit::Z))),
                MCycleOp::End(MicroOp::Write8(Registers16Bit::HL, Registers8Bit::Z)),
            ],
        },
        0x67 => Instruction {
            opcode: 0x67,
            name: "BIT 4, A",
            cycles: 2,
            size: 2,
            flags: vec![FlagBits::Z, FlagBits::N, FlagBits::H],
            micro_ops: vec![
                MCycleOp::End(MicroOp::Alu(AluOp::Bit(ByteBit::Four, Registers8Bit::A))),
            ],
        },
        0x68 => Instruction {
            opcode: 0x68,
            name: "BIT 5, B",
            cycles: 2,
            size: 2,
            flags: vec![FlagBits::Z, FlagBits::N, FlagBits::H],
            micro_ops: vec![
                MCycleOp::End(MicroOp::Alu(AluOp::Bit(ByteBit::Five, Registers8Bit::B))),
            ],
        },
        0x69 => Instruction {
            opcode: 0x69,
            name: "BIT 5, C",
            cycles: 2,
            size: 2,
            flags: vec![FlagBits::Z, FlagBits::N, FlagBits::H],
            micro_ops: vec![
                MCycleOp::End(MicroOp::Alu(AluOp::Bit(ByteBit::Five, Registers8Bit::C))),
            ],
        },
        0x6A => Instruction {
            opcode: 0x6A,
            name: "BIT 5, D",
            cycles: 2,
            size: 2,
            flags: vec![FlagBits::Z, FlagBits::N, FlagBits::H],
            micro_ops: vec![
                MCycleOp::End(MicroOp::Alu(AluOp::Bit(ByteBit::Five, Registers8Bit::D))),
            ],
        },
        0x6B => Instruction {
            opcode: 0x6B,
            name: "BIT 5, E",
            cycles: 2,
            size: 2,
            flags: vec![FlagBits::Z, FlagBits::N, FlagBits::H],
            micro_ops: vec![
                MCycleOp::End(MicroOp::Alu(AluOp::Bit(ByteBit::Five, Registers8Bit::E))),
            ],
        },
        0x6C => Instruction {
            opcode: 0x6C,
            name: "BIT 5, H",
            cycles: 2,
            size: 2,
            flags: vec![FlagBits::Z, FlagBits::N, FlagBits::H],
            micro_ops: vec![
                MCycleOp::End(MicroOp::Alu(AluOp::Bit(ByteBit::Five, Registers8Bit::H))),
            ],
        },
        0x6D => Instruction {
            opcode: 0x6D,
            name: "BIT 5, L",
            cycles: 2,
            size: 2,
            flags: vec![FlagBits::Z, FlagBits::N, FlagBits::H],
            micro_ops: vec![
                MCycleOp::End(MicroOp::Alu(AluOp::Bit(ByteBit::Five, Registers8Bit::L))),
            ],
        },
        0x6E => Instruction {
            opcode: 0x6E,
            name: "BIT 5, [HL]",
            cycles: 4,
            size: 2,
            flags: vec![FlagBits::Z, FlagBits::N, FlagBits::H],
            micro_ops: vec![
                MCycleOp::Main(MicroOp::Read8(Registers8Bit::Z, Registers16Bit::HL)),
                MCycleOp::Main(MicroOp::Alu(AluOp::Bit(ByteBit::Five, Registers8Bit::Z))),
                MCycleOp::End(MicroOp::Write8(Registers16Bit::HL, Registers8Bit::Z)),
            ],
        },
        0x6F => Instruction {
            opcode: 0x6F,
            name: "BIT 5, A",
            cycles: 2,
            size: 2,
            flags: vec![FlagBits::Z, FlagBits::N, FlagBits::H],
            micro_ops: vec![
                MCycleOp::End(MicroOp::Alu(AluOp::Bit(ByteBit::Five, Registers8Bit::A))),
            ],
        },
        0x70 => Instruction {
            opcode: 0x70,
            name: "BIT 6, B",
            cycles: 2,
            size: 2,
            flags: vec![FlagBits::Z, FlagBits::N, FlagBits::H],
            micro_ops: vec![
                MCycleOp::End(MicroOp::Alu(AluOp::Bit(ByteBit::Six, Registers8Bit::B))),
            ],
        },
        0x71 => Instruction {
            opcode: 0x71,
            name: "BIT 6, C",
            cycles: 2,
            size: 2,
            flags: vec![FlagBits::Z, FlagBits::N, FlagBits::H],
            micro_ops: vec![
                MCycleOp::End(MicroOp::Alu(AluOp::Bit(ByteBit::Six, Registers8Bit::C))),
            ],
        },
        0x72 => Instruction {
            opcode: 0x72,
            name: "BIT 6, D",
            cycles: 2,
            size: 2,
            flags: vec![FlagBits::Z, FlagBits::N, FlagBits::H],
            micro_ops: vec![
                MCycleOp::End(MicroOp::Alu(AluOp::Bit(ByteBit::Six, Registers8Bit::D))),
            ],
        },
        0x73 => Instruction {
            opcode: 0x73,
            name: "BIT 6, E",
            cycles: 2,
            size: 2,
            flags: vec![FlagBits::Z, FlagBits::N, FlagBits::H],
            micro_ops: vec![
                MCycleOp::End(MicroOp::Alu(AluOp::Bit(ByteBit::Six, Registers8Bit::E))),
            ],
        },
        0x74 => Instruction {
            opcode: 0x74,
            name: "BIT 6, H",
            cycles: 2,
            size: 2,
            flags: vec![FlagBits::Z, FlagBits::N, FlagBits::H],
            micro_ops: vec![
                MCycleOp::End(MicroOp::Alu(AluOp::Bit(ByteBit::Six, Registers8Bit::H))),
            ],
        },
        0x75 => Instruction {
            opcode: 0x75,
            name: "BIT 6, L",
            cycles: 2,
            size: 2,
            flags: vec![FlagBits::Z, FlagBits::N, FlagBits::H],
            micro_ops: vec![
                MCycleOp::End(MicroOp::Alu(AluOp::Bit(ByteBit::Six, Registers8Bit::L))),
            ],
        },
        0x76 => Instruction {
            opcode: 0x76,
            name: "BIT 6, [HL]",
            cycles: 4,
            size: 2,
            flags: vec![FlagBits::Z, FlagBits::N, FlagBits::H],
            micro_ops: vec![
                MCycleOp::Main(MicroOp::Read8(Registers8Bit::Z, Registers16Bit::HL)),
                MCycleOp::Main(MicroOp::Alu(AluOp::Bit(ByteBit::Six, Registers8Bit::Z))),
                MCycleOp::End(MicroOp::Write8(Registers16Bit::HL, Registers8Bit::Z)),
            ],
        },
        0x77 => Instruction {
            opcode: 0x77,
            name: "BIT 6, A",
            cycles: 2,
            size: 2,
            flags: vec![FlagBits::Z, FlagBits::N, FlagBits::H],
            micro_ops: vec![
                MCycleOp::End(MicroOp::Alu(AluOp::Bit(ByteBit::Six, Registers8Bit::A))),
            ],
        },
        0x78 => Instruction {
            opcode: 0x78,
            name: "BIT 7, B",
            cycles: 2,
            size: 2,
            flags: vec![FlagBits::Z, FlagBits::N, FlagBits::H],
            micro_ops: vec![
                MCycleOp::End(MicroOp::Alu(AluOp::Bit(ByteBit::Seven, Registers8Bit::B))),
            ],
        },
        0x79 => Instruction {
            opcode: 0x79,
            name: "BIT 7, C",
            cycles: 2,
            size: 2,
            flags: vec![FlagBits::Z, FlagBits::N, FlagBits::H],
            micro_ops: vec![
                MCycleOp::End(MicroOp::Alu(AluOp::Bit(ByteBit::Seven, Registers8Bit::C))),
            ],
        },
        0x7A => Instruction {
            opcode: 0x7A,
            name: "BIT 7, D",
            cycles: 2,
            size: 2,
            flags: vec![FlagBits::Z, FlagBits::N, FlagBits::H],
            micro_ops: vec![
                MCycleOp::End(MicroOp::Alu(AluOp::Bit(ByteBit::Seven, Registers8Bit::D))),
            ],
        },
        0x7B => Instruction {
            opcode: 0x7B,
            name: "BIT 7, E",
            cycles: 2,
            size: 2,
            flags: vec![FlagBits::Z, FlagBits::N, FlagBits::H],
            micro_ops: vec![
                MCycleOp::End(MicroOp::Alu(AluOp::Bit(ByteBit::Seven, Registers8Bit::E))),
            ],
        },
        0x7C => Instruction {
            opcode: 0x7C,
            name: "BIT 7, H",
            cycles: 2,
            size: 2,
            flags: vec![FlagBits::Z, FlagBits::N, FlagBits::H],
            micro_ops: vec![
                MCycleOp::End(MicroOp::Alu(AluOp::Bit(ByteBit::Seven, Registers8Bit::H))),
            ],
        },
        0x7D => Instruction {
            opcode: 0x7D,
            name: "BIT 7, L",
            cycles: 2,
            size: 2,
            flags: vec![FlagBits::Z, FlagBits::N, FlagBits::H],
            micro_ops: vec![
                MCycleOp::End(MicroOp::Alu(AluOp::Bit(ByteBit::Seven, Registers8Bit::L))),
            ],
        },
        0x7E => Instruction {
            opcode: 0x7E,
            name: "BIT 7, [HL]",
            cycles: 4,
            size: 2,
            flags: vec![FlagBits::Z, FlagBits::N, FlagBits::H],
            micro_ops: vec![
                MCycleOp::Main(MicroOp::Read8(Registers8Bit::Z, Registers16Bit::HL)),
                MCycleOp::Main(MicroOp::Alu(AluOp::Bit(ByteBit::Seven, Registers8Bit::Z))),
                MCycleOp::End(MicroOp::Write8(Registers16Bit::HL, Registers8Bit::Z)),
            ],
        },
        _ => Instruction {
            opcode: 0x7F,
            name: "BIT 7, A",
            cycles: 2,
            size: 2,
            flags: vec![FlagBits::Z, FlagBits::N, FlagBits::H],
            micro_ops: vec![
                MCycleOp::End(MicroOp::Alu(AluOp::Bit(ByteBit::Seven, Registers8Bit::A))),
            ],
        },
    }
}

fn cb_opcodes_80_bf(opcode: u8) -> (r: Instruction)
    requires
        0x80 <= opcode <= 0xBF,
    ensures
        r.opcode == opcode,
        r.name == cb_name_80_bf(opcode),
        r.size == 2,
        r.cycles == if cb_on_memory(opcode) { 4u8 } else { 2u8 },
        r.flags@ =~= cb_flags(opcode),
        r.micro_ops@ =~= cb_micro_ops(opcode),
{
    match opcode {
        0x80 => Instruction {
            opcode: 0x80,
            name: "RES 0, B",
            cycles: 2,
            size: 2,
            flags: vec![],
            micro_ops: vec![
                MCycleOp::End(MicroOp::Alu(AluOp::Res(ByteBit::Zero, Registers8Bit::B))),
            ],
        },
        0x81 => Instruction {
            opcode: 0x81,
            name: "RES 0, C",
            cycles: 2,
            size: 2,
            flags: vec![],
            micro_ops: vec![
                MCycleOp::End(MicroOp::Alu(AluOp::Res(ByteBit::Zero, Registers8Bit::C))),
            ],
        },
        0x82 => Instruction {
            opcode: 0x82,
            name: "RES 0, D",
            cycles: 2,
            size: 2,
            flags: vec![],
            micro_ops: vec![
                MCycleOp::End(MicroOp::Alu(AluOp::Res(ByteBit::Zero, Registers8Bit::D))),
            ],
        },
        0x83 => Instruction {
            opcode: 0x83,
            name: "RES 0, E",
            cycles: 2,
            size: 2,
            flags: vec![],
            micro_ops: vec![
                MCycleOp::End(MicroOp::Alu(AluOp::Res(ByteBit::Zero, Registers8Bit::E))),
            ],
        },
        0x84 => Instruction {
            opcode: 0x84,
            name: "RES 0, H",
            cycles: 2,
            size: 2,
            flags: vec![],
            micro_ops: vec![
                MCycleOp::End(MicroOp::Alu(AluOp::Res(ByteBit::Zero, Registers8Bit::H))),
            ],
        },
        0x85 => Instruction {
            opcode: 0x85,
            name: "RES 0, L",
            cycles: 2,
            size: 2,
            flags: vec![],
            micro_ops: vec![
                MCycleOp::End(MicroOp::Alu(AluOp::Res(ByteBit::Zero, Registers8Bit::L))),
            ],
        },
        0x86 => Instruction {
            opcode: 0x86,
            name: "RES 0, [HL]",
            cycles: 4,
            size: 2,
            flags: vec![],
            micro_ops: vec![
                MCycleOp::Main(MicroOp::Read8(Registers8Bit::Z, Registers16Bit::HL)),
                MCycleOp::Main(MicroOp::Alu(AluOp::Res(ByteBit::Zero, Registers8Bit::Z))),
                MCycleOp::End(MicroOp::Write8(Registers16Bit::HL, Registers8Bit::Z)),
            ],
        },
        0x87 => Instruction {
            opcode: 0x87,
            name: "RES 0, A",
            cycles: 2,
            size: 2,
            flags: vec![],
            micro_ops: vec![
                MCycleOp::End(MicroOp::Alu(AluOp::Res(ByteBit::Zero, Registers8Bit::A))),
            ],
        },
        0x88 => Instruction {
            opcode: 0x88,
            name: "RES 1, B",
            cycles: 2,
            size: 2,
            flags: vec![],
            micro_ops: vec![
                MCycleOp::End(MicroOp::Alu(AluOp::Res(ByteBit::One, Registers8Bit::B))),
            ],
        },
        0x89 => Instruction {
            opcode: 0x89,
            name: "RES 1, C",
            cycles: 2,
            size: 2,
            flags: vec![],
            micro_ops: vec![
                MCycleOp::End(MicroOp::Alu(AluOp::Res(ByteBit::One, Registers8Bit::C))),
            ],
        },
        0x8A => Instruction {
            opcode: 0x8A,
            name: "RES 1, D",
            cycles: 2,
            size: 2,
            flags: vec![],
            micro_ops: vec![
                MCycleOp::End(MicroOp::Alu(AluOp::Res(ByteBit::One, Registers8Bit::D))),
            ],
        },
        0x8B => Instruction {
            opcode: 0x8B,
            name: "RES 1, E",
            cycles: 2,
            size: 2,
            flags: vec![],
            micro_ops: vec![
                MCycleOp::End(MicroOp::Alu(AluOp::Res(ByteBit::One, Registers8Bit::E))),
            ],
        },
        0x8C => Instruction {
            opcode: 0x8C,
            name: "RES 1, H",
            cycles: 2,
            size: 2,
            flags: vec![],
            micro_ops: vec![
                MCycleOp::End(MicroOp::Alu(AluOp::Res(ByteBit::One, Registers8Bit::H))),
            ],
        },
        0x8D => Instruction {
            opcode: 0x8D,
            name: "RES 1, L",
            cycles: 2,
            size: 2,
            flags: vec![],
            micro_ops: vec![
                MCycleOp::End(MicroOp::Alu(AluOp::Res(ByteBit::One, Registers8Bit::L))),
            ],
        },
        0x8E => Instruction {
            opcode: 0x8E,
            name: "RES 1, [HL]",
            cycles: 4,
            size: 2,
            flags: vec![],
            micro_ops: vec![
                MCycleOp::Main(MicroOp::Read8(Registers8Bit::Z, Registers16Bit::HL)),
                MCycleOp::Main(MicroOp::Alu(AluOp::Res(ByteBit::One, Registers8Bit::Z))),
                MCycleOp::End(MicroOp::Write8(Registers16Bit::HL, Registers8Bit::Z)),
            ],
        },
        0x8F => Instruction {
            opcode: 0x8F,
            name: "RES 1, A",
            cycles: 2,
            size: 2,
            flags: vec![],
            micro_ops: vec![
                MCycleOp::End(MicroOp::Alu(AluOp::Res(ByteBit::One, Registers8Bit::A))),
            ],
        },
        0x90 => Instruction {
            opcode: 0x90,
            name: "RES 2, B",
            cycles: 2,
            size: 2,
            flags: vec![],
            micro_ops: vec![
                MCycleOp::End(MicroOp::Alu(AluOp::Res(ByteBit::Two, Registers8Bit::B))),
            ],
        },
        0x91 => Instruction {
            opcode: 0x91,
            name: "RES 2, C",
            cycles: 2,
            size: 2,
            flags: vec![],
            micro_ops: vec![
                MCycleOp::End(MicroOp::Alu(AluOp::Res(ByteBit::Two, Registers8Bit::C))),
            ],
        },
        0x92 => Instruction {
            opcode: 0x92,
            name: "RES 2, D",
            cycles: 2,
            size: 2,
            flags: vec![],
            micro_ops: vec![
                MCycleOp::End(MicroOp::Alu(AluOp::Res(ByteBit::Two, Registers8Bit::D))),
            ],
        },
        0x93 => Instruction {
            opcode: 0x93,
            name: "RES 2, E",
            cycles: 2,
            size: 2,
            flags: vec![],
            micro_ops: vec![
                MCycleOp::End(MicroOp::Alu(AluOp::Res(ByteBit::Two, Registers8Bit::E))),
            ],
        },
        0x94 => Instruction {
            opcode: 0x94,
            name: "RES 2, H",
            cycles: 2,
            size: 2,
            flags: vec![],
            micro_ops: vec![
                MCycleOp::End(MicroOp::Alu(AluOp::Res(ByteBit::Two, Registers8Bit::H))),
            ],
        },
        0x95 => Instruction {
            opcode: 0x95,
            name: "RES 2, L",
            cycles: 2,
            size: 2,
            flags: vec![],
            micro_ops: vec![
                MCycleOp::End(MicroOp::Alu(AluOp::Res(ByteBit::Two, Registers8Bit::L))),
            ],
        },
        0x96 => Instruction {
            opcode: 0x96,
            name: "RES 2, [HL]",
            cycles: 4,
            size: 2,
            flags: vec![],
            micro_ops: vec![
                MCycleOp::Main(MicroOp::Read8(Registers8Bit::Z, Registers16Bit::HL)),
                MCycleOp::Main(MicroOp::Alu(AluOp::Res(ByteBit::Two, Registers8Bit::Z))),
                MCycleOp::End(MicroOp::Write8(Registers16Bit::HL, Registers8Bit::Z)),
            ],
        },
        0x97 => Instruction {
            opcode: 0x97,
            name: "RES 2, A",
            cycles: 2,
            size: 2,
            flags: vec![],
            micro_ops: vec![
                MCycleOp::End(MicroOp::Alu(AluOp::Res(ByteBit::Two, Registers8Bit::A))),
            ],
        },
        0x98 => Instruction {
            opcode: 0x98,
            name: "RES 3, B",
            cycles: 2,
            size: 2,
            flags: vec![],
            micro_ops: vec![
                MCycleOp::End(MicroOp::Alu(AluOp::Res(ByteBit::Three, Registers8Bit::B))),
            ],
        },
        0x99 => Instruction {
            opcode: 0x99,
            name: "RES 3, C",
            cycles: 2,
            size: 2,
            flags: vec![],
            micro_ops: vec![
                MCycleOp::End(MicroOp::Alu(AluOp::Res(ByteBit::Three, Registers8Bit::C))),
            ],
        },
        0x9A => Instruction {
            opcode: 0x9A,
            name: "RES 3, D",
            cycles: 2,
            size: 2,
            flags: vec![],
            micro_ops: vec![
                MCycleOp::End(MicroOp::Alu(AluOp::Res(ByteBit::Three, Registers8Bit::D))),
            ],
        },
        0x9B => Instruction {
            opcode: 0x9B,
            name: "RES 3, E",
            cycles: 2,
            size: 2,
            flags: vec![],
            micro_ops: vec![
                MCycleOp::End(MicroOp::Alu(AluOp::Res(ByteBit::Three, Registers8Bit::E))),
            ],
        },
        0x9C => Instruction {
            opcode: 0x9C,
            name: "RES 3, H",
            cycles: 2,
            size: 2,
            flags: vec![],
            micro_ops: vec![
                MCycleOp::End(MicroOp::Alu(AluOp::Res(ByteBit::Three, Registers8Bit::H))),
            ],
        },
        0x9D => Instruction {
            opcode: 0x9D,
            name: "RES 3, L",
            cycles: 2,
            size: 2,
            flags: vec![],
            micro_ops: vec![
                MCycleOp::End(MicroOp::Alu(AluOp::Res(ByteBit::Three, Registers8Bit::L))),
            ],
        },
        0x9E => Instruction {
            opcode: 0x9E,
            name: "RES 3, [HL]",
            cycles: 4,
            size: 2,
            flags: vec![],
            micro_ops: vec![
                MCycleOp::Main(MicroOp::Read8(Registers8Bit::Z, Registers16Bit::HL)),
                MCycleOp::Main(MicroOp::Alu(AluOp::Res(ByteBit::Three, Registers8Bit::Z))),
                MCycleOp::End(MicroOp::Write8(Registers16Bit::HL, Registers8Bit::Z)),
            ],
        },
        0x9F => Instruction {
            opcode: 0x9F,
            name: "RES 3, A",
            cycles: 2,
            size: 2,
            flags: vec![],
            micro_ops: vec![
                MCycleOp::End(MicroOp::Alu(AluOp::Res(ByteBit::Three, Registers8Bit::A))),
            ],
        },
        0xA0 => Instruction {
            opcode: 0xA0,
            name: "RES 4, B",
            cycles: 2,
            size: 2,
            flags: vec![],
            micro_ops: vec![
                MCycleOp::End(MicroOp::Alu(AluOp::Res(ByteBit::Four, Registers8Bit::B))),
            ],
        },
        0xA1 => Instruction {
            opcode: 0xA1,
            name: "RES 4, C",
            cycles: 2,
            size: 2,
            flags: vec![],
            micro_ops: vec![
                MCycleOp::End(MicroOp::Alu(AluOp::Res(ByteBit::Four, Registers8Bit::C))),
            ],
        },
        0xA2 => Instruction {
            opcode: 0xA2,
            name: "RES 4, D",
            cycles: 2,
            size: 2,
            flags: vec![],
            micro_ops: vec![
                MCycleOp::End(MicroOp::Alu(AluOp::Res(ByteBit::Four, Registers8Bit::D))),
            ],
        },
        0xA3 => Instruction {
            opcode: 0xA3,
            name: "RES 4, E",
            cycles: 2,
            size: 2,
            flags: vec![],
            micro_ops: vec![
                MCycleOp::End(MicroOp::Alu(AluOp::Res(ByteBit::Four, Registers8Bit::E))),
            ],
        },
        0xA4 => Instruction {
            opcode: 0xA4,
            name: "RES 4, H",
            cycles: 2,
            size: 2,
            flags: vec![],
            micro_ops: vec![
                MCycleOp::End(MicroOp::Alu(AluOp::Res(ByteBit::Four, Registers8Bit::H))),
            ],
        },
        0xA5 => Instruction {
            opcode: 0xA5,
            name: "RES 4, L",
            cycles: 2,
            size: 2,
            flags: vec![],
            micro_ops: vec![
                MCycleOp::End(MicroOp::Alu(AluOp::Res(ByteBit::Four, Registers8Bit::L))),
            ],
        },
        0xA6 => Instruction {
            opcode: 0xA6,
            name: "RES 4, [HL]",
            cycles: 4,
            size: 2,
            flags: vec![],
            micro_ops: vec![
                MCycleOp::Main(MicroOp::Read8(Registers8Bit::Z, Registers16Bit::HL)),
                MCycleOp::Main(MicroOp::Alu(AluOp::Res(ByteBit::Four, Registers8Bit::Z))),
                MCycleOp::End(MicroOp::Write8(Registers16Bit::HL, Registers8Bit::Z)),
            ],
        },
        0xA7 => Instruction {
            opcode: 0xA7,
            name: "RES 4, A",
            cycles: 2,
            size: 2,
            flags: vec![],
            micro_ops: vec![
                MCycleOp::End(MicroOp::Alu(AluOp::Res(ByteBit::Four, Registers8Bit::A))),
            ],
        },
        0xA8 => Instruction {
            opcode: 0xA8,
            name: "RES 5, B",
            cycles: 2,
            size: 2,
            flags: vec![],
            micro_ops: vec![
                MCycleOp::End(MicroOp::Alu(AluOp::Res(ByteBit::Five, Registers8Bit::B))),
            ],
        },
        0xA9 => Instruction {
            opcode: 0xA9,
            name: "RES 5, C",
            cycles: 2,
            size: 2,
            flags: vec![],
            micro_ops: vec![
                MCycleOp::End(MicroOp::Alu(AluOp::Res(ByteBit::Five, Registers8Bit::C))),
            ],
        },
        0xAA => Instruction {
            opcode: 0xAA,
            name: "RES 5, D",
            cycles: 2,
            size: 2,
            flags: vec![],
            micro_ops: vec![
                MCycleOp::End(MicroOp::Alu(AluOp::Res(ByteBit::Five, Registers8Bit::D))),
            ],
        },
        0xAB => Instruction {
            opcode: 0xAB,
            name: "RES 5, E",
            cycles: 2,
            size: 2,
            flags: vec![],
            micro_ops: vec![
                MCycleOp::End(MicroOp::Alu(AluOp::Res(ByteBit::Five, Registers8Bit::E))),
            ],
        },
        0xAC => Instruction {
            opcode: 0xAC,
            name: "RES 5, H",
            cycles: 2,
            size: 2,
            flags: vec![],
            micro_ops: vec![
                MCycleOp::End(MicroOp::Alu(AluOp::Res(ByteBit::Five, Registers8Bit::H))),
            ],
        },
        0xAD => Instruction {
            opcode: 0xAD,
            name: "RES 5, L",
            cycles: 2,
            size: 2,
            flags: vec![],
            micro_ops: vec![
                MCycleOp::End(MicroOp::Alu(AluOp::Res(ByteBit::Five, Registers8Bit::L))),
            ],
        },
        0xAE => Instruction {
            opcode: 0xAE,
            name: "RES 5, [HL]",
            cycles: 4,
            size: 2,
            flags: vec![],
            micro_ops: vec![
                MCycleOp::Main(MicroOp::Read8(Registers8Bit::Z, Registers16Bit::HL)),
                MCycleOp::Main(MicroOp::Alu(AluOp::Res(ByteBit::Five, Registers8Bit::Z))),
                MCycleOp::End(MicroOp::Write8(Registers16Bit::HL, Registers8Bit::Z)),
            ],
        },
        0xAF => Instruction {
            opcode: 0xAF,
            name: "RES 5, A",
            cycles: 2,
            size: 2,
            flags: vec![],
            micro_ops: vec![
                MCycleOp::End(MicroOp::Alu(AluOp::Res(ByteBit::Five, Registers8Bit::A))),
            ],
        },
        0xB0 => Instruction {
            opcode: 0xB0,
            name: "RES 6, B",
            cycles: 2,
            size: 2,
            flags: vec![],
            micro_ops: vec![
                MCycleOp::End(MicroOp::Alu(AluOp::Res(ByteBit::Six, Registers8Bit::B))),
            ],
        },
        0xB1 => Instruction {
            opcode: 0xB1,
            name: "RES 6, C",
            cycles: 2,
            size: 2,
            flags: vec![],
            micro_ops: vec![
                MCycleOp::End(MicroOp::Alu(AluOp::Res(ByteBit::Six, Registers8Bit::C))),
            ],
        },
        0xB2 => Instruction {
            opcode: 0xB2,
            name: "RES 6, D",
            cycles: 2,
            size: 2,
            flags: vec![],
            micro_ops: vec![
                MCycleOp::End(MicroOp::Alu(AluOp::Res(ByteBit::Six, Registers8Bit::D))),
            ],
        },
        0xB3 => Instruction {
            opcode: 0xB3,
            name: "RES 6, E",
            cycles: 2,
            size: 2,
            flags: vec![],
            micro_ops: vec![
                MCycleOp::End(MicroOp::Alu(AluOp::Res(ByteBit::Six, Registers8Bit::E))),
            ],
        },
        0xB4 => Instruction {
            opcode: 0xB4,
            name: "RES 6, H",
            cycles: 2,
            size: 2,
            flags: vec![],
            micro_ops: vec![
                MCycleOp::End(MicroOp::Alu(AluOp::Res(ByteBit::Six, Registers8Bit::H))),
            ],
        },
        0xB5 => Instruction {
            opcode: 0xB5,
            name: "RES 6, L",
            cycles: 2,
            size: 2,
            flags: vec![],
            micro_ops: vec![
                MCycleOp::End(MicroOp::Alu(AluOp::Res(ByteBit::Six, Registers8Bit::L))),
            ],
        },
        0xB6 => Instruction {
            opcode: 0xB6,
            name: "RES 6, [HL]",
            cycles: 4,
            size: 2,
            flags: vec![],
            micro_ops: vec![
                MCycleOp::Main(MicroOp::Read8(Registers8Bit::Z, Registers16Bit::HL)),
                MCycleOp::Main(MicroOp::Alu(AluOp::Res(ByteBit::Six, Registers8Bit::Z))),
                MCycleOp::End(MicroOp::Write8(Registers16Bit::HL, Registers8Bit::Z)),
            ],
        },
        0xB7 => Instruction {
            opcode: 0xB7,
            name: "RES 6, A",
            cycles: 2,
            size: 2,
            flags: vec![],
            micro_ops: vec![
                MCycleOp::End(MicroOp::Alu(AluOp::Res(ByteBit::Six, Registers8Bit::A))),
            ],
        },
        0xB8 => Instruction {
            opcode: 0xB8,
            name: "RES 7, B",
            cycles: 2,
            size: 2,
            flags: vec![],
            micro_ops: vec![
                MCycleOp::End(MicroOp::Alu(AluOp::Res(ByteBit::Seven, Registers8Bit::B))),
            ],
        },
        0xB9 => Instruction {
            opcode: 0xB9,
            name: "RES 7, C",
            cycles: 2,
            size: 2,
            flags: vec![],
            micro_ops: vec![
                MCycleOp::End(MicroOp::Alu(AluOp::Res(ByteBit::Seven, Registers8Bit::C))),
            ],
        },
        0xBA => Instruction {
            opcode: 0xBA,
            name: "RES 7, D",
            cycles: 2,
            size: 2,
            flags: vec![],
            micro_ops: vec![
                MCycleOp::End(MicroOp::Alu(AluOp::Res(ByteBit::Seven, Registers8Bit::D))),
            ],
        },
        0xBB => Instruction {
            opcode: 0xBB,
            name: "RES 7, E",
            cycles: 2,
            size: 2,
            flags: vec![],
            micro_ops: vec![
                MCycleOp::End(MicroOp::Alu(AluOp::Res(ByteBit::Seven, Registers8Bit::E))),
            ],
        },
        0xBC => Instruction {
            opcode: 0xBC,
            name: "RES 7, H",
            cycles: 2,
            size: 2,
            flags: vec![],
            micro_ops: vec![
                MCycleOp::End(MicroOp::Alu(AluOp::Res(ByteBit::Seven, Registers8Bit::H))),
            ],
        },
        0xBD => Instruction {
            opcode: 0xBD,
            name: "RES 7, L",
            cycles: 2,
            size: 2,
            flags: vec![],
            micro_ops: vec![
                MCycleOp::End(MicroOp::Alu(AluOp::Res(ByteBit::Seven, Registers8Bit::L))),
            ],
        },
        0xBE => Instruction {
            opcode: 0xBE,
            name: "RES 7, [HL]",
            cycles: 4,
            size: 2,
            flags: vec![],
            micro_ops: vec![
                MCycleOp::Main(MicroOp::Read8(Registers8Bit::Z, Registers16Bit::HL)),
                MCycleOp::Main(MicroOp::Alu(AluOp::Res(ByteBit::Seven, Registers8Bit::Z))),
                MCycleOp::End(MicroOp::Write8(Registers16Bit::HL, Registers8Bit::Z)),
            ],
        },
        _ => Instruction {
            opcode: 0xBF,
            name: "RES 7, A",
            cycles: 2,
            size: 2,
            flags: vec![],
            micro_ops: vec![
                MCycleOp::End(MicroOp::Alu(AluOp::Res(ByteBit::Seven, Registers8Bit::A))),
            ],
        },
    }
}

fn cb_opcodes_c0_ff(opcode: u8) -> (r: Instruction)
    requires
        0xC0 <= opcode <= 0xFF,
    ensures
        r.opcode == opcode,
        r.name == cb_name_c0_ff(opcode),
        r.size == 2,
        r.cycles == if cb_on_memory(opcode) { 4u8 } else { 2u8 },
        r.flags@ =~= cb_flags(opcode),
        r.micro_ops@ =~= cb_micro_ops(opcode),
{
    match opcode {
        0xC0 => Instruction {
            opcode: 0xC0,
            name: "SET 0, B",
            cycles: 2,
            size: 2,
            flags: vec![],
            micro_ops: vec![
                MCycleOp::End(MicroOp::Alu(AluOp::SetBit(ByteBit::Zero, Registers8Bit::B))),
            ],
        },
        0xC1 => Instruction {
            opcode: 0xC1,
            name: "SET 0, C",
            cycles: 2,
            size: 2,
            flags: vec![],
            micro_ops: vec![
                MCycleOp::End(MicroOp::Alu(AluOp::SetBit(ByteBit::Zero, Registers8Bit::C))),
            ],
        },
        0xC2 => Instruction {
            opcode: 0xC2,
            name: "SET 0, D",
            cycles: 2,
            size: 2,
            flags: vec![],
            micro_ops: vec![
                MCycleOp::End(MicroOp::Alu(AluOp::SetBit(ByteBit::Zero, Registers8Bit::D))),
            ],
        },
        0xC3 => Instruction {
            opcode: 0xC3,
            name: "SET 0, E",
            cycles: 2,
            size: 2,
            flags: vec![],
            micro_ops: vec![
                MCycleOp::End(MicroOp::Alu(AluOp::SetBit(ByteBit::Zero, Registers8Bit::E))),
            ],
        },
        0xC4 => Instruction {
            opcode: 0xC4,
            name: "SET 0, H",
            cycles: 2,
            size: 2,
            flags: vec![],
            micro_ops: vec![
                MCycleOp::End(MicroOp::Alu(AluOp::SetBit(ByteBit::Zero, Registers8Bit::H))),
            ],
        },
        0xC5 => Instruction {
            opcode: 0xC5,
            name: "SET 0, L",
            cycles: 2,
            size: 2,
            flags: vec![],
            micro_ops: vec![
                MCycleOp::End(MicroOp::Alu(AluOp::SetBit(ByteBit::Zero, Registers8Bit::L))),
            ],
        },
        0xC6 => Instruction {
            opcode: 0xC6,
            name: "SET 0, [HL]",
            cycles: 4,
            size: 2,
            flags: vec![],
            micro_ops: vec![
                MCycleOp::Main(MicroOp::Read8(Registers8Bit::Z, Registers16Bit::HL)),
                MCycleOp::Main(MicroOp::Alu(AluOp::SetBit(ByteBit::Zero, Registers8Bit::Z))),
                MCycleOp::End(MicroOp::Write8(Registers16Bit::HL, Registers8Bit::Z)),
            ],
        },
        0xC7 => Instruction {
            opcode: 0xC7,
            name: "SET 0, A",
            cycles: 2,
            size: 2,
            flags: vec![],
            micro_ops: vec![
                MCycleOp::End(MicroOp::Alu(AluOp::SetBit(ByteBit::Zero, Registers8Bit::A))),
            ],
        },
        0xC8 => Instruction {
            opcode: 0xC8,
            name: "SET 1, B",
            cycles: 2,
            size: 2,
            flags: vec![],
            micro_ops: vec![
                MCycleOp::End(MicroOp::Alu(AluOp::SetBit(ByteBit::One, Registers8Bit::B))),
            ],
        },
        0xC9 => Instruction {
            opcode: 0xC9,
            name: "SET 1, C",
            cycles: 2,
            size: 2,
            flags: vec![],
            micro_ops: vec![
                MCycleOp::End(MicroOp::Alu(AluOp::SetBit(ByteBit::One, Registers8Bit::C))),
            ],
        },
        0xCA => Instruction {
            opcode: 0xCA,
            name: "SET 1, D",
            cycles: 2,
            size: 2,
            flags: vec![],
            micro_ops: vec![
                MCycleOp::End(MicroOp::Alu(AluOp::SetBit(ByteBit::One, Registers8Bit::D))),
            ],
        },
        0xCB => Instruction {
            opcode: 0xCB,
            name: "SET 1, E",
            cycles: 2,
            size: 2,
            flags: vec![],
            micro_ops: vec![
                MCycleOp::End(MicroOp::Alu(AluOp::SetBit(ByteBit::One, Registers8Bit::E))),
            ],
        },
        0xCC => Instruction {
            opcode: 0xCC,
            name: "SET 1, H",
            cycles: 2,
            size: 2,
            flags: vec![],
            micro_ops: vec![
                MCycleOp::End(MicroOp::Alu(AluOp::SetBit(ByteBit::One, Registers8Bit::H))),
            ],
        },
        0xCD => Instruction {
            opcode: 0xCD,
            name: "SET 1, L",
            cycles: 2,
            size: 2,
            flags: vec![],
            micro_ops: vec![
                MCycleOp::End(MicroOp::Alu(AluOp::SetBit(ByteBit::One, Registers8Bit::L))),
            ],
        },
        0xCE => Instruction {
            opcode: 0xCE,
            name: "SET 1, [HL ",
            cycles: 4,
            size: 2,
            flags: vec![],
            micro_ops: vec![
                MCycleOp::Main(MicroOp::Read8(Registers8Bit::Z, Registers16Bit::HL)),
                MCycleOp::Main(MicroOp::Alu(AluOp::SetBit(ByteBit::One, Registers8Bit::Z))),
                MCycleOp::End(MicroOp::Write8(Registers16Bit::HL, Registers8Bit::Z)),
            ],
        },
        0xCF => Instruction {
            opcode: 0xCF,
            name: "SET 1, A",
            cycles: 2,
            size: 2,
            flags: vec![],
            micro_ops: vec![
                MCycleOp::End(MicroOp::Alu(AluOp::SetBit(ByteBit::One, Registers8Bit::A))),
            ],
        },
        0xD0 => Instruction {
            opcode: 0xD0,
            name: "SET 2, B",
            cycles: 2,
            size: 2,
            flags: vec![],
            micro_ops: vec![
                MCycleOp::End(MicroOp::Alu(AluOp::SetBit(ByteBit::Two, Registers8Bit::B))),
            ],
        },
        0xD1 => Instruction {
            opcode: 0xD1,
            name: "SET 2, C",
            cycles: 2,
            size: 2,
            flags: vec![],
            micro_ops: vec![
                MCycleOp::End(MicroOp::Alu(AluOp::SetBit(ByteBit::Two, Registers8Bit::C))),
            ],
        },
        0xD2 => Instruction {
            opcode: 0xD2,
            name: "SET 2, D",
            cycles: 2,
            size: 2,
            flags: vec![],
            micro_ops: vec![
                MCycleOp::End(MicroOp::Alu(AluOp::SetBit(ByteBit::Two, Registers8Bit::D))),
            ],
        },
        0xD3 => Instruction {
            opcode: 0xD3,
            name: "SET 2, E",
            cycles: 2,
            size: 2,
            flags: vec![],
            micro_ops: vec![
                MCycleOp::End(MicroOp::Alu(AluOp::SetBit(ByteBit::Two, Registers8Bit::E))),
            ],
        },
        0xD4 => Instruction {
            opcode: 0xD4,
            name: "SET 2, H",
            cycles: 2,
            size: 2,
            flags: vec![],
            micro_ops: vec![
                MCycleOp::End(MicroOp::Alu(AluOp::SetBit(ByteBit::Two, Registers8Bit::H))),
            ],
        },
        0xD5 => Instruction {
            opcode: 0xD5,
            name: "SET 2, L",
            cycles: 2,
            size: 2,
            flags: vec![],
            micro_ops: vec![
                MCycleOp::End(MicroOp::Alu(AluOp::SetBit(ByteBit::Two, Registers8Bit::L))),
            ],
        },
        0xD6 => Instruction {
            opcode: 0xD6,
            name: "SET 2, [HL]",
            cycles: 4,
            size: 2,
            flags: vec![],
            micro_ops: vec![
                MCycleOp::Main(MicroOp::Read8(Registers8Bit::Z, Registers16Bit::HL)),
                MCycleOp::Main(MicroOp::Alu(AluOp::SetBit(ByteBit::Two, Registers8Bit::Z))),
                MCycleOp::End(MicroOp::Write8(Registers16Bit::HL, Registers8Bit::Z)),
            ],
        },
        0xD7 => Instruction {
            opcode: 0xD7,
            name: "SET 2, A",
            cycles: 2,
            size: 2,
            flags: vec![],
            micro_ops: vec![
                MCycleOp::End(MicroOp::Alu(AluOp::SetBit(ByteBit::Two, Registers8Bit::A))),
            ],
        },
        0xD8 => Instruction {
            opcode: 0xD8,
            name: "SET 3, B",
            cycles: 2,
            size: 2,
            flags: vec![],
            micro_ops: vec![
                MCycleOp::End(MicroOp::Alu(AluOp::SetBit(ByteBit::Three, Registers8Bit::B))),
            ],
        },
        0xD9 => Instruction {
            opcode: 0xD9,
            name: "SET 3, C",
            cycles: 2,
            size: 2,
            flags: vec![],
            micro_ops: vec![
                MCycleOp::End(MicroOp::Alu(AluOp::SetBit(ByteBit::Three, Registers8Bit::C))),
            ],
        },
        0xDA => Instruction {
            opcode: 0xDA,
            name: "SET 3, D",
            cycles: 2,
            size: 2,
            flags: vec![],
            micro_ops: vec![
                MCycleOp::End(MicroOp::Alu(AluOp::SetBit(ByteBit::Three, Registers8Bit::D))),
            ],
        },
        0xDB => Instruction {
            opcode: 0xDB,
            name: "SET 3, E",
            cycles: 2,
            size: 2,
            flags: vec![],
            micro_ops: vec![
                MCycleOp::End(MicroOp::Alu(AluOp::SetBit(ByteBit::Three, Registers8Bit::E))),
            ],
        },
        0xDC => Instruction {
            opcode: 0xDC,
            name: "SET 3, H",
            cycles: 2,
            size: 2,
            flags: vec![],
            micro_ops: vec![
                MCycleOp::End(MicroOp::Alu(AluOp::SetBit(ByteBit::Three, Registers8Bit::H))),
            ],
        },
        0xDD => Instruction {
            opcode: 0xDD,
            name: "SET 3, L",
            cycles: 2,
            size: 2,
            flags: vec![],
            micro_ops: vec![
                MCycleOp::End(MicroOp::Alu(AluOp::SetBit(ByteBit::Three, Registers8Bit::L))),
            ],
        },
        0xDE => Instruction {
            opcode: 0xDE,
            name: "SET 3, [HL]",
            cycles: 4,
            size: 2,
            flags: vec![],
            micro_ops: vec![
                MCycleOp::Main(MicroOp::Read8(Registers8Bit::Z, Registers16Bit::HL)),
                MCycleOp::Main(MicroOp::Alu(AluOp::SetBit(ByteBit::Three, Registers8Bit::Z))),
                MCycleOp::End(MicroOp::Write8(Registers16Bit::HL, Registers8Bit::Z)),
            ],
        },
        0xDF => Instruction {
            opcode: 0xDF,
            name: "SET 3, A",
            cycles: 2,
            size: 2,
            flags: vec![],
            micro_ops: vec![
                MCycleOp::End(MicroOp::Alu(AluOp::SetBit(ByteBit::Three, Registers8Bit::A))),
            ],
        },
        0xE0 => Instruction {
            opcode: 0xE0,
            name: "SET 4, B",
            cycles: 2,
            size: 2,
            flags: vec![],
            micro_ops: vec![
                MCycleOp::End(MicroOp::Alu(AluOp::SetBit(ByteBit::Four, Registers8Bit::B))),
            ],
        },
        0xE1 => Instruction {
            opcode: 0xE1,
            name: "SET 4, C",
            cycles: 2,
            size: 2,
            flags: vec![],
            micro_ops: vec![
                MCycleOp::End(MicroOp::Alu(AluOp::SetBit(ByteBit::Four, Registers8Bit::C))),
            ],
        },
        0xE2 => Instruction {
            opcode: 0xE2,
            name: "SET 4, D",
            cycles: 2,
            size: 2,
            flags: vec![],
            micro_ops: vec![
                MCycleOp::End(MicroOp::Alu(AluOp::SetBit(ByteBit::Four, Registers8Bit::D))),
            ],
        },
        0xE3 => Instruction {
            opcode: 0xE3,
            name: "SET 4, E",
            cycles: 2,
            size: 2,
            flags: vec![],
            micro_ops: vec![
                MCycleOp::End(MicroOp::Alu(AluOp::SetBit(ByteBit::Four, Registers8Bit::E))),
            ],
        },
        0xE4 => Instruction {
            opcode: 0xE4,
            name: "SET 4, H",
            cycles: 2,
            size: 2,
            flags: vec![],
            micro_ops: vec![
                MCycleOp::End(MicroOp::Alu(AluOp::SetBit(ByteBit::Four, Registers8Bit::H))),
            ],
        },
        0xE5 => Instruction {
            opcode: 0xE5,
            name: "SET 4, L",
            cycles: 2,
            size: 2,
            flags: vec![],
            micro_ops: vec![
                MCycleOp::End(MicroOp::Alu(AluOp::SetBit(ByteBit::Four, Registers8Bit::L))),
            ],
        },
        0xE6 => Instruction {
            opcode: 0xE6,
            name: "SET 4, [HL]",
            cycles: 4,
            size: 2,
            flags: vec![],
            micro_ops: vec![
                MCycleOp::Main(MicroOp::Read8(Registers8Bit::Z, Registers16Bit::HL)),
                MCycleOp::Main(MicroOp::Alu(AluOp::SetBit(ByteBit::Four, Registers8Bit::Z))),
                MCycleOp::End(MicroOp::Write8(Registers16Bit::HL, Registers8Bit::Z)),
            ],
        },
        0xE7 => Instruction {
            opcode: 0xE7,
            name: "SET 4, A",
            cycles: 2,
            size: 2,
            flags: vec![],
            micro_ops: vec![
                MCycleOp::End(MicroOp::Alu(AluOp::SetBit(ByteBit::Four, Registers8Bit::A))),
            ],
        },
        0xE8 => Instruction {
            opcode: 0xE8,
            name: "SET 5, B",
            cycles: 2,
            size: 2,
            flags: vec![],
            micro_ops: vec![
                MCycleOp::End(MicroOp::Alu(AluOp::SetBit(ByteBit::Five, Registers8Bit::B))),
            ],
        },
        0xE9 => Instruction {
            opcode: 0xE9,
            name: "SET 5, C",
            cycles: 2,
            size: 2,
            flags: vec![],
            micro_ops: vec![
                MCycleOp::End(MicroOp::Alu(AluOp::SetBit(ByteBit::Five, Registers8Bit::C))),
            ],
        },
        0xEA => Instruction {
            opcode: 0xEA,
            name: "SET 5, D",
            cycles: 2,
            size: 2,
            flags: vec![],
            micro_ops: vec![
                MCycleOp::End(MicroOp::Alu(AluOp::SetBit(ByteBit::Five, Registers8Bit::D))),
            ],
        },
        0xEB => Instruction {
            opcode: 0xEB,
            name: "SET 5, E",
            cycles: 2,
            size: 2,
            flags: vec![],
            micro_ops: vec![
                MCycleOp::End(MicroOp::Alu(AluOp::SetBit(ByteBit::Five, Registers8Bit::E))),
            ],
        },
        0xEC => Instruction {
            opcode: 0xEC,
            name: "SET 5, H",
            cycles: 2,
            size: 2,
            flags: vec![],
            micro_ops: vec![
                MCycleOp::End(MicroOp::Alu(AluOp::SetBit(ByteBit::Five, Registers8Bit::H))),
            ],
        },
        0xED => Instruction {
            opcode: 0xED,
            name: "SET 5, L",
            cycles: 2,
            size: 2,
            flags: vec![],
            micro_ops: vec![
                MCycleOp::End(MicroOp::Alu(AluOp::SetBit(ByteBit::Five, Registers8Bit::L))),
            ],
        },
        0xEE => Instruction {
            opcode: 0xEE,
            name: "SET 5, [HL]",
            cycles: 4,
            size: 2,
            flags: vec![],
            micro_ops: vec![
                MCycleOp::Main(MicroOp::Read8(Registers8Bit::Z, Registers16Bit::HL)),
                MCycleOp::Main(MicroOp::Alu(AluOp::SetBit(ByteBit::Five, Registers8Bit::Z))),
                MCycleOp::End(MicroOp::Write8(Registers16Bit::HL, Registers8Bit::Z)),
            ],
        },
        0xEF => Instruction {
            opcode: 0xEF,
            name: "SET 5, A",
            cycles: 2,
            size: 2,
            flags: vec![],
            micro_ops: vec![
                MCycleOp::End(MicroOp::Alu(AluOp::SetBit(ByteBit::Five, Registers8Bit::A))),
            ],
        },
        0xF0 => Instruction {
            opcode: 0xF0,
            name: "SET 6, B",
            cycles: 2,
            size: 2,
            flags: vec![],
            micro_ops: vec![
                MCycleOp::End(MicroOp::Alu(AluOp::SetBit(ByteBit::Six, Registers8Bit::B))),
            ],
        },
        0xF1 => Instruction {
            opcode: 0xF1,
            name: "SET 6, C",
            cycles: 2,
            size: 2,
            flags: vec![],
            micro_ops: vec![
                MCycleOp::End(MicroOp::Alu(AluOp::SetBit(ByteBit::Six, Registers8Bit::C))),
            ],
        },
        0xF2 => Instruction {
            opcode: 0xF2,
            name: "SET 6, D",
            cycles: 2,
            size: 2,
            flags: vec![],
            micro_ops: vec![
                MCycleOp::End(MicroOp::Alu(AluOp::SetBit(ByteBit::Six, Registers8Bit::D))),
            ],
        },
        0xF3 => Instruction {
            opcode: 0xF3,
            name: "SET 6, E",
            cycles: 2,
            size: 2,
            flags: vec![],
            micro_ops: vec![
                MCycleOp::End(MicroOp::Alu(AluOp::SetBit(ByteBit::Six, Registers8Bit::E))),
            ],
        },
        0xF4 => Instruction {
            opcode: 0xF4,
            name: "SET 6, H",
            cycles: 2,
            size: 2,
            flags: vec![],
            micro_ops: vec![
                MCycleOp::End(MicroOp::Alu(AluOp::SetBit(ByteBit::Six, Registers8Bit::H))),
            ],
        },
        0xF5 => Instruction {
            opcode: 0xF5,
            name: "SET 6, L",
            cycles: 2,
            size: 2,
            flags: vec![],
            micro_ops: vec![
                MCycleOp::End(MicroOp::Alu(AluOp::SetBit(ByteBit::Six, Registers8Bit::L))),
            ],
        },
        0xF6 => Instruction {
            opcode: 0xF6,
            name: "SET 6, [HL]",
            cycles: 4,
            size: 2,
            flags: vec![],
            micro_ops: vec![
                MCycleOp::Main(MicroOp::Read8(Registers8Bit::Z, Registers16Bit::HL)),
                MCycleOp::Main(MicroOp::Alu(AluOp::SetBit(ByteBit::Six, Registers8Bit::Z))),
                MCycleOp::End(MicroOp::Write8(Registers16Bit::HL, Registers8Bit::Z)),
            ],
        },
        0xF7 => Instruction {
            opcode: 0xF7,
            name: "SET 6, A",
            cycles: 2,
            size: 2,
            flags: vec![],
            micro_ops: vec![
                MCycleOp::End(MicroOp::Alu(AluOp::SetBit(ByteBit::Six, Registers8Bit::A))),
            ],
        },
        0xF8 => Instruction {
            opcode: 0xF8,
            name: "SET 7, B",
            cycles: 2,
            size: 2,
            flags: vec![],
            micro_ops: vec![
                MCycleOp::End(MicroOp::Alu(AluOp::SetBit(ByteBit::Seven, Registers8Bit::B))),
            ],
        },
        0xF9 => Instruction {
            opcode: 0xF9,
            name: "SET 7, C",
            cycles: 2,
            size: 2,
            flags: vec![],
            micro_ops: vec![
                MCycleOp::End(MicroOp::Alu(AluOp::SetBit(ByteBit::Seven, Registers8Bit::C))),
            ],
        },
        0xFA => Instruction {
            opcode: 0xFA,
            name: "SET 7, D",
            cycles: 2,
            size: 2,
            flags: vec![],
            micro_ops: vec![
                MCycleOp::End(MicroOp::Alu(AluOp::SetBit(ByteBit::Seven, Registers8Bit::D))),
            ],
        },
        0xFB => Instruction {
            opcode: 0xFB,
            name: "SET 7, E",
            cycles: 2,
            size: 2,
            flags: vec![],
            micro_ops: vec![
                MCycleOp::End(MicroOp::Alu(AluOp::SetBit(ByteBit::Seven, Registers8Bit::E))),
            ],
        },
        0xFC => Instruction {
            opcode: 0xFC,
            name: "SET 7, H",
            cycles: 2,
            size: 2,
            flags: vec![],
            micro_ops: vec![
                MCycleOp::End(MicroOp::Alu(AluOp::SetBit(ByteBit::Seven, Registers8Bit::H))),
            ],
        },
        0xFD => Instruction {
            opcode: 0xFD,
            name: "SET 7, L",
            cycles: 2,
            size: 2,
            flags: vec![],
            micro_ops: vec![
                MCycleOp::End(MicroOp::Alu(AluOp::SetBit(ByteBit::Seven, Registers8Bit::L))),
            ],
        },
        0xFE => Instruction {
            opcode: 0xFE,
            name: "SET 7, [HL]",
            cycles: 4,
            size: 2,
            flags: vec![],
            micro_ops: vec![
                MCycleOp::Main(MicroOp::Read8(Registers8Bit::Z, Registers16Bit::HL)),
                MCycleOp::Main(MicroOp::Alu(AluOp::SetBit(ByteBit::Seven, Registers8Bit::Z))),
                MCycleOp::End(MicroOp::Write8(Registers16Bit::HL, Registers8Bit::Z)),
            ],
        },
        _ => Instruction {
            opcode: 0xFF,
            name: "SET 7, A",
            cycles: 2,
            size: 2,
            flags: vec![],
            micro_ops: vec![
                MCycleOp::End(MicroOp::Alu(AluOp::SetBit(ByteBit::Seven, Registers8Bit::A))),
            ],
        },
    }
}

} // verus!

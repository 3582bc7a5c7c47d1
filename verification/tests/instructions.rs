use yaemulator::instructions::{daa, Instruction};
use yaemulator::instructions::cb_opcodes::create_cb_opcodes;
use yaemulator::instructions::opcodes::create_opcodes;
use yaemulator::instructions::interrupt::InterruptType;
use yaemulator::microcode::{AluOp, ByteBit, MCycleOp, MicroOp, VectorAddress};
use yaemulator::registers::{FlagBits, Registers8Bit, Registers16Bit};

#[test]
fn opcode_table_defines_all_but_eleven() {
    let undefined = [0xD3u8, 0xDB, 0xDD, 0xE3, 0xE4, 0xEB, 0xEC, 0xED, 0xF4, 0xFC, 0xFD];
    for op in 0u8..=255 {
        assert_eq!(create_opcodes(op).is_none(), undefined.contains(&op), "opcode {:#04x}", op);
        assert_eq!(Instruction::new(op).is_none(), undefined.contains(&op));
    }
}

#[test]
fn opcode_table_entries() {
    let nop = create_opcodes(0x00).unwrap();
    assert_eq!(nop.name, "NOP");
    assert_eq!(nop.micro_ops, vec![MCycleOp::End(MicroOp::Idle)]);
    let ld = create_opcodes(0x01).unwrap();
    assert_eq!(ld.name, "LD BC, imm16");
    assert_eq!((ld.cycles, ld.size), (3, 3));
    assert_eq!(ld.micro_ops[2], MCycleOp::End(MicroOp::Ld16(Registers16Bit::BC, Registers16Bit::WZ)));
    let inc = create_opcodes(0x04).unwrap();
    assert_eq!(inc.flags, vec![FlagBits::Z, FlagBits::N, FlagBits::H]);
    // Every entry carries its own opcode.
    for op in 0u8..=255 {
        if let Some(i) = create_opcodes(op) {
            assert_eq!(i.opcode, op);
        }
    }
    assert_eq!(create_opcodes(0x2A).unwrap().name, "LD A, [HL+]");
    let rst = create_opcodes(0xEF).unwrap();
    assert_eq!(rst.micro_ops[3], MCycleOp::End(MicroOp::JumpVector(VectorAddress::V5)));
}

#[test]
fn cb_table_decodes_register_and_operation() {
    let i = create_cb_opcodes(0x00).unwrap();
    assert_eq!(i.name, "RLC B");
    assert_eq!(i.micro_ops, vec![MCycleOp::End(MicroOp::Alu(AluOp::Rlc(Registers8Bit::B)))]);
    let i = create_cb_opcodes(0x7C).unwrap();
    assert_eq!(i.name, "BIT 7, H");
    assert_eq!(i.flags, vec![FlagBits::Z, FlagBits::N, FlagBits::H]);
    assert_eq!(i.micro_ops, vec![MCycleOp::End(MicroOp::Alu(AluOp::Bit(ByteBit::Seven, Registers8Bit::H)))]);
    let i = create_cb_opcodes(0x86).unwrap();
    assert_eq!(i.name, "RES 0, [HL]");
    assert_eq!(i.cycles, 4);
    assert_eq!(i.micro_ops.len(), 3);
    assert_eq!(i.micro_ops[0], MCycleOp::Main(MicroOp::Read8(Registers8Bit::Z, Registers16Bit::HL)));
    assert_eq!(i.micro_ops[2], MCycleOp::End(MicroOp::Write8(Registers16Bit::HL, Registers8Bit::Z)));
    // The A column works on A; RRC [HL] rotates the byte right.
    let i = create_cb_opcodes(0xFF).unwrap();
    assert_eq!(i.micro_ops, vec![MCycleOp::End(MicroOp::Alu(AluOp::SetBit(ByteBit::Seven, Registers8Bit::A)))]);
    let i = create_cb_opcodes(0x47).unwrap();
    assert_eq!(i.name, "BIT 0, A");
    assert_eq!(i.micro_ops, vec![MCycleOp::End(MicroOp::Alu(AluOp::Bit(ByteBit::Zero, Registers8Bit::A)))]);
    let i = create_cb_opcodes(0x0E).unwrap();
    assert_eq!(i.micro_ops[1], MCycleOp::Main(MicroOp::Alu(AluOp::Rrc(Registers8Bit::Z))));
    for op in 0u8..=255 {
        let i = create_cb_opcodes(op).unwrap();
        assert_eq!(i.opcode, op);
        assert_eq!(i.size, 2);
    }
}

#[test]
fn interrupt_routines_jump_to_their_vectors() {
    let cases = [
        (InterruptType::VBlank, VectorAddress::VBlank),
        (InterruptType::LCD, VectorAddress::STAT),
        (InterruptType::Timer, VectorAddress::Timer),
        (InterruptType::Serial, VectorAddress::Serial),
        (InterruptType::Joypad, VectorAddress::Joypad),
    ];
    for (t, v) in cases {
        let i = InterruptType::interrupt_instruction(t);
        assert_eq!(i.micro_ops.len(), 5);
        assert_eq!(i.micro_ops[4], MCycleOp::End(MicroOp::JumpVector(v)));
        assert_eq!(t.instruction().name, i.name);
    }
    assert_eq!(VectorAddress::Joypad.address(), 0x60);
}

#[test]
fn daa_adjusts_to_bcd() {
    // 0x15 + 0x27 = 0x3C -> 0x42
    assert_eq!(daa(0x3C, 0x00), (0x42, 0x00));
    // 0x99 + 0x01 = 0x9A -> 0x00 with carry and zero
    assert_eq!(daa(0x9A, 0x00), (0x00, 0x90));
    // after a subtraction with half carry: 0x20 - 0x01 = 0x1F -> 0x19
    assert_eq!(daa(0x1F, 0x60), (0x19, 0x40));
    // carry in, no adjust of the low digit
    assert_eq!(daa(0x12, 0x10), (0x72, 0x10));
}

#[test]
fn register_blocks_decode_from_bits() {
    let regs = [Registers8Bit::B, Registers8Bit::C, Registers8Bit::D, Registers8Bit::E, Registers8Bit::H, Registers8Bit::L];
    for (d, dst) in regs.iter().enumerate() {
        for (s, src) in regs.iter().enumerate() {
            let op = 0x40 + 8 * d as u8 + s as u8;
            let i = create_opcodes(op).unwrap();
            assert_eq!(i.micro_ops, vec![MCycleOp::End(MicroOp::Ld8(*dst, *src))]);
        }
    }
    let i = create_opcodes(0xA9).unwrap();
    assert_eq!(i.micro_ops, vec![MCycleOp::End(MicroOp::Alu(AluOp::Xor(Registers8Bit::A, Registers8Bit::C)))]);
    let i = create_opcodes(0x87).unwrap();
    assert_eq!(i.name, "ADD A, A");
    assert_eq!(i.micro_ops, vec![MCycleOp::End(MicroOp::Alu(AluOp::Add(Registers8Bit::A, Registers8Bit::A)))]);
    // The [HL] forms read in one M-cycle and run the operation in the next.
    let i = create_opcodes(0x86).unwrap();
    assert_eq!(i.micro_ops, vec![
        MCycleOp::Main(MicroOp::Read8(Registers8Bit::Z, Registers16Bit::HL)),
        MCycleOp::End(MicroOp::Alu(AluOp::Add(Registers8Bit::A, Registers8Bit::Z))),
    ]);
    let i = create_opcodes(0x76).unwrap();
    assert_eq!(i.name, "HALT");
}

#[test]
fn inc_and_dec_work_on_their_register() {
    let regs = [Registers8Bit::B, Registers8Bit::C, Registers8Bit::D, Registers8Bit::E, Registers8Bit::H, Registers8Bit::L];
    for (r, reg) in regs.iter().enumerate() {
        let inc = create_opcodes(((r as u8) << 3) | 4).unwrap();
        let dec = create_opcodes(((r as u8) << 3) | 5).unwrap();
        assert_eq!(inc.micro_ops, vec![MCycleOp::End(MicroOp::Alu(AluOp::Inc(*reg)))]);
        assert_eq!(dec.micro_ops, vec![MCycleOp::End(MicroOp::Alu(AluOp::Dec(*reg)))]);
    }
    assert_eq!(create_opcodes(0x3B).unwrap().micro_ops[0], MCycleOp::Main(MicroOp::Dec16(Registers16Bit::SP)));
    assert_eq!(create_opcodes(0x3F).unwrap().micro_ops, vec![MCycleOp::End(MicroOp::Alu(AluOp::Ccf))]);
}

#[test]
fn only_the_last_step_ends_an_unconditional_instruction() {
    for op in 0u8..=255 {
        if op == 0xCB {
            continue;
        }
        if let Some(i) = create_opcodes(op) {
            let ops = &i.micro_ops;
            assert!(matches!(ops[ops.len() - 1], MCycleOp::End(_)), "opcode {:#04x}", op);
            for k in 0..ops.len() - 1 {
                if matches!(ops[k], MCycleOp::End(_)) {
                    assert!(k > 0 && matches!(ops[k - 1], MCycleOp::Cc(..)), "opcode {:#04x}", op);
                }
            }
        }
    }
    let i = create_opcodes(0xC6).unwrap();
    assert_eq!(i.micro_ops[0], MCycleOp::Main(MicroOp::Fetch8(Registers8Bit::Z)));
}

#[test]
fn daa_gives_bcd_of_sums_and_differences() {
    let bcd = |v: u32| -> u8 { (((v / 10) << 4) | (v % 10)) as u8 };
    for x in 0..100u32 {
        for y in 0..100u32 {
            let (bx, by) = (bcd(x), bcd(y));
            let h = (bx & 0x0F) + (by & 0x0F) > 0x0F;
            let c = bx as u16 + by as u16 > 0xFF;
            let flags = (if h { 0x20 } else { 0 }) | (if c { 0x10 } else { 0 });
            let (a, f) = daa(bx.wrapping_add(by), flags);
            assert_eq!(a, bcd((x + y) % 100), "{} + {}", x, y);
            assert_eq!(f & 0x10 != 0, x + y >= 100);
            let h = (bx & 0x0F) < (by & 0x0F);
            let c = bx < by;
            let flags = 0x40 | (if h { 0x20 } else { 0 }) | (if c { 0x10 } else { 0 });
            let (a, f) = daa(bx.wrapping_sub(by), flags);
            assert_eq!(a, bcd((x + 100 - y) % 100), "{} - {}", x, y);
            assert_eq!(f & 0x10 != 0, x < y);
        }
    }
}

use yaemulator::cpu::CPU;
use yaemulator::microcode::{AluOp, ByteBit, SetFlagC, SetFlagH, SetFlagN, SetFlagZ};
use yaemulator::registers::{Registers16Bit, Registers8Bit};

const A: Registers8Bit = Registers8Bit::A;
const B: Registers8Bit = Registers8Bit::B;

fn cpu_with(a: u8, b: u8, f: u8) -> CPU {
    let mut cpu = CPU::new();
    cpu.registers.set_a(a);
    cpu.registers.set_b(b);
    cpu.registers.set_f(f);
    cpu
}

#[test]
fn alu_sub_and_cp_report_borrows() {
    let mut cpu = cpu_with(0x10, 0x01, 0);
    cpu.alu_operation(AluOp::Sub(A, B));
    assert_eq!(cpu.registers.get_a(), 0x0F);
    // Z N H C: borrow from bit 4, none from bit 8.
    assert_eq!(cpu.registers.get_f(), 0x60);
    let mut cpu = cpu_with(0x01, 0x02, 0);
    cpu.alu_operation(AluOp::Sub(A, B));
    assert_eq!(cpu.registers.get_a(), 0xFF);
    assert_eq!(cpu.registers.get_f(), 0x70);
    let mut cpu = cpu_with(0x01, 0x02, 0);
    cpu.alu_operation(AluOp::Cp(A, B));
    assert_eq!(cpu.registers.get_a(), 0x01);
    assert_eq!(cpu.registers.get_f(), 0x70);
    let mut cpu = cpu_with(0x05, 0x05, 0);
    cpu.alu_operation(AluOp::Cp(A, B));
    assert_eq!(cpu.registers.get_a(), 0x05);
    assert_eq!(cpu.registers.get_f(), 0xC0);
}

#[test]
fn alu_adc_and_sbc_use_the_carry() {
    let mut cpu = cpu_with(0x0E, 0x01, 0x10);
    cpu.alu_operation(AluOp::Adc(A, B));
    assert_eq!(cpu.registers.get_a(), 0x10);
    assert_eq!(cpu.registers.get_f(), 0x20);
    let mut cpu = cpu_with(0x10, 0x01, 0x10);
    cpu.alu_operation(AluOp::Sbc(A, B));
    assert_eq!(cpu.registers.get_a(), 0x0E);
    assert_eq!(cpu.registers.get_f(), 0x60);
    let mut cpu = cpu_with(0x00, 0x00, 0x10);
    cpu.alu_operation(AluOp::Sbc(A, B));
    assert_eq!(cpu.registers.get_a(), 0xFF);
    assert_eq!(cpu.registers.get_f(), 0x70);
}

#[test]
fn alu_inc_and_dec() {
    let mut cpu = cpu_with(0, 0x0F, 0);
    cpu.alu_operation(AluOp::Inc(B));
    assert_eq!(cpu.registers.get_b(), 0x10);
    // Half carry out of bit 3; C unchanged.
    assert_eq!(cpu.registers.get_f(), 0x20);
    let mut cpu = cpu_with(0, 0xFF, 0x10);
    cpu.alu_operation(AluOp::Inc(B));
    assert_eq!(cpu.registers.get_b(), 0x00);
    assert_eq!(cpu.registers.get_f(), 0xB0);
    let mut cpu = cpu_with(0, 0x01, 0);
    cpu.alu_operation(AluOp::Dec(B));
    assert_eq!(cpu.registers.get_b(), 0x00);
    assert_eq!(cpu.registers.get_f(), 0xC0);
    let mut cpu = cpu_with(0, 0x10, 0x10);
    cpu.alu_operation(AluOp::Dec(B));
    assert_eq!(cpu.registers.get_b(), 0x0F);
    assert_eq!(cpu.registers.get_f(), 0x70);
}

#[test]
fn alu_logic_stores_into_the_left_register() {
    let mut cpu = cpu_with(0xCA, 0xA6, 0);
    cpu.alu_operation(AluOp::And(A, B));
    assert_eq!(cpu.registers.get_a(), 0x82);
    assert_eq!(cpu.registers.get_f(), 0x20);
    let mut cpu = cpu_with(0xCA, 0xA6, 0);
    cpu.alu_operation(AluOp::Or(A, B));
    assert_eq!(cpu.registers.get_a(), 0xEE);
    assert_eq!(cpu.registers.get_f(), 0x00);
    let mut cpu = cpu_with(0xCA, 0xA6, 0);
    cpu.alu_operation(AluOp::Xor(A, B));
    assert_eq!(cpu.registers.get_a(), 0x6C);
    assert_eq!(cpu.registers.get_f(), 0x00);
    assert_eq!(cpu.registers.get_b(), 0xA6);
    let mut cpu = cpu_with(0x0F, 0x0F, 0);
    cpu.alu_operation(AluOp::Xor(A, A));
    assert_eq!(cpu.registers.get_a(), 0x00);
    assert_eq!(cpu.registers.get_f(), 0x80);
}

#[test]
fn alu_flag_operations() {
    let mut cpu = cpu_with(0, 0, 0x90);
    cpu.alu_operation(AluOp::Ccf);
    assert_eq!(cpu.registers.get_f(), 0x80);
    cpu.alu_operation(AluOp::Scf);
    assert_eq!(cpu.registers.get_f(), 0x90);
    cpu.alu_operation(AluOp::SetFlags(SetFlagZ::Off, SetFlagN::On, SetFlagH::Same, SetFlagC::Same));
    assert_eq!(cpu.registers.get_f(), 0x50);
    let mut cpu = cpu_with(0x35, 0, 0x10);
    cpu.alu_operation(AluOp::Cpl(A));
    assert_eq!(cpu.registers.get_a(), 0xCA);
    assert_eq!(cpu.registers.get_f(), 0x70);
}

#[test]
fn alu_rotations_and_shifts() {
    let mut cpu = cpu_with(0x85, 0, 0);
    cpu.alu_operation(AluOp::Rlca);
    assert_eq!(cpu.registers.get_a(), 0x0B);
    assert_eq!(cpu.registers.get_f(), 0x10);
    let mut cpu = cpu_with(0x01, 0, 0);
    cpu.alu_operation(AluOp::Rra);
    assert_eq!(cpu.registers.get_a(), 0x00);
    assert_eq!(cpu.registers.get_f(), 0x10);
    let mut cpu = cpu_with(0x81, 0, 0);
    cpu.alu_operation(AluOp::Sra(A));
    assert_eq!(cpu.registers.get_a(), 0xC0);
    let mut cpu = cpu_with(0x81, 0, 0);
    cpu.alu_operation(AluOp::Srl(A));
    assert_eq!(cpu.registers.get_a(), 0x40);
    assert!(cpu.registers.get_carry_flag());
    let mut cpu = cpu_with(0x81, 0, 0);
    cpu.alu_operation(AluOp::Sll(A));
    assert_eq!(cpu.registers.get_a(), 0x03);
    let mut cpu = cpu_with(0x80, 0, 0);
    cpu.alu_operation(AluOp::Rl(A));
    assert_eq!(cpu.registers.get_a(), 0x00);
    assert_eq!(cpu.registers.get_f(), 0x90);
    let mut cpu = cpu_with(0xAB, 0, 0);
    cpu.alu_operation(AluOp::Swap(A));
    assert_eq!(cpu.registers.get_a(), 0xBA);
}

#[test]
fn alu_bit_operations() {
    let mut cpu = cpu_with(0x80, 0, 0x10);
    cpu.alu_operation(AluOp::Bit(ByteBit::Seven, A));
    assert_eq!(cpu.registers.get_f(), 0x30);
    cpu.alu_operation(AluOp::Bit(ByteBit::Zero, A));
    assert_eq!(cpu.registers.get_f(), 0xB0);
    let mut cpu = cpu_with(0xFF, 0x00, 0);
    cpu.alu_operation(AluOp::Res(ByteBit::Zero, A));
    cpu.alu_operation(AluOp::SetBit(ByteBit::Three, B));
    assert_eq!(cpu.registers.get_a(), 0xFE);
    assert_eq!(cpu.registers.get_b(), 0x08);
}

#[test]
fn alu_16_bit_addition_in_two_halves() {
    let mut cpu = CPU::new();
    cpu.registers.set_hl(0x12F0);
    cpu.registers.set_bc(0x0120);
    cpu.alu_operation(AluOp::AddLsb(Registers16Bit::HL, Registers16Bit::BC));
    assert_eq!(cpu.registers.get_l(), 0x10);
    assert!(cpu.registers.get_carry_flag());
    cpu.alu_operation(AluOp::AddMsb(Registers16Bit::HL, Registers16Bit::BC));
    assert_eq!(cpu.registers.get_hl(), 0x1410);
}

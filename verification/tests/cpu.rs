use yaemulator::bus::{Bus, MmioContext};
use yaemulator::cpu::CPU;
use yaemulator::instructions::interrupt::InterruptType;
use yaemulator::memory::{WRAM_ADDRESS, WRAM_SIZE};
use yaemulator::microcode::{AluOp, MCycleOp, MicroOp, VectorAddress};
use yaemulator::registers::{Registers8Bit, Registers16Bit};
use yaemulator::types::Address;

#[test]
fn cpu_new_8bit_registers() {
    let cpu = CPU::new();
    assert_eq!(cpu.registers.get_a(), 0);
    assert_eq!(cpu.registers.get_f(), 0);
    assert_eq!(cpu.registers.get_b(), 0);
    assert_eq!(cpu.registers.get_c(), 0);
    assert_eq!(cpu.registers.get_d(), 0);
    assert_eq!(cpu.registers.get_e(), 0);
    assert_eq!(cpu.registers.get_h(), 0);
    assert_eq!(cpu.registers.get_l(), 0);
}

#[test]
fn cpu_new_16bit_registers() {
    let cpu = CPU::new();
    assert_eq!(cpu.registers.get_af(), 0);
    assert_eq!(cpu.registers.get_bc(), 0);
    assert_eq!(cpu.registers.get_de(), 0);
    assert_eq!(cpu.registers.get_hl(), 0);
    assert_eq!(cpu.registers.get_sp(), (WRAM_ADDRESS + WRAM_SIZE - 1) as u16);
    assert_eq!(cpu.registers.get_pc(), 0);
}

#[test]
fn cpu_new_16_8bit_registers() {
    let cpu = CPU::new();
    assert_eq!(cpu.registers.get_a(), 0);
    assert_eq!(cpu.registers.get_f(), 0);
    assert_eq!(cpu.registers.get_b(), 0);
    assert_eq!(cpu.registers.get_c(), 0);
    assert_eq!(cpu.registers.get_d(), 0);
    assert_eq!(cpu.registers.get_e(), 0);
    assert_eq!(cpu.registers.get_h(), 0);
    assert_eq!(cpu.registers.get_l(), 0);
    assert_eq!(cpu.registers.get_af(), 0);
    assert_eq!(cpu.registers.get_bc(), 0);
    assert_eq!(cpu.registers.get_de(), 0);
    assert_eq!(cpu.registers.get_hl(), 0);
    assert_eq!(cpu.registers.get_sp(), (WRAM_ADDRESS + WRAM_SIZE - 1) as u16);
    assert_eq!(cpu.registers.get_pc(), 0);
}

#[test]
fn cpu_push_n_pop() {
    let mut cpu = CPU::new();
    let mut bus = Bus::new();
    let mut ctx = MmioContext::new();
    let start_sp = cpu.registers.get_sp();
    let test_value: u8 = 0x81;
    cpu.push(&mut bus, &mut ctx, test_value);
    assert_eq!(cpu.registers.get_sp(), start_sp - 1);
    assert_eq!(bus.read(&ctx, Address(start_sp)), test_value);

    let popped_val = cpu.pop(&mut bus, &mut ctx);
    assert_eq!(cpu.registers.get_sp(), start_sp);
    assert_eq!(popped_val, test_value);
}

#[test]
fn cpu_fetch_next_reads_pc_and_moves_it() {
    let mut cpu = CPU::new();
    let bus = Bus::new();
    let mut ctx = MmioContext::new();
    cpu.registers.set_pc(0xC010);
    ctx.wram_mmio.write(Address(0xC010), 0x3E);
    assert_eq!(cpu.fetch_next(&bus, &mut ctx), 0x3E);
    assert_eq!(cpu.registers.get_pc(), 0xC011);
}

#[test]
fn cpu_fetch_from_empty_slot_reads_ff() {
    let mut cpu = CPU::new();
    let bus = Bus::new();
    let mut ctx = MmioContext::new();
    let (instruction, opcode) = cpu.fetch_and_decode(&bus, &mut ctx, false);
    assert_eq!(opcode, 0xFF);
    let instruction = instruction.unwrap();
    assert_eq!(instruction.name, "RST $38");
    assert_eq!(cpu.registers.get_pc(), 1);
}

#[test]
fn cpu_decode_uses_the_prefixed_table() {
    let i = CPU::decode(0x37, true).unwrap();
    assert_eq!(i.name, "SWAP A");
    let i = CPU::decode(0x37, false).unwrap();
    assert_eq!(i.name, "SCF");
    assert!(CPU::decode(0xD3, false).is_none());
    assert_eq!(CPU::decode(0x00, false).unwrap().name, "NOP");
    assert_eq!(CPU::decode(0x00, true).unwrap().name, "RLC B");
    assert_eq!(CPU::decode(0x47, true).unwrap().name, "BIT 0, A");
}

fn ctx_with_interrupts(ie: u8, iflag: u8) -> MmioContext {
    let mut bus = Bus::new();
    let mut ctx = MmioContext::new();
    bus.write(&mut ctx, Address(0xFFFF), ie);
    bus.write(&mut ctx, Address(0xFF0F), iflag);
    ctx
}

#[test]
fn cpu_interrupt_needs_ime() {
    let mut cpu = CPU::new();
    let ctx = ctx_with_interrupts(0x1F, 0x1F);
    assert!(cpu.interrupt(ctx.cpu_mmio.interrupt_registers()).is_none());
}

#[test]
fn cpu_interrupt_picks_lowest_pending_bit() {
    let mut cpu = CPU::new();
    cpu.ime = true;
    let ctx = ctx_with_interrupts(0x1C, 0x16);
    let routine = cpu.interrupt(ctx.cpu_mmio.interrupt_registers()).unwrap();
    assert_eq!(routine.name, "Interrupt - Timer");
    assert_eq!(routine.micro_ops[4], MCycleOp::End(MicroOp::JumpVector(VectorAddress::Timer)));

    let ctx = ctx_with_interrupts(0x1F, 0x1F);
    let routine = cpu.interrupt(ctx.cpu_mmio.interrupt_registers()).unwrap();
    assert_eq!(routine.name, "Interrupt - VBlank");

    let ctx = ctx_with_interrupts(0x0F, 0x10);
    assert!(cpu.interrupt(ctx.cpu_mmio.interrupt_registers()).is_none());
}

#[test]
fn cpu_serves_an_interrupt_through_its_routine() {
    let mut cpu = CPU::new();
    let mut bus = Bus::new();
    let mut ctx = ctx_with_interrupts(0x01, 0x01);
    cpu.ime = true;
    cpu.registers.set_pc(0x1234);
    // The first M-cycle ends the (empty) instruction and loads the VBlank routine.
    for _ in 0..4 {
        cpu.tick(&mut bus, &mut ctx);
    }
    assert_eq!(cpu.instruction.as_ref().unwrap().name, "Interrupt - VBlank");
    assert_eq!(cpu.micro_code_index, 0);
    // Five more M-cycles run the routine: PC is pushed, high byte first, and the vector is
    // taken.
    for _ in 0..20 {
        cpu.tick(&mut bus, &mut ctx);
    }
    assert_eq!(cpu.registers.get_pc(), 0x0040);
    assert_eq!(cpu.registers.get_sp(), 0xDFFD);
    assert_eq!(bus.read(&ctx, Address(0xDFFE)), 0x12);
    assert_eq!(bus.read(&ctx, Address(0xDFFD)), 0x34);
    let routine = InterruptType::VBlank.instruction();
    assert_eq!(routine.cycles, 5);
}

#[test]
fn cpu_tick_counts_t_cycles() {
    let mut cpu = CPU::new();
    let mut bus = Bus::new();
    let mut ctx = MmioContext::new();
    cpu.tick(&mut bus, &mut ctx);
    assert_eq!(cpu.micro_code_t_cycle, 1);
    assert_eq!(cpu.registers.get_pc(), 0);
    cpu.tick(&mut bus, &mut ctx);
    cpu.tick(&mut bus, &mut ctx);
    cpu.tick(&mut bus, &mut ctx);
    assert_eq!(cpu.micro_code_t_cycle, 0);
    // With nothing to run and no interrupt, the CPU fetched the next byte.
    assert_eq!(cpu.registers.get_pc(), 1);
}

#[test]
fn cpu_alu_operation_adds() {
    let mut cpu = CPU::new();
    cpu.registers.set_a(0x3A);
    cpu.registers.set_b(0xC6);
    cpu.alu_operation(AluOp::Add(Registers8Bit::A, Registers8Bit::B));
    assert_eq!(cpu.registers.get_a(), 0x00);
    assert!(cpu.registers.get_zero_flag());
    assert!(cpu.registers.get_half_carry_flag());
    assert!(cpu.registers.get_carry_flag());
    assert!(!cpu.registers.get_negative_flag());
}

#[test]
fn cpu_load_leaves_the_cpu_as_it_is() {
    let mut cpu = CPU::new();
    cpu.load(&vec![1, 2, 3]);
    assert_eq!(cpu.registers.get_pc(), 0);
    assert_eq!(cpu.registers.get_word(Registers16Bit::SP), 0xDFFF);
}

/// A CPU whose program starts at 0xC000 in work RAM.
fn cpu_with_program(program: &[u8]) -> (CPU, Bus, MmioContext) {
    let mut cpu = CPU::new();
    let mut bus = Bus::new();
    let mut ctx = MmioContext::new();
    for (i, b) in program.iter().enumerate() {
        bus.write(&mut ctx, Address(0xC000 + i as u16), *b);
    }
    cpu.registers.set_pc(0xC000);
    (cpu, bus, ctx)
}

fn run(cpu: &mut CPU, bus: &mut Bus, ctx: &mut MmioContext, t_cycles: usize) {
    for _ in 0..t_cycles {
        cpu.tick(bus, ctx);
    }
}

#[test]
fn cpu_push_then_pop_moves_a_pair() {
    // LD BC, 0x1234; PUSH BC; POP DE
    let (mut cpu, mut bus, mut ctx) = cpu_with_program(&[0x01, 0x34, 0x12, 0xC5, 0xD1]);
    run(&mut cpu, &mut bus, &mut ctx, 4 + 12 + 16 + 12);
    assert_eq!(cpu.registers.get_de(), 0x1234);
    assert_eq!(cpu.registers.get_sp(), 0xDFFF);
    assert_eq!(bus.read(&ctx, Address(0xDFFE)), 0x12);
    assert_eq!(bus.read(&ctx, Address(0xDFFD)), 0x34);
}

#[test]
fn cpu_jr_nz_adds_the_offset_when_taken() {
    let (mut cpu, mut bus, mut ctx) = cpu_with_program(&[0x20, 0x05]);
    run(&mut cpu, &mut bus, &mut ctx, 4 + 12);
    // The jump lands on 0xC007, whose opcode was fetched in the last M-cycle.
    assert_eq!(cpu.registers.get_pc(), 0xC008);
    let (mut cpu, mut bus, mut ctx) = cpu_with_program(&[0x20, 0x05]);
    cpu.registers.set_zero_flag(true);
    run(&mut cpu, &mut bus, &mut ctx, 4 + 8);
    assert_eq!(cpu.registers.get_pc(), 0xC003);
}

#[test]
fn cpu_bit_0_a_tests_a() {
    let (mut cpu, mut bus, mut ctx) = cpu_with_program(&[0xCB, 0x47]);
    cpu.registers.set_a(0x01);
    cpu.registers.set_c(0x00);
    run(&mut cpu, &mut bus, &mut ctx, 4 + 8);
    assert!(!cpu.registers.get_zero_flag());
    assert!(cpu.registers.get_half_carry_flag());
    let (mut cpu, mut bus, mut ctx) = cpu_with_program(&[0xCB, 0x47]);
    cpu.registers.set_a(0x00);
    cpu.registers.set_c(0x01);
    run(&mut cpu, &mut bus, &mut ctx, 4 + 8);
    assert!(cpu.registers.get_zero_flag());
}

#[test]
fn cpu_rrc_hl_rotates_right() {
    let (mut cpu, mut bus, mut ctx) = cpu_with_program(&[0xCB, 0x0E]);
    bus.write(&mut ctx, Address(0xC100), 0x11);
    cpu.registers.set_hl(0xC100);
    run(&mut cpu, &mut bus, &mut ctx, 4 + 4 * 5);
    assert_eq!(bus.read(&ctx, Address(0xC100)), 0x88);
    assert!(cpu.registers.get_carry_flag());
    assert!(!cpu.registers.get_zero_flag());
}

#[test]
fn cpu_add_a_hl_runs_the_addition() {
    // ADD A, [HL]
    let (mut cpu, mut bus, mut ctx) = cpu_with_program(&[0x86]);
    bus.write(&mut ctx, Address(0xC100), 0x08);
    cpu.registers.set_hl(0xC100);
    cpu.registers.set_a(0x08);
    run(&mut cpu, &mut bus, &mut ctx, 4 + 8);
    assert_eq!(cpu.registers.get_a(), 0x10);
    assert!(cpu.registers.get_half_carry_flag());
}

#[test]
fn cpu_daa_adjusts_a_sum_to_bcd() {
    // LD A, 0x45; ADD A, 0x38; DAA
    let (mut cpu, mut bus, mut ctx) = cpu_with_program(&[0x3E, 0x45, 0xC6, 0x38, 0x27]);
    run(&mut cpu, &mut bus, &mut ctx, 4 + 8 + 8 + 4);
    assert_eq!(cpu.registers.get_a(), 0x83);
    assert!(!cpu.registers.get_carry_flag());
    let mut cpu = CPU::new();
    cpu.registers.set_a(0x9A);
    cpu.alu_operation(AluOp::Daa);
    assert_eq!(cpu.registers.get_a(), 0x00);
    assert_eq!(cpu.registers.get_f(), 0x90);
}

use yaemulator::registers::{Flags, FlagBits, Registers, Registers8Bit, Registers16Bit};

#[test]
fn registers_new_hold_the_post_boot_values() {
    let r = Registers::new();
    assert_eq!(r.get_a(), 0x01);
    assert_eq!(r.get_f(), 0xB0);
    assert_eq!(r.get_c(), 0x13);
    assert_eq!(r.get_sp(), 0xFFFE);
    assert_eq!(r.get_pc(), 0x0100);
}

#[test]
fn register_pairs_join_their_bytes() {
    let mut r = Registers::cleared(0);
    r.set_bc(0x1234);
    assert_eq!(r.get_b(), 0x12);
    assert_eq!(r.get_c(), 0x34);
    r.set_h(0xAB);
    r.set_l(0xCD);
    assert_eq!(r.get_hl(), 0xABCD);
    assert_eq!(r.get_word(Registers16Bit::HL), 0xABCD);
    r.set_word(Registers16Bit::WZ, 0xBEEF);
    assert_eq!(r.get_byte(Registers8Bit::W), 0xBE);
    assert_eq!(r.get_byte(Registers8Bit::Z), 0xEF);
}

#[test]
fn flag_register_keeps_only_its_high_nibble() {
    let mut r = Registers::cleared(0);
    r.set_f(0xFF);
    assert_eq!(r.get_f(), 0xF0);
    r.set_af(0x12FF);
    assert_eq!(r.get_af(), 0x12F0);
    r.set_byte(Registers8Bit::F, 0x5A);
    assert_eq!(r.get_f(), 0x50);
}

#[test]
fn flags_set_and_read() {
    let mut r = Registers::cleared(0);
    r.set_carry_flag(true);
    r.set_zero_flag(true);
    assert_eq!(r.get_f(), 0x90);
    assert!(r.get_carry_flag() && r.get_zero_flag());
    r.set_flags(Flags::new(false, true, true, false));
    assert_eq!(r.get_f(), 0x60);
    let f = r.get_flags();
    assert!(!f.z() && f.n() && f.h() && !f.c());
    assert_eq!(FlagBits::H.mask(), 0x20);
}

#[test]
fn carry_helpers() {
    assert!(Flags::add_carry(0xF0, 0x10, false));
    assert!(!Flags::add_carry(0xEF, 0x10, false));
    assert!(Flags::add_carry(0xEF, 0x10, true));
    assert!(Flags::add_half_carry(0x0F, 0x01, false));
    assert!(Flags::sub_carry(0x00, 0x01, false));
    assert!(Flags::sub_half_carry(0x10, 0x01, false));
}

#[test]
fn pc_steps() {
    let mut r = Registers::cleared(0);
    r.set_pc(0x00FF);
    assert_eq!(r.get_and_inc_pc(), 0x00FF);
    assert_eq!(r.inc_pc(), 0x0101);
    assert_eq!(r.get_pc_as_address().0, 0x0101);
}

#[test]
fn sp_and_pc_byte_access() {
    let mut r = Registers::cleared(0x1234);
    assert_eq!(r.get_sp_msb(), 0x12);
    assert_eq!(r.get_sp_lsb(), 0x34);
    r.set_sp_msb(0xAB);
    assert_eq!(r.get_sp(), 0xAB34);
    r.set_sp_lsb(0xCD);
    assert_eq!(r.get_sp(), 0xABCD);
    r.set_pc(0x8001);
    assert_eq!(r.get_pc_msb(), 0x80);
    assert_eq!(r.get_pc_lsb(), 0x01);
    r.set_pc_lsb(0x7F);
    r.set_pc_msb(0x12);
    assert_eq!(r.get_pc(), 0x127F);
}

#[test]
fn word_halves_recombine_to_the_word() {
    let mut r = Registers::cleared(0x1234);
    r.set_pc(0xBEEF);
    r.set_bc(0x0102);
    for reg in [
        Registers16Bit::AF,
        Registers16Bit::BC,
        Registers16Bit::DE,
        Registers16Bit::HL,
        Registers16Bit::WZ,
        Registers16Bit::SP,
        Registers16Bit::PC,
    ] {
        let word = ((r.get_word_msb(reg) as u16) << 8) | r.get_word_lsb(reg) as u16;
        assert_eq!(word, r.get_word(reg));
    }
}

#[test]
fn f_low_nibble_always_reads_zero() {
    let mut r = Registers::new();
    assert_eq!(r.get_f() & 0x0F, 0);
    r.set_f(0xFF);
    assert_eq!(r.get_f(), 0xF0);
    r.set_af(0x12FF);
    assert_eq!(r.get_f(), 0xF0);
    r.set_word_lsb(Registers16Bit::AF, 0x3F);
    assert_eq!(r.get_f(), 0x30);
    r.set_carry_flag(false);
    assert_eq!(r.get_f() & 0x0F, 0);
}

use yaemulator::cartridge::controller::CartridgeControllerType;
use yaemulator::cartridge::header::RomHeader;
use yaemulator::cartridge::new_license_code::NewLicenseCode;
use yaemulator::cartridge::{Cartridge, Mbc1, ROM_BANK_SIZE, RAM_BANK_SIZE};
use yaemulator::types::Address;

/// A ROM image of `banks` banks whose header has the given type and size codes; each bank
/// starts with its own number.
fn rom_image(cart_type: u8, rom_code: u8, ram_code: u8, banks: usize) -> Vec<u8> {
    let mut rom = vec![0u8; banks * ROM_BANK_SIZE];
    for b in 0..banks {
        rom[b * ROM_BANK_SIZE] = b as u8;
    }
    let title = b"MBC1 TEST";
    for (i, c) in title.iter().enumerate() {
        rom[0x134 + i] = *c;
    }
    rom[0x147] = cart_type;
    rom[0x148] = rom_code;
    rom[0x149] = ram_code;
    rom[0x14B] = 0x33;
    rom[0x144] = b'0';
    rom[0x145] = b'1';
    rom[0x14C] = 2;
    rom[0x14D] = 0xAB;
    rom[0x14E] = 0x12;
    rom[0x14F] = 0x34;
    rom
}

#[test]
fn test_new() {
    let cart = Cartridge::new(rom_image(0x03, 0x06, 0x02, 128), "mbc1_rom_banks.gb".to_string());
    assert_eq!(cart.header().rom_banks() * ROM_BANK_SIZE, 2 * 1024 * 1024);
    assert_eq!(cart.header().ram_banks() * RAM_BANK_SIZE, 8 * 1024);
    assert_eq!(cart.cart_type(), CartridgeControllerType::Mbc1RamBattery);
}

#[test]
fn test_rom_bank() {
    let mut cart = Cartridge::new(rom_image(0x01, 0x06, 0x00, 128), "rom.gb".to_string());
    assert_eq!(cart.rom_bank(), 1);
    cart.write(Address(0x2000), 0x03);
    assert_eq!(cart.rom_bank(), 3);
    cart.write(Address(0x3FFF), 0xE5);
    assert_eq!(cart.rom_bank(), 5);
    // A zero bank number selects the next bank, in either mode.
    cart.write(Address(0x2000), 0x00);
    assert_eq!(cart.rom_bank(), 1);
    cart.write(Address(0x2000), 0x05);
    // Advanced mode: the 2-bit register selects the group of 32 banks.
    cart.write(Address(0x6000), 0x01);
    cart.write(Address(0x4000), 0x01);
    assert_eq!(cart.rom_bank(), 0x25);
    cart.write(Address(0x2000), 0x00);
    assert_eq!(cart.rom_bank(), 0x21);
}

#[test]
fn test_ram_bank() {
    let mut cart = Cartridge::new(rom_image(0x03, 0x06, 0x03, 128), "ram.gb".to_string());
    assert_eq!(cart.ram_bank(), 0);
    cart.write(Address(0x4000), 0x02);
    assert_eq!(cart.ram_bank(), 2);
    cart.write(Address(0x5FFF), 0xFF);
    assert_eq!(cart.ram_bank(), 3);
}

#[test]
fn cartridge_reads_rom_bytes() {
    let mut cart = Cartridge::new(rom_image(0x01, 0x06, 0x00, 128), "rom.gb".to_string());
    assert_eq!(cart.read(Address(0x0147)), 0x01);
    // Simple mode: bank 0 below 0x4000, the selected bank above.
    assert_eq!(cart.read(Address(0x0000)), 0);
    assert_eq!(cart.read(Address(0x4000)), 1);
    cart.write(Address(0x2000), 0x07);
    assert_eq!(cart.read(Address(0x4000)), 7);
    cart.write(Address(0x2000), 0x00);
    assert_eq!(cart.read(Address(0x4000)), 1);
    cart.write(Address(0x6000), 0x01);
    cart.write(Address(0x4000), 0x01);
    // Advanced mode: bank group 1 moves both windows to banks 0x20 and 0x21.
    assert_eq!(cart.read(Address(0x0000)), 0x20);
    assert_eq!(cart.read(Address(0x4000)), 0x21);
    cart.write(Address(0x2000), 0x03);
    assert_eq!(cart.read(Address(0x4000)), 0x23);
    assert!(cart.can_read(Address(0x0000)));
    assert!(cart.can_read(Address(0x7FFF)));
}

#[test]
fn cartridge_header_fields() {
    let cart = Cartridge::new(rom_image(0x03, 0x06, 0x02, 128), "hdr.gb".to_string());
    assert_eq!(cart.title().as_str(), "MBC1 TEST\0\0\0\0\0\0\0");
    let header = cart.header();
    assert_eq!(header.old_license_code(), 0x33);
    assert_eq!(header.new_license_code(), Some(NewLicenseCode::NintendoRnD));
    assert_eq!(header.rom_version(), 2);
    assert_eq!(header.rom_checksum(), 0xAB);
    assert_eq!(header.global_checksum(), 0x1234);
    assert_eq!(header.raw_header().len(), 0x50);
}

#[test]
fn header_rejects_unknown_size_codes() {
    let mut raw = vec![0u8; 0x50];
    raw[0x48] = 0x09;
    assert!(!RomHeader::is_supported(&raw));
    raw[0x48] = 0x52;
    assert!(RomHeader::is_supported(&raw));
    raw[0x49] = 0x01;
    assert!(!RomHeader::is_supported(&raw));
}

#[test]
fn header_bank_counts() {
    assert_eq!(RomHeader::rom_banks_from_byte(0), 2);
    assert_eq!(RomHeader::rom_banks_from_byte(8), 512);
    assert_eq!(RomHeader::rom_banks_from_byte(0x53), 80);
    assert_eq!(RomHeader::ram_banks_from_byte(0), 0);
    assert_eq!(RomHeader::ram_banks_from_byte(4), 16);
    assert_eq!(RomHeader::ram_banks_from_byte(5), 8);
}

#[test]
fn controller_type_codes_round_trip() {
    for code in 0u8..=255 {
        let t = CartridgeControllerType::from(code);
        if t != CartridgeControllerType::Unknown {
            assert_eq!(t.code(), code);
        }
    }
    assert_eq!(CartridgeControllerType::from(0x13), CartridgeControllerType::Mbc3RamBattery);
    assert_eq!(CartridgeControllerType::from(0x04), CartridgeControllerType::Unknown);
}

#[test]
fn new_license_codes_round_trip() {
    assert_eq!(NewLicenseCode::from_code(0x3031), Some(NewLicenseCode::NintendoRnD));
    assert_eq!(NewLicenseCode::NintendoRnD.code(), 0x3031);
    assert_eq!(NewLicenseCode::from_code(0x0000), None);
}

#[test]
fn mbc1_bank_registers() {
    let mut m = Mbc1::new(rom_image(0x01, 0x06, 0x00, 128));
    assert_eq!(m.rom_bank(), 1);
    m.write(Address(0x2000), 0x1F);
    assert_eq!(m.rom_bank(), 0x1F);
    m.write(Address(0x4000), 0x03);
    assert_eq!(m.ram_bank(), 3);
    assert_eq!(m.rom_bank_high(), 0);
    m.write(Address(0x6000), 0x01);
    assert_eq!(m.rom_bank_high(), 0x60);
}

#[test]
fn controller_type_names() {
    assert_eq!(CartridgeControllerType::Mbc1RamBattery.name(), "MBC1+RAM+BATTERY");
    assert_eq!(CartridgeControllerType::Mbc1Ram.name(), "MBC1+RAM");
    assert_eq!(CartridgeControllerType::HuC3.name_string(), "HuC3".to_string());
    let name: &str = CartridgeControllerType::Mbc5.into();
    assert_eq!(name, "MBC5");
    assert_eq!(<&str>::from(CartridgeControllerType::RomOnly), "ROM-Only");
}

//! The cartridge: its header and the MBC1 controller that banks its ROM.
pub mod controller;
pub mod header;
pub mod new_license_code;

use vstd::prelude::*;
use crate::types::{Address, Byte};
use crate::cartridge::header::{RomHeader, header_supported, HEADER_START_ADDRESS, HEADER_END_ADDRESS, copy_range};
use crate::cartridge::controller::{CartridgeControllerType, controller_type_of, RomController};

verus! {

pub const CART_ROM_START_ADDRESS: u16 = 0x0000;
pub const CART_ROM_END_ADDRESS: u16 = 0x7FFF;
pub const CART_RAM_START_ADDRESS: u16 = 0xA000;
pub const CART_RAM_END_ADDRESS: u16 = 0xBFFF;
pub const ROM_BANK_SIZE: usize = 0x4000;
pub const RAM_BANK_SIZE: usize = 0x2000;
pub const MBC1_RAM_ENABLE_VALUE: u8 = 0xA;

/// How MBC1 uses its 2-bit register.
#[derive(Copy, Clone, Debug, PartialEq, Eq, Structural)]
pub enum Mbc1BankMode {
    Simple,
    Advanced,
}

/// The banking state of an MBC1 cartridge.
pub struct Mbc1View {
    pub rom_bank: u8,
    pub ram_bank: u8,
    pub ram_enabled: bool,
    pub banking_mode: Mbc1BankMode,
    pub rom: Seq<u8>,
    pub ram: Seq<u8>,
}

impl Mbc1View {
    /// The index into the ROM that a read of a cartridge ROM address gives: 0x0000 ..= 0x3FFF
    /// read the bank `mbc1_rom_bank_high` names, 0x4000 ..= 0x7FFF the bank `mbc1_rom_bank`
    /// names.
    pub open spec fn rom_index(self, address: u16) -> int {
        if address <= 0x3FFF {
            mbc1_rom_bank_high(self) * 0x4000 + address
        } else {
            mbc1_rom_bank(self) * 0x4000 + (address - 0x4000)
        }
    }

    /// Whether a ROM address reads a byte the ROM has.
    pub open spec fn can_read(self, address: u16) -> bool {
        address <= CART_ROM_END_ADDRESS && self.rom_index(address) < self.rom.len()
    }

    /// The controller after a write to its registers.
    pub open spec fn written(self, address: u16, data: u8) -> Mbc1View {
        if address <= 0x1FFF {
            Mbc1View { ram_enabled: data & 0x0F == MBC1_RAM_ENABLE_VALUE, ..self }
        } else if address <= 0x3FFF {
            Mbc1View { rom_bank: data & 0x1F, ..self }
        } else if address <= 0x5FFF {
            Mbc1View { ram_bank: data & 0x03, ..self }
        } else {
            Mbc1View {
                banking_mode: if data & 0x01 != 0 { Mbc1BankMode::Advanced } else { Mbc1BankMode::Simple },
                ..self
            }
        }
    }
}

/// The ROM bank an MBC1 addresses at 0x0000 ..= 0x3FFF: in advanced mode the first bank of
/// the 0x20-bank group that the 2-bit register selects, else bank 0.
pub open spec fn mbc1_rom_bank_high(m: Mbc1View) -> u8 {
    match m.banking_mode {
        Mbc1BankMode::Simple => 0,
        Mbc1BankMode::Advanced => ((m.ram_bank % 4) * 32) as u8,
    }
}

/// The ROM bank an MBC1 addresses at 0x4000 ..= 0x7FFF: the low 5 bits of the bank register
/// above `mbc1_rom_bank_high`, and the next bank where those 5 bits are 0.
pub open spec fn mbc1_rom_bank(m: Mbc1View) -> u8 {
    let base = m.rom_bank % 32;
    (mbc1_rom_bank_high(m) + base + if base == 0 { 1int } else { 0int }) as u8
}

proof fn lemma_mbc1_register_bits(d: u8)
    by (bit_vector)
    ensures
        (d & 0x1F) % 32 == d % 32,
        (d & 0x03) % 4 == d % 4,
        (d & 0x01 != 0) == (d % 2 == 1),
        (d & 0x0F == 0x0A) == (d % 16 == 10),
{
}

/// Law: MBC1 banking as the cartridge's registers select it. Writing `rom_sel` to 0x2000, then
/// `group_sel` to 0x4000 and `mode_sel` to 0x6000, makes 0x4000 ..= 0x7FFF read the ROM bank
/// named by the low 5 bits of `rom_sel` (bank 1 where they are 0), and 0x0000 ..= 0x3FFF read
/// bank 0. With bit 0 of `mode_sel` set (advanced mode) both areas move up by 0x20 banks for
/// each step of the low 2 bits of `group_sel`. Writing to 0x0000 ..= 0x1FFF enables the RAM
/// exactly when the low nibble is 0xA. A bank is 0x4000 bytes.
pub proof fn lemma_mbc1_banking(m: Mbc1View, rom_sel: u8, group_sel: u8, mode_sel: u8, offset: u16, enable_at: u16, enable: u8)
    requires
        offset < 0x4000,
        enable_at <= 0x1FFF,
    ensures
        ({
            let w = m.written(0x2000, rom_sel).written(0x4000, group_sel).written(0x6000, mode_sel);
            let group = if mode_sel % 2 == 1 { (group_sel % 4) * 0x20 } else { 0 };
            let n = rom_sel % 32;
            &&& w.rom_index(offset) == group * 0x4000 + offset
            &&& w.rom_index((0x4000 + offset) as u16) == (group + if n == 0 { 1 } else { n }) * 0x4000 + offset
        }),
        m.written(enable_at, enable).ram_enabled == (enable % 16 == 10),
{
    lemma_mbc1_register_bits(rom_sel);
    lemma_mbc1_register_bits(group_sel);
    lemma_mbc1_register_bits(mode_sel);
    lemma_mbc1_register_bits(enable);
}

/// The MBC1 memory bank controller with the ROM it banks.
#[derive(Clone, Debug)]
pub struct Mbc1 {
    header: RomHeader,
    rom_bank: u8,
    ram_bank: u8,
    ram_enabled: bool,
    rom: Vec<Byte>,
    ram: Vec<Byte>,
    banking_mode: Mbc1BankMode,
}

impl View for Mbc1 {
    type V = Mbc1View;

    closed spec fn view(&self) -> Mbc1View {
        Mbc1View {
            rom_bank: self.rom_bank,
            ram_bank: self.ram_bank,
            ram_enabled: self.ram_enabled,
            banking_mode: self.banking_mode,
            rom: self.rom@,
            ram: self.ram@,
        }
    }
}

/// A ROM image that `Mbc1::new` can load: it holds a header the emulator reads.
pub open spec fn rom_supported(rom: Seq<u8>) -> bool {
    rom.len() > HEADER_END_ADDRESS && header_supported(rom.subrange(HEADER_START_ADDRESS as int, HEADER_END_ADDRESS + 1))
}

impl Mbc1 {
    /// The header of the ROM.
    pub closed spec fn spec_header(&self) -> RomHeader {
        self.header
    }

    /// Loads a ROM image: bank 1 selected, RAM disabled, simple banking mode, and
    /// 8 KiB of zeroed RAM per RAM bank the header's RAM size code names.
    pub fn new(rom: Vec<Byte>) -> (r: Self)
        requires
            rom_supported(rom@),
        ensures
            r@.rom == rom@,
            r@.rom_bank == 1,
            r@.ram_bank == 0,
            !r@.ram_enabled,
            r@.banking_mode == Mbc1BankMode::Simple,
            r.spec_header().wf(),
            r.spec_header().raw() == rom@.subrange(HEADER_START_ADDRESS as int, HEADER_END_ADDRESS + 1),
            r@.ram.len() == RAM_BANK_SIZE * crate::cartridge::header::ram_banks_of(
                rom@[HEADER_START_ADDRESS + crate::cartridge::header::RAM_SIZE_OFFSET],
            ),
            r@.ram == Seq::new(r@.ram.len(), |i: int| 0u8),
    {
        let header_bytes = copy_range(rom.as_slice(), HEADER_START_ADDRESS, HEADER_END_ADDRESS + 1);
        let header = RomHeader::new(header_bytes.as_slice());
        let ram_len = RAM_BANK_SIZE * header.ram_banks();
        let mut ram: Vec<Byte> = Vec::new();
        let mut i: usize = 0;
        while i < ram_len
            invariant
                i <= ram_len,
                ram@ =~= Seq::new(i as nat, |k: int| 0u8),
            decreases ram_len - i,
        {
            ram.push(0);
            i = i + 1;
        }
        Self { rom_bank: 1, ram_bank: 0, ram_enabled: false, rom, ram, banking_mode: Mbc1BankMode::Simple, header }
    }

    /// The addressed RAM bank, 0 ..= 3.
    pub fn ram_bank(&self) -> (r: u8)
        ensures
            r == self@.ram_bank & 0x03,
    {
        self.ram_bank & 0x03
    }

    /// The first ROM bank of the group the 2-bit register selects in advanced mode
    /// (0x00, 0x20, 0x40 or 0x60), 0 in simple mode.
    pub fn rom_bank_high(&self) -> (r: u8)
        ensures
            r == mbc1_rom_bank_high(self@),
            r <= 0x60 && r % 32 == 0,
    {
        match self.banking_mode {
            Mbc1BankMode::Simple => 0,
            Mbc1BankMode::Advanced => {
                let rb = self.ram_bank;
                let b = self.ram_bank();
                assert(b == rb % 4) by (bit_vector)
                    requires
                        b == rb & 0x03,
                ;
                b * 32
            },
        }
    }

    /// The addressed ROM bank, 0 ..= 0x7F: the low 5 bits of the bank register above
    /// `rom_bank_high`; where those 5 bits are 0 the next bank is selected (a group base of
    /// 0x20 with them 0 selects 0x21).
    pub fn rom_bank(&self) -> (r: u8)
        ensures
            r == mbc1_rom_bank(self@),
            r <= 0x7F && r % 32 != 0,
    {
        let rb = self.rom_bank;
        let base_bank = self.rom_bank & 0x1F;
        assert(base_bank == rb % 32) by (bit_vector)
            requires
                base_bank == rb & 0x1F,
        ;
        let high_bank = self.rom_bank_high();
        let adj: u8 = if base_bank == 0 { 1 } else { 0 };
        high_bank + base_bank + adj
    }

    fn rom_index(&self, address: Address) -> (r: u64)
        ensures
            r == self@.rom_index(address.0),
    {
        if address.0 <= 0x3FFF {
            (self.rom_bank_high() as u64) * 0x4000 + address.0 as u64
        } else {
            (self.rom_bank() as u64) * 0x4000 + (address.0 - 0x4000) as u64
        }
    }

    /// Whether a ROM address reads a byte the ROM has.
    pub fn can_read(&self, address: Address) -> (r: bool)
        ensures
            r == self@.can_read(address.0),
    {
        if address.0 > CART_ROM_END_ADDRESS {
            return false;
        }
        let index = self.rom_index(address);
        index < self.rom.len() as u64
    }

    /// Reads a ROM byte through the current banking.
    pub fn read(&self, address: Address) -> (r: Byte)
        requires
            self@.can_read(address.0),
        ensures
            r == self@.rom[self@.rom_index(address.0)],
    {
        let index = self.rom_index(address);
        assert(index < self.rom@.len());
        self.rom[index as usize]
    }

    /// Writes a controller register: RAM enable, ROM bank, RAM bank or banking mode.
    pub fn write(&mut self, address: Address, data: Byte)
        requires
            address.0 <= CART_ROM_END_ADDRESS,
        ensures
            final(self)@ == old(self)@.written(address.0, data),
            final(self).spec_header() == old(self).spec_header(),
    {
        if address.0 <= 0x1FFF {
            self.ram_enabled = (data & 0x0F) == MBC1_RAM_ENABLE_VALUE;
        } else if address.0 <= 0x3FFF {
            self.rom_bank = data & 0x1F;
        } else if address.0 <= 0x5FFF {
            self.ram_bank = data & 0x03;
        } else {
            self.banking_mode = if (data & 0x01) != 0 { Mbc1BankMode::Advanced } else { Mbc1BankMode::Simple };
        }
    }

    pub fn header(&self) -> (r: &RomHeader)
        ensures
            *r == self.spec_header(),
    {
        &self.header
    }
}

/// The cartridge controllers the emulator has.
impl RomController for Mbc1 {
    open spec fn controller_header(&self) -> RomHeader {
        self.spec_header()
    }

    fn header(&self) -> (r: &RomHeader) {
        Mbc1::header(self)
    }
}

#[derive(Clone, Debug)]
pub enum CartridgeController {
    Mbc1(Mbc1),
}

/// A loaded cartridge.
pub struct Cartridge {
    rom: CartridgeController,
    rom_path: String,
}

impl View for Cartridge {
    type V = Mbc1View;

    closed spec fn view(&self) -> Mbc1View {
        match self.rom {
            CartridgeController::Mbc1(m) => m@,
        }
    }
}

impl Cartridge {
    /// The header of the cartridge.
    pub closed spec fn spec_header(&self) -> RomHeader {
        match self.rom {
            CartridgeController::Mbc1(m) => m.spec_header(),
        }
    }

    /// The path the ROM was loaded from.
    pub closed spec fn spec_path(&self) -> Seq<char> {
        self.rom_path@
    }

    /// A cartridge from its ROM image and the path it was read from.
    pub fn new(rom: Vec<Byte>, rom_path: String) -> (r: Self)
        requires
            rom_supported(rom@),
        ensures
            r@.rom == rom@,
            r@.rom_bank == 1 && r@.ram_bank == 0 && !r@.ram_enabled && r@.banking_mode == Mbc1BankMode::Simple,
            r.spec_header().wf(),
            r.spec_header().raw() == rom@.subrange(HEADER_START_ADDRESS as int, HEADER_END_ADDRESS + 1),
            r.spec_path() == rom_path@,
    {
        Self { rom: CartridgeController::Mbc1(Mbc1::new(rom)), rom_path }
    }

    /// The path the ROM was read from.
    pub fn rom_path(&self) -> (r: &String)
        ensures
            r@ == self.spec_path(),
    {
        &self.rom_path
    }

    pub fn header(&self) -> (r: &RomHeader)
        ensures
            *r == self.spec_header(),
    {
        match &self.rom {
            CartridgeController::Mbc1(m) => m.header(),
        }
    }

    pub fn title(&self) -> (r: &String)
        requires
            self.spec_header().wf(),
        ensures
            r@ == vstd::utf8::decode_utf8(crate::cartridge::header::title_bytes(self.spec_header().raw())),
    {
        self.header().title()
    }

    pub fn cart_type(&self) -> (r: CartridgeControllerType)
        requires
            self.spec_header().wf(),
        ensures
            r == controller_type_of(self.spec_header().raw()[crate::cartridge::header::CARTRIDGE_TYPE_OFFSET as int]),
    {
        self.header().rom_controller_type()
    }

    /// The ROM bank addressed at 0x4000 ..= 0x7FFF.
    pub fn rom_bank(&self) -> (r: u16)
        ensures
            r == mbc1_rom_bank(self@),
    {
        match &self.rom {
            CartridgeController::Mbc1(m) => m.rom_bank() as u16,
        }
    }

    /// The addressed RAM bank.
    pub fn ram_bank(&self) -> (r: u16)
        ensures
            r == self@.ram_bank & 0x03,
    {
        match &self.rom {
            CartridgeController::Mbc1(m) => m.ram_bank() as u16,
        }
    }

    pub fn can_read(&self, address: Address) -> (r: bool)
        ensures
            r == self@.can_read(address.0),
    {
        match &self.rom {
            CartridgeController::Mbc1(m) => m.can_read(address),
        }
    }

    pub fn read(&self, address: Address) -> (r: Byte)
        requires
            self@.can_read(address.0),
        ensures
            r == self@.rom[self@.rom_index(address.0)],
    {
        match &self.rom {
            CartridgeController::Mbc1(m) => m.read(address),
        }
    }

    pub fn write(&mut self, address: Address, data: Byte)
        requires
            address.0 <= CART_ROM_END_ADDRESS,
        ensures
            final(self)@ == old(self)@.written(address.0, data),
            final(self).spec_header() == old(self).spec_header(),
            final(self).spec_path() == old(self).spec_path(),
    {
        match &mut self.rom {
            CartridgeController::Mbc1(m) => m.write(address, data),
        }
    }
}

} // verus!

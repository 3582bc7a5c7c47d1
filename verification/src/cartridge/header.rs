//! The cartridge header, 0x0100 ..= 0x014F of the ROM.
use vstd::prelude::*;
use vstd::utf8::{valid_utf8, decode_utf8};
use crate::types::Byte;
use crate::cartridge::controller::{CartridgeControllerType, controller_type_of};
use crate::cartridge::new_license_code::{NewLicenseCode, new_license_code_of};

verus! {

pub const HEADER_START_ADDRESS: usize = 0x0100;
pub const HEADER_END_ADDRESS: usize = 0x014F;
/// Bytes of the header, both ends included.
pub const HEADER_SIZE: usize = 0x50;

/// Offsets inside the header.
pub const TITLE_OFFSET: usize = 0x34;
pub const TITLE_END_OFFSET: usize = 0x43;
pub const NEW_LICENSE_HIGH_OFFSET: usize = 0x44;
pub const NEW_LICENSE_LOW_OFFSET: usize = 0x45;
pub const CARTRIDGE_TYPE_OFFSET: usize = 0x47;
pub const ROM_SIZE_OFFSET: usize = 0x48;
pub const RAM_SIZE_OFFSET: usize = 0x49;
pub const OLD_LICENSE_OFFSET: usize = 0x4B;
pub const ROM_VERSION_OFFSET: usize = 0x4C;
pub const ROM_CHECKSUM_OFFSET: usize = 0x4D;
pub const GLOBAL_CHECKSUM_HIGH_OFFSET: usize = 0x4E;
pub const GLOBAL_CHECKSUM_LOW_OFFSET: usize = 0x4F;

/// The ROM size codes the emulator knows.
pub open spec fn rom_size_code_supported(byte: u8) -> bool {
    byte <= 8 || (0x52 <= byte <= 0x54)
}

/// ROM banks of 16 KiB that a ROM size code stands for.
pub open spec fn rom_banks_of(byte: u8) -> usize {
    match byte {
        0 => 2,
        1 => 4,
        2 => 8,
        3 => 16,
        4 => 32,
        5 => 64,
        6 => 128,
        7 => 256,
        8 => 512,
        0x52 => 72,
        0x53 => 80,
        _ => 96,
    }
}

/// Law: a ROM size code up to 8 stands for a ROM of 32 KiB shifted left by the code, in 16 KiB
/// banks: code 0 is two banks and each step of the code doubles the ROM. Codes 0x52 to 0x54
/// add to 64 banks twice 2 to the power of their low nibble: 72, 80 and 96 banks.
pub proof fn lemma_rom_size_code(byte: u8)
    requires
        rom_size_code_supported(byte),
    ensures
        byte <= 8 ==> rom_banks_of(byte) * 0x4000 == 0x8000 * vstd::arithmetic::power2::pow2(byte as nat),
        byte <= 8 ==> rom_banks_of(byte) == 2 * vstd::arithmetic::power2::pow2(byte as nat),
        byte < 8 ==> rom_banks_of((byte + 1) as u8) == 2 * rom_banks_of(byte),
        byte >= 0x52 ==> rom_banks_of(byte) == 64 + 2 * vstd::arithmetic::power2::pow2((byte - 0x50) as nat),
{
    vstd::arithmetic::power2::lemma2_to64();
}

/// Law: the RAM size codes stand for no RAM (code 0), 8 KiB (code 2), 32 KiB (code 3), 128 KiB
/// (code 4) and 64 KiB (code 5), in banks of 8 KiB: each of codes 3 and 4 quadruples the RAM
/// of the code before, and code 5 is half of code 4.
pub proof fn lemma_ram_size_code(byte: u8)
    requires
        byte == 0 || (2 <= byte <= 5),
    ensures
        byte == 0 <==> ram_banks_of(byte) == 0,
        ram_banks_of(2) == 1,
        byte == 3 || byte == 4 ==> ram_banks_of(byte) == 4 * ram_banks_of((byte - 1) as u8),
        byte == 5 ==> 2 * ram_banks_of(byte) == ram_banks_of(4),
{
}

/// The RAM size codes the emulator knows.
pub open spec fn ram_size_code_supported(byte: u8) -> bool {
    byte == 0 || (2 <= byte <= 5)
}

/// RAM banks of 8 KiB that a RAM size code stands for.
pub open spec fn ram_banks_of(byte: u8) -> usize {
    match byte {
        0 => 0,
        2 => 1,
        3 => 4,
        4 => 16,
        _ => 8,
    }
}

/// The 16 title bytes of a header.
pub open spec fn title_bytes(raw: Seq<u8>) -> Seq<u8> {
    raw.subrange(TITLE_OFFSET as int, TITLE_END_OFFSET as int + 1)
}

/// A header the emulator can read: 0x50 bytes, known ROM and RAM size codes, and a title
/// that is UTF-8.
pub open spec fn header_supported(raw: Seq<u8>) -> bool {
    &&& raw.len() == HEADER_SIZE
    &&& rom_size_code_supported(raw[ROM_SIZE_OFFSET as int])
    &&& ram_size_code_supported(raw[RAM_SIZE_OFFSET as int])
    &&& valid_utf8(title_bytes(raw))
}

/// `String::from_utf8` of std: the string exactly when the bytes are UTF-8.
#[verifier::external_body]
fn string_from_utf8(bytes: Vec<u8>) -> (r: Option<String>)
    ensures
        r is Some <==> valid_utf8(bytes@),
        r matches Some(s) ==> s@ == decode_utf8(bytes@),
{
    String::from_utf8(bytes).ok()
}

/// The parsed cartridge header.
#[derive(Clone, Debug)]
pub struct RomHeader {
    raw_header: Vec<u8>,
    rom_banks: usize,
    ram_banks: usize,
    old_license_code: u8,
    new_license_code: u16,
    rom_version: Byte,
    title: String,
    rom_checksum: u8,
    global_checksum: u16,
}

impl RomHeader {
    /// The header bytes it was read from.
    pub closed spec fn raw(&self) -> Seq<u8> {
        self.raw_header@
    }

    /// The fields agree with the header bytes.
    pub closed spec fn wf(&self) -> bool {
        let raw = self.raw_header@;
        &&& header_supported(raw)
        &&& self.rom_banks == rom_banks_of(raw[ROM_SIZE_OFFSET as int])
        &&& self.ram_banks == ram_banks_of(raw[RAM_SIZE_OFFSET as int])
        &&& self.old_license_code == raw[OLD_LICENSE_OFFSET as int]
        &&& self.new_license_code == raw[NEW_LICENSE_HIGH_OFFSET as int] * 256 + raw[NEW_LICENSE_LOW_OFFSET as int]
        &&& self.rom_version == raw[ROM_VERSION_OFFSET as int]
        &&& self.title@ == decode_utf8(title_bytes(raw))
        &&& self.rom_checksum == raw[ROM_CHECKSUM_OFFSET as int]
        &&& self.global_checksum == raw[GLOBAL_CHECKSUM_HIGH_OFFSET as int] * 256 + raw[GLOBAL_CHECKSUM_LOW_OFFSET as int]
    }

    /// Whether `new` can read these header bytes.
    pub fn is_supported(header_slice: &[Byte]) -> (r: bool)
        ensures
            r == header_supported(header_slice@),
    {
        if header_slice.len() != HEADER_SIZE {
            return false;
        }
        let rom = header_slice[ROM_SIZE_OFFSET];
        let ram = header_slice[RAM_SIZE_OFFSET];
        if !(rom <= 8 || (0x52 <= rom && rom <= 0x54)) || !(ram == 0 || (2 <= ram && ram <= 5)) {
            return false;
        }
        let title = copy_range(header_slice, TITLE_OFFSET, TITLE_END_OFFSET + 1);
        string_from_utf8(title).is_some()
    }

    /// Reads the header from its 0x50 bytes.
    pub fn new(header_slice: &[Byte]) -> (r: Self)
        requires
            header_supported(header_slice@),
        ensures
            r.wf(),
            r.raw() == header_slice@,
    {
        let title_result = string_from_utf8(copy_range(header_slice, TITLE_OFFSET, TITLE_END_OFFSET + 1));
        let title = match title_result {
            Some(t) => t,
            None => String::new(),
        };
        let old_license_code = header_slice[OLD_LICENSE_OFFSET];
        let new_license_high_byte = header_slice[NEW_LICENSE_HIGH_OFFSET];
        let new_license_low_byte = header_slice[NEW_LICENSE_LOW_OFFSET];
        let new_license_code = new_license_high_byte as u16 * 256 + new_license_low_byte as u16;
        let rom_version = header_slice[ROM_VERSION_OFFSET];
        let rom_checksum = header_slice[ROM_CHECKSUM_OFFSET];
        let global_checksum_high = header_slice[GLOBAL_CHECKSUM_HIGH_OFFSET];
        let global_checksum_low = header_slice[GLOBAL_CHECKSUM_LOW_OFFSET];
        let global_checksum = global_checksum_high as u16 * 256 + global_checksum_low as u16;
        let raw_header = copy_range(header_slice, 0, HEADER_SIZE);
        proof { assert(raw_header@ =~= header_slice@); }
        Self {
            raw_header,
            rom_banks: Self::rom_banks_from_byte(header_slice[ROM_SIZE_OFFSET]),
            ram_banks: Self::ram_banks_from_byte(header_slice[RAM_SIZE_OFFSET]),
            old_license_code,
            new_license_code,
            rom_version,
            title,
            rom_checksum,
            global_checksum,
        }
    }

    /// ROM banks of 16 KiB for a ROM size code: `2 << code` up to 8; 72, 80, 96 for 0x52 ..= 0x54.
    pub fn rom_banks_from_byte(byte: Byte) -> (r: usize)
        requires
            rom_size_code_supported(byte),
        ensures
            r == rom_banks_of(byte),
    {
        match byte {
            0 => 2,
            1 => 4,
            2 => 8,
            3 => 16,
            4 => 32,
            5 => 64,
            6 => 128,
            7 => 256,
            8 => 512,
            0x52 => 72,
            0x53 => 80,
            _ => 96,
        }
    }

    /// RAM banks of 8 KiB for a RAM size code.
    pub fn ram_banks_from_byte(byte: Byte) -> (r: usize)
        requires
            ram_size_code_supported(byte),
        ensures
            r == ram_banks_of(byte),
    {
        match byte {
            0 => 0,
            2 => 1,
            3 => 4,
            4 => 16,
            _ => 8,
        }
    }

    pub fn raw_header(&self) -> (r: &Vec<u8>)
        ensures
            r@ == self.raw(),
    {
        &self.raw_header
    }

    pub fn rom_banks(&self) -> (r: usize)
        requires
            self.wf(),
        ensures
            r == rom_banks_of(self.raw()[ROM_SIZE_OFFSET as int]),
    {
        self.rom_banks
    }

    pub fn ram_banks(&self) -> (r: usize)
        requires
            self.wf(),
        ensures
            r == ram_banks_of(self.raw()[RAM_SIZE_OFFSET as int]),
    {
        self.ram_banks
    }

    /// The old licensee code byte.
    pub fn old_license_code(&self) -> (r: u8)
        requires
            self.wf(),
        ensures
            r == self.raw()[OLD_LICENSE_OFFSET as int],
    {
        self.old_license_code
    }

    /// The publisher of the new licensee code, if it is a listed one.
    pub fn new_license_code(&self) -> (r: Option<NewLicenseCode>)
        requires
            self.wf(),
        ensures
            r == new_license_code_of(
                (self.raw()[NEW_LICENSE_HIGH_OFFSET as int] * 256 + self.raw()[NEW_LICENSE_LOW_OFFSET as int]) as u16,
            ),
    {
        NewLicenseCode::from_code(self.new_license_code)
    }

    pub fn rom_version(&self) -> (r: Byte)
        requires
            self.wf(),
        ensures
            r == self.raw()[ROM_VERSION_OFFSET as int],
    {
        self.rom_version
    }

    pub fn rom_checksum(&self) -> (r: u8)
        requires
            self.wf(),
        ensures
            r == self.raw()[ROM_CHECKSUM_OFFSET as int],
    {
        self.rom_checksum
    }

    /// The big-endian global checksum.
    pub fn global_checksum(&self) -> (r: u16)
        requires
            self.wf(),
        ensures
            r == self.raw()[GLOBAL_CHECKSUM_HIGH_OFFSET as int] * 256 + self.raw()[GLOBAL_CHECKSUM_LOW_OFFSET as int],
    {
        self.global_checksum
    }

    /// The title, decoded from its 16 bytes.
    pub fn title(&self) -> (r: &String)
        requires
            self.wf(),
        ensures
            r@ == decode_utf8(title_bytes(self.raw())),
    {
        &self.title
    }

    /// The cartridge kind byte 0x147 names.
    pub fn rom_controller_type(&self) -> (r: CartridgeControllerType)
        requires
            self.wf(),
        ensures
            r == controller_type_of(self.raw()[CARTRIDGE_TYPE_OFFSET as int]),
    {
        CartridgeControllerType::from(self.raw_header[CARTRIDGE_TYPE_OFFSET])
    }
}

/// A copy of the bytes `start .. end` of a slice.
pub fn copy_range(s: &[u8], start: usize, end: usize) -> (r: Vec<u8>)
    requires
        start <= end <= s@.len(),
    ensures
        r@ == s@.subrange(start as int, end as int),
{
    let mut r: Vec<u8> = Vec::new();
    let mut i: usize = start;
    while i < end
        invariant
            start <= i <= end <= s@.len(),
            r@ == s@.subrange(start as int, i as int),
        decreases end - i,
    {
        r.push(s[i]);
        i = i + 1;
    }
    r
}

} // verus!

//! Cartridge controllers: the kind byte of the header and the MBC1 bank controller.
use vstd::prelude::*;

use crate::cartridge::header::RomHeader;

verus! {

/// A cartridge controller: it holds the ROM and its header.
pub trait RomController {
    /// The header of the ROM the controller holds.
    spec fn controller_header(&self) -> RomHeader;

    fn header(&self) -> (r: &RomHeader)
        ensures
            *r == self.controller_header(),
    ;
}

/// The cartridge kinds that byte 0x147 of the header names.
#[derive(Copy, Clone, Debug, PartialEq, Eq, Structural)]
pub enum CartridgeControllerType {
    RomOnly,
    Mbc1,
    Mbc1Ram,
    Mbc1RamBattery,
    Mbc2,
    Mbc2Battery,
    RomRam,
    RomRamBattery,
    Mmm01,
    Mmm01Ram,
    Mmm01RamBattery,
    Mbc3TimerBattery,
    Mbc3TimerRamBattery,
    Mbc3,
    Mbc3Ram,
    Mbc3RamBattery,
    Mbc5,
    Mbc5Ram,
    Mbc5RamBattery,
    Mbc5Rumble,
    Mbc5RumbleRam,
    Mbc5RumbleRamBattery,
    Mbc6,
    Mbc7SensorRumbleRamBattery,
    PocketCamera,
    BandaiTama5,
    HuC3,
    HuC1RamBattery,
    Unknown,
}

/// The header byte that names a cartridge kind; `Unknown` stands for 0xEE.
pub open spec fn controller_type_code(t: CartridgeControllerType) -> u8 {
    match t {
        CartridgeControllerType::RomOnly => 0x00,
        CartridgeControllerType::Mbc1 => 0x01,
        CartridgeControllerType::Mbc1Ram => 0x02,
        CartridgeControllerType::Mbc1RamBattery => 0x03,
        CartridgeControllerType::Mbc2 => 0x05,
        CartridgeControllerType::Mbc2Battery => 0x06,
        CartridgeControllerType::RomRam => 0x08,
        CartridgeControllerType::RomRamBattery => 0x09,
        CartridgeControllerType::Mmm01 => 0x0B,
        CartridgeControllerType::Mmm01Ram => 0x0C,
        CartridgeControllerType::Mmm01RamBattery => 0x0D,
        CartridgeControllerType::Mbc3TimerBattery => 0x0F,
        CartridgeControllerType::Mbc3TimerRamBattery => 0x10,
        CartridgeControllerType::Mbc3 => 0x11,
        CartridgeControllerType::Mbc3Ram => 0x12,
        CartridgeControllerType::Mbc3RamBattery => 0x13,
        CartridgeControllerType::Mbc5 => 0x19,
        CartridgeControllerType::Mbc5Ram => 0x1A,
        CartridgeControllerType::Mbc5RamBattery => 0x1B,
        CartridgeControllerType::Mbc5Rumble => 0x1C,
        CartridgeControllerType::Mbc5RumbleRam => 0x1D,
        CartridgeControllerType::Mbc5RumbleRamBattery => 0x1E,
        CartridgeControllerType::Mbc6 => 0x20,
        CartridgeControllerType::Mbc7SensorRumbleRamBattery => 0x22,
        CartridgeControllerType::PocketCamera => 0xFC,
        CartridgeControllerType::BandaiTama5 => 0xFD,
        CartridgeControllerType::HuC3 => 0xFE,
        CartridgeControllerType::HuC1RamBattery => 0xFF,
        CartridgeControllerType::Unknown => 0xEE,
    }
}

/// The cartridge kind a header byte names; bytes that name none give `Unknown`.
pub open spec fn controller_type_of(value: u8) -> CartridgeControllerType {
    match value {
        0x00 => CartridgeControllerType::RomOnly,
        0x01 => CartridgeControllerType::Mbc1,
        0x02 => CartridgeControllerType::Mbc1Ram,
        0x03 => CartridgeControllerType::Mbc1RamBattery,
        0x05 => CartridgeControllerType::Mbc2,
        0x06 => CartridgeControllerType::Mbc2Battery,
        0x08 => CartridgeControllerType::RomRam,
        0x09 => CartridgeControllerType::RomRamBattery,
        0x0B => CartridgeControllerType::Mmm01,
        0x0C => CartridgeControllerType::Mmm01Ram,
        0x0D => CartridgeControllerType::Mmm01RamBattery,
        0x0F => CartridgeControllerType::Mbc3TimerBattery,
        0x10 => CartridgeControllerType::Mbc3TimerRamBattery,
        0x11 => CartridgeControllerType::Mbc3,
        0x12 => CartridgeControllerType::Mbc3Ram,
        0x13 => CartridgeControllerType::Mbc3RamBattery,
        0x19 => CartridgeControllerType::Mbc5,
        0x1A => CartridgeControllerType::Mbc5Ram,
        0x1B => CartridgeControllerType::Mbc5RamBattery,
        0x1C => CartridgeControllerType::Mbc5Rumble,
        0x1D => CartridgeControllerType::Mbc5RumbleRam,
        0x1E => CartridgeControllerType::Mbc5RumbleRamBattery,
        0x20 => CartridgeControllerType::Mbc6,
        0x22 => CartridgeControllerType::Mbc7SensorRumbleRamBattery,
        0xFC => CartridgeControllerType::PocketCamera,
        0xFD => CartridgeControllerType::BandaiTama5,
        0xFE => CartridgeControllerType::HuC3,
        0xFF => CartridgeControllerType::HuC1RamBattery,
        _ => CartridgeControllerType::Unknown,
    }
}

/// The printable name of a cartridge kind.
pub open spec fn controller_type_name(t: CartridgeControllerType) -> &'static str {
    match t {
        CartridgeControllerType::RomOnly => "ROM-Only",
        CartridgeControllerType::Mbc1 => "MBC1",
        CartridgeControllerType::Mbc1Ram => "MBC1+RAM",
        CartridgeControllerType::Mbc1RamBattery => "MBC1+RAM+BATTERY",
        CartridgeControllerType::Mbc2 => "MBC2",
        CartridgeControllerType::Mbc2Battery => "MBC2+BATTERY",
        CartridgeControllerType::RomRam => "ROM+RAM",
        CartridgeControllerType::RomRamBattery => "ROM+RAM+BATTERY",
        CartridgeControllerType::Mmm01 => "MMM01",
        CartridgeControllerType::Mmm01Ram => "MMM01+RAM",
        CartridgeControllerType::Mmm01RamBattery => "MMM01+RAM+BATTERY",
        CartridgeControllerType::Mbc3TimerBattery => "MBC3+TIMER+BATTERY",
        CartridgeControllerType::Mbc3TimerRamBattery => "MBC3+TIMER+RAM+BATTERY",
        CartridgeControllerType::Mbc3 => "MBC3",
        CartridgeControllerType::Mbc3Ram => "MBC3+RAM",
        CartridgeControllerType::Mbc3RamBattery => "MBC3+RAM+BATTERY",
        CartridgeControllerType::Mbc5 => "MBC5",
        CartridgeControllerType::Mbc5Ram => "MBC5+RAM",
        CartridgeControllerType::Mbc5RamBattery => "MBC5+RAM+BATTERY",
        CartridgeControllerType::Mbc5Rumble => "MBC5+RUMBLE",
        CartridgeControllerType::Mbc5RumbleRam => "MBC5+RUMBLE+RAM",
        CartridgeControllerType::Mbc5RumbleRamBattery => "MBC5+RUMBLE+RAM+BATTERY",
        CartridgeControllerType::Mbc6 => "MBC6",
        CartridgeControllerType::Mbc7SensorRumbleRamBattery => "MBC7+SENSOR+RUMBLE+RAM+BATTERY",
        CartridgeControllerType::PocketCamera => "POCKET-CAMERA",
        CartridgeControllerType::BandaiTama5 => "BANDAI-TAMA5",
        CartridgeControllerType::HuC3 => "HuC3",
        CartridgeControllerType::HuC1RamBattery => "HuC1+RAM+BATTERY",
        CartridgeControllerType::Unknown => "Unknown",
    }
}

impl CartridgeControllerType {
    /// The header byte of this kind.
    pub fn code(self) -> (r: u8)
        ensures
            r == controller_type_code(self),
    {
        match self {
            CartridgeControllerType::RomOnly => 0x00,
            CartridgeControllerType::Mbc1 => 0x01,
            CartridgeControllerType::Mbc1Ram => 0x02,
            CartridgeControllerType::Mbc1RamBattery => 0x03,
            CartridgeControllerType::Mbc2 => 0x05,
            CartridgeControllerType::Mbc2Battery => 0x06,
            CartridgeControllerType::RomRam => 0x08,
            CartridgeControllerType::RomRamBattery => 0x09,
            CartridgeControllerType::Mmm01 => 0x0B,
            CartridgeControllerType::Mmm01Ram => 0x0C,
            CartridgeControllerType::Mmm01RamBattery => 0x0D,
            CartridgeControllerType::Mbc3TimerBattery => 0x0F,
            CartridgeControllerType::Mbc3TimerRamBattery => 0x10,
            CartridgeControllerType::Mbc3 => 0x11,
            CartridgeControllerType::Mbc3Ram => 0x12,
            CartridgeControllerType::Mbc3RamBattery => 0x13,
            CartridgeControllerType::Mbc5 => 0x19,
            CartridgeControllerType::Mbc5Ram => 0x1A,
            CartridgeControllerType::Mbc5RamBattery => 0x1B,
            CartridgeControllerType::Mbc5Rumble => 0x1C,
            CartridgeControllerType::Mbc5RumbleRam => 0x1D,
            CartridgeControllerType::Mbc5RumbleRamBattery => 0x1E,
            CartridgeControllerType::Mbc6 => 0x20,
            CartridgeControllerType::Mbc7SensorRumbleRamBattery => 0x22,
            CartridgeControllerType::PocketCamera => 0xFC,
            CartridgeControllerType::BandaiTama5 => 0xFD,
            CartridgeControllerType::HuC3 => 0xFE,
            CartridgeControllerType::HuC1RamBattery => 0xFF,
            CartridgeControllerType::Unknown => 0xEE,
        }
    }

    /// The printable name of this kind.
    pub fn name(self) -> (r: &'static str)
        ensures
            r == controller_type_name(self),
    {
        match self {
            CartridgeControllerType::RomOnly => "ROM-Only",
            CartridgeControllerType::Mbc1 => "MBC1",
            CartridgeControllerType::Mbc1Ram => "MBC1+RAM",
            CartridgeControllerType::Mbc1RamBattery => "MBC1+RAM+BATTERY",
            CartridgeControllerType::Mbc2 => "MBC2",
            CartridgeControllerType::Mbc2Battery => "MBC2+BATTERY",
            CartridgeControllerType::RomRam => "ROM+RAM",
            CartridgeControllerType::RomRamBattery => "ROM+RAM+BATTERY",
            CartridgeControllerType::Mmm01 => "MMM01",
            CartridgeControllerType::Mmm01Ram => "MMM01+RAM",
            CartridgeControllerType::Mmm01RamBattery => "MMM01+RAM+BATTERY",
            CartridgeControllerType::Mbc3TimerBattery => "MBC3+TIMER+BATTERY",
            CartridgeControllerType::Mbc3TimerRamBattery => "MBC3+TIMER+RAM+BATTERY",
            CartridgeControllerType::Mbc3 => "MBC3",
            CartridgeControllerType::Mbc3Ram => "MBC3+RAM",
            CartridgeControllerType::Mbc3RamBattery => "MBC3+RAM+BATTERY",
            CartridgeControllerType::Mbc5 => "MBC5",
            CartridgeControllerType::Mbc5Ram => "MBC5+RAM",
            CartridgeControllerType::Mbc5RamBattery => "MBC5+RAM+BATTERY",
            CartridgeControllerType::Mbc5Rumble => "MBC5+RUMBLE",
            CartridgeControllerType::Mbc5RumbleRam => "MBC5+RUMBLE+RAM",
            CartridgeControllerType::Mbc5RumbleRamBattery => "MBC5+RUMBLE+RAM+BATTERY",
            CartridgeControllerType::Mbc6 => "MBC6",
            CartridgeControllerType::Mbc7SensorRumbleRamBattery => "MBC7+SENSOR+RUMBLE+RAM+BATTERY",
            CartridgeControllerType::PocketCamera => "POCKET-CAMERA",
            CartridgeControllerType::BandaiTama5 => "BANDAI-TAMA5",
            CartridgeControllerType::HuC3 => "HuC3",
            CartridgeControllerType::HuC1RamBattery => "HuC1+RAM+BATTERY",
            CartridgeControllerType::Unknown => "Unknown",
        }
    }
}

impl CartridgeControllerType {
    /// The printable name of this kind, as an owned string.
    pub fn name_string(self) -> (r: String)
        ensures
            r@ == controller_type_name(self)@,
    {
        self.name().to_owned()
    }
}

impl From<u8> for CartridgeControllerType {
    fn from(value: u8) -> (r: Self) {
        match value {
            0x00 => CartridgeControllerType::RomOnly,
            0x01 => CartridgeControllerType::Mbc1,
            0x02 => CartridgeControllerType::Mbc1Ram,
            0x03 => CartridgeControllerType::Mbc1RamBattery,
            0x05 => CartridgeControllerType::Mbc2,
            0x06 => CartridgeControllerType::Mbc2Battery,
            0x08 => CartridgeControllerType::RomRam,
            0x09 => CartridgeControllerType::RomRamBattery,
            0x0B => CartridgeControllerType::Mmm01,
            0x0C => CartridgeControllerType::Mmm01Ram,
            0x0D => CartridgeControllerType::Mmm01RamBattery,
            0x0F => CartridgeControllerType::Mbc3TimerBattery,
            0x10 => CartridgeControllerType::Mbc3TimerRamBattery,
            0x11 => CartridgeControllerType::Mbc3,
            0x12 => CartridgeControllerType::Mbc3Ram,
            0x13 => CartridgeControllerType::Mbc3RamBattery,
            0x19 => CartridgeControllerType::Mbc5,
            0x1A => CartridgeControllerType::Mbc5Ram,
            0x1B => CartridgeControllerType::Mbc5RamBattery,
            0x1C => CartridgeControllerType::Mbc5Rumble,
            0x1D => CartridgeControllerType::Mbc5RumbleRam,
            0x1E => CartridgeControllerType::Mbc5RumbleRamBattery,
            0x20 => CartridgeControllerType::Mbc6,
            0x22 => CartridgeControllerType::Mbc7SensorRumbleRamBattery,
            0xFC => CartridgeControllerType::PocketCamera,
            0xFD => CartridgeControllerType::BandaiTama5,
            0xFE => CartridgeControllerType::HuC3,
            0xFF => CartridgeControllerType::HuC1RamBattery,
            _ => CartridgeControllerType::Unknown,
        }
    }
}

impl vstd::std_specs::convert::FromSpecImpl<u8> for CartridgeControllerType {
    open spec fn obeys_from_spec() -> bool {
        true
    }

    open spec fn from_spec(value: u8) -> CartridgeControllerType {
        controller_type_of(value)
    }
}

impl From<CartridgeControllerType> for &'static str {
    fn from(value: CartridgeControllerType) -> (r: Self) {
        value.name()
    }
}

impl vstd::std_specs::convert::FromSpecImpl<CartridgeControllerType> for &'static str {
    open spec fn obeys_from_spec() -> bool {
        true
    }

    open spec fn from_spec(value: CartridgeControllerType) -> &'static str {
        controller_type_name(value)
    }
}

/// What a cartridge kind is made of, as its name says: its memory bank controller (0 none,
/// 1 MBC1, 2 MBC2, 3 MMM01, 4 MBC3, 5 MBC5, 6 MBC6, 7 MBC7, 8 the Pocket Camera, 9 the Bandai
/// TAMA5, 10 HuC3, 11 HuC1; -1 unknown) and whether it has RAM, a battery, a timer and a rumble
/// motor.
pub struct KindFeatures {
    pub mapper: int,
    pub ram: bool,
    pub battery: bool,
    pub timer: bool,
    pub rumble: bool,
}

/// The features of a cartridge kind.
pub open spec fn kind_features(t: CartridgeControllerType) -> KindFeatures {
    match t {
        CartridgeControllerType::RomOnly => KindFeatures { mapper: 0, ram: false, battery: false, timer: false, rumble: false },
        CartridgeControllerType::Mbc1 => KindFeatures { mapper: 1, ram: false, battery: false, timer: false, rumble: false },
        CartridgeControllerType::Mbc1Ram => KindFeatures { mapper: 1, ram: true, battery: false, timer: false, rumble: false },
        CartridgeControllerType::Mbc1RamBattery => KindFeatures { mapper: 1, ram: true, battery: true, timer: false, rumble: false },
        CartridgeControllerType::Mbc2 => KindFeatures { mapper: 2, ram: false, battery: false, timer: false, rumble: false },
        CartridgeControllerType::Mbc2Battery => KindFeatures { mapper: 2, ram: false, battery: true, timer: false, rumble: false },
        CartridgeControllerType::RomRam => KindFeatures { mapper: 0, ram: true, battery: false, timer: false, rumble: false },
        CartridgeControllerType::RomRamBattery => KindFeatures { mapper: 0, ram: true, battery: true, timer: false, rumble: false },
        CartridgeControllerType::Mmm01 => KindFeatures { mapper: 3, ram: false, battery: false, timer: false, rumble: false },
        CartridgeControllerType::Mmm01Ram => KindFeatures { mapper: 3, ram: true, battery: false, timer: false, rumble: false },
        CartridgeControllerType::Mmm01RamBattery => KindFeatures { mapper: 3, ram: true, battery: true, timer: false, rumble: false },
        CartridgeControllerType::Mbc3TimerBattery => KindFeatures { mapper: 4, ram: false, battery: true, timer: true, rumble: false },
        CartridgeControllerType::Mbc3TimerRamBattery => KindFeatures { mapper: 4, ram: true, battery: true, timer: true, rumble: false },
        CartridgeControllerType::Mbc3 => KindFeatures { mapper: 4, ram: false, battery: false, timer: false, rumble: false },
        CartridgeControllerType::Mbc3Ram => KindFeatures { mapper: 4, ram: true, battery: false, timer: false, rumble: false },
        CartridgeControllerType::Mbc3RamBattery => KindFeatures { mapper: 4, ram: true, battery: true, timer: false, rumble: false },
        CartridgeControllerType::Mbc5 => KindFeatures { mapper: 5, ram: false, battery: false, timer: false, rumble: false },
        CartridgeControllerType::Mbc5Ram => KindFeatures { mapper: 5, ram: true, battery: false, timer: false, rumble: false },
        CartridgeControllerType::Mbc5RamBattery => KindFeatures { mapper: 5, ram: true, battery: true, timer: false, rumble: false },
        CartridgeControllerType::Mbc5Rumble => KindFeatures { mapper: 5, ram: false, battery: false, timer: false, rumble: true },
        CartridgeControllerType::Mbc5RumbleRam => KindFeatures { mapper: 5, ram: true, battery: false, timer: false, rumble: true },
        CartridgeControllerType::Mbc5RumbleRamBattery => KindFeatures { mapper: 5, ram: true, battery: true, timer: false, rumble: true },
        CartridgeControllerType::Mbc6 => KindFeatures { mapper: 6, ram: false, battery: false, timer: false, rumble: false },
        CartridgeControllerType::Mbc7SensorRumbleRamBattery => KindFeatures { mapper: 7, ram: true, battery: true, timer: false, rumble: true },
        CartridgeControllerType::PocketCamera => KindFeatures { mapper: 8, ram: false, battery: false, timer: false, rumble: false },
        CartridgeControllerType::BandaiTama5 => KindFeatures { mapper: 9, ram: false, battery: false, timer: false, rumble: false },
        CartridgeControllerType::HuC3 => KindFeatures { mapper: 10, ram: false, battery: false, timer: false, rumble: false },
        CartridgeControllerType::HuC1RamBattery => KindFeatures { mapper: 11, ram: true, battery: true, timer: false, rumble: false },
        CartridgeControllerType::Unknown => KindFeatures { mapper: -1, ram: false, battery: false, timer: false, rumble: false },
    }
}

/// Law: two kinds with the same features are the same kind.
pub proof fn lemma_features_identify_kind(t1: CartridgeControllerType, t2: CartridgeControllerType)
    requires
        kind_features(t1) == kind_features(t2),
    ensures
        t1 == t2,
{
}

/// Law: the cartridge type byte lays the kinds out as Pan Docs does. 0x00 has no controller and
/// no RAM; 0x01 to 0x03 are MBC1, with RAM from 0x02 and a battery at 0x03; 0x05 and 0x06 are
/// MBC2, with a battery at 0x06; 0x08 and 0x09 have RAM and no controller, a battery at 0x09;
/// 0x0B to 0x0D are MMM01 as MBC1; 0x0F to 0x13 are MBC3, with a timer up to 0x10, RAM at 0x10,
/// 0x12 and 0x13 and a battery at 0x0F, 0x10 and 0x13; 0x19 to 0x1E are MBC5, with a rumble
/// motor from 0x1C and, in each group of three, no RAM, RAM, then RAM with a battery; 0x20 is
/// MBC6, 0x22 MBC7 with RAM, battery and rumble, 0xFC to 0xFF the Pocket Camera, TAMA5, HuC3
/// and HuC1 with RAM and battery; every other byte names no kind.
pub proof fn lemma_cartridge_type_layout(b: u8)
    ensures
        ({
            let f = kind_features(controller_type_of(b));
            &&& b == 0x00 ==> f.mapper == 0 && !f.ram && !f.battery
            &&& 0x01 <= b <= 0x03 ==> f.mapper == 1 && f.ram == (b >= 0x02) && f.battery == (b == 0x03)
                && !f.timer && !f.rumble
            &&& 0x05 <= b <= 0x06 ==> f.mapper == 2 && !f.ram && f.battery == (b == 0x06)
            &&& 0x08 <= b <= 0x09 ==> f.mapper == 0 && f.ram && f.battery == (b == 0x09)
            &&& 0x0B <= b <= 0x0D ==> f.mapper == 3 && f.ram == (b >= 0x0C) && f.battery == (b == 0x0D)
            &&& 0x0F <= b <= 0x13 ==> f.mapper == 4 && f.timer == (b <= 0x10)
                && f.ram == (b == 0x10 || b >= 0x12) && f.battery == (b <= 0x10 || b == 0x13)
            &&& 0x19 <= b <= 0x1E ==> f.mapper == 5 && f.rumble == (b >= 0x1C)
                && f.ram == ((b - 0x19) % 3 != 0) && f.battery == ((b - 0x19) % 3 == 2) && !f.timer
            &&& b == 0x20 ==> f.mapper == 6
            &&& b == 0x22 ==> f.mapper == 7 && f.ram && f.battery && f.rumble
            &&& 0xFC <= b ==> f.mapper == 8 + (b - 0xFC) && f.ram == (b == 0xFF) && f.battery == (b == 0xFF)
            &&& (b == 0x04 || b == 0x07 || b == 0x0A || b == 0x0E || (0x14 <= b <= 0x18) || b == 0x1F
                || b == 0x21 || (0x23 <= b <= 0xFB)) ==> f.mapper == -1
        }),
{
}

/// Law: the kind named by the header byte of a known kind is that kind.
pub proof fn lemma_controller_type_round_trip(t: CartridgeControllerType)
    requires
        t != CartridgeControllerType::Unknown,
    ensures
        controller_type_of(controller_type_code(t)) == t,
{
}

/// Law: a header byte that names a kind is the byte of that kind.
pub proof fn lemma_controller_code_round_trip(value: u8)
    requires
        controller_type_of(value) != CartridgeControllerType::Unknown,
    ensures
        controller_type_code(controller_type_of(value)) == value,
{
}

} // verus!

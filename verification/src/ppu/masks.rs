//! The bits of the LCD control and status registers, and the PPU modes.
use vstd::prelude::*;

verus! {

/// The bits of LCDC.
#[derive(Copy, Clone, Debug, PartialEq, Eq, Structural)]
pub enum LCDCMasks {
    BgWinEnabled,
    ObjEnabled,
    ObjSize,
    BgTileMapArea,
    BgWinTilesArea,
    WinEnabled,
    WinTileMapArea,
    LcdEnabled,
}

/// The position of an LCDC bit.
pub open spec fn lcdc_bit(m: LCDCMasks) -> u8 {
    match m {
        LCDCMasks::BgWinEnabled => 0,
        LCDCMasks::ObjEnabled => 1,
        LCDCMasks::ObjSize => 2,
        LCDCMasks::BgTileMapArea => 3,
        LCDCMasks::BgWinTilesArea => 4,
        LCDCMasks::WinEnabled => 5,
        LCDCMasks::WinTileMapArea => 6,
        LCDCMasks::LcdEnabled => 7,
    }
}

/// The mask of an LCDC bit.
pub open spec fn lcdc_mask(m: LCDCMasks) -> u8 {
    match m {
        LCDCMasks::BgWinEnabled => 0x01,
        LCDCMasks::ObjEnabled => 0x02,
        LCDCMasks::ObjSize => 0x04,
        LCDCMasks::BgTileMapArea => 0x08,
        LCDCMasks::BgWinTilesArea => 0x10,
        LCDCMasks::WinEnabled => 0x20,
        LCDCMasks::WinTileMapArea => 0x40,
        LCDCMasks::LcdEnabled => 0x80,
    }
}

impl LCDCMasks {
    pub fn mask(self) -> (r: u8)
        ensures
            r == lcdc_mask(self),
    {
        match self {
            LCDCMasks::BgWinEnabled => 0x01,
            LCDCMasks::ObjEnabled => 0x02,
            LCDCMasks::ObjSize => 0x04,
            LCDCMasks::BgTileMapArea => 0x08,
            LCDCMasks::BgWinTilesArea => 0x10,
            LCDCMasks::WinEnabled => 0x20,
            LCDCMasks::WinTileMapArea => 0x40,
            LCDCMasks::LcdEnabled => 0x80,
        }
    }

    /// The position of the bit, 0 for the least significant one.
    pub fn bit(self) -> (r: u8)
        ensures
            r == lcdc_bit(self),
    {
        match self {
            LCDCMasks::BgWinEnabled => 0,
            LCDCMasks::ObjEnabled => 1,
            LCDCMasks::ObjSize => 2,
            LCDCMasks::BgTileMapArea => 3,
            LCDCMasks::BgWinTilesArea => 4,
            LCDCMasks::WinEnabled => 5,
            LCDCMasks::WinTileMapArea => 6,
            LCDCMasks::LcdEnabled => 7,
        }
    }
}

/// The fields of STAT.
#[derive(Copy, Clone, Debug, PartialEq, Eq, Structural)]
pub enum LCDStatMasks {
    PPUMode,
    LYCeLY,
    Mode0Interrupt,
    Mode1Interrupt,
    Mode2Interrupt,
    LYCInterrupt,
}

/// The mask of a STAT field.
pub open spec fn lcd_stat_mask(m: LCDStatMasks) -> u8 {
    match m {
        LCDStatMasks::PPUMode => 0x03,
        LCDStatMasks::LYCeLY => 0x04,
        LCDStatMasks::Mode0Interrupt => 0x08,
        LCDStatMasks::Mode1Interrupt => 0x10,
        LCDStatMasks::Mode2Interrupt => 0x20,
        LCDStatMasks::LYCInterrupt => 0x40,
    }
}

impl LCDStatMasks {
    pub fn mask(self) -> (r: u8)
        ensures
            r == lcd_stat_mask(self),
    {
        match self {
            LCDStatMasks::PPUMode => 0x03,
            LCDStatMasks::LYCeLY => 0x04,
            LCDStatMasks::Mode0Interrupt => 0x08,
            LCDStatMasks::Mode1Interrupt => 0x10,
            LCDStatMasks::Mode2Interrupt => 0x20,
            LCDStatMasks::LYCInterrupt => 0x40,
        }
    }
}

/// What the PPU is doing, as STAT's two low bits show it.
#[derive(Copy, Clone, Debug, PartialEq, Eq, Structural)]
pub enum PPUMode {
    OAMScan,
    Drawing,
    HBlank,
    VBlank,
}

/// The STAT bits of a mode.
pub open spec fn ppu_mode_bits(m: PPUMode) -> u8 {
    match m {
        PPUMode::OAMScan => 2,
        PPUMode::Drawing => 3,
        PPUMode::HBlank => 0,
        PPUMode::VBlank => 1,
    }
}

impl PPUMode {
    /// The STAT bits of this mode.
    pub fn bits(self) -> (r: u8)
        ensures
            r == ppu_mode_bits(self),
    {
        match self {
            PPUMode::OAMScan => 2,
            PPUMode::Drawing => 3,
            PPUMode::HBlank => 0,
            PPUMode::VBlank => 1,
        }
    }
}

} // verus!

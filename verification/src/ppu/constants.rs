//! Timing, screen and memory-layout constants of the PPU.
use vstd::prelude::*;

verus! {

pub const LINE_DOTS: usize = 456;
pub const SCREEN_WIDTH: usize = 160;
pub const SCREEN_HEIGHT: usize = 144;
pub const SCREEN_PIXELS: usize = 23040;
pub const SCREEN_DOTS: usize = 65664;
pub const SCAN_OAM_DOTS: usize = 80;
pub const DRAW_LINE_MIN_DOTS: usize = 168;
pub const DRAW_LINE_MAX_DOTS: usize = 291;
pub const HBLANK_MIN_DOTS: usize = 85;
pub const HBLANK_MAX_DOTS: usize = 208;
pub const VBLANK_LINES: usize = 10;
pub const VBLANK_DOTS: usize = 4560;
pub const FRAME_LINES: usize = 154;
pub const FRAME_DOTS: usize = 70224;
/// Entries in object attribute memory.
pub const OAM_NUMBERS: usize = 40;
/// Objects a line shows at most.
pub const MAX_SPRITE_PER_LINE: usize = 10;
/// Tiles of a background map, 32 by 32.
pub const MAP_TILES: usize = 1024;
pub const MAP_ROW_TILES: usize = 32;
pub const MAP_LINES: usize = 32;
pub const MAP_ROW_PIXELS: usize = 256;
pub const MAP_HEIGHT_PIXELS: usize = 256;

pub const VRAM_BLOCK_0_ADDRESS: usize = 0x8000;
pub const VRAM_BLOCK_1_ADDRESS: usize = 0x8800;
pub const VRAM_BLOCK_2_ADDRESS: usize = 0x9000;
pub const BG_DATA_1_ADDRESS: usize = 0x9800;
pub const OAM_AREA_ADDRESS: usize = 0xFE00;
pub const IF_ADDRESS: u16 = 0xFF0F;
pub const LCDC_ADDRESS: u16 = 0xFF40;
pub const LCD_STAT_ADDRESS: u16 = 0xFF41;
pub const SCY_ADDRESS: u16 = 0xFF42;
pub const SCX_ADDRESS: u16 = 0xFF43;
pub const LY_ADDRESS: u16 = 0xFF44;

} // verus!

//! The bus: routes CPU and DMA reads and writes to the device mapped at each address.
use vstd::prelude::*;
use crate::types::{Address, Byte};
use crate::memory::{MemoryBlock, MemoryBlockView};
use crate::cpu_mmio::{CpuMmio, CpuMmioView, is_hram, HRAM_START_ADDRESS, HRAM_END_ADDRESS};
use crate::interrupt_registers::{is_interrupt_register, IE_ADDRESS, IF_ADDRESS};
use crate::cartridge::{Cartridge, Mbc1View, CART_ROM_END_ADDRESS, CART_RAM_START_ADDRESS, CART_RAM_END_ADDRESS};
use crate::ppu_mmio::{PpuMmio, PpuMmioView, is_vram, is_lcd_register, VRAM_START_ADDRESS, VRAM_END_ADDRESS, LCDC_ADDRESS, WX_ADDRESS};
use crate::apu::{ApuMmio, ApuMmioView};
use crate::dma::{DmaMmio, DmaMmioView, DMA_SOURCE_ADDRESS};

verus! {

pub const WRAM_START_ADDRESS: u16 = 0xC000;
pub const WRAM_END_ADDRESS: u16 = 0xDFFF;
pub const OAM_START_ADDRESS: u16 = 0xFE00;
pub const OAM_END_ADDRESS: u16 = 0xFE9F;

/// Whether an address is in work RAM.
pub open spec fn is_wram(address: u16) -> bool {
    WRAM_START_ADDRESS <= address <= WRAM_END_ADDRESS
}

/// Whether an address is in object attribute memory.
pub open spec fn is_oam(address: u16) -> bool {
    OAM_START_ADDRESS <= address <= OAM_END_ADDRESS
}

/// Whether an address is in the cartridge's ROM.
pub open spec fn is_cart_rom(address: u16) -> bool {
    address <= CART_ROM_END_ADDRESS
}

/// Whether an address is in the cartridge's RAM.
pub open spec fn is_cart_ram(address: u16) -> bool {
    CART_RAM_START_ADDRESS <= address <= CART_RAM_END_ADDRESS
}

/// The devices behind the bus.
pub struct MmioContext {
    pub cpu_mmio: CpuMmio,
    pub rom_mmio: Option<Cartridge>,
    pub ppu_mmio: PpuMmio,
    pub apu_mmio: ApuMmio,
    pub dma_mmio: DmaMmio,
    pub oam_mmio: MemoryBlock,
    pub wram_mmio: MemoryBlock,
}

/// What the bus sees of its devices, with the LCD and sound registers beside them.
pub struct MmioContextView {
    pub cpu: CpuMmioView,
    pub rom: Option<Mbc1View>,
    pub ppu: PpuMmioView,
    pub apu: ApuMmioView,
    pub dma: DmaMmioView,
    pub oam: MemoryBlockView,
    pub wram: MemoryBlockView,
}

impl MmioContextView {
    /// Each memory block covers exactly its range.
    pub open spec fn wf(self) -> bool {
        &&& self.cpu.wf()
        &&& self.ppu.wf()
        &&& self.oam.start == OAM_START_ADDRESS && self.oam.data.len() == 0xA0
        &&& self.wram.start == WRAM_START_ADDRESS && self.wram.data.len() == 0x2000
    }

    /// Whether the bus serves a read of an address: the cartridge's ROM (a byte the ROM
    /// has, when a cartridge is in), video RAM, the cartridge's RAM window, high RAM, IE, IF,
    /// the LCD registers, the DMA register, work RAM and OAM.
    pub open spec fn readable(self, address: u16) -> bool {
        ||| is_cart_rom(address) && (self.rom matches Some(c) ==> c.can_read(address))
        ||| is_vram(address) || is_lcd_register(address)
        ||| is_cart_ram(address)
        ||| is_hram(address)
        ||| is_interrupt_register(address)
        ||| address == DMA_SOURCE_ADDRESS
        ||| is_wram(address)
        ||| is_oam(address)
    }

    /// Whether the bus serves a write to an address: as for reads, but any address of the
    /// cartridge's ROM.
    pub open spec fn writable(self, address: u16) -> bool {
        ||| is_cart_rom(address)
        ||| is_vram(address) || is_lcd_register(address)
        ||| is_cart_ram(address)
        ||| is_hram(address)
        ||| is_interrupt_register(address)
        ||| address == DMA_SOURCE_ADDRESS
        ||| is_wram(address)
        ||| is_oam(address)
    }

    /// What a read of an address the bus serves gives; 0xFF from an empty cartridge slot and
    /// from the cartridge RAM window, whose RAM the controller keeps disabled.
    pub open spec fn read(self, address: u16) -> u8 {
        if is_cart_ram(address) {
            0xFF
        } else if is_vram(address) || is_lcd_register(address) {
            self.ppu.read(address)
        } else if is_cart_rom(address) {
            match self.rom {
                Some(c) => c.rom[c.rom_index(address)],
                None => 0xFF,
            }
        } else if is_hram(address) || is_interrupt_register(address) {
            self.cpu.read(address)
        } else if address == DMA_SOURCE_ADDRESS {
            self.dma.value
        } else if is_wram(address) {
            self.wram.byte(address)
        } else {
            self.oam.byte(address)
        }
    }

    /// The devices with an interrupt requested in IF.
    pub open spec fn with_interrupt_requested(self, mask: crate::interrupt_registers::InterruptFlagsMask) -> MmioContextView {
        MmioContextView {
            cpu: CpuMmioView {
                interrupts: crate::interrupt_registers::InterruptRegistersView {
                    iflag: self.cpu.interrupts.iflag | crate::interrupt_registers::interrupt_flag_mask(mask),
                    ..self.cpu.interrupts
                },
                ..self.cpu
            },
            ..self
        }
    }

    /// The devices after a write to an address the bus serves; a write to an empty
    /// cartridge slot or to the cartridge RAM window is dropped.
    pub open spec fn written(self, address: u16, data: u8) -> MmioContextView {
        if is_cart_ram(address) {
            self
        } else if is_vram(address) || is_lcd_register(address) {
            MmioContextView { ppu: self.ppu.written(address, data), ..self }
        } else if is_cart_rom(address) {
            match self.rom {
                Some(c) => MmioContextView { rom: Some(c.written(address, data)), ..self },
                None => self,
            }
        } else if is_hram(address) || is_interrupt_register(address) {
            MmioContextView { cpu: self.cpu.written(address, data), ..self }
        } else if address == DMA_SOURCE_ADDRESS {
            MmioContextView { dma: DmaMmioView { enabled: true, value: data }, ..self }
        } else if is_wram(address) {
            MmioContextView { wram: self.wram.written(address, data), ..self }
        } else {
            MmioContextView { oam: self.oam.written(address, data), ..self }
        }
    }
}

impl MmioContext {
    pub open spec fn view(&self) -> MmioContextView {
        MmioContextView {
            cpu: self.cpu_mmio@,
            rom: match self.rom_mmio {
                Some(c) => Some(c@),
                None => None,
            },
            ppu: self.ppu_mmio@,
            apu: self.apu_mmio@,
            dma: self.dma_mmio@,
            oam: self.oam_mmio@,
            wram: self.wram_mmio@,
        }
    }

    /// The header and path of the cartridge, if one is in; a write keeps them.
    pub open spec fn cartridge_identity(&self) -> Option<(crate::cartridge::header::RomHeader, Seq<char>)> {
        match self.rom_mmio {
            Some(c) => Some((c.spec_header(), c.spec_path())),
            None => None,
        }
    }

    /// Devices at power-on, with an empty cartridge slot: every register and memory cleared.
    pub fn new() -> (r: Self)
        ensures
            r.view().wf(),
            r.view().rom is None,
            r.view().dma == (DmaMmioView { enabled: false, value: 0 }),
            r.view().cpu.interrupts.ie == 0 && r.view().cpu.interrupts.iflag == 0,
            r.view().cpu.hram.data == Seq::new(0x7F, |i: int| 0u8),
            r.view().wram.data == Seq::new(0x2000, |i: int| 0u8),
            r.view().oam.data == Seq::new(0xA0, |i: int| 0u8),
            r.view().ppu.vram.data == Seq::new(0x2000, |i: int| 0u8),
            r.view().ppu.lcdc == 0 && r.view().ppu.stat == 0 && r.view().ppu.ly == 0,
            r.view().ppu.scy == 0 && r.view().ppu.scx == 0 && r.view().ppu.lyc == 0,
            r.view().apu.wave_ram == Seq::new(16, |i: int| 0u8),
    {
        MmioContext {
            cpu_mmio: CpuMmio::new(),
            rom_mmio: None,
            ppu_mmio: PpuMmio::new(),
            apu_mmio: ApuMmio::new(),
            dma_mmio: DmaMmio::new(),
            oam_mmio: MemoryBlock::oam(),
            wram_mmio: MemoryBlock::wram(),
        }
    }
}

/// The address bus. It holds no state: the devices are in the `MmioContext`.
pub struct Bus {}

impl Bus {
    pub fn new() -> (r: Self) {
        Bus {}
    }

    /// Reads the byte the device mapped at an address gives.
    pub fn read(&self, ctx: &MmioContext, address: Address) -> (r: Byte)
        requires
            ctx.view().wf(),
            ctx.view().readable(address.0),
        ensures
            r == ctx.view().read(address.0),
    {
        let a = address.0;
        if a <= CART_ROM_END_ADDRESS {
            match &ctx.rom_mmio {
                None => 0xFF,
                Some(rom) => rom.read(address),
            }
        } else if VRAM_START_ADDRESS <= a && a <= VRAM_END_ADDRESS {
            ctx.ppu_mmio.read(address)
        } else if CART_RAM_START_ADDRESS <= a && a <= CART_RAM_END_ADDRESS {
            0xFF
        } else if LCDC_ADDRESS <= a && a <= WX_ADDRESS && a != DMA_SOURCE_ADDRESS {
            ctx.ppu_mmio.read(address)
        } else if HRAM_START_ADDRESS <= a && a <= HRAM_END_ADDRESS {
            ctx.cpu_mmio.read(address)
        } else if a == IE_ADDRESS || a == IF_ADDRESS {
            ctx.cpu_mmio.read(address)
        } else if a == DMA_SOURCE_ADDRESS {
            ctx.dma_mmio.read(address)
        } else if WRAM_START_ADDRESS <= a && a <= WRAM_END_ADDRESS {
            ctx.wram_mmio.read(address)
        } else {
            ctx.oam_mmio.read(address)
        }
    }

    /// Writes a byte to the device mapped at an address.
    pub fn write(&mut self, ctx: &mut MmioContext, address: Address, data: Byte)
        requires
            old(ctx).view().wf(),
            old(ctx).view().writable(address.0),
        ensures
            final(ctx).view() == old(ctx).view().written(address.0, data),
            final(ctx).view().wf(),
            final(ctx).cartridge_identity() == old(ctx).cartridge_identity(),
    {
        let a = address.0;
        if a <= CART_ROM_END_ADDRESS {
            match &mut ctx.rom_mmio {
                None => {},
                Some(rom) => {
                    rom.write(address, data);
                },
            }
        } else if VRAM_START_ADDRESS <= a && a <= VRAM_END_ADDRESS {
            ctx.ppu_mmio.write(address, data);
        } else if CART_RAM_START_ADDRESS <= a && a <= CART_RAM_END_ADDRESS {
        } else if LCDC_ADDRESS <= a && a <= WX_ADDRESS && a != DMA_SOURCE_ADDRESS {
            ctx.ppu_mmio.write(address, data);
        } else if HRAM_START_ADDRESS <= a && a <= HRAM_END_ADDRESS {
            ctx.cpu_mmio.write(address, data);
        } else if a == IE_ADDRESS || a == IF_ADDRESS {
            ctx.cpu_mmio.write(address, data);
        } else if a == DMA_SOURCE_ADDRESS {
            ctx.dma_mmio.write(address, data);
        } else if WRAM_START_ADDRESS <= a && a <= WRAM_END_ADDRESS {
            ctx.wram_mmio.write(address, data);
        } else {
            ctx.oam_mmio.write(address, data);
        }
    }
}

impl Default for Bus {
    fn default() -> (r: Self) {
        Self::new()
    }
}

/// Whether an address is plain memory, which reads back what was written to it: video RAM,
/// the LCD registers, IE, IF, work RAM, OAM and high RAM.
pub open spec fn is_plain_memory(address: u16) -> bool {
    is_vram(address) || is_lcd_register(address) || is_interrupt_register(address) || is_wram(address)
        || is_oam(address) || is_hram(address)
}

/// A read of plain memory gives back what the last write to that address wrote.
pub proof fn lemma_read_after_write(v: MmioContextView, address: u16, data: u8)
    requires
        v.wf(),
        is_plain_memory(address),
    ensures
        v.written(address, data).wf(),
        v.written(address, data).readable(address),
        v.written(address, data).read(address) == data,
{
}

/// A write to plain memory leaves what every other address reads as it was.
pub proof fn lemma_write_keeps_other_addresses(v: MmioContextView, address: u16, other: u16, data: u8)
    requires
        v.wf(),
        is_plain_memory(address),
        other != address,
        v.readable(other),
    ensures
        v.written(address, data).readable(other),
        v.written(address, data).read(other) == v.read(other),
{
}

} // verus!

//! The whole console: CPU, PPU, DMA and APU around the bus and its devices.
use vstd::prelude::*;
use crate::types::{Address, Byte};
use crate::bus::{Bus, MmioContext, MmioContextView};
use crate::cpu::{CPU, tick_done, step_context};
use crate::cartridge::Cartridge;
use crate::dma::{DMA, DmaView, DmaMmioView, dma_tick_context, dma_tick_counters, dma_source};
use crate::apu::APU;
use crate::ppu::{PPU, PpuView, advance_dot, execute_dot, requests_vblank};
use crate::ppu::constants::{LY_ADDRESS, LCD_STAT_ADDRESS};
use crate::ppu_mmio::stat_line;
use crate::memory::{MemoryBlock, RAM};
use crate::input::{Joypad, GBInput, GBInputDPadBits, GBInputButtonsBits};
use crate::interrupt_registers::InterruptFlagsMask;

verus! {

/// The master clock of the DMG, in Hz.
pub const SYSTEM_FREQUENCY_CLOCK: u32 = 4194304;
/// Where a cartridge's code starts.
pub const ENTRY_POINT: u16 = 0x0100;

/// The console.
pub struct GB {
    is_booting: bool,
    bus: Bus,
    cpu: CPU,
    ctx: MmioContext,
    ppu: PPU,
    dma: DMA,
    apu: APU,
    joypad: Joypad,
    /// T-cycles run, modulo 2^64.
    cycles: u64,
    /// How many times `cycles` wrapped.
    cycles_overflows: u64,
    /// The level of the STAT interrupt line at the end of the last T-cycle.
    stat_irq: bool,
}

/// The LCD registers the CPU writes: all but STAT and LY, which the PPU keeps (0xFF46 is the
/// DMA register).
pub open spec fn cpu_lcd_register(a: int) -> bool {
    0xFF40 <= a <= 0xFF4B && a != 0xFF41 && a != 0xFF44 && a != 0xFF46
}

/// The PPU's memory after taking what the CPU side holds: the LCD registers the CPU writes,
/// and, at the first dot of a line, video RAM and OAM.
pub open spec fn synced_memory(m: Seq<u8>, v: MmioContextView, line_start: bool) -> Seq<u8> {
    Seq::new(m.len(), |a: int|
        if cpu_lcd_register(a) {
            v.ppu.read(a as u16)
        } else if line_start && 0x8000 <= a <= 0x9FFF {
            v.ppu.vram.byte(a as u16)
        } else if line_start && 0xFE00 <= a <= 0xFE9F {
            v.oam.byte(a as u16)
        } else {
            m[a]
        })
}

/// The PPU with its memory synced from the devices before its dot.
pub open spec fn ppu_synced(p: PpuView, v: MmioContextView) -> PpuView {
    PpuView { memory: synced_memory(p.memory, v, p.line_dots == 0), ..p }
}

/// The PPU after one dot of its own.
pub open spec fn ppu_dot(p: PpuView) -> PpuView {
    advance_dot(execute_dot(p), p.line())
}

/// STAT as the CPU reads it after a PPU dot: the interrupt enables written to the register
/// (bits 3 to 7), the LYC == LY flag (bit 2) and the PPU's mode (bits 0 and 1).
pub open spec fn published_stat(stat: u8, lyc: u8, ly: u8, ppu_stat: u8) -> u8 {
    ((stat & 0xF8) | (if ly == lyc { 0x04u8 } else { 0 }) | (ppu_stat & 0x03)) as u8
}

/// The devices after a dot of the PPU, which went from `p` to `p1`: the LCD registers show its
/// LY, and STAT its mode and the LYC == LY flag; entering vertical blank requests the VBlank
/// interrupt.
pub open spec fn after_ppu_dot(v: MmioContextView, p: PpuView, p1: PpuView) -> MmioContextView {
    let ly = p1.byte(LY_ADDRESS);
    let v1 = MmioContextView {
        ppu: v.ppu.written(LY_ADDRESS, ly).written(
            LCD_STAT_ADDRESS,
            published_stat(v.ppu.stat, v.ppu.lyc, ly, p1.byte(LCD_STAT_ADDRESS)),
        ),
        ..v
    };
    if requests_vblank(p) { v1.with_interrupt_requested(InterruptFlagsMask::VBlank) } else { v1 }
}

/// The devices after a T-cycle of the CPU that started on the devices `v`: the step of the
/// M-cycle runs on its last T-cycle; before that the devices are left as they are.
pub open spec fn cpu_tick_context(cpu: CPU, v: MmioContextView) -> MmioContextView {
    if (cpu.micro_code_t_cycle + 1) % 4 == 0 {
        step_context(cpu.registers@, v, cpu.micro_code)
    } else {
        v
    }
}

/// The devices once the STAT interrupt line is checked at the end of a T-cycle: when it was
/// low at the end of the last T-cycle (`line_before`) and is high now, the LCD interrupt is
/// requested.
pub open spec fn stat_edge_checked(v: MmioContextView, line_before: bool) -> MmioContextView {
    if !line_before && stat_line(v.ppu) { v.with_interrupt_requested(InterruptFlagsMask::LCD) } else { v }
}

/// Law: the LCD STAT interrupt is requested on the rising edge of the STAT line only: when
/// the line was low and is now high, bit 1 of IF is set and nothing else changes; when it
/// was already high, or is low, IF stays as it was. The other devices are never touched.
pub proof fn lemma_stat_interrupt_on_rising_edge(v: MmioContextView, line_before: bool)
    ensures
        ({
            let w = stat_edge_checked(v, line_before);
            &&& w.cpu.interrupts.iflag == if !line_before && stat_line(v.ppu) {
                v.cpu.interrupts.iflag | 0x02
            } else {
                v.cpu.interrupts.iflag
            }
            &&& w.cpu.interrupts.ie == v.cpu.interrupts.ie
            &&& w.ppu == v.ppu
            &&& w.wram == v.wram
            &&& w.oam == v.oam
        }),
{
}

impl GB {
    pub closed spec fn spec_cpu(&self) -> CPU {
        self.cpu
    }

    pub closed spec fn spec_context(&self) -> MmioContextView {
        self.ctx.view()
    }

    pub closed spec fn spec_cartridge_identity(&self) -> Option<(crate::cartridge::header::RomHeader, Seq<char>)> {
        self.ctx.cartridge_identity()
    }

    pub closed spec fn spec_vram(&self) -> crate::memory::MemoryBlockView {
        self.ctx.ppu_mmio@.vram
    }

    pub closed spec fn spec_ppu(&self) -> PpuView {
        self.ppu@
    }

    pub closed spec fn spec_dma(&self) -> DmaView {
        self.dma@
    }

    pub closed spec fn spec_apu_div(&self) -> u16 {
        self.apu.spec_div()
    }

    pub closed spec fn spec_joypad(&self) -> Joypad {
        self.joypad
    }

    pub closed spec fn spec_cycles(&self) -> (u64, u64) {
        (self.cycles, self.cycles_overflows)
    }

    pub closed spec fn spec_is_booting(&self) -> bool {
        self.is_booting
    }

    /// The level of the STAT interrupt line at the end of the last T-cycle.
    pub closed spec fn spec_stat_irq(&self) -> bool {
        self.stat_irq
    }

    /// The invariants of the parts.
    pub closed spec fn wf(&self) -> bool {
        &&& self.cpu.wf()
        &&& self.ctx.view().wf()
        &&& self.ppu@.wf()
        &&& self.dma@.wf()
    }

    /// Whether the next T-cycle can run: a DMA copy reads a byte the bus serves and the CPU,
    /// after the DMA's work, can run its T-cycle.
    pub closed spec fn tick_ok(&self) -> bool {
        let p = ppu_synced(self.ppu@, self.ctx.view());
        let v = after_ppu_dot(self.ctx.view(), p, ppu_dot(p));
        &&& (self.dma@.copies(v) ==> v.readable(dma_source(v.dma.value, self.dma@.m_cycle)))
        &&& self.cpu.tick_ok(dma_tick_context(self.dma@, v))
    }

    /// A console at power-on with no cartridge; the boot ROM is not emulated, so `bios` is
    /// not used.
    pub fn new(bios: Option<String>) -> (r: Self)
        ensures
            r.wf(),
            !r.spec_is_booting(),
            r.spec_context().rom is None,
            r.spec_cycles() == (0u64, 0u64),
            !r.spec_stat_irq(),
            r.spec_cpu().registers@.pc == 0,
            r.spec_cpu().registers@.sp == 0xDFFF,
            !r.spec_cpu().ime,
            r.spec_cpu().instruction is None,
            r.spec_cpu().micro_code_index == 0 && r.spec_cpu().micro_code_t_cycle == 0,
            r.spec_context().dma == (DmaMmioView { enabled: false, value: 0 }),
            r.spec_context().cpu.interrupts.ie == 0 && r.spec_context().cpu.interrupts.iflag == 0,
            r.spec_dma().t_cycle == 0 && r.spec_dma().m_cycle == 0 && !r.spec_dma().to_disable,
            r.spec_apu_div() == u16::MAX,
            r.spec_ppu().line_dots == 0 && r.spec_ppu().screen_dot == 0,
            r.spec_ppu().dots_penalties == 0 && r.spec_ppu().dots_penalties_counter == 0,
            r.spec_ppu().line_oam.len() == 0 && r.spec_ppu().line_oam_number == 0,
            r.spec_ppu().frame == Seq::new(
                crate::ppu::constants::SCREEN_PIXELS as nat,
                |i: int| crate::ppu::tile::GbPalette::White,
            ),
            r.spec_ppu().memory == Seq::new(0x10000, |i: int| 0u8),
            r.spec_joypad().select == 0x30,
            !r.spec_joypad().input.a && !r.spec_joypad().input.b,
            !r.spec_joypad().input.start && !r.spec_joypad().input.select,
            !r.spec_joypad().input.up && !r.spec_joypad().input.down,
            !r.spec_joypad().input.left && !r.spec_joypad().input.right,
    {
        Self {
            is_booting: false,
            bus: Bus::new(),
            cpu: CPU::new(),
            ctx: MmioContext::new(),
            ppu: PPU::new(RAM::new()),
            dma: DMA::new(),
            apu: APU::new(),
            joypad: Joypad::new(),
            cycles: 0,
            cycles_overflows: 0,
            stat_irq: false,
        }
    }

    /// Booting from the boot ROM is not emulated: the console is left as it is.
    pub fn boot(&mut self)
        ensures
            *final(self) == *old(self),
    {
    }

    /// Puts a cartridge in the slot, or empties it; returns whether a cartridge is in.
    pub fn insert_cartridge(&mut self, cartridge: Option<Cartridge>) -> (r: bool)
        requires
            old(self).wf(),
        ensures
            r == cartridge is Some,
            final(self).wf(),
            final(self).spec_context() == (MmioContextView {
                rom: match cartridge {
                    Some(c) => Some(c@),
                    None => None,
                },
                ..old(self).spec_context()
            }),
            final(self).spec_cartridge_identity() == match cartridge {
                Some(c) => Some((c.spec_header(), c.spec_path())),
                None => None,
            },
            final(self).spec_cpu() == old(self).spec_cpu(),
            final(self).spec_ppu() == old(self).spec_ppu(),
            final(self).spec_dma() == old(self).spec_dma(),
            final(self).spec_apu_div() == old(self).spec_apu_div(),
            final(self).spec_joypad() == old(self).spec_joypad(),
            final(self).spec_stat_irq() == old(self).spec_stat_irq(),
            final(self).spec_cycles() == old(self).spec_cycles(),
    {
        let inserted = cartridge.is_some();
        self.ctx.rom_mmio = cartridge;
        inserted
    }

    /// One T-cycle of the console: the APU, the PPU, the DMA and the CPU each run theirs, in
    /// that order, and the cycle count moves on (counting its wraps). The PPU first takes the
    /// LCD registers, video RAM and OAM the CPU side holds; after its dot its LY and STAT
    /// reach the LCD registers, and its VBlank request reaches IF before the DMA and the CPU
    /// run. Once all have run, a rise of the STAT interrupt line since the end of the last
    /// T-cycle requests the LCD interrupt.
    pub fn tick(&mut self)
        requires
            old(self).wf(),
            old(self).tick_ok(),
        ensures
            final(self).wf(),
            final(self).spec_apu_div() == (if old(self).spec_apu_div() == u16::MAX { 0 } else { (old(self).spec_apu_div() + 1) as u16 }),
            final(self).spec_ppu() == ppu_dot(ppu_synced(old(self).spec_ppu(), old(self).spec_context())),
            final(self).spec_dma() == dma_tick_counters(
                old(self).spec_dma(),
                after_ppu_dot(
                    old(self).spec_context(),
                    ppu_synced(old(self).spec_ppu(), old(self).spec_context()),
                    final(self).spec_ppu(),
                ),
            ),
            ({
                let v_dma = dma_tick_context(
                    old(self).spec_dma(),
                    after_ppu_dot(
                        old(self).spec_context(),
                        ppu_synced(old(self).spec_ppu(), old(self).spec_context()),
                        final(self).spec_ppu(),
                    ),
                );
                let v_cpu = cpu_tick_context(old(self).spec_cpu(), v_dma);
                &&& tick_done(&old(self).spec_cpu(), &final(self).spec_cpu(), v_dma, v_cpu)
                &&& final(self).spec_context() == stat_edge_checked(v_cpu, old(self).spec_stat_irq())
            }),
            final(self).spec_cartridge_identity() == old(self).spec_cartridge_identity(),
            final(self).spec_cycles() == (
                (if old(self).spec_cycles().0 == u64::MAX { 0 } else { (old(self).spec_cycles().0 + 1) as u64 }),
                (if old(self).spec_cycles().0 == u64::MAX {
                    (if old(self).spec_cycles().1 == u64::MAX { 0 } else { (old(self).spec_cycles().1 + 1) as u64 })
                } else {
                    old(self).spec_cycles().1
                }),
            ),
            final(self).spec_stat_irq() == stat_line(final(self).spec_context().ppu),
            final(self).spec_joypad() == old(self).spec_joypad(),
    {
        self.apu.tick();
        self.sync_ppu();
        let vblank = self.ppu.requests_vblank();
        self.ppu.cycle();
        let ly = self.ppu.get_line();
        let old_stat = self.ctx.ppu_mmio.read(Address(LCD_STAT_ADDRESS));
        let lyc = self.ctx.ppu_mmio.read(Address(crate::ppu_mmio::LYC_ADDRESS));
        let lyc_flag: u8 = if ly == lyc { 0x04 } else { 0 };
        let stat = (old_stat & 0xF8) | lyc_flag | (self.ppu.get_stat() & 0x03);
        self.ctx.ppu_mmio.write(Address(LY_ADDRESS), ly);
        self.ctx.ppu_mmio.write(Address(LCD_STAT_ADDRESS), stat);
        if vblank {
            self.ctx.cpu_mmio.request_interrupt(InterruptFlagsMask::VBlank);
        }
        self.dma.tick(&mut self.bus, &mut self.ctx);
        self.cpu.tick(&mut self.bus, &mut self.ctx);
        let new_stat_irq = self.ctx.ppu_mmio.irq();
        if !self.stat_irq && new_stat_irq {
            self.ctx.cpu_mmio.request_interrupt(InterruptFlagsMask::LCD);
        }
        self.stat_irq = new_stat_irq;
        self.cycles = self.cycles.wrapping_add(1);
        if self.cycles == 0 {
            self.cycles_overflows = self.cycles_overflows.wrapping_add(1);
        }
    }

    /// Gives the PPU what the CPU side holds: the LCD registers the CPU writes, and, at the
    /// first dot of a line, video RAM and OAM, which the PPU then reads for the whole line.
    fn sync_ppu(&mut self)
        requires
            old(self).wf(),
        ensures
            final(self).wf(),
            final(self).spec_ppu() == ppu_synced(old(self).spec_ppu(), old(self).spec_context()),
            final(self).ctx == old(self).ctx,
            final(self).cpu == old(self).cpu,
            final(self).dma == old(self).dma,
            final(self).apu == old(self).apu,
            final(self).joypad == old(self).joypad,
            final(self).cycles == old(self).cycles,
            final(self).cycles_overflows == old(self).cycles_overflows,
            final(self).is_booting == old(self).is_booting,
            final(self).stat_irq == old(self).stat_irq,
    {
        let ghost p0 = self.ppu@;
        let ghost v = self.ctx.view();
        let ghost m0 = p0.memory;
        let ghost regs = Seq::new(m0.len(), |x: int| if cpu_lcd_register(x) { v.ppu.read(x as u16) } else { m0[x] });
        let mut a: u16 = 0xFF40;
        while a <= 0xFF4B
            invariant
                0xFF40 <= a <= 0xFF4C,
                self.ctx == old(self).ctx,
                self.cpu == old(self).cpu && self.dma == old(self).dma && self.apu == old(self).apu,
                self.joypad == old(self).joypad && self.is_booting == old(self).is_booting && self.stat_irq == old(self).stat_irq,
                self.cycles == old(self).cycles && self.cycles_overflows == old(self).cycles_overflows,
                old(self).wf(),
                v == self.ctx.view(),
                v.wf(),
                self.ppu@ == (PpuView { memory: self.ppu@.memory, ..p0 }),
                self.ppu@.wf(),
                self.ppu@.memory =~= Seq::new(m0.len(), |x: int| if 0xFF40 <= x < a && cpu_lcd_register(x) { v.ppu.read(x as u16) } else { m0[x] }),
                m0.len() == 0x10000,
            decreases 0xFF4C - a,
        {
            if a != 0xFF41 && a != 0xFF44 && a != 0xFF46 {
                let b = self.ctx.ppu_mmio.read(Address(a));
                self.ppu.write_memory(a, b);
            }
            a = a + 1;
        }
        assert(self.ppu@.memory =~= regs);
        if self.ppu.line_dots() == 0 {
            let mut i: u16 = 0x8000;
            while i <= 0x9FFF
                invariant
                    0x8000 <= i <= 0xA000,
                    self.ctx == old(self).ctx,
                    self.cpu == old(self).cpu && self.dma == old(self).dma && self.apu == old(self).apu,
                    self.joypad == old(self).joypad && self.is_booting == old(self).is_booting && self.stat_irq == old(self).stat_irq,
                    self.cycles == old(self).cycles && self.cycles_overflows == old(self).cycles_overflows,
                    old(self).wf(),
                    v == self.ctx.view(),
                    v.wf(),
                    self.ppu@ == (PpuView { memory: self.ppu@.memory, ..p0 }),
                    self.ppu@.wf(),
                    self.ppu@.memory =~= Seq::new(m0.len(), |x: int| if 0x8000 <= x < i { v.ppu.vram.byte(x as u16) } else { regs[x] }),
                    m0.len() == 0x10000,
                decreases 0xA000 - i,
            {
                let b = self.ctx.ppu_mmio.vram().read(Address(i));
                self.ppu.write_memory(i, b);
                i = i + 1;
            }
            let ghost vr = self.ppu@.memory;
            let mut j: u16 = 0xFE00;
            while j <= 0xFE9F
                invariant
                    0xFE00 <= j <= 0xFEA0,
                    self.ctx == old(self).ctx,
                    self.cpu == old(self).cpu && self.dma == old(self).dma && self.apu == old(self).apu,
                    self.joypad == old(self).joypad && self.is_booting == old(self).is_booting && self.stat_irq == old(self).stat_irq,
                    self.cycles == old(self).cycles && self.cycles_overflows == old(self).cycles_overflows,
                    old(self).wf(),
                    v == self.ctx.view(),
                    v.wf(),
                    self.ppu@ == (PpuView { memory: self.ppu@.memory, ..p0 }),
                    self.ppu@.wf(),
                    self.ppu@.memory =~= Seq::new(m0.len(), |x: int| if 0xFE00 <= x < j { v.oam.byte(x as u16) } else { vr[x] }),
                    vr =~= Seq::new(m0.len(), |x: int| if 0x8000 <= x <= 0x9FFF { v.ppu.vram.byte(x as u16) } else { regs[x] }),
                    m0.len() == 0x10000,
                decreases 0xFEA0 - j,
            {
                let b = self.ctx.oam_mmio.read(Address(j));
                self.ppu.write_memory(j, b);
                j = j + 1;
            }
        }
        assert(self.ppu@.memory =~= synced_memory(m0, v, p0.line_dots == 0));
    }

    /// Presses or releases a direction; a press requests the joypad interrupt.
    pub fn press_dpad(&mut self, dpad: GBInputDPadBits, pressed: bool)
        requires
            old(self).wf(),
        ensures
            final(self).wf(),
            final(self).spec_joypad().select == old(self).spec_joypad().select,
            final(self).spec_joypad().input == (match dpad {
                GBInputDPadBits::Right => GBInput { right: pressed, ..old(self).spec_joypad().input },
                GBInputDPadBits::Left => GBInput { left: pressed, ..old(self).spec_joypad().input },
                GBInputDPadBits::Up => GBInput { up: pressed, ..old(self).spec_joypad().input },
                GBInputDPadBits::Down => GBInput { down: pressed, ..old(self).spec_joypad().input },
            }),
            final(self).spec_context() == if pressed {
                old(self).spec_context().with_interrupt_requested(InterruptFlagsMask::JoyPad)
            } else {
                old(self).spec_context()
            },
            final(self).spec_cpu() == old(self).spec_cpu(),
    {
        match dpad {
            GBInputDPadBits::Right => self.joypad.input.right = pressed,
            GBInputDPadBits::Left => self.joypad.input.left = pressed,
            GBInputDPadBits::Up => self.joypad.input.up = pressed,
            GBInputDPadBits::Down => self.joypad.input.down = pressed,
        }
        if pressed {
            self.ctx.cpu_mmio.request_interrupt(InterruptFlagsMask::JoyPad);
        }
    }

    /// Presses or releases a button; a press requests the joypad interrupt.
    pub fn press_button(&mut self, btn: GBInputButtonsBits, pressed: bool)
        requires
            old(self).wf(),
        ensures
            final(self).wf(),
            final(self).spec_joypad().select == old(self).spec_joypad().select,
            final(self).spec_joypad().input == (match btn {
                GBInputButtonsBits::A => GBInput { a: pressed, ..old(self).spec_joypad().input },
                GBInputButtonsBits::B => GBInput { b: pressed, ..old(self).spec_joypad().input },
                GBInputButtonsBits::Select => GBInput { select: pressed, ..old(self).spec_joypad().input },
                GBInputButtonsBits::Start => GBInput { start: pressed, ..old(self).spec_joypad().input },
            }),
            final(self).spec_context() == if pressed {
                old(self).spec_context().with_interrupt_requested(InterruptFlagsMask::JoyPad)
            } else {
                old(self).spec_context()
            },
            final(self).spec_cpu() == old(self).spec_cpu(),
    {
        match btn {
            GBInputButtonsBits::A => self.joypad.input.a = pressed,
            GBInputButtonsBits::B => self.joypad.input.b = pressed,
            GBInputButtonsBits::Select => self.joypad.input.select = pressed,
            GBInputButtonsBits::Start => self.joypad.input.start = pressed,
        }
        if pressed {
            self.ctx.cpu_mmio.request_interrupt(InterruptFlagsMask::JoyPad);
        }
    }

    /// Chooses whether the boot ROM runs first, and points PC at the cartridge's entry point.
    pub fn set_use_boot(&mut self, use_boot: bool)
        requires
            old(self).wf(),
        ensures
            final(self).wf(),
            final(self).spec_is_booting() == use_boot,
            final(self).spec_cpu().registers@ == (crate::registers::RegistersView {
                pc: ENTRY_POINT,
                ..old(self).spec_cpu().registers@
            }),
            final(self).spec_context() == old(self).spec_context(),
    {
        self.is_booting = use_boot;
        self.cpu.registers.set_pc(ENTRY_POINT);
    }

    pub fn cpu(&self) -> (r: &CPU)
        ensures
            *r == self.spec_cpu(),
    {
        &self.cpu
    }

    pub fn ppu(&self) -> (r: &PPU)
        ensures
            r@ == self.spec_ppu(),
    {
        &self.ppu
    }

    /// Object attribute memory.
    pub fn oam_memory(&self) -> (r: &MemoryBlock)
        ensures
            r@ == self.spec_context().oam,
    {
        &self.ctx.oam_mmio
    }

    /// The picture on the screen: the PPU's frame while the LCD is on (LCDC bit 7), a blank
    /// one while it is off.
    pub fn frame(&self) -> (r: Vec<crate::ppu::tile::GbPalette>)
        requires
            self.wf(),
        ensures
            r@ == if self.spec_context().ppu.lcdc & 0x80 != 0 {
                self.spec_ppu().frame
            } else {
                Seq::new(crate::ppu::constants::SCREEN_PIXELS as nat, |i: int| crate::ppu::tile::GbPalette::White)
            },
    {
        if self.ctx.ppu_mmio.lcdc() & 0x80 != 0 {
            let f = self.ppu.frame();
            let mut out: Vec<crate::ppu::tile::GbPalette> = Vec::new();
            let mut i: usize = 0;
            while i < f.len()
                invariant
                    i <= f.len(),
                    out@ =~= f@.subrange(0, i as int),
                decreases f.len() - i,
            {
                out.push(f[i]);
                i = i + 1;
            }
            out
        } else {
            let mut out: Vec<crate::ppu::tile::GbPalette> = Vec::new();
            let mut i: usize = 0;
            while i < crate::ppu::constants::SCREEN_PIXELS
                invariant
                    i <= crate::ppu::constants::SCREEN_PIXELS,
                    out@ =~= Seq::new(i as nat, |k: int| crate::ppu::tile::GbPalette::White),
                decreases crate::ppu::constants::SCREEN_PIXELS - i,
            {
                out.push(crate::ppu::tile::GbPalette::White);
                i = i + 1;
            }
            out
        }
    }

    /// The LCD registers and video RAM.
    pub fn ppu_mmio(&self) -> (r: &crate::ppu_mmio::PpuMmio)
        ensures
            r@ == self.spec_context().ppu,
    {
        &self.ctx.ppu_mmio
    }

    /// Video RAM.
    pub fn vram(&self) -> (r: &MemoryBlock)
        ensures
            r@ == self.spec_vram(),
    {
        self.ctx.ppu_mmio.vram()
    }

    pub fn joypad(&self) -> (r: &Joypad)
        ensures
            *r == self.spec_joypad(),
    {
        &self.joypad
    }

    /// Which buttons are pressed.
    pub fn joypad_view(&self) -> (r: GBInput)
        ensures
            r == self.spec_joypad().input,
    {
        self.joypad.input
    }

    /// The cartridge in the slot, if any.
    pub fn cartridge(&self) -> (r: Option<&Cartridge>)
        ensures
            match r {
                Some(c) => self.spec_context().rom == Some(c@),
                None => self.spec_context().rom is None,
            },
    {
        self.ctx.rom_mmio.as_ref()
    }

    /// Reads a byte through the bus.
    pub fn read(&self, address: Address) -> (r: Byte)
        requires
            self.wf(),
            self.spec_context().readable(address.0),
        ensures
            r == self.spec_context().read(address.0),
    {
        self.bus.read(&self.ctx, address)
    }

    /// Writes a byte through the bus.
    pub fn write(&mut self, address: Address, data: Byte)
        requires
            old(self).wf(),
            old(self).spec_context().writable(address.0),
        ensures
            final(self).wf(),
            final(self).spec_context() == old(self).spec_context().written(address.0, data),
            final(self).spec_cartridge_identity() == old(self).spec_cartridge_identity(),
            final(self).spec_cpu() == old(self).spec_cpu(),
    {
        self.bus.write(&mut self.ctx, address, data)
    }
}

impl Default for GB {
    fn default() -> (r: Self)
        ensures
            r.wf(),
            !r.spec_is_booting(),
            r.spec_context().rom is None,
            r.spec_cycles() == (0u64, 0u64),
            !r.spec_stat_irq(),
    {
        Self::new(None)
    }
}

} // verus!

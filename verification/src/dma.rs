//! The OAM DMA: copies 160 bytes from `value * 0x100` into OAM, one byte per M-cycle.
use vstd::prelude::*;
use crate::types::{Address, Byte};
use crate::bus::{Bus, MmioContext, MmioContextView, is_oam};

verus! {

/// Address of the DMA source register.
pub const DMA_SOURCE_ADDRESS: u16 = 0xFF46;
/// Bytes a DMA transfer copies.
pub const DMA_TRANSFER_BYTES: u8 = 160;

/// The DMA register: its last written value and whether a transfer runs.
#[derive(Clone, Copy, Debug, PartialEq, Eq, Structural)]
pub struct DmaMmioView {
    pub enabled: bool,
    pub value: u8,
}

pub struct DmaMmio {
    enabled: bool,
    value: Byte,
}

impl View for DmaMmio {
    type V = DmaMmioView;

    closed spec fn view(&self) -> DmaMmioView {
        DmaMmioView { enabled: self.enabled, value: self.value }
    }
}

impl DmaMmio {
    pub fn new() -> (r: Self)
        ensures
            r@ == (DmaMmioView { enabled: false, value: 0 }),
    {
        Self { enabled: false, value: 0 }
    }

    pub fn enabled(&self) -> (r: bool)
        ensures
            r == self@.enabled,
    {
        self.enabled
    }

    pub fn value(&self) -> (r: Byte)
        ensures
            r == self@.value,
    {
        self.value
    }

    /// Ends the transfer.
    pub fn reset(&mut self)
        ensures
            final(self)@ == (DmaMmioView { enabled: false, ..old(self)@ }),
    {
        self.enabled = false;
    }

    pub fn read(&self, address: Address) -> (r: Byte)
        requires
            address.0 == DMA_SOURCE_ADDRESS,
        ensures
            r == self@.value,
    {
        self.value
    }

    /// Writing the register starts a transfer from `data * 0x100`.
    pub fn write(&mut self, address: Address, data: Byte)
        requires
            address.0 == DMA_SOURCE_ADDRESS,
        ensures
            final(self)@ == (DmaMmioView { enabled: true, value: data }),
    {
        self.value = data;
        self.enabled = true;
    }
}

/// The transfer's progress.
pub struct DMA {
    t_cycle: u8,
    m_cycle: u8,
    to_disable: bool,
}

/// The counters of the DMA: the T-cycle within the M-cycle, the byte the transfer is at,
/// and whether the transfer ends on the next T-cycle.
pub struct DmaView {
    pub t_cycle: u8,
    pub m_cycle: u8,
    pub to_disable: bool,
}

impl View for DMA {
    type V = DmaView;

    closed spec fn view(&self) -> DmaView {
        DmaView { t_cycle: self.t_cycle, m_cycle: self.m_cycle, to_disable: self.to_disable }
    }
}

impl DmaView {
    /// The counters stay in range: a T-cycle of an M-cycle, a byte of the 160 to copy.
    pub open spec fn wf(self) -> bool {
        self.t_cycle < 4 && self.m_cycle < DMA_TRANSFER_BYTES
    }

    /// Whether a tick copies a byte: the transfer runs, is not ending, and a new M-cycle begins.
    pub open spec fn copies(self, v: MmioContextView) -> bool {
        !self.to_disable && v.dma.enabled && self.t_cycle == 3
    }
}

/// The address a transfer copies byte `m` from: `value * 0x100 + m`.
pub open spec fn dma_source(value: u8, m: u8) -> u16 {
    (value * 0x100 + m) as u16
}

/// The devices after a tick: the transfer ended if it was ending, then, if a byte is copied,
/// byte `m` of the source written to OAM.
pub open spec fn dma_tick_context(d: DmaView, v: MmioContextView) -> MmioContextView {
    let v1 = if d.to_disable { MmioContextView { dma: DmaMmioView { enabled: false, ..v.dma }, ..v } } else { v };
    if d.copies(v) {
        v1.written((0xFE00 + d.m_cycle) as u16, v1.read(dma_source(v1.dma.value, d.m_cycle)))
    } else {
        v1
    }
}

/// The counters after a tick.
pub open spec fn dma_tick_counters(d: DmaView, v: MmioContextView) -> DmaView {
    let t = ((d.t_cycle + 1) % 4) as u8;
    if d.copies(v) {
        let m = ((d.m_cycle + 1) % DMA_TRANSFER_BYTES as int) as u8;
        DmaView { t_cycle: t, m_cycle: m, to_disable: m == 0 }
    } else {
        DmaView { t_cycle: t, m_cycle: d.m_cycle, to_disable: false }
    }
}

/// The DMA and the devices after `n` T-cycles in which only the DMA runs.
pub open spec fn dma_run(d: DmaView, v: MmioContextView, n: nat) -> (DmaView, MmioContextView)
    decreases n,
{
    if n == 0 {
        (d, v)
    } else {
        let (d1, v1) = dma_run(d, v, (n - 1) as nat);
        (dma_tick_counters(d1, v1), dma_tick_context(d1, v1))
    }
}

/// A transfer can run from the source page: each of its 160 bytes is one the bus serves and
/// none of them is in OAM.
pub open spec fn dma_source_ok(v: MmioContextView) -> bool {
    forall|m: u8| #![trigger dma_source(v.dma.value, m)]
        m < DMA_TRANSFER_BYTES ==> v.readable(dma_source(v.dma.value, m)) && !is_oam(dma_source(v.dma.value, m))
}

proof fn lemma_dma_run_step(d: DmaView, v: MmioContextView, n: nat)
    ensures
        dma_run(d, v, n + 1) == (
            dma_tick_counters(dma_run(d, v, n).0, dma_run(d, v, n).1),
            dma_tick_context(dma_run(d, v, n).0, dma_run(d, v, n).1),
        ),
{
}

/// One M-cycle of a running transfer: three T-cycles of waiting, then byte `m` is copied.
proof fn lemma_dma_m_cycle(d: DmaView, v: MmioContextView, n: nat)
    requires
        dma_run(d, v, n).0.t_cycle == 0,
        dma_run(d, v, n).0.m_cycle < DMA_TRANSFER_BYTES,
        !dma_run(d, v, n).0.to_disable,
        dma_run(d, v, n).1.dma.enabled,
    ensures
        ({
            let (d0, v0) = dma_run(d, v, n);
            let (d4, v4) = dma_run(d, v, n + 4);
            let m = d0.m_cycle;
            &&& d4.t_cycle == 0
            &&& d4.m_cycle == (m + 1) % DMA_TRANSFER_BYTES as int
            &&& d4.to_disable == (m + 1 == DMA_TRANSFER_BYTES)
            &&& v4 == v0.written((0xFE00 + m) as u16, v0.read(dma_source(v0.dma.value, m)))
        }),
{
    lemma_dma_run_step(d, v, n);
    lemma_dma_run_step(d, v, n + 1);
    lemma_dma_run_step(d, v, n + 2);
    lemma_dma_run_step(d, v, n + 3);
}

/// After `k` M-cycles of a transfer begun at `n == 0`, the first `k` bytes are in OAM.
proof fn lemma_dma_progress(d: DmaView, v: MmioContextView, k: nat)
    requires
        v.wf(),
        v.dma.enabled,
        d.t_cycle == 0 && d.m_cycle == 0 && !d.to_disable,
        dma_source_ok(v),
        k <= DMA_TRANSFER_BYTES,
    ensures
        ({
            let (dk, vk) = dma_run(d, v, 4 * k);
            &&& dk.t_cycle == 0
            &&& dk.m_cycle == k % (DMA_TRANSFER_BYTES as nat)
            &&& dk.to_disable == (k == DMA_TRANSFER_BYTES)
            &&& vk.dma == v.dma
            &&& vk.rom == v.rom
            &&& vk.wram == v.wram && vk.cpu == v.cpu && vk.ppu == v.ppu && vk.apu == v.apu
            &&& vk.wf()
            &&& forall|m: u8| #![trigger dma_source(v.dma.value, m)]
                m < DMA_TRANSFER_BYTES ==> vk.read(dma_source(v.dma.value, m)) == v.read(dma_source(v.dma.value, m))
            &&& forall|i: int| 0 <= i < k ==> vk.oam.data[i] == v.read(dma_source(v.dma.value, i as u8))
        }),
    decreases k,
{
    if k > 0 {
        let j = (k - 1) as nat;
        lemma_dma_progress(d, v, j);
        let (dj, vj) = dma_run(d, v, 4 * j);
        assert(4 * k == 4 * j + 4);
        lemma_dma_m_cycle(d, v, 4 * j);
        let m = dj.m_cycle;
        assert(m == j);
        let src = dma_source(v.dma.value, m);
        assert(v.readable(src) && !is_oam(src));
        let (dk, vk) = dma_run(d, v, 4 * k);
        assert(vk == vj.written((0xFE00 + m) as u16, vj.read(src)));
        assert forall|mm: u8| #![trigger dma_source(v.dma.value, mm)]
            mm < DMA_TRANSFER_BYTES implies vk.read(dma_source(v.dma.value, mm)) == v.read(dma_source(v.dma.value, mm)) by {
            let a = dma_source(v.dma.value, mm);
            assert(!is_oam(a));
        }
        assert forall|i: int| 0 <= i < k implies vk.oam.data[i] == v.read(dma_source(v.dma.value, i as u8)) by {
            if i < j {
            } else {
                assert(i == m);
            }
        }
    }
}

/// Law: a transfer started with the counters at 0 copies the 160 bytes of its source page into
/// OAM, in order, in 640 T-cycles (one byte per M-cycle), leaving the rest of the devices as
/// they were; on the next T-cycle the DMA register reads as idle again, its value kept.
pub proof fn lemma_dma_transfer(d: DmaView, v: MmioContextView)
    requires
        v.wf(),
        v.dma.enabled,
        d.t_cycle == 0 && d.m_cycle == 0 && !d.to_disable,
        dma_source_ok(v),
    ensures
        forall|i: int| 0 <= i < DMA_TRANSFER_BYTES ==> dma_run(d, v, 640).1.oam.data[i] == v.read(dma_source(v.dma.value, i as u8)),
        dma_run(d, v, 640).1.wram == v.wram,
        dma_run(d, v, 640).1.cpu == v.cpu,
        dma_run(d, v, 640).1.ppu == v.ppu,
        dma_run(d, v, 640).0.to_disable,
        !dma_run(d, v, 641).1.dma.enabled,
        dma_run(d, v, 641).1.dma.value == v.dma.value,
{
    lemma_dma_progress(d, v, 160);
    lemma_dma_run_step(d, v, 640);
}

impl DMA {
    pub fn new() -> (r: Self)
        ensures
            r@.t_cycle == 0 && r@.m_cycle == 0 && !r@.to_disable,
    {
        Self { t_cycle: 0, m_cycle: 0, to_disable: false }
    }

    /// One T-cycle of the DMA: on the first T-cycle of each M-cycle of a running transfer it
    /// copies the next of the 160 bytes from `value * 0x100` into OAM at 0xFE00.
    pub fn tick(&mut self, bus: &mut Bus, ctx: &mut MmioContext)
        requires
            old(self)@.wf(),
            old(ctx).view().wf(),
            old(self)@.copies(old(ctx).view()) ==> old(ctx).view().readable(
                dma_source(old(ctx).view().dma.value, old(self)@.m_cycle),
            ),
        ensures
            final(self)@ == dma_tick_counters(old(self)@, old(ctx).view()),
            final(self)@.wf(),
            final(ctx).view() == dma_tick_context(old(self)@, old(ctx).view()),
            final(ctx).view().wf(),
            final(ctx).cartridge_identity() == old(ctx).cartridge_identity(),
    {
        let t = self.t_cycle;
        self.t_cycle = (self.t_cycle + 1) & 0b11;
        assert(((t + 1) as u8) & 0b11 == (t + 1) % 4) by (bit_vector)
            requires
                t < 4,
        ;
        if self.to_disable {
            ctx.dma_mmio.reset();
            self.to_disable = false;
        }
        if ctx.dma_mmio.enabled() && self.t_cycle == 0 {
            let lsb_address = self.m_cycle as u16;
            let value = ctx.dma_mmio.value();
            let m = self.m_cycle;
            let from_address = Address(((value as u16) << 8) | lsb_address);
            let to_address = Address(0xFE00 | lsb_address);
            assert((((value as u16) << 8) | (m as u16)) == dma_source(value, m)) by (bit_vector);
            assert((0xFE00 | (m as u16)) == (0xFE00 + m) as u16) by (bit_vector)
                requires
                    m < 160,
            ;
            let transfer_byte = bus.read(ctx, from_address);
            bus.write(ctx, to_address, transfer_byte);
            self.m_cycle = (self.m_cycle + 1) % DMA_TRANSFER_BYTES;
            if self.m_cycle == 0 {
                self.to_disable = true;
            }
        }
    }
}

impl Default for DMA {
    fn default() -> (r: Self)
        ensures
            r@.t_cycle == 0 && r@.m_cycle == 0 && !r@.to_disable,
    {
        Self::new()
    }
}

/// The DMA with its register.
pub struct DmaCtx {
    pub dma: DMA,
    pub mmio: DmaMmio,
}

} // verus!

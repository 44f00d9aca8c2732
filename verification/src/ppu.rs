//! The PPU: VRAM, palette RAM, OAM, the seven memory-mapped registers,
//! and the dot/scanline state machine that raises the VBlank NMI.

use vstd::prelude::*;
use crate::registers::{
    addr_increment, addr_update, addr_wf, ctrl_generate_nmi, ctrl_vram_increment, scroll_write,
    status_snapshot, AddrRegister, ControlRegister, ScrollRegister, StatusRegister,
};

verus! {

/// How the four logical nametables map onto the two physical VRAM banks.
#[derive(Clone, Copy, Debug, PartialEq, Eq, Structural)]
pub enum Mirroring {
    Vertical,
    Horizontal,
    FourScreen,
}

/// The PPU as the specifications see it: byte memories as sequences,
/// registers as plain values.
pub struct PpuView {
    pub chr_rom: Seq<u8>,
    pub vram: Seq<u8>,
    pub palette_table: Seq<u8>,
    pub oam_data: Seq<u8>,
    pub mirroring: Mirroring,
    pub ctrl: ControlRegister,
    pub mask: u8,
    pub stat: StatusRegister,
    pub oam_addr: u8,
    pub scroll: ScrollRegister,
    pub addr: AddrRegister,
    pub internal_data_buf: u8,
    pub scanline: u16,
    pub cycles: u32,
    pub nmi_interrupt: Option<u8>,
}

/// The PPU: pattern table reference, video memories, registers and the
/// dot/scanline counters.
pub struct NesPPU {
    pub chr_rom: Vec<u8>,
    pub vram: Vec<u8>,
    pub palette_table: Vec<u8>,
    pub oam_data: Vec<u8>,
    pub mirroring: Mirroring,
    pub ctrl: ControlRegister,
    pub mask: u8,
    pub stat: StatusRegister,
    pub oam_addr: u8,
    pub scroll: ScrollRegister,
    pub addr: AddrRegister,
    pub internal_data_buf: u8,
    pub scanline: u16,
    pub cycles: u32,
    pub nmi_interrupt: Option<u8>,
}

impl View for NesPPU {
    type V = PpuView;

    open spec fn view(&self) -> PpuView {
        PpuView {
            chr_rom: self.chr_rom@,
            vram: self.vram@,
            palette_table: self.palette_table@,
            oam_data: self.oam_data@,
            mirroring: self.mirroring,
            ctrl: self.ctrl,
            mask: self.mask,
            stat: self.stat,
            oam_addr: self.oam_addr,
            scroll: self.scroll,
            addr: self.addr,
            internal_data_buf: self.internal_data_buf,
            scanline: self.scanline,
            cycles: self.cycles,
            nmi_interrupt: self.nmi_interrupt,
        }
    }
}

/// Well-formedness: NROM memory sizes, a masked VRAM pointer, a supported
/// mirroring mode, and counters inside one scanline and one frame.
pub open spec fn ppu_wf(p: PpuView) -> bool {
    &&& p.chr_rom.len() == 0x2000
    &&& p.vram.len() == 0x800
    &&& p.palette_table.len() == 0x20
    &&& p.oam_data.len() == 0x100
    &&& addr_wf(p.addr)
    &&& p.mirroring != Mirroring::FourScreen
    &&& p.cycles < 341
    &&& p.scanline < 262
}

/// Translate a nametable-space address (0x2000..=0x3EFF) to an index into
/// the 2 KiB physical VRAM, honoring the mirroring mode.
pub open spec fn mirror_vram_index(m: Mirroring, addr: u16) -> u16 {
    let mirrored = addr & 0x2fff;
    let vram_index = (mirrored - 0x2000) as u16;
    let name_table = vram_index / 0x400;
    if m == Mirroring::Vertical && (name_table == 2 || name_table == 3) {
        (vram_index - 0x800) as u16
    } else if m == Mirroring::Horizontal && (name_table == 1 || name_table == 2) {
        (vram_index - 0x400) as u16
    } else if m == Mirroring::Horizontal && name_table == 3 {
        (vram_index - 0x800) as u16
    } else {
        vram_index
    }
}

/// Index into palette RAM for a palette-space address (0x3F00..=0x3FFF):
/// modulo 0x20, with 0x10/0x14/0x18/0x1C aliasing 0x00/0x04/0x08/0x0C.
pub open spec fn palette_index(addr: u16) -> u16 {
    let i = ((addr - 0x3f00) % 0x20) as u16;
    if i == 0x10 || i == 0x14 || i == 0x18 || i == 0x1c {
        (i - 0x10) as u16
    } else {
        i
    }
}

/// A write to PPUCTRL: the byte is stored, and if the PPU is already in
/// VBlank and the NMI enable bit rises, an NMI is raised at once.
pub open spec fn ppu_write_ctrl(p: PpuView, value: u8) -> PpuView {
    let before = ctrl_generate_nmi(p.ctrl);
    let ctrl = ControlRegister { bits: value };
    let p1 = PpuView { ctrl, ..p };
    if !before && ctrl_generate_nmi(ctrl) && p.stat.vblank {
        PpuView { nmi_interrupt: Some(1u8), ..p1 }
    } else {
        p1
    }
}

/// A read of PPUSTATUS: the current byte is returned; the VBlank bit and
/// the shared scroll/address write latch are cleared.
pub open spec fn ppu_read_status(p: PpuView) -> (u8, PpuView) {
    (
        status_snapshot(p.stat),
        PpuView {
            stat: StatusRegister { vblank: false, ..p.stat },
            scroll: ScrollRegister { latch: false, ..p.scroll },
            addr: AddrRegister { hi_ptr: true, ..p.addr },
            ..p
        },
    )
}

/// A read of PPUDATA: buffered for pattern tables and nametables, direct
/// for palette RAM; the VRAM pointer post-increments either way.
pub open spec fn ppu_read_data(p: PpuView) -> (u8, PpuView) {
    let a = p.addr.value;
    let p1 = PpuView { addr: addr_increment(p.addr, ctrl_vram_increment(p.ctrl)), ..p };
    if a < 0x2000 {
        (p.internal_data_buf, PpuView { internal_data_buf: p.chr_rom[a as int], ..p1 })
    } else if a < 0x3f00 {
        (
            p.internal_data_buf,
            PpuView {
                internal_data_buf: p.vram[mirror_vram_index(p.mirroring, a) as int],
                ..p1
            },
        )
    } else {
        (p.palette_table[palette_index(a) as int], p1)
    }
}

/// A write to PPUDATA: stores below the pointer (pattern-table space is
/// read-only and the write is dropped); the pointer post-increments.
pub open spec fn ppu_write_data(p: PpuView, value: u8) -> PpuView {
    let a = p.addr.value;
    let p1 = PpuView { addr: addr_increment(p.addr, ctrl_vram_increment(p.ctrl)), ..p };
    if a < 0x2000 {
        p1
    } else if a < 0x3f00 {
        PpuView {
            vram: p.vram.update(mirror_vram_index(p.mirroring, a) as int, value),
            ..p1
        }
    } else {
        PpuView { palette_table: p.palette_table.update(palette_index(a) as int, value), ..p1 }
    }
}

/// A write to OAMDATA: stores at the OAM pointer, which wraps around.
pub open spec fn ppu_write_oam_data(p: PpuView, value: u8) -> PpuView {
    PpuView {
        oam_data: p.oam_data.update(p.oam_addr as int, value),
        oam_addr: p.oam_addr.wrapping_add(1),
        ..p
    }
}

/// One scanline wrap: 341 dots retire, the scanline advances; entering
/// scanline 241 raises VBlank (and the NMI if enabled); reaching 262
/// starts a new frame with VBlank, sprite-0 hit, overflow and any pending
/// NMI cleared.
pub open spec fn ppu_wrap_scanline(p: PpuView) -> (PpuView, bool) {
    let p1 = PpuView {
        cycles: (p.cycles - 341) as u32,
        scanline: (p.scanline + 1) as u16,
        ..p
    };
    let p2 = if p1.scanline == 241 {
        let v = PpuView {
            stat: StatusRegister { vblank: true, sprite_zero_hit: false, ..p1.stat },
            ..p1
        };
        if ctrl_generate_nmi(p1.ctrl) {
            PpuView { nmi_interrupt: Some(1u8), ..v }
        } else {
            v
        }
    } else {
        p1
    };
    if p2.scanline >= 262 {
        (
            PpuView {
                scanline: 0,
                nmi_interrupt: None,
                stat: StatusRegister {
                    vblank: false,
                    sprite_zero_hit: false,
                    sprite_overflow: false,
                },
                ..p2
            },
            true,
        )
    } else {
        (p2, false)
    }
}

/// Retire whole scanlines until fewer than 341 dots remain; the flag says
/// whether a frame boundary was crossed.
pub open spec fn ppu_settle(p: PpuView) -> (PpuView, bool)
    decreases p.cycles,
{
    if p.cycles >= 341 {
        let (p1, f1) = ppu_wrap_scanline(p);
        if p1.cycles < p.cycles {
            let (p2, f2) = ppu_settle(p1);
            (p2, f1 || f2)
        } else {
            (p1, f1)
        }
    } else {
        (p, false)
    }
}

/// Advancing the PPU by `dots` dots: add them, then retire scanlines.
pub open spec fn ppu_tick_spec(p: PpuView, dots: u16) -> (PpuView, bool) {
    ppu_settle(PpuView { cycles: (p.cycles + dots) as u32, ..p })
}

impl NesPPU {
    /// A fresh PPU over the given pattern table, with zeroed memories and
    /// all registers in their power-on state.
    pub fn new(chr_rom: Vec<u8>, mirroring: Mirroring) -> (r: NesPPU)
        requires
            chr_rom@.len() == 0x2000,
            mirroring != Mirroring::FourScreen,
        ensures
            ppu_wf(r@),
            r@.chr_rom == chr_rom@,
            r@.mirroring == mirroring,
            r@.ctrl == (ControlRegister { bits: 0 }),
            r@.mask == 0,
            r@.stat == (StatusRegister { sprite_overflow: false, sprite_zero_hit: false, vblank: false }),
            r@.oam_addr == 0,
            r@.scroll == (ScrollRegister { scroll_x: 0, scroll_y: 0, latch: false }),
            r@.addr == (AddrRegister { value: 0, hi_ptr: true }),
            r@.internal_data_buf == 0,
            r@.scanline == 0,
            r@.cycles == 0,
            r@.nmi_interrupt is None,
            forall|i: int| 0 <= i < 0x800 ==> r@.vram[i] == 0,
            forall|i: int| 0 <= i < 0x20 ==> r@.palette_table[i] == 0,
            forall|i: int| 0 <= i < 0x100 ==> r@.oam_data[i] == 0,
    {
        NesPPU {
            chr_rom,
            vram: vec![0u8; 0x800],
            palette_table: vec![0u8; 0x20],
            oam_data: vec![0u8; 0x100],
            mirroring,
            ctrl: ControlRegister::new(),
            mask: 0,
            stat: StatusRegister::new(),
            oam_addr: 0,
            scroll: ScrollRegister::new(),
            addr: AddrRegister::new(),
            internal_data_buf: 0,
            scanline: 0,
            cycles: 0,
            nmi_interrupt: None,
        }
    }

    /// Translate a nametable-space address to a physical VRAM index.
    pub fn mirror_vram_addr(&self, addr: u16) -> (r: u16)
        requires
            self.mirroring != Mirroring::FourScreen,
            0x2000 <= addr <= 0x3eff,
        ensures
            r == mirror_vram_index(self.mirroring, addr),
            r < 0x800,
    {
        let mirrored: u16 = addr & 0x2fff;
        proof {
            assert(0x2000 <= (addr & 0x2fff) <= 0x2fff) by (bit_vector)
                requires
                    0x2000 <= addr <= 0x3eff,
            ;
        }
        let vram_index: u16 = mirrored - 0x2000;
        let name_table: u16 = vram_index / 0x400;
        match (self.mirroring, name_table) {
            (Mirroring::Vertical, 2) | (Mirroring::Vertical, 3) => vram_index - 0x800,
            (Mirroring::Horizontal, 1) => vram_index - 0x400,
            (Mirroring::Horizontal, 2) => vram_index - 0x400,
            (Mirroring::Horizontal, 3) => vram_index - 0x800,
            _ => vram_index,
        }
    }

    /// CPU write to PPUCTRL.
    pub fn write_to_ctrl(&mut self, value: u8)
        requires
            ppu_wf(old(self)@),
        ensures
            final(self)@ == ppu_write_ctrl(old(self)@, value),
            ppu_wf(final(self)@),
    {
        let before_nmi_status = self.ctrl.generate_vblank_nmi();
        self.ctrl.update(value);
        if !before_nmi_status && self.ctrl.generate_vblank_nmi() && self.stat.vblank {
            self.nmi_interrupt = Some(1);
        }
    }

    /// CPU write to PPUMASK.
    pub fn write_to_mask(&mut self, value: u8)
        ensures
            final(self)@ == (PpuView { mask: value, ..old(self)@ }),
    {
        self.mask = value;
    }

    /// CPU read of PPUSTATUS: returns the byte, clears VBlank and the
    /// shared write latch.
    pub fn read_status(&mut self) -> (r: u8)
        requires
            ppu_wf(old(self)@),
        ensures
            r == ppu_read_status(old(self)@).0,
            final(self)@ == ppu_read_status(old(self)@).1,
            ppu_wf(final(self)@),
    {
        let data = self.stat.snapshot();
        self.stat.vblank = false;
        self.addr.reset_latch();
        self.scroll.reset_latch();
        data
    }

    /// CPU write to OAMADDR.
    pub fn write_to_oam_addr(&mut self, value: u8)
        ensures
            final(self)@ == (PpuView { oam_addr: value, ..old(self)@ }),
    {
        self.oam_addr = value;
    }

    /// CPU write to OAMDATA: stores and advances the OAM pointer.
    pub fn write_to_oam_data(&mut self, value: u8)
        requires
            ppu_wf(old(self)@),
        ensures
            final(self)@ == ppu_write_oam_data(old(self)@, value),
            ppu_wf(final(self)@),
    {
        let idx: usize = self.oam_addr as usize;
        self.oam_data.set(idx, value);
        self.oam_addr = self.oam_addr.wrapping_add(1);
    }

    /// CPU read of OAMDATA: the byte at the OAM pointer, no increment.
    pub fn read_oam_data(&self) -> (r: u8)
        requires
            ppu_wf(self@),
        ensures
            r == self@.oam_data[self@.oam_addr as int],
    {
        self.oam_data[self.oam_addr as usize]
    }

    /// CPU write to PPUSCROLL.
    pub fn write_to_scroll(&mut self, value: u8)
        ensures
            final(self)@ == (PpuView { scroll: scroll_write(old(self)@.scroll, value), ..old(self)@ }),
    {
        self.scroll.write(value);
    }

    /// CPU write to PPUADDR.
    pub fn write_to_ppu_addr(&mut self, value: u8)
        requires
            ppu_wf(old(self)@),
        ensures
            final(self)@ == (PpuView { addr: addr_update(old(self)@.addr, value), ..old(self)@ }),
            ppu_wf(final(self)@),
    {
        self.addr.update(value);
    }

    /// CPU read of PPUDATA.
    pub fn read_data(&mut self) -> (r: u8)
        requires
            ppu_wf(old(self)@),
        ensures
            r == ppu_read_data(old(self)@).0,
            final(self)@ == ppu_read_data(old(self)@).1,
            ppu_wf(final(self)@),
    {
        let addr = self.addr.get();
        let inc = self.ctrl.vram_addr_increment();
        self.addr.increment(inc);
        if addr < 0x2000 {
            let result = self.internal_data_buf;
            self.internal_data_buf = self.chr_rom[addr as usize];
            result
        } else if addr < 0x3f00 {
            let result = self.internal_data_buf;
            let idx = self.mirror_vram_addr_of(addr);
            self.internal_data_buf = self.vram[idx as usize];
            result
        } else {
            let idx: u16 = (addr - 0x3f00) % 0x20;
            let idx = if idx == 0x10 || idx == 0x14 || idx == 0x18 || idx == 0x1c {
                idx - 0x10
            } else {
                idx
            };
            self.palette_table[idx as usize]
        }
    }

    /// CPU write to PPUDATA.
    pub fn write_to_data(&mut self, value: u8)
        requires
            ppu_wf(old(self)@),
        ensures
            final(self)@ == ppu_write_data(old(self)@, value),
            ppu_wf(final(self)@),
    {
        let addr = self.addr.get();
        let inc = self.ctrl.vram_addr_increment();
        self.addr.increment(inc);
        if addr < 0x2000 {
            // pattern-table space is CHR-ROM on NROM: the write is dropped
        } else if addr < 0x3f00 {
            let idx = self.mirror_vram_addr_of(addr);
            self.vram.set(idx as usize, value);
        } else {
            let idx: u16 = (addr - 0x3f00) % 0x20;
            let idx = if idx == 0x10 || idx == 0x14 || idx == 0x18 || idx == 0x1c {
                idx - 0x10
            } else {
                idx
            };
            self.palette_table.set(idx as usize, value);
        }
    }

    /// OAM DMA ingress: copy 256 bytes into OAM starting at the OAM
    /// pointer, wrapping around.
    pub fn write_oam_dma(&mut self, data: &Vec<u8>)
        requires
            ppu_wf(old(self)@),
            data@.len() == 256,
        ensures
            final(self)@ == ppu_oam_dma(old(self)@, data@),
            ppu_wf(final(self)@),
    {
        let mut i: usize = 0;
        while i < 256
            invariant
                i <= 256,
                data@.len() == 256,
                ppu_wf(self@),
                ppu_oam_dma_from(old(self)@, data@, i as nat) == self@,
            decreases 256 - i,
        {
            proof {
                assert(ppu_oam_dma_from(old(self)@, data@, (i + 1) as nat)
                    == ppu_write_oam_data(ppu_oam_dma_from(old(self)@, data@, i as nat), data@[i as int]));
            }
            self.write_to_oam_data(data[i]);
            i += 1;
        }
        proof {
            assert(ppu_oam_dma(old(self)@, data@) == ppu_oam_dma_from(old(self)@, data@, 256));
        }
    }

    /// Advance the dot counter and retire completed scanlines; returns
    /// whether a frame boundary was crossed.
    pub fn tick(&mut self, dots: u16) -> (frame: bool)
        requires
            ppu_wf(old(self)@),
        ensures
            final(self)@ == ppu_tick_spec(old(self)@, dots).0,
            frame == ppu_tick_spec(old(self)@, dots).1,
            ppu_wf(final(self)@),
    {
        self.cycles = self.cycles + dots as u32;
        let mut frame = false;
        while self.cycles >= 341
            invariant
                self@.cycles < 341 + 765 + 65536,
                self@.chr_rom.len() == 0x2000,
                self@.vram.len() == 0x800,
                self@.palette_table.len() == 0x20,
                self@.oam_data.len() == 0x100,
                addr_wf(self@.addr),
                self@.mirroring != Mirroring::FourScreen,
                self@.scanline < 262,
                ppu_settle(self@).0 == ppu_tick_spec(old(self)@, dots).0,
                (frame || ppu_settle(self@).1) == ppu_tick_spec(old(self)@, dots).1,
            decreases self@.cycles,
        {
            let completed = self.wrap_scanline();
            frame = frame || completed;
        }
        frame
    }

    /// Retire one scanline's worth of dots.
    fn wrap_scanline(&mut self) -> (frame: bool)
        requires
            old(self)@.cycles >= 341,
            old(self)@.scanline < 262,
        ensures
            final(self)@ == ppu_wrap_scanline(old(self)@).0,
            frame == ppu_wrap_scanline(old(self)@).1,
            final(self)@.cycles < old(self)@.cycles,
            final(self)@.scanline < 262,
    {
        self.cycles = self.cycles - 341;
        self.scanline = self.scanline + 1;
        if self.scanline == 241 {
            self.stat.vblank = true;
            self.stat.sprite_zero_hit = false;
            if self.ctrl.generate_vblank_nmi() {
                self.nmi_interrupt = Some(1);
            }
        }
        if self.scanline >= 262 {
            self.scanline = 0;
            self.nmi_interrupt = None;
            self.stat = StatusRegister { vblank: false, sprite_zero_hit: false, sprite_overflow: false };
            true
        } else {
            false
        }
    }

    /// Consume and return the pending NMI.
    pub fn poll_nmi_interrupt(&mut self) -> (r: Option<u8>)
        ensures
            r == old(self)@.nmi_interrupt,
            final(self)@ == (PpuView { nmi_interrupt: None, ..old(self)@ }),
    {
        let r = self.nmi_interrupt;
        self.nmi_interrupt = None;
        r
    }

    /// Exec twin of `mirror_vram_index` used by the data port.
    fn mirror_vram_addr_of(&self, addr: u16) -> (r: u16)
        requires
            self.mirroring != Mirroring::FourScreen,
            0x2000 <= addr <= 0x3eff,
        ensures
            r == mirror_vram_index(self.mirroring, addr),
            r < 0x800,
    {
        self.mirror_vram_addr(addr)
    }
}

/// OAM after a DMA of the first `n` bytes of `data`.
pub open spec fn ppu_oam_dma_from(p: PpuView, data: Seq<u8>, n: nat) -> PpuView
    decreases n,
{
    if n == 0 {
        p
    } else {
        ppu_write_oam_data(ppu_oam_dma_from(p, data, (n - 1) as nat), data[n - 1])
    }
}

/// OAM after a full 256-byte DMA.
pub open spec fn ppu_oam_dma(p: PpuView, data: Seq<u8>) -> PpuView {
    ppu_oam_dma_from(p, data, 256)
}

} // verus!

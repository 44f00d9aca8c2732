//! The system bus: 2 KiB work RAM, the PPU behind its mirrored register
//! window, PRG-ROM with 16 KiB mirroring, one controller, and OAM DMA.

use vstd::prelude::*;
use crate::joypad::{joypad_after_read, joypad_read_value, joypad_set_button, joypad_write, Joypad};
use crate::ppu::{
    ppu_oam_dma, ppu_read_data, ppu_read_status, ppu_tick_spec, ppu_wf, ppu_write_ctrl,
    ppu_write_data, ppu_write_oam_data, Mirroring, NesPPU, PpuView,
};
use crate::registers::{
    addr_update, scroll_write, AddrRegister, ControlRegister, ScrollRegister, StatusRegister,
};

verus! {

/// The errors that abort a run: they correspond to accesses the NES
/// forbids and to opcodes outside the documented set.
#[derive(Clone, Copy, Debug, PartialEq, Eq, Structural)]
pub enum EmuError {
    /// A write was attempted to PPUSTATUS, which is read-only.
    PpuStatusWrite,
    /// A write was attempted to cartridge PRG-ROM space; the address is
    /// carried along.
    RomWrite(u16),
    /// An opcode outside the 151 documented ones was fetched; the byte is
    /// carried along.
    UnknownOpcode(u8),
}

/// The bus as the specifications see it.
pub struct BusView {
    pub cpu_vram: Seq<u8>,
    pub prg_rom: Seq<u8>,
    pub ppu: PpuView,
    pub joypad1: Joypad,
    pub cycles: u64,
}

/// The bus: work RAM, cartridge PRG-ROM, the PPU, one controller, and the
/// running CPU cycle total.
pub struct Bus {
    pub cpu_vram: Vec<u8>,
    pub prg_rom: Vec<u8>,
    pub ppu: NesPPU,
    pub joypad1: Joypad,
    pub cycles: u64,
}

impl View for Bus {
    type V = BusView;

    open spec fn view(&self) -> BusView {
        BusView {
            cpu_vram: self.cpu_vram@,
            prg_rom: self.prg_rom@,
            ppu: self.ppu@,
            joypad1: self.joypad1,
            cycles: self.cycles,
        }
    }
}

/// Well-formedness: 2 KiB work RAM, an NROM-sized PRG image (16 or
/// 32 KiB), and a well-formed PPU.
pub open spec fn bus_wf(b: BusView) -> bool {
    &&& b.cpu_vram.len() == 0x800
    &&& (b.prg_rom.len() == 0x4000 || b.prg_rom.len() == 0x8000)
    &&& ppu_wf(b.ppu)
}

/// The PRG-ROM byte visible at CPU address `addr` (0x8000..=0xFFFF): a
/// 16 KiB cartridge mirrors its single bank across both halves.
pub open spec fn prg_byte(prg: Seq<u8>, addr: u16) -> u8 {
    let offset = (addr - 0x8000) as u16;
    if prg.len() == 0x4000 && offset >= 0x4000 {
        prg[(offset % 0x4000) as int]
    } else {
        prg[offset as int]
    }
}

/// One CPU read: the byte returned and the bus state after the read-side
/// effects (PPUSTATUS, PPUDATA and the joypad port mutate on read).
/// Write-only and unmapped addresses read as 0.
pub open spec fn bus_read(b: BusView, addr: u16) -> (u8, BusView) {
    if addr <= 0x1fff {
        (b.cpu_vram[(addr & 0x7ff) as int], b)
    } else if addr <= 0x3fff {
        let reg = addr & 0x2007;
        if reg == 0x2002 {
            let (v, p) = ppu_read_status(b.ppu);
            (v, BusView { ppu: p, ..b })
        } else if reg == 0x2004 {
            (b.ppu.oam_data[b.ppu.oam_addr as int], b)
        } else if reg == 0x2007 {
            let (v, p) = ppu_read_data(b.ppu);
            (v, BusView { ppu: p, ..b })
        } else {
            (0, b)
        }
    } else if addr == 0x4016 {
        (joypad_read_value(b.joypad1), BusView { joypad1: joypad_after_read(b.joypad1), ..b })
    } else if addr >= 0x8000 {
        (prg_byte(b.prg_rom, addr), b)
    } else {
        (0, b)
    }
}

/// The 256 bytes gathered for OAM DMA from page `hi`, reading through the
/// bus (so read side effects accumulate), together with the bus state
/// after the `n` reads.
pub open spec fn dma_gather(b: BusView, hi: u16, n: nat) -> (Seq<u8>, BusView)
    decreases n,
{
    if n == 0 {
        (Seq::empty(), b)
    } else {
        let (s1, b1) = dma_gather(b, hi, (n - 1) as nat);
        let (v, b2) = bus_read(b1, (hi + (n - 1)) as u16);
        (s1.push(v), b2)
    }
}

/// One CPU write. Writes to PPUSTATUS and to PRG-ROM space are errors;
/// APU and unmapped addresses drop the byte; 0x4014 performs OAM DMA.
pub open spec fn bus_write(b: BusView, addr: u16, data: u8) -> Result<BusView, EmuError> {
    if addr <= 0x1fff {
        Ok(BusView { cpu_vram: b.cpu_vram.update((addr & 0x7ff) as int, data), ..b })
    } else if addr <= 0x3fff {
        let reg = addr & 0x2007;
        if reg == 0x2000 {
            Ok(BusView { ppu: ppu_write_ctrl(b.ppu, data), ..b })
        } else if reg == 0x2001 {
            Ok(BusView { ppu: PpuView { mask: data, ..b.ppu }, ..b })
        } else if reg == 0x2002 {
            Err(EmuError::PpuStatusWrite)
        } else if reg == 0x2003 {
            Ok(BusView { ppu: PpuView { oam_addr: data, ..b.ppu }, ..b })
        } else if reg == 0x2004 {
            Ok(BusView { ppu: ppu_write_oam_data(b.ppu, data), ..b })
        } else if reg == 0x2005 {
            Ok(BusView { ppu: PpuView { scroll: scroll_write(b.ppu.scroll, data), ..b.ppu }, ..b })
        } else if reg == 0x2006 {
            Ok(BusView { ppu: PpuView { addr: addr_update(b.ppu.addr, data), ..b.ppu }, ..b })
        } else {
            Ok(BusView { ppu: ppu_write_data(b.ppu, data), ..b })
        }
    } else if addr == 0x4014 {
        let hi = (data as u16) << 8;
        let (buf, b1) = dma_gather(b, hi, 256);
        Ok(BusView { ppu: ppu_oam_dma(b1.ppu, buf), ..b1 })
    } else if addr == 0x4016 {
        Ok(BusView { joypad1: joypad_write(b.joypad1, data), ..b })
    } else if addr >= 0x8000 {
        Err(EmuError::RomWrite(addr))
    } else {
        Ok(b)
    }
}

/// Advancing the bus by `cycles` CPU cycles: the total advances, the PPU
/// runs 3 dots per cycle; the flag reports an NMI edge (the moment the
/// host renders a frame).
pub open spec fn bus_tick(b: BusView, cycles: u8) -> (BusView, bool) {
    let (p, _frame) = ppu_tick_spec(b.ppu, (3 * cycles) as u16);
    let edge = b.ppu.nmi_interrupt is None && p.nmi_interrupt is Some;
    (BusView { cycles: b.cycles.wrapping_add(cycles as u64), ppu: p, ..b }, edge)
}

impl Bus {
    /// A bus over the given cartridge images, with zeroed RAM and a fresh
    /// PPU and controller.
    pub fn new(prg_rom: Vec<u8>, chr_rom: Vec<u8>, mirroring: Mirroring) -> (r: Bus)
        requires
            prg_rom@.len() == 0x4000 || prg_rom@.len() == 0x8000,
            chr_rom@.len() == 0x2000,
            mirroring != Mirroring::FourScreen,
        ensures
            bus_wf(r@),
            r@.prg_rom == prg_rom@,
            r@.ppu.chr_rom == chr_rom@,
            r@.ppu.mirroring == mirroring,
            r@.cycles == 0,
            r@.joypad1 == (Joypad { strobe: false, button_index: 0, button_status: 0 }),
            r@.ppu.ctrl == (ControlRegister { bits: 0 }),
            r@.ppu.mask == 0,
            r@.ppu.stat == (StatusRegister {
                sprite_overflow: false,
                sprite_zero_hit: false,
                vblank: false,
            }),
            r@.ppu.oam_addr == 0,
            r@.ppu.scroll == (ScrollRegister { scroll_x: 0, scroll_y: 0, latch: false }),
            r@.ppu.addr == (AddrRegister { value: 0, hi_ptr: true }),
            r@.ppu.internal_data_buf == 0,
            r@.ppu.scanline == 0,
            r@.ppu.cycles == 0,
            r@.ppu.nmi_interrupt is None,
            forall|i: int| 0 <= i < 0x800 ==> r@.cpu_vram[i] == 0,
            forall|i: int| 0 <= i < 0x800 ==> r@.ppu.vram[i] == 0,
            forall|i: int| 0 <= i < 0x20 ==> r@.ppu.palette_table[i] == 0,
            forall|i: int| 0 <= i < 0x100 ==> r@.ppu.oam_data[i] == 0,
    {
        Bus {
            cpu_vram: vec![0u8; 0x800],
            prg_rom,
            ppu: NesPPU::new(chr_rom, mirroring),
            joypad1: Joypad::new(),
            cycles: 0,
        }
    }

    /// The PRG-ROM byte at a CPU address in 0x8000..=0xFFFF.
    pub fn read_prg_rom(&self, addr: u16) -> (r: u8)
        requires
            bus_wf(self@),
            addr >= 0x8000,
        ensures
            r == prg_byte(self@.prg_rom, addr),
    {
        let mut offset: u16 = addr - 0x8000;
        if self.prg_rom.len() == 0x4000 && offset >= 0x4000 {
            offset = offset % 0x4000;
        }
        self.prg_rom[offset as usize]
    }

    /// One CPU read, with the read-side effects of the PPU registers and
    /// the joypad port.
    pub fn mem_read(&mut self, addr: u16) -> (r: u8)
        requires
            bus_wf(old(self)@),
        ensures
            r == bus_read(old(self)@, addr).0,
            final(self)@ == bus_read(old(self)@, addr).1,
            bus_wf(final(self)@),
    {
        if addr <= 0x1fff {
            let idx: u16 = addr & 0x7ff;
            proof {
                assert((addr & 0x7ff) < 0x800) by (bit_vector);
            }
            self.cpu_vram[idx as usize]
        } else if addr <= 0x3fff {
            let reg: u16 = addr & 0x2007;
            if reg == 0x2002 {
                self.ppu.read_status()
            } else if reg == 0x2004 {
                self.ppu.read_oam_data()
            } else if reg == 0x2007 {
                self.ppu.read_data()
            } else {
                0
            }
        } else if addr == 0x4016 {
            self.joypad1.read()
        } else if addr >= 0x8000 {
            self.read_prg_rom(addr)
        } else {
            0
        }
    }

    /// One CPU write; `Err` reports a write the NES forbids.
    pub fn mem_write(&mut self, addr: u16, data: u8) -> (r: Result<(), EmuError>)
        requires
            bus_wf(old(self)@),
        ensures
            bus_write(old(self)@, addr, data) matches Ok(b) ==> r == Ok::<(), EmuError>(())
                && final(self)@ == b,
            bus_write(old(self)@, addr, data) matches Err(e) ==> r == Err::<(), EmuError>(e)
                && final(self)@ == old(self)@,
            bus_wf(final(self)@),
    {
        if addr <= 0x1fff {
            let idx: u16 = addr & 0x7ff;
            proof {
                assert((addr & 0x7ff) < 0x800) by (bit_vector);
            }
            self.cpu_vram.set(idx as usize, data);
            Ok(())
        } else if addr <= 0x3fff {
            let reg: u16 = addr & 0x2007;
            if reg == 0x2000 {
                self.ppu.write_to_ctrl(data);
                Ok(())
            } else if reg == 0x2001 {
                self.ppu.write_to_mask(data);
                Ok(())
            } else if reg == 0x2002 {
                Err(EmuError::PpuStatusWrite)
            } else if reg == 0x2003 {
                self.ppu.write_to_oam_addr(data);
                Ok(())
            } else if reg == 0x2004 {
                self.ppu.write_to_oam_data(data);
                Ok(())
            } else if reg == 0x2005 {
                self.ppu.write_to_scroll(data);
                Ok(())
            } else if reg == 0x2006 {
                self.ppu.write_to_ppu_addr(data);
                Ok(())
            } else {
                proof {
                    assert((addr & 0x2007) <= 0x2007) by (bit_vector);
                }
                self.ppu.write_to_data(data);
                Ok(())
            }
        } else if addr == 0x4014 {
            let hi: u16 = (data as u16) << 8;
            proof {
                assert(((data as u16) << 8) <= 0xff00) by (bit_vector);
            }
            let mut buffer: Vec<u8> = Vec::new();
            let mut i: usize = 0;
            while i < 256
                invariant
                    i <= 256,
                    hi <= 0xff00,
                    bus_wf(self@),
                    buffer@.len() == i,
                    (buffer@, self@) == dma_gather(old(self)@, hi, i as nat),
                decreases 256 - i,
            {
                let ghost prev = self@;
                let ghost prev_buf = buffer@;
                let v = self.mem_read(hi + (i as u16));
                buffer.push(v);
                i += 1;
                proof {
                    assert((buffer@, self@) == dma_gather(old(self)@, hi, i as nat));
                }
            }
            self.ppu.write_oam_dma(&buffer);
            Ok(())
        } else if addr == 0x4016 {
            self.joypad1.write(data);
            Ok(())
        } else if addr >= 0x8000 {
            Err(EmuError::RomWrite(addr))
        } else {
            Ok(())
        }
    }

    /// Advance the system by `cycles` CPU cycles; the PPU advances three
    /// dots per cycle. Returns true on the NMI edge, the moment the host
    /// should render the finished frame and ingest input.
    ///
    /// OAM DMA does not charge its 513/514 stall cycles here; the cycle
    /// total only counts instruction cycles handed in by the CPU.
    pub fn tick(&mut self, cycles: u8) -> (frame_edge: bool)
        requires
            bus_wf(old(self)@),
        ensures
            final(self)@ == bus_tick(old(self)@, cycles).0,
            frame_edge == bus_tick(old(self)@, cycles).1,
            bus_wf(final(self)@),
    {
        self.cycles = self.cycles.wrapping_add(cycles as u64);
        let nmi_before = self.ppu.nmi_interrupt.is_some();
        self.ppu.tick(3 * (cycles as u16));
        let nmi_after = self.ppu.nmi_interrupt.is_some();
        !nmi_before && nmi_after
    }

    /// Consume and return the PPU's pending NMI.
    pub fn poll_nmi_status(&mut self) -> (r: Option<u8>)
        ensures
            r == old(self)@.ppu.nmi_interrupt,
            final(self)@ == (BusView {
                ppu: PpuView { nmi_interrupt: None, ..old(self)@.ppu },
                ..old(self)@
            }),
    {
        self.ppu.poll_nmi_interrupt()
    }
}

} // verus!

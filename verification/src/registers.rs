//! The PPU's memory-mapped register state: control, mask, status, scroll
//! and address latches. All of these are plain data, so the same structs
//! serve both the executable code and the specifications.

use vstd::prelude::*;

verus! {

/// PPUSCROLL shadow: two sequential writes set the X then the Y scroll,
/// steered by the shared write latch.
#[derive(Clone, Copy, Debug, PartialEq, Eq, Structural)]
pub struct ScrollRegister {
    pub scroll_x: u8,
    pub scroll_y: u8,
    pub latch: bool,
}

impl ScrollRegister {
    /// Both offsets zero, latch ready for the X write.
    pub fn new() -> (r: ScrollRegister)
        ensures
            r == (ScrollRegister { scroll_x: 0, scroll_y: 0, latch: false }),
    {
        ScrollRegister { scroll_x: 0, scroll_y: 0, latch: false }
    }

    /// First write (latch clear) sets X, second sets Y; the latch flips.
    pub fn write(&mut self, data: u8)
        ensures
            *final(self) == scroll_write(*old(self), data),
    {
        if !self.latch {
            self.scroll_x = data;
        } else {
            self.scroll_y = data;
        }
        self.latch = !self.latch;
    }

    /// Reading PPUSTATUS resets the latch so the next write sets X again.
    pub fn reset_latch(&mut self)
        ensures
            *final(self) == (ScrollRegister { latch: false, ..*old(self) }),
    {
        self.latch = false;
    }
}

/// What one PPUSCROLL write does to the shadow registers.
pub open spec fn scroll_write(s: ScrollRegister, data: u8) -> ScrollRegister {
    if !s.latch {
        ScrollRegister { scroll_x: data, latch: true, ..s }
    } else {
        ScrollRegister { scroll_y: data, latch: false, ..s }
    }
}

/// PPUADDR shadow: two sequential writes (high byte first) form the 14-bit
/// VRAM pointer; PPUDATA accesses post-increment it.
#[derive(Clone, Copy, Debug, PartialEq, Eq, Structural)]
pub struct AddrRegister {
    /// The current VRAM pointer, always below 0x4000.
    pub value: u16,
    /// True when the next write supplies the high byte.
    pub hi_ptr: bool,
}

/// The pointer invariant: it is masked to 14 bits.
pub open spec fn addr_wf(a: AddrRegister) -> bool {
    a.value < 0x4000
}

/// What one PPUADDR write does: replace the high or the low byte, mask to
/// 14 bits, and flip the latch.
pub open spec fn addr_update(a: AddrRegister, data: u8) -> AddrRegister {
    if a.hi_ptr {
        AddrRegister { value: (((data as u16) << 8) | (a.value & 0xff)) & 0x3fff, hi_ptr: false }
    } else {
        AddrRegister { value: ((a.value & 0xff00) | (data as u16)) & 0x3fff, hi_ptr: true }
    }
}

/// What a PPUDATA access does to the pointer: add the configured step,
/// wrapping within 14 bits.
pub open spec fn addr_increment(a: AddrRegister, inc: u8) -> AddrRegister {
    AddrRegister { value: (a.value.wrapping_add(inc as u16)) & 0x3fff, hi_ptr: a.hi_ptr }
}

impl AddrRegister {
    /// Pointer zero, latch ready for the high byte.
    pub fn new() -> (r: AddrRegister)
        ensures
            r == (AddrRegister { value: 0, hi_ptr: true }),
    {
        AddrRegister { value: 0, hi_ptr: true }
    }

    /// One PPUADDR write.
    pub fn update(&mut self, data: u8)
        ensures
            *final(self) == addr_update(*old(self), data),
            addr_wf(*final(self)),
    {
        if self.hi_ptr {
            let v: u16 = ((data as u16) << 8) | (self.value & 0xff);
            self.value = v & 0x3fff;
            self.hi_ptr = false;
            proof {
                assert(v & 0x3fff < 0x4000) by (bit_vector);
            }
        } else {
            let v: u16 = (self.value & 0xff00) | (data as u16);
            self.value = v & 0x3fff;
            self.hi_ptr = true;
            proof {
                assert(v & 0x3fff < 0x4000) by (bit_vector);
            }
        }
    }

    /// Advance the pointer after a PPUDATA access.
    pub fn increment(&mut self, inc: u8)
        ensures
            *final(self) == addr_increment(*old(self), inc),
            addr_wf(*final(self)),
    {
        let v: u16 = self.value.wrapping_add(inc as u16);
        self.value = v & 0x3fff;
        proof {
            assert(v & 0x3fff < 0x4000) by (bit_vector);
        }
    }

    /// Reading PPUSTATUS resets the latch so the next write is the high byte.
    pub fn reset_latch(&mut self)
        ensures
            *final(self) == (AddrRegister { hi_ptr: true, ..*old(self) }),
    {
        self.hi_ptr = true;
    }

    /// The current 14-bit pointer.
    pub fn get(&self) -> (r: u16)
        ensures
            r == self.value,
    {
        self.value
    }
}

/// PPUCTRL: raw bits plus accessors for the fields the core reads.
#[derive(Clone, Copy, Debug, PartialEq, Eq, Structural)]
pub struct ControlRegister {
    pub bits: u8,
}

impl ControlRegister {
    /// All bits clear.
    pub fn new() -> (r: ControlRegister)
        ensures
            r == (ControlRegister { bits: 0 }),
    {
        ControlRegister { bits: 0 }
    }

    /// Base address of the selected nametable (bits 0-1).
    pub fn nametable_addr(&self) -> (r: u16)
        ensures
            r == ctrl_nametable_addr(*self),
    {
        match self.bits & 0b11 {
            0 => 0x2000,
            1 => 0x2400,
            2 => 0x2800,
            _ => 0x2c00,
        }
    }

    /// PPUDATA address step: 32 when bit 2 is set, else 1.
    pub fn vram_addr_increment(&self) -> (r: u8)
        ensures
            r == ctrl_vram_increment(*self),
    {
        if self.bits & 0b100 != 0 {
            32
        } else {
            1
        }
    }

    /// Sprite pattern table base (bit 3).
    pub fn sprt_pattern_addr(&self) -> (r: u16)
        ensures
            r == ctrl_sprite_bank(*self),
    {
        if self.bits & 0b1000 != 0 {
            0x1000
        } else {
            0
        }
    }

    /// Background pattern table base (bit 4).
    pub fn bknd_pattern_addr(&self) -> (r: u16)
        ensures
            r == ctrl_background_bank(*self),
    {
        if self.bits & 0b10000 != 0 {
            0x1000
        } else {
            0
        }
    }

    /// Whether an NMI is generated at the start of vertical blanking (bit 7).
    pub fn generate_vblank_nmi(&self) -> (r: bool)
        ensures
            r == ctrl_generate_nmi(*self),
    {
        self.bits & 0b1000_0000 != 0
    }

    /// A CPU write to PPUCTRL replaces the whole byte.
    pub fn update(&mut self, data: u8)
        ensures
            *final(self) == (ControlRegister { bits: data }),
    {
        self.bits = data;
    }
}

/// Base address of the selected nametable.
pub open spec fn ctrl_nametable_addr(c: ControlRegister) -> u16 {
    if c.bits & 0b11 == 0 {
        0x2000
    } else if c.bits & 0b11 == 1 {
        0x2400
    } else if c.bits & 0b11 == 2 {
        0x2800
    } else {
        0x2c00
    }
}

/// PPUDATA address step selected by PPUCTRL bit 2.
pub open spec fn ctrl_vram_increment(c: ControlRegister) -> u8 {
    if c.bits & 0b100 != 0 {
        32
    } else {
        1
    }
}

/// Sprite pattern table base selected by PPUCTRL bit 3.
pub open spec fn ctrl_sprite_bank(c: ControlRegister) -> u16 {
    if c.bits & 0b1000 != 0 {
        0x1000
    } else {
        0
    }
}

/// Background pattern table base selected by PPUCTRL bit 4.
pub open spec fn ctrl_background_bank(c: ControlRegister) -> u16 {
    if c.bits & 0b10000 != 0 {
        0x1000
    } else {
        0
    }
}

/// Whether PPUCTRL bit 7 enables the VBlank NMI.
pub open spec fn ctrl_generate_nmi(c: ControlRegister) -> bool {
    c.bits & 0b1000_0000 != 0
}

/// PPUSTATUS: the three readable condition bits.
#[derive(Clone, Copy, Debug, PartialEq, Eq, Structural)]
pub struct StatusRegister {
    pub sprite_overflow: bool,
    pub sprite_zero_hit: bool,
    pub vblank: bool,
}

/// The byte a PPUSTATUS read returns: overflow in bit 5, sprite-0 hit in
/// bit 6, VBlank in bit 7; the low bits read as zero.
pub open spec fn status_snapshot(s: StatusRegister) -> u8 {
    (if s.sprite_overflow { 0x20u8 } else { 0u8 })
        | (if s.sprite_zero_hit { 0x40u8 } else { 0u8 })
        | (if s.vblank { 0x80u8 } else { 0u8 })
}

impl StatusRegister {
    /// All condition bits clear.
    pub fn new() -> (r: StatusRegister)
        ensures
            r == (StatusRegister { sprite_overflow: false, sprite_zero_hit: false, vblank: false }),
    {
        StatusRegister { sprite_overflow: false, sprite_zero_hit: false, vblank: false }
    }

    /// The byte a CPU read of PPUSTATUS observes.
    pub fn snapshot(&self) -> (r: u8)
        ensures
            r == status_snapshot(*self),
    {
        (if self.sprite_overflow { 0x20u8 } else { 0u8 })
            | (if self.sprite_zero_hit { 0x40u8 } else { 0u8 })
            | (if self.vblank { 0x80u8 } else { 0u8 })
    }
}

} // verus!

//! The library-wide laws: properties that relate several operations,
//! proved once over every state rather than sampled by tests.

use vstd::prelude::*;
use crate::bus::{bus_read, bus_wf, bus_write, BusView};
use crate::cpu::{
    add_to_a_spec, cpu_wf, flags_bits, flags_from_bits, jsr_spec, lemma_flags_roundtrip,
    lsr_a_spec, asl_a_spec, php_spec, plp_spec, pop16_spec, pop_spec, push16_spec, push_spec,
    rts_spec, CpuFlags, CpuView,
};
use crate::joypad::{joypad_after_read, joypad_read_value, Joypad};
use crate::ppu::{mirror_vram_index, ppu_wrap_scanline, ppu_wf, Mirroring, PpuView};
use crate::registers::{addr_update, addr_wf, ctrl_generate_nmi, AddrRegister};

verus! {

/// ADC then SBC with the same operand restores the accumulator up to
/// the two carries: the result is `A + C_in + C_mid + 255` modulo 256,
/// so with the carry set going in and a carry out of the ADC the
/// accumulator comes back exactly.
pub proof fn lemma_adc_sbc_roundtrip(s: CpuView, m: u8)
    ensures
        ({
            let s1 = add_to_a_spec(s, m);
            let s2 = add_to_a_spec(s1, m ^ 0xff);
            let c: int = if s.status.carry {
                1
            } else {
                0
            };
            let c1: int = if s1.status.carry {
                1
            } else {
                0
            };
            s2.register_a == ((s.register_a + c + c1 + 255) % 256) as u8
        }),
{
    let a = s.register_a;
    let c: int = if s.status.carry {
        1
    } else {
        0
    };
    let s1 = add_to_a_spec(s, m);
    let sum: int = a + m + c;
    let c1: int = if sum > 0xff {
        1
    } else {
        0
    };
    assert(s1.register_a == (sum % 256) as u8);
    assert(sum % 256 == sum - 256 * c1);
    assert(m ^ 0xff == 255 - m) by (bit_vector);
    let sum2: int = s1.register_a + (m ^ 0xff) + c1;
    assert(sum2 == a + c + 255 - 255 * c1);
    let s2 = add_to_a_spec(s1, m ^ 0xff);
    assert(s2.register_a == (sum2 % 256) as u8);
    assert(sum2 % 256 == (a + c + c1 + 255) % 256);
}

/// ASL then LSR reproduces `(A << 1) >> 1`: the accumulator keeps its
/// low seven bits and loses bit 7.
pub proof fn lemma_asl_lsr(s: CpuView)
    ensures
        lsr_a_spec(asl_a_spec(s)).register_a == (s.register_a << 1) >> 1,
        lsr_a_spec(asl_a_spec(s)).register_a == s.register_a & 0x7f,
{
    let a = s.register_a;
    assert((a << 1) >> 1 == a & 0x7f) by (bit_vector);
}

/// Packing the status word and unpacking it restores every flag; this is
/// the heart of the PHP/PLP and RTI rules.
pub proof fn lemma_flags_pack_unpack(f: CpuFlags)
    ensures
        flags_from_bits(flags_bits(f)) == f,
{
    lemma_flags_roundtrip(f);
}

/// PHP then PLP restores the status word except for the Break-bit rules:
/// Break comes back clear and Break2 set, whatever they were. Registers
/// and the stack pointer also come back.
pub proof fn lemma_php_plp(s: CpuView)
    requires
        cpu_wf(s),
    ensures
        ({
            let s2 = plp_spec(php_spec(s));
            &&& s2.status == (CpuFlags { break_cmd: false, break2: true, ..s.status })
            &&& s2.stack_pointer == s.stack_pointer
            &&& s2.register_a == s.register_a
            &&& s2.register_x == s.register_x
            &&& s2.register_y == s.register_y
            &&& s2.program_counter == s.program_counter
        }),
{
    let pushed = flags_bits(CpuFlags { break_cmd: true, break2: true, ..s.status });
    let slot: u16 = (0x0100 + s.stack_pointer as u16) as u16;
    assert(slot & 0x7ff == slot && slot < 0x800) by (bit_vector)
        requires
            0x100 <= slot < 0x200,
    ;
    let s1 = php_spec(s);
    let (word, s2) = pop_spec(s1);
    assert(word == pushed);
    lemma_flags_roundtrip(CpuFlags { break_cmd: true, break2: true, ..s.status });
}

/// JSR then RTS resumes at the instruction after the JSR: with the
/// program counter on the JSR's operand, the return lands two bytes
/// later, at the next opcode.
#[verifier::rlimit(100)]
#[verifier::spinoff_prover]
pub proof fn lemma_jsr_rts(s: CpuView)
    requires
        cpu_wf(s),
    ensures
        rts_spec(jsr_spec(s)).program_counter == s.program_counter.wrapping_add(2),
        rts_spec(jsr_spec(s)).stack_pointer == s.stack_pointer,
{
    let ret = s.program_counter.wrapping_add(1);
    let hi_slot: u16 = (0x0100 + s.stack_pointer as u16) as u16;
    let lo_slot: u16 = (0x0100 + s.stack_pointer.wrapping_sub(1) as u16) as u16;
    assert(hi_slot & 0x7ff == hi_slot && hi_slot < 0x800 && lo_slot & 0x7ff == lo_slot && lo_slot
        < 0x800 && hi_slot != lo_slot) by (bit_vector)
        requires
            0x100 <= hi_slot < 0x200 && 0x100 <= lo_slot < 0x200 && hi_slot != lo_slot,
    ;
    assert(s.stack_pointer.wrapping_sub(1).wrapping_sub(1).wrapping_add(1)
        == s.stack_pointer.wrapping_sub(1));
    assert(s.stack_pointer.wrapping_sub(1).wrapping_add(1) == s.stack_pointer);
    let s1 = push16_spec(s, ret);
    let u = jsr_spec(s);
    let (t, u1) = pop16_spec(u);
    assert(t == ((((ret >> 8) as u8) as u16) << 8) | (((ret & 0xff) as u8) as u16));
    assert(((((ret >> 8) as u8) as u16) << 8) | (((ret & 0xff) as u8) as u16) == ret)
        by (bit_vector);
}

/// One write to PPUADDR with the latch high, then one with it low, forms
/// the 14-bit pointer `(hi << 8 | lo) & 0x3FFF`, and the latch is ready
/// for a high byte again.
pub proof fn lemma_ppu_addr_two_writes(a: AddrRegister, hi: u8, lo: u8)
    requires
        a.hi_ptr,
    ensures
        addr_update(addr_update(a, hi), lo).value == (((hi as u16) << 8) | (lo as u16)) & 0x3fff,
        addr_update(addr_update(a, hi), lo).hi_ptr,
        addr_wf(addr_update(addr_update(a, hi), lo)),
{
    let av: u16 = a.value;
    let v1 = ((((hi as u16) << 8) | (av & 0xff)) & 0x3fff) as u16;
    assert(((v1 & 0xff00) | (lo as u16)) & 0x3fff == (((hi as u16) << 8) | (lo as u16)) & 0x3fff)
        by (bit_vector)
        requires
            v1 == ((((hi as u16) << 8) | (av & 0xff)) & 0x3fff) as u16,
    ;
    assert(((v1 & 0xff00) | (lo as u16)) & 0x3fff < 0x4000) by (bit_vector);
}

/// The nametable aliasing each mirroring mode induces: with Horizontal
/// mirroring the left/right nametable pairs share storage, with Vertical
/// the top/bottom pairs do.
pub proof fn lemma_vram_mirror_pairs(i: u16)
    requires
        i < 0x400,
    ensures
        mirror_vram_index(Mirroring::Horizontal, (0x2000 + i) as u16) == mirror_vram_index(
            Mirroring::Horizontal,
            (0x2400 + i) as u16,
        ),
        mirror_vram_index(Mirroring::Horizontal, (0x2800 + i) as u16) == mirror_vram_index(
            Mirroring::Horizontal,
            (0x2c00 + i) as u16,
        ),
        mirror_vram_index(Mirroring::Vertical, (0x2000 + i) as u16) == mirror_vram_index(
            Mirroring::Vertical,
            (0x2800 + i) as u16,
        ),
        mirror_vram_index(Mirroring::Vertical, (0x2400 + i) as u16) == mirror_vram_index(
            Mirroring::Vertical,
            (0x2c00 + i) as u16,
        ),
{
    let a0 = (0x2000 + i) as u16;
    let a1 = (0x2400 + i) as u16;
    let a2 = (0x2800 + i) as u16;
    let a3 = (0x2c00 + i) as u16;
    assert(a0 & 0x2fff == a0 && a1 & 0x2fff == a1 && a2 & 0x2fff == a2 && a3 & 0x2fff == a3)
        by (bit_vector)
        requires
            a0 == (0x2000 + i) as u16 && a1 == (0x2400 + i) as u16 && a2 == (0x2800 + i) as u16
                && a3 == (0x2c00 + i) as u16 && i < 0x400,
    ;
}

/// Entering scanline 241 raises VBlank (and the NMI when PPUCTRL enables
/// it); finishing scanline 261 starts a clean frame: VBlank, the sprite
/// bits and any pending NMI are cleared.
pub proof fn lemma_vblank_boundaries(p: PpuView)
    requires
        p.cycles >= 341,
    ensures
        p.scanline == 240 ==> ppu_wrap_scanline(p).0.stat.vblank,
        p.scanline == 240 && ctrl_generate_nmi(p.ctrl) ==> ppu_wrap_scanline(p).0.nmi_interrupt
            is Some,
        p.scanline == 240 && !ctrl_generate_nmi(p.ctrl) ==> ppu_wrap_scanline(p).0.nmi_interrupt
            == p.nmi_interrupt,
        p.scanline == 261 ==> {
            let (q, frame) = ppu_wrap_scanline(p);
            &&& !q.stat.vblank
            &&& !q.stat.sprite_zero_hit
            &&& !q.stat.sprite_overflow
            &&& q.nmi_interrupt is None
            &&& q.scanline == 0
            &&& frame
        },
{
}

/// Work RAM appears at four mirrors: a write through any address in
/// 0x0000..=0x1FFF is read back through every address with the same low
/// eleven bits.
pub proof fn lemma_ram_mirroring(b: BusView, a1: u16, a2: u16, v: u8)
    requires
        bus_wf(b),
        a1 <= 0x1fff,
        a2 <= 0x1fff,
        a1 & 0x7ff == a2 & 0x7ff,
    ensures
        bus_write(b, a1, v) matches Ok(b1) && bus_read(b1, a2).0 == v,
{
    assert((a1 & 0x7ff) < 0x800) by (bit_vector);
}

/// The PPU registers appear every eight bytes across 0x2000..=0x3FFF: a
/// read anywhere in the window behaves as the read of its base register.
pub proof fn lemma_ppu_register_mirroring(b: BusView, addr: u16)
    requires
        bus_wf(b),
        0x2000 <= addr <= 0x3fff,
    ensures
        bus_read(b, addr) == bus_read(b, addr & 0x2007),
        0x2000 <= (addr & 0x2007) <= 0x2007,
{
    assert(0x2000 <= (addr & 0x2007) <= 0x2007 && ((addr & 0x2007) & 0x2007) == (addr & 0x2007))
        by (bit_vector)
        requires
            0x2000 <= addr <= 0x3fff,
    ;
}

/// Once all eight buttons have been shifted out and the strobe is low,
/// every further read reports 1 and leaves the controller unchanged.
pub proof fn lemma_joypad_exhausted(j: Joypad)
    requires
        !j.strobe,
        j.button_index > 7,
    ensures
        joypad_read_value(j) == 1,
        joypad_after_read(j) == j,
{
}

/// While the strobe is high, every read reports button A and the shift
/// index never advances.
pub proof fn lemma_joypad_strobed(j: Joypad)
    requires
        j.strobe,
        j.button_index == 0,
    ensures
        joypad_read_value(j) == j.button_status & 1,
        joypad_after_read(j) == j,
{
    let bs: u8 = j.button_status;
    assert((bs >> 0u8) & 1 == bs & 1) by (bit_vector);
}

} // verus!

//! The 6502 CPU: architectural registers, the processor status word, and
//! the fetch-decode-execute machinery.

use vstd::prelude::*;
use crate::bus::{bus_read, bus_tick, bus_wf, bus_write, Bus, BusView, EmuError};
use crate::opcodes::{find_opcode, opcode_info};
use crate::joypad::Joypad;
use crate::ppu::{Mirroring, NesPPU, PpuView};
use crate::registers::{AddrRegister, ScrollRegister, StatusRegister};

verus! {

/// The processor status word, kept as one field per flag.
///
/// Bit layout when packed into a byte (low to high): Carry, Zero,
/// InterruptDisable, Decimal, Break, Break2, Overflow, Negative.
#[derive(Clone, Copy, Debug, PartialEq, Eq, Structural)]
pub struct CpuFlags {
    pub carry: bool,
    pub zero: bool,
    pub interrupt_disable: bool,
    pub decimal_mode: bool,
    pub break_cmd: bool,
    pub break2: bool,
    pub overflow: bool,
    pub negative: bool,
}

/// The packed byte for a status word: each flag contributes its bit.
pub open spec fn flags_bits(f: CpuFlags) -> u8 {
    (if f.carry { 0x01u8 } else { 0u8 })
        | (if f.zero { 0x02u8 } else { 0u8 })
        | (if f.interrupt_disable { 0x04u8 } else { 0u8 })
        | (if f.decimal_mode { 0x08u8 } else { 0u8 })
        | (if f.break_cmd { 0x10u8 } else { 0u8 })
        | (if f.break2 { 0x20u8 } else { 0u8 })
        | (if f.overflow { 0x40u8 } else { 0u8 })
        | (if f.negative { 0x80u8 } else { 0u8 })
}

/// The status word unpacked from a byte: each flag reads its bit.
pub open spec fn flags_from_bits(b: u8) -> CpuFlags {
    CpuFlags {
        carry: b & 0x01 != 0,
        zero: b & 0x02 != 0,
        interrupt_disable: b & 0x04 != 0,
        decimal_mode: b & 0x08 != 0,
        break_cmd: b & 0x10 != 0,
        break2: b & 0x20 != 0,
        overflow: b & 0x40 != 0,
        negative: b & 0x80 != 0,
    }
}

/// The status word after a reset: InterruptDisable and Break2 set.
pub open spec fn reset_flags() -> CpuFlags {
    CpuFlags {
        carry: false,
        zero: false,
        interrupt_disable: true,
        decimal_mode: false,
        break_cmd: false,
        break2: true,
        overflow: false,
        negative: false,
    }
}

impl CpuFlags {
    /// Mask for the Carry flag.
    pub const CARRY: u8 = 0x01;
    /// Mask for the Zero flag.
    pub const ZERO: u8 = 0x02;
    /// Mask for the InterruptDisable flag.
    pub const INTERRUPT_DISABLE: u8 = 0x04;
    /// Mask for the Decimal flag (stored but unused by the NES ALU).
    pub const DECIMAL_MODE: u8 = 0x08;
    /// Mask for the Break flag.
    pub const BREAK: u8 = 0x10;
    /// Mask for the Break2 flag (always 1 when the word is pushed).
    pub const BREAK2: u8 = 0x20;
    /// Mask for the Overflow flag.
    pub const OVERFLOW: u8 = 0x40;
    /// Mask for the Negative flag.
    pub const NEGATIV: u8 = 0x80;

    /// The status word at reset: InterruptDisable and Break2 set.
    pub fn reset_value() -> (r: CpuFlags)
        ensures
            r == reset_flags(),
    {
        CpuFlags {
            carry: false,
            zero: false,
            interrupt_disable: true,
            decimal_mode: false,
            break_cmd: false,
            break2: true,
            overflow: false,
            negative: false,
        }
    }

    /// Pack the flags into one byte.
    pub fn bits(&self) -> (r: u8)
        ensures
            r == flags_bits(*self),
    {
        (if self.carry { 0x01u8 } else { 0u8 })
            | (if self.zero { 0x02u8 } else { 0u8 })
            | (if self.interrupt_disable { 0x04u8 } else { 0u8 })
            | (if self.decimal_mode { 0x08u8 } else { 0u8 })
            | (if self.break_cmd { 0x10u8 } else { 0u8 })
            | (if self.break2 { 0x20u8 } else { 0u8 })
            | (if self.overflow { 0x40u8 } else { 0u8 })
            | (if self.negative { 0x80u8 } else { 0u8 })
    }

    /// Unpack a byte into flags.
    pub fn from_bits(b: u8) -> (r: CpuFlags)
        ensures
            r == flags_from_bits(b),
    {
        CpuFlags {
            carry: b & 0x01 != 0,
            zero: b & 0x02 != 0,
            interrupt_disable: b & 0x04 != 0,
            decimal_mode: b & 0x08 != 0,
            break_cmd: b & 0x10 != 0,
            break2: b & 0x20 != 0,
            overflow: b & 0x40 != 0,
            negative: b & 0x80 != 0,
        }
    }

    /// True when every flag selected by `mask` is set in the packed word.
    pub fn contains(&self, mask: u8) -> (r: bool)
        ensures
            r == (flags_bits(*self) & mask == mask),
    {
        self.bits() & mask == mask
    }
}

/// Packing then unpacking the status word restores every flag.
pub proof fn lemma_flags_roundtrip(f: CpuFlags)
    ensures
        flags_from_bits(flags_bits(f)) == f,
{
    let c: u8 = if f.carry { 1 } else { 0 };
    let z: u8 = if f.zero { 1 } else { 0 };
    let i: u8 = if f.interrupt_disable { 1 } else { 0 };
    let d: u8 = if f.decimal_mode { 1 } else { 0 };
    let b: u8 = if f.break_cmd { 1 } else { 0 };
    let b2: u8 = if f.break2 { 1 } else { 0 };
    let v: u8 = if f.overflow { 1 } else { 0 };
    let n: u8 = if f.negative { 1 } else { 0 };
    let w = flags_bits(f);
    assert(w == (if c == 1 { 0x01u8 } else { 0u8 }) | (if z == 1 { 0x02u8 } else { 0u8 })
        | (if i == 1 { 0x04u8 } else { 0u8 }) | (if d == 1 { 0x08u8 } else { 0u8 })
        | (if b == 1 { 0x10u8 } else { 0u8 }) | (if b2 == 1 { 0x20u8 } else { 0u8 })
        | (if v == 1 { 0x40u8 } else { 0u8 }) | (if n == 1 { 0x80u8 } else { 0u8 }));
    assert({
        let w = (if c == 1 { 0x01u8 } else { 0u8 }) | (if z == 1 { 0x02u8 } else { 0u8 })
            | (if i == 1 { 0x04u8 } else { 0u8 }) | (if d == 1 { 0x08u8 } else { 0u8 })
            | (if b == 1 { 0x10u8 } else { 0u8 }) | (if b2 == 1 { 0x20u8 } else { 0u8 })
            | (if v == 1 { 0x40u8 } else { 0u8 }) | (if n == 1 { 0x80u8 } else { 0u8 });
        (w & 0x01 != 0) == (c == 1) && (w & 0x02 != 0) == (z == 1)
            && (w & 0x04 != 0) == (i == 1) && (w & 0x08 != 0) == (d == 1)
            && (w & 0x10 != 0) == (b == 1) && (w & 0x20 != 0) == (b2 == 1)
            && (w & 0x40 != 0) == (v == 1) && (w & 0x80 != 0) == (n == 1)
    }) by (bit_vector)
        requires
            c <= 1 && z <= 1 && i <= 1 && d <= 1 && b <= 1 && b2 <= 1 && v <= 1 && n <= 1,
    ;
}

/// How an instruction finds its operand.
#[allow(non_camel_case_types)]
#[derive(Clone, Copy, Debug, PartialEq, Eq, Structural)]
pub enum AddressingMode {
    Immediate,
    ZeroPage,
    ZeroPage_X,
    ZeroPage_Y,
    Absolute,
    Absolute_X,
    Absolute_Y,
    Indirect_X,
    Indirect_Y,
    NoneAddressing,
}

/// The whole machine as the specifications see it: the seven
/// architectural registers over the bus.
pub struct CpuView {
    pub register_a: u8,
    pub register_x: u8,
    pub register_y: u8,
    pub status: CpuFlags,
    pub program_counter: u16,
    pub stack_pointer: u8,
    pub bus: BusView,
}

/// The CPU: registers plus the bus it owns, which is its only road to
/// memory.
pub struct CPU {
    pub register_a: u8,
    pub register_x: u8,
    pub register_y: u8,
    pub status: CpuFlags,
    pub program_counter: u16,
    pub stack_pointer: u8,
    pub bus: Bus,
}

impl View for CPU {
    type V = CpuView;

    open spec fn view(&self) -> CpuView {
        CpuView {
            register_a: self.register_a,
            register_x: self.register_x,
            register_y: self.register_y,
            status: self.status,
            program_counter: self.program_counter,
            stack_pointer: self.stack_pointer,
            bus: self.bus@,
        }
    }
}

/// Machine well-formedness is bus well-formedness: the registers carry
/// no further invariant.
pub open spec fn cpu_wf(s: CpuView) -> bool {
    bus_wf(s.bus)
}

/// One read through the bus, threading the machine state.
pub open spec fn rd(s: CpuView, addr: u16) -> (u8, CpuView) {
    let (v, b) = bus_read(s.bus, addr);
    (v, CpuView { bus: b, ..s })
}

/// A little-endian 16-bit read through the bus.
pub open spec fn rd16(s: CpuView, addr: u16) -> (u16, CpuView) {
    let (lo, s1) = rd(s, addr);
    let (hi, s2) = rd(s1, addr.wrapping_add(1));
    ((((hi as u16) << 8) | (lo as u16)), s2)
}

/// One write through the bus; the machine state is unchanged when the
/// write is refused.
pub open spec fn wr(s: CpuView, addr: u16, v: u8) -> (CpuView, Result<(), EmuError>) {
    match bus_write(s.bus, addr, v) {
        Ok(b) => (CpuView { bus: b, ..s }, Ok(())),
        Err(e) => (s, Err(e)),
    }
}

/// The status word after a load or ALU result: Zero tracks the value
/// being 0, Negative its bit 7.
pub open spec fn with_zn(f: CpuFlags, v: u8) -> CpuFlags {
    CpuFlags { zero: v == 0, negative: v & 0x80 != 0, ..f }
}

/// A push: store at 0x0100 + SP, then decrement SP.
pub open spec fn push_spec(s: CpuView, v: u8) -> CpuView {
    let (s1, _r) = wr(s, (0x0100 + s.stack_pointer as u16) as u16, v);
    CpuView { stack_pointer: s.stack_pointer.wrapping_sub(1), ..s1 }
}

/// A pull: increment SP, then read at 0x0100 + SP.
pub open spec fn pop_spec(s: CpuView) -> (u8, CpuView) {
    let sp = s.stack_pointer.wrapping_add(1);
    rd(CpuView { stack_pointer: sp, ..s }, (0x0100 + sp as u16) as u16)
}

/// A 16-bit push: high byte first, so the low byte ends on top.
pub open spec fn push16_spec(s: CpuView, v: u16) -> CpuView {
    push_spec(push_spec(s, (v >> 8) as u8), (v & 0xff) as u8)
}

/// A 16-bit pull: low byte first.
pub open spec fn pop16_spec(s: CpuView) -> (u16, CpuView) {
    let (lo, s1) = pop_spec(s);
    let (hi, s2) = pop_spec(s1);
    ((((hi as u16) << 8) | (lo as u16)), s2)
}

/// Where an instruction's operand lives, and the machine after the
/// operand bytes were fetched. The program counter still points at the
/// first operand byte.
pub open spec fn operand_addr(s: CpuView, mode: AddressingMode) -> (u16, CpuView) {
    match mode {
        AddressingMode::Immediate => (s.program_counter, s),
        AddressingMode::ZeroPage => {
            let (v, s1) = rd(s, s.program_counter);
            (v as u16, s1)
        },
        AddressingMode::ZeroPage_X => {
            let (v, s1) = rd(s, s.program_counter);
            (v.wrapping_add(s.register_x) as u16, s1)
        },
        AddressingMode::ZeroPage_Y => {
            let (v, s1) = rd(s, s.program_counter);
            (v.wrapping_add(s.register_y) as u16, s1)
        },
        AddressingMode::Absolute => rd16(s, s.program_counter),
        AddressingMode::Absolute_X => {
            let (v, s1) = rd16(s, s.program_counter);
            (v.wrapping_add(s.register_x as u16), s1)
        },
        AddressingMode::Absolute_Y => {
            let (v, s1) = rd16(s, s.program_counter);
            (v.wrapping_add(s.register_y as u16), s1)
        },
        AddressingMode::Indirect_X => {
            let (base, s1) = rd(s, s.program_counter);
            let ptr = base.wrapping_add(s.register_x);
            let (lo, s2) = rd(s1, ptr as u16);
            let (hi, s3) = rd(s2, ptr.wrapping_add(1) as u16);
            ((((hi as u16) << 8) | (lo as u16)), s3)
        },
        AddressingMode::Indirect_Y => {
            let (base, s1) = rd(s, s.program_counter);
            let (lo, s2) = rd(s1, base as u16);
            let (hi, s3) = rd(s2, base.wrapping_add(1) as u16);
            let deref_base = ((hi as u16) << 8) | (lo as u16);
            (deref_base.wrapping_add(s.register_y as u16), s3)
        },
        AddressingMode::NoneAddressing => (s.program_counter, s),
    }
}

/// The accumulator, carry and overflow after adding `m` with carry-in.
pub open spec fn add_to_a_spec(s: CpuView, m: u8) -> CpuView {
    let c: int = if s.status.carry {
        1
    } else {
        0
    };
    let sum: int = s.register_a + m + c;
    let r: u8 = (sum % 256) as u8;
    let carry = sum > 0xff;
    let overflow = ((m ^ r) & (r ^ s.register_a) & 0x80) != 0;
    CpuView { register_a: r, status: with_zn(CpuFlags { carry, overflow, ..s.status }, r), ..s }
}

/// ADC over a resolved operand.
pub open spec fn adc_spec(s: CpuView, mode: AddressingMode) -> CpuView {
    let (addr, s1) = operand_addr(s, mode);
    let (v, s2) = rd(s1, addr);
    add_to_a_spec(s2, v)
}

/// SBC over a resolved operand: add the complemented operand.
pub open spec fn sbc_spec(s: CpuView, mode: AddressingMode) -> CpuView {
    let (addr, s1) = operand_addr(s, mode);
    let (v, s2) = rd(s1, addr);
    add_to_a_spec(s2, v ^ 0xff)
}

/// AND over a resolved operand.
pub open spec fn and_spec(s: CpuView, mode: AddressingMode) -> CpuView {
    let (addr, s1) = operand_addr(s, mode);
    let (v, s2) = rd(s1, addr);
    let r = s2.register_a & v;
    CpuView { register_a: r, status: with_zn(s2.status, r), ..s2 }
}

/// EOR over a resolved operand.
pub open spec fn eor_spec(s: CpuView, mode: AddressingMode) -> CpuView {
    let (addr, s1) = operand_addr(s, mode);
    let (v, s2) = rd(s1, addr);
    let r = s2.register_a ^ v;
    CpuView { register_a: r, status: with_zn(s2.status, r), ..s2 }
}

/// ORA over a resolved operand.
pub open spec fn ora_spec(s: CpuView, mode: AddressingMode) -> CpuView {
    let (addr, s1) = operand_addr(s, mode);
    let (v, s2) = rd(s1, addr);
    let r = s2.register_a | v;
    CpuView { register_a: r, status: with_zn(s2.status, r), ..s2 }
}

/// CMP/CPX/CPY: C says the register is at least the operand, Z/N follow
/// the wrapped difference.
pub open spec fn compare_spec(s: CpuView, mode: AddressingMode, compare_with: u8) -> CpuView {
    let (addr, s1) = operand_addr(s, mode);
    let (v, s2) = rd(s1, addr);
    CpuView {
        status: with_zn(CpuFlags { carry: v <= compare_with, ..s2.status }, compare_with.wrapping_sub(v)),
        ..s2
    }
}

/// BIT: Z from `A & M`, N from bit 7 of M, V from bit 6 of M.
pub open spec fn bit_spec(s: CpuView, mode: AddressingMode) -> CpuView {
    let (addr, s1) = operand_addr(s, mode);
    let (v, s2) = rd(s1, addr);
    CpuView {
        status: CpuFlags {
            zero: s2.register_a & v == 0,
            negative: v & 0x80 != 0,
            overflow: v & 0x40 != 0,
            ..s2.status
        },
        ..s2
    }
}

/// LDA over a resolved operand.
pub open spec fn lda_spec(s: CpuView, mode: AddressingMode) -> CpuView {
    let (addr, s1) = operand_addr(s, mode);
    let (v, s2) = rd(s1, addr);
    CpuView { register_a: v, status: with_zn(s2.status, v), ..s2 }
}

/// LDX over a resolved operand.
pub open spec fn ldx_spec(s: CpuView, mode: AddressingMode) -> CpuView {
    let (addr, s1) = operand_addr(s, mode);
    let (v, s2) = rd(s1, addr);
    CpuView { register_x: v, status: with_zn(s2.status, v), ..s2 }
}

/// LDY over a resolved operand.
pub open spec fn ldy_spec(s: CpuView, mode: AddressingMode) -> CpuView {
    let (addr, s1) = operand_addr(s, mode);
    let (v, s2) = rd(s1, addr);
    CpuView { register_y: v, status: with_zn(s2.status, v), ..s2 }
}

/// STA over a resolved operand.
pub open spec fn sta_spec(s: CpuView, mode: AddressingMode) -> (CpuView, Result<(), EmuError>) {
    let (addr, s1) = operand_addr(s, mode);
    wr(s1, addr, s1.register_a)
}

/// STX over a resolved operand.
pub open spec fn stx_spec(s: CpuView, mode: AddressingMode) -> (CpuView, Result<(), EmuError>) {
    let (addr, s1) = operand_addr(s, mode);
    wr(s1, addr, s1.register_x)
}

/// STY over a resolved operand.
pub open spec fn sty_spec(s: CpuView, mode: AddressingMode) -> (CpuView, Result<(), EmuError>) {
    let (addr, s1) = operand_addr(s, mode);
    wr(s1, addr, s1.register_y)
}

/// ASL on the accumulator: carry takes the old bit 7.
pub open spec fn asl_a_spec(s: CpuView) -> CpuView {
    let r: u8 = s.register_a << 1;
    CpuView {
        register_a: r,
        status: with_zn(CpuFlags { carry: s.register_a & 0x80 != 0, ..s.status }, r),
        ..s
    }
}

/// ASL on memory: the carry is set even when the write-back is refused.
pub open spec fn asl_spec(s: CpuView, mode: AddressingMode) -> (CpuView, Result<(), EmuError>) {
    let (addr, s1) = operand_addr(s, mode);
    let (v, s2) = rd(s1, addr);
    let r: u8 = v << 1;
    let s3 = CpuView { status: CpuFlags { carry: v & 0x80 != 0, ..s2.status }, ..s2 };
    let (s4, res) = wr(s3, addr, r);
    match res {
        Err(e) => (s4, Err(e)),
        Ok(()) => (CpuView { status: with_zn(s4.status, r), ..s4 }, Ok(())),
    }
}

/// LSR on the accumulator: carry takes the old bit 0.
pub open spec fn lsr_a_spec(s: CpuView) -> CpuView {
    let r: u8 = s.register_a >> 1;
    CpuView {
        register_a: r,
        status: with_zn(CpuFlags { carry: s.register_a & 1 != 0, ..s.status }, r),
        ..s
    }
}

/// LSR on memory.
pub open spec fn lsr_spec(s: CpuView, mode: AddressingMode) -> (CpuView, Result<(), EmuError>) {
    let (addr, s1) = operand_addr(s, mode);
    let (v, s2) = rd(s1, addr);
    let r: u8 = v >> 1;
    let s3 = CpuView { status: CpuFlags { carry: v & 1 != 0, ..s2.status }, ..s2 };
    let (s4, res) = wr(s3, addr, r);
    match res {
        Err(e) => (s4, Err(e)),
        Ok(()) => (CpuView { status: with_zn(s4.status, r), ..s4 }, Ok(())),
    }
}

/// ROL on the accumulator: the old carry enters bit 0.
pub open spec fn rol_a_spec(s: CpuView) -> CpuView {
    let r: u8 = (s.register_a << 1) | (if s.status.carry {
        1u8
    } else {
        0u8
    });
    CpuView {
        register_a: r,
        status: with_zn(CpuFlags { carry: s.register_a & 0x80 != 0, ..s.status }, r),
        ..s
    }
}

/// ROL on memory.
pub open spec fn rol_spec(s: CpuView, mode: AddressingMode) -> (CpuView, Result<(), EmuError>) {
    let (addr, s1) = operand_addr(s, mode);
    let (v, s2) = rd(s1, addr);
    let r: u8 = (v << 1) | (if s2.status.carry {
        1u8
    } else {
        0u8
    });
    let s3 = CpuView { status: CpuFlags { carry: v & 0x80 != 0, ..s2.status }, ..s2 };
    let (s4, res) = wr(s3, addr, r);
    match res {
        Err(e) => (s4, Err(e)),
        Ok(()) => (CpuView { status: with_zn(s4.status, r), ..s4 }, Ok(())),
    }
}

/// ROR on the accumulator: the old carry enters bit 7.
pub open spec fn ror_a_spec(s: CpuView) -> CpuView {
    let r: u8 = (s.register_a >> 1) | (if s.status.carry {
        0x80u8
    } else {
        0u8
    });
    CpuView {
        register_a: r,
        status: with_zn(CpuFlags { carry: s.register_a & 1 != 0, ..s.status }, r),
        ..s
    }
}

/// ROR on memory.
pub open spec fn ror_spec(s: CpuView, mode: AddressingMode) -> (CpuView, Result<(), EmuError>) {
    let (addr, s1) = operand_addr(s, mode);
    let (v, s2) = rd(s1, addr);
    let r: u8 = (v >> 1) | (if s2.status.carry {
        0x80u8
    } else {
        0u8
    });
    let s3 = CpuView { status: CpuFlags { carry: v & 1 != 0, ..s2.status }, ..s2 };
    let (s4, res) = wr(s3, addr, r);
    match res {
        Err(e) => (s4, Err(e)),
        Ok(()) => (CpuView { status: with_zn(s4.status, r), ..s4 }, Ok(())),
    }
}

/// INC on memory.
pub open spec fn inc_spec(s: CpuView, mode: AddressingMode) -> (CpuView, Result<(), EmuError>) {
    let (addr, s1) = operand_addr(s, mode);
    let (v, s2) = rd(s1, addr);
    let r = v.wrapping_add(1);
    let (s3, res) = wr(s2, addr, r);
    match res {
        Err(e) => (s3, Err(e)),
        Ok(()) => (CpuView { status: with_zn(s3.status, r), ..s3 }, Ok(())),
    }
}

/// DEC on memory.
pub open spec fn dec_spec(s: CpuView, mode: AddressingMode) -> (CpuView, Result<(), EmuError>) {
    let (addr, s1) = operand_addr(s, mode);
    let (v, s2) = rd(s1, addr);
    let r = v.wrapping_sub(1);
    let (s3, res) = wr(s2, addr, r);
    match res {
        Err(e) => (s3, Err(e)),
        Ok(()) => (CpuView { status: with_zn(s3.status, r), ..s3 }, Ok(())),
    }
}

/// The offset byte of a branch, sign-extended to 16 bits.
pub open spec fn sign_extend(m: u8) -> u16 {
    if m < 0x80 {
        m as u16
    } else {
        (m as u16) | 0xff00
    }
}

/// A conditional branch: when taken, the target is the address after the
/// offset byte plus the signed offset; when not taken, nothing happens
/// here (the main loop then skips the offset byte).
pub open spec fn branch_spec(s: CpuView, condition: bool) -> CpuView {
    if condition {
        let (m, s1) = rd(s, s.program_counter);
        CpuView {
            program_counter: s.program_counter.wrapping_add(1).wrapping_add(sign_extend(m)),
            ..s1
        }
    } else {
        s
    }
}

/// JMP absolute.
pub open spec fn jmp_abs_spec(s: CpuView) -> CpuView {
    let (t, s1) = rd16(s, s.program_counter);
    CpuView { program_counter: t, ..s1 }
}

/// JMP indirect, with the page-wrap bug on a pointer ending in 0xFF.
pub open spec fn jmp_ind_spec(s: CpuView) -> CpuView {
    let (ptr, s1) = rd16(s, s.program_counter);
    if ptr & 0x00ff == 0x00ff {
        let (lo, s2) = rd(s1, ptr);
        let (hi, s3) = rd(s2, ptr & 0xff00);
        CpuView { program_counter: ((hi as u16) << 8) | (lo as u16), ..s3 }
    } else {
        let (t, s2) = rd16(s1, ptr);
        CpuView { program_counter: t, ..s2 }
    }
}

/// JSR: push the address of this instruction's last byte, then jump.
pub open spec fn jsr_spec(s: CpuView) -> CpuView {
    let s1 = push16_spec(s, s.program_counter.wrapping_add(1));
    let (t, s2) = rd16(s1, s1.program_counter);
    CpuView { program_counter: t, ..s2 }
}

/// RTS: pull the return address and resume one byte past it.
pub open spec fn rts_spec(s: CpuView) -> CpuView {
    let (t, s1) = pop16_spec(s);
    CpuView { program_counter: t.wrapping_add(1), ..s1 }
}

/// The status word as PLP and RTI restore it: Break forced off, Break2
/// forced on.
pub open spec fn restored_flags(word: u8) -> CpuFlags {
    CpuFlags { break_cmd: false, break2: true, ..flags_from_bits(word) }
}

/// RTI: pull the status word, then the program counter.
pub open spec fn rti_spec(s: CpuView) -> CpuView {
    let (word, s1) = pop_spec(s);
    let s2 = CpuView { status: restored_flags(word), ..s1 };
    let (t, s3) = pop16_spec(s2);
    CpuView { program_counter: t, ..s3 }
}

/// PLA: pull the accumulator and set Z/N.
pub open spec fn pla_spec(s: CpuView) -> CpuView {
    let (v, s1) = pop_spec(s);
    CpuView { register_a: v, status: with_zn(s1.status, v), ..s1 }
}

/// PHP: push the status word with both Break bits set.
pub open spec fn php_spec(s: CpuView) -> CpuView {
    push_spec(s, flags_bits(CpuFlags { break_cmd: true, break2: true, ..s.status }))
}

/// PLP: pull the status word, with the Break-bit rules.
pub open spec fn plp_spec(s: CpuView) -> CpuView {
    let (word, s1) = pop_spec(s);
    CpuView { status: restored_flags(word), ..s1 }
}

impl CPU {
    /// A CPU over an empty 32 KiB NROM cartridge, as the test harness
    /// uses it: programs are then planted with `load`.
    pub fn new() -> (r: CPU)
        ensures
            cpu_wf(r@),
            r@.register_a == 0 && r@.register_x == 0 && r@.register_y == 0,
            r@.program_counter == 0 && r@.stack_pointer == 0xfd,
            r@.status == reset_flags(),
            r@.bus.prg_rom.len() == 0x8000,
            forall|i: int| 0 <= i < 0x8000 ==> r@.bus.prg_rom[i] == 0,
            forall|i: int| 0 <= i < 0x800 ==> r@.bus.cpu_vram[i] == 0,
            forall|i: int| 0 <= i < 0x800 ==> r@.bus.ppu.vram[i] == 0,
            forall|i: int| 0 <= i < 0x20 ==> r@.bus.ppu.palette_table[i] == 0,
            forall|i: int| 0 <= i < 0x100 ==> r@.bus.ppu.oam_data[i] == 0,
            r@.bus.ppu.nmi_interrupt is None,
            r@.bus.ppu.ctrl.bits == 0,
            r@.bus.ppu.mask == 0,
            r@.bus.ppu.oam_addr == 0,
            r@.bus.ppu.internal_data_buf == 0,
            r@.bus.ppu.scroll == (ScrollRegister { scroll_x: 0, scroll_y: 0, latch: false }),
            r@.bus.ppu.addr == (AddrRegister { value: 0, hi_ptr: true }),
            r@.bus.ppu.stat == (StatusRegister {
                sprite_overflow: false,
                sprite_zero_hit: false,
                vblank: false,
            }),
            r@.bus.ppu.scanline == 0,
            r@.bus.ppu.cycles == 0,
            r@.bus.joypad1 == (Joypad { strobe: false, button_index: 0, button_status: 0 }),
            r@.bus.cycles == 0,
    {
        let prg = vec![0u8; 0x8000];
        let chr = vec![0u8; 0x2000];
        let bus = Bus::new(prg, chr, Mirroring::Vertical);
        CPU::new_with_bus(bus)
    }

    /// A CPU over an existing bus (the cartridge already inserted).
    pub fn new_with_bus(bus: Bus) -> (r: CPU)
        requires
            bus_wf(bus@),
        ensures
            cpu_wf(r@),
            r@.register_a == 0 && r@.register_x == 0 && r@.register_y == 0,
            r@.program_counter == 0 && r@.stack_pointer == 0xfd,
            r@.status == reset_flags(),
            r@.bus == bus@,
    {
        CPU {
            register_a: 0,
            register_x: 0,
            register_y: 0,
            status: CpuFlags::reset_value(),
            program_counter: 0,
            stack_pointer: 0xfd,
            bus,
        }
    }

    /// One read through the bus (PPU and joypad read side effects apply).
    pub fn mem_read(&mut self, addr: u16) -> (r: u8)
        requires
            cpu_wf(old(self)@),
        ensures
            r == rd(old(self)@, addr).0,
            final(self)@ == rd(old(self)@, addr).1,
            cpu_wf(final(self)@),
    {
        self.bus.mem_read(addr)
    }

    /// One write through the bus; `Err` reports a forbidden write and
    /// leaves the machine unchanged.
    pub fn mem_write(&mut self, addr: u16, data: u8) -> (r: Result<(), EmuError>)
        requires
            cpu_wf(old(self)@),
        ensures
            final(self)@ == wr(old(self)@, addr, data).0,
            r == wr(old(self)@, addr, data).1,
            cpu_wf(final(self)@),
    {
        self.bus.mem_write(addr, data)
    }

    /// A little-endian 16-bit read.
    pub fn mem_read_u16(&mut self, pos: u16) -> (r: u16)
        requires
            cpu_wf(old(self)@),
        ensures
            r == rd16(old(self)@, pos).0,
            final(self)@ == rd16(old(self)@, pos).1,
            cpu_wf(final(self)@),
    {
        let lo = self.mem_read(pos);
        let hi = self.mem_read(pos.wrapping_add(1));
        ((hi as u16) << 8) | (lo as u16)
    }

    /// Set Zero and Negative from a result byte.
    fn update_zero_and_negative_flags(&mut self, result: u8)
        ensures
            final(self)@ == (CpuView { status: with_zn(old(self)@.status, result), ..old(self)@ }),
    {
        self.status.zero = result == 0;
        self.status.negative = result & 0x80 != 0;
    }

    /// Push one byte onto the stack page.
    fn stack_push(&mut self, data: u8)
        requires
            cpu_wf(old(self)@),
        ensures
            final(self)@ == push_spec(old(self)@, data),
            cpu_wf(final(self)@),
    {
        let addr: u16 = 0x0100 + self.stack_pointer as u16;
        let _ = self.bus.mem_write(addr, data);
        self.stack_pointer = self.stack_pointer.wrapping_sub(1);
    }

    /// Pull one byte off the stack page.
    fn stack_pop(&mut self) -> (r: u8)
        requires
            cpu_wf(old(self)@),
        ensures
            r == pop_spec(old(self)@).0,
            final(self)@ == pop_spec(old(self)@).1,
            cpu_wf(final(self)@),
    {
        self.stack_pointer = self.stack_pointer.wrapping_add(1);
        self.bus.mem_read(0x0100 + self.stack_pointer as u16)
    }

    /// Push a 16-bit word, high byte first.
    fn stack_push_u16(&mut self, data: u16)
        requires
            cpu_wf(old(self)@),
        ensures
            final(self)@ == push16_spec(old(self)@, data),
            cpu_wf(final(self)@),
    {
        self.stack_push((data >> 8) as u8);
        self.stack_push((data & 0xff) as u8);
    }

    /// Pull a 16-bit word, low byte first.
    fn stack_pop_u16(&mut self) -> (r: u16)
        requires
            cpu_wf(old(self)@),
        ensures
            r == pop16_spec(old(self)@).0,
            final(self)@ == pop16_spec(old(self)@).1,
            cpu_wf(final(self)@),
    {
        let lo = self.stack_pop();
        let hi = self.stack_pop();
        ((hi as u16) << 8) | (lo as u16)
    }

    /// Add a value and the carry into the accumulator, with the 6502's
    /// carry and overflow rules.
    fn add_to_register_a(&mut self, data: u8)
        ensures
            final(self)@ == add_to_a_spec(old(self)@, data),
    {
        let c: u16 = if self.status.carry {
            1
        } else {
            0
        };
        let sum: u16 = self.register_a as u16 + data as u16 + c;
        let result: u8 = (sum % 256) as u8;
        self.status.carry = sum > 0xff;
        self.status.overflow = ((data ^ result) & (result ^ self.register_a) & 0x80) != 0;
        self.register_a = result;
        self.update_zero_and_negative_flags(result);
    }

    /// ADC: add memory and carry to the accumulator.
    fn adc(&mut self, mode: AddressingMode)
        requires
            cpu_wf(old(self)@),
        ensures
            final(self)@ == adc_spec(old(self)@, mode),
            cpu_wf(final(self)@),
    {
        let addr = self.get_operand_address(mode);
        let value = self.mem_read(addr);
        self.add_to_register_a(value);
    }

    /// SBC: binary subtract; `A - M - (1 - C)` is `A + !M + C`.
    fn sbc(&mut self, mode: AddressingMode)
        requires
            cpu_wf(old(self)@),
        ensures
            final(self)@ == sbc_spec(old(self)@, mode),
            cpu_wf(final(self)@),
    {
        let addr = self.get_operand_address(mode);
        let value = self.mem_read(addr);
        self.add_to_register_a(value ^ 0xff);
    }

    /// AND: accumulator bitwise-and memory.
    fn and(&mut self, mode: AddressingMode)
        requires
            cpu_wf(old(self)@),
        ensures
            final(self)@ == and_spec(old(self)@, mode),
            cpu_wf(final(self)@),
    {
        let addr = self.get_operand_address(mode);
        let value = self.mem_read(addr);
        self.register_a = self.register_a & value;
        let a = self.register_a;
        self.update_zero_and_negative_flags(a);
    }

    /// EOR: accumulator bitwise-xor memory.
    fn eor(&mut self, mode: AddressingMode)
        requires
            cpu_wf(old(self)@),
        ensures
            final(self)@ == eor_spec(old(self)@, mode),
            cpu_wf(final(self)@),
    {
        let addr = self.get_operand_address(mode);
        let value = self.mem_read(addr);
        self.register_a = self.register_a ^ value;
        let a = self.register_a;
        self.update_zero_and_negative_flags(a);
    }

    /// ORA: accumulator bitwise-or memory.
    fn ora(&mut self, mode: AddressingMode)
        requires
            cpu_wf(old(self)@),
        ensures
            final(self)@ == ora_spec(old(self)@, mode),
            cpu_wf(final(self)@),
    {
        let addr = self.get_operand_address(mode);
        let value = self.mem_read(addr);
        self.register_a = self.register_a | value;
        let a = self.register_a;
        self.update_zero_and_negative_flags(a);
    }

    /// CMP/CPX/CPY: set C when the register is at least the operand, and
    /// Z/N from the difference.
    fn compare(&mut self, mode: AddressingMode, compare_with: u8)
        requires
            cpu_wf(old(self)@),
        ensures
            final(self)@ == compare_spec(old(self)@, mode, compare_with),
            cpu_wf(final(self)@),
    {
        let addr = self.get_operand_address(mode);
        let value = self.mem_read(addr);
        self.status.carry = value <= compare_with;
        self.update_zero_and_negative_flags(compare_with.wrapping_sub(value));
    }

    /// BIT: Z from `A & M`, N from bit 7 of M, V from bit 6 of M.
    fn bit(&mut self, mode: AddressingMode)
        requires
            cpu_wf(old(self)@),
        ensures
            final(self)@ == bit_spec(old(self)@, mode),
            cpu_wf(final(self)@),
    {
        let addr = self.get_operand_address(mode);
        let value = self.mem_read(addr);
        self.status.zero = self.register_a & value == 0;
        self.status.negative = value & 0x80 != 0;
        self.status.overflow = value & 0x40 != 0;
    }

    /// LDA: load the accumulator.
    fn lda(&mut self, mode: AddressingMode)
        requires
            cpu_wf(old(self)@),
        ensures
            final(self)@ == lda_spec(old(self)@, mode),
            cpu_wf(final(self)@),
    {
        let addr = self.get_operand_address(mode);
        let value = self.mem_read(addr);
        self.register_a = value;
        self.update_zero_and_negative_flags(value);
    }

    /// LDX: load the X index.
    fn ldx(&mut self, mode: AddressingMode)
        requires
            cpu_wf(old(self)@),
        ensures
            final(self)@ == ldx_spec(old(self)@, mode),
            cpu_wf(final(self)@),
    {
        let addr = self.get_operand_address(mode);
        let value = self.mem_read(addr);
        self.register_x = value;
        self.update_zero_and_negative_flags(value);
    }

    /// LDY: load the Y index.
    fn ldy(&mut self, mode: AddressingMode)
        requires
            cpu_wf(old(self)@),
        ensures
            final(self)@ == ldy_spec(old(self)@, mode),
            cpu_wf(final(self)@),
    {
        let addr = self.get_operand_address(mode);
        let value = self.mem_read(addr);
        self.register_y = value;
        self.update_zero_and_negative_flags(value);
    }

    /// STA: store the accumulator; storing into ROM space is an error.
    fn sta(&mut self, mode: AddressingMode) -> (r: Result<(), EmuError>)
        requires
            cpu_wf(old(self)@),
        ensures
            final(self)@ == sta_spec(old(self)@, mode).0,
            r == sta_spec(old(self)@, mode).1,
            cpu_wf(final(self)@),
    {
        let addr = self.get_operand_address(mode);
        let a = self.register_a;
        self.mem_write(addr, a)
    }

    /// STX: store the X index.
    fn stx(&mut self, mode: AddressingMode) -> (r: Result<(), EmuError>)
        requires
            cpu_wf(old(self)@),
        ensures
            final(self)@ == stx_spec(old(self)@, mode).0,
            r == stx_spec(old(self)@, mode).1,
            cpu_wf(final(self)@),
    {
        let addr = self.get_operand_address(mode);
        let x = self.register_x;
        self.mem_write(addr, x)
    }

    /// STY: store the Y index.
    fn sty(&mut self, mode: AddressingMode) -> (r: Result<(), EmuError>)
        requires
            cpu_wf(old(self)@),
        ensures
            final(self)@ == sty_spec(old(self)@, mode).0,
            r == sty_spec(old(self)@, mode).1,
            cpu_wf(final(self)@),
    {
        let addr = self.get_operand_address(mode);
        let y = self.register_y;
        self.mem_write(addr, y)
    }

    /// ASL on the accumulator.
    fn asl_accumulator(&mut self)
        ensures
            final(self)@ == asl_a_spec(old(self)@),
    {
        let data = self.register_a;
        self.status.carry = data & 0x80 != 0;
        let shifted: u8 = data << 1;
        self.register_a = shifted;
        self.update_zero_and_negative_flags(shifted);
    }

    /// ASL on memory: read, shift left, write back.
    #[verifier::rlimit(100)]
    #[verifier::spinoff_prover]
    fn asl(&mut self, mode: AddressingMode) -> (r: Result<(), EmuError>)
        requires
            cpu_wf(old(self)@),
        ensures
            final(self)@ == asl_spec(old(self)@, mode).0,
            r == asl_spec(old(self)@, mode).1,
            cpu_wf(final(self)@),
    {
        let addr = self.get_operand_address(mode);
        let data = self.mem_read(addr);
        self.status.carry = data & 0x80 != 0;
        let shifted: u8 = data << 1;
        let res = self.mem_write(addr, shifted);
        if res.is_err() {
            return res;
        }
        self.update_zero_and_negative_flags(shifted);
        Ok(())
    }

    /// LSR on the accumulator.
    fn lsr_accumulator(&mut self)
        ensures
            final(self)@ == lsr_a_spec(old(self)@),
    {
        let data = self.register_a;
        self.status.carry = data & 1 != 0;
        let shifted: u8 = data >> 1;
        self.register_a = shifted;
        self.update_zero_and_negative_flags(shifted);
    }

    /// LSR on memory.
    #[verifier::rlimit(100)]
    #[verifier::spinoff_prover]
    fn lsr(&mut self, mode: AddressingMode) -> (r: Result<(), EmuError>)
        requires
            cpu_wf(old(self)@),
        ensures
            final(self)@ == lsr_spec(old(self)@, mode).0,
            r == lsr_spec(old(self)@, mode).1,
            cpu_wf(final(self)@),
    {
        let addr = self.get_operand_address(mode);
        let data = self.mem_read(addr);
        self.status.carry = data & 1 != 0;
        let shifted: u8 = data >> 1;
        let res = self.mem_write(addr, shifted);
        if res.is_err() {
            return res;
        }
        self.update_zero_and_negative_flags(shifted);
        Ok(())
    }

    /// ROL on the accumulator: rotate left through the carry.
    fn rol_accumulator(&mut self)
        ensures
            final(self)@ == rol_a_spec(old(self)@),
    {
        let data = self.register_a;
        let old_carry = self.status.carry;
        self.status.carry = data & 0x80 != 0;
        let rotated: u8 = (data << 1) | (if old_carry {
            1u8
        } else {
            0u8
        });
        self.register_a = rotated;
        self.update_zero_and_negative_flags(rotated);
    }

    /// ROL on memory.
    #[verifier::rlimit(100)]
    #[verifier::spinoff_prover]
    fn rol(&mut self, mode: AddressingMode) -> (r: Result<(), EmuError>)
        requires
            cpu_wf(old(self)@),
        ensures
            final(self)@ == rol_spec(old(self)@, mode).0,
            r == rol_spec(old(self)@, mode).1,
            cpu_wf(final(self)@),
    {
        let addr = self.get_operand_address(mode);
        let data = self.mem_read(addr);
        let old_carry = self.status.carry;
        self.status.carry = data & 0x80 != 0;
        let rotated: u8 = (data << 1) | (if old_carry {
            1u8
        } else {
            0u8
        });
        let res = self.mem_write(addr, rotated);
        if res.is_err() {
            return res;
        }
        self.update_zero_and_negative_flags(rotated);
        Ok(())
    }

    /// ROR on the accumulator: rotate right through the carry.
    fn ror_accumulator(&mut self)
        ensures
            final(self)@ == ror_a_spec(old(self)@),
    {
        let data = self.register_a;
        let old_carry = self.status.carry;
        self.status.carry = data & 1 != 0;
        let rotated: u8 = (data >> 1) | (if old_carry {
            0x80u8
        } else {
            0u8
        });
        self.register_a = rotated;
        self.update_zero_and_negative_flags(rotated);
    }

    /// ROR on memory.
    #[verifier::rlimit(100)]
    #[verifier::spinoff_prover]
    fn ror(&mut self, mode: AddressingMode) -> (r: Result<(), EmuError>)
        requires
            cpu_wf(old(self)@),
        ensures
            final(self)@ == ror_spec(old(self)@, mode).0,
            r == ror_spec(old(self)@, mode).1,
            cpu_wf(final(self)@),
    {
        let addr = self.get_operand_address(mode);
        let data = self.mem_read(addr);
        let old_carry = self.status.carry;
        self.status.carry = data & 1 != 0;
        let rotated: u8 = (data >> 1) | (if old_carry {
            0x80u8
        } else {
            0u8
        });
        let res = self.mem_write(addr, rotated);
        if res.is_err() {
            return res;
        }
        self.update_zero_and_negative_flags(rotated);
        Ok(())
    }

    /// INC: increment a memory byte.
    #[verifier::rlimit(100)]
    #[verifier::spinoff_prover]
    fn inc(&mut self, mode: AddressingMode) -> (r: Result<(), EmuError>)
        requires
            cpu_wf(old(self)@),
        ensures
            final(self)@ == inc_spec(old(self)@, mode).0,
            r == inc_spec(old(self)@, mode).1,
            cpu_wf(final(self)@),
    {
        let addr = self.get_operand_address(mode);
        let data = self.mem_read(addr);
        let bumped = data.wrapping_add(1);
        let res = self.mem_write(addr, bumped);
        if res.is_err() {
            return res;
        }
        self.update_zero_and_negative_flags(bumped);
        Ok(())
    }

    /// DEC: decrement a memory byte.
    #[verifier::rlimit(100)]
    #[verifier::spinoff_prover]
    fn dec(&mut self, mode: AddressingMode) -> (r: Result<(), EmuError>)
        requires
            cpu_wf(old(self)@),
        ensures
            final(self)@ == dec_spec(old(self)@, mode).0,
            r == dec_spec(old(self)@, mode).1,
            cpu_wf(final(self)@),
    {
        let addr = self.get_operand_address(mode);
        let data = self.mem_read(addr);
        let bumped = data.wrapping_sub(1);
        let res = self.mem_write(addr, bumped);
        if res.is_err() {
            return res;
        }
        self.update_zero_and_negative_flags(bumped);
        Ok(())
    }

    /// Taken or not-taken conditional branch with a signed 8-bit offset.
    fn branch(&mut self, condition: bool)
        requires
            cpu_wf(old(self)@),
        ensures
            final(self)@ == branch_spec(old(self)@, condition),
            cpu_wf(final(self)@),
    {
        if condition {
            let jump = self.mem_read(self.program_counter);
            let offset: u16 = if jump < 0x80 {
                jump as u16
            } else {
                (jump as u16) | 0xff00
            };
            self.program_counter = self.program_counter.wrapping_add(1).wrapping_add(offset);
        }
    }

    /// JMP absolute.
    fn jmp_absolute(&mut self)
        requires
            cpu_wf(old(self)@),
        ensures
            final(self)@ == jmp_abs_spec(old(self)@),
            cpu_wf(final(self)@),
    {
        let target = self.mem_read_u16(self.program_counter);
        self.program_counter = target;
    }

    /// JMP indirect, with the documented page-wrap hardware bug: a
    /// pointer ending in 0xFF fetches its high byte from the same page.
    #[verifier::rlimit(100)]
    #[verifier::spinoff_prover]
    fn jmp_indirect(&mut self)
        requires
            cpu_wf(old(self)@),
        ensures
            final(self)@ == jmp_ind_spec(old(self)@),
            cpu_wf(final(self)@),
    {
        let ptr = self.mem_read_u16(self.program_counter);
        let target: u16 = if ptr & 0x00ff == 0x00ff {
            let lo = self.mem_read(ptr);
            let hi = self.mem_read(ptr & 0xff00);
            ((hi as u16) << 8) | (lo as u16)
        } else {
            self.mem_read_u16(ptr)
        };
        self.program_counter = target;
    }

    /// JSR: push the address of the last byte of this instruction, then
    /// jump.
    fn jsr(&mut self)
        requires
            cpu_wf(old(self)@),
        ensures
            final(self)@ == jsr_spec(old(self)@),
            cpu_wf(final(self)@),
    {
        let ret = self.program_counter.wrapping_add(1);
        self.stack_push_u16(ret);
        let target = self.mem_read_u16(self.program_counter);
        self.program_counter = target;
    }

    /// RTS: pull the return address and resume one byte past it.
    fn rts(&mut self)
        requires
            cpu_wf(old(self)@),
        ensures
            final(self)@ == rts_spec(old(self)@),
            cpu_wf(final(self)@),
    {
        let ret = self.stack_pop_u16();
        self.program_counter = ret.wrapping_add(1);
    }

    /// RTI: pull the status word (with the Break-bit rules), then the
    /// program counter.
    fn rti(&mut self)
        requires
            cpu_wf(old(self)@),
        ensures
            final(self)@ == rti_spec(old(self)@),
            cpu_wf(final(self)@),
    {
        let word = self.stack_pop();
        self.status = CpuFlags::from_bits(word);
        self.status.break_cmd = false;
        self.status.break2 = true;
        let ret = self.stack_pop_u16();
        self.program_counter = ret;
    }

    /// PHA: push the accumulator.
    fn pha(&mut self)
        requires
            cpu_wf(old(self)@),
        ensures
            final(self)@ == push_spec(old(self)@, old(self)@.register_a),
            cpu_wf(final(self)@),
    {
        let a = self.register_a;
        self.stack_push(a);
    }

    /// PLA: pull the accumulator and set Z/N.
    fn pla(&mut self)
        requires
            cpu_wf(old(self)@),
        ensures
            final(self)@ == pla_spec(old(self)@),
            cpu_wf(final(self)@),
    {
        let data = self.stack_pop();
        self.register_a = data;
        self.update_zero_and_negative_flags(data);
    }

    /// PHP: push the status word with both Break bits set.
    fn php(&mut self)
        requires
            cpu_wf(old(self)@),
        ensures
            final(self)@ == php_spec(old(self)@),
            cpu_wf(final(self)@),
    {
        let mut flags = self.status;
        flags.break_cmd = true;
        flags.break2 = true;
        let word = flags.bits();
        self.stack_push(word);
    }

    /// PLP: pull the status word, forcing Break off and Break2 on.
    fn plp(&mut self)
        requires
            cpu_wf(old(self)@),
        ensures
            final(self)@ == plp_spec(old(self)@),
            cpu_wf(final(self)@),
    {
        let word = self.stack_pop();
        self.status = CpuFlags::from_bits(word);
        self.status.break_cmd = false;
        self.status.break2 = true;
    }

    /// Resolve the operand address for the given addressing mode.
    fn get_operand_address(&mut self, mode: AddressingMode) -> (r: u16)
        requires
            cpu_wf(old(self)@),
        ensures
            r == operand_addr(old(self)@, mode).0,
            final(self)@ == operand_addr(old(self)@, mode).1,
            cpu_wf(final(self)@),
    {
        match mode {
            AddressingMode::Immediate => self.program_counter,
            AddressingMode::ZeroPage => {
                let v = self.mem_read(self.program_counter);
                v as u16
            },
            AddressingMode::ZeroPage_X => {
                let v = self.mem_read(self.program_counter);
                v.wrapping_add(self.register_x) as u16
            },
            AddressingMode::ZeroPage_Y => {
                let v = self.mem_read(self.program_counter);
                v.wrapping_add(self.register_y) as u16
            },
            AddressingMode::Absolute => self.mem_read_u16(self.program_counter),
            AddressingMode::Absolute_X => {
                let v = self.mem_read_u16(self.program_counter);
                v.wrapping_add(self.register_x as u16)
            },
            AddressingMode::Absolute_Y => {
                let v = self.mem_read_u16(self.program_counter);
                v.wrapping_add(self.register_y as u16)
            },
            AddressingMode::Indirect_X => {
                let base = self.mem_read(self.program_counter);
                let ptr = base.wrapping_add(self.register_x);
                let lo = self.mem_read(ptr as u16);
                let hi = self.mem_read(ptr.wrapping_add(1) as u16);
                ((hi as u16) << 8) | (lo as u16)
            },
            AddressingMode::Indirect_Y => {
                let base = self.mem_read(self.program_counter);
                let lo = self.mem_read(base as u16);
                let hi = self.mem_read(base.wrapping_add(1) as u16);
                let deref_base = ((hi as u16) << 8) | (lo as u16);
                deref_base.wrapping_add(self.register_y as u16)
            },
            AddressingMode::NoneAddressing => self.program_counter,
        }
    }
}

/// The effect of executing the already-fetched opcode `code`: the
/// machine afterwards, and the error if the instruction attempted a
/// forbidden write. The program counter still points at the first
/// operand byte; instructions that do not write it themselves have it
/// advanced by the decode loop afterwards.
pub open spec fn op_spec(s: CpuView, code: u8) -> (CpuView, Result<(), EmuError>) {
    if code < 0x40 {
        op_spec_q0(s, code)
    } else if code < 0x80 {
        op_spec_q1(s, code)
    } else if code < 0xc0 {
        op_spec_q2(s, code)
    } else {
        op_spec_q3(s, code)
    }
}

/// The opcodes in 0x00..0x40.
pub open spec fn op_spec_q0(s: CpuView, code: u8) -> (CpuView, Result<(), EmuError>) {
    match code {
        0x00 => (s, Ok(())),
        0x01 => (ora_spec(s, AddressingMode::Indirect_X), Ok(())),
        0x05 => (ora_spec(s, AddressingMode::ZeroPage), Ok(())),
        0x06 => asl_spec(s, AddressingMode::ZeroPage),
        0x08 => (php_spec(s), Ok(())),
        0x09 => (ora_spec(s, AddressingMode::Immediate), Ok(())),
        0x0a => (asl_a_spec(s), Ok(())),
        0x0d => (ora_spec(s, AddressingMode::Absolute), Ok(())),
        0x0e => asl_spec(s, AddressingMode::Absolute),
        0x10 => (branch_spec(s, !s.status.negative), Ok(())),
        0x11 => (ora_spec(s, AddressingMode::Indirect_Y), Ok(())),
        0x15 => (ora_spec(s, AddressingMode::ZeroPage_X), Ok(())),
        0x16 => asl_spec(s, AddressingMode::ZeroPage_X),
        0x18 => ((CpuView { status: CpuFlags { carry: false, ..s.status }, ..s }), Ok(())),
        0x19 => (ora_spec(s, AddressingMode::Absolute_Y), Ok(())),
        0x1d => (ora_spec(s, AddressingMode::Absolute_X), Ok(())),
        0x1e => asl_spec(s, AddressingMode::Absolute_X),
        0x20 => (jsr_spec(s), Ok(())),
        0x21 => (and_spec(s, AddressingMode::Indirect_X), Ok(())),
        0x24 => (bit_spec(s, AddressingMode::ZeroPage), Ok(())),
        0x25 => (and_spec(s, AddressingMode::ZeroPage), Ok(())),
        0x26 => rol_spec(s, AddressingMode::ZeroPage),
        0x28 => (plp_spec(s), Ok(())),
        0x29 => (and_spec(s, AddressingMode::Immediate), Ok(())),
        0x2a => (rol_a_spec(s), Ok(())),
        0x2c => (bit_spec(s, AddressingMode::Absolute), Ok(())),
        0x2d => (and_spec(s, AddressingMode::Absolute), Ok(())),
        0x2e => rol_spec(s, AddressingMode::Absolute),
        0x30 => (branch_spec(s, s.status.negative), Ok(())),
        0x31 => (and_spec(s, AddressingMode::Indirect_Y), Ok(())),
        0x35 => (and_spec(s, AddressingMode::ZeroPage_X), Ok(())),
        0x36 => rol_spec(s, AddressingMode::ZeroPage_X),
        0x38 => ((CpuView { status: CpuFlags { carry: true, ..s.status }, ..s }), Ok(())),
        0x39 => (and_spec(s, AddressingMode::Absolute_Y), Ok(())),
        0x3d => (and_spec(s, AddressingMode::Absolute_X), Ok(())),
        0x3e => rol_spec(s, AddressingMode::Absolute_X),
        _ => (s, Err(EmuError::UnknownOpcode(code))),
    }
}

/// The opcodes in 0x40..0x80.
pub open spec fn op_spec_q1(s: CpuView, code: u8) -> (CpuView, Result<(), EmuError>) {
    match code {
        0x40 => (rti_spec(s), Ok(())),
        0x41 => (eor_spec(s, AddressingMode::Indirect_X), Ok(())),
        0x45 => (eor_spec(s, AddressingMode::ZeroPage), Ok(())),
        0x46 => lsr_spec(s, AddressingMode::ZeroPage),
        0x48 => (push_spec(s, s.register_a), Ok(())),
        0x49 => (eor_spec(s, AddressingMode::Immediate), Ok(())),
        0x4a => (lsr_a_spec(s), Ok(())),
        0x4c => (jmp_abs_spec(s), Ok(())),
        0x4d => (eor_spec(s, AddressingMode::Absolute), Ok(())),
        0x4e => lsr_spec(s, AddressingMode::Absolute),
        0x50 => (branch_spec(s, !s.status.overflow), Ok(())),
        0x51 => (eor_spec(s, AddressingMode::Indirect_Y), Ok(())),
        0x55 => (eor_spec(s, AddressingMode::ZeroPage_X), Ok(())),
        0x56 => lsr_spec(s, AddressingMode::ZeroPage_X),
        0x58 => ((CpuView { status: CpuFlags { interrupt_disable: false, ..s.status }, ..s }), Ok(())),
        0x59 => (eor_spec(s, AddressingMode::Absolute_Y), Ok(())),
        0x5d => (eor_spec(s, AddressingMode::Absolute_X), Ok(())),
        0x5e => lsr_spec(s, AddressingMode::Absolute_X),
        0x60 => (rts_spec(s), Ok(())),
        0x61 => (adc_spec(s, AddressingMode::Indirect_X), Ok(())),
        0x65 => (adc_spec(s, AddressingMode::ZeroPage), Ok(())),
        0x66 => ror_spec(s, AddressingMode::ZeroPage),
        0x68 => (pla_spec(s), Ok(())),
        0x69 => (adc_spec(s, AddressingMode::Immediate), Ok(())),
        0x6a => (ror_a_spec(s), Ok(())),
        0x6c => (jmp_ind_spec(s), Ok(())),
        0x6d => (adc_spec(s, AddressingMode::Absolute), Ok(())),
        0x6e => ror_spec(s, AddressingMode::Absolute),
        0x70 => (branch_spec(s, s.status.overflow), Ok(())),
        0x71 => (adc_spec(s, AddressingMode::Indirect_Y), Ok(())),
        0x75 => (adc_spec(s, AddressingMode::ZeroPage_X), Ok(())),
        0x76 => ror_spec(s, AddressingMode::ZeroPage_X),
        0x78 => ((CpuView { status: CpuFlags { interrupt_disable: true, ..s.status }, ..s }), Ok(())),
        0x79 => (adc_spec(s, AddressingMode::Absolute_Y), Ok(())),
        0x7d => (adc_spec(s, AddressingMode::Absolute_X), Ok(())),
        0x7e => ror_spec(s, AddressingMode::Absolute_X),
        _ => (s, Err(EmuError::UnknownOpcode(code))),
    }
}

/// The opcodes in 0x80..0xc0.
pub open spec fn op_spec_q2(s: CpuView, code: u8) -> (CpuView, Result<(), EmuError>) {
    match code {
        0x81 => sta_spec(s, AddressingMode::Indirect_X),
        0x84 => sty_spec(s, AddressingMode::ZeroPage),
        0x85 => sta_spec(s, AddressingMode::ZeroPage),
        0x86 => stx_spec(s, AddressingMode::ZeroPage),
        0x88 => (bump_spec_y(s, 0xff), Ok(())),
        0x8a => ((CpuView { register_a: s.register_x, status: with_zn(s.status, s.register_x), ..s }), Ok(())),
        0x8c => sty_spec(s, AddressingMode::Absolute),
        0x8d => sta_spec(s, AddressingMode::Absolute),
        0x8e => stx_spec(s, AddressingMode::Absolute),
        0x90 => (branch_spec(s, !s.status.carry), Ok(())),
        0x91 => sta_spec(s, AddressingMode::Indirect_Y),
        0x94 => sty_spec(s, AddressingMode::ZeroPage_X),
        0x95 => sta_spec(s, AddressingMode::ZeroPage_X),
        0x96 => stx_spec(s, AddressingMode::ZeroPage_Y),
        0x98 => ((CpuView { register_a: s.register_y, status: with_zn(s.status, s.register_y), ..s }), Ok(())),
        0x99 => sta_spec(s, AddressingMode::Absolute_Y),
        0x9a => ((CpuView { stack_pointer: s.register_x, ..s }), Ok(())),
        0x9d => sta_spec(s, AddressingMode::Absolute_X),
        0xa0 => (ldy_spec(s, AddressingMode::Immediate), Ok(())),
        0xa1 => (lda_spec(s, AddressingMode::Indirect_X), Ok(())),
        0xa2 => (ldx_spec(s, AddressingMode::Immediate), Ok(())),
        0xa4 => (ldy_spec(s, AddressingMode::ZeroPage), Ok(())),
        0xa5 => (lda_spec(s, AddressingMode::ZeroPage), Ok(())),
        0xa6 => (ldx_spec(s, AddressingMode::ZeroPage), Ok(())),
        0xa8 => ((CpuView { register_y: s.register_a, status: with_zn(s.status, s.register_a), ..s }), Ok(())),
        0xa9 => (lda_spec(s, AddressingMode::Immediate), Ok(())),
        0xaa => ((CpuView { register_x: s.register_a, status: with_zn(s.status, s.register_a), ..s }), Ok(())),
        0xac => (ldy_spec(s, AddressingMode::Absolute), Ok(())),
        0xad => (lda_spec(s, AddressingMode::Absolute), Ok(())),
        0xae => (ldx_spec(s, AddressingMode::Absolute), Ok(())),
        0xb0 => (branch_spec(s, s.status.carry), Ok(())),
        0xb1 => (lda_spec(s, AddressingMode::Indirect_Y), Ok(())),
        0xb4 => (ldy_spec(s, AddressingMode::ZeroPage_X), Ok(())),
        0xb5 => (lda_spec(s, AddressingMode::ZeroPage_X), Ok(())),
        0xb6 => (ldx_spec(s, AddressingMode::ZeroPage_Y), Ok(())),
        0xb8 => ((CpuView { status: CpuFlags { overflow: false, ..s.status }, ..s }), Ok(())),
        0xb9 => (lda_spec(s, AddressingMode::Absolute_Y), Ok(())),
        0xba => ((CpuView { register_x: s.stack_pointer, status: with_zn(s.status, s.stack_pointer), ..s }), Ok(())),
        0xbc => (ldy_spec(s, AddressingMode::Absolute_X), Ok(())),
        0xbd => (lda_spec(s, AddressingMode::Absolute_X), Ok(())),
        0xbe => (ldx_spec(s, AddressingMode::Absolute_Y), Ok(())),
        _ => (s, Err(EmuError::UnknownOpcode(code))),
    }
}

/// The opcodes in 0xc0..0x100.
pub open spec fn op_spec_q3(s: CpuView, code: u8) -> (CpuView, Result<(), EmuError>) {
    match code {
        0xc0 => (compare_spec(s, AddressingMode::Immediate, s.register_y), Ok(())),
        0xc1 => (compare_spec(s, AddressingMode::Indirect_X, s.register_a), Ok(())),
        0xc4 => (compare_spec(s, AddressingMode::ZeroPage, s.register_y), Ok(())),
        0xc5 => (compare_spec(s, AddressingMode::ZeroPage, s.register_a), Ok(())),
        0xc6 => dec_spec(s, AddressingMode::ZeroPage),
        0xc8 => (bump_spec_y(s, 1), Ok(())),
        0xc9 => (compare_spec(s, AddressingMode::Immediate, s.register_a), Ok(())),
        0xca => (bump_spec_x(s, 0xff), Ok(())),
        0xcc => (compare_spec(s, AddressingMode::Absolute, s.register_y), Ok(())),
        0xcd => (compare_spec(s, AddressingMode::Absolute, s.register_a), Ok(())),
        0xce => dec_spec(s, AddressingMode::Absolute),
        0xd0 => (branch_spec(s, !s.status.zero), Ok(())),
        0xd1 => (compare_spec(s, AddressingMode::Indirect_Y, s.register_a), Ok(())),
        0xd5 => (compare_spec(s, AddressingMode::ZeroPage_X, s.register_a), Ok(())),
        0xd6 => dec_spec(s, AddressingMode::ZeroPage_X),
        0xd8 => ((CpuView { status: CpuFlags { decimal_mode: false, ..s.status }, ..s }), Ok(())),
        0xd9 => (compare_spec(s, AddressingMode::Absolute_Y, s.register_a), Ok(())),
        0xdd => (compare_spec(s, AddressingMode::Absolute_X, s.register_a), Ok(())),
        0xde => dec_spec(s, AddressingMode::Absolute_X),
        0xe0 => (compare_spec(s, AddressingMode::Immediate, s.register_x), Ok(())),
        0xe1 => (sbc_spec(s, AddressingMode::Indirect_X), Ok(())),
        0xe4 => (compare_spec(s, AddressingMode::ZeroPage, s.register_x), Ok(())),
        0xe5 => (sbc_spec(s, AddressingMode::ZeroPage), Ok(())),
        0xe6 => inc_spec(s, AddressingMode::ZeroPage),
        0xe8 => (bump_spec_x(s, 1), Ok(())),
        0xe9 => (sbc_spec(s, AddressingMode::Immediate), Ok(())),
        0xea => (s, Ok(())),
        0xec => (compare_spec(s, AddressingMode::Absolute, s.register_x), Ok(())),
        0xed => (sbc_spec(s, AddressingMode::Absolute), Ok(())),
        0xee => inc_spec(s, AddressingMode::Absolute),
        0xf0 => (branch_spec(s, s.status.zero), Ok(())),
        0xf1 => (sbc_spec(s, AddressingMode::Indirect_Y), Ok(())),
        0xf5 => (sbc_spec(s, AddressingMode::ZeroPage_X), Ok(())),
        0xf6 => inc_spec(s, AddressingMode::ZeroPage_X),
        0xf8 => ((CpuView { status: CpuFlags { decimal_mode: true, ..s.status }, ..s }), Ok(())),
        0xf9 => (sbc_spec(s, AddressingMode::Absolute_Y), Ok(())),
        0xfd => (sbc_spec(s, AddressingMode::Absolute_X), Ok(())),
        0xfe => inc_spec(s, AddressingMode::Absolute_X),
        _ => (s, Err(EmuError::UnknownOpcode(code))),
    }
}

impl CPU {
    /// INX: increment X.
    fn inx(&mut self)
        ensures
            final(self)@ == bump_spec_x(old(self)@, 1),
    {
        let v = self.register_x.wrapping_add(1);
        self.register_x = v;
        self.update_zero_and_negative_flags(v);
    }

    /// DEX: decrement X.
    fn dex(&mut self)
        ensures
            final(self)@ == bump_spec_x(old(self)@, 0xff),
    {
        let v = self.register_x.wrapping_add(0xff);
        self.register_x = v;
        self.update_zero_and_negative_flags(v);
    }

    /// INY: increment Y.
    fn iny(&mut self)
        ensures
            final(self)@ == bump_spec_y(old(self)@, 1),
    {
        let v = self.register_y.wrapping_add(1);
        self.register_y = v;
        self.update_zero_and_negative_flags(v);
    }

    /// DEY: decrement Y.
    fn dey(&mut self)
        ensures
            final(self)@ == bump_spec_y(old(self)@, 0xff),
    {
        let v = self.register_y.wrapping_add(0xff);
        self.register_y = v;
        self.update_zero_and_negative_flags(v);
    }

    /// Execute one already-fetched opcode (everything but BRK).
    fn dispatch(&mut self, code: u8) -> (r: Result<(), EmuError>)
        requires
            cpu_wf(old(self)@),
        ensures
            final(self)@ == op_spec(old(self)@, code).0,
            r == op_spec(old(self)@, code).1,
            cpu_wf(final(self)@),
    {
        if code < 0x40 {
            self.dispatch_q0(code)
        } else if code < 0x80 {
            self.dispatch_q1(code)
        } else if code < 0xc0 {
            self.dispatch_q2(code)
        } else {
            self.dispatch_q3(code)
        }
    }

    /// The opcodes in 0x00..0x40.
    #[verifier::rlimit(100)]
    #[verifier::spinoff_prover]
    fn dispatch_q0(&mut self, code: u8) -> (r: Result<(), EmuError>)
        requires
            cpu_wf(old(self)@),
            code < 0x40,
        ensures
            final(self)@ == op_spec_q0(old(self)@, code).0,
            r == op_spec_q0(old(self)@, code).1,
            cpu_wf(final(self)@),
    {
        match code {
            0x00 => Ok(()),
            0x01 => { self.ora(AddressingMode::Indirect_X); Ok(()) },
            0x05 => { self.ora(AddressingMode::ZeroPage); Ok(()) },
            0x06 => self.asl(AddressingMode::ZeroPage),
            0x08 => { self.php(); Ok(()) },
            0x09 => { self.ora(AddressingMode::Immediate); Ok(()) },
            0x0a => { self.asl_accumulator(); Ok(()) },
            0x0d => { self.ora(AddressingMode::Absolute); Ok(()) },
            0x0e => self.asl(AddressingMode::Absolute),
            0x10 => { let c = !self.status.negative; self.branch(c); Ok(()) },
            0x11 => { self.ora(AddressingMode::Indirect_Y); Ok(()) },
            0x15 => { self.ora(AddressingMode::ZeroPage_X); Ok(()) },
            0x16 => self.asl(AddressingMode::ZeroPage_X),
            0x18 => { self.status.carry = false; Ok(()) },
            0x19 => { self.ora(AddressingMode::Absolute_Y); Ok(()) },
            0x1d => { self.ora(AddressingMode::Absolute_X); Ok(()) },
            0x1e => self.asl(AddressingMode::Absolute_X),
            0x20 => { self.jsr(); Ok(()) },
            0x21 => { self.and(AddressingMode::Indirect_X); Ok(()) },
            0x24 => { self.bit(AddressingMode::ZeroPage); Ok(()) },
            0x25 => { self.and(AddressingMode::ZeroPage); Ok(()) },
            0x26 => self.rol(AddressingMode::ZeroPage),
            0x28 => { self.plp(); Ok(()) },
            0x29 => { self.and(AddressingMode::Immediate); Ok(()) },
            0x2a => { self.rol_accumulator(); Ok(()) },
            0x2c => { self.bit(AddressingMode::Absolute); Ok(()) },
            0x2d => { self.and(AddressingMode::Absolute); Ok(()) },
            0x2e => self.rol(AddressingMode::Absolute),
            0x30 => { let c = self.status.negative; self.branch(c); Ok(()) },
            0x31 => { self.and(AddressingMode::Indirect_Y); Ok(()) },
            0x35 => { self.and(AddressingMode::ZeroPage_X); Ok(()) },
            0x36 => self.rol(AddressingMode::ZeroPage_X),
            0x38 => { self.status.carry = true; Ok(()) },
            0x39 => { self.and(AddressingMode::Absolute_Y); Ok(()) },
            0x3d => { self.and(AddressingMode::Absolute_X); Ok(()) },
            0x3e => self.rol(AddressingMode::Absolute_X),
            _ => Err(EmuError::UnknownOpcode(code)),
        }
    }

    /// The opcodes in 0x40..0x80.
    #[verifier::rlimit(100)]
    #[verifier::spinoff_prover]
    fn dispatch_q1(&mut self, code: u8) -> (r: Result<(), EmuError>)
        requires
            cpu_wf(old(self)@),
            0x40 <= code < 0x80,
        ensures
            final(self)@ == op_spec_q1(old(self)@, code).0,
            r == op_spec_q1(old(self)@, code).1,
            cpu_wf(final(self)@),
    {
        match code {
            0x40 => { self.rti(); Ok(()) },
            0x41 => { self.eor(AddressingMode::Indirect_X); Ok(()) },
            0x45 => { self.eor(AddressingMode::ZeroPage); Ok(()) },
            0x46 => self.lsr(AddressingMode::ZeroPage),
            0x48 => { self.pha(); Ok(()) },
            0x49 => { self.eor(AddressingMode::Immediate); Ok(()) },
            0x4a => { self.lsr_accumulator(); Ok(()) },
            0x4c => { self.jmp_absolute(); Ok(()) },
            0x4d => { self.eor(AddressingMode::Absolute); Ok(()) },
            0x4e => self.lsr(AddressingMode::Absolute),
            0x50 => { let c = !self.status.overflow; self.branch(c); Ok(()) },
            0x51 => { self.eor(AddressingMode::Indirect_Y); Ok(()) },
            0x55 => { self.eor(AddressingMode::ZeroPage_X); Ok(()) },
            0x56 => self.lsr(AddressingMode::ZeroPage_X),
            0x58 => { self.status.interrupt_disable = false; Ok(()) },
            0x59 => { self.eor(AddressingMode::Absolute_Y); Ok(()) },
            0x5d => { self.eor(AddressingMode::Absolute_X); Ok(()) },
            0x5e => self.lsr(AddressingMode::Absolute_X),
            0x60 => { self.rts(); Ok(()) },
            0x61 => { self.adc(AddressingMode::Indirect_X); Ok(()) },
            0x65 => { self.adc(AddressingMode::ZeroPage); Ok(()) },
            0x66 => self.ror(AddressingMode::ZeroPage),
            0x68 => { self.pla(); Ok(()) },
            0x69 => { self.adc(AddressingMode::Immediate); Ok(()) },
            0x6a => { self.ror_accumulator(); Ok(()) },
            0x6c => { self.jmp_indirect(); Ok(()) },
            0x6d => { self.adc(AddressingMode::Absolute); Ok(()) },
            0x6e => self.ror(AddressingMode::Absolute),
            0x70 => { let c = self.status.overflow; self.branch(c); Ok(()) },
            0x71 => { self.adc(AddressingMode::Indirect_Y); Ok(()) },
            0x75 => { self.adc(AddressingMode::ZeroPage_X); Ok(()) },
            0x76 => self.ror(AddressingMode::ZeroPage_X),
            0x78 => { self.status.interrupt_disable = true; Ok(()) },
            0x79 => { self.adc(AddressingMode::Absolute_Y); Ok(()) },
            0x7d => { self.adc(AddressingMode::Absolute_X); Ok(()) },
            0x7e => self.ror(AddressingMode::Absolute_X),
            _ => Err(EmuError::UnknownOpcode(code)),
        }
    }

    /// The opcodes in 0x80..0xc0.
    #[verifier::rlimit(100)]
    #[verifier::spinoff_prover]
    fn dispatch_q2(&mut self, code: u8) -> (r: Result<(), EmuError>)
        requires
            cpu_wf(old(self)@),
            0x80 <= code < 0xc0,
        ensures
            final(self)@ == op_spec_q2(old(self)@, code).0,
            r == op_spec_q2(old(self)@, code).1,
            cpu_wf(final(self)@),
    {
        match code {
            0x81 => self.sta(AddressingMode::Indirect_X),
            0x84 => self.sty(AddressingMode::ZeroPage),
            0x85 => self.sta(AddressingMode::ZeroPage),
            0x86 => self.stx(AddressingMode::ZeroPage),
            0x88 => { self.dey(); Ok(()) },
            0x8a => { let v = self.register_x; self.register_a = v; self.update_zero_and_negative_flags(v); Ok(()) },
            0x8c => self.sty(AddressingMode::Absolute),
            0x8d => self.sta(AddressingMode::Absolute),
            0x8e => self.stx(AddressingMode::Absolute),
            0x90 => { let c = !self.status.carry; self.branch(c); Ok(()) },
            0x91 => self.sta(AddressingMode::Indirect_Y),
            0x94 => self.sty(AddressingMode::ZeroPage_X),
            0x95 => self.sta(AddressingMode::ZeroPage_X),
            0x96 => self.stx(AddressingMode::ZeroPage_Y),
            0x98 => { let v = self.register_y; self.register_a = v; self.update_zero_and_negative_flags(v); Ok(()) },
            0x99 => self.sta(AddressingMode::Absolute_Y),
            0x9a => { self.stack_pointer = self.register_x; Ok(()) },
            0x9d => self.sta(AddressingMode::Absolute_X),
            0xa0 => { self.ldy(AddressingMode::Immediate); Ok(()) },
            0xa1 => { self.lda(AddressingMode::Indirect_X); Ok(()) },
            0xa2 => { self.ldx(AddressingMode::Immediate); Ok(()) },
            0xa4 => { self.ldy(AddressingMode::ZeroPage); Ok(()) },
            0xa5 => { self.lda(AddressingMode::ZeroPage); Ok(()) },
            0xa6 => { self.ldx(AddressingMode::ZeroPage); Ok(()) },
            0xa8 => { let v = self.register_a; self.register_y = v; self.update_zero_and_negative_flags(v); Ok(()) },
            0xa9 => { self.lda(AddressingMode::Immediate); Ok(()) },
            0xaa => { let v = self.register_a; self.register_x = v; self.update_zero_and_negative_flags(v); Ok(()) },
            0xac => { self.ldy(AddressingMode::Absolute); Ok(()) },
            0xad => { self.lda(AddressingMode::Absolute); Ok(()) },
            0xae => { self.ldx(AddressingMode::Absolute); Ok(()) },
            0xb0 => { let c = self.status.carry; self.branch(c); Ok(()) },
            0xb1 => { self.lda(AddressingMode::Indirect_Y); Ok(()) },
            0xb4 => { self.ldy(AddressingMode::ZeroPage_X); Ok(()) },
            0xb5 => { self.lda(AddressingMode::ZeroPage_X); Ok(()) },
            0xb6 => { self.ldx(AddressingMode::ZeroPage_Y); Ok(()) },
            0xb8 => { self.status.overflow = false; Ok(()) },
            0xb9 => { self.lda(AddressingMode::Absolute_Y); Ok(()) },
            0xba => { let v = self.stack_pointer; self.register_x = v; self.update_zero_and_negative_flags(v); Ok(()) },
            0xbc => { self.ldy(AddressingMode::Absolute_X); Ok(()) },
            0xbd => { self.lda(AddressingMode::Absolute_X); Ok(()) },
            0xbe => { self.ldx(AddressingMode::Absolute_Y); Ok(()) },
            _ => Err(EmuError::UnknownOpcode(code)),
        }
    }

    /// The opcodes in 0xc0..0x100.
    #[verifier::rlimit(100)]
    #[verifier::spinoff_prover]
    fn dispatch_q3(&mut self, code: u8) -> (r: Result<(), EmuError>)
        requires
            cpu_wf(old(self)@),
            0xc0 <= code < 0x100,
        ensures
            final(self)@ == op_spec_q3(old(self)@, code).0,
            r == op_spec_q3(old(self)@, code).1,
            cpu_wf(final(self)@),
    {
        match code {
            0xc0 => { let v = self.register_y; self.compare(AddressingMode::Immediate, v); Ok(()) },
            0xc1 => { let v = self.register_a; self.compare(AddressingMode::Indirect_X, v); Ok(()) },
            0xc4 => { let v = self.register_y; self.compare(AddressingMode::ZeroPage, v); Ok(()) },
            0xc5 => { let v = self.register_a; self.compare(AddressingMode::ZeroPage, v); Ok(()) },
            0xc6 => self.dec(AddressingMode::ZeroPage),
            0xc8 => { self.iny(); Ok(()) },
            0xc9 => { let v = self.register_a; self.compare(AddressingMode::Immediate, v); Ok(()) },
            0xca => { self.dex(); Ok(()) },
            0xcc => { let v = self.register_y; self.compare(AddressingMode::Absolute, v); Ok(()) },
            0xcd => { let v = self.register_a; self.compare(AddressingMode::Absolute, v); Ok(()) },
            0xce => self.dec(AddressingMode::Absolute),
            0xd0 => { let c = !self.status.zero; self.branch(c); Ok(()) },
            0xd1 => { let v = self.register_a; self.compare(AddressingMode::Indirect_Y, v); Ok(()) },
            0xd5 => { let v = self.register_a; self.compare(AddressingMode::ZeroPage_X, v); Ok(()) },
            0xd6 => self.dec(AddressingMode::ZeroPage_X),
            0xd8 => { self.status.decimal_mode = false; Ok(()) },
            0xd9 => { let v = self.register_a; self.compare(AddressingMode::Absolute_Y, v); Ok(()) },
            0xdd => { let v = self.register_a; self.compare(AddressingMode::Absolute_X, v); Ok(()) },
            0xde => self.dec(AddressingMode::Absolute_X),
            0xe0 => { let v = self.register_x; self.compare(AddressingMode::Immediate, v); Ok(()) },
            0xe1 => { self.sbc(AddressingMode::Indirect_X); Ok(()) },
            0xe4 => { let v = self.register_x; self.compare(AddressingMode::ZeroPage, v); Ok(()) },
            0xe5 => { self.sbc(AddressingMode::ZeroPage); Ok(()) },
            0xe6 => self.inc(AddressingMode::ZeroPage),
            0xe8 => { self.inx(); Ok(()) },
            0xe9 => { self.sbc(AddressingMode::Immediate); Ok(()) },
            0xea => Ok(()),
            0xec => { let v = self.register_x; self.compare(AddressingMode::Absolute, v); Ok(()) },
            0xed => { self.sbc(AddressingMode::Absolute); Ok(()) },
            0xee => self.inc(AddressingMode::Absolute),
            0xf0 => { let c = self.status.zero; self.branch(c); Ok(()) },
            0xf1 => { self.sbc(AddressingMode::Indirect_Y); Ok(()) },
            0xf5 => { self.sbc(AddressingMode::ZeroPage_X); Ok(()) },
            0xf6 => self.inc(AddressingMode::ZeroPage_X),
            0xf8 => { self.status.decimal_mode = true; Ok(()) },
            0xf9 => { self.sbc(AddressingMode::Absolute_Y); Ok(()) },
            0xfd => { self.sbc(AddressingMode::Absolute_X); Ok(()) },
            0xfe => self.inc(AddressingMode::Absolute_X),
            _ => Err(EmuError::UnknownOpcode(code)),
        }
    }
}

/// What one call of `step` reports: whether a BRK halted the run, and
/// whether this instruction's cycles crossed the VBlank NMI edge (the
/// moment the host renders the finished frame).
#[derive(Clone, Copy, Debug, PartialEq, Eq, Structural)]
pub struct StepResult {
    pub halted: bool,
    pub frame_ready: bool,
}

/// One trip of the fetch-decode-execute loop: fetch the opcode and step
/// past it; BRK halts; an undocumented opcode is an error; otherwise the
/// instruction executes, the program counter advances by the instruction
/// length unless the instruction wrote it, and the bus is ticked by the
/// opcode's base cycle count.
pub open spec fn step_spec(s: CpuView) -> (CpuView, Result<StepResult, EmuError>) {
    let (code, s0) = rd(s, s.program_counter);
    let s1 = CpuView { program_counter: s0.program_counter.wrapping_add(1), ..s0 };
    if code == 0x00 {
        (s1, Ok(StepResult { halted: true, frame_ready: false }))
    } else {
        match opcode_info(code) {
            None => (s1, Err(EmuError::UnknownOpcode(code))),
            Some(info) => {
                let (s2, r) = op_spec(s1, code);
                match r {
                    Err(e) => (s2, Err(e)),
                    Ok(()) => {
                        let s3 = if s2.program_counter == s1.program_counter {
                            CpuView {
                                program_counter: s1.program_counter.wrapping_add(
                                    (info.len as u16).wrapping_sub(1),
                                ),
                                ..s2
                            }
                        } else {
                            s2
                        };
                        let (b, edge) = bus_tick(s3.bus, info.cycles);
                        (
                            CpuView { bus: b, ..s3 },
                            Ok(StepResult { halted: false, frame_ready: edge }),
                        )
                    },
                }
            },
        }
    }
}

/// The machine with a pending NMI consumed.
pub open spec fn consume_nmi(s: CpuView) -> CpuView {
    CpuView {
        bus: BusView { ppu: PpuView { nmi_interrupt: None, ..s.bus.ppu }, ..s.bus },
        ..s
    }
}

/// Servicing the NMI: push PC, push the status word with Break clear and
/// Break2 set, raise InterruptDisable, charge two cycles, and jump
/// through the vector at 0xFFFA.
pub open spec fn interrupt_nmi_spec(s: CpuView) -> CpuView {
    let s1 = push16_spec(s, s.program_counter);
    let s2 = push_spec(s1, flags_bits(CpuFlags { break_cmd: false, break2: true, ..s1.status }));
    let s3 = CpuView { status: CpuFlags { interrupt_disable: true, ..s2.status }, ..s2 };
    let (b, _edge) = bus_tick(s3.bus, 2);
    let s4 = CpuView { bus: b, ..s3 };
    let (v, s5) = rd16(s4, 0xfffa);
    CpuView { program_counter: v, ..s5 }
}

/// One turn of the run loop: service a pending NMI strictly between
/// instructions, then execute one instruction.
pub open spec fn machine_step(s: CpuView) -> (CpuView, Result<StepResult, EmuError>) {
    if s.bus.ppu.nmi_interrupt is Some {
        step_spec(interrupt_nmi_spec(consume_nmi(s)))
    } else {
        step_spec(s)
    }
}

/// Where a run stands after some number of machine steps.
pub enum RunState {
    Running(CpuView),
    Halted(CpuView),
    Failed(CpuView, EmuError),
}

/// The run after `n` machine steps from `s`: stepping stops at the first
/// BRK or error.
pub open spec fn run_n(s: CpuView, n: nat) -> RunState
    decreases n,
{
    if n == 0 {
        RunState::Running(s)
    } else {
        match run_n(s, (n - 1) as nat) {
            RunState::Running(t) => {
                let (t2, r) = machine_step(t);
                match r {
                    Err(e) => RunState::Failed(t2, e),
                    Ok(sr) => if sr.halted {
                        RunState::Halted(t2)
                    } else {
                        RunState::Running(t2)
                    },
                }
            },
            done => done,
        }
    }
}

/// The step budget of `run`: far more instructions than any machine
/// would retire, so only a program that never halts exhausts it.
pub const RUN_FUEL: u64 = 0xffff_ffff_ffff_ffff;

/// The machine from which `load_and_run` starts stepping: the program
/// planted in PRG-ROM with the reset vector pointing at it, and the CPU
/// reset.
pub open spec fn start_state(s: CpuView, program: Seq<u8>) -> CpuView {
    reset_spec(
        CpuView { bus: BusView { prg_rom: loaded_prg(s.bus.prg_rom, program), ..s.bus }, ..s },
    )
}

/// The reset sequence: zero the registers, set SP to 0xFD and the status
/// word to its reset value, and load PC from the vector at 0xFFFC.
pub open spec fn reset_spec(s: CpuView) -> CpuView {
    let s1 = CpuView {
        register_a: 0,
        register_x: 0,
        register_y: 0,
        stack_pointer: 0xfd,
        status: reset_flags(),
        ..s
    };
    let (pc, s2) = rd16(s1, 0xfffc);
    CpuView { program_counter: pc, ..s2 }
}

/// PRG-ROM with `program` planted at its start (CPU address 0x8000) and
/// the reset vector pointing there.
pub open spec fn loaded_prg(prg: Seq<u8>, program: Seq<u8>) -> Seq<u8> {
    Seq::new(
        0x8000,
        |i: int|
            if i < program.len() {
                program[i]
            } else if i == 0x7ffc {
                0u8
            } else if i == 0x7ffd {
                0x80u8
            } else {
                prg[i]
            },
    )
}

impl CPU {
    /// Execute one instruction (servicing no NMI); reports a BRK halt, a
    /// crossed frame boundary, or the error that aborted the instruction.
    pub fn step(&mut self) -> (r: Result<StepResult, EmuError>)
        requires
            cpu_wf(old(self)@),
        ensures
            final(self)@ == step_spec(old(self)@).0,
            r == step_spec(old(self)@).1,
            cpu_wf(final(self)@),
    {
        proof {
            reveal(step_spec);
        }
        let code = self.mem_read(self.program_counter);
        self.program_counter = self.program_counter.wrapping_add(1);
        if code == 0x00 {
            return Ok(StepResult { halted: true, frame_ready: false });
        }
        let op = match find_opcode(code) {
            Some(op) => op,
            None => {
                return Err(EmuError::UnknownOpcode(code));
            },
        };
        let pc_before = self.program_counter;
        let res = self.dispatch(code);
        if let Err(e) = res {
            return Err(e);
        }
        if self.program_counter == pc_before {
            self.program_counter = pc_before.wrapping_add((op.len as u16).wrapping_sub(1));
        }
        let edge = self.bus.tick(op.cycles);
        Ok(StepResult { halted: false, frame_ready: edge })
    }

    /// Service the NMI, to be called just after the pending NMI was
    /// consumed by polling.
    #[verifier::rlimit(100)]
    #[verifier::spinoff_prover]
    fn interrupt_nmi(&mut self)
        requires
            cpu_wf(old(self)@),
        ensures
            final(self)@ == interrupt_nmi_spec(old(self)@),
            cpu_wf(final(self)@),
    {
        let pc = self.program_counter;
        self.stack_push_u16(pc);
        let mut flag = self.status;
        flag.break_cmd = false;
        flag.break2 = true;
        let word = flag.bits();
        self.stack_push(word);
        self.status.interrupt_disable = true;
        let _ = self.bus.tick(2);
        self.program_counter = self.mem_read_u16(0xfffa);
    }

    /// Poll the bus for a pending NMI and service it; reports whether
    /// one was serviced. Hosts driving the console through `step` call
    /// this between instructions, as `run` does.
    pub fn service_pending_nmi(&mut self) -> (r: bool)
        requires
            cpu_wf(old(self)@),
        ensures
            r == (old(self)@.bus.ppu.nmi_interrupt is Some),
            r ==> final(self)@ == interrupt_nmi_spec(consume_nmi(old(self)@)),
            !r ==> final(self)@ == old(self)@,
            cpu_wf(final(self)@),
    {
        let ghost pre = self@;
        let pending = self.bus.poll_nmi_status();
        proof {
            if pre.bus.ppu.nmi_interrupt is Some {
                assert(self@ == consume_nmi(pre));
            } else {
                assert(self@ == pre);
            }
        }
        if pending.is_some() {
            self.interrupt_nmi();
            true
        } else {
            false
        }
    }

    /// Run until BRK or an error, servicing NMIs strictly between
    /// instructions. The result and the machine left behind are those of
    /// stepping the machine relation from the starting state.
    #[verifier::rlimit(100)]
    #[verifier::spinoff_prover]
    pub fn run(&mut self) -> (r: Result<(), EmuError>)
        requires
            cpu_wf(old(self)@),
        ensures
            cpu_wf(final(self)@),
            r matches Ok(()) ==> exists|n: nat|
                #[trigger] run_n(old(self)@, n) == RunState::Halted(final(self)@) || (n == RUN_FUEL
                    && run_n(old(self)@, n) == RunState::Running(final(self)@)),
            r matches Err(e) ==> exists|n: nat|
                #[trigger] run_n(old(self)@, n) == RunState::Failed(final(self)@, e),
    {
        let mut fuel: u64 = RUN_FUEL;
        while fuel > 0
            invariant
                cpu_wf(self@),
                fuel <= RUN_FUEL,
                run_n(old(self)@, (RUN_FUEL - fuel) as nat) == RunState::Running(self@),
            decreases fuel,
        {
            let ghost steps: nat = (RUN_FUEL - fuel) as nat;
            let ghost pre = self@;
            let pending = self.bus.poll_nmi_status();
            proof {
                if pre.bus.ppu.nmi_interrupt is Some {
                    assert(self@ == consume_nmi(pre));
                } else {
                    assert(self@ == pre);
                }
            }
            if pending.is_some() {
                self.interrupt_nmi();
            }
            let ghost mid = self@;
            proof {
                if pre.bus.ppu.nmi_interrupt is Some {
                    assert(mid == interrupt_nmi_spec(consume_nmi(pre)));
                } else {
                    assert(mid == pre);
                }
            }
            let res = self.step();
            proof {
                assert((self@, res) =~= step_spec(mid));
                assert(machine_step(pre) == (self@, res));
                lemma_run_unfold(old(self)@, steps, pre, self@, res);
            }
            match res {
                Err(e) => {
                    return Err(e);
                },
                Ok(sr) => {
                    if sr.halted {
                        return Ok(());
                    }
                },
            }
            fuel = fuel - 1;
        }
        Ok(())
    }

    /// The reset sequence of the 6502.
    pub fn reset(&mut self)
        requires
            cpu_wf(old(self)@),
        ensures
            final(self)@ == reset_spec(old(self)@),
            cpu_wf(final(self)@),
    {
        self.register_a = 0;
        self.register_x = 0;
        self.register_y = 0;
        self.stack_pointer = 0xfd;
        self.status = CpuFlags::reset_value();
        self.program_counter = self.mem_read_u16(0xfffc);
    }

    /// Plant a program at CPU address 0x8000 and point the reset vector
    /// at it.
    pub fn load(&mut self, program: Vec<u8>)
        requires
            cpu_wf(old(self)@),
            old(self)@.bus.prg_rom.len() == 0x8000,
            program@.len() <= 0x7ffc,
        ensures
            final(self)@ == (CpuView {
                bus: BusView {
                    prg_rom: loaded_prg(old(self)@.bus.prg_rom, program@),
                    ..old(self)@.bus
                },
                ..old(self)@
            }),
            cpu_wf(final(self)@),
    {
        let mut i: usize = 0;
        while i < program.len()
            invariant
                i <= program@.len(),
                program@.len() <= 0x7ffc,
                self@.bus.prg_rom.len() == 0x8000,
                self@ == (CpuView {
                    bus: BusView { prg_rom: self@.bus.prg_rom, ..old(self)@.bus },
                    ..old(self)@
                }),
                forall|j: int| 0 <= j < i ==> self@.bus.prg_rom[j] == program@[j],
                forall|j: int|
                    i <= j < 0x8000 ==> self@.bus.prg_rom[j] == old(self)@.bus.prg_rom[j],
            decreases program@.len() - i,
        {
            let b = program[i];
            self.bus.prg_rom.set(i, b);
            i += 1;
        }
        self.bus.prg_rom.set(0x7ffc, 0x00);
        self.bus.prg_rom.set(0x7ffd, 0x80);
        proof {
            assert(self@.bus.prg_rom =~= loaded_prg(old(self)@.bus.prg_rom, program@));
        }
    }

    /// Load a program, reset, and run it to its BRK: the test harness
    /// entry point.
    pub fn load_and_run(&mut self, program: Vec<u8>) -> (r: Result<(), EmuError>)
        requires
            cpu_wf(old(self)@),
            old(self)@.bus.prg_rom.len() == 0x8000,
            program@.len() <= 0x7ffc,
        ensures
            cpu_wf(final(self)@),
            r matches Ok(()) ==> exists|n: nat|
                #[trigger] run_n(start_state(old(self)@, program@), n) == RunState::Halted(
                    final(self)@,
                ) || (n == RUN_FUEL && run_n(start_state(old(self)@, program@), n)
                    == RunState::Running(final(self)@)),
            r matches Err(e) ==> exists|n: nat|
                #[trigger] run_n(start_state(old(self)@, program@), n) == RunState::Failed(
                    final(self)@,
                    e,
                ),
    {
        self.load(program);
        self.reset();
        self.run()
    }
}

/// Unfolding the run relation by one step.
proof fn lemma_run_unfold(
    s0: CpuView,
    n: nat,
    pre: CpuView,
    post: CpuView,
    res: Result<StepResult, EmuError>,
)
    requires
        run_n(s0, n) == RunState::Running(pre),
        machine_step(pre) == (post, res),
    ensures
        run_n(s0, n + 1) == (match res {
            Err(e) => RunState::Failed(post, e),
            Ok(sr) => if sr.halted {
                RunState::Halted(post)
            } else {
                RunState::Running(post)
            },
        }),
{
    assert(run_n(s0, n + 1) == (match run_n(s0, n) {
        RunState::Running(t) => {
            let (t2, r) = machine_step(t);
            match r {
                Err(e) => RunState::Failed(t2, e),
                Ok(sr) => if sr.halted {
                    RunState::Halted(t2)
                } else {
                    RunState::Running(t2)
                },
            }
        },
        done => done,
    }));
}

/// X replaced by `X + d` (d is 1 for INX, 0xFF for DEX), with Z/N.
pub open spec fn bump_spec_x(s: CpuView, d: u8) -> CpuView {
    let r = s.register_x.wrapping_add(d);
    CpuView { register_x: r, status: with_zn(s.status, r), ..s }
}

/// Y replaced by `Y + d` (d is 1 for INY, 0xFF for DEY), with Z/N.
pub open spec fn bump_spec_y(s: CpuView, d: u8) -> CpuView {
    let r = s.register_y.wrapping_add(d);
    CpuView { register_y: r, status: with_zn(s.status, r), ..s }
}

} // verus!

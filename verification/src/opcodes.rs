//! The static opcode table: each documented opcode's mnemonic, byte
//! length, base cycle count and addressing mode.

use vstd::prelude::*;
use crate::cpu::AddressingMode;

verus! {

/// One row of the opcode table.
pub struct OpCode {
    pub code: u8,
    pub mnemonic: &'static str,
    pub len: u8,
    pub cycles: u8,
    pub mode: AddressingMode,
}

impl OpCode {
    /// Assemble one table row.
    pub fn new(code: u8, mnemonic: &'static str, len: u8, cycles: u8, mode: AddressingMode) -> (r: OpCode)
        ensures
            r.code == code && r.mnemonic@ == mnemonic@ && r.len == len && r.cycles == cycles
                && r.mode == mode,
    {
        OpCode { code, mnemonic, len, cycles, mode }
    }
}

/// The decode attributes of an opcode, as the specifications use them.
#[derive(Clone, Copy, Debug, PartialEq, Eq, Structural)]
pub struct OpInfo {
    pub len: u8,
    pub cycles: u8,
    pub mode: AddressingMode,
}

/// Length, cycle count and addressing mode for each documented opcode;
/// `None` for the 105 undocumented ones.
pub open spec fn opcode_info(code: u8) -> Option<OpInfo> {
    match code {
        0x00 => Some(OpInfo { len: 1, cycles: 7, mode: AddressingMode::NoneAddressing }),
        0x01 => Some(OpInfo { len: 2, cycles: 6, mode: AddressingMode::Indirect_X }),
        0x05 => Some(OpInfo { len: 2, cycles: 3, mode: AddressingMode::ZeroPage }),
        0x06 => Some(OpInfo { len: 2, cycles: 5, mode: AddressingMode::ZeroPage }),
        0x08 => Some(OpInfo { len: 1, cycles: 3, mode: AddressingMode::NoneAddressing }),
        0x09 => Some(OpInfo { len: 2, cycles: 2, mode: AddressingMode::Immediate }),
        0x0a => Some(OpInfo { len: 1, cycles: 2, mode: AddressingMode::NoneAddressing }),
        0x0d => Some(OpInfo { len: 3, cycles: 4, mode: AddressingMode::Absolute }),
        0x0e => Some(OpInfo { len: 3, cycles: 6, mode: AddressingMode::Absolute }),
        0x10 => Some(OpInfo { len: 2, cycles: 2, mode: AddressingMode::NoneAddressing }),
        0x11 => Some(OpInfo { len: 2, cycles: 5, mode: AddressingMode::Indirect_Y }),
        0x15 => Some(OpInfo { len: 2, cycles: 4, mode: AddressingMode::ZeroPage_X }),
        0x16 => Some(OpInfo { len: 2, cycles: 6, mode: AddressingMode::ZeroPage_X }),
        0x18 => Some(OpInfo { len: 1, cycles: 2, mode: AddressingMode::NoneAddressing }),
        0x19 => Some(OpInfo { len: 3, cycles: 4, mode: AddressingMode::Absolute_Y }),
        0x1d => Some(OpInfo { len: 3, cycles: 4, mode: AddressingMode::Absolute_X }),
        0x1e => Some(OpInfo { len: 3, cycles: 7, mode: AddressingMode::Absolute_X }),
        0x20 => Some(OpInfo { len: 3, cycles: 6, mode: AddressingMode::NoneAddressing }),
        0x21 => Some(OpInfo { len: 2, cycles: 6, mode: AddressingMode::Indirect_X }),
        0x24 => Some(OpInfo { len: 2, cycles: 3, mode: AddressingMode::ZeroPage }),
        0x25 => Some(OpInfo { len: 2, cycles: 3, mode: AddressingMode::ZeroPage }),
        0x26 => Some(OpInfo { len: 2, cycles: 5, mode: AddressingMode::ZeroPage }),
        0x28 => Some(OpInfo { len: 1, cycles: 4, mode: AddressingMode::NoneAddressing }),
        0x29 => Some(OpInfo { len: 2, cycles: 2, mode: AddressingMode::Immediate }),
        0x2a => Some(OpInfo { len: 1, cycles: 2, mode: AddressingMode::NoneAddressing }),
        0x2c => Some(OpInfo { len: 3, cycles: 4, mode: AddressingMode::Absolute }),
        0x2d => Some(OpInfo { len: 3, cycles: 4, mode: AddressingMode::Absolute }),
        0x2e => Some(OpInfo { len: 3, cycles: 6, mode: AddressingMode::Absolute }),
        0x30 => Some(OpInfo { len: 2, cycles: 2, mode: AddressingMode::NoneAddressing }),
        0x31 => Some(OpInfo { len: 2, cycles: 5, mode: AddressingMode::Indirect_Y }),
        0x35 => Some(OpInfo { len: 2, cycles: 4, mode: AddressingMode::ZeroPage_X }),
        0x36 => Some(OpInfo { len: 2, cycles: 6, mode: AddressingMode::ZeroPage_X }),
        0x38 => Some(OpInfo { len: 1, cycles: 2, mode: AddressingMode::NoneAddressing }),
        0x39 => Some(OpInfo { len: 3, cycles: 4, mode: AddressingMode::Absolute_Y }),
        0x3d => Some(OpInfo { len: 3, cycles: 4, mode: AddressingMode::Absolute_X }),
        0x3e => Some(OpInfo { len: 3, cycles: 7, mode: AddressingMode::Absolute_X }),
        0x40 => Some(OpInfo { len: 1, cycles: 6, mode: AddressingMode::NoneAddressing }),
        0x41 => Some(OpInfo { len: 2, cycles: 6, mode: AddressingMode::Indirect_X }),
        0x45 => Some(OpInfo { len: 2, cycles: 3, mode: AddressingMode::ZeroPage }),
        0x46 => Some(OpInfo { len: 2, cycles: 5, mode: AddressingMode::ZeroPage }),
        0x48 => Some(OpInfo { len: 1, cycles: 3, mode: AddressingMode::NoneAddressing }),
        0x49 => Some(OpInfo { len: 2, cycles: 2, mode: AddressingMode::Immediate }),
        0x4a => Some(OpInfo { len: 1, cycles: 2, mode: AddressingMode::NoneAddressing }),
        0x4c => Some(OpInfo { len: 3, cycles: 3, mode: AddressingMode::NoneAddressing }),
        0x4d => Some(OpInfo { len: 3, cycles: 4, mode: AddressingMode::Absolute }),
        0x4e => Some(OpInfo { len: 3, cycles: 6, mode: AddressingMode::Absolute }),
        0x50 => Some(OpInfo { len: 2, cycles: 2, mode: AddressingMode::NoneAddressing }),
        0x51 => Some(OpInfo { len: 2, cycles: 5, mode: AddressingMode::Indirect_Y }),
        0x55 => Some(OpInfo { len: 2, cycles: 4, mode: AddressingMode::ZeroPage_X }),
        0x56 => Some(OpInfo { len: 2, cycles: 6, mode: AddressingMode::ZeroPage_X }),
        0x58 => Some(OpInfo { len: 1, cycles: 2, mode: AddressingMode::NoneAddressing }),
        0x59 => Some(OpInfo { len: 3, cycles: 4, mode: AddressingMode::Absolute_Y }),
        0x5d => Some(OpInfo { len: 3, cycles: 4, mode: AddressingMode::Absolute_X }),
        0x5e => Some(OpInfo { len: 3, cycles: 7, mode: AddressingMode::Absolute_X }),
        0x60 => Some(OpInfo { len: 1, cycles: 6, mode: AddressingMode::NoneAddressing }),
        0x61 => Some(OpInfo { len: 2, cycles: 6, mode: AddressingMode::Indirect_X }),
        0x65 => Some(OpInfo { len: 2, cycles: 3, mode: AddressingMode::ZeroPage }),
        0x66 => Some(OpInfo { len: 2, cycles: 5, mode: AddressingMode::ZeroPage }),
        0x68 => Some(OpInfo { len: 1, cycles: 4, mode: AddressingMode::NoneAddressing }),
        0x69 => Some(OpInfo { len: 2, cycles: 2, mode: AddressingMode::Immediate }),
        0x6a => Some(OpInfo { len: 1, cycles: 2, mode: AddressingMode::NoneAddressing }),
        0x6c => Some(OpInfo { len: 3, cycles: 5, mode: AddressingMode::NoneAddressing }),
        0x6d => Some(OpInfo { len: 3, cycles: 4, mode: AddressingMode::Absolute }),
        0x6e => Some(OpInfo { len: 3, cycles: 6, mode: AddressingMode::Absolute }),
        0x70 => Some(OpInfo { len: 2, cycles: 2, mode: AddressingMode::NoneAddressing }),
        0x71 => Some(OpInfo { len: 2, cycles: 5, mode: AddressingMode::Indirect_Y }),
        0x75 => Some(OpInfo { len: 2, cycles: 4, mode: AddressingMode::ZeroPage_X }),
        0x76 => Some(OpInfo { len: 2, cycles: 6, mode: AddressingMode::ZeroPage_X }),
        0x78 => Some(OpInfo { len: 1, cycles: 2, mode: AddressingMode::NoneAddressing }),
        0x79 => Some(OpInfo { len: 3, cycles: 4, mode: AddressingMode::Absolute_Y }),
        0x7d => Some(OpInfo { len: 3, cycles: 4, mode: AddressingMode::Absolute_X }),
        0x7e => Some(OpInfo { len: 3, cycles: 7, mode: AddressingMode::Absolute_X }),
        0x81 => Some(OpInfo { len: 2, cycles: 6, mode: AddressingMode::Indirect_X }),
        0x84 => Some(OpInfo { len: 2, cycles: 3, mode: AddressingMode::ZeroPage }),
        0x85 => Some(OpInfo { len: 2, cycles: 3, mode: AddressingMode::ZeroPage }),
        0x86 => Some(OpInfo { len: 2, cycles: 3, mode: AddressingMode::ZeroPage }),
        0x88 => Some(OpInfo { len: 1, cycles: 2, mode: AddressingMode::NoneAddressing }),
        0x8a => Some(OpInfo { len: 1, cycles: 2, mode: AddressingMode::NoneAddressing }),
        0x8c => Some(OpInfo { len: 3, cycles: 4, mode: AddressingMode::Absolute }),
        0x8d => Some(OpInfo { len: 3, cycles: 4, mode: AddressingMode::Absolute }),
        0x8e => Some(OpInfo { len: 3, cycles: 4, mode: AddressingMode::Absolute }),
        0x90 => Some(OpInfo { len: 2, cycles: 2, mode: AddressingMode::NoneAddressing }),
        0x91 => Some(OpInfo { len: 2, cycles: 6, mode: AddressingMode::Indirect_Y }),
        0x94 => Some(OpInfo { len: 2, cycles: 4, mode: AddressingMode::ZeroPage_X }),
        0x95 => Some(OpInfo { len: 2, cycles: 4, mode: AddressingMode::ZeroPage_X }),
        0x96 => Some(OpInfo { len: 2, cycles: 4, mode: AddressingMode::ZeroPage_Y }),
        0x98 => Some(OpInfo { len: 1, cycles: 2, mode: AddressingMode::NoneAddressing }),
        0x99 => Some(OpInfo { len: 3, cycles: 5, mode: AddressingMode::Absolute_Y }),
        0x9a => Some(OpInfo { len: 1, cycles: 2, mode: AddressingMode::NoneAddressing }),
        0x9d => Some(OpInfo { len: 3, cycles: 5, mode: AddressingMode::Absolute_X }),
        0xa0 => Some(OpInfo { len: 2, cycles: 2, mode: AddressingMode::Immediate }),
        0xa1 => Some(OpInfo { len: 2, cycles: 6, mode: AddressingMode::Indirect_X }),
        0xa2 => Some(OpInfo { len: 2, cycles: 2, mode: AddressingMode::Immediate }),
        0xa4 => Some(OpInfo { len: 2, cycles: 3, mode: AddressingMode::ZeroPage }),
        0xa5 => Some(OpInfo { len: 2, cycles: 3, mode: AddressingMode::ZeroPage }),
        0xa6 => Some(OpInfo { len: 2, cycles: 3, mode: AddressingMode::ZeroPage }),
        0xa8 => Some(OpInfo { len: 1, cycles: 2, mode: AddressingMode::NoneAddressing }),
        0xa9 => Some(OpInfo { len: 2, cycles: 2, mode: AddressingMode::Immediate }),
        0xaa => Some(OpInfo { len: 1, cycles: 2, mode: AddressingMode::NoneAddressing }),
        0xac => Some(OpInfo { len: 3, cycles: 4, mode: AddressingMode::Absolute }),
        0xad => Some(OpInfo { len: 3, cycles: 4, mode: AddressingMode::Absolute }),
        0xae => Some(OpInfo { len: 3, cycles: 4, mode: AddressingMode::Absolute }),
        0xb0 => Some(OpInfo { len: 2, cycles: 2, mode: AddressingMode::NoneAddressing }),
        0xb1 => Some(OpInfo { len: 2, cycles: 5, mode: AddressingMode::Indirect_Y }),
        0xb4 => Some(OpInfo { len: 2, cycles: 4, mode: AddressingMode::ZeroPage_X }),
        0xb5 => Some(OpInfo { len: 2, cycles: 4, mode: AddressingMode::ZeroPage_X }),
        0xb6 => Some(OpInfo { len: 2, cycles: 4, mode: AddressingMode::ZeroPage_Y }),
        0xb8 => Some(OpInfo { len: 1, cycles: 2, mode: AddressingMode::NoneAddressing }),
        0xb9 => Some(OpInfo { len: 3, cycles: 4, mode: AddressingMode::Absolute_Y }),
        0xba => Some(OpInfo { len: 1, cycles: 2, mode: AddressingMode::NoneAddressing }),
        0xbc => Some(OpInfo { len: 3, cycles: 4, mode: AddressingMode::Absolute_X }),
        0xbd => Some(OpInfo { len: 3, cycles: 4, mode: AddressingMode::Absolute_X }),
        0xbe => Some(OpInfo { len: 3, cycles: 4, mode: AddressingMode::Absolute_Y }),
        0xc0 => Some(OpInfo { len: 2, cycles: 2, mode: AddressingMode::Immediate }),
        0xc1 => Some(OpInfo { len: 2, cycles: 6, mode: AddressingMode::Indirect_X }),
        0xc4 => Some(OpInfo { len: 2, cycles: 3, mode: AddressingMode::ZeroPage }),
        0xc5 => Some(OpInfo { len: 2, cycles: 3, mode: AddressingMode::ZeroPage }),
        0xc6 => Some(OpInfo { len: 2, cycles: 5, mode: AddressingMode::ZeroPage }),
        0xc8 => Some(OpInfo { len: 1, cycles: 2, mode: AddressingMode::NoneAddressing }),
        0xc9 => Some(OpInfo { len: 2, cycles: 2, mode: AddressingMode::Immediate }),
        0xca => Some(OpInfo { len: 1, cycles: 2, mode: AddressingMode::NoneAddressing }),
        0xcc => Some(OpInfo { len: 3, cycles: 4, mode: AddressingMode::Absolute }),
        0xcd => Some(OpInfo { len: 3, cycles: 4, mode: AddressingMode::Absolute }),
        0xce => Some(OpInfo { len: 3, cycles: 6, mode: AddressingMode::Absolute }),
        0xd0 => Some(OpInfo { len: 2, cycles: 2, mode: AddressingMode::NoneAddressing }),
        0xd1 => Some(OpInfo { len: 2, cycles: 5, mode: AddressingMode::Indirect_Y }),
        0xd5 => Some(OpInfo { len: 2, cycles: 4, mode: AddressingMode::ZeroPage_X }),
        0xd6 => Some(OpInfo { len: 2, cycles: 6, mode: AddressingMode::ZeroPage_X }),
        0xd8 => Some(OpInfo { len: 1, cycles: 2, mode: AddressingMode::NoneAddressing }),
        0xd9 => Some(OpInfo { len: 3, cycles: 4, mode: AddressingMode::Absolute_Y }),
        0xdd => Some(OpInfo { len: 3, cycles: 4, mode: AddressingMode::Absolute_X }),
        0xde => Some(OpInfo { len: 3, cycles: 7, mode: AddressingMode::Absolute_X }),
        0xe0 => Some(OpInfo { len: 2, cycles: 2, mode: AddressingMode::Immediate }),
        0xe1 => Some(OpInfo { len: 2, cycles: 6, mode: AddressingMode::Indirect_X }),
        0xe4 => Some(OpInfo { len: 2, cycles: 3, mode: AddressingMode::ZeroPage }),
        0xe5 => Some(OpInfo { len: 2, cycles: 3, mode: AddressingMode::ZeroPage }),
        0xe6 => Some(OpInfo { len: 2, cycles: 5, mode: AddressingMode::ZeroPage }),
        0xe8 => Some(OpInfo { len: 1, cycles: 2, mode: AddressingMode::NoneAddressing }),
        0xe9 => Some(OpInfo { len: 2, cycles: 2, mode: AddressingMode::Immediate }),
        0xea => Some(OpInfo { len: 1, cycles: 2, mode: AddressingMode::NoneAddressing }),
        0xec => Some(OpInfo { len: 3, cycles: 4, mode: AddressingMode::Absolute }),
        0xed => Some(OpInfo { len: 3, cycles: 4, mode: AddressingMode::Absolute }),
        0xee => Some(OpInfo { len: 3, cycles: 6, mode: AddressingMode::Absolute }),
        0xf0 => Some(OpInfo { len: 2, cycles: 2, mode: AddressingMode::NoneAddressing }),
        0xf1 => Some(OpInfo { len: 2, cycles: 5, mode: AddressingMode::Indirect_Y }),
        0xf5 => Some(OpInfo { len: 2, cycles: 4, mode: AddressingMode::ZeroPage_X }),
        0xf6 => Some(OpInfo { len: 2, cycles: 6, mode: AddressingMode::ZeroPage_X }),
        0xf8 => Some(OpInfo { len: 1, cycles: 2, mode: AddressingMode::NoneAddressing }),
        0xf9 => Some(OpInfo { len: 3, cycles: 4, mode: AddressingMode::Absolute_Y }),
        0xfd => Some(OpInfo { len: 3, cycles: 4, mode: AddressingMode::Absolute_X }),
        0xfe => Some(OpInfo { len: 3, cycles: 7, mode: AddressingMode::Absolute_X }),
        _ => None,
    }
}

/// Look one opcode up; agrees with `opcode_info` and carries the
/// mnemonic for diagnostics.
#[verifier::rlimit(100)]
#[verifier::spinoff_prover]
pub fn find_opcode(code: u8) -> (r: Option<OpCode>)
    ensures
        match r {
            Some(op) => opcode_info(code) == Some(OpInfo { len: op.len, cycles: op.cycles, mode: op.mode })
                && op.code == code,
            None => opcode_info(code) is None,
        },
{
    match code {
        0x00 => Some(OpCode::new(0x00, "BRK", 1, 7, AddressingMode::NoneAddressing)),
        0x01 => Some(OpCode::new(0x01, "ORA", 2, 6, AddressingMode::Indirect_X)),
        0x05 => Some(OpCode::new(0x05, "ORA", 2, 3, AddressingMode::ZeroPage)),
        0x06 => Some(OpCode::new(0x06, "ASL", 2, 5, AddressingMode::ZeroPage)),
        0x08 => Some(OpCode::new(0x08, "PHP", 1, 3, AddressingMode::NoneAddressing)),
        0x09 => Some(OpCode::new(0x09, "ORA", 2, 2, AddressingMode::Immediate)),
        0x0a => Some(OpCode::new(0x0a, "ASL", 1, 2, AddressingMode::NoneAddressing)),
        0x0d => Some(OpCode::new(0x0d, "ORA", 3, 4, AddressingMode::Absolute)),
        0x0e => Some(OpCode::new(0x0e, "ASL", 3, 6, AddressingMode::Absolute)),
        0x10 => Some(OpCode::new(0x10, "BPL", 2, 2, AddressingMode::NoneAddressing)),
        0x11 => Some(OpCode::new(0x11, "ORA", 2, 5, AddressingMode::Indirect_Y)),
        0x15 => Some(OpCode::new(0x15, "ORA", 2, 4, AddressingMode::ZeroPage_X)),
        0x16 => Some(OpCode::new(0x16, "ASL", 2, 6, AddressingMode::ZeroPage_X)),
        0x18 => Some(OpCode::new(0x18, "CLC", 1, 2, AddressingMode::NoneAddressing)),
        0x19 => Some(OpCode::new(0x19, "ORA", 3, 4, AddressingMode::Absolute_Y)),
        0x1d => Some(OpCode::new(0x1d, "ORA", 3, 4, AddressingMode::Absolute_X)),
        0x1e => Some(OpCode::new(0x1e, "ASL", 3, 7, AddressingMode::Absolute_X)),
        0x20 => Some(OpCode::new(0x20, "JSR", 3, 6, AddressingMode::NoneAddressing)),
        0x21 => Some(OpCode::new(0x21, "AND", 2, 6, AddressingMode::Indirect_X)),
        0x24 => Some(OpCode::new(0x24, "BIT", 2, 3, AddressingMode::ZeroPage)),
        0x25 => Some(OpCode::new(0x25, "AND", 2, 3, AddressingMode::ZeroPage)),
        0x26 => Some(OpCode::new(0x26, "ROL", 2, 5, AddressingMode::ZeroPage)),
        0x28 => Some(OpCode::new(0x28, "PLP", 1, 4, AddressingMode::NoneAddressing)),
        0x29 => Some(OpCode::new(0x29, "AND", 2, 2, AddressingMode::Immediate)),
        0x2a => Some(OpCode::new(0x2a, "ROL", 1, 2, AddressingMode::NoneAddressing)),
        0x2c => Some(OpCode::new(0x2c, "BIT", 3, 4, AddressingMode::Absolute)),
        0x2d => Some(OpCode::new(0x2d, "AND", 3, 4, AddressingMode::Absolute)),
        0x2e => Some(OpCode::new(0x2e, "ROL", 3, 6, AddressingMode::Absolute)),
        0x30 => Some(OpCode::new(0x30, "BMI", 2, 2, AddressingMode::NoneAddressing)),
        0x31 => Some(OpCode::new(0x31, "AND", 2, 5, AddressingMode::Indirect_Y)),
        0x35 => Some(OpCode::new(0x35, "AND", 2, 4, AddressingMode::ZeroPage_X)),
        0x36 => Some(OpCode::new(0x36, "ROL", 2, 6, AddressingMode::ZeroPage_X)),
        0x38 => Some(OpCode::new(0x38, "SEC", 1, 2, AddressingMode::NoneAddressing)),
        0x39 => Some(OpCode::new(0x39, "AND", 3, 4, AddressingMode::Absolute_Y)),
        0x3d => Some(OpCode::new(0x3d, "AND", 3, 4, AddressingMode::Absolute_X)),
        0x3e => Some(OpCode::new(0x3e, "ROL", 3, 7, AddressingMode::Absolute_X)),
        0x40 => Some(OpCode::new(0x40, "RTI", 1, 6, AddressingMode::NoneAddressing)),
        0x41 => Some(OpCode::new(0x41, "EOR", 2, 6, AddressingMode::Indirect_X)),
        0x45 => Some(OpCode::new(0x45, "EOR", 2, 3, AddressingMode::ZeroPage)),
        0x46 => Some(OpCode::new(0x46, "LSR", 2, 5, AddressingMode::ZeroPage)),
        0x48 => Some(OpCode::new(0x48, "PHA", 1, 3, AddressingMode::NoneAddressing)),
        0x49 => Some(OpCode::new(0x49, "EOR", 2, 2, AddressingMode::Immediate)),
        0x4a => Some(OpCode::new(0x4a, "LSR", 1, 2, AddressingMode::NoneAddressing)),
        0x4c => Some(OpCode::new(0x4c, "JMP", 3, 3, AddressingMode::NoneAddressing)),
        0x4d => Some(OpCode::new(0x4d, "EOR", 3, 4, AddressingMode::Absolute)),
        0x4e => Some(OpCode::new(0x4e, "LSR", 3, 6, AddressingMode::Absolute)),
        0x50 => Some(OpCode::new(0x50, "BVC", 2, 2, AddressingMode::NoneAddressing)),
        0x51 => Some(OpCode::new(0x51, "EOR", 2, 5, AddressingMode::Indirect_Y)),
        0x55 => Some(OpCode::new(0x55, "EOR", 2, 4, AddressingMode::ZeroPage_X)),
        0x56 => Some(OpCode::new(0x56, "LSR", 2, 6, AddressingMode::ZeroPage_X)),
        0x58 => Some(OpCode::new(0x58, "CLI", 1, 2, AddressingMode::NoneAddressing)),
        0x59 => Some(OpCode::new(0x59, "EOR", 3, 4, AddressingMode::Absolute_Y)),
        0x5d => Some(OpCode::new(0x5d, "EOR", 3, 4, AddressingMode::Absolute_X)),
        0x5e => Some(OpCode::new(0x5e, "LSR", 3, 7, AddressingMode::Absolute_X)),
        0x60 => Some(OpCode::new(0x60, "RTS", 1, 6, AddressingMode::NoneAddressing)),
        0x61 => Some(OpCode::new(0x61, "ADC", 2, 6, AddressingMode::Indirect_X)),
        0x65 => Some(OpCode::new(0x65, "ADC", 2, 3, AddressingMode::ZeroPage)),
        0x66 => Some(OpCode::new(0x66, "ROR", 2, 5, AddressingMode::ZeroPage)),
        0x68 => Some(OpCode::new(0x68, "PLA", 1, 4, AddressingMode::NoneAddressing)),
        0x69 => Some(OpCode::new(0x69, "ADC", 2, 2, AddressingMode::Immediate)),
        0x6a => Some(OpCode::new(0x6a, "ROR", 1, 2, AddressingMode::NoneAddressing)),
        0x6c => Some(OpCode::new(0x6c, "JMP", 3, 5, AddressingMode::NoneAddressing)),
        0x6d => Some(OpCode::new(0x6d, "ADC", 3, 4, AddressingMode::Absolute)),
        0x6e => Some(OpCode::new(0x6e, "ROR", 3, 6, AddressingMode::Absolute)),
        0x70 => Some(OpCode::new(0x70, "BVS", 2, 2, AddressingMode::NoneAddressing)),
        0x71 => Some(OpCode::new(0x71, "ADC", 2, 5, AddressingMode::Indirect_Y)),
        0x75 => Some(OpCode::new(0x75, "ADC", 2, 4, AddressingMode::ZeroPage_X)),
        0x76 => Some(OpCode::new(0x76, "ROR", 2, 6, AddressingMode::ZeroPage_X)),
        0x78 => Some(OpCode::new(0x78, "SEI", 1, 2, AddressingMode::NoneAddressing)),
        0x79 => Some(OpCode::new(0x79, "ADC", 3, 4, AddressingMode::Absolute_Y)),
        0x7d => Some(OpCode::new(0x7d, "ADC", 3, 4, AddressingMode::Absolute_X)),
        0x7e => Some(OpCode::new(0x7e, "ROR", 3, 7, AddressingMode::Absolute_X)),
        0x81 => Some(OpCode::new(0x81, "STA", 2, 6, AddressingMode::Indirect_X)),
        0x84 => Some(OpCode::new(0x84, "STY", 2, 3, AddressingMode::ZeroPage)),
        0x85 => Some(OpCode::new(0x85, "STA", 2, 3, AddressingMode::ZeroPage)),
        0x86 => Some(OpCode::new(0x86, "STX", 2, 3, AddressingMode::ZeroPage)),
        0x88 => Some(OpCode::new(0x88, "DEY", 1, 2, AddressingMode::NoneAddressing)),
        0x8a => Some(OpCode::new(0x8a, "TXA", 1, 2, AddressingMode::NoneAddressing)),
        0x8c => Some(OpCode::new(0x8c, "STY", 3, 4, AddressingMode::Absolute)),
        0x8d => Some(OpCode::new(0x8d, "STA", 3, 4, AddressingMode::Absolute)),
        0x8e => Some(OpCode::new(0x8e, "STX", 3, 4, AddressingMode::Absolute)),
        0x90 => Some(OpCode::new(0x90, "BCC", 2, 2, AddressingMode::NoneAddressing)),
        0x91 => Some(OpCode::new(0x91, "STA", 2, 6, AddressingMode::Indirect_Y)),
        0x94 => Some(OpCode::new(0x94, "STY", 2, 4, AddressingMode::ZeroPage_X)),
        0x95 => Some(OpCode::new(0x95, "STA", 2, 4, AddressingMode::ZeroPage_X)),
        0x96 => Some(OpCode::new(0x96, "STX", 2, 4, AddressingMode::ZeroPage_Y)),
        0x98 => Some(OpCode::new(0x98, "TYA", 1, 2, AddressingMode::NoneAddressing)),
        0x99 => Some(OpCode::new(0x99, "STA", 3, 5, AddressingMode::Absolute_Y)),
        0x9a => Some(OpCode::new(0x9a, "TXS", 1, 2, AddressingMode::NoneAddressing)),
        0x9d => Some(OpCode::new(0x9d, "STA", 3, 5, AddressingMode::Absolute_X)),
        0xa0 => Some(OpCode::new(0xa0, "LDY", 2, 2, AddressingMode::Immediate)),
        0xa1 => Some(OpCode::new(0xa1, "LDA", 2, 6, AddressingMode::Indirect_X)),
        0xa2 => Some(OpCode::new(0xa2, "LDX", 2, 2, AddressingMode::Immediate)),
        0xa4 => Some(OpCode::new(0xa4, "LDY", 2, 3, AddressingMode::ZeroPage)),
        0xa5 => Some(OpCode::new(0xa5, "LDA", 2, 3, AddressingMode::ZeroPage)),
        0xa6 => Some(OpCode::new(0xa6, "LDX", 2, 3, AddressingMode::ZeroPage)),
        0xa8 => Some(OpCode::new(0xa8, "TAY", 1, 2, AddressingMode::NoneAddressing)),
        0xa9 => Some(OpCode::new(0xa9, "LDA", 2, 2, AddressingMode::Immediate)),
        0xaa => Some(OpCode::new(0xaa, "TAX", 1, 2, AddressingMode::NoneAddressing)),
        0xac => Some(OpCode::new(0xac, "LDY", 3, 4, AddressingMode::Absolute)),
        0xad => Some(OpCode::new(0xad, "LDA", 3, 4, AddressingMode::Absolute)),
        0xae => Some(OpCode::new(0xae, "LDX", 3, 4, AddressingMode::Absolute)),
        0xb0 => Some(OpCode::new(0xb0, "BCS", 2, 2, AddressingMode::NoneAddressing)),
        0xb1 => Some(OpCode::new(0xb1, "LDA", 2, 5, AddressingMode::Indirect_Y)),
        0xb4 => Some(OpCode::new(0xb4, "LDY", 2, 4, AddressingMode::ZeroPage_X)),
        0xb5 => Some(OpCode::new(0xb5, "LDA", 2, 4, AddressingMode::ZeroPage_X)),
        0xb6 => Some(OpCode::new(0xb6, "LDX", 2, 4, AddressingMode::ZeroPage_Y)),
        0xb8 => Some(OpCode::new(0xb8, "CLV", 1, 2, AddressingMode::NoneAddressing)),
        0xb9 => Some(OpCode::new(0xb9, "LDA", 3, 4, AddressingMode::Absolute_Y)),
        0xba => Some(OpCode::new(0xba, "TSX", 1, 2, AddressingMode::NoneAddressing)),
        0xbc => Some(OpCode::new(0xbc, "LDY", 3, 4, AddressingMode::Absolute_X)),
        0xbd => Some(OpCode::new(0xbd, "LDA", 3, 4, AddressingMode::Absolute_X)),
        0xbe => Some(OpCode::new(0xbe, "LDX", 3, 4, AddressingMode::Absolute_Y)),
        0xc0 => Some(OpCode::new(0xc0, "CPY", 2, 2, AddressingMode::Immediate)),
        0xc1 => Some(OpCode::new(0xc1, "CMP", 2, 6, AddressingMode::Indirect_X)),
        0xc4 => Some(OpCode::new(0xc4, "CPY", 2, 3, AddressingMode::ZeroPage)),
        0xc5 => Some(OpCode::new(0xc5, "CMP", 2, 3, AddressingMode::ZeroPage)),
        0xc6 => Some(OpCode::new(0xc6, "DEC", 2, 5, AddressingMode::ZeroPage)),
        0xc8 => Some(OpCode::new(0xc8, "INY", 1, 2, AddressingMode::NoneAddressing)),
        0xc9 => Some(OpCode::new(0xc9, "CMP", 2, 2, AddressingMode::Immediate)),
        0xca => Some(OpCode::new(0xca, "DEX", 1, 2, AddressingMode::NoneAddressing)),
        0xcc => Some(OpCode::new(0xcc, "CPY", 3, 4, AddressingMode::Absolute)),
        0xcd => Some(OpCode::new(0xcd, "CMP", 3, 4, AddressingMode::Absolute)),
        0xce => Some(OpCode::new(0xce, "DEC", 3, 6, AddressingMode::Absolute)),
        0xd0 => Some(OpCode::new(0xd0, "BNE", 2, 2, AddressingMode::NoneAddressing)),
        0xd1 => Some(OpCode::new(0xd1, "CMP", 2, 5, AddressingMode::Indirect_Y)),
        0xd5 => Some(OpCode::new(0xd5, "CMP", 2, 4, AddressingMode::ZeroPage_X)),
        0xd6 => Some(OpCode::new(0xd6, "DEC", 2, 6, AddressingMode::ZeroPage_X)),
        0xd8 => Some(OpCode::new(0xd8, "CLD", 1, 2, AddressingMode::NoneAddressing)),
        0xd9 => Some(OpCode::new(0xd9, "CMP", 3, 4, AddressingMode::Absolute_Y)),
        0xdd => Some(OpCode::new(0xdd, "CMP", 3, 4, AddressingMode::Absolute_X)),
        0xde => Some(OpCode::new(0xde, "DEC", 3, 7, AddressingMode::Absolute_X)),
        0xe0 => Some(OpCode::new(0xe0, "CPX", 2, 2, AddressingMode::Immediate)),
        0xe1 => Some(OpCode::new(0xe1, "SBC", 2, 6, AddressingMode::Indirect_X)),
        0xe4 => Some(OpCode::new(0xe4, "CPX", 2, 3, AddressingMode::ZeroPage)),
        0xe5 => Some(OpCode::new(0xe5, "SBC", 2, 3, AddressingMode::ZeroPage)),
        0xe6 => Some(OpCode::new(0xe6, "INC", 2, 5, AddressingMode::ZeroPage)),
        0xe8 => Some(OpCode::new(0xe8, "INX", 1, 2, AddressingMode::NoneAddressing)),
        0xe9 => Some(OpCode::new(0xe9, "SBC", 2, 2, AddressingMode::Immediate)),
        0xea => Some(OpCode::new(0xea, "NOP", 1, 2, AddressingMode::NoneAddressing)),
        0xec => Some(OpCode::new(0xec, "CPX", 3, 4, AddressingMode::Absolute)),
        0xed => Some(OpCode::new(0xed, "SBC", 3, 4, AddressingMode::Absolute)),
        0xee => Some(OpCode::new(0xee, "INC", 3, 6, AddressingMode::Absolute)),
        0xf0 => Some(OpCode::new(0xf0, "BEQ", 2, 2, AddressingMode::NoneAddressing)),
        0xf1 => Some(OpCode::new(0xf1, "SBC", 2, 5, AddressingMode::Indirect_Y)),
        0xf5 => Some(OpCode::new(0xf5, "SBC", 2, 4, AddressingMode::ZeroPage_X)),
        0xf6 => Some(OpCode::new(0xf6, "INC", 2, 6, AddressingMode::ZeroPage_X)),
        0xf8 => Some(OpCode::new(0xf8, "SED", 1, 2, AddressingMode::NoneAddressing)),
        0xf9 => Some(OpCode::new(0xf9, "SBC", 3, 4, AddressingMode::Absolute_Y)),
        0xfd => Some(OpCode::new(0xfd, "SBC", 3, 4, AddressingMode::Absolute_X)),
        0xfe => Some(OpCode::new(0xfe, "INC", 3, 7, AddressingMode::Absolute_X)),
        _ => None,
    }
}

/// A table row that agrees with the decode attributes of its opcode.
pub open spec fn opcode_row_matches(o: OpCode) -> bool {
    opcode_info(o.code) == Some(OpInfo { len: o.len, cycles: o.cycles, mode: o.mode })
}

/// The full table of documented opcodes, in opcode order; every row
/// agrees with `opcode_info`.
pub fn opcodes() -> (r: Vec<OpCode>)
    ensures
        r@.len() > 0,
        forall|k: int| 0 <= k < r@.len() ==> opcode_row_matches(#[trigger] r@[k]),
{
    let mut v: Vec<OpCode> = Vec::new();
    let mut code: u16 = 0;
    while code < 256
        invariant
            code <= 256,
            forall|k: int| 0 <= k < v@.len() ==> opcode_row_matches(#[trigger] v@[k]),
            code > 0 ==> v@.len() > 0,
        decreases 256 - code,
    {
        if let Some(op) = find_opcode(code as u8) {
            v.push(op);
        }
        proof {
            // opcode 0x00 (BRK) is always in the table
            if code == 0 {
                assert(opcode_info(0) is Some);
            }
        }
        code += 1;
    }
    v
}

} // verus!

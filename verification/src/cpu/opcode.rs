//! The instruction set: identities, addressing modes and the decode table.
//!
//! The 6502 has 151 defined opcode byte values; each maps to one of 56
//! instruction identities, one of 13 addressing modes, an instruction length
//! in bytes and a base cycle cost.  The table is immutable data: `lookup`
//! returns the entry for a byte, or `None` for the 105 undefined values.

use vstd::prelude::*;

verus! {

/// One of the 56 official 6502 instruction mnemonics.
#[derive(Clone, Copy, Debug, PartialEq, Eq, Structural)]
pub enum Label {
    ADC,
    AND,
    ASL,
    BCC,
    BCS,
    BEQ,
    BIT,
    BMI,
    BNE,
    BPL,
    BRK,
    BVC,
    BVS,
    CLC,
    CLD,
    CLI,
    CLV,
    CMP,
    CPX,
    CPY,
    DEC,
    DEX,
    DEY,
    EOR,
    INC,
    INX,
    INY,
    JMP,
    JSR,
    LDA,
    LDX,
    LDY,
    LSR,
    NOP,
    ORA,
    PHA,
    PHP,
    PLA,
    PLP,
    ROL,
    ROR,
    RTI,
    RTS,
    SBC,
    SEC,
    SED,
    SEI,
    STA,
    STX,
    STY,
    TAX,
    TAY,
    TSX,
    TXA,
    TXS,
    TYA,
}

/// How an instruction finds its operand.
#[derive(Clone, Copy, Debug, PartialEq, Eq, Structural)]
pub enum AddressingMode {
    Implicit,
    Accumulator,
    Immediate,
    ZeroPage,
    ZeroPageX,
    ZeroPageY,
    Absolute,
    AbsoluteX,
    AbsoluteY,
    Relative,
    Indirect,
    IndirectX,
    IndirectY,
}

/// One entry of the decode table: what a defined opcode byte stands for.
#[derive(Clone, Copy, Debug, PartialEq, Eq, Structural)]
pub struct OpCode {
    pub label: Label,
    pub mode: AddressingMode,
    /// Instruction length in bytes: the opcode byte plus its operand bytes.
    pub size: u8,
    /// Base cycle cost, before page-crossing and branch-taken penalties.
    pub cycles: u8,
}

/// The resolved operand of an instruction: either a memory address, or the
/// operand value itself for the modes that never touch memory.  The tag keeps
/// a handler from ever mistaking a value for an address.
#[derive(Clone, Copy, Debug, PartialEq, Eq, Structural)]
pub enum Operand {
    /// The instruction takes no operand.
    Implied,
    /// The instruction operates on the accumulator itself.
    Accumulator,
    /// The operand is this literal byte, not an address.
    Immediate(u8),
    /// The operand lives at this memory address.
    Address(u16),
}

/// The one failure a `step` can report: the fetched byte has no entry in the
/// decode table.
#[derive(Clone, Copy, Debug, PartialEq, Eq, Structural)]
pub enum CpuError {
    UnsupportedOpcode(u8),
}

/// The decode table as a function: the entry for each defined opcode byte.
pub open spec fn spec_lookup(opcode: u8) -> Option<OpCode> {
    match opcode {
        0x00 => Option::Some(OpCode { label: Label::BRK, mode: AddressingMode::Implicit, size: 1, cycles: 7 }),
        0x01 => Option::Some(OpCode { label: Label::ORA, mode: AddressingMode::IndirectX, size: 2, cycles: 6 }),
        0x05 => Option::Some(OpCode { label: Label::ORA, mode: AddressingMode::ZeroPage, size: 2, cycles: 3 }),
        0x06 => Option::Some(OpCode { label: Label::ASL, mode: AddressingMode::ZeroPage, size: 2, cycles: 5 }),
        0x08 => Option::Some(OpCode { label: Label::PHP, mode: AddressingMode::Implicit, size: 1, cycles: 3 }),
        0x09 => Option::Some(OpCode { label: Label::ORA, mode: AddressingMode::Immediate, size: 2, cycles: 2 }),
        0x0a => Option::Some(OpCode { label: Label::ASL, mode: AddressingMode::Accumulator, size: 1, cycles: 2 }),
        0x0d => Option::Some(OpCode { label: Label::ORA, mode: AddressingMode::Absolute, size: 3, cycles: 4 }),
        0x0e => Option::Some(OpCode { label: Label::ASL, mode: AddressingMode::Absolute, size: 3, cycles: 6 }),
        0x10 => Option::Some(OpCode { label: Label::BPL, mode: AddressingMode::Relative, size: 2, cycles: 2 }),
        0x11 => Option::Some(OpCode { label: Label::ORA, mode: AddressingMode::IndirectY, size: 2, cycles: 5 }),
        0x15 => Option::Some(OpCode { label: Label::ORA, mode: AddressingMode::ZeroPageX, size: 2, cycles: 4 }),
        0x16 => Option::Some(OpCode { label: Label::ASL, mode: AddressingMode::ZeroPageX, size: 2, cycles: 6 }),
        0x18 => Option::Some(OpCode { label: Label::CLC, mode: AddressingMode::Implicit, size: 1, cycles: 2 }),
        0x19 => Option::Some(OpCode { label: Label::ORA, mode: AddressingMode::AbsoluteY, size: 3, cycles: 4 }),
        0x1d => Option::Some(OpCode { label: Label::ORA, mode: AddressingMode::AbsoluteX, size: 3, cycles: 4 }),
        0x1e => Option::Some(OpCode { label: Label::ASL, mode: AddressingMode::AbsoluteX, size: 3, cycles: 7 }),
        0x20 => Option::Some(OpCode { label: Label::JSR, mode: AddressingMode::Absolute, size: 3, cycles: 6 }),
        0x21 => Option::Some(OpCode { label: Label::AND, mode: AddressingMode::IndirectX, size: 2, cycles: 6 }),
        0x24 => Option::Some(OpCode { label: Label::BIT, mode: AddressingMode::ZeroPage, size: 2, cycles: 3 }),
        0x25 => Option::Some(OpCode { label: Label::AND, mode: AddressingMode::ZeroPage, size: 2, cycles: 3 }),
        0x26 => Option::Some(OpCode { label: Label::ROL, mode: AddressingMode::ZeroPage, size: 2, cycles: 5 }),
        0x28 => Option::Some(OpCode { label: Label::PLP, mode: AddressingMode::Implicit, size: 1, cycles: 4 }),
        0x29 => Option::Some(OpCode { label: Label::AND, mode: AddressingMode::Immediate, size: 2, cycles: 2 }),
        0x2a => Option::Some(OpCode { label: Label::ROL, mode: AddressingMode::Accumulator, size: 1, cycles: 2 }),
        0x2c => Option::Some(OpCode { label: Label::BIT, mode: AddressingMode::Absolute, size: 3, cycles: 4 }),
        0x2d => Option::Some(OpCode { label: Label::AND, mode: AddressingMode::Absolute, size: 3, cycles: 4 }),
        0x2e => Option::Some(OpCode { label: Label::ROL, mode: AddressingMode::Absolute, size: 3, cycles: 6 }),
        0x30 => Option::Some(OpCode { label: Label::BMI, mode: AddressingMode::Relative, size: 2, cycles: 2 }),
        0x31 => Option::Some(OpCode { label: Label::AND, mode: AddressingMode::IndirectY, size: 2, cycles: 5 }),
        0x35 => Option::Some(OpCode { label: Label::AND, mode: AddressingMode::ZeroPageX, size: 2, cycles: 4 }),
        0x36 => Option::Some(OpCode { label: Label::ROL, mode: AddressingMode::ZeroPageX, size: 2, cycles: 6 }),
        0x38 => Option::Some(OpCode { label: Label::SEC, mode: AddressingMode::Implicit, size: 1, cycles: 2 }),
        0x39 => Option::Some(OpCode { label: Label::AND, mode: AddressingMode::AbsoluteY, size: 3, cycles: 4 }),
        0x3d => Option::Some(OpCode { label: Label::AND, mode: AddressingMode::AbsoluteX, size: 3, cycles: 4 }),
        0x3e => Option::Some(OpCode { label: Label::ROL, mode: AddressingMode::AbsoluteX, size: 3, cycles: 7 }),
        0x40 => Option::Some(OpCode { label: Label::RTI, mode: AddressingMode::Implicit, size: 1, cycles: 6 }),
        0x41 => Option::Some(OpCode { label: Label::EOR, mode: AddressingMode::IndirectX, size: 2, cycles: 6 }),
        0x45 => Option::Some(OpCode { label: Label::EOR, mode: AddressingMode::ZeroPage, size: 2, cycles: 3 }),
        0x46 => Option::Some(OpCode { label: Label::LSR, mode: AddressingMode::ZeroPage, size: 2, cycles: 5 }),
        0x48 => Option::Some(OpCode { label: Label::PHA, mode: AddressingMode::Implicit, size: 1, cycles: 3 }),
        0x49 => Option::Some(OpCode { label: Label::EOR, mode: AddressingMode::Immediate, size: 2, cycles: 2 }),
        0x4a => Option::Some(OpCode { label: Label::LSR, mode: AddressingMode::Accumulator, size: 1, cycles: 2 }),
        0x4c => Option::Some(OpCode { label: Label::JMP, mode: AddressingMode::Absolute, size: 3, cycles: 3 }),
        0x4d => Option::Some(OpCode { label: Label::EOR, mode: AddressingMode::Absolute, size: 3, cycles: 4 }),
        0x4e => Option::Some(OpCode { label: Label::LSR, mode: AddressingMode::Absolute, size: 3, cycles: 6 }),
        0x50 => Option::Some(OpCode { label: Label::BVC, mode: AddressingMode::Relative, size: 2, cycles: 2 }),
        0x51 => Option::Some(OpCode { label: Label::EOR, mode: AddressingMode::IndirectY, size: 2, cycles: 5 }),
        0x55 => Option::Some(OpCode { label: Label::EOR, mode: AddressingMode::ZeroPageX, size: 2, cycles: 4 }),
        0x56 => Option::Some(OpCode { label: Label::LSR, mode: AddressingMode::ZeroPageX, size: 2, cycles: 6 }),
        0x58 => Option::Some(OpCode { label: Label::CLI, mode: AddressingMode::Implicit, size: 1, cycles: 2 }),
        0x59 => Option::Some(OpCode { label: Label::EOR, mode: AddressingMode::AbsoluteY, size: 3, cycles: 4 }),
        0x5d => Option::Some(OpCode { label: Label::EOR, mode: AddressingMode::AbsoluteX, size: 3, cycles: 4 }),
        0x5e => Option::Some(OpCode { label: Label::LSR, mode: AddressingMode::AbsoluteX, size: 3, cycles: 7 }),
        0x60 => Option::Some(OpCode { label: Label::RTS, mode: AddressingMode::Implicit, size: 1, cycles: 6 }),
        0x61 => Option::Some(OpCode { label: Label::ADC, mode: AddressingMode::IndirectX, size: 2, cycles: 6 }),
        0x65 => Option::Some(OpCode { label: Label::ADC, mode: AddressingMode::ZeroPage, size: 2, cycles: 3 }),
        0x66 => Option::Some(OpCode { label: Label::ROR, mode: AddressingMode::ZeroPage, size: 2, cycles: 5 }),
        0x68 => Option::Some(OpCode { label: Label::PLA, mode: AddressingMode::Implicit, size: 1, cycles: 4 }),
        0x69 => Option::Some(OpCode { label: Label::ADC, mode: AddressingMode::Immediate, size: 2, cycles: 2 }),
        0x6a => Option::Some(OpCode { label: Label::ROR, mode: AddressingMode::Accumulator, size: 1, cycles: 2 }),
        0x6c => Option::Some(OpCode { label: Label::JMP, mode: AddressingMode::Indirect, size: 3, cycles: 5 }),
        0x6d => Option::Some(OpCode { label: Label::ADC, mode: AddressingMode::Absolute, size: 3, cycles: 4 }),
        0x6e => Option::Some(OpCode { label: Label::ROR, mode: AddressingMode::Absolute, size: 3, cycles: 6 }),
        0x70 => Option::Some(OpCode { label: Label::BVS, mode: AddressingMode::Relative, size: 2, cycles: 2 }),
        0x71 => Option::Some(OpCode { label: Label::ADC, mode: AddressingMode::IndirectY, size: 2, cycles: 5 }),
        0x75 => Option::Some(OpCode { label: Label::ADC, mode: AddressingMode::ZeroPageX, size: 2, cycles: 4 }),
        0x76 => Option::Some(OpCode { label: Label::ROR, mode: AddressingMode::ZeroPageX, size: 2, cycles: 6 }),
        0x78 => Option::Some(OpCode { label: Label::SEI, mode: AddressingMode::Implicit, size: 1, cycles: 2 }),
        0x79 => Option::Some(OpCode { label: Label::ADC, mode: AddressingMode::AbsoluteY, size: 3, cycles: 4 }),
        0x7d => Option::Some(OpCode { label: Label::ADC, mode: AddressingMode::AbsoluteX, size: 3, cycles: 4 }),
        0x7e => Option::Some(OpCode { label: Label::ROR, mode: AddressingMode::AbsoluteX, size: 3, cycles: 7 }),
        0x81 => Option::Some(OpCode { label: Label::STA, mode: AddressingMode::IndirectX, size: 2, cycles: 6 }),
        0x84 => Option::Some(OpCode { label: Label::STY, mode: AddressingMode::ZeroPage, size: 2, cycles: 3 }),
        0x85 => Option::Some(OpCode { label: Label::STA, mode: AddressingMode::ZeroPage, size: 2, cycles: 3 }),
        0x86 => Option::Some(OpCode { label: Label::STX, mode: AddressingMode::ZeroPage, size: 2, cycles: 3 }),
        0x88 => Option::Some(OpCode { label: Label::DEY, mode: AddressingMode::Implicit, size: 1, cycles: 2 }),
        0x8a => Option::Some(OpCode { label: Label::TXA, mode: AddressingMode::Implicit, size: 1, cycles: 2 }),
        0x8c => Option::Some(OpCode { label: Label::STY, mode: AddressingMode::Absolute, size: 3, cycles: 4 }),
        0x8d => Option::Some(OpCode { label: Label::STA, mode: AddressingMode::Absolute, size: 3, cycles: 4 }),
        0x8e => Option::Some(OpCode { label: Label::STX, mode: AddressingMode::Absolute, size: 3, cycles: 4 }),
        0x90 => Option::Some(OpCode { label: Label::BCC, mode: AddressingMode::Relative, size: 2, cycles: 2 }),
        0x91 => Option::Some(OpCode { label: Label::STA, mode: AddressingMode::IndirectY, size: 2, cycles: 6 }),
        0x94 => Option::Some(OpCode { label: Label::STY, mode: AddressingMode::ZeroPageX, size: 2, cycles: 4 }),
        0x95 => Option::Some(OpCode { label: Label::STA, mode: AddressingMode::ZeroPageX, size: 2, cycles: 4 }),
        0x96 => Option::Some(OpCode { label: Label::STX, mode: AddressingMode::ZeroPageY, size: 2, cycles: 4 }),
        0x98 => Option::Some(OpCode { label: Label::TYA, mode: AddressingMode::Implicit, size: 1, cycles: 2 }),
        0x99 => Option::Some(OpCode { label: Label::STA, mode: AddressingMode::AbsoluteY, size: 3, cycles: 5 }),
        0x9a => Option::Some(OpCode { label: Label::TXS, mode: AddressingMode::Implicit, size: 1, cycles: 2 }),
        0x9d => Option::Some(OpCode { label: Label::STA, mode: AddressingMode::AbsoluteX, size: 3, cycles: 5 }),
        0xa0 => Option::Some(OpCode { label: Label::LDY, mode: AddressingMode::Immediate, size: 2, cycles: 2 }),
        0xa1 => Option::Some(OpCode { label: Label::LDA, mode: AddressingMode::IndirectX, size: 2, cycles: 6 }),
        0xa2 => Option::Some(OpCode { label: Label::LDX, mode: AddressingMode::Immediate, size: 2, cycles: 2 }),
        0xa4 => Option::Some(OpCode { label: Label::LDY, mode: AddressingMode::ZeroPage, size: 2, cycles: 3 }),
        0xa5 => Option::Some(OpCode { label: Label::LDA, mode: AddressingMode::ZeroPage, size: 2, cycles: 3 }),
        0xa6 => Option::Some(OpCode { label: Label::LDX, mode: AddressingMode::ZeroPage, size: 2, cycles: 3 }),
        0xa8 => Option::Some(OpCode { label: Label::TAY, mode: AddressingMode::Implicit, size: 1, cycles: 2 }),
        0xa9 => Option::Some(OpCode { label: Label::LDA, mode: AddressingMode::Immediate, size: 2, cycles: 2 }),
        0xaa => Option::Some(OpCode { label: Label::TAX, mode: AddressingMode::Implicit, size: 1, cycles: 2 }),
        0xac => Option::Some(OpCode { label: Label::LDY, mode: AddressingMode::Absolute, size: 3, cycles: 4 }),
        0xad => Option::Some(OpCode { label: Label::LDA, mode: AddressingMode::Absolute, size: 3, cycles: 4 }),
        0xae => Option::Some(OpCode { label: Label::LDX, mode: AddressingMode::Absolute, size: 3, cycles: 4 }),
        0xb0 => Option::Some(OpCode { label: Label::BCS, mode: AddressingMode::Relative, size: 2, cycles: 2 }),
        0xb1 => Option::Some(OpCode { label: Label::LDA, mode: AddressingMode::IndirectY, size: 2, cycles: 5 }),
        0xb4 => Option::Some(OpCode { label: Label::LDY, mode: AddressingMode::ZeroPageX, size: 2, cycles: 4 }),
        0xb5 => Option::Some(OpCode { label: Label::LDA, mode: AddressingMode::ZeroPageX, size: 2, cycles: 4 }),
        0xb6 => Option::Some(OpCode { label: Label::LDX, mode: AddressingMode::ZeroPageY, size: 2, cycles: 4 }),
        0xb8 => Option::Some(OpCode { label: Label::CLV, mode: AddressingMode::Implicit, size: 1, cycles: 2 }),
        0xb9 => Option::Some(OpCode { label: Label::LDA, mode: AddressingMode::AbsoluteY, size: 3, cycles: 4 }),
        0xba => Option::Some(OpCode { label: Label::TSX, mode: AddressingMode::Implicit, size: 1, cycles: 2 }),
        0xbc => Option::Some(OpCode { label: Label::LDY, mode: AddressingMode::AbsoluteX, size: 3, cycles: 4 }),
        0xbd => Option::Some(OpCode { label: Label::LDA, mode: AddressingMode::AbsoluteX, size: 3, cycles: 4 }),
        0xbe => Option::Some(OpCode { label: Label::LDX, mode: AddressingMode::AbsoluteY, size: 3, cycles: 4 }),
        0xc0 => Option::Some(OpCode { label: Label::CPY, mode: AddressingMode::Immediate, size: 2, cycles: 2 }),
        0xc1 => Option::Some(OpCode { label: Label::CMP, mode: AddressingMode::IndirectX, size: 2, cycles: 6 }),
        0xc4 => Option::Some(OpCode { label: Label::CPY, mode: AddressingMode::ZeroPage, size: 2, cycles: 3 }),
        0xc5 => Option::Some(OpCode { label: Label::CMP, mode: AddressingMode::ZeroPage, size: 2, cycles: 3 }),
        0xc6 => Option::Some(OpCode { label: Label::DEC, mode: AddressingMode::ZeroPage, size: 2, cycles: 5 }),
        0xc8 => Option::Some(OpCode { label: Label::INY, mode: AddressingMode::Implicit, size: 1, cycles: 2 }),
        0xc9 => Option::Some(OpCode { label: Label::CMP, mode: AddressingMode::Immediate, size: 2, cycles: 2 }),
        0xca => Option::Some(OpCode { label: Label::DEX, mode: AddressingMode::Implicit, size: 1, cycles: 2 }),
        0xcc => Option::Some(OpCode { label: Label::CPY, mode: AddressingMode::Absolute, size: 3, cycles: 4 }),
        0xcd => Option::Some(OpCode { label: Label::CMP, mode: AddressingMode::Absolute, size: 3, cycles: 4 }),
        0xce => Option::Some(OpCode { label: Label::DEC, mode: AddressingMode::Absolute, size: 3, cycles: 6 }),
        0xd0 => Option::Some(OpCode { label: Label::BNE, mode: AddressingMode::Relative, size: 2, cycles: 2 }),
        0xd1 => Option::Some(OpCode { label: Label::CMP, mode: AddressingMode::IndirectY, size: 2, cycles: 5 }),
        0xd5 => Option::Some(OpCode { label: Label::CMP, mode: AddressingMode::ZeroPageX, size: 2, cycles: 4 }),
        0xd6 => Option::Some(OpCode { label: Label::DEC, mode: AddressingMode::ZeroPageX, size: 2, cycles: 6 }),
        0xd8 => Option::Some(OpCode { label: Label::CLD, mode: AddressingMode::Implicit, size: 1, cycles: 2 }),
        0xd9 => Option::Some(OpCode { label: Label::CMP, mode: AddressingMode::AbsoluteY, size: 3, cycles: 4 }),
        0xdd => Option::Some(OpCode { label: Label::CMP, mode: AddressingMode::AbsoluteX, size: 3, cycles: 4 }),
        0xde => Option::Some(OpCode { label: Label::DEC, mode: AddressingMode::AbsoluteX, size: 3, cycles: 7 }),
        0xe0 => Option::Some(OpCode { label: Label::CPX, mode: AddressingMode::Immediate, size: 2, cycles: 2 }),
        0xe1 => Option::Some(OpCode { label: Label::SBC, mode: AddressingMode::IndirectX, size: 2, cycles: 6 }),
        0xe4 => Option::Some(OpCode { label: Label::CPX, mode: AddressingMode::ZeroPage, size: 2, cycles: 3 }),
        0xe5 => Option::Some(OpCode { label: Label::SBC, mode: AddressingMode::ZeroPage, size: 2, cycles: 3 }),
        0xe6 => Option::Some(OpCode { label: Label::INC, mode: AddressingMode::ZeroPage, size: 2, cycles: 5 }),
        0xe8 => Option::Some(OpCode { label: Label::INX, mode: AddressingMode::Implicit, size: 1, cycles: 2 }),
        0xe9 => Option::Some(OpCode { label: Label::SBC, mode: AddressingMode::Immediate, size: 2, cycles: 2 }),
        0xea => Option::Some(OpCode { label: Label::NOP, mode: AddressingMode::Implicit, size: 1, cycles: 2 }),
        0xec => Option::Some(OpCode { label: Label::CPX, mode: AddressingMode::Absolute, size: 3, cycles: 4 }),
        0xed => Option::Some(OpCode { label: Label::SBC, mode: AddressingMode::Absolute, size: 3, cycles: 4 }),
        0xee => Option::Some(OpCode { label: Label::INC, mode: AddressingMode::Absolute, size: 3, cycles: 6 }),
        0xf0 => Option::Some(OpCode { label: Label::BEQ, mode: AddressingMode::Relative, size: 2, cycles: 2 }),
        0xf1 => Option::Some(OpCode { label: Label::SBC, mode: AddressingMode::IndirectY, size: 2, cycles: 5 }),
        0xf5 => Option::Some(OpCode { label: Label::SBC, mode: AddressingMode::ZeroPageX, size: 2, cycles: 4 }),
        0xf6 => Option::Some(OpCode { label: Label::INC, mode: AddressingMode::ZeroPageX, size: 2, cycles: 6 }),
        0xf8 => Option::Some(OpCode { label: Label::SED, mode: AddressingMode::Implicit, size: 1, cycles: 2 }),
        0xf9 => Option::Some(OpCode { label: Label::SBC, mode: AddressingMode::AbsoluteY, size: 3, cycles: 4 }),
        0xfd => Option::Some(OpCode { label: Label::SBC, mode: AddressingMode::AbsoluteX, size: 3, cycles: 4 }),
        0xfe => Option::Some(OpCode { label: Label::INC, mode: AddressingMode::AbsoluteX, size: 3, cycles: 7 }),
        _ => Option::None,
    }
}

/// Looks `opcode` up in the decode table.  Undefined bytes yield `None`; the
/// caller turns that into an `UnsupportedOpcode` failure rather than running
/// garbage.
pub fn lookup(opcode: u8) -> (r: Option<OpCode>)
    ensures
        r == spec_lookup(opcode),
{
    match opcode {
        0x00 => Some(OpCode { label: Label::BRK, mode: AddressingMode::Implicit, size: 1, cycles: 7 }),
        0x01 => Some(OpCode { label: Label::ORA, mode: AddressingMode::IndirectX, size: 2, cycles: 6 }),
        0x05 => Some(OpCode { label: Label::ORA, mode: AddressingMode::ZeroPage, size: 2, cycles: 3 }),
        0x06 => Some(OpCode { label: Label::ASL, mode: AddressingMode::ZeroPage, size: 2, cycles: 5 }),
        0x08 => Some(OpCode { label: Label::PHP, mode: AddressingMode::Implicit, size: 1, cycles: 3 }),
        0x09 => Some(OpCode { label: Label::ORA, mode: AddressingMode::Immediate, size: 2, cycles: 2 }),
        0x0a => Some(OpCode { label: Label::ASL, mode: AddressingMode::Accumulator, size: 1, cycles: 2 }),
        0x0d => Some(OpCode { label: Label::ORA, mode: AddressingMode::Absolute, size: 3, cycles: 4 }),
        0x0e => Some(OpCode { label: Label::ASL, mode: AddressingMode::Absolute, size: 3, cycles: 6 }),
        0x10 => Some(OpCode { label: Label::BPL, mode: AddressingMode::Relative, size: 2, cycles: 2 }),
        0x11 => Some(OpCode { label: Label::ORA, mode: AddressingMode::IndirectY, size: 2, cycles: 5 }),
        0x15 => Some(OpCode { label: Label::ORA, mode: AddressingMode::ZeroPageX, size: 2, cycles: 4 }),
        0x16 => Some(OpCode { label: Label::ASL, mode: AddressingMode::ZeroPageX, size: 2, cycles: 6 }),
        0x18 => Some(OpCode { label: Label::CLC, mode: AddressingMode::Implicit, size: 1, cycles: 2 }),
        0x19 => Some(OpCode { label: Label::ORA, mode: AddressingMode::AbsoluteY, size: 3, cycles: 4 }),
        0x1d => Some(OpCode { label: Label::ORA, mode: AddressingMode::AbsoluteX, size: 3, cycles: 4 }),
        0x1e => Some(OpCode { label: Label::ASL, mode: AddressingMode::AbsoluteX, size: 3, cycles: 7 }),
        0x20 => Some(OpCode { label: Label::JSR, mode: AddressingMode::Absolute, size: 3, cycles: 6 }),
        0x21 => Some(OpCode { label: Label::AND, mode: AddressingMode::IndirectX, size: 2, cycles: 6 }),
        0x24 => Some(OpCode { label: Label::BIT, mode: AddressingMode::ZeroPage, size: 2, cycles: 3 }),
        0x25 => Some(OpCode { label: Label::AND, mode: AddressingMode::ZeroPage, size: 2, cycles: 3 }),
        0x26 => Some(OpCode { label: Label::ROL, mode: AddressingMode::ZeroPage, size: 2, cycles: 5 }),
        0x28 => Some(OpCode { label: Label::PLP, mode: AddressingMode::Implicit, size: 1, cycles: 4 }),
        0x29 => Some(OpCode { label: Label::AND, mode: AddressingMode::Immediate, size: 2, cycles: 2 }),
        0x2a => Some(OpCode { label: Label::ROL, mode: AddressingMode::Accumulator, size: 1, cycles: 2 }),
        0x2c => Some(OpCode { label: Label::BIT, mode: AddressingMode::Absolute, size: 3, cycles: 4 }),
        0x2d => Some(OpCode { label: Label::AND, mode: AddressingMode::Absolute, size: 3, cycles: 4 }),
        0x2e => Some(OpCode { label: Label::ROL, mode: AddressingMode::Absolute, size: 3, cycles: 6 }),
        0x30 => Some(OpCode { label: Label::BMI, mode: AddressingMode::Relative, size: 2, cycles: 2 }),
        0x31 => Some(OpCode { label: Label::AND, mode: AddressingMode::IndirectY, size: 2, cycles: 5 }),
        0x35 => Some(OpCode { label: Label::AND, mode: AddressingMode::ZeroPageX, size: 2, cycles: 4 }),
        0x36 => Some(OpCode { label: Label::ROL, mode: AddressingMode::ZeroPageX, size: 2, cycles: 6 }),
        0x38 => Some(OpCode { label: Label::SEC, mode: AddressingMode::Implicit, size: 1, cycles: 2 }),
        0x39 => Some(OpCode { label: Label::AND, mode: AddressingMode::AbsoluteY, size: 3, cycles: 4 }),
        0x3d => Some(OpCode { label: Label::AND, mode: AddressingMode::AbsoluteX, size: 3, cycles: 4 }),
        0x3e => Some(OpCode { label: Label::ROL, mode: AddressingMode::AbsoluteX, size: 3, cycles: 7 }),
        0x40 => Some(OpCode { label: Label::RTI, mode: AddressingMode::Implicit, size: 1, cycles: 6 }),
        0x41 => Some(OpCode { label: Label::EOR, mode: AddressingMode::IndirectX, size: 2, cycles: 6 }),
        0x45 => Some(OpCode { label: Label::EOR, mode: AddressingMode::ZeroPage, size: 2, cycles: 3 }),
        0x46 => Some(OpCode { label: Label::LSR, mode: AddressingMode::ZeroPage, size: 2, cycles: 5 }),
        0x48 => Some(OpCode { label: Label::PHA, mode: AddressingMode::Implicit, size: 1, cycles: 3 }),
        0x49 => Some(OpCode { label: Label::EOR, mode: AddressingMode::Immediate, size: 2, cycles: 2 }),
        0x4a => Some(OpCode { label: Label::LSR, mode: AddressingMode::Accumulator, size: 1, cycles: 2 }),
        0x4c => Some(OpCode { label: Label::JMP, mode: AddressingMode::Absolute, size: 3, cycles: 3 }),
        0x4d => Some(OpCode { label: Label::EOR, mode: AddressingMode::Absolute, size: 3, cycles: 4 }),
        0x4e => Some(OpCode { label: Label::LSR, mode: AddressingMode::Absolute, size: 3, cycles: 6 }),
        0x50 => Some(OpCode { label: Label::BVC, mode: AddressingMode::Relative, size: 2, cycles: 2 }),
        0x51 => Some(OpCode { label: Label::EOR, mode: AddressingMode::IndirectY, size: 2, cycles: 5 }),
        0x55 => Some(OpCode { label: Label::EOR, mode: AddressingMode::ZeroPageX, size: 2, cycles: 4 }),
        0x56 => Some(OpCode { label: Label::LSR, mode: AddressingMode::ZeroPageX, size: 2, cycles: 6 }),
        0x58 => Some(OpCode { label: Label::CLI, mode: AddressingMode::Implicit, size: 1, cycles: 2 }),
        0x59 => Some(OpCode { label: Label::EOR, mode: AddressingMode::AbsoluteY, size: 3, cycles: 4 }),
        0x5d => Some(OpCode { label: Label::EOR, mode: AddressingMode::AbsoluteX, size: 3, cycles: 4 }),
        0x5e => Some(OpCode { label: Label::LSR, mode: AddressingMode::AbsoluteX, size: 3, cycles: 7 }),
        0x60 => Some(OpCode { label: Label::RTS, mode: AddressingMode::Implicit, size: 1, cycles: 6 }),
        0x61 => Some(OpCode { label: Label::ADC, mode: AddressingMode::IndirectX, size: 2, cycles: 6 }),
        0x65 => Some(OpCode { label: Label::ADC, mode: AddressingMode::ZeroPage, size: 2, cycles: 3 }),
        0x66 => Some(OpCode { label: Label::ROR, mode: AddressingMode::ZeroPage, size: 2, cycles: 5 }),
        0x68 => Some(OpCode { label: Label::PLA, mode: AddressingMode::Implicit, size: 1, cycles: 4 }),
        0x69 => Some(OpCode { label: Label::ADC, mode: AddressingMode::Immediate, size: 2, cycles: 2 }),
        0x6a => Some(OpCode { label: Label::ROR, mode: AddressingMode::Accumulator, size: 1, cycles: 2 }),
        0x6c => Some(OpCode { label: Label::JMP, mode: AddressingMode::Indirect, size: 3, cycles: 5 }),
        0x6d => Some(OpCode { label: Label::ADC, mode: AddressingMode::Absolute, size: 3, cycles: 4 }),
        0x6e => Some(OpCode { label: Label::ROR, mode: AddressingMode::Absolute, size: 3, cycles: 6 }),
        0x70 => Some(OpCode { label: Label::BVS, mode: AddressingMode::Relative, size: 2, cycles: 2 }),
        0x71 => Some(OpCode { label: Label::ADC, mode: AddressingMode::IndirectY, size: 2, cycles: 5 }),
        0x75 => Some(OpCode { label: Label::ADC, mode: AddressingMode::ZeroPageX, size: 2, cycles: 4 }),
        0x76 => Some(OpCode { label: Label::ROR, mode: AddressingMode::ZeroPageX, size: 2, cycles: 6 }),
        0x78 => Some(OpCode { label: Label::SEI, mode: AddressingMode::Implicit, size: 1, cycles: 2 }),
        0x79 => Some(OpCode { label: Label::ADC, mode: AddressingMode::AbsoluteY, size: 3, cycles: 4 }),
        0x7d => Some(OpCode { label: Label::ADC, mode: AddressingMode::AbsoluteX, size: 3, cycles: 4 }),
        0x7e => Some(OpCode { label: Label::ROR, mode: AddressingMode::AbsoluteX, size: 3, cycles: 7 }),
        0x81 => Some(OpCode { label: Label::STA, mode: AddressingMode::IndirectX, size: 2, cycles: 6 }),
        0x84 => Some(OpCode { label: Label::STY, mode: AddressingMode::ZeroPage, size: 2, cycles: 3 }),
        0x85 => Some(OpCode { label: Label::STA, mode: AddressingMode::ZeroPage, size: 2, cycles: 3 }),
        0x86 => Some(OpCode { label: Label::STX, mode: AddressingMode::ZeroPage, size: 2, cycles: 3 }),
        0x88 => Some(OpCode { label: Label::DEY, mode: AddressingMode::Implicit, size: 1, cycles: 2 }),
        0x8a => Some(OpCode { label: Label::TXA, mode: AddressingMode::Implicit, size: 1, cycles: 2 }),
        0x8c => Some(OpCode { label: Label::STY, mode: AddressingMode::Absolute, size: 3, cycles: 4 }),
        0x8d => Some(OpCode { label: Label::STA, mode: AddressingMode::Absolute, size: 3, cycles: 4 }),
        0x8e => Some(OpCode { label: Label::STX, mode: AddressingMode::Absolute, size: 3, cycles: 4 }),
        0x90 => Some(OpCode { label: Label::BCC, mode: AddressingMode::Relative, size: 2, cycles: 2 }),
        0x91 => Some(OpCode { label: Label::STA, mode: AddressingMode::IndirectY, size: 2, cycles: 6 }),
        0x94 => Some(OpCode { label: Label::STY, mode: AddressingMode::ZeroPageX, size: 2, cycles: 4 }),
        0x95 => Some(OpCode { label: Label::STA, mode: AddressingMode::ZeroPageX, size: 2, cycles: 4 }),
        0x96 => Some(OpCode { label: Label::STX, mode: AddressingMode::ZeroPageY, size: 2, cycles: 4 }),
        0x98 => Some(OpCode { label: Label::TYA, mode: AddressingMode::Implicit, size: 1, cycles: 2 }),
        0x99 => Some(OpCode { label: Label::STA, mode: AddressingMode::AbsoluteY, size: 3, cycles: 5 }),
        0x9a => Some(OpCode { label: Label::TXS, mode: AddressingMode::Implicit, size: 1, cycles: 2 }),
        0x9d => Some(OpCode { label: Label::STA, mode: AddressingMode::AbsoluteX, size: 3, cycles: 5 }),
        0xa0 => Some(OpCode { label: Label::LDY, mode: AddressingMode::Immediate, size: 2, cycles: 2 }),
        0xa1 => Some(OpCode { label: Label::LDA, mode: AddressingMode::IndirectX, size: 2, cycles: 6 }),
        0xa2 => Some(OpCode { label: Label::LDX, mode: AddressingMode::Immediate, size: 2, cycles: 2 }),
        0xa4 => Some(OpCode { label: Label::LDY, mode: AddressingMode::ZeroPage, size: 2, cycles: 3 }),
        0xa5 => Some(OpCode { label: Label::LDA, mode: AddressingMode::ZeroPage, size: 2, cycles: 3 }),
        0xa6 => Some(OpCode { label: Label::LDX, mode: AddressingMode::ZeroPage, size: 2, cycles: 3 }),
        0xa8 => Some(OpCode { label: Label::TAY, mode: AddressingMode::Implicit, size: 1, cycles: 2 }),
        0xa9 => Some(OpCode { label: Label::LDA, mode: AddressingMode::Immediate, size: 2, cycles: 2 }),
        0xaa => Some(OpCode { label: Label::TAX, mode: AddressingMode::Implicit, size: 1, cycles: 2 }),
        0xac => Some(OpCode { label: Label::LDY, mode: AddressingMode::Absolute, size: 3, cycles: 4 }),
        0xad => Some(OpCode { label: Label::LDA, mode: AddressingMode::Absolute, size: 3, cycles: 4 }),
        0xae => Some(OpCode { label: Label::LDX, mode: AddressingMode::Absolute, size: 3, cycles: 4 }),
        0xb0 => Some(OpCode { label: Label::BCS, mode: AddressingMode::Relative, size: 2, cycles: 2 }),
        0xb1 => Some(OpCode { label: Label::LDA, mode: AddressingMode::IndirectY, size: 2, cycles: 5 }),
        0xb4 => Some(OpCode { label: Label::LDY, mode: AddressingMode::ZeroPageX, size: 2, cycles: 4 }),
        0xb5 => Some(OpCode { label: Label::LDA, mode: AddressingMode::ZeroPageX, size: 2, cycles: 4 }),
        0xb6 => Some(OpCode { label: Label::LDX, mode: AddressingMode::ZeroPageY, size: 2, cycles: 4 }),
        0xb8 => Some(OpCode { label: Label::CLV, mode: AddressingMode::Implicit, size: 1, cycles: 2 }),
        0xb9 => Some(OpCode { label: Label::LDA, mode: AddressingMode::AbsoluteY, size: 3, cycles: 4 }),
        0xba => Some(OpCode { label: Label::TSX, mode: AddressingMode::Implicit, size: 1, cycles: 2 }),
        0xbc => Some(OpCode { label: Label::LDY, mode: AddressingMode::AbsoluteX, size: 3, cycles: 4 }),
        0xbd => Some(OpCode { label: Label::LDA, mode: AddressingMode::AbsoluteX, size: 3, cycles: 4 }),
        0xbe => Some(OpCode { label: Label::LDX, mode: AddressingMode::AbsoluteY, size: 3, cycles: 4 }),
        0xc0 => Some(OpCode { label: Label::CPY, mode: AddressingMode::Immediate, size: 2, cycles: 2 }),
        0xc1 => Some(OpCode { label: Label::CMP, mode: AddressingMode::IndirectX, size: 2, cycles: 6 }),
        0xc4 => Some(OpCode { label: Label::CPY, mode: AddressingMode::ZeroPage, size: 2, cycles: 3 }),
        0xc5 => Some(OpCode { label: Label::CMP, mode: AddressingMode::ZeroPage, size: 2, cycles: 3 }),
        0xc6 => Some(OpCode { label: Label::DEC, mode: AddressingMode::ZeroPage, size: 2, cycles: 5 }),
        0xc8 => Some(OpCode { label: Label::INY, mode: AddressingMode::Implicit, size: 1, cycles: 2 }),
        0xc9 => Some(OpCode { label: Label::CMP, mode: AddressingMode::Immediate, size: 2, cycles: 2 }),
        0xca => Some(OpCode { label: Label::DEX, mode: AddressingMode::Implicit, size: 1, cycles: 2 }),
        0xcc => Some(OpCode { label: Label::CPY, mode: AddressingMode::Absolute, size: 3, cycles: 4 }),
        0xcd => Some(OpCode { label: Label::CMP, mode: AddressingMode::Absolute, size: 3, cycles: 4 }),
        0xce => Some(OpCode { label: Label::DEC, mode: AddressingMode::Absolute, size: 3, cycles: 6 }),
        0xd0 => Some(OpCode { label: Label::BNE, mode: AddressingMode::Relative, size: 2, cycles: 2 }),
        0xd1 => Some(OpCode { label: Label::CMP, mode: AddressingMode::IndirectY, size: 2, cycles: 5 }),
        0xd5 => Some(OpCode { label: Label::CMP, mode: AddressingMode::ZeroPageX, size: 2, cycles: 4 }),
        0xd6 => Some(OpCode { label: Label::DEC, mode: AddressingMode::ZeroPageX, size: 2, cycles: 6 }),
        0xd8 => Some(OpCode { label: Label::CLD, mode: AddressingMode::Implicit, size: 1, cycles: 2 }),
        0xd9 => Some(OpCode { label: Label::CMP, mode: AddressingMode::AbsoluteY, size: 3, cycles: 4 }),
        0xdd => Some(OpCode { label: Label::CMP, mode: AddressingMode::AbsoluteX, size: 3, cycles: 4 }),
        0xde => Some(OpCode { label: Label::DEC, mode: AddressingMode::AbsoluteX, size: 3, cycles: 7 }),
        0xe0 => Some(OpCode { label: Label::CPX, mode: AddressingMode::Immediate, size: 2, cycles: 2 }),
        0xe1 => Some(OpCode { label: Label::SBC, mode: AddressingMode::IndirectX, size: 2, cycles: 6 }),
        0xe4 => Some(OpCode { label: Label::CPX, mode: AddressingMode::ZeroPage, size: 2, cycles: 3 }),
        0xe5 => Some(OpCode { label: Label::SBC, mode: AddressingMode::ZeroPage, size: 2, cycles: 3 }),
        0xe6 => Some(OpCode { label: Label::INC, mode: AddressingMode::ZeroPage, size: 2, cycles: 5 }),
        0xe8 => Some(OpCode { label: Label::INX, mode: AddressingMode::Implicit, size: 1, cycles: 2 }),
        0xe9 => Some(OpCode { label: Label::SBC, mode: AddressingMode::Immediate, size: 2, cycles: 2 }),
        0xea => Some(OpCode { label: Label::NOP, mode: AddressingMode::Implicit, size: 1, cycles: 2 }),
        0xec => Some(OpCode { label: Label::CPX, mode: AddressingMode::Absolute, size: 3, cycles: 4 }),
        0xed => Some(OpCode { label: Label::SBC, mode: AddressingMode::Absolute, size: 3, cycles: 4 }),
        0xee => Some(OpCode { label: Label::INC, mode: AddressingMode::Absolute, size: 3, cycles: 6 }),
        0xf0 => Some(OpCode { label: Label::BEQ, mode: AddressingMode::Relative, size: 2, cycles: 2 }),
        0xf1 => Some(OpCode { label: Label::SBC, mode: AddressingMode::IndirectY, size: 2, cycles: 5 }),
        0xf5 => Some(OpCode { label: Label::SBC, mode: AddressingMode::ZeroPageX, size: 2, cycles: 4 }),
        0xf6 => Some(OpCode { label: Label::INC, mode: AddressingMode::ZeroPageX, size: 2, cycles: 6 }),
        0xf8 => Some(OpCode { label: Label::SED, mode: AddressingMode::Implicit, size: 1, cycles: 2 }),
        0xf9 => Some(OpCode { label: Label::SBC, mode: AddressingMode::AbsoluteY, size: 3, cycles: 4 }),
        0xfd => Some(OpCode { label: Label::SBC, mode: AddressingMode::AbsoluteX, size: 3, cycles: 4 }),
        0xfe => Some(OpCode { label: Label::INC, mode: AddressingMode::AbsoluteX, size: 3, cycles: 7 }),
        _ => None,
    }
}

/// Every entry of the decode table is in range: 1 to 3 bytes long and 2 to 7
/// base cycles.
#[verifier::rlimit(100)]
pub proof fn lemma_table_bounds(opcode: u8)
    ensures
        spec_lookup(opcode) matches Some(e) ==> 1 <= e.size <= 3 && 2 <= e.cycles <= 7,
{
}

} // verus!

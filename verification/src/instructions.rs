//! The 256-entry instruction table: each opcode byte's mnemonic, addressing
//! mode, minimum cycle count, and whether an indexed operand that crosses a
//! page boundary costs one extra cycle.
//!
//! The de-facto "illegal" composites (DCP, ISB, LAX, RLA, RRA, SAX, SLO, SRE,
//! the addressed NOPs and the immediate SBC) carry their conventional timing;
//! the rarely used remainder (AHX, ALR, ANC, ARR, AXS, LAS, SHX, SHY, TAS,
//! XAA) and the halting STP keep table entries so that decoding stays total,
//! and the dispatcher treats them as a deterministic halt.

use vstd::prelude::*;

verus! {

/// A 6502 mnemonic, legal or illegal.
#[derive(Clone, Copy, Debug, PartialEq, Eq, Structural)]
pub enum Opcode {
    ADC,
    AHX,
    ALR,
    ANC,
    AND,
    ARR,
    ASL,
    AXS,
    BCC,
    BCS,
    BEQ,
    BIT,
    BMI,
    BNE,
    BPL,
    BRK,
    BVC,
    BVS,
    CLC,
    CLD,
    CLI,
    CLV,
    CMP,
    CPX,
    CPY,
    DCP,
    DEC,
    DEX,
    DEY,
    EOR,
    INC,
    INX,
    INY,
    ISB,
    JMP,
    JSR,
    LAS,
    LAX,
    LDA,
    LDX,
    LDY,
    LSR,
    NOP,
    ORA,
    PHA,
    PHP,
    PLA,
    PLP,
    RLA,
    ROL,
    ROR,
    RRA,
    RTI,
    RTS,
    SAX,
    SBC,
    SEC,
    SED,
    SEI,
    SHX,
    SHY,
    SLO,
    SRE,
    STA,
    STP,
    STX,
    STY,
    TAS,
    TAX,
    TAY,
    TSX,
    TXA,
    TXS,
    TYA,
    XAA,
}

/// One of the thirteen 6502 addressing modes.
#[derive(Clone, Copy, Debug, PartialEq, Eq, Structural)]
pub enum AddressingMode {
    Implied,
    Accumulator,
    Immediate,
    ZeroPage,
    ZeroPageIndexedX,
    ZeroPageIndexedY,
    Absolute,
    AbsoluteIndexedX,
    AbsoluteIndexedY,
    Indirect,
    IndexedIndirect,
    IndirectIndexed,
    Relative,
}

impl AddressingMode {
    /// How many bytes an instruction in this mode occupies.
    pub open spec fn spec_width(self) -> u8 {
        match self {
            AddressingMode::Implied => 1,
            AddressingMode::Accumulator => 1,
            AddressingMode::Immediate => 2,
            AddressingMode::ZeroPage => 2,
            AddressingMode::ZeroPageIndexedX => 2,
            AddressingMode::ZeroPageIndexedY => 2,
            AddressingMode::Absolute => 3,
            AddressingMode::AbsoluteIndexedX => 3,
            AddressingMode::AbsoluteIndexedY => 3,
            AddressingMode::Indirect => 3,
            AddressingMode::IndexedIndirect => 2,
            AddressingMode::IndirectIndexed => 2,
            AddressingMode::Relative => 2,
        }
    }
}

/// A decoded table row.
#[derive(Clone, Copy, Debug, PartialEq, Eq, Structural)]
pub struct ExtendedOpcode {
    pub opcode: Opcode,
    pub addressing_mode: AddressingMode,
    pub min_cycles: u8,
    pub page_boundary_penalty: bool,
}

/// The instruction table as a function of the opcode byte.
pub open spec fn spec_opcode_entry(op: u8) -> ExtendedOpcode {
    match op {
        0x00 => (ExtendedOpcode { opcode: Opcode::BRK, addressing_mode: AddressingMode::Implied, min_cycles: 7, page_boundary_penalty: false }),
        0x01 => (ExtendedOpcode { opcode: Opcode::ORA, addressing_mode: AddressingMode::IndexedIndirect, min_cycles: 6, page_boundary_penalty: false }),
        0x02 => (ExtendedOpcode { opcode: Opcode::STP, addressing_mode: AddressingMode::Implied, min_cycles: 2, page_boundary_penalty: false }),
        0x03 => (ExtendedOpcode { opcode: Opcode::SLO, addressing_mode: AddressingMode::IndexedIndirect, min_cycles: 8, page_boundary_penalty: false }),
        0x04 => (ExtendedOpcode { opcode: Opcode::NOP, addressing_mode: AddressingMode::ZeroPage, min_cycles: 3, page_boundary_penalty: false }),
        0x05 => (ExtendedOpcode { opcode: Opcode::ORA, addressing_mode: AddressingMode::ZeroPage, min_cycles: 3, page_boundary_penalty: false }),
        0x06 => (ExtendedOpcode { opcode: Opcode::ASL, addressing_mode: AddressingMode::ZeroPage, min_cycles: 5, page_boundary_penalty: false }),
        0x07 => (ExtendedOpcode { opcode: Opcode::SLO, addressing_mode: AddressingMode::ZeroPage, min_cycles: 5, page_boundary_penalty: false }),
        0x08 => (ExtendedOpcode { opcode: Opcode::PHP, addressing_mode: AddressingMode::Implied, min_cycles: 3, page_boundary_penalty: false }),
        0x09 => (ExtendedOpcode { opcode: Opcode::ORA, addressing_mode: AddressingMode::Immediate, min_cycles: 2, page_boundary_penalty: false }),
        0x0a => (ExtendedOpcode { opcode: Opcode::ASL, addressing_mode: AddressingMode::Accumulator, min_cycles: 2, page_boundary_penalty: false }),
        0x0b => (ExtendedOpcode { opcode: Opcode::ANC, addressing_mode: AddressingMode::Immediate, min_cycles: 2, page_boundary_penalty: false }),
        0x0c => (ExtendedOpcode { opcode: Opcode::NOP, addressing_mode: AddressingMode::Absolute, min_cycles: 4, page_boundary_penalty: false }),
        0x0d => (ExtendedOpcode { opcode: Opcode::ORA, addressing_mode: AddressingMode::Absolute, min_cycles: 4, page_boundary_penalty: false }),
        0x0e => (ExtendedOpcode { opcode: Opcode::ASL, addressing_mode: AddressingMode::Absolute, min_cycles: 6, page_boundary_penalty: false }),
        0x0f => (ExtendedOpcode { opcode: Opcode::SLO, addressing_mode: AddressingMode::Absolute, min_cycles: 6, page_boundary_penalty: false }),
        0x10 => (ExtendedOpcode { opcode: Opcode::BPL, addressing_mode: AddressingMode::Relative, min_cycles: 2, page_boundary_penalty: false }),
        0x11 => (ExtendedOpcode { opcode: Opcode::ORA, addressing_mode: AddressingMode::IndirectIndexed, min_cycles: 5, page_boundary_penalty: true }),
        0x12 => (ExtendedOpcode { opcode: Opcode::STP, addressing_mode: AddressingMode::Implied, min_cycles: 2, page_boundary_penalty: false }),
        0x13 => (ExtendedOpcode { opcode: Opcode::SLO, addressing_mode: AddressingMode::IndirectIndexed, min_cycles: 8, page_boundary_penalty: false }),
        0x14 => (ExtendedOpcode { opcode: Opcode::NOP, addressing_mode: AddressingMode::ZeroPageIndexedX, min_cycles: 4, page_boundary_penalty: false }),
        0x15 => (ExtendedOpcode { opcode: Opcode::ORA, addressing_mode: AddressingMode::ZeroPageIndexedX, min_cycles: 4, page_boundary_penalty: false }),
        0x16 => (ExtendedOpcode { opcode: Opcode::ASL, addressing_mode: AddressingMode::ZeroPageIndexedX, min_cycles: 6, page_boundary_penalty: false }),
        0x17 => (ExtendedOpcode { opcode: Opcode::SLO, addressing_mode: AddressingMode::ZeroPageIndexedX, min_cycles: 6, page_boundary_penalty: false }),
        0x18 => (ExtendedOpcode { opcode: Opcode::CLC, addressing_mode: AddressingMode::Implied, min_cycles: 2, page_boundary_penalty: false }),
        0x19 => (ExtendedOpcode { opcode: Opcode::ORA, addressing_mode: AddressingMode::AbsoluteIndexedY, min_cycles: 4, page_boundary_penalty: true }),
        0x1a => (ExtendedOpcode { opcode: Opcode::NOP, addressing_mode: AddressingMode::Implied, min_cycles: 2, page_boundary_penalty: false }),
        0x1b => (ExtendedOpcode { opcode: Opcode::SLO, addressing_mode: AddressingMode::AbsoluteIndexedY, min_cycles: 7, page_boundary_penalty: false }),
        0x1c => (ExtendedOpcode { opcode: Opcode::NOP, addressing_mode: AddressingMode::AbsoluteIndexedX, min_cycles: 4, page_boundary_penalty: true }),
        0x1d => (ExtendedOpcode { opcode: Opcode::ORA, addressing_mode: AddressingMode::AbsoluteIndexedX, min_cycles: 4, page_boundary_penalty: true }),
        0x1e => (ExtendedOpcode { opcode: Opcode::ASL, addressing_mode: AddressingMode::AbsoluteIndexedX, min_cycles: 7, page_boundary_penalty: false }),
        0x1f => (ExtendedOpcode { opcode: Opcode::SLO, addressing_mode: AddressingMode::AbsoluteIndexedX, min_cycles: 7, page_boundary_penalty: false }),
        0x20 => (ExtendedOpcode { opcode: Opcode::JSR, addressing_mode: AddressingMode::Absolute, min_cycles: 6, page_boundary_penalty: false }),
        0x21 => (ExtendedOpcode { opcode: Opcode::AND, addressing_mode: AddressingMode::IndexedIndirect, min_cycles: 6, page_boundary_penalty: false }),
        0x22 => (ExtendedOpcode { opcode: Opcode::STP, addressing_mode: AddressingMode::Implied, min_cycles: 2, page_boundary_penalty: false }),
        0x23 => (ExtendedOpcode { opcode: Opcode::RLA, addressing_mode: AddressingMode::IndexedIndirect, min_cycles: 8, page_boundary_penalty: false }),
        0x24 => (ExtendedOpcode { opcode: Opcode::BIT, addressing_mode: AddressingMode::ZeroPage, min_cycles: 3, page_boundary_penalty: false }),
        0x25 => (ExtendedOpcode { opcode: Opcode::AND, addressing_mode: AddressingMode::ZeroPage, min_cycles: 3, page_boundary_penalty: false }),
        0x26 => (ExtendedOpcode { opcode: Opcode::ROL, addressing_mode: AddressingMode::ZeroPage, min_cycles: 5, page_boundary_penalty: false }),
        0x27 => (ExtendedOpcode { opcode: Opcode::RLA, addressing_mode: AddressingMode::ZeroPage, min_cycles: 5, page_boundary_penalty: false }),
        0x28 => (ExtendedOpcode { opcode: Opcode::PLP, addressing_mode: AddressingMode::Implied, min_cycles: 4, page_boundary_penalty: false }),
        0x29 => (ExtendedOpcode { opcode: Opcode::AND, addressing_mode: AddressingMode::Immediate, min_cycles: 2, page_boundary_penalty: false }),
        0x2a => (ExtendedOpcode { opcode: Opcode::ROL, addressing_mode: AddressingMode::Accumulator, min_cycles: 2, page_boundary_penalty: false }),
        0x2b => (ExtendedOpcode { opcode: Opcode::ANC, addressing_mode: AddressingMode::Immediate, min_cycles: 2, page_boundary_penalty: false }),
        0x2c => (ExtendedOpcode { opcode: Opcode::BIT, addressing_mode: AddressingMode::Absolute, min_cycles: 4, page_boundary_penalty: false }),
        0x2d => (ExtendedOpcode { opcode: Opcode::AND, addressing_mode: AddressingMode::Absolute, min_cycles: 4, page_boundary_penalty: false }),
        0x2e => (ExtendedOpcode { opcode: Opcode::ROL, addressing_mode: AddressingMode::Absolute, min_cycles: 6, page_boundary_penalty: false }),
        0x2f => (ExtendedOpcode { opcode: Opcode::RLA, addressing_mode: AddressingMode::Absolute, min_cycles: 6, page_boundary_penalty: false }),
        0x30 => (ExtendedOpcode { opcode: Opcode::BMI, addressing_mode: AddressingMode::Relative, min_cycles: 2, page_boundary_penalty: false }),
        0x31 => (ExtendedOpcode { opcode: Opcode::AND, addressing_mode: AddressingMode::IndirectIndexed, min_cycles: 5, page_boundary_penalty: true }),
        0x32 => (ExtendedOpcode { opcode: Opcode::STP, addressing_mode: AddressingMode::Implied, min_cycles: 2, page_boundary_penalty: false }),
        0x33 => (ExtendedOpcode { opcode: Opcode::RLA, addressing_mode: AddressingMode::IndirectIndexed, min_cycles: 8, page_boundary_penalty: false }),
        0x34 => (ExtendedOpcode { opcode: Opcode::NOP, addressing_mode: AddressingMode::ZeroPageIndexedX, min_cycles: 4, page_boundary_penalty: false }),
        0x35 => (ExtendedOpcode { opcode: Opcode::AND, addressing_mode: AddressingMode::ZeroPageIndexedX, min_cycles: 4, page_boundary_penalty: false }),
        0x36 => (ExtendedOpcode { opcode: Opcode::ROL, addressing_mode: AddressingMode::ZeroPageIndexedX, min_cycles: 6, page_boundary_penalty: false }),
        0x37 => (ExtendedOpcode { opcode: Opcode::RLA, addressing_mode: AddressingMode::ZeroPageIndexedX, min_cycles: 6, page_boundary_penalty: false }),
        0x38 => (ExtendedOpcode { opcode: Opcode::SEC, addressing_mode: AddressingMode::Implied, min_cycles: 2, page_boundary_penalty: false }),
        0x39 => (ExtendedOpcode { opcode: Opcode::AND, addressing_mode: AddressingMode::AbsoluteIndexedY, min_cycles: 4, page_boundary_penalty: true }),
        0x3a => (ExtendedOpcode { opcode: Opcode::NOP, addressing_mode: AddressingMode::Implied, min_cycles: 2, page_boundary_penalty: false }),
        0x3b => (ExtendedOpcode { opcode: Opcode::RLA, addressing_mode: AddressingMode::AbsoluteIndexedY, min_cycles: 7, page_boundary_penalty: false }),
        0x3c => (ExtendedOpcode { opcode: Opcode::NOP, addressing_mode: AddressingMode::AbsoluteIndexedX, min_cycles: 4, page_boundary_penalty: true }),
        0x3d => (ExtendedOpcode { opcode: Opcode::AND, addressing_mode: AddressingMode::AbsoluteIndexedX, min_cycles: 4, page_boundary_penalty: true }),
        0x3e => (ExtendedOpcode { opcode: Opcode::ROL, addressing_mode: AddressingMode::AbsoluteIndexedX, min_cycles: 7, page_boundary_penalty: false }),
        0x3f => (ExtendedOpcode { opcode: Opcode::RLA, addressing_mode: AddressingMode::AbsoluteIndexedX, min_cycles: 7, page_boundary_penalty: false }),
        0x40 => (ExtendedOpcode { opcode: Opcode::RTI, addressing_mode: AddressingMode::Implied, min_cycles: 6, page_boundary_penalty: false }),
        0x41 => (ExtendedOpcode { opcode: Opcode::EOR, addressing_mode: AddressingMode::IndexedIndirect, min_cycles: 6, page_boundary_penalty: false }),
        0x42 => (ExtendedOpcode { opcode: Opcode::STP, addressing_mode: AddressingMode::Implied, min_cycles: 2, page_boundary_penalty: false }),
        0x43 => (ExtendedOpcode { opcode: Opcode::SRE, addressing_mode: AddressingMode::IndexedIndirect, min_cycles: 8, page_boundary_penalty: false }),
        0x44 => (ExtendedOpcode { opcode: Opcode::NOP, addressing_mode: AddressingMode::ZeroPage, min_cycles: 3, page_boundary_penalty: false }),
        0x45 => (ExtendedOpcode { opcode: Opcode::EOR, addressing_mode: AddressingMode::ZeroPage, min_cycles: 3, page_boundary_penalty: false }),
        0x46 => (ExtendedOpcode { opcode: Opcode::LSR, addressing_mode: AddressingMode::ZeroPage, min_cycles: 5, page_boundary_penalty: false }),
        0x47 => (ExtendedOpcode { opcode: Opcode::SRE, addressing_mode: AddressingMode::ZeroPage, min_cycles: 5, page_boundary_penalty: false }),
        0x48 => (ExtendedOpcode { opcode: Opcode::PHA, addressing_mode: AddressingMode::Implied, min_cycles: 3, page_boundary_penalty: false }),
        0x49 => (ExtendedOpcode { opcode: Opcode::EOR, addressing_mode: AddressingMode::Immediate, min_cycles: 2, page_boundary_penalty: false }),
        0x4a => (ExtendedOpcode { opcode: Opcode::LSR, addressing_mode: AddressingMode::Accumulator, min_cycles: 2, page_boundary_penalty: false }),
        0x4b => (ExtendedOpcode { opcode: Opcode::ALR, addressing_mode: AddressingMode::Immediate, min_cycles: 2, page_boundary_penalty: false }),
        0x4c => (ExtendedOpcode { opcode: Opcode::JMP, addressing_mode: AddressingMode::Absolute, min_cycles: 3, page_boundary_penalty: false }),
        0x4d => (ExtendedOpcode { opcode: Opcode::EOR, addressing_mode: AddressingMode::Absolute, min_cycles: 4, page_boundary_penalty: false }),
        0x4e => (ExtendedOpcode { opcode: Opcode::LSR, addressing_mode: AddressingMode::Absolute, min_cycles: 6, page_boundary_penalty: false }),
        0x4f => (ExtendedOpcode { opcode: Opcode::SRE, addressing_mode: AddressingMode::Absolute, min_cycles: 6, page_boundary_penalty: false }),
        0x50 => (ExtendedOpcode { opcode: Opcode::BVC, addressing_mode: AddressingMode::Relative, min_cycles: 2, page_boundary_penalty: false }),
        0x51 => (ExtendedOpcode { opcode: Opcode::EOR, addressing_mode: AddressingMode::IndirectIndexed, min_cycles: 5, page_boundary_penalty: true }),
        0x52 => (ExtendedOpcode { opcode: Opcode::STP, addressing_mode: AddressingMode::Implied, min_cycles: 2, page_boundary_penalty: false }),
        0x53 => (ExtendedOpcode { opcode: Opcode::SRE, addressing_mode: AddressingMode::IndirectIndexed, min_cycles: 8, page_boundary_penalty: false }),
        0x54 => (ExtendedOpcode { opcode: Opcode::NOP, addressing_mode: AddressingMode::ZeroPageIndexedX, min_cycles: 4, page_boundary_penalty: false }),
        0x55 => (ExtendedOpcode { opcode: Opcode::EOR, addressing_mode: AddressingMode::ZeroPageIndexedX, min_cycles: 4, page_boundary_penalty: false }),
        0x56 => (ExtendedOpcode { opcode: Opcode::LSR, addressing_mode: AddressingMode::ZeroPageIndexedX, min_cycles: 6, page_boundary_penalty: false }),
        0x57 => (ExtendedOpcode { opcode: Opcode::SRE, addressing_mode: AddressingMode::ZeroPageIndexedX, min_cycles: 6, page_boundary_penalty: false }),
        0x58 => (ExtendedOpcode { opcode: Opcode::CLI, addressing_mode: AddressingMode::Implied, min_cycles: 2, page_boundary_penalty: false }),
        0x59 => (ExtendedOpcode { opcode: Opcode::EOR, addressing_mode: AddressingMode::AbsoluteIndexedY, min_cycles: 4, page_boundary_penalty: true }),
        0x5a => (ExtendedOpcode { opcode: Opcode::NOP, addressing_mode: AddressingMode::Implied, min_cycles: 2, page_boundary_penalty: false }),
        0x5b => (ExtendedOpcode { opcode: Opcode::SRE, addressing_mode: AddressingMode::AbsoluteIndexedY, min_cycles: 7, page_boundary_penalty: false }),
        0x5c => (ExtendedOpcode { opcode: Opcode::NOP, addressing_mode: AddressingMode::AbsoluteIndexedX, min_cycles: 4, page_boundary_penalty: true }),
        0x5d => (ExtendedOpcode { opcode: Opcode::EOR, addressing_mode: AddressingMode::AbsoluteIndexedX, min_cycles: 4, page_boundary_penalty: true }),
        0x5e => (ExtendedOpcode { opcode: Opcode::LSR, addressing_mode: AddressingMode::AbsoluteIndexedX, min_cycles: 7, page_boundary_penalty: false }),
        0x5f => (ExtendedOpcode { opcode: Opcode::SRE, addressing_mode: AddressingMode::AbsoluteIndexedX, min_cycles: 7, page_boundary_penalty: false }),
        0x60 => (ExtendedOpcode { opcode: Opcode::RTS, addressing_mode: AddressingMode::Implied, min_cycles: 6, page_boundary_penalty: false }),
        0x61 => (ExtendedOpcode { opcode: Opcode::ADC, addressing_mode: AddressingMode::IndexedIndirect, min_cycles: 6, page_boundary_penalty: false }),
        0x62 => (ExtendedOpcode { opcode: Opcode::STP, addressing_mode: AddressingMode::Implied, min_cycles: 2, page_boundary_penalty: false }),
        0x63 => (ExtendedOpcode { opcode: Opcode::RRA, addressing_mode: AddressingMode::IndexedIndirect, min_cycles: 8, page_boundary_penalty: false }),
        0x64 => (ExtendedOpcode { opcode: Opcode::NOP, addressing_mode: AddressingMode::ZeroPage, min_cycles: 3, page_boundary_penalty: false }),
        0x65 => (ExtendedOpcode { opcode: Opcode::ADC, addressing_mode: AddressingMode::ZeroPage, min_cycles: 3, page_boundary_penalty: false }),
        0x66 => (ExtendedOpcode { opcode: Opcode::ROR, addressing_mode: AddressingMode::ZeroPage, min_cycles: 5, page_boundary_penalty: false }),
        0x67 => (ExtendedOpcode { opcode: Opcode::RRA, addressing_mode: AddressingMode::ZeroPage, min_cycles: 5, page_boundary_penalty: false }),
        0x68 => (ExtendedOpcode { opcode: Opcode::PLA, addressing_mode: AddressingMode::Implied, min_cycles: 4, page_boundary_penalty: false }),
        0x69 => (ExtendedOpcode { opcode: Opcode::ADC, addressing_mode: AddressingMode::Immediate, min_cycles: 2, page_boundary_penalty: false }),
        0x6a => (ExtendedOpcode { opcode: Opcode::ROR, addressing_mode: AddressingMode::Accumulator, min_cycles: 2, page_boundary_penalty: false }),
        0x6b => (ExtendedOpcode { opcode: Opcode::ARR, addressing_mode: AddressingMode::Immediate, min_cycles: 2, page_boundary_penalty: false }),
        0x6c => (ExtendedOpcode { opcode: Opcode::JMP, addressing_mode: AddressingMode::Indirect, min_cycles: 5, page_boundary_penalty: false }),
        0x6d => (ExtendedOpcode { opcode: Opcode::ADC, addressing_mode: AddressingMode::Absolute, min_cycles: 4, page_boundary_penalty: false }),
        0x6e => (ExtendedOpcode { opcode: Opcode::ROR, addressing_mode: AddressingMode::Absolute, min_cycles: 6, page_boundary_penalty: false }),
        0x6f => (ExtendedOpcode { opcode: Opcode::RRA, addressing_mode: AddressingMode::Absolute, min_cycles: 6, page_boundary_penalty: false }),
        0x70 => (ExtendedOpcode { opcode: Opcode::BVS, addressing_mode: AddressingMode::Relative, min_cycles: 2, page_boundary_penalty: false }),
        0x71 => (ExtendedOpcode { opcode: Opcode::ADC, addressing_mode: AddressingMode::IndirectIndexed, min_cycles: 5, page_boundary_penalty: true }),
        0x72 => (ExtendedOpcode { opcode: Opcode::STP, addressing_mode: AddressingMode::Implied, min_cycles: 2, page_boundary_penalty: false }),
        0x73 => (ExtendedOpcode { opcode: Opcode::RRA, addressing_mode: AddressingMode::IndirectIndexed, min_cycles: 8, page_boundary_penalty: false }),
        0x74 => (ExtendedOpcode { opcode: Opcode::NOP, addressing_mode: AddressingMode::ZeroPageIndexedX, min_cycles: 4, page_boundary_penalty: false }),
        0x75 => (ExtendedOpcode { opcode: Opcode::ADC, addressing_mode: AddressingMode::ZeroPageIndexedX, min_cycles: 4, page_boundary_penalty: false }),
        0x76 => (ExtendedOpcode { opcode: Opcode::ROR, addressing_mode: AddressingMode::ZeroPageIndexedX, min_cycles: 6, page_boundary_penalty: false }),
        0x77 => (ExtendedOpcode { opcode: Opcode::RRA, addressing_mode: AddressingMode::ZeroPageIndexedX, min_cycles: 6, page_boundary_penalty: false }),
        0x78 => (ExtendedOpcode { opcode: Opcode::SEI, addressing_mode: AddressingMode::Implied, min_cycles: 2, page_boundary_penalty: false }),
        0x79 => (ExtendedOpcode { opcode: Opcode::ADC, addressing_mode: AddressingMode::AbsoluteIndexedY, min_cycles: 4, page_boundary_penalty: true }),
        0x7a => (ExtendedOpcode { opcode: Opcode::NOP, addressing_mode: AddressingMode::Implied, min_cycles: 2, page_boundary_penalty: false }),
        0x7b => (ExtendedOpcode { opcode: Opcode::RRA, addressing_mode: AddressingMode::AbsoluteIndexedY, min_cycles: 7, page_boundary_penalty: false }),
        0x7c => (ExtendedOpcode { opcode: Opcode::NOP, addressing_mode: AddressingMode::AbsoluteIndexedX, min_cycles: 4, page_boundary_penalty: true }),
        0x7d => (ExtendedOpcode { opcode: Opcode::ADC, addressing_mode: AddressingMode::AbsoluteIndexedX, min_cycles: 4, page_boundary_penalty: true }),
        0x7e => (ExtendedOpcode { opcode: Opcode::ROR, addressing_mode: AddressingMode::AbsoluteIndexedX, min_cycles: 7, page_boundary_penalty: false }),
        0x7f => (ExtendedOpcode { opcode: Opcode::RRA, addressing_mode: AddressingMode::AbsoluteIndexedX, min_cycles: 7, page_boundary_penalty: false }),
        0x80 => (ExtendedOpcode { opcode: Opcode::NOP, addressing_mode: AddressingMode::Immediate, min_cycles: 2, page_boundary_penalty: false }),
        0x81 => (ExtendedOpcode { opcode: Opcode::STA, addressing_mode: AddressingMode::IndexedIndirect, min_cycles: 6, page_boundary_penalty: false }),
        0x82 => (ExtendedOpcode { opcode: Opcode::NOP, addressing_mode: AddressingMode::Immediate, min_cycles: 2, page_boundary_penalty: false }),
        0x83 => (ExtendedOpcode { opcode: Opcode::SAX, addressing_mode: AddressingMode::IndexedIndirect, min_cycles: 6, page_boundary_penalty: false }),
        0x84 => (ExtendedOpcode { opcode: Opcode::STY, addressing_mode: AddressingMode::ZeroPage, min_cycles: 3, page_boundary_penalty: false }),
        0x85 => (ExtendedOpcode { opcode: Opcode::STA, addressing_mode: AddressingMode::ZeroPage, min_cycles: 3, page_boundary_penalty: false }),
        0x86 => (ExtendedOpcode { opcode: Opcode::STX, addressing_mode: AddressingMode::ZeroPage, min_cycles: 3, page_boundary_penalty: false }),
        0x87 => (ExtendedOpcode { opcode: Opcode::SAX, addressing_mode: AddressingMode::ZeroPage, min_cycles: 3, page_boundary_penalty: false }),
        0x88 => (ExtendedOpcode { opcode: Opcode::DEY, addressing_mode: AddressingMode::Implied, min_cycles: 2, page_boundary_penalty: false }),
        0x89 => (ExtendedOpcode { opcode: Opcode::NOP, addressing_mode: AddressingMode::Immediate, min_cycles: 2, page_boundary_penalty: false }),
        0x8a => (ExtendedOpcode { opcode: Opcode::TXA, addressing_mode: AddressingMode::Implied, min_cycles: 2, page_boundary_penalty: false }),
        0x8b => (ExtendedOpcode { opcode: Opcode::XAA, addressing_mode: AddressingMode::Immediate, min_cycles: 2, page_boundary_penalty: false }),
        0x8c => (ExtendedOpcode { opcode: Opcode::STY, addressing_mode: AddressingMode::Absolute, min_cycles: 4, page_boundary_penalty: false }),
        0x8d => (ExtendedOpcode { opcode: Opcode::STA, addressing_mode: AddressingMode::Absolute, min_cycles: 4, page_boundary_penalty: false }),
        0x8e => (ExtendedOpcode { opcode: Opcode::STX, addressing_mode: AddressingMode::Absolute, min_cycles: 4, page_boundary_penalty: false }),
        0x8f => (ExtendedOpcode { opcode: Opcode::SAX, addressing_mode: AddressingMode::Absolute, min_cycles: 4, page_boundary_penalty: false }),
        0x90 => (ExtendedOpcode { opcode: Opcode::BCC, addressing_mode: AddressingMode::Relative, min_cycles: 2, page_boundary_penalty: false }),
        0x91 => (ExtendedOpcode { opcode: Opcode::STA, addressing_mode: AddressingMode::IndirectIndexed, min_cycles: 6, page_boundary_penalty: false }),
        0x92 => (ExtendedOpcode { opcode: Opcode::STP, addressing_mode: AddressingMode::Implied, min_cycles: 2, page_boundary_penalty: false }),
        0x93 => (ExtendedOpcode { opcode: Opcode::AHX, addressing_mode: AddressingMode::IndirectIndexed, min_cycles: 6, page_boundary_penalty: false }),
        0x94 => (ExtendedOpcode { opcode: Opcode::STY, addressing_mode: AddressingMode::ZeroPageIndexedX, min_cycles: 4, page_boundary_penalty: false }),
        0x95 => (ExtendedOpcode { opcode: Opcode::STA, addressing_mode: AddressingMode::ZeroPageIndexedX, min_cycles: 4, page_boundary_penalty: false }),
        0x96 => (ExtendedOpcode { opcode: Opcode::STX, addressing_mode: AddressingMode::ZeroPageIndexedY, min_cycles: 4, page_boundary_penalty: false }),
        0x97 => (ExtendedOpcode { opcode: Opcode::SAX, addressing_mode: AddressingMode::ZeroPageIndexedY, min_cycles: 4, page_boundary_penalty: false }),
        0x98 => (ExtendedOpcode { opcode: Opcode::TYA, addressing_mode: AddressingMode::Implied, min_cycles: 2, page_boundary_penalty: false }),
        0x99 => (ExtendedOpcode { opcode: Opcode::STA, addressing_mode: AddressingMode::AbsoluteIndexedY, min_cycles: 5, page_boundary_penalty: false }),
        0x9a => (ExtendedOpcode { opcode: Opcode::TXS, addressing_mode: AddressingMode::Implied, min_cycles: 2, page_boundary_penalty: false }),
        0x9b => (ExtendedOpcode { opcode: Opcode::TAS, addressing_mode: AddressingMode::AbsoluteIndexedY, min_cycles: 5, page_boundary_penalty: false }),
        0x9c => (ExtendedOpcode { opcode: Opcode::SHY, addressing_mode: AddressingMode::AbsoluteIndexedX, min_cycles: 5, page_boundary_penalty: false }),
        0x9d => (ExtendedOpcode { opcode: Opcode::STA, addressing_mode: AddressingMode::AbsoluteIndexedX, min_cycles: 5, page_boundary_penalty: false }),
        0x9e => (ExtendedOpcode { opcode: Opcode::SHX, addressing_mode: AddressingMode::AbsoluteIndexedY, min_cycles: 5, page_boundary_penalty: false }),
        0x9f => (ExtendedOpcode { opcode: Opcode::AHX, addressing_mode: AddressingMode::AbsoluteIndexedY, min_cycles: 5, page_boundary_penalty: false }),
        0xa0 => (ExtendedOpcode { opcode: Opcode::LDY, addressing_mode: AddressingMode::Immediate, min_cycles: 2, page_boundary_penalty: false }),
        0xa1 => (ExtendedOpcode { opcode: Opcode::LDA, addressing_mode: AddressingMode::IndexedIndirect, min_cycles: 6, page_boundary_penalty: false }),
        0xa2 => (ExtendedOpcode { opcode: Opcode::LDX, addressing_mode: AddressingMode::Immediate, min_cycles: 2, page_boundary_penalty: false }),
        0xa3 => (ExtendedOpcode { opcode: Opcode::LAX, addressing_mode: AddressingMode::IndexedIndirect, min_cycles: 6, page_boundary_penalty: false }),
        0xa4 => (ExtendedOpcode { opcode: Opcode::LDY, addressing_mode: AddressingMode::ZeroPage, min_cycles: 3, page_boundary_penalty: false }),
        0xa5 => (ExtendedOpcode { opcode: Opcode::LDA, addressing_mode: AddressingMode::ZeroPage, min_cycles: 3, page_boundary_penalty: false }),
        0xa6 => (ExtendedOpcode { opcode: Opcode::LDX, addressing_mode: AddressingMode::ZeroPage, min_cycles: 3, page_boundary_penalty: false }),
        0xa7 => (ExtendedOpcode { opcode: Opcode::LAX, addressing_mode: AddressingMode::ZeroPage, min_cycles: 3, page_boundary_penalty: false }),
        0xa8 => (ExtendedOpcode { opcode: Opcode::TAY, addressing_mode: AddressingMode::Implied, min_cycles: 2, page_boundary_penalty: false }),
        0xa9 => (ExtendedOpcode { opcode: Opcode::LDA, addressing_mode: AddressingMode::Immediate, min_cycles: 2, page_boundary_penalty: false }),
        0xaa => (ExtendedOpcode { opcode: Opcode::TAX, addressing_mode: AddressingMode::Implied, min_cycles: 2, page_boundary_penalty: false }),
        0xab => (ExtendedOpcode { opcode: Opcode::LAX, addressing_mode: AddressingMode::Immediate, min_cycles: 2, page_boundary_penalty: false }),
        0xac => (ExtendedOpcode { opcode: Opcode::LDY, addressing_mode: AddressingMode::Absolute, min_cycles: 4, page_boundary_penalty: false }),
        0xad => (ExtendedOpcode { opcode: Opcode::LDA, addressing_mode: AddressingMode::Absolute, min_cycles: 4, page_boundary_penalty: false }),
        0xae => (ExtendedOpcode { opcode: Opcode::LDX, addressing_mode: AddressingMode::Absolute, min_cycles: 4, page_boundary_penalty: false }),
        0xaf => (ExtendedOpcode { opcode: Opcode::LAX, addressing_mode: AddressingMode::Absolute, min_cycles: 4, page_boundary_penalty: false }),
        0xb0 => (ExtendedOpcode { opcode: Opcode::BCS, addressing_mode: AddressingMode::Relative, min_cycles: 2, page_boundary_penalty: false }),
        0xb1 => (ExtendedOpcode { opcode: Opcode::LDA, addressing_mode: AddressingMode::IndirectIndexed, min_cycles: 5, page_boundary_penalty: true }),
        0xb2 => (ExtendedOpcode { opcode: Opcode::STP, addressing_mode: AddressingMode::Implied, min_cycles: 2, page_boundary_penalty: false }),
        0xb3 => (ExtendedOpcode { opcode: Opcode::LAX, addressing_mode: AddressingMode::IndirectIndexed, min_cycles: 5, page_boundary_penalty: true }),
        0xb4 => (ExtendedOpcode { opcode: Opcode::LDY, addressing_mode: AddressingMode::ZeroPageIndexedX, min_cycles: 4, page_boundary_penalty: false }),
        0xb5 => (ExtendedOpcode { opcode: Opcode::LDA, addressing_mode: AddressingMode::ZeroPageIndexedX, min_cycles: 4, page_boundary_penalty: false }),
        0xb6 => (ExtendedOpcode { opcode: Opcode::LDX, addressing_mode: AddressingMode::ZeroPageIndexedY, min_cycles: 4, page_boundary_penalty: false }),
        0xb7 => (ExtendedOpcode { opcode: Opcode::LAX, addressing_mode: AddressingMode::ZeroPageIndexedY, min_cycles: 4, page_boundary_penalty: false }),
        0xb8 => (ExtendedOpcode { opcode: Opcode::CLV, addressing_mode: AddressingMode::Implied, min_cycles: 2, page_boundary_penalty: false }),
        0xb9 => (ExtendedOpcode { opcode: Opcode::LDA, addressing_mode: AddressingMode::AbsoluteIndexedY, min_cycles: 4, page_boundary_penalty: true }),
        0xba => (ExtendedOpcode { opcode: Opcode::TSX, addressing_mode: AddressingMode::Implied, min_cycles: 2, page_boundary_penalty: false }),
        0xbb => (ExtendedOpcode { opcode: Opcode::LAS, addressing_mode: AddressingMode::AbsoluteIndexedY, min_cycles: 4, page_boundary_penalty: true }),
        0xbc => (ExtendedOpcode { opcode: Opcode::LDY, addressing_mode: AddressingMode::AbsoluteIndexedX, min_cycles: 4, page_boundary_penalty: true }),
        0xbd => (ExtendedOpcode { opcode: Opcode::LDA, addressing_mode: AddressingMode::AbsoluteIndexedX, min_cycles: 4, page_boundary_penalty: true }),
        0xbe => (ExtendedOpcode { opcode: Opcode::LDX, addressing_mode: AddressingMode::AbsoluteIndexedY, min_cycles: 4, page_boundary_penalty: true }),
        0xbf => (ExtendedOpcode { opcode: Opcode::LAX, addressing_mode: AddressingMode::AbsoluteIndexedY, min_cycles: 4, page_boundary_penalty: true }),
        0xc0 => (ExtendedOpcode { opcode: Opcode::CPY, addressing_mode: AddressingMode::Immediate, min_cycles: 2, page_boundary_penalty: false }),
        0xc1 => (ExtendedOpcode { opcode: Opcode::CMP, addressing_mode: AddressingMode::IndexedIndirect, min_cycles: 6, page_boundary_penalty: false }),
        0xc2 => (ExtendedOpcode { opcode: Opcode::NOP, addressing_mode: AddressingMode::Immediate, min_cycles: 2, page_boundary_penalty: false }),
        0xc3 => (ExtendedOpcode { opcode: Opcode::DCP, addressing_mode: AddressingMode::IndexedIndirect, min_cycles: 8, page_boundary_penalty: false }),
        0xc4 => (ExtendedOpcode { opcode: Opcode::CPY, addressing_mode: AddressingMode::ZeroPage, min_cycles: 3, page_boundary_penalty: false }),
        0xc5 => (ExtendedOpcode { opcode: Opcode::CMP, addressing_mode: AddressingMode::ZeroPage, min_cycles: 3, page_boundary_penalty: false }),
        0xc6 => (ExtendedOpcode { opcode: Opcode::DEC, addressing_mode: AddressingMode::ZeroPage, min_cycles: 5, page_boundary_penalty: false }),
        0xc7 => (ExtendedOpcode { opcode: Opcode::DCP, addressing_mode: AddressingMode::ZeroPage, min_cycles: 5, page_boundary_penalty: false }),
        0xc8 => (ExtendedOpcode { opcode: Opcode::INY, addressing_mode: AddressingMode::Implied, min_cycles: 2, page_boundary_penalty: false }),
        0xc9 => (ExtendedOpcode { opcode: Opcode::CMP, addressing_mode: AddressingMode::Immediate, min_cycles: 2, page_boundary_penalty: false }),
        0xca => (ExtendedOpcode { opcode: Opcode::DEX, addressing_mode: AddressingMode::Implied, min_cycles: 2, page_boundary_penalty: false }),
        0xcb => (ExtendedOpcode { opcode: Opcode::AXS, addressing_mode: AddressingMode::Immediate, min_cycles: 2, page_boundary_penalty: false }),
        0xcc => (ExtendedOpcode { opcode: Opcode::CPY, addressing_mode: AddressingMode::Absolute, min_cycles: 4, page_boundary_penalty: false }),
        0xcd => (ExtendedOpcode { opcode: Opcode::CMP, addressing_mode: AddressingMode::Absolute, min_cycles: 4, page_boundary_penalty: false }),
        0xce => (ExtendedOpcode { opcode: Opcode::DEC, addressing_mode: AddressingMode::Absolute, min_cycles: 6, page_boundary_penalty: false }),
        0xcf => (ExtendedOpcode { opcode: Opcode::DCP, addressing_mode: AddressingMode::Absolute, min_cycles: 6, page_boundary_penalty: false }),
        0xd0 => (ExtendedOpcode { opcode: Opcode::BNE, addressing_mode: AddressingMode::Relative, min_cycles: 2, page_boundary_penalty: false }),
        0xd1 => (ExtendedOpcode { opcode: Opcode::CMP, addressing_mode: AddressingMode::IndirectIndexed, min_cycles: 5, page_boundary_penalty: true }),
        0xd2 => (ExtendedOpcode { opcode: Opcode::STP, addressing_mode: AddressingMode::Implied, min_cycles: 2, page_boundary_penalty: false }),
        0xd3 => (ExtendedOpcode { opcode: Opcode::DCP, addressing_mode: AddressingMode::IndirectIndexed, min_cycles: 8, page_boundary_penalty: false }),
        0xd4 => (ExtendedOpcode { opcode: Opcode::NOP, addressing_mode: AddressingMode::ZeroPageIndexedX, min_cycles: 4, page_boundary_penalty: false }),
        0xd5 => (ExtendedOpcode { opcode: Opcode::CMP, addressing_mode: AddressingMode::ZeroPageIndexedX, min_cycles: 4, page_boundary_penalty: false }),
        0xd6 => (ExtendedOpcode { opcode: Opcode::DEC, addressing_mode: AddressingMode::ZeroPageIndexedX, min_cycles: 6, page_boundary_penalty: false }),
        0xd7 => (ExtendedOpcode { opcode: Opcode::DCP, addressing_mode: AddressingMode::ZeroPageIndexedX, min_cycles: 6, page_boundary_penalty: false }),
        0xd8 => (ExtendedOpcode { opcode: Opcode::CLD, addressing_mode: AddressingMode::Implied, min_cycles: 2, page_boundary_penalty: false }),
        0xd9 => (ExtendedOpcode { opcode: Opcode::CMP, addressing_mode: AddressingMode::AbsoluteIndexedY, min_cycles: 4, page_boundary_penalty: true }),
        0xda => (ExtendedOpcode { opcode: Opcode::NOP, addressing_mode: AddressingMode::Implied, min_cycles: 2, page_boundary_penalty: false }),
        0xdb => (ExtendedOpcode { opcode: Opcode::DCP, addressing_mode: AddressingMode::AbsoluteIndexedY, min_cycles: 7, page_boundary_penalty: false }),
        0xdc => (ExtendedOpcode { opcode: Opcode::NOP, addressing_mode: AddressingMode::AbsoluteIndexedX, min_cycles: 4, page_boundary_penalty: true }),
        0xdd => (ExtendedOpcode { opcode: Opcode::CMP, addressing_mode: AddressingMode::AbsoluteIndexedX, min_cycles: 4, page_boundary_penalty: true }),
        0xde => (ExtendedOpcode { opcode: Opcode::DEC, addressing_mode: AddressingMode::AbsoluteIndexedX, min_cycles: 7, page_boundary_penalty: false }),
        0xdf => (ExtendedOpcode { opcode: Opcode::DCP, addressing_mode: AddressingMode::AbsoluteIndexedX, min_cycles: 7, page_boundary_penalty: false }),
        0xe0 => (ExtendedOpcode { opcode: Opcode::CPX, addressing_mode: AddressingMode::Immediate, min_cycles: 2, page_boundary_penalty: false }),
        0xe1 => (ExtendedOpcode { opcode: Opcode::SBC, addressing_mode: AddressingMode::IndexedIndirect, min_cycles: 6, page_boundary_penalty: false }),
        0xe2 => (ExtendedOpcode { opcode: Opcode::NOP, addressing_mode: AddressingMode::Immediate, min_cycles: 2, page_boundary_penalty: false }),
        0xe3 => (ExtendedOpcode { opcode: Opcode::ISB, addressing_mode: AddressingMode::IndexedIndirect, min_cycles: 8, page_boundary_penalty: false }),
        0xe4 => (ExtendedOpcode { opcode: Opcode::CPX, addressing_mode: AddressingMode::ZeroPage, min_cycles: 3, page_boundary_penalty: false }),
        0xe5 => (ExtendedOpcode { opcode: Opcode::SBC, addressing_mode: AddressingMode::ZeroPage, min_cycles: 3, page_boundary_penalty: false }),
        0xe6 => (ExtendedOpcode { opcode: Opcode::INC, addressing_mode: AddressingMode::ZeroPage, min_cycles: 5, page_boundary_penalty: false }),
        0xe7 => (ExtendedOpcode { opcode: Opcode::ISB, addressing_mode: AddressingMode::ZeroPage, min_cycles: 5, page_boundary_penalty: false }),
        0xe8 => (ExtendedOpcode { opcode: Opcode::INX, addressing_mode: AddressingMode::Implied, min_cycles: 2, page_boundary_penalty: false }),
        0xe9 => (ExtendedOpcode { opcode: Opcode::SBC, addressing_mode: AddressingMode::Immediate, min_cycles: 2, page_boundary_penalty: false }),
        0xea => (ExtendedOpcode { opcode: Opcode::NOP, addressing_mode: AddressingMode::Implied, min_cycles: 2, page_boundary_penalty: false }),
        0xeb => (ExtendedOpcode { opcode: Opcode::SBC, addressing_mode: AddressingMode::Immediate, min_cycles: 2, page_boundary_penalty: false }),
        0xec => (ExtendedOpcode { opcode: Opcode::CPX, addressing_mode: AddressingMode::Absolute, min_cycles: 4, page_boundary_penalty: false }),
        0xed => (ExtendedOpcode { opcode: Opcode::SBC, addressing_mode: AddressingMode::Absolute, min_cycles: 4, page_boundary_penalty: false }),
        0xee => (ExtendedOpcode { opcode: Opcode::INC, addressing_mode: AddressingMode::Absolute, min_cycles: 6, page_boundary_penalty: false }),
        0xef => (ExtendedOpcode { opcode: Opcode::ISB, addressing_mode: AddressingMode::Absolute, min_cycles: 6, page_boundary_penalty: false }),
        0xf0 => (ExtendedOpcode { opcode: Opcode::BEQ, addressing_mode: AddressingMode::Relative, min_cycles: 2, page_boundary_penalty: false }),
        0xf1 => (ExtendedOpcode { opcode: Opcode::SBC, addressing_mode: AddressingMode::IndirectIndexed, min_cycles: 5, page_boundary_penalty: true }),
        0xf2 => (ExtendedOpcode { opcode: Opcode::STP, addressing_mode: AddressingMode::Implied, min_cycles: 2, page_boundary_penalty: false }),
        0xf3 => (ExtendedOpcode { opcode: Opcode::ISB, addressing_mode: AddressingMode::IndirectIndexed, min_cycles: 8, page_boundary_penalty: false }),
        0xf4 => (ExtendedOpcode { opcode: Opcode::NOP, addressing_mode: AddressingMode::ZeroPageIndexedX, min_cycles: 4, page_boundary_penalty: false }),
        0xf5 => (ExtendedOpcode { opcode: Opcode::SBC, addressing_mode: AddressingMode::ZeroPageIndexedX, min_cycles: 4, page_boundary_penalty: false }),
        0xf6 => (ExtendedOpcode { opcode: Opcode::INC, addressing_mode: AddressingMode::ZeroPageIndexedX, min_cycles: 6, page_boundary_penalty: false }),
        0xf7 => (ExtendedOpcode { opcode: Opcode::ISB, addressing_mode: AddressingMode::ZeroPageIndexedX, min_cycles: 6, page_boundary_penalty: false }),
        0xf8 => (ExtendedOpcode { opcode: Opcode::SED, addressing_mode: AddressingMode::Implied, min_cycles: 2, page_boundary_penalty: false }),
        0xf9 => (ExtendedOpcode { opcode: Opcode::SBC, addressing_mode: AddressingMode::AbsoluteIndexedY, min_cycles: 4, page_boundary_penalty: true }),
        0xfa => (ExtendedOpcode { opcode: Opcode::NOP, addressing_mode: AddressingMode::Implied, min_cycles: 2, page_boundary_penalty: false }),
        0xfb => (ExtendedOpcode { opcode: Opcode::ISB, addressing_mode: AddressingMode::AbsoluteIndexedY, min_cycles: 7, page_boundary_penalty: false }),
        0xfc => (ExtendedOpcode { opcode: Opcode::NOP, addressing_mode: AddressingMode::AbsoluteIndexedX, min_cycles: 4, page_boundary_penalty: true }),
        0xfd => (ExtendedOpcode { opcode: Opcode::SBC, addressing_mode: AddressingMode::AbsoluteIndexedX, min_cycles: 4, page_boundary_penalty: true }),
        0xfe => (ExtendedOpcode { opcode: Opcode::INC, addressing_mode: AddressingMode::AbsoluteIndexedX, min_cycles: 7, page_boundary_penalty: false }),
        0xff => (ExtendedOpcode { opcode: Opcode::ISB, addressing_mode: AddressingMode::AbsoluteIndexedX, min_cycles: 7, page_boundary_penalty: false }),
    }
}

/// Look an opcode byte up in the instruction table.
pub fn opcode_entry(op: u8) -> (r: ExtendedOpcode)
    ensures
        r == spec_opcode_entry(op),
        1 <= r.min_cycles <= 8,
{
    match op {
        0x00 => (ExtendedOpcode { opcode: Opcode::BRK, addressing_mode: AddressingMode::Implied, min_cycles: 7, page_boundary_penalty: false }),
        0x01 => (ExtendedOpcode { opcode: Opcode::ORA, addressing_mode: AddressingMode::IndexedIndirect, min_cycles: 6, page_boundary_penalty: false }),
        0x02 => (ExtendedOpcode { opcode: Opcode::STP, addressing_mode: AddressingMode::Implied, min_cycles: 2, page_boundary_penalty: false }),
        0x03 => (ExtendedOpcode { opcode: Opcode::SLO, addressing_mode: AddressingMode::IndexedIndirect, min_cycles: 8, page_boundary_penalty: false }),
        0x04 => (ExtendedOpcode { opcode: Opcode::NOP, addressing_mode: AddressingMode::ZeroPage, min_cycles: 3, page_boundary_penalty: false }),
        0x05 => (ExtendedOpcode { opcode: Opcode::ORA, addressing_mode: AddressingMode::ZeroPage, min_cycles: 3, page_boundary_penalty: false }),
        0x06 => (ExtendedOpcode { opcode: Opcode::ASL, addressing_mode: AddressingMode::ZeroPage, min_cycles: 5, page_boundary_penalty: false }),
        0x07 => (ExtendedOpcode { opcode: Opcode::SLO, addressing_mode: AddressingMode::ZeroPage, min_cycles: 5, page_boundary_penalty: false }),
        0x08 => (ExtendedOpcode { opcode: Opcode::PHP, addressing_mode: AddressingMode::Implied, min_cycles: 3, page_boundary_penalty: false }),
        0x09 => (ExtendedOpcode { opcode: Opcode::ORA, addressing_mode: AddressingMode::Immediate, min_cycles: 2, page_boundary_penalty: false }),
        0x0a => (ExtendedOpcode { opcode: Opcode::ASL, addressing_mode: AddressingMode::Accumulator, min_cycles: 2, page_boundary_penalty: false }),
        0x0b => (ExtendedOpcode { opcode: Opcode::ANC, addressing_mode: AddressingMode::Immediate, min_cycles: 2, page_boundary_penalty: false }),
        0x0c => (ExtendedOpcode { opcode: Opcode::NOP, addressing_mode: AddressingMode::Absolute, min_cycles: 4, page_boundary_penalty: false }),
        0x0d => (ExtendedOpcode { opcode: Opcode::ORA, addressing_mode: AddressingMode::Absolute, min_cycles: 4, page_boundary_penalty: false }),
        0x0e => (ExtendedOpcode { opcode: Opcode::ASL, addressing_mode: AddressingMode::Absolute, min_cycles: 6, page_boundary_penalty: false }),
        0x0f => (ExtendedOpcode { opcode: Opcode::SLO, addressing_mode: AddressingMode::Absolute, min_cycles: 6, page_boundary_penalty: false }),
        0x10 => (ExtendedOpcode { opcode: Opcode::BPL, addressing_mode: AddressingMode::Relative, min_cycles: 2, page_boundary_penalty: false }),
        0x11 => (ExtendedOpcode { opcode: Opcode::ORA, addressing_mode: AddressingMode::IndirectIndexed, min_cycles: 5, page_boundary_penalty: true }),
        0x12 => (ExtendedOpcode { opcode: Opcode::STP, addressing_mode: AddressingMode::Implied, min_cycles: 2, page_boundary_penalty: false }),
        0x13 => (ExtendedOpcode { opcode: Opcode::SLO, addressing_mode: AddressingMode::IndirectIndexed, min_cycles: 8, page_boundary_penalty: false }),
        0x14 => (ExtendedOpcode { opcode: Opcode::NOP, addressing_mode: AddressingMode::ZeroPageIndexedX, min_cycles: 4, page_boundary_penalty: false }),
        0x15 => (ExtendedOpcode { opcode: Opcode::ORA, addressing_mode: AddressingMode::ZeroPageIndexedX, min_cycles: 4, page_boundary_penalty: false }),
        0x16 => (ExtendedOpcode { opcode: Opcode::ASL, addressing_mode: AddressingMode::ZeroPageIndexedX, min_cycles: 6, page_boundary_penalty: false }),
        0x17 => (ExtendedOpcode { opcode: Opcode::SLO, addressing_mode: AddressingMode::ZeroPageIndexedX, min_cycles: 6, page_boundary_penalty: false }),
        0x18 => (ExtendedOpcode { opcode: Opcode::CLC, addressing_mode: AddressingMode::Implied, min_cycles: 2, page_boundary_penalty: false }),
        0x19 => (ExtendedOpcode { opcode: Opcode::ORA, addressing_mode: AddressingMode::AbsoluteIndexedY, min_cycles: 4, page_boundary_penalty: true }),
        0x1a => (ExtendedOpcode { opcode: Opcode::NOP, addressing_mode: AddressingMode::Implied, min_cycles: 2, page_boundary_penalty: false }),
        0x1b => (ExtendedOpcode { opcode: Opcode::SLO, addressing_mode: AddressingMode::AbsoluteIndexedY, min_cycles: 7, page_boundary_penalty: false }),
        0x1c => (ExtendedOpcode { opcode: Opcode::NOP, addressing_mode: AddressingMode::AbsoluteIndexedX, min_cycles: 4, page_boundary_penalty: true }),
        0x1d => (ExtendedOpcode { opcode: Opcode::ORA, addressing_mode: AddressingMode::AbsoluteIndexedX, min_cycles: 4, page_boundary_penalty: true }),
        0x1e => (ExtendedOpcode { opcode: Opcode::ASL, addressing_mode: AddressingMode::AbsoluteIndexedX, min_cycles: 7, page_boundary_penalty: false }),
        0x1f => (ExtendedOpcode { opcode: Opcode::SLO, addressing_mode: AddressingMode::AbsoluteIndexedX, min_cycles: 7, page_boundary_penalty: false }),
        0x20 => (ExtendedOpcode { opcode: Opcode::JSR, addressing_mode: AddressingMode::Absolute, min_cycles: 6, page_boundary_penalty: false }),
        0x21 => (ExtendedOpcode { opcode: Opcode::AND, addressing_mode: AddressingMode::IndexedIndirect, min_cycles: 6, page_boundary_penalty: false }),
        0x22 => (ExtendedOpcode { opcode: Opcode::STP, addressing_mode: AddressingMode::Implied, min_cycles: 2, page_boundary_penalty: false }),
        0x23 => (ExtendedOpcode { opcode: Opcode::RLA, addressing_mode: AddressingMode::IndexedIndirect, min_cycles: 8, page_boundary_penalty: false }),
        0x24 => (ExtendedOpcode { opcode: Opcode::BIT, addressing_mode: AddressingMode::ZeroPage, min_cycles: 3, page_boundary_penalty: false }),
        0x25 => (ExtendedOpcode { opcode: Opcode::AND, addressing_mode: AddressingMode::ZeroPage, min_cycles: 3, page_boundary_penalty: false }),
        0x26 => (ExtendedOpcode { opcode: Opcode::ROL, addressing_mode: AddressingMode::ZeroPage, min_cycles: 5, page_boundary_penalty: false }),
        0x27 => (ExtendedOpcode { opcode: Opcode::RLA, addressing_mode: AddressingMode::ZeroPage, min_cycles: 5, page_boundary_penalty: false }),
        0x28 => (ExtendedOpcode { opcode: Opcode::PLP, addressing_mode: AddressingMode::Implied, min_cycles: 4, page_boundary_penalty: false }),
        0x29 => (ExtendedOpcode { opcode: Opcode::AND, addressing_mode: AddressingMode::Immediate, min_cycles: 2, page_boundary_penalty: false }),
        0x2a => (ExtendedOpcode { opcode: Opcode::ROL, addressing_mode: AddressingMode::Accumulator, min_cycles: 2, page_boundary_penalty: false }),
        0x2b => (ExtendedOpcode { opcode: Opcode::ANC, addressing_mode: AddressingMode::Immediate, min_cycles: 2, page_boundary_penalty: false }),
        0x2c => (ExtendedOpcode { opcode: Opcode::BIT, addressing_mode: AddressingMode::Absolute, min_cycles: 4, page_boundary_penalty: false }),
        0x2d => (ExtendedOpcode { opcode: Opcode::AND, addressing_mode: AddressingMode::Absolute, min_cycles: 4, page_boundary_penalty: false }),
        0x2e => (ExtendedOpcode { opcode: Opcode::ROL, addressing_mode: AddressingMode::Absolute, min_cycles: 6, page_boundary_penalty: false }),
        0x2f => (ExtendedOpcode { opcode: Opcode::RLA, addressing_mode: AddressingMode::Absolute, min_cycles: 6, page_boundary_penalty: false }),
        0x30 => (ExtendedOpcode { opcode: Opcode::BMI, addressing_mode: AddressingMode::Relative, min_cycles: 2, page_boundary_penalty: false }),
        0x31 => (ExtendedOpcode { opcode: Opcode::AND, addressing_mode: AddressingMode::IndirectIndexed, min_cycles: 5, page_boundary_penalty: true }),
        0x32 => (ExtendedOpcode { opcode: Opcode::STP, addressing_mode: AddressingMode::Implied, min_cycles: 2, page_boundary_penalty: false }),
        0x33 => (ExtendedOpcode { opcode: Opcode::RLA, addressing_mode: AddressingMode::IndirectIndexed, min_cycles: 8, page_boundary_penalty: false }),
        0x34 => (ExtendedOpcode { opcode: Opcode::NOP, addressing_mode: AddressingMode::ZeroPageIndexedX, min_cycles: 4, page_boundary_penalty: false }),
        0x35 => (ExtendedOpcode { opcode: Opcode::AND, addressing_mode: AddressingMode::ZeroPageIndexedX, min_cycles: 4, page_boundary_penalty: false }),
        0x36 => (ExtendedOpcode { opcode: Opcode::ROL, addressing_mode: AddressingMode::ZeroPageIndexedX, min_cycles: 6, page_boundary_penalty: false }),
        0x37 => (ExtendedOpcode { opcode: Opcode::RLA, addressing_mode: AddressingMode::ZeroPageIndexedX, min_cycles: 6, page_boundary_penalty: false }),
        0x38 => (ExtendedOpcode { opcode: Opcode::SEC, addressing_mode: AddressingMode::Implied, min_cycles: 2, page_boundary_penalty: false }),
        0x39 => (ExtendedOpcode { opcode: Opcode::AND, addressing_mode: AddressingMode::AbsoluteIndexedY, min_cycles: 4, page_boundary_penalty: true }),
        0x3a => (ExtendedOpcode { opcode: Opcode::NOP, addressing_mode: AddressingMode::Implied, min_cycles: 2, page_boundary_penalty: false }),
        0x3b => (ExtendedOpcode { opcode: Opcode::RLA, addressing_mode: AddressingMode::AbsoluteIndexedY, min_cycles: 7, page_boundary_penalty: false }),
        0x3c => (ExtendedOpcode { opcode: Opcode::NOP, addressing_mode: AddressingMode::AbsoluteIndexedX, min_cycles: 4, page_boundary_penalty: true }),
        0x3d => (ExtendedOpcode { opcode: Opcode::AND, addressing_mode: AddressingMode::AbsoluteIndexedX, min_cycles: 4, page_boundary_penalty: true }),
        0x3e => (ExtendedOpcode { opcode: Opcode::ROL, addressing_mode: AddressingMode::AbsoluteIndexedX, min_cycles: 7, page_boundary_penalty: false }),
        0x3f => (ExtendedOpcode { opcode: Opcode::RLA, addressing_mode: AddressingMode::AbsoluteIndexedX, min_cycles: 7, page_boundary_penalty: false }),
        0x40 => (ExtendedOpcode { opcode: Opcode::RTI, addressing_mode: AddressingMode::Implied, min_cycles: 6, page_boundary_penalty: false }),
        0x41 => (ExtendedOpcode { opcode: Opcode::EOR, addressing_mode: AddressingMode::IndexedIndirect, min_cycles: 6, page_boundary_penalty: false }),
        0x42 => (ExtendedOpcode { opcode: Opcode::STP, addressing_mode: AddressingMode::Implied, min_cycles: 2, page_boundary_penalty: false }),
        0x43 => (ExtendedOpcode { opcode: Opcode::SRE, addressing_mode: AddressingMode::IndexedIndirect, min_cycles: 8, page_boundary_penalty: false }),
        0x44 => (ExtendedOpcode { opcode: Opcode::NOP, addressing_mode: AddressingMode::ZeroPage, min_cycles: 3, page_boundary_penalty: false }),
        0x45 => (ExtendedOpcode { opcode: Opcode::EOR, addressing_mode: AddressingMode::ZeroPage, min_cycles: 3, page_boundary_penalty: false }),
        0x46 => (ExtendedOpcode { opcode: Opcode::LSR, addressing_mode: AddressingMode::ZeroPage, min_cycles: 5, page_boundary_penalty: false }),
        0x47 => (ExtendedOpcode { opcode: Opcode::SRE, addressing_mode: AddressingMode::ZeroPage, min_cycles: 5, page_boundary_penalty: false }),
        0x48 => (ExtendedOpcode { opcode: Opcode::PHA, addressing_mode: AddressingMode::Implied, min_cycles: 3, page_boundary_penalty: false }),
        0x49 => (ExtendedOpcode { opcode: Opcode::EOR, addressing_mode: AddressingMode::Immediate, min_cycles: 2, page_boundary_penalty: false }),
        0x4a => (ExtendedOpcode { opcode: Opcode::LSR, addressing_mode: AddressingMode::Accumulator, min_cycles: 2, page_boundary_penalty: false }),
        0x4b => (ExtendedOpcode { opcode: Opcode::ALR, addressing_mode: AddressingMode::Immediate, min_cycles: 2, page_boundary_penalty: false }),
        0x4c => (ExtendedOpcode { opcode: Opcode::JMP, addressing_mode: AddressingMode::Absolute, min_cycles: 3, page_boundary_penalty: false }),
        0x4d => (ExtendedOpcode { opcode: Opcode::EOR, addressing_mode: AddressingMode::Absolute, min_cycles: 4, page_boundary_penalty: false }),
        0x4e => (ExtendedOpcode { opcode: Opcode::LSR, addressing_mode: AddressingMode::Absolute, min_cycles: 6, page_boundary_penalty: false }),
        0x4f => (ExtendedOpcode { opcode: Opcode::SRE, addressing_mode: AddressingMode::Absolute, min_cycles: 6, page_boundary_penalty: false }),
        0x50 => (ExtendedOpcode { opcode: Opcode::BVC, addressing_mode: AddressingMode::Relative, min_cycles: 2, page_boundary_penalty: false }),
        0x51 => (ExtendedOpcode { opcode: Opcode::EOR, addressing_mode: AddressingMode::IndirectIndexed, min_cycles: 5, page_boundary_penalty: true }),
        0x52 => (ExtendedOpcode { opcode: Opcode::STP, addressing_mode: AddressingMode::Implied, min_cycles: 2, page_boundary_penalty: false }),
        0x53 => (ExtendedOpcode { opcode: Opcode::SRE, addressing_mode: AddressingMode::IndirectIndexed, min_cycles: 8, page_boundary_penalty: false }),
        0x54 => (ExtendedOpcode { opcode: Opcode::NOP, addressing_mode: AddressingMode::ZeroPageIndexedX, min_cycles: 4, page_boundary_penalty: false }),
        0x55 => (ExtendedOpcode { opcode: Opcode::EOR, addressing_mode: AddressingMode::ZeroPageIndexedX, min_cycles: 4, page_boundary_penalty: false }),
        0x56 => (ExtendedOpcode { opcode: Opcode::LSR, addressing_mode: AddressingMode::ZeroPageIndexedX, min_cycles: 6, page_boundary_penalty: false }),
        0x57 => (ExtendedOpcode { opcode: Opcode::SRE, addressing_mode: AddressingMode::ZeroPageIndexedX, min_cycles: 6, page_boundary_penalty: false }),
        0x58 => (ExtendedOpcode { opcode: Opcode::CLI, addressing_mode: AddressingMode::Implied, min_cycles: 2, page_boundary_penalty: false }),
        0x59 => (ExtendedOpcode { opcode: Opcode::EOR, addressing_mode: AddressingMode::AbsoluteIndexedY, min_cycles: 4, page_boundary_penalty: true }),
        0x5a => (ExtendedOpcode { opcode: Opcode::NOP, addressing_mode: AddressingMode::Implied, min_cycles: 2, page_boundary_penalty: false }),
        0x5b => (ExtendedOpcode { opcode: Opcode::SRE, addressing_mode: AddressingMode::AbsoluteIndexedY, min_cycles: 7, page_boundary_penalty: false }),
        0x5c => (ExtendedOpcode { opcode: Opcode::NOP, addressing_mode: AddressingMode::AbsoluteIndexedX, min_cycles: 4, page_boundary_penalty: true }),
        0x5d => (ExtendedOpcode { opcode: Opcode::EOR, addressing_mode: AddressingMode::AbsoluteIndexedX, min_cycles: 4, page_boundary_penalty: true }),
        0x5e => (ExtendedOpcode { opcode: Opcode::LSR, addressing_mode: AddressingMode::AbsoluteIndexedX, min_cycles: 7, page_boundary_penalty: false }),
        0x5f => (ExtendedOpcode { opcode: Opcode::SRE, addressing_mode: AddressingMode::AbsoluteIndexedX, min_cycles: 7, page_boundary_penalty: false }),
        0x60 => (ExtendedOpcode { opcode: Opcode::RTS, addressing_mode: AddressingMode::Implied, min_cycles: 6, page_boundary_penalty: false }),
        0x61 => (ExtendedOpcode { opcode: Opcode::ADC, addressing_mode: AddressingMode::IndexedIndirect, min_cycles: 6, page_boundary_penalty: false }),
        0x62 => (ExtendedOpcode { opcode: Opcode::STP, addressing_mode: AddressingMode::Implied, min_cycles: 2, page_boundary_penalty: false }),
        0x63 => (ExtendedOpcode { opcode: Opcode::RRA, addressing_mode: AddressingMode::IndexedIndirect, min_cycles: 8, page_boundary_penalty: false }),
        0x64 => (ExtendedOpcode { opcode: Opcode::NOP, addressing_mode: AddressingMode::ZeroPage, min_cycles: 3, page_boundary_penalty: false }),
        0x65 => (ExtendedOpcode { opcode: Opcode::ADC, addressing_mode: AddressingMode::ZeroPage, min_cycles: 3, page_boundary_penalty: false }),
        0x66 => (ExtendedOpcode { opcode: Opcode::ROR, addressing_mode: AddressingMode::ZeroPage, min_cycles: 5, page_boundary_penalty: false }),
        0x67 => (ExtendedOpcode { opcode: Opcode::RRA, addressing_mode: AddressingMode::ZeroPage, min_cycles: 5, page_boundary_penalty: false }),
        0x68 => (ExtendedOpcode { opcode: Opcode::PLA, addressing_mode: AddressingMode::Implied, min_cycles: 4, page_boundary_penalty: false }),
        0x69 => (ExtendedOpcode { opcode: Opcode::ADC, addressing_mode: AddressingMode::Immediate, min_cycles: 2, page_boundary_penalty: false }),
        0x6a => (ExtendedOpcode { opcode: Opcode::ROR, addressing_mode: AddressingMode::Accumulator, min_cycles: 2, page_boundary_penalty: false }),
        0x6b => (ExtendedOpcode { opcode: Opcode::ARR, addressing_mode: AddressingMode::Immediate, min_cycles: 2, page_boundary_penalty: false }),
        0x6c => (ExtendedOpcode { opcode: Opcode::JMP, addressing_mode: AddressingMode::Indirect, min_cycles: 5, page_boundary_penalty: false }),
        0x6d => (ExtendedOpcode { opcode: Opcode::ADC, addressing_mode: AddressingMode::Absolute, min_cycles: 4, page_boundary_penalty: false }),
        0x6e => (ExtendedOpcode { opcode: Opcode::ROR, addressing_mode: AddressingMode::Absolute, min_cycles: 6, page_boundary_penalty: false }),
        0x6f => (ExtendedOpcode { opcode: Opcode::RRA, addressing_mode: AddressingMode::Absolute, min_cycles: 6, page_boundary_penalty: false }),
        0x70 => (ExtendedOpcode { opcode: Opcode::BVS, addressing_mode: AddressingMode::Relative, min_cycles: 2, page_boundary_penalty: false }),
        0x71 => (ExtendedOpcode { opcode: Opcode::ADC, addressing_mode: AddressingMode::IndirectIndexed, min_cycles: 5, page_boundary_penalty: true }),
        0x72 => (ExtendedOpcode { opcode: Opcode::STP, addressing_mode: AddressingMode::Implied, min_cycles: 2, page_boundary_penalty: false }),
        0x73 => (ExtendedOpcode { opcode: Opcode::RRA, addressing_mode: AddressingMode::IndirectIndexed, min_cycles: 8, page_boundary_penalty: false }),
        0x74 => (ExtendedOpcode { opcode: Opcode::NOP, addressing_mode: AddressingMode::ZeroPageIndexedX, min_cycles: 4, page_boundary_penalty: false }),
        0x75 => (ExtendedOpcode { opcode: Opcode::ADC, addressing_mode: AddressingMode::ZeroPageIndexedX, min_cycles: 4, page_boundary_penalty: false }),
        0x76 => (ExtendedOpcode { opcode: Opcode::ROR, addressing_mode: AddressingMode::ZeroPageIndexedX, min_cycles: 6, page_boundary_penalty: false }),
        0x77 => (ExtendedOpcode { opcode: Opcode::RRA, addressing_mode: AddressingMode::ZeroPageIndexedX, min_cycles: 6, page_boundary_penalty: false }),
        0x78 => (ExtendedOpcode { opcode: Opcode::SEI, addressing_mode: AddressingMode::Implied, min_cycles: 2, page_boundary_penalty: false }),
        0x79 => (ExtendedOpcode { opcode: Opcode::ADC, addressing_mode: AddressingMode::AbsoluteIndexedY, min_cycles: 4, page_boundary_penalty: true }),
        0x7a => (ExtendedOpcode { opcode: Opcode::NOP, addressing_mode: AddressingMode::Implied, min_cycles: 2, page_boundary_penalty: false }),
        0x7b => (ExtendedOpcode { opcode: Opcode::RRA, addressing_mode: AddressingMode::AbsoluteIndexedY, min_cycles: 7, page_boundary_penalty: false }),
        0x7c => (ExtendedOpcode { opcode: Opcode::NOP, addressing_mode: AddressingMode::AbsoluteIndexedX, min_cycles: 4, page_boundary_penalty: true }),
        0x7d => (ExtendedOpcode { opcode: Opcode::ADC, addressing_mode: AddressingMode::AbsoluteIndexedX, min_cycles: 4, page_boundary_penalty: true }),
        0x7e => (ExtendedOpcode { opcode: Opcode::ROR, addressing_mode: AddressingMode::AbsoluteIndexedX, min_cycles: 7, page_boundary_penalty: false }),
        0x7f => (ExtendedOpcode { opcode: Opcode::RRA, addressing_mode: AddressingMode::AbsoluteIndexedX, min_cycles: 7, page_boundary_penalty: false }),
        0x80 => (ExtendedOpcode { opcode: Opcode::NOP, addressing_mode: AddressingMode::Immediate, min_cycles: 2, page_boundary_penalty: false }),
        0x81 => (ExtendedOpcode { opcode: Opcode::STA, addressing_mode: AddressingMode::IndexedIndirect, min_cycles: 6, page_boundary_penalty: false }),
        0x82 => (ExtendedOpcode { opcode: Opcode::NOP, addressing_mode: AddressingMode::Immediate, min_cycles: 2, page_boundary_penalty: false }),
        0x83 => (ExtendedOpcode { opcode: Opcode::SAX, addressing_mode: AddressingMode::IndexedIndirect, min_cycles: 6, page_boundary_penalty: false }),
        0x84 => (ExtendedOpcode { opcode: Opcode::STY, addressing_mode: AddressingMode::ZeroPage, min_cycles: 3, page_boundary_penalty: false }),
        0x85 => (ExtendedOpcode { opcode: Opcode::STA, addressing_mode: AddressingMode::ZeroPage, min_cycles: 3, page_boundary_penalty: false }),
        0x86 => (ExtendedOpcode { opcode: Opcode::STX, addressing_mode: AddressingMode::ZeroPage, min_cycles: 3, page_boundary_penalty: false }),
        0x87 => (ExtendedOpcode { opcode: Opcode::SAX, addressing_mode: AddressingMode::ZeroPage, min_cycles: 3, page_boundary_penalty: false }),
        0x88 => (ExtendedOpcode { opcode: Opcode::DEY, addressing_mode: AddressingMode::Implied, min_cycles: 2, page_boundary_penalty: false }),
        0x89 => (ExtendedOpcode { opcode: Opcode::NOP, addressing_mode: AddressingMode::Immediate, min_cycles: 2, page_boundary_penalty: false }),
        0x8a => (ExtendedOpcode { opcode: Opcode::TXA, addressing_mode: AddressingMode::Implied, min_cycles: 2, page_boundary_penalty: false }),
        0x8b => (ExtendedOpcode { opcode: Opcode::XAA, addressing_mode: AddressingMode::Immediate, min_cycles: 2, page_boundary_penalty: false }),
        0x8c => (ExtendedOpcode { opcode: Opcode::STY, addressing_mode: AddressingMode::Absolute, min_cycles: 4, page_boundary_penalty: false }),
        0x8d => (ExtendedOpcode { opcode: Opcode::STA, addressing_mode: AddressingMode::Absolute, min_cycles: 4, page_boundary_penalty: false }),
        0x8e => (ExtendedOpcode { opcode: Opcode::STX, addressing_mode: AddressingMode::Absolute, min_cycles: 4, page_boundary_penalty: false }),
        0x8f => (ExtendedOpcode { opcode: Opcode::SAX, addressing_mode: AddressingMode::Absolute, min_cycles: 4, page_boundary_penalty: false }),
        0x90 => (ExtendedOpcode { opcode: Opcode::BCC, addressing_mode: AddressingMode::Relative, min_cycles: 2, page_boundary_penalty: false }),
        0x91 => (ExtendedOpcode { opcode: Opcode::STA, addressing_mode: AddressingMode::IndirectIndexed, min_cycles: 6, page_boundary_penalty: false }),
        0x92 => (ExtendedOpcode { opcode: Opcode::STP, addressing_mode: AddressingMode::Implied, min_cycles: 2, page_boundary_penalty: false }),
        0x93 => (ExtendedOpcode { opcode: Opcode::AHX, addressing_mode: AddressingMode::IndirectIndexed, min_cycles: 6, page_boundary_penalty: false }),
        0x94 => (ExtendedOpcode { opcode: Opcode::STY, addressing_mode: AddressingMode::ZeroPageIndexedX, min_cycles: 4, page_boundary_penalty: false }),
        0x95 => (ExtendedOpcode { opcode: Opcode::STA, addressing_mode: AddressingMode::ZeroPageIndexedX, min_cycles: 4, page_boundary_penalty: false }),
        0x96 => (ExtendedOpcode { opcode: Opcode::STX, addressing_mode: AddressingMode::ZeroPageIndexedY, min_cycles: 4, page_boundary_penalty: false }),
        0x97 => (ExtendedOpcode { opcode: Opcode::SAX, addressing_mode: AddressingMode::ZeroPageIndexedY, min_cycles: 4, page_boundary_penalty: false }),
        0x98 => (ExtendedOpcode { opcode: Opcode::TYA, addressing_mode: AddressingMode::Implied, min_cycles: 2, page_boundary_penalty: false }),
        0x99 => (ExtendedOpcode { opcode: Opcode::STA, addressing_mode: AddressingMode::AbsoluteIndexedY, min_cycles: 5, page_boundary_penalty: false }),
        0x9a => (ExtendedOpcode { opcode: Opcode::TXS, addressing_mode: AddressingMode::Implied, min_cycles: 2, page_boundary_penalty: false }),
        0x9b => (ExtendedOpcode { opcode: Opcode::TAS, addressing_mode: AddressingMode::AbsoluteIndexedY, min_cycles: 5, page_boundary_penalty: false }),
        0x9c => (ExtendedOpcode { opcode: Opcode::SHY, addressing_mode: AddressingMode::AbsoluteIndexedX, min_cycles: 5, page_boundary_penalty: false }),
        0x9d => (ExtendedOpcode { opcode: Opcode::STA, addressing_mode: AddressingMode::AbsoluteIndexedX, min_cycles: 5, page_boundary_penalty: false }),
        0x9e => (ExtendedOpcode { opcode: Opcode::SHX, addressing_mode: AddressingMode::AbsoluteIndexedY, min_cycles: 5, page_boundary_penalty: false }),
        0x9f => (ExtendedOpcode { opcode: Opcode::AHX, addressing_mode: AddressingMode::AbsoluteIndexedY, min_cycles: 5, page_boundary_penalty: false }),
        0xa0 => (ExtendedOpcode { opcode: Opcode::LDY, addressing_mode: AddressingMode::Immediate, min_cycles: 2, page_boundary_penalty: false }),
        0xa1 => (ExtendedOpcode { opcode: Opcode::LDA, addressing_mode: AddressingMode::IndexedIndirect, min_cycles: 6, page_boundary_penalty: false }),
        0xa2 => (ExtendedOpcode { opcode: Opcode::LDX, addressing_mode: AddressingMode::Immediate, min_cycles: 2, page_boundary_penalty: false }),
        0xa3 => (ExtendedOpcode { opcode: Opcode::LAX, addressing_mode: AddressingMode::IndexedIndirect, min_cycles: 6, page_boundary_penalty: false }),
        0xa4 => (ExtendedOpcode { opcode: Opcode::LDY, addressing_mode: AddressingMode::ZeroPage, min_cycles: 3, page_boundary_penalty: false }),
        0xa5 => (ExtendedOpcode { opcode: Opcode::LDA, addressing_mode: AddressingMode::ZeroPage, min_cycles: 3, page_boundary_penalty: false }),
        0xa6 => (ExtendedOpcode { opcode: Opcode::LDX, addressing_mode: AddressingMode::ZeroPage, min_cycles: 3, page_boundary_penalty: false }),
        0xa7 => (ExtendedOpcode { opcode: Opcode::LAX, addressing_mode: AddressingMode::ZeroPage, min_cycles: 3, page_boundary_penalty: false }),
        0xa8 => (ExtendedOpcode { opcode: Opcode::TAY, addressing_mode: AddressingMode::Implied, min_cycles: 2, page_boundary_penalty: false }),
        0xa9 => (ExtendedOpcode { opcode: Opcode::LDA, addressing_mode: AddressingMode::Immediate, min_cycles: 2, page_boundary_penalty: false }),
        0xaa => (ExtendedOpcode { opcode: Opcode::TAX, addressing_mode: AddressingMode::Implied, min_cycles: 2, page_boundary_penalty: false }),
        0xab => (ExtendedOpcode { opcode: Opcode::LAX, addressing_mode: AddressingMode::Immediate, min_cycles: 2, page_boundary_penalty: false }),
        0xac => (ExtendedOpcode { opcode: Opcode::LDY, addressing_mode: AddressingMode::Absolute, min_cycles: 4, page_boundary_penalty: false }),
        0xad => (ExtendedOpcode { opcode: Opcode::LDA, addressing_mode: AddressingMode::Absolute, min_cycles: 4, page_boundary_penalty: false }),
        0xae => (ExtendedOpcode { opcode: Opcode::LDX, addressing_mode: AddressingMode::Absolute, min_cycles: 4, page_boundary_penalty: false }),
        0xaf => (ExtendedOpcode { opcode: Opcode::LAX, addressing_mode: AddressingMode::Absolute, min_cycles: 4, page_boundary_penalty: false }),
        0xb0 => (ExtendedOpcode { opcode: Opcode::BCS, addressing_mode: AddressingMode::Relative, min_cycles: 2, page_boundary_penalty: false }),
        0xb1 => (ExtendedOpcode { opcode: Opcode::LDA, addressing_mode: AddressingMode::IndirectIndexed, min_cycles: 5, page_boundary_penalty: true }),
        0xb2 => (ExtendedOpcode { opcode: Opcode::STP, addressing_mode: AddressingMode::Implied, min_cycles: 2, page_boundary_penalty: false }),
        0xb3 => (ExtendedOpcode { opcode: Opcode::LAX, addressing_mode: AddressingMode::IndirectIndexed, min_cycles: 5, page_boundary_penalty: true }),
        0xb4 => (ExtendedOpcode { opcode: Opcode::LDY, addressing_mode: AddressingMode::ZeroPageIndexedX, min_cycles: 4, page_boundary_penalty: false }),
        0xb5 => (ExtendedOpcode { opcode: Opcode::LDA, addressing_mode: AddressingMode::ZeroPageIndexedX, min_cycles: 4, page_boundary_penalty: false }),
        0xb6 => (ExtendedOpcode { opcode: Opcode::LDX, addressing_mode: AddressingMode::ZeroPageIndexedY, min_cycles: 4, page_boundary_penalty: false }),
        0xb7 => (ExtendedOpcode { opcode: Opcode::LAX, addressing_mode: AddressingMode::ZeroPageIndexedY, min_cycles: 4, page_boundary_penalty: false }),
        0xb8 => (ExtendedOpcode { opcode: Opcode::CLV, addressing_mode: AddressingMode::Implied, min_cycles: 2, page_boundary_penalty: false }),
        0xb9 => (ExtendedOpcode { opcode: Opcode::LDA, addressing_mode: AddressingMode::AbsoluteIndexedY, min_cycles: 4, page_boundary_penalty: true }),
        0xba => (ExtendedOpcode { opcode: Opcode::TSX, addressing_mode: AddressingMode::Implied, min_cycles: 2, page_boundary_penalty: false }),
        0xbb => (ExtendedOpcode { opcode: Opcode::LAS, addressing_mode: AddressingMode::AbsoluteIndexedY, min_cycles: 4, page_boundary_penalty: true }),
        0xbc => (ExtendedOpcode { opcode: Opcode::LDY, addressing_mode: AddressingMode::AbsoluteIndexedX, min_cycles: 4, page_boundary_penalty: true }),
        0xbd => (ExtendedOpcode { opcode: Opcode::LDA, addressing_mode: AddressingMode::AbsoluteIndexedX, min_cycles: 4, page_boundary_penalty: true }),
        0xbe => (ExtendedOpcode { opcode: Opcode::LDX, addressing_mode: AddressingMode::AbsoluteIndexedY, min_cycles: 4, page_boundary_penalty: true }),
        0xbf => (ExtendedOpcode { opcode: Opcode::LAX, addressing_mode: AddressingMode::AbsoluteIndexedY, min_cycles: 4, page_boundary_penalty: true }),
        0xc0 => (ExtendedOpcode { opcode: Opcode::CPY, addressing_mode: AddressingMode::Immediate, min_cycles: 2, page_boundary_penalty: false }),
        0xc1 => (ExtendedOpcode { opcode: Opcode::CMP, addressing_mode: AddressingMode::IndexedIndirect, min_cycles: 6, page_boundary_penalty: false }),
        0xc2 => (ExtendedOpcode { opcode: Opcode::NOP, addressing_mode: AddressingMode::Immediate, min_cycles: 2, page_boundary_penalty: false }),
        0xc3 => (ExtendedOpcode { opcode: Opcode::DCP, addressing_mode: AddressingMode::IndexedIndirect, min_cycles: 8, page_boundary_penalty: false }),
        0xc4 => (ExtendedOpcode { opcode: Opcode::CPY, addressing_mode: AddressingMode::ZeroPage, min_cycles: 3, page_boundary_penalty: false }),
        0xc5 => (ExtendedOpcode { opcode: Opcode::CMP, addressing_mode: AddressingMode::ZeroPage, min_cycles: 3, page_boundary_penalty: false }),
        0xc6 => (ExtendedOpcode { opcode: Opcode::DEC, addressing_mode: AddressingMode::ZeroPage, min_cycles: 5, page_boundary_penalty: false }),
        0xc7 => (ExtendedOpcode { opcode: Opcode::DCP, addressing_mode: AddressingMode::ZeroPage, min_cycles: 5, page_boundary_penalty: false }),
        0xc8 => (ExtendedOpcode { opcode: Opcode::INY, addressing_mode: AddressingMode::Implied, min_cycles: 2, page_boundary_penalty: false }),
        0xc9 => (ExtendedOpcode { opcode: Opcode::CMP, addressing_mode: AddressingMode::Immediate, min_cycles: 2, page_boundary_penalty: false }),
        0xca => (ExtendedOpcode { opcode: Opcode::DEX, addressing_mode: AddressingMode::Implied, min_cycles: 2, page_boundary_penalty: false }),
        0xcb => (ExtendedOpcode { opcode: Opcode::AXS, addressing_mode: AddressingMode::Immediate, min_cycles: 2, page_boundary_penalty: false }),
        0xcc => (ExtendedOpcode { opcode: Opcode::CPY, addressing_mode: AddressingMode::Absolute, min_cycles: 4, page_boundary_penalty: false }),
        0xcd => (ExtendedOpcode { opcode: Opcode::CMP, addressing_mode: AddressingMode::Absolute, min_cycles: 4, page_boundary_penalty: false }),
        0xce => (ExtendedOpcode { opcode: Opcode::DEC, addressing_mode: AddressingMode::Absolute, min_cycles: 6, page_boundary_penalty: false }),
        0xcf => (ExtendedOpcode { opcode: Opcode::DCP, addressing_mode: AddressingMode::Absolute, min_cycles: 6, page_boundary_penalty: false }),
        0xd0 => (ExtendedOpcode { opcode: Opcode::BNE, addressing_mode: AddressingMode::Relative, min_cycles: 2, page_boundary_penalty: false }),
        0xd1 => (ExtendedOpcode { opcode: Opcode::CMP, addressing_mode: AddressingMode::IndirectIndexed, min_cycles: 5, page_boundary_penalty: true }),
        0xd2 => (ExtendedOpcode { opcode: Opcode::STP, addressing_mode: AddressingMode::Implied, min_cycles: 2, page_boundary_penalty: false }),
        0xd3 => (ExtendedOpcode { opcode: Opcode::DCP, addressing_mode: AddressingMode::IndirectIndexed, min_cycles: 8, page_boundary_penalty: false }),
        0xd4 => (ExtendedOpcode { opcode: Opcode::NOP, addressing_mode: AddressingMode::ZeroPageIndexedX, min_cycles: 4, page_boundary_penalty: false }),
        0xd5 => (ExtendedOpcode { opcode: Opcode::CMP, addressing_mode: AddressingMode::ZeroPageIndexedX, min_cycles: 4, page_boundary_penalty: false }),
        0xd6 => (ExtendedOpcode { opcode: Opcode::DEC, addressing_mode: AddressingMode::ZeroPageIndexedX, min_cycles: 6, page_boundary_penalty: false }),
        0xd7 => (ExtendedOpcode { opcode: Opcode::DCP, addressing_mode: AddressingMode::ZeroPageIndexedX, min_cycles: 6, page_boundary_penalty: false }),
        0xd8 => (ExtendedOpcode { opcode: Opcode::CLD, addressing_mode: AddressingMode::Implied, min_cycles: 2, page_boundary_penalty: false }),
        0xd9 => (ExtendedOpcode { opcode: Opcode::CMP, addressing_mode: AddressingMode::AbsoluteIndexedY, min_cycles: 4, page_boundary_penalty: true }),
        0xda => (ExtendedOpcode { opcode: Opcode::NOP, addressing_mode: AddressingMode::Implied, min_cycles: 2, page_boundary_penalty: false }),
        0xdb => (ExtendedOpcode { opcode: Opcode::DCP, addressing_mode: AddressingMode::AbsoluteIndexedY, min_cycles: 7, page_boundary_penalty: false }),
        0xdc => (ExtendedOpcode { opcode: Opcode::NOP, addressing_mode: AddressingMode::AbsoluteIndexedX, min_cycles: 4, page_boundary_penalty: true }),
        0xdd => (ExtendedOpcode { opcode: Opcode::CMP, addressing_mode: AddressingMode::AbsoluteIndexedX, min_cycles: 4, page_boundary_penalty: true }),
        0xde => (ExtendedOpcode { opcode: Opcode::DEC, addressing_mode: AddressingMode::AbsoluteIndexedX, min_cycles: 7, page_boundary_penalty: false }),
        0xdf => (ExtendedOpcode { opcode: Opcode::DCP, addressing_mode: AddressingMode::AbsoluteIndexedX, min_cycles: 7, page_boundary_penalty: false }),
        0xe0 => (ExtendedOpcode { opcode: Opcode::CPX, addressing_mode: AddressingMode::Immediate, min_cycles: 2, page_boundary_penalty: false }),
        0xe1 => (ExtendedOpcode { opcode: Opcode::SBC, addressing_mode: AddressingMode::IndexedIndirect, min_cycles: 6, page_boundary_penalty: false }),
        0xe2 => (ExtendedOpcode { opcode: Opcode::NOP, addressing_mode: AddressingMode::Immediate, min_cycles: 2, page_boundary_penalty: false }),
        0xe3 => (ExtendedOpcode { opcode: Opcode::ISB, addressing_mode: AddressingMode::IndexedIndirect, min_cycles: 8, page_boundary_penalty: false }),
        0xe4 => (ExtendedOpcode { opcode: Opcode::CPX, addressing_mode: AddressingMode::ZeroPage, min_cycles: 3, page_boundary_penalty: false }),
        0xe5 => (ExtendedOpcode { opcode: Opcode::SBC, addressing_mode: AddressingMode::ZeroPage, min_cycles: 3, page_boundary_penalty: false }),
        0xe6 => (ExtendedOpcode { opcode: Opcode::INC, addressing_mode: AddressingMode::ZeroPage, min_cycles: 5, page_boundary_penalty: false }),
        0xe7 => (ExtendedOpcode { opcode: Opcode::ISB, addressing_mode: AddressingMode::ZeroPage, min_cycles: 5, page_boundary_penalty: false }),
        0xe8 => (ExtendedOpcode { opcode: Opcode::INX, addressing_mode: AddressingMode::Implied, min_cycles: 2, page_boundary_penalty: false }),
        0xe9 => (ExtendedOpcode { opcode: Opcode::SBC, addressing_mode: AddressingMode::Immediate, min_cycles: 2, page_boundary_penalty: false }),
        0xea => (ExtendedOpcode { opcode: Opcode::NOP, addressing_mode: AddressingMode::Implied, min_cycles: 2, page_boundary_penalty: false }),
        0xeb => (ExtendedOpcode { opcode: Opcode::SBC, addressing_mode: AddressingMode::Immediate, min_cycles: 2, page_boundary_penalty: false }),
        0xec => (ExtendedOpcode { opcode: Opcode::CPX, addressing_mode: AddressingMode::Absolute, min_cycles: 4, page_boundary_penalty: false }),
        0xed => (ExtendedOpcode { opcode: Opcode::SBC, addressing_mode: AddressingMode::Absolute, min_cycles: 4, page_boundary_penalty: false }),
        0xee => (ExtendedOpcode { opcode: Opcode::INC, addressing_mode: AddressingMode::Absolute, min_cycles: 6, page_boundary_penalty: false }),
        0xef => (ExtendedOpcode { opcode: Opcode::ISB, addressing_mode: AddressingMode::Absolute, min_cycles: 6, page_boundary_penalty: false }),
        0xf0 => (ExtendedOpcode { opcode: Opcode::BEQ, addressing_mode: AddressingMode::Relative, min_cycles: 2, page_boundary_penalty: false }),
        0xf1 => (ExtendedOpcode { opcode: Opcode::SBC, addressing_mode: AddressingMode::IndirectIndexed, min_cycles: 5, page_boundary_penalty: true }),
        0xf2 => (ExtendedOpcode { opcode: Opcode::STP, addressing_mode: AddressingMode::Implied, min_cycles: 2, page_boundary_penalty: false }),
        0xf3 => (ExtendedOpcode { opcode: Opcode::ISB, addressing_mode: AddressingMode::IndirectIndexed, min_cycles: 8, page_boundary_penalty: false }),
        0xf4 => (ExtendedOpcode { opcode: Opcode::NOP, addressing_mode: AddressingMode::ZeroPageIndexedX, min_cycles: 4, page_boundary_penalty: false }),
        0xf5 => (ExtendedOpcode { opcode: Opcode::SBC, addressing_mode: AddressingMode::ZeroPageIndexedX, min_cycles: 4, page_boundary_penalty: false }),
        0xf6 => (ExtendedOpcode { opcode: Opcode::INC, addressing_mode: AddressingMode::ZeroPageIndexedX, min_cycles: 6, page_boundary_penalty: false }),
        0xf7 => (ExtendedOpcode { opcode: Opcode::ISB, addressing_mode: AddressingMode::ZeroPageIndexedX, min_cycles: 6, page_boundary_penalty: false }),
        0xf8 => (ExtendedOpcode { opcode: Opcode::SED, addressing_mode: AddressingMode::Implied, min_cycles: 2, page_boundary_penalty: false }),
        0xf9 => (ExtendedOpcode { opcode: Opcode::SBC, addressing_mode: AddressingMode::AbsoluteIndexedY, min_cycles: 4, page_boundary_penalty: true }),
        0xfa => (ExtendedOpcode { opcode: Opcode::NOP, addressing_mode: AddressingMode::Implied, min_cycles: 2, page_boundary_penalty: false }),
        0xfb => (ExtendedOpcode { opcode: Opcode::ISB, addressing_mode: AddressingMode::AbsoluteIndexedY, min_cycles: 7, page_boundary_penalty: false }),
        0xfc => (ExtendedOpcode { opcode: Opcode::NOP, addressing_mode: AddressingMode::AbsoluteIndexedX, min_cycles: 4, page_boundary_penalty: true }),
        0xfd => (ExtendedOpcode { opcode: Opcode::SBC, addressing_mode: AddressingMode::AbsoluteIndexedX, min_cycles: 4, page_boundary_penalty: true }),
        0xfe => (ExtendedOpcode { opcode: Opcode::INC, addressing_mode: AddressingMode::AbsoluteIndexedX, min_cycles: 7, page_boundary_penalty: false }),
        0xff => (ExtendedOpcode { opcode: Opcode::ISB, addressing_mode: AddressingMode::AbsoluteIndexedX, min_cycles: 7, page_boundary_penalty: false }),
    }
}

/// The operand bytes of a decoded instruction, per addressing mode, with
/// every intermediate of the address calculation.
#[derive(Clone, Copy, Debug)]
pub enum AddressInfo {
    Implied,
    Accumulator,
    Absolute { address: u16 },
    AbsoluteIndexedX { indirect: u16, address: u16 },
    AbsoluteIndexedY { indirect: u16, address: u16 },
    Immediate { address: u16 },
    IndexedIndirect { offset: u8, indirect: u16, address: u16 },
    Indirect { indirect: u16, address: u16 },
    IndirectIndexed { offset: u8, indirect: u16, address: u16 },
    Relative { offset: u8, address: u16 },
    ZeroPage { address: u8 },
    ZeroPageIndexedX { offset: u8, address: u16 },
    ZeroPageIndexedY { offset: u8, address: u16 },
}

/// One fully decoded instruction: its table row, its resolved operand, its
/// width in bytes, and whether an indexed operand crossed a page.
#[derive(Clone, Copy, Debug)]
pub struct DecodedInstruction {
    pub extended_opcode: ExtendedOpcode,
    pub address_info: AddressInfo,
    pub width: u8,
    pub page_boundary_hit: bool,
    pub final_address: Option<u16>,
}

impl Opcode {
    /// The mnemonic's three ASCII letters.
    pub open spec fn spec_mnemonic(self) -> Seq<u8> {
        match self {
            Opcode::ADC => seq![0x41, 0x44, 0x43],
            Opcode::AHX => seq![0x41, 0x48, 0x58],
            Opcode::ALR => seq![0x41, 0x4c, 0x52],
            Opcode::ANC => seq![0x41, 0x4e, 0x43],
            Opcode::AND => seq![0x41, 0x4e, 0x44],
            Opcode::ARR => seq![0x41, 0x52, 0x52],
            Opcode::ASL => seq![0x41, 0x53, 0x4c],
            Opcode::AXS => seq![0x41, 0x58, 0x53],
            Opcode::BCC => seq![0x42, 0x43, 0x43],
            Opcode::BCS => seq![0x42, 0x43, 0x53],
            Opcode::BEQ => seq![0x42, 0x45, 0x51],
            Opcode::BIT => seq![0x42, 0x49, 0x54],
            Opcode::BMI => seq![0x42, 0x4d, 0x49],
            Opcode::BNE => seq![0x42, 0x4e, 0x45],
            Opcode::BPL => seq![0x42, 0x50, 0x4c],
            Opcode::BRK => seq![0x42, 0x52, 0x4b],
            Opcode::BVC => seq![0x42, 0x56, 0x43],
            Opcode::BVS => seq![0x42, 0x56, 0x53],
            Opcode::CLC => seq![0x43, 0x4c, 0x43],
            Opcode::CLD => seq![0x43, 0x4c, 0x44],
            Opcode::CLI => seq![0x43, 0x4c, 0x49],
            Opcode::CLV => seq![0x43, 0x4c, 0x56],
            Opcode::CMP => seq![0x43, 0x4d, 0x50],
            Opcode::CPX => seq![0x43, 0x50, 0x58],
            Opcode::CPY => seq![0x43, 0x50, 0x59],
            Opcode::DCP => seq![0x44, 0x43, 0x50],
            Opcode::DEC => seq![0x44, 0x45, 0x43],
            Opcode::DEX => seq![0x44, 0x45, 0x58],
            Opcode::DEY => seq![0x44, 0x45, 0x59],
            Opcode::EOR => seq![0x45, 0x4f, 0x52],
            Opcode::INC => seq![0x49, 0x4e, 0x43],
            Opcode::INX => seq![0x49, 0x4e, 0x58],
            Opcode::INY => seq![0x49, 0x4e, 0x59],
            Opcode::ISB => seq![0x49, 0x53, 0x42],
            Opcode::JMP => seq![0x4a, 0x4d, 0x50],
            Opcode::JSR => seq![0x4a, 0x53, 0x52],
            Opcode::LAS => seq![0x4c, 0x41, 0x53],
            Opcode::LAX => seq![0x4c, 0x41, 0x58],
            Opcode::LDA => seq![0x4c, 0x44, 0x41],
            Opcode::LDX => seq![0x4c, 0x44, 0x58],
            Opcode::LDY => seq![0x4c, 0x44, 0x59],
            Opcode::LSR => seq![0x4c, 0x53, 0x52],
            Opcode::NOP => seq![0x4e, 0x4f, 0x50],
            Opcode::ORA => seq![0x4f, 0x52, 0x41],
            Opcode::PHA => seq![0x50, 0x48, 0x41],
            Opcode::PHP => seq![0x50, 0x48, 0x50],
            Opcode::PLA => seq![0x50, 0x4c, 0x41],
            Opcode::PLP => seq![0x50, 0x4c, 0x50],
            Opcode::RLA => seq![0x52, 0x4c, 0x41],
            Opcode::ROL => seq![0x52, 0x4f, 0x4c],
            Opcode::ROR => seq![0x52, 0x4f, 0x52],
            Opcode::RRA => seq![0x52, 0x52, 0x41],
            Opcode::RTI => seq![0x52, 0x54, 0x49],
            Opcode::RTS => seq![0x52, 0x54, 0x53],
            Opcode::SAX => seq![0x53, 0x41, 0x58],
            Opcode::SBC => seq![0x53, 0x42, 0x43],
            Opcode::SEC => seq![0x53, 0x45, 0x43],
            Opcode::SED => seq![0x53, 0x45, 0x44],
            Opcode::SEI => seq![0x53, 0x45, 0x49],
            Opcode::SHX => seq![0x53, 0x48, 0x58],
            Opcode::SHY => seq![0x53, 0x48, 0x59],
            Opcode::SLO => seq![0x53, 0x4c, 0x4f],
            Opcode::SRE => seq![0x53, 0x52, 0x45],
            Opcode::STA => seq![0x53, 0x54, 0x41],
            Opcode::STP => seq![0x53, 0x54, 0x50],
            Opcode::STX => seq![0x53, 0x54, 0x58],
            Opcode::STY => seq![0x53, 0x54, 0x59],
            Opcode::TAS => seq![0x54, 0x41, 0x53],
            Opcode::TAX => seq![0x54, 0x41, 0x58],
            Opcode::TAY => seq![0x54, 0x41, 0x59],
            Opcode::TSX => seq![0x54, 0x53, 0x58],
            Opcode::TXA => seq![0x54, 0x58, 0x41],
            Opcode::TXS => seq![0x54, 0x58, 0x53],
            Opcode::TYA => seq![0x54, 0x59, 0x41],
            Opcode::XAA => seq![0x58, 0x41, 0x41],
        }
    }

    /// The mnemonic's three ASCII letters, for the trace line.
    pub fn mnemonic_bytes(self) -> (r: [u8; 3])
        ensures
            r@ == self.spec_mnemonic(),
    {
        match self {
            Opcode::ADC => {
                let r: [u8; 3] = [0x41, 0x44, 0x43];
                proof {
                    assert(r@ =~= self.spec_mnemonic());
                }
                r
            },
            Opcode::AHX => {
                let r: [u8; 3] = [0x41, 0x48, 0x58];
                proof {
                    assert(r@ =~= self.spec_mnemonic());
                }
                r
            },
            Opcode::ALR => {
                let r: [u8; 3] = [0x41, 0x4c, 0x52];
                proof {
                    assert(r@ =~= self.spec_mnemonic());
                }
                r
            },
            Opcode::ANC => {
                let r: [u8; 3] = [0x41, 0x4e, 0x43];
                proof {
                    assert(r@ =~= self.spec_mnemonic());
                }
                r
            },
            Opcode::AND => {
                let r: [u8; 3] = [0x41, 0x4e, 0x44];
                proof {
                    assert(r@ =~= self.spec_mnemonic());
                }
                r
            },
            Opcode::ARR => {
                let r: [u8; 3] = [0x41, 0x52, 0x52];
                proof {
                    assert(r@ =~= self.spec_mnemonic());
                }
                r
            },
            Opcode::ASL => {
                let r: [u8; 3] = [0x41, 0x53, 0x4c];
                proof {
                    assert(r@ =~= self.spec_mnemonic());
                }
                r
            },
            Opcode::AXS => {
                let r: [u8; 3] = [0x41, 0x58, 0x53];
                proof {
                    assert(r@ =~= self.spec_mnemonic());
                }
                r
            },
            Opcode::BCC => {
                let r: [u8; 3] = [0x42, 0x43, 0x43];
                proof {
                    assert(r@ =~= self.spec_mnemonic());
                }
                r
            },
            Opcode::BCS => {
                let r: [u8; 3] = [0x42, 0x43, 0x53];
                proof {
                    assert(r@ =~= self.spec_mnemonic());
                }
                r
            },
            Opcode::BEQ => {
                let r: [u8; 3] = [0x42, 0x45, 0x51];
                proof {
                    assert(r@ =~= self.spec_mnemonic());
                }
                r
            },
            Opcode::BIT => {
                let r: [u8; 3] = [0x42, 0x49, 0x54];
                proof {
                    assert(r@ =~= self.spec_mnemonic());
                }
                r
            },
            Opcode::BMI => {
                let r: [u8; 3] = [0x42, 0x4d, 0x49];
                proof {
                    assert(r@ =~= self.spec_mnemonic());
                }
                r
            },
            Opcode::BNE => {
                let r: [u8; 3] = [0x42, 0x4e, 0x45];
                proof {
                    assert(r@ =~= self.spec_mnemonic());
                }
                r
            },
            Opcode::BPL => {
                let r: [u8; 3] = [0x42, 0x50, 0x4c];
                proof {
                    assert(r@ =~= self.spec_mnemonic());
                }
                r
            },
            Opcode::BRK => {
                let r: [u8; 3] = [0x42, 0x52, 0x4b];
                proof {
                    assert(r@ =~= self.spec_mnemonic());
                }
                r
            },
            Opcode::BVC => {
                let r: [u8; 3] = [0x42, 0x56, 0x43];
                proof {
                    assert(r@ =~= self.spec_mnemonic());
                }
                r
            },
            Opcode::BVS => {
                let r: [u8; 3] = [0x42, 0x56, 0x53];
                proof {
                    assert(r@ =~= self.spec_mnemonic());
                }
                r
            },
            Opcode::CLC => {
                let r: [u8; 3] = [0x43, 0x4c, 0x43];
                proof {
                    assert(r@ =~= self.spec_mnemonic());
                }
                r
            },
            Opcode::CLD => {
                let r: [u8; 3] = [0x43, 0x4c, 0x44];
                proof {
                    assert(r@ =~= self.spec_mnemonic());
                }
                r
            },
            Opcode::CLI => {
                let r: [u8; 3] = [0x43, 0x4c, 0x49];
                proof {
                    assert(r@ =~= self.spec_mnemonic());
                }
                r
            },
            Opcode::CLV => {
                let r: [u8; 3] = [0x43, 0x4c, 0x56];
                proof {
                    assert(r@ =~= self.spec_mnemonic());
                }
                r
            },
            Opcode::CMP => {
                let r: [u8; 3] = [0x43, 0x4d, 0x50];
                proof {
                    assert(r@ =~= self.spec_mnemonic());
                }
                r
            },
            Opcode::CPX => {
                let r: [u8; 3] = [0x43, 0x50, 0x58];
                proof {
                    assert(r@ =~= self.spec_mnemonic());
                }
                r
            },
            Opcode::CPY => {
                let r: [u8; 3] = [0x43, 0x50, 0x59];
                proof {
                    assert(r@ =~= self.spec_mnemonic());
                }
                r
            },
            Opcode::DCP => {
                let r: [u8; 3] = [0x44, 0x43, 0x50];
                proof {
                    assert(r@ =~= self.spec_mnemonic());
                }
                r
            },
            Opcode::DEC => {
                let r: [u8; 3] = [0x44, 0x45, 0x43];
                proof {
                    assert(r@ =~= self.spec_mnemonic());
                }
                r
            },
            Opcode::DEX => {
                let r: [u8; 3] = [0x44, 0x45, 0x58];
                proof {
                    assert(r@ =~= self.spec_mnemonic());
                }
                r
            },
            Opcode::DEY => {
                let r: [u8; 3] = [0x44, 0x45, 0x59];
                proof {
                    assert(r@ =~= self.spec_mnemonic());
                }
                r
            },
            Opcode::EOR => {
                let r: [u8; 3] = [0x45, 0x4f, 0x52];
                proof {
                    assert(r@ =~= self.spec_mnemonic());
                }
                r
            },
            Opcode::INC => {
                let r: [u8; 3] = [0x49, 0x4e, 0x43];
                proof {
                    assert(r@ =~= self.spec_mnemonic());
                }
                r
            },
            Opcode::INX => {
                let r: [u8; 3] = [0x49, 0x4e, 0x58];
                proof {
                    assert(r@ =~= self.spec_mnemonic());
                }
                r
            },
            Opcode::INY => {
                let r: [u8; 3] = [0x49, 0x4e, 0x59];
                proof {
                    assert(r@ =~= self.spec_mnemonic());
                }
                r
            },
            Opcode::ISB => {
                let r: [u8; 3] = [0x49, 0x53, 0x42];
                proof {
                    assert(r@ =~= self.spec_mnemonic());
                }
                r
            },
            Opcode::JMP => {
                let r: [u8; 3] = [0x4a, 0x4d, 0x50];
                proof {
                    assert(r@ =~= self.spec_mnemonic());
                }
                r
            },
            Opcode::JSR => {
                let r: [u8; 3] = [0x4a, 0x53, 0x52];
                proof {
                    assert(r@ =~= self.spec_mnemonic());
                }
                r
            },
            Opcode::LAS => {
                let r: [u8; 3] = [0x4c, 0x41, 0x53];
                proof {
                    assert(r@ =~= self.spec_mnemonic());
                }
                r
            },
            Opcode::LAX => {
                let r: [u8; 3] = [0x4c, 0x41, 0x58];
                proof {
                    assert(r@ =~= self.spec_mnemonic());
                }
                r
            },
            Opcode::LDA => {
                let r: [u8; 3] = [0x4c, 0x44, 0x41];
                proof {
                    assert(r@ =~= self.spec_mnemonic());
                }
                r
            },
            Opcode::LDX => {
                let r: [u8; 3] = [0x4c, 0x44, 0x58];
                proof {
                    assert(r@ =~= self.spec_mnemonic());
                }
                r
            },
            Opcode::LDY => {
                let r: [u8; 3] = [0x4c, 0x44, 0x59];
                proof {
                    assert(r@ =~= self.spec_mnemonic());
                }
                r
            },
            Opcode::LSR => {
                let r: [u8; 3] = [0x4c, 0x53, 0x52];
                proof {
                    assert(r@ =~= self.spec_mnemonic());
                }
                r
            },
            Opcode::NOP => {
                let r: [u8; 3] = [0x4e, 0x4f, 0x50];
                proof {
                    assert(r@ =~= self.spec_mnemonic());
                }
                r
            },
            Opcode::ORA => {
                let r: [u8; 3] = [0x4f, 0x52, 0x41];
                proof {
                    assert(r@ =~= self.spec_mnemonic());
                }
                r
            },
            Opcode::PHA => {
                let r: [u8; 3] = [0x50, 0x48, 0x41];
                proof {
                    assert(r@ =~= self.spec_mnemonic());
                }
                r
            },
            Opcode::PHP => {
                let r: [u8; 3] = [0x50, 0x48, 0x50];
                proof {
                    assert(r@ =~= self.spec_mnemonic());
                }
                r
            },
            Opcode::PLA => {
                let r: [u8; 3] = [0x50, 0x4c, 0x41];
                proof {
                    assert(r@ =~= self.spec_mnemonic());
                }
                r
            },
            Opcode::PLP => {
                let r: [u8; 3] = [0x50, 0x4c, 0x50];
                proof {
                    assert(r@ =~= self.spec_mnemonic());
                }
                r
            },
            Opcode::RLA => {
                let r: [u8; 3] = [0x52, 0x4c, 0x41];
                proof {
                    assert(r@ =~= self.spec_mnemonic());
                }
                r
            },
            Opcode::ROL => {
                let r: [u8; 3] = [0x52, 0x4f, 0x4c];
                proof {
                    assert(r@ =~= self.spec_mnemonic());
                }
                r
            },
            Opcode::ROR => {
                let r: [u8; 3] = [0x52, 0x4f, 0x52];
                proof {
                    assert(r@ =~= self.spec_mnemonic());
                }
                r
            },
            Opcode::RRA => {
                let r: [u8; 3] = [0x52, 0x52, 0x41];
                proof {
                    assert(r@ =~= self.spec_mnemonic());
                }
                r
            },
            Opcode::RTI => {
                let r: [u8; 3] = [0x52, 0x54, 0x49];
                proof {
                    assert(r@ =~= self.spec_mnemonic());
                }
                r
            },
            Opcode::RTS => {
                let r: [u8; 3] = [0x52, 0x54, 0x53];
                proof {
                    assert(r@ =~= self.spec_mnemonic());
                }
                r
            },
            Opcode::SAX => {
                let r: [u8; 3] = [0x53, 0x41, 0x58];
                proof {
                    assert(r@ =~= self.spec_mnemonic());
                }
                r
            },
            Opcode::SBC => {
                let r: [u8; 3] = [0x53, 0x42, 0x43];
                proof {
                    assert(r@ =~= self.spec_mnemonic());
                }
                r
            },
            Opcode::SEC => {
                let r: [u8; 3] = [0x53, 0x45, 0x43];
                proof {
                    assert(r@ =~= self.spec_mnemonic());
                }
                r
            },
            Opcode::SED => {
                let r: [u8; 3] = [0x53, 0x45, 0x44];
                proof {
                    assert(r@ =~= self.spec_mnemonic());
                }
                r
            },
            Opcode::SEI => {
                let r: [u8; 3] = [0x53, 0x45, 0x49];
                proof {
                    assert(r@ =~= self.spec_mnemonic());
                }
                r
            },
            Opcode::SHX => {
                let r: [u8; 3] = [0x53, 0x48, 0x58];
                proof {
                    assert(r@ =~= self.spec_mnemonic());
                }
                r
            },
            Opcode::SHY => {
                let r: [u8; 3] = [0x53, 0x48, 0x59];
                proof {
                    assert(r@ =~= self.spec_mnemonic());
                }
                r
            },
            Opcode::SLO => {
                let r: [u8; 3] = [0x53, 0x4c, 0x4f];
                proof {
                    assert(r@ =~= self.spec_mnemonic());
                }
                r
            },
            Opcode::SRE => {
                let r: [u8; 3] = [0x53, 0x52, 0x45];
                proof {
                    assert(r@ =~= self.spec_mnemonic());
                }
                r
            },
            Opcode::STA => {
                let r: [u8; 3] = [0x53, 0x54, 0x41];
                proof {
                    assert(r@ =~= self.spec_mnemonic());
                }
                r
            },
            Opcode::STP => {
                let r: [u8; 3] = [0x53, 0x54, 0x50];
                proof {
                    assert(r@ =~= self.spec_mnemonic());
                }
                r
            },
            Opcode::STX => {
                let r: [u8; 3] = [0x53, 0x54, 0x58];
                proof {
                    assert(r@ =~= self.spec_mnemonic());
                }
                r
            },
            Opcode::STY => {
                let r: [u8; 3] = [0x53, 0x54, 0x59];
                proof {
                    assert(r@ =~= self.spec_mnemonic());
                }
                r
            },
            Opcode::TAS => {
                let r: [u8; 3] = [0x54, 0x41, 0x53];
                proof {
                    assert(r@ =~= self.spec_mnemonic());
                }
                r
            },
            Opcode::TAX => {
                let r: [u8; 3] = [0x54, 0x41, 0x58];
                proof {
                    assert(r@ =~= self.spec_mnemonic());
                }
                r
            },
            Opcode::TAY => {
                let r: [u8; 3] = [0x54, 0x41, 0x59];
                proof {
                    assert(r@ =~= self.spec_mnemonic());
                }
                r
            },
            Opcode::TSX => {
                let r: [u8; 3] = [0x54, 0x53, 0x58];
                proof {
                    assert(r@ =~= self.spec_mnemonic());
                }
                r
            },
            Opcode::TXA => {
                let r: [u8; 3] = [0x54, 0x58, 0x41];
                proof {
                    assert(r@ =~= self.spec_mnemonic());
                }
                r
            },
            Opcode::TXS => {
                let r: [u8; 3] = [0x54, 0x58, 0x53];
                proof {
                    assert(r@ =~= self.spec_mnemonic());
                }
                r
            },
            Opcode::TYA => {
                let r: [u8; 3] = [0x54, 0x59, 0x41];
                proof {
                    assert(r@ =~= self.spec_mnemonic());
                }
                r
            },
            Opcode::XAA => {
                let r: [u8; 3] = [0x58, 0x41, 0x41];
                proof {
                    assert(r@ =~= self.spec_mnemonic());
                }
                r
            },
        }
    }
}

} // verus!

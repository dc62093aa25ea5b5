//! The opcode table of the 6502: for each opcode byte that the interpreter
//! knows, its mnemonic, its length in bytes, its base cost in cycles and its
//! addressing mode.
//!
//! Besides the documented instructions the table holds the undocumented ones
//! that test programs commonly exercise. The cycle counts leave out the
//! penalty for crossing a page.

use crate::cpu::AddressingMode;
use vstd::prelude::*;

verus! {

/// One row of the opcode table.
#[derive(Clone, Copy, Debug)]
pub struct OpCode {
    pub code: u8,
    pub name: &'static str,
    pub len: u8,
    pub cycles: u8,
    pub mode: AddressingMode,
}

impl OpCode {
    pub fn new(
        code: u8,
        name: &'static str,
        len: u8,
        cycles: u8,
        mode: AddressingMode,
    ) -> (opcode: Self)
        ensures
            opcode == (OpCode { code, name, len, cycles, mode }),
    {
        OpCode { code, name, len, cycles, mode }
    }
}

/// The row of the table for the opcode byte `code`, if it has one. The rows
/// stand instruction by instruction, the documented ones first.
///
/// The table is long, so it is kept out of sight of proofs that do not ask
/// for it.
#[verifier::opaque]
pub open spec fn entry(code: u8) -> Option<OpCode> {
    match code {
        0x61 => Some(OpCode { code: 0x61, name: "ADC", len: 2, cycles: 6, mode: AddressingMode::IndirectX }),
        0x65 => Some(OpCode { code: 0x65, name: "ADC", len: 2, cycles: 3, mode: AddressingMode::ZeroPage }),
        0x69 => Some(OpCode { code: 0x69, name: "ADC", len: 2, cycles: 2, mode: AddressingMode::Immediate }),
        0x6D => Some(OpCode { code: 0x6D, name: "ADC", len: 3, cycles: 4, mode: AddressingMode::Absolute }),
        0x71 => Some(OpCode { code: 0x71, name: "ADC", len: 2, cycles: 5, mode: AddressingMode::IndirectY }),
        0x75 => Some(OpCode { code: 0x75, name: "ADC", len: 2, cycles: 4, mode: AddressingMode::ZeroPageX }),
        0x79 => Some(OpCode { code: 0x79, name: "ADC", len: 3, cycles: 4, mode: AddressingMode::AbsoluteY }),
        0x7D => Some(OpCode { code: 0x7D, name: "ADC", len: 3, cycles: 4, mode: AddressingMode::AbsoluteX }),
        0x21 => Some(OpCode { code: 0x21, name: "AND", len: 2, cycles: 6, mode: AddressingMode::IndirectX }),
        0x25 => Some(OpCode { code: 0x25, name: "AND", len: 2, cycles: 3, mode: AddressingMode::ZeroPage }),
        0x29 => Some(OpCode { code: 0x29, name: "AND", len: 2, cycles: 2, mode: AddressingMode::Immediate }),
        0x2D => Some(OpCode { code: 0x2D, name: "AND", len: 3, cycles: 4, mode: AddressingMode::Absolute }),
        0x31 => Some(OpCode { code: 0x31, name: "AND", len: 2, cycles: 5, mode: AddressingMode::IndirectY }),
        0x35 => Some(OpCode { code: 0x35, name: "AND", len: 2, cycles: 4, mode: AddressingMode::ZeroPageX }),
        0x39 => Some(OpCode { code: 0x39, name: "AND", len: 3, cycles: 4, mode: AddressingMode::AbsoluteY }),
        0x3D => Some(OpCode { code: 0x3D, name: "AND", len: 3, cycles: 4, mode: AddressingMode::AbsoluteX }),
        0x06 => Some(OpCode { code: 0x06, name: "ASL", len: 2, cycles: 5, mode: AddressingMode::ZeroPage }),
        0x0A => Some(OpCode { code: 0x0A, name: "ASL", len: 1, cycles: 2, mode: AddressingMode::NoneAddressing }),
        0x0E => Some(OpCode { code: 0x0E, name: "ASL", len: 3, cycles: 6, mode: AddressingMode::Absolute }),
        0x16 => Some(OpCode { code: 0x16, name: "ASL", len: 2, cycles: 6, mode: AddressingMode::ZeroPageX }),
        0x1E => Some(OpCode { code: 0x1E, name: "ASL", len: 3, cycles: 7, mode: AddressingMode::AbsoluteX }),
        0x90 => Some(OpCode { code: 0x90, name: "BCC", len: 2, cycles: 2, mode: AddressingMode::NoneAddressing }),
        0xB0 => Some(OpCode { code: 0xB0, name: "BCS", len: 2, cycles: 2, mode: AddressingMode::NoneAddressing }),
        0xF0 => Some(OpCode { code: 0xF0, name: "BEQ", len: 2, cycles: 2, mode: AddressingMode::NoneAddressing }),
        0x24 => Some(OpCode { code: 0x24, name: "BIT", len: 2, cycles: 3, mode: AddressingMode::ZeroPage }),
        0x2C => Some(OpCode { code: 0x2C, name: "BIT", len: 3, cycles: 4, mode: AddressingMode::Absolute }),
        0x30 => Some(OpCode { code: 0x30, name: "BMI", len: 2, cycles: 2, mode: AddressingMode::NoneAddressing }),
        0xD0 => Some(OpCode { code: 0xD0, name: "BNE", len: 2, cycles: 2, mode: AddressingMode::NoneAddressing }),
        0x10 => Some(OpCode { code: 0x10, name: "BPL", len: 2, cycles: 2, mode: AddressingMode::NoneAddressing }),
        0x00 => Some(OpCode { code: 0x00, name: "BRK", len: 1, cycles: 7, mode: AddressingMode::NoneAddressing }),
        0x50 => Some(OpCode { code: 0x50, name: "BVC", len: 2, cycles: 2, mode: AddressingMode::NoneAddressing }),
        0x70 => Some(OpCode { code: 0x70, name: "BVS", len: 2, cycles: 2, mode: AddressingMode::NoneAddressing }),
        0x18 => Some(OpCode { code: 0x18, name: "CLC", len: 1, cycles: 2, mode: AddressingMode::NoneAddressing }),
        0xD8 => Some(OpCode { code: 0xD8, name: "CLD", len: 1, cycles: 2, mode: AddressingMode::NoneAddressing }),
        0x58 => Some(OpCode { code: 0x58, name: "CLI", len: 1, cycles: 2, mode: AddressingMode::NoneAddressing }),
        0xB8 => Some(OpCode { code: 0xB8, name: "CLV", len: 1, cycles: 2, mode: AddressingMode::NoneAddressing }),
        0xC1 => Some(OpCode { code: 0xC1, name: "CMP", len: 2, cycles: 6, mode: AddressingMode::IndirectX }),
        0xC5 => Some(OpCode { code: 0xC5, name: "CMP", len: 2, cycles: 3, mode: AddressingMode::ZeroPage }),
        0xC9 => Some(OpCode { code: 0xC9, name: "CMP", len: 2, cycles: 2, mode: AddressingMode::Immediate }),
        0xCD => Some(OpCode { code: 0xCD, name: "CMP", len: 3, cycles: 4, mode: AddressingMode::Absolute }),
        0xD1 => Some(OpCode { code: 0xD1, name: "CMP", len: 2, cycles: 5, mode: AddressingMode::IndirectY }),
        0xD5 => Some(OpCode { code: 0xD5, name: "CMP", len: 2, cycles: 4, mode: AddressingMode::ZeroPageX }),
        0xD9 => Some(OpCode { code: 0xD9, name: "CMP", len: 3, cycles: 4, mode: AddressingMode::AbsoluteY }),
        0xDD => Some(OpCode { code: 0xDD, name: "CMP", len: 3, cycles: 4, mode: AddressingMode::AbsoluteX }),
        0xE0 => Some(OpCode { code: 0xE0, name: "CPX", len: 2, cycles: 2, mode: AddressingMode::Immediate }),
        0xE4 => Some(OpCode { code: 0xE4, name: "CPX", len: 2, cycles: 3, mode: AddressingMode::ZeroPage }),
        0xEC => Some(OpCode { code: 0xEC, name: "CPX", len: 3, cycles: 4, mode: AddressingMode::Absolute }),
        0xC0 => Some(OpCode { code: 0xC0, name: "CPY", len: 2, cycles: 2, mode: AddressingMode::Immediate }),
        0xC4 => Some(OpCode { code: 0xC4, name: "CPY", len: 2, cycles: 3, mode: AddressingMode::ZeroPage }),
        0xCC => Some(OpCode { code: 0xCC, name: "CPY", len: 3, cycles: 4, mode: AddressingMode::Absolute }),
        0xC6 => Some(OpCode { code: 0xC6, name: "DEC", len: 2, cycles: 5, mode: AddressingMode::ZeroPage }),
        0xCE => Some(OpCode { code: 0xCE, name: "DEC", len: 3, cycles: 6, mode: AddressingMode::Absolute }),
        0xD6 => Some(OpCode { code: 0xD6, name: "DEC", len: 2, cycles: 6, mode: AddressingMode::ZeroPageX }),
        0xDE => Some(OpCode { code: 0xDE, name: "DEC", len: 3, cycles: 7, mode: AddressingMode::AbsoluteX }),
        0xCA => Some(OpCode { code: 0xCA, name: "DEX", len: 1, cycles: 2, mode: AddressingMode::NoneAddressing }),
        0x88 => Some(OpCode { code: 0x88, name: "DEY", len: 1, cycles: 2, mode: AddressingMode::NoneAddressing }),
        0x41 => Some(OpCode { code: 0x41, name: "EOR", len: 2, cycles: 6, mode: AddressingMode::IndirectX }),
        0x45 => Some(OpCode { code: 0x45, name: "EOR", len: 2, cycles: 3, mode: AddressingMode::ZeroPage }),
        0x49 => Some(OpCode { code: 0x49, name: "EOR", len: 2, cycles: 2, mode: AddressingMode::Immediate }),
        0x4D => Some(OpCode { code: 0x4D, name: "EOR", len: 3, cycles: 4, mode: AddressingMode::Absolute }),
        0x51 => Some(OpCode { code: 0x51, name: "EOR", len: 2, cycles: 5, mode: AddressingMode::IndirectY }),
        0x55 => Some(OpCode { code: 0x55, name: "EOR", len: 2, cycles: 4, mode: AddressingMode::ZeroPageX }),
        0x59 => Some(OpCode { code: 0x59, name: "EOR", len: 3, cycles: 4, mode: AddressingMode::AbsoluteY }),
        0x5D => Some(OpCode { code: 0x5D, name: "EOR", len: 3, cycles: 4, mode: AddressingMode::AbsoluteX }),
        0xE6 => Some(OpCode { code: 0xE6, name: "INC", len: 2, cycles: 5, mode: AddressingMode::ZeroPage }),
        0xEE => Some(OpCode { code: 0xEE, name: "INC", len: 3, cycles: 6, mode: AddressingMode::Absolute }),
        0xF6 => Some(OpCode { code: 0xF6, name: "INC", len: 2, cycles: 6, mode: AddressingMode::ZeroPageX }),
        0xFE => Some(OpCode { code: 0xFE, name: "INC", len: 3, cycles: 7, mode: AddressingMode::AbsoluteX }),
        0xE8 => Some(OpCode { code: 0xE8, name: "INX", len: 1, cycles: 2, mode: AddressingMode::NoneAddressing }),
        0xC8 => Some(OpCode { code: 0xC8, name: "INY", len: 1, cycles: 2, mode: AddressingMode::NoneAddressing }),
        0x4C => Some(OpCode { code: 0x4C, name: "JMP", len: 3, cycles: 3, mode: AddressingMode::Absolute }),
        0x6C => Some(OpCode { code: 0x6C, name: "JMP", len: 3, cycles: 5, mode: AddressingMode::Indirect }),
        0x20 => Some(OpCode { code: 0x20, name: "JSR", len: 3, cycles: 6, mode: AddressingMode::Absolute }),
        0xA1 => Some(OpCode { code: 0xA1, name: "LDA", len: 2, cycles: 6, mode: AddressingMode::IndirectX }),
        0xA5 => Some(OpCode { code: 0xA5, name: "LDA", len: 2, cycles: 3, mode: AddressingMode::ZeroPage }),
        0xA9 => Some(OpCode { code: 0xA9, name: "LDA", len: 2, cycles: 2, mode: AddressingMode::Immediate }),
        0xAD => Some(OpCode { code: 0xAD, name: "LDA", len: 3, cycles: 4, mode: AddressingMode::Absolute }),
        0xB1 => Some(OpCode { code: 0xB1, name: "LDA", len: 2, cycles: 5, mode: AddressingMode::IndirectY }),
        0xB5 => Some(OpCode { code: 0xB5, name: "LDA", len: 2, cycles: 4, mode: AddressingMode::ZeroPageX }),
        0xB9 => Some(OpCode { code: 0xB9, name: "LDA", len: 3, cycles: 4, mode: AddressingMode::AbsoluteY }),
        0xBD => Some(OpCode { code: 0xBD, name: "LDA", len: 3, cycles: 4, mode: AddressingMode::AbsoluteX }),
        0xA2 => Some(OpCode { code: 0xA2, name: "LDX", len: 2, cycles: 2, mode: AddressingMode::Immediate }),
        0xA6 => Some(OpCode { code: 0xA6, name: "LDX", len: 2, cycles: 3, mode: AddressingMode::ZeroPage }),
        0xAE => Some(OpCode { code: 0xAE, name: "LDX", len: 3, cycles: 4, mode: AddressingMode::Absolute }),
        0xB6 => Some(OpCode { code: 0xB6, name: "LDX", len: 2, cycles: 4, mode: AddressingMode::ZeroPageY }),
        0xBE => Some(OpCode { code: 0xBE, name: "LDX", len: 3, cycles: 4, mode: AddressingMode::AbsoluteY }),
        0xA0 => Some(OpCode { code: 0xA0, name: "LDY", len: 2, cycles: 2, mode: AddressingMode::Immediate }),
        0xA4 => Some(OpCode { code: 0xA4, name: "LDY", len: 2, cycles: 3, mode: AddressingMode::ZeroPage }),
        0xAC => Some(OpCode { code: 0xAC, name: "LDY", len: 3, cycles: 4, mode: AddressingMode::Absolute }),
        0xB4 => Some(OpCode { code: 0xB4, name: "LDY", len: 2, cycles: 4, mode: AddressingMode::ZeroPageX }),
        0xBC => Some(OpCode { code: 0xBC, name: "LDY", len: 3, cycles: 4, mode: AddressingMode::AbsoluteX }),
        0x46 => Some(OpCode { code: 0x46, name: "LSR", len: 2, cycles: 5, mode: AddressingMode::ZeroPage }),
        0x4A => Some(OpCode { code: 0x4A, name: "LSR", len: 1, cycles: 2, mode: AddressingMode::NoneAddressing }),
        0x4E => Some(OpCode { code: 0x4E, name: "LSR", len: 3, cycles: 6, mode: AddressingMode::Absolute }),
        0x56 => Some(OpCode { code: 0x56, name: "LSR", len: 2, cycles: 6, mode: AddressingMode::ZeroPageX }),
        0x5E => Some(OpCode { code: 0x5E, name: "LSR", len: 3, cycles: 7, mode: AddressingMode::AbsoluteX }),
        0xEA => Some(OpCode { code: 0xEA, name: "NOP", len: 1, cycles: 2, mode: AddressingMode::NoneAddressing }),
        0x01 => Some(OpCode { code: 0x01, name: "ORA", len: 2, cycles: 6, mode: AddressingMode::IndirectX }),
        0x05 => Some(OpCode { code: 0x05, name: "ORA", len: 2, cycles: 3, mode: AddressingMode::ZeroPage }),
        0x09 => Some(OpCode { code: 0x09, name: "ORA", len: 2, cycles: 2, mode: AddressingMode::Immediate }),
        0x0D => Some(OpCode { code: 0x0D, name: "ORA", len: 3, cycles: 4, mode: AddressingMode::Absolute }),
        0x11 => Some(OpCode { code: 0x11, name: "ORA", len: 2, cycles: 5, mode: AddressingMode::IndirectY }),
        0x15 => Some(OpCode { code: 0x15, name: "ORA", len: 2, cycles: 4, mode: AddressingMode::ZeroPageX }),
        0x19 => Some(OpCode { code: 0x19, name: "ORA", len: 3, cycles: 4, mode: AddressingMode::AbsoluteY }),
        0x1D => Some(OpCode { code: 0x1D, name: "ORA", len: 3, cycles: 4, mode: AddressingMode::AbsoluteX }),
        0x48 => Some(OpCode { code: 0x48, name: "PHA", len: 1, cycles: 3, mode: AddressingMode::NoneAddressing }),
        0x08 => Some(OpCode { code: 0x08, name: "PHP", len: 1, cycles: 3, mode: AddressingMode::NoneAddressing }),
        0x68 => Some(OpCode { code: 0x68, name: "PLA", len: 1, cycles: 4, mode: AddressingMode::NoneAddressing }),
        0x28 => Some(OpCode { code: 0x28, name: "PLP", len: 1, cycles: 4, mode: AddressingMode::NoneAddressing }),
        0x26 => Some(OpCode { code: 0x26, name: "ROL", len: 2, cycles: 5, mode: AddressingMode::ZeroPage }),
        0x2A => Some(OpCode { code: 0x2A, name: "ROL", len: 1, cycles: 2, mode: AddressingMode::NoneAddressing }),
        0x2E => Some(OpCode { code: 0x2E, name: "ROL", len: 3, cycles: 6, mode: AddressingMode::Absolute }),
        0x36 => Some(OpCode { code: 0x36, name: "ROL", len: 2, cycles: 6, mode: AddressingMode::ZeroPageX }),
        0x3E => Some(OpCode { code: 0x3E, name: "ROL", len: 3, cycles: 7, mode: AddressingMode::AbsoluteX }),
        0x66 => Some(OpCode { code: 0x66, name: "ROR", len: 2, cycles: 5, mode: AddressingMode::ZeroPage }),
        0x6A => Some(OpCode { code: 0x6A, name: "ROR", len: 1, cycles: 2, mode: AddressingMode::NoneAddressing }),
        0x6E => Some(OpCode { code: 0x6E, name: "ROR", len: 3, cycles: 6, mode: AddressingMode::Absolute }),
        0x76 => Some(OpCode { code: 0x76, name: "ROR", len: 2, cycles: 6, mode: AddressingMode::ZeroPageX }),
        0x7E => Some(OpCode { code: 0x7E, name: "ROR", len: 3, cycles: 7, mode: AddressingMode::AbsoluteX }),
        0x40 => Some(OpCode { code: 0x40, name: "RTI", len: 1, cycles: 6, mode: AddressingMode::NoneAddressing }),
        0x60 => Some(OpCode { code: 0x60, name: "RTS", len: 1, cycles: 6, mode: AddressingMode::NoneAddressing }),
        0xE1 => Some(OpCode { code: 0xE1, name: "SBC", len: 2, cycles: 6, mode: AddressingMode::IndirectX }),
        0xE5 => Some(OpCode { code: 0xE5, name: "SBC", len: 2, cycles: 3, mode: AddressingMode::ZeroPage }),
        0xE9 => Some(OpCode { code: 0xE9, name: "SBC", len: 2, cycles: 2, mode: AddressingMode::Immediate }),
        0xED => Some(OpCode { code: 0xED, name: "SBC", len: 3, cycles: 4, mode: AddressingMode::Absolute }),
        0xF1 => Some(OpCode { code: 0xF1, name: "SBC", len: 2, cycles: 5, mode: AddressingMode::IndirectY }),
        0xF5 => Some(OpCode { code: 0xF5, name: "SBC", len: 2, cycles: 4, mode: AddressingMode::ZeroPageX }),
        0xF9 => Some(OpCode { code: 0xF9, name: "SBC", len: 3, cycles: 4, mode: AddressingMode::AbsoluteY }),
        0xFD => Some(OpCode { code: 0xFD, name: "SBC", len: 3, cycles: 4, mode: AddressingMode::AbsoluteX }),
        0x38 => Some(OpCode { code: 0x38, name: "SEC", len: 1, cycles: 2, mode: AddressingMode::NoneAddressing }),
        0xF8 => Some(OpCode { code: 0xF8, name: "SED", len: 1, cycles: 2, mode: AddressingMode::NoneAddressing }),
        0x78 => Some(OpCode { code: 0x78, name: "SEI", len: 1, cycles: 2, mode: AddressingMode::NoneAddressing }),
        0x81 => Some(OpCode { code: 0x81, name: "STA", len: 2, cycles: 6, mode: AddressingMode::IndirectX }),
        0x85 => Some(OpCode { code: 0x85, name: "STA", len: 2, cycles: 3, mode: AddressingMode::ZeroPage }),
        0x8D => Some(OpCode { code: 0x8D, name: "STA", len: 3, cycles: 4, mode: AddressingMode::Absolute }),
        0x91 => Some(OpCode { code: 0x91, name: "STA", len: 2, cycles: 6, mode: AddressingMode::IndirectY }),
        0x95 => Some(OpCode { code: 0x95, name: "STA", len: 2, cycles: 4, mode: AddressingMode::ZeroPageX }),
        0x99 => Some(OpCode { code: 0x99, name: "STA", len: 3, cycles: 5, mode: AddressingMode::AbsoluteY }),
        0x9D => Some(OpCode { code: 0x9D, name: "STA", len: 3, cycles: 5, mode: AddressingMode::AbsoluteX }),
        0x86 => Some(OpCode { code: 0x86, name: "STX", len: 2, cycles: 3, mode: AddressingMode::ZeroPage }),
        0x8E => Some(OpCode { code: 0x8E, name: "STX", len: 3, cycles: 4, mode: AddressingMode::Absolute }),
        0x96 => Some(OpCode { code: 0x96, name: "STX", len: 2, cycles: 4, mode: AddressingMode::ZeroPageY }),
        0x84 => Some(OpCode { code: 0x84, name: "STY", len: 2, cycles: 3, mode: AddressingMode::ZeroPage }),
        0x8C => Some(OpCode { code: 0x8C, name: "STY", len: 3, cycles: 4, mode: AddressingMode::Absolute }),
        0x94 => Some(OpCode { code: 0x94, name: "STY", len: 2, cycles: 4, mode: AddressingMode::ZeroPageX }),
        0xAA => Some(OpCode { code: 0xAA, name: "TAX", len: 1, cycles: 2, mode: AddressingMode::NoneAddressing }),
        0xA8 => Some(OpCode { code: 0xA8, name: "TAY", len: 1, cycles: 2, mode: AddressingMode::NoneAddressing }),
        0xBA => Some(OpCode { code: 0xBA, name: "TSX", len: 1, cycles: 2, mode: AddressingMode::NoneAddressing }),
        0x8A => Some(OpCode { code: 0x8A, name: "TXA", len: 1, cycles: 2, mode: AddressingMode::NoneAddressing }),
        0x9A => Some(OpCode { code: 0x9A, name: "TXS", len: 1, cycles: 2, mode: AddressingMode::NoneAddressing }),
        0x98 => Some(OpCode { code: 0x98, name: "TYA", len: 1, cycles: 2, mode: AddressingMode::NoneAddressing }),
        // undocumented
        0x0B => Some(OpCode { code: 0x0B, name: "ANC", len: 2, cycles: 2, mode: AddressingMode::Immediate }),
        0x2B => Some(OpCode { code: 0x2B, name: "ANC", len: 2, cycles: 2, mode: AddressingMode::Immediate }),
        0xC3 => Some(OpCode { code: 0xC3, name: "DCP", len: 2, cycles: 8, mode: AddressingMode::IndirectX }),
        0xC7 => Some(OpCode { code: 0xC7, name: "DCP", len: 2, cycles: 5, mode: AddressingMode::ZeroPage }),
        0xCF => Some(OpCode { code: 0xCF, name: "DCP", len: 3, cycles: 6, mode: AddressingMode::Absolute }),
        0xD3 => Some(OpCode { code: 0xD3, name: "DCP", len: 2, cycles: 8, mode: AddressingMode::IndirectY }),
        0xD7 => Some(OpCode { code: 0xD7, name: "DCP", len: 2, cycles: 6, mode: AddressingMode::ZeroPageX }),
        0xDB => Some(OpCode { code: 0xDB, name: "DCP", len: 3, cycles: 7, mode: AddressingMode::AbsoluteY }),
        0xDF => Some(OpCode { code: 0xDF, name: "DCP", len: 3, cycles: 7, mode: AddressingMode::AbsoluteX }),
        0xE3 => Some(OpCode { code: 0xE3, name: "ISB", len: 2, cycles: 8, mode: AddressingMode::IndirectX }),
        0xE7 => Some(OpCode { code: 0xE7, name: "ISB", len: 2, cycles: 5, mode: AddressingMode::ZeroPage }),
        0xEF => Some(OpCode { code: 0xEF, name: "ISB", len: 3, cycles: 6, mode: AddressingMode::Absolute }),
        0xF3 => Some(OpCode { code: 0xF3, name: "ISB", len: 2, cycles: 8, mode: AddressingMode::IndirectY }),
        0xF7 => Some(OpCode { code: 0xF7, name: "ISB", len: 2, cycles: 6, mode: AddressingMode::ZeroPageX }),
        0xFB => Some(OpCode { code: 0xFB, name: "ISB", len: 3, cycles: 7, mode: AddressingMode::AbsoluteY }),
        0xFF => Some(OpCode { code: 0xFF, name: "ISB", len: 3, cycles: 7, mode: AddressingMode::AbsoluteX }),
        0xA3 => Some(OpCode { code: 0xA3, name: "LAX", len: 2, cycles: 6, mode: AddressingMode::IndirectX }),
        0xA7 => Some(OpCode { code: 0xA7, name: "LAX", len: 2, cycles: 3, mode: AddressingMode::ZeroPage }),
        0xAF => Some(OpCode { code: 0xAF, name: "LAX", len: 3, cycles: 4, mode: AddressingMode::Absolute }),
        0xB3 => Some(OpCode { code: 0xB3, name: "LAX", len: 2, cycles: 5, mode: AddressingMode::IndirectY }),
        0xB7 => Some(OpCode { code: 0xB7, name: "LAX", len: 2, cycles: 4, mode: AddressingMode::ZeroPageY }),
        0xBF => Some(OpCode { code: 0xBF, name: "LAX", len: 3, cycles: 4, mode: AddressingMode::AbsoluteY }),
        0x1A => Some(OpCode { code: 0x1A, name: "NOP", len: 1, cycles: 2, mode: AddressingMode::NoneAddressing }),
        0x3A => Some(OpCode { code: 0x3A, name: "NOP", len: 1, cycles: 2, mode: AddressingMode::NoneAddressing }),
        0x5A => Some(OpCode { code: 0x5A, name: "NOP", len: 1, cycles: 2, mode: AddressingMode::NoneAddressing }),
        0x7A => Some(OpCode { code: 0x7A, name: "NOP", len: 1, cycles: 2, mode: AddressingMode::NoneAddressing }),
        0xDA => Some(OpCode { code: 0xDA, name: "NOP", len: 1, cycles: 2, mode: AddressingMode::NoneAddressing }),
        0xFA => Some(OpCode { code: 0xFA, name: "NOP", len: 1, cycles: 2, mode: AddressingMode::NoneAddressing }),
        0x04 => Some(OpCode { code: 0x04, name: "NOP", len: 2, cycles: 3, mode: AddressingMode::ZeroPage }),
        0x14 => Some(OpCode { code: 0x14, name: "NOP", len: 2, cycles: 4, mode: AddressingMode::ZeroPageX }),
        0x34 => Some(OpCode { code: 0x34, name: "NOP", len: 2, cycles: 4, mode: AddressingMode::ZeroPageX }),
        0x44 => Some(OpCode { code: 0x44, name: "NOP", len: 2, cycles: 3, mode: AddressingMode::ZeroPage }),
        0x54 => Some(OpCode { code: 0x54, name: "NOP", len: 2, cycles: 4, mode: AddressingMode::ZeroPageX }),
        0x64 => Some(OpCode { code: 0x64, name: "NOP", len: 2, cycles: 3, mode: AddressingMode::ZeroPage }),
        0x74 => Some(OpCode { code: 0x74, name: "NOP", len: 2, cycles: 4, mode: AddressingMode::ZeroPageX }),
        0x80 => Some(OpCode { code: 0x80, name: "NOP", len: 2, cycles: 2, mode: AddressingMode::Immediate }),
        0x82 => Some(OpCode { code: 0x82, name: "NOP", len: 2, cycles: 2, mode: AddressingMode::Immediate }),
        0x89 => Some(OpCode { code: 0x89, name: "NOP", len: 2, cycles: 2, mode: AddressingMode::Immediate }),
        0xC2 => Some(OpCode { code: 0xC2, name: "NOP", len: 2, cycles: 2, mode: AddressingMode::Immediate }),
        0xD4 => Some(OpCode { code: 0xD4, name: "NOP", len: 2, cycles: 4, mode: AddressingMode::ZeroPageX }),
        0xE2 => Some(OpCode { code: 0xE2, name: "NOP", len: 2, cycles: 2, mode: AddressingMode::Immediate }),
        0xF4 => Some(OpCode { code: 0xF4, name: "NOP", len: 2, cycles: 4, mode: AddressingMode::ZeroPageX }),
        0x0C => Some(OpCode { code: 0x0C, name: "NOP", len: 3, cycles: 4, mode: AddressingMode::Absolute }),
        0x1C => Some(OpCode { code: 0x1C, name: "NOP", len: 3, cycles: 4, mode: AddressingMode::AbsoluteX }),
        0x3C => Some(OpCode { code: 0x3C, name: "NOP", len: 3, cycles: 4, mode: AddressingMode::AbsoluteX }),
        0x5C => Some(OpCode { code: 0x5C, name: "NOP", len: 3, cycles: 4, mode: AddressingMode::AbsoluteX }),
        0x7C => Some(OpCode { code: 0x7C, name: "NOP", len: 3, cycles: 4, mode: AddressingMode::AbsoluteX }),
        0xDC => Some(OpCode { code: 0xDC, name: "NOP", len: 3, cycles: 4, mode: AddressingMode::AbsoluteX }),
        0xFC => Some(OpCode { code: 0xFC, name: "NOP", len: 3, cycles: 4, mode: AddressingMode::AbsoluteX }),
        0x23 => Some(OpCode { code: 0x23, name: "RLA", len: 2, cycles: 8, mode: AddressingMode::IndirectX }),
        0x27 => Some(OpCode { code: 0x27, name: "RLA", len: 2, cycles: 5, mode: AddressingMode::ZeroPage }),
        0x2F => Some(OpCode { code: 0x2F, name: "RLA", len: 3, cycles: 6, mode: AddressingMode::Absolute }),
        0x33 => Some(OpCode { code: 0x33, name: "RLA", len: 2, cycles: 8, mode: AddressingMode::IndirectY }),
        0x37 => Some(OpCode { code: 0x37, name: "RLA", len: 2, cycles: 6, mode: AddressingMode::ZeroPageX }),
        0x3B => Some(OpCode { code: 0x3B, name: "RLA", len: 3, cycles: 7, mode: AddressingMode::AbsoluteY }),
        0x3F => Some(OpCode { code: 0x3F, name: "RLA", len: 3, cycles: 7, mode: AddressingMode::AbsoluteX }),
        0x63 => Some(OpCode { code: 0x63, name: "RRA", len: 2, cycles: 8, mode: AddressingMode::IndirectX }),
        0x67 => Some(OpCode { code: 0x67, name: "RRA", len: 2, cycles: 5, mode: AddressingMode::ZeroPage }),
        0x6F => Some(OpCode { code: 0x6F, name: "RRA", len: 3, cycles: 6, mode: AddressingMode::Absolute }),
        0x73 => Some(OpCode { code: 0x73, name: "RRA", len: 2, cycles: 8, mode: AddressingMode::IndirectY }),
        0x77 => Some(OpCode { code: 0x77, name: "RRA", len: 2, cycles: 6, mode: AddressingMode::ZeroPageX }),
        0x7B => Some(OpCode { code: 0x7B, name: "RRA", len: 3, cycles: 7, mode: AddressingMode::AbsoluteY }),
        0x7F => Some(OpCode { code: 0x7F, name: "RRA", len: 3, cycles: 7, mode: AddressingMode::AbsoluteX }),
        0x83 => Some(OpCode { code: 0x83, name: "SAX", len: 2, cycles: 6, mode: AddressingMode::IndirectX }),
        0x87 => Some(OpCode { code: 0x87, name: "SAX", len: 2, cycles: 3, mode: AddressingMode::ZeroPage }),
        0x8F => Some(OpCode { code: 0x8F, name: "SAX", len: 3, cycles: 4, mode: AddressingMode::Absolute }),
        0x97 => Some(OpCode { code: 0x97, name: "SAX", len: 2, cycles: 4, mode: AddressingMode::ZeroPageY }),
        0xEB => Some(OpCode { code: 0xEB, name: "SBC", len: 2, cycles: 2, mode: AddressingMode::Immediate }),
        0x03 => Some(OpCode { code: 0x03, name: "SLO", len: 2, cycles: 8, mode: AddressingMode::IndirectX }),
        0x07 => Some(OpCode { code: 0x07, name: "SLO", len: 2, cycles: 5, mode: AddressingMode::ZeroPage }),
        0x0F => Some(OpCode { code: 0x0F, name: "SLO", len: 3, cycles: 6, mode: AddressingMode::Absolute }),
        0x13 => Some(OpCode { code: 0x13, name: "SLO", len: 2, cycles: 8, mode: AddressingMode::IndirectY }),
        0x17 => Some(OpCode { code: 0x17, name: "SLO", len: 2, cycles: 6, mode: AddressingMode::ZeroPageX }),
        0x1B => Some(OpCode { code: 0x1B, name: "SLO", len: 3, cycles: 7, mode: AddressingMode::AbsoluteY }),
        0x1F => Some(OpCode { code: 0x1F, name: "SLO", len: 3, cycles: 7, mode: AddressingMode::AbsoluteX }),
        0x43 => Some(OpCode { code: 0x43, name: "SRE", len: 2, cycles: 8, mode: AddressingMode::IndirectX }),
        0x47 => Some(OpCode { code: 0x47, name: "SRE", len: 2, cycles: 5, mode: AddressingMode::ZeroPage }),
        0x4F => Some(OpCode { code: 0x4F, name: "SRE", len: 3, cycles: 6, mode: AddressingMode::Absolute }),
        0x53 => Some(OpCode { code: 0x53, name: "SRE", len: 2, cycles: 8, mode: AddressingMode::IndirectY }),
        0x57 => Some(OpCode { code: 0x57, name: "SRE", len: 2, cycles: 6, mode: AddressingMode::ZeroPageX }),
        0x5B => Some(OpCode { code: 0x5B, name: "SRE", len: 3, cycles: 7, mode: AddressingMode::AbsoluteY }),
        0x5F => Some(OpCode { code: 0x5F, name: "SRE", len: 3, cycles: 7, mode: AddressingMode::AbsoluteX }),
        _ => None,
    }
}

/// The rows for the opcode bytes from $00 to $1F.
fn lookup_00_1f(code: u8) -> (opcode: Option<OpCode>)
    requires
        0x00 <= code <= 0x1F,
    ensures
        opcode == entry(code),
{
    proof {
        reveal(entry);
    }
    match code {
        0x00 => Some(OpCode::new(0x00, "BRK", 1, 7, AddressingMode::NoneAddressing)),
        0x01 => Some(OpCode::new(0x01, "ORA", 2, 6, AddressingMode::IndirectX)),
        0x03 => Some(OpCode::new(0x03, "SLO", 2, 8, AddressingMode::IndirectX)),
        0x04 => Some(OpCode::new(0x04, "NOP", 2, 3, AddressingMode::ZeroPage)),
        0x05 => Some(OpCode::new(0x05, "ORA", 2, 3, AddressingMode::ZeroPage)),
        0x06 => Some(OpCode::new(0x06, "ASL", 2, 5, AddressingMode::ZeroPage)),
        0x07 => Some(OpCode::new(0x07, "SLO", 2, 5, AddressingMode::ZeroPage)),
        0x08 => Some(OpCode::new(0x08, "PHP", 1, 3, AddressingMode::NoneAddressing)),
        0x09 => Some(OpCode::new(0x09, "ORA", 2, 2, AddressingMode::Immediate)),
        0x0A => Some(OpCode::new(0x0A, "ASL", 1, 2, AddressingMode::NoneAddressing)),
        0x0B => Some(OpCode::new(0x0B, "ANC", 2, 2, AddressingMode::Immediate)),
        0x0C => Some(OpCode::new(0x0C, "NOP", 3, 4, AddressingMode::Absolute)),
        0x0D => Some(OpCode::new(0x0D, "ORA", 3, 4, AddressingMode::Absolute)),
        0x0E => Some(OpCode::new(0x0E, "ASL", 3, 6, AddressingMode::Absolute)),
        0x0F => Some(OpCode::new(0x0F, "SLO", 3, 6, AddressingMode::Absolute)),
        0x10 => Some(OpCode::new(0x10, "BPL", 2, 2, AddressingMode::NoneAddressing)),
        0x11 => Some(OpCode::new(0x11, "ORA", 2, 5, AddressingMode::IndirectY)),
        0x13 => Some(OpCode::new(0x13, "SLO", 2, 8, AddressingMode::IndirectY)),
        0x14 => Some(OpCode::new(0x14, "NOP", 2, 4, AddressingMode::ZeroPageX)),
        0x15 => Some(OpCode::new(0x15, "ORA", 2, 4, AddressingMode::ZeroPageX)),
        0x16 => Some(OpCode::new(0x16, "ASL", 2, 6, AddressingMode::ZeroPageX)),
        0x17 => Some(OpCode::new(0x17, "SLO", 2, 6, AddressingMode::ZeroPageX)),
        0x18 => Some(OpCode::new(0x18, "CLC", 1, 2, AddressingMode::NoneAddressing)),
        0x19 => Some(OpCode::new(0x19, "ORA", 3, 4, AddressingMode::AbsoluteY)),
        0x1A => Some(OpCode::new(0x1A, "NOP", 1, 2, AddressingMode::NoneAddressing)),
        0x1B => Some(OpCode::new(0x1B, "SLO", 3, 7, AddressingMode::AbsoluteY)),
        0x1C => Some(OpCode::new(0x1C, "NOP", 3, 4, AddressingMode::AbsoluteX)),
        0x1D => Some(OpCode::new(0x1D, "ORA", 3, 4, AddressingMode::AbsoluteX)),
        0x1E => Some(OpCode::new(0x1E, "ASL", 3, 7, AddressingMode::AbsoluteX)),
        0x1F => Some(OpCode::new(0x1F, "SLO", 3, 7, AddressingMode::AbsoluteX)),
        _ => None,
    }
}

/// The rows for the opcode bytes from $20 to $3F.
fn lookup_20_3f(code: u8) -> (opcode: Option<OpCode>)
    requires
        0x20 <= code <= 0x3F,
    ensures
        opcode == entry(code),
{
    proof {
        reveal(entry);
    }
    match code {
        0x20 => Some(OpCode::new(0x20, "JSR", 3, 6, AddressingMode::Absolute)),
        0x21 => Some(OpCode::new(0x21, "AND", 2, 6, AddressingMode::IndirectX)),
        0x23 => Some(OpCode::new(0x23, "RLA", 2, 8, AddressingMode::IndirectX)),
        0x24 => Some(OpCode::new(0x24, "BIT", 2, 3, AddressingMode::ZeroPage)),
        0x25 => Some(OpCode::new(0x25, "AND", 2, 3, AddressingMode::ZeroPage)),
        0x26 => Some(OpCode::new(0x26, "ROL", 2, 5, AddressingMode::ZeroPage)),
        0x27 => Some(OpCode::new(0x27, "RLA", 2, 5, AddressingMode::ZeroPage)),
        0x28 => Some(OpCode::new(0x28, "PLP", 1, 4, AddressingMode::NoneAddressing)),
        0x29 => Some(OpCode::new(0x29, "AND", 2, 2, AddressingMode::Immediate)),
        0x2A => Some(OpCode::new(0x2A, "ROL", 1, 2, AddressingMode::NoneAddressing)),
        0x2B => Some(OpCode::new(0x2B, "ANC", 2, 2, AddressingMode::Immediate)),
        0x2C => Some(OpCode::new(0x2C, "BIT", 3, 4, AddressingMode::Absolute)),
        0x2D => Some(OpCode::new(0x2D, "AND", 3, 4, AddressingMode::Absolute)),
        0x2E => Some(OpCode::new(0x2E, "ROL", 3, 6, AddressingMode::Absolute)),
        0x2F => Some(OpCode::new(0x2F, "RLA", 3, 6, AddressingMode::Absolute)),
        0x30 => Some(OpCode::new(0x30, "BMI", 2, 2, AddressingMode::NoneAddressing)),
        0x31 => Some(OpCode::new(0x31, "AND", 2, 5, AddressingMode::IndirectY)),
        0x33 => Some(OpCode::new(0x33, "RLA", 2, 8, AddressingMode::IndirectY)),
        0x34 => Some(OpCode::new(0x34, "NOP", 2, 4, AddressingMode::ZeroPageX)),
        0x35 => Some(OpCode::new(0x35, "AND", 2, 4, AddressingMode::ZeroPageX)),
        0x36 => Some(OpCode::new(0x36, "ROL", 2, 6, AddressingMode::ZeroPageX)),
        0x37 => Some(OpCode::new(0x37, "RLA", 2, 6, AddressingMode::ZeroPageX)),
        0x38 => Some(OpCode::new(0x38, "SEC", 1, 2, AddressingMode::NoneAddressing)),
        0x39 => Some(OpCode::new(0x39, "AND", 3, 4, AddressingMode::AbsoluteY)),
        0x3A => Some(OpCode::new(0x3A, "NOP", 1, 2, AddressingMode::NoneAddressing)),
        0x3B => Some(OpCode::new(0x3B, "RLA", 3, 7, AddressingMode::AbsoluteY)),
        0x3C => Some(OpCode::new(0x3C, "NOP", 3, 4, AddressingMode::AbsoluteX)),
        0x3D => Some(OpCode::new(0x3D, "AND", 3, 4, AddressingMode::AbsoluteX)),
        0x3E => Some(OpCode::new(0x3E, "ROL", 3, 7, AddressingMode::AbsoluteX)),
        0x3F => Some(OpCode::new(0x3F, "RLA", 3, 7, AddressingMode::AbsoluteX)),
        _ => None,
    }
}

/// The rows for the opcode bytes from $40 to $5F.
fn lookup_40_5f(code: u8) -> (opcode: Option<OpCode>)
    requires
        0x40 <= code <= 0x5F,
    ensures
        opcode == entry(code),
{
    proof {
        reveal(entry);
    }
    match code {
        0x40 => Some(OpCode::new(0x40, "RTI", 1, 6, AddressingMode::NoneAddressing)),
        0x41 => Some(OpCode::new(0x41, "EOR", 2, 6, AddressingMode::IndirectX)),
        0x43 => Some(OpCode::new(0x43, "SRE", 2, 8, AddressingMode::IndirectX)),
        0x44 => Some(OpCode::new(0x44, "NOP", 2, 3, AddressingMode::ZeroPage)),
        0x45 => Some(OpCode::new(0x45, "EOR", 2, 3, AddressingMode::ZeroPage)),
        0x46 => Some(OpCode::new(0x46, "LSR", 2, 5, AddressingMode::ZeroPage)),
        0x47 => Some(OpCode::new(0x47, "SRE", 2, 5, AddressingMode::ZeroPage)),
        0x48 => Some(OpCode::new(0x48, "PHA", 1, 3, AddressingMode::NoneAddressing)),
        0x49 => Some(OpCode::new(0x49, "EOR", 2, 2, AddressingMode::Immediate)),
        0x4A => Some(OpCode::new(0x4A, "LSR", 1, 2, AddressingMode::NoneAddressing)),
        0x4C => Some(OpCode::new(0x4C, "JMP", 3, 3, AddressingMode::Absolute)),
        0x4D => Some(OpCode::new(0x4D, "EOR", 3, 4, AddressingMode::Absolute)),
        0x4E => Some(OpCode::new(0x4E, "LSR", 3, 6, AddressingMode::Absolute)),
        0x4F => Some(OpCode::new(0x4F, "SRE", 3, 6, AddressingMode::Absolute)),
        0x50 => Some(OpCode::new(0x50, "BVC", 2, 2, AddressingMode::NoneAddressing)),
        0x51 => Some(OpCode::new(0x51, "EOR", 2, 5, AddressingMode::IndirectY)),
        0x53 => Some(OpCode::new(0x53, "SRE", 2, 8, AddressingMode::IndirectY)),
        0x54 => Some(OpCode::new(0x54, "NOP", 2, 4, AddressingMode::ZeroPageX)),
        0x55 => Some(OpCode::new(0x55, "EOR", 2, 4, AddressingMode::ZeroPageX)),
        0x56 => Some(OpCode::new(0x56, "LSR", 2, 6, AddressingMode::ZeroPageX)),
        0x57 => Some(OpCode::new(0x57, "SRE", 2, 6, AddressingMode::ZeroPageX)),
        0x58 => Some(OpCode::new(0x58, "CLI", 1, 2, AddressingMode::NoneAddressing)),
        0x59 => Some(OpCode::new(0x59, "EOR", 3, 4, AddressingMode::AbsoluteY)),
        0x5A => Some(OpCode::new(0x5A, "NOP", 1, 2, AddressingMode::NoneAddressing)),
        0x5B => Some(OpCode::new(0x5B, "SRE", 3, 7, AddressingMode::AbsoluteY)),
        0x5C => Some(OpCode::new(0x5C, "NOP", 3, 4, AddressingMode::AbsoluteX)),
        0x5D => Some(OpCode::new(0x5D, "EOR", 3, 4, AddressingMode::AbsoluteX)),
        0x5E => Some(OpCode::new(0x5E, "LSR", 3, 7, AddressingMode::AbsoluteX)),
        0x5F => Some(OpCode::new(0x5F, "SRE", 3, 7, AddressingMode::AbsoluteX)),
        _ => None,
    }
}

/// The rows for the opcode bytes from $60 to $7F.
fn lookup_60_7f(code: u8) -> (opcode: Option<OpCode>)
    requires
        0x60 <= code <= 0x7F,
    ensures
        opcode == entry(code),
{
    proof {
        reveal(entry);
    }
    match code {
        0x60 => Some(OpCode::new(0x60, "RTS", 1, 6, AddressingMode::NoneAddressing)),
        0x61 => Some(OpCode::new(0x61, "ADC", 2, 6, AddressingMode::IndirectX)),
        0x63 => Some(OpCode::new(0x63, "RRA", 2, 8, AddressingMode::IndirectX)),
        0x64 => Some(OpCode::new(0x64, "NOP", 2, 3, AddressingMode::ZeroPage)),
        0x65 => Some(OpCode::new(0x65, "ADC", 2, 3, AddressingMode::ZeroPage)),
        0x66 => Some(OpCode::new(0x66, "ROR", 2, 5, AddressingMode::ZeroPage)),
        0x67 => Some(OpCode::new(0x67, "RRA", 2, 5, AddressingMode::ZeroPage)),
        0x68 => Some(OpCode::new(0x68, "PLA", 1, 4, AddressingMode::NoneAddressing)),
        0x69 => Some(OpCode::new(0x69, "ADC", 2, 2, AddressingMode::Immediate)),
        0x6A => Some(OpCode::new(0x6A, "ROR", 1, 2, AddressingMode::NoneAddressing)),
        0x6C => Some(OpCode::new(0x6C, "JMP", 3, 5, AddressingMode::Indirect)),
        0x6D => Some(OpCode::new(0x6D, "ADC", 3, 4, AddressingMode::Absolute)),
        0x6E => Some(OpCode::new(0x6E, "ROR", 3, 6, AddressingMode::Absolute)),
        0x6F => Some(OpCode::new(0x6F, "RRA", 3, 6, AddressingMode::Absolute)),
        0x70 => Some(OpCode::new(0x70, "BVS", 2, 2, AddressingMode::NoneAddressing)),
        0x71 => Some(OpCode::new(0x71, "ADC", 2, 5, AddressingMode::IndirectY)),
        0x73 => Some(OpCode::new(0x73, "RRA", 2, 8, AddressingMode::IndirectY)),
        0x74 => Some(OpCode::new(0x74, "NOP", 2, 4, AddressingMode::ZeroPageX)),
        0x75 => Some(OpCode::new(0x75, "ADC", 2, 4, AddressingMode::ZeroPageX)),
        0x76 => Some(OpCode::new(0x76, "ROR", 2, 6, AddressingMode::ZeroPageX)),
        0x77 => Some(OpCode::new(0x77, "RRA", 2, 6, AddressingMode::ZeroPageX)),
        0x78 => Some(OpCode::new(0x78, "SEI", 1, 2, AddressingMode::NoneAddressing)),
        0x79 => Some(OpCode::new(0x79, "ADC", 3, 4, AddressingMode::AbsoluteY)),
        0x7A => Some(OpCode::new(0x7A, "NOP", 1, 2, AddressingMode::NoneAddressing)),
        0x7B => Some(OpCode::new(0x7B, "RRA", 3, 7, AddressingMode::AbsoluteY)),
        0x7C => Some(OpCode::new(0x7C, "NOP", 3, 4, AddressingMode::AbsoluteX)),
        0x7D => Some(OpCode::new(0x7D, "ADC", 3, 4, AddressingMode::AbsoluteX)),
        0x7E => Some(OpCode::new(0x7E, "ROR", 3, 7, AddressingMode::AbsoluteX)),
        0x7F => Some(OpCode::new(0x7F, "RRA", 3, 7, AddressingMode::AbsoluteX)),
        _ => None,
    }
}

/// The rows for the opcode bytes from $80 to $9F.
fn lookup_80_9f(code: u8) -> (opcode: Option<OpCode>)
    requires
        0x80 <= code <= 0x9F,
    ensures
        opcode == entry(code),
{
    proof {
        reveal(entry);
    }
    match code {
        0x80 => Some(OpCode::new(0x80, "NOP", 2, 2, AddressingMode::Immediate)),
        0x81 => Some(OpCode::new(0x81, "STA", 2, 6, AddressingMode::IndirectX)),
        0x82 => Some(OpCode::new(0x82, "NOP", 2, 2, AddressingMode::Immediate)),
        0x83 => Some(OpCode::new(0x83, "SAX", 2, 6, AddressingMode::IndirectX)),
        0x84 => Some(OpCode::new(0x84, "STY", 2, 3, AddressingMode::ZeroPage)),
        0x85 => Some(OpCode::new(0x85, "STA", 2, 3, AddressingMode::ZeroPage)),
        0x86 => Some(OpCode::new(0x86, "STX", 2, 3, AddressingMode::ZeroPage)),
        0x87 => Some(OpCode::new(0x87, "SAX", 2, 3, AddressingMode::ZeroPage)),
        0x88 => Some(OpCode::new(0x88, "DEY", 1, 2, AddressingMode::NoneAddressing)),
        0x89 => Some(OpCode::new(0x89, "NOP", 2, 2, AddressingMode::Immediate)),
        0x8A => Some(OpCode::new(0x8A, "TXA", 1, 2, AddressingMode::NoneAddressing)),
        0x8C => Some(OpCode::new(0x8C, "STY", 3, 4, AddressingMode::Absolute)),
        0x8D => Some(OpCode::new(0x8D, "STA", 3, 4, AddressingMode::Absolute)),
        0x8E => Some(OpCode::new(0x8E, "STX", 3, 4, AddressingMode::Absolute)),
        0x8F => Some(OpCode::new(0x8F, "SAX", 3, 4, AddressingMode::Absolute)),
        0x90 => Some(OpCode::new(0x90, "BCC", 2, 2, AddressingMode::NoneAddressing)),
        0x91 => Some(OpCode::new(0x91, "STA", 2, 6, AddressingMode::IndirectY)),
        0x94 => Some(OpCode::new(0x94, "STY", 2, 4, AddressingMode::ZeroPageX)),
        0x95 => Some(OpCode::new(0x95, "STA", 2, 4, AddressingMode::ZeroPageX)),
        0x96 => Some(OpCode::new(0x96, "STX", 2, 4, AddressingMode::ZeroPageY)),
        0x97 => Some(OpCode::new(0x97, "SAX", 2, 4, AddressingMode::ZeroPageY)),
        0x98 => Some(OpCode::new(0x98, "TYA", 1, 2, AddressingMode::NoneAddressing)),
        0x99 => Some(OpCode::new(0x99, "STA", 3, 5, AddressingMode::AbsoluteY)),
        0x9A => Some(OpCode::new(0x9A, "TXS", 1, 2, AddressingMode::NoneAddressing)),
        0x9D => Some(OpCode::new(0x9D, "STA", 3, 5, AddressingMode::AbsoluteX)),
        _ => None,
    }
}

/// The rows for the opcode bytes from $A0 to $BF.
fn lookup_a0_bf(code: u8) -> (opcode: Option<OpCode>)
    requires
        0xA0 <= code <= 0xBF,
    ensures
        opcode == entry(code),
{
    proof {
        reveal(entry);
    }
    match code {
        0xA0 => Some(OpCode::new(0xA0, "LDY", 2, 2, AddressingMode::Immediate)),
        0xA1 => Some(OpCode::new(0xA1, "LDA", 2, 6, AddressingMode::IndirectX)),
        0xA2 => Some(OpCode::new(0xA2, "LDX", 2, 2, AddressingMode::Immediate)),
        0xA3 => Some(OpCode::new(0xA3, "LAX", 2, 6, AddressingMode::IndirectX)),
        0xA4 => Some(OpCode::new(0xA4, "LDY", 2, 3, AddressingMode::ZeroPage)),
        0xA5 => Some(OpCode::new(0xA5, "LDA", 2, 3, AddressingMode::ZeroPage)),
        0xA6 => Some(OpCode::new(0xA6, "LDX", 2, 3, AddressingMode::ZeroPage)),
        0xA7 => Some(OpCode::new(0xA7, "LAX", 2, 3, AddressingMode::ZeroPage)),
        0xA8 => Some(OpCode::new(0xA8, "TAY", 1, 2, AddressingMode::NoneAddressing)),
        0xA9 => Some(OpCode::new(0xA9, "LDA", 2, 2, AddressingMode::Immediate)),
        0xAA => Some(OpCode::new(0xAA, "TAX", 1, 2, AddressingMode::NoneAddressing)),
        0xAC => Some(OpCode::new(0xAC, "LDY", 3, 4, AddressingMode::Absolute)),
        0xAD => Some(OpCode::new(0xAD, "LDA", 3, 4, AddressingMode::Absolute)),
        0xAE => Some(OpCode::new(0xAE, "LDX", 3, 4, AddressingMode::Absolute)),
        0xAF => Some(OpCode::new(0xAF, "LAX", 3, 4, AddressingMode::Absolute)),
        0xB0 => Some(OpCode::new(0xB0, "BCS", 2, 2, AddressingMode::NoneAddressing)),
        0xB1 => Some(OpCode::new(0xB1, "LDA", 2, 5, AddressingMode::IndirectY)),
        0xB3 => Some(OpCode::new(0xB3, "LAX", 2, 5, AddressingMode::IndirectY)),
        0xB4 => Some(OpCode::new(0xB4, "LDY", 2, 4, AddressingMode::ZeroPageX)),
        0xB5 => Some(OpCode::new(0xB5, "LDA", 2, 4, AddressingMode::ZeroPageX)),
        0xB6 => Some(OpCode::new(0xB6, "LDX", 2, 4, AddressingMode::ZeroPageY)),
        0xB7 => Some(OpCode::new(0xB7, "LAX", 2, 4, AddressingMode::ZeroPageY)),
        0xB8 => Some(OpCode::new(0xB8, "CLV", 1, 2, AddressingMode::NoneAddressing)),
        0xB9 => Some(OpCode::new(0xB9, "LDA", 3, 4, AddressingMode::AbsoluteY)),
        0xBA => Some(OpCode::new(0xBA, "TSX", 1, 2, AddressingMode::NoneAddressing)),
        0xBC => Some(OpCode::new(0xBC, "LDY", 3, 4, AddressingMode::AbsoluteX)),
        0xBD => Some(OpCode::new(0xBD, "LDA", 3, 4, AddressingMode::AbsoluteX)),
        0xBE => Some(OpCode::new(0xBE, "LDX", 3, 4, AddressingMode::AbsoluteY)),
        0xBF => Some(OpCode::new(0xBF, "LAX", 3, 4, AddressingMode::AbsoluteY)),
        _ => None,
    }
}

/// The rows for the opcode bytes from $C0 to $DF.
fn lookup_c0_df(code: u8) -> (opcode: Option<OpCode>)
    requires
        0xC0 <= code <= 0xDF,
    ensures
        opcode == entry(code),
{
    proof {
        reveal(entry);
    }
    match code {
        0xC0 => Some(OpCode::new(0xC0, "CPY", 2, 2, AddressingMode::Immediate)),
        0xC1 => Some(OpCode::new(0xC1, "CMP", 2, 6, AddressingMode::IndirectX)),
        0xC2 => Some(OpCode::new(0xC2, "NOP", 2, 2, AddressingMode::Immediate)),
        0xC3 => Some(OpCode::new(0xC3, "DCP", 2, 8, AddressingMode::IndirectX)),
        0xC4 => Some(OpCode::new(0xC4, "CPY", 2, 3, AddressingMode::ZeroPage)),
        0xC5 => Some(OpCode::new(0xC5, "CMP", 2, 3, AddressingMode::ZeroPage)),
        0xC6 => Some(OpCode::new(0xC6, "DEC", 2, 5, AddressingMode::ZeroPage)),
        0xC7 => Some(OpCode::new(0xC7, "DCP", 2, 5, AddressingMode::ZeroPage)),
        0xC8 => Some(OpCode::new(0xC8, "INY", 1, 2, AddressingMode::NoneAddressing)),
        0xC9 => Some(OpCode::new(0xC9, "CMP", 2, 2, AddressingMode::Immediate)),
        0xCA => Some(OpCode::new(0xCA, "DEX", 1, 2, AddressingMode::NoneAddressing)),
        0xCC => Some(OpCode::new(0xCC, "CPY", 3, 4, AddressingMode::Absolute)),
        0xCD => Some(OpCode::new(0xCD, "CMP", 3, 4, AddressingMode::Absolute)),
        0xCE => Some(OpCode::new(0xCE, "DEC", 3, 6, AddressingMode::Absolute)),
        0xCF => Some(OpCode::new(0xCF, "DCP", 3, 6, AddressingMode::Absolute)),
        0xD0 => Some(OpCode::new(0xD0, "BNE", 2, 2, AddressingMode::NoneAddressing)),
        0xD1 => Some(OpCode::new(0xD1, "CMP", 2, 5, AddressingMode::IndirectY)),
        0xD3 => Some(OpCode::new(0xD3, "DCP", 2, 8, AddressingMode::IndirectY)),
        0xD4 => Some(OpCode::new(0xD4, "NOP", 2, 4, AddressingMode::ZeroPageX)),
        0xD5 => Some(OpCode::new(0xD5, "CMP", 2, 4, AddressingMode::ZeroPageX)),
        0xD6 => Some(OpCode::new(0xD6, "DEC", 2, 6, AddressingMode::ZeroPageX)),
        0xD7 => Some(OpCode::new(0xD7, "DCP", 2, 6, AddressingMode::ZeroPageX)),
        0xD8 => Some(OpCode::new(0xD8, "CLD", 1, 2, AddressingMode::NoneAddressing)),
        0xD9 => Some(OpCode::new(0xD9, "CMP", 3, 4, AddressingMode::AbsoluteY)),
        0xDA => Some(OpCode::new(0xDA, "NOP", 1, 2, AddressingMode::NoneAddressing)),
        0xDB => Some(OpCode::new(0xDB, "DCP", 3, 7, AddressingMode::AbsoluteY)),
        0xDC => Some(OpCode::new(0xDC, "NOP", 3, 4, AddressingMode::AbsoluteX)),
        0xDD => Some(OpCode::new(0xDD, "CMP", 3, 4, AddressingMode::AbsoluteX)),
        0xDE => Some(OpCode::new(0xDE, "DEC", 3, 7, AddressingMode::AbsoluteX)),
        0xDF => Some(OpCode::new(0xDF, "DCP", 3, 7, AddressingMode::AbsoluteX)),
        _ => None,
    }
}

/// The rows for the opcode bytes from $E0 to $FF.
fn lookup_e0_ff(code: u8) -> (opcode: Option<OpCode>)
    requires
        0xE0 <= code <= 0xFF,
    ensures
        opcode == entry(code),
{
    proof {
        reveal(entry);
    }
    match code {
        0xE0 => Some(OpCode::new(0xE0, "CPX", 2, 2, AddressingMode::Immediate)),
        0xE1 => Some(OpCode::new(0xE1, "SBC", 2, 6, AddressingMode::IndirectX)),
        0xE2 => Some(OpCode::new(0xE2, "NOP", 2, 2, AddressingMode::Immediate)),
        0xE3 => Some(OpCode::new(0xE3, "ISB", 2, 8, AddressingMode::IndirectX)),
        0xE4 => Some(OpCode::new(0xE4, "CPX", 2, 3, AddressingMode::ZeroPage)),
        0xE5 => Some(OpCode::new(0xE5, "SBC", 2, 3, AddressingMode::ZeroPage)),
        0xE6 => Some(OpCode::new(0xE6, "INC", 2, 5, AddressingMode::ZeroPage)),
        0xE7 => Some(OpCode::new(0xE7, "ISB", 2, 5, AddressingMode::ZeroPage)),
        0xE8 => Some(OpCode::new(0xE8, "INX", 1, 2, AddressingMode::NoneAddressing)),
        0xE9 => Some(OpCode::new(0xE9, "SBC", 2, 2, AddressingMode::Immediate)),
        0xEA => Some(OpCode::new(0xEA, "NOP", 1, 2, AddressingMode::NoneAddressing)),
        0xEB => Some(OpCode::new(0xEB, "SBC", 2, 2, AddressingMode::Immediate)),
        0xEC => Some(OpCode::new(0xEC, "CPX", 3, 4, AddressingMode::Absolute)),
        0xED => Some(OpCode::new(0xED, "SBC", 3, 4, AddressingMode::Absolute)),
        0xEE => Some(OpCode::new(0xEE, "INC", 3, 6, AddressingMode::Absolute)),
        0xEF => Some(OpCode::new(0xEF, "ISB", 3, 6, AddressingMode::Absolute)),
        0xF0 => Some(OpCode::new(0xF0, "BEQ", 2, 2, AddressingMode::NoneAddressing)),
        0xF1 => Some(OpCode::new(0xF1, "SBC", 2, 5, AddressingMode::IndirectY)),
        0xF3 => Some(OpCode::new(0xF3, "ISB", 2, 8, AddressingMode::IndirectY)),
        0xF4 => Some(OpCode::new(0xF4, "NOP", 2, 4, AddressingMode::ZeroPageX)),
        0xF5 => Some(OpCode::new(0xF5, "SBC", 2, 4, AddressingMode::ZeroPageX)),
        0xF6 => Some(OpCode::new(0xF6, "INC", 2, 6, AddressingMode::ZeroPageX)),
        0xF7 => Some(OpCode::new(0xF7, "ISB", 2, 6, AddressingMode::ZeroPageX)),
        0xF8 => Some(OpCode::new(0xF8, "SED", 1, 2, AddressingMode::NoneAddressing)),
        0xF9 => Some(OpCode::new(0xF9, "SBC", 3, 4, AddressingMode::AbsoluteY)),
        0xFA => Some(OpCode::new(0xFA, "NOP", 1, 2, AddressingMode::NoneAddressing)),
        0xFB => Some(OpCode::new(0xFB, "ISB", 3, 7, AddressingMode::AbsoluteY)),
        0xFC => Some(OpCode::new(0xFC, "NOP", 3, 4, AddressingMode::AbsoluteX)),
        0xFD => Some(OpCode::new(0xFD, "SBC", 3, 4, AddressingMode::AbsoluteX)),
        0xFE => Some(OpCode::new(0xFE, "INC", 3, 7, AddressingMode::AbsoluteX)),
        0xFF => Some(OpCode::new(0xFF, "ISB", 3, 7, AddressingMode::AbsoluteX)),
        _ => None,
    }
}

/// Looks an opcode byte up in the table. The rows are kept a second time
/// for that, in the order of their opcode bytes and in eight parts.
pub fn lookup(code: u8) -> (opcode: Option<OpCode>)
    ensures
        opcode == entry(code),
{
    if code <= 0x1F {
        lookup_00_1f(code)
    } else if code <= 0x3F {
        lookup_20_3f(code)
    } else if code <= 0x5F {
        lookup_40_5f(code)
    } else if code <= 0x7F {
        lookup_60_7f(code)
    } else if code <= 0x9F {
        lookup_80_9f(code)
    } else if code <= 0xBF {
        lookup_a0_bf(code)
    } else if code <= 0xDF {
        lookup_c0_df(code)
    } else {
        lookup_e0_ff(code)
    }
}

/// Every row is filed under its own opcode byte and is one to three bytes
/// long. The modes that take a one-byte operand belong to two-byte
/// instructions, those that take an address to three-byte ones. Without a
/// mode an instruction has one byte, or two if it is a branch.
pub proof fn lemma_entry_shape(code: u8)
    requires
        entry(code) is Some,
    ensures
        entry(code)->Some_0.code == code,
        1 <= entry(code)->Some_0.len <= 3,
        match entry(code)->Some_0.mode {
            AddressingMode::NoneAddressing => entry(code)->Some_0.len <= 2,
            AddressingMode::Absolute
            | AddressingMode::AbsoluteX
            | AddressingMode::AbsoluteY
            | AddressingMode::Indirect => entry(code)->Some_0.len == 3,
            _ => entry(code)->Some_0.len == 2,
        },
{
    reveal(entry);
}

/// The row for the opcode byte $00 is that of `BRK`.
pub proof fn lemma_entry_brk()
    ensures
        entry(0x00) == Some(
            OpCode {
                code: 0x00,
                name: "BRK",
                len: 1,
                cycles: 7,
                mode: AddressingMode::NoneAddressing,
            },
        ),
{
    reveal(entry);
}

} // verus!

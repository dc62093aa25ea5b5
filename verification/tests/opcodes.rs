use rust_nes::cpu::AddressingMode;
use rust_nes::opcodes::{lookup, OpCode};

fn row(code: u8) -> (String, u8, u8, AddressingMode) {
    let opcode = lookup(code).unwrap();
    assert_eq!(opcode.code, code);
    (opcode.name.to_string(), opcode.len, opcode.cycles, opcode.mode)
}

fn expect(code: u8, name: &str, len: u8, cycles: u8, mode: AddressingMode) {
    assert_eq!(row(code), (name.to_string(), len, cycles, mode));
}

#[test]
fn new_keeps_what_it_is_given() {
    let opcode = OpCode::new(0x42, "XYZ", 3, 9, AddressingMode::IndirectY);
    assert_eq!(opcode.code, 0x42);
    assert_eq!(opcode.name, "XYZ");
    assert_eq!(opcode.len, 3);
    assert_eq!(opcode.cycles, 9);
    assert_eq!(opcode.mode, AddressingMode::IndirectY);
}

#[test]
fn the_table_has_233_rows() {
    let known = (0..=255u8).filter(|code| lookup(*code).is_some()).count();
    assert_eq!(known, 233);
}

#[test]
fn every_row_is_well_shaped() {
    for code in 0..=255u8 {
        if let Some(opcode) = lookup(code) {
            assert_eq!(opcode.code, code);
            assert!(1 <= opcode.len && opcode.len <= 3);
            assert_eq!(opcode.name.len(), 3);
            assert!(opcode.name.chars().all(|c| c.is_ascii_uppercase()));
            assert!(2 <= opcode.cycles && opcode.cycles <= 8);
            let expected_len = match opcode.mode {
                AddressingMode::Absolute
                | AddressingMode::AbsoluteX
                | AddressingMode::AbsoluteY
                | AddressingMode::Indirect => 3,
                AddressingMode::NoneAddressing => opcode.len,
                _ => 2,
            };
            assert_eq!(opcode.len, expected_len);
            if opcode.mode == AddressingMode::NoneAddressing {
                assert!(opcode.len <= 2);
            }
        }
    }
}

#[test]
fn unknown_bytes_have_no_row() {
    for code in [0x02u8, 0x12, 0x22, 0x4B, 0x6B, 0x8B, 0x9C, 0xAB, 0xBB, 0xCB, 0xF2] {
        assert!(lookup(code).is_none());
    }
}

#[test]
fn documented_rows() {
    expect(0x00, "BRK", 1, 7, AddressingMode::NoneAddressing);
    expect(0x69, "ADC", 2, 2, AddressingMode::Immediate);
    expect(0x65, "ADC", 2, 3, AddressingMode::ZeroPage);
    expect(0x75, "ADC", 2, 4, AddressingMode::ZeroPageX);
    expect(0x6D, "ADC", 3, 4, AddressingMode::Absolute);
    expect(0x7D, "ADC", 3, 4, AddressingMode::AbsoluteX);
    expect(0x79, "ADC", 3, 4, AddressingMode::AbsoluteY);
    expect(0x61, "ADC", 2, 6, AddressingMode::IndirectX);
    expect(0x71, "ADC", 2, 5, AddressingMode::IndirectY);
    expect(0x0A, "ASL", 1, 2, AddressingMode::NoneAddressing);
    expect(0x1E, "ASL", 3, 7, AddressingMode::AbsoluteX);
    expect(0x24, "BIT", 2, 3, AddressingMode::ZeroPage);
    expect(0x2C, "BIT", 3, 4, AddressingMode::Absolute);
    expect(0x4C, "JMP", 3, 3, AddressingMode::Absolute);
    expect(0x6C, "JMP", 3, 5, AddressingMode::Indirect);
    expect(0x20, "JSR", 3, 6, AddressingMode::Absolute);
    expect(0x60, "RTS", 1, 6, AddressingMode::NoneAddressing);
    expect(0x40, "RTI", 1, 6, AddressingMode::NoneAddressing);
    expect(0xB6, "LDX", 2, 4, AddressingMode::ZeroPageY);
    expect(0xBE, "LDX", 3, 4, AddressingMode::AbsoluteY);
    expect(0x91, "STA", 2, 6, AddressingMode::IndirectY);
    expect(0x9D, "STA", 3, 5, AddressingMode::AbsoluteX);
    expect(0x96, "STX", 2, 4, AddressingMode::ZeroPageY);
    expect(0x84, "STY", 2, 3, AddressingMode::ZeroPage);
    expect(0x8C, "STY", 3, 4, AddressingMode::Absolute);
    expect(0x94, "STY", 2, 4, AddressingMode::ZeroPageX);
    expect(0x48, "PHA", 1, 3, AddressingMode::NoneAddressing);
    expect(0x68, "PLA", 1, 4, AddressingMode::NoneAddressing);
    expect(0x08, "PHP", 1, 3, AddressingMode::NoneAddressing);
    expect(0x28, "PLP", 1, 4, AddressingMode::NoneAddressing);
    expect(0xCA, "DEX", 1, 2, AddressingMode::NoneAddressing);
    expect(0x88, "DEY", 1, 2, AddressingMode::NoneAddressing);
    expect(0xEA, "NOP", 1, 2, AddressingMode::NoneAddressing);
}

#[test]
fn branches_have_two_bytes_and_no_mode() {
    let branches = [
        (0x10u8, "BPL"),
        (0x30, "BMI"),
        (0x50, "BVC"),
        (0x70, "BVS"),
        (0x90, "BCC"),
        (0xB0, "BCS"),
        (0xD0, "BNE"),
        (0xF0, "BEQ"),
    ];
    for (code, name) in branches {
        expect(code, name, 2, 2, AddressingMode::NoneAddressing);
    }
}

#[test]
fn undocumented_rows() {
    expect(0x0B, "ANC", 2, 2, AddressingMode::Immediate);
    expect(0x2B, "ANC", 2, 2, AddressingMode::Immediate);
    expect(0xEB, "SBC", 2, 2, AddressingMode::Immediate);
    expect(0xA7, "LAX", 2, 3, AddressingMode::ZeroPage);
    expect(0xB7, "LAX", 2, 4, AddressingMode::ZeroPageY);
    expect(0xBF, "LAX", 3, 4, AddressingMode::AbsoluteY);
    expect(0x87, "SAX", 2, 3, AddressingMode::ZeroPage);
    expect(0x97, "SAX", 2, 4, AddressingMode::ZeroPageY);
    expect(0x83, "SAX", 2, 6, AddressingMode::IndirectX);
    expect(0xC7, "DCP", 2, 5, AddressingMode::ZeroPage);
    expect(0xDB, "DCP", 3, 7, AddressingMode::AbsoluteY);
    expect(0xE3, "ISB", 2, 8, AddressingMode::IndirectX);
    expect(0xFF, "ISB", 3, 7, AddressingMode::AbsoluteX);
    expect(0x03, "SLO", 2, 8, AddressingMode::IndirectX);
    expect(0x13, "SLO", 2, 8, AddressingMode::IndirectY);
    expect(0x1B, "SLO", 3, 7, AddressingMode::AbsoluteY);
    expect(0x27, "RLA", 2, 5, AddressingMode::ZeroPage);
    expect(0x47, "SRE", 2, 5, AddressingMode::ZeroPage);
    expect(0x67, "RRA", 2, 5, AddressingMode::ZeroPage);
    expect(0x1A, "NOP", 1, 2, AddressingMode::NoneAddressing);
    expect(0x04, "NOP", 2, 3, AddressingMode::ZeroPage);
    expect(0x14, "NOP", 2, 4, AddressingMode::ZeroPageX);
    expect(0x80, "NOP", 2, 2, AddressingMode::Immediate);
    expect(0x0C, "NOP", 3, 4, AddressingMode::Absolute);
    expect(0xFC, "NOP", 3, 4, AddressingMode::AbsoluteX);
}

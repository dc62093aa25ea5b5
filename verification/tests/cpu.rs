use std::collections::HashMap;

use rand::Rng;

use rust_nes::bus::Bus;
use rust_nes::cartridge::create_test_cartridge;
use rust_nes::cpu::{AddressingMode, RunEnd, CPU};

fn create_new_cpu() -> CPU {
    let cartridge = create_test_cartridge(false);
    let bus = Bus::new(cartridge);

    CPU::new(bus)
}

fn check_zero_and_neg_flags(cpu: &CPU, expected_zero_flag: bool, expected_neg_flag: bool) {
    if expected_zero_flag {
        assert!(cpu.status & 0b0000_0010 == 0b10);
    } else {
        assert!(cpu.status & 0b0000_0010 == 0b00);
    }

    if expected_neg_flag {
        assert!(cpu.status & 0b1000_0000 == 0b1000_0000);
    } else {
        assert!(cpu.status & 0b1000_0000 == 0b00);
    }
}

fn check_carry_flag(cpu: &CPU, expected_carry_flag: bool) {
    if expected_carry_flag {
        assert!(cpu.status & 0b0000_0001 == 0b01);
    } else {
        assert!(cpu.status & 0b0000_0001 == 0b00);
    }
}

fn check_decimal_flag(cpu: &CPU, expected_decimal_flag: bool) {
    if expected_decimal_flag {
        assert!(cpu.status & 0b0000_1000 == 0b1000);
    } else {
        assert!(cpu.status & 0b0000_1000 == 0b00);
    }
}

fn check_interrupt_disable_flag(cpu: &CPU, expected_interrupt_disable_flag: bool) {
    if expected_interrupt_disable_flag {
        assert!(cpu.status & 0b0000_0100 == 0b100);
    } else {
        assert!(cpu.status & 0b0000_0100 == 0b00);
    }
}

fn check_overflow_flag(cpu: &CPU, expected_overflow_flag: bool) {
    if expected_overflow_flag {
        assert!(cpu.status & 0b0100_0000 == 0b0100_0000);
    } else {
        assert!(cpu.status & 0b0100_0000 == 0b00);
    }
}

/// Loads the program at $0600, resets and runs to the first BRK.
fn interpret(cpu: &mut CPU, program: Vec<u8>) {
    assert_eq!(cpu.interpret(program), Ok(RunEnd::Break));
}

/// Loads the program at `base` and runs from there to the first BRK.
fn interpret_without_reset(cpu: &mut CPU, program: Vec<u8>, base: u16) {
    assert_eq!(cpu.interpret_without_reset(program, base), Ok(RunEnd::Break));
}

fn reset(cpu: &mut CPU) {
    assert_eq!(cpu.reset(), Ok(()));
}

/// One case of an opcode test: reset, set the registers up, build a program
/// around the opcode and run it from address 0.
fn run_case(
    cpu: &mut CPU,
    opcode: u8,
    addressing_mode: &AddressingMode,
    value: u16,
    setup: impl FnOnce(&mut CPU),
    xydeviation: u8,
) {
    reset(cpu);
    setup(cpu);

    let instructions = build_instructions(opcode, addressing_mode, value, xydeviation);

    interpret_without_reset(cpu, instructions, 0x00);
}

fn build_instructions(opcode: u8, addressing_mode: &AddressingMode, value: u16, xydeviation: u8) -> Vec<u8> {
    let mut result = vec![opcode];
    let mut rng = rand::thread_rng();

    let number_of_random_bytes = rng.gen_range(5, 14) as u8;
    let random_numbers: Vec<u8> = (0..number_of_random_bytes)
        .map(|_| rng.gen_range(1 , 77))
        .collect();

    match addressing_mode {
        AddressingMode::NoneAddressing => {
            // do nothing
        },
        AddressingMode::Immediate => {
            result.push(value as u8);
        },
        AddressingMode::Absolute => {
            let address = 1 + 2 + 1 + number_of_random_bytes; // len(opcode) + len(address) + len(BRK opcode)
            result.extend_from_slice(&(address as u16).to_le_bytes());
        },
        AddressingMode::AbsoluteX => {
            let address = 1 + 2 + 1 + number_of_random_bytes; // len(opcode) + len(address) + len(BRK opcode)
            result.extend_from_slice(&(address as u16).to_le_bytes());
            result.extend_from_slice(&vec![0x00; xydeviation as usize]);
        },
        AddressingMode::AbsoluteY => {
            let address = 1 + 2 + 1 + number_of_random_bytes; // len(opcode) + len(address) + len(BRK opcode)
            result.extend_from_slice(&(address as u16).to_le_bytes());
            result.extend_from_slice(&vec![0x00; xydeviation as usize]);
        },
        AddressingMode::ZeroPage => {
            let address = 1 + 1 + 1 + number_of_random_bytes; // len(opcode) + len(address) + len(BRK opcode)
            result.extend_from_slice(&address.to_le_bytes());
        },
        AddressingMode::ZeroPageX => {
            let address = 1 + 1 + 1 + number_of_random_bytes; // len(opcode) + len(address) + len(BRK opcode)
            result.extend_from_slice(&address.to_le_bytes());
            result.extend_from_slice(&vec![0x00; xydeviation as usize]);
        },
        AddressingMode::ZeroPageY => {
            let address = 1 + 1 + 1 + number_of_random_bytes; // len(opcode) + len(address) + len(BRK opcode)
            result.extend_from_slice(&address.to_le_bytes());
            result.extend_from_slice(&vec![0x00; xydeviation as usize]);
        },
        AddressingMode::Indirect => {
            let address_of_address = 1 + 1 + 1; // len(opcode) + len(address_of_address) + len(BRK opcode) + len(obscurity)
            let address = 1 + 1 + 1 + 2 + 1 + number_of_random_bytes;
            // len(opcode) + len(address_of_address) + len(BRK opcode) + len(obscurity) + len(address) + len(superfluous BRK) + len(random bytes)
            result.extend_from_slice(&(address_of_address as u8).to_le_bytes()); // this is the address of the address...
            result.push(0x00);
            result.extend_from_slice(&(address as u16).to_le_bytes());
        },
        AddressingMode::IndirectX => {
            let address_of_address = 1 + 1 + 1; // len(opcode) + len(address_of_address) + len(BRK opcode) + len(obscurity)
            let address = 1 + 1 + 1 + xydeviation + 2 + 1 + number_of_random_bytes;
            // len(opcode) + len(address_of_address) + len(BRK opcode) + len(obscurity) + len(address) + len(superfluous BRK) + len(random bytes)
            result.extend_from_slice(&(address_of_address as u8).to_le_bytes()); // this is the address of the address...
            result.push(0x00);
            result.extend_from_slice(&vec![0x00; xydeviation as usize]);
            result.extend_from_slice(&(address as u16).to_le_bytes());
        },
        AddressingMode::IndirectY => {
            let address_of_address = 1 + 1 + 1; // len(opcode) + len(address_of_address) + len(BRK opcode) + len(obscurity)
            let address = 1 + 1 + 1 + 2 + 1 + number_of_random_bytes;
            // len(opcode) + len(address_of_address) + len(BRK opcode) + len(obscurity) + len(address) + len(superfluous BRK) + len(random bytes)
            result.extend_from_slice(&(address_of_address as u8).to_le_bytes()); // this is the address of the address...
            result.push(0x00);
            result.extend_from_slice(&(address as u16).to_le_bytes());
            result.extend_from_slice(&vec![0x00; xydeviation as usize]);
        },
    }

    result.push(0x00);

    result.extend_from_slice(&random_numbers);

    result.extend_from_slice(&value.to_le_bytes());

    result.extend_from_slice(&random_numbers);

    result
}

#[test]
fn snake() {
    let game_code = vec![
0x20, 0x06, 0x06, 0x20, 0x38, 0x06, 0x20, 0x0d, 0x06, 0x20, 0x2a, 0x06, 0x60, 0xa9, 0x02, 0x85,
0x02, 0xa9, 0x04, 0x85, 0x03, 0xa9, 0x11, 0x85, 0x10, 0xa9, 0x10, 0x85, 0x12, 0xa9, 0x0f, 0x85,
0x14, 0xa9, 0x04, 0x85, 0x11, 0x85, 0x13, 0x85, 0x15, 0x60, 0xa5, 0xfe, 0x85, 0x00, 0xa5, 0xfe,
0x29, 0x03, 0x18, 0x69, 0x02, 0x85, 0x01, 0x60, 0x20, 0x4d, 0x06, 0x20, 0x8d, 0x06, 0x20, 0xc3,
0x06, 0x20, 0x19, 0x07, 0x20, 0x20, 0x07, 0x20, 0x2d, 0x07, 0x4c, 0x38, 0x06, 0xa5, 0xff, 0xc9,
0x77, 0xf0, 0x0d, 0xc9, 0x64, 0xf0, 0x14, 0xc9, 0x73, 0xf0, 0x1b, 0xc9, 0x61, 0xf0, 0x22, 0x60,
0xa9, 0x04, 0x24, 0x02, 0xd0, 0x26, 0xa9, 0x01, 0x85, 0x02, 0x60, 0xa9, 0x08, 0x24, 0x02, 0xd0,
0x1b, 0xa9, 0x02, 0x85, 0x02, 0x60, 0xa9, 0x01, 0x24, 0x02, 0xd0, 0x10, 0xa9, 0x04, 0x85, 0x02,
0x60, 0xa9, 0x02, 0x24, 0x02, 0xd0, 0x05, 0xa9, 0x08, 0x85, 0x02, 0x60, 0x60, 0x20, 0x94, 0x06,
0x20, 0xa8, 0x06, 0x60, 0xa5, 0x00, 0xc5, 0x10, 0xd0, 0x0d, 0xa5, 0x01, 0xc5, 0x11, 0xd0, 0x07,
0xe6, 0x03, 0xe6, 0x03, 0x20, 0x2a, 0x06, 0x60, 0xa2, 0x02, 0xb5, 0x10, 0xc5, 0x10, 0xd0, 0x06,
0xb5, 0x11, 0xc5, 0x11, 0xf0, 0x09, 0xe8, 0xe8, 0xe4, 0x03, 0xf0, 0x06, 0x4c, 0xaa, 0x06, 0x4c,
0x35, 0x07, 0x60, 0xa6, 0x03, 0xca, 0x8a, 0xb5, 0x10, 0x95, 0x12, 0xca, 0x10, 0xf9, 0xa5, 0x02,
0x4a, 0xb0, 0x09, 0x4a, 0xb0, 0x19, 0x4a, 0xb0, 0x1f, 0x4a, 0xb0, 0x2f, 0xa5, 0x10, 0x38, 0xe9,
0x20, 0x85, 0x10, 0x90, 0x01, 0x60, 0xc6, 0x11, 0xa9, 0x01, 0xc5, 0x11, 0xf0, 0x28, 0x60, 0xe6,
0x10, 0xa9, 0x1f, 0x24, 0x10, 0xf0, 0x1f, 0x60, 0xa5, 0x10, 0x18, 0x69, 0x20, 0x85, 0x10, 0xb0,
0x01, 0x60, 0xe6, 0x11, 0xa9, 0x06, 0xc5, 0x11, 0xf0, 0x0c, 0x60, 0xc6, 0x10, 0xa5, 0x10, 0x29,
0x1f, 0xc9, 0x1f, 0xf0, 0x01, 0x60, 0x4c, 0x35, 0x07, 0xa0, 0x00, 0xa5, 0xfe, 0x91, 0x00, 0x60,
0xa6, 0x03, 0xa9, 0x00, 0x81, 0x10, 0xa2, 0x00, 0xa9, 0x01, 0x81, 0x10, 0x60, 0xa2, 0x00, 0xea,
0xea, 0xca, 0xd0, 0xfb, 0x60
];

    let mut cpu = create_new_cpu();
    interpret(&mut cpu, game_code);
}

#[test]
fn test_sta_and_lda_from_memory() {
    let mut cpu = create_new_cpu();
    interpret(&mut cpu, vec![0xa9, 0x07, 0x8D, 0x00, 0x00, 0xa9, 0x02, 0xAE, 0x00, 0x00, 0x00]);

    assert_eq!(cpu.register_a, 0x02);
    assert_eq!(cpu.register_x, 0x07);
}

#[test]
fn test_inx_overflow() {
    let mut cpu = create_new_cpu();
    cpu.register_x = 0xff;
    interpret(&mut cpu, vec![0xa9, 0xff, 0xaa, 0xe8, 0xe8, 0x00]);
    
    assert_eq!(cpu.register_x, 1);
}

#[test]
fn test_and() {
    let mut cpu = create_new_cpu();
    let xydeviation = 7 as u8;

    run_case(&mut cpu, 0x29, &AddressingMode::Immediate, 0b0101_0101, |cpu: &mut CPU| { cpu.register_a = 0b0101; }, 0);
    assert_eq!(cpu.register_a, 0b0101);

    run_case(&mut cpu, 0x29, &AddressingMode::Immediate, 0b1101_0101, |cpu: &mut CPU| { cpu.register_a = 0b0000_0101; }, 0);
    assert_eq!(cpu.register_a, 0b0000_0101);
    check_zero_and_neg_flags(&cpu, false, false);

    run_case(&mut cpu, 0x29, &AddressingMode::Immediate, 0b1101_0101, |cpu: &mut CPU| { cpu.register_a = 0b1000_0101; }, 0);
    assert_eq!(cpu.register_a, 0b1000_0101);
    check_zero_and_neg_flags(&cpu, false, true);

    run_case(&mut cpu, 0x29, &AddressingMode::Immediate, 0b1010_0101, |cpu: &mut CPU| { cpu.register_a = 0b0101_1010; }, 0);
    assert_eq!(cpu.register_a, 0b0000_0000);
    check_zero_and_neg_flags(&cpu, true, false);

    run_case(&mut cpu, 0x2D, &AddressingMode::Absolute, 0b0101_0111, |cpu: &mut CPU| { cpu.register_a = 0b0011; }, 0);
    assert_eq!(cpu.register_a, 0b0011);

    run_case(&mut cpu, 0x3D, &AddressingMode::AbsoluteX, 0b0101_0111, |cpu: &mut CPU| { cpu.register_a = 0b0011; cpu.register_x = xydeviation; }, xydeviation);
    assert_eq!(cpu.register_a, 0b0011);

    run_case(&mut cpu, 0x39, &AddressingMode::AbsoluteY, 0b0101_0111, |cpu: &mut CPU| { cpu.register_a = 0b0011; cpu.register_y = xydeviation; }, xydeviation);
    assert_eq!(cpu.register_a, 0b0011);

    run_case(&mut cpu, 0x25, &AddressingMode::ZeroPage, 0b0101_0111, |cpu: &mut CPU| { cpu.register_a = 0b0101_0000; }, 0);
    assert_eq!(cpu.register_a, 0b0101_0000);

    run_case(&mut cpu, 0x35, &AddressingMode::ZeroPageX, 0b0101_0111, |cpu: &mut CPU| { cpu.register_a = 0b0011_0011; cpu.register_x = xydeviation; }, xydeviation);
    assert_eq!(cpu.register_a, 0b001_0011);

    run_case(&mut cpu, 0x21, &AddressingMode::IndirectX, 0b0101_0111, |cpu: &mut CPU| { cpu.register_a = 0b0101_0000; cpu.register_x = xydeviation; }, xydeviation);
    assert_eq!(cpu.register_a, 0b0101_0000);

    run_case(&mut cpu, 0x31, &AddressingMode::IndirectY, 0b0101_0111, |cpu: &mut CPU| { cpu.register_a = 0b0011_0011; cpu.register_y = xydeviation; }, xydeviation);
    assert_eq!(cpu.register_a, 0b001_0011);
}

#[test]
fn test_adc() {
    let mut cpu = create_new_cpu();

    // immediate addressing
    reset(&mut cpu);
    cpu.register_a = 0x22;
    interpret_without_reset(&mut cpu, vec![0x69, 0x33, 0x00], 0x00);
    assert_eq!(cpu.register_a, 0x55);

    // absolute addressing
    reset(&mut cpu);
    cpu.register_a = 0x25;
    interpret_without_reset(&mut cpu, vec![0x6D, 0x07, 0x00, 0x00, 0x04, 0x05, 0x06, 0x07, 0x08, 0x09, 0x0A], 0x00);
    assert_eq!(cpu.register_a, 0x2C);

    // absolute x addressing
    reset(&mut cpu);
    cpu.register_a = 0x33;
    cpu.register_x = 0x02;
    interpret_without_reset(&mut cpu, vec![0x7D, 0x07, 0x00, 0x00, 0x04, 0x05, 0x06, 0x07, 0x08, 0x09, 0x0A], 0x00);
    assert_eq!(cpu.register_a, 0x3C);

    // absolute y addressing
    reset(&mut cpu);
    cpu.register_a = 0x33;
    cpu.register_y = 0x04;
    interpret_without_reset(&mut cpu, vec![0x79, 0x07, 0x00, 0x00, 0x04, 0x05, 0x06, 0x07, 0x08, 0x09, 0x0A, 0x10, 0x20], 0x00);
    assert_eq!(cpu.register_a, 0x43);

    // zero page addressing
    reset(&mut cpu);
    cpu.register_a = 0x23;
    interpret_without_reset(&mut cpu, vec![0x65, 0x07, 0x00, 0x00, 0x04, 0x05, 0x06, 0x07, 0x08, 0x09, 0x0A], 0x00);
    assert_eq!(cpu.register_a, 0x2A);

    // zero page x addressing
    reset(&mut cpu);
    cpu.register_a = 0x23;
    cpu.register_x = 0x02;
    interpret_without_reset(&mut cpu, vec![0x75, 0x07, 0x00, 0x00, 0x04, 0x05, 0x06, 0x07, 0x08, 0x09, 0x0A], 0x00);
    assert_eq!(cpu.register_a, 0x2C);

    // zero page x wrap addressing
    reset(&mut cpu);
    cpu.register_a = 0x23;
    cpu.register_x = 0xFE;
    interpret_without_reset(&mut cpu, vec![0x75, 0x07, 0x00, 0x00, 0x04, 0x05, 0x06, 0x07, 0x08, 0x09, 0x0A], 0x00);
    assert_eq!(cpu.register_a, 0x28);

    // indirect x addressing: takes operand + register_x and reads address there
    reset(&mut cpu);
    cpu.register_a = 0x23;
    cpu.register_x = 3;
    interpret_without_reset(&mut cpu, vec![0x61, 0x04, 0x00, 0x03, 0x08, 0x00, 0x06, 0x0B, 0x00, 0x09, 0x0A, 0x10, 0x20], 0x00);
    assert_eq!(cpu.register_a, 0x33);

    // indirect y addressing: takes operand, reads address there + register_y
    reset(&mut cpu);
    cpu.register_a = 0x23;
    cpu.register_y = 2;
    interpret_without_reset(&mut cpu, vec![0x71, 0x04, 0x00, 0x03, 0x08, 0x00, 0x06, 0x07, 0x08, 0x09, 0x0A, 0x10, 0x20], 0x00);
    assert_eq!(cpu.register_a, 0x2D);
}

#[test]
fn test_asl() {
    let mut cpu = create_new_cpu();
    let xydeviation = 7 as u8;

    run_case(&mut cpu, 0x0A, &AddressingMode::NoneAddressing, 0b0000_0101, |cpu: &mut CPU| { cpu.register_a = 0b0000_0101; }, 0);
    assert_eq!(cpu.register_a, 0b0000_1010);
    check_zero_and_neg_flags(&cpu, false, false);
    check_carry_flag(&cpu, false);

    run_case(&mut cpu, 0x06, &AddressingMode::ZeroPage, 0b0101_0111, |cpu: &mut CPU| { cpu.register_a = 0b0101_0111; }, 0);
    assert_eq!(cpu.last_mem_write_value, 0b1010_1110);
    check_zero_and_neg_flags(&cpu, false, true);
    check_carry_flag(&cpu, false);

    run_case(&mut cpu, 0x16, &AddressingMode::ZeroPageX, 0b0000_0100, |cpu: &mut CPU| { cpu.register_a = 0b0000_0100; cpu.register_x = xydeviation; }, xydeviation);
    assert_eq!(cpu.last_mem_write_value, 0b0000_1000);
    check_zero_and_neg_flags(&cpu, false, false);
    check_carry_flag(&cpu, false);

    run_case(&mut cpu, 0x0E, &AddressingMode::Absolute, 0b1101_1110, |cpu: &mut CPU| { cpu.register_a = 0b1101_1110; }, 0);
    assert_eq!(cpu.last_mem_write_value, 0b1011_1100);
    check_zero_and_neg_flags(&cpu, false, true);
    check_carry_flag(&cpu, true);

    run_case(&mut cpu, 0x1E, &AddressingMode::AbsoluteX, 0b0000_0000, |cpu: &mut CPU| { cpu.register_a = 0b0000_0000; cpu.register_x = xydeviation; }, xydeviation);
    assert_eq!(cpu.last_mem_write_value, 0b0000_0000);
    check_zero_and_neg_flags(&cpu, true, false);
    check_carry_flag(&cpu, false);
}

#[test]
fn test_bcs() {
    let mut cpu = create_new_cpu();
    reset(&mut cpu);
    interpret_without_reset(&mut cpu, vec![0xB0, 0x01, 0x00, 0xE8, 0x00], 0x00);

    assert_eq!(cpu.program_counter, 0x03);
    assert_eq!(cpu.register_x, 0x00);

    reset(&mut cpu);
    cpu.status = 0b0000_0001;
    interpret_without_reset(&mut cpu, vec![0xB0, 0x01, 0x00, 0xE8, 0x00], 0x00);

    assert_eq!(cpu.program_counter, 0x05);
    assert_eq!(cpu.register_x, 0x01);
}

#[test]
fn test_bcc() {
    let mut cpu = create_new_cpu();
    reset(&mut cpu);
    interpret_without_reset(&mut cpu, vec![0x90, 0x01, 0x00, 0xE8, 0x00], 0x00);

    assert_eq!(cpu.program_counter, 0x05);
    assert_eq!(cpu.register_x, 0x01);

    reset(&mut cpu);
    cpu.status = 0b0000_0001;
    interpret_without_reset(&mut cpu, vec![0x90, 0x01, 0x00, 0xE8, 0x00], 0x00);

    assert_eq!(cpu.program_counter, 0x03);
    assert_eq!(cpu.register_x, 0x00);
}

#[test]
fn test_beq() {
    let mut cpu = create_new_cpu();
    reset(&mut cpu);
    interpret_without_reset(&mut cpu, vec![0xF0, 0x01, 0x00, 0xE8, 0x00], 0x00);

    assert_eq!(cpu.program_counter, 0x03);
    assert_eq!(cpu.register_x, 0x00);

    reset(&mut cpu);
    cpu.status = 0b0000_0010;
    interpret_without_reset(&mut cpu, vec![0xF0, 0x01, 0x00, 0xE8, 0x00], 0x00);

    assert_eq!(cpu.program_counter, 0x05);
    assert_eq!(cpu.register_x, 0x01);

    reset(&mut cpu);
    cpu.status = 0b0000_0010;
    // inx resets the zero flag, therefore the second branch needs to be an BNE
    interpret_without_reset(&mut cpu, vec![0xF0, 0x01, 0x00, 0xE8, 0xD0, 0xFC, 0xE8, 0xE8, 0xE8, 0x00], 0x00);

    assert_eq!(cpu.program_counter, 0x03);
    assert_eq!(cpu.register_x, 0x01);
}

#[test]
fn test_bit() {
    let mut cpu = create_new_cpu();

    run_case(&mut cpu, 0x24, &AddressingMode::ZeroPage, 0b0001_0010, |cpu: &mut CPU| { cpu.register_a = 0b0001_0010; }, 0);
    check_zero_and_neg_flags(&cpu, false, false);

    run_case(&mut cpu, 0x24, &AddressingMode::ZeroPage, 0b0001_0010, |cpu: &mut CPU| { cpu.register_a = 0b0000_0100; }, 0);
    check_zero_and_neg_flags(&cpu, true, false);

    run_case(&mut cpu, 0x2C, &AddressingMode::Absolute, 0b0001_0010, |cpu: &mut CPU| { cpu.register_a = 0b0000_1100; }, 0);
    check_zero_and_neg_flags(&cpu, true, false);

    run_case(&mut cpu, 0x2C, &AddressingMode::Absolute, 0b1000_0000, |cpu: &mut CPU| { cpu.register_x = 0b0000_1100; }, 0);
    check_zero_and_neg_flags(&cpu, true, true);
}

#[test]
fn test_bmi() {
    let mut cpu = create_new_cpu();
    reset(&mut cpu);
    cpu.status = 0b1000_0000;
    interpret_without_reset(&mut cpu, vec![0x30, 0x01, 0x00, 0xE8, 0x00], 0x00);

    assert_eq!(cpu.program_counter, 0x05);
    assert_eq!(cpu.register_x, 0x01);

    reset(&mut cpu);
    interpret_without_reset(&mut cpu, vec![0x30, 0x01, 0x00, 0xE8, 0x00], 0x00);

    assert_eq!(cpu.program_counter, 0x03);
    assert_eq!(cpu.register_x, 0x00);
}

#[test]
fn test_bne() {
    let mut cpu = create_new_cpu();
    reset(&mut cpu);
    interpret_without_reset(&mut cpu, vec![0xD0, 0x01, 0x00, 0xE8, 0x00], 0x00);

    assert_eq!(cpu.program_counter, 0x05);
    assert_eq!(cpu.register_x, 0x01);

    reset(&mut cpu);
    cpu.status = 0b0000_0010;
    interpret_without_reset(&mut cpu, vec![0xD0, 0x01, 0x00, 0xE8, 0x00], 0x00);

    assert_eq!(cpu.program_counter, 0x03);
    assert_eq!(cpu.register_x, 0x00);

    reset(&mut cpu);
    interpret_without_reset(&mut cpu, vec![0xD0, 0x01, 0x00, 0xE8, 0xD0, 0xFC, 0xE8, 0xE8, 0xE8, 0x00], 0x00);

    assert_eq!(cpu.program_counter, 0x03);
    assert_eq!(cpu.register_x, 0x01);
}

#[test]
fn test_bpl() {
    let mut cpu = create_new_cpu();
    reset(&mut cpu);
    interpret_without_reset(&mut cpu, vec![0x10, 0x01, 0x00, 0xE8, 0x00], 0x00);

    assert_eq!(cpu.program_counter, 0x05);
    assert_eq!(cpu.register_x, 0x01);

    reset(&mut cpu);
    cpu.status = 0b1000_0000;
    interpret_without_reset(&mut cpu, vec![0x10, 0x01, 0x00, 0xE8, 0x00], 0x00);

    assert_eq!(cpu.program_counter, 0x03);
    assert_eq!(cpu.register_x, 0x00);
}

#[test]
fn test_bvc() {
    let mut cpu = create_new_cpu();
    reset(&mut cpu);
    interpret_without_reset(&mut cpu, vec![0x50, 0x01, 0x00, 0xE8, 0x00], 0x00);

    assert_eq!(cpu.program_counter, 0x05);
    assert_eq!(cpu.register_x, 0x01);

    reset(&mut cpu);
    cpu.status = 0b0100_0000;
    interpret_without_reset(&mut cpu, vec![0x50, 0x01, 0x00, 0xE8, 0x00], 0x00);

    assert_eq!(cpu.program_counter, 0x03);
    assert_eq!(cpu.register_x, 0x00);
}

#[test]
fn test_bvs() {
    let mut cpu = create_new_cpu();
    reset(&mut cpu);
    cpu.status = 0b0100_0000;
    interpret_without_reset(&mut cpu, vec![0x70, 0x01, 0x00, 0xE8, 0x00], 0x00);

    assert_eq!(cpu.program_counter, 0x05);
    assert_eq!(cpu.register_x, 0x01);

    reset(&mut cpu);
    interpret_without_reset(&mut cpu, vec![0x70, 0x01, 0x00, 0xE8, 0x00], 0x00);

    assert_eq!(cpu.program_counter, 0x03);
    assert_eq!(cpu.register_x, 0x00);
}

#[test]
fn test_clc_and_sec() {
    let mut cpu = create_new_cpu();

    run_case(&mut cpu, 0x18, &AddressingMode::NoneAddressing, 0b0000_0001, |cpu: &mut CPU| { cpu.status = 0b0000_0001; check_carry_flag(&cpu, true); }, 0);
    check_carry_flag(&cpu, false);

    run_case(&mut cpu, 0x38, &AddressingMode::NoneAddressing, 0b0000_0000, |cpu: &mut CPU| { cpu.status = 0b0000_0000; check_carry_flag(&cpu, false); }, 0);
    check_carry_flag(&cpu, true);
}

#[test]
fn test_cld_and_sed() {
    let mut cpu = create_new_cpu();

    run_case(&mut cpu, 0xD8, &AddressingMode::NoneAddressing, 0b0000_1000, |cpu: &mut CPU| { cpu.status = 0b0000_1000; check_decimal_flag(&cpu, true); }, 0);
    check_decimal_flag(&cpu, false);

    run_case(&mut cpu, 0xF8, &AddressingMode::NoneAddressing, 0b0000_0000, |cpu: &mut CPU| { cpu.status = 0b0000_0000; check_decimal_flag(&cpu, false); }, 0);
    check_decimal_flag(&cpu, true);
}

#[test]
fn test_cli_and_sei() {
    let mut cpu = create_new_cpu();

    run_case(&mut cpu, 0x58, &AddressingMode::NoneAddressing, 0b0000_0100, |cpu: &mut CPU| { cpu.status = 0b0000_0100; check_interrupt_disable_flag(&cpu, true); }, 0);
    check_interrupt_disable_flag(&cpu, false);

    run_case(&mut cpu, 0x78, &AddressingMode::NoneAddressing, 0b0000_0000, |cpu: &mut CPU| { cpu.status = 0b0000_0000; check_interrupt_disable_flag(&cpu, false); }, 0);
    check_interrupt_disable_flag(&cpu, true);
}

#[test]
fn test_clv() {
    let mut cpu = create_new_cpu();

    run_case(&mut cpu, 0xB8, &AddressingMode::NoneAddressing, 0b0100_0000, |cpu: &mut CPU| { cpu.status = 0b0100_0000; check_overflow_flag(&cpu, true); }, 0);
    check_overflow_flag(&cpu, false);
}

#[test]
fn test_cmp() {
    let mut cpu = create_new_cpu();
    let xydeviation = 7 as u8;

    run_case(&mut cpu, 0xC9, &AddressingMode::Immediate, 0x22, |cpu: &mut CPU| { cpu.register_a = 0x22; }, 0);
    check_zero_and_neg_flags(&cpu, true, false);
    check_carry_flag(&cpu, true);

    run_case(&mut cpu, 0xC5, &AddressingMode::ZeroPage, 0x22, |cpu: &mut CPU| { cpu.register_a = 0x23; }, 0);
    check_zero_and_neg_flags(&cpu, false, false);
    check_carry_flag(&cpu, true);

    run_case(&mut cpu, 0xD5, &AddressingMode::ZeroPageX, 0x32, |cpu: &mut CPU| { cpu.register_a = 0x24; cpu.register_x = xydeviation; }, xydeviation);
    check_zero_and_neg_flags(&cpu, false, true);
    check_carry_flag(&cpu, false);

    run_case(&mut cpu, 0xCD, &AddressingMode::Absolute, 0x42, |cpu: &mut CPU| { cpu.register_a = 0x25; }, 0);
    check_zero_and_neg_flags(&cpu, false, true);
    check_carry_flag(&cpu, false);

    run_case(&mut cpu, 0xDD, &AddressingMode::AbsoluteX, 0x21, |cpu: &mut CPU| { cpu.register_a = 0x26; cpu.register_x = xydeviation; }, xydeviation);
    check_zero_and_neg_flags(&cpu, false, false);
    check_carry_flag(&cpu, true);

    run_case(&mut cpu, 0xD9, &AddressingMode::AbsoluteY, 0x20, |cpu: &mut CPU| { cpu.register_a = 0x27; cpu.register_y = xydeviation; }, xydeviation);
    check_zero_and_neg_flags(&cpu, false, false);
    check_carry_flag(&cpu, true);

    run_case(&mut cpu, 0xC1, &AddressingMode::IndirectX, 0x28, |cpu: &mut CPU| { cpu.register_a = 0x28; cpu.register_x = xydeviation; }, xydeviation);
    check_zero_and_neg_flags(&cpu, true, false);
    check_carry_flag(&cpu, true);

    run_case(&mut cpu, 0xD1, &AddressingMode::IndirectY, 0x22, |cpu: &mut CPU| { cpu.register_a = 0x29; cpu.register_y = xydeviation; }, xydeviation);
    check_zero_and_neg_flags(&cpu, false, false);
    check_carry_flag(&cpu, true);
}

#[test]
fn test_cpu_ram_mirroring() {
    let mut  cpu = create_new_cpu();

    interpret(&mut cpu, vec![0xEA, 0xEA, 0xEA, 0xEA, 0x00]);
    assert_eq!(cpu.program_counter, 0x0605);
    assert_eq!(cpu.register_s, 0xFD);
    assert_eq!(cpu.register_a, 0x00);
    assert_eq!(cpu.register_x, 0x00);
    assert_eq!(cpu.register_y, 0x00);

    let first_page = cpu.mem_read(0x0601);
    let second_page = cpu.mem_read(0x0E01);
    let third_page = cpu.mem_read(0x1601);
    let fourth_page = cpu.mem_read(0x1E01);

    assert_eq!(first_page, Ok(0xEA));
    assert_eq!(first_page, second_page);
    assert_eq!(first_page, third_page);
    assert_eq!(first_page, fourth_page);
}

#[test]
fn test_cpx_cpy() {
    let mut cpu = create_new_cpu();

    run_case(&mut cpu, 0xE0, &AddressingMode::Immediate, 0x22, |cpu: &mut CPU| { cpu.register_x = 0x22; }, 0);
    check_zero_and_neg_flags(&cpu, true, false);
    check_carry_flag(&cpu, true);

    run_case(&mut cpu, 0xE0, &AddressingMode::Immediate, 0x23, |cpu: &mut CPU| { cpu.register_x = 0x22; }, 0);
    check_zero_and_neg_flags(&cpu, false, true);
    check_carry_flag(&cpu, false);

    run_case(&mut cpu, 0xE0, &AddressingMode::Immediate, 0x21, |cpu: &mut CPU| { cpu.register_x = 0x22; }, 0);
    check_zero_and_neg_flags(&cpu, false, false);
    check_carry_flag(&cpu, true);

    run_case(&mut cpu, 0xE4, &AddressingMode::ZeroPage, 0x22, |cpu: &mut CPU| { cpu.register_x = 0x23; }, 0);
    check_zero_and_neg_flags(&cpu, false, false);
    check_carry_flag(&cpu, true);

    run_case(&mut cpu, 0xEC, &AddressingMode::Absolute, 0x42, |cpu: &mut CPU| { cpu.register_x = 0x25; }, 0);
    check_zero_and_neg_flags(&cpu, false, true);
    check_carry_flag(&cpu, false);

    run_case(&mut cpu, 0xC0, &AddressingMode::Immediate, 0x22, |cpu: &mut CPU| { cpu.register_y = 0x22; }, 0);
    check_zero_and_neg_flags(&cpu, true, false);
    check_carry_flag(&cpu, true);

    run_case(&mut cpu, 0xC0, &AddressingMode::Immediate, 0x23, |cpu: &mut CPU| { cpu.register_y = 0x22; }, 0);
    check_zero_and_neg_flags(&cpu, false, true);
    check_carry_flag(&cpu, false);

    run_case(&mut cpu, 0xC0, &AddressingMode::Immediate, 0x21, |cpu: &mut CPU| { cpu.register_y = 0x22; }, 0);
    check_zero_and_neg_flags(&cpu, false, false);
    check_carry_flag(&cpu, true);

    run_case(&mut cpu, 0xC4, &AddressingMode::ZeroPage, 0x22, |cpu: &mut CPU| { cpu.register_y = 0x23; }, 0);
    check_zero_and_neg_flags(&cpu, false, false);
    check_carry_flag(&cpu, true);

    run_case(&mut cpu, 0xCC, &AddressingMode::Absolute, 0x42, |cpu: &mut CPU| { cpu.register_y = 0x25; }, 0);
    check_zero_and_neg_flags(&cpu, false, true);
    check_carry_flag(&cpu, false);
}

#[test]
fn test_dec() {
    let mut cpu = create_new_cpu();
    let xydeviation = 7 as u8;

    run_case(&mut cpu, 0xC6, &AddressingMode::ZeroPage, 0x23, |_cpu: &mut CPU| {}, 0);
    assert_eq!(cpu.last_mem_write_value, 0x22);

    run_case(&mut cpu, 0xD6, &AddressingMode::ZeroPageX, 0x33, |cpu: &mut CPU| { cpu.register_x = xydeviation; }, xydeviation);
    assert_eq!(cpu.last_mem_write_value, 0x32);

    run_case(&mut cpu, 0xCE, &AddressingMode::Absolute, 0x43, |_cpu: &mut CPU| {}, 0);
    assert_eq!(cpu.last_mem_write_value, 0x42);

    run_case(&mut cpu, 0xDE, &AddressingMode::AbsoluteX, 0x44, |cpu: &mut CPU| { cpu.register_x = xydeviation; }, xydeviation);
    assert_eq!(cpu.last_mem_write_value, 0x43);

    run_case(&mut cpu, 0xCE, &AddressingMode::Absolute, 0x01, |_cpu: &mut CPU| {}, 0);
    assert_eq!(cpu.last_mem_write_value, 0x00);
    check_zero_and_neg_flags(&cpu, true, false);

    run_case(&mut cpu, 0xCE, &AddressingMode::Absolute, 0x00, |_cpu: &mut CPU| {}, 0);
    assert_eq!(cpu.last_mem_write_value, 0xFF);
    check_zero_and_neg_flags(&cpu, false, true);

    run_case(&mut cpu, 0xCE, &AddressingMode::Absolute, 0x80, |_cpu: &mut CPU| {}, 0);
    assert_eq!(cpu.last_mem_write_value, 0x7F);
    check_zero_and_neg_flags(&cpu, false, false);

    run_case(&mut cpu, 0xCE, &AddressingMode::Absolute, 0x81, |_cpu: &mut CPU| {}, 0);
    assert_eq!(cpu.last_mem_write_value, 0x80);
    check_zero_and_neg_flags(&cpu, false, true);
}

#[test]
fn test_dex_and_dey() {
    let mut cpu = create_new_cpu();

    run_case(&mut cpu, 0xCA, &AddressingMode::NoneAddressing, 0x23, |cpu: &mut CPU| { cpu.register_x = 0x23; }, 0);
    assert_eq!(cpu.register_x, 0x22);

    run_case(&mut cpu, 0xCA, &AddressingMode::NoneAddressing, 0x01, |cpu: &mut CPU| { cpu.register_x = 0x01; }, 0);
    assert_eq!(cpu.register_x, 0x00);
    check_zero_and_neg_flags(&cpu, true, false);

    run_case(&mut cpu, 0xCA, &AddressingMode::NoneAddressing, 0x00, |cpu: &mut CPU| { cpu.register_x = 0x00; }, 0);
    assert_eq!(cpu.register_x, 0xFF);
    check_zero_and_neg_flags(&cpu, false, true);

    run_case(&mut cpu, 0x88, &AddressingMode::NoneAddressing, 0x43, |cpu: &mut CPU| { cpu.register_y = 0x43; }, 0);
    assert_eq!(cpu.register_y, 0x42);

    run_case(&mut cpu, 0x88, &AddressingMode::NoneAddressing, 0x01, |cpu: &mut CPU| { cpu.register_y = 0x01; }, 0);
    assert_eq!(cpu.register_y, 0x00);
    check_zero_and_neg_flags(&cpu, true, false);

    run_case(&mut cpu, 0x88, &AddressingMode::NoneAddressing, 0x00, |cpu: &mut CPU| { cpu.register_y = 0x00; }, 0);
    assert_eq!(cpu.register_y, 0xFF);
    check_zero_and_neg_flags(&cpu, false, true);
}

#[test]
fn test_eor() {
    let mut cpu = create_new_cpu();
    let xydeviation = 7 as u8;

    run_case(&mut cpu, 0x49, &AddressingMode::Immediate, 0b0101_0101, |cpu: &mut CPU| { cpu.register_a = 0b0000_0101; }, 0);
    assert_eq!(cpu.register_a, 0b0101_0000);

    run_case(&mut cpu, 0x49, &AddressingMode::Immediate, 0b0111_0101, |cpu: &mut CPU| { cpu.register_a = 0b0000_0001; }, 0);
    assert_eq!(cpu.register_a, 0b0111_0100);
    check_zero_and_neg_flags(&cpu, false, false);

    run_case(&mut cpu, 0x49, &AddressingMode::Immediate, 0b1000_0010, |cpu: &mut CPU| { cpu.register_a = 0b0000_0001; }, 0);
    assert_eq!(cpu.register_a, 0b1000_0011);
    check_zero_and_neg_flags(&cpu, false, true);

    run_case(&mut cpu, 0x49, &AddressingMode::Immediate, 0b0000_0000, |cpu: &mut CPU| { cpu.register_a = 0b0000_0000; }, 0);
    assert_eq!(cpu.register_a, 0b0000_0000);
    check_zero_and_neg_flags(&cpu, true, false);

    run_case(&mut cpu, 0x45, &AddressingMode::ZeroPage, 0b0101_0111, |cpu: &mut CPU| { cpu.register_a = 0b0101_0000; }, 0);
    assert_eq!(cpu.register_a, 0b0000_0111);

    run_case(&mut cpu, 0x55, &AddressingMode::ZeroPageX, 0b0101_0111, |cpu: &mut CPU| { cpu.register_a = 0b0011_0011; cpu.register_x = xydeviation; }, xydeviation);
    assert_eq!(cpu.register_a, 0b0110_0100);

    run_case(&mut cpu, 0x41, &AddressingMode::IndirectX, 0b0101_0111, |cpu: &mut CPU| { cpu.register_a = 0b0101_0000; cpu.register_x = xydeviation; }, xydeviation);
    assert_eq!(cpu.register_a, 0b0000_0111);

    run_case(&mut cpu, 0x51, &AddressingMode::IndirectY, 0b0101_0110, |cpu: &mut CPU| { cpu.register_a = 0b0010_0010; cpu.register_y = xydeviation; }, xydeviation);
    assert_eq!(cpu.register_a, 0b0111_0100);

    run_case(&mut cpu, 0x4D, &AddressingMode::Absolute, 0b0101_1110, |cpu: &mut CPU| { cpu.register_a = 0b0000_0011; }, 0);
    assert_eq!(cpu.register_a, 0b0101_1101);

    run_case(&mut cpu, 0x5D, &AddressingMode::AbsoluteX, 0b0010_0111, |cpu: &mut CPU| { cpu.register_a = 0b0000_0011; cpu.register_x = xydeviation; }, xydeviation);
    assert_eq!(cpu.register_a, 0b0010_0100);

    run_case(&mut cpu, 0x59, &AddressingMode::AbsoluteY, 0b0001_0101, |cpu: &mut CPU| { cpu.register_a = 0b0000_1000; cpu.register_y = xydeviation; }, xydeviation);
    assert_eq!(cpu.register_a, 0b0001_1101);
}

#[test]
fn test_inx() {
    let mut cpu = create_new_cpu();

    run_case(&mut cpu, 0xE8, &AddressingMode::NoneAddressing, 0x23, |cpu: &mut CPU| { cpu.register_x = 0x23; }, 0);
    assert_eq!(cpu.register_x, 0x24);

    run_case(&mut cpu, 0xE8, &AddressingMode::NoneAddressing, 0xFF, |cpu: &mut CPU| { cpu.register_x = 0xFF; }, 0);
    assert_eq!(cpu.register_x, 0x00);
    check_zero_and_neg_flags(&cpu, true, false);

    run_case(&mut cpu, 0xE8, &AddressingMode::NoneAddressing, 0x7F, |cpu: &mut CPU| { cpu.register_x = 0x7F; }, 0);
    assert_eq!(cpu.register_x, 0x80);
    check_zero_and_neg_flags(&cpu, false, true);

    run_case(&mut cpu, 0xE8, &AddressingMode::NoneAddressing, 0x94, |cpu: &mut CPU| { cpu.register_x = 0x94; }, 0);
    assert_eq!(cpu.register_x, 0x95);
    check_zero_and_neg_flags(&cpu, false, true);
}

#[test]
fn test_iny() {
    let mut cpu = create_new_cpu();

    run_case(&mut cpu, 0xC8, &AddressingMode::NoneAddressing, 0x23, |cpu: &mut CPU| { cpu.register_y = 0x23; }, 0);
    assert_eq!(cpu.register_y, 0x24);

    run_case(&mut cpu, 0xC8, &AddressingMode::NoneAddressing, 0xFF, |cpu: &mut CPU| { cpu.register_y = 0xFF; }, 0);
    assert_eq!(cpu.register_y, 0x00);
    check_zero_and_neg_flags(&cpu, true, false);

    run_case(&mut cpu, 0xC8, &AddressingMode::NoneAddressing, 0x7F, |cpu: &mut CPU| { cpu.register_y = 0x7F; }, 0);
    assert_eq!(cpu.register_y, 0x80);
    check_zero_and_neg_flags(&cpu, false, true);

    run_case(&mut cpu, 0xC8, &AddressingMode::NoneAddressing, 0x94, |cpu: &mut CPU| { cpu.register_y = 0x94; }, 0);
    assert_eq!(cpu.register_y, 0x95);
    check_zero_and_neg_flags(&cpu, false, true);
}

#[test]
fn test_inc() {
    let mut cpu = create_new_cpu();
    let xydeviation = 9 as u8;

    run_case(&mut cpu, 0xE6, &AddressingMode::ZeroPage, 0x23, |_cpu: &mut CPU| {}, 0);
    assert_eq!(cpu.last_mem_write_value, 0x24);
    check_zero_and_neg_flags(&cpu, false, false);

    run_case(&mut cpu, 0xF6, &AddressingMode::ZeroPageX, 0xFF, |cpu: &mut CPU| { cpu.register_x = xydeviation; }, xydeviation);
    assert_eq!(cpu.last_mem_write_value, 0x00);
    check_zero_and_neg_flags(&cpu, true, false);

    run_case(&mut cpu, 0xEE, &AddressingMode::Absolute, 0x7F, |_cpu: &mut CPU| {}, 0);
    assert_eq!(cpu.last_mem_write_value, 0x80);
    check_zero_and_neg_flags(&cpu, false, true);

    run_case(&mut cpu, 0xFE, &AddressingMode::AbsoluteX, 0x94, |cpu: &mut CPU| { cpu.register_x = xydeviation; }, xydeviation);
    assert_eq!(cpu.last_mem_write_value, 0x95);
    check_zero_and_neg_flags(&cpu, false, true);
}

#[test]
fn test_jmp() {
    let mut cpu = create_new_cpu();

    interpret(&mut cpu, vec![0x4C, 0x02, 0x11, 0x00, 0x00]);
    assert_eq!(cpu.program_counter, 0x1103);
    interpret(&mut cpu, vec![0x6C, 0x03, 0x06, 0x02, 0x11, 0x00, 0x00]); // default base address is (time of writing 0x0600)
    assert_eq!(cpu.program_counter, 0x1103);
}

#[test]
fn test_jsr() {
    let mut cpu = create_new_cpu();
    interpret(&mut cpu, vec![0x20, 0x02, 0x11, 0x00, 0x00]);
    assert_eq!(cpu.program_counter, 0x1103);
    assert_eq!(cpu.register_s, 0xFB);
    assert_eq!(cpu.last_mem_write_address, 0x01FC); // check if it pushed something to the stack
    // the address of the last byte of the JSR instruction
    assert_eq!(cpu.last_mem_write_value_u16, 0x0602);
}

#[test]
fn test_lsr() {
    let mut cpu = create_new_cpu();
    let xydeviation = 5 as u8;

    run_case(&mut cpu, 0x4A, &AddressingMode::NoneAddressing, 0b0000_0100, |cpu: &mut CPU| { cpu.register_a = 0b0000_0100; }, 0);
    assert_eq!(cpu.register_a, 0b0000_0010);
    check_zero_and_neg_flags(&cpu, false, false);
    check_carry_flag(&cpu, false);

    run_case(&mut cpu, 0x4A, &AddressingMode::NoneAddressing, 0b0000_0101, |cpu: &mut CPU| { cpu.register_a = 0b0000_0101; }, 0);
    assert_eq!(cpu.register_a, 0b0000_0010);
    check_zero_and_neg_flags(&cpu, false, false);
    check_carry_flag(&cpu, true);

    run_case(&mut cpu, 0x46, &AddressingMode::ZeroPage, 0b0101_0110, |cpu: &mut CPU| { cpu.register_a = 0b0101_0110; }, 0);
    assert_eq!(cpu.last_mem_write_value, 0b0010_1011);
    check_zero_and_neg_flags(&cpu, false, false);
    check_carry_flag(&cpu, false);

    run_case(&mut cpu, 0x56, &AddressingMode::ZeroPageX, 0b0000_0100, |cpu: &mut CPU| { cpu.register_a = 0b0000_0100; cpu.register_x = xydeviation; }, xydeviation);
    assert_eq!(cpu.last_mem_write_value, 0b0000_0010);
    check_zero_and_neg_flags(&cpu, false, false);
    check_carry_flag(&cpu, false);

    run_case(&mut cpu, 0x4E, &AddressingMode::Absolute, 0b1101_1110, |cpu: &mut CPU| { cpu.register_a = 0b1101_1110; }, 0);
    assert_eq!(cpu.last_mem_write_value, 0b0110_1111);
    check_zero_and_neg_flags(&cpu, false, false);
    check_carry_flag(&cpu, false);

    run_case(&mut cpu, 0x5E, &AddressingMode::AbsoluteX, 0b0000_0000, |cpu: &mut CPU| { cpu.register_a = 0b0000_0000; cpu.register_x = xydeviation; }, xydeviation);
    assert_eq!(cpu.last_mem_write_value, 0b0000_0000);
    check_zero_and_neg_flags(&cpu, true, false);
    check_carry_flag(&cpu, false);

    run_case(&mut cpu, 0x4A, &AddressingMode::NoneAddressing, 0b0000_0001, |cpu: &mut CPU| { cpu.register_a = 0b0000_0001; cpu.status = 0b0000_0001; }, 0);
    assert_eq!(cpu.register_a, 0b0000_0000);
    check_zero_and_neg_flags(&cpu, true, false);
    check_carry_flag(&cpu, true);
}

#[test]
fn test_nop() {
    let mut  cpu = create_new_cpu();

    interpret(&mut cpu, vec![0xEA, 0xEA, 0xEA, 0xEA, 0x00]);
    assert_eq!(cpu.program_counter, 0x0605);
    assert_eq!(cpu.register_s, 0xFD);
    assert_eq!(cpu.register_a, 0x00);
    assert_eq!(cpu.register_x, 0x00);
    assert_eq!(cpu.register_y, 0x00);
}

#[test]
fn test_ora() {
    let mut cpu = create_new_cpu();
    let xydeviation = 7 as u8;

    run_case(&mut cpu, 0x09, &AddressingMode::Immediate, 0b0101_0101, |cpu: &mut CPU| { cpu.register_a = 0b0000_0101; }, 0);
    assert_eq!(cpu.register_a, 0b0101_0101);

    run_case(&mut cpu, 0x09, &AddressingMode::Immediate, 0b0111_0101, |cpu: &mut CPU| { cpu.register_a = 0b0000_0001; }, 0);
    assert_eq!(cpu.register_a, 0b0111_0101);
    check_zero_and_neg_flags(&cpu, false, false);

    run_case(&mut cpu, 0x09, &AddressingMode::Immediate, 0b1000_0010, |cpu: &mut CPU| { cpu.register_a = 0b1000_0001; }, 0);
    assert_eq!(cpu.register_a, 0b1000_0011);
    check_zero_and_neg_flags(&cpu, false, true);

    run_case(&mut cpu, 0x09, &AddressingMode::Immediate, 0b0000_0000, |cpu: &mut CPU| { cpu.register_a = 0b0000_0000; }, 0);
    assert_eq!(cpu.register_a, 0b0000_0000);
    check_zero_and_neg_flags(&cpu, true, false);

    run_case(&mut cpu, 0x05, &AddressingMode::ZeroPage, 0b0101_0111, |cpu: &mut CPU| { cpu.register_a = 0b0101_0000; }, 0);
    assert_eq!(cpu.register_a, 0b0101_0111);

    run_case(&mut cpu, 0x15, &AddressingMode::ZeroPageX, 0b0101_0111, |cpu: &mut CPU| { cpu.register_a = 0b0011_0011; cpu.register_x = xydeviation; }, xydeviation);
    assert_eq!(cpu.register_a, 0b0111_0111);

    run_case(&mut cpu, 0x01, &AddressingMode::IndirectX, 0b0101_0111, |cpu: &mut CPU| { cpu.register_a = 0b0101_0000; cpu.register_x = xydeviation; }, xydeviation);
    assert_eq!(cpu.register_a, 0b0101_0111);

    run_case(&mut cpu, 0x11, &AddressingMode::IndirectY, 0b0101_0110, |cpu: &mut CPU| { cpu.register_a = 0b0011_0010; cpu.register_y = xydeviation; }, xydeviation);
    assert_eq!(cpu.register_a, 0b0111_0110);

    run_case(&mut cpu, 0x0D, &AddressingMode::Absolute, 0b0101_1110, |cpu: &mut CPU| { cpu.register_a = 0b0000_0011; }, 0);
    assert_eq!(cpu.register_a, 0b0101_1111);

    run_case(&mut cpu, 0x1D, &AddressingMode::AbsoluteX, 0b0010_0111, |cpu: &mut CPU| { cpu.register_a = 0b0000_0011; cpu.register_x = xydeviation; }, xydeviation);
    assert_eq!(cpu.register_a, 0b0010_0111);

    run_case(&mut cpu, 0x19, &AddressingMode::AbsoluteY, 0b0001_0101, |cpu: &mut CPU| { cpu.register_a = 0b0000_1000; cpu.register_y = xydeviation; }, xydeviation);
    assert_eq!(cpu.register_a, 0b0001_1101);
}

#[test]
fn test_pha_php_pla_plp() {
    let mut cpu = create_new_cpu();

    run_case(&mut cpu, 0x48, &AddressingMode::NoneAddressing, 0b0000_0101, |cpu: &mut CPU| { cpu.register_a = 0b0000_0101; }, 0);
    assert_eq!(cpu.last_mem_write_value, 0b0000_0101);
    check_zero_and_neg_flags(&cpu, false, false);
    check_carry_flag(&cpu, false);

    run_case(&mut cpu, 0x08, &AddressingMode::NoneAddressing, 0b0000_0011, |cpu: &mut CPU| { cpu.status = 0b0000_0011; }, 0);
    // the pushed copy has B and bit 5 set
    assert_eq!(cpu.last_mem_write_value, 0b0011_0011);
    check_zero_and_neg_flags(&cpu, true, false);
    check_carry_flag(&cpu, true);

    run_case(&mut cpu, 0x68, &AddressingMode::NoneAddressing, 0b1000_0111, |cpu: &mut CPU| { cpu.register_a = 0b0000_0111; }, 0);
    assert_eq!(cpu.register_a, 0b0000_0000);
    check_zero_and_neg_flags(&cpu, true, false);
    check_carry_flag(&cpu, false);

    run_case(&mut cpu, 0x28, &AddressingMode::NoneAddressing, 0b0000_0101, |cpu: &mut CPU| { cpu.status = 0b0000_0101; }, 0);
    // bit 5 is forced on in what is pulled
    assert_eq!(cpu.status, 0b0010_0000);
    check_zero_and_neg_flags(&cpu, false, false);
    check_carry_flag(&cpu, false);
}

#[test]
fn test_rol() {
    let mut cpu = create_new_cpu();
    let xydeviation = 7 as u8;

    run_case(&mut cpu, 0x2A, &AddressingMode::NoneAddressing, 0b0000_0101, |cpu: &mut CPU| { cpu.register_a = 0b0000_0101; }, 0);
    assert_eq!(cpu.register_a, 0b0000_1010);
    check_zero_and_neg_flags(&cpu, false, false);
    check_carry_flag(&cpu, false);

    run_case(&mut cpu, 0x26, &AddressingMode::ZeroPage, 0b0101_0111, |cpu: &mut CPU| { cpu.register_a = 0b0101_0111; }, 0);
    assert_eq!(cpu.last_mem_write_value, 0b1010_1110);
    check_zero_and_neg_flags(&cpu, false, true);
    check_carry_flag(&cpu, false);

    run_case(&mut cpu, 0x36, &AddressingMode::ZeroPageX, 0b0000_0100, |cpu: &mut CPU| { cpu.register_a = 0b0000_0100; cpu.register_x = xydeviation; }, xydeviation);
    assert_eq!(cpu.last_mem_write_value, 0b0000_1000);
    check_zero_and_neg_flags(&cpu, false, false);
    check_carry_flag(&cpu, false);

    run_case(&mut cpu, 0x2E, &AddressingMode::Absolute, 0b1101_1110, |cpu: &mut CPU| { cpu.register_a = 0b1101_1110; }, 0);
    assert_eq!(cpu.last_mem_write_value, 0b1011_1100);
    check_zero_and_neg_flags(&cpu, false, true);
    check_carry_flag(&cpu, true);

    run_case(&mut cpu, 0x3E, &AddressingMode::AbsoluteX, 0b0000_0000, |cpu: &mut CPU| { cpu.register_a = 0b0000_0000; cpu.register_x = xydeviation; }, xydeviation);
    assert_eq!(cpu.last_mem_write_value, 0b0000_0000);
    check_zero_and_neg_flags(&cpu, true, false);
    check_carry_flag(&cpu, false);

    run_case(&mut cpu, 0x2A, &AddressingMode::NoneAddressing, 0b0000_0101, |cpu: &mut CPU| { cpu.register_a = 0b0000_0101; cpu.status = 0b0000_0001; }, 0);
    assert_eq!(cpu.register_a, 0b0000_1011);
    check_zero_and_neg_flags(&cpu, false, false);
    check_carry_flag(&cpu, false);

    run_case(&mut cpu, 0x2A, &AddressingMode::NoneAddressing, 0b1000_0101, |cpu: &mut CPU| { cpu.register_a = 0b1000_0101; cpu.status = 0b0000_0001; }, 0);
    assert_eq!(cpu.register_a, 0b0000_1011);
    check_zero_and_neg_flags(&cpu, false, false);
    check_carry_flag(&cpu, true);

    run_case(&mut cpu, 0x2A, &AddressingMode::NoneAddressing, 0b0000_0000, |cpu: &mut CPU| { cpu.register_a = 0b0000_0000; cpu.status = 0b0000_0001; }, 0);
    assert_eq!(cpu.register_a, 0b0000_0001);
    check_zero_and_neg_flags(&cpu, false, false);
    check_carry_flag(&cpu, false);
}

#[test]
fn test_ror() {
    let mut cpu = create_new_cpu();
    let xydeviation = 7 as u8;

    run_case(&mut cpu, 0x6A, &AddressingMode::NoneAddressing, 0b0000_0101, |cpu: &mut CPU| { cpu.register_a = 0b0000_0101; }, 0);
    assert_eq!(cpu.register_a, 0b0000_0010);
    check_zero_and_neg_flags(&cpu, false, false);
    check_carry_flag(&cpu, true);

    run_case(&mut cpu, 0x66, &AddressingMode::ZeroPage, 0b0101_0110, |cpu: &mut CPU| { cpu.register_a = 0b0101_0110; }, 0);
    assert_eq!(cpu.last_mem_write_value, 0b0010_1011);
    check_zero_and_neg_flags(&cpu, false, false);
    check_carry_flag(&cpu, false);

    run_case(&mut cpu, 0x76, &AddressingMode::ZeroPageX, 0b0000_0100, |cpu: &mut CPU| { cpu.register_a = 0b0000_0100; cpu.register_x = xydeviation; }, xydeviation);
    assert_eq!(cpu.last_mem_write_value, 0b0000_0010);
    check_zero_and_neg_flags(&cpu, false, false);
    check_carry_flag(&cpu, false);

    run_case(&mut cpu, 0x6E, &AddressingMode::Absolute, 0b1101_1110, |cpu: &mut CPU| { cpu.register_a = 0b1101_1110; }, 0);
    assert_eq!(cpu.last_mem_write_value, 0b0110_1111);
    check_zero_and_neg_flags(&cpu, false, false);
    check_carry_flag(&cpu, false);

    run_case(&mut cpu, 0x7E, &AddressingMode::AbsoluteX, 0b0000_0000, |cpu: &mut CPU| { cpu.register_a = 0b0000_0000; cpu.register_x = xydeviation; }, xydeviation);
    assert_eq!(cpu.last_mem_write_value, 0b0000_0000);
    check_zero_and_neg_flags(&cpu, true, false);
    check_carry_flag(&cpu, false);

    run_case(&mut cpu, 0x6A, &AddressingMode::NoneAddressing, 0b0000_0101, |cpu: &mut CPU| { cpu.register_a = 0b0000_0101; cpu.status = 0b0000_0001; }, 0);
    assert_eq!(cpu.register_a, 0b1000_0010);
    check_zero_and_neg_flags(&cpu, false, true);
    check_carry_flag(&cpu, true);

    run_case(&mut cpu, 0x6A, &AddressingMode::NoneAddressing, 0b1000_0101, |cpu: &mut CPU| { cpu.register_a = 0b1000_0101; cpu.status = 0b0000_0001; }, 0);
    assert_eq!(cpu.register_a, 0b1100_0010);
    check_zero_and_neg_flags(&cpu, false, true);
    check_carry_flag(&cpu, true);

    run_case(&mut cpu, 0x6A, &AddressingMode::NoneAddressing, 0b0000_0000, |cpu: &mut CPU| { cpu.register_a = 0b0000_0000; cpu.status = 0b0000_0001; }, 0);
    assert_eq!(cpu.register_a, 0b1000_0000);
    check_zero_and_neg_flags(&cpu, false, true);
    check_carry_flag(&cpu, false);
}

#[test]
fn test_rti() {
    let mut cpu = create_new_cpu();

    // push the return address $060B and a status byte, then return to them
    interpret(
        &mut cpu,
        vec![0xA9, 0x06, 0x48, 0xA9, 0x0B, 0x48, 0xA9, 0xD3, 0x48, 0x40, 0x00, 0xE8, 0x00],
    );
    assert_eq!(cpu.program_counter, 0x060D);
    assert_eq!(cpu.register_s, 0xFD);
    assert_eq!(cpu.register_x, 0x01);
    // B is cleared and bit 5 set in what was pulled; INX then cleared Z and N
    assert_eq!(cpu.status, 0b0110_0001);
}

#[test]
fn test_rts() {
    let mut cpu = create_new_cpu();

    interpret(&mut cpu, vec![0x20, 0x07, 0x06, 0x00, 0x02, 0x02, 0x02, 0x60, 0x02, 0x02]);
    assert_eq!(cpu.program_counter, 0x0604);
    assert_eq!(cpu.register_s, 0xFD);
}

#[test]
fn test_sbc() {
    let mut cpu = create_new_cpu();
    let xydeviation = 7 as u8;

    run_case(&mut cpu, 0xE9, &AddressingMode::Immediate, 0x23, |cpu: &mut CPU| { cpu.register_a = 0x25; }, 0);
    assert_eq!(cpu.register_a, 0x01);
    check_zero_and_neg_flags(&cpu, false, false);
    check_carry_flag(&cpu, true);
    check_overflow_flag(&cpu, false);

    run_case(&mut cpu, 0xE9, &AddressingMode::Immediate, 0x22, |cpu: &mut CPU| { cpu.register_a = 0x23; }, 0);
    assert_eq!(cpu.register_a, 0x00);
    check_zero_and_neg_flags(&cpu, true, false);
    check_carry_flag(&cpu, true);
    check_overflow_flag(&cpu, false);

    run_case(&mut cpu, 0xE9, &AddressingMode::Immediate, 0x20, |cpu: &mut CPU| { cpu.register_a = 0x23; cpu.status = 0b0000_0001; }, 0);
    assert_eq!(cpu.register_a, 0x03);
    check_zero_and_neg_flags(&cpu, false, false);
    check_carry_flag(&cpu, true);
    check_overflow_flag(&cpu, false);

    run_case(&mut cpu, 0xE9, &AddressingMode::Immediate, 0x23, |cpu: &mut CPU| { cpu.register_a = 0x23; cpu.status = 0b0000_0001; }, 0);
    assert_eq!(cpu.register_a, 0x00);
    check_zero_and_neg_flags(&cpu, true, false);
    check_carry_flag(&cpu, true);
    check_overflow_flag(&cpu, false);

    run_case(&mut cpu, 0xE9, &AddressingMode::Immediate, 0x23, |cpu: &mut CPU| { cpu.register_a = 0x23; cpu.status = 0b0000_0000; }, 0);
    assert_eq!(cpu.register_a, 0xFF);
    check_zero_and_neg_flags(&cpu, false, true);
    check_carry_flag(&cpu, false);
    check_overflow_flag(&cpu, false);

    run_case(&mut cpu, 0xE9, &AddressingMode::Immediate, 0xA1, |cpu: &mut CPU| { cpu.register_a = 0x10; cpu.status = 0b0000_0000; }, 0);
    assert_eq!(cpu.register_a, 0x6E);
    check_zero_and_neg_flags(&cpu, false, false);
    check_carry_flag(&cpu, false);
    // 16 - (-95) - 1 = 110 fits into a signed byte
    check_overflow_flag(&cpu, false);

    run_case(&mut cpu, 0xED, &AddressingMode::Absolute, 0x22, |cpu: &mut CPU| { cpu.register_a = 0x23; }, 0);
    assert_eq!(cpu.register_a, 0x00);

    run_case(&mut cpu, 0xFD, &AddressingMode::AbsoluteX, 0x02, |cpu: &mut CPU| { cpu.register_a = 0x23; cpu.register_x = xydeviation; }, xydeviation);
    assert_eq!(cpu.register_a, 0x20);

    run_case(&mut cpu, 0xF9, &AddressingMode::AbsoluteY, 0x04, |cpu: &mut CPU| { cpu.register_a = 0x23; cpu.register_y = xydeviation; }, xydeviation);
    assert_eq!(cpu.register_a, 0x1E);

    run_case(&mut cpu, 0xE5, &AddressingMode::ZeroPage, 0x20, |cpu: &mut CPU| { cpu.register_a = 0x23; }, 0);
    assert_eq!(cpu.register_a, 0x02);

    run_case(&mut cpu, 0xF5, &AddressingMode::ZeroPageX, 0x10, |cpu: &mut CPU| { cpu.register_a = 0x23; cpu.register_x = xydeviation; }, xydeviation);
    assert_eq!(cpu.register_a, 0x12);

    run_case(&mut cpu, 0xE1, &AddressingMode::IndirectX, 0x00, |cpu: &mut CPU| { cpu.register_a = 0x23; cpu.register_x = xydeviation; }, xydeviation);
    assert_eq!(cpu.register_a, 0x22);

    run_case(&mut cpu, 0xF1, &AddressingMode::IndirectY, 0x01, |cpu: &mut CPU| { cpu.register_a = 0x23; cpu.register_y = xydeviation; }, xydeviation);
    assert_eq!(cpu.register_a, 0x21);
}

#[test]
fn test_slo() {
    let mut cpu = create_new_cpu();
    let xydeviation = 7 as u8;

    run_case(&mut cpu, 0x07, &AddressingMode::ZeroPage, 0b0001_0101, |cpu: &mut CPU| { cpu.register_a = 0b0101_0000; }, 0);
    assert_eq!(cpu.register_a, 0b0111_1010);

    run_case(&mut cpu, 0x17, &AddressingMode::ZeroPageX, 0b0001_0101, |cpu: &mut CPU| { cpu.register_a = 0b1011_0011; cpu.register_x = xydeviation; }, xydeviation);
    assert_eq!(cpu.register_a, 0b1011_1011);
    check_zero_and_neg_flags(&cpu, false, true);
    check_carry_flag(&cpu, false);

    run_case(&mut cpu, 0x03, &AddressingMode::IndirectX, 0b1001_0101, |cpu: &mut CPU| { cpu.register_a = 0b1011_0011; cpu.register_x = xydeviation; }, xydeviation);
    assert_eq!(cpu.register_a, 0b1011_1011);
    check_zero_and_neg_flags(&cpu, false, true);
    check_carry_flag(&cpu, true);

    run_case(&mut cpu, 0x13, &AddressingMode::IndirectY, 0b1000_0000, |cpu: &mut CPU| { cpu.register_a = 0b0000_0000; cpu.register_y = xydeviation; }, xydeviation);
    assert_eq!(cpu.register_a, 0b00);
    check_zero_and_neg_flags(&cpu, true, false);
    check_carry_flag(&cpu, true);

    run_case(&mut cpu, 0x0F, &AddressingMode::Absolute, 0b0001_0101, |cpu: &mut CPU| { cpu.register_a = 0b1011_0011; }, 0);
    assert_eq!(cpu.register_a, 0b1011_1011);

    run_case(&mut cpu, 0x1F, &AddressingMode::AbsoluteX, 0b0001_0101, |cpu: &mut CPU| { cpu.register_a = 0b1011_0011; cpu.register_x = xydeviation; }, xydeviation);
    assert_eq!(cpu.register_a, 0b1011_1011);

    run_case(&mut cpu, 0x1B, &AddressingMode::AbsoluteY, 0b0001_0101, |cpu: &mut CPU| { cpu.register_a = 0b1011_0011; cpu.register_y = xydeviation; }, xydeviation);
    assert_eq!(cpu.register_a, 0b1011_1011);
}

#[test]
fn test_sta() {
    let mut cpu = create_new_cpu();
    let xydeviation = 7 as u8;

    run_case(&mut cpu, 0x85, &AddressingMode::ZeroPage, 0x77, |cpu: &mut CPU| { cpu.register_a = 0x42; }, 0);
    assert_eq!(cpu.last_mem_write_value, 0x42);

    run_case(&mut cpu, 0x95, &AddressingMode::ZeroPageX, 0x77, |cpu: &mut CPU| { cpu.register_a = 0x42; cpu.register_x = xydeviation; }, xydeviation);
    assert_eq!(cpu.last_mem_write_value, 0x42);

    run_case(&mut cpu, 0x81, &AddressingMode::IndirectX, 0x77, |cpu: &mut CPU| { cpu.register_a = 0x42; cpu.register_x = xydeviation; }, xydeviation);
    assert_eq!(cpu.last_mem_write_value, 0x42);

    run_case(&mut cpu, 0x91, &AddressingMode::IndirectY, 0x77, |cpu: &mut CPU| { cpu.register_a = 0x42; cpu.register_y = xydeviation; }, xydeviation);
    assert_eq!(cpu.last_mem_write_value, 0x42);

    run_case(&mut cpu, 0x8D, &AddressingMode::Absolute, 0x77, |cpu: &mut CPU| { cpu.register_a = 0x42; }, 0);
    assert_eq!(cpu.last_mem_write_value, 0x42);

    run_case(&mut cpu, 0x9D, &AddressingMode::AbsoluteX, 0x77, |cpu: &mut CPU| { cpu.register_a = 0x42; cpu.register_x = xydeviation; }, xydeviation);
    assert_eq!(cpu.last_mem_write_value, 0x42);

    run_case(&mut cpu, 0x99, &AddressingMode::AbsoluteY, 0x77, |cpu: &mut CPU| { cpu.register_a = 0x42; cpu.register_y = xydeviation; }, xydeviation);
    assert_eq!(cpu.last_mem_write_value, 0x42);
}

#[test]
fn test_stx_and_sty() {
    let mut cpu = create_new_cpu();
    let xydeviation = 7 as u8;

    run_case(&mut cpu, 0x86, &AddressingMode::ZeroPage, 0x77, |cpu: &mut CPU| { cpu.register_x = 0x42; }, 0);
    assert_eq!(cpu.last_mem_write_value, 0x42);

    run_case(&mut cpu, 0x96, &AddressingMode::ZeroPageY, 0x77, |cpu: &mut CPU| { cpu.register_x = 0x42; cpu.register_y = xydeviation; }, xydeviation);
    assert_eq!(cpu.last_mem_write_value, 0x42);

    run_case(&mut cpu, 0x8E, &AddressingMode::Absolute, 0x77, |cpu: &mut CPU| { cpu.register_x = 0x42; }, 0);
    assert_eq!(cpu.last_mem_write_value, 0x42);

    run_case(&mut cpu, 0x84, &AddressingMode::ZeroPage, 0x77, |cpu: &mut CPU| { cpu.register_y = 0x42; }, 0);
    assert_eq!(cpu.last_mem_write_value, 0x42);

    run_case(&mut cpu, 0x94, &AddressingMode::ZeroPageX, 0x77, |cpu: &mut CPU| { cpu.register_y = 0x42; cpu.register_x = xydeviation; }, xydeviation);
    assert_eq!(cpu.last_mem_write_value, 0x42);

    run_case(&mut cpu, 0x8C, &AddressingMode::Absolute, 0x77, |cpu: &mut CPU| { cpu.register_y = 0x42; }, 0);
    assert_eq!(cpu.last_mem_write_value, 0x42);
}

fn run_load_test(target: fn(&CPU) -> u8, opcodes: HashMap<AddressingMode, u8>) {
    let mut cpu = create_new_cpu();

    // immediate mode loading of values [1, 127]
    interpret(&mut cpu, vec![opcodes[&AddressingMode::Immediate], 0x07, 0x00]);
    assert_eq!(target(&cpu), 0x07);
    check_zero_and_neg_flags(&cpu, false, false);

    // immediate mode value 0, for a valid test we need to pollute the register first
    interpret(&mut cpu, vec![opcodes[&AddressingMode::Immediate], 0x07, opcodes[&AddressingMode::Immediate], 0x00, 0x00]);
    assert_eq!(target(&cpu), 0x00);
    check_zero_and_neg_flags(&cpu, true, false);

    // immediate mode negative values [128, 255]
    interpret(&mut cpu, vec![opcodes[&AddressingMode::Immediate], 0x97, 0x00]);
    assert_eq!(target(&cpu), 0x97);
    check_zero_and_neg_flags(&cpu, false, true);

    // absolute mode loading of values [1, 127]
    interpret(&mut cpu, vec![opcodes[&AddressingMode::Absolute], 0x06, 0x06, 0x00, 0x05, 0x08, 0x09, 0x0A]);
    assert_eq!(target(&cpu), 0x09);
    check_zero_and_neg_flags(&cpu, false, false);

    // absolute mode value 0
    interpret(&mut cpu, vec![opcodes[&AddressingMode::Immediate], 0x07, opcodes[&AddressingMode::Absolute], 0x08, 0x06, 0x00, 0x05, 0x08, 0x00, 0x0A]);
    assert_eq!(target(&cpu), 0x00);
    check_zero_and_neg_flags(&cpu, true, false);

    // absolute mode negative values [128, 255]
    interpret(&mut cpu, vec![opcodes[&AddressingMode::Absolute], 0x06, 0x06, 0x00, 0x00, 0x00, 0x97]);
    assert_eq!(target(&cpu), 0x97);
    check_zero_and_neg_flags(&cpu, false, true);

    if opcodes.contains_key(&AddressingMode::AbsoluteY) {
        check_absolute_addressing_xy(&mut cpu, target, &opcodes, AddressingMode::AbsoluteY, |cpu, v| cpu.register_y = v);
    }

    if opcodes.contains_key(&AddressingMode::AbsoluteX) {
        check_absolute_addressing_xy(&mut cpu, target, &opcodes, AddressingMode::AbsoluteX, |cpu, v| cpu.register_x = v);
    }

    // zero page
    reset(&mut cpu);
    interpret_without_reset(&mut cpu, vec![opcodes[&AddressingMode::ZeroPage], 0x05, 0x00, 0x05, 0x08, 0x09, 0x0A, 0x0B], 0x00);
    assert_eq!(target(&cpu), 0x09);
    check_zero_and_neg_flags(&cpu, false, false);

    reset(&mut cpu);
    interpret_without_reset(&mut cpu, vec![opcodes[&AddressingMode::Immediate], 0x07, opcodes[&AddressingMode::ZeroPage], 0x08, 0x00, 0x05, 0x08, 0x09, 0x00, 0x0B, 0x0C], 0x00);
    assert_eq!(target(&cpu), 0x00);
    check_zero_and_neg_flags(&cpu, true, false);

    reset(&mut cpu);
    interpret_without_reset(&mut cpu, vec![opcodes[&AddressingMode::ZeroPage], 0x05, 0x00, 0x00, 0x08, 0x99, 0x03, 0x02], 0x00);
    assert_eq!(target(&cpu), 0x99);
    check_zero_and_neg_flags(&cpu, false, true);

    if opcodes.contains_key(&AddressingMode::ZeroPageX) {
        check_zero_page_addressing_xy(&mut cpu, target, &opcodes, AddressingMode::ZeroPageX, |cpu, v| cpu.register_x = v);
    }

    if opcodes.contains_key(&AddressingMode::ZeroPageY) {
        check_zero_page_addressing_xy(&mut cpu, target, &opcodes, AddressingMode::ZeroPageY, |cpu, v| cpu.register_y = v);
    }
}

fn check_absolute_addressing_xy(
    cpu: &mut CPU,
    target: fn(&CPU) -> u8,
    opcodes: &HashMap<AddressingMode, u8>,
    addressing_mode: AddressingMode,
    set_addressing_register: fn(&mut CPU, u8),
) {
    // absolute x/y mode loading of values [1, 127]
    reset(cpu);
    set_addressing_register(cpu, 0x01);

    interpret_without_reset(cpu, vec![opcodes[&addressing_mode], 0x06, 0x06, 0x00, 0x05, 0x08, 0x09, 0x0A, 0x0B], 0x0600);
    assert_eq!(target(cpu), 0x0A);
    check_zero_and_neg_flags(cpu, false, false);

    // absolute x/y mode value 0
    reset(cpu);
    set_addressing_register(cpu, 0x01);

    interpret_without_reset(cpu, vec![opcodes[&AddressingMode::Immediate], 0x07, opcodes[&addressing_mode], 0x08, 0x06, 0x00, 0x05, 0x08, 0x09, 0x00, 0x0B], 0x0600);
    assert_eq!(target(cpu), 0x00);
    check_zero_and_neg_flags(cpu, true, false);

    // absolute x/y mode negative values [128, 255]
    reset(cpu);
    set_addressing_register(cpu, 0x01);

    interpret_without_reset(cpu, vec![opcodes[&addressing_mode], 0x06, 0x06, 0x00, 0x00, 0x08, 0x03, 0x99, 0x02], 0x0600);
    assert_eq!(target(cpu), 0x99);
    check_zero_and_neg_flags(cpu, false, true);
}

fn check_zero_page_addressing_xy(
    cpu: &mut CPU,
    target: fn(&CPU) -> u8,
    opcodes: &HashMap<AddressingMode, u8>,
    addressing_mode: AddressingMode,
    set_addressing_register: fn(&mut CPU, u8),
) {
    // zero page x/y mode loading of values [1, 127]
    reset(cpu);
    set_addressing_register(cpu, 0x01);

    interpret_without_reset(cpu, vec![opcodes[&addressing_mode], 0x05, 0x00, 0x05, 0x08, 0x09, 0x0A, 0x0B], 0x00);
    assert_eq!(target(cpu), 0x0A);
    check_zero_and_neg_flags(cpu, false, false);

    // zero page x/y mode value 0
    reset(cpu);
    set_addressing_register(cpu, 0x01);

    interpret_without_reset(cpu, vec![opcodes[&AddressingMode::Immediate], 0x07, opcodes[&addressing_mode], 0x08, 0x00, 0x05, 0x08, 0x09, 0x0B, 0x00, 0x0C], 0x00);
    assert_eq!(target(cpu), 0x00);
    check_zero_and_neg_flags(cpu, true, false);

    // zero page x/y mode negative values [128, 255]
    reset(cpu);
    set_addressing_register(cpu, 0x01);

    interpret_without_reset(cpu, vec![opcodes[&addressing_mode], 0x05, 0x00, 0x00, 0x08, 0x03, 0x99, 0x02], 0x00);
    assert_eq!(target(cpu), 0x99);
    check_zero_and_neg_flags(cpu, false, true);

    // zero page x/y mode page wrap
    reset(cpu);
    set_addressing_register(cpu, 0xFE);

    interpret_without_reset(cpu, vec![opcodes[&addressing_mode], 0x06, 0x00, 0x00, 0x08, 0x03, 0x99, 0x02], 0x00);
    assert_eq!(target(cpu), 0x08);
    check_zero_and_neg_flags(cpu, false, false);
}

#[test]
fn test_ldx() {
    let mut opcodes = HashMap::new();
    opcodes.insert(AddressingMode::Immediate, 0xA2 as u8);
    opcodes.insert(AddressingMode::ZeroPage, 0xA6 as u8);
    opcodes.insert(AddressingMode::ZeroPageY, 0xB6 as u8);
    opcodes.insert(AddressingMode::Absolute, 0xAE as u8);
    opcodes.insert(AddressingMode::AbsoluteY, 0xBE as u8);
    run_load_test(|cpu| cpu.register_x, opcodes);
}

#[test]
fn test_ldy() {
    let mut opcodes = HashMap::new();
    opcodes.insert(AddressingMode::Immediate, 0xA0 as u8);
    opcodes.insert(AddressingMode::ZeroPage, 0xA4 as u8);
    opcodes.insert(AddressingMode::ZeroPageX, 0xB4 as u8);
    opcodes.insert(AddressingMode::Absolute, 0xAC as u8);
    opcodes.insert(AddressingMode::AbsoluteX, 0xBC as u8);
    run_load_test(|cpu| cpu.register_y, opcodes);
}

#[test]
fn test_lda() {
    let mut opcodes = HashMap::new();
    opcodes.insert(AddressingMode::Immediate, 0xA9 as u8);
    opcodes.insert(AddressingMode::ZeroPage, 0xA5 as u8);
    opcodes.insert(AddressingMode::ZeroPageX, 0xB5 as u8);
    opcodes.insert(AddressingMode::Absolute, 0xAD as u8);
    opcodes.insert(AddressingMode::AbsoluteX, 0xBD as u8);
    opcodes.insert(AddressingMode::AbsoluteY, 0xB9 as u8);
    run_load_test(|cpu| cpu.register_a, opcodes);
}

fn run_transfer_test(
    set_source: fn(&mut CPU, u8),
    target: fn(&CPU) -> u8,
    opcode: u8,
    status_affected: bool,
) {
    let mut cpu = create_new_cpu();
    set_source(&mut cpu, 0x13);
    interpret_without_reset(&mut cpu, vec![opcode, 0x00], 0x00);
    assert_eq!(target(&cpu), 0x13);
    if status_affected {
        check_zero_and_neg_flags(&cpu, false, false);
    }

    set_source(&mut cpu, 0x00);
    interpret_without_reset(&mut cpu, vec![opcode, 0x00], 0x00);
    assert_eq!(target(&cpu), 0x00);
    if status_affected {
        check_zero_and_neg_flags(&cpu, true, false);
    }

    set_source(&mut cpu, 0x92);
    interpret_without_reset(&mut cpu, vec![opcode, 0x00], 0x00);
    assert_eq!(target(&cpu), 0x92);
    if status_affected {
        check_zero_and_neg_flags(&cpu, false, true);
    }
}

#[test]
fn test_tax() {
    run_transfer_test(|cpu, v| cpu.register_a = v, |cpu| cpu.register_x, 0xAA, true);
}

#[test]
fn test_tay() {
    run_transfer_test(|cpu, v| cpu.register_a = v, |cpu| cpu.register_y, 0xA8, true);
}

#[test]
fn test_tsx() {
    run_transfer_test(|cpu, v| cpu.register_s = v, |cpu| cpu.register_x, 0xBA, true);
}

#[test]
fn test_txa() {
    run_transfer_test(|cpu, v| cpu.register_x = v, |cpu| cpu.register_a, 0x8A, true);
}

#[test]
fn test_txs() {
    run_transfer_test(|cpu, v| cpu.register_x = v, |cpu| cpu.register_s, 0x9A, false);
}

#[test]
fn test_tya() {
    run_transfer_test(|cpu, v| cpu.register_y = v, |cpu| cpu.register_a, 0x98, true);
}

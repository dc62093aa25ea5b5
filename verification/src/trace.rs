//! A line of text for the instruction that the processor is about to
//! execute, in the format of the logs that Nintendulator writes:
//!
//! ```text
//! C5F5  A2 00     LDX #$00                        A:00 X:00 Y:00 P:24 SP:FD
//! ```
//!
//! From the left: the program counter, the bytes of the instruction in a
//! column of eight characters, the mnemonic set to the right of a column of
//! four, the operand as the addressing mode writes it, and what the operand
//! resolves to. This left part is filled with spaces to 47 characters. The
//! registers follow after one more space. All numbers are in upper-case
//! hexadecimal digits.
//!
//! Tracing reads memory and changes nothing.

use crate::cpu::{AddressingMode, CPU};
use crate::fault::Fault;
use crate::machine::{branch_target, high_byte, low_byte, Machine};
use crate::opcodes::OpCode;
use vstd::prelude::*;
use vstd::string::StringExecFns;

verus! {

/// The width of the column for the bytes of the instruction.
pub const BYTES_WIDTH: usize = 8;

/// The width of the column for the mnemonic.
pub const MNEMONIC_WIDTH: usize = 4;

/// The width of the part of the line that stands before the registers.
pub const LEFT_WIDTH: usize = 47;

/// The upper-case hexadecimal digit for a number below 16.
pub open spec fn hex_digit(n: u8) -> char {
    match n {
        0 => '0',
        1 => '1',
        2 => '2',
        3 => '3',
        4 => '4',
        5 => '5',
        6 => '6',
        7 => '7',
        8 => '8',
        9 => '9',
        10 => 'A',
        11 => 'B',
        12 => 'C',
        13 => 'D',
        14 => 'E',
        _ => 'F',
    }
}

/// A byte as two hexadecimal digits.
pub open spec fn hex_byte(v: u8) -> Seq<char> {
    seq![hex_digit(v / 16), hex_digit(v % 16)]
}

/// A word as four hexadecimal digits.
pub open spec fn hex_word(w: u16) -> Seq<char> {
    hex_byte(high_byte(w)) + hex_byte(low_byte(w))
}

pub open spec fn spaces(count: nat) -> Seq<char> {
    Seq::new(count, |i: int| ' ')
}

/// `text`, with spaces behind it where it is shorter than `width`.
pub open spec fn pad_right(text: Seq<char>, width: nat) -> Seq<char> {
    if text.len() >= width {
        text
    } else {
        text + spaces((width - text.len()) as nat)
    }
}

/// `text`, with spaces before it where it is shorter than `width`.
pub open spec fn pad_left(text: Seq<char>, width: nat) -> Seq<char> {
    if text.len() >= width {
        text
    } else {
        spaces((width - text.len()) as nat) + text
    }
}

/// The bytes of the instruction at `pc`, each as two digits, with a space
/// between them.
pub open spec fn instruction_bytes(machine: Machine, len: u8) -> Result<Seq<char>, Fault> {
    match machine.read(machine.pc) {
        Err(fault) => Err(fault),
        Ok(first) => if len <= 1 {
            Ok(hex_byte(first))
        } else {
            match machine.read(machine.pc.wrapping_add(1)) {
                Err(fault) => Err(fault),
                Ok(second) => if len == 2 {
                    Ok(hex_byte(first) + " "@ + hex_byte(second))
                } else {
                    match machine.read(machine.pc.wrapping_add(2)) {
                        Err(fault) => Err(fault),
                        Ok(third) => Ok(
                            hex_byte(first) + " "@ + hex_byte(second) + " "@ + hex_byte(third),
                        ),
                    }
                },
            }
        },
    }
}

/// Whether an instruction of one byte works on the accumulator.
pub open spec fn works_on_accumulator(code: u8) -> bool {
    code == 0x0A || code == 0x2A || code == 0x4A || code == 0x6A
}

/// The operand of an instruction of two bytes, as its mode writes it. An
/// instruction of two bytes without a mode is a branch: its operand is
/// written as the address that the branch goes to.
pub open spec fn short_operand(machine: Machine, mode: AddressingMode, operand: u8) -> Seq<char> {
    match mode {
        AddressingMode::NoneAddressing => "$"@ + hex_word(
            branch_target(machine.pc.wrapping_add(1), operand),
        ),
        AddressingMode::Immediate => "#$"@ + hex_byte(operand),
        AddressingMode::ZeroPage => "$"@ + hex_byte(operand),
        AddressingMode::ZeroPageX => "$"@ + hex_byte(operand) + ",X"@,
        AddressingMode::ZeroPageY => "$"@ + hex_byte(operand) + ",Y"@,
        AddressingMode::IndirectX => "($"@ + hex_byte(operand) + ",X)"@,
        AddressingMode::IndirectY => "($"@ + hex_byte(operand) + "),Y"@,
        _ => Seq::empty(),
    }
}

/// The operand of an instruction of three bytes, as its mode writes it.
pub open spec fn long_operand(mode: AddressingMode, operand: u16) -> Seq<char> {
    match mode {
        AddressingMode::Absolute => "$"@ + hex_word(operand),
        AddressingMode::AbsoluteX => "$"@ + hex_word(operand) + ",X"@,
        AddressingMode::AbsoluteY => "$"@ + hex_word(operand) + ",Y"@,
        AddressingMode::Indirect => "($"@ + hex_word(operand) + ")"@,
        _ => Seq::empty(),
    }
}

/// The operand of the instruction at `pc`, as its addressing mode writes it.
pub open spec fn addressing_information(machine: Machine, opcode: OpCode) -> Result<
    Seq<char>,
    Fault,
> {
    if opcode.len <= 1 {
        if works_on_accumulator(opcode.code) {
            Ok("A  "@)
        } else {
            Ok(Seq::empty())
        }
    } else if opcode.len == 2 {
        match machine.read(machine.pc.wrapping_add(1)) {
            Err(fault) => Err(fault),
            Ok(operand) => Ok(short_operand(machine, opcode.mode, operand)),
        }
    } else {
        match machine.read_u16(machine.pc.wrapping_add(1)) {
            Err(fault) => Err(fault),
            Ok(operand) => Ok(long_operand(opcode.mode, operand)),
        }
    }
}

/// Whether the line shows what stands at the operand's address.
pub open spec fn shows_stored_value(opcode: OpCode) -> bool {
    if opcode.len <= 1 {
        false
    } else if opcode.len == 2 {
        match opcode.mode {
            AddressingMode::ZeroPage
            | AddressingMode::ZeroPageX
            | AddressingMode::ZeroPageY
            | AddressingMode::IndirectX
            | AddressingMode::IndirectY => true,
            _ => false,
        }
    } else {
        opcode.code != 0x20 && opcode.code != 0x4C && match opcode.mode {
            AddressingMode::Absolute | AddressingMode::AbsoluteX | AddressingMode::AbsoluteY => true,
            _ => false,
        }
    }
}

/// What the operand resolves to, for an instruction of two bytes whose
/// operand is at `real_address` and holds `stored_value`.
pub open spec fn short_detail(
    machine: Machine,
    mode: AddressingMode,
    operand: u8,
    pointer: u16,
    real_address: u16,
    stored_value: u8,
) -> Seq<char> {
    match mode {
        AddressingMode::ZeroPage => "= "@ + hex_byte(stored_value),
        AddressingMode::ZeroPageX | AddressingMode::ZeroPageY => "@ "@ + hex_byte(
            low_byte(real_address),
        ) + " = "@ + hex_byte(stored_value),
        AddressingMode::IndirectX => "@ "@ + hex_byte(operand.wrapping_add(machine.x)) + " = "@
            + hex_word(real_address) + " = "@ + hex_byte(stored_value),
        AddressingMode::IndirectY => "= "@ + hex_word(pointer) + " @ "@ + hex_word(real_address)
            + " = "@ + hex_byte(stored_value),
        _ => Seq::empty(),
    }
}

/// What the operand resolves to, for an instruction of three bytes.
pub open spec fn long_detail(mode: AddressingMode, real_address: u16, stored_value: u8) -> Seq<
    char,
> {
    match mode {
        AddressingMode::Absolute => "= "@ + hex_byte(stored_value),
        AddressingMode::AbsoluteX | AddressingMode::AbsoluteY => "@ "@ + hex_word(real_address)
            + " = "@ + hex_byte(stored_value),
        _ => Seq::empty(),
    }
}

/// What the operand of the instruction at `pc` resolves to: the address, for
/// the modes that compute one, and the byte that stands there. A jump shows
/// no byte, and an indirect jump shows where it goes.
pub open spec fn detailed_addressing_information(machine: Machine, opcode: OpCode) -> Result<
    Seq<char>,
    Fault,
> {
    let operand_address = machine.pc.wrapping_add(1);
    if shows_stored_value(opcode) {
        match machine.absolute_address(opcode.mode, operand_address) {
            Err(fault) => Err(fault),
            Ok(real_address) => match machine.read(real_address) {
                Err(fault) => Err(fault),
                Ok(stored_value) => if opcode.len == 2 {
                    Ok(
                        short_detail(
                            machine,
                            opcode.mode,
                            machine.read(operand_address)->Ok_0,
                            machine.read_u16_in_page(
                                machine.read(operand_address)->Ok_0 as u16,
                            )->Ok_0,
                            real_address,
                            stored_value,
                        ),
                    )
                } else {
                    Ok(long_detail(opcode.mode, real_address, stored_value))
                },
            },
        }
    } else if opcode.len >= 3 && opcode.mode == AddressingMode::Indirect && opcode.code != 0x20
        && opcode.code != 0x4C {
        match machine.absolute_address(opcode.mode, operand_address) {
            Err(fault) => Err(fault),
            Ok(real_address) => Ok("= "@ + hex_word(real_address)),
        }
    } else {
        Ok(Seq::empty())
    }
}

/// The registers, as they stand at the right of the line.
pub open spec fn register_stati(machine: Machine) -> Seq<char> {
    "A:"@ + hex_byte(machine.a) + " X:"@ + hex_byte(machine.x) + " Y:"@ + hex_byte(machine.y)
        + " P:"@ + hex_byte(machine.p) + " SP:"@ + hex_byte(machine.s)
}

/// The left part of the line, before it is filled to its width.
pub open spec fn left_part(
    machine: Machine,
    opcode: OpCode,
    bytes: Seq<char>,
    addressing: Seq<char>,
    details: Seq<char>,
) -> Seq<char> {
    hex_word(machine.pc) + "  "@ + pad_right(bytes, BYTES_WIDTH as nat) + " "@ + pad_left(
        opcode.name@,
        MNEMONIC_WIDTH as nat,
    ) + " "@ + addressing + " "@ + details
}

/// The line for the instruction `opcode` at `pc`, or the fault that reading
/// the instruction or its operand meets.
pub open spec fn trace_line(machine: Machine, opcode: OpCode) -> Result<Seq<char>, Fault> {
    match instruction_bytes(machine, opcode.len) {
        Err(fault) => Err(fault),
        Ok(bytes) => match addressing_information(machine, opcode) {
            Err(fault) => Err(fault),
            Ok(addressing) => match detailed_addressing_information(machine, opcode) {
                Err(fault) => Err(fault),
                Ok(details) => Ok(
                    pad_right(
                        left_part(machine, opcode, bytes, addressing, details),
                        LEFT_WIDTH as nat,
                    ) + " "@ + register_stati(machine),
                ),
            },
        },
    }
}

/// A line starts with the program counter and ends with the registers, which
/// stand behind the 47 characters of the left part and one space, or further
/// to the right where the left part is longer.
pub proof fn lemma_line_shape(machine: Machine, opcode: OpCode)
    requires
        trace_line(machine, opcode) is Ok,
    ensures
        register_stati(machine).len() == 25,
        trace_line(machine, opcode)->Ok_0.len() >= LEFT_WIDTH + 1 + 25,
        trace_line(machine, opcode)->Ok_0.subrange(0, 4) == hex_word(machine.pc),
        trace_line(machine, opcode)->Ok_0.subrange(
            trace_line(machine, opcode)->Ok_0.len() - 25,
            trace_line(machine, opcode)->Ok_0.len() as int,
        ) == register_stati(machine),
        trace_line(machine, opcode)->Ok_0[trace_line(machine, opcode)->Ok_0.len() - 26] == ' ',
{
    reveal_strlit("A:");
    reveal_strlit(" X:");
    reveal_strlit(" Y:");
    reveal_strlit(" P:");
    reveal_strlit(" SP:");
    reveal_strlit(" ");
    let line = trace_line(machine, opcode)->Ok_0;
    let bytes = instruction_bytes(machine, opcode.len)->Ok_0;
    let addressing = addressing_information(machine, opcode)->Ok_0;
    let details = detailed_addressing_information(machine, opcode)->Ok_0;
    let left = left_part(machine, opcode, bytes, addressing, details);
    let padded = pad_right(left, LEFT_WIDTH as nat);
    let registers = register_stati(machine);
    assert(registers.len() == 25);
    assert(padded.len() >= LEFT_WIDTH);
    assert(line == padded + " "@ + registers);
    assert(line.subrange(line.len() - 25, line.len() as int) =~= registers);
    assert(left.subrange(0, 4) =~= hex_word(machine.pc));
    assert(padded.subrange(0, 4) =~= left.subrange(0, 4));
    assert(line.subrange(0, 4) =~= padded.subrange(0, 4));
}

/// An operation gave the text that `expected` holds, or failed with the
/// fault that `expected` holds.
pub open spec fn gives(got: Result<String, Fault>, expected: Result<Seq<char>, Fault>) -> bool {
    match expected {
        Ok(text) => got is Ok && got->Ok_0@ == text,
        Err(fault) => got == Err::<String, Fault>(fault),
    }
}

fn hex_digit_str(n: u8) -> (digit: &'static str)
    requires
        n < 16,
    ensures
        digit@ == seq![hex_digit(n)],
{
    proof {
        reveal_strlit("0");
        reveal_strlit("1");
        reveal_strlit("2");
        reveal_strlit("3");
        reveal_strlit("4");
        reveal_strlit("5");
        reveal_strlit("6");
        reveal_strlit("7");
        reveal_strlit("8");
        reveal_strlit("9");
        reveal_strlit("A");
        reveal_strlit("B");
        reveal_strlit("C");
        reveal_strlit("D");
        reveal_strlit("E");
        reveal_strlit("F");
    }
    let digit = match n {
        0 => "0",
        1 => "1",
        2 => "2",
        3 => "3",
        4 => "4",
        5 => "5",
        6 => "6",
        7 => "7",
        8 => "8",
        9 => "9",
        10 => "A",
        11 => "B",
        12 => "C",
        13 => "D",
        14 => "E",
        _ => "F",
    };
    assert(digit@ =~= seq![hex_digit(n)]);
    digit
}

fn push_hex_byte(text: &mut String, v: u8)
    ensures
        final(text)@ == old(text)@ + hex_byte(v),
{
    text.append(hex_digit_str(v / 16));
    text.append(hex_digit_str(v % 16));
    assert(text@ =~= old(text)@ + hex_byte(v));
}

fn push_hex_word(text: &mut String, w: u16)
    ensures
        final(text)@ == old(text)@ + hex_word(w),
{
    push_hex_byte(text, (w / 0x100) as u8);
    push_hex_byte(text, (w % 0x100) as u8);
    assert(text@ =~= old(text)@ + hex_word(w));
}

fn push_spaces(text: &mut String, count: usize)
    ensures
        final(text)@ == old(text)@ + spaces(count as nat),
{
    proof {
        reveal_strlit(" ");
    }
    let mut i: usize = 0;
    assert(text@ =~= old(text)@ + spaces(0));
    while i < count
        invariant
            i <= count,
            text@ == old(text)@ + spaces(i as nat),
            " "@ == seq![' '],
        decreases count - i,
    {
        text.append(" ");
        i += 1;
        assert(text@ =~= old(text)@ + spaces(i as nat));
    }
}

/// Appends `piece` to `text`, with spaces behind it where it is shorter
/// than `width`.
fn push_padded_right(text: &mut String, piece: &str, width: usize)
    ensures
        final(text)@ == old(text)@ + pad_right(piece@, width as nat),
{
    let len = piece.unicode_len();
    text.append(piece);
    if len < width {
        push_spaces(text, width - len);
        assert(text@ =~= old(text)@ + pad_right(piece@, width as nat));
    }
}

/// Appends `piece` to `text`, with spaces before it where it is shorter
/// than `width`.
fn push_padded_left(text: &mut String, piece: &str, width: usize)
    ensures
        final(text)@ == old(text)@ + pad_left(piece@, width as nat),
{
    let len = piece.unicode_len();
    if len < width {
        push_spaces(text, width - len);
    }
    text.append(piece);
    assert(text@ =~= old(text)@ + pad_left(piece@, width as nat));
}

fn parse_instruction_bytes(cpu: &CPU, len: u8) -> (r: Result<String, Fault>)
    ensures
        gives(r, instruction_bytes(cpu@, len)),
{
    let mut text = String::new();
    let first = cpu.mem_read(cpu.program_counter)?;
    push_hex_byte(&mut text, first);
    assert(text@ =~= hex_byte(first));
    if len > 1 {
        let second = cpu.mem_read(cpu.program_counter.wrapping_add(1))?;
        text.append(" ");
        push_hex_byte(&mut text, second);
        if len > 2 {
            let third = cpu.mem_read(cpu.program_counter.wrapping_add(2))?;
            text.append(" ");
            push_hex_byte(&mut text, third);
        }
    }
    Ok(text)
}

fn parse_addressing_information(cpu: &CPU, opcode: &OpCode) -> (r: Result<String, Fault>)
    ensures
        gives(r, addressing_information(cpu@, *opcode)),
{
    let mut text = String::new();
    let ghost empty = text@;
    if opcode.len <= 1 {
        match opcode.code {
            0x0A | 0x2A | 0x4A | 0x6A => {
                text.append("A  ");
                assert(text@ =~= "A  "@);
            },
            _ => {},
        }
    } else if opcode.len == 2 {
        let operand_value = cpu.mem_read(cpu.program_counter.wrapping_add(1))?;
        match opcode.mode {
            AddressingMode::NoneAddressing => {
                let after_branch = cpu.program_counter.wrapping_add(2).wrapping_add(
                    operand_value as u16,
                );
                let branch_to_address = if operand_value > 127 {
                    after_branch.wrapping_sub(0x100)
                } else {
                    after_branch
                };
                text.append("$");
                push_hex_word(&mut text, branch_to_address);
            },
            AddressingMode::Immediate => {
                text.append("#$");
                push_hex_byte(&mut text, operand_value);
            },
            AddressingMode::ZeroPage => {
                text.append("$");
                push_hex_byte(&mut text, operand_value);
            },
            AddressingMode::ZeroPageX => {
                text.append("$");
                push_hex_byte(&mut text, operand_value);
                text.append(",X");
            },
            AddressingMode::ZeroPageY => {
                text.append("$");
                push_hex_byte(&mut text, operand_value);
                text.append(",Y");
            },
            AddressingMode::IndirectX => {
                text.append("($");
                push_hex_byte(&mut text, operand_value);
                text.append(",X)");
            },
            AddressingMode::IndirectY => {
                text.append("($");
                push_hex_byte(&mut text, operand_value);
                text.append("),Y");
            },
            _ => {},
        }
        assert(text@ =~= short_operand(cpu@, opcode.mode, operand_value));
    } else {
        let operand_value = cpu.mem_read_u16(cpu.program_counter.wrapping_add(1))?;
        match opcode.mode {
            AddressingMode::Absolute => {
                text.append("$");
                push_hex_word(&mut text, operand_value);
            },
            AddressingMode::AbsoluteX => {
                text.append("$");
                push_hex_word(&mut text, operand_value);
                text.append(",X");
            },
            AddressingMode::AbsoluteY => {
                text.append("$");
                push_hex_word(&mut text, operand_value);
                text.append(",Y");
            },
            AddressingMode::Indirect => {
                text.append("($");
                push_hex_word(&mut text, operand_value);
                text.append(")");
            },
            _ => {},
        }
        assert(text@ =~= long_operand(opcode.mode, operand_value));
    }
    Ok(text)
}

fn parse_detailed_addressing_information(cpu: &CPU, opcode: &OpCode) -> (r: Result<String, Fault>)
    ensures
        gives(r, detailed_addressing_information(cpu@, *opcode)),
{
    let mut text = String::new();
    let operand_address = cpu.program_counter.wrapping_add(1);
    if opcode.len <= 1 {
    } else if opcode.len == 2 {
        match opcode.mode {
            AddressingMode::ZeroPage => {
                let real_address = cpu.get_absolute_address(&opcode.mode, operand_address)?;
                let stored_value = cpu.mem_read(real_address)?;
                text.append("= ");
                push_hex_byte(&mut text, stored_value);
                assert(text@ =~= "= "@ + hex_byte(stored_value));
            },
            AddressingMode::ZeroPageX | AddressingMode::ZeroPageY => {
                let real_address = cpu.get_absolute_address(&opcode.mode, operand_address)?;
                let stored_value = cpu.mem_read(real_address)?;
                text.append("@ ");
                push_hex_byte(&mut text, (real_address % 0x100) as u8);
                text.append(" = ");
                push_hex_byte(&mut text, stored_value);
                assert(text@ =~= "@ "@ + hex_byte(low_byte(real_address)) + " = "@ + hex_byte(
                    stored_value,
                ));
            },
            AddressingMode::IndirectX => {
                let real_address = cpu.get_absolute_address(&opcode.mode, operand_address)?;
                let stored_value = cpu.mem_read(real_address)?;
                let operand_value = match cpu.mem_read(operand_address) {
                    Ok(operand_value) => operand_value,
                    Err(_) => vstd::pervasive::unreached(),
                };
                text.append("@ ");
                push_hex_byte(&mut text, operand_value.wrapping_add(cpu.register_x));
                text.append(" = ");
                push_hex_word(&mut text, real_address);
                text.append(" = ");
                push_hex_byte(&mut text, stored_value);
                assert(text@ =~= "@ "@ + hex_byte(operand_value.wrapping_add(cpu.register_x))
                    + " = "@ + hex_word(real_address) + " = "@ + hex_byte(stored_value));
            },
            AddressingMode::IndirectY => {
                let real_address = cpu.get_absolute_address(&opcode.mode, operand_address)?;
                let stored_value = cpu.mem_read(real_address)?;
                let operand_value = match cpu.mem_read(operand_address) {
                    Ok(operand_value) => operand_value,
                    Err(_) => vstd::pervasive::unreached(),
                };
                let indirect_address = match cpu.mem_read_u16_in_page(operand_value as u16) {
                    Ok(indirect_address) => indirect_address,
                    Err(_) => vstd::pervasive::unreached(),
                };
                text.append("= ");
                push_hex_word(&mut text, indirect_address);
                text.append(" @ ");
                push_hex_word(&mut text, real_address);
                text.append(" = ");
                push_hex_byte(&mut text, stored_value);
                assert(text@ =~= "= "@ + hex_word(indirect_address) + " @ "@ + hex_word(
                    real_address,
                ) + " = "@ + hex_byte(stored_value));
            },
            _ => {},
        }
    } else {
        match opcode.code {
            0x20 | 0x4C => {},
            _ => match opcode.mode {
                AddressingMode::Absolute => {
                    let real_address = cpu.get_absolute_address(&opcode.mode, operand_address)?;
                    let stored_value = cpu.mem_read(real_address)?;
                    text.append("= ");
                    push_hex_byte(&mut text, stored_value);
                    assert(text@ =~= "= "@ + hex_byte(stored_value));
                },
                AddressingMode::AbsoluteX | AddressingMode::AbsoluteY => {
                    let real_address = cpu.get_absolute_address(&opcode.mode, operand_address)?;
                    let stored_value = cpu.mem_read(real_address)?;
                    text.append("@ ");
                    push_hex_word(&mut text, real_address);
                    text.append(" = ");
                    push_hex_byte(&mut text, stored_value);
                    assert(text@ =~= "@ "@ + hex_word(real_address) + " = "@ + hex_byte(
                        stored_value,
                    ));
                },
                AddressingMode::Indirect => {
                    let real_address = cpu.get_absolute_address(&opcode.mode, operand_address)?;
                    text.append("= ");
                    push_hex_word(&mut text, real_address);
                    assert(text@ =~= "= "@ + hex_word(real_address));
                },
                _ => {},
            },
        }
    }
    Ok(text)
}

fn parse_register_stati(cpu: &CPU) -> (text: String)
    ensures
        text@ == register_stati(cpu@),
{
    let mut text = String::new();
    text.append("A:");
    push_hex_byte(&mut text, cpu.register_a);
    text.append(" X:");
    push_hex_byte(&mut text, cpu.register_x);
    text.append(" Y:");
    push_hex_byte(&mut text, cpu.register_y);
    text.append(" P:");
    push_hex_byte(&mut text, cpu.status);
    text.append(" SP:");
    push_hex_byte(&mut text, cpu.register_s);
    assert(text@ =~= register_stati(cpu@));
    text
}

/// Writes the line for the instruction `opcode`, which stands at the program
/// counter and is about to be executed.
///
/// Fails where a byte of the instruction, or a byte that the line shows,
/// cannot be read. The mnemonic is written as the opcode has it.
pub fn trace(cpu: &CPU, opcode: &OpCode) -> (r: Result<String, Fault>)
    requires
        1 <= opcode.len <= 3,
    ensures
        gives(r, trace_line(cpu@, *opcode)),
{
    let instruction_str = parse_instruction_bytes(cpu, opcode.len)?;
    let addressing_string = parse_addressing_information(cpu, opcode)?;
    let addressing_details = parse_detailed_addressing_information(cpu, opcode)?;
    let register_stati = parse_register_stati(cpu);
    let mut part_one = String::new();
    push_hex_word(&mut part_one, cpu.program_counter);
    part_one.append("  ");
    push_padded_right(&mut part_one, instruction_str.as_str(), BYTES_WIDTH);
    part_one.append(" ");
    push_padded_left(&mut part_one, opcode.name, MNEMONIC_WIDTH);
    part_one.append(" ");
    part_one.append(addressing_string.as_str());
    part_one.append(" ");
    part_one.append(addressing_details.as_str());
    assert(part_one@ =~= left_part(
        cpu@,
        *opcode,
        instruction_str@,
        addressing_string@,
        addressing_details@,
    ));
    let mut line = String::new();
    push_padded_right(&mut line, part_one.as_str(), LEFT_WIDTH);
    line.append(" ");
    line.append(register_stati.as_str());
    assert(line@ =~= pad_right(part_one@, LEFT_WIDTH as nat) + " "@ + register_stati@);
    Ok(line)
}

} // verus!

//! What each instruction does to the machine.
//!
//! Each function takes the machine as it is when the opcode has been fetched
//! and `pc` points at the first operand byte. It gives the machine after the
//! instruction, with `pc` untouched unless the instruction assigns it, or the
//! fault that kept the instruction from being executed.

use crate::cpu::{AddressingMode, Flow, RunEnd};
use crate::fault::Fault;
use crate::machine::{branch_target, Machine};
use crate::opcodes::{entry, OpCode};
use crate::status::{
    add_with_carry, bit_test, carry_of, compare, flag_set, is_negative, is_odd, pulled_status,
    pushed_status, rotate_left, rotate_right, shift_left, shift_right, with_flag, with_nz, CARRY,
    DECIMAL_MODE, INTERRUPT_DISABLE, NEGATIVE, OVERFLOW, ZERO,
};
use vstd::prelude::*;

verus! {

/// The instruction is done, and execution goes on behind it.
pub open spec fn then_next(after: Result<Machine, Fault>) -> Result<(Machine, Flow), Fault> {
    match after {
        Err(fault) => Err(fault),
        Ok(machine) => Ok((machine, Flow::Next)),
    }
}

/// The instruction is done, and it has said where execution goes on.
pub open spec fn then_jump(after: Result<Machine, Fault>) -> Result<(Machine, Flow), Fault> {
    match after {
        Err(fault) => Err(fault),
        Ok(machine) => Ok((machine, Flow::Jump)),
    }
}

impl Machine {
    /// The status byte with one flag set or cleared.
    pub open spec fn flag(self, mask: u8, on: bool) -> Machine {
        Machine { p: with_flag(self.p, mask, on), ..self }
    }

    /// A value arrives in the accumulator and sets Z and N.
    pub open spec fn load_a(self, value: u8) -> Machine {
        Machine { a: value, p: with_nz(self.p, value), ..self }
    }

    /// A value arrives in X and sets Z and N.
    pub open spec fn load_x(self, value: u8) -> Machine {
        Machine { x: value, p: with_nz(self.p, value), ..self }
    }

    /// A value arrives in Y and sets Z and N.
    pub open spec fn load_y(self, value: u8) -> Machine {
        Machine { y: value, p: with_nz(self.p, value), ..self }
    }

    /// `value` and `carry` (0 or 1) are added to the accumulator.
    pub open spec fn add_to_a(self, value: u8, carry: u8) -> Machine {
        Machine {
            a: add_with_carry(self.a, value, carry, self.p).0,
            p: add_with_carry(self.a, value, carry, self.p).1,
            ..self
        }
    }

    pub open spec fn adc(self, mode: AddressingMode) -> Result<Machine, Fault> {
        match self.operand(mode) {
            Err(fault) => Err(fault),
            Ok((_, value)) => Ok(self.add_to_a(value, carry_of(self.p))),
        }
    }

    /// `AND`, with C set to the new N.
    pub open spec fn anc(self, mode: AddressingMode) -> Result<Machine, Fault> {
        match self.operand(mode) {
            Err(fault) => Err(fault),
            Ok((_, value)) => Ok(
                self.load_a(self.a & value).flag(CARRY, is_negative(self.a & value)),
            ),
        }
    }

    pub open spec fn and(self, mode: AddressingMode) -> Result<Machine, Fault> {
        match self.operand(mode) {
            Err(fault) => Err(fault),
            Ok((_, value)) => Ok(self.load_a(self.a & value)),
        }
    }

    /// What a shift or rotate works on: the accumulator where the mode names
    /// no address, else the operand.
    pub open spec fn shift_input(self, mode: AddressingMode) -> Result<(u16, u8), Fault> {
        if mode == AddressingMode::NoneAddressing {
            Ok((0, self.a))
        } else {
            self.operand(mode)
        }
    }

    /// The result of a shift or rotate goes back where the input came from;
    /// C takes the bit that was moved out, Z and N follow the result.
    pub open spec fn shift_output(
        self,
        mode: AddressingMode,
        address: u16,
        result: u8,
        carry: bool,
    ) -> Result<Machine, Fault> {
        if mode == AddressingMode::NoneAddressing {
            Ok(Machine { a: result, p: with_nz(with_flag(self.p, CARRY, carry), result), ..self })
        } else {
            match self.write(address, result) {
                Err(fault) => Err(fault),
                Ok(written) => Ok(
                    Machine { p: with_nz(with_flag(self.p, CARRY, carry), result), ..written },
                ),
            }
        }
    }

    pub open spec fn asl(self, mode: AddressingMode) -> Result<Machine, Fault> {
        match self.shift_input(mode) {
            Err(fault) => Err(fault),
            Ok((address, value)) => self.shift_output(
                mode,
                address,
                shift_left(value),
                is_negative(value),
            ),
        }
    }

    pub open spec fn lsr(self, mode: AddressingMode) -> Result<Machine, Fault> {
        match self.shift_input(mode) {
            Err(fault) => Err(fault),
            Ok((address, value)) => self.shift_output(
                mode,
                address,
                shift_right(value),
                is_odd(value),
            ),
        }
    }

    pub open spec fn rol(self, mode: AddressingMode) -> Result<Machine, Fault> {
        match self.shift_input(mode) {
            Err(fault) => Err(fault),
            Ok((address, value)) => self.shift_output(
                mode,
                address,
                rotate_left(value, carry_of(self.p)),
                is_negative(value),
            ),
        }
    }

    pub open spec fn ror(self, mode: AddressingMode) -> Result<Machine, Fault> {
        match self.shift_input(mode) {
            Err(fault) => Err(fault),
            Ok((address, value)) => self.shift_output(
                mode,
                address,
                rotate_right(value, carry_of(self.p)),
                is_odd(value),
            ),
        }
    }

    /// A branch: where it is taken, `pc` moves by the operand, a signed
    /// byte, counted from the instruction after the branch. A branch that is
    /// not taken does not read its operand.
    pub open spec fn branch(self, mode: AddressingMode, taken: bool) -> Result<
        (Machine, Flow),
        Fault,
    > {
        if taken {
            match self.operand(mode) {
                Err(fault) => Err(fault),
                Ok((_, offset)) => Ok(
                    (Machine { pc: branch_target(self.pc, offset), ..self }, Flow::Jump),
                ),
            }
        } else {
            Ok((self, Flow::Next))
        }
    }

    pub open spec fn bit(self, mode: AddressingMode) -> Result<Machine, Fault> {
        match self.operand(mode) {
            Err(fault) => Err(fault),
            Ok((_, value)) => Ok(Machine { p: bit_test(self.p, self.a, value), ..self }),
        }
    }

    /// The operand is compared with the register value `reference`.
    pub open spec fn compare_with(self, mode: AddressingMode, reference: u8) -> Result<
        Machine,
        Fault,
    > {
        match self.operand(mode) {
            Err(fault) => Err(fault),
            Ok((_, value)) => Ok(Machine { p: compare(self.p, reference, value), ..self }),
        }
    }

    /// The operand is replaced by `result`.
    pub open spec fn modify(self, mode: AddressingMode, result: u8) -> Result<Machine, Fault> {
        match self.operand(mode) {
            Err(fault) => Err(fault),
            Ok((address, _)) => self.write(address, result),
        }
    }

    /// `DEC`, then `CMP` with the new value.
    pub open spec fn dcp(self, mode: AddressingMode) -> Result<Machine, Fault> {
        match self.operand(mode) {
            Err(fault) => Err(fault),
            Ok((address, value)) => match self.write(address, value.wrapping_sub(1)) {
                Err(fault) => Err(fault),
                Ok(written) => Ok(
                    Machine { p: compare(self.p, self.a, value.wrapping_sub(1)), ..written },
                ),
            },
        }
    }

    pub open spec fn dec(self, mode: AddressingMode) -> Result<Machine, Fault> {
        match self.operand(mode) {
            Err(fault) => Err(fault),
            Ok((address, value)) => match self.write(address, value.wrapping_sub(1)) {
                Err(fault) => Err(fault),
                Ok(written) => Ok(
                    Machine { p: with_nz(self.p, value.wrapping_sub(1)), ..written },
                ),
            },
        }
    }

    pub open spec fn eor(self, mode: AddressingMode) -> Result<Machine, Fault> {
        match self.operand(mode) {
            Err(fault) => Err(fault),
            Ok((_, value)) => Ok(self.load_a(value ^ self.a)),
        }
    }

    pub open spec fn inc(self, mode: AddressingMode) -> Result<Machine, Fault> {
        match self.operand(mode) {
            Err(fault) => Err(fault),
            Ok((address, value)) => match self.write(address, value.wrapping_add(1)) {
                Err(fault) => Err(fault),
                Ok(written) => Ok(
                    Machine { p: with_nz(self.p, value.wrapping_add(1)), ..written },
                ),
            },
        }
    }

    /// `INC`, then `SBC` with the new value.
    pub open spec fn isb(self, mode: AddressingMode) -> Result<Machine, Fault> {
        match self.operand(mode) {
            Err(fault) => Err(fault),
            Ok((address, value)) => match self.write(address, value.wrapping_add(1)) {
                Err(fault) => Err(fault),
                Ok(written) => Ok(written.add_to_a(!value.wrapping_add(1), carry_of(self.p))),
            },
        }
    }

    /// `pc` becomes the operand's address.
    pub open spec fn jmp(self, mode: AddressingMode) -> Result<Machine, Fault> {
        match self.operand_address(mode) {
            Err(fault) => Err(fault),
            Ok(address) => Ok(Machine { pc: address, ..self }),
        }
    }

    /// The address of the last byte of the instruction is pushed, then `pc`
    /// becomes the operand's address.
    pub open spec fn jsr(self, mode: AddressingMode) -> Result<Machine, Fault> {
        self.push_u16(self.pc.wrapping_add(1)).jmp(mode)
    }

    /// `LDA` and `LDX` at once.
    pub open spec fn lax(self, mode: AddressingMode) -> Result<Machine, Fault> {
        match self.operand(mode) {
            Err(fault) => Err(fault),
            Ok((_, value)) => Ok(Machine { x: value, ..self.load_a(value) }),
        }
    }

    pub open spec fn lda(self, mode: AddressingMode) -> Result<Machine, Fault> {
        match self.operand(mode) {
            Err(fault) => Err(fault),
            Ok((_, value)) => Ok(self.load_a(value)),
        }
    }

    pub open spec fn ldx(self, mode: AddressingMode) -> Result<Machine, Fault> {
        match self.operand(mode) {
            Err(fault) => Err(fault),
            Ok((_, value)) => Ok(self.load_x(value)),
        }
    }

    pub open spec fn ldy(self, mode: AddressingMode) -> Result<Machine, Fault> {
        match self.operand(mode) {
            Err(fault) => Err(fault),
            Ok((_, value)) => Ok(self.load_y(value)),
        }
    }

    pub open spec fn ora(self, mode: AddressingMode) -> Result<Machine, Fault> {
        match self.operand(mode) {
            Err(fault) => Err(fault),
            Ok((_, value)) => Ok(self.load_a(value | self.a)),
        }
    }

    pub open spec fn pha(self) -> Machine {
        self.push(self.a)
    }

    /// The status byte is pushed with B and bit 5 set in the copy.
    pub open spec fn php(self) -> Machine {
        self.push(pushed_status(self.p))
    }

    pub open spec fn pla(self) -> Machine {
        self.pop().0.load_a(self.pop().1)
    }

    /// The status byte is pulled; B is cleared and bit 5 set in what arrives.
    pub open spec fn plp(self) -> Machine {
        Machine { p: pulled_status(self.pop().1), ..self.pop().0 }
    }

    /// `ROL`, then `AND` with the new value. Z and N follow the rotated
    /// value.
    pub open spec fn rla(self, mode: AddressingMode) -> Result<Machine, Fault> {
        match self.operand(mode) {
            Err(fault) => Err(fault),
            Ok((address, value)) => match self.write(
                address,
                rotate_left(value, carry_of(self.p)),
            ) {
                Err(fault) => Err(fault),
                Ok(written) => Ok(
                    Machine {
                        a: self.a & rotate_left(value, carry_of(self.p)),
                        p: with_nz(
                            with_flag(self.p, CARRY, is_negative(value)),
                            rotate_left(value, carry_of(self.p)),
                        ),
                        ..written
                    },
                ),
            },
        }
    }

    /// `ROR`, then `ADC` with the new value and the carry that `ROR` left.
    pub open spec fn rra(self, mode: AddressingMode) -> Result<Machine, Fault> {
        match self.operand(mode) {
            Err(fault) => Err(fault),
            Ok((address, value)) => match self.write(
                address,
                rotate_right(value, carry_of(self.p)),
            ) {
                Err(fault) => Err(fault),
                Ok(written) => Ok(
                    written.flag(CARRY, is_odd(value)).add_to_a(
                        rotate_right(value, carry_of(self.p)),
                        if is_odd(value) {
                            1
                        } else {
                            0
                        },
                    ),
                ),
            },
        }
    }

    /// The status byte is pulled as by `PLP`, then `pc`.
    pub open spec fn rti(self) -> Machine {
        Machine { pc: self.plp().pop_u16().1, ..self.plp().pop_u16().0 }
    }

    /// `pc` is pulled; execution goes on one byte behind it.
    pub open spec fn rts(self) -> Machine {
        Machine { pc: self.pop_u16().1.wrapping_add(1), ..self.pop_u16().0 }
    }

    /// Stores `A & X`.
    pub open spec fn sax(self, mode: AddressingMode) -> Result<Machine, Fault> {
        self.store(mode, self.x & self.a)
    }

    /// Subtraction is the addition of the operand with all its bits turned.
    pub open spec fn sbc(self, mode: AddressingMode) -> Result<Machine, Fault> {
        match self.operand(mode) {
            Err(fault) => Err(fault),
            Ok((_, value)) => Ok(self.add_to_a(!value, carry_of(self.p))),
        }
    }

    /// `ASL`, then `ORA` with the new value.
    pub open spec fn slo(self, mode: AddressingMode) -> Result<Machine, Fault> {
        match self.operand(mode) {
            Err(fault) => Err(fault),
            Ok((address, value)) => match self.write(address, shift_left(value)) {
                Err(fault) => Err(fault),
                Ok(written) => Ok(
                    written.flag(CARRY, is_negative(value)).load_a(shift_left(value) | self.a),
                ),
            },
        }
    }

    /// `LSR`, then `EOR` with the new value.
    pub open spec fn sre(self, mode: AddressingMode) -> Result<Machine, Fault> {
        match self.operand(mode) {
            Err(fault) => Err(fault),
            Ok((address, value)) => match self.write(address, shift_right(value)) {
                Err(fault) => Err(fault),
                Ok(written) => Ok(
                    written.flag(CARRY, is_odd(value)).load_a(self.a ^ shift_right(value)),
                ),
            },
        }
    }

    /// `value` is stored at the operand's address.
    pub open spec fn store(self, mode: AddressingMode, value: u8) -> Result<Machine, Fault> {
        match self.operand_address(mode) {
            Err(fault) => Err(fault),
            Ok(address) => self.write(address, value),
        }
    }

    /// What the instruction `opcode` does, and how execution goes on.
    ///
    /// The definition is long, so it is kept out of sight of proofs that do
    /// not ask for it.
    #[verifier::opaque]
    pub open spec fn execute(self, opcode: OpCode) -> Result<(Machine, Flow), Fault> {
        let mode = opcode.mode;
        match opcode.code {
            0x61 | 0x65 | 0x69 | 0x6D | 0x71 | 0x75 | 0x79 | 0x7D => then_next(self.adc(mode)),
            0x0B | 0x2B => then_next(self.anc(mode)),
            0x21 | 0x25 | 0x29 | 0x2D | 0x31 | 0x35 | 0x39 | 0x3D => then_next(self.and(mode)),
            0x06 | 0x0A | 0x0E | 0x16 | 0x1E => then_next(self.asl(mode)),
            0x90 => self.branch(mode, !flag_set(self.p, CARRY)),
            0xB0 => self.branch(mode, flag_set(self.p, CARRY)),
            0xF0 => self.branch(mode, flag_set(self.p, ZERO)),
            0x24 | 0x2C => then_next(self.bit(mode)),
            0x30 => self.branch(mode, flag_set(self.p, NEGATIVE)),
            0xD0 => self.branch(mode, !flag_set(self.p, ZERO)),
            0x10 => self.branch(mode, !flag_set(self.p, NEGATIVE)),
            0x50 => self.branch(mode, !flag_set(self.p, OVERFLOW)),
            0x70 => self.branch(mode, flag_set(self.p, OVERFLOW)),
            0x18 => Ok((self.flag(CARRY, false), Flow::Next)),
            0xD8 => Ok((self.flag(DECIMAL_MODE, false), Flow::Next)),
            0x58 => Ok((self.flag(INTERRUPT_DISABLE, false), Flow::Next)),
            0xB8 => Ok((self.flag(OVERFLOW, false), Flow::Next)),
            0xC1 | 0xC5 | 0xC9 | 0xCD | 0xD1 | 0xD5 | 0xD9 | 0xDD => then_next(
                self.compare_with(mode, self.a),
            ),
            0xE0 | 0xE4 | 0xEC => then_next(self.compare_with(mode, self.x)),
            0xC0 | 0xC4 | 0xCC => then_next(self.compare_with(mode, self.y)),
            0xC7 | 0xD7 | 0xCF | 0xDF | 0xDB | 0xC3 | 0xD3 => then_next(self.dcp(mode)),
            0xC6 | 0xCE | 0xD6 | 0xDE => then_next(self.dec(mode)),
            0xCA => Ok((self.load_x(self.x.wrapping_sub(1)), Flow::Next)),
            0x88 => Ok((self.load_y(self.y.wrapping_sub(1)), Flow::Next)),
            0x41 | 0x45 | 0x49 | 0x4D | 0x51 | 0x55 | 0x59 | 0x5D => then_next(self.eor(mode)),
            0xE6 | 0xEE | 0xF6 | 0xFE => then_next(self.inc(mode)),
            0xE8 => Ok((self.load_x(self.x.wrapping_add(1)), Flow::Next)),
            0xC8 => Ok((self.load_y(self.y.wrapping_add(1)), Flow::Next)),
            0xE7 | 0xF7 | 0xEF | 0xFF | 0xFB | 0xE3 | 0xF3 => then_next(self.isb(mode)),
            0x4C | 0x6C => then_jump(self.jmp(mode)),
            0x20 => then_jump(self.jsr(mode)),
            0xA7 | 0xB7 | 0xAF | 0xBF | 0xA3 | 0xB3 => then_next(self.lax(mode)),
            0xA1 | 0xA5 | 0xA9 | 0xAD | 0xB1 | 0xB5 | 0xB9 | 0xBD => then_next(self.lda(mode)),
            0xA2 | 0xA6 | 0xAE | 0xB6 | 0xBE => then_next(self.ldx(mode)),
            0xA0 | 0xA4 | 0xAC | 0xB4 | 0xBC => then_next(self.ldy(mode)),
            0x46 | 0x4A | 0x4E | 0x56 | 0x5E => then_next(self.lsr(mode)),
            0xEA => Ok((self, Flow::Next)),
            0x1A | 0x3A | 0x5A | 0x7A | 0xDA | 0xFA => Ok((self, Flow::Next)),
            0x04 | 0x14 | 0x34 | 0x44 | 0x54 | 0x64 | 0x74 | 0x80 | 0x82 | 0x89 | 0xC2 | 0xD4
            | 0xE2 | 0xF4 => Ok((self, Flow::Next)),
            0x0C | 0x1C | 0x3C | 0x5C | 0x7C | 0xDC | 0xFC => Ok((self, Flow::Next)),
            0x01 | 0x05 | 0x09 | 0x0D | 0x11 | 0x15 | 0x19 | 0x1D => then_next(self.ora(mode)),
            0x48 => Ok((self.pha(), Flow::Next)),
            0x08 => Ok((self.php(), Flow::Next)),
            0x68 => Ok((self.pla(), Flow::Next)),
            0x28 => Ok((self.plp(), Flow::Next)),
            0x27 | 0x37 | 0x2F | 0x3F | 0x3B | 0x23 | 0x33 => then_next(self.rla(mode)),
            0x26 | 0x2A | 0x2E | 0x36 | 0x3E => then_next(self.rol(mode)),
            0x66 | 0x6A | 0x6E | 0x76 | 0x7E => then_next(self.ror(mode)),
            0x67 | 0x77 | 0x6F | 0x7F | 0x7B | 0x63 | 0x73 => then_next(self.rra(mode)),
            0x40 => Ok((self.rti(), Flow::Jump)),
            0x60 => Ok((self.rts(), Flow::Jump)),
            0x87 | 0x97 | 0x83 | 0x8F => then_next(self.sax(mode)),
            0xEB | 0xE1 | 0xE5 | 0xE9 | 0xED | 0xF1 | 0xF5 | 0xF9 | 0xFD => then_next(
                self.sbc(mode),
            ),
            0x38 => Ok((self.flag(CARRY, true), Flow::Next)),
            0xF8 => Ok((self.flag(DECIMAL_MODE, true), Flow::Next)),
            0x78 => Ok((self.flag(INTERRUPT_DISABLE, true), Flow::Next)),
            0x03 | 0x07 | 0x0F | 0x13 | 0x17 | 0x1B | 0x1F => then_next(self.slo(mode)),
            0x47 | 0x57 | 0x4F | 0x5F | 0x5B | 0x43 | 0x53 => then_next(self.sre(mode)),
            0x81 | 0x85 | 0x8D | 0x91 | 0x95 | 0x99 | 0x9D => then_next(self.store(mode, self.a)),
            0x86 | 0x8E | 0x96 => then_next(self.store(mode, self.x)),
            0x84 | 0x8C | 0x94 => then_next(self.store(mode, self.y)),
            0xAA => Ok((self.load_x(self.a), Flow::Next)),
            0xA8 => Ok((self.load_y(self.a), Flow::Next)),
            0xBA => Ok((self.load_x(self.s), Flow::Next)),
            0x8A => Ok((self.load_a(self.x), Flow::Next)),
            0x9A => Ok((Machine { s: self.x, ..self }, Flow::Next)),
            0x98 => Ok((self.load_a(self.y), Flow::Next)),
            0x00 => Ok((self, Flow::Halt)),
            _ => Err(Fault::UnknownOpcode { code: opcode.code, pc: self.pc.wrapping_sub(1) }),
        }
    }

    /// The row of the opcode table for the byte at `pc`.
    pub open spec fn fetch(self) -> Result<OpCode, Fault> {
        match self.read(self.pc) {
            Err(fault) => Err(fault),
            Ok(code) => match entry(code) {
                None => Err(Fault::UnknownOpcode { code, pc: self.pc }),
                Some(opcode) => Ok(opcode),
            },
        }
    }

    /// The instruction `opcode`, whose opcode byte stands at `pc`, is
    /// executed, and `pc` comes to stand behind it unless the instruction
    /// itself said where to go on.
    pub open spec fn perform(self, opcode: OpCode) -> Result<(Machine, Flow), Fault> {
        match (Machine { pc: self.pc.wrapping_add(1), ..self }).execute(opcode) {
            Err(fault) => Err(fault),
            Ok((after, flow)) => Ok(
                (
                    if flow == Flow::Next {
                        Machine { pc: after.pc.wrapping_add((opcode.len - 1) as u16), ..after }
                    } else {
                        after
                    },
                    flow,
                ),
            ),
        }
    }

    /// One instruction: the opcode at `pc` is fetched, looked up and
    /// performed.
    pub open spec fn step(self) -> Result<(Machine, Flow), Fault> {
        match self.fetch() {
            Err(fault) => Err(fault),
            Ok(opcode) => self.perform(opcode),
        }
    }

    /// The machine after it has run until `BRK`, until a fault or until
    /// `budget` instructions are done, whichever comes first, and how the
    /// run ended. A faulting instruction leaves the machine as it found it.
    pub open spec fn run(self, budget: nat) -> (Machine, Result<RunEnd, Fault>)
        decreases budget,
    {
        if budget == 0 {
            (self, Ok(RunEnd::BudgetSpent))
        } else {
            match self.step() {
                Err(fault) => (self, Err(fault)),
                Ok((after, flow)) => if flow == Flow::Halt {
                    (after, Ok(RunEnd::Break))
                } else {
                    after.run((budget - 1) as nat)
                },
            }
        }
    }

    /// The machine after a program is loaded, the machine is reset if `reset`
    /// is set, and the program has run. The first of the three that fails
    /// ends it and leaves the machine as the ones before made it.
    pub open spec fn load_and_run(self, program: Seq<u8>, reset: bool, base: u16, budget: nat) -> (
        Machine,
        Result<RunEnd, Fault>,
    ) {
        match self.load(program, base) {
            Err(fault) => (self, Err(fault)),
            Ok(loaded) => if reset {
                match loaded.reset() {
                    Err(fault) => (loaded, Err(fault)),
                    Ok(ready) => ready.run(budget),
                }
            } else {
                loaded.run(budget)
            },
        }
    }

    /// The machine after a program is loaded at `base` and has run from
    /// there, with the registers as they were.
    pub open spec fn interpret_without_reset(self, program: Seq<u8>, base: u16, budget: nat) -> (
        Machine,
        Result<RunEnd, Fault>,
    ) {
        match self.load(program, base) {
            Err(fault) => (self, Err(fault)),
            Ok(loaded) => (Machine { pc: base, ..loaded }).run(budget),
        }
    }
}

} // verus!

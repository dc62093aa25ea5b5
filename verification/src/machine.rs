//! The mathematical model of the processor: its registers and the memory it
//! sees, and what reading, writing, the stack, the addressing modes, a reset
//! and a program load do to them.
//!
//! The contracts of [`crate::cpu::CPU`] are stated over this model. What each
//! instruction does to it is in [`instructions`].

use crate::bus::Memory;
use crate::cpu::AddressingMode;
use crate::fault::Fault;
use crate::status::STATUS_RESET;
use vstd::prelude::*;

pub mod instructions;
pub mod laws;

verus! {

/// The stack lives in the page that starts here.
pub const STACK_START: u16 = 0x0100;

pub const STACK_SIZE: u16 = 0x0100;

/// The stack pointer after a reset.
pub const STACK_RESET: u8 = 0xFD;

/// Where the address is kept at which a reset machine starts to execute.
pub const RESET_VECTOR: u16 = 0xFFFC;

/// The state of the processor and of the memory on its bus.
pub struct Machine {
    /// The accumulator.
    pub a: u8,
    pub x: u8,
    pub y: u8,
    /// The stack pointer: the low byte of the next free place of the stack.
    pub s: u8,
    /// The status byte.
    pub p: u8,
    pub pc: u16,
    /// Where a reset starts execution, if not zero.
    pub start_override: u16,
    /// The address of the last write.
    pub last_write_address: u16,
    /// The byte last written.
    pub last_write_value: u8,
    /// The word last written as a whole.
    pub last_write_value_u16: u16,
    pub mem: Memory,
}

/// The word with the low byte `lo` and the high byte `hi`.
pub open spec fn word(lo: u8, hi: u8) -> u16 {
    (hi * 0x100 + lo) as u16
}

pub open spec fn low_byte(w: u16) -> u8 {
    (w % 0x100) as u8
}

pub open spec fn high_byte(w: u16) -> u8 {
    (w / 0x100) as u8
}

/// The address after `addr` in the same page: after the last byte of a page
/// comes its first one.
pub open spec fn next_in_page(addr: u16) -> u16 {
    if addr % 0x100 == 0xFF {
        (addr - 0xFF) as u16
    } else {
        (addr + 1) as u16
    }
}

/// The address of the place of the stack that the stack pointer `s` names.
pub open spec fn stack_address(s: u8) -> u16 {
    (STACK_START + s) as u16
}

/// Where a branch with the operand `offset` at `operand_address` goes: to the
/// instruction after the branch, moved by the offset read as a signed byte.
pub open spec fn branch_target(operand_address: u16, offset: u8) -> u16 {
    if offset > 127 {
        operand_address.wrapping_add(1).wrapping_add(offset as u16).wrapping_sub(0x100)
    } else {
        operand_address.wrapping_add(1).wrapping_add(offset as u16)
    }
}

impl Machine {
    pub open spec fn wf(self) -> bool {
        self.mem.wf()
    }

    /// The byte at `addr`.
    pub open spec fn read(self, addr: u16) -> Result<u8, Fault> {
        self.mem.read(addr)
    }

    /// The little-endian word at `addr` and the address after it.
    pub open spec fn read_u16(self, addr: u16) -> Result<u16, Fault> {
        match self.read(addr) {
            Err(fault) => Err(fault),
            Ok(lo) => match self.read(addr.wrapping_add(1)) {
                Err(fault) => Err(fault),
                Ok(hi) => Ok(word(lo, hi)),
            },
        }
    }

    /// The little-endian word whose low byte is at `addr` and whose high byte
    /// is at the next address of the same page.
    pub open spec fn read_u16_in_page(self, addr: u16) -> Result<u16, Fault> {
        match self.read(addr) {
            Err(fault) => Err(fault),
            Ok(lo) => match self.read(next_in_page(addr)) {
                Err(fault) => Err(fault),
                Ok(hi) => Ok(word(lo, hi)),
            },
        }
    }

    /// The machine after `data` is written at `addr`.
    pub open spec fn write(self, addr: u16, data: u8) -> Result<Machine, Fault> {
        match self.mem.write(addr, data) {
            Err(fault) => Err(fault),
            Ok(mem) => Ok(Machine { mem, last_write_address: addr, last_write_value: data, ..self }),
        }
    }

    /// The machine after the word `data` is written, low byte first, at
    /// `addr` and the address after it.
    pub open spec fn write_u16(self, addr: u16, data: u16) -> Result<Machine, Fault> {
        match self.write(addr, low_byte(data)) {
            Err(fault) => Err(fault),
            Ok(first) => match first.write(addr.wrapping_add(1), high_byte(data)) {
                Err(fault) => Err(fault),
                Ok(second) => Ok(
                    Machine { last_write_address: addr, last_write_value_u16: data, ..second },
                ),
            },
        }
    }

    /// The machine after a byte is pushed: it goes where the stack pointer
    /// points, and the stack pointer then moves down by one, from $00 to $FF.
    pub open spec fn push(self, data: u8) -> Machine {
        Machine {
            s: self.s.wrapping_sub(1),
            mem: Memory { ram: self.mem.ram.update(stack_address(self.s) as int, data), ..self.mem },
            last_write_address: stack_address(self.s),
            last_write_value: data,
            ..self
        }
    }

    /// The machine after a byte is popped, and that byte: the stack pointer
    /// moves up by one, from $FF to $00, and the byte is the one it then
    /// points to.
    pub open spec fn pop(self) -> (Machine, u8) {
        let s = self.s.wrapping_add(1);
        (Machine { s, ..self }, self.mem.ram[stack_address(s) as int])
    }

    /// The machine after a word is pushed: the high byte first, then the low
    /// byte below it.
    pub open spec fn push_u16(self, data: u16) -> Machine {
        Machine { last_write_value_u16: data, ..self.push(high_byte(data)).push(low_byte(data)) }
    }

    /// The machine after a word is popped, and that word: the low byte
    /// first, then the high byte above it.
    pub open spec fn pop_u16(self) -> (Machine, u16) {
        let (first, lo) = self.pop();
        let (second, hi) = first.pop();
        (second, word(lo, hi))
    }

    /// The address that the addressing mode `mode` yields for an operand that
    /// stands at `address`. For the two modes without an address of their
    /// own it is `address` itself.
    pub open spec fn absolute_address(self, mode: AddressingMode, address: u16) -> Result<
        u16,
        Fault,
    > {
        match mode {
            AddressingMode::Absolute => self.read_u16(address),
            AddressingMode::AbsoluteX => match self.read_u16(address) {
                Err(fault) => Err(fault),
                Ok(base) => Ok(base.wrapping_add(self.x as u16)),
            },
            AddressingMode::AbsoluteY => match self.read_u16(address) {
                Err(fault) => Err(fault),
                Ok(base) => Ok(base.wrapping_add(self.y as u16)),
            },
            AddressingMode::Indirect => match self.read_u16(address) {
                Err(fault) => Err(fault),
                Ok(pointer) => self.read_u16_in_page(pointer),
            },
            AddressingMode::IndirectX => match self.read(address) {
                Err(fault) => Err(fault),
                Ok(base) => self.read_u16_in_page(base.wrapping_add(self.x) as u16),
            },
            AddressingMode::IndirectY => match self.read(address) {
                Err(fault) => Err(fault),
                Ok(base) => match self.read_u16_in_page(base as u16) {
                    Err(fault) => Err(fault),
                    Ok(pointer) => Ok(pointer.wrapping_add(self.y as u16)),
                },
            },
            AddressingMode::ZeroPage => match self.read(address) {
                Err(fault) => Err(fault),
                Ok(base) => Ok(base as u16),
            },
            AddressingMode::ZeroPageX => match self.read(address) {
                Err(fault) => Err(fault),
                Ok(base) => Ok(base.wrapping_add(self.x) as u16),
            },
            AddressingMode::ZeroPageY => match self.read(address) {
                Err(fault) => Err(fault),
                Ok(base) => Ok(base.wrapping_add(self.y) as u16),
            },
            AddressingMode::Immediate | AddressingMode::NoneAddressing => Ok(address),
        }
    }

    /// The address of the operand of the instruction whose first operand
    /// byte is at `pc`.
    pub open spec fn operand_address(self, mode: AddressingMode) -> Result<u16, Fault> {
        self.absolute_address(mode, self.pc)
    }

    /// The address of the operand and the byte found there.
    pub open spec fn operand(self, mode: AddressingMode) -> Result<(u16, u8), Fault> {
        match self.operand_address(mode) {
            Err(fault) => Err(fault),
            Ok(address) => match self.read(address) {
                Err(fault) => Err(fault),
                Ok(value) => Ok((address, value)),
            },
        }
    }

    /// The RAM with the page of the stack filled with zeros.
    pub open spec fn cleared_stack(self) -> Seq<u8> {
        Seq::new(
            self.mem.ram.len(),
            |i: int|
                if STACK_START <= i < STACK_START + STACK_SIZE {
                    0u8
                } else {
                    self.mem.ram[i]
                },
        )
    }

    /// The address at which a reset machine starts: the override, if there
    /// is one, else the word at the reset vector.
    pub open spec fn start_address(self) -> Result<u16, Fault> {
        if self.start_override != 0 {
            Ok(self.start_override)
        } else {
            self.read_u16(RESET_VECTOR)
        }
    }

    /// The machine after a reset.
    pub open spec fn reset(self) -> Result<Machine, Fault> {
        match self.start_address() {
            Err(fault) => Err(fault),
            Ok(pc) => Ok(
                Machine {
                    a: 0,
                    x: 0,
                    y: 0,
                    s: STACK_RESET,
                    p: STATUS_RESET,
                    pc,
                    start_override: self.start_override,
                    last_write_address: (STACK_START + STACK_SIZE - 1) as u16,
                    last_write_value: 0,
                    last_write_value_u16: 0,
                    mem: Memory { ram: self.cleared_stack(), ..self.mem },
                },
            ),
        }
    }

    /// The machine after the first `count` bytes of `program` are written to
    /// the addresses from `base` on.
    pub open spec fn loaded(self, program: Seq<u8>, base: u16, count: nat) -> Machine
        decreases count,
    {
        if count == 0 {
            self
        } else {
            let before = self.loaded(program, base, (count - 1) as nat);
            let address = (base + count - 1) as u16;
            Machine {
                mem: Memory {
                    ram: before.mem.ram.update(before.mem.offset(address), program[count - 1]),
                    ..before.mem
                },
                last_write_address: address,
                last_write_value: program[count - 1],
                ..before
            }
        }
    }

    /// The first address from `base` on that takes no write, if a program of
    /// `len` bytes reaches it.
    pub open spec fn load_fault(base: u16, len: nat) -> Option<Fault> {
        if len == 0 {
            None
        } else if base > crate::bus::RAM_MIRRORS_END {
            Memory::write_fault(base)
        } else if base + len > crate::bus::RAM_MIRRORS_END + 1 {
            Memory::write_fault((crate::bus::RAM_MIRRORS_END + 1) as u16)
        } else {
            None
        }
    }

    /// The machine after `program` is written to the addresses from `base`
    /// on and `base` is remembered as the place where a reset starts.
    pub open spec fn load(self, program: Seq<u8>, base: u16) -> Result<Machine, Fault> {
        match Self::load_fault(base, program.len()) {
            Some(fault) => Err(fault),
            None => Ok(
                Machine { start_override: base, ..self.loaded(program, base, program.len()) },
            ),
        }
    }
}

} // verus!

//! The MOS 6502 processor of the machine.
//!
//! The processor owns the bus and reaches memory through it alone. Its
//! registers are plain fields; what its operations do is stated over its
//! view, a [`Machine`].
//!
//! No operation panics. Where a program runs into a part of the machine that
//! is not emulated, the operation returns a [`Fault`] and leaves the
//! processor and the memory as they were before it.

use crate::bus::{Bus, RAM_MIRRORS_END};
use crate::fault::Fault;
use crate::machine::laws::lemma_perform_advances;
use crate::machine::{Machine, RESET_VECTOR, STACK_RESET, STACK_SIZE, STACK_START};
use crate::opcodes::{entry, lemma_entry_shape, lookup, OpCode};
use crate::status::STATUS_RESET;
use vstd::prelude::*;

pub mod flags;
pub mod instructions;

verus! {

/// How an instruction finds the byte it works on.
#[derive(Clone, Copy, Debug, PartialEq, Eq, Hash, Structural)]
pub enum AddressingMode {
    Immediate,
    ZeroPage,
    ZeroPageX,
    ZeroPageY,
    Absolute,
    AbsoluteX,
    AbsoluteY,
    Indirect,
    IndirectX,
    IndirectY,
    NoneAddressing,
}

/// How execution goes on after an instruction.
#[derive(Clone, Copy, Debug, PartialEq, Eq, Structural)]
pub enum Flow {
    /// With the instruction that follows in memory.
    Next,
    /// Where the instruction said: it was a jump, a call, a return or a
    /// branch that was taken.
    Jump,
    /// Not at all: the instruction was `BRK`.
    Halt,
}

/// Why a run came to its end.
#[derive(Clone, Copy, Debug, PartialEq, Eq, Structural)]
pub enum RunEnd {
    /// `BRK` was executed.
    Break,
    /// The instructions that the run was allowed are used up.
    BudgetSpent,
}

/// Where programs are loaded that come without an address of their own.
pub const DEFAULT_PROGRAM_BASE: u16 = 0x0600;

pub struct CPU {
    pub register_a: u8,
    /// The stack pointer. The stack lies between $0100 and $01FF; a push
    /// moves the pointer down, a pull moves it up.
    pub register_s: u8,
    pub register_x: u8,
    pub register_y: u8,
    /// The status byte, with the bits `N V - B D I Z C` from bit 7 down.
    pub status: u8,
    pub program_counter: u16,
    /// Where a reset starts execution; with zero, at the reset vector.
    pub start_override: u16,
    pub last_mem_write_value: u8,
    pub last_mem_write_value_u16: u16,
    pub last_mem_write_address: u16,
    pub bus: Bus,
}

impl View for CPU {
    type V = Machine;

    open spec fn view(&self) -> Machine {
        Machine {
            a: self.register_a,
            x: self.register_x,
            y: self.register_y,
            s: self.register_s,
            p: self.status,
            pc: self.program_counter,
            start_override: self.start_override,
            last_write_address: self.last_mem_write_address,
            last_write_value: self.last_mem_write_value,
            last_write_value_u16: self.last_mem_write_value_u16,
            mem: self.bus@,
        }
    }
}

/// An operation did what `expected` says: it succeeded and left the machine
/// that `expected` holds, or it failed with the fault that `expected` holds
/// and left the machine as it was.
pub open spec fn done(
    before: Machine,
    after: Machine,
    got: Result<(), Fault>,
    expected: Result<Machine, Fault>,
) -> bool {
    match expected {
        Ok(machine) => got is Ok && after == machine,
        Err(fault) => got == Err::<(), Fault>(fault) && after == before,
    }
}

/// As [`done`], for an operation that also says how execution goes on.
pub open spec fn done_with(
    before: Machine,
    after: Machine,
    got: Result<Flow, Fault>,
    expected: Result<(Machine, Flow), Fault>,
) -> bool {
    match expected {
        Ok((machine, flow)) => got == Ok::<Flow, Fault>(flow) && after == machine,
        Err(fault) => got == Err::<Flow, Fault>(fault) && after == before,
    }
}

/// A callback for a run that nobody wants to watch.
fn leave_alone(cpu: &mut CPU, opcode: &OpCode)
    ensures
        *final(cpu) == *old(cpu),
{
}

impl CPU {
    /// The memory of a processor is always well formed.
    pub proof fn lemma_wf(&self)
        ensures
            self@.wf(),
    {
        self.bus.lemma_wf();
    }

    /// A processor on the given bus, with every register zero. It is ready
    /// for `load` or `reset`.
    pub fn new(bus: Bus) -> (cpu: CPU)
        ensures
            cpu@ == (Machine {
                a: 0,
                x: 0,
                y: 0,
                s: 0,
                p: 0,
                pc: 0,
                start_override: 0,
                last_write_address: 0,
                last_write_value: 0,
                last_write_value_u16: 0,
                mem: bus@,
            }),
    {
        CPU {
            register_a: 0,
            register_s: 0,
            register_x: 0,
            register_y: 0,
            status: 0,
            program_counter: 0,
            start_override: 0,
            last_mem_write_address: 0,
            last_mem_write_value: 0,
            last_mem_write_value_u16: 0,
            bus,
        }
    }

    /// Reads the byte at `addr`.
    pub fn mem_read(&self, addr: u16) -> (r: Result<u8, Fault>)
        ensures
            r == self@.read(addr),
    {
        self.bus.mem_read(addr)
    }

    /// Writes `data` at `addr` and notes the write.
    pub fn mem_write(&mut self, addr: u16, data: u8) -> (r: Result<(), Fault>)
        ensures
            done(old(self)@, final(self)@, r, old(self)@.write(addr, data)),
    {
        self.bus.mem_write(addr, data)?;
        self.last_mem_write_address = addr;
        self.last_mem_write_value = data;
        Ok(())
    }

    /// Writes `data` to RAM, which always takes it, and notes the write.
    pub fn write_ram(&mut self, addr: u16, data: u8)
        requires
            addr <= RAM_MIRRORS_END,
        ensures
            old(self)@.write(addr, data) == Ok::<Machine, Fault>(final(self)@),
    {
        match self.mem_write(addr, data) {
            Ok(()) => {},
            Err(_) => vstd::pervasive::unreached(),
        }
    }

    /// Reads the little-endian word at `addr`.
    pub fn mem_read_u16(&self, addr: u16) -> (r: Result<u16, Fault>)
        ensures
            r == self@.read_u16(addr),
    {
        let lo = self.mem_read(addr)?;
        let hi = self.mem_read(addr.wrapping_add(1))?;
        Ok(hi as u16 * 0x100 + lo as u16)
    }

    /// Writes the word `data` at `addr`, low byte first, and notes the write.
    pub fn mem_write_u16(&mut self, addr: u16, data: u16) -> (r: Result<(), Fault>)
        ensures
            done(old(self)@, final(self)@, r, old(self)@.write_u16(addr, data)),
    {
        Bus::check_writable(addr)?;
        Bus::check_writable(addr.wrapping_add(1))?;
        let lo = (data % 0x100) as u8;
        let hi = (data / 0x100) as u8;
        self.write_ram(addr, lo);
        self.write_ram(addr.wrapping_add(1), hi);
        self.last_mem_write_address = addr;
        self.last_mem_write_value_u16 = data;
        Ok(())
    }

    /// Reads the word whose low byte is at `addr` and whose high byte is at
    /// the next address of the same page.
    pub(crate) fn mem_read_u16_in_page(&self, addr: u16) -> (r: Result<u16, Fault>)
        ensures
            r == self@.read_u16_in_page(addr),
    {
        let next = if addr % 0x100 == 0xFF {
            addr - 0xFF
        } else {
            addr + 1
        };
        let lo = self.mem_read(addr)?;
        let hi = self.mem_read(next)?;
        Ok(hi as u16 * 0x100 + lo as u16)
    }

    /// Resolves an addressing mode for an operand that stands at `address`.
    ///
    /// The indexed zero-page modes wrap within the zero page, and so does
    /// the fetch of a pointer from it. The indirect mode of `JMP` takes the
    /// high byte of its target from the page of the low byte, also where the
    /// low byte is the last one of its page. For the two modes that name no
    /// address the operand is the byte at `address` itself.
    pub fn get_absolute_address(&self, mode: &AddressingMode, address: u16) -> (r: Result<
        u16,
        Fault,
    >)
        ensures
            r == self@.absolute_address(*mode, address),
    {
        match mode {
            AddressingMode::Absolute => self.mem_read_u16(address),
            AddressingMode::AbsoluteX => {
                let base_address = self.mem_read_u16(address)?;
                Ok(base_address.wrapping_add(self.register_x as u16))
            },
            AddressingMode::AbsoluteY => {
                let base_address = self.mem_read_u16(address)?;
                Ok(base_address.wrapping_add(self.register_y as u16))
            },
            AddressingMode::Indirect => {
                let indirect_read_address = self.mem_read_u16(address)?;
                self.mem_read_u16_in_page(indirect_read_address)
            },
            AddressingMode::IndirectX => {
                let base_address = self.mem_read(address)?.wrapping_add(self.register_x);
                self.mem_read_u16_in_page(base_address as u16)
            },
            AddressingMode::IndirectY => {
                let base_address = self.mem_read(address)?;
                let indirect_address = self.mem_read_u16_in_page(base_address as u16)?;
                Ok(indirect_address.wrapping_add(self.register_y as u16))
            },
            AddressingMode::ZeroPage => {
                let base_address = self.mem_read(address)?;
                Ok(base_address as u16)
            },
            AddressingMode::ZeroPageX => {
                let base_address = self.mem_read(address)?;
                Ok(base_address.wrapping_add(self.register_x) as u16)
            },
            AddressingMode::ZeroPageY => {
                let base_address = self.mem_read(address)?;
                Ok(base_address.wrapping_add(self.register_y) as u16)
            },
            AddressingMode::Immediate | AddressingMode::NoneAddressing => Ok(address),
        }
    }

    /// The address of the operand of the instruction whose first operand
    /// byte the program counter points at.
    pub(crate) fn get_operand_address(&self, mode: &AddressingMode) -> (r: Result<u16, Fault>)
        ensures
            r == self@.operand_address(*mode),
    {
        self.get_absolute_address(mode, self.program_counter)
    }

    /// The address of the operand and the byte that stands there.
    pub(crate) fn get_operand(&self, mode: &AddressingMode) -> (r: Result<(u16, u8), Fault>)
        ensures
            r == self@.operand(*mode),
    {
        let address = self.get_operand_address(mode)?;
        let value = self.mem_read(address)?;
        Ok((address, value))
    }

    /// Reads a byte of RAM, which always answers.
    pub fn read_ram(&self, addr: u16) -> (value: u8)
        requires
            addr <= RAM_MIRRORS_END,
        ensures
            self@.read(addr) == Ok::<u8, Fault>(value),
    {
        match self.mem_read(addr) {
            Ok(value) => value,
            Err(_) => vstd::pervasive::unreached(),
        }
    }

    /// The byte that stands where the stack pointer `pointer` points.
    pub(crate) fn peek_stack(&self, pointer: u8) -> (value: u8)
        ensures
            value == self@.mem.ram[crate::machine::stack_address(pointer) as int],
    {
        self.read_ram(STACK_START + pointer as u16)
    }

    pub(crate) fn push_stack(&mut self, data: u8)
        ensures
            final(self)@ == old(self)@.push(data),
    {
        self.write_ram(STACK_START + self.register_s as u16, data);
        self.register_s = self.register_s.wrapping_sub(1);
    }

    pub(crate) fn pop_stack(&mut self) -> (value: u8)
        ensures
            (final(self)@, value) == old(self)@.pop(),
    {
        self.register_s = self.register_s.wrapping_add(1);
        self.peek_stack(self.register_s)
    }

    pub(crate) fn push_stack_u16(&mut self, data: u16)
        ensures
            final(self)@ == old(self)@.push_u16(data),
    {
        self.push_stack((data / 0x100) as u8);
        self.push_stack((data % 0x100) as u8);
        self.last_mem_write_value_u16 = data;
    }

    pub(crate) fn pop_stack_u16(&mut self) -> (value: u16)
        ensures
            (final(self)@, value) == old(self)@.pop_u16(),
    {
        let lo = self.pop_stack();
        let hi = self.pop_stack();
        hi as u16 * 0x100 + lo as u16
    }

    /// Writes `program` to the addresses from `program_base_address` on and
    /// makes that address the place where a reset starts execution.
    ///
    /// Only RAM takes a program. Where the program does not fit into the
    /// addresses up to $1FFF, nothing is written and the fault is the one
    /// that the first refused byte would meet.
    pub fn load(&mut self, program: Vec<u8>, program_base_address: u16) -> (r: Result<(), Fault>)
        ensures
            done(old(self)@, final(self)@, r, old(self)@.load(program@, program_base_address)),
    {
        let len = program.len();
        if len > 0 {
            Bus::check_writable(program_base_address)?;
            if len > (RAM_MIRRORS_END - program_base_address) as usize + 1 {
                return Err(Fault::UnimplementedRegion { addr: RAM_MIRRORS_END + 1 });
            }
        }
        let mut i: usize = 0;
        while i < len
            invariant
                i <= len,
                len == program.len(),
                len > 0 ==> program_base_address + len <= RAM_MIRRORS_END + 1,
                self@ == old(self)@.loaded(program@, program_base_address, i as nat),
            decreases len - i,
        {
            self.write_ram(program_base_address + i as u16, program[i]);
            i += 1;
        }
        self.start_override = program_base_address;
        Ok(())
    }

    /// Puts the processor into its state after power-up: A, X and Y zero, the
    /// stack pointer at $FD, the status byte $24, the page of the stack
    /// filled with zeros, and the program counter at the override, if one
    /// is set, else at the address kept in the reset vector $FFFC.
    pub fn reset(&mut self) -> (r: Result<(), Fault>)
        ensures
            done(old(self)@, final(self)@, r, old(self)@.reset()),
    {
        let start = if self.start_override != 0 {
            self.start_override
        } else {
            self.mem_read_u16(RESET_VECTOR)?
        };
        self.register_a = 0;
        self.register_s = STACK_RESET;
        self.register_x = 0;
        self.register_y = 0;
        self.last_mem_write_value_u16 = 0;
        self.status = STATUS_RESET;
        self.program_counter = start;
        let mut i: u16 = STACK_START;
        while i < STACK_START + STACK_SIZE
            invariant
                STACK_START <= i <= STACK_START + STACK_SIZE,
                self@.mem.ram.len() == old(self)@.mem.ram.len(),
                forall|j: int|
                    0 <= j < self@.mem.ram.len() ==> self@.mem.ram[j] == if STACK_START <= j < i {
                        0u8
                    } else {
                        old(self)@.mem.ram[j]
                    },
                i > STACK_START ==> self.last_mem_write_address == i - 1
                    && self.last_mem_write_value == 0,
                self@ == (Machine {
                    mem: self@.mem,
                    last_write_address: self.last_mem_write_address,
                    last_write_value: self.last_mem_write_value,
                    a: 0,
                    x: 0,
                    y: 0,
                    s: STACK_RESET,
                    p: STATUS_RESET,
                    pc: start,
                    last_write_value_u16: 0,
                    ..old(self)@
                }),
                self@.mem.program_rom == old(self)@.mem.program_rom,
            decreases STACK_START + STACK_SIZE - i,
        {
            proof {
                self.lemma_wf();
            }
            self.write_ram(i, 0);
            i += 1;
        }
        proof {
            self.lemma_wf();
            assert(self@.mem.ram =~= old(self)@.cleared_stack());
        }
        Ok(())
    }

    /// Fetches the opcode that the program counter points at and looks it up:
    /// the instruction that `step` executes next.
    pub fn next_opcode(&self) -> (r: Result<OpCode, Fault>)
        ensures
            r == self@.fetch(),
            r is Ok ==> 1 <= r->Ok_0.len <= 3 && entry(r->Ok_0.code) == Some(
                r->Ok_0,
            ),
    {
        let code = self.mem_read(self.program_counter)?;
        proof {
            if entry(code) is Some {
                lemma_entry_shape(code);
            }
        }
        match lookup(code) {
            Some(opcode) => Ok(opcode),
            None => Err(Fault::UnknownOpcode { code, pc: self.program_counter }),
        }
    }

    /// Executes the instruction `opcode`, whose opcode byte stands at the
    /// program counter, and moves the program counter behind it, unless the
    /// instruction itself has set the program counter.
    ///
    /// Fails where the instruction meets a fault. The processor is then as
    /// it was before the call.
    pub fn perform(&mut self, opcode: &OpCode) -> (r: Result<Flow, Fault>)
        requires
            opcode.len >= 1,
        ensures
            done_with(old(self)@, final(self)@, r, old(self)@.perform(*opcode)),
    {
        let opcode_address = self.program_counter;
        self.program_counter = opcode_address.wrapping_add(1);
        match self.execute(opcode) {
            Ok(Flow::Next) => {
                self.program_counter = self.program_counter.wrapping_add((opcode.len - 1) as u16);
                Ok(Flow::Next)
            },
            Ok(flow) => Ok(flow),
            Err(fault) => {
                self.program_counter = opcode_address;
                Err(fault)
            },
        }
    }

    /// Executes one instruction: fetches the opcode at the program counter,
    /// looks it up and performs it.
    ///
    /// Fails on a byte that is no known opcode, and where the instruction
    /// meets a fault. The processor is then as it was before the call.
    pub fn step(&mut self) -> (r: Result<Flow, Fault>)
        ensures
            done_with(old(self)@, final(self)@, r, old(self)@.step()),
    {
        let opcode = self.next_opcode()?;
        self.perform(&opcode)
    }

    /// Executes instructions until one of them is `BRK`, until one meets a
    /// fault, or until `budget` instructions are done, and calls `callback`
    /// with the processor and the opcode before each of them.
    fn drive<F>(&mut self, budget: u64, callback: F) -> (r: Result<RunEnd, Fault>) where
        F: FnMut(&mut CPU, &OpCode),

        requires
            forall|cpu: &mut CPU, opcode: &OpCode|
                entry(opcode.code) == Some(*opcode) ==> #[trigger] call_requires(
                    callback,
                    (cpu, opcode),
                ),
        ensures
            (forall|cpu: &mut CPU, opcode: &OpCode| #[trigger]
                call_ensures(callback, (cpu, opcode), ()) ==> *final(cpu) == *cpu) ==> (
                final(self)@,
                r,
            ) == old(self)@.run(budget as nat),
            r == Ok::<RunEnd, Fault>(RunEnd::Break) ==> exists|seen: Machine, opcode: OpCode|
                #![trigger seen.perform(opcode)]
                opcode.code == 0x00 && entry(opcode.code) == Some(opcode)
                    && seen.perform(opcode) == Ok::<(Machine, Flow), Fault>(
                    (final(self)@, Flow::Halt),
                ),
            r is Err ==> final(self)@.fetch() == Err::<OpCode, Fault>(r->Err_0) || exists|
                opcode: OpCode,
            |
                #![trigger final(self)@.perform(opcode)]
                entry(opcode.code) == Some(opcode) && final(self)@.perform(opcode)
                    == Err::<(Machine, Flow), Fault>(r->Err_0),
    {
        let mut watcher = callback;
        let mut left: u64 = budget;
        while left > 0
            invariant
                watcher == callback,
                forall|cpu: &mut CPU, opcode: &OpCode|
                    entry(opcode.code) == Some(*opcode)
                        ==> #[trigger] call_requires(callback, (cpu, opcode)),
                (forall|cpu: &mut CPU, opcode: &OpCode| #[trigger]
                    call_ensures(callback, (cpu, opcode), ()) ==> *final(cpu) == *cpu)
                    ==> self@.run(left as nat) == old(self)@.run(budget as nat),
            decreases left,
        {
            let opcode = self.next_opcode()?;
            watcher(self, &opcode);
            let ghost seen = self@;
            match self.perform(&opcode) {
                Err(fault) => {
                    return Err(fault);
                },
                Ok(Flow::Halt) => {
                    proof {
                        lemma_perform_advances(seen, opcode.code);
                    }
                    return Ok(RunEnd::Break);
                },
                Ok(_) => {},
            }
            left -= 1;
        }
        Ok(RunEnd::BudgetSpent)
    }

    /// Executes instructions until one of them is `BRK` or meets a fault, and
    /// calls `callback` with the processor and the opcode before each of
    /// them, `BRK` too.
    ///
    /// The callback sees the processor as the instructions before have left
    /// it, and may change it: what it leaves is what the instruction works
    /// on. The instruction is the one that was fetched before the call.
    ///
    /// With a callback that changes nothing the run is the one that the
    /// model of the machine describes. With any other, what the run comes
    /// to depends on the callback; what holds in any case is that a run
    /// which ends at a `BRK` has the program counter behind it, and that a
    /// fault is the one of the instruction at which the processor stands
    /// when the run returns.
    ///
    /// A program that meets neither `BRK` nor a fault is stopped when
    /// `u64::MAX` instructions are done.
    pub fn run<F>(&mut self, callback: F) -> (r: Result<RunEnd, Fault>) where
        F: FnMut(&mut CPU, &OpCode),

        requires
            forall|cpu: &mut CPU, opcode: &OpCode|
                entry(opcode.code) == Some(*opcode) ==> #[trigger] call_requires(
                    callback,
                    (cpu, opcode),
                ),
        ensures
            (forall|cpu: &mut CPU, opcode: &OpCode| #[trigger]
                call_ensures(callback, (cpu, opcode), ()) ==> *final(cpu) == *cpu) ==> (
                final(self)@,
                r,
            ) == old(self)@.run(u64::MAX as nat),
            r == Ok::<RunEnd, Fault>(RunEnd::Break) ==> exists|seen: Machine, opcode: OpCode|
                #![trigger seen.perform(opcode)]
                opcode.code == 0x00 && entry(opcode.code) == Some(opcode)
                    && seen.perform(opcode) == Ok::<(Machine, Flow), Fault>(
                    (final(self)@, Flow::Halt),
                ),
            r is Err ==> final(self)@.fetch() == Err::<OpCode, Fault>(r->Err_0) || exists|
                opcode: OpCode,
            |
                #![trigger final(self)@.perform(opcode)]
                entry(opcode.code) == Some(opcode) && final(self)@.perform(opcode)
                    == Err::<(Machine, Flow), Fault>(r->Err_0),
    {
        self.drive(u64::MAX, callback)
    }

    /// Executes instructions until one of them is `BRK`, until one meets a
    /// fault, or until `budget` instructions are done.
    ///
    /// After `BRK` the program counter stands behind it. After a fault the
    /// processor is as the last instruction that was executed left it.
    pub fn run_for(&mut self, budget: u64) -> (r: Result<RunEnd, Fault>)
        ensures
            (final(self)@, r) == old(self)@.run(budget as nat),
    {
        self.drive(budget, leave_alone)
    }

    /// Loads a program, resets the processor if `reset` is set, and runs.
    /// The first of the three that fails ends the call, and leaves the
    /// processor as the ones before it made it.
    pub fn load_and_run(&mut self, program: Vec<u8>, reset: bool, program_base_address: u16) -> (r:
        Result<RunEnd, Fault>)
        ensures
            (final(self)@, r) == old(self)@.load_and_run(
                program@,
                reset,
                program_base_address,
                u64::MAX as nat,
            ),
    {
        self.load(program, program_base_address)?;
        if reset {
            self.reset()?;
        }
        self.run(leave_alone)
    }

    /// Loads a program at $0600, resets the processor and runs.
    pub fn interpret(&mut self, program: Vec<u8>) -> (r: Result<RunEnd, Fault>)
        ensures
            (final(self)@, r) == old(self)@.load_and_run(
                program@,
                true,
                DEFAULT_PROGRAM_BASE,
                u64::MAX as nat,
            ),
    {
        self.load_and_run(program, true, DEFAULT_PROGRAM_BASE)
    }

    /// Loads a program at the given address and runs it from there with the
    /// registers as they are.
    pub fn interpret_without_reset(&mut self, program: Vec<u8>, program_base_address: u16) -> (r:
        Result<RunEnd, Fault>)
        ensures
            (final(self)@, r) == old(self)@.interpret_without_reset(
                program@,
                program_base_address,
                u64::MAX as nat,
            ),
    {
        self.load(program, program_base_address)?;
        self.program_counter = program_base_address;
        self.run(leave_alone)
    }
}

} // verus!

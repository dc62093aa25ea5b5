//! What holds of the machine whatever state it is in.

use crate::cpu::{AddressingMode, Flow, RunEnd};
use crate::fault::Fault;
use crate::machine::{
    branch_target, next_in_page, stack_address, word, Machine, STACK_RESET, STACK_SIZE,
    STACK_START,
};
use crate::opcodes::{entry, lemma_entry_brk, lemma_entry_shape};
use crate::status::{pulled_status, pushed_status, with_nz, ALWAYS_ONE, BREAK, STATUS_RESET};
use vstd::prelude::*;

verus! {

/// Whether the instruction with this opcode byte is one that assigns the
/// program counter: a branch, `JMP`, `JSR`, `RTS` or `RTI`.
pub open spec fn transfers_control(code: u8) -> bool {
    ||| code == 0x10
    ||| code == 0x30
    ||| code == 0x50
    ||| code == 0x70
    ||| code == 0x90
    ||| code == 0xB0
    ||| code == 0xD0
    ||| code == 0xF0
    ||| code == 0x4C
    ||| code == 0x6C
    ||| code == 0x20
    ||| code == 0x60
    ||| code == 0x40
}

/// An instruction that does not say where to go on leaves the program
/// counter alone while it executes.
#[verifier::rlimit(50)]
pub proof fn lemma_execute_keeps_pc(machine: Machine, code: u8)
    requires
        entry(code) is Some,
        machine.execute(entry(code)->Some_0) is Ok,
    ensures
        machine.execute(entry(code)->Some_0)->Ok_0.1 != Flow::Jump ==> machine.execute(
            entry(code)->Some_0,
        )->Ok_0.0.pc == machine.pc,
        machine.execute(entry(code)->Some_0)->Ok_0.1 == Flow::Jump ==> transfers_control(code),
        machine.execute(entry(code)->Some_0)->Ok_0.1 == Flow::Halt <==> code == 0x00,
{
    reveal(Machine::execute);
    lemma_entry_shape(code);
}

/// After an instruction the program counter stands behind it, moved by just
/// the length of the instruction, unless the instruction was a branch, a
/// jump, a call or a return and has itself said where to go on. `BRK` ends
/// the run with the program counter behind it.
pub proof fn lemma_perform_advances(machine: Machine, code: u8)
    requires
        entry(code) is Some,
        machine.perform(entry(code)->Some_0) is Ok,
    ensures
        machine.perform(entry(code)->Some_0)->Ok_0.1 != Flow::Jump ==> machine.perform(
            entry(code)->Some_0,
        )->Ok_0.0.pc == machine.pc.wrapping_add(entry(code)->Some_0.len as u16),
        machine.perform(entry(code)->Some_0)->Ok_0.1 == Flow::Jump ==> transfers_control(code),
        machine.perform(entry(code)->Some_0)->Ok_0.1 == Flow::Halt <==> code == 0x00,
{
    let fetched = Machine { pc: machine.pc.wrapping_add(1), ..machine };
    lemma_entry_shape(code);
    lemma_entry_brk();
    lemma_execute_keeps_pc(fetched, code);
}

/// The same of a step, which fetches the instruction that it performs.
pub proof fn lemma_step_advances(machine: Machine)
    requires
        machine.step() is Ok,
    ensures
        machine.fetch() is Ok,
        machine.step()->Ok_0.1 != Flow::Jump ==> machine.step()->Ok_0.0.pc
            == machine.pc.wrapping_add(machine.fetch()->Ok_0.len as u16),
        machine.step()->Ok_0.1 == Flow::Jump ==> transfers_control(machine.fetch()->Ok_0.code),
        machine.step()->Ok_0.1 == Flow::Halt <==> machine.fetch()->Ok_0.code == 0x00,
{
    lemma_entry_shape(machine.read(machine.pc)->Ok_0);
    lemma_perform_advances(machine, machine.read(machine.pc)->Ok_0);
}

/// A branch that is taken goes to the instruction behind it, moved by its
/// operand read as a signed byte: forward for up to $7F, back for $80 and
/// more.
pub proof fn lemma_branch_target(operand_address: u16, offset: u8)
    ensures
        offset < 0x80 ==> branch_target(operand_address, offset) as int == (operand_address + 1
            + offset) % 0x10000,
        offset >= 0x80 ==> branch_target(operand_address, offset) as int == (operand_address + 1
            + offset - 0x100) % 0x10000,
{
}

/// After a reset A, X and Y are zero, the stack pointer is $FD, the status
/// byte is $24, and every byte from $0100 to $01FF reads as zero.
pub proof fn lemma_reset(machine: Machine, addr: u16)
    requires
        machine.wf(),
        machine.reset() is Ok,
        STACK_START <= addr < STACK_START + STACK_SIZE,
    ensures
        machine.reset()->Ok_0.a == 0,
        machine.reset()->Ok_0.x == 0,
        machine.reset()->Ok_0.y == 0,
        machine.reset()->Ok_0.s == STACK_RESET,
        machine.reset()->Ok_0.p == STATUS_RESET,
        machine.reset()->Ok_0.read(addr) == Ok::<u8, Fault>(0u8),
        machine.reset()->Ok_0.wf(),
{
}

/// A byte that is pushed and popped comes back, and the stack pointer is
/// where it was before.
pub proof fn lemma_push_pop(machine: Machine, data: u8)
    requires
        machine.wf(),
    ensures
        machine.push(data).pop().1 == data,
        machine.push(data).pop().0.s == machine.s,
        machine.push(data).pop().0.mem == machine.push(data).mem,
        machine.push(data).wf(),
{
}

/// A word that is pushed and popped comes back, and the stack pointer is
/// where it was before.
pub proof fn lemma_push_pop_u16(machine: Machine, data: u16)
    requires
        machine.wf(),
    ensures
        machine.push_u16(data).pop_u16().1 == data,
        machine.push_u16(data).pop_u16().0.s == machine.s,
        machine.push_u16(data).wf(),
{
}

/// `PHA` and then `PLA` leave the accumulator and the stack pointer as they
/// were; Z and N follow the accumulator.
pub proof fn lemma_pha_pla(machine: Machine)
    requires
        machine.wf(),
    ensures
        machine.pha().pla().a == machine.a,
        machine.pha().pla().s == machine.s,
        machine.pha().pla().p == with_nz(machine.p, machine.a),
{
}

/// `PHP` and then `PLP` leave the stack pointer as it was, and the status
/// byte but for B, which is cleared, and bit 5, which is set. The byte on
/// the stack has both of them set.
pub proof fn lemma_php_plp(machine: Machine)
    requires
        machine.wf(),
    ensures
        machine.php().plp().s == machine.s,
        machine.php().plp().p == pulled_status(pushed_status(machine.p)),
        machine.php().plp().p & !(BREAK | ALWAYS_ONE) == machine.p & !(BREAK | ALWAYS_ONE),
        machine.php().plp().p & BREAK == 0,
        machine.php().plp().p & ALWAYS_ONE != 0,
        machine.php().mem.ram[stack_address(machine.s) as int] == pushed_status(machine.p),
{
    crate::status::lemma_status_round_trip(machine.p);
}

/// A call and the return from it: `RTS` after `JSR` goes on behind the three
/// bytes of the `JSR`, with the stack pointer as it was before the call.
pub proof fn lemma_jsr_rts(machine: Machine, mode: AddressingMode)
    requires
        machine.wf(),
        machine.jsr(mode) is Ok,
    ensures
        machine.jsr(mode)->Ok_0.rts().pc == machine.pc.wrapping_add(2),
        machine.jsr(mode)->Ok_0.rts().s == machine.s,
{
    lemma_push_pop_u16(machine, machine.pc.wrapping_add(1));
}

/// The indirect mode of `JMP` takes both bytes of its target from one page:
/// for a pointer that ends in $FF the high byte comes from the start of the
/// page of the pointer, not from the page behind it.
pub proof fn lemma_indirect_stays_in_page(machine: Machine, address: u16, pointer: u16)
    requires
        machine.read_u16(address) == Ok::<u16, Fault>(pointer),
        pointer % 0x100 == 0xFF,
        machine.read(pointer) is Ok,
        machine.read((pointer - 0xFF) as u16) is Ok,
    ensures
        machine.absolute_address(AddressingMode::Indirect, address) == Ok::<u16, Fault>(
            word(machine.read(pointer)->Ok_0, machine.read((pointer - 0xFF) as u16)->Ok_0),
        ),
{
}

/// Away from the end of a page the indirect mode of `JMP` reads its target
/// from the pointer and the address behind it.
pub proof fn lemma_indirect_within_page(machine: Machine, address: u16, pointer: u16)
    requires
        machine.read_u16(address) == Ok::<u16, Fault>(pointer),
        pointer % 0x100 != 0xFF,
    ensures
        machine.absolute_address(AddressingMode::Indirect, address) == machine.read_u16(pointer),
{
}

/// To add bytes with wrap-around is to add them modulo 256.
pub proof fn lemma_wrapping_byte(a: u8, b: u8)
    ensures
        a.wrapping_add(b) as int == (a + b) % 0x100,
{
}

/// To add a byte to a word with wrap-around is to add them modulo 65536.
pub proof fn lemma_wrapping_word(a: u16, b: u8)
    ensures
        a.wrapping_add(b as u16) as int == (a + b) % 0x10000,
{
}

/// The indexed zero-page modes stay in the zero page: the index is added
/// modulo 256.
pub proof fn lemma_zero_page_indexing_wraps(machine: Machine, address: u16, base: u8)
    requires
        machine.read(address) == Ok::<u8, Fault>(base),
    ensures
        machine.absolute_address(AddressingMode::ZeroPage, address) == Ok::<u16, Fault>(base as u16),
        machine.absolute_address(AddressingMode::ZeroPageX, address) == Ok::<u16, Fault>(
            ((base + machine.x) % 0x100) as u16,
        ),
        machine.absolute_address(AddressingMode::ZeroPageY, address) == Ok::<u16, Fault>(
            ((base + machine.y) % 0x100) as u16,
        ),
{
    lemma_wrapping_byte(base, machine.x);
    lemma_wrapping_byte(base, machine.y);
}

/// A pointer in the zero page is read from there, byte by byte: the byte
/// behind $FF is the one at $00.
pub proof fn lemma_pointer_in_zero_page(machine: Machine, pointer: u8)
    requires
        machine.wf(),
    ensures
        pointer.wrapping_add(1) as int == (pointer + 1) % 0x100,
        machine.read_u16_in_page(pointer as u16) == Ok::<u16, Fault>(
            word(machine.mem.ram[pointer as int], machine.mem.ram[pointer.wrapping_add(1) as int]),
        ),
{
    let low = pointer as u16;
    let high = next_in_page(low);
    assert(high == pointer.wrapping_add(1));
    assert(machine.read(low) == Ok::<u8, Fault>(machine.mem.ram[pointer as int]));
    assert(machine.read(high) == Ok::<u8, Fault>(machine.mem.ram[high as int]));
}

/// The mode that indexes a pointer by X moves the pointer within the zero
/// page, modulo 256, and fetches both of its bytes from there.
pub proof fn lemma_indirect_x_wraps(machine: Machine, address: u16, base: u8)
    requires
        machine.wf(),
        machine.read(address) == Ok::<u8, Fault>(base),
    ensures
        machine.absolute_address(AddressingMode::IndirectX, address) == Ok::<u16, Fault>(
            word(
                machine.mem.ram[base.wrapping_add(machine.x) as int],
                machine.mem.ram[base.wrapping_add(machine.x).wrapping_add(1) as int],
            ),
        ),
{
    lemma_pointer_in_zero_page(machine, base.wrapping_add(machine.x));
}

/// The mode that indexes by Y fetches both bytes of its pointer from the
/// zero page and moves the address that the pointer holds, modulo 65536.
pub proof fn lemma_indirect_y_wraps(machine: Machine, address: u16, base: u8)
    requires
        machine.wf(),
        machine.read(address) == Ok::<u8, Fault>(base),
    ensures
        machine.absolute_address(AddressingMode::IndirectY, address) == Ok::<u16, Fault>(
            word(
                machine.mem.ram[base as int],
                machine.mem.ram[base.wrapping_add(1) as int],
            ).wrapping_add(machine.y as u16),
        ),
{
    lemma_pointer_in_zero_page(machine, base);
}

/// The absolute modes add their index modulo 65536.
pub proof fn lemma_absolute_indexing_wraps(machine: Machine, address: u16, base: u16)
    requires
        machine.read_u16(address) == Ok::<u16, Fault>(base),
    ensures
        machine.absolute_address(AddressingMode::Absolute, address) == Ok::<u16, Fault>(base),
        machine.absolute_address(AddressingMode::AbsoluteX, address) == Ok::<u16, Fault>(
            ((base + machine.x) % 0x10000) as u16,
        ),
        machine.absolute_address(AddressingMode::AbsoluteY, address) == Ok::<u16, Fault>(
            ((base + machine.y) % 0x10000) as u16,
        ),
{
    lemma_wrapping_word(base, machine.x);
    lemma_wrapping_word(base, machine.y);
}

/// A run that starts at a `BRK` ends at once, with the program counter
/// behind the `BRK` and all else as it was.
pub proof fn lemma_run_ends_at_brk(machine: Machine, budget: nat)
    requires
        budget > 0,
        machine.read(machine.pc) == Ok::<u8, Fault>(0x00u8),
    ensures
        machine.run(budget) == (
            Machine { pc: machine.pc.wrapping_add(1), ..machine },
            Ok::<RunEnd, Fault>(RunEnd::Break),
        ),
{
    reveal(Machine::execute);
    lemma_entry_brk();
}

/// A run with no budget does nothing.
pub proof fn lemma_run_without_budget(machine: Machine)
    ensures
        machine.run(0) == (machine, Ok::<RunEnd, Fault>(RunEnd::BudgetSpent)),
{
}

/// A run can be cut in two: to run for `first + second` instructions is to
/// run for `first` and, if the budget was what ended that, to run on for
/// `second`.
pub proof fn lemma_run_splits(machine: Machine, first: nat, second: nat)
    ensures
        machine.run(first + second) == if machine.run(first).1 == Ok::<RunEnd, Fault>(
            RunEnd::BudgetSpent,
        ) {
            machine.run(first).0.run(second)
        } else {
            machine.run(first)
        },
    decreases first,
{
    if first > 0 {
        match machine.step() {
            Err(_) => {},
            Ok((after, flow)) => {
                if flow != Flow::Halt {
                    lemma_run_splits(after, (first - 1) as nat, second);
                    assert(machine.run(first + second) == after.run((first + second - 1) as nat));
                }
            },
        }
    } else {
        assert(first + second == second);
    }
}

/// Loading writes to RAM alone and keeps its size.
proof fn lemma_loaded_wf(machine: Machine, program: Seq<u8>, base: u16, count: nat)
    requires
        machine.wf(),
        count <= program.len(),
        base + program.len() <= 0x2000,
    ensures
        machine.loaded(program, base, count).wf(),
        machine.loaded(program, base, count).mem.program_rom == machine.mem.program_rom,
    decreases count,
{
    if count > 0 {
        lemma_loaded_wf(machine, program, base, (count - 1) as nat);
    }
}

/// While a program of at most 2 KiB is loaded, byte after byte, the bytes
/// that are loaded already stay what they are.
proof fn lemma_loaded(machine: Machine, program: Seq<u8>, base: u16, count: nat, i: int)
    requires
        machine.wf(),
        count <= program.len() <= 0x0800,
        base + program.len() <= 0x2000,
        0 <= i < count,
    ensures
        machine.loaded(program, base, count).mem.ram[(base + i) % 0x0800] == program[i],
    decreases count,
{
    let before = machine.loaded(program, base, (count - 1) as nat);
    lemma_loaded_wf(machine, program, base, (count - 1) as nat);
    let address = (base + count - 1) as u16;
    assert(before.mem.offset(address) == (base + count - 1) % 0x0800);
    if i < count - 1 {
        lemma_loaded(machine, program, base, (count - 1) as nat, i);
        assert((base + i) % 0x0800 != (base + count - 1) % 0x0800);
    }
}

/// A program of at most 2 KiB that has been loaded is read back, byte for
/// byte, from the addresses it was loaded to.
pub proof fn lemma_load_reads_back(machine: Machine, program: Seq<u8>, base: u16, i: int)
    requires
        machine.wf(),
        machine.load(program, base) is Ok,
        program.len() <= 0x0800,
        0 <= i < program.len(),
    ensures
        machine.load(program, base)->Ok_0.read((base + i) as u16) == Ok::<u8, Fault>(program[i]),
        machine.load(program, base)->Ok_0.start_override == base,
{
    lemma_loaded_wf(machine, program, base, program.len());
    lemma_loaded(machine, program, base, program.len(), i);
}

} // verus!

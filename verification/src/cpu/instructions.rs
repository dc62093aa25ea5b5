//! The instructions of the processor.
//!
//! Each one is entered with the program counter at its first operand byte.
//! One that meets a fault has changed nothing when it returns.

use crate::cpu::{done, done_with, AddressingMode, Flow, CPU};
use crate::fault::Fault;
use crate::machine::Machine;
use crate::opcodes::OpCode;
use crate::status::{
    flag_set, lemma_flag_written, ALWAYS_ONE, BREAK, CARRY, DECIMAL_MODE, INTERRUPT_DISABLE,
    NEGATIVE, OVERFLOW, ZERO,
};
use vstd::prelude::*;

verus! {

impl CPU {
    pub(crate) fn adc(&mut self, mode: &AddressingMode) -> (r: Result<(), Fault>)
        ensures
            done(old(self)@, final(self)@, r, old(self)@.adc(*mode)),
    {
        let (_, value) = self.get_operand(mode)?;
        let carry = self.carry();
        self.add_to_register_a_with_carry(value, carry);
        Ok(())
    }

    pub(crate) fn anc(&mut self, mode: &AddressingMode) -> (r: Result<(), Fault>)
        ensures
            done(old(self)@, final(self)@, r, old(self)@.anc(*mode)),
    {
        let (_, value) = self.get_operand(mode)?;
        let result = self.register_a & value;
        self.register_a = result;
        self.set_neg_and_zero_flag(result);
        self.put_carry(result >= 0x80);
        Ok(())
    }

    pub(crate) fn and(&mut self, mode: &AddressingMode) -> (r: Result<(), Fault>)
        ensures
            done(old(self)@, final(self)@, r, old(self)@.and(*mode)),
    {
        let (_, value) = self.get_operand(mode)?;
        let result = self.register_a & value;
        self.register_a = result;
        self.set_neg_and_zero_flag(result);
        Ok(())
    }

    pub(crate) fn asl(&mut self, mode: &AddressingMode) -> (r: Result<(), Fault>)
        ensures
            done(old(self)@, final(self)@, r, old(self)@.asl(*mode)),
    {
        if *mode == AddressingMode::NoneAddressing {
            let value = self.register_a;
            let result = self.shift_left_and_set_carry(value);
            self.register_a = result;
            self.set_neg_and_zero_flag(result);
        } else {
            let (address, value) = self.get_operand(mode)?;
            self.mem_write(address, value << 1)?;
            let result = self.shift_left_and_set_carry(value);
            self.set_neg_and_zero_flag(result);
        }
        Ok(())
    }

    /// Moves the program counter by the operand, a signed byte, where
    /// `branch` is set.
    pub(crate) fn branch(&mut self, mode: &AddressingMode, branch: bool) -> (r: Result<Flow, Fault>)
        ensures
            done_with(old(self)@, final(self)@, r, old(self)@.branch(*mode, branch)),
    {
        if branch {
            let (_, value) = self.get_operand(mode)?;
            let target = self.program_counter.wrapping_add(1).wrapping_add(value as u16);
            if value > 127 {
                self.program_counter = target.wrapping_sub(0x100);
            } else {
                self.program_counter = target;
            }
            Ok(Flow::Jump)
        } else {
            Ok(Flow::Next)
        }
    }

    pub(crate) fn bcc(&mut self, mode: &AddressingMode) -> (r: Result<Flow, Fault>)
        ensures
            done_with(
                old(self)@,
                final(self)@,
                r,
                old(self)@.branch(*mode, !flag_set(old(self).status, CARRY)),
            ),
    {
        self.branch(mode, !self.is_carry_flag_set())
    }

    pub(crate) fn bcs(&mut self, mode: &AddressingMode) -> (r: Result<Flow, Fault>)
        ensures
            done_with(
                old(self)@,
                final(self)@,
                r,
                old(self)@.branch(*mode, flag_set(old(self).status, CARRY)),
            ),
    {
        self.branch(mode, self.is_carry_flag_set())
    }

    pub(crate) fn bit(&mut self, mode: &AddressingMode) -> (r: Result<(), Fault>)
        ensures
            done(old(self)@, final(self)@, r, old(self)@.bit(*mode)),
    {
        let (_, value) = self.get_operand(mode)?;
        if self.register_a & value == 0 {
            self.set_zero_flag();
        } else {
            self.clear_zero_flag();
        }
        self.status = self.status & 0b0011_1111;
        self.status = self.status | (value & 0b1100_0000);
        Ok(())
    }

    pub(crate) fn beq(&mut self, mode: &AddressingMode) -> (r: Result<Flow, Fault>)
        ensures
            done_with(
                old(self)@,
                final(self)@,
                r,
                old(self)@.branch(*mode, flag_set(old(self).status, ZERO)),
            ),
    {
        self.branch(mode, self.is_zero_flag_set())
    }

    pub(crate) fn bmi(&mut self, mode: &AddressingMode) -> (r: Result<Flow, Fault>)
        ensures
            done_with(
                old(self)@,
                final(self)@,
                r,
                old(self)@.branch(*mode, flag_set(old(self).status, NEGATIVE)),
            ),
    {
        self.branch(mode, self.is_neg_flag_set())
    }

    pub(crate) fn bne(&mut self, mode: &AddressingMode) -> (r: Result<Flow, Fault>)
        ensures
            done_with(
                old(self)@,
                final(self)@,
                r,
                old(self)@.branch(*mode, !flag_set(old(self).status, ZERO)),
            ),
    {
        self.branch(mode, !self.is_zero_flag_set())
    }

    pub(crate) fn bpl(&mut self, mode: &AddressingMode) -> (r: Result<Flow, Fault>)
        ensures
            done_with(
                old(self)@,
                final(self)@,
                r,
                old(self)@.branch(*mode, !flag_set(old(self).status, NEGATIVE)),
            ),
    {
        self.branch(mode, !self.is_neg_flag_set())
    }

    pub(crate) fn bvc(&mut self, mode: &AddressingMode) -> (r: Result<Flow, Fault>)
        ensures
            done_with(
                old(self)@,
                final(self)@,
                r,
                old(self)@.branch(*mode, !flag_set(old(self).status, OVERFLOW)),
            ),
    {
        self.branch(mode, !self.is_overflow_flag_set())
    }

    pub(crate) fn bvs(&mut self, mode: &AddressingMode) -> (r: Result<Flow, Fault>)
        ensures
            done_with(
                old(self)@,
                final(self)@,
                r,
                old(self)@.branch(*mode, flag_set(old(self).status, OVERFLOW)),
            ),
    {
        self.branch(mode, self.is_overflow_flag_set())
    }

    pub(crate) fn clc(&mut self)
        ensures
            final(self)@ == old(self)@.flag(CARRY, false),
    {
        self.clear_carry();
    }

    pub(crate) fn cld(&mut self)
        ensures
            final(self)@ == old(self)@.flag(DECIMAL_MODE, false),
    {
        self.clear_decimal_mode_flag();
    }

    pub(crate) fn cli(&mut self)
        ensures
            final(self)@ == old(self)@.flag(INTERRUPT_DISABLE, false),
    {
        self.clear_interrupt_disable_flag();
    }

    pub(crate) fn clv(&mut self)
        ensures
            final(self)@ == old(self)@.flag(OVERFLOW, false),
    {
        self.clear_overflow_flag();
    }

    pub(crate) fn cmp(&mut self, mode: &AddressingMode) -> (r: Result<(), Fault>)
        ensures
            done(old(self)@, final(self)@, r, old(self)@.compare_with(*mode, old(self).register_a)),
    {
        let (_, value) = self.get_operand(mode)?;
        self.compare_and_set_flags(self.register_a, value);
        Ok(())
    }

    pub(crate) fn cpx(&mut self, mode: &AddressingMode) -> (r: Result<(), Fault>)
        ensures
            done(old(self)@, final(self)@, r, old(self)@.compare_with(*mode, old(self).register_x)),
    {
        let (_, value) = self.get_operand(mode)?;
        self.compare_and_set_flags(self.register_x, value);
        Ok(())
    }

    pub(crate) fn cpy(&mut self, mode: &AddressingMode) -> (r: Result<(), Fault>)
        ensures
            done(old(self)@, final(self)@, r, old(self)@.compare_with(*mode, old(self).register_y)),
    {
        let (_, value) = self.get_operand(mode)?;
        self.compare_and_set_flags(self.register_y, value);
        Ok(())
    }

    pub(crate) fn dcp(&mut self, mode: &AddressingMode) -> (r: Result<(), Fault>)
        ensures
            done(old(self)@, final(self)@, r, old(self)@.dcp(*mode)),
    {
        let (address, value) = self.get_operand(mode)?;
        let result = value.wrapping_sub(1);
        self.mem_write(address, result)?;
        self.compare_and_set_flags(self.register_a, result);
        Ok(())
    }

    pub(crate) fn dec(&mut self, mode: &AddressingMode) -> (r: Result<(), Fault>)
        ensures
            done(old(self)@, final(self)@, r, old(self)@.dec(*mode)),
    {
        let (address, value) = self.get_operand(mode)?;
        let result = value.wrapping_sub(1);
        self.mem_write(address, result)?;
        self.set_neg_and_zero_flag(result);
        Ok(())
    }

    pub(crate) fn dex(&mut self)
        ensures
            final(self)@ == old(self)@.load_x(old(self).register_x.wrapping_sub(1)),
    {
        self.register_x = self.register_x.wrapping_sub(1);
        self.set_neg_and_zero_flag(self.register_x);
    }

    pub(crate) fn dey(&mut self)
        ensures
            final(self)@ == old(self)@.load_y(old(self).register_y.wrapping_sub(1)),
    {
        self.register_y = self.register_y.wrapping_sub(1);
        self.set_neg_and_zero_flag(self.register_y);
    }

    pub(crate) fn eor(&mut self, mode: &AddressingMode) -> (r: Result<(), Fault>)
        ensures
            done(old(self)@, final(self)@, r, old(self)@.eor(*mode)),
    {
        let (_, value) = self.get_operand(mode)?;
        self.register_a = value ^ self.register_a;
        self.set_neg_and_zero_flag(self.register_a);
        Ok(())
    }

    pub(crate) fn inc(&mut self, mode: &AddressingMode) -> (r: Result<(), Fault>)
        ensures
            done(old(self)@, final(self)@, r, old(self)@.inc(*mode)),
    {
        let (address, value) = self.get_operand(mode)?;
        let result = value.wrapping_add(1);
        self.mem_write(address, result)?;
        self.set_neg_and_zero_flag(result);
        Ok(())
    }

    pub(crate) fn inx(&mut self)
        ensures
            final(self)@ == old(self)@.load_x(old(self).register_x.wrapping_add(1)),
    {
        self.register_x = self.register_x.wrapping_add(1);
        self.set_neg_and_zero_flag(self.register_x);
    }

    pub(crate) fn iny(&mut self)
        ensures
            final(self)@ == old(self)@.load_y(old(self).register_y.wrapping_add(1)),
    {
        self.register_y = self.register_y.wrapping_add(1);
        self.set_neg_and_zero_flag(self.register_y);
    }

    pub(crate) fn isb(&mut self, mode: &AddressingMode) -> (r: Result<(), Fault>)
        ensures
            done(old(self)@, final(self)@, r, old(self)@.isb(*mode)),
    {
        let (address, value) = self.get_operand(mode)?;
        let value_incremented = value.wrapping_add(1);
        let carry = self.carry();
        self.mem_write(address, value_incremented)?;
        self.add_to_register_a_with_carry(!value_incremented, carry);
        Ok(())
    }

    /// Jumps to the address of the operand. In absolute mode that is the address
    /// the instruction names, in indirect mode the address kept where it points.
    pub(crate) fn jmp(&mut self, mode: &AddressingMode) -> (r: Result<(), Fault>)
        ensures
            done(old(self)@, final(self)@, r, old(self)@.jmp(*mode)),
    {
        let addr = self.get_operand_address(mode)?;
        self.program_counter = addr;
        Ok(())
    }

    /// Pushes the address of the last byte of the instruction, then jumps. The
    /// target is read after the push, as the operand may lie on the stack;
    /// where it cannot be read the push is taken back.
    pub(crate) fn jsr(&mut self, mode: &AddressingMode) -> (r: Result<(), Fault>)
        ensures
            done(old(self)@, final(self)@, r, old(self)@.jsr(*mode)),
    {
        let return_address = self.program_counter.wrapping_add(1);
        let pointer = self.register_s;
        let upper = self.peek_stack(pointer);
        let lower = self.peek_stack(pointer.wrapping_sub(1));
        let noted_address = self.last_mem_write_address;
        let noted_value = self.last_mem_write_value;
        let noted_value_u16 = self.last_mem_write_value_u16;
        self.push_stack_u16(return_address);
        match self.get_operand_address(mode) {
            Ok(addr) => {
                self.program_counter = addr;
                Ok(())
            },
            Err(fault) => {
                self.register_s = pointer.wrapping_sub(1);
                self.push_stack(lower);
                self.register_s = pointer;
                self.push_stack(upper);
                self.register_s = pointer;
                self.last_mem_write_address = noted_address;
                self.last_mem_write_value = noted_value;
                self.last_mem_write_value_u16 = noted_value_u16;
                proof {
                    old(self).lemma_wf();
                    assert(self@.mem.ram =~= old(self)@.mem.ram);
                }
                Err(fault)
            },
        }
    }

    pub(crate) fn lax(&mut self, mode: &AddressingMode) -> (r: Result<(), Fault>)
        ensures
            done(old(self)@, final(self)@, r, old(self)@.lax(*mode)),
    {
        let (_, value) = self.get_operand(mode)?;
        self.register_a = value;
        self.register_x = self.register_a;
        self.set_neg_and_zero_flag(self.register_a);
        Ok(())
    }

    pub(crate) fn lda(&mut self, mode: &AddressingMode) -> (r: Result<(), Fault>)
        ensures
            done(old(self)@, final(self)@, r, old(self)@.lda(*mode)),
    {
        let (_, value) = self.get_operand(mode)?;
        self.register_a = value;
        self.set_neg_and_zero_flag(self.register_a);
        Ok(())
    }

    pub(crate) fn ldx(&mut self, mode: &AddressingMode) -> (r: Result<(), Fault>)
        ensures
            done(old(self)@, final(self)@, r, old(self)@.ldx(*mode)),
    {
        let (_, value) = self.get_operand(mode)?;
        self.register_x = value;
        self.set_neg_and_zero_flag(self.register_x);
        Ok(())
    }

    pub(crate) fn ldy(&mut self, mode: &AddressingMode) -> (r: Result<(), Fault>)
        ensures
            done(old(self)@, final(self)@, r, old(self)@.ldy(*mode)),
    {
        let (_, value) = self.get_operand(mode)?;
        self.register_y = value;
        self.set_neg_and_zero_flag(self.register_y);
        Ok(())
    }

    pub(crate) fn lsr(&mut self, mode: &AddressingMode) -> (r: Result<(), Fault>)
        ensures
            done(old(self)@, final(self)@, r, old(self)@.lsr(*mode)),
    {
        if *mode == AddressingMode::NoneAddressing {
            let value = self.register_a;
            let result = value >> 1;
            self.register_a = result;
            self.put_carry(value % 2 == 1);
            self.set_neg_and_zero_flag(result);
        } else {
            let (address, value) = self.get_operand(mode)?;
            let result = value >> 1;
            self.mem_write(address, result)?;
            self.put_carry(value % 2 == 1);
            self.set_neg_and_zero_flag(result);
        }
        Ok(())
    }

    pub(crate) fn nop(&mut self)
        ensures
            final(self)@ == old(self)@,
    {
    }

    pub(crate) fn ora(&mut self, mode: &AddressingMode) -> (r: Result<(), Fault>)
        ensures
            done(old(self)@, final(self)@, r, old(self)@.ora(*mode)),
    {
        let (_, value) = self.get_operand(mode)?;
        self.register_a = value | self.register_a;
        self.set_neg_and_zero_flag(self.register_a);
        Ok(())
    }

    pub(crate) fn pha(&mut self)
        ensures
            final(self)@ == old(self)@.pha(),
    {
        self.push_stack(self.register_a);
    }

    pub(crate) fn php(&mut self)
        ensures
            final(self)@ == old(self)@.php(),
    {
        let status = self.status | BREAK | ALWAYS_ONE;
        self.push_stack(status);
    }

    pub(crate) fn pla(&mut self)
        ensures
            final(self)@ == old(self)@.pla(),
    {
        self.register_a = self.pop_stack();
        self.set_neg_and_zero_flag(self.register_a);
    }

    pub(crate) fn plp(&mut self)
        ensures
            final(self)@ == old(self)@.plp(),
    {
        self.status = (self.pop_stack() & !BREAK) | ALWAYS_ONE;
    }

    pub(crate) fn rla(&mut self, mode: &AddressingMode) -> (r: Result<(), Fault>)
        ensures
            done(old(self)@, final(self)@, r, old(self)@.rla(*mode)),
    {
        let (addr, value) = self.get_operand(mode)?;
        let roled_value = (value << 1) | self.carry();
        self.mem_write(addr, roled_value)?;
        self.put_carry(value >= 0x80);
        self.set_neg_and_zero_flag(roled_value);
        self.register_a = self.register_a & roled_value;
        Ok(())
    }

    pub(crate) fn rol(&mut self, mode: &AddressingMode) -> (r: Result<(), Fault>)
        ensures
            done(old(self)@, final(self)@, r, old(self)@.rol(*mode)),
    {
        if *mode == AddressingMode::NoneAddressing {
            let value = self.register_a;
            let result = (value << 1) | self.carry();
            self.register_a = result;
            self.put_carry(value >= 0x80);
            self.set_neg_and_zero_flag(result);
        } else {
            let (address, value) = self.get_operand(mode)?;
            let result = (value << 1) | self.carry();
            self.mem_write(address, result)?;
            self.put_carry(value >= 0x80);
            self.set_neg_and_zero_flag(result);
        }
        Ok(())
    }

    pub(crate) fn ror(&mut self, mode: &AddressingMode) -> (r: Result<(), Fault>)
        ensures
            done(old(self)@, final(self)@, r, old(self)@.ror(*mode)),
    {
        if *mode == AddressingMode::NoneAddressing {
            let value = self.register_a;
            let result = (value >> 1) | (self.carry() << 7);
            self.register_a = result;
            self.put_carry(value % 2 == 1);
            self.set_neg_and_zero_flag(result);
        } else {
            let (address, value) = self.get_operand(mode)?;
            let result = (value >> 1) | (self.carry() << 7);
            self.mem_write(address, result)?;
            self.put_carry(value % 2 == 1);
            self.set_neg_and_zero_flag(result);
        }
        Ok(())
    }

    pub(crate) fn rra(&mut self, mode: &AddressingMode) -> (r: Result<(), Fault>)
        ensures
            done(old(self)@, final(self)@, r, old(self)@.rra(*mode)),
    {
        let (addr, value) = self.get_operand(mode)?;
        let result = (value >> 1) | (self.carry() << 7);
        self.mem_write(addr, result)?;
        self.put_carry(value % 2 == 1);
        let carry = self.carry();
        proof {
            lemma_flag_written(old(self).status, CARRY, value % 2 == 1);
        }
        self.add_to_register_a_with_carry(result, carry);
        Ok(())
    }

    pub(crate) fn rti(&mut self)
        ensures
            final(self)@ == old(self)@.rti(),
    {
        self.plp();
        let return_address = self.pop_stack_u16();
        self.program_counter = return_address;
    }

    pub(crate) fn rts(&mut self)
        ensures
            final(self)@ == old(self)@.rts(),
    {
        let return_address = self.pop_stack_u16();
        self.program_counter = return_address.wrapping_add(1);
    }

    pub(crate) fn sax(&mut self, mode: &AddressingMode) -> (r: Result<(), Fault>)
        ensures
            done(old(self)@, final(self)@, r, old(self)@.sax(*mode)),
    {
        let address = self.get_operand_address(mode)?;
        let result = self.register_x & self.register_a;
        self.mem_write(address, result)?;
        Ok(())
    }

    pub(crate) fn sbc(&mut self, mode: &AddressingMode) -> (r: Result<(), Fault>)
        ensures
            done(old(self)@, final(self)@, r, old(self)@.sbc(*mode)),
    {
        let (_, value) = self.get_operand(mode)?;
        let carry = self.carry();
        self.add_to_register_a_with_carry(!value, carry);
        Ok(())
    }

    pub(crate) fn sec(&mut self)
        ensures
            final(self)@ == old(self)@.flag(CARRY, true),
    {
        self.set_carry();
    }

    pub(crate) fn sed(&mut self)
        ensures
            final(self)@ == old(self)@.flag(DECIMAL_MODE, true),
    {
        self.set_decimal_mode_flag();
    }

    pub(crate) fn sei(&mut self)
        ensures
            final(self)@ == old(self)@.flag(INTERRUPT_DISABLE, true),
    {
        self.set_interrupt_disable_flag();
    }

    pub(crate) fn slo(&mut self, mode: &AddressingMode) -> (r: Result<(), Fault>)
        ensures
            done(old(self)@, final(self)@, r, old(self)@.slo(*mode)),
    {
        let (addr, value) = self.get_operand(mode)?;
        self.mem_write(addr, value << 1)?;
        let shifted_value = self.shift_left_and_set_carry(value);
        let result = shifted_value | self.register_a;
        self.register_a = result;
        self.set_neg_and_zero_flag(result);
        Ok(())
    }

    pub(crate) fn sre(&mut self, mode: &AddressingMode) -> (r: Result<(), Fault>)
        ensures
            done(old(self)@, final(self)@, r, old(self)@.sre(*mode)),
    {
        let (addr, value) = self.get_operand(mode)?;
        let lsred_value = value >> 1;
        self.mem_write(addr, lsred_value)?;
        self.put_carry(value % 2 == 1);
        let xor_result = self.register_a ^ lsred_value;
        self.set_neg_and_zero_flag(xor_result);
        self.register_a = xor_result;
        Ok(())
    }

    pub(crate) fn sta(&mut self, mode: &AddressingMode) -> (r: Result<(), Fault>)
        ensures
            done(old(self)@, final(self)@, r, old(self)@.store(*mode, old(self).register_a)),
    {
        let addr = self.get_operand_address(mode)?;
        self.mem_write(addr, self.register_a)?;
        Ok(())
    }

    pub(crate) fn stx(&mut self, mode: &AddressingMode) -> (r: Result<(), Fault>)
        ensures
            done(old(self)@, final(self)@, r, old(self)@.store(*mode, old(self).register_x)),
    {
        let addr = self.get_operand_address(mode)?;
        self.mem_write(addr, self.register_x)?;
        Ok(())
    }

    pub(crate) fn sty(&mut self, mode: &AddressingMode) -> (r: Result<(), Fault>)
        ensures
            done(old(self)@, final(self)@, r, old(self)@.store(*mode, old(self).register_y)),
    {
        let addr = self.get_operand_address(mode)?;
        self.mem_write(addr, self.register_y)?;
        Ok(())
    }

    pub(crate) fn tax(&mut self)
        ensures
            final(self)@ == old(self)@.load_x(old(self).register_a),
    {
        self.register_x = self.register_a;
        self.set_neg_and_zero_flag(self.register_x);
    }

    pub(crate) fn tay(&mut self)
        ensures
            final(self)@ == old(self)@.load_y(old(self).register_a),
    {
        self.register_y = self.register_a;
        self.set_neg_and_zero_flag(self.register_y);
    }

    pub(crate) fn tsx(&mut self)
        ensures
            final(self)@ == old(self)@.load_x(old(self).register_s),
    {
        self.register_x = self.register_s;
        self.set_neg_and_zero_flag(self.register_x);
    }

    pub(crate) fn txa(&mut self)
        ensures
            final(self)@ == old(self)@.load_a(old(self).register_x),
    {
        self.register_a = self.register_x;
        self.set_neg_and_zero_flag(self.register_x);
    }

    pub(crate) fn txs(&mut self)
        ensures
            final(self)@ == (Machine { s: old(self).register_x, ..old(self)@ }),
    {
        self.register_s = self.register_x;
    }

    pub(crate) fn tya(&mut self)
        ensures
            final(self)@ == old(self)@.load_a(old(self).register_y),
    {
        self.register_a = self.register_y;
        self.set_neg_and_zero_flag(self.register_y);
    }

    /// The instructions with the opcode bytes from $00 to $1F.
    fn execute_00_1f(&mut self, opcode: &OpCode) -> (r: Result<Flow, Fault>)
        requires
            0x00 <= opcode.code <= 0x1F,
        ensures
            done_with(old(self)@, final(self)@, r, old(self)@.execute(*opcode)),
    {
        proof {
            reveal(Machine::execute);
        }
        let mode = &opcode.mode;
        match opcode.code {
            0x0B => {
                self.anc(mode)?;
                Ok(Flow::Next)
            },
            0x06 | 0x0A | 0x0E | 0x16 | 0x1E => {
                self.asl(mode)?;
                Ok(Flow::Next)
            },
            0x10 => self.bpl(mode),
            0x18 => {
                self.clc();
                Ok(Flow::Next)
            },
            0x04 | 0x0C | 0x14 | 0x1A | 0x1C => {
                self.nop();
                Ok(Flow::Next)
            },
            0x01 | 0x05 | 0x09 | 0x0D | 0x11 | 0x15 | 0x19 | 0x1D => {
                self.ora(mode)?;
                Ok(Flow::Next)
            },
            0x08 => {
                self.php();
                Ok(Flow::Next)
            },
            0x03 | 0x07 | 0x0F | 0x13 | 0x17 | 0x1B | 0x1F => {
                self.slo(mode)?;
                Ok(Flow::Next)
            },
            0x00 => Ok(Flow::Halt),
            _ => Err(
                Fault::UnknownOpcode { code: opcode.code, pc: self.program_counter.wrapping_sub(1) },
            ),
        }
    }

    /// The instructions with the opcode bytes from $20 to $3F.
    fn execute_20_3f(&mut self, opcode: &OpCode) -> (r: Result<Flow, Fault>)
        requires
            0x20 <= opcode.code <= 0x3F,
        ensures
            done_with(old(self)@, final(self)@, r, old(self)@.execute(*opcode)),
    {
        proof {
            reveal(Machine::execute);
        }
        let mode = &opcode.mode;
        match opcode.code {
            0x2B => {
                self.anc(mode)?;
                Ok(Flow::Next)
            },
            0x21 | 0x25 | 0x29 | 0x2D | 0x31 | 0x35 | 0x39 | 0x3D => {
                self.and(mode)?;
                Ok(Flow::Next)
            },
            0x24 | 0x2C => {
                self.bit(mode)?;
                Ok(Flow::Next)
            },
            0x30 => self.bmi(mode),
            0x20 => {
                self.jsr(mode)?;
                Ok(Flow::Jump)
            },
            0x34 | 0x3A | 0x3C => {
                self.nop();
                Ok(Flow::Next)
            },
            0x28 => {
                self.plp();
                Ok(Flow::Next)
            },
            0x23 | 0x27 | 0x2F | 0x33 | 0x37 | 0x3B | 0x3F => {
                self.rla(mode)?;
                Ok(Flow::Next)
            },
            0x26 | 0x2A | 0x2E | 0x36 | 0x3E => {
                self.rol(mode)?;
                Ok(Flow::Next)
            },
            0x38 => {
                self.sec();
                Ok(Flow::Next)
            },
            _ => Err(
                Fault::UnknownOpcode { code: opcode.code, pc: self.program_counter.wrapping_sub(1) },
            ),
        }
    }

    /// The instructions with the opcode bytes from $40 to $5F.
    fn execute_40_5f(&mut self, opcode: &OpCode) -> (r: Result<Flow, Fault>)
        requires
            0x40 <= opcode.code <= 0x5F,
        ensures
            done_with(old(self)@, final(self)@, r, old(self)@.execute(*opcode)),
    {
        proof {
            reveal(Machine::execute);
        }
        let mode = &opcode.mode;
        match opcode.code {
            0x50 => self.bvc(mode),
            0x58 => {
                self.cli();
                Ok(Flow::Next)
            },
            0x41 | 0x45 | 0x49 | 0x4D | 0x51 | 0x55 | 0x59 | 0x5D => {
                self.eor(mode)?;
                Ok(Flow::Next)
            },
            0x4C => {
                self.jmp(mode)?;
                Ok(Flow::Jump)
            },
            0x46 | 0x4A | 0x4E | 0x56 | 0x5E => {
                self.lsr(mode)?;
                Ok(Flow::Next)
            },
            0x44 | 0x54 | 0x5A | 0x5C => {
                self.nop();
                Ok(Flow::Next)
            },
            0x48 => {
                self.pha();
                Ok(Flow::Next)
            },
            0x40 => {
                self.rti();
                Ok(Flow::Jump)
            },
            0x43 | 0x47 | 0x4F | 0x53 | 0x57 | 0x5B | 0x5F => {
                self.sre(mode)?;
                Ok(Flow::Next)
            },
            _ => Err(
                Fault::UnknownOpcode { code: opcode.code, pc: self.program_counter.wrapping_sub(1) },
            ),
        }
    }

    /// The instructions with the opcode bytes from $60 to $7F.
    fn execute_60_7f(&mut self, opcode: &OpCode) -> (r: Result<Flow, Fault>)
        requires
            0x60 <= opcode.code <= 0x7F,
        ensures
            done_with(old(self)@, final(self)@, r, old(self)@.execute(*opcode)),
    {
        proof {
            reveal(Machine::execute);
        }
        let mode = &opcode.mode;
        match opcode.code {
            0x61 | 0x65 | 0x69 | 0x6D | 0x71 | 0x75 | 0x79 | 0x7D => {
                self.adc(mode)?;
                Ok(Flow::Next)
            },
            0x70 => self.bvs(mode),
            0x6C => {
                self.jmp(mode)?;
                Ok(Flow::Jump)
            },
            0x64 | 0x74 | 0x7A | 0x7C => {
                self.nop();
                Ok(Flow::Next)
            },
            0x68 => {
                self.pla();
                Ok(Flow::Next)
            },
            0x66 | 0x6A | 0x6E | 0x76 | 0x7E => {
                self.ror(mode)?;
                Ok(Flow::Next)
            },
            0x63 | 0x67 | 0x6F | 0x73 | 0x77 | 0x7B | 0x7F => {
                self.rra(mode)?;
                Ok(Flow::Next)
            },
            0x60 => {
                self.rts();
                Ok(Flow::Jump)
            },
            0x78 => {
                self.sei();
                Ok(Flow::Next)
            },
            _ => Err(
                Fault::UnknownOpcode { code: opcode.code, pc: self.program_counter.wrapping_sub(1) },
            ),
        }
    }

    /// The instructions with the opcode bytes from $80 to $9F.
    fn execute_80_9f(&mut self, opcode: &OpCode) -> (r: Result<Flow, Fault>)
        requires
            0x80 <= opcode.code <= 0x9F,
        ensures
            done_with(old(self)@, final(self)@, r, old(self)@.execute(*opcode)),
    {
        proof {
            reveal(Machine::execute);
        }
        let mode = &opcode.mode;
        match opcode.code {
            0x90 => self.bcc(mode),
            0x88 => {
                self.dey();
                Ok(Flow::Next)
            },
            0x80 | 0x82 | 0x89 => {
                self.nop();
                Ok(Flow::Next)
            },
            0x83 | 0x87 | 0x8F | 0x97 => {
                self.sax(mode)?;
                Ok(Flow::Next)
            },
            0x81 | 0x85 | 0x8D | 0x91 | 0x95 | 0x99 | 0x9D => {
                self.sta(mode)?;
                Ok(Flow::Next)
            },
            0x86 | 0x8E | 0x96 => {
                self.stx(mode)?;
                Ok(Flow::Next)
            },
            0x84 | 0x8C | 0x94 => {
                self.sty(mode)?;
                Ok(Flow::Next)
            },
            0x8A => {
                self.txa();
                Ok(Flow::Next)
            },
            0x9A => {
                self.txs();
                Ok(Flow::Next)
            },
            0x98 => {
                self.tya();
                Ok(Flow::Next)
            },
            _ => Err(
                Fault::UnknownOpcode { code: opcode.code, pc: self.program_counter.wrapping_sub(1) },
            ),
        }
    }

    /// The instructions with the opcode bytes from $A0 to $BF.
    fn execute_a0_bf(&mut self, opcode: &OpCode) -> (r: Result<Flow, Fault>)
        requires
            0xA0 <= opcode.code <= 0xBF,
        ensures
            done_with(old(self)@, final(self)@, r, old(self)@.execute(*opcode)),
    {
        proof {
            reveal(Machine::execute);
        }
        let mode = &opcode.mode;
        match opcode.code {
            0xB0 => self.bcs(mode),
            0xB8 => {
                self.clv();
                Ok(Flow::Next)
            },
            0xA3 | 0xA7 | 0xAF | 0xB3 | 0xB7 | 0xBF => {
                self.lax(mode)?;
                Ok(Flow::Next)
            },
            0xA1 | 0xA5 | 0xA9 | 0xAD | 0xB1 | 0xB5 | 0xB9 | 0xBD => {
                self.lda(mode)?;
                Ok(Flow::Next)
            },
            0xA2 | 0xA6 | 0xAE | 0xB6 | 0xBE => {
                self.ldx(mode)?;
                Ok(Flow::Next)
            },
            0xA0 | 0xA4 | 0xAC | 0xB4 | 0xBC => {
                self.ldy(mode)?;
                Ok(Flow::Next)
            },
            0xAA => {
                self.tax();
                Ok(Flow::Next)
            },
            0xA8 => {
                self.tay();
                Ok(Flow::Next)
            },
            0xBA => {
                self.tsx();
                Ok(Flow::Next)
            },
            _ => Err(
                Fault::UnknownOpcode { code: opcode.code, pc: self.program_counter.wrapping_sub(1) },
            ),
        }
    }

    /// The instructions with the opcode bytes from $C0 to $DF.
    fn execute_c0_df(&mut self, opcode: &OpCode) -> (r: Result<Flow, Fault>)
        requires
            0xC0 <= opcode.code <= 0xDF,
        ensures
            done_with(old(self)@, final(self)@, r, old(self)@.execute(*opcode)),
    {
        proof {
            reveal(Machine::execute);
        }
        let mode = &opcode.mode;
        match opcode.code {
            0xD0 => self.bne(mode),
            0xD8 => {
                self.cld();
                Ok(Flow::Next)
            },
            0xC1 | 0xC5 | 0xC9 | 0xCD | 0xD1 | 0xD5 | 0xD9 | 0xDD => {
                self.cmp(mode)?;
                Ok(Flow::Next)
            },
            0xC0 | 0xC4 | 0xCC => {
                self.cpy(mode)?;
                Ok(Flow::Next)
            },
            0xC3 | 0xC7 | 0xCF | 0xD3 | 0xD7 | 0xDB | 0xDF => {
                self.dcp(mode)?;
                Ok(Flow::Next)
            },
            0xC6 | 0xCE | 0xD6 | 0xDE => {
                self.dec(mode)?;
                Ok(Flow::Next)
            },
            0xCA => {
                self.dex();
                Ok(Flow::Next)
            },
            0xC8 => {
                self.iny();
                Ok(Flow::Next)
            },
            0xC2 | 0xD4 | 0xDA | 0xDC => {
                self.nop();
                Ok(Flow::Next)
            },
            _ => Err(
                Fault::UnknownOpcode { code: opcode.code, pc: self.program_counter.wrapping_sub(1) },
            ),
        }
    }

    /// The instructions with the opcode bytes from $E0 to $FF.
    fn execute_e0_ff(&mut self, opcode: &OpCode) -> (r: Result<Flow, Fault>)
        requires
            0xE0 <= opcode.code <= 0xFF,
        ensures
            done_with(old(self)@, final(self)@, r, old(self)@.execute(*opcode)),
    {
        proof {
            reveal(Machine::execute);
        }
        let mode = &opcode.mode;
        match opcode.code {
            0xF0 => self.beq(mode),
            0xE0 | 0xE4 | 0xEC => {
                self.cpx(mode)?;
                Ok(Flow::Next)
            },
            0xE6 | 0xEE | 0xF6 | 0xFE => {
                self.inc(mode)?;
                Ok(Flow::Next)
            },
            0xE8 => {
                self.inx();
                Ok(Flow::Next)
            },
            0xE3 | 0xE7 | 0xEF | 0xF3 | 0xF7 | 0xFB | 0xFF => {
                self.isb(mode)?;
                Ok(Flow::Next)
            },
            0xE2 | 0xEA | 0xF4 | 0xFA | 0xFC => {
                self.nop();
                Ok(Flow::Next)
            },
            0xE1 | 0xE5 | 0xE9 | 0xEB | 0xED | 0xF1 | 0xF5 | 0xF9 | 0xFD => {
                self.sbc(mode)?;
                Ok(Flow::Next)
            },
            0xF8 => {
                self.sed();
                Ok(Flow::Next)
            },
            _ => Err(
                Fault::UnknownOpcode { code: opcode.code, pc: self.program_counter.wrapping_sub(1) },
            ),
        }
    }

    /// Executes the instruction `opcode`, whose opcode byte has been fetched,
    /// and says how execution goes on.
    pub(crate) fn execute(&mut self, opcode: &OpCode) -> (r: Result<Flow, Fault>)
        ensures
            done_with(old(self)@, final(self)@, r, old(self)@.execute(*opcode)),
    {
        if opcode.code <= 0x1F {
            self.execute_00_1f(opcode)
        } else if opcode.code <= 0x3F {
            self.execute_20_3f(opcode)
        } else if opcode.code <= 0x5F {
            self.execute_40_5f(opcode)
        } else if opcode.code <= 0x7F {
            self.execute_60_7f(opcode)
        } else if opcode.code <= 0x9F {
            self.execute_80_9f(opcode)
        } else if opcode.code <= 0xBF {
            self.execute_a0_bf(opcode)
        } else if opcode.code <= 0xDF {
            self.execute_c0_df(opcode)
        } else {
            self.execute_e0_ff(opcode)
        }
    }
}

} // verus!

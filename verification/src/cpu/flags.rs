//! The flags of the status byte, and the arithmetic that sets them.

use crate::cpu::CPU;
use crate::machine::Machine;
use crate::status::{
    carry_of, compare, flag_set, is_negative, shift_left, with_nz, CARRY, DECIMAL_MODE,
    INTERRUPT_DISABLE, NEGATIVE, OVERFLOW, ZERO,
};
use vstd::prelude::*;

verus! {

/// The overflow flag of an addition can be read off bit 7 of the operands
/// and of the result.
proof fn lemma_overflow_from_signs(a: u8, value: u8, result: u8)
    by (bit_vector)
    ensures
        ((value ^ result) & (result ^ a) & 0x80 != 0) == ((a >= 0x80) == (value >= 0x80) && (result
            >= 0x80) != (a >= 0x80)),
{
}

impl CPU {
    pub(crate) fn clear_carry(&mut self)
        ensures
            final(self)@ == old(self)@.flag(CARRY, false),
    {
        self.status = self.status & !CARRY;
    }

    pub(crate) fn clear_decimal_mode_flag(&mut self)
        ensures
            final(self)@ == old(self)@.flag(DECIMAL_MODE, false),
    {
        self.status = self.status & !DECIMAL_MODE;
    }

    pub(crate) fn clear_interrupt_disable_flag(&mut self)
        ensures
            final(self)@ == old(self)@.flag(INTERRUPT_DISABLE, false),
    {
        self.status = self.status & !INTERRUPT_DISABLE;
    }

    pub(crate) fn clear_neg_flag(&mut self)
        ensures
            final(self)@ == old(self)@.flag(NEGATIVE, false),
    {
        self.status = self.status & !NEGATIVE;
    }

    pub(crate) fn clear_overflow_flag(&mut self)
        ensures
            final(self)@ == old(self)@.flag(OVERFLOW, false),
    {
        self.status = self.status & !OVERFLOW;
    }

    pub(crate) fn clear_zero_flag(&mut self)
        ensures
            final(self)@ == old(self)@.flag(ZERO, false),
    {
        self.status = self.status & !ZERO;
    }

    pub(crate) fn is_carry_flag_set(&self) -> (set: bool)
        ensures
            set == flag_set(self.status, CARRY),
    {
        self.status & CARRY != 0
    }

    pub(crate) fn is_decimal_mode_flag_set(&self) -> (set: bool)
        ensures
            set == flag_set(self.status, DECIMAL_MODE),
    {
        self.status & DECIMAL_MODE != 0
    }

    pub(crate) fn is_interrupt_disable_flag_set(&self) -> (set: bool)
        ensures
            set == flag_set(self.status, INTERRUPT_DISABLE),
    {
        self.status & INTERRUPT_DISABLE != 0
    }

    pub(crate) fn is_neg_flag_set(&self) -> (set: bool)
        ensures
            set == flag_set(self.status, NEGATIVE),
    {
        self.status & NEGATIVE != 0
    }

    pub(crate) fn is_overflow_flag_set(&self) -> (set: bool)
        ensures
            set == flag_set(self.status, OVERFLOW),
    {
        self.status & OVERFLOW != 0
    }

    pub(crate) fn is_zero_flag_set(&self) -> (set: bool)
        ensures
            set == flag_set(self.status, ZERO),
    {
        self.status & ZERO != 0
    }

    pub(crate) fn set_carry(&mut self)
        ensures
            final(self)@ == old(self)@.flag(CARRY, true),
    {
        self.status = self.status | CARRY;
    }

    pub(crate) fn set_decimal_mode_flag(&mut self)
        ensures
            final(self)@ == old(self)@.flag(DECIMAL_MODE, true),
    {
        self.status = self.status | DECIMAL_MODE;
    }

    pub(crate) fn set_interrupt_disable_flag(&mut self)
        ensures
            final(self)@ == old(self)@.flag(INTERRUPT_DISABLE, true),
    {
        self.status = self.status | INTERRUPT_DISABLE;
    }

    pub(crate) fn set_neg_flag(&mut self)
        ensures
            final(self)@ == old(self)@.flag(NEGATIVE, true),
    {
        self.status = self.status | NEGATIVE;
    }

    pub(crate) fn set_overflow_flag(&mut self)
        ensures
            final(self)@ == old(self)@.flag(OVERFLOW, true),
    {
        self.status = self.status | OVERFLOW;
    }

    pub(crate) fn set_zero_flag(&mut self)
        ensures
            final(self)@ == old(self)@.flag(ZERO, true),
    {
        self.status = self.status | ZERO;
    }

    /// Sets or clears the carry flag.
    pub(crate) fn put_carry(&mut self, on: bool)
        ensures
            final(self)@ == old(self)@.flag(CARRY, on),
    {
        if on {
            self.set_carry();
        } else {
            self.clear_carry();
        }
    }

    /// The carry flag as a number to add.
    pub(crate) fn carry(&self) -> (carry: u8)
        ensures
            carry == carry_of(self.status),
    {
        if self.is_carry_flag_set() {
            1
        } else {
            0
        }
    }

    /// Sets Z where the value is zero, and N where its bit 7 is set.
    pub(crate) fn set_neg_and_zero_flag(&mut self, result_value: u8)
        ensures
            final(self)@ == (Machine {
                p: with_nz(old(self).status, result_value),
                ..old(self)@
            }),
    {
        if result_value == 0 {
            self.set_zero_flag();
        } else {
            self.clear_zero_flag();
        }
        if result_value >= 0x80 {
            self.set_neg_flag();
        } else {
            self.clear_neg_flag();
        }
    }

    /// Sets C, Z and N as the comparison of a register value with an operand
    /// asks.
    pub(crate) fn compare_and_set_flags(&mut self, reference: u8, value: u8)
        ensures
            final(self)@ == (Machine {
                p: compare(old(self).status, reference, value),
                ..old(self)@
            }),
    {
        if reference >= value {
            self.set_carry();
        } else {
            self.clear_carry();
        }
        if reference == value {
            self.set_zero_flag();
        } else {
            self.clear_zero_flag();
        }
        if reference.wrapping_sub(value) >= 0x80 {
            self.set_neg_flag();
        } else {
            self.clear_neg_flag();
        }
    }

    /// Shifts a value up by one bit and puts the bit that falls out into C.
    pub(crate) fn shift_left_and_set_carry(&mut self, value: u8) -> (result: u8)
        ensures
            result == shift_left(value),
            final(self)@ == old(self)@.flag(CARRY, is_negative(value)),
    {
        let result = value << 1;
        self.put_carry(value >= 0x80);
        result
    }

    pub(crate) fn disable_interrupt(&mut self)
        ensures
            final(self)@ == old(self)@.flag(INTERRUPT_DISABLE, true),
    {
        self.status = self.status | INTERRUPT_DISABLE;
    }

    pub(crate) fn enable_interrupt(&mut self)
        ensures
            final(self)@ == old(self)@.flag(INTERRUPT_DISABLE, false),
    {
        self.status = self.status & !INTERRUPT_DISABLE;
    }

    /// Adds a value and a carry of 0 or 1 to the accumulator and sets C, V,
    /// Z and N from the sum.
    pub(crate) fn add_to_register_a_with_carry(&mut self, value: u8, carry: u8)
        requires
            carry <= 1,
        ensures
            final(self)@ == old(self)@.add_to_a(value, carry),
    {
        let result_u16: u16 = value as u16 + self.register_a as u16 + carry as u16;
        self.put_carry(result_u16 > 0xFF);
        let result = self.register_a.wrapping_add(value).wrapping_add(carry);
        proof {
            lemma_overflow_from_signs(self.register_a, value, result);
        }
        if (value ^ result) & (result ^ self.register_a) & 0x80 != 0 {
            self.set_overflow_flag();
        } else {
            self.clear_overflow_flag();
        }
        self.register_a = result;
        self.set_neg_and_zero_flag(self.register_a);
    }
}

} // verus!

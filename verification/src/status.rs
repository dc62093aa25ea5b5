//! The processor status byte `P` and the arithmetic that sets its flags.
//!
//! The packed byte is the canonical representation. Its bits are, from the
//! most significant one down, `N V 1 B D I Z C`.

use vstd::prelude::*;

verus! {

pub const CARRY: u8 = 0b0000_0001;

pub const ZERO: u8 = 0b0000_0010;

pub const INTERRUPT_DISABLE: u8 = 0b0000_0100;

pub const DECIMAL_MODE: u8 = 0b0000_1000;

/// Exists only in copies of `P` that were pushed on the stack.
pub const BREAK: u8 = 0b0001_0000;

/// Not connected in the silicon: always reads as one.
pub const ALWAYS_ONE: u8 = 0b0010_0000;

pub const OVERFLOW: u8 = 0b0100_0000;

pub const NEGATIVE: u8 = 0b1000_0000;

/// `P` after a reset: interrupts disabled, bit 5 set, all else clear.
pub const STATUS_RESET: u8 = 0b0010_0100;

/// Whether a byte, read as a two's-complement number, is negative.
pub open spec fn is_negative(v: u8) -> bool {
    v >= 0x80
}

/// Whether any bit of `mask` is set in `p`.
pub open spec fn flag_set(p: u8, mask: u8) -> bool {
    p & mask != 0
}

/// `p` with the bits of `mask` all set or all cleared.
pub open spec fn with_flag(p: u8, mask: u8, on: bool) -> u8 {
    if on {
        p | mask
    } else {
        p & !mask
    }
}

/// `p` with Z and N set from the value `v`.
pub open spec fn with_nz(p: u8, v: u8) -> u8 {
    with_flag(with_flag(p, ZERO, v == 0), NEGATIVE, is_negative(v))
}

/// The carry flag of `p` as a number to add.
pub open spec fn carry_of(p: u8) -> u8 {
    if flag_set(p, CARRY) {
        1
    } else {
        0
    }
}

/// Accumulator and status after adding `v` and the carry `carry` (0 or 1)
/// to the accumulator `a`.
///
/// C is the carry out of bit 7. V says that both operands had the same sign
/// and the result has the other one. Decimal mode is ignored.
pub open spec fn add_with_carry(a: u8, v: u8, carry: u8, p: u8) -> (u8, u8) {
    let result = a.wrapping_add(v).wrapping_add(carry);
    let overflow = is_negative(a) == is_negative(v) && is_negative(result) != is_negative(a);
    (
        result,
        with_nz(
            with_flag(with_flag(p, CARRY, a + v + carry > 0xFF), OVERFLOW, overflow),
            result,
        ),
    )
}

/// Whether bit 0 of a byte is set.
pub open spec fn is_odd(v: u8) -> bool {
    v % 2 == 1
}

/// A byte moved up by one bit; bit 0 becomes zero.
pub open spec fn shift_left(v: u8) -> u8 {
    v << 1
}

/// A byte moved down by one bit; bit 7 becomes zero.
pub open spec fn shift_right(v: u8) -> u8 {
    v >> 1
}

/// A byte moved up by one bit, with `carry` (0 or 1) as the new bit 0.
pub open spec fn rotate_left(v: u8, carry: u8) -> u8 {
    (v << 1) | carry
}

/// A byte moved down by one bit, with `carry` (0 or 1) as the new bit 7.
pub open spec fn rotate_right(v: u8, carry: u8) -> u8 {
    (v >> 1) | (carry << 7)
}

/// Status after comparing the register value `reference` with `v`.
pub open spec fn compare(p: u8, reference: u8, v: u8) -> u8 {
    with_flag(
        with_flag(with_flag(p, CARRY, reference >= v), ZERO, reference == v),
        NEGATIVE,
        is_negative(reference.wrapping_sub(v)),
    )
}

/// Status after `BIT`: Z from `a & v`, N and V copied from bits 7 and 6 of `v`.
pub open spec fn bit_test(p: u8, a: u8, v: u8) -> u8 {
    (with_flag(p, ZERO, a & v == 0) & 0b0011_1111) | (v & 0b1100_0000)
}

/// The copy of `p` that `PHP` pushes: B and bit 5 set.
pub open spec fn pushed_status(p: u8) -> u8 {
    p | BREAK | ALWAYS_ONE
}

/// The live status made from a byte pulled off the stack: B cleared, bit 5 set.
pub open spec fn pulled_status(v: u8) -> u8 {
    (v & !BREAK) | ALWAYS_ONE
}

/// Setting or clearing a flag makes it read as set or cleared.
pub proof fn lemma_flag_written(p: u8, mask: u8, on: bool)
    by (bit_vector)
    requires
        mask != 0,
    ensures
        flag_set(with_flag(p, mask, on), mask) == on,
{
}

/// Setting or clearing a flag leaves every bit outside its mask alone.
pub proof fn lemma_flag_kept(p: u8, mask: u8, on: bool, other: u8)
    by (bit_vector)
    requires
        mask & other == 0,
    ensures
        with_flag(p, mask, on) & other == p & other,
        flag_set(with_flag(p, mask, on), other) == flag_set(p, other),
{
}

/// After Z and N are set from a value, Z says that it is zero and N that its
/// bit 7 is set; the other six bits of `p` are as before.
pub proof fn lemma_with_nz(p: u8, v: u8)
    by (bit_vector)
    ensures
        flag_set(with_nz(p, v), ZERO) == (v == 0),
        flag_set(with_nz(p, v), NEGATIVE) == is_negative(v),
        with_nz(p, v) & !(ZERO | NEGATIVE) == p & !(ZERO | NEGATIVE),
{
}

/// The flags of an addition: C is set iff the sum does not fit in a byte, V
/// iff the operands have the same sign and the result has the other one, Z
/// iff the result is zero, N iff its bit 7 is set. The other four bits of
/// `p` are as before.
pub proof fn lemma_add_with_carry_flags(a: u8, v: u8, carry: u8, p: u8)
    by (bit_vector)
    requires
        carry <= 1,
    ensures
        add_with_carry(a, v, carry, p).0 as int == (a + v + carry) % 0x100,
        flag_set(add_with_carry(a, v, carry, p).1, CARRY) == (a + v + carry > 0xFF),
        flag_set(add_with_carry(a, v, carry, p).1, OVERFLOW) == (is_negative(a) == is_negative(v)
            && is_negative(add_with_carry(a, v, carry, p).0) != is_negative(a)),
        flag_set(add_with_carry(a, v, carry, p).1, ZERO) == (add_with_carry(a, v, carry, p).0 == 0),
        flag_set(add_with_carry(a, v, carry, p).1, NEGATIVE) == is_negative(
            add_with_carry(a, v, carry, p).0,
        ),
        add_with_carry(a, v, carry, p).1 & !(CARRY | OVERFLOW | ZERO | NEGATIVE) == p & !(CARRY
            | OVERFLOW | ZERO | NEGATIVE),
{
}

/// Turning all bits of a byte takes it from 255.
pub proof fn lemma_turned(v: u8)
    by (bit_vector)
    ensures
        !v == 255u8 - v,
{
}

/// Subtraction, done as the addition of the operand with all its bits
/// turned, takes the operand and the borrow, which is the carry turned, from
/// the accumulator, modulo 256. C is set iff there was nothing to borrow, V
/// iff the operands differ in sign and the result has not the sign of the
/// accumulator.
pub proof fn lemma_subtract_with_borrow(a: u8, v: u8, carry: u8, p: u8)
    requires
        carry <= 1,
    ensures
        add_with_carry(a, !v, carry, p).0 as int == (a - v - (1 - carry) + 0x100) % 0x100,
        flag_set(add_with_carry(a, !v, carry, p).1, CARRY) == (a - v - (1 - carry) >= 0),
        flag_set(add_with_carry(a, !v, carry, p).1, OVERFLOW) == (is_negative(a) != is_negative(v)
            && is_negative(add_with_carry(a, !v, carry, p).0) != is_negative(a)),
{
    lemma_turned(v);
    lemma_add_with_carry_flags(a, !v, carry, p);
}

/// A shift to the left doubles a byte modulo 256 and moves bit 7 out. A
/// rotation to the left brings the carry in as bit 0.
pub proof fn lemma_shift_left(v: u8, carry: u8)
    by (bit_vector)
    requires
        carry <= 1,
    ensures
        shift_left(v) == (2u8 * v) % 0x100,
        rotate_left(v, carry) == (2u8 * v) % 0x100 + carry,
        is_negative(v) == (v & 0x80 == 0x80),
{
}

/// A shift to the right halves a byte and moves bit 0 out. A rotation to
/// the right brings the carry in as bit 7.
pub proof fn lemma_shift_right(v: u8, carry: u8)
    by (bit_vector)
    requires
        carry <= 1,
    ensures
        shift_right(v) == v / 2u8,
        rotate_right(v, carry) == v / 2u8 + 0x80u8 * carry,
        is_odd(v) == (v & 1 == 1),
{
}

/// The flags of a comparison: C is set iff the register is at least the
/// operand, Z iff the two are equal, N iff bit 7 of their difference is set.
/// The other five bits of `p` are as before.
pub proof fn lemma_compare_flags(p: u8, reference: u8, v: u8)
    by (bit_vector)
    ensures
        flag_set(compare(p, reference, v), CARRY) == (reference >= v),
        flag_set(compare(p, reference, v), ZERO) == (reference == v),
        flag_set(compare(p, reference, v), NEGATIVE) == is_negative(reference.wrapping_sub(v)),
        compare(p, reference, v) & !(CARRY | ZERO | NEGATIVE) == p & !(CARRY | ZERO | NEGATIVE),
{
}

/// Pushing `P` and pulling it again keeps the six live bits, and leaves B
/// cleared and bit 5 set.
pub proof fn lemma_status_round_trip(p: u8)
    by (bit_vector)
    ensures
        flag_set(pushed_status(p), BREAK),
        flag_set(pushed_status(p), ALWAYS_ONE),
        pushed_status(p) & !(BREAK | ALWAYS_ONE) == p & !(BREAK | ALWAYS_ONE),
        !flag_set(pulled_status(pushed_status(p)), BREAK),
        flag_set(pulled_status(pushed_status(p)), ALWAYS_ONE),
        pulled_status(pushed_status(p)) & !(BREAK | ALWAYS_ONE) == p & !(BREAK | ALWAYS_ONE),
{
}

} // verus!

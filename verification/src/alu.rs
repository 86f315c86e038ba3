//! Byte arithmetic of the `8xy_` instruction family and the decimal
//! conversion of `Fx33`, as pure functions of their operands.

use vstd::prelude::*;

verus! {

/// The low eight bits of `a + b`.
pub open spec fn sum_byte(a: u8, b: u8) -> u8 {
    ((a + b) % 256) as u8
}

/// 1 when `a + b` does not fit in a byte, else 0.
pub open spec fn carry_flag(a: u8, b: u8) -> u8 {
    if a + b >= 256 {
        1
    } else {
        0
    }
}

/// `a - b` modulo 256.
pub open spec fn difference_byte(a: u8, b: u8) -> u8 {
    ((a - b) % 256) as u8
}

/// 1 when `a - b` needs no borrow, else 0.
pub open spec fn no_borrow_flag(a: u8, b: u8) -> u8 {
    if a >= b {
        1
    } else {
        0
    }
}

/// The decimal digits of `value`: hundreds, tens, ones.
pub open spec fn decimal_digits(value: u8) -> Seq<u8> {
    seq![value / 100, (value / 10) % 10, value % 10]
}

/// Adds two bytes. Returns the wrapped sum and the carry flag.
pub fn add_with_carry(a: u8, b: u8) -> (out: (u8, u8))
    ensures
        out.0 == sum_byte(a, b),
        out.1 == carry_flag(a, b),
        out.0 + 256 * out.1 == a + b,
{
    let wide: u16 = a as u16 + b as u16;
    if wide >= 256 {
        ((wide - 256) as u8, 1)
    } else {
        (wide as u8, 0)
    }
}

/// Subtracts `b` from `a`. Returns the wrapped difference and the flag, which
/// is 1 exactly when no borrow occurred.
pub fn sub_with_borrow(a: u8, b: u8) -> (out: (u8, u8))
    ensures
        out.0 == difference_byte(a, b),
        out.1 == no_borrow_flag(a, b),
        out.0 - 256 * (1 - out.1) == a - b,
{
    if a >= b {
        (a - b, 1)
    } else {
        let wide: u16 = 256 + a as u16 - b as u16;
        (wide as u8, 0)
    }
}

/// Shifts `source` right by one. Returns the shifted byte and the bit that
/// left it, the least significant bit of `source`.
pub fn shift_right(source: u8) -> (out: (u8, u8))
    ensures
        out.0 == source >> 1,
        out.1 == source & 1,
        out.0 == source / 2,
        out.1 == source % 2,
{
    assert(source >> 1 == source / 2) by (bit_vector);
    assert(source & 1 == source % 2) by (bit_vector);
    (source >> 1, source & 1)
}

/// Shifts `source` left by one. Returns the shifted byte and the bit that
/// left it, the most significant bit of `source`.
pub fn shift_left(source: u8) -> (out: (u8, u8))
    ensures
        out.0 == source << 1,
        out.1 == (source & 0x80) >> 7,
        out.0 == (source * 2) % 256,
        out.1 == source / 128,
{
    assert(source << 1 == (source * 2) % 256) by (bit_vector);
    assert((source & 0x80) >> 7 == source / 128) by (bit_vector);
    (source << 1, (source & 0x80) >> 7)
}

/// Splits a byte into its three decimal digits, leading zeros included.
pub fn binary_coded_decimal(value: u8) -> (digits: [u8; 3])
    ensures
        digits@ == decimal_digits(value),
        100 * digits[0] + 10 * digits[1] + digits[2] == value,
        forall|i: int| 0 <= i < 3 ==> digits[i] <= 9,
{
    let digits: [u8; 3] = [value / 100, (value / 10) % 10, value % 10];
    assert(digits@ =~= decimal_digits(value));
    digits
}

} // verus!

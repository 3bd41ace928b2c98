//! Real quantities as IEEE 754 binary64 bit patterns.
//!
//! A pattern has a sign bit, eleven exponent bits and 52 fraction bits. The
//! predicates below read a pattern as the number it encodes: both zeros compare
//! equal, a NaN is unordered and differs from every number, and otherwise numbers
//! are ordered by sign and magnitude.

use vstd::prelude::*;

verus! {

/// The bit pattern of an IEEE 754 binary64 number.
pub type Number = u64;

/// Positive zero.
pub const ZERO: Number = 0;

/// The number one.
pub const ONE: Number = 0x3ff0_0000_0000_0000;

/// The sign bit of a pattern.
pub const SIGN_BIT: u64 = 0x8000_0000_0000_0000;

/// The magnitude of both infinities; every larger magnitude is a NaN.
pub const INFINITY_MAGNITUDE: u64 = 0x7ff0_0000_0000_0000;

/// The pattern with its sign bit cleared.
pub open spec fn magnitude(x: Number) -> u64 {
    if x >= SIGN_BIT {
        (x - SIGN_BIT) as u64
    } else {
        x
    }
}

/// The sign bit is set. This holds of negative numbers, of negative zero and of
/// NaNs with the sign bit set.
pub open spec fn sign_is_set(x: Number) -> bool {
    x >= SIGN_BIT
}

/// The pattern encodes no number.
pub open spec fn is_nan(x: Number) -> bool {
    magnitude(x) > INFINITY_MAGNITUDE
}

/// The pattern encodes positive or negative zero.
pub open spec fn is_zero(x: Number) -> bool {
    magnitude(x) == 0
}

/// The pattern differs from zero: it is neither of the two zeros. A NaN differs
/// from zero.
pub open spec fn is_nonzero(x: Number) -> bool {
    !is_zero(x)
}

/// The pattern encodes a number whose magnitude exceeds zero: it is neither a zero
/// nor a NaN.
pub open spec fn has_magnitude(x: Number) -> bool {
    !is_zero(x) && !is_nan(x)
}

/// The number `a` is strictly below the number `b`. False whenever one of the two
/// is a NaN, and false of the two zeros in either order.
pub open spec fn is_below(a: Number, b: Number) -> bool {
    &&& !is_nan(a)
    &&& !is_nan(b)
    &&& !(is_zero(a) && is_zero(b))
    &&& if sign_is_set(a) {
        !sign_is_set(b) || magnitude(a) > magnitude(b)
    } else {
        !sign_is_set(b) && magnitude(a) < magnitude(b)
    }
}

/// Clears the sign bit.
pub fn abs_bits(x: Number) -> (r: u64)
    ensures
        r == magnitude(x),
        r < SIGN_BIT,
{
    if x >= SIGN_BIT {
        x - SIGN_BIT
    } else {
        x
    }
}

/// Tests whether the pattern encodes no number.
pub fn nan(x: Number) -> (r: bool)
    ensures
        r == is_nan(x),
{
    abs_bits(x) > INFINITY_MAGNITUDE
}

/// Tests whether the pattern encodes one of the two zeros.
pub fn zero(x: Number) -> (r: bool)
    ensures
        r == is_zero(x),
{
    abs_bits(x) == 0
}

/// Tests whether the pattern differs from zero.
pub fn nonzero(x: Number) -> (r: bool)
    ensures
        r == is_nonzero(x),
{
    abs_bits(x) != 0
}

/// Tests whether the pattern encodes a number whose magnitude exceeds zero.
pub fn magnitude_exceeds_zero(x: Number) -> (r: bool)
    ensures
        r == has_magnitude(x),
{
    let m: u64 = abs_bits(x);
    m != 0 && m <= INFINITY_MAGNITUDE
}

/// Tests whether the number `a` is strictly below the number `b`.
pub fn below(a: Number, b: Number) -> (r: bool)
    ensures
        r == is_below(a, b),
{
    let ma: u64 = abs_bits(a);
    let mb: u64 = abs_bits(b);
    if ma > INFINITY_MAGNITUDE || mb > INFINITY_MAGNITUDE {
        false
    } else if ma == 0 && mb == 0 {
        false
    } else if a >= SIGN_BIT {
        b < SIGN_BIT || ma > mb
    } else {
        b < SIGN_BIT && ma < mb
    }
}

} // verus!

//! IEEE-754 binary64 values, read through their bit patterns.
//!
//! A pattern is a sign bit, eleven exponent bits and fifty-two fraction
//! bits. The order of the values is the order of a signed integer key, with
//! the two zeros sharing one key and the NaN patterns left out of it.

use vstd::prelude::*;

verus! {

/// The pattern whose only set bit is the sign bit (negative zero).
pub const SIGN_BIT: u64 = 0x8000_0000_0000_0000u64;

/// The pattern of positive infinity: the largest magnitude that is a number.
pub const INFINITY: u64 = 0x7FF0_0000_0000_0000u64;

/// The pattern of positive zero.
pub const ZERO: u64 = 0u64;

/// The pattern with its sign bit cleared, as an integer.
pub open spec fn magnitude(bits: u64) -> int {
    if bits >= SIGN_BIT {
        bits - SIGN_BIT
    } else {
        bits as int
    }
}

/// The pattern is not a number: all exponent bits set, fraction not zero.
pub open spec fn nan(bits: u64) -> bool {
    magnitude(bits) > INFINITY
}

/// The integer key by which the patterns that are numbers are ordered.
pub open spec fn rank(bits: u64) -> int {
    if bits >= SIGN_BIT {
        -magnitude(bits)
    } else {
        magnitude(bits)
    }
}

/// `a < b` as IEEE-754 compares: false as soon as one side is a NaN.
pub open spec fn less(a: u64, b: u64) -> bool {
    !nan(a) && !nan(b) && rank(a) < rank(b)
}

/// `a == b` as IEEE-754 compares: the two zeros are equal, a NaN equals nothing.
pub open spec fn same(a: u64, b: u64) -> bool {
    !nan(a) && !nan(b) && rank(a) == rank(b)
}

/// `a <= b` as IEEE-754 compares.
pub open spec fn at_most(a: u64, b: u64) -> bool {
    less(a, b) || same(a, b)
}

/// The value is strictly greater than zero (positive infinity included).
pub open spec fn positive(bits: u64) -> bool {
    0 < bits <= INFINITY
}

/// The smaller of two values; a NaN on either side comes back as it is,
/// the left one first. Of two equal values the left one is returned.
pub open spec fn lesser(a: u64, b: u64) -> u64 {
    if nan(a) {
        a
    } else if nan(b) {
        b
    } else if less(b, a) {
        b
    } else {
        a
    }
}

/// The pattern with its sign bit cleared.
pub fn abs_bits(bits: u64) -> (r: u64)
    ensures
        r == magnitude(bits),
        r < SIGN_BIT,
{
    if bits >= SIGN_BIT {
        bits - SIGN_BIT
    } else {
        bits
    }
}

/// Tells whether the pattern is a NaN.
pub fn is_nan(bits: u64) -> (r: bool)
    ensures
        r == nan(bits),
{
    abs_bits(bits) > INFINITY
}

/// Tells whether the value is strictly greater than zero.
pub fn is_positive(bits: u64) -> (r: bool)
    ensures
        r == positive(bits),
        r == less(ZERO, bits),
{
    0 < bits && bits <= INFINITY
}

/// `a < b` on two patterns.
pub fn lt(a: u64, b: u64) -> (r: bool)
    ensures
        r == less(a, b),
{
    if is_nan(a) || is_nan(b) {
        return false;
    }
    let ma: u64 = abs_bits(a);
    let mb: u64 = abs_bits(b);
    if a >= SIGN_BIT {
        if b >= SIGN_BIT {
            mb < ma
        } else {
            ma > 0 || mb > 0
        }
    } else {
        if b >= SIGN_BIT {
            false
        } else {
            ma < mb
        }
    }
}

/// `a == b` on two patterns.
pub fn equals(a: u64, b: u64) -> (r: bool)
    ensures
        r == same(a, b),
{
    if is_nan(a) || is_nan(b) {
        return false;
    }
    let ma: u64 = abs_bits(a);
    let mb: u64 = abs_bits(b);
    a == b || (ma == 0 && mb == 0)
}

/// `a <= b` on two patterns.
pub fn le(a: u64, b: u64) -> (r: bool)
    ensures
        r == at_most(a, b),
{
    lt(a, b) || equals(a, b)
}

/// The smaller of two values, a NaN winning over any number.
pub fn minimum(a: u64, b: u64) -> (r: u64)
    ensures
        r == lesser(a, b),
{
    if is_nan(a) {
        a
    } else if is_nan(b) {
        b
    } else if lt(b, a) {
        b
    } else {
        a
    }
}

/// `less` is a strict order: nothing is below itself, and no two values are
/// below each other.
pub proof fn lemma_less_strict(a: u64, b: u64)
    ensures
        !less(a, a),
        less(a, b) ==> !less(b, a),
{
}

/// `less` is transitive.
pub proof fn lemma_less_transitive(a: u64, b: u64, c: u64)
    requires
        less(a, b),
        less(b, c),
    ensures
        less(a, c),
{
}

/// Two numbers are below, above or equal to each other, and only one of the
/// three; with a NaN on either side none of the three holds.
pub proof fn lemma_trichotomy(a: u64, b: u64)
    ensures
        !nan(a) && !nan(b) ==> (less(a, b) || less(b, a) || same(a, b)),
        !(less(a, b) && same(a, b)),
        !(less(b, a) && same(a, b)),
        nan(a) || nan(b) ==> !less(a, b) && !less(b, a) && !same(a, b),
{
}

/// What `lesser` returns is one of its arguments and is above neither; where
/// both are numbers it is one, and is equal to or below each.
pub proof fn lemma_lesser_is_lower_bound(a: u64, b: u64)
    ensures
        lesser(a, b) == a || lesser(a, b) == b,
        !less(a, lesser(a, b)),
        !less(b, lesser(a, b)),
        !nan(a) && !nan(b) ==> !nan(lesser(a, b)),
        nan(a) || nan(b) ==> nan(lesser(a, b)),
{
}

/// A value is positive exactly when zero is below it; a positive value is a
/// number, and everything above a positive value is positive.
pub proof fn lemma_positive(a: u64, b: u64)
    ensures
        positive(a) <==> less(ZERO, a),
        positive(a) ==> !nan(a),
        positive(a) && less(a, b) ==> positive(b),
{
}

} // verus!

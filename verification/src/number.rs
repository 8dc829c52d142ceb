//! Order and equality of two numbers that are held as the bit patterns of
//! IEEE 754 doubles, where either number may be missing.
use vstd::prelude::*;

verus! {

/// The pattern without its sign bit.
pub open spec fn magnitude(bits: u64) -> int {
    bits as int % 0x8000_0000_0000_0000
}

/// Whether the pattern is that of a NaN: all exponent bits set and a
/// fraction that is not zero.
pub open spec fn not_a_number(bits: u64) -> bool {
    magnitude(bits) > 0x7ff0_0000_0000_0000
}

/// An integer that orders the patterns as the doubles are ordered: the
/// magnitude, negated where the sign bit is set. Both zeros get 0.
pub open spec fn rank(bits: u64) -> int {
    if bits >= 0x8000_0000_0000_0000 {
        -magnitude(bits)
    } else {
        magnitude(bits)
    }
}

/// `a < b`. A missing number is below every number; a NaN is below nothing
/// and nothing is below it.
pub open spec fn below(a: Option<u64>, b: Option<u64>) -> bool {
    match (a, b) {
        (None, Some(_)) => true,
        (Some(x), Some(y)) => !not_a_number(x) && !not_a_number(y) && rank(x) < rank(y),
        _ => false,
    }
}

/// `a == b`. Two missing numbers are equal; a NaN equals nothing.
pub open spec fn alike(a: Option<u64>, b: Option<u64>) -> bool {
    match (a, b) {
        (None, None) => true,
        (Some(x), Some(y)) => !not_a_number(x) && !not_a_number(y) && rank(x) == rank(y),
        _ => false,
    }
}

fn is_not_a_number(bits: u64) -> (nan: bool)
    ensures
        nan == not_a_number(bits),
{
    bits % 0x8000_0000_0000_0000 > 0x7ff0_0000_0000_0000
}

fn rank_of(bits: u64) -> (r: i64)
    ensures
        r == rank(bits),
{
    let m: u64 = bits % 0x8000_0000_0000_0000;
    if bits >= 0x8000_0000_0000_0000 {
        -(m as i64)
    } else {
        m as i64
    }
}

/// Whether the first number is below the second.
pub fn is_below(a: Option<u64>, b: Option<u64>) -> (r: bool)
    ensures
        r == below(a, b),
{
    match (a, b) {
        (None, Some(_)) => true,
        (Some(x), Some(y)) => !is_not_a_number(x) && !is_not_a_number(y) && rank_of(x) < rank_of(y),
        _ => false,
    }
}

/// Whether the two numbers are equal.
pub fn is_alike(a: Option<u64>, b: Option<u64>) -> (r: bool)
    ensures
        r == alike(a, b),
{
    match (a, b) {
        (None, None) => true,
        (Some(x), Some(y)) => !is_not_a_number(x) && !is_not_a_number(y) && rank_of(x) == rank_of(y),
        _ => false,
    }
}

} // verus!

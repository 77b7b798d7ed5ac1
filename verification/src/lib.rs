use vstd::prelude::*;

verus! {

/// The mathematical sum of two integers.
pub open spec fn sum(a: int, b: int) -> int {
    a + b
}

/// Adds two numbers together.
///
/// The result is the exact mathematical sum, which the caller must know
/// fits in a signed 32-bit integer.
pub fn add(a: i32, b: i32) -> (r: i32)
    requires
        i32::MIN <= sum(a as int, b as int) <= i32::MAX,
    ensures
        r == sum(a as int, b as int),
{
    a + b
}

/// The sum does not depend on the order of its arguments.
pub proof fn lemma_sum_commutes(a: int, b: int)
    ensures
        sum(a, b) == sum(b, a),
{
}

/// Zero is an identity for the sum, on either side.
pub proof fn lemma_sum_identity(a: int)
    ensures
        sum(a, 0) == a,
        sum(0, a) == a,
{
}

/// A value and its negation sum to zero.
pub proof fn lemma_sum_inverse(a: int)
    ensures
        sum(a, -a) == 0,
{
}

} // verus!

//! Addition on `i32`.
//!
//! Overflow wraps around in two's complement: a sum above `i32::MAX` comes
//! back reduced by 2^32, a sum below `i32::MIN` raised by 2^32. No input is
//! refused and no call panics.

use vstd::prelude::*;

verus! {

/// The mathematical sum `a + b` brought back into the range of `i32`.
///
/// Two `i32` values add up to something within one span of 2^32 of the
/// range, so a single correction is enough.
pub open spec fn wrapped_sum(a: i32, b: i32) -> int {
    let sum = a + b;
    if sum > i32::MAX {
        sum - 0x1_0000_0000
    } else if sum < i32::MIN {
        sum + 0x1_0000_0000
    } else {
        sum
    }
}

/// Adds two numbers, wrapping around on overflow.
#[inline]
pub fn add(a: i32, b: i32) -> (sum: i32)
    ensures
        sum == wrapped_sum(a, b),
        i32::MIN <= a + b <= i32::MAX ==> sum == a + b,
{
    a.wrapping_add(b)
}

/// Addition is commutative: the operands may be swapped without changing
/// the sum, whether or not it wraps.
pub proof fn lemma_add_commutative(a: i32, b: i32)
    ensures
        wrapped_sum(a, b) == wrapped_sum(b, a),
{
}

/// Holds one integer to which others are added. Internal to this module.
#[allow(dead_code)]
struct PrivateHelper {
    value: i32,
}

#[allow(dead_code)]
impl PrivateHelper {
    /// Returns the held value plus `x`, wrapping around on overflow.
    fn calculate(&self, x: i32) -> (sum: i32)
        ensures
            sum == wrapped_sum(self.value, x),
            i32::MIN <= self.value + x <= i32::MAX ==> sum == self.value + x,
    {
        self.value.wrapping_add(x)
    }
}

/// A fixed answer for internal use.
#[allow(dead_code)]
fn private_function() -> (answer: i32)
    ensures
        answer == 42,
{
    42
}

} // verus!

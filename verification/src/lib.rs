//! Basic signed integer arithmetic: addition, subtraction, multiplication,
//! and division with an explicit absent result for a zero divisor.

use vstd::arithmetic::div_mod::{
    lemma_div_decreases, lemma_div_nonincreasing, lemma_div_pos_is_pos,
};
use vstd::prelude::*;

verus! {

/// Truncated (toward-zero) integer division, the rounding that `i32`
/// division performs. Spec-mode `/` is Euclidean, so the signs are handled
/// explicitly, over the operands' magnitudes.
pub open spec fn div_trunc(a: int, b: int) -> int {
    if a == 0 {
        0
    } else if a > 0 && b > 0 {
        a / b
    } else if a < 0 && b < 0 {
        (a * -1) / (b * -1)
    } else if a < 0 {
        ((a * -1) / b) * -1
    } else {
        (a / (b * -1)) * -1
    }
}

/// For `i32` operands, truncated division stays in range whenever the
/// divisor is nonzero, except for `i32::MIN / -1`.
proof fn lemma_div_trunc_in_range(a: int, b: int)
    requires
        i32::MIN <= a <= i32::MAX,
        i32::MIN <= b <= i32::MAX,
        b != 0,
        !(a == i32::MIN && b == -1),
    ensures
        i32::MIN <= div_trunc(a, b) <= i32::MAX,
{
    if a > 0 && b > 0 {
        lemma_div_pos_is_pos(a, b);
        lemma_div_nonincreasing(a, b);
    } else if a < 0 && b < 0 {
        lemma_div_pos_is_pos(a * -1, b * -1);
        if a == i32::MIN {
            lemma_div_decreases(a * -1, b * -1);
        } else {
            lemma_div_nonincreasing(a * -1, b * -1);
        }
    } else if a < 0 {
        lemma_div_pos_is_pos(a * -1, b);
        lemma_div_nonincreasing(a * -1, b);
    } else if a > 0 {
        lemma_div_pos_is_pos(a, b * -1);
        lemma_div_nonincreasing(a, b * -1);
    }
}

/// Returns the sum of `a` and `b`.
pub fn add(a: i32, b: i32) -> (r: i32)
    requires
        i32::MIN <= a + b <= i32::MAX,
    ensures
        r == a + b,
{
    a + b
}

/// Returns the difference of `a` and `b`.
pub fn subtract(a: i32, b: i32) -> (r: i32)
    requires
        i32::MIN <= a - b <= i32::MAX,
    ensures
        r == a - b,
{
    a - b
}

/// Returns the product of `a` and `b`.
pub fn multiply(a: i32, b: i32) -> (r: i32)
    requires
        i32::MIN <= a * b <= i32::MAX,
    ensures
        r == a * b,
{
    a * b
}

/// Divides `a` by `b`, truncating toward zero; the result is absent exactly
/// when the divisor is zero.
pub fn divide(a: i32, b: i32) -> (r: Option<i32>)
    requires
        !(a == i32::MIN && b == -1),
    ensures
        r is Some <==> b != 0,
        b != 0 ==> r == Some((div_trunc(a as int, b as int) as i32)),
{
    if b == 0 {
        None
    } else {
        proof {
            lemma_div_trunc_in_range(a as int, b as int);
        }
        Some(a.checked_div(b).unwrap())
    }
}

} // verus!

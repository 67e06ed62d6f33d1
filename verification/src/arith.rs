//! Saturating integer helpers shared by the economic modules.

use vstd::prelude::*;

verus! {

/// `a * b`, or `u128::MAX` where the product does not fit.
pub open spec fn sat_mul128(a: u128, b: u128) -> u128 {
    if a * b > u128::MAX {
        u128::MAX
    } else {
        (a * b) as u128
    }
}

/// `a * b`, or `u64::MAX` where the product does not fit.
pub open spec fn sat_mul64(a: u64, b: u64) -> u64 {
    if a * b > u64::MAX {
        u64::MAX
    } else {
        (a * b) as u64
    }
}

/// Saturating multiplication of two `u128` values.
pub fn saturating_mul_u128(a: u128, b: u128) -> (r: u128)
    ensures
        r == sat_mul128(a, b),
{
    match a.checked_mul(b) {
        Some(v) => v,
        None => u128::MAX,
    }
}

/// Saturating multiplication of two `u64` values.
pub fn saturating_mul_u64(a: u64, b: u64) -> (r: u64)
    ensures
        r == sat_mul64(a, b),
{
    match a.checked_mul(b) {
        Some(v) => v,
        None => u64::MAX,
    }
}

/// The smaller of two `u128` values.
pub fn min_u128(a: u128, b: u128) -> (r: u128)
    ensures
        r == (if a <= b { a } else { b }),
{
    if a <= b {
        a
    } else {
        b
    }
}

/// The smaller of two `u64` values.
pub fn min_u64(a: u64, b: u64) -> (r: u64)
    ensures
        r == (if a <= b { a } else { b }),
{
    if a <= b {
        a
    } else {
        b
    }
}

} // verus!

//! Saturating signed arithmetic on token amounts.
use vstd::prelude::*;

verus! {

/// `a + b` clamped to the `i128` range.
pub open spec fn sat_add_i128(a: int, b: int) -> i128 {
    if a + b > i128::MAX { i128::MAX } else if a + b < i128::MIN { i128::MIN } else { (a + b) as i128 }
}

/// `a - b` clamped to the `i128` range.
pub open spec fn sat_sub_i128(a: int, b: int) -> i128 {
    if a - b > i128::MAX { i128::MAX } else if a - b < i128::MIN { i128::MIN } else { (a - b) as i128 }
}

/// Saturating `i128` addition.
pub fn saturating_add_i128(a: i128, b: i128) -> (r: i128)
    ensures
        r == sat_add_i128(a as int, b as int),
{
    if b > 0 && a > i128::MAX - b {
        i128::MAX
    } else if b < 0 && a < i128::MIN - b {
        i128::MIN
    } else {
        a + b
    }
}

/// Saturating `i128` subtraction.
pub fn saturating_sub_i128(a: i128, b: i128) -> (r: i128)
    ensures
        r == sat_sub_i128(a as int, b as int),
{
    if b < 0 && a > i128::MAX + b {
        i128::MAX
    } else if b > 0 && a < i128::MIN + b {
        i128::MIN
    } else {
        a - b
    }
}

/// Integer division rounding toward zero, as machine division does.
pub open spec fn tdiv(a: int, b: int) -> int {
    if a >= 0 { a / b } else { -((-a) / b) }
}

} // verus!

//! Fixed-point numbers: a real quantity `x` is held as the integer
//! `x * ONE`, rounded toward zero.

use vstd::prelude::*;

verus! {

/// The integer that stands for the real number one.
pub const ONE: i64 = 1_000_000;

/// The quotient `a / b` for a positive divisor, rounded toward zero.
pub open spec fn trunc_div(a: int, b: int) -> int
    recommends
        b > 0,
{
    if a >= 0 {
        a / b
    } else {
        -((-a) / b)
    }
}

} // verus!

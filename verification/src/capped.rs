//! Arithmetic on counts that may exceed `u64`: `None` stands for any value
//! above `u64::MAX`, so that a formula can be evaluated to learn whether it
//! fits before the exact evaluation is attempted.
use vstd::prelude::*;

verus! {

/// A non-negative integer as a `u64`, or `None` when it is too large.
pub open spec fn capped(x: int) -> Option<u64> {
    if x <= u64::MAX {
        Some(x as u64)
    } else {
        None
    }
}

pub fn cap_of(v: u64) -> (r: Option<u64>)
    ensures
        r == capped(v as int),
{
    Some(v)
}

/// The product of two capped non-negative values.
pub fn cap_mul(a: Option<u64>, b: Option<u64>, Ghost(x): Ghost<int>, Ghost(y): Ghost<int>) -> (r: Option<u64>)
    requires
        x >= 0,
        y >= 0,
        a == capped(x),
        b == capped(y),
    ensures
        r == capped(x * y),
{
    match (a, b) {
        (Some(u), Some(v)) => u.checked_mul(v),
        (None, Some(v)) => {
            if v == 0 {
                assert(x * y == 0) by (nonlinear_arith)
                    requires
                        y == 0,
                ;
                Some(0)
            } else {
                assert(x * y >= x) by (nonlinear_arith)
                    requires
                        x >= 0,
                        y >= 1,
                ;
                None
            }
        },
        (Some(u), None) => {
            if u == 0 {
                assert(x * y == 0) by (nonlinear_arith)
                    requires
                        x == 0,
                ;
                Some(0)
            } else {
                assert(x * y >= y) by (nonlinear_arith)
                    requires
                        y >= 0,
                        x >= 1,
                ;
                None
            }
        },
        (None, None) => {
            assert(x * y >= x) by (nonlinear_arith)
                requires
                    x > u64::MAX,
                    y > u64::MAX,
            ;
            None
        },
    }
}

/// The sum of two capped non-negative values.
pub fn cap_add(a: Option<u64>, b: Option<u64>, Ghost(x): Ghost<int>, Ghost(y): Ghost<int>) -> (r: Option<u64>)
    requires
        x >= 0,
        y >= 0,
        a == capped(x),
        b == capped(y),
    ensures
        r == capped(x + y),
{
    match (a, b) {
        (Some(u), Some(v)) => u.checked_add(v),
        _ => None,
    }
}

} // verus!

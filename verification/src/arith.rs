//! Integer arithmetic as machine instructions compute it.

use vstd::prelude::*;

verus! {

/// Division rounding toward zero, as Rust's integer `/` does, for a positive divisor.
pub open spec fn trunc_div(a: int, b: int) -> int
    recommends
        b > 0,
{
    if a >= 0 {
        a / b
    } else {
        -((-a) / b)
    }
}

} // verus!

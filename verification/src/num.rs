//! Comparison predicates over the partial order that a number type's `PartialOrd` specifies.

use core::cmp::Ordering;
use core::ops::{Add, Div, Mul, Rem, Sub};
use vstd::prelude::*;
use vstd::std_specs::cmp::PartialOrdSpec;

verus! {

/// Whether `a < b` under `T`'s specified partial order.
pub open spec fn lt_spec<T: PartialOrd>(a: T, b: T) -> bool {
    a.partial_cmp_spec(&b) == Some(Ordering::Less)
}

} // verus!

verus! {

/// Whether `T`'s comparison operators follow its specified partial order.
pub open spec fn obeys_order<T: PartialOrd>() -> bool {
    T::obeys_partial_cmp_spec()
}

} // verus!

verus! {

/// The numbers that points, vectors and shapes hold: copyable, ordered, and closed under the
/// four operations and the remainder.
pub trait Number: Copy + PartialOrd + Add<Output = Self> + Sub<Output = Self> + Mul<Output = Self> + Div<Output = Self> + Rem<Output = Self> {}

impl<T> Number for T where T: Copy + PartialOrd + Add<Output = T> + Sub<Output = T> + Mul<Output = T> + Div<Output = T> + Rem<Output = T> {}

} // verus!

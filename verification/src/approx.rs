//! Approximate equality of vectors, under the coordinate type's specified partial order.

use crate::num::{lt_spec, obeys_order};
use crate::vector::{idx, Vector};
use core::ops::{Neg, Sub};
use vstd::prelude::*;
use vstd::std_specs::convert::IntoSpec;
use vstd::std_specs::ops::{NegSpec, SubSpec};

verus! {

/// Whether every pair of coordinates differs by less than `epsilon` in either direction.
pub open spec fn approx_eq_spec<T: Copy + Sub<Output = T> + Neg<Output = T> + PartialOrd>(
    a: Seq<T>,
    b: Seq<T>,
    epsilon: T,
) -> bool {
    forall|j: int|
        #![trigger a[j]]
        0 <= j < a.len() ==> lt_spec(a[j].sub_spec(b[j]), epsilon) && lt_spec(
            a[j].sub_spec(b[j]).neg_spec(),
            epsilon,
        )
}

/// Whether every difference, and its negation, that approximate equality computes can be
/// computed.
pub open spec fn approx_eq_req<T: Copy + Sub<Output = T> + Neg<Output = T>>(
    a: Seq<T>,
    b: Seq<T>,
) -> bool {
    forall|j: int|
        #![trigger a[j]]
        0 <= j < a.len() ==> a[j].sub_req(b[j]) && a[j].sub_spec(b[j]).neg_req()
}

impl<T: Copy + Default + Sub<Output = T> + Neg<Output = T> + PartialOrd, const N: usize> Vector<
    T,
    N,
> {
    /// Returns whether two `Vector`s are approximately equal: every pair of coordinates differs
    /// by less than `epsilon`, in either direction.
    pub fn approx_eq<V: Into<Vector<T, N>>>(&self, other: V, epsilon: T) -> (r: bool)
        requires
            T::obeys_sub_spec(),
            T::obeys_neg_spec(),
            obeys_order::<T>(),
            V::obeys_into_spec(),
            approx_eq_req(self@, other.into_spec()@),
        ensures
            r == approx_eq_spec(self@, other.into_spec()@, epsilon),
    {
        let other: Vector<T, N> = other.into();
        let a = self.values();
        let b = other.values();
        let mut approx_eq = true;
        let mut i: usize = 0;
        while i < N
            invariant
                i <= N,
                a@ == self@,
                b@ == other@,
                a@.len() == N,
                b@.len() == N,
                T::obeys_sub_spec(),
                T::obeys_neg_spec(),
                obeys_order::<T>(),
                approx_eq_req(a@, b@),
                approx_eq == approx_eq_spec(
                    a@.subrange(0, idx(i)),
                    b@.subrange(0, idx(i)),
                    epsilon,
                ),
            decreases N - i,
        {
            let ghost k = idx(i);
            assert(a@[k].sub_req(b@[k]));
            let d = a[i] - b[i];
            let below = d < epsilon;
            let above = d.neg() < epsilon;
            proof {
                let sa = a@.subrange(0, k + 1);
                let sb = b@.subrange(0, k + 1);
                let pa = a@.subrange(0, k);
                let pb = b@.subrange(0, k);
                assert(sa[k] == a@[k]);
                assert(forall|j: int| 0 <= j < k ==> sa[j] == pa[j] && sb[j] == pb[j]);
                assert(approx_eq_spec(sa, sb, epsilon) == (approx_eq_spec(pa, pb, epsilon)
                    && lt_spec(d, epsilon) && lt_spec(d.neg_spec(), epsilon)));
            }
            approx_eq = approx_eq && below && above;
            i += 1;
        }
        assert(a@.subrange(0, idx(N)) =~= a@);
        assert(b@.subrange(0, idx(N)) =~= b@);
        approx_eq
    }
}

} // verus!

//! Element-wise arithmetic on coordinate arrays, shared by points and vectors.
//!
//! Each operation is stated over the operator specification of the coordinate type: the result
//! holds, at each index, the specified result of the operator on the coordinates at that index.

use core::ops::{Add, Div, Mul, Neg, Sub};
use vstd::prelude::*;
use vstd::std_specs::ops::{AddSpec, DivSpec, MulSpec, NegSpec, SubSpec};

verus! {

/// `a` and `b` added index by index.
pub open spec fn elementwise_add<T: Add<Output = T>>(a: Seq<T>, b: Seq<T>) -> Seq<T> {
    Seq::new(a.len(), |j: int| a[j].add_spec(b[j]))
}

/// Whether each pair of coordinates can be added.
pub open spec fn elementwise_add_req<T: Add<Output = T>>(a: Seq<T>, b: Seq<T>) -> bool {
    forall|j: int| 0 <= j < a.len() ==> (#[trigger] a[j]).add_req(b[j])
}

/// `b` subtracted from `a` index by index.
pub open spec fn elementwise_sub<T: Sub<Output = T>>(a: Seq<T>, b: Seq<T>) -> Seq<T> {
    Seq::new(a.len(), |j: int| a[j].sub_spec(b[j]))
}

/// Whether each pair of coordinates can be subtracted.
pub open spec fn elementwise_sub_req<T: Sub<Output = T>>(a: Seq<T>, b: Seq<T>) -> bool {
    forall|j: int| 0 <= j < a.len() ==> (#[trigger] a[j]).sub_req(b[j])
}

/// `a` with each coordinate multiplied by `s`.
pub open spec fn scaled<T: Mul<Output = T>>(a: Seq<T>, s: T) -> Seq<T> {
    Seq::new(a.len(), |j: int| a[j].mul_spec(s))
}

/// Whether each coordinate can be multiplied by `s`.
pub open spec fn scaled_req<T: Mul<Output = T>>(a: Seq<T>, s: T) -> bool {
    forall|j: int| 0 <= j < a.len() ==> (#[trigger] a[j]).mul_req(s)
}

/// `a` with each coordinate divided by `s`.
pub open spec fn divided<T: Div<Output = T>>(a: Seq<T>, s: T) -> Seq<T> {
    Seq::new(a.len(), |j: int| a[j].div_spec(s))
}

/// Whether each coordinate can be divided by `s`.
pub open spec fn divided_req<T: Div<Output = T>>(a: Seq<T>, s: T) -> bool {
    forall|j: int| 0 <= j < a.len() ==> (#[trigger] a[j]).div_req(s)
}

/// `a` with each coordinate negated.
pub open spec fn negated<T: Neg<Output = T>>(a: Seq<T>) -> Seq<T> {
    Seq::new(a.len(), |j: int| a[j].neg_spec())
}

/// Whether each coordinate can be negated.
pub open spec fn negated_req<T: Neg<Output = T>>(a: Seq<T>) -> bool {
    forall|j: int| 0 <= j < a.len() ==> (#[trigger] a[j]).neg_req()
}

/// Adds two coordinate arrays index by index.
pub fn add_arrays<T: Copy + Add<Output = T>, const N: usize>(a: [T; N], b: [T; N]) -> (r: [T; N])
    requires
        T::obeys_add_spec(),
        elementwise_add_req(a@, b@),
    ensures
        r@ == elementwise_add(a@, b@),
{
    let mut out = a;
    let mut i: usize = 0;
    while i < N
        invariant
            i <= N,
            T::obeys_add_spec(),
            elementwise_add_req(a@, b@),
            forall|j: int| i <= j < N ==> out@[j] == a@[j],
            forall|j: int| 0 <= j < i ==> out@[j] == a@[j].add_spec(b@[j]),
        decreases N - i,
    {
        assert(a@[i as int].add_req(b@[i as int]));
        out[i] = a[i] + b[i];
        i += 1;
    }
    assert(out@ =~= elementwise_add(a@, b@));
    out
}

/// Subtracts one coordinate array from another index by index.
pub fn sub_arrays<T: Copy + Sub<Output = T>, const N: usize>(a: [T; N], b: [T; N]) -> (r: [T; N])
    requires
        T::obeys_sub_spec(),
        elementwise_sub_req(a@, b@),
    ensures
        r@ == elementwise_sub(a@, b@),
{
    let mut out = a;
    let mut i: usize = 0;
    while i < N
        invariant
            i <= N,
            T::obeys_sub_spec(),
            elementwise_sub_req(a@, b@),
            forall|j: int| i <= j < N ==> out@[j] == a@[j],
            forall|j: int| 0 <= j < i ==> out@[j] == a@[j].sub_spec(b@[j]),
        decreases N - i,
    {
        assert(a@[i as int].sub_req(b@[i as int]));
        out[i] = a[i] - b[i];
        i += 1;
    }
    assert(out@ =~= elementwise_sub(a@, b@));
    out
}

/// Multiplies each coordinate by a scalar.
pub fn scale_array<T: Copy + Mul<Output = T>, const N: usize>(a: [T; N], s: T) -> (r: [T; N])
    requires
        T::obeys_mul_spec(),
        scaled_req(a@, s),
    ensures
        r@ == scaled(a@, s),
{
    let mut out = a;
    let mut i: usize = 0;
    while i < N
        invariant
            i <= N,
            T::obeys_mul_spec(),
            scaled_req(a@, s),
            forall|j: int| i <= j < N ==> out@[j] == a@[j],
            forall|j: int| 0 <= j < i ==> out@[j] == a@[j].mul_spec(s),
        decreases N - i,
    {
        assert(a@[i as int].mul_req(s));
        out[i] = a[i] * s;
        i += 1;
    }
    assert(out@ =~= scaled(a@, s));
    out
}

/// Divides each coordinate by a scalar.
pub fn divide_array<T: Copy + Div<Output = T>, const N: usize>(a: [T; N], s: T) -> (r: [T; N])
    requires
        T::obeys_div_spec(),
        divided_req(a@, s),
    ensures
        r@ == divided(a@, s),
{
    let mut out = a;
    let mut i: usize = 0;
    while i < N
        invariant
            i <= N,
            T::obeys_div_spec(),
            divided_req(a@, s),
            forall|j: int| i <= j < N ==> out@[j] == a@[j],
            forall|j: int| 0 <= j < i ==> out@[j] == a@[j].div_spec(s),
        decreases N - i,
    {
        assert(a@[i as int].div_req(s));
        out[i] = a[i] / s;
        i += 1;
    }
    assert(out@ =~= divided(a@, s));
    out
}

/// Negates each coordinate.
pub fn negate_array<T: Copy + Neg<Output = T>, const N: usize>(a: [T; N]) -> (r: [T; N])
    requires
        T::obeys_neg_spec(),
        negated_req(a@),
    ensures
        r@ == negated(a@),
{
    let mut out = a;
    let mut i: usize = 0;
    while i < N
        invariant
            i <= N,
            T::obeys_neg_spec(),
            negated_req(a@),
            forall|j: int| i <= j < N ==> out@[j] == a@[j],
            forall|j: int| 0 <= j < i ==> out@[j] == a@[j].neg_spec(),
        decreases N - i,
    {
        assert(a@[i as int].neg_req());
        out[i] = a[i].neg();
        i += 1;
    }
    assert(out@ =~= negated(a@));
    out
}

} // verus!

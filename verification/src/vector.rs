//! A Euclidean `Vector` in N-dimensional space.
//!
//! Each [Vector] holds one coordinate per dimension. Arithmetic is element-wise and is stated
//! over the operator specifications of the coordinate type, so the contracts below pin the
//! result down exactly for the integer types, whose operators vstd specifies.

use crate::elementwise::{
    add_arrays, divide_array, divided, divided_req, elementwise_add, elementwise_add_req, elementwise_sub,
    elementwise_sub_req, negate_array, negated, negated_req, scale_array, scaled, scaled_req, sub_arrays,
};
use core::ops::{Add, AddAssign, Deref, DerefMut, Div, DivAssign, Mul, MulAssign, Neg, Sub, SubAssign};
use vstd::prelude::*;
use vstd::std_specs::iter::IteratorSpec;
use vstd::std_specs::ops::{AddSpec, DivSpec, MulSpec, NegSpec, SubSpec};

verus! {

/// A Euclidean `Vector` in N-dimensional space.
#[derive(Debug, Copy, Clone, PartialEq)]
pub struct Vector<T, const N: usize>([T; N]);

/// A 1D `Vector` represented by integers.
pub type VectorI1 = Vector<i32, 1>;

/// A 2D `Vector` represented by integers.
pub type VectorI2 = Vector<i32, 2>;

/// A 3D `Vector` represented by integers.
pub type VectorI3 = Vector<i32, 3>;

impl<T, const N: usize> View for Vector<T, N> {
    type V = Seq<T>;

    /// The coordinates, in order.
    closed spec fn view(&self) -> Seq<T> {
        self.0@
    }
}

impl<T, const N: usize> Vector<T, N> {
    /// The vector whose coordinates are `s`, when `s` has `N` elements.
    pub closed spec fn from_seq(s: Seq<T>) -> Self {
        choose|v: Self| v@ == s
    }

    /// The coordinate array.
    pub closed spec fn array(self) -> [T; N] {
        self.0
    }

    /// Every vector has exactly `N` coordinates.
    pub proof fn lemma_len(self)
        ensures
            self@.len() == N,
    {
    }

    /// A vector is determined by its coordinates.
    pub proof fn lemma_view_injective(self, other: Self)
        requires
            self@ == other@,
        ensures
            self == other,
    {
        assert(self.0 =~= other.0);
    }

    /// The vector chosen for a coordinate sequence is the one that has it.
    pub proof fn lemma_from_seq(v: Self, s: Seq<T>)
        requires
            v@ == s,
        ensures
            Self::from_seq(s) == v,
    {
        let c = Self::from_seq(s);
        assert(c.0 =~= v.0);
    }

    /// Constructs a `Vector` from `[T; N]` coordinates.
    pub fn new(coords: [T; N]) -> (v: Self)
        ensures
            v@ == coords@,
    {
        Self(coords)
    }
}

impl<T: Copy + Default, const N: usize> Vector<T, N> {
    /// Constructs a `Vector` at the origin: every coordinate is `T::default()`.
    pub fn origin() -> (v: Self)
        ensures
            v@.len() == N,
            forall|i: int| 0 <= i < N ==> call_ensures(T::default, (), #[trigger] v@[i]),
            forall|i: int, j: int| 0 <= i < N && 0 <= j < N ==> v@[i] == v@[j],
    {
        let d = T::default();
        Self([d; N])
    }

    /// Returns the `x` coordinate, or `T::default()` for a vector with no dimensions.
    pub fn x(&self) -> (r: T)
        ensures
            N > 0 ==> r == self@[0],
            N == 0 ==> call_ensures(T::default, (), r),
    {
        if N > 0 {
            self.0[0]
        } else {
            T::default()
        }
    }

    /// Sets the `x` coordinate; a vector with no dimensions is left unchanged.
    pub fn set_x(&mut self, x: T)
        ensures
            N > 0 ==> final(self)@ == old(self)@.update(0, x),
            N == 0 ==> final(self)@ == old(self)@,
    {
        if N > 0 {
            self.0[0] = x;
        }
    }

    /// Returns the `y` coordinate, or `T::default()` for a vector of fewer than 2 dimensions.
    pub fn y(&self) -> (r: T)
        ensures
            N > 1 ==> r == self@[1],
            N <= 1 ==> call_ensures(T::default, (), r),
    {
        if N > 1 {
            self.0[1]
        } else {
            T::default()
        }
    }

    /// Sets the `y` coordinate; a vector of fewer than 2 dimensions is left unchanged.
    pub fn set_y(&mut self, y: T)
        ensures
            N > 1 ==> final(self)@ == old(self)@.update(1, y),
            N <= 1 ==> final(self)@ == old(self)@,
    {
        if N > 1 {
            self.0[1] = y;
        }
    }

    /// Returns the `z` coordinate, or `T::default()` for a vector of fewer than 3 dimensions.
    pub fn z(&self) -> (r: T)
        ensures
            N > 2 ==> r == self@[2],
            N <= 2 ==> call_ensures(T::default, (), r),
    {
        if N > 2 {
            self.0[2]
        } else {
            T::default()
        }
    }

    /// Sets the `z` coordinate; a vector of fewer than 3 dimensions is left unchanged.
    pub fn set_z(&mut self, z: T)
        ensures
            N > 2 ==> final(self)@ == old(self)@.update(2, z),
            N <= 2 ==> final(self)@ == old(self)@,
    {
        if N > 2 {
            self.0[2] = z;
        }
    }
}

impl<T: Copy, const N: usize> Vector<T, N> {
    /// Returns the coordinates as `[T; N]`.
    pub fn values(&self) -> (r: [T; N])
        ensures
            r@ == self@,
    {
        self.0
    }

    /// Replaces all coordinates.
    pub fn set_values(&mut self, coords: [T; N])
        ensures
            final(self)@ == coords@,
    {
        self.0 = coords;
    }

    /// Returns the coordinates as a [Vec].
    pub fn to_vec(self) -> (r: Vec<T>)
        ensures
            r@ == self@,
    {
        let mut r: Vec<T> = Vec::new();
        let mut i: usize = 0;
        while i < N
            invariant
                i <= N,
                self@.len() == N,
                r@ == self@.subrange(0, i as int),
            decreases N - i,
        {
            r.push(self.0[i]);
            i += 1;
        }
        assert(r@ =~= self@);
        r
    }
}

/// A machine index as an exact integer.
pub open spec fn idx(u: usize) -> int {
    u as int
}

/// The sum of the products of the first `n` pairs of coordinates, added from the first on.
pub open spec fn dot_prefix<T: Copy + Default + Add<Output = T> + Mul<Output = T>>(
    zero: T,
    a: Seq<T>,
    b: Seq<T>,
    n: int,
) -> T
    decreases n,
{
    if n <= 0 {
        zero
    } else {
        dot_prefix(zero, a, b, n - 1).add_spec(a[n - 1].mul_spec(b[n - 1]))
    }
}

/// Whether every product and every partial sum of a dot product starting from `zero` can be
/// computed.
pub open spec fn dot_req<T: Copy + Default + Add<Output = T> + Mul<Output = T>>(
    zero: T,
    a: Seq<T>,
    b: Seq<T>,
) -> bool {
    forall|k: int|
        #![trigger a[k]]
        0 <= k < a.len() ==> a[k].mul_req(b[k]) && dot_prefix(zero, a, b, k).add_req(
            a[k].mul_spec(b[k]),
        )
}

impl<T: Copy + Add<Output = T>, const N: usize> Vector<T, N> {
    /// Shifts the first `M` coordinates by the given offsets.
    pub fn offset<const M: usize>(&mut self, offsets: [T; M])
        requires
            M <= N,
            T::obeys_add_spec(),
            elementwise_add_req(old(self)@.subrange(0, M as int), offsets@),
        ensures
            final(self)@ == elementwise_add(
                old(self)@.subrange(0, M as int),
                offsets@,
            ) + old(self)@.subrange(M as int, N as int),
    {
        let ghost start = self@;
        let mut i: usize = 0;
        while i < M
            invariant
                i <= M <= N,
                start.len() == N,
                self@.len() == N,
                T::obeys_add_spec(),
                elementwise_add_req(start.subrange(0, M as int), offsets@),
                forall|j: int| i <= j < N ==> self@[j] == start[j],
                forall|j: int|
                    0 <= j < i ==> self@[j] == start[j].add_spec(offsets@[j]),
            decreases M - i,
        {
            assert(start.subrange(0, M as int)[i as int] == start[i as int]);
            assert(start[i as int].add_req(offsets@[i as int]));
            self.0[i] = self.0[i] + offsets[i];
            i += 1;
        }
        assert(self@ =~= elementwise_add(start.subrange(0, M as int), offsets@) + start.subrange(
            M as int,
            N as int,
        ));
    }
}

impl<T: Copy + Mul<Output = T>, const N: usize> Vector<T, N> {
    /// Multiplies every coordinate by the scale factor `s`.
    pub fn scale(&mut self, s: T)
        requires
            T::obeys_mul_spec(),
            scaled_req(old(self)@, s),
        ensures
            final(self)@ == scaled(old(self)@, s),
    {
        self.0 = scale_array(self.0, s);
    }
}

impl<T: Copy + Mul<Output = T> + Sub<Output = T>> Vector<T, 3> {
    /// The products that the cross product of `a` and `b` is built from, as
    /// `(y1 z2, z1 y2, z1 x2, x1 z2, x1 y2, y1 x2)`.
    pub open spec fn cross_products(a: Seq<T>, b: Seq<T>) -> (T, T, T, T, T, T) {
        (
            a[1].mul_spec(b[2]),
            a[2].mul_spec(b[1]),
            a[2].mul_spec(b[0]),
            a[0].mul_spec(b[2]),
            a[0].mul_spec(b[1]),
            a[1].mul_spec(b[0]),
        )
    }

    /// The cross product of two 3D coordinate sequences.
    pub open spec fn cross_spec(a: Seq<T>, b: Seq<T>) -> Seq<T> {
        let p = Self::cross_products(a, b);
        seq![p.0.sub_spec(p.1), p.2.sub_spec(p.3), p.4.sub_spec(p.5)]
    }

    /// Whether every product and difference of a cross product can be computed.
    pub open spec fn cross_req(a: Seq<T>, b: Seq<T>) -> bool {
        let p = Self::cross_products(a, b);
        &&& a[1].mul_req(b[2]) && a[2].mul_req(b[1]) && p.0.sub_req(p.1)
        &&& a[2].mul_req(b[0]) && a[0].mul_req(b[2]) && p.2.sub_req(p.3)
        &&& a[0].mul_req(b[1]) && a[1].mul_req(b[0]) && p.4.sub_req(p.5)
    }

    /// Returns the cross product between two 3D `Vector`s.
    pub fn cross(&self, v: Self) -> (r: Self)
        requires
            T::obeys_mul_spec(),
            T::obeys_sub_spec(),
            Self::cross_req(self@, v@),
        ensures
            r@ == Self::cross_spec(self@, v@),
    {
        let a = self.0;
        let b = v.0;
        let r = Self([a[1] * b[2] - a[2] * b[1], a[2] * b[0] - a[0] * b[2], a[0] * b[1] - a[1] * b[0]]);
        assert(r@ =~= Self::cross_spec(self@, v@));
        r
    }
}

impl<T: Copy + Default + Add<Output = T> + Mul<Output = T>, const N: usize> Vector<T, N> {
    /// Returns the dot product between two `Vector`s, summed from `T::default()` in coordinate
    /// order.
    pub fn dot(&self, v: Self) -> (r: T)
        requires
            T::obeys_add_spec(),
            T::obeys_mul_spec(),
            forall|zero: T| call_ensures(T::default, (), zero) ==> dot_req(zero, self@, v@),
        ensures
            exists|zero: T|
                call_ensures(T::default, (), zero) && r == dot_prefix(zero, self@, v@, N as int),
    {
        let zero = T::default();
        let mut sum = zero;
        let mut i: usize = 0;
        while i < N
            invariant
                i <= N,
                self@.len() == N,
                v@.len() == N,
                T::obeys_add_spec(),
                T::obeys_mul_spec(),
                dot_req(zero, self@, v@),
                sum == dot_prefix(
                    zero,
                    self@,
                    v@,
                    i as int,
                ),
            decreases N - i,
        {
            assert(self@[i as int].mul_req(v@[i as int]));
            let p = self.0[i] * v.0[i];
            assert(sum.add_req(p));
            sum = sum + p;
            i += 1;
        }
        sum
    }
}

impl<T: Copy + Default, const N: usize> Default for Vector<T, N> {
    /// The origin.
    fn default() -> (v: Self)
        ensures
            forall|i: int| 0 <= i < N ==> call_ensures(T::default, (), #[trigger] v@[i]),
    {
        Self::origin()
    }
}

impl<T, const N: usize> Deref for Vector<T, N> {
    type Target = [T; N];

    /// The coordinate array.
    fn deref(&self) -> (r: &[T; N])
        ensures
            r@ == self@,
    {
        &self.0
    }
}

impl<T, const N: usize> DerefMut for Vector<T, N> {
    /// The coordinate array, to change in place.
    fn deref_mut(&mut self) -> (r: &mut [T; N])
        ensures
            r@ == old(self)@,
            final(self)@ == final(r)@,
    {
        &mut self.0
    }
}

impl<T, const N: usize> From<[T; N]> for Vector<T, N> {
    /// Convert `[T; N]` to `Vector`.
    fn from(arr: [T; N]) -> (v: Self)
        ensures
            v@ == arr@,
    {
        let v = Self(arr);
        proof {
            Self::lemma_from_seq(v, arr@);
        }
        v
    }
}

impl<T, const N: usize> vstd::std_specs::convert::FromSpecImpl<[T; N]> for Vector<T, N> {
    open spec fn obeys_from_spec() -> bool {
        true
    }

    open spec fn from_spec(arr: [T; N]) -> Self {
        Self::from_seq(arr@)
    }
}

impl<T, const N: usize> From<Vector<T, N>> for [T; N] {
    /// Convert [Vector] to `[T; N]`.
    fn from(v: Vector<T, N>) -> (r: [T; N])
        ensures
            r@ == v@,
    {
        v.0
    }
}

impl<T, const N: usize> vstd::std_specs::convert::FromSpecImpl<Vector<T, N>> for [T; N] {
    open spec fn obeys_from_spec() -> bool {
        true
    }

    open spec fn from_spec(v: Vector<T, N>) -> [T; N] {
        v.array()
    }
}

impl<T: Copy + Add<Output = T>, const N: usize> Add for Vector<T, N> {
    type Output = Self;

    /// [Vector] + [Vector] yields a [Vector].
    fn add(self, v: Self) -> (r: Self)
        ensures
            r@ == elementwise_add(self@, v@),
    {
        let r = Self(add_arrays(self.0, v.0));
        proof {
            Self::lemma_from_seq(r, r@);
        }
        r
    }
}

impl<T: Copy + Add<Output = T>, const N: usize> vstd::std_specs::ops::AddSpecImpl for Vector<T, N> {
    open spec fn obeys_add_spec() -> bool {
        T::obeys_add_spec()
    }

    open spec fn add_req(self, v: Self) -> bool {
        T::obeys_add_spec() && elementwise_add_req(self@, v@)
    }

    open spec fn add_spec(self, v: Self) -> Self {
        Self::from_seq(elementwise_add(self@, v@))
    }
}

impl<T: Copy + Sub<Output = T>, const N: usize> Sub for Vector<T, N> {
    type Output = Self;

    /// [Vector] - [Vector] yields a [Vector].
    fn sub(self, v: Self) -> (r: Self)
        ensures
            r@ == elementwise_sub(self@, v@),
    {
        let r = Self(sub_arrays(self.0, v.0));
        proof {
            Self::lemma_from_seq(r, r@);
        }
        r
    }
}

impl<T: Copy + Sub<Output = T>, const N: usize> vstd::std_specs::ops::SubSpecImpl for Vector<T, N> {
    open spec fn obeys_sub_spec() -> bool {
        T::obeys_sub_spec()
    }

    open spec fn sub_req(self, v: Self) -> bool {
        T::obeys_sub_spec() && elementwise_sub_req(self@, v@)
    }

    open spec fn sub_spec(self, v: Self) -> Self {
        Self::from_seq(elementwise_sub(self@, v@))
    }
}

impl<T: Copy + Mul<Output = T>, const N: usize> Mul<T> for Vector<T, N> {
    type Output = Self;

    /// [Vector] * T.
    fn mul(self, s: T) -> (r: Self)
        ensures
            r@ == scaled(self@, s),
    {
        let r = Self(scale_array(self.0, s));
        proof {
            Self::lemma_from_seq(r, r@);
        }
        r
    }
}

impl<T: Copy + Mul<Output = T>, const N: usize> vstd::std_specs::ops::MulSpecImpl<T> for Vector<T, N> {
    open spec fn obeys_mul_spec() -> bool {
        T::obeys_mul_spec()
    }

    open spec fn mul_req(self, s: T) -> bool {
        T::obeys_mul_spec() && scaled_req(self@, s)
    }

    open spec fn mul_spec(self, s: T) -> Self {
        Self::from_seq(scaled(self@, s))
    }
}

impl<T: Copy + Div<Output = T>, const N: usize> Div<T> for Vector<T, N> {
    type Output = Self;

    /// [Vector] / T.
    fn div(self, s: T) -> (r: Self)
        ensures
            r@ == divided(self@, s),
    {
        let r = Self(divide_array(self.0, s));
        proof {
            Self::lemma_from_seq(r, r@);
        }
        r
    }
}

impl<T: Copy + Div<Output = T>, const N: usize> vstd::std_specs::ops::DivSpecImpl<T> for Vector<T, N> {
    open spec fn obeys_div_spec() -> bool {
        T::obeys_div_spec()
    }

    open spec fn div_req(self, s: T) -> bool {
        T::obeys_div_spec() && divided_req(self@, s)
    }

    open spec fn div_spec(self, s: T) -> Self {
        Self::from_seq(divided(self@, s))
    }
}

impl<T: Copy + Neg<Output = T>, const N: usize> Neg for Vector<T, N> {
    type Output = Self;

    /// The vector with every coordinate negated.
    fn neg(self) -> (r: Self)
        ensures
            r@ == negated(self@),
    {
        let r = Self(negate_array(self.0));
        proof {
            Self::lemma_from_seq(r, r@);
        }
        r
    }
}

impl<T: Copy + Neg<Output = T>, const N: usize> vstd::std_specs::ops::NegSpecImpl for Vector<T, N> {
    open spec fn obeys_neg_spec() -> bool {
        T::obeys_neg_spec()
    }

    open spec fn neg_req(self) -> bool {
        T::obeys_neg_spec() && negated_req(self@)
    }

    open spec fn neg_spec(self) -> Self {
        Self::from_seq(negated(self@))
    }
}

impl<T: Copy + Add<Output = T>, const N: usize> AddAssign for Vector<T, N> {
    /// [Vector] += [Vector].
    fn add_assign(&mut self, v: Self)
        requires
            T::obeys_add_spec(),
            elementwise_add_req(old(self)@, v@),
        ensures
            final(self)@ == elementwise_add(old(self)@, v@),
    {
        self.0 = add_arrays(self.0, v.0);
    }
}


impl<T: Copy + Sub<Output = T>, const N: usize> SubAssign for Vector<T, N> {
    /// [Vector] -= [Vector].
    fn sub_assign(&mut self, v: Self)
        requires
            T::obeys_sub_spec(),
            elementwise_sub_req(old(self)@, v@),
        ensures
            final(self)@ == elementwise_sub(old(self)@, v@),
    {
        self.0 = sub_arrays(self.0, v.0);
    }
}

impl<T: Copy + Mul<Output = T>, const N: usize> MulAssign<T> for Vector<T, N> {
    /// [Vector] *= T.
    fn mul_assign(&mut self, s: T)
        requires
            T::obeys_mul_spec(),
            scaled_req(old(self)@, s),
        ensures
            final(self)@ == scaled(old(self)@, s),
    {
        self.0 = scale_array(self.0, s);
    }
}

impl<T: Copy + Div<Output = T>, const N: usize> DivAssign<T> for Vector<T, N> {
    /// [Vector] /= T.
    fn div_assign(&mut self, s: T)
        requires
            T::obeys_div_spec(),
            divided_req(old(self)@, s),
        ensures
            final(self)@ == divided(old(self)@, s),
    {
        self.0 = divide_array(self.0, s);
    }
}

impl<T: Copy + Default + Add<Output = T> + Mul<Output = T>, const N: usize> Vector<T, N> {
    /// Returns the squared magnitude (length) of the `Vector`: its dot product with itself.
    pub fn mag_sq(&self) -> (r: T)
        requires
            T::obeys_add_spec(),
            T::obeys_mul_spec(),
            forall|zero: T| call_ensures(T::default, (), zero) ==> dot_req(zero, self@, self@),
        ensures
            exists|zero: T|
                call_ensures(T::default, (), zero) && r == dot_prefix(zero, self@, self@, N as int),
    {
        self.dot(*self)
    }
}

impl<const N: usize> Vector<i32, N> {
    /// Wraps each coordinate around the bounds `[-size, wrap[i] + size]`: a coordinate past the
    /// upper bound moves to `-size`, one below the lower bound moves to `wrap[i] + size`.
    pub fn wrap(&mut self, wrap: [i32; N], size: i32)
        requires
            forall|j: int| 0 <= j < N ==> i32::MIN <= #[trigger] wrap@[j] + size <= i32::MAX,
            size != i32::MIN,
        ensures
            final(self)@.len() == N,
            forall|j: int|
                #![trigger final(self)@[j]]
                0 <= j < N ==> final(self)@[j] as int == (if old(self)@[j] > wrap@[j] + size {
                    -size
                } else if old(self)@[j] < -size {
                    wrap@[j] + size
                } else {
                    old(self)@[j] as int
                }),
    {
        let ghost start = self@;
        let mut i: usize = 0;
        while i < N
            invariant
                i <= N,
                start.len() == N,
                self@.len() == N,
                size != i32::MIN,
                forall|j: int| 0 <= j < N ==> i32::MIN <= #[trigger] wrap@[j] + size <= i32::MAX,
                forall|j: int| i <= j < N ==> self@[j] == start[j],
                forall|j: int|
                    #![trigger self@[j]]
                    0 <= j < i ==> self@[j] as int == (if start[j] > wrap@[j] + size {
                        -size
                    } else if start[j] < -size {
                        wrap@[j] + size
                    } else {
                        start[j] as int
                    }),
            decreases N - i,
        {
            assert(i32::MIN <= wrap@[i as int] + size <= i32::MAX);
            if self.0[i] > wrap[i] + size {
                self.0[i] = -size;
            } else if self.0[i] < -size {
                self.0[i] = wrap[i] + size;
            }
            i += 1;
        }
    }
}
impl<T: Copy + Default, const N: usize> Vector<T, N> {
    /// Constructs a `Vector` from the first `N` items `iter` yields, and `T::default()` for
    /// each one it runs short of.
    pub fn from_items<It: Iterator<Item = T>>(iter: &mut It) -> (v: Self)
        ensures
            (*old(iter)).obeys_prophetic_iter_laws() ==> forall|i: int|
                0 <= i < N ==> {
                    &&& i < (*old(iter)).remaining().len() ==> #[trigger] v@[i] == (*old(iter)).remaining()[i]
                    &&& i >= (*old(iter)).remaining().len() ==> call_ensures(T::default, (), v@[i])
                },
    {
        let ghost start = (*old(iter)).remaining();
        let ghost laws = (*old(iter)).obeys_prophetic_iter_laws();
        let mut v = Self::origin();
        let mut i: usize = 0;
        while i < N
            invariant
                i <= N,
                v@.len() == N,
                laws == (*iter).obeys_prophetic_iter_laws(),
                laws ==> (*iter).remaining() == (if i <= start.len() { start.skip(i as int) } else { Seq::empty() }),
                laws ==> forall|j: int| 0 <= j < i && j < start.len() ==> #[trigger] v@[j] == start[j],
                forall|j: int| i <= j < N ==> call_ensures(T::default, (), #[trigger] v@[j]),
                laws ==> forall|j: int| 0 <= j < i && j >= start.len() ==> call_ensures(T::default, (), #[trigger] v@[j]),
            decreases N - i,
        {
            let item = next_or_default(iter);
            v.0[i] = item;
            i += 1;
        }
        v
    }
}

/// Takes the next item of `iter`, or `T::default()` when it has run out.
pub fn next_or_default<T: Default, It: Iterator<Item = T>>(iter: &mut It) -> (r: T)
    ensures
        (*final(iter)).obeys_prophetic_iter_laws() == (*old(iter)).obeys_prophetic_iter_laws(),
        (*old(iter)).obeys_prophetic_iter_laws() ==> if (*old(iter)).remaining().len() > 0 {
            &&& r == (*old(iter)).remaining()[0]
            &&& (*final(iter)).remaining() == (*old(iter)).remaining().drop_first()
        } else {
            &&& call_ensures(T::default, (), r)
            &&& (*final(iter)).remaining() == (*old(iter)).remaining()
        },
{
    match It::next(iter) {
        Some(item) => item,
        None => T::default(),
    }
}

impl<T: Default, const N: usize> core::iter::FromIterator<T> for Vector<T, N> {
    /// `IntoIterator::into_iter`, then `core::array::from_fn`, which calls its closure for the
    /// indices `0..N` in order: each coordinate is [`next_or_default`] of the iterator, so the
    /// vector holds the first `N` items and `T::default()` for each one the iterator runs short
    /// of, as [`Vector::from_items`] states.
    #[verifier::external_body]
    fn from_iter<I: IntoIterator<Item = T>>(iter: I) -> Self {
        let mut it = iter.into_iter();
        Self(core::array::from_fn(|_| next_or_default(&mut it)))
    }
}

} // verus!

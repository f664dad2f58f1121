//! Points and rectangles, and the containment test shared by shapes.

use crate::elementwise::{
    add_arrays, elementwise_add, elementwise_add_req, elementwise_sub, elementwise_sub_req,
    negate_array, negated, negated_req, sub_arrays,
};
use crate::arith::trunc_div;
use crate::vector::Vector;
use core::ops::{Add, AddAssign, Deref, DerefMut, Neg, Sub, SubAssign};
use vstd::prelude::*;
use vstd::std_specs::iter::IteratorSpec;
use crate::vector::next_or_default;
use vstd::std_specs::ops::{AddSpec, NegSpec, SubSpec};

verus! {

/// A `Point` in N-dimensional space.
#[derive(Debug, Copy, Clone, PartialEq, Eq, Hash)]
pub struct Point<T, const N: usize>([T; N]);

/// A 2D `Point` represented by integers.
pub type PointI2 = Point<i32, 2>;

/// A 3D `Point` represented by integers.
pub type PointI3 = Point<i32, 3>;

impl<T, const N: usize> View for Point<T, N> {
    type V = Seq<T>;

    /// The coordinates, in order.
    closed spec fn view(&self) -> Seq<T> {
        self.0@
    }
}

impl<T, const N: usize> Point<T, N> {
    /// The point whose coordinates are `s`, when `s` has `N` elements.
    pub closed spec fn from_seq(s: Seq<T>) -> Self {
        choose|p: Self| p@ == s
    }

    /// The coordinate array.
    pub closed spec fn array(self) -> [T; N] {
        self.0
    }

    /// Every point has exactly `N` coordinates.
    pub proof fn lemma_len(self)
        ensures
            self@.len() == N,
    {
    }

    /// A point is determined by its coordinates.
    pub proof fn lemma_view_injective(self, other: Self)
        requires
            self@ == other@,
        ensures
            self == other,
    {
        assert(self.0 =~= other.0);
    }

    /// The point chosen for a coordinate sequence is the one that has it.
    pub proof fn lemma_from_seq(p: Self, s: Seq<T>)
        requires
            p@ == s,
        ensures
            Self::from_seq(s) == p,
    {
        let c = Self::from_seq(s);
        assert(c.0 =~= p.0);
    }

    /// Constructs a `Point` from `[T; N]` coordinates.
    pub fn new(coords: [T; N]) -> (p: Self)
        ensures
            p@ == coords@,
    {
        Self(coords)
    }
}

impl<T: Copy + Default, const N: usize> Point<T, N> {
    /// Constructs a `Point` at the origin: every coordinate is `T::default()`.
    pub fn origin() -> (p: Self)
        ensures
            p@.len() == N,
            forall|i: int| 0 <= i < N ==> call_ensures(T::default, (), #[trigger] p@[i]),
            forall|i: int, j: int| 0 <= i < N && 0 <= j < N ==> p@[i] == p@[j],
    {
        let d = T::default();
        Self([d; N])
    }

    /// Constructs a `Point` from the coordinates of a [Vector].
    pub fn from_vector(v: Vector<T, N>) -> (p: Self)
        ensures
            p@ == v@,
    {
        Self(v.values())
    }

    /// Returns the `x` coordinate, or `T::default()` for a point with no dimensions.
    pub fn x(&self) -> (r: T)
        ensures
            N > 0 ==> r == self@[0],
            N == 0 ==> call_ensures(T::default, (), r),
    {
        if N > 0 {
            self.0[0]
        } else {
            T::default()
        }
    }

    /// Sets the `x` coordinate; a point with no dimensions is left unchanged.
    pub fn set_x(&mut self, x: T)
        ensures
            N > 0 ==> final(self)@ == old(self)@.update(0, x),
            N == 0 ==> final(self)@ == old(self)@,
    {
        if N > 0 {
            self.0[0] = x;
        }
    }

    /// Returns the `y` coordinate, or `T::default()` for a point of fewer than 2 dimensions.
    pub fn y(&self) -> (r: T)
        ensures
            N > 1 ==> r == self@[1],
            N <= 1 ==> call_ensures(T::default, (), r),
    {
        if N > 1 {
            self.0[1]
        } else {
            T::default()
        }
    }

    /// Sets the `y` coordinate; a point of fewer than 2 dimensions is left unchanged.
    pub fn set_y(&mut self, y: T)
        ensures
            N > 1 ==> final(self)@ == old(self)@.update(1, y),
            N <= 1 ==> final(self)@ == old(self)@,
    {
        if N > 1 {
            self.0[1] = y;
        }
    }

    /// Returns the `z` coordinate, or `T::default()` for a point of fewer than 3 dimensions.
    pub fn z(&self) -> (r: T)
        ensures
            N > 2 ==> r == self@[2],
            N <= 2 ==> call_ensures(T::default, (), r),
    {
        if N > 2 {
            self.0[2]
        } else {
            T::default()
        }
    }

    /// Sets the `z` coordinate; a point of fewer than 3 dimensions is left unchanged.
    pub fn set_z(&mut self, z: T)
        ensures
            N > 2 ==> final(self)@ == old(self)@.update(2, z),
            N <= 2 ==> final(self)@ == old(self)@,
    {
        if N > 2 {
            self.0[2] = z;
        }
    }

    /// Returns the coordinates as `[T; N]`.
    pub fn coords(&self) -> (r: [T; N])
        ensures
            r@ == self@,
    {
        self.0
    }

    /// Returns the coordinates as `[T; N]`.
    pub fn values(&self) -> (r: [T; N])
        ensures
            r@ == self@,
    {
        self.0
    }

    /// Replaces all coordinates.
    pub fn set_coords(&mut self, coords: [T; N])
        ensures
            final(self)@ == coords@,
    {
        self.0 = coords;
    }
}

impl<T: Copy + Add<Output = T>, const N: usize> Point<T, N> {
    /// Shifts the first `M` coordinates by the given offsets.
    pub fn offset<const M: usize>(&mut self, offsets: [T; M])
        requires
            M <= N,
            T::obeys_add_spec(),
            elementwise_add_req(old(self)@.subrange(0, M as int), offsets@),
        ensures
            final(self)@ == elementwise_add(old(self)@.subrange(0, M as int), offsets@)
                + old(self)@.subrange(M as int, N as int),
    {
        let ghost start = self@;
        let mut i: usize = 0;
        while i < M
            invariant
                i <= M <= N,
                start.len() == N,
                self@.len() == N,
                T::obeys_add_spec(),
                elementwise_add_req(start.subrange(0, M as int), offsets@),
                forall|j: int| i <= j < N ==> self@[j] == start[j],
                forall|j: int| 0 <= j < i ==> self@[j] == start[j].add_spec(offsets@[j]),
            decreases M - i,
        {
            assert(start.subrange(0, M as int)[i as int] == start[i as int]);
            assert(start[i as int].add_req(offsets@[i as int]));
            self.0[i] = self.0[i] + offsets[i];
            i += 1;
        }
        assert(self@ =~= elementwise_add(start.subrange(0, M as int), offsets@) + start.subrange(
            M as int,
            N as int,
        ));
    }

    /// Shifts the `x` coordinate; a point with no dimensions is left unchanged.
    pub fn offset_x(&mut self, offset: T)
        requires
            T::obeys_add_spec(),
            N > 0 ==> old(self)@[0].add_req(offset),
        ensures
            N > 0 ==> final(self)@ == old(self)@.update(0, old(self)@[0].add_spec(offset)),
            N == 0 ==> final(self)@ == old(self)@,
    {
        if N > 0 {
            self.0[0] = self.0[0] + offset;
        }
    }

    /// Shifts the `y` coordinate; a point of fewer than 2 dimensions is left unchanged.
    pub fn offset_y(&mut self, offset: T)
        requires
            T::obeys_add_spec(),
            N > 1 ==> old(self)@[1].add_req(offset),
        ensures
            N > 1 ==> final(self)@ == old(self)@.update(1, old(self)@[1].add_spec(offset)),
            N <= 1 ==> final(self)@ == old(self)@,
    {
        if N > 1 {
            self.0[1] = self.0[1] + offset;
        }
    }
}

impl<T: Copy + Default, const N: usize> Default for Point<T, N> {
    /// The origin.
    fn default() -> (p: Self)
        ensures
            forall|i: int| 0 <= i < N ==> call_ensures(T::default, (), #[trigger] p@[i]),
    {
        Self::origin()
    }
}

impl<T, const N: usize> Deref for Point<T, N> {
    type Target = [T; N];

    /// The coordinate array.
    fn deref(&self) -> (r: &[T; N])
        ensures
            r@ == self@,
    {
        &self.0
    }
}

impl<T, const N: usize> DerefMut for Point<T, N> {
    /// The coordinate array, to change in place.
    fn deref_mut(&mut self) -> (r: &mut [T; N])
        ensures
            r@ == old(self)@,
            final(self)@ == final(r)@,
    {
        &mut self.0
    }
}

impl<T, const N: usize> From<[T; N]> for Point<T, N> {
    /// Converts `[T; N]` to a `Point`.
    fn from(arr: [T; N]) -> (p: Self)
        ensures
            p@ == arr@,
    {
        let p = Self(arr);
        proof {
            Self::lemma_from_seq(p, arr@);
        }
        p
    }
}

impl<T, const N: usize> vstd::std_specs::convert::FromSpecImpl<[T; N]> for Point<T, N> {
    open spec fn obeys_from_spec() -> bool {
        true
    }

    open spec fn from_spec(arr: [T; N]) -> Self {
        Self::from_seq(arr@)
    }
}

impl<T, const N: usize> From<Point<T, N>> for [T; N] {
    /// Converts a `Point` to `[T; N]`.
    fn from(p: Point<T, N>) -> (r: [T; N])
        ensures
            r@ == p@,
    {
        p.0
    }
}

impl<T, const N: usize> vstd::std_specs::convert::FromSpecImpl<Point<T, N>> for [T; N] {
    open spec fn obeys_from_spec() -> bool {
        true
    }

    open spec fn from_spec(p: Point<T, N>) -> [T; N] {
        p.array()
    }
}

impl<T: Copy + Default, const N: usize> From<Vector<T, N>> for Point<T, N> {
    /// Converts a [Vector] to a `Point` with the same coordinates.
    fn from(v: Vector<T, N>) -> (p: Self)
        ensures
            p@ == v@,
    {
        let p = Self(v.values());
        proof {
            Self::lemma_from_seq(p, v@);
        }
        p
    }
}

impl<T: Copy + Default, const N: usize> vstd::std_specs::convert::FromSpecImpl<Vector<T, N>> for Point<T, N> {
    open spec fn obeys_from_spec() -> bool {
        true
    }

    open spec fn from_spec(v: Vector<T, N>) -> Self {
        Self::from_seq(v@)
    }
}

impl<T: Copy + Default, const N: usize> From<Point<T, N>> for Vector<T, N> {
    /// Converts a `Point` to a [Vector] with the same coordinates.
    fn from(p: Point<T, N>) -> (v: Self)
        ensures
            v@ == p@,
    {
        let v = Vector::new(p.0);
        proof {
            Vector::lemma_from_seq(v, p@);
        }
        v
    }
}

impl<T: Copy + Default, const N: usize> vstd::std_specs::convert::FromSpecImpl<Point<T, N>> for Vector<T, N> {
    open spec fn obeys_from_spec() -> bool {
        true
    }

    open spec fn from_spec(p: Point<T, N>) -> Self {
        Vector::from_seq(p@)
    }
}

impl<T: Copy + Add<Output = T>, const N: usize> Add<Vector<T, N>> for Point<T, N> {
    type Output = Point<T, N>;

    /// [Point] + [Vector] yields a [Point].
    fn add(self, v: Vector<T, N>) -> (r: Self)
        ensures
            r@ == elementwise_add(self@, v@),
    {
        let r = Self(add_arrays(self.0, v.values()));
        proof {
            Self::lemma_from_seq(r, r@);
        }
        r
    }
}

impl<T: Copy + Add<Output = T>, const N: usize> vstd::std_specs::ops::AddSpecImpl<Vector<T, N>> for Point<T, N> {
    open spec fn obeys_add_spec() -> bool {
        T::obeys_add_spec()
    }

    open spec fn add_req(self, v: Vector<T, N>) -> bool {
        T::obeys_add_spec() && elementwise_add_req(self@, v@)
    }

    open spec fn add_spec(self, v: Vector<T, N>) -> Self {
        Self::from_seq(elementwise_add(self@, v@))
    }
}

impl<T: Copy + Sub<Output = T>, const N: usize> Sub for Point<T, N> {
    type Output = Vector<T, N>;

    /// [Point] - [Point] yields a [Vector].
    fn sub(self, p: Self) -> (r: Vector<T, N>)
        ensures
            r@ == elementwise_sub(self@, p@),
    {
        let r = Vector::new(sub_arrays(self.0, p.0));
        proof {
            Vector::lemma_from_seq(r, r@);
        }
        r
    }
}

impl<T: Copy + Sub<Output = T>, const N: usize> vstd::std_specs::ops::SubSpecImpl for Point<T, N> {
    open spec fn obeys_sub_spec() -> bool {
        T::obeys_sub_spec()
    }

    open spec fn sub_req(self, p: Self) -> bool {
        T::obeys_sub_spec() && elementwise_sub_req(self@, p@)
    }

    open spec fn sub_spec(self, p: Self) -> Vector<T, N> {
        Vector::from_seq(elementwise_sub(self@, p@))
    }
}

impl<T: Copy + Sub<Output = T>, const N: usize> Sub<Vector<T, N>> for Point<T, N> {
    type Output = Point<T, N>;

    /// [Point] - [Vector] yields a [Point].
    fn sub(self, v: Vector<T, N>) -> (r: Self)
        ensures
            r@ == elementwise_sub(self@, v@),
    {
        let r = Self(sub_arrays(self.0, v.values()));
        proof {
            Self::lemma_from_seq(r, r@);
        }
        r
    }
}

impl<T: Copy + Sub<Output = T>, const N: usize> vstd::std_specs::ops::SubSpecImpl<Vector<T, N>> for Point<T, N> {
    open spec fn obeys_sub_spec() -> bool {
        T::obeys_sub_spec()
    }

    open spec fn sub_req(self, v: Vector<T, N>) -> bool {
        T::obeys_sub_spec() && elementwise_sub_req(self@, v@)
    }

    open spec fn sub_spec(self, v: Vector<T, N>) -> Self {
        Self::from_seq(elementwise_sub(self@, v@))
    }
}

impl<T: Copy + Neg<Output = T>, const N: usize> Neg for Point<T, N> {
    type Output = Self;

    /// The point with every coordinate negated.
    fn neg(self) -> (r: Self)
        ensures
            r@ == negated(self@),
    {
        let r = Self(negate_array(self.0));
        proof {
            Self::lemma_from_seq(r, r@);
        }
        r
    }
}

impl<T: Copy + Neg<Output = T>, const N: usize> vstd::std_specs::ops::NegSpecImpl for Point<T, N> {
    open spec fn obeys_neg_spec() -> bool {
        T::obeys_neg_spec()
    }

    open spec fn neg_req(self) -> bool {
        T::obeys_neg_spec() && negated_req(self@)
    }

    open spec fn neg_spec(self) -> Self {
        Self::from_seq(negated(self@))
    }
}

impl<T: Copy + Add<Output = T>, const N: usize> AddAssign<Vector<T, N>> for Point<T, N> {
    /// [Point] += [Vector].
    fn add_assign(&mut self, v: Vector<T, N>)
        requires
            T::obeys_add_spec(),
            elementwise_add_req(old(self)@, v@),
        ensures
            final(self)@ == elementwise_add(old(self)@, v@),
    {
        self.0 = add_arrays(self.0, v.values());
    }
}

impl<T: Copy + Sub<Output = T>, const N: usize> SubAssign<Vector<T, N>> for Point<T, N> {
    /// [Point] -= [Vector].
    fn sub_assign(&mut self, v: Vector<T, N>)
        requires
            T::obeys_sub_spec(),
            elementwise_sub_req(old(self)@, v@),
        ensures
            final(self)@ == elementwise_sub(old(self)@, v@),
    {
        self.0 = sub_arrays(self.0, v.values());
    }
}


impl<T: Copy + Default, const N: usize> Vector<T, N> {
    /// Constructs a `Vector` from the coordinates of a [Point].
    pub fn from_point(p: Point<T, N>) -> (v: Self)
        ensures
            v@ == p@,
    {
        Vector::new(p.0)
    }
}

/// A rectangle given by its top-left corner and its size, as `[x, y, width, height]`.
#[derive(Debug, Copy, Clone, PartialEq)]
pub struct Rect<T>([T; 4]);

impl<T> View for Rect<T> {
    type V = (T, T, T, T);

    /// The rectangle as `(x, y, width, height)`.
    closed spec fn view(&self) -> (T, T, T, T) {
        (self.0[0], self.0[1], self.0[2], self.0[3])
    }
}

/// Whether `(px, py)` lies in the half-open area `[x, x + width) x [y, y + height)`.
pub open spec fn rect_contains(r: (i32, i32, i32, i32), px: int, py: int) -> bool {
    &&& r.0 <= px < r.0 + r.2
    &&& r.1 <= py < r.1 + r.3
}

/// Whether the right and bottom edges of `r` fit in an `i32`.
pub open spec fn rect_fits(r: (i32, i32, i32, i32)) -> bool {
    &&& i32::MIN <= r.0 + r.2 <= i32::MAX
    &&& i32::MIN <= r.1 + r.3 <= i32::MAX
}

impl Rect<i32> {
    /// The rectangle `(x, y, width, height)`.
    pub closed spec fn from_tuple(t: (i32, i32, i32, i32)) -> Rect<i32> {
        Rect([t.0, t.1, t.2, t.3])
    }

    /// The rectangle made of a tuple has that tuple as its view, and a rectangle is determined
    /// by its view.
    pub proof fn lemma_from_tuple(t: (i32, i32, i32, i32), r: Rect<i32>)
        ensures
            Self::from_tuple(t)@ == t,
            r@ == t ==> r == Self::from_tuple(t),
    {
        if r@ == t {
            assert(r.0 =~= Self::from_tuple(t).0);
        }
    }

    /// Constructs a `Rect` from its top-left corner and size.
    pub fn new(x: i32, y: i32, width: i32, height: i32) -> (r: Self)
        ensures
            r@ == (x, y, width, height),
    {
        Self([x, y, width, height])
    }

    /// Constructs a `Rect` with the given corner and size.
    pub fn with_position(p: PointI2, width: i32, height: i32) -> (r: Self)
        ensures
            r@ == (p@[0], p@[1], width, height),
    {
        Self([p.x(), p.y(), width, height])
    }

    /// Constructs a `Rect` of the given size centered on `p`, rounding the corner toward zero
    /// as integer division does.
    pub fn from_center(p: PointI2, width: i32, height: i32) -> (r: Self)
        requires
            i32::MIN <= p@[0] - trunc_div(width as int, 2) <= i32::MAX,
            i32::MIN <= p@[1] - trunc_div(height as int, 2) <= i32::MAX,
        ensures
            r@ == (
                (p@[0] - trunc_div(width as int, 2)) as i32,
                (p@[1] - trunc_div(height as int, 2)) as i32,
                width,
                height,
            ),
    {
        Self([p.x() - width / 2, p.y() - height / 2, width, height])
    }

    /// The `x` coordinate of the left edge.
    pub fn x(&self) -> (v: i32)
        ensures
            v == self@.0,
    {
        self.0[0]
    }

    /// The `y` coordinate of the top edge.
    pub fn y(&self) -> (v: i32)
        ensures
            v == self@.1,
    {
        self.0[1]
    }

    /// The width.
    pub fn width(&self) -> (v: i32)
        ensures
            v == self@.2,
    {
        self.0[2]
    }

    /// The height.
    pub fn height(&self) -> (v: i32)
        ensures
            v == self@.3,
    {
        self.0[3]
    }

    /// Sets the `x` coordinate of the left edge.
    pub fn set_x(&mut self, x: i32)
        ensures
            final(self)@ == (x, old(self)@.1, old(self)@.2, old(self)@.3),
    {
        self.0[0] = x;
    }

    /// Sets the `y` coordinate of the top edge.
    pub fn set_y(&mut self, y: i32)
        ensures
            final(self)@ == (old(self)@.0, y, old(self)@.2, old(self)@.3),
    {
        self.0[1] = y;
    }

    /// Sets the width.
    pub fn set_width(&mut self, width: i32)
        ensures
            final(self)@ == (old(self)@.0, old(self)@.1, width, old(self)@.3),
    {
        self.0[2] = width;
    }

    /// Sets the height.
    pub fn set_height(&mut self, height: i32)
        ensures
            final(self)@ == (old(self)@.0, old(self)@.1, old(self)@.2, height),
    {
        self.0[3] = height;
    }

    /// The `x` coordinate of the left edge.
    pub fn left(&self) -> (v: i32)
        ensures
            v == self@.0,
    {
        self.0[0]
    }

    /// The `y` coordinate of the top edge.
    pub fn top(&self) -> (v: i32)
        ensures
            v == self@.1,
    {
        self.0[1]
    }

    /// The `x` coordinate just past the right edge: `x + width`.
    pub fn right(&self) -> (v: i32)
        requires
            i32::MIN <= self@.0 + self@.2 <= i32::MAX,
        ensures
            v == self@.0 + self@.2,
    {
        self.0[0] + self.0[2]
    }

    /// The `y` coordinate just past the bottom edge: `y + height`.
    pub fn bottom(&self) -> (v: i32)
        requires
            i32::MIN <= self@.1 + self@.3 <= i32::MAX,
        ensures
            v == self@.1 + self@.3,
    {
        self.0[1] + self.0[3]
    }

    /// The top-left corner.
    pub fn top_left(&self) -> (p: PointI2)
        ensures
            p@ == seq![self@.0, self@.1],
    {
        let p = Point::new([self.0[0], self.0[1]]);
        assert(p@ =~= seq![self@.0, self@.1]);
        p
    }

    /// The size as a point `(width, height)`.
    pub fn size(&self) -> (p: PointI2)
        ensures
            p@ == seq![self@.2, self@.3],
    {
        let p = Point::new([self.0[2], self.0[3]]);
        assert(p@ =~= seq![self@.2, self@.3]);
        p
    }

    /// The center, rounding toward the corner as integer division does.
    pub fn center(&self) -> (p: PointI2)
        requires
            rect_fits(self@),
        ensures
            p@ == seq![
                (self@.0 + trunc_div(self@.2 as int, 2)) as i32,
                (self@.1 + trunc_div(self@.3 as int, 2)) as i32,
            ],
    {
        let p = Point::new([self.0[0] + self.0[2] / 2, self.0[1] + self.0[3] / 2]);
        assert(p@ =~= seq![
            (self@.0 + trunc_div(self@.2 as int, 2)) as i32,
            (self@.1 + trunc_div(self@.3 as int, 2)) as i32,
        ]);
        p
    }

    /// The rectangle moved by `(dx, dy)`.
    pub fn offset(&self, d: [i32; 2]) -> (r: Self)
        requires
            i32::MIN <= self@.0 + d@[0] <= i32::MAX,
            i32::MIN <= self@.1 + d@[1] <= i32::MAX,
        ensures
            r@ == ((self@.0 + d@[0]) as i32, (self@.1 + d@[1]) as i32, self@.2, self@.3),
    {
        Self([self.0[0] + d[0], self.0[1] + d[1], self.0[2], self.0[3]])
    }

    /// The rectangle grown by `(dw, dh)`, keeping its corner.
    pub fn offset_size(&self, d: [i32; 2]) -> (r: Self)
        requires
            i32::MIN <= self@.2 + d@[0] <= i32::MAX,
            i32::MIN <= self@.3 + d@[1] <= i32::MAX,
        ensures
            r@ == (self@.0, self@.1, (self@.2 + d@[0]) as i32, (self@.3 + d@[1]) as i32),
    {
        Self([self.0[0], self.0[1], self.0[2] + d[0], self.0[3] + d[1]])
    }

    /// Returns the rectangle as `[x, y, width, height]`.
    pub fn coords(&self) -> (c: [i32; 4])
        ensures
            c@ == seq![self@.0, self@.1, self@.2, self@.3],
    {
        let c = self.0;
        assert(c@ =~= seq![self@.0, self@.1, self@.2, self@.3]);
        c
    }
}

/// Trait for shape containing operations.
pub trait Contains<T, const N: usize> {
    /// The shape type. e.g. [`Rect<T>`].
    type Shape;

    /// Returns whether this shape contains a given [Point].
    fn contains_point(&self, p: Point<T, N>) -> bool;

    /// Returns whether this shape completely contains another shape of the same type.
    fn contains_shape(&self, other: Self::Shape) -> bool;
}

impl Contains<i32, 2> for Rect<i32> {
    type Shape = Rect<i32>;

    /// Whether `p` lies in the half-open area `[x, x + width) x [y, y + height)`.
    fn contains_point(&self, p: PointI2) -> (b: bool)
        ensures
            b == rect_contains(self@, p@[0] as int, p@[1] as int),
    {
        let px = p.x() as i64;
        let py = p.y() as i64;
        let x = self.0[0] as i64;
        let y = self.0[1] as i64;
        px >= x && px < x + self.0[2] as i64 && py >= y && py < y + self.0[3] as i64
    }

    /// Whether `other` lies within this rectangle: its corner is inside, and its far edges are
    /// strictly inside the far edges of this one.
    fn contains_shape(&self, other: Rect<i32>) -> (b: bool)
        ensures
            b == (self@.0 <= other@.0 && other@.0 + other@.2 < self@.0 + self@.2 && self@.1
                <= other@.1 && other@.1 + other@.3 < self@.1 + self@.3),
    {
        let (x, y, w, h) = (self.0[0] as i64, self.0[1] as i64, self.0[2] as i64, self.0[3] as i64);
        let (ox, oy, ow, oh) = (
            other.0[0] as i64,
            other.0[1] as i64,
            other.0[2] as i64,
            other.0[3] as i64,
        );
        x <= ox && ox + ow < x + w && y <= oy && oy + oh < y + h
    }
}
impl<T: Copy + Default, const N: usize> Point<T, N> {
    /// Constructs a `Point` from the first `N` items `iter` yields, and `T::default()` for
    /// each one it runs short of.
    pub fn from_items<It: Iterator<Item = T>>(iter: &mut It) -> (v: Self)
        ensures
            (*old(iter)).obeys_prophetic_iter_laws() ==> forall|i: int|
                0 <= i < N ==> {
                    &&& i < (*old(iter)).remaining().len() ==> #[trigger] v@[i] == (*old(iter)).remaining()[i]
                    &&& i >= (*old(iter)).remaining().len() ==> call_ensures(T::default, (), v@[i])
                },
    {
        let ghost start = (*old(iter)).remaining();
        let ghost laws = (*old(iter)).obeys_prophetic_iter_laws();
        let mut v = Self::origin();
        let mut i: usize = 0;
        while i < N
            invariant
                i <= N,
                v@.len() == N,
                laws == (*iter).obeys_prophetic_iter_laws(),
                laws ==> (*iter).remaining() == (if i <= start.len() { start.skip(i as int) } else { Seq::empty() }),
                laws ==> forall|j: int| 0 <= j < i && j < start.len() ==> #[trigger] v@[j] == start[j],
                forall|j: int| i <= j < N ==> call_ensures(T::default, (), #[trigger] v@[j]),
                laws ==> forall|j: int| 0 <= j < i && j >= start.len() ==> call_ensures(T::default, (), #[trigger] v@[j]),
            decreases N - i,
        {
            let item = next_or_default(iter);
            v.0[i] = item;
            i += 1;
        }
        v
    }
}

impl<T: Default, const N: usize> core::iter::FromIterator<T> for Point<T, N> {
    /// `IntoIterator::into_iter`, then `core::array::from_fn`, which calls its closure for the
    /// indices `0..N` in order: each coordinate is [`next_or_default`] of the iterator, so the
    /// point holds the first `N` items and `T::default()` for each one the iterator runs short
    /// of, as [`Point::from_items`] states.
    #[verifier::external_body]
    fn from_iter<I: IntoIterator<Item = T>>(iter: I) -> Self {
        let mut it = iter.into_iter();
        Self(core::array::from_fn(|_| next_or_default(&mut it)))
    }
}

} // verus!

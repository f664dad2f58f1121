//! [`Light`] source functions.

use crate::shape::Point;
use crate::vector::Vector;
use vstd::prelude::*;
use vstd::std_specs::convert::IntoSpec;

verus! {

/// `Light` source type.
#[derive(Debug, Copy, Clone, PartialEq)]
pub enum LightSource<T, const N: usize> {
    /// Ambient light.
    Ambient,
    /// Light from a specific point.
    Point(Point<T, N>),
    /// Light from a specific direction.
    Direction(Vector<T, N>),
}

/// `Light` representation including `source` and `intensity`.
#[derive(Debug, Copy, Clone, PartialEq)]
pub struct Light<T, const N: usize> {
    /// Source of light.
    pub source: LightSource<T, N>,
    /// Light intensity.
    pub intensity: T,
}

impl<T, const N: usize> Light<T, N> {
    /// Constructs a new ambient `Light`.
    pub fn ambient(intensity: T) -> (l: Self)
        ensures
            l.source == LightSource::<T, N>::Ambient,
            l.intensity == intensity,
    {
        Self { source: LightSource::Ambient, intensity }
    }

    /// Constructs a new point `Light` at `position`.
    pub fn point<P: Into<Point<T, N>>>(intensity: T, position: P) -> (l: Self)
        ensures
            P::obeys_into_spec() ==> l.source == LightSource::<T, N>::Point(position.into_spec()),
            l.source is Point,
            l.intensity == intensity,
    {
        Self { source: LightSource::Point(position.into()), intensity }
    }

    /// Constructs a new directional `Light` shining along `direction`.
    pub fn direction<V: Into<Vector<T, N>>>(intensity: T, direction: V) -> (l: Self)
        ensures
            V::obeys_into_spec() ==> l.source == LightSource::<T, N>::Direction(direction.into_spec()),
            l.source is Direction,
            l.intensity == intensity,
    {
        Self { source: LightSource::Direction(direction.into()), intensity }
    }
}

} // verus!

//! A pair of coordinates.

use vstd::prelude::*;
use vstd::std_specs::convert::FromSpecImpl;

verus! {

/// A vector with signed integer coordinates.
pub type Vector2i = Vector2<i32>;

/// A vector with unsigned integer coordinates.
pub type Vector2u = Vector2<u32>;

/// A point or displacement in the plane.
#[derive(Debug, Default, Clone, Copy, PartialEq, Eq, PartialOrd, Ord)]
pub struct Vector2<T> {
    pub x: T,
    pub y: T,
}

impl<T> Vector2<T> {
    /// Builds the vector with the given coordinates.
    #[inline]
    pub fn new(x: T, y: T) -> (v: Self)
        ensures
            v.x == x,
            v.y == y,
    {
        Self { x, y }
    }
}

impl<T> From<(T, T)> for Vector2<T> {
    /// The vector whose coordinates are the tuple's components, in order.
    fn from(coordinates: (T, T)) -> (v: Self) {
        Self { x: coordinates.0, y: coordinates.1 }
    }
}

impl<T> FromSpecImpl<(T, T)> for Vector2<T> {
    open spec fn obeys_from_spec() -> bool {
        true
    }

    open spec fn from_spec(coordinates: (T, T)) -> Self {
        Vector2 { x: coordinates.0, y: coordinates.1 }
    }
}

} // verus!

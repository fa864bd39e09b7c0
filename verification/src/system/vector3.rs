//! A triple of coordinates.

use vstd::prelude::*;
use vstd::std_specs::convert::FromSpecImpl;

verus! {

/// A vector with signed integer coordinates.
pub type Vextor3i = Vector3<isize>;

/// A point or displacement in space.
#[derive(Debug, Default, Clone, Copy, PartialEq, Eq, PartialOrd, Ord)]
pub struct Vector3<T> {
    pub x: T,
    pub y: T,
    pub z: T,
}

impl<T> Vector3<T> {
    /// Builds the vector with the given coordinates.
    #[inline]
    pub fn new(x: T, y: T, z: T) -> (v: Self)
        ensures
            v.x == x,
            v.y == y,
            v.z == z,
    {
        Self { x, y, z }
    }
}

impl<T> From<(T, T, T)> for Vector3<T> {
    /// The vector whose coordinates are the tuple's components, in order.
    fn from(coordinates: (T, T, T)) -> (v: Self) {
        Self { x: coordinates.0, y: coordinates.1, z: coordinates.2 }
    }
}

impl<T> FromSpecImpl<(T, T, T)> for Vector3<T> {
    open spec fn obeys_from_spec() -> bool {
        true
    }

    open spec fn from_spec(coordinates: (T, T, T)) -> Self {
        Vector3 { x: coordinates.0, y: coordinates.1, z: coordinates.2 }
    }
}

} // verus!

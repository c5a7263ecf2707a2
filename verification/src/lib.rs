//! A small generic two-dimensional vector type with component-wise
//! arithmetic and a handful of geometric operations, each carrying a
//! machine-checked contract.

use vstd::prelude::*;
use vstd::std_specs::convert::{FromSpec, IntoSpec};

// `ops` stands before `geometry`, which is built on the operators.
pub mod ops;
pub mod geometry;
pub mod scalar;
pub mod laws;

verus! {

/// A pair of scalar coordinates.
///
/// Two vectors are equal exactly when both coordinates are equal.
#[derive(Copy, Clone, PartialEq, Debug)]
pub struct Vec2D<T> {
    pub x: T,
    pub y: T,
}

impl<T: Copy + Clone> Vec2D<T> {
    /// Builds the vector with the given coordinates.
    pub fn new(x: T, y: T) -> (v: Vec2D<T>)
        ensures
            v.x == x,
            v.y == y,
    {
        Vec2D { x, y }
    }

    /// Converts a vector of another scalar type, coordinate by coordinate,
    /// by the scalar's own conversion.
    pub fn from_vector<O: Into<T> + Copy + Clone>(v: Vec2D<O>) -> (r: Vec2D<T>)
        ensures
            O::obeys_into_spec() ==> r.x == v.x.into_spec() && r.y == v.y.into_spec(),
    {
        Vec2D { x: v.x.into(), y: v.y.into() }
    }

    /// Converts into a vector of another scalar type, coordinate by
    /// coordinate, by the scalar's own conversion.
    pub fn into_vector<O: From<T> + Copy + Clone>(self) -> (r: Vec2D<O>)
        ensures
            O::obeys_from_spec() ==> r.x == O::from_spec(self.x) && r.y == O::from_spec(self.y),
    {
        Vec2D { x: self.x.into(), y: self.y.into() }
    }
}

} // verus!

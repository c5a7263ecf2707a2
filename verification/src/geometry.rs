//! Geometric operations: the perpendicular, the dot product, the squared
//! length, the determinant and the projection.
//!
//! Every operation is built from the scalar's own operators. Its demand on
//! the operands is that each scalar operation it performs is allowed, and its
//! result is stated through the scalar's own specification of `+`, `*`, `/`
//! and unary `-`.

use vstd::prelude::*;
use vstd::std_specs::ops::{AddSpec, DivSpec, MulSpec, NegSpec};
use crate::Vec2D;
use std::ops::{Add, Div, Mul, Neg};

verus! {

impl<T> Vec2D<T>
where
    T: Neg<Output = T> + Copy + Clone,
{
    /// The vector turned a quarter of a turn counterclockwise: `(-y, x)`.
    pub open spec fn normal_spec(self) -> Self {
        Vec2D { x: self.y.neg_spec(), y: self.x }
    }

    /// Whether `normal` may be called: `y` can be negated.
    pub open spec fn normal_req(self) -> bool {
        self.y.neg_req()
    }

    /// Returns the perpendicular `(-y, x)`.
    pub fn normal(self) -> (r: Self)
        requires
            self.normal_req(),
        ensures
            r.y == self.x,
            T::obeys_neg_spec() ==> r == self.normal_spec(),
    {
        Vec2D { x: self.y.neg(), y: self.x }
    }
}

impl<T> Vec2D<T>
where
    T: Mul<T, Output = T> + Add<T, Output = T> + Copy + Clone,
{
    /// The dot product `v1.x * v2.x + v1.y * v2.y`.
    pub open spec fn dot_spec(v1: Self, v2: Self) -> T {
        v1.x.mul_spec(v2.x).add_spec(v1.y.mul_spec(v2.y))
    }

    /// Whether `dot` may be called: the scalar's `*` is specified, both
    /// products are allowed, and so is their sum.
    pub open spec fn dot_req(v1: Self, v2: Self) -> bool {
        &&& T::obeys_mul_spec()
        &&& v1.x.mul_req(v2.x)
        &&& v1.y.mul_req(v2.y)
        &&& v1.x.mul_spec(v2.x).add_req(v1.y.mul_spec(v2.y))
    }

    /// Returns the dot product of `v1` and `v2`.
    pub fn dot(v1: Self, v2: Self) -> (r: T)
        requires
            Self::dot_req(v1, v2),
        ensures
            T::obeys_add_spec() ==> r == Self::dot_spec(v1, v2),
    {
        v1.x * v2.x + v1.y * v2.y
    }

    /// The squared length: the dot product of the vector with itself.
    pub open spec fn len_sq_spec(self) -> T {
        Self::dot_spec(self, self)
    }

    /// Whether `len_sq` may be called.
    pub open spec fn len_sq_req(self) -> bool {
        Self::dot_req(self, self)
    }

    /// Returns the squared length `x * x + y * y`.
    pub fn len_sq(self) -> (r: T)
        requires
            self.len_sq_req(),
        ensures
            T::obeys_add_spec() ==> r == self.len_sq_spec(),
    {
        Vec2D::dot(self, self)
    }

    /// The determinant: the dot product of the perpendicular of `v1` with
    /// `v2`, that is `v1.x * v2.y - v1.y * v2.x`.
    pub open spec fn det_spec(v1: Self, v2: Self) -> T
        where T: Neg<Output = T>
    {
        Self::dot_spec(v1.normal_spec(), v2)
    }

    /// Whether `det` may be called: the scalar's unary `-` is specified, the
    /// perpendicular of `v1` can be taken, and its dot product with `v2` too.
    pub open spec fn det_req(v1: Self, v2: Self) -> bool
        where T: Neg<Output = T>
    {
        &&& T::obeys_neg_spec()
        &&& v1.normal_req()
        &&& Self::dot_req(v1.normal_spec(), v2)
    }

    /// Returns the determinant of `v1` and `v2`, positive when `v2` lies
    /// counterclockwise of `v1`.
    pub fn det(v1: Self, v2: Self) -> (r: T)
        where T: Neg<Output = T>
        requires
            Self::det_req(v1, v2),
        ensures
            T::obeys_add_spec() ==> r == Self::det_spec(v1, v2),
    {
        Vec2D::dot(v1.normal(), v2)
    }

    /// The projection of `self` on `v2`: `v2` scaled by the quotient of
    /// their dot product and the squared length of `v2`.
    pub open spec fn proj_spec(self, v2: Self) -> Self
        where T: Div<T, Output = T>
    {
        v2.mul_spec(Self::dot_spec(self, v2).div_spec(v2.len_sq_spec()))
    }

    /// Whether `proj` may be called: the scalar's `+` and `/` are specified,
    /// the dot product and the squared length can be taken, the first can be
    /// divided by the second (which rules out a `v2` of squared length zero
    /// for integers), and `v2` can be scaled by the quotient.
    pub open spec fn proj_req(self, v2: Self) -> bool
        where T: Div<T, Output = T>
    {
        &&& T::obeys_add_spec()
        &&& T::obeys_div_spec()
        &&& Self::dot_req(self, v2)
        &&& v2.len_sq_req()
        &&& Self::dot_spec(self, v2).div_req(v2.len_sq_spec())
        &&& v2.mul_req(Self::dot_spec(self, v2).div_spec(v2.len_sq_spec()))
    }

    /// Returns the projection of `self` on `v2`.
    pub fn proj(self, v2: Self) -> (r: Self)
        where T: Div<T, Output = T>
        requires
            self.proj_req(v2),
        ensures
            r == self.proj_spec(v2),
    {
        v2 * (Vec2D::dot(self, v2) / v2.len_sq())
    }
}

} // verus!

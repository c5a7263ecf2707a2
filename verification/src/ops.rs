//! Component-wise arithmetic on vectors through the standard operators.
//!
//! The value-returning operators may change the scalar type, as the scalar's
//! own operator does; the in-place operators keep it. Each operator asks of
//! its operands exactly what the scalar's operator asks of each coordinate,
//! and its result is the scalar's result, coordinate by coordinate.

use vstd::prelude::*;
use vstd::std_specs::ops::{AddSpec, MulSpec, NegSpec, SubSpec};
use crate::Vec2D;
use std::ops::{Add, AddAssign, Mul, MulAssign, Neg, Sub, SubAssign};

verus! {

/// `a + b` is `(a.x + b.x, a.y + b.y)`.
impl<T, O> Add<Vec2D<T>> for Vec2D<T>
where
    T: Add<T, Output = O> + Copy + Clone,
{
    type Output = Vec2D<O>;

    fn add(self, rhs: Vec2D<T>) -> (r: Vec2D<O>) {
        Vec2D { x: self.x + rhs.x, y: self.y + rhs.y }
    }
}

impl<T, O> vstd::std_specs::ops::AddSpecImpl<Vec2D<T>> for Vec2D<T>
where
    T: Add<T, Output = O> + Copy + Clone,
{
    open spec fn obeys_add_spec() -> bool {
        T::obeys_add_spec()
    }

    open spec fn add_req(self, rhs: Vec2D<T>) -> bool {
        self.x.add_req(rhs.x) && self.y.add_req(rhs.y)
    }

    open spec fn add_spec(self, rhs: Vec2D<T>) -> Vec2D<O> {
        Vec2D { x: self.x.add_spec(rhs.x), y: self.y.add_spec(rhs.y) }
    }
}

/// `a - b` is `(a.x - b.x, a.y - b.y)`.
impl<T, O> Sub<Vec2D<T>> for Vec2D<T>
where
    T: Sub<T, Output = O> + Copy + Clone,
{
    type Output = Vec2D<O>;

    fn sub(self, rhs: Vec2D<T>) -> (r: Vec2D<O>) {
        Vec2D { x: self.x - rhs.x, y: self.y - rhs.y }
    }
}

impl<T, O> vstd::std_specs::ops::SubSpecImpl<Vec2D<T>> for Vec2D<T>
where
    T: Sub<T, Output = O> + Copy + Clone,
{
    open spec fn obeys_sub_spec() -> bool {
        T::obeys_sub_spec()
    }

    open spec fn sub_req(self, rhs: Vec2D<T>) -> bool {
        self.x.sub_req(rhs.x) && self.y.sub_req(rhs.y)
    }

    open spec fn sub_spec(self, rhs: Vec2D<T>) -> Vec2D<O> {
        Vec2D { x: self.x.sub_spec(rhs.x), y: self.y.sub_spec(rhs.y) }
    }
}

/// `a * k` is `(a.x * k, a.y * k)`.
impl<T, O> Mul<T> for Vec2D<T>
where
    T: Mul<T, Output = O> + Copy + Clone,
{
    type Output = Vec2D<O>;

    fn mul(self, rhs: T) -> (r: Vec2D<O>) {
        Vec2D { x: self.x * rhs, y: self.y * rhs }
    }
}

impl<T, O> vstd::std_specs::ops::MulSpecImpl<T> for Vec2D<T>
where
    T: Mul<T, Output = O> + Copy + Clone,
{
    open spec fn obeys_mul_spec() -> bool {
        T::obeys_mul_spec()
    }

    open spec fn mul_req(self, rhs: T) -> bool {
        self.x.mul_req(rhs) && self.y.mul_req(rhs)
    }

    open spec fn mul_spec(self, rhs: T) -> Vec2D<O> {
        Vec2D { x: self.x.mul_spec(rhs), y: self.y.mul_spec(rhs) }
    }
}

/// `-a` is `(-a.x, -a.y)`.
impl<T, O> Neg for Vec2D<T>
where
    T: Neg<Output = O> + Copy + Clone,
{
    type Output = Vec2D<O>;

    fn neg(self) -> (r: Vec2D<O>) {
        Vec2D { x: self.x.neg(), y: self.y.neg() }
    }
}

impl<T, O> vstd::std_specs::ops::NegSpecImpl for Vec2D<T>
where
    T: Neg<Output = O> + Copy + Clone,
{
    open spec fn obeys_neg_spec() -> bool {
        T::obeys_neg_spec()
    }

    open spec fn neg_req(self) -> bool {
        self.x.neg_req() && self.y.neg_req()
    }

    open spec fn neg_spec(self) -> Vec2D<O> {
        Vec2D { x: self.x.neg_spec(), y: self.y.neg_spec() }
    }
}

/// `a += b` leaves in `a` what `a + b` would have returned.
impl<T> AddAssign<Vec2D<T>> for Vec2D<T>
where
    T: Add<T, Output = T> + Copy + Clone,
{
    fn add_assign(&mut self, rhs: Vec2D<T>)
        requires
            old(self).add_req(rhs),
        ensures
            T::obeys_add_spec() ==> *final(self) == old(self).add_spec(rhs),
    {
        self.x = self.x + rhs.x;
        self.y = self.y + rhs.y;
    }
}

/// `a -= b` leaves in `a` what `a - b` would have returned.
impl<T> SubAssign<Vec2D<T>> for Vec2D<T>
where
    T: Sub<T, Output = T> + Copy + Clone,
{
    fn sub_assign(&mut self, rhs: Vec2D<T>)
        requires
            old(self).sub_req(rhs),
        ensures
            T::obeys_sub_spec() ==> *final(self) == old(self).sub_spec(rhs),
    {
        self.x = self.x - rhs.x;
        self.y = self.y - rhs.y;
    }
}

/// `a *= k` leaves in `a` what `a * k` would have returned.
impl<T> MulAssign<T> for Vec2D<T>
where
    T: Mul<T, Output = T> + Copy + Clone,
{
    fn mul_assign(&mut self, rhs: T)
        requires
            old(self).mul_req(rhs),
        ensures
            T::obeys_mul_spec() ==> *final(self) == old(self).mul_spec(rhs),
    {
        self.x = self.x * rhs;
        self.y = self.y * rhs;
    }
}

} // verus!

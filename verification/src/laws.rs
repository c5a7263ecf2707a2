//! Algebraic laws of the vector operations over integer scalars.
//!
//! Each law is stated over the same functions as the contracts of the
//! operations: where an operation is allowed, and what it then returns.
//! Machine integers are bounded, so a law that speaks of a result holds
//! where the operations it names are allowed.

use vstd::prelude::*;
use vstd::std_specs::ops::{AddSpec, DivSpec, MulSpec, NegSpec, SubSpec};
use crate::scalar::{IntScalar, SignedScalar, trunc_div};
use crate::Vec2D;

verus! {

impl<T: IntScalar> Vec2D<T> {
    /// Whether this is the zero vector.
    pub open spec fn is_zero(self) -> bool {
        self.x.value() == 0 && self.y.value() == 0
    }
}

/// Over integer scalars every binary operator does what its specification
/// says, on scalars and on vectors: the results that the contracts of the
/// operations give under that condition are then the results.
pub proof fn lemma_operators_specified<T: IntScalar>()
    ensures
        Vec2D::<T>::obeys_add_spec(),
        Vec2D::<T>::obeys_sub_spec(),
        Vec2D::<T>::obeys_mul_spec(),
        T::obeys_add_spec(),
        T::obeys_sub_spec(),
        T::obeys_mul_spec(),
        T::obeys_div_spec(),
{
    let z: T = arbitrary();
    T::lemma_add(z, z);
    T::lemma_sub(z, z);
    T::lemma_mul(z, z);
    T::lemma_div(z, z);
}

/// Over signed integer scalars the unary `-` does what its specification
/// says, on scalars and on vectors.
pub proof fn lemma_negation_specified<T: SignedScalar>()
    ensures
        Vec2D::<T>::obeys_neg_spec(),
        T::obeys_neg_spec(),
{
    let z: T = arbitrary();
    T::lemma_neg(z);
}

/// Addition commutes: where `a + b` is allowed so is `b + a`, and the two
/// are equal.
pub proof fn lemma_add_commutative<T: IntScalar>(a: Vec2D<T>, b: Vec2D<T>)
    requires
        a.add_req(b),
    ensures
        b.add_req(a),
        a.add_spec(b) == b.add_spec(a),
{
    T::lemma_add(a.x, b.x);
    T::lemma_add(b.x, a.x);
    T::lemma_add(a.y, b.y);
    T::lemma_add(b.y, a.y);
    T::lemma_value(a.x.add_spec(b.x), b.x.add_spec(a.x));
    T::lemma_value(a.y.add_spec(b.y), b.y.add_spec(a.y));
}

/// The dot product over the integers: it is allowed exactly when the two
/// products and their sum fit, and is then `a.x * b.x + a.y * b.y`.
pub proof fn lemma_dot_value<T: IntScalar>(a: Vec2D<T>, b: Vec2D<T>)
    ensures
        Vec2D::dot_req(a, b) <==> {
            &&& T::fits(a.x.value() * b.x.value())
            &&& T::fits(a.y.value() * b.y.value())
            &&& T::fits(a.x.value() * b.x.value() + a.y.value() * b.y.value())
        },
        Vec2D::dot_req(a, b) ==> Vec2D::dot_spec(a, b).value() == a.x.value() * b.x.value()
            + a.y.value() * b.y.value(),
{
    T::lemma_mul(a.x, b.x);
    T::lemma_mul(a.y, b.y);
    T::lemma_add(a.x.mul_spec(b.x), a.y.mul_spec(b.y));
}

/// The dot product commutes: where `dot(a, b)` is allowed so is
/// `dot(b, a)`, and the two are equal.
pub proof fn lemma_dot_commutative<T: IntScalar>(a: Vec2D<T>, b: Vec2D<T>)
    requires
        Vec2D::dot_req(a, b),
    ensures
        Vec2D::dot_req(b, a),
        Vec2D::dot_spec(a, b) == Vec2D::dot_spec(b, a),
{
    lemma_dot_value(a, b);
    lemma_dot_value(b, a);
    assert(a.x.value() * b.x.value() == b.x.value() * a.x.value()) by (nonlinear_arith);
    assert(a.y.value() * b.y.value() == b.y.value() * a.y.value()) by (nonlinear_arith);
    T::lemma_value(Vec2D::dot_spec(a, b), Vec2D::dot_spec(b, a));
}

/// A vector and its opposite add up to zero: where `-a` is allowed, so is
/// `a + (-a)`, and it is the zero vector.
pub proof fn lemma_add_opposite<T: SignedScalar>(a: Vec2D<T>)
    requires
        a.neg_req(),
    ensures
        a.add_req(a.neg_spec()),
        a.add_spec(a.neg_spec()).is_zero(),
{
    T::lemma_neg(a.x);
    T::lemma_neg(a.y);
    T::lemma_value(a.x, a.y);
    T::lemma_add(a.x, a.x.neg_spec());
    T::lemma_add(a.y, a.y.neg_spec());
}

/// A vector minus itself is zero: `a - a` is always allowed, and is the
/// zero vector.
pub proof fn lemma_sub_self<T: IntScalar>(a: Vec2D<T>)
    ensures
        a.sub_req(a),
        a.sub_spec(a).is_zero(),
{
    T::lemma_value(a.x, a.y);
    T::lemma_sub(a.x, a.x);
    T::lemma_sub(a.y, a.y);
}

/// Scaling by one changes nothing: `a * 1` is always allowed, and is `a`.
pub proof fn lemma_mul_one<T: IntScalar>(a: Vec2D<T>, one: T)
    requires
        one.value() == 1,
    ensures
        a.mul_req(one),
        a.mul_spec(one) == a,
{
    T::lemma_mul(a.x, one);
    T::lemma_mul(a.y, one);
    assert(a.x.value() * 1 == a.x.value());
    assert(a.y.value() * 1 == a.y.value());
    T::lemma_value(a.x, a.x.mul_spec(one));
    T::lemma_value(a.y, a.y.mul_spec(one));
}

/// Scaling by zero gives zero: `a * 0` is always allowed, and is the zero
/// vector.
pub proof fn lemma_mul_zero<T: IntScalar>(a: Vec2D<T>, zero: T)
    requires
        zero.value() == 0,
    ensures
        a.mul_req(zero),
        a.mul_spec(zero).is_zero(),
{
    T::lemma_mul(a.x, zero);
    T::lemma_mul(a.y, zero);
    assert(a.x.value() * 0 == 0);
    assert(a.y.value() * 0 == 0);
    T::lemma_value(a.x, a.y);
}

/// The determinant over the integers: where it is allowed it is
/// `a.x * b.y - a.y * b.x`.
pub proof fn lemma_det_value<T: SignedScalar>(a: Vec2D<T>, b: Vec2D<T>)
    requires
        Vec2D::det_req(a, b),
    ensures
        Vec2D::det_spec(a, b).value() == a.x.value() * b.y.value() - a.y.value() * b.x.value(),
{
    T::lemma_neg(a.y);
    lemma_dot_value(a.normal_spec(), b);
    assert((-a.y.value()) * b.x.value() == -(a.y.value() * b.x.value())) by (nonlinear_arith);
}

/// The determinant changes sign when its arguments change places: where
/// `det(a, b)` and `det(b, a)` are allowed, so is `-det(b, a)`, and it is
/// `det(a, b)`.
pub proof fn lemma_det_anticommutative<T: SignedScalar>(a: Vec2D<T>, b: Vec2D<T>)
    requires
        Vec2D::det_req(a, b),
        Vec2D::det_req(b, a),
    ensures
        Vec2D::det_spec(b, a).neg_req(),
        Vec2D::det_spec(a, b) == Vec2D::det_spec(b, a).neg_spec(),
{
    lemma_det_value(a, b);
    lemma_det_value(b, a);
    assert(a.x.value() * b.y.value() == b.y.value() * a.x.value()) by (nonlinear_arith);
    assert(a.y.value() * b.x.value() == b.x.value() * a.y.value()) by (nonlinear_arith);
    T::lemma_neg(Vec2D::det_spec(b, a));
    T::lemma_value(Vec2D::det_spec(a, b), Vec2D::det_spec(b, a).neg_spec());
}

/// The determinant of a vector with itself is zero, where it is allowed.
pub proof fn lemma_det_self<T: SignedScalar>(a: Vec2D<T>)
    requires
        Vec2D::det_req(a, a),
    ensures
        Vec2D::det_spec(a, a).value() == 0,
{
    lemma_det_value(a, a);
    assert(a.x.value() * a.y.value() == a.y.value() * a.x.value()) by (nonlinear_arith);
}

/// A vector is orthogonal to its perpendicular: where both are allowed, the
/// dot product of `a` and `normal(a)` is zero.
pub proof fn lemma_normal_orthogonal<T: SignedScalar>(a: Vec2D<T>)
    requires
        a.normal_req(),
        Vec2D::dot_req(a, a.normal_spec()),
    ensures
        Vec2D::dot_spec(a, a.normal_spec()).value() == 0,
{
    T::lemma_neg(a.y);
    lemma_dot_value(a, a.normal_spec());
    assert(a.x.value() * (-a.y.value()) + a.y.value() * a.x.value() == 0) by (nonlinear_arith);
}

/// The squared length over the integers: where it is allowed it is
/// `a.x * a.x + a.y * a.y`, and so never negative.
pub proof fn lemma_len_sq_value<T: IntScalar>(a: Vec2D<T>)
    requires
        a.len_sq_req(),
    ensures
        a.len_sq_spec().value() == a.x.value() * a.x.value() + a.y.value() * a.y.value(),
        a.len_sq_spec().value() >= 0,
{
    lemma_dot_value(a, a);
    assert(a.x.value() * a.x.value() >= 0) by (nonlinear_arith);
    assert(a.y.value() * a.y.value() >= 0) by (nonlinear_arith);
}

/// The projection over the integers: where it is allowed, `b` is not the
/// zero vector, and the result is `b` scaled by the quotient, rounded
/// toward zero, of `dot(a, b)` by the squared length of `b`.
pub proof fn lemma_proj_value<T: IntScalar>(a: Vec2D<T>, b: Vec2D<T>)
    requires
        a.proj_req(b),
    ensures
        !b.is_zero(),
        a.proj_spec(b).x.value() == b.x.value() * trunc_div(
            Vec2D::dot_spec(a, b).value(),
            b.len_sq_spec().value(),
        ),
        a.proj_spec(b).y.value() == b.y.value() * trunc_div(
            Vec2D::dot_spec(a, b).value(),
            b.len_sq_spec().value(),
        ),
{
    let d = Vec2D::dot_spec(a, b);
    let l = b.len_sq_spec();
    lemma_len_sq_value(b);
    T::lemma_div(d, l);
    T::lemma_mul(b.x, d.div_spec(l));
    T::lemma_mul(b.y, d.div_spec(l));
    if b.is_zero() {
        assert(b.x.value() * b.x.value() + b.y.value() * b.y.value() == 0) by (nonlinear_arith)
            requires
                b.x.value() == 0,
                b.y.value() == 0,
        ;
    }
}

} // verus!

//! Integer scalars, read as the mathematical integers they stand for.
//!
//! The operations on vectors are stated through the scalar's own `+`, `-`,
//! `*`, `/` and unary `-`. For the machine integers these are the operations
//! of mathematics wherever the result fits the type; the traits here say so,
//! type by type, so that facts about vectors of integers can be proved once
//! for all of them.

use vstd::prelude::*;
use vstd::std_specs::ops::{AddSpec, DivSpec, MulSpec, NegSpec, SubSpec};
use std::ops::{Add, Div, Mul, Neg, Sub};

mod signed;
mod unsigned;

verus! {

/// The quotient of `a` by `b` rounded toward zero, for `b != 0`.
pub open spec fn trunc_div(a: int, b: int) -> int {
    if a >= 0 {
        a / b
    } else {
        -((-a) / b)
    }
}

/// A scalar type whose values stand for integers and whose arithmetic is
/// that of the integers wherever the result fits.
pub trait IntScalar: Copy + Add<Output = Self> + Sub<Output = Self> + Mul<Output = Self> + Div<
    Output = Self,
> {
    /// The integer that the scalar stands for.
    spec fn value(self) -> int;

    /// Whether some scalar of the type stands for `i`.
    spec fn fits(i: int) -> bool;

    /// Every scalar stands for an integer that fits, zero fits, and two
    /// scalars that stand for the same integer are equal.
    proof fn lemma_value(a: Self, b: Self)
        ensures
            Self::fits(a.value()),
            Self::fits(0),
            a.value() == b.value() ==> a == b,
    ;

    /// `a + b` is allowed exactly when the sum fits, and is the sum.
    proof fn lemma_add(a: Self, b: Self)
        ensures
            Self::obeys_add_spec(),
            a.add_req(b) <==> Self::fits(a.value() + b.value()),
            a.add_req(b) ==> a.add_spec(b).value() == a.value() + b.value(),
    ;

    /// `a - b` is allowed exactly when the difference fits, and is the
    /// difference.
    proof fn lemma_sub(a: Self, b: Self)
        ensures
            Self::obeys_sub_spec(),
            a.sub_req(b) <==> Self::fits(a.value() - b.value()),
            a.sub_req(b) ==> a.sub_spec(b).value() == a.value() - b.value(),
    ;

    /// `a * b` is allowed exactly when the product fits, and is the product.
    proof fn lemma_mul(a: Self, b: Self)
        ensures
            Self::obeys_mul_spec(),
            a.mul_req(b) <==> Self::fits(a.value() * b.value()),
            a.mul_req(b) ==> a.mul_spec(b).value() == a.value() * b.value(),
    ;

    /// `a / b` is allowed exactly when `b` is not zero and the quotient
    /// rounded toward zero fits, and is that quotient.
    proof fn lemma_div(a: Self, b: Self)
        ensures
            Self::obeys_div_spec(),
            a.div_req(b) <==> b.value() != 0 && Self::fits(trunc_div(a.value(), b.value())),
            a.div_req(b) ==> a.div_spec(b).value() == trunc_div(a.value(), b.value()),
    ;
}

/// An integer scalar type with a unary `-`.
pub trait SignedScalar: IntScalar + Neg<Output = Self> {
    /// `-a` is allowed exactly when the opposite fits, and is the opposite.
    proof fn lemma_neg(a: Self)
        ensures
            Self::obeys_neg_spec(),
            a.neg_req() <==> Self::fits(-a.value()),
            a.neg_req() ==> a.neg_spec().value() == -a.value(),
    ;
}

/// A quotient rounded toward zero is no larger in size than the dividend,
/// and is its opposite only for the divisor `-1` (or the dividend zero).
pub proof fn lemma_trunc_div_size(a: int, b: int)
    requires
        b != 0,
    ensures
        a >= 0 ==> -a <= trunc_div(a, b) <= a,
        a < 0 ==> a <= trunc_div(a, b) <= -a,
        a >= 0 && b > 0 ==> trunc_div(a, b) >= 0,
        b == -1 ==> trunc_div(a, b) == -a,
        a != 0 && trunc_div(a, b) == -a ==> b == -1,
{
    let m = if a >= 0 { a } else { -a };
    let q = m / b;
    assert(-m <= q <= m && (b > 0 ==> q >= 0) && (b == -1 ==> q == -m) && (m != 0 && q == -m ==> b
        == -1)) by (nonlinear_arith)
        requires
            q == m / b,
            m >= 0,
            b != 0,
    ;
}

} // verus!

//! The signed machine integers as integer scalars.

use vstd::prelude::*;
use crate::scalar::{IntScalar, SignedScalar, lemma_trunc_div_size};

verus! {

impl IntScalar for i8 {
    open spec fn value(self) -> int {
        self as int
    }

    open spec fn fits(i: int) -> bool {
        i8::MIN <= i <= i8::MAX
    }

    proof fn lemma_value(a: Self, b: Self) {
    }

    proof fn lemma_add(a: Self, b: Self) {
    }

    proof fn lemma_sub(a: Self, b: Self) {
    }

    proof fn lemma_mul(a: Self, b: Self) {
    }

    proof fn lemma_div(a: Self, b: Self) {
        if b != 0 {
            lemma_trunc_div_size(a as int, b as int);
        }
    }
}

impl SignedScalar for i8 {
    proof fn lemma_neg(a: Self) {
    }
}

impl IntScalar for i16 {
    open spec fn value(self) -> int {
        self as int
    }

    open spec fn fits(i: int) -> bool {
        i16::MIN <= i <= i16::MAX
    }

    proof fn lemma_value(a: Self, b: Self) {
    }

    proof fn lemma_add(a: Self, b: Self) {
    }

    proof fn lemma_sub(a: Self, b: Self) {
    }

    proof fn lemma_mul(a: Self, b: Self) {
    }

    proof fn lemma_div(a: Self, b: Self) {
        if b != 0 {
            lemma_trunc_div_size(a as int, b as int);
        }
    }
}

impl SignedScalar for i16 {
    proof fn lemma_neg(a: Self) {
    }
}

impl IntScalar for i32 {
    open spec fn value(self) -> int {
        self as int
    }

    open spec fn fits(i: int) -> bool {
        i32::MIN <= i <= i32::MAX
    }

    proof fn lemma_value(a: Self, b: Self) {
    }

    proof fn lemma_add(a: Self, b: Self) {
    }

    proof fn lemma_sub(a: Self, b: Self) {
    }

    proof fn lemma_mul(a: Self, b: Self) {
    }

    proof fn lemma_div(a: Self, b: Self) {
        if b != 0 {
            lemma_trunc_div_size(a as int, b as int);
        }
    }
}

impl SignedScalar for i32 {
    proof fn lemma_neg(a: Self) {
    }
}

impl IntScalar for i64 {
    open spec fn value(self) -> int {
        self as int
    }

    open spec fn fits(i: int) -> bool {
        i64::MIN <= i <= i64::MAX
    }

    proof fn lemma_value(a: Self, b: Self) {
    }

    proof fn lemma_add(a: Self, b: Self) {
    }

    proof fn lemma_sub(a: Self, b: Self) {
    }

    proof fn lemma_mul(a: Self, b: Self) {
    }

    proof fn lemma_div(a: Self, b: Self) {
        if b != 0 {
            lemma_trunc_div_size(a as int, b as int);
        }
    }
}

impl SignedScalar for i64 {
    proof fn lemma_neg(a: Self) {
    }
}

impl IntScalar for i128 {
    open spec fn value(self) -> int {
        self as int
    }

    open spec fn fits(i: int) -> bool {
        i128::MIN <= i <= i128::MAX
    }

    proof fn lemma_value(a: Self, b: Self) {
    }

    proof fn lemma_add(a: Self, b: Self) {
    }

    proof fn lemma_sub(a: Self, b: Self) {
    }

    proof fn lemma_mul(a: Self, b: Self) {
    }

    proof fn lemma_div(a: Self, b: Self) {
        if b != 0 {
            lemma_trunc_div_size(a as int, b as int);
        }
    }
}

impl SignedScalar for i128 {
    proof fn lemma_neg(a: Self) {
    }
}

impl IntScalar for isize {
    open spec fn value(self) -> int {
        self as int
    }

    open spec fn fits(i: int) -> bool {
        isize::MIN <= i <= isize::MAX
    }

    proof fn lemma_value(a: Self, b: Self) {
    }

    proof fn lemma_add(a: Self, b: Self) {
    }

    proof fn lemma_sub(a: Self, b: Self) {
    }

    proof fn lemma_mul(a: Self, b: Self) {
    }

    proof fn lemma_div(a: Self, b: Self) {
        if b != 0 {
            lemma_trunc_div_size(a as int, b as int);
        }
    }
}

impl SignedScalar for isize {
    proof fn lemma_neg(a: Self) {
    }
}

} // verus!

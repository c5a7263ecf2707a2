//! The unsigned machine integers as integer scalars.

use vstd::prelude::*;
use crate::scalar::{IntScalar, lemma_trunc_div_size};

verus! {

impl IntScalar for u8 {
    open spec fn value(self) -> int {
        self as int
    }

    open spec fn fits(i: int) -> bool {
        u8::MIN <= i <= u8::MAX
    }

    proof fn lemma_value(a: Self, b: Self) {
    }

    proof fn lemma_add(a: Self, b: Self) {
    }

    proof fn lemma_sub(a: Self, b: Self) {
    }

    proof fn lemma_mul(a: Self, b: Self) {
    }

    proof fn lemma_div(a: Self, b: Self) {
        if b != 0 {
            lemma_trunc_div_size(a as int, b as int);
        }
    }
}

impl IntScalar for u16 {
    open spec fn value(self) -> int {
        self as int
    }

    open spec fn fits(i: int) -> bool {
        u16::MIN <= i <= u16::MAX
    }

    proof fn lemma_value(a: Self, b: Self) {
    }

    proof fn lemma_add(a: Self, b: Self) {
    }

    proof fn lemma_sub(a: Self, b: Self) {
    }

    proof fn lemma_mul(a: Self, b: Self) {
    }

    proof fn lemma_div(a: Self, b: Self) {
        if b != 0 {
            lemma_trunc_div_size(a as int, b as int);
        }
    }
}

impl IntScalar for u32 {
    open spec fn value(self) -> int {
        self as int
    }

    open spec fn fits(i: int) -> bool {
        u32::MIN <= i <= u32::MAX
    }

    proof fn lemma_value(a: Self, b: Self) {
    }

    proof fn lemma_add(a: Self, b: Self) {
    }

    proof fn lemma_sub(a: Self, b: Self) {
    }

    proof fn lemma_mul(a: Self, b: Self) {
    }

    proof fn lemma_div(a: Self, b: Self) {
        if b != 0 {
            lemma_trunc_div_size(a as int, b as int);
        }
    }
}

impl IntScalar for u64 {
    open spec fn value(self) -> int {
        self as int
    }

    open spec fn fits(i: int) -> bool {
        u64::MIN <= i <= u64::MAX
    }

    proof fn lemma_value(a: Self, b: Self) {
    }

    proof fn lemma_add(a: Self, b: Self) {
    }

    proof fn lemma_sub(a: Self, b: Self) {
    }

    proof fn lemma_mul(a: Self, b: Self) {
    }

    proof fn lemma_div(a: Self, b: Self) {
        if b != 0 {
            lemma_trunc_div_size(a as int, b as int);
        }
    }
}

impl IntScalar for u128 {
    open spec fn value(self) -> int {
        self as int
    }

    open spec fn fits(i: int) -> bool {
        u128::MIN <= i <= u128::MAX
    }

    proof fn lemma_value(a: Self, b: Self) {
    }

    proof fn lemma_add(a: Self, b: Self) {
    }

    proof fn lemma_sub(a: Self, b: Self) {
    }

    proof fn lemma_mul(a: Self, b: Self) {
    }

    proof fn lemma_div(a: Self, b: Self) {
        if b != 0 {
            lemma_trunc_div_size(a as int, b as int);
        }
    }
}

impl IntScalar for usize {
    open spec fn value(self) -> int {
        self as int
    }

    open spec fn fits(i: int) -> bool {
        usize::MIN <= i <= usize::MAX
    }

    proof fn lemma_value(a: Self, b: Self) {
    }

    proof fn lemma_add(a: Self, b: Self) {
    }

    proof fn lemma_sub(a: Self, b: Self) {
    }

    proof fn lemma_mul(a: Self, b: Self) {
    }

    proof fn lemma_div(a: Self, b: Self) {
        if b != 0 {
            lemma_trunc_div_size(a as int, b as int);
        }
    }
}

} // verus!

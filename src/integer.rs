//! The scalar interface for machine integers: exact ring arithmetic, with
//! overflow and division by zero excluded by the `*_ok` predicates.
use vstd::prelude::*;

use crate::scalar::{int_text, int_to_text, trunc_div, Scalar};

verus! {

impl Scalar for i64 {
    open spec fn spec_zero() -> i64 {
        0
    }

    open spec fn spec_one() -> i64 {
        1
    }

    open spec fn spec_sum(a: i64, b: i64) -> i64 {
        (a + b) as i64
    }

    open spec fn spec_diff(a: i64, b: i64) -> i64 {
        (a - b) as i64
    }

    open spec fn spec_prod(a: i64, b: i64) -> i64 {
        (a * b) as i64
    }

    open spec fn spec_quot(a: i64, b: i64) -> i64 {
        trunc_div(a as int, b as int) as i64
    }

    open spec fn spec_negate(a: i64) -> i64 {
        (-a) as i64
    }

    open spec fn sum_ok(a: i64, b: i64) -> bool {
        i64::MIN <= a + b <= i64::MAX
    }

    open spec fn diff_ok(a: i64, b: i64) -> bool {
        i64::MIN <= a - b <= i64::MAX
    }

    open spec fn prod_ok(a: i64, b: i64) -> bool {
        i64::MIN <= a * b <= i64::MAX
    }

    open spec fn quot_ok(a: i64, b: i64) -> bool {
        b != 0 && !(a == i64::MIN && b == -1)
    }

    open spec fn negate_ok(a: i64) -> bool {
        a != i64::MIN
    }

    open spec fn spec_eq(a: i64, b: i64) -> bool {
        a == b
    }

    open spec fn spec_lt(a: i64, b: i64) -> bool {
        a < b
    }

    open spec fn spec_text(a: i64) -> Seq<char> {
        int_text(a as int)
    }

    fn zero() -> (r: i64) {
        0
    }

    fn one() -> (r: i64) {
        1
    }

    fn add(&self, o: &i64) -> (r: i64) {
        *self + *o
    }

    fn sub(&self, o: &i64) -> (r: i64) {
        *self - *o
    }

    fn mul(&self, o: &i64) -> (r: i64) {
        *self * *o
    }

    fn div(&self, o: &i64) -> (r: i64) {
        *self / *o
    }

    fn neg(&self) -> (r: i64) {
        -*self
    }

    fn num_eq(&self, o: &i64) -> (r: bool) {
        *self == *o
    }

    fn lt(&self, o: &i64) -> (r: bool) {
        *self < *o
    }

    fn to_text(&self) -> (r: String) {
        int_to_text(*self as i64)
    }

    proof fn lemma_negate_involutive(a: i64) {
    }

    proof fn lemma_prod_negate_right(a: i64, b: i64) {
        assert(a * (-b) == -(a * b)) by (nonlinear_arith);
    }

    proof fn lemma_prod_negate_left(a: i64, b: i64) {
        assert((-a) * b == -(a * b)) by (nonlinear_arith);
    }

    proof fn lemma_sum_negate(a: i64, b: i64) {
    }

    proof fn lemma_quot_negate(a: i64, b: i64) {
        let x: int = if a >= 0 {
            a as int
        } else {
            -a
        };
        assert(0int / (b as int) == 0) by (nonlinear_arith)
            requires
                b != 0,
        ;
        assert(-x <= x / (b as int) <= x) by (nonlinear_arith)
            requires
                x >= 0,
                b != 0,
        ;
    }
}

impl Scalar for i32 {
    open spec fn spec_zero() -> i32 {
        0
    }

    open spec fn spec_one() -> i32 {
        1
    }

    open spec fn spec_sum(a: i32, b: i32) -> i32 {
        (a + b) as i32
    }

    open spec fn spec_diff(a: i32, b: i32) -> i32 {
        (a - b) as i32
    }

    open spec fn spec_prod(a: i32, b: i32) -> i32 {
        (a * b) as i32
    }

    open spec fn spec_quot(a: i32, b: i32) -> i32 {
        trunc_div(a as int, b as int) as i32
    }

    open spec fn spec_negate(a: i32) -> i32 {
        (-a) as i32
    }

    open spec fn sum_ok(a: i32, b: i32) -> bool {
        i32::MIN <= a + b <= i32::MAX
    }

    open spec fn diff_ok(a: i32, b: i32) -> bool {
        i32::MIN <= a - b <= i32::MAX
    }

    open spec fn prod_ok(a: i32, b: i32) -> bool {
        i32::MIN <= a * b <= i32::MAX
    }

    open spec fn quot_ok(a: i32, b: i32) -> bool {
        b != 0 && !(a == i32::MIN && b == -1)
    }

    open spec fn negate_ok(a: i32) -> bool {
        a != i32::MIN
    }

    open spec fn spec_eq(a: i32, b: i32) -> bool {
        a == b
    }

    open spec fn spec_lt(a: i32, b: i32) -> bool {
        a < b
    }

    open spec fn spec_text(a: i32) -> Seq<char> {
        int_text(a as int)
    }

    fn zero() -> (r: i32) {
        0
    }

    fn one() -> (r: i32) {
        1
    }

    fn add(&self, o: &i32) -> (r: i32) {
        *self + *o
    }

    fn sub(&self, o: &i32) -> (r: i32) {
        *self - *o
    }

    fn mul(&self, o: &i32) -> (r: i32) {
        *self * *o
    }

    fn div(&self, o: &i32) -> (r: i32) {
        *self / *o
    }

    fn neg(&self) -> (r: i32) {
        -*self
    }

    fn num_eq(&self, o: &i32) -> (r: bool) {
        *self == *o
    }

    fn lt(&self, o: &i32) -> (r: bool) {
        *self < *o
    }

    fn to_text(&self) -> (r: String) {
        int_to_text(*self as i64)
    }

    proof fn lemma_negate_involutive(a: i32) {
    }

    proof fn lemma_prod_negate_right(a: i32, b: i32) {
        assert(a * (-b) == -(a * b)) by (nonlinear_arith);
    }

    proof fn lemma_prod_negate_left(a: i32, b: i32) {
        assert((-a) * b == -(a * b)) by (nonlinear_arith);
    }

    proof fn lemma_sum_negate(a: i32, b: i32) {
    }

    proof fn lemma_quot_negate(a: i32, b: i32) {
        let x: int = if a >= 0 {
            a as int
        } else {
            -a
        };
        assert(0int / (b as int) == 0) by (nonlinear_arith)
            requires
                b != 0,
        ;
        assert(-x <= x / (b as int) <= x) by (nonlinear_arith)
            requires
                x >= 0,
                b != 0,
        ;
    }
}

} // verus!

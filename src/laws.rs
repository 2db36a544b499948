//! Identities of the complex layer, proved from the contracts of its functions
//! and the laws of the scalar interface.
use vstd::prelude::*;

use vstd::arithmetic::div_mod::lemma_basic_div_specific_divisor;

use crate::complex::Complex;
use crate::scalar::{trunc_div, Real, Scalar};

verus! {

/// Conjugation is an involution: `conj(conj(z)) == z`.
pub proof fn lemma_conj_involutive<T: Scalar>(z: Complex<T>)
    requires
        z.conj_ok(),
    ensures
        z.spec_conj().conj_ok(),
        z.spec_conj().spec_conj() == z,
{
    T::lemma_negate_involutive(z.im);
}

proof fn lemma_trunc_div_multiple(x: int, t: int)
    requires
        t != 0,
    ensures
        trunc_div(x * t, t) == x,
{
    assert((x * t) / t == x) by (nonlinear_arith)
        requires
            t != 0,
    ;
    assert(((-x) * t) / t == -x) by (nonlinear_arith)
        requires
            t != 0,
    ;
    assert(-(x * t) == (-x) * t) by (nonlinear_arith);
}

/// Dividing by a nonzero integer undoes scaling by it:
/// `unscale(scale(z, t), t) == z`.
pub proof fn lemma_scale_unscale(z: Complex<i64>, t: i64)
    requires
        t != 0,
        z.scale_ok(t),
    ensures
        z.spec_scale(t).unscale_ok(t),
        z.spec_scale(t).spec_unscale(t) == z,
{
    lemma_trunc_div_multiple(z.re as int, t as int);
    lemma_trunc_div_multiple(z.im as int, t as int);
}

/// An integer complex number times its inverse is one exactly when its squared
/// norm is one (the units `1`, `-1`, `i`, `-i`): `z * inv(z) == 1`.
pub proof fn lemma_mul_inv(z: Complex<i64>)
    requires
        z.norm_sqr_ok(),
        z.spec_norm_sqr() == 1,
    ensures
        z.inv_ok(),
        z.prod_ok(z.spec_inv()),
        z.spec_prod(z.spec_inv()) == Complex::<i64>::spec_one(),
{
    let a = z.re as int;
    let b = z.im as int;
    assert(a * a + b * b == 1);
    assert((a == 1 || a == -1) && b == 0 || a == 0 && (b == 1 || b == -1)) by (nonlinear_arith)
        requires
            a * a + b * b == 1,
    ;
}

/// Where the squared norm of a nonzero integer complex number exceeds one, its
/// inverse truncates to zero, so `z * inv(z)` is zero rather than one.
pub proof fn lemma_inv_truncates(z: Complex<i64>)
    requires
        z.norm_sqr_ok(),
        z.spec_norm_sqr() > 1,
        z.conj_ok(),
    ensures
        z.inv_ok(),
        z.spec_inv() == Complex::<i64>::spec_zero(),
{
    let a = z.re as int;
    let b = z.im as int;
    let n = a * a + b * b;
    assert(-n < a < n && -n < b < n) by (nonlinear_arith)
        requires
            n == a * a + b * b,
            n > 1,
    ;
    lemma_basic_div_specific_divisor(n);
}

/// Sine commutes with conjugation and is odd:
/// `sin(conj(z)) == conj(sin(z))` and `sin(-z) == -sin(z)`.
pub proof fn lemma_sin_symmetry<T: Real>(z: Complex<T>)
    ensures
        z.spec_conj().spec_sin() == z.spec_sin().spec_conj(),
        z.spec_negate().spec_sin() == z.spec_sin().spec_negate(),
{
    T::lemma_total();
    let (a, b) = (z.re, z.im);
    T::lemma_sin_odd(a);
    T::lemma_cos_even(a);
    T::lemma_sinh_odd(b);
    T::lemma_cosh_even(b);
    T::lemma_prod_negate_right(T::spec_cos(a), T::spec_sinh(b));
    T::lemma_prod_negate_left(T::spec_sin(a), T::spec_cosh(b));
}

/// Cosine commutes with conjugation and is even:
/// `cos(conj(z)) == conj(cos(z))` and `cos(-z) == cos(z)`.
pub proof fn lemma_cos_symmetry<T: Real>(z: Complex<T>)
    ensures
        z.spec_conj().spec_cos() == z.spec_cos().spec_conj(),
        z.spec_negate().spec_cos() == z.spec_cos(),
{
    T::lemma_total();
    let (a, b) = (z.re, z.im);
    T::lemma_sin_odd(a);
    T::lemma_cos_even(a);
    T::lemma_sinh_odd(b);
    T::lemma_cosh_even(b);
    let s = T::spec_sin(a);
    let sh = T::spec_sinh(b);
    T::lemma_prod_negate_right(T::spec_negate(s), sh);
    T::lemma_negate_involutive(s);
    T::lemma_prod_negate_right(s, sh);
    T::lemma_prod_negate_left(s, sh);
}

/// Tangent commutes with conjugation and is odd:
/// `tan(conj(z)) == conj(tan(z))` and `tan(-z) == -tan(z)`.
pub proof fn lemma_tan_symmetry<T: Real>(z: Complex<T>)
    ensures
        z.spec_conj().spec_tan() == z.spec_tan().spec_conj(),
        z.spec_negate().spec_tan() == z.spec_tan().spec_negate(),
{
    T::lemma_total();
    let (a, b) = (z.re, z.im);
    let two_re = T::spec_sum(a, a);
    let two_im = T::spec_sum(b, b);
    T::lemma_sum_negate(a, a);
    T::lemma_sum_negate(b, b);
    T::lemma_sin_odd(two_re);
    T::lemma_cos_even(two_re);
    T::lemma_sinh_odd(two_im);
    T::lemma_cosh_even(two_im);
    let d = T::spec_sum(T::spec_cos(two_re), T::spec_cosh(two_im));
    T::lemma_quot_negate(T::spec_sin(two_re), d);
    T::lemma_quot_negate(T::spec_sinh(two_im), d);
}

/// Hyperbolic sine commutes with conjugation and is odd:
/// `sinh(conj(z)) == conj(sinh(z))` and `sinh(-z) == -sinh(z)`.
pub proof fn lemma_sinh_symmetry<T: Real>(z: Complex<T>)
    ensures
        z.spec_conj().spec_sinh() == z.spec_sinh().spec_conj(),
        z.spec_negate().spec_sinh() == z.spec_sinh().spec_negate(),
{
    T::lemma_total();
    let (a, b) = (z.re, z.im);
    T::lemma_sinh_odd(a);
    T::lemma_cosh_even(a);
    T::lemma_sin_odd(b);
    T::lemma_cos_even(b);
    T::lemma_prod_negate_right(T::spec_cosh(a), T::spec_sin(b));
    T::lemma_prod_negate_left(T::spec_sinh(a), T::spec_cos(b));
}

/// Hyperbolic cosine commutes with conjugation and is even:
/// `cosh(conj(z)) == conj(cosh(z))` and `cosh(-z) == cosh(z)`.
pub proof fn lemma_cosh_symmetry<T: Real>(z: Complex<T>)
    ensures
        z.spec_conj().spec_cosh() == z.spec_cosh().spec_conj(),
        z.spec_negate().spec_cosh() == z.spec_cosh(),
{
    T::lemma_total();
    let (a, b) = (z.re, z.im);
    T::lemma_sinh_odd(a);
    T::lemma_cosh_even(a);
    T::lemma_sin_odd(b);
    T::lemma_cos_even(b);
    let sh = T::spec_sinh(a);
    let s = T::spec_sin(b);
    T::lemma_prod_negate_right(sh, s);
    T::lemma_prod_negate_left(sh, s);
    T::lemma_prod_negate_right(T::spec_negate(sh), s);
    T::lemma_negate_involutive(T::spec_prod(sh, s));
}

/// Hyperbolic tangent commutes with conjugation and is odd:
/// `tanh(conj(z)) == conj(tanh(z))` and `tanh(-z) == -tanh(z)`.
pub proof fn lemma_tanh_symmetry<T: Real>(z: Complex<T>)
    ensures
        z.spec_conj().spec_tanh() == z.spec_tanh().spec_conj(),
        z.spec_negate().spec_tanh() == z.spec_tanh().spec_negate(),
{
    T::lemma_total();
    let (a, b) = (z.re, z.im);
    let two_re = T::spec_sum(a, a);
    let two_im = T::spec_sum(b, b);
    T::lemma_sum_negate(a, a);
    T::lemma_sum_negate(b, b);
    T::lemma_sinh_odd(two_re);
    T::lemma_cosh_even(two_re);
    T::lemma_sin_odd(two_im);
    T::lemma_cos_even(two_im);
    let d = T::spec_sum(T::spec_cosh(two_re), T::spec_cos(two_im));
    T::lemma_quot_negate(T::spec_sinh(two_re), d);
    T::lemma_quot_negate(T::spec_sin(two_im), d);
}

/// Off the negative real axis, the logarithm commutes with conjugation:
/// `ln(conj(z)) == conj(ln(z))`.
pub proof fn lemma_ln_conj<T: Real>(z: Complex<T>)
    requires
        !(T::spec_eq(z.im, T::spec_zero()) && T::spec_lt(z.re, T::spec_zero())),
    ensures
        z.spec_conj().spec_ln() == z.spec_ln().spec_conj(),
{
    T::lemma_hypot_even(z.re, z.im);
    T::lemma_atan2_odd(z.im, z.re);
}

/// Off the negative real axis, the square root commutes with conjugation:
/// `sqrt(conj(z)) == conj(sqrt(z))`.
pub proof fn lemma_sqrt_conj<T: Real>(z: Complex<T>)
    requires
        !(T::spec_eq(z.im, T::spec_zero()) && T::spec_lt(z.re, T::spec_zero())),
    ensures
        z.spec_conj().spec_sqrt() == z.spec_sqrt().spec_conj(),
{
    T::lemma_total();
    T::lemma_hypot_even(z.re, z.im);
    T::lemma_atan2_odd(z.im, z.re);
    let s = T::spec_sqrt(z.spec_norm());
    let half = T::spec_quot(z.spec_arg(), Complex::<T>::spec_two());
    T::lemma_quot_negate(z.spec_arg(), Complex::<T>::spec_two());
    T::lemma_cos_even(half);
    T::lemma_sin_odd(half);
    T::lemma_prod_negate_right(s, T::spec_sin(half));
}

} // verus!

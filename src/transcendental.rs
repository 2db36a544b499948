//! Polar form and the transcendental functions of a complex number over a
//! real scalar type, with their principal branches.
use vstd::prelude::*;

use core::ops::Neg;

use crate::complex::Complex;
use crate::scalar::{Real, Scalar};

verus! {

impl<T: Real> Complex<T> {
    /// `hypot(re, im)`
    pub open spec fn spec_norm(self) -> T {
        T::spec_hypot(self.re, self.im)
    }

    /// `atan2(im, re)`
    pub open spec fn spec_arg(self) -> T {
        T::spec_atan2(self.im, self.re)
    }

    /// `r * (cos(theta) + i sin(theta))`
    pub open spec fn spec_from_polar(r: T, theta: T) -> Complex<T> {
        Complex { re: T::spec_prod(r, T::spec_cos(theta)), im: T::spec_prod(r, T::spec_sin(theta)) }
    }

    /// The scalar two, `1 + 1`.
    pub open spec fn spec_two() -> T {
        T::spec_sum(T::spec_one(), T::spec_one())
    }

    /// `e^(a + bi) = e^a (cos(b) + i sin(b))`
    pub open spec fn spec_exp(self) -> Complex<T> {
        Complex { re: T::spec_cos(self.im), im: T::spec_sin(self.im) }.spec_scale(
            T::spec_exp(self.re),
        )
    }

    /// `ln(z) = ln|z| + i arg(z)`
    pub open spec fn spec_ln(self) -> Complex<T> {
        Complex { re: T::spec_ln(self.spec_norm()), im: self.spec_arg() }
    }

    /// `sqrt(r e^(it)) = sqrt(r) e^(it/2)`
    pub open spec fn spec_sqrt(self) -> Complex<T> {
        Self::spec_from_polar(T::spec_sqrt(self.spec_norm()), T::spec_quot(self.spec_arg(), Self::spec_two()))
    }

    /// `sin(a + bi) = sin(a)cosh(b) + i cos(a)sinh(b)`
    pub open spec fn spec_sin(self) -> Complex<T> {
        Complex {
            re: T::spec_prod(T::spec_sin(self.re), T::spec_cosh(self.im)),
            im: T::spec_prod(T::spec_cos(self.re), T::spec_sinh(self.im)),
        }
    }

    /// `cos(a + bi) = cos(a)cosh(b) - i sin(a)sinh(b)`
    pub open spec fn spec_cos(self) -> Complex<T> {
        Complex {
            re: T::spec_prod(T::spec_cos(self.re), T::spec_cosh(self.im)),
            im: T::spec_prod(T::spec_negate(T::spec_sin(self.re)), T::spec_sinh(self.im)),
        }
    }

    /// `tan(a + bi) = (sin(2a) + i sinh(2b)) / (cos(2a) + cosh(2b))`
    pub open spec fn spec_tan(self) -> Complex<T> {
        let two_re = T::spec_sum(self.re, self.re);
        let two_im = T::spec_sum(self.im, self.im);
        Complex { re: T::spec_sin(two_re), im: T::spec_sinh(two_im) }.spec_unscale(
            T::spec_sum(T::spec_cos(two_re), T::spec_cosh(two_im)),
        )
    }

    /// `sinh(a + bi) = sinh(a)cos(b) + i cosh(a)sin(b)`
    pub open spec fn spec_sinh(self) -> Complex<T> {
        Complex {
            re: T::spec_prod(T::spec_sinh(self.re), T::spec_cos(self.im)),
            im: T::spec_prod(T::spec_cosh(self.re), T::spec_sin(self.im)),
        }
    }

    /// `cosh(a + bi) = cosh(a)cos(b) + i sinh(a)sin(b)`
    pub open spec fn spec_cosh(self) -> Complex<T> {
        Complex {
            re: T::spec_prod(T::spec_cosh(self.re), T::spec_cos(self.im)),
            im: T::spec_prod(T::spec_sinh(self.re), T::spec_sin(self.im)),
        }
    }

    /// `tanh(a + bi) = (sinh(2a) + i sin(2b)) / (cosh(2a) + cos(2b))`
    pub open spec fn spec_tanh(self) -> Complex<T> {
        let two_re = T::spec_sum(self.re, self.re);
        let two_im = T::spec_sum(self.im, self.im);
        Complex { re: T::spec_sinh(two_re), im: T::spec_sin(two_im) }.spec_unscale(
            T::spec_sum(T::spec_cosh(two_re), T::spec_cos(two_im)),
        )
    }

    /// `asin(z) = -i ln(sqrt(1 - z^2) + iz)`
    pub open spec fn spec_asin(self) -> Complex<T> {
        let i = Self::spec_i();
        let one = Self::spec_one();
        i.spec_negate().spec_prod(
            one.spec_diff(self.spec_prod(self)).spec_sqrt().spec_sum(i.spec_prod(self)).spec_ln(),
        )
    }

    /// `acos(z) = -i ln(i sqrt(1 - z^2) + z)`
    pub open spec fn spec_acos(self) -> Complex<T> {
        let i = Self::spec_i();
        let one = Self::spec_one();
        i.spec_negate().spec_prod(
            i.spec_prod(one.spec_diff(self.spec_prod(self)).spec_sqrt()).spec_sum(self).spec_ln(),
        )
    }

    /// Whether `self` is numerically equal to `o` in both parts.
    pub open spec fn spec_num_eq(self, o: Complex<T>) -> bool {
        T::spec_eq(self.re, o.re) && T::spec_eq(self.im, o.im)
    }

    /// `atan(z) = (ln(1 + iz) - ln(1 - iz)) / 2i`, and `(0, ±inf)` at the branch
    /// points `±i`.
    pub open spec fn spec_atan(self) -> Complex<T> {
        let i = Self::spec_i();
        let one = Self::spec_one();
        let two = one.spec_sum(one);
        if self.spec_num_eq(i) {
            Complex { re: T::spec_zero(), im: T::spec_infinity() }
        } else if self.spec_num_eq(i.spec_negate()) {
            Complex { re: T::spec_zero(), im: T::spec_negate(T::spec_infinity()) }
        } else {
            one.spec_sum(i.spec_prod(self)).spec_ln().spec_diff(
                one.spec_diff(i.spec_prod(self)).spec_ln(),
            ).spec_quot(two.spec_prod(i))
        }
    }

    /// `asinh(z) = ln(z + sqrt(1 + z^2))`
    pub open spec fn spec_asinh(self) -> Complex<T> {
        let one = Self::spec_one();
        self.spec_sum(one.spec_sum(self.spec_prod(self)).spec_sqrt()).spec_ln()
    }

    /// `acosh(z) = 2 ln(sqrt((z + 1)/2) + sqrt((z - 1)/2))`
    pub open spec fn spec_acosh(self) -> Complex<T> {
        let one = Self::spec_one();
        let two = one.spec_sum(one);
        two.spec_prod(
            self.spec_sum(one).spec_quot(two).spec_sqrt().spec_sum(
                self.spec_diff(one).spec_quot(two).spec_sqrt(),
            ).spec_ln(),
        )
    }

    /// `atanh(z) = (ln(1 + z) - ln(1 - z)) / 2`, and `(±inf, 0)` at the branch
    /// points `±1`.
    pub open spec fn spec_atanh(self) -> Complex<T> {
        let one = Self::spec_one();
        let two = one.spec_sum(one);
        if self.spec_num_eq(one) {
            Complex { re: T::spec_infinity(), im: T::spec_zero() }
        } else if self.spec_num_eq(one.spec_negate()) {
            Complex { re: T::spec_negate(T::spec_infinity()), im: T::spec_zero() }
        } else {
            one.spec_sum(self).spec_ln().spec_diff(one.spec_diff(self).spec_ln()).spec_quot(two)
        }
    }

    /// Calculate |self|
    pub fn norm(&self) -> (r: T)
        ensures
            r == self.spec_norm(),
    {
        self.re.hypot(&self.im)
    }

    /// Calculate the principal Arg of self.
    pub fn arg(&self) -> (r: T)
        ensures
            r == self.spec_arg(),
    {
        self.im.atan2(&self.re)
    }

    /// Convert to polar form (r, theta), such that `self = r * exp(i * theta)`
    pub fn to_polar(&self) -> (r: (T, T))
        ensures
            r == (self.spec_norm(), self.spec_arg()),
    {
        (self.norm(), self.arg())
    }

    /// Convert a polar representation into a complex number.
    pub fn from_polar(r: &T, theta: &T) -> (z: Complex<T>)
        ensures
            z == Self::spec_from_polar(*r, *theta),
    {
        proof {
            T::lemma_total();
        }
        Complex::new(r.mul(&theta.cos()), r.mul(&theta.sin()))
    }

    /// Computes `e^(self)`, where `e` is the base of the natural logarithm.
    pub fn exp(&self) -> (r: Complex<T>)
        ensures
            r == self.spec_exp(),
    {
        proof {
            T::lemma_total();
        }
        Complex::new(self.im.cos(), self.im.sin()).scale(self.re.exp())
    }

    /// Computes the principal value of natural logarithm of `self`.
    ///
    /// This function has one branch cut:
    ///
    /// * `(-inf, 0]`, continuous from above.
    ///
    /// The branch satisfies `-pi <= arg(ln(z)) <= pi`.
    pub fn ln(&self) -> (r: Complex<T>)
        ensures
            r == self.spec_ln(),
    {
        Complex::new(self.norm().ln(), self.arg())
    }

    /// Computes the principal value of the square root of `self`.
    ///
    /// This function has one branch cut:
    ///
    /// * `(-inf, 0)`, continuous from above.
    ///
    /// The branch satisfies `-pi/2 <= arg(sqrt(z)) <= pi/2`.
    pub fn sqrt(&self) -> (r: Complex<T>)
        ensures
            r == self.spec_sqrt(),
    {
        proof {
            T::lemma_total();
        }
        let two = T::one().add(&T::one());
        let (r, theta) = self.to_polar();
        Complex::from_polar(&r.sqrt(), &theta.div(&two))
    }

    /// Computes the sine of `self`.
    pub fn sin(&self) -> (r: Complex<T>)
        ensures
            r == self.spec_sin(),
    {
        proof {
            T::lemma_total();
        }
        Complex::new(
            self.re.sin().mul(&self.im.cosh()),
            self.re.cos().mul(&self.im.sinh()),
        )
    }

    /// Computes the cosine of `self`.
    pub fn cos(&self) -> (r: Complex<T>)
        ensures
            r == self.spec_cos(),
    {
        proof {
            T::lemma_total();
        }
        Complex::new(
            self.re.cos().mul(&self.im.cosh()),
            self.re.sin().neg().mul(&self.im.sinh()),
        )
    }

    /// Computes the tangent of `self`.
    pub fn tan(&self) -> (r: Complex<T>)
        ensures
            r == self.spec_tan(),
    {
        proof {
            T::lemma_total();
        }
        let (two_re, two_im) = (self.re.add(&self.re), self.im.add(&self.im));
        Complex::new(two_re.sin(), two_im.sinh()).unscale(two_re.cos().add(&two_im.cosh()))
    }

    /// Computes the principal value of the inverse sine of `self`.
    ///
    /// This function has two branch cuts:
    ///
    /// * `(-inf, -1)`, continuous from above.
    /// * `(1, inf)`, continuous from below.
    ///
    /// The branch satisfies `-pi/2 <= Re(asin(z)) <= pi/2`.
    pub fn asin(&self) -> (r: Complex<T>)
        ensures
            r == self.spec_asin(),
    {
        proof {
            T::lemma_total();
        }
        let i = Complex::new(T::zero(), T::one());
        let z = *self;
        i.neg() * ((Complex::one() - z * z).sqrt() + i * z).ln()
    }

    /// Computes the principal value of the inverse cosine of `self`.
    ///
    /// This function has two branch cuts:
    ///
    /// * `(-inf, -1)`, continuous from above.
    /// * `(1, inf)`, continuous from below.
    ///
    /// The branch satisfies `0 <= Re(acos(z)) <= pi`.
    pub fn acos(&self) -> (r: Complex<T>)
        ensures
            r == self.spec_acos(),
    {
        proof {
            T::lemma_total();
        }
        let i = Complex::new(T::zero(), T::one());
        let z = *self;
        i.neg() * (i * (Complex::one() - z * z).sqrt() + z).ln()
    }

    /// Whether `self` is numerically equal to `o` in both parts.
    fn num_eq(&self, o: &Complex<T>) -> (r: bool)
        ensures
            r == self.spec_num_eq(*o),
    {
        self.re.num_eq(&o.re) && self.im.num_eq(&o.im)
    }

    /// Computes the principal value of the inverse tangent of `self`.
    ///
    /// This function has two branch cuts:
    ///
    /// * `(-inf i, -i]`, continuous from the left.
    /// * `[i, inf i)`, continuous from the right.
    ///
    /// The branch satisfies `-pi/2 <= Re(atan(z)) <= pi/2`. At the branch points
    /// `i` and `-i` the result is `(0, inf)` and `(0, -inf)`.
    pub fn atan(&self) -> (r: Complex<T>)
        ensures
            r == self.spec_atan(),
            self.spec_num_eq(Self::spec_i()) ==> r == (Complex {
                re: T::spec_zero(),
                im: T::spec_infinity(),
            }),
            !self.spec_num_eq(Self::spec_i()) && self.spec_num_eq(Self::spec_i().spec_negate())
                ==> r == (Complex {
                re: T::spec_zero(),
                im: T::spec_negate(T::spec_infinity()),
            }),
    {
        proof {
            T::lemma_total();
        }
        let i = Complex::new(T::zero(), T::one());
        let one = Complex::one();
        let two = one + one;
        if self.num_eq(&i) {
            return Complex::new(T::zero(), T::infinity());
        } else if self.num_eq(&i.neg()) {
            return Complex::new(T::zero(), T::infinity().neg());
        }
        let z = *self;
        ((one + i * z).ln() - (one - i * z).ln()) / (two * i)
    }

    /// Computes the hyperbolic sine of `self`.
    pub fn sinh(&self) -> (r: Complex<T>)
        ensures
            r == self.spec_sinh(),
    {
        proof {
            T::lemma_total();
        }
        Complex::new(
            self.re.sinh().mul(&self.im.cos()),
            self.re.cosh().mul(&self.im.sin()),
        )
    }

    /// Computes the hyperbolic cosine of `self`.
    pub fn cosh(&self) -> (r: Complex<T>)
        ensures
            r == self.spec_cosh(),
    {
        proof {
            T::lemma_total();
        }
        Complex::new(
            self.re.cosh().mul(&self.im.cos()),
            self.re.sinh().mul(&self.im.sin()),
        )
    }

    /// Computes the hyperbolic tangent of `self`.
    pub fn tanh(&self) -> (r: Complex<T>)
        ensures
            r == self.spec_tanh(),
    {
        proof {
            T::lemma_total();
        }
        let (two_re, two_im) = (self.re.add(&self.re), self.im.add(&self.im));
        Complex::new(two_re.sinh(), two_im.sin()).unscale(two_re.cosh().add(&two_im.cos()))
    }

    /// Computes the principal value of inverse hyperbolic sine of `self`.
    ///
    /// This function has two branch cuts:
    ///
    /// * `(-inf i, -i)`, continuous from the left.
    /// * `(i, inf i)`, continuous from the right.
    ///
    /// The branch satisfies `-pi/2 <= Im(asinh(z)) <= pi/2`.
    pub fn asinh(&self) -> (r: Complex<T>)
        ensures
            r == self.spec_asinh(),
    {
        proof {
            T::lemma_total();
        }
        let one = Complex::one();
        let z = *self;
        (z + (one + z * z).sqrt()).ln()
    }

    /// Computes the principal value of inverse hyperbolic cosine of `self`.
    ///
    /// This function has one branch cut:
    ///
    /// * `(-inf, 1)`, continuous from above.
    ///
    /// The branch satisfies `-pi <= Im(acosh(z)) <= pi` and `0 <= Re(acosh(z)) < inf`.
    pub fn acosh(&self) -> (r: Complex<T>)
        ensures
            r == self.spec_acosh(),
    {
        proof {
            T::lemma_total();
        }
        let one = Complex::one();
        let two = one + one;
        let z = *self;
        two * (((z + one) / two).sqrt() + ((z - one) / two).sqrt()).ln()
    }

    /// Computes the principal value of inverse hyperbolic tangent of `self`.
    ///
    /// This function has two branch cuts:
    ///
    /// * `(-inf, -1]`, continuous from above.
    /// * `[1, inf)`, continuous from below.
    ///
    /// The branch satisfies `-pi/2 <= Im(atanh(z)) <= pi/2`. At the branch points
    /// `1` and `-1` the result is `(inf, 0)` and `(-inf, 0)`.
    pub fn atanh(&self) -> (r: Complex<T>)
        ensures
            r == self.spec_atanh(),
            self.spec_num_eq(Self::spec_one()) ==> r == (Complex {
                re: T::spec_infinity(),
                im: T::spec_zero(),
            }),
            !self.spec_num_eq(Self::spec_one()) && self.spec_num_eq(Self::spec_one().spec_negate())
                ==> r == (Complex {
                re: T::spec_negate(T::spec_infinity()),
                im: T::spec_zero(),
            }),
    {
        proof {
            T::lemma_total();
        }
        let one = Complex::one();
        let two = one + one;
        if self.num_eq(&one) {
            return Complex::new(T::infinity(), T::zero());
        } else if self.num_eq(&one.neg()) {
            return Complex::new(T::infinity().neg(), T::zero());
        }
        let z = *self;
        ((one + z).ln() - (one - z).ln()) / two
    }

    /// Checks if the given complex number is NaN
    pub fn is_nan(self) -> (r: bool)
        ensures
            r == (T::spec_is_nan(self.re) || T::spec_is_nan(self.im)),
    {
        self.re.is_nan() || self.im.is_nan()
    }
}

} // verus!

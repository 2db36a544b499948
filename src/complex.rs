//! The complex value type and its arithmetic layer.
use vstd::prelude::*;

use crate::scalar::Scalar;

verus! {

/// A complex number in Cartesian form.
#[derive(PartialEq, Copy, Clone, Hash, Debug)]
pub struct Complex<T> {
    /// Real portion of the complex number
    pub re: T,
    /// Imaginary portion of the complex number
    pub im: T,
}

impl<T> Complex<T> {
    /// Creates a new complex number from its two parts.
    pub fn new(re: T, im: T) -> (r: Complex<T>)
        ensures
            r.re == re,
            r.im == im,
    {
        Complex { re, im }
    }
}

impl<T: Scalar> Complex<T> {
    pub open spec fn spec_zero() -> Complex<T> {
        Complex { re: T::spec_zero(), im: T::spec_zero() }
    }

    pub open spec fn spec_one() -> Complex<T> {
        Complex { re: T::spec_one(), im: T::spec_zero() }
    }

    /// The imaginary unit.
    pub open spec fn spec_i() -> Complex<T> {
        Complex { re: T::spec_zero(), im: T::spec_one() }
    }

    pub open spec fn spec_is_zero(self) -> bool {
        T::spec_eq(self.re, T::spec_zero()) && T::spec_eq(self.im, T::spec_zero())
    }

    /// `re*re + im*im`
    pub open spec fn spec_norm_sqr(self) -> T {
        T::spec_sum(T::spec_prod(self.re, self.re), T::spec_prod(self.im, self.im))
    }

    pub open spec fn norm_sqr_ok(self) -> bool {
        &&& T::prod_ok(self.re, self.re)
        &&& T::prod_ok(self.im, self.im)
        &&& T::sum_ok(T::spec_prod(self.re, self.re), T::spec_prod(self.im, self.im))
    }

    pub open spec fn spec_scale(self, t: T) -> Complex<T> {
        Complex { re: T::spec_prod(self.re, t), im: T::spec_prod(self.im, t) }
    }

    pub open spec fn scale_ok(self, t: T) -> bool {
        T::prod_ok(self.re, t) && T::prod_ok(self.im, t)
    }

    pub open spec fn spec_unscale(self, t: T) -> Complex<T> {
        Complex { re: T::spec_quot(self.re, t), im: T::spec_quot(self.im, t) }
    }

    pub open spec fn unscale_ok(self, t: T) -> bool {
        T::quot_ok(self.re, t) && T::quot_ok(self.im, t)
    }

    /// `re - i im`
    pub open spec fn spec_conj(self) -> Complex<T> {
        Complex { re: self.re, im: T::spec_negate(self.im) }
    }

    pub open spec fn conj_ok(self) -> bool {
        T::negate_ok(self.im)
    }

    /// The conjugate divided by the squared norm.
    pub open spec fn spec_inv(self) -> Complex<T> {
        let n = self.spec_norm_sqr();
        Complex { re: T::spec_quot(self.re, n), im: T::spec_quot(T::spec_negate(self.im), n) }
    }

    pub open spec fn inv_ok(self) -> bool {
        let n = self.spec_norm_sqr();
        &&& self.norm_sqr_ok()
        &&& T::negate_ok(self.im)
        &&& T::quot_ok(self.re, n)
        &&& T::quot_ok(T::spec_negate(self.im), n)
    }

    /// `(a + i b) + (c + i d) == (a + c) + i (b + d)`
    pub open spec fn spec_sum(self, o: Complex<T>) -> Complex<T> {
        Complex { re: T::spec_sum(self.re, o.re), im: T::spec_sum(self.im, o.im) }
    }

    pub open spec fn sum_ok(self, o: Complex<T>) -> bool {
        T::sum_ok(self.re, o.re) && T::sum_ok(self.im, o.im)
    }

    /// `(a + i b) - (c + i d) == (a - c) + i (b - d)`
    pub open spec fn spec_diff(self, o: Complex<T>) -> Complex<T> {
        Complex { re: T::spec_diff(self.re, o.re), im: T::spec_diff(self.im, o.im) }
    }

    pub open spec fn diff_ok(self, o: Complex<T>) -> bool {
        T::diff_ok(self.re, o.re) && T::diff_ok(self.im, o.im)
    }

    /// `(a + i b) * (c + i d) == (a*c - b*d) + i (a*d + b*c)`
    pub open spec fn spec_prod(self, o: Complex<T>) -> Complex<T> {
        Complex {
            re: T::spec_diff(T::spec_prod(self.re, o.re), T::spec_prod(self.im, o.im)),
            im: T::spec_sum(T::spec_prod(self.re, o.im), T::spec_prod(self.im, o.re)),
        }
    }

    pub open spec fn prod_ok(self, o: Complex<T>) -> bool {
        &&& T::prod_ok(self.re, o.re)
        &&& T::prod_ok(self.im, o.im)
        &&& T::prod_ok(self.re, o.im)
        &&& T::prod_ok(self.im, o.re)
        &&& T::diff_ok(T::spec_prod(self.re, o.re), T::spec_prod(self.im, o.im))
        &&& T::sum_ok(T::spec_prod(self.re, o.im), T::spec_prod(self.im, o.re))
    }

    /// `(a + i b) / (c + i d) == [(a*c + b*d) + i (b*c - a*d)] / (c*c + d*d)`
    pub open spec fn spec_quot(self, o: Complex<T>) -> Complex<T> {
        let n = o.spec_norm_sqr();
        Complex {
            re: T::spec_quot(T::spec_sum(T::spec_prod(self.re, o.re), T::spec_prod(self.im, o.im)), n),
            im: T::spec_quot(T::spec_diff(T::spec_prod(self.im, o.re), T::spec_prod(self.re, o.im)), n),
        }
    }

    pub open spec fn quot_ok(self, o: Complex<T>) -> bool {
        let n = o.spec_norm_sqr();
        &&& o.norm_sqr_ok()
        &&& T::prod_ok(self.re, o.re)
        &&& T::prod_ok(self.im, o.im)
        &&& T::prod_ok(self.im, o.re)
        &&& T::prod_ok(self.re, o.im)
        &&& T::sum_ok(T::spec_prod(self.re, o.re), T::spec_prod(self.im, o.im))
        &&& T::diff_ok(T::spec_prod(self.im, o.re), T::spec_prod(self.re, o.im))
        &&& T::quot_ok(T::spec_sum(T::spec_prod(self.re, o.re), T::spec_prod(self.im, o.im)), n)
        &&& T::quot_ok(T::spec_diff(T::spec_prod(self.im, o.re), T::spec_prod(self.re, o.im)), n)
    }

    pub open spec fn spec_negate(self) -> Complex<T> {
        Complex { re: T::spec_negate(self.re), im: T::spec_negate(self.im) }
    }

    pub open spec fn negate_ok(self) -> bool {
        T::negate_ok(self.re) && T::negate_ok(self.im)
    }

    /// `"re+imi"`, or `"re-mi"` with `m = 0 - im` when `im` is negative.
    pub open spec fn spec_text(self) -> Seq<char> {
        if T::spec_lt(self.im, T::spec_zero()) {
            T::spec_text(self.re) + seq!['-'] + T::spec_text(T::spec_diff(T::spec_zero(), self.im))
                + seq!['i']
        } else {
            T::spec_text(self.re) + seq!['+'] + T::spec_text(self.im) + seq!['i']
        }
    }

    /// The additive identity `0 + 0i`.
    pub fn zero() -> (r: Complex<T>)
        ensures
            r == Self::spec_zero(),
    {
        Complex::new(T::zero(), T::zero())
    }

    /// The multiplicative identity `1 + 0i`.
    pub fn one() -> (r: Complex<T>)
        ensures
            r == Self::spec_one(),
    {
        Complex::new(T::one(), T::zero())
    }

    /// Whether both parts are zero.
    pub fn is_zero(&self) -> (r: bool)
        ensures
            r == self.spec_is_zero(),
    {
        let z = T::zero();
        self.re.num_eq(&z) && self.im.num_eq(&z)
    }

    /// Returns the square of the norm (since `T` doesn't necessarily
    /// have a sqrt function), i.e. `re^2 + im^2`.
    pub fn norm_sqr(&self) -> (r: T)
        requires
            self.norm_sqr_ok(),
        ensures
            r == self.spec_norm_sqr(),
    {
        self.re.mul(&self.re).add(&self.im.mul(&self.im))
    }

    /// Multiplies `self` by the scalar `t`.
    pub fn scale(&self, t: T) -> (r: Complex<T>)
        requires
            self.scale_ok(t),
        ensures
            r == self.spec_scale(t),
    {
        Complex::new(self.re.mul(&t), self.im.mul(&t))
    }

    /// Divides `self` by the scalar `t`.
    pub fn unscale(&self, t: T) -> (r: Complex<T>)
        requires
            self.unscale_ok(t),
        ensures
            r == self.spec_unscale(t),
    {
        Complex::new(self.re.div(&t), self.im.div(&t))
    }

    /// Returns the complex conjugate. i.e. `re - i im`
    pub fn conj(&self) -> (r: Complex<T>)
        requires
            self.conj_ok(),
        ensures
            r == self.spec_conj(),
    {
        Complex::new(self.re, self.im.neg())
    }

    /// Returns `1/self`
    pub fn inv(&self) -> (r: Complex<T>)
        requires
            self.inv_ok(),
        ensures
            r == self.spec_inv(),
    {
        let norm_sqr = self.norm_sqr();
        Complex::new(self.re.div(&norm_sqr), self.im.neg().div(&norm_sqr))
    }

    /// The text `"re+imi"`, or `"re-mi"` with `m = 0 - im` when the
    /// imaginary part is negative.
    pub fn to_string(&self) -> (r: String)
        requires
            T::spec_lt(self.im, T::spec_zero()) ==> T::diff_ok(T::spec_zero(), self.im),
        ensures
            r@ == self.spec_text(),
    {
        let zero = T::zero();
        let mut s = self.re.to_text();
        let rest;
        if self.im.lt(&zero) {
            proof {
                reveal_strlit("-");
            }
            s.append("-");
            rest = zero.sub(&self.im).to_text();
        } else {
            proof {
                reveal_strlit("+");
            }
            s.append("+");
            rest = self.im.to_text();
        }
        s.append(rest.as_str());
        proof {
            reveal_strlit("i");
        }
        s.append("i");
        assert(s@ =~= self.spec_text());
        s
    }
}

impl<T: Scalar> core::ops::Add for Complex<T> {
    type Output = Complex<T>;

    fn add(self, o: Complex<T>) -> (r: Complex<T>)
        ensures
            r == self.spec_sum(o),
    {
        Complex::new(self.re.add(&o.re), self.im.add(&o.im))
    }
}

impl<T: Scalar> vstd::std_specs::ops::AddSpecImpl for Complex<T> {
    open spec fn obeys_add_spec() -> bool {
        true
    }

    open spec fn add_req(self, o: Complex<T>) -> bool {
        self.sum_ok(o)
    }

    open spec fn add_spec(self, o: Complex<T>) -> Complex<T> {
        self.spec_sum(o)
    }
}

impl<T: Scalar> core::ops::Sub for Complex<T> {
    type Output = Complex<T>;

    fn sub(self, o: Complex<T>) -> (r: Complex<T>)
        ensures
            r == self.spec_diff(o),
    {
        Complex::new(self.re.sub(&o.re), self.im.sub(&o.im))
    }
}

impl<T: Scalar> vstd::std_specs::ops::SubSpecImpl for Complex<T> {
    open spec fn obeys_sub_spec() -> bool {
        true
    }

    open spec fn sub_req(self, o: Complex<T>) -> bool {
        self.diff_ok(o)
    }

    open spec fn sub_spec(self, o: Complex<T>) -> Complex<T> {
        self.spec_diff(o)
    }
}

impl<T: Scalar> core::ops::Mul for Complex<T> {
    type Output = Complex<T>;

    fn mul(self, o: Complex<T>) -> (r: Complex<T>)
        ensures
            r == self.spec_prod(o),
    {
        Complex::new(
            self.re.mul(&o.re).sub(&self.im.mul(&o.im)),
            self.re.mul(&o.im).add(&self.im.mul(&o.re)),
        )
    }
}

impl<T: Scalar> vstd::std_specs::ops::MulSpecImpl for Complex<T> {
    open spec fn obeys_mul_spec() -> bool {
        true
    }

    open spec fn mul_req(self, o: Complex<T>) -> bool {
        self.prod_ok(o)
    }

    open spec fn mul_spec(self, o: Complex<T>) -> Complex<T> {
        self.spec_prod(o)
    }
}

impl<T: Scalar> core::ops::Div for Complex<T> {
    type Output = Complex<T>;

    fn div(self, o: Complex<T>) -> (r: Complex<T>)
        ensures
            r == self.spec_quot(o),
    {
        let norm_sqr = o.norm_sqr();
        Complex::new(
            self.re.mul(&o.re).add(&self.im.mul(&o.im)).div(&norm_sqr),
            self.im.mul(&o.re).sub(&self.re.mul(&o.im)).div(&norm_sqr),
        )
    }
}

impl<T: Scalar> vstd::std_specs::ops::DivSpecImpl for Complex<T> {
    open spec fn obeys_div_spec() -> bool {
        true
    }

    open spec fn div_req(self, o: Complex<T>) -> bool {
        self.quot_ok(o)
    }

    open spec fn div_spec(self, o: Complex<T>) -> Complex<T> {
        self.spec_quot(o)
    }
}

impl<T: Scalar> core::ops::Neg for Complex<T> {
    type Output = Complex<T>;

    fn neg(self) -> (r: Complex<T>)
        ensures
            r == self.spec_negate(),
    {
        Complex::new(self.re.neg(), self.im.neg())
    }
}

impl<T: Scalar> vstd::std_specs::ops::NegSpecImpl for Complex<T> {
    open spec fn obeys_neg_spec() -> bool {
        true
    }

    open spec fn neg_req(self) -> bool {
        self.negate_ok()
    }

    open spec fn neg_spec(self) -> Complex<T> {
        self.spec_negate()
    }
}

} // verus!

//! The capability interface that a scalar type supplies to the complex layer,
//! and its implementations for machine integers.
use vstd::prelude::*;

verus! {

/// Truncating integer division, as machine division on signed integers rounds.
pub open spec fn trunc_div(a: int, b: int) -> int {
    if a >= 0 {
        a / b
    } else {
        -((-a) / b)
    }
}

/// Ring arithmetic, ordering, identities and text of a scalar type.
///
/// Each operation is described by a spec function; the `*_ok` predicates say on
/// which operands the operation is defined (for machine integers: no overflow
/// and no division by zero). The proof functions are laws that every
/// implementation establishes for its own operations.
pub trait Scalar: Sized + Copy {
    spec fn spec_zero() -> Self;

    spec fn spec_one() -> Self;

    spec fn spec_sum(a: Self, b: Self) -> Self;

    spec fn spec_diff(a: Self, b: Self) -> Self;

    spec fn spec_prod(a: Self, b: Self) -> Self;

    spec fn spec_quot(a: Self, b: Self) -> Self;

    spec fn spec_negate(a: Self) -> Self;

    spec fn sum_ok(a: Self, b: Self) -> bool;

    spec fn diff_ok(a: Self, b: Self) -> bool;

    spec fn prod_ok(a: Self, b: Self) -> bool;

    spec fn quot_ok(a: Self, b: Self) -> bool;

    spec fn negate_ok(a: Self) -> bool;

    /// Numeric equality (for floating scalars both zeros are equal).
    spec fn spec_eq(a: Self, b: Self) -> bool;

    spec fn spec_lt(a: Self, b: Self) -> bool;

    /// The textual form of a value.
    spec fn spec_text(a: Self) -> Seq<char>;

    fn zero() -> (r: Self)
        ensures
            r == Self::spec_zero(),
    ;

    fn one() -> (r: Self)
        ensures
            r == Self::spec_one(),
    ;

    fn add(&self, o: &Self) -> (r: Self)
        requires
            Self::sum_ok(*self, *o),
        ensures
            r == Self::spec_sum(*self, *o),
    ;

    fn sub(&self, o: &Self) -> (r: Self)
        requires
            Self::diff_ok(*self, *o),
        ensures
            r == Self::spec_diff(*self, *o),
    ;

    fn mul(&self, o: &Self) -> (r: Self)
        requires
            Self::prod_ok(*self, *o),
        ensures
            r == Self::spec_prod(*self, *o),
    ;

    fn div(&self, o: &Self) -> (r: Self)
        requires
            Self::quot_ok(*self, *o),
        ensures
            r == Self::spec_quot(*self, *o),
    ;

    fn neg(&self) -> (r: Self)
        requires
            Self::negate_ok(*self),
        ensures
            r == Self::spec_negate(*self),
    ;

    fn num_eq(&self, o: &Self) -> (r: bool)
        ensures
            r == Self::spec_eq(*self, *o),
    ;

    fn lt(&self, o: &Self) -> (r: bool)
        ensures
            r == Self::spec_lt(*self, *o),
    ;

    fn to_text(&self) -> (r: String)
        ensures
            r@ == Self::spec_text(*self),
    ;

    /// Negation is an involution.
    proof fn lemma_negate_involutive(a: Self)
        requires
            Self::negate_ok(a),
        ensures
            Self::negate_ok(Self::spec_negate(a)),
            Self::spec_negate(Self::spec_negate(a)) == a,
    ;

    /// Negating the right factor negates the product.
    proof fn lemma_prod_negate_right(a: Self, b: Self)
        requires
            Self::prod_ok(a, b),
            Self::negate_ok(b),
            Self::negate_ok(Self::spec_prod(a, b)),
        ensures
            Self::prod_ok(a, Self::spec_negate(b)),
            Self::spec_prod(a, Self::spec_negate(b)) == Self::spec_negate(Self::spec_prod(a, b)),
    ;

    /// Negating the left factor negates the product.
    proof fn lemma_prod_negate_left(a: Self, b: Self)
        requires
            Self::prod_ok(a, b),
            Self::negate_ok(a),
            Self::negate_ok(Self::spec_prod(a, b)),
        ensures
            Self::prod_ok(Self::spec_negate(a), b),
            Self::spec_prod(Self::spec_negate(a), b) == Self::spec_negate(Self::spec_prod(a, b)),
    ;

    /// The sum of the negations is the negation of the sum.
    proof fn lemma_sum_negate(a: Self, b: Self)
        requires
            Self::sum_ok(a, b),
            Self::negate_ok(a),
            Self::negate_ok(b),
            Self::negate_ok(Self::spec_sum(a, b)),
        ensures
            Self::sum_ok(Self::spec_negate(a), Self::spec_negate(b)),
            Self::spec_sum(Self::spec_negate(a), Self::spec_negate(b)) == Self::spec_negate(
                Self::spec_sum(a, b),
            ),
    ;

    /// Negating the dividend negates the quotient.
    proof fn lemma_quot_negate(a: Self, b: Self)
        requires
            Self::quot_ok(a, b),
            Self::negate_ok(a),
            Self::negate_ok(Self::spec_quot(a, b)),
        ensures
            Self::quot_ok(Self::spec_negate(a), b),
            Self::spec_quot(Self::spec_negate(a), b) == Self::spec_negate(Self::spec_quot(a, b)),
    ;
}

/// The real-valued primitives of a real scalar type (the transcendental layer).
///
/// The laws say that every ring operation is defined on every operand (a real
/// scalar has no overflow fault: it saturates to infinity or NaN) and give the
/// parity of the circular and hyperbolic functions.
pub trait Real: Scalar {
    spec fn spec_sqrt(a: Self) -> Self;

    spec fn spec_sin(a: Self) -> Self;

    spec fn spec_cos(a: Self) -> Self;

    spec fn spec_sinh(a: Self) -> Self;

    spec fn spec_cosh(a: Self) -> Self;

    spec fn spec_exp(a: Self) -> Self;

    spec fn spec_ln(a: Self) -> Self;

    /// The angle of the point `(x, y)`, in `(-pi, pi]`.
    spec fn spec_atan2(y: Self, x: Self) -> Self;

    /// `sqrt(x*x + y*y)`, without intermediate overflow.
    spec fn spec_hypot(x: Self, y: Self) -> Self;

    spec fn spec_is_nan(a: Self) -> bool;

    spec fn spec_infinity() -> Self;

    fn sqrt(&self) -> (r: Self)
        ensures
            r == Self::spec_sqrt(*self),
    ;

    fn sin(&self) -> (r: Self)
        ensures
            r == Self::spec_sin(*self),
    ;

    fn cos(&self) -> (r: Self)
        ensures
            r == Self::spec_cos(*self),
    ;

    fn sinh(&self) -> (r: Self)
        ensures
            r == Self::spec_sinh(*self),
    ;

    fn cosh(&self) -> (r: Self)
        ensures
            r == Self::spec_cosh(*self),
    ;

    fn exp(&self) -> (r: Self)
        ensures
            r == Self::spec_exp(*self),
    ;

    fn ln(&self) -> (r: Self)
        ensures
            r == Self::spec_ln(*self),
    ;

    /// The angle of the point `(x, self)`.
    fn atan2(&self, x: &Self) -> (r: Self)
        ensures
            r == Self::spec_atan2(*self, *x),
    ;

    fn hypot(&self, y: &Self) -> (r: Self)
        ensures
            r == Self::spec_hypot(*self, *y),
    ;

    fn is_nan(&self) -> (r: bool)
        ensures
            r == Self::spec_is_nan(*self),
    ;

    fn infinity() -> (r: Self)
        ensures
            r == Self::spec_infinity(),
    ;

    /// Every ring operation is defined.
    proof fn lemma_total()
        ensures
            forall|a: Self, b: Self| #[trigger] Self::sum_ok(a, b),
            forall|a: Self, b: Self| #[trigger] Self::diff_ok(a, b),
            forall|a: Self, b: Self| #[trigger] Self::prod_ok(a, b),
            forall|a: Self, b: Self| #[trigger] Self::quot_ok(a, b),
            forall|a: Self| #[trigger] Self::negate_ok(a),
    ;

    /// Sine is odd.
    proof fn lemma_sin_odd(a: Self)
        ensures
            Self::spec_sin(Self::spec_negate(a)) == Self::spec_negate(Self::spec_sin(a)),
    ;

    /// Cosine is even.
    proof fn lemma_cos_even(a: Self)
        ensures
            Self::spec_cos(Self::spec_negate(a)) == Self::spec_cos(a),
    ;

    /// Hyperbolic sine is odd.
    proof fn lemma_sinh_odd(a: Self)
        ensures
            Self::spec_sinh(Self::spec_negate(a)) == Self::spec_negate(Self::spec_sinh(a)),
    ;

    /// The angle of a reflected point is the negated angle, off the negative
    /// real axis (where the principal angle is `pi` on both sides).
    proof fn lemma_atan2_odd(y: Self, x: Self)
        requires
            !(Self::spec_eq(y, Self::spec_zero()) && Self::spec_lt(x, Self::spec_zero())),
        ensures
            Self::spec_atan2(Self::spec_negate(y), x) == Self::spec_negate(Self::spec_atan2(y, x)),
    ;

    /// The length of a point does not depend on the sign of its second coordinate.
    proof fn lemma_hypot_even(x: Self, y: Self)
        ensures
            Self::spec_hypot(x, Self::spec_negate(y)) == Self::spec_hypot(x, y),
    ;

    /// Hyperbolic cosine is even.
    proof fn lemma_cosh_even(a: Self)
        ensures
            Self::spec_cosh(Self::spec_negate(a)) == Self::spec_cosh(a),
    ;
}

/// The character of a decimal digit.
pub open spec fn digit_char(d: int) -> char {
    seq!['0', '1', '2', '3', '4', '5', '6', '7', '8', '9'][d]
}

/// The decimal digits of a natural number, most significant first.
pub open spec fn decimal(n: nat) -> Seq<char>
    decreases n,
{
    if n < 10 {
        seq![digit_char(n as int)]
    } else {
        decimal(n / 10) + seq![digit_char((n % 10) as int)]
    }
}

/// The decimal text of an integer, with a leading `-` when it is negative.
pub open spec fn int_text(n: int) -> Seq<char> {
    if n < 0 {
        seq!['-'] + decimal((-n) as nat)
    } else {
        decimal(n as nat)
    }
}

fn digit_str(d: u64) -> (r: &'static str)
    requires
        d < 10,
    ensures
        r@ == seq![digit_char(d as int)],
{
    proof {
        reveal_strlit("0");
        reveal_strlit("1");
        reveal_strlit("2");
        reveal_strlit("3");
        reveal_strlit("4");
        reveal_strlit("5");
        reveal_strlit("6");
        reveal_strlit("7");
        reveal_strlit("8");
        reveal_strlit("9");
    }
    let r = match d {
        0 => "0",
        1 => "1",
        2 => "2",
        3 => "3",
        4 => "4",
        5 => "5",
        6 => "6",
        7 => "7",
        8 => "8",
        _ => "9",
    };
    assert(r@ =~= seq![digit_char(d as int)]);
    r
}

/// Appends the decimal digits of `n` to `s`.
fn push_decimal(n: u64, s: &mut String)
    ensures
        final(s)@ == old(s)@ + decimal(n as nat),
    decreases n,
{
    if n >= 10 {
        push_decimal(n / 10, s);
    }
    let d = digit_str(n % 10);
    s.append(d);
    proof {
        if n >= 10 {
            assert(final(s)@ =~= old(s)@ + decimal(n as nat));
        } else {
            assert(final(s)@ =~= old(s)@ + decimal(n as nat));
        }
    }
}

/// The decimal text of a machine integer.
pub fn int_to_text(n: i64) -> (r: String)
    ensures
        r@ == int_text(n as int),
{
    let mut s = String::new();
    if n < 0 {
        proof {
            reveal_strlit("-");
        }
        s.append("-");
        let m: u64 = (-(n as i128)) as u64;
        push_decimal(m, &mut s);
        assert(s@ =~= int_text(n as int));
    } else {
        push_decimal(n as u64, &mut s);
        assert(s@ =~= int_text(n as int));
    }
    s
}

} // verus!

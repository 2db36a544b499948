use num_complex::scalar::int_to_text;
use num_complex::Complex;

fn z(re: i64, im: i64) -> Complex<i64> {
    Complex::new(re, im)
}

#[test]
fn integer_arithmetic() {
    assert_eq!(z(1, 2) + z(3, -5), z(4, -3));
    assert_eq!(z(1, 2) - z(3, -5), z(-2, 7));
    assert_eq!(z(3, 4) * z(3, -4), z(25, 0));
    assert_eq!(z(0, 1) * z(0, 1), z(-1, 0));
    assert_eq!(-z(3, -4), z(-3, 4));
    assert_eq!(z(3, 4).norm_sqr(), 25);
}

#[test]
fn integer_division_truncates() {
    // (7 + i) / (1 + i) = (8 - 6i) / 2
    assert_eq!(z(7, 1) / z(1, 1), z(4, -3));
    // (-7 + 0i) / 2 truncates toward zero
    assert_eq!(z(-7, 0) / z(2, 0), z(-3, 0));
    assert_eq!(z(-7, 5).unscale(2), z(-3, 2));
}

#[test]
fn integer_inverse() {
    assert_eq!(z(0, 1).inv(), z(0, -1));
    assert_eq!(z(-1, 0).inv(), z(-1, 0));
    assert_eq!(z(0, 1) * z(0, 1).inv(), z(1, 0));
    // a squared norm above one truncates the inverse to zero
    assert_eq!(z(2, 1).inv(), z(0, 0));
}

#[test]
fn integer_scale_unscale() {
    for &w in [z(3, -4), z(-5, 0), z(0, 0), z(123, 456)].iter() {
        assert_eq!(w.scale(-7).unscale(-7), w);
        assert_eq!(w.conj().conj(), w);
    }
}

#[test]
fn integer_identities() {
    assert_eq!(Complex::<i64>::zero(), z(0, 0));
    assert_eq!(Complex::<i64>::one(), z(1, 0));
    assert!(z(0, 0).is_zero());
    assert!(!z(0, 3).is_zero());
}

#[test]
fn integer_display() {
    assert_eq!(z(3, -4).to_string(), "3-4i");
    assert_eq!(z(-12, 0).to_string(), "-12+0i");
    assert_eq!(z(i64::MIN, i64::MAX).to_string(), "-9223372036854775808+9223372036854775807i");
    assert_eq!(Complex::new(5i32, -10i32).to_string(), "5-10i");
}

#[test]
fn decimal_text() {
    assert_eq!(int_to_text(0), "0");
    assert_eq!(int_to_text(907), "907");
    assert_eq!(int_to_text(-40), "-40");
    assert_eq!(int_to_text(i64::MIN), "-9223372036854775808");
}

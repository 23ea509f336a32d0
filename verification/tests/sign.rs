use num_sign::Negative;
use num_sign::Positive;
use num_sign::Sign;
use num_sign::Signed;

#[test]
fn test_neg() {
    assert_eq!(Positive.neg(), Negative);
    assert_eq!(Negative.neg(), Positive);
}

#[test]
fn test_neg_involution() {
    assert_eq!(Positive.neg().neg(), Positive);
    assert_eq!(Negative.neg().neg(), Negative);
}

#[test]
fn test_mul_table() {
    assert_eq!(Positive.mul(Positive), Positive);
    assert_eq!(Positive.mul(Negative), Negative);
    assert_eq!(Negative.mul(Positive), Negative);
    assert_eq!(Negative.mul(Negative), Positive);
}

#[test]
fn test_mul_int() {
    assert_eq!(Positive.mul_i32(123), 123);
    assert_eq!(Negative.mul_i32(123), -123);
    assert_eq!(Positive.mul_i32(-7), -7);
    assert_eq!(Negative.mul_i32(-7), 7);
    assert_eq!(Positive.mul_i64(123), 123);
    assert_eq!(Negative.mul_i64(123), -123);
    assert_eq!(Positive.mul_i64(i64::MIN), i64::MIN);
    assert_eq!(Negative.mul_i64(i64::MAX), -i64::MAX);
}

#[test]
fn test_parse() {
    assert_eq!(Sign::from_str("+"), Ok(Positive));
    assert_eq!(Sign::from_str("-"), Ok(Negative));
    assert_eq!(Sign::from_str(""), Err(()));
    assert_eq!(Sign::from_str("x"), Err(()));
    assert_eq!(Sign::from_str("+1"), Err(()));
    assert_eq!(Sign::from_str("-1"), Err(()));
    assert_eq!(Sign::from_str("++"), Err(()));
    assert_eq!("+".parse::<Sign>(), Ok(Positive));
    assert_eq!("-".parse::<Sign>(), Ok(Negative));
    assert_eq!("+-".parse::<Sign>(), Err(()));
}

#[test]
fn test_format() {
    assert_eq!(Positive.to_string(), "+");
    assert_eq!(Negative.to_string(), "-");
}

#[test]
fn test_format_after_parse() {
    for t in ["+", "-"] {
        let s = Sign::from_str(t).unwrap();
        assert_eq!(s.to_string(), t);
    }
}

#[test]
fn test_parse_after_format() {
    for s in [Positive, Negative] {
        assert_eq!(Sign::from_str(&s.to_string()), Ok(s));
    }
}

#[test]
fn test_int_classification() {
    assert_eq!((123_isize).sign(), Some(Positive));
    assert_eq!((-123_isize).sign(), Some(Negative));
    assert_eq!((0_isize).sign(), None);
    assert_eq!((123_i64).sign(), Some(Positive));
    assert_eq!((-123_i64).sign(), Some(Negative));
    assert_eq!((0_i64).sign(), None);
    assert_eq!((123_i32).sign(), Some(Positive));
    assert_eq!((-123_i32).sign(), Some(Negative));
    assert_eq!((0_i32).sign(), None);
    assert_eq!((123_i16).sign(), Some(Positive));
    assert_eq!((-123_i16).sign(), Some(Negative));
    assert_eq!((0_i16).sign(), None);
    assert_eq!((123_i8).sign(), Some(Positive));
    assert_eq!((-123_i8).sign(), Some(Negative));
    assert_eq!((0_i8).sign(), None);
}

#[test]
fn test_ordering() {
    assert!(Negative < Positive);
    assert!(Positive > Negative);
    assert_eq!(Positive.cmp(&Negative), std::cmp::Ordering::Greater);
    assert_eq!(Negative.cmp(&Positive), std::cmp::Ordering::Less);
    assert_eq!(Positive.partial_cmp(&Positive), Some(std::cmp::Ordering::Equal));
    let mut v = vec![Positive, Negative, Positive, Negative];
    v.sort();
    assert_eq!(v, vec![Negative, Negative, Positive, Positive]);
}

#[test]
fn test_equality() {
    assert_eq!(Positive, Positive);
    assert_eq!(Negative, Negative);
    assert_ne!(Positive, Negative);
    assert_eq!(-Positive.to_i32(), Negative.to_i32());
}

#[test]
fn test_parity() {
    assert_eq!(Sign::parity(0), Positive);
    assert_eq!(Sign::parity(7), Negative);
    assert_eq!(Sign::parity(-2), Positive);
    assert_eq!(Sign::parity(-3), Negative);
    assert_eq!(Sign::parity(i32::MIN), Positive);
    assert_eq!(Sign::parity_bool(false), Positive);
    assert_eq!(Sign::parity_bool(true), Negative);
}

#[test]
fn test_int_conversions() {
    assert_eq!(Positive.to_isize(), 1);
    assert_eq!(Negative.to_isize(), -1);
    assert_eq!(Positive.to_i64(), 1);
    assert_eq!(Negative.to_i64(), -1);
    assert_eq!(Positive.to_i32(), 1);
    assert_eq!(Negative.to_i32(), -1);
    assert_eq!(Positive.to_i16(), 1);
    assert_eq!(Negative.to_i16(), -1);
    let wide: i16 = Positive.to_i8();
    assert_eq!(wide, 1);
    let wide: i16 = Negative.to_i8();
    assert_eq!(wide, -1);
}

#[test]
fn test_into_int() {
    assert_eq!(1_isize, Positive.into());
    assert_eq!(-1_isize, Negative.into());
    assert_eq!(1_i64, Positive.into());
    assert_eq!(-1_i64, Negative.into());
    assert_eq!(1_i32, Positive.into());
    assert_eq!(-1_i32, Negative.into());
    assert_eq!(1_i16, Positive.into());
    assert_eq!(-1_i16, Negative.into());
    assert_eq!(1_i8, Positive.into());
    assert_eq!(-1_i8, Negative.into());
}

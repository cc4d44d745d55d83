use nanostat::{Confidence, Error, Ratio};

#[test]
fn parse_accepts_the_six_levels() {
    assert!(matches!(Confidence::parse(b"80"), Ok(Confidence::P80)));
    assert!(matches!(Confidence::parse(b"90"), Ok(Confidence::P90)));
    assert!(matches!(Confidence::parse(b"95"), Ok(Confidence::P95)));
    assert!(matches!(Confidence::parse(b"98"), Ok(Confidence::P98)));
    assert!(matches!(Confidence::parse(b"99"), Ok(Confidence::P99)));
    assert!(matches!(Confidence::parse(b"99.5"), Ok(Confidence::P995)));
}

#[test]
fn parse_rejects_everything_else() {
    // Boundary percentages are invalid, not clamped.
    assert!(matches!(Confidence::parse(b"0"), Err(Error::InvalidParameter)));
    assert!(matches!(Confidence::parse(b"100"), Err(Error::InvalidParameter)));
    assert!(matches!(Confidence::parse(b"-5"), Err(Error::InvalidParameter)));
    assert!(matches!(Confidence::parse(b"101"), Err(Error::InvalidParameter)));
    assert!(matches!(Confidence::parse(b""), Err(Error::InvalidParameter)));
    assert!(matches!(Confidence::parse(b"85"), Err(Error::InvalidParameter)));
    assert!(matches!(Confidence::parse(b"99.9"), Err(Error::InvalidParameter)));
    assert!(matches!(Confidence::parse(b"95.0"), Err(Error::InvalidParameter)));
}

#[test]
fn alpha_is_exact() {
    assert!(Confidence::P80.alpha().eq_value(&Ratio::new(1, 5)));
    assert!(Confidence::P90.alpha().eq_value(&Ratio::new(1, 10)));
    assert!(Confidence::P95.alpha().eq_value(&Ratio::new(1, 20)));
    assert!(Confidence::P98.alpha().eq_value(&Ratio::new(1, 50)));
    assert!(Confidence::P99.alpha().eq_value(&Ratio::new(1, 100)));
    assert!(Confidence::P995.alpha().eq_value(&Ratio::new(1, 200)));
}

use nanostat::{Error, Ratio, Summary};

#[test]
fn summarize_odd() {
    let s = Summary::summarize(&[1, 2, 3]).unwrap();

    assert_eq!(s.count(), 3);
    assert!(s.mean().eq_value(&Ratio::new(2, 1)));
    assert!(s.variance().eq_value(&Ratio::new(1, 1)));
}

#[test]
fn summarize_even() {
    let s = Summary::summarize(&[1, 2, 3, 4]).unwrap();

    assert_eq!(s.count(), 4);
    // mean 2.5, variance 1.6666666666666667, exactly 5/2 and 5/3.
    assert!(s.mean().eq_value(&Ratio::new(5, 2)));
    assert!(s.variance().eq_value(&Ratio::new(5, 3)));
}

#[test]
fn summarize_empty_and_single() {
    let s = Summary::summarize(&[]).unwrap();
    assert_eq!(s.count(), 0);

    let s = Summary::summarize(&[7]).unwrap();
    assert_eq!(s.count(), 1);
    assert!(s.mean().eq_value(&Ratio::new(7, 1)));
}

#[test]
fn summarize_rejects_out_of_range_value() {
    assert!(matches!(Summary::summarize(&[0, 1000001]), Err(Error::SampleOutOfRange)));
    assert!(matches!(Summary::summarize(&[-1000001]), Err(Error::SampleOutOfRange)));
    // The boundary magnitude itself is accepted.
    let s = Summary::summarize(&[1000000, -1000000]).unwrap();
    assert_eq!(s.count(), 2);
    assert!(s.mean().eq_value(&Ratio::new(0, 1)));
}

#[test]
fn summarize_rejects_overlong_sample() {
    let long = vec![1i64; 1001];
    assert!(matches!(Summary::summarize(&long), Err(Error::SampleOutOfRange)));
    let ok = vec![1i64; 1000];
    assert_eq!(Summary::summarize(&ok).unwrap().count(), 1000);
}

#[test]
fn summarize_is_order_independent() {
    let a = Summary::summarize(&[4, 1, 3, 2, -5]).unwrap();
    let b = Summary::summarize(&[-5, 4, 3, 2, 1]).unwrap();
    assert_eq!(a.count(), b.count());
    assert!(a.mean().eq_value(&b.mean()));
    assert!(a.variance().eq_value(&b.variance()));
}

#[test]
fn std_dev_and_std_err_bracket_the_roots() {
    let s = Summary::summarize(&[1, 2, 3, 4]).unwrap();
    // variance 5/3: sqrt is 1.2909944..., so 12909 at four decimals.
    assert_eq!(s.std_dev(), 12909);
    // variance/n = 5/12: sqrt is 0.6454972..., so 6454 at four decimals.
    assert_eq!(s.std_err(), 6454);

    let t = Summary::summarize(&[1, 2, 3]).unwrap();
    // variance 1: the root is exact.
    assert_eq!(t.std_dev(), 10000);
}

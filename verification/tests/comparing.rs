use nanostat::{Confidence, Error, Ratio, Summary};

// The engine is the exact table-based oracle: the critical t-value comes
// from the embedded table at pooled degrees of freedom, reported magnitudes
// that carry a square root are exact squares, and `critical_value_scaled`
// is the critical value itself at four decimal digits.

#[test]
fn compare_similar_data() {
    let a = Summary::summarize(&[1, 2, 3, 4]).unwrap();
    let b = Summary::summarize(&[1, 2, 3, 4]).unwrap();
    let diff = a.compare(&b, Confidence::P80).unwrap();

    assert_eq!(diff.effect.num, 0);
    assert!(diff.effect_size_sq.unwrap().eq_value(&Ratio::new(0, 1)));
    // df = 6, t = 1.4398, std_err^2 = 5/6: critical value 1.3143...
    assert_eq!(diff.critical_value_scaled, 13143);
    assert!(diff.critical_value_sq.eq_value(&Ratio::new(265347077120, 153600000000)));
    assert!(diff.alpha.eq_value(&Ratio::new(1, 5)));
    assert!(!diff.is_significant());
}

#[test]
fn compare_different_data() {
    let a = Summary::summarize(&[1, 2, 3, 4]).unwrap();
    let b = Summary::summarize(&[10, 20, 30, 40]).unwrap();
    let diff = a.compare(&b, Confidence::P80).unwrap();

    // effect = |2.5 - 25| = 22.5, exactly 360/16.
    assert!(diff.effect.eq_value(&Ratio::new(45, 2)));
    assert_eq!(diff.effect.num, 360);
    assert_eq!(diff.effect.den, 16);
    // Cohen's d squared: 2332800/387840, i.e. d = 2.4525194...
    let es = diff.effect_size_sq.unwrap();
    assert_eq!(es.num, 2332800);
    assert_eq!(es.den, 387840);
    // df = 6, t = 1.4398, pooled std_err^2 = 505/12: critical value 9.3402...
    assert_eq!(diff.critical_value_scaled, 93402);
    assert!(diff.alpha.eq_value(&Ratio::new(1, 5)));
    assert!(diff.is_significant());
}

#[test]
fn compare_rejects_degenerate_samples() {
    let one = Summary::summarize(&[5]).unwrap();
    let two = Summary::summarize(&[1, 2]).unwrap();
    assert!(matches!(one.compare(&two, Confidence::P95), Err(Error::DegenerateSample)));
    assert!(matches!(two.compare(&one, Confidence::P95), Err(Error::DegenerateSample)));
    let empty = Summary::summarize(&[]).unwrap();
    assert!(matches!(empty.compare(&two, Confidence::P95), Err(Error::DegenerateSample)));
    assert!(two.compare(&two, Confidence::P95).is_ok());
}

#[test]
fn self_comparison_finds_nothing() {
    let samples: [&[i64]; 3] = [&[3, 1, 4, 1, 5], &[-10, 10], &[2, 2, 2, 2]];
    let levels = [
        Confidence::P80,
        Confidence::P90,
        Confidence::P95,
        Confidence::P98,
        Confidence::P99,
        Confidence::P995,
    ];
    for xs in samples {
        let s = Summary::summarize(xs).unwrap();
        for c in levels {
            let diff = s.compare(&s, c).unwrap();
            assert_eq!(diff.effect.num, 0);
            assert!(diff.effect_size_sq.unwrap().eq_value(&Ratio::new(0, 1)));
            assert!(!diff.is_significant());
        }
    }
}

#[test]
fn comparison_is_symmetric() {
    let a = Summary::summarize(&[12, 15, 11, 14]).unwrap();
    let b = Summary::summarize(&[10, 20, 30, 40]).unwrap();
    for c in [Confidence::P80, Confidence::P95, Confidence::P995] {
        let ab = a.compare(&b, c).unwrap();
        let ba = b.compare(&a, c).unwrap();
        assert_eq!(ab.effect.num, ba.effect.num);
        assert_eq!(ab.effect.den, ba.effect.den);
        assert_eq!(ab.is_significant(), ba.is_significant());
        assert_eq!(ab.critical_value_scaled, ba.critical_value_scaled);
    }
}

#[test]
fn critical_value_grows_with_confidence() {
    let a = Summary::summarize(&[1, 2, 3, 4]).unwrap();
    let b = Summary::summarize(&[10, 20, 30, 40]).unwrap();
    let levels = [
        Confidence::P80,
        Confidence::P90,
        Confidence::P95,
        Confidence::P98,
        Confidence::P99,
        Confidence::P995,
    ];
    let mut prev_scaled: u64 = 0;
    let mut prev_sq = Ratio::new(0, 1);
    let mut prev_significant = true;
    for c in levels {
        let diff = a.compare(&b, c).unwrap();
        assert!(diff.critical_value_scaled >= prev_scaled);
        assert!(prev_sq.le_value(&diff.critical_value_sq));
        // Once insignificant at some level, still insignificant above it.
        assert!(prev_significant || !diff.is_significant());
        prev_scaled = diff.critical_value_scaled;
        prev_sq = diff.critical_value_sq;
        prev_significant = diff.is_significant();
    }
    // This pair is significant at 80% but not at every higher level.
    assert!(a.compare(&b, Confidence::P80).unwrap().is_significant());
    assert!(!a.compare(&b, Confidence::P995).unwrap().is_significant());
}

#[test]
fn equal_means_with_zero_variance() {
    let a = Summary::summarize(&[4, 4, 4]).unwrap();
    let b = Summary::summarize(&[4, 4]).unwrap();
    let diff = a.compare(&b, Confidence::P95).unwrap();
    assert_eq!(diff.effect.num, 0);
    assert!(diff.effect_size_sq.unwrap().eq_value(&Ratio::new(0, 1)));
    assert!(!diff.is_significant());

    // Constant samples with different means: no finite effect size, but
    // any nonzero effect clears the zero critical value.
    let c = Summary::summarize(&[5, 5]).unwrap();
    let diff = a.compare(&c, Confidence::P995).unwrap();
    assert!(diff.effect_size_sq.is_none());
    assert_eq!(diff.critical_value_scaled, 0);
    assert!(diff.is_significant());
}

#[test]
fn large_degrees_of_freedom_use_the_normal_row() {
    // Two samples of 100 equal-ish values: df = 198 falls back to the
    // normal-approximation row, whose 95% entry is 1.9600.
    let xs = vec![50i64; 100];
    let mut ys = vec![50i64; 99];
    ys.push(52);
    let a = Summary::summarize(&xs).unwrap();
    let b = Summary::summarize(&ys).unwrap();
    let diff = a.compare(&b, Confidence::P95).unwrap();
    assert!(!diff.is_significant());
}

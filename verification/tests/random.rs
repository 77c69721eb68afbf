use particles::fixed::ONE;
use particles::random::{Fraction, RandomSource, ThreadSource};

#[test]
fn fraction_takes_levels_from_zero_to_below_one() {
    assert!(Fraction::new(0).is_some());
    assert!(Fraction::new(500_000).is_some());
    assert!(Fraction::new(ONE - 1).is_some());
}

#[test]
fn fraction_refuses_other_levels() {
    assert!(Fraction::new(-1).is_none());
    assert!(Fraction::new(ONE).is_none());
    assert!(Fraction::new(i64::MIN).is_none());
    assert!(Fraction::new(i64::MAX).is_none());
}

#[test]
fn fraction_at_zero_draws_the_lower_end() {
    let mut source = Fraction::new(0).unwrap();
    assert_eq!(source.uniform(-ONE, ONE), -ONE);
    assert_eq!(source.uniform(0, ONE), 0);
    assert_eq!(source.uniform(7, 8), 7);
    assert_eq!(source.uniform(i64::MIN, i64::MAX), i64::MIN);
}

#[test]
fn fraction_at_a_half_draws_the_middle() {
    let mut source = Fraction::new(500_000).unwrap();
    assert_eq!(source.uniform(-ONE, ONE), 0);
    assert_eq!(source.uniform(ONE, 30 * ONE), 15_500_000);
    assert_eq!(source.uniform(0, ONE), 500_000);
    assert_eq!(source.uniform(i64::MIN, i64::MAX), -1);
}

#[test]
fn fraction_stays_below_the_upper_end() {
    let mut source = Fraction::new(ONE - 1).unwrap();
    assert_eq!(source.uniform(0, ONE), 999_999);
    assert_eq!(source.uniform(-ONE, 0), -1);
    assert_eq!(source.uniform(-ONE, ONE), 999_998);
    assert_eq!(source.uniform(7, 8), 7);
    assert_eq!(source.uniform(i64::MIN, i64::MAX), 9_223_353_590_110_702_097);
}

#[test]
fn fraction_draws_the_same_again() {
    let mut source = Fraction::new(250_000).unwrap();
    assert_eq!(source.uniform(0, ONE), 250_000);
    assert_eq!(source.uniform(0, ONE), 250_000);
}

#[test]
fn thread_source_stays_in_the_range() {
    let mut source = ThreadSource::new();
    for _ in 0..10_000 {
        let kick = source.uniform(-ONE, ONE);
        assert!(-ONE <= kick && kick < ONE);
        let low = source.uniform(0, ONE);
        assert!(0 <= low && low < ONE);
        let high = source.uniform(-ONE, 0);
        assert!(-ONE <= high && high < 0);
        let radius = source.uniform(ONE, 30 * ONE);
        assert!(ONE <= radius && radius < 30 * ONE);
    }
}

#[test]
fn thread_source_draws_the_only_value_of_a_narrow_range() {
    let mut source = ThreadSource::new();
    for _ in 0..100 {
        assert_eq!(source.uniform(5, 6), 5);
        assert_eq!(source.uniform(-1, 0), -1);
        assert_eq!(source.uniform(i64::MAX - 1, i64::MAX), i64::MAX - 1);
    }
}

#[test]
fn thread_source_covers_the_widest_range() {
    let mut source = ThreadSource::new();
    for _ in 0..1_000 {
        let value = source.uniform(i64::MIN, i64::MAX);
        assert!(value < i64::MAX);
    }
}

#[test]
fn thread_source_does_not_repeat_one_value() {
    let mut source = ThreadSource::new();
    let first = source.uniform(0, ONE);
    let mut differs = false;
    for _ in 0..64 {
        if source.uniform(0, ONE) != first {
            differs = true;
        }
    }
    assert!(differs);
}

#[test]
fn thread_source_reaches_both_halves_of_a_range() {
    let mut source = ThreadSource::new();
    let mut below = 0;
    let mut above = 0;
    for _ in 0..10_000 {
        if source.uniform(-ONE, ONE) < 0 {
            below += 1;
        } else {
            above += 1;
        }
    }
    assert!(below > 4_000);
    assert!(above > 4_000);
}

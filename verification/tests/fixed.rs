use particles::fixed::{product, saturate, sum, ONE};

#[test]
fn one_counts_a_million() {
    assert_eq!(ONE, 1_000_000);
}

#[test]
fn saturate_keeps_what_fits() {
    assert_eq!(saturate(0), 0);
    assert_eq!(saturate(-42), -42);
    assert_eq!(saturate(i64::MAX as i128), i64::MAX);
    assert_eq!(saturate(i64::MIN as i128), i64::MIN);
}

#[test]
fn saturate_stops_at_the_bounds() {
    assert_eq!(saturate(i64::MAX as i128 + 1), i64::MAX);
    assert_eq!(saturate(i64::MIN as i128 - 1), i64::MIN);
    assert_eq!(saturate(i128::MAX), i64::MAX);
    assert_eq!(saturate(i128::MIN), i64::MIN);
}

#[test]
fn sum_adds() {
    assert_eq!(sum(500_000, 100_000), 600_000);
    assert_eq!(sum(-500_000, 100_000), -400_000);
    assert_eq!(sum(7, 0), 7);
    assert_eq!(sum(i64::MIN, 0), i64::MIN);
    assert_eq!(sum(i64::MAX, i64::MIN), -1);
}

#[test]
fn sum_stops_at_the_bounds() {
    assert_eq!(sum(i64::MAX, 1), i64::MAX);
    assert_eq!(sum(i64::MAX, i64::MAX), i64::MAX);
    assert_eq!(sum(i64::MIN, -1), i64::MIN);
    assert_eq!(sum(i64::MIN, i64::MIN), i64::MIN);
}

#[test]
fn product_scales_by_one() {
    assert_eq!(product(100_000, ONE), 100_000);
    assert_eq!(product(ONE, -250_000), -250_000);
    assert_eq!(product(i64::MAX, ONE), i64::MAX);
    assert_eq!(product(i64::MIN, ONE), i64::MIN);
}

#[test]
fn product_of_fractions() {
    assert_eq!(product(500_000, 500_000), 250_000);
    assert_eq!(product(123_456_789, 2_500_000), 308_641_972);
    assert_eq!(product(1_500_000, -1_500_000), -2_250_000);
}

#[test]
fn product_with_zero_is_zero() {
    assert_eq!(product(0, 123_456), 0);
    assert_eq!(product(i64::MIN, 0), 0);
    assert_eq!(product(0, i64::MAX), 0);
}

#[test]
fn product_rounds_toward_zero() {
    assert_eq!(product(3, 500_000), 1);
    assert_eq!(product(-3, 500_000), -1);
    assert_eq!(product(1, 999_999), 0);
    assert_eq!(product(-1, 999_999), 0);
    assert_eq!(product(7, 333_333), 2);
    assert_eq!(product(-7, 333_333), -2);
}

#[test]
fn product_stops_at_the_bounds() {
    assert_eq!(product(i64::MAX, 2 * ONE), i64::MAX);
    assert_eq!(product(i64::MIN, 2 * ONE), i64::MIN);
    assert_eq!(product(i64::MIN, -ONE), i64::MAX);
    assert_eq!(product(i64::MAX, i64::MAX), i64::MAX);
    assert_eq!(product(i64::MIN, i64::MAX), i64::MIN);
}

#[test]
fn product_with_a_fraction_never_enlarges() {
    let values: [i64; 7] = [i64::MIN, -1_000_001, -3, 0, 1, 999_999, i64::MAX];
    let factors: [i64; 6] = [-ONE, -999_999, -1, 0, 500_000, ONE];
    for value in values {
        for factor in factors {
            let scaled = product(value, factor);
            assert!(scaled.unsigned_abs() <= value.unsigned_abs());
        }
    }
}

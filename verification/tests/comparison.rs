use exchange::decimal::{Decimal, DecimalError};
use exchange::ops::{Add, Gt, Lt, Ltq, Sub};

#[test]
fn comparisons_at_one_scale() {
    let small = Decimal { val: 41, scale: 5 };
    let large = Decimal { val: 42, scale: 5 };

    assert_eq!(small.lt(large), Ok(true));
    assert_eq!(large.lt(small), Ok(false));
    assert_eq!(small.lt(small), Ok(false));

    assert_eq!(small.ltq(large), Ok(true));
    assert_eq!(large.ltq(small), Ok(false));
    assert_eq!(small.ltq(small), Ok(true));

    assert_eq!(small.gt(large), Ok(false));
    assert_eq!(large.gt(small), Ok(true));
    assert_eq!(small.gt(small), Ok(false));

    assert_eq!(exchange::ops::Eq::eq(small, large), Ok(false));
    assert_eq!(exchange::ops::Eq::eq(large, small), Ok(false));
    assert_eq!(exchange::ops::Eq::eq(small, small), Ok(true));
}

#[test]
fn comparisons_at_the_extremes() {
    let zero = Decimal { val: 0, scale: 0 };
    let max = Decimal { val: u128::MAX, scale: 0 };
    assert_eq!(zero.lt(max), Ok(true));
    assert_eq!(max.gt(zero), Ok(true));
    assert_eq!(max.ltq(max), Ok(true));
    assert_eq!(exchange::ops::Eq::eq(max, max), Ok(true));
    assert_eq!(exchange::ops::Eq::eq(zero, max), Ok(false));
}

#[test]
fn scale_mismatch_is_rejected_whatever_the_magnitudes() {
    let magnitudes = [0u128, 1, 5, 1000, u128::MAX];
    for x in magnitudes {
        for y in magnitudes {
            for (s, t) in [(2u8, 3u8), (3, 2), (0, 255), (38, 39)] {
                let a = Decimal { val: x, scale: s };
                let b = Decimal { val: y, scale: t };
                assert_eq!(a.add(b), Err(DecimalError::ScaleMismatch));
                assert_eq!(a.sub(b), Err(DecimalError::ScaleMismatch));
                assert_eq!(a.lt(b), Err(DecimalError::ScaleMismatch));
                assert_eq!(a.ltq(b), Err(DecimalError::ScaleMismatch));
                assert_eq!(a.gt(b), Err(DecimalError::ScaleMismatch));
                assert_eq!(exchange::ops::Eq::eq(a, b), Err(DecimalError::ScaleMismatch));
            }
        }
    }
}

#[test]
fn equal_quantities_at_different_scales_do_not_compare() {
    // 1.50 and 1.500 are the same number, and still no comparison is made
    let a = Decimal { val: 150, scale: 2 };
    let b = Decimal { val: 1500, scale: 3 };
    assert_eq!(exchange::ops::Eq::eq(a, b), Err(DecimalError::ScaleMismatch));
    assert_eq!(a.ltq(b), Err(DecimalError::ScaleMismatch));
    let rescaled = a.to_scale(3).unwrap();
    assert_eq!(exchange::ops::Eq::eq(rescaled, b), Ok(true));
    assert_eq!(rescaled.ltq(b), Ok(true));
}

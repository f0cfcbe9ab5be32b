use exchange::decimal::{Decimal, DecimalError};
use exchange::ops::{Mul, PowAccuracy};

#[test]
fn pow_zero_is_one() {
    assert_eq!(
        Decimal { val: 1234567, scale: 6 }.pow_with_accuracy(0),
        Ok(Decimal { val: 1000000, scale: 6 })
    );
    assert_eq!(
        Decimal { val: 0, scale: 6 }.pow_with_accuracy(0),
        Ok(Decimal { val: 1000000, scale: 6 })
    );
    assert_eq!(
        Decimal { val: u128::MAX, scale: 0 }.pow_with_accuracy(0),
        Ok(Decimal { val: 1, scale: 0 })
    );
    assert_eq!(
        Decimal { val: 5, scale: 38 }.pow_with_accuracy(0),
        Ok(Decimal { val: 100000000000000000000000000000000000000, scale: 38 })
    );
}

#[test]
fn pow_zero_needs_a_representable_one() {
    assert_eq!(
        Decimal { val: 1, scale: 39 }.pow_with_accuracy(0),
        Err(DecimalError::ArithmeticOverflow)
    );
    assert_eq!(
        Decimal { val: 0, scale: 255 }.pow_with_accuracy(5),
        Err(DecimalError::ArithmeticOverflow)
    );
}

#[test]
fn pow_of_one_and_a_half() {
    let v = Decimal { val: 1500000, scale: 6 };
    assert_eq!(v.pow_with_accuracy(1), Ok(Decimal { val: 1500000, scale: 6 }));
    assert_eq!(v.pow_with_accuracy(2), Ok(Decimal { val: 2250000, scale: 6 }));
    assert_eq!(v.pow_with_accuracy(3), Ok(Decimal { val: 3375000, scale: 6 }));
}

#[test]
fn pow_of_whole_numbers_is_exact() {
    let three = Decimal { val: 3, scale: 0 };
    assert_eq!(three.pow_with_accuracy(5), Ok(Decimal { val: 243, scale: 0 }));
    let two = Decimal { val: 2, scale: 0 };
    assert_eq!(two.pow_with_accuracy(10), Ok(Decimal { val: 1024, scale: 0 }));
    assert_eq!(
        two.pow_with_accuracy(63),
        Ok(Decimal { val: 9223372036854775808, scale: 0 })
    );
}

#[test]
fn pow_truncates_at_every_step() {
    // 1.1^10 = 2.5937424601, and the steps lose a little on the way
    let v = Decimal { val: 1100000, scale: 6 };
    assert_eq!(v.pow_with_accuracy(10), Ok(Decimal { val: 2593741, scale: 6 }));
    // 1.01^7 = 1.07213535...
    let w = Decimal { val: 1010000, scale: 6 };
    assert_eq!(w.pow_with_accuracy(7), Ok(Decimal { val: 1072135, scale: 6 }));
    // 0.999999^1000 = 0.99900049...
    let x = Decimal { val: 999999, scale: 6 };
    assert_eq!(x.pow_with_accuracy(1000), Ok(Decimal { val: 999000, scale: 6 }));
}

#[test]
fn pow_follows_square_and_multiply() {
    let v = Decimal { val: 1010000, scale: 6 };
    let one = Decimal { val: 1000000, scale: 6 };
    // 7 = 1 + 2 + 4
    let v2 = v.mul(v).unwrap();
    let v4 = v2.mul(v2).unwrap();
    let expected = one.mul(v).unwrap().mul(v2).unwrap().mul(v4).unwrap();
    assert_eq!(v.pow_with_accuracy(7), Ok(expected));
}

#[test]
fn pow_of_zero() {
    let zero = Decimal { val: 0, scale: 6 };
    assert_eq!(zero.pow_with_accuracy(3), Ok(Decimal { val: 0, scale: 6 }));
    assert_eq!(zero.pow_with_accuracy(u128::MAX), Ok(Decimal { val: 0, scale: 6 }));
}

#[test]
fn pow_of_one_with_the_largest_exponent() {
    let one = Decimal { val: 1000000, scale: 6 };
    assert_eq!(one.pow_with_accuracy(u128::MAX), Ok(one));
}

#[test]
fn pow_overflow_is_rejected() {
    let two = Decimal { val: 2, scale: 0 };
    assert_eq!(two.pow_with_accuracy(128), Err(DecimalError::ArithmeticOverflow));
    let ten = Decimal { val: 10000000, scale: 6 };
    assert_eq!(ten.pow_with_accuracy(40), Err(DecimalError::ArithmeticOverflow));
}

#[test]
fn pow_squares_the_base_after_the_last_step_too() {
    // the square of the base is formed even when no later step uses it
    let fits = Decimal { val: 1 << 63, scale: 0 };
    assert_eq!(fits.pow_with_accuracy(1), Ok(fits));
    let too_wide = Decimal { val: 1 << 64, scale: 0 };
    assert_eq!(too_wide.pow_with_accuracy(1), Err(DecimalError::ArithmeticOverflow));
    assert_eq!(fits.pow_with_accuracy(2), Err(DecimalError::ArithmeticOverflow));
}

#[test]
fn pow_never_exceeds_the_exact_power() {
    for val in [33u128, 101, 150, 199] {
        for exp in [1u32, 2, 3, 5, 7] {
            let v = Decimal { val, scale: 2 };
            let power = v.pow_with_accuracy(exp as u128).unwrap();
            assert_eq!(power.scale, 2);
            // power / 100 <= (val / 100)^exp, without fractions
            assert!(power.val * 100u128.pow(exp) <= val.pow(exp) * 100);
        }
    }
    // 1.99^7 = 123.5866..., and the truncations on the way cost three hundredths
    assert_eq!(
        Decimal { val: 199, scale: 2 }.pow_with_accuracy(7),
        Ok(Decimal { val: 12355, scale: 2 })
    );
}

#[test]
fn pow_at_scale_zero_is_the_integer_power() {
    for val in [0u128, 1, 2, 3, 7, 10] {
        for exp in [0u32, 1, 2, 3, 9, 17] {
            let v = Decimal { val, scale: 0 };
            assert_eq!(
                v.pow_with_accuracy(exp as u128),
                Ok(Decimal { val: val.pow(exp), scale: 0 })
            );
        }
    }
    assert_eq!(
        Decimal { val: 7, scale: 0 }.pow_with_accuracy(31),
        Ok(Decimal { val: 157775382034845806615042743, scale: 0 })
    );
}

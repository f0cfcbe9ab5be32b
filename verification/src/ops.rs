//! The arithmetic and comparison operations, one trait per operation.
//!
//! Each trait pairs the executable method with a specification function that
//! says what the method returns; the implementations for [`Decimal`] give the
//! specification in closed form over mathematical integers.
//!
//! Addition, subtraction and the comparisons work on the raw magnitudes and so
//! demand equal scales. Multiplication and division treat the right operand
//! as a ratio `val / 10^scale` and keep the scale of the left operand; they
//! need the denominator `10^scale` of that ratio, so a ratio of more than 38
//! digits is rejected as an overflow. A zero divisor is reported before any
//! overflow.

use crate::decimal::{Decimal, DecimalError};
use crate::pow10::{
    div_ceil, div_ceil_u128, lemma_pow10_positive, pow10, scale_down, scale_up, scaled_up,
};
use vstd::prelude::*;

verus! {

/// Checked subtraction.
pub trait Sub<T>: Sized {
    /// What [`Sub::sub`] returns.
    spec fn sub_spec(self, rhs: T) -> Result<Self, DecimalError>;

    /// Subtracts `rhs` from `self`.
    fn sub(self, rhs: T) -> (res: Result<Self, DecimalError>)
        ensures
            res == self.sub_spec(rhs),
    ;
}

/// Checked addition.
pub trait Add<T>: Sized {
    /// What [`Add::add`] returns.
    spec fn add_spec(self, rhs: T) -> Result<Self, DecimalError>;

    /// Adds `rhs` to `self`.
    fn add(self, rhs: T) -> (res: Result<Self, DecimalError>)
        ensures
            res == self.add_spec(rhs),
    ;
}

/// Division by a ratio, rounding down.
pub trait Div<T>: Sized {
    /// What [`Div::div`] returns.
    spec fn div_spec(self, rhs: T) -> Result<Self, DecimalError>;

    /// Divides `self` by `rhs`, rounding towards zero.
    fn div(self, rhs: T) -> (res: Result<Self, DecimalError>)
        ensures
            res == self.div_spec(rhs),
    ;
}

/// Division by a ratio with the quotient brought to another scale.
pub trait DivScale<T>: Sized {
    /// What [`DivScale::div_to_scale`] returns.
    spec fn div_to_scale_spec(self, rhs: T, to_scale: u8) -> Result<Self, DecimalError>;

    /// Divides `self` by `rhs` and expresses the quotient with `to_scale`
    /// implied digits.
    fn div_to_scale(self, rhs: T, to_scale: u8) -> (res: Result<Self, DecimalError>)
        ensures
            res == self.div_to_scale_spec(rhs, to_scale),
    ;
}

/// Division by a ratio, rounding up.
pub trait DivUp<T>: Sized {
    /// What [`DivUp::div_up`] returns.
    spec fn div_up_spec(self, rhs: T) -> Result<Self, DecimalError>;

    /// Divides `self` by `rhs`, rounding away from zero.
    fn div_up(self, rhs: T) -> (res: Result<Self, DecimalError>)
        ensures
            res == self.div_up_spec(rhs),
    ;
}

/// Multiplication, rounding down.
pub trait Mul<T>: Sized {
    /// What [`Mul::mul`] returns.
    spec fn mul_spec(self, rhs: T) -> Result<Self, DecimalError>;

    /// Multiplies `self` by `rhs`, rounding towards zero.
    fn mul(self, rhs: T) -> (res: Result<Self, DecimalError>)
        ensures
            res == self.mul_spec(rhs),
    ;
}

/// Multiplication, rounding up.
pub trait MulUp<T>: Sized {
    /// What [`MulUp::mul_up`] returns.
    spec fn mul_up_spec(self, rhs: T) -> Result<Self, DecimalError>;

    /// Multiplies `self` by `rhs`, rounding away from zero.
    fn mul_up(self, rhs: T) -> (res: Result<Self, DecimalError>)
        ensures
            res == self.mul_up_spec(rhs),
    ;
}

/// Multiplication by the reciprocal of the right operand.
pub trait MulInverse<T>: Sized {
    /// What [`MulInverse::mul_inverse`] returns.
    spec fn mul_inverse_spec(self, rhs: T) -> Result<Self, DecimalError>;

    /// Multiplies `self` by one over `rhs`, rounding towards zero.
    fn mul_inverse(self, rhs: T) -> (res: Result<Self, DecimalError>)
        ensures
            res == self.mul_inverse_spec(rhs),
    ;
}

/// Raising to a power in decimal terms.
pub trait PowAccuracy<T>: Sized {
    /// What [`PowAccuracy::pow_with_accuracy`] returns.
    spec fn pow_with_accuracy_spec(self, rhs: T) -> Result<Self, DecimalError>;

    /// Raises `self` to the power `rhs`, keeping the scale of `self`.
    fn pow_with_accuracy(self, rhs: T) -> (res: Result<Self, DecimalError>)
        ensures
            res == self.pow_with_accuracy_spec(rhs),
    ;
}

/// Less than or equal.
pub trait Ltq<T>: Sized {
    /// What [`Ltq::ltq`] returns.
    spec fn ltq_spec(self, rhs: T) -> Result<bool, DecimalError>;

    /// Whether `self` is at most `rhs`.
    fn ltq(self, rhs: T) -> (res: Result<bool, DecimalError>)
        ensures
            res == self.ltq_spec(rhs),
    ;
}

/// Strictly less than.
pub trait Lt<T>: Sized {
    /// What [`Lt::lt`] returns.
    spec fn lt_spec(self, rhs: T) -> Result<bool, DecimalError>;

    /// Whether `self` is below `rhs`.
    fn lt(self, rhs: T) -> (res: Result<bool, DecimalError>)
        ensures
            res == self.lt_spec(rhs),
    ;
}

/// Strictly greater than.
pub trait Gt<T>: Sized {
    /// What [`Gt::gt`] returns.
    spec fn gt_spec(self, rhs: T) -> Result<bool, DecimalError>;

    /// Whether `self` is above `rhs`.
    fn gt(self, rhs: T) -> (res: Result<bool, DecimalError>)
        ensures
            res == self.gt_spec(rhs),
    ;
}

/// Equality of two values at one scale.
pub trait Eq<T>: Sized {
    /// What [`Eq::eq`] returns.
    spec fn eq_spec(self, rhs: T) -> Result<bool, DecimalError>;

    /// Whether `self` and `rhs` are the same number.
    fn eq(self, rhs: T) -> (res: Result<bool, DecimalError>)
        ensures
            res == self.eq_spec(rhs),
    ;
}

impl Mul<Decimal> for Decimal {
    /// The product of the magnitudes divided by the denominator of `value`
    /// and truncated. The product and the denominator must fit in 128 bits.
    open spec fn mul_spec(self, value: Decimal) -> Result<Self, DecimalError> {
        if self.val * value.val > u128::MAX || !value.has_denominator() {
            Err(DecimalError::ArithmeticOverflow)
        } else {
            Ok(
                Decimal {
                    val: ((self.val * value.val) / value.denominator_spec()) as u128,
                    scale: self.scale,
                },
            )
        }
    }

    fn mul(self, value: Decimal) -> (res: Result<Self, DecimalError>) {
        proof {
            lemma_pow10_positive(value.scale as nat);
        }
        let product = match self.val.checked_mul(value.val) {
            Some(product) => product,
            None => {
                return Err(DecimalError::ArithmeticOverflow);
            },
        };
        match value.denominator() {
            Ok(denominator) => Ok(Decimal { val: product / denominator, scale: self.scale }),
            Err(error) => Err(error),
        }
    }
}

impl Mul<u128> for Decimal {
    /// The magnitude times `value`, which must fit in 128 bits.
    open spec fn mul_spec(self, value: u128) -> Result<Self, DecimalError> {
        if self.val * value > u128::MAX {
            Err(DecimalError::ArithmeticOverflow)
        } else {
            Ok(Decimal { val: (self.val * value) as u128, scale: self.scale })
        }
    }

    fn mul(self, value: u128) -> (res: Result<Self, DecimalError>) {
        match self.val.checked_mul(value) {
            Some(val) => Ok(Decimal { val, scale: self.scale }),
            None => Err(DecimalError::ArithmeticOverflow),
        }
    }
}

impl MulUp<Decimal> for Decimal {
    /// The product of the magnitudes divided by the denominator of `other`
    /// and rounded up. The product and the denominator must fit in 128 bits.
    open spec fn mul_up_spec(self, other: Decimal) -> Result<Self, DecimalError> {
        if self.val * other.val > u128::MAX || !other.has_denominator() {
            Err(DecimalError::ArithmeticOverflow)
        } else {
            Ok(
                Decimal {
                    val: div_ceil(self.val * other.val, other.denominator_spec()) as u128,
                    scale: self.scale,
                },
            )
        }
    }

    fn mul_up(self, other: Decimal) -> (res: Result<Self, DecimalError>) {
        proof {
            lemma_pow10_positive(other.scale as nat);
        }
        let product = match self.val.checked_mul(other.val) {
            Some(product) => product,
            None => {
                return Err(DecimalError::ArithmeticOverflow);
            },
        };
        match other.denominator() {
            Ok(denominator) => Ok(
                Decimal { val: div_ceil_u128(product, denominator), scale: self.scale },
            ),
            Err(error) => Err(error),
        }
    }
}

impl MulInverse<Decimal> for Decimal {
    /// The magnitude times the denominator of `self`, divided by the
    /// magnitude of `value` and truncated. The denominator and the product
    /// must fit in 128 bits.
    open spec fn mul_inverse_spec(self, value: Decimal) -> Result<Self, DecimalError> {
        if value.val == 0 {
            Err(DecimalError::DivideByZero)
        } else {
            match scaled_up(self.val as int, self.scale as nat) {
                Some(numerator) => Ok(
                    Decimal { val: (numerator / (value.val as int)) as u128, scale: self.scale },
                ),
                None => Err(DecimalError::ArithmeticOverflow),
            }
        }
    }

    fn mul_inverse(self, value: Decimal) -> (res: Result<Self, DecimalError>) {
        if value.val == 0 {
            return Err(DecimalError::DivideByZero);
        }
        match scale_up(self.val, self.scale) {
            Some(numerator) => Ok(Decimal { val: numerator / value.val, scale: self.scale }),
            None => Err(DecimalError::ArithmeticOverflow),
        }
    }
}

impl Add<Decimal> for Decimal {
    /// The sum of the magnitudes at the common scale.
    open spec fn add_spec(self, value: Decimal) -> Result<Self, DecimalError> {
        if self.scale != value.scale {
            Err(DecimalError::ScaleMismatch)
        } else if self.val + value.val > u128::MAX {
            Err(DecimalError::ArithmeticOverflow)
        } else {
            Ok(Decimal { val: (self.val + value.val) as u128, scale: self.scale })
        }
    }

    fn add(self, value: Decimal) -> (res: Result<Self, DecimalError>) {
        if self.scale != value.scale {
            return Err(DecimalError::ScaleMismatch);
        }
        match self.val.checked_add(value.val) {
            Some(val) => Ok(Decimal { val, scale: self.scale }),
            None => Err(DecimalError::ArithmeticOverflow),
        }
    }
}

impl Sub<Decimal> for Decimal {
    /// The difference of the magnitudes at the common scale.
    open spec fn sub_spec(self, value: Decimal) -> Result<Self, DecimalError> {
        if self.scale != value.scale {
            Err(DecimalError::ScaleMismatch)
        } else if self.val < value.val {
            Err(DecimalError::ArithmeticUnderflow)
        } else {
            Ok(Decimal { val: (self.val - value.val) as u128, scale: self.scale })
        }
    }

    fn sub(self, value: Decimal) -> (res: Result<Self, DecimalError>) {
        if self.scale != value.scale {
            return Err(DecimalError::ScaleMismatch);
        }
        match self.val.checked_sub(value.val) {
            Some(val) => Ok(Decimal { val, scale: self.scale }),
            None => Err(DecimalError::ArithmeticUnderflow),
        }
    }
}

impl Div<Decimal> for Decimal {
    /// The magnitude times the denominator of `other`, divided by the
    /// magnitude of `other` and truncated. The denominator and the product
    /// must fit in 128 bits.
    open spec fn div_spec(self, other: Decimal) -> Result<Self, DecimalError> {
        if other.val == 0 {
            Err(DecimalError::DivideByZero)
        } else {
            match scaled_up(self.val as int, other.scale as nat) {
                Some(numerator) => Ok(
                    Decimal { val: (numerator / (other.val as int)) as u128, scale: self.scale },
                ),
                None => Err(DecimalError::ArithmeticOverflow),
            }
        }
    }

    fn div(self, other: Decimal) -> (res: Result<Self, DecimalError>) {
        if other.val == 0 {
            return Err(DecimalError::DivideByZero);
        }
        match scale_up(self.val, other.scale) {
            Some(numerator) => Ok(Decimal { val: numerator / other.val, scale: self.scale }),
            None => Err(DecimalError::ArithmeticOverflow),
        }
    }
}

impl DivUp<Decimal> for Decimal {
    /// The magnitude times the denominator of `other`, divided by the
    /// magnitude of `other` and rounded up. The denominator and the product
    /// must fit in 128 bits.
    open spec fn div_up_spec(self, other: Decimal) -> Result<Self, DecimalError> {
        if other.val == 0 {
            Err(DecimalError::DivideByZero)
        } else {
            match scaled_up(self.val as int, other.scale as nat) {
                Some(numerator) => Ok(
                    Decimal {
                        val: div_ceil(numerator, other.val as int) as u128,
                        scale: self.scale,
                    },
                ),
                None => Err(DecimalError::ArithmeticOverflow),
            }
        }
    }

    fn div_up(self, other: Decimal) -> (res: Result<Self, DecimalError>) {
        if other.val == 0 {
            return Err(DecimalError::DivideByZero);
        }
        match scale_up(self.val, other.scale) {
            Some(numerator) => Ok(
                Decimal { val: div_ceil_u128(numerator, other.val), scale: self.scale },
            ),
            None => Err(DecimalError::ArithmeticOverflow),
        }
    }
}

impl DivScale<Decimal> for Decimal {
    /// The quotient of [`Div::div`] expressed with `to_scale` digits in one
    /// step. Towards fewer digits the truncated quotient is divided by the
    /// power of ten between the two scales. Otherwise the numerator is
    /// multiplied by that power before the division, so that no digit is
    /// lost early; the power and the product must then fit in 128 bits.
    open spec fn div_to_scale_spec(self, other: Decimal, to_scale: u8) -> Result<
        Self,
        DecimalError,
    > {
        if other.val == 0 {
            Err(DecimalError::DivideByZero)
        } else {
            match scaled_up(self.val as int, other.scale as nat) {
                None => Err(DecimalError::ArithmeticOverflow),
                Some(numerator) => if to_scale < self.scale {
                    Ok(
                        Decimal {
                            val: ((numerator / (other.val as int)) / pow10(
                                (self.scale - to_scale) as nat,
                            )) as u128,
                            scale: to_scale,
                        },
                    )
                } else {
                    match scaled_up(numerator, (to_scale - self.scale) as nat) {
                        None => Err(DecimalError::ArithmeticOverflow),
                        Some(widened) => Ok(
                            Decimal {
                                val: (widened / (other.val as int)) as u128,
                                scale: to_scale,
                            },
                        ),
                    }
                },
            }
        }
    }

    fn div_to_scale(self, other: Decimal, to_scale: u8) -> (res: Result<Self, DecimalError>) {
        if other.val == 0 {
            return Err(DecimalError::DivideByZero);
        }
        let numerator = match scale_up(self.val, other.scale) {
            Some(numerator) => numerator,
            None => {
                return Err(DecimalError::ArithmeticOverflow);
            },
        };
        if to_scale < self.scale {
            let quotient = numerator / other.val;
            Ok(Decimal { val: scale_down(quotient, self.scale - to_scale), scale: to_scale })
        } else {
            match scale_up(numerator, to_scale - self.scale) {
                Some(widened) => Ok(Decimal { val: widened / other.val, scale: to_scale }),
                None => Err(DecimalError::ArithmeticOverflow),
            }
        }
    }
}

impl Ltq<Decimal> for Decimal {
    open spec fn ltq_spec(self, other: Decimal) -> Result<bool, DecimalError> {
        if self.scale != other.scale {
            Err(DecimalError::ScaleMismatch)
        } else {
            Ok(self.val <= other.val)
        }
    }

    fn ltq(self, other: Decimal) -> (res: Result<bool, DecimalError>) {
        if self.scale != other.scale {
            return Err(DecimalError::ScaleMismatch);
        }
        Ok(self.val <= other.val)
    }
}

impl Lt<Decimal> for Decimal {
    open spec fn lt_spec(self, other: Decimal) -> Result<bool, DecimalError> {
        if self.scale != other.scale {
            Err(DecimalError::ScaleMismatch)
        } else {
            Ok(self.val < other.val)
        }
    }

    fn lt(self, other: Decimal) -> (res: Result<bool, DecimalError>) {
        if self.scale != other.scale {
            return Err(DecimalError::ScaleMismatch);
        }
        Ok(self.val < other.val)
    }
}

impl Gt<Decimal> for Decimal {
    open spec fn gt_spec(self, other: Decimal) -> Result<bool, DecimalError> {
        if self.scale != other.scale {
            Err(DecimalError::ScaleMismatch)
        } else {
            Ok(self.val > other.val)
        }
    }

    fn gt(self, other: Decimal) -> (res: Result<bool, DecimalError>) {
        if self.scale != other.scale {
            return Err(DecimalError::ScaleMismatch);
        }
        Ok(self.val > other.val)
    }
}

impl Eq<Decimal> for Decimal {
    open spec fn eq_spec(self, other: Decimal) -> Result<bool, DecimalError> {
        if self.scale != other.scale {
            Err(DecimalError::ScaleMismatch)
        } else {
            Ok(self.val == other.val)
        }
    }

    fn eq(self, other: Decimal) -> (res: Result<bool, DecimalError>) {
        if self.scale != other.scale {
            return Err(DecimalError::ScaleMismatch);
        }
        Ok(self.val == other.val)
    }
}

} // verus!

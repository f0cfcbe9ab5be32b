//! The decimal value type: construction, narrowing and rescaling.

use crate::pow10::{checked_pow10, lemma_pow10_positive, pow10, scale_down, scale_up, scaled_up};
use vstd::prelude::*;
use vstd::std_specs::convert::FromSpecImpl;

verus! {

/// Number of implied digits of a percentage.
pub const UNIFIED_PERCENT_SCALE: u8 = 4;

/// Number of implied digits of an interest rate.
pub const INTEREST_RATE_SCALE: u8 = 18;

/// Number of implied digits of the exchange's own token.
pub const SNY_SCALE: u8 = 6;

/// Number of implied digits of an amount in USD.
pub const ACCURACY: u8 = 6;

/// Number of implied digits of an asset price.
pub const PRICE_OFFSET: u8 = 8;

/// Why an operation on decimals produced no value.
#[derive(Clone, Copy, Debug, PartialEq, Eq, Structural)]
pub enum DecimalError {
    /// The two operands of an addition, subtraction or comparison have
    /// different scales.
    ScaleMismatch,
    /// A sum, a product or a power of ten does not fit in 128 bits.
    ArithmeticOverflow,
    /// A difference would be negative.
    ArithmeticUnderflow,
    /// The divisor has magnitude zero.
    DivideByZero,
    /// The magnitude does not fit in the narrower integer asked for.
    NarrowingFailure,
}

/// A non-negative number `val / 10^scale`.
#[derive(Clone, Copy, Debug, PartialEq, Eq, Structural)]
pub struct Decimal {
    /// The magnitude: the number counted in units of `10^-scale`.
    pub val: u128,
    /// The number of implied decimal digits.
    pub scale: u8,
}

impl Decimal {
    /// `10^scale`, the number of units that make up one.
    pub open spec fn denominator_spec(self) -> int {
        pow10(self.scale as nat)
    }

    /// Whether `10^scale` fits in 128 bits, which it does up to a scale of 38.
    pub open spec fn has_denominator(self) -> bool {
        self.denominator_spec() <= u128::MAX
    }

    /// What [`Decimal::denominator`] returns.
    pub open spec fn checked_denominator_spec(self) -> Result<u128, DecimalError> {
        if self.has_denominator() {
            Ok(self.denominator_spec() as u128)
        } else {
            Err(DecimalError::ArithmeticOverflow)
        }
    }

    /// What [`Decimal::to_scale`] returns: towards fewer digits the magnitude
    /// is divided by the power of ten between the two scales and truncated,
    /// towards more digits it is multiplied by it, where that power and the
    /// product must fit in 128 bits.
    pub open spec fn to_scale_spec(self, scale: u8) -> Result<Decimal, DecimalError> {
        if self.scale > scale {
            Ok(
                Decimal {
                    val: (self.val as int / pow10((self.scale - scale) as nat)) as u128,
                    scale,
                },
            )
        } else {
            match scaled_up(self.val as int, (scale - self.scale) as nat) {
                Some(val) => Ok(Decimal { val: val as u128, scale }),
                None => Err(DecimalError::ArithmeticOverflow),
            }
        }
    }

    /// What [`Decimal::to_u64`] returns.
    pub open spec fn to_u64_spec(self) -> Result<u64, DecimalError> {
        if self.val <= u64::MAX {
            Ok(self.val as u64)
        } else {
            Err(DecimalError::NarrowingFailure)
        }
    }

    /// The decimal with magnitude `value` and `scale` implied digits.
    pub fn new(value: u128, scale: u8) -> (res: Self)
        ensures
            res == (Decimal { val: value, scale }),
    {
        Self { val: value, scale }
    }

    /// `10^scale`. Fails with `ArithmeticOverflow` exactly when that power of
    /// ten does not fit in 128 bits, that is for a scale above 38.
    pub fn denominator(self) -> (res: Result<u128, DecimalError>)
        ensures
            res == self.checked_denominator_spec(),
    {
        proof {
            lemma_pow10_positive(self.scale as nat);
        }
        match checked_pow10(self.scale) {
            Some(d) => Ok(d),
            None => Err(DecimalError::ArithmeticOverflow),
        }
    }

    /// A percentage, counted in units of one hundredth of a percent.
    pub fn from_percent(percent: u16) -> (res: Self)
        ensures
            res == (Decimal { val: percent as u128, scale: UNIFIED_PERCENT_SCALE }),
    {
        Decimal { val: percent as u128, scale: UNIFIED_PERCENT_SCALE }
    }

    /// A whole number.
    pub fn from_integer(integer: u64) -> (res: Self)
        ensures
            res == (Decimal { val: integer as u128, scale: 0 }),
    {
        Decimal { val: integer as u128, scale: 0 }
    }

    /// An asset price, counted in units of `10^-PRICE_OFFSET`.
    pub fn from_price(price: u128) -> (res: Self)
        ensures
            res == (Decimal { val: price, scale: PRICE_OFFSET }),
    {
        Decimal { val: price, scale: PRICE_OFFSET }
    }

    /// An amount in USD, counted in units of `10^-ACCURACY`.
    pub fn from_usd(value: u128) -> (res: Self)
        ensures
            res == (Decimal { val: value, scale: ACCURACY }),
    {
        Decimal { val: value, scale: ACCURACY }
    }

    /// An amount of the exchange's own token, counted in its smallest unit.
    pub fn from_sny(value: u128) -> (res: Self)
        ensures
            res == (Decimal { val: value, scale: SNY_SCALE }),
    {
        Decimal { val: value, scale: SNY_SCALE }
    }

    /// An interest rate, counted in units of `10^-INTEREST_RATE_SCALE`.
    pub fn from_interest_rate(value: u128) -> (res: Self)
        ensures
            res == (Decimal { val: value, scale: INTEREST_RATE_SCALE }),
    {
        Decimal { val: value, scale: INTEREST_RATE_SCALE }
    }

    /// The same quantity at the scale of USD amounts.
    pub fn to_usd(self) -> (res: Result<Decimal, DecimalError>)
        ensures
            res == self.to_scale_spec(ACCURACY),
    {
        self.to_scale(ACCURACY)
    }

    /// The magnitude as a 64-bit integer. Fails with `NarrowingFailure`
    /// exactly when it does not fit.
    pub fn to_u64(self) -> (res: Result<u64, DecimalError>)
        ensures
            res == self.to_u64_spec(),
    {
        if self.val <= u64::MAX as u128 {
            Ok(self.val as u64)
        } else {
            Err(DecimalError::NarrowingFailure)
        }
    }

    /// The magnitude as a 128-bit integer.
    pub fn to_u128(self) -> (res: u128)
        ensures
            res == self.val,
    {
        self.val
    }

    /// The same quantity at the scale of interest rates.
    pub fn to_interest_rate(self) -> (res: Result<Decimal, DecimalError>)
        ensures
            res == self.to_scale_spec(INTEREST_RATE_SCALE),
    {
        self.to_scale(INTEREST_RATE_SCALE)
    }

    /// The same quantity with `scale` implied digits.
    ///
    /// Towards fewer digits the magnitude is truncated, which loses the
    /// digits cut off and never fails. Towards more digits the call fails
    /// with `ArithmeticOverflow` exactly when the power of ten between the
    /// two scales, or the new magnitude, does not fit in 128 bits.
    pub fn to_scale(self, scale: u8) -> (res: Result<Decimal, DecimalError>)
        ensures
            res == self.to_scale_spec(scale),
    {
        if self.scale > scale {
            Ok(Decimal { val: scale_down(self.val, self.scale - scale), scale })
        } else {
            match scale_up(self.val, scale - self.scale) {
                Some(val) => Ok(Decimal { val, scale }),
                None => Err(DecimalError::ArithmeticOverflow),
            }
        }
    }
}

impl From<Decimal> for u128 {
    /// The magnitude, which always fits.
    fn from(value: Decimal) -> (res: u128) {
        value.val
    }
}

impl FromSpecImpl<Decimal> for u128 {
    open spec fn obeys_from_spec() -> bool {
        true
    }

    open spec fn from_spec(value: Decimal) -> u128 {
        value.val
    }
}

} // verus!

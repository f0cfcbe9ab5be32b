//! Integer powers of a decimal by repeated squaring.

use crate::decimal::{Decimal, DecimalError};
use crate::ops::{Mul, PowAccuracy};
use crate::pow10::{lemma_pow10_positive, lemma_quotient_bounds};
use vstd::arithmetic::power::{
    lemma_pow0, lemma_pow1, lemma_pow_adds, lemma_pow_distributes, lemma_pow_multiplies,
    lemma_pow_positive, lemma_square_is_pow2, pow,
};
use vstd::prelude::*;

verus! {

/// The magnitude that square-and-multiply arrives at, or `None` when one of
/// its products does not fit in 128 bits.
///
/// `result` is the product gathered so far, `base` the current square and
/// `exp` the part of the exponent not yet used, lowest bit first. Each step
/// multiplies `result` by `base` if the lowest bit of `exp` is set, then
/// squares `base`, the last step included; every product is divided by
/// `denominator` and truncated, as the product of two decimals is.
pub open spec fn pow_steps(result: int, base: int, exp: nat, denominator: int) -> Option<int>
    decreases exp,
{
    if exp == 0 {
        Some(result)
    } else if exp % 2 == 1 && result * base > u128::MAX {
        None
    } else if base * base > u128::MAX {
        None
    } else {
        pow_steps(
            if exp % 2 == 1 {
                result * base / denominator
            } else {
                result
            },
            base * base / denominator,
            exp / 2,
            denominator,
        )
    }
}

/// Between non-negative bases, the larger base has the larger power.
pub proof fn lemma_pow_base_monotonic(a: int, b: int, e: nat)
    requires
        0 <= a <= b,
    ensures
        0 <= pow(a, e) <= pow(b, e),
    decreases e,
{
    reveal(pow);
    if e > 0 {
        lemma_pow_base_monotonic(a, b, (e - 1) as nat);
        let x = pow(a, (e - 1) as nat);
        let y = pow(b, (e - 1) as nat);
        assert(0 <= a * x <= b * y) by (nonlinear_arith)
            requires
                0 <= a <= b,
                0 <= x <= y,
        ;
    }
}

/// A power is the power of the square to half the exponent, times the base
/// once more when the exponent is odd.
pub proof fn lemma_pow_by_squaring(x: int, e: nat)
    ensures
        pow(x, e) == pow(x * x, e / 2) * (if e % 2 == 1 {
            x
        } else {
            1
        }),
{
    let k = e / 2;
    lemma_square_is_pow2(x);
    lemma_pow_multiplies(x, 2, k);
    assert(pow(x * x, k) == pow(x, 2 * k));
    if e % 2 == 1 {
        assert(e == 2 * k + 1);
        lemma_pow_adds(x, 2 * k, 1);
        lemma_pow1(x);
    } else {
        assert(e == 2 * k);
    }
}

/// What square-and-multiply arrives at fits in 128 bits if what it started
/// from does, and is never above the exact product `result * base^exp`
/// counted in units of `denominator^exp`: truncation only ever loses.
pub proof fn lemma_pow_steps_upper_bound(result: int, base: int, exp: nat, denominator: int)
    requires
        0 <= result <= u128::MAX,
        0 <= base,
        1 <= denominator,
    ensures
        pow_steps(result, base, exp, denominator) matches Some(r) ==> 0 <= r <= u128::MAX && r
            * pow(denominator, exp) <= result * pow(base, exp),
    decreases exp,
{
    let d = denominator;
    if exp == 0 {
        lemma_pow0(d);
        lemma_pow0(base);
    } else if let Some(r) = pow_steps(result, base, exp, d) {
        let k = exp / 2;
        let odd = exp % 2 == 1;
        let next_result = if odd {
            result * base / d
        } else {
            result
        };
        let next_base = base * base / d;
        assert(0 <= result * base) by (nonlinear_arith)
            requires
                0 <= result,
                0 <= base,
        ;
        assert(0 <= base * base) by (nonlinear_arith)
            requires
                0 <= base,
        ;
        lemma_quotient_bounds(result * base, d);
        lemma_quotient_bounds(base * base, d);
        lemma_pow_steps_upper_bound(next_result, next_base, k, d);
        // what truncation leaves, brought back to the units it was cut from
        assert(next_base * d <= base * base) by (nonlinear_arith)
            requires
                next_base == base * base / d,
                1 <= d,
        ;
        if odd {
            assert(next_result * d <= result * base) by (nonlinear_arith)
                requires
                    next_result == result * base / d,
                    1 <= d,
            ;
        }
        assert(0 <= next_base * d) by (nonlinear_arith)
            requires
                0 <= next_base,
                1 <= d,
        ;
        lemma_pow_base_monotonic(next_base * d, base * base, k);
        lemma_pow_distributes(next_base, d, k);
        lemma_pow_by_squaring(d, exp);
        lemma_pow_by_squaring(base, exp);
        lemma_pow_multiplies(d, 2, k);
        lemma_square_is_pow2(d);
        lemma_pow_adds(d, k, k);
        lemma_pow_base_monotonic(0, next_base, k);
        lemma_pow_positive(d, k);
        lemma_pow_base_monotonic(0, base * base, k);
        let dk = pow(d, k);
        let bk = pow(next_base, k);
        let sk = pow(base * base, k);
        assert(pow(d, 2 * k) == dk * dk);
        assert(bk * dk <= sk);
        // the induction hypothesis, widened by `dk` and carried over to `sk`
        assert(r * (dk * dk) <= next_result * sk) by (nonlinear_arith)
            requires
                r * dk <= next_result * bk,
                bk * dk <= sk,
                0 <= r,
                0 <= next_result,
                0 <= bk,
                1 <= dk,
        ;
        if odd {
            assert(r * ((dk * dk) * d) <= result * (sk * base)) by (nonlinear_arith)
                requires
                    r * (dk * dk) <= next_result * sk,
                    next_result * d <= result * base,
                    0 <= sk,
                    1 <= d,
                    0 <= r,
            ;
        } else {
            assert(r * ((dk * dk) * 1) <= result * (sk * 1)) by (nonlinear_arith)
                requires
                    r * (dk * dk) <= next_result * sk,
                    next_result == result,
            ;
        }
    }
}

/// With denominator one nothing is truncated: square-and-multiply arrives at
/// the exact product `result * base^exp`.
pub proof fn lemma_pow_steps_exact(result: int, base: int, exp: nat)
    requires
        0 <= result,
        0 <= base,
    ensures
        pow_steps(result, base, exp, 1) matches Some(r) ==> r == result * pow(base, exp),
    decreases exp,
{
    if exp == 0 {
        lemma_pow0(base);
    } else if let Some(r) = pow_steps(result, base, exp, 1) {
        let k = exp / 2;
        let odd = exp % 2 == 1;
        let next_result = if odd {
            result * base
        } else {
            result
        };
        assert(0 <= result * base) by (nonlinear_arith)
            requires
                0 <= result,
                0 <= base,
        ;
        assert(0 <= base * base) by (nonlinear_arith)
            requires
                0 <= base,
        ;
        lemma_pow_steps_exact(next_result, base * base, k);
        lemma_pow_by_squaring(base, exp);
        let sk = pow(base * base, k);
        if odd {
            assert((result * base) * sk == result * (sk * base)) by (nonlinear_arith);
        } else {
            assert(result * sk == result * (sk * 1)) by (nonlinear_arith);
        }
    }
}

/// The decimal that [`Mul::mul`] returns when the product of the magnitudes
/// and the denominator of the right operand fit in 128 bits.
pub proof fn lemma_mul_value(a: Decimal, b: Decimal)
    requires
        a.val * b.val <= u128::MAX,
        b.has_denominator(),
    ensures
        a.mul_spec(b) matches Ok(p) && p.scale == a.scale && p.val == (a.val * b.val)
            / b.denominator_spec(),
{
    lemma_pow10_positive(b.scale as nat);
    assert(0 <= a.val * b.val) by (nonlinear_arith);
    lemma_quotient_bounds(a.val * b.val, b.denominator_spec());
}

impl PowAccuracy<u128> for Decimal {
    /// One, that is the denominator of `self` as a magnitude, multiplied by
    /// `self` as [`pow_steps`] says. Fails with `ArithmeticOverflow` exactly
    /// when the denominator or one of the products does not fit in 128 bits.
    open spec fn pow_with_accuracy_spec(self, exp: u128) -> Result<Self, DecimalError> {
        let one = self.denominator_spec();
        if one > u128::MAX {
            Err(DecimalError::ArithmeticOverflow)
        } else {
            match pow_steps(one, self.val as int, exp as nat, one) {
                Some(val) => Ok(Decimal { val: val as u128, scale: self.scale }),
                None => Err(DecimalError::ArithmeticOverflow),
            }
        }
    }

    fn pow_with_accuracy(self, exp: u128) -> (res: Result<Self, DecimalError>) {
        proof {
            lemma_pow10_positive(self.scale as nat);
        }
        let one = match self.denominator() {
            Ok(val) => Decimal { val, scale: self.scale },
            Err(_) => {
                return Err(DecimalError::ArithmeticOverflow);
            },
        };
        if exp == 0 {
            return Ok(one);
        }
        let ghost denominator = self.denominator_spec();
        let mut current_exp = exp;
        let mut base = self;
        let mut result = one;
        while current_exp > 0
            invariant
                base.scale == self.scale,
                result.scale == self.scale,
                denominator == self.denominator_spec(),
                1 <= denominator <= u128::MAX,
                pow_steps(result.val as int, base.val as int, current_exp as nat, denominator)
                    == pow_steps(denominator, self.val as int, exp as nat, denominator),
            decreases current_exp,
        {
            if current_exp % 2 != 0 {
                proof {
                    if result.val * base.val <= u128::MAX {
                        lemma_mul_value(result, base);
                    }
                }
                result = match result.mul(base) {
                    Ok(product) => product,
                    Err(_) => {
                        return Err(DecimalError::ArithmeticOverflow);
                    },
                };
            }
            current_exp = current_exp / 2;
            proof {
                if base.val * base.val <= u128::MAX {
                    lemma_mul_value(base, base);
                }
            }
            base = match base.mul(base) {
                Ok(square) => square,
                Err(_) => {
                    return Err(DecimalError::ArithmeticOverflow);
                },
            };
        }
        Ok(result)
    }
}

} // verus!

//! Laws that relate the operations to one another.
//!
//! Each law is a proof about the specification functions that the
//! operations' contracts are stated with, so it holds of every call.

use crate::decimal::{Decimal, DecimalError};
use crate::ops::{Add, Div, DivScale, DivUp, Gt, Lt, Ltq, Mul, MulUp, PowAccuracy, Sub};
use crate::pow10::{
    lemma_div_ceil_bounds, lemma_pow10_fits, lemma_pow10_positive, lemma_pow10_unfold,
    lemma_quotient_bounds, pow10, MAX_EXPONENT,
};
use crate::power::{lemma_pow_steps_exact, lemma_pow_steps_upper_bound, pow_steps};
use vstd::arithmetic::div_mod::{lemma_div_denominator, lemma_div_multiples_vanish};
use vstd::arithmetic::power::pow;
use vstd::prelude::*;

verus! {

/// Rescaling towards fewer digits, or to the same number of digits, always
/// succeeds: it divides the magnitude by the power of ten between the two
/// scales and so never increases it.
pub proof fn lemma_to_scale_down_never_fails(v: Decimal, scale: u8)
    requires
        scale <= v.scale,
    ensures
        v.to_scale_spec(scale) matches Ok(t) && t.scale == scale && t.val == v.val as int / pow10(
            (v.scale - scale) as nat,
        ) && t.val <= v.val,
{
    let digits = (v.scale - scale) as nat;
    lemma_pow10_positive(digits);
    lemma_quotient_bounds(v.val as int, pow10(digits));
    if scale == v.scale {
        lemma_pow10_unfold(0);
        assert(v.val * pow10(0) == v.val) by (nonlinear_arith)
            requires
                pow10(0) == 1,
        ;
        assert(v.val as int / pow10(0) == v.val);
    }
}

/// A value that was brought to scale `s1` can be brought on to any scale
/// `s2 <= s1`: that second step truncates and cannot overflow.
pub proof fn lemma_to_scale_twice_down(v: Decimal, s1: u8, s2: u8)
    requires
        s1 >= s2,
    ensures
        v.to_scale_spec(s1) matches Ok(w) ==> (w.to_scale_spec(s2) matches Ok(t) && t.scale == s2
            && t.val == w.val as int / pow10((s1 - s2) as nat) && t.val <= w.val),
{
    if let Ok(w) = v.to_scale_spec(s1) {
        lemma_to_scale_down_never_fails(w, s2);
    }
}

/// Truncation is idempotent: once a value has been brought to scale `s2`,
/// widening it to `s1 >= s2` and bringing it back to `s2` gives the truncated
/// value again.
pub proof fn lemma_to_scale_round_trip(v: Decimal, s1: u8, s2: u8)
    requires
        s1 >= s2,
    ensures
        v.to_scale_spec(s2) matches Ok(t) ==> (t.to_scale_spec(s1) matches Ok(u)
            ==> u.to_scale_spec(s2) == Ok::<Decimal, DecimalError>(t)),
{
    if let Ok(t) = v.to_scale_spec(s2) {
        if let Ok(u) = t.to_scale_spec(s1) {
            let factor = pow10((s1 - s2) as nat);
            lemma_pow10_positive((s1 - s2) as nat);
            lemma_to_scale_down_never_fails(u, s2);
            assert(u.val == t.val * factor);
            assert((t.val * factor) / factor == t.val) by (nonlinear_arith)
                requires
                    factor >= 1,
            ;
        }
    }
}

/// Addition, subtraction and the four comparisons reject operands of
/// different scales, whatever their magnitudes.
pub proof fn lemma_scale_mismatch_rejected(a: Decimal, b: Decimal)
    requires
        a.scale != b.scale,
    ensures
        a.add_spec(b) == Err::<Decimal, DecimalError>(DecimalError::ScaleMismatch),
        a.sub_spec(b) == Err::<Decimal, DecimalError>(DecimalError::ScaleMismatch),
        a.lt_spec(b) == Err::<bool, DecimalError>(DecimalError::ScaleMismatch),
        a.ltq_spec(b) == Err::<bool, DecimalError>(DecimalError::ScaleMismatch),
        a.gt_spec(b) == Err::<bool, DecimalError>(DecimalError::ScaleMismatch),
        crate::ops::Eq::eq_spec(a, b) == Err::<bool, DecimalError>(DecimalError::ScaleMismatch),
{
}

/// The zeroth power is one: the magnitude `10^scale` at the scale of the
/// operand. It exists exactly for the scales whose power of ten fits in 128
/// bits.
pub proof fn lemma_pow_zero_is_one(v: Decimal)
    ensures
        v.pow_with_accuracy_spec(0) == (if v.scale <= MAX_EXPONENT {
            Ok::<Decimal, DecimalError>(
                Decimal { val: pow10(v.scale as nat) as u128, scale: v.scale },
            )
        } else {
            Err::<Decimal, DecimalError>(DecimalError::ArithmeticOverflow)
        }),
        v.scale <= MAX_EXPONENT ==> 1 <= pow10(v.scale as nat) <= u128::MAX,
{
    lemma_pow10_fits(v.scale as nat);
    lemma_pow10_positive(v.scale as nat);
    assert(pow_steps(v.denominator_spec(), v.val as int, 0, v.denominator_spec()) == Some(
        v.denominator_spec(),
    ));
}

/// A power never exceeds the exact power. With `d` the denominator of the
/// operand, the result `r / d` is at most `(val / d)^exp`, stated here without
/// fractions; what is missing is what the truncation of each product lost.
pub proof fn lemma_pow_never_above_exact(v: Decimal, exp: u128)
    ensures
        v.pow_with_accuracy_spec(exp) matches Ok(r) ==> r.scale == v.scale && r.val * pow(
            v.denominator_spec(),
            exp as nat,
        ) <= pow(v.val as int, exp as nat) * v.denominator_spec(),
{
    let d = v.denominator_spec();
    lemma_pow10_positive(v.scale as nat);
    if d <= u128::MAX {
        lemma_pow_steps_upper_bound(d, v.val as int, exp as nat, d);
        let exact = pow(v.val as int, exp as nat);
        assert(d * exact == exact * d) by (nonlinear_arith);
    }
}

/// A power of a whole number is exact: at scale zero the result is
/// `val^exp`, whenever the operation succeeds.
pub proof fn lemma_pow_of_whole_number_is_exact(v: Decimal, exp: u128)
    requires
        v.scale == 0,
    ensures
        v.pow_with_accuracy_spec(exp) matches Ok(r) ==> r.scale == 0 && r.val == pow(
            v.val as int,
            exp as nat,
        ),
{
    lemma_pow10_unfold(0);
    lemma_pow_steps_exact(1, v.val as int, exp as nat);
    lemma_pow_steps_upper_bound(1, v.val as int, exp as nat, 1);
    let exact = pow(v.val as int, exp as nat);
    assert(1 * exact == exact) by (nonlinear_arith);
}

/// Rounding a quotient up agrees with rounding it down: both divisions
/// succeed on the same operands, the quotient rounded up is the truncated
/// one or the next magnitude above it, and the two are equal exactly when
/// the division leaves no remainder.
pub proof fn lemma_div_up_against_div(a: Decimal, b: Decimal)
    requires
        b.val > 0,
    ensures
        a.div_spec(b) is Ok <==> a.div_up_spec(b) is Ok,
        a.div_spec(b) matches Ok(q) ==> (a.div_up_spec(b) matches Ok(u) && u.scale == q.scale
            && q.val <= u.val <= q.val + 1 && (q.val == u.val <==> (a.val * pow10(
            b.scale as nat,
        )) % (b.val as int) == 0)),
{
    let numerator = a.val * pow10(b.scale as nat);
    lemma_pow10_positive(b.scale as nat);
    assert(0 <= numerator) by (nonlinear_arith)
        requires
            numerator == a.val * pow10(b.scale as nat),
            pow10(b.scale as nat) >= 1,
    ;
    if numerator <= u128::MAX {
        lemma_quotient_bounds(numerator, b.val as int);
        lemma_div_ceil_bounds(numerator, b.val as int);
    }
}

/// Rounding a product up agrees with rounding it down: both
/// multiplications succeed on the same operands, the product rounded up is
/// the truncated one or the next magnitude above it, and the two are equal
/// exactly when the division by the denominator leaves no remainder.
pub proof fn lemma_mul_up_against_mul(a: Decimal, b: Decimal)
    ensures
        a.mul_spec(b) is Ok <==> a.mul_up_spec(b) is Ok,
        a.mul_spec(b) matches Ok(p) ==> (a.mul_up_spec(b) matches Ok(u) && u.scale == p.scale
            && p.val <= u.val <= p.val + 1 && (p.val == u.val <==> (a.val * b.val) % pow10(
            b.scale as nat,
        ) == 0)),
{
    let product = a.val * b.val;
    lemma_pow10_positive(b.scale as nat);
    assert(0 <= product) by (nonlinear_arith)
        requires
            product == a.val * b.val,
    ;
    if product <= u128::MAX {
        lemma_quotient_bounds(product, pow10(b.scale as nat));
        lemma_div_ceil_bounds(product, pow10(b.scale as nat));
    }
}

/// Truncating twice by two positive divisors is truncating once by their
/// product, in either order.
proof fn lemma_nested_quotients(n: int, b: int, f: int)
    requires
        0 <= n,
        0 < b,
        0 < f,
    ensures
        0 <= n * f,
        ((n * f) / b) / f == n / b,
{
    assert(0 <= n * f) by (nonlinear_arith)
        requires
            0 <= n,
            0 < f,
    ;
    assert(b * f == f * b) by (nonlinear_arith);
    assert(n * f == f * n) by (nonlinear_arith);
    lemma_div_denominator(n * f, b, f);
    lemma_div_denominator(n * f, f, b);
    lemma_div_multiples_vanish(n, f);
}

/// Dividing to another scale agrees with dividing at the scale of the
/// dividend. Towards fewer digits, or to the same scale, it is the quotient
/// of `div` brought to that scale. Towards more digits it is a quotient with
/// more digits, and truncating it back to the scale of the dividend gives
/// the quotient of `div`.
pub proof fn lemma_div_to_scale_against_div(a: Decimal, b: Decimal, to_scale: u8)
    ensures
        to_scale <= a.scale ==> a.div_to_scale_spec(b, to_scale) == (match a.div_spec(b) {
            Ok(q) => q.to_scale_spec(to_scale),
            Err(e) => Err(e),
        }),
        to_scale >= a.scale ==> (a.div_to_scale_spec(b, to_scale) matches Ok(w)
            ==> w.to_scale_spec(a.scale) == a.div_spec(b)),
{
    let numerator = a.val * pow10(b.scale as nat);
    lemma_pow10_positive(b.scale as nat);
    assert(0 <= numerator) by (nonlinear_arith)
        requires
            numerator == a.val * pow10(b.scale as nat),
            pow10(b.scale as nat) >= 1,
    ;
    if b.val != 0 && numerator <= u128::MAX {
        lemma_quotient_bounds(numerator, b.val as int);
        let quotient = numerator / (b.val as int);
        if to_scale == a.scale {
            lemma_pow10_unfold(0);
            assert(numerator * pow10(0) == numerator) by (nonlinear_arith)
                requires
                    pow10(0) == 1,
            ;
            assert(quotient * pow10(0) == quotient) by (nonlinear_arith)
                requires
                    pow10(0) == 1,
            ;
            assert(quotient / pow10(0) == quotient);
        } else if to_scale > a.scale {
            let factor = pow10((to_scale - a.scale) as nat);
            lemma_pow10_positive((to_scale - a.scale) as nat);
            lemma_nested_quotients(numerator, b.val as int, factor);
            if numerator * factor <= u128::MAX {
                lemma_quotient_bounds(numerator * factor, b.val as int);
            }
        }
    }
}

/// Two operands of the largest magnitude cannot be multiplied: the product
/// is rejected as an overflow, at any scales and under either rounding.
pub proof fn lemma_mul_of_max_overflows(a: Decimal, b: Decimal)
    requires
        a.val == u128::MAX,
        b.val == u128::MAX,
    ensures
        a.mul_spec(b) == Err::<Decimal, DecimalError>(DecimalError::ArithmeticOverflow),
        a.mul_up_spec(b) == Err::<Decimal, DecimalError>(DecimalError::ArithmeticOverflow),
        a.mul_spec(b.val) == Err::<Decimal, DecimalError>(DecimalError::ArithmeticOverflow),
{
    assert(a.val * b.val > u128::MAX) by (nonlinear_arith)
        requires
            a.val == u128::MAX,
            b.val == u128::MAX,
    ;
}

} // verus!

//! Powers of ten in 128 bits, and the checked scaling steps built on them.
//!
//! Every operation of the decimal type that multiplies or divides by a power
//! of ten goes through the functions of this module, so that no call site can
//! use unchecked arithmetic. A power of ten that does not fit in 128 bits
//! cannot be multiplied with; dividing by one, as narrowing a value to fewer
//! digits does, leaves zero.

use vstd::arithmetic::div_mod::{lemma_basic_div, lemma_fundamental_div_mod};
use vstd::arithmetic::power::{lemma_pow_increases, lemma_pow_positive, pow};
use vstd::prelude::*;

verus! {

/// The largest exponent whose power of ten fits in 128 bits.
pub const MAX_EXPONENT: u8 = 38;

/// `10^n` as a mathematical integer.
pub open spec fn pow10(n: nat) -> int {
    pow(10, n)
}

/// `val * 10^digits`, provided that the power of ten and the product both fit
/// in 128 bits.
pub open spec fn scaled_up(val: int, digits: nat) -> Option<int> {
    if pow10(digits) <= u128::MAX && val * pow10(digits) <= u128::MAX {
        Some(val * pow10(digits))
    } else {
        None
    }
}

/// The quotient `n / d` rounded up to the next integer.
pub open spec fn div_ceil(n: int, d: int) -> int {
    if n % d == 0 {
        n / d
    } else {
        n / d + 1
    }
}

/// `10^0` is one, and each further digit multiplies by ten.
pub proof fn lemma_pow10_unfold(n: nat)
    ensures
        pow10(0) == 1,
        pow10(n + 1) == 10 * pow10(n),
{
    reveal(pow);
}

/// Every power of ten is at least one.
pub proof fn lemma_pow10_positive(n: nat)
    ensures
        pow10(n) >= 1,
{
    lemma_pow_positive(10, n);
}

/// Powers of ten grow with the exponent.
pub proof fn lemma_pow10_monotonic(m: nat, n: nat)
    requires
        m <= n,
    ensures
        pow10(m) <= pow10(n),
{
    lemma_pow_increases(10, m, n);
}

/// `10^38` is the largest power of ten below `2^128`.
pub proof fn lemma_pow10_fits(n: nat)
    ensures
        pow10(n) <= u128::MAX <==> n <= MAX_EXPONENT,
        pow10(38) == 100_000_000_000_000_000_000_000_000_000_000_000_000,
{
    reveal_with_fuel(pow, 40);
    assert(pow10(38) == 100_000_000_000_000_000_000_000_000_000_000_000_000);
    assert(pow10(39) == 1_000_000_000_000_000_000_000_000_000_000_000_000_000);
    if n <= 38 {
        lemma_pow10_monotonic(n, 38);
    } else {
        lemma_pow10_monotonic(39, n);
    }
}

/// A quotient of a non-negative number by a positive one lies between zero
/// and that number.
pub proof fn lemma_quotient_bounds(n: int, d: int)
    requires
        0 <= n,
        1 <= d,
    ensures
        0 <= n / d <= n,
{
    assert(0 <= n / d <= n) by (nonlinear_arith)
        requires
            0 <= n,
            1 <= d,
    ;
}

/// Rounding up never gives less than rounding down, gives at most one more,
/// and gives the same exactly when nothing is left over.
pub proof fn lemma_div_ceil_bounds(n: int, d: int)
    requires
        0 <= n,
        0 < d,
    ensures
        n / d <= div_ceil(n, d) <= n / d + 1,
        div_ceil(n, d) == n / d <==> n % d == 0,
        div_ceil(n, d) * d >= n,
        div_ceil(n, d) <= n,
{
    lemma_fundamental_div_mod(n, d);
    let q = n / d;
    let r = n % d;
    assert(0 <= r < d) by (nonlinear_arith)
        requires
            r == n % d,
            0 < d,
    ;
    assert(0 <= q) by (nonlinear_arith)
        requires
            q == n / d,
            0 <= n,
            0 < d,
    ;
    assert(n == d * q + r);
    assert((q + 1) * d == d * q + d) by (nonlinear_arith);
    assert(q * d == d * q) by (nonlinear_arith);
    if r != 0 {
        assert(q + 1 <= n) by (nonlinear_arith)
            requires
                n == d * q + r,
                1 <= r,
                0 <= q,
                1 <= d,
        ;
    } else {
        assert(q <= n) by (nonlinear_arith)
            requires
                n == d * q,
                0 <= q,
                1 <= d,
        ;
    }
}

/// Computes `10^exp`, or `None` when it does not fit in 128 bits.
pub fn checked_pow10(exp: u8) -> (res: Option<u128>)
    ensures
        match res {
            Some(p) => p == pow10(exp as nat),
            None => pow10(exp as nat) > u128::MAX,
        },
{
    let mut acc: u128 = 1;
    let mut i: u8 = 0;
    proof {
        lemma_pow10_unfold(0);
    }
    while i < exp
        invariant
            i <= exp,
            acc == pow10(i as nat),
        decreases exp - i,
    {
        proof {
            lemma_pow10_unfold(i as nat);
        }
        match acc.checked_mul(10) {
            Some(next) => {
                acc = next;
            },
            None => {
                proof {
                    lemma_pow10_monotonic((i + 1) as nat, exp as nat);
                }
                return None;
            },
        }
        i = i + 1;
    }
    Some(acc)
}

/// Multiplies `val` by `10^digits`, or returns `None` when the power of ten
/// or the product does not fit in 128 bits.
pub fn scale_up(val: u128, digits: u8) -> (res: Option<u128>)
    ensures
        match res {
            Some(v) => scaled_up(val as int, digits as nat) == Some(v as int),
            None => scaled_up(val as int, digits as nat) is None,
        },
{
    match checked_pow10(digits) {
        Some(factor) => val.checked_mul(factor),
        None => None,
    }
}

/// Divides `val` by `10^digits`, rounding towards zero. A power of ten beyond
/// the 128-bit range divides every value down to zero.
pub fn scale_down(val: u128, digits: u8) -> (res: u128)
    ensures
        res == val as int / pow10(digits as nat),
{
    proof {
        lemma_pow10_positive(digits as nat);
    }
    match checked_pow10(digits) {
        Some(factor) => val / factor,
        None => {
            proof {
                lemma_basic_div(val as int, pow10(digits as nat));
            }
            0
        },
    }
}

/// Divides `n` by `d`, rounding up.
pub(crate) fn div_ceil_u128(n: u128, d: u128) -> (res: u128)
    requires
        d > 0,
    ensures
        res == div_ceil(n as int, d as int),
{
    let q = n / d;
    let r = n % d;
    proof {
        lemma_div_ceil_bounds(n as int, d as int);
    }
    if r == 0 {
        q
    } else {
        q + 1
    }
}

} // verus!

//! Decimal conversion helpers for Omnichain Fungible Tokens.
//!
//! Amounts travel between chains in *shared decimals* (SD) and are held on Stellar in
//! *local decimals* (LD); the conversion rate is `10 ^ (local_decimals - shared_decimals)`.
use vstd::prelude::*;
use vstd::arithmetic::div_mod::lemma_fundamental_div_mod;
use crate::errors::OFTError;

verus! {

/// Division of `a` by `b` that rounds toward zero, as Rust's `/` does on signed integers.
pub open spec fn trunc_div(a: int, b: int) -> int {
    if b > 0 {
        if a >= 0 { a / b } else { -((-a) / b) }
    } else {
        if a >= 0 { -(a / (-b)) } else { (-a) / (-b) }
    }
}

/// `amount_ld` with the remainder of its division by `conversion_rate` removed.
pub open spec fn spec_remove_dust(amount_ld: int, conversion_rate: int) -> int {
    trunc_div(amount_ld, conversion_rate) * conversion_rate
}

/// The product of a truncated quotient and its divisor lies between zero and the dividend.
pub proof fn lemma_trunc_div_mul(a: int, b: int)
    requires
        b != 0,
    ensures
        a >= 0 ==> 0 <= trunc_div(a, b) * b <= a,
        a < 0 ==> a <= trunc_div(a, b) * b <= 0,
        trunc_div(a, b) * b == trunc_div(a, -b) * (-b),
{
    if b > 0 {
        if a >= 0 {
            lemma_fundamental_div_mod(a, b);
            assert(0 <= (a / b) * b <= a) by (nonlinear_arith)
                requires a == b * (a / b) + a % b, 0 <= a % b < b, a >= 0, b > 0;
        } else {
            lemma_fundamental_div_mod(-a, b);
            assert(0 <= ((-a) / b) * b <= -a) by (nonlinear_arith)
                requires -a == b * ((-a) / b) + (-a) % b, 0 <= (-a) % b < b, a < 0, b > 0;
            assert(-((-a) / b) * b == -(((-a) / b) * b)) by (nonlinear_arith);
        }
        assert(trunc_div(a, b) * b == trunc_div(a, -b) * (-b)) by (nonlinear_arith)
            requires trunc_div(a, -b) == -trunc_div(a, b);
    } else {
        if a >= 0 {
            lemma_fundamental_div_mod(a, -b);
            assert(0 <= (a / (-b)) * (-b) <= a) by (nonlinear_arith)
                requires a == (-b) * (a / (-b)) + a % (-b), 0 <= a % (-b) < -b, a >= 0, b < 0;
            assert(-(a / (-b)) * b == (a / (-b)) * (-b)) by (nonlinear_arith);
        } else {
            lemma_fundamental_div_mod(-a, -b);
            assert(0 <= ((-a) / (-b)) * (-b) <= -a) by (nonlinear_arith)
                requires -a == (-b) * ((-a) / (-b)) + (-a) % (-b), 0 <= (-a) % (-b) < -b, a < 0, b < 0;
            assert(((-a) / (-b)) * b == -(((-a) / (-b)) * (-b))) by (nonlinear_arith);
        }
        assert(trunc_div(a, b) * b == trunc_div(a, -b) * (-b)) by (nonlinear_arith)
            requires trunc_div(a, -b) == -trunc_div(a, b);
    }
}

/// Truncating division `a / b` for a positive divisor.
fn div_pos(a: i128, b: i128) -> (q: i128)
    requires
        b > 0,
    ensures
        q == trunc_div(a as int, b as int),
{
    let q = a / b;
    proof {
        if a >= 0 {
            assert(q == trunc_div(a as int, b as int));
        } else {
            assert(q == trunc_div(a as int, b as int));
        }
    }
    q
}

/// Converts from shared decimals (SD) to local decimals (LD).
pub fn to_ld(amount_sd: u64, conversion_rate: i128) -> (amount_ld: i128)
    requires
        i128::MIN <= amount_sd * conversion_rate <= i128::MAX,
    ensures
        amount_ld == amount_sd * conversion_rate,
{
    // The product fits by the precondition; a caller outside verification that breaks it
    // gets a panic, as with Rust's overflow checks, and never a wrapped amount.
    (amount_sd as i128).checked_mul(conversion_rate).unwrap()
}

/// Truncating division `a / b`, as Rust computes it.
pub fn trunc_div_exec(a: i128, b: i128) -> (q: i128)
    requires
        b != 0,
        !(a == i128::MIN && b == -1),
    ensures
        q == trunc_div(a as int, b as int),
{
    if b > 0 {
        div_pos(a, b)
    } else if b == i128::MIN {
        // `a / i128::MIN` is 1 for `i128::MIN` itself and 0 otherwise.
        if a == i128::MIN { 1 } else { 0 }
    } else {
        let q = div_pos(a, -b);
        proof {
            lemma_trunc_div_mul(a as int, -b as int);
            if a >= 0 {
                assert(0 <= q * (-b) <= a);
                assert(q >= 0) by (nonlinear_arith)
                    requires 0 <= q * (-b), -b > 0;
            } else {
                assert(a <= q * (-b) <= 0);
                assert(q <= 0 && q > i128::MIN) by (nonlinear_arith)
                    requires
                        a <= q * (-b) <= 0,
                        -b >= 1,
                        a >= i128::MIN,
                        -b > 1 || a > i128::MIN,
                ;
            }
        }
        // `i128::MIN / -1` overflows: the precondition excludes it, and a caller outside
        // verification that breaks it gets a panic, as Rust's division gives.
        0i128.checked_sub(q).unwrap()
    }
}

/// Removes dust from amount based on decimal conversion rate.
pub fn remove_dust(amount_ld: i128, conversion_rate: i128) -> (r: i128)
    requires
        conversion_rate != 0,
        !(amount_ld == i128::MIN && conversion_rate == -1),
    ensures
        r == spec_remove_dust(amount_ld as int, conversion_rate as int),
{
    proof {
        lemma_trunc_div_mul(amount_ld as int, conversion_rate as int);
    }
    trunc_div_exec(amount_ld, conversion_rate) * conversion_rate
}

/// The shared-decimals amount for `amount_ld`, truncated to 64 bits like an `as u64` cast,
/// or `Overflow` when the quotient exceeds `u64::MAX`.
pub open spec fn spec_to_sd(amount_ld: int, conversion_rate: int) -> Result<u64, OFTError> {
    if trunc_div(amount_ld, conversion_rate) > u64::MAX {
        Err(OFTError::Overflow)
    } else {
        Ok(trunc_div(amount_ld, conversion_rate) as u64)
    }
}

/// Converts from local decimals (LD) to shared decimals (SD).
pub fn to_sd(amount_ld: i128, conversion_rate: i128) -> (r: Result<u64, OFTError>)
    requires
        conversion_rate != 0,
        !(amount_ld == i128::MIN && conversion_rate == -1),
    ensures
        r == spec_to_sd(amount_ld as int, conversion_rate as int),
{
    let amount_sd = trunc_div_exec(amount_ld, conversion_rate);
    if amount_sd > u64::MAX as i128 {
        return Err(OFTError::Overflow);
    }
    Ok(amount_sd as u64)
}

/// Removing dust twice removes no more than removing it once.
pub proof fn lemma_remove_dust_idempotent(amount_ld: int, conversion_rate: int)
    requires
        conversion_rate > 0,
    ensures
        spec_remove_dust(spec_remove_dust(amount_ld, conversion_rate), conversion_rate)
            == spec_remove_dust(amount_ld, conversion_rate),
{
    let q = trunc_div(amount_ld, conversion_rate);
    lemma_trunc_div_exact(q, conversion_rate);
}

/// Dividing a multiple of a positive divisor gives back the multiplier.
pub proof fn lemma_trunc_div_exact(q: int, b: int)
    requires
        b > 0,
    ensures
        trunc_div(q * b, b) == q,
{
    if q >= 0 {
        assert(q * b >= 0) by (nonlinear_arith) requires q >= 0, b > 0;
        vstd::arithmetic::div_mod::lemma_div_multiples_vanish(q, b);
        assert((q * b) / b == q) by {
            assert(b * q == q * b) by (nonlinear_arith);
        }
    } else {
        assert(q * b < 0) by (nonlinear_arith) requires q < 0, b > 0;
        vstd::arithmetic::div_mod::lemma_div_multiples_vanish(-q, b);
        assert((-(q * b)) / b == -q) by {
            assert(b * (-q) == -(q * b)) by (nonlinear_arith);
        }
    }
}

/// Dust is less than one unit of the conversion rate, and removing it never increases a
/// non-negative amount.
pub proof fn lemma_remove_dust_bounds(amount_ld: int, conversion_rate: int)
    requires
        conversion_rate > 0,
        amount_ld >= 0,
    ensures
        0 <= spec_remove_dust(amount_ld, conversion_rate) <= amount_ld,
        amount_ld - spec_remove_dust(amount_ld, conversion_rate) < conversion_rate,
{
    lemma_fundamental_div_mod(amount_ld, conversion_rate);
    let q = amount_ld / conversion_rate;
    assert(q * conversion_rate == conversion_rate * q) by (nonlinear_arith);
    lemma_trunc_div_mul(amount_ld, conversion_rate);
}

/// Converting a dust-free non-negative amount to shared decimals and back gives the amount.
pub proof fn lemma_to_sd_to_ld(amount_ld: int, conversion_rate: int)
    requires
        conversion_rate > 0,
        amount_ld >= 0,
        spec_remove_dust(amount_ld, conversion_rate) == amount_ld,
        spec_to_sd(amount_ld, conversion_rate) is Ok,
    ensures
        spec_to_sd(amount_ld, conversion_rate).unwrap() * conversion_rate == amount_ld,
{
    lemma_trunc_div_mul(amount_ld, conversion_rate);
    let q = trunc_div(amount_ld, conversion_rate);
    assert(q >= 0);
    assert(spec_to_sd(amount_ld, conversion_rate).unwrap() == q);
}

} // verus!

//! Fee calculator: floored basis-point fees on a principal, with two
//! discount policies (a numerator/denominator ratio applied to the standard
//! fee, or a flat basis-point reduction of the rate).

use vstd::prelude::*;
use vstd::arithmetic::div_mod::{
    lemma_div_is_ordered, lemma_div_pos_is_pos, lemma_multiply_divide_le,
};
use vstd::arithmetic::mul::{lemma_mul_inequality, lemma_mul_nonnegative};

verus! {

/// Basis-point denominator: 10,000 bps = 100%.
pub const BPS_DENOMINATOR: u64 = 10_000;

/// The standard floored fee: `principal * rate_bps / 10_000`.
///
/// Flooring means the protocol may under-collect by a sub-unit amount;
/// it never over-collects.
pub open spec fn fee_amount(principal: int, rate_bps: int) -> int {
    principal * rate_bps / (BPS_DENOMINATOR as int)
}

/// How an instrument discounts its fee.
#[derive(Clone, Copy, Debug, PartialEq, Eq, Structural)]
pub enum DiscountPolicy {
    /// No discount: the standard rate applies.
    Standard,
    /// The standard fee is scaled by `numerator / denominator`
    /// (e.g. 9/10 for a 10% discount), floored.
    RatioOff { numerator: u64, denominator: u64 },
    /// The rate itself is lowered by `delta_bps` before the fee is taken.
    FlatBpsOff { delta_bps: u64 },
}

/// A policy is admissible for a rate when it cannot raise the fee:
/// the ratio is at most one and the flat reduction is at most the rate.
pub open spec fn policy_wf(rate_bps: int, policy: DiscountPolicy) -> bool {
    match policy {
        DiscountPolicy::Standard => true,
        DiscountPolicy::RatioOff { numerator, denominator } =>
            0 < denominator && numerator <= denominator,
        DiscountPolicy::FlatBpsOff { delta_bps } => delta_bps <= rate_bps,
    }
}

/// The fee after applying a discount policy to the standard rate.
pub open spec fn discounted_fee(principal: int, rate_bps: int, policy: DiscountPolicy) -> int {
    match policy {
        DiscountPolicy::Standard => fee_amount(principal, rate_bps),
        DiscountPolicy::RatioOff { numerator, denominator } =>
            fee_amount(principal, rate_bps) * (numerator as int) / (denominator as int),
        DiscountPolicy::FlatBpsOff { delta_bps } =>
            fee_amount(principal, rate_bps - delta_bps),
    }
}

/// The product of two values that each fit in 64 bits fits in 128 bits.
pub proof fn lemma_u64_mul_fits_u128(a: int, b: int)
    by (nonlinear_arith)
    requires
        0 <= a <= u64::MAX,
        0 <= b <= u64::MAX,
    ensures
        0 <= a * b <= u64::MAX as int * u64::MAX as int,
        a * b <= u128::MAX,
{
}

/// The standard fee is monotone in the rate and stays within
/// `[0, principal]` for rates of at most 100%.
pub proof fn lemma_fee_amount_bounds(principal: int, rate_bps: int)
    requires
        0 <= principal,
        0 <= rate_bps <= BPS_DENOMINATOR as int,
    ensures
        0 <= fee_amount(principal, rate_bps) <= principal,
{
    let d = BPS_DENOMINATOR as int;
    lemma_mul_nonnegative(principal, rate_bps);
    lemma_div_pos_is_pos(principal * rate_bps, d);
    lemma_mul_inequality(rate_bps, d, principal);
    assert(principal * rate_bps == rate_bps * principal) by (nonlinear_arith);
    lemma_multiply_divide_le(principal * rate_bps, d, principal);
}

/// The standard fee never decreases when the rate increases.
pub proof fn lemma_fee_amount_monotone(principal: int, rate_lo: int, rate_hi: int)
    requires
        0 <= principal,
        0 <= rate_lo <= rate_hi,
    ensures
        fee_amount(principal, rate_lo) <= fee_amount(principal, rate_hi),
{
    lemma_mul_inequality(rate_lo, rate_hi, principal);
    assert(principal * rate_lo == rate_lo * principal) by (nonlinear_arith);
    assert(principal * rate_hi == rate_hi * principal) by (nonlinear_arith);
    lemma_div_is_ordered(principal * rate_lo, principal * rate_hi, BPS_DENOMINATOR as int);
}

/// For every admissible fee computation, `0 <= fee <= principal`, and a
/// discounted fee never exceeds the standard fee.
pub proof fn lemma_fee_bounds(principal: int, rate_bps: int, policy: DiscountPolicy)
    requires
        0 <= principal,
        0 <= rate_bps <= BPS_DENOMINATOR as int,
        policy_wf(rate_bps, policy),
    ensures
        0 <= discounted_fee(principal, rate_bps, policy),
        discounted_fee(principal, rate_bps, policy) <= fee_amount(principal, rate_bps),
        fee_amount(principal, rate_bps) <= principal,
{
    lemma_fee_amount_bounds(principal, rate_bps);
    let standard = fee_amount(principal, rate_bps);
    match policy {
        DiscountPolicy::Standard => {
        },
        DiscountPolicy::RatioOff { numerator, denominator } => {
            let n = numerator as int;
            let d = denominator as int;
            lemma_mul_nonnegative(standard, n);
            lemma_div_pos_is_pos(standard * n, d);
            lemma_mul_inequality(n, d, standard);
            assert(standard * n == n * standard) by (nonlinear_arith);
            lemma_multiply_divide_le(standard * n, d, standard);
        },
        DiscountPolicy::FlatBpsOff { delta_bps } => {
            lemma_fee_amount_monotone(principal, rate_bps - delta_bps, rate_bps);
            lemma_fee_amount_bounds(principal, rate_bps - delta_bps);
        },
    }
}

/// Computes the discounted fee, widening before the divisions so that no
/// intermediate product can overflow.
pub fn fee(principal: u64, rate_bps: u64, policy: DiscountPolicy) -> (r: u64)
    requires
        rate_bps <= BPS_DENOMINATOR,
        policy_wf(rate_bps as int, policy),
    ensures
        r == discounted_fee(principal as int, rate_bps as int, policy),
        r <= fee_amount(principal as int, rate_bps as int),
        r <= principal,
{
    proof {
        lemma_fee_bounds(principal as int, rate_bps as int, policy);
    }
    match policy {
        DiscountPolicy::Standard => fee_standard(principal, rate_bps),
        DiscountPolicy::RatioOff { numerator, denominator } => {
            let standard = fee_standard(principal, rate_bps);
            proof {
                lemma_u64_mul_fits_u128(standard as int, numerator as int);
                lemma_mul_inequality(
                    numerator as int,
                    denominator as int,
                    standard as int,
                );
                assert(standard as int * numerator as int == numerator as int * standard as int)
                    by (nonlinear_arith);
                lemma_multiply_divide_le(
                    standard as int * numerator as int,
                    denominator as int,
                    standard as int,
                );
            }
            (((standard as u128) * (numerator as u128)) / (denominator as u128)) as u64
        },
        DiscountPolicy::FlatBpsOff { delta_bps } => fee_standard(principal, rate_bps - delta_bps),
    }
}

/// Computes the standard floored basis-point fee.
pub fn fee_standard(principal: u64, rate_bps: u64) -> (r: u64)
    requires
        rate_bps <= BPS_DENOMINATOR,
    ensures
        r == fee_amount(principal as int, rate_bps as int),
        r <= principal,
{
    proof {
        lemma_fee_amount_bounds(principal as int, rate_bps as int);
    }
    (((principal as u128) * (rate_bps as u128)) / (BPS_DENOMINATOR as u128)) as u64
}

} // verus!

//! Price oracle adapter: a parsed oracle observation is gated by a
//! staleness bound and normalized from its native exponent to cents.
//! Settlement never proceeds on stale data.

use vstd::prelude::*;
use vstd::arithmetic::div_mod::{lemma_basic_div, lemma_div_pos_is_pos};
use vstd::arithmetic::mul::{lemma_mul_inequality, lemma_mul_nonnegative};
use crate::errors::ErrorCode;
use crate::fees::lemma_u64_mul_fits_u128;

verus! {

/// Maximum accepted age of an oracle observation, in seconds.
pub const MAX_PRICE_AGE_SECS: u64 = 300;

/// A price observation as published by the oracle: a fixed-point integer
/// `price * 10^expo` with a confidence interval and its publish time.
#[derive(Clone, Copy, Debug, PartialEq, Eq, Structural)]
pub struct OraclePriceData {
    pub price: i64,
    pub conf: u64,
    pub expo: i32,
    pub publish_time: i64,
}

/// An observation is fresh at `now` when its publish time lies within
/// `age` seconds of `now`, in either direction.
pub open spec fn fresh_at(publish_time: int, now: int, age: int) -> bool {
    -age <= publish_time - now <= age
}

/// Relies on pyth_sdk::PriceFeed::get_price_no_older_than: it returns the
/// feed's latest price exactly when that price's publish time lies within
/// `age` seconds of `current_time` (in either direction), and nothing
/// otherwise. `Identifier::new` and `PriceFeed::new` only package the
/// given plain values into a feed; the closure only picks the fields back
/// out. The bound on the publish-time distance keeps the subtraction
/// inside that call representable.
#[verifier::external_body]
fn pyth_price_no_older_than(data: OraclePriceData, current_time: i64, age: u64) -> (r: Option<
    OraclePriceData,
>)
    requires
        -(i64::MAX as int) <= data.publish_time - current_time <= i64::MAX as int,
    ensures
        r == (if fresh_at(data.publish_time as int, current_time as int, age as int) {
            Some(data)
        } else {
            None::<OraclePriceData>
        }),
{
    let price = pyth_sdk::Price {
        price: data.price,
        conf: data.conf,
        expo: data.expo,
        publish_time: data.publish_time,
    };
    let feed = pyth_sdk::PriceFeed::new(pyth_sdk::Identifier::new([0u8; 32]), price, price);
    feed.get_price_no_older_than(current_time, age).map(
        |p: pyth_sdk::Price| OraclePriceData {
            price: p.price,
            conf: p.conf,
            expo: p.expo,
            publish_time: p.publish_time,
        },
    )
}

/// Ten to the `n`-th power.
pub open spec fn pow10(n: nat) -> int
    decreases n,
{
    if n == 0 {
        1
    } else {
        10 * pow10((n - 1) as nat)
    }
}

/// Powers of ten are positive.
pub proof fn lemma_pow10_positive(n: nat)
    ensures
        pow10(n) >= 1,
    decreases n,
{
    if n > 0 {
        lemma_pow10_positive((n - 1) as nat)
    }
}

/// The twentieth power of ten exceeds the 64-bit range.
pub proof fn lemma_pow10_20_exceeds_u64()
    ensures
        pow10(20) > u64::MAX,
{
    reveal_with_fuel(pow10, 21);
}

/// A price scaled to cents: two decimal places, floored. For a price
/// `p * 10^expo`, cents are `p * 10^(expo + 2)`, shifting in whichever
/// direction the exponent demands.
pub open spec fn cents_of(price: int, expo: int) -> int {
    if expo + 2 >= 0 {
        price * pow10((expo + 2) as nat)
    } else {
        price / pow10((-(expo + 2)) as nat)
    }
}

/// Computes `10^n` for exponents whose result fits in 64 bits.
fn pow10_u64(n: u32) -> (r: u64)
    requires
        n < 20,
        pow10(n as nat) <= u64::MAX,
    ensures
        r == pow10(n as nat),
{
    let mut r: u64 = 1;
    let mut i: u32 = 0;
    while i < n
        invariant
            i <= n,
            n < 20,
            r == pow10(i as nat),
            pow10(n as nat) <= u64::MAX,
        decreases n - i,
    {
        proof {
            lemma_pow10_monotone(i as nat + 1, n as nat);
            lemma_pow10_positive(i as nat);
        }
        r = r * 10;
        i = i + 1;
    }
    r
}

/// Powers of ten grow with the exponent.
pub proof fn lemma_pow10_monotone(m: nat, n: nat)
    requires
        m <= n,
    ensures
        pow10(m) <= pow10(n),
    decreases n,
{
    if m < n {
        lemma_pow10_monotone(m, (n - 1) as nat);
        lemma_pow10_positive((n - 1) as nat);
    }
}

/// Normalizes an oracle price of exponent `exponent` to whole cents,
/// flooring. A nonpositive price, or one whose cent value overflows the
/// 64-bit range, is rejected; a price too small for one cent yields zero.
pub fn convert_pyth_price_to_cents(price: i64, exponent: i32) -> (r: Result<u64, ErrorCode>)
    ensures
        price <= 0 ==> (r matches Err(e) && e == ErrorCode::InvalidPrice),
        price > 0 && cents_of(price as int, exponent as int) <= u64::MAX ==> (r matches Ok(v) && v
            == cents_of(price as int, exponent as int)),
        price > 0 && cents_of(price as int, exponent as int) > u64::MAX ==> (r matches Err(e) && e
            == ErrorCode::InvalidPrice),
{
    if price <= 0 {
        return Err(ErrorCode::InvalidPrice);
    }
    let price_u64 = price as u64;
    let exp_diff: i64 = exponent as i64 + 2;
    if exp_diff < 0 {
        let shift = -exp_diff;
        if shift >= 20 {
            // The divisor exceeds the 64-bit range, so the quotient is zero.
            proof {
                lemma_pow10_monotone(20, shift as nat);
                lemma_pow10_20_exceeds_u64();
                lemma_basic_div(price_u64 as int, pow10(shift as nat));
            }
            return Ok(0);
        }
        let ghost d = pow10(shift as nat);
        proof {
            lemma_pow10_monotone(shift as nat, 19);
            assert(pow10(19) <= u64::MAX) by {
                reveal_with_fuel(pow10, 20);
            }
            lemma_pow10_positive(shift as nat);
            lemma_div_pos_is_pos(price_u64 as int, d);
            vstd::arithmetic::div_mod::lemma_div_nonincreasing(price_u64 as int, d);
        }
        let divisor = pow10_u64(shift as u32);
        Ok(price_u64 / divisor)
    } else if exp_diff > 0 {
        if exp_diff >= 20 {
            // Even a price of one overflows: 10^20 alone exceeds u64::MAX.
            proof {
                lemma_pow10_monotone(20, exp_diff as nat);
                lemma_pow10_20_exceeds_u64();
                lemma_mul_inequality(1, price_u64 as int, pow10(exp_diff as nat));
            }
            return Err(ErrorCode::InvalidPrice);
        }
        let ghost m = pow10(exp_diff as nat);
        proof {
            lemma_pow10_monotone(exp_diff as nat, 19);
            assert(pow10(19) <= u64::MAX) by {
                reveal_with_fuel(pow10, 20);
            }
            lemma_pow10_positive(exp_diff as nat);
            lemma_u64_mul_fits_u128(price_u64 as int, m);
        }
        let multiplier = pow10_u64(exp_diff as u32);
        let wide: u128 = (price_u64 as u128) * (multiplier as u128);
        if wide > u64::MAX as u128 {
            Err(ErrorCode::InvalidPrice)
        } else {
            Ok(wide as u64)
        }
    } else {
        assert(cents_of(price as int, exponent as int) == price * pow10(0));
        Ok(price_u64)
    }
}

/// Reads one oracle observation for settlement: rejects a stale
/// observation outright, then normalizes the price to cents and rejects a
/// price that is nonpositive, rounds to zero cents, or overflows.
pub fn oracle_price_cents(data: OraclePriceData, now: i64, max_age: u64) -> (r: Result<
    u64,
    ErrorCode,
>)
    requires
        max_age <= i64::MAX as u64,
    ensures
        !fresh_at(data.publish_time as int, now as int, max_age as int) ==> (r matches Err(e) && e
            == ErrorCode::PythPriceStale),
        fresh_at(data.publish_time as int, now as int, max_age as int) ==> {
            let cents = cents_of(data.price as int, data.expo as int);
            if data.price > 0 && 0 < cents <= u64::MAX {
                r matches Ok(v) && v == cents
            } else {
                r matches Err(e) && e == ErrorCode::InvalidPrice
            }
        },
{
    // Guard the subtraction inside the oracle call: a publish time more
    // than the representable range away from `now` is stale in any case.
    let diff: i128 = (data.publish_time as i128) - (now as i128);
    if diff > i64::MAX as i128 || diff < -(i64::MAX as i128) {
        return Err(ErrorCode::PythPriceStale);
    }
    let checked = match pyth_price_no_older_than(data, now, max_age) {
        Some(c) => c,
        None => {
            return Err(ErrorCode::PythPriceStale);
        },
    };
    let cents = match convert_pyth_price_to_cents(checked.price, checked.expo) {
        Ok(c) => c,
        Err(e) => {
            return Err(e);
        },
    };
    if cents == 0 {
        return Err(ErrorCode::InvalidPrice);
    }
    Ok(cents)
}

} // verus!

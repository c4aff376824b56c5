//! Market registry: one record per instrument, owning the current mark
//! price, aggregate open interest and cumulative fees. Only the designated
//! authority may move the price.

use vstd::prelude::*;
use crate::errors::FuturesError;

verus! {

/// Fixed byte budget for an instrument name.
pub const MAX_COMMODITY_LEN: usize = 16;

/// One instrument's registry record.
pub struct Market {
    /// Instrument name, at most `MAX_COMMODITY_LEN` bytes.
    pub commodity: Vec<u8>,
    /// Current mark price (integer fixed point, unit defined per instrument).
    pub mark_price: u64,
    /// Timestamp of the last price update.
    pub last_price_update: i64,
    /// Total net collateral held in open long positions.
    pub open_interest_long: u64,
    /// Total net collateral held in open short positions.
    pub open_interest_short: u64,
    /// Cumulative fees forwarded to the treasury.
    pub total_fees_collected: u64,
    /// Identity of the sole price updater.
    pub authority: u64,
}

impl Market {
    /// The name respects the byte budget and the mark price is positive
    /// once initialized.
    pub open spec fn wf(&self) -> bool {
        &&& self.commodity@.len() <= MAX_COMMODITY_LEN
        &&& self.mark_price > 0
    }
}

/// Notification of a newly initialized market.
pub struct MarketInitialized {
    pub commodity: Vec<u8>,
    pub initial_price: u64,
    pub authority: u64,
}

/// Notification of a mark-price change, consumed by off-chain liquidation
/// monitors.
pub struct PriceUpdated {
    pub commodity: Vec<u8>,
    pub old_price: u64,
    pub new_price: u64,
    pub timestamp: i64,
}

/// Byte-for-byte copy of an instrument name, used when a record and its
/// notification both carry the name.
pub fn copy_bytes(v: &Vec<u8>) -> (r: Vec<u8>)
    ensures
        r@ == v@,
{
    let mut r: Vec<u8> = Vec::new();
    let mut i: usize = 0;
    while i < v.len()
        invariant
            i <= v@.len(),
            r@ == v@.subrange(0, i as int),
        decreases v@.len() - i,
    {
        r.push(v[i]);
        proof {
            assert(r@ =~= v@.subrange(0, i + 1 as int));
        }
        i = i + 1;
    }
    proof {
        assert(r@ =~= v@);
    }
    r
}

/// Creates a market record for a new instrument. Fails if the name exceeds
/// the byte budget or the initial price is zero.
pub fn initialize_market(commodity: Vec<u8>, initial_price: u64, now: i64, authority: u64) -> (r:
    Result<(Market, MarketInitialized), FuturesError>)
    ensures
        commodity@.len() > MAX_COMMODITY_LEN ==> (r matches Err(e) && e
            == FuturesError::CommodityNameTooLong),
        commodity@.len() <= MAX_COMMODITY_LEN && initial_price == 0 ==> (r matches Err(e) && e
            == FuturesError::InvalidPrice),
        commodity@.len() <= MAX_COMMODITY_LEN && initial_price > 0 ==> (r matches Ok(p)
            && p.0.commodity@ == commodity@
            && p.0.mark_price == initial_price
            && p.0.last_price_update == now
            && p.0.open_interest_long == 0
            && p.0.open_interest_short == 0
            && p.0.total_fees_collected == 0
            && p.0.authority == authority
            && p.0.wf()
            && p.1.commodity@ == commodity@
            && p.1.initial_price == initial_price
            && p.1.authority == authority),
{
    if commodity.len() > MAX_COMMODITY_LEN {
        return Err(FuturesError::CommodityNameTooLong);
    }
    if initial_price == 0 {
        return Err(FuturesError::InvalidPrice);
    }
    let event_commodity = copy_bytes(&commodity);
    let market = Market {
        commodity,
        mark_price: initial_price,
        last_price_update: now,
        open_interest_long: 0,
        open_interest_short: 0,
        total_fees_collected: 0,
        authority,
    };
    let event = MarketInitialized { commodity: event_commodity, initial_price, authority };
    Ok((market, event))
}

/// Posts a new mark price. Only the stored authority may do so, and the
/// price must be positive; on success the update is timestamped.
pub fn update_price(market: &mut Market, new_price: u64, caller: u64, now: i64) -> (r: Result<
    PriceUpdated,
    FuturesError,
>)
    requires
        old(market).wf(),
    ensures
        final(market).wf(),
        caller != old(market).authority ==> (r matches Err(e) && e == FuturesError::Unauthorized
            && *final(market) == *old(market)),
        caller == old(market).authority && new_price == 0 ==> (r matches Err(e) && e
            == FuturesError::InvalidPrice && *final(market) == *old(market)),
        caller == old(market).authority && new_price > 0 ==> (r matches Ok(ev)
            && final(market).mark_price == new_price
            && final(market).last_price_update == now
            && final(market).commodity@ == old(market).commodity@
            && final(market).open_interest_long == old(market).open_interest_long
            && final(market).open_interest_short == old(market).open_interest_short
            && final(market).total_fees_collected == old(market).total_fees_collected
            && final(market).authority == old(market).authority
            && ev.commodity@ == old(market).commodity@
            && ev.old_price == old(market).mark_price
            && ev.new_price == new_price
            && ev.timestamp == now),
{
    if caller != market.authority {
        return Err(FuturesError::Unauthorized);
    }
    if new_price == 0 {
        return Err(FuturesError::InvalidPrice);
    }
    let old_price = market.mark_price;
    market.mark_price = new_price;
    market.last_price_update = now;
    let event = PriceUpdated {
        commodity: copy_bytes(&market.commodity),
        old_price,
        new_price,
        timestamp: now,
    };
    Ok(event)
}

} // verus!

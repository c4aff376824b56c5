//! Position ledger: isolated-margin directional positions against a
//! market's mark price. A position moves `Open -> ClosedByTrader` or
//! `Open -> Liquidated`, each exactly once, and is an immutable audit
//! record thereafter.

use vstd::prelude::*;
use vstd::arithmetic::div_mod::{
    lemma_div_is_ordered, lemma_div_multiples_vanish, lemma_div_of0, lemma_div_pos_is_pos,
    lemma_fundamental_div_mod,
};
use vstd::arithmetic::mul::{lemma_mul_inequality, lemma_mul_nonnegative};
use crate::custody::VaultAccount;
use crate::errors::FuturesError;
use crate::fees::{
    discounted_fee, fee, fee_amount, lemma_fee_bounds, lemma_u64_mul_fits_u128, DiscountPolicy,
    BPS_DENOMINATOR,
};
use crate::market::Market;

verus! {

/// Taker fee on the gross deposit, in basis points (0.05%).
pub const TAKER_FEE_BPS: u64 = 5;

/// Loyalty discount: the taker fee is scaled by 9/10 (10% off).
pub const URIM_DISCOUNT_NUMERATOR: u64 = 9;

/// Denominator of the loyalty discount ratio.
pub const URIM_DISCOUNT_DENOMINATOR: u64 = 10;

/// A position is liquidatable once its loss reaches 80% of collateral.
pub const LIQUIDATION_THRESHOLD_BPS: u64 = 8000;

/// The liquidator earns 2% of the original collateral.
pub const LIQUIDATOR_REWARD_BPS: u64 = 200;

/// Direction tag of a long position.
pub const DIRECTION_LONG: u8 = 0;

/// Direction tag of a short position.
pub const DIRECTION_SHORT: u8 = 1;

/// Lifecycle of a position: exactly one of these holds at any time, and
/// both non-open states are terminal.
#[derive(Clone, Copy, Debug, PartialEq, Eq, Structural)]
pub enum PositionState {
    Open,
    ClosedByTrader,
    Liquidated,
}

/// One trader's isolated-margin position.
#[derive(Clone, Copy, Debug, PartialEq, Eq, Structural)]
pub struct Position {
    /// Trader identity.
    pub owner: u64,
    /// Identity of the market this position is held against.
    pub market: u64,
    /// `DIRECTION_LONG` or `DIRECTION_SHORT`.
    pub direction: u8,
    /// Net collateral after the entry fee.
    pub collateral: u64,
    /// Mark price copied at open.
    pub entry_price: u64,
    /// Nonce supplied at open (a timestamp in practice).
    pub opened_at: i64,
    /// Entry fee forwarded to the treasury.
    pub fee_paid: u64,
    /// Lifecycle state.
    pub state: PositionState,
}

impl Position {
    /// A position records a positive entry price and a valid direction.
    pub open spec fn wf(&self) -> bool {
        &&& self.entry_price > 0
        &&& (self.direction == DIRECTION_LONG || self.direction == DIRECTION_SHORT)
    }
}

/// The discount policy the position engine applies to its taker fee.
pub open spec fn taker_policy(use_discount: bool) -> DiscountPolicy {
    if use_discount {
        DiscountPolicy::RatioOff {
            numerator: URIM_DISCOUNT_NUMERATOR,
            denominator: URIM_DISCOUNT_DENOMINATOR,
        }
    } else {
        DiscountPolicy::Standard
    }
}

/// The entry fee on a gross deposit.
pub open spec fn taker_fee_of(deposit: int, use_discount: bool) -> int {
    discounted_fee(deposit, TAKER_FEE_BPS as int, taker_policy(use_discount))
}

/// Whether the mark price has moved against the position.
pub open spec fn is_losing(direction: u8, entry: int, current: int) -> bool {
    if direction == DIRECTION_LONG {
        current < entry
    } else {
        current > entry
    }
}

/// Directional profit and loss: the relative price move times the
/// collateral, floored toward zero, negative on a loss.
pub open spec fn pnl_of(direction: u8, entry: int, current: int, collateral: int) -> int {
    if direction == DIRECTION_LONG {
        if current >= entry {
            (current - entry) * collateral / entry
        } else {
            -((entry - current) * collateral / entry)
        }
    } else {
        if current <= entry {
            (entry - current) * collateral / entry
        } else {
            -((current - entry) * collateral / entry)
        }
    }
}

/// Settlement amount of a close: collateral plus profit and loss, floored
/// at zero — the trader never owes more than the deposited collateral.
pub open spec fn payout_of(direction: u8, entry: int, current: int, collateral: int) -> int {
    if collateral + pnl_of(direction, entry, current, collateral) >= 0 {
        collateral + pnl_of(direction, entry, current, collateral)
    } else {
        0
    }
}

/// The gain component of the profit and loss, zero on a loss.
pub open spec fn max_gain_of(direction: u8, entry: int, current: int, collateral: int) -> int {
    if pnl_of(direction, entry, current, collateral) >= 0 {
        pnl_of(direction, entry, current, collateral)
    } else {
        0
    }
}

/// Loss relative to the entry price, in basis points, for a position the
/// price has moved against.
pub open spec fn loss_bps_of(direction: u8, entry: int, current: int) -> int {
    if direction == DIRECTION_LONG {
        (entry - current) * (BPS_DENOMINATOR as int) / entry
    } else {
        (current - entry) * (BPS_DENOMINATOR as int) / entry
    }
}

/// Notification of a newly opened position.
pub struct PositionOpened {
    pub trader: u64,
    pub market: u64,
    pub direction: u8,
    pub collateral: u64,
    pub entry_price: u64,
    pub fee_paid: u64,
    pub urim_discount: bool,
}

/// Notification of a position closed by its owner. `pnl` is the realized
/// profit or loss actually settled: payout minus collateral.
pub struct PositionClosed {
    pub trader: u64,
    pub market: u64,
    pub direction: u8,
    pub collateral: u64,
    pub entry_price: u64,
    pub exit_price: u64,
    pub pnl: i128,
    pub payout: u64,
}

/// Notification of a forced closure.
pub struct PositionLiquidated {
    pub trader: u64,
    pub market: u64,
    pub liquidator: u64,
    pub collateral: u64,
    pub loss_bps: u64,
    pub liquidator_reward: u64,
}

/// Opens a long or short position: the gross deposit moves into the
/// per-position vault, the entry fee moves on to the treasury, and the
/// market's open interest grows by the net collateral.
pub fn open_position(
    market: &mut Market,
    vault: &mut VaultAccount,
    treasury: &mut VaultAccount,
    market_id: u64,
    trader: u64,
    direction: u8,
    nonce: i64,
    collateral_lamports: u64,
    use_urim_discount: bool,
) -> (r: Result<(Position, PositionOpened), FuturesError>)
    requires
        old(market).wf(),
        old(vault).balance + collateral_lamports <= u64::MAX,
        old(treasury).balance + collateral_lamports <= u64::MAX,
    ensures
        final(market).wf(),
        !(direction == DIRECTION_LONG || direction == DIRECTION_SHORT) ==> (r matches Err(e) && e
            == FuturesError::InvalidDirection && *final(market) == *old(market) && *final(vault)
            == *old(vault) && *final(treasury) == *old(treasury)),
        (direction == DIRECTION_LONG || direction == DIRECTION_SHORT) && collateral_lamports == 0
            ==> (r matches Err(e) && e == FuturesError::ZeroCollateral && *final(market) == *old(market) && *final(vault) == *old(vault) && *final(treasury) == *old(treasury)),
        (direction == DIRECTION_LONG || direction == DIRECTION_SHORT) && collateral_lamports > 0
            ==> {
            let fee_paid = taker_fee_of(collateral_lamports as int, use_urim_discount);
            let net = collateral_lamports - fee_paid;
            r matches Ok(p) && {
                let (position, ev) = p;
                &&& position.owner == trader
                &&& position.market == market_id
                &&& position.direction == direction
                &&& position.collateral == net
                &&& position.entry_price == old(market).mark_price
                &&& position.opened_at == nonce
                &&& position.fee_paid == fee_paid
                &&& position.state == PositionState::Open
                &&& position.wf()
                &&& final(vault).balance == old(vault).balance + net
                &&& final(treasury).balance == old(treasury).balance + fee_paid
                &&& final(market).mark_price == old(market).mark_price
                &&& final(market).commodity@ == old(market).commodity@
                &&& final(market).last_price_update == old(market).last_price_update
                &&& final(market).authority == old(market).authority
                &&& final(market).open_interest_long == (if direction == DIRECTION_LONG {
                    old(market).open_interest_long.saturating_add(position.collateral)
                } else {
                    old(market).open_interest_long
                })
                &&& final(market).open_interest_short == (if direction == DIRECTION_SHORT {
                    old(market).open_interest_short.saturating_add(position.collateral)
                } else {
                    old(market).open_interest_short
                })
                &&& final(market).total_fees_collected == old(market).total_fees_collected.saturating_add(position.fee_paid)
                &&& ev.trader == trader
                &&& ev.market == market_id
                &&& ev.direction == direction
                &&& ev.collateral == net
                &&& ev.entry_price == old(market).mark_price
                &&& ev.fee_paid == fee_paid
                &&& ev.urim_discount == use_urim_discount
            }
        },
{
    if !(direction == DIRECTION_LONG || direction == DIRECTION_SHORT) {
        return Err(FuturesError::InvalidDirection);
    }
    if collateral_lamports == 0 {
        return Err(FuturesError::ZeroCollateral);
    }
    // The gross deposit moves from the trader into the per-position vault.
    vault.credit(collateral_lamports);

    let policy = if use_urim_discount {
        DiscountPolicy::RatioOff {
            numerator: URIM_DISCOUNT_NUMERATOR,
            denominator: URIM_DISCOUNT_DENOMINATOR,
        }
    } else {
        DiscountPolicy::Standard
    };
    let fee_paid = fee(collateral_lamports, TAKER_FEE_BPS, policy);
    let net_collateral = collateral_lamports - fee_paid;

    // The fee moves on from the vault to the treasury.
    vault.debit(fee_paid);
    treasury.credit(fee_paid);

    let position = Position {
        owner: trader,
        market: market_id,
        direction,
        collateral: net_collateral,
        entry_price: market.mark_price,
        opened_at: nonce,
        fee_paid,
        state: PositionState::Open,
    };

    if direction == DIRECTION_LONG {
        market.open_interest_long = market.open_interest_long.saturating_add(net_collateral);
    } else {
        market.open_interest_short = market.open_interest_short.saturating_add(net_collateral);
    }
    market.total_fees_collected = market.total_fees_collected.saturating_add(fee_paid);

    let event = PositionOpened {
        trader,
        market: market_id,
        direction,
        collateral: net_collateral,
        entry_price: position.entry_price,
        fee_paid,
        urim_discount: use_urim_discount,
    };
    Ok((position, event))
}

/// The absolute loss of a position never exceeds its collateral on the
/// losing side of a long, and the relative-loss quotient is nonnegative.
proof fn lemma_loss_le_collateral(delta: int, entry: int, collateral: int)
    requires
        0 <= delta <= entry,
        0 < entry,
        0 <= collateral,
    ensures
        0 <= delta * collateral / entry <= collateral,
{
    lemma_mul_nonnegative(delta, collateral);
    lemma_div_pos_is_pos(delta * collateral, entry);
    lemma_mul_inequality(delta, entry, collateral);
    lemma_div_is_ordered(delta * collateral, entry * collateral, entry);
    lemma_div_multiples_vanish(collateral, entry);
}

/// For every closed long position the payout is nonnegative and at most
/// the collateral plus the maximum possible gain at the exit price; a long
/// entered at a price and closed at that same price settles exactly its
/// collateral (zero profit and loss).
pub proof fn lemma_long_close_payout(entry: int, current: int, collateral: int)
    requires
        0 < entry,
        0 <= current,
        0 <= collateral,
    ensures
        0 <= payout_of(DIRECTION_LONG, entry, current, collateral),
        payout_of(DIRECTION_LONG, entry, current, collateral) <= collateral + max_gain_of(
            DIRECTION_LONG,
            entry,
            current,
            collateral,
        ),
        payout_of(DIRECTION_LONG, entry, entry, collateral) == collateral,
{
    if current >= entry {
        lemma_mul_nonnegative(current - entry, collateral);
        lemma_div_pos_is_pos((current - entry) * collateral, entry);
    } else {
        lemma_loss_le_collateral(entry - current, entry, collateral);
    }
    assert(pnl_of(DIRECTION_LONG, entry, entry, collateral) == 0) by {
        assert((entry - entry) * collateral == 0);
        lemma_div_of0(entry);
    }
}

/// At the moment of liquidation the loss is at least the threshold share
/// of the collateral, and the liquidator's reward is at most 2% of the
/// original collateral: `50 * reward <= collateral`.
pub proof fn lemma_liquidator_reward_bound(collateral: int)
    requires
        0 <= collateral,
    ensures
        0 <= fee_amount(collateral, LIQUIDATOR_REWARD_BPS as int),
        50 * fee_amount(collateral, LIQUIDATOR_REWARD_BPS as int) <= collateral,
{
    let x = collateral * (LIQUIDATOR_REWARD_BPS as int);
    let d = BPS_DENOMINATOR as int;
    lemma_mul_nonnegative(collateral, LIQUIDATOR_REWARD_BPS as int);
    lemma_div_pos_is_pos(x, d);
    lemma_fundamental_div_mod(x, d);
    // x == 10_000 * (x / d) + x % d with a nonnegative remainder, so
    // 10_000 * (x / d) <= 200 * collateral, hence 50 * (x / d) <= collateral.
}

/// Round trip: a position opened with some deposit and closed at an
/// unchanged mark price settles exactly the net collateral that was
/// deposited (the entry fee is the only cost on a flat price path).
pub proof fn lemma_open_close_round_trip(
    direction: u8,
    price: int,
    deposit: int,
    use_discount: bool,
)
    requires
        0 < price,
        0 <= deposit,
        direction == DIRECTION_LONG || direction == DIRECTION_SHORT,
    ensures
        0 <= taker_fee_of(deposit, use_discount) <= deposit,
        payout_of(direction, price, price, deposit - taker_fee_of(deposit, use_discount)) == deposit
            - taker_fee_of(deposit, use_discount),
{
    lemma_fee_bounds(deposit, TAKER_FEE_BPS as int, taker_policy(use_discount));
    let net = deposit - taker_fee_of(deposit, use_discount);
    assert(pnl_of(direction, price, price, net) == 0) by {
        assert((price - price) * net == 0);
        lemma_div_of0(price);
    }
}

/// Closes an open position at the current mark price: the payout is the
/// collateral plus directional profit and loss, floored at zero and
/// clamped to the vault's live balance; open interest shrinks by the
/// original collateral.
pub fn close_position(
    market: &mut Market,
    position: &mut Position,
    vault: &mut VaultAccount,
    market_id: u64,
    caller: u64,
) -> (r: Result<PositionClosed, FuturesError>)
    requires
        old(market).wf(),
        old(position).wf(),
    ensures
        final(market).wf(),
        final(position).wf(),
        old(position).market != market_id ==> (r matches Err(e) && e
            == FuturesError::InvalidMarket && *final(market) == *old(market) && *final(position) == *old(position) && *final(vault) == *old(vault)),
        old(position).market == market_id && old(position).state != PositionState::Open ==> (r matches Err(e) && e
            == FuturesError::PositionAlreadyClosed && *final(market) == *old(market) && *final(position) == *old(position) && *final(vault) == *old(vault)),
        old(position).market == market_id && old(position).state == PositionState::Open && caller != old(position).owner ==> (r matches
            Err(e) && e == FuturesError::Unauthorized && *final(market) == *old(market) && *final(position) == *old(position) && *final(vault) == *old(vault)),
        old(position).market == market_id && old(position).state == PositionState::Open && caller == old(position).owner ==> {
            let payout = payout_of(
                old(position).direction,
                old(position).entry_price as int,
                old(market).mark_price as int,
                old(position).collateral as int,
            );
            r matches Ok(ev) && {
                &&& ev.payout == (if payout <= old(vault).balance {
                    payout
                } else {
                    old(vault).balance as int
                })
                &&& ev.pnl == ev.payout - old(position).collateral
                &&& 0 <= ev.payout <= old(position).collateral + max_gain_of(
                    old(position).direction,
                    old(position).entry_price as int,
                    old(market).mark_price as int,
                    old(position).collateral as int,
                )
                &&& ev.trader == old(position).owner
                &&& ev.market == old(position).market
                &&& ev.direction == old(position).direction
                &&& ev.collateral == old(position).collateral
                &&& ev.entry_price == old(position).entry_price
                &&& ev.exit_price == old(market).mark_price
                &&& final(vault).balance == old(vault).balance - ev.payout
                &&& *final(position) == Position {
                    state: PositionState::ClosedByTrader,
                    ..*old(position)
                }
                &&& final(market).open_interest_long == (if old(position).direction
                    == DIRECTION_LONG {
                    old(market).open_interest_long.saturating_sub(old(position).collateral)
                } else {
                    old(market).open_interest_long
                })
                &&& final(market).open_interest_short == (if old(position).direction
                    == DIRECTION_SHORT {
                    old(market).open_interest_short.saturating_sub(old(position).collateral)
                } else {
                    old(market).open_interest_short
                })
                &&& final(market).mark_price == old(market).mark_price
                &&& final(market).commodity@ == old(market).commodity@
                &&& final(market).last_price_update == old(market).last_price_update
                &&& final(market).total_fees_collected == old(market).total_fees_collected
                &&& final(market).authority == old(market).authority
            }
        },
{
    if position.market != market_id {
        return Err(FuturesError::InvalidMarket);
    }
    match position.state {
        PositionState::Open => {},
        _ => {
            return Err(FuturesError::PositionAlreadyClosed);
        },
    }
    if position.owner != caller {
        return Err(FuturesError::Unauthorized);
    }

    let current = market.mark_price;
    let entry = position.entry_price;
    let collateral = position.collateral;
    let ghost payout_spec = payout_of(
        position.direction,
        entry as int,
        current as int,
        collateral as int,
    );

    // Widened arithmetic: the price move times the collateral cannot
    // overflow 128 bits, and the division restores a settle-able scale.
    let payout_wide: u128 = if position.direction == DIRECTION_LONG {
        if current >= entry {
            proof {
                lemma_u64_mul_fits_u128((current - entry) as int, collateral as int);
            }
            let gain = (((current - entry) as u128) * (collateral as u128)) / (entry as u128);
            collateral as u128 + gain
        } else {
            proof {
                lemma_u64_mul_fits_u128((entry - current) as int, collateral as int);
                lemma_loss_le_collateral((entry - current) as int, entry as int, collateral as int);
            }
            let loss = (((entry - current) as u128) * (collateral as u128)) / (entry as u128);
            collateral as u128 - loss
        }
    } else {
        if current <= entry {
            proof {
                lemma_u64_mul_fits_u128((entry - current) as int, collateral as int);
                lemma_loss_le_collateral((entry - current) as int, entry as int, collateral as int);
            }
            let gain = (((entry - current) as u128) * (collateral as u128)) / (entry as u128);
            collateral as u128 + gain
        } else {
            proof {
                lemma_u64_mul_fits_u128((current - entry) as int, collateral as int);
                lemma_mul_nonnegative((current - entry) as int, collateral as int);
                lemma_div_pos_is_pos((current - entry) as int * collateral as int, entry as int);
            }
            let loss = (((current - entry) as u128) * (collateral as u128)) / (entry as u128);
            if loss >= collateral as u128 {
                0
            } else {
                collateral as u128 - loss
            }
        }
    };
    assert(payout_wide == payout_spec);

    let vault_balance = vault.balance;
    let actual_payout: u64 = if payout_wide >= vault_balance as u128 {
        vault_balance
    } else {
        payout_wide as u64
    };
    vault.debit(actual_payout);

    if position.direction == DIRECTION_LONG {
        market.open_interest_long = market.open_interest_long.saturating_sub(collateral);
    } else {
        market.open_interest_short = market.open_interest_short.saturating_sub(collateral);
    }

    position.state = PositionState::ClosedByTrader;

    let event = PositionClosed {
        trader: position.owner,
        market: position.market,
        direction: position.direction,
        collateral,
        entry_price: entry,
        exit_price: current,
        pnl: actual_payout as i128 - collateral as i128,
        payout: actual_payout,
    };
    Ok(event)
}

/// Force-closes an underwater position; callable by anyone. The caller
/// earns a fixed share of the original collateral, clamped to the vault's
/// balance; the remainder stays in custody as an insurance residual and is
/// not returned to the owner.
pub fn liquidate(
    market: &mut Market,
    position: &mut Position,
    vault: &mut VaultAccount,
    market_id: u64,
    liquidator: u64,
) -> (r: Result<PositionLiquidated, FuturesError>)
    requires
        old(market).wf(),
        old(position).wf(),
    ensures
        final(market).wf(),
        final(position).wf(),
        old(position).market != market_id ==> (r matches Err(e) && e
            == FuturesError::InvalidMarket && *final(market) == *old(market) && *final(position) == *old(position) && *final(vault) == *old(vault)),
        old(position).market == market_id && old(position).state != PositionState::Open ==> (r matches Err(e) && e
            == FuturesError::PositionAlreadyClosed && *final(market) == *old(market) && *final(position) == *old(position) && *final(vault) == *old(vault)),
        old(position).market == market_id && old(position).state == PositionState::Open && !(is_losing(
            old(position).direction,
            old(position).entry_price as int,
            old(market).mark_price as int,
        ) && loss_bps_of(
            old(position).direction,
            old(position).entry_price as int,
            old(market).mark_price as int,
        ) >= LIQUIDATION_THRESHOLD_BPS) ==> (r matches Err(e) && e == FuturesError::NotLiquidatable
            && *final(market) == *old(market) && *final(position) == *old(position) && *final(vault)
            == *old(vault)),
        old(position).market == market_id && old(position).state == PositionState::Open && is_losing(
            old(position).direction,
            old(position).entry_price as int,
            old(market).mark_price as int,
        ) && loss_bps_of(
            old(position).direction,
            old(position).entry_price as int,
            old(market).mark_price as int,
        ) >= LIQUIDATION_THRESHOLD_BPS ==> {
            let loss_bps = loss_bps_of(
                old(position).direction,
                old(position).entry_price as int,
                old(market).mark_price as int,
            );
            let reward = fee_amount(old(position).collateral as int, LIQUIDATOR_REWARD_BPS as int);
            r matches Ok(ev) && {
                &&& ev.loss_bps == (if loss_bps <= u64::MAX { loss_bps } else { u64::MAX as int })
                &&& ev.liquidator_reward == (if reward <= old(vault).balance {
                    reward
                } else {
                    old(vault).balance as int
                })
                &&& 50 * ev.liquidator_reward <= old(position).collateral
                &&& ev.trader == old(position).owner
                &&& ev.market == old(position).market
                &&& ev.liquidator == liquidator
                &&& ev.collateral == old(position).collateral
                &&& final(vault).balance == old(vault).balance - ev.liquidator_reward
                &&& *final(position) == Position {
                    state: PositionState::Liquidated,
                    ..*old(position)
                }
                &&& final(market).open_interest_long == (if old(position).direction
                    == DIRECTION_LONG {
                    old(market).open_interest_long.saturating_sub(old(position).collateral)
                } else {
                    old(market).open_interest_long
                })
                &&& final(market).open_interest_short == (if old(position).direction
                    == DIRECTION_SHORT {
                    old(market).open_interest_short.saturating_sub(old(position).collateral)
                } else {
                    old(market).open_interest_short
                })
                &&& final(market).mark_price == old(market).mark_price
                &&& final(market).commodity@ == old(market).commodity@
                &&& final(market).last_price_update == old(market).last_price_update
                &&& final(market).total_fees_collected == old(market).total_fees_collected
                &&& final(market).authority == old(market).authority
            }
        },
{
    if position.market != market_id {
        return Err(FuturesError::InvalidMarket);
    }
    match position.state {
        PositionState::Open => {},
        _ => {
            return Err(FuturesError::PositionAlreadyClosed);
        },
    }

    let current = market.mark_price;
    let entry = position.entry_price;
    let collateral = position.collateral;

    // Loss relative to entry, direction-aware; a favorable move is not
    // liquidatable at all.
    let loss: u64 = if position.direction == DIRECTION_LONG {
        if current >= entry {
            return Err(FuturesError::NotLiquidatable);
        }
        entry - current
    } else {
        if current <= entry {
            return Err(FuturesError::NotLiquidatable);
        }
        current - entry
    };

    proof {
        lemma_u64_mul_fits_u128(loss as int, BPS_DENOMINATOR as int);
        lemma_mul_nonnegative(loss as int, BPS_DENOMINATOR as int);
        lemma_div_pos_is_pos(loss as int * BPS_DENOMINATOR as int, entry as int);
    }
    let loss_bps_wide: u128 = ((loss as u128) * (BPS_DENOMINATOR as u128)) / (entry as u128);
    if loss_bps_wide < LIQUIDATION_THRESHOLD_BPS as u128 {
        return Err(FuturesError::NotLiquidatable);
    }
    let loss_bps: u64 = if loss_bps_wide > u64::MAX as u128 {
        u64::MAX
    } else {
        loss_bps_wide as u64
    };

    let reward = fee(collateral, LIQUIDATOR_REWARD_BPS, DiscountPolicy::Standard);
    proof {
        lemma_liquidator_reward_bound(collateral as int);
    }
    let actual_reward = vault.withdraw_clamped(reward);

    if position.direction == DIRECTION_LONG {
        market.open_interest_long = market.open_interest_long.saturating_sub(collateral);
    } else {
        market.open_interest_short = market.open_interest_short.saturating_sub(collateral);
    }

    position.state = PositionState::Liquidated;

    let event = PositionLiquidated {
        trader: position.owner,
        market: position.market,
        liquidator,
        collateral,
        loss_bps,
        liquidator_reward: actual_reward,
    };
    Ok(event)
}

} // verus!

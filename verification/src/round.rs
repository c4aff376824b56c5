//! Pool ledger: two-sided parimutuel wager rounds, each with per-currency
//! pools and a unified USD-valued accounting pool. A round moves
//! `Pending -> Resolved` exactly once, after its end time, and the outcome
//! is derived deterministically from the final price against the locked
//! price.

use vstd::prelude::*;
use crate::custody::VaultAccount;
use crate::errors::ErrorCode;
use crate::fees::{fee, fee_amount, lemma_u64_mul_fits_u128, DiscountPolicy};
use crate::oracle::{cents_of, fresh_at, oracle_price_cents, OraclePriceData, MAX_PRICE_AGE_SECS};
use crate::payout::{
    bet_in_round, calculate_payout_urim, calculate_payout_usdc, payout_urim_spec, payout_usdc_spec,
};

verus! {

/// Pool entry fee in basis points, charged on top of the stake (0.5%).
pub const FEE_BPS: u64 = 50;

/// Discounted entry fee for the loyalty currency (0.45%, 10% off).
pub const URIM_FEE_BPS: u64 = 45;

/// Betting window used when a round is started with no explicit duration.
pub const DEFAULT_ROUND_DURATION: i64 = 900;

/// Minimum stake per contribution, in USD cents.
pub const MIN_BET_USD_CENTS: u64 = 100;

/// Outcome of a round; `Pending` exactly until resolution.
#[derive(Clone, Copy, Debug, PartialEq, Eq, Structural)]
pub enum Outcome {
    Pending,
    Up,
    Down,
    Draw,
}

/// Settlement currency of a bet.
#[derive(Clone, Copy, Debug, PartialEq, Eq, Structural)]
pub enum TokenType {
    USDC,
    URIM,
}

/// Platform configuration: admin and treasury identities, the pause
/// switch, and the monotonically increasing round counter.
#[derive(Clone, Copy, Debug, PartialEq, Eq, Structural)]
pub struct Config {
    pub admin: u64,
    pub treasury: u64,
    pub paused: bool,
    pub current_round_id: u64,
}

/// One two-sided wager round.
#[derive(Clone, Copy, Debug, PartialEq, Eq, Structural)]
pub struct Round {
    pub round_id: u64,
    /// Reference price locked at the start, in cents.
    pub locked_price: u64,
    /// Final price at resolution, in cents; zero until resolved.
    pub final_price: u64,
    pub created_at: i64,
    pub lock_time: i64,
    /// Bets are accepted strictly before this time.
    pub end_time: i64,
    /// Base-currency stakes on each side, in micro-units.
    pub up_pool: u64,
    pub down_pool: u64,
    /// Base-currency fees collected.
    pub total_fees: u64,
    /// Loyalty-currency stakes on each side, in micro-units.
    pub up_pool_urim: u64,
    pub down_pool_urim: u64,
    /// Loyalty-currency fees collected.
    pub total_fees_urim: u64,
    /// Unified USD-valued pools, in cents, for cross-currency allocation.
    pub up_pool_usd: u64,
    pub down_pool_usd: u64,
    pub total_fees_usd: u64,
    pub resolved: bool,
    pub outcome: Outcome,
}

impl Round {
    /// The locked price is positive, and the outcome is `Pending` exactly
    /// until the round is resolved.
    pub open spec fn wf(&self) -> bool {
        &&& self.locked_price > 0
        &&& (self.resolved <==> self.outcome != Outcome::Pending)
    }
}

/// One bettor's cumulative position in one round. Side and currency are
/// fixed by the first contribution; the claimed flags are independent per
/// currency pool.
#[derive(Clone, Copy, Debug, PartialEq, Eq, Structural)]
pub struct UserBet {
    pub user: u64,
    pub round_id: u64,
    /// Cumulative stake in the bet's own currency, micro-units.
    pub amount: u64,
    /// Cumulative USD value at stake time, cents.
    pub usd_value: u64,
    pub bet_up: bool,
    pub claimed_usdc: bool,
    pub claimed_urim: bool,
    pub token_type: TokenType,
    /// Exchange rate recorded by the first loyalty-currency contribution.
    pub urim_price_at_bet: u64,
}

impl UserBet {
    /// A zeroed record, as a bettor's first contribution finds it.
    pub fn empty() -> (b: UserBet)
        ensures
            b == (UserBet {
                user: 0,
                round_id: 0,
                amount: 0,
                usd_value: 0,
                bet_up: false,
                claimed_usdc: false,
                claimed_urim: false,
                token_type: TokenType::USDC,
                urim_price_at_bet: 0,
            }),
    {
        UserBet {
            user: 0,
            round_id: 0,
            amount: 0,
            usd_value: 0,
            bet_up: false,
            claimed_usdc: false,
            claimed_urim: false,
            token_type: TokenType::USDC,
            urim_price_at_bet: 0,
        }
    }
}

/// Creates the platform configuration (done once, by the admin).
pub fn initialize(admin: u64, treasury: u64) -> (c: Config)
    ensures
        c.admin == admin,
        c.treasury == treasury,
        !c.paused,
        c.current_round_id == 0,
{
    Config { admin, treasury, paused: false, current_round_id: 0 }
}

/// The betting window actually used: the given duration if positive, the
/// protocol default otherwise.
pub open spec fn effective_duration(duration_seconds: int) -> int {
    if duration_seconds > 0 {
        duration_seconds
    } else {
        DEFAULT_ROUND_DURATION as int
    }
}

/// The outcome a final price yields against the locked price.
pub open spec fn outcome_of(locked_price: int, final_price: int) -> Outcome {
    if final_price > locked_price {
        Outcome::Up
    } else if final_price < locked_price {
        Outcome::Down
    } else {
        Outcome::Draw
    }
}

/// The round record a successful start produces.
pub open spec fn fresh_round(round_id: u64, locked_price: u64, now: int, end_time: int) -> Round {
    Round {
        round_id,
        locked_price,
        final_price: 0,
        created_at: now as i64,
        lock_time: now as i64,
        end_time: end_time as i64,
        up_pool: 0,
        down_pool: 0,
        total_fees: 0,
        up_pool_urim: 0,
        down_pool_urim: 0,
        total_fees_urim: 0,
        up_pool_usd: 0,
        down_pool_usd: 0,
        total_fees_usd: 0,
        resolved: false,
        outcome: Outcome::Pending,
    }
}

/// Starts a round at an admin-supplied locked price: zeroes all pools,
/// sets the end time, and advances the round counter.
pub fn start_round_manual(
    config: &mut Config,
    locked_price: u64,
    duration_seconds: i64,
    now: i64,
) -> (r: Result<Round, ErrorCode>)
    requires
        old(config).current_round_id < u64::MAX,
        now + effective_duration(duration_seconds as int) <= i64::MAX,
    ensures
        old(config).paused ==> (r matches Err(e) && e == ErrorCode::PlatformPaused && *final(config) == *old(config)),
        !old(config).paused && locked_price == 0 ==> (r matches Err(e) && e
            == ErrorCode::InvalidPrice && *final(config) == *old(config)),
        !old(config).paused && locked_price > 0 ==> (r matches Ok(round) && round == fresh_round(
            old(config).current_round_id,
            locked_price,
            now as int,
            now + effective_duration(duration_seconds as int),
        ) && round.wf() && *final(config) == Config {
            current_round_id: (old(config).current_round_id + 1) as u64,
            ..*old(config)
        }),
{
    if config.paused {
        return Err(ErrorCode::PlatformPaused);
    }
    if locked_price == 0 {
        return Err(ErrorCode::InvalidPrice);
    }
    let duration = if duration_seconds > 0 {
        duration_seconds
    } else {
        DEFAULT_ROUND_DURATION
    };
    let round = Round {
        round_id: config.current_round_id,
        locked_price,
        final_price: 0,
        created_at: now,
        lock_time: now,
        end_time: now + duration,
        up_pool: 0,
        down_pool: 0,
        total_fees: 0,
        up_pool_urim: 0,
        down_pool_urim: 0,
        total_fees_urim: 0,
        up_pool_usd: 0,
        down_pool_usd: 0,
        total_fees_usd: 0,
        resolved: false,
        outcome: Outcome::Pending,
    };
    config.current_round_id = config.current_round_id + 1;
    Ok(round)
}

/// Starts a round at a price read from the oracle: the observation must
/// be fresh and convert to a positive cent price.
pub fn start_round(
    config: &mut Config,
    price_feed: OraclePriceData,
    duration_seconds: i64,
    now: i64,
) -> (r: Result<Round, ErrorCode>)
    requires
        old(config).current_round_id < u64::MAX,
        now + effective_duration(duration_seconds as int) <= i64::MAX,
    ensures
        old(config).paused ==> (r matches Err(e) && e == ErrorCode::PlatformPaused && *final(config) == *old(config)),
        !old(config).paused && !fresh_at(
            price_feed.publish_time as int,
            now as int,
            MAX_PRICE_AGE_SECS as int,
        ) ==> (r matches Err(e) && e == ErrorCode::PythPriceStale && *final(config) == *old(config)),
        !old(config).paused && fresh_at(
            price_feed.publish_time as int,
            now as int,
            MAX_PRICE_AGE_SECS as int,
        ) ==> {
            let cents = cents_of(price_feed.price as int, price_feed.expo as int);
            if price_feed.price > 0 && 0 < cents <= u64::MAX {
                r matches Ok(round) && round == fresh_round(
                    old(config).current_round_id,
                    cents as u64,
                    now as int,
                    now + effective_duration(duration_seconds as int),
                ) && round.wf() && *final(config) == Config {
                    current_round_id: (old(config).current_round_id + 1) as u64,
                    ..*old(config)
                }
            } else {
                r matches Err(e) && e == ErrorCode::InvalidPrice && *final(config) == *old(config)
            }
        },
{
    if config.paused {
        return Err(ErrorCode::PlatformPaused);
    }
    let locked_price = match oracle_price_cents(price_feed, now, MAX_PRICE_AGE_SECS) {
        Ok(c) => c,
        Err(e) => {
            return Err(e);
        },
    };
    start_round_manual(config, locked_price, duration_seconds, now)
}

/// Resolves a round at an admin-supplied final price, once, after its end
/// time; the outcome is the sign of the move from the locked price.
pub fn resolve_round_manual(config: &Config, round: &mut Round, final_price: u64, now: i64) -> (r:
    Result<(), ErrorCode>)
    requires
        old(round).wf(),
    ensures
        final(round).wf(),
        config.paused ==> (r matches Err(e) && e == ErrorCode::PlatformPaused && *final(round)
            == *old(round)),
        !config.paused && old(round).resolved ==> (r matches Err(e) && e == ErrorCode::RoundResolved
            && *final(round) == *old(round)),
        !config.paused && !old(round).resolved && now < old(round).end_time ==> (r matches Err(e)
            && e == ErrorCode::RoundNotEnded && *final(round) == *old(round)),
        !config.paused && !old(round).resolved && now >= old(round).end_time && final_price == 0
            ==> (r matches Err(e) && e == ErrorCode::InvalidPrice && *final(round) == *old(round)),
        !config.paused && !old(round).resolved && now >= old(round).end_time && final_price > 0
            ==> (r matches Ok(u) && *final(round) == Round {
            resolved: true,
            final_price,
            outcome: outcome_of(old(round).locked_price as int, final_price as int),
            ..*old(round)
        }),
{
    if config.paused {
        return Err(ErrorCode::PlatformPaused);
    }
    if round.resolved {
        return Err(ErrorCode::RoundResolved);
    }
    if now < round.end_time {
        return Err(ErrorCode::RoundNotEnded);
    }
    if final_price == 0 {
        return Err(ErrorCode::InvalidPrice);
    }
    round.resolved = true;
    round.final_price = final_price;
    if final_price > round.locked_price {
        round.outcome = Outcome::Up;
    } else if final_price < round.locked_price {
        round.outcome = Outcome::Down;
    } else {
        round.outcome = Outcome::Draw;
    }
    Ok(())
}

/// Resolves a round from a fresh oracle observation, once, after its end
/// time.
pub fn resolve_round(config: &Config, round: &mut Round, price_feed: OraclePriceData, now: i64)
    -> (r: Result<(), ErrorCode>)
    requires
        old(round).wf(),
    ensures
        final(round).wf(),
        config.paused ==> (r matches Err(e) && e == ErrorCode::PlatformPaused && *final(round)
            == *old(round)),
        !config.paused && old(round).resolved ==> (r matches Err(e) && e == ErrorCode::RoundResolved
            && *final(round) == *old(round)),
        !config.paused && !old(round).resolved && now < old(round).end_time ==> (r matches Err(e)
            && e == ErrorCode::RoundNotEnded && *final(round) == *old(round)),
        !config.paused && !old(round).resolved && now >= old(round).end_time && !fresh_at(
            price_feed.publish_time as int,
            now as int,
            MAX_PRICE_AGE_SECS as int,
        ) ==> (r matches Err(e) && e == ErrorCode::PythPriceStale && *final(round) == *old(round)),
        !config.paused && !old(round).resolved && now >= old(round).end_time && fresh_at(
            price_feed.publish_time as int,
            now as int,
            MAX_PRICE_AGE_SECS as int,
        ) ==> {
            let cents = cents_of(price_feed.price as int, price_feed.expo as int);
            if price_feed.price > 0 && 0 < cents <= u64::MAX {
                r matches Ok(u) && *final(round) == Round {
                    resolved: true,
                    final_price: cents as u64,
                    outcome: outcome_of(old(round).locked_price as int, cents),
                    ..*old(round)
                }
            } else {
                r matches Err(e) && e == ErrorCode::InvalidPrice && *final(round) == *old(round)
            }
        },
{
    if config.paused {
        return Err(ErrorCode::PlatformPaused);
    }
    if round.resolved {
        return Err(ErrorCode::RoundResolved);
    }
    if now < round.end_time {
        return Err(ErrorCode::RoundNotEnded);
    }
    let final_price = match oracle_price_cents(price_feed, now, MAX_PRICE_AGE_SECS) {
        Ok(c) => c,
        Err(e) => {
            return Err(e);
        },
    };
    round.resolved = true;
    round.final_price = final_price;
    if final_price > round.locked_price {
        round.outcome = Outcome::Up;
    } else if final_price < round.locked_price {
        round.outcome = Outcome::Down;
    } else {
        round.outcome = Outcome::Draw;
    }
    Ok(())
}

/// Permissionless resolution: anyone may resolve a round from a fresh
/// oracle observation once its end time has passed.
pub fn resolve_round_permissionless(
    config: &Config,
    round: &mut Round,
    price_feed: OraclePriceData,
    now: i64,
) -> (r: Result<(), ErrorCode>)
    requires
        old(round).wf(),
    ensures
        final(round).wf(),
        config.paused ==> (r matches Err(e) && e == ErrorCode::PlatformPaused && *final(round)
            == *old(round)),
        !config.paused && old(round).resolved ==> (r matches Err(e) && e == ErrorCode::RoundResolved
            && *final(round) == *old(round)),
        !config.paused && !old(round).resolved && now < old(round).end_time ==> (r matches Err(e)
            && e == ErrorCode::RoundNotEnded && *final(round) == *old(round)),
        !config.paused && !old(round).resolved && now >= old(round).end_time && !fresh_at(
            price_feed.publish_time as int,
            now as int,
            MAX_PRICE_AGE_SECS as int,
        ) ==> (r matches Err(e) && e == ErrorCode::PythPriceStale && *final(round) == *old(round)),
        !config.paused && !old(round).resolved && now >= old(round).end_time && fresh_at(
            price_feed.publish_time as int,
            now as int,
            MAX_PRICE_AGE_SECS as int,
        ) ==> {
            let cents = cents_of(price_feed.price as int, price_feed.expo as int);
            if price_feed.price > 0 && 0 < cents <= u64::MAX {
                r matches Ok(u) && *final(round) == Round {
                    resolved: true,
                    final_price: cents as u64,
                    outcome: outcome_of(old(round).locked_price as int, cents),
                    ..*old(round)
                }
            } else {
                r matches Err(e) && e == ErrorCode::InvalidPrice && *final(round) == *old(round)
            }
        },
{
    resolve_round(config, round, price_feed, now)
}

/// Emergency resolution by the admin: bypasses the time gate and sets an
/// explicit outcome (1 up, 2 down, anything else draw).
pub fn emergency_resolve(round: &mut Round, final_price: u64, outcome_code: u8) -> (r: Result<
    (),
    ErrorCode,
>)
    requires
        old(round).wf(),
    ensures
        final(round).wf(),
        old(round).resolved ==> (r matches Err(e) && e == ErrorCode::RoundResolved && *final(round)
            == *old(round)),
        !old(round).resolved ==> (r matches Ok(u) && *final(round) == Round {
            resolved: true,
            final_price,
            outcome: if outcome_code == 1 {
                Outcome::Up
            } else if outcome_code == 2 {
                Outcome::Down
            } else {
                Outcome::Draw
            },
            ..*old(round)
        }),
{
    if round.resolved {
        return Err(ErrorCode::RoundResolved);
    }
    round.resolved = true;
    round.final_price = final_price;
    round.outcome = if outcome_code == 1 {
        Outcome::Up
    } else if outcome_code == 2 {
        Outcome::Down
    } else {
        Outcome::Draw
    };
    Ok(())
}

/// Pauses all mutating operations.
pub fn pause(config: &mut Config)
    ensures
        (*final(config) == Config { paused: true, ..*old(config) }),
{
    config.paused = true;
}

/// Lifts the pause.
pub fn unpause(config: &mut Config)
    ensures
        (*final(config) == Config { paused: false, ..*old(config) }),
{
    config.paused = false;
}

/// Rotates the fee-receiving treasury identity.
pub fn update_treasury(config: &mut Config, new_treasury: u64)
    ensures
        (*final(config) == Config { treasury: new_treasury, ..*old(config) }),
{
    config.treasury = new_treasury;
}

/// USD value in cents of a base-currency stake: one micro-unit is one
/// millionth of a dollar, so cents are the amount over ten thousand.
pub open spec fn usd_cents_usdc(amount: int) -> int {
    amount / 10_000
}

/// USD value in cents of a loyalty-currency stake at an 8-decimal
/// fixed-point exchange rate: `amount * rate / 10^12`, floored.
pub open spec fn usd_cents_urim(amount: int, price_scaled: int) -> int {
    amount * price_scaled / 1_000_000_000_000
}

/// Whether a base-currency contribution passes every validation gate.
pub open spec fn usdc_bet_accepted(
    config: Config,
    round: Round,
    bet: UserBet,
    now: int,
    amount: int,
    bet_up: bool,
) -> bool {
    &&& !config.paused
    &&& !round.resolved
    &&& now < round.end_time
    &&& usd_cents_usdc(amount) >= MIN_BET_USD_CENTS
    &&& (bet.amount == 0 || (bet.bet_up == bet_up && bet.token_type == TokenType::USDC))
}

/// Whether a loyalty-currency contribution passes every validation gate.
pub open spec fn urim_bet_accepted(
    config: Config,
    round: Round,
    bet: UserBet,
    now: int,
    amount: int,
    bet_up: bool,
    price_scaled: int,
) -> bool {
    &&& !config.paused
    &&& !round.resolved
    &&& now < round.end_time
    &&& price_scaled > 0
    &&& usd_cents_urim(amount, price_scaled) >= MIN_BET_USD_CENTS
    &&& (bet.amount == 0 || (bet.bet_up == bet_up && bet.token_type == TokenType::URIM))
}

/// Places a base-currency stake on one side of an open round. The fee is
/// charged on top of the stake; both the native pool and the USD-valued
/// pool of the chosen side grow, and repeat contributions accumulate on
/// the same record without switching side or currency.
pub fn place_bet(
    config: &Config,
    round: &mut Round,
    user_bet: &mut UserBet,
    vault: &mut VaultAccount,
    user: u64,
    amount: u64,
    bet_up: bool,
    now: i64,
) -> (r: Result<(), ErrorCode>)
    requires
        usdc_bet_accepted(*config, *old(round), *old(user_bet), now as int, amount as int, bet_up)
            ==> ({
            let fee_charge = fee_amount(amount as int, FEE_BPS as int);
            let usd = usd_cents_usdc(amount as int);
            &&& amount + fee_charge <= u64::MAX
            &&& old(vault).balance + amount + fee_charge <= u64::MAX
            &&& (bet_up ==> old(round).up_pool + amount <= u64::MAX)
            &&& (bet_up ==> old(round).up_pool_usd + usd <= u64::MAX)
            &&& (!bet_up ==> old(round).down_pool + amount <= u64::MAX)
            &&& (!bet_up ==> old(round).down_pool_usd + usd <= u64::MAX)
            &&& old(round).total_fees + fee_charge <= u64::MAX
            &&& old(round).total_fees_usd + fee_amount(usd, FEE_BPS as int) <= u64::MAX
            &&& old(user_bet).amount + amount <= u64::MAX
            &&& old(user_bet).usd_value + usd <= u64::MAX
        }),
    ensures
        config.paused ==> (r matches Err(e) && e == ErrorCode::PlatformPaused && *final(round)
            == *old(round) && *final(user_bet) == *old(user_bet) && *final(vault) == *old(vault)),
        !config.paused && old(round).resolved ==> (r matches Err(e) && e == ErrorCode::RoundResolved
            && *final(round) == *old(round) && *final(user_bet) == *old(user_bet) && *final(vault)
            == *old(vault)),
        !config.paused && !old(round).resolved && now >= old(round).end_time ==> (r matches Err(e)
            && e == ErrorCode::BettingClosed && *final(round) == *old(round) && *final(user_bet)
            == *old(user_bet) && *final(vault) == *old(vault)),
        !config.paused && !old(round).resolved && now < old(round).end_time && usd_cents_usdc(
            amount as int,
        ) < MIN_BET_USD_CENTS ==> (r matches Err(e) && e == ErrorCode::BetTooSmall && *final(round)
            == *old(round) && *final(user_bet) == *old(user_bet) && *final(vault) == *old(vault)),
        !config.paused && !old(round).resolved && now < old(round).end_time && usd_cents_usdc(
            amount as int,
        ) >= MIN_BET_USD_CENTS && old(user_bet).amount != 0 && old(user_bet).bet_up != bet_up ==> (
        r matches Err(e) && e == ErrorCode::CannotSwitchSides && *final(round) == *old(round)
            && *final(user_bet) == *old(user_bet) && *final(vault) == *old(vault)),
        !config.paused && !old(round).resolved && now < old(round).end_time && usd_cents_usdc(
            amount as int,
        ) >= MIN_BET_USD_CENTS && old(user_bet).amount != 0 && old(user_bet).bet_up == bet_up && old(user_bet).token_type != TokenType::USDC ==> (r matches Err(e) && e == ErrorCode::CannotMixTokens
            && *final(round) == *old(round) && *final(user_bet) == *old(user_bet) && *final(vault)
            == *old(vault)),
        usdc_bet_accepted(*config, *old(round), *old(user_bet), now as int, amount as int, bet_up)
            ==> (r matches Ok(u) && ({
            let fee_charge = fee_amount(amount as int, FEE_BPS as int);
            let usd = usd_cents_usdc(amount as int);
            &&& final(vault).balance == old(vault).balance + amount + fee_charge
            &&& *final(round) == Round {
                up_pool: if bet_up {
                    (old(round).up_pool + amount) as u64
                } else {
                    old(round).up_pool
                },
                down_pool: if !bet_up {
                    (old(round).down_pool + amount) as u64
                } else {
                    old(round).down_pool
                },
                up_pool_usd: if bet_up {
                    (old(round).up_pool_usd + usd) as u64
                } else {
                    old(round).up_pool_usd
                },
                down_pool_usd: if !bet_up {
                    (old(round).down_pool_usd + usd) as u64
                } else {
                    old(round).down_pool_usd
                },
                total_fees: (old(round).total_fees + fee_charge) as u64,
                total_fees_usd: (old(round).total_fees_usd + fee_amount(
                    usd,
                    FEE_BPS as int,
                )) as u64,
                ..*old(round)
            }
            &&& *final(user_bet) == UserBet {
                user: if old(user_bet).amount == 0 {
                    user
                } else {
                    old(user_bet).user
                },
                round_id: if old(user_bet).amount == 0 {
                    old(round).round_id
                } else {
                    old(user_bet).round_id
                },
                bet_up,
                token_type: TokenType::USDC,
                claimed_usdc: if old(user_bet).amount == 0 {
                    false
                } else {
                    old(user_bet).claimed_usdc
                },
                claimed_urim: if old(user_bet).amount == 0 {
                    false
                } else {
                    old(user_bet).claimed_urim
                },
                urim_price_at_bet: old(user_bet).urim_price_at_bet,
                amount: (old(user_bet).amount + amount) as u64,
                usd_value: (old(user_bet).usd_value + usd) as u64,
            }
        })),
{
    if config.paused {
        return Err(ErrorCode::PlatformPaused);
    }
    if round.resolved {
        return Err(ErrorCode::RoundResolved);
    }
    if now >= round.end_time {
        return Err(ErrorCode::BettingClosed);
    }
    let usd_value_cents = amount / 10_000;
    if usd_value_cents < MIN_BET_USD_CENTS {
        return Err(ErrorCode::BetTooSmall);
    }
    if user_bet.amount != 0 {
        if user_bet.bet_up != bet_up {
            return Err(ErrorCode::CannotSwitchSides);
        }
        if !(matches!(user_bet.token_type, TokenType::USDC)) {
            return Err(ErrorCode::CannotMixTokens);
        }
    }

    let fee_charge = fee(amount, FEE_BPS, DiscountPolicy::Standard);
    let fee_usd = fee(usd_value_cents, FEE_BPS, DiscountPolicy::Standard);
    let total_charge = amount + fee_charge;

    // The stake plus its fee moves from the bettor into custody.
    vault.credit(total_charge);

    if bet_up {
        round.up_pool = round.up_pool + amount;
        round.up_pool_usd = round.up_pool_usd + usd_value_cents;
    } else {
        round.down_pool = round.down_pool + amount;
        round.down_pool_usd = round.down_pool_usd + usd_value_cents;
    }
    round.total_fees = round.total_fees + fee_charge;
    round.total_fees_usd = round.total_fees_usd + fee_usd;

    if user_bet.amount == 0 {
        user_bet.user = user;
        user_bet.round_id = round.round_id;
        user_bet.bet_up = bet_up;
        user_bet.token_type = TokenType::USDC;
        user_bet.claimed_usdc = false;
        user_bet.claimed_urim = false;
    }
    user_bet.amount = user_bet.amount + amount;
    user_bet.usd_value = user_bet.usd_value + usd_value_cents;
    Ok(())
}

/// Places a loyalty-currency stake on one side of an open round. The
/// caller supplies the 8-decimal exchange rate; the USD value is computed
/// with widened-then-divided arithmetic, the discounted fee is charged on
/// top, and both the native pool and the USD-valued pool grow.
pub fn place_bet_urim(
    config: &Config,
    round: &mut Round,
    user_bet: &mut UserBet,
    urim_vault: &mut VaultAccount,
    user: u64,
    amount: u64,
    bet_up: bool,
    urim_price_scaled: u64,
    now: i64,
) -> (r: Result<(), ErrorCode>)
    requires
        urim_bet_accepted(
            *config,
            *old(round),
            *old(user_bet),
            now as int,
            amount as int,
            bet_up,
            urim_price_scaled as int,
        ) ==> ({
            let fee_charge = fee_amount(amount as int, URIM_FEE_BPS as int);
            let usd = usd_cents_urim(amount as int, urim_price_scaled as int);
            &&& usd <= u64::MAX
            &&& amount + fee_charge <= u64::MAX
            &&& old(urim_vault).balance + amount + fee_charge <= u64::MAX
            &&& (bet_up ==> old(round).up_pool_urim + amount <= u64::MAX)
            &&& (bet_up ==> old(round).up_pool_usd + usd <= u64::MAX)
            &&& (!bet_up ==> old(round).down_pool_urim + amount <= u64::MAX)
            &&& (!bet_up ==> old(round).down_pool_usd + usd <= u64::MAX)
            &&& old(round).total_fees_urim + fee_charge <= u64::MAX
            &&& old(round).total_fees_usd + fee_amount(usd, URIM_FEE_BPS as int) <= u64::MAX
            &&& old(user_bet).amount + amount <= u64::MAX
            &&& old(user_bet).usd_value + usd <= u64::MAX
        }),
    ensures
        config.paused ==> (r matches Err(e) && e == ErrorCode::PlatformPaused && *final(round)
            == *old(round) && *final(user_bet) == *old(user_bet) && *final(urim_vault) == *old(urim_vault)),
        !config.paused && old(round).resolved ==> (r matches Err(e) && e == ErrorCode::RoundResolved
            && *final(round) == *old(round) && *final(user_bet) == *old(user_bet) && *final(urim_vault) == *old(urim_vault)),
        !config.paused && !old(round).resolved && now >= old(round).end_time ==> (r matches Err(e)
            && e == ErrorCode::BettingClosed && *final(round) == *old(round) && *final(user_bet)
            == *old(user_bet) && *final(urim_vault) == *old(urim_vault)),
        !config.paused && !old(round).resolved && now < old(round).end_time && urim_price_scaled
            == 0 ==> (r matches Err(e) && e == ErrorCode::InvalidPrice && *final(round) == *old(round) && *final(user_bet) == *old(user_bet) && *final(urim_vault) == *old(urim_vault)),
        !config.paused && !old(round).resolved && now < old(round).end_time && urim_price_scaled > 0
            && usd_cents_urim(amount as int, urim_price_scaled as int) < MIN_BET_USD_CENTS ==> (
        r matches Err(e) && e == ErrorCode::BetTooSmall && *final(round) == *old(round) && *final(user_bet) == *old(user_bet) && *final(urim_vault) == *old(urim_vault)),
        !config.paused && !old(round).resolved && now < old(round).end_time && urim_price_scaled > 0
            && usd_cents_urim(amount as int, urim_price_scaled as int) >= MIN_BET_USD_CENTS && old(user_bet).amount != 0 && old(user_bet).bet_up != bet_up ==> (r matches Err(e) && e
            == ErrorCode::CannotSwitchSides && *final(round) == *old(round) && *final(user_bet)
            == *old(user_bet) && *final(urim_vault) == *old(urim_vault)),
        !config.paused && !old(round).resolved && now < old(round).end_time && urim_price_scaled > 0
            && usd_cents_urim(amount as int, urim_price_scaled as int) >= MIN_BET_USD_CENTS && old(user_bet).amount != 0 && old(user_bet).bet_up == bet_up && old(user_bet).token_type
            != TokenType::URIM ==> (r matches Err(e) && e == ErrorCode::CannotMixTokens && *final(round) == *old(round) && *final(user_bet) == *old(user_bet) && *final(urim_vault) == *old(urim_vault)),
        urim_bet_accepted(
            *config,
            *old(round),
            *old(user_bet),
            now as int,
            amount as int,
            bet_up,
            urim_price_scaled as int,
        ) ==> (r matches Ok(u) && ({
            let fee_charge = fee_amount(amount as int, URIM_FEE_BPS as int);
            let usd = usd_cents_urim(amount as int, urim_price_scaled as int);
            &&& final(urim_vault).balance == old(urim_vault).balance + amount + fee_charge
            &&& *final(round) == Round {
                up_pool_urim: if bet_up {
                    (old(round).up_pool_urim + amount) as u64
                } else {
                    old(round).up_pool_urim
                },
                down_pool_urim: if !bet_up {
                    (old(round).down_pool_urim + amount) as u64
                } else {
                    old(round).down_pool_urim
                },
                up_pool_usd: if bet_up {
                    (old(round).up_pool_usd + usd) as u64
                } else {
                    old(round).up_pool_usd
                },
                down_pool_usd: if !bet_up {
                    (old(round).down_pool_usd + usd) as u64
                } else {
                    old(round).down_pool_usd
                },
                total_fees_urim: (old(round).total_fees_urim + fee_charge) as u64,
                total_fees_usd: (old(round).total_fees_usd + fee_amount(
                    usd,
                    URIM_FEE_BPS as int,
                )) as u64,
                ..*old(round)
            }
            &&& *final(user_bet) == UserBet {
                user: if old(user_bet).amount == 0 {
                    user
                } else {
                    old(user_bet).user
                },
                round_id: if old(user_bet).amount == 0 {
                    old(round).round_id
                } else {
                    old(user_bet).round_id
                },
                bet_up,
                token_type: TokenType::URIM,
                claimed_usdc: if old(user_bet).amount == 0 {
                    false
                } else {
                    old(user_bet).claimed_usdc
                },
                claimed_urim: if old(user_bet).amount == 0 {
                    false
                } else {
                    old(user_bet).claimed_urim
                },
                urim_price_at_bet: if old(user_bet).amount == 0 {
                    urim_price_scaled
                } else {
                    old(user_bet).urim_price_at_bet
                },
                amount: (old(user_bet).amount + amount) as u64,
                usd_value: (old(user_bet).usd_value + usd) as u64,
            }
        })),
{
    if config.paused {
        return Err(ErrorCode::PlatformPaused);
    }
    if round.resolved {
        return Err(ErrorCode::RoundResolved);
    }
    if now >= round.end_time {
        return Err(ErrorCode::BettingClosed);
    }
    if urim_price_scaled == 0 {
        return Err(ErrorCode::InvalidPrice);
    }
    proof {
        lemma_u64_mul_fits_u128(amount as int, urim_price_scaled as int);
    }
    let usd_wide: u128 = ((amount as u128) * (urim_price_scaled as u128)) / 1_000_000_000_000u128;
    if usd_wide < MIN_BET_USD_CENTS as u128 {
        return Err(ErrorCode::BetTooSmall);
    }
    if user_bet.amount != 0 {
        if user_bet.bet_up != bet_up {
            return Err(ErrorCode::CannotSwitchSides);
        }
        if !(matches!(user_bet.token_type, TokenType::URIM)) {
            return Err(ErrorCode::CannotMixTokens);
        }
    }
    let usd_value_cents = usd_wide as u64;

    let discount = DiscountPolicy::FlatBpsOff { delta_bps: FEE_BPS - URIM_FEE_BPS };
    let fee_charge = fee(amount, FEE_BPS, discount);
    let fee_usd = fee(usd_value_cents, FEE_BPS, discount);
    let total_charge = amount + fee_charge;

    // The stake plus its discounted fee moves from the bettor into custody.
    urim_vault.credit(total_charge);

    if bet_up {
        round.up_pool_urim = round.up_pool_urim + amount;
        round.up_pool_usd = round.up_pool_usd + usd_value_cents;
    } else {
        round.down_pool_urim = round.down_pool_urim + amount;
        round.down_pool_usd = round.down_pool_usd + usd_value_cents;
    }
    round.total_fees_urim = round.total_fees_urim + fee_charge;
    round.total_fees_usd = round.total_fees_usd + fee_usd;

    if user_bet.amount == 0 {
        user_bet.user = user;
        user_bet.round_id = round.round_id;
        user_bet.bet_up = bet_up;
        user_bet.token_type = TokenType::URIM;
        user_bet.urim_price_at_bet = urim_price_scaled;
        user_bet.claimed_usdc = false;
        user_bet.claimed_urim = false;
    }
    user_bet.amount = user_bet.amount + amount;
    user_bet.usd_value = user_bet.usd_value + usd_value_cents;
    Ok(())
}

/// Claims a bettor's base-currency entitlement: the payout of
/// `calculate_payout_usdc`, clamped to the custody balance, paid once per
/// currency pool.
pub fn claim(round: &Round, user_bet: &mut UserBet, vault: &mut VaultAccount, caller: u64) -> (r:
    Result<u64, ErrorCode>)
    requires
        bet_in_round(*round, *old(user_bet)),
    ensures
        caller != old(user_bet).user ==> (r matches Err(e) && e == ErrorCode::NotYourBet && *final(user_bet) == *old(user_bet) && *final(vault) == *old(vault)),
        caller == old(user_bet).user && !round.resolved ==> (r matches Err(e) && e == ErrorCode::RoundNotResolved && *final(user_bet) == *old(user_bet) && *final(vault) == *old(vault)),
        caller == old(user_bet).user && round.resolved && old(user_bet).claimed_usdc ==> (r matches Err(e) && e == ErrorCode::AlreadyClaimed && *final(user_bet) == *old(user_bet) && *final(vault) == *old(vault)),
        caller == old(user_bet).user && round.resolved && !old(user_bet).claimed_usdc && payout_usdc_spec(*round, *old(user_bet)) == 0 ==> (r matches Err(e) && e == ErrorCode::NoPayout && *final(user_bet) == *old(user_bet) && *final(vault) == *old(vault)),
        caller == old(user_bet).user && round.resolved && !old(user_bet).claimed_usdc && payout_usdc_spec(*round, *old(user_bet)) > 0 ==> (r matches Ok(v) && ({
            let payout = payout_usdc_spec(*round, *old(user_bet));
            &&& v == (if payout <= old(vault).balance { payout } else { old(vault).balance as int })
            &&& final(vault).balance == old(vault).balance - v
            &&& *final(user_bet) == UserBet { claimed_usdc: true, ..*old(user_bet) }
        })),
{
    if user_bet.user != caller {
        return Err(ErrorCode::NotYourBet);
    }
    if !round.resolved {
        return Err(ErrorCode::RoundNotResolved);
    }
    if user_bet.claimed_usdc {
        return Err(ErrorCode::AlreadyClaimed);
    }
    let payout = match calculate_payout_usdc(round, user_bet) {
        Ok(p) => p,
        Err(e) => {
            return Err(e);
        },
    };
    if payout == 0 {
        return Err(ErrorCode::NoPayout);
    }
    let paid = vault.withdraw_clamped(payout);
    user_bet.claimed_usdc = true;
    Ok(paid)
}

/// Claims a bettor's loyalty-currency entitlement, symmetric to the base
/// currency and independently idempotent.
pub fn claim_urim(
    round: &Round,
    user_bet: &mut UserBet,
    urim_vault: &mut VaultAccount,
    caller: u64,
) -> (r: Result<u64, ErrorCode>)
    requires
        bet_in_round(*round, *old(user_bet)),
    ensures
        caller != old(user_bet).user ==> (r matches Err(e) && e == ErrorCode::NotYourBet && *final(user_bet) == *old(user_bet) && *final(urim_vault) == *old(urim_vault)),
        caller == old(user_bet).user && !round.resolved ==> (r matches Err(e) && e == ErrorCode::RoundNotResolved && *final(user_bet) == *old(user_bet) && *final(urim_vault) == *old(urim_vault)),
        caller == old(user_bet).user && round.resolved && old(user_bet).claimed_urim ==> (r matches Err(e) && e == ErrorCode::AlreadyClaimed && *final(user_bet) == *old(user_bet) && *final(urim_vault) == *old(urim_vault)),
        caller == old(user_bet).user && round.resolved && !old(user_bet).claimed_urim && payout_urim_spec(*round, *old(user_bet)) == 0 ==> (r matches Err(e) && e == ErrorCode::NoPayout && *final(user_bet) == *old(user_bet) && *final(urim_vault) == *old(urim_vault)),
        caller == old(user_bet).user && round.resolved && !old(user_bet).claimed_urim && payout_urim_spec(*round, *old(user_bet)) > 0 ==> (r matches Ok(v) && ({
            let payout = payout_urim_spec(*round, *old(user_bet));
            &&& v == (if payout <= old(urim_vault).balance { payout } else { old(urim_vault).balance as int })
            &&& final(urim_vault).balance == old(urim_vault).balance - v
            &&& *final(user_bet) == UserBet { claimed_urim: true, ..*old(user_bet) }
        })),
{
    if user_bet.user != caller {
        return Err(ErrorCode::NotYourBet);
    }
    if !round.resolved {
        return Err(ErrorCode::RoundNotResolved);
    }
    if user_bet.claimed_urim {
        return Err(ErrorCode::AlreadyClaimed);
    }
    let payout = match calculate_payout_urim(round, user_bet) {
        Ok(p) => p,
        Err(e) => {
            return Err(e);
        },
    };
    if payout == 0 {
        return Err(ErrorCode::NoPayout);
    }
    let paid = urim_vault.withdraw_clamped(payout);
    user_bet.claimed_urim = true;
    Ok(paid)
}

/// Claims both currency entitlements in one call; it succeeds when at
/// least one pool owes a nonzero amount, and marks claimed exactly the
/// pools it paid from.
pub fn claim_all(
    round: &Round,
    user_bet: &mut UserBet,
    vault: &mut VaultAccount,
    urim_vault: &mut VaultAccount,
    caller: u64,
) -> (r: Result<(u64, u64), ErrorCode>)
    requires
        bet_in_round(*round, *old(user_bet)),
    ensures
        caller != old(user_bet).user ==> (r matches Err(e) && e == ErrorCode::NotYourBet && *final(user_bet) == *old(user_bet) && *final(vault) == *old(vault) && *final(urim_vault) == *old(urim_vault)),
        caller == old(user_bet).user && !round.resolved ==> (r matches Err(e) && e == ErrorCode::RoundNotResolved && *final(user_bet) == *old(user_bet) && *final(vault) == *old(vault) && *final(urim_vault) == *old(urim_vault)),
        caller == old(user_bet).user && round.resolved ==> ({
            let usdc_payout = if !old(user_bet).claimed_usdc { payout_usdc_spec(*round, *old(user_bet)) } else { 0int };
            let urim_payout = if !old(user_bet).claimed_urim { payout_urim_spec(*round, *old(user_bet)) } else { 0int };
            if usdc_payout == 0 && urim_payout == 0 {
                r matches Err(e) && e == ErrorCode::NoPayout && *final(user_bet) == *old(user_bet) && *final(vault) == *old(vault) && *final(urim_vault) == *old(urim_vault)
            } else {
                r matches Ok(p) && ({
                    &&& p.0 == (if usdc_payout <= old(vault).balance { usdc_payout } else { old(vault).balance as int })
                    &&& p.1 == (if urim_payout <= old(urim_vault).balance { urim_payout } else { old(urim_vault).balance as int })
                    &&& final(vault).balance == old(vault).balance - p.0
                    &&& final(urim_vault).balance == old(urim_vault).balance - p.1
                    &&& *final(user_bet) == UserBet {
                        claimed_usdc: old(user_bet).claimed_usdc || usdc_payout > 0,
                        claimed_urim: old(user_bet).claimed_urim || urim_payout > 0,
                        ..*old(user_bet)
                    }
                })
            }
        }),
{
    if user_bet.user != caller {
        return Err(ErrorCode::NotYourBet);
    }
    if !round.resolved {
        return Err(ErrorCode::RoundNotResolved);
    }
    let usdc_payout = if !user_bet.claimed_usdc {
        match calculate_payout_usdc(round, user_bet) {
            Ok(p) => p,
            Err(e) => {
                return Err(e);
            },
        }
    } else {
        0
    };
    let urim_payout = if !user_bet.claimed_urim {
        match calculate_payout_urim(round, user_bet) {
            Ok(p) => p,
            Err(e) => {
                return Err(e);
            },
        }
    } else {
        0
    };
    if usdc_payout == 0 && urim_payout == 0 {
        return Err(ErrorCode::NoPayout);
    }
    let mut paid_usdc: u64 = 0;
    let mut paid_urim: u64 = 0;
    if usdc_payout > 0 {
        paid_usdc = vault.withdraw_clamped(usdc_payout);
        user_bet.claimed_usdc = true;
    }
    if urim_payout > 0 {
        paid_urim = urim_vault.withdraw_clamped(urim_payout);
        user_bet.claimed_urim = true;
    }
    Ok((paid_usdc, paid_urim))
}

/// Sweeps the collected base-currency fees of a resolved round from its
/// vault to the treasury and zeroes the round's fee counter.
pub fn collect_fees(round: &mut Round, vault: &mut VaultAccount, treasury: &mut VaultAccount) -> (r:
    Result<u64, ErrorCode>)
    requires
        old(round).wf(),
        old(round).resolved && old(round).total_fees > 0 ==> old(round).total_fees <= old(vault).balance && old(treasury).balance + old(round).total_fees <= u64::MAX,
    ensures
        final(round).wf(),
        !old(round).resolved ==> (r matches Err(e) && e == ErrorCode::RoundNotResolved && *final(round) == *old(round) && *final(vault) == *old(vault) && *final(treasury) == *old(treasury)),
        old(round).resolved && old(round).total_fees == 0 ==> (r matches Err(e) && e == ErrorCode::NoFeesToCollect && *final(round) == *old(round) && *final(vault) == *old(vault) && *final(treasury) == *old(treasury)),
        old(round).resolved && old(round).total_fees > 0 ==> (r matches Ok(v) && ({
            &&& v == old(round).total_fees
            &&& final(vault).balance == old(vault).balance - v
            &&& final(treasury).balance == old(treasury).balance + v
            &&& *final(round) == Round { total_fees: 0, ..*old(round) }
        })),
{
    if !round.resolved {
        return Err(ErrorCode::RoundNotResolved);
    }
    if round.total_fees == 0 {
        return Err(ErrorCode::NoFeesToCollect);
    }
    let fee_amount_due = round.total_fees;
    vault.debit(fee_amount_due);
    treasury.credit(fee_amount_due);
    round.total_fees = 0;
    Ok(fee_amount_due)
}

/// Sweeps the collected loyalty-currency fees of a resolved round from
/// its vault to the treasury and zeroes the round's fee counter.
pub fn collect_fees_urim(
    round: &mut Round,
    urim_vault: &mut VaultAccount,
    urim_treasury: &mut VaultAccount,
) -> (r: Result<u64, ErrorCode>)
    requires
        old(round).wf(),
        old(round).resolved && old(round).total_fees_urim > 0 ==> old(round).total_fees_urim <= old(urim_vault).balance && old(urim_treasury).balance + old(round).total_fees_urim <= u64::MAX,
    ensures
        final(round).wf(),
        !old(round).resolved ==> (r matches Err(e) && e == ErrorCode::RoundNotResolved && *final(round) == *old(round) && *final(urim_vault) == *old(urim_vault) && *final(urim_treasury) == *old(urim_treasury)),
        old(round).resolved && old(round).total_fees_urim == 0 ==> (r matches Err(e) && e == ErrorCode::NoFeesToCollect && *final(round) == *old(round) && *final(urim_vault) == *old(urim_vault) && *final(urim_treasury) == *old(urim_treasury)),
        old(round).resolved && old(round).total_fees_urim > 0 ==> (r matches Ok(v) && ({
            &&& v == old(round).total_fees_urim
            &&& final(urim_vault).balance == old(urim_vault).balance - v
            &&& final(urim_treasury).balance == old(urim_treasury).balance + v
            &&& *final(round) == Round { total_fees_urim: 0, ..*old(round) }
        })),
{
    if !round.resolved {
        return Err(ErrorCode::RoundNotResolved);
    }
    if round.total_fees_urim == 0 {
        return Err(ErrorCode::NoFeesToCollect);
    }
    let fee_amount_due = round.total_fees_urim;
    urim_vault.debit(fee_amount_due);
    urim_treasury.credit(fee_amount_due);
    round.total_fees_urim = 0;
    Ok(fee_amount_due)
}

/// Emergency drain: moves a round's entire base-currency custody balance
/// to the treasury.
pub fn emergency_withdraw(round: &Round, vault: &mut VaultAccount, treasury: &mut VaultAccount)
    -> (r: Result<u64, ErrorCode>)
    requires
        old(treasury).balance + old(vault).balance <= u64::MAX,
    ensures
        old(vault).balance == 0 ==> (r matches Err(e) && e == ErrorCode::NoFundsToWithdraw && *final(vault) == *old(vault) && *final(treasury) == *old(treasury)),
        old(vault).balance > 0 ==> (r matches Ok(v) && ({
            &&& v == old(vault).balance
            &&& final(vault).balance == 0
            &&& final(treasury).balance == old(treasury).balance + v
        })),
{
    let vault_balance = vault.balance;
    if vault_balance == 0 {
        return Err(ErrorCode::NoFundsToWithdraw);
    }
    vault.debit(vault_balance);
    treasury.credit(vault_balance);
    Ok(vault_balance)
}

/// Emergency drain: moves a round's entire loyalty-currency custody
/// balance to the treasury.
pub fn emergency_withdraw_urim(
    round: &Round,
    urim_vault: &mut VaultAccount,
    urim_treasury: &mut VaultAccount,
) -> (r: Result<u64, ErrorCode>)
    requires
        old(urim_treasury).balance + old(urim_vault).balance <= u64::MAX,
    ensures
        old(urim_vault).balance == 0 ==> (r matches Err(e) && e == ErrorCode::NoFundsToWithdraw && *final(urim_vault) == *old(urim_vault) && *final(urim_treasury) == *old(urim_treasury)),
        old(urim_vault).balance > 0 ==> (r matches Ok(v) && ({
            &&& v == old(urim_vault).balance
            &&& final(urim_vault).balance == 0
            &&& final(urim_treasury).balance == old(urim_treasury).balance + v
        })),
{
    let vault_balance = urim_vault.balance;
    if vault_balance == 0 {
        return Err(ErrorCode::NoFundsToWithdraw);
    }
    urim_vault.debit(vault_balance);
    urim_treasury.credit(vault_balance);
    Ok(vault_balance)
}

} // verus!

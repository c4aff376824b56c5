//! Settlement allocator: the shared mathematical core of the parimutuel
//! engine. A winner's payout from each currency pool is their own stake
//! (same-currency only) plus a share of that currency's losing pool,
//! proportional to their USD-valued contribution to the winning side.

use vstd::prelude::*;
use vstd::arithmetic::div_mod::{
    lemma_div_is_ordered, lemma_div_multiples_vanish, lemma_div_of0, lemma_div_pos_is_pos,
    lemma_fundamental_div_mod, lemma_mod_division_less_than_divisor, lemma_multiply_divide_le,
};
use vstd::arithmetic::mul::{
    lemma_mul_is_distributive_add_other_way, lemma_mul_inequality, lemma_mul_nonnegative,
};
use crate::errors::ErrorCode;
use crate::fees::lemma_u64_mul_fits_u128;
use crate::round::{Outcome, Round, TokenType, UserBet};

verus! {

/// A winner's proportional share of a losing pool: their USD-valued
/// contribution times the losing pool, divided by the whole winning
/// USD-valued pool, floored.
pub open spec fn winnings_share(usd_value: int, losing_pool: int, winning_usd_pool: int) -> int {
    usd_value * losing_pool / winning_usd_pool
}

/// The base-currency amount owed to a bettor, per the round's outcome:
/// zero while pending or after a loss; a refund of a base-currency stake
/// on a draw; and for a winner, the USD-proportional share of the
/// base-currency losing pool, plus the stake back if it was staked in the
/// base currency. An empty winning pool degenerates to a refund.
pub open spec fn payout_usdc_spec(round: Round, bet: UserBet) -> int {
    let refund: int = if bet.token_type == TokenType::USDC {
        bet.amount as int
    } else {
        0
    };
    match round.outcome {
        Outcome::Pending => 0,
        Outcome::Draw => refund,
        Outcome::Up => if bet.bet_up {
            if round.up_pool_usd == 0 {
                refund
            } else {
                refund + winnings_share(
                    bet.usd_value as int,
                    round.down_pool as int,
                    round.up_pool_usd as int,
                )
            }
        } else {
            0
        },
        Outcome::Down => if !bet.bet_up {
            if round.down_pool_usd == 0 {
                refund
            } else {
                refund + winnings_share(
                    bet.usd_value as int,
                    round.up_pool as int,
                    round.down_pool_usd as int,
                )
            }
        } else {
            0
        },
    }
}

/// The loyalty-currency amount owed to a bettor, symmetric to the base
/// currency: the USD-proportional share of the loyalty-currency losing
/// pool, plus the stake back if it was staked in the loyalty currency.
pub open spec fn payout_urim_spec(round: Round, bet: UserBet) -> int {
    let refund: int = if bet.token_type == TokenType::URIM {
        bet.amount as int
    } else {
        0
    };
    match round.outcome {
        Outcome::Pending => 0,
        Outcome::Draw => refund,
        Outcome::Up => if bet.bet_up {
            if round.up_pool_usd == 0 {
                refund
            } else {
                refund + winnings_share(
                    bet.usd_value as int,
                    round.down_pool_urim as int,
                    round.up_pool_usd as int,
                )
            }
        } else {
            0
        },
        Outcome::Down => if !bet.bet_up {
            if round.down_pool_usd == 0 {
                refund
            } else {
                refund + winnings_share(
                    bet.usd_value as int,
                    round.up_pool_urim as int,
                    round.down_pool_usd as int,
                )
            }
        } else {
            0
        },
    }
}

/// A bet belongs to a round's books: its accumulated USD value is part of
/// its side's USD pool, its stake is part of its side-and-currency pool,
/// and each currency's two pools jointly fit the 64-bit range (they are
/// backed by one custody bucket).
pub open spec fn bet_in_round(round: Round, bet: UserBet) -> bool {
    &&& bet.round_id == round.round_id
    &&& (bet.bet_up ==> bet.usd_value <= round.up_pool_usd)
    &&& (!bet.bet_up ==> bet.usd_value <= round.down_pool_usd)
    &&& (bet.token_type == TokenType::USDC && bet.bet_up ==> bet.amount <= round.up_pool)
    &&& (bet.token_type == TokenType::USDC && !bet.bet_up ==> bet.amount <= round.down_pool)
    &&& (bet.token_type == TokenType::URIM && bet.bet_up ==> bet.amount <= round.up_pool_urim)
    &&& (bet.token_type == TokenType::URIM && !bet.bet_up ==> bet.amount <= round.down_pool_urim)
    &&& round.up_pool + round.down_pool <= u64::MAX
    &&& round.up_pool_urim + round.down_pool_urim <= u64::MAX
}

/// A share never exceeds the losing pool when the contribution is within
/// the winning pool.
pub proof fn lemma_share_within_pool(usd_value: int, losing_pool: int, winning_usd_pool: int)
    requires
        0 <= usd_value <= winning_usd_pool,
        0 < winning_usd_pool,
        0 <= losing_pool,
    ensures
        0 <= winnings_share(usd_value, losing_pool, winning_usd_pool) <= losing_pool,
{
    lemma_mul_nonnegative(usd_value, losing_pool);
    lemma_div_pos_is_pos(usd_value * losing_pool, winning_usd_pool);
    lemma_mul_inequality(usd_value, winning_usd_pool, losing_pool);
    lemma_multiply_divide_le(usd_value * losing_pool, winning_usd_pool, losing_pool);
}

/// Computes the base-currency payout for one bettor of a resolved round.
pub fn calculate_payout_usdc(round: &Round, user_bet: &UserBet) -> (r: Result<u64, ErrorCode>)
    requires
        bet_in_round(*round, *user_bet),
    ensures
        r matches Ok(v) && v == payout_usdc_spec(*round, *user_bet),
{
    let refund: u64 = if matches!(user_bet.token_type, TokenType::USDC) {
        user_bet.amount
    } else {
        0
    };
    match round.outcome {
        Outcome::Pending => Ok(0),
        Outcome::Draw => Ok(refund),
        Outcome::Up => {
            if user_bet.bet_up {
                if round.up_pool_usd == 0 {
                    return Ok(refund);
                }
                proof {
                    lemma_u64_mul_fits_u128(user_bet.usd_value as int, round.down_pool as int);
                    lemma_share_within_pool(
                        user_bet.usd_value as int,
                        round.down_pool as int,
                        round.up_pool_usd as int,
                    );
                }
                let winnings: u64 = (((user_bet.usd_value as u128) * (round.down_pool as u128)) / (
                round.up_pool_usd as u128)) as u64;
                Ok(refund + winnings)
            } else {
                Ok(0)
            }
        },
        Outcome::Down => {
            if !user_bet.bet_up {
                if round.down_pool_usd == 0 {
                    return Ok(refund);
                }
                proof {
                    lemma_u64_mul_fits_u128(user_bet.usd_value as int, round.up_pool as int);
                    lemma_share_within_pool(
                        user_bet.usd_value as int,
                        round.up_pool as int,
                        round.down_pool_usd as int,
                    );
                }
                let winnings: u64 = (((user_bet.usd_value as u128) * (round.up_pool as u128)) / (
                round.down_pool_usd as u128)) as u64;
                Ok(refund + winnings)
            } else {
                Ok(0)
            }
        },
    }
}

/// Computes the loyalty-currency payout for one bettor of a resolved
/// round.
pub fn calculate_payout_urim(round: &Round, user_bet: &UserBet) -> (r: Result<u64, ErrorCode>)
    requires
        bet_in_round(*round, *user_bet),
    ensures
        r matches Ok(v) && v == payout_urim_spec(*round, *user_bet),
{
    let refund: u64 = if matches!(user_bet.token_type, TokenType::URIM) {
        user_bet.amount
    } else {
        0
    };
    match round.outcome {
        Outcome::Pending => Ok(0),
        Outcome::Draw => Ok(refund),
        Outcome::Up => {
            if user_bet.bet_up {
                if round.up_pool_usd == 0 {
                    return Ok(refund);
                }
                proof {
                    lemma_u64_mul_fits_u128(user_bet.usd_value as int, round.down_pool_urim as int);
                    lemma_share_within_pool(
                        user_bet.usd_value as int,
                        round.down_pool_urim as int,
                        round.up_pool_usd as int,
                    );
                }
                let winnings: u64 = (((user_bet.usd_value as u128) * (round.down_pool_urim
                    as u128)) / (round.up_pool_usd as u128)) as u64;
                Ok(refund + winnings)
            } else {
                Ok(0)
            }
        },
        Outcome::Down => {
            if !user_bet.bet_up {
                if round.down_pool_usd == 0 {
                    return Ok(refund);
                }
                proof {
                    lemma_u64_mul_fits_u128(user_bet.usd_value as int, round.up_pool_urim as int);
                    lemma_share_within_pool(
                        user_bet.usd_value as int,
                        round.up_pool_urim as int,
                        round.down_pool_usd as int,
                    );
                }
                let winnings: u64 = (((user_bet.usd_value as u128) * (round.up_pool_urim as u128))
                    / (round.down_pool_usd as u128)) as u64;
                Ok(refund + winnings)
            } else {
                Ok(0)
            }
        },
    }
}

/// Sum of a sequence of integers.
pub open spec fn sum_of(s: Seq<int>) -> int
    decreases s.len(),
{
    if s.len() == 0 {
        0
    } else {
        sum_of(s.drop_last()) + s.last()
    }
}

/// Sum of the winners' proportional shares, one per winner's USD-valued
/// contribution.
pub open spec fn shares_sum(s: Seq<int>, losing_pool: int, winning_usd_pool: int) -> int
    decreases s.len(),
{
    if s.len() == 0 {
        0
    } else {
        shares_sum(s.drop_last(), losing_pool, winning_usd_pool) + winnings_share(
            s.last(),
            losing_pool,
            winning_usd_pool,
        )
    }
}

/// Flooring is superadditive, and loses less than one unit per split:
/// `share(a) + share(b) <= share(a + b) <= share(a) + share(b) + 1`.
proof fn lemma_share_superadditive(a: int, b: int, l: int, w: int)
    requires
        0 < w,
        0 <= l,
        0 <= a,
        0 <= b,
    ensures
        winnings_share(a, l, w) + winnings_share(b, l, w) <= winnings_share(a + b, l, w),
        winnings_share(a + b, l, w) <= winnings_share(a, l, w) + winnings_share(b, l, w) + 1,
{
    let xa = a * l;
    let xb = b * l;
    let xab = (a + b) * l;
    lemma_mul_is_distributive_add_other_way(l, a, b);
    assert(xab == xa + xb);
    lemma_fundamental_div_mod(xa, w);
    lemma_fundamental_div_mod(xb, w);
    lemma_fundamental_div_mod(xab, w);
    lemma_mul_nonnegative(a, l);
    lemma_mul_nonnegative(b, l);
    lemma_mod_division_less_than_divisor(xa, w);
    lemma_mod_division_less_than_divisor(xb, w);
    lemma_mod_division_less_than_divisor(xab, w);
    let qa = xa / w;
    let qb = xb / w;
    let qab = xab / w;
    let k = qab - qa - qb;
    assert(w * k == xa % w + xb % w - xab % w) by {
        assert(w * k == w * qab - w * qa - w * qb) by (nonlinear_arith)
            requires
                k == qab - qa - qb,
        ;
    }
    assert(0 <= k <= 1) by (nonlinear_arith)
        requires
            0 < w,
            -w < w * k < 2 * w,
    ;
}

/// The total of the winners' shares never exceeds the share of their
/// total contribution.
proof fn lemma_shares_sum_le_share_of_sum(s: Seq<int>, l: int, w: int)
    requires
        0 < w,
        0 <= l,
        forall|i: int| 0 <= i < s.len() ==> 0 <= #[trigger] s[i],
    ensures
        0 <= sum_of(s),
        shares_sum(s, l, w) <= winnings_share(sum_of(s), l, w),
        winnings_share(sum_of(s), l, w) <= shares_sum(s, l, w) + s.len(),
    decreases s.len(),
{
    if s.len() == 0 {
        assert(winnings_share(0, l, w) == 0) by {
            assert(0 * l == 0);
            lemma_div_of0(w);
        }
    } else {
        let prefix = s.drop_last();
        lemma_shares_sum_le_share_of_sum(prefix, l, w);
        lemma_share_superadditive(sum_of(prefix), s.last(), l, w);
    }
}

/// Parimutuel conservation: however the winning side's USD-valued
/// contributions split up, the winners' proportional shares of a losing
/// pool total at most that pool. Same-currency payouts are therefore at
/// most the winners' own stakes plus the losing pool.
pub proof fn lemma_parimutuel_conservation(s: Seq<int>, losing_pool: int, winning_usd_pool: int)
    requires
        0 < winning_usd_pool,
        0 <= losing_pool,
        forall|i: int| 0 <= i < s.len() ==> 0 <= #[trigger] s[i],
        sum_of(s) <= winning_usd_pool,
    ensures
        0 <= shares_sum(s, losing_pool, winning_usd_pool) <= losing_pool,
{
    lemma_shares_sum_le_share_of_sum(s, losing_pool, winning_usd_pool);
    lemma_mul_inequality(sum_of(s), winning_usd_pool, losing_pool);
    lemma_div_is_ordered(
        sum_of(s) * losing_pool,
        winning_usd_pool * losing_pool,
        winning_usd_pool,
    );
    lemma_div_multiples_vanish(losing_pool, winning_usd_pool);
    if s.len() == 0 {
    } else {
        lemma_mul_nonnegative(sum_of(s), losing_pool);
        lemma_div_pos_is_pos(sum_of(s) * losing_pool, winning_usd_pool);
        lemma_shares_nonneg(s, losing_pool, winning_usd_pool);
    }
}

/// Every share is nonnegative, so their sum is too.
proof fn lemma_shares_nonneg(s: Seq<int>, l: int, w: int)
    requires
        0 < w,
        0 <= l,
        forall|i: int| 0 <= i < s.len() ==> 0 <= #[trigger] s[i],
    ensures
        0 <= shares_sum(s, l, w),
    decreases s.len(),
{
    if s.len() > 0 {
        lemma_shares_nonneg(s.drop_last(), l, w);
        lemma_mul_nonnegative(s.last(), l);
        lemma_div_pos_is_pos(s.last() * l, w);
    }
}

/// The integer-division residual of a fully subscribed pool is bounded by
/// the number of winners: when the contributions exhaust the winning
/// pool, the shares leave behind less than one unit per winner.
pub proof fn lemma_parimutuel_residual(s: Seq<int>, losing_pool: int, winning_usd_pool: int)
    requires
        0 < winning_usd_pool,
        0 <= losing_pool,
        forall|i: int| 0 <= i < s.len() ==> 0 <= #[trigger] s[i],
        sum_of(s) == winning_usd_pool,
    ensures
        losing_pool - shares_sum(s, losing_pool, winning_usd_pool) <= s.len(),
{
    lemma_shares_sum_le_share_of_sum(s, losing_pool, winning_usd_pool);
    lemma_div_multiples_vanish(losing_pool, winning_usd_pool);
}

} // verus!

use settlement_core::custody::VaultAccount;
use settlement_core::errors::ErrorCode;
use settlement_core::payout::{calculate_payout_urim, calculate_payout_usdc};
use settlement_core::round::{
    claim, claim_all, claim_urim, collect_fees, collect_fees_urim, emergency_withdraw,
    emergency_withdraw_urim, initialize, place_bet, place_bet_urim, resolve_round_manual,
    start_round_manual, Outcome, Round, TokenType, UserBet,
};

const ADMIN: u64 = 1;
const TREASURY: u64 = 2;

/// Round locked at 100 with two base-currency bettors, 100 on Down and 300
/// on Up; the price resolves at 90, so Down wins. The single Down bettor
/// collects stake plus the whole Up pool: 400. Up bettors cannot claim.
#[test]
fn parimutuel_down_wins_scenario() {
    let mut config = initialize(ADMIN, TREASURY);
    let mut round = start_round_manual(&mut config, 100, 60, 0).unwrap();
    let mut vault = VaultAccount::new();
    let mut down_bet = UserBet::empty();
    let mut up_bet = UserBet::empty();
    place_bet(&config, &mut round, &mut down_bet, &mut vault, 10, 100_000_000, false, 1).unwrap();
    place_bet(&config, &mut round, &mut up_bet, &mut vault, 11, 300_000_000, true, 2).unwrap();
    resolve_round_manual(&config, &mut round, 90, 60).unwrap();
    assert_eq!(round.outcome, Outcome::Down);
    // 100 + 100 * 300 / 100 = 400 (in whole tokens).
    let paid = claim(&round, &mut down_bet, &mut vault, 10).unwrap();
    assert_eq!(paid, 400_000_000);
    assert!(down_bet.claimed_usdc);
    let r = claim(&round, &mut up_bet, &mut vault, 11);
    assert!(matches!(r, Err(ErrorCode::NoPayout)));
    assert!(!up_bet.claimed_usdc);
}

/// A draw refunds same-currency stakes exactly, with zero winnings share
/// from the other currency's pool.
#[test]
fn draw_refunds_stakes_exactly() {
    let mut config = initialize(ADMIN, TREASURY);
    let mut round = start_round_manual(&mut config, 100, 60, 0).unwrap();
    let mut vault = VaultAccount::new();
    let mut urim_vault = VaultAccount::new();
    let mut usdc_bet = UserBet::empty();
    let mut urim_bet = UserBet::empty();
    place_bet(&config, &mut round, &mut usdc_bet, &mut vault, 10, 250_000_000, true, 1).unwrap();
    place_bet_urim(
        &config, &mut round, &mut urim_bet, &mut urim_vault, 11, 400_000_000, false, 1_000_000, 2,
    )
    .unwrap();
    resolve_round_manual(&config, &mut round, 100, 60).unwrap();
    assert_eq!(round.outcome, Outcome::Draw);
    // Each bettor gets exactly their own stake back, in their own currency.
    let paid = claim(&round, &mut usdc_bet, &mut vault, 10).unwrap();
    assert_eq!(paid, 250_000_000);
    let paid = claim_urim(&round, &mut urim_bet, &mut urim_vault, 11).unwrap();
    assert_eq!(paid, 400_000_000);
    // And nothing from the other currency's pool.
    let r = claim_urim(&round, &mut usdc_bet, &mut urim_vault, 10);
    assert!(matches!(r, Err(ErrorCode::NoPayout)));
    let r = claim(&round, &mut urim_bet, &mut vault, 11);
    assert!(matches!(r, Err(ErrorCode::NoPayout)));
}

#[test]
fn claim_gate_errors() {
    let mut config = initialize(ADMIN, TREASURY);
    let mut round = start_round_manual(&mut config, 100, 60, 0).unwrap();
    let mut vault = VaultAccount::new();
    let mut bet = UserBet::empty();
    place_bet(&config, &mut round, &mut bet, &mut vault, 10, 100_000_000, false, 1).unwrap();
    let r = claim(&round, &mut bet, &mut vault, 99);
    assert!(matches!(r, Err(ErrorCode::NotYourBet)));
    let r = claim(&round, &mut bet, &mut vault, 10);
    assert!(matches!(r, Err(ErrorCode::RoundNotResolved)));
    resolve_round_manual(&config, &mut round, 90, 60).unwrap();
    claim(&round, &mut bet, &mut vault, 10).unwrap();
    let r = claim(&round, &mut bet, &mut vault, 10);
    assert!(matches!(r, Err(ErrorCode::AlreadyClaimed)));
}

/// Cross-currency allocation: a loyalty-currency winner takes a USD-value
/// proportional share of the base currency's losing pool, and the claim
/// is capped at the custody balance.
#[test]
fn claim_all_pays_both_pools() {
    let mut config = initialize(ADMIN, TREASURY);
    let mut round = start_round_manual(&mut config, 100, 60, 0).unwrap();
    let mut vault = VaultAccount::new();
    let mut urim_vault = VaultAccount::new();
    let mut winner = UserBet::empty();
    let mut loser = UserBet::empty();
    // Winner stakes URIM worth $100; loser stakes 300 USDC on the other side.
    place_bet_urim(
        &config, &mut round, &mut winner, &mut urim_vault, 10, 100_000_000, false, 100_000_000, 1,
    )
    .unwrap();
    assert_eq!(winner.usd_value, 10_000);
    place_bet(&config, &mut round, &mut loser, &mut vault, 11, 300_000_000, true, 2).unwrap();
    resolve_round_manual(&config, &mut round, 90, 60).unwrap();
    // The winner holds the whole winning USD pool, so their share of the
    // base-currency losing pool is all of it; their own stake comes back
    // from the loyalty-currency vault.
    let (usdc_paid, urim_paid) = claim_all(&round, &mut winner, &mut vault, &mut urim_vault, 10)
        .unwrap();
    assert_eq!(usdc_paid, 300_000_000);
    assert_eq!(urim_paid, 100_000_000);
    assert!(winner.claimed_usdc);
    assert!(winner.claimed_urim);
    let r = claim_all(&round, &mut winner, &mut vault, &mut urim_vault, 10);
    assert!(matches!(r, Err(ErrorCode::NoPayout)));
    // The loser has no entitlement in either pool.
    let r = claim_all(&round, &mut loser, &mut vault, &mut urim_vault, 11);
    assert!(matches!(r, Err(ErrorCode::NoPayout)));
}

/// Parimutuel conservation on concrete values: three winners' payouts
/// total at most the losing pool plus their own stakes, the integer
/// division loses less than one unit per winner, and nothing exceeds the
/// custody balance.
#[test]
fn conservation_across_three_winners() {
    let mut config = initialize(ADMIN, TREASURY);
    let mut round = start_round_manual(&mut config, 100, 60, 0).unwrap();
    let mut vault = VaultAccount::new();
    let mut w1 = UserBet::empty();
    let mut w2 = UserBet::empty();
    let mut w3 = UserBet::empty();
    let mut loser = UserBet::empty();
    place_bet(&config, &mut round, &mut w1, &mut vault, 10, 33_330_000, false, 1).unwrap();
    place_bet(&config, &mut round, &mut w2, &mut vault, 11, 33_330_000, false, 1).unwrap();
    place_bet(&config, &mut round, &mut w3, &mut vault, 12, 33_340_000, false, 1).unwrap();
    place_bet(&config, &mut round, &mut loser, &mut vault, 13, 10_000_070, true, 2).unwrap();
    let losing_pool = round.up_pool;
    let stakes = round.down_pool;
    resolve_round_manual(&config, &mut round, 90, 60).unwrap();
    let vault_before = vault.balance;
    let paid1 = claim(&round, &mut w1, &mut vault, 10).unwrap();
    let paid2 = claim(&round, &mut w2, &mut vault, 11).unwrap();
    let paid3 = claim(&round, &mut w3, &mut vault, 12).unwrap();
    let total = paid1 + paid2 + paid3;
    assert!(total <= stakes + losing_pool);
    let residual = stakes + losing_pool - total;
    // Three winners: the rounding loss stays below one unit each.
    assert!(residual <= 3);
    assert!(total <= vault_before);
}

#[test]
fn collect_fees_sweeps_to_treasury() {
    let mut config = initialize(ADMIN, TREASURY);
    let mut round = start_round_manual(&mut config, 100, 60, 0).unwrap();
    let mut vault = VaultAccount::new();
    let mut treasury = VaultAccount::new();
    let mut bet = UserBet::empty();
    place_bet(&config, &mut round, &mut bet, &mut vault, 10, 100_000_000, true, 1).unwrap();
    let r = collect_fees(&mut round, &mut vault, &mut treasury);
    assert!(matches!(r, Err(ErrorCode::RoundNotResolved)));
    resolve_round_manual(&config, &mut round, 90, 60).unwrap();
    let swept = collect_fees(&mut round, &mut vault, &mut treasury).unwrap();
    assert_eq!(swept, 500_000);
    assert_eq!(treasury.balance, 500_000);
    assert_eq!(round.total_fees, 0);
    let r = collect_fees(&mut round, &mut vault, &mut treasury);
    assert!(matches!(r, Err(ErrorCode::NoFeesToCollect)));
}

#[test]
fn collect_fees_urim_sweeps_to_treasury() {
    let mut config = initialize(ADMIN, TREASURY);
    let mut round = start_round_manual(&mut config, 100, 60, 0).unwrap();
    let mut urim_vault = VaultAccount::new();
    let mut urim_treasury = VaultAccount::new();
    let mut bet = UserBet::empty();
    place_bet_urim(
        &config, &mut round, &mut bet, &mut urim_vault, 10, 100_000_000, true, 1_000_000, 1,
    )
    .unwrap();
    resolve_round_manual(&config, &mut round, 90, 60).unwrap();
    let swept = collect_fees_urim(&mut round, &mut urim_vault, &mut urim_treasury).unwrap();
    assert_eq!(swept, 450_000);
    assert_eq!(urim_treasury.balance, 450_000);
    assert_eq!(round.total_fees_urim, 0);
}

#[test]
fn emergency_withdraw_drains_vaults() {
    let mut config = initialize(ADMIN, TREASURY);
    let round = start_round_manual(&mut config, 100, 60, 0).unwrap();
    let mut vault = VaultAccount::new();
    let mut treasury = VaultAccount::new();
    let r = emergency_withdraw(&round, &mut vault, &mut treasury);
    assert!(matches!(r, Err(ErrorCode::NoFundsToWithdraw)));
    vault.credit(7_000);
    let drained = emergency_withdraw(&round, &mut vault, &mut treasury).unwrap();
    assert_eq!(drained, 7_000);
    assert_eq!(vault.balance, 0);
    assert_eq!(treasury.balance, 7_000);
    let mut urim_vault = VaultAccount::new();
    urim_vault.credit(9);
    let drained = emergency_withdraw_urim(&round, &mut urim_vault, &mut treasury).unwrap();
    assert_eq!(drained, 9);
    assert_eq!(treasury.balance, 7_009);
}

/// The payout formulas on a hand-built round: winners split the losing
/// pool in proportion to USD value, and an empty winning pool degenerates
/// to a same-currency refund.
#[test]
fn payout_formulas_on_crafted_round() {
    let round = Round {
        round_id: 5,
        locked_price: 100,
        final_price: 110,
        created_at: 0,
        lock_time: 0,
        end_time: 60,
        up_pool: 50_000_000,
        down_pool: 70_000_000,
        total_fees: 0,
        up_pool_urim: 40_000_000,
        down_pool_urim: 0,
        total_fees_urim: 0,
        up_pool_usd: 9_000,
        down_pool_usd: 7_000,
        total_fees_usd: 0,
        resolved: true,
        outcome: Outcome::Up,
    };
    let bet = UserBet {
        user: 10,
        round_id: 5,
        amount: 30_000_000,
        usd_value: 3_000,
        bet_up: true,
        claimed_usdc: false,
        claimed_urim: false,
        token_type: TokenType::USDC,
        urim_price_at_bet: 0,
    };
    // Stake back plus 3000/9000 of the 70_000_000 losing base pool.
    assert_eq!(calculate_payout_usdc(&round, &bet).unwrap(), 30_000_000 + 23_333_333);
    // No loyalty-currency losers, and the bet was not in that currency.
    assert_eq!(calculate_payout_urim(&round, &bet).unwrap(), 0);

    // Degenerate case: an empty winning USD pool refunds the matching
    // currency only.
    let empty_winning = Round { up_pool_usd: 0, ..round };
    let zero_usd = UserBet { usd_value: 0, ..bet };
    let urim_bet = UserBet { token_type: TokenType::URIM, usd_value: 0, ..bet };
    assert_eq!(calculate_payout_usdc(&empty_winning, &zero_usd).unwrap(), 30_000_000);
    assert_eq!(calculate_payout_usdc(&empty_winning, &urim_bet).unwrap(), 0);
    assert_eq!(calculate_payout_urim(&empty_winning, &urim_bet).unwrap(), 30_000_000);
}

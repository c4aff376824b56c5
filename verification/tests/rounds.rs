use settlement_core::custody::VaultAccount;
use settlement_core::errors::ErrorCode;
use settlement_core::round::{
    emergency_resolve, initialize, pause, place_bet, place_bet_urim, resolve_round_manual,
    start_round_manual, unpause, update_treasury, Outcome, TokenType, UserBet,
    DEFAULT_ROUND_DURATION,
};

const ADMIN: u64 = 1;
const TREASURY: u64 = 2;

#[test]
fn initialize_and_admin_controls() {
    let mut config = initialize(ADMIN, TREASURY);
    assert_eq!(config.admin, ADMIN);
    assert_eq!(config.treasury, TREASURY);
    assert!(!config.paused);
    assert_eq!(config.current_round_id, 0);
    pause(&mut config);
    assert!(config.paused);
    let r = start_round_manual(&mut config, 100, 60, 0);
    assert!(matches!(r, Err(ErrorCode::PlatformPaused)));
    unpause(&mut config);
    assert!(!config.paused);
    update_treasury(&mut config, 9);
    assert_eq!(config.treasury, 9);
}

#[test]
fn start_round_sets_window_and_counter() {
    let mut config = initialize(ADMIN, TREASURY);
    let round = start_round_manual(&mut config, 100, 60, 1_000).unwrap();
    assert_eq!(round.round_id, 0);
    assert_eq!(round.locked_price, 100);
    assert_eq!(round.end_time, 1_060);
    assert_eq!(round.up_pool, 0);
    assert_eq!(round.down_pool, 0);
    assert_eq!(round.outcome, Outcome::Pending);
    assert!(!round.resolved);
    assert_eq!(config.current_round_id, 1);
    // Duration zero maps to the protocol default.
    let round = start_round_manual(&mut config, 100, 0, 1_000).unwrap();
    assert_eq!(round.round_id, 1);
    assert_eq!(round.end_time, 1_000 + DEFAULT_ROUND_DURATION);
    let r = start_round_manual(&mut config, 0, 60, 1_000);
    assert!(matches!(r, Err(ErrorCode::InvalidPrice)));
}

#[test]
fn place_bet_updates_pools_and_record() {
    let mut config = initialize(ADMIN, TREASURY);
    let mut round = start_round_manual(&mut config, 100, 60, 0).unwrap();
    let mut vault = VaultAccount::new();
    let mut bet = UserBet::empty();
    // 100 USDC: fee 0.5% charged on top.
    place_bet(&config, &mut round, &mut bet, &mut vault, 10, 100_000_000, true, 1).unwrap();
    assert_eq!(vault.balance, 100_500_000);
    assert_eq!(round.up_pool, 100_000_000);
    assert_eq!(round.up_pool_usd, 10_000);
    assert_eq!(round.total_fees, 500_000);
    assert_eq!(round.total_fees_usd, 50);
    assert_eq!(bet.user, 10);
    assert_eq!(bet.amount, 100_000_000);
    assert_eq!(bet.usd_value, 10_000);
    assert_eq!(bet.token_type, TokenType::USDC);
    assert!(bet.bet_up);
    // A repeat contribution accumulates on the same record.
    place_bet(&config, &mut round, &mut bet, &mut vault, 10, 50_000_000, true, 2).unwrap();
    assert_eq!(bet.amount, 150_000_000);
    assert_eq!(round.up_pool, 150_000_000);
}

#[test]
fn place_bet_rejections() {
    let mut config = initialize(ADMIN, TREASURY);
    let mut round = start_round_manual(&mut config, 100, 60, 0).unwrap();
    let mut vault = VaultAccount::new();
    let mut bet = UserBet::empty();
    // Below the $1.00 minimum.
    let r = place_bet(&config, &mut round, &mut bet, &mut vault, 10, 999_999, true, 1);
    assert!(matches!(r, Err(ErrorCode::BetTooSmall)));
    // After the end time.
    let r = place_bet(&config, &mut round, &mut bet, &mut vault, 10, 100_000_000, true, 60);
    assert!(matches!(r, Err(ErrorCode::BettingClosed)));
    // Switching sides on a repeat contribution.
    place_bet(&config, &mut round, &mut bet, &mut vault, 10, 100_000_000, true, 1).unwrap();
    let r = place_bet(&config, &mut round, &mut bet, &mut vault, 10, 100_000_000, false, 2);
    assert!(matches!(r, Err(ErrorCode::CannotSwitchSides)));
    // Switching currencies on a repeat contribution.
    let r = place_bet_urim(
        &config, &mut round, &mut bet, &mut vault, 10, 100_000_000, true, 1_000_000, 2,
    );
    assert!(matches!(r, Err(ErrorCode::CannotMixTokens)));
    // After resolution.
    resolve_round_manual(&config, &mut round, 90, 60).unwrap();
    let r = place_bet(&config, &mut round, &mut bet, &mut vault, 10, 100_000_000, true, 61);
    assert!(matches!(r, Err(ErrorCode::RoundResolved)));
}

#[test]
fn place_bet_urim_converts_and_discounts() {
    let mut config = initialize(ADMIN, TREASURY);
    let mut round = start_round_manual(&mut config, 100, 60, 0).unwrap();
    let mut urim_vault = VaultAccount::new();
    let mut bet = UserBet::empty();
    // 100 tokens at $0.01 (price_scaled = 1_000_000): $1.00 of value.
    place_bet_urim(
        &config, &mut round, &mut bet, &mut urim_vault, 11, 100_000_000, false, 1_000_000, 1,
    )
    .unwrap();
    assert_eq!(bet.usd_value, 100);
    assert_eq!(bet.token_type, TokenType::URIM);
    assert_eq!(bet.urim_price_at_bet, 1_000_000);
    assert_eq!(round.down_pool_urim, 100_000_000);
    assert_eq!(round.down_pool_usd, 100);
    // Discounted fee: 0.45% of the stake.
    assert_eq!(round.total_fees_urim, 450_000);
    assert_eq!(urim_vault.balance, 100_450_000);
    // A zero exchange rate is rejected.
    let r = place_bet_urim(
        &config, &mut round, &mut bet, &mut urim_vault, 11, 100_000_000, false, 0, 2,
    );
    assert!(matches!(r, Err(ErrorCode::InvalidPrice)));
    // One whose USD value is below the minimum is rejected.
    let r = place_bet_urim(&config, &mut round, &mut bet, &mut urim_vault, 11, 100_000, false, 1_000_000, 2);
    assert!(matches!(r, Err(ErrorCode::BetTooSmall)));
}

#[test]
fn resolve_round_outcomes() {
    let mut config = initialize(ADMIN, TREASURY);
    let mut round = start_round_manual(&mut config, 100, 60, 0).unwrap();
    let r = resolve_round_manual(&config, &mut round, 90, 10);
    assert!(matches!(r, Err(ErrorCode::RoundNotEnded)));
    let r = resolve_round_manual(&config, &mut round, 0, 60);
    assert!(matches!(r, Err(ErrorCode::InvalidPrice)));
    resolve_round_manual(&config, &mut round, 90, 60).unwrap();
    assert!(round.resolved);
    assert_eq!(round.final_price, 90);
    assert_eq!(round.outcome, Outcome::Down);
    let r = resolve_round_manual(&config, &mut round, 90, 61);
    assert!(matches!(r, Err(ErrorCode::RoundResolved)));

    let mut up = start_round_manual(&mut config, 100, 60, 0).unwrap();
    resolve_round_manual(&config, &mut up, 101, 60).unwrap();
    assert_eq!(up.outcome, Outcome::Up);
    let mut draw = start_round_manual(&mut config, 100, 60, 0).unwrap();
    resolve_round_manual(&config, &mut draw, 100, 60).unwrap();
    assert_eq!(draw.outcome, Outcome::Draw);
}

#[test]
fn emergency_resolve_bypasses_time_gate() {
    let mut config = initialize(ADMIN, TREASURY);
    let mut round = start_round_manual(&mut config, 100, 60, 0).unwrap();
    emergency_resolve(&mut round, 123, 1).unwrap();
    assert!(round.resolved);
    assert_eq!(round.final_price, 123);
    assert_eq!(round.outcome, Outcome::Up);
    let r = emergency_resolve(&mut round, 123, 2);
    assert!(matches!(r, Err(ErrorCode::RoundResolved)));
    let mut down = start_round_manual(&mut config, 100, 60, 0).unwrap();
    emergency_resolve(&mut down, 1, 2).unwrap();
    assert_eq!(down.outcome, Outcome::Down);
    let mut draw = start_round_manual(&mut config, 100, 60, 0).unwrap();
    emergency_resolve(&mut draw, 1, 0).unwrap();
    assert_eq!(draw.outcome, Outcome::Draw);
}

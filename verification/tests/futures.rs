use settlement_core::custody::VaultAccount;
use settlement_core::errors::FuturesError;
use settlement_core::market::{initialize_market, update_price};
use settlement_core::position::{
    close_position, liquidate, open_position, PositionState, DIRECTION_LONG, DIRECTION_SHORT,
};

const MARKET_ID: u64 = 7;
const AUTHORITY: u64 = 1;
const TRADER: u64 = 42;

#[test]
fn initialize_market_records_fields() {
    let (market, ev) = initialize_market(b"ANTIMONY".to_vec(), 21_834, 1_700_000_000, AUTHORITY)
        .unwrap();
    assert_eq!(market.mark_price, 21_834);
    assert_eq!(market.last_price_update, 1_700_000_000);
    assert_eq!(market.open_interest_long, 0);
    assert_eq!(market.open_interest_short, 0);
    assert_eq!(market.total_fees_collected, 0);
    assert_eq!(market.authority, AUTHORITY);
    assert_eq!(ev.initial_price, 21_834);
    assert_eq!(ev.commodity, b"ANTIMONY".to_vec());
}

#[test]
fn initialize_market_rejects_long_name() {
    let r = initialize_market(vec![b'x'; 17], 100, 0, AUTHORITY);
    assert!(matches!(r, Err(FuturesError::CommodityNameTooLong)));
}

#[test]
fn initialize_market_rejects_zero_price() {
    let r = initialize_market(b"TIN".to_vec(), 0, 0, AUTHORITY);
    assert!(matches!(r, Err(FuturesError::InvalidPrice)));
}

#[test]
fn update_price_requires_authority() {
    let (mut market, _) = initialize_market(b"TIN".to_vec(), 100, 0, AUTHORITY).unwrap();
    let r = update_price(&mut market, 120, 99, 1);
    assert!(matches!(r, Err(FuturesError::Unauthorized)));
    assert_eq!(market.mark_price, 100);
    let r = update_price(&mut market, 0, AUTHORITY, 1);
    assert!(matches!(r, Err(FuturesError::InvalidPrice)));
    let ev = update_price(&mut market, 120, AUTHORITY, 5).unwrap();
    assert_eq!(ev.old_price, 100);
    assert_eq!(ev.new_price, 120);
    assert_eq!(market.mark_price, 120);
    assert_eq!(market.last_price_update, 5);
}

#[test]
fn open_position_rejects_bad_inputs() {
    let (mut market, _) = initialize_market(b"TIN".to_vec(), 100, 0, AUTHORITY).unwrap();
    let mut vault = VaultAccount::new();
    let mut treasury = VaultAccount::new();
    let r = open_position(&mut market, &mut vault, &mut treasury, MARKET_ID, TRADER, 2, 0, 100, false);
    assert!(matches!(r, Err(FuturesError::InvalidDirection)));
    let r = open_position(
        &mut market, &mut vault, &mut treasury, MARKET_ID, TRADER, DIRECTION_LONG, 0, 0, false,
    );
    assert!(matches!(r, Err(FuturesError::ZeroCollateral)));
    assert_eq!(vault.balance, 0);
}

#[test]
fn open_position_nets_fee_and_tracks_interest() {
    let (mut market, _) = initialize_market(b"TIN".to_vec(), 100, 0, AUTHORITY).unwrap();
    let mut vault = VaultAccount::new();
    let mut treasury = VaultAccount::new();
    // 1_000_000 * 5 / 10_000 = 500 fee without the discount.
    let (position, ev) = open_position(
        &mut market, &mut vault, &mut treasury, MARKET_ID, TRADER, DIRECTION_LONG, 3, 1_000_000,
        false,
    )
    .unwrap();
    assert_eq!(position.fee_paid, 500);
    assert_eq!(position.collateral, 999_500);
    assert_eq!(position.entry_price, 100);
    assert_eq!(position.opened_at, 3);
    assert_eq!(position.state, PositionState::Open);
    assert_eq!(vault.balance, 999_500);
    assert_eq!(treasury.balance, 500);
    assert_eq!(market.open_interest_long, 999_500);
    assert_eq!(market.total_fees_collected, 500);
    assert_eq!(ev.collateral, 999_500);
    assert!(!ev.urim_discount);
}

#[test]
fn open_position_discount_scales_fee() {
    let (mut market, _) = initialize_market(b"TIN".to_vec(), 100, 0, AUTHORITY).unwrap();
    let mut vault = VaultAccount::new();
    let mut treasury = VaultAccount::new();
    // Fee 500, then 500 * 9 / 10 = 450 with the loyalty discount.
    let (position, _) = open_position(
        &mut market, &mut vault, &mut treasury, MARKET_ID, TRADER, DIRECTION_SHORT, 0, 1_000_000,
        true,
    )
    .unwrap();
    assert_eq!(position.fee_paid, 450);
    assert_eq!(position.collateral, 999_550);
    assert_eq!(market.open_interest_short, 999_550);
}

/// Market at mark price 100; long opened with collateral 1000 at a 5 bps
/// fee pays no fee; the price rises to 110 and the close pays 1100.
#[test]
fn long_gain_scenario() {
    let (mut market, _) = initialize_market(b"TIN".to_vec(), 100, 0, AUTHORITY).unwrap();
    let mut vault = VaultAccount::new();
    let mut treasury = VaultAccount::new();
    let (mut position, _) = open_position(
        &mut market, &mut vault, &mut treasury, MARKET_ID, TRADER, DIRECTION_LONG, 0, 1000, false,
    )
    .unwrap();
    assert_eq!(position.fee_paid, 0);
    assert_eq!(position.collateral, 1000);
    update_price(&mut market, 110, AUTHORITY, 10).unwrap();
    // Fund custody beyond the isolated deposit so the clamp is not hit.
    vault.credit(1000);
    let ev = close_position(&mut market, &mut position, &mut vault, MARKET_ID, TRADER).unwrap();
    assert_eq!(ev.pnl, 100);
    assert_eq!(ev.payout, 1100);
    assert_eq!(position.state, PositionState::ClosedByTrader);
    assert_eq!(market.open_interest_long, 0);
}

/// Round trip: a position opened and closed at an unchanged mark price
/// returns exactly the net collateral deposited.
#[test]
fn open_close_round_trip_returns_net_collateral() {
    let (mut market, _) = initialize_market(b"TIN".to_vec(), 100, 0, AUTHORITY).unwrap();
    let mut vault = VaultAccount::new();
    let mut treasury = VaultAccount::new();
    let (mut position, _) = open_position(
        &mut market, &mut vault, &mut treasury, MARKET_ID, TRADER, DIRECTION_LONG, 0, 1_000_000,
        false,
    )
    .unwrap();
    let net = position.collateral;
    assert_eq!(net, 999_500);
    let ev = close_position(&mut market, &mut position, &mut vault, MARKET_ID, TRADER).unwrap();
    assert_eq!(ev.payout, net);
    assert_eq!(ev.pnl, 0);
    assert_eq!(vault.balance, 0);
}

#[test]
fn short_round_trip_returns_net_collateral() {
    let (mut market, _) = initialize_market(b"TIN".to_vec(), 250, 0, AUTHORITY).unwrap();
    let mut vault = VaultAccount::new();
    let mut treasury = VaultAccount::new();
    let (mut position, _) = open_position(
        &mut market, &mut vault, &mut treasury, MARKET_ID, TRADER, DIRECTION_SHORT, 0, 40_000,
        false,
    )
    .unwrap();
    let net = position.collateral;
    let ev = close_position(&mut market, &mut position, &mut vault, MARKET_ID, TRADER).unwrap();
    assert_eq!(ev.payout, net);
}

#[test]
fn close_loss_floors_at_zero_and_clamps_to_vault() {
    let (mut market, _) = initialize_market(b"TIN".to_vec(), 100, 0, AUTHORITY).unwrap();
    let mut vault = VaultAccount::new();
    let mut treasury = VaultAccount::new();
    let (mut position, _) = open_position(
        &mut market, &mut vault, &mut treasury, MARKET_ID, TRADER, DIRECTION_LONG, 0, 1000, false,
    )
    .unwrap();
    // Price halves: the long loses 50%.
    update_price(&mut market, 50, AUTHORITY, 10).unwrap();
    let ev = close_position(&mut market, &mut position, &mut vault, MARKET_ID, TRADER).unwrap();
    assert_eq!(ev.payout, 500);
    assert_eq!(ev.pnl, -500);
    assert_eq!(vault.balance, 500);
}

#[test]
fn close_rejects_wrong_market_owner_and_repeat() {
    let (mut market, _) = initialize_market(b"TIN".to_vec(), 100, 0, AUTHORITY).unwrap();
    let mut vault = VaultAccount::new();
    let mut treasury = VaultAccount::new();
    let (mut position, _) = open_position(
        &mut market, &mut vault, &mut treasury, MARKET_ID, TRADER, DIRECTION_LONG, 0, 1000, false,
    )
    .unwrap();
    let r = close_position(&mut market, &mut position, &mut vault, 8, TRADER);
    assert!(matches!(r, Err(FuturesError::InvalidMarket)));
    let r = close_position(&mut market, &mut position, &mut vault, MARKET_ID, 43);
    assert!(matches!(r, Err(FuturesError::Unauthorized)));
    close_position(&mut market, &mut position, &mut vault, MARKET_ID, TRADER).unwrap();
    let r = close_position(&mut market, &mut position, &mut vault, MARKET_ID, TRADER);
    assert!(matches!(r, Err(FuturesError::PositionAlreadyClosed)));
}

/// Liquidation scenario: an 81% loss crosses the 80% threshold; the
/// caller's reward is 2% of collateral, and at most collateral / 50.
#[test]
fn liquidate_underwater_long() {
    let (mut market, _) = initialize_market(b"TIN".to_vec(), 100, 0, AUTHORITY).unwrap();
    let mut vault = VaultAccount::new();
    let mut treasury = VaultAccount::new();
    let (mut position, _) = open_position(
        &mut market, &mut vault, &mut treasury, MARKET_ID, TRADER, DIRECTION_LONG, 0, 10_000,
        false,
    )
    .unwrap();
    assert_eq!(position.collateral, 9_995);
    update_price(&mut market, 19, AUTHORITY, 10).unwrap();
    let ev = liquidate(&mut market, &mut position, &mut vault, MARKET_ID, 77).unwrap();
    assert_eq!(ev.loss_bps, 8_100);
    assert_eq!(ev.liquidator_reward, 199);
    assert!(50 * ev.liquidator_reward <= ev.collateral);
    assert_eq!(ev.liquidator, 77);
    assert_eq!(position.state, PositionState::Liquidated);
    // The rest of the collateral stays in custody as insurance.
    assert_eq!(vault.balance, 9_995 - 199);
    assert_eq!(market.open_interest_long, 0);
}

#[test]
fn liquidate_rejects_healthy_and_shallow_positions() {
    let (mut market, _) = initialize_market(b"TIN".to_vec(), 100, 0, AUTHORITY).unwrap();
    let mut vault = VaultAccount::new();
    let mut treasury = VaultAccount::new();
    let (mut position, _) = open_position(
        &mut market, &mut vault, &mut treasury, MARKET_ID, TRADER, DIRECTION_LONG, 0, 10_000,
        false,
    )
    .unwrap();
    // Favorable move: not liquidatable at all.
    update_price(&mut market, 130, AUTHORITY, 10).unwrap();
    let r = liquidate(&mut market, &mut position, &mut vault, MARKET_ID, 77);
    assert!(matches!(r, Err(FuturesError::NotLiquidatable)));
    // A 50% loss is below the 80% threshold.
    update_price(&mut market, 50, AUTHORITY, 11).unwrap();
    let r = liquidate(&mut market, &mut position, &mut vault, MARKET_ID, 77);
    assert!(matches!(r, Err(FuturesError::NotLiquidatable)));
    assert_eq!(position.state, PositionState::Open);
}

#[test]
fn liquidate_short_on_price_rise() {
    let (mut market, _) = initialize_market(b"TIN".to_vec(), 100, 0, AUTHORITY).unwrap();
    let mut vault = VaultAccount::new();
    let mut treasury = VaultAccount::new();
    let (mut position, _) = open_position(
        &mut market, &mut vault, &mut treasury, MARKET_ID, TRADER, DIRECTION_SHORT, 0, 10_000,
        false,
    )
    .unwrap();
    // The price nearly doubles: the short loses 85%.
    update_price(&mut market, 185, AUTHORITY, 10).unwrap();
    let ev = liquidate(&mut market, &mut position, &mut vault, MARKET_ID, 77).unwrap();
    assert_eq!(ev.loss_bps, 8_500);
    assert_eq!(position.state, PositionState::Liquidated);
}

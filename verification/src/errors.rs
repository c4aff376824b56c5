//! Error kinds for both settlement engines. Every failing call leaves all
//! state unchanged; the variant says which precondition was violated.

use vstd::prelude::*;

verus! {

/// Errors of the leveraged-position engine.
#[derive(Clone, Copy, Debug, PartialEq, Eq, Structural)]
pub enum FuturesError {
    /// A price of zero was supplied where a positive price is required.
    InvalidPrice,
    /// The direction tag was neither long (0) nor short (1).
    InvalidDirection,
    /// The instrument name exceeds the fixed byte budget.
    CommodityNameTooLong,
    /// The caller is not the stored authority or position owner.
    Unauthorized,
    /// The position has already been closed or liquidated.
    PositionAlreadyClosed,
    /// The loss threshold for liquidation has not been reached.
    NotLiquidatable,
    /// The position does not belong to the given market.
    InvalidMarket,
    /// A position cannot be opened with zero collateral.
    ZeroCollateral,
}

/// Errors of the parimutuel-pool engine.
#[derive(Clone, Copy, Debug, PartialEq, Eq, Structural)]
pub enum ErrorCode {
    /// All mutating operations are paused.
    PlatformPaused,
    /// The round has already been resolved.
    RoundResolved,
    /// The round's betting window has not ended yet.
    RoundNotEnded,
    /// The round's betting window has ended.
    BettingClosed,
    /// The round has not been resolved yet.
    RoundNotResolved,
    /// The stake is below the minimum USD-equivalent value.
    BetTooSmall,
    /// This bettor has already claimed from this currency pool.
    AlreadyClaimed,
    /// No payout is available to this bettor.
    NoPayout,
    /// A repeat contribution may not switch sides.
    CannotSwitchSides,
    /// A repeat contribution may not switch settlement currencies.
    CannotMixTokens,
    /// There are no collected fees to sweep.
    NoFeesToCollect,
    /// A price of zero was supplied where a positive price is required.
    InvalidPrice,
    /// The caller does not own this bet.
    NotYourBet,
    /// The custody account holds nothing to withdraw.
    NoFundsToWithdraw,
    /// The oracle price is stale or unavailable.
    PythPriceStale,
    /// The claim names the wrong currency pool for this bet.
    WrongClaimInstruction,
}

} // verus!

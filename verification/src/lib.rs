//! Settlement core for oracle-priced financial instruments.
//!
//! Two engines share one fee- and payout-arithmetic core:
//! leveraged directional positions settled against a mark price with
//! threshold liquidation, and pooled parimutuel wagers settled against an
//! oracle-observed outcome, paid proportionally across two independently
//! denominated pools.

pub mod custody;
pub mod errors;
pub mod fees;
pub mod market;
pub mod oracle;
pub mod payout;
pub mod position;
pub mod round;
pub mod store;

//! Savings-circle (susu / ROSCA) rules: circles and their members, rotating
//! payouts with deferred tranches, collateral and liens, governance votes,
//! grants, a liquidity buffer, an FX rate helper and reserve lending between
//! groups. Every operation is a function from the records it reads to the
//! records it writes and the token movements it orders.
pub mod address;
pub mod arith;
pub mod circle;
pub mod collateral;
pub mod contracts;
pub mod epoch;
pub mod fx_oracle;
pub mod governance;
pub mod grants;
pub mod liquidity;
pub mod payout;
pub mod susu_lending;
pub mod types;

pub use crate::contracts::SoroSusuContract as SoroSusu;

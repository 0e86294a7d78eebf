//! The contracts whose operations this crate computes. Each is a unit type;
//! its operations are associated functions spread over the modules that
//! hold their rules.
use vstd::prelude::*;

verus! {

/// The savings-circle contract.
pub struct SoroSusuContract;

/// The pot liquidity buffer: advances paid to members ahead of their pot.
pub struct PotLiquidityBuffer;

} // verus!

//! Configuration record of the nominated-trader bootstrapping contract.
//! The migration core never mutates it; it is carried here because the
//! deployment that pre-configures the migration owns one.

use vstd::prelude::*;
use crate::asset::AssetInfo;
use crate::state::Decimal;

verus! {

/// Parameters of the nominated-trader contract.
#[derive(Clone, Debug)]
pub struct Config {
    /// Address that's allowed to change contract parameters.
    pub owner: String,
    /// Address that's allowed to perform swaps and convert fee tokens as
    /// needed.
    pub nominated_trader: String,
    /// Address specified to receive any payouts, usually distinct from the
    /// nominated trader.
    pub beneficiary: String,
    /// The replacement-token contract.
    pub token_contract: AssetInfo,
    /// The destination dex factory contract address.
    pub dex_factory_contract: String,
    /// The maximum spread used when swapping fee tokens.
    pub max_spread: Decimal,
}

} // verus!

//! Verified core of an AMM liquidity-migration contract.
//!
//! The library drives a four-stage migration of liquidity-provider tokens
//! and their stakers from a legacy pool/staking pair to a destination
//! pool/staking pair:
//!
//! 1. withdraw the legacy LP position,
//! 2. convert the two underlying denominations and deposit them into the
//!    destination pool,
//! 3. record the resulting destination-LP balance,
//! 4. redistribute the destination LP to the legacy stakers pro rata,
//!    a bounded batch at a time.
//!
//! Every decision the contract makes is a verified function from the durable
//! migration state and the values reported by the ledger platform to a new
//! state plus a list of structured instructions.  The host shell performs the
//! actual storage reads/writes, queries and message dispatch and feeds the
//! results back in as plain values.

pub mod asset;
pub mod contract;
pub mod laws;
pub mod msg;
pub mod state;
pub mod trader;

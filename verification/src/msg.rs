//! Instruction surface of the migration core: the operations it accepts,
//! the structured instructions it emits for the ledger gateway to execute,
//! and the errors it reports.

use vstd::prelude::*;
use crate::asset::{Asset, Coin, Denom};

verus! {

/// Callback tag of the legacy-LP withdrawal instruction.
pub const REPLY_ONE: u64 = 111;

/// Callback tag of the destination-pool deposit instruction.
pub const REPLY_TWO: u64 = 222;

/// Errors of the migration core.  Every operation aborts wholesale with one
/// of these; no partial instruction emission.
#[derive(Clone, Debug, PartialEq, Eq)]
pub enum ContractError {
    /// Caller is not the configured migrator.
    Unauthorized,
    /// The named destination pool differs from the pinned one, or its
    /// creator is not the expected factory.
    InvalidDestination(String),
    /// Redistribution attempted before the withdrawal/deposit stages
    /// completed.
    TokensNotMigrated,
    /// An awaited external instruction reported failure.
    ErrorReply,
    /// A callback arrived with a tag the core never issued.
    UnknownReply(u64),
    /// The setup entry point is intentionally disabled: the contract is
    /// deployed pre-configured.
    NotImplemented,
}

/// Mutating operations the migrator may trigger.
#[derive(Clone, Debug)]
pub enum ExecuteMsg {
    /// Begin or resume the withdrawal stage towards the named pool.
    MigrateTokens { palomadex_pool: String },
    /// Redistribute up to `limit` stakers (all, if unset).
    MigrateStakers { limit: Option<u32> },
}

/// Unauthenticated queries.
#[derive(Clone, Copy, Debug)]
pub enum QueryMsg {
    /// True iff the legacy staker ledger is empty.
    MigrationFinished,
}

/// A structured outbound instruction for the ledger gateway.  The host
/// shell serializes each into the platform's wire form.
#[derive(Clone, Debug)]
pub enum Instruction {
    /// Grant `spender` an allowance of `amount` on `token`.
    IncreaseAllowance { token: String, spender: String, amount: u128 },
    /// Burn `amount` of `token` held by the orchestrator.
    Burn { token: String, amount: u128 },
    /// Withdraw `amount` of LP from the legacy `pool`, accepting any
    /// received pair (no slippage protection: an internal migration, not a
    /// market trade).
    RemoveLiquidity { pool: String, amount: u128, min_token1: u128, min_token2: u128 },
    /// Deposit `assets` into the destination `pool`, attaching the native
    /// `funds` inline.
    ProvideLiquidity { pool: String, funds: Vec<Coin>, assets: Vec<Asset> },
    /// Send `batch_amount` of `lp_token` to `staking_contract` and delegate
    /// it to the listed stakers for `unbonding_period`, each credited its
    /// exact individual amount.
    MassDelegate {
        lp_token: String,
        staking_contract: String,
        batch_amount: u128,
        unbonding_period: u64,
        delegate_to: Vec<(String, u128)>,
    },
}

/// One emitted instruction, optionally expecting a success-only callback
/// under the given tag.
#[derive(Clone, Debug)]
pub struct SubMsg {
    /// The instruction to execute.
    pub instr: Instruction,
    /// Tag of the success callback to schedule, if any.
    pub reply_on_success: Option<u64>,
}

/// Everything an operation hands back to the gateway: the instructions to
/// execute, in order.
#[derive(Clone, Debug)]
pub struct Response {
    /// Instructions in emission order.
    pub messages: Vec<SubMsg>,
}

impl Response {
    /// A response carrying no instructions.
    pub fn new() -> (r: Response)
        ensures
            r.messages@.len() == 0,
    {
        Response { messages: Vec::new() }
    }
}

/// Query results a success callback carries back into the core, gathered by
/// the host shell before it forwards the callback.
#[derive(Clone, Debug)]
pub enum ReplyData {
    /// After the withdrawal succeeded: the legacy pool's two denominations
    /// and the orchestrator's current balance of each.
    Withdrawn { token1: Denom, token2: Denom, balance1: u128, balance2: u128 },
    /// After the deposit succeeded: the orchestrator's balance of the
    /// destination LP token.
    Deposited { lp_balance: u128 },
}

} // verus!

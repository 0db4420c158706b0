//! The migration orchestrator: the four-stage state machine, its staker
//! redistribution engine, and the callback dispatcher.

use vstd::prelude::*;
use crate::asset::{
    conversion_fits, denom_asset, spec_allowances, spec_burns, spec_converted_assets, spec_funds,
    to_palomadex_assets, DenomDeposits, InfoResponse, prepare_denom_deposits,
};
use crate::laws::{lemma_batch_total_mono, lemma_share_nonneg};
use crate::msg::{
    ContractError, ExecuteMsg, Instruction, QueryMsg, ReplyData, Response, SubMsg, REPLY_ONE,
    REPLY_TWO,
};
use crate::state::{
    claim_total, lemma_seq_sum_nonneg, lemma_seq_sum_take_bound, lemma_seq_sum_take_step,
    seq_sum, MigrateStakersConfig, MigrationState, StakerEntry, StakerLedger,
};

verus! {

/// The destination pool's LP token and staking contract, as the pool
/// reports them when queried.
#[derive(Clone, Debug)]
pub struct PairInfo {
    /// LP token of the destination pool.
    pub liquidity_token: String,
    /// Staking contract paired with the destination pool.
    pub staking_addr: String,
}

/// The caller is the configured migrator: every mutating operation
/// requires this before anything else.
pub open spec fn mt_authorized(s: MigrationState, sender: Seq<char>) -> bool {
    sender == s.migration.migrator@
}

/// The requested destination pool agrees with the pinned one, if a pin
/// exists.
pub open spec fn pin_ok(s: MigrationState, pool: Seq<char>) -> bool {
    match s.migration.palomadex_pool {
        Some(target) => target@ == pool,
        None => true,
    }
}

/// A withdrawal trigger goes through: the caller is the migrator, the pool
/// matches any pin, and the pool was created by the expected factory.
pub open spec fn mt_accepted(
    s: MigrationState,
    sender: Seq<char>,
    pool: Seq<char>,
    creator: Seq<char>,
) -> bool {
    &&& mt_authorized(s, sender)
    &&& pin_ok(s, pool)
    &&& creator == s.migration.factory@
}

/// State transition of a successful withdrawal trigger: the destination is
/// pinned and saved for callback correlation, and the stage record is
/// created with the legacy staked snapshot and no LP total yet.  Nothing
/// else moves.
pub open spec fn mt_applied(
    pre: MigrationState,
    post: MigrationState,
    pool: Seq<char>,
    balance: u128,
    lp_token: Seq<char>,
    staking_addr: Seq<char>,
) -> bool {
    &&& post.migration.migrator == pre.migration.migrator
    &&& post.migration.factory == pre.migration.factory
    &&& post.migration.junoswap_pool == pre.migration.junoswap_pool
    &&& post.migration.unbonding_period == pre.migration.unbonding_period
    &&& post.migration.palomadex_pool matches Some(p) && p@ == pool
    &&& post.migration.migrate_stakers_config matches Some(c) && {
        &&& c.lp_token@ == lp_token
        &&& c.staking_addr@ == staking_addr
        &&& c.total_lp_tokens is None
        &&& c.total_staked == balance
    }
    &&& post.destination matches Some(d) && d@ == pool
    &&& post.exchange == pre.exchange
    &&& post.legacy_lp_token == pre.legacy_lp_token
    &&& post.ledger == pre.ledger
}

/// An allowance grant of exactly `amount` on `token` to `spender`, with no
/// callback expected.
pub open spec fn is_allowance_msg(
    m: SubMsg,
    token: Seq<char>,
    spender: Seq<char>,
    amount: u128,
) -> bool {
    &&& m.instr matches Instruction::IncreaseAllowance { token: t, spender: s, amount: a }
        && t@ == token && s@ == spender && a == amount
    &&& m.reply_on_success is None
}

/// A withdrawal of `amount` LP from `pool` with zero minimum-received on
/// both sides, expecting the stage-one success callback.
pub open spec fn is_withdraw_msg(m: SubMsg, pool: Seq<char>, amount: u128) -> bool {
    &&& m.instr matches Instruction::RemoveLiquidity { pool: p, amount: a, min_token1: m1, min_token2: m2 }
        && p@ == pool && a == amount && m1 == 0 && m2 == 0
    &&& m.reply_on_success == Some(REPLY_ONE)
}

/// The instructions a successful withdrawal trigger emits: an allowance
/// sized exactly to the withdrawn balance, then the withdrawal itself with
/// the stage-one callback scheduled.
pub open spec fn withdraw_response_ok(pre: MigrationState, balance: u128, resp: Response) -> bool {
    &&& resp.messages@.len() == 2
    &&& is_allowance_msg(
        resp.messages@[0],
        pre.legacy_lp_token@,
        pre.migration.junoswap_pool@,
        balance,
    )
    &&& is_withdraw_msg(resp.messages@[1], pre.migration.junoswap_pool@, balance)
}

/// The whole contract of a withdrawal trigger: rejected callers and invalid
/// destinations leave the state untouched and report exactly why; an
/// accepted trigger pins the destination, stages the snapshot, and emits
/// the allowance and withdrawal instructions.
pub open spec fn mt_contract(
    pre: MigrationState,
    post: MigrationState,
    sender: Seq<char>,
    pool: String,
    creator: Seq<char>,
    balance: u128,
    pair: PairInfo,
    r: Result<Response, ContractError>,
) -> bool {
    &&& !mt_authorized(pre, sender) ==> {
        &&& r matches Err(e) && e is Unauthorized
        &&& post == pre
    }
    &&& mt_authorized(pre, sender) && !(pin_ok(pre, pool@) && creator == pre.migration.factory@)
        ==> {
        &&& r matches Err(e) && e matches ContractError::InvalidDestination(p) && p@ == pool@
        &&& post == pre
    }
    &&& mt_accepted(pre, sender, pool@, creator) ==> {
        &&& mt_applied(pre, post, pool@, balance, pair.liquidity_token@, pair.staking_addr@)
        &&& r matches Ok(resp) && withdraw_response_ok(pre, balance, resp)
    }
}

/// Stage-one trigger: pin and validate the destination, snapshot the legacy
/// staked total, and issue the allowance plus LP-withdrawal instructions.
///
/// `pool_creator`, `legacy_lp_balance` and `pair` are the ledger platform's
/// answers to the destination-provenance, LP-balance and pair queries; the
/// host gathers them before calling in.
pub fn migrate_tokens(
    state: &mut MigrationState,
    sender: &String,
    palomadex_pool: String,
    pool_creator: &String,
    legacy_lp_balance: u128,
    pair: PairInfo,
) -> (r: Result<Response, ContractError>)
    ensures
        mt_contract(
            *old(state),
            *final(state),
            sender@,
            palomadex_pool,
            pool_creator@,
            legacy_lp_balance,
            pair,
            r,
        ),
{
    if !(*sender == state.migration.migrator) {
        return Err(ContractError::Unauthorized);
    }

    let pin_matches = match &state.migration.palomadex_pool {
        Some(target) => *target == palomadex_pool,
        None => true,
    };
    if !pin_matches {
        return Err(ContractError::InvalidDestination(palomadex_pool));
    }
    if !(*pool_creator == state.migration.factory) {
        return Err(ContractError::InvalidDestination(palomadex_pool));
    }

    // Pin the destination (and keep it for callback correlation), snapshot
    // the legacy staked total, and stage the redistribution data with the
    // LP total still unknown.
    state.destination = Some(palomadex_pool.clone());
    state.migration.palomadex_pool = Some(palomadex_pool);
    state.migration.migrate_stakers_config = Some(MigrateStakersConfig {
        lp_token: pair.liquidity_token,
        staking_addr: pair.staking_addr,
        total_lp_tokens: None,
        total_staked: legacy_lp_balance,
    });

    // The pool may burn exactly the LP we withdraw, nothing more.
    let allowance = SubMsg {
        instr: Instruction::IncreaseAllowance {
            token: state.legacy_lp_token.clone(),
            spender: state.migration.junoswap_pool.clone(),
            amount: legacy_lp_balance,
        },
        reply_on_success: None,
    };
    let withdraw = SubMsg {
        instr: Instruction::RemoveLiquidity {
            pool: state.migration.junoswap_pool.clone(),
            amount: legacy_lp_balance,
            min_token1: 0,
            min_token2: 0,
        },
        reply_on_success: Some(REPLY_ONE),
    };
    let mut messages: Vec<SubMsg> = Vec::new();
    messages.push(allowance);
    messages.push(withdraw);
    Ok(Response { messages })
}

/// Setup entry point, intentionally disabled: the contract is deployed
/// pre-configured, not instantiated through its own constructor.
pub fn instantiate() -> (r: Result<Response, ContractError>)
    ensures
        r matches Err(e) && e is NotImplemented,
{
    Err(ContractError::NotImplemented)
}

/// Pro-rata share of one whole claim: `floor(claim * lp / staked)`,
/// multiply before divide to minimize rounding loss, strictly truncating.
pub open spec fn share_of(claim: int, lp: u128, staked: u128) -> int {
    claim * lp / (staked as int)
}

/// How many ledger entries one redistribution call processes: up to
/// `limit`, or all `n` when no limit is given.
pub open spec fn spec_batch_len(n: int, limit: Option<u32>) -> int {
    match limit {
        Some(l) => if (l as int) < n { l as int } else { n },
        None => n,
    }
}

/// Total destination LP paid out for the first `k` ledger entries,
/// zero-rounded shares included (they contribute nothing).
pub open spec fn batch_total(l: Seq<StakerEntry>, k: int, lp: u128, staked: u128) -> int
    decreases k,
{
    if k <= 0 {
        0
    } else {
        batch_total(l, k - 1, lp, staked) + share_of(claim_total(l[k - 1]), lp, staked)
    }
}

/// The payout list for the first `k` ledger entries, in ledger order, with
/// shares that round to zero dropped.
pub open spec fn payouts(l: Seq<StakerEntry>, k: int, lp: u128, staked: u128) -> Seq<
    (Seq<char>, u128),
>
    decreases k,
{
    if k <= 0 {
        Seq::empty()
    } else {
        let rest = payouts(l, k - 1, lp, staked);
        let sh = share_of(claim_total(l[k - 1]), lp, staked);
        if sh > 0 {
            rest.push((l[k - 1].addr@, sh as u128))
        } else {
            rest
        }
    }
}

/// View of an executable delegation list as address views and amounts.
pub open spec fn pairs_view(d: Seq<(String, u128)>) -> Seq<(Seq<char>, u128)> {
    d.map(|i: int, p: (String, u128)| (p.0@, p.1))
}

/// A batched delegation: send `amount` of `lp_token` to `staking` and
/// credit each listed staker exactly its listed amount, bonded for
/// `unbonding`, with no callback expected.
pub open spec fn is_mass_delegate_msg(
    m: SubMsg,
    lp_token: Seq<char>,
    staking: Seq<char>,
    amount: int,
    unbonding: u64,
    delegates: Seq<(Seq<char>, u128)>,
) -> bool {
    &&& m.instr matches Instruction::MassDelegate {
        lp_token: t,
        staking_contract: s,
        batch_amount: a,
        unbonding_period: u,
        delegate_to: d,
    } && t@ == lp_token && s@ == staking && a == amount && u == unbonding && pairs_view(d@)
        == delegates
    &&& m.reply_on_success is None
}

/// The machine limits a redistribution call must respect so that no
/// arithmetic step can overflow or divide by zero: each processed claim's
/// scaled value and the batch total fit the word, and the staked snapshot
/// is positive whenever a staker is processed.
pub open spec fn ms_arith_ok(s: MigrationState, limit: Option<u32>) -> bool {
    match s.migration.migrate_stakers_config {
        None => true,
        Some(c) => match c.total_lp_tokens {
            None => true,
            Some(lp) => {
                let l = s.ledger.entries@;
                let k = spec_batch_len(l.len() as int, limit);
                &&& (k > 0 ==> c.total_staked > 0)
                &&& (forall|i: int| 0 <= i < k ==> claim_total(#[trigger] l[i]) * lp <= u128::MAX)
                &&& batch_total(l, k, lp, c.total_staked) <= u128::MAX
            },
        },
    }
}

/// Sum one staker's pending unbonding claims into their staked balance:
/// both represent an economic claim that must be preserved.
fn whole_claim(e: &StakerEntry) -> (r: u128)
    requires
        claim_total(*e) <= u128::MAX,
    ensures
        r == claim_total(*e),
{
    proof {
        lemma_seq_sum_nonneg(e.claims@);
    }
    let mut total: u128 = e.staked;
    let mut j: usize = 0;
    while j < e.claims.len()
        invariant
            j <= e.claims@.len(),
            claim_total(*e) <= u128::MAX,
            total == e.staked + seq_sum(e.claims@.take(j as int)),
        decreases e.claims@.len() - j,
    {
        proof {
            lemma_seq_sum_take_step(e.claims@, j as int);
            lemma_seq_sum_take_bound(e.claims@, j + 1);
            lemma_seq_sum_nonneg(e.claims@.take(j as int));
        }
        total = total + e.claims[j];
        j = j + 1;
    }
    proof {
        assert(e.claims@.take(j as int) =~= e.claims@);
    }
    total
}

/// Enumerate the next `limit` stakers (all, if unset) in the ledger's
/// stable order, each with their whole claim: staked balance plus all
/// pending unbonding claims.
pub fn find_stakers(ledger: &StakerLedger, limit: Option<u32>) -> (r: Vec<(String, u128)>)
    requires
        ledger.wf(),
    ensures
        r@.len() == spec_batch_len(ledger.entries@.len() as int, limit),
        forall|i: int|
            0 <= i < r@.len() ==> (#[trigger] r@[i]).0@ == ledger.entries@[i].addr@ && r@[i].1
                == claim_total(ledger.entries@[i]),
{
    let n = ledger.entries.len();
    let k: usize = match limit {
        Some(l) => {
            let lu = l as usize;
            if lu < n {
                lu
            } else {
                n
            }
        },
        None => n,
    };
    let mut out: Vec<(String, u128)> = Vec::new();
    let mut i: usize = 0;
    while i < k
        invariant
            ledger.wf(),
            i <= k,
            k == spec_batch_len(ledger.entries@.len() as int, limit),
            k <= ledger.entries@.len(),
            out@.len() == i,
            forall|m: int|
                0 <= m < i ==> (#[trigger] out@[m]).0@ == ledger.entries@[m].addr@ && out@[m].1
                    == claim_total(ledger.entries@[m]),
        decreases k - i,
    {
        let e = &ledger.entries[i];
        let total = whole_claim(e);
        out.push((e.addr.clone(), total));
        i = i + 1;
    }
    out
}

/// Delete the first `count` ledger entries: the at-most-once guard.  A
/// removed staker no longer exists for any later pagination call.
pub fn remove_stakers(ledger: &mut StakerLedger, count: usize)
    requires
        count <= old(ledger).entries@.len(),
    ensures
        final(ledger).entries@ == old(ledger).entries@.skip(count as int),
        old(ledger).wf() ==> final(ledger).wf(),
{
    let mut i: usize = 0;
    while i < count
        invariant
            i <= count,
            count <= old(ledger).entries@.len(),
            ledger.entries@ == old(ledger).entries@.skip(i as int),
        decreases count - i,
    {
        let _ = ledger.entries.remove(0);
        proof {
            assert(ledger.entries@ =~= old(ledger).entries@.skip(i + 1));
        }
        i = i + 1;
    }
    proof {
        if old(ledger).wf() {
            let pre = old(ledger).entries@;
            let post = ledger.entries@;
            assert forall|a: int, b: int| 0 <= a < b < post.len() implies post[a].addr@
                != post[b].addr@ by {
                assert(post[a] == pre[a + count]);
                assert(post[b] == pre[b + count]);
            }
            assert forall|a: int, b: int| 0 <= a < b < post.len() implies crate::state::addr_lt(
                post[a].addr@,
                post[b].addr@,
            ) by {
                assert(post[a] == pre[a + count]);
                assert(post[b] == pre[b + count]);
            }
            assert forall|a: int| 0 <= a < post.len() implies claim_total(#[trigger] post[a])
                <= u128::MAX by {
                assert(post[a] == pre[a + count]);
            }
        }
    }
}

/// One redistribution batch: drain up to `limit` stakers from the legacy
/// ledger, convert each whole claim to a destination-LP share at the fixed
/// ratio `total_lp_tokens / total_staked` (floor), drop zero shares, and
/// issue one batched delegation covering the whole batch.
/// The whole contract of a redistribution call: an unauthorized caller is
/// refused, and so is any call before both the withdrawal and the deposit
/// stage completed — the stage record must exist *and* hold a recorded LP
/// total — in each case with the state untouched and the exact error; an
/// accepted call removes exactly the processed batch from the ledger and
/// emits one batched delegation carrying each processed staker's floor
/// share, zero shares dropped.
pub open spec fn ms_contract(
    pre: MigrationState,
    post: MigrationState,
    sender: Seq<char>,
    limit: Option<u32>,
    r: Result<Response, ContractError>,
) -> bool {
    &&& !mt_authorized(pre, sender) ==> {
        &&& r matches Err(e) && e is Unauthorized
        &&& post == pre
    }
    &&& mt_authorized(pre, sender) ==> match pre.migration.migrate_stakers_config {
        None => {
            &&& r matches Err(e) && e is TokensNotMigrated
            &&& post == pre
        },
        Some(c) => match c.total_lp_tokens {
            None => {
                &&& r matches Err(e) && e is TokensNotMigrated
                &&& post == pre
            },
            Some(lp) => {
                let l = pre.ledger.entries@;
                let k = spec_batch_len(l.len() as int, limit);
                &&& post.ledger.entries@ == l.skip(k)
                &&& post.ledger.wf()
                &&& post.migration == pre.migration
                &&& post.destination == pre.destination
                &&& post.exchange == pre.exchange
                &&& post.legacy_lp_token == pre.legacy_lp_token
                &&& r matches Ok(resp) && resp.messages@.len() == 1 && is_mass_delegate_msg(
                    resp.messages@[0],
                    c.lp_token@,
                    c.staking_addr@,
                    batch_total(l, k, lp, c.total_staked),
                    pre.migration.unbonding_period,
                    payouts(l, k, lp, c.total_staked),
                )
            },
        },
    }
}

pub fn migrate_stakers(state: &mut MigrationState, sender: &String, limit: Option<u32>) -> (r:
    Result<Response, ContractError>)
    requires
        old(state).ledger.wf(),
        mt_authorized(*old(state), sender@) ==> ms_arith_ok(*old(state), limit),
    ensures
        ms_contract(*old(state), *final(state), sender@, limit, r),
{
    if !(*sender == state.migration.migrator) {
        return Err(ContractError::Unauthorized);
    }
    // both stages must be complete: the record staged at withdrawal, and
    // the LP total recorded by the deposit callback
    let (lp_token, staking_addr, total_lp_tokens, total_staked) = match &state
        .migration
        .migrate_stakers_config {
        None => {
            return Err(ContractError::TokensNotMigrated);
        },
        Some(c) => match c.total_lp_tokens {
            None => {
                return Err(ContractError::TokensNotMigrated);
            },
            Some(lp) => (c.lp_token.clone(), c.staking_addr.clone(), lp, c.total_staked),
        },
    };

    // calculate next `limit` stakers and their whole claims
    let stakers = find_stakers(&state.ledger, limit);
    let k = stakers.len();
    let ghost l = state.ledger.entries@;

    // remove the processed stakers from the ledger before paying them:
    // their entries no longer exist for subsequent pagination calls
    remove_stakers(&mut state.ledger, k);

    let mut delegate_to: Vec<(String, u128)> = Vec::new();
    let mut batch_lp: u128 = 0;
    let mut i: usize = 0;
    while i < k
        invariant
            i <= k,
            k == spec_batch_len(l.len() as int, limit),
            k <= l.len(),
            k > 0 ==> total_staked > 0,
            stakers@.len() == k,
            forall|m: int|
                0 <= m < k ==> (#[trigger] stakers@[m]).0@ == l[m].addr@ && stakers@[m].1
                    == claim_total(l[m]),
            forall|m: int|
                0 <= m < k ==> claim_total(#[trigger] l[m]) * total_lp_tokens <= u128::MAX,
            batch_total(l, k as int, total_lp_tokens, total_staked) <= u128::MAX,
            batch_lp == batch_total(l, i as int, total_lp_tokens, total_staked),
            pairs_view(delegate_to@) == payouts(l, i as int, total_lp_tokens, total_staked),
        decreases k - i,
    {
        let claim = stakers[i].1;
        proof {
            lemma_share_nonneg(claim as int, total_lp_tokens, total_staked);
            lemma_batch_total_mono(l, i + 1, k as int, total_lp_tokens, total_staked);
        }
        let share = claim * total_lp_tokens / total_staked;
        if share > 0 {
            let addr = stakers[i].0.clone();
            delegate_to.push((addr, share));
            proof {
                assert(pairs_view(delegate_to@) =~= payouts(
                    l, i + 1, total_lp_tokens, total_staked,
                ));
            }
        }
        batch_lp = batch_lp + share;
        i = i + 1;
    }

    // bonding carries full info on who receives the delegation
    let delegate = SubMsg {
        instr: Instruction::MassDelegate {
            lp_token,
            staking_contract: staking_addr,
            batch_amount: batch_lp,
            unbonding_period: state.migration.unbonding_period,
            delegate_to,
        },
        reply_on_success: None,
    };
    let mut messages: Vec<SubMsg> = Vec::new();
    messages.push(delegate);
    Ok(Response { messages })
}

/// The instructions a withdrawal-success callback emits: the burns and
/// allowance grants conversion owes, each expecting no callback, then the
/// destination deposit naming the two converted assets and attaching the
/// native funds inline, with the stage-two callback scheduled and no
/// slippage tolerance.
pub open spec fn deposit_response_ok(
    s: MigrationState,
    info: InfoResponse,
    balance1: u128,
    balance2: u128,
    resp: Response,
) -> bool {
    let assets = seq![
        denom_asset(info.token1_denom, balance1),
        denom_asset(info.token2_denom, balance2),
    ];
    let conv = spec_converted_assets(assets, s.exchange);
    let pre = spec_burns(assets, s.exchange) + spec_allowances(conv, s.destination->Some_0);
    &&& resp.messages@.len() == pre.len() + 1
    &&& forall|i: int|
        0 <= i < pre.len() ==> (#[trigger] resp.messages@[i]).instr == pre[i]
            && resp.messages@[i].reply_on_success is None
    &&& resp.messages@[pre.len() as int].instr matches Instruction::ProvideLiquidity {
        pool,
        funds,
        assets: dep_assets,
    } && pool == s.destination->Some_0 && funds@ == spec_funds(conv) && dep_assets@ == conv
    &&& resp.messages@[pre.len() as int].reply_on_success == Some(REPLY_TWO)
}

/// Stage-one callback: the withdrawal succeeded.  Convert the legacy
/// pool's two denominations to destination assets (retiring the deprecated
/// token) and issue the allowance instructions plus the deposit into the
/// pinned destination.  The state does not move; only the deposit callback
/// commits the next step.
///
/// `info` is the legacy pool's answer to its info query; `balance1` and
/// `balance2` are the orchestrator's reported balances of the two
/// denominations.
pub fn reply_one(
    state: &MigrationState,
    info: InfoResponse,
    balance1: u128,
    balance2: u128,
) -> (r: Result<Response, ContractError>)
    requires
        state.destination is Some,
        conversion_fits(
            seq![
                denom_asset(info.token1_denom, balance1),
                denom_asset(info.token2_denom, balance2),
            ],
            state.exchange,
        ),
    ensures
        r matches Ok(resp) && deposit_response_ok(*state, info, balance1, balance2, resp),
{
    let destination = match &state.destination {
        Some(d) => d.clone(),
        None => {
            proof {
                assert(false);
            }
            return Err(ContractError::ErrorReply);
        },
    };

    // resolve the two legacy denominations to canonical assets
    let assets = to_palomadex_assets(info, balance1, balance2);
    proof {
        assert(assets@ =~= seq![
            denom_asset(info.token1_denom, balance1),
            denom_asset(info.token2_denom, balance2),
        ]);
    }

    // figure out how to transfer them: prior allowances for token-type
    // assets, inline native funds on the deposit call itself
    let DenomDeposits { allowances, funds, new_assets } = prepare_denom_deposits(
        &destination,
        &assets,
        &state.exchange,
    );

    let ghost pre = allowances@;
    let mut messages: Vec<SubMsg> = Vec::new();
    let mut rest = allowances;
    while rest.len() > 0
        invariant
            messages@.len() + rest@.len() == pre.len(),
            rest@ == pre.skip(messages@.len() as int),
            forall|i: int|
                0 <= i < messages@.len() ==> (#[trigger] messages@[i]).instr == pre[i]
                    && messages@[i].reply_on_success is None,
        decreases rest@.len(),
    {
        let ghost done = messages@.len() as int;
        let ins = rest.remove(0);
        messages.push(SubMsg { instr: ins, reply_on_success: None });
        proof {
            assert(rest@ =~= pre.skip(done + 1));
        }
    }

    let deposit = SubMsg {
        instr: Instruction::ProvideLiquidity {
            pool: destination,
            funds,
            assets: new_assets,
        },
        reply_on_success: Some(REPLY_TWO),
    };
    messages.push(deposit);
    Ok(Response { messages })
}

/// The only state movement of the deposit callback: the stage record's LP
/// total is set to the freshly read balance; nothing else moves.
pub open spec fn stage_recorded(
    pre: MigrationState,
    post: MigrationState,
    lp_balance: u128,
) -> bool {
    &&& pre.migration.migrate_stakers_config matches Some(c0)
        && post.migration.migrate_stakers_config matches Some(c1) && {
        &&& c1.lp_token == c0.lp_token
        &&& c1.staking_addr == c0.staking_addr
        &&& c1.total_staked == c0.total_staked
        &&& c1.total_lp_tokens == Some(lp_balance)
    }
    &&& post.migration.migrator == pre.migration.migrator
    &&& post.migration.factory == pre.migration.factory
    &&& post.migration.junoswap_pool == pre.migration.junoswap_pool
    &&& post.migration.unbonding_period == pre.migration.unbonding_period
    &&& post.migration.palomadex_pool == pre.migration.palomadex_pool
    &&& post.destination == pre.destination
    &&& post.exchange == pre.exchange
    &&& post.legacy_lp_token == pre.legacy_lp_token
    &&& post.ledger == pre.ledger
}

/// Stage-two callback: the deposit succeeded.  Persist the destination-LP
/// balance now held by the orchestrator as the redistribution numerator.
/// Emits no further instructions.
///
/// `lp_balance` is the orchestrator's reported balance of the destination
/// LP token.
pub fn reply_two(state: &mut MigrationState, lp_balance: u128) -> (r: Result<
    Response,
    ContractError,
>)
    requires
        old(state).migration.migrate_stakers_config is Some,
    ensures
        stage_recorded(*old(state), *final(state), lp_balance),
        r matches Ok(resp) && resp.messages@.len() == 0,
{
    let (lp_token, staking_addr, total_staked) = match &state.migration.migrate_stakers_config {
        Some(c) => (c.lp_token.clone(), c.staking_addr.clone(), c.total_staked),
        None => {
            proof {
                assert(false);
            }
            return Err(ContractError::ErrorReply);
        },
    };
    state.migration.migrate_stakers_config = Some(MigrateStakersConfig {
        lp_token,
        staking_addr,
        total_lp_tokens: Some(lp_balance),
        total_staked,
    });
    Ok(Response::new())
}

/// Callback entry point.  A failure report is fatal (`ErrorReply`, no
/// automatic retry); the two fixed tags route a success to its stage; an
/// unrecognized tag is a fatal `UnknownReply`, guarding against
/// cross-wiring if more asynchronous steps are ever added.
pub fn reply(state: &mut MigrationState, id: u64, success: bool, data: ReplyData) -> (r: Result<
    Response,
    ContractError,
>)
    requires
        success && id == REPLY_ONE ==> {
            &&& old(state).destination is Some
            &&& data matches ReplyData::Withdrawn { token1, token2, balance1, balance2 }
                && conversion_fits(
                seq![denom_asset(token1, balance1), denom_asset(token2, balance2)],
                old(state).exchange,
            )
        },
        success && id == REPLY_TWO ==> old(state).migration.migrate_stakers_config is Some
            && data is Deposited,
    ensures
        !success ==> {
            &&& r matches Err(e) && e is ErrorReply
            &&& *final(state) == *old(state)
        },
        success && id == REPLY_ONE ==> {
            &&& *final(state) == *old(state)
            &&& data matches ReplyData::Withdrawn { token1, token2, balance1, balance2 }
                && r matches Ok(resp) && deposit_response_ok(
                *old(state),
                InfoResponse { token1_denom: token1, token2_denom: token2 },
                balance1,
                balance2,
                resp,
            )
        },
        success && id == REPLY_TWO ==> (data matches ReplyData::Deposited { lp_balance } && {
            &&& stage_recorded(*old(state), *final(state), lp_balance)
            &&& r matches Ok(resp) && resp.messages@.len() == 0
        }),
        success && id != REPLY_ONE && id != REPLY_TWO ==> {
            &&& r matches Err(e) && e matches ContractError::UnknownReply(x) && x == id
            &&& *final(state) == *old(state)
        },
{
    if !success {
        return Err(ContractError::ErrorReply);
    }
    if id == REPLY_ONE {
        match data {
            ReplyData::Withdrawn { token1, token2, balance1, balance2 } => {
                reply_one(
                    state,
                    InfoResponse { token1_denom: token1, token2_denom: token2 },
                    balance1,
                    balance2,
                )
            },
            ReplyData::Deposited { .. } => {
                proof {
                    assert(false);
                }
                Err(ContractError::ErrorReply)
            },
        }
    } else if id == REPLY_TWO {
        match data {
            ReplyData::Deposited { lp_balance } => reply_two(state, lp_balance),
            ReplyData::Withdrawn { .. } => {
                proof {
                    assert(false);
                }
                Err(ContractError::ErrorReply)
            },
        }
    } else {
        Err(ContractError::UnknownReply(id))
    }
}

/// Authenticated entry point: dispatch a migrator operation.
///
/// `pool_creator`, `legacy_lp_balance` and `pair` are the platform's query
/// answers a withdrawal trigger consumes; a redistribution call ignores
/// them.
pub fn execute(
    state: &mut MigrationState,
    sender: &String,
    msg: ExecuteMsg,
    pool_creator: &String,
    legacy_lp_balance: u128,
    pair: PairInfo,
) -> (r: Result<Response, ContractError>)
    requires
        msg matches ExecuteMsg::MigrateStakers { limit } ==> old(state).ledger.wf() && (
        mt_authorized(*old(state), sender@) ==> ms_arith_ok(*old(state), limit)),
    ensures
        msg matches ExecuteMsg::MigrateTokens { palomadex_pool } ==> mt_contract(
            *old(state),
            *final(state),
            sender@,
            palomadex_pool,
            pool_creator@,
            legacy_lp_balance,
            pair,
            r,
        ),
        msg matches ExecuteMsg::MigrateStakers { limit } ==> ms_contract(
            *old(state),
            *final(state),
            sender@,
            limit,
            r,
        ),
{
    match msg {
        ExecuteMsg::MigrateTokens { palomadex_pool } => {
            migrate_tokens(state, sender, palomadex_pool, pool_creator, legacy_lp_balance, pair)
        },
        ExecuteMsg::MigrateStakers { limit } => migrate_stakers(state, sender, limit),
    }
}

/// Unauthenticated query entry point.  The migration is finished exactly
/// when the legacy staker ledger has no entries left, however many
/// redistribution batches preceded the query.
pub fn query(state: &MigrationState, msg: QueryMsg) -> (r: Result<bool, ContractError>)
    ensures
        r matches Ok(finished) && finished == (state.ledger.entries@.len() == 0),
{
    match msg {
        QueryMsg::MigrationFinished => Ok(state.ledger.entries.len() == 0),
    }
}

} // verus!

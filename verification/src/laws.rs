//! Proved laws of the migration core: floor-rounding bounds on the
//! pro-rata payout, at-most-once payment of every staker, and the
//! destination-pin guarantee.

use vstd::prelude::*;
use vstd::arithmetic::div_mod::{
    lemma_div_is_ordered, lemma_div_multiples_vanish, lemma_div_pos_is_pos,
    lemma_fundamental_div_mod,
};
use vstd::arithmetic::mul::{
    lemma_mul_inequality, lemma_mul_is_distributive_add_other_way, lemma_mul_nonnegative,
};
use crate::asset::{
    is_raw_asset, spec_allowances, spec_converted, spec_converted_assets, Asset,
};
use crate::contract::{
    batch_total, mt_accepted, mt_applied, mt_authorized, payouts, pin_ok, share_of,
    spec_batch_len,
};
use crate::msg::Instruction;
use crate::state::{
    claim_total, distinct_addrs, ledger_claims, lemma_seq_sum_nonneg, ExchangeConfig,
    MigrationState, StakerEntry,
};

verus! {

/// A pro-rata share is never negative.
pub proof fn lemma_share_nonneg(claim: int, lp: u128, staked: u128)
    requires
        0 <= claim,
        staked > 0,
    ensures
        share_of(claim, lp, staked) >= 0,
{
    lemma_mul_nonnegative(claim, lp as int);
    lemma_div_pos_is_pos(claim * lp, staked as int);
}

/// Once a successful withdrawal trigger has pinned a destination pool, a
/// later trigger naming any different pool fails the pin check — by the
/// withdrawal trigger's contract it is rejected as an invalid destination
/// before any state moves or any instruction is issued.
pub proof fn lemma_destination_pinned(
    pre: MigrationState,
    post: MigrationState,
    sender: Seq<char>,
    pool_a: Seq<char>,
    creator_a: Seq<char>,
    balance: u128,
    lp_token: Seq<char>,
    staking_addr: Seq<char>,
    pool_b: Seq<char>,
)
    requires
        mt_accepted(pre, sender, pool_a, creator_a),
        mt_applied(pre, post, pool_a, balance, lp_token, staking_addr),
        pool_b != pool_a,
    ensures
        mt_authorized(post, sender),
        !pin_ok(post, pool_b),
{
}

/// Every address a batch pays out appears among the first `k` entries of
/// the ledger the batch was computed from.
pub proof fn lemma_payout_addrs_from_ledger(l: Seq<StakerEntry>, k: int, lp: u128, staked: u128)
    requires
        0 <= k <= l.len(),
    ensures
        forall|p: int|
            0 <= p < payouts(l, k, lp, staked).len() ==> exists|j: int|
                0 <= j < k && #[trigger] payouts(l, k, lp, staked)[p].0 == l[j].addr@,
    decreases k,
{
    if k > 0 {
        lemma_payout_addrs_from_ledger(l, k - 1, lp, staked);
        let prev = payouts(l, k - 1, lp, staked);
        let cur = payouts(l, k, lp, staked);
        assert forall|p: int| 0 <= p < cur.len() implies exists|j: int|
            0 <= j < k && #[trigger] cur[p].0 == l[j].addr@ by {
            if p < prev.len() {
                let j = choose|j: int| 0 <= j < k - 1 && prev[p].0 == l[j].addr@;
                assert(cur[p].0 == l[j].addr@);
            } else {
                assert(cur[p].0 == l[k - 1].addr@);
            }
        }
    }
}

/// Redistribution is idempotent with respect to already-processed stakers:
/// once a batch of `k` entries is removed from a ledger without duplicate
/// addresses, a removed staker's address neither appears in the remaining
/// ledger nor receives a payout in any later batch drawn from it.
pub proof fn lemma_staker_paid_at_most_once(
    l: Seq<StakerEntry>,
    k: int,
    i: int,
    k2: int,
    lp: u128,
    staked: u128,
)
    requires
        distinct_addrs(l),
        0 <= i < k <= l.len(),
        0 <= k2 <= l.skip(k).len(),
    ensures
        forall|j: int| 0 <= j < l.skip(k).len() ==> (#[trigger] l.skip(k)[j]).addr@ != l[i].addr@,
        forall|p: int|
            0 <= p < payouts(l.skip(k), k2, lp, staked).len() ==> (#[trigger] payouts(
                l.skip(k),
                k2,
                lp,
                staked,
            )[p]).0 != l[i].addr@,
{
    let rest = l.skip(k);
    assert forall|j: int| 0 <= j < rest.len() implies (#[trigger] rest[j]).addr@
        != l[i].addr@ by {
        assert(rest[j] == l[j + k]);
    }
    lemma_payout_addrs_from_ledger(rest, k2, lp, staked);
    assert forall|p: int| 0 <= p < payouts(rest, k2, lp, staked).len() implies (#[trigger] payouts(
        rest,
        k2,
        lp,
        staked,
    )[p]).0 != l[i].addr@ by {
        let j = choose|j: int| 0 <= j < k2 && payouts(rest, k2, lp, staked)[p].0 == rest[j].addr@;
        assert(rest[j] == l[j + k]);
    }
}

/// Two ledgers that agree on their first `m` entries yield the same batch
/// total for any batch of at most `m` stakers.
proof fn lemma_batch_total_prefix(l1: Seq<StakerEntry>, l2: Seq<StakerEntry>, m: int, lp: u128, staked: u128)
    requires
        0 <= m <= l1.len(),
        m <= l2.len(),
        forall|i: int| 0 <= i < m ==> l1[i] == l2[i],
    ensures
        batch_total(l1, m, lp, staked) == batch_total(l2, m, lp, staked),
    decreases m,
{
    if m > 0 {
        lemma_batch_total_prefix(l1, l2, m - 1, lp, staked);
    }
}

/// Splitting the ledger anywhere splits the total payout: what the whole
/// ledger would pay equals what the first batch pays plus what the
/// remaining ledger would pay.  Applied batch after batch, the payouts of
/// any partition of the staker set into batches of arbitrary sizes sum to
/// the whole ledger's payout.
pub proof fn lemma_batch_split(l: Seq<StakerEntry>, k: int, lp: u128, staked: u128)
    requires
        0 <= k <= l.len(),
    ensures
        batch_total(l, l.len() as int, lp, staked) == batch_total(l, k, lp, staked) + batch_total(
            l.skip(k),
            l.skip(k).len() as int,
            lp,
            staked,
        ),
{
    lemma_batch_split_upto(l, k, l.len() as int, lp, staked);
}

/// The first `m` entries pay what the first batch of `k` pays plus what
/// the next `m - k` entries of the remaining ledger pay.
proof fn lemma_batch_split_upto(l: Seq<StakerEntry>, k: int, m: int, lp: u128, staked: u128)
    requires
        0 <= k <= m <= l.len(),
    ensures
        batch_total(l, m, lp, staked) == batch_total(l, k, lp, staked) + batch_total(
            l.skip(k),
            m - k,
            lp,
            staked,
        ),
    decreases m - k,
{
    if m > k {
        lemma_batch_split_upto(l, k, m - 1, lp, staked);
        assert(l.skip(k)[m - 1 - k] == l[m - 1]);
    }
}

/// What a run of redistribution calls pays in total: each call processes
/// a batch of up to its limit (all, if unset) and the next call starts
/// from the ledger that remains.
pub open spec fn batches_paid(
    l: Seq<StakerEntry>,
    limits: Seq<Option<u32>>,
    lp: u128,
    staked: u128,
) -> int
    decreases limits.len(),
{
    if limits.len() == 0 {
        0
    } else {
        let k = spec_batch_len(l.len() as int, limits[0]);
        batch_total(l, k, lp, staked) + batches_paid(l.skip(k), limits.skip(1), lp, staked)
    }
}

/// However the staker set is partitioned into batches, the run never pays
/// more than draining the whole ledger at once would.
proof fn lemma_batches_le_full(l: Seq<StakerEntry>, limits: Seq<Option<u32>>, lp: u128, staked: u128)
    requires
        staked > 0,
    ensures
        batches_paid(l, limits, lp, staked) <= batch_total(l, l.len() as int, lp, staked),
    decreases limits.len(),
{
    if limits.len() == 0 {
        lemma_batch_total_mono(l, 0, l.len() as int, lp, staked);
    } else {
        let k = spec_batch_len(l.len() as int, limits[0]);
        lemma_batches_le_full(l.skip(k), limits.skip(1), lp, staked);
        lemma_batch_split(l, k, lp, staked);
    }
}

/// Floor-rounding invariant over a whole run: for any partition of the
/// staker set into batches of arbitrary limit values, the sum over all
/// batches of the per-staker LP amounts never exceeds the destination-LP
/// total, as long as the ledger's total claim does not exceed the staked
/// snapshot.
pub proof fn lemma_partition_payout_bounded(
    l: Seq<StakerEntry>,
    limits: Seq<Option<u32>>,
    lp: u128,
    staked: u128,
)
    requires
        staked > 0,
        ledger_claims(l) <= staked,
    ensures
        batches_paid(l, limits, lp, staked) <= lp,
{
    lemma_batches_le_full(l, limits, lp, staked);
    lemma_total_payout_bounded(l, lp, staked);
}

/// A ledger's total claim is never negative.
pub proof fn lemma_ledger_claims_nonneg(l: Seq<StakerEntry>)
    ensures
        ledger_claims(l) >= 0,
    decreases l.len(),
{
    if l.len() > 0 {
        lemma_ledger_claims_nonneg(l.drop_last());
        lemma_seq_sum_nonneg(l.last().claims@);
    }
}

/// The whole ledger's payout is at most its total claim scaled by the
/// fixed ratio, floored.
proof fn lemma_batch_le_scaled(l: Seq<StakerEntry>, lp: u128, staked: u128)
    requires
        staked > 0,
    ensures
        batch_total(l, l.len() as int, lp, staked) <= ledger_claims(l) * lp / (staked as int),
    decreases l.len(),
{
    let n = l.len() as int;
    if n == 0 {
        assert(0 * lp == 0) by (nonlinear_arith);
        assert(0int / (staked as int) == 0) by (nonlinear_arith)
            requires
                staked > 0,
        ;
    } else {
        let front = l.drop_last();
        let last = l.last();
        let c = claim_total(last);
        lemma_seq_sum_nonneg(last.claims@);
        lemma_ledger_claims_nonneg(front);
        lemma_batch_le_scaled(front, lp, staked);
        lemma_batch_total_prefix(l, front, n - 1, lp, staked);
        lemma_mul_nonnegative(ledger_claims(front), lp as int);
        lemma_mul_nonnegative(c, lp as int);
        lemma_div_superadditive(ledger_claims(front) * lp, c * lp, staked as int);
        lemma_mul_is_distributive_add_other_way(lp as int, ledger_claims(front), c);
        assert(ledger_claims(front) * lp + c * lp == ledger_claims(l) * lp);
    }
}

/// Floor-rounding invariant of redistribution: as long as the ledger's
/// total claim does not exceed the staked snapshot (the snapshot equals
/// the exact amount withdrawn, which backs every claim), the whole
/// ledger's payout — and with the split law, the sum of per-staker
/// amounts over all batches of any partition — never exceeds the
/// destination-LP total.  Rounding dust is an accepted, bounded loss; it
/// is never overpaid.
pub proof fn lemma_total_payout_bounded(l: Seq<StakerEntry>, lp: u128, staked: u128)
    requires
        staked > 0,
        ledger_claims(l) <= staked,
    ensures
        batch_total(l, l.len() as int, lp, staked) <= lp,
{
    lemma_batch_le_scaled(l, lp, staked);
    lemma_ledger_claims_nonneg(l);
    lemma_mul_inequality(ledger_claims(l), staked as int, lp as int);
    lemma_div_is_ordered(ledger_claims(l) * lp, (staked as int) * lp, staked as int);
    lemma_div_multiples_vanish(lp as int, staked as int);
    assert((staked as int) * (lp as int) == (staked as int) * lp);
}

/// Conversion leaves no deprecated-token asset behind: a deprecated asset
/// becomes a replacement-token asset, and every other asset was not the
/// deprecated token to begin with.
pub proof fn lemma_converted_not_raw(a: Asset, ex: ExchangeConfig)
    requires
        ex.wf(),
    ensures
        !is_raw_asset(spec_converted(a, ex), ex),
{
}

/// No allowance prepared for assets that are free of the deprecated token
/// ever names the deprecated token.
proof fn lemma_allowances_not_raw(conv: Seq<Asset>, ex: ExchangeConfig, dest: String)
    requires
        forall|i: int| 0 <= i < conv.len() ==> !is_raw_asset(#[trigger] conv[i], ex),
    ensures
        forall|i: int|
            0 <= i < spec_allowances(conv, dest).len() ==> ((#[trigger] spec_allowances(
                conv,
                dest,
            )[i]) matches Instruction::IncreaseAllowance { token, .. } ==> token@
                != ex.raw_token@),
    decreases conv.len(),
{
    if conv.len() > 0 {
        assert(conv.skip(1).len() == conv.len() - 1);
        assert forall|i: int| 0 <= i < conv.skip(1).len() implies !is_raw_asset(
            #[trigger] conv.skip(1)[i],
            ex,
        ) by {
            assert(conv.skip(1)[i] == conv[i + 1]);
        }
        lemma_allowances_not_raw(conv.skip(1), ex, dest);
    }
}

/// The deprecated token is retired, never forwarded: after conversion the
/// prepared allowance instructions never grant an allowance for the
/// deprecated token itself — it is burned, and only its replacement (or an
/// untouched other token) is granted to the destination.
pub proof fn lemma_raw_never_allowed(assets: Seq<Asset>, ex: ExchangeConfig, dest: String)
    requires
        ex.wf(),
    ensures
        forall|i: int|
            0 <= i < spec_allowances(spec_converted_assets(assets, ex), dest).len() ==> ((
            #[trigger] spec_allowances(spec_converted_assets(assets, ex), dest)[i]) matches
                Instruction::IncreaseAllowance { token, .. } ==> token@ != ex.raw_token@),
{
    let conv = spec_converted_assets(assets, ex);
    assert forall|i: int| 0 <= i < conv.len() implies !is_raw_asset(#[trigger] conv[i], ex) by {
        lemma_converted_not_raw(assets[i], ex);
    }
    lemma_allowances_not_raw(conv, ex, dest);
}

/// A batch total only grows as the batch takes in more stakers.
pub proof fn lemma_batch_total_mono(l: Seq<StakerEntry>, i: int, k: int, lp: u128, staked: u128)
    requires
        0 <= i <= k <= l.len(),
        staked > 0,
    ensures
        batch_total(l, i, lp, staked) <= batch_total(l, k, lp, staked),
    decreases k - i,
{
    if i < k {
        lemma_seq_sum_nonneg(l[k - 1].claims@);
        lemma_share_nonneg(claim_total(l[k - 1]), lp, staked);
        lemma_batch_total_mono(l, i, k - 1, lp, staked);
    }
}

/// Integer division distributes sub-additively over addition: the floors of
/// two shares never exceed the floor of their sum.
pub proof fn lemma_div_superadditive(a: int, b: int, d: int)
    requires
        0 <= a,
        0 <= b,
        0 < d,
    ensures
        a / d + b / d <= (a + b) / d,
{
    lemma_fundamental_div_mod(a, d);
    lemma_fundamental_div_mod(b, d);
    assert((a / d + b / d) * d <= a + b) by (nonlinear_arith)
        requires
            a == d * (a / d) + a % d,
            b == d * (b / d) + b % d,
            0 <= a % d,
            0 <= b % d,
    ;
    assert(((a / d + b / d) * d) / d == a / d + b / d) by (nonlinear_arith)
        requires
            0 < d,
    ;
    lemma_div_is_ordered((a / d + b / d) * d, a + b, d);
}

} // verus!

//! Durable state of the migration: configuration, the staged intermediate
//! results, the exchange-rate setup for the deprecated token, and the legacy
//! staker ledger the redistribution engine drains.

use vstd::prelude::*;
use vstd::arithmetic::div_mod::{
    lemma_fundamental_div_mod, lemma_fundamental_div_mod_converse_div,
    lemma_mod_division_less_than_divisor,
};
use vstd::arithmetic::mul::lemma_mul_nonnegative;

verus! {

/// Number of fractional atomics in one whole unit of a fixed-point rate:
/// rates carry eighteen decimal places.
pub const DECIMAL_FRACTIONAL: u128 = 1_000_000_000_000_000_000;

/// A non-negative fixed-point number with eighteen decimal places, stored as
/// its atomics.  `atomics = 1_500_000_000_000_000_000` means a rate of 1.5.
#[derive(Clone, Copy, PartialEq, Eq, Structural, Debug)]
pub struct Decimal {
    pub atomics: u128,
}

/// `floor(amount * rate)` in whole atomics: the exact value an amount of
/// tokens converts to under a fixed-point rate, rounded down.
pub open spec fn spec_mul_floor(amount: u128, rate: Decimal) -> int {
    (amount * rate.atomics) / (DECIMAL_FRACTIONAL as int)
}

impl Decimal {
    /// Build a rate from its atomics.
    pub fn raw(atomics: u128) -> (r: Decimal)
        ensures
            r.atomics == atomics,
    {
        Decimal { atomics }
    }

    /// Multiply an amount by this rate, truncating (floor) to whole
    /// atomics.  The amount is split into whole units and a sub-unit rest,
    /// so only the rest (below one unit) is ever scaled by the full
    /// atomics; the result itself must fit the word, as it must on the
    /// ledger platform too.
    pub fn mul_floor(&self, amount: u128) -> (r: u128)
        requires
            (amount % DECIMAL_FRACTIONAL) * self.atomics <= u128::MAX,
            spec_mul_floor(amount, *self) <= u128::MAX,
        ensures
            r == spec_mul_floor(amount, *self),
    {
        proof {
            lemma_mul_floor_decompose(amount, self.atomics);
        }
        let whole = amount / DECIMAL_FRACTIONAL;
        let rest = amount % DECIMAL_FRACTIONAL;
        whole * self.atomics + (rest * self.atomics) / DECIMAL_FRACTIONAL
    }
}

/// `floor(a * r / f)` splits at whole units of the fixed-point base:
/// `a = f * whole + rest` gives `whole * r` exactly plus the floored
/// scaled rest.
proof fn lemma_mul_floor_decompose(a: u128, r: u128)
    ensures
        (a * r) / (DECIMAL_FRACTIONAL as int) == (a / DECIMAL_FRACTIONAL) * r + ((a
            % DECIMAL_FRACTIONAL) * r) / (DECIMAL_FRACTIONAL as int),
        (a / DECIMAL_FRACTIONAL) * r >= 0,
        ((a % DECIMAL_FRACTIONAL) * r) / (DECIMAL_FRACTIONAL as int) >= 0,
{
    let f = DECIMAL_FRACTIONAL as int;
    let whole = a as int / f;
    let rest = a as int % f;
    lemma_fundamental_div_mod(a as int, f);
    assert(a * r == f * (whole * r) + rest * r) by (nonlinear_arith)
        requires
            a == f * whole + rest,
    ;
    lemma_fundamental_div_mod(rest * r, f);
    lemma_mod_division_less_than_divisor(rest * r, f);
    assert(a * r == (whole * r + (rest * r) / f) * f + (rest * r) % f) by (nonlinear_arith)
        requires
            a * r == f * (whole * r) + rest * r,
            rest * r == f * ((rest * r) / f) + (rest * r) % f,
    ;
    lemma_fundamental_div_mod_converse_div(
        a * r,
        f,
        whole * r + (rest * r) / f,
        (rest * r) % f,
    );
    lemma_mul_nonnegative(whole, r as int);
    lemma_mul_nonnegative(rest, r as int);
    assert((rest * r) / f >= 0) by (nonlinear_arith)
        requires
            rest * r >= 0,
            f > 0,
    ;
}

/// Static configuration of the deprecated-token exchange: during conversion
/// every asset of `raw_token` is burned and replaced by `grain_token` at
/// `raw_to_grain_exchange_rate`, applied exactly once.
#[derive(Clone, Debug)]
pub struct ExchangeConfig {
    /// Address of the deprecated token that must be retired.
    pub raw_token: String,
    /// Address of the token that replaces it.
    pub grain_token: String,
    /// Fixed conversion rate from deprecated to replacement units.
    pub raw_to_grain_exchange_rate: Decimal,
}

impl ExchangeConfig {
    /// The replacement token is a different token than the one it retires;
    /// otherwise a "conversion" would re-emit the token it burns.
    pub open spec fn wf(&self) -> bool {
        self.raw_token@ != self.grain_token@
    }
}

/// Intermediate results staged at the end of the withdrawal step, completed
/// by the deposit callback, and consumed by staker redistribution.
#[derive(Clone, Debug)]
pub struct MigrateStakersConfig {
    /// LP token of the destination pool.
    pub lp_token: String,
    /// Staking contract paired with the destination pool.
    pub staking_addr: String,
    /// Destination LP actually received; unset until the deposit callback
    /// records the real balance, and redistribution is refused until it
    /// is.
    pub total_lp_tokens: Option<u128>,
    /// Snapshot of the legacy staked total at withdrawal time, the fixed
    /// denominator of every pro-rata share.  Never recomputed.
    pub total_staked: u128,
}

/// Singleton migration record: who may drive the migration, where it goes,
/// and the staged intermediate results.
#[derive(Clone, Debug)]
pub struct MigrationConfig {
    /// The only address authorized to drive mutating operations.
    pub migrator: String,
    /// Factory expected to have created the destination pool.
    pub factory: String,
    /// The legacy pool being migrated away from.
    pub junoswap_pool: String,
    /// Unbonding period forwarded to the destination staking delegation.
    pub unbonding_period: u64,
    /// Destination pool, pinned by the first successful migration trigger;
    /// later triggers must name the same pool.
    pub palomadex_pool: Option<String>,
    /// Staged results of the withdrawal/deposit steps; absent until the
    /// withdrawal step has run.
    pub migrate_stakers_config: Option<MigrateStakersConfig>,
}

/// One entry of the legacy staker ledger: a staker, their staked balance,
/// and the amounts of their pending unbonding claims.
#[derive(Clone, Debug)]
pub struct StakerEntry {
    /// The staker's address.
    pub addr: String,
    /// Currently staked balance.
    pub staked: u128,
    /// Pending unbonding-claim amounts, each still an economic claim.
    pub claims: Vec<u128>,
}

/// Sum of a sequence of claim amounts, as an unbounded integer.
pub open spec fn seq_sum(s: Seq<u128>) -> int
    decreases s.len(),
{
    if s.len() == 0 {
        0
    } else {
        seq_sum(s.drop_last()) + s.last()
    }
}

/// A sum of claim amounts is never negative.
pub proof fn lemma_seq_sum_nonneg(s: Seq<u128>)
    ensures
        seq_sum(s) >= 0,
    decreases s.len(),
{
    if s.len() > 0 {
        lemma_seq_sum_nonneg(s.drop_last());
    }
}

/// Taking one more element adds exactly that element to the sum.
pub proof fn lemma_seq_sum_take_step(s: Seq<u128>, j: int)
    requires
        0 <= j < s.len(),
    ensures
        seq_sum(s.take(j + 1)) == seq_sum(s.take(j)) + s[j],
{
    assert(s.take(j + 1).drop_last() =~= s.take(j));
    assert(s.take(j + 1).last() == s[j]);
}

/// A prefix sum never exceeds the whole sum.
pub proof fn lemma_seq_sum_take_bound(s: Seq<u128>, j: int)
    requires
        0 <= j <= s.len(),
    ensures
        seq_sum(s.take(j)) <= seq_sum(s),
    decreases s.len() - j,
{
    if j == s.len() {
        assert(s.take(j) =~= s);
    } else {
        lemma_seq_sum_take_step(s, j);
        lemma_seq_sum_take_bound(s, j + 1);
    }
}

/// A staker's whole economic claim: staked balance plus all pending
/// unbonding claims.
pub open spec fn claim_total(e: StakerEntry) -> int {
    e.staked + seq_sum(e.claims@)
}

/// Sum of every staker's whole claim over a ledger.
pub open spec fn ledger_claims(l: Seq<StakerEntry>) -> int
    decreases l.len(),
{
    if l.len() == 0 {
        0
    } else {
        ledger_claims(l.drop_last()) + claim_total(l.last())
    }
}

/// No two entries name the same staker.
pub open spec fn distinct_addrs(l: Seq<StakerEntry>) -> bool {
    forall|i: int, j: int|
        0 <= i < j < l.len() ==> l[i].addr@ != l[j].addr@
}

/// Strict lexicographic order on addresses, by character code: the order
/// in which the staking ledger's store enumerates its keys.
pub open spec fn addr_lt(a: Seq<char>, b: Seq<char>) -> bool
    decreases a.len(),
{
    if b.len() == 0 {
        false
    } else if a.len() == 0 {
        true
    } else if a[0] != b[0] {
        (a[0] as u32) < (b[0] as u32)
    } else {
        addr_lt(a.skip(1), b.skip(1))
    }
}

/// Entries stand in strictly ascending address order.
pub open spec fn sorted_by_addr(l: Seq<StakerEntry>) -> bool {
    forall|i: int, j: int|
        0 <= i < j < l.len() ==> addr_lt(l[i].addr@, l[j].addr@)
}

/// The legacy staker ledger as the store enumerates it: entries in the
/// store's stable order (ascending by address), one per staker.
#[derive(Clone, Debug)]
pub struct StakerLedger {
    /// Ledger entries in enumeration order.
    pub entries: Vec<StakerEntry>,
}

impl StakerLedger {
    /// Well-formed ledger: entries in strictly ascending address order
    /// (so each staker appears at most once), and each entry's whole
    /// claim fits the machine word it is summed into.
    pub open spec fn wf(&self) -> bool {
        &&& distinct_addrs(self.entries@)
        &&& sorted_by_addr(self.entries@)
        &&& forall|i: int|
            0 <= i < self.entries@.len() ==> claim_total(#[trigger] self.entries@[i]) <= u128::MAX
    }
}

/// The whole durable state the migration core owns or consumes: the
/// migration record, the transient destination, the exchange setup, the
/// legacy LP token, and the legacy staker ledger.
#[derive(Clone, Debug)]
pub struct MigrationState {
    /// The singleton migration record.
    pub migration: MigrationConfig,
    /// Destination pool saved for correlating the deposit callback;
    /// overwritten before each withdrawal trigger.
    pub destination: Option<String>,
    /// Deprecated-token exchange setup.
    pub exchange: ExchangeConfig,
    /// Address of the legacy LP token the legacy staking contract holds.
    pub legacy_lp_token: String,
    /// The legacy staker ledger.
    pub ledger: StakerLedger,
}

impl MigrationState {
    /// Well-formedness of the whole state.
    pub open spec fn wf(&self) -> bool {
        &&& self.ledger.wf()
        &&& self.exchange.wf()
    }
}

} // verus!

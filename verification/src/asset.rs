//! Asset/denomination normalizer: maps the legacy pool's two reported
//! denominations to destination-compatible assets, retiring the deprecated
//! token, and splits the deposit's side effects into allowance
//! instructions and inline funds.

use vstd::prelude::*;
use crate::msg::Instruction;
use crate::state::{spec_mul_floor, ExchangeConfig, DECIMAL_FRACTIONAL};

verus! {

/// A denomination as the legacy pool reports it.
#[derive(Clone, Debug)]
pub enum Denom {
    /// A native coin denomination.
    Native(String),
    /// A fungible-token contract address.
    Cw20(String),
}

/// Canonical asset identity used by the destination pool.
#[derive(Clone, Debug)]
pub enum AssetInfo {
    /// A fungible-token contract address.
    Token(String),
    /// A native coin denomination.
    Native(String),
}

/// An asset: its identity and an amount.
#[derive(Clone, Debug)]
pub struct Asset {
    /// What the asset is.
    pub info: AssetInfo,
    /// How much of it.
    pub amount: u128,
}

/// A native coin attached inline to an instruction.
#[derive(Clone, Debug)]
pub struct Coin {
    /// Native denomination.
    pub denom: String,
    /// Amount attached.
    pub amount: u128,
}

/// The legacy pool's answer to its info query: its two underlying
/// denominations.
#[derive(Clone, Debug)]
pub struct InfoResponse {
    /// First side of the legacy pool.
    pub token1_denom: Denom,
    /// Second side of the legacy pool.
    pub token2_denom: Denom,
}

/// The canonical asset a reported denomination resolves to, given the
/// orchestrator's current balance of it.
pub open spec fn denom_asset(token: Denom, balance: u128) -> Asset {
    match token {
        Denom::Native(denom) => Asset { info: AssetInfo::Native(denom), amount: balance },
        Denom::Cw20(addr) => Asset { info: AssetInfo::Token(addr), amount: balance },
    }
}

/// Resolve one reported denomination to a canonical asset.  `balance` is
/// the orchestrator's current holding of that denomination, as the ledger
/// platform reports it.
pub fn to_palomadex_asset(token: Denom, balance: u128) -> (r: Asset)
    ensures
        r == denom_asset(token, balance),
{
    match token {
        Denom::Native(denom) => Asset { info: AssetInfo::Native(denom), amount: balance },
        Denom::Cw20(addr) => Asset { info: AssetInfo::Token(addr), amount: balance },
    }
}

/// Resolve the legacy pool's two reported denominations to canonical
/// assets: always exactly two, one per pool side.
pub fn to_palomadex_assets(info: InfoResponse, balance1: u128, balance2: u128) -> (r: Vec<Asset>)
    ensures
        r@.len() == 2,
        r@[0] == denom_asset(info.token1_denom, balance1),
        r@[1] == denom_asset(info.token2_denom, balance2),
{
    let InfoResponse { token1_denom, token2_denom } = info;
    let asset1 = to_palomadex_asset(token1_denom, balance1);
    let asset2 = to_palomadex_asset(token2_denom, balance2);
    let mut r: Vec<Asset> = Vec::new();
    r.push(asset1);
    r.push(asset2);
    r
}

/// The asset is the deprecated token.
pub open spec fn is_raw_asset(a: Asset, ex: ExchangeConfig) -> bool {
    a.info matches AssetInfo::Token(t) && t@ == ex.raw_token@
}

/// What conversion makes of one asset: a deprecated-token asset becomes a
/// replacement-token asset of `floor(amount * exchange_rate)`; every other
/// asset passes through unchanged.  The rate is applied exactly once.
pub open spec fn spec_converted(a: Asset, ex: ExchangeConfig) -> Asset {
    if is_raw_asset(a, ex) {
        Asset {
            info: AssetInfo::Token(ex.grain_token),
            amount: spec_mul_floor(a.amount, ex.raw_to_grain_exchange_rate) as u128,
        }
    } else {
        a
    }
}

/// What conversion makes of an asset list, element by element.
pub open spec fn spec_converted_assets(assets: Seq<Asset>, ex: ExchangeConfig) -> Seq<Asset> {
    assets.map(|i: int, a: Asset| spec_converted(a, ex))
}

/// The burn instructions conversion owes: one per deprecated-token asset,
/// in asset order, each for that asset's full original amount.  The
/// deprecated token is destroyed, never forwarded.
pub open spec fn spec_burns(assets: Seq<Asset>, ex: ExchangeConfig) -> Seq<Instruction>
    decreases assets.len(),
{
    if assets.len() == 0 {
        Seq::empty()
    } else {
        let head: Seq<Instruction> = if is_raw_asset(assets[0], ex) {
            seq![Instruction::Burn { token: ex.raw_token, amount: assets[0].amount }]
        } else {
            Seq::empty()
        };
        head + spec_burns(assets.skip(1), ex)
    }
}

/// The allowance instructions a deposit of these assets needs: one grant
/// to the destination per token-type asset, in asset order.
pub open spec fn spec_allowances(assets: Seq<Asset>, destination: String) -> Seq<Instruction>
    decreases assets.len(),
{
    if assets.len() == 0 {
        Seq::empty()
    } else {
        let head: Seq<Instruction> = match assets[0].info {
            AssetInfo::Token(t) => seq![
                Instruction::IncreaseAllowance {
                    token: t,
                    spender: destination,
                    amount: assets[0].amount,
                },
            ],
            AssetInfo::Native(_) => Seq::empty(),
        };
        head + spec_allowances(assets.skip(1), destination)
    }
}

/// The inline funds a deposit of these assets attaches: one coin per
/// native-type asset, in asset order.
pub open spec fn spec_funds(assets: Seq<Asset>) -> Seq<Coin>
    decreases assets.len(),
{
    if assets.len() == 0 {
        Seq::empty()
    } else {
        let head: Seq<Coin> = match assets[0].info {
            AssetInfo::Native(denom) => seq![Coin { denom: denom, amount: assets[0].amount }],
            AssetInfo::Token(_) => Seq::empty(),
        };
        head + spec_funds(assets.skip(1))
    }
}

/// The machine limits conversion must respect: for a deprecated-token
/// amount, its sub-unit rest scaled by the rate's atomics and the
/// converted result itself both fit the word (the result must fit on the
/// ledger platform as well).
pub open spec fn conversion_fits(assets: Seq<Asset>, ex: ExchangeConfig) -> bool {
    forall|i: int|
        0 <= i < assets.len() && is_raw_asset(#[trigger] assets[i], ex) ==> {
            &&& (assets[i].amount % DECIMAL_FRACTIONAL) * ex.raw_to_grain_exchange_rate.atomics
                <= u128::MAX
            &&& spec_mul_floor(assets[i].amount, ex.raw_to_grain_exchange_rate) <= u128::MAX
        }
}

/// Instruction sets a deposit needs, split deterministically: allowance
/// grants (and burns) to execute beforehand, funds to attach inline, and
/// the asset list the deposit message itself carries.
pub struct DenomDeposits {
    /// Burns of the deprecated token, then allowance grants to the
    /// destination, in that order.
    pub allowances: Vec<Instruction>,
    /// Native coins attached inline to the deposit call.
    pub funds: Vec<Coin>,
    /// The two converted assets the deposit message names.
    pub new_assets: Vec<Asset>,
}

/// Convert one asset.  A deprecated-token asset is replaced by the
/// replacement token at the fixed exchange rate (floor) and a burn of the
/// original amount is appended; anything else passes through unchanged.
fn convert_asset(asset: &Asset, exchange: &ExchangeConfig, burns: &mut Vec<Instruction>) -> (r:
    Asset)
    requires
        is_raw_asset(*asset, *exchange) ==> {
            &&& (asset.amount % DECIMAL_FRACTIONAL)
                * exchange.raw_to_grain_exchange_rate.atomics <= u128::MAX
            &&& spec_mul_floor(asset.amount, exchange.raw_to_grain_exchange_rate) <= u128::MAX
        },
    ensures
        r == spec_converted(*asset, *exchange),
        is_raw_asset(*asset, *exchange) ==> final(burns)@ == old(burns)@.push(
            Instruction::Burn { token: exchange.raw_token, amount: asset.amount },
        ),
        !is_raw_asset(*asset, *exchange) ==> final(burns)@ == old(burns)@,
{
    let raw = match &asset.info {
        AssetInfo::Token(t) => *t == exchange.raw_token,
        AssetInfo::Native(_) => false,
    };
    if raw {
        // first burn the deprecated tokens ...
        burns.push(Instruction::Burn {
            token: exchange.raw_token.clone(),
            amount: asset.amount,
        });
        // ... then hand out the replacement token instead
        Asset {
            info: AssetInfo::Token(exchange.grain_token.clone()),
            amount: exchange.raw_to_grain_exchange_rate.mul_floor(asset.amount),
        }
    } else {
        match &asset.info {
            AssetInfo::Token(t) => Asset { info: AssetInfo::Token(t.clone()), amount: asset.amount },
            AssetInfo::Native(d) => Asset {
                info: AssetInfo::Native(d.clone()),
                amount: asset.amount,
            },
        }
    }
}

/// Route one converted asset to its transfer mechanism: a token-type asset
/// needs an allowance grant to the destination before the deposit call, a
/// native-type asset is attached as an inline coin on the call itself.
pub fn prepare_denom_deposit(
    destination: &String,
    asset: &Asset,
    msgs: &mut Vec<Instruction>,
    funds: &mut Vec<Coin>,
)
    ensures
        asset.info matches AssetInfo::Token(t) ==> {
            &&& final(msgs)@ == old(msgs)@.push(
                Instruction::IncreaseAllowance {
                    token: t,
                    spender: *destination,
                    amount: asset.amount,
                },
            )
            &&& final(funds)@ == old(funds)@
        },
        asset.info matches AssetInfo::Native(d) ==> {
            &&& final(funds)@ == old(funds)@.push(Coin { denom: d, amount: asset.amount })
            &&& final(msgs)@ == old(msgs)@
        },
{
    match &asset.info {
        AssetInfo::Token(token) => {
            msgs.push(Instruction::IncreaseAllowance {
                token: token.clone(),
                spender: destination.clone(),
                amount: asset.amount,
            });
        },
        AssetInfo::Native(denom) => {
            funds.push(Coin { denom: denom.clone(), amount: asset.amount });
        },
    }
}

/// Normalize the two resolved assets for deposit into `destination`:
/// convert the deprecated token (burning the original), then split the
/// resulting pair into prior allowance grants and inline funds.  The
/// output always names exactly two assets, one per legacy pool side.
pub fn prepare_denom_deposits(
    destination: &String,
    assets: &Vec<Asset>,
    exchange: &ExchangeConfig,
) -> (r: DenomDeposits)
    requires
        assets@.len() == 2,
        conversion_fits(assets@, *exchange),
    ensures
        r.new_assets@ == spec_converted_assets(assets@, *exchange),
        r.allowances@ == spec_burns(assets@, *exchange) + spec_allowances(
            spec_converted_assets(assets@, *exchange),
            *destination,
        ),
        r.funds@ == spec_funds(spec_converted_assets(assets@, *exchange)),
{
    let mut allowances: Vec<Instruction> = Vec::new();
    let mut funds: Vec<Coin> = Vec::new();

    let new0 = convert_asset(&assets[0], exchange, &mut allowances);
    let new1 = convert_asset(&assets[1], exchange, &mut allowances);
    proof {
        let s = assets@;
        let ex = *exchange;
        assert(s.skip(1)[0] == s[1]);
        assert(s.skip(1).skip(1) =~= Seq::<Asset>::empty());
        assert(spec_burns(s.skip(1).skip(1), ex) =~= Seq::<Instruction>::empty());
        assert(spec_burns(s.skip(1), ex) =~= (
            if is_raw_asset(s[1], ex) {
                seq![Instruction::Burn { token: ex.raw_token, amount: s[1].amount }]
            } else {
                Seq::<Instruction>::empty()
            }
        ));
        assert(allowances@ =~= spec_burns(s, ex));
    }
    let mut new_assets: Vec<Asset> = Vec::new();
    new_assets.push(new0);
    new_assets.push(new1);
    proof {
        assert(new_assets@ =~= spec_converted_assets(assets@, *exchange));
    }

    let ghost burns = allowances@;
    prepare_denom_deposit(destination, &new_assets[0], &mut allowances, &mut funds);
    prepare_denom_deposit(destination, &new_assets[1], &mut allowances, &mut funds);
    proof {
        let conv = spec_converted_assets(assets@, *exchange);
        let dest = *destination;
        assert(conv.skip(1)[0] == conv[1]);
        assert(conv.skip(1).skip(1) =~= Seq::<Asset>::empty());
        assert(spec_allowances(conv.skip(1).skip(1), dest) =~= Seq::<Instruction>::empty());
        assert(spec_funds(conv.skip(1).skip(1)) =~= Seq::<Coin>::empty());
        assert(spec_allowances(conv.skip(1), dest) =~= (
            match conv[1].info {
                AssetInfo::Token(t) => seq![
                    Instruction::IncreaseAllowance {
                        token: t,
                        spender: dest,
                        amount: conv[1].amount,
                    },
                ],
                AssetInfo::Native(_) => Seq::<Instruction>::empty(),
            }
        ));
        assert(spec_funds(conv.skip(1)) =~= (
            match conv[1].info {
                AssetInfo::Native(d) => seq![Coin { denom: d, amount: conv[1].amount }],
                AssetInfo::Token(_) => Seq::<Coin>::empty(),
            }
        ));
        assert(allowances@ =~= burns + spec_allowances(conv, dest));
        assert(funds@ =~= spec_funds(conv));
    }

    DenomDeposits { allowances, funds, new_assets }
}

} // verus!

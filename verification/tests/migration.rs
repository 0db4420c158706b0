//! End-to-end scenarios for the migration core: authorization, destination
//! pinning, staged sequencing, pro-rata redistribution, and deprecated-token
//! conversion.

use raw_migration::asset::{AssetInfo, Denom, InfoResponse};
use raw_migration::contract::{
    execute, find_stakers, instantiate, migrate_stakers, migrate_tokens, query, remove_stakers,
    reply, reply_one, reply_two, PairInfo,
};
use raw_migration::msg::{
    ContractError, ExecuteMsg, Instruction, QueryMsg, ReplyData, REPLY_ONE, REPLY_TWO,
};
use raw_migration::state::{
    Decimal, ExchangeConfig, MigrationConfig, MigrationState, StakerEntry, StakerLedger,
    DECIMAL_FRACTIONAL,
};

fn s(x: &str) -> String {
    String::from(x)
}

fn entry(addr: &str, staked: u128, claims: Vec<u128>) -> StakerEntry {
    StakerEntry {
        addr: s(addr),
        staked,
        claims,
    }
}

fn base_state(entries: Vec<StakerEntry>) -> MigrationState {
    MigrationState {
        migration: MigrationConfig {
            migrator: s("migrator"),
            factory: s("factory"),
            junoswap_pool: s("legacy_pool"),
            unbonding_period: 86400,
            palomadex_pool: None,
            migrate_stakers_config: None,
        },
        destination: None,
        exchange: ExchangeConfig {
            raw_token: s("raw_token"),
            grain_token: s("grain_token"),
            raw_to_grain_exchange_rate: Decimal::raw(DECIMAL_FRACTIONAL),
        },
        legacy_lp_token: s("legacy_lp"),
        ledger: StakerLedger { entries },
    }
}

fn pair() -> PairInfo {
    PairInfo {
        liquidity_token: s("dest_lp"),
        staking_addr: s("dest_staking"),
    }
}

/// Run the withdrawal trigger and both success callbacks so that the stage
/// record holds the given LP total.
fn staged_state(entries: Vec<StakerEntry>, total_lp: u128) -> MigrationState {
    let mut state = base_state(entries);
    let total_staked: u128 = state
        .ledger
        .entries
        .iter()
        .map(|e| e.staked + e.claims.iter().sum::<u128>())
        .sum();
    let r = migrate_tokens(
        &mut state,
        &s("migrator"),
        s("dest_pool"),
        &s("factory"),
        total_staked,
        pair(),
    );
    assert!(r.is_ok());
    let r = reply_two(&mut state, total_lp);
    assert!(r.is_ok());
    state
}

#[test]
fn instantiate_is_disabled() {
    assert!(matches!(instantiate(), Err(ContractError::NotImplemented)));
}

#[test]
fn migrate_tokens_rejects_non_migrator() {
    let mut state = base_state(vec![entry("alice", 5, vec![])]);
    let before = state.clone();
    let r = migrate_tokens(
        &mut state,
        &s("mallory"),
        s("dest_pool"),
        &s("factory"),
        100,
        pair(),
    );
    assert!(matches!(r, Err(ContractError::Unauthorized)));
    // state unchanged
    assert_eq!(state.migration.palomadex_pool, before.migration.palomadex_pool);
    assert!(state.migration.migrate_stakers_config.is_none());
    assert!(state.destination.is_none());
    assert_eq!(state.ledger.entries.len(), 1);
}

#[test]
fn migrate_stakers_rejects_non_migrator() {
    let mut state = staged_state(vec![entry("alice", 5, vec![])], 5);
    let r = migrate_stakers(&mut state, &s("mallory"), None);
    assert!(matches!(r, Err(ContractError::Unauthorized)));
    assert_eq!(state.ledger.entries.len(), 1);
}

#[test]
fn migrate_tokens_rejects_wrong_factory() {
    let mut state = base_state(vec![]);
    let r = migrate_tokens(
        &mut state,
        &s("migrator"),
        s("dest_pool"),
        &s("impostor_factory"),
        100,
        pair(),
    );
    match r {
        Err(ContractError::InvalidDestination(p)) => assert_eq!(p, "dest_pool"),
        other => panic!("expected InvalidDestination, got {:?}", other),
    }
    assert!(state.migration.palomadex_pool.is_none());
}

#[test]
fn second_destination_is_rejected_after_pin() {
    let mut state = base_state(vec![]);
    let r = migrate_tokens(
        &mut state,
        &s("migrator"),
        s("pool_a"),
        &s("factory"),
        100,
        pair(),
    );
    assert!(r.is_ok());
    assert_eq!(state.migration.palomadex_pool.as_deref(), Some("pool_a"));

    // same pool again is fine (resume after external remediation)
    let r = migrate_tokens(
        &mut state,
        &s("migrator"),
        s("pool_a"),
        &s("factory"),
        100,
        pair(),
    );
    assert!(r.is_ok());

    // a different pool must fail, even with a valid creator
    let r = migrate_tokens(
        &mut state,
        &s("migrator"),
        s("pool_b"),
        &s("factory"),
        100,
        pair(),
    );
    match r {
        Err(ContractError::InvalidDestination(p)) => assert_eq!(p, "pool_b"),
        other => panic!("expected InvalidDestination, got {:?}", other),
    }
}

#[test]
fn migrate_tokens_emits_allowance_then_withdrawal() {
    let mut state = base_state(vec![]);
    let resp = migrate_tokens(
        &mut state,
        &s("migrator"),
        s("dest_pool"),
        &s("factory"),
        777,
        pair(),
    )
    .unwrap();
    assert_eq!(resp.messages.len(), 2);
    match &resp.messages[0].instr {
        Instruction::IncreaseAllowance { token, spender, amount } => {
            assert_eq!(token, "legacy_lp");
            assert_eq!(spender, "legacy_pool");
            assert_eq!(*amount, 777);
        }
        other => panic!("expected IncreaseAllowance, got {:?}", other),
    }
    assert_eq!(resp.messages[0].reply_on_success, None);
    match &resp.messages[1].instr {
        Instruction::RemoveLiquidity { pool, amount, min_token1, min_token2 } => {
            assert_eq!(pool, "legacy_pool");
            assert_eq!(*amount, 777);
            assert_eq!(*min_token1, 0);
            assert_eq!(*min_token2, 0);
        }
        other => panic!("expected RemoveLiquidity, got {:?}", other),
    }
    assert_eq!(resp.messages[1].reply_on_success, Some(REPLY_ONE));
    // stage record created with the snapshot and the LP total unset
    let cfg = state.migration.migrate_stakers_config.as_ref().unwrap();
    assert_eq!(cfg.lp_token, "dest_lp");
    assert_eq!(cfg.staking_addr, "dest_staking");
    assert_eq!(cfg.total_lp_tokens, None);
    assert_eq!(cfg.total_staked, 777);
    assert_eq!(state.destination.as_deref(), Some("dest_pool"));
}

#[test]
fn migrate_stakers_before_stages_is_rejected() {
    let mut state = base_state(vec![entry("alice", 5, vec![])]);
    let r = migrate_stakers(&mut state, &s("migrator"), Some(10));
    assert!(matches!(r, Err(ContractError::TokensNotMigrated)));
    assert_eq!(state.ledger.entries.len(), 1);
}

#[test]
fn migrate_stakers_between_withdrawal_and_deposit_is_rejected() {
    // the withdrawal trigger stages the record, but the deposit callback
    // has not recorded an LP total yet: redistribution must still refuse
    // and must not touch the ledger
    let mut state = base_state(vec![entry("alice", 5, vec![]), entry("bob", 7, vec![])]);
    let r = migrate_tokens(
        &mut state,
        &s("migrator"),
        s("dest_pool"),
        &s("factory"),
        12,
        pair(),
    );
    assert!(r.is_ok());
    assert!(state.migration.migrate_stakers_config.is_some());

    let r = migrate_stakers(&mut state, &s("migrator"), None);
    assert!(matches!(r, Err(ContractError::TokensNotMigrated)));
    assert_eq!(state.ledger.entries.len(), 2);

    // once the deposit callback records the total, the same call goes through
    let _ = reply_two(&mut state, 12).unwrap();
    let resp = migrate_stakers(&mut state, &s("migrator"), None).unwrap();
    match &resp.messages[0].instr {
        Instruction::MassDelegate { batch_amount, .. } => assert_eq!(*batch_amount, 12),
        other => panic!("expected MassDelegate, got {:?}", other),
    }
    assert!(state.ledger.entries.is_empty());
}

#[test]
fn redistribution_three_stakers_two_batches() {
    // legacy staked total 1_000_000 across three stakers, 500_000 new LP
    let entries = vec![
        entry("addr_a", 600_000, vec![]),
        entry("addr_b", 300_000, vec![]),
        entry("addr_c", 100_000, vec![]),
    ];
    let mut state = staged_state(entries, 500_000);

    let resp = migrate_stakers(&mut state, &s("migrator"), Some(2)).unwrap();
    assert_eq!(resp.messages.len(), 1);
    match &resp.messages[0].instr {
        Instruction::MassDelegate {
            lp_token,
            staking_contract,
            batch_amount,
            unbonding_period,
            delegate_to,
        } => {
            assert_eq!(lp_token, "dest_lp");
            assert_eq!(staking_contract, "dest_staking");
            assert_eq!(*unbonding_period, 86400);
            assert_eq!(*batch_amount, 450_000);
            assert_eq!(
                delegate_to,
                &vec![(s("addr_a"), 300_000u128), (s("addr_b"), 150_000u128)]
            );
        }
        other => panic!("expected MassDelegate, got {:?}", other),
    }
    // the two processed stakers are gone; the third remains
    assert_eq!(state.ledger.entries.len(), 1);
    assert_eq!(state.ledger.entries[0].addr, "addr_c");
    assert_eq!(query(&state, QueryMsg::MigrationFinished), Ok(false));

    // final unlimited call pays the last staker and finishes the migration
    let resp = migrate_stakers(&mut state, &s("migrator"), None).unwrap();
    match &resp.messages[0].instr {
        Instruction::MassDelegate { batch_amount, delegate_to, .. } => {
            assert_eq!(*batch_amount, 50_000);
            assert_eq!(delegate_to, &vec![(s("addr_c"), 50_000u128)]);
        }
        other => panic!("expected MassDelegate, got {:?}", other),
    }
    assert_eq!(state.ledger.entries.len(), 0);
    assert_eq!(query(&state, QueryMsg::MigrationFinished), Ok(true));
    // total paid over both batches: exactly the LP total, no dust here
    assert_eq!(450_000 + 50_000, 500_000u128);
}

#[test]
fn processed_staker_never_paid_again() {
    let entries = vec![
        entry("addr_a", 600_000, vec![]),
        entry("addr_b", 300_000, vec![]),
        entry("addr_c", 100_000, vec![]),
    ];
    let mut state = staged_state(entries, 500_000);
    let _ = migrate_stakers(&mut state, &s("migrator"), Some(1)).unwrap();
    // addr_a is gone from the ledger
    assert!(state.ledger.entries.iter().all(|e| e.addr != "addr_a"));
    // the next batch, however large, pays only the remaining stakers
    let resp = migrate_stakers(&mut state, &s("migrator"), Some(10)).unwrap();
    match &resp.messages[0].instr {
        Instruction::MassDelegate { delegate_to, .. } => {
            assert!(delegate_to.iter().all(|(a, _)| a != "addr_a"));
            assert_eq!(delegate_to.len(), 2);
        }
        other => panic!("expected MassDelegate, got {:?}", other),
    }
    assert_eq!(state.ledger.entries.len(), 0);
}

#[test]
fn payouts_never_exceed_lp_total_with_dust() {
    // three equal stakers, 100 LP: each gets floor(1*100/3) = 33, dust 1
    let entries = vec![
        entry("s1", 1, vec![]),
        entry("s2", 1, vec![]),
        entry("s3", 1, vec![]),
    ];
    let mut state = staged_state(entries, 100);
    let mut paid: u128 = 0;
    // partition into batches of one
    for _ in 0..3 {
        let resp = migrate_stakers(&mut state, &s("migrator"), Some(1)).unwrap();
        match &resp.messages[0].instr {
            Instruction::MassDelegate { batch_amount, .. } => paid += batch_amount,
            other => panic!("expected MassDelegate, got {:?}", other),
        }
    }
    assert_eq!(paid, 99);
    assert!(paid <= 100);
    assert_eq!(query(&state, QueryMsg::MigrationFinished), Ok(true));
}

#[test]
fn unbonding_claims_count_towards_the_share() {
    // staker one: 100 staked + claims 40 and 60; staker two: 300 staked.
    // total claim 500, LP total 250: shares 100 and 150.
    let entries = vec![
        entry("one", 100, vec![40, 60]),
        entry("two", 300, vec![]),
    ];
    let mut state = staged_state(entries, 250);
    let resp = migrate_stakers(&mut state, &s("migrator"), None).unwrap();
    match &resp.messages[0].instr {
        Instruction::MassDelegate { batch_amount, delegate_to, .. } => {
            assert_eq!(*batch_amount, 250);
            assert_eq!(
                delegate_to,
                &vec![(s("one"), 100u128), (s("two"), 150u128)]
            );
        }
        other => panic!("expected MassDelegate, got {:?}", other),
    }
}

#[test]
fn zero_shares_are_dropped_from_the_payout() {
    // dust staker rounds to zero and gets no delegation entry, but their
    // ledger entry is still removed
    let entries = vec![entry("dust", 1, vec![]), entry("whale", 999_999, vec![])];
    let mut state = staged_state(entries, 10);
    let resp = migrate_stakers(&mut state, &s("migrator"), None).unwrap();
    match &resp.messages[0].instr {
        Instruction::MassDelegate { batch_amount, delegate_to, .. } => {
            assert_eq!(delegate_to.len(), 1);
            assert_eq!(delegate_to[0], (s("whale"), 9u128));
            assert_eq!(*batch_amount, 9);
        }
        other => panic!("expected MassDelegate, got {:?}", other),
    }
    assert_eq!(query(&state, QueryMsg::MigrationFinished), Ok(true));
}

#[test]
fn empty_ledger_batch_is_a_no_op_delegation() {
    let mut state = staged_state(vec![], 500);
    assert_eq!(query(&state, QueryMsg::MigrationFinished), Ok(true));
    let resp = migrate_stakers(&mut state, &s("migrator"), Some(5)).unwrap();
    match &resp.messages[0].instr {
        Instruction::MassDelegate { batch_amount, delegate_to, .. } => {
            assert_eq!(*batch_amount, 0);
            assert!(delegate_to.is_empty());
        }
        other => panic!("expected MassDelegate, got {:?}", other),
    }
}

#[test]
fn limit_larger_than_ledger_processes_everything() {
    let entries = vec![entry("a", 10, vec![]), entry("b", 30, vec![])];
    let mut state = staged_state(entries, 40);
    let resp = migrate_stakers(&mut state, &s("migrator"), Some(1000)).unwrap();
    match &resp.messages[0].instr {
        Instruction::MassDelegate { batch_amount, .. } => assert_eq!(*batch_amount, 40),
        other => panic!("expected MassDelegate, got {:?}", other),
    }
    assert!(state.ledger.entries.is_empty());
}

#[test]
fn find_stakers_reports_whole_claims_in_order() {
    let ledger = StakerLedger {
        entries: vec![
            entry("a", 10, vec![5]),
            entry("b", 20, vec![]),
            entry("c", 30, vec![1, 2, 3]),
        ],
    };
    let found = find_stakers(&ledger, Some(2));
    assert_eq!(found, vec![(s("a"), 15u128), (s("b"), 20u128)]);
    let all = find_stakers(&ledger, None);
    assert_eq!(all.len(), 3);
    assert_eq!(all[2], (s("c"), 36u128));
}

#[test]
fn remove_stakers_drops_the_processed_prefix() {
    let mut ledger = StakerLedger {
        entries: vec![entry("a", 1, vec![]), entry("b", 2, vec![]), entry("c", 3, vec![])],
    };
    remove_stakers(&mut ledger, 2);
    assert_eq!(ledger.entries.len(), 1);
    assert_eq!(ledger.entries[0].addr, "c");
}

#[test]
fn failure_callback_is_fatal() {
    let mut state = staged_state(vec![], 500);
    let r = reply(
        &mut state,
        REPLY_ONE,
        false,
        ReplyData::Deposited { lp_balance: 0 },
    );
    assert!(matches!(r, Err(ContractError::ErrorReply)));
}

#[test]
fn unknown_callback_tag_is_fatal() {
    let mut state = staged_state(vec![], 500);
    let r = reply(
        &mut state,
        999,
        true,
        ReplyData::Deposited { lp_balance: 0 },
    );
    match r {
        Err(ContractError::UnknownReply(x)) => assert_eq!(x, 999),
        other => panic!("expected UnknownReply, got {:?}", other),
    }
}

#[test]
fn deposit_callback_records_the_lp_total() {
    let mut state = base_state(vec![]);
    let _ = migrate_tokens(
        &mut state,
        &s("migrator"),
        s("dest_pool"),
        &s("factory"),
        123,
        pair(),
    )
    .unwrap();
    assert_eq!(
        state
            .migration
            .migrate_stakers_config
            .as_ref()
            .unwrap()
            .total_lp_tokens,
        None
    );
    let resp = reply(
        &mut state,
        REPLY_TWO,
        true,
        ReplyData::Deposited { lp_balance: 4567 },
    )
    .unwrap();
    assert!(resp.messages.is_empty());
    let cfg = state.migration.migrate_stakers_config.as_ref().unwrap();
    assert_eq!(cfg.total_lp_tokens, Some(4567));
    assert_eq!(cfg.total_staked, 123);
}

#[test]
fn withdrawal_callback_converts_and_deposits() {
    // legacy pool sides: native "ujuno" and the deprecated raw token.
    // rate 1.5: raw balance 1000 becomes 1500 grain, 1000 raw burned.
    let mut state = base_state(vec![]);
    state.exchange.raw_to_grain_exchange_rate = Decimal::raw(DECIMAL_FRACTIONAL * 3 / 2);
    let _ = migrate_tokens(
        &mut state,
        &s("migrator"),
        s("dest_pool"),
        &s("factory"),
        50,
        pair(),
    )
    .unwrap();

    let info = InfoResponse {
        token1_denom: Denom::Native(s("ujuno")),
        token2_denom: Denom::Cw20(s("raw_token")),
    };
    let resp = reply(
        &mut state,
        REPLY_ONE,
        true,
        ReplyData::Withdrawn {
            token1: info.token1_denom.clone(),
            token2: info.token2_denom.clone(),
            balance1: 2000,
            balance2: 1000,
        },
    )
    .unwrap();

    // one burn of the full raw amount, no allowance for the raw token,
    // one allowance for the replacement token, then the deposit
    assert_eq!(resp.messages.len(), 3);
    match &resp.messages[0].instr {
        Instruction::Burn { token, amount } => {
            assert_eq!(token, "raw_token");
            assert_eq!(*amount, 1000);
        }
        other => panic!("expected Burn, got {:?}", other),
    }
    match &resp.messages[1].instr {
        Instruction::IncreaseAllowance { token, spender, amount } => {
            assert_eq!(token, "grain_token");
            assert_eq!(spender, "dest_pool");
            assert_eq!(*amount, 1500);
        }
        other => panic!("expected IncreaseAllowance, got {:?}", other),
    }
    let burns = resp
        .messages
        .iter()
        .filter(|m| matches!(&m.instr, Instruction::Burn { .. }))
        .count();
    assert_eq!(burns, 1);
    for m in &resp.messages {
        if let Instruction::IncreaseAllowance { token, .. } = &m.instr {
            assert_ne!(token, "raw_token");
        }
    }
    match &resp.messages[2].instr {
        Instruction::ProvideLiquidity { pool, funds, assets } => {
            assert_eq!(pool, "dest_pool");
            // native side attached inline, untouched
            assert_eq!(funds.len(), 1);
            assert_eq!(funds[0].denom, "ujuno");
            assert_eq!(funds[0].amount, 2000);
            // converted asset pair in the deposit message
            assert_eq!(assets.len(), 2);
            assert!(matches!(&assets[0].info, AssetInfo::Native(d) if d == "ujuno"));
            assert_eq!(assets[0].amount, 2000);
            assert!(matches!(&assets[1].info, AssetInfo::Token(t) if t == "grain_token"));
            assert_eq!(assets[1].amount, 1500);
        }
        other => panic!("expected ProvideLiquidity, got {:?}", other),
    }
    assert_eq!(resp.messages[2].reply_on_success, Some(REPLY_TWO));
    // stage one emits instructions but commits no state
    assert_eq!(
        state
            .migration
            .migrate_stakers_config
            .as_ref()
            .unwrap()
            .total_lp_tokens,
        None
    );
}

#[test]
fn non_raw_token_passes_through_with_allowance() {
    let mut state = base_state(vec![]);
    let _ = migrate_tokens(
        &mut state,
        &s("migrator"),
        s("dest_pool"),
        &s("factory"),
        50,
        pair(),
    )
    .unwrap();
    let resp = reply_one(
        &state,
        InfoResponse {
            token1_denom: Denom::Cw20(s("other_token")),
            token2_denom: Denom::Native(s("uatom")),
        },
        400,
        600,
    )
    .unwrap();
    // no burn; one allowance for the untouched token; deposit last
    assert_eq!(resp.messages.len(), 2);
    match &resp.messages[0].instr {
        Instruction::IncreaseAllowance { token, spender, amount } => {
            assert_eq!(token, "other_token");
            assert_eq!(spender, "dest_pool");
            assert_eq!(*amount, 400);
        }
        other => panic!("expected IncreaseAllowance, got {:?}", other),
    }
    match &resp.messages[1].instr {
        Instruction::ProvideLiquidity { funds, assets, .. } => {
            assert_eq!(funds.len(), 1);
            assert_eq!(funds[0].denom, "uatom");
            assert_eq!(funds[0].amount, 600);
            assert_eq!(assets[0].amount, 400);
            assert_eq!(assets[1].amount, 600);
        }
        other => panic!("expected ProvideLiquidity, got {:?}", other),
    }
}

#[test]
fn decimal_mul_floor_truncates() {
    // 1.5 * 7 = 10.5 -> 10
    let rate = Decimal::raw(DECIMAL_FRACTIONAL * 3 / 2);
    assert_eq!(rate.mul_floor(7), 10);
    // rate below one
    let third = Decimal::raw(DECIMAL_FRACTIONAL / 3);
    assert_eq!(third.mul_floor(9), 2);
    // exact rate of one
    assert_eq!(Decimal::raw(DECIMAL_FRACTIONAL).mul_floor(42), 42);
    // zero rate retires everything to nothing
    assert_eq!(Decimal::raw(0).mul_floor(1_000_000), 0);
    // amounts of many whole units convert without overflow: a million
    // units (18 decimals) at 1.5 gives a million and a half units
    let large: u128 = 1_000_000 * DECIMAL_FRACTIONAL;
    assert_eq!(rate.mul_floor(large), 1_500_000 * DECIMAL_FRACTIONAL);
}

#[test]
fn execute_dispatches_both_operations() {
    let mut state = base_state(vec![entry("alice", 100, vec![])]);
    let r = execute(
        &mut state,
        &s("migrator"),
        ExecuteMsg::MigrateTokens {
            palomadex_pool: s("dest_pool"),
        },
        &s("factory"),
        100,
        pair(),
    );
    assert!(r.is_ok());
    let _ = reply_two(&mut state, 100).unwrap();
    let r = execute(
        &mut state,
        &s("migrator"),
        ExecuteMsg::MigrateStakers { limit: None },
        &s("factory"),
        0,
        pair(),
    );
    let resp = r.unwrap();
    match &resp.messages[0].instr {
        Instruction::MassDelegate { batch_amount, .. } => assert_eq!(*batch_amount, 100),
        other => panic!("expected MassDelegate, got {:?}", other),
    }
    // unauthorized dispatch is rejected for both operations
    let r = execute(
        &mut state,
        &s("mallory"),
        ExecuteMsg::MigrateStakers { limit: None },
        &s("factory"),
        0,
        pair(),
    );
    assert!(matches!(r, Err(ContractError::Unauthorized)));
}

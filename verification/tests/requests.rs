//! What requests are answered with, and what they ask the canonical chain.

use base_flashblocks::block_id::{
    block_id_or_default, BlockId, BlockNumberOrTag, BlockNumberOrTagExt, RpcBlockHash,
};
use base_flashblocks::collections::Storage;
use base_flashblocks::eth::{
    block_by_number, block_transaction_count_reply, call, estimate_gas, get_balance,
    get_block_transaction_count_by_number, get_transaction_count, get_transaction_receipt,
    pending_execution_overrides, simulate_v1, transaction_by_hash, transaction_count_query,
    EthApiExt, Resolution, TransactionCountQuery,
};
use base_flashblocks::logs::{
    combine_logs, get_logs_plan, get_logs_reply, FilterBlockOption, Log, LogsPlan,
};
use base_flashblocks::merge::merge_overrides;
use base_flashblocks::overrides::{AccountOverride, BlockOverrides, EvmOverrides, StateOverride};
use base_flashblocks::pending::{get_canonical_block_number, Header, PendingBlocks};
use base_flashblocks::primitives::{Word, U256};
use base_flashblocks::receipts::{
    canonical_receipt, wait_for_canonical_receipt, wait_for_flashblocks_receipt, CanonicalEvent,
    CanonicalWait, ConfirmationTimeout, FlashblocksEvent, ReceiptEvent, SendRawTransactionSync,
    Wait,
};
use base_flashblocks::rpc_error::{ErrorObject, INTERNAL_ERROR_CODE, INVALID_PARAMS_CODE};
use base_flashblocks::simulate::{SimBlock, SimulatePayload};
use base_flashblocks::text::decimal_text;
use std::collections::BTreeMap;
use std::sync::Arc;

const PENDING: BlockId = BlockId::Number(BlockNumberOrTag::Pending);
const LATEST: BlockId = BlockId::Number(BlockNumberOrTag::Latest);

fn number(value: u64) -> U256 {
    U256::from_u64(value)
}

fn tag(text: &str) -> Option<BlockId> {
    BlockNumberOrTagExt::parse(text).ok().map(BlockId::from)
}

fn snapshot() -> PendingBlocks {
    let mut state = StateOverride::new();
    state.insert([7; 20], AccountOverride { nonce: Some(3), ..Default::default() });
    let header = Header {
        number: 12,
        difficulty: number(5),
        timestamp: 99,
        gas_limit: 30,
        beneficiary: [1; 20],
        mix_hash: [2; 32],
        base_fee_per_gas: None,
        parent_beacon_block_root: Some([3; 32]),
    };
    PendingBlocks::new(10, header, Some(state))
}

#[test]
fn unsafe_is_latest_and_other_tags_stand_for_themselves() {
    assert_eq!(tag("unsafe"), Some(LATEST));
    assert_eq!(tag("latest"), Some(LATEST));
    assert_eq!(tag("pending"), Some(PENDING));
    assert_eq!(tag("safe"), Some(BlockId::Number(BlockNumberOrTag::Safe)));
    assert_eq!(tag("finalized"), Some(BlockId::Number(BlockNumberOrTag::Finalized)));
    assert_eq!(tag("earliest"), Some(BlockId::Number(BlockNumberOrTag::Earliest)));
    assert_eq!(tag("PeNdInG"), Some(PENDING));
    assert!(BlockNumberOrTagExt::parse("pending").is_ok_and(|tag| tag.is_pending()));
    assert!(BlockNumberOrTagExt::parse("unsafe").is_ok_and(|tag| !tag.is_pending()));
}

#[test]
fn only_the_exact_spelling_of_unsafe_is_an_alias() {
    for text in ["UNSAFE", "Unsafe", " unsafe", "unsafe ", ""] {
        let error = BlockNumberOrTagExt::parse(text).expect_err("no other spelling is a tag");
        assert_eq!(error.message, "hex string without 0x prefix");
    }
}

#[test]
fn block_numbers_are_prefixed_hexadecimal() {
    let block = |value: u64| Some(BlockId::Number(BlockNumberOrTag::Number(value)));
    assert_eq!(tag("0x0"), block(0));
    assert_eq!(tag("0x1F"), block(31));
    assert_eq!(tag("0X1f"), block(31));
    assert_eq!(tag("0x+1f"), block(31));
    assert_eq!(tag("0x0000000000000000000001"), block(1));
    assert_eq!(tag("0xffffffffffffffff"), block(u64::MAX));
    for text in ["0x", "0x+", "0x-1", "0xg", "0x1_0", "0x10000000000000000", "10", "-0x1", "0x\u{212a}"] {
        assert_eq!(tag(text), None);
    }
    for text in ["10", "x10", "0 x10"] {
        let error = BlockNumberOrTagExt::parse(text).expect_err("the prefix is missing");
        assert_eq!(error.message, "hex string without 0x prefix");
    }
    assert_eq!(
        BlockNumberOrTagExt::parse("0x").expect_err("digits are missing").message,
        "cannot parse integer from empty string"
    );
}

#[test]
fn a_request_without_a_block_is_about_the_latest() {
    assert_eq!(block_id_or_default(None), LATEST);
    assert_eq!(block_id_or_default(Some(PENDING)), PENDING);
    assert_eq!(BlockId::default(), LATEST);
    let hash = BlockId::Hash(RpcBlockHash { block_hash: [9; 32], require_canonical: Some(true) });
    assert!(!hash.is_pending());
}

#[test]
fn pending_block_comes_from_the_snapshot_or_the_latest_block() {
    let pending = BlockNumberOrTagExt::new(BlockNumberOrTag::Pending);
    assert_eq!(block_by_number(pending, Some(Some("block"))), Resolution::Answer(Some("block")));
    assert_eq!(block_by_number::<u8>(pending, Some(None)), Resolution::Answer(None));
    assert_eq!(block_by_number::<u8>(pending, None), Resolution::Canonical(LATEST));
    let safe = BlockNumberOrTagExt::new(BlockNumberOrTag::Safe);
    assert_eq!(
        block_by_number(safe, Some(Some("block"))),
        Resolution::Canonical(BlockId::Number(BlockNumberOrTag::Safe))
    );
}

#[test]
fn canonical_receipts_and_transactions_come_first() {
    assert_eq!(get_transaction_receipt::<_, u8>(Ok(Some("canonical")), Some("pending")), Ok(Some("canonical")));
    assert_eq!(get_transaction_receipt::<_, u8>(Ok(None), Some("pending")), Ok(Some("pending")));
    assert_eq!(get_transaction_receipt::<&str, u8>(Ok(None), None), Ok(None));
    assert_eq!(get_transaction_receipt(Err(4), Some("pending")), Err(4));
    assert_eq!(transaction_by_hash::<_, u8>(Ok(Some(Ok("canonical"))), Some("pending")), Ok(Some("canonical")));
    assert_eq!(transaction_by_hash(Ok(Some(Err(5))), Some("pending")), Err(5));
    assert_eq!(transaction_by_hash::<_, u8>(Ok(None), Some("pending")), Ok(Some("pending")));
    assert_eq!(transaction_by_hash(Err(6), Some("pending")), Err(6));
}

#[test]
fn balance_is_pending_only_where_asked_for_and_known() {
    assert_eq!(get_balance(Some(PENDING), Some(number(8))), Resolution::Answer(number(8)));
    assert_eq!(get_balance(Some(PENDING), None), Resolution::Canonical(Some(PENDING)));
    assert_eq!(get_balance(None, Some(number(8))), Resolution::Canonical(None));
    assert_eq!(get_balance(Some(LATEST), Some(number(8))), Resolution::Canonical(Some(LATEST)));
}

#[test]
fn pending_transactions_are_counted_on_top_of_the_canonical_block_below() {
    let query = transaction_count_query(Some(PENDING), BlockNumberOrTag::Number(9), number(2));
    assert_eq!(
        query,
        TransactionCountQuery {
            block: Some(BlockId::Number(BlockNumberOrTag::Number(9))),
            pending: Some(number(2)),
        }
    );
    assert_eq!(get_transaction_count::<u8>(query, Ok(number(40))), Ok(number(42)));
    assert_eq!(get_transaction_count(query, Err(1)), Err(1));
    let other = transaction_count_query(None, BlockNumberOrTag::Number(9), number(2));
    assert_eq!(other, TransactionCountQuery { block: None, pending: None });
    assert_eq!(get_transaction_count::<u8>(other, Ok(number(40))), Ok(number(40)));
}

#[test]
fn the_block_below_the_pending_state_is_the_latest_without_a_snapshot() {
    assert_eq!(get_canonical_block_number(Some(&snapshot())), BlockNumberOrTag::Number(9));
    assert_eq!(get_canonical_block_number(None), BlockNumberOrTag::Latest);
}

#[test]
fn counts_are_added_over_all_limbs_and_wrap() {
    let query = transaction_count_query(
        Some(PENDING),
        BlockNumberOrTag::Number(9),
        U256 { limbs: [1, 0, 0, 0] },
    );
    assert_eq!(
        get_transaction_count::<u8>(query, Ok(U256 { limbs: [u64::MAX, u64::MAX, 3, 4] })),
        Ok(U256 { limbs: [0, 0, 4, 4] })
    );
    assert_eq!(
        get_transaction_count::<u8>(query, Ok(U256 { limbs: [u64::MAX; 4] })),
        Ok(U256 { limbs: [0; 4] })
    );
}

#[test]
fn pending_transaction_count_comes_from_the_snapshot_or_the_latest_block() {
    let pending = BlockNumberOrTag::Pending;
    assert_eq!(
        get_block_transaction_count_by_number(pending, Some(3)),
        Resolution::Answer(Some(number(3)))
    );
    assert_eq!(get_block_transaction_count_by_number(pending, None), Resolution::Canonical(LATEST));
    assert_eq!(
        get_block_transaction_count_by_number(BlockNumberOrTag::Number(4), Some(3)),
        Resolution::Canonical(BlockId::Number(BlockNumberOrTag::Number(4)))
    );
    assert_eq!(block_transaction_count_reply::<u8>(Ok(Some(7))), Ok(Some(number(7))));
    assert_eq!(block_transaction_count_reply::<u8>(Ok(None)), Ok(None));
    assert_eq!(block_transaction_count_reply(Err(2)), Err(2));
}

#[test]
fn pending_requests_execute_on_the_block_below_the_snapshot() {
    let pending = snapshot();
    let (block, overrides) =
        pending_execution_overrides(PENDING, Ok(Some(&pending))).expect("the snapshot is there");
    assert_eq!(block, BlockId::Number(BlockNumberOrTag::Number(9)));
    let environment = overrides.block.expect("the environment is set");
    assert_eq!(
        *environment,
        BlockOverrides {
            number: Some(number(12)),
            difficulty: Some(number(5)),
            time: Some(99),
            gas_limit: Some(30),
            coinbase: Some([1; 20]),
            random: Some([2; 32]),
            base_fee: None,
            blob_base_fee: None,
            beacon_root: Some([3; 32]),
            block_hash: None,
        }
    );
    let state = overrides.state.expect("the account state is set");
    assert_eq!(state.get([7; 20]).and_then(|account| account.nonce), Some(3));
    assert_eq!(pending.earliest_block_number(), 10);
}

#[test]
fn other_requests_ignore_the_snapshot_and_its_failures() {
    let pending = snapshot();
    for reply in [Ok(Some(&pending)), Ok(None), Err("busy".to_owned())] {
        assert_eq!(
            pending_execution_overrides(LATEST, reply),
            Ok((LATEST, EvmOverrides { state: None, block: None }))
        );
    }
    assert_eq!(
        pending_execution_overrides(PENDING, Ok(None)),
        Ok((LATEST, EvmOverrides { state: None, block: None }))
    );
}

#[test]
fn a_snapshot_that_cannot_be_prepared_fails_pending_requests() {
    let refused = |error: ErrorObject| {
        assert_eq!(error.code, INTERNAL_ERROR_CODE);
        assert_eq!(error.code, -32603);
        assert_eq!(
            error.message,
            "failed to acquire pending state preparation permit: closed"
        );
    };
    refused(call(Some(PENDING), Err("closed".to_owned()), None, None).expect_err("no permit"));
    refused(estimate_gas(Some(PENDING), Err("closed".to_owned()), None).expect_err("no permit"));
    let mut opts = SimulatePayload::<u8> {
        block_state_calls: vec![],
        trace_transfers: true,
        validation: true,
        return_full_transactions: true,
    };
    refused(
        simulate_v1(&mut opts, Some(PENDING), Err("closed".to_owned())).expect_err("no permit"),
    );
    assert!(call(None, Err("closed".to_owned()), None, None).is_ok());
}

#[test]
fn calls_and_estimates_lay_their_overrides_over_the_snapshot() {
    let pending = snapshot();
    let user = || {
        let mut state = StateOverride::new();
        state.insert([7; 20], AccountOverride { balance: Some(number(1)), ..Default::default() });
        state
    };
    let block = BlockOverrides { time: Some(1), ..Default::default() };
    let (anchor, overrides) =
        call(Some(PENDING), Ok(Some(&pending)), Some(user()), Some(Box::new(block)))
            .expect("the snapshot is there");
    assert_eq!(anchor, BlockId::Number(BlockNumberOrTag::Number(9)));
    let environment = overrides.block.expect("the environment is set");
    assert_eq!((environment.time, environment.gas_limit), (Some(1), Some(30)));
    let state = overrides.state.expect("the account state is set");
    let account = state.get([7; 20]).expect("the account is overridden");
    assert_eq!((account.balance, account.nonce), (Some(number(1)), Some(3)));

    let (anchor, overrides) =
        estimate_gas(Some(PENDING), Ok(Some(&pending)), Some(user())).expect("it is there");
    assert_eq!(anchor, BlockId::Number(BlockNumberOrTag::Number(9)));
    assert_eq!(overrides.block.and_then(|block| block.time), Some(99));

    let (latest, overrides) = call(None, Ok(Some(&pending)), Some(user()), None).expect("latest");
    assert_eq!(latest, LATEST);
    assert_eq!(overrides, EvmOverrides { state: Some(user()), block: None });
}

#[test]
fn simulations_start_from_the_snapshot() {
    let pending = snapshot();
    let block = |calls: Vec<u8>| SimBlock { block_overrides: None, state_overrides: None, calls };
    let mut opts = SimulatePayload {
        block_state_calls: vec![block(vec![1]), block(vec![2])],
        trace_transfers: true,
        validation: false,
        return_full_transactions: true,
    };
    let start = simulate_v1(&mut opts, Some(PENDING), Ok(Some(&pending)));
    assert_eq!(start, Ok(BlockId::Number(BlockNumberOrTag::Number(9))));
    assert_eq!(opts.block_state_calls[0].calls, vec![1]);
    assert!(opts.block_state_calls[0].state_overrides.is_some());
    assert_eq!(opts.block_state_calls[1].calls, vec![2]);
    assert!(opts.block_state_calls[1].state_overrides.is_none());
    assert!(opts.block_state_calls[1].block_overrides.is_none());
    assert!(opts.trace_transfers && !opts.validation && opts.return_full_transactions);

    let mut empty = SimulatePayload::<u8> {
        block_state_calls: vec![],
        trace_transfers: false,
        validation: false,
        return_full_transactions: false,
    };
    assert!(simulate_v1(&mut empty, Some(PENDING), Ok(Some(&pending))).is_ok());
    assert!(empty.block_state_calls.is_empty());
}

#[test]
fn overrides_applied_in_turn_are_their_merge_applied_at_once() {
    let account = |nonce: Option<u64>, slot: Option<(u8, u8)>| {
        let state_diff = slot.map(|(key, value)| {
            let mut storage = Storage::new();
            storage.insert([key; 32], [value; 32]);
            storage
        });
        let mut state = StateOverride::new();
        state.insert([1; 20], AccountOverride { nonce, state_diff, ..Default::default() });
        EvmOverrides { state: Some(state), block: None }
    };
    let pending = || account(Some(1), Some((1, 1)));
    let first = || account(None, Some((2, 2)));
    let second = || account(Some(9), Some((1, 7)));
    let in_turn = merge_overrides(
        merge_overrides(pending(), first().state, None),
        second().state,
        None,
    );
    let both = merge_overrides(first(), second().state, None);
    assert_eq!(in_turn, merge_overrides(pending(), both.state, both.block));
    let state = in_turn.state.expect("the account is overridden");
    let account = state.get([1; 20]).expect("the account is overridden");
    assert_eq!(account.nonce, Some(9));
    let slots = account.state_diff.as_ref().expect("slots are listed");
    assert_eq!(slots.get([1; 32]), Some([7; 32]));
    assert_eq!(slots.get([2; 32]), Some([2; 32]));
    assert_eq!(slots.get([3; 32]), None);
}

#[test]
fn user_block_hashes_are_added_to_the_pending_ones() {
    let hashes = |entries: &[(u64, u8)]| {
        let hashes: BTreeMap<u64, Word> =
            entries.iter().map(|(number, byte)| (*number, [*byte; 32])).collect();
        Some(Box::new(BlockOverrides { block_hash: Some(hashes), ..Default::default() }))
    };
    let pending = EvmOverrides { state: None, block: hashes(&[(1, 1), (2, 2)]) };
    let merged = merge_overrides(pending, None, hashes(&[(2, 9), (3, 3)]));
    assert_eq!(merged.block, hashes(&[(1, 1), (2, 9), (3, 3)]));
}

#[test]
fn timeouts_are_limited_and_default_to_the_limit() {
    let error = SendRawTransactionSync::start(Some(6_001)).expect_err("over the limit");
    assert_eq!(error.code, INVALID_PARAMS_CODE);
    assert_eq!(error.code, jsonrpsee_types::error::INVALID_PARAMS_CODE);
    assert_eq!(error.message, "time out too long, timeout: 6001 ms, max: 6000 ms");
    let longest = SendRawTransactionSync::start(Some(u64::MAX)).expect_err("over the limit");
    assert_eq!(
        longest.message,
        "time out too long, timeout: 18446744073709551615 ms, max: 6000 ms"
    );
    for (requested, waited) in [(Some(6_000), 6_000), (Some(0), 0), (None, 6_000)] {
        let request = SendRawTransactionSync::start(requested).expect("within the limit");
        let waiting = request.on_sent::<u8>(Ok([4; 32])).expect("sent");
        assert_eq!((waiting.tx_hash(), waiting.timeout_ms()), ([4; 32], waited));
    }
    let request = SendRawTransactionSync::start(None).expect("within the limit");
    assert_eq!(request.on_sent(Err(3)).expect_err("not sent"), 3);
}

#[test]
fn a_sent_transaction_is_answered_with_its_receipt_or_the_timeout() {
    let reply = |event: ReceiptEvent<&'static str>| {
        SendRawTransactionSync::start(Some(50))
            .expect("within the limit")
            .on_sent::<u8>(Ok([4; 32]))
            .expect("sent")
            .on_event(event)
    };
    let timeout = Err(ConfirmationTimeout { hash: [4; 32], duration_ms: 50 });
    assert_eq!(reply(ReceiptEvent::Flashblocks(Some("receipt"))), Ok("receipt"));
    assert_eq!(reply(ReceiptEvent::Canonical(Some("receipt"))), Ok("receipt"));
    assert_eq!(reply(ReceiptEvent::Flashblocks(None)), timeout);
    assert_eq!(reply(ReceiptEvent::Canonical(None)), timeout);
    assert_eq!(reply(ReceiptEvent::Elapsed), timeout);
}

#[test]
fn flashblocks_wait_ends_with_a_receipt_or_the_stream() {
    assert_eq!(wait_for_flashblocks_receipt(FlashblocksEvent::State(Some(1))), Wait::Done(Some(1)));
    assert_eq!(wait_for_flashblocks_receipt::<u8>(FlashblocksEvent::State(None)), Wait::Continue);
    assert_eq!(wait_for_flashblocks_receipt::<u8>(FlashblocksEvent::Lagged(3)), Wait::Continue);
    assert_eq!(wait_for_flashblocks_receipt::<u8>(FlashblocksEvent::Closed), Wait::Done(None));
}

#[test]
fn canonical_wait_fetches_once_a_block_holds_the_transaction() {
    let hash = [1; 32];
    let mut near = hash;
    near[31] = 2;
    let step = |event: CanonicalEvent| wait_for_canonical_receipt(&event, hash);
    assert_eq!(step(CanonicalEvent::State(vec![])), CanonicalWait::Continue);
    assert_eq!(step(CanonicalEvent::State(vec![vec![near], vec![]])), CanonicalWait::Continue);
    assert_eq!(
        step(CanonicalEvent::State(vec![vec![near], vec![near, hash]])),
        CanonicalWait::FetchReceipt
    );
    assert_eq!(step(CanonicalEvent::Lagged), CanonicalWait::GiveUp);
    assert_eq!(step(CanonicalEvent::Ended), CanonicalWait::GiveUp);
    assert_eq!(canonical_receipt::<_, u8>(Ok(Some("receipt"))), Some("receipt"));
    assert_eq!(canonical_receipt::<&str, u8>(Ok(None)), None);
    assert_eq!(canonical_receipt::<&str, _>(Err(1)), None);
}

fn log(block_number: Option<u64>, log_index: Option<u64>, data: &'static str) -> Log<&'static str> {
    Log { block_number, log_index, data }
}

#[test]
fn only_ranges_that_end_at_pending_take_pending_logs_in() {
    let range = |from_block: Option<BlockNumberOrTag>, to_block: Option<BlockNumberOrTag>| {
        FilterBlockOption::Range { from_block, to_block }
    };
    let pending = Some(BlockNumberOrTag::Pending);
    let five = Some(BlockNumberOrTag::Number(5));
    let latest = Some(BlockNumberOrTag::Latest);
    assert_eq!(get_logs_plan(FilterBlockOption::AtBlockHash([1; 32])), LogsPlan::Canonical);
    assert_eq!(get_logs_plan(range(pending, latest)), LogsPlan::Canonical);
    assert_eq!(get_logs_plan(range(five, None)), LogsPlan::Canonical);
    assert_eq!(get_logs_plan(range(pending, pending)), LogsPlan::Pending);
    assert_eq!(
        get_logs_plan(range(five, pending)),
        LogsPlan::Mixed { historical: range(five, latest) }
    );
    assert_eq!(
        get_logs_plan(range(None, pending)),
        LogsPlan::Mixed { historical: range(None, latest) }
    );
}

#[test]
fn pending_logs_that_became_canonical_are_not_repeated() {
    let historical = vec![log(Some(1), Some(0), "a"), log(Some(1), Some(1), "b"), log(None, None, "n")];
    let pending = vec![
        log(Some(2), Some(1), "d"),
        log(Some(1), Some(1), "b again"),
        log(Some(1), None, "e"),
        log(None, None, "n again"),
        log(Some(2), Some(1), "d again"),
    ];
    let data: Vec<&str> = combine_logs(historical, pending).iter().map(|log| log.data).collect();
    assert_eq!(data, vec!["a", "b", "n", "d", "e", "d again"]);
    assert_eq!(get_logs_reply(Err(7), vec![log(Some(1), Some(0), "a")]), Err(7));
    assert_eq!(
        get_logs_reply::<_, u8>(Ok(vec![]), vec![log(Some(1), Some(0), "a")]),
        Ok(vec![log(Some(1), Some(0), "a")])
    );
}

#[test]
fn the_extended_api_holds_its_parts() {
    let api = EthApiExt::new("eth", "filter", Arc::new("state"));
    assert_eq!((api.eth_api, api.eth_filter, *api.flashblocks_state), ("eth", "filter", "state"));
}

#[test]
fn numbers_read_in_decimal() {
    assert_eq!(decimal_text(0), "0");
    assert_eq!(decimal_text(10), "10");
    assert_eq!(decimal_text(9_876_543_210), "9876543210");
}

fn account_with(nonce: Option<u64>, full: Option<u8>, listed: Option<u8>) -> AccountOverride {
    let storage = |value: u8| {
        let mut storage = Storage::new();
        storage.insert([1; 32], [value; 32]);
        storage
    };
    AccountOverride {
        nonce,
        state: full.map(storage),
        state_diff: listed.map(storage),
        ..Default::default()
    }
}

fn overriding(address: u8, account: AccountOverride) -> EvmOverrides {
    let mut state = StateOverride::new();
    state.insert([address; 20], account);
    EvmOverrides { state: Some(state), block: None }
}

#[test]
fn empty_overrides_change_nothing_on_either_side() {
    let pending = || overriding(1, account_with(Some(1), None, Some(2)));
    assert_eq!(merge_overrides(pending(), None, None), pending());
    assert_eq!(merge_overrides(EvmOverrides::default(), pending().state, None), pending());
    let nothing = overriding(1, AccountOverride::default());
    assert_eq!(merge_overrides(pending(), nothing.state, None), pending());
}

#[test]
fn overrides_applied_twice_are_applied_once() {
    let pending = overriding(1, account_with(Some(1), None, Some(2)));
    let user = || overriding(1, account_with(Some(5), None, Some(6)));
    let once = merge_overrides(pending, user().state, None);
    let state = once.state.clone();
    let twice = merge_overrides(once, user().state, None);
    assert_eq!(twice.state, state);
}

#[test]
fn accounts_that_a_request_leaves_out_keep_their_override() {
    let pending = overriding(1, account_with(Some(1), Some(2), None));
    let user = overriding(2, account_with(Some(3), None, Some(4)));
    let state = merge_overrides(pending, user.state, None).state.expect("accounts are overridden");
    assert_eq!(state.get([1; 20]), Some(&account_with(Some(1), Some(2), None)));
    assert_eq!(state.get([2; 20]), Some(&account_with(Some(3), None, Some(4))));
    assert_eq!(state.get([3; 20]), None);
    let mut addresses = state.addresses();
    addresses.sort();
    assert_eq!(addresses, vec![[1; 20], [2; 20]]);
}

#[test]
fn valid_requests_stay_valid_over_a_replaced_storage() {
    let pending = overriding(1, account_with(None, Some(2), None));
    let user = overriding(1, account_with(None, None, Some(4)));
    let state = merge_overrides(pending, user.state, None).state.expect("an account is overridden");
    assert_eq!(state.get([1; 20]), Some(&account_with(None, Some(4), None)));
}

#[test]
fn a_copied_state_is_independent() {
    let mut state = overriding(1, account_with(Some(1), None, Some(2))).state.expect("set above");
    let copy = state.clone();
    state.insert([1; 20], account_with(Some(9), None, None));
    assert_eq!(copy.get([1; 20]), Some(&account_with(Some(1), None, Some(2))));
    let storage = copy.get([1; 20]).and_then(|account| account.state_diff.clone());
    assert_eq!(storage.map(|storage| storage.entries()), Some(vec![([1; 32], [2; 32])]));
}

#[test]
fn flashblocks_wait_takes_the_first_receipt_of_a_run() {
    let run = vec![
        FlashblocksEvent::State(None),
        FlashblocksEvent::Lagged(2),
        FlashblocksEvent::State(Some("first")),
        FlashblocksEvent::State(Some("second")),
        FlashblocksEvent::Closed,
    ];
    let ended = run.into_iter().map(wait_for_flashblocks_receipt).find(|wait| *wait != Wait::Continue);
    assert_eq!(ended, Some(Wait::Done(Some("first"))));
    let without = vec![FlashblocksEvent::State(None), FlashblocksEvent::Closed];
    let ended: Option<Wait<&str>> =
        without.into_iter().map(wait_for_flashblocks_receipt).find(|wait| *wait != Wait::Continue);
    assert_eq!(ended, Some(Wait::Done(None)));
}

#[test]
fn canonical_wait_fetches_at_the_first_block_of_a_run() {
    let hash = [1; 32];
    let steps: Vec<CanonicalWait> = [
        CanonicalEvent::State(vec![vec![[2; 32]]]),
        CanonicalEvent::State(vec![vec![], vec![hash]]),
        CanonicalEvent::Ended,
    ]
    .iter()
    .map(|event| wait_for_canonical_receipt(event, hash))
    .collect();
    assert_eq!(
        steps,
        vec![CanonicalWait::Continue, CanonicalWait::FetchReceipt, CanonicalWait::GiveUp]
    );
}

#[test]
fn a_snapshot_needs_a_block_below_and_a_last_block_not_before_the_first() {
    let header = |number: u64| Header { number, ..snapshot().latest_header() };
    assert!(PendingBlocks::try_new(0, header(12), None).is_none());
    assert!(PendingBlocks::try_new(0, header(0), None).is_none());
    assert!(PendingBlocks::try_new(13, header(12), None).is_none());
    for earliest in [1, 12] {
        let pending = PendingBlocks::try_new(earliest, header(12), None).expect("a run of blocks");
        assert_eq!(pending.earliest_block_number(), earliest);
        assert_eq!(pending.latest_header(), header(12));
        assert_eq!(pending.canonical_block_number(), BlockNumberOrTag::Number(earliest - 1));
        assert_eq!(pending.get_state_overrides(), None);
    }
}

#[test]
fn canonical_wait_gives_up_at_the_first_gap_of_a_run() {
    let hash = [1; 32];
    for gap in [CanonicalEvent::Lagged, CanonicalEvent::Ended] {
        let run = vec![
            CanonicalEvent::State(vec![vec![[2; 32]]]),
            gap,
            CanonicalEvent::State(vec![vec![hash]]),
        ];
        let decided = run
            .iter()
            .map(|event| wait_for_canonical_receipt(event, hash))
            .find(|step| *step != CanonicalWait::Continue);
        assert_eq!(decided, Some(CanonicalWait::GiveUp));
    }
}

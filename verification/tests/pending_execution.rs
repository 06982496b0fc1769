//! Pending overrides checked by executing real EVM code on them.

use alloy_eips::eip2935::{HISTORY_STORAGE_ADDRESS, HISTORY_STORAGE_CODE};
use alloy_eips::eip4788::{BEACON_ROOTS_ADDRESS, BEACON_ROOTS_CODE};
use alloy_evm::overrides::{apply_block_overrides, apply_state_overrides};
use alloy_primitives::{Address, Bytes, TxKind, B256, KECCAK256_EMPTY, U256};
use base_flashblocks::block_id::{BlockId, BlockNumberOrTag};
use base_flashblocks::collections::Storage;
use base_flashblocks::merge::merge_overrides;
use base_flashblocks::overrides::{AccountOverride, BlockOverrides, StateOverride};
use base_flashblocks::pending::{pending_snapshot_overrides, Header, PendingBlocks};
use base_flashblocks::primitives;
use base_flashblocks::simulate::{apply_pending_simulation_overrides, SimBlock, SimulatePayload};
use base_flashblocks::state_builder::{
    accumulate_pending_state_overrides, apply_pre_execution_changes, needs_stored_code,
    AccountChange, SystemChangesError, KECCAK256_EMPTY as LIBRARY_KECCAK256_EMPTY,
};
use revm::bytecode::Bytecode;
use revm::context::{BlockEnv, TxEnv};
use revm::database::{CacheDB, EmptyDB, InMemoryDB};
use revm::primitives::hardfork::SpecId;
use revm::state::{Account, AccountInfo, EvmState, EvmStorageSlot};
use revm::{
    Context, Database, DatabaseCommit, ExecuteEvm, MainBuilder, MainContext, SystemCallEvm,
};
use std::error::Error;
use std::sync::Arc;

type TestResult = Result<(), Box<dyn Error>>;

fn number(value: u64) -> primitives::U256 {
    primitives::U256::from_u64(value)
}

fn alloy_number(value: primitives::U256) -> U256 {
    U256::from_limbs(value.limbs)
}

fn slots(entries: &[(B256, B256)]) -> Storage {
    let mut storage = Storage::new();
    for (key, value) in entries {
        storage.insert(key.0, value.0);
    }
    storage
}

fn alloy_storage(storage: &Storage) -> alloy_primitives::map::B256HashMap<B256> {
    storage.entries().into_iter().map(|(key, value)| (B256::from(key), B256::from(value))).collect()
}

fn alloy_state(state: &StateOverride) -> alloy_rpc_types_eth::state::StateOverride {
    let mut overrides = alloy_rpc_types_eth::state::StateOverride::default();
    for address in state.addresses() {
        let account = state.get(address).expect("a listed address has an override");
        overrides.insert(
            Address::from(address),
            alloy_rpc_types_eth::state::AccountOverride {
                balance: account.balance.map(alloy_number),
                nonce: account.nonce,
                code: account.code.clone().map(Bytes::from),
                state: account.state.as_ref().map(alloy_storage),
                state_diff: account.state_diff.as_ref().map(alloy_storage),
                move_precompile_to: account.move_precompile_to.map(Address::from),
            },
        );
    }
    overrides
}

fn alloy_block(block: &BlockOverrides) -> alloy_rpc_types_eth::BlockOverrides {
    alloy_rpc_types_eth::BlockOverrides {
        number: block.number.map(alloy_number),
        difficulty: block.difficulty.map(alloy_number),
        time: block.time,
        gas_limit: block.gas_limit,
        coinbase: block.coinbase.map(Address::from),
        random: block.random.map(B256::from),
        base_fee: block.base_fee.map(alloy_number),
        blob_base_fee: block.blob_base_fee.map(alloy_number),
        beacon_root: block.beacon_root.map(B256::from),
        ..Default::default()
    }
}

fn pending_snapshot(block_number: u64, timestamp: u64) -> PendingBlocks {
    let header = Header {
        number: block_number,
        difficulty: number(0),
        timestamp,
        gas_limit: 30_000_000,
        beneficiary: Address::repeat_byte(0x11).into_array(),
        mix_hash: B256::repeat_byte(0x22).0,
        base_fee_per_gas: Some(1000),
        parent_beacon_block_root: None,
    };
    let mut state = StateOverride::new();
    state.insert(
        Address::repeat_byte(0x55).into_array(),
        AccountOverride {
            balance: Some(number(block_number)),
            nonce: Some(3),
            state_diff: Some(slots(&[
                (B256::ZERO, B256::repeat_byte(3)),
                (B256::repeat_byte(1), B256::repeat_byte(2)),
            ])),
            ..Default::default()
        },
    );
    PendingBlocks::new(block_number, header, Some(state))
}

fn one_account(address: Address, account: AccountOverride) -> StateOverride {
    let mut state = StateOverride::new();
    state.insert(address.into_array(), account);
    state
}

#[test]
fn pending_call_opcodes_use_the_same_snapshot_header_as_state() -> TestResult {
    let pending = pending_snapshot(51_044_736, 1_788_878_819);
    let (state_block, overrides) = pending_snapshot_overrides(&pending);
    assert_eq!(state_block, BlockId::Number(BlockNumberOrTag::Number(51_044_735)));
    let block = overrides.block.ok_or("pending block environment is missing")?;
    let mut database = CacheDB::<EmptyDB>::default();
    let address = Address::repeat_byte(0x55);
    let caller = Address::repeat_byte(0x66);
    let code = Bytecode::new_legacy(Bytes::from_static(&[
        0x43, 0x60, 0x00, 0x52, 0x42, 0x60, 0x20, 0x52, 0x45, 0x60, 0x40, 0x52, 0x41, 0x60, 0x60,
        0x52, 0x48, 0x60, 0x80, 0x52, 0x44, 0x60, 0xa0, 0x52, 0x60, 0xc0, 0x60, 0x00, 0xf3,
    ]));
    database.insert_account_info(address, AccountInfo { code: Some(code), ..Default::default() });
    database.insert_account_info(
        caller,
        AccountInfo { balance: U256::from(1_000_000_000_000_000_000_u64), ..Default::default() },
    );
    let mut environment = BlockEnv {
        number: U256::from(51_044_735),
        timestamp: U256::from(1_788_878_817),
        ..Default::default()
    };
    apply_block_overrides(alloy_block(&block), &mut database, &mut environment);
    let mut evm = Context::mainnet()
        .modify_cfg_chained(|cfg| cfg.set_spec_and_mainnet_gas_params(SpecId::CANCUN))
        .with_block(environment)
        .with_db(database)
        .build_mainnet();
    let transaction = TxEnv::builder()
        .caller(caller)
        .kind(TxKind::Call(address))
        .gas_limit(100_000)
        .gas_price(1000)
        .build()
        .map_err(|error| format!("{error:?}"))?;
    let result = evm.transact(transaction)?;
    let output = result.result.output().ok_or("pending opcode call did not succeed")?;
    let words: Vec<U256> = output.chunks_exact(32).map(U256::from_be_slice).collect();
    assert_eq!(
        words,
        vec![
            U256::from(51_044_736),
            U256::from(1_788_878_819),
            U256::from(30_000_000),
            U256::from_be_slice(Address::repeat_byte(0x11).as_slice()),
            U256::from(1000),
            U256::from_be_slice(B256::repeat_byte(0x22).as_slice()),
        ]
    );
    assert_eq!(
        overrides.state.and_then(|state| state
            .get(address.into_array())
            .and_then(|account| account.balance)),
        Some(number(51_044_736))
    );
    Ok(())
}

#[test]
fn user_overrides_replace_only_explicit_pending_fields() -> TestResult {
    let pending = pending_snapshot(100, 200);
    let (_, overrides) = pending_snapshot_overrides(&pending);
    let address = Address::repeat_byte(0x55);
    let user_state = one_account(
        address,
        AccountOverride {
            nonce: Some(99),
            state_diff: Some(slots(&[(B256::ZERO, B256::repeat_byte(0x99))])),
            ..Default::default()
        },
    );
    let merged = merge_overrides(
        overrides,
        Some(user_state),
        Some(Box::new(BlockOverrides {
            number: Some(number(123)),
            time: Some(456),
            ..Default::default()
        })),
    );
    let block = merged.block.ok_or("merged block override missing")?;
    assert_eq!(block.number, Some(number(123)));
    assert_eq!(block.time, Some(456));
    assert_eq!(block.base_fee, Some(number(1000)));
    assert_eq!(block.gas_limit, Some(30_000_000));
    let state = merged.state.ok_or("merged state override missing")?;
    let account = state.get(address.into_array()).ok_or("merged account missing")?;
    assert_eq!(account.balance, Some(number(100)));
    assert_eq!(account.nonce, Some(99));
    let storage = account.state_diff.as_ref().ok_or("merged storage missing")?;
    assert_eq!(storage.get(B256::ZERO.0), Some(B256::repeat_byte(0x99).0));
    assert_eq!(storage.get(B256::repeat_byte(1).0), Some(B256::repeat_byte(2).0));
    Ok(())
}

#[test]
fn full_user_storage_replaces_pending_storage_before_later_diffs() -> TestResult {
    let (_, pending) = pending_snapshot_overrides(&pending_snapshot(100, 200));
    let address = Address::repeat_byte(0x55);
    let user = AccountOverride {
        state: Some(slots(&[(B256::ZERO, B256::repeat_byte(5))])),
        ..Default::default()
    };
    let full = merge_overrides(pending, Some(one_account(address, user)), None);
    let user = AccountOverride {
        state_diff: Some(slots(&[(B256::ZERO, B256::repeat_byte(6))])),
        ..Default::default()
    };
    let merged = merge_overrides(full, Some(one_account(address, user)), None);
    let accounts = merged.state.ok_or("storage override missing")?;
    let account = accounts.get(address.into_array()).ok_or("storage account missing")?;
    let storage = account.state.as_ref().ok_or("full storage override missing")?;
    assert_eq!(storage.entries().len(), 1);
    assert_eq!(storage.get(B256::ZERO.0), Some(B256::repeat_byte(6).0));
    assert!(account.state_diff.is_none());
    assert_eq!(account.nonce, Some(3));
    Ok(())
}

#[test]
fn simulation_applies_pending_state_once_and_preserves_later_blocks() -> TestResult {
    let (_, pending) = pending_snapshot_overrides(&pending_snapshot(100, 200));
    let user_block = || BlockOverrides {
        number: Some(number(105)),
        time: Some(210),
        ..Default::default()
    };
    let first = SimBlock::<u8> { block_overrides: None, state_overrides: None, calls: vec![] };
    let second = SimBlock::<u8> {
        block_overrides: Some(user_block()),
        state_overrides: None,
        calls: vec![],
    };
    let mut payload = SimulatePayload {
        block_state_calls: vec![first, second],
        trace_transfers: false,
        validation: false,
        return_full_transactions: false,
    };
    apply_pending_simulation_overrides(&mut payload, pending);
    let first = payload.block_state_calls.first().ok_or("first simulated block missing")?;
    assert!(first.state_overrides.is_some());
    assert_eq!(
        first.block_overrides.as_ref().and_then(|block| block.number),
        Some(number(100))
    );
    let retained = payload.block_state_calls.get(1).ok_or("second simulated block missing")?;
    assert_eq!(retained.block_overrides, Some(user_block()));
    assert!(retained.state_overrides.is_none());
    Ok(())
}

#[test]
fn captured_pending_state_and_header_remain_coherent_after_publication() -> TestResult {
    let current = arc_swap::ArcSwapOption::from(Some(Arc::new(pending_snapshot(100, 200))));
    let captured = current.load_full().ok_or("captured pending snapshot missing")?;
    current.store(Some(Arc::new(pending_snapshot(101, 202))));
    let (state_block, overrides) = pending_snapshot_overrides(&captured);
    assert_eq!(state_block, BlockId::Number(BlockNumberOrTag::Number(99)));
    assert_eq!(
        overrides.block.as_ref().and_then(|block| block.number),
        Some(number(100))
    );
    assert_eq!(overrides.block.as_ref().and_then(|block| block.time), Some(200));
    assert_eq!(
        overrides.state.and_then(|state| state
            .get(Address::repeat_byte(0x55).into_array())
            .and_then(|account| account.balance)),
        Some(number(100))
    );
    Ok(())
}

// Returns slot zero, EXTCODESIZE(address(this)), and EXTCODEHASH(address(this)).
fn introspecting_code() -> Bytecode {
    Bytecode::new_legacy(Bytes::from_static(&[
        0x60, 0x00, 0x54, 0x60, 0x00, 0x52, 0x30, 0x3b, 0x60, 0x20, 0x52, 0x30, 0x3f, 0x60, 0x40,
        0x52, 0x60, 0x60, 0x60, 0x00, 0xf3,
    ]))
}

fn changed_account(code: Bytecode, slot: u64) -> Account {
    let mut account = Account::from(AccountInfo {
        nonce: 1,
        balance: U256::from(100),
        code_hash: code.hash_slow(),
        code: Some(code),
        ..Default::default()
    });
    account.mark_touch();
    account.storage.insert(
        U256::ZERO,
        EvmStorageSlot::new_changed(U256::ZERO, U256::from(slot), Default::default()),
    );
    account
}

// What the library reads of an execution result, with the lookups that it asks for.
fn changes(database: &mut InMemoryDB, state: &EvmState) -> Result<Vec<AccountChange>, Box<dyn Error>> {
    let mut changes = Vec::new();
    for (address, account) in state.iter() {
        let committed = database.basic(*address)?;
        let mut change = AccountChange {
            address: address.into_array(),
            touched: account.is_touched(),
            created: account.is_created(),
            selfdestructed: account.is_selfdestructed(),
            balance: primitives::U256 { limbs: account.info.balance.into_limbs() },
            nonce: account.info.nonce,
            code_hash: account.info.code_hash.0,
            code: account.info.code.as_ref().map(|code| code.original_bytes().to_vec()),
            storage: account
                .storage
                .iter()
                .map(|(key, slot)| (key.to_be_bytes::<32>(), slot.present_value.to_be_bytes::<32>()))
                .collect(),
            committed_code_hash: committed.map(|info| info.code_hash.0),
            stored_code: None,
            explicit_code: false,
        };
        if needs_stored_code(&change) {
            let stored = database.code_by_hash(account.info.code_hash)?;
            change.stored_code = Some(stored.original_bytes().to_vec());
        }
        changes.push(change);
    }
    Ok(changes)
}

fn accumulate(
    database: &mut InMemoryDB,
    pending: &mut StateOverride,
    state: &EvmState,
) -> TestResult {
    let changes = changes(database, state)?;
    accumulate_pending_state_overrides(pending, &changes)
        .map_err(|error| error.message().to_owned())?;
    Ok(())
}

// Uses the same override application as eth_call/estimateGas, then executes actual EVM opcodes.
fn call_with_overrides(
    mut database: InMemoryDB,
    overrides: &StateOverride,
    target: Address,
) -> Result<Bytes, Box<dyn Error>> {
    apply_state_overrides(alloy_state(overrides), &mut database)
        .map_err(|error| format!("{error:?}"))?;
    let caller = Address::repeat_byte(0x99);
    database.insert_account_info(
        caller,
        AccountInfo { balance: U256::from(1_000_000_000_u64), ..Default::default() },
    );
    let mut evm = Context::mainnet()
        .modify_cfg_chained(|configuration| {
            configuration.set_spec_and_mainnet_gas_params(SpecId::PRAGUE);
        })
        .with_db(database)
        .build_mainnet();
    let transaction = TxEnv::builder()
        .caller(caller)
        .kind(TxKind::Call(target))
        .gas_limit(100_000)
        .build()
        .map_err(|error| format!("{error:?}"))?;
    let result = evm.transact(transaction)?;
    Ok(result.result.output().ok_or("pending RPC EVM call failed")?.clone())
}

fn expected_output(code: &Bytecode, slot: u64) -> Bytes {
    let mut bytes = Vec::with_capacity(96);
    bytes.extend_from_slice(&U256::from(slot).to_be_bytes::<32>());
    bytes.extend_from_slice(&U256::from(code.len()).to_be_bytes::<32>());
    bytes.extend_from_slice(code.hash_slow().as_slice());
    bytes.into()
}

#[test]
fn unchanged_code_omitted_without_changing_pending_rpc_state_or_code_identity() -> TestResult {
    let address = Address::repeat_byte(0x11);
    let code = introspecting_code();
    let account = changed_account(code.clone(), 42);
    let mut canonical = InMemoryDB::default();
    canonical.insert_account_info(address, account.info.clone());
    let state = EvmState::from_iter([(address, account)]);
    let mut pending = StateOverride::new();
    accumulate(&mut canonical.clone(), &mut pending, &state)?;
    let account = pending.get(address.into_array()).ok_or("pending account missing")?;
    assert!(account.code.is_none());
    assert_eq!(account.balance, Some(number(100)));
    assert_eq!(account.nonce, Some(1));
    let actual = call_with_overrides(canonical.clone(), &pending, address)?;
    assert_eq!(actual, expected_output(&code, 42));

    let mut full = pending.clone();
    let mut account = full.get(address.into_array()).ok_or("full account missing")?.clone();
    account.code = Some(code.original_bytes().to_vec());
    full.insert(address.into_array(), account);
    assert_eq!(call_with_overrides(canonical.clone(), &full, address)?, actual);

    // Interpreter padding is no part of the code: with it both opcodes would read something else.
    assert!(code.bytes().len() > code.original_bytes().len());
    let mut account = pending.get(address.into_array()).ok_or("padded account missing")?.clone();
    account.code = Some(code.bytes().to_vec());
    pending.insert(address.into_array(), account);
    assert_ne!(call_with_overrides(canonical, &pending, address)?, actual);
    Ok(())
}

#[test]
fn pending_creation_survives_later_flashblocks_with_unloaded_and_loaded_code() -> TestResult {
    let address = Address::repeat_byte(0x22);
    let code = introspecting_code();
    let canonical = InMemoryDB::default();
    let mut database = canonical.clone();
    let mut pending = StateOverride::new();
    let mut creation = changed_account(code.clone(), 1);
    creation.mark_created();
    let state = EvmState::from_iter([(address, creation)]);
    accumulate(&mut database, &mut pending, &state)?;
    database.commit(state);
    for slot in [2, 3] {
        let mut account = changed_account(code.clone(), slot);
        if slot == 2 {
            account.info.code = None;
        }
        let state = EvmState::from_iter([(address, account)]);
        accumulate(&mut database, &mut pending, &state)?;
        database.commit(state);
        let account = pending.get(address.into_array()).ok_or("created account missing")?;
        assert_eq!(account.code, Some(code.original_bytes().to_vec()));
        assert!(account.state_diff.is_none());
        assert_eq!(
            call_with_overrides(canonical.clone(), &pending, address)?,
            expected_output(&code, slot)
        );
    }
    Ok(())
}

#[test]
fn delegation_change_and_clear_are_explicit_even_when_bytecode_is_unloaded() -> TestResult {
    let address = Address::repeat_byte(0x33);
    let first_target = Address::repeat_byte(0x44);
    let second_target = Address::repeat_byte(0x55);
    let first_code = Bytecode::new_eip7702(first_target);
    let second_code = Bytecode::new_eip7702(second_target);
    let mut canonical = InMemoryDB::default();
    canonical.insert_account_info(address, changed_account(first_code, 0).info);
    canonical.insert_account_info(second_target, changed_account(introspecting_code(), 0).info);
    let mut database = canonical.clone();
    // A cached result can contain only a code hash; its code must resolve in the database.
    database.cache.contracts.insert(second_code.hash_slow(), second_code.clone());
    let mut changed = changed_account(second_code.clone(), 0);
    changed.info.code = None;
    let state = EvmState::from_iter([(address, changed)]);
    let mut pending = StateOverride::new();
    accumulate(&mut database, &mut pending, &state)?;
    database.commit(state);
    assert_eq!(
        pending.get(address.into_array()).and_then(|account| account.code.clone()),
        Some(second_code.original_bytes().to_vec())
    );
    assert_eq!(
        call_with_overrides(canonical.clone(), &pending, address)?,
        expected_output(&second_code, 0)
    );
    let mut rpc_database = canonical.clone();
    apply_state_overrides(alloy_state(&pending), &mut rpc_database)
        .map_err(|error| format!("{error:?}"))?;
    assert_eq!(
        rpc_database.basic(address)?.ok_or("delegation missing")?.code_hash,
        second_code.hash_slow()
    );

    let mut cleared = changed_account(Bytecode::default(), 0);
    cleared.info.code = None;
    let state = EvmState::from_iter([(address, cleared)]);
    accumulate(&mut database, &mut pending, &state)?;
    assert_eq!(
        pending.get(address.into_array()).and_then(|account| account.code.clone()),
        Some(Vec::new())
    );
    assert_eq!(call_with_overrides(canonical.clone(), &pending, address)?, Bytes::new());
    apply_state_overrides(alloy_state(&pending), &mut canonical)
        .map_err(|error| format!("{error:?}"))?;
    assert_eq!(
        canonical.basic(address)?.ok_or("cleared account missing")?.code_hash,
        KECCAK256_EMPTY
    );
    Ok(())
}

#[test]
fn unresolved_changed_code_fails_closed() -> TestResult {
    let address = Address::repeat_byte(0x66);
    let mut account = changed_account(introspecting_code(), 0);
    account.info.code = None;
    let state = EvmState::from_iter([(address, account)]);
    let result = accumulate(&mut InMemoryDB::default(), &mut StateOverride::new(), &state);
    assert!(result.is_err_and(|error| error.to_string().contains("code hash mismatch")));
    Ok(())
}

#[test]
fn selfdestruct_clears_pending_code_storage_balance_and_nonce() -> TestResult {
    let address = Address::repeat_byte(0x77);
    let code = introspecting_code();
    let canonical = InMemoryDB::default();
    let mut database = canonical.clone();
    let mut pending = StateOverride::new();
    let mut created = changed_account(code.clone(), 42);
    created.mark_created();
    let state = EvmState::from_iter([(address, created)]);
    accumulate(&mut database, &mut pending, &state)?;
    database.commit(state);
    let mut destroyed = changed_account(code, 99);
    destroyed.mark_created();
    destroyed.mark_selfdestruct();
    let state = EvmState::from_iter([(address, destroyed)]);
    accumulate(&mut database, &mut pending, &state)?;
    database.commit(state);
    let mut rpc_database = canonical;
    apply_state_overrides(alloy_state(&pending), &mut rpc_database)
        .map_err(|error| format!("{error:?}"))?;
    assert_eq!(
        rpc_database.basic(address)?.unwrap_or_default(),
        database.basic(address)?.unwrap_or_default()
    );
    assert_eq!(rpc_database.storage(address, U256::ZERO)?, U256::ZERO);
    assert_eq!(call_with_overrides(rpc_database, &StateOverride::new(), address)?, Bytes::new());
    Ok(())
}

#[test]
fn untouched_accounts_do_not_override_canonical_or_prior_pending_state() -> TestResult {
    let address = Address::repeat_byte(0x88);
    let mut account = changed_account(introspecting_code(), 42);
    account.unmark_touch();
    let mut pending = one_account(
        address,
        AccountOverride { code: Some(vec![0x00]), ..Default::default() },
    );
    let previous = pending.clone();
    accumulate(
        &mut InMemoryDB::default(),
        &mut pending,
        &EvmState::from_iter([(address, account)]),
    )?;
    assert_eq!(pending, previous);
    Ok(())
}

const CANYON_TIMESTAMP: u64 = 1_704_992_401;
const SYSTEM_TIMESTAMP: u64 = 1_780_000_000;

// Execute original system bytecode after the same override application used by pending RPC.
fn call_from_canonical(
    mut canonical: InMemoryDB,
    overrides: &StateOverride,
    block_number: u64,
    timestamp: u64,
    target: Address,
    input: Bytes,
) -> Result<Bytes, Box<dyn Error>> {
    apply_state_overrides(alloy_state(overrides), &mut canonical)
        .map_err(|error| format!("{error:?}"))?;
    let caller = Address::repeat_byte(0x99);
    canonical.insert_account_info(
        caller,
        AccountInfo { balance: U256::from(1_000_000_000_u64), ..Default::default() },
    );
    let mut evm = Context::mainnet()
        .modify_cfg_chained(|configuration| {
            configuration.set_spec_and_mainnet_gas_params(SpecId::PRAGUE);
        })
        .modify_block_chained(|block| {
            block.number = U256::from(block_number);
            block.timestamp = U256::from(timestamp);
        })
        .with_db(canonical)
        .build_mainnet();
    let transaction = TxEnv::builder()
        .caller(caller)
        .kind(TxKind::Call(target))
        .data(input)
        .gas_limit(100_000)
        .build()
        .map_err(|error| format!("{error:?}"))?;
    let result = evm.transact(transaction)?;
    if !result.result.is_success() {
        return Err(format!("system contract RPC failed: {:?}", result.result).into());
    }
    Ok(result.result.output().ok_or("system contract RPC returned no output")?.clone())
}

// The state that one system call changes, executed on the pending database.
fn system_call(
    database: &InMemoryDB,
    block_number: u64,
    timestamp: u64,
    contract: Address,
    input: B256,
) -> Result<EvmState, Box<dyn Error>> {
    let mut evm = Context::mainnet()
        .modify_cfg_chained(|configuration| {
            configuration.set_spec_and_mainnet_gas_params(SpecId::PRAGUE);
        })
        .modify_block_chained(|block| {
            block.number = U256::from(block_number);
            block.timestamp = U256::from(timestamp);
        })
        .with_db(database.clone())
        .build_mainnet();
    let called = evm.system_call(contract, Bytes::copy_from_slice(input.as_slice()))?;
    assert!(called.result.is_success());
    Ok(called.state)
}

fn canonical_with_system_contracts() -> InMemoryDB {
    let mut canonical = InMemoryDB::default();
    for (address, bytes) in [
        (HISTORY_STORAGE_ADDRESS, HISTORY_STORAGE_CODE.clone()),
        (BEACON_ROOTS_ADDRESS, BEACON_ROOTS_CODE.clone()),
    ] {
        let code = Bytecode::new_raw(bytes);
        canonical.insert_account_info(
            address,
            AccountInfo {
                code_hash: code.hash_slow(),
                code: Some(code),
                nonce: 1,
                ..Default::default()
            },
        );
    }
    canonical
}

#[test]
fn system_commits_reach_pending_requests_across_blocks() -> TestResult {
    let canonical = canonical_with_system_contracts();
    let mut database = canonical.clone();
    let mut overrides = StateOverride::new();
    for index in 0..2_u64 {
        let block_number = 50_000_000 + index;
        let timestamp = SYSTEM_TIMESTAMP + 2 * index;
        let root = B256::repeat_byte(u8::try_from(index + 0xa0)?);
        let parent = B256::repeat_byte(u8::try_from(index + 0xb0)?);
        let mut commits = Vec::new();
        for (contract, input) in [(HISTORY_STORAGE_ADDRESS, parent), (BEACON_ROOTS_ADDRESS, root)] {
            let state = system_call(&database, block_number, timestamp, contract, input)?;
            database.commit(state.clone());
            commits.push(changes(&mut database, &state)?);
        }
        apply_pre_execution_changes::<String>(&mut overrides, commits, Ok(()))
            .map_err(|error| format!("{error:?}"))?;
        for prior in 0..=index {
            let prior_root = B256::repeat_byte(u8::try_from(prior + 0xa0)?);
            let prior_hash = B256::repeat_byte(u8::try_from(prior + 0xb0)?);
            let root_input = U256::from(SYSTEM_TIMESTAMP + 2 * prior).to_be_bytes::<32>();
            let hash_input = U256::from(49_999_999 + prior).to_be_bytes::<32>();
            assert_eq!(
                call_from_canonical(
                    canonical.clone(),
                    &overrides,
                    block_number,
                    timestamp,
                    BEACON_ROOTS_ADDRESS,
                    Bytes::copy_from_slice(&root_input),
                )?,
                Bytes::copy_from_slice(prior_root.as_slice()),
            );
            assert_eq!(
                call_from_canonical(
                    canonical.clone(),
                    &overrides,
                    block_number,
                    timestamp,
                    HISTORY_STORAGE_ADDRESS,
                    Bytes::copy_from_slice(&hash_input),
                )?,
                Bytes::copy_from_slice(prior_hash.as_slice()),
            );
        }
        // Without pending overrides canonical storage still cannot answer the new root.
        assert!(call_from_canonical(
            canonical.clone(),
            &StateOverride::new(),
            block_number,
            timestamp,
            BEACON_ROOTS_ADDRESS,
            Bytes::copy_from_slice(&U256::from(timestamp).to_be_bytes::<32>()),
        )
        .is_err());
    }
    Ok(())
}

#[test]
fn installed_system_code_is_explicit_though_the_database_has_it() -> TestResult {
    let installed = Address::repeat_byte(0x13);
    let code = introspecting_code();
    let canonical = InMemoryDB::default();
    let mut database = canonical.clone();
    let mut account = changed_account(code.clone(), 7);
    account.info.code = None;
    database.insert_account_info(installed, changed_account(code.clone(), 7).info);
    let state = EvmState::from_iter([(installed, account)]);
    let mut commit = changes(&mut database, &state)?;
    for change in &mut commit {
        // The hash did not change over the database, so only an explicit change needs the code.
        assert!(!needs_stored_code(change));
        change.explicit_code = true;
        assert!(needs_stored_code(change));
        change.stored_code = Some(code.original_bytes().to_vec());
    }
    let mut overrides = StateOverride::new();
    apply_pre_execution_changes::<String>(&mut overrides, vec![commit], Ok(()))
        .map_err(|error| format!("{error:?}"))?;
    assert_eq!(
        overrides.get(installed.into_array()).and_then(|account| account.code.clone()),
        Some(code.original_bytes().to_vec())
    );
    assert_eq!(
        call_with_overrides(canonical, &overrides, installed)?,
        expected_output(&code, 7)
    );
    Ok(())
}

#[test]
fn installed_code_reaches_requests_from_canonical_state_without_it() -> TestResult {
    let deployer: Address = "0x13b0D85CcB8bf860b6b79AF3029fCA081AE9beF2".parse()?;
    let inspector = Address::repeat_byte(0x77);
    // Returns EXTCODESIZE and EXTCODEHASH of the deployer.
    let mut bytes = vec![0x73];
    bytes.extend_from_slice(deployer.as_slice());
    bytes.extend_from_slice(&[0x3b, 0x60, 0x00, 0x52, 0x73]);
    bytes.extend_from_slice(deployer.as_slice());
    bytes.extend_from_slice(&[0x3f, 0x60, 0x20, 0x52, 0x60, 0x40, 0x60, 0x00, 0xf3]);
    let code = Bytecode::new_raw(bytes.into());
    let mut canonical = InMemoryDB::default();
    canonical.insert_account_info(
        inspector,
        AccountInfo { code_hash: code.hash_slow(), code: Some(code), ..Default::default() },
    );
    assert!(canonical.basic(deployer)?.is_none());

    let installed_code = introspecting_code();
    let mut account = Account::from(AccountInfo {
        code_hash: installed_code.hash_slow(),
        code: Some(installed_code.clone()),
        ..Default::default()
    });
    account.mark_touch();
    let state = EvmState::from_iter([(deployer, account)]);
    let mut database = canonical.clone();
    database.commit(state.clone());
    let commit = changes(&mut database, &state)?;
    let mut overrides = StateOverride::new();
    apply_pre_execution_changes::<String>(&mut overrides, vec![commit], Ok(()))
        .map_err(|error| format!("{error:?}"))?;
    let installed = database.basic(deployer)?.ok_or("the deployer is missing")?;
    assert_eq!(
        overrides.get(deployer.into_array()).and_then(|account| account.code.clone()),
        Some(installed_code.original_bytes().to_vec())
    );
    let mut expected = Vec::new();
    expected.extend_from_slice(
        &U256::from(installed_code.original_bytes().len()).to_be_bytes::<32>(),
    );
    expected.extend_from_slice(installed.code_hash.as_slice());
    assert_eq!(
        call_from_canonical(
            canonical.clone(),
            &overrides,
            1,
            CANYON_TIMESTAMP,
            inspector,
            Bytes::new(),
        )?,
        Bytes::from(expected)
    );
    assert_eq!(
        call_from_canonical(
            canonical,
            &StateOverride::new(),
            1,
            CANYON_TIMESTAMP,
            inspector,
            Bytes::new(),
        )?,
        Bytes::from(vec![0; 64])
    );
    Ok(())
}

#[test]
fn rejected_system_block_leaves_the_overrides_alone() -> TestResult {
    let address = Address::repeat_byte(0x11);
    let state = EvmState::from_iter([(address, changed_account(introspecting_code(), 1))]);
    let commit = changes(&mut InMemoryDB::default(), &state)?;
    let mut overrides = StateOverride::new();
    let rejected =
        apply_pre_execution_changes(&mut overrides, vec![commit], Err("missing beacon root"));
    assert!(matches!(rejected, Err(SystemChangesError::Rejected("missing beacon root"))));
    assert!(overrides.addresses().is_empty());
    Ok(())
}

#[test]
fn unresolved_system_code_leaves_the_overrides_alone() -> TestResult {
    let address = Address::repeat_byte(0x11);
    let mut account = changed_account(introspecting_code(), 1);
    account.info.code = None;
    let state = EvmState::from_iter([(address, account)]);
    let commit = changes(&mut InMemoryDB::default(), &state)?;
    let mut overrides = StateOverride::new();
    let rejected = apply_pre_execution_changes::<String>(&mut overrides, vec![commit], Ok(()));
    match rejected {
        Err(SystemChangesError::Code(error)) => {
            assert_eq!(error.address, address.into_array());
            assert_eq!(error.code_hash, introspecting_code().hash_slow().0);
        }
        _ => panic!("code that cannot be had must be refused"),
    }
    assert!(overrides.addresses().is_empty());
    Ok(())
}

#[test]
fn a_refused_change_takes_up_none_of_the_others() -> TestResult {
    let resolved = EvmState::from_iter([(
        Address::repeat_byte(1),
        changed_account(introspecting_code(), 1),
    )]);
    let mut account = changed_account(introspecting_code(), 2);
    account.info.code = None;
    let unresolved = EvmState::from_iter([(Address::repeat_byte(2), account)]);
    let mut database = InMemoryDB::default();
    let mut listed = changes(&mut database, &resolved)?;
    listed.extend(changes(&mut database, &unresolved)?);
    let mut overrides = StateOverride::new();
    let refused = accumulate_pending_state_overrides(&mut overrides, &listed);
    assert_eq!(refused.map_err(|error| error.address), Err([2; 20]));
    assert!(overrides.addresses().is_empty());
    Ok(())
}

#[test]
fn empty_code_hash_is_that_of_the_evm() {
    assert_eq!(LIBRARY_KECCAK256_EMPTY, KECCAK256_EMPTY.0);
}

#[test]
fn both_kinds_of_user_storage_are_left_for_validation_to_reject() -> TestResult {
    let (_, pending) = pending_snapshot_overrides(&pending_snapshot(100, 200));
    let address = Address::repeat_byte(0x55);
    let user = AccountOverride {
        state: Some(slots(&[(B256::ZERO, B256::repeat_byte(5))])),
        state_diff: Some(slots(&[(B256::ZERO, B256::repeat_byte(6))])),
        ..Default::default()
    };
    let merged = merge_overrides(pending, Some(one_account(address, user)), None);
    let state = merged.state.ok_or("merged state override missing")?;
    assert!(apply_state_overrides(alloy_state(&state), &mut InMemoryDB::default()).is_err());
    Ok(())
}

#[test]
fn stored_code_counts_only_under_its_own_hash() -> TestResult {
    let address = Address::repeat_byte(0x11);
    let code = introspecting_code();
    let mut account = changed_account(code.clone(), 1);
    account.info.code = None;
    let state = EvmState::from_iter([(address, account)]);
    let mut listed = changes(&mut InMemoryDB::default(), &state)?;
    assert!(needs_stored_code(&listed[0]));
    let mut overrides = StateOverride::new();
    listed[0].stored_code = Some(vec![0x00]);
    let refused = accumulate_pending_state_overrides(&mut overrides, &listed);
    assert_eq!(refused.map_err(|error| error.message()), Err("code hash mismatch"));
    assert!(overrides.addresses().is_empty());
    listed[0].stored_code = Some(code.original_bytes().to_vec());
    accumulate_pending_state_overrides(&mut overrides, &listed)
        .map_err(|error| format!("{error:?}"))?;
    assert_eq!(
        overrides.get(address.into_array()).and_then(|account| account.code.clone()),
        Some(code.original_bytes().to_vec())
    );
    Ok(())
}

#[test]
fn accumulated_accounts_never_mix_both_kinds_of_storage() -> TestResult {
    let address = Address::repeat_byte(0x11);
    let mut overrides = StateOverride::new();
    let mut database = InMemoryDB::default();
    for (value, created) in [(1, false), (2, true), (3, false)] {
        let mut account = changed_account(introspecting_code(), value);
        if created {
            account.mark_created();
        }
        let state = EvmState::from_iter([(address, account)]);
        let listed = changes(&mut database, &state)?;
        accumulate_pending_state_overrides(&mut overrides, &listed)
            .map_err(|error| format!("{error:?}"))?;
        database.commit(state);
        let merged = overrides.get(address.into_array()).ok_or("the account is overridden")?;
        assert_eq!(merged.state.is_some(), value > 1);
        assert_eq!(merged.state_diff.is_some(), value == 1);
    }
    Ok(())
}

#[test]
fn system_commit_without_code_clears_an_earlier_code_override() -> TestResult {
    let address = Address::repeat_byte(0x11);
    for loaded in [None, Some(Bytecode::default())] {
        let mut overrides = one_account(
            address,
            AccountOverride { code: Some(vec![0x60, 0x00]), ..Default::default() },
        );
        let mut account = Account::from(AccountInfo { nonce: 4, ..Default::default() });
        account.info.code = loaded;
        account.mark_touch();
        let state = EvmState::from_iter([(address, account)]);
        let mut database = InMemoryDB::default();
        database.commit(state.clone());
        let commit = changes(&mut database, &state)?;
        apply_pre_execution_changes::<String>(&mut overrides, vec![commit], Ok(()))
            .map_err(|error| format!("{error:?}"))?;
        let account = overrides.get(address.into_array()).ok_or("the account is overridden")?;
        assert_eq!(account.code, Some(vec![]));
        assert_eq!(account.nonce, Some(4));
    }
    Ok(())
}

#[test]
fn no_stored_bytes_are_the_code_of_no_other_hash() -> TestResult {
    let address = Address::repeat_byte(0x11);
    let mut account = changed_account(introspecting_code(), 1);
    account.info.code = None;
    let state = EvmState::from_iter([(address, account)]);
    let mut listed = changes(&mut InMemoryDB::default(), &state)?;
    listed[0].stored_code = Some(vec![]);
    let mut overrides = StateOverride::new();
    let refused = accumulate_pending_state_overrides(&mut overrides, &listed);
    assert_eq!(refused.map_err(|error| error.address), Err(address.into_array()));
    assert_eq!(alloy_primitives::keccak256([]).0, LIBRARY_KECCAK256_EMPTY);
    Ok(())
}

//! What each `eth_` method answers from the pending state, and what it asks the canonical chain.
//!
//! A method that may need the canonical chain is given what the pending state says and returns
//! either the answer or the question to put to the chain.
use crate::block_id::{
    block_id_or_default, requested_block, BlockId, BlockNumberOrTag, BlockNumberOrTagExt,
};
use crate::merge::{merge_overrides, merged_overrides};
use crate::overrides::{
    boxed_block_view, no_overrides, state_view, AccountOverrideView, BlockOverrides, EvmOverrides,
    EvmOverridesView, StateOverride,
};
use crate::pending::{
    header_environment, pending_snapshot_overrides, snapshot_anchor, snapshot_overrides,
    PendingBlocks,
};
use crate::primitives::{
    law_limbs_denote_the_number, u256_modulus, wrapping_add, AccountAddress, U256,
};
use crate::rpc_error::{ErrorObject, INTERNAL_ERROR_CODE};
use crate::simulate::{apply_pending_simulation_overrides, starts_from, SimulatePayload};
use std::sync::Arc;
use vstd::prelude::*;

verus! {

/// The parts that the methods are answered from: the canonical API, its log filter and the state
/// that follows the flashblocks.
#[derive(Debug)]
pub struct EthApiExt<Eth, Filter, FB> {
    pub eth_api: Eth,
    pub eth_filter: Filter,
    pub flashblocks_state: Arc<FB>,
}

impl<Eth, Filter, FB> EthApiExt<Eth, Filter, FB> {
    /// Puts the parts together.
    pub fn new(eth_api: Eth, eth_filter: Filter, flashblocks_state: Arc<FB>) -> (r: EthApiExt<
        Eth,
        Filter,
        FB,
    >)
        ensures
            r.eth_api == eth_api,
            r.eth_filter == eth_filter,
            r.flashblocks_state == flashblocks_state,
    {
        EthApiExt { eth_api, eth_filter, flashblocks_state }
    }
}

/// How a request is resolved: with an answer, or with a question to the canonical chain whose reply
/// is the answer.
#[derive(Debug, PartialEq, Eq)]
pub enum Resolution<A, Q> {
    Answer(A),
    Canonical(Q),
}

/// The block of a number or tag. `snapshot` is what the pending snapshot gives as its block, and
/// `None` where there is no snapshot. A pending request is answered from the snapshot; without one
/// `pending` is taken for `latest`.
pub fn block_by_number<Block>(number: BlockNumberOrTagExt, snapshot: Option<Option<Block>>) -> (r:
    Resolution<Option<Block>, BlockId>)
    ensures
        number.tag() != BlockNumberOrTag::Pending ==> r == Resolution::<
            Option<Block>,
            BlockId,
        >::Canonical(BlockId::Number(number.tag())),
        number.tag() == BlockNumberOrTag::Pending ==> r == (match snapshot {
            Some(block) => Resolution::Answer(block),
            None => Resolution::Canonical(BlockId::Number(BlockNumberOrTag::Latest)),
        }),
{
    if number.is_pending() {
        match snapshot {
            Some(block) => Resolution::Answer(block),
            None => Resolution::Canonical(BlockId::Number(BlockNumberOrTag::Latest)),
        }
    } else {
        Resolution::Canonical(BlockId::from(number))
    }
}

/// The receipt of a transaction, from what the canonical chain replied and what the pending state
/// has. The chain goes first: a block that was just committed may not have left the pending state
/// yet.
pub fn get_transaction_receipt<R, E>(canonical: Result<Option<R>, E>, pending: Option<R>) -> (r:
    Result<Option<R>, E>)
    ensures
        r == canonical_first(canonical, pending),
{
    match canonical {
        Ok(Some(receipt)) => Ok(Some(receipt)),
        Ok(None) => Ok(pending),
        Err(error) => Err(error),
    }
}

/// What the canonical chain replied where it has the item or failed, and what the pending state has
/// otherwise.
pub open spec fn canonical_first<T, E>(canonical: Result<Option<T>, E>, pending: Option<T>) -> Result<
    Option<T>,
    E,
> {
    match canonical {
        Ok(Some(item)) => Ok(Some(item)),
        Ok(None) => Ok(pending),
        Err(error) => Err(error),
    }
}

/// A transaction as the canonical chain replied, with the conversion of one that it found carried
/// out: a failure of either is a failure of the lookup.
pub open spec fn converted<T, E>(canonical: Result<Option<Result<T, E>>, E>) -> Result<
    Option<T>,
    E,
> {
    match canonical {
        Ok(Some(Ok(transaction))) => Ok(Some(transaction)),
        Ok(Some(Err(error))) => Err(error),
        Ok(None) => Ok(None),
        Err(error) => Err(error),
    }
}

/// A transaction by its hash, from what the canonical chain replied and what the pending state has.
/// The chain goes first, as for a receipt.
pub fn transaction_by_hash<T, E>(
    canonical: Result<Option<Result<T, E>>, E>,
    pending: Option<T>,
) -> (r: Result<Option<T>, E>)
    ensures
        r == canonical_first(converted(canonical), pending),
{
    match canonical {
        Ok(Some(found)) => match found {
            Ok(transaction) => Ok(Some(transaction)),
            Err(error) => Err(error),
        },
        Ok(None) => Ok(pending),
        Err(error) => Err(error),
    }
}

/// The balance of an account, given the one that the pending state has for it. Only a pending
/// request is answered from the pending state; any other, and one for an account that the pending
/// state does not touch, goes to the canonical chain as it came.
pub fn get_balance(block_number: Option<BlockId>, pending_balance: Option<U256>) -> (r: Resolution<
    U256,
    Option<BlockId>,
>)
    ensures
        r == (if requested_block(block_number).names_pending() && pending_balance is Some {
            Resolution::Answer(pending_balance->0)
        } else {
            Resolution::Canonical(block_number)
        }),
{
    let block_id = block_id_or_default(block_number);
    if block_id.is_pending() {
        if let Some(balance) = pending_balance {
            return Resolution::Answer(balance);
        }
    }
    Resolution::Canonical(block_number)
}

/// A transaction count to be asked of the canonical chain, and what the pending state adds to it.
#[derive(Clone, Copy, Debug, PartialEq, Eq)]
pub struct TransactionCountQuery {
    pub block: Option<BlockId>,
    pub pending: Option<U256>,
}

/// Which count a request for the transaction count of an account takes from the canonical chain. A
/// pending request takes the one at the block below the pending state, to which the pending
/// transactions of the account are added; any other goes to the chain as it came.
pub fn transaction_count_query(
    block_number: Option<BlockId>,
    canonical_block: BlockNumberOrTag,
    pending_count: U256,
) -> (r: TransactionCountQuery)
    ensures
        r == (if requested_block(block_number).names_pending() {
            TransactionCountQuery {
                block: Some(BlockId::Number(canonical_block)),
                pending: Some(pending_count),
            }
        } else {
            TransactionCountQuery { block: block_number, pending: None }
        }),
{
    let block_id = block_id_or_default(block_number);
    if block_id.is_pending() {
        TransactionCountQuery {
            block: Some(BlockId::Number(canonical_block)),
            pending: Some(pending_count),
        }
    } else {
        TransactionCountQuery { block: block_number, pending: None }
    }
}

/// The transaction count of an account, from the count that the canonical chain replied to `query`.
/// The sum wraps at 256 bits.
pub fn get_transaction_count<E>(query: TransactionCountQuery, canonical: Result<U256, E>) -> (r:
    Result<U256, E>)
    ensures
        match canonical {
            Ok(count) => r matches Ok(total) && (match query.pending {
                Some(pending) => total@ == (count@ + pending@) % u256_modulus(),
                None => total == count,
            }),
            Err(error) => r == Err::<U256, E>(error),
        },
{
    match canonical {
        Ok(count) => match query.pending {
            Some(pending) => Ok(wrapping_add(count, pending)),
            None => Ok(count),
        },
        Err(error) => Err(error),
    }
}

/// The number of transactions in a block, given the number in the pending block, where there is
/// one. A pending request is answered from it; without one `pending` is taken for `latest`.
pub fn get_block_transaction_count_by_number(
    number: BlockNumberOrTag,
    pending_transactions: Option<usize>,
) -> (r: Resolution<Option<U256>, BlockId>)
    ensures
        number != BlockNumberOrTag::Pending ==> r == Resolution::<
            Option<U256>,
            BlockId,
        >::Canonical(BlockId::Number(number)),
        number == BlockNumberOrTag::Pending && pending_transactions is None ==> r == Resolution::<
            Option<U256>,
            BlockId,
        >::Canonical(BlockId::Number(BlockNumberOrTag::Latest)),
        number == BlockNumberOrTag::Pending && pending_transactions is Some ==> (
        r matches Resolution::Answer(Some(count)) && count@ == pending_transactions->0),
{
    if number.is_pending() {
        match pending_transactions {
            Some(count) => Resolution::Answer(Some(U256::from_u64(count as u64))),
            None => Resolution::Canonical(BlockId::Number(BlockNumberOrTag::Latest)),
        }
    } else {
        Resolution::Canonical(BlockId::Number(number))
    }
}

/// The number of transactions in a block as the canonical chain replied.
pub fn block_transaction_count_reply<E>(canonical: Result<Option<usize>, E>) -> (r: Result<
    Option<U256>,
    E,
>)
    ensures
        match canonical {
            Ok(Some(count)) => r matches Ok(Some(total)) && total@ == count,
            Ok(None) => r == Ok::<Option<U256>, E>(None),
            Err(error) => r == Err::<Option<U256>, E>(error),
        },
{
    match canonical {
        Ok(Some(count)) => Ok(Some(U256::from_u64(count as u64))),
        Ok(None) => Ok(None),
        Err(error) => Err(error),
    }
}

/// The block that a request executes on and the overrides that it starts from. A request on the
/// pending state executes on the canonical block below the snapshot, under the overrides that stand
/// for the snapshot, or on the latest block where there is no snapshot; any other executes where it
/// says.
pub open spec fn execution_base(block_id: BlockId, snapshot: Option<PendingBlocks>) -> (
    BlockId,
    EvmOverridesView,
) {
    if !block_id.names_pending() {
        (block_id, no_overrides())
    } else {
        match snapshot {
            Some(pending) => (snapshot_anchor(pending), snapshot_overrides(pending)),
            None => (BlockId::Number(BlockNumberOrTag::Latest), no_overrides()),
        }
    }
}

/// The pending snapshot as it was taken for a request: the snapshot, where there is one, or why the
/// permit to prepare it could not be had.
pub open spec fn taken_snapshot(snapshot: Result<Option<&PendingBlocks>, String>) -> Option<
    PendingBlocks,
> {
    match snapshot {
        Ok(Some(pending)) => Some(*pending),
        _ => None,
    }
}

/// Whether a request fails because it needs the pending snapshot and could not prepare it.
pub open spec fn is_refused(
    block_id: BlockId,
    snapshot: Result<Option<&PendingBlocks>, String>,
) -> bool {
    block_id.names_pending() && snapshot is Err
}

/// The error for a snapshot that could not be prepared, with the reason.
pub open spec fn is_permit_error(error: ErrorObject, reason: Seq<char>) -> bool {
    error.code == INTERNAL_ERROR_CODE && error.message@
        == "failed to acquire pending state preparation permit: "@ + reason
}

/// Finds where a request executes and the overrides that it starts from. The snapshot is looked at
/// for a pending request only, and whatever comes of it comes of this one snapshot.
pub fn pending_execution_overrides(
    block_id: BlockId,
    snapshot: Result<Option<&PendingBlocks>, String>,
) -> (r: Result<(BlockId, EvmOverrides), ErrorObject>)
    ensures
        match r {
            Ok(base) => !is_refused(block_id, snapshot) && (base.0, base.1@) == execution_base(
                block_id,
                taken_snapshot(snapshot),
            ),
            Err(error) => is_refused(block_id, snapshot) && is_permit_error(
                error,
                snapshot->Err_0@,
            ),
        },
{
    if !block_id.is_pending() {
        return Ok((block_id, EvmOverrides::default()));
    }
    match snapshot {
        Ok(Some(pending)) => Ok(pending_snapshot_overrides(pending)),
        Ok(None) => Ok((BlockId::Number(BlockNumberOrTag::Latest), EvmOverrides::default())),
        Err(reason) => {
            let mut message = "failed to acquire pending state preparation permit: ".to_owned();
            message.append(reason.as_str());
            Err(ErrorObject { code: INTERNAL_ERROR_CODE, message })
        },
    }
}

/// Prepares a call: the block that it executes on, and its own overrides laid over those of the
/// pending state.
pub fn call(
    block_number: Option<BlockId>,
    snapshot: Result<Option<&PendingBlocks>, String>,
    state_overrides: Option<StateOverride>,
    block_overrides: Option<Box<BlockOverrides>>,
) -> (r: Result<(BlockId, EvmOverrides), ErrorObject>)
    ensures
        ({
            let block_id = requested_block(block_number);
            let base = execution_base(block_id, taken_snapshot(snapshot));
            match r {
                Ok(prepared) => !is_refused(block_id, snapshot) && prepared.0 == base.0
                    && prepared.1@ == merged_overrides(
                    base.1,
                    state_view(state_overrides),
                    boxed_block_view(block_overrides),
                ),
                Err(error) => is_refused(block_id, snapshot) && is_permit_error(
                    error,
                    snapshot->Err_0@,
                ),
            }
        }),
{
    let block_id = block_id_or_default(block_number);
    match pending_execution_overrides(block_id, snapshot) {
        Ok((block_id, pending)) => Ok(
            (block_id, merge_overrides(pending, state_overrides, block_overrides)),
        ),
        Err(error) => Err(error),
    }
}

/// Prepares a gas estimate as a call without block overrides of its own.
pub fn estimate_gas(
    block_number: Option<BlockId>,
    snapshot: Result<Option<&PendingBlocks>, String>,
    overrides: Option<StateOverride>,
) -> (r: Result<(BlockId, EvmOverrides), ErrorObject>)
    ensures
        ({
            let block_id = requested_block(block_number);
            let base = execution_base(block_id, taken_snapshot(snapshot));
            match r {
                Ok(prepared) => !is_refused(block_id, snapshot) && prepared.0 == base.0
                    && prepared.1@ == merged_overrides(base.1, state_view(overrides), None),
                Err(error) => is_refused(block_id, snapshot) && is_permit_error(
                    error,
                    snapshot->Err_0@,
                ),
            }
        }),
{
    call(block_number, snapshot, overrides, None)
}

/// Prepares a simulation: the block that it starts from, and its first block's overrides laid over
/// those of the pending state. A request that is refused is left as it was.
pub fn simulate_v1<TxReq>(
    opts: &mut SimulatePayload<TxReq>,
    block_number: Option<BlockId>,
    snapshot: Result<Option<&PendingBlocks>, String>,
) -> (r: Result<BlockId, ErrorObject>)
    ensures
        ({
            let block_id = requested_block(block_number);
            let base = execution_base(block_id, taken_snapshot(snapshot));
            match r {
                Ok(start) => !is_refused(block_id, snapshot) && start == base.0 && starts_from(
                    *old(opts),
                    *final(opts),
                    base.1,
                ),
                Err(error) => is_refused(block_id, snapshot) && is_permit_error(
                    error,
                    snapshot->Err_0@,
                ) && *final(opts) == *old(opts),
            }
        }),
{
    let block_id = block_id_or_default(block_number);
    match pending_execution_overrides(block_id, snapshot) {
        Ok((block_id, pending)) => {
            apply_pending_simulation_overrides(opts, pending);
            Ok(block_id)
        },
        Err(error) => Err(error),
    }
}

/// A request on the pending state executes in one pending block: the block environment describes
/// the last pending header, the account state is that of the same snapshot, and the canonical state
/// underneath is that of the block before the first pending one.
pub proof fn law_pending_execution_is_coherent(pending: PendingBlocks)
    requires
        0 < pending.earliest() <= pending.header().number,
    ensures
        ({
            let base = execution_base(
                BlockId::Number(BlockNumberOrTag::Pending),
                Some(pending),
            );
            &&& base.1.block == Some(header_environment(pending.header()))
            &&& base.1.state == pending.state()
            &&& base.0 matches BlockId::Number(BlockNumberOrTag::Number(anchor)) && anchor + 1
                == pending.earliest() && anchor < pending.header().number
        }),
{
}

/// Without a snapshot a pending request executes as one on the latest block does.
pub proof fn law_without_a_snapshot_pending_is_latest(snapshot: Option<PendingBlocks>)
    ensures
        execution_base(BlockId::Number(BlockNumberOrTag::Pending), None) == execution_base(
            BlockId::Number(BlockNumberOrTag::Latest),
            snapshot,
        ),
{
}

/// A request on any other block executes there without pending overrides, whatever the pending state
/// is.
pub proof fn law_other_blocks_ignore_the_snapshot(
    block_id: BlockId,
    snapshot: Option<PendingBlocks>,
)
    requires
        !block_id.names_pending(),
    ensures
        execution_base(block_id, snapshot) == (block_id, no_overrides()),
{
}

/// A gas estimate on the pending state, and a call without block overrides, see exactly the
/// environment of the pending header, whatever account overrides they bring.
pub proof fn law_account_overrides_leave_the_environment(
    pending: PendingBlocks,
    state: Option<Map<AccountAddress, AccountOverrideView>>,
)
    ensures
        merged_overrides(snapshot_overrides(pending), state, None).block == Some(
            header_environment(pending.header()),
        ),
{
}

/// An item that the canonical chain has is answered from there, whatever the pending state says of
/// it; the pending state is answered from exactly where the chain does not have it.
pub proof fn law_canonical_data_comes_first<T, E>(item: T, pending: Option<T>)
    ensures
        canonical_first(Ok::<Option<T>, E>(Some(item)), pending) == Ok::<Option<T>, E>(Some(item)),
        canonical_first(Ok::<Option<T>, E>(None), pending) == Ok::<Option<T>, E>(pending),
{
}

/// The extended API is put together of exactly the parts that it is given.
pub proof fn law_the_parts_are_kept<Eth, Filter, FB>(
    eth_api: Eth,
    eth_filter: Filter,
    flashblocks_state: Arc<FB>,
    r: EthApiExt<Eth, Filter, FB>,
)
    requires
        call_ensures(EthApiExt::<Eth, Filter, FB>::new, (eth_api, eth_filter, flashblocks_state), r),
    ensures
        r.eth_api == eth_api,
        r.eth_filter == eth_filter,
        r.flashblocks_state == flashblocks_state,
{
}

/// The block of a number or tag other than `pending` is asked of the canonical chain under that
/// number or tag. The pending block is what the snapshot gives, and the latest block where there is
/// no snapshot.
pub proof fn law_only_pending_blocks_come_from_the_snapshot<Block>(
    tag: BlockNumberOrTag,
    number: BlockNumberOrTagExt,
    block: Option<Block>,
    with_snapshot: Resolution<Option<Block>, BlockId>,
    without: Resolution<Option<Block>, BlockId>,
)
    requires
        call_ensures(BlockNumberOrTagExt::new, (tag,), number),
        call_ensures(block_by_number::<Block>, (number, Some(block)), with_snapshot),
        call_ensures(block_by_number::<Block>, (number, None::<Option<Block>>), without),
    ensures
        tag != BlockNumberOrTag::Pending ==> with_snapshot == Resolution::<
            Option<Block>,
            BlockId,
        >::Canonical(BlockId::Number(tag)) && without == with_snapshot,
        tag == BlockNumberOrTag::Pending ==> with_snapshot == Resolution::<
            Option<Block>,
            BlockId,
        >::Answer(block),
        tag == BlockNumberOrTag::Pending ==> without == Resolution::<
            Option<Block>,
            BlockId,
        >::Canonical(BlockId::Number(BlockNumberOrTag::Latest)),
{
}

/// A receipt that the canonical chain has is the answer, and so is its failure; the pending state is
/// the answer, as it is, only where the chain does not have the receipt.
pub proof fn law_receipts_come_from_the_chain_first<R, E>(
    receipt: R,
    error: E,
    pending: Option<R>,
    found: Result<Option<R>, E>,
    absent: Result<Option<R>, E>,
    failed: Result<Option<R>, E>,
)
    requires
        call_ensures(
            get_transaction_receipt::<R, E>,
            (Ok::<Option<R>, E>(Some(receipt)), pending),
            found,
        ),
        call_ensures(get_transaction_receipt::<R, E>, (Ok::<Option<R>, E>(None), pending), absent),
        call_ensures(get_transaction_receipt::<R, E>, (Err::<Option<R>, E>(error), pending), failed),
    ensures
        found == Ok::<Option<R>, E>(Some(receipt)),
        absent == Ok::<Option<R>, E>(pending),
        failed == Err::<Option<R>, E>(error),
{
}

/// A transaction that the canonical chain has is the answer where it can be converted; a failure of
/// the lookup or of the conversion is the answer too; the pending state is the answer, as it is, only
/// where the chain does not have the transaction.
pub proof fn law_transactions_come_from_the_chain_first<T, E>(
    transaction: T,
    error: E,
    pending: Option<T>,
    found: Result<Option<T>, E>,
    unconverted: Result<Option<T>, E>,
    absent: Result<Option<T>, E>,
    failed: Result<Option<T>, E>,
)
    requires
        call_ensures(
            transaction_by_hash::<T, E>,
            (Ok::<Option<Result<T, E>>, E>(Some(Ok(transaction))), pending),
            found,
        ),
        call_ensures(
            transaction_by_hash::<T, E>,
            (Ok::<Option<Result<T, E>>, E>(Some(Err(error))), pending),
            unconverted,
        ),
        call_ensures(
            transaction_by_hash::<T, E>,
            (Ok::<Option<Result<T, E>>, E>(None), pending),
            absent,
        ),
        call_ensures(
            transaction_by_hash::<T, E>,
            (Err::<Option<Result<T, E>>, E>(error), pending),
            failed,
        ),
    ensures
        found == Ok::<Option<T>, E>(Some(transaction)),
        unconverted == Err::<Option<T>, E>(error),
        absent == Ok::<Option<T>, E>(pending),
        failed == Err::<Option<T>, E>(error),
{
}

/// A balance is the pending one exactly where the request names `pending` and the pending state has
/// the account; every other request goes to the chain with the block that it gave, or without one.
pub proof fn law_only_pending_balances_come_from_the_pending_state(
    block_number: Option<BlockId>,
    balance: Option<U256>,
    r: Resolution<U256, Option<BlockId>>,
)
    requires
        call_ensures(get_balance, (block_number, balance), r),
    ensures
        block_number == Some(BlockId::Number(BlockNumberOrTag::Pending)) && balance is Some ==> r
            == Resolution::<U256, Option<BlockId>>::Answer(balance->0),
        block_number != Some(BlockId::Number(BlockNumberOrTag::Pending)) || balance is None ==> r
            == Resolution::<U256, Option<BlockId>>::Canonical(block_number),
{
}

/// A transaction count on `pending` is the chain's count at the block below the pending state plus
/// the pending transactions, modulo two to the power of 256; any other is the chain's count at the
/// block that the request gave. A failure of the chain is the answer.
pub proof fn law_pending_transactions_are_added_to_the_count_below<E>(
    block_number: Option<BlockId>,
    below: BlockNumberOrTag,
    pending: U256,
    query: TransactionCountQuery,
    count: U256,
    error: E,
    r: Result<U256, E>,
    failed: Result<U256, E>,
)
    requires
        call_ensures(transaction_count_query, (block_number, below, pending), query),
        call_ensures(get_transaction_count::<E>, (query, Ok::<U256, E>(count)), r),
        call_ensures(get_transaction_count::<E>, (query, Err::<U256, E>(error)), failed),
    ensures
        block_number == Some(BlockId::Number(BlockNumberOrTag::Pending)) ==> query.block == Some(
            BlockId::Number(below),
        ) && r is Ok && r->Ok_0@ == (count@ + pending@)
            % 0x1_0000_0000_0000_0000_0000_0000_0000_0000_0000_0000_0000_0000_0000_0000_0000_0000nat,
        block_number != Some(BlockId::Number(BlockNumberOrTag::Pending)) ==> query.block
            == block_number && r == Ok::<U256, E>(count),
        failed == Err::<U256, E>(error),
{
    law_limbs_denote_the_number(count, pending);
}

/// The transaction count of a block is the pending block's where `pending` is asked for and there is
/// one; `pending` without one is the latest block, and every other number or tag is asked of the
/// chain as it is.
pub proof fn law_only_pending_counts_come_from_the_pending_block(
    number: BlockNumberOrTag,
    transactions: Option<usize>,
    r: Resolution<Option<U256>, BlockId>,
)
    requires
        call_ensures(get_block_transaction_count_by_number, (number, transactions), r),
    ensures
        number == BlockNumberOrTag::Pending && transactions is Some ==> (r matches Resolution::Answer(
            Some(count),
        ) && count@ == transactions->0),
        number == BlockNumberOrTag::Pending && transactions is None ==> r == Resolution::<
            Option<U256>,
            BlockId,
        >::Canonical(BlockId::Number(BlockNumberOrTag::Latest)),
        number != BlockNumberOrTag::Pending ==> r == Resolution::<Option<U256>, BlockId>::Canonical(
            BlockId::Number(number),
        ),
{
}

/// The count that the chain replies is passed on: the number, that there is no such block, or the
/// failure.
pub proof fn law_the_count_of_the_chain_is_passed_on<E>(
    canonical: Result<Option<usize>, E>,
    r: Result<Option<U256>, E>,
)
    requires
        call_ensures(block_transaction_count_reply::<E>, (canonical,), r),
    ensures
        canonical matches Err(error) ==> r == Err::<Option<U256>, E>(error),
        canonical == Ok::<Option<usize>, E>(None) ==> r == Ok::<Option<U256>, E>(None),
        canonical matches Ok(Some(count)) ==> r is Ok && r->Ok_0 is Some && r->Ok_0->0@ == count,
{
}

/// A request that executes on a block other than the pending one, or gives none, executes on that
/// very block or on the latest, whatever the snapshot, with its own overrides alone. One on `pending`
/// executes where the snapshot says, with its own overrides laid over those of the snapshot; without
/// a snapshot on the latest block. Only a pending request fails for want of a permit.
pub proof fn law_a_call_executes_on_the_block_that_it_gives(
    block_number: Option<BlockId>,
    snapshot: Result<Option<&PendingBlocks>, String>,
    state: Option<StateOverride>,
    block: Option<Box<BlockOverrides>>,
    r: Result<(BlockId, EvmOverrides), ErrorObject>,
    alone: EvmOverrides,
    base: (BlockId, EvmOverrides),
    over: EvmOverrides,
)
    requires
        call_ensures(call, (block_number, snapshot, state, block), r),
        call_ensures(
            merge_overrides,
            (EvmOverrides { state: None, block: None }, state, block),
            alone,
        ),
        snapshot matches Ok(Some(pending)) ==> call_ensures(
            pending_snapshot_overrides,
            (pending,),
            base,
        ) && call_ensures(merge_overrides, (base.1, state, block), over),
    ensures
        ({
            let pending = BlockId::Number(BlockNumberOrTag::Pending);
            let latest = BlockId::Number(BlockNumberOrTag::Latest);
            &&& block_number is Some && block_number->0 != pending ==> r is Ok && r->Ok_0.0
                == block_number->0 && r->Ok_0.1@ == alone@
            &&& block_number is None ==> r is Ok && r->Ok_0.0 == latest && r->Ok_0.1@ == alone@
            &&& block_number == Some(pending) && (snapshot matches Ok(None)) ==> r is Ok
                && r->Ok_0.0 == latest && r->Ok_0.1@ == alone@
            &&& block_number == Some(pending) && (snapshot matches Ok(Some(_))) ==> r is Ok
                && r->Ok_0.0 == base.0 && r->Ok_0.1@ == over@
            &&& block_number == Some(pending) && snapshot is Err ==> r is Err && r->Err_0.code
                == -32603 && r->Err_0.message@
                == "failed to acquire pending state preparation permit: "@ + snapshot->Err_0@
        }),
{
}

/// What execution starts from: nothing on a block other than the pending one, and what the snapshot
/// gives on that.
pub proof fn law_execution_starts_from_the_snapshot_alone(
    block_id: BlockId,
    snapshot: Result<Option<&PendingBlocks>, String>,
    r: Result<(BlockId, EvmOverrides), ErrorObject>,
    base: (BlockId, EvmOverrides),
)
    requires
        call_ensures(pending_execution_overrides, (block_id, snapshot), r),
        snapshot matches Ok(Some(pending)) ==> call_ensures(
            pending_snapshot_overrides,
            (pending,),
            base,
        ),
    ensures
        ({
            let pending = BlockId::Number(BlockNumberOrTag::Pending);
            &&& block_id != pending ==> r is Ok && r->Ok_0.0 == block_id && r->Ok_0.1@.state is None
                && r->Ok_0.1@.block is None
            &&& block_id == pending && (snapshot matches Ok(None)) ==> r is Ok && r->Ok_0.0
                == BlockId::Number(BlockNumberOrTag::Latest) && r->Ok_0.1@.state is None
                && r->Ok_0.1@.block is None
            &&& block_id == pending && (snapshot matches Ok(Some(_))) ==> r is Ok && r->Ok_0.0
                == base.0 && r->Ok_0.1@ == base.1@
            &&& block_id == pending && snapshot is Err ==> r is Err && r->Err_0.code == -32603
                && r->Err_0.message@ == "failed to acquire pending state preparation permit: "@
                + snapshot->Err_0@
        }),
{
}

/// A gas estimate is prepared as a call without block overrides is.
pub proof fn law_an_estimate_is_prepared_as_a_call(
    block_number: Option<BlockId>,
    snapshot: Result<Option<&PendingBlocks>, String>,
    state: Option<StateOverride>,
    estimate: Result<(BlockId, EvmOverrides), ErrorObject>,
    called: Result<(BlockId, EvmOverrides), ErrorObject>,
)
    requires
        call_ensures(estimate_gas, (block_number, snapshot, state), estimate),
        call_ensures(call, (block_number, snapshot, state, None::<Box<BlockOverrides>>), called),
    ensures
        estimate is Ok <==> called is Ok,
        estimate is Ok ==> estimate->Ok_0.0 == called->Ok_0.0,
        estimate is Ok ==> estimate->Ok_0.1@ == called->Ok_0.1@,
        estimate is Err ==> estimate->Err_0.code == called->Err_0.code,
        estimate is Err ==> estimate->Err_0.message@ == called->Err_0.message@,
{
}

/// A simulation starts on the block that a call would execute on, and fails where a call would. Its
/// first group is prepared with the overrides that a call with the group's own overrides would have;
/// all else, and all of a request that fails, stays.
pub proof fn law_a_simulation_starts_as_a_call_does<TxReq>(
    opts: &mut SimulatePayload<TxReq>,
    block_number: Option<BlockId>,
    snapshot: Result<Option<&PendingBlocks>, String>,
    r: Result<BlockId, ErrorObject>,
    block: Option<Box<BlockOverrides>>,
    called: Result<(BlockId, EvmOverrides), ErrorObject>,
    i: int,
)
    requires
        call_ensures(simulate_v1::<TxReq>, (opts, block_number, snapshot), r),
        old(opts).block_state_calls@.len() > 0,
        block is Some <==> old(opts).block_state_calls@[0].block_overrides is Some,
        block is Some ==> *block->0 == old(opts).block_state_calls@[0].block_overrides->0,
        call_ensures(
            call,
            (block_number, snapshot, old(opts).block_state_calls@[0].state_overrides, block),
            called,
        ),
        0 <= i < old(opts).block_state_calls@.len(),
    ensures
        r is Ok <==> called is Ok,
        r is Ok ==> r->Ok_0 == called->Ok_0.0,
        r is Err ==> r->Err_0.code == called->Err_0.code,
        r is Err ==> r->Err_0.message@ == called->Err_0.message@,
        r is Err ==> *final(opts) == *old(opts),
        final(opts).block_state_calls@.len() == old(opts).block_state_calls@.len(),
        final(opts).block_state_calls@[i].calls == old(opts).block_state_calls@[i].calls,
        i > 0 ==> final(opts).block_state_calls@[i] == old(opts).block_state_calls@[i],
        final(opts).trace_transfers == old(opts).trace_transfers,
        final(opts).validation == old(opts).validation,
        final(opts).return_full_transactions == old(opts).return_full_transactions,
        r is Ok ==> ({
            let first = final(opts).block_state_calls@[0];
            let prepared = called->Ok_0.1;
            &&& first.state_overrides is Some <==> prepared.state is Some
            &&& first.state_overrides is Some ==> first.state_overrides->0@ == prepared.state->0@
            &&& first.block_overrides is Some <==> prepared.block is Some
            &&& first.block_overrides is Some ==> first.block_overrides->0@
                == (*prepared.block->0)@
        }),
{
}

/// The start of a simulation, in terms of the request and the snapshot: the block that it gives,
/// unless that is the pending one; the latest where it gives none; and on `pending` the block below
/// the snapshot, or the latest without one. Settings and the number of groups stay.
pub proof fn law_a_simulation_starts_on_the_block_that_it_gives<TxReq>(
    opts: &mut SimulatePayload<TxReq>,
    block_number: Option<BlockId>,
    snapshot: Result<Option<&PendingBlocks>, String>,
    r: Result<BlockId, ErrorObject>,
    below: BlockNumberOrTag,
)
    requires
        call_ensures(simulate_v1::<TxReq>, (opts, block_number, snapshot), r),
        snapshot matches Ok(Some(pending)) ==> call_ensures(
            PendingBlocks::canonical_block_number,
            (pending,),
            below,
        ),
    ensures
        final(opts).block_state_calls@.len() == old(opts).block_state_calls@.len(),
        final(opts).trace_transfers == old(opts).trace_transfers,
        final(opts).validation == old(opts).validation,
        final(opts).return_full_transactions == old(opts).return_full_transactions,
        block_number == Some(BlockId::Number(BlockNumberOrTag::Pending)) && (snapshot matches Ok(
            Some(_),
        )) ==> r == Ok::<BlockId, ErrorObject>(BlockId::Number(below)),
        block_number == Some(BlockId::Number(BlockNumberOrTag::Pending)) && snapshot is Err ==> r is Err,
        block_number is Some && block_number->0 != BlockId::Number(BlockNumberOrTag::Pending) ==> r
            == Ok::<BlockId, ErrorObject>(block_number->0),
        block_number is None ==> r == Ok::<BlockId, ErrorObject>(
            BlockId::Number(BlockNumberOrTag::Latest),
        ),
        block_number == Some(BlockId::Number(BlockNumberOrTag::Pending)) && (snapshot matches Ok(
            None,
        )) ==> r == Ok::<BlockId, ErrorObject>(BlockId::Number(BlockNumberOrTag::Latest)),
        r is Err ==> block_number == Some(BlockId::Number(BlockNumberOrTag::Pending)) && snapshot is Err,
{
}

} // verus!

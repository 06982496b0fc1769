//! Laying the overrides of a request over those of the pending state.
use crate::collections::Storage;
use crate::overrides::{
    boxed_block_view, state_view, unchanged_account, unchanged_block, AccountOverride,
    AccountOverrideView, BlockOverrides, BlockOverridesView, EvmOverrides, EvmOverridesView,
    StateOverride,
};
use crate::primitives::{AccountAddress, Word, ZERO_WORD};
use std::collections::BTreeMap;
use vstd::prelude::*;

verus! {

/// The request's value where it gives one, the pending value otherwise.
pub open spec fn preferred<T>(user: Option<T>, pending: Option<T>) -> Option<T> {
    if user is Some {
        user
    } else {
        pending
    }
}

/// The request's value where it gives one, the pending value otherwise.
fn prefer<T>(user: Option<T>, pending: Option<T>) -> (r: Option<T>)
    ensures
        r == preferred(user, pending),
{
    match user {
        Some(value) => Some(value),
        None => pending,
    }
}

/// The whole-storage override after a merge. The request's own replaces it; slots that the request
/// lists extend it where there is one.
pub open spec fn merged_storage(
    pending: AccountOverrideView,
    user: AccountOverrideView,
) -> Option<Map<Word, Word>> {
    match (user.state, user.state_diff, pending.state) {
        (Some(slots), _, _) => Some(slots),
        (None, Some(diff), Some(slots)) => Some(slots.union_prefer_right(diff)),
        (None, _, slots) => slots,
    }
}

/// The listed slots after a merge. A whole-storage override of the request leaves those of the
/// request alone; otherwise the request's slots go over the pending ones, unless the pending
/// override is of the whole storage and has taken them up.
pub open spec fn merged_storage_diff(
    pending: AccountOverrideView,
    user: AccountOverrideView,
) -> Option<Map<Word, Word>> {
    match (user.state, user.state_diff, pending.state) {
        (Some(_), diff, _) => diff,
        (None, Some(diff), None) => match pending.state_diff {
            Some(slots) => Some(slots.union_prefer_right(diff)),
            None => Some(diff),
        },
        (None, _, _) => pending.state_diff,
    }
}

/// A request's override of an account laid over the pending one.
pub open spec fn merged_account(
    pending: AccountOverrideView,
    user: AccountOverrideView,
) -> AccountOverrideView {
    AccountOverrideView {
        balance: preferred(user.balance, pending.balance),
        nonce: preferred(user.nonce, pending.nonce),
        code: preferred(user.code, pending.code),
        state: merged_storage(pending, user),
        state_diff: merged_storage_diff(pending, user),
        move_precompile_to: preferred(user.move_precompile_to, pending.move_precompile_to),
    }
}

/// What `accounts` overrides at `address`; nothing where it has no entry.
pub open spec fn account_at(
    accounts: Map<AccountAddress, AccountOverrideView>,
    address: AccountAddress,
) -> AccountOverrideView {
    if accounts.contains_key(address) {
        accounts[address]
    } else {
        unchanged_account()
    }
}

/// A request's account overrides laid over the pending ones, address by address.
pub open spec fn merged_accounts(
    pending: Map<AccountAddress, AccountOverrideView>,
    user: Map<AccountAddress, AccountOverrideView>,
) -> Map<AccountAddress, AccountOverrideView> {
    Map::new(
        |a: AccountAddress| pending.contains_key(a) || user.contains_key(a),
        |a: AccountAddress|
            if user.contains_key(a) {
                merged_account(account_at(pending, a), user[a])
            } else {
                pending[a]
            },
    )
}

/// The account overrides after a merge.
pub open spec fn merged_state(
    pending: Option<Map<AccountAddress, AccountOverrideView>>,
    user: Option<Map<AccountAddress, AccountOverrideView>>,
) -> Option<Map<AccountAddress, AccountOverrideView>> {
    match (pending, user) {
        (pending, None) => pending,
        (Some(pending), Some(user)) => Some(merged_accounts(pending, user)),
        (None, Some(user)) => Some(merged_accounts(Map::empty(), user)),
    }
}

/// A request's block overrides laid over the pending ones, field by field.
pub open spec fn merged_block_fields(
    pending: BlockOverridesView,
    user: BlockOverridesView,
) -> BlockOverridesView {
    BlockOverridesView {
        number: preferred(user.number, pending.number),
        difficulty: preferred(user.difficulty, pending.difficulty),
        time: preferred(user.time, pending.time),
        gas_limit: preferred(user.gas_limit, pending.gas_limit),
        coinbase: preferred(user.coinbase, pending.coinbase),
        random: preferred(user.random, pending.random),
        base_fee: preferred(user.base_fee, pending.base_fee),
        blob_base_fee: preferred(user.blob_base_fee, pending.blob_base_fee),
        beacon_root: preferred(user.beacon_root, pending.beacon_root),
        block_hash: match (pending.block_hash, user.block_hash) {
            (pending, None) => pending,
            (Some(pending), Some(user)) => Some(pending.union_prefer_right(user)),
            (None, Some(user)) => Some(user),
        },
    }
}

/// The block overrides after a merge.
pub open spec fn merged_block(
    pending: Option<BlockOverridesView>,
    user: Option<BlockOverridesView>,
) -> Option<BlockOverridesView> {
    match (pending, user) {
        (pending, None) => pending,
        (Some(pending), Some(user)) => Some(merged_block_fields(pending, user)),
        (None, Some(user)) => Some(merged_block_fields(unchanged_block(), user)),
    }
}

/// All overrides after a merge.
pub open spec fn merged_overrides(
    pending: EvmOverridesView,
    state: Option<Map<AccountAddress, AccountOverrideView>>,
    block: Option<BlockOverridesView>,
) -> EvmOverridesView {
    EvmOverridesView {
        state: merged_state(pending.state, state),
        block: merged_block(pending.block, block),
    }
}

/// Lays a request's override of one account over the pending one.
pub(crate) fn merge_account(account: &mut AccountOverride, user: AccountOverride)
    ensures
        final(account)@ == merged_account(old(account)@, user@),
{
    account.balance = prefer(user.balance, account.balance);
    account.nonce = prefer(user.nonce, account.nonce);
    if user.code.is_some() {
        account.code = user.code;
    }
    account.move_precompile_to = prefer(user.move_precompile_to, account.move_precompile_to);
    if user.state.is_some() {
        account.state = user.state;
        // A request with both a whole storage and listed slots is invalid; it stays so, for the
        // validation of the underlying call to reject.
        account.state_diff = user.state_diff;
    } else if let Some(diff) = user.state_diff {
        match account.state.take() {
            Some(mut storage) => {
                storage.extend(diff);
                account.state = Some(storage);
            },
            None => {
                let mut storage = match account.state_diff.take() {
                    Some(storage) => storage,
                    None => Storage::new(),
                };
                let ghost before = storage@;
                storage.extend(diff);
                assert(before == Map::<Word, Word>::empty() ==> storage@ =~= diff@);
                account.state_diff = Some(storage);
            },
        }
    }
}

/// Lays a request's account overrides over the pending ones.
fn merge_state(pending: Option<StateOverride>, user: Option<StateOverride>) -> (r: Option<
    StateOverride,
>)
    ensures
        state_view(r) == merged_state(state_view(pending), state_view(user)),
{
    let user = match user {
        Some(user) => user,
        None => {
            return pending;
        },
    };
    let mut accounts = match pending {
        Some(accounts) => accounts,
        None => StateOverride::new(),
    };
    let ghost base = accounts@;
    let ghost overlay = user@;
    accounts.merge_from(user);
    assert(accounts@ =~= merged_accounts(base, overlay));
    Some(accounts)
}

/// Adds every hash of `more`, which counts where both have one for a block.
fn extend_hashes(hashes: &mut BTreeMap<u64, Word>, more: &BTreeMap<u64, Word>)
    ensures
        final(hashes)@ == old(hashes)@.union_prefer_right(more@),
{
    broadcast use vstd::laws_cmp::group_laws_cmp;
    let ghost base = hashes@;
    for entry in it: more.iter()
        invariant
            forall|i: int|
                0 <= i < it.seq().len() ==> more@.contains_key(*(#[trigger] it.seq()[i]).0)
                    && more@[*it.seq()[i].0] == *it.seq()[i].1,
            forall|k: u64| #[trigger]
                more@.contains_key(k) ==> it.seq().contains((&k, &more@[k])),
            forall|k: u64| #[trigger]
                hashes@.contains_key(k) ==> base.contains_key(k) || more@.contains_key(k),
            forall|k: u64| #[trigger] base.contains_key(k) ==> hashes@.contains_key(k),
            forall|i: int|
                0 <= i < it.index() ==> hashes@.contains_key(*(#[trigger] it.seq()[i]).0),
            forall|k: u64| #[trigger]
                hashes@.contains_key(k) ==> hashes@[k] == base[k] || (more@.contains_key(k)
                    && hashes@[k] == more@[k]),
            forall|i: int|
                0 <= i < it.index() ==> hashes@[*(#[trigger] it.seq()[i]).0] == *it.seq()[i].1,
    {
        let (number, hash) = entry;
        hashes.insert(*number, *hash);
    }
    assert(hashes@ =~= base.union_prefer_right(more@));
}

/// Lays a request's block overrides over the pending ones, field by field.
fn merge_block_fields(block: &mut BlockOverrides, user: BlockOverrides)
    ensures
        final(block)@ == merged_block_fields(old(block)@, user@),
{
    block.number = prefer(user.number, block.number);
    block.difficulty = prefer(user.difficulty, block.difficulty);
    block.time = prefer(user.time, block.time);
    block.gas_limit = prefer(user.gas_limit, block.gas_limit);
    block.coinbase = prefer(user.coinbase, block.coinbase);
    block.random = prefer(user.random, block.random);
    block.base_fee = prefer(user.base_fee, block.base_fee);
    block.blob_base_fee = prefer(user.blob_base_fee, block.blob_base_fee);
    block.beacon_root = prefer(user.beacon_root, block.beacon_root);
    if let Some(hashes) = user.block_hash {
        let mut known = match block.block_hash.take() {
            Some(known) => known,
            None => BTreeMap::new(),
        };
        let ghost before = known@;
        extend_hashes(&mut known, &hashes);
        assert(before == Map::<u64, Word>::empty() ==> known@ =~= hashes@);
        block.block_hash = Some(known);
    }
}

/// Lays a request's block overrides over the pending ones.
fn merge_block(pending: Option<Box<BlockOverrides>>, user: Option<Box<BlockOverrides>>) -> (r:
    Option<Box<BlockOverrides>>)
    ensures
        boxed_block_view(r) == merged_block(boxed_block_view(pending), boxed_block_view(user)),
{
    let user = match user {
        Some(user) => user,
        None => {
            return pending;
        },
    };
    let mut block = match pending {
        Some(block) => *block,
        None => BlockOverrides::default(),
    };
    merge_block_fields(&mut block, *user);
    Some(Box::new(block))
}

/// Lays a request's overrides over the pending ones. What the request sets counts; what it leaves
/// out stays as the pending state has it.
pub fn merge_overrides(
    pending: EvmOverrides,
    state: Option<StateOverride>,
    block: Option<Box<BlockOverrides>>,
) -> (r: EvmOverrides)
    ensures
        r@ == merged_overrides(pending@, state_view(state), boxed_block_view(block)),
{
    EvmOverrides {
        state: merge_state(pending.state, state),
        block: merge_block(pending.block, block),
    }
}

/// Whether an override sets at most one of the whole storage and listed slots, as a valid request
/// does.
pub open spec fn storage_is_unambiguous(account: AccountOverrideView) -> bool {
    account.state is None || account.state_diff is None
}

/// What an account reads in a storage slot when `account` is applied over storage that holds
/// `canonical`: a whole-storage override answers for every slot, with zero where it lists none;
/// listed slots answer for themselves.
pub open spec fn slot_under_override(
    account: AccountOverrideView,
    canonical: spec_fn(Word) -> Word,
    slot: Word,
) -> Word {
    match (account.state, account.state_diff) {
        (Some(slots), _) => if slots.contains_key(slot) {
            slots[slot]
        } else {
            ZERO_WORD
        },
        (None, Some(diff)) => if diff.contains_key(slot) {
            diff[slot]
        } else {
            canonical(slot)
        },
        (None, None) => canonical(slot),
    }
}

/// A request without overrides executes on exactly the pending ones.
pub proof fn law_no_request_overrides_change_nothing(pending: EvmOverridesView)
    ensures
        merged_overrides(pending, None, None) == pending,
{
}

/// A request without pending overrides executes on exactly its own.
pub proof fn law_no_pending_overrides_change_nothing(
    state: Option<Map<AccountAddress, AccountOverrideView>>,
    block: Option<BlockOverridesView>,
)
    ensures
        merged_overrides(EvmOverridesView { state: None, block: None }, state, block) == (
        EvmOverridesView { state, block }),
{
    let merged = merged_overrides(EvmOverridesView { state: None, block: None }, state, block);
    if let Some(user) = state {
        let accounts = merged_accounts(Map::empty(), user);
        assert forall|a: AccountAddress| #[trigger] accounts.contains_key(a) implies accounts[a]
            == user[a] by {
            assert(merged_account(unchanged_account(), user[a]) =~= user[a]);
        }
        assert(accounts =~= user);
    }
    if let Some(user) = block {
        assert(merged_block_fields(unchanged_block(), user) =~= user);
    }
}

/// An account that the request does not mention keeps its pending override, or stays without one.
pub proof fn law_unmentioned_accounts_stay(
    pending: Map<AccountAddress, AccountOverrideView>,
    user: Map<AccountAddress, AccountOverrideView>,
    address: AccountAddress,
)
    requires
        !user.contains_key(address),
    ensures
        merged_accounts(pending, user).contains_key(address) == pending.contains_key(address),
        pending.contains_key(address) ==> merged_accounts(pending, user)[address]
            == pending[address],
{
}

/// Of an account that the request mentions, each of balance, nonce, code and moved precompile is
/// the request's where it sets it, and the pending one where it does not.
pub proof fn law_only_explicit_account_fields_change(
    pending: Map<AccountAddress, AccountOverrideView>,
    user: Map<AccountAddress, AccountOverrideView>,
    address: AccountAddress,
)
    requires
        user.contains_key(address),
    ensures
        ({
            let merged = merged_accounts(pending, user)[address];
            let before = account_at(pending, address);
            let explicit = user[address];
            &&& merged_accounts(pending, user).contains_key(address)
            &&& merged.balance == if explicit.balance is Some {
                explicit.balance
            } else {
                before.balance
            }
            &&& merged.nonce == if explicit.nonce is Some {
                explicit.nonce
            } else {
                before.nonce
            }
            &&& merged.code == if explicit.code is Some {
                explicit.code
            } else {
                before.code
            }
            &&& merged.move_precompile_to == if explicit.move_precompile_to is Some {
                explicit.move_precompile_to
            } else {
                before.move_precompile_to
            }
        }),
{
}

/// A request's whole-storage override replaces the storage: a slot that it does not list reads
/// zero, whatever the pending or canonical state held.
pub proof fn law_full_storage_replaces(
    pending: AccountOverrideView,
    user: AccountOverrideView,
    canonical: spec_fn(Word) -> Word,
    slot: Word,
)
    requires
        user.state is Some,
    ensures
        slot_under_override(merged_account(pending, user), canonical, slot) == (
        if user.state->0.contains_key(slot) {
            user.state->0[slot]
        } else {
            ZERO_WORD
        }),
{
}

/// Slots that a request lists replace only themselves: every other slot reads what it reads under
/// the pending override.
pub proof fn law_listed_slots_replace_only_themselves(
    pending: AccountOverrideView,
    user: AccountOverrideView,
    canonical: spec_fn(Word) -> Word,
    slot: Word,
)
    requires
        user.state is None,
        user.state_diff is Some,
    ensures
        slot_under_override(merged_account(pending, user), canonical, slot) == (
        if user.state_diff->0.contains_key(slot) {
            user.state_diff->0[slot]
        } else {
            slot_under_override(pending, canonical, slot)
        }),
{
}

/// A request that leaves storage out leaves what every slot reads as it is.
pub proof fn law_unmentioned_storage_stays(
    pending: AccountOverrideView,
    user: AccountOverrideView,
    canonical: spec_fn(Word) -> Word,
    slot: Word,
)
    requires
        user.state is None,
        user.state_diff is None,
    ensures
        slot_under_override(merged_account(pending, user), canonical, slot)
            == slot_under_override(pending, canonical, slot),
{
}

/// A whole-storage override with slots listed after it is one whole-storage override: the later
/// slots extend it and none is left listed beside it.
pub proof fn law_listed_slots_extend_full_storage(
    pending: AccountOverrideView,
    full: AccountOverrideView,
    later: AccountOverrideView,
)
    requires
        full.state is Some,
        full.state_diff is None,
        later.state is None,
        later.state_diff is Some,
    ensures
        merged_account(merged_account(pending, full), later).state == Some(
            full.state->0.union_prefer_right(later.state_diff->0),
        ),
        merged_account(merged_account(pending, full), later).state_diff is None,
{
}

/// An invalid request stays invalid: an account with both a whole storage and listed slots comes out
/// of the merge with both as the request gave them.
pub proof fn law_ambiguous_storage_stays_ambiguous(
    pending: Option<Map<AccountAddress, AccountOverrideView>>,
    user: Map<AccountAddress, AccountOverrideView>,
    address: AccountAddress,
)
    requires
        user.contains_key(address),
        !storage_is_unambiguous(user[address]),
    ensures
        ({
            let merged = merged_state(pending, Some(user))->0;
            &&& merged_state(pending, Some(user)) is Some
            &&& merged.contains_key(address)
            &&& merged[address].state == user[address].state
            &&& merged[address].state_diff == user[address].state_diff
        }),
        !state_is_unambiguous(merged_state(pending, Some(user))),
{
    let merged = merged_state(pending, Some(user))->0;
    assert(merged.contains_key(address));
}

/// Whether no account of a state sets both kinds of storage, as in a valid request.
pub open spec fn state_is_unambiguous(
    state: Option<Map<AccountAddress, AccountOverrideView>>,
) -> bool {
    state matches Some(accounts) ==> forall|a: AccountAddress| #[trigger]
        accounts.contains_key(a) ==> storage_is_unambiguous(accounts[a])
}

/// A valid request over a valid pending state is valid: if no account of either sets both a whole
/// storage and listed slots, none does after the merge.
pub proof fn law_unambiguous_storage_stays_unambiguous(
    pending: Option<Map<AccountAddress, AccountOverrideView>>,
    user: Option<Map<AccountAddress, AccountOverrideView>>,
)
    requires
        state_is_unambiguous(pending),
        state_is_unambiguous(user),
    ensures
        state_is_unambiguous(merged_state(pending, user)),
{
    if let Some(overlay) = user {
        let base = match pending {
            Some(base) => base,
            None => Map::empty(),
        };
        let merged = merged_accounts(base, overlay);
        assert forall|a: AccountAddress| #[trigger] merged.contains_key(a) implies
            storage_is_unambiguous(merged[a]) by {
            assert(storage_is_unambiguous(account_at(base, a)));
        }
    }
}

/// The block environment is the request's field by field: a field that it sets is its own, one that
/// it leaves out is the pending one, and its block hashes are added to the pending ones.
pub proof fn law_only_explicit_block_fields_change(
    pending: BlockOverridesView,
    user: BlockOverridesView,
    number: u64,
)
    ensures
        ({
            let merged = merged_block(Some(pending), Some(user))->0;
            &&& merged_block(Some(pending), Some(user)) is Some
            &&& merged.number == preferred(user.number, pending.number)
            &&& merged.difficulty == preferred(user.difficulty, pending.difficulty)
            &&& merged.time == preferred(user.time, pending.time)
            &&& merged.gas_limit == preferred(user.gas_limit, pending.gas_limit)
            &&& merged.coinbase == preferred(user.coinbase, pending.coinbase)
            &&& merged.random == preferred(user.random, pending.random)
            &&& merged.base_fee == preferred(user.base_fee, pending.base_fee)
            &&& merged.blob_base_fee == preferred(user.blob_base_fee, pending.blob_base_fee)
            &&& merged.beacon_root == preferred(user.beacon_root, pending.beacon_root)
            &&& hash_override(merged, number) == preferred(
                hash_override(user, number),
                hash_override(pending, number),
            )
        }),
{
}

/// The hash that an override gives the block of a number, if any.
pub open spec fn hash_override(block: BlockOverridesView, number: u64) -> Option<Word> {
    match block.block_hash {
        Some(hashes) => if hashes.contains_key(number) {
            Some(hashes[number])
        } else {
            None
        },
        None => None,
    }
}

proof fn lemma_accounts_associate(
    pending: AccountOverrideView,
    first: AccountOverrideView,
    second: AccountOverrideView,
)
    ensures
        merged_account(merged_account(pending, first), second) == merged_account(
            pending,
            merged_account(first, second),
        ),
{
    let left = merged_account(merged_account(pending, first), second);
    let right = merged_account(pending, merged_account(first, second));
    if second.state is None && second.state_diff is Some {
        let diff = second.state_diff->0;
        if first.state is None && first.state_diff is Some {
            let earlier = first.state_diff->0;
            if let Some(slots) = pending.state {
                assert(slots.union_prefer_right(earlier).union_prefer_right(diff)
                    =~= slots.union_prefer_right(earlier.union_prefer_right(diff)));
            }
            if let Some(slots) = pending.state_diff {
                assert(slots.union_prefer_right(earlier).union_prefer_right(diff)
                    =~= slots.union_prefer_right(earlier.union_prefer_right(diff)));
            }
        }
    }
    assert(left =~= right);
}

proof fn lemma_states_associate(
    pending: Option<Map<AccountAddress, AccountOverrideView>>,
    first: Option<Map<AccountAddress, AccountOverrideView>>,
    second: Option<Map<AccountAddress, AccountOverrideView>>,
)
    ensures
        merged_state(merged_state(pending, first), second) == merged_state(
            pending,
            merged_state(first, second),
        ),
{
    if first is Some && second is Some {
        let base = match pending {
            Some(base) => base,
            None => Map::empty(),
        };
        let left = merged_accounts(merged_accounts(base, first->0), second->0);
        let right = merged_accounts(base, merged_accounts(first->0, second->0));
        assert forall|a: AccountAddress| #[trigger] left.contains_key(a) implies left[a]
            == right[a] by {
            lemma_accounts_associate(
                account_at(base, a),
                account_at(first->0, a),
                account_at(second->0, a),
            );
            if second->0.contains_key(a) && !first->0.contains_key(a) {
                let user = second->0[a];
                assert(merged_account(unchanged_account(), user) =~= user);
            }
        }
        assert(left =~= right);
    } else if second is Some && first is None {
        let user = second->0;
        law_no_pending_overrides_change_nothing(second, None);
        assert(merged_accounts(Map::empty(), user) == user);
    }
}

proof fn lemma_block_fields_associate(
    pending: BlockOverridesView,
    first: BlockOverridesView,
    second: BlockOverridesView,
)
    ensures
        merged_block_fields(merged_block_fields(pending, first), second) == merged_block_fields(
            pending,
            merged_block_fields(first, second),
        ),
{
    let left = merged_block_fields(merged_block_fields(pending, first), second);
    let right = merged_block_fields(pending, merged_block_fields(first, second));
    assert(left.block_hash == right.block_hash) by {
        if pending.block_hash is Some && first.block_hash is Some && second.block_hash is Some {
            let (p, f, s) = (pending.block_hash->0, first.block_hash->0, second.block_hash->0);
            assert(p.union_prefer_right(f).union_prefer_right(s) =~= p.union_prefer_right(
                f.union_prefer_right(s),
            ));
        }
    }
    assert(left.number == right.number);
    assert(left.difficulty == right.difficulty);
    assert(left.time == right.time);
    assert(left.gas_limit == right.gas_limit);
    assert(left.coinbase == right.coinbase);
    assert(left.random == right.random);
    assert(left.base_fee == right.base_fee);
    assert(left.blob_base_fee == right.blob_base_fee);
    assert(left.beacon_root == right.beacon_root);
}

proof fn lemma_blocks_associate(
    pending: Option<BlockOverridesView>,
    first: Option<BlockOverridesView>,
    second: Option<BlockOverridesView>,
)
    ensures
        merged_block(merged_block(pending, first), second) == merged_block(
            pending,
            merged_block(first, second),
        ),
{
    if first is Some && second is Some {
        let base = match pending {
            Some(base) => base,
            None => unchanged_block(),
        };
        lemma_block_fields_associate(base, first->0, second->0);
    } else if second is Some {
        law_no_pending_overrides_change_nothing(None, second);
    }
}

/// Overrides layer: two requests' overrides applied one after the other are the merge of the two
/// applied at once.
pub proof fn law_layers_associate(
    pending: EvmOverridesView,
    first: EvmOverridesView,
    second: EvmOverridesView,
)
    ensures
        merged_overrides(
            merged_overrides(pending, first.state, first.block),
            second.state,
            second.block,
        ) == ({
            let both = merged_overrides(first, second.state, second.block);
            merged_overrides(pending, both.state, both.block)
        }),
{
    lemma_states_associate(pending.state, first.state, second.state);
    lemma_blocks_associate(pending.block, first.block, second.block);
}

/// Applying the same request's overrides a second time changes nothing.
pub proof fn law_merge_is_idempotent(pending: EvmOverridesView, user: EvmOverridesView)
    ensures
        ({
            let once = merged_overrides(pending, user.state, user.block);
            merged_overrides(once, user.state, user.block) == once
        }),
{
    let once = merged_overrides(pending, user.state, user.block);
    if let Some(accounts) = user.state {
        let merged = once.state->0;
        let again = merged_accounts(merged, accounts);
        assert forall|a: AccountAddress| #[trigger] again.contains_key(a) implies again[a]
            == merged[a] by {
            if accounts.contains_key(a) {
                let explicit = accounts[a];
                if explicit.state is None && explicit.state_diff is Some {
                    let diff = explicit.state_diff->0;
                    if let Some(slots) = merged[a].state {
                        assert(slots.union_prefer_right(diff) =~= slots);
                    }
                    if let Some(slots) = merged[a].state_diff {
                        assert(merged[a].state is None ==> slots.union_prefer_right(diff) =~= slots);
                    }
                }
                assert(again[a] =~= merged[a]);
            }
        }
        assert(again =~= merged);
    }
    if let Some(block) = user.block {
        let merged = once.block->0;
        if block.block_hash is Some {
            assert(merged.block_hash->0.union_prefer_right(block.block_hash->0)
                =~= merged.block_hash->0);
        }
        assert(merged_block_fields(merged, block) =~= merged);
    }
}

/// What a merge of account overrides holds of an account and a slot. An account that the request
/// leaves out is as the pending state has it. Of one that it mentions, each field is the request's
/// where it sets it and the pending one otherwise; a whole storage replaces what was there, and
/// listed slots go over a whole storage or over slots listed before, each for itself.
pub proof fn law_accounts_are_merged_field_by_field(
    pending: EvmOverrides,
    state: Option<StateOverride>,
    block: Option<Box<BlockOverrides>>,
    r: EvmOverrides,
    address: AccountAddress,
    slot: Word,
)
    requires
        call_ensures(merge_overrides, (pending, state, block), r),
    ensures
        state is None ==> (r.state is Some <==> pending.state is Some),
        state is None && pending.state is Some ==> r.state->0@ == pending.state->0@,
        state is Some ==> r.state is Some,
        state is Some ==> ({
            let known = pending.state is Some && pending.state->0@.contains_key(address);
            let given = state->0@.contains_key(address);
            &&& r.state->0@.contains_key(address) <==> known || given
            &&& known && !given ==> r.state->0@[address] == pending.state->0@[address]
        }),
        state is Some && state->0@.contains_key(address) ==> ({
            let known = pending.state is Some && pending.state->0@.contains_key(address);
            let before = pending.state->0@[address];
            let user = state->0@[address];
            let merged = r.state->0@[address];
            &&& merged.balance == (if user.balance is Some {
                user.balance
            } else if known {
                before.balance
            } else {
                None
            })
            &&& merged.nonce == (if user.nonce is Some {
                user.nonce
            } else if known {
                before.nonce
            } else {
                None
            })
            &&& merged.code == (if user.code is Some {
                user.code
            } else if known {
                before.code
            } else {
                None
            })
            &&& merged.move_precompile_to == (if user.move_precompile_to is Some {
                user.move_precompile_to
            } else if known {
                before.move_precompile_to
            } else {
                None
            })
            &&& user.state is Some ==> merged.state == user.state && merged.state_diff == user.state_diff
            &&& user.state is None && user.state_diff is None ==> merged.state == (if known {
                before.state
            } else {
                None
            }) && merged.state_diff == (if known {
                before.state_diff
            } else {
                None
            })
            &&& user.state is None && user.state_diff is Some && known && before.state is Some ==> {
                &&& merged.state is Some
                &&& merged.state_diff == before.state_diff
                &&& merged.state->0.contains_key(slot) <==> user.state_diff->0.contains_key(slot)
                    || before.state->0.contains_key(slot)
                &&& merged.state->0.contains_key(slot) ==> merged.state->0[slot] == (
                if user.state_diff->0.contains_key(slot) {
                    user.state_diff->0[slot]
                } else {
                    before.state->0[slot]
                })
            }
            &&& user.state is None && user.state_diff is Some && !(known && before.state is Some) ==> {
                let listed = known && before.state_diff is Some && before.state_diff->0.contains_key(slot);
                &&& merged.state is None
                &&& merged.state_diff is Some
                &&& merged.state_diff->0.contains_key(slot) <==> user.state_diff->0.contains_key(slot) || listed
                &&& merged.state_diff->0.contains_key(slot) ==> merged.state_diff->0[slot] == (
                if user.state_diff->0.contains_key(slot) {
                    user.state_diff->0[slot]
                } else {
                    before.state_diff->0[slot]
                })
            }
        }),
{
}

/// What a merge of block overrides holds: each field is the request's where it sets it and the
/// pending one otherwise, and so is the hash of each block.
pub proof fn law_blocks_are_merged_field_by_field(
    pending: EvmOverrides,
    state: Option<StateOverride>,
    block: Option<Box<BlockOverrides>>,
    r: EvmOverrides,
    height: u64,
)
    requires
        call_ensures(merge_overrides, (pending, state, block), r),
    ensures
        block is None ==> (r.block is Some <==> pending.block is Some),
        block is None && pending.block is Some ==> (*r.block->0)@ == (*pending.block->0)@,
        block is Some ==> r.block is Some,
        block is Some ==> ({
            let known = pending.block is Some;
            let before = (*pending.block->0)@;
            let user = (*block->0)@;
            let merged = (*r.block->0)@;
            &&& merged.number == (if user.number is Some {
                user.number
            } else if known {
                before.number
            } else {
                None
            })
            &&& merged.difficulty == (if user.difficulty is Some {
                user.difficulty
            } else if known {
                before.difficulty
            } else {
                None
            })
            &&& merged.time == (if user.time is Some {
                user.time
            } else if known {
                before.time
            } else {
                None
            })
            &&& merged.gas_limit == (if user.gas_limit is Some {
                user.gas_limit
            } else if known {
                before.gas_limit
            } else {
                None
            })
            &&& merged.coinbase == (if user.coinbase is Some {
                user.coinbase
            } else if known {
                before.coinbase
            } else {
                None
            })
            &&& merged.random == (if user.random is Some {
                user.random
            } else if known {
                before.random
            } else {
                None
            })
            &&& merged.base_fee == (if user.base_fee is Some {
                user.base_fee
            } else if known {
                before.base_fee
            } else {
                None
            })
            &&& merged.blob_base_fee == (if user.blob_base_fee is Some {
                user.blob_base_fee
            } else if known {
                before.blob_base_fee
            } else {
                None
            })
            &&& merged.beacon_root == (if user.beacon_root is Some {
                user.beacon_root
            } else if known {
                before.beacon_root
            } else {
                None
            })
            &&& merged.block_hash is Some <==> user.block_hash is Some || (known && before.block_hash is Some)
            &&& merged.block_hash is Some ==> {
                let given = user.block_hash is Some && user.block_hash->0.contains_key(height);
                let earlier = known && before.block_hash is Some && before.block_hash->0.contains_key(height);
                &&& merged.block_hash->0.contains_key(height) <==> given || earlier
                &&& given ==> merged.block_hash->0[height] == user.block_hash->0[height]
                &&& !given && earlier ==> merged.block_hash->0[height] == before.block_hash->0[height]
            }
        }),
{
}

} // verus!

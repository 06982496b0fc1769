//! State and block overrides of an execution request.
use crate::collections::{
    accounts_default, accounts_entry_or_insert, accounts_get, accounts_insert, accounts_into_entries,
    accounts_keys, accounts_of, lists_entries, lists_keys, Storage,
};
use crate::merge::{account_at, merge_account, merged_account, merged_accounts};
use crate::primitives::{AccountAddress, Word, U256};
use alloy_primitives::map::AddressHashMap;
use std::collections::BTreeMap;
use vstd::prelude::*;

verus! {

/// What a request changes of one account before it executes.
///
/// `state` replaces the whole storage, `state_diff` only the slots that it lists.
#[derive(Debug, PartialEq, Eq)]
pub struct AccountOverride {
    pub balance: Option<U256>,
    pub nonce: Option<u64>,
    pub code: Option<Vec<u8>>,
    pub state: Option<Storage>,
    pub state_diff: Option<Storage>,
    pub move_precompile_to: Option<AccountAddress>,
}

/// What an [`AccountOverride`] says.
#[verifier::ext_equal]
pub struct AccountOverrideView {
    pub balance: Option<U256>,
    pub nonce: Option<u64>,
    pub code: Option<Seq<u8>>,
    pub state: Option<Map<Word, Word>>,
    pub state_diff: Option<Map<Word, Word>>,
    pub move_precompile_to: Option<AccountAddress>,
}

/// The slots of an optional storage.
pub open spec fn storage_view(storage: Option<Storage>) -> Option<Map<Word, Word>> {
    match storage {
        Some(slots) => Some(slots@),
        None => None,
    }
}

impl View for AccountOverride {
    type V = AccountOverrideView;

    open spec fn view(&self) -> AccountOverrideView {
        AccountOverrideView {
            balance: self.balance,
            nonce: self.nonce,
            code: match self.code {
                Some(code) => Some(code@),
                None => None,
            },
            state: storage_view(self.state),
            state_diff: storage_view(self.state_diff),
            move_precompile_to: self.move_precompile_to,
        }
    }
}

/// An override that changes nothing.
pub open spec fn unchanged_account() -> AccountOverrideView {
    AccountOverrideView {
        balance: None,
        nonce: None,
        code: None,
        state: None,
        state_diff: None,
        move_precompile_to: None,
    }
}

impl Default for AccountOverride {
    /// An override that changes nothing.
    fn default() -> (r: AccountOverride)
        ensures
            r@ == unchanged_account(),
    {
        AccountOverride {
            balance: None,
            nonce: None,
            code: None,
            state: None,
            state_diff: None,
            move_precompile_to: None,
        }
    }
}

impl Clone for AccountOverride {
    /// An override that says the same.
    fn clone(&self) -> (r: AccountOverride)
        ensures
            r@ == self@,
    {
        let code = match &self.code {
            Some(code) => Some(copy_bytes(code)),
            None => None,
        };
        let state = match &self.state {
            Some(storage) => Some(storage.clone()),
            None => None,
        };
        let state_diff = match &self.state_diff {
            Some(storage) => Some(storage.clone()),
            None => None,
        };
        AccountOverride {
            balance: self.balance,
            nonce: self.nonce,
            code,
            state,
            state_diff,
            move_precompile_to: self.move_precompile_to,
        }
    }
}

/// A second vector with the same bytes.
pub(crate) fn copy_bytes(bytes: &Vec<u8>) -> (r: Vec<u8>)
    ensures
        r@ == bytes@,
{
    let r = bytes.clone();
    assert(r@ =~= bytes@);
    r
}

/// Account overrides by address.
#[derive(Debug, PartialEq, Eq)]
pub struct StateOverride {
    accounts: AddressHashMap<AccountOverride>,
}

impl View for StateOverride {
    type V = Map<AccountAddress, AccountOverrideView>;

    /// What is overridden at each address.
    closed spec fn view(&self) -> Map<AccountAddress, AccountOverrideView> {
        accounts_of(self.accounts).map_values(|account: AccountOverride| account@)
    }
}

impl StateOverride {
    /// No account overridden.
    pub fn new() -> (r: StateOverride)
        ensures
            r@ == Map::<AccountAddress, AccountOverrideView>::empty(),
    {
        let r = StateOverride { accounts: accounts_default() };
        assert(r@ =~= Map::<AccountAddress, AccountOverrideView>::empty());
        r
    }

    /// Sets what is overridden at an address.
    pub fn insert(&mut self, address: AccountAddress, account: AccountOverride)
        ensures
            final(self)@ == old(self)@.insert(address, account@),
    {
        accounts_insert(&mut self.accounts, address, account);
        assert(self@ =~= old(self)@.insert(address, account@));
    }

    /// What is overridden at an address, if anything.
    pub fn get(&self, address: AccountAddress) -> (r: Option<&AccountOverride>)
        ensures
            match r {
                Some(account) => self@.contains_key(address) && self@[address] == account@,
                None => !self@.contains_key(address),
            },
    {
        accounts_get(&self.accounts, address)
    }

    /// The addresses with an override, in no stated order.
    pub fn addresses(&self) -> (r: Vec<AccountAddress>)
        ensures
            lists_keys(r@, self@),
    {
        let r = accounts_keys(&self.accounts);
        assert forall|k: AccountAddress| #[trigger] self@.contains_key(k) <==> r@.contains(k) by {
            assert(self@.contains_key(k) <==> accounts_of(self.accounts).contains_key(k));
        }
        r
    }
}

impl StateOverride {
    /// What is overridden at an address, to be changed in place; nothing to begin with where there
    /// was no override.
    pub(crate) fn entry_or_default(&mut self, address: AccountAddress) -> (r: &mut AccountOverride)
        ensures
            r@ == account_at(old(self)@, address),
            final(self)@ == old(self)@.insert(address, final(r)@),
    {
        let r = accounts_entry_or_insert(&mut self.accounts, address, AccountOverride::default());
        proof {
            lemma_insert_view(accounts_of(old(self).accounts), address, *final(r));
        }
        r
    }

    /// Lays the overrides of `user` over these, address by address.
    pub(crate) fn merge_from(&mut self, user: StateOverride)
        ensures
            final(self)@ == merged_accounts(old(self)@, user@),
    {
        let ghost base = accounts_of(self.accounts);
        let ghost overlay = accounts_of(user.accounts);
        let mut entries = accounts_into_entries(user.accounts);
        let ghost listed = entries@;
        while entries.len() > 0
            invariant
                lists_entries(listed, overlay),
                entries@.len() <= listed.len(),
                entries@ == listed.take(entries@.len() as int),
                forall|a: AccountAddress| #[trigger]
                    accounts_of(self.accounts).contains_key(a) <==> base.contains_key(a) || taken(
                        listed,
                        entries@.len(),
                        a,
                    ),
                forall|a: AccountAddress|
                    (#[trigger] accounts_of(self.accounts).contains_key(a)) && !taken(listed, entries@.len(), a)
                        ==> accounts_of(self.accounts)[a] == base[a],
                forall|a: AccountAddress|
                    (#[trigger] accounts_of(self.accounts).contains_key(a)) && taken(listed, entries@.len(), a)
                        ==> accounts_of(self.accounts)[a]@ == merged_account(
                        view_at(base, a),
                        overlay[a]@,
                    ),
            decreases entries@.len(),
        {
            let ghost n = entries@.len();
            if let Some((address, account)) = entries.pop() {
                assert(listed[n - 1] == (address, account));
                assert(!taken(listed, n, address));
                let slot = accounts_entry_or_insert(
                    &mut self.accounts,
                    address,
                    AccountOverride::default(),
                );
                merge_account(slot, account);
                assert(entries@ =~= listed.take(n - 1));
                assert forall|a: AccountAddress| #[trigger] taken(listed, (n - 1) as nat, a) <==> a
                    == address || taken(listed, n, a) by {
                    if a == address {
                        assert(listed[n - 1].0 == a);
                    }
                }
            }
        }
        assert forall|a: AccountAddress| taken(listed, 0, a) <==> overlay.contains_key(a) by {}
        assert(self@ =~= merged_accounts(old(self)@, user@));
    }
}

proof fn lemma_insert_view(
    accounts: Map<AccountAddress, AccountOverride>,
    address: AccountAddress,
    account: AccountOverride,
)
    ensures
        accounts.insert(address, account).map_values(|a: AccountOverride| a@) == accounts.map_values(
            |a: AccountOverride| a@,
        ).insert(address, account@),
{
    assert(accounts.insert(address, account).map_values(|a: AccountOverride| a@)
        =~= accounts.map_values(|a: AccountOverride| a@).insert(address, account@));
}

/// Whether one of the entries from index `n` on is for address `a`.
spec fn taken(entries: Seq<(AccountAddress, AccountOverride)>, n: nat, a: AccountAddress) -> bool {
    exists|i: int| n <= i < entries.len() && (#[trigger] entries[i]).0 == a
}

/// What a map of accounts overrides at an address; nothing where it has no entry.
spec fn view_at(accounts: Map<AccountAddress, AccountOverride>, a: AccountAddress) -> AccountOverrideView {
    if accounts.contains_key(a) {
        accounts[a]@
    } else {
        unchanged_account()
    }
}

impl Clone for StateOverride {
    /// The same overrides at the same addresses.
    fn clone(&self) -> (r: StateOverride)
        ensures
            r@ == self@,
    {
        let mut r = StateOverride::new();
        let addresses = self.addresses();
        let mut i: usize = 0;
        while i < addresses.len()
            invariant
                i <= addresses.len(),
                lists_keys(addresses@, self@),
                forall|a: AccountAddress| #[trigger]
                    r@.contains_key(a) <==> addresses@.take(i as int).contains(a),
                forall|a: AccountAddress| #[trigger]
                    r@.contains_key(a) ==> self@.contains_key(a) && r@[a] == self@[a],
            decreases addresses.len() - i,
        {
            let address = addresses[i];
            assert(addresses@.contains(address));
            let ghost before = r@;
            match self.get(address) {
                Some(account) => {
                    r.insert(address, account.clone());
                },
                None => {},
            }
            assert(addresses@.take(i + 1) =~= addresses@.take(i as int).push(address));
            assert forall|a: AccountAddress| #[trigger]
                r@.contains_key(a) <==> addresses@.take(i + 1).contains(a) by {
                let pushed = addresses@.take(i as int).push(address);
                if a == address {
                    assert(pushed[i as int] == a);
                } else {
                    assert(r@.contains_key(a) == before.contains_key(a));
                    if before.contains_key(a) {
                        let j = addresses@.take(i as int).index_of(a);
                        assert(pushed[j] == a);
                    }
                    if pushed.contains(a) {
                        let j = pushed.index_of(a);
                        assert(addresses@.take(i as int)[j] == a);
                    }
                }
            }
            i = i + 1;
        }
        assert(addresses@.take(i as int) =~= addresses@);
        assert(r@ =~= self@);
        r
    }
}

/// What a request changes of the block environment before it executes.
#[derive(Debug, PartialEq, Eq)]
pub struct BlockOverrides {
    pub number: Option<U256>,
    pub difficulty: Option<U256>,
    pub time: Option<u64>,
    pub gas_limit: Option<u64>,
    pub coinbase: Option<AccountAddress>,
    pub random: Option<Word>,
    pub base_fee: Option<U256>,
    pub blob_base_fee: Option<U256>,
    pub beacon_root: Option<Word>,
    pub block_hash: Option<BTreeMap<u64, Word>>,
}

/// What a [`BlockOverrides`] says.
#[verifier::ext_equal]
pub struct BlockOverridesView {
    pub number: Option<U256>,
    pub difficulty: Option<U256>,
    pub time: Option<u64>,
    pub gas_limit: Option<u64>,
    pub coinbase: Option<AccountAddress>,
    pub random: Option<Word>,
    pub base_fee: Option<U256>,
    pub blob_base_fee: Option<U256>,
    pub beacon_root: Option<Word>,
    pub block_hash: Option<Map<u64, Word>>,
}

impl View for BlockOverrides {
    type V = BlockOverridesView;

    open spec fn view(&self) -> BlockOverridesView {
        BlockOverridesView {
            number: self.number,
            difficulty: self.difficulty,
            time: self.time,
            gas_limit: self.gas_limit,
            coinbase: self.coinbase,
            random: self.random,
            base_fee: self.base_fee,
            blob_base_fee: self.blob_base_fee,
            beacon_root: self.beacon_root,
            block_hash: match self.block_hash {
                Some(hashes) => Some(hashes@),
                None => None,
            },
        }
    }
}

/// An override that leaves the block environment as it is.
pub open spec fn unchanged_block() -> BlockOverridesView {
    BlockOverridesView {
        number: None,
        difficulty: None,
        time: None,
        gas_limit: None,
        coinbase: None,
        random: None,
        base_fee: None,
        blob_base_fee: None,
        beacon_root: None,
        block_hash: None,
    }
}

impl Default for BlockOverrides {
    /// An override that leaves the block environment as it is.
    fn default() -> (r: BlockOverrides)
        ensures
            r@ == unchanged_block(),
    {
        BlockOverrides {
            number: None,
            difficulty: None,
            time: None,
            gas_limit: None,
            coinbase: None,
            random: None,
            base_fee: None,
            blob_base_fee: None,
            beacon_root: None,
            block_hash: None,
        }
    }
}

/// All that a request changes before it executes.
#[derive(Debug, PartialEq, Eq)]
pub struct EvmOverrides {
    pub state: Option<StateOverride>,
    pub block: Option<Box<BlockOverrides>>,
}

/// What an [`EvmOverrides`] says.
#[verifier::ext_equal]
pub struct EvmOverridesView {
    pub state: Option<Map<AccountAddress, AccountOverrideView>>,
    pub block: Option<BlockOverridesView>,
}

/// What optional account overrides say.
pub open spec fn state_view(state: Option<StateOverride>) -> Option<
    Map<AccountAddress, AccountOverrideView>,
> {
    match state {
        Some(accounts) => Some(accounts@),
        None => None,
    }
}

/// What optional block overrides say.
pub open spec fn block_view(block: Option<BlockOverrides>) -> Option<BlockOverridesView> {
    match block {
        Some(overrides) => Some(overrides@),
        None => None,
    }
}

/// What optional boxed block overrides say.
pub open spec fn boxed_block_view(block: Option<Box<BlockOverrides>>) -> Option<
    BlockOverridesView,
> {
    match block {
        Some(overrides) => Some((*overrides)@),
        None => None,
    }
}

impl View for EvmOverrides {
    type V = EvmOverridesView;

    open spec fn view(&self) -> EvmOverridesView {
        EvmOverridesView { state: state_view(self.state), block: boxed_block_view(self.block) }
    }
}

/// Overrides that change nothing.
pub open spec fn no_overrides() -> EvmOverridesView {
    EvmOverridesView { state: None, block: None }
}

impl Default for EvmOverrides {
    /// Overrides that change nothing.
    fn default() -> (r: EvmOverrides)
        ensures
            r@ == no_overrides(),
    {
        EvmOverrides { state: None, block: None }
    }
}

/// What an account override says is every one of its fields.
pub proof fn law_an_account_override_says_every_field(account: AccountOverride)
    ensures
        account@.balance == account.balance,
        account@.nonce == account.nonce,
        account@.code is Some <==> account.code is Some,
        account.code matches Some(code) ==> account@.code == Some(code@),
        account@.state is Some <==> account.state is Some,
        account.state matches Some(storage) ==> account@.state == Some(storage@),
        account@.state_diff is Some <==> account.state_diff is Some,
        account.state_diff matches Some(storage) ==> account@.state_diff == Some(storage@),
        account@.move_precompile_to == account.move_precompile_to,
{
}

/// What a block override says is every one of its fields.
pub proof fn law_a_block_override_says_every_field(block: BlockOverrides)
    ensures
        block@.number == block.number,
        block@.difficulty == block.difficulty,
        block@.time == block.time,
        block@.gas_limit == block.gas_limit,
        block@.coinbase == block.coinbase,
        block@.random == block.random,
        block@.base_fee == block.base_fee,
        block@.blob_base_fee == block.blob_base_fee,
        block@.beacon_root == block.beacon_root,
        block@.block_hash is Some <==> block.block_hash is Some,
        block.block_hash matches Some(hashes) ==> block@.block_hash == Some(hashes@),
{
}

/// Overrides say what their account and block parts say, and nothing where a part is left out.
pub proof fn law_overrides_say_both_parts(
    overrides: EvmOverrides,
    state: StateOverride,
    block: BlockOverrides,
)
    ensures
        overrides.state is None ==> overrides@.state is None,
        overrides.state matches Some(accounts) ==> overrides@.state == Some(accounts@),
        overrides.block is None ==> overrides@.block is None,
        overrides.block matches Some(block) ==> overrides@.block == Some((*block)@),
        state_view(None) is None,
        state_view(Some(state)) == Some(state@),
        block_view(None) is None,
        block_view(Some(block)) == Some(block@),
        boxed_block_view(None) is None,
        boxed_block_view(Some(Box::new(block))) == Some(block@),
{
}

/// Overrides that are not filled in leave out every field.
pub proof fn law_default_overrides_leave_everything_out(
    account: AccountOverride,
    block: BlockOverrides,
    overrides: EvmOverrides,
    state: StateOverride,
    address: AccountAddress,
)
    requires
        call_ensures(<AccountOverride as Default>::default, (), account),
        call_ensures(<BlockOverrides as Default>::default, (), block),
        call_ensures(<EvmOverrides as Default>::default, (), overrides),
        call_ensures(StateOverride::new, (), state),
    ensures
        account@.balance is None && account@.nonce is None && account@.code is None,
        account@.state is None && account@.state_diff is None,
        account@.move_precompile_to is None,
        block@.number is None && block@.difficulty is None && block@.time is None,
        block@.gas_limit is None && block@.coinbase is None && block@.random is None,
        block@.base_fee is None && block@.blob_base_fee is None && block@.beacon_root is None,
        block@.block_hash is None,
        overrides@.state is None && overrides@.block is None,
        !state@.contains_key(address),
{
}

/// Account overrides are read address by address as they were put: one that was put is what it was,
/// and every other is as before.
pub proof fn law_a_put_account_is_read_back(
    state: &mut StateOverride,
    put: AccountAddress,
    account: AccountOverride,
    address: AccountAddress,
    before: Option<&AccountOverride>,
    after: Option<&AccountOverride>,
)
    requires
        call_ensures(StateOverride::get, (old(state), address), before),
        call_ensures(StateOverride::insert, (state, put, account), ()),
        call_ensures(StateOverride::get, (final(state), address), after),
    ensures
        address == put ==> after is Some && after->0@ == account@,
        address != put ==> (after is Some <==> before is Some),
        address != put && before is Some ==> after->0@ == before->0@,
{
}

/// Account overrides list each address that they have an override for, once, and copy whole.
pub proof fn law_every_address_is_listed_once(
    state: StateOverride,
    address: AccountAddress,
    read: Option<&AccountOverride>,
    addresses: Vec<AccountAddress>,
    copy: StateOverride,
    copied: Option<&AccountOverride>,
)
    requires
        call_ensures(StateOverride::get, (&state, address), read),
        call_ensures(StateOverride::addresses, (&state,), addresses),
        call_ensures(<StateOverride as Clone>::clone, (&state,), copy),
        call_ensures(StateOverride::get, (&copy, address), copied),
    ensures
        read is Some <==> exists|i: int| 0 <= i < addresses@.len() && #[trigger] addresses@[i] == address,
        forall|i: int, j: int|
            0 <= i < j < addresses@.len() ==> #[trigger] addresses@[i] != #[trigger] addresses@[j],
        copied is Some <==> read is Some,
        read is Some ==> copied->0@ == read->0@,
{
    if read is Some {
        assert(addresses@.contains(address));
    }
}

/// A copied account override says the same.
pub proof fn law_a_copied_account_says_the_same(account: AccountOverride, copy: AccountOverride)
    requires
        call_ensures(<AccountOverride as Clone>::clone, (&account,), copy),
    ensures
        copy.balance == account.balance,
        copy.nonce == account.nonce,
        copy@.code == account@.code,
        copy@.state == account@.state,
        copy@.state_diff == account@.state_diff,
        copy.move_precompile_to == account.move_precompile_to,
{
    law_an_account_override_says_every_field(account);
    law_an_account_override_says_every_field(copy);
}

} // verus!

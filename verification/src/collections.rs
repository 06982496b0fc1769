//! The hash maps of `alloy_primitives` that hold overrides, and what they contain.
use crate::overrides::AccountOverride;
use crate::primitives::{AccountAddress, Word};
use alloy_primitives::map::{AddressHashMap, B256HashMap};
use vstd::prelude::*;

verus! {

/// The address type that keys a map of accounts.
#[verifier::external_type_specification]
#[verifier::external_body]
pub struct ExAddress(alloy_primitives::Address);

/// The fixed byte strings that key and fill a map of storage slots.
#[verifier::external_type_specification]
#[verifier::external_body]
pub struct ExFixedBytes<const N: usize>(alloy_primitives::FixedBytes<N>);

/// The hasher of both maps.
#[verifier::external_type_specification]
#[verifier::external_body]
pub struct ExFbBuildHasher<const N: usize>(alloy_primitives::map::FbBuildHasher<N>);

/// What a map of storage slots holds.
pub uninterp spec fn slots_of(m: B256HashMap<alloy_primitives::B256>) -> Map<Word, Word>;

/// What a map of accounts holds.
pub uninterp spec fn accounts_of(m: AddressHashMap<AccountOverride>) -> Map<
    AccountAddress,
    AccountOverride,
>;

/// No storage slot.
pub open spec fn no_slots() -> Map<Word, Word> {
    Map::empty()
}

/// No account.
pub open spec fn no_accounts() -> Map<AccountAddress, AccountOverride> {
    Map::empty()
}

/// Whether `entries` lists each key of `m` once, with its value, in some order.
pub open spec fn lists_entries<K, V>(entries: Seq<(K, V)>, m: Map<K, V>) -> bool {
    &&& forall|i: int| 0 <= i < entries.len() ==> m.contains_key(#[trigger] entries[i].0)
    &&& forall|i: int| 0 <= i < entries.len() ==> m[entries[i].0] == #[trigger] entries[i].1
    &&& forall|i: int, j: int|
        0 <= i < j < entries.len() ==> (#[trigger] entries[i]).0 != (#[trigger] entries[j]).0
    &&& forall|k: K| #[trigger]
        m.contains_key(k) ==> exists|i: int| 0 <= i < entries.len() && (#[trigger] entries[i]).0 == k
}

/// Whether `keys` lists each key of `m` once, in some order.
pub open spec fn lists_keys<K, V>(keys: Seq<K>, m: Map<K, V>) -> bool {
    &&& keys.no_duplicates()
    &&& forall|k: K| #[trigger] m.contains_key(k) <==> keys.contains(k)
}

/// A map without slots, from the `Default` impl of `B256HashMap`.
#[verifier::external_body]
pub(crate) fn slots_default() -> (r: B256HashMap<alloy_primitives::B256>)
    ensures
        slots_of(r) == no_slots(),
{
    B256HashMap::default()
}

/// Writes one slot with `B256HashMap::insert`, over the value that it held before.
#[verifier::external_body]
pub(crate) fn slots_insert(m: &mut B256HashMap<alloy_primitives::B256>, key: Word, value: Word)
    ensures
        slots_of(*final(m)) == slots_of(*old(m)).insert(key, value),
{
    m.insert(alloy_primitives::B256::from(key), alloy_primitives::B256::from(value));
}

/// Reads one slot with `B256HashMap::get`.
#[verifier::external_body]
pub(crate) fn slots_get(m: &B256HashMap<alloy_primitives::B256>, key: Word) -> (r: Option<Word>)
    ensures
        r == slots_of(*m).get(key),
{
    m.get(&alloy_primitives::B256::from(key)).map(|value| value.0)
}

/// Adds every slot of `more` with `B256HashMap::extend`: a slot of both takes its value from
/// `more`.
#[verifier::external_body]
pub(crate) fn slots_extend(
    m: &mut B256HashMap<alloy_primitives::B256>,
    more: B256HashMap<alloy_primitives::B256>,
)
    ensures
        slots_of(*final(m)) == slots_of(*old(m)).union_prefer_right(slots_of(more)),
{
    m.extend(more);
}

/// A second map with the same slots, from `B256HashMap::clone`.
#[verifier::external_body]
pub(crate) fn slots_clone(m: &B256HashMap<alloy_primitives::B256>) -> (r: B256HashMap<
    alloy_primitives::B256,
>)
    ensures
        slots_of(r) == slots_of(*m),
{
    m.clone()
}

/// The slots of a map with their values, from `B256HashMap::iter`, in no stated order.
#[verifier::external_body]
pub(crate) fn slots_entries(m: &B256HashMap<alloy_primitives::B256>) -> (r: Vec<(Word, Word)>)
    ensures
        lists_entries(r@, slots_of(*m)),
{
    m.iter().map(|(key, value)| (key.0, value.0)).collect()
}

/// A map without accounts, from the `Default` impl of `AddressHashMap`.
#[verifier::external_body]
pub(crate) fn accounts_default() -> (r: AddressHashMap<AccountOverride>)
    ensures
        accounts_of(r) == no_accounts(),
{
    AddressHashMap::default()
}

/// Puts one account with `AddressHashMap::insert`, in place of the one it held before.
#[verifier::external_body]
pub(crate) fn accounts_insert(
    m: &mut AddressHashMap<AccountOverride>,
    address: AccountAddress,
    account: AccountOverride,
)
    ensures
        accounts_of(*final(m)) == accounts_of(*old(m)).insert(address, account),
{
    m.insert(alloy_primitives::Address::from(address), account);
}

/// Looks one account up with `AddressHashMap::get`.
#[verifier::external_body]
pub(crate) fn accounts_get(
    m: &AddressHashMap<AccountOverride>,
    address: AccountAddress,
) -> (r: Option<&AccountOverride>)
    ensures
        match r {
            Some(account) => accounts_of(*m).contains_key(address) && accounts_of(*m)[address]
                == *account,
            None => !accounts_of(*m).contains_key(address),
        },
{
    m.get(&alloy_primitives::Address::from(address))
}

/// The account at an address, to be changed in place, from `entry` and `or_insert` of
/// `AddressHashMap`: the one that the map holds, or `absent`, which is then put there.
#[verifier::external_body]
pub(crate) fn accounts_entry_or_insert(
    m: &mut AddressHashMap<AccountOverride>,
    address: AccountAddress,
    absent: AccountOverride,
) -> (r: &mut AccountOverride)
    ensures
        *r == (if accounts_of(*old(m)).contains_key(address) {
            accounts_of(*old(m))[address]
        } else {
            absent
        }),
        accounts_of(*final(m)) == accounts_of(*old(m)).insert(address, *final(r)),
{
    m.entry(alloy_primitives::Address::from(address)).or_insert(absent)
}

/// The addresses that a map has an account for, from `AddressHashMap::keys`, in no stated order.
#[verifier::external_body]
pub(crate) fn accounts_keys(m: &AddressHashMap<AccountOverride>) -> (r: Vec<AccountAddress>)
    ensures
        lists_keys(r@, accounts_of(*m)),
{
    m.keys().map(|address| address.into_array()).collect()
}

/// The accounts of a map with their addresses, from `AddressHashMap::into_iter`, in no stated
/// order.
#[verifier::external_body]
pub(crate) fn accounts_into_entries(m: AddressHashMap<AccountOverride>) -> (r: Vec<
    (AccountAddress, AccountOverride),
>)
    ensures
        lists_entries(r@, accounts_of(m)),
{
    m.into_iter().map(|(address, account)| (address.into_array(), account)).collect()
}

/// Storage slots with the value that each is to have.
#[derive(Debug, PartialEq, Eq)]
pub struct Storage {
    slots: B256HashMap<alloy_primitives::B256>,
}

impl View for Storage {
    type V = Map<Word, Word>;

    /// The value of each slot.
    closed spec fn view(&self) -> Map<Word, Word> {
        slots_of(self.slots)
    }
}

impl Storage {
    /// No slots.
    pub fn new() -> (r: Storage)
        ensures
            r@ == Map::<Word, Word>::empty(),
    {
        Storage { slots: slots_default() }
    }

    /// Gives a slot its value.
    pub fn insert(&mut self, key: Word, value: Word)
        ensures
            final(self)@ == old(self)@.insert(key, value),
    {
        slots_insert(&mut self.slots, key, value);
    }

    /// The value of a slot, where it has one.
    pub fn get(&self, key: Word) -> (r: Option<Word>)
        ensures
            r == self@.get(key),
    {
        slots_get(&self.slots, key)
    }

    /// Adds every slot of `more`, whose value counts where both have one.
    pub fn extend(&mut self, more: Storage)
        ensures
            final(self)@ == old(self)@.union_prefer_right(more@),
    {
        slots_extend(&mut self.slots, more.slots);
    }

    /// Every slot with its value, in no stated order.
    pub fn entries(&self) -> (r: Vec<(Word, Word)>)
        ensures
            lists_entries(r@, self@),
    {
        slots_entries(&self.slots)
    }
}

impl Clone for Storage {
    /// The same slots with the same values.
    fn clone(&self) -> (r: Storage)
        ensures
            r@ == self@,
    {
        Storage { slots: slots_clone(&self.slots) }
    }
}

/// Storage is read slot by slot as it was written: a slot that was given a value has it, and every
/// other slot is as it was.
pub proof fn law_a_written_slot_is_read_back(
    storage: &mut Storage,
    key: Word,
    value: Word,
    slot: Word,
    before: Option<Word>,
    after: Option<Word>,
    empty: Storage,
)
    requires
        call_ensures(Storage::get, (old(storage), slot), before),
        call_ensures(Storage::insert, (storage, key, value), ()),
        call_ensures(Storage::get, (final(storage), slot), after),
        call_ensures(Storage::new, (), empty),
    ensures
        after == (if slot == key {
            Some(value)
        } else {
            before
        }),
        !empty@.contains_key(slot),
{
}

/// Adding slots to storage gives each of them the added value, zero included, and leaves every other
/// slot as it was.
pub proof fn law_added_slots_count_over_earlier_ones(
    storage: &mut Storage,
    more: Storage,
    slot: Word,
    before: Option<Word>,
    added: Option<Word>,
    after: Option<Word>,
)
    requires
        call_ensures(Storage::get, (old(storage), slot), before),
        call_ensures(Storage::get, (&more, slot), added),
        call_ensures(Storage::extend, (storage, more), ()),
        call_ensures(Storage::get, (final(storage), slot), after),
    ensures
        after == (if added is Some {
            added
        } else {
            before
        }),
{
}

/// Storage lists each of its slots once, with the value that is read from it, and copies whole.
pub proof fn law_every_slot_is_listed_once(
    storage: Storage,
    slot: Word,
    read: Option<Word>,
    entries: Vec<(Word, Word)>,
    copy: Storage,
)
    requires
        call_ensures(Storage::get, (&storage, slot), read),
        call_ensures(Storage::entries, (&storage,), entries),
        call_ensures(<Storage as Clone>::clone, (&storage,), copy),
    ensures
        read is Some <==> exists|i: int| 0 <= i < entries@.len() && (#[trigger] entries@[i]).0 == slot,
        forall|i: int|
            0 <= i < entries@.len() && (#[trigger] entries@[i]).0 == slot ==> read == Some(
                entries@[i].1,
            ),
        forall|i: int, j: int|
            0 <= i < j < entries@.len() ==> (#[trigger] entries@[i]).0 != (#[trigger] entries@[j]).0,
        forall|k: Word| #[trigger] copy@.contains_key(k) <==> storage@.contains_key(k),
        forall|k: Word| #[trigger] copy@.contains_key(k) ==> copy@[k] == storage@[k],
{
}

} // verus!

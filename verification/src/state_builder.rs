//! Accumulating the account changes of executed transactions into the pending state overrides.
//!
//! The overrides travel with the pending database and advance together with it: applied to the
//! canonical state, they give what the pending database holds.
use crate::collections::Storage;
use crate::merge::{account_at, slot_under_override, storage_is_unambiguous};
use crate::overrides::{
    copy_bytes, unchanged_account, AccountOverride, AccountOverrideView, StateOverride,
};
use crate::primitives::{same_word, u256_of, AccountAddress, Word, U256, ZERO_WORD};
use vstd::prelude::*;

verus! {

/// The hash of empty code.
pub const KECCAK256_EMPTY: Word = [
    0xc5, 0xd2, 0x46, 0x01, 0x86, 0xf7, 0x23, 0x3c, 0x92, 0x7e, 0x7d, 0xb2, 0xdc, 0xc7, 0x03, 0xc0,
    0xe5, 0x00, 0xb6, 0x53, 0xca, 0x82, 0x27, 0x3b, 0x7b, 0xfa, 0xd8, 0x04, 0x5d, 0x85, 0xa4, 0x70,
];

/// The Keccak-256 hash of some bytes.
pub uninterp spec fn keccak256_of(bytes: Seq<u8>) -> [u8; 32];

/// The hash that stands for code: that of its bytes, and the known one for empty code.
pub open spec fn code_hash_of(code: Seq<u8>) -> Word {
    if code.len() == 0 {
        KECCAK256_EMPTY
    } else {
        keccak256_of(code)
    }
}

/// The Keccak-256 hash of some bytes, from `alloy_primitives::keccak256`. The contract names it: it
/// depends on the bytes alone. Of no bytes it is the hash that `alloy_primitives` documents as that
/// of the empty string.
#[verifier::external_body]
fn keccak256(bytes: &Vec<u8>) -> (r: Word)
    ensures
        r == keccak256_of(bytes@),
        bytes@.len() == 0 ==> r == KECCAK256_EMPTY,
{
    alloy_primitives::keccak256(bytes).0
}

/// What executing a transaction left of one account, with what the database had of it before.
#[derive(Debug)]
pub struct AccountChange {
    pub address: AccountAddress,
    /// Whether execution touched the account. One that it only loaded is not committed.
    pub touched: bool,
    /// Whether the account was created, so that its storage starts empty.
    pub created: bool,
    /// Whether the account was destroyed.
    pub selfdestructed: bool,
    pub balance: U256,
    pub nonce: u64,
    /// The hash of the account's code after execution.
    pub code_hash: Word,
    /// The account's original code, where execution loaded it.
    pub code: Option<Vec<u8>>,
    /// The slots that execution lists, with the value that each has after it.
    pub storage: Vec<(Word, Word)>,
    /// The hash of the code that the database had for the account before the commit, if it had the
    /// account at all.
    pub committed_code_hash: Option<Word>,
    /// The code that the database has under `code_hash`, where it was looked up and found.
    pub stored_code: Option<Vec<u8>>,
    /// Whether the code is overridden even where its hash did not change, as for a change that the
    /// pending database has already committed.
    pub explicit_code: bool,
}

/// A change of code whose bytes cannot be had.
#[derive(Clone, Copy, Debug, PartialEq, Eq)]
pub struct CodeHashMismatch {
    pub address: AccountAddress,
    pub code_hash: Word,
}

impl CodeHashMismatch {
    /// The message to report.
    pub fn message(&self) -> (r: &'static str)
        ensures
            r@ == "code hash mismatch"@,
    {
        "code hash mismatch"
    }
}

/// The code hash that the database had for an account before the commit; that of empty code where
/// it did not have the account.
pub open spec fn previous_code_hash(change: AccountChange) -> Word {
    match change.committed_code_hash {
        Some(hash) => hash,
        None => KECCAK256_EMPTY,
    }
}

/// Whether the commit changes the account's code.
pub open spec fn changes_code(change: AccountChange) -> bool {
    change.code_hash != previous_code_hash(change)
}

/// Whether a change overrides the account's code: its hash changed, or the change asks for it.
pub open spec fn sets_code(change: AccountChange) -> bool {
    change.explicit_code || changes_code(change)
}

/// The code of an account after a change: what execution loaded, else empty code where the
/// hash is that of empty code, else what the database stores, if its hash is the one looked for.
pub open spec fn changed_code(change: AccountChange) -> Option<Seq<u8>> {
    match (change.code, change.stored_code) {
        (Some(code), _) => Some(code@),
        (None, stored) => if change.code_hash == KECCAK256_EMPTY {
            Some(Seq::empty())
        } else if stored is Some && code_hash_of(stored->0@) == change.code_hash {
            Some(stored->0@)
        } else {
            None
        },
    }
}

/// Whether the code that a change needs can be had.
pub open spec fn is_resolved(change: AccountChange) -> bool {
    !change.touched || change.selfdestructed || !sets_code(change) || changed_code(change) is Some
}

/// The slots of a list; the later entry counts where a slot is listed twice.
pub open spec fn slots_listed(storage: Seq<(Word, Word)>) -> Map<Word, Word>
    decreases storage.len(),
{
    if storage.len() == 0 {
        Map::empty()
    } else {
        slots_listed(storage.drop_last()).insert(storage.last().0, storage.last().1)
    }
}

/// An account's override after a change.
///
/// Balance and nonce are those after execution. Code is overridden only where its hash changed or
/// the change asks for it, and an earlier override stays otherwise. A created account's slots are its whole storage; slots that
/// change later extend a whole-storage override where there is one, and are listed one by one
/// otherwise. A destroyed account is empty.
pub open spec fn changed_account(
    account: AccountOverrideView,
    change: AccountChange,
) -> AccountOverrideView {
    if !change.touched {
        account
    } else if change.selfdestructed {
        AccountOverrideView {
            balance: Some(u256_of(0)),
            nonce: Some(0),
            code: Some(Seq::empty()),
            state: Some(Map::empty()),
            state_diff: None,
            move_precompile_to: account.move_precompile_to,
        }
    } else {
        let slots = slots_listed(change.storage@);
        AccountOverrideView {
            balance: Some(change.balance),
            nonce: Some(change.nonce),
            code: if sets_code(change) {
                changed_code(change)
            } else {
                account.code
            },
            state: if change.created {
                Some(slots)
            } else {
                match account.state {
                    Some(storage) => Some(storage.union_prefer_right(slots)),
                    None => None,
                }
            },
            state_diff: if change.created {
                None
            } else if account.state is Some || change.storage@.len() == 0 {
                account.state_diff
            } else {
                match account.state_diff {
                    Some(diff) => Some(diff.union_prefer_right(slots)),
                    None => Some(slots),
                }
            },
            move_precompile_to: account.move_precompile_to,
        }
    }
}

/// The overrides after a list of changes.
pub open spec fn accumulated(
    overrides: Map<AccountAddress, AccountOverrideView>,
    changes: Seq<AccountChange>,
) -> Map<AccountAddress, AccountOverrideView>
    decreases changes.len(),
{
    if changes.len() == 0 {
        overrides
    } else {
        let before = accumulated(overrides, changes.drop_last());
        let change = changes.last();
        if change.touched {
            before.insert(
                change.address,
                changed_account(account_at(before, change.address), change),
            )
        } else {
            before
        }
    }
}

/// Whether the caller has to look the account's code up in the database before the change can be
/// accumulated: it is overridden, execution did not load it and it is not empty.
pub fn needs_stored_code(change: &AccountChange) -> (r: bool)
    ensures
        r == (change.touched && !change.selfdestructed && sets_code(*change) && change.code is None
            && change.code_hash != KECCAK256_EMPTY),
{
    let previous = match change.committed_code_hash {
        Some(hash) => hash,
        None => KECCAK256_EMPTY,
    };
    change.touched && !change.selfdestructed && (change.explicit_code || !same_word(
        &change.code_hash,
        &previous,
    )) && change.code.is_none() && !same_word(&change.code_hash, &KECCAK256_EMPTY)
}

/// The code that a change puts in place, where it overrides the code.
pub open spec fn code_put_in_place(change: AccountChange) -> Option<Seq<u8>> {
    if change.touched && !change.selfdestructed && sets_code(change) {
        changed_code(change)
    } else {
        None
    }
}

/// What optional bytes hold.
pub open spec fn bytes_view(bytes: Option<Vec<u8>>) -> Option<Seq<u8>> {
    match bytes {
        Some(bytes) => Some(bytes@),
        None => None,
    }
}

/// Finds the code that a change puts in place. Code that execution did not load has to be what its
/// hash says, or the change is not taken.
fn resolve_code(change: &AccountChange) -> (r: Result<Option<Vec<u8>>, CodeHashMismatch>)
    ensures
        match r {
            Ok(code) => is_resolved(*change) && bytes_view(code) == code_put_in_place(*change),
            Err(error) => !is_resolved(*change) && error.address == change.address
                && error.code_hash == change.code_hash,
        },
{
    if !change.touched || change.selfdestructed {
        return Ok(None);
    }
    let previous = match change.committed_code_hash {
        Some(hash) => hash,
        None => KECCAK256_EMPTY,
    };
    if !change.explicit_code && same_word(&change.code_hash, &previous) {
        return Ok(None);
    }
    if let Some(code) = &change.code {
        return Ok(Some(copy_bytes(code)));
    }
    if same_word(&change.code_hash, &KECCAK256_EMPTY) {
        let empty: Vec<u8> = Vec::new();
        return Ok(Some(empty));
    }
    if let Some(stored) = &change.stored_code {
        let found = keccak256(stored);
        if same_word(&found, &change.code_hash) {
            return Ok(Some(copy_bytes(stored)));
        }
    }
    Err(CodeHashMismatch { address: change.address, code_hash: change.code_hash })
}

/// The listed slots as a storage map.
fn storage_of(slots: &Vec<(Word, Word)>) -> (r: Storage)
    ensures
        r@ == slots_listed(slots@),
{
    let mut r = Storage::new();
    let mut i: usize = 0;
    while i < slots.len()
        invariant
            i <= slots.len(),
            r@ == slots_listed(slots@.take(i as int)),
        decreases slots.len() - i,
    {
        r.insert(slots[i].0, slots[i].1);
        assert(slots@.take(i + 1).drop_last() =~= slots@.take(i as int));
        i = i + 1;
    }
    assert(slots@.take(i as int) =~= slots@);
    r
}

/// Takes a change up into an account's override.
fn change_account(account: &mut AccountOverride, change: &AccountChange, code: Option<Vec<u8>>)
    requires
        change.touched,
        is_resolved(*change),
        bytes_view(code) == code_put_in_place(*change),
    ensures
        final(account)@ == changed_account(old(account)@, *change),
{
    if change.selfdestructed {
        account.balance = Some(U256::from_u64(0));
        account.nonce = Some(0);
        let empty: Vec<u8> = Vec::new();
        assert(empty@ =~= Seq::<u8>::empty());
        account.code = Some(empty);
        account.state = Some(Storage::new());
        account.state_diff = None;
        return;
    }
    account.balance = Some(change.balance);
    account.nonce = Some(change.nonce);
    if code.is_some() {
        account.code = code;
    }
    let slots = storage_of(&change.storage);
    if change.created {
        account.state = Some(slots);
        account.state_diff = None;
    } else {
        match account.state.take() {
            Some(mut storage) => {
                storage.extend(slots);
                account.state = Some(storage);
            },
            None => {
                if change.storage.len() > 0 {
                    let mut diff = match account.state_diff.take() {
                        Some(diff) => diff,
                        None => Storage::new(),
                    };
                    let ghost before = diff@;
                    diff.extend(slots);
                    assert(before == Map::<Word, Word>::empty() ==> diff@ =~= slots@);
                    account.state_diff = Some(diff);
                }
            },
        }
    }
}

/// Takes the account changes of a transaction up into the pending overrides, before the changes are
/// committed to the pending database. Where the code of a changed account cannot be had, nothing is
/// taken up, and the first such account is reported.
pub fn accumulate_pending_state_overrides(
    overrides: &mut StateOverride,
    changes: &Vec<AccountChange>,
) -> (r: Result<(), CodeHashMismatch>)
    ensures
        match r {
            Ok(()) => (forall|i: int| 0 <= i < changes@.len() ==> is_resolved(#[trigger] changes@[i]))
                && final(overrides)@ == accumulated(old(overrides)@, changes@),
            Err(error) => final(overrides)@ == old(overrides)@ && exists|i: int|
                #![trigger changes@[i]]
                0 <= i < changes@.len() && !is_resolved(changes@[i]) && error.address
                    == changes@[i].address && error.code_hash == changes@[i].code_hash && (forall|
                    j: int,
                | 0 <= j < i ==> is_resolved(#[trigger] changes@[j])),
        },
{
    let mut codes: Vec<Option<Vec<u8>>> = Vec::new();
    let mut i: usize = 0;
    while i < changes.len()
        invariant
            i <= changes.len(),
            codes@.len() == i,
            forall|j: int| 0 <= j < i ==> is_resolved(#[trigger] changes@[j]),
            forall|j: int|
                0 <= j < i ==> bytes_view(#[trigger] codes@[j]) == code_put_in_place(changes@[j]),
            overrides@ == old(overrides)@,
        decreases changes.len() - i,
    {
        match resolve_code(&changes[i]) {
            Ok(code) => {
                codes.push(code);
            },
            Err(error) => {
                assert(!is_resolved(changes@[i as int]));
                return Err(error);
            },
        }
        i = i + 1;
    }
    let ghost base = overrides@;
    let ghost found = codes@;
    let mut n: usize = 0;
    for code in it: codes
        invariant
            it.seq() == found,
            n == it.index(),
            n <= changes.len(),
            found.len() == changes@.len(),
            forall|j: int| 0 <= j < changes@.len() ==> is_resolved(#[trigger] changes@[j]),
            forall|j: int|
                0 <= j < changes@.len() ==> bytes_view(#[trigger] found[j]) == code_put_in_place(
                    changes@[j],
                ),
            overrides@ == accumulated(base, changes@.take(n as int)),
    {
        let change = &changes[n];
        assert(code == found[n as int]);
        proof {
            assert(changes@.take(n + 1).drop_last() =~= changes@.take(n as int));
        }
        if change.touched {
            let account = overrides.entry_or_default(change.address);
            change_account(account, change, code);
        }
        n = n + 1;
    }
    assert(changes@.take(n as int) =~= changes@);
    Ok(())
}

/// A change that the pending database has already committed: its code, empty code included, is
/// overridden whatever the database holds. The canonical state that requests start from may come
/// before the code was installed.
pub open spec fn with_explicit_code(change: AccountChange) -> AccountChange {
    AccountChange { explicit_code: true, ..change }
}

/// The changes of all commits, one commit after the other, each with its code explicit.
pub open spec fn system_changes(commits: Seq<Vec<AccountChange>>) -> Seq<AccountChange>
    decreases commits.len(),
{
    if commits.len() == 0 {
        Seq::empty()
    } else {
        system_changes(commits.drop_last()) + commits.last()@.map_values(
            |change: AccountChange| with_explicit_code(change),
        )
    }
}

/// Why the system changes of a block are not taken up.
#[derive(Debug)]
pub enum SystemChangesError<E> {
    /// The block was rejected.
    Rejected(E),
    /// Code of a changed account cannot be had.
    Code(CodeHashMismatch),
}

/// Takes up what the system calls at the start of a block committed, in the order of the commits.
/// A rejected block leaves the overrides as they were.
pub fn apply_pre_execution_changes<E>(
    overrides: &mut StateOverride,
    commits: Vec<Vec<AccountChange>>,
    outcome: Result<(), E>,
) -> (r: Result<(), SystemChangesError<E>>)
    ensures
        match r {
            Ok(()) => outcome is Ok && (forall|i: int|
                0 <= i < system_changes(commits@).len() ==> is_resolved(
                    #[trigger] system_changes(commits@)[i],
                )) && final(overrides)@ == accumulated(old(overrides)@, system_changes(commits@)),
            Err(SystemChangesError::Rejected(error)) => outcome == Err::<(), E>(error)
                && final(overrides)@ == old(overrides)@,
            Err(SystemChangesError::Code(error)) => outcome is Ok
                && final(overrides)@ == old(overrides)@ && exists|i: int|
                #![trigger system_changes(commits@)[i]]
                0 <= i < system_changes(commits@).len() && !is_resolved(system_changes(commits@)[i])
                    && error.address == system_changes(commits@)[i].address && error.code_hash
                    == system_changes(commits@)[i].code_hash && (forall|j: int|
                    0 <= j < i ==> is_resolved(#[trigger] system_changes(commits@)[j])),
        },
{
    if let Err(error) = outcome {
        return Err(SystemChangesError::Rejected(error));
    }
    let mut changes: Vec<AccountChange> = Vec::new();
    for commit in it: commits
        invariant
            it.seq() == commits@,
            changes@ == system_changes(commits@.take(it.index() as int)),
    {
        let ghost n = it.index() as int;
        let ghost before = changes@;
        let ghost listed = commit@;
        let ghost explicit = |change: AccountChange| with_explicit_code(change);
        for change in inner: commit
            invariant
                inner.seq() == listed,
                explicit == (|change: AccountChange| with_explicit_code(change)),
                changes@ == before + listed.take(inner.index() as int).map_values(explicit),
        {
            let ghost m = inner.index() as int;
            let mut change = change;
            change.explicit_code = true;
            changes.push(change);
            assert(changes@ =~= before + listed.take(m + 1).map_values(explicit));
        }
        assert(listed.take(listed.len() as int) =~= listed);
        assert(commits@.take(n + 1).drop_last() =~= commits@.take(n));
    }
    assert(commits@.take(commits@.len() as int) =~= commits@);
    match accumulate_pending_state_overrides(overrides, &changes) {
        Ok(()) => Ok(()),
        Err(error) => Err(SystemChangesError::Code(error)),
    }
}

/// What a database holds of an account.
pub struct AccountState {
    pub balance: U256,
    pub nonce: u64,
    pub code: Seq<u8>,
    pub code_hash: Word,
    pub storage: spec_fn(Word) -> Word,
}

/// What a request reads of an account when an override is applied to the canonical state.
pub open spec fn overridden(canonical: AccountState, account: AccountOverrideView) -> AccountState {
    AccountState {
        balance: match account.balance {
            Some(balance) => balance,
            None => canonical.balance,
        },
        nonce: match account.nonce {
            Some(nonce) => nonce,
            None => canonical.nonce,
        },
        code: match account.code {
            Some(code) => code,
            None => canonical.code,
        },
        code_hash: match account.code {
            Some(code) => code_hash_of(code),
            None => canonical.code_hash,
        },
        storage: |slot: Word| slot_under_override(account, canonical.storage, slot),
    }
}

/// What a database holds of an account once a change is committed to it. The account's code hash is
/// the one reported; where that is the hash it had, its code is the code it had.
pub open spec fn committed(before: AccountState, change: AccountChange) -> AccountState {
    let slots = slots_listed(change.storage@);
    if !change.touched {
        before
    } else if change.selfdestructed {
        AccountState {
            balance: u256_of(0),
            nonce: 0,
            code: Seq::empty(),
            code_hash: KECCAK256_EMPTY,
            storage: |slot: Word| ZERO_WORD,
        }
    } else {
        AccountState {
            balance: change.balance,
            nonce: change.nonce,
            code: if change.code_hash == before.code_hash {
                before.code
            } else {
                changed_code(change)->0
            },
            code_hash: change.code_hash,
            storage: |slot: Word|
                if slots.contains_key(slot) {
                    slots[slot]
                } else if change.created {
                    ZERO_WORD
                } else {
                    (before.storage)(slot)
                },
        }
    }
}

/// Whether two databases hold the same of an account.
pub open spec fn same_account(a: AccountState, b: AccountState) -> bool {
    &&& a.balance == b.balance
    &&& a.nonce == b.nonce
    &&& a.code == b.code
    &&& a.code_hash == b.code_hash
    &&& forall|slot: Word| #[trigger] (a.storage)(slot) == (b.storage)(slot)
}

/// Whether a change is reported as it is for an account that a database holds as `before`. The hash
/// compared with is the account's; a change whose code is explicit compares with none. Loaded code
/// has the hash that is reported with it. A database has one code under a hash.
pub open spec fn reports(change: AccountChange, before: AccountState) -> bool {
    change.touched && !change.selfdestructed ==> {
        &&& !change.explicit_code ==> previous_code_hash(change) == before.code_hash
        &&& change.code is Some ==> code_hash_of(change.code->0@) == change.code_hash
        &&& change.explicit_code && change.code_hash == before.code_hash ==> changed_code(change)
            == Some(before.code)
    }
}

/// What a database holds of every account once a list of changes is committed to it.
pub open spec fn committed_all(
    database: spec_fn(AccountAddress) -> AccountState,
    changes: Seq<AccountChange>,
) -> spec_fn(AccountAddress) -> AccountState
    decreases changes.len(),
{
    if changes.len() == 0 {
        database
    } else {
        let before = committed_all(database, changes.drop_last());
        let change = changes.last();
        |a: AccountAddress|
            if a == change.address {
                committed(before(a), change)
            } else {
                before(a)
            }
    }
}

/// Whether each change of a list is reported as it is for its account, with the changes before it
/// committed.
pub open spec fn all_report(
    changes: Seq<AccountChange>,
    database: spec_fn(AccountAddress) -> AccountState,
) -> bool
    decreases changes.len(),
{
    changes.len() > 0 ==> all_report(changes.drop_last(), database) && reports(
        changes.last(),
        committed_all(database, changes.drop_last())(changes.last().address),
    )
}

proof fn lemma_account_advances(
    canonical: AccountState,
    pending: AccountState,
    account: AccountOverrideView,
    change: AccountChange,
)
    requires
        is_resolved(change),
        reports(change, pending),
        same_account(overridden(canonical, account), pending),
    ensures
        same_account(
            overridden(canonical, changed_account(account, change)),
            committed(pending, change),
        ),
{
    let after = overridden(canonical, changed_account(account, change));
    let expected = committed(pending, change);
    assert forall|slot: Word| #[trigger] (after.storage)(slot) == (expected.storage)(slot) by {
        assert((overridden(canonical, account).storage)(slot) == (pending.storage)(slot));
        if change.storage@.len() == 0 {
            assert(!slots_listed(change.storage@).contains_key(slot));
        }
    }
}

/// The overrides and the pending database advance together. If a request on the canonical database
/// reads of every account what the pending database holds of it, it still does once a list of
/// changes is both accumulated and committed: balance, nonce, every storage slot, the code and its
/// hash.
pub proof fn law_overrides_advance_with_the_database(
    canonical: spec_fn(AccountAddress) -> AccountState,
    pending: spec_fn(AccountAddress) -> AccountState,
    overrides: Map<AccountAddress, AccountOverrideView>,
    changes: Seq<AccountChange>,
)
    requires
        forall|i: int| 0 <= i < changes.len() ==> is_resolved(#[trigger] changes[i]),
        all_report(changes, pending),
        forall|a: AccountAddress|
            same_account(
                overridden(#[trigger] canonical(a), account_at(overrides, a)),
                pending(a),
            ),
    ensures
        forall|a: AccountAddress|
            same_account(
                overridden(
                    #[trigger] canonical(a),
                    account_at(accumulated(overrides, changes), a),
                ),
                committed_all(pending, changes)(a),
            ),
    decreases changes.len(),
{
    if changes.len() > 0 {
        let earlier = changes.drop_last();
        let change = changes.last();
        law_overrides_advance_with_the_database(canonical, pending, overrides, earlier);
        let before = accumulated(overrides, earlier);
        let after = accumulated(overrides, changes);
        assert forall|a: AccountAddress|
            same_account(
                overridden(#[trigger] canonical(a), account_at(after, a)),
                committed_all(pending, changes)(a),
            ) by {
            if a == change.address {
                lemma_account_advances(
                    canonical(a),
                    committed_all(pending, earlier)(a),
                    account_at(before, a),
                    change,
                );
            }
        }
    }
}

/// Overrides keep the identity of code. Where the canonical database identifies the code of every
/// account by its hash, the code that a request reads, once a list of changes is accumulated, has the
/// hash that the pending database has for the account once they are committed: that which
/// `EXTCODEHASH` gives.
pub proof fn law_code_read_has_the_hash_of_the_database(
    canonical: spec_fn(AccountAddress) -> AccountState,
    pending: spec_fn(AccountAddress) -> AccountState,
    overrides: Map<AccountAddress, AccountOverrideView>,
    changes: Seq<AccountChange>,
    address: AccountAddress,
)
    requires
        forall|i: int| 0 <= i < changes.len() ==> is_resolved(#[trigger] changes[i]),
        all_report(changes, pending),
        forall|a: AccountAddress|
            same_account(
                overridden(#[trigger] canonical(a), account_at(overrides, a)),
                pending(a),
            ),
        canonical(address).code_hash == code_hash_of(canonical(address).code),
    ensures
        ({
            let read = overridden(
                canonical(address),
                account_at(accumulated(overrides, changes), address),
            );
            let held = committed_all(pending, changes)(address);
            &&& read.code == held.code
            &&& code_hash_of(read.code) == held.code_hash
            &&& read.code.len() > 0 ==> keccak256_of(read.code) == held.code_hash
        }),
{
    law_overrides_advance_with_the_database(canonical, pending, overrides, changes);
    assert(same_account(
        overridden(canonical(address), account_at(accumulated(overrides, changes), address)),
        committed_all(pending, changes)(address),
    ));
}

/// Without overrides a request reads what the canonical database holds.
pub proof fn law_no_override_reads_the_canonical_account(canonical: AccountState)
    ensures
        same_account(overridden(canonical, unchanged_account()), canonical),
{
}

/// The code of an account that a system call changed is explicit, whatever the databases and earlier
/// overrides hold of it; empty code is explicitly empty.
pub proof fn law_system_code_is_explicit(account: AccountOverrideView, change: AccountChange)
    requires
        change.touched,
        !change.selfdestructed,
        is_resolved(with_explicit_code(change)),
    ensures
        changed_code(change) is Some,
        changed_account(account, with_explicit_code(change)).code == changed_code(change),
        change.code is None && change.code_hash == KECCAK256_EMPTY ==> changed_account(
            account,
            with_explicit_code(change),
        ).code == Some(Seq::<u8>::empty()),
{
}

/// An account that no change touches keeps its override, or stays without one.
pub proof fn law_untouched_accounts_keep_their_override(
    overrides: Map<AccountAddress, AccountOverrideView>,
    changes: Seq<AccountChange>,
    address: AccountAddress,
)
    requires
        forall|i: int|
            0 <= i < changes.len() && (#[trigger] changes[i]).touched ==> changes[i].address
                != address,
    ensures
        accumulated(overrides, changes).contains_key(address) == overrides.contains_key(address),
        overrides.contains_key(address) ==> accumulated(overrides, changes)[address]
            == overrides[address],
    decreases changes.len(),
{
    if changes.len() > 0 {
        law_untouched_accounts_keep_their_override(overrides, changes.drop_last(), address);
    }
}

/// A change that leaves the code hash as it was, and does not ask for its code to be explicit,
/// leaves the code override as it was: code that an
/// earlier pending transaction put in place stays, and none is added for code that the canonical
/// state has.
pub proof fn law_unchanged_code_keeps_the_code_override(
    account: AccountOverrideView,
    change: AccountChange,
)
    requires
        !change.selfdestructed,
        !change.explicit_code,
        !changes_code(change),
    ensures
        changed_account(account, change).code == account.code,
{
}

/// A whole-storage override and listed slots are never mixed: whatever is accumulated, each account
/// has at most one of them, as it had before.
pub proof fn law_accumulated_storage_is_unambiguous(
    overrides: Map<AccountAddress, AccountOverrideView>,
    changes: Seq<AccountChange>,
)
    requires
        forall|a: AccountAddress| #[trigger]
            overrides.contains_key(a) ==> storage_is_unambiguous(overrides[a]),
    ensures
        forall|a: AccountAddress| #[trigger]
            accumulated(overrides, changes).contains_key(a) ==> storage_is_unambiguous(
                accumulated(overrides, changes)[a],
            ),
    decreases changes.len(),
{
    if changes.len() > 0 {
        law_accumulated_storage_is_unambiguous(overrides, changes.drop_last());
        let before = accumulated(overrides, changes.drop_last());
        let change = changes.last();
        let account = account_at(before, change.address);
        assert(storage_is_unambiguous(account));
        assert(storage_is_unambiguous(changed_account(account, change)));
    }
}

/// A created or destroyed account stays one whose whole storage is overridden, whatever changes it
/// later: later slots extend that storage.
pub proof fn law_replaced_storage_stays_replaced(
    account: AccountOverrideView,
    change: AccountChange,
)
    requires
        account.state is Some || (change.touched && (change.created || change.selfdestructed)),
    ensures
        changed_account(account, change).state is Some,
        change.touched && (change.created || change.selfdestructed) ==> changed_account(
            account,
            change,
        ).state_diff is None,
        !(change.touched && (change.created || change.selfdestructed)) ==> changed_account(
            account,
            change,
        ).state_diff == account.state_diff,
{
}

/// Code that is overridden has the hash that execution reports, provided that loaded code has it.
pub proof fn law_resolved_code_has_the_reported_hash(change: AccountChange)
    requires
        is_resolved(change),
        change.touched,
        !change.selfdestructed,
        sets_code(change),
        change.code is Some ==> code_hash_of(change.code->0@) == change.code_hash,
    ensures
        changed_code(change) is Some,
        code_hash_of(changed_code(change)->0) == change.code_hash,
{
}

proof fn lemma_listed_slot(storage: Seq<(Word, Word)>, i: int)
    requires
        0 <= i < storage.len(),
        forall|j: int| i < j < storage.len() ==> (#[trigger] storage[j]).0 != storage[i].0,
    ensures
        slots_listed(storage).contains_key(storage[i].0),
        slots_listed(storage)[storage[i].0] == storage[i].1,
    decreases storage.len(),
{
    let rest = storage.drop_last();
    if i < rest.len() {
        assert(storage[storage.len() - 1].0 != storage[i].0);
        assert(rest[i] == storage[i]);
        assert forall|j: int| i < j < rest.len() implies (#[trigger] rest[j]).0 != rest[i].0 by {
            assert(rest[j] == storage[j]);
        }
        lemma_listed_slot(rest, i);
    }
}

proof fn lemma_unlisted_slot(storage: Seq<(Word, Word)>, slot: Word)
    requires
        forall|j: int| 0 <= j < storage.len() ==> (#[trigger] storage[j]).0 != slot,
    ensures
        !slots_listed(storage).contains_key(slot),
    decreases storage.len(),
{
    if storage.len() > 0 {
        let rest = storage.drop_last();
        assert(storage[storage.len() - 1].0 != slot);
        assert forall|j: int| 0 <= j < rest.len() implies (#[trigger] rest[j]).0 != slot by {
            assert(rest[j] == storage[j]);
        }
        lemma_unlisted_slot(rest, slot);
    }
}

/// Every slot that a change lists is taken up with exactly the value listed, zero included, the last
/// one where a slot is listed again; no other slot is.
pub proof fn law_every_listed_slot_is_taken_up(storage: Seq<(Word, Word)>, i: int, slot: Word)
    requires
        0 <= i < storage.len(),
        forall|j: int| i < j < storage.len() ==> (#[trigger] storage[j]).0 != storage[i].0,
    ensures
        slots_listed(storage).contains_key(storage[i].0),
        slots_listed(storage)[storage[i].0] == storage[i].1,
        (forall|j: int| 0 <= j < storage.len() ==> (#[trigger] storage[j]).0 != slot)
            ==> !slots_listed(storage).contains_key(slot),
{
    lemma_listed_slot(storage, i);
    if forall|j: int| 0 <= j < storage.len() ==> (#[trigger] storage[j]).0 != slot {
        lemma_unlisted_slot(storage, slot);
    }
}

proof fn lemma_one_change(
    overrides: Map<AccountAddress, AccountOverrideView>,
    changes: Seq<AccountChange>,
)
    requires
        changes.len() == 1,
    ensures
        changes[0].touched ==> accumulated(overrides, changes) == overrides.insert(
            changes[0].address,
            changed_account(account_at(overrides, changes[0].address), changes[0]),
        ),
        !changes[0].touched ==> accumulated(overrides, changes) == overrides,
{
    assert(changes.drop_last() =~= Seq::<AccountChange>::empty());
    reveal_with_fuel(accumulated, 2);
}

/// What one change makes of the overrides. Balance and nonce are those reported. Other accounts stay,
/// and so does everything where the change did not touch its account. A destroyed account is empty.
pub proof fn law_a_change_is_taken_up_field_by_field(
    overrides: &mut StateOverride,
    changes: &Vec<AccountChange>,
    other: AccountAddress,
)
    requires
        call_ensures(accumulate_pending_state_overrides, (overrides, changes), Ok(())),
        changes@.len() == 1,
        other != changes@[0].address,
    ensures
        ({
            let change = changes@[0];
            let before = old(overrides)@;
            let after = final(overrides)@;
            &&& !change.touched ==> after == before
            &&& after.contains_key(other) <==> before.contains_key(other)
            &&& before.contains_key(other) ==> after[other] == before[other]
            &&& change.touched ==> after.contains_key(change.address)
            &&& change.touched && change.selfdestructed ==> {
                let account = after[change.address];
                &&& account.balance is Some && account.balance->0@ == 0
                &&& account.nonce == Some(0u64)
                &&& account.code is Some && account.code->0.len() == 0
                &&& account.state is Some && forall|k: Word| !account.state->0.contains_key(k)
                &&& account.state_diff is None
            }
            &&& change.touched && !change.selfdestructed ==> {
                let account = after[change.address];
                &&& account.balance == Some(change.balance)
                &&& account.nonce == Some(change.nonce)
            }
            &&& change.touched ==> after[change.address].move_precompile_to == (
            if before.contains_key(change.address) {
                before[change.address].move_precompile_to
            } else {
                None
            })
        }),
{
    lemma_one_change(old(overrides)@, changes@);
}

/// What one change makes of an account's code. Code is overridden where its hash is not the one that
/// the database had, or where the change asks for it: by the code that was loaded, by empty code
/// under the hash of empty code, or else by stored code of the reported hash. Otherwise the code
/// override stays.
pub proof fn law_code_is_overridden_where_its_hash_changed(
    overrides: &mut StateOverride,
    changes: &Vec<AccountChange>,
)
    requires
        call_ensures(accumulate_pending_state_overrides, (overrides, changes), Ok(())),
        changes@.len() == 1,
        changes@[0].touched,
        !changes@[0].selfdestructed,
    ensures
        ({
            let change = changes@[0];
            let before = old(overrides)@;
            let code = final(overrides)@[change.address].code;
            let had = if change.committed_code_hash is Some {
                change.committed_code_hash->0
            } else {
                KECCAK256_EMPTY
            };
            let set = change.explicit_code || change.code_hash != had;
            &&& !set ==> code == (if before.contains_key(change.address) {
                before[change.address].code
            } else {
                None
            })
            &&& set && change.code is Some ==> code == Some(change.code->0@)
            &&& set && change.code is None && change.code_hash == KECCAK256_EMPTY ==> code is Some
                && code->0.len() == 0
            &&& set && change.code is None && change.code_hash != KECCAK256_EMPTY ==> code is Some
                && code->0.len() > 0 && keccak256_of(code->0) == change.code_hash
                && change.stored_code is Some && code->0 == change.stored_code->0@
        }),
{
    lemma_one_change(old(overrides)@, changes@);
    assert(is_resolved(changes@[0]));
}

/// What one change makes of an account's storage, slot by slot and tied to the list of the change. A
/// slot reads the value last listed for it, zero included. One that is not listed reads nothing where
/// the account was created, and what it read before otherwise: in the whole storage where that is
/// overridden, else among the slots listed before, else in the database.
pub proof fn law_listed_slots_have_their_listed_values(
    overrides: &mut StateOverride,
    changes: &Vec<AccountChange>,
    i: int,
    slot: Word,
)
    requires
        call_ensures(accumulate_pending_state_overrides, (overrides, changes), Ok(())),
        changes@.len() == 1,
        changes@[0].touched,
        !changes@[0].selfdestructed,
        0 <= i < changes@[0].storage@.len(),
        forall|j: int|
            i < j < changes@[0].storage@.len() ==> (#[trigger] changes@[0].storage@[j]).0
                != changes@[0].storage@[i].0,
        forall|j: int|
            0 <= j < changes@[0].storage@.len() ==> (#[trigger] changes@[0].storage@[j]).0 != slot,
    ensures
        ({
            let change = changes@[0];
            let key = change.storage@[i].0;
            let value = change.storage@[i].1;
            let known = old(overrides)@.contains_key(change.address);
            let before = old(overrides)@[change.address];
            let account = final(overrides)@[change.address];
            &&& change.created ==> {
                &&& account.state_diff is None
                &&& account.state is Some
                &&& account.state->0.contains_key(key) && account.state->0[key] == value
                &&& !account.state->0.contains_key(slot)
            }
            &&& !change.created && known && before.state is Some ==> {
                &&& account.state_diff == before.state_diff
                &&& account.state is Some
                &&& account.state->0.contains_key(key) && account.state->0[key] == value
                &&& account.state->0.contains_key(slot) <==> before.state->0.contains_key(slot)
                &&& before.state->0.contains_key(slot) ==> account.state->0[slot]
                    == before.state->0[slot]
            }
            &&& !change.created && !(known && before.state is Some) ==> {
                let listed = known && before.state_diff is Some
                    && before.state_diff->0.contains_key(slot);
                &&& account.state is None
                &&& account.state_diff is Some
                &&& account.state_diff->0.contains_key(key) && account.state_diff->0[key] == value
                &&& account.state_diff->0.contains_key(slot) <==> listed
                &&& listed ==> account.state_diff->0[slot] == before.state_diff->0[slot]
            }
        }),
{
    lemma_one_change(old(overrides)@, changes@);
    law_every_listed_slot_is_taken_up(changes@[0].storage@, i, slot);
}

/// A change that lists no slot leaves storage as it is, but for a created account, whose storage is
/// overridden as empty.
pub proof fn law_a_change_without_slots_leaves_storage(
    overrides: &mut StateOverride,
    changes: &Vec<AccountChange>,
    slot: Word,
)
    requires
        call_ensures(accumulate_pending_state_overrides, (overrides, changes), Ok(())),
        changes@.len() == 1,
        changes@[0].touched,
        !changes@[0].selfdestructed,
        changes@[0].storage@.len() == 0,
    ensures
        ({
            let change = changes@[0];
            let known = old(overrides)@.contains_key(change.address);
            let before = old(overrides)@[change.address];
            let account = final(overrides)@[change.address];
            &&& change.created ==> account.state_diff is None && account.state is Some
                && !account.state->0.contains_key(slot)
            &&& !change.created ==> account.state == (if known {
                before.state
            } else {
                None
            }) && account.state_diff == (if known {
                before.state_diff
            } else {
                None
            })
        }),
{
    lemma_one_change(old(overrides)@, changes@);
    let change = changes@[0];
    let before = account_at(old(overrides)@, change.address);
    if let Some(storage) = before.state {
        assert(storage.union_prefer_right(slots_listed(change.storage@)) =~= storage);
    }
}

proof fn lemma_accumulated_in_turn(
    overrides: Map<AccountAddress, AccountOverrideView>,
    first: Seq<AccountChange>,
    second: Seq<AccountChange>,
)
    ensures
        accumulated(overrides, first + second) == accumulated(accumulated(overrides, first), second),
    decreases second.len(),
{
    if second.len() == 0 {
        assert(first + second =~= first);
    } else {
        lemma_accumulated_in_turn(overrides, first, second.drop_last());
        assert((first + second).drop_last() =~= first + second.drop_last());
        assert((first + second).last() == second.last());
    }
}

/// Changes are taken up one after the other: those of a list all at once give what its first part
/// and then the rest give, and no change changes nothing.
pub proof fn law_changes_are_taken_up_in_turn(
    at_once: &mut StateOverride,
    before: &mut StateOverride,
    then: &mut StateOverride,
    changes: &Vec<AccountChange>,
    first: &Vec<AccountChange>,
    second: &Vec<AccountChange>,
)
    requires
        changes@ == first@ + second@,
        old(at_once)@ == old(before)@,
        call_ensures(accumulate_pending_state_overrides, (at_once, changes), Ok(())),
        call_ensures(accumulate_pending_state_overrides, (before, first), Ok(())),
        final(before)@ == old(then)@,
        call_ensures(accumulate_pending_state_overrides, (then, second), Ok(())),
    ensures
        final(at_once)@ == final(then)@,
        changes@.len() == 0 ==> final(at_once)@ == old(at_once)@,
{
    lemma_accumulated_in_turn(old(at_once)@, first@, second@);
}

/// Changes are taken up exactly where the code of each can be had; otherwise nothing is, and the
/// first whose code cannot be had is named.
pub proof fn law_unresolved_code_fails_closed(
    overrides: &mut StateOverride,
    changes: &Vec<AccountChange>,
    r: Result<(), CodeHashMismatch>,
    i: int,
)
    requires
        call_ensures(accumulate_pending_state_overrides, (overrides, changes), r),
        0 <= i < changes@.len(),
        ({
            let change = changes@[i];
            &&& change.touched && !change.selfdestructed
            &&& change.explicit_code || change.code_hash != (if change.committed_code_hash is Some {
                change.committed_code_hash->0
            } else {
                KECCAK256_EMPTY
            })
            &&& change.code is None
            &&& change.code_hash != KECCAK256_EMPTY
            &&& change.stored_code is Some ==> change.stored_code->0@.len() == 0 || keccak256_of(
                change.stored_code->0@,
            ) != change.code_hash
        }),
    ensures
        r is Err,
        final(overrides)@ == old(overrides)@,
        exists|n: int|
            #![trigger changes@[n]]
            0 <= n <= i && r->Err_0.address == changes@[n].address && r->Err_0.code_hash
                == changes@[n].code_hash && changes@[n].touched && !changes@[n].selfdestructed
                && changes@[n].code is None && changes@[n].code_hash != KECCAK256_EMPTY && (
            changes@[n].explicit_code || changes@[n].committed_code_hash != Some(
                changes@[n].code_hash,
            )) && (changes@[n].stored_code is Some ==> changes@[n].stored_code->0@.len() == 0
                || keccak256_of(changes@[n].stored_code->0@) != changes@[n].code_hash),
{
    assert(!is_resolved(changes@[i]));
    let n = choose|n: int|
        #![trigger changes@[n]]
        0 <= n < changes@.len() && !is_resolved(changes@[n]) && r->Err_0.address
            == changes@[n].address && r->Err_0.code_hash == changes@[n].code_hash && (forall|j: int|
            0 <= j < n ==> is_resolved(#[trigger] changes@[j]));
    assert(n <= i);
    assert(changes@[n].code is None);
}

/// A list of changes is refused only for code that cannot be had: one whose changes are each
/// untouched, destroyed, of unchanged code, loaded, empty or stored under their hash is taken up.
pub proof fn law_resolved_changes_are_taken_up(
    overrides: &mut StateOverride,
    changes: &Vec<AccountChange>,
    r: Result<(), CodeHashMismatch>,
)
    requires
        call_ensures(accumulate_pending_state_overrides, (overrides, changes), r),
        forall|i: int|
            #![trigger changes@[i]]
            0 <= i < changes@.len() ==> {
                ||| !changes@[i].touched
                ||| changes@[i].selfdestructed
                ||| changes@[i].code is Some
                ||| changes@[i].code_hash == KECCAK256_EMPTY
                ||| !changes@[i].explicit_code && changes@[i].committed_code_hash == Some(
                    changes@[i].code_hash,
                )
                ||| changes@[i].stored_code is Some && changes@[i].stored_code->0@.len() > 0
                    && keccak256_of(changes@[i].stored_code->0@) == changes@[i].code_hash
            },
    ensures
        r is Ok,
{
    if r is Err {
        let n = choose|n: int|
            #![trigger changes@[n]]
            0 <= n < changes@.len() && !is_resolved(changes@[n]) && r->Err_0.address
                == changes@[n].address && r->Err_0.code_hash == changes@[n].code_hash && (forall|
                j: int,
            | 0 <= j < n ==> is_resolved(#[trigger] changes@[j]));
        assert(!is_resolved(changes@[n]));
    }
}

/// Stored code is asked for exactly where a change overrides code that was not loaded and is not
/// empty, and code that cannot be had is reported as a mismatch.
pub proof fn law_stored_code_is_asked_for_where_it_is_needed(
    change: AccountChange,
    asked: bool,
    error: CodeHashMismatch,
    message: &'static str,
)
    requires
        call_ensures(needs_stored_code, (&change,), asked),
        call_ensures(CodeHashMismatch::message, (&error,), message),
    ensures
        asked <==> change.touched && !change.selfdestructed && change.code is None
            && change.code_hash != KECCAK256_EMPTY && (change.explicit_code || change.code_hash != (
        if change.committed_code_hash is Some {
            change.committed_code_hash->0
        } else {
            KECCAK256_EMPTY
        })),
        message@ == "code hash mismatch"@,
{
}

proof fn lemma_system_changes_in_turn(
    first: Seq<Vec<AccountChange>>,
    second: Seq<Vec<AccountChange>>,
)
    ensures
        system_changes(first + second) == system_changes(first) + system_changes(second),
    decreases second.len(),
{
    if second.len() == 0 {
        assert(first + second =~= first);
        assert(system_changes(first) + system_changes(second) =~= system_changes(first));
    } else {
        lemma_system_changes_in_turn(first, second.drop_last());
        assert((first + second).drop_last() =~= first + second.drop_last());
        assert((first + second).last() == second.last());
        assert(system_changes(first + second) =~= system_changes(first) + system_changes(second));
    }
}

/// What one system commit makes of the overrides is what its changes make of them when each asks for
/// its code to be explicit; it is refused where they are, for the same account.
pub proof fn law_a_system_commit_is_taken_up_with_its_code<E>(
    overrides: &mut StateOverride,
    commits: Vec<Vec<AccountChange>>,
    r: Result<(), SystemChangesError<E>>,
    plain: &mut StateOverride,
    explicit: &Vec<AccountChange>,
    accumulated: Result<(), CodeHashMismatch>,
)
    requires
        call_ensures(apply_pre_execution_changes::<E>, (overrides, commits, Ok::<(), E>(())), r),
        commits@.len() == 1,
        explicit@.len() == commits@[0]@.len(),
        forall|i: int|
            0 <= i < explicit@.len() ==> #[trigger] explicit@[i] == (AccountChange {
                explicit_code: true,
                ..commits@[0]@[i]
            }),
        old(plain)@ == old(overrides)@,
        call_ensures(accumulate_pending_state_overrides, (plain, explicit), accumulated),
    ensures
        r is Ok <==> accumulated is Ok,
        r is Err ==> (r->Err_0 matches SystemChangesError::Code(error) && error.address
            == accumulated->Err_0.address && error.code_hash == accumulated->Err_0.code_hash),
        final(overrides)@ == final(plain)@,
{
    let listed = system_changes(commits@);
    assert(commits@.drop_last() =~= Seq::<Vec<AccountChange>>::empty());
    reveal_with_fuel(system_changes, 2);
    assert(listed =~= explicit@);
    if r is Err {
        let n = choose|n: int|
            #![trigger system_changes(commits@)[n]]
            0 <= n < listed.len() && !is_resolved(system_changes(commits@)[n])
                && r->Err_0->Code_0.address == system_changes(commits@)[n].address
                && r->Err_0->Code_0.code_hash == system_changes(commits@)[n].code_hash && (forall|
                j: int,
            | 0 <= j < n ==> is_resolved(#[trigger] system_changes(commits@)[j]));
        assert(!is_resolved(explicit@[n]));
        let m = choose|m: int|
            #![trigger explicit@[m]]
            0 <= m < explicit@.len() && !is_resolved(explicit@[m])
                && accumulated->Err_0.address == explicit@[m].address
                && accumulated->Err_0.code_hash == explicit@[m].code_hash && (forall|j: int|
                0 <= j < m ==> is_resolved(#[trigger] explicit@[j]));
        assert(n <= m) by {
            if m < n {
                assert(is_resolved(system_changes(commits@)[m]));
            }
        }
        assert(m <= n) by {
            if n < m {
                assert(is_resolved(explicit@[n]));
            }
        }
    }
}

/// System commits are taken up one after the other, and none of a block that was rejected: its own
/// error is passed on and the overrides stay.
pub proof fn law_system_commits_are_taken_up_in_turn<E>(
    at_once: &mut StateOverride,
    before: &mut StateOverride,
    then: &mut StateOverride,
    rejected: &mut StateOverride,
    commits: Vec<Vec<AccountChange>>,
    first: Vec<Vec<AccountChange>>,
    second: Vec<Vec<AccountChange>>,
    error: E,
    r: Result<(), SystemChangesError<E>>,
)
    requires
        commits@ == first@ + second@,
        old(at_once)@ == old(before)@,
        call_ensures(
            apply_pre_execution_changes::<E>,
            (at_once, commits, Ok::<(), E>(())),
            Ok::<(), SystemChangesError<E>>(()),
        ),
        call_ensures(
            apply_pre_execution_changes::<E>,
            (before, first, Ok::<(), E>(())),
            Ok::<(), SystemChangesError<E>>(()),
        ),
        final(before)@ == old(then)@,
        call_ensures(
            apply_pre_execution_changes::<E>,
            (then, second, Ok::<(), E>(())),
            Ok::<(), SystemChangesError<E>>(()),
        ),
        call_ensures(apply_pre_execution_changes::<E>, (rejected, commits, Err::<(), E>(error)), r),
    ensures
        final(at_once)@ == final(then)@,
        commits@.len() == 0 ==> final(at_once)@ == old(at_once)@,
        r matches Err(SystemChangesError::Rejected(given)) && given == error,
        final(rejected)@ == old(rejected)@,
{
    lemma_system_changes_in_turn(first@, second@);
    lemma_accumulated_in_turn(old(at_once)@, system_changes(first@), system_changes(second@));
}

/// A database holds what a committed change lists: each slot the value last listed for it, zero
/// included; a slot that is not listed what it held, or zero in a created account; and in a destroyed
/// account zero everywhere.
pub proof fn law_the_database_holds_the_listed_values(
    before: AccountState,
    change: AccountChange,
    i: int,
    slot: Word,
)
    requires
        change.touched,
        0 <= i < change.storage@.len(),
        forall|j: int|
            i < j < change.storage@.len() ==> (#[trigger] change.storage@[j]).0
                != change.storage@[i].0,
        forall|j: int|
            0 <= j < change.storage@.len() ==> (#[trigger] change.storage@[j]).0 != slot,
    ensures
        !change.selfdestructed ==> (committed(before, change).storage)(change.storage@[i].0)
            == change.storage@[i].1,
        !change.selfdestructed && !change.created ==> (committed(before, change).storage)(slot) == (
        before.storage)(slot),
        change.selfdestructed || change.created ==> forall|n: int|
            0 <= n < 32 ==> #[trigger] (committed(before, change).storage)(slot)@[n] == 0,
        !change.selfdestructed ==> committed(before, change).balance == change.balance,
        !change.selfdestructed ==> committed(before, change).nonce == change.nonce,
        !change.selfdestructed ==> committed(before, change).code_hash == change.code_hash,
{
    law_every_listed_slot_is_taken_up(change.storage@, i, slot);
}

proof fn lemma_system_change_origin(commits: Seq<Vec<AccountChange>>, n: int) -> (origin: (int, int))
    requires
        0 <= n < system_changes(commits).len(),
    ensures
        0 <= origin.0 < commits.len(),
        0 <= origin.1 < commits[origin.0]@.len(),
        system_changes(commits)[n] == with_explicit_code(commits[origin.0]@[origin.1]),
    decreases commits.len(),
{
    let rest = commits.drop_last();
    let earlier = system_changes(rest);
    if n < earlier.len() {
        let origin = lemma_system_change_origin(rest, n);
        assert(rest[origin.0] == commits[origin.0]);
        origin
    } else {
        (commits.len() - 1, n - earlier.len())
    }
}

proof fn lemma_system_change_place(commits: Seq<Vec<AccountChange>>, c: int, i: int) -> (n: int)
    requires
        0 <= c < commits.len(),
        0 <= i < commits[c]@.len(),
    ensures
        0 <= n < system_changes(commits).len(),
        system_changes(commits)[n] == with_explicit_code(commits[c]@[i]),
    decreases commits.len(),
{
    let rest = commits.drop_last();
    let earlier = system_changes(rest);
    if c < rest.len() {
        assert(rest[c] == commits[c]);
        let n = lemma_system_change_place(rest, c, i);
        assert(system_changes(commits)[n] == earlier[n]);
        n
    } else {
        assert(system_changes(commits)[earlier.len() + i] == with_explicit_code(commits[c]@[i]));
        earlier.len() + i
    }
}

/// System commits are refused only for code that cannot be had: those whose changes are each
/// untouched, destroyed, loaded, empty or stored under their hash are taken up.
pub proof fn law_resolved_system_commits_are_taken_up<E>(
    overrides: &mut StateOverride,
    commits: Vec<Vec<AccountChange>>,
    r: Result<(), SystemChangesError<E>>,
)
    requires
        call_ensures(apply_pre_execution_changes::<E>, (overrides, commits, Ok::<(), E>(())), r),
        forall|c: int, i: int|
            #![trigger commits@[c]@[i]]
            0 <= c < commits@.len() && 0 <= i < commits@[c]@.len() ==> {
                ||| !commits@[c]@[i].touched
                ||| commits@[c]@[i].selfdestructed
                ||| commits@[c]@[i].code is Some
                ||| commits@[c]@[i].code_hash == KECCAK256_EMPTY
                ||| commits@[c]@[i].stored_code is Some && commits@[c]@[i].stored_code->0@.len() > 0
                    && keccak256_of(commits@[c]@[i].stored_code->0@) == commits@[c]@[i].code_hash
            },
    ensures
        r is Ok,
{
    if r is Err {
        let n = choose|n: int|
            #![trigger system_changes(commits@)[n]]
            0 <= n < system_changes(commits@).len() && !is_resolved(system_changes(commits@)[n])
                && r->Err_0->Code_0.address == system_changes(commits@)[n].address
                && r->Err_0->Code_0.code_hash == system_changes(commits@)[n].code_hash && (forall|
                j: int,
            | 0 <= j < n ==> is_resolved(#[trigger] system_changes(commits@)[j]));
        let (c, i) = lemma_system_change_origin(commits@, n);
        assert(!is_resolved(with_explicit_code(commits@[c]@[i])));
    }
}

/// Code of a system commit that cannot be had refuses all of the block's commits, and names an
/// account of one of them.
pub proof fn law_unresolved_system_code_fails_closed<E>(
    overrides: &mut StateOverride,
    commits: Vec<Vec<AccountChange>>,
    r: Result<(), SystemChangesError<E>>,
    c: int,
    i: int,
)
    requires
        call_ensures(apply_pre_execution_changes::<E>, (overrides, commits, Ok::<(), E>(())), r),
        0 <= c < commits@.len(),
        0 <= i < commits@[c]@.len(),
        ({
            let change = commits@[c]@[i];
            &&& change.touched && !change.selfdestructed
            &&& change.code is None
            &&& change.code_hash != KECCAK256_EMPTY
            &&& change.stored_code is Some ==> change.stored_code->0@.len() == 0 || keccak256_of(
                change.stored_code->0@,
            ) != change.code_hash
        }),
    ensures
        r matches Err(SystemChangesError::Code(error)) && exists|d: int, k: int|
            #![trigger commits@[d]@[k]]
            0 <= d < commits@.len() && 0 <= k < commits@[d]@.len() && error.address
                == commits@[d]@[k].address && error.code_hash == commits@[d]@[k].code_hash
                && commits@[d]@[k].code is None,
        final(overrides)@ == old(overrides)@,
{
    let place = lemma_system_change_place(commits@, c, i);
    assert(!is_resolved(system_changes(commits@)[place]));
    let n = choose|n: int|
        #![trigger system_changes(commits@)[n]]
        0 <= n < system_changes(commits@).len() && !is_resolved(system_changes(commits@)[n])
            && r->Err_0->Code_0.address == system_changes(commits@)[n].address
            && r->Err_0->Code_0.code_hash == system_changes(commits@)[n].code_hash && (forall|j: int|
            0 <= j < n ==> is_resolved(#[trigger] system_changes(commits@)[j]));
    let (d, k) = lemma_system_change_origin(commits@, n);
    assert(commits@[d]@[k].code is None);
}

} // verus!

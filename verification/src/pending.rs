//! One immutable snapshot of the pending state, and the overrides that stand for it.
use crate::block_id::{BlockId, BlockNumberOrTag};
use crate::overrides::{
    state_view, AccountOverrideView, BlockOverrides, BlockOverridesView, EvmOverrides,
    EvmOverridesView, StateOverride,
};
use crate::primitives::{u256_of, AccountAddress, Word, U256};
use vstd::prelude::*;

verus! {

/// The header fields of a pending block that execution depends on.
#[derive(Clone, Copy, Debug, PartialEq, Eq)]
pub struct Header {
    pub number: u64,
    pub difficulty: U256,
    pub timestamp: u64,
    pub gas_limit: u64,
    pub beneficiary: AccountAddress,
    pub mix_hash: Word,
    pub base_fee_per_gas: Option<u64>,
    pub parent_beacon_block_root: Option<Word>,
}

/// A snapshot of the pending state: the blocks that are not canonical yet, given by the number of
/// the first and the header of the last, with the account state after the last.
#[derive(Debug)]
pub struct PendingBlocks {
    earliest_block_number: u64,
    latest_header: Header,
    state_overrides: Option<StateOverride>,
}

impl PendingBlocks {
    /// The first pending block has a parent and does not come after the last.
    #[verifier::type_invariant]
    spec fn well_formed(self) -> bool {
        0 < self.earliest_block_number <= self.latest_header.number
    }

    /// The number of the first pending block.
    pub closed spec fn earliest(self) -> u64 {
        self.earliest_block_number
    }

    /// The header of the last pending block.
    pub closed spec fn header(self) -> Header {
        self.latest_header
    }

    /// The pending account state.
    pub closed spec fn state(self) -> Option<Map<AccountAddress, AccountOverrideView>> {
        state_view(self.state_overrides)
    }

    /// A snapshot of the blocks from `earliest_block_number` to that of `latest_header`.
    pub fn new(
        earliest_block_number: u64,
        latest_header: Header,
        state_overrides: Option<StateOverride>,
    ) -> (r: PendingBlocks)
        requires
            0 < earliest_block_number <= latest_header.number,
        ensures
            r.earliest() == earliest_block_number,
            r.header() == latest_header,
            r.state() == state_view(state_overrides),
    {
        PendingBlocks { earliest_block_number, latest_header, state_overrides }
    }

    /// A snapshot of the blocks from `earliest_block_number` to that of `latest_header`, unless there
    /// is no such run of blocks with a canonical block below it.
    pub fn try_new(
        earliest_block_number: u64,
        latest_header: Header,
        state_overrides: Option<StateOverride>,
    ) -> (r: Option<PendingBlocks>)
        ensures
            r is Some <==> 0 < earliest_block_number <= latest_header.number,
            r matches Some(pending) ==> pending.earliest() == earliest_block_number
                && pending.header() == latest_header && pending.state() == state_view(
                state_overrides,
            ),
    {
        if 0 < earliest_block_number && earliest_block_number <= latest_header.number {
            Some(PendingBlocks::new(earliest_block_number, latest_header, state_overrides))
        } else {
            None
        }
    }

    /// The header of the last pending block.
    pub fn latest_header(&self) -> (r: Header)
        ensures
            r == self.header(),
    {
        self.latest_header
    }

    /// The number of the first pending block.
    pub fn earliest_block_number(&self) -> (r: u64)
        ensures
            r == self.earliest(),
            0 < r <= self.header().number,
    {
        proof {
            use_type_invariant(self);
        }
        self.earliest_block_number
    }

    /// The canonical block that the snapshot was built on: the parent of the first pending block.
    pub fn canonical_block_number(&self) -> (r: BlockNumberOrTag)
        ensures
            0 < self.earliest() <= self.header().number,
            r == BlockNumberOrTag::Number((self.earliest() - 1) as u64),
    {
        proof {
            use_type_invariant(self);
        }
        BlockNumberOrTag::Number(self.earliest_block_number - 1)
    }

    /// A copy of the pending account state.
    pub fn get_state_overrides(&self) -> (r: Option<StateOverride>)
        ensures
            state_view(r) == self.state(),
    {
        match &self.state_overrides {
            Some(state) => Some(state.clone()),
            None => None,
        }
    }
}

/// The canonical block below the pending state: that below the snapshot, or the latest block where
/// there is no snapshot.
pub fn get_canonical_block_number(snapshot: Option<&PendingBlocks>) -> (r: BlockNumberOrTag)
    ensures
        r == (match snapshot {
            Some(pending) => BlockNumberOrTag::Number((pending.earliest() - 1) as u64),
            None => BlockNumberOrTag::Latest,
        }),
{
    match snapshot {
        Some(pending) => pending.canonical_block_number(),
        None => BlockNumberOrTag::Latest,
    }
}

/// The block environment of a pending header. Each field that execution reads is set from the
/// header; a base fee or beacon root is left out where the header has none.
pub open spec fn header_environment(header: Header) -> BlockOverridesView {
    BlockOverridesView {
        number: Some(u256_of(header.number)),
        difficulty: Some(header.difficulty),
        time: Some(header.timestamp),
        gas_limit: Some(header.gas_limit),
        coinbase: Some(header.beneficiary),
        random: Some(header.mix_hash),
        base_fee: match header.base_fee_per_gas {
            Some(fee) => Some(u256_of(fee)),
            None => None,
        },
        blob_base_fee: None,
        beacon_root: header.parent_beacon_block_root,
        block_hash: None,
    }
}

/// The overrides that turn the canonical state below a snapshot into its pending state.
pub open spec fn snapshot_overrides(pending: PendingBlocks) -> EvmOverridesView {
    EvmOverridesView { state: pending.state(), block: Some(header_environment(pending.header())) }
}

/// The canonical block below a snapshot.
pub open spec fn snapshot_anchor(pending: PendingBlocks) -> BlockId {
    BlockId::Number(BlockNumberOrTag::Number((pending.earliest() - 1) as u64))
}

/// Where a request on the pending state executes: the canonical block below the snapshot, and
/// the overrides that stand for the pending blocks. Account state and block environment come from
/// the one snapshot.
pub fn pending_snapshot_overrides(pending: &PendingBlocks) -> (r: (BlockId, EvmOverrides))
    ensures
        r.0 == snapshot_anchor(*pending),
        r.1@ == snapshot_overrides(*pending),
        0 < pending.earliest() <= pending.header().number,
{
    let header = pending.latest_header();
    let base_fee = match header.base_fee_per_gas {
        Some(fee) => Some(U256::from_u64(fee)),
        None => None,
    };
    let block = BlockOverrides {
        number: Some(U256::from_u64(header.number)),
        difficulty: Some(header.difficulty),
        time: Some(header.timestamp),
        gas_limit: Some(header.gas_limit),
        coinbase: Some(header.beneficiary),
        random: Some(header.mix_hash),
        base_fee,
        blob_base_fee: None,
        beacon_root: header.parent_beacon_block_root,
        block_hash: None,
    };
    (
        BlockId::Number(pending.canonical_block_number()),
        EvmOverrides { state: pending.get_state_overrides(), block: Some(Box::new(block)) },
    )
}

/// A snapshot is what it was made of, and is made exactly of a run of blocks that has a block below
/// it.
pub proof fn law_a_snapshot_keeps_what_it_was_made_of(
    earliest: u64,
    header: Header,
    state: Option<StateOverride>,
    made: Option<PendingBlocks>,
    same: PendingBlocks,
    first: u64,
    last: Header,
    copy: Option<StateOverride>,
    below: BlockNumberOrTag,
)
    requires
        call_ensures(PendingBlocks::try_new, (earliest, header, state), made),
        call_ensures(PendingBlocks::new, (earliest, header, state), same),
        made matches Some(pending) ==> {
            &&& call_ensures(PendingBlocks::earliest_block_number, (&pending,), first)
            &&& call_ensures(PendingBlocks::latest_header, (&pending,), last)
            &&& call_ensures(PendingBlocks::get_state_overrides, (&pending,), copy)
            &&& call_ensures(PendingBlocks::canonical_block_number, (&pending,), below)
        },
    ensures
        made is Some <==> earliest > 0 && earliest <= header.number,
        made matches Some(pending) ==> pending.earliest() == same.earliest() && pending.header()
            == same.header() && pending.state() == same.state(),
        made is Some ==> first == earliest && last == header,
        made is Some ==> (copy is Some <==> state is Some),
        made is Some && state is Some ==> copy->0@ == state->0@,
        made is Some ==> below == BlockNumberOrTag::Number((earliest - 1) as u64),
{
}

/// The block below the pending state is the parent of its first block, or the latest block where
/// there is no pending state.
pub proof fn law_the_block_below_is_the_parent(
    pending: PendingBlocks,
    first: u64,
    below: BlockNumberOrTag,
    without: BlockNumberOrTag,
)
    requires
        call_ensures(PendingBlocks::earliest_block_number, (&pending,), first),
        call_ensures(get_canonical_block_number, (Some(&pending),), below),
        call_ensures(get_canonical_block_number, (None::<&PendingBlocks>,), without),
    ensures
        first > 0,
        below == BlockNumberOrTag::Number((first - 1) as u64),
        without == BlockNumberOrTag::Latest,
{
}

/// A pending request executes on the parent of the first pending block. Its environment is that of
/// the last pending header, field by field, and its account state that of the same snapshot.
pub proof fn law_the_environment_is_that_of_the_last_header(
    pending: PendingBlocks,
    first: u64,
    header: Header,
    state: Option<StateOverride>,
    r: (BlockId, EvmOverrides),
)
    requires
        call_ensures(PendingBlocks::earliest_block_number, (&pending,), first),
        call_ensures(PendingBlocks::latest_header, (&pending,), header),
        call_ensures(PendingBlocks::get_state_overrides, (&pending,), state),
        call_ensures(pending_snapshot_overrides, (&pending,), r),
    ensures
        r.0 == BlockId::Number(BlockNumberOrTag::Number((first - 1) as u64)),
        first > 0,
        r.1.state is Some <==> state is Some,
        state is Some ==> r.1.state->0@ == state->0@,
        r.1.block is Some,
        ({
            let environment = (*r.1.block->0)@;
            &&& environment.number is Some && environment.number->0@ == header.number
            &&& environment.difficulty == Some(header.difficulty)
            &&& environment.time == Some(header.timestamp)
            &&& environment.gas_limit == Some(header.gas_limit)
            &&& environment.coinbase == Some(header.beneficiary)
            &&& environment.random == Some(header.mix_hash)
            &&& environment.base_fee is Some <==> header.base_fee_per_gas is Some
            &&& header.base_fee_per_gas is Some ==> environment.base_fee->0@
                == header.base_fee_per_gas->0
            &&& environment.blob_base_fee is None
            &&& environment.beacon_root == header.parent_beacon_block_root
            &&& environment.block_hash is None
        }),
{
}

} // verus!

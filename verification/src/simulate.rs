//! Simulation requests on the pending state.
use crate::merge::{law_no_pending_overrides_change_nothing, merge_overrides, merged_overrides};
use crate::overrides::{
    block_view, state_view, BlockOverrides, EvmOverrides, EvmOverridesView, StateOverride,
};
use crate::primitives::{AccountAddress, Word};
use vstd::prelude::*;

verus! {

/// Calls that are simulated in one block, with the overrides that go before them.
#[derive(Debug)]
pub struct SimBlock<TxReq> {
    pub block_overrides: Option<BlockOverrides>,
    pub state_overrides: Option<StateOverride>,
    pub calls: Vec<TxReq>,
}

/// A simulation request: blocks one after the other, and how to simulate them.
#[derive(Debug)]
pub struct SimulatePayload<TxReq> {
    pub block_state_calls: Vec<SimBlock<TxReq>>,
    pub trace_transfers: bool,
    pub validation: bool,
    pub return_full_transactions: bool,
}

/// The overrides of a simulated block.
pub open spec fn block_overrides_of<TxReq>(block: SimBlock<TxReq>) -> EvmOverridesView {
    EvmOverridesView {
        state: state_view(block.state_overrides),
        block: block_view(block.block_overrides),
    }
}

/// Whether `after` is the request `before` started from the overrides `pending`: those of the first
/// block are laid over them, and all else is as it was.
pub open spec fn starts_from<TxReq>(
    before: SimulatePayload<TxReq>,
    after: SimulatePayload<TxReq>,
    pending: EvmOverridesView,
) -> bool {
    let old_blocks = before.block_state_calls@;
    let new_blocks = after.block_state_calls@;
    &&& new_blocks.len() == old_blocks.len()
    &&& old_blocks.len() > 0 ==> {
        &&& block_overrides_of(new_blocks[0]) == merged_overrides(
            pending,
            state_view(old_blocks[0].state_overrides),
            block_view(old_blocks[0].block_overrides),
        )
        &&& new_blocks[0].calls == old_blocks[0].calls
    }
    &&& forall|i: int| 0 < i < old_blocks.len() ==> new_blocks[i] == #[trigger] old_blocks[i]
    &&& after.trace_transfers == before.trace_transfers
    &&& after.validation == before.validation
    &&& after.return_full_transactions == before.return_full_transactions
}

/// Lays the overrides of the first simulated block over the pending ones. Pending state is where a
/// simulation starts, not something to return to before each block, so later blocks keep theirs.
pub fn apply_pending_simulation_overrides<TxReq>(
    opts: &mut SimulatePayload<TxReq>,
    pending: EvmOverrides,
)
    ensures
        starts_from(*old(opts), *final(opts), pending@),
{
    if opts.block_state_calls.len() > 0 {
        let first = &mut opts.block_state_calls[0];
        let user_block = match first.block_overrides.take() {
            Some(block) => Some(Box::new(block)),
            None => None,
        };
        let merged = merge_overrides(pending, first.state_overrides.take(), user_block);
        first.state_overrides = merged.state;
        first.block_overrides = match merged.block {
            Some(block) => Some(*block),
            None => None,
        };
    }
}

/// Only the first group of a simulation is prepared, and of that only the overrides: every later
/// group, all calls and all settings stay as the request gave them.
pub proof fn law_later_groups_stay<TxReq>(
    opts: &mut SimulatePayload<TxReq>,
    pending: EvmOverrides,
    i: int,
)
    requires
        call_ensures(apply_pending_simulation_overrides::<TxReq>, (opts, pending), ()),
        0 <= i < old(opts).block_state_calls@.len(),
    ensures
        final(opts).block_state_calls@.len() == old(opts).block_state_calls@.len(),
        i > 0 ==> final(opts).block_state_calls@[i] == old(opts).block_state_calls@[i],
        final(opts).block_state_calls@[i].calls == old(opts).block_state_calls@[i].calls,
        final(opts).trace_transfers == old(opts).trace_transfers,
        final(opts).validation == old(opts).validation,
        final(opts).return_full_transactions == old(opts).return_full_transactions,
{
}

/// A simulation without groups is left without groups, with its settings.
pub proof fn law_no_group_is_added<TxReq>(opts: &mut SimulatePayload<TxReq>, pending: EvmOverrides)
    requires
        call_ensures(apply_pending_simulation_overrides::<TxReq>, (opts, pending), ()),
        old(opts).block_state_calls@.len() == 0,
    ensures
        final(opts).block_state_calls@.len() == 0,
        final(opts).trace_transfers == old(opts).trace_transfers,
        final(opts).validation == old(opts).validation,
        final(opts).return_full_transactions == old(opts).return_full_transactions,
{
}

/// The first group starts with what it sets of each account laid over the pending state: what it
/// sets has its value, what it leaves out has the pending one. Without pending accounts its own are
/// what they were.
pub proof fn law_first_group_accounts_go_over_the_pending_ones<TxReq>(
    opts: &mut SimulatePayload<TxReq>,
    pending: EvmOverrides,
    address: AccountAddress,
    slot: Word,
)
    requires
        call_ensures(apply_pending_simulation_overrides::<TxReq>, (opts, pending), ()),
        old(opts).block_state_calls@.len() > 0,
    ensures
        ({
            let state = old(opts).block_state_calls@[0].state_overrides;
            let r = final(opts).block_state_calls@[0].state_overrides;
            &&& state is None ==> (r is Some <==> pending.state is Some)
            &&& state is None && pending.state is Some ==> r->0@ == pending.state->0@
            &&& state is Some ==> r is Some
            &&& state is Some && pending.state is None ==> r->0@ == state->0@
            &&& state is Some ==> {
                let known = pending.state is Some && pending.state->0@.contains_key(address);
                let given = state->0@.contains_key(address);
                &&& r->0@.contains_key(address) <==> known || given
                &&& known && !given ==> r->0@[address] == pending.state->0@[address]
            }
            &&& state is Some && state->0@.contains_key(address) ==> {
                let known = pending.state is Some && pending.state->0@.contains_key(address);
                let before = pending.state->0@[address];
                let user = state->0@[address];
                let merged = r->0@[address];
                &&& merged.balance == (if user.balance is Some {
                    user.balance
                } else if known {
                    before.balance
                } else {
                    None
                })
                &&& merged.nonce == (if user.nonce is Some {
                    user.nonce
                } else if known {
                    before.nonce
                } else {
                    None
                })
                &&& merged.code == (if user.code is Some {
                    user.code
                } else if known {
                    before.code
                } else {
                    None
                })
                &&& merged.move_precompile_to == (if user.move_precompile_to is Some {
                    user.move_precompile_to
                } else if known {
                    before.move_precompile_to
                } else {
                    None
                })
                &&& user.state is Some ==> merged.state == user.state && merged.state_diff == user.state_diff
                &&& user.state is None && user.state_diff is None ==> merged.state == (if known {
                    before.state
                } else {
                    None
                }) && merged.state_diff == (if known {
                    before.state_diff
                } else {
                    None
                })
                &&& user.state is None && user.state_diff is Some && known && before.state is Some ==> {
                    &&& merged.state is Some
                    &&& merged.state_diff == before.state_diff
                    &&& merged.state->0.contains_key(slot) <==> user.state_diff->0.contains_key(slot)
                        || before.state->0.contains_key(slot)
                    &&& merged.state->0.contains_key(slot) ==> merged.state->0[slot] == (
                    if user.state_diff->0.contains_key(slot) {
                        user.state_diff->0[slot]
                    } else {
                        before.state->0[slot]
                    })
                }
                &&& user.state is None && user.state_diff is Some && !(known && before.state is Some) ==> {
                    let listed = known && before.state_diff is Some && before.state_diff->0.contains_key(slot);
                    &&& merged.state is None
                    &&& merged.state_diff is Some
                    &&& merged.state_diff->0.contains_key(slot) <==> user.state_diff->0.contains_key(slot) || listed
                    &&& merged.state_diff->0.contains_key(slot) ==> merged.state_diff->0[slot] == (
                    if user.state_diff->0.contains_key(slot) {
                        user.state_diff->0[slot]
                    } else {
                        before.state_diff->0[slot]
                    })
                }
            }
        }),
{
    let first = old(opts).block_state_calls@[0];
    law_no_pending_overrides_change_nothing(
        state_view(first.state_overrides),
        block_view(first.block_overrides),
    );
}

/// The first group starts with what it sets of the block environment laid over the pending one: a
/// field that it sets has its value, one that it leaves out has the pending one. Without a pending
/// environment its own is what it was.
pub proof fn law_first_group_environment_goes_over_the_pending_one<TxReq>(
    opts: &mut SimulatePayload<TxReq>,
    pending: EvmOverrides,
    height: u64,
)
    requires
        call_ensures(apply_pending_simulation_overrides::<TxReq>, (opts, pending), ()),
        old(opts).block_state_calls@.len() > 0,
    ensures
        ({
            let block = old(opts).block_state_calls@[0].block_overrides;
            let r = final(opts).block_state_calls@[0].block_overrides;
            &&& block is None ==> (r is Some <==> pending.block is Some)
            &&& block is None && pending.block is Some ==> r->0@ == (*pending.block->0)@
            &&& block is Some ==> r is Some
            &&& block is Some && pending.block is None ==> r->0@ == block->0@
            &&& block is Some ==> {
                let known = pending.block is Some;
                let before = (*pending.block->0)@;
                let user = block->0@;
                let merged = r->0@;
                &&& merged.number == (if user.number is Some {
                    user.number
                } else if known {
                    before.number
                } else {
                    None
                })
                &&& merged.difficulty == (if user.difficulty is Some {
                    user.difficulty
                } else if known {
                    before.difficulty
                } else {
                    None
                })
                &&& merged.time == (if user.time is Some {
                    user.time
                } else if known {
                    before.time
                } else {
                    None
                })
                &&& merged.gas_limit == (if user.gas_limit is Some {
                    user.gas_limit
                } else if known {
                    before.gas_limit
                } else {
                    None
                })
                &&& merged.coinbase == (if user.coinbase is Some {
                    user.coinbase
                } else if known {
                    before.coinbase
                } else {
                    None
                })
                &&& merged.random == (if user.random is Some {
                    user.random
                } else if known {
                    before.random
                } else {
                    None
                })
                &&& merged.base_fee == (if user.base_fee is Some {
                    user.base_fee
                } else if known {
                    before.base_fee
                } else {
                    None
                })
                &&& merged.blob_base_fee == (if user.blob_base_fee is Some {
                    user.blob_base_fee
                } else if known {
                    before.blob_base_fee
                } else {
                    None
                })
                &&& merged.beacon_root == (if user.beacon_root is Some {
                    user.beacon_root
                } else if known {
                    before.beacon_root
                } else {
                    None
                })
                &&& merged.block_hash is Some <==> user.block_hash is Some || (known && before.block_hash is Some)
                &&& merged.block_hash is Some ==> {
                    let given = user.block_hash is Some && user.block_hash->0.contains_key(height);
                    let earlier = known && before.block_hash is Some && before.block_hash->0.contains_key(height);
                    &&& merged.block_hash->0.contains_key(height) <==> given || earlier
                    &&& given ==> merged.block_hash->0[height] == user.block_hash->0[height]
                    &&& !given && earlier ==> merged.block_hash->0[height] == before.block_hash->0[height]
                }
            }
        }),
{
    let first = old(opts).block_state_calls@[0];
    law_no_pending_overrides_change_nothing(
        state_view(first.state_overrides),
        block_view(first.block_overrides),
    );
}

} // verus!

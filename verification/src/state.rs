//! What the state manager does with each update that it receives.
use std::time::Instant;
use vstd::prelude::*;

verus! {

/// A monotonic clock reading.
#[verifier::external_type_specification]
#[verifier::external_body]
pub struct ExInstant(std::time::Instant);

/// The current reading of the monotonic clock, from `std::time::Instant::now`. Nothing is claimed
/// of it: it depends on when the call is made.
#[verifier::external_body]
fn instant_now() -> (r: Instant) {
    Instant::now()
}

/// Flashblock updates that the broadcast to consumers buffers: four seconds of live ones.
pub const BUFFER_SIZE: usize = 20;

/// Invalidations that the broadcast to consumers buffers.
pub const RESET_BUFFER_SIZE: usize = 16;

/// How many pending blocks are kept where the caller sets no depth.
pub const DEFAULT_MAX_PENDING_BLOCKS_DEPTH: u64 = 10;

/// A speculative Flashblock lineage that was invalidated locally.
#[derive(Clone, Copy, Debug, PartialEq, Eq, Structural)]
pub struct FlashblocksReset {
    /// Block whose speculative execution diverged.
    pub block_number: u64,
    /// Flashblock index whose execution exposed the divergence.
    pub flashblock_index: u64,
}

/// An update that the processor has to work on.
#[derive(Debug)]
pub enum StateUpdate<Block, Payload> {
    /// A block became canonical.
    Canonical(Block),
    /// A flashblock arrived.
    Flashblock(Payload),
}

/// An update with the time at which it was received.
#[derive(Debug)]
pub struct TimedStateUpdate<Block, Payload> {
    pub received_at: Instant,
    pub update: StateUpdate<Block, Payload>,
}

impl<Block, Payload> TimedStateUpdate<Block, Payload> {
    /// Stamps an update with the current time.
    pub fn new(update: StateUpdate<Block, Payload>) -> (r: TimedStateUpdate<Block, Payload>)
        ensures
            r.update == update,
    {
        TimedStateUpdate::received(instant_now(), update)
    }

    /// Stamps an update with the time at which it was received.
    pub fn received(received_at: Instant, update: StateUpdate<Block, Payload>) -> (r:
        TimedStateUpdate<Block, Payload>)
        ensures
            r.received_at == received_at,
            r.update == update,
    {
        TimedStateUpdate { received_at, update }
    }
}

/// A block that became canonical, with its number.
#[derive(Debug)]
pub struct CanonicalBlock<Block> {
    pub number: u64,
    pub block: Block,
}

/// A flashblock, with its index and the number of the block that it belongs to.
#[derive(Debug)]
pub struct Flashblock<Payload> {
    pub index: u64,
    pub block_number: u64,
    pub payload: Payload,
}

/// The queues to the processor.
#[derive(Clone, Copy, Debug, PartialEq, Eq, Structural)]
pub enum Queue {
    Canonical,
    Flashblock,
}

/// An update on its way into a queue, with what is reported of it.
#[derive(Debug)]
pub struct Enqueue<Block, Payload> {
    pub queue: Queue,
    pub message: TimedStateUpdate<Block, Payload>,
    pub block_number: u64,
    pub flashblock_index: Option<u64>,
}

/// Whether `queued` puts a block that became canonical on its way: whole, to the queue of canonical
/// blocks.
pub open spec fn queues_canonical_block<Block, Payload>(
    block: CanonicalBlock<Block>,
    queued: Enqueue<Block, Payload>,
) -> bool {
    &&& queued.queue == Queue::Canonical
    &&& queued.message.update == StateUpdate::<Block, Payload>::Canonical(block.block)
    &&& queued.block_number == block.number
    &&& queued.flashblock_index is None
}

/// Whether `queued` puts a flashblock on its way: whole, to the queue of flashblocks.
pub open spec fn queues_flashblock<Block, Payload>(
    flashblock: Flashblock<Payload>,
    queued: Enqueue<Block, Payload>,
) -> bool {
    &&& queued.queue == Queue::Flashblock
    &&& queued.message.update == StateUpdate::<Block, Payload>::Flashblock(flashblock.payload)
    &&& queued.block_number == flashblock.block_number
    &&& queued.flashblock_index == Some(flashblock.index)
}

/// How the state manager is set up, and which queue each update goes to.
#[derive(Clone, Copy, Debug, PartialEq, Eq)]
pub struct FlashblocksState {
    max_pending_blocks_depth: u64,
}

impl FlashblocksState {
    /// How many pending blocks are kept.
    pub closed spec fn depth(self) -> u64 {
        self.max_pending_blocks_depth
    }

    /// A state manager that keeps that many pending blocks.
    pub fn new(max_pending_blocks_depth: u64) -> (r: FlashblocksState)
        ensures
            r.depth() == max_pending_blocks_depth,
    {
        FlashblocksState { max_pending_blocks_depth }
    }

    /// How many pending blocks are kept.
    pub fn max_pending_blocks_depth(&self) -> (r: u64)
        ensures
            r == self.depth(),
    {
        self.max_pending_blocks_depth
    }

    /// Takes a block that became canonical: it goes to the queue of canonical blocks, whole and
    /// stamped with the current time.
    pub fn on_canonical_block_received<Block, Payload>(&self, block: CanonicalBlock<Block>) -> (r:
        Enqueue<Block, Payload>)
        ensures
            queues_canonical_block(block, r),
    {
        Enqueue {
            queue: Queue::Canonical,
            message: TimedStateUpdate::new(StateUpdate::Canonical(block.block)),
            block_number: block.number,
            flashblock_index: None,
        }
    }

    /// Takes a flashblock: it goes to the queue of flashblocks, whole and stamped with the current
    /// time.
    pub fn on_flashblock_received<Block, Payload>(&self, flashblock: Flashblock<Payload>) -> (r:
        Enqueue<Block, Payload>)
        ensures
            queues_flashblock(flashblock, r),
    {
        Enqueue {
            queue: Queue::Flashblock,
            message: TimedStateUpdate::new(StateUpdate::Flashblock(flashblock.payload)),
            block_number: flashblock.block_number,
            flashblock_index: Some(flashblock.index),
        }
    }
}

impl Default for FlashblocksState {
    /// A state manager of the default depth.
    fn default() -> (r: FlashblocksState)
        ensures
            r.depth() == DEFAULT_MAX_PENDING_BLOCKS_DEPTH,
    {
        FlashblocksState::new(DEFAULT_MAX_PENDING_BLOCKS_DEPTH)
    }
}

/// What a state manager receives.
pub enum Received<Block, Payload> {
    Canonical(CanonicalBlock<Block>),
    Flashblock(Flashblock<Payload>),
}

/// Whether `queued` is what the state manager makes of what it received.
pub open spec fn queues<Block, Payload>(
    received: Received<Block, Payload>,
    queued: Enqueue<Block, Payload>,
) -> bool {
    match received {
        Received::Canonical(block) => queues_canonical_block(block, queued),
        Received::Flashblock(flashblock) => queues_flashblock(flashblock, queued),
    }
}

/// The updates that a run of calls puts into a queue, in the order of the calls.
pub open spec fn handed_to<Block, Payload>(queue: Queue, run: Seq<Enqueue<Block, Payload>>) -> Seq<
    StateUpdate<Block, Payload>,
>
    decreases run.len(),
{
    if run.len() == 0 {
        Seq::empty()
    } else {
        let before = handed_to(queue, run.drop_last());
        if run.last().queue == queue {
            before.push(run.last().message.update)
        } else {
            before
        }
    }
}

/// The updates that a state manager received for a queue, in the order in which it received them.
pub open spec fn received_for<Block, Payload>(
    queue: Queue,
    received: Seq<Received<Block, Payload>>,
) -> Seq<StateUpdate<Block, Payload>>
    decreases received.len(),
{
    if received.len() == 0 {
        Seq::empty()
    } else {
        let before = received_for(queue, received.drop_last());
        match received.last() {
            Received::Canonical(block) => if queue == Queue::Canonical {
                before.push(StateUpdate::Canonical(block.block))
            } else {
                before
            },
            Received::Flashblock(flashblock) => if queue == Queue::Flashblock {
                before.push(StateUpdate::Flashblock(flashblock.payload))
            } else {
                before
            },
        }
    }
}

/// However canonical blocks and flashblocks alternate, each queue is handed exactly the updates
/// received for it: unaltered, once each, in the order in which they were received.
pub proof fn law_each_queue_is_handed_its_updates_in_order<Block, Payload>(
    received: Seq<Received<Block, Payload>>,
    run: Seq<Enqueue<Block, Payload>>,
    queue: Queue,
)
    requires
        run.len() == received.len(),
        forall|i: int| 0 <= i < run.len() ==> queues(received[i], #[trigger] run[i]),
    ensures
        handed_to(queue, run) == received_for(queue, received),
    decreases run.len(),
{
    if run.len() > 0 {
        assert(queues(received.last(), run[run.len() - 1]));
        law_each_queue_is_handed_its_updates_in_order(
            received.drop_last(),
            run.drop_last(),
            queue,
        );
    }
}

/// Flashblocks that are received one after the other are handed to the flashblock queue: their
/// payloads, unaltered, once each, in the order of the calls. Nothing is handed to the other queue.
pub proof fn law_flashblocks_are_handed_over_in_order<Block, Payload>(
    flashblocks: Seq<Flashblock<Payload>>,
    run: Seq<Enqueue<Block, Payload>>,
)
    requires
        run.len() == flashblocks.len(),
        forall|i: int| 0 <= i < run.len() ==> queues_flashblock(flashblocks[i], #[trigger] run[i]),
    ensures
        handed_to(Queue::Flashblock, run).len() == flashblocks.len(),
        forall|i: int|
            0 <= i < flashblocks.len() ==> #[trigger] handed_to(Queue::Flashblock, run)[i]
                == StateUpdate::<Block, Payload>::Flashblock(flashblocks[i].payload),
        handed_to(Queue::Canonical, run).len() == 0,
    decreases run.len(),
{
    if run.len() > 0 {
        assert(queues_flashblock(flashblocks.last(), run[run.len() - 1]));
        law_flashblocks_are_handed_over_in_order(flashblocks.drop_last(), run.drop_last());
    }
}

/// A state manager keeps as many pending blocks as it is told to, and ten where it is not told.
pub proof fn law_the_depth_is_the_one_given(
    depth: u64,
    state: FlashblocksState,
    kept: u64,
    default: FlashblocksState,
    by_default: u64,
)
    requires
        call_ensures(FlashblocksState::new, (depth,), state),
        call_ensures(FlashblocksState::max_pending_blocks_depth, (&state,), kept),
        call_ensures(<FlashblocksState as Default>::default, (), default),
        call_ensures(FlashblocksState::max_pending_blocks_depth, (&default,), by_default),
    ensures
        kept == depth,
        by_default == 10,
{
}

/// A stamped update is the update itself, with the time that it is stamped with.
pub proof fn law_a_stamp_leaves_the_update<Block, Payload>(
    update: StateUpdate<Block, Payload>,
    received_at: Instant,
    now: TimedStateUpdate<Block, Payload>,
    then: TimedStateUpdate<Block, Payload>,
)
    requires
        call_ensures(TimedStateUpdate::<Block, Payload>::new, (update,), now),
        call_ensures(TimedStateUpdate::<Block, Payload>::received, (received_at, update), then),
    ensures
        now.update == update,
        then.update == update,
        then.received_at == received_at,
{
}

/// A canonical block goes whole to the queue of canonical blocks and a flashblock whole to that of
/// flashblocks, each reported under its own numbers, whatever the state manager's depth.
pub proof fn law_each_update_goes_whole_to_its_queue<Block, Payload>(
    state: FlashblocksState,
    block: CanonicalBlock<Block>,
    flashblock: Flashblock<Payload>,
    canonical: Enqueue<Block, Payload>,
    pending: Enqueue<Block, Payload>,
)
    requires
        call_ensures(
            FlashblocksState::on_canonical_block_received::<Block, Payload>,
            (&state, block),
            canonical,
        ),
        call_ensures(
            FlashblocksState::on_flashblock_received::<Block, Payload>,
            (&state, flashblock),
            pending,
        ),
    ensures
        canonical.queue == Queue::Canonical,
        canonical.message.update == StateUpdate::<Block, Payload>::Canonical(block.block),
        canonical.block_number == block.number,
        canonical.flashblock_index is None,
        pending.queue == Queue::Flashblock,
        pending.message.update == StateUpdate::<Block, Payload>::Flashblock(flashblock.payload),
        pending.block_number == flashblock.block_number,
        pending.flashblock_index == Some(flashblock.index),
{
}

} // verus!

//! Sending a transaction and waiting for its receipt.
use crate::primitives::{same_word, Word};
use crate::rpc_error::{ErrorObject, INVALID_PARAMS_CODE};
use crate::text::{decimal, decimal_text};
use vstd::prelude::*;

verus! {

/// The longest that a request may wait for a receipt, in milliseconds.
pub const MAX_TIMEOUT_SEND_RAW_TX_SYNC_MS: u64 = 6_000;

/// A transaction that was sent and whose receipt did not come.
#[derive(Clone, Copy, Debug, PartialEq, Eq)]
pub struct ConfirmationTimeout {
    pub hash: Word,
    pub duration_ms: u64,
}

/// The message for a timeout over the limit.
pub open spec fn timeout_too_long(timeout_ms: u64) -> Seq<char> {
    "time out too long, timeout: "@ + decimal(timeout_ms as nat) + " ms, max: "@ + decimal(
        MAX_TIMEOUT_SEND_RAW_TX_SYNC_MS as nat,
    ) + " ms"@
}

/// How long a request waits: as long as it says, or the limit where it does not say.
pub open spec fn effective_timeout(timeout_ms: Option<u64>) -> u64 {
    match timeout_ms {
        Some(ms) => ms,
        None => MAX_TIMEOUT_SEND_RAW_TX_SYNC_MS,
    }
}

/// A request whose timeout was accepted and whose transaction is to be sent.
#[derive(Debug)]
pub struct SendRawTransactionSync {
    timeout_ms: u64,
}

/// A request whose transaction was sent and that waits for the receipt.
#[derive(Debug)]
pub struct AwaitReceipt {
    tx_hash: Word,
    timeout_ms: u64,
}

/// What ended the wait for a receipt: the flashblocks or the canonical chain, each with the receipt
/// it has, or the time.
#[derive(Debug)]
pub enum ReceiptEvent<R> {
    Flashblocks(Option<R>),
    Canonical(Option<R>),
    Elapsed,
}

/// The receipt that an event brings, if any.
pub open spec fn receipt_of<R>(event: ReceiptEvent<R>) -> Option<R> {
    match event {
        ReceiptEvent::Flashblocks(receipt) => receipt,
        ReceiptEvent::Canonical(receipt) => receipt,
        ReceiptEvent::Elapsed => None,
    }
}

impl SendRawTransactionSync {
    /// How long the request will wait, in milliseconds.
    pub closed spec fn timeout(self) -> u64 {
        self.timeout_ms
    }

    /// Accepts a request unless its timeout is over the limit. Nothing is sent for one that is
    /// not accepted.
    pub fn start(timeout_ms: Option<u64>) -> (r: Result<SendRawTransactionSync, ErrorObject>)
        ensures
            match r {
                Ok(request) => effective_timeout(timeout_ms) <= MAX_TIMEOUT_SEND_RAW_TX_SYNC_MS
                    && request.timeout() == effective_timeout(timeout_ms),
                Err(error) => timeout_ms matches Some(ms) && ms > MAX_TIMEOUT_SEND_RAW_TX_SYNC_MS
                    && error.code == INVALID_PARAMS_CODE && error.message@ == timeout_too_long(ms),
            },
    {
        match timeout_ms {
            Some(ms) => {
                if ms > MAX_TIMEOUT_SEND_RAW_TX_SYNC_MS {
                    let mut message = "time out too long, timeout: ".to_owned();
                    message.append(decimal_text(ms).as_str());
                    message.append(" ms, max: ");
                    message.append(decimal_text(MAX_TIMEOUT_SEND_RAW_TX_SYNC_MS).as_str());
                    message.append(" ms");
                    return Err(ErrorObject { code: INVALID_PARAMS_CODE, message });
                }
                Ok(SendRawTransactionSync { timeout_ms: ms })
            },
            None => Ok(SendRawTransactionSync { timeout_ms: MAX_TIMEOUT_SEND_RAW_TX_SYNC_MS }),
        }
    }

    /// Goes on from what sending the transaction gave: its hash, or the error to pass on.
    pub fn on_sent<E>(self, sent: Result<Word, E>) -> (r: Result<AwaitReceipt, E>)
        ensures
            match sent {
                Ok(hash) => r matches Ok(waiting) && waiting.hash() == hash && waiting.timeout()
                    == self.timeout(),
                Err(error) => r == Err::<AwaitReceipt, E>(error),
            },
    {
        match sent {
            Ok(tx_hash) => Ok(AwaitReceipt { tx_hash, timeout_ms: self.timeout_ms }),
            Err(error) => Err(error),
        }
    }
}

impl AwaitReceipt {
    /// The hash of the transaction.
    pub closed spec fn hash(self) -> Word {
        self.tx_hash
    }

    /// How long the request waits, in milliseconds.
    pub closed spec fn timeout(self) -> u64 {
        self.timeout_ms
    }

    /// The hash of the transaction.
    pub fn tx_hash(&self) -> (r: Word)
        ensures
            r == self.hash(),
    {
        self.tx_hash
    }

    /// How long the request waits, in milliseconds.
    pub fn timeout_ms(&self) -> (r: u64)
        ensures
            r == self.timeout(),
    {
        self.timeout_ms
    }

    /// Answers the request with whatever ended the wait: the receipt, from either side, or the
    /// timeout where it brought none.
    pub fn on_event<R>(self, event: ReceiptEvent<R>) -> (r: Result<R, ConfirmationTimeout>)
        ensures
            match receipt_of(event) {
                Some(receipt) => r == Ok::<R, ConfirmationTimeout>(receipt),
                None => r == Err::<R, ConfirmationTimeout>(
                    ConfirmationTimeout { hash: self.hash(), duration_ms: self.timeout() },
                ),
            },
    {
        let receipt = match event {
            ReceiptEvent::Flashblocks(receipt) => receipt,
            ReceiptEvent::Canonical(receipt) => receipt,
            ReceiptEvent::Elapsed => None,
        };
        match receipt {
            Some(receipt) => Ok(receipt),
            None => Err(
                ConfirmationTimeout { hash: self.tx_hash, duration_ms: self.timeout_ms },
            ),
        }
    }
}

/// What the stream of pending states delivers next.
#[derive(Debug)]
pub enum FlashblocksEvent<R> {
    /// A pending state, with the receipt that it has for the transaction.
    State(Option<R>),
    /// The stream ended.
    Closed,
    /// Some states were dropped before they could be read.
    Lagged(u64),
}

/// Whether a wait goes on, or ends with a receipt or without one.
#[derive(Debug, PartialEq, Eq)]
pub enum Wait<R> {
    Continue,
    Done(Option<R>),
}

/// What a wait makes of one event of the stream of pending states.
pub open spec fn flashblocks_wait<R>(event: FlashblocksEvent<R>) -> Wait<R> {
    match event {
        FlashblocksEvent::State(Some(receipt)) => Wait::Done(Some(receipt)),
        FlashblocksEvent::State(None) => Wait::Continue,
        FlashblocksEvent::Closed => Wait::Done(None),
        FlashblocksEvent::Lagged(_) => Wait::Continue,
    }
}

/// One step of the wait for a receipt in the flashblocks. The first state with the receipt ends it;
/// the end of the stream ends it without one; dropped states do not end it.
pub fn wait_for_flashblocks_receipt<R>(event: FlashblocksEvent<R>) -> (r: Wait<R>)
    ensures
        r == flashblocks_wait(event),
{
    match event {
        FlashblocksEvent::State(receipt) => match receipt {
            Some(receipt) => Wait::Done(Some(receipt)),
            None => Wait::Continue,
        },
        FlashblocksEvent::Closed => Wait::Done(None),
        FlashblocksEvent::Lagged(_) => Wait::Continue,
    }
}

/// How the wait over a run of events ends; `Continue` where none of them ends it.
pub open spec fn flashblocks_wait_over<R>(events: Seq<FlashblocksEvent<R>>) -> Wait<R>
    decreases events.len(),
{
    if events.len() == 0 {
        Wait::Continue
    } else {
        match flashblocks_wait(events[0]) {
            Wait::Continue => flashblocks_wait_over(events.skip(1)),
            done => done,
        }
    }
}

/// What the stream of canonical states delivers next.
#[derive(Debug)]
pub enum CanonicalEvent {
    /// A change of the canonical chain: for each of its blocks, the hashes of its transactions.
    State(Vec<Vec<Word>>),
    /// States were dropped before they could be read.
    Lagged,
    /// The stream ended.
    Ended,
}

/// What a wait for a canonical receipt does next.
#[derive(Clone, Copy, Debug, PartialEq, Eq, Structural)]
pub enum CanonicalWait {
    /// Wait for the next event.
    Continue,
    /// Ask the canonical chain for the receipt.
    FetchReceipt,
    /// End without a receipt.
    GiveUp,
}

/// Whether one of the blocks holds the transaction.
pub open spec fn holds_transaction(blocks: Seq<Vec<Word>>, tx_hash: Word) -> bool {
    exists|i: int, j: int|
        0 <= i < blocks.len() && 0 <= j < blocks[i]@.len() && #[trigger] blocks[i]@[j] == tx_hash
}

/// What a wait makes of one event of the stream of canonical states.
pub open spec fn canonical_wait(event: CanonicalEvent, tx_hash: Word) -> CanonicalWait {
    match event {
        CanonicalEvent::State(blocks) => if holds_transaction(blocks@, tx_hash) {
            CanonicalWait::FetchReceipt
        } else {
            CanonicalWait::Continue
        },
        CanonicalEvent::Lagged => CanonicalWait::GiveUp,
        CanonicalEvent::Ended => CanonicalWait::GiveUp,
    }
}

/// One step of the wait for a canonical receipt: fetch it once a block with the transaction has
/// become canonical; give up where states were dropped or the stream ended.
pub fn wait_for_canonical_receipt(event: &CanonicalEvent, tx_hash: Word) -> (r: CanonicalWait)
    ensures
        r == canonical_wait(*event, tx_hash),
{
    let blocks = match event {
        CanonicalEvent::State(blocks) => blocks,
        CanonicalEvent::Lagged => {
            return CanonicalWait::GiveUp;
        },
        CanonicalEvent::Ended => {
            return CanonicalWait::GiveUp;
        },
    };
    let mut i: usize = 0;
    while i < blocks.len()
        invariant
            i <= blocks.len(),
            *event == CanonicalEvent::State(*blocks),
            forall|k: int, j: int|
                0 <= k < i && 0 <= j < blocks@[k]@.len() ==> #[trigger] blocks@[k]@[j] != tx_hash,
        decreases blocks.len() - i,
    {
        let hashes = &blocks[i];
        let mut j: usize = 0;
        while j < hashes.len()
            invariant
                i < blocks.len(),
                *hashes == blocks@[i as int],
                *event == CanonicalEvent::State(*blocks),
                j <= hashes.len(),
                forall|l: int| 0 <= l < j ==> #[trigger] hashes@[l] != tx_hash,
            decreases hashes.len() - j,
        {
            if same_word(&hashes[j], &tx_hash) {
                assert(blocks@[i as int]@[j as int] == tx_hash);
                return CanonicalWait::FetchReceipt;
            }
            j = j + 1;
        }
        i = i + 1;
    }
    CanonicalWait::Continue
}

/// The receipt that the wait ends with, from what the canonical chain answered. An error counts as
/// no receipt.
pub fn canonical_receipt<R, E>(reply: Result<Option<R>, E>) -> (r: Option<R>)
    ensures
        r == (match reply {
            Ok(receipt) => receipt,
            Err(_) => None,
        }),
{
    match reply {
        Ok(receipt) => receipt,
        Err(_) => None,
    }
}

/// How the wait over a run of events goes on; `Continue` where none of them decides.
pub open spec fn canonical_wait_over(events: Seq<CanonicalEvent>, tx_hash: Word) -> CanonicalWait
    decreases events.len(),
{
    if events.len() == 0 {
        CanonicalWait::Continue
    } else {
        match canonical_wait(events[0], tx_hash) {
            CanonicalWait::Continue => canonical_wait_over(events.skip(1), tx_hash),
            decided => decided,
        }
    }
}

proof fn lemma_flashblocks_wait_decided_at<R>(events: Seq<FlashblocksEvent<R>>, n: int)
    requires
        0 <= n < events.len(),
        !(flashblocks_wait(events[n]) is Continue),
        forall|i: int| 0 <= i < n ==> flashblocks_wait(#[trigger] events[i]) is Continue,
    ensures
        flashblocks_wait_over(events) == flashblocks_wait(events[n]),
    decreases n,
{
    if n > 0 {
        let rest = events.skip(1);
        assert forall|i: int| 0 <= i < n - 1 implies flashblocks_wait(#[trigger] rest[i]) is Continue
            by {
            assert(rest[i] == events[i + 1]);
        }
        lemma_flashblocks_wait_decided_at(rest, n - 1);
    }
}

/// The wait in the flashblocks ends with the first receipt that comes before the end of the
/// stream, whatever states without one and dropped states come before it.
pub proof fn law_first_flashblock_receipt_ends_the_wait<R>(
    events: Seq<FlashblocksEvent<R>>,
    n: int,
    receipt: R,
)
    requires
        0 <= n < events.len(),
        events[n] == FlashblocksEvent::State(Some(receipt)),
        forall|i: int| 0 <= i < n ==> flashblocks_wait(#[trigger] events[i]) is Continue,
    ensures
        flashblocks_wait_over(events) == Wait::Done(Some(receipt)),
{
    lemma_flashblocks_wait_decided_at(events, n);
}

/// The wait in the flashblocks ends without a receipt where the stream ends before any state with
/// one, whatever states without one and dropped states come before that.
pub proof fn law_flashblocks_wait_ends_with_the_stream<R>(
    events: Seq<FlashblocksEvent<R>>,
    n: int,
)
    requires
        0 <= n < events.len(),
        events[n] is Closed,
        forall|i: int| 0 <= i < n ==> flashblocks_wait(#[trigger] events[i]) is Continue,
    ensures
        flashblocks_wait_over(events) == Wait::<R>::Done(None),
{
    lemma_flashblocks_wait_decided_at(events, n);
}

/// States without the receipt and dropped states, however many, leave the wait in the flashblocks
/// going.
pub proof fn law_flashblocks_wait_goes_on<R>(events: Seq<FlashblocksEvent<R>>)
    requires
        forall|i: int|
            0 <= i < events.len() ==> (#[trigger] events[i] is Lagged || events[i]
                == FlashblocksEvent::<R>::State(None)),
    ensures
        flashblocks_wait_over(events) == Wait::<R>::Continue,
    decreases events.len(),
{
    if events.len() > 0 {
        let rest = events.skip(1);
        assert forall|i: int| 0 <= i < rest.len() implies (#[trigger] rest[i] is Lagged || rest[i]
            == FlashblocksEvent::<R>::State(None)) by {
            assert(rest[i] == events[i + 1]);
        }
        assert(events[0] is Lagged || events[0] == FlashblocksEvent::<R>::State(None));
        law_flashblocks_wait_goes_on(rest);
    }
}

/// The wait in the flashblocks ends without a receipt only because the stream ended.
pub proof fn law_flashblocks_wait_gives_up_only_at_the_end<R>(events: Seq<FlashblocksEvent<R>>)
    ensures
        flashblocks_wait_over(events) == Wait::<R>::Done(None) ==> exists|n: int|
            0 <= n < events.len() && #[trigger] events[n] is Closed,
    decreases events.len(),
{
    if events.len() > 0 && flashblocks_wait(events[0]) is Continue {
        let rest = events.skip(1);
        law_flashblocks_wait_gives_up_only_at_the_end(rest);
        if flashblocks_wait_over(rest) == Wait::<R>::Done(None) {
            let n = choose|n: int| 0 <= n < rest.len() && #[trigger] rest[n] is Closed;
            assert(events[n + 1] is Closed);
        }
    }
}

/// Whether an event is a change of the canonical chain that does not hold the transaction.
pub open spec fn lacks_transaction(event: CanonicalEvent, tx_hash: Word) -> bool {
    event matches CanonicalEvent::State(blocks) && !holds_transaction(blocks@, tx_hash)
}

proof fn lemma_canonical_wait_decided_at(events: Seq<CanonicalEvent>, tx_hash: Word, n: int)
    requires
        0 <= n < events.len(),
        !lacks_transaction(events[n], tx_hash),
        forall|i: int| 0 <= i < n ==> lacks_transaction(#[trigger] events[i], tx_hash),
    ensures
        canonical_wait_over(events, tx_hash) == canonical_wait(events[n], tx_hash),
    decreases n,
{
    if n > 0 {
        let rest = events.skip(1);
        assert(lacks_transaction(events[0], tx_hash));
        assert forall|i: int| 0 <= i < n - 1 implies lacks_transaction(
            #[trigger] rest[i],
            tx_hash,
        ) by {
            assert(rest[i] == events[i + 1]);
        }
        lemma_canonical_wait_decided_at(rest, tx_hash, n - 1);
    }
}

/// The wait for a canonical receipt asks for it exactly at the first change of the chain that holds
/// the transaction, provided no state was dropped and the stream did not end before.
pub proof fn law_canonical_wait_fetches_at_the_first_block(
    events: Seq<CanonicalEvent>,
    tx_hash: Word,
    n: int,
)
    requires
        0 <= n < events.len(),
        events[n] matches CanonicalEvent::State(blocks) && holds_transaction(blocks@, tx_hash),
        forall|i: int| 0 <= i < n ==> lacks_transaction(#[trigger] events[i], tx_hash),
    ensures
        canonical_wait_over(events, tx_hash) == CanonicalWait::FetchReceipt,
{
    lemma_canonical_wait_decided_at(events, tx_hash, n);
}

/// The wait for a canonical receipt gives up where states were dropped or the stream ended before
/// any change of the chain that holds the transaction.
pub proof fn law_canonical_wait_gives_up_at_a_gap(
    events: Seq<CanonicalEvent>,
    tx_hash: Word,
    n: int,
)
    requires
        0 <= n < events.len(),
        events[n] is Lagged || events[n] is Ended,
        forall|i: int| 0 <= i < n ==> lacks_transaction(#[trigger] events[i], tx_hash),
    ensures
        canonical_wait_over(events, tx_hash) == CanonicalWait::GiveUp,
{
    lemma_canonical_wait_decided_at(events, tx_hash, n);
}

/// Changes of the chain without the transaction, however many, leave the wait for a canonical
/// receipt going.
pub proof fn law_canonical_wait_goes_on(events: Seq<CanonicalEvent>, tx_hash: Word)
    requires
        forall|i: int| 0 <= i < events.len() ==> lacks_transaction(#[trigger] events[i], tx_hash),
    ensures
        canonical_wait_over(events, tx_hash) == CanonicalWait::Continue,
    decreases events.len(),
{
    if events.len() > 0 {
        let rest = events.skip(1);
        assert(lacks_transaction(events[0], tx_hash));
        assert forall|i: int| 0 <= i < rest.len() implies lacks_transaction(
            #[trigger] rest[i],
            tx_hash,
        ) by {
            assert(rest[i] == events[i + 1]);
        }
        law_canonical_wait_goes_on(rest, tx_hash);
    }
}

/// A request that waits six seconds or less is accepted, and waits as long as it says; one that does
/// not say waits six seconds. A longer one is refused, with a message that names both numbers.
pub proof fn law_waits_are_limited_to_six_seconds<E>(
    timeout_ms: Option<u64>,
    tx_hash: Word,
    error: E,
    started: Result<SendRawTransactionSync, ErrorObject>,
    sent: Result<AwaitReceipt, E>,
    failed: Result<AwaitReceipt, E>,
    waits: u64,
    waits_for: Word,
)
    requires
        call_ensures(SendRawTransactionSync::start, (timeout_ms,), started),
        started matches Ok(request) ==> {
            &&& call_ensures(
                SendRawTransactionSync::on_sent::<E>,
                (request, Ok::<Word, E>(tx_hash)),
                sent,
            )
            &&& call_ensures(
                SendRawTransactionSync::on_sent::<E>,
                (request, Err::<Word, E>(error)),
                failed,
            )
            &&& sent matches Ok(waiting) ==> {
                &&& call_ensures(AwaitReceipt::timeout_ms, (&waiting,), waits)
                &&& call_ensures(AwaitReceipt::tx_hash, (&waiting,), waits_for)
            }
        },
    ensures
        started is Err <==> timeout_ms is Some && timeout_ms->0 > 6000,
        started is Err ==> started->Err_0.code == -32602,
        started is Err ==> started->Err_0.message@ == "time out too long, timeout: "@ + decimal(
            timeout_ms->0 as nat,
        ) + " ms, max: 6000 ms"@,
        started is Ok ==> failed == Err::<AwaitReceipt, E>(error),
        started is Ok ==> sent is Ok && waits_for == tx_hash,
        started is Ok && timeout_ms is Some ==> waits == timeout_ms->0,
        timeout_ms is None ==> started is Ok && waits == 6000,
{
    if started is Err {
        reveal_strlit(" ms, max: ");
        reveal_strlit(" ms");
        reveal_strlit(" ms, max: 6000 ms");
        reveal_with_fuel(decimal, 5);
        assert(decimal(6000) =~= seq!['6', '0', '0', '0']);
        let head = "time out too long, timeout: "@ + decimal(timeout_ms->0 as nat);
        assert(head + " ms, max: "@ + decimal(6000) + " ms"@ =~= head + " ms, max: 6000 ms"@);
    }
}

/// A wait is answered with the receipt that ended it, from whichever side it came. Where it ended
/// without one, by a side or by the time, the answer names the transaction and how long it waited.
pub proof fn law_a_wait_is_answered_with_what_ended_it<R>(
    waiting: AwaitReceipt,
    receipt: R,
    waits: u64,
    waits_for: Word,
    flashblocks: Result<R, ConfirmationTimeout>,
    canonical: Result<R, ConfirmationTimeout>,
    no_flashblocks: Result<R, ConfirmationTimeout>,
    no_canonical: Result<R, ConfirmationTimeout>,
    elapsed: Result<R, ConfirmationTimeout>,
)
    requires
        call_ensures(AwaitReceipt::timeout_ms, (&waiting,), waits),
        call_ensures(AwaitReceipt::tx_hash, (&waiting,), waits_for),
        call_ensures(
            AwaitReceipt::on_event::<R>,
            (waiting, ReceiptEvent::Flashblocks(Some(receipt))),
            flashblocks,
        ),
        call_ensures(
            AwaitReceipt::on_event::<R>,
            (waiting, ReceiptEvent::Canonical(Some(receipt))),
            canonical,
        ),
        call_ensures(
            AwaitReceipt::on_event::<R>,
            (waiting, ReceiptEvent::<R>::Flashblocks(None)),
            no_flashblocks,
        ),
        call_ensures(
            AwaitReceipt::on_event::<R>,
            (waiting, ReceiptEvent::<R>::Canonical(None)),
            no_canonical,
        ),
        call_ensures(AwaitReceipt::on_event::<R>, (waiting, ReceiptEvent::<R>::Elapsed), elapsed),
    ensures
        flashblocks == Ok::<R, ConfirmationTimeout>(receipt),
        canonical == Ok::<R, ConfirmationTimeout>(receipt),
        elapsed is Err && elapsed->Err_0.hash == waits_for && elapsed->Err_0.duration_ms == waits,
        no_flashblocks == elapsed,
        no_canonical == elapsed,
{
}

/// One step of the wait in the flashblocks: a receipt ends it, the end of the stream ends it without
/// one, and nothing else does.
pub proof fn law_a_flashblocks_step_ends_on_a_receipt_or_the_end<R>(
    receipt: R,
    dropped: u64,
    found: Wait<R>,
    without: Wait<R>,
    closed: Wait<R>,
    lagged: Wait<R>,
)
    requires
        call_ensures(
            wait_for_flashblocks_receipt::<R>,
            (FlashblocksEvent::State(Some(receipt)),),
            found,
        ),
        call_ensures(
            wait_for_flashblocks_receipt::<R>,
            (FlashblocksEvent::<R>::State(None),),
            without,
        ),
        call_ensures(wait_for_flashblocks_receipt::<R>, (FlashblocksEvent::<R>::Closed,), closed),
        call_ensures(
            wait_for_flashblocks_receipt::<R>,
            (FlashblocksEvent::<R>::Lagged(dropped),),
            lagged,
        ),
    ensures
        found == Wait::Done(Some(receipt)),
        without == Wait::<R>::Continue,
        closed == Wait::<R>::Done(None),
        lagged == Wait::<R>::Continue,
{
}

/// One step of the wait for a canonical receipt asks for it exactly where some block of the change
/// holds the transaction at some place, whichever block and whichever place that is. Dropped states
/// and the end of the stream end the wait.
pub proof fn law_a_transaction_is_found_wherever_it_stands(
    blocks: Vec<Vec<Word>>,
    tx_hash: Word,
    r: CanonicalWait,
    lagged: CanonicalWait,
    ended: CanonicalWait,
)
    requires
        call_ensures(wait_for_canonical_receipt, (&CanonicalEvent::State(blocks), tx_hash), r),
        call_ensures(wait_for_canonical_receipt, (&CanonicalEvent::Lagged, tx_hash), lagged),
        call_ensures(wait_for_canonical_receipt, (&CanonicalEvent::Ended, tx_hash), ended),
    ensures
        forall|i: int, j: int|
            0 <= i < blocks@.len() && 0 <= j < blocks@[i]@.len() && #[trigger] blocks@[i]@[j] == tx_hash
                ==> r == CanonicalWait::FetchReceipt,
        r == CanonicalWait::FetchReceipt ==> exists|i: int, j: int|
            0 <= i < blocks@.len() && 0 <= j < blocks@[i]@.len() && #[trigger] blocks@[i]@[j] == tx_hash,
        r != CanonicalWait::FetchReceipt ==> r == CanonicalWait::Continue,
        lagged == CanonicalWait::GiveUp,
        ended == CanonicalWait::GiveUp,
{
}

/// What the chain replies to the question for a receipt ends the wait: its receipt, or none where it
/// has none or fails.
pub proof fn law_the_receipt_of_the_chain_ends_the_wait<R, E>(
    receipt: Option<R>,
    error: E,
    replied: Option<R>,
    failed: Option<R>,
)
    requires
        call_ensures(canonical_receipt::<R, E>, (Ok::<Option<R>, E>(receipt),), replied),
        call_ensures(canonical_receipt::<R, E>, (Err::<Option<R>, E>(error),), failed),
    ensures
        replied == receipt,
        failed is None,
{
}

} // verus!

//! Fetching source payloads ahead of the insert loop: what to do next, decided from what happened.
//!
//! The caller performs each step that is asked for and reports how it went.
use vstd::prelude::*;

verus! {

/// Number of source payloads to keep prefetched ahead of the insert loop.
pub const PREFETCH_WINDOW: usize = 50;

/// How long to wait at the source's head before asking again, in milliseconds.
pub const SOURCE_HEAD_BACKOFF_MS: u64 = 200;

/// How long to wait after a failed fetch, in milliseconds.
pub const SOURCE_FAILURE_BACKOFF_MS: u64 = 1_000;

/// Of a run of failures, the first and every one at this interval is worth a warning.
pub const PREFETCH_FAILURE_WARN_INTERVAL: u64 = 5;

/// Decides what to fetch next.
#[derive(Debug)]
pub struct PayloadPrefetcher {
    next_fetch: u64,
    source_latest: u64,
    consecutive_payload_failures: u64,
}

/// What a [`PayloadPrefetcher`] knows.
#[verifier::ext_equal]
pub struct Progress {
    /// The block whose payload comes next.
    pub next_fetch: nat,
    /// The highest block that the source is known to have.
    pub source_latest: nat,
    /// Failed attempts at the next payload since the last success.
    pub failures: nat,
}

/// What to do at the start of a round.
#[derive(Clone, Copy, Debug, PartialEq, Eq, Structural)]
pub enum NextStep {
    /// Stop: the task was cancelled.
    Stop,
    /// Ask the source for its latest block.
    QueryLatest,
    /// Fetch the payload of that block.
    Fetch(u64),
}

/// How asking for the latest block went.
#[derive(Clone, Copy, Debug, PartialEq, Eq, Structural)]
pub enum LatestReply {
    /// The task was cancelled meanwhile.
    Cancelled,
    /// The source replied with its latest block.
    Height(u64),
    /// The source failed to reply.
    Failed,
}

/// What to do after asking for the latest block.
#[derive(Clone, Copy, Debug, PartialEq, Eq, Structural)]
pub enum AfterLatest {
    /// Stop: the task was cancelled.
    Stop,
    /// The source has nothing new: wait at its head, then start a new round.
    WaitAtHead,
    /// Fetch the payload of that block.
    Fetch(u64),
}

/// How fetching a payload went.
#[derive(Clone, Copy, Debug, PartialEq, Eq, Structural)]
pub enum PayloadReply {
    /// The task was cancelled meanwhile.
    Cancelled,
    /// The payload came.
    Fetched,
    /// The source does not have the block yet.
    Unavailable,
    /// The fetch failed otherwise.
    Failed,
}

/// A failed fetch, as it is to be reported.
#[derive(Clone, Copy, Debug, PartialEq, Eq, Structural)]
pub struct FailureReport {
    pub block: u64,
    pub attempts: u64,
    pub unavailable: bool,
    pub maximum_backoff_ms: u64,
    /// Whether it is worth a warning.
    pub warn: bool,
}

/// What to do after fetching a payload.
#[derive(Clone, Copy, Debug, PartialEq, Eq, Structural)]
pub enum AfterPayload {
    /// Stop: the task was cancelled.
    Stop,
    /// Queue the payload for the insert loop.
    Queue,
    /// Wait at the source's head, then start a new round.
    WaitAtHead(FailureReport),
    /// Wait out the failure backoff, then start a new round.
    Backoff(FailureReport),
}

/// How queueing a payload went.
#[derive(Clone, Copy, Debug, PartialEq, Eq, Structural)]
pub enum QueueReply {
    /// The task was cancelled meanwhile.
    Cancelled,
    /// The payload is in the queue.
    Queued,
    /// The insert loop is gone.
    Closed,
}

/// What to do after queueing a payload.
#[derive(Clone, Copy, Debug, PartialEq, Eq, Structural)]
pub enum AfterQueue {
    /// Stop: the task was cancelled or nobody takes payloads any more.
    Stop,
    /// Start a new round.
    Continue,
}

/// What ended a wait at the source's head.
#[derive(Clone, Copy, Debug, PartialEq, Eq, Structural)]
pub enum HeadWait {
    /// The task was cancelled.
    Cancelled,
    /// The wait was over.
    Elapsed,
    /// A new head was notified, also one that came before the wait began.
    Changed,
    /// No head will be notified any more.
    Closed,
}

/// What to do after a wait at the source's head.
#[derive(Clone, Copy, Debug, PartialEq, Eq, Structural)]
pub enum AfterHeadWait {
    /// Start a new round.
    Resume,
    /// Let go of the notifications, and sleep that long before starting a new round.
    DropNotifications { sleep_ms: u64 },
}

/// The larger of two numbers.
pub open spec fn larger(a: nat, b: nat) -> nat {
    if a >= b {
        a
    } else {
        b
    }
}

/// A block number plus one, or the same where there is no higher one.
pub open spec fn following(number: nat) -> nat {
    if number < u64::MAX {
        number + 1
    } else {
        number
    }
}

/// What a prefetcher knows when it starts above the local head.
pub open spec fn initial(local_head: nat) -> Progress {
    Progress { next_fetch: following(local_head), source_latest: local_head, failures: 0 }
}

/// What is known at the start of a round, with the height that was notified last. A notified height
/// is looked at only where the known one does not reach, and never lowers it.
pub open spec fn at_round(known: Progress, advertised: Option<u64>) -> Progress {
    if known.next_fetch > known.source_latest && advertised is Some {
        Progress { source_latest: larger(known.source_latest, advertised->0 as nat), ..known }
    } else {
        known
    }
}

/// What is known after asking for the latest block.
pub open spec fn at_latest(known: Progress, reply: LatestReply) -> Progress {
    match reply {
        LatestReply::Height(latest) => Progress { source_latest: latest as nat, ..known },
        _ => known,
    }
}

/// What is known after fetching a payload.
pub open spec fn at_payload(known: Progress, reply: PayloadReply) -> Progress {
    match reply {
        PayloadReply::Unavailable => Progress { failures: known.failures + 1, ..known },
        PayloadReply::Failed => Progress { failures: known.failures + 1, ..known },
        _ => known,
    }
}

/// What is known after queueing a payload.
pub open spec fn at_queue(known: Progress, reply: QueueReply) -> Progress {
    match reply {
        QueueReply::Queued => Progress {
            next_fetch: following(known.next_fetch),
            failures: 0,
            ..known
        },
        _ => known,
    }
}

/// How a failed fetch is reported.
pub open spec fn failure_report(known: Progress, unavailable: bool) -> FailureReport {
    let attempts = known.failures + 1;
    FailureReport {
        block: known.next_fetch as u64,
        attempts: attempts as u64,
        unavailable,
        maximum_backoff_ms: if unavailable {
            SOURCE_HEAD_BACKOFF_MS
        } else {
            SOURCE_FAILURE_BACKOFF_MS
        },
        warn: attempts == 1 || attempts % (PREFETCH_FAILURE_WARN_INTERVAL as nat) == 0,
    }
}

impl View for PayloadPrefetcher {
    type V = Progress;

    closed spec fn view(&self) -> Progress {
        Progress {
            next_fetch: self.next_fetch as nat,
            source_latest: self.source_latest as nat,
            failures: self.consecutive_payload_failures as nat,
        }
    }
}

impl PayloadPrefetcher {
    /// Starts above the head of the local node.
    pub fn new(start_from_local_head: u64) -> (r: PayloadPrefetcher)
        ensures
            r@ == initial(start_from_local_head as nat),
    {
        PayloadPrefetcher {
            next_fetch: start_from_local_head.saturating_add(1),
            source_latest: start_from_local_head,
            consecutive_payload_failures: 0,
        }
    }

    /// The height that the source is known to have.
    pub fn source_latest(&self) -> (r: u64)
        ensures
            r == self@.source_latest,
    {
        self.source_latest
    }

    /// Failed attempts at the next payload since the last success.
    pub fn consecutive_payload_failures(&self) -> (r: u64)
        ensures
            r == self@.failures,
    {
        self.consecutive_payload_failures
    }

    /// Starts a round. A notified height is a hint that there is something to fetch; it spares a
    /// query but does not move the block that comes next.
    pub fn begin(&mut self, cancelled: bool, advertised: Option<u64>) -> (r: NextStep)
        ensures
            cancelled ==> final(self)@ == old(self)@ && r == NextStep::Stop,
            !cancelled ==> final(self)@ == at_round(old(self)@, advertised),
            !cancelled ==> r == (if final(self)@.next_fetch > final(self)@.source_latest {
                NextStep::QueryLatest
            } else {
                NextStep::Fetch(old(self)@.next_fetch as u64)
            }),
    {
        if cancelled {
            return NextStep::Stop;
        }
        if self.next_fetch > self.source_latest {
            if let Some(height) = advertised {
                if height > self.source_latest {
                    self.source_latest = height;
                }
            }
        }
        if self.next_fetch > self.source_latest {
            NextStep::QueryLatest
        } else {
            NextStep::Fetch(self.next_fetch)
        }
    }

    /// Goes on from how asking for the latest block went. A failed query leaves the known height
    /// as it was.
    pub fn on_latest(&mut self, reply: LatestReply) -> (r: AfterLatest)
        ensures
            final(self)@ == at_latest(old(self)@, reply),
            r == (if reply == LatestReply::Cancelled {
                AfterLatest::Stop
            } else if final(self)@.next_fetch > final(self)@.source_latest {
                AfterLatest::WaitAtHead
            } else {
                AfterLatest::Fetch(old(self)@.next_fetch as u64)
            }),
    {
        match reply {
            LatestReply::Cancelled => {
                return AfterLatest::Stop;
            },
            LatestReply::Height(latest) => {
                self.source_latest = refresh_source_latest(self.source_latest, Some(latest));
            },
            LatestReply::Failed => {
                self.source_latest = refresh_source_latest(self.source_latest, None);
            },
        }
        if self.next_fetch > self.source_latest {
            AfterLatest::WaitAtHead
        } else {
            AfterLatest::Fetch(self.next_fetch)
        }
    }

    /// Goes on from how fetching the payload went. A block that the source does not have yet is
    /// waited for at its head, since the payload may follow the announcement of its height; any
    /// other failure waits longer.
    pub fn on_payload(&mut self, reply: PayloadReply) -> (r: AfterPayload)
        requires
            reply == PayloadReply::Unavailable || reply == PayloadReply::Failed ==> old(
                self,
            )@.failures < u64::MAX,
        ensures
            final(self)@ == at_payload(old(self)@, reply),
            r == (match reply {
                PayloadReply::Cancelled => AfterPayload::Stop,
                PayloadReply::Fetched => AfterPayload::Queue,
                PayloadReply::Unavailable => AfterPayload::WaitAtHead(
                    failure_report(old(self)@, true),
                ),
                PayloadReply::Failed => AfterPayload::Backoff(failure_report(old(self)@, false)),
            }),
    {
        match reply {
            PayloadReply::Cancelled => AfterPayload::Stop,
            PayloadReply::Fetched => AfterPayload::Queue,
            PayloadReply::Unavailable => AfterPayload::WaitAtHead(self.fail(true)),
            PayloadReply::Failed => AfterPayload::Backoff(self.fail(false)),
        }
    }

    /// Counts a failed attempt and says how to report it.
    fn fail(&mut self, unavailable: bool) -> (r: FailureReport)
        requires
            old(self)@.failures < u64::MAX,
        ensures
            final(self)@ == (Progress { failures: old(self)@.failures + 1, ..old(self)@ }),
            r == failure_report(old(self)@, unavailable),
    {
        self.consecutive_payload_failures = self.consecutive_payload_failures + 1;
        let attempts = self.consecutive_payload_failures;
        let maximum_backoff_ms = if unavailable {
            SOURCE_HEAD_BACKOFF_MS
        } else {
            SOURCE_FAILURE_BACKOFF_MS
        };
        FailureReport {
            block: self.next_fetch,
            attempts,
            unavailable,
            maximum_backoff_ms,
            warn: attempts == 1 || attempts % PREFETCH_FAILURE_WARN_INTERVAL == 0,
        }
    }

    /// Goes on from how queueing the payload went. Only a payload that is in the queue moves on to
    /// the next block.
    pub fn on_queued(&mut self, reply: QueueReply) -> (r: AfterQueue)
        ensures
            final(self)@ == at_queue(old(self)@, reply),
            r == (if reply == QueueReply::Queued {
                AfterQueue::Continue
            } else {
                AfterQueue::Stop
            }),
    {
        match reply {
            QueueReply::Cancelled => AfterQueue::Stop,
            QueueReply::Closed => AfterQueue::Stop,
            QueueReply::Queued => {
                self.consecutive_payload_failures = 0;
                self.next_fetch = self.next_fetch.saturating_add(1);
                AfterQueue::Continue
            },
        }
    }
}

/// The height that the source is known to have after a query: the one that it replied with, or the
/// one known before where it did not reply.
pub fn refresh_source_latest(current: u64, reply: Option<u64>) -> (r: u64)
    ensures
        r == (match reply {
            Some(latest) => latest,
            None => current,
        }),
{
    match reply {
        Some(latest) => latest,
        None => current,
    }
}

/// Goes on from a wait at the source's head. Closed notifications are let go of, and a sleep takes
/// the place of the wait that they cut short, so that they do not turn waiting into busy polling.
pub fn wait_at_source_head(outcome: HeadWait) -> (r: AfterHeadWait)
    ensures
        r == (if outcome == HeadWait::Closed {
            AfterHeadWait::DropNotifications { sleep_ms: SOURCE_HEAD_BACKOFF_MS }
        } else {
            AfterHeadWait::Resume
        }),
{
    match outcome {
        HeadWait::Closed => AfterHeadWait::DropNotifications { sleep_ms: SOURCE_HEAD_BACKOFF_MS },
        _ => AfterHeadWait::Resume,
    }
}

/// Something that happens to a prefetcher.
pub enum PrefetchEvent {
    /// A round starts, with the height that was notified last.
    Round(Option<u64>),
    /// A query for the latest block ended.
    Latest(LatestReply),
    /// A fetch ended.
    Payload(PayloadReply),
    /// Queueing ended.
    Queue(QueueReply),
}

/// What is known after an event.
pub open spec fn after(known: Progress, event: PrefetchEvent) -> Progress {
    match event {
        PrefetchEvent::Round(advertised) => at_round(known, advertised),
        PrefetchEvent::Latest(reply) => at_latest(known, reply),
        PrefetchEvent::Payload(reply) => at_payload(known, reply),
        PrefetchEvent::Queue(reply) => at_queue(known, reply),
    }
}

/// What is known after a run of events.
pub open spec fn after_all(known: Progress, events: Seq<PrefetchEvent>) -> Progress
    decreases events.len(),
{
    if events.len() == 0 {
        known
    } else {
        after(after_all(known, events.drop_last()), events.last())
    }
}

/// The blocks whose payloads a run of events puts in the queue, in order.
pub open spec fn queued_blocks(known: Progress, events: Seq<PrefetchEvent>) -> Seq<nat>
    decreases events.len(),
{
    if events.len() == 0 {
        Seq::empty()
    } else {
        let before = queued_blocks(known, events.drop_last());
        if events.last() == PrefetchEvent::Queue(QueueReply::Queued) {
            before.push(after_all(known, events.drop_last()).next_fetch)
        } else {
            before
        }
    }
}

/// The block `n` above another, or the highest where there is none.
pub open spec fn block_above(number: nat, n: nat) -> nat {
    if number + n <= u64::MAX {
        number + n
    } else {
        u64::MAX as nat
    }
}

/// Payloads are queued block by block from the one above the local head, whatever heights are
/// notified or replied and whatever fails in between: none is skipped and none comes out of order.
pub proof fn law_payloads_are_queued_in_sequence(local_head: u64, events: Seq<PrefetchEvent>)
    ensures
        ({
            let queued = queued_blocks(initial(local_head as nat), events);
            &&& forall|i: int|
                0 <= i < queued.len() ==> #[trigger] queued[i] == block_above(
                    local_head as nat,
                    (i + 1) as nat,
                )
            &&& after_all(initial(local_head as nat), events).next_fetch == block_above(
                local_head as nat,
                queued.len() + 1,
            )
        }),
    decreases events.len(),
{
    if events.len() > 0 {
        law_payloads_are_queued_in_sequence(local_head, events.drop_last());
    }
}

/// No hint moves the next block: a round and a reply to a query change at most the height that the
/// source is known to have, and a notified height never lowers it.
pub proof fn law_heights_are_hints(known: Progress, advertised: Option<u64>, reply: LatestReply)
    ensures
        at_round(known, advertised).next_fetch == known.next_fetch,
        at_round(known, advertised).failures == known.failures,
        at_round(known, advertised).source_latest >= known.source_latest,
        at_latest(known, reply).next_fetch == known.next_fetch,
        at_latest(known, reply).failures == known.failures,
{
}

/// A failed fetch is tried again: it leaves the next block and the known height as they are.
pub proof fn law_failures_keep_the_place(known: Progress, reply: PayloadReply)
    ensures
        at_payload(known, reply).next_fetch == known.next_fetch,
        at_payload(known, reply).source_latest == known.source_latest,
        at_payload(known, reply).failures <= known.failures + 1,
{
}

/// Whether an event gives a height: as a notification or as the reply of the source.
pub open spec fn gives_height(event: PrefetchEvent, height: nat) -> bool {
    match event {
        PrefetchEvent::Round(Some(advertised)) => advertised == height,
        PrefetchEvent::Latest(LatestReply::Height(latest)) => latest == height,
        _ => false,
    }
}

/// Whether a height was heard of: it is the local head, or one of the events gives it.
pub open spec fn was_heard(height: nat, local_head: nat, events: Seq<PrefetchEvent>) -> bool {
    height == local_head || exists|i: int|
        0 <= i < events.len() && gives_height(#[trigger] events[i], height)
}

/// The height up to which payloads are asked for was always heard of: no block beyond what the
/// source is known to have is fetched.
pub proof fn law_known_height_was_heard(local_head: u64, events: Seq<PrefetchEvent>)
    ensures
        was_heard(
            after_all(initial(local_head as nat), events).source_latest,
            local_head as nat,
            events,
        ),
    decreases events.len(),
{
    if events.len() > 0 {
        let earlier = events.drop_last();
        law_known_height_was_heard(local_head, earlier);
        let known = after_all(initial(local_head as nat), earlier).source_latest;
        let height = after_all(initial(local_head as nat), events).source_latest;
        if height == known {
            if known != local_head {
                let i = choose|i: int|
                    0 <= i < earlier.len() && gives_height(#[trigger] earlier[i], known);
                assert(events[i] == earlier[i]);
            }
        } else {
            assert(gives_height(events[events.len() - 1], height));
        }
    }
}

/// A notified height at or above the next block spares the query, and one below it does not.
pub proof fn law_only_a_sufficient_hint_spares_the_query(known: Progress, advertised: u64)
    requires
        known.next_fetch > known.source_latest,
    ensures
        at_round(known, Some(advertised)).next_fetch <= at_round(
            known,
            Some(advertised),
        ).source_latest <==> advertised >= known.next_fetch,
{
}

/// Fetching starts with the block after the local head, of which alone it is known that the source
/// has it, and without failures.
pub proof fn law_fetching_starts_above_the_local_head(
    local_head: u64,
    r: PayloadPrefetcher,
    latest: u64,
    failures: u64,
)
    requires
        call_ensures(PayloadPrefetcher::new, (local_head,), r),
        call_ensures(PayloadPrefetcher::source_latest, (&r,), latest),
        call_ensures(PayloadPrefetcher::consecutive_payload_failures, (&r,), failures),
    ensures
        local_head < u64::MAX ==> r@.next_fetch == local_head + 1,
        local_head == u64::MAX ==> r@.next_fetch == local_head,
        r@.source_latest == local_head,
        r@.failures == 0,
        latest == local_head,
        failures == 0,
{
}

/// A round fetches the next block where the source is known to have it, by what was known or by an
/// advertised height, and asks the source otherwise. An advertised height is looked at only where the
/// known one does not do, and counts only where it is the larger; nothing else changes. A cancelled
/// prefetcher stops and changes nothing.
pub proof fn law_a_round_fetches_only_what_the_source_has(
    prefetcher: &mut PayloadPrefetcher,
    cancelled: bool,
    advertised: Option<u64>,
    r: NextStep,
)
    requires
        call_ensures(PayloadPrefetcher::begin, (prefetcher, cancelled, advertised), r),
    ensures
        final(prefetcher)@.next_fetch == old(prefetcher)@.next_fetch,
        final(prefetcher)@.failures == old(prefetcher)@.failures,
        cancelled <==> r == NextStep::Stop,
        cancelled ==> final(prefetcher)@.source_latest == old(prefetcher)@.source_latest,
        !cancelled && old(prefetcher)@.next_fetch <= old(prefetcher)@.source_latest
            ==> final(prefetcher)@.source_latest == old(prefetcher)@.source_latest,
        !cancelled && old(prefetcher)@.next_fetch > old(prefetcher)@.source_latest
            ==> final(prefetcher)@.source_latest == (if advertised is Some && advertised->0
            > old(prefetcher)@.source_latest {
            advertised->0 as nat
        } else {
            old(prefetcher)@.source_latest
        }),
        !cancelled && old(prefetcher)@.next_fetch <= final(prefetcher)@.source_latest ==> r
            == NextStep::Fetch(old(prefetcher)@.next_fetch as u64),
        !cancelled && old(prefetcher)@.next_fetch > final(prefetcher)@.source_latest ==> r
            == NextStep::QueryLatest,
{
}

/// The reply to the question for the height is the known height from then on, smaller or larger; a
/// failure keeps the known one. Then the next block is fetched exactly where the source has it.
pub proof fn law_the_height_replied_is_the_height_known(
    prefetcher: &mut PayloadPrefetcher,
    reply: LatestReply,
    r: AfterLatest,
)
    requires
        call_ensures(PayloadPrefetcher::on_latest, (prefetcher, reply), r),
    ensures
        final(prefetcher)@.next_fetch == old(prefetcher)@.next_fetch,
        final(prefetcher)@.failures == old(prefetcher)@.failures,
        reply matches LatestReply::Height(height) ==> final(prefetcher)@.source_latest == height,
        !(reply is Height) ==> final(prefetcher)@.source_latest == old(prefetcher)@.source_latest,
        reply is Cancelled <==> r == AfterLatest::Stop,
        !(reply is Cancelled) && old(prefetcher)@.next_fetch > final(prefetcher)@.source_latest ==> r
            == AfterLatest::WaitAtHead,
        !(reply is Cancelled) && old(prefetcher)@.next_fetch <= final(prefetcher)@.source_latest
            ==> r == AfterLatest::Fetch(old(prefetcher)@.next_fetch as u64),
{
}

/// A fetched payload is queued. One that is not there yet is waited for at the head, up to 200
/// milliseconds; any other failure backs off for a second. Each failure is counted, reported with its
/// block and the count, and warned of at the first and at every fifth.
pub proof fn law_a_failed_fetch_is_counted_and_tried_again(
    prefetcher: &mut PayloadPrefetcher,
    reply: PayloadReply,
    r: AfterPayload,
)
    requires
        call_ensures(PayloadPrefetcher::on_payload, (prefetcher, reply), r),
        old(prefetcher)@.failures < u64::MAX,
    ensures
        final(prefetcher)@.next_fetch == old(prefetcher)@.next_fetch,
        final(prefetcher)@.source_latest == old(prefetcher)@.source_latest,
        reply is Cancelled ==> r == AfterPayload::Stop,
        reply is Fetched ==> r == AfterPayload::Queue,
        reply is Cancelled || reply is Fetched ==> final(prefetcher)@.failures
            == old(prefetcher)@.failures,
        reply is Unavailable || reply is Failed ==> final(prefetcher)@.failures
            == old(prefetcher)@.failures + 1,
        reply is Unavailable ==> (r matches AfterPayload::WaitAtHead(report) && report.unavailable
            && report.maximum_backoff_ms == 200 && report.block == old(prefetcher)@.next_fetch as u64
            && report.attempts == old(prefetcher)@.failures + 1 && report.warn == (report.attempts
            == 1 || report.attempts as nat % 5 == 0)),
        reply is Failed ==> (r matches AfterPayload::Backoff(report) && !report.unavailable
            && report.maximum_backoff_ms == 1000 && report.block == old(prefetcher)@.next_fetch
            as u64 && report.attempts == old(prefetcher)@.failures + 1 && report.warn == (
        report.attempts == 1 || report.attempts as nat % 5 == 0)),
{
}

/// Only a payload that was queued moves on to the next block, and only that forgets the failures;
/// the highest block has no next. A payload that nobody takes, or a cancellation, ends the fetching.
pub proof fn law_only_a_queued_payload_moves_on(
    prefetcher: &mut PayloadPrefetcher,
    reply: QueueReply,
    r: AfterQueue,
)
    requires
        call_ensures(PayloadPrefetcher::on_queued, (prefetcher, reply), r),
    ensures
        reply is Queued <==> r == AfterQueue::Continue,
        !(reply is Queued) <==> r == AfterQueue::Stop,
        reply is Queued && old(prefetcher)@.next_fetch < u64::MAX ==> final(prefetcher)@.next_fetch
            == old(prefetcher)@.next_fetch + 1,
        reply is Queued && old(prefetcher)@.next_fetch >= u64::MAX ==> final(prefetcher)@.next_fetch
            == old(prefetcher)@.next_fetch,
        reply is Queued ==> final(prefetcher)@.failures == 0,
        !(reply is Queued) ==> final(prefetcher)@.next_fetch == old(prefetcher)@.next_fetch
            && final(prefetcher)@.failures == old(prefetcher)@.failures,
        final(prefetcher)@.source_latest == old(prefetcher)@.source_latest,
{
}

/// Two rounds with a queued payload between them fetch neighbouring blocks.
pub proof fn law_rounds_fetch_neighbouring_blocks(
    first: &mut PayloadPrefetcher,
    queued: &mut PayloadPrefetcher,
    second: &mut PayloadPrefetcher,
    advertised: Option<u64>,
    later: Option<u64>,
    a: u64,
    b: u64,
)
    requires
        call_ensures(PayloadPrefetcher::begin, (first, false, advertised), NextStep::Fetch(a)),
        old(queued)@ == final(first)@,
        call_ensures(
            PayloadPrefetcher::on_queued,
            (queued, QueueReply::Queued),
            AfterQueue::Continue,
        ),
        old(second)@ == final(queued)@,
        call_ensures(PayloadPrefetcher::begin, (second, false, later), NextStep::Fetch(b)),
        old(first)@.next_fetch < u64::MAX,
    ensures
        b == a + 1,
{
}

/// The height after a question for it is the one replied, or the one known before where the question
/// failed. A wait at the head goes on with the fetching, but for the end of the notifications: they
/// are dropped, after 200 milliseconds.
pub proof fn law_a_closed_notification_is_dropped_after_a_pause(
    current: u64,
    latest: u64,
    outcome: HeadWait,
    replied: u64,
    failed: u64,
    r: AfterHeadWait,
)
    requires
        call_ensures(refresh_source_latest, (current, Some(latest)), replied),
        call_ensures(refresh_source_latest, (current, None::<u64>), failed),
        call_ensures(wait_at_source_head, (outcome,), r),
    ensures
        replied == latest,
        failed == current,
        outcome is Closed ==> r == (AfterHeadWait::DropNotifications { sleep_ms: 200 }),
        !(outcome is Closed) ==> r == AfterHeadWait::Resume,
{
}

} // verus!

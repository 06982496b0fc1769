//! Prefetching payloads, and queueing updates for the state manager.

use base_flashblocks::prefetcher::{
    refresh_source_latest, wait_at_source_head, AfterHeadWait, AfterLatest, AfterPayload,
    AfterQueue, FailureReport, HeadWait, LatestReply, NextStep, PayloadPrefetcher, PayloadReply,
    QueueReply, PREFETCH_WINDOW, SOURCE_FAILURE_BACKOFF_MS, SOURCE_HEAD_BACKOFF_MS,
};
use base_flashblocks::state::{
    CanonicalBlock, Flashblock, FlashblocksReset, FlashblocksState, Queue, StateUpdate,
    TimedStateUpdate, BUFFER_SIZE, RESET_BUFFER_SIZE,
};
use std::time::{Duration, Instant};

#[test]
fn pushed_height_fetches_next_payload_without_latest_rpc() {
    for advertised in [42, u64::MAX] {
        let mut prefetcher = PayloadPrefetcher::new(41);
        // Even an extreme hint cannot skip a block.
        assert_eq!(prefetcher.begin(false, Some(advertised)), NextStep::Fetch(42));
        assert!(matches!(
            prefetcher.on_payload(PayloadReply::Unavailable),
            AfterPayload::WaitAtHead(_)
        ));
        assert_eq!(prefetcher.begin(true, Some(advertised)), NextStep::Stop);
    }
}

#[test]
fn old_height_hint_keeps_http_fallback_and_sequential_fetch() {
    let mut prefetcher = PayloadPrefetcher::new(41);
    assert_eq!(prefetcher.begin(false, Some(40)), NextStep::QueryLatest);
    assert_eq!(prefetcher.on_latest(LatestReply::Height(42)), AfterLatest::Fetch(42));
}

#[test]
fn advertised_head_payload_race_wakes_on_push_without_one_second_backoff() {
    for pushed in [true, false] {
        let advertised = Some(if pushed { 42 } else { 0 });
        let mut prefetcher = PayloadPrefetcher::new(41);
        if pushed {
            assert_eq!(prefetcher.begin(false, advertised), NextStep::Fetch(42));
        } else {
            assert_eq!(prefetcher.begin(false, advertised), NextStep::QueryLatest);
            assert_eq!(prefetcher.on_latest(LatestReply::Height(42)), AfterLatest::Fetch(42));
        }
        assert_eq!(
            prefetcher.on_payload(PayloadReply::Unavailable),
            AfterPayload::WaitAtHead(FailureReport {
                block: 42,
                attempts: 1,
                unavailable: true,
                maximum_backoff_ms: 200,
                warn: true,
            })
        );
        let woken = if pushed { HeadWait::Changed } else { HeadWait::Elapsed };
        assert_eq!(wait_at_source_head(woken), AfterHeadWait::Resume);
        assert_eq!(prefetcher.begin(false, advertised), NextStep::Fetch(42));
        assert!(matches!(
            prefetcher.on_payload(PayloadReply::Unavailable),
            AfterPayload::WaitAtHead(_)
        ));
        assert_eq!(prefetcher.begin(true, advertised), NextStep::Stop);
    }
}

#[test]
fn closed_notifications_fall_back_without_busy_loop() {
    assert_eq!(
        wait_at_source_head(HeadWait::Closed),
        AfterHeadWait::DropNotifications { sleep_ms: 200 }
    );
}

#[test]
fn cancellation_interrupts_head_wait() {
    assert_eq!(wait_at_source_head(HeadWait::Cancelled), AfterHeadWait::Resume);
    assert_eq!(PayloadPrefetcher::new(41).begin(true, None), NextStep::Stop);
}

#[test]
fn polling_still_advances_without_notifications() {
    let mut prefetcher = PayloadPrefetcher::new(41);
    assert_eq!(prefetcher.begin(false, None), NextStep::QueryLatest);
    assert_eq!(prefetcher.on_latest(LatestReply::Height(41)), AfterLatest::WaitAtHead);
    assert_eq!(wait_at_source_head(HeadWait::Elapsed), AfterHeadWait::Resume);
    assert_eq!(prefetcher.begin(false, None), NextStep::QueryLatest);
    assert_eq!(prefetcher.on_latest(LatestReply::Height(43)), AfterLatest::Fetch(42));
}

#[test]
fn payloads_are_queued_one_after_the_other() {
    let mut prefetcher = PayloadPrefetcher::new(41);
    assert_eq!(prefetcher.begin(false, Some(43)), NextStep::Fetch(42));
    assert_eq!(prefetcher.on_payload(PayloadReply::Fetched), AfterPayload::Queue);
    assert_eq!(prefetcher.on_queued(QueueReply::Queued), AfterQueue::Continue);
    assert_eq!(prefetcher.begin(false, Some(43)), NextStep::Fetch(43));
    assert_eq!(prefetcher.on_payload(PayloadReply::Fetched), AfterPayload::Queue);
    assert_eq!(prefetcher.on_queued(QueueReply::Closed), AfterQueue::Stop);
    assert_eq!(prefetcher.on_queued(QueueReply::Cancelled), AfterQueue::Stop);
    assert_eq!(prefetcher.begin(false, Some(43)), NextStep::Fetch(43));
    assert_eq!(prefetcher.on_payload(PayloadReply::Cancelled), AfterPayload::Stop);
}

#[test]
fn failures_are_counted_reported_and_forgotten_on_success() {
    let mut prefetcher = PayloadPrefetcher::new(0);
    assert_eq!(prefetcher.begin(false, Some(1)), NextStep::Fetch(1));
    let mut warned = Vec::new();
    for attempt in 1..=10 {
        match prefetcher.on_payload(PayloadReply::Failed) {
            AfterPayload::Backoff(report) => {
                assert_eq!((report.block, report.attempts), (1, attempt));
                assert_eq!(report.maximum_backoff_ms, SOURCE_FAILURE_BACKOFF_MS);
                assert!(!report.unavailable);
                if report.warn {
                    warned.push(attempt);
                }
            }
            _ => panic!("a failed fetch backs off"),
        }
    }
    assert_eq!(warned, vec![1, 5, 10]);
    assert_eq!(prefetcher.consecutive_payload_failures(), 10);
    assert_eq!(prefetcher.on_queued(QueueReply::Queued), AfterQueue::Continue);
    assert_eq!(prefetcher.consecutive_payload_failures(), 0);
}

#[test]
fn a_failed_query_keeps_the_known_height() {
    assert_eq!(refresh_source_latest(7, None), 7);
    assert_eq!(refresh_source_latest(7, Some(3)), 3);
    let mut prefetcher = PayloadPrefetcher::new(41);
    assert_eq!(prefetcher.on_latest(LatestReply::Failed), AfterLatest::WaitAtHead);
    assert_eq!(prefetcher.on_latest(LatestReply::Cancelled), AfterLatest::Stop);
}

#[test]
fn the_highest_block_has_no_next() {
    let mut prefetcher = PayloadPrefetcher::new(u64::MAX);
    assert_eq!(prefetcher.begin(false, None), NextStep::Fetch(u64::MAX));
    assert_eq!(prefetcher.on_queued(QueueReply::Queued), AfterQueue::Continue);
    assert_eq!(prefetcher.begin(false, None), NextStep::Fetch(u64::MAX));
}

#[test]
fn waits_and_windows_are_as_documented() {
    assert_eq!((SOURCE_HEAD_BACKOFF_MS, SOURCE_FAILURE_BACKOFF_MS), (200, 1_000));
    assert_eq!(PREFETCH_WINDOW, 50);
    assert_eq!((BUFFER_SIZE, RESET_BUFFER_SIZE), (20, 16));
}

#[test]
fn updates_go_to_the_queue_of_their_kind() {
    let state = FlashblocksState::new(5);
    assert_eq!(state.max_pending_blocks_depth(), 5);
    assert_eq!(FlashblocksState::default().max_pending_blocks_depth(), 10);
    let before = Instant::now();
    let canonical =
        state.on_canonical_block_received::<_, u8>(CanonicalBlock { number: 9, block: "block" });
    assert_eq!(canonical.queue, Queue::Canonical);
    assert_eq!((canonical.block_number, canonical.flashblock_index), (9, None));
    assert!(matches!(canonical.message.update, StateUpdate::Canonical("block")));
    assert!(canonical.message.received_at >= before);
    let flashblock = state.on_flashblock_received::<u8, _>(Flashblock {
        index: 3,
        block_number: 9,
        payload: "payload",
    });
    assert_eq!(flashblock.queue, Queue::Flashblock);
    assert_eq!((flashblock.block_number, flashblock.flashblock_index), (9, Some(3)));
    assert!(matches!(flashblock.message.update, StateUpdate::Flashblock("payload")));
    assert!(flashblock.message.received_at >= canonical.message.received_at);
}

#[test]
fn an_update_keeps_the_time_it_was_received_at() {
    let received_at = Instant::now() - Duration::from_millis(1);
    let update: TimedStateUpdate<u8, u8> =
        TimedStateUpdate::received(received_at, StateUpdate::Canonical(1));
    assert_eq!(update.received_at, received_at);
    let stamped: TimedStateUpdate<u8, u8> = TimedStateUpdate::new(StateUpdate::Flashblock(2));
    assert!(stamped.received_at > received_at);
    assert!(matches!(stamped.update, StateUpdate::Flashblock(2)));
}

#[test]
fn resets_are_compared_by_block_and_index() {
    let reset = FlashblocksReset { block_number: 1, flashblock_index: 2 };
    assert_eq!(reset, FlashblocksReset { block_number: 1, flashblock_index: 2 });
    assert_ne!(reset, FlashblocksReset { block_number: 1, flashblock_index: 3 });
}

#[test]
fn a_run_of_updates_reaches_each_queue_in_order() {
    let state = FlashblocksState::default();
    let flashblock = |index: u64, payload: &'static str| {
        state.on_flashblock_received(Flashblock { index, block_number: 9, payload })
    };
    let run = vec![
        flashblock(0, "first"),
        state.on_canonical_block_received(CanonicalBlock { number: 8, block: "block" }),
        flashblock(1, "second"),
        flashblock(1, "second"),
    ];
    let mut flashblocks = Vec::new();
    let mut canonical = Vec::new();
    for queued in run {
        match (queued.queue, queued.message.update) {
            (Queue::Flashblock, StateUpdate::Flashblock(payload)) => flashblocks.push(payload),
            (Queue::Canonical, StateUpdate::Canonical(block)) => canonical.push(block),
            _ => panic!("an update is in the wrong queue"),
        }
    }
    assert_eq!(flashblocks, vec!["first", "second", "second"]);
    assert_eq!(canonical, vec!["block"]);
}

#[test]
fn the_known_height_is_the_last_one_that_counted() {
    let mut prefetcher = PayloadPrefetcher::new(41);
    assert_eq!(prefetcher.source_latest(), 41);
    prefetcher.begin(false, Some(40));
    assert_eq!(prefetcher.source_latest(), 41);
    prefetcher.on_latest(LatestReply::Failed);
    assert_eq!(prefetcher.source_latest(), 41);
    prefetcher.on_latest(LatestReply::Height(43));
    assert_eq!(prefetcher.source_latest(), 43);
    prefetcher.begin(false, Some(50));
    assert_eq!(prefetcher.source_latest(), 43);
}

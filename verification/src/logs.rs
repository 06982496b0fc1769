//! Log queries whose range ends in the pending state.
use crate::block_id::BlockNumberOrTag;
use crate::primitives::Word;
use alloy_primitives::map::foldhash::{HashSet, HashSetExt};
use vstd::prelude::*;

verus! {

/// The hasher state of the set that finds logs again.
#[verifier::external_type_specification]
#[verifier::external_body]
pub struct ExRandomState(alloy_primitives::map::foldhash::fast::RandomState);

/// What a log is found again by: its block number and its index in the block.
pub type LogKey = (Option<u64>, Option<u64>);

/// What a set of log keys holds.
pub uninterp spec fn log_keys_of(set: HashSet<(Option<u64>, Option<u64>)>) -> Set<
    (Option<u64>, Option<u64>),
>;

/// No log key.
pub open spec fn no_log_keys() -> Set<LogKey> {
    Set::empty()
}

/// An empty set, from `HashSetExt::new` of `foldhash`.
#[verifier::external_body]
fn log_keys_new() -> (r: HashSet<(Option<u64>, Option<u64>)>)
    ensures
        log_keys_of(r) == no_log_keys(),
{
    HashSet::new()
}

/// Adds a key with `insert` of `foldhash`'s hash set; one that is there already stays.
#[verifier::external_body]
fn log_keys_insert(set: &mut HashSet<(Option<u64>, Option<u64>)>, key: LogKey)
    ensures
        log_keys_of(*final(set)) == log_keys_of(*old(set)).insert(key),
{
    set.insert(key);
}

/// Whether a key is in the set, from `contains` of `foldhash`'s hash set.
#[verifier::external_body]
fn log_keys_contains(set: &HashSet<(Option<u64>, Option<u64>)>, key: LogKey) -> (r: bool)
    ensures
        r == log_keys_of(*set).contains(key),
{
    set.contains(&key)
}

/// The blocks that a log query is about.
#[derive(Clone, Copy, Debug, PartialEq, Eq)]
pub enum FilterBlockOption {
    /// From one block to another, both of them included.
    Range { from_block: Option<BlockNumberOrTag>, to_block: Option<BlockNumberOrTag> },
    /// The block of that hash.
    AtBlockHash(Word),
}

/// A log with the position that it is found again by.
#[derive(Debug, PartialEq, Eq)]
pub struct Log<Data> {
    pub block_number: Option<u64>,
    pub log_index: Option<u64>,
    pub data: Data,
}

impl<Data> Log<Data> {
    /// What the log is found again by.
    pub open spec fn key(self) -> LogKey {
        (self.block_number, self.log_index)
    }
}

/// Where the logs of a query come from.
#[derive(Clone, Copy, Debug, PartialEq, Eq)]
pub enum LogsPlan {
    /// The canonical chain alone; the query goes there unchanged.
    Canonical,
    /// The pending state alone.
    Pending,
    /// The canonical chain over the given blocks, then the pending state.
    Mixed { historical: FilterBlockOption },
}

/// Whether the query's range ends at `pending`.
pub open spec fn ends_at_pending(blocks: FilterBlockOption) -> bool {
    blocks matches FilterBlockOption::Range { to_block, .. } && to_block == Some(
        BlockNumberOrTag::Pending,
    )
}

/// Whether the query's range starts at `pending`.
pub open spec fn starts_at_pending(blocks: FilterBlockOption) -> bool {
    blocks matches FilterBlockOption::Range { from_block, .. } && from_block == Some(
        BlockNumberOrTag::Pending,
    )
}

/// Decides where the logs of a query come from. Only a range that ends at `pending` takes the
/// pending state in; its canonical part, unless it starts at `pending` too, runs from its start to
/// the latest block.
pub fn get_logs_plan(blocks: FilterBlockOption) -> (r: LogsPlan)
    ensures
        !ends_at_pending(blocks) ==> r == LogsPlan::Canonical,
        ends_at_pending(blocks) && starts_at_pending(blocks) ==> r == LogsPlan::Pending,
        ends_at_pending(blocks) && !starts_at_pending(blocks) ==> r == (LogsPlan::Mixed {
            historical: FilterBlockOption::Range {
                from_block: blocks->from_block,
                to_block: Some(BlockNumberOrTag::Latest),
            },
        }),
{
    let (from_block, to_block) = match blocks {
        FilterBlockOption::Range { from_block, to_block } => (from_block, to_block),
        FilterBlockOption::AtBlockHash(_) => {
            return LogsPlan::Canonical;
        },
    };
    if !matches!(to_block, Some(BlockNumberOrTag::Pending)) {
        return LogsPlan::Canonical;
    }
    if matches!(from_block, Some(BlockNumberOrTag::Pending)) {
        LogsPlan::Pending
    } else {
        LogsPlan::Mixed {
            historical: FilterBlockOption::Range {
                from_block,
                to_block: Some(BlockNumberOrTag::Latest),
            },
        }
    }
}

/// The keys of the logs.
pub open spec fn keys_of<Data>(logs: Seq<Log<Data>>) -> Set<LogKey> {
    Set::new(|key: LogKey| exists|i: int| 0 <= i < logs.len() && (#[trigger] logs[i]).key() == key)
}

/// The logs whose key is not in `seen`, in their order.
pub open spec fn unseen<Data>(logs: Seq<Log<Data>>, seen: Set<LogKey>) -> Seq<Log<Data>> {
    logs.filter(|log: Log<Data>| !seen.contains(log.key()))
}

/// The answer to a query over canonical and pending logs: all canonical ones, then those pending
/// ones that are not among them.
pub open spec fn combined<Data>(historical: Seq<Log<Data>>, pending: Seq<Log<Data>>) -> Seq<
    Log<Data>,
> {
    historical + unseen(pending, keys_of(historical))
}

/// Puts the logs of a query together. A pending log that the canonical chain has by now answered
/// for, as its block number and index show, is not repeated.
pub fn combine_logs<Data>(historical: Vec<Log<Data>>, pending: Vec<Log<Data>>) -> (r: Vec<
    Log<Data>,
>)
    ensures
        r@ == combined(historical@, pending@),
{
    let mut fetched = log_keys_new();
    let mut i: usize = 0;
    while i < historical.len()
        invariant
            i <= historical.len(),
            log_keys_of(fetched) == keys_of(historical@.take(i as int)),
        decreases historical.len() - i,
    {
        log_keys_insert(&mut fetched, (historical[i].block_number, historical[i].log_index));
        proof {
            let before = historical@.take(i as int);
            let after = historical@.take(i + 1);
            let key = historical@[i as int].key();
            assert forall|k: LogKey| keys_of(after).contains(k) <==> k == key || keys_of(
                before,
            ).contains(k) by {
                if keys_of(before).contains(k) {
                    let j = choose|j: int|
                        0 <= j < before.len() && (#[trigger] before[j]).key() == k;
                    assert(after[j].key() == k);
                }
                if k == key {
                    assert(after[i as int].key() == k);
                }
                if keys_of(after).contains(k) && k != key {
                    let j = choose|j: int| 0 <= j < after.len() && (#[trigger] after[j]).key() == k;
                    assert(before[j].key() == k);
                }
            }
            assert(keys_of(after) =~= keys_of(before).insert(key));
        }
        i = i + 1;
    }
    assert(historical@.take(i as int) =~= historical@);
    let ghost seen = keys_of(historical@);
    let mut all_logs = historical;
    for log in it: pending
        invariant
            it.seq() == pending@,
            log_keys_of(fetched) == seen,
            all_logs@ == historical@ + unseen(pending@.take(it.index() as int), seen),
    {
        let ghost n = it.index() as int;
        proof {
            reveal(Seq::filter);
            assert(pending@.take(n + 1).drop_last() =~= pending@.take(n));
        }
        if !log_keys_contains(&fetched, (log.block_number, log.log_index)) {
            all_logs.push(log);
        }
    }
    assert(pending@.take(pending@.len() as int) =~= pending@);
    all_logs
}

/// What a query over canonical and pending logs returns: the logs put together, or the error of
/// the canonical query.
pub fn get_logs_reply<Data, E>(historical: Result<Vec<Log<Data>>, E>, pending: Vec<Log<Data>>) -> (r:
    Result<Vec<Log<Data>>, E>)
    ensures
        match historical {
            Ok(logs) => r matches Ok(all) && all@ == combined(logs@, pending@),
            Err(error) => r == Err::<Vec<Log<Data>>, E>(error),
        },
{
    match historical {
        Ok(logs) => Ok(combine_logs(logs, pending)),
        Err(error) => Err(error),
    }
}

proof fn lemma_unseen<Data>(logs: Seq<Log<Data>>, seen: Set<LogKey>)
    ensures
        forall|i: int|
            0 <= i < unseen(logs, seen).len() ==> !seen.contains(
                (#[trigger] unseen(logs, seen)[i]).key(),
            ) && logs.contains(unseen(logs, seen)[i]),
        forall|i: int|
            0 <= i < logs.len() && !seen.contains((#[trigger] logs[i]).key()) ==> unseen(
                logs,
                seen,
            ).contains(logs[i]),
    decreases logs.len(),
{
    reveal(Seq::filter);
    if logs.len() > 0 {
        let rest = logs.drop_last();
        lemma_unseen(rest, seen);
        let kept = unseen(rest, seen);
        let all = unseen(logs, seen);
        assert forall|i: int| 0 <= i < all.len() implies !seen.contains((#[trigger] all[i]).key())
            && logs.contains(all[i]) by {
            if i < kept.len() {
                assert(all[i] == kept[i]);
                let j = rest.index_of(kept[i]);
                assert(logs[j] == kept[i]);
            } else {
                assert(all[i] == logs.last());
            }
        }
        assert forall|i: int|
            0 <= i < logs.len() && !seen.contains((#[trigger] logs[i]).key()) implies all.contains(
            logs[i],
        ) by {
            if i < rest.len() {
                assert(rest[i] == logs[i]);
                let j = kept.index_of(logs[i]);
                assert(all[j] == logs[i]);
            } else {
                assert(all[all.len() - 1] == logs[i]);
            }
        }
    }
}

/// The canonical logs come first and unchanged, and no log behind them repeats one of them.
pub proof fn law_canonical_logs_come_first_and_once<Data>(
    historical: Seq<Log<Data>>,
    pending: Seq<Log<Data>>,
)
    ensures
        combined(historical, pending).len() >= historical.len(),
        combined(historical, pending).take(historical.len() as int) == historical,
        forall|i: int|
            historical.len() <= i < combined(historical, pending).len() ==> !keys_of(
                historical,
            ).contains((#[trigger] combined(historical, pending)[i]).key()),
{
    lemma_unseen(pending, keys_of(historical));
    assert(combined(historical, pending).take(historical.len() as int) =~= historical);
    assert forall|i: int|
        historical.len() <= i < combined(historical, pending).len() implies !keys_of(
        historical,
    ).contains((#[trigger] combined(historical, pending)[i]).key()) by {
        let rest = unseen(pending, keys_of(historical));
        assert(combined(historical, pending)[i] == rest[i - historical.len()]);
    }
}

/// No position is lost and none is made up: the answer covers exactly the positions that the
/// canonical and the pending logs cover.
pub proof fn law_no_log_is_lost<Data>(historical: Seq<Log<Data>>, pending: Seq<Log<Data>>)
    ensures
        keys_of(combined(historical, pending)) == keys_of(historical).union(keys_of(pending)),
{
    let seen = keys_of(historical);
    let rest = unseen(pending, seen);
    let all = combined(historical, pending);
    lemma_unseen(pending, seen);
    assert forall|k: LogKey| keys_of(all).contains(k) <==> seen.contains(k) || keys_of(
        pending,
    ).contains(k) by {
        if keys_of(all).contains(k) {
            let i = choose|i: int| 0 <= i < all.len() && (#[trigger] all[i]).key() == k;
            if i < historical.len() {
                assert(historical[i].key() == k);
            } else {
                assert(rest[i - historical.len()].key() == k);
                let j = pending.index_of(rest[i - historical.len()]);
                assert(pending[j].key() == k);
            }
        }
        if seen.contains(k) {
            let i = choose|i: int|
                0 <= i < historical.len() && (#[trigger] historical[i]).key() == k;
            assert(all[i].key() == k);
        } else if keys_of(pending).contains(k) {
            let i = choose|i: int| 0 <= i < pending.len() && (#[trigger] pending[i]).key() == k;
            let j = rest.index_of(pending[i]);
            assert(all[historical.len() + j].key() == k);
        }
    }
    assert(keys_of(all) =~= seen.union(keys_of(pending)));
}

/// A query that starts and ends at `pending` answers with the pending logs alone.
pub proof fn law_without_canonical_logs_all_pending_ones_stay<Data>(pending: Seq<Log<Data>>)
    ensures
        combined(Seq::<Log<Data>>::empty(), pending) == pending,
    decreases pending.len(),
{
    reveal(Seq::filter);
    let none = keys_of(Seq::<Log<Data>>::empty());
    if pending.len() > 0 {
        law_without_canonical_logs_all_pending_ones_stay(pending.drop_last());
        assert(combined(Seq::<Log<Data>>::empty(), pending.drop_last()) =~= unseen(
            pending.drop_last(),
            none,
        ));
        assert(pending =~= pending.drop_last().push(pending.last()));
    }
    assert(combined(Seq::<Log<Data>>::empty(), pending) =~= pending);
}

/// A range that ends at `pending` takes the canonical logs from its start, whatever that is, to the
/// latest block, unless its start is `pending` itself. Every other query goes to the chain.
pub proof fn law_a_range_to_pending_takes_all_canonical_logs_in(
    from_block: Option<BlockNumberOrTag>,
    to_block: Option<BlockNumberOrTag>,
    hash: Word,
    ranged: LogsPlan,
    hashed: LogsPlan,
)
    requires
        call_ensures(get_logs_plan, (FilterBlockOption::Range { from_block, to_block },), ranged),
        call_ensures(get_logs_plan, (FilterBlockOption::AtBlockHash(hash),), hashed),
    ensures
        hashed == LogsPlan::Canonical,
        to_block != Some(BlockNumberOrTag::Pending) ==> ranged == LogsPlan::Canonical,
        to_block == Some(BlockNumberOrTag::Pending) && from_block != Some(
            BlockNumberOrTag::Pending,
        ) ==> ranged == (LogsPlan::Mixed {
            historical: FilterBlockOption::Range {
                from_block,
                to_block: Some(BlockNumberOrTag::Latest),
            },
        }),
        to_block == Some(BlockNumberOrTag::Pending) && from_block == Some(BlockNumberOrTag::Pending)
            ==> ranged == LogsPlan::Pending,
{
}

/// Pending logs are taken up one by one behind the canonical ones, which come first as they are. One
/// more pending log is added at the end, as it is, where no canonical log has its block number and
/// index, and changes nothing where one has.
pub proof fn law_pending_logs_are_taken_up_one_by_one<Data>(
    historical: Vec<Log<Data>>,
    before: Vec<Log<Data>>,
    log: Log<Data>,
    after: Vec<Log<Data>>,
    without: Vec<Log<Data>>,
    with: Vec<Log<Data>>,
)
    requires
        after@ == before@.push(log),
        call_ensures(combine_logs::<Data>, (historical, before), without),
        call_ensures(combine_logs::<Data>, (historical, after), with),
    ensures
        before@.len() == 0 ==> without@ == historical@,
        (exists|h: int|
            0 <= h < historical@.len() && (#[trigger] historical@[h]).block_number
                == log.block_number && historical@[h].log_index == log.log_index) ==> with@
            == without@,
        (forall|h: int|
            0 <= h < historical@.len() ==> (#[trigger] historical@[h]).block_number
                != log.block_number || historical@[h].log_index != log.log_index) ==> with@
            == without@.push(log),
{
    reveal(Seq::filter);
    let seen = keys_of(historical@);
    assert(after@.drop_last() =~= before@);
    assert(after@.last() == log);
    if before@.len() == 0 {
        assert(unseen(before@, seen) =~= Seq::<Log<Data>>::empty());
        assert(without@ =~= historical@);
    }
    if exists|h: int|
        0 <= h < historical@.len() && (#[trigger] historical@[h]).block_number == log.block_number
            && historical@[h].log_index == log.log_index {
        let h = choose|h: int|
            0 <= h < historical@.len() && (#[trigger] historical@[h]).block_number
                == log.block_number && historical@[h].log_index == log.log_index;
        assert(historical@[h].key() == log.key());
        assert(seen.contains(log.key()));
    } else {
        assert(!seen.contains(log.key()));
        assert(unseen(after@, seen) == unseen(before@, seen).push(log));
        assert(with@ =~= without@.push(log));
    }
}

/// A pending log is in the answer, behind the canonical ones, where no canonical log has its block
/// number and index.
pub proof fn law_a_pending_log_is_left_out_only_if_repeated<Data>(
    historical: Vec<Log<Data>>,
    pending: Vec<Log<Data>>,
    r: Vec<Log<Data>>,
    n: int,
)
    requires
        call_ensures(combine_logs::<Data>, (historical, pending), r),
        0 <= n < pending@.len(),
        forall|h: int|
            0 <= h < historical@.len() ==> (#[trigger] historical@[h]).block_number
                != pending@[n].block_number || historical@[h].log_index != pending@[n].log_index,
    ensures
        exists|i: int| historical@.len() <= i < r@.len() && #[trigger] r@[i] == pending@[n],
{
    let rest = unseen(pending@, keys_of(historical@));
    lemma_unseen(pending@, keys_of(historical@));
    assert(!keys_of(historical@).contains(pending@[n].key()));
    let i = rest.index_of(pending@[n]);
    assert(r@[historical@.len() + i] == pending@[n]);
}

/// No log behind the canonical ones has the block number and index of one of them.
pub proof fn law_no_canonical_log_is_repeated<Data>(
    historical: Vec<Log<Data>>,
    pending: Vec<Log<Data>>,
    r: Vec<Log<Data>>,
    h: int,
    i: int,
)
    requires
        call_ensures(combine_logs::<Data>, (historical, pending), r),
        0 <= h < historical@.len() <= i < r@.len(),
    ensures
        r@[i].block_number != historical@[h].block_number || r@[i].log_index
            != historical@[h].log_index,
{
    let rest = unseen(pending@, keys_of(historical@));
    lemma_unseen(pending@, keys_of(historical@));
    assert(r@[i] == rest[i - historical@.len()]);
    if r@[i].block_number == historical@[h].block_number && r@[i].log_index
        == historical@[h].log_index {
        assert(historical@[h].key() == r@[i].key());
        assert(keys_of(historical@).contains(r@[i].key()));
    }
}

/// The reply is what the logs of both sides put together give, or the failure of the canonical
/// query.
pub proof fn law_the_reply_is_the_logs_put_together<Data, E>(
    historical: Vec<Log<Data>>,
    error: E,
    pending: Vec<Log<Data>>,
    together: Vec<Log<Data>>,
    r: Result<Vec<Log<Data>>, E>,
    failed: Result<Vec<Log<Data>>, E>,
)
    requires
        call_ensures(combine_logs::<Data>, (historical, pending), together),
        call_ensures(
            get_logs_reply::<Data, E>,
            (Ok::<Vec<Log<Data>>, E>(historical), pending),
            r,
        ),
        call_ensures(
            get_logs_reply::<Data, E>,
            (Err::<Vec<Log<Data>>, E>(error), pending),
            failed,
        ),
    ensures
        r is Ok && r->Ok_0@ == together@,
        failed == Err::<Vec<Log<Data>>, E>(error),
{
}

} // verus!

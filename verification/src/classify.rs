//! The activity classifier: how many streams logged an event within a
//! recency window of a whole number of days before a reference instant.

use vstd::prelude::*;
use crate::stream::StreamRecord;

verus! {

/// Seconds in one whole day.
pub const SECONDS_PER_DAY: u64 = 86400;

/// An instant in milliseconds since the Unix epoch, truncated to whole
/// seconds: any remainder below one second is discarded before instants
/// are compared.
pub open spec fn whole_seconds(ms: u64) -> int {
    ms as int / 1000
}

/// Whether a stream with last event `last_event_ms` is active within the
/// window of `days` whole days before the reference instant `now_ms`:
/// its last event exists and lies strictly after the instant `days` whole
/// days before `now_ms`. A stream that never received an event is never
/// active.
pub open spec fn is_active(last_event_ms: Option<u64>, now_ms: u64, days: u64) -> bool {
    match last_event_ms {
        Some(ms) => whole_seconds(ms) + days * SECONDS_PER_DAY > whole_seconds(now_ms),
        None => false,
    }
}

/// How many of the streams are active within the window of `days` whole
/// days before `now_ms`.
pub open spec fn active_count(streams: Seq<StreamRecord>, now_ms: u64, days: u64) -> int
    decreases streams.len(),
{
    if streams.len() == 0 {
        0
    } else {
        active_count(streams.drop_last(), now_ms, days)
            + if is_active(streams.last().last_event_ms, now_ms, days) {
                1int
            } else {
                0int
            }
    }
}

/// Decides whether one stream is active within the window of `days` whole
/// days before `now_ms`.
pub fn stream_is_active(rec: &StreamRecord, now_ms: u64, days: u64) -> (b: bool)
    ensures
        b == is_active(rec.last_event_ms, now_ms, days),
{
    match &rec.last_event_ms {
        Some(ms) => {
            let last_s: u128 = *ms as u128 / 1000;
            let now_s: u128 = now_ms as u128 / 1000;
            let window_s: u128 = days as u128 * SECONDS_PER_DAY as u128;
            last_s + window_s > now_s
        },
        None => false,
    }
}

/// The three counts of one classification: how many streams were active
/// within the last 30, 7 and 1 days. The windows are nested, not a
/// partition: a stream active within the last day is also counted in the
/// weekly and monthly totals.
pub struct ActivityCounts {
    pub monthly: usize,
    pub weekly: usize,
    pub daily: usize,
}

/// Counts the streams that are active within the window of `days` whole
/// days before `now_ms`. The count is a pure aggregate over the list,
/// independent of the order in which the streams were fetched.
pub fn count_active(streams: &Vec<StreamRecord>, now_ms: u64, days: u64) -> (n: usize)
    ensures
        n == active_count(streams@, now_ms, days),
{
    let mut n: usize = 0;
    let mut i: usize = 0;
    while i < streams.len()
        invariant
            i <= streams@.len(),
            n <= i,
            n == active_count(streams@.take(i as int), now_ms, days),
        decreases streams@.len() - i,
    {
        if stream_is_active(&streams[i], now_ms, days) {
            n = n + 1;
        }
        proof {
            assert(streams@.take(i + 1).drop_last() =~= streams@.take(i as int));
        }
        i = i + 1;
    }
    proof {
        assert(streams@.take(streams@.len() as int) =~= streams@);
    }
    n
}

/// Classifies the whole stream list once for each of the three windows,
/// all against the same reference instant and over the same input set.
pub fn classify(streams: &Vec<StreamRecord>, now_ms: u64) -> (c: ActivityCounts)
    ensures
        c.monthly == active_count(streams@, now_ms, 30),
        c.weekly == active_count(streams@, now_ms, 7),
        c.daily == active_count(streams@, now_ms, 1),
{
    ActivityCounts {
        monthly: count_active(streams, now_ms, 30),
        weekly: count_active(streams, now_ms, 7),
        daily: count_active(streams, now_ms, 1),
    }
}

/// Law: the windows are nested supersets. For one stream set and one
/// reference instant, a shorter window never counts more streams than a
/// longer one: the counts are monotonic in the window length.
pub proof fn lemma_active_count_monotonic(
    streams: Seq<StreamRecord>,
    now_ms: u64,
    d1: u64,
    d2: u64,
)
    requires
        d1 <= d2,
    ensures
        active_count(streams, now_ms, d1) <= active_count(streams, now_ms, d2),
    decreases streams.len(),
{
    if streams.len() > 0 {
        lemma_active_count_monotonic(streams.drop_last(), now_ms, d1, d2);
    }
}

/// Law: a stream with no recorded last-event instant is never active and
/// is excluded from every window's count, whatever the window length.
pub proof fn lemma_never_logged_excluded(
    streams: Seq<StreamRecord>,
    rec: StreamRecord,
    now_ms: u64,
    days: u64,
)
    requires
        rec.last_event_ms is None,
    ensures
        !is_active(rec.last_event_ms, now_ms, days),
        active_count(streams.push(rec), now_ms, days) == active_count(streams, now_ms, days),
{
    assert(streams.push(rec).drop_last() =~= streams);
}

/// Law: the cutoff comparison is strict. A stream whose last event falls
/// exactly `days` whole days before the reference instant is not counted.
pub proof fn lemma_boundary_excluded(ms: u64, now_ms: u64, days: u64)
    requires
        whole_seconds(ms) == whole_seconds(now_ms) - days * SECONDS_PER_DAY,
    ensures
        !is_active(Some(ms), now_ms, days),
{
}

/// Removing one stream from the list lowers the count by exactly that
/// stream's own contribution, wherever in the list it stands.
pub proof fn lemma_active_count_drops_one(s: Seq<StreamRecord>, j: int, now_ms: u64, days: u64)
    requires
        0 <= j < s.len(),
    ensures
        active_count(s, now_ms, days) == active_count(s.remove(j), now_ms, days) + if is_active(
            s[j].last_event_ms,
            now_ms,
            days,
        ) {
            1int
        } else {
            0int
        },
    decreases s.len(),
{
    if j == s.len() - 1 {
        assert(s.remove(j) =~= s.drop_last());
    } else {
        lemma_active_count_drops_one(s.drop_last(), j, now_ms, days);
        assert(s.remove(j).drop_last() =~= s.drop_last().remove(j));
        assert(s.remove(j).last() == s.last());
    }
}

/// Law: the count is a pure aggregate over the set of streams, commutative
/// and independent of the order in which the service handed them out: two
/// lists holding the same streams give the same count for every window.
pub proof fn lemma_active_count_order_independent(
    s1: Seq<StreamRecord>,
    s2: Seq<StreamRecord>,
    now_ms: u64,
    days: u64,
)
    requires
        s1.to_multiset() == s2.to_multiset(),
    ensures
        active_count(s1, now_ms, days) == active_count(s2, now_ms, days),
    decreases s1.len(),
{
    broadcast use vstd::seq_lib::group_to_multiset_ensures;

    if s1.len() == 0 {
        assert(s2.to_multiset().len() == 0);
        assert(s2.len() == 0);
    } else {
        let x = s1.last();
        assert(s1.to_multiset().count(x) > 0) by {
            assert(s1.contains(x));
        }
        assert(s2.contains(x));
        let j: int = choose|j: int| 0 <= j < s2.len() && s2[j] == x;
        lemma_active_count_drops_one(s2, j, now_ms, days);
        assert(s1.remove(s1.len() - 1) =~= s1.drop_last());
        assert(s1.drop_last().to_multiset() =~= s1.to_multiset().remove(x));
        assert(s2.remove(j).to_multiset() =~= s2.to_multiset().remove(x));
        lemma_active_count_order_independent(s1.drop_last(), s2.remove(j), now_ms, days);
    }
}

/// Law: classification is a pure function of the stream list and the
/// reference instant. Any two counts taken over the same frozen input are
/// equal, so running the classifier twice changes nothing.
pub proof fn lemma_count_idempotent(
    streams: Seq<StreamRecord>,
    now_ms: u64,
    days: u64,
    first: int,
    second: int,
)
    requires
        first == active_count(streams, now_ms, days),
        second == active_count(streams, now_ms, days),
    ensures
        first == second,
{
}

} // verus!

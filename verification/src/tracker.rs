//! The ARP activity tracker: a time-windowed counter of unanswered ARP
//! requests keyed by address pairs, and the laws that govern when a pair
//! crosses the detection threshold.

use crate::net::AddressPair;
use std::collections::HashMap;
use vstd::prelude::*;

verus! {

broadcast use vstd::std_specs::hash::group_hash_axioms;

/// One pair's activity within its current window.
#[derive(Clone, Copy, PartialEq, Eq, Structural, Debug)]
pub struct ActivityRecord {
    pub count: u32,
    pub window_start: u64,
}

/// The stored record for `key`, if any.
pub open spec fn spec_stored(m: Map<u64, ActivityRecord>, key: u64) -> Option<ActivityRecord> {
    if m.contains_key(key) {
        Some(m[key])
    } else {
        None
    }
}

/// The record a request at `now` counts into: the stored record while its
/// window is still open, otherwise a fresh zero count whose window starts at
/// `now`. A window is open while no more than `timeout` time units have
/// passed since it started.
pub open spec fn spec_effective_record(
    stored: Option<ActivityRecord>,
    now: u64,
    timeout: u64,
) -> ActivityRecord {
    match stored {
        Some(rec) => {
            if now - rec.window_start > timeout {
                ActivityRecord { count: 0, window_start: now }
            } else {
                rec
            }
        },
        None => ActivityRecord { count: 0, window_start: now },
    }
}

/// Whether a request for `key` at `now` makes the pair's in-window count
/// reach the threshold.
pub open spec fn spec_request_hits(
    m: Map<u64, ActivityRecord>,
    key: u64,
    now: u64,
    threshold: u32,
    timeout: u64,
) -> bool {
    spec_effective_record(spec_stored(m, key), now, timeout).count + 1 >= threshold
}

/// The tracker map after one request for `key` at `now`: on a threshold
/// crossing the record is consumed (removed); otherwise the incremented
/// record is stored.
pub open spec fn spec_map_after_request(
    m: Map<u64, ActivityRecord>,
    key: u64,
    now: u64,
    threshold: u32,
    timeout: u64,
) -> Map<u64, ActivityRecord> {
    let eff = spec_effective_record(spec_stored(m, key), now, timeout);
    if spec_request_hits(m, key, now, threshold, timeout) {
        m.remove(key)
    } else {
        m.insert(
            key,
            ActivityRecord { count: (eff.count + 1) as u32, window_start: eff.window_start },
        )
    }
}

/// The tracker map after a reply for `key`: any record is dropped
/// unconditionally, since a reply proves the target is live.
pub open spec fn spec_map_after_reply(m: Map<u64, ActivityRecord>, key: u64) -> Map<
    u64,
    ActivityRecord,
> {
    m.remove(key)
}

/// Every stored count lies strictly below `threshold`: a record that
/// reaches the threshold is consumed into a detection at once, never stored.
pub open spec fn spec_counts_below(m: Map<u64, ActivityRecord>, threshold: u32) -> bool {
    forall|k: u64| m.contains_key(k) ==> #[trigger] m[k].count < threshold
}

/// A time-windowed counter of unanswered ARP requests, keyed by
/// (target, sender) address pairs. `record_request` reports when a pair
/// newly crosses the configured threshold; `record_reply` clears a pair's
/// suspicion. Threshold and timeout are configuration inputs.
pub struct ArpActivityTracker {
    records: HashMap<u64, ActivityRecord>,
    threshold: u32,
    timeout: u64,
}

impl View for ArpActivityTracker {
    type V = Map<u64, ActivityRecord>;

    closed spec fn view(&self) -> Map<u64, ActivityRecord> {
        self.records@
    }
}

impl ArpActivityTracker {
    /// The number of in-window requests at which a pair is declared unused.
    pub closed spec fn spec_threshold(&self) -> u32 {
        self.threshold
    }

    /// The window length: a pair's count restarts once more than this many
    /// time units pass since its window started.
    pub closed spec fn spec_timeout(&self) -> u64 {
        self.timeout
    }

    /// The tracker's invariant: stored counts stay strictly below the
    /// threshold.
    pub open spec fn wf(&self) -> bool {
        spec_counts_below(self@, self.spec_threshold())
    }

    pub fn new(threshold: u32, timeout: u64) -> (t: ArpActivityTracker)
        ensures
            t@ == Map::<u64, ActivityRecord>::empty(),
            t.spec_threshold() == threshold,
            t.spec_timeout() == timeout,
            t.wf(),
    {
        ArpActivityTracker { records: HashMap::new(), threshold, timeout }
    }

    /// Count one observed ARP request asking about `pair`, at time `now`.
    /// Returns true exactly when the pair's in-window count newly reaches
    /// the threshold; the record is then consumed. Otherwise the record is
    /// stored with its incremented count — restarted at one if the pair's
    /// window had timed out.
    pub fn record_request(&mut self, pair: AddressPair, now: u64) -> (hit: bool)
        requires
            old(self).wf(),
        ensures
            final(self).wf(),
            final(self).spec_threshold() == old(self).spec_threshold(),
            final(self).spec_timeout() == old(self).spec_timeout(),
            hit == spec_request_hits(
                old(self)@,
                pair.spec_key(),
                now,
                old(self).spec_threshold(),
                old(self).spec_timeout(),
            ),
            final(self)@ == spec_map_after_request(
                old(self)@,
                pair.spec_key(),
                now,
                old(self).spec_threshold(),
                old(self).spec_timeout(),
            ),
    {
        let key = pair.key();
        let rec: ActivityRecord = match self.records.get(&key) {
            Some(r) => {
                if now >= r.window_start && now - r.window_start > self.timeout {
                    ActivityRecord { count: 1, window_start: now }
                } else {
                    ActivityRecord { count: r.count + 1, window_start: r.window_start }
                }
            },
            None => ActivityRecord { count: 1, window_start: now },
        };
        if rec.count >= self.threshold {
            self.records.remove(&key);
            true
        } else {
            self.records.insert(key, rec);
            false
        }
    }

    /// Note an observed ARP reply concerning `pair`: proof of liveness that
    /// outranks any pending suspicion, even mid-window. A reply for a pair
    /// with no record is a no-op.
    pub fn record_reply(&mut self, pair: AddressPair)
        requires
            old(self).wf(),
        ensures
            final(self).wf(),
            final(self).spec_threshold() == old(self).spec_threshold(),
            final(self).spec_timeout() == old(self).spec_timeout(),
            final(self)@ == spec_map_after_reply(old(self)@, pair.spec_key()),
    {
        let key = pair.key();
        self.records.remove(&key);
    }

    /// The record currently stored for `pair`, if any.
    pub fn pending(&self, pair: AddressPair) -> (r: Option<ActivityRecord>)
        ensures
            r == spec_stored(self@, pair.spec_key()),
    {
        let key = pair.key();
        match self.records.get(&key) {
            Some(r) => Some(*r),
            None => None,
        }
    }
}

/// The tracker map after a run of requests for `key`, one per entry of
/// `times`, oldest first.
pub open spec fn spec_map_after_requests(
    m: Map<u64, ActivityRecord>,
    key: u64,
    times: Seq<u64>,
    threshold: u32,
    timeout: u64,
) -> Map<u64, ActivityRecord>
    decreases times.len(),
{
    if times.len() == 0 {
        m
    } else {
        spec_map_after_request(
            spec_map_after_requests(m, key, times.drop_last(), threshold, timeout),
            key,
            times.last(),
            threshold,
            timeout,
        )
    }
}

/// Whether the request at position `i` of the run crosses the threshold.
pub open spec fn spec_hit_at(
    m: Map<u64, ActivityRecord>,
    key: u64,
    times: Seq<u64>,
    i: int,
    threshold: u32,
    timeout: u64,
) -> bool {
    spec_request_hits(
        spec_map_after_requests(m, key, times.take(i), threshold, timeout),
        key,
        times[i],
        threshold,
        timeout,
    )
}

/// After `i` in-window requests for a pair that started with no record and
/// never crossed the threshold, the stored record holds exactly count `i`
/// and the window start of the first request.
proof fn lemma_run_state(
    m: Map<u64, ActivityRecord>,
    key: u64,
    times: Seq<u64>,
    i: int,
    threshold: u32,
    timeout: u64,
)
    requires
        !m.contains_key(key),
        0 <= i <= times.len(),
        i < threshold,
        forall|j: int| 0 <= j < times.len() ==> times[0] <= #[trigger] times[j],
        forall|j: int| 0 <= j < times.len() ==> #[trigger] times[j] - times[0] <= timeout,
    ensures
        ({
            let mi = spec_map_after_requests(m, key, times.take(i), threshold, timeout);
            if i == 0 {
                mi == m
            } else {
                mi.contains_key(key) && mi[key] == (ActivityRecord {
                    count: i as u32,
                    window_start: times[0],
                })
            }
        }),
    decreases i,
{
    if i == 0 {
        assert(times.take(0) =~= Seq::<u64>::empty());
    } else {
        lemma_run_state(m, key, times, i - 1, threshold, timeout);
        assert(times.take(i).drop_last() =~= times.take(i - 1));
        assert(times.take(i).last() == times[i - 1]);
    }
}

/// Threshold monotonicity: starting with no record for the pair, a run of
/// requests all lying within one window (each at or after the first, none
/// more than `timeout` after it, and no more than `threshold` of them)
/// crosses the threshold on exactly the request whose in-window count
/// reaches `threshold`, and never before.
pub proof fn lemma_threshold_monotonicity(
    m: Map<u64, ActivityRecord>,
    key: u64,
    times: Seq<u64>,
    threshold: u32,
    timeout: u64,
)
    requires
        1 <= threshold,
        !m.contains_key(key),
        times.len() <= threshold,
        forall|j: int| 0 <= j < times.len() ==> times[0] <= #[trigger] times[j],
        forall|j: int| 0 <= j < times.len() ==> #[trigger] times[j] - times[0] <= timeout,
    ensures
        forall|i: int|
            0 <= i < times.len() ==> (spec_hit_at(m, key, times, i, threshold, timeout) <==> i + 1
                == threshold),
{
    assert forall|i: int| 0 <= i < times.len() implies (spec_hit_at(
        m,
        key,
        times,
        i,
        threshold,
        timeout,
    ) <==> i + 1 == threshold) by {
        lemma_run_state(m, key, times, i, threshold, timeout);
    }
}

/// Under the tracker invariant — stored counts stay strictly below the
/// threshold — every crossing is a first crossing: the in-window count on a
/// request that returns true is exactly the threshold, never beyond it. The
/// threshold is reached once and never overshot.
pub proof fn lemma_crossing_is_exact(
    m: Map<u64, ActivityRecord>,
    key: u64,
    now: u64,
    threshold: u32,
    timeout: u64,
)
    requires
        1 <= threshold,
        spec_counts_below(m, threshold),
        spec_request_hits(m, key, now, threshold, timeout),
    ensures
        spec_effective_record(spec_stored(m, key), now, timeout).count + 1 == threshold,
{
    if m.contains_key(key) {
        assert(m[key].count < threshold);
    }
}

/// Window reset: a request that arrives more than `timeout` after the
/// pair's window started restarts the count at one — it is never added to
/// the stale count, and (for a threshold of at least two) never crosses the
/// threshold by itself.
pub proof fn lemma_window_reset(
    m: Map<u64, ActivityRecord>,
    key: u64,
    now: u64,
    threshold: u32,
    timeout: u64,
)
    requires
        2 <= threshold,
        m.contains_key(key),
        now - m[key].window_start > timeout,
    ensures
        !spec_request_hits(m, key, now, threshold, timeout),
        spec_map_after_request(m, key, now, threshold, timeout).contains_key(key),
        spec_map_after_request(m, key, now, threshold, timeout)[key] == (ActivityRecord {
            count: 1,
            window_start: now,
        }),
{
}

/// Reply cancels suspicion: whatever a first sub-threshold request left in
/// the tracker, a reply for the pair erases it, so a later request starts a
/// fresh count of one instead of continuing the old window.
pub proof fn lemma_reply_cancels_suspicion(
    m: Map<u64, ActivityRecord>,
    key: u64,
    t1: u64,
    t2: u64,
    threshold: u32,
    timeout: u64,
)
    requires
        2 <= threshold,
    ensures
        ({
            let m1 = spec_map_after_request(m, key, t1, threshold, timeout);
            let m2 = spec_map_after_reply(m1, key);
            let m3 = spec_map_after_request(m2, key, t2, threshold, timeout);
            &&& !spec_request_hits(m2, key, t2, threshold, timeout)
            &&& m3.contains_key(key)
            &&& m3[key] == (ActivityRecord { count: 1, window_start: t2 })
        }),
{
}

} // verus!

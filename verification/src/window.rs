//! Hot in-memory history window of recent trades.
//!
//! Every recorded trade is appended here before it is queued for durable
//! storage, which makes it visible to the very next effective-volume query
//! in the same process.  The window is capacity-bounded: when an append
//! pushes it past the hard cap, the oldest entries are dropped so that only
//! the newest ones remain.  The decayed summation itself is numeric work the
//! host performs; this module guarantees which records that summation sees
//! and supplies the minimum valid timestamp the summation factors out for
//! numeric stability.

use vstd::prelude::*;

verus! {

/// One recorded trade impulse: a millisecond UTC timestamp and an opaque
/// 64-bit payload in which the host encodes the trade magnitude.  The window
/// stores and returns the payload unchanged.
#[derive(Clone, Copy, PartialEq, Eq, Structural, Debug)]
pub struct HistoryRecord {
    pub timestamp: i64,
    pub amount_code: u64,
}

/// A record may run ahead of the query clock by at most this many
/// milliseconds before the future-timestamp defense drops it.
pub const MAX_FUTURE_TOLERANCE_MS: i64 = 60_000;

/// Appends beyond this length trigger pruning.
pub const WINDOW_HARD_CAP: usize = 500_000;

/// Number of newest records kept by a prune.
pub const WINDOW_KEEP: usize = 400_000;

/// A record enters a volume query only if its timestamp is neither in the
/// future beyond the tolerance nor older than the tail cutoff; both limits
/// are supplied by the caller as absolute timestamps.
pub open spec fn record_valid(rec: HistoryRecord, future_limit: i64, past_limit: i64) -> bool {
    past_limit <= rec.timestamp <= future_limit
}

/// The window contents after a trade is appended: the record is pushed, and
/// if the hard cap is now exceeded only the newest `WINDOW_KEEP` records
/// survive.
pub open spec fn after_trade(s: Seq<HistoryRecord>, rec: HistoryRecord) -> Seq<HistoryRecord> {
    let grown = s.push(rec);
    if grown.len() <= WINDOW_HARD_CAP {
        grown
    } else {
        grown.subrange(grown.len() - WINDOW_KEEP, grown.len() as int)
    }
}

/// The ordered hot window of recent trades.
pub struct HotWindow {
    records: Vec<HistoryRecord>,
}

impl View for HotWindow {
    type V = Seq<HistoryRecord>;

    closed spec fn view(&self) -> Seq<HistoryRecord> {
        self.records@
    }
}

impl HotWindow {
    /// An empty window.
    pub fn new() -> (w: HotWindow)
        ensures
            w@ == Seq::<HistoryRecord>::empty(),
    {
        HotWindow { records: Vec::new() }
    }

    /// Number of records currently held.
    pub fn len(&self) -> (n: usize)
        ensures
            n == self@.len(),
    {
        self.records.len()
    }

    /// The record at position `i`, oldest first.
    pub fn get(&self, i: usize) -> (rec: HistoryRecord)
        requires
            i < self@.len(),
        ensures
            rec == self@[i as int],
    {
        self.records[i]
    }

    /// Append one record during warm-start hydration.  Hydration loads the
    /// cold store in ascending-timestamp order and does not prune.
    pub fn hydrate_record(&mut self, rec: HistoryRecord)
        requires
            old(self)@.len() < usize::MAX,
        ensures
            final(self)@ == old(self)@.push(rec),
    {
        self.records.push(rec);
    }

    /// Append one freshly recorded trade, pruning the oldest records if the
    /// hard cap is exceeded.  The new record always survives as the newest
    /// entry, so it is visible to the next volume query.
    pub fn record_trade(&mut self, rec: HistoryRecord)
        requires
            old(self)@.len() < usize::MAX,
        ensures
            final(self)@ == after_trade(old(self)@, rec),
            final(self)@.len() > 0,
            final(self)@.last() == rec,
            old(self)@.len() <= WINDOW_HARD_CAP ==> final(self)@.len() <= WINDOW_HARD_CAP,
    {
        self.records.push(rec);
        if self.records.len() > WINDOW_HARD_CAP {
            let cut: usize = self.records.len() - WINDOW_KEEP;
            let kept = self.records.split_off(cut);
            self.records = kept;
        }
    }

    /// Load a batch of records fetched from the cold store during warm
    /// start, in the order given, without pruning.
    pub fn hydrate_all(&mut self, records: &Vec<HistoryRecord>)
        requires
            old(self)@.len() + records@.len() < usize::MAX,
        ensures
            final(self)@ == old(self)@ + records@,
    {
        let n = records.len();
        let mut idx: usize = 0;
        while idx < n
            invariant
                n == records@.len(),
                idx <= n,
                old(self)@.len() + records@.len() < usize::MAX,
                self@ == old(self)@ + records@.subrange(0, idx as int),
            decreases n - idx,
        {
            let rec = records[idx];
            self.records.push(rec);
            idx = idx + 1;
            proof {
                assert(old(self)@ + records@.subrange(0, idx as int) =~= (old(self)@
                    + records@.subrange(0, idx - 1)).push(records@[idx - 1]));
            }
        }
        proof {
            assert(records@.subrange(0, records@.len() as int) =~= records@);
        }
    }

    /// Minimum timestamp among the records valid for a query window, or
    /// `None` when no record is valid.  The volume summation factors the
    /// decay at this timestamp out of the sum to keep every per-record
    /// exponent non-positive.
    pub fn min_valid_timestamp(&self, future_limit: i64, past_limit: i64) -> (r: Option<i64>)
        ensures
            match r {
                Some(m) => {
                    &&& exists|i: int|
                        0 <= i < self@.len() && record_valid(#[trigger] self@[i], future_limit, past_limit)
                            && self@[i].timestamp == m
                    &&& forall|i: int|
                        0 <= i < self@.len() && record_valid(#[trigger] self@[i], future_limit, past_limit)
                            ==> m <= self@[i].timestamp
                },
                None => forall|i: int|
                    0 <= i < self@.len() ==> !record_valid(#[trigger] self@[i], future_limit, past_limit),
            },
    {
        let mut best: Option<i64> = None;
        let n = self.records.len();
        let mut idx: usize = 0;
        while idx < n
            invariant
                n == self@.len(),
                idx <= n,
                match best {
                    Some(m) => {
                        &&& exists|i: int|
                            0 <= i < idx && record_valid(#[trigger] self@[i], future_limit, past_limit)
                                && self@[i].timestamp == m
                        &&& forall|i: int|
                            0 <= i < idx && record_valid(#[trigger] self@[i], future_limit, past_limit)
                                ==> m <= self@[i].timestamp
                    },
                    None => forall|i: int|
                        0 <= i < idx ==> !record_valid(#[trigger] self@[i], future_limit, past_limit),
                },
            decreases n - idx,
        {
            let rec = self.records[idx];
            if rec.timestamp <= future_limit && rec.timestamp >= past_limit {
                match best {
                    Some(m) => {
                        if rec.timestamp < m {
                            best = Some(rec.timestamp);
                        }
                    },
                    None => {
                        best = Some(rec.timestamp);
                    },
                }
            }
            idx = idx + 1;
        }
        best
    }
}

/// Law: the window never outgrows the hard cap through trade appends, and a
/// prune keeps exactly the newest `WINDOW_KEEP` records.
pub proof fn lemma_window_bounded(s: Seq<HistoryRecord>, rec: HistoryRecord)
    requires
        s.len() <= WINDOW_HARD_CAP,
    ensures
        after_trade(s, rec).len() <= WINDOW_HARD_CAP,
        s.len() == WINDOW_HARD_CAP ==> after_trade(s, rec).len() == WINDOW_KEEP,
{
}

/// Law: a trade append is read-after-write visible — the appended record is
/// the newest element of the window whatever pruning happened.
pub proof fn lemma_trade_visible(s: Seq<HistoryRecord>, rec: HistoryRecord)
    ensures
        after_trade(s, rec).len() > 0,
        after_trade(s, rec).last() == rec,
{
}

/// The window holds its records oldest first.
pub open spec fn sorted_by_timestamp(s: Seq<HistoryRecord>) -> bool {
    forall|i: int, j: int| 0 <= i <= j < s.len() ==> #[trigger] s[i].timestamp <= #[trigger] s[j].timestamp
}

/// Law: recording a trade at least as new as the newest record keeps the
/// window ordered, with or without pruning.
pub proof fn lemma_trade_keeps_order(s: Seq<HistoryRecord>, rec: HistoryRecord)
    requires
        sorted_by_timestamp(s),
        s.len() > 0 ==> s.last().timestamp <= rec.timestamp,
    ensures
        sorted_by_timestamp(after_trade(s, rec)),
{
    let grown = s.push(rec);
    assert forall|i: int, j: int| 0 <= i <= j < grown.len() implies grown[i].timestamp
        <= grown[j].timestamp by {
        if j < s.len() {
            assert(s[i].timestamp <= s[j].timestamp);
        } else if i < s.len() {
            assert(s[i].timestamp <= s[s.len() - 1].timestamp);
        }
    }
    if grown.len() > WINDOW_HARD_CAP {
        let kept = grown.subrange(grown.len() - WINDOW_KEEP, grown.len() as int);
        let off = grown.len() - WINDOW_KEEP;
        assert forall|i: int, j: int| 0 <= i <= j < kept.len() implies kept[i].timestamp
            <= kept[j].timestamp by {
            assert(grown[i + off].timestamp <= grown[j + off].timestamp);
        }
    }
}

/// Law: warm-start hydration of an ascending batch onto an ordered window
/// that ends no later than the batch begins leaves the window ordered.
pub proof fn lemma_hydration_keeps_order(s: Seq<HistoryRecord>, batch: Seq<HistoryRecord>)
    requires
        sorted_by_timestamp(s),
        sorted_by_timestamp(batch),
        s.len() > 0 && batch.len() > 0 ==> s.last().timestamp <= batch[0].timestamp,
    ensures
        sorted_by_timestamp(s + batch),
{
    let joined = s + batch;
    assert forall|i: int, j: int| 0 <= i <= j < joined.len() implies joined[i].timestamp
        <= joined[j].timestamp by {
        if j < s.len() {
            assert(s[i].timestamp <= s[j].timestamp);
        } else if i >= s.len() {
            assert(batch[i - s.len()].timestamp <= batch[j - s.len()].timestamp);
        } else {
            assert(s[i].timestamp <= s[s.len() - 1].timestamp);
            assert(batch[0].timestamp <= batch[j - s.len()].timestamp);
        }
    }
}

} // verus!

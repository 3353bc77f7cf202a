//! The merge queue: an ordered, deduplicating buffer of pending samples.
//!
//! Samples without a timestamp keep their arrival order and are held to be
//! older than any timestamped sample. Timestamped samples are kept in
//! ascending timestamp order, one per timestamp: the first one pushed wins.
use std::collections::VecDeque;
use vstd::prelude::*;

use crate::sample::{Sample, Timestamp, ts_lt, ts_of};

verus! {

/// No sample of `s` carries a timestamp.
pub open spec fn untimestamped_only(s: Seq<Sample>) -> bool {
    forall|i: int| 0 <= i < s.len() ==> (#[trigger] s[i]).timestamp is None
}

/// Every sample of `s` carries a timestamp, in strictly ascending order.
pub open spec fn ascending(s: Seq<Sample>) -> bool {
    &&& forall|i: int| 0 <= i < s.len() ==> (#[trigger] s[i]).timestamp is Some
    &&& forall|i: int, j: int|
        0 <= i < j < s.len() ==> ts_lt(ts_of(#[trigger] s[i]), ts_of(#[trigger] s[j]))
}

/// Some sample of `s` carries the timestamp `t`.
pub open spec fn has_ts(s: Seq<Sample>, t: Timestamp) -> bool {
    exists|i: int| 0 <= i < s.len() && (#[trigger] s[i]).timestamp == Some(t)
}

/// The ascending sequence `seq` with `s` put in its place, unless a sample
/// with the timestamp of `s` is already there.
pub open spec fn insert_sorted(seq: Seq<Sample>, s: Sample) -> Seq<Sample>
    decreases seq.len(),
{
    if seq.len() == 0 {
        seq![s]
    } else if ts_lt(ts_of(s), ts_of(seq[0])) {
        seq![s] + seq
    } else if ts_of(seq[0]) == ts_of(s) {
        seq
    } else {
        seq![seq[0]] + insert_sorted(seq.drop_first(), s)
    }
}

/// What a merge queue holds: its untimestamped and its timestamped partition.
pub struct QueueModel {
    pub untimed: Seq<Sample>,
    pub timed: Seq<Sample>,
}

impl QueueModel {
    pub open spec fn empty() -> QueueModel {
        QueueModel { untimed: Seq::empty(), timed: Seq::empty() }
    }

    pub open spec fn wf(self) -> bool {
        untimestamped_only(self.untimed) && ascending(self.timed)
    }

    pub open spec fn len(self) -> nat {
        self.untimed.len() + self.timed.len()
    }

    /// The queue after `s` is pushed.
    pub open spec fn pushed(self, s: Sample) -> QueueModel {
        if s.timestamp is Some {
            QueueModel { untimed: self.untimed, timed: insert_sorted(self.timed, s) }
        } else {
            QueueModel { untimed: self.untimed.push(s), timed: self.timed }
        }
    }

    /// The queue after each of `samples` is pushed, in order.
    pub open spec fn pushed_all(self, samples: Seq<Sample>) -> QueueModel
        decreases samples.len(),
    {
        if samples.len() == 0 {
            self
        } else {
            self.pushed_all(samples.drop_last()).pushed(samples.last())
        }
    }

    /// The order in which a drain yields the queue's samples.
    pub open spec fn drained(self) -> Seq<Sample> {
        self.untimed + self.timed
    }
}

/// Timestamps are totally ordered.
proof fn lemma_ts_total(a: Timestamp, b: Timestamp)
    ensures
        ts_lt(a, b) || ts_lt(b, a) || a == b,
        !(ts_lt(a, b) && ts_lt(b, a)),
        !ts_lt(a, a),
{
}

/// Where `k` is the first position of `seq` whose timestamp is not below that
/// of `s`, `insert_sorted` keeps `seq` on an equal timestamp and inserts `s`
/// at `k` otherwise.
proof fn lemma_insert_sorted_at(seq: Seq<Sample>, s: Sample, k: int)
    requires
        ascending(seq),
        s.timestamp is Some,
        0 <= k <= seq.len(),
        forall|i: int| 0 <= i < k ==> ts_lt(ts_of(#[trigger] seq[i]), ts_of(s)),
        k < seq.len() ==> !ts_lt(ts_of(seq[k]), ts_of(s)),
    ensures
        insert_sorted(seq, s) == if k < seq.len() && ts_of(seq[k]) == ts_of(s) {
            seq
        } else {
            seq.insert(k, s)
        },
    decreases k,
{
    if seq.len() == 0 {
        assert(seq.insert(k, s) =~= seq![s]);
    } else if k == 0 {
        lemma_ts_total(ts_of(seq[0]), ts_of(s));
        if ts_lt(ts_of(s), ts_of(seq[0])) {
            assert(seq.insert(0, s) =~= seq![s] + seq);
        }
    } else {
        lemma_ts_total(ts_of(seq[0]), ts_of(s));
        let rest = seq.drop_first();
        assert forall|i: int| 0 <= i < k - 1 implies ts_lt(ts_of(#[trigger] rest[i]), ts_of(s)) by {
            assert(rest[i] == seq[i + 1]);
        }
        lemma_insert_sorted_at(rest, s, k - 1);
        if k < seq.len() && ts_of(seq[k]) == ts_of(s) {
            assert(seq![seq[0]] + rest =~= seq);
        } else {
            assert(seq![seq[0]] + rest.insert(k - 1, s) =~= seq.insert(k, s));
        }
    }
}

/// `insert_sorted` keeps a sequence ascending; it holds the samples of the
/// sequence and, where no sample of the sequence has its timestamp, `s`.
proof fn lemma_insert_sorted(seq: Seq<Sample>, s: Sample)
    requires
        ascending(seq),
        s.timestamp is Some,
    ensures
        ascending(insert_sorted(seq, s)),
        forall|k: int|
            0 <= k < insert_sorted(seq, s).len() ==> seq.contains(
                #[trigger] insert_sorted(seq, s)[k],
            ) || (insert_sorted(seq, s)[k] == s && !has_ts(seq, ts_of(s))),
        forall|i: int| 0 <= i < seq.len() ==> insert_sorted(seq, s).contains(#[trigger] seq[i]),
        !has_ts(seq, ts_of(s)) ==> insert_sorted(seq, s).contains(s),
    decreases seq.len(),
{
    let r = insert_sorted(seq, s);
    let t = ts_of(s);
    if seq.len() == 0 {
        assert(r[0] == s);
    } else {
        lemma_ts_total(ts_of(seq[0]), t);
        if ts_lt(t, ts_of(seq[0])) {
            assert(r =~= seq![s] + seq);
            assert forall|i: int, j: int| 0 <= i < j < r.len() implies ts_lt(ts_of(#[trigger] r[i]), ts_of(#[trigger] r[j])) by {
                assert(r[j] == seq[j - 1]);
                if i == 0 {
                    if j - 1 > 0 {
                        assert(ts_lt(ts_of(seq[0]), ts_of(seq[j - 1])));
                    }
                } else {
                    assert(r[i] == seq[i - 1]);
                }
            }
            assert forall|i: int| 0 <= i < r.len() implies (#[trigger] r[i]).timestamp is Some by {
                if i > 0 {
                    assert(r[i] == seq[i - 1]);
                }
            }
            assert(!has_ts(seq, t)) by {
                if has_ts(seq, t) {
                    let i = choose|i: int| 0 <= i < seq.len() && (#[trigger] seq[i]).timestamp == Some(t);
                    if i > 0 {
                        assert(ts_lt(ts_of(seq[0]), ts_of(seq[i])));
                    }
                }
            }
            assert forall|k: int| 0 <= k < r.len() implies seq.contains(#[trigger] r[k]) || (r[k] == s && !has_ts(seq, t)) by {
                if k > 0 {
                    assert(r[k] == seq[k - 1]);
                }
            }
            assert forall|i: int| 0 <= i < seq.len() implies r.contains(#[trigger] seq[i]) by {
                assert(r[i + 1] == seq[i]);
            }
            assert(r[0] == s);
        } else if ts_of(seq[0]) == t {
            assert(seq[0].timestamp == Some(t));
            assert(has_ts(seq, t));
            assert forall|k: int| 0 <= k < r.len() implies seq.contains(#[trigger] r[k]) || (r[k] == s && !has_ts(seq, t)) by {
                assert(seq[k] == r[k]);
            }
        } else {
            let rest = seq.drop_first();
            let rr = insert_sorted(rest, s);
            assert forall|i: int, j: int| 0 <= i < j < rest.len() implies ts_lt(ts_of(#[trigger] rest[i]), ts_of(#[trigger] rest[j])) by {
                assert(rest[i] == seq[i + 1]);
                assert(rest[j] == seq[j + 1]);
            }
            assert forall|i: int| 0 <= i < rest.len() implies (#[trigger] rest[i]).timestamp is Some by {
                assert(rest[i] == seq[i + 1]);
            }
            lemma_insert_sorted(rest, s);
            assert(r =~= seq![seq[0]] + rr);
            assert(has_ts(seq, t) == has_ts(rest, t)) by {
                if has_ts(seq, t) {
                    let i = choose|i: int| 0 <= i < seq.len() && (#[trigger] seq[i]).timestamp == Some(t);
                    assert(i > 0);
                    assert(rest[i - 1] == seq[i]);
                }
                if has_ts(rest, t) {
                    let i = choose|i: int| 0 <= i < rest.len() && (#[trigger] rest[i]).timestamp == Some(t);
                    assert(rest[i] == seq[i + 1]);
                }
            }
            assert forall|k: int| 0 <= k < rr.len() implies seq.contains(#[trigger] rr[k]) || (rr[k] == s && !has_ts(seq, t)) by {
                if rest.contains(rr[k]) {
                    let i = choose|i: int| 0 <= i < rest.len() && rest[i] == rr[k];
                    assert(seq[i + 1] == rr[k]);
                }
            }
            assert forall|k: int| 0 <= k < rr.len() implies ts_lt(ts_of(seq[0]), ts_of(#[trigger] rr[k])) by {
                if seq.contains(rr[k]) {
                    let i = choose|i: int| 0 <= i < seq.len() && seq[i] == rr[k];
                    if i == 0 {
                        let m = choose|m: int| 0 <= m < rest.len() && rest[m] == rr[k];
                        assert(seq[m + 1] == rr[k]);
                    }
                }
            }
            assert forall|i: int, j: int| 0 <= i < j < r.len() implies ts_lt(ts_of(#[trigger] r[i]), ts_of(#[trigger] r[j])) by {
                assert(r[j] == rr[j - 1]);
                if i > 0 {
                    assert(r[i] == rr[i - 1]);
                }
            }
            assert forall|i: int| 0 <= i < r.len() implies (#[trigger] r[i]).timestamp is Some by {
                if i > 0 {
                    assert(r[i] == rr[i - 1]);
                }
            }
            assert forall|k: int| 0 <= k < r.len() implies seq.contains(#[trigger] r[k]) || (r[k] == s && !has_ts(seq, t)) by {
                if k > 0 {
                    assert(r[k] == rr[k - 1]);
                } else {
                    assert(seq[0] == r[0]);
                }
            }
            assert forall|i: int| 0 <= i < seq.len() implies r.contains(#[trigger] seq[i]) by {
                if i > 0 {
                    assert(rest[i - 1] == seq[i]);
                    let m = choose|m: int| 0 <= m < rr.len() && rr[m] == rest[i - 1];
                    assert(r[m + 1] == seq[i]);
                } else {
                    assert(r[0] == seq[0]);
                }
            }
            if !has_ts(seq, t) {
                let m = choose|m: int| 0 <= m < rr.len() && rr[m] == s;
                assert(r[m + 1] == s);
            }
        }
    }
}

/// Pushing keeps a well-formed queue well-formed.
pub proof fn lemma_pushed_wf(q: QueueModel, s: Sample)
    requires
        q.wf(),
    ensures
        q.pushed(s).wf(),
{
    if s.timestamp is Some {
        lemma_insert_sorted(q.timed, s);
    } else {
        let u = q.untimed.push(s);
        assert forall|i: int| 0 <= i < u.len() implies (#[trigger] u[i]).timestamp is None by {
            if i < q.untimed.len() {
                assert(u[i] == q.untimed[i]);
            }
        }
    }
}

/// `samples[i]` carries a timestamp that no earlier sample of `samples`
/// carries.
pub open spec fn first_of_its_ts(samples: Seq<Sample>, i: int) -> bool {
    &&& 0 <= i < samples.len()
    &&& samples[i].timestamp is Some
    &&& forall|m: int| 0 <= m < i ==> (#[trigger] samples[m]).timestamp != samples[i].timestamp
}

/// What pushing `samples` in order onto a well-formed queue keeps: every
/// timestamped sample held is the first pushed with its timestamp, and every
/// timestamp pushed is held.
proof fn lemma_pushed_all_firsts(q: QueueModel, samples: Seq<Sample>)
    requires
        q == QueueModel::empty(),
    ensures
        q.pushed_all(samples).wf(),
        forall|k: int|
            0 <= k < q.pushed_all(samples).timed.len() ==> exists|i: int|
                first_of_its_ts(samples, i) && samples[i] == #[trigger] q.pushed_all(
                    samples,
                ).timed[k],
        forall|i: int|
            0 <= i < samples.len() && (#[trigger] samples[i]).timestamp is Some ==> has_ts(
                q.pushed_all(samples).timed,
                ts_of(samples[i]),
            ),
    decreases samples.len(),
{
    if samples.len() > 0 {
        let prev = samples.drop_last();
        let x = samples.last();
        let n = samples.len() - 1;
        lemma_pushed_all_firsts(q, prev);
        let p = q.pushed_all(prev);
        let r = q.pushed_all(samples);
        assert(r == p.pushed(x));
        lemma_pushed_wf(p, x);
        assert forall|i: int| 0 <= i < n implies #[trigger] samples[i] == prev[i] by {}
        assert forall|i: int| first_of_its_ts(prev, i) implies first_of_its_ts(samples, i) by {
            assert forall|m: int| 0 <= m < i implies (#[trigger] samples[m]).timestamp != samples[i].timestamp by {
                assert(samples[m] == prev[m]);
            }
        }
        if x.timestamp is None {
            assert(r.timed == p.timed);
            assert forall|k: int| 0 <= k < r.timed.len() implies exists|i: int|
                first_of_its_ts(samples, i) && samples[i] == #[trigger] r.timed[k] by {
                let i = choose|i: int| first_of_its_ts(prev, i) && prev[i] == p.timed[k];
                assert(first_of_its_ts(samples, i));
            }
        } else {
            let t = ts_of(x);
            lemma_insert_sorted(p.timed, x);
            assert(r.timed == insert_sorted(p.timed, x));
            assert forall|k: int| 0 <= k < r.timed.len() implies exists|i: int|
                first_of_its_ts(samples, i) && samples[i] == #[trigger] r.timed[k] by {
                if p.timed.contains(r.timed[k]) {
                    let m = choose|m: int| 0 <= m < p.timed.len() && p.timed[m] == r.timed[k];
                    let i = choose|i: int| first_of_its_ts(prev, i) && prev[i] == #[trigger] p.timed[m];
                    assert(first_of_its_ts(samples, i));
                } else {
                    assert(r.timed[k] == x && !has_ts(p.timed, t));
                    assert forall|m: int| 0 <= m < n implies (#[trigger] samples[m]).timestamp != x.timestamp by {
                        if samples[m].timestamp == x.timestamp {
                            assert(prev[m].timestamp is Some);
                        }
                    }
                    assert(first_of_its_ts(samples, n));
                }
            }
            assert forall|i: int| 0 <= i < samples.len() && (#[trigger] samples[i]).timestamp is Some implies has_ts(r.timed, ts_of(samples[i])) by {
                let ti = ts_of(samples[i]);
                if i < n && has_ts(p.timed, ti) || i == n && has_ts(p.timed, t) {
                    let m = choose|m: int| 0 <= m < p.timed.len() && (#[trigger] p.timed[m]).timestamp == Some(ti);
                    let k = choose|k: int| 0 <= k < r.timed.len() && r.timed[k] == p.timed[m];
                    assert(r.timed[k].timestamp == Some(ti));
                } else if i == n {
                    let k = choose|k: int| 0 <= k < r.timed.len() && r.timed[k] == x;
                    assert(r.timed[k].timestamp == Some(ti));
                } else {
                    assert(prev[i].timestamp is Some);
                }
            }
        }
    } else {
        assert(q.pushed_all(samples) == q);
    }
}

/// Exact-timestamp deduplication: after pushing `samples` in order onto an
/// empty queue, a drain yields, for each timestamp that some of them carry,
/// exactly one sample with that timestamp, and it is the first one pushed.
pub proof fn lemma_first_pushed_wins(samples: Seq<Sample>)
    ensures
        ({
            let d = QueueModel::empty().pushed_all(samples).drained();
            forall|i: int|
                #![trigger first_of_its_ts(samples, i)]
                first_of_its_ts(samples, i) ==> exists|j: int|
                    0 <= j < d.len() && d[j] == samples[i] && forall|j2: int|
                        0 <= j2 < d.len() && (#[trigger] d[j2]).timestamp == samples[i].timestamp
                            ==> j2 == j
        }),
{
    let q = QueueModel::empty();
    lemma_pushed_all_firsts(q, samples);
    let r = q.pushed_all(samples);
    let d = r.drained();
    let ul = r.untimed.len();
    assert forall|i: int| #![trigger first_of_its_ts(samples, i)] first_of_its_ts(samples, i) implies exists|j: int|
        0 <= j < d.len() && d[j] == samples[i] && forall|j2: int|
            0 <= j2 < d.len() && (#[trigger] d[j2]).timestamp == samples[i].timestamp ==> j2 == j by {
        let t = ts_of(samples[i]);
        assert(has_ts(r.timed, t));
        let k = choose|k: int| 0 <= k < r.timed.len() && (#[trigger] r.timed[k]).timestamp == Some(t);
        let i2 = choose|i2: int| first_of_its_ts(samples, i2) && samples[i2] == #[trigger] r.timed[k];
        if i < i2 {
            assert(samples[i].timestamp == samples[i2].timestamp);
        } else if i2 < i {
            assert(samples[i2].timestamp == samples[i].timestamp);
        }
        let j = ul + k;
        assert(d[j] == r.timed[k]);
        assert forall|j2: int| 0 <= j2 < d.len() && (#[trigger] d[j2]).timestamp == samples[i].timestamp implies j2 == j by {
            if j2 < ul {
                assert(d[j2] == r.untimed[j2]);
            } else {
                assert(d[j2] == r.timed[j2 - ul]);
                lemma_ts_total(t, t);
            }
        }
    }
}

/// Pushing samples in order keeps a well-formed queue well-formed.
proof fn lemma_pushed_all_wf(q: QueueModel, samples: Seq<Sample>)
    requires
        q.wf(),
    ensures
        q.pushed_all(samples).wf(),
    decreases samples.len(),
{
    if samples.len() > 0 {
        lemma_pushed_all_wf(q, samples.drop_last());
        lemma_pushed_wf(q.pushed_all(samples.drop_last()), samples.last());
    }
}

/// Drain order: whatever is pushed onto a well-formed queue, a drain yields
/// every untimestamped sample before every timestamped one, and the
/// timestamped ones in strictly ascending timestamp order.
pub proof fn lemma_drain_ordered(q: QueueModel, samples: Seq<Sample>)
    requires
        q.wf(),
    ensures
        ({
            let d = q.pushed_all(samples).drained();
            forall|i: int, j: int|
                0 <= i < j < d.len() ==> {
                    &&& (#[trigger] d[j]).timestamp is None ==> (#[trigger] d[i]).timestamp is None
                    &&& d[i].timestamp is Some ==> d[j].timestamp is Some && ts_lt(
                        ts_of(d[i]),
                        ts_of(d[j]),
                    )
                }
        }),
{
    lemma_pushed_all_wf(q, samples);
    let r = q.pushed_all(samples);
    let d = r.drained();
    let ul = r.untimed.len();
    assert forall|i: int, j: int| 0 <= i < j < d.len() implies {
        &&& (#[trigger] d[j]).timestamp is None ==> (#[trigger] d[i]).timestamp is None
        &&& d[i].timestamp is Some ==> d[j].timestamp is Some && ts_lt(ts_of(d[i]), ts_of(d[j]))
    } by {
        if i < ul {
            assert(d[i] == r.untimed[i]);
        } else {
            assert(d[i] == r.timed[i - ul]);
        }
        if j < ul {
            assert(d[j] == r.untimed[j]);
        } else {
            assert(d[j] == r.timed[j - ul]);
        }
    }
}

/// Collects samples in timestamp order, dropping samples whose timestamp is
/// already held; samples without a timestamp are kept apart, in arrival order.
///
/// The timestamped samples sit in a `VecDeque` kept in ascending timestamp
/// order rather than in a `BTreeMap`: vstd specifies a `BTreeMap`'s key
/// order only through its borrowing iterator, and gives no specification for
/// taking its values out in key order (`into_values`, `pop_first`,
/// `first_key_value`), which a drain needs.
pub struct MergeQueue {
    untimestamped: VecDeque<Sample>,
    timestamped: VecDeque<Sample>,
}

impl View for MergeQueue {
    type V = QueueModel;

    closed spec fn view(&self) -> QueueModel {
        QueueModel { untimed: self.untimestamped@, timed: self.timestamped@ }
    }
}

impl MergeQueue {
    pub fn new() -> (r: MergeQueue)
        ensures
            r@ == QueueModel::empty(),
            r@.wf(),
    {
        let r = MergeQueue { untimestamped: VecDeque::new(), timestamped: VecDeque::new() };
        assert(r@.untimed =~= Seq::empty());
        assert(r@.timed =~= Seq::empty());
        r
    }

    /// The number of samples held.
    pub fn len(&self) -> (r: usize)
        requires
            self@.len() <= usize::MAX,
        ensures
            r == self@.len(),
    {
        self.untimestamped.len() + self.timestamped.len()
    }

    /// Adds a sample: a timestamped one takes its place in timestamp order
    /// unless its timestamp is already held; any other is appended.
    pub fn push(&mut self, sample: Sample)
        requires
            old(self)@.wf(),
        ensures
            final(self)@ == old(self)@.pushed(sample),
            final(self)@.wf(),
    {
        proof {
            lemma_pushed_wf(self@, sample);
        }
        match sample.timestamp {
            Some(ts) => {
                let n = self.timestamped.len();
                let mut k: usize = 0;
                let mut at_or_above = false;
                while k < n && !at_or_above
                    invariant
                        n == self.timestamped@.len(),
                        self@ == old(self)@,
                        self@.wf(),
                        k <= n,
                        forall|i: int| 0 <= i < k ==> ts_lt(ts_of(#[trigger] self.timestamped@[i]), ts),
                        at_or_above ==> k < n && !ts_lt(ts_of(self.timestamped@[k as int]), ts),
                    decreases n - k + (if at_or_above { 0int } else { 1int }),
                {
                    let below = match self.timestamped[k].timestamp {
                        Some(t) => t.less_than(&ts),
                        None => false,
                    };
                    if below {
                        k = k + 1;
                    } else {
                        at_or_above = true;
                    }
                }
                proof {
                    lemma_insert_sorted_at(self.timestamped@, sample, k as int);
                }
                let duplicate = k < n && match self.timestamped[k].timestamp {
                    Some(t) => t == ts,
                    None => false,
                };
                if !duplicate {
                    self.timestamped.insert(k, sample);
                }
            },
            None => {
                self.untimestamped.push_back(sample);
            },
        }
    }

    /// Takes every sample out, leaving the queue empty: the untimestamped
    /// ones in arrival order first, then the timestamped ones in ascending
    /// timestamp order.
    pub fn drain(&mut self) -> (r: MergeQueueValues)
        ensures
            r@ == old(self)@.drained(),
            final(self)@ == QueueModel::empty(),
    {
        let mut untimestamped = VecDeque::new();
        let mut timestamped = VecDeque::new();
        std::mem::swap(&mut self.untimestamped, &mut untimestamped);
        std::mem::swap(&mut self.timestamped, &mut timestamped);
        assert(self@.untimed =~= Seq::empty());
        assert(self@.timed =~= Seq::empty());
        MergeQueueValues { untimestamped, timestamped }
    }
}

/// The samples taken out of a merge queue, handed out one at a time.
pub struct MergeQueueValues {
    untimestamped: VecDeque<Sample>,
    timestamped: VecDeque<Sample>,
}

impl View for MergeQueueValues {
    type V = Seq<Sample>;

    closed spec fn view(&self) -> Seq<Sample> {
        self.untimestamped@ + self.timestamped@
    }
}

impl MergeQueueValues {
    /// The next sample, if any is left.
    pub fn next(&mut self) -> (r: Option<Sample>)
        ensures
            old(self)@.len() == 0 ==> r is None && final(self)@ == old(self)@,
            old(self)@.len() > 0 ==> r == Some(old(self)@[0]) && final(self)@ == old(self)@.drop_first(),
    {
        match self.untimestamped.pop_front() {
            Some(s) => {
                assert(self@ =~= old(self)@.drop_first());
                Some(s)
            },
            None => {
                let r = self.timestamped.pop_front();
                assert(self@ =~= old(self)@.drop_first() || old(self)@.len() == 0);
                r
            },
        }
    }
}

} // verus!

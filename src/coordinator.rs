//! The fetch coordinator: the count of fetches in flight and the merge queue
//! that holds samples back while any of them is pending.
use vstd::prelude::*;

use crate::merge_queue::{MergeQueue, MergeQueueValues, QueueModel};
use crate::sample::{ExtractSample, Sample, Timestamp};
use crate::subscriber::SubscriberError;

verus! {

/// A live sample as it is buffered: with its own timestamp if it has one,
/// else with one made of `now` and the local node's identity.
pub open spec fn stamped(s: Sample, now: u64, local_id: u128) -> Sample {
    if s.timestamp is Some {
        s
    } else {
        Sample { timestamp: Some(Timestamp { time: now, id: local_id }), ..s }
    }
}

/// What the coordinator holds: the pending fetch count and the queue.
pub struct CoordinatorModel {
    pub pending: nat,
    pub queue: QueueModel,
}

impl CoordinatorModel {
    /// One more fetch in flight.
    pub open spec fn begun(self) -> CoordinatorModel {
        CoordinatorModel { pending: self.pending + 1, queue: self.queue }
    }

    /// One fetch fewer in flight; the last one out empties the queue.
    /// Without any fetch in flight there is nothing to release.
    pub open spec fn released(self) -> CoordinatorModel {
        if self.pending == 0 {
            self
        } else if self.pending == 1 {
            CoordinatorModel { pending: 0, queue: QueueModel::empty() }
        } else {
            CoordinatorModel { pending: (self.pending - 1) as nat, queue: self.queue }
        }
    }

    /// Whether releasing a fetch now drains the queue for delivery.
    pub open spec fn release_drains(self) -> bool {
        self.pending == 1
    }

    /// What releasing a fetch hands over for delivery.
    pub open spec fn release_batch(self) -> Seq<Sample> {
        if self.release_drains() {
            self.queue.drained()
        } else {
            Seq::empty()
        }
    }

    /// The state after a live sample arrives: buffered, stamped, while a
    /// fetch is pending; untouched otherwise.
    pub open spec fn live_routed(self, s: Sample, now: u64, local_id: u128) -> CoordinatorModel {
        if self.pending == 0 {
            self
        } else {
            CoordinatorModel { pending: self.pending, queue: self.queue.pushed(stamped(s, now, local_id)) }
        }
    }

    /// The state after a fetch reply arrives: always buffered.
    pub open spec fn reply_pushed(self, s: Sample) -> CoordinatorModel {
        CoordinatorModel { pending: self.pending, queue: self.queue.pushed(s) }
    }
}

/// One step taken on a subscriber's shared state: the state found, the
/// state left, and the samples handed to the sink, in order.
pub struct Step {
    pub before: CoordinatorModel,
    pub after: CoordinatorModel,
    pub delivered: Seq<Sample>,
}

impl Step {
    /// A step that found a well-formed state.
    pub open spec fn found_wf(self) -> bool {
        self.before.queue.wf() && self.before.pending <= u64::MAX
    }

    /// The step that counts one more fetch, unless the count is at its
    /// limit; nothing is delivered.
    pub open spec fn is_begin(self) -> bool {
        &&& self.after == if self.before.pending < u64::MAX {
            self.before.begun()
        } else {
            self.before
        }
        &&& self.delivered == Seq::<Sample>::empty()
    }

    /// The step that gives a fetch's credit back and delivers what that
    /// hands over.
    pub open spec fn is_release(self) -> bool {
        &&& self.after == self.before.released()
        &&& self.delivered == self.before.release_batch()
    }
}

/// The shared state of a fetching subscriber.
pub struct InnerState {
    pending_fetches: u64,
    merge_queue: MergeQueue,
}

impl View for InnerState {
    type V = CoordinatorModel;

    closed spec fn view(&self) -> CoordinatorModel {
        CoordinatorModel { pending: self.pending_fetches as nat, queue: self.merge_queue@ }
    }
}

impl InnerState {
    pub open spec fn wf(&self) -> bool {
        self@.queue.wf() && self@.pending <= u64::MAX
    }

    /// No fetch in flight, nothing buffered.
    pub fn new() -> (r: InnerState)
        ensures
            r@ == (CoordinatorModel { pending: 0, queue: QueueModel::empty() }),
            r.wf(),
    {
        InnerState { pending_fetches: 0, merge_queue: MergeQueue::new() }
    }

    /// The state of a subscriber about to run its first fetch: that fetch
    /// counted, nothing buffered.
    pub fn initial() -> (r: InnerState)
        ensures
            r@ == (CoordinatorModel { pending: 0, queue: QueueModel::empty() }).begun(),
            r.wf(),
    {
        InnerState { pending_fetches: 1, merge_queue: MergeQueue::new() }
    }

    pub fn pending_fetches(&self) -> (r: u64)
        ensures
            r == self@.pending,
    {
        self.pending_fetches
    }

    /// Counts one more fetch in flight, unless the count is at its limit, in
    /// which case nothing changes and `false` comes back.
    pub fn begin_fetch(&mut self) -> (r: bool)
        requires
            old(self).wf(),
        ensures
            r == (old(self)@.pending < u64::MAX),
            r ==> final(self)@ == old(self)@.begun(),
            !r ==> final(self)@ == old(self)@,
            final(self).wf(),
    {
        if self.pending_fetches < u64::MAX {
            self.pending_fetches = self.pending_fetches + 1;
            true
        } else {
            false
        }
    }

    /// Counts one fetch fewer in flight. When that was the last one, the
    /// queue is drained and its samples come back, in drain order, for
    /// delivery; otherwise nothing comes back.
    pub fn release(&mut self) -> (r: MergeQueueValues)
        requires
            old(self).wf(),
        ensures
            final(self)@ == old(self)@.released(),
            r@ == old(self)@.release_batch(),
            final(self).wf(),
    {
        if self.pending_fetches == 0 {
            let mut none = MergeQueue::new();
            none.drain()
        } else {
            self.pending_fetches = self.pending_fetches - 1;
            if self.pending_fetches == 0 {
                let r = self.merge_queue.drain();
                proof {
                    assert(QueueModel::empty().wf());
                }
                r
            } else {
                let mut none = MergeQueue::new();
                let r = none.drain();
                assert(r@ =~= Seq::empty());
                r
            }
        }
    }

    /// Routes a live sample. With no fetch pending it comes straight back,
    /// to be delivered at once. Otherwise it is buffered, stamped with `now`
    /// and `local_id` if it carries no timestamp, and nothing comes back.
    pub fn route_live(&mut self, sample: Sample, now: u64, local_id: u128) -> (r: Option<Sample>)
        requires
            old(self).wf(),
        ensures
            old(self)@.pending == 0 ==> r == Some(sample),
            old(self)@.pending > 0 ==> r is None,
            final(self)@ == old(self)@.live_routed(sample, now, local_id),
            final(self).wf(),
    {
        if self.pending_fetches == 0 {
            Some(sample)
        } else {
            let s = match sample.timestamp {
                Some(_) => sample,
                None => sample.with_timestamp(Timestamp::new(now, local_id)),
            };
            self.merge_queue.push(s);
            None
        }
    }

    /// Takes in a fetch reply: its sample, if it holds one, is buffered
    /// whatever the pending count; a reply without one changes nothing, and
    /// the reason comes back.
    pub fn accept_reply<R: ExtractSample>(&mut self, reply: R) -> (r: Result<(), String>)
        requires
            old(self).wf(),
        ensures
            final(self).wf(),
            match reply.extracted() {
                Ok(s) => r == Ok::<(), String>(()) && final(self)@ == old(self)@.reply_pushed(s),
                Err(e) => r == Err::<(), String>(e) && final(self)@ == old(self)@,
            },
    {
        match reply.extract() {
            Ok(s) => {
                self.push_reply(s);
                Ok(())
            },
            Err(e) => Err(e),
        }
    }

    /// Ends a fetch whose function returned `outcome`. Its credit is given
    /// back whatever the outcome, as `release` does, with the samples that
    /// `release` hands over for delivery; a failure is passed on as it came.
    pub fn end_fetch(&mut self, outcome: Result<(), String>) -> (r: (
        Result<(), SubscriberError>,
        MergeQueueValues,
    ))
        requires
            old(self).wf(),
        ensures
            final(self)@ == old(self)@.released(),
            r.1@ == old(self)@.release_batch(),
            final(self).wf(),
            outcome is Ok ==> r.0 is Ok,
            outcome matches Err(m) ==> r.0 == Err::<(), SubscriberError>(SubscriberError::Fetch(m)),
    {
        let batch = self.release();
        let r = match outcome {
            Ok(()) => Ok(()),
            Err(m) => Err(SubscriberError::Fetch(m)),
        };
        (r, batch)
    }

    /// Buffers a fetch reply, whatever the pending count.
    pub fn push_reply(&mut self, sample: Sample)
        requires
            old(self).wf(),
        ensures
            final(self)@ == old(self)@.reply_pushed(sample),
            final(self).wf(),
    {
        self.merge_queue.push(sample);
    }
}

/// An event of the fetch accounting: a fetch begins, or one is released.
pub enum FetchEvent {
    Begin,
    Release,
}

/// The state after `events`, in order.
pub open spec fn run_events(m: CoordinatorModel, events: Seq<FetchEvent>) -> CoordinatorModel
    decreases events.len(),
{
    if events.len() == 0 {
        m
    } else {
        let p = run_events(m, events.drop_last());
        match events.last() {
            FetchEvent::Begin => p.begun(),
            FetchEvent::Release => p.released(),
        }
    }
}

/// Begins less releases in `events`.
pub open spec fn net_fetches(events: Seq<FetchEvent>) -> int
    decreases events.len(),
{
    if events.len() == 0 {
        0
    } else {
        net_fetches(events.drop_last()) + match events.last() {
            FetchEvent::Begin => 1int,
            FetchEvent::Release => -1int,
        }
    }
}

/// One reconciliation window: begins and releases that balance, with at
/// least one fetch in flight after every step but the last.
pub open spec fn is_window(events: Seq<FetchEvent>) -> bool {
    &&& events.len() > 0
    &&& net_fetches(events) == 0
    &&& forall|k: int| 1 <= k < events.len() ==> net_fetches(#[trigger] events.take(k)) > 0
}

proof fn lemma_pending_tracks_net(m: CoordinatorModel, events: Seq<FetchEvent>)
    requires
        m.pending == 0,
        forall|k: int| 1 <= k <= events.len() ==> net_fetches(#[trigger] events.take(k)) >= 0,
    ensures
        run_events(m, events).pending == net_fetches(events),
    decreases events.len(),
{
    if events.len() > 0 {
        let prev = events.drop_last();
        assert forall|k: int| 1 <= k <= prev.len() implies net_fetches(#[trigger] prev.take(k)) >= 0 by {
            assert(prev.take(k) =~= events.take(k));
        }
        lemma_pending_tracks_net(m, prev);
        assert(events.take(events.len() as int) =~= events);
        if prev.len() > 0 {
            assert(prev.take(prev.len() as int) =~= prev);
            assert(events.take(prev.len() as int) =~= prev);
        }
    }
}

/// Pending-count correctness: over one reconciliation window started with
/// no fetch in flight, however the fetches nest or overlap, the queue is
/// drained for delivery exactly once, at the last release, never before.
pub proof fn lemma_window_drains_once(m: CoordinatorModel, events: Seq<FetchEvent>)
    requires
        m.pending == 0,
        is_window(events),
    ensures
        forall|k: int|
            0 <= k < events.len() ==> ((events[k] is Release && #[trigger] run_events(
                m,
                events.take(k),
            ).release_drains()) <==> k == events.len() - 1),
        run_events(m, events).pending == 0,
{
    let n = events.len();
    assert(events.take(n as int) =~= events);
    assert forall|k: int| 1 <= k <= n implies net_fetches(#[trigger] events.take(k)) >= 0 by {}
    lemma_pending_tracks_net(m, events);
    assert forall|k: int|
        0 <= k < n implies ((events[k] is Release && #[trigger] run_events(m, events.take(k)).release_drains())
            <==> k == n - 1) by {
        let pre = events.take(k);
        assert forall|j: int| 1 <= j <= pre.len() implies net_fetches(#[trigger] pre.take(j)) >= 0 by {
            assert(pre.take(j) =~= events.take(j));
        }
        lemma_pending_tracks_net(m, pre);
        let next = events.take(k + 1);
        assert(next.drop_last() =~= pre);
        assert(next.last() == events[k]);
        if k == 0 {
            assert(pre =~= Seq::<FetchEvent>::empty());
        }
    }
}

/// Leak-free accounting: releasing a fetch takes the pending count back to
/// what it was before the fetch began, whatever was buffered meanwhile.
pub proof fn lemma_release_restores_count(m: CoordinatorModel, buffered: QueueModel)
    ensures
        (CoordinatorModel { pending: m.begun().pending, queue: buffered }).released().pending
            == m.pending,
{
}

} // verus!

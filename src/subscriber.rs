//! The history-reconciling subscriber: live samples and fetch replies meet
//! in the coordinator's shared state, and reach the sink in merged order.
use std::sync::Arc;
use vstd::prelude::*;
use vstd::rwlock::{RwLock, RwLockPredicate};

use crate::builder::{FetchingSubscriberBuilder, KeySpace, Locality};
use crate::coordinator::{CoordinatorModel, InnerState, Step};
use crate::handlers::{IntoHandler, SampleSink};
use crate::merge_queue::{MergeQueueValues, QueueModel};
use crate::sample::{ExtractSample, Sample};

verus! {

/// The shared state is always well formed.
pub struct WellFormed;

impl RwLockPredicate<InnerState> for WellFormed {
    open spec fn inv(self, v: InnerState) -> bool {
        v.wf()
    }
}

/// Why a subscriber operation failed.
#[derive(PartialEq, Eq, Debug)]
pub enum SubscriberError {
    /// The live subscription could not be declared.
    Declare(String),
    /// The fetch function failed.
    Fetch(String),
    /// As many fetches as can be counted are in flight already.
    TooManyFetches,
    /// The live subscription could not be undeclared.
    Undeclare(String),
}

/// A live subscription of the pub/sub session.
pub trait LiveSubscription {
    fn undeclare(self) -> Result<(), String>;
}

/// Hands each sample of `batch` to `sink`, in order; what it handed over
/// comes back as a ghost log.
fn deliver_all<S: SampleSink>(sink: &S, batch: MergeQueueValues) -> (handed: Ghost<Seq<Sample>>)
    ensures
        handed@ == batch@,
{
    let ghost all = batch@;
    let mut batch = batch;
    let ghost mut log: Seq<Sample> = Seq::empty();
    let mut more = true;
    while more
        invariant
            log + batch@ == all,
            more || batch@.len() == 0,
        decreases batch@.len() + if more { 1int } else { 0int },
    {
        let ghost left = batch@;
        match batch.next() {
            Some(s) => {
                proof {
                    log = log.push(s);
                    assert(log + batch@ =~= all) by {
                        assert(left =~= seq![s] + batch@);
                        assert(log =~= (log.drop_last()).push(s));
                    }
                }
                sink.deliver(s);
            },
            None => {
                more = false;
            },
        }
    }
    assert(log =~= all);
    Ghost(log)
}

/// What the live subscription calls with each sample it receives.
pub struct LiveRouter<S> {
    state: Arc<RwLock<InnerState, WellFormed>>,
    callback: S,
    local_id: u128,
}

impl<S> LiveRouter<S> {
    /// The shared state that live samples are routed through.
    pub closed spec fn spec_state(&self) -> Arc<RwLock<InnerState, WellFormed>> {
        self.state
    }

    /// The node identity that stamps buffered live samples.
    pub closed spec fn spec_local_id(&self) -> u128 {
        self.local_id
    }
}

impl<S: SampleSink> LiveRouter<S> {
    /// Routes a live sample received at time `now`, under the lock: with no
    /// fetch pending the sample goes to the sink, unchanged; otherwise it
    /// waits in the merge queue, stamped with `now` and the node identity
    /// if it carries no timestamp. The step taken comes back.
    pub fn on_sample(&self, sample: Sample, now: u64) -> (r: Ghost<Step>)
        ensures
            r@.found_wf(),
            r@.after == r@.before.live_routed(sample, now, self.spec_local_id()),
            r@.delivered == if r@.before.pending == 0 {
                seq![sample]
            } else {
                Seq::<Sample>::empty()
            },
    {
        let (mut state, handle) = self.state.acquire_write();
        let ghost before = state@;
        let out = state.route_live(sample, now, self.local_id);
        let ghost after = state@;
        let ghost mut delivered: Seq<Sample> = Seq::empty();
        match out {
            Some(s) => {
                proof {
                    delivered = seq![s];
                }
                self.callback.deliver(s);
            },
            None => {},
        }
        handle.release_write(state);
        Ghost(Step { before, after, delivered })
    }
}

/// One fetch in flight: the sink that its replies go to, and the credit
/// that `finish` gives back.
pub struct RepliesHandler<S> {
    state: Arc<RwLock<InnerState, WellFormed>>,
    callback: S,
}

impl<S> RepliesHandler<S> {
    /// The shared state that replies go to.
    pub closed spec fn spec_state(&self) -> Arc<RwLock<InnerState, WellFormed>> {
        self.state
    }

    /// The sink that the merged samples go to.
    pub closed spec fn spec_callback(&self) -> S {
        self.callback
    }
}

impl<S: SampleSink> RepliesHandler<S> {
    /// Takes in a reply under the lock: its sample is buffered whatever the
    /// pending count; a reply without a sample changes nothing, and its
    /// reason comes back. The step taken comes back too.
    pub fn push<R: ExtractSample>(&self, reply: R) -> (r: (Result<(), String>, Ghost<Step>))
        ensures
            r.0 == match reply.extracted() {
                Ok(_) => Ok::<(), String>(()),
                Err(e) => Err(e),
            },
            r.1@.found_wf(),
            r.1@.after == match reply.extracted() {
                Ok(s) => r.1@.before.reply_pushed(s),
                Err(_) => r.1@.before,
            },
            r.1@.delivered == Seq::<Sample>::empty(),
    {
        let (mut state, handle) = self.state.acquire_write();
        let ghost before = state@;
        let res = state.accept_reply(reply);
        let ghost after = state@;
        handle.release_write(state);
        (res, Ghost(Step { before, after, delivered: Seq::empty() }))
    }

    /// Gives the credit back after the fetch function returned `outcome`,
    /// under the lock: the count drops by one and, when no other fetch is
    /// in flight, the merged samples go to the sink before the lock is let
    /// go, so that no later sample overtakes them. A failure is passed on
    /// as it came. The step taken comes back.
    pub fn finish(self, outcome: Result<(), String>) -> (r: (Result<(), SubscriberError>, Ghost<Step>))
        ensures
            outcome is Ok ==> r.0 is Ok,
            outcome matches Err(m) ==> r.0 == Err::<(), SubscriberError>(SubscriberError::Fetch(m)),
            r.1@.found_wf(),
            r.1@.is_release(),
    {
        let (mut state, handle) = self.state.acquire_write();
        let ghost before = state@;
        let (res, batch) = state.end_fetch(outcome);
        let ghost after = state@;
        let delivered = deliver_all(&self.callback, batch);
        handle.release_write(state);
        (res, Ghost(Step { before, after, delivered: delivered@ }))
    }
}

/// Counts one more fetch in flight on `state`, under the lock, and gives
/// its handler, which holds `state` and `callback`; no handler when the
/// count is at its limit. The step taken comes back.
pub fn register_handler<S>(state: Arc<RwLock<InnerState, WellFormed>>, callback: S) -> (r: (
    Option<RepliesHandler<S>>,
    Ghost<Step>,
))
    ensures
        r.1@.found_wf(),
        r.1@.is_begin(),
        r.0 is Some <==> r.1@.before.pending < u64::MAX,
        r.0 matches Some(h) ==> h.spec_state() == state && h.spec_callback() == callback,
{
    let (mut st, handle) = state.acquire_write();
    let ghost before = st@;
    let began = st.begin_fetch();
    let ghost after = st@;
    handle.release_write(st);
    let step = Ghost(Step { before, after, delivered: Seq::empty() });
    if began {
        (Some(RepliesHandler { state, callback }), step)
    } else {
        (None, step)
    }
}

/// Runs `fetch` with `handler` as its sink, then gives the handler's credit
/// back with `finish`, whatever `fetch` returned. A failure of `fetch`
/// comes back as it was, with the release step.
pub fn run_fetch<S: SampleSink, F: FnOnce(&RepliesHandler<S>) -> Result<(), String>>(
    fetch: F,
    handler: RepliesHandler<S>,
) -> (r: (Result<(), SubscriberError>, Ghost<Step>))
    requires
        fetch.requires((&handler,)),
    ensures
        r.0 matches Err(e) ==> e is Fetch,
        r.0 matches Err(SubscriberError::Fetch(m)) ==> exists|out: Result<(), String>|
            #[trigger] fetch.ensures((&handler,), out) && out == Err::<(), String>(m),
        r.0 is Ok ==> exists|out: Result<(), String>| #[trigger] fetch.ensures((&handler,), out) && out is Ok,
        r.1@.found_wf(),
        r.1@.is_release(),
{
    let out = fetch(&handler);
    let ghost returned = out;
    let ghost fetching = handler;
    let r = handler.finish(out);
    assert(fetch.ensures((&fetching,), returned));
    r
}

/// What the session needs to declare the live subscription of a fetching
/// subscriber.
pub struct SubscriptionRequest<S> {
    pub key_expr: String,
    pub key_space: KeySpace,
    pub origin: Locality,
    pub undeclare_on_drop: bool,
    pub router: LiveRouter<S>,
}

/// `q` asks for the live subscription that `conf` describes.
pub open spec fn declared_as<S, H, F>(q: SubscriptionRequest<S>, conf: FetchingSubscriberBuilder<H, F>) -> bool {
    &&& q.key_expr@ == conf.key_expr@
    &&& q.key_space == conf.key_space
    &&& q.origin == conf.origin
    &&& q.undeclare_on_drop == conf.undeclare_on_drop
}

/// A subscriber that merges the samples of its fetches with its live feed.
pub struct FetchingSubscriber<Sub, S, Receiver> {
    subscriber: Sub,
    key_expr: String,
    callback: S,
    state: Arc<RwLock<InnerState, WellFormed>>,
    handler: Receiver,
}

impl<Sub, S, Receiver> FetchingSubscriber<Sub, S, Receiver> {
    pub closed spec fn spec_key_expr(&self) -> String {
        self.key_expr
    }

    pub closed spec fn spec_handler(&self) -> Receiver {
        self.handler
    }

    /// The state shared by the live router, the fetches and this handle.
    pub closed spec fn spec_state(&self) -> Arc<RwLock<InnerState, WellFormed>> {
        self.state
    }
}

impl<Sub, S: SampleSink + Clone, Receiver> FetchingSubscriber<Sub, S, Receiver> {
    /// Starts from `InnerState::initial`, the first fetch already counted,
    /// so that live samples that arrive before it is done are held back and
    /// merged with its replies. Declares the live subscription through
    /// `declare`, with a router on that state, then runs the first fetch
    /// with a handler on that state, which gives the credit back whatever
    /// the fetch returns. A failure comes back as `declare` or `fetch`
    /// returned it; a failed declaration gives the credit back and runs no
    /// fetch. Besides the result come the state it started from and the
    /// step that gave the first credit back.
    pub fn new<H, F, D>(conf: FetchingSubscriberBuilder<H, F>, local_id: u128, declare: D) -> (r: (
        Result<FetchingSubscriber<Sub, S, Receiver>, SubscriberError>,
        Ghost<(CoordinatorModel, Step)>,
    )) where
        H: IntoHandler<Sink = S, Receiver = Receiver>,
        F: FnOnce(&RepliesHandler<S>) -> Result<(), String>,
        D: FnOnce(SubscriptionRequest<S>) -> Result<Sub, String>,

        requires
            forall|h: &RepliesHandler<S>| #[trigger] conf.fetch.requires((h,)),
            forall|q: SubscriptionRequest<S>| #[trigger] declare.requires((q,)),
        ensures
            r.1@.0 == (CoordinatorModel { pending: 0, queue: QueueModel::empty() }).begun(),
            r.1@.1.found_wf(),
            r.1@.1.is_release(),
            r.0 matches Err(e) ==> e is Declare || e is Fetch,
            r.0 matches Err(SubscriberError::Declare(m)) ==> exists|q: SubscriptionRequest<S>, d: Result<Sub, String>|
                #[trigger] declare.ensures((q,), d) && declared_as(q, conf) && d == Err::<Sub, String>(m),
            !(r.0 matches Err(SubscriberError::Declare(_))) ==> exists|q: SubscriptionRequest<S>, d: Result<Sub, String>|
                #[trigger] declare.ensures((q,), d) && declared_as(q, conf) && d is Ok,
            r.0 matches Err(SubscriberError::Fetch(m)) ==> exists|h: &RepliesHandler<S>, out: Result<(), String>|
                #[trigger] conf.fetch.ensures((h,), out) && out == Err::<(), String>(m),
            r.0 matches Ok(fs) ==> {
                &&& fs.spec_key_expr() == conf.key_expr
                &&& exists|sink: S| #[trigger] H::into_handler.ensures((conf.handler,), (sink, fs.spec_handler()))
                &&& exists|q: SubscriptionRequest<S>, d: Result<Sub, String>|
                    #[trigger] declare.ensures((q,), d) && declared_as(q, conf) && d is Ok
                        && q.router.spec_state() == fs.spec_state() && q.router.spec_local_id() == local_id
                &&& exists|h: &RepliesHandler<S>, out: Result<(), String>|
                    #[trigger] conf.fetch.ensures((h,), out) && out is Ok && h.spec_state() == fs.spec_state()
            },
    {
        let initial = InnerState::initial();
        let ghost start = initial@;
        let state = Arc::new(RwLock::new(initial, Ghost(WellFormed)));
        let (callback, receiver) = conf.handler.into_handler();
        let ghost made = (callback, receiver);
        let handler = RepliesHandler { state: state.clone(), callback: callback.clone() };
        let request = SubscriptionRequest {
            key_expr: conf.key_expr.clone(),
            key_space: conf.key_space,
            origin: conf.origin,
            undeclare_on_drop: conf.undeclare_on_drop,
            router: LiveRouter { state: state.clone(), callback: callback.clone(), local_id },
        };
        let ghost asked = request;
        let declared = declare(request);
        let ghost answer = declared;
        let subscriber = match declared {
            Ok(sub) => sub,
            Err(m) => {
                let (_, released) = handler.finish(Ok(()));
                assert(declare.ensures((asked,), answer) && answer == Err::<Sub, String>(m));
                return (Err(SubscriberError::Declare(m)), Ghost((start, released@)));
            },
        };
        let fs = FetchingSubscriber {
            subscriber,
            key_expr: conf.key_expr,
            callback,
            state,
            handler: receiver,
        };
        assert(declare.ensures((asked,), answer) && declared_as(asked, conf) && answer is Ok
            && asked.router.spec_state() == fs.spec_state());
        assert(H::into_handler.ensures((conf.handler,), (made.0, fs.spec_handler())));
        let ghost fetching = handler;
        let (fetched, released) = run_fetch(conf.fetch, handler);
        let ghost res = fetched;
        proof {
            if let Err(SubscriberError::Fetch(m)) = res {
                let out = choose|out: Result<(), String>|
                    #[trigger] conf.fetch.ensures((&fetching,), out) && out == Err::<(), String>(m);
                assert(conf.fetch.ensures((&fetching,), out));
            }
            if res is Ok {
                let out = choose|out: Result<(), String>| #[trigger] conf.fetch.ensures((&fetching,), out) && out is Ok;
                assert(conf.fetch.ensures((&fetching,), out) && fetching.spec_state() == fs.spec_state());
            }
        }
        let r = match fetched {
            Ok(()) => Ok(fs),
            Err(e) => Err(e),
        };
        (r, Ghost((start, released@)))
    }

    /// The key expression subscribed to.
    pub fn key_expr(&self) -> (r: &String)
        ensures
            r == self.spec_key_expr(),
    {
        &self.key_expr
    }

    /// What the consumer reaches delivered samples through.
    pub fn handler(&self) -> (r: &Receiver)
        ensures
            r == self.spec_handler(),
    {
        &self.handler
    }

    /// Prepares one more fetch on this subscriber's state; `wait` runs it.
    pub fn fetch<F>(&self, fetch: F) -> (r: FetchBuilder<F, S>)
        ensures
            r.spec_fetch() == fetch,
            r.spec_state() == self.spec_state(),
    {
        FetchBuilder { fetch, state: self.state.clone(), callback: self.callback.clone() }
    }
}

impl<Sub: LiveSubscription, S, Receiver> FetchingSubscriber<Sub, S, Receiver> {
    /// Removes the live subscription. Fetches still in flight complete and
    /// deliver.
    pub fn undeclare(self) -> (r: Result<(), SubscriberError>)
        ensures
            r matches Err(e) ==> e is Undeclare,
    {
        match self.subscriber.undeclare() {
            Ok(()) => Ok(()),
            Err(m) => Err(SubscriberError::Undeclare(m)),
        }
    }
}

/// One more fetch of a fetching subscriber, run by `wait`.
pub struct FetchBuilder<F, S> {
    fetch: F,
    state: Arc<RwLock<InnerState, WellFormed>>,
    callback: S,
}

impl<F, S> FetchBuilder<F, S> {
    /// The fetch function to run.
    pub closed spec fn spec_fetch(&self) -> F {
        self.fetch
    }

    /// The subscriber state that the fetch is counted on.
    pub closed spec fn spec_state(&self) -> Arc<RwLock<InnerState, WellFormed>> {
        self.state
    }
}

impl<F: FnOnce(&RepliesHandler<S>) -> Result<(), String>, S: SampleSink> FetchBuilder<F, S> {
    /// Counts the fetch in flight with `register_handler`, unless the count
    /// is at its limit, runs it with `run_fetch` on a handler on this
    /// builder's state, which gives the credit back whatever the fetch
    /// returns, and passes on what the fetch returned. Besides the result
    /// come the counting step and, when the fetch ran, the release step.
    pub fn wait(self) -> (r: (Result<(), SubscriberError>, Ghost<(Step, Option<Step>)>))
        requires
            forall|h: &RepliesHandler<S>| #[trigger] self.spec_fetch().requires((h,)),
        ensures
            r.1@.0.found_wf(),
            r.1@.0.is_begin(),
            r.0 matches Err(SubscriberError::TooManyFetches) <==> r.1@.0.before.pending == u64::MAX,
            r.1@.1 is Some <==> r.1@.0.before.pending < u64::MAX,
            r.1@.1 matches Some(end) ==> end.found_wf() && end.is_release(),
            r.0 matches Err(e) ==> e is Fetch || e is TooManyFetches,
            r.0 matches Err(SubscriberError::Fetch(m)) ==> exists|h: &RepliesHandler<S>, out: Result<(), String>|
                #[trigger] self.spec_fetch().ensures((h,), out) && out == Err::<(), String>(m)
                    && h.spec_state() == self.spec_state(),
            r.0 is Ok ==> exists|h: &RepliesHandler<S>, out: Result<(), String>|
                #[trigger] self.spec_fetch().ensures((h,), out) && out is Ok && h.spec_state() == self.spec_state(),
    {
        let (registered, begin) = register_handler(self.state, self.callback);
        match registered {
            Some(handler) => {
                assert(self.spec_fetch().requires((&handler,)));
                let ghost fetching = handler;
                let (res, end) = run_fetch(self.fetch, handler);
                let ghost fetched = res;
                proof {
                    if let Err(SubscriberError::Fetch(m)) = fetched {
                        let out = choose|out: Result<(), String>|
                            #[trigger] self.fetch.ensures((&fetching,), out) && out == Err::<(), String>(m);
                        assert(self.spec_fetch().ensures((&fetching,), out));
                    }
                    if fetched is Ok {
                        let out = choose|out: Result<(), String>| #[trigger] self.fetch.ensures((&fetching,), out) && out is Ok;
                        assert(self.spec_fetch().ensures((&fetching,), out));
                    }
                }
                (res, Ghost((begin@, Some(end@))))
            },
            None => (Err(SubscriberError::TooManyFetches), Ghost((begin@, None))),
        }
    }
}

} // verus!

//! Where delivered samples go: sinks, and the handlers that make them.
use std::collections::VecDeque;
use std::sync::Arc;
use vstd::prelude::*;
use vstd::rwlock::{RwLock, RwLockPredicate};

use crate::sample::Sample;

verus! {

/// Receives delivered samples; it may be called from several threads at once.
pub trait SampleSink {
    fn deliver(&self, sample: Sample);
}

/// Receives delivered samples, one call at a time.
pub trait SampleSinkMut {
    fn deliver_mut(&mut self, sample: Sample);
}

/// Turns a handler into the sink that samples are delivered to, and what the
/// consumer keeps to reach them.
pub trait IntoHandler {
    type Sink: SampleSink + Clone;

    type Receiver;

    fn into_handler(self) -> (Self::Sink, Self::Receiver);
}

/// A lock whose content may be any value.
pub struct AnyValue;

impl<V> RwLockPredicate<V> for AnyValue {
    open spec fn inv(self, v: V) -> bool {
        true
    }
}

/// A `SampleSinkMut` behind a lock, so that it can be shared as a
/// `SampleSink`: deliveries to it never run at the same time.
pub struct Locked<C> {
    inner: Arc<RwLock<C, AnyValue>>,
    wrapped: Ghost<C>,
}

impl<C> Locked<C> {
    /// The sink that was put behind the lock.
    pub closed spec fn spec_wrapped(&self) -> C {
        self.wrapped@
    }

    /// The lock that the sink is held in.
    pub closed spec fn spec_lock(&self) -> Arc<RwLock<C, AnyValue>> {
        self.inner
    }

    /// Puts `sink` behind a new lock.
    pub fn new(sink: C) -> (r: Locked<C>)
        ensures
            r.spec_wrapped() == sink,
    {
        let ghost wrapped = sink;
        Locked { inner: Arc::new(RwLock::new(sink, Ghost(AnyValue))), wrapped: Ghost(wrapped) }
    }
}

impl<C> Clone for Locked<C> {
    /// Another handle on the same lock.
    fn clone(&self) -> (r: Locked<C>)
        ensures
            r.spec_lock() == self.spec_lock(),
            r.spec_wrapped() == self.spec_wrapped(),
    {
        Locked { inner: self.inner.clone(), wrapped: Ghost(self.wrapped@) }
    }
}

impl<C: SampleSinkMut> SampleSink for Locked<C> {
    fn deliver(&self, sample: Sample) {
        let (mut sink, handle) = self.inner.acquire_write();
        sink.deliver_mut(sample);
        handle.release_write(sink);
    }
}

/// A handler that is a sink already; the consumer keeps nothing.
pub struct CallbackHandler<S> {
    pub sink: S,
}

impl<S: SampleSink + Clone> IntoHandler for CallbackHandler<S> {
    type Sink = S;

    type Receiver = ();

    fn into_handler(self) -> (S, ()) {
        (self.sink, ())
    }
}

/// The handler used when none is given: a first-in, first-out queue that
/// the consumer polls.
pub struct DefaultHandler;

/// The delivering end of the default handler's queue.
pub struct FifoSink {
    queue: Arc<RwLock<VecDeque<Sample>, AnyValue>>,
}

/// The consumer's end of the default handler's queue.
pub struct FifoReceiver {
    queue: Arc<RwLock<VecDeque<Sample>, AnyValue>>,
}

impl FifoSink {
    /// The queue that delivered samples are appended to.
    pub closed spec fn spec_queue(&self) -> Arc<RwLock<VecDeque<Sample>, AnyValue>> {
        self.queue
    }
}

impl Clone for FifoSink {
    fn clone(&self) -> (r: FifoSink)
        ensures
            r.spec_queue() == self.spec_queue(),
    {
        FifoSink { queue: self.queue.clone() }
    }
}

impl SampleSink for FifoSink {
    fn deliver(&self, sample: Sample) {
        let (mut queue, handle) = self.queue.acquire_write();
        queue.push_back(sample);
        handle.release_write(queue);
    }
}

impl FifoReceiver {
    /// The queue that samples are taken from.
    pub closed spec fn spec_queue(&self) -> Arc<RwLock<VecDeque<Sample>, AnyValue>> {
        self.queue
    }

    /// The oldest sample delivered and not yet taken, if any. The queue
    /// found under the lock and the queue left come back as ghosts.
    pub fn try_recv(&self) -> (r: (Option<Sample>, Ghost<(Seq<Sample>, Seq<Sample>)>))
        ensures
            r.1@.0.len() == 0 ==> r.0 is None && r.1@.1 == r.1@.0,
            r.1@.0.len() > 0 ==> r.0 == Some(r.1@.0[0]) && r.1@.1 == r.1@.0.drop_first(),
    {
        let (mut queue, handle) = self.queue.acquire_write();
        let ghost before = queue@;
        let r = queue.pop_front();
        let ghost after = queue@;
        handle.release_write(queue);
        (r, Ghost((before, after)))
    }
}

impl IntoHandler for DefaultHandler {
    type Sink = FifoSink;

    type Receiver = FifoReceiver;

    /// A sink and a receiver on one shared queue.
    fn into_handler(self) -> (r: (FifoSink, FifoReceiver))
        ensures
            r.0.spec_queue() == r.1.spec_queue(),
    {
        let queue = Arc::new(RwLock::new(VecDeque::new(), Ghost(AnyValue)));
        (FifoSink { queue: queue.clone() }, FifoReceiver { queue })
    }
}

} // verus!

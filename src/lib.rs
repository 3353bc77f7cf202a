//! A subscriber that reconciles a live feed with on-demand history fetches.
//!
//! Live samples and fetch replies meet in a merge queue that orders them by
//! timestamp and drops exact-timestamp duplicates. A fetch coordinator counts
//! the fetches in flight and hands the merged batch to the delivery sink once
//! the last of them has completed.
use vstd::prelude::*;

pub mod sample;
pub mod merge_queue;
pub mod coordinator;
pub mod handlers;
pub mod builder;
pub mod subscriber;
pub mod writer;
pub mod tcp;

pub use builder::{
    FetchingSubscriberBuilder, KeySpace, Locality, QueryConsolidation, QueryParams,
    QueryTarget, QueryingSubscriberBuilder, ReplyKeyExpr,
};
pub use coordinator::InnerState;
pub use handlers::{
    CallbackHandler, DefaultHandler, FifoReceiver, FifoSink, IntoHandler, Locked, SampleSink,
    SampleSinkMut,
};
pub use merge_queue::{MergeQueue, MergeQueueValues};
pub use sample::{ExtractSample, Reply, Sample, SampleKind, Timestamp};
pub use subscriber::{
    FetchBuilder, FetchingSubscriber, LiveRouter, LiveSubscription, RepliesHandler,
    SubscriberError, SubscriptionRequest,
};
pub use tcp::TcpSocketUtils;
pub use writer::{CongestionControl, DataInfo, Encoding, Priority, Value, Writer};

verus! {

} // verus!

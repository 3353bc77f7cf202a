//! Samples and their logical timestamps.
use vstd::prelude::*;

verus! {

/// A logical timestamp: a time value, with the identity of the node that
/// produced it as a tie-breaker.
#[derive(PartialEq, Eq, Structural, Clone, Copy, Debug)]
pub struct Timestamp {
    pub time: u64,
    pub id: u128,
}

/// The strict total order on timestamps: by time value, then by originator.
pub open spec fn ts_lt(a: Timestamp, b: Timestamp) -> bool {
    a.time < b.time || (a.time == b.time && a.id < b.id)
}

impl Timestamp {
    pub fn new(time: u64, id: u128) -> (r: Timestamp)
        ensures
            r.time == time,
            r.id == id,
    {
        Timestamp { time, id }
    }

    /// Whether `self` sorts strictly before `other`.
    pub fn less_than(&self, other: &Timestamp) -> (r: bool)
        ensures
            r == ts_lt(*self, *other),
    {
        self.time < other.time || (self.time == other.time && self.id < other.id)
    }
}

/// What a sample does to its key: put a value, or delete it.
#[derive(PartialEq, Eq, Structural, Clone, Copy, Debug)]
pub enum SampleKind {
    Put,
    Delete,
}

/// One data event: a key expression, a payload, a kind and, possibly, a
/// timestamp.
#[derive(Debug)]
pub struct Sample {
    pub key_expr: String,
    pub payload: Vec<u8>,
    pub kind: SampleKind,
    pub timestamp: Option<Timestamp>,
}

/// The timestamp of a sample that carries one.
pub open spec fn ts_of(s: Sample) -> Timestamp {
    s.timestamp.unwrap()
}

impl Sample {
    pub fn new(key_expr: String, payload: Vec<u8>, kind: SampleKind) -> (r: Sample)
        ensures
            r == (Sample { key_expr, payload, kind, timestamp: None }),
    {
        Sample { key_expr, payload, kind, timestamp: None }
    }

    pub fn timestamp(&self) -> (r: Option<Timestamp>)
        ensures
            r == self.timestamp,
    {
        self.timestamp
    }

    /// The same sample, carrying `ts` as its timestamp.
    pub fn with_timestamp(self, ts: Timestamp) -> (r: Sample)
        ensures
            r == (Sample { timestamp: Some(ts), ..self }),
    {
        Sample { timestamp: Some(ts), ..self }
    }
}

/// A fetch reply that may or may not hold a sample.
pub trait ExtractSample: Sized {
    /// The sample that the reply holds, or why it holds none.
    spec fn extracted(self) -> Result<Sample, String>;

    fn extract(self) -> (r: Result<Sample, String>)
        ensures
            r == self.extracted(),
    ;
}

impl ExtractSample for Sample {
    open spec fn extracted(self) -> Result<Sample, String> {
        Ok(self)
    }

    fn extract(self) -> (r: Result<Sample, String>) {
        Ok(self)
    }
}

/// A reply of the query engine: a sample, or why there is none.
pub struct Reply {
    pub result: Result<Sample, String>,
}

impl ExtractSample for Reply {
    open spec fn extracted(self) -> Result<Sample, String> {
        self.result
    }

    fn extract(self) -> (r: Result<Sample, String>) {
        self.result
    }
}

} // verus!

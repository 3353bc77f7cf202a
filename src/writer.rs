//! Settings of a write operation (a put or a delete), and the data options
//! that it sends with its payload.
use vstd::prelude::*;

use crate::sample::{SampleKind, Timestamp};

verus! {

/// What the network does with data when a queue on its path is full.
#[derive(PartialEq, Eq, Structural, Clone, Copy, Debug)]
pub enum CongestionControl {
    Block,
    Drop,
}

/// The priority at which data is routed, from the most urgent down.
#[derive(PartialEq, Eq, Structural, Clone, Copy, Debug)]
pub enum Priority {
    RealTime,
    InteractiveHigh,
    InteractiveLow,
    DataHigh,
    Data,
    DataLow,
    Background,
}

/// How a payload is encoded: a known prefix and a free suffix.
pub struct Encoding {
    pub prefix: u64,
    pub suffix: String,
}

/// The encoding assumed when none is given: empty prefix, empty suffix.
pub open spec fn is_default_encoding(e: Encoding) -> bool {
    e.prefix == 0 && e.suffix@.len() == 0
}

impl Encoding {
    pub fn empty() -> (r: Encoding)
        ensures
            is_default_encoding(r),
    {
        Encoding { prefix: 0, suffix: String::new() }
    }

    pub fn is_default(&self) -> (r: bool)
        ensures
            r == is_default_encoding(*self),
    {
        self.prefix == 0 && self.suffix.as_str().is_empty()
    }
}

/// A payload with its encoding.
pub struct Value {
    pub payload: Vec<u8>,
    pub encoding: Encoding,
}

/// The code of a sample kind on the wire.
pub open spec fn kind_code(kind: SampleKind) -> u64 {
    match kind {
        SampleKind::Put => 0,
        SampleKind::Delete => 2,
    }
}

/// The code of the kind assumed when none is sent.
pub const DEFAULT_KIND_CODE: u64 = 0;

impl SampleKind {
    pub fn code(&self) -> (r: u64)
        ensures
            r == kind_code(*self),
    {
        match self {
            SampleKind::Put => 0,
            SampleKind::Delete => 2,
        }
    }
}

/// The options sent along with written data; each one only where it
/// differs from what a receiver assumes.
pub struct DataInfo {
    pub kind: Option<u64>,
    pub encoding: Option<Encoding>,
    pub timestamp: Option<Timestamp>,
}

/// A write operation on a key expression.
pub struct Writer {
    pub key_expr: String,
    pub value: Option<Value>,
    pub kind: Option<u64>,
    pub congestion_control: CongestionControl,
    pub priority: Priority,
}

impl Writer {
    /// A put of `value` on `key_expr`, with the default settings.
    pub fn new(key_expr: String, value: Value) -> (r: Writer)
        ensures
            r == (Writer {
                key_expr,
                value: Some(value),
                kind: None,
                congestion_control: CongestionControl::Drop,
                priority: Priority::Data,
            }),
    {
        Writer {
            key_expr,
            value: Some(value),
            kind: None,
            congestion_control: CongestionControl::Drop,
            priority: Priority::Data,
        }
    }

    pub fn congestion_control(self, congestion_control: CongestionControl) -> (r: Writer)
        ensures
            r == (Writer { congestion_control, ..self }),
    {
        Writer { congestion_control, ..self }
    }

    pub fn kind(self, kind: SampleKind) -> (r: Writer)
        ensures
            r == (Writer { kind: Some(kind_code(kind)), ..self }),
    {
        Writer { kind: Some(kind.code()), ..self }
    }

    /// Sets the encoding of the value; with no value yet, the value becomes
    /// an empty payload in that encoding.
    pub fn encoding(self, encoding: Encoding) -> (r: Writer)
        ensures
            r.key_expr == self.key_expr,
            r.kind == self.kind,
            r.congestion_control == self.congestion_control,
            r.priority == self.priority,
            r.value is Some,
            r.value.unwrap().encoding == encoding,
            r.value.unwrap().payload@ == match self.value {
                Some(v) => v.payload@,
                None => Seq::<u8>::empty(),
            },
    {
        let value = match self.value {
            Some(v) => Value { payload: v.payload, encoding },
            None => Value { payload: Vec::new(), encoding },
        };
        Writer { value: Some(value), ..self }
    }

    pub fn priority(self, priority: Priority) -> (r: Writer)
        ensures
            r == (Writer { priority, ..self }),
    {
        Writer { priority, ..self }
    }

    /// The options to send with the value: the kind unless it is the
    /// default one, the encoding unless it is the default one, and
    /// `timestamp`; `None` when there is none of them.
    pub fn data_info(&self, timestamp: Option<Timestamp>) -> (r: Option<DataInfo>)
        requires
            self.value is Some,
        ensures
            ({
                let kind = match self.kind {
                    Some(k) => if k == DEFAULT_KIND_CODE { None } else { Some(k) },
                    None => None,
                };
                let enc = self.value.unwrap().encoding;
                if kind is None && is_default_encoding(enc) && timestamp is None {
                    r is None
                } else {
                    &&& r is Some
                    &&& r.unwrap().kind == kind
                    &&& r.unwrap().timestamp == timestamp
                    &&& (r.unwrap().encoding is None <==> is_default_encoding(enc))
                    &&& (r.unwrap().encoding matches Some(e) ==> e.prefix == enc.prefix && e.suffix@
                        == enc.suffix@)
                }
            }),
    {
        let kind = match self.kind {
            Some(k) => if k == DEFAULT_KIND_CODE {
                None
            } else {
                Some(k)
            },
            None => None,
        };
        let encoding = match &self.value {
            Some(v) => if v.encoding.is_default() {
                None
            } else {
                Some(Encoding { prefix: v.encoding.prefix, suffix: v.encoding.suffix.clone() })
            },
            None => None,
        };
        if kind.is_none() && encoding.is_none() && timestamp.is_none() {
            None
        } else {
            Some(DataInfo { kind, encoding, timestamp })
        }
    }
}

} // verus!

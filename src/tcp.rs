//! Settings shared by the TCP links of the transport.
use vstd::prelude::*;

verus! {

/// The home of the TCP socket helpers: binding a listener, connecting.
pub struct TcpSocketUtils;

/// How many pending connections a listener queues.
pub const LISTEN_BACKLOG: u32 = 1024;

} // verus!

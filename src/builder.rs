//! Configuration of fetching and querying subscribers.
use vstd::prelude::*;

use crate::handlers::{CallbackHandler, DefaultHandler, Locked};

verus! {

/// Whether a subscriber follows ordinary publications or liveliness tokens.
#[derive(PartialEq, Eq, Structural, Clone, Copy, Debug)]
pub enum KeySpace {
    User,
    Liveliness,
}

/// Which publications a subscriber accepts, by where they come from.
#[derive(PartialEq, Eq, Structural, Clone, Copy, Debug)]
pub enum Locality {
    SessionLocal,
    Remote,
    Any,
}

/// Which queryables a query reaches.
#[derive(PartialEq, Eq, Structural, Clone, Copy, Debug)]
pub enum QueryTarget {
    BestMatching,
    All,
    AllComplete,
}

/// How the query engine consolidates the replies of several replicas.
#[derive(PartialEq, Eq, Structural, Clone, Copy, Debug)]
pub enum QueryConsolidation {
    Auto,
    NoConsolidation,
    Monotonic,
    Latest,
}

/// Which replies a query accepts, by their key expression.
#[derive(PartialEq, Eq, Structural, Clone, Copy, Debug)]
pub enum ReplyKeyExpr {
    Any,
    MatchingQuery,
}

/// How long a query waits for replies, in milliseconds, unless told otherwise.
pub const DEFAULT_QUERY_TIMEOUT_MS: u64 = 10000;

/// The query that a querying subscriber's fetches send.
pub struct QueryParams {
    /// Whether the query goes to liveliness tokens rather than to queryables.
    pub liveliness: bool,
    pub selector: String,
    pub target: QueryTarget,
    pub consolidation: QueryConsolidation,
    pub accept_replies: ReplyKeyExpr,
    pub timeout_ms: u64,
}

/// The configuration of a subscriber whose fetches query its own key
/// expression, or a selector given for them.
pub struct QueryingSubscriberBuilder<Handler> {
    pub key_expr: String,
    pub key_space: KeySpace,
    pub origin: Locality,
    pub query_selector: Option<String>,
    pub query_target: QueryTarget,
    pub query_consolidation: QueryConsolidation,
    pub query_accept_replies: ReplyKeyExpr,
    pub query_timeout_ms: u64,
    pub handler: Handler,
    pub undeclare_on_drop: bool,
}

/// `a` and `b` agree on all but their handler and undeclare-on-drop policy.
pub open spec fn same_query_setup<H1, H2>(
    a: QueryingSubscriberBuilder<H1>,
    b: QueryingSubscriberBuilder<H2>,
) -> bool {
    &&& a.key_expr == b.key_expr
    &&& a.key_space == b.key_space
    &&& a.origin == b.origin
    &&& a.query_selector == b.query_selector
    &&& a.query_target == b.query_target
    &&& a.query_consolidation == b.query_consolidation
    &&& a.query_accept_replies == b.query_accept_replies
    &&& a.query_timeout_ms == b.query_timeout_ms
}

impl QueryingSubscriberBuilder<DefaultHandler> {
    /// A querying subscriber on `key_expr` with the default settings.
    pub fn new(key_expr: String, key_space: KeySpace) -> (r: QueryingSubscriberBuilder<DefaultHandler>)
        ensures
            r.key_expr == key_expr,
            r.key_space == key_space,
            r.origin == Locality::Any,
            r.query_selector is None,
            r.query_target == QueryTarget::BestMatching,
            r.query_consolidation == QueryConsolidation::NoConsolidation,
            r.query_accept_replies == ReplyKeyExpr::MatchingQuery,
            r.query_timeout_ms == DEFAULT_QUERY_TIMEOUT_MS,
            r.undeclare_on_drop,
    {
        QueryingSubscriberBuilder {
            key_expr,
            key_space,
            origin: Locality::Any,
            query_selector: None,
            query_target: QueryTarget::BestMatching,
            query_consolidation: QueryConsolidation::NoConsolidation,
            query_accept_replies: ReplyKeyExpr::MatchingQuery,
            query_timeout_ms: DEFAULT_QUERY_TIMEOUT_MS,
            handler: DefaultHandler,
            undeclare_on_drop: true,
        }
    }

    /// Delivers to `callback`, and keeps the subscription when the
    /// subscriber is dropped: the same as `with` and then
    /// `undeclare_on_drop(false)`.
    pub fn callback<S>(self, callback: S) -> (r: QueryingSubscriberBuilder<CallbackHandler<S>>)
        ensures
            same_query_setup(r, self),
            r.handler == (CallbackHandler { sink: callback }),
            !r.undeclare_on_drop,
    {
        self.with(CallbackHandler { sink: callback }).undeclare_on_drop(false)
    }

    /// Delivers to `callback`, never in two calls at once, and keeps the
    /// subscription when the subscriber is dropped.
    pub fn callback_mut<C>(self, callback: C) -> (r: QueryingSubscriberBuilder<
        CallbackHandler<Locked<C>>,
    >)
        ensures
            same_query_setup(r, self),
            r.handler.sink.spec_wrapped() == callback,
            !r.undeclare_on_drop,
    {
        self.callback(Locked::new(callback))
    }
}

impl<Handler> QueryingSubscriberBuilder<Handler> {
    /// Delivers through `handler`.
    pub fn with<H>(self, handler: H) -> (r: QueryingSubscriberBuilder<H>)
        ensures
            same_query_setup(r, self),
            r.handler == handler,
            r.undeclare_on_drop == self.undeclare_on_drop,
    {
        QueryingSubscriberBuilder {
            key_expr: self.key_expr,
            key_space: self.key_space,
            origin: self.origin,
            query_selector: self.query_selector,
            query_target: self.query_target,
            query_consolidation: self.query_consolidation,
            query_accept_replies: self.query_accept_replies,
            query_timeout_ms: self.query_timeout_ms,
            handler,
            undeclare_on_drop: self.undeclare_on_drop,
        }
    }

    /// Accepts only publications from `origin`.
    pub fn allowed_origin(self, origin: Locality) -> (r: Self)
        ensures
            r == (QueryingSubscriberBuilder { origin, ..self }),
    {
        QueryingSubscriberBuilder { origin, ..self }
    }

    /// Queries `query_selector` rather than the key expression.
    pub fn query_selector(self, query_selector: String) -> (r: Self)
        ensures
            r == (QueryingSubscriberBuilder { query_selector: Some(query_selector), ..self }),
    {
        QueryingSubscriberBuilder { query_selector: Some(query_selector), ..self }
    }

    pub fn query_target(self, query_target: QueryTarget) -> (r: Self)
        ensures
            r == (QueryingSubscriberBuilder { query_target, ..self }),
    {
        QueryingSubscriberBuilder { query_target, ..self }
    }

    pub fn query_consolidation(self, query_consolidation: QueryConsolidation) -> (r: Self)
        ensures
            r == (QueryingSubscriberBuilder { query_consolidation, ..self }),
    {
        QueryingSubscriberBuilder { query_consolidation, ..self }
    }

    pub fn query_accept_replies(self, query_accept_replies: ReplyKeyExpr) -> (r: Self)
        ensures
            r == (QueryingSubscriberBuilder { query_accept_replies, ..self }),
    {
        QueryingSubscriberBuilder { query_accept_replies, ..self }
    }

    /// How long queries wait for replies, in milliseconds.
    pub fn query_timeout(self, query_timeout_ms: u64) -> (r: Self)
        ensures
            r == (QueryingSubscriberBuilder { query_timeout_ms, ..self }),
    {
        QueryingSubscriberBuilder { query_timeout_ms, ..self }
    }

    /// Whether dropping the subscriber undeclares its live subscription.
    pub fn undeclare_on_drop(self, undeclare_on_drop: bool) -> (r: Self)
        ensures
            r == (QueryingSubscriberBuilder { undeclare_on_drop, ..self }),
    {
        QueryingSubscriberBuilder { undeclare_on_drop, ..self }
    }

    /// The query that each fetch sends: on liveliness tokens, the key
    /// expression with the timeout; otherwise the selector if one was given,
    /// else the key expression, with every query setting.
    pub fn query(&self) -> (r: QueryParams)
        ensures
            r.liveliness == (self.key_space == KeySpace::Liveliness),
            r.timeout_ms == self.query_timeout_ms,
            r.liveliness ==> r.selector@ == self.key_expr@,
            !r.liveliness ==> r.selector@ == match self.query_selector {
                Some(s) => s@,
                None => self.key_expr@,
            },
            !r.liveliness ==> r.target == self.query_target && r.consolidation
                == self.query_consolidation && r.accept_replies == self.query_accept_replies,
    {
        match self.key_space {
            KeySpace::Liveliness => QueryParams {
                liveliness: true,
                selector: self.key_expr.clone(),
                target: QueryTarget::BestMatching,
                consolidation: QueryConsolidation::Auto,
                accept_replies: ReplyKeyExpr::MatchingQuery,
                timeout_ms: self.query_timeout_ms,
            },
            KeySpace::User => {
                let selector = match &self.query_selector {
                    Some(s) => s.clone(),
                    None => self.key_expr.clone(),
                };
                QueryParams {
                    liveliness: false,
                    selector,
                    target: self.query_target,
                    consolidation: self.query_consolidation,
                    accept_replies: self.query_accept_replies,
                    timeout_ms: self.query_timeout_ms,
                }
            },
        }
    }
}

/// The configuration of a subscriber that runs `fetch` when it starts.
pub struct FetchingSubscriberBuilder<Handler, Fetch> {
    pub key_expr: String,
    pub key_space: KeySpace,
    pub origin: Locality,
    pub fetch: Fetch,
    pub handler: Handler,
    pub undeclare_on_drop: bool,
}

impl<Fetch> FetchingSubscriberBuilder<DefaultHandler, Fetch> {
    /// A fetching subscriber on `key_expr` that first runs `fetch`.
    pub fn new(key_expr: String, key_space: KeySpace, fetch: Fetch) -> (r: FetchingSubscriberBuilder<
        DefaultHandler,
        Fetch,
    >)
        ensures
            r.key_expr == key_expr,
            r.key_space == key_space,
            r.origin == Locality::Any,
            r.fetch == fetch,
            r.undeclare_on_drop,
    {
        FetchingSubscriberBuilder {
            key_expr,
            key_space,
            origin: Locality::Any,
            fetch,
            handler: DefaultHandler,
            undeclare_on_drop: true,
        }
    }

    /// Delivers to `callback`, and keeps the subscription when the
    /// subscriber is dropped.
    pub fn callback<S>(self, callback: S) -> (r: FetchingSubscriberBuilder<CallbackHandler<S>, Fetch>)
        ensures
            r == (FetchingSubscriberBuilder {
                key_expr: self.key_expr,
                key_space: self.key_space,
                origin: self.origin,
                fetch: self.fetch,
                handler: CallbackHandler { sink: callback },
                undeclare_on_drop: false,
            }),
    {
        self.with(CallbackHandler { sink: callback }).undeclare_on_drop(false)
    }

    /// Delivers to `callback`, never in two calls at once, and keeps the
    /// subscription when the subscriber is dropped.
    pub fn callback_mut<C>(self, callback: C) -> (r: FetchingSubscriberBuilder<
        CallbackHandler<Locked<C>>,
        Fetch,
    >)
        ensures
            r.key_expr == self.key_expr,
            r.key_space == self.key_space,
            r.origin == self.origin,
            r.fetch == self.fetch,
            r.handler.sink.spec_wrapped() == callback,
            !r.undeclare_on_drop,
    {
        self.callback(Locked::new(callback))
    }
}

impl<Handler, Fetch> FetchingSubscriberBuilder<Handler, Fetch> {
    /// Delivers through `handler`.
    pub fn with<H>(self, handler: H) -> (r: FetchingSubscriberBuilder<H, Fetch>)
        ensures
            r == (FetchingSubscriberBuilder {
                key_expr: self.key_expr,
                key_space: self.key_space,
                origin: self.origin,
                fetch: self.fetch,
                handler,
                undeclare_on_drop: self.undeclare_on_drop,
            }),
    {
        FetchingSubscriberBuilder {
            key_expr: self.key_expr,
            key_space: self.key_space,
            origin: self.origin,
            fetch: self.fetch,
            handler,
            undeclare_on_drop: self.undeclare_on_drop,
        }
    }

    /// Accepts only publications from `origin`.
    pub fn allowed_origin(self, origin: Locality) -> (r: Self)
        ensures
            r == (FetchingSubscriberBuilder { origin, ..self }),
    {
        FetchingSubscriberBuilder { origin, ..self }
    }

    /// Whether dropping the subscriber undeclares its live subscription.
    pub fn undeclare_on_drop(self, undeclare_on_drop: bool) -> (r: Self)
        ensures
            r == (FetchingSubscriberBuilder { undeclare_on_drop, ..self }),
    {
        FetchingSubscriberBuilder { undeclare_on_drop, ..self }
    }
}

} // verus!

use fetching_subscriber::{
    CallbackHandler, FetchingSubscriberBuilder, KeySpace, Locality, QueryConsolidation,
    QueryTarget, QueryingSubscriberBuilder, ReplyKeyExpr,
};

#[test]
fn querying_builder_defaults() {
    let b = QueryingSubscriberBuilder::new("a/b".to_string(), KeySpace::User);
    assert_eq!(b.key_expr, "a/b");
    assert_eq!(b.origin, Locality::Any);
    assert_eq!(b.query_selector, None);
    assert_eq!(b.query_target, QueryTarget::BestMatching);
    assert_eq!(b.query_consolidation, QueryConsolidation::NoConsolidation);
    assert_eq!(b.query_accept_replies, ReplyKeyExpr::MatchingQuery);
    assert_eq!(b.query_timeout_ms, 10000);
    assert!(b.undeclare_on_drop);
}

#[test]
fn querying_builder_setters() {
    let b = QueryingSubscriberBuilder::new("a/b".to_string(), KeySpace::User)
        .allowed_origin(Locality::Remote)
        .query_selector("a/*?x=1".to_string())
        .query_target(QueryTarget::All)
        .query_consolidation(QueryConsolidation::Latest)
        .query_accept_replies(ReplyKeyExpr::Any)
        .query_timeout(250)
        .undeclare_on_drop(false);
    assert_eq!(b.origin, Locality::Remote);
    assert_eq!(b.query_selector.as_deref(), Some("a/*?x=1"));
    assert_eq!(b.query_target, QueryTarget::All);
    assert_eq!(b.query_consolidation, QueryConsolidation::Latest);
    assert_eq!(b.query_accept_replies, ReplyKeyExpr::Any);
    assert_eq!(b.query_timeout_ms, 250);
    assert!(!b.undeclare_on_drop);
    let b = b.with(5u8);
    assert_eq!(b.handler, 5u8);
    assert_eq!(b.query_timeout_ms, 250);
    assert!(!b.undeclare_on_drop);
}

#[test]
fn querying_builder_callback_keeps_subscription() {
    let b = QueryingSubscriberBuilder::new("a/b".to_string(), KeySpace::User)
        .query_target(QueryTarget::AllComplete)
        .callback(7u32);
    assert!(!b.undeclare_on_drop);
    assert_eq!(b.handler.sink, 7u32);
    assert_eq!(b.query_target, QueryTarget::AllComplete);
    let CallbackHandler { sink } = b.handler;
    assert_eq!(sink, 7);
}

#[test]
fn query_uses_selector_when_given() {
    let b = QueryingSubscriberBuilder::new("a/b".to_string(), KeySpace::User);
    let q = b.query();
    assert!(!q.liveliness);
    assert_eq!(q.selector, "a/b");
    let b = b
        .query_selector("a/**".to_string())
        .query_target(QueryTarget::All)
        .query_timeout(5);
    let q = b.query();
    assert_eq!(q.selector, "a/**");
    assert_eq!(q.target, QueryTarget::All);
    assert_eq!(q.timeout_ms, 5);
}

#[test]
fn liveliness_query_uses_key_expr() {
    let b = QueryingSubscriberBuilder::new("tok/1".to_string(), KeySpace::Liveliness)
        .query_selector("ignored".to_string())
        .query_timeout(30);
    let q = b.query();
    assert!(q.liveliness);
    assert_eq!(q.selector, "tok/1");
    assert_eq!(q.timeout_ms, 30);
}

#[test]
fn fetching_builder_settings() {
    let b = FetchingSubscriberBuilder::new("k".to_string(), KeySpace::Liveliness, 11u8);
    assert_eq!(b.origin, Locality::Any);
    assert!(b.undeclare_on_drop);
    let b = b.allowed_origin(Locality::SessionLocal).undeclare_on_drop(false);
    assert_eq!(b.origin, Locality::SessionLocal);
    assert!(!b.undeclare_on_drop);
    let b = b.with("h");
    assert_eq!(b.handler, "h");
    assert_eq!(b.fetch, 11u8);
    assert_eq!(b.key_space, KeySpace::Liveliness);
    let b = b.undeclare_on_drop(true);
    assert!(b.undeclare_on_drop);
}

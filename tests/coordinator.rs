use fetching_subscriber::{
    InnerState, MergeQueueValues, Reply, Sample, SampleKind, SubscriberError, Timestamp,
};

fn sample(payload: u8, ts: Option<(u64, u128)>) -> Sample {
    let s = Sample::new("demo/key".to_string(), vec![payload], SampleKind::Put);
    match ts {
        Some((time, id)) => s.with_timestamp(Timestamp::new(time, id)),
        None => s,
    }
}

fn collect(mut values: MergeQueueValues) -> Vec<Sample> {
    let mut out = Vec::new();
    while let Some(s) = values.next() {
        out.push(s);
    }
    out
}

#[test]
fn idle_live_sample_passes_through() {
    let mut st = InnerState::new();
    let out = st.route_live(sample(1, None), 500, 42);
    let s = out.expect("delivered at once");
    assert_eq!(s.payload, vec![1]);
    assert_eq!(s.timestamp, None);
    assert_eq!(st.pending_fetches(), 0);
    assert!(collect(st.release()).is_empty());
}

#[test]
fn live_sample_is_stamped_while_fetch_pending() {
    let mut st = InnerState::new();
    assert!(st.begin_fetch());
    assert!(st.route_live(sample(1, None), 500, 42).is_none());
    assert!(st.route_live(sample(2, Some((3, 8))), 500, 42).is_none());
    let batch = collect(st.release());
    assert_eq!(batch.len(), 2);
    assert_eq!(batch[0].payload, vec![2]);
    assert_eq!(batch[0].timestamp, Some(Timestamp::new(3, 8)));
    assert_eq!(batch[1].payload, vec![1]);
    assert_eq!(batch[1].timestamp, Some(Timestamp::new(500, 42)));
}

#[test]
fn nested_fetches_drain_once_at_last_release() {
    let mut st = InnerState::new();
    assert!(st.begin_fetch());
    assert!(st.begin_fetch());
    st.push_reply(sample(1, Some((1, 1))));
    assert!(st.begin_fetch());
    assert_eq!(st.pending_fetches(), 3);
    assert!(collect(st.release()).is_empty());
    st.push_reply(sample(2, Some((2, 1))));
    assert!(collect(st.release()).is_empty());
    assert_eq!(st.pending_fetches(), 1);
    let batch = collect(st.release());
    assert_eq!(batch.len(), 2);
    assert_eq!(st.pending_fetches(), 0);
    assert!(collect(st.release()).is_empty());
}

#[test]
fn release_restores_count_after_any_pushes() {
    let mut st = InnerState::new();
    assert!(st.begin_fetch());
    let before = st.pending_fetches();
    assert!(st.begin_fetch());
    st.push_reply(sample(1, None));
    let _ = collect(st.release());
    assert_eq!(st.pending_fetches(), before);
}

#[test]
fn release_without_pending_changes_nothing() {
    let mut st = InnerState::new();
    assert!(collect(st.release()).is_empty());
    assert_eq!(st.pending_fetches(), 0);
}

#[test]
fn reply_pushed_while_idle_waits_for_next_window() {
    let mut st = InnerState::new();
    st.push_reply(sample(5, Some((5, 1))));
    assert!(st.begin_fetch());
    let batch = collect(st.release());
    assert_eq!(batch.len(), 1);
    assert_eq!(batch[0].payload, vec![5]);
}

#[test]
fn initial_state_counts_first_fetch() {
    let mut st = InnerState::initial();
    assert_eq!(st.pending_fetches(), 1);
    assert!(st.route_live(sample(1, None), 70, 5).is_none());
    let (r, batch) = st.end_fetch(Ok(()));
    assert_eq!(r, Ok(()));
    let batch = collect(batch);
    assert_eq!(batch.len(), 1);
    assert_eq!(batch[0].timestamp, Some(Timestamp::new(70, 5)));
    assert_eq!(st.pending_fetches(), 0);
}

#[test]
fn accept_reply_buffers_or_skips() {
    let mut st = InnerState::new();
    assert!(st.begin_fetch());
    assert_eq!(
        st.accept_reply(Reply { result: Err("undecodable".to_string()) }),
        Err("undecodable".to_string())
    );
    assert_eq!(st.accept_reply(sample(3, Some((3, 1)))), Ok(()));
    assert_eq!(st.accept_reply(Reply { result: Ok(sample(2, Some((2, 1)))) }), Ok(()));
    let batch = collect(st.release());
    assert_eq!(batch.iter().map(|s| s.payload[0]).collect::<Vec<_>>(), vec![2, 3]);
}

#[test]
fn end_fetch_releases_on_failure_and_keeps_replies() {
    let mut st = InnerState::new();
    assert!(st.begin_fetch());
    assert!(st.begin_fetch());
    assert_eq!(st.accept_reply(sample(4, Some((4, 1)))), Ok(()));
    let (r, batch) = st.end_fetch(Err("timeout".to_string()));
    assert_eq!(r, Err(SubscriberError::Fetch("timeout".to_string())));
    assert!(collect(batch).is_empty());
    assert_eq!(st.pending_fetches(), 1);
    let (r, batch) = st.end_fetch(Ok(()));
    assert_eq!(r, Ok(()));
    assert_eq!(collect(batch)[0].payload, vec![4]);
    assert_eq!(st.pending_fetches(), 0);
}

use fetching_subscriber::{
    CongestionControl, Encoding, Priority, SampleKind, Timestamp, Value, Writer,
};

fn writer() -> Writer {
    Writer::new(
        "a/b".to_string(),
        Value { payload: vec![1, 2, 3], encoding: Encoding::empty() },
    )
}

#[test]
fn writer_defaults_send_no_options() {
    let w = writer();
    assert_eq!(w.congestion_control, CongestionControl::Drop);
    assert_eq!(w.priority, Priority::Data);
    assert!(w.data_info(None).is_none());
}

#[test]
fn writer_setters() {
    let w = writer()
        .congestion_control(CongestionControl::Block)
        .priority(Priority::RealTime)
        .kind(SampleKind::Delete);
    assert_eq!(w.congestion_control, CongestionControl::Block);
    assert_eq!(w.priority, Priority::RealTime);
    assert_eq!(w.kind, Some(2));
    let info = w.data_info(None).expect("kind is sent");
    assert_eq!(info.kind, Some(2));
    assert!(info.encoding.is_none());
}

#[test]
fn put_kind_is_not_sent() {
    let w = writer().kind(SampleKind::Put);
    assert_eq!(w.kind, Some(0));
    assert!(w.data_info(None).is_none());
    let info = w.data_info(Some(Timestamp::new(5, 6))).expect("timestamp is sent");
    assert_eq!(info.kind, None);
    assert_eq!(info.timestamp, Some(Timestamp::new(5, 6)));
}

#[test]
fn encoding_replaces_or_creates_value() {
    let w = writer().encoding(Encoding { prefix: 4, suffix: "json".to_string() });
    let v = w.value.as_ref().unwrap();
    assert_eq!(v.payload, vec![1, 2, 3]);
    assert_eq!(v.encoding.prefix, 4);
    let info = w.data_info(None).expect("encoding is sent");
    let e = info.encoding.unwrap();
    assert_eq!((e.prefix, e.suffix.as_str()), (4, "json"));

    let mut bare = writer();
    bare.value = None;
    let w = bare.encoding(Encoding { prefix: 0, suffix: "x".to_string() });
    let v = w.value.unwrap();
    assert!(v.payload.is_empty());
    assert_eq!(v.encoding.suffix, "x");
}

use std::cell::RefCell;
use std::sync::{Arc, Mutex};

use fetching_subscriber::{
    FetchingSubscriber, FetchingSubscriberBuilder, FifoReceiver, FifoSink, KeySpace, LiveRouter,
    LiveSubscription, RepliesHandler, Reply, Sample, SampleKind, SampleSink, SampleSinkMut,
    SubscriberError, SubscriptionRequest, Timestamp,
};

struct TestSub {
    fail: bool,
}

impl LiveSubscription for TestSub {
    fn undeclare(self) -> Result<(), String> {
        if self.fail {
            Err("gone".to_string())
        } else {
            Ok(())
        }
    }
}

type Slot = RefCell<Option<LiveRouter<FifoSink>>>;
type Sub = FetchingSubscriber<TestSub, FifoSink, FifoReceiver>;

fn sample(payload: u8, ts: Option<u64>) -> Sample {
    let s = Sample::new("demo/key".to_string(), vec![payload], SampleKind::Put);
    match ts {
        Some(time) => s.with_timestamp(Timestamp::new(time, 1)),
        None => s,
    }
}

fn live(slot: &Slot, s: Sample, now: u64) {
    slot.borrow().as_ref().expect("subscription declared").on_sample(s, now);
}

fn build<F>(slot: &Slot, fail_undeclare: bool, fetch: F) -> Result<Sub, SubscriberError>
where
    F: FnOnce(&RepliesHandler<FifoSink>) -> Result<(), String>,
{
    let conf = FetchingSubscriberBuilder::new("demo/**".to_string(), KeySpace::User, fetch);
    FetchingSubscriber::new(conf, 77, |req: SubscriptionRequest<FifoSink>| {
        *slot.borrow_mut() = Some(req.router);
        Ok(TestSub { fail: fail_undeclare })
    })
    .0
}

fn received(fs: &Sub) -> Vec<u8> {
    let mut out = Vec::new();
    while let Some(s) = fs.handler().try_recv().0 {
        out.push(s.payload[0]);
    }
    out
}

#[test]
fn live_sample_during_fetch_sorts_after_history() {
    let slot: Slot = RefCell::new(None);
    let fs = build(&slot, false, |h| {
        live(&slot, sample(1, None), 1_000_000);
        assert!(h.push(sample(10, Some(10))).0.is_ok());
        assert!(h.push(sample(20, Some(20))).0.is_ok());
        Ok(())
    })
    .unwrap();
    assert_eq!(received(&fs), vec![10, 20, 1]);
}

#[test]
fn overlapping_fetches_deliver_at_last_completion() {
    let slot: Slot = RefCell::new(None);
    let fs = build(&slot, false, |_| Ok(())).unwrap();
    let r = fs
        .fetch(|hb: &RepliesHandler<FifoSink>| {
            let inner = fs
                .fetch(|ha: &RepliesHandler<FifoSink>| {
                    assert!(ha.push(sample(5, Some(5))).0.is_ok());
                    Ok(())
                })
                .wait()
        .0;
            assert!(inner.is_ok());
            assert!(received(&fs).is_empty());
            assert!(hb.push(sample(3, Some(3))).0.is_ok());
            Ok(())
        })
        .wait()
        .0;
    assert!(r.is_ok());
    assert_eq!(received(&fs), vec![3, 5]);
}

#[test]
fn duplicate_timestamp_in_window_delivers_first_only() {
    let slot: Slot = RefCell::new(None);
    let fs = build(&slot, false, |h| {
        assert!(h.push(sample(1, Some(7))).0.is_ok());
        live(&slot, sample(2, Some(7)), 900);
        Ok(())
    })
    .unwrap();
    assert_eq!(received(&fs), vec![1]);
}

#[test]
fn idle_live_sample_reaches_sink_at_once() {
    let slot: Slot = RefCell::new(None);
    let fs = build(&slot, false, |_| Ok(())).unwrap();
    live(&slot, sample(4, None), 10);
    assert_eq!(received(&fs), vec![4]);
    live(&slot, sample(5, Some(1)), 10);
    assert_eq!(received(&fs), vec![5]);
}

#[test]
fn failed_fetch_is_returned_and_still_released() {
    let slot: Slot = RefCell::new(None);
    let fs = build(&slot, false, |_| Ok(())).unwrap();
    let r = fs
        .fetch(|h: &RepliesHandler<FifoSink>| {
            assert!(h.push(sample(8, Some(8))).0.is_ok());
            live(&slot, sample(9, None), 50);
            Err("boom".to_string())
        })
        .wait()
        .0;
    assert_eq!(r, Err(SubscriberError::Fetch("boom".to_string())));
    assert_eq!(received(&fs), vec![8, 9]);
    live(&slot, sample(6, None), 60);
    assert_eq!(received(&fs), vec![6]);
}

#[test]
fn failed_initial_fetch_fails_construction() {
    let slot: Slot = RefCell::new(None);
    let r = build(&slot, false, |_| Err("no storage".to_string()));
    assert_eq!(r.err(), Some(SubscriberError::Fetch("no storage".to_string())));
}

#[test]
fn failed_declaration_fails_construction() {
    let conf = FetchingSubscriberBuilder::new(
        "demo/**".to_string(),
        KeySpace::User,
        |_: &RepliesHandler<FifoSink>| Ok(()),
    );
    let r: Result<Sub, SubscriberError> =
        FetchingSubscriber::new(conf, 1, |_req: SubscriptionRequest<FifoSink>| {
            Err("bad key".to_string())
        })
        .0;
    assert_eq!(r.err(), Some(SubscriberError::Declare("bad key".to_string())));
}

#[test]
fn reply_without_sample_is_skipped() {
    let slot: Slot = RefCell::new(None);
    let fs = build(&slot, false, |h| {
        assert_eq!(
            h.push(Reply { result: Err("not a sample".to_string()) }).0,
            Err("not a sample".to_string())
        );
        assert!(h.push(Reply { result: Ok(sample(2, Some(2))) }).0.is_ok());
        Ok(())
    })
    .unwrap();
    assert_eq!(received(&fs), vec![2]);
}

#[test]
fn key_expr_and_undeclare() {
    let slot: Slot = RefCell::new(None);
    let fs = build(&slot, false, |_| Ok(())).unwrap();
    assert_eq!(fs.key_expr(), "demo/**");
    assert_eq!(fs.undeclare(), Ok(()));
    let fs = build(&slot, true, |_| Ok(())).unwrap();
    assert_eq!(fs.undeclare(), Err(SubscriberError::Undeclare("gone".to_string())));
}

#[derive(Clone)]
struct VecSink(Arc<Mutex<Vec<u8>>>);

impl SampleSink for VecSink {
    fn deliver(&self, sample: Sample) {
        self.0.lock().unwrap().push(sample.payload[0]);
    }
}

struct CountingSink {
    seen: Arc<Mutex<Vec<u8>>>,
    count: usize,
}

impl SampleSinkMut for CountingSink {
    fn deliver_mut(&mut self, sample: Sample) {
        self.count += 1;
        self.seen.lock().unwrap().push(sample.payload[0] + self.count as u8 * 100);
    }
}

#[test]
fn callback_sink_receives_merged_order() {
    let seen = Arc::new(Mutex::new(Vec::new()));
    let conf = FetchingSubscriberBuilder::new(
        "demo/**".to_string(),
        KeySpace::User,
        |h: &RepliesHandler<VecSink>| {
            assert!(h.push(sample(2, Some(2))).0.is_ok());
            assert!(h.push(sample(1, Some(1))).0.is_ok());
            Ok(())
        },
    )
    .callback(VecSink(seen.clone()));
    assert!(!conf.undeclare_on_drop);
    let r: Result<FetchingSubscriber<TestSub, VecSink, ()>, SubscriberError> =
        FetchingSubscriber::new(conf, 3, |_req: SubscriptionRequest<VecSink>| {
            Ok(TestSub { fail: false })
        })
        .0;
    assert!(r.is_ok());
    assert_eq!(*seen.lock().unwrap(), vec![1, 2]);
}

#[test]
fn callback_mut_sink_is_called_in_turn() {
    let seen = Arc::new(Mutex::new(Vec::new()));
    let conf = FetchingSubscriberBuilder::new(
        "demo/**".to_string(),
        KeySpace::User,
        |h: &RepliesHandler<fetching_subscriber::Locked<CountingSink>>| {
            assert!(h.push(sample(9, Some(9))).0.is_ok());
            assert!(h.push(sample(4, Some(4))).0.is_ok());
            Ok(())
        },
    )
    .callback_mut(CountingSink { seen: seen.clone(), count: 0 });
    assert!(!conf.undeclare_on_drop);
    let r: Result<
        FetchingSubscriber<TestSub, fetching_subscriber::Locked<CountingSink>, ()>,
        SubscriberError,
    > = FetchingSubscriber::new(conf, 3, |_req| Ok(TestSub { fail: false })).0;
    assert!(r.is_ok());
    assert_eq!(*seen.lock().unwrap(), vec![104, 209]);
}

#[test]
fn try_recv_on_empty_queue_is_none() {
    let slot: Slot = RefCell::new(None);
    let fs = build(&slot, false, |_| Ok(())).unwrap();
    assert!(fs.handler().try_recv().0.is_none());
    live(&slot, sample(7, None), 1);
    assert_eq!(fs.handler().try_recv().0.map(|s| s.payload[0]), Some(7));
    assert!(fs.handler().try_recv().0.is_none());
}

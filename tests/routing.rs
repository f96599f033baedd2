use msg_filter::{
    Dispatch, Frame, JobId, MessageFilter, Notification, Route, STREAM_CAPACITY, UNMATCHED_CAPACITY,
};
use steam_vent_proto::enums_clientserver::EMsg;
use steam_vent_proto::MsgKind;

const PLAIN_KIND: i32 = 751;
const OTHER_KIND: i32 = 5501;

fn frame(id: u64, kind: i32, tag: u8) -> Frame {
    Frame { job_id: JobId(id), kind: MsgKind(kind), payload: vec![tag] }
}

fn service_kind() -> MsgKind {
    EMsg::k_EMsgServiceMethod.into()
}

/// Performs the send that a dispatch asks for, as the dispatch task does, and
/// returns the route taken.
fn deliver(d: Dispatch) -> Route {
    match d {
        Dispatch::Answer(tx, f) => {
            let _ = tx.send(f);
            Route::OnceById
        }
        Dispatch::Stream(tx, f) => {
            tx.try_send(f).unwrap();
            Route::ManyById
        }
        Dispatch::AnswerKind(tx, f) => {
            let _ = tx.send(f);
            Route::OnceByKind
        }
        Dispatch::Decode(_) => Route::Notification,
        Dispatch::Broadcast(tx, f) => {
            let _ = tx.send(f);
            Route::ByKind
        }
        Dispatch::Unmatched(_) => Route::Unmatched,
    }
}

fn tags(frames: &[Frame]) -> Vec<u8> {
    frames.iter().map(|f| f.payload[0]).collect()
}

#[test]
fn await_by_id_delivers_exactly_once() {
    let mut filter = MessageFilter::new();
    let mut rx = filter.on_job_id(JobId(7));
    let first = deliver(filter.dispatch(frame(7, PLAIN_KIND, 1)));
    assert_eq!(first, Route::OnceById);
    assert_eq!(rx.try_recv().unwrap().payload, vec![1]);
    let second = deliver(filter.dispatch(frame(7, PLAIN_KIND, 2)));
    assert_eq!(second, Route::Unmatched);
    assert!(rx.try_recv().is_err());
    assert_eq!(tags(&filter.unprocessed()), vec![2]);
}

#[test]
fn await_by_id_replaced_by_later_registration() {
    let mut filter = MessageFilter::new();
    let mut earlier = filter.on_job_id(JobId(3));
    let mut later = filter.on_job_id(JobId(3));
    deliver(filter.dispatch(frame(3, PLAIN_KIND, 9)));
    assert!(earlier.try_recv().is_err());
    assert_eq!(later.try_recv().unwrap().payload, vec![9]);
}

#[test]
fn await_by_id_to_dropped_receiver_is_silent() {
    let mut filter = MessageFilter::new();
    let rx = filter.on_job_id(JobId(4));
    drop(rx);
    let d = deliver(filter.dispatch(frame(4, PLAIN_KIND, 1)));
    assert_eq!(d, Route::OnceById);
    assert!(filter.unprocessed().is_empty());
}

#[test]
fn await_many_by_id_until_complete() {
    let mut filter = MessageFilter::new();
    let mut rx = filter.on_job_id_multi(JobId(11));
    for tag in 0..3u8 {
        match filter.dispatch(frame(11, PLAIN_KIND, tag)) {
            Dispatch::Stream(tx, f) => {
                assert_eq!(f.payload, vec![tag]);
                tx.try_send(f).unwrap();
            }
            _ => panic!("expected the streaming route"),
        }
    }
    for tag in 0..3u8 {
        assert_eq!(rx.try_recv().unwrap().payload, vec![tag]);
    }
    filter.complete_job_id_multi(JobId(11));
    filter.complete_job_id_multi(JobId(11));
    let after = deliver(filter.dispatch(frame(11, PLAIN_KIND, 3)));
    assert_eq!(after, Route::Unmatched);
    assert!(rx.try_recv().is_err());
}

#[test]
fn subscribe_kind_reaches_two_subscribers() {
    let mut filter = MessageFilter::new();
    let mut a = filter.on_kind(MsgKind(PLAIN_KIND));
    let mut b = filter.on_kind(MsgKind(PLAIN_KIND));
    let d = deliver(filter.dispatch(frame(1, PLAIN_KIND, 5)));
    assert_eq!(d, Route::ByKind);
    assert_eq!(a.try_recv().unwrap().payload, vec![5]);
    assert_eq!(b.try_recv().unwrap().payload, vec![5]);
    assert!(filter.unprocessed().is_empty());
}

#[test]
fn await_one_kind_then_fanout() {
    let mut filter = MessageFilter::new();
    let mut once = filter.one_kind(MsgKind(PLAIN_KIND));
    let mut fan = filter.on_kind(MsgKind(PLAIN_KIND));
    assert_eq!(deliver(filter.dispatch(frame(1, PLAIN_KIND, 1))), Route::OnceByKind);
    assert_eq!(deliver(filter.dispatch(frame(2, PLAIN_KIND, 2))), Route::ByKind);
    assert_eq!(once.try_recv().unwrap().payload, vec![1]);
    assert_eq!(fan.try_recv().unwrap().payload, vec![2]);
    assert!(fan.try_recv().is_err());
}

#[test]
fn await_one_kind_then_buffer() {
    let mut filter = MessageFilter::new();
    let mut once = filter.one_kind(MsgKind(OTHER_KIND));
    assert_eq!(deliver(filter.dispatch(frame(1, OTHER_KIND, 1))), Route::OnceByKind);
    assert_eq!(deliver(filter.dispatch(frame(2, OTHER_KIND, 2))), Route::Unmatched);
    assert_eq!(once.try_recv().unwrap().payload, vec![1]);
    assert_eq!(tags(&filter.unprocessed()), vec![2]);
}

#[test]
fn notification_goes_by_event_name() {
    let mut filter = MessageFilter::new();
    let mut foo = filter.on_notification("Foo");
    let mut bar = filter.on_notification("Bar");
    let f = Frame { job_id: JobId::none(), kind: service_kind(), payload: vec![1] };
    let decoded = match filter.dispatch(f) {
        Dispatch::Decode(f) => Notification { job_name: "Foo".to_string(), data: f.payload },
        _ => panic!("expected a notification"),
    };
    let (tx, n) = filter.route_notification(Some(decoded)).unwrap();
    assert_eq!(n.job_name, "Foo");
    tx.send(n).unwrap();
    let got = foo.try_recv().unwrap();
    assert_eq!(got.job_name, "Foo");
    assert_eq!(got.data, vec![1]);
    assert!(bar.try_recv().is_err());
    assert!(filter.unprocessed().is_empty());
}

#[test]
fn notification_without_subscriber_or_decode_is_dropped() {
    let mut filter = MessageFilter::new();
    let mut foo = filter.on_notification("Foo");
    let unnamed = Notification { job_name: "Other".to_string(), data: vec![] };
    assert!(filter.route_notification(Some(unnamed)).is_none());
    let f = Frame { job_id: JobId::none(), kind: service_kind(), payload: vec![0xff] };
    assert_eq!(deliver(filter.dispatch(f)), Route::Notification);
    assert!(filter.route_notification(None).is_none());
    assert!(foo.try_recv().is_err());
    assert!(filter.unprocessed().is_empty());
}

#[test]
fn service_method_frame_skips_kind_fanout() {
    let mut filter = MessageFilter::new();
    let mut fan = filter.on_kind(service_kind());
    let f = Frame { job_id: JobId::none(), kind: service_kind(), payload: vec![3] };
    assert_eq!(deliver(filter.dispatch(f)), Route::Notification);
    assert!(fan.try_recv().is_err());
}

#[test]
fn id_registration_wins_over_kind_subscription() {
    let mut filter = MessageFilter::new();
    let mut fan = filter.on_kind(MsgKind(PLAIN_KIND));
    let mut once = filter.on_job_id(JobId(21));
    let d = deliver(filter.dispatch(frame(21, PLAIN_KIND, 4)));
    assert_eq!(d, Route::OnceById);
    assert_eq!(once.try_recv().unwrap().payload, vec![4]);
    assert!(fan.try_recv().is_err());
}

#[test]
fn unmatched_frames_drained_in_order() {
    let mut filter = MessageFilter::new();
    for tag in 0..3u8 {
        match filter.dispatch(frame(100 + tag as u64, OTHER_KIND, tag)) {
            Dispatch::Unmatched(evicted) => assert!(evicted.is_none()),
            _ => panic!("expected the frame to be unmatched"),
        }
    }
    assert_eq!(tags(&filter.unprocessed()), vec![0, 1, 2]);
    assert!(filter.unprocessed().is_empty());
}

#[test]
fn unmatched_buffer_keeps_last_capacity_frames() {
    let mut filter = MessageFilter::new();
    let total = UNMATCHED_CAPACITY + 3;
    let mut evicted = Vec::new();
    for tag in 0..total {
        if let Dispatch::Unmatched(Some(e)) = filter.dispatch(frame(1, OTHER_KIND, tag as u8)) {
            evicted.push(e.payload[0]);
        }
    }
    assert_eq!(evicted, vec![0, 1, 2]);
    let left = tags(&filter.unprocessed());
    let expected: Vec<u8> = (3..total).map(|t| t as u8).collect();
    assert_eq!(left, expected);
    assert_eq!(UNMATCHED_CAPACITY, 32);
}

#[test]
fn job_id_none_is_max() {
    assert_eq!(JobId::none(), JobId(u64::MAX));
    assert!(JobId::none().is_none());
    assert!(!JobId(0).is_none());
}

#[test]
fn later_stream_registration_replaces_earlier() {
    let mut filter = MessageFilter::new();
    let mut earlier = filter.on_job_id_multi(JobId(8));
    let mut later = filter.on_job_id_multi(JobId(8));
    assert_eq!(deliver(filter.dispatch(frame(8, PLAIN_KIND, 6))), Route::ManyById);
    assert_eq!(later.try_recv().unwrap().payload, vec![6]);
    assert!(earlier.try_recv().is_err());
}

#[test]
fn stream_channel_holds_its_bound() {
    let mut filter = MessageFilter::new();
    let _rx = filter.on_job_id_multi(JobId(9));
    for tag in 0..STREAM_CAPACITY {
        assert_eq!(deliver(filter.dispatch(frame(9, PLAIN_KIND, tag as u8))), Route::ManyById);
    }
    match filter.dispatch(frame(9, PLAIN_KIND, 99)) {
        Dispatch::Stream(tx, f) => assert!(tx.try_send(f).is_err()),
        _ => panic!("expected the streaming route"),
    }
    assert_eq!(STREAM_CAPACITY, 16);
}

#[test]
fn stream_outranks_single_answer_by_kind() {
    let mut filter = MessageFilter::new();
    let mut stream = filter.on_job_id_multi(JobId(12));
    let mut once = filter.one_kind(MsgKind(PLAIN_KIND));
    assert_eq!(deliver(filter.dispatch(frame(12, PLAIN_KIND, 1))), Route::ManyById);
    assert_eq!(deliver(filter.dispatch(frame(13, PLAIN_KIND, 2))), Route::OnceByKind);
    assert_eq!(stream.try_recv().unwrap().payload, vec![1]);
    assert_eq!(once.try_recv().unwrap().payload, vec![2]);
}

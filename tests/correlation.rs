use miraie::api::{unwrap_reply, SendMessageResponse, UnwrapStrategy};
use miraie::connection::{classify_frame, ConnectionState, Inbound, Step, Transport};
use miraie::correlation::{check_timeout, finish_wait, PendingRequests, SyncIds, WaitOutcome, FIRST_SYNC_ID};
use miraie::error::Error;
use miraie::json::Json;
use std::time::{Duration, Instant};

#[test]
fn ids_start_above_reserved_range_and_increase() {
    let mut ids = SyncIds::new();
    assert_eq!(ids.next_id(), Some(FIRST_SYNC_ID));
    assert_eq!(ids.next_id(), Some(11));
    assert_eq!(ids.next_id(), Some(12));
}

#[test]
fn reply_frame_with_id_eleven_gives_message_id() {
    let mut pending: PendingRequests<&str> = PendingRequests::new();
    assert!(pending.register(11, "caller").is_ok());
    let frame = r#"{"syncId":"11","data":{"code":0,"messageId":555}}"#;
    let (id, data) = match classify_frame(frame) {
        Ok(Inbound::Reply { id, data }) => (id, data),
        other => panic!("not a reply: {:?}", other),
    };
    assert_eq!(id, 11);
    assert_eq!(pending.take(id), Some("caller"));
    let body = finish_wait(WaitOutcome::Replied(data)).unwrap();
    let body = unwrap_reply(body, UnwrapStrategy::Flatten).unwrap().unwrap();
    let resp = SendMessageResponse::from_body(&body).unwrap();
    assert_eq!(resp.message_id, 555);
}

#[test]
fn late_reply_for_abandoned_id_is_discarded() {
    let mut pending: PendingRequests<u32> = PendingRequests::new();
    pending.register(20, 1).unwrap();
    pending.register(21, 2).unwrap();
    // The caller of 20 times out and stops waiting.
    assert_eq!(pending.take(20), Some(1));
    // Its reply arrives later: nobody gets it.
    assert_eq!(pending.take(20), None);
    assert!(!pending.is_pending(20));
    assert!(pending.is_pending(21));
    assert_eq!(pending.take(21), Some(2));
}

#[test]
fn register_refuses_taken_or_non_positive_ids() {
    let mut pending: PendingRequests<u32> = PendingRequests::new();
    assert_eq!(pending.register(0, 5), Err(5));
    assert_eq!(pending.register(-3, 6), Err(6));
    assert_eq!(pending.register(4, 7), Ok(()));
    assert_eq!(pending.register(4, 8), Err(8));
    assert_eq!(pending.take(4), Some(7));
}

#[test]
fn frames_without_positive_id_are_broadcast() {
    for f in [
        r#"{"data":{"type":"GroupMessage"}}"#,
        r#"{"syncId":"","data":{"type":"GroupMessage"}}"#,
        r#"{"syncId":0,"data":{"type":"GroupMessage"}}"#,
        r#"{"syncId":"-1","data":{"type":"GroupMessage"}}"#,
    ] {
        match classify_frame(f) {
            Ok(Inbound::Broadcast { data }) => assert!(data.get("type").is_some()),
            other => panic!("not a broadcast: {:?}", other),
        }
    }
    match classify_frame(r#"{"syncId":12,"data":null}"#) {
        Ok(Inbound::Reply { id, data }) => {
            assert_eq!(id, 12);
            assert!(matches!(data, Json::Null));
        }
        other => panic!("not a reply: {:?}", other),
    }
}

#[test]
fn malformed_frames_are_errors() {
    assert!(matches!(classify_frame("not json"), Err(Error::Json(_))));
    assert!(matches!(classify_frame(r#"{"syncId":"abc","data":1}"#), Err(Error::Format { .. })));
    assert!(matches!(classify_frame(r#"{"syncId":"11"}"#), Err(Error::Format { .. })));
    assert!(matches!(classify_frame(r#"{"syncId":true,"data":1}"#), Err(Error::Format { .. })));
}

#[test]
fn first_unreadable_frame_is_swallowed_later_ones_reported() {
    let mut conn = ConnectionState::new();
    assert!(matches!(conn.on_transport(Transport::Text("{}".to_string())), Step::Skip));
    assert!(matches!(conn.on_transport(Transport::Text("{}".to_string())), Step::Report(Error::Format { .. })));
    assert!(matches!(conn.on_transport(Transport::Text("x".to_string())), Step::Report(Error::Json(_))));
    assert!(matches!(conn.on_transport(Transport::Other), Step::Skip));
    match conn.on_transport(Transport::Text(r#"{"syncId":"","data":{}}"#.to_string())) {
        Step::Publish { first, .. } => assert!(!first),
        other => panic!("not a publish: {:?}", other),
    }
    match conn.on_transport(Transport::Text(r#"{"syncId":"15","data":{}}"#.to_string())) {
        Step::Deliver { id, .. } => assert_eq!(id, 15),
        other => panic!("not a delivery: {:?}", other),
    }
}

#[test]
fn first_event_frame_is_marked_first() {
    let mut conn = ConnectionState::new();
    match conn.on_transport(Transport::Text(r#"{"syncId":"","data":{"code":0}}"#.to_string())) {
        Step::Publish { first, .. } => assert!(first),
        other => panic!("not a publish: {:?}", other),
    }
}

#[test]
fn closing_is_final() {
    let mut conn = ConnectionState::new();
    assert!(conn.outbound(11, "recall", None, "{}").is_ok());
    assert!(matches!(conn.on_transport(Transport::Closed), Step::Stop));
    assert!(conn.is_closed());
    assert!(matches!(conn.on_transport(Transport::Text("{}".to_string())), Step::Stop));
    assert!(matches!(conn.outbound(12, "recall", None, "{}"), Err(Error::ConnectionClosed)));
    let mut other = ConnectionState::new();
    other.close();
    assert!(matches!(other.on_transport(Transport::Other), Step::Stop));
    let mut failed = ConnectionState::new();
    assert!(matches!(failed.on_transport(Transport::Failed("reset".to_string())), Step::Stop));
}

#[test]
fn wait_outcomes() {
    assert!(matches!(finish_wait(WaitOutcome::Closed), Err(Error::ConnectionClosed)));
    assert!(matches!(finish_wait(WaitOutcome::Elapsed), Err(Error::RequestTimeout)));
    assert!(matches!(check_timeout(0), Err(Error::InvalidTimeout)));
    assert!(check_timeout(1).is_ok());
}

#[test]
fn unanswered_request_times_out_after_deadline() {
    let rt = tokio::runtime::Builder::new_current_thread().enable_time().build().unwrap();
    rt.block_on(async {
        let timeout = Duration::from_millis(50);
        check_timeout(timeout.as_nanos()).unwrap();
        let mut pending = PendingRequests::new();
        let (tx, rx) = tokio::sync::oneshot::channel::<Json>();
        pending.register(30, tx).unwrap();
        let start = Instant::now();
        let outcome = match tokio::time::timeout(timeout, rx).await {
            Ok(Ok(v)) => WaitOutcome::Replied(v),
            Ok(Err(_)) => WaitOutcome::Closed,
            Err(_) => WaitOutcome::Elapsed,
        };
        let waited = start.elapsed();
        assert!(pending.take(30).is_some());
        assert!(matches!(finish_wait(outcome), Err(Error::RequestTimeout)));
        assert!(waited >= Duration::from_millis(50));
        assert!(waited < Duration::from_millis(150));
    });
}

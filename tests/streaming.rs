use objectstorex::meta::{ObjectMeta, Timestamp};
use objectstorex::streaming::{
    start_download_stream, start_list_stream, StreamAction, StreamEvent, StreamItem, StreamKind,
    StreamMessage, StreamPhase,
};

fn meta(key: &str) -> ObjectMeta {
    ObjectMeta {
        location: key.to_string(),
        size: key.len() as u64,
        last_modified: Timestamp { secs: 1_700_000_000, nanos: 0 },
        e_tag: None,
        version: None,
    }
}

fn delivered(action: &StreamAction) -> Option<StreamMessage> {
    match action {
        StreamAction::DeliverAndPull(m) | StreamAction::DeliverAndStop(m) => Some(m.clone()),
        _ => None,
    }
}

#[test]
fn download_delivers_chunks_in_order_then_done() {
    let mut s = start_download_stream();
    let id = s.id();
    assert_eq!(s.kind(), StreamKind::Download);
    assert_eq!(s.phase(), StreamPhase::Starting);
    assert_eq!(s.step(StreamEvent::Opened), StreamAction::Pull);
    let chunks: Vec<Vec<u8>> = vec![b"hello ".to_vec(), b"".to_vec(), b"world".to_vec()];
    let mut content: Vec<u8> = Vec::new();
    for c in &chunks {
        let a = s.step(StreamEvent::Item(StreamItem::Chunk(c.clone())));
        assert_eq!(a, StreamAction::DeliverAndPull(StreamMessage::Chunk(id, c.clone())));
        if let Some(StreamMessage::Chunk(_, d)) = delivered(&a) {
            content.extend_from_slice(&d);
        }
    }
    assert_eq!(content, b"hello world".to_vec());
    assert_eq!(
        s.step(StreamEvent::Exhausted),
        StreamAction::DeliverAndStop(StreamMessage::Done(id))
    );
    assert_eq!(s.phase(), StreamPhase::Done);
    assert!(s.phase().is_finished());
}

#[test]
fn open_failure_delivers_one_error() {
    let mut s = start_download_stream();
    let id = s.id();
    let a = s.step(StreamEvent::Failed("not found".to_string()));
    assert_eq!(a, StreamAction::DeliverAndStop(StreamMessage::Error(id, "not found".to_string())));
    assert_eq!(s.phase(), StreamPhase::Errored);
    assert_eq!(s.step(StreamEvent::Exhausted), StreamAction::Stop);
}

#[test]
fn failure_mid_stream_ends_with_error_only() {
    let mut s = start_download_stream();
    let id = s.id();
    s.step(StreamEvent::Opened);
    s.step(StreamEvent::Item(StreamItem::Chunk(vec![1])));
    let a = s.step(StreamEvent::Failed("reset".to_string()));
    assert_eq!(a, StreamAction::DeliverAndStop(StreamMessage::Error(id, "reset".to_string())));
    assert_eq!(s.step(StreamEvent::Item(StreamItem::Chunk(vec![2]))), StreamAction::Stop);
    assert_eq!(s.phase(), StreamPhase::Errored);
}

#[test]
fn nothing_is_delivered_after_cancel() {
    let mut s = start_download_stream();
    s.step(StreamEvent::Opened);
    s.step(StreamEvent::Item(StreamItem::Chunk(vec![1, 2])));
    assert_eq!(s.step(StreamEvent::Cancelled), StreamAction::Stop);
    assert_eq!(s.phase(), StreamPhase::Cancelled);
    assert_eq!(s.step(StreamEvent::Item(StreamItem::Chunk(vec![3]))), StreamAction::Stop);
    assert_eq!(s.step(StreamEvent::Exhausted), StreamAction::Stop);
    assert_eq!(s.step(StreamEvent::Failed("late".to_string())), StreamAction::Stop);
    assert_eq!(s.phase(), StreamPhase::Cancelled);
}

#[test]
fn lost_receiver_stops_without_terminal_message() {
    let mut s = start_list_stream();
    s.step(StreamEvent::Item(StreamItem::Object(meta("a"))));
    assert_eq!(s.step(StreamEvent::ReceiverGone), StreamAction::Stop);
    assert_eq!(s.phase(), StreamPhase::ReceiverGone);
    assert_eq!(s.step(StreamEvent::Exhausted), StreamAction::Stop);
}

#[test]
fn listing_delivers_each_key_once_then_done() {
    let mut s = start_list_stream();
    let id = s.id();
    assert_eq!(s.kind(), StreamKind::Listing);
    assert_eq!(s.phase(), StreamPhase::Streaming);
    let keys = ["a/1", "a/2", "b/1", "c"];
    let mut messages = Vec::new();
    for k in keys.iter() {
        let a = s.step(StreamEvent::Item(StreamItem::Object(meta(k))));
        messages.push(delivered(&a).unwrap());
    }
    messages.push(delivered(&s.step(StreamEvent::Exhausted)).unwrap());
    assert_eq!(messages.len(), keys.len() + 1);
    for (i, k) in keys.iter().enumerate() {
        assert_eq!(messages[i], StreamMessage::Object(id, meta(k)));
    }
    assert_eq!(messages[keys.len()], StreamMessage::Done(id));
    assert!(messages.iter().all(|m| m.session_id() == id));
}

#[test]
fn empty_listing_delivers_only_done() {
    let mut s = start_list_stream();
    let id = s.id();
    assert_eq!(
        s.step(StreamEvent::Exhausted),
        StreamAction::DeliverAndStop(StreamMessage::Done(id))
    );
}

#[test]
fn sessions_have_distinct_ids() {
    let a = start_download_stream();
    let b = start_list_stream();
    assert_ne!(a.id(), b.id());
    assert_eq!((b.id() >> 76) & 0xF, 4);
}

#[test]
fn unregistered_session_observes_cancellation() {
    let mut s = start_download_stream();
    let id = s.id();
    assert_eq!(s.advance(true, StreamEvent::Opened), StreamAction::Pull);
    let a = s.advance(true, StreamEvent::Item(StreamItem::Chunk(vec![9])));
    assert_eq!(a, StreamAction::DeliverAndPull(StreamMessage::Chunk(id, vec![9])));
    let b = s.advance(false, StreamEvent::Item(StreamItem::Chunk(vec![10])));
    assert_eq!(b, StreamAction::Stop);
    assert_eq!(s.phase(), StreamPhase::Cancelled);
    assert_eq!(s.advance(true, StreamEvent::Exhausted), StreamAction::Stop);
}

#[test]
fn sessions_accept_only_their_kind_of_element() {
    let d = start_download_stream();
    let l = start_list_stream();
    let chunk = StreamEvent::Item(StreamItem::Chunk(vec![1]));
    let object = StreamEvent::Item(StreamItem::Object(meta("k")));
    assert!(d.accepts(&chunk));
    assert!(!d.accepts(&object));
    assert!(l.accepts(&object));
    assert!(!l.accepts(&chunk));
    assert!(d.accepts(&StreamEvent::Exhausted));
    assert!(l.accepts(&StreamEvent::Cancelled));
}

use sidecar_bridge::proxy::ProxyError;
use sidecar_bridge::stream::{
    method_from_upper, plan_stream, resolve_method, stream_channel, BodyRead, StreamEvent,
    StreamMethod, StreamRelay,
};

fn feed(relay: &mut StreamRelay, reads: Vec<BodyRead>) -> Vec<StreamEvent> {
    let mut out = Vec::new();
    for r in reads {
        if let Some(e) = relay.on_read(r) {
            out.push(e);
        }
    }
    out
}

#[test]
fn chunks_then_end_publish_chunks_then_done() {
    let mut relay = StreamRelay::new("abc");
    let events = feed(
        &mut relay,
        vec![
            BodyRead::Chunk(b"one".to_vec()),
            BodyRead::Chunk(b"two".to_vec()),
            BodyRead::Chunk(b"three".to_vec()),
            BodyRead::End,
        ],
    );
    assert_eq!(
        events,
        vec![
            StreamEvent::Chunk("one".to_string()),
            StreamEvent::Chunk("two".to_string()),
            StreamEvent::Chunk("three".to_string()),
            StreamEvent::Done,
        ]
    );
    assert!(relay.is_closed());
}

#[test]
fn failure_after_chunks_publishes_one_error_and_nothing_more() {
    let mut relay = StreamRelay::new("abc");
    let events = feed(
        &mut relay,
        vec![
            BodyRead::Chunk(b"a".to_vec()),
            BodyRead::Chunk(b"b".to_vec()),
            BodyRead::Failed("connection reset".to_string()),
            BodyRead::Chunk(b"late".to_vec()),
            BodyRead::End,
        ],
    );
    assert_eq!(
        events,
        vec![
            StreamEvent::Chunk("a".to_string()),
            StreamEvent::Chunk("b".to_string()),
            StreamEvent::Error("connection reset".to_string()),
        ]
    );
}

#[test]
fn empty_body_publishes_only_done() {
    let mut relay = StreamRelay::new("x");
    assert_eq!(feed(&mut relay, vec![BodyRead::End]), vec![StreamEvent::Done]);
}

#[test]
fn empty_chunks_publish_nothing() {
    let mut relay = StreamRelay::new("x");
    let events = feed(&mut relay, vec![BodyRead::Chunk(Vec::new()), BodyRead::End]);
    assert_eq!(events, vec![StreamEvent::Done]);
}

#[test]
fn chunk_text_is_decoded_lossily() {
    let mut relay = StreamRelay::new("x");
    let e = relay.on_read(BodyRead::Chunk(vec![0xe2, 0x82, 0xac, 0xc3]));
    assert_eq!(e, Some(StreamEvent::Chunk("\u{20AC}\u{FFFD}".to_string())));
}

#[test]
fn event_kinds() {
    assert_eq!(StreamEvent::Chunk(String::new()).kind(), "chunk");
    assert_eq!(StreamEvent::Done.kind(), "done");
    assert_eq!(StreamEvent::Error(String::new()).kind(), "error");
}

#[test]
fn distinct_ids_have_distinct_channels() {
    assert_eq!(stream_channel("req-1"), "stream-event-req-1");
    assert_ne!(stream_channel("req-1"), stream_channel("req-2"));
    let a = StreamRelay::new("a");
    let b = StreamRelay::new("b");
    assert_eq!(a.channel(), "stream-event-a");
    assert_eq!(b.channel(), "stream-event-b");
}

#[test]
fn interleaved_streams_keep_their_own_events() {
    let mut a = StreamRelay::new("a");
    let mut b = StreamRelay::new("b");
    assert_eq!(a.on_read(BodyRead::Chunk(b"a1".to_vec())), Some(StreamEvent::Chunk("a1".to_string())));
    assert_eq!(b.on_read(BodyRead::Chunk(b"b1".to_vec())), Some(StreamEvent::Chunk("b1".to_string())));
    assert_eq!(a.on_read(BodyRead::End), Some(StreamEvent::Done));
    assert_eq!(b.on_read(BodyRead::Chunk(b"b2".to_vec())), Some(StreamEvent::Chunk("b2".to_string())));
    assert!(a.is_closed());
    assert!(!b.is_closed());
}

#[test]
fn method_defaults_to_get_and_ignores_case() {
    assert_eq!(resolve_method(None), Ok(StreamMethod::Get));
    assert_eq!(resolve_method(Some("post")), Ok(StreamMethod::Post));
    assert_eq!(resolve_method(Some("Get")), Ok(StreamMethod::Get));
    assert_eq!(
        resolve_method(Some("delete")),
        Err(ProxyError::UnsupportedMethod("DELETE".to_string()))
    );
    assert_eq!(method_from_upper("POST"), Some(StreamMethod::Post));
    assert_eq!(method_from_upper("post"), None);
}

#[test]
fn plan_builds_url_method_and_channel() {
    let plan = plan_stream("/api/chat", Some("POST"), "c9").ok().unwrap();
    assert_eq!(plan.url, "http://127.0.0.1:9527/api/chat");
    assert_eq!(plan.method, StreamMethod::Post);
    assert_eq!(plan.relay.channel(), "stream-event-c9");
    assert!(!plan.relay.is_closed());
    assert!(plan_stream("/x", Some("PUT"), "c9").is_err());
}

use mcp_multi_tool::stream::{
    clone_events, progress_to_event, result_to_event, stream_payload, Poll, ProgressUpdate,
    StreamCollector,
};
use serde_json::Value;

fn update(progress: u64, message: &str) -> ProgressUpdate {
    ProgressUpdate {
        progress: Value::from(progress),
        total: Some(Value::from(10u64)),
        message: Some(message.to_string()),
    }
}

#[test]
fn streamed_call_ends_with_one_terminal_event() {
    let mut collector = StreamCollector::new();
    assert!(collector.on_poll(Poll::Progress(update(1, "one"))));
    assert!(collector.on_poll(Poll::Progress(update(2, "two"))));
    assert!(!collector.on_poll(Poll::TimedOut));
    let events = collector.finish(None, Some(Value::Bool(true)), Some(Value::Null));
    assert_eq!(events.len(), 3);
    assert_eq!(events[0].event, "chunk");
    assert_eq!(events[0].progress, Some(Value::from(1u64)));
    assert_eq!(events[0].total, Some(Value::from(10u64)));
    assert_eq!(events[0].message.as_deref(), Some("one"));
    assert_eq!(events[1].event, "chunk");
    assert_eq!(events[1].message.as_deref(), Some("two"));
    assert_eq!(events[2].event, "final");
    assert_eq!(events[2].structured, Some(Value::Bool(true)));
    assert_eq!(events[2].content, Some(Value::Null));
    assert_eq!(events[2].error, None);
    assert_eq!(events[2].progress, None);
    let last = events.len() - 1;
    assert!(events[..last].iter().all(|event| event.event == "chunk"));
}

#[test]
fn stream_without_progress_still_has_its_terminal_event() {
    let mut collector = StreamCollector::new();
    assert!(!collector.on_poll(Poll::Closed));
    let events = collector.finish(Some(true), None, None);
    assert_eq!(events.len(), 1);
    assert_eq!(events[0].event, "error");
    assert_eq!(events[0].error.as_deref(), Some("tool execution failed"));
    let quiet = StreamCollector::new().finish(Some(false), None, None);
    assert_eq!(quiet.len(), 1);
    assert_eq!(quiet[0].event, "final");
    assert_eq!(quiet[0].error, None);
}

#[test]
fn single_events() {
    let chunk = progress_to_event(ProgressUpdate {
        progress: Value::from(3u64),
        total: None,
        message: None,
    });
    assert_eq!(chunk.event, "chunk");
    assert_eq!(chunk.progress, Some(Value::from(3u64)));
    assert_eq!(chunk.total, None);
    assert_eq!(chunk.message, None);
    assert_eq!(chunk.structured, None);
    assert_eq!(chunk.content, None);
    assert_eq!(chunk.error, None);
    let failed = result_to_event(Some(true), Some(Value::from(1u64)), None);
    assert_eq!(failed.event, "error");
    assert_eq!(failed.structured, Some(Value::from(1u64)));
    let copies = clone_events(&vec![chunk.clone(), failed.clone()]);
    assert_eq!(copies.len(), 2);
    assert_eq!(copies[0].event, "chunk");
    assert_eq!(copies[1].event, "error");
    assert_eq!(copies[1].structured, Some(Value::from(1u64)));
}

#[test]
fn stream_payload_carries_the_events_and_the_snapshot() {
    let mut collector = StreamCollector::new();
    collector.on_poll(Poll::Progress(update(1, "one")));
    let events = collector.finish(None, None, None);
    let payload = stream_payload(&events, Some(Value::from(9u64)));
    assert_eq!(payload.mode, "stream");
    assert_eq!(payload.events.len(), 2);
    assert_eq!(payload.events[0].event, "chunk");
    assert_eq!(payload.events[1].event, "final");
    assert_eq!(payload.final_snapshot, Some(Value::from(9u64)));
}

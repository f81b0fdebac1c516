use k8s_openapi::serde_json::{self, Value};
use kube_watch::error::WatchError;
use kube_watch::event::{EventKind, WatchEvent};
use kube_watch::stream::{ReadOutcome, ResourceWatcher, StreamWatcher};

const UNTERMINATED: &str = "stream ended before the record was terminated";

fn object(text: &str) -> Value {
    serde_json::from_str(text).unwrap()
}

fn bytes(text: &str) -> ReadOutcome {
    ReadOutcome::Bytes(text.as_bytes().to_vec())
}

fn end_of_stream() -> ReadOutcome {
    ReadOutcome::Bytes(Vec::new())
}

#[test]
fn two_events_then_stream_closed() {
    let mut w = StreamWatcher::new();
    let stream = "{\"type\":\"ADDED\",\"object\":{\"kind\":\"Pod\",\"metadata\":{\"name\":\"a\",\"resourceVersion\":\"10\"}}}\n{\"type\":\"MODIFIED\",\"object\":{\"kind\":\"Pod\",\"metadata\":{\"name\":\"a\",\"resourceVersion\":\"11\"}}}\n";
    assert!(w.feed(bytes(stream)));
    assert!(w.feed(end_of_stream()));

    let first = w.next().unwrap().unwrap();
    assert_eq!(first.kind(), EventKind::Added);
    assert_eq!(first.resource_version(), Some("10".to_string()));
    assert_eq!(
        first,
        WatchEvent::Added(object("{\"kind\":\"Pod\",\"metadata\":{\"name\":\"a\",\"resourceVersion\":\"10\"}}"))
    );

    let second = w.next().unwrap().unwrap();
    assert_eq!(second.kind(), EventKind::Modified);
    assert_eq!(second.resource_version(), Some("11".to_string()));

    assert_eq!(w.next(), Some(Err(WatchError::StreamClosed)));
    assert_eq!(w.next(), Some(Err(WatchError::StreamClosed)));
}

#[test]
fn truncated_line_is_malformed_and_closes_the_session() {
    let mut w = StreamWatcher::new();
    assert!(w.feed(bytes("{\"type\":\"ADDED\",\"object\":\n{\"type\":\"DELETED\",\"object\":{}}\n")));
    match w.next() {
        Some(Err(WatchError::MalformedRecord { raw, cause })) => {
            assert_eq!(raw, b"{\"type\":\"ADDED\",\"object\":".to_vec());
            assert!(!cause.is_empty());
            assert_ne!(cause, UNTERMINATED);
        }
        other => panic!("unexpected {:?}", other),
    }
    assert!(!w.accepts_input());
    assert!(!w.feed(bytes("{\"type\":\"DELETED\",\"object\":{}}\n")));
    assert_eq!(w.next(), Some(Err(WatchError::StreamClosed)));
    assert_eq!(w.next(), Some(Err(WatchError::StreamClosed)));
}

#[test]
fn records_come_out_in_order_whatever_the_chunks() {
    let lines = [
        "{\"type\":\"ADDED\",\"object\":{\"metadata\":{\"resourceVersion\":\"1\"}}}",
        "{\"type\":\"MODIFIED\",\"object\":{\"metadata\":{\"resourceVersion\":\"2\"}}}",
        "{\"type\":\"BOOKMARK\",\"object\":{\"metadata\":{\"resourceVersion\":\"3\"}}}",
        "{\"type\":\"DELETED\",\"object\":{\"metadata\":{\"resourceVersion\":\"4\"}}}",
    ];
    let mut stream = String::new();
    for line in lines.iter() {
        stream.push_str(line);
        stream.push('\n');
    }
    for chunk in [1usize, 2, 7, 64, 1000] {
        let mut w = StreamWatcher::new();
        let mut versions = Vec::new();
        let mut rest = stream.as_bytes();
        loop {
            match w.next() {
                Some(Ok(event)) => versions.push(event.resource_version().unwrap()),
                Some(Err(e)) => panic!("unexpected {:?}", e),
                None => {
                    if rest.is_empty() {
                        break;
                    }
                    let n = chunk.min(rest.len());
                    assert!(w.feed(ReadOutcome::Bytes(rest[..n].to_vec())));
                    rest = &rest[n..];
                }
            }
        }
        assert_eq!(versions, vec!["1", "2", "3", "4"]);
        assert_eq!(w.next(), None);
    }
}

#[test]
fn a_watcher_without_input_waits() {
    let mut w = StreamWatcher::new();
    assert!(w.accepts_input());
    assert_eq!(w.next(), None);
    assert!(w.feed(bytes("{\"type\":\"ADDED\",")));
    assert_eq!(w.next(), None);
    assert!(w.feed(bytes("\"object\":{}}")));
    assert_eq!(w.next(), None);
    assert!(w.feed(bytes("\n")));
    assert_eq!(w.next(), Some(Ok(WatchEvent::Added(object("{}")))));
    assert_eq!(w.next(), None);
}

#[test]
fn unterminated_record_is_reported_at_the_end() {
    let mut w = StreamWatcher::new();
    assert!(w.feed(bytes("{\"type\":\"ADDED\",\"object\":{}}\n{\"type\":\"MODIFIED\",\"object\":{}}")));
    assert!(w.feed(end_of_stream()));
    assert_eq!(w.next(), Some(Ok(WatchEvent::Added(object("{}")))));
    assert_eq!(
        w.next(),
        Some(Err(WatchError::MalformedRecord {
            raw: b"{\"type\":\"MODIFIED\",\"object\":{}}".to_vec(),
            cause: UNTERMINATED.to_string(),
        }))
    );
    assert_eq!(w.next(), Some(Err(WatchError::StreamClosed)));
}

#[test]
fn stopped_watcher_answers_stopped_every_time() {
    let mut w = StreamWatcher::new();
    assert!(w.feed(bytes("{\"type\":\"ADDED\",\"object\":{}}\n")));
    w.stop();
    assert_eq!(w.next(), Some(Err(WatchError::Stopped)));
    assert_eq!(w.next(), Some(Err(WatchError::Stopped)));
    w.stop();
    w.feed(bytes("{\"type\":\"ADDED\",\"object\":{}}\n"));
    w.feed(end_of_stream());
    assert_eq!(w.next(), Some(Err(WatchError::Stopped)));
}

#[test]
fn stopped_watcher_without_input_asks_for_none() {
    let mut w = StreamWatcher::new();
    w.stop();
    assert_eq!(w.next(), Some(Err(WatchError::Stopped)));
}

#[test]
fn timeout_is_reported_once_and_the_session_goes_on() {
    let mut w = StreamWatcher::new();
    assert!(w.feed(bytes("{\"type\":\"ADDED\",\"obj")));
    assert!(w.feed(ReadOutcome::TimedOut));
    assert!(!w.accepts_input());
    assert!(!w.feed(bytes("ignored")));
    assert_eq!(w.next(), Some(Err(WatchError::TransportTimeout)));
    assert!(w.accepts_input());
    assert_eq!(w.next(), None);
    assert!(w.feed(bytes("ect\":{}}\n")));
    assert_eq!(w.next(), Some(Ok(WatchEvent::Added(object("{}")))));
}

#[test]
fn read_failure_is_reported_with_its_cause() {
    let mut w = StreamWatcher::new();
    assert!(w.feed(ReadOutcome::Failed("connection reset".to_string())));
    assert_eq!(w.next(), Some(Err(WatchError::TransportError { cause: "connection reset".to_string() })));
    assert_eq!(w.next(), None);
}

#[test]
fn records_before_a_timeout_come_first() {
    let mut w = StreamWatcher::new();
    assert!(w.feed(bytes("{\"type\":\"DELETED\",\"object\":{\"a\":1}}\n")));
    assert!(w.feed(ReadOutcome::TimedOut));
    assert_eq!(w.next(), Some(Ok(WatchEvent::Deleted(object("{\"a\":1}")))));
    assert_eq!(w.next(), Some(Err(WatchError::TransportTimeout)));
}

#[test]
fn empty_line_is_malformed() {
    let mut w = StreamWatcher::new();
    assert!(w.feed(bytes("\n")));
    match w.next() {
        Some(Err(WatchError::MalformedRecord { raw, .. })) => assert!(raw.is_empty()),
        other => panic!("unexpected {:?}", other),
    }
    assert_eq!(w.next(), Some(Err(WatchError::StreamClosed)));
}

#[test]
fn closed_stream_without_records() {
    let mut w = StreamWatcher::new();
    assert!(w.feed(end_of_stream()));
    assert!(!w.feed(bytes("late\n")));
    assert_eq!(w.next(), Some(Err(WatchError::StreamClosed)));
}

use kube_watch::error::WatchError;
use kube_watch::event::WatchEvent;
use kube_watch::resume::{Decision, ResumptionCursor};

fn v(text: &str) -> String {
    text.to_string()
}

fn cursor_at(versions: &[&str]) -> ResumptionCursor {
    let mut cursor = ResumptionCursor::new();
    for version in versions {
        cursor.observe(v(version));
    }
    cursor
}

#[test]
fn fresh_cursor_knows_nothing() {
    let cursor = ResumptionCursor::new();
    assert_eq!(cursor.latest(), None);
    assert_eq!(cursor.decide(&WatchError::StreamClosed), Decision::Relist);
    assert_eq!(cursor.decide(&WatchError::TransportTimeout), Decision::Relist);
    assert_eq!(cursor.decide(&WatchError::TransportError { cause: v("x") }), Decision::Relist);
    assert_eq!(cursor.decide(&WatchError::MalformedRecord { raw: vec![1], cause: v("x") }), Decision::Relist);
    assert_eq!(cursor.decide(&WatchError::Stopped), Decision::Halt);
}

#[test]
fn cursor_follows_new_versions() {
    let mut cursor = ResumptionCursor::new();
    assert!(cursor.observe(v("10")));
    assert_eq!(cursor.latest(), Some(v("10")));
    assert!(cursor.observe(v("11")));
    assert_eq!(cursor.latest(), Some(v("11")));
    assert!(!cursor.observe(v("11")));
    assert_eq!(cursor.latest(), Some(v("11")));
}

#[test]
fn cursor_never_goes_back() {
    let mut cursor = cursor_at(&["10", "11", "12"]);
    assert!(!cursor.observe(v("10")));
    assert_eq!(cursor.latest(), Some(v("12")));
    assert!(!cursor.observe(v("11")));
    assert_eq!(cursor.latest(), Some(v("12")));
    assert!(cursor.observe(v("9")));
    assert_eq!(cursor.latest(), Some(v("9")));
    assert!(!cursor.observe(v("12")));
    assert_eq!(cursor.latest(), Some(v("9")));
}

#[test]
fn stale_bookmark_is_ignored() {
    let mut cursor = ResumptionCursor::new();
    cursor.record(&WatchEvent::decode(b"{\"type\":\"ADDED\",\"object\":{\"metadata\":{\"resourceVersion\":\"10\"}}}").unwrap());
    cursor.record(&WatchEvent::decode(b"{\"type\":\"MODIFIED\",\"object\":{\"metadata\":{\"resourceVersion\":\"11\"}}}").unwrap());
    cursor.record(&WatchEvent::Bookmark { resource_version: v("10") });
    assert_eq!(cursor.latest(), Some(v("11")));
    cursor.record(&WatchEvent::Bookmark { resource_version: v("15") });
    assert_eq!(cursor.latest(), Some(v("15")));
    cursor.record(&WatchEvent::decode(b"{\"type\":\"DELETED\",\"object\":{\"metadata\":{}}}").unwrap());
    assert_eq!(cursor.latest(), Some(v("15")));
    cursor.record(&WatchEvent::ErrorStatus { code: Some(500), reason: None, message: None });
    assert_eq!(cursor.latest(), Some(v("15")));
}

#[test]
fn decisions_with_a_version() {
    let cursor = cursor_at(&["10", "11"]);
    assert_eq!(cursor.decide(&WatchError::TransportTimeout), Decision::Resume { version: v("11"), pause: true });
    assert_eq!(cursor.decide(&WatchError::StreamClosed), Decision::Resume { version: v("11"), pause: true });
    assert_eq!(
        cursor.decide(&WatchError::MalformedRecord { raw: b"{".to_vec(), cause: v("eof") }),
        Decision::Resume { version: v("11"), pause: false }
    );
    assert_eq!(
        cursor.decide(&WatchError::TransportError { cause: v("reset") }),
        Decision::Defer { version: v("11") }
    );
    assert_eq!(cursor.decide(&WatchError::Stopped), Decision::Halt);
    assert_eq!(cursor.decide(&WatchError::OpenError { status: 403, body: Vec::new() }), Decision::Halt);
    assert_eq!(cursor.decide(&WatchError::OpenError { status: 404, body: b"x".to_vec() }), Decision::Halt);
}

#[test]
fn gone_means_read_in_full() {
    let mut cursor = cursor_at(&["10"]);
    assert_eq!(cursor.decide(&WatchError::OpenError { status: 410, body: Vec::new() }), Decision::Relist);
    assert_eq!(cursor.latest(), Some(v("10")));

    cursor.record(&WatchEvent::ErrorStatus { code: Some(410), reason: Some(v("Expired")), message: None });
    assert_eq!(cursor.latest(), None);
    assert_eq!(cursor.decide(&WatchError::StreamClosed), Decision::Relist);
    assert_eq!(cursor.decide(&WatchError::TransportTimeout), Decision::Relist);
    assert_eq!(cursor.decide(&WatchError::MalformedRecord { raw: Vec::new(), cause: v("") }), Decision::Relist);
    assert_eq!(cursor.decide(&WatchError::TransportError { cause: v("") }), Decision::Relist);
    assert_eq!(cursor.decide(&WatchError::Stopped), Decision::Halt);

    cursor.observe(v("11"));
    assert_eq!(cursor.latest(), None);

    cursor.restart(v("20"));
    assert_eq!(cursor.latest(), Some(v("20")));
    assert_eq!(cursor.decide(&WatchError::StreamClosed), Decision::Resume { version: v("20"), pause: true });
    assert!(cursor.observe(v("10")));
    assert_eq!(cursor.latest(), Some(v("10")));
}

#[test]
fn mark_expired_by_hand() {
    let mut cursor = cursor_at(&["1"]);
    cursor.mark_expired();
    assert_eq!(cursor.latest(), None);
    cursor.mark_expired();
    assert_eq!(cursor.decide(&WatchError::StreamClosed), Decision::Relist);
}

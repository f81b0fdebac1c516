use k8s_openapi::apimachinery::pkg::apis::meta::v1::WatchEvent as WireEvent;
use k8s_openapi::serde_json::Value;
use vstd::prelude::*;

verus! {

/// A JSON document held by `serde_json`. Its contents are read only
/// through the functions of this module.
#[verifier::external_type_specification]
#[verifier::external_body]
pub struct ExJsonValue(k8s_openapi::serde_json::Value);

/// The five kinds of watch event.
#[derive(Debug, Clone, Copy, PartialEq, Eq, Structural)]
pub enum EventKind {
    Added,
    Modified,
    Deleted,
    Bookmark,
    Error,
}

/// One change notification of a watch session.
#[derive(Debug, PartialEq)]
pub enum WatchEvent {
    /// The object was created; the payload is its new state.
    Added(Value),
    /// The object was changed; the payload is its new state.
    Modified(Value),
    /// The object was deleted; the payload is its last state.
    Deleted(Value),
    /// Nothing changed; the session has advanced to `resource_version`.
    Bookmark { resource_version: String },
    /// The server reported a failure as a status object.
    ErrorStatus { code: Option<i32>, reason: Option<String>, message: Option<String> },
    /// The server reported a failure as some other object.
    ErrorOther(Value),
}

/// What `serde_json::from_slice`, reading a `WatchEvent` of `k8s_openapi`
/// with JSON payloads, makes of a record: the event, or the text of the
/// parse error.
pub uninterp spec fn decoded_record(record: Seq<u8>) -> Result<WatchEvent, Seq<char>>;

/// The strings that a JSON document holds, each under the JSON pointer
/// that leads to it: what `serde_json::Value::pointer` and `Value::as_str`
/// find in it.
pub uninterp spec fn json_strings(document: Value) -> Map<Seq<char>, Seq<char>>;

/// The JSON pointer to the resource version of an object.
pub open spec fn version_pointer() -> Seq<char> {
    "/metadata/resourceVersion"@
}

/// The resource version that an object names, if it names one.
pub open spec fn object_version(object: Value) -> Option<Seq<char>> {
    if json_strings(object).contains_key(version_pointer()) {
        Some(json_strings(object)[version_pointer()])
    } else {
        None
    }
}

/// What `serde_json::from_slice` makes of the bytes of a JSON document: the
/// document, or the text of the parse error.
pub uninterp spec fn parsed_object(body: Seq<u8>) -> Result<Value, Seq<char>>;

/// Calls `serde_json::from_slice` for a `serde_json::Value`. The contract
/// only names the outcome: the same bytes always give the same document or
/// the same error text.
#[verifier::external_body]
fn parse_object(body: &[u8]) -> (r: Result<Value, String>)
    ensures
        match r {
            Ok(object) => parsed_object(body@) == Ok::<Value, Seq<char>>(object),
            Err(cause) => parsed_object(body@) == Err::<Value, Seq<char>>(cause@),
        },
{
    match k8s_openapi::serde_json::from_slice::<Value>(body) {
        Ok(object) => Ok(object),
        Err(e) => Err(e.to_string()),
    }
}

/// Calls `serde_json::from_slice` for a `WatchEvent` of `k8s_openapi` whose
/// payload is kept as JSON, and moves what it gives into a `WatchEvent` of
/// this crate, one variant for one; a bookmark's annotations and the
/// details of a status are left behind. The contract only names the
/// outcome: the same bytes always give the same event or the same error text.
#[verifier::external_body]
fn decode_record(record: &[u8]) -> (r: Result<WatchEvent, String>)
    ensures
        match r {
            Ok(event) => decoded_record(record@) == Ok::<WatchEvent, Seq<char>>(event),
            Err(cause) => decoded_record(record@) == Err::<WatchEvent, Seq<char>>(cause@),
        },
{
    match k8s_openapi::serde_json::from_slice::<WireEvent<Value>>(record) {
        Ok(WireEvent::Added(o)) => Ok(WatchEvent::Added(o)),
        Ok(WireEvent::Modified(o)) => Ok(WatchEvent::Modified(o)),
        Ok(WireEvent::Deleted(o)) => Ok(WatchEvent::Deleted(o)),
        Ok(WireEvent::Bookmark { resource_version, .. }) => Ok(WatchEvent::Bookmark { resource_version }),
        Ok(WireEvent::ErrorStatus(s)) => Ok(WatchEvent::ErrorStatus { code: s.code, reason: s.reason, message: s.message }),
        Ok(WireEvent::ErrorOther(x)) => Ok(WatchEvent::ErrorOther(x.0)),
        Err(e) => Err(e.to_string()),
    }
}

/// Calls `serde_json::Value::pointer` with `pointer`, and `Value::as_str`
/// on what it finds: the string at that place of the document, or `None`
/// where the pointer leads nowhere or to something that is no string.
#[verifier::external_body]
fn string_at(document: &Value, pointer: &str) -> (r: Option<String>)
    ensures
        match r {
            Some(text) => json_strings(*document).contains_key(pointer@) && json_strings(*document)[pointer@]
                == text@,
            None => !json_strings(*document).contains_key(pointer@),
        },
{
    document.pointer(pointer).and_then(Value::as_str).map(String::from)
}

/// Reads the resource version that an object names.
fn read_object_version(object: &Value) -> (r: Option<String>)
    ensures
        match r {
            Some(version) => object_version(*object) == Some(version@),
            None => object_version(*object) is None,
        },
{
    string_at(object, "/metadata/resourceVersion")
}

impl WatchEvent {
    /// The kind of this event.
    pub open spec fn spec_kind(self) -> EventKind {
        match self {
            WatchEvent::Added(_) => EventKind::Added,
            WatchEvent::Modified(_) => EventKind::Modified,
            WatchEvent::Deleted(_) => EventKind::Deleted,
            WatchEvent::Bookmark { .. } => EventKind::Bookmark,
            WatchEvent::ErrorStatus { .. } => EventKind::Error,
            WatchEvent::ErrorOther(_) => EventKind::Error,
        }
    }

    /// The kind of this event.
    pub fn kind(&self) -> (k: EventKind)
        ensures
            k == self.spec_kind(),
    {
        match self {
            WatchEvent::Added(_) => EventKind::Added,
            WatchEvent::Modified(_) => EventKind::Modified,
            WatchEvent::Deleted(_) => EventKind::Deleted,
            WatchEvent::Bookmark { .. } => EventKind::Bookmark,
            WatchEvent::ErrorStatus { .. } => EventKind::Error,
            WatchEvent::ErrorOther(_) => EventKind::Error,
        }
    }

    /// The resource version that this event carries: that of its object for
    /// a change, its own for a bookmark, none for an error.
    pub open spec fn spec_resource_version(self) -> Option<Seq<char>> {
        match self {
            WatchEvent::Added(object) => object_version(object),
            WatchEvent::Modified(object) => object_version(object),
            WatchEvent::Deleted(object) => object_version(object),
            WatchEvent::Bookmark { resource_version } => Some(resource_version@),
            WatchEvent::ErrorStatus { .. } => None,
            WatchEvent::ErrorOther(_) => None,
        }
    }

    /// The resource version that this event carries, if any.
    pub fn resource_version(&self) -> (version: Option<String>)
        ensures
            match version {
                Some(v) => self.spec_resource_version() == Some(v@),
                None => self.spec_resource_version() is None,
            },
    {
        match self {
            WatchEvent::Added(object) => read_object_version(object),
            WatchEvent::Modified(object) => read_object_version(object),
            WatchEvent::Deleted(object) => read_object_version(object),
            WatchEvent::Bookmark { resource_version } => Some(resource_version.clone()),
            WatchEvent::ErrorStatus { .. } => None,
            WatchEvent::ErrorOther(_) => None,
        }
    }

    /// Whether this event says that the resource version the watch was
    /// opened from has left the server's history.
    pub open spec fn spec_is_gone(self) -> bool {
        self matches WatchEvent::ErrorStatus { code: Some(code), .. } && code == 410
    }

    /// Whether this event says that the resource version the watch was
    /// opened from has left the server's history.
    pub fn is_gone(&self) -> (gone: bool)
        ensures
            gone == self.spec_is_gone(),
    {
        match self {
            WatchEvent::ErrorStatus { code: Some(code), .. } => *code == 410,
            _ => false,
        }
    }

    /// Decodes one record of a watch stream.
    pub fn decode(record: &[u8]) -> (r: Result<WatchEvent, String>)
        ensures
            match r {
                Ok(event) => decoded_record(record@) == Ok::<WatchEvent, Seq<char>>(event),
                Err(cause) => decoded_record(record@) == Err::<WatchEvent, Seq<char>>(cause@),
            },
    {
        decode_record(record)
    }
}

/// The resource version of the object that `body` holds: `Err` with the
/// parser's words where the bytes are no JSON document, `None` where the
/// document has no string under `/metadata/resourceVersion`.
pub open spec fn body_version(body: Seq<u8>) -> Result<Option<Seq<char>>, Seq<char>> {
    match parsed_object(body) {
        Ok(object) => Ok(object_version(object)),
        Err(cause) => Err(cause),
    }
}

/// Reads the resource version of the object that `body` holds.
pub fn read_body_version(body: &[u8]) -> (r: Result<Option<String>, String>)
    ensures
        match r {
            Ok(Some(version)) => body_version(body@) == Ok::<_, Seq<char>>(Some(version@)),
            Ok(None) => body_version(body@) == Ok::<_, Seq<char>>(None::<Seq<char>>),
            Err(cause) => body_version(body@) == Err::<Option<Seq<char>>, _>(cause@),
        },
{
    match parse_object(body) {
        Ok(object) => Ok(read_object_version(&object)),
        Err(cause) => Err(cause),
    }
}

} // verus!

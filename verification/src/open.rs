use crate::error::{TransportError, WatchError, WatchFault};
use crate::event::{body_version, read_body_version};
use crate::stream::{Session, StreamWatcher};
use vstd::prelude::*;
use vstd::string::*;

verus! {

/// A response whose status has been read, and whose body has been read in
/// full where it is not a stream.
#[derive(Debug, Clone, PartialEq, Eq)]
pub struct Reply {
    pub status: u16,
    pub body: Vec<u8>,
}

/// Whether `status` says that the request succeeded.
pub open spec fn is_success(status: u16) -> bool {
    200 <= status < 300
}

/// Whether `status` says that the request succeeded.
pub fn status_is_success(status: u16) -> (ok: bool)
    ensures
        ok == is_success(status),
{
    200 <= status && status < 300
}

/// The path and query of the streaming request that watches the object
/// `name` of the collection at `collection`, from `version` on.
pub open spec fn watch_path(collection: Seq<char>, name: Seq<char>, version: Seq<char>) -> Seq<char> {
    collection + "?watch=true&allowWatchBookmarks=true&fieldSelector=metadata.name="@ + name
        + "&resourceVersion="@ + version
}

/// The resource version to start from, given what reading the object's
/// body gave: the version found, the empty one where the object names none,
/// `None` where the body could not be made out.
pub open spec fn version_found(found: Result<Option<Seq<char>>, Seq<char>>) -> Option<Seq<char>> {
    match found {
        Ok(Some(version)) => Some(version),
        Ok(None) => Some(Seq::empty()),
        Err(_) => None,
    }
}

/// The resource version that a watch starts from: the one its caller asked
/// for, else the one of the object as it was just read.
pub open spec fn start_version(requested: Option<Seq<char>>, body: Seq<u8>) -> Option<Seq<char>> {
    match requested {
        Some(version) => Some(version),
        None => version_found(body_version(body)),
    }
}

/// What reading a body gave, as the contracts see it.
pub open spec fn finding(found: Result<Option<String>, String>) -> Result<Option<Seq<char>>, Seq<char>> {
    match found {
        Ok(Some(version)) => Ok(Some(version@)),
        Ok(None) => Ok(None),
        Err(cause) => Err(cause@),
    }
}

/// Picks the resource version to start from out of what reading the
/// object's body gave.
pub fn version_of_object(found: Result<Option<String>, String>) -> (version: Option<String>)
    ensures
        match version {
            Some(v) => version_found(finding(found)) == Some(v@),
            None => version_found(finding(found)) is None,
        },
{
    match found {
        Ok(Some(version)) => Some(version),
        Ok(None) => Some(String::new()),
        Err(_) => None,
    }
}

/// The first state of opening a watch: the object is being read, to see
/// that it exists and to learn its resource version.
#[derive(Debug, Clone, PartialEq, Eq)]
pub struct WatchOpening {
    /// The path to read the object from.
    pub object_path: String,
    /// The path of the collection that the object is in.
    pub collection_path: String,
    /// The name of the object.
    pub name: String,
    /// The resource version that the caller wants the watch to start from.
    pub requested: Option<String>,
}

/// The second state of opening a watch: the streaming request is being made.
#[derive(Debug, Clone, PartialEq, Eq)]
pub struct WatchStart {
    /// The path and query of the streaming request.
    pub path: String,
    /// The resource version that the watch starts from.
    pub version: String,
}

/// The caller's wish as the contracts see it.
pub open spec fn wish(requested: Option<String>) -> Option<Seq<char>> {
    match requested {
        Some(version) => Some(version@),
        None => None,
    }
}

impl WatchOpening {
    /// What the read of the object leads to: the fault that ends the
    /// opening, or the path and the version of the streaming request.
    pub open spec fn after_object(self, reply: Result<Reply, TransportError>) -> Result<
        (Seq<char>, Seq<char>),
        WatchFault,
    > {
        match reply {
            Err(e) => Err(WatchFault::of_transport(e@)),
            Ok(r) => if !is_success(r.status) {
                Err(WatchFault::OpenError { status: r.status, body: r.body@ })
            } else {
                match start_version(wish(self.requested), r.body@) {
                    Some(version) => Ok((watch_path(self.collection_path@, self.name@, version), version)),
                    None => Err(WatchFault::OpenError { status: r.status, body: r.body@ }),
                }
            },
        }
    }

    /// Takes the answer to the read of the object, and decides how the
    /// opening goes on. A transport failure, a status other than success and
    /// a body that is no JSON document each end it; no streaming request is
    /// then to be made.
    pub fn on_object(self, reply: Result<Reply, TransportError>) -> (next: Result<WatchStart, WatchError>)
        ensures
            match next {
                Ok(start) => self.after_object(reply) == Ok::<_, WatchFault>((start.path@, start.version@)),
                Err(e) => self.after_object(reply) == Err::<(Seq<char>, Seq<char>), _>(e@),
            },
    {
        let reply = match reply {
            Ok(reply) => reply,
            Err(e) => {
                return Err(WatchError::from_transport(e));
            },
        };
        if !status_is_success(reply.status) {
            return Err(WatchError::OpenError { status: reply.status, body: reply.body });
        }
        let version = match self.requested {
            Some(version) => version,
            None => match version_of_object(read_body_version(reply.body.as_slice())) {
                Some(version) => version,
                None => {
                    return Err(WatchError::OpenError { status: reply.status, body: reply.body });
                },
            },
        };
        let path = self.collection_path.concat("?watch=true&allowWatchBookmarks=true&fieldSelector=metadata.name=")
            .concat(self.name.as_str()).concat("&resourceVersion=").concat(version.as_str());
        Ok(WatchStart { path, version })
    }
}

impl WatchStart {
    /// What the streaming request leads to: a fault, or an open session.
    pub open spec fn after_stream(reply: Result<Reply, TransportError>) -> Option<WatchFault> {
        match reply {
            Err(e) => Some(WatchFault::of_transport(e@)),
            Ok(r) => if is_success(r.status) {
                None
            } else {
                Some(WatchFault::OpenError { status: r.status, body: r.body@ })
            },
        }
    }

    /// Takes the answer to the streaming request. On success the session is
    /// open, and its watcher has received nothing yet; the body of `reply`
    /// is not looked at. Any other status is reported with the body.
    pub fn on_stream(self, reply: Result<Reply, TransportError>) -> (opened: Result<StreamWatcher, WatchError>)
        ensures
            match opened {
                Ok(watcher) => Self::after_stream(reply) is None && watcher@ == Session::fresh(),
                Err(e) => Self::after_stream(reply) == Some(e@),
            },
    {
        match reply {
            Err(e) => Err(WatchError::from_transport(e)),
            Ok(reply) => {
                if status_is_success(reply.status) {
                    Ok(StreamWatcher::new())
                } else {
                    Err(WatchError::OpenError { status: reply.status, body: reply.body })
                }
            },
        }
    }
}

} // verus!

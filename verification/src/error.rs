use vstd::prelude::*;

verus! {

/// Why a transport could not complete a request or a read.
#[derive(Debug, Clone, PartialEq, Eq)]
pub enum TransportError {
    /// The operation ran into the transport's time limit.
    TimedOut,
    /// Any other failure, with the transport's description of it.
    Failed(String),
}

/// A transport failure as the contracts see it.
pub enum TransportFault {
    TimedOut,
    Failed(Seq<char>),
}

impl View for TransportError {
    type V = TransportFault;

    open spec fn view(&self) -> TransportFault {
        match self {
            TransportError::TimedOut => TransportFault::TimedOut,
            TransportError::Failed(cause) => TransportFault::Failed(cause@),
        }
    }
}

/// Every way in which opening or consuming a watch session can end.
#[derive(Debug, Clone, PartialEq, Eq)]
pub enum WatchError {
    /// The server answered a request of the opening sequence with a
    /// non-success status, or the object read before the watch was unusable.
    OpenError { status: u16, body: Vec<u8> },
    /// A read ran into the transport's time limit before a record was complete.
    TransportTimeout,
    /// The server ended the stream.
    StreamClosed,
    /// Bytes were received that do not form a watch event.
    MalformedRecord { raw: Vec<u8>, cause: String },
    /// The transport failed in some other way.
    TransportError { cause: String },
    /// The session was stopped by its owner.
    Stopped,
}

/// A watch error as the contracts see it.
pub enum WatchFault {
    OpenError { status: u16, body: Seq<u8> },
    TransportTimeout,
    StreamClosed,
    MalformedRecord { raw: Seq<u8>, cause: Seq<char> },
    TransportError { cause: Seq<char> },
    Stopped,
}

impl View for WatchError {
    type V = WatchFault;

    open spec fn view(&self) -> WatchFault {
        match self {
            WatchError::OpenError { status, body } => WatchFault::OpenError { status: *status, body: body@ },
            WatchError::TransportTimeout => WatchFault::TransportTimeout,
            WatchError::StreamClosed => WatchFault::StreamClosed,
            WatchError::MalformedRecord { raw, cause } => WatchFault::MalformedRecord { raw: raw@, cause: cause@ },
            WatchError::TransportError { cause } => WatchFault::TransportError { cause: cause@ },
            WatchError::Stopped => WatchFault::Stopped,
        }
    }
}

impl WatchFault {
    /// The fault under which a transport failure reaches the owner of a
    /// watch session: a timeout stays a timeout, anything else keeps its cause.
    pub open spec fn of_transport(fault: TransportFault) -> WatchFault {
        match fault {
            TransportFault::TimedOut => WatchFault::TransportTimeout,
            TransportFault::Failed(cause) => WatchFault::TransportError { cause },
        }
    }
}

impl WatchError {
    /// Reports a transport failure as a watch error.
    pub fn from_transport(e: TransportError) -> (r: WatchError)
        ensures
            r@ == WatchFault::of_transport(e@),
    {
        match e {
            TransportError::TimedOut => WatchError::TransportTimeout,
            TransportError::Failed(cause) => WatchError::TransportError { cause },
        }
    }
}

} // verus!

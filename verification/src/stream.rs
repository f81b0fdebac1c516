use crate::error::{WatchError, WatchFault};
use crate::event::{decoded_record, WatchEvent};
use vstd::prelude::*;
use vstd::string::*;

verus! {

/// The byte that ends a record.
pub const NEWLINE: u8 = 10;

/// What one read from the transport brought.
#[derive(Debug, Clone, PartialEq, Eq)]
pub enum ReadOutcome {
    /// The bytes that were read; none at all means the server ended the stream.
    Bytes(Vec<u8>),
    /// The read ran into the transport's time limit.
    TimedOut,
    /// The read failed in some other way.
    Failed(String),
}

/// A read outcome as the contracts see it.
pub enum Arrival {
    Bytes(Seq<u8>),
    TimedOut,
    Failed(Seq<char>),
}

impl View for ReadOutcome {
    type V = Arrival;

    open spec fn view(&self) -> Arrival {
        match self {
            ReadOutcome::Bytes(bytes) => Arrival::Bytes(bytes@),
            ReadOutcome::TimedOut => Arrival::TimedOut,
            ReadOutcome::Failed(cause) => Arrival::Failed(cause@),
        }
    }
}

/// A condition of the transport that the session has yet to report.
pub enum Signal {
    /// The server ended the stream. This one stays.
    Closed,
    /// A read timed out.
    TimedOut,
    /// A read failed.
    Failed(Seq<char>),
}

/// A watch session as the contracts see it.
pub struct Session {
    /// The bytes received and not yet consumed, in the order of arrival.
    pub pending: Seq<u8>,
    /// The condition that follows those bytes, if the transport reported one.
    pub signal: Option<Signal>,
    /// Whether the owner has stopped the session.
    pub stopped: bool,
}

/// What a poll of the session gives: nothing while it waits for input, else
/// an event or a fault.
pub type Delivery = Option<Result<WatchEvent, WatchFault>>;

/// The delivery of an event.
pub open spec fn delivers(event: WatchEvent) -> Delivery {
    Some(Ok(event))
}

/// The delivery of a fault.
pub open spec fn fails(fault: WatchFault) -> Delivery {
    Some(Err(fault))
}

/// The position of the first newline in `bytes`, or their length if there is none.
pub open spec fn first_newline(bytes: Seq<u8>) -> int
    decreases bytes.len(),
{
    if bytes.len() == 0 || bytes[0] == NEWLINE {
        0
    } else {
        1 + first_newline(bytes.skip(1))
    }
}

/// `first_newline` stays within the bytes, passes over no newline, and stops on one.
pub proof fn lemma_first_newline(bytes: Seq<u8>)
    ensures
        0 <= first_newline(bytes) <= bytes.len(),
        forall|j: int| 0 <= j < first_newline(bytes) ==> bytes[j] != NEWLINE,
        first_newline(bytes) < bytes.len() ==> bytes[first_newline(bytes)] == NEWLINE,
    decreases bytes.len(),
{
    if bytes.len() == 0 || bytes[0] == NEWLINE {
    } else {
        let rest = bytes.skip(1);
        lemma_first_newline(rest);
        assert forall|j: int| 0 <= j < first_newline(bytes) implies bytes[j] != NEWLINE by {
            if j > 0 {
                assert(bytes[j] == rest[j - 1]);
            }
        }
        assert(first_newline(rest) < rest.len() ==> rest[first_newline(rest)] == bytes[first_newline(bytes)]);
    }
}

/// A position that passes over no newline and stops on one, or at the end,
/// is the one `first_newline` gives.
pub proof fn lemma_first_newline_is(bytes: Seq<u8>, at: int)
    requires
        0 <= at <= bytes.len(),
        forall|j: int| 0 <= j < at ==> bytes[j] != NEWLINE,
        at < bytes.len() ==> bytes[at] == NEWLINE,
    ensures
        first_newline(bytes) == at,
{
    lemma_first_newline(bytes);
}

/// The text of the fault that reports bytes left over when the stream ended.
pub open spec fn unterminated_cause() -> Seq<char> {
    "stream ended before the record was terminated"@
}

impl Session {
    /// A session that has received nothing.
    pub open spec fn fresh() -> Session {
        Session { pending: Seq::empty(), signal: None, stopped: false }
    }

    /// Whether the pending bytes hold a complete record.
    pub open spec fn has_record(self) -> bool {
        first_newline(self.pending) < self.pending.len()
    }

    /// The first pending record, without the newline that ends it.
    pub open spec fn record(self) -> Seq<u8> {
        self.pending.take(first_newline(self.pending))
    }

    /// The pending bytes that follow the first record.
    pub open spec fn after_record(self) -> Seq<u8> {
        self.pending.skip(first_newline(self.pending) + 1)
    }

    /// Whether the session takes what the transport brings next.
    pub open spec fn accepts_input(self) -> bool {
        self.signal is None
    }

    /// The session after the transport brought `arrival`.
    pub open spec fn fed(self, arrival: Arrival) -> Session {
        if !self.accepts_input() {
            self
        } else {
            match arrival {
                Arrival::Bytes(bytes) => if bytes.len() == 0 {
                    Session { signal: Some(Signal::Closed), ..self }
                } else {
                    Session { pending: self.pending + bytes, ..self }
                },
                Arrival::TimedOut => Session { signal: Some(Signal::TimedOut), ..self },
                Arrival::Failed(cause) => Session { signal: Some(Signal::Failed(cause)), ..self },
            }
        }
    }

    /// The session after a record proved to be no event: what was pending
    /// is dropped, and the stream counts as ended.
    pub open spec fn corrupted(self) -> Session {
        Session { pending: Seq::empty(), signal: Some(Signal::Closed), ..self }
    }

    /// What a poll of this session gives.
    pub open spec fn delivery(self) -> Delivery {
        if self.stopped {
            Some(Err(WatchFault::Stopped))
        } else if self.has_record() {
            match decoded_record(self.record()) {
                Ok(event) => Some(Ok(event)),
                Err(cause) => Some(Err(WatchFault::MalformedRecord { raw: self.record(), cause })),
            }
        } else {
            match self.signal {
                None => None,
                Some(Signal::TimedOut) => Some(Err(WatchFault::TransportTimeout)),
                Some(Signal::Failed(cause)) => Some(Err(WatchFault::TransportError { cause })),
                Some(Signal::Closed) => if self.pending.len() > 0 {
                    Some(Err(WatchFault::MalformedRecord { raw: self.pending, cause: unterminated_cause() }))
                } else {
                    Some(Err(WatchFault::StreamClosed))
                },
            }
        }
    }

    /// The session after a poll.
    pub open spec fn polled(self) -> Session {
        if self.stopped {
            self
        } else if self.has_record() {
            match decoded_record(self.record()) {
                Ok(_) => Session { pending: self.after_record(), ..self },
                Err(_) => self.corrupted(),
            }
        } else {
            match self.signal {
                None => self,
                Some(Signal::Closed) => Session { pending: Seq::empty(), ..self },
                Some(_) => Session { signal: None, ..self },
            }
        }
    }
}

/// What a poll returned, as the contracts see it.
pub open spec fn delivery_of(polled: Option<Result<WatchEvent, WatchError>>) -> Delivery {
    match polled {
        None => None,
        Some(Ok(event)) => Some(Ok(event)),
        Some(Err(e)) => Some(Err(e@)),
    }
}

/// A condition of the transport, held until a poll reports it.
enum Held {
    Closed,
    TimedOut,
    Failed(String),
}

impl View for Held {
    type V = Signal;

    closed spec fn view(&self) -> Signal {
        match self {
            Held::Closed => Signal::Closed,
            Held::TimedOut => Signal::TimedOut,
            Held::Failed(cause) => Signal::Failed(cause@),
        }
    }
}

/// The consumer's end of a watch: it decodes, in the order of arrival, the
/// events of one session. It reads nothing itself; its owner hands it what
/// the transport brought and polls it for events.
pub trait ResourceWatcher {
    /// Whether the watcher has been stopped.
    spec fn stopped(&self) -> bool;

    /// Stops the watcher, for good.
    fn stop(&mut self)
        ensures
            final(self).stopped(),
    ;

    /// The next event or fault, or `None` where more input is needed first.
    /// A stopped watcher answers `Stopped`, and asks for no input.
    fn next(&mut self) -> (polled: Option<Result<WatchEvent, WatchError>>)
        ensures
            old(self).stopped() ==> final(self).stopped() && polled matches Some(Err(WatchError::Stopped)),
    ;
}

/// The decoder of one watch session over a stream of newline-terminated
/// JSON records.
pub struct StreamWatcher {
    buffer: Vec<u8>,
    signal: Option<Held>,
    stop: bool,
}

impl View for StreamWatcher {
    type V = Session;

    closed spec fn view(&self) -> Session {
        Session {
            pending: self.buffer@,
            signal: match self.signal {
                Some(held) => Some(held@),
                None => None,
            },
            stopped: self.stop,
        }
    }
}

/// Finds the first newline in `bytes`.
fn find_newline(bytes: &Vec<u8>) -> (at: usize)
    ensures
        at == first_newline(bytes@),
{
    let n: usize = bytes.len();
    let mut at: usize = 0;
    while at < n && bytes[at] != NEWLINE
        invariant
            n == bytes@.len(),
            at <= n,
            forall|j: int| 0 <= j < at ==> bytes@[j] != NEWLINE,
        decreases n - at,
    {
        at += 1;
    }
    proof {
        lemma_first_newline_is(bytes@, at as int);
    }
    at
}

impl StreamWatcher {
    /// A watcher for a session that has just been opened.
    pub fn new() -> (watcher: StreamWatcher)
        ensures
            watcher@ == Session::fresh(),
    {
        StreamWatcher { buffer: Vec::new(), signal: None, stop: false }
    }

    /// Whether the watcher takes what the transport brings next. It does
    /// until a timeout, a failure or the end of the stream has been handed to
    /// it, and again once a poll has reported the timeout or the failure.
    pub fn accepts_input(&self) -> (accepts: bool)
        ensures
            accepts == self@.accepts_input(),
    {
        self.signal.is_none()
    }

    /// Hands the watcher what one read from the transport brought. Returns
    /// whether the watcher took it; it takes nothing while it holds a
    /// condition that no poll has reported yet, nor after the stream's end.
    pub fn feed(&mut self, outcome: ReadOutcome) -> (taken: bool)
        ensures
            taken == old(self)@.accepts_input(),
            final(self)@ == old(self)@.fed(outcome@),
    {
        if self.signal.is_some() {
            return false;
        }
        match outcome {
            ReadOutcome::Bytes(bytes) => {
                if bytes.len() == 0 {
                    self.signal = Some(Held::Closed);
                } else {
                    let mut bytes = bytes;
                    self.buffer.append(&mut bytes);
                }
            },
            ReadOutcome::TimedOut => {
                self.signal = Some(Held::TimedOut);
            },
            ReadOutcome::Failed(cause) => {
                self.signal = Some(Held::Failed(cause));
            },
        }
        true
    }

    /// Settles what becomes of a record that was taken out of the stream,
    /// given what decoding it gave. An event is passed on and the session
    /// stays as it is. A record that is no event is reported, whole, with the
    /// decoder's words, and ends the session: what was pending is dropped,
    /// no input is taken any more, and later polls answer `StreamClosed`.
    pub fn settle(&mut self, record: Vec<u8>, decoded: Result<WatchEvent, String>) -> (settled: Result<
        WatchEvent,
        WatchError,
    >)
        ensures
            match decoded {
                Ok(event) => settled == Ok::<WatchEvent, WatchError>(event) && final(self)@ == old(self)@,
                Err(cause) => settled matches Err(e) && e@ == (WatchFault::MalformedRecord {
                    raw: record@,
                    cause: cause@,
                }) && final(self)@ == old(self)@.corrupted(),
            },
    {
        match decoded {
            Ok(event) => Ok(event),
            Err(cause) => {
                self.buffer.clear();
                self.signal = Some(Held::Closed);
                Err(WatchError::MalformedRecord { raw: record, cause })
            },
        }
    }

    /// Takes the first pending record out of the buffer.
    fn take_record(&mut self, end: usize) -> (record: Vec<u8>)
        requires
            end == first_newline(old(self).buffer@),
            end < old(self).buffer@.len(),
        ensures
            record@ == old(self)@.record(),
            final(self).buffer@ == old(self)@.after_record(),
            final(self).signal == old(self).signal,
            final(self).stop == old(self).stop,
    {
        assert(end < usize::MAX) by {
            vstd::std_specs::vec::axiom_spec_len(&self.buffer);
        }
        let mut record = self.buffer.split_off(end + 1);
        std::mem::swap(&mut self.buffer, &mut record);
        record.truncate(end);
        assert(record@ =~= old(self)@.record());
        assert(self.buffer@ =~= old(self)@.after_record());
        record
    }
}

impl ResourceWatcher for StreamWatcher {
    open spec fn stopped(&self) -> bool {
        self@.stopped
    }

    fn stop(&mut self)
        ensures
            final(self)@ == (Session { stopped: true, ..old(self)@ }),
    {
        self.stop = true;
    }

    fn next(&mut self) -> (polled: Option<Result<WatchEvent, WatchError>>)
        ensures
            delivery_of(polled) == old(self)@.delivery(),
            final(self)@ == old(self)@.polled(),
    {
        if self.stop {
            return Some(Err(WatchError::Stopped));
        }
        let end = find_newline(&self.buffer);
        if end < self.buffer.len() {
            let record = self.take_record(end);
            let decoded = WatchEvent::decode(record.as_slice());
            Some(self.settle(record, decoded))
        } else {
            match self.signal.take() {
                None => None,
                Some(Held::TimedOut) => Some(Err(WatchError::TransportTimeout)),
                Some(Held::Failed(cause)) => Some(Err(WatchError::TransportError { cause })),
                Some(Held::Closed) => {
                    self.signal = Some(Held::Closed);
                    if self.buffer.len() > 0 {
                        let mut raw: Vec<u8> = Vec::new();
                        std::mem::swap(&mut self.buffer, &mut raw);
                        let cause = String::from_str("stream ended before the record was terminated");
                        Some(Err(WatchError::MalformedRecord { raw, cause }))
                    } else {
                        assert(self.buffer@ =~= Seq::<u8>::empty());
                        Some(Err(WatchError::StreamClosed))
                    }
                },
            }
        }
    }
}

} // verus!

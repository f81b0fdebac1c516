use crate::error::WatchFault;
use crate::event::decoded_record;
use crate::stream::{delivers, fails, first_newline, lemma_first_newline_is, unterminated_cause, Arrival, Session, Signal, NEWLINE};
use vstd::prelude::*;

verus! {

/// The bytes of a stream that carries `records` in order, each ended by a newline.
pub open spec fn framed(records: Seq<Seq<u8>>) -> Seq<u8>
    decreases records.len(),
{
    if records.len() == 0 {
        Seq::empty()
    } else {
        records[0] + seq![NEWLINE] + framed(records.skip(1))
    }
}

/// Whether `bytes` hold no newline.
pub open spec fn unbroken(bytes: Seq<u8>) -> bool {
    forall|j: int| 0 <= j < bytes.len() ==> bytes[j] != NEWLINE
}

/// Whether each of `records` is one line that decodes to an event.
pub open spec fn all_valid(records: Seq<Seq<u8>>) -> bool {
    forall|i: int| 0 <= i < records.len() ==> unbroken(#[trigger] records[i]) && decoded_record(records[i]) is Ok
}

impl Session {
    /// The session after `n` polls.
    pub open spec fn polled_times(self, n: nat) -> Session
        decreases n,
    {
        if n == 0 {
            self
        } else {
            self.polled().polled_times((n - 1) as nat)
        }
    }
}

/// A line followed by a newline and more bytes is the first record of the whole.
pub proof fn lemma_first_record(line: Seq<u8>, rest: Seq<u8>)
    requires
        unbroken(line),
    ensures
        first_newline(line + seq![NEWLINE] + rest) == line.len(),
        (line + seq![NEWLINE] + rest).take(line.len() as int) == line,
        (line + seq![NEWLINE] + rest).skip(line.len() + 1 as int) == rest,
{
    let whole = line + seq![NEWLINE] + rest;
    assert forall|j: int| 0 <= j < line.len() implies whole[j] != NEWLINE by {
        assert(whole[j] == line[j]);
    }
    assert(whole[line.len() as int] == NEWLINE);
    lemma_first_newline_is(whole, line.len() as int);
    assert(whole.take(line.len() as int) =~= line);
    assert(whole.skip(line.len() + 1 as int) =~= rest);
}

/// Bytes without a newline hold no complete record.
pub proof fn lemma_no_record(bytes: Seq<u8>)
    requires
        unbroken(bytes),
    ensures
        first_newline(bytes) == bytes.len(),
{
    lemma_first_newline_is(bytes, bytes.len() as int);
}

/// Polling a session whose pending bytes begin with valid records consumes
/// them one by one and touches nothing else.
pub proof fn lemma_polls_consume_records(s: Session, records: Seq<Seq<u8>>, tail: Seq<u8>, k: nat)
    requires
        !s.stopped,
        s.pending == framed(records) + tail,
        all_valid(records),
        k <= records.len(),
    ensures
        s.polled_times(k) == (Session { pending: framed(records.skip(k as int)) + tail, ..s }),
    decreases k,
{
    if k == 0 {
        assert(records.skip(0) =~= records);
    } else {
        let first = records[0];
        let rest = framed(records.skip(1)) + tail;
        assert(s.pending =~= first + seq![NEWLINE] + rest);
        lemma_first_record(first, rest);
        let next = s.polled();
        assert(next == (Session { pending: rest, ..s }));
        assert forall|i: int| 0 <= i < records.skip(1).len() implies unbroken(#[trigger] records.skip(1)[i])
            && decoded_record(records.skip(1)[i]) is Ok by {
            assert(records.skip(1)[i] == records[i + 1]);
        }
        lemma_polls_consume_records(next, records.skip(1), tail, (k - 1) as nat);
        assert(records.skip(1).skip(k - 1) =~= records.skip(k as int));
    }
}

/// Order of delivery: a session that has received the bytes of valid
/// records, and nothing has been consumed yet, delivers with its poll number
/// `k` the event of record number `k`. No record is skipped, repeated or
/// moved.
pub proof fn law_records_in_order(s: Session, records: Seq<Seq<u8>>, tail: Seq<u8>, k: int)
    requires
        !s.stopped,
        s.pending == framed(records) + tail,
        all_valid(records),
        0 <= k < records.len(),
    ensures
        s.polled_times(k as nat).delivery() == delivers(decoded_record(records[k])->Ok_0),
{
    lemma_polls_consume_records(s, records, tail, k as nat);
    let at = s.polled_times(k as nat);
    let left = records.skip(k);
    let rest = framed(left.skip(1)) + tail;
    assert(left[0] == records[k]);
    assert(at.pending =~= left[0] + seq![NEWLINE] + rest);
    lemma_first_record(left[0], rest);
}

/// After the last record: once every complete record has been delivered, a
/// session with nothing left over waits for input, or reports the condition
/// that the transport raised behind the records; after the stream's end that
/// is `StreamClosed`, on every further poll.
pub proof fn law_after_last_record(s: Session, records: Seq<Seq<u8>>)
    requires
        !s.stopped,
        s.pending == framed(records),
        all_valid(records),
    ensures
        s.polled_times(records.len()).delivery() == match s.signal {
            None => None,
            Some(Signal::Closed) => fails(WatchFault::StreamClosed),
            Some(Signal::TimedOut) => fails(WatchFault::TransportTimeout),
            Some(Signal::Failed(cause)) => fails(WatchFault::TransportError { cause }),
        },
        s.signal == Some(Signal::Closed) ==> s.polled_times(records.len() + 1).delivery() == fails(
            WatchFault::StreamClosed,
        ),
{
    let n = records.len();
    assert(s.pending =~= framed(records) + Seq::<u8>::empty());
    lemma_polls_consume_records(s, records, Seq::empty(), n);
    let at = s.polled_times(n);
    assert(records.skip(n as int) =~= Seq::<Seq<u8>>::empty());
    assert(at.pending =~= Seq::<u8>::empty());
    lemma_no_record(at.pending);
    lemma_polled_times_step(s, n);
    assert(at.polled().pending =~= Seq::<u8>::empty()) by {
        if at.signal == Some(Signal::Closed) {
        }
    }
    lemma_no_record(at.polled().pending);
}

/// One more poll after `n` polls is `n + 1` polls.
pub proof fn lemma_polled_times_step(s: Session, n: nat)
    ensures
        s.polled_times(n + 1) == s.polled_times(n).polled(),
    decreases n,
{
    if n == 0 {
        assert(s.polled_times(1) == s.polled().polled_times(0));
    } else {
        lemma_polled_times_step(s.polled(), (n - 1) as nat);
    }
}

/// No record is lost at the end of the stream: bytes that the stream's end
/// leaves behind the last newline are reported, whole, as a malformed
/// record, after the complete records before them and before `StreamClosed`.
pub proof fn law_unterminated_record_is_reported(s: Session, records: Seq<Seq<u8>>, tail: Seq<u8>)
    requires
        !s.stopped,
        s.signal == Some(Signal::Closed),
        s.pending == framed(records) + tail,
        all_valid(records),
        unbroken(tail),
        tail.len() > 0,
    ensures
        s.polled_times(records.len()).delivery() == fails(
            WatchFault::MalformedRecord { raw: tail, cause: unterminated_cause() },
        ),
        s.polled_times(records.len() + 1).delivery() == fails(WatchFault::StreamClosed),
{
    let n = records.len();
    lemma_polls_consume_records(s, records, tail, n);
    let at = s.polled_times(n);
    assert(records.skip(n as int) =~= Seq::<Seq<u8>>::empty());
    assert(at.pending =~= tail);
    lemma_no_record(tail);
    lemma_polled_times_step(s, n);
    lemma_no_record(at.polled().pending);
}

/// A stopped session stays stopped: every poll answers `Stopped`, asks for
/// no input and changes nothing, however often it is repeated and whatever
/// the transport still brings.
pub proof fn law_stopped_stays_stopped(s: Session, n: nat, arrival: Arrival)
    requires
        s.stopped,
    ensures
        s.polled_times(n) == s,
        s.polled_times(n).delivery() == fails(WatchFault::Stopped),
        s.fed(arrival).stopped,
    decreases n,
{
    if n > 0 {
        law_stopped_stays_stopped(s.polled(), (n - 1) as nat, arrival);
    }
}

/// Chunking does not matter: bytes that arrive in two reads leave the
/// session as the same bytes do in one.
pub proof fn law_chunks_join(s: Session, a: Seq<u8>, b: Seq<u8>)
    requires
        a.len() > 0,
        b.len() > 0,
    ensures
        s.fed(Arrival::Bytes(a)).fed(Arrival::Bytes(b)) == s.fed(Arrival::Bytes(a + b)),
{
    assert((s.pending + a) + b =~= s.pending + (a + b));
}

/// Nothing is read ahead: what a session delivers from a complete record
/// does not depend on the bytes that arrive behind it, and it makes no
/// difference whether they arrive before the poll or after it.
pub proof fn law_delivery_ignores_later_bytes(s: Session, later: Seq<u8>)
    requires
        !s.stopped,
        s.has_record(),
        later.len() > 0,
    ensures
        s.fed(Arrival::Bytes(later)).delivery() == s.delivery(),
        s.fed(Arrival::Bytes(later)).polled() == s.polled().fed(Arrival::Bytes(later)),
{
    if s.accepts_input() {
        let line = s.record();
        let rest = s.after_record();
        crate::stream::lemma_first_newline(s.pending);
        assert(unbroken(line));
        assert(s.pending =~= line + seq![NEWLINE] + rest);
        assert(s.pending + later =~= line + seq![NEWLINE] + (rest + later));
        lemma_first_record(line, rest + later);
    }
}

} // verus!

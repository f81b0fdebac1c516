use crate::error::{WatchError, WatchFault};
use crate::event::WatchEvent;
use vstd::prelude::*;

verus! {

/// The status with which a server says that a resource version has left its history.
pub const STATUS_GONE: u16 = 410;

/// What the owner of a watch does once a session has ended.
#[derive(Debug, Clone, PartialEq, Eq)]
pub enum Decision {
    /// Open a new watch from `version`, after a short wait where `pause` is set.
    Resume { version: String, pause: bool },
    /// Read the resource in full first: no version is known from which a
    /// watch could go on.
    Relist,
    /// A watch could go on from `version`; whether to try again is the
    /// owner's choice.
    Defer { version: String },
    /// Stop: nothing is to follow this session.
    Halt,
}

/// A decision as the contracts see it.
pub enum Verdict {
    Resume { version: Seq<char>, pause: bool },
    Relist,
    Defer { version: Seq<char> },
    Halt,
}

impl View for Decision {
    type V = Verdict;

    open spec fn view(&self) -> Verdict {
        match self {
            Decision::Resume { version, pause } => Verdict::Resume { version: version@, pause: *pause },
            Decision::Relist => Verdict::Relist,
            Decision::Defer { version } => Verdict::Defer { version: version@ },
            Decision::Halt => Verdict::Halt,
        }
    }
}

/// What a cursor knows: the resource versions it was shown, each once, in
/// the order in which they were first shown, and whether the server has
/// disowned them.
pub struct Progress {
    pub seen: Seq<Seq<char>>,
    pub expired: bool,
}

impl Progress {
    /// A cursor that has been shown nothing.
    pub open spec fn fresh() -> Progress {
        Progress { seen: Seq::empty(), expired: false }
    }

    /// No version is held twice.
    pub open spec fn consistent(self) -> bool {
        forall|i: int, j: int| 0 <= i < j < self.seen.len() ==> self.seen[i] != self.seen[j]
    }

    /// Whether `a` was first shown before `b`.
    pub open spec fn older(self, a: Seq<char>, b: Seq<char>) -> bool {
        exists|i: int, j: int| 0 <= i < j < self.seen.len() && self.seen[i] == a && self.seen[j] == b
    }

    /// The newest version shown, from which a watch can go on.
    pub open spec fn latest(self) -> Option<Seq<char>> {
        if self.expired || self.seen.len() == 0 {
            None
        } else {
            Some(self.seen.last())
        }
    }

    /// The cursor after it was shown `version`: a version met before changes
    /// nothing, a new one becomes the newest.
    pub open spec fn observed(self, version: Seq<char>) -> Progress {
        if self.seen.contains(version) {
            self
        } else {
            Progress { seen: self.seen.push(version), ..self }
        }
    }

    /// The cursor after it was shown each of `versions` in turn.
    pub open spec fn observed_all(self, versions: Seq<Seq<char>>) -> Progress
        decreases versions.len(),
    {
        if versions.len() == 0 {
            self
        } else {
            self.observed_all(versions.drop_last()).observed(versions.last())
        }
    }

    /// The cursor after its owner was handed `event`: the version of a
    /// change or a bookmark is shown to it, the report that the versions
    /// have left the server's history is noted, anything else passes.
    pub open spec fn recorded(self, event: WatchEvent) -> Progress {
        if event.spec_is_gone() {
            Progress { expired: true, ..self }
        } else {
            match event.spec_resource_version() {
                Some(version) => self.observed(version),
                None => self,
            }
        }
    }

    /// The cursor after a full read that gave `version`.
    pub open spec fn restarted(version: Seq<char>) -> Progress {
        Progress { seen: seq![version], expired: false }
    }

    /// What to do after a session ended with `fault`.
    pub open spec fn verdict(self, fault: WatchFault) -> Verdict {
        match fault {
            WatchFault::Stopped => Verdict::Halt,
            WatchFault::OpenError { status, .. } => if status == STATUS_GONE {
                Verdict::Relist
            } else {
                Verdict::Halt
            },
            WatchFault::TransportTimeout | WatchFault::StreamClosed => match self.latest() {
                Some(version) => Verdict::Resume { version, pause: true },
                None => Verdict::Relist,
            },
            WatchFault::MalformedRecord { .. } => match self.latest() {
                Some(version) => Verdict::Resume { version, pause: false },
                None => Verdict::Relist,
            },
            WatchFault::TransportError { .. } => match self.latest() {
                Some(version) => Verdict::Defer { version },
                None => Verdict::Relist,
            },
        }
    }
}

/// The memory of one watch target: the resource versions that its events
/// carried, from which the place to resume is decided. It performs no I/O.
pub struct ResumptionCursor {
    seen: Vec<String>,
    expired: bool,
}

impl View for ResumptionCursor {
    type V = Progress;

    closed spec fn view(&self) -> Progress {
        Progress { seen: Seq::new(self.seen@.len(), |i: int| self.seen@[i]@), expired: self.expired }
    }
}

impl ResumptionCursor {
    /// A cursor for a target of which nothing has been seen yet.
    pub fn new() -> (cursor: ResumptionCursor)
        ensures
            cursor@ == Progress::fresh(),
            cursor@.consistent(),
    {
        let cursor = ResumptionCursor { seen: Vec::new(), expired: false };
        assert(cursor@.seen =~= Seq::<Seq<char>>::empty());
        cursor
    }

    /// Whether `version` has been shown to the cursor.
    fn has_seen(&self, version: &String) -> (found: bool)
        ensures
            found == self@.seen.contains(version@),
    {
        let n: usize = self.seen.len();
        let mut i: usize = 0;
        while i < n
            invariant
                n == self.seen@.len(),
                i <= n,
                forall|j: int| 0 <= j < i ==> self.seen@[j]@ != version@,
            decreases n - i,
        {
            if self.seen[i] == *version {
                assert(self@.seen[i as int] == version@);
                return true;
            }
            i += 1;
        }
        assert forall|j: int| 0 <= j < self@.seen.len() implies self@.seen[j] != version@ by {
            assert(self@.seen[j] == self.seen@[j]@);
        }
        false
    }

    /// Shows the cursor the resource version of an event that was decoded.
    /// Returns whether the version is new, and with that now the newest.
    pub fn observe(&mut self, version: String) -> (advanced: bool)
        requires
            old(self)@.consistent(),
        ensures
            advanced == !old(self)@.seen.contains(version@),
            final(self)@ == old(self)@.observed(version@),
            final(self)@.consistent(),
    {
        if self.has_seen(&version) {
            return false;
        }
        let ghost before = self@;
        self.seen.push(version);
        assert(self@.seen =~= before.seen.push(version@));
        proof {
            lemma_observed_extends(before, version@);
        }
        true
    }

    /// Takes note of an event that the session delivered.
    pub fn record(&mut self, event: &WatchEvent)
        requires
            old(self)@.consistent(),
        ensures
            final(self)@ == old(self)@.recorded(*event),
            final(self)@.consistent(),
    {
        if event.is_gone() {
            self.mark_expired();
        } else {
            match event.resource_version() {
                Some(version) => {
                    self.observe(version);
                },
                None => {},
            }
        }
    }

    /// Records that the server no longer holds the versions this cursor has
    /// seen: a watch cannot go on from any of them.
    pub fn mark_expired(&mut self)
        ensures
            final(self)@ == (Progress { expired: true, ..old(self)@ }),
            old(self)@.consistent() ==> final(self)@.consistent(),
    {
        self.expired = true;
    }

    /// Starts over from `version`, which a full read of the resource gave.
    pub fn restart(&mut self, version: String)
        ensures
            final(self)@ == Progress::restarted(version@),
            final(self)@.consistent(),
    {
        self.seen.clear();
        self.seen.push(version);
        self.expired = false;
        assert(self@.seen =~= seq![version@]);
    }

    /// The newest version seen, if a watch can go on from it.
    pub fn latest(&self) -> (version: Option<String>)
        ensures
            match version {
                Some(v) => self@.latest() == Some(v@),
                None => self@.latest() is None,
            },
    {
        let n: usize = self.seen.len();
        if self.expired || n == 0 {
            None
        } else {
            Some(self.seen[n - 1].clone())
        }
    }

    /// Decides what follows a session that ended with `reason`.
    pub fn decide(&self, reason: &WatchError) -> (decision: Decision)
        ensures
            decision@ == self@.verdict(reason@),
    {
        match reason {
            WatchError::Stopped => Decision::Halt,
            WatchError::OpenError { status, .. } => {
                if *status == STATUS_GONE {
                    Decision::Relist
                } else {
                    Decision::Halt
                }
            },
            WatchError::TransportTimeout | WatchError::StreamClosed => match self.latest() {
                Some(version) => Decision::Resume { version, pause: true },
                None => Decision::Relist,
            },
            WatchError::MalformedRecord { .. } => match self.latest() {
                Some(version) => Decision::Resume { version, pause: false },
                None => Decision::Relist,
            },
            WatchError::TransportError { .. } => match self.latest() {
                Some(version) => Decision::Defer { version },
                None => Decision::Relist,
            },
        }
    }
}

/// Showing a cursor a version keeps it free of duplicates and keeps what it
/// had seen, in place.
pub proof fn lemma_observed_extends(p: Progress, version: Seq<char>)
    requires
        p.consistent(),
    ensures
        p.observed(version).consistent(),
        p.observed(version).seen.len() >= p.seen.len(),
        p.observed(version).seen.take(p.seen.len() as int) == p.seen,
        p.observed(version).seen.contains(version),
        p.observed(version).expired == p.expired,
{
    let q = p.observed(version);
    assert(q.seen.take(p.seen.len() as int) =~= p.seen);
    if !p.seen.contains(version) {
        assert(q.seen[q.seen.len() - 1] == version);
    }
}

/// The newest version is older than none: whatever a cursor holds as the
/// place to resume, no version it has seen was first seen after it.
pub proof fn law_latest_is_newest(p: Progress, other: Seq<char>)
    requires
        p.consistent(),
        p.latest() is Some,
    ensures
        !p.older(p.latest()->0, other),
{
    if p.older(p.latest()->0, other) {
        let (i, j) = choose|i: int, j: int| 0 <= i < j < p.seen.len() && p.seen[i] == p.latest()->0 && p.seen[j] == other;
        assert(p.seen[i] == p.seen[p.seen.len() - 1]);
    }
}

/// Resumption never goes back: after a cursor was shown any further
/// versions, in any order and with any repetitions, stale ones among them,
/// the place to resume is not older than the one before, nor than any
/// version the cursor has ever been shown.
pub proof fn law_never_resumes_from_older(p: Progress, versions: Seq<Seq<char>>, seen_before: Seq<char>)
    requires
        p.consistent(),
        !p.expired,
        p.seen.contains(seen_before) || versions.contains(seen_before),
    ensures
        p.observed_all(versions).consistent(),
        p.observed_all(versions).latest() is Some,
        p.observed_all(versions).seen.contains(seen_before),
        !p.observed_all(versions).older(p.observed_all(versions).latest()->0, seen_before),
        p.latest() is Some ==> !p.observed_all(versions).older(p.observed_all(versions).latest()->0, p.latest()->0),
{
    lemma_observed_all_extends(p, versions);
    let q = p.observed_all(versions);
    if p.seen.contains(seen_before) {
        let i = choose|i: int| 0 <= i < p.seen.len() && p.seen[i] == seen_before;
        assert(q.seen.take(p.seen.len() as int)[i] == q.seen[i]);
    }
    assert(q.seen.contains(seen_before));
    law_latest_is_newest(q, seen_before);
    if p.latest() is Some {
        law_latest_is_newest(q, p.latest()->0);
    }
}

/// Showing a cursor several versions keeps it free of duplicates, keeps what
/// it had seen, in place, and leaves it holding each of them.
pub proof fn lemma_observed_all_extends(p: Progress, versions: Seq<Seq<char>>)
    requires
        p.consistent(),
    ensures
        p.observed_all(versions).consistent(),
        p.observed_all(versions).expired == p.expired,
        p.observed_all(versions).seen.len() >= p.seen.len(),
        p.observed_all(versions).seen.take(p.seen.len() as int) == p.seen,
        forall|v: Seq<char>| versions.contains(v) ==> p.observed_all(versions).seen.contains(v),
    decreases versions.len(),
{
    if versions.len() == 0 {
        assert(p.seen.take(p.seen.len() as int) =~= p.seen);
    } else {
        let head = versions.drop_last();
        let mid = p.observed_all(head);
        lemma_observed_all_extends(p, head);
        lemma_observed_extends(mid, versions.last());
        let q = mid.observed(versions.last());
        assert(q.seen.take(p.seen.len() as int) =~= p.seen) by {
            assert(mid.seen.take(p.seen.len() as int) == p.seen);
            assert(q.seen.take(mid.seen.len() as int) == mid.seen);
            assert forall|i: int| 0 <= i < p.seen.len() implies q.seen[i] == p.seen[i] by {
                assert(q.seen.take(mid.seen.len() as int)[i] == q.seen[i]);
                assert(mid.seen.take(p.seen.len() as int)[i] == mid.seen[i]);
            }
        }
        assert forall|v: Seq<char>| versions.contains(v) implies q.seen.contains(v) by {
            let k = choose|k: int| 0 <= k < versions.len() && versions[k] == v;
            if k == versions.len() - 1 {
            } else {
                assert(head[k] == v);
                assert(head.contains(v));
                assert(mid.seen.contains(v));
                let m = choose|m: int| 0 <= m < mid.seen.len() && mid.seen[m] == v;
                assert(q.seen.take(mid.seen.len() as int)[m] == q.seen[m]);
            }
        }
    }
}

} // verus!

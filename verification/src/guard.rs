//! The connection guard: the one shared, mutually exclusive handle to
//! the storage session that every front end goes through.
//!
//! The guard keeps an access log of enter/exit events, one complete
//! pair per granted operation. The log is the instrument by which
//! serialization is stated and checked: a well-formed log is a run of
//! complete windows, so no two operations ever interleave their use of
//! the session.

use vstd::prelude::*;
use crate::errors::Error;
use crate::errors::StorageError;
use crate::models::Instrument;
use crate::session::Limit;
use crate::session::Session;
use crate::session::lemma_fetch_ids_unique;
use crate::session::take_limit;
use crate::session::unique_ids;

verus! {

/// One entry in the guard's access log: the named caller entered the
/// session, or left it.
#[derive(Clone, Copy, Debug, PartialEq, Eq, Structural)]
pub enum AccessEvent {
    Enter(u64),
    Exit(u64),
}

/// The caller an event belongs to.
pub open spec fn event_caller(e: AccessEvent) -> u64 {
    match e {
        AccessEvent::Enter(c) => c,
        AccessEvent::Exit(c) => c,
    }
}

/// A log is serialized when it is a run of complete enter/exit pairs:
/// every even position enters, and the odd position after it exits for
/// the same caller.
pub open spec fn serialized(log: Seq<AccessEvent>) -> bool {
    &&& log.len() % 2 == 0
    &&& forall|i: int| 0 <= i < log.len() && i % 2 == 0 ==> (#[trigger] log[i]) is Enter
    &&& forall|i: int|
        0 <= i < log.len() && i % 2 == 1 ==> ((#[trigger] log[i]) is Exit && event_caller(log[i])
            == event_caller(log[i - 1]))
}

/// Appending one complete enter/exit window keeps a log serialized.
proof fn lemma_serialized_extend(log: Seq<AccessEvent>, caller: u64)
    requires
        serialized(log),
    ensures
        serialized(log + seq![AccessEvent::Enter(caller), AccessEvent::Exit(caller)]),
{
    let l2 = log + seq![AccessEvent::Enter(caller), AccessEvent::Exit(caller)];
    assert forall|i: int| 0 <= i < l2.len() && i % 2 == 0 implies (#[trigger] l2[i]) is Enter by {
        if i < log.len() {
            assert(l2[i] == log[i]);
        } else {
            assert(i == log.len());
        }
    }
    assert forall|i: int| 0 <= i < l2.len() && i % 2 == 1 implies ((#[trigger] l2[i]) is Exit
        && event_caller(l2[i]) == event_caller(l2[i - 1])) by {
        if i < log.len() {
            assert(l2[i] == log[i]);
            assert(l2[i - 1] == log[i - 1]);
        } else {
            assert(i == log.len() + 1);
            assert(l2[i - 1] == AccessEvent::Enter(caller));
        }
    }
}

/// The guarded session handle. Created once at process start and shared
/// by all front ends; at most one operation runs against the session at
/// any instant, and a poisoned guard grants nothing at all.
pub struct ConnectionGuard {
    /// The session the guard protects.
    pub session: Session,
    /// Set once a prior holder failed; a poisoned session is never
    /// handed out again.
    pub poisoned: bool,
    /// The instrumented record of every granted access, in order.
    pub log: Vec<AccessEvent>,
}

impl ConnectionGuard {
    /// The guard is well formed when its session is and its log is a
    /// run of complete, non-overlapping windows.
    pub open spec fn wf(&self) -> bool {
        &&& self.session.wf()
        &&& serialized(self.log@)
    }

    /// Wraps a session at process start: unpoisoned, with an empty log.
    pub fn new(session: Session) -> (r: ConnectionGuard)
        requires
            session.wf(),
        ensures
            r.wf(),
            r.session == session,
            !r.poisoned,
            r.log@ == Seq::<AccessEvent>::empty(),
    {
        ConnectionGuard { session, poisoned: false, log: Vec::new() }
    }

    /// Marks the session unusable, as a failure inside a prior holder
    /// would: every later acquisition is refused.
    pub fn poison(&mut self)
        ensures
            final(self).session == old(self).session,
            final(self).log == old(self).log,
            final(self).poisoned,
    {
        self.poisoned = true;
    }

    /// Grants `op` exclusive use of the session and returns its result:
    /// the log gains the operation's complete enter/exit window, so the
    /// operation shares the session with no one. A poisoned guard
    /// refuses with `ConnectionUnavailable` and logs nothing. Either
    /// way the session comes back unchanged and the guard is released.
    pub fn with_connection<R, F: FnOnce(&Session) -> R>(&mut self, caller: u64, op: F) -> (r:
        Result<R, Error>)
        requires
            old(self).wf(),
            call_requires(op, (&old(self).session,)),
        ensures
            final(self).wf(),
            final(self).session == old(self).session,
            final(self).poisoned == old(self).poisoned,
            old(self).poisoned ==> (r matches Err(e) && e == Error::ConnectionUnavailable
                && final(self).log == old(self).log),
            !old(self).poisoned ==> (r matches Ok(v) && call_ensures(
                op,
                (&old(self).session,),
                v,
            ) && final(self).log@ == old(self).log@ + seq![
                AccessEvent::Enter(caller),
                AccessEvent::Exit(caller),
            ]),
    {
        if self.poisoned {
            return Err(Error::ConnectionUnavailable);
        }
        self.log.push(AccessEvent::Enter(caller));
        let v = op(&self.session);
        self.log.push(AccessEvent::Exit(caller));
        proof {
            assert(self.log@ =~= old(self).log@ + seq![
                AccessEvent::Enter(caller),
                AccessEvent::Exit(caller),
            ]);
            lemma_serialized_extend(old(self).log@, caller);
        }
        Ok(v)
    }

    /// The fetch operation: acquires the guard, reads up to `limit`
    /// records inside its own window, releases, and hands back fresh
    /// snapshots in storage-assigned order. Every call re-queries the
    /// session; none changes it. Success is owed exactly when the guard
    /// is not poisoned and the session's link is up; each error names
    /// its cause.
    pub fn list_instruments(&mut self, caller: u64, limit: Limit) -> (r: Result<
        Vec<Instrument>,
        Error,
    >)
        requires
            old(self).wf(),
        ensures
            final(self).wf(),
            final(self).session == old(self).session,
            final(self).poisoned == old(self).poisoned,
            old(self).poisoned ==> (r matches Err(e) && e == Error::ConnectionUnavailable
                && final(self).log == old(self).log),
            !old(self).poisoned ==> final(self).log@ == old(self).log@ + seq![
                AccessEvent::Enter(caller),
                AccessEvent::Exit(caller),
            ],
            !old(self).poisoned && old(self).session.connected ==> (r matches Ok(v) && v@
                == take_limit(old(self).session.rows@, limit) && unique_ids(v@)),
            !old(self).poisoned && !old(self).session.connected ==> (r matches Err(e) && e
                == Error::FetchFailed(StorageError::Disconnected)),
    {
        if self.poisoned {
            return Err(Error::ConnectionUnavailable);
        }
        self.log.push(AccessEvent::Enter(caller));
        let r = self.session.query(limit);
        self.log.push(AccessEvent::Exit(caller));
        proof {
            assert(self.log@ =~= old(self).log@ + seq![
                AccessEvent::Enter(caller),
                AccessEvent::Exit(caller),
            ]);
            lemma_serialized_extend(old(self).log@, caller);
            lemma_fetch_ids_unique(old(self).session.rows@, limit);
        }
        r
    }
}

/// Concurrent fetches never interleave: in a serialized log, between
/// the enter events of any two operations stands the first operation's
/// exit, for the same caller. One operation's window closes before the
/// next one opens.
pub proof fn lemma_accesses_never_overlap(log: Seq<AccessEvent>, i: int, j: int)
    requires
        serialized(log),
        0 <= i < j < log.len(),
        log[i] is Enter,
        log[j] is Enter,
    ensures
        log[i + 1] is Exit,
        event_caller(log[i + 1]) == event_caller(log[i]),
        i + 1 < j,
{
    assert(i % 2 == 0);
    assert(j % 2 == 0);
}

} // verus!

//! The storage session as the library models it: the catalog rows one
//! live session would serve, whether its link to the store is up, and
//! the one read operation over it.
//!
//! A fetch is read-only and uncached: every call re-reads the catalog,
//! and on a storage error it fails outright rather than returning a
//! partial or defaulted sequence.

use vstd::prelude::*;
use crate::errors::Error;
use crate::errors::StorageError;
use crate::models::Instrument;

verus! {

/// The upper bound a caller puts on one fetch.
#[derive(Clone, Copy, Debug, PartialEq, Eq, Structural)]
pub enum Limit {
    /// Return at most this many records.
    Bounded(usize),
    /// Return every matching record.
    Unbounded,
}

/// What a fetch with the given limit returns out of the given catalog:
/// the whole catalog when unbounded, else its first `n` rows.
pub open spec fn take_limit(rows: Seq<Instrument>, limit: Limit) -> Seq<Instrument> {
    match limit {
        Limit::Unbounded => rows,
        Limit::Bounded(n) => if rows.len() <= n {
            rows
        } else {
            rows.take(n as int)
        },
    }
}

/// The identifiers of a run of records, in order.
pub open spec fn ids_of(rows: Seq<Instrument>) -> Seq<i32> {
    rows.map_values(|r: Instrument| r.id)
}

/// No two records share an identifier.
pub open spec fn unique_ids(rows: Seq<Instrument>) -> bool {
    forall|i: int, j: int|
        0 <= i < j < rows.len() ==> rows[i].id != rows[j].id
}

/// Checks a catalog for duplicate identifiers.
fn ids_unique(rows: &Vec<Instrument>) -> (r: bool)
    ensures
        r == unique_ids(rows@),
{
    let n = rows.len();
    let mut i: usize = 0;
    while i < n
        invariant
            i <= n == rows@.len(),
            forall|p: int, q: int|
                0 <= p < q < rows@.len() && p < i ==> rows@[p].id != rows@[q].id,
        decreases n - i,
    {
        let mut j = i + 1;
        while j < n
            invariant
                i < j <= n == rows@.len(),
                forall|p: int, q: int|
                    0 <= p < q < rows@.len() && p < i ==> rows@[p].id != rows@[q].id,
                forall|q: int| i < q < j ==> rows@[i as int].id != rows@[q].id,
            decreases n - j,
        {
            if rows[i].id == rows[j].id {
                return false;
            }
            j += 1;
        }
        i += 1;
    }
    true
}

/// The library's picture of one live storage session. Front ends never
/// touch a session directly; they reach it through the connection
/// guard, and each fetch hands back fresh snapshots of its rows.
pub struct Session {
    /// The catalog the session would serve, in storage-assigned order.
    pub rows: Vec<Instrument>,
    /// Whether the link to the store is up.
    pub connected: bool,
}

impl Session {
    /// A session is well formed when its catalog's identifiers are
    /// unique, as the store's primary key guarantees.
    pub open spec fn wf(&self) -> bool {
        unique_ids(self.rows@)
    }

    /// Builds a session over the given catalog. Returns `None` exactly
    /// when two rows share an identifier — a catalog no store with a
    /// primary key would hand out.
    pub fn new(rows: Vec<Instrument>, connected: bool) -> (r: Option<Session>)
        ensures
            r is Some <==> unique_ids(rows@),
            r matches Some(s) ==> s.rows@ == rows@ && s.connected == connected && s.wf(),
    {
        if ids_unique(&rows) {
            Some(Session { rows, connected })
        } else {
            None
        }
    }

    /// Drops or restores the link to the store: instrumentation for
    /// exercising connectivity failures.
    pub fn set_connected(&mut self, up: bool)
        ensures
            final(self).rows@ == old(self).rows@,
            final(self).connected == up,
    {
        self.connected = up;
    }

    /// The one read operation at session level: up to `limit` records,
    /// fresh from the front of the catalog, or the storage error when
    /// the link is down — never a partial or defaulted result.
    pub fn query(&self, limit: Limit) -> (r: Result<Vec<Instrument>, Error>)
        ensures
            self.connected ==> (r matches Ok(v) && v@ == take_limit(self.rows@, limit)),
            !self.connected ==> (r matches Err(e) && e == Error::FetchFailed(
                StorageError::Disconnected,
            )),
    {
        if !self.connected {
            return Err(Error::FetchFailed(StorageError::Disconnected));
        }
        let n: usize = match limit {
            Limit::Bounded(b) => if b <= self.rows.len() {
                b
            } else {
                self.rows.len()
            },
            Limit::Unbounded => self.rows.len(),
        };
        let mut out: Vec<Instrument> = Vec::new();
        let mut i: usize = 0;
        while i < n
            invariant
                i <= n <= self.rows@.len(),
                out@ =~= self.rows@.take(i as int),
            decreases n - i,
        {
            out.push(self.rows[i].clone());
            i += 1;
        }
        proof {
            assert(out@ =~= take_limit(self.rows@, limit));
        }
        Ok(out)
    }
}

/// For every limit, a fetch returns at most the bound when the bound is
/// finite, and returns every row when the limit is unbounded.
pub proof fn lemma_take_limit_bound(rows: Seq<Instrument>, limit: Limit)
    ensures
        limit matches Limit::Bounded(n) ==> take_limit(rows, limit).len() <= n,
        limit is Unbounded ==> take_limit(rows, limit) == rows,
        take_limit(rows, limit).len() <= rows.len(),
{
}

/// A fetch result is a prefix of the catalog: record `i` of the result
/// is row `i` of the store, in storage-assigned order.
pub proof fn lemma_take_limit_prefix(rows: Seq<Instrument>, limit: Limit)
    ensures
        forall|i: int|
            0 <= i < take_limit(rows, limit).len() ==> take_limit(rows, limit)[i] == rows[i],
{
}

/// Identifiers within one fetch result are unique whenever the
/// catalog's are. (That a record's identifier is never absent is built
/// into the record shape: `Instrument::id` is not optional.)
pub proof fn lemma_fetch_ids_unique(rows: Seq<Instrument>, limit: Limit)
    requires
        unique_ids(rows),
    ensures
        unique_ids(take_limit(rows, limit)),
{
    lemma_take_limit_prefix(rows, limit);
}

/// Fetching twice in sequence with no intervening writes yields the
/// same multiset of identifiers: each result is pinned to the unchanged
/// catalog, so the two agree record for record.
pub proof fn lemma_fetch_idempotent(
    rows: Seq<Instrument>,
    limit: Limit,
    first: Seq<Instrument>,
    second: Seq<Instrument>,
)
    requires
        first == take_limit(rows, limit),
        second == take_limit(rows, limit),
    ensures
        first == second,
        ids_of(first).to_multiset() == ids_of(second).to_multiset(),
{
}

} // verus!

//! The score repository: schema initialization, insertion, and ranked
//! retrieval against one owned connection. Methods take the repository
//! exclusively, so one call at a time touches the store; a host that
//! serves concurrent callers puts the repository behind a lock.
use vstd::prelude::*;

use crate::Row;
use crate::Score;
use crate::sorted_by_time;
use crate::db::db_rows;
use crate::db::db_schema_ready;
use crate::db::duration_secs;
use crate::db::exec_create_table;
use crate::db::exec_insert;
use crate::db::open_file_connection;
use crate::db::open_memory_connection;
use crate::db::query_top;
use crate::db::sys_now;
use crate::db::time_since_epoch;
use crate::id_above_all;
use crate::ranking_of;

verus! {

/// Mediates every read and write of the `scores` table through one
/// shared connection.
pub struct Repository {
    conn: rusqlite::Connection,
}

impl Repository {
    /// The rows of the repository's `scores` table, in insertion order.
    pub closed spec fn rows(self) -> Seq<Row> {
        db_rows(self.conn)
    }

    /// Whether the `scores` table exists with its four columns.
    pub closed spec fn schema_ready(self) -> bool {
        db_schema_ready(self.conn)
    }

    /// Opens a fresh, private in-memory store: no rows, no schema yet.
    pub fn open_in_memory() -> (r: Result<Repository, String>)
        ensures
            r is Ok ==> r->Ok_0.rows() == Seq::<Row>::empty() && !r->Ok_0.schema_ready(),
    {
        match open_memory_connection() {
            Ok(conn) => Ok(Repository { conn }),
            Err(e) => Err(e),
        }
    }

    /// Opens the database file at `path`, creating it if absent. An
    /// existing file keeps whatever rows it already holds.
    pub fn open(path: &str) -> (r: Result<Repository, String>) {
        match open_file_connection(path) {
            Ok(conn) => Ok(Repository { conn }),
            Err(e) => Err(e),
        }
    }

    /// Creates the `scores` table if it is absent. Idempotent: rows are
    /// never touched and an existing table is left as it is, so the
    /// call is safe at every process start, however often repeated.
    /// Success means the canonical table stands; a file whose `scores`
    /// table has some other shape is reported as an error, like any
    /// other unusable store, never adopted.
    pub fn ensure_schema(&mut self) -> (r: Result<(), String>)
        ensures
            final(self).rows() == old(self).rows(),
            old(self).schema_ready() ==> final(self).schema_ready(),
            r is Ok ==> final(self).schema_ready(),
    {
        exec_create_table(&mut self.conn)
    }

    /// Persists one completion. Once the schema has been ensured, the
    /// store appends exactly one row and assigns it a fresh positive
    /// id, strictly larger than the id of every row already present;
    /// the repository stamps the current Unix time. `name` and
    /// `time_ms` are stored as given, without validation. On failure
    /// nothing is written.
    pub fn record(&mut self, name: &str, time_ms: i64) -> (r: Result<Score, String>)
        ensures
            old(self).schema_ready() ==> final(self).schema_ready(),
            r is Err ==> final(self).rows() == old(self).rows(),
            r is Ok ==> {
                let s = r->Ok_0;
                &&& s.id is Some
                &&& s.name@ == name@
                &&& s.time_ms == time_ms
                &&& s.timestamp >= 0
            },
            old(self).schema_ready() && r is Ok ==> {
                let s = r->Ok_0;
                &&& s.id->0 >= 1
                &&& id_above_all(old(self).rows(), s.row().0)
                &&& final(self).rows() == old(self).rows().push(s.row())
            },
    {
        let now = sys_now();
        let dur = match time_since_epoch(&now) {
            Some(d) => d,
            None => {
                return Err("failed to read the system clock".to_owned());
            },
        };
        let secs = duration_secs(&dur);
        if secs > i64::MAX as u64 {
            return Err("failed to read the system clock".to_owned());
        }
        let timestamp = secs as i64;
        let id = match exec_insert(&mut self.conn, name, time_ms, timestamp) {
            Ok(id) => id,
            Err(e) => {
                return Err(e);
            },
        };
        Ok(Score { id: Some(id), name: name.to_owned(), time_ms, timestamp })
    }

    /// Returns up to `limit` scores, best (lowest) time first, ties in
    /// an order of the store's choosing. A non-positive `limit` yields
    /// no rows. Read-only.
    pub fn top_scores(&self, limit: i64) -> (r: Result<Vec<Score>, String>)
        ensures
            limit <= 0 ==> r is Ok && r->Ok_0@.len() == 0,
            limit >= 1 && r is Ok ==> ranking_of(self.rows(), limit as int, r->Ok_0@),
    {
        if limit <= 0 {
            Ok(Vec::new())
        } else {
            query_top(&self.conn, limit)
        }
    }
}

/// Schema initialization is idempotent. `s0`, `s1`, `s2` are the
/// repository before, between and after two `ensure_schema` calls of
/// which the first succeeded: whatever the second reported, the rows
/// are untouched and the schema is still in place.
pub proof fn lemma_schema_init_idempotent(s0: Repository, s1: Repository, s2: Repository)
    requires
        s1.rows() == s0.rows(),
        s1.schema_ready(),
        s2.rows() == s1.rows(),
        s1.schema_ready() ==> s2.schema_ready(),
    ensures
        s2.rows() == s0.rows(),
        s2.schema_ready(),
{
}

/// Store-assigned identifiers are strictly increasing. `added` are the
/// rows appended by successive `record` calls starting from `rows0`:
/// each one's id exceeds the ids of all rows then present - as
/// `record` ensures - so any two of them have distinct ids, growing in
/// insertion order.
pub proof fn lemma_monotonic_ids(rows0: Seq<Row>, added: Seq<Row>)
    requires
        forall|k: int| 0 <= k < added.len() ==> id_above_all(
            rows0 + added.take(k),
            (#[trigger] added[k]).0,
        ),
    ensures
        forall|k: int, l: int| 0 <= k < l < added.len() ==> added[k].0 < added[l].0,
{
    assert forall|k: int, l: int| 0 <= k < l < added.len() implies added[k].0 < added[l].0 by {
        let pre = rows0 + added.take(l);
        assert(id_above_all(pre, added[l].0));
        assert(pre[rows0.len() + k] == added[k]);
        assert(pre[rows0.len() + k].0 < added[l].0);
    }
}

/// A store holding no rows yields an empty ranking, whatever the limit.
pub proof fn lemma_empty_store_ranking(limit: int, out: Seq<Score>)
    requires
        ranking_of(Seq::<Row>::empty(), limit, out),
    ensures
        out.len() == 0,
{
}

/// Recording then retrieving round-trips: once `record` has appended a
/// row, any ranking wide enough for the whole table contains a score
/// standing for exactly that row.
pub proof fn lemma_round_trip(rows0: Seq<Row>, r: Row, limit: int, out: Seq<Score>)
    requires
        limit >= rows0.len() + 1,
        ranking_of(rows0.push(r), limit, out),
    ensures
        exists|i: int| 0 <= i < out.len() && (#[trigger] out[i]).row() == r,
{
    let rows = rows0.push(r);
    let sorted = choose|sorted: Seq<Row>| {
        &&& #[trigger] sorted.to_multiset() == rows.to_multiset()
        &&& sorted_by_time(sorted)
        &&& forall|i: int| 0 <= i < out.len() ==> (#[trigger] out[i]).row() == sorted[i]
    };
    rows.to_multiset_ensures();
    sorted.to_multiset_ensures();
    assert(sorted.len() == rows.len());
    assert(out.len() == rows.len());
    assert(rows[rows0.len() as int] == r);
    assert(rows.contains(r));
    assert(sorted.to_multiset().count(r) > 0);
    assert(sorted.contains(r));
    let i = choose|i: int| 0 <= i < sorted.len() && sorted[i] == r;
    assert(out[i].row() == r);
}

/// A ranking invents nothing: every returned score stands for a row of
/// the table.
pub proof fn lemma_ranking_from_table(rows: Seq<Row>, limit: int, out: Seq<Score>, i: int)
    requires
        ranking_of(rows, limit, out),
        0 <= i < out.len(),
    ensures
        rows.contains(out[i].row()),
{
    let sorted = choose|sorted: Seq<Row>| {
        &&& #[trigger] sorted.to_multiset() == rows.to_multiset()
        &&& sorted_by_time(sorted)
        &&& forall|k: int| 0 <= k < out.len() ==> (#[trigger] out[k]).row() == sorted[k]
    };
    rows.to_multiset_ensures();
    sorted.to_multiset_ensures();
    assert(i < sorted.len());
    assert(sorted.contains(sorted[i]));
    assert(rows.to_multiset().count(sorted[i]) > 0);
    assert(rows.contains(sorted[i]));
}

/// Rankings come best first: along any ranking, times never decrease.
pub proof fn lemma_ranking_sorted(rows: Seq<Row>, limit: int, out: Seq<Score>, i: int, j: int)
    requires
        ranking_of(rows, limit, out),
        0 <= i <= j < out.len(),
    ensures
        out[i].row().2 <= out[j].row().2,
{
    let sorted = choose|sorted: Seq<Row>| {
        &&& #[trigger] sorted.to_multiset() == rows.to_multiset()
        &&& sorted_by_time(sorted)
        &&& forall|k: int| 0 <= k < out.len() ==> (#[trigger] out[k]).row() == sorted[k]
    };
    rows.to_multiset_ensures();
    sorted.to_multiset_ensures();
    assert(out.len() <= sorted.len());
    if i < j {
        assert(sorted[i].2 <= sorted[j].2);
    }
}

} // verus!

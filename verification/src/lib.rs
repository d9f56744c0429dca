//! Persistence for a desktop game's leaderboard: player completion
//! times are recorded in an embedded SQLite store and read back ranked,
//! best (lowest) time first.
//!
//! The store is modelled as the sequence of rows of its `scores` table,
//! in insertion order; every operation's contract says what it does to
//! that sequence.
//!
//! Completion times are held as whole milliseconds in an INTEGER
//! column, never as floating-point seconds: callers that speak in
//! seconds convert at the boundary, and a store whose `time` column
//! was written in another shape is rejected when the schema is
//! ensured.
use vstd::prelude::*;

pub mod db;
pub mod repo;

verus! {

/// One leaderboard entry. `id` is absent until the store assigns one on
/// insert; `time_ms` is the completion time in whole milliseconds
/// (lower is better); `timestamp` is seconds since the Unix epoch,
/// captured by the repository at insertion time.
#[derive(Debug)]
pub struct Score {
    pub id: Option<i64>,
    pub name: String,
    pub time_ms: i64,
    pub timestamp: i64,
}

/// A persisted row, as the specifications see it:
/// `(id, name, time_ms, timestamp)`.
pub type Row = (int, Seq<char>, int, int);

impl Score {
    /// The row this score stands for, once the store has assigned an id.
    pub open spec fn row(self) -> Row {
        (self.id->0 as int, self.name@, self.time_ms as int, self.timestamp as int)
    }
}

/// True when `id` is strictly larger than the id of every row in `rows`.
pub open spec fn id_above_all(rows: Seq<Row>, id: int) -> bool {
    forall|i: int| 0 <= i < rows.len() ==> (#[trigger] rows[i]).0 < id
}

/// How many rows a query capped at `limit` may yield from a table of
/// `n` rows: `limit` clamped into `[0, n]`.
pub open spec fn cap(limit: int, n: int) -> int {
    if limit < 0 {
        0
    } else if limit < n {
        limit
    } else {
        n
    }
}

/// Times never decrease along `rows`.
pub open spec fn sorted_by_time(rows: Seq<Row>) -> bool {
    forall|i: int, j: int| 0 <= i < j < rows.len() ==> (#[trigger] rows[i]).2 <= (#[trigger] rows[j]).2
}

/// `out` ranks the table `rows` under `limit`: it is the first
/// `cap(limit, |rows|)` entries of some time-sorted rearrangement of
/// the whole table - so it holds the lowest times, ascending, ties in
/// an order of the store's choosing - and every entry carries its
/// store-assigned id.
pub open spec fn ranking_of(rows: Seq<Row>, limit: int, out: Seq<Score>) -> bool {
    &&& out.len() == cap(limit, rows.len() as int)
    &&& (forall|i: int| 0 <= i < out.len() ==> (#[trigger] out[i]).id is Some)
    &&& exists|sorted: Seq<Row>| {
        &&& #[trigger] sorted.to_multiset() == rows.to_multiset()
        &&& sorted_by_time(sorted)
        &&& forall|i: int| 0 <= i < out.len() ==> (#[trigger] out[i]).row() == sorted[i]
    }
}

} // verus!

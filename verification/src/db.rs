//! Trusted boundary around the embedded SQLite store and the system
//! clock: the connection type, the model of the `scores` table, and one
//! wrapper per outside call the repository makes.
use vstd::prelude::*;

use crate::Row;
use crate::Score;
use crate::id_above_all;
use crate::ranking_of;

verus! {

#[verifier::external_type_specification]
#[verifier::external_body]
pub struct ExConnection(rusqlite::Connection);

#[verifier::external_type_specification]
#[verifier::external_body]
pub struct ExSystemTime(std::time::SystemTime);

/// The rows of the connection's `scores` table, in insertion (rowid)
/// order; empty while the table does not exist. `time` is kept as
/// whole milliseconds in an INTEGER column: the store never holds
/// floating-point values.
pub uninterp spec fn db_rows(conn: rusqlite::Connection) -> Seq<Row>;

/// Whether the canonical `scores` table stands in the connection's
/// database: declared exactly `id INTEGER PRIMARY KEY AUTOINCREMENT,
/// name TEXT NOT NULL, time INTEGER NOT NULL, timestamp INTEGER NOT
/// NULL` - so `id` aliases the rowid and the store assigns it - with
/// nothing else (no trigger) attached to the table.
pub uninterp spec fn db_schema_ready(conn: rusqlite::Connection) -> bool;

/// Relies on rusqlite::Connection::open_in_memory: a fresh, private
/// in-memory database, holding no tables and hence no rows.
#[verifier::external_body]
pub(crate) fn open_memory_connection() -> (r: Result<rusqlite::Connection, String>)
    ensures
        r is Ok ==> db_rows(r->Ok_0) == Seq::<Row>::empty() && !db_schema_ready(r->Ok_0),
{
    rusqlite::Connection::open_in_memory().map_err(|e| e.to_string())
}

/// Relies on rusqlite::Connection::open: opens the database file at
/// `path`, creating it if absent. An existing file keeps its rows, so
/// nothing is promised of the contents.
#[verifier::external_body]
pub(crate) fn open_file_connection(path: &str) -> (r: Result<rusqlite::Connection, String>) {
    rusqlite::Connection::open(path).map_err(|e| e.to_string())
}

/// Relies on rusqlite::Connection::execute running SQLite's
/// `CREATE TABLE IF NOT EXISTS` (creates the `scores` table when it is
/// absent, leaves an existing one alone, never touches row data) and
/// on Connection::query_row over `sqlite_master`, whose `sql` column
/// holds each schema entry's `CREATE` text: success is reported only
/// when the one entry attached to `scores` is the canonical table, so
/// a pre-existing table of another shape, or one carrying a trigger,
/// comes back as an error, not as a ready store.
#[verifier::external_body]
pub(crate) fn exec_create_table(conn: &mut rusqlite::Connection) -> (r: Result<(), String>)
    ensures
        db_rows(*final(conn)) == db_rows(*old(conn)),
        db_schema_ready(*old(conn)) ==> db_schema_ready(*final(conn)),
        r is Ok ==> db_schema_ready(*final(conn)),
{
    conn.execute(
        "CREATE TABLE IF NOT EXISTS scores (id INTEGER PRIMARY KEY AUTOINCREMENT, name TEXT NOT NULL, time INTEGER NOT NULL, timestamp INTEGER NOT NULL)",
        [],
    )
    .map_err(|e| e.to_string())?;
    let canonical: bool = conn
        .query_row(
            "SELECT count(*) = 1 AND max(type = 'table' AND sql = 'CREATE TABLE scores (id INTEGER PRIMARY KEY AUTOINCREMENT, name TEXT NOT NULL, time INTEGER NOT NULL, timestamp INTEGER NOT NULL)') FROM sqlite_master WHERE tbl_name = 'scores'",
            [],
            |row| row.get(0),
        )
        .map_err(|e| e.to_string())?;
    if canonical { Ok(()) } else { Err("scores table has an unexpected shape".to_owned()) }
}

/// Relies on rusqlite::Connection::execute running SQLite's `INSERT`,
/// and on Connection::last_insert_rowid. On the canonical table - and
/// only there, which is why the strong clauses stand under
/// `db_schema_ready` - the key is `INTEGER PRIMARY KEY AUTOINCREMENT`,
/// so a successful insert appends exactly one row whose store-chosen
/// id is positive and strictly larger than every id the table has ever
/// held. A failed insert is undone by SQLite's statement-level abort
/// and leaves the table unchanged whatever its shape.
#[verifier::external_body]
pub(crate) fn exec_insert(
    conn: &mut rusqlite::Connection,
    name: &str,
    time_ms: i64,
    timestamp: i64,
) -> (r: Result<i64, String>)
    ensures
        db_schema_ready(*old(conn)) ==> db_schema_ready(*final(conn)),
        r is Err ==> db_rows(*final(conn)) == db_rows(*old(conn)),
        db_schema_ready(*old(conn)) && r is Ok ==> {
            &&& r->Ok_0 >= 1
            &&& id_above_all(db_rows(*old(conn)), r->Ok_0 as int)
            &&& db_rows(*final(conn)) == db_rows(*old(conn)).push(
                (r->Ok_0 as int, name@, time_ms as int, timestamp as int),
            )
        },
{
    let res = conn.execute(
        "INSERT INTO scores (name, time, timestamp) VALUES (?1, ?2, ?3)",
        (name, time_ms, timestamp),
    );
    match res {
        Ok(_) => Ok(conn.last_insert_rowid()),
        Err(e) => Err(e.to_string()),
    }
}

/// Relies on rusqlite::Connection::prepare and Statement::query_map
/// running SQLite's `SELECT ... ORDER BY time ASC LIMIT ?1`: the rows
/// with the `limit` smallest times (all of them when fewer), ascending,
/// ties in an order of the store's choosing.
#[verifier::external_body]
pub(crate) fn query_top(conn: &rusqlite::Connection, limit: i64) -> (r: Result<Vec<Score>, String>)
    requires
        limit >= 0,
    ensures
        r is Ok ==> ranking_of(db_rows(*conn), limit as int, r->Ok_0@),
{
    let mut stmt = conn
        .prepare("SELECT id, name, time, timestamp FROM scores ORDER BY time ASC LIMIT ?1")
        .map_err(|e| e.to_string())?;
    let rows = stmt
        .query_map((limit,), |row| {
            Ok(Score { id: Some(row.get(0)?), name: row.get(1)?, time_ms: row.get(2)?, timestamp: row.get(3)? })
        })
        .map_err(|e| e.to_string())?
        .collect::<Result<Vec<Score>, rusqlite::Error>>()
        .map_err(|e| e.to_string())?;
    Ok(rows)
}

/// Relies on std::time::SystemTime::now: the clock's current reading,
/// of which nothing is promised.
#[verifier::external_body]
pub(crate) fn sys_now() -> std::time::SystemTime {
    std::time::SystemTime::now()
}

/// Relies on std::time::SystemTime::duration_since: the span from the
/// Unix epoch to `t`, or nothing when the clock reads earlier than the
/// epoch.
#[verifier::external_body]
pub(crate) fn time_since_epoch(t: &std::time::SystemTime) -> Option<std::time::Duration> {
    t.duration_since(std::time::UNIX_EPOCH).ok()
}

/// Relies on std::time::Duration::as_secs: the span's whole seconds.
#[verifier::external_body]
pub(crate) fn duration_secs(d: &std::time::Duration) -> u64 {
    d.as_secs()
}

} // verus!

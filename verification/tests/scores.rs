use mahjongg_scores::Score;
use mahjongg_scores::repo::Repository;

fn fresh_repo() -> Repository {
    let mut repo = Repository::open_in_memory().unwrap();
    repo.ensure_schema().unwrap();
    repo
}

fn millis(seconds: f64) -> i64 {
    (seconds * 1000.0).round() as i64
}

#[test]
fn schema_init_idempotent() {
    let mut repo = Repository::open_in_memory().unwrap();
    repo.ensure_schema().unwrap();
    repo.ensure_schema().unwrap();
    // The one table is intact and usable through all four columns.
    let s = repo.record("Alice", millis(12.5)).unwrap();
    let top = repo.top_scores(10).unwrap();
    assert_eq!(top.len(), 1);
    assert_eq!(top[0].id, s.id);
    assert_eq!(top[0].name, "Alice");
    assert_eq!(top[0].time_ms, 12500);
    assert_eq!(top[0].timestamp, s.timestamp);
}

#[test]
fn insert_then_retrieve_round_trip() {
    let mut repo = fresh_repo();
    let s = repo.record("Alice", millis(12.5)).unwrap();
    assert!(s.id.is_some());
    assert_eq!(s.name, "Alice");
    assert_eq!(s.time_ms, 12500);
    assert!(s.timestamp >= 0);
    let top = repo.top_scores(10).unwrap();
    assert_eq!(top.len(), 1);
    assert_eq!(top[0].id, s.id);
    assert_eq!(top[0].name, s.name);
    assert_eq!(top[0].time_ms, s.time_ms);
    assert_eq!(top[0].timestamp, s.timestamp);
}

#[test]
fn ranking_order() {
    let mut repo = fresh_repo();
    repo.record("A", millis(30.0)).unwrap();
    repo.record("B", millis(10.0)).unwrap();
    repo.record("C", millis(20.0)).unwrap();
    let top = repo.top_scores(3).unwrap();
    let names: Vec<&str> = top.iter().map(|s| s.name.as_str()).collect();
    let times: Vec<i64> = top.iter().map(|s| s.time_ms).collect();
    assert_eq!(names, vec!["B", "C", "A"]);
    assert_eq!(times, vec![10000, 20000, 30000]);
}

#[test]
fn limit_truncation() {
    let mut repo = fresh_repo();
    repo.record("p1", millis(50.0)).unwrap();
    repo.record("p2", millis(10.0)).unwrap();
    repo.record("p3", millis(40.0)).unwrap();
    repo.record("p4", millis(20.0)).unwrap();
    repo.record("p5", millis(30.0)).unwrap();
    let top = repo.top_scores(2).unwrap();
    assert_eq!(top.len(), 2);
    let times: Vec<i64> = top.iter().map(|s| s.time_ms).collect();
    assert_eq!(times, vec![10000, 20000]);
}

#[test]
fn empty_store() {
    let repo = fresh_repo();
    let top = repo.top_scores(5).unwrap();
    assert!(top.is_empty());
}

#[test]
fn monotonic_ids() {
    let mut repo = fresh_repo();
    let mut last_id: i64 = 0;
    for i in 0..5 {
        let s = repo.record("Alice", 1000 + i).unwrap();
        let id = s.id.unwrap();
        assert!(id > last_id, "ids must strictly increase");
        last_id = id;
    }
}

#[test]
fn non_positive_limit_returns_no_rows() {
    let mut repo = fresh_repo();
    repo.record("Alice", 1000).unwrap();
    assert!(repo.top_scores(0).unwrap().is_empty());
    assert!(repo.top_scores(-3).unwrap().is_empty());
}

#[test]
fn record_without_schema_errors() {
    let mut repo = Repository::open_in_memory().unwrap();
    let res = repo.record("Alice", 1000);
    assert!(res.is_err());
    // Nothing was written: after the schema exists the store is empty.
    repo.ensure_schema().unwrap();
    assert!(repo.top_scores(10).unwrap().is_empty());
}

#[test]
fn top_scores_without_schema_errors() {
    let repo = Repository::open_in_memory().unwrap();
    assert!(repo.top_scores(1).is_err());
}

#[test]
fn duplicate_names_permitted() {
    let mut repo = fresh_repo();
    let first = repo.record("Dup", 2000).unwrap();
    let second = repo.record("Dup", 1000).unwrap();
    assert_ne!(first.id, second.id);
    let top = repo.top_scores(10).unwrap();
    assert_eq!(top.len(), 2);
    assert_eq!(top[0].name, "Dup");
    assert_eq!(top[1].name, "Dup");
}

#[test]
fn unvalidated_inputs_pass_through() {
    let mut repo = fresh_repo();
    let s: Score = repo.record("", -5000).unwrap();
    assert_eq!(s.name, "");
    assert_eq!(s.time_ms, -5000);
    let top = repo.top_scores(1).unwrap();
    assert_eq!(top.len(), 1);
    assert_eq!(top[0].name, "");
    assert_eq!(top[0].time_ms, -5000);
}

#[test]
fn foreign_table_shape_rejected() {
    // A shared in-memory database that outlives this seeding connection,
    // holding a `scores` table of the wrong shape.
    let uri = "file:foreign_shape_test?mode=memory&cache=shared";
    let seed = rusqlite::Connection::open(uri).unwrap();
    seed.execute("CREATE TABLE scores (id INTEGER, name TEXT)", [])
        .unwrap();
    let mut repo = Repository::open(uri).unwrap();
    assert!(repo.ensure_schema().is_err());
}

#[test]
fn trigger_on_scores_rejected() {
    let uri = "file:trigger_test?mode=memory&cache=shared";
    let seed = rusqlite::Connection::open(uri).unwrap();
    seed.execute(
        "CREATE TABLE scores (id INTEGER PRIMARY KEY AUTOINCREMENT, name TEXT NOT NULL, time INTEGER NOT NULL, timestamp INTEGER NOT NULL)",
        [],
    )
    .unwrap();
    seed.execute(
        "CREATE TRIGGER extra AFTER INSERT ON scores BEGIN INSERT INTO scores (name, time, timestamp) VALUES ('ghost', 0, 0); END",
        [],
    )
    .unwrap();
    let mut repo = Repository::open(uri).unwrap();
    assert!(repo.ensure_schema().is_err());
}

#[test]
fn canonical_preexisting_table_accepted() {
    let uri = "file:canonical_test?mode=memory&cache=shared";
    let seed = rusqlite::Connection::open(uri).unwrap();
    seed.execute(
        "CREATE TABLE scores (id INTEGER PRIMARY KEY AUTOINCREMENT, name TEXT NOT NULL, time INTEGER NOT NULL, timestamp INTEGER NOT NULL)",
        [],
    )
    .unwrap();
    let mut repo = Repository::open(uri).unwrap();
    repo.ensure_schema().unwrap();
    repo.record("Alice", 1000).unwrap();
    assert_eq!(repo.top_scores(10).unwrap().len(), 1);
}

#[test]
fn ties_keep_both_entries() {
    let mut repo = fresh_repo();
    repo.record("X", 1500).unwrap();
    repo.record("Y", 1500).unwrap();
    let top = repo.top_scores(5).unwrap();
    assert_eq!(top.len(), 2);
    assert_eq!(top[0].time_ms, 1500);
    assert_eq!(top[1].time_ms, 1500);
}

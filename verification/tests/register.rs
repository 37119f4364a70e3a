use rusqlite::Connection;
use state_store::error::StoreError;
use state_store::register::{ensure_schema, read_state, upsert_params, write_state};

fn ready() -> Connection {
    let mut conn = Connection::open_in_memory().unwrap();
    ensure_schema(&mut conn).unwrap();
    conn
}

fn count_rows(conn: &Connection, key: &str) -> i64 {
    conn.query_row("SELECT COUNT(*) FROM kv_store WHERE key = ?1", [key], |row| row.get(0))
        .unwrap()
}

#[test]
fn absent_before_first_write() {
    let conn = ready();
    assert_eq!(read_state(&conn).unwrap(), None);
}

#[test]
fn round_trip() {
    let mut conn = ready();
    write_state(&mut conn, "{\"balance\":100}").unwrap();
    assert_eq!(read_state(&conn).unwrap(), Some("{\"balance\":100}".to_string()));
}

#[test]
fn round_trip_of_unusual_strings() {
    let mut conn = ready();
    let values = vec![
        String::new(),
        " ".to_string(),
        "'; DROP TABLE kv_store; --".to_string(),
        "çok güzel \u{1F600} \"quoted\"".to_string(),
        "line one\nline two\ttabbed".to_string(),
        "nul\0inside".to_string(),
        "x".repeat(100_000),
    ];
    for value in values {
        write_state(&mut conn, &value).unwrap();
        assert_eq!(read_state(&conn).unwrap(), Some(value));
    }
}

#[test]
fn overwrite_not_duplication() {
    let mut conn = ready();
    write_state(&mut conn, "first").unwrap();
    assert_eq!(count_rows(&conn, "app_state"), 1);
    write_state(&mut conn, "second").unwrap();
    assert_eq!(count_rows(&conn, "app_state"), 1);
    assert_eq!(read_state(&conn).unwrap(), Some("second".to_string()));
    let total: i64 = conn.query_row("SELECT COUNT(*) FROM kv_store", [], |row| row.get(0)).unwrap();
    assert_eq!(total, 1);
}

#[test]
fn load_is_a_pure_observer() {
    let mut conn = ready();
    assert_eq!(read_state(&conn).unwrap(), None);
    assert_eq!(count_rows(&conn, "app_state"), 0);
    write_state(&mut conn, "kept").unwrap();
    assert_eq!(read_state(&conn).unwrap(), Some("kept".to_string()));
    assert_eq!(read_state(&conn).unwrap(), Some("kept".to_string()));
    assert_eq!(count_rows(&conn, "app_state"), 1);
}

#[test]
fn save_writes_the_fixed_key_of_the_fixed_table() {
    let mut conn = ready();
    write_state(&mut conn, "payload").unwrap();
    let (key, value): (String, String) = conn
        .query_row("SELECT key, value FROM kv_store", [], |row| Ok((row.get(0)?, row.get(1)?)))
        .unwrap();
    assert_eq!(key, "app_state");
    assert_eq!(value, "payload");
}

#[test]
fn load_reads_the_fixed_key_only() {
    let conn = ready();
    conn.execute("INSERT INTO kv_store (key, value) VALUES ('other', 'elsewhere')", []).unwrap();
    assert_eq!(read_state(&conn).unwrap(), None);
    conn.execute("INSERT INTO kv_store (key, value) VALUES ('app_state', 'here')", []).unwrap();
    assert_eq!(read_state(&conn).unwrap(), Some("here".to_string()));
}

#[test]
fn save_keeps_other_rows() {
    let mut conn = ready();
    conn.execute("INSERT INTO kv_store (key, value) VALUES ('other', 'elsewhere')", []).unwrap();
    write_state(&mut conn, "one").unwrap();
    write_state(&mut conn, "two").unwrap();
    let other: String = conn
        .query_row("SELECT value FROM kv_store WHERE key = 'other'", [], |row| row.get(0))
        .unwrap();
    assert_eq!(other, "elsewhere");
    assert_eq!(count_rows(&conn, "other"), 1);
    assert_eq!(count_rows(&conn, "app_state"), 1);
}

#[test]
fn schema_bootstrap_is_idempotent() {
    let mut conn = ready();
    write_state(&mut conn, "survives").unwrap();
    assert!(ensure_schema(&mut conn).is_ok());
    assert!(ensure_schema(&mut conn).is_ok());
    assert_eq!(read_state(&conn).unwrap(), Some("survives".to_string()));
    assert_eq!(count_rows(&conn, "app_state"), 1);
}

#[test]
fn schema_bootstrap_creates_the_table() {
    let mut conn = Connection::open_in_memory().unwrap();
    let before: i64 = conn
        .query_row("SELECT COUNT(*) FROM sqlite_master WHERE name = 'kv_store'", [], |r| r.get(0))
        .unwrap();
    assert_eq!(before, 0);
    ensure_schema(&mut conn).unwrap();
    let after: i64 = conn
        .query_row("SELECT COUNT(*) FROM sqlite_master WHERE name = 'kv_store'", [], |r| r.get(0))
        .unwrap();
    assert_eq!(after, 1);
    let rows: i64 = conn.query_row("SELECT COUNT(*) FROM kv_store", [], |r| r.get(0)).unwrap();
    assert_eq!(rows, 0);
    assert_eq!(read_state(&conn).unwrap(), None);
}

#[test]
fn null_values_are_refused_by_the_schema() {
    let conn = ready();
    assert!(conn
        .execute("INSERT INTO kv_store (key, value) VALUES ('app_state', NULL)", [])
        .is_err());
}

#[test]
fn load_without_schema_is_a_query_error() {
    let conn = Connection::open_in_memory().unwrap();
    match read_state(&conn) {
        Err(StoreError::Query(detail)) => assert!(detail.contains("no such table: kv_store")),
        other => panic!("unexpected {:?}", other),
    }
}

#[test]
fn save_without_schema_is_a_write_error() {
    let mut conn = Connection::open_in_memory().unwrap();
    match write_state(&mut conn, "lost") {
        Err(StoreError::Write(detail)) => assert!(detail.contains("no such table: kv_store")),
        other => panic!("unexpected {:?}", other),
    }
}

#[test]
fn load_of_a_value_that_is_not_text_is_a_query_error() {
    let conn = ready();
    conn.execute("INSERT INTO kv_store (key, value) VALUES ('app_state', x'00ff')", []).unwrap();
    assert!(matches!(read_state(&conn), Err(StoreError::Query(_))));
}

#[test]
fn schema_failure_is_a_schema_error() {
    let mut conn = Connection::open_in_memory().unwrap();
    conn.execute_batch("PRAGMA query_only = ON").unwrap();
    match ensure_schema(&mut conn) {
        Err(StoreError::Schema(detail)) => assert!(!detail.is_empty()),
        other => panic!("unexpected {:?}", other),
    }
}

#[test]
fn failed_save_leaves_the_store_as_it_was() {
    let mut conn = ready();
    write_state(&mut conn, "before").unwrap();
    conn.execute_batch("PRAGMA query_only = ON").unwrap();
    assert!(matches!(write_state(&mut conn, "after"), Err(StoreError::Write(_))));
    assert_eq!(read_state(&conn).unwrap(), Some("before".to_string()));
}

#[test]
fn upsert_params_are_the_key_then_the_value() {
    assert_eq!(upsert_params("payload"), vec!["app_state", "payload"]);
    assert_eq!(upsert_params(""), vec!["app_state", ""]);
    assert_eq!(upsert_params("app_state"), vec!["app_state", "app_state"]);
}

#[test]
fn register_works_on_a_shared_borrow() {
    let conn = ready();
    write_state(&conn, "through a shared borrow").unwrap();
    assert_eq!(read_state(&conn).unwrap(), Some("through a shared borrow".to_string()));
    ensure_schema(&conn).unwrap();
    assert_eq!(read_state(&conn).unwrap(), Some("through a shared borrow".to_string()));
}

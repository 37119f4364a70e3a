use state_store::commands::{initialise_database, load_state, save_state, to_message};
use state_store::error::StoreError;
use state_store::guard::AppDatabase;

#[test]
fn commands_round_trip() {
    let dir = tempfile::tempdir().unwrap();
    let connection = initialise_database(Some(dir.path().to_path_buf()), Ok(())).unwrap();
    let db = AppDatabase::new(connection);
    assert_eq!(load_state(&db), Ok(None));
    assert_eq!(save_state("{\"balance\":100}".to_string(), &db), Ok(()));
    assert_eq!(load_state(&db), Ok(Some("{\"balance\":100}".to_string())));
    assert_eq!(save_state("{\"balance\":250}".to_string(), &db), Ok(()));
    assert_eq!(load_state(&db), Ok(Some("{\"balance\":250}".to_string())));
}

#[test]
fn initialise_database_words_its_failures() {
    match initialise_database(None, Ok(())) {
        Err(text) => assert_eq!(text, "Uygulama veri dizini oluşturulamadı"),
        Ok(_) => panic!("no directory, yet a connection"),
    }
    let dir = tempfile::tempdir().unwrap();
    match initialise_database(Some(dir.path().to_path_buf()), Err("read-only file system".to_string())) {
        Err(text) => assert_eq!(text, "read-only file system"),
        Ok(_) => panic!("no directory, yet a connection"),
    }
    match initialise_database(Some(dir.path().join("absent")), Ok(())) {
        Err(text) => assert!(text.contains("unable to open database file")),
        Ok(_) => panic!("no directory, yet a connection"),
    }
}

#[test]
fn commands_report_engine_failures_in_the_engines_words() {
    let db = AppDatabase::new(rusqlite::Connection::open_in_memory().unwrap());
    assert_eq!(load_state(&db), Err("no such table: kv_store".to_string()));
    assert_eq!(save_state("x".to_string(), &db), Err("no such table: kv_store".to_string()));
}

#[test]
fn to_message_keeps_success_and_words_failure() {
    assert_eq!(to_message(Ok::<u8, StoreError>(3)), Ok(3));
    assert_eq!(
        to_message(Err::<u8, StoreError>(StoreError::LockUnavailable)),
        Err("Veritabanı kilidi alınamadı".to_string())
    );
    assert_eq!(
        to_message(Err::<u8, StoreError>(StoreError::Query("broken".to_string()))),
        Err("broken".to_string())
    );
}

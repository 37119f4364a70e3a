//! The fixed names of the store and the three SQL statements it ever runs.

use vstd::prelude::*;
use vstd::string::StringExecFns;

verus! {

/// Name of the database file inside the application's data directory.
pub const DB_FILE_NAME: &'static str = "financex.db";

/// Name of the key-value table.
pub const TABLE_KV: &'static str = "kv_store";

/// Key of the one row that holds the serialized application state.
pub const APP_STATE_KEY: &'static str = "app_state";

/// Text of the point lookup: the value of the row whose key is the first
/// bound parameter.
pub open spec fn select_text() -> Seq<char> {
    "SELECT value FROM "@ + TABLE_KV@ + " WHERE key = ?1"@
}

/// Text of the upsert: the row whose key is the first bound parameter gets
/// the second bound parameter as its value, whether or not it existed.
pub open spec fn upsert_text() -> Seq<char> {
    "INSERT INTO "@ + TABLE_KV@
        + " (key, value) VALUES (?1, ?2) ON CONFLICT(key) DO UPDATE SET value=excluded.value"@
}

/// Text of the schema statement: creates the key-value table unless it is
/// already there.
pub open spec fn schema_text() -> Seq<char> {
    "CREATE TABLE IF NOT EXISTS "@ + TABLE_KV@ + " (key TEXT PRIMARY KEY, value TEXT NOT NULL)"@
}

/// Builds the point lookup for the key-value table.
pub fn select_statement() -> (sql: String)
    ensures
        sql@ == select_text(),
{
    let sql = String::from_str("SELECT value FROM ");
    let sql = sql.concat(TABLE_KV);
    sql.concat(" WHERE key = ?1")
}

/// Builds the upsert for the key-value table.
pub fn upsert_statement() -> (sql: String)
    ensures
        sql@ == upsert_text(),
{
    let sql = String::from_str("INSERT INTO ");
    let sql = sql.concat(TABLE_KV);
    sql.concat(
        " (key, value) VALUES (?1, ?2) ON CONFLICT(key) DO UPDATE SET value=excluded.value",
    )
}

/// Builds the schema statement for the key-value table.
pub fn schema_statement() -> (sql: String)
    ensures
        sql@ == schema_text(),
{
    let sql = String::from_str("CREATE TABLE IF NOT EXISTS ");
    let sql = sql.concat(TABLE_KV);
    sql.concat(" (key TEXT PRIMARY KEY, value TEXT NOT NULL)")
}

} // verus!

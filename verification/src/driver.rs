//! The calls into `rusqlite`. Nothing in this file is proved: each contract
//! here is taken on trust from the SQLite binding.

use crate::db::StoredRow;
use rusqlite::Connection;
use vstd::prelude::*;

verus! {

/// `rusqlite::Connection`, an open SQLite database. Opaque to the verifier.
#[verifier::external_type_specification]
#[verifier::external_body]
pub struct ExConnection(rusqlite::Connection);

/// `rusqlite::Error`. Opaque to the verifier; the library maps it to
/// [`crate::error::StoreError`] and never looks inside.
#[verifier::external_type_specification]
#[verifier::external_body]
pub struct ExSqliteError(rusqlite::Error);

/// Calls `rusqlite::Connection::open`, which opens the database at `path`
/// and creates it when it does not exist. Whether that succeeds depends on
/// the file system, so nothing is claimed of the result.
#[verifier::external_body]
pub(crate) fn open(path: &str) -> (conn: Result<Connection, rusqlite::Error>) {
    Connection::open(path)
}

/// Calls `rusqlite::Connection::execute` with `sql`, binding the texts to its
/// first parameters and the numbers to the ones after them. The result is the
/// number of rows that the statement changed, or the binding's error. It
/// depends on what the database holds, so nothing is claimed of it.
#[verifier::external_body]
pub(crate) fn execute(
    conn: &Connection,
    sql: &str,
    texts: &Vec<&str>,
    numbers: &Vec<i64>,
) -> (changed: Result<usize, rusqlite::Error>) {
    let texts = texts.iter().map(|t| t as &dyn rusqlite::ToSql);
    let numbers = numbers.iter().map(|n| n as &dyn rusqlite::ToSql);
    conn.execute(sql, rusqlite::params_from_iter(texts.chain(numbers)))
}

/// Calls `rusqlite::Connection::prepare` with `sql`, a query that selects the
/// eight columns of the `tasks` table, then `Statement::query_map`, reading
/// each row's columns by `Row::get` in their order. The result holds one
/// entry for each row, in the order in which the database handed them out,
/// or the first error. It depends on what the database holds, so nothing is
/// claimed of it.
#[verifier::external_body]
pub(crate) fn query_rows(
    conn: &Connection,
    sql: &str,
) -> (rows: Result<Vec<StoredRow>, rusqlite::Error>) {
    let mut statement = conn.prepare(sql)?;
    let rows = statement.query_map([], |row| {
        Ok(StoredRow {
            id: row.get(0)?,
            name: row.get(1)?,
            description: row.get(2)?,
            deadline: row.get(3)?,
            status: row.get(4)?,
            priority: row.get(5)?,
            creator_id: row.get(6)?,
            executor_id: row.get(7)?,
        })
    })?;
    rows.collect()
}

/// Calls `rusqlite::Connection::last_insert_rowid`: the row id of the most
/// recent successful insert on this connection. Nothing is claimed of it.
#[verifier::external_body]
pub(crate) fn last_insert_rowid(conn: &Connection) -> (rowid: i64) {
    conn.last_insert_rowid()
}

} // verus!

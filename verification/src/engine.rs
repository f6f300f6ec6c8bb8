//! The storage engine. Everything here is a thin binding to `rusqlite`: the
//! contracts in this file are believed, not proved. None of them promises
//! anything of what the engine answers, which depends on the stored data.

use vstd::prelude::*;
use crate::value::{Cell, Param};

verus! {

/// `rusqlite::Connection`: an open connection to a database file.
#[verifier::external_type_specification]
#[verifier::external_body]
pub struct ExConnection(rusqlite::Connection);

/// `rusqlite::Error`: a failure that the engine reports.
#[verifier::external_type_specification]
#[verifier::external_body]
pub struct ExError(rusqlite::Error);

/// `rusqlite::Statement`: a statement that the engine has compiled.
#[verifier::external_type_specification]
#[verifier::external_body]
pub struct ExStatement<'conn>(rusqlite::Statement<'conn>);

/// `rusqlite::Transaction`: a transaction that is under way.
#[verifier::external_type_specification]
#[verifier::external_body]
pub struct ExTransaction<'conn>(rusqlite::Transaction<'conn>);

/// `rusqlite::Row`: the current row of a result.
#[verifier::external_type_specification]
#[verifier::external_body]
pub struct ExRow<'stmt>(rusqlite::Row<'stmt>);

/// `rusqlite::Connection::open`: opens the database file at `path`, creating
/// it if there is none. Nothing is claimed of the outcome.
#[verifier::external_body]
pub(crate) fn open(path: &str) -> (r: Result<rusqlite::Connection, rusqlite::Error>) {
    rusqlite::Connection::open(path)
}

/// `rusqlite::Connection::execute_batch`: runs the statements of `sql`, which
/// take no parameters, one after the other. Nothing is claimed of the outcome.
#[verifier::external_body]
pub(crate) fn execute_batch(conn: &rusqlite::Connection, sql: &str) -> (r: Result<
    (),
    rusqlite::Error,
>) {
    conn.execute_batch(sql)
}

/// `rusqlite::Connection::execute`: runs one statement with `params` bound to
/// its placeholders in order, and gives the number of rows it changed.
/// Nothing is claimed of the outcome.
#[verifier::external_body]
pub(crate) fn execute(conn: &rusqlite::Connection, sql: &str, params: &Vec<Param>) -> (r: Result<
    usize,
    rusqlite::Error,
>) {
    let bound = params.iter().map(
        |p|
            match p {
                Param::Null => rusqlite::types::Value::Null,
                Param::Integer(i) => rusqlite::types::Value::Integer(*i),
                Param::Text(s) => rusqlite::types::Value::Text(s.clone()),
            },
    );
    conn.execute(sql, rusqlite::params_from_iter(bound))
}

/// `rusqlite::Connection::last_insert_rowid`: the row identifier of the most
/// recent successful insert on this connection. Nothing is claimed of it.
#[verifier::external_body]
pub(crate) fn last_insert_rowid(conn: &rusqlite::Connection) -> (id: i64) {
    conn.last_insert_rowid()
}

/// `rusqlite::Connection::prepare`: compiles one statement. Nothing is
/// claimed of the outcome.
#[verifier::external_body]
pub(crate) fn prepare<'c>(conn: &'c rusqlite::Connection, sql: &str) -> (r: Result<
    rusqlite::Statement<'c>,
    rusqlite::Error,
>) {
    conn.prepare(sql)
}

/// `rusqlite::Statement::column_count`: the number of columns in the rows
/// that the statement yields. Nothing is claimed of it.
#[verifier::external_body]
pub(crate) fn column_count(stmt: &rusqlite::Statement<'_>) -> (n: usize) {
    stmt.column_count()
}

/// `rusqlite::Row::get`, asked for the engine's own value type: the cell at
/// `index` of the current row, as a plain value. Nothing is claimed of the
/// outcome.
#[verifier::external_body]
pub(crate) fn cell(row: &rusqlite::Row<'_>, index: usize) -> (r: Result<Cell, rusqlite::Error>) {
    row.get::<usize, rusqlite::types::Value>(index).map(
        |v|
            match v {
                rusqlite::types::Value::Null => Cell::Null,
                rusqlite::types::Value::Integer(i) => Cell::Integer(i),
                rusqlite::types::Value::Real(x) => Cell::Real(x.to_bits()),
                rusqlite::types::Value::Text(s) => Cell::Text(s),
                rusqlite::types::Value::Blob(b) => Cell::Blob(b),
            },
    )
}

/// Reads the leading `width` cells of a row, and stops at the first that
/// cannot be read. Where no cell is asked for the engine is not asked, and
/// the row is read, with no cells.
pub(crate) fn read_row(row: &rusqlite::Row<'_>, width: usize) -> (r: Result<
    Vec<Cell>,
    rusqlite::Error,
>)
    ensures
        r matches Ok(cells) ==> cells@.len() == width,
        width == 0 ==> r is Ok,
{
    let mut cells: Vec<Cell> = Vec::new();
    let mut i: usize = 0;
    while i < width
        invariant
            i <= width,
            cells@.len() == i,
        decreases width - i,
    {
        match cell(row, i) {
            Ok(c) => cells.push(c),
            Err(e) => return Err(e),
        }
        i = i + 1;
    }
    Ok(cells)
}

/// `rusqlite::Statement::query_map`, run to its end: binds `params`, steps
/// through the result, and reads `width` cells of each row. The outer error
/// is that of binding; each item is a row, or the error of stepping to it or
/// of reading it. Nothing is claimed of the outcome.
#[verifier::external_body]
pub(crate) fn fetch(stmt: &mut rusqlite::Statement<'_>, params: &Vec<Param>, width: usize) -> (r:
    Result<Vec<Result<Vec<Cell>, rusqlite::Error>>, rusqlite::Error>) {
    let bound = params.iter().map(
        |p|
            match p {
                Param::Null => rusqlite::types::Value::Null,
                Param::Integer(i) => rusqlite::types::Value::Integer(*i),
                Param::Text(s) => rusqlite::types::Value::Text(s.clone()),
            },
    );
    stmt.query_map(rusqlite::params_from_iter(bound), |row| read_row(row, width)).map(
        |rows| rows.collect(),
    )
}

/// `rusqlite::Connection::transaction`: begins a transaction, which is rolled
/// back when it is dropped without a commit. Nothing is claimed of the
/// outcome.
#[verifier::external_body]
pub(crate) fn begin<'c>(conn: &'c mut rusqlite::Connection) -> (r: Result<
    rusqlite::Transaction<'c>,
    rusqlite::Error,
>) {
    conn.transaction()
}

/// `Deref` of `rusqlite::Transaction`: the connection that the transaction
/// runs on.
#[verifier::external_body]
pub(crate) fn inside<'a, 'c>(tx: &'a rusqlite::Transaction<'c>) -> (conn: &'a rusqlite::Connection) {
    tx
}

/// `rusqlite::Transaction::commit`. Nothing is claimed of the outcome.
#[verifier::external_body]
pub(crate) fn commit(tx: rusqlite::Transaction<'_>) -> (r: Result<(), rusqlite::Error>) {
    tx.commit()
}

/// `rusqlite::Transaction::rollback`. Nothing is claimed of the outcome.
#[verifier::external_body]
pub(crate) fn rollback(tx: rusqlite::Transaction<'_>) -> (r: Result<(), rusqlite::Error>) {
    tx.rollback()
}

/// `Display` of `rusqlite::Error`: the engine's description of a failure.
/// Nothing is claimed of the text.
#[verifier::external_body]
pub(crate) fn describe(e: &rusqlite::Error) -> (text: String) {
    e.to_string()
}

} // verus!

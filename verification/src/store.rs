//! The SQLite engine, as far as the ledger relies on it.
//!
//! Everything in this module is taken on trust: the functions call into
//! `rusqlite`, and what they return depends on the state of the store. None of
//! them promises anything about its result, so the code that calls them is
//! verified for every outcome.

use vstd::prelude::*;
use crate::cell::Cell;

verus! {

/// `rusqlite::Connection`: an open database.
#[verifier::external_type_specification]
#[verifier::external_body]
pub struct ExConnection(rusqlite::Connection);

/// `rusqlite::Statement`: a compiled statement.
#[verifier::external_type_specification]
#[verifier::external_body]
pub struct ExStatement<'conn>(rusqlite::Statement<'conn>);

/// `rusqlite::Rows`: the cursor over the rows of a query.
#[verifier::external_type_specification]
#[verifier::external_body]
pub struct ExRows<'stmt>(rusqlite::Rows<'stmt>);

/// `rusqlite::Row`: the row that a cursor stands on.
#[verifier::external_type_specification]
#[verifier::external_body]
pub struct ExRow<'stmt>(rusqlite::Row<'stmt>);

/// `rusqlite::Error`: a failure of the engine or of the binding around it.
#[verifier::external_type_specification]
#[verifier::external_body]
pub struct ExSqlError(rusqlite::Error);

/// What went wrong in the engine: a failure that SQLite reported, with its
/// extended result code, or a failure of the binding around it.
#[derive(Debug, Clone, Copy, PartialEq, Eq, Structural)]
pub enum Failure {
    Engine { code: i32 },
    Binding,
}

/// `Connection::open`: opens the database file at `path`, creating it if it
/// is not there.
#[verifier::external_body]
pub(crate) fn open(path: &str) -> (opened: Result<rusqlite::Connection, rusqlite::Error>) {
    rusqlite::Connection::open(path)
}

/// `Connection::execute`: prepares one statement, binds the texts to its
/// parameters in order and runs it; on success the number of rows changed.
#[verifier::external_body]
pub(crate) fn execute(connection: &rusqlite::Connection, sql: &str, params: &[&str]) -> (changed:
    Result<usize, rusqlite::Error>) {
    connection.execute(sql, rusqlite::params_from_iter(params.iter()))
}

/// `Connection::last_insert_rowid`: the row id of the latest successful
/// insert on this connection.
#[verifier::external_body]
pub(crate) fn last_insert_rowid(connection: &rusqlite::Connection) -> (id: i64) {
    connection.last_insert_rowid()
}

/// `Connection::prepare`: compiles one statement.
#[verifier::external_body]
pub(crate) fn prepare<'conn>(connection: &'conn rusqlite::Connection, sql: &str) -> (statement:
    Result<rusqlite::Statement<'conn>, rusqlite::Error>) {
    connection.prepare(sql)
}

/// `Statement::query`: binds the texts to the parameters in order and hands
/// out the cursor over the rows.
#[verifier::external_body]
pub(crate) fn query<'stmt>(statement: &'stmt mut rusqlite::Statement<'_>, params: &[&str]) -> (rows:
    Result<rusqlite::Rows<'stmt>, rusqlite::Error>) {
    statement.query(rusqlite::params_from_iter(params.iter()))
}

/// `Rows::next`: steps the cursor; `Ok(None)` when the rows are exhausted.
#[verifier::external_body]
pub(crate) fn next_row<'rows, 'stmt>(rows: &'rows mut rusqlite::Rows<'stmt>) -> (row: Result<
    Option<&'rows rusqlite::Row<'stmt>>,
    rusqlite::Error,
>) {
    rows.next()
}

/// `Row::get_ref`, and `Row::get` for a text: the value of the column at
/// `index`, each SQLite type in the variant of `Cell` that mirrors it.
#[verifier::external_body]
pub(crate) fn column(row: &rusqlite::Row<'_>, index: usize) -> (cell: Result<Cell, rusqlite::Error>) {
    Ok(
        match row.get_ref(index)? {
            rusqlite::types::ValueRef::Null => Cell::Null,
            rusqlite::types::ValueRef::Integer(whole) => Cell::Integer(whole),
            rusqlite::types::ValueRef::Real(double) => Cell::Real(double.to_bits()),
            rusqlite::types::ValueRef::Text(_) => Cell::Text(row.get(index)?),
            rusqlite::types::ValueRef::Blob(bytes) => Cell::Blob(bytes.to_vec()),
        },
    )
}

/// Tells a failure that SQLite reported from the others, and hands out its
/// extended result code.
#[verifier::external_body]
pub(crate) fn failure_of(error: &rusqlite::Error) -> (failure: Failure) {
    match error {
        rusqlite::Error::SqliteFailure(cause, _) => Failure::Engine { code: cause.extended_code },
        _ => Failure::Binding,
    }
}

/// The engine's own account of a failure, as the error's `Display` gives it.
#[verifier::external_body]
pub(crate) fn describe(error: &rusqlite::Error) -> (message: String) {
    error.to_string()
}

} // verus!

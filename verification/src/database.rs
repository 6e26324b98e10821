//! The repository: clients, invoices and their items in a SQLite store.
//!
//! Every operation runs against one connection that the caller owns, and is
//! made of three parts. The request that it sends is built by a function of
//! the module `request`, which says exactly what the statement and its
//! parameters are. The store answers, and what it answers depends on its
//! state. What the answer comes to is decided by a function that takes the
//! answer as plain values and says exactly what is returned for each of them:
//! `classify`, `client_for_invoice`, `clients_of`, `invoices_of` and
//! `invoice_of`. The operations themselves say what holds of every outcome.

use vstd::prelude::*;
use crate::aggregate::{
    InvoiceRowView, RenderRowView, aggregate_rows, ascending, assemble_invoice, group_rows,
    in_ascending_order, lemma_ids_strictly_ascend, lemma_invoice_without_items, render_of,
};
use crate::cell::{
    Cell, CellView, Decoded, clients, clients_of, identifier_found, invoice_rows,
    invoice_rows_of, render_rows, render_rows_of, table_view,
};
use crate::error::LedgerError;
use crate::models::{
    Client, Invoice, InvoiceForPdf, InvoiceForPdfView, InvoiceView, client_views, invoice_views,
};
use crate::request::{
    Request, client_deletion, client_insertion, client_listing, client_lookup, invoice_deletion,
    invoice_insertion, invoice_listing, invoice_lookup, item_deletion, schema,
    transaction_begin, transaction_commit, transaction_rollback,
};
use crate::store::{
    Failure, column, describe, execute, failure_of, last_insert_rowid, next_row, open, prepare,
    query,
};
use crate::text::decimal_text;

verus! {

/// The file that holds the ledger.
pub const DATABASE_PATH: &'static str = "clinv.db";

/// SQLite's extended result code for a violated `UNIQUE` constraint.
pub const SQLITE_CONSTRAINT_UNIQUE: i32 = 2067;

/// SQLite's extended result code for a violated `PRIMARY KEY` constraint.
pub const SQLITE_CONSTRAINT_PRIMARYKEY: i32 = 1555;

/// The engine reports that a value which has to be unique is already there.
pub open spec fn is_uniqueness_violation(failure: Failure) -> bool {
    failure matches Failure::Engine { code } && (code == SQLITE_CONSTRAINT_UNIQUE || code
        == SQLITE_CONSTRAINT_PRIMARYKEY)
}

/// The error that stands for a failure of the engine: a conflict where a
/// uniqueness constraint was violated, and else a failure of the store with
/// the engine's message.
pub open spec fn error_of(failure: Failure, message: String) -> LedgerError {
    if is_uniqueness_violation(failure) {
        LedgerError::Conflict
    } else {
        LedgerError::Storage(message)
    }
}

/// Turns a failure of the engine into the error that the ledger reports.
pub fn classify(failure: Failure, message: String) -> (error: LedgerError)
    ensures
        error == error_of(failure, message),
{
    match failure {
        Failure::Engine { code } => {
            if code == SQLITE_CONSTRAINT_UNIQUE || code == SQLITE_CONSTRAINT_PRIMARYKEY {
                LedgerError::Conflict
            } else {
                LedgerError::Storage(message)
            }
        },
        Failure::Binding => LedgerError::Storage(message),
    }
}

/// The error for a failed write that may have met a uniqueness constraint.
fn conflict_or_storage(cause: &rusqlite::Error) -> (error: LedgerError)
    ensures
        error is Conflict || error is Storage,
{
    classify(failure_of(cause), describe(cause))
}

/// The error for any other failed call.
fn storage(cause: &rusqlite::Error) -> (error: LedgerError)
    ensures
        error is Storage,
{
    LedgerError::Storage(describe(cause))
}

/// Runs a request that yields no rows.
fn run(connection: &rusqlite::Connection, request: &Request<'_>) -> (done: Result<(), LedgerError>)
    ensures
        done matches Err(error) ==> error is Storage,
{
    match execute(connection, request.sql, request.params.as_slice()) {
        Ok(_) => Ok(()),
        Err(cause) => Err(storage(&cause)),
    }
}

/// Ends a transaction: commits it where the work succeeded, and rolls it back
/// where the work or the commit failed.
fn conclude<T>(connection: &rusqlite::Connection, work: Result<T, LedgerError>) -> (done: Result<
    T,
    LedgerError,
>)
    ensures
        work is Ok && done is Ok ==> done->Ok_0 == work->Ok_0,
        work matches Err(error) ==> done == Err::<T, LedgerError>(error),
        done matches Err(error) ==> error is Storage || work == Err::<T, LedgerError>(error),
{
    match work {
        Ok(value) => match run(connection, &transaction_commit()) {
            Ok(()) => Ok(value),
            Err(error) => {
                let _ = run(connection, &transaction_rollback());
                Err(error)
            },
        },
        Err(error) => {
            let _ = run(connection, &transaction_rollback());
            Err(error)
        },
    }
}

/// Reads the first `count` columns of a row.
fn read_cells(row: &rusqlite::Row<'_>, count: usize) -> (cells: Result<Vec<Cell>, LedgerError>)
    ensures
        cells matches Ok(cells) ==> cells@.len() == count,
        cells matches Err(error) ==> error is Storage,
{
    let mut cells: Vec<Cell> = Vec::new();
    let mut index: usize = 0;
    while index < count
        invariant
            index <= count,
            cells@.len() == index,
        decreases count - index,
    {
        match column(row, index) {
            Ok(cell) => cells.push(cell),
            Err(cause) => {
                return Err(storage(&cause));
            },
        }
        index += 1;
    }
    Ok(cells)
}

/// The failure to report where a query yields more rows than can be counted.
fn too_many_rows() -> (error: LedgerError)
    ensures
        error is Storage,
{
    LedgerError::Storage("the query yields more rows than can be counted".to_owned())
}

/// Runs a request that yields rows, and reads the first `columns` cells of
/// each row, in the order in which the store yields the rows.
fn fetch(connection: &rusqlite::Connection, request: &Request<'_>, columns: usize) -> (table:
    Result<Vec<Vec<Cell>>, LedgerError>)
    ensures
        table matches Ok(table) ==> forall|i: int|
            0 <= i < table@.len() ==> (#[trigger] table@[i])@.len() == columns,
        table matches Err(error) ==> error is Storage,
{
    let mut statement = match prepare(connection, request.sql) {
        Ok(statement) => statement,
        Err(cause) => {
            return Err(storage(&cause));
        },
    };
    let mut rows = match query(&mut statement, request.params.as_slice()) {
        Ok(rows) => rows,
        Err(cause) => {
            return Err(storage(&cause));
        },
    };
    let mut table: Vec<Vec<Cell>> = Vec::new();
    while table.len() < usize::MAX
        invariant
            forall|i: int| 0 <= i < table@.len() ==> (#[trigger] table@[i])@.len() == columns,
        decreases usize::MAX - table.len(),
    {
        let row = match next_row(&mut rows) {
            Ok(Some(row)) => row,
            Ok(None) => {
                return Ok(table);
            },
            Err(cause) => {
                return Err(storage(&cause));
            },
        };
        let cells = read_cells(row, columns)?;
        table.push(cells);
    }
    Err(too_many_rows())
}

/// Creates the three tables of the ledger where they do not exist yet.
pub fn init_db(connection: &rusqlite::Connection) -> (done: Result<(), LedgerError>)
    ensures
        done matches Err(error) ==> error is Storage,
{
    let requests = schema();
    let mut index: usize = 0;
    while index < requests.len()
        decreases requests.len() - index,
    {
        run(connection, &requests[index])?;
        index += 1;
    }
    Ok(())
}

/// Opens the ledger's database file in the working directory and makes sure
/// that its tables exist.
pub fn connect() -> (opened: Result<rusqlite::Connection, LedgerError>)
    ensures
        opened matches Err(error) ==> error is Storage,
{
    let connection = match open(DATABASE_PATH) {
        Ok(connection) => connection,
        Err(cause) => {
            return Err(storage(&cause));
        },
    };
    init_db(&connection)?;
    Ok(connection)
}

/// Records a new client. Fails with `Conflict` where a client of that name is
/// already on record.
pub fn new_client(connection: &rusqlite::Connection, name: &str, email: &str, phone_number: &str) -> (done:
    Result<(), LedgerError>)
    ensures
        done matches Err(error) ==> error is Conflict || error is Storage,
{
    let request = client_insertion(name, email, phone_number);
    match execute(connection, request.sql, request.params.as_slice()) {
        Ok(_) => Ok(()),
        Err(cause) => Err(conflict_or_storage(&cause)),
    }
}

/// Deletes the client of that name. Succeeds where there is no such client,
/// and leaves the client's invoices in place.
pub fn delete_client(connection: &rusqlite::Connection, client_name: &str) -> (done: Result<
    (),
    LedgerError,
>)
    ensures
        done matches Err(error) ==> error is Storage,
{
    run(connection, &client_deletion(client_name))
}

/// All clients, in the order in which the store yields them: the result is
/// the decoding of the rows that the store yielded, one client for each row,
/// and a row that cannot be decoded is a failure of the store.
pub fn get_clients(connection: &rusqlite::Connection) -> (listed: Result<Vec<Client>, LedgerError>)
    ensures
        listed matches Ok(list) ==> exists|table: Seq<Seq<CellView>>|
            #[trigger] clients(table) == Decoded::Value(client_views(list@)),
        listed matches Err(error) ==> error is Storage,
{
    let table = fetch(connection, &client_listing(), 4)?;
    let listed = clients_of(&table);
    proof {
        if listed is Ok {
            assert(clients(table_view(table@)) == Decoded::Value(client_views(listed->Ok_0@)));
        }
    }
    listed
}

/// The id of the client of that name, if there is one.
fn find_client(connection: &rusqlite::Connection, client_name: &str) -> (found: Result<
    Option<i32>,
    LedgerError,
>)
    ensures
        found matches Err(error) ==> error is Storage,
{
    let table = fetch(connection, &client_lookup(client_name), 1)?;
    identifier_found(&table)
}

/// The client that an invoice is created for, from what the lookup of its
/// name found: the client's id, and `NotFound` where the lookup found none.
pub fn client_for_invoice(found: Option<i32>) -> (client: Result<i32, LedgerError>)
    ensures
        client == (match found {
            Some(id) => Ok::<i32, LedgerError>(id),
            None => Err::<i32, LedgerError>(LedgerError::NotFound),
        }),
{
    match found {
        Some(id) => Ok(id),
        None => Err(LedgerError::NotFound),
    }
}

/// Looks the client up and inserts the invoice, inside the transaction that
/// the caller has opened.
fn insert_invoice(connection: &rusqlite::Connection, client_name: &str, date_string: &str) -> (id:
    Result<i64, LedgerError>)
    ensures
        id matches Err(error) ==> error is NotFound || error is Storage,
{
    let found = find_client(connection, client_name)?;
    let client_id = client_for_invoice(found)?;
    let client_text = decimal_text(client_id as i64);
    let request = invoice_insertion(client_text.as_str(), date_string);
    match execute(connection, request.sql, request.params.as_slice()) {
        Ok(_) => Ok(last_insert_rowid(connection)),
        Err(cause) => Err(storage(&cause)),
    }
}

/// Creates an invoice of the given date for the client of that name and
/// returns the id that the store gave it. Fails with `NotFound` where there is
/// no such client; the lookup and the insert are one transaction.
pub fn new_invoice(connection: &rusqlite::Connection, client_name: &str, date_string: &str) -> (id:
    Result<i64, LedgerError>)
    ensures
        id matches Err(error) ==> error is NotFound || error is Storage,
{
    run(connection, &transaction_begin())?;
    let inserted = insert_invoice(connection, client_name, date_string);
    conclude(connection, inserted)
}

/// Deletes the items of the invoice, then the invoice, inside the transaction
/// that the caller has opened.
fn delete_invoice_rows(connection: &rusqlite::Connection, invoice_id: &str) -> (done: Result<
    (),
    LedgerError,
>)
    ensures
        done matches Err(error) ==> error is Storage,
{
    run(connection, &item_deletion(invoice_id))?;
    run(connection, &invoice_deletion(invoice_id))
}

/// Deletes an invoice together with its items, in one transaction. Succeeds
/// where there is no such invoice.
pub fn delete_invoice(connection: &rusqlite::Connection, invoice_id: &str) -> (done: Result<
    (),
    LedgerError,
>)
    ensures
        done matches Err(error) ==> error is Storage,
{
    run(connection, &transaction_begin())?;
    let deleted = delete_invoice_rows(connection, invoice_id);
    conclude(connection, deleted)
}

/// The failure to report where the rows of a listing do not come in the order
/// that the query asks for.
fn out_of_order() -> (error: LedgerError)
    ensures
        error is Storage,
{
    LedgerError::Storage("the rows of the listing are not in ascending order of invoice".to_owned())
}

/// The invoices that the rows of a listing stand for: the grouping of the
/// decoded rows. The listing is malformed where a row is, and where the rows
/// do not come in ascending order of invoice id.
pub open spec fn listing(table: Seq<Seq<CellView>>) -> Decoded<Seq<InvoiceView>> {
    match invoice_rows(table) {
        Decoded::Value(rows) => if ascending(rows) {
            Decoded::Value(group_rows(rows))
        } else {
            Decoded::Malformed
        },
        Decoded::Malformed => Decoded::Malformed,
    }
}

/// Assembles the invoices of a listing from its rows. A row that cannot be
/// decoded, and a row that is out of order, are failures of the store.
pub fn invoices_of(table: &Vec<Vec<Cell>>) -> (listed: Result<Vec<Invoice>, LedgerError>)
    ensures
        match listing(table_view(table@)) {
            Decoded::Value(invoices) => listed is Ok && invoice_views(listed->Ok_0@) == invoices,
            Decoded::Malformed => listed is Err && listed->Err_0 is Storage,
        },
{
    let rows = invoice_rows_of(table)?;
    if !in_ascending_order(&rows) {
        return Err(out_of_order());
    }
    Ok(aggregate_rows(rows))
}

/// An invoice without items is listed once and with no item: where the rows
/// of a listing can be decoded and ascend, the listing is well-formed, and if
/// no row of the invoice of row `i` carries an item, exactly one invoice of
/// the listing has its id, and that one has an empty list of items.
pub proof fn lemma_listing_of_invoice_without_items(table: Seq<Seq<CellView>>, i: int) -> (k: int)
    requires
        invoice_rows(table) is Value,
        ascending(invoice_rows(table)->Value_0),
        0 <= i < table.len(),
        forall|j: int|
            0 <= j < table.len() && (#[trigger] invoice_rows(table)->Value_0[j]).invoice_id
                == invoice_rows(table)->Value_0[i].invoice_id ==> invoice_rows(
                table,
            )->Value_0[j].item is None,
    ensures
        listing(table) is Value,
        0 <= k < listing(table)->Value_0.len(),
        listing(table)->Value_0[k].id == invoice_rows(table)->Value_0[i].invoice_id,
        listing(table)->Value_0[k].items.len() == 0,
        forall|l: int|
            0 <= l < listing(table)->Value_0.len() && (#[trigger] listing(table)->Value_0[l]).id
                == invoice_rows(table)->Value_0[i].invoice_id ==> l == k,
{
    lemma_invoice_without_items(invoice_rows(table)->Value_0, i)
}

/// What a lookup for rendering comes to.
pub enum Lookup {
    /// The invoice that the rows stand for.
    Found(InvoiceForPdfView),
    /// There is no row, and so no invoice.
    Missing,
    /// A row is malformed.
    Malformed,
}

/// What the rows of a lookup for rendering come to.
pub open spec fn lookup(table: Seq<Seq<CellView>>) -> Lookup {
    match render_rows(table) {
        Decoded::Value(rows) => match render_of(rows) {
            Some(invoice) => Lookup::Found(invoice),
            None => Lookup::Missing,
        },
        Decoded::Malformed => Lookup::Malformed,
    }
}

/// Assembles the invoice for rendering from the rows of a lookup by id. No
/// row means that there is no such invoice; a row that cannot be decoded is a
/// failure of the store.
pub fn invoice_of(table: &Vec<Vec<Cell>>) -> (found: Result<InvoiceForPdf, LedgerError>)
    ensures
        match lookup(table_view(table@)) {
            Lookup::Found(invoice) => found is Ok && found->Ok_0@ == invoice,
            Lookup::Missing => found == Err::<InvoiceForPdf, LedgerError>(LedgerError::NotFound),
            Lookup::Malformed => found is Err && found->Err_0 is Storage,
        },
{
    let rows = render_rows_of(table)?;
    assemble_invoice(rows)
}

/// All invoices, or those of the client of that name, each with its items.
///
/// The result is the grouping of the rows that the store yielded. The query
/// asks for them in ascending order of invoice id, and rows that come in
/// another order are refused as a failure of the store; so the ids of the
/// result strictly ascend, and everything that holds of the grouping of
/// ascending rows holds of it.
pub fn get_invoices(connection: &rusqlite::Connection, client_name: Option<&str>) -> (listed:
    Result<Vec<Invoice>, LedgerError>)
    ensures
        listed matches Ok(invoices) ==> {
            &&& exists|rows: Seq<InvoiceRowView>|
                ascending(rows) && invoice_views(invoices@) == #[trigger] group_rows(rows)
            &&& forall|k: int, l: int|
                0 <= k < l < invoices@.len() ==> (#[trigger] invoices@[k]).id
                    < (#[trigger] invoices@[l]).id
        },
        listed matches Err(error) ==> error is Storage,
{
    let table = fetch(connection, &invoice_listing(client_name), 8)?;
    let listed = invoices_of(&table);
    proof {
        if listed is Ok {
            let invoices = listed->Ok_0;
            let rows = invoice_rows(table_view(table@))->Value_0;
            assert(invoice_views(invoices@) == group_rows(rows));
            lemma_ids_strictly_ascend(rows);
            assert forall|k: int, l: int| 0 <= k < l < invoices@.len() implies (
            #[trigger] invoices@[k]).id < (#[trigger] invoices@[l]).id by {
                assert(invoice_views(invoices@)[k].id < invoice_views(invoices@)[l].id);
            }
        }
    }
    listed
}

/// The invoice of that id with the contact details of its client and all of
/// its items, for rendering: the assembly of the rows that the store yielded.
/// Fails with `NotFound` where the store yields no row, which is where there
/// is no such invoice.
pub fn get_invoice(connection: &rusqlite::Connection, invoice_id: &str) -> (invoice: Result<
    InvoiceForPdf,
    LedgerError,
>)
    ensures
        invoice matches Ok(found) ==> exists|rows: Seq<RenderRowView>|
            rows.len() > 0 && #[trigger] render_of(rows) == Some(found@),
        invoice matches Err(error) ==> error is NotFound || error is Storage,
{
    let table = fetch(connection, &invoice_lookup(invoice_id), 11)?;
    let invoice = invoice_of(&table);
    proof {
        if invoice is Ok {
            let rows = render_rows(table_view(table@))->Value_0;
            assert(render_of(rows) == Some(invoice->Ok_0@));
        }
    }
    invoice
}

} // verus!

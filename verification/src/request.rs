//! The statements that the repository sends to the store, each with the
//! texts that are bound to its parameters.

use vstd::prelude::*;

verus! {

pub const CREATE_CLIENT_TABLE: &'static str = "CREATE TABLE IF NOT EXISTS client (
            id INTEGER PRIMARY KEY,
            name TEXT UNIQUE NOT NULL,
            email TEXT NOT NULL,
            phone_number TEXT NOT NULL
        )";

pub const CREATE_INVOICE_TABLE: &'static str = "CREATE TABLE IF NOT EXISTS invoice (
            id INTEGER PRIMARY KEY,
            client_id INTEGER NOT NULL,
            date TEXT NOT NULL,
            FOREIGN KEY (client_id) REFERENCES client(id)
        )";

pub const CREATE_ITEM_TABLE: &'static str = "CREATE TABLE IF NOT EXISTS invoice_item (
            id INTEGER PRIMARY KEY,
            invoice_id INTEGER NOT NULL,
            description TEXT NOT NULL,
            hours FLOAT NOT NULL,
            rate FLOAT NOT NULL,
            amount FLOAT NOT NULL,
            FOREIGN KEY (invoice_id) REFERENCES invoice(id)
        )";

pub const INSERT_CLIENT: &'static str =
    "INSERT INTO client (name, email, phone_number) VALUES (?1, ?2, ?3)";

pub const DELETE_CLIENT: &'static str = "DELETE FROM client WHERE name = ?1";

pub const SELECT_CLIENTS: &'static str = "SELECT * FROM client";

pub const SELECT_CLIENT_ID: &'static str = "SELECT id FROM client WHERE name = ?1";

pub const INSERT_INVOICE: &'static str = "INSERT INTO invoice (client_id, date) VALUES (?1, ?2)";

pub const DELETE_ITEMS: &'static str = "DELETE FROM invoice_item WHERE invoice_id = ?1";

pub const DELETE_INVOICE: &'static str = "DELETE FROM invoice WHERE id = ?1";

pub const SELECT_INVOICES: &'static str = "SELECT
                invoice.id as invoice_id, invoice.client_id, invoice.date,
                invoice_item.id as item_id, invoice_item.description, invoice_item.hours,
                invoice_item.rate, invoice_item.amount
            FROM invoice
            LEFT JOIN invoice_item on invoice.id = invoice_item.invoice_id
            ORDER BY invoice.id";

pub const SELECT_INVOICES_OF_CLIENT: &'static str = "SELECT
                invoice.id as invoice_id, invoice.client_id, invoice.date,
                invoice_item.id as item_id, invoice_item.description, invoice_item.hours,
                invoice_item.rate, invoice_item.amount
            FROM invoice
            INNER JOIN client ON invoice.client_id = client.id
            LEFT JOIN invoice_item on invoice.id = invoice_item.invoice_id
            WHERE client.name = ?1
            ORDER BY invoice.id";

pub const SELECT_INVOICE: &'static str = "SELECT
            invoice.id as invoice_id, invoice.client_id, invoice.date,
            client.name, client.email, client.phone_number,
            invoice_item.id as item_id, invoice_item.description, invoice_item.hours,
            invoice_item.rate, invoice_item.amount
        FROM invoice
        RIGHT JOIN client on invoice.client_id = client.id
        LEFT JOIN invoice_item on invoice.id = invoice_item.invoice_id
        WHERE invoice.id = ?1
        ";

pub const BEGIN: &'static str = "BEGIN";

pub const COMMIT: &'static str = "COMMIT";

pub const ROLLBACK: &'static str = "ROLLBACK";

/// A statement and the texts to bind to its parameters, in their order.
#[derive(Debug, Clone, PartialEq, Eq)]
pub struct Request<'a> {
    pub sql: &'a str,
    pub params: Vec<&'a str>,
}

/// The characters of each of the texts.
pub open spec fn texts(params: Seq<&str>) -> Seq<Seq<char>> {
    params.map_values(|text: &str| text@)
}

/// What a request is made of: the text of the statement, and the texts of its
/// parameters in their order.
pub open spec fn request_view(request: Request) -> (Seq<char>, Seq<Seq<char>>) {
    (request.sql@, texts(request.params@))
}

/// The views of a run of requests, in order.
pub open spec fn request_views(requests: Seq<Request>) -> Seq<(Seq<char>, Seq<Seq<char>>)> {
    requests.map_values(|request: Request| request_view(request))
}

/// No texts.
pub open spec fn none() -> Seq<Seq<char>> {
    Seq::empty()
}

fn plain(sql: &'static str) -> (request: Request<'static>)
    ensures
        request_view(request) == (sql@, none()),
{
    let request = Request { sql, params: Vec::new() };
    assert(texts(request.params@) =~= none());
    request
}

fn with_one<'a>(sql: &'a str, parameter: &'a str) -> (request: Request<'a>)
    ensures
        request_view(request) == (sql@, seq![parameter@]),
{
    let mut params: Vec<&'a str> = Vec::new();
    params.push(parameter);
    let request = Request { sql, params };
    assert(texts(request.params@) =~= seq![parameter@]);
    request
}

/// The three statements that create the tables of the ledger where they do
/// not exist yet: clients, invoices, items.
pub fn schema() -> (requests: Vec<Request<'static>>)
    ensures
        request_views(requests@) == seq![
            (CREATE_CLIENT_TABLE@, none()),
            (CREATE_INVOICE_TABLE@, none()),
            (CREATE_ITEM_TABLE@, none()),
        ],
{
    let mut requests: Vec<Request<'static>> = Vec::new();
    requests.push(plain(CREATE_CLIENT_TABLE));
    requests.push(plain(CREATE_INVOICE_TABLE));
    requests.push(plain(CREATE_ITEM_TABLE));
    assert(request_views(requests@) =~= seq![
        (CREATE_CLIENT_TABLE@, none()),
        (CREATE_INVOICE_TABLE@, none()),
        (CREATE_ITEM_TABLE@, none()),
    ]);
    requests
}

/// Opens a transaction.
pub fn transaction_begin() -> (request: Request<'static>)
    ensures
        request_view(request) == (BEGIN@, none()),
{
    plain(BEGIN)
}

/// Makes the work of the open transaction permanent.
pub fn transaction_commit() -> (request: Request<'static>)
    ensures
        request_view(request) == (COMMIT@, none()),
{
    plain(COMMIT)
}

/// Undoes the work of the open transaction.
pub fn transaction_rollback() -> (request: Request<'static>)
    ensures
        request_view(request) == (ROLLBACK@, none()),
{
    plain(ROLLBACK)
}

/// Inserts a client with its name, email and phone number.
pub fn client_insertion<'a>(name: &'a str, email: &'a str, phone_number: &'a str) -> (request:
    Request<'a>)
    ensures
        request_view(request) == (INSERT_CLIENT@, seq![name@, email@, phone_number@]),
{
    let mut params: Vec<&'a str> = Vec::new();
    params.push(name);
    params.push(email);
    params.push(phone_number);
    let request = Request { sql: INSERT_CLIENT, params };
    assert(texts(request.params@) =~= seq![name@, email@, phone_number@]);
    request
}

/// Deletes the client of that name.
pub fn client_deletion<'a>(client_name: &'a str) -> (request: Request<'a>)
    ensures
        request_view(request) == (DELETE_CLIENT@, seq![client_name@]),
{
    with_one(DELETE_CLIENT, client_name)
}

/// Selects all clients.
pub fn client_listing() -> (request: Request<'static>)
    ensures
        request_view(request) == (SELECT_CLIENTS@, none()),
{
    plain(SELECT_CLIENTS)
}

/// Selects the id of the client of that name.
pub fn client_lookup<'a>(client_name: &'a str) -> (request: Request<'a>)
    ensures
        request_view(request) == (SELECT_CLIENT_ID@, seq![client_name@]),
{
    with_one(SELECT_CLIENT_ID, client_name)
}

/// Inserts an invoice for a client, given by its id written in decimal, with
/// its date.
pub fn invoice_insertion<'a>(client_id: &'a str, date: &'a str) -> (request: Request<'a>)
    ensures
        request_view(request) == (INSERT_INVOICE@, seq![client_id@, date@]),
{
    let mut params: Vec<&'a str> = Vec::new();
    params.push(client_id);
    params.push(date);
    let request = Request { sql: INSERT_INVOICE, params };
    assert(texts(request.params@) =~= seq![client_id@, date@]);
    request
}

/// Deletes the items of an invoice.
pub fn item_deletion<'a>(invoice_id: &'a str) -> (request: Request<'a>)
    ensures
        request_view(request) == (DELETE_ITEMS@, seq![invoice_id@]),
{
    with_one(DELETE_ITEMS, invoice_id)
}

/// Deletes an invoice.
pub fn invoice_deletion<'a>(invoice_id: &'a str) -> (request: Request<'a>)
    ensures
        request_view(request) == (DELETE_INVOICE@, seq![invoice_id@]),
{
    with_one(DELETE_INVOICE, invoice_id)
}

/// Selects the invoices joined to their items in ascending order of invoice
/// id: those of the client of that name where one is given, and else all.
pub fn invoice_listing<'a>(client_name: Option<&'a str>) -> (request: Request<'a>)
    ensures
        request_view(request) == (match client_name {
            Some(name) => (SELECT_INVOICES_OF_CLIENT@, seq![name@]),
            None => (SELECT_INVOICES@, none()),
        }),
{
    match client_name {
        Some(name) => with_one(SELECT_INVOICES_OF_CLIENT, name),
        None => plain(SELECT_INVOICES),
    }
}

/// Selects the invoice of that id joined to its client and its items.
pub fn invoice_lookup<'a>(invoice_id: &'a str) -> (request: Request<'a>)
    ensures
        request_view(request) == (SELECT_INVOICE@, seq![invoice_id@]),
{
    with_one(SELECT_INVOICE, invoice_id)
}

} // verus!

//! Column values as the store hands them out, and their decoding into the
//! records of the ledger.

use vstd::prelude::*;
use crate::aggregate::{
    InvoiceRow, InvoiceRowView, RenderRow, RenderRowView, render_row_views, row_views,
};
use crate::error::LedgerError;
use crate::models::{Client, ClientView, InvoiceItem, InvoiceItemView, Number, client_views};

verus! {

/// The value of one column of a row, as SQLite types it. A real number is
/// kept as its IEEE 754 bit pattern.
#[derive(Debug, Clone, PartialEq, Eq)]
pub enum Cell {
    Null,
    Integer(i64),
    Real(u64),
    Text(String),
    Blob(Vec<u8>),
}

/// The view of a cell: its fields as mathematical values.
pub enum CellView {
    Null,
    Integer(i64),
    Real(u64),
    Text(Seq<char>),
    Blob(Seq<u8>),
}

impl View for Cell {
    type V = CellView;

    open spec fn view(&self) -> CellView {
        match *self {
            Cell::Null => CellView::Null,
            Cell::Integer(whole) => CellView::Integer(whole),
            Cell::Real(bits) => CellView::Real(bits),
            Cell::Text(text) => CellView::Text(text@),
            Cell::Blob(bytes) => CellView::Blob(bytes@),
        }
    }
}

/// The views of the cells of a row, in order.
pub open spec fn cell_views(cells: Seq<Cell>) -> Seq<CellView> {
    cells.map_values(|cell: Cell| cell@)
}

/// What decoding yields: a value, or the finding that the cells do not hold
/// what the record needs.
pub enum Decoded<T> {
    Value(T),
    Malformed,
}

/// The outcome of a decoding function agrees with what the cells hold: the
/// value where there is one, and a failure of the store where they are
/// malformed.
pub open spec fn decodes_to<T: View>(outcome: Result<T, LedgerError>, expected: Decoded<T::V>) -> bool {
    match expected {
        Decoded::Value(value) => outcome is Ok && outcome->Ok_0@ == value,
        Decoded::Malformed => outcome is Err && outcome->Err_0 is Storage,
    }
}

/// An identifier: an integer that fits in 32 bits.
pub open spec fn identifier(cell: CellView) -> Decoded<i32> {
    match cell {
        CellView::Integer(whole) => if i32::MIN <= whole <= i32::MAX {
            Decoded::Value(whole as i32)
        } else {
            Decoded::Malformed
        },
        _ => Decoded::Malformed,
    }
}

/// A text.
pub open spec fn text(cell: CellView) -> Decoded<Seq<char>> {
    match cell {
        CellView::Text(text) => Decoded::Value(text),
        _ => Decoded::Malformed,
    }
}

/// A quantity: a whole or a real number.
pub open spec fn quantity(cell: CellView) -> Decoded<Number> {
    match cell {
        CellView::Integer(whole) => Decoded::Value(Number::Integer(whole)),
        CellView::Real(bits) => Decoded::Value(Number::Real(bits)),
        _ => Decoded::Malformed,
    }
}

/// The item that five cells hold. A null identifier means that the row has no
/// item, whatever the other four cells hold.
pub open spec fn item(
    id: CellView,
    description: CellView,
    hours: CellView,
    rate: CellView,
    amount: CellView,
) -> Decoded<Option<InvoiceItemView>> {
    if id is Null {
        Decoded::Value(None)
    } else {
        match (identifier(id), text(description), quantity(hours), quantity(rate), quantity(amount)) {
            (
                Decoded::Value(id),
                Decoded::Value(description),
                Decoded::Value(hours),
                Decoded::Value(rate),
                Decoded::Value(amount),
            ) => Decoded::Value(Some(InvoiceItemView { id, description, hours, rate, amount })),
            _ => Decoded::Malformed,
        }
    }
}

/// The client that the four columns of the client table hold.
pub open spec fn client(cells: Seq<CellView>) -> Decoded<ClientView> {
    if cells.len() < 4 {
        Decoded::Malformed
    } else {
        match (identifier(cells[0]), text(cells[1]), text(cells[2]), text(cells[3])) {
            (
                Decoded::Value(id),
                Decoded::Value(name),
                Decoded::Value(email),
                Decoded::Value(phone_number),
            ) => Decoded::Value(ClientView { id, name, email, phone_number }),
            _ => Decoded::Malformed,
        }
    }
}

/// The row that the eight columns of the invoice listing hold: the invoice's
/// id, client and date, then the five columns of the item.
pub open spec fn invoice_row(cells: Seq<CellView>) -> Decoded<InvoiceRowView> {
    if cells.len() < 8 {
        Decoded::Malformed
    } else {
        match (
            identifier(cells[0]),
            identifier(cells[1]),
            text(cells[2]),
            item(cells[3], cells[4], cells[5], cells[6], cells[7]),
        ) {
            (
                Decoded::Value(invoice_id),
                Decoded::Value(client_id),
                Decoded::Value(date),
                Decoded::Value(item),
            ) => Decoded::Value(InvoiceRowView { invoice_id, client_id, date, item }),
            _ => Decoded::Malformed,
        }
    }
}

/// The row that the eleven columns of the lookup for rendering hold: the
/// invoice's id, client and date, the client's name, email and phone number,
/// then the five columns of the item. The client's id is not read.
pub open spec fn render_row(cells: Seq<CellView>) -> Decoded<RenderRowView> {
    if cells.len() < 11 {
        Decoded::Malformed
    } else {
        match (
            identifier(cells[0]),
            text(cells[2]),
            text(cells[3]),
            text(cells[4]),
            text(cells[5]),
            item(cells[6], cells[7], cells[8], cells[9], cells[10]),
        ) {
            (
                Decoded::Value(invoice_id),
                Decoded::Value(date),
                Decoded::Value(client_name),
                Decoded::Value(client_email),
                Decoded::Value(client_phone_number),
                Decoded::Value(item),
            ) => Decoded::Value(
                RenderRowView {
                    invoice_id,
                    client_name,
                    client_email,
                    client_phone_number,
                    date,
                    item,
                },
            ),
            _ => Decoded::Malformed,
        }
    }
}

fn malformed(what: &str) -> (failure: LedgerError)
    ensures
        failure is Storage,
{
    LedgerError::Storage(what.to_owned())
}

/// Decodes an identifier.
pub fn identifier_of(cell: &Cell) -> (outcome: Result<i32, LedgerError>)
    ensures
        match identifier(cell@) {
            Decoded::Value(id) => outcome == Ok::<i32, LedgerError>(id),
            Decoded::Malformed => outcome is Err && outcome->Err_0 is Storage,
        },
{
    match cell {
        Cell::Integer(whole) => {
            if -2147483648 <= *whole && *whole <= 2147483647 {
                Ok(*whole as i32)
            } else {
                Err(malformed("an identifier does not fit in 32 bits"))
            }
        },
        _ => Err(malformed("a column that holds an identifier is not an integer")),
    }
}

/// Decodes a text.
pub fn text_of(cell: &Cell) -> (outcome: Result<String, LedgerError>)
    ensures
        decodes_to(outcome, text(cell@)),
{
    match cell {
        Cell::Text(text) => Ok(text.clone()),
        _ => Err(malformed("a column that holds a text is not a text")),
    }
}

/// Decodes a quantity.
pub fn quantity_of(cell: &Cell) -> (outcome: Result<Number, LedgerError>)
    ensures
        match quantity(cell@) {
            Decoded::Value(number) => outcome == Ok::<Number, LedgerError>(number),
            Decoded::Malformed => outcome is Err && outcome->Err_0 is Storage,
        },
{
    match cell {
        Cell::Integer(whole) => Ok(Number::Integer(*whole)),
        Cell::Real(bits) => Ok(Number::Real(*bits)),
        _ => Err(malformed("a column that holds a quantity is not a number")),
    }
}

/// The view of an item that may be absent.
pub open spec fn item_view(item: Option<InvoiceItem>) -> Option<InvoiceItemView> {
    match item {
        Some(item) => Some(item@),
        None => None,
    }
}

/// Decodes the five columns of an item.
pub fn item_of(id: &Cell, description: &Cell, hours: &Cell, rate: &Cell, amount: &Cell) -> (outcome:
    Result<Option<InvoiceItem>, LedgerError>)
    ensures
        match item(id@, description@, hours@, rate@, amount@) {
            Decoded::Value(item) => outcome is Ok && item_view(outcome->Ok_0) == item,
            Decoded::Malformed => outcome is Err && outcome->Err_0 is Storage,
        },
{
    if let Cell::Null = id {
        return Ok(None);
    }
    let id = identifier_of(id)?;
    let description = text_of(description)?;
    let hours = quantity_of(hours)?;
    let rate = quantity_of(rate)?;
    let amount = quantity_of(amount)?;
    Ok(Some(InvoiceItem { id, description, hours, rate, amount }))
}

/// Decodes a row of the client table.
pub fn client_of(cells: &[Cell]) -> (outcome: Result<Client, LedgerError>)
    ensures
        decodes_to(outcome, client(cell_views(cells@))),
{
    if cells.len() < 4 {
        return Err(malformed("a row of the client table has fewer than four columns"));
    }
    let id = identifier_of(&cells[0])?;
    let name = text_of(&cells[1])?;
    let email = text_of(&cells[2])?;
    let phone_number = text_of(&cells[3])?;
    Ok(Client { id, name, email, phone_number })
}

/// Decodes a row of the invoice listing.
pub fn invoice_row_of(cells: &[Cell]) -> (outcome: Result<InvoiceRow, LedgerError>)
    ensures
        decodes_to(outcome, invoice_row(cell_views(cells@))),
{
    if cells.len() < 8 {
        return Err(malformed("a row of the invoice listing has fewer than eight columns"));
    }
    let invoice_id = identifier_of(&cells[0])?;
    let client_id = identifier_of(&cells[1])?;
    let date = text_of(&cells[2])?;
    let item = item_of(&cells[3], &cells[4], &cells[5], &cells[6], &cells[7])?;
    Ok(InvoiceRow { invoice_id, client_id, date, item })
}

/// Decodes a row of the lookup for rendering.
pub fn render_row_of(cells: &[Cell]) -> (outcome: Result<RenderRow, LedgerError>)
    ensures
        decodes_to(outcome, render_row(cell_views(cells@))),
{
    if cells.len() < 11 {
        return Err(malformed("a row of the lookup for rendering has fewer than eleven columns"));
    }
    let invoice_id = identifier_of(&cells[0])?;
    let date = text_of(&cells[2])?;
    let client_name = text_of(&cells[3])?;
    let client_email = text_of(&cells[4])?;
    let client_phone_number = text_of(&cells[5])?;
    let item = item_of(&cells[6], &cells[7], &cells[8], &cells[9], &cells[10])?;
    Ok(RenderRow { invoice_id, client_name, client_email, client_phone_number, date, item })
}

/// The views of the rows of a table of cells, in order.
pub open spec fn table_view(table: Seq<Vec<Cell>>) -> Seq<Seq<CellView>> {
    table.map_values(|row: Vec<Cell>| cell_views(row@))
}

/// The clients that the rows of a table hold, one for each row and in the
/// order of the rows; malformed as a whole where one of the rows is.
pub open spec fn clients(table: Seq<Seq<CellView>>) -> Decoded<Seq<ClientView>> {
    if forall|i: int| 0 <= i < table.len() ==> (#[trigger] client(table[i])) is Value {
        Decoded::Value(Seq::new(table.len(), |i: int| client(table[i])->Value_0))
    } else {
        Decoded::Malformed
    }
}

/// The rows of the invoice listing that the rows of a table hold, one for
/// each and in their order; malformed as a whole where one of the rows is.
pub open spec fn invoice_rows(table: Seq<Seq<CellView>>) -> Decoded<Seq<InvoiceRowView>> {
    if forall|i: int| 0 <= i < table.len() ==> (#[trigger] invoice_row(table[i])) is Value {
        Decoded::Value(Seq::new(table.len(), |i: int| invoice_row(table[i])->Value_0))
    } else {
        Decoded::Malformed
    }
}

/// The rows of the lookup for rendering that the rows of a table hold, one
/// for each and in their order; malformed as a whole where one of the rows is.
pub open spec fn render_rows(table: Seq<Seq<CellView>>) -> Decoded<Seq<RenderRowView>> {
    if forall|i: int| 0 <= i < table.len() ==> (#[trigger] render_row(table[i])) is Value {
        Decoded::Value(Seq::new(table.len(), |i: int| render_row(table[i])->Value_0))
    } else {
        Decoded::Malformed
    }
}

/// The identifier that a lookup found: none where the table has no row, and
/// else the first cell of the first row.
pub open spec fn found_identifier(table: Seq<Seq<CellView>>) -> Decoded<Option<i32>> {
    if table.len() == 0 {
        Decoded::Value(None)
    } else if table[0].len() == 0 {
        Decoded::Malformed
    } else {
        match identifier(table[0][0]) {
            Decoded::Value(id) => Decoded::Value(Some(id)),
            Decoded::Malformed => Decoded::Malformed,
        }
    }
}

/// Decodes the rows of the client table: every row gives a client, in the
/// order of the rows, and the first row that is malformed ends the decoding
/// in its failure.
pub fn clients_of(table: &Vec<Vec<Cell>>) -> (outcome: Result<Vec<Client>, LedgerError>)
    ensures
        match clients(table_view(table@)) {
            Decoded::Value(list) => outcome is Ok && client_views(outcome->Ok_0@) == list,
            Decoded::Malformed => outcome is Err && outcome->Err_0 is Storage,
        },
{
    let ghost cells = table_view(table@);
    let mut list: Vec<Client> = Vec::new();
    let mut index: usize = 0;
    while index < table.len()
        invariant
            index <= table.len(),
            cells == table_view(table@),
            list@.len() == index,
            forall|i: int| 0 <= i < index ==> client(cells[i]) == Decoded::Value(#[trigger] list@[i]@),
        decreases table.len() - index,
    {
        assert(cells[index as int] == cell_views(table@[index as int]@));
        match client_of(table[index].as_slice()) {
            Ok(decoded) => list.push(decoded),
            Err(failure) => {
                assert(client(cells[index as int]) is Malformed);
                return Err(failure);
            },
        }
        index += 1;
    }
    assert forall|i: int| 0 <= i < cells.len() implies (#[trigger] client(cells[i])) is Value by {
        assert(client(cells[i]) == Decoded::Value(list@[i]@));
    }
    assert(client_views(list@) =~= Seq::new(cells.len(), |i: int| client(cells[i])->Value_0));
    Ok(list)
}

/// Decodes the rows of the invoice listing, one row of the listing for each
/// row of the table; the first row that is malformed ends the decoding in its
/// failure.
pub fn invoice_rows_of(table: &Vec<Vec<Cell>>) -> (outcome: Result<Vec<InvoiceRow>, LedgerError>)
    ensures
        match invoice_rows(table_view(table@)) {
            Decoded::Value(rows) => outcome is Ok && row_views(outcome->Ok_0@) == rows,
            Decoded::Malformed => outcome is Err && outcome->Err_0 is Storage,
        },
{
    let ghost cells = table_view(table@);
    let mut rows: Vec<InvoiceRow> = Vec::new();
    let mut index: usize = 0;
    while index < table.len()
        invariant
            index <= table.len(),
            cells == table_view(table@),
            rows@.len() == index,
            forall|i: int|
                0 <= i < index ==> invoice_row(cells[i]) == Decoded::Value(#[trigger] rows@[i]@),
        decreases table.len() - index,
    {
        assert(cells[index as int] == cell_views(table@[index as int]@));
        match invoice_row_of(table[index].as_slice()) {
            Ok(decoded) => rows.push(decoded),
            Err(failure) => {
                assert(invoice_row(cells[index as int]) is Malformed);
                return Err(failure);
            },
        }
        index += 1;
    }
    assert forall|i: int| 0 <= i < cells.len() implies (#[trigger] invoice_row(cells[i])) is Value by {
        assert(invoice_row(cells[i]) == Decoded::Value(rows@[i]@));
    }
    assert(row_views(rows@) =~= Seq::new(cells.len(), |i: int| invoice_row(cells[i])->Value_0));
    Ok(rows)
}

/// Decodes the rows of the lookup for rendering, one row of the lookup for
/// each row of the table; the first row that is malformed ends the decoding in
/// its failure.
pub fn render_rows_of(table: &Vec<Vec<Cell>>) -> (outcome: Result<Vec<RenderRow>, LedgerError>)
    ensures
        match render_rows(table_view(table@)) {
            Decoded::Value(rows) => outcome is Ok && render_row_views(outcome->Ok_0@) == rows,
            Decoded::Malformed => outcome is Err && outcome->Err_0 is Storage,
        },
{
    let ghost cells = table_view(table@);
    let mut rows: Vec<RenderRow> = Vec::new();
    let mut index: usize = 0;
    while index < table.len()
        invariant
            index <= table.len(),
            cells == table_view(table@),
            rows@.len() == index,
            forall|i: int|
                0 <= i < index ==> render_row(cells[i]) == Decoded::Value(#[trigger] rows@[i]@),
        decreases table.len() - index,
    {
        assert(cells[index as int] == cell_views(table@[index as int]@));
        match render_row_of(table[index].as_slice()) {
            Ok(decoded) => rows.push(decoded),
            Err(failure) => {
                assert(render_row(cells[index as int]) is Malformed);
                return Err(failure);
            },
        }
        index += 1;
    }
    assert forall|i: int| 0 <= i < cells.len() implies (#[trigger] render_row(cells[i])) is Value by {
        assert(render_row(cells[i]) == Decoded::Value(rows@[i]@));
    }
    assert(render_row_views(rows@) =~= Seq::new(
        cells.len(),
        |i: int| render_row(cells[i])->Value_0,
    ));
    Ok(rows)
}

/// Reads the identifier that a lookup found, if it found a row.
pub fn identifier_found(table: &Vec<Vec<Cell>>) -> (outcome: Result<Option<i32>, LedgerError>)
    ensures
        match found_identifier(table_view(table@)) {
            Decoded::Value(found) => outcome == Ok::<Option<i32>, LedgerError>(found),
            Decoded::Malformed => outcome is Err && outcome->Err_0 is Storage,
        },
{
    if table.len() == 0 {
        return Ok(None);
    }
    assert(table_view(table@)[0] == cell_views(table@[0]@));
    if table[0].len() == 0 {
        return Err(malformed("a row of the lookup has no column"));
    }
    assert(cell_views(table@[0]@)[0] == table@[0]@[0]@);
    let id = identifier_of(&table[0][0])?;
    Ok(Some(id))
}

} // verus!

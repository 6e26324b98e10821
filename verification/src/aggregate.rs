//! Reassembly of joined rows into invoices.
//!
//! A query for invoices joins each invoice to its items, so it yields one row
//! per pair of invoice and item, and a single row without an item for an
//! invoice that has none. The rows of one invoice stand next to each other.
//! This module folds such rows back into invoices in one forward pass.

use vstd::prelude::*;
use crate::error::LedgerError;
use crate::models::{
    Invoice, InvoiceForPdf, InvoiceForPdfView, InvoiceItem, InvoiceItemView, InvoiceView,
    invoice_views,
};

verus! {

/// One row of the join: the columns of the invoice, and the item of this row
/// if the invoice has any.
#[derive(Debug, Clone, PartialEq, Eq)]
pub struct InvoiceRow {
    pub invoice_id: i32,
    pub client_id: i32,
    pub date: String,
    pub item: Option<InvoiceItem>,
}

/// The view of a row of the invoice listing: its fields as mathematical values.
pub struct InvoiceRowView {
    pub invoice_id: i32,
    pub client_id: i32,
    pub date: Seq<char>,
    pub item: Option<InvoiceItemView>,
}

impl View for InvoiceRow {
    type V = InvoiceRowView;

    open spec fn view(&self) -> InvoiceRowView {
        InvoiceRowView {
            invoice_id: self.invoice_id,
            client_id: self.client_id,
            date: self.date@,
            item: match self.item {
                Some(item) => Some(item@),
                None => None,
            },
        }
    }
}

/// The views of a run of rows, in order.
pub open spec fn row_views(rows: Seq<InvoiceRow>) -> Seq<InvoiceRowView> {
    rows.map_values(|row: InvoiceRow| row@)
}

/// The items that a row contributes: its item, or nothing.
pub open spec fn row_items(row: InvoiceRowView) -> Seq<InvoiceItemView> {
    match row.item {
        Some(item) => seq![item],
        None => Seq::empty(),
    }
}

/// The invoice that a row opens.
pub open spec fn opened(row: InvoiceRowView) -> InvoiceView {
    InvoiceView {
        id: row.invoice_id,
        client_id: row.client_id,
        date: row.date,
        items: row_items(row),
    }
}

/// An invoice after one more of its rows.
pub open spec fn extended(invoice: InvoiceView, row: InvoiceRowView) -> InvoiceView {
    InvoiceView { items: invoice.items + row_items(row), ..invoice }
}

/// The invoices seen so far after one more row: the row continues the last
/// invoice if it carries that invoice's id, and opens a new one otherwise.
pub open spec fn absorb(invoices: Seq<InvoiceView>, row: InvoiceRowView) -> Seq<InvoiceView> {
    if invoices.len() > 0 && invoices.last().id == row.invoice_id {
        invoices.drop_last().push(extended(invoices.last(), row))
    } else {
        invoices.push(opened(row))
    }
}

/// The invoices that a run of rows stands for.
pub open spec fn group_rows(rows: Seq<InvoiceRowView>) -> Seq<InvoiceView>
    decreases rows.len(),
{
    if rows.len() == 0 {
        Seq::empty()
    } else {
        absorb(group_rows(rows.drop_last()), rows.last())
    }
}

/// Takes one more row into the invoices gathered so far. The last invoice of
/// the list is the one that the latest rows belong to: a row with its id adds
/// to it, and any other row opens a new invoice behind it.
pub fn absorb_row(invoices: &mut Vec<Invoice>, row: InvoiceRow)
    ensures
        invoice_views(final(invoices)@) == absorb(invoice_views(old(invoices)@), row@),
{
    let InvoiceRow { invoice_id, client_id, date, item } = row;
    let mut invoice = match invoices.pop() {
        Some(last) => {
            if last.id == invoice_id {
                last
            } else {
                invoices.push(last);
                Invoice { id: invoice_id, client_id, date, items: Vec::new() }
            }
        },
        None => Invoice { id: invoice_id, client_id, date, items: Vec::new() },
    };
    let ghost held = invoice@;
    if let Some(item) = item {
        invoice.items.push(item);
    }
    assert(invoice@.items =~= held.items + row_items(row@));
    invoices.push(invoice);
}

/// Folds a run of joined rows into invoices.
pub fn aggregate_rows(rows: Vec<InvoiceRow>) -> (invoices: Vec<Invoice>)
    ensures
        invoice_views(invoices@) == group_rows(row_views(rows@)),
{
    let mut invoices: Vec<Invoice> = Vec::new();
    let ghost all = row_views(rows@);
    for row in it: rows
        invariant
            it.seq() == rows@,
            all == row_views(rows@),
            invoice_views(invoices@) == group_rows(all.take(it.index() as int)),
    {
        proof {
            assert(all.take(it.index() + 1).drop_last() =~= all.take(it.index() as int));
        }
        absorb_row(&mut invoices, row);
    }
    proof {
        assert(all.take(rows@.len() as int) =~= all);
    }
    invoices
}

/// The rows are in ascending order of invoice id, as the queries of the store
/// deliver them.
pub open spec fn ascending(rows: Seq<InvoiceRowView>) -> bool {
    forall|i: int, j: int| 0 <= i <= j < rows.len() ==> rows[i].invoice_id <= rows[j].invoice_id
}

/// A row comes in order behind the rows before it: there is none before it,
/// or its invoice id is not less than that of the latest.
pub fn follows(latest: Option<i32>, next: i32) -> (in_order: bool)
    ensures
        in_order == (match latest {
            Some(id) => id <= next,
            None => true,
        }),
{
    match latest {
        Some(id) => id <= next,
        None => true,
    }
}

/// Whether the rows come in ascending order of invoice id.
pub fn in_ascending_order(rows: &Vec<InvoiceRow>) -> (in_order: bool)
    ensures
        in_order == ascending(row_views(rows@)),
{
    let ghost all = row_views(rows@);
    let mut latest: Option<i32> = None;
    let mut index: usize = 0;
    while index < rows.len()
        invariant
            index <= rows.len(),
            all == row_views(rows@),
            ascending(all.take(index as int)),
            latest == (if index == 0 {
                None
            } else {
                Some(all[index - 1].invoice_id)
            }),
        decreases rows.len() - index,
    {
        let next = rows[index].invoice_id;
        assert(all[index as int] == rows@[index as int]@);
        if !follows(latest, next) {
            assert(!(all[index - 1].invoice_id <= all[index as int].invoice_id));
            return false;
        }
        proof {
            let before = all.take(index as int);
            let now = all.take(index + 1);
            assert forall|i: int, j: int| 0 <= i <= j < now.len() implies now[i].invoice_id
                <= now[j].invoice_id by {
                if j < index {
                    assert(before[i].invoice_id <= before[j].invoice_id);
                } else if i < index {
                    assert(before[i].invoice_id <= before[index - 1].invoice_id);
                }
            }
        }
        latest = Some(next);
        index += 1;
    }
    assert(all.take(rows@.len() as int) =~= all);
    true
}

/// What a row contributes to the invoice `id`: its item if it is a row of that
/// invoice and carries one.
pub open spec fn item_for(id: i32) -> spec_fn(InvoiceRowView) -> Option<InvoiceItemView> {
    |row: InvoiceRowView| if row.invoice_id == id { row.item } else { None }
}

/// The items that the rows hold for the invoice `id`, in the order of the rows.
pub open spec fn items_of(rows: Seq<InvoiceRowView>, id: i32) -> Seq<InvoiceItemView> {
    rows.filter_map(item_for(id))
}

/// After any row, the last invoice is the one that this row belongs to.
pub proof fn lemma_last_invoice(rows: Seq<InvoiceRowView>)
    requires
        rows.len() > 0,
    ensures
        group_rows(rows).len() > 0,
        group_rows(rows).last().id == rows.last().invoice_id,
{
}

/// Grouping never yields more invoices than there are rows.
pub proof fn lemma_group_len(rows: Seq<InvoiceRowView>)
    ensures
        group_rows(rows).len() <= rows.len(),
        rows.len() > 0 ==> group_rows(rows).len() > 0,
    decreases rows.len(),
{
    if rows.len() > 0 {
        lemma_group_len(rows.drop_last());
    }
}

/// No invoice is listed once per item: two neighbours of the result never
/// carry the same id, whatever the order of the rows.
pub proof fn lemma_neighbours_differ(rows: Seq<InvoiceRowView>)
    ensures
        forall|k: int|
            0 <= k < group_rows(rows).len() - 1 ==> (#[trigger] group_rows(rows)[k]).id
                != group_rows(rows)[k + 1].id,
    decreases rows.len(),
{
    if rows.len() > 0 {
        let before = group_rows(rows.drop_last());
        let after = group_rows(rows);
        lemma_neighbours_differ(rows.drop_last());
        assert forall|k: int| 0 <= k < after.len() - 1 implies (#[trigger] after[k]).id != after[k
            + 1].id by {
            if k + 1 < before.len() {
                assert(before[k].id != before[k + 1].id);
            }
        }
    }
}

/// No invoice is dropped: the invoice of every row is among the result,
/// whether or not the row carries an item.
pub proof fn lemma_every_invoice_appears(rows: Seq<InvoiceRowView>, i: int)
    requires
        0 <= i < rows.len(),
    ensures
        exists|k: int|
            0 <= k < group_rows(rows).len() && #[trigger] group_rows(rows)[k].id
                == rows[i].invoice_id,
    decreases rows.len(),
{
    if i == rows.len() - 1 {
        lemma_last_invoice(rows);
    } else {
        let before = group_rows(rows.drop_last());
        lemma_every_invoice_appears(rows.drop_last(), i);
        let k = choose|k: int|
            0 <= k < before.len() && #[trigger] before[k].id == rows.drop_last()[i].invoice_id;
        assert(group_rows(rows)[k].id == before[k].id);
    }
}

/// Every invoice of the result is the invoice of some row.
pub proof fn lemma_every_invoice_has_a_row(rows: Seq<InvoiceRowView>, k: int)
    requires
        0 <= k < group_rows(rows).len(),
    ensures
        exists|i: int| 0 <= i < rows.len() && #[trigger] rows[i].invoice_id == group_rows(rows)[k].id,
    decreases rows.len(),
{
    if k == group_rows(rows).len() - 1 {
        lemma_last_invoice(rows);
    } else {
        let head = rows.drop_last();
        lemma_every_invoice_has_a_row(head, k);
        let i = choose|i: int|
            0 <= i < head.len() && #[trigger] head[i].invoice_id == group_rows(head)[k].id;
        assert(rows[i].invoice_id == group_rows(rows)[k].id);
    }
}

/// Rows in ascending order stay so without the last of them.
proof fn lemma_head_ascends(rows: Seq<InvoiceRowView>)
    requires
        ascending(rows),
        rows.len() > 0,
    ensures
        ascending(rows.drop_last()),
        rows.len() > 1 ==> rows.drop_last().last().invoice_id <= rows.last().invoice_id,
{
    let head = rows.drop_last();
    assert forall|i: int, j: int| 0 <= i <= j < head.len() implies head[i].invoice_id
        <= head[j].invoice_id by {
        assert(rows[i].invoice_id <= rows[j].invoice_id);
    }
    if rows.len() > 1 {
        assert(rows[rows.len() - 2].invoice_id <= rows[rows.len() - 1].invoice_id);
    }
}

/// No invoice is duplicated, and the order of the rows is kept: on rows in
/// ascending order of invoice id the ids of the result strictly ascend.
pub proof fn lemma_ids_strictly_ascend(rows: Seq<InvoiceRowView>)
    requires
        ascending(rows),
    ensures
        forall|k: int, l: int|
            0 <= k < l < group_rows(rows).len() ==> #[trigger] group_rows(rows)[k].id
                < #[trigger] group_rows(rows)[l].id,
    decreases rows.len(),
{
    if rows.len() > 0 {
        let head = rows.drop_last();
        lemma_head_ascends(rows);
        lemma_ids_strictly_ascend(head);
        if head.len() > 0 {
            lemma_last_invoice(head);
        }
    }
}

/// Rows that hold no row of an invoice hold no item of it.
pub proof fn lemma_items_of_absent(rows: Seq<InvoiceRowView>, id: i32)
    requires
        forall|i: int| 0 <= i < rows.len() ==> (#[trigger] rows[i]).invoice_id != id,
    ensures
        items_of(rows, id) == Seq::<InvoiceItemView>::empty(),
    decreases rows.len(),
{
    if rows.len() > 0 {
        let head = rows.drop_last();
        assert forall|i: int| 0 <= i < head.len() implies (#[trigger] head[i]).invoice_id != id by {
            assert(rows[i].invoice_id != id);
        }
        lemma_items_of_absent(head, id);
    }
}

/// Rows of an invoice that carry no item give it no item.
pub proof fn lemma_items_of_bare(rows: Seq<InvoiceRowView>, id: i32)
    requires
        forall|i: int|
            0 <= i < rows.len() && (#[trigger] rows[i]).invoice_id == id ==> rows[i].item is None,
    ensures
        items_of(rows, id) == Seq::<InvoiceItemView>::empty(),
    decreases rows.len(),
{
    if rows.len() > 0 {
        let head = rows.drop_last();
        assert forall|i: int| 0 <= i < head.len() && (#[trigger] head[i]).invoice_id
            == id implies head[i].item is None by {
            assert(rows[i].invoice_id == id ==> rows[i].item is None);
        }
        lemma_items_of_bare(head, id);
    }
}

/// Each invoice holds all of its items and no others, in the order of the
/// rows: on rows in ascending order of invoice id, the items of an invoice of
/// the result are exactly the items that the rows hold for its id.
pub proof fn lemma_items_in_row_order(rows: Seq<InvoiceRowView>, k: int)
    requires
        ascending(rows),
        0 <= k < group_rows(rows).len(),
    ensures
        group_rows(rows)[k].items == items_of(rows, group_rows(rows)[k].id),
    decreases rows.len(),
{
    let head = rows.drop_last();
    let before = group_rows(head);
    let id = group_rows(rows)[k].id;
    lemma_head_ascends(rows);
    lemma_ids_strictly_ascend(head);
    if head.len() > 0 {
        lemma_last_invoice(head);
    }
    if k < before.len() {
        // An invoice that the earlier rows opened: the last row adds to it
        // only if it is the latest one and the row carries its id.
        lemma_items_in_row_order(head, k);
    } else {
        // The invoice that the last row opens: no earlier row carries its id.
        assert forall|i: int| 0 <= i < head.len() implies (#[trigger] head[i]).invoice_id
            != id by {
            assert(head[i].invoice_id <= head[head.len() - 1].invoice_id);
        }
        lemma_items_of_absent(head, id);
    }
}

/// An invoice without items is still listed, once and with no item: on rows
/// in ascending order of invoice id, if no row of the invoice of row `i`
/// carries an item, exactly one invoice of the result has its id, and that one
/// has an empty list of items.
pub proof fn lemma_invoice_without_items(rows: Seq<InvoiceRowView>, i: int) -> (k: int)
    requires
        ascending(rows),
        0 <= i < rows.len(),
        forall|j: int|
            0 <= j < rows.len() && (#[trigger] rows[j]).invoice_id == rows[i].invoice_id
                ==> rows[j].item is None,
    ensures
        0 <= k < group_rows(rows).len(),
        group_rows(rows)[k].id == rows[i].invoice_id,
        group_rows(rows)[k].items.len() == 0,
        forall|l: int|
            0 <= l < group_rows(rows).len() && #[trigger] group_rows(rows)[l].id
                == rows[i].invoice_id ==> l == k,
{
    let out = group_rows(rows);
    lemma_every_invoice_appears(rows, i);
    let k = choose|k: int| 0 <= k < out.len() && #[trigger] out[k].id == rows[i].invoice_id;
    lemma_ids_strictly_ascend(rows);
    lemma_items_in_row_order(rows, k);
    lemma_items_of_bare(rows, rows[i].invoice_id);
    k
}

/// The invoice-level columns of an invoice come from the first of its rows:
/// on rows in ascending order of invoice id, the result is the index of a row
/// of that invoice which no other row of it precedes and whose client and date
/// the invoice carries.
pub proof fn lemma_header_from_first_row(rows: Seq<InvoiceRowView>, k: int) -> (i: int)
    requires
        ascending(rows),
        0 <= k < group_rows(rows).len(),
    ensures
        0 <= i < rows.len(),
        rows[i].invoice_id == group_rows(rows)[k].id,
        rows[i].client_id == group_rows(rows)[k].client_id,
        rows[i].date == group_rows(rows)[k].date,
        forall|j: int| 0 <= j < i ==> (#[trigger] rows[j]).invoice_id != group_rows(rows)[k].id,
    decreases rows.len(),
{
    let head = rows.drop_last();
    lemma_head_ascends(rows);
    if k < group_rows(head).len() {
        let i = lemma_header_from_first_row(head, k);
        assert forall|j: int| 0 <= j < i implies (#[trigger] rows[j]).invoice_id != group_rows(
            rows,
        )[k].id by {
            assert(head[j].invoice_id != group_rows(head)[k].id);
        }
        i
    } else {
        if head.len() > 0 {
            lemma_last_invoice(head);
        }
        assert forall|j: int| 0 <= j < rows.len() - 1 implies (#[trigger] rows[j]).invoice_id
            != group_rows(rows)[k].id by {
            assert(rows[j].invoice_id <= rows[rows.len() - 2].invoice_id);
        }
        rows.len() - 1
    }
}

/// One row of the join that serves rendering: the invoice, the contact
/// details of its client, and the item of this row if the invoice has any.
#[derive(Debug, Clone, PartialEq, Eq)]
pub struct RenderRow {
    pub invoice_id: i32,
    pub client_name: String,
    pub client_email: String,
    pub client_phone_number: String,
    pub date: String,
    pub item: Option<InvoiceItem>,
}

/// The view of a row of the lookup for rendering: its fields as mathematical values.
pub struct RenderRowView {
    pub invoice_id: i32,
    pub client_name: Seq<char>,
    pub client_email: Seq<char>,
    pub client_phone_number: Seq<char>,
    pub date: Seq<char>,
    pub item: Option<InvoiceItemView>,
}

impl View for RenderRow {
    type V = RenderRowView;

    open spec fn view(&self) -> RenderRowView {
        RenderRowView {
            invoice_id: self.invoice_id,
            client_name: self.client_name@,
            client_email: self.client_email@,
            client_phone_number: self.client_phone_number@,
            date: self.date@,
            item: match self.item {
                Some(item) => Some(item@),
                None => None,
            },
        }
    }
}

/// The views of a run of rows, in order.
pub open spec fn render_row_views(rows: Seq<RenderRow>) -> Seq<RenderRowView> {
    rows.map_values(|row: RenderRow| row@)
}

/// The invoice that the rows of a lookup by id stand for: none if there is no
/// row; else the invoice and the client of the first row, with the items of
/// all the rows in their order.
pub open spec fn render_of(rows: Seq<RenderRowView>) -> Option<InvoiceForPdfView> {
    if rows.len() == 0 {
        None
    } else {
        Some(
            InvoiceForPdfView {
                id: rows[0].invoice_id,
                client_name: rows[0].client_name,
                client_email: rows[0].client_email,
                client_phone_number: rows[0].client_phone_number,
                date: rows[0].date,
                items: rows.filter_map(|row: RenderRowView| row.item),
            },
        )
    }
}

/// The view of an invoice for rendering that may not be there yet.
pub open spec fn pending_view(pending: Option<InvoiceForPdf>) -> Option<InvoiceForPdfView> {
    match pending {
        Some(invoice) => Some(invoice@),
        None => None,
    }
}

/// The items that a row of a lookup by id contributes: its item, or nothing.
pub open spec fn render_row_items(row: RenderRowView) -> Seq<InvoiceItemView> {
    match row.item {
        Some(item) => seq![item],
        None => Seq::empty(),
    }
}

/// The invoice for rendering after one more row: the first row opens it, and
/// every row adds its item if it has one.
pub open spec fn render_after(pending: Option<InvoiceForPdfView>, row: RenderRowView) -> InvoiceForPdfView {
    match pending {
        Some(invoice) => InvoiceForPdfView {
            items: invoice.items + render_row_items(row),
            ..invoice
        },
        None => InvoiceForPdfView {
            id: row.invoice_id,
            client_name: row.client_name,
            client_email: row.client_email,
            client_phone_number: row.client_phone_number,
            date: row.date,
            items: render_row_items(row),
        },
    }
}

/// Taking the rows in one at a time builds the invoice that all of them stand
/// for.
pub proof fn lemma_render_step(seen: Seq<RenderRowView>, row: RenderRowView)
    ensures
        render_of(seen.push(row)) == Some(render_after(render_of(seen), row)),
{
    let all = seen.push(row);
    assert(all.drop_last() =~= seen);
    assert(all.filter_map(|row: RenderRowView| row.item) =~= seen.filter_map(
        |row: RenderRowView| row.item,
    ) + render_row_items(row));
    if seen.len() == 0 {
        assert(render_after(render_of(seen), row).items =~= all.filter_map(
            |row: RenderRowView| row.item,
        ));
    }
}

/// Takes one more row of a lookup by id into the invoice gathered so far.
pub fn absorb_render_row(pending: Option<InvoiceForPdf>, row: RenderRow) -> (invoice:
    InvoiceForPdf)
    ensures
        invoice@ == render_after(pending_view(pending), row@),
{
    let RenderRow { invoice_id, client_name, client_email, client_phone_number, date, item } =
        row;
    let mut invoice = match pending {
        Some(invoice) => invoice,
        None => InvoiceForPdf {
            id: invoice_id,
            client_name,
            client_email,
            client_phone_number,
            date,
            items: Vec::new(),
        },
    };
    let ghost held = invoice@;
    if let Some(item) = item {
        invoice.items.push(item);
    }
    assert(invoice@.items =~= held.items + render_row_items(row@));
    invoice
}

/// Builds the invoice for rendering from the rows of a lookup by id. A lookup
/// that found no row found no invoice.
pub fn assemble_invoice(rows: Vec<RenderRow>) -> (found: Result<InvoiceForPdf, LedgerError>)
    ensures
        match render_of(render_row_views(rows@)) {
            Some(invoice) => found is Ok && found->Ok_0@ == invoice,
            None => found == Err::<InvoiceForPdf, LedgerError>(LedgerError::NotFound),
        },
{
    let mut pending: Option<InvoiceForPdf> = None;
    let ghost all = render_row_views(rows@);
    for row in it: rows
        invariant
            it.seq() == rows@,
            all == render_row_views(rows@),
            pending_view(pending) == render_of(all.take(it.index() as int)),
    {
        proof {
            assert(all.take(it.index() + 1) =~= all.take(it.index() as int).push(row@));
            lemma_render_step(all.take(it.index() as int), row@);
        }
        pending = Some(absorb_render_row(pending, row));
    }
    proof {
        assert(all.take(rows@.len() as int) =~= all);
    }
    match pending {
        Some(invoice) => Ok(invoice),
        None => Err(LedgerError::NotFound),
    }
}

} // verus!

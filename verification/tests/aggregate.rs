use clinv::aggregate::{
    absorb_render_row, absorb_row, aggregate_rows, assemble_invoice, InvoiceRow, RenderRow,
};
use clinv::error::LedgerError;
use clinv::models::{Invoice, InvoiceForPdf, InvoiceItem, Number};

fn item(id: i32, description: &str, hours: f64, rate: f64, amount: f64) -> InvoiceItem {
    InvoiceItem {
        id,
        description: description.to_string(),
        hours: Number::Real(hours.to_bits()),
        rate: Number::Real(rate.to_bits()),
        amount: Number::Real(amount.to_bits()),
    }
}

fn row(invoice_id: i32, client_id: i32, date: &str, item: Option<InvoiceItem>) -> InvoiceRow {
    InvoiceRow { invoice_id, client_id, date: date.to_string(), item }
}

fn invoice(id: i32, client_id: i32, date: &str, items: Vec<InvoiceItem>) -> Invoice {
    Invoice { id, client_id, date: date.to_string(), items }
}

fn render_row(invoice_id: i32, client: &str, date: &str, item: Option<InvoiceItem>) -> RenderRow {
    RenderRow {
        invoice_id,
        client_name: client.to_string(),
        client_email: format!("{}@example.com", client),
        client_phone_number: format!("{}-phone", client),
        date: date.to_string(),
        item,
    }
}

#[test]
fn no_rows_give_no_invoices() {
    assert_eq!(aggregate_rows(vec![]), Vec::<Invoice>::new());
}

#[test]
fn row_without_item_gives_an_invoice_without_items() {
    let invoices = aggregate_rows(vec![row(1, 7, "2025-06-06", None)]);
    assert_eq!(invoices, vec![invoice(1, 7, "2025-06-06", vec![])]);
}

#[test]
fn single_item_is_attached_with_its_stored_values() {
    let service = item(1, "service", 2.0, 50.0, 100.0);
    let invoices = aggregate_rows(vec![row(1, 7, "2025-06-06", Some(service.clone()))]);
    assert_eq!(invoices.len(), 1);
    assert_eq!(invoices[0].items, vec![service]);
    assert_eq!(invoices[0].items[0].amount, Number::Real(100.0f64.to_bits()));
}

#[test]
fn amount_is_carried_and_not_computed() {
    let odd = item(1, "service", 2.0, 50.0, 7.0);
    let invoices = aggregate_rows(vec![row(1, 7, "2025-06-06", Some(odd))]);
    assert_eq!(invoices[0].items[0].amount, Number::Real(7.0f64.to_bits()));
}

#[test]
fn rows_of_one_invoice_give_one_invoice() {
    let a = item(1, "a", 1.0, 1.0, 1.0);
    let b = item(2, "b", 2.0, 2.0, 4.0);
    let c = item(3, "c", 3.0, 3.0, 9.0);
    let invoices = aggregate_rows(vec![
        row(4, 7, "2025-06-06", Some(a.clone())),
        row(4, 7, "2025-06-06", Some(b.clone())),
        row(4, 7, "2025-06-06", Some(c.clone())),
    ]);
    assert_eq!(invoices, vec![invoice(4, 7, "2025-06-06", vec![a, b, c])]);
}

#[test]
fn invoices_keep_the_order_of_the_rows() {
    let a = item(1, "a", 1.0, 1.0, 1.0);
    let b = item(2, "b", 2.0, 2.0, 4.0);
    let c = item(3, "c", 3.0, 3.0, 9.0);
    let invoices = aggregate_rows(vec![
        row(1, 7, "2025-06-01", Some(b.clone())),
        row(1, 7, "2025-06-01", Some(a.clone())),
        row(2, 7, "2025-06-02", None),
        row(3, 8, "2025-06-03", Some(c.clone())),
    ]);
    assert_eq!(
        invoices,
        vec![
            invoice(1, 7, "2025-06-01", vec![b, a]),
            invoice(2, 7, "2025-06-02", vec![]),
            invoice(3, 8, "2025-06-03", vec![c]),
        ]
    );
}

#[test]
fn header_comes_from_the_first_row_of_an_invoice() {
    let invoices = aggregate_rows(vec![
        row(1, 7, "2025-06-01", None),
        row(1, 8, "2025-06-02", Some(item(1, "a", 1.0, 1.0, 1.0))),
    ]);
    assert_eq!(invoices.len(), 1);
    assert_eq!(invoices[0].client_id, 7);
    assert_eq!(invoices[0].date, "2025-06-01");
    assert_eq!(invoices[0].items.len(), 1);
}

#[test]
fn rows_of_an_invoice_that_are_apart_open_it_again() {
    let invoices = aggregate_rows(vec![
        row(1, 7, "d", None),
        row(2, 7, "d", None),
        row(1, 7, "d", None),
    ]);
    assert_eq!(invoices.iter().map(|invoice| invoice.id).collect::<Vec<i32>>(), vec![1, 2, 1]);
}

#[test]
fn row_is_absorbed_into_the_last_invoice_or_opens_one() {
    let a = item(1, "a", 1.0, 1.0, 1.0);
    let b = item(2, "b", 1.0, 1.0, 1.0);
    let mut invoices = vec![invoice(1, 7, "d1", vec![]), invoice(2, 7, "d2", vec![a.clone()])];
    absorb_row(&mut invoices, row(2, 9, "other", Some(b.clone())));
    assert_eq!(
        invoices,
        vec![invoice(1, 7, "d1", vec![]), invoice(2, 7, "d2", vec![a.clone(), b.clone()])]
    );
    absorb_row(&mut invoices, row(2, 7, "d2", None));
    assert_eq!(invoices.len(), 2);
    assert_eq!(invoices[1].items.len(), 2);
    absorb_row(&mut invoices, row(1, 7, "d1", Some(b.clone())));
    assert_eq!(invoices.len(), 3);
    assert_eq!(invoices[2], invoice(1, 7, "d1", vec![b]));
    let mut none: Vec<Invoice> = vec![];
    absorb_row(&mut none, row(5, 1, "d", None));
    assert_eq!(none, vec![invoice(5, 1, "d", vec![])]);
}

#[test]
fn lookup_without_rows_finds_nothing() {
    assert_eq!(assemble_invoice(vec![]), Err(LedgerError::NotFound));
}

#[test]
fn lookup_gathers_the_items_of_all_rows() {
    let a = item(1, "a", 1.0, 1.0, 1.0);
    let b = item(2, "b", 2.0, 2.0, 4.0);
    let found = assemble_invoice(vec![
        render_row(3, "acme", "2025-06-06", Some(a.clone())),
        render_row(3, "acme", "2025-06-06", None),
        render_row(3, "other", "2025-01-01", Some(b.clone())),
    ]);
    assert_eq!(
        found,
        Ok(InvoiceForPdf {
            id: 3,
            client_name: "acme".to_string(),
            client_email: "acme@example.com".to_string(),
            client_phone_number: "acme-phone".to_string(),
            date: "2025-06-06".to_string(),
            items: vec![a, b],
        })
    );
}

#[test]
fn lookup_of_an_invoice_without_items_has_none() {
    let found = assemble_invoice(vec![render_row(3, "acme", "2025-06-06", None)]).unwrap();
    assert_eq!(found.id, 3);
    assert!(found.items.is_empty());
}

#[test]
fn render_row_opens_or_extends() {
    let a = item(1, "a", 1.0, 1.0, 1.0);
    let opened = absorb_render_row(None, render_row(3, "acme", "2025-06-06", Some(a.clone())));
    assert_eq!(opened.id, 3);
    assert_eq!(opened.items, vec![a.clone()]);
    let b = item(2, "b", 1.0, 1.0, 1.0);
    let extended = absorb_render_row(Some(opened), render_row(9, "other", "x", Some(b.clone())));
    assert_eq!(extended.id, 3);
    assert_eq!(extended.client_name, "acme");
    assert_eq!(extended.items, vec![a, b]);
}

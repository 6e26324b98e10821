use clinv::aggregate::{InvoiceRow, RenderRow};
use clinv::cell::{
    client_of, identifier_of, invoice_row_of, item_of, quantity_of, render_row_of, text_of, Cell,
};
use clinv::error::LedgerError;
use clinv::models::{Client, InvoiceItem, Number};

fn text(value: &str) -> Cell {
    Cell::Text(value.to_string())
}

fn is_storage<T>(outcome: Result<T, LedgerError>) -> bool {
    matches!(outcome, Err(LedgerError::Storage(_)))
}

#[test]
fn identifier_is_an_integer_of_32_bits() {
    assert_eq!(identifier_of(&Cell::Integer(0)), Ok(0));
    assert_eq!(identifier_of(&Cell::Integer(-3)), Ok(-3));
    assert_eq!(identifier_of(&Cell::Integer(2147483647)), Ok(i32::MAX));
    assert_eq!(identifier_of(&Cell::Integer(-2147483648)), Ok(i32::MIN));
    assert!(is_storage(identifier_of(&Cell::Integer(2147483648))));
    assert!(is_storage(identifier_of(&Cell::Integer(-2147483649))));
    assert!(is_storage(identifier_of(&Cell::Null)));
    assert!(is_storage(identifier_of(&Cell::Real(1.0f64.to_bits()))));
    assert!(is_storage(identifier_of(&text("1"))));
    assert!(is_storage(identifier_of(&Cell::Blob(vec![1]))));
}

#[test]
fn text_is_a_text() {
    assert_eq!(text_of(&text("Acme")), Ok("Acme".to_string()));
    assert_eq!(text_of(&text("")), Ok(String::new()));
    assert!(is_storage(text_of(&Cell::Null)));
    assert!(is_storage(text_of(&Cell::Integer(1))));
    assert!(is_storage(text_of(&Cell::Blob(vec![65]))));
}

#[test]
fn quantity_is_a_number() {
    assert_eq!(quantity_of(&Cell::Integer(2)), Ok(Number::Integer(2)));
    assert_eq!(quantity_of(&Cell::Real(2.5f64.to_bits())), Ok(Number::Real(2.5f64.to_bits())));
    assert!(is_storage(quantity_of(&Cell::Null)));
    assert!(is_storage(quantity_of(&text("2.5"))));
    assert!(is_storage(quantity_of(&Cell::Blob(vec![]))));
}

#[test]
fn null_identifier_means_no_item() {
    assert_eq!(item_of(&Cell::Null, &Cell::Null, &Cell::Null, &Cell::Null, &Cell::Null), Ok(None));
    assert_eq!(item_of(&Cell::Null, &Cell::Integer(1), &text("x"), &Cell::Null, &text("y")), Ok(None));
}

#[test]
fn item_needs_all_of_its_columns() {
    let two = Cell::Real(2.0f64.to_bits());
    assert_eq!(
        item_of(&Cell::Integer(4), &text("service"), &two, &Cell::Integer(50), &two),
        Ok(Some(InvoiceItem {
            id: 4,
            description: "service".to_string(),
            hours: Number::Real(2.0f64.to_bits()),
            rate: Number::Integer(50),
            amount: Number::Real(2.0f64.to_bits()),
        }))
    );
    assert!(is_storage(item_of(&text("4"), &text("service"), &two, &two, &two)));
    assert!(is_storage(item_of(&Cell::Integer(4), &Cell::Null, &two, &two, &two)));
    assert!(is_storage(item_of(&Cell::Integer(4), &text("service"), &Cell::Null, &two, &two)));
    assert!(is_storage(item_of(&Cell::Integer(4), &text("service"), &two, &text("x"), &two)));
    assert!(is_storage(item_of(&Cell::Integer(4), &text("service"), &two, &two, &Cell::Null)));
}

#[test]
fn client_is_read_from_four_columns() {
    let cells = vec![Cell::Integer(3), text("Acme"), text("a@acme.test"), text("1"), text("more")];
    assert_eq!(
        client_of(&cells),
        Ok(Client {
            id: 3,
            name: "Acme".to_string(),
            email: "a@acme.test".to_string(),
            phone_number: "1".to_string(),
        })
    );
    assert!(is_storage(client_of(&cells[..3])));
    assert!(is_storage(client_of(&[])));
    assert!(is_storage(client_of(&[Cell::Null, text("Acme"), text("a"), text("1")])));
    assert!(is_storage(client_of(&[Cell::Integer(3), Cell::Null, text("a"), text("1")])));
    assert!(is_storage(client_of(&[Cell::Integer(3), text("Acme"), Cell::Integer(1), text("1")])));
    assert!(is_storage(client_of(&[Cell::Integer(3), text("Acme"), text("a"), Cell::Null])));
}

#[test]
fn invoice_row_is_read_from_eight_columns() {
    let two = Cell::Real(2.0f64.to_bits());
    let with_item = vec![
        Cell::Integer(1),
        Cell::Integer(7),
        text("2025-06-06"),
        Cell::Integer(4),
        text("service"),
        two.clone(),
        two.clone(),
        two.clone(),
    ];
    let row = invoice_row_of(&with_item).unwrap();
    assert_eq!((row.invoice_id, row.client_id, row.date.as_str()), (1, 7, "2025-06-06"));
    assert_eq!(row.item.unwrap().id, 4);
    let bare = vec![
        Cell::Integer(1),
        Cell::Integer(7),
        text("2025-06-06"),
        Cell::Null,
        Cell::Null,
        Cell::Null,
        Cell::Null,
        Cell::Null,
    ];
    assert_eq!(
        invoice_row_of(&bare),
        Ok(InvoiceRow { invoice_id: 1, client_id: 7, date: "2025-06-06".to_string(), item: None })
    );
    assert!(is_storage(invoice_row_of(&bare[..7])));
    let mut undated = bare.clone();
    undated[2] = Cell::Null;
    assert!(is_storage(invoice_row_of(&undated)));
    let mut ownerless = bare.clone();
    ownerless[1] = text("7");
    assert!(is_storage(invoice_row_of(&ownerless)));
    let mut broken = with_item.clone();
    broken[6] = Cell::Null;
    assert!(is_storage(invoice_row_of(&broken)));
}

#[test]
fn render_row_is_read_from_eleven_columns() {
    let two = Cell::Real(2.0f64.to_bits());
    let cells = vec![
        Cell::Integer(1),
        Cell::Null,
        text("2025-06-06"),
        text("Acme"),
        text("a@acme.test"),
        text("555"),
        Cell::Integer(4),
        text("service"),
        two.clone(),
        two.clone(),
        two.clone(),
    ];
    let row = render_row_of(&cells).unwrap();
    assert_eq!(row.invoice_id, 1);
    assert_eq!(row.client_name, "Acme");
    assert_eq!(row.client_email, "a@acme.test");
    assert_eq!(row.client_phone_number, "555");
    assert_eq!(row.date, "2025-06-06");
    assert_eq!(row.item.as_ref().unwrap().description, "service");
    let mut bare = cells.clone();
    bare[6] = Cell::Null;
    assert_eq!(
        render_row_of(&bare),
        Ok(RenderRow {
            invoice_id: 1,
            client_name: "Acme".to_string(),
            client_email: "a@acme.test".to_string(),
            client_phone_number: "555".to_string(),
            date: "2025-06-06".to_string(),
            item: None,
        })
    );
    assert!(is_storage(render_row_of(&cells[..10])));
    let mut nameless = cells.clone();
    nameless[3] = Cell::Null;
    assert!(is_storage(render_row_of(&nameless)));
}

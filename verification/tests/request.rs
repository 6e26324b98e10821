use clinv::request::{
    client_deletion, client_insertion, client_listing, client_lookup, invoice_deletion,
    invoice_insertion, invoice_listing, invoice_lookup, item_deletion, schema, transaction_begin,
    transaction_commit, transaction_rollback, Request, BEGIN, COMMIT, CREATE_CLIENT_TABLE,
    CREATE_INVOICE_TABLE, CREATE_ITEM_TABLE, DELETE_CLIENT, DELETE_INVOICE, DELETE_ITEMS,
    INSERT_CLIENT, INSERT_INVOICE, ROLLBACK, SELECT_CLIENTS, SELECT_CLIENT_ID, SELECT_INVOICE,
    SELECT_INVOICES, SELECT_INVOICES_OF_CLIENT,
};

fn request<'a>(sql: &'a str, params: &[&'a str]) -> Request<'a> {
    Request { sql, params: params.to_vec() }
}

#[test]
fn schema_creates_the_three_tables_in_order() {
    assert_eq!(
        schema(),
        vec![
            request(CREATE_CLIENT_TABLE, &[]),
            request(CREATE_INVOICE_TABLE, &[]),
            request(CREATE_ITEM_TABLE, &[]),
        ]
    );
    assert!(CREATE_CLIENT_TABLE.contains("name TEXT UNIQUE NOT NULL"));
    assert!(CREATE_ITEM_TABLE.contains("invoice_id INTEGER NOT NULL"));
}

#[test]
fn transaction_statements_take_no_parameter() {
    assert_eq!(transaction_begin(), request("BEGIN", &[]));
    assert_eq!(transaction_commit(), request("COMMIT", &[]));
    assert_eq!(transaction_rollback(), request("ROLLBACK", &[]));
    assert_eq!((BEGIN, COMMIT, ROLLBACK), ("BEGIN", "COMMIT", "ROLLBACK"));
}

#[test]
fn client_statements_bind_their_texts_in_order() {
    assert_eq!(
        client_insertion("Acme", "a@acme.test", "555"),
        request(
            "INSERT INTO client (name, email, phone_number) VALUES (?1, ?2, ?3)",
            &["Acme", "a@acme.test", "555"]
        )
    );
    assert_eq!(client_insertion("x", "y", "z").sql, INSERT_CLIENT);
    assert_eq!(client_deletion("Acme"), request("DELETE FROM client WHERE name = ?1", &["Acme"]));
    assert_eq!(client_deletion("Acme").sql, DELETE_CLIENT);
    assert_eq!(client_listing(), request("SELECT * FROM client", &[]));
    assert_eq!(client_listing().sql, SELECT_CLIENTS);
    assert_eq!(client_lookup("Acme"), request("SELECT id FROM client WHERE name = ?1", &["Acme"]));
    assert_eq!(client_lookup("Acme").sql, SELECT_CLIENT_ID);
}

#[test]
fn invoice_statements_bind_their_texts_in_order() {
    assert_eq!(
        invoice_insertion("7", "2025-06-06"),
        request("INSERT INTO invoice (client_id, date) VALUES (?1, ?2)", &["7", "2025-06-06"])
    );
    assert_eq!(invoice_insertion("7", "d").sql, INSERT_INVOICE);
    assert_eq!(item_deletion("3"), request("DELETE FROM invoice_item WHERE invoice_id = ?1", &["3"]));
    assert_eq!(item_deletion("3").sql, DELETE_ITEMS);
    assert_eq!(invoice_deletion("3"), request("DELETE FROM invoice WHERE id = ?1", &["3"]));
    assert_eq!(invoice_deletion("3").sql, DELETE_INVOICE);
    assert_eq!(invoice_lookup("3"), request(SELECT_INVOICE, &["3"]));
    assert!(SELECT_INVOICE.contains("WHERE invoice.id = ?1"));
}

#[test]
fn listing_is_chosen_by_the_filter() {
    assert_eq!(invoice_listing(None), request(SELECT_INVOICES, &[]));
    assert_eq!(invoice_listing(Some("Acme")), request(SELECT_INVOICES_OF_CLIENT, &["Acme"]));
    assert!(SELECT_INVOICES.ends_with("ORDER BY invoice.id"));
    assert!(!SELECT_INVOICES.contains("?1"));
    assert!(SELECT_INVOICES_OF_CLIENT.ends_with("ORDER BY invoice.id"));
    assert!(SELECT_INVOICES_OF_CLIENT.contains("WHERE client.name = ?1"));
}

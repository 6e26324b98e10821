use clinv::cli::Commands;
use clinv::commands::{self, Field, Outcome};
use clinv::database::init_db;
use clinv::error::LedgerError;
use rusqlite::Connection;

fn test_db() -> Connection {
    let connection = Connection::open_in_memory().unwrap();
    let _ = init_db(&connection);
    connection
}

fn text(value: &str) -> Option<String> {
    Some(value.to_string())
}

#[test]
fn test_execute_command_list_clients() {
    let connection = test_db();
    let result = commands::execute_command(&connection, Commands::ListClients);
    assert!(result.is_ok());
}

#[test]
fn test_execute_command_delete_client() {
    let connection = test_db();

    connection
        .execute(
            "INSERT INTO client (name, email, phone_number) VALUES ('bobby', 'bob@example.com', '123')",
            [],
        )
        .unwrap();

    let result = commands::execute_command(
        &connection,
        Commands::DeleteClient { client_name: Some("bobby".to_string()) },
    );
    assert!(result.is_ok());

    let mut stmt = connection.prepare("SELECT COUNT(*) FROM client").unwrap();
    let count: i64 = stmt.query_row([], |row| row.get(0)).unwrap();
    assert_eq!(count, 0);
}

#[test]
fn test_execute_command_list_invoices_empty() {
    let connection = test_db();

    let result = commands::execute_command(&connection, Commands::ListInvoices { client_name: None });
    assert!(result.is_ok());
}

#[test]
fn test_execute_command_delete_invoice() {
    let connection = test_db();

    connection
        .execute(
            "INSERT INTO client (name, email, phone_number) VALUES ('Carol', 'carol@example.com', '555')",
            [],
        )
        .unwrap();

    let mut stmt = connection.prepare("SELECT id FROM client").unwrap();
    let id: Option<i32> = stmt.query_row([], |row| row.get(0)).unwrap();
    connection
        .execute(
            "INSERT INTO invoice (client_id, date) VALUES (?1, '2025-06-06')",
            [id.unwrap().to_string()],
        )
        .unwrap();
    connection
        .execute(
            "INSERT INTO invoice_item (invoice_id, description, hours, rate, amount) VALUES (1, 'service', 2, 50, 100)",
            [],
        )
        .unwrap();

    let result = commands::execute_command(
        &connection,
        Commands::DeleteInvoice { invoice_id: Some("1".to_string()) },
    );
    assert!(result.is_ok());

    let mut stmt = connection.prepare("SELECT COUNT(*) FROM invoice").unwrap();
    let count: i64 = stmt.query_row([], |row| row.get(0)).unwrap();
    assert_eq!(count, 0);
    let mut stmt = connection.prepare("SELECT COUNT(*) FROM invoice_item").unwrap();
    let count: i64 = stmt.query_row([], |row| row.get(0)).unwrap();
    assert_eq!(count, 0);
}

#[test]
fn complete_commands_lack_nothing() {
    assert_eq!(commands::missing(&Commands::ListClients), None);
    assert_eq!(commands::missing(&Commands::ListInvoices { client_name: None }), None);
    assert_eq!(commands::missing(&Commands::ListInvoices { client_name: text("Acme") }), None);
    assert_eq!(commands::missing(&Commands::NewInvoice { client_name: text("Acme") }), None);
    assert_eq!(
        commands::missing(&Commands::NewClient { name: text("a"), email: text("b"), phone_number: text("c") }),
        None
    );
}

#[test]
fn missing_values_are_asked_for_in_order() {
    let bare = Commands::NewClient { name: None, email: None, phone_number: None };
    assert_eq!(commands::missing(&bare), Some(Field::Name));
    let named = commands::supply(bare, Field::Name, "Acme".to_string());
    assert_eq!(named, Commands::NewClient { name: text("Acme"), email: None, phone_number: None });
    assert_eq!(commands::missing(&named), Some(Field::Email));
    let mailed = commands::supply(named, Field::Email, "a@acme.test".to_string());
    assert_eq!(commands::missing(&mailed), Some(Field::PhoneNumber));
    let complete = commands::supply(mailed, Field::PhoneNumber, "1".to_string());
    assert_eq!(commands::missing(&complete), None);
    assert_eq!(
        complete,
        Commands::NewClient { name: text("Acme"), email: text("a@acme.test"), phone_number: text("1") }
    );
}

#[test]
fn given_values_are_not_asked_for() {
    let partly = Commands::NewClient { name: text("Acme"), email: None, phone_number: text("1") };
    assert_eq!(commands::missing(&partly), Some(Field::Email));
    assert_eq!(commands::missing(&Commands::NewInvoice { client_name: None }), Some(Field::ClientName));
    assert_eq!(commands::missing(&Commands::DeleteClient { client_name: None }), Some(Field::ClientName));
    assert_eq!(commands::missing(&Commands::DeleteInvoice { invoice_id: None }), Some(Field::InvoiceId));
    assert_eq!(commands::missing(&Commands::Generate { invoice_id: None }), Some(Field::InvoiceId));
}

#[test]
fn answer_does_not_replace_a_given_value() {
    let given = Commands::DeleteClient { client_name: text("Acme") };
    assert_eq!(commands::supply(given.clone(), Field::ClientName, "Other".to_string()), given);
    let other = Commands::Generate { invoice_id: None };
    assert_eq!(commands::supply(other.clone(), Field::ClientName, "Acme".to_string()), other);
    assert_eq!(
        commands::supply(other, Field::InvoiceId, "7".to_string()),
        Commands::Generate { invoice_id: text("7") }
    );
    assert_eq!(commands::supply(Commands::ListClients, Field::Name, "x".to_string()), Commands::ListClients);
    assert_eq!(
        commands::supply(Commands::ListInvoices { client_name: None }, Field::ClientName, "x".to_string()),
        Commands::ListInvoices { client_name: None }
    );
}

#[test]
fn empty_answer_is_refused() {
    assert_eq!(commands::required(String::new()), Err(LedgerError::Validation));
    assert_eq!(commands::required("Acme".to_string()), Ok("Acme".to_string()));
    assert_eq!(commands::required(" ".to_string()), Ok(" ".to_string()));
}

#[test]
fn incomplete_command_is_refused_before_the_store_is_touched() {
    let connection = Connection::open_in_memory().unwrap();
    for command in [
        Commands::NewClient { name: text("Acme"), email: None, phone_number: text("1") },
        Commands::NewInvoice { client_name: None },
        Commands::DeleteClient { client_name: None },
        Commands::DeleteInvoice { invoice_id: None },
        Commands::Generate { invoice_id: None },
    ] {
        assert_eq!(commands::execute_command(&connection, command), Err(LedgerError::Validation));
    }
}

#[test]
fn commands_run_against_the_store() {
    let connection = test_db();
    let created = commands::execute_command(
        &connection,
        Commands::NewClient { name: text("Acme"), email: text("a@acme.test"), phone_number: text("1") },
    );
    assert_eq!(created, Ok(Outcome::ClientCreated));
    let again = commands::execute_command(
        &connection,
        Commands::NewClient { name: text("Acme"), email: text("b@acme.test"), phone_number: text("2") },
    );
    assert_eq!(again, Err(LedgerError::Conflict));
    let invoiced = commands::execute_command(&connection, Commands::NewInvoice { client_name: text("Acme") });
    assert_eq!(invoiced, Ok(Outcome::InvoiceCreated(1)));
    let unknown = commands::execute_command(&connection, Commands::NewInvoice { client_name: text("Nobody") });
    assert_eq!(unknown, Err(LedgerError::NotFound));
    match commands::execute_command(&connection, Commands::ListClients) {
        Ok(Outcome::Clients(clients)) => {
            assert_eq!(clients.len(), 1);
            assert_eq!(clients[0].name, "Acme");
        }
        other => panic!("{:?}", other),
    }
    match commands::execute_command(&connection, Commands::ListInvoices { client_name: text("Acme") }) {
        Ok(Outcome::Invoices(invoices)) => {
            assert_eq!(invoices.len(), 1);
            assert_eq!(invoices[0].date.len(), 10);
            assert_eq!(invoices[0].date.as_bytes()[4], b'-');
            assert_eq!(invoices[0].date.as_bytes()[7], b'-');
        }
        other => panic!("{:?}", other),
    }
    match commands::execute_command(&connection, Commands::Generate { invoice_id: text("1") }) {
        Ok(Outcome::Invoice(invoice)) => assert_eq!(invoice.client_name, "Acme"),
        other => panic!("{:?}", other),
    }
    assert_eq!(
        commands::execute_command(&connection, Commands::Generate { invoice_id: text("9") }),
        Err(LedgerError::NotFound)
    );
    assert_eq!(
        commands::execute_command(&connection, Commands::DeleteInvoice { invoice_id: text("1") }),
        Ok(Outcome::InvoiceDeleted)
    );
    assert_eq!(
        commands::execute_command(&connection, Commands::DeleteClient { client_name: text("Acme") }),
        Ok(Outcome::ClientDeleted)
    );
    assert_eq!(commands::execute_command(&connection, Commands::ListClients), Ok(Outcome::Clients(vec![])));
}

//! The dispatcher: what a command still needs, and what running it yields.
//!
//! Asking the operator for a value and showing a result are left to the
//! caller. This module decides which value to ask for next, takes the answer
//! in, and runs a command that is complete against the repository.

use vstd::prelude::*;
use crate::calendar::{DATE_FORMAT, format_date, today};
use crate::cli::{Commands, CommandsView, text_view};
use crate::database::{
    delete_client, delete_invoice, get_clients, get_invoice, get_invoices, new_client,
    new_invoice,
};
use crate::error::LedgerError;
use crate::models::{Client, Invoice, InvoiceForPdf};

verus! {

/// A value that a command needs and that the operator may have left out.
#[derive(Debug, Clone, Copy, PartialEq, Eq, Structural)]
pub enum Field {
    Name,
    Email,
    PhoneNumber,
    ClientName,
    InvoiceId,
}

/// What a command that ran has to show for it.
#[derive(Debug, Clone, PartialEq, Eq)]
pub enum Outcome {
    ClientCreated,
    /// The id that the store gave the new invoice.
    InvoiceCreated(i64),
    Clients(Vec<Client>),
    ClientDeleted,
    Invoices(Vec<Invoice>),
    InvoiceDeleted,
    /// The invoice to render.
    Invoice(InvoiceForPdf),
}

/// The first value that a command still lacks, in the order in which the
/// values are asked for. The filter of the invoice listing is optional and
/// never asked for.
pub open spec fn missing_field(command: CommandsView) -> Option<Field> {
    match command {
        CommandsView::NewClient { name, email, phone_number } => if name is None {
            Some(Field::Name)
        } else if email is None {
            Some(Field::Email)
        } else if phone_number is None {
            Some(Field::PhoneNumber)
        } else {
            None
        },
        CommandsView::NewInvoice { client_name } => if client_name is None {
            Some(Field::ClientName)
        } else {
            None
        },
        CommandsView::ListClients => None,
        CommandsView::ListInvoices { client_name } => None,
        CommandsView::DeleteClient { client_name } => if client_name is None {
            Some(Field::ClientName)
        } else {
            None
        },
        CommandsView::DeleteInvoice { invoice_id } => if invoice_id is None {
            Some(Field::InvoiceId)
        } else {
            None
        },
        CommandsView::Generate { invoice_id } => if invoice_id is None {
            Some(Field::InvoiceId)
        } else {
            None
        },
    }
}

/// How many values a command still lacks.
pub open spec fn missing_count(command: CommandsView) -> nat {
    match command {
        CommandsView::NewClient { name, email, phone_number } => (if name is None {
            1nat
        } else {
            0nat
        }) + (if email is None {
            1nat
        } else {
            0nat
        }) + (if phone_number is None {
            1nat
        } else {
            0nat
        }),
        _ => if missing_field(command) is Some {
            1
        } else {
            0
        },
    }
}

/// A value that is absent takes the answer; one that is there stays.
pub open spec fn filled(held: Option<Seq<char>>, value: Seq<char>) -> Option<Seq<char>> {
    match held {
        Some(held) => Some(held),
        None => Some(value),
    }
}

/// The command after an answer for a field: the field takes the answer if
/// the command has such a field and lacks its value; else nothing changes.
pub open spec fn supplied(command: CommandsView, field: Field, value: Seq<char>) -> CommandsView {
    match (command, field) {
        (CommandsView::NewClient { name, email, phone_number }, Field::Name) => CommandsView::NewClient {
            name: filled(name, value),
            email,
            phone_number,
        },
        (CommandsView::NewClient { name, email, phone_number }, Field::Email) => CommandsView::NewClient {
            name,
            email: filled(email, value),
            phone_number,
        },
        (
            CommandsView::NewClient { name, email, phone_number },
            Field::PhoneNumber,
        ) => CommandsView::NewClient { name, email, phone_number: filled(phone_number, value) },
        (CommandsView::NewInvoice { client_name }, Field::ClientName) => CommandsView::NewInvoice {
            client_name: filled(client_name, value),
        },
        (CommandsView::DeleteClient { client_name }, Field::ClientName) => CommandsView::DeleteClient {
            client_name: filled(client_name, value),
        },
        (CommandsView::DeleteInvoice { invoice_id }, Field::InvoiceId) => CommandsView::DeleteInvoice {
            invoice_id: filled(invoice_id, value),
        },
        (CommandsView::Generate { invoice_id }, Field::InvoiceId) => CommandsView::Generate {
            invoice_id: filled(invoice_id, value),
        },
        _ => command,
    }
}

/// Asking comes to an end: a command lacks no value exactly when none is
/// missing, and an answer for the missing field leaves one value fewer to ask
/// for.
pub proof fn lemma_answer_fills(command: CommandsView, value: Seq<char>)
    ensures
        missing_count(command) == 0 <==> missing_field(command) is None,
        missing_field(command) matches Some(field) ==> missing_count(
            supplied(command, field, value),
        ) == missing_count(command) - 1,
{
}

/// The first value that the command still lacks.
pub fn missing(command: &Commands) -> (field: Option<Field>)
    ensures
        field == missing_field(command@),
{
    match command {
        Commands::NewClient { name, email, phone_number } => {
            if name.is_none() {
                Some(Field::Name)
            } else if email.is_none() {
                Some(Field::Email)
            } else if phone_number.is_none() {
                Some(Field::PhoneNumber)
            } else {
                None
            }
        },
        Commands::NewInvoice { client_name } => if client_name.is_none() {
            Some(Field::ClientName)
        } else {
            None
        },
        Commands::ListClients => None,
        Commands::ListInvoices { client_name } => None,
        Commands::DeleteClient { client_name } => if client_name.is_none() {
            Some(Field::ClientName)
        } else {
            None
        },
        Commands::DeleteInvoice { invoice_id } => if invoice_id.is_none() {
            Some(Field::InvoiceId)
        } else {
            None
        },
        Commands::Generate { invoice_id } => if invoice_id.is_none() {
            Some(Field::InvoiceId)
        } else {
            None
        },
    }
}

fn fill(held: Option<String>, value: String) -> (now: Option<String>)
    ensures
        text_view(now) == filled(text_view(held), value@),
{
    match held {
        Some(held) => Some(held),
        None => Some(value),
    }
}

/// Takes the operator's answer for a field into the command.
pub fn supply(command: Commands, field: Field, value: String) -> (answered: Commands)
    ensures
        answered@ == supplied(command@, field, value@),
{
    match command {
        Commands::NewClient { name, email, phone_number } => match field {
            Field::Name => Commands::NewClient { name: fill(name, value), email, phone_number },
            Field::Email => Commands::NewClient { name, email: fill(email, value), phone_number },
            Field::PhoneNumber => Commands::NewClient {
                name,
                email,
                phone_number: fill(phone_number, value),
            },
            _ => Commands::NewClient { name, email, phone_number },
        },
        Commands::NewInvoice { client_name } => match field {
            Field::ClientName => Commands::NewInvoice { client_name: fill(client_name, value) },
            _ => Commands::NewInvoice { client_name },
        },
        Commands::ListClients => Commands::ListClients,
        Commands::ListInvoices { client_name } => Commands::ListInvoices { client_name },
        Commands::DeleteClient { client_name } => match field {
            Field::ClientName => Commands::DeleteClient { client_name: fill(client_name, value) },
            _ => Commands::DeleteClient { client_name },
        },
        Commands::DeleteInvoice { invoice_id } => match field {
            Field::InvoiceId => Commands::DeleteInvoice { invoice_id: fill(invoice_id, value) },
            _ => Commands::DeleteInvoice { invoice_id },
        },
        Commands::Generate { invoice_id } => match field {
            Field::InvoiceId => Commands::Generate { invoice_id: fill(invoice_id, value) },
            _ => Commands::Generate { invoice_id },
        },
    }
}

/// Accepts an answer to a question that needs one: an empty answer is
/// refused, and the question is to be asked again.
pub fn required(answer: String) -> (accepted: Result<String, LedgerError>)
    ensures
        answer@.len() == 0 ==> accepted == Err::<String, LedgerError>(LedgerError::Validation),
        answer@.len() > 0 ==> accepted == Ok::<String, LedgerError>(answer),
{
    if answer.as_str().is_empty() {
        Err(LedgerError::Validation)
    } else {
        Ok(answer)
    }
}

/// A command that lacks nothing: the operation to run on the repository, with
/// its arguments.
#[derive(Debug, Clone, PartialEq, Eq)]
pub enum Intent {
    NewClient { name: String, email: String, phone_number: String },
    NewInvoice { client_name: String },
    ListClients,
    ListInvoices { client_name: Option<String> },
    DeleteClient { client_name: String },
    DeleteInvoice { invoice_id: String },
    Generate { invoice_id: String },
}

/// The view of an intent: its fields as mathematical values.
pub enum IntentView {
    NewClient { name: Seq<char>, email: Seq<char>, phone_number: Seq<char> },
    NewInvoice { client_name: Seq<char> },
    ListClients,
    ListInvoices { client_name: Option<Seq<char>> },
    DeleteClient { client_name: Seq<char> },
    DeleteInvoice { invoice_id: Seq<char> },
    Generate { invoice_id: Seq<char> },
}

impl View for Intent {
    type V = IntentView;

    open spec fn view(&self) -> IntentView {
        match *self {
            Intent::NewClient { name, email, phone_number } => IntentView::NewClient {
                name: name@,
                email: email@,
                phone_number: phone_number@,
            },
            Intent::NewInvoice { client_name } => IntentView::NewInvoice { client_name: client_name@ },
            Intent::ListClients => IntentView::ListClients,
            Intent::ListInvoices { client_name } => IntentView::ListInvoices {
                client_name: text_view(client_name),
            },
            Intent::DeleteClient { client_name } => IntentView::DeleteClient {
                client_name: client_name@,
            },
            Intent::DeleteInvoice { invoice_id } => IntentView::DeleteInvoice { invoice_id: invoice_id@ },
            Intent::Generate { invoice_id } => IntentView::Generate { invoice_id: invoice_id@ },
        }
    }
}

/// The operation that a command asks for and the arguments it is run with,
/// or `None` where the command lacks a value that the operation needs.
pub open spec fn intent_of(command: CommandsView) -> Option<IntentView> {
    match command {
        CommandsView::NewClient {
            name: Some(name),
            email: Some(email),
            phone_number: Some(phone_number),
        } => Some(IntentView::NewClient { name, email, phone_number }),
        CommandsView::NewInvoice { client_name: Some(client_name) } => Some(
            IntentView::NewInvoice { client_name },
        ),
        CommandsView::ListClients => Some(IntentView::ListClients),
        CommandsView::ListInvoices { client_name } => Some(IntentView::ListInvoices { client_name }),
        CommandsView::DeleteClient { client_name: Some(client_name) } => Some(
            IntentView::DeleteClient { client_name },
        ),
        CommandsView::DeleteInvoice { invoice_id: Some(invoice_id) } => Some(
            IntentView::DeleteInvoice { invoice_id },
        ),
        CommandsView::Generate { invoice_id: Some(invoice_id) } => Some(
            IntentView::Generate { invoice_id },
        ),
        _ => None,
    }
}

/// A command has an intent exactly where it lacks no value.
pub proof fn lemma_intent_of_complete(command: CommandsView)
    ensures
        intent_of(command) is Some <==> missing_field(command) is None,
{
}

/// Settles what a command is to run: the operation with its arguments, and
/// `Validation` where the command still lacks a value.
pub fn intent(command: Commands) -> (settled: Result<Intent, LedgerError>)
    ensures
        match intent_of(command@) {
            Some(expected) => settled is Ok && settled->Ok_0@ == expected,
            None => settled == Err::<Intent, LedgerError>(LedgerError::Validation),
        },
{
    match command {
        Commands::NewClient {
            name: Some(name),
            email: Some(email),
            phone_number: Some(phone_number),
        } => Ok(Intent::NewClient { name, email, phone_number }),
        Commands::NewInvoice { client_name: Some(client_name) } => Ok(
            Intent::NewInvoice { client_name },
        ),
        Commands::ListClients => Ok(Intent::ListClients),
        Commands::ListInvoices { client_name } => Ok(Intent::ListInvoices { client_name }),
        Commands::DeleteClient { client_name: Some(client_name) } => Ok(
            Intent::DeleteClient { client_name },
        ),
        Commands::DeleteInvoice { invoice_id: Some(invoice_id) } => Ok(
            Intent::DeleteInvoice { invoice_id },
        ),
        Commands::Generate { invoice_id: Some(invoice_id) } => Ok(Intent::Generate { invoice_id }),
        _ => Err(LedgerError::Validation),
    }
}

/// The outcome is of the kind that the intent asks for.
pub open spec fn fulfils(intent: IntentView, outcome: Outcome) -> bool {
    match intent {
        IntentView::NewClient { .. } => outcome is ClientCreated,
        IntentView::NewInvoice { .. } => outcome is InvoiceCreated,
        IntentView::ListClients => outcome is Clients,
        IntentView::ListInvoices { .. } => outcome matches Outcome::Invoices(invoices)
            && forall|k: int, l: int|
            0 <= k < l < invoices@.len() ==> (#[trigger] invoices@[k]).id
                < (#[trigger] invoices@[l]).id,
        IntentView::DeleteClient { .. } => outcome is ClientDeleted,
        IntentView::DeleteInvoice { .. } => outcome is InvoiceDeleted,
        IntentView::Generate { .. } => outcome is Invoice,
    }
}

/// The error is one that the intent can end in: only the creation of a client
/// can meet a conflict; only the creation of an invoice and the lookup of one
/// can find that what they refer to does not exist.
pub open spec fn may_end_in(intent: IntentView, error: LedgerError) -> bool {
    match intent {
        IntentView::NewClient { .. } => error is Conflict || error is Storage,
        IntentView::NewInvoice { .. } => error is NotFound || error is Storage,
        IntentView::Generate { .. } => error is NotFound || error is Storage,
        _ => error is Storage,
    }
}

/// Runs an intent against the store: each intent is one operation of the
/// repository, run with the arguments that the intent carries. A new invoice
/// is dated today.
pub fn perform(connection: &rusqlite::Connection, intent: &Intent) -> (outcome: Result<
    Outcome,
    LedgerError,
>)
    ensures
        outcome matches Ok(shown) ==> fulfils(intent@, shown),
        outcome matches Err(error) ==> may_end_in(intent@, error),
{
    match intent {
        Intent::NewClient { name, email, phone_number } => {
            new_client(connection, name.as_str(), email.as_str(), phone_number.as_str())?;
            Ok(Outcome::ClientCreated)
        },
        Intent::NewInvoice { client_name } => {
            let date_string = match format_date(today(), DATE_FORMAT) {
                Some(date_string) => date_string,
                None => {
                    return Err(LedgerError::Storage("the clock gives no date".to_owned()));
                },
            };
            let id = new_invoice(connection, client_name.as_str(), date_string.as_str())?;
            Ok(Outcome::InvoiceCreated(id))
        },
        Intent::ListClients => {
            let clients = get_clients(connection)?;
            Ok(Outcome::Clients(clients))
        },
        Intent::ListInvoices { client_name } => {
            let invoices = match client_name {
                Some(client_name) => get_invoices(connection, Some(client_name.as_str()))?,
                None => get_invoices(connection, None)?,
            };
            Ok(Outcome::Invoices(invoices))
        },
        Intent::DeleteClient { client_name } => {
            delete_client(connection, client_name.as_str())?;
            Ok(Outcome::ClientDeleted)
        },
        Intent::DeleteInvoice { invoice_id } => {
            delete_invoice(connection, invoice_id.as_str())?;
            Ok(Outcome::InvoiceDeleted)
        },
        Intent::Generate { invoice_id } => {
            let invoice = get_invoice(connection, invoice_id.as_str())?;
            Ok(Outcome::Invoice(invoice))
        },
    }
}

/// The outcome is of the kind that the command asks for.
pub open spec fn answers(command: CommandsView, outcome: Outcome) -> bool {
    match intent_of(command) {
        Some(intent) => fulfils(intent, outcome),
        None => false,
    }
}

/// The error is one that the command can end in: a command that lacks a value
/// is refused as invalid and nothing else is; a complete command ends in what
/// its intent can end in.
pub open spec fn may_fail_with(command: CommandsView, error: LedgerError) -> bool {
    match intent_of(command) {
        Some(intent) => may_end_in(intent, error),
        None => error is Validation,
    }
}

/// Runs a command against the store: settles its intent and performs it. A
/// command that still lacks a value is refused with `Validation` before the
/// store is touched.
pub fn execute_command(connection: &rusqlite::Connection, command: Commands) -> (outcome: Result<
    Outcome,
    LedgerError,
>)
    ensures
        missing_field(command@) is Some ==> outcome == Err::<Outcome, LedgerError>(
            LedgerError::Validation,
        ),
        outcome matches Ok(shown) ==> answers(command@, shown),
        outcome matches Err(error) ==> may_fail_with(command@, error),
{
    proof {
        lemma_intent_of_complete(command@);
    }
    let settled = intent(command)?;
    perform(connection, &settled)
}

} // verus!

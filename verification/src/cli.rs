//! Commands, and the resolution of free words into a command.

use vstd::prelude::*;
use crate::error::LedgerError;
use crate::text::{lowercase, to_lowercase};

verus! {

/// What the operator asks for. A parameter that was not given is `None`; it
/// is asked for before the command runs.
#[derive(Debug, Clone, PartialEq, Eq)]
pub enum Commands {
    /// Create a new client.
    NewClient { name: Option<String>, email: Option<String>, phone_number: Option<String> },
    /// Create a new invoice for a client.
    NewInvoice { client_name: Option<String> },
    /// List all clients.
    ListClients,
    /// List all invoices, or those of one client.
    ListInvoices { client_name: Option<String> },
    /// Delete a client.
    DeleteClient { client_name: Option<String> },
    /// Delete an invoice and its items.
    DeleteInvoice { invoice_id: Option<String> },
    /// Render an invoice.
    Generate { invoice_id: Option<String> },
}

/// The view of a command: its fields as mathematical values.
pub enum CommandsView {
    NewClient {
        name: Option<Seq<char>>,
        email: Option<Seq<char>>,
        phone_number: Option<Seq<char>>,
    },
    NewInvoice { client_name: Option<Seq<char>> },
    ListClients,
    ListInvoices { client_name: Option<Seq<char>> },
    DeleteClient { client_name: Option<Seq<char>> },
    DeleteInvoice { invoice_id: Option<Seq<char>> },
    Generate { invoice_id: Option<Seq<char>> },
}

/// The characters of a text that may be absent.
pub open spec fn text_view(text: Option<String>) -> Option<Seq<char>> {
    match text {
        Some(text) => Some(text@),
        None => None,
    }
}

impl View for Commands {
    type V = CommandsView;

    open spec fn view(&self) -> CommandsView {
        match *self {
            Commands::NewClient { name, email, phone_number } => CommandsView::NewClient {
                name: text_view(name),
                email: text_view(email),
                phone_number: text_view(phone_number),
            },
            Commands::NewInvoice { client_name } => CommandsView::NewInvoice {
                client_name: text_view(client_name),
            },
            Commands::ListClients => CommandsView::ListClients,
            Commands::ListInvoices { client_name } => CommandsView::ListInvoices {
                client_name: text_view(client_name),
            },
            Commands::DeleteClient { client_name } => CommandsView::DeleteClient {
                client_name: text_view(client_name),
            },
            Commands::DeleteInvoice { invoice_id } => CommandsView::DeleteInvoice {
                invoice_id: text_view(invoice_id),
            },
            Commands::Generate { invoice_id } => CommandsView::Generate {
                invoice_id: text_view(invoice_id),
            },
        }
    }
}

/// The free words of a command line, used when no structured command is given.
#[derive(Debug, Clone, PartialEq, Eq)]
pub struct RawCommandInput {
    pub words: Vec<String>,
}

/// A command line: a structured command, or free words to resolve.
#[derive(Debug, Clone, PartialEq, Eq)]
pub struct Cli {
    pub command: Option<Commands>,
    pub raw_command: RawCommandInput,
}

/// The seven things a command can ask for.
#[derive(Debug, Clone, Copy, PartialEq, Eq, Structural)]
pub enum Action {
    NewClient,
    NewInvoice,
    ListClients,
    ListInvoices,
    DeleteClient,
    DeleteInvoice,
    Generate,
}

/// The characters of a word that may be absent.
pub open spec fn word_view(word: Option<&str>) -> Option<Seq<char>> {
    match word {
        Some(word) => Some(word@),
        None => None,
    }
}

/// The action that the leading words select. `first` and `second` are the
/// first two words in lower case, `second` being `None` where there is only
/// one word. The pairs are tried before the single word `generate`; what
/// follows the words that select the action has no say in the choice.
pub open spec fn action_of(first: Seq<char>, second: Option<Seq<char>>) -> Option<Action> {
    if first == "new"@ && second == Some("client"@) {
        Some(Action::NewClient)
    } else if first == "new"@ && second == Some("invoice"@) {
        Some(Action::NewInvoice)
    } else if first == "list"@ && second == Some("clients"@) {
        Some(Action::ListClients)
    } else if first == "list"@ && second == Some("invoices"@) {
        Some(Action::ListInvoices)
    } else if first == "delete"@ && second == Some("client"@) {
        Some(Action::DeleteClient)
    } else if first == "delete"@ && second == Some("invoice"@) {
        Some(Action::DeleteInvoice)
    } else if first == "generate"@ {
        Some(Action::Generate)
    } else {
        None
    }
}

/// Selects the action from the leading words, given in lower case.
pub fn select_action(first: &str, second: Option<&str>) -> (action: Option<Action>)
    ensures
        action == action_of(first@, word_view(second)),
{
    let pair = match second {
        Some(second) => {
            if first.eq("new") && second.eq("client") {
                Some(Action::NewClient)
            } else if first.eq("new") && second.eq("invoice") {
                Some(Action::NewInvoice)
            } else if first.eq("list") && second.eq("clients") {
                Some(Action::ListClients)
            } else if first.eq("list") && second.eq("invoices") {
                Some(Action::ListInvoices)
            } else if first.eq("delete") && second.eq("client") {
                Some(Action::DeleteClient)
            } else if first.eq("delete") && second.eq("invoice") {
                Some(Action::DeleteInvoice)
            } else {
                None
            }
        },
        None => None,
    };
    match pair {
        Some(action) => Some(action),
        None => if first.eq("generate") {
            Some(Action::Generate)
        } else {
            None
        },
    }
}

/// How many words an action takes up before its parameter.
pub open spec fn prefix_len(action: Action) -> int {
    match action {
        Action::Generate => 1,
        _ => 2,
    }
}

/// The command for an action and the one parameter that free words can give
/// it. A new client takes no parameter from free words, nor does the list of
/// clients.
pub open spec fn command_of(action: Action, parameter: Option<Seq<char>>) -> CommandsView {
    match action {
        Action::NewClient => CommandsView::NewClient { name: None, email: None, phone_number: None },
        Action::NewInvoice => CommandsView::NewInvoice { client_name: parameter },
        Action::ListClients => CommandsView::ListClients,
        Action::ListInvoices => CommandsView::ListInvoices { client_name: parameter },
        Action::DeleteClient => CommandsView::DeleteClient { client_name: parameter },
        Action::DeleteInvoice => CommandsView::DeleteInvoice { invoice_id: parameter },
        Action::Generate => CommandsView::Generate { invoice_id: parameter },
    }
}

/// The word at a position, if there is one.
pub open spec fn word_at(words: Seq<Seq<char>>, at: int) -> Option<Seq<char>> {
    if 0 <= at < words.len() {
        Some(words[at])
    } else {
        None
    }
}

/// The command that free words resolve to, if any. The first one or two
/// words, in lower case, select the action; the word that follows them is the
/// action's parameter, as it was typed; further words are ignored.
pub open spec fn resolve(words: Seq<Seq<char>>) -> Option<CommandsView> {
    if words.len() == 0 {
        None
    } else {
        let second = match word_at(words, 1) {
            Some(word) => Some(lowercase(word)),
            None => None,
        };
        match action_of(lowercase(words[0]), second) {
            Some(action) => Some(command_of(action, word_at(words, prefix_len(action)))),
            None => None,
        }
    }
}

/// The characters of each of the words.
pub open spec fn word_views(words: Seq<String>) -> Seq<Seq<char>> {
    words.map_values(|word: String| word@)
}

/// The view of a command that may be absent.
pub open spec fn command_view(command: Option<Commands>) -> Option<CommandsView> {
    match command {
        Some(command) => Some(command@),
        None => None,
    }
}

/// Builds the command for an action and its parameter.
pub fn command_for(action: Action, parameter: Option<String>) -> (command: Commands)
    ensures
        command@ == command_of(action, text_view(parameter)),
{
    match action {
        Action::NewClient => Commands::NewClient { name: None, email: None, phone_number: None },
        Action::NewInvoice => Commands::NewInvoice { client_name: parameter },
        Action::ListClients => Commands::ListClients,
        Action::ListInvoices => Commands::ListInvoices { client_name: parameter },
        Action::DeleteClient => Commands::DeleteClient { client_name: parameter },
        Action::DeleteInvoice => Commands::DeleteInvoice { invoice_id: parameter },
        Action::Generate => Commands::Generate { invoice_id: parameter },
    }
}

/// Resolves free words into a command. `None` means that the words match no
/// rule of the grammar; the empty sequence matches none.
pub fn map_command_words(words: &[String]) -> (command: Option<Commands>)
    ensures
        command_view(command) == resolve(word_views(words@)),
        words@.len() == 0 ==> command is None,
{
    if words.len() == 0 {
        return None;
    }
    let first = to_lowercase(words[0].as_str());
    let action = if words.len() >= 2 {
        let second = to_lowercase(words[1].as_str());
        select_action(first.as_str(), Some(second.as_str()))
    } else {
        select_action(first.as_str(), None)
    };
    match action {
        Some(Action::Generate) => {
            let parameter = if words.len() > 1 {
                Some(words[1].clone())
            } else {
                None
            };
            Some(command_for(Action::Generate, parameter))
        },
        Some(action) => {
            let parameter = if words.len() > 2 {
                Some(words[2].clone())
            } else {
                None
            };
            Some(command_for(action, parameter))
        },
        None => None,
    }
}

/// Determines the command of a command line: the structured command where
/// one is given, and else the command that the free words resolve to. Free
/// words that resolve to nothing are an unknown command.
pub fn determine_command(cli: Cli) -> (command: Result<Commands, LedgerError>)
    ensures
        match cli.command {
            Some(given) => command == Ok::<Commands, LedgerError>(given),
            None => match resolve(word_views(cli.raw_command.words@)) {
                Some(resolved) => command is Ok && command->Ok_0@ == resolved,
                None => command == Err::<Commands, LedgerError>(LedgerError::UnknownCommand),
            },
        },
{
    let Cli { command, raw_command } = cli;
    match command {
        Some(given) => Ok(given),
        None => match map_command_words(raw_command.words.as_slice()) {
            Some(resolved) => Ok(resolved),
            None => Err(LedgerError::UnknownCommand),
        },
    }
}

} // verus!

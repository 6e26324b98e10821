//! The failures that the ledger reports.

use vstd::prelude::*;

verus! {

/// Why an operation of the ledger did not succeed.
#[derive(Debug, Clone, PartialEq, Eq)]
pub enum LedgerError {
    /// Free-form input matched no rule of the command grammar.
    UnknownCommand,
    /// A client or an invoice that has to exist does not.
    NotFound,
    /// A client of that name is already on record.
    Conflict,
    /// A value that is required was left empty.
    Validation,
    /// The store failed; the text is the engine's own account of it.
    Storage(String),
}

impl LedgerError {
    /// What to tell the operator about the failure.
    pub open spec fn message_of(self) -> Seq<char> {
        match self {
            LedgerError::UnknownCommand => "unknown command"@,
            LedgerError::NotFound => "no such client or invoice"@,
            LedgerError::Conflict => "a client of that name is already on record"@,
            LedgerError::Validation => "a required value is missing"@,
            LedgerError::Storage(account) => account@,
        }
    }

    /// Writes what to tell the operator about the failure.
    pub fn message(&self) -> (text: String)
        ensures
            text@ == self.message_of(),
    {
        match self {
            LedgerError::UnknownCommand => "unknown command".to_owned(),
            LedgerError::NotFound => "no such client or invoice".to_owned(),
            LedgerError::Conflict => "a client of that name is already on record".to_owned(),
            LedgerError::Validation => "a required value is missing".to_owned(),
            LedgerError::Storage(account) => account.clone(),
        }
    }
}

} // verus!

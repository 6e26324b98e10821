use clinv::error::LedgerError;

#[test]
fn each_failure_has_its_message() {
    assert_eq!(LedgerError::UnknownCommand.message(), "unknown command");
    assert_eq!(LedgerError::NotFound.message(), "no such client or invoice");
    assert_eq!(LedgerError::Conflict.message(), "a client of that name is already on record");
    assert_eq!(LedgerError::Validation.message(), "a required value is missing");
    assert_eq!(LedgerError::Storage("disk I/O error".to_string()).message(), "disk I/O error");
    assert_eq!(LedgerError::Storage(String::new()).message(), "");
}

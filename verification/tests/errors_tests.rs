use std::borrow::Cow;
use std::fmt;

use tews_circuit::errors::TewsError;

#[derive(Debug)]
struct FakeDbError {
    code: Option<&'static str>,
    message: &'static str,
}

impl fmt::Display for FakeDbError {
    fn fmt(&self, f: &mut fmt::Formatter<'_>) -> fmt::Result {
        f.write_str(self.message)
    }
}

impl std::error::Error for FakeDbError {}

impl sqlx::error::DatabaseError for FakeDbError {
    fn message(&self) -> &str {
        self.message
    }

    fn code(&self) -> Option<Cow<'_, str>> {
        self.code.map(Cow::Borrowed)
    }

    fn as_error(&self) -> &(dyn std::error::Error + Send + Sync + 'static) {
        self
    }

    fn as_error_mut(&mut self) -> &mut (dyn std::error::Error + Send + Sync + 'static) {
        self
    }

    fn into_error(self: Box<Self>) -> Box<dyn std::error::Error + Send + Sync + 'static> {
        self
    }
}

fn db_error(code: Option<&'static str>, message: &'static str) -> sqlx::Error {
    sqlx::Error::Database(Box::new(FakeDbError { code, message }))
}

#[test]
fn from_failure_classifies_codes() {
    assert!(matches!(
        TewsError::from_failure("787".to_string(), "FOREIGN KEY constraint failed".to_string()),
        TewsError::ForeignKeyConstraintNotMet
    ));
    assert!(matches!(
        TewsError::from_failure("5".to_string(), "database is locked".to_string()),
        TewsError::Locked
    ));
    match TewsError::from_failure("19".to_string(), "UNIQUE failed".to_string()) {
        TewsError::Unknown(text) => {
            assert_eq!(text, "UNKNOWN ERROR: Error code: '19'\nMessage: UNIQUE failed")
        }
        _ => panic!("expected an unknown error"),
    }
}

#[test]
fn kind_reads_database_errors() {
    assert!(matches!(
        TewsError::kind(db_error(Some("787"), "FOREIGN KEY constraint failed")),
        Some(TewsError::ForeignKeyConstraintNotMet)
    ));
    assert!(matches!(TewsError::kind(db_error(Some("5"), "locked")), Some(TewsError::Locked)));
    match TewsError::kind(db_error(Some("1"), "syntax error")) {
        Some(TewsError::Unknown(text)) => {
            assert_eq!(text, "UNKNOWN ERROR: Error code: '1'\nMessage: syntax error")
        }
        _ => panic!("expected an unknown error"),
    }
    assert!(TewsError::kind(db_error(None, "no code")).is_none());
}

#[test]
fn kind_of_other_errors_keeps_their_text() {
    for error in [
        sqlx::Error::RowNotFound,
        sqlx::Error::Protocol("bad date".to_string()),
        sqlx::Error::PoolClosed,
    ] {
        let expected = error.to_string();
        match TewsError::kind(error) {
            Some(TewsError::Other(text)) => assert_eq!(text, expected),
            _ => panic!("expected another failure"),
        }
    }
}

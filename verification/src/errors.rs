use vstd::prelude::*;
use vstd::string::*;

verus! {

#[verifier::external_type_specification]
#[verifier::external_body]
pub struct ExSqlxError(sqlx::Error);

/// How a failed database statement is handled.
pub enum TewsError {
    /// Signifies that no error has occurred.
    NoError,
    /// The database reported a failure that has no dedicated handling; the
    /// text names its code and message.
    Unknown(String),
    /// A foreign key constraint was not met (database code `787`).
    ForeignKeyConstraintNotMet,
    /// The database is tied up in some other operation (database code `5`).
    Locked,
    /// The failure did not come from the database itself (a lost connection,
    /// an I/O failure, a missing row and the like); the text describes it.
    Other(String),
}

/// Text of an unknown database failure with code `code` and message `message`.
pub open spec fn unknown_failure_text(code: Seq<char>, message: Seq<char>) -> Seq<char> {
    "UNKNOWN ERROR: Error code: '"@ + code + "'\nMessage: "@ + message
}

/// Whether `e` is the classification of a failure that the database reported
/// with code `code` and message `message`.
pub open spec fn classifies(code: Seq<char>, message: Seq<char>, e: TewsError) -> bool {
    if code == "787"@ {
        e is ForeignKeyConstraintNotMet
    } else if code == "5"@ {
        e is Locked
    } else {
        e matches TewsError::Unknown(text) && text@ == unknown_failure_text(code, message)
    }
}

/// What `sqlx::Error::as_database_error`, `DatabaseError::code` and
/// `DatabaseError::message` give for `error`: `None` where the error is not a
/// failure reported by the database, else the code (where the database gave
/// one) and the message.
pub uninterp spec fn sqlx_database_failure(error: sqlx::Error) -> Option<(Option<Seq<char>>, Seq<char>)>;

/// The code and message of a reported failure, as characters.
pub open spec fn reported_view(r: Option<(Option<String>, String)>) -> Option<(Option<Seq<char>>, Seq<char>)> {
    match r {
        Option::None => Option::None,
        Option::Some((code, message)) => Option::Some(
            (
                match code {
                    Option::Some(c) => Option::Some(c@),
                    Option::None => Option::None,
                },
                message@,
            ),
        ),
    }
}

/// Reads the failure that the database itself reported, through
/// `sqlx::Error::as_database_error`, `DatabaseError::code` and
/// `DatabaseError::message`: the outer `None` where the error is not a
/// `sqlx::Error::Database`, else the code (where the database gave one) and the
/// message. Claims only that the result is the one named by
/// `sqlx_database_failure`, a function of the error alone.
#[verifier::external_body]
fn database_failure(error: &sqlx::Error) -> (r: Option<(Option<String>, String)>)
    ensures
        reported_view(r) == sqlx_database_failure(*error),
{
    match error.as_database_error() {
        Some(e) => Some((e.code().map(|c| c.into_owned()), e.message().to_string())),
        None => None,
    }
}

/// The `Display` text of `error`, through `ToString::to_string` on
/// `sqlx::Error`. Nothing is stated of the text: for an I/O failure it holds
/// the operating system's description of the failure, and boxed errors print
/// what their own implementations print, so it is not a function of the error
/// value alone.
#[verifier::external_body]
fn error_text(error: &sqlx::Error) -> (r: String) {
    error.to_string()
}

/// Only the code `787` means a missing foreign key and only the code `5` a
/// locked database; every other code is an unknown failure whose text is
/// `UNKNOWN ERROR: Error code: '<code>'` and `Message: <message>` on two lines.
pub proof fn lemma_classification_by_code(code: Seq<char>, message: Seq<char>, e: TewsError)
    requires
        classifies(code, message, e),
    ensures
        (e is ForeignKeyConstraintNotMet) <==> code == "787"@,
        (e is Locked) <==> code == "5"@,
        code != "787"@ && code != "5"@ ==> (e matches TewsError::Unknown(text) && text@
            == "UNKNOWN ERROR: Error code: '"@ + code + "'\nMessage: "@ + message),
        !(e is NoError) && !(e is Other),
{
    reveal_strlit("787");
    reveal_strlit("5");
    assert("787"@.len() != "5"@.len());
}

impl TewsError {
    /// Classifies a failure that the database reported with code `code` and
    /// message `message`.
    pub fn from_failure(code: String, message: String) -> (e: TewsError)
        ensures
            classifies(code@, message@, e),
    {
        if code == String::from_str("787") {
            TewsError::ForeignKeyConstraintNotMet
        } else if code == String::from_str("5") {
            TewsError::Locked
        } else {
            let mut text = String::from_str("UNKNOWN ERROR: Error code: '");
            text.append(code.as_str());
            text.append("'\nMessage: ");
            text.append(message.as_str());
            TewsError::Unknown(text)
        }
    }

    /// Classifies `error`: a failure that the database reported by its code
    /// and message, any other failure as `Other` with its display text (of
    /// which nothing is stated). `None` where
    /// the database reported a failure without a code, which has no
    /// classification.
    pub fn kind(error: sqlx::Error) -> (r: Option<TewsError>)
        ensures
            match sqlx_database_failure(error) {
                Option::None => r matches Some(TewsError::Other(_)),
                Option::Some((Option::None, _)) => r is None,
                Option::Some((Option::Some(code), message)) => r matches Some(e) && classifies(
                    code,
                    message,
                    e,
                ),
            },
    {
        match database_failure(&error) {
            None => Some(TewsError::Other(error_text(&error))),
            Some((Some(code), message)) => Some(TewsError::from_failure(code, message)),
            Some((None, _)) => None,
        }
    }
}

} // verus!

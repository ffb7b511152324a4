//! The failures that loading can end in.

use vstd::prelude::*;
use crate::text::starts_with;

verus! {

#[verifier::external_type_specification]
#[verifier::external_body]
pub struct ExSqlError(rusqlite::Error);

#[verifier::external_type_specification]
#[verifier::external_body]
pub struct ExCsvError(csv::Error);

#[verifier::external_type_specification]
#[verifier::external_body]
pub struct ExIoError(std::io::Error);

#[verifier::external_type_specification]
#[verifier::external_body]
pub struct ExParseIntError(std::num::ParseIntError);

/// Everything that can go wrong while loading.
#[derive(Debug)]
pub enum PackError {
    /// A file or directory could not be read.
    Io(std::io::Error),
    /// A file is not well-formed CSV.
    Csv(csv::Error),
    /// A table identifier is not a decimal number.
    ParseInt(std::num::ParseIntError),
    /// The input is not what the loader expects.
    BadInput(String),
    /// A row names a table for which no statement was prepared.
    CacheError(String),
    /// The store lacks a table that the loader reads.
    MissingTable(String),
    /// Any other failure of the store.
    Sql(rusqlite::Error),
    /// A pragma value that SQLite does not know.
    Pragma(String),
}

/// The text with which SQLite begins its complaint about an absent table.
pub open spec fn missing_table_prefix() -> Seq<char> {
    "no such table"@
}

/// Whether a failure message of the store reports an absent table.
pub open spec fn reports_missing_table(message: Seq<char>) -> bool {
    missing_table_prefix().is_prefix_of(message)
}

/// Whether `error` is a failure of the store: an absent table, told in the
/// store's own words, or anything else that the store reported.
pub open spec fn from_store(error: PackError) -> bool {
    match error {
        PackError::Sql(_) => true,
        PackError::MissingTable(text) => reports_missing_table(text@),
        _ => false,
    }
}

/// The message that SQLite attached to a failure, if `err` is such a
/// failure and carries one.
pub uninterp spec fn failure_text(err: rusqlite::Error) -> Option<Seq<char>>;

/// The error that a failure of the store is filed under: an absent table
/// is told apart by the message, which it keeps; anything else stays as it
/// came.
pub open spec fn filed_as(err: rusqlite::Error, e: PackError) -> bool {
    match failure_text(err) {
        Some(message) => if reports_missing_table(message) {
            e matches PackError::MissingTable(text) && text@ == message
        } else {
            e == PackError::Sql(err)
        },
        None => e == PackError::Sql(err),
    }
}

/// The message that SQLite attached to a failure, if `err` is such a
/// failure and carries one.
///
/// Trusted: matches `rusqlite::Error::SqliteFailure` and copies its message
/// out. The message depends on the error alone and is only given its name
/// here; nothing is claimed about which errors carry one.
#[verifier::external_body]
fn failure_message(err: &rusqlite::Error) -> (message: Option<String>)
    ensures
        match message {
            Some(text) => failure_text(*err) == Some(text@),
            None => failure_text(*err) is None,
        },
{
    match err {
        rusqlite::Error::SqliteFailure(_, Some(text)) => Some(text.clone()),
        _ => None,
    }
}

/// Files a store failure under the loader's own errors, given the message
/// that came with it.
pub fn classify(err: rusqlite::Error, message: Option<String>) -> (e: PackError)
    ensures
        match message {
            Some(text) => if reports_missing_table(text@) {
                e == PackError::MissingTable(text)
            } else {
                e == PackError::Sql(err)
            },
            None => e == PackError::Sql(err),
        },
{
    match message {
        Some(text) => {
            if starts_with(text.as_str(), "no such table") {
                PackError::MissingTable(text)
            } else {
                PackError::Sql(err)
            }
        },
        None => PackError::Sql(err),
    }
}

impl PackError {
    /// Turns a failure of the store into a loader error: an absent table
    /// becomes `MissingTable` with the store's message, anything else stays
    /// a store failure.
    pub fn from(err: rusqlite::Error) -> (e: PackError)
        ensures
            filed_as(err, e),
            from_store(e),
    {
        let message = failure_message(&err);
        classify(err, message)
    }

    /// A short description of the kind of failure.
    pub fn message(&self) -> (s: String)
        ensures
            s@ == match self {
                PackError::Io(_) => "file not found"@,
                PackError::Csv(_) => "csv issue"@,
                PackError::ParseInt(_) => "unexpected integer"@,
                PackError::BadInput(_) => "unexpected input"@,
                PackError::CacheError(_) => "cache error"@,
                PackError::MissingTable(_) => "missing table"@,
                PackError::Sql(_) => "sql issue"@,
                PackError::Pragma(_) => "unknown pragma value"@,
            },
    {
        match self {
            PackError::Io(_) => "file not found".to_owned(),
            PackError::Csv(_) => "csv issue".to_owned(),
            PackError::ParseInt(_) => "unexpected integer".to_owned(),
            PackError::BadInput(_) => "unexpected input".to_owned(),
            PackError::CacheError(_) => "cache error".to_owned(),
            PackError::MissingTable(_) => "missing table".to_owned(),
            PackError::Sql(_) => "sql issue".to_owned(),
            PackError::Pragma(_) => "unknown pragma value".to_owned(),
        }
    }
}

} // verus!

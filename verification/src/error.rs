//! What can go wrong while a session is created or fetched.

use vstd::prelude::*;

verus! {

/// What can go wrong while creating or retrieving a session.
#[derive(Debug, PartialEq, Eq)]
pub enum MigrateError {
    /// A storage or filesystem fault; the text is for the server's log only.
    ServerError(String),
    /// The conversion tool rejected the input; the text is its diagnostic output.
    MigrationError(String),
    /// No session is registered under the identifier.
    NotFound,
}

impl MigrateError {
    /// The text of the error, as a sequence of characters.
    pub open spec fn text(self) -> Seq<char> {
        match self {
            MigrateError::ServerError(detail) => "Server error: '"@ + detail@ + "'"@,
            MigrateError::MigrationError(log) => "Failed to migrate files: '"@ + log@ + "'"@,
            MigrateError::NotFound => "Session not found"@,
        }
    }

    /// Renders the error as text.
    pub fn message(&self) -> (text: String)
        ensures
            text@ == self.text(),
    {
        match self {
            MigrateError::ServerError(detail) => {
                let mut text = String::from_str("Server error: '");
                text.append(detail.as_str());
                text.append("'");
                text
            },
            MigrateError::MigrationError(log) => {
                let mut text = String::from_str("Failed to migrate files: '");
                text.append(log.as_str());
                text.append("'");
                text
            },
            MigrateError::NotFound => String::from_str("Session not found"),
        }
    }
}

} // verus!

//! What is sent back to a client, as plain values.

use vstd::prelude::*;
use crate::document::{document, generate_json, json_text};
use crate::error::MigrateError;
use crate::file::{File, IngestError};

verus! {

/// Status of a reply to an upload that was refused.
pub const STATUS_BAD_REQUEST: u16 = 400;

/// Status of a reply to a fetch of a session that does not exist.
pub const STATUS_NOT_FOUND: u16 = 404;

/// Status of a reply to an upload that the conversion tool rejected.
pub const STATUS_UNPROCESSABLE: u16 = 422;

/// Status of a reply that reports a fault of the server.
pub const STATUS_SERVER_ERROR: u16 = 500;

/// The path to which documents are uploaded when the result is wanted as a
/// document rather than as an archive.
pub const DOCUMENT_ROUTE: &'static str = "/json";

/// A reply to a client.
#[derive(Debug, PartialEq, Eq)]
pub enum Reply {
    /// Sends the client on to another location.
    SeeOther { location: String },
    /// A body of plain text under a status code.
    PlainText { status: u16, body: String },
    /// A status code and nothing else.
    Status { status: u16 },
    /// The report of a migration as a JSON document.
    Document { body: String },
    /// The converted files as one archive.
    Archive { body: String },
}

/// A reply with its texts as sequences of characters.
pub enum ReplyModel {
    SeeOther { location: Seq<char> },
    PlainText { status: u16, body: Seq<char> },
    Status { status: u16 },
    Document { body: Seq<char> },
    Archive { body: Seq<char> },
}

impl View for Reply {
    type V = ReplyModel;

    open spec fn view(&self) -> ReplyModel {
        match *self {
            Reply::SeeOther { location } => ReplyModel::SeeOther { location: location@ },
            Reply::PlainText { status, body } => ReplyModel::PlainText { status, body: body@ },
            Reply::Status { status } => ReplyModel::Status { status },
            Reply::Document { body } => ReplyModel::Document { body: body@ },
            Reply::Archive { body } => ReplyModel::Archive { body: body@ },
        }
    }
}

/// Where a session is fetched from: under the document route when the upload
/// came in there, at the top level otherwise.
pub open spec fn location_of(request_path: Seq<char>, identifier: Seq<char>) -> Seq<char> {
    if request_path == DOCUMENT_ROUTE@ {
        "/json/"@ + identifier
    } else {
        "/"@ + identifier
    }
}

/// The reply that tells a client of an error: a rejected conversion with the
/// tool's diagnostics as they are, a missing session with the reason, a fault
/// of the server with a bare status.
pub open spec fn error_reply(e: MigrateError) -> ReplyModel {
    match e {
        MigrateError::MigrationError(log) => ReplyModel::PlainText {
            status: STATUS_UNPROCESSABLE,
            body: log@,
        },
        MigrateError::ServerError(_) => ReplyModel::Status { status: STATUS_SERVER_ERROR },
        MigrateError::NotFound => ReplyModel::PlainText {
            status: STATUS_NOT_FOUND,
            body: e.text(),
        },
    }
}

/// The reply that tells a client why its upload was refused. A mix of kinds
/// is answered with the bare reason, anything else with the reason behind a
/// fixed opening.
pub open spec fn refusal_reply(e: IngestError) -> ReplyModel {
    ReplyModel::PlainText {
        status: STATUS_BAD_REQUEST,
        body: match e {
            IngestError::MixedFileTypes => e.text(),
            _ => "An error occured: "@ + e.text(),
        },
    }
}

/// The reply to an upload whose creation has ended.
pub open spec fn creation_outcome(
    request_path: Seq<char>,
    created: Result<String, MigrateError>,
) -> ReplyModel {
    match created {
        Ok(identifier) => ReplyModel::SeeOther {
            location: location_of(request_path, identifier@),
        },
        Err(e) => error_reply(e),
    }
}

/// The reply to a fetch of a session as a document.
pub open spec fn document_outcome(
    log: Seq<char>,
    artifacts: Result<Vec<File>, MigrateError>,
) -> ReplyModel {
    match artifacts {
        Ok(files) => ReplyModel::Document { body: json_text(document(log, files@)) },
        Err(e) => error_reply(e),
    }
}

/// The reply to a fetch of a session as an archive.
pub open spec fn archive_outcome(archive: Result<String, MigrateError>) -> ReplyModel {
    match archive {
        Ok(content) => ReplyModel::Archive { body: content@ },
        Err(e) => error_reply(e),
    }
}

/// Computes the location from which a new session is fetched.
pub fn retrieval_location(request_path: &str, identifier: &str) -> (location: String)
    ensures
        location@ == location_of(request_path@, identifier@),
{
    let mut location = if String::from_str(request_path) == String::from_str(DOCUMENT_ROUTE) {
        String::from_str("/json/")
    } else {
        String::from_str("/")
    };
    location.append(identifier);
    location
}

/// The reply to an upload, once its creation has ended: with a session, the
/// client is sent on to the place from which the session is fetched; without
/// one, the client is told of the error.
pub fn creation_reply(request_path: &str, created: Result<String, MigrateError>) -> (reply: Reply)
    ensures
        reply@ == creation_outcome(request_path@, created),
{
    match created {
        Ok(identifier) => Reply::SeeOther {
            location: retrieval_location(request_path, identifier.as_str()),
        },
        Err(e) => e.into_response(),
    }
}

/// The reply to a fetch of a session as a document, once the session's
/// converted files have been read: the report of the migration, or the
/// reply for the fault that kept the files from being read.
pub fn document_reply(log: &str, artifacts: Result<Vec<File>, MigrateError>) -> (reply: Reply)
    ensures
        reply@ == document_outcome(log@, artifacts),
{
    match artifacts {
        Ok(files) => Reply::Document { body: generate_json(log, &files) },
        Err(e) => e.into_response(),
    }
}

/// The reply to a fetch of a session as an archive, once the archive has been
/// packed and read: the archive, or the reply for the fault that kept it
/// from being made.
pub fn archive_reply(archive: Result<String, MigrateError>) -> (reply: Reply)
    ensures
        reply@ == archive_outcome(archive),
{
    match archive {
        Ok(content) => Reply::Archive { body: content },
        Err(e) => e.into_response(),
    }
}

impl MigrateError {
    /// The reply that reports the error to a client.
    ///
    /// A rejected conversion is answered with the tool's diagnostics as they
    /// are, a missing session with the reason. A fault of the server is
    /// answered with a bare status: its detail is for the server's log and
    /// never reaches the client.
    pub fn into_response(self) -> (reply: Reply)
        ensures
            reply@ == error_reply(self),
    {
        match self {
            MigrateError::MigrationError(log) => Reply::PlainText {
                status: STATUS_UNPROCESSABLE,
                body: log,
            },
            MigrateError::ServerError(_) => Reply::Status { status: STATUS_SERVER_ERROR },
            MigrateError::NotFound => Reply::PlainText {
                status: STATUS_NOT_FOUND,
                body: self.message(),
            },
        }
    }
}

impl IngestError {
    /// The reply that tells a client why its upload was refused.
    pub fn into_response(self) -> (reply: Reply)
        ensures
            reply@ == refusal_reply(self),
    {
        match self {
            IngestError::MixedFileTypes => Reply::PlainText {
                status: STATUS_BAD_REQUEST,
                body: self.message(),
            },
            _ => {
                let mut body = String::from_str("An error occured: ");
                body.append(self.message().as_str());
                Reply::PlainText { status: STATUS_BAD_REQUEST, body }
            },
        }
    }
}

} // verus!

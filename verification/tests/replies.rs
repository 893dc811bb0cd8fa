use wicked_migration::error::MigrateError;
use wicked_migration::file::IngestError;
use wicked_migration::file::{File, FileType};
use wicked_migration::reply::{
    archive_reply, creation_reply, document_reply, retrieval_location, Reply, DOCUMENT_ROUTE,
    STATUS_BAD_REQUEST, STATUS_NOT_FOUND, STATUS_SERVER_ERROR, STATUS_UNPROCESSABLE,
};

#[test]
fn status_codes() {
    assert_eq!(STATUS_BAD_REQUEST, 400);
    assert_eq!(STATUS_NOT_FOUND, 404);
    assert_eq!(STATUS_UNPROCESSABLE, 422);
    assert_eq!(STATUS_SERVER_ERROR, 500);
    assert_eq!(DOCUMENT_ROUTE, "/json");
}

#[test]
fn location_under_the_document_route() {
    assert_eq!(retrieval_location("/json", "1234"), "/json/1234");
}

#[test]
fn location_at_the_top_level() {
    assert_eq!(retrieval_location("/multipart", "1234"), "/1234");
    assert_eq!(retrieval_location("/", "1234"), "/1234");
    assert_eq!(retrieval_location("/json/", "1234"), "/1234");
    assert_eq!(retrieval_location("", ""), "/");
}

#[test]
fn upload_is_answered_with_a_redirect() {
    assert_eq!(
        creation_reply("/json", Ok("abc".to_string())),
        Reply::SeeOther { location: "/json/abc".to_string() }
    );
    assert_eq!(
        creation_reply("/", Ok("abc".to_string())),
        Reply::SeeOther { location: "/abc".to_string() }
    );
    assert_eq!(
        creation_reply("/multipart", Ok("abc".to_string())),
        Reply::SeeOther { location: "/abc".to_string() }
    );
}

#[test]
fn failed_upload_is_answered_with_its_error() {
    assert_eq!(
        creation_reply("/json", Err(MigrateError::MigrationError("bad".to_string()))),
        Reply::PlainText { status: 422, body: "bad".to_string() }
    );
    assert_eq!(
        creation_reply("/", Err(MigrateError::ServerError("no space left".to_string()))),
        Reply::Status { status: 500 }
    );
}

#[test]
fn fetched_document_is_the_report() {
    let files = vec![File {
        file_content: "<data/>".to_string(),
        file_name: "a-converted.xml".to_string(),
        file_type: FileType::Xml,
    }];
    assert_eq!(
        document_reply("ok", Ok(files)),
        Reply::Document {
            body: "{\"log\":\"ok\",\"files\":[{\"fileName\":\"a-converted.xml\",\"fileContent\":\"<data/>\"}]}"
                .to_string(),
        }
    );
}

#[test]
fn unreadable_session_is_answered_as_a_server_fault() {
    assert_eq!(
        document_reply("ok", Err(MigrateError::ServerError("/tmp/ws: gone".to_string()))),
        Reply::Status { status: 500 }
    );
    assert_eq!(
        archive_reply(Err(MigrateError::ServerError("tar: not found".to_string()))),
        Reply::Status { status: 500 }
    );
}

#[test]
fn fetched_archive_is_handed_on() {
    assert_eq!(
        archive_reply(Ok("archive bytes".to_string())),
        Reply::Archive { body: "archive bytes".to_string() }
    );
}

#[test]
fn rejected_conversion_is_answered_with_its_log() {
    let log = "wicked: cannot read config\n";
    assert_eq!(
        MigrateError::MigrationError(log.to_string()).into_response(),
        Reply::PlainText { status: 422, body: log.to_string() }
    );
}

#[test]
fn server_fault_is_answered_without_detail() {
    assert_eq!(
        MigrateError::ServerError("/var/lib/x: disk full".to_string()).into_response(),
        Reply::Status { status: 500 }
    );
}

#[test]
fn missing_session_is_answered_as_not_found() {
    assert_eq!(
        MigrateError::NotFound.into_response(),
        Reply::PlainText { status: 404, body: "Session not found".to_string() }
    );
}

#[test]
fn mixed_upload_is_answered_with_the_bare_reason() {
    assert_eq!(
        IngestError::MixedFileTypes.into_response(),
        Reply::PlainText {
            status: 400,
            body: "File types not uniform, please dont mix ifcfg and .xml files".to_string(),
        }
    );
}

#[test]
fn other_refusals_are_answered_with_a_prefixed_reason() {
    assert_eq!(
        IngestError::UnsupportedFileType("image/png".to_string()).into_response(),
        Reply::PlainText {
            status: 400,
            body: "An error occured: Unsupported file type: image/png".to_string(),
        }
    );
    assert_eq!(
        IngestError::MissingContentType.into_response(),
        Reply::PlainText {
            status: 400,
            body: "An error occured: Type missing in multipart/form data".to_string(),
        }
    );
    assert_eq!(
        IngestError::MissingFileName.into_response(),
        Reply::PlainText {
            status: 400,
            body: "An error occured: file name field missing in multipart/form data".to_string(),
        }
    );
    assert_eq!(
        IngestError::UnreadablePart("connection reset".to_string()).into_response(),
        Reply::PlainText {
            status: 400,
            body: "An error occured: connection reset".to_string(),
        }
    );
    assert_eq!(
        IngestError::UnsafeFileName("../../etc/passwd".to_string()).into_response(),
        Reply::PlainText {
            status: 400,
            body: "An error occured: Invalid file name: ../../etc/passwd".to_string(),
        }
    );
    assert_eq!(
        IngestError::EmptyBatch.into_response(),
        Reply::PlainText {
            status: 400,
            body: "An error occured: No file in multipart/form data".to_string(),
        }
    );
}

//! Files, their kinds, and how a converted file is read back.

use vstd::prelude::*;
use vstd::utf8::{decode_utf8, encode_utf8, valid_utf8};
use crate::error::MigrateError;
use crate::text::text_of_bytes;

verus! {

/// The two kinds of configuration file the conversion tool understands.
#[derive(Debug, Clone, Copy, PartialEq, Eq, Structural)]
pub enum FileType {
    /// A structured document.
    Xml,
    /// A flat key/value file.
    Ifcfg,
}

/// Why an upload was refused before any work was done on it.
#[derive(Debug, PartialEq, Eq)]
pub enum IngestError {
    /// The declared content type is none of the supported ones; holds the declared type.
    UnsupportedFileType(String),
    /// A part of the upload declares no content type.
    MissingContentType,
    /// A part of the upload carries no file name.
    MissingFileName,
    /// The upload holds files of both kinds.
    MixedFileTypes,
    /// The upload holds no file at all.
    EmptyBatch,
    /// A part of the upload could not be read; holds the reason.
    UnreadablePart(String),
    /// A part of the upload carries a name that is no plain file name; holds the name.
    UnsafeFileName(String),
}

/// One uploaded or converted file, held in memory.
#[derive(Debug, PartialEq, Eq)]
pub struct File {
    pub file_content: String,
    pub file_name: String,
    pub file_type: FileType,
}

/// The kind that a declared content type stands for, if it is supported.
pub open spec fn content_type_kind(content_type: Seq<char>) -> Option<FileType> {
    if content_type == "text/xml"@ || content_type == "application/xml"@ {
        Some(FileType::Xml)
    } else if content_type == "text/plain"@ || content_type == "application/octet-stream"@ {
        Some(FileType::Ifcfg)
    } else {
        None
    }
}

/// The kind of a converted file, judged by the extension of its name: `xml`
/// is a structured document; any other extension, and a name without
/// extension, is a key/value file.
pub open spec fn extension_kind(extension: Option<Seq<char>>) -> FileType {
    if extension == Some("xml"@) {
        FileType::Xml
    } else {
        FileType::Ifcfg
    }
}

/// What reading a converted file back gives: its name and the text that its
/// bytes encode, or nothing where the name or the bytes are no text.
pub open spec fn read_back(file_name: Option<Seq<char>>, data: Seq<u8>) -> Option<
    (Seq<char>, Seq<char>),
> {
    match file_name {
        Some(name) => if valid_utf8(data) {
            Some((name, decode_utf8(data)))
        } else {
            None
        },
        None => None,
    }
}

/// The view of an optional string slice.
pub open spec fn optional_text(text: Option<&str>) -> Option<Seq<char>> {
    match text {
        Some(t) => Some(t@),
        None => None,
    }
}

impl IngestError {
    /// The text of the error, as a sequence of characters.
    pub open spec fn text(self) -> Seq<char> {
        match self {
            IngestError::UnsupportedFileType(t) => "Unsupported file type: "@ + t@,
            IngestError::MissingContentType => "Type missing in multipart/form data"@,
            IngestError::MissingFileName => "file name field missing in multipart/form data"@,
            IngestError::MixedFileTypes =>
                "File types not uniform, please dont mix ifcfg and .xml files"@,
            IngestError::EmptyBatch => "No file in multipart/form data"@,
            IngestError::UnreadablePart(reason) => reason@,
            IngestError::UnsafeFileName(name) => "Invalid file name: "@ + name@,
        }
    }

    /// Renders the error as text.
    pub fn message(&self) -> (text: String)
        ensures
            text@ == self.text(),
    {
        match self {
            IngestError::UnsupportedFileType(t) => {
                let mut text = String::from_str("Unsupported file type: ");
                text.append(t.as_str());
                text
            },
            IngestError::MissingContentType => String::from_str(
                "Type missing in multipart/form data",
            ),
            IngestError::MissingFileName => String::from_str(
                "file name field missing in multipart/form data",
            ),
            IngestError::MixedFileTypes => String::from_str(
                "File types not uniform, please dont mix ifcfg and .xml files",
            ),
            IngestError::EmptyBatch => String::from_str("No file in multipart/form data"),
            IngestError::UnreadablePart(reason) => reason.clone(),
            IngestError::UnsafeFileName(name) => {
                let mut text = String::from_str("Invalid file name: ");
                text.append(name.as_str());
                text
            },
        }
    }
}

impl FileType {
    /// Reads a kind from a declared content type.
    ///
    /// `text/xml` and `application/xml` are structured documents, `text/plain`
    /// and `application/octet-stream` are key/value files; anything else is
    /// refused with the declared type in the error.
    pub fn from_str(file_type: &str) -> (result: Result<FileType, IngestError>)
        ensures
            match result {
                Ok(kind) => content_type_kind(file_type@) == Some(kind),
                Err(e) => {
                    &&& content_type_kind(file_type@) is None
                    &&& e matches IngestError::UnsupportedFileType(t)
                    &&& t@ == file_type@
                },
            },
    {
        let declared = String::from_str(file_type);
        if declared == String::from_str("text/xml") || declared == String::from_str(
            "application/xml",
        ) {
            Ok(FileType::Xml)
        } else if declared == String::from_str("text/plain") || declared == String::from_str(
            "application/octet-stream",
        ) {
            Ok(FileType::Ifcfg)
        } else {
            Err(IngestError::UnsupportedFileType(declared))
        }
    }

    /// The kind of an entry found in the directory of converted files, judged
    /// by the extension of its name. Every entry has a kind.
    pub fn of_artifact(extension: Option<&str>) -> (kind: FileType)
        ensures
            kind == extension_kind(optional_text(extension)),
    {
        match extension {
            Some(e) => {
                if String::from_str(e) == String::from_str("xml") {
                    FileType::Xml
                } else {
                    FileType::Ifcfg
                }
            },
            None => FileType::Ifcfg,
        }
    }
}

impl File {
    /// Makes a file of an entry found in the directory of converted files:
    /// its name, the extension of that name and the bytes it holds.
    ///
    /// Every entry whose name and bytes are text is read, whatever its name.
    /// An entry whose name is no text, or whose bytes are no UTF-8, is a fault
    /// of the server.
    pub fn from_artifact(
        file_name: Option<&str>,
        extension: Option<&str>,
        data: Vec<u8>,
    ) -> (result: Result<File, MigrateError>)
        ensures
            match read_back(optional_text(file_name), data@) {
                Some(pair) => {
                    &&& result matches Ok(file)
                    &&& file.file_name@ == pair.0
                    &&& file.file_content@ == pair.1
                    &&& file.file_type == extension_kind(optional_text(extension))
                },
                None => result matches Err(e) && e is ServerError,
            },
    {
        let name = match file_name {
            Some(name) => name,
            None => {
                return Err(
                    MigrateError::ServerError(String::from_str("File name is not valid UTF-8")),
                );
            },
        };
        match text_of_bytes(data) {
            Some(file_content) => {
                proof {
                    vstd::utf8::encode_utf8_decode_utf8(file_content@);
                }
                Ok(
                    File {
                        file_content,
                        file_name: String::from_str(name),
                        file_type: FileType::of_artifact(extension),
                    },
                )
            },
            None => Err(
                MigrateError::ServerError(String::from_str("File content is not valid UTF-8")),
            ),
        }
    }
}

/// A file that was written is read back as it was: the bytes of any content
/// are UTF-8, and reading them under any name gives that name and that content.
pub proof fn lemma_written_file_is_read_back(file_name: Seq<char>, file_content: Seq<char>)
    ensures
        read_back(Some(file_name), encode_utf8(file_content)) == Some((file_name, file_content)),
{
    vstd::utf8::encode_utf8_valid_utf8(file_content);
    vstd::utf8::encode_utf8_decode_utf8(file_content);
}

} // verus!

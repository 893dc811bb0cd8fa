//! Acceptance of uploads: what is read from one part of an upload, and which
//! lists of files make a batch that may be converted.

use vstd::prelude::*;
use vstd::utf8::{decode_utf8, valid_utf8};
use crate::command::{
    command_line, conversion_arguments, input_file_path, input_path, is_plain_name, plain_name,
    shell_words,
};
use crate::error::MigrateError;
use crate::file::{content_type_kind, File, FileType, IngestError};
use crate::text::{text_of_bytes, texts};

verus! {

/// The name under which a document that arrives as a bare request body is stored.
pub const DOCUMENT_FILE_NAME: &'static str = "wicked.xml";

/// All files of the list are of one kind.
pub open spec fn uniform(files: Seq<File>) -> bool {
    forall|i: int, j: int|
        0 <= i < files.len() && 0 <= j < files.len() ==> (#[trigger] files[i]).file_type == (
        #[trigger] files[j]).file_type
}

/// Every file of the list carries a plain file name.
pub open spec fn plain_names(files: Seq<File>) -> bool {
    forall|i: int| 0 <= i < files.len() ==> is_plain_name((#[trigger] files[i]).file_name@)
}

/// The file at `i` is the first of the list whose name is not plain.
pub open spec fn first_unsafe(files: Seq<File>, i: int) -> bool {
    &&& 0 <= i < files.len()
    &&& !is_plain_name(files[i].file_name@)
    &&& forall|k: int| 0 <= k < i ==> is_plain_name((#[trigger] files[k]).file_name@)
}

/// Reads kind and name of one part of an upload from what the part declares.
///
/// The content type is looked at first: a part without one is refused, then
/// a part whose type is not supported, then a part without a file name, and
/// last a part whose name is no plain file name, so that no file is ever
/// written outside its workspace.
pub fn field_header(content_type: Option<&str>, file_name: Option<&str>) -> (result: Result<
    (FileType, String),
    IngestError,
>)
    ensures
        match content_type {
            None => result matches Err(e) && e is MissingContentType,
            Some(declared) => match content_type_kind(declared@) {
                None => {
                    &&& result matches Err(e)
                    &&& e matches IngestError::UnsupportedFileType(t)
                    &&& t@ == declared@
                },
                Some(kind) => match file_name {
                    None => result matches Err(e) && e is MissingFileName,
                    Some(name) => if is_plain_name(name@) {
                        &&& result matches Ok(header)
                        &&& header.0 == kind
                        &&& header.1@ == name@
                    } else {
                        &&& result matches Err(e)
                        &&& e matches IngestError::UnsafeFileName(t)
                        &&& t@ == name@
                    },
                },
            },
        },
{
    let declared = match content_type {
        Some(declared) => declared,
        None => {
            return Err(IngestError::MissingContentType);
        },
    };
    let kind = match FileType::from_str(declared) {
        Ok(kind) => kind,
        Err(e) => {
            return Err(e);
        },
    };
    match file_name {
        Some(name) => if plain_name(name) {
            Ok((kind, String::from_str(name)))
        } else {
            Err(IngestError::UnsafeFileName(String::from_str(name)))
        },
        None => Err(IngestError::MissingFileName),
    }
}

/// Reads the bytes of one part of an upload as text. Bytes that are no UTF-8
/// make the part unreadable.
pub fn part_content(data: Vec<u8>) -> (result: Result<String, IngestError>)
    ensures
        match result {
            Ok(text) => valid_utf8(data@) && text@ == decode_utf8(data@),
            Err(e) => {
                &&& !valid_utf8(data@)
                &&& e matches IngestError::UnreadablePart(reason)
                &&& reason@ == "Invalid UTF-8 sequence"@
            },
        },
{
    match text_of_bytes(data) {
        Some(text) => {
            proof {
                vstd::utf8::encode_utf8_decode_utf8(text@);
            }
            Ok(text)
        },
        None => Err(IngestError::UnreadablePart(String::from_str("Invalid UTF-8 sequence"))),
    }
}

/// A list of uploaded files that may be converted together: it is not empty,
/// all its files are of one kind, and each carries a plain file name.
///
/// A workspace is allocated for a batch only, so a list that is refused here
/// never reaches the filesystem.
#[derive(Debug, PartialEq, Eq)]
pub struct Batch {
    files: Vec<File>,
    kind: FileType,
}

impl View for Batch {
    type V = Seq<File>;

    closed spec fn view(&self) -> Seq<File> {
        self.files@
    }
}

impl Batch {
    #[verifier::type_invariant]
    spec fn well_formed(&self) -> bool {
        &&& self.files@.len() > 0
        &&& forall|i: int|
            0 <= i < self.files@.len() ==> (#[trigger] self.files@[i]).file_type == self.kind
        &&& plain_names(self.files@)
    }

    /// Accepts a list of files as a batch. An empty list is refused, then a
    /// list that holds files of both kinds, then a list with a file whose
    /// name is no plain file name; the error names the first such file.
    pub fn new(files: Vec<File>) -> (result: Result<Batch, IngestError>)
        ensures
            match result {
                Ok(batch) => {
                    &&& files@.len() > 0
                    &&& uniform(files@)
                    &&& plain_names(files@)
                    &&& batch@ == files@
                },
                Err(e) => if files@.len() == 0 {
                    e is EmptyBatch
                } else if !uniform(files@) {
                    e is MixedFileTypes
                } else {
                    &&& e matches IngestError::UnsafeFileName(name)
                    &&& exists|i: int| first_unsafe(files@, i) && name@ == files@[i].file_name@
                },
            },
    {
        if files.len() == 0 {
            return Err(IngestError::EmptyBatch);
        }
        let kind = files[0].file_type;
        let mut i: usize = 1;
        while i < files.len()
            invariant
                1 <= i <= files@.len(),
                kind == files@[0].file_type,
                forall|k: int| 0 <= k < i ==> (#[trigger] files@[k]).file_type == kind,
            decreases files@.len() - i,
        {
            if files[i].file_type != kind {
                return Err(IngestError::MixedFileTypes);
            }
            i += 1;
        }
        assert(uniform(files@));
        let mut j: usize = 0;
        while j < files.len()
            invariant
                j <= files@.len(),
                files@.len() > 0,
                uniform(files@),
                kind == files@[0].file_type,
                forall|k: int| 0 <= k < j ==> is_plain_name((#[trigger] files@[k]).file_name@),
            decreases files@.len() - j,
        {
            if !plain_name(files[j].file_name.as_str()) {
                assert(first_unsafe(files@, j as int));
                return Err(IngestError::UnsafeFileName(files[j].file_name.clone()));
            }
            j += 1;
        }
        Ok(Batch { files, kind })
    }

    /// The batch for a document that arrived as a bare request body: one
    /// structured document under the name [`DOCUMENT_FILE_NAME`].
    pub fn single_document(content: String) -> (batch: Batch)
        ensures
            batch@.len() == 1,
            batch@[0].file_name@ == DOCUMENT_FILE_NAME@,
            batch@[0].file_content@ == content@,
            batch@[0].file_type == FileType::Xml,
    {
        proof {
            reveal_strlit("wicked.xml");
            reveal_strlit(".");
            reveal_strlit("..");
            assert(DOCUMENT_FILE_NAME@.len() == 10);
            assert(is_plain_name(DOCUMENT_FILE_NAME@));
        }
        let mut files: Vec<File> = Vec::new();
        files.push(
            File {
                file_content: content,
                file_name: String::from_str(DOCUMENT_FILE_NAME),
                file_type: FileType::Xml,
            },
        );
        Batch { files, kind: FileType::Xml }
    }

    /// The files of the batch, in the order in which they were uploaded.
    pub fn files(&self) -> (files: &Vec<File>)
        ensures
            files@ == self@,
            files@.len() > 0,
            uniform(files@),
            plain_names(files@),
    {
        proof {
            use_type_invariant(self);
        }
        &self.files
    }

    /// The paths under which the files of the batch are written into
    /// `workspace`, in the order of the files. Every name is a plain file
    /// name, so every path lies directly inside the workspace.
    pub fn input_paths(&self, workspace: &str) -> (paths: Vec<String>)
        ensures
            paths@.len() == self@.len(),
            forall|i: int|
                0 <= i < self@.len() ==> {
                    &&& is_plain_name(self@[i].file_name@)
                    &&& (#[trigger] paths@[i])@ == input_path(workspace@, self@[i].file_name@)
                },
    {
        proof {
            use_type_invariant(self);
        }
        let mut paths: Vec<String> = Vec::new();
        let mut i: usize = 0;
        while i < self.files.len()
            invariant
                i <= self.files@.len(),
                paths@.len() == i,
                plain_names(self.files@),
                forall|k: int|
                    0 <= k < i ==> (#[trigger] paths@[k])@ == input_path(
                        workspace@,
                        self.files@[k].file_name@,
                    ),
            decreases self.files@.len() - i,
        {
            match input_file_path(workspace, self.files[i].file_name.as_str()) {
                Some(path) => {
                    paths.push(path);
                },
                None => {
                    assert(is_plain_name(self.files@[i as int].file_name@));
                    assert(false);
                },
            }
            i += 1;
        }
        paths
    }

    /// The arguments with which the conversion tool is started on the batch
    /// once its files lie in `workspace`; see [`conversion_arguments`]. A
    /// workspace whose path makes a command line that cannot be cut into
    /// words is a fault of the server.
    pub fn conversion_arguments(&self, workspace: &str) -> (arguments: Result<
        Vec<String>,
        MigrateError,
    >)
        ensures
            self@.len() > 0,
            match arguments {
                Ok(list) => shell_words(command_line(self@[0].file_type, workspace@)) == Some(
                    texts(list@),
                ),
                Err(e) => shell_words(command_line(self@[0].file_type, workspace@)) is None
                    && e is ServerError,
            },
    {
        proof {
            use_type_invariant(self);
        }
        match conversion_arguments(self.kind, workspace) {
            Some(list) => Ok(list),
            None => Err(
                MigrateError::ServerError(
                    String::from_str("The path of the workspace cannot be put on a command line"),
                ),
            ),
        }
    }

    /// The kind that all files of the batch share.
    pub fn kind(&self) -> (kind: FileType)
        ensures
            self@.len() > 0,
            forall|i: int| 0 <= i < self@.len() ==> (#[trigger] self@[i]).file_type == kind,
    {
        proof {
            use_type_invariant(self);
        }
        self.kind
    }
}

} // verus!

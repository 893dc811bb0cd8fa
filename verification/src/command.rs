//! Where a session's files live and how the outside programs are invoked.
//!
//! Nothing here touches the filesystem or starts a process: the functions
//! compute the paths and argument lists that the caller then uses.

use vstd::prelude::*;
use crate::error::MigrateError;
use crate::file::FileType;
use crate::text::texts;

verus! {

/// The container image that holds the conversion tool.
pub const REGISTRY_URL: &'static str =
    "registry.opensuse.org/home/jcronenberg/migrate-wicked/containers/opensuse/migrate-wicked-git:latest";

/// The program that runs the conversion tool's container.
pub const CONVERSION_PROGRAM: &'static str = "podman";

/// The program that packs a converted directory into one archive.
pub const ARCHIVE_PROGRAM: &'static str = "tar";

/// How the name of a temporary archive begins.
pub const ARCHIVE_PREFIX: &'static str = "nm-migrated.";

/// How the name of a temporary archive ends.
pub const ARCHIVE_SUFFIX: &'static str = ".tar";

/// The words that `shlex::split` makes of a command line, or `None` where it
/// refuses the line.
pub uninterp spec fn shell_words(line: Seq<char>) -> Option<Seq<Seq<char>>>;

/// `shlex::split` cuts a command line into words by the quoting rules of a
/// POSIX shell. It refuses a line that ends inside a quotation or right after
/// a backslash. The result depends on the line alone.
pub assume_specification[ shlex::split ](in_str: &str) -> (words: Option<Vec<String>>)
    ensures
        match words {
            Some(list) => shell_words(in_str@) == Some(texts(list@)),
            None => shell_words(in_str@) is None,
        },
;

/// A plain file name names a file directly inside a directory: it is not
/// empty, it is neither `.` nor `..`, and it holds no `/`.
pub open spec fn is_plain_name(name: Seq<char>) -> bool {
    &&& name.len() > 0
    &&& name != "."@
    &&& name != ".."@
    &&& forall|i: int| 0 <= i < name.len() ==> name[i] != '/'
}

/// The path of an uploaded file inside its workspace.
pub open spec fn input_path(workspace: Seq<char>, file_name: Seq<char>) -> Seq<char> {
    workspace + "/"@ + file_name
}

/// The directory in which the conversion tool leaves its results.
pub open spec fn archive_path(workspace: Seq<char>) -> Seq<char> {
    workspace + "/NM-migrated"@
}

/// The directory that holds the converted connection files.
pub open spec fn artifact_path(workspace: Seq<char>) -> Seq<char> {
    workspace + "/NM-migrated/system-connections"@
}

/// The command line, before it is cut into words, that converts the files
/// of one kind in a workspace.
pub open spec fn command_line(kind: FileType, workspace: Seq<char>) -> Seq<char> {
    match kind {
        FileType::Ifcfg => "run -e \"MIGRATE_WICKED_CONTINUE_MIGRATION=true\" --rm -v "@
            + workspace + ":/etc/sysconfig/network:z "@ + REGISTRY_URL@,
        FileType::Xml => "run --rm -v "@ + workspace + ":/migration-tmpdir:z "@ + REGISTRY_URL@
            + " bash -c\n            \"migrate-wicked migrate -c /migration-tmpdir/ && mkdir /migration-tmpdir/NM-migrated && cp -r /etc/NetworkManager/system-connections /migration-tmpdir/NM-migrated\""@,
    }
}

/// Tells whether a name is a plain file name.
pub fn plain_name(name: &str) -> (plain: bool)
    ensures
        plain == is_plain_name(name@),
{
    let length = name.unicode_len();
    if length == 0 {
        return false;
    }
    let owned = String::from_str(name);
    if owned == String::from_str(".") || owned == String::from_str("..") {
        return false;
    }
    let mut i: usize = 0;
    while i < length
        invariant
            i <= length,
            length == name@.len(),
            forall|k: int| 0 <= k < i ==> name@[k] != '/',
        decreases length - i,
    {
        if name.get_char(i) == '/' {
            return false;
        }
        i += 1;
    }
    true
}

/// Computes the path under which an uploaded file is written. Only a plain
/// name has a path, so that every path lies directly inside the workspace.
pub fn input_file_path(workspace: &str, file_name: &str) -> (path: Option<String>)
    ensures
        match path {
            Some(p) => is_plain_name(file_name@) && p@ == input_path(workspace@, file_name@),
            None => !is_plain_name(file_name@),
        },
{
    if !plain_name(file_name) {
        return None;
    }
    let mut path = String::from_str(workspace);
    path.append("/");
    path.append(file_name);
    Some(path)
}

/// Computes the directory that is packed when a session is fetched as an archive.
pub fn archive_directory(workspace: &str) -> (path: String)
    ensures
        path@ == archive_path(workspace@),
{
    let mut path = String::from_str(workspace);
    path.append("/NM-migrated");
    path
}

/// Computes the directory whose files are reported when a session is fetched
/// as a document.
pub fn artifact_directory(workspace: &str) -> (path: String)
    ensures
        path@ == artifact_path(workspace@),
{
    let mut path = String::from_str(workspace);
    path.append("/NM-migrated/system-connections");
    path
}

/// Writes the command line that converts the files of `kind` in `workspace`.
pub fn conversion_command_line(kind: FileType, workspace: &str) -> (line: String)
    ensures
        line@ == command_line(kind, workspace@),
{
    match kind {
        FileType::Ifcfg => {
            let mut line = String::from_str(
                "run -e \"MIGRATE_WICKED_CONTINUE_MIGRATION=true\" --rm -v ",
            );
            line.append(workspace);
            line.append(":/etc/sysconfig/network:z ");
            line.append(REGISTRY_URL);
            line
        },
        FileType::Xml => {
            let mut line = String::from_str("run --rm -v ");
            line.append(workspace);
            line.append(":/migration-tmpdir:z ");
            line.append(REGISTRY_URL);
            line.append(
                " bash -c\n            \"migrate-wicked migrate -c /migration-tmpdir/ && mkdir /migration-tmpdir/NM-migrated && cp -r /etc/NetworkManager/system-connections /migration-tmpdir/NM-migrated\"",
            );
            line
        },
    }
}

/// The arguments that [`CONVERSION_PROGRAM`] is started with: the command line
/// for `kind` and `workspace`, cut into words. `None` where the workspace path
/// makes the line one that cannot be cut, such as a path with an unclosed quote.
pub fn conversion_arguments(kind: FileType, workspace: &str) -> (arguments: Option<Vec<String>>)
    ensures
        match arguments {
            Some(list) => shell_words(command_line(kind, workspace@)) == Some(texts(list@)),
            None => shell_words(command_line(kind, workspace@)) is None,
        },
{
    let line = conversion_command_line(kind, workspace);
    shlex::split(line.as_str())
}

/// The arguments that [`ARCHIVE_PROGRAM`] is started with to pack `directory`
/// into the file `output`.
pub fn archive_arguments(output: &str, directory: &str) -> (arguments: Vec<String>)
    ensures
        texts(arguments@) == seq!["cf"@, output@, "-C"@, directory@, "."@],
{
    let mut arguments: Vec<String> = Vec::new();
    arguments.push(String::from_str("cf"));
    arguments.push(String::from_str(output));
    arguments.push(String::from_str("-C"));
    arguments.push(String::from_str(directory));
    arguments.push(String::from_str("."));
    assert(texts(arguments@) =~= seq!["cf"@, output@, "-C"@, directory@, "."@]);
    arguments
}

/// Judges a run of the archive program by its exit status: a run that failed
/// is a fault of the server, with what the program printed as the detail.
pub fn archive_status(success: bool, diagnostics: String) -> (result: Result<(), MigrateError>)
    ensures
        match result {
            Ok(()) => success,
            Err(e) => !success && e == MigrateError::ServerError(diagnostics),
        },
{
    if success {
        Ok(())
    } else {
        Err(MigrateError::ServerError(diagnostics))
    }
}

} // verus!

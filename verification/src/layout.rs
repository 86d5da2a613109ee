//! Where the project keeps its files.
//!
//! Paths are joined as the platform joins them: what a joined path looks
//! like is left to `std::path`, and the functions here say which path is
//! joined with which name.

use crate::storage::Document;
use vstd::prelude::*;

verus! {

#[verifier::external_type_specification]
#[verifier::external_body]
pub struct ExPathBuf(std::path::PathBuf);

/// The path that names `part` inside `base`.
pub uninterp spec fn path_join(base: std::path::PathBuf, part: Seq<char>) -> std::path::PathBuf;

/// The path with its extension replaced by the given one.
pub uninterp spec fn path_with_extension(
    path: std::path::PathBuf,
    extension: Seq<char>,
) -> std::path::PathBuf;

/// `Path::join` with a string slice: the path that names `part` inside
/// `base`.
#[verifier::external_body]
fn join(base: &std::path::PathBuf, part: &str) -> (joined: std::path::PathBuf)
    ensures
        joined == path_join(*base, part@),
{
    base.join(part)
}

/// Whether a text holds no path separator of any platform.
pub open spec fn has_no_separator(text: Seq<char>) -> bool {
    forall|at: int| 0 <= at < text.len() ==> text[at] != '/' && text[at] != '\\'
}

/// `Path::with_extension` with a string slice: the path with its extension
/// replaced. The call is made only with an extension that holds no path
/// separator.
#[verifier::external_body]
fn with_extension(path: &std::path::PathBuf, extension: &str) -> (changed: std::path::PathBuf)
    requires
        has_no_separator(extension@),
    ensures
        changed == path_with_extension(*path, extension@),
{
    path.with_extension(extension)
}

/// The directory of the project, inside the home directory of the user.
pub const PROJECT_ROOT_DIR_NAME: &'static str = ".daily";

/// The directory of the documents, inside the directory of the project.
pub const PROJECT_DATA_DIR_NAME: &'static str = "data";

/// The directory of the event log, inside the directory of the project.
pub const PROJECT_LOGS_DIR_NAME: &'static str = "logs";

/// The directory of the backups, inside the directory of the project.
pub const PROJECT_BACKUP_DIR_NAME: &'static str = "backup";

/// The file of the application data, inside the directory of the documents.
pub const DATA_FILE_NAME: &'static str = "data.json";

/// The file of the configuration, inside the directory of the documents.
pub const CONFIG_FILE_NAME: &'static str = "config.json";

/// The file of the event log, inside its directory.
pub const LOG_FILE_NAME: &'static str = "events.jsonl";

/// The extension that the file of a document has while it is being written.
pub const TEMPORARY_EXTENSION: &'static str = "json.tmp";

/// The directories of the project.
pub struct ProjectDirectories {
    pub root: std::path::PathBuf,
    pub data: std::path::PathBuf,
    pub logs: std::path::PathBuf,
    pub backup: std::path::PathBuf,
}

/// The directory of the project for a home directory.
pub fn resolve_project_root_dir(home_dir: &std::path::PathBuf) -> (root: std::path::PathBuf)
    ensures
        root == path_join(*home_dir, PROJECT_ROOT_DIR_NAME@),
{
    join(home_dir, PROJECT_ROOT_DIR_NAME)
}

/// The directories of the project for a home directory: its root inside
/// the home directory, and the three others inside the root.
pub fn resolve_project_directories(home_dir: &std::path::PathBuf) -> (directories:
    ProjectDirectories)
    ensures
        directories.root == path_join(*home_dir, PROJECT_ROOT_DIR_NAME@),
        directories.data == path_join(directories.root, PROJECT_DATA_DIR_NAME@),
        directories.logs == path_join(directories.root, PROJECT_LOGS_DIR_NAME@),
        directories.backup == path_join(directories.root, PROJECT_BACKUP_DIR_NAME@),
{
    let root = resolve_project_root_dir(home_dir);
    ProjectDirectories {
        data: join(&root, PROJECT_DATA_DIR_NAME),
        logs: join(&root, PROJECT_LOGS_DIR_NAME),
        backup: join(&root, PROJECT_BACKUP_DIR_NAME),
        root,
    }
}

impl ProjectDirectories {
    /// The file that holds a document, inside the directory of the
    /// documents.
    pub fn document_file(&self, document: Document) -> (file: std::path::PathBuf)
        ensures
            file == path_join(
                self.data,
                match document {
                    Document::AppData => DATA_FILE_NAME@,
                    Document::AppConfig => CONFIG_FILE_NAME@,
                },
            ),
    {
        join(&self.data, document.file_name())
    }

    /// The file of the event log, inside its directory.
    pub fn log_file(&self) -> (file: std::path::PathBuf)
        ensures
            file == path_join(self.logs, LOG_FILE_NAME@),
    {
        join(&self.logs, LOG_FILE_NAME)
    }

    /// The directories in the order in which they are created: the root
    /// before what lies inside it.
    pub fn in_creation_order(&self) -> (order: Vec<&std::path::PathBuf>)
        ensures
            order@ == seq![&self.root, &self.data, &self.logs, &self.backup],
    {
        let mut order: Vec<&std::path::PathBuf> = Vec::new();
        order.push(&self.root);
        order.push(&self.data);
        order.push(&self.logs);
        order.push(&self.backup);
        assert(order@ =~= seq![&self.root, &self.data, &self.logs, &self.backup]);
        order
    }
}

/// The file that a document is written to before it takes the place of
/// `path`: the same path with the temporary extension.
pub fn temporary_file(path: &std::path::PathBuf) -> (file: std::path::PathBuf)
    ensures
        file == path_with_extension(*path, TEMPORARY_EXTENSION@),
{
    proof {
        reveal_strlit("json.tmp");
    }
    with_extension(path, TEMPORARY_EXTENSION)
}

} // verus!

//! The files a project needs, and the decisions taken while creating them:
//! an existing file is never overwritten, and each failure names its file.

use vstd::prelude::*;
use crate::language::Language;
use crate::template::{activation_stub, create_direnv, create_nix_shell, descriptor};

verus! {

/// A deferred file write.
#[derive(Debug)]
pub enum Operation {
    /// Create a new file with the given name and content.
    CreateFile(String, String),
}

/// Why a file could not be created.
#[derive(Debug)]
pub enum CreationError {
    /// Something already stands at the path; it was left untouched.
    AlreadyExists(String),
    /// Writing the file failed.
    WriteFailed(String),
}

/// The path of the file that `op` creates.
pub open spec fn target(op: Operation) -> Seq<char> {
    match op {
        Operation::CreateFile(p, _) => p@,
    }
}

/// The content of the file that `op` creates.
pub open spec fn payload(op: Operation) -> Seq<char> {
    match op {
        Operation::CreateFile(_, c) => c@,
    }
}

/// Whether `op` creates the file `path` with the content `content`.
pub open spec fn creates(op: Operation, path: Seq<char>, content: Seq<char>) -> bool {
    target(op) == path && payload(op) == content
}

/// Where the environment descriptor is written.
pub open spec fn descriptor_path() -> Seq<char> {
    "shell.nix"@
}

/// Where the activation stub is written.
pub open spec fn stub_path() -> Seq<char> {
    ".envrc"@
}

/// The text that reports an error to the user.
pub open spec fn error_message(e: CreationError) -> Seq<char> {
    match e {
        CreationError::AlreadyExists(p) => "File "@ + p@ + " already exists"@,
        CreationError::WriteFailed(p) => "Failed to create file "@ + p@,
    }
}

impl CreationError {
    /// The text that reports this error to the user.
    pub fn message(&self) -> (r: String)
        ensures
            r@ == error_message(*self),
    {
        match self {
            CreationError::AlreadyExists(p) => {
                let mut r = String::from_str("File ");
                r.append(p.as_str());
                r.append(" already exists");
                r
            },
            CreationError::WriteFailed(p) => {
                let mut r = String::from_str("Failed to create file ");
                r.append(p.as_str());
                r
            },
        }
    }
}

/// The two files of a new project for `language`, in the order in which they
/// are created: the environment descriptor, then the activation stub.
pub fn init_project(language: &Language) -> (r: Vec<Operation>)
    ensures
        r@.len() == 2,
        creates(r@[0], descriptor_path(), descriptor(*language)),
        creates(r@[1], stub_path(), activation_stub()),
{
    let shell = create_nix_shell(language);
    let direnv = create_direnv(language);
    vec![
        Operation::CreateFile(String::from_str("shell.nix"), shell),
        Operation::CreateFile(String::from_str(".envrc"), String::from_str(direnv)),
    ]
}

/// The first step of carrying out `operation`, once it is known whether its
/// path already exists: an existing path is refused, and otherwise the path
/// and the exact content to write come back.
pub fn handle_operation(operation: Operation, path_exists: bool) -> (r: Result<(String, String), CreationError>)
    ensures
        path_exists ==> (r matches Err(CreationError::AlreadyExists(p)) && p@ == target(operation)),
        !path_exists ==> (r matches Ok((p, c)) && creates(operation, p@, c@)),
{
    match operation {
        Operation::CreateFile(name, content) => {
            if path_exists {
                Err(CreationError::AlreadyExists(name))
            } else {
                Ok((name, content))
            }
        },
    }
}

/// The outcome of writing the file at `path`, from whether the write succeeded.
pub fn write_outcome(path: String, write_succeeded: bool) -> (r: Result<(), CreationError>)
    ensures
        write_succeeded ==> r is Ok,
        !write_succeeded ==> (r matches Err(CreationError::WriteFailed(p)) && p@ == path@),
{
    if write_succeeded {
        Ok(())
    } else {
        Err(CreationError::WriteFailed(path))
    }
}

} // verus!

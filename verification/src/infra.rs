//! The outside world a build talks to: running commands and touching the
//! file system, as traits the application implements, with their results
//! and errors.

use vstd::prelude::*;


verus! {

#[verifier::external_type_specification]
#[verifier::external_body]
pub struct ExIoError(std::io::Error);

/// The message of an I/O error, as its `Display` writes it.
///
/// Calls `<std::io::Error as ToString>::to_string`; the text depends on the
/// operating system, so nothing is claimed of it.
#[verifier::external_body]
pub(crate) fn io_error_text(error: &std::io::Error) -> String {
    error.to_string()
}

/// What a finished command reported.
#[derive(Debug, Clone)]
pub struct ProcessOutput {
    pub success: bool,
    pub stdout: String,
    pub stderr: String,
}

/// A command that could not be started.
#[derive(Debug)]
pub enum ProcessError {
    Spawn(std::io::Error),
}

/// The message of a command that could not be started, whose I/O error
/// reads `io_text`.
pub open spec fn spawn_failure_text(io_text: Seq<char>) -> Seq<char> {
    "Process spawn failed: "@ + io_text
}

/// The message of a command that could not be started: `Process spawn
/// failed: ` and the text of the I/O error.
pub fn spawn_failure_message(io_text: &str) -> (s: String)
    ensures
        s@ == spawn_failure_text(io_text@),
{
    let mut s = String::from_str("Process spawn failed: ");
    s.append(io_text);
    s
}

impl ProcessError {
    /// The error's message: [`spawn_failure_message`] of the I/O error's text.
    pub fn to_string(&self) -> (s: String)
        ensures
            exists|io_text: Seq<char>| s@ == spawn_failure_text(io_text),
    {
        match self {
            ProcessError::Spawn(e) => {
                let t = io_error_text(e);
                spawn_failure_message(t.as_str())
            },
        }
    }
}

/// Runs programs. The application implements it over the operating system.
pub trait ProcessExecutor: Send + Sync {
    /// Runs `program` with `args` and waits for it to finish.
    fn run(&self, program: &str, args: &[&str]) -> Result<ProcessOutput, ProcessError>;
}

/// A file system operation that failed.
#[derive(Debug)]
pub enum FileSystemError {
    Io(std::io::Error),
}

/// The message of a failed file operation whose I/O error reads `io_text`.
pub open spec fn filesystem_failure_text(io_text: Seq<char>) -> Seq<char> {
    "Filesystem error: "@ + io_text
}

/// The message of a failed file operation: `Filesystem error: ` and the text
/// of the I/O error.
pub fn filesystem_error_message(io_text: &str) -> (s: String)
    ensures
        s@ == filesystem_failure_text(io_text@),
{
    let mut s = String::from_str("Filesystem error: ");
    s.append(io_text);
    s
}

impl FileSystemError {
    /// The error's message: [`filesystem_error_message`] of the I/O error's
    /// text.
    pub fn to_string(&self) -> (s: String)
        ensures
            exists|io_text: Seq<char>| s@ == filesystem_failure_text(io_text),
    {
        match self {
            FileSystemError::Io(e) => {
                let t = io_error_text(e);
                filesystem_error_message(t.as_str())
            },
        }
    }
}

/// Reads and writes files. The application implements it over the
/// operating system; paths are given as text.
pub trait FileSystem: Send + Sync {
    fn path_exists(&self, path: &str) -> bool;

    fn remove_dir_all(&self, path: &str) -> Result<(), FileSystemError>;

    fn create_dir_all(&self, path: &str) -> Result<(), FileSystemError>;

    fn write_string(&self, path: &str, contents: &str) -> Result<(), FileSystemError>;
}

} // verus!

//! The closed set of failures that an operation can report.

use vstd::prelude::*;
use vstd::string::*;

verus! {

/// Which of the failure classes an error belongs to.
#[derive(Clone, Copy, Debug, PartialEq, Eq, Structural)]
pub enum ErrorKind {
    InvalidFilename,
    FileNotFound,
    IoError,
    PathTraversal,
    PermissionDenied,
}

/// A failure, with the text that explains it: the offending name, the missing
/// path, or the cause that the file system gave.
#[derive(Clone, Debug, PartialEq, Eq)]
pub enum BackupError {
    InvalidFilename(String),
    FileNotFound(String),
    IoError(String),
    PathTraversal(String),
    PermissionDenied(String),
}

impl View for BackupError {
    type V = (ErrorKind, Seq<char>);

    open spec fn view(&self) -> (ErrorKind, Seq<char>) {
        match *self {
            BackupError::InvalidFilename(s) => (ErrorKind::InvalidFilename, s@),
            BackupError::FileNotFound(s) => (ErrorKind::FileNotFound, s@),
            BackupError::IoError(s) => (ErrorKind::IoError, s@),
            BackupError::PathTraversal(s) => (ErrorKind::PathTraversal, s@),
            BackupError::PermissionDenied(s) => (ErrorKind::PermissionDenied, s@),
        }
    }
}

/// The error that a result carries, if it is one.
pub open spec fn failure<T>(result: Result<T, BackupError>) -> Option<(ErrorKind, Seq<char>)> {
    match result {
        Ok(_) => None,
        Err(e) => Some(e@),
    }
}

/// The words that introduce an error of each kind.
pub open spec fn kind_label(kind: ErrorKind) -> Seq<char> {
    match kind {
        ErrorKind::InvalidFilename => "Invalid filename: "@,
        ErrorKind::FileNotFound => "File not found: "@,
        ErrorKind::IoError => "IO Error: "@,
        ErrorKind::PathTraversal => "Path traversal attempt: "@,
        ErrorKind::PermissionDenied => "Permission denied: "@,
    }
}

/// What the operator reads for an error: the label of its kind, then its detail.
pub open spec fn error_text(error: (ErrorKind, Seq<char>)) -> Seq<char> {
    kind_label(error.0) + error.1
}

impl BackupError {
    pub fn kind(&self) -> (kind: ErrorKind)
        ensures
            kind == self@.0,
    {
        match self {
            BackupError::InvalidFilename(_) => ErrorKind::InvalidFilename,
            BackupError::FileNotFound(_) => ErrorKind::FileNotFound,
            BackupError::IoError(_) => ErrorKind::IoError,
            BackupError::PathTraversal(_) => ErrorKind::PathTraversal,
            BackupError::PermissionDenied(_) => ErrorKind::PermissionDenied,
        }
    }

    pub fn detail(&self) -> (detail: &str)
        ensures
            detail@ == self@.1,
    {
        match self {
            BackupError::InvalidFilename(s) => s.as_str(),
            BackupError::FileNotFound(s) => s.as_str(),
            BackupError::IoError(s) => s.as_str(),
            BackupError::PathTraversal(s) => s.as_str(),
            BackupError::PermissionDenied(s) => s.as_str(),
        }
    }

    /// The error as one line of text for the operator.
    pub fn message(&self) -> (text: String)
        ensures
            text@ == error_text(self@),
    {
        let label = match self {
            BackupError::InvalidFilename(_) => "Invalid filename: ",
            BackupError::FileNotFound(_) => "File not found: ",
            BackupError::IoError(_) => "IO Error: ",
            BackupError::PathTraversal(_) => "Path traversal attempt: ",
            BackupError::PermissionDenied(_) => "Permission denied: ",
        };
        String::from_str(label).concat(self.detail())
    }
}

} // verus!

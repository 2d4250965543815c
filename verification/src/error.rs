//! The errors that the library reports.

use vstd::prelude::*;

verus! {

/// What went wrong.
#[derive(Clone, Copy, Debug, PartialEq, Eq, Hash, Structural)]
pub enum ErrorKind {
    /// The package manager gave no plan.
    PlanAcquisition,
    /// The plan names a target kind or a compile mode that does not exist.
    PlanShape,
    /// A build script printed an instruction that cannot be read.
    ScriptOutputShape,
    /// A build script uses the `cargo::` syntax, and its package supports a
    /// toolchain that does not know it.
    Msrv,
    /// An invocation lacks a value that its role needs: `OUT_DIR`, or the
    /// `extra-filename` option.
    MissingEnv,
    /// The invocation writes no dep-info file.
    NoDepInfo,
    /// A path is not valid UTF-8.
    PathNonUtf8,
    /// The command line lacks the build directory.
    Usage,
    /// The executor of the build graph failed.
    ExecutorFailure,
}

/// An error with its kind and its message.
#[derive(Clone, Debug)]
pub struct Error {
    pub kind: ErrorKind,
    pub message: String,
}

/// An error as a mathematical value.
pub struct ErrorView {
    pub kind: ErrorKind,
    pub message: Seq<char>,
}

impl View for Error {
    type V = ErrorView;

    open spec fn view(&self) -> ErrorView {
        ErrorView { kind: self.kind, message: self.message@ }
    }
}

impl Error {
    /// An error of the given kind.
    pub fn new(kind: ErrorKind, message: String) -> (e: Error)
        ensures
            e@ == (ErrorView { kind, message: message@ }),
    {
        Error { kind, message }
    }

    /// The message, as shown to the user.
    pub fn to_string(&self) -> (s: String)
        ensures
            s@ == self@.message,
    {
        self.message.clone()
    }
}

} // verus!

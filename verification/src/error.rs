use vstd::prelude::*;

verus! {

/// The reason an invocation failed. Every failure of resolution, selection or
/// launch preparation carries exactly one of these kinds.
#[derive(Copy, Clone, Eq, PartialEq, Debug, Structural)]
pub enum ErrorKind {
    /// No ancestor of the working directory holds a manifest file.
    ProjectRootNotFound,
    /// The top-level manifest file could not be read.
    ManifestUnreadable,
    /// The top-level manifest file is not a well-formed document.
    ManifestParseError,
    /// No explicit target was requested and the candidate set does not have
    /// exactly one element.
    AmbiguousTarget,
    /// An explicitly requested target is not among the candidates.
    TargetNotFound,
    /// The firmware image is missing from the project root.
    FirmwareNotFound,
    /// The emulator executable is not on the search path.
    EmulatorNotFound,
    /// The compiled artifact of the selected binary is missing.
    ArtifactNotFound,
    /// Creating the staging directory or copying the artifact failed.
    StagingIOError,
    /// The emulator process could not be started.
    ChildProcessError,
}

/// The mathematical content of an [`Error`]: its kind and the characters of
/// its message.
pub struct ErrorView {
    pub kind: ErrorKind,
    pub msg: Seq<char>,
}

/// A terminal failure, carrying its kind and a human-readable message that
/// names the missing resource or the offending candidate set.
#[derive(Debug, Clone, Eq, PartialEq)]
pub struct Error {
    kind: ErrorKind,
    msg: String,
}

impl View for Error {
    type V = ErrorView;

    closed spec fn view(&self) -> ErrorView {
        ErrorView { kind: self.kind, msg: self.msg@ }
    }
}

impl Error {
    pub fn new(kind: ErrorKind, msg: String) -> (r: Error)
        ensures
            r@.kind == kind,
            r@.msg == msg@,
    {
        Error { kind, msg }
    }

    pub fn kind(&self) -> (r: ErrorKind)
        ensures
            r == self@.kind,
    {
        self.kind
    }

    /// The human-readable message of the error.
    pub fn message(&self) -> (r: &String)
        ensures
            r@ == self@.msg,
    {
        &self.msg
    }
}

} // verus!

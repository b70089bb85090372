//! The ways in which a run can fail.

use vstd::prelude::*;

verus! {

/// The stage of the run at which it failed.
#[derive(Clone, Copy, Debug, PartialEq, Eq, Structural)]
pub enum ErrorKind {
    /// The account to run as is unknown on this host.
    Lookup,
    /// The switch to the unprivileged identity was rejected.
    Privilege,
    /// The lock file could not be opened or locked.
    Lock,
    /// The enumeration of tracked files could not be started or did not
    /// exit with status zero.
    Subprocess,
    /// A path could not be resolved, the directory could not be entered or
    /// listed, or a deletion could not be started.
    Io,
}

/// Why a run was aborted.
#[derive(Clone, Debug, PartialEq, Eq)]
pub struct Failure {
    pub kind: ErrorKind,
    /// The error number of the operating system, or the exit status of the
    /// subprocess, where there is one.
    pub code: Option<i32>,
    /// What the failed operation reported: a message, or for a subprocess
    /// what it wrote to its standard error stream.
    pub detail: Vec<u8>,
}

/// The mathematical value of a [`Failure`].
pub struct FailureView {
    pub kind: ErrorKind,
    pub code: Option<i32>,
    pub detail: Seq<u8>,
}

impl View for Failure {
    type V = FailureView;

    open spec fn view(&self) -> FailureView {
        FailureView { kind: self.kind, code: self.code, detail: self.detail@ }
    }
}

} // verus!

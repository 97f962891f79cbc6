//! The failures of the library: a kind to decide by, and a detail to show.

use vstd::prelude::*;

verus! {

/// The kinds of failure that supervising the engine, running a child process
/// and coordinating a job can end in.
#[derive(Clone, Copy, Debug, PartialEq, Eq, Structural)]
pub enum ErrorKind {
    /// A child process could not be created.
    Spawn,
    /// A child process exited with a status other than success.
    ProcessExit,
    /// The user cancelled a child process.
    Cancelled,
    /// A bounded liveness wait ran out.
    Timeout,
    /// A call on the control interface could not be completed.
    Transport,
    /// The engine reported that a job failed.
    RemoteJob,
    /// Output of the engine or of a subprocess was not what was expected.
    Parse,
}

/// A failure: its kind, and the detail to show to a person.
#[derive(Debug, PartialEq, Eq)]
pub struct EngineError {
    pub kind: ErrorKind,
    pub detail: String,
}

/// Mathematical value of an `EngineError`.
pub ghost struct EngineErrorView {
    pub kind: ErrorKind,
    pub detail: Seq<char>,
}

impl View for EngineError {
    type V = EngineErrorView;

    open spec fn view(&self) -> EngineErrorView {
        EngineErrorView { kind: self.kind, detail: self.detail@ }
    }
}

impl DeepView for EngineError {
    type V = EngineErrorView;

    open spec fn deep_view(&self) -> EngineErrorView {
        self@
    }
}

/// The failure of kind `kind` whose detail is `detail`.
pub open spec fn failure(kind: ErrorKind, detail: Seq<char>) -> EngineErrorView {
    EngineErrorView { kind, detail }
}

impl EngineError {
    /// A failure of kind `kind` with the detail `detail`.
    pub fn new(kind: ErrorKind, detail: &str) -> (error: EngineError)
        ensures
            error@ == failure(kind, detail@),
    {
        EngineError { kind, detail: detail.to_owned() }
    }

    /// A failure of kind `kind` whose detail is `prefix` followed by `cause`.
    pub fn caused(kind: ErrorKind, prefix: &str, cause: &str) -> (error: EngineError)
        ensures
            error@ == failure(kind, prefix@ + cause@),
    {
        let mut detail = prefix.to_owned();
        detail.append(cause);
        EngineError { kind, detail }
    }

    /// The detail of the failure.
    pub fn message(&self) -> (text: String)
        ensures
            text@ == self@.detail,
    {
        self.detail.clone()
    }
}

} // verus!

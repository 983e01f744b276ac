//! The one error that a run of the pipeline reports.

use vstd::prelude::*;

verus! {

/// The step of a run at which it failed.
#[derive(Clone, Copy, Debug, PartialEq, Eq, Structural)]
pub enum ErrorKind {
    /// The engine could not be constructed.
    SessionInit,
    /// A module body is not valid script syntax.
    Compile,
    /// A module imports what the session does not resolve.
    Link,
    /// The script threw, or a promise it returned was rejected.
    ScriptRuntime,
    /// The result slot could not be read after the script had finished.
    GlobalRead,
    /// The text that the script handed back is not a configuration document.
    Decode,
    /// The input document has no interchange text.
    Encode,
}

/// Whose fault a failure is.
#[derive(Clone, Copy, Debug, PartialEq, Eq, Structural)]
pub enum Origin {
    /// The script is broken.
    Script,
    /// The engine or the pipeline itself broke.
    Infrastructure,
    /// The document going in or coming out has the wrong shape.
    Data,
}

/// The mathematical value of a [`ProcessError`].
pub struct ErrorView {
    pub kind: ErrorKind,
    pub diagnostic: Seq<char>,
}

/// A failed run: the step that failed and the diagnostic of whoever detected
/// the failure, unchanged.
#[derive(Debug)]
pub struct ProcessError {
    pub kind: ErrorKind,
    pub diagnostic: String,
}

impl View for ProcessError {
    type V = ErrorView;

    open spec fn view(&self) -> ErrorView {
        ErrorView { kind: self.kind, diagnostic: self.diagnostic@ }
    }
}

/// Whose fault a failure of the given kind is.
pub open spec fn origin_of(kind: ErrorKind) -> Origin {
    match kind {
        ErrorKind::Compile | ErrorKind::Link | ErrorKind::ScriptRuntime => Origin::Script,
        ErrorKind::SessionInit | ErrorKind::GlobalRead => Origin::Infrastructure,
        ErrorKind::Decode | ErrorKind::Encode => Origin::Data,
    }
}

/// The phrase that names a kind of failure in a message.
pub open spec fn description_of(kind: ErrorKind) -> Seq<char> {
    match kind {
        ErrorKind::SessionInit => "failed to create runtime"@,
        ErrorKind::Compile => "failed to define user script module"@,
        ErrorKind::Link => "failed to evaluate user script"@,
        ErrorKind::ScriptRuntime => "failed to wait for user script to finish"@,
        ErrorKind::GlobalRead => "failed to get final result"@,
        ErrorKind::Decode => "failed to deserialize final result"@,
        ErrorKind::Encode => "failed to serialize input"@,
    }
}

/// The message of an error: the phrase for its kind, a colon and a space, and
/// the diagnostic.
pub open spec fn message_of(error: ErrorView) -> Seq<char> {
    description_of(error.kind) + ": "@ + error.diagnostic
}

impl ErrorKind {
    /// Whose fault a failure of this kind is.
    pub fn origin(self) -> (origin: Origin)
        ensures
            origin == origin_of(self),
    {
        match self {
            ErrorKind::Compile | ErrorKind::Link | ErrorKind::ScriptRuntime => Origin::Script,
            ErrorKind::SessionInit | ErrorKind::GlobalRead => Origin::Infrastructure,
            ErrorKind::Decode | ErrorKind::Encode => Origin::Data,
        }
    }

    /// The phrase that names this kind of failure in a message.
    pub fn description(self) -> (phrase: &'static str)
        ensures
            phrase@ == description_of(self),
    {
        match self {
            ErrorKind::SessionInit => "failed to create runtime",
            ErrorKind::Compile => "failed to define user script module",
            ErrorKind::Link => "failed to evaluate user script",
            ErrorKind::ScriptRuntime => "failed to wait for user script to finish",
            ErrorKind::GlobalRead => "failed to get final result",
            ErrorKind::Decode => "failed to deserialize final result",
            ErrorKind::Encode => "failed to serialize input",
        }
    }
}

impl ProcessError {
    /// An error of the given kind that carries `diagnostic` unchanged.
    pub fn new(kind: ErrorKind, diagnostic: String) -> (error: ProcessError)
        ensures
            error@ == (ErrorView { kind, diagnostic: diagnostic@ }),
    {
        ProcessError { kind, diagnostic }
    }

    /// The message of this error; it ends with the diagnostic.
    pub fn message(&self) -> (text: String)
        ensures
            text@ == message_of(self@),
    {
        let mut text = String::from_str(self.kind.description());
        text.append(": ");
        text.append(self.diagnostic.as_str());
        text
    }
}

} // verus!

//! Errors of the supervisor, and failures of the pipes to a worker.

use vstd::prelude::*;

verus! {

/// Why a request to a worker did not succeed.
#[derive(Debug)]
pub enum WorkerError {
    Io(String),
    Protocol(String),
    Unavailable(String),
}

/// A [`WorkerError`] with its text as a sequence of characters.
pub enum ErrorModel {
    Io(Seq<char>),
    Protocol(Seq<char>),
    Unavailable(Seq<char>),
}

impl ErrorModel {
    /// The text of the error.
    pub open spec fn text(self) -> Seq<char> {
        match self {
            ErrorModel::Io(e) => e,
            ErrorModel::Protocol(e) => e,
            ErrorModel::Unavailable(e) => e,
        }
    }
}

impl View for WorkerError {
    type V = ErrorModel;

    open spec fn view(&self) -> ErrorModel {
        match self {
            WorkerError::Io(e) => ErrorModel::Io(e@),
            WorkerError::Protocol(e) => ErrorModel::Protocol(e@),
            WorkerError::Unavailable(e) => ErrorModel::Unavailable(e@),
        }
    }
}

impl WorkerError {
    /// The text of the error, without a word on its variant.
    pub fn message(&self) -> (r: String)
        ensures
            r@ == self@.text(),
    {
        match self {
            WorkerError::Io(e) => e.clone(),
            WorkerError::Protocol(e) => e.clone(),
            WorkerError::Unavailable(e) => e.clone(),
        }
    }
}

/// The kinds of pipe failure that the supervisor tells apart.
#[derive(Debug, Clone, Copy, PartialEq, Eq, Structural)]
pub enum IoKind {
    TimedOut,
    InvalidInput,
    InvalidData,
    UnexpectedEof,
    WriteZero,
    Interrupted,
    WouldBlock,
    Other,
}

/// A failure while waiting for, writing to or reading from a worker.
#[derive(Debug)]
pub struct IoFailure {
    pub kind: IoKind,
    pub message: String,
}

/// An [`IoFailure`] with its text as a sequence of characters.
pub struct IoFailureModel {
    pub kind: IoKind,
    pub message: Seq<char>,
}

impl View for IoFailure {
    type V = IoFailureModel;

    open spec fn view(&self) -> IoFailureModel {
        IoFailureModel { kind: self.kind, message: self.message@ }
    }
}

impl IoFailure {
    pub fn new(kind: IoKind, message: &str) -> (r: IoFailure)
        ensures
            r@ == (IoFailureModel { kind, message: message@ }),
    {
        IoFailure { kind, message: message.to_string() }
    }
}

#[verifier::external_type_specification]
#[verifier::external_body]
pub struct ExIoError(std::io::Error);

/// An I/O error as a [`WorkerError`]: the text is what the error displays.
pub fn io_err(e: std::io::Error) -> (r: WorkerError)
    ensures
        r matches WorkerError::Io(text) && vstd::string::to_string_from_display_ensures(&e, text),
{
    WorkerError::Io(e.to_string())
}

} // verus!

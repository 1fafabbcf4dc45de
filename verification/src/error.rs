//! The one error that every operation of the client reports.

use crate::codec::HexError;
use vstd::prelude::*;

verus! {

/// The four kinds of failure that a caller can tell apart.
#[derive(Debug, Clone, Copy, PartialEq, Eq, Structural)]
pub enum ErrorKind {
    /// The exchange with the node failed, or its reply cannot be read.
    TransportError,
    /// The node answered with an error of its own.
    RemoteError,
    /// The node returned data that is no hexadecimal text.
    DecodeError,
    /// The caller passed a blob id that cannot be looked up.
    InvalidInput,
}

/// What went wrong, with what is known of the cause.
#[derive(Debug)]
pub enum Failure {
    /// The HTTP exchange failed; holds what the transport said of it.
    Transport(String),
    /// The body of the reply is no JSON text; holds the parser's error.
    Malformed(serde_json::Error),
    /// The reply holds neither an error nor the result that was asked for.
    MissingResult,
    /// The node reported an error; holds its message.
    Remote(String),
    /// The data of the reply is no hexadecimal text.
    Decode(HexError),
    /// The blob id is shorter than the prefix that every id carries.
    InvalidInput,
}

/// A [`Failure`] with its texts as sequences of characters.
pub enum FailureView {
    Transport(Seq<char>),
    Malformed(serde_json::Error),
    MissingResult,
    Remote(Seq<char>),
    Decode(HexError),
    InvalidInput,
}

impl FailureView {
    /// The kind under which a failure is reported.
    pub open spec fn kind(self) -> ErrorKind {
        match self {
            FailureView::Transport(_) => ErrorKind::TransportError,
            FailureView::Malformed(_) => ErrorKind::TransportError,
            FailureView::MissingResult => ErrorKind::TransportError,
            FailureView::Remote(_) => ErrorKind::RemoteError,
            FailureView::Decode(_) => ErrorKind::DecodeError,
            FailureView::InvalidInput => ErrorKind::InvalidInput,
        }
    }
}

impl View for Failure {
    type V = FailureView;

    open spec fn view(&self) -> FailureView {
        match *self {
            Failure::Transport(s) => FailureView::Transport(s@),
            Failure::Malformed(e) => FailureView::Malformed(e),
            Failure::MissingResult => FailureView::MissingResult,
            Failure::Remote(s) => FailureView::Remote(s@),
            Failure::Decode(e) => FailureView::Decode(e),
            Failure::InvalidInput => FailureView::InvalidInput,
        }
    }
}

/// The error of every operation: a failure and whether trying again may help.
/// No failure that this crate reports is marked as worth a retry.
#[derive(Debug)]
pub struct DAError {
    pub error: Failure,
    pub is_retriable: bool,
}

impl DAError {
    /// The error for `failure`, marked as not worth a retry.
    pub fn new(failure: Failure) -> (e: DAError)
        ensures
            e.error == failure,
            !e.is_retriable,
    {
        DAError { error: failure, is_retriable: false }
    }

    /// The error for an exchange that the transport could not complete, with
    /// the transport's own words for it.
    pub fn transport(description: String) -> (e: DAError)
        ensures
            e.error@ == FailureView::Transport(description@),
            !e.is_retriable,
    {
        DAError::new(Failure::Transport(description))
    }

    /// The kind under which this error is reported.
    pub fn kind(&self) -> (k: ErrorKind)
        ensures
            k == self.error@.kind(),
    {
        match &self.error {
            Failure::Transport(_) => ErrorKind::TransportError,
            Failure::Malformed(_) => ErrorKind::TransportError,
            Failure::MissingResult => ErrorKind::TransportError,
            Failure::Remote(_) => ErrorKind::RemoteError,
            Failure::Decode(_) => ErrorKind::DecodeError,
            Failure::InvalidInput => ErrorKind::InvalidInput,
        }
    }
}

} // verus!

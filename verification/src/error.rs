//! The ways in which the engine fails.

use vstd::prelude::*;

verus! {

/// The stream under the connection is gone. Never retried by the engine.
#[derive(Clone, Copy, Debug, PartialEq, Eq, Structural)]
pub enum TransportError {
    /// A read or a write on the stream broke.
    IoFailure,
    /// The peer closed the stream.
    Closed,
}

/// The bytes received make no sense. Fatal for the connection: once a length
/// may have been misread, the stream cannot be realigned.
#[derive(Clone, Copy, Debug, PartialEq, Eq, Structural)]
pub enum ProtocolError {
    /// The stream ended inside a header or a payload.
    IncompleteFrame,
    /// The tag names no message kind.
    UnknownTag,
    /// The payload is longer than a frame's length field can say, or than
    /// the connection accepts.
    MalformedLength,
    /// The payload is no sequence of fields.
    MalformedPayload,
}

/// The caller asked for something that cannot be done in this state.
#[derive(Clone, Copy, Debug, PartialEq, Eq, Structural)]
pub enum LogicError {
    /// The session has no identity yet, or no longer.
    NotSynchronized,
    /// The message kind has no payload to put on the wire.
    Unsendable,
}

/// Any failure of the engine.
#[derive(Clone, Copy, Debug, PartialEq, Eq, Structural)]
pub enum Error {
    Transport(TransportError),
    Protocol(ProtocolError),
    Logic(LogicError),
}

/// The error that a result holds, if it holds one.
pub open spec fn error_of<T>(r: Result<T, Error>) -> Option<Error> {
    match r {
        Ok(_) => None,
        Err(e) => Some(e),
    }
}

impl Error {
    /// A short description, for logs and messages.
    pub fn describe(&self) -> (r: &'static str)
        ensures
            r@ == Self::description(*self),
    {
        match self {
            Error::Transport(TransportError::IoFailure) => "stream i/o failed",
            Error::Transport(TransportError::Closed) => "stream closed",
            Error::Protocol(ProtocolError::IncompleteFrame) => "incomplete frame",
            Error::Protocol(ProtocolError::UnknownTag) => "unknown tag",
            Error::Protocol(ProtocolError::MalformedLength) => "malformed length",
            Error::Protocol(ProtocolError::MalformedPayload) => "malformed payload",
            Error::Logic(LogicError::NotSynchronized) => "not synchronized",
            Error::Logic(LogicError::Unsendable) => "unsendable message kind",
        }
    }

    /// The text that [`Error::describe`] returns.
    pub open spec fn description(e: Error) -> Seq<char> {
        match e {
            Error::Transport(TransportError::IoFailure) => "stream i/o failed"@,
            Error::Transport(TransportError::Closed) => "stream closed"@,
            Error::Protocol(ProtocolError::IncompleteFrame) => "incomplete frame"@,
            Error::Protocol(ProtocolError::UnknownTag) => "unknown tag"@,
            Error::Protocol(ProtocolError::MalformedLength) => "malformed length"@,
            Error::Protocol(ProtocolError::MalformedPayload) => "malformed payload"@,
            Error::Logic(LogicError::NotSynchronized) => "not synchronized"@,
            Error::Logic(LogicError::Unsendable) => "unsendable message kind"@,
        }
    }
}

} // verus!

//! The errors of this crate.
use vstd::prelude::*;

verus! {

/// Declares `std::io::Error` so that a connection error can carry the error
/// of the socket; nothing is assumed of what it holds.
#[verifier::external_type_specification]
#[verifier::external_body]
pub struct ExIoError(std::io::Error);

/// Why a protocol text could not be decoded.
#[derive(Debug, Clone, Copy, PartialEq, Eq, Structural)]
pub enum ParseError {
    /// Fewer tokens (or geometry parts) than the grammar asks for.
    InsufficientData,
    /// A record of another kind was handed to a decoder of one kind.
    InvalidEvent,
    /// A token that is not a value of the type its position asks for.
    ConversionFailed,
}

impl ParseError {
    /// A sentence that describes the error.
    pub fn message(&self) -> (r: &'static str)
        ensures
            r@ == match self {
                ParseError::InsufficientData => "Insufficient data was provided"@,
                ParseError::InvalidEvent => "Event of different type was provided"@,
                ParseError::ConversionFailed => "Conversion failed"@,
            },
    {
        match self {
            ParseError::InsufficientData => "Insufficient data was provided",
            ParseError::InvalidEvent => "Event of different type was provided",
            ParseError::ConversionFailed => "Conversion failed",
        }
    }
}

/// Why a query was refused before it was sent.
#[derive(Debug, Clone, PartialEq, Eq)]
pub enum QueryError {
    NoMatches,
    InvalidRequest(String),
    InvalidSelector(String),
}

/// Everything that a request to the window manager can end in, but a reply.
#[derive(Debug)]
pub enum ReplyError {
    /// The socket failed.
    ConnectionError(std::io::Error),
    /// The reply or an event record could not be decoded.
    ParseError(ParseError),
    QueryError(QueryError),
    /// The request is not one that the window manager takes.
    InvalidRequest(String),
    /// The window manager refused the request, with this message.
    RequestFailed(String),
    /// The connection closed before any reply arrived.
    NoReply,
    /// A selector failed validation before it was sent.
    InvalidSelector(String),
}

} // verus!

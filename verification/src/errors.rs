//! The error type shared by bodies, handlers and back-ends.

use vstd::prelude::*;

verus! {

/// The class of a failure.
#[derive(Clone, Copy, Debug, PartialEq, Eq, Structural)]
pub enum ErrorKind {
    /// An I/O failure: a chunk of a body that could not be read, a file that
    /// could not be found or opened.
    Io,
    /// A body that was expected to be text is not valid UTF-8.
    Utf8,
    /// A body could not be read as, or written to, JSON.
    Json,
    /// A status code outside the range that HTTP defines.
    InvalidStatusCode,
    /// A header name that is not a valid token.
    InvalidHeaderName,
    /// A header value that holds a byte other than visible ASCII.
    InvalidHeaderValue,
    /// A request method that is not a valid token.
    InvalidMethod,
    /// A request target that is not a valid URI.
    InvalidUri,
    /// A protocol version that the toolkit does not know.
    UnsupportedVersion,
    /// A failure inside the HTTP engine that carried the request.
    Transport,
    /// A failure of a handler's own: whatever kept it from answering that is
    /// none of the above.
    Handler,
}

/// A failure, as it travels from where it happened to the layer that turns
/// it into a response.
#[derive(Clone, Copy, Debug, PartialEq, Eq, Structural)]
pub struct Error {
    pub kind: ErrorKind,
}

/// The text that [`Error::description`] gives for each kind of failure.
pub open spec fn description_of(kind: ErrorKind) -> Seq<char> {
    match kind {
        ErrorKind::Io => "i/o failure"@,
        ErrorKind::Utf8 => "body is not valid UTF-8"@,
        ErrorKind::Json => "body is not valid JSON"@,
        ErrorKind::InvalidStatusCode => "invalid status code"@,
        ErrorKind::InvalidHeaderName => "invalid header name"@,
        ErrorKind::InvalidHeaderValue => "invalid header value"@,
        ErrorKind::InvalidMethod => "invalid method"@,
        ErrorKind::InvalidUri => "invalid uri"@,
        ErrorKind::UnsupportedVersion => "unsupported protocol version"@,
        ErrorKind::Transport => "transport failure"@,
        ErrorKind::Handler => "handler failed"@,
    }
}

impl Error {
    /// An error of the given kind.
    pub fn new(kind: ErrorKind) -> (out: Error)
        ensures
            out.kind == kind,
    {
        Error { kind }
    }

    /// The kind of this error.
    pub fn kind(&self) -> (out: ErrorKind)
        ensures
            out == self.kind,
    {
        self.kind
    }

    /// Whether this is an I/O failure.
    pub fn is_io(&self) -> (out: bool)
        ensures
            out == (self.kind == ErrorKind::Io),
    {
        match self.kind {
            ErrorKind::Io => true,
            _ => false,
        }
    }

    /// A short text that says what went wrong.
    pub fn description(&self) -> (out: String)
        ensures
            out@ == description_of(self.kind),
    {
        match self.kind {
            ErrorKind::Io => "i/o failure".to_owned(),
            ErrorKind::Utf8 => "body is not valid UTF-8".to_owned(),
            ErrorKind::Json => "body is not valid JSON".to_owned(),
            ErrorKind::InvalidStatusCode => "invalid status code".to_owned(),
            ErrorKind::InvalidHeaderName => "invalid header name".to_owned(),
            ErrorKind::InvalidHeaderValue => "invalid header value".to_owned(),
            ErrorKind::InvalidMethod => "invalid method".to_owned(),
            ErrorKind::InvalidUri => "invalid uri".to_owned(),
            ErrorKind::UnsupportedVersion => "unsupported protocol version".to_owned(),
            ErrorKind::Transport => "transport failure".to_owned(),
            ErrorKind::Handler => "handler failed".to_owned(),
        }
    }
}

} // verus!

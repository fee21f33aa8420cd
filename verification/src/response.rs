//! Responses, and the builder that a handler is given to make one.

use crate::errors::{Error, ErrorKind};
use crate::header::{appended_text, HeaderMap};
use crate::method::Version;
use crate::status::{is_status_code, StatusCode};
use vstd::prelude::*;
use vstd::string::StringSliceAdditionalSpecFns;

verus! {

/// All of a response but its body.
pub struct ResponseHead {
    pub status: StatusCode,
    pub version: Version,
    pub headers: HeaderMap,
}

/// The head of a response as plain values.
pub struct HeadView {
    pub status: int,
    pub version: Version,
    pub headers: Seq<(Seq<char>, Seq<u8>)>,
}

impl View for ResponseHead {
    type V = HeadView;

    open spec fn view(&self) -> HeadView {
        HeadView { status: self.status.value(), version: self.version, headers: self.headers@ }
    }
}

/// A response with a body of type `B`.
pub struct Response<B> {
    pub head: ResponseHead,
    pub body: B,
}

impl<B> Response<B> {
    /// The status of the response.
    pub fn status(&self) -> (out: StatusCode)
        ensures
            out == self.head.status,
    {
        self.head.status
    }

    /// The protocol version of the response.
    pub fn version(&self) -> (out: Version)
        ensures
            out == self.head.version,
    {
        self.head.version
    }

    /// The headers of the response.
    pub fn headers(&self) -> (out: &HeaderMap)
        ensures
            *out == self.head.headers,
    {
        &self.head.headers
    }

    /// The body of the response.
    pub fn body(&self) -> (out: &B)
        ensures
            *out == self.body,
    {
        &self.body
    }

    /// The body of the response, without its head.
    pub fn into_body(self) -> (out: B)
        ensures
            out == self.body,
    {
        self.body
    }

    /// The head and the body of the response.
    pub fn into_parts(self) -> (out: (ResponseHead, B))
        ensures
            out == (self.head, self.body),
    {
        (self.head, self.body)
    }

    /// A response made of a head and a body.
    pub fn from_parts(head: ResponseHead, body: B) -> (out: Response<B>)
        ensures
            out == (Response { head, body }),
    {
        Response { head, body }
    }
}

/// The head that a builder starts from: status 200, HTTP/1.1, no headers.
pub open spec fn initial_head() -> HeadView {
    HeadView { status: 200, version: Version::Http11, headers: Seq::empty() }
}

/// What setting the status does to a builder: nothing after an earlier
/// failure; a failure where the number is no status code; and else the head
/// with the new status.
pub open spec fn with_status(state: Result<HeadView, Error>, code: int) -> Result<
    HeadView,
    Error,
> {
    match state {
        Err(error) => Err(error),
        Ok(head) => if is_status_code(code) {
            Ok(HeadView { status: code, ..head })
        } else {
            Err(Error { kind: ErrorKind::InvalidStatusCode })
        },
    }
}

/// What setting the version does to a builder.
pub open spec fn with_version(state: Result<HeadView, Error>, version: Version) -> Result<
    HeadView,
    Error,
> {
    match state {
        Err(error) => Err(error),
        Ok(head) => Ok(HeadView { version, ..head }),
    }
}

/// What adding a header does to a builder: nothing after an earlier failure;
/// a failure where the name is no header name; a failure where the value is
/// not visible text; and else the head with the header added behind the
/// others.
pub open spec fn with_header(state: Result<HeadView, Error>, name: Seq<char>, value: Seq<u8>)
    -> Result<HeadView, Error> {
    match state {
        Err(error) => Err(error),
        Ok(head) => match appended_text(head.headers, name, value) {
            Ok(headers) => Ok(HeadView { headers, ..head }),
            Err(kind) => Err(Error { kind }),
        },
    }
}

/// Gathers the head of a response, and remembers the first step that failed.
/// A handler gets one with each request and ends it with [`body`].
///
/// [`body`]: ResponseBuilder::body
pub struct ResponseBuilder {
    pub state: Result<ResponseHead, Error>,
}

impl View for ResponseBuilder {
    type V = Result<HeadView, Error>;

    open spec fn view(&self) -> Result<HeadView, Error> {
        match self.state {
            Ok(head) => Ok(head@),
            Err(error) => Err(error),
        }
    }
}

impl ResponseBuilder {
    /// A builder for a response with status 200, in HTTP/1.1 and without
    /// headers.
    pub fn new() -> (out: ResponseBuilder)
        ensures
            out@ == Ok::<HeadView, Error>(initial_head()),
    {
        ResponseBuilder {
            state: Ok(
                ResponseHead {
                    status: StatusCode::ok(),
                    version: Version::Http11,
                    headers: HeaderMap::new(),
                },
            ),
        }
    }

    /// Sets the status of the response.
    pub fn status(self, code: u16) -> (out: ResponseBuilder)
        ensures
            out@ == with_status(self@, code as int),
    {
        match self.state {
            Err(error) => ResponseBuilder { state: Err(error) },
            Ok(head) => match StatusCode::from_u16(code) {
                Ok(status) => ResponseBuilder {
                    state: Ok(
                        ResponseHead { status, version: head.version, headers: head.headers },
                    ),
                },
                Err(error) => ResponseBuilder { state: Err(error) },
            },
        }
    }

    /// Sets the protocol version of the response.
    pub fn version(self, version: Version) -> (out: ResponseBuilder)
        ensures
            out@ == with_version(self@, version),
    {
        match self.state {
            Err(error) => ResponseBuilder { state: Err(error) },
            Ok(head) => ResponseBuilder {
                state: Ok(ResponseHead { status: head.status, version, headers: head.headers }),
            },
        }
    }

    /// Adds a header to the response, behind those that are there.
    pub fn header(self, name: &str, value: &str) -> (out: ResponseBuilder)
        ensures
            out@ == with_header(self@, name@, value.spec_bytes()),
    {
        match self.state {
            Err(error) => ResponseBuilder { state: Err(error) },
            Ok(head) => match head.headers.append_text(name, value) {
                Ok(headers) => ResponseBuilder {
                    state: Ok(
                        ResponseHead { status: head.status, version: head.version, headers },
                    ),
                },
                Err(error) => ResponseBuilder { state: Err(error) },
            },
        }
    }

    /// Ends the builder: the response with the head that was gathered and
    /// the given body, or the first failure on the way.
    pub fn body<B>(self, body: B) -> (out: Result<Response<B>, Error>)
        ensures
            match self@ {
                Ok(head) => out matches Ok(response) && response.head@ == head && response.body
                    == body,
                Err(error) => out == Err::<Response<B>, Error>(error),
            },
    {
        match self.state {
            Ok(head) => Ok(Response { head, body }),
            Err(error) => Err(error),
        }
    }
}

} // verus!

//! Requests.

use crate::header::HeaderMap;
use crate::method::{Method, Version};
use crate::uri::Uri;
use vstd::prelude::*;

verus! {

/// All of a request but its body.
pub struct RequestHead {
    pub method: Method,
    pub uri: Uri,
    pub version: Version,
    pub headers: HeaderMap,
}

/// A request with a body of type `B`.
pub struct Request<B> {
    pub head: RequestHead,
    pub body: B,
}

impl<B> Request<B> {
    /// This request with another body in place of its own.
    pub open spec fn with_body<C>(self, body: C) -> Request<C> {
        Request { head: self.head, body }
    }

    /// A request for `uri` by `method`, in HTTP/1.1 and without headers.
    pub fn new(method: Method, uri: Uri, body: B) -> (out: Request<B>)
        ensures
            out.head.method == method,
            out.head.uri == uri,
            out.head.version == Version::Http11,
            out.head.headers@ == Seq::<(Seq<char>, Seq<u8>)>::empty(),
            out.body == body,
    {
        Request {
            head: RequestHead { method, uri, version: Version::Http11, headers: HeaderMap::new() },
            body,
        }
    }

    /// A request made of a head and a body.
    pub fn from_parts(head: RequestHead, body: B) -> (out: Request<B>)
        ensures
            out == (Request { head, body }),
    {
        Request { head, body }
    }

    /// The head and the body of the request.
    pub fn into_parts(self) -> (out: (RequestHead, B))
        ensures
            out == (self.head, self.body),
    {
        (self.head, self.body)
    }

    /// The method of the request.
    pub fn method(&self) -> (out: &Method)
        ensures
            *out == self.head.method,
    {
        &self.head.method
    }

    /// The target of the request.
    pub fn uri(&self) -> (out: &Uri)
        ensures
            *out == self.head.uri,
    {
        &self.head.uri
    }

    /// The protocol version of the request.
    pub fn version(&self) -> (out: Version)
        ensures
            out == self.head.version,
    {
        self.head.version
    }

    /// The headers of the request.
    pub fn headers(&self) -> (out: &HeaderMap)
        ensures
            *out == self.head.headers,
    {
        &self.head.headers
    }

    /// The body of the request.
    pub fn body(&self) -> (out: &B)
        ensures
            *out == self.body,
    {
        &self.body
    }

    /// The body of the request, without its head.
    pub fn into_body(self) -> (out: B)
        ensures
            out == self.body,
    {
        self.body
    }
}

} // verus!

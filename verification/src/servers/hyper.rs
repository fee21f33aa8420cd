//! Serving a handler from an engine that hands over requests with a
//! streaming body and takes responses with one.
//!
//! No failure reaches the client as such: where the body of the request
//! cannot be read as the handler's type, or the handler's answer resolves to
//! a failure, the client gets a response with status 500 and no body.

use crate::body::{Body, BodyStream};
use crate::errors::{Error, ErrorKind};
use crate::handler::{answer_erased, answers_erased, Handler};
use crate::header::{appended, HeaderMap};
use crate::method::{is_method_named, is_method_token, Method, Version};
use crate::request::{Request, RequestHead};
use crate::uri::{http_uri_path, Uri};
use bytes::Bytes;
use crate::responder::BoxedResponse;
use crate::response::{initial_head, HeadView, Response, ResponseBuilder, ResponseHead};
use crate::status::StatusCode;
use vstd::prelude::*;

verus! {

/// A task that is run once, from a box: the loop of a server, kept together
/// with the server until it is started.
pub trait ServeFunc {
    /// Whether the task can be run.
    spec fn ready(&self) -> bool;

    /// Whether `out` is an outcome of running the task.
    spec fn ends_in(&self, out: Result<(), Error>) -> bool;

    /// Runs the task.
    fn call_box(self: Box<Self>) -> (out: Result<(), Error>)
        requires
            self.ready(),
        ensures
            self.ends_in(out),
    ;
}

/// A function that takes nothing is such a task.
impl<F> ServeFunc for F where F: FnOnce() -> Result<(), Error> {
    open spec fn ready(&self) -> bool {
        call_requires(*self, ())
    }

    open spec fn ends_in(&self, out: Result<(), Error>) -> bool {
        call_ensures(*self, (), out)
    }

    fn call_box(self: Box<Self>) -> (out: Result<(), Error>) {
        (*self)()
    }
}

/// Whether a response is the one that stands for a failure on the server's
/// side: status 500, no headers, no body.
pub open spec fn is_internal_server_error(out: Response<BodyStream>) -> bool {
    out.head@ == (HeadView { status: 500, ..initial_head() }) && out.body@ == Seq::<
        Result<Seq<u8>, Error>,
    >::empty()
}

/// The response that stands for a failure on the server's side.
pub fn internal_server_error() -> (out: Response<BodyStream>)
    ensures
        is_internal_server_error(out),
{
    let head = ResponseHead {
        status: StatusCode::internal_server_error(),
        version: Version::Http11,
        headers: HeaderMap::new(),
    };
    let body = BodyStream::from_chunks(Vec::new());
    assert(body@ =~= Seq::empty());
    Response::from_parts(head, body)
}

/// The response that a client gets for an outcome: the response that the
/// outcome is, or the response that stands for a failure on the server's
/// side where the outcome is a failure.
pub fn or_internal_server_error(outcome: BoxedResponse) -> (out: Response<BodyStream>)
    ensures
        match outcome {
            Ok(response) => out == response,
            Err(_) => is_internal_server_error(out),
        },
{
    match outcome {
        Ok(response) => response,
        Err(_) => internal_server_error(),
    }
}

/// Whether `out` is a response that a client gets from `handler` for `req`:
/// the handler answers the request, the types of both bodies erased, with a
/// fresh builder; where that ends in a response, the client gets it, and where
/// it ends in a failure, the client gets the response that stands for a
/// failure on the server's side.
pub open spec fn serves<ReqBody: Body, H: Handler<ReqBody>>(
    handler: H,
    req: Request<BodyStream>,
    out: Response<BodyStream>,
) -> bool {
    exists|resp: ResponseBuilder, outcome: BoxedResponse|
        resp@ == Ok::<HeadView, Error>(initial_head()) && #[trigger] answers_erased::<ReqBody, H>(
            handler,
            req,
            resp,
            outcome,
        ) && match outcome {
            Ok(response) => out == response,
            Err(_) => is_internal_server_error(out),
        }
}

/// Serves one request: reads its body as the handler's type, lets the
/// handler answer, resolves the answer, and turns every failure on the way
/// into a response with status 500.
pub fn serve<ReqBody: Body, H: Handler<ReqBody>>(handler: &H, req: Request<BodyStream>) -> (out:
    Response<BodyStream>)
    ensures
        serves::<ReqBody, H>(*handler, req, out),
{
    let resp = ResponseBuilder::new();
    let outcome = answer_erased::<ReqBody, H>(handler, req, resp);
    or_internal_server_error(outcome)
}

/// One header as the engine has read it.
pub struct RawField {
    pub name: String,
    pub value: Vec<u8>,
}

/// A request as the engine has read it: the method and the target as text,
/// the version, the headers, and the chunks of the body.
pub struct RawRequest {
    pub method: String,
    pub uri: String,
    pub version: Version,
    pub headers: Vec<RawField>,
    pub body: Vec<Result<Bytes, Error>>,
}

/// The headers of the engine as plain values.
pub open spec fn fields_view(fields: Seq<RawField>) -> Seq<(Seq<char>, Seq<u8>)> {
    Seq::new(fields.len(), |i: int| (fields[i].name@, fields[i].value@))
}

/// What adding headers one after the other to `before` gives: the kind of
/// the first failure, or the headers of `before` followed by all of them.
pub open spec fn appended_all(
    before: Seq<(Seq<char>, Seq<u8>)>,
    fields: Seq<(Seq<char>, Seq<u8>)>,
) -> Result<Seq<(Seq<char>, Seq<u8>)>, ErrorKind>
    decreases fields.len(),
{
    if fields.len() == 0 {
        Ok(before)
    } else {
        match appended_all(before, fields.drop_last()) {
            Err(kind) => Err(kind),
            Ok(headers) => appended(headers, fields.last().0, fields.last().1),
        }
    }
}

/// Once adding the first `at + 1` headers fails, adding all of them fails in
/// the same way.
pub proof fn lemma_appended_all_fails(
    before: Seq<(Seq<char>, Seq<u8>)>,
    fields: Seq<(Seq<char>, Seq<u8>)>,
    at: int,
)
    requires
        0 <= at < fields.len(),
        appended_all(before, fields.take(at + 1)) is Err,
    ensures
        appended_all(before, fields) == appended_all(before, fields.take(at + 1)),
    decreases fields.len() - at,
{
    if at + 1 == fields.len() {
        assert(fields.take(at + 1) =~= fields);
    } else {
        assert(fields.take(at + 2).drop_last() =~= fields.take(at + 1));
        lemma_appended_all_fails(before, fields, at + 1);
    }
}

/// Whether `out` is what making a request of `raw` gives: the first failure
/// among the method, the target and the headers, taken in that order; and
/// else the request with all of them, with the version and with the chunks of
/// the body.
pub open spec fn makes_request(raw: RawRequest, out: Result<Request<BodyStream>, Error>) -> bool {
    if !is_method_token(raw.method@) {
        out == Err::<Request<BodyStream>, Error>(Error { kind: ErrorKind::InvalidMethod })
    } else {
        match http_uri_path(raw.uri@) {
            None => out == Err::<Request<BodyStream>, Error>(
                Error { kind: ErrorKind::InvalidUri },
            ),
            Some(path) => match appended_all(Seq::empty(), fields_view(raw.headers@)) {
                Err(kind) => out == Err::<Request<BodyStream>, Error>(Error { kind }),
                Ok(headers) => out matches Ok(req) && is_method_named(
                    req.head.method,
                    raw.method@,
                ) && req.head.uri.text_view() == raw.uri@ && req.head.uri.path_view() == path
                    && req.head.version == raw.version && req.head.headers@ == headers
                    && req.body.chunks == raw.body,
            },
        }
    }
}

/// Makes a request of what the engine has read.
pub fn as_request(raw: RawRequest) -> (out: Result<Request<BodyStream>, Error>)
    ensures
        makes_request(raw, out),
{
    let method = match Method::parse(raw.method.as_str()) {
        Ok(method) => method,
        Err(error) => {
            return Err(error);
        },
    };
    let uri = match Uri::parse(raw.uri.as_str()) {
        Ok(uri) => uri,
        Err(error) => {
            return Err(error);
        },
    };
    let mut headers = HeaderMap::new();
    let mut i: usize = 0;
    assert(fields_view(raw.headers@).take(0) =~= Seq::empty());
    while i < raw.headers.len()
        invariant
            i <= raw.headers@.len(),
            appended_all(Seq::empty(), fields_view(raw.headers@).take(i as int)) == Ok::<
                Seq<(Seq<char>, Seq<u8>)>,
                ErrorKind,
            >(headers@),
            is_method_token(raw.method@),
            http_uri_path(raw.uri@) is Some,
        decreases raw.headers@.len() - i,
    {
        let ghost fields = fields_view(raw.headers@);
        assert(fields.take(i + 1).drop_last() =~= fields.take(i as int));
        assert(fields.take(i + 1).last() == fields[i as int]);
        match headers.append(raw.headers[i].name.as_str(), raw.headers[i].value.as_slice()) {
            Ok(more) => {
                assert(appended_all(Seq::empty(), fields.take(i + 1)) == Ok::<
                    Seq<(Seq<char>, Seq<u8>)>,
                    ErrorKind,
                >(more@));
                headers = more;
            },
            Err(error) => {
                proof {
                    assert(appended_all(Seq::empty(), fields.take(i + 1)) == Err::<
                        Seq<(Seq<char>, Seq<u8>)>,
                        ErrorKind,
                    >(error.kind));
                    lemma_appended_all_fails(Seq::empty(), fields, i as int);
                }
                return Err(error);
            },
        }
        i = i + 1;
    }
    assert(fields_view(raw.headers@).take(i as int) =~= fields_view(raw.headers@));
    let head = RequestHead { method, uri, version: raw.version, headers };
    Ok(Request::from_parts(head, BodyStream::from_chunks(raw.body)))
}

/// Whether `out` is the response that a client gets from `handler` for what
/// the engine has read: the response that stands for a failure on the
/// server's side, where no request can be made of it, and else a response
/// that the client gets from the handler for the request that is made of it.
pub open spec fn serves_raw<ReqBody: Body, H: Handler<ReqBody>>(
    handler: H,
    raw: RawRequest,
    out: Response<BodyStream>,
) -> bool {
    exists|made: Result<Request<BodyStream>, Error>| #[trigger]
        makes_request(raw, made) && match made {
            Err(_) => is_internal_server_error(out),
            Ok(req) => serves::<ReqBody, H>(handler, req, out),
        }
}

/// Serves what the engine has read: makes a request of it, serves the
/// request, and turns every failure on the way into a response with status
/// 500.
pub fn serve_raw<ReqBody: Body, H: Handler<ReqBody>>(handler: &H, raw: RawRequest) -> (out: Response<
    BodyStream,
>)
    ensures
        serves_raw::<ReqBody, H>(*handler, raw, out),
{
    let made = as_request(raw);
    match made {
        Err(_) => internal_server_error(),
        Ok(req) => serve::<ReqBody, H>(handler, req),
    }
}

} // verus!

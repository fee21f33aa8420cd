//! Serving a handler from an engine that reads the whole request before the
//! handler is called and writes the whole response after it has answered.
//!
//! No failure reaches the client as such: where no request can be made of
//! what the engine has read, the body cannot be read as the handler's type,
//! the handler's answer resolves to a failure, or the body of the response
//! fails to drain, the client gets a response with status 500 and no body.

pub mod request;
pub mod response;

use self::request::{as_http_request, converts_request, RawRequest};
use self::response::{as_tiny_http_response, converts_response, RawResponse};
use crate::body::{Body, BodyStream};
use crate::buffer::{bytes_contents, bytes_new};
use crate::errors::Error;
use crate::handler::{answer_erased, answers_erased, Handler};
use crate::request::Request;
use crate::responder::BoxedResponse;
use crate::response::{initial_head, HeadView, ResponseBuilder};
use vstd::prelude::*;

verus! {

/// Whether a response is the one that stands for a failure on the server's
/// side: status 500, no headers, no body.
pub open spec fn is_internal_server_error(out: RawResponse) -> bool {
    &&& out.status_code == 500
    &&& out.headers@.len() == 0
    &&& bytes_contents(out.body).len() == 0
}

/// The response that stands for a failure on the server's side.
pub fn internal_server_error() -> (out: RawResponse)
    ensures
        is_internal_server_error(out),
        out.has_ascii_headers(),
{
    RawResponse { status_code: 500, headers: Vec::new(), body: bytes_new() }
}

/// The response that the engine writes for an outcome: the response that
/// the outcome is, or the response that stands for a failure on the server's
/// side where the outcome is a failure.
pub fn or_internal_server_error(outcome: Result<RawResponse, Error>) -> (out: RawResponse)
    ensures
        match outcome {
            Ok(response) => out == response,
            Err(_) => is_internal_server_error(out) && out.has_ascii_headers(),
        },
{
    match outcome {
        Ok(response) => response,
        Err(_) => internal_server_error(),
    }
}

/// Whether `out` is what the engine writes for a response of the handler:
/// the response, drained for the engine, or the response that stands for a
/// failure on the server's side where its body fails to drain.
pub open spec fn writes_response(
    response: crate::response::Response<BodyStream>,
    out: RawResponse,
) -> bool {
    exists|drained: Result<RawResponse, Error>| #[trigger]
        converts_response(response, drained) && match drained {
            Ok(raw) => out == raw,
            Err(_) => is_internal_server_error(out),
        }
}

/// Whether `out` is what the engine writes for a request of which `req`
/// was made: the handler answers `req` with a fresh builder, the types of
/// both bodies erased; where that ends in a response, the engine writes it,
/// and where it ends in a failure, the engine writes the response that stands
/// for a failure on the server's side.
pub open spec fn answers_request<ReqBody: Body, H: Handler<ReqBody>>(
    handler: H,
    req: Request<BodyStream>,
    out: RawResponse,
) -> bool {
    exists|resp: ResponseBuilder, outcome: BoxedResponse|
        resp@ == Ok::<HeadView, Error>(initial_head()) && #[trigger] answers_erased::<ReqBody, H>(
            handler,
            req,
            resp,
            outcome,
        ) && match outcome {
            Err(_) => is_internal_server_error(out),
            Ok(response) => writes_response(response, out),
        }
}

/// Whether `out` is what the engine writes for `raw` with `handler`: where
/// no request can be made of `raw`, the response that stands for a failure
/// on the server's side; and else what it writes for the request that is
/// made of `raw`.
pub open spec fn processes<ReqBody: Body, H: Handler<ReqBody>>(
    handler: H,
    raw: RawRequest,
    out: RawResponse,
) -> bool {
    exists|converted: Result<Request<BodyStream>, Error>| #[trigger]
        converts_request(raw, converted) && match converted {
            Err(_) => is_internal_server_error(out),
            Ok(req) => answers_request::<ReqBody, H>(handler, req, out),
        }
}

/// Processes one request: makes a request of what the engine has read, reads
/// its body as the handler's type, lets the handler answer, resolves the
/// answer and drains the response for the engine. Every failure on the way
/// is turned into a response with status 500 and no body.
pub fn process_request<ReqBody: Body, H: Handler<ReqBody>>(handler: &H, raw: RawRequest) -> (out:
    RawResponse)
    ensures
        processes::<ReqBody, H>(*handler, raw, out),
        out.has_ascii_headers(),
{
    let converted = as_http_request(raw);
    match converted {
        Err(_) => internal_server_error(),
        Ok(req) => {
            let resp = ResponseBuilder::new();
            let outcome = answer_erased::<ReqBody, H>(handler, req, resp);
            let out = match outcome {
                Err(_) => internal_server_error(),
                Ok(response) => {
                    let drained = as_tiny_http_response(response);
                    let out = or_internal_server_error(drained);
                    assert(writes_response(response, out));
                    out
                },
            };
            assert(answers_request::<ReqBody, H>(*handler, req, out));
            out
        },
    }
}

/// Processes what became of reading a request from the engine: where the
/// request could not be read, the response that stands for a failure on the
/// server's side, and else what processing the request gives.
pub fn process_read<ReqBody: Body, H: Handler<ReqBody>>(
    handler: &H,
    read: Result<RawRequest, Error>,
) -> (out: RawResponse)
    ensures
        match read {
            Err(_) => is_internal_server_error(out),
            Ok(raw) => processes::<ReqBody, H>(*handler, raw, out),
        },
        out.has_ascii_headers(),
{
    match read {
        Err(_) => internal_server_error(),
        Ok(raw) => process_request::<ReqBody, H>(handler, raw),
    }
}

} // verus!

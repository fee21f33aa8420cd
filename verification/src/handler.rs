//! Handlers, and the wrapper that lets handlers of different body types be
//! kept side by side.

use crate::body::{converts, into_body, Body, BodyStream};
use crate::errors::Error;
use crate::request::Request;
use crate::responder::{BoxedResponse, Responder};
use crate::response::ResponseBuilder;
use std::marker::PhantomData;
use std::sync::Arc;
use vstd::prelude::*;

verus! {

/// A value that answers requests whose body is of type `ReqBody`. It gets
/// the request and a builder for the response, and returns a [`Responder`].
///
/// A handler is shared by all requests that are served at a time, so it
/// keeps no state of a single request.
pub trait Handler<ReqBody: Body>: Send + Sync + 'static {
    /// What this handler returns.
    type Resp: Responder;

    /// Whether `out` is an answer of this handler to `req`.
    spec fn responds(&self, req: Request<ReqBody>, resp: ResponseBuilder, out: Self::Resp) -> bool;

    /// Answers a request.
    fn handle(&self, req: Request<ReqBody>, resp: ResponseBuilder) -> (out: Self::Resp)
        ensures
            self.responds(req, resp, out),
    ;
}

/// A function as a handler. The function must accept every request.
#[verifier::reject_recursive_types(ReqBody)]
#[verifier::reject_recursive_types(Resp)]
pub struct HandlerFn<Func, ReqBody, Resp> where Func: Fn(Request<ReqBody>, ResponseBuilder) -> Resp {
    func: Func,
    marker: Ghost<PhantomData<(ReqBody, Resp)>>,
}

impl<Func, ReqBody, Resp> HandlerFn<Func, ReqBody, Resp> where
    Func: Fn(Request<ReqBody>, ResponseBuilder) -> Resp,
 {
    #[verifier::type_invariant]
    spec fn accepts_all(&self) -> bool {
        forall|req: Request<ReqBody>, resp: ResponseBuilder| call_requires(self.func, (req, resp))
    }

    /// The function that answers the requests.
    pub closed spec fn func(&self) -> Func {
        self.func
    }
}

/// Makes a handler of a function that accepts every request.
pub fn handler_fn<Func, ReqBody, Resp>(func: Func) -> (out: HandlerFn<Func, ReqBody, Resp>) where
    Func: Fn(Request<ReqBody>, ResponseBuilder) -> Resp + Send + Sync + 'static,
    ReqBody: Body,
    Resp: Responder,

    requires
        forall|req: Request<ReqBody>, resp: ResponseBuilder| call_requires(func, (req, resp)),
    ensures
        out.func() == func,
        forall|req: Request<ReqBody>, resp: ResponseBuilder, answer: Resp|
            #[trigger] out.responds(req, resp, answer) <==> call_ensures(func, (req, resp), answer),
{
    HandlerFn { func, marker: Ghost(PhantomData) }
}

/// The handler answers as the function does.
impl<Func, ReqBody, Resp> Handler<ReqBody> for HandlerFn<Func, ReqBody, Resp> where
    Func: Fn(Request<ReqBody>, ResponseBuilder) -> Resp + Send + Sync + 'static,
    ReqBody: Body,
    Resp: Responder,
 {
    type Resp = Resp;

    open spec fn responds(&self, req: Request<ReqBody>, resp: ResponseBuilder, out: Resp) -> bool {
        call_ensures(self.func(), (req, resp), out)
    }

    fn handle(&self, req: Request<ReqBody>, resp: ResponseBuilder) -> (out: Resp) {
        proof {
            use_type_invariant(self);
        }
        (self.func)(req, resp)
    }
}

/// Whether `out` is `req` with its body converted to type `B2`: the failure
/// of the conversion, or the same head with the converted body.
pub open spec fn maps_request_body<B1: Body, B2: Body>(
    req: Request<B1>,
    out: Result<Request<B2>, Error>,
) -> bool {
    exists|body: Result<B2, Error>| #[trigger]
        converts(req.body, body) && out == match body {
            Ok(body) => Ok::<Request<B2>, Error>(req.with_body(body)),
            Err(error) => Err::<Request<B2>, Error>(error),
        }
}

/// Converts the body of a request to another type and keeps its head.
pub fn map_request_body<B1: Body, B2: Body>(req: Request<B1>) -> (out: Result<Request<B2>, Error>)
    ensures
        maps_request_body(req, out),
{
    let (head, body) = req.into_parts();
    match into_body::<B1, B2>(body) {
        Ok(body) => Ok(Request::from_parts(head, body)),
        Err(error) => Err(error),
    }
}

/// Whether `out` is an outcome of answering `req` with `handler` once the
/// types of both bodies are erased: the body of `req` is read as a `B`; where
/// that fails, the failure is the outcome; where it gives a body, the handler
/// answers the request with that body, and its answer resolves to the
/// outcome.
pub open spec fn answers_erased<B: Body, H: Handler<B>>(
    handler: H,
    req: Request<BodyStream>,
    resp: ResponseBuilder,
    out: BoxedResponse,
) -> bool {
    exists|mapped: Result<Request<B>, Error>| #[trigger]
        maps_request_body(req, mapped) && match mapped {
            Err(error) => out == Err::<crate::response::Response<BodyStream>, Error>(error),
            Ok(typed) => exists|answer: H::Resp| #[trigger]
                handler.responds(typed, resp, answer) && answer.resolves(out),
        }
}

/// Answers a request with a handler, the types of both bodies erased: reads
/// the body of the request as the handler's type, lets the handler answer,
/// and resolves the answer.
pub fn answer_erased<B: Body, H: Handler<B>>(
    handler: &H,
    req: Request<BodyStream>,
    resp: ResponseBuilder,
) -> (out: BoxedResponse)
    ensures
        answers_erased::<B, H>(*handler, req, resp, out),
{
    let mapped = map_request_body::<BodyStream, B>(req);
    match mapped {
        Err(error) => Err(error),
        Ok(typed) => {
            let answer = handler.handle(typed, resp);
            let out = answer.into_response();
            assert(handler.responds(typed, resp, answer) && answer.resolves(out));
            out
        },
    }
}

/// A handler of requests with a streaming body that returns outcomes with a
/// streaming body, as it can be called through a box.
trait ErasedHandler: Send + Sync {
    /// Whether `out` is an answer of this handler to `req`.
    spec fn answers(&self, req: Request<BodyStream>, resp: ResponseBuilder, out: BoxedResponse) -> bool;

    /// Answers a request.
    fn answer(&self, req: Request<BodyStream>, resp: ResponseBuilder) -> (out: BoxedResponse)
        ensures
            self.answers(req, resp, out),
    ;
}

/// A handler of requests with bodies of type `B`, seen as a handler of
/// requests with a streaming body.
#[verifier::reject_recursive_types(B)]
struct Erased<B: Body, H: Handler<B>> {
    handler: H,
    marker: Ghost<PhantomData<B>>,
}

impl<B: Body, H: Handler<B>> ErasedHandler for Erased<B, H> {
    closed spec fn answers(&self, req: Request<BodyStream>, resp: ResponseBuilder, out: BoxedResponse) -> bool {
        answers_erased::<B, H>(self.handler, req, resp, out)
    }

    fn answer(&self, req: Request<BodyStream>, resp: ResponseBuilder) -> (out: BoxedResponse) {
        answer_erased::<B, H>(&self.handler, req, resp)
    }
}

/// A handler behind a box, with the types of its bodies erased, so that
/// handlers of different types can be kept in one collection. The handler in
/// the box is shared by all clones of the box.
pub struct BoxedHandler {
    inner: Arc<Box<dyn ErasedHandler>>,
}

impl Clone for BoxedHandler {
    fn clone(&self) -> (out: Self)
        ensures
            out == *self,
    {
        BoxedHandler { inner: self.inner.clone() }
    }
}

impl Handler<BodyStream> for BoxedHandler {
    type Resp = BoxedResponse;

    closed spec fn responds(&self, req: Request<BodyStream>, resp: ResponseBuilder, out: BoxedResponse) -> bool {
        self.inner.answers(req, resp, out)
    }

    fn handle(&self, req: Request<BodyStream>, resp: ResponseBuilder) -> (out: BoxedResponse) {
        self.inner.answer(req, resp)
    }
}

/// Boxes a handler and erases the types of its bodies. The boxed handler
/// reads the body of each request as the handler's own type, lets the handler
/// answer, and resolves the answer: it returns what the handler itself gives
/// for the same request.
pub fn box_handler<B: Body, H: Handler<B>>(handler: H) -> (out: BoxedHandler)
    ensures
        forall|req: Request<BodyStream>, resp: ResponseBuilder, answer: BoxedResponse|
            #[trigger] out.responds(req, resp, answer) <==> answers_erased::<B, H>(
                handler,
                req,
                resp,
                answer,
            ),
{
    let erased = Erased { handler, marker: Ghost(PhantomData) };
    let boxed: Box<dyn ErasedHandler> = Box::new(erased);
    assert forall|req: Request<BodyStream>, resp: ResponseBuilder, answer: BoxedResponse|
        #[trigger] boxed.answers(req, resp, answer) <==> answers_erased::<B, H>(
            handler,
            req,
            resp,
            answer,
        ) by {
        assert(boxed.answers(req, resp, answer) <==> erased.answers(req, resp, answer));
    }
    let inner = Arc::new(boxed);
    BoxedHandler { inner }
}

} // verus!

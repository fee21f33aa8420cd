//! Handlers that wrap other handlers.

pub mod router;

pub use self::router::SimpleRouter;

use crate::body::Body;
use crate::errors::Error;
use crate::handler::Handler;
use crate::method::{method_name, Method};
use crate::request::Request;
use crate::responder::{BoxedResponse, Responder};
use crate::response::ResponseBuilder;
use crate::status::StatusCode;
use crate::uri::Uri;
use std::marker::PhantomData;
use vstd::prelude::*;
use vstd::string::StringExecFns;

verus! {

/// A handler made of a function that takes a context before the request,
/// and of the context that it is given with every request.
#[verifier::reject_recursive_types(ReqBody)]
#[verifier::reject_recursive_types(Resp)]
#[verifier::reject_recursive_types(Ctx)]
pub struct WithContext<Ctx, Func, ReqBody, Resp> where
    Func: Fn(Ctx, Request<ReqBody>, ResponseBuilder) -> Resp,
 {
    ctx: Ctx,
    func: Func,
    marker: Ghost<PhantomData<(ReqBody, Resp)>>,
}

impl<Ctx, Func, ReqBody, Resp> WithContext<Ctx, Func, ReqBody, Resp> where
    Func: Fn(Ctx, Request<ReqBody>, ResponseBuilder) -> Resp,
 {
    #[verifier::type_invariant]
    spec fn accepts_all(&self) -> bool {
        forall|ctx: Ctx, req: Request<ReqBody>, resp: ResponseBuilder|
            call_requires(self.func, (ctx, req, resp))
    }

    /// The context that the function is given.
    pub closed spec fn ctx(&self) -> Ctx {
        self.ctx
    }

    /// The function that answers the requests.
    pub closed spec fn func(&self) -> Func {
        self.func
    }
}

/// Makes a handler of a function that takes a context, and of the context.
/// The function gets a clone of the context with every request. It must
/// accept every context and every request.
pub fn with_context<Ctx, Func, ReqBody, Resp>(ctx: Ctx, handler: Func) -> (out: WithContext<
    Ctx,
    Func,
    ReqBody,
    Resp,
>) where Ctx: Clone, Func: Fn(Ctx, Request<ReqBody>, ResponseBuilder) -> Resp
    requires
        forall|ctx: Ctx, req: Request<ReqBody>, resp: ResponseBuilder|
            call_requires(handler, (ctx, req, resp)),
    ensures
        out.ctx() == ctx,
        out.func() == handler,
{
    WithContext { ctx, func: handler, marker: Ghost(PhantomData) }
}

/// The handler answers as the function does on a clone of the context.
impl<Ctx, Func, ReqBody, Resp> Handler<ReqBody> for WithContext<Ctx, Func, ReqBody, Resp> where
    Ctx: Clone + Send + Sync + 'static,
    Func: Fn(Ctx, Request<ReqBody>, ResponseBuilder) -> Resp + Send + Sync + 'static,
    ReqBody: Body,
    Resp: Responder,
 {
    type Resp = Resp;

    open spec fn responds(&self, req: Request<ReqBody>, resp: ResponseBuilder, out: Resp) -> bool {
        exists|ctx: Ctx| cloned(self.ctx(), ctx) && #[trigger] call_ensures(
            self.func(),
            (ctx, req, resp),
            out,
        )
    }

    fn handle(&self, req: Request<ReqBody>, resp: ResponseBuilder) -> (out: Resp) {
        proof {
            use_type_invariant(self);
        }
        let ctx = self.ctx.clone();
        let out = (self.func)(ctx, req, resp);
        assert(cloned(self.ctx(), ctx) && call_ensures(self.func(), (ctx, req, resp), out));
        out
    }
}

/// A handler, and the function that answers in its place where it fails.
#[verifier::reject_recursive_types(ReqBody)]
#[verifier::reject_recursive_types(Resp)]
pub struct WithErrorHandling<H, Func, ReqBody, Resp> where Func: Fn(Error) -> Resp {
    handler: H,
    func: Func,
    marker: Ghost<PhantomData<(ReqBody, Resp)>>,
}

impl<H, Func, ReqBody, Resp> WithErrorHandling<H, Func, ReqBody, Resp> where
    Func: Fn(Error) -> Resp,
 {
    #[verifier::type_invariant]
    spec fn accepts_all(&self) -> bool {
        forall|error: Error| call_requires(self.func, (error,))
    }

    /// The handler that answers the requests.
    pub closed spec fn handler(&self) -> H {
        self.handler
    }

    /// The function that answers where the handler fails.
    pub closed spec fn func(&self) -> Func {
        self.func
    }
}

/// Whether `out` is an outcome of answering `req` with `handler` and, where
/// that fails, of answering the failure with `func`: where the answer of the
/// handler resolves to a response, that response is the outcome; where it
/// resolves to a failure, the outcome is what the answer of `func` to the
/// failure resolves to.
pub open spec fn recovers<H, Func, ReqBody, Resp>(
    handler: H,
    func: Func,
    req: Request<ReqBody>,
    resp: ResponseBuilder,
    out: BoxedResponse,
) -> bool where H: Handler<ReqBody>, Func: Fn(Error) -> Resp, ReqBody: Body, Resp: Responder {
    exists|answer: H::Resp, first: BoxedResponse| #[trigger]
        handler.responds(req, resp, answer) && #[trigger] answer.resolves(first) && match first {
            Ok(_) => out == first,
            Err(error) => exists|second: Resp| #[trigger]
                call_ensures(func, (error,), second) && second.resolves(out),
        }
}

/// Wraps a handler so that its failures are answered by a function. The
/// function must accept every failure.
pub fn with_error_handling<H, Func, ReqBody, Resp>(handler: H, func: Func) -> (out:
    WithErrorHandling<H, Func, ReqBody, Resp>) where
    H: Handler<ReqBody>,
    Func: Fn(Error) -> Resp,
    ReqBody: Body,
    Resp: Responder,

    requires
        forall|error: Error| call_requires(func, (error,)),
    ensures
        out.handler() == handler,
        out.func() == func,
{
    WithErrorHandling { handler, func, marker: Ghost(PhantomData) }
}

impl<H, Func, ReqBody, Resp> Handler<ReqBody> for WithErrorHandling<H, Func, ReqBody, Resp> where
    H: Handler<ReqBody>,
    Func: Fn(Error) -> Resp + Send + Sync + 'static,
    ReqBody: Body,
    Resp: Responder,
 {
    type Resp = BoxedResponse;

    open spec fn responds(&self, req: Request<ReqBody>, resp: ResponseBuilder, out: BoxedResponse) -> bool {
        recovers::<H, Func, ReqBody, Resp>(self.handler(), self.func(), req, resp, out)
    }

    fn handle(&self, req: Request<ReqBody>, resp: ResponseBuilder) -> (out: BoxedResponse) {
        proof {
            use_type_invariant(self);
        }
        let answer = self.handler.handle(req, resp);
        let first = answer.into_response();
        match first {
            Ok(response) => {
                let out = Ok(response);
                assert(self.handler.responds(req, resp, answer) && answer.resolves(first));
                out
            },
            Err(error) => {
                let second = (self.func)(error);
                let out = second.into_response();
                assert(call_ensures(self.func, (error,), second) && second.resolves(out));
                assert(self.handler.responds(req, resp, answer) && answer.resolves(first));
                out
            },
        }
    }
}

/// The decimal digit that stands for a number below ten.
pub open spec fn digit(number: nat) -> char {
    (48 + number) as u8 as char
}

/// A number in decimal digits, without leading zeros.
pub open spec fn decimal(number: nat) -> Seq<char>
    decreases number,
{
    if number < 10 {
        seq![digit(number)]
    } else {
        decimal(number / 10).push(digit(number % 10))
    }
}

/// The text of a decimal digit.
fn digit_text(number: u16) -> (out: &'static str)
    requires
        number < 10,
    ensures
        out@ == seq![digit(number as nat)],
{
    proof {
        reveal_strlit("0");
        reveal_strlit("1");
        reveal_strlit("2");
        reveal_strlit("3");
        reveal_strlit("4");
        reveal_strlit("5");
        reveal_strlit("6");
        reveal_strlit("7");
        reveal_strlit("8");
        reveal_strlit("9");
    }
    let out = if number == 0 {
        "0"
    } else if number == 1 {
        "1"
    } else if number == 2 {
        "2"
    } else if number == 3 {
        "3"
    } else if number == 4 {
        "4"
    } else if number == 5 {
        "5"
    } else if number == 6 {
        "6"
    } else if number == 7 {
        "7"
    } else if number == 8 {
        "8"
    } else {
        "9"
    };
    assert(out@ =~= seq![digit(number as nat)]);
    out
}

/// A number in decimal digits.
fn decimal_text(number: u16) -> (out: String)
    ensures
        out@ == decimal(number as nat),
    decreases number,
{
    if number < 10 {
        digit_text(number).to_owned()
    } else {
        decimal_text(number / 10).concat(digit_text(number % 10))
    }
}

/// The line that is logged for a request and the status of its response: the
/// method, the path and the status code, with a space between them.
pub open spec fn log_line_of(method: Method, uri: Uri, status: StatusCode) -> Seq<char> {
    method_name(method) + seq![' '] + uri.path_view() + seq![' '] + decimal(status.value() as nat)
}

/// The line that is logged for a request and the status of its response.
pub fn log_line(method: &Method, uri: &Uri, status: StatusCode) -> (out: String)
    ensures
        out@ == log_line_of(*method, *uri, status),
{
    proof {
        reveal_strlit(" ");
        assert(" "@ =~= seq![' ']);
    }
    let line = method.name();
    let line = line.concat(" ");
    let line = line.concat(uri.path());
    let line = line.concat(" ");
    let code = decimal_text(status.as_u16());
    line.concat(code.as_str())
}

/// A handler, and the sink that gets a line for each request that the
/// handler has answered with a response.
#[verifier::reject_recursive_types(ReqBody)]
pub struct WithLogging<H, Sink, ReqBody> where Sink: Fn(String) -> () {
    handler: H,
    sink: Sink,
    marker: Ghost<PhantomData<ReqBody>>,
}

impl<H, Sink, ReqBody> WithLogging<H, Sink, ReqBody> where Sink: Fn(String) -> () {
    #[verifier::type_invariant]
    spec fn accepts_all(&self) -> bool {
        forall|line: String| call_requires(self.sink, (line,))
    }

    /// The handler that answers the requests.
    pub closed spec fn handler(&self) -> H {
        self.handler
    }

    /// The sink that gets the lines.
    pub closed spec fn sink(&self) -> Sink {
        self.sink
    }
}

/// Wraps a handler so that each request is logged for which the handler's
/// answer resolves to a response: the sink gets the line that [`log_line`]
/// gives for the request and the status of the response. Nothing is logged
/// where the answer resolves to a failure. The sink must accept every line.
pub fn with_logging<H, Sink, ReqBody>(handler: H, sink: Sink) -> (out: WithLogging<
    H,
    Sink,
    ReqBody,
>) where H: Handler<ReqBody>, Sink: Fn(String) -> (), ReqBody: Body
    requires
        forall|line: String| call_requires(sink, (line,)),
    ensures
        out.handler() == handler,
        out.sink() == sink,
{
    WithLogging { handler, sink, marker: Ghost(PhantomData) }
}

/// Whether the sink has been given the line for a request and the status
/// of its response.
pub open spec fn logged<Sink: Fn(String) -> ()>(
    sink: Sink,
    method: Method,
    uri: Uri,
    status: StatusCode,
) -> bool {
    exists|line: String|
        line@ == log_line_of(method, uri, status) && #[trigger] call_ensures(sink, (line,), ())
}

/// Whether `out` is an outcome of answering `req` with `handler`: what an
/// answer of the handler resolves to.
pub open spec fn answers_resolved<H, ReqBody>(
    handler: H,
    req: Request<ReqBody>,
    resp: ResponseBuilder,
    out: BoxedResponse,
) -> bool where H: Handler<ReqBody>, ReqBody: Body {
    exists|answer: H::Resp| #[trigger] handler.responds(req, resp, answer) && answer.resolves(out)
}

/// Logging changes no outcome: the handler answers as the wrapped handler
/// does. Where the outcome is a response, the sink has been given the line
/// for it.
impl<H, Sink, ReqBody> Handler<ReqBody> for WithLogging<H, Sink, ReqBody> where
    H: Handler<ReqBody>,
    Sink: Fn(String) -> () + Send + Sync + 'static,
    ReqBody: Body,
 {
    type Resp = BoxedResponse;

    open spec fn responds(&self, req: Request<ReqBody>, resp: ResponseBuilder, out: BoxedResponse) -> bool {
        &&& answers_resolved::<H, ReqBody>(self.handler(), req, resp, out)
        &&& out matches Ok(response) ==> logged(
            self.sink(),
            req.head.method,
            req.head.uri,
            response.head.status,
        )
    }

    fn handle(&self, req: Request<ReqBody>, resp: ResponseBuilder) -> (out: BoxedResponse) {
        proof {
            use_type_invariant(self);
        }
        let method = req.method().clone();
        let uri = req.uri().clone();
        let answer = self.handler.handle(req, resp);
        let out = answer.into_response();
        assert(self.handler().responds(req, resp, answer) && answer.resolves(out));
        match &out {
            Ok(response) => {
                let line = log_line(&method, &uri, response.status());
                (self.sink)(line);
                assert(line@ == log_line_of(req.head.method, req.head.uri, response.head.status)
                    && call_ensures(self.sink(), (line,), ()));
            },
            Err(_) => {},
        }
        out
    }
}

} // verus!

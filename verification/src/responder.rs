//! What a handler may return, and how it becomes a response with a
//! streaming body.

use crate::body::{Body, BodyStream};
use crate::errors::Error;
use crate::response::Response;
use vstd::prelude::*;

verus! {

/// The outcome of handling a request, with the type of the body erased: a
/// response with a streaming body, or the failure that came in its place.
pub type BoxedResponse = Result<Response<BodyStream>, Error>;

/// Whether `out` is `response` with its body written to a stream: the same
/// head, and a stream that the body is written to.
pub open spec fn erases<B: Body>(response: Response<B>, out: Response<BodyStream>) -> bool {
    out.head == response.head && response.body.encodes(out.body@)
}

/// A value that a handler may return.
pub trait Responder: Sized + Send + 'static {
    /// The type of the body of the response.
    type Body: Body;

    /// Whether `out` is the outcome that this value resolves to.
    spec fn resolves(self, out: BoxedResponse) -> bool;

    /// Resolves this value to its outcome, and erases the type of the body.
    fn into_response(self) -> (out: BoxedResponse)
        ensures
            self.resolves(out),
    ;
}

/// A response resolves to itself, its body written to a stream.
impl<B: Body> Responder for Response<B> {
    type Body = B;

    open spec fn resolves(self, out: BoxedResponse) -> bool {
        out matches Ok(erased) && erases(self, erased)
    }

    fn into_response(self) -> (out: BoxedResponse) {
        let Response { head, body } = self;
        let stream = body.into_stream();
        let erased = Response { head, body: stream };
        let out: BoxedResponse = Ok(erased);
        assert(self.resolves(out));
        out
    }
}

/// A response that may have failed resolves to the response, its body
/// written to a stream, or to the failure.
impl<B: Body> Responder for Result<Response<B>, Error> {
    type Body = B;

    open spec fn resolves(self, out: BoxedResponse) -> bool {
        match self {
            Ok(response) => out matches Ok(erased) && erases(response, erased),
            Err(error) => out == Err::<Response<BodyStream>, Error>(error),
        }
    }

    fn into_response(self) -> (out: BoxedResponse) {
        match self {
            Ok(response) => response.into_response(),
            Err(error) => Err(error),
        }
    }
}

/// A computation that has not run yet and ends in a responder: what a
/// handler returns when the response is still to be made.
#[verifier::reject_recursive_types(R)]
pub struct Pending<F, R> where F: FnOnce() -> R {
    compute: F,
}

impl<F, R> Pending<F, R> where F: FnOnce() -> R {
    #[verifier::type_invariant]
    spec fn can_run(&self) -> bool {
        call_requires(self.compute, ())
    }

    /// The computation.
    pub closed spec fn compute(&self) -> F {
        self.compute
    }
}

/// Makes a responder of a computation that can run.
pub fn pending<F, R>(compute: F) -> (out: Pending<F, R>) where F: FnOnce() -> R
    requires
        call_requires(compute, ()),
    ensures
        out.compute() == compute,
{
    Pending { compute }
}

/// A pending computation resolves to what its result resolves to. It runs
/// when it is resolved, and not before.
impl<F, R> Responder for Pending<F, R> where F: FnOnce() -> R + Send + 'static, R: Responder {
    type Body = R::Body;

    open spec fn resolves(self, out: BoxedResponse) -> bool {
        exists|result: R| #[trigger] call_ensures(self.compute(), (), result) && result.resolves(out)
    }

    fn into_response(self) -> (out: BoxedResponse) {
        proof {
            use_type_invariant(&self);
        }
        let result = (self.compute)();
        let out = result.into_response();
        assert(call_ensures(self.compute(), (), result) && result.resolves(out));
        out
    }
}

} // verus!

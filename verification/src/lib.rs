//! A small toolkit for writing HTTP handlers once and serving them from
//! interchangeable back-ends.
//!
//! A [`Handler`] turns a [`Request`] and a [`ResponseBuilder`] into a
//! [`Responder`]: a response, a response that may have failed, or a
//! computation that ends in one of them. Bodies are of any type that
//! implements [`Body`]; between handlers and back-ends they travel as a
//! [`BodyStream`], a finite sequence of chunks of bytes. [`box_handler`]
//! erases the body types of a handler, so that handlers of different types
//! can be kept side by side, as the router in [`middlewares`] keeps them.
//!
//! Everything here is free of I/O. A back-end reads a request, hands it to
//! the functions in [`servers`], and writes the response that they return;
//! the handlers in [`handlers`] are given the functions that read files.

pub mod body;
pub mod buffer;
pub mod errors;
pub mod handler;
pub mod handlers;
pub mod header;
pub mod json;
pub mod method;
pub mod middlewares;
pub mod request;
pub mod responder;
pub mod response;
pub mod servers;
pub mod status;
pub mod uri;

pub use body::{empty_body, into_body, Body, BodyStream};
pub use errors::{Error, ErrorKind};
pub use handler::{box_handler, handler_fn, BoxedHandler, Handler, HandlerFn};
pub use header::HeaderMap;
pub use json::{Json, JsonCodec};
pub use method::{Method, Version};
pub use request::{Request, RequestHead};
pub use responder::{pending, BoxedResponse, Pending, Responder};
pub use response::{Response, ResponseBuilder, ResponseHead};
pub use status::StatusCode;
pub use uri::Uri;

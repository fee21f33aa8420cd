//! Handlers that serve files, for use in development.
//!
//! The handlers decide which file is served and what the response is. They
//! do not touch the file system themselves: whoever makes one hands it the
//! two functions that do, one that resolves a path to its canonical form, and
//! one that reads a file.
//!
//! A file is served only if its canonical path lies under the root that the
//! handler was made for. Every I/O failure, a file that is not there among
//! them, is answered with 404.

use crate::body::{single, Body, BodyStream};
use crate::errors::{Error, ErrorKind};
use crate::handler::Handler;
use crate::request::Request;
use crate::responder::{BoxedResponse, Responder};
use crate::response::{with_header, with_status, Response, ResponseBuilder};
use std::marker::PhantomData;
use std::path::StripPrefixError;
use vstd::prelude::*;
use vstd::string::StringSliceAdditionalSpecFns;
use vstd::utf8::encode_utf8;

verus! {

/// `Path::strip_prefix` hands back an error of this type.
#[verifier::external_type_specification]
#[verifier::external_body]
pub struct ExStripPrefixError(StripPrefixError);

/// What is left of a path once a prefix is taken from its front, as
/// `std::path` sees it, or `None` where the path does not begin with the
/// prefix. Like the two names below, it follows the rules that `std::path`
/// has for paths on the platform that the library is built for.
pub uninterp spec fn path_without_prefix(path: Seq<char>, prefix: Seq<char>) -> Option<Seq<char>>;

/// `Path::strip_prefix`: a path without a prefix.
#[verifier::external_body]
fn strip_prefix(path: &str, prefix: &str) -> (out: Result<String, StripPrefixError>)
    ensures
        match out {
            Ok(rest) => path_without_prefix(path@, prefix@) == Some(rest@),
            Err(_) => path_without_prefix(path@, prefix@) is None,
        },
{
    match std::path::Path::new(path).strip_prefix(prefix) {
        Ok(rest) => Ok(rest.to_string_lossy().into_owned()),
        Err(error) => Err(error),
    }
}

/// The root directory, which the path of every request begins with.
pub open spec fn root_directory() -> Seq<char> {
    "/"@
}

/// What is left of the path of a request once the root directory is taken
/// from its front, or `None` where the path is not absolute.
pub open spec fn path_below_root(path: Seq<char>) -> Option<Seq<char>> {
    path_without_prefix(path, root_directory())
}

/// The path that `std::path` makes of a base and a path that is joined to
/// it.
pub uninterp spec fn path_joined(base: Seq<char>, path: Seq<char>) -> Seq<char>;

/// `Path::join`: a path joined to a base.
#[verifier::external_body]
fn join(base: &str, path: &str) -> (out: String)
    ensures
        out@ == path_joined(base@, path@),
{
    std::path::Path::new(base).join(path).to_string_lossy().into_owned()
}

/// Whether a path lies under a base, as `std::path` sees it: whether the
/// components of the base are the first components of the path.
pub uninterp spec fn path_within(path: Seq<char>, base: Seq<char>) -> bool;

/// `Path::starts_with`: whether a path lies under a base.
#[verifier::external_body]
fn is_within(path: &str, base: &str) -> (out: bool)
    ensures
        out == path_within(path@, base@),
{
    std::path::Path::new(path).starts_with(base)
}

/// The MIME type that the `mime_guess` crate guesses for a path, from its
/// extension.
pub uninterp spec fn guessed_mime_type(path: Seq<char>) -> Seq<char>;

/// `mime_guess::guess_mime_type`, written out as text: the MIME type that is
/// guessed for a path.
#[allow(deprecated)]
#[verifier::external_body]
fn mime_type(path: &str) -> (out: String)
    ensures
        out@ == guessed_mime_type(path@),
{
    format!("{}", mime_guess::guess_mime_type(path))
}

/// The failure that stands for a file that is not there.
pub open spec fn not_found() -> Error {
    Error { kind: ErrorKind::Io }
}

/// Whether `out` is what looking up the path of a request under a root
/// gives, where `canonicalize` resolves paths. The path is taken as relative
/// to the root and resolved; the outcome is the resolved path, if it lies
/// under the root; the failure to resolve it; or an I/O failure where the
/// path of the request is not absolute or the resolved path lies outside the
/// root.
pub open spec fn matches_file<C: Fn(String) -> Result<String, Error>>(
    root: Seq<char>,
    path: Seq<char>,
    canonicalize: C,
    out: Result<String, Error>,
) -> bool {
    match path_below_root(path) {
        None => out == Err::<String, Error>(not_found()),
        Some(relative) => exists|joined: String, resolved: Result<String, Error>|
            joined@ == path_joined(root, relative) && #[trigger] call_ensures(
                canonicalize,
                (joined,),
                resolved,
            ) && out == match resolved {
                Err(error) => Err::<String, Error>(error),
                Ok(file) => if path_within(file@, root) {
                    Ok::<String, Error>(file)
                } else {
                    Err::<String, Error>(not_found())
                },
            },
    }
}

/// Looks up the path of a request under a root. See [`matches_file`].
pub fn match_file<C: Fn(String) -> Result<String, Error>>(
    root: &str,
    path: &str,
    canonicalize: &C,
) -> (out: Result<String, Error>)
    requires
        forall|path: String| call_requires(*canonicalize, (path,)),
    ensures
        matches_file(root@, path@, *canonicalize, out),
        out matches Ok(file) ==> path_within(file@, root@),
{
    match strip_prefix(path, "/") {
        Err(_) => Err(Error::new(ErrorKind::Io)),
        Ok(relative) => {
            let joined = join(root, relative.as_str());
            let resolved = canonicalize(joined);
            let out = match resolved {
                Err(error) => Err(error),
                Ok(file) => {
                    if is_within(file.as_str(), root) {
                        Ok(file)
                    } else {
                        Err(Error::new(ErrorKind::Io))
                    }
                },
            };
            assert(joined@ == path_joined(root@, relative@) && call_ensures(
                *canonicalize,
                (joined,),
                resolved,
            ));
            out
        },
    }
}

/// The response that serves a file: the content as the body, and the MIME
/// type guessed for the path as the content type; or the failure to read the
/// file.
pub open spec fn serves_file(
    path: Seq<char>,
    resp: ResponseBuilder,
    content: Result<Vec<u8>, Error>,
    out: Result<Response<Vec<u8>>, Error>,
) -> bool {
    match content {
        Err(error) => out == Err::<Response<Vec<u8>>, Error>(error),
        Ok(bytes) => match with_header(
            resp@,
            "content-type"@,
            encode_utf8(guessed_mime_type(path)),
        ) {
            Ok(head) => out matches Ok(response) && response.head@ == head && response.body
                == bytes,
            Err(error) => out == Err::<Response<Vec<u8>>, Error>(error),
        },
    }
}

/// Makes the response that serves a file, given what reading the file gave.
pub fn serve_file(path: &str, resp: ResponseBuilder, content: Result<Vec<u8>, Error>) -> (out:
    Result<Response<Vec<u8>>, Error>)
    ensures
        serves_file(path@, resp, content, out),
{
    match content {
        Err(error) => Err(error),
        Ok(bytes) => {
            let mime = mime_type(path);
            resp.header("content-type", mime.as_str()).body(bytes)
        },
    }
}

/// The text of the body of the response that stands for a missing file.
pub open spec fn not_found_text() -> Seq<char> {
    "404 - not found"@
}

/// What becomes of a failure to serve a file: an I/O failure becomes a
/// response with status 404, and any other failure stays what it is.
pub open spec fn handles_io_errors(error: Error, out: Result<Response<String>, Error>) -> bool {
    if error.kind == ErrorKind::Io {
        out matches Ok(response) && response.head@ == crate::response::HeadView {
            status: 404,
            ..crate::response::initial_head()
        } && response.body@ == not_found_text()
    } else {
        out == Err::<Response<String>, Error>(error)
    }
}

/// Turns an I/O failure into a response with status 404, and hands any
/// other failure on.
pub fn handle_io_errors(error: Error) -> (out: Result<Response<String>, Error>)
    ensures
        handles_io_errors(error, out),
{
    if error.is_io() {
        ResponseBuilder::new().status(404).body("404 - not found".to_owned())
    } else {
        Err(error)
    }
}

/// Whether `out` is the outcome that a failure to serve a file ends in: what
/// the answer to the failure resolves to.
pub open spec fn recovers_from(error: Error, out: BoxedResponse) -> bool {
    exists|answer: Result<Response<String>, Error>| #[trigger]
        handles_io_errors(error, answer) && answer.resolves(out)
}

/// Whether `out` is an outcome of reading the file at `file` and serving what
/// was read.
pub open spec fn serves<R: Fn(String) -> Result<Vec<u8>, Error>>(
    read: R,
    file: String,
    resp: ResponseBuilder,
    out: BoxedResponse,
) -> bool {
    exists|content: Result<Vec<u8>, Error>, served: Result<Response<Vec<u8>>, Error>| #[trigger]
        call_ensures(read, (file,), content) && #[trigger] serves_file(
            file@,
            resp,
            content,
            served,
        ) && match served {
            Ok(_) => served.resolves(out),
            Err(error) => recovers_from(error, out),
        }
}

/// Whether `out` is an outcome of serving the path of a request from the
/// files under a root: the path is looked up under the root; the file that
/// was found is read and served; and a failure on the way is answered with
/// 404 if it is an I/O failure, and stays a failure if it is not.
pub open spec fn serves_under<C, R>(
    root: Seq<char>,
    canonicalize: C,
    read: R,
    path: Seq<char>,
    resp: ResponseBuilder,
    out: BoxedResponse,
) -> bool where C: Fn(String) -> Result<String, Error>, R: Fn(String) -> Result<Vec<u8>, Error> {
    exists|found: Result<String, Error>| #[trigger]
        matches_file(root, path, canonicalize, found) && match found {
            Err(error) => recovers_from(error, out),
            Ok(file) => serves(read, file, resp, out),
        }
}

/// Reads a file and serves it, and answers an I/O failure with 404.
fn serve<R: Fn(String) -> Result<Vec<u8>, Error>>(read: &R, file: String, resp: ResponseBuilder) -> (out:
    BoxedResponse)
    requires
        forall|path: String| call_requires(*read, (path,)),
    ensures
        serves(*read, file, resp, out),
{
    let content = read(file.clone());
    let served = serve_file(file.as_str(), resp, content);
    let out = match served {
        Ok(response) => Ok(response).into_response(),
        Err(error) => recover(error),
    };
    assert(call_ensures(*read, (file,), content) && serves_file(file@, resp, content, served));
    out
}

/// Answers a failure to serve a file.
fn recover(error: Error) -> (out: BoxedResponse)
    ensures
        recovers_from(error, out),
{
    let answer = handle_io_errors(error);
    let out = answer.into_response();
    assert(handles_io_errors(error, answer) && answer.resolves(out));
    out
}

/// A handler that serves the files under a root directory.
pub struct StaticFiles<C, R> where
    C: Fn(String) -> Result<String, Error>,
    R: Fn(String) -> Result<Vec<u8>, Error>,
 {
    root: String,
    canonicalize: C,
    read: R,
}

impl<C, R> StaticFiles<C, R> where
    C: Fn(String) -> Result<String, Error>,
    R: Fn(String) -> Result<Vec<u8>, Error>,
 {
    #[verifier::type_invariant]
    spec fn accepts_all(&self) -> bool {
        &&& forall|path: String| call_requires(self.canonicalize, (path,))
        &&& forall|path: String| call_requires(self.read, (path,))
    }

    /// The canonical path of the root directory.
    pub closed spec fn root(&self) -> Seq<char> {
        self.root@
    }

    /// The function that resolves a path to its canonical form.
    pub closed spec fn canonicalize(&self) -> C {
        self.canonicalize
    }

    /// The function that reads a file.
    pub closed spec fn read(&self) -> R {
        self.read
    }
}

/// Makes a handler that serves the files under a directory: a request for
/// `/path/to/file.html` is answered with the file `path/to/file.html` below
/// the directory. Every I/O failure, a missing file among them, is answered
/// with 404, and so is a path that leads out of the directory.
///
/// `canonicalize` resolves a path to its canonical form, and `read` reads a
/// file; both must accept every path. The directory is resolved once, here;
/// where that fails, the failure is returned.
pub fn static_files_handler<C, R>(root_path: &str, canonicalize: C, read: R) -> (out: Result<
    StaticFiles<C, R>,
    Error,
>) where C: Fn(String) -> Result<String, Error>, R: Fn(String) -> Result<Vec<u8>, Error>
    requires
        forall|path: String| call_requires(canonicalize, (path,)),
        forall|path: String| call_requires(read, (path,)),
    ensures
        exists|given: String, resolved: Result<String, Error>|
            given@ == root_path@ && #[trigger] call_ensures(canonicalize, (given,), resolved)
                && match resolved {
                Err(error) => out matches Err(failure) && failure == error,
                Ok(root) => out matches Ok(handler) && handler.root() == root@
                    && handler.canonicalize() == canonicalize && handler.read() == read,
            },
{
    let given = root_path.to_owned();
    let resolved = canonicalize(given);
    let out = match resolved {
        Err(error) => Err(error),
        Ok(root) => Ok(StaticFiles { root, canonicalize, read }),
    };
    assert(given@ == root_path@ && call_ensures(canonicalize, (given,), resolved));
    out
}

impl<C, R> Handler<()> for StaticFiles<C, R> where
    C: Fn(String) -> Result<String, Error> + Send + Sync + 'static,
    R: Fn(String) -> Result<Vec<u8>, Error> + Send + Sync + 'static,
 {
    type Resp = BoxedResponse;

    open spec fn responds(&self, req: Request<()>, resp: ResponseBuilder, out: BoxedResponse) -> bool {
        serves_under(
            self.root(),
            self.canonicalize(),
            self.read(),
            req.head.uri.path_view(),
            resp,
            out,
        )
    }

    fn handle(&self, req: Request<()>, resp: ResponseBuilder) -> (out: BoxedResponse) {
        proof {
            use_type_invariant(self);
        }
        let found = match_file(self.root.as_str(), req.uri().path(), &self.canonicalize);
        match found {
            Err(error) => recover(error),
            Ok(file) => serve(&self.read, file, resp),
        }
    }
}

/// A handler that serves one file, whatever the request.
pub struct StaticFile<R> where R: Fn(String) -> Result<Vec<u8>, Error> {
    path: String,
    read: R,
}

impl<R> StaticFile<R> where R: Fn(String) -> Result<Vec<u8>, Error> {
    #[verifier::type_invariant]
    spec fn accepts_all(&self) -> bool {
        forall|path: String| call_requires(self.read, (path,))
    }

    /// The path of the file.
    pub closed spec fn path(&self) -> String {
        self.path
    }

    /// The function that reads the file.
    pub closed spec fn read(&self) -> R {
        self.read
    }
}

/// Makes a handler that answers every request with the file at `path`.
/// Every I/O failure, a missing file among them, is answered with 404.
///
/// `read` reads a file; it must accept every path.
pub fn static_file_handler<R>(path: &str, read: R) -> (out: StaticFile<R>) where
    R: Fn(String) -> Result<Vec<u8>, Error>,

    requires
        forall|path: String| call_requires(read, (path,)),
    ensures
        out.path()@ == path@,
        out.read() == read,
{
    StaticFile { path: path.to_owned(), read }
}

impl<R> Handler<Vec<u8>> for StaticFile<R> where
    R: Fn(String) -> Result<Vec<u8>, Error> + Send + Sync + 'static,
 {
    type Resp = BoxedResponse;

    open spec fn responds(&self, req: Request<Vec<u8>>, resp: ResponseBuilder, out: BoxedResponse) -> bool {
        serves(self.read(), self.path(), resp, out)
    }

    fn handle(&self, req: Request<Vec<u8>>, resp: ResponseBuilder) -> (out: BoxedResponse) {
        proof {
            use_type_invariant(self);
        }
        serve(&self.read, self.path.clone(), resp)
    }
}

/// Whether an outcome is the response that stands for a missing file:
/// status 404, no headers, and the text that says so as the body.
pub open spec fn is_not_found(out: BoxedResponse) -> bool {
    out matches Ok(response) && response.head@ == crate::response::HeadView {
        status: 404,
        ..crate::response::initial_head()
    } && response.body@ == single(encode_utf8(not_found_text()))
}

/// An I/O failure is never handed on: it is answered with 404, and a
/// failure that is handed on is not an I/O failure.
pub proof fn lemma_recovers_from(error: Error, out: BoxedResponse)
    requires
        recovers_from(error, out),
    ensures
        error.kind == ErrorKind::Io ==> is_not_found(out),
        error.kind != ErrorKind::Io ==> out == Err::<Response<BodyStream>, Error>(error),
{
}

/// A request whose path leads out of the root is answered with 404: where
/// the path of the request is not absolute, or whatever it resolves to lies
/// outside the root, the outcome is the response that stands for a missing
/// file. No file is read for it.
pub proof fn lemma_outside_root_is_not_found<C, R>(
    root: Seq<char>,
    canonicalize: C,
    read: R,
    path: Seq<char>,
    resp: ResponseBuilder,
    out: BoxedResponse,
) where C: Fn(String) -> Result<String, Error>, R: Fn(String) -> Result<Vec<u8>, Error>
    requires
        serves_under(root, canonicalize, read, path, resp, out),
        path_below_root(path) matches Some(relative) ==> forall|
            joined: String,
            resolved: Result<String, Error>,
        |
            joined@ == path_joined(root, relative) && #[trigger] call_ensures(
                canonicalize,
                (joined,),
                resolved,
            ) ==> (resolved matches Ok(file) && !path_within(file@, root)),
    ensures
        is_not_found(out),
{
    let found = choose|found: Result<String, Error>| #[trigger]
        matches_file(root, path, canonicalize, found) && match found {
            Err(error) => recovers_from(error, out),
            Ok(file) => serves(read, file, resp, out),
        };
    assert(found == Err::<String, Error>(not_found()));
    lemma_recovers_from(not_found(), out);
}

/// Only files under the root are read: an outcome of serving a request is
/// the answer to a failure of the lookup, or an outcome of reading and
/// serving a file whose canonical path lies under the root.
pub proof fn lemma_serves_within_root<C, R>(
    root: Seq<char>,
    canonicalize: C,
    read: R,
    path: Seq<char>,
    resp: ResponseBuilder,
    out: BoxedResponse,
) where C: Fn(String) -> Result<String, Error>, R: Fn(String) -> Result<Vec<u8>, Error>
    requires
        serves_under(root, canonicalize, read, path, resp, out),
    ensures
        (exists|error: Error| recovers_from(error, out)) || (exists|file: String|
            path_within(file@, root) && #[trigger] serves(read, file, resp, out)),
{
    let found = choose|found: Result<String, Error>| #[trigger]
        matches_file(root, path, canonicalize, found) && match found {
            Err(error) => recovers_from(error, out),
            Ok(file) => serves(read, file, resp, out),
        };
    match found {
        Err(error) => {
            assert(recovers_from(error, out));
        },
        Ok(file) => {
            assert(path_within(file@, root) && serves(read, file, resp, out));
        },
    }
}

/// No I/O failure leaves the handler: where serving a request ends in a
/// failure, it is not an I/O failure.
pub proof fn lemma_io_failures_are_answered<C, R>(
    root: Seq<char>,
    canonicalize: C,
    read: R,
    path: Seq<char>,
    resp: ResponseBuilder,
    out: BoxedResponse,
) where C: Fn(String) -> Result<String, Error>, R: Fn(String) -> Result<Vec<u8>, Error>
    requires
        serves_under(root, canonicalize, read, path, resp, out),
    ensures
        out matches Err(error) ==> error.kind != ErrorKind::Io,
{
    let found = choose|found: Result<String, Error>| #[trigger]
        matches_file(root, path, canonicalize, found) && match found {
            Err(error) => recovers_from(error, out),
            Ok(file) => serves(read, file, resp, out),
        };
    match found {
        Err(error) => {
            lemma_recovers_from(error, out);
        },
        Ok(file) => {
            let (content, served) = choose|
                content: Result<Vec<u8>, Error>,
                served: Result<Response<Vec<u8>>, Error>,
            | #[trigger]
                call_ensures(read, (file,), content) && #[trigger] serves_file(
                    file@,
                    resp,
                    content,
                    served,
                ) && match served {
                    Ok(_) => served.resolves(out),
                    Err(error) => recovers_from(error, out),
                };
            match served {
                Ok(_) => {},
                Err(error) => {
                    lemma_recovers_from(error, out);
                },
            }
        },
    }
}

} // verus!

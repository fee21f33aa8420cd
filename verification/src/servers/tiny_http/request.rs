//! From what the engine has read to a request.

use crate::body::{single, BodyStream};
use crate::buffer::bytes_from_vec;
use crate::errors::{Error, ErrorKind};
use crate::header::{appended_text, HeaderMap};
use crate::method::{is_method_named, is_method_token, Method, Version};
use crate::request::{Request, RequestHead};
use crate::uri::{http_uri_path, Uri};
use vstd::prelude::*;
use vstd::string::StringSliceAdditionalSpecFns;
use vstd::utf8::encode_utf8;

verus! {

/// The method of a request as the engine has read it.
pub enum RawMethod {
    Get,
    Head,
    Post,
    Put,
    Delete,
    Connect,
    Options,
    Trace,
    Patch,
    /// A method that HTTP does not define, by its name.
    NonStandard(String),
}

/// One header as the engine has read it.
pub struct RawField {
    pub field: String,
    pub value: String,
}

/// A request as the engine has read it: the method, the target, the version
/// as its two numbers, the headers, and the whole body.
pub struct RawRequest {
    pub method: RawMethod,
    pub url: String,
    pub http_version: (u8, u8),
    pub headers: Vec<RawField>,
    pub body: Vec<u8>,
}

/// Whether `out` is the method that stands for a method of the engine: its
/// namesake, for a method that HTTP defines, and for another the method of
/// its name, or an error of kind `InvalidMethod` where its name is the name of
/// no method.
pub open spec fn maps_method(method: RawMethod, out: Result<Method, Error>) -> bool {
    match method {
        RawMethod::Get => out == Ok::<Method, Error>(Method::Get),
        RawMethod::Head => out == Ok::<Method, Error>(Method::Head),
        RawMethod::Post => out == Ok::<Method, Error>(Method::Post),
        RawMethod::Put => out == Ok::<Method, Error>(Method::Put),
        RawMethod::Delete => out == Ok::<Method, Error>(Method::Delete),
        RawMethod::Connect => out == Ok::<Method, Error>(Method::Connect),
        RawMethod::Options => out == Ok::<Method, Error>(Method::Options),
        RawMethod::Trace => out == Ok::<Method, Error>(Method::Trace),
        RawMethod::Patch => out == Ok::<Method, Error>(Method::Patch),
        RawMethod::NonStandard(text) => if is_method_token(text@) {
            out matches Ok(method) && is_method_named(method, text@)
        } else {
            out == Err::<Method, Error>(Error { kind: ErrorKind::InvalidMethod })
        },
    }
}

/// The method that stands for a method of the engine.
pub fn map_method(method: &RawMethod) -> (out: Result<Method, Error>)
    ensures
        maps_method(*method, out),
{
    match method {
        RawMethod::Get => Ok(Method::Get),
        RawMethod::Head => Ok(Method::Head),
        RawMethod::Post => Ok(Method::Post),
        RawMethod::Put => Ok(Method::Put),
        RawMethod::Delete => Ok(Method::Delete),
        RawMethod::Connect => Ok(Method::Connect),
        RawMethod::Options => Ok(Method::Options),
        RawMethod::Trace => Ok(Method::Trace),
        RawMethod::Patch => Ok(Method::Patch),
        RawMethod::NonStandard(text) => Method::parse(text.as_str()),
    }
}

/// The version that two numbers stand for, if they stand for one.
pub open spec fn version_of(major: u8, minor: u8) -> Option<Version> {
    if major == 0 && minor == 9 {
        Some(Version::Http09)
    } else if major == 1 && minor == 0 {
        Some(Version::Http10)
    } else if major == 1 && minor == 1 {
        Some(Version::Http11)
    } else if major == 2 && minor == 0 {
        Some(Version::H2)
    } else {
        None
    }
}

/// The version that the two numbers of the engine stand for, or an error of
/// kind `UnsupportedVersion` where they stand for none.
pub fn map_version(version: (u8, u8)) -> (out: Result<Version, Error>)
    ensures
        match version_of(version.0, version.1) {
            Some(known) => out == Ok::<Version, Error>(known),
            None => out == Err::<Version, Error>(Error { kind: ErrorKind::UnsupportedVersion }),
        },
{
    let (major, minor) = version;
    if major == 0 && minor == 9 {
        Ok(Version::Http09)
    } else if major == 1 && minor == 0 {
        Ok(Version::Http10)
    } else if major == 1 && minor == 1 {
        Ok(Version::Http11)
    } else if major == 2 && minor == 0 {
        Ok(Version::H2)
    } else {
        Err(Error::new(ErrorKind::UnsupportedVersion))
    }
}

/// The headers of the engine as plain values.
pub open spec fn fields_view(fields: Seq<RawField>) -> Seq<(Seq<char>, Seq<u8>)> {
    Seq::new(fields.len(), |i: int| (fields[i].field@, encode_utf8(fields[i].value@)))
}

/// What adding headers one after the other to `before` gives: the kind of
/// the first failure, or the headers of `before` followed by all of them.
pub open spec fn appended_all(
    before: Seq<(Seq<char>, Seq<u8>)>,
    fields: Seq<(Seq<char>, Seq<u8>)>,
) -> Result<Seq<(Seq<char>, Seq<u8>)>, ErrorKind>
    decreases fields.len(),
{
    if fields.len() == 0 {
        Ok(before)
    } else {
        match appended_all(before, fields.drop_last()) {
            Err(kind) => Err(kind),
            Ok(headers) => appended_text(headers, fields.last().0, fields.last().1),
        }
    }
}

/// Adds one header of the engine to the headers of a request. Its value
/// must be visible text.
pub fn map_header(headers: HeaderMap, header: &RawField) -> (out: Result<HeaderMap, Error>)
    ensures
        match out {
            Ok(more) => appended_text(headers@, header.field@, encode_utf8(header.value@))
                == Ok::<Seq<(Seq<char>, Seq<u8>)>, ErrorKind>(more@),
            Err(error) => appended_text(headers@, header.field@, encode_utf8(header.value@))
                == Err::<Seq<(Seq<char>, Seq<u8>)>, ErrorKind>(error.kind),
        },
{
    headers.append_text(header.field.as_str(), header.value.as_str())
}

/// The body that the engine has read, as a stream of one chunk.
pub fn read_body(body: Vec<u8>) -> (out: BodyStream)
    ensures
        out@ == single(body@),
{
    BodyStream::once(bytes_from_vec(body))
}

/// Whether `out` is what making a request of `raw` gives: the first failure
/// among the method, the target, the version and the headers, taken in that
/// order; and else the request with all of them and with the body as a stream
/// of one chunk.
pub open spec fn converts_request(raw: RawRequest, out: Result<Request<BodyStream>, Error>) -> bool {
    exists|method: Result<Method, Error>| #[trigger]
        maps_method(raw.method, method) && match method {
            Err(error) => out == Err::<Request<BodyStream>, Error>(error),
            Ok(method) => match http_uri_path(raw.url@) {
                None => out == Err::<Request<BodyStream>, Error>(
                    Error { kind: ErrorKind::InvalidUri },
                ),
                Some(path) => match version_of(raw.http_version.0, raw.http_version.1) {
                    None => out == Err::<Request<BodyStream>, Error>(
                        Error { kind: ErrorKind::UnsupportedVersion },
                    ),
                    Some(version) => match appended_all(
                        Seq::empty(),
                        fields_view(raw.headers@),
                    ) {
                        Err(kind) => out == Err::<Request<BodyStream>, Error>(Error { kind }),
                        Ok(headers) => out matches Ok(req) && req.head.method == method
                            && req.head.uri.text_view() == raw.url@ && req.head.uri.path_view()
                            == path && req.head.version == version && req.head.headers@ == headers
                            && req.body@ == single(raw.body@),
                    },
                },
            },
        }
}

/// Makes a request of what the engine has read.
pub fn as_http_request(raw: RawRequest) -> (out: Result<Request<BodyStream>, Error>)
    ensures
        converts_request(raw, out),
{
    let mapped = map_method(&raw.method);
    let method = match mapped {
        Ok(method) => method,
        Err(error) => {
            return Err(error);
        },
    };
    let uri = match Uri::parse(raw.url.as_str()) {
        Ok(uri) => uri,
        Err(error) => {
            return Err(error);
        },
    };
    let version = match map_version(raw.http_version) {
        Ok(version) => version,
        Err(error) => {
            return Err(error);
        },
    };
    let mut headers = HeaderMap::new();
    let mut i: usize = 0;
    assert(fields_view(raw.headers@).take(0) =~= Seq::empty());
    while i < raw.headers.len()
        invariant
            i <= raw.headers@.len(),
            appended_all(Seq::empty(), fields_view(raw.headers@).take(i as int)) == Ok::<
                Seq<(Seq<char>, Seq<u8>)>,
                ErrorKind,
            >(headers@),
            maps_method(raw.method, mapped),
            mapped is Ok,
            http_uri_path(raw.url@) is Some,
            version_of(raw.http_version.0, raw.http_version.1) is Some,
        decreases raw.headers@.len() - i,
    {
        let ghost fields = fields_view(raw.headers@);
        assert(fields.take(i + 1).drop_last() =~= fields.take(i as int));
        assert(fields.take(i + 1).last() == fields[i as int]);
        match map_header(headers, &raw.headers[i]) {
            Ok(more) => {
                assert(appended_all(Seq::empty(), fields.take(i + 1)) == Ok::<
                    Seq<(Seq<char>, Seq<u8>)>,
                    ErrorKind,
                >(more@));
                headers = more;
            },
            Err(error) => {
                proof {
                    assert(appended_all(Seq::empty(), fields.take(i + 1)) == Err::<
                        Seq<(Seq<char>, Seq<u8>)>,
                        ErrorKind,
                    >(error.kind));
                    lemma_appended_all_fails(Seq::empty(), fields, i as int);
                    assert(maps_method(raw.method, mapped));
                }
                return Err(error);
            },
        }
        i = i + 1;
    }
    assert(fields_view(raw.headers@).take(i as int) =~= fields_view(raw.headers@));
    let body = read_body(raw.body);
    let head = RequestHead { method, uri, version, headers };
    Ok(Request::from_parts(head, body))
}

/// Once adding the first `at + 1` headers fails, adding all of them fails in
/// the same way.
pub proof fn lemma_appended_all_fails(
    before: Seq<(Seq<char>, Seq<u8>)>,
    fields: Seq<(Seq<char>, Seq<u8>)>,
    at: int,
)
    requires
        0 <= at < fields.len(),
        appended_all(before, fields.take(at + 1)) is Err,
    ensures
        appended_all(before, fields) == appended_all(before, fields.take(at + 1)),
    decreases fields.len() - at,
{
    if at + 1 == fields.len() {
        assert(fields.take(at + 1) =~= fields);
    } else {
        assert(fields.take(at + 2).drop_last() =~= fields.take(at + 1));
        lemma_appended_all_fails(before, fields, at + 1);
    }
}

} // verus!

use aitch::servers::tiny_http::process_request;
use aitch::servers::tiny_http::request::{
    as_http_request, map_method, map_version, RawField, RawMethod, RawRequest,
};
use aitch::servers::tiny_http::response::as_tiny_http_response;
use aitch::{
    handler_fn, Body, BodyStream, Error, ErrorKind, Method, Request, Response, ResponseBuilder,
    Version,
};

fn raw(method: RawMethod, url: &str, body: &str) -> RawRequest {
    RawRequest {
        method,
        url: url.to_owned(),
        http_version: (1, 1),
        headers: Vec::new(),
        body: body.as_bytes().to_vec(),
    }
}

fn field(name: &str, value: &str) -> RawField {
    RawField { field: name.to_owned(), value: value.to_owned() }
}

#[test]
fn tiny_http_echo_server() {
    let handler =
        handler_fn(|req: Request<String>, resp: ResponseBuilder| resp.body(req.into_body()));

    let resp = process_request::<String, _>(&handler, raw(RawMethod::Post, "/", "some body"));
    assert_eq!(resp.status_code, 200);

    let body = String::from_utf8(resp.body.to_vec()).unwrap();
    assert_eq!(body, "some body");
}

#[test]
fn standard_methods_map_to_their_namesakes() {
    assert_eq!(map_method(&RawMethod::Get), Ok(Method::Get));
    assert_eq!(map_method(&RawMethod::Head), Ok(Method::Head));
    assert_eq!(map_method(&RawMethod::Post), Ok(Method::Post));
    assert_eq!(map_method(&RawMethod::Put), Ok(Method::Put));
    assert_eq!(map_method(&RawMethod::Delete), Ok(Method::Delete));
    assert_eq!(map_method(&RawMethod::Connect), Ok(Method::Connect));
    assert_eq!(map_method(&RawMethod::Options), Ok(Method::Options));
    assert_eq!(map_method(&RawMethod::Trace), Ok(Method::Trace));
    assert_eq!(map_method(&RawMethod::Patch), Ok(Method::Patch));
}

#[test]
fn non_standard_methods_are_parsed() {
    assert_eq!(
        map_method(&RawMethod::NonStandard("PURGE".to_owned())),
        Ok(Method::Extension("PURGE".to_owned()))
    );
    assert_eq!(map_method(&RawMethod::NonStandard("GET".to_owned())), Ok(Method::Get));
    assert_eq!(
        map_method(&RawMethod::NonStandard("bad method".to_owned())),
        Err(Error { kind: ErrorKind::InvalidMethod })
    );
    assert_eq!(
        map_method(&RawMethod::NonStandard(String::new())),
        Err(Error { kind: ErrorKind::InvalidMethod })
    );
}

#[test]
fn versions_map_by_their_numbers() {
    assert_eq!(map_version((0, 9)), Ok(Version::Http09));
    assert_eq!(map_version((1, 0)), Ok(Version::Http10));
    assert_eq!(map_version((1, 1)), Ok(Version::Http11));
    assert_eq!(map_version((2, 0)), Ok(Version::H2));
    assert_eq!(map_version((3, 0)), Err(Error { kind: ErrorKind::UnsupportedVersion }));
    assert_eq!(map_version((1, 2)), Err(Error { kind: ErrorKind::UnsupportedVersion }));
}

#[test]
fn request_keeps_all_parts() {
    let mut request = raw(RawMethod::Put, "/files/a.txt?overwrite=1", "content");
    request.http_version = (1, 0);
    request.headers.push(field("Content-Type", "text/plain"));
    request.headers.push(field("X-Custom", "one"));
    request.headers.push(field("x-custom", "two"));

    let req = as_http_request(request).unwrap();
    assert_eq!(req.method(), &Method::Put);
    assert_eq!(req.uri().as_str(), "/files/a.txt?overwrite=1");
    assert_eq!(req.uri().path(), "/files/a.txt");
    assert_eq!(req.version(), Version::Http10);
    assert_eq!(req.headers().len(), 3);
    assert_eq!(req.headers().name_at(0), "content-type");
    assert_eq!(req.headers().value_at(0), b"text/plain");
    assert_eq!(req.headers().name_at(1), "x-custom");
    assert_eq!(req.headers().value_at(1), b"one");
    assert_eq!(req.headers().name_at(2), "x-custom");
    assert_eq!(req.headers().value_at(2), b"two");
    assert_eq!(Vec::<u8>::from_stream(req.into_body()), Ok(b"content".to_vec()));
}

#[test]
fn request_fails_with_the_first_failure() {
    let mut request = raw(RawMethod::NonStandard("bad method".to_owned()), "/ /", "");
    request.http_version = (9, 9);
    request.headers.push(field("bad name", "value"));
    assert_eq!(as_http_request(request).err(), Some(Error { kind: ErrorKind::InvalidMethod }));

    let mut request = raw(RawMethod::Get, "/ /", "");
    request.http_version = (9, 9);
    request.headers.push(field("bad name", "value"));
    assert_eq!(as_http_request(request).err(), Some(Error { kind: ErrorKind::InvalidUri }));

    let mut request = raw(RawMethod::Get, "/", "");
    request.http_version = (9, 9);
    request.headers.push(field("bad name", "value"));
    assert_eq!(
        as_http_request(request).err(),
        Some(Error { kind: ErrorKind::UnsupportedVersion })
    );

    let mut request = raw(RawMethod::Get, "/", "");
    request.headers.push(field("good-name", "bad\nvalue"));
    request.headers.push(field("bad name", "value"));
    assert_eq!(
        as_http_request(request).err(),
        Some(Error { kind: ErrorKind::InvalidHeaderValue })
    );

    let mut request = raw(RawMethod::Get, "/", "");
    request.headers.push(field("bad name", "bad\nvalue"));
    assert_eq!(
        as_http_request(request).err(),
        Some(Error { kind: ErrorKind::InvalidHeaderName })
    );
}

#[test]
fn response_is_drained_for_the_engine() {
    let mut chunks = "first ".to_owned().into_stream().chunks;
    chunks.extend("second".to_owned().into_stream().chunks);
    let resp: Response<BodyStream> = ResponseBuilder::new()
        .status(201)
        .header("Content-Type", "text/plain")
        .header("X-Test", "yes")
        .body(BodyStream::from_chunks(chunks))
        .unwrap();

    let raw = as_tiny_http_response(resp).ok().unwrap();
    assert_eq!(raw.status_code, 201);
    assert_eq!(raw.headers.len(), 2);
    assert_eq!(raw.headers[0].name, b"content-type".to_vec());
    assert_eq!(raw.headers[0].value, b"text/plain".to_vec());
    assert_eq!(raw.headers[1].name, b"x-test".to_vec());
    assert_eq!(raw.headers[1].value, b"yes".to_vec());
    assert_eq!(raw.body.to_vec(), b"first second".to_vec());
}

#[test]
fn response_with_a_failed_body_fails() {
    let mut chunks = "first".to_owned().into_stream().chunks;
    chunks.push(Err(Error::new(ErrorKind::Transport)));
    chunks.push(Err(Error::new(ErrorKind::Io)));
    let resp: Response<BodyStream> =
        ResponseBuilder::new().body(BodyStream::from_chunks(chunks)).unwrap();

    assert_eq!(as_tiny_http_response(resp).err(), Some(Error { kind: ErrorKind::Transport }));
}

fn is_internal_server_error(resp: &aitch::servers::tiny_http::response::RawResponse) -> bool {
    resp.status_code == 500 && resp.headers.is_empty() && resp.body.is_empty()
}

#[test]
fn failures_of_processing_are_answered_with_500() {
    let handler = handler_fn(|req: Request<String>, resp: ResponseBuilder| {
        if req.body() == "fail" {
            Err(Error::new(ErrorKind::Handler))
        } else if req.body() == "stream" {
            let mut chunks = "sent".to_owned().into_stream().chunks;
            chunks.push(Err(Error::new(ErrorKind::Transport)));
            resp.header("X-Seen", "yes").body(BodyStream::from_chunks(chunks))
        } else {
            resp.header("X-Seen", "yes").body(req.into_body().into_stream())
        }
    });

    let good = raw(RawMethod::Post, "/", "fine");
    let resp = process_request::<String, _>(&handler, good);
    assert_eq!(resp.status_code, 200);
    assert_eq!(resp.headers.len(), 1);
    assert_eq!(resp.body.to_vec(), b"fine".to_vec());

    // The body is not what the handler takes.
    let mut bad = raw(RawMethod::Post, "/", "");
    bad.body = vec![0xff];
    assert!(is_internal_server_error(&process_request::<String, _>(&handler, bad)));

    // No request can be made of what was read.
    let bad = raw(RawMethod::Post, "/ /", "");
    assert!(is_internal_server_error(&process_request::<String, _>(&handler, bad)));
    let mut bad = raw(RawMethod::Post, "/", "");
    bad.http_version = (7, 0);
    assert!(is_internal_server_error(&process_request::<String, _>(&handler, bad)));

    // The handler fails.
    let bad = raw(RawMethod::Post, "/", "fail");
    assert!(is_internal_server_error(&process_request::<String, _>(&handler, bad)));

    // The body of the response fails to drain.
    let bad = raw(RawMethod::Post, "/", "stream");
    assert!(is_internal_server_error(&process_request::<String, _>(&handler, bad)));
}

#[test]
fn raw_internal_server_error_is_empty() {
    assert!(is_internal_server_error(&aitch::servers::tiny_http::internal_server_error()));
    let out = aitch::servers::tiny_http::or_internal_server_error(Err(Error::new(ErrorKind::Io)));
    assert!(is_internal_server_error(&out));
    let resp: Response<BodyStream> =
        ResponseBuilder::new().status(204).body(().into_stream()).unwrap();
    let out = aitch::servers::tiny_http::or_internal_server_error(as_tiny_http_response(resp));
    assert_eq!(out.status_code, 204);
}

#[test]
fn response_with_a_header_that_the_engine_cannot_write_fails() {
    let headers = aitch::HeaderMap::new()
        .append("X-Fine", b"yes")
        .ok()
        .unwrap()
        .append("X-Raw", &[200])
        .ok()
        .unwrap();
    let head = aitch::ResponseHead {
        status: aitch::StatusCode::ok(),
        version: Version::Http11,
        headers,
    };
    let resp = Response::from_parts(head, "body".to_owned().into_stream());
    assert_eq!(
        as_tiny_http_response(resp).err(),
        Some(Error { kind: ErrorKind::InvalidHeaderValue })
    );

    // The header is refused before the body is drained.
    let headers = aitch::HeaderMap::new().append("X-Raw", "caf\u{e9}".as_bytes()).ok().unwrap();
    let head = aitch::ResponseHead {
        status: aitch::StatusCode::ok(),
        version: Version::Http11,
        headers,
    };
    let body = BodyStream::from_chunks(vec![Err(Error::new(ErrorKind::Transport))]);
    assert_eq!(
        as_tiny_http_response(Response::from_parts(head, body)).err(),
        Some(Error { kind: ErrorKind::InvalidHeaderValue })
    );
}

#[test]
fn a_header_that_the_engine_cannot_write_is_answered_with_500() {
    let handler = handler_fn(|req: Request<BodyStream>, _: ResponseBuilder| {
        let headers = aitch::HeaderMap::new().append("X-Raw", &[200])?;
        let head = aitch::ResponseHead {
            status: aitch::StatusCode::ok(),
            version: Version::Http11,
            headers,
        };
        Ok::<Response<BodyStream>, Error>(Response::from_parts(head, req.into_body()))
    });
    let resp = process_request::<BodyStream, _>(&handler, raw(RawMethod::Get, "/", "x"));
    assert!(is_internal_server_error(&resp));
}

#[test]
fn request_headers_must_be_visible_text() {
    let mut request = raw(RawMethod::Get, "/", "");
    request.headers.push(field("X-Name", "caf\u{e9}"));
    assert_eq!(
        as_http_request(request).err(),
        Some(Error { kind: ErrorKind::InvalidHeaderValue })
    );
    let mut request = raw(RawMethod::Get, "/", "");
    request.headers.push(field("X-Name", "tab\tand space"));
    assert_eq!(as_http_request(request).ok().unwrap().headers().len(), 1);
}

#[test]
fn a_request_that_was_not_read_is_answered_with_500() {
    let handler =
        handler_fn(|req: Request<String>, resp: ResponseBuilder| resp.body(req.into_body()));
    let out = aitch::servers::tiny_http::process_read::<String, _>(
        &handler,
        Err(Error::new(ErrorKind::Io)),
    );
    assert!(is_internal_server_error(&out));
    let out = aitch::servers::tiny_http::process_read::<String, _>(
        &handler,
        Ok(raw(RawMethod::Post, "/", "read")),
    );
    assert_eq!(out.status_code, 200);
    assert_eq!(out.body.to_vec(), b"read".to_vec());
}

use aitch::{empty_body, into_body, Body, BodyStream, Error, ErrorKind, Json};
use bytes::Bytes;

fn stream_of(chunks: Vec<Result<&[u8], ErrorKind>>) -> BodyStream {
    BodyStream::from_chunks(
        chunks
            .into_iter()
            .map(|chunk| match chunk {
                Ok(bytes) => Ok(Bytes::from(bytes.to_vec())),
                Err(kind) => Err(Error::new(kind)),
            })
            .collect(),
    )
}

fn chunks_of(stream: BodyStream) -> Vec<Result<Vec<u8>, Error>> {
    stream.chunks.into_iter().map(|chunk| chunk.map(|bytes| bytes.to_vec())).collect()
}

#[test]
fn vec_round_trip() {
    for body in [vec![], vec![0u8], vec![1, 2, 3, 0, 255], vec![0xff; 1000]] {
        let back: Result<Vec<u8>, Error> = into_body(body.clone());
        assert_eq!(back, Ok(body));
    }
}

#[test]
fn bytes_round_trip() {
    let body = Bytes::from(vec![9u8, 8, 7]);
    let back: Result<Bytes, Error> = into_body(body.clone());
    assert_eq!(back, Ok(body));
}

#[test]
fn text_round_trip() {
    for body in ["", "some body", "gr\u{fc}\u{df}e \u{2603} \u{1f600}"] {
        let back: Result<String, Error> = into_body(body.to_owned());
        assert_eq!(back, Ok(body.to_owned()));
    }
}

#[test]
fn text_is_written_as_utf8() {
    let stream = "\u{e9}".to_owned().into_stream();
    assert_eq!(chunks_of(stream), vec![Ok(vec![0xc3, 0xa9])]);
}

#[test]
fn text_rejects_invalid_utf8() {
    for body in [vec![0xffu8, 0xfe], vec![b'a', 0xc3], vec![0xed, 0xa0, 0x80]] {
        let back: Result<String, Error> = Body::from_stream(body.into_stream());
        assert_eq!(back, Err(Error { kind: ErrorKind::Utf8 }));
    }
}

#[test]
fn text_that_is_split_between_chunks_is_read_whole() {
    let stream = stream_of(vec![Ok(&[b'a', 0xc3]), Ok(&[0xa9, b'b'])]);
    assert_eq!(String::from_stream(stream), Ok("a\u{e9}b".to_owned()));
}

#[test]
fn unit_is_read_by_draining_the_stream() {
    let stream = stream_of(vec![Ok(b"dropped"), Ok(b"bytes")]);
    assert_eq!(<() as Body>::from_stream(stream), Ok(()));
    assert_eq!(<() as Body>::from_stream(stream_of(vec![])), Ok(()));
    let stream = stream_of(vec![Ok(b"dropped"), Err(ErrorKind::Io), Err(ErrorKind::Transport)]);
    assert_eq!(<() as Body>::from_stream(stream), Err(Error { kind: ErrorKind::Io }));
}

#[test]
fn unit_is_written_as_one_empty_chunk() {
    assert_eq!(chunks_of(().into_stream()), vec![Ok(Vec::new())]);
    assert_eq!(chunks_of(empty_body()), vec![Ok(Vec::new())]);
}

#[test]
fn stream_is_handed_on() {
    let stream = stream_of(vec![Ok(b"a"), Err(ErrorKind::Transport), Ok(b"b")]);
    let back = BodyStream::from_stream(stream).ok().unwrap();
    assert_eq!(
        chunks_of(back.into_stream()),
        vec![Ok(b"a".to_vec()), Err(Error { kind: ErrorKind::Transport }), Ok(b"b".to_vec())]
    );
}

#[test]
fn draining_joins_the_chunks_in_order() {
    let stream = stream_of(vec![Ok(b"ab"), Ok(b""), Ok(b"cd"), Ok(b"e")]);
    assert_eq!(stream.concat2().map(|bytes| bytes.to_vec()), Ok(b"abcde".to_vec()));
    assert_eq!(stream_of(vec![]).concat2().map(|bytes| bytes.to_vec()), Ok(Vec::new()));
    assert_eq!(
        BodyStream::once(Bytes::from(vec![7u8])).concat2().map(|bytes| bytes.to_vec()),
        Ok(vec![7])
    );
}

#[test]
fn draining_fails_with_the_first_failure() {
    let stream = stream_of(vec![Ok(b"ab"), Err(ErrorKind::Transport), Ok(b"cd"), Err(ErrorKind::Io)]);
    assert_eq!(Vec::<u8>::from_stream(stream), Err(Error { kind: ErrorKind::Transport }));
    let stream = stream_of(vec![Err(ErrorKind::Io), Err(ErrorKind::Transport)]);
    assert_eq!(String::from_stream(stream), Err(Error { kind: ErrorKind::Io }));
    let stream = stream_of(vec![Ok(b"{}"), Err(ErrorKind::Transport)]);
    assert_eq!(
        Json::<serde_json::Value>::from_stream(stream).err(),
        Some(Error { kind: ErrorKind::Transport })
    );
    let stream = stream_of(vec![Ok(b"x"), Err(ErrorKind::Transport)]);
    assert_eq!(Bytes::from_stream(stream), Err(Error { kind: ErrorKind::Transport }));
}

#[test]
fn bodies_convert_through_the_stream() {
    let text: Result<String, Error> = into_body(b"plain".to_vec());
    assert_eq!(text, Ok("plain".to_owned()));
    let bytes: Result<Vec<u8>, Error> = into_body("plain".to_owned());
    assert_eq!(bytes, Ok(b"plain".to_vec()));
    let unit: Result<(), Error> = into_body("dropped".to_owned());
    assert_eq!(unit, Ok(()));
    let empty: Result<Vec<u8>, Error> = into_body(());
    assert_eq!(empty, Ok(Vec::new()));
    let bad: Result<String, Error> = into_body(vec![0x80u8]);
    assert_eq!(bad, Err(Error { kind: ErrorKind::Utf8 }));
}

#[test]
fn json_round_trip() {
    let mut object = serde_json::Map::new();
    object.insert("message".to_owned(), serde_json::Value::String("some message".to_owned()));
    object.insert("count".to_owned(), serde_json::Value::from(3));
    object.insert(
        "list".to_owned(),
        serde_json::Value::Array(vec![serde_json::Value::Null, serde_json::Value::Bool(true)]),
    );
    let value = serde_json::Value::Object(object);

    let back: Result<Json<serde_json::Value>, Error> = into_body(Json(value.clone()));
    assert_eq!(back.ok().unwrap().json(), value);
}

#[test]
fn json_is_written_as_one_chunk_of_text() {
    let value = serde_json::Value::Array(vec![serde_json::Value::from(1), serde_json::Value::Null]);
    assert_eq!(chunks_of(Json(value).into_stream()), vec![Ok(b"[1,null]".to_vec())]);
}

#[test]
fn json_rejects_what_is_no_json() {
    for body in ["", "{", "{\"message\": }", "nul"] {
        let back = Json::<serde_json::Value>::from_stream(body.to_owned().into_stream());
        assert_eq!(back.err(), Some(Error { kind: ErrorKind::Json }));
    }
}

#[test]
fn json_outcomes_follow_the_parser_and_the_writer() {
    assert_eq!(Json::from_parsed(Some(5u8)).ok().unwrap().json(), 5);
    assert_eq!(Json::<u8>::from_parsed(None).err(), Some(Error { kind: ErrorKind::Json }));
    assert_eq!(chunks_of(Json::<u8>::stream_of(Some(b"5".to_vec()))), vec![Ok(b"5".to_vec())]);
    assert_eq!(
        chunks_of(Json::<u8>::stream_of(None)),
        vec![Err(Error { kind: ErrorKind::Json })]
    );
}

#[test]
fn errors_describe_themselves() {
    assert_eq!(Error::new(ErrorKind::Io).description(), "i/o failure");
    assert_eq!(Error::new(ErrorKind::Utf8).description(), "body is not valid UTF-8");
    assert_eq!(Error::new(ErrorKind::Json).description(), "body is not valid JSON");
    assert_eq!(Error::new(ErrorKind::InvalidStatusCode).description(), "invalid status code");
    assert_eq!(Error::new(ErrorKind::InvalidHeaderName).description(), "invalid header name");
    assert_eq!(Error::new(ErrorKind::InvalidHeaderValue).description(), "invalid header value");
    assert_eq!(Error::new(ErrorKind::InvalidMethod).description(), "invalid method");
    assert_eq!(Error::new(ErrorKind::InvalidUri).description(), "invalid uri");
    assert_eq!(
        Error::new(ErrorKind::UnsupportedVersion).description(),
        "unsupported protocol version"
    );
    assert_eq!(Error::new(ErrorKind::Transport).description(), "transport failure");
    assert_eq!(Error::new(ErrorKind::Handler).description(), "handler failed");
    assert_eq!(Error::new(ErrorKind::Json).kind(), ErrorKind::Json);
    assert!(Error::new(ErrorKind::Io).is_io());
    assert!(!Error::new(ErrorKind::Transport).is_io());
}

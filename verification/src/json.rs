//! Bodies that are read from and written to JSON.

use crate::body::{converts, drained, single, Body, BodyStream, Chunks};
use crate::buffer::{bytes_from_vec, chunk_to_vec};
use crate::errors::{Error, ErrorKind};
use bytes::Bytes;
use serde_json::Value;
use vstd::prelude::*;

verus! {

/// A value that travels as JSON: as a body, it is read from the JSON text
/// in the stream, and written to the stream as JSON text.
pub struct Json<T>(pub T);

impl<T> Json<T> {
    /// The value, without the wrapper.
    pub fn json(self) -> (out: T)
        ensures
            out == self.0,
    {
        self.0
    }
}

/// `serde_json::Value`, any JSON value.
#[verifier::external_type_specification]
#[verifier::external_body]
pub struct ExValue(Value);

/// The value that `serde_json` reads from a text, or `None` where it takes
/// the text for no JSON.
pub uninterp spec fn json_parsed(text: Seq<u8>) -> Option<Value>;

/// `serde_json::from_slice`: the value that the bytes spell in JSON, or
/// `None` where the crate reports an error.
#[verifier::external_body]
fn parse_value(text: &[u8]) -> (out: Option<Value>)
    ensures
        out == json_parsed(text@),
{
    match serde_json::from_slice(text) {
        Ok(value) => Some(value),
        Err(_) => None,
    }
}

/// The JSON text that `serde_json` writes for a value, or `None` where it
/// writes none.
pub uninterp spec fn json_written(value: Value) -> Option<Seq<u8>>;

/// `serde_json::to_vec`: the JSON text of a value, or `None` where the crate
/// reports an error.
#[verifier::external_body]
fn write_value(value: &Value) -> (out: Option<Vec<u8>>)
    ensures
        match out {
            Some(text) => json_written(*value) == Some(text@),
            None => json_written(*value) is None,
        },
{
    match serde_json::to_vec(value) {
        Ok(text) => Some(text),
        Err(_) => None,
    }
}

/// A type whose values can be read from JSON text and written to it. How a
/// value is read and written is for the type to say, in `parses` and
/// `writes`.
pub trait JsonCodec: Sized + Send + 'static {
    /// Whether `out` is what reading a value from `text` gives.
    spec fn parses(text: Seq<u8>, out: Option<Self>) -> bool;

    /// Whether `out` is what writing this value gives.
    spec fn writes(&self, out: Option<Vec<u8>>) -> bool;

    /// The value that a text spells, or `None` where it spells none.
    fn from_json(text: &[u8]) -> (out: Option<Self>)
        ensures
            Self::parses(text@, out),
    ;

    /// The text of a value, or `None` where it has none.
    fn to_json(&self) -> (out: Option<Vec<u8>>)
        ensures
            self.writes(out),
    ;
}

/// Any JSON value is read and written by `serde_json`: what is read from a
/// text is the value that `serde_json` reads from it, and what is written for
/// a value is the text that `serde_json` writes for it.
impl JsonCodec for Value {
    open spec fn parses(text: Seq<u8>, out: Option<Self>) -> bool {
        out == json_parsed(text)
    }

    open spec fn writes(&self, out: Option<Vec<u8>>) -> bool {
        match out {
            Some(text) => json_written(*self) == Some(text@),
            None => json_written(*self) is None,
        }
    }

    fn from_json(text: &[u8]) -> (out: Option<Self>) {
        parse_value(text)
    }

    fn to_json(&self) -> (out: Option<Vec<u8>>) {
        write_value(self)
    }
}

/// The body that is read, given what the codec has made of the bytes: the
/// value in its wrapper, or an error of kind `Json` where the codec gave
/// none.
pub open spec fn read_from<T>(parsed: Option<T>) -> Result<Json<T>, Error> {
    match parsed {
        Some(value) => Ok(Json(value)),
        None => Err(Error { kind: ErrorKind::Json }),
    }
}

/// The stream that is written, given the text that the codec has made of
/// the value: one chunk that holds the text, or one chunk that has failed
/// with an error of kind `Json` where the codec gave none.
pub open spec fn written_to(written: Option<Vec<u8>>) -> Chunks {
    match written {
        Some(text) => single(text@),
        None => seq![Err(Error { kind: ErrorKind::Json })],
    }
}

/// Whether `out` is what reading a JSON body from bytes gives: what becomes
/// of what the codec reads from the bytes.
pub open spec fn reads_json<T: JsonCodec>(bytes: Seq<u8>, out: Result<Json<T>, Error>) -> bool {
    exists|parsed: Option<T>| #[trigger] T::parses(bytes, parsed) && out == read_from(parsed)
}

/// What reading a JSON body from a stream gives: the failure of the stream,
/// if it fails to drain; and else what becomes of what the codec reads from
/// the bytes of the stream.
pub open spec fn decodes_json<T: JsonCodec>(stream: Chunks, out: Result<Json<T>, Error>) -> bool {
    match drained(stream) {
        Err(error) => out == Err::<Json<T>, Error>(error),
        Ok(bytes) => reads_json(bytes, out),
    }
}

/// What writing a JSON body to a stream gives: what becomes of what the
/// codec writes for the value.
pub open spec fn encodes_json<T: JsonCodec>(body: Json<T>, stream: Chunks) -> bool {
    exists|written: Option<Vec<u8>>| #[trigger] body.0.writes(written) && stream == written_to(written)
}

impl<T> Json<T> {
    /// The body that was read, given what the parser has made of its bytes:
    /// the value in its wrapper, or an error of kind `Json` where the parser
    /// gave none.
    pub fn from_parsed(parsed: Option<T>) -> (out: Result<Json<T>, Error>)
        ensures
            out == read_from(parsed),
    {
        match parsed {
            Some(value) => Ok(Json(value)),
            None => Err(Error::new(ErrorKind::Json)),
        }
    }

    /// The stream that a body is written to, given the text that the writer
    /// has made of its value: one chunk that holds the text, or one chunk
    /// that has failed with an error of kind `Json` where the writer gave
    /// none.
    pub fn stream_of(written: Option<Vec<u8>>) -> (out: BodyStream)
        ensures
            out@ == written_to(written),
    {
        match written {
            Some(text) => BodyStream::once(bytes_from_vec(text)),
            None => {
                let mut chunks: Vec<Result<Bytes, Error>> = Vec::new();
                chunks.push(Err(Error::new(ErrorKind::Json)));
                let out = BodyStream::from_chunks(chunks);
                assert(out@ =~= seq![
                    Err::<Seq<u8>, Error>(Error { kind: ErrorKind::Json }),
                ]);
                out
            },
        }
    }
}

/// A JSON body. Reading it drains the stream and reads the value from the
/// bytes; writing it gives one chunk with the text of the value.
impl<T: JsonCodec> Body for Json<T> {
    open spec fn decodes(stream: Chunks, out: Result<Self, Error>) -> bool {
        decodes_json(stream, out)
    }

    open spec fn encodes(&self, stream: Chunks) -> bool {
        encodes_json(*self, stream)
    }

    fn from_stream(stream: BodyStream) -> (out: Result<Self, Error>) {
        match stream.concat2() {
            Err(error) => Err(error),
            Ok(bytes) => {
                let text = chunk_to_vec(&bytes);
                let parsed = T::from_json(text.as_slice());
                let out = Json::from_parsed(parsed);
                assert(T::parses(text@, parsed) && out == read_from(parsed));
                assert(reads_json::<T>(text@, out));
                out
            },
        }
    }

    fn into_stream(self) -> (out: BodyStream) {
        let written = self.0.to_json();
        let out = Json::<T>::stream_of(written);
        assert(self.0.writes(written) && out@ == written_to(written));
        out
    }
}

/// A JSON body comes back from the stream it was written to, where the codec
/// reads back what it writes: where the codec writes a text for the value, and
/// reads from every text it writes for the value that value and no other, the
/// body that is read is the body that was written.
pub proof fn lemma_json_round_trip<T: JsonCodec>(body: Json<T>, out: Result<Json<T>, Error>)
    requires
        converts(body, out),
        forall|written: Option<Vec<u8>>| #[trigger] body.0.writes(written) ==> written is Some,
        forall|text: Vec<u8>, parsed: Option<T>|
            #[trigger] body.0.writes(Some(text)) && #[trigger] T::parses(text@, parsed) ==> parsed
                == Some(body.0),
    ensures
        out == Ok::<Json<T>, Error>(body),
{
    let stream = choose|stream: Chunks| #[trigger]
        body.encodes(stream) && <Json<T> as Body>::decodes(stream, out);
    let written = choose|written: Option<Vec<u8>>| #[trigger]
        body.0.writes(written) && stream == written_to(written);
    let text = written->0;
    assert(body.0.writes(Some(text)));
    crate::body::lemma_drained_single(text@);
    assert(reads_json::<T>(text@, out));
    let parsed = choose|parsed: Option<T>| #[trigger]
        T::parses(text@, parsed) && out == read_from(parsed);
    assert(parsed == Some(body.0));
}

/// Bytes from which the codec reads no value are never read as a JSON body:
/// where a stream drains to bytes of which the codec makes nothing, reading
/// fails with an error of kind `Json`.
pub proof fn lemma_json_rejects<T: JsonCodec>(stream: Chunks, out: Result<Json<T>, Error>)
    requires
        drained(stream) matches Ok(bytes) && forall|parsed: Option<T>| #[trigger]
            T::parses(bytes, parsed) ==> parsed is None,
        <Json<T> as Body>::decodes(stream, out),
    ensures
        out == Err::<Json<T>, Error>(Error { kind: ErrorKind::Json }),
{
}

/// A JSON body of which `serde_json` reads no value fails: where a stream
/// drains to a text that `serde_json` takes for no JSON, reading fails with
/// an error of kind `Json`.
pub proof fn lemma_value_rejects_what_is_no_json(stream: Chunks, out: Result<Json<Value>, Error>)
    requires
        drained(stream) matches Ok(bytes) && json_parsed(bytes) is None,
        <Json<Value> as Body>::decodes(stream, out),
    ensures
        out == Err::<Json<Value>, Error>(Error { kind: ErrorKind::Json }),
{
}

/// A JSON body is the value that `serde_json` reads: where a stream drains
/// to a text from which `serde_json` reads a value, that value is read.
pub proof fn lemma_value_reads_json(stream: Chunks, out: Result<Json<Value>, Error>)
    requires
        drained(stream) matches Ok(bytes) && json_parsed(bytes) is Some,
        <Json<Value> as Body>::decodes(stream, out),
    ensures
        out == Ok::<Json<Value>, Error>(Json(json_parsed(drained(stream)->Ok_0)->0)),
{
}

/// A JSON value is written as the text that `serde_json` writes for it, in
/// one chunk, or as one failed chunk where `serde_json` writes none.
pub proof fn lemma_value_is_written(body: Json<Value>, stream: Chunks)
    requires
        body.encodes(stream),
    ensures
        stream == match json_written(body.0) {
            Some(text) => single(text),
            None => seq![Err::<Seq<u8>, Error>(Error { kind: ErrorKind::Json })],
        },
{
}

/// A JSON value comes back from the stream it was written to, where
/// `serde_json` reads back what it writes: where it writes a text for the
/// value and reads that value from the text, the body that is read is the body
/// that was written.
pub proof fn lemma_value_round_trip(body: Json<Value>, out: Result<Json<Value>, Error>)
    requires
        converts(body, out),
        json_written(body.0) matches Some(text) && json_parsed(text) == Some(body.0),
    ensures
        out == Ok::<Json<Value>, Error>(body),
{
    let stream = choose|stream: Chunks| #[trigger]
        body.encodes(stream) && <Json<Value> as Body>::decodes(stream, out);
    lemma_value_is_written(body, stream);
    crate::body::lemma_drained_single(json_written(body.0)->0);
}

} // verus!

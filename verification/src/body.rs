//! Bodies of requests and responses, and the stream of chunks that all of
//! them convert to and from.

use crate::buffer::{bytes_contents, bytes_from_vec, bytes_new, chunk_to_vec};
use crate::errors::{Error, ErrorKind};
use bytes::Bytes;
use std::string::FromUtf8Error;
use vstd::prelude::*;
use vstd::utf8::{decode_utf8, encode_utf8, valid_utf8};

verus! {

/// What a stream yields, chunk by chunk: the bytes of a chunk, or the failure
/// that came in its place.
pub type Chunks = Seq<Result<Seq<u8>, Error>>;

/// A streaming body: a finite sequence of chunks of bytes, each of which may
/// have failed. It is the form in which every body travels between handlers
/// and back-ends.
pub struct BodyStream {
    pub chunks: Vec<Result<Bytes, Error>>,
}

/// One chunk as plain values.
pub open spec fn chunk_view(chunk: Result<Bytes, Error>) -> Result<Seq<u8>, Error> {
    match chunk {
        Ok(bytes) => Ok(bytes_contents(bytes)),
        Err(error) => Err(error),
    }
}

impl View for BodyStream {
    type V = Chunks;

    open spec fn view(&self) -> Chunks {
        Seq::new(self.chunks@.len(), |i: int| chunk_view(self.chunks@[i]))
    }
}

/// What draining a stream gives: the first failure, if a chunk failed, and
/// else the bytes of all chunks, one after the other.
pub open spec fn drained(chunks: Chunks) -> Result<Seq<u8>, Error>
    decreases chunks.len(),
{
    if chunks.len() == 0 {
        Ok(Seq::empty())
    } else {
        match drained(chunks.drop_last()) {
            Err(error) => Err(error),
            Ok(bytes) => match chunks.last() {
                Err(error) => Err(error),
                Ok(more) => Ok(bytes + more),
            },
        }
    }
}

/// The stream of one chunk that holds the given bytes.
pub open spec fn single(bytes: Seq<u8>) -> Chunks {
    seq![Ok(bytes)]
}

/// Draining a stream of one good chunk gives the bytes of that chunk.
pub proof fn lemma_drained_single(bytes: Seq<u8>)
    ensures
        drained(single(bytes)) == Ok::<Seq<u8>, Error>(bytes),
{
    let chunks = single(bytes);
    assert(chunks.drop_last() =~= Seq::empty());
    assert(drained(chunks.drop_last()) == Ok::<Seq<u8>, Error>(Seq::empty()));
    assert(Seq::<u8>::empty() + bytes =~= bytes);
}

impl BodyStream {
    /// The stream that yields one chunk.
    pub fn once(chunk: Bytes) -> (out: BodyStream)
        ensures
            out@ == single(bytes_contents(chunk)),
    {
        let mut chunks: Vec<Result<Bytes, Error>> = Vec::new();
        chunks.push(Ok(chunk));
        let out = BodyStream { chunks };
        assert(out@ =~= single(bytes_contents(chunk)));
        out
    }

    /// The stream that yields the given chunks in order.
    pub fn from_chunks(chunks: Vec<Result<Bytes, Error>>) -> (out: BodyStream)
        ensures
            out.chunks == chunks,
    {
        BodyStream { chunks }
    }

    /// Drains the stream: the bytes of all chunks in order, or the first
    /// failure met on the way.
    pub fn concat2(self) -> (out: Result<Bytes, Error>)
        ensures
            chunk_view(out) == drained(self@),
    {
        let mut bytes: Vec<u8> = Vec::new();
        let mut i: usize = 0;
        assert(self@.take(0) =~= Seq::empty());
        while i < self.chunks.len()
            invariant
                i <= self.chunks.len(),
                drained(self@.take(i as int)) == Ok::<Seq<u8>, Error>(bytes@),
            decreases self.chunks.len() - i,
        {
            assert(self@.take(i + 1).drop_last() =~= self@.take(i as int));
            assert(self@.take(i + 1).last() == chunk_view(self.chunks@[i as int]));
            match &self.chunks[i] {
                Err(error) => {
                    proof {
                        lemma_drained_fails(self@, i as int);
                    }
                    return Err(*error);
                },
                Ok(chunk) => {
                    let more = chunk_to_vec(chunk);
                    let ghost before = bytes@;
                    bytes.extend_from_slice(more.as_slice());
                    assert(bytes@ =~= before + more@);
                    assert(drained(self@.take(i + 1)) == Ok::<Seq<u8>, Error>(before + more@));
                },
            }
            i = i + 1;
        }
        assert(self@.take(i as int) =~= self@);
        Ok(bytes_from_vec(bytes))
    }
}

/// Once the first `at + 1` chunks of a stream fail to drain, the whole
/// stream fails in the same way.
pub proof fn lemma_drained_fails(chunks: Chunks, at: int)
    requires
        0 <= at < chunks.len(),
        drained(chunks.take(at + 1)) is Err,
    ensures
        drained(chunks) == drained(chunks.take(at + 1)),
    decreases chunks.len() - at,
{
    if at + 1 == chunks.len() {
        assert(chunks.take(at + 1) =~= chunks);
    } else {
        assert(chunks.take(at + 2).drop_last() =~= chunks.take(at + 1));
        lemma_drained_fails(chunks, at + 1);
    }
}

/// The stream of one empty chunk, for a message without a body.
pub fn empty_body() -> (out: BodyStream)
    ensures
        out@ == single(Seq::empty()),
{
    BodyStream::once(bytes_new())
}

/// `String::from_utf8` hands back an error of this type.
#[verifier::external_type_specification]
#[verifier::external_body]
pub struct ExFromUtf8Error(FromUtf8Error);

/// `String::from_utf8`: the text that the bytes encode, exactly when they are
/// valid UTF-8, and an error otherwise.
#[verifier::external_body]
pub(crate) fn string_from_utf8(bytes: Vec<u8>) -> (out: Result<String, FromUtf8Error>)
    ensures
        out is Ok <==> valid_utf8(bytes@),
        out matches Ok(text) ==> encode_utf8(text@) == bytes@,
{
    String::from_utf8(bytes)
}

/// A type that can be the body of a request or of a response: it can be read
/// from a stream and written to one.
pub trait Body: Sized + Send + 'static {
    /// Whether `out` is what reading a body of this type from `stream` gives.
    spec fn decodes(stream: Chunks, out: Result<Self, Error>) -> bool;

    /// Whether `stream` is what writing this body to a stream gives.
    spec fn encodes(&self, stream: Chunks) -> bool;

    /// Reads a body from a stream.
    fn from_stream(stream: BodyStream) -> (out: Result<Self, Error>)
        ensures
            Self::decodes(stream@, out),
    ;

    /// Writes this body to a stream.
    fn into_stream(self) -> (out: BodyStream)
        ensures
            self.encodes(out@),
    ;
}

/// Whether `out` is what converting `body` to a body of another type gives:
/// what reading gives from a stream that the body is written to.
pub open spec fn converts<B: Body, OtherBody: Body>(
    body: B,
    out: Result<OtherBody, Error>,
) -> bool {
    exists|stream: Chunks| #[trigger] body.encodes(stream) && OtherBody::decodes(stream, out)
}

/// Converts a body of one type to a body of another: the first is written to
/// a stream, and the second is read from that stream.
pub fn into_body<B: Body, OtherBody: Body>(body: B) -> (out: Result<OtherBody, Error>)
    ensures
        converts(body, out),
{
    let stream = body.into_stream();
    assert(body.encodes(stream@));
    OtherBody::from_stream(stream)
}

/// What reading the empty body from a stream gives: the failure of the
/// stream, if it fails to drain, and else the empty body, whatever bytes the
/// stream held.
pub open spec fn decodes_unit(stream: Chunks, out: Result<(), Error>) -> bool {
    match drained(stream) {
        Err(error) => out == Err::<(), Error>(error),
        Ok(_) => out == Ok::<(), Error>(()),
    }
}

/// The empty body. Reading it drains the stream and drops the bytes; writing
/// it gives one empty chunk.
impl Body for () {
    open spec fn decodes(stream: Chunks, out: Result<Self, Error>) -> bool {
        decodes_unit(stream, out)
    }

    open spec fn encodes(&self, stream: Chunks) -> bool {
        stream == single(Seq::empty())
    }

    fn from_stream(stream: BodyStream) -> (out: Result<Self, Error>) {
        match stream.concat2() {
            Err(error) => Err(error),
            Ok(_) => Ok(()),
        }
    }

    fn into_stream(self) -> (out: BodyStream) {
        empty_body()
    }
}

/// A buffer of bytes. Reading it drains the stream; writing it gives one
/// chunk that holds the buffer.
impl Body for Bytes {
    open spec fn decodes(stream: Chunks, out: Result<Self, Error>) -> bool {
        chunk_view(out) == drained(stream)
    }

    open spec fn encodes(&self, stream: Chunks) -> bool {
        stream == single(bytes_contents(*self))
    }

    fn from_stream(stream: BodyStream) -> (out: Result<Self, Error>) {
        stream.concat2()
    }

    fn into_stream(self) -> (out: BodyStream) {
        BodyStream::once(self)
    }
}

/// What reading a vector of bytes from a stream gives.
pub open spec fn decodes_vec(stream: Chunks, out: Result<Vec<u8>, Error>) -> bool {
    match drained(stream) {
        Err(error) => out == Err::<Vec<u8>, Error>(error),
        Ok(bytes) => out matches Ok(vec) && vec@ == bytes,
    }
}

/// A vector of bytes. Reading it drains the stream; writing it gives one
/// chunk that holds the bytes.
impl Body for Vec<u8> {
    open spec fn decodes(stream: Chunks, out: Result<Self, Error>) -> bool {
        decodes_vec(stream, out)
    }

    open spec fn encodes(&self, stream: Chunks) -> bool {
        stream == single(self@)
    }

    fn from_stream(stream: BodyStream) -> (out: Result<Self, Error>) {
        match stream.concat2() {
            Err(error) => Err(error),
            Ok(bytes) => Ok(chunk_to_vec(&bytes)),
        }
    }

    fn into_stream(self) -> (out: BodyStream) {
        BodyStream::once(bytes_from_vec(self))
    }
}

/// What reading text from a stream gives: the failure of the stream, if it
/// fails to drain; an error of kind `Utf8`, if its bytes are not valid UTF-8;
/// and else the text that the bytes encode.
pub open spec fn decodes_text(stream: Chunks, out: Result<String, Error>) -> bool {
    match drained(stream) {
        Err(error) => out == Err::<String, Error>(error),
        Ok(bytes) => if valid_utf8(bytes) {
            out matches Ok(text) && text@ == decode_utf8(bytes)
        } else {
            out == Err::<String, Error>(Error { kind: ErrorKind::Utf8 })
        },
    }
}

/// Text. Reading it drains the stream and checks that the bytes are valid
/// UTF-8; writing it gives one chunk that holds the text's UTF-8 encoding.
impl Body for String {
    open spec fn decodes(stream: Chunks, out: Result<Self, Error>) -> bool {
        decodes_text(stream, out)
    }

    open spec fn encodes(&self, stream: Chunks) -> bool {
        stream == single(encode_utf8(self@))
    }

    fn from_stream(stream: BodyStream) -> (out: Result<Self, Error>) {
        match stream.concat2() {
            Err(error) => Err(error),
            Ok(bytes) => {
                let vec = chunk_to_vec(&bytes);
                match string_from_utf8(vec) {
                    Ok(text) => {
                        proof {
                            vstd::utf8::encode_utf8_decode_utf8(text@);
                        }
                        Ok(text)
                    },
                    Err(_) => Err(Error::new(ErrorKind::Utf8)),
                }
            },
        }
    }

    fn into_stream(self) -> (out: BodyStream) {
        let bytes = self.as_str().as_bytes_vec();
        BodyStream::once(bytes_from_vec(bytes))
    }
}

/// The stream itself. Reading it hands the stream on as it is, without
/// draining it, and so does writing it.
impl Body for BodyStream {
    open spec fn decodes(stream: Chunks, out: Result<Self, Error>) -> bool {
        out matches Ok(body) && body@ == stream
    }

    open spec fn encodes(&self, stream: Chunks) -> bool {
        stream == self@
    }

    fn from_stream(stream: BodyStream) -> (out: Result<Self, Error>) {
        Ok(stream)
    }

    fn into_stream(self) -> (out: BodyStream) {
        self
    }
}

/// A vector of bytes that is written to a stream and read back from it comes
/// back unchanged: whatever reading gives, it is the same bytes.
pub proof fn lemma_vec_round_trip(body: Vec<u8>, out: Result<Vec<u8>, Error>)
    requires
        converts(body, out),
    ensures
        out matches Ok(back) && back@ == body@,
{
    lemma_drained_single(body@);
}

/// A buffer of bytes that is written to a stream and read back from it comes
/// back unchanged.
pub proof fn lemma_bytes_round_trip(body: Bytes, out: Result<Bytes, Error>)
    requires
        converts(body, out),
    ensures
        out matches Ok(back) && bytes_contents(back) == bytes_contents(body),
{
    lemma_drained_single(bytes_contents(body));
}

/// Text that is written to a stream and read back from it comes back
/// unchanged.
pub proof fn lemma_text_round_trip(body: String, out: Result<String, Error>)
    requires
        converts(body, out),
    ensures
        out matches Ok(back) && back@ == body@,
{
    lemma_drained_single(encode_utf8(body@));
    vstd::utf8::encode_utf8_valid_utf8(body@);
    vstd::utf8::encode_utf8_decode_utf8(body@);
}

/// A stream that drains to bytes that are not valid UTF-8 is never read as
/// text: reading fails with an error of kind `Utf8`.
pub proof fn lemma_text_rejects_invalid_utf8(stream: Chunks, out: Result<String, Error>)
    requires
        drained(stream) matches Ok(bytes) && !valid_utf8(bytes),
        <String as Body>::decodes(stream, out),
    ensures
        out == Err::<String, Error>(Error { kind: ErrorKind::Utf8 }),
{
}

/// A stream that is handed on as a streaming body is the same stream.
pub proof fn lemma_stream_round_trip(body: BodyStream, out: Result<BodyStream, Error>)
    requires
        converts(body, out),
    ensures
        out matches Ok(back) && back@ == body@,
{
}

} // verus!

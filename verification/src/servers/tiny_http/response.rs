//! From a response to what the engine writes.

use crate::body::{drained, BodyStream};
use crate::buffer::bytes_contents;
use crate::errors::{Error, ErrorKind};
use crate::header::{check_visible_text, is_visible_text, lemma_header_name_bytes};
use crate::response::Response;
use bytes::Bytes;
use vstd::prelude::*;
use vstd::slice::slice_to_vec;
use vstd::string::StringSliceAdditionalSpecFns;
use vstd::utf8::encode_utf8;

verus! {

/// One header as the engine writes it: the bytes of its name and of its
/// value.
pub struct RawHeader {
    pub name: Vec<u8>,
    pub value: Vec<u8>,
}

/// A response as the engine writes it: the status code, the headers and the
/// whole body.
pub struct RawResponse {
    pub status_code: u16,
    pub headers: Vec<RawHeader>,
    pub body: Bytes,
}

/// The headers of a response as the engine writes them: each name as the
/// bytes of its text, each value as it is, in the same order.
pub open spec fn raw_headers(headers: Seq<(Seq<char>, Seq<u8>)>) -> Seq<(Seq<u8>, Seq<u8>)> {
    Seq::new(headers.len(), |i: int| (encode_utf8(headers[i].0), headers[i].1))
}

impl RawResponse {
    /// Whether all bytes of the names and values of the headers are ASCII,
    /// as the engine asks.
    pub open spec fn has_ascii_headers(&self) -> bool {
        forall|i: int|
            0 <= i < self.headers@.len() ==> is_ascii((#[trigger] self.headers@[i]).name@)
                && is_ascii(self.headers@[i].value@)
    }

    /// The headers as plain values.
    pub open spec fn headers_view(&self) -> Seq<(Seq<u8>, Seq<u8>)> {
        Seq::new(self.headers@.len(), |i: int| (self.headers@[i].name@, self.headers@[i].value@))
    }
}

/// Whether the engine can write headers: every value is visible text. The
/// engine takes no byte above 127.
pub open spec fn are_writable(headers: Seq<(Seq<char>, Seq<u8>)>) -> bool {
    forall|i: int| 0 <= i < headers.len() ==> is_visible_text((#[trigger] headers[i]).1)
}

/// Whether bytes are ASCII.
pub open spec fn is_ascii(bytes: Seq<u8>) -> bool {
    forall|i: int| 0 <= i < bytes.len() ==> #[trigger] bytes[i] < 128
}

/// Whether `out` is what making a response for the engine gives: an error
/// of kind `InvalidHeaderValue`, if a header has a value that is not visible
/// text; the failure of the body, if it fails to drain; and else the status
/// code and the headers of the response, and all bytes of its body.
pub open spec fn converts_response(resp: Response<BodyStream>, out: Result<RawResponse, Error>)
    -> bool {
    if !are_writable(resp.head@.headers) {
        out == Err::<RawResponse, Error>(Error { kind: ErrorKind::InvalidHeaderValue })
    } else {
        match drained(resp.body@) {
            Err(error) => out == Err::<RawResponse, Error>(error),
            Ok(bytes) => out matches Ok(raw) && raw.status_code == resp.head@.status
                && raw.headers_view() == raw_headers(resp.head@.headers) && bytes_contents(
                raw.body,
            ) == bytes,
        }
    }
}

/// Makes of a response what the engine writes: hands over status and
/// headers as plain values, and drains the body. All bytes of the names and
/// values that are handed over are ASCII.
pub fn as_tiny_http_response(resp: Response<BodyStream>) -> (out: Result<RawResponse, Error>)
    ensures
        converts_response(resp, out),
        out matches Ok(raw) ==> raw.has_ascii_headers(),
{
    let status_code = resp.status().as_u16();
    let mut headers: Vec<RawHeader> = Vec::new();
    let mut i: usize = 0;
    while i < resp.headers().len()
        invariant
            i <= resp.head.headers@.len(),
            headers@.len() == i,
            forall|j: int| 0 <= j < i ==> is_visible_text((#[trigger] resp.head.headers@[j]).1),
            forall|j: int|
                0 <= j < i ==> (#[trigger] headers@[j]).name@ == encode_utf8(
                    resp.head.headers@[j].0,
                ) && headers@[j].value@ == resp.head.headers@[j].1 && is_ascii(headers@[j].name@)
                    && is_ascii(headers@[j].value@),
        decreases resp.head.headers@.len() - i,
    {
        let text = resp.headers().name_at(i);
        let name = text.as_bytes_vec();
        let value = slice_to_vec(resp.headers().value_at(i));
        if !check_visible_text(value.as_slice()) {
            assert(!is_visible_text(resp.head.headers@[i as int].1));
            return Err(Error::new(ErrorKind::InvalidHeaderValue));
        }
        proof {
            lemma_header_name_bytes(text@);
            vstd::utf8::is_ascii_chars_encode_utf8(text@);
        }
        assert(is_ascii(name@));
        assert(is_ascii(value@));
        headers.push(RawHeader { name, value });
        i = i + 1;
    }
    let (_, body) = resp.into_parts();
    match body.concat2() {
        Err(error) => Err(error),
        Ok(bytes) => {
            let raw = RawResponse { status_code, headers, body: bytes };
            assert(raw.headers_view() =~= raw_headers(resp.head@.headers));
            Ok(raw)
        },
    }
}

} // verus!

//! What the library assumes of `bytes::Bytes`, the buffer that a chunk of a
//! body is held in.

use bytes::Bytes;
use vstd::prelude::*;

verus! {

/// `bytes::Bytes`, a reference-counted buffer of bytes.
#[verifier::external_type_specification]
#[verifier::external_body]
pub struct ExBytes(bytes::Bytes);

/// The bytes that a buffer holds, in order.
pub uninterp spec fn bytes_contents(b: Bytes) -> Seq<u8>;

/// `Bytes::new`: a buffer that holds no bytes.
#[verifier::external_body]
pub(crate) fn bytes_new() -> (out: Bytes)
    ensures
        bytes_contents(out) == Seq::<u8>::empty(),
{
    Bytes::new()
}

/// `Bytes::from(Vec<u8>)`: a buffer that holds the bytes of the vector.
#[verifier::external_body]
pub(crate) fn bytes_from_vec(bytes: Vec<u8>) -> (out: Bytes)
    ensures
        bytes_contents(out) == bytes@,
{
    Bytes::from(bytes)
}

/// `to_vec` on the slice that a `Bytes` dereferences to: a vector that holds
/// the bytes of the buffer.
#[verifier::external_body]
pub(crate) fn chunk_to_vec(chunk: &Bytes) -> (out: Vec<u8>)
    ensures
        out@ == bytes_contents(*chunk),
{
    chunk.to_vec()
}

} // verus!

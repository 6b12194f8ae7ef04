use bytes::Bytes;
use vstd::prelude::*;

verus! {

#[verifier::external_type_specification]
#[verifier::external_body]
pub struct ExBytes(Bytes);

/// The bytes that a chunk holds, in order.
pub uninterp spec fn bytes_view(chunk: Bytes) -> Seq<u8>;

/// `Bytes::as_ref`: the chunk's contents as a slice.
#[verifier::external_body]
pub(crate) fn chunk_bytes(chunk: &Bytes) -> (bytes: &[u8])
    ensures
        bytes@ == bytes_view(*chunk),
{
    chunk.as_ref()
}

/// `Bytes::from` on a `Vec<u8>`: a chunk that holds the vector's bytes.
#[verifier::external_body]
pub(crate) fn chunk_from(bytes: Vec<u8>) -> (chunk: Bytes)
    ensures
        bytes_view(chunk) == bytes@,
{
    Bytes::from(bytes)
}

} // verus!

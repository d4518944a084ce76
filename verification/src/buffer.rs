//! Message buffers of the `bytes` crate.

use bytes::{Bytes, BytesMut};
use vstd::prelude::*;

verus! {

/// `bytes::Bytes`, a shared immutable byte buffer.
#[verifier::external_type_specification]
#[verifier::external_body]
pub struct ExBytes(bytes::Bytes);

/// `bytes::BytesMut`, a byte buffer with one owner.
#[verifier::external_type_specification]
#[verifier::external_body]
pub struct ExBytesMut(bytes::BytesMut);

/// The bytes that a `Bytes` holds.
pub uninterp spec fn bytes_contents(buffer: Bytes) -> Seq<u8>;

/// The bytes that a `BytesMut` holds.
pub uninterp spec fn bytes_mut_contents(buffer: BytesMut) -> Seq<u8>;

/// `Bytes::copy_from_slice`: the new buffer holds the bytes of the slice.
#[verifier::external_body]
pub(crate) fn copy_from_slice(data: &[u8]) -> (buffer: Bytes)
    ensures
        bytes_contents(buffer) == data@,
{
    Bytes::copy_from_slice(data)
}

/// `Bytes::len`: how many bytes the buffer holds.
#[verifier::external_body]
pub(crate) fn bytes_len(buffer: &Bytes) -> (length: usize)
    ensures
        length == bytes_contents(*buffer).len(),
{
    buffer.len()
}

/// `Bytes::as_ref`: the bytes of the buffer, as a slice.
#[verifier::external_body]
pub(crate) fn bytes_as_slice(buffer: &Bytes) -> (data: &[u8])
    ensures
        data@ == bytes_contents(*buffer),
{
    buffer.as_ref()
}

/// `BytesMut::from(&[u8])`: the new buffer holds the bytes of the slice.
#[verifier::external_body]
pub(crate) fn bytes_mut_from_slice(data: &[u8]) -> (buffer: BytesMut)
    ensures
        bytes_mut_contents(buffer) == data@,
{
    BytesMut::from(data)
}

/// `BytesMut::freeze`: the same bytes in an immutable buffer.
#[verifier::external_body]
pub(crate) fn freeze(buffer: BytesMut) -> (frozen: Bytes)
    ensures
        bytes_contents(frozen) == bytes_mut_contents(buffer),
{
    buffer.freeze()
}

} // verus!

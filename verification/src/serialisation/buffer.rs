//! The byte buffers that the envelope is read from and written to.
//!
//! Buffers are `bytes::Bytes` values: cheaply cloneable views into shared
//! memory. The verifier knows a buffer by the bytes it holds.

use vstd::prelude::*;
use bytes::Bytes;

verus! {

/// `bytes::Bytes`, a contiguous, immutable run of bytes.
#[verifier::external_type_specification]
#[verifier::external_body]
pub struct ExBytes(Bytes);

/// The bytes that a buffer holds, in order.
pub uninterp spec fn buffer_bytes(buffer: Bytes) -> Seq<u8>;

/// Cloning a buffer makes a second handle on the same bytes.
pub assume_specification[ <Bytes as Clone>::clone ](buffer: &Bytes) -> (r: Bytes)
    ensures
        buffer_bytes(r) == buffer_bytes(*buffer),
;

/// Calls `Bytes::new`, which returns an empty buffer.
#[verifier::external_body]
pub(crate) fn empty_buffer() -> (r: Bytes)
    ensures
        buffer_bytes(r) == Seq::<u8>::empty(),
{
    Bytes::new()
}

/// Calls `Bytes::from` on a vector: the buffer takes over the vector's bytes.
#[verifier::external_body]
pub(crate) fn buffer_from_vec(bytes: Vec<u8>) -> (r: Bytes)
    ensures
        buffer_bytes(r) == bytes@,
{
    Bytes::from(bytes)
}

/// Borrows the bytes of a buffer as a slice, through `AsRef<[u8]>`.
#[verifier::external_body]
pub(crate) fn buffer_as_slice(buffer: &Bytes) -> (r: &[u8])
    ensures
        r@ == buffer_bytes(*buffer),
{
    buffer.as_ref()
}

/// Calls `Bytes::slice` with the range from `begin` to the end: a buffer
/// that holds the bytes from position `begin` on. `Bytes::slice` panics when
/// the range starts past the end, which the precondition rules out.
#[verifier::external_body]
pub(crate) fn buffer_slice_from(buffer: &Bytes, begin: usize) -> (r: Bytes)
    requires
        begin <= buffer_bytes(*buffer).len(),
    ensures
        buffer_bytes(r) == buffer_bytes(*buffer).skip(begin as int),
{
    buffer.slice(begin..)
}

} // verus!

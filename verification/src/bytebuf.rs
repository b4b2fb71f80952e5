//! The response payloads the server sends arrive as `bytes::Bytes` buffers.
//! This module declares that type to the verifier and gives the few methods
//! the decoders rely on contracts over the buffer's contents.

use vstd::prelude::*;

verus! {

#[verifier::external_type_specification]
#[verifier::external_body]
pub struct ExBytes(bytes::Bytes);

/// The sequence of bytes a `bytes::Bytes` buffer holds.
pub uninterp spec fn bytes_content(b: bytes::Bytes) -> Seq<u8>;

/// Relies on bytes::Bytes::len: the number of bytes in the buffer.
#[verifier::external_body]
pub fn bytes_len(b: &bytes::Bytes) -> (r: usize)
    ensures
        r == bytes_content(*b).len(),
{
    b.len()
}

/// Relies on bytes::Bytes's Deref to `[u8]`: the byte at position `i`.
#[verifier::external_body]
pub fn bytes_at(b: &bytes::Bytes, i: usize) -> (r: u8)
    requires
        i < bytes_content(*b).len(),
    ensures
        r == bytes_content(*b)[i as int],
{
    b[i]
}

/// Relies on bytes::Bytes::slice: a handle to the subrange
/// `start..end` of the buffer. Panics unless `start <= end <= len`,
/// which the precondition rules out.
#[verifier::external_body]
pub fn bytes_slice(b: &bytes::Bytes, start: usize, end: usize) -> (r: bytes::Bytes)
    requires
        start <= end <= bytes_content(*b).len(),
    ensures
        bytes_content(r) == bytes_content(*b).subrange(start as int, end as int),
{
    b.slice(start..end)
}

} // verus!

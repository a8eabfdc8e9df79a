//! Thin verified interface to the growable byte buffers of the `bytes` crate.
//!
//! `bytes::BytesMut` is the mutable accumulation buffer used by both framing
//! engines; `bytes::Bytes` is the frozen, immutable form handed out as a
//! frame payload. Verus sees both types as opaque, so each is declared here
//! and given a model: the sequence of bytes it currently holds.

use vstd::prelude::*;

verus! {

#[verifier::external_type_specification]
#[verifier::external_body]
pub struct ExBytesMut(bytes::BytesMut);

#[verifier::external_type_specification]
#[verifier::external_body]
pub struct ExBytes(bytes::Bytes);

/// The bytes currently held by a `bytes::BytesMut`, in order.
pub uninterp spec fn buf_model(b: bytes::BytesMut) -> Seq<u8>;

/// The bytes held by a `bytes::Bytes`, in order.
pub uninterp spec fn bytes_model(b: bytes::Bytes) -> Seq<u8>;

/// Relies on `BytesMut::with_capacity`: the returned buffer is empty.
#[verifier::external_body]
pub(crate) fn buf_with_capacity(cap: usize) -> (r: bytes::BytesMut)
    ensures
        buf_model(r) == Seq::<u8>::empty(),
{
    bytes::BytesMut::with_capacity(cap)
}

/// Relies on `BytesMut::len`: the number of bytes the buffer holds.
#[verifier::external_body]
pub(crate) fn buf_len(b: &bytes::BytesMut) -> (r: usize)
    ensures
        r == buf_model(*b).len(),
{
    b.len()
}

/// Relies on `BytesMut::extend_from_slice`: appends the slice to the buffer.
#[verifier::external_body]
pub(crate) fn buf_extend(b: &mut bytes::BytesMut, data: &[u8])
    ensures
        buf_model(*final(b)) == buf_model(*old(b)) + data@,
{
    b.extend_from_slice(data)
}

/// Relies on `BytesMut::extend_from_slice` (via `Bytes`' deref to a slice):
/// appends the contents of `data` to the buffer.
#[verifier::external_body]
pub(crate) fn buf_extend_bytes(b: &mut bytes::BytesMut, data: &bytes::Bytes)
    ensures
        buf_model(*final(b)) == buf_model(*old(b)) + bytes_model(*data),
{
    b.extend_from_slice(&data[..])
}

/// Relies on `BytesMut::split_to`: removes and returns the first `n` bytes,
/// leaving the rest in place. `split_to` panics when `n` exceeds the length,
/// so that case is excluded here.
#[verifier::external_body]
pub(crate) fn buf_split_to(b: &mut bytes::BytesMut, n: usize) -> (r: bytes::BytesMut)
    requires
        n <= buf_model(*old(b)).len(),
    ensures
        buf_model(r) == buf_model(*old(b)).take(n as int),
        buf_model(*final(b)) == buf_model(*old(b)).skip(n as int),
{
    b.split_to(n)
}

/// Relies on `BytesMut::freeze`: converts the buffer into an immutable
/// `Bytes` holding the same bytes.
#[verifier::external_body]
pub(crate) fn buf_freeze(b: bytes::BytesMut) -> (r: bytes::Bytes)
    ensures
        bytes_model(r) == buf_model(b),
{
    b.freeze()
}

/// Relies on `BytesMut`'s deref to a byte slice and `slice::to_vec`: copies
/// the buffer's bytes out into a vector.
#[verifier::external_body]
pub(crate) fn buf_to_vec(b: &bytes::BytesMut) -> (r: Vec<u8>)
    ensures
        r@ == buf_model(*b),
{
    b[..].to_vec()
}

} // verus!

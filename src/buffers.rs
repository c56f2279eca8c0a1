//! The byte buffers of the `bytes` crate, as the rest of the library sees them.
use vstd::prelude::*;

verus! {

#[verifier::external_type_specification]
#[verifier::external_body]
pub struct ExBytes(bytes::Bytes);

#[verifier::external_type_specification]
#[verifier::external_body]
pub struct ExBytesMut(bytes::BytesMut);

/// The bytes that a `Bytes` holds, in order.
pub uninterp spec fn bytes_view(b: bytes::Bytes) -> Seq<u8>;

/// The bytes that a `BytesMut` holds, in order.
pub uninterp spec fn buf_view(b: bytes::BytesMut) -> Seq<u8>;

/// Relies on `Bytes::len`: the number of bytes held.
#[verifier::external_body]
pub fn bytes_len(b: &bytes::Bytes) -> (r: usize)
    ensures
        r == bytes_view(*b).len(),
{
    b.len()
}

/// Relies on `BytesMut::with_capacity`: a new buffer holds no bytes. It
/// allocates the capacity up front, which panics beyond `isize::MAX`.
#[verifier::external_body]
pub(crate) fn buf_with_capacity(capacity: usize) -> (r: bytes::BytesMut)
    requires
        capacity <= isize::MAX,
    ensures
        buf_view(r) == Seq::<u8>::empty(),
{
    bytes::BytesMut::with_capacity(capacity)
}

/// Relies on `BytesMut::len`: the number of bytes held.
#[verifier::external_body]
pub(crate) fn buf_len(b: &bytes::BytesMut) -> (r: usize)
    ensures
        r == buf_view(*b).len(),
{
    b.len()
}

/// Relies on `BytesMut::extend_from_slice`, which reserves room and then
/// copies the slice after the bytes already held; reserving panics when the
/// total passes `isize::MAX`.
#[verifier::external_body]
pub(crate) fn buf_extend(b: &mut bytes::BytesMut, src: &bytes::Bytes)
    requires
        buf_view(*old(b)).len() + bytes_view(*src).len() <= isize::MAX,
    ensures
        buf_view(*final(b)) == buf_view(*old(b)) + bytes_view(*src),
{
    b.extend_from_slice(src.as_ref())
}

/// Relies on `BytesMut::freeze`: the same bytes, made immutable.
#[verifier::external_body]
pub(crate) fn buf_freeze(b: bytes::BytesMut) -> (r: bytes::Bytes)
    ensures
        bytes_view(r) == buf_view(b),
{
    b.freeze()
}

} // verus!

//! A specified view of `bytes::BytesMut`, the growable byte buffer the
//! encode paths write into.
//!
//! The buffer itself comes from the `bytes` crate and is opaque here;
//! [`bytes_view`] names what it holds, and the wrappers below say how the
//! operations the encode paths use change that content.

use vstd::prelude::*;

use bytes::{BufMut, BytesMut};

verus! {

/// `bytes::BytesMut`, declared so it can stand in signatures and fields.
#[verifier::external_type_specification]
#[verifier::external_body]
pub struct ExBytesMut(BytesMut);

/// The bytes a `BytesMut` holds, front to back.
pub uninterp spec fn bytes_view(b: BytesMut) -> Seq<u8>;

/// Relies on `BytesMut::new`: a fresh buffer holds no bytes.
#[verifier::external_body]
pub fn bytes_mut_new() -> (r: BytesMut)
    ensures
        bytes_view(r) == Seq::<u8>::empty(),
{
    BytesMut::new()
}

/// Relies on `BufMut::put_slice` for `BytesMut`: appends the slice's
/// bytes at the back, growing the buffer as needed.
#[verifier::external_body]
pub fn bytes_mut_put_slice(b: &mut BytesMut, src: &[u8])
    ensures
        bytes_view(*final(b)) == bytes_view(*old(b)) + src@,
{
    b.put_slice(src)
}

/// Relies on `BytesMut`'s `Deref` to `[u8]`: a slice of the bytes the
/// buffer holds.
#[verifier::external_body]
pub fn bytes_mut_as_slice(b: &BytesMut) -> (r: &[u8])
    ensures
        r@ == bytes_view(*b),
{
    &b[..]
}

} // verus!

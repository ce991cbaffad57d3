//! The byte containers of the `bytes` crate, as the rest of the library sees
//! them: each is a sequence of bytes, and each operation below is described
//! by what it does to that sequence. Nothing in this file is proved; it
//! records what the `bytes` crate documents.

use bytes::{Bytes, BytesMut};
use vstd::prelude::*;

verus! {

/// `bytes::Bytes`: an immutable run of bytes that is cheap to clone and to
/// slice.
#[verifier::external_type_specification]
#[verifier::external_body]
pub struct ExBytes(Bytes);

/// `bytes::BytesMut`: a run of bytes that can grow at its end and be cut at
/// its front.
#[verifier::external_type_specification]
#[verifier::external_body]
pub struct ExBytesMut(BytesMut);

/// The bytes that an immutable buffer holds, first to last.
pub uninterp spec fn bytes_seq(b: Bytes) -> Seq<u8>;

/// The bytes that a growable buffer holds, first to last.
pub uninterp spec fn buf_seq(b: BytesMut) -> Seq<u8>;

/// `Bytes::new`: a buffer that holds nothing.
pub assume_specification[ Bytes::new ]() -> (b: Bytes)
    ensures
        bytes_seq(b) == Seq::<u8>::empty(),
;

/// `Bytes::len`: the number of bytes held.
pub assume_specification[ Bytes::len ](b: &Bytes) -> (n: usize)
    ensures
        n == bytes_seq(*b).len(),
;

/// `BytesMut::len`: the number of bytes held.
pub assume_specification[ BytesMut::len ](b: &BytesMut) -> (n: usize)
    ensures
        n == buf_seq(*b).len(),
;

/// `BytesMut::split_to`: hands out the first `at` bytes and keeps the rest.
/// The crate panics where `at` exceeds the length.
pub assume_specification[ BytesMut::split_to ](b: &mut BytesMut, at: usize) -> (head: BytesMut)
    requires
        at <= buf_seq(*old(b)).len(),
    ensures
        buf_seq(head) == buf_seq(*old(b)).subrange(0, at as int),
        buf_seq(*final(b)) == buf_seq(*old(b)).subrange(at as int, buf_seq(*old(b)).len() as int),
;

/// `BytesMut::freeze`: the same bytes, no longer growable.
pub assume_specification[ BytesMut::freeze ](b: BytesMut) -> (frozen: Bytes)
    ensures
        bytes_seq(frozen) == buf_seq(b),
;

/// `BytesMut::extend_from_slice`: appends `extend`, growing the buffer as
/// needed. The crate panics where the new capacity does not fit in `usize`.
pub assume_specification[ BytesMut::extend_from_slice ](b: &mut BytesMut, extend: &[u8])
    requires
        buf_seq(*old(b)).len() + extend@.len() <= usize::MAX,
    ensures
        buf_seq(*final(b)) == buf_seq(*old(b)) + extend@,
;

/// `Bytes::clone`: another handle on the same bytes.
pub assume_specification[ <Bytes as Clone>::clone ](b: &Bytes) -> (copy: Bytes)
    ensures
        bytes_seq(copy) == bytes_seq(*b),
;

/// `Bytes::from(Vec<u8>)`: the bytes of the vector, in order.
#[verifier::external_body]
pub(crate) fn bytes_from_vec(v: Vec<u8>) -> (b: Bytes)
    ensures
        bytes_seq(b) == v@,
{
    Bytes::from(v)
}

/// `Bytes::as_ref`: the held bytes as a slice.
#[verifier::external_body]
pub(crate) fn bytes_as_slice(b: &Bytes) -> (s: &[u8])
    ensures
        s@ == bytes_seq(*b),
{
    b.as_ref()
}

/// `BytesMut::as_ref`: the held bytes as a slice.
#[verifier::external_body]
pub(crate) fn buf_as_slice(b: &BytesMut) -> (s: &[u8])
    ensures
        s@ == buf_seq(*b),
{
    b.as_ref()
}

} // verus!

//! Byte buffers of the `bytes` crate, by their contents.

use bytes::{Bytes, BytesMut};
use vstd::prelude::*;
use vstd::slice::*;

verus! {

#[verifier::external_type_specification]
#[verifier::external_body]
pub struct ExBytes(bytes::Bytes);

#[verifier::external_type_specification]
#[verifier::external_body]
pub struct ExBytesMut(bytes::BytesMut);

/// The bytes that a `bytes::Bytes` holds.
pub uninterp spec fn bytes_content(b: Bytes) -> Seq<u8>;

/// The bytes that a `bytes::BytesMut` holds.
pub uninterp spec fn buffer_content(b: BytesMut) -> Seq<u8>;

/// Whether a `bytes::BytesMut` was only ever written to: no bytes were taken from its front.
pub uninterp spec fn buffer_unsplit(b: BytesMut) -> bool;

/// `Bytes::new`: no bytes.
#[verifier::external_body]
pub(crate) fn bytes_new() -> (r: Bytes)
    ensures
        bytes_content(r) == Seq::<u8>::empty(),
{
    Bytes::new()
}

/// `Bytes::len`: how many bytes there are.
#[verifier::external_body]
pub(crate) fn bytes_len(b: &Bytes) -> (r: usize)
    ensures
        r == bytes_content(*b).len(),
{
    b.len()
}

/// `Bytes::as_ref`: the bytes as a slice.
#[verifier::external_body]
pub(crate) fn bytes_as_slice(b: &Bytes) -> (r: &[u8])
    ensures
        r@ == bytes_content(*b),
{
    b.as_ref()
}

/// `Bytes::slice`: the bytes from `lo` up to `hi`. It panics where the two do not lie
/// in order within the bytes.
#[verifier::external_body]
pub(crate) fn bytes_slice(b: &Bytes, lo: usize, hi: usize) -> (r: Bytes)
    requires
        lo <= hi <= bytes_content(*b).len(),
    ensures
        bytes_content(r) == bytes_content(*b).subrange(lo as int, hi as int),
{
    b.slice(lo..hi)
}

/// `BytesMut::new`: an empty buffer.
#[verifier::external_body]
pub(crate) fn buffer_new() -> (r: BytesMut)
    ensures
        buffer_content(r) == Seq::<u8>::empty(),
{
    BytesMut::new()
}

/// `BytesMut::with_capacity`: an empty buffer. It panics where the capacity is more
/// than an allocation can have.
#[verifier::external_body]
pub(crate) fn buffer_with_capacity(capacity: usize) -> (r: BytesMut)
    requires
        capacity <= isize::MAX,
    ensures
        buffer_content(r) == Seq::<u8>::empty(),
        buffer_unsplit(r),
{
    BytesMut::with_capacity(capacity)
}

/// `BytesMut::from` a slice: a buffer with a copy of the bytes.
#[verifier::external_body]
pub(crate) fn buffer_from(src: &[u8]) -> (r: BytesMut)
    ensures
        buffer_content(r) == src@,
{
    BytesMut::from(src)
}

/// `BytesMut::len`: how many bytes there are.
#[verifier::external_body]
pub(crate) fn buffer_len(b: &BytesMut) -> (r: usize)
    ensures
        r == buffer_content(*b).len(),
{
    b.len()
}

/// `BytesMut::as_ref`: the bytes as a slice.
#[verifier::external_body]
pub(crate) fn buffer_as_slice(b: &BytesMut) -> (r: &[u8])
    ensures
        r@ == buffer_content(*b),
{
    b.as_ref()
}

/// `BytesMut::extend_from_slice`: puts the bytes of `extra` behind those of the buffer.
/// It panics where the buffer would have to grow beyond what an allocation can have. A
/// buffer doubles when it grows, and bytes that `split_to` took from its front still take
/// up room, so the buffer must be unsplit, and the bytes together no more than half of
/// that.
#[verifier::external_body]
pub(crate) fn buffer_extend(b: &mut BytesMut, extra: &[u8])
    requires
        buffer_unsplit(*old(b)),
        2 * (buffer_content(*old(b)).len() + extra@.len()) <= isize::MAX,
    ensures
        buffer_content(*final(b)) == buffer_content(*old(b)) + extra@,
        buffer_unsplit(*final(b)),
{
    b.extend_from_slice(extra)
}

/// `BytesMut::clear`: takes all bytes out.
#[verifier::external_body]
pub(crate) fn buffer_clear(b: &mut BytesMut)
    ensures
        buffer_content(*final(b)) == Seq::<u8>::empty(),
{
    b.clear()
}

/// `BytesMut::split_to`: takes the first `at` bytes out. It panics where there are
/// fewer.
#[verifier::external_body]
pub(crate) fn buffer_split_to(b: &mut BytesMut, at: usize) -> (r: BytesMut)
    requires
        at <= buffer_content(*old(b)).len(),
    ensures
        buffer_content(r) == buffer_content(*old(b)).subrange(0, at as int),
        buffer_content(*final(b)) == buffer_content(*old(b)).subrange(
            at as int,
            buffer_content(*old(b)).len() as int,
        ),
{
    b.split_to(at)
}

/// `BytesMut::freeze`: the same bytes, no longer mutable.
#[verifier::external_body]
pub(crate) fn buffer_freeze(b: BytesMut) -> (r: Bytes)
    ensures
        bytes_content(r) == buffer_content(b),
{
    b.freeze()
}

/// `dst` with its first bytes replaced by those of `src`.
pub open spec fn overwritten(dst: Seq<u8>, src: Seq<u8>) -> Seq<u8> {
    src + dst.subrange(src.len() as int, dst.len() as int)
}

/// Copies the first `n` bytes of `src` to the front of `dst`.
pub fn copy_front(dst: &mut [u8], src: &[u8], n: usize)
    requires
        n <= old(dst)@.len(),
        n <= src@.len(),
    ensures
        final(dst)@ == overwritten(old(dst)@, src@.subrange(0, n as int)),
{
    let ghost before = dst@;
    let mut i: usize = 0;
    while i < n
        invariant
            i <= n <= src@.len(),
            n <= before.len(),
            dst@ == src@.subrange(0, i as int) + before.subrange(i as int, before.len() as int),
        decreases n - i,
    {
        dst[i] = src[i];
        i += 1;
        assert(dst@ =~= src@.subrange(0, i as int) + before.subrange(
            i as int,
            before.len() as int,
        ));
    }
    assert(src@.subrange(0, n as int).len() == n);
}

/// Writing over the front of a buffer leaves its length and the bytes behind.
pub proof fn law_overwriting_leaves_the_rest(dst: Seq<u8>, src: Seq<u8>, k: int)
    requires
        src.len() <= dst.len(),
        0 <= k < dst.len(),
    ensures
        overwritten(dst, src).len() == dst.len(),
        k < src.len() ==> overwritten(dst, src)[k] == src[k],
        k >= src.len() ==> overwritten(dst, src)[k] == dst[k],
{
}

} // verus!

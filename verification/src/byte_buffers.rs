//! The shared byte buffers that carry packets between tasks.
//!
//! Packets travel as `bytes::Bytes` and are assembled in a `bytes::BytesMut`. This module
//! states what the methods the library calls do to the bytes held by such a buffer.
use bytes::BufMut;
use bytes::Bytes;
use bytes::BytesMut;
use vstd::prelude::*;

verus! {

#[verifier::external_type_specification]
#[verifier::external_body]
pub struct ExBytes(bytes::Bytes);

#[verifier::external_type_specification]
#[verifier::external_body]
pub struct ExBytesMut(bytes::BytesMut);

/// The bytes that a `Bytes` handle gives access to.
pub uninterp spec fn bytes_content(b: Bytes) -> Seq<u8>;

/// The bytes written so far to a `BytesMut`.
pub uninterp spec fn buffer_content(b: BytesMut) -> Seq<u8>;

/// `Bytes::len` counts the bytes. A `Bytes` hands itself out as one slice, and no slice is
/// longer than `isize::MAX` bytes.
pub assume_specification[ Bytes::len ](b: &Bytes) -> (n: usize)
    ensures
        n == bytes_content(*b).len(),
        n <= isize::MAX,
;

/// `Bytes::is_empty` tells whether there are no bytes.
pub assume_specification[ Bytes::is_empty ](b: &Bytes) -> (r: bool)
    ensures
        r == (bytes_content(*b).len() == 0),
;

/// Indexing a `Bytes`, through the slice it dereferences to, gives the byte at that place.
#[verifier::external_body]
pub(crate) fn byte_at(b: &Bytes, i: usize) -> (r: u8)
    requires
        i < bytes_content(*b).len(),
    ensures
        r == bytes_content(*b)[i as int],
{
    b[i]
}

/// `Bytes::slice` over a half-open range gives a handle to exactly those bytes.
#[verifier::external_body]
pub(crate) fn slice_bytes(b: &Bytes, from: usize, to: usize) -> (r: Bytes)
    requires
        from <= to <= bytes_content(*b).len(),
    ensures
        bytes_content(r) == bytes_content(*b).subrange(from as int, to as int),
{
    b.slice(from..to)
}

/// `BytesMut::new` is empty.
pub assume_specification[ BytesMut::new ]() -> (b: BytesMut)
    ensures
        buffer_content(b) == Seq::<u8>::empty(),
;

/// `BytesMut::with_capacity` is empty, whatever it has set aside. It allocates, so it must
/// not be asked for more than one allocation can hold.
pub assume_specification[ BytesMut::with_capacity ](capacity: usize) -> (b: BytesMut)
    requires
        capacity <= isize::MAX,
    ensures
        buffer_content(b) == Seq::<u8>::empty(),
;

/// `BytesMut::clear` drops all bytes.
pub assume_specification[ BytesMut::clear ](b: &mut BytesMut)
    ensures
        buffer_content(*final(b)) == Seq::<u8>::empty(),
;

/// `BytesMut::resize` cuts the buffer, or extends it with copies of `value`.
pub assume_specification[ BytesMut::resize ](b: &mut BytesMut, new_len: usize, value: u8)
    requires
        new_len <= isize::MAX,
    ensures
        buffer_content(*final(b)) == (if new_len <= buffer_content(*old(b)).len() {
            buffer_content(*old(b)).take(new_len as int)
        } else {
            buffer_content(*old(b)) + Seq::new(
                (new_len - buffer_content(*old(b)).len()) as nat,
                |i: int| value,
            )
        }),
;

/// `BytesMut::split` hands out all bytes and leaves the buffer empty.
pub assume_specification[ BytesMut::split ](b: &mut BytesMut) -> (r: BytesMut)
    ensures
        buffer_content(r) == buffer_content(*old(b)),
        buffer_content(*final(b)) == Seq::<u8>::empty(),
;

/// `BytesMut::freeze` keeps the bytes.
pub assume_specification[ BytesMut::freeze ](b: BytesMut) -> (r: Bytes)
    ensures
        bytes_content(r) == buffer_content(b),
;

/// `BufMut::put` on a `BytesMut` appends all bytes of `src`. One allocation holds at most
/// `isize::MAX` bytes.
#[verifier::external_body]
pub(crate) fn append_bytes(buf: &mut BytesMut, src: Bytes)
    requires
        buffer_content(*old(buf)).len() + bytes_content(src).len() <= isize::MAX,
    ensures
        buffer_content(*final(buf)) == buffer_content(*old(buf)) + bytes_content(src),
{
    buf.put(src);
}

/// `BufMut::put_u8` on a `BytesMut` appends one byte.
#[verifier::external_body]
pub(crate) fn append_byte(buf: &mut BytesMut, value: u8)
    requires
        buffer_content(*old(buf)).len() < isize::MAX,
    ensures
        buffer_content(*final(buf)) == buffer_content(*old(buf)).push(value),
{
    buf.put_u8(value);
}

} // verus!

//! Contracts for the byte buffers of the `bytes` crate.
//!
//! `Bytes` and `BytesMut` are opaque to the verifier. Each is given a model,
//! the sequence of bytes it currently spans, and every method the codecs call
//! is reached through a function here whose contract speaks of that model.
//! Nothing in this file is proved: each contract restates what the method's
//! source in `bytes` does.

use bytes::{Buf, BufMut, Bytes, BytesMut};
use vstd::prelude::*;

verus! {

#[verifier::external_type_specification]
#[verifier::external_body]
pub struct ExBytes(bytes::Bytes);

#[verifier::external_type_specification]
#[verifier::external_body]
pub struct ExBytesMut(bytes::BytesMut);

/// The bytes a `Bytes` handle spans, next byte to read first.
pub uninterp spec fn bytes_view(b: Bytes) -> Seq<u8>;

/// The bytes a `BytesMut` handle spans, oldest byte first.
pub uninterp spec fn bytes_mut_view(b: BytesMut) -> Seq<u8>;

/// The largest length a buffer can reach: `BytesMut` reports
/// `isize::MAX - len` as the room that is left.
pub open spec fn max_buf_len() -> int {
    isize::MAX as int
}

/// Big-endian value of the first two bytes of `s`.
pub open spec fn be_u16(s: Seq<u8>) -> int {
    s[0] as int * 256 + s[1] as int
}

/// Big-endian value of the first four bytes of `s`.
pub open spec fn be_u32(s: Seq<u8>) -> int {
    ((s[0] as int * 256 + s[1] as int) * 256 + s[2] as int) * 256 + s[3] as int
}

/// The two bytes of `n`, high byte first.
pub open spec fn u16_bytes(n: u16) -> Seq<u8> {
    seq![(n / 256) as u8, (n % 256) as u8]
}

/// The four bytes of `n`, high byte first.
pub open spec fn u32_bytes(n: u32) -> Seq<u8> {
    seq![
        (n / 0x100_0000) as u8,
        (n / 0x1_0000 % 256) as u8,
        (n / 0x100 % 256) as u8,
        (n % 256) as u8,
    ]
}

/// `Bytes::len`: the number of bytes the handle spans.
#[verifier::external_body]
pub(crate) fn remaining(src: &Bytes) -> (n: usize)
    ensures
        n == bytes_view(*src).len(),
{
    src.len()
}

/// `Buf::has_remaining` on `Bytes`: whether any byte is left to read.
#[verifier::external_body]
pub(crate) fn has_remaining(src: &Bytes) -> (b: bool)
    ensures
        b == (bytes_view(*src).len() > 0),
{
    src.has_remaining()
}

/// `Buf::get_u8` on `Bytes`: returns the first byte and moves past it.
/// It panics on an empty buffer, which `requires` leaves out.
#[verifier::external_body]
pub(crate) fn get_u8(src: &mut Bytes) -> (v: u8)
    requires
        bytes_view(*old(src)).len() >= 1,
    ensures
        v == bytes_view(*old(src))[0],
        bytes_view(*final(src)) == bytes_view(*old(src)).skip(1),
{
    src.get_u8()
}

/// `Buf::get_u16` on `Bytes`: returns the first two bytes as a big-endian
/// integer and moves past them. It panics when fewer than two bytes are left.
#[verifier::external_body]
pub(crate) fn get_u16(src: &mut Bytes) -> (v: u16)
    requires
        bytes_view(*old(src)).len() >= 2,
    ensures
        v == be_u16(bytes_view(*old(src))),
        bytes_view(*final(src)) == bytes_view(*old(src)).skip(2),
{
    src.get_u16()
}

/// `Buf::get_u32` on `Bytes`: returns the first four bytes as a big-endian
/// integer and moves past them. It panics when fewer than four bytes are left.
#[verifier::external_body]
pub(crate) fn get_u32(src: &mut Bytes) -> (v: u32)
    requires
        bytes_view(*old(src)).len() >= 4,
    ensures
        v == be_u32(bytes_view(*old(src))),
        bytes_view(*final(src)) == bytes_view(*old(src)).skip(4),
{
    src.get_u32()
}

/// `Buf::advance` on `Bytes`: drops the first `cnt` bytes. It panics when
/// `cnt` exceeds the length.
#[verifier::external_body]
pub(crate) fn advance(src: &mut Bytes, cnt: usize)
    requires
        cnt <= bytes_view(*old(src)).len(),
    ensures
        bytes_view(*final(src)) == bytes_view(*old(src)).skip(cnt as int),
{
    src.advance(cnt)
}

/// `Bytes::split_to`: returns the first `at` bytes and leaves the rest in
/// `src`. It panics when `at` exceeds the length.
#[verifier::external_body]
pub(crate) fn split_to(src: &mut Bytes, at: usize) -> (head: Bytes)
    requires
        at <= bytes_view(*old(src)).len(),
    ensures
        bytes_view(head) == bytes_view(*old(src)).take(at as int),
        bytes_view(*final(src)) == bytes_view(*old(src)).skip(at as int),
{
    src.split_to(at)
}

/// `AsRef<[u8]>` of `Bytes`: the bytes the handle spans.
#[verifier::external_body]
pub(crate) fn chunk(src: &Bytes) -> (s: &[u8])
    ensures
        s@ == bytes_view(*src),
{
    src.as_ref()
}

/// `<[u8]>::to_vec` on the slice that `Bytes` derefs to: an owned copy of
/// the bytes the handle spans.
#[verifier::external_body]
pub(crate) fn to_vec(src: &Bytes) -> (v: Vec<u8>)
    ensures
        v@ == bytes_view(*src),
{
    src.to_vec()
}

/// `BytesMut::len`: the number of bytes the handle spans.
#[verifier::external_body]
pub(crate) fn len(buf: &BytesMut) -> (n: usize)
    ensures
        n == bytes_mut_view(*buf).len(),
{
    buf.len()
}

/// `AsRef<[u8]>` of `BytesMut`: the bytes the handle spans.
#[verifier::external_body]
pub(crate) fn as_slice(buf: &BytesMut) -> (s: &[u8])
    ensures
        s@ == bytes_mut_view(*buf),
{
    buf.as_ref()
}

/// `BytesMut::reserve`: makes room for `additional` more bytes and leaves
/// the contents as they are. It panics when the capacity asked for overflows,
/// so the sum must stay within what a buffer can hold.
#[verifier::external_body]
pub(crate) fn reserve(buf: &mut BytesMut, additional: usize)
    requires
        bytes_mut_view(*old(buf)).len() + additional <= max_buf_len(),
    ensures
        bytes_mut_view(*final(buf)) == bytes_mut_view(*old(buf)),
{
    buf.reserve(additional)
}

/// `Buf::advance` on `BytesMut`: drops the first `cnt` bytes. It panics when
/// `cnt` exceeds the length.
#[verifier::external_body]
pub(crate) fn advance_mut(buf: &mut BytesMut, cnt: usize)
    requires
        cnt <= bytes_mut_view(*old(buf)).len(),
    ensures
        bytes_mut_view(*final(buf)) == bytes_mut_view(*old(buf)).skip(cnt as int),
{
    buf.advance(cnt)
}

/// `BytesMut::split_to`: returns the first `at` bytes and leaves the rest in
/// `buf`. It panics when `at` exceeds the length.
#[verifier::external_body]
pub(crate) fn split_to_mut(buf: &mut BytesMut, at: usize) -> (head: BytesMut)
    requires
        at <= bytes_mut_view(*old(buf)).len(),
    ensures
        bytes_mut_view(head) == bytes_mut_view(*old(buf)).take(at as int),
        bytes_mut_view(*final(buf)) == bytes_mut_view(*old(buf)).skip(at as int),
{
    buf.split_to(at)
}

/// `BytesMut::freeze`: the same bytes behind an immutable handle.
#[verifier::external_body]
pub(crate) fn freeze(buf: BytesMut) -> (b: Bytes)
    ensures
        bytes_view(b) == bytes_mut_view(buf),
{
    buf.freeze()
}

/// `BufMut::put_u8` on `BytesMut`: appends one byte. It panics when no room
/// is left.
#[verifier::external_body]
pub(crate) fn put_u8(dst: &mut BytesMut, n: u8)
    requires
        bytes_mut_view(*old(dst)).len() + 1 <= max_buf_len(),
    ensures
        bytes_mut_view(*final(dst)) == bytes_mut_view(*old(dst)).push(n),
{
    dst.put_u8(n)
}

/// `BufMut::put_u16` on `BytesMut`: appends `n` as two bytes, high byte
/// first. It panics when no room is left.
#[verifier::external_body]
pub(crate) fn put_u16(dst: &mut BytesMut, n: u16)
    requires
        bytes_mut_view(*old(dst)).len() + 2 <= max_buf_len(),
    ensures
        bytes_mut_view(*final(dst)) == bytes_mut_view(*old(dst)) + u16_bytes(n),
{
    dst.put_u16(n)
}

/// `BufMut::put_u32` on `BytesMut`: appends `n` as four bytes, high byte
/// first. It panics when no room is left.
#[verifier::external_body]
pub(crate) fn put_u32(dst: &mut BytesMut, n: u32)
    requires
        bytes_mut_view(*old(dst)).len() + 4 <= max_buf_len(),
    ensures
        bytes_mut_view(*final(dst)) == bytes_mut_view(*old(dst)) + u32_bytes(n),
{
    dst.put_u32(n)
}

/// `BytesMut::extend_from_slice`: appends the bytes of `extend`. It panics
/// when no room is left.
#[verifier::external_body]
pub(crate) fn extend_from_slice(dst: &mut BytesMut, extend: &[u8])
    requires
        bytes_mut_view(*old(dst)).len() + extend@.len() <= max_buf_len(),
    ensures
        bytes_mut_view(*final(dst)) == bytes_mut_view(*old(dst)) + extend@,
{
    dst.extend_from_slice(extend)
}

} // verus!

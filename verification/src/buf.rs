//! The byte buffers of the `bytes` crate (re-exported by `tokio_util`) that
//! carry every encoded value, and the few `std` string and error functions the
//! codec needs. Each function here makes one outside call; its contract states
//! what that call does to the buffer contents, named by `bytes_view` and
//! `bytes_mut_view`.
use vstd::prelude::*;
use vstd::utf8::*;
use tokio_util::bytes::{Buf, BufMut, Bytes, BytesMut};
use crate::wire::be_value;
use crate::wire::be_bytes;

verus! {

#[verifier::external_type_specification]
#[verifier::external_body]
pub struct ExBytes(Bytes);

#[verifier::external_type_specification]
#[verifier::external_body]
pub struct ExBytesMut(BytesMut);

#[verifier::external_type_specification]
#[verifier::external_body]
pub struct ExIoError(std::io::Error);

/// The bytes a `Bytes` holds, from its read position to its end.
pub uninterp spec fn bytes_view(b: Bytes) -> Seq<u8>;

/// The bytes a `BytesMut` holds, first to last.
pub uninterp spec fn bytes_mut_view(b: BytesMut) -> Seq<u8>;

/// What `String::from_utf8_lossy` makes of a byte slice.
pub uninterp spec fn utf8_lossy(bytes: Seq<u8>) -> Seq<char>;

/// `<Bytes as Buf>::remaining`: the number of unread bytes.
#[verifier::external_body]
pub(crate) fn bytes_remaining(b: &Bytes) -> (r: usize)
    ensures
        r == bytes_view(*b).len(),
{
    b.remaining()
}

/// `<Bytes as Deref>::deref`: the unread bytes as a slice.
#[verifier::external_body]
pub(crate) fn bytes_as_slice(b: &Bytes) -> (r: &[u8])
    ensures
        r@ == bytes_view(*b),
{
    b
}

/// `Bytes::copy_from_slice`: a buffer holding a copy of `s`.
#[verifier::external_body]
pub(crate) fn bytes_copy_from_slice(s: &[u8]) -> (r: Bytes)
    ensures
        bytes_view(r) == s@,
{
    Bytes::copy_from_slice(s)
}

/// `<Bytes as Clone>::clone`: another handle on the same bytes.
pub assume_specification[ <Bytes as Clone>::clone ](b: &Bytes) -> (r: Bytes)
    ensures
        bytes_view(r) == bytes_view(*b),
;

/// `<Bytes as Buf>::get_u8`: takes the first byte.
#[verifier::external_body]
pub(crate) fn bytes_get_u8(b: &mut Bytes) -> (r: u8)
    requires
        bytes_view(*old(b)).len() >= 1,
    ensures
        r == bytes_view(*old(b))[0],
        bytes_view(*final(b)) == bytes_view(*old(b)).skip(1),
{
    b.get_u8()
}

/// `<Bytes as Buf>::get_u16`: takes two bytes as a big-endian integer.
#[verifier::external_body]
pub(crate) fn bytes_get_u16(b: &mut Bytes) -> (r: u16)
    requires
        bytes_view(*old(b)).len() >= 2,
    ensures
        r as nat == be_value(bytes_view(*old(b)).take(2)),
        bytes_view(*final(b)) == bytes_view(*old(b)).skip(2),
{
    b.get_u16()
}

/// `<Bytes as Buf>::get_u32`: takes four bytes as a big-endian integer.
#[verifier::external_body]
pub(crate) fn bytes_get_u32(b: &mut Bytes) -> (r: u32)
    requires
        bytes_view(*old(b)).len() >= 4,
    ensures
        r as nat == be_value(bytes_view(*old(b)).take(4)),
        bytes_view(*final(b)) == bytes_view(*old(b)).skip(4),
{
    b.get_u32()
}

/// `<Bytes as Buf>::get_uint`: takes `n` bytes as a big-endian integer.
#[verifier::external_body]
pub(crate) fn bytes_get_uint(b: &mut Bytes, n: usize) -> (r: u64)
    requires
        n <= 8,
        bytes_view(*old(b)).len() >= n,
    ensures
        r as nat == be_value(bytes_view(*old(b)).take(n as int)),
        bytes_view(*final(b)) == bytes_view(*old(b)).skip(n as int),
{
    b.get_uint(n)
}

/// `<Bytes as Buf>::copy_to_slice`: moves the first `N` bytes into `dst`.
#[verifier::external_body]
pub(crate) fn bytes_copy_to_array<const N: usize>(b: &mut Bytes, dst: &mut [u8; N])
    requires
        bytes_view(*old(b)).len() >= N,
    ensures
        final(dst)@ == bytes_view(*old(b)).take(N as int),
        bytes_view(*final(b)) == bytes_view(*old(b)).skip(N as int),
{
    b.copy_to_slice(dst)
}

/// `Bytes::split_to`: detaches the first `at` bytes.
#[verifier::external_body]
pub(crate) fn bytes_split_to(b: &mut Bytes, at: usize) -> (r: Bytes)
    requires
        at <= bytes_view(*old(b)).len(),
    ensures
        bytes_view(r) == bytes_view(*old(b)).take(at as int),
        bytes_view(*final(b)) == bytes_view(*old(b)).skip(at as int),
{
    b.split_to(at)
}

/// `BytesMut::new`: an empty buffer.
#[verifier::external_body]
pub(crate) fn bytes_mut_new() -> (r: BytesMut)
    ensures
        bytes_mut_view(r) == Seq::<u8>::empty(),
{
    BytesMut::new()
}

/// `<BytesMut as Deref>::deref`: the contents as a slice.
#[verifier::external_body]
pub(crate) fn bytes_mut_as_slice(b: &BytesMut) -> (r: &[u8])
    ensures
        r@ == bytes_mut_view(*b),
{
    b
}

/// `<BytesMut as BufMut>::put_u8`: appends one byte.
#[verifier::external_body]
pub(crate) fn bytes_mut_put_u8(b: &mut BytesMut, v: u8)
    requires
        bytes_mut_view(*old(b)).len() + 1 <= isize::MAX,
    ensures
        bytes_mut_view(*final(b)) == bytes_mut_view(*old(b)).push(v),
{
    b.put_u8(v)
}

/// `<BytesMut as BufMut>::put_u16`: appends two bytes, big-endian.
#[verifier::external_body]
pub(crate) fn bytes_mut_put_u16(b: &mut BytesMut, v: u16)
    requires
        bytes_mut_view(*old(b)).len() + 2 <= isize::MAX,
    ensures
        bytes_mut_view(*final(b)) == bytes_mut_view(*old(b)) + be_bytes(v as nat, 2),
{
    b.put_u16(v)
}

/// `<BytesMut as BufMut>::put_u32`: appends four bytes, big-endian.
#[verifier::external_body]
pub(crate) fn bytes_mut_put_u32(b: &mut BytesMut, v: u32)
    requires
        bytes_mut_view(*old(b)).len() + 4 <= isize::MAX,
    ensures
        bytes_mut_view(*final(b)) == bytes_mut_view(*old(b)) + be_bytes(v as nat, 4),
{
    b.put_u32(v)
}

/// `<BytesMut as BufMut>::put_uint`: appends the `n` low bytes of `v`, big-endian.
#[verifier::external_body]
pub(crate) fn bytes_mut_put_uint(b: &mut BytesMut, v: u64, n: usize)
    requires
        n <= 8,
        bytes_mut_view(*old(b)).len() + n <= isize::MAX,
    ensures
        bytes_mut_view(*final(b)) == bytes_mut_view(*old(b)) + be_bytes(v as nat, n as nat),
{
    b.put_uint(v, n)
}

/// `<BytesMut as BufMut>::put_slice`: appends a copy of `s`.
#[verifier::external_body]
pub(crate) fn bytes_mut_put_slice(b: &mut BytesMut, s: &[u8])
    requires
        bytes_mut_view(*old(b)).len() + s@.len() <= isize::MAX,
    ensures
        bytes_mut_view(*final(b)) == bytes_mut_view(*old(b)) + s@,
{
    b.put_slice(s)
}

/// `BytesMut::extend_from_slice`: appends a copy of `s`.
#[verifier::external_body]
pub(crate) fn bytes_mut_extend_from_slice(b: &mut BytesMut, s: &[u8])
    requires
        bytes_mut_view(*old(b)).len() + s@.len() <= isize::MAX,
    ensures
        bytes_mut_view(*final(b)) == bytes_mut_view(*old(b)) + s@,
{
    b.extend_from_slice(s)
}

/// `BytesMut::reserve`: makes room for more bytes; the contents stay.
#[verifier::external_body]
pub(crate) fn bytes_mut_reserve(b: &mut BytesMut, additional: usize)
    requires
        bytes_mut_view(*old(b)).len() + additional <= isize::MAX,
    ensures
        bytes_mut_view(*final(b)) == bytes_mut_view(*old(b)),
{
    b.reserve(additional)
}

/// `BytesMut::split_to`: detaches the first `at` bytes.
#[verifier::external_body]
pub(crate) fn bytes_mut_split_to(b: &mut BytesMut, at: usize) -> (r: BytesMut)
    requires
        at <= bytes_mut_view(*old(b)).len(),
    ensures
        bytes_mut_view(r) == bytes_mut_view(*old(b)).take(at as int),
        bytes_mut_view(*final(b)) == bytes_mut_view(*old(b)).skip(at as int),
{
    b.split_to(at)
}

/// `BytesMut::freeze`: the same bytes as an immutable buffer.
#[verifier::external_body]
pub(crate) fn bytes_mut_freeze(b: BytesMut) -> (r: Bytes)
    ensures
        bytes_view(r) == bytes_mut_view(b),
{
    b.freeze()
}

/// `String::push`: appends one character.
#[verifier::external_body]
pub(crate) fn string_push(s: &mut String, c: char)
    ensures
        final(s)@ == old(s)@.push(c),
{
    s.push(c)
}

/// `String::from_utf8_lossy`, made owned: the text of `b`, with each invalid
/// UTF-8 sequence replaced; valid UTF-8 is decoded unchanged.
#[verifier::external_body]
pub(crate) fn string_from_utf8_lossy(b: &[u8]) -> (r: String)
    ensures
        r@ == utf8_lossy(b@),
        valid_utf8(b@) ==> r@ == decode_utf8(b@),
{
    String::from_utf8_lossy(b).into_owned()
}

/// `std::io::Error::other`: an I/O error of kind `Other` carrying `msg`.
#[verifier::external_body]
pub(crate) fn io_error_other(msg: &str) -> std::io::Error {
    std::io::Error::other(msg)
}

} // verus!

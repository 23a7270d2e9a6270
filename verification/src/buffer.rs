//! The byte buffer of the `bytes` crate, seen as the sequence of bytes it holds.
//!
//! Every item here is trusted: its contract restates what the `bytes` source shows.

use vstd::prelude::*;
use bytes::{Buf, BufMut, BytesMut};

verus! {

#[verifier::external_type_specification]
#[verifier::external_body]
pub struct ExBytesMut(BytesMut);

/// The bytes a `BytesMut` holds, front first.
pub uninterp spec fn bytes_view(b: BytesMut) -> Seq<u8>;

/// The largest number of bytes a `BytesMut` can grow to (`isize::MAX`).
pub open spec fn bytes_capacity_limit() -> int {
    isize::MAX as int
}

/// Big-endian reading of two bytes.
pub open spec fn be_u16(b0: u8, b1: u8) -> u16 {
    (((b0 as u16) << 8u16) | (b1 as u16)) as u16
}

/// Big-endian reading of the first eight bytes of `s`.
pub open spec fn be_u64(s: Seq<u8>) -> u64 {
    ((s[0] as u64) << 56u64) | ((s[1] as u64) << 48u64) | ((s[2] as u64) << 40u64) | ((s[3] as u64)
        << 32u64) | ((s[4] as u64) << 24u64) | ((s[5] as u64) << 16u64) | ((s[6] as u64) << 8u64) | (
    s[7] as u64)
}

/// Little-endian reading of the first eight bytes of `s`.
pub open spec fn le_u64(s: Seq<u8>) -> u64 {
    ((s[7] as u64) << 56u64) | ((s[6] as u64) << 48u64) | ((s[5] as u64) << 40u64) | ((s[4] as u64)
        << 32u64) | ((s[3] as u64) << 24u64) | ((s[2] as u64) << 16u64) | ((s[1] as u64) << 8u64) | (
    s[0] as u64)
}

/// The eight bytes of `v`, most significant first.
pub open spec fn be_bytes_u64(v: u64) -> Seq<u8> {
    seq![
        (v >> 56u64) as u8,
        (v >> 48u64) as u8,
        (v >> 40u64) as u8,
        (v >> 32u64) as u8,
        (v >> 24u64) as u8,
        (v >> 16u64) as u8,
        (v >> 8u64) as u8,
        v as u8,
    ]
}

/// `BytesMut::new`: an empty buffer.
#[verifier::external_body]
pub(crate) fn bytes_new() -> (r: BytesMut)
    ensures
        bytes_view(r) == Seq::<u8>::empty(),
{
    BytesMut::new()
}

/// `BytesMut::len`: the number of bytes held.
#[verifier::external_body]
pub(crate) fn bytes_len(b: &BytesMut) -> (r: usize)
    ensures
        r == bytes_view(*b).len(),
{
    b.len()
}

/// `Buf::has_remaining` on a `BytesMut`: whether any byte is held.
#[verifier::external_body]
pub(crate) fn bytes_has_remaining(b: &BytesMut) -> (r: bool)
    ensures
        r == (bytes_view(*b).len() > 0),
{
    b.has_remaining()
}

/// `Deref` of a `BytesMut`: the held bytes as a slice.
#[verifier::external_body]
pub(crate) fn bytes_as_slice(b: &BytesMut) -> (r: &[u8])
    ensures
        r@ == bytes_view(*b),
{
    &b[..]
}

/// `Clone` of a `BytesMut`: a buffer holding the same bytes.
#[verifier::external_body]
pub(crate) fn bytes_clone(b: &BytesMut) -> (r: BytesMut)
    ensures
        bytes_view(r) == bytes_view(*b),
{
    b.clone()
}

/// `Buf::get_u8`: removes and returns the first byte. It panics on an empty buffer.
#[verifier::external_body]
pub(crate) fn bytes_get_u8(b: &mut BytesMut) -> (r: u8)
    requires
        bytes_view(*old(b)).len() >= 1,
    ensures
        r == bytes_view(*old(b))[0],
        bytes_view(*final(b)) == bytes_view(*old(b)).skip(1),
{
    b.get_u8()
}

/// `Buf::get_u16`: removes the first two bytes and returns them read big-endian.
/// It panics when fewer than two bytes are held.
#[verifier::external_body]
pub(crate) fn bytes_get_u16(b: &mut BytesMut) -> (r: u16)
    requires
        bytes_view(*old(b)).len() >= 2,
    ensures
        r == be_u16(bytes_view(*old(b))[0], bytes_view(*old(b))[1]),
        bytes_view(*final(b)) == bytes_view(*old(b)).skip(2),
{
    b.get_u16()
}

/// `Buf::get_i64`: removes the first eight bytes and returns them read big-endian as a
/// two's-complement value. It panics when fewer than eight bytes are held.
#[verifier::external_body]
pub(crate) fn bytes_get_i64(b: &mut BytesMut) -> (r: i64)
    requires
        bytes_view(*old(b)).len() >= 8,
    ensures
        r == be_u64(bytes_view(*old(b))) as i64,
        bytes_view(*final(b)) == bytes_view(*old(b)).skip(8),
{
    b.get_i64()
}

/// `BytesMut::split_to`: removes the first `at` bytes and returns them as a new buffer.
/// It panics when `at` exceeds the length.
#[verifier::external_body]
pub(crate) fn bytes_split_to(b: &mut BytesMut, at: usize) -> (r: BytesMut)
    requires
        at <= bytes_view(*old(b)).len(),
    ensures
        bytes_view(r) == bytes_view(*old(b)).take(at as int),
        bytes_view(*final(b)) == bytes_view(*old(b)).skip(at as int),
{
    b.split_to(at)
}

/// `Buf::advance`: drops the first `cnt` bytes. It panics when `cnt` exceeds the length.
#[verifier::external_body]
pub(crate) fn bytes_advance(b: &mut BytesMut, cnt: usize)
    requires
        cnt <= bytes_view(*old(b)).len(),
    ensures
        bytes_view(*final(b)) == bytes_view(*old(b)).skip(cnt as int),
{
    b.advance(cnt)
}

/// `BufMut::put_i64`: appends the eight bytes of `n`, most significant first.
#[verifier::external_body]
pub(crate) fn bytes_put_i64(b: &mut BytesMut, n: i64)
    requires
        bytes_view(*old(b)).len() + 8 <= bytes_capacity_limit(),
    ensures
        bytes_view(*final(b)) == bytes_view(*old(b)) + be_bytes_u64(n as u64),
{
    b.put_i64(n)
}

/// `BytesMut::extend_from_slice`: appends the bytes of `s`.
#[verifier::external_body]
pub(crate) fn bytes_extend_from_slice(b: &mut BytesMut, s: &[u8])
    requires
        bytes_view(*old(b)).len() + s@.len() <= bytes_capacity_limit(),
    ensures
        bytes_view(*final(b)) == bytes_view(*old(b)) + s@,
{
    b.extend_from_slice(s)
}

/// Reading back the eight bytes of a value, most significant first, gives the value.
pub proof fn lemma_be_u64_round_trip(v: u64)
    ensures
        be_u64(be_bytes_u64(v)) == v,
{
    let s = be_bytes_u64(v);
    let b0 = (v >> 56u64) as u8;
    let b1 = (v >> 48u64) as u8;
    let b2 = (v >> 40u64) as u8;
    let b3 = (v >> 32u64) as u8;
    let b4 = (v >> 24u64) as u8;
    let b5 = (v >> 16u64) as u8;
    let b6 = (v >> 8u64) as u8;
    let b7 = v as u8;
    assert(s[0] == b0 && s[1] == b1 && s[2] == b2 && s[3] == b3 && s[4] == b4 && s[5] == b5 && s[6]
        == b6 && s[7] == b7);
    assert(((b0 as u64) << 56u64) | ((b1 as u64) << 48u64) | ((b2 as u64) << 40u64) | ((b3 as u64)
        << 32u64) | ((b4 as u64) << 24u64) | ((b5 as u64) << 16u64) | ((b6 as u64) << 8u64) | (
    b7 as u64) == v) by (bit_vector)
        requires
            b0 == (v >> 56u64) as u8,
            b1 == (v >> 48u64) as u8,
            b2 == (v >> 40u64) as u8,
            b3 == (v >> 32u64) as u8,
            b4 == (v >> 24u64) as u8,
            b5 == (v >> 16u64) as u8,
            b6 == (v >> 8u64) as u8,
            b7 == v as u8,
    ;
}

} // verus!

//! Status-state and play-state packet bodies.

use vstd::prelude::*;
use bytes::BytesMut;
use crate::codec::{read_string, spec_read_string};
use crate::buffer::{
    bytes_view,
    bytes_new,
    bytes_len,
    bytes_get_i64,
    bytes_put_i64,
    be_u64,
    be_bytes_u64,
    lemma_be_u64_round_trip,
};

verus! {

/// The body of an eight-byte value packet: the value, most significant byte first.
pub open spec fn i64_body(v: i64) -> Seq<u8> {
    be_bytes_u64(v as u64)
}

/// What decoding an eight-byte value body from `s` yields: None when fewer than eight
/// bytes are there, else the value they hold read big-endian.
pub open spec fn spec_decode_i64(s: Seq<u8>) -> Option<i64> {
    if s.len() < 8 {
        None
    } else {
        Some(be_u64(s) as i64)
    }
}

/// C→S, Status state, ID 0x00
pub struct StatusRequest;

impl StatusRequest {
    pub const ID: i32 = 0x00;

    /// The request has an empty body.
    pub fn encode(&self) -> (r: BytesMut)
        ensures
            bytes_view(r) == Seq::<u8>::empty(),
    {
        bytes_new()
    }
}

/// S→C, Status state, ID 0x00
pub struct StatusResponse {
    pub json: String,
}

impl StatusResponse {
    pub const ID: i32 = 0x00;

    /// The longest status text, in characters.
    pub const MAX_JSON_LEN: usize = 32767;

    /// Decodes the status text, a protocol string of at most `MAX_JSON_LEN` characters.
    pub fn decode(buf: &mut BytesMut) -> (r: Option<Self>)
        ensures
            match spec_read_string(bytes_view(*old(buf)), 32767) {
                Some((text, n)) => r matches Some(sr) && vstd::utf8::encode_utf8(sr.json@) == text
                    && bytes_view(*final(buf)) == bytes_view(*old(buf)).skip(n as int),
                None => r is None && bytes_view(*final(buf)) == bytes_view(*old(buf)),
            },
    {
        match read_string(buf, Self::MAX_JSON_LEN) {
            Some(json) => Some(Self { json }),
            None => None,
        }
    }
}

/// C→S, Status state, ID 0x01
pub struct PingRequest {
    pub payload: i64,
}

impl PingRequest {
    pub const ID: i32 = 0x01;

    pub fn encode(&self) -> (r: BytesMut)
        ensures
            bytes_view(r) == i64_body(self.payload),
    {
        let mut buf = bytes_new();
        bytes_put_i64(&mut buf, self.payload);
        buf
    }
}

/// S→C, Status state, ID 0x01
pub struct PongResponse {
    pub payload: i64,
}

impl PongResponse {
    pub const ID: i32 = 0x01;

    /// Takes the eight-byte payload from the front of `buf`; None, with `buf` untouched,
    /// when fewer than eight bytes are there.
    pub fn decode(buf: &mut BytesMut) -> (r: Option<Self>)
        ensures
            match spec_decode_i64(bytes_view(*old(buf))) {
                Some(v) => r matches Some(p) && p.payload == v && bytes_view(*final(buf))
                    == bytes_view(*old(buf)).skip(8),
                None => r is None && bytes_view(*final(buf)) == bytes_view(*old(buf)),
            },
    {
        if bytes_len(buf) < 8 {
            return None;
        }
        Some(Self { payload: bytes_get_i64(buf) })
    }
}

/// S→C, Play state, ID 0x26
pub struct KeepAliveS2C {
    pub id: i64,
}

impl KeepAliveS2C {
    pub const ID: i32 = 0x26;

    /// Takes the eight-byte keep-alive id from the front of `buf`; None, with `buf`
    /// untouched, when fewer than eight bytes are there.
    pub fn decode(buf: &mut BytesMut) -> (r: Option<Self>)
        ensures
            match spec_decode_i64(bytes_view(*old(buf))) {
                Some(v) => r matches Some(p) && p.id == v && bytes_view(*final(buf)) == bytes_view(
                    *old(buf),
                ).skip(8),
                None => r is None && bytes_view(*final(buf)) == bytes_view(*old(buf)),
            },
    {
        if bytes_len(buf) < 8 {
            return None;
        }
        let id = bytes_get_i64(buf);
        Some(Self { id })
    }
}

/// C→S, Play state, ID 0x1B
pub struct KeepAliveC2S {
    pub id: i64,
}

impl KeepAliveC2S {
    pub const ID: i32 = 0x1B;

    pub fn encode(&self) -> (r: BytesMut)
        ensures
            bytes_view(r) == i64_body(self.id),
    {
        let mut buf = bytes_new();
        bytes_put_i64(&mut buf, self.id);
        buf
    }
}

/// Decoding the body of an encoded eight-byte value packet, followed by anything, gives
/// back the value and leaves exactly what followed: a pong carries back the payload of
/// the ping, and the keep-alive answer carries the id the server sent.
pub proof fn law_i64_body_round_trip(v: i64, rest: Seq<u8>)
    ensures
        spec_decode_i64(i64_body(v) + rest) == Some(v),
        (i64_body(v) + rest).skip(8) == rest,
{
    lemma_be_u64_round_trip(v as u64);
    let s = i64_body(v) + rest;
    assert(s.take(8) =~= i64_body(v));
    assert(be_u64(s) == be_u64(i64_body(v)));
    assert(((v as u64) as i64) == v) by (bit_vector);
    assert(s.skip(8) =~= rest);
}

} // verus!

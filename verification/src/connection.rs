//! Packet framing and key handling of the client connection: length-prefixed frames of
//! a VarInt packet id and a body, and the unwrapping of an RSA public key from its DER
//! `SubjectPublicKeyInfo` envelope.

use vstd::prelude::*;
use bytes::BytesMut;
use crate::buffer::{
    bytes_view,
    bytes_capacity_limit,
    bytes_as_slice,
    bytes_new,
    bytes_len,
    bytes_clone,
    bytes_advance,
    bytes_split_to,
    bytes_extend_from_slice,
};
use crate::codec::{
    read_var_int,
    read_var_int_slice,
    spec_read_var_int,
    var_int_encoding,
    var_int_encoded_len,
    write_var_into_buf,
    write_var_int,
    lemma_var_int_bytes_len,
    lemma_var_int_end_bounds,
    law_var_int_round_trip,
};

verus! {

/// The frame of a packet: the VarInt length of the rest, the VarInt id, the body.
pub open spec fn frame_of(id: i32, data: Seq<u8>) -> Seq<u8> {
    let payload = var_int_encoding(id) + data;
    var_int_encoding(#[verifier::truncate] (payload.len() as i32)) + payload
}

/// Builds the frame of packet `id` with body `data`. The frame's length prefix is the
/// payload length cut to 32 bits; a frame must fit a `BytesMut`.
pub fn encode_packet(id: i32, data: &[u8]) -> (r: BytesMut)
    requires
        frame_of(id, data@).len() <= bytes_capacity_limit(),
    ensures
        bytes_view(r) == frame_of(id, data@),
{
    let mut frame = bytes_new();
    proof {
        lemma_var_int_bytes_len(id as u32);
    }
    let payload = {
        let mut tmp: Vec<u8> = Vec::with_capacity(var_int_encoded_len(id) + data.len());
        write_var_into_buf(&mut tmp, id);
        let ghost before = tmp@;
        tmp.extend_from_slice(data);
        assert(tmp@ =~= before + data@);
        tmp
    };
    write_var_int(&mut frame, #[verifier::truncate] (payload.len() as i32));
    proof {
        lemma_var_int_bytes_len(payload.len() as u32);
    }
    bytes_extend_from_slice(&mut frame, payload.as_slice());
    frame
}

/// What `parse_packets` does with a buffer holding `s`.
pub enum FrameParse {
    /// No complete frame at the front: nothing is removed.
    Incomplete,
    /// The frame was removed but its body holds no packet id.
    NoId(nat),
    /// A packet: its id, its body, and the number of bytes its frame took.
    Packet(i32, Seq<u8>, nat),
    /// The declared length overflows when added to the header length.
    Panics,
}

/// The first frame of `s`: a VarInt length `len` (taken as a `usize`) and `len` more
/// bytes, holding a VarInt id and the body.
pub open spec fn spec_parse_packet(s: Seq<u8>) -> FrameParse {
    match spec_read_var_int(s) {
        None => FrameParse::Incomplete,
        Some((len, header)) => {
            let packet_len = len as usize;
            if header + packet_len > usize::MAX {
                FrameParse::Panics
            } else if s.len() < header + packet_len {
                FrameParse::Incomplete
            } else {
                let packet = s.subrange(header as int, header + packet_len);
                match spec_read_var_int(packet) {
                    None => FrameParse::NoId((header + packet_len) as nat),
                    Some((id, n)) => FrameParse::Packet(id, packet.skip(n as int), (header + packet_len) as nat),
                }
            }
        },
    }
}

/// Whether `parse_packets` on `buf` would overflow adding the declared frame length to
/// the length of its header.
pub fn frame_length_overflows(buf: &BytesMut) -> (r: bool)
    ensures
        r == (spec_parse_packet(bytes_view(*buf)) is Panics),
{
    proof {
        lemma_var_int_end_bounds(bytes_view(*buf), 0);
    }
    match read_var_int_slice(bytes_as_slice(buf)) {
        Some((len, header)) => (header as u128) + ((len as usize) as u128) > (usize::MAX as u128),
        None => false,
    }
}

/// Takes the first complete frame off the front of `buf` and returns its packet id and
/// body. None, with `buf` untouched, when the front holds no complete frame; None, with
/// the frame removed, when the frame's body holds no id.
pub fn parse_packets(buf: &mut BytesMut) -> (r: Option<(i32, BytesMut)>)
    requires
        !(spec_parse_packet(bytes_view(*old(buf))) is Panics),
    ensures
        match spec_parse_packet(bytes_view(*old(buf))) {
            FrameParse::Incomplete => r is None && bytes_view(*final(buf)) == bytes_view(*old(buf)),
            FrameParse::NoId(n) => r is None && bytes_view(*final(buf)) == bytes_view(*old(buf)).skip(
                n as int,
            ),
            FrameParse::Packet(id, body, n) => r matches Some((rid, rbody)) && rid == id
                && bytes_view(rbody) == body && bytes_view(*final(buf)) == bytes_view(*old(buf)).skip(
                n as int,
            ),
            FrameParse::Panics => false,
        },
{
    let ghost s = bytes_view(*buf);
    let mut tmp = bytes_clone(buf);
    proof {
        lemma_var_int_end_bounds(s, 0);
    }
    let packet_len = match read_var_int(&mut tmp) {
        Some(l) => l as usize,
        None => {
            return None;
        },
    };
    let header_len = bytes_len(buf) - bytes_len(&tmp);
    let total = header_len + packet_len;
    if bytes_len(buf) < total {
        return None;
    }
    bytes_advance(buf, header_len);
    let mut packet_data = bytes_split_to(buf, packet_len);
    proof {
        assert(s.skip(header_len as int).take(packet_len as int) =~= s.subrange(
            header_len as int,
            total as int,
        ));
        assert(s.skip(header_len as int).skip(packet_len as int) =~= s.skip(total as int));
    }
    let id = match read_var_int(&mut packet_data) {
        Some(i) => i,
        None => {
            return None;
        },
    };
    Some((id, packet_data))
}

/// Framing round trip: the first frame of an encoded packet followed by anything is that
/// packet, with its id and body, and taking it leaves exactly what followed.
pub proof fn law_frame_round_trip(id: i32, data: Seq<u8>, rest: Seq<u8>)
    requires
        data.len() + 10 <= i32::MAX,
    ensures
        spec_parse_packet(frame_of(id, data) + rest) == FrameParse::Packet(
            id,
            data,
            frame_of(id, data).len(),
        ),
        (frame_of(id, data) + rest).skip(frame_of(id, data).len() as int) == rest,
{
    let payload = var_int_encoding(id) + data;
    lemma_var_int_bytes_len(id as u32);
    let plen = payload.len() as i32;
    assert(plen as int == payload.len());
    lemma_var_int_bytes_len(plen as u32);
    let head = var_int_encoding(plen);
    let s = frame_of(id, data) + rest;
    assert(s =~= head + (payload + rest));
    law_var_int_round_trip(plen, payload + rest);
    assert((plen as usize) as int == payload.len());
    let packet = s.subrange(head.len() as int, (head.len() + payload.len()) as int);
    assert(packet =~= var_int_encoding(id) + data);
    law_var_int_round_trip(id, data);
    assert(packet.skip(var_int_encoding(id).len() as int) =~= data);
    assert(s.skip(frame_of(id, data).len() as int) =~= rest);
}

/// The first `n` bytes of `s` read big-endian, keeping the low 64 bits.
pub open spec fn be_fold(s: Seq<u8>, n: nat) -> u64
    decreases n,
{
    if n == 0 {
        0
    } else {
        ((be_fold(s, (n - 1) as nat) << 8u64) | (s[n - 1] as u64)) as u64
    }
}

/// The DER length at `pos` of `data`: the byte itself in short form; in long form the
/// following `count` bytes (as many as there are) read big-endian; 0 past the end.
pub open spec fn spec_der_len_at(data: Seq<u8>, pos: int) -> u64 {
    if pos >= data.len() {
        0
    } else if data[pos] & 0x80 == 0 {
        data[pos] as u64
    } else {
        let count = (data[pos] & 0x7f) as int;
        let avail = data.len() - (pos + 1);
        let n = if count <= avail {
            count
        } else {
            avail
        };
        be_fold(data.skip(pos + 1), n as nat)
    }
}

/// Reads the DER length at `pos` of `data`.
pub fn der_len_at(data: &[u8], pos: usize) -> (r: u64)
    ensures
        r == spec_der_len_at(data@, pos as int),
{
    if pos >= data.len() {
        return 0;
    }
    if data[pos] & 0x80 == 0 {
        data[pos] as u64
    } else {
        let count = (data[pos] & 0x7F) as usize;
        let avail = data.len() - (pos + 1);
        let n = if count <= avail {
            count
        } else {
            avail
        };
        let mut len = 0u64;
        let mut i: usize = 0;
        while i < n
            invariant
                i <= n,
                pos + 1 + n <= data.len(),
                len == be_fold(data@.skip(pos + 1), i as nat),
            decreases n - i,
        {
            len = (len << 8) | data[pos + 1 + i] as u64;
            i += 1;
        }
        len
    }
}

/// The positions `strip_der_wrapper` moves through on `der`: after the outer SEQUENCE
/// length, after the algorithm SEQUENCE (if one follows), and after the BIT STRING length
/// (if a BIT STRING follows), each as `usize` sums.
pub open spec fn der_strip_positions(der: Seq<u8>) -> (int, int, int) {
    let p1 = 1 + (spec_der_len_at(der, 1) as usize);
    let p2 = if p1 < der.len() && der[p1] == 0x30 {
        (p1 + 1) + (spec_der_len_at(der, p1 + 1) as usize)
    } else {
        p1
    };
    let p3 = (p2 + 1) + (spec_der_len_at(der, p2 + 1) as usize);
    (p1, p2, p3)
}

/// Whether `strip_der_wrapper` overflows a `usize` position (and panics) on `der`.
pub open spec fn der_strip_overflows(der: Seq<u8>) -> bool {
    der.len() > 4 && der[0] == 0x30 && {
        let (p1, p2, p3) = der_strip_positions(der);
        ||| p1 > usize::MAX
        ||| (p1 < der.len() && der[p1] == 0x30 && p2 > usize::MAX)
        ||| (p2 < der.len() && der[p2] == 0x03 && p3 > usize::MAX)
    }
}

/// The key bytes `strip_der_wrapper` returns for `der`: what follows the BIT STRING's
/// unused-bits byte when the envelope has the expected shape, else `der` itself.
pub open spec fn spec_strip_der_wrapper(der: Seq<u8>) -> Seq<u8> {
    if der.len() > 4 && der[0] == 0x30 {
        let (p1, p2, p3) = der_strip_positions(der);
        if p2 < der.len() && der[p2] == 0x03 && p3 < der.len() {
            der.skip(p3 + 1)
        } else {
            der
        }
    } else {
        der
    }
}

/// Whether `strip_der_wrapper` would overflow a position on `der`.
pub fn der_strip_would_overflow(der: &[u8]) -> (r: bool)
    ensures
        r == der_strip_overflows(der@),
{
    let len = der.len();
    if !(len > 4 && der[0] == 0x30) {
        return false;
    }
    let max: u128 = usize::MAX as u128;
    let p1: u128 = 1 + ((der_len_at(der, 1) as usize) as u128);
    if p1 > max {
        return true;
    }
    let mut p2: u128 = p1;
    if p1 < (len as u128) && der[p1 as usize] == 0x30 {
        p2 = (p1 + 1) + ((der_len_at(der, (p1 + 1) as usize) as usize) as u128);
        if p2 > max {
            return true;
        }
    }
    if p2 < (len as u128) && der[p2 as usize] == 0x03 {
        let p3: u128 = (p2 + 1) + ((der_len_at(der, (p2 + 1) as usize) as usize) as u128);
        return p3 > max;
    }
    false
}

/// Extracts the RSA public key from a DER `SubjectPublicKeyInfo` wrapper; returns `der`
/// unchanged when it does not have that shape.
pub fn strip_der_wrapper(der: &[u8]) -> (r: Vec<u8>)
    requires
        !der_strip_overflows(der@),
    ensures
        r@ == spec_strip_der_wrapper(der@),
{
    if der.len() > 4 && der[0] == 0x30 {
        let mut pos: usize = 1;
        pos += der_len_at(der, pos) as usize;
        if pos < der.len() && der[pos] == 0x30 {
            pos += 1;
            pos += der_len_at(der, pos) as usize;
        }
        if pos < der.len() && der[pos] == 0x03 {
            pos += 1;
            pos += der_len_at(der, pos) as usize;
            if pos < der.len() {
                pos += 1;
                return vstd::slice::slice_to_vec(vstd::slice::slice_subrange(der, pos, der.len()));
            }
        }
    }
    vstd::slice::slice_to_vec(der)
}

} // verus!

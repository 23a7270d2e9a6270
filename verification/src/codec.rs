//! The protocol's variable-length integers (VarInt): seven bits per byte, least
//! significant group first, the high bit of each byte set when another byte follows.

use vstd::prelude::*;
use bytes::BytesMut;
use crate::buffer::{
    bytes_view,
    bytes_as_slice,
    bytes_advance,
    bytes_extend_from_slice,
    bytes_capacity_limit,
};

verus! {

/// The longest VarInt, in bytes.
pub const VAR_INT_MAX_LEN: usize = 5;

/// The length of the VarInt at the start of `s`, looking from byte `i` on: the first
/// byte at index below 5 without the continuation bit ends it. None when no such byte
/// lies within the first five bytes of `s`.
pub open spec fn var_int_end_from(s: Seq<u8>, i: nat) -> Option<nat>
    decreases 5 - i,
{
    if i >= 5 || i >= s.len() {
        None
    } else if s[i as int] < 0x80 {
        Some(i + 1)
    } else {
        var_int_end_from(s, i + 1)
    }
}

/// The length in bytes of the VarInt at the start of `s`, if it is complete.
pub open spec fn var_int_len(s: Seq<u8>) -> Option<nat> {
    var_int_end_from(s, 0)
}

/// The 32-bit pattern of the first `n` seven-bit groups of `s`.
pub open spec fn var_int_bits(s: Seq<u8>, n: nat) -> u32
    decreases n,
{
    if n == 0 {
        0
    } else {
        var_int_bits(s, (n - 1) as nat) | ((((s[n - 1] & 0x7f) as u32) << (7 * (n - 1)) as u32) as u32)
    }
}

/// The VarInt at the start of `s`: its value and its length in bytes.
pub open spec fn spec_read_var_int(s: Seq<u8>) -> Option<(i32, nat)> {
    match var_int_len(s) {
        Some(n) => Some((var_int_bits(s, n) as i32, n)),
        None => None,
    }
}

/// The VarInt encoding of a 32-bit pattern.
pub open spec fn var_int_bytes(v: u32) -> Seq<u8>
    decreases v,
{
    if v & 0xFFFF_FF80 == 0 {
        seq![v as u8]
    } else {
        proof {
            assert(v & 0xFFFF_FF80 != 0 ==> v >> 7u32 < v) by (bit_vector);
        }
        seq![((v as u8) | 0x80) as u8] + var_int_bytes(v >> 7u32)
    }
}

/// The VarInt encoding of a signed value: that of its 32-bit two's-complement pattern.
pub open spec fn var_int_encoding(v: i32) -> Seq<u8> {
    var_int_bytes(v as u32)
}

/// Reads a VarInt from the front of `buf` and removes it. When the front of `buf` holds
/// no complete VarInt of at most five bytes, returns None and leaves `buf` unchanged.
pub fn read_var_int(buf: &mut BytesMut) -> (r: Option<i32>)
    ensures
        match spec_read_var_int(bytes_view(*old(buf))) {
            Some((v, n)) => r == Some(v) && bytes_view(*final(buf)) == bytes_view(*old(buf)).skip(
                n as int,
            ),
            None => r is None && bytes_view(*final(buf)) == bytes_view(*old(buf)),
        },
{
    let s = bytes_as_slice(buf);
    proof {
        lemma_var_int_end_bounds(s@, 0);
    }
    match read_var_int_slice(s) {
        Some((v, n)) => {
            bytes_advance(buf, n);
            Some(v)
        },
        None => None,
    }
}

/// Reads the VarInt at the start of `s`: its value and its length in bytes.
pub fn read_var_int_slice(s: &[u8]) -> (r: Option<(i32, usize)>)
    ensures
        match spec_read_var_int(s@) {
            Some((v, n)) => r == Some((v, n as usize)),
            None => r is None,
        },
{
    let mut value: u32 = 0;
    let mut i: usize = 0;
    while i < 5
        invariant
            i <= 5,
            value == var_int_bits(s@, i as nat),
            var_int_end_from(s@, 0) == var_int_end_from(s@, i as nat),
        decreases 5 - i,
    {
        if i >= s.len() {
            return None;
        }
        let byte = s[i];
        let group = ((byte & 0x7f) as u32) << ((7 * i) as u32);
        value = value | group;
        if byte < 0x80 {
            return Some((value as i32, i + 1));
        }
        i = i + 1;
    }
    None
}

/// `String::from_utf8`: the string whose UTF-8 encoding is `bytes` when they are valid
/// UTF-8, `None` when they are not.
#[verifier::external_body]
fn string_from_utf8(bytes: Vec<u8>) -> (r: Option<String>)
    ensures
        match r {
            Some(st) => vstd::utf8::valid_utf8(bytes@) && vstd::utf8::encode_utf8(st@) == bytes@,
            None => !vstd::utf8::valid_utf8(bytes@),
        },
{
    String::from_utf8(bytes).ok()
}

/// The protocol string at the front of `s`: a VarInt byte length `n`, then `n` bytes of
/// UTF-8. A string of at most `max_len` characters takes at most `4 * max_len` bytes, so a
/// longer byte length is refused. The bytes and the number of bytes read, or `None`.
pub open spec fn spec_read_string(s: Seq<u8>, max_len: usize) -> Option<(Seq<u8>, nat)> {
    match spec_read_var_int(s) {
        Some((n, h)) => {
            let text = s.subrange(h as int, h + n);
            if n >= 0 && n <= 4 * max_len && h + n <= s.len() && vstd::utf8::valid_utf8(text) {
                Some((text, (h + n) as nat))
            } else {
                None
            }
        },
        None => None,
    }
}

/// Reads the protocol string at the front of `s`: the string and the number of bytes it
/// took, or None when `s` holds none there.
pub fn read_string_slice(s: &[u8], max_len: usize) -> (r: Option<(String, usize)>)
    ensures
        match spec_read_string(s@, max_len) {
            Some((text, n)) => r matches Some((st, m)) && vstd::utf8::encode_utf8(st@) == text && m
                == n,
            None => r is None,
        },
{
    proof {
        lemma_var_int_end_bounds(s@, 0);
    }
    let (n, h) = match read_var_int_slice(s) {
        Some(p) => p,
        None => return None,
    };
    if n < 0 || (n as u128) > 4 * (max_len as u128) || (n as usize) > s.len() - h {
        return None;
    }
    let end = h + n as usize;
    let text = vstd::slice::slice_to_vec(vstd::slice::slice_subrange(s, h, end));
    match string_from_utf8(text) {
        Some(st) => Some((st, end)),
        None => None,
    }
}

/// Reads a protocol string off the front of `buf`. When the front holds none (its length
/// is missing, negative, over `4 * max_len` or past the end, or its bytes are not
/// UTF-8), returns None and leaves `buf` unchanged.
pub fn read_string(buf: &mut BytesMut, max_len: usize) -> (r: Option<String>)
    ensures
        match spec_read_string(bytes_view(*old(buf)), max_len) {
            Some((text, n)) => r matches Some(st) && vstd::utf8::encode_utf8(st@) == text
                && bytes_view(*final(buf)) == bytes_view(*old(buf)).skip(n as int),
            None => r is None && bytes_view(*final(buf)) == bytes_view(*old(buf)),
        },
{
    let s = bytes_as_slice(buf);
    match read_string_slice(s, max_len) {
        Some((st, end)) => {
            bytes_advance(buf, end);
            Some(st)
        },
        None => None,
    }
}

/// The number of bytes in the VarInt encoding of `value`.
pub fn var_int_encoded_len(value: i32) -> (r: usize)
    ensures
        r == var_int_encoding(value).len(),
        r == seven_bit_groups(value as u32),
        1 <= r <= 5,
{
    let mut val = value as u32;
    let mut len: usize = 0;
    proof {
        lemma_var_int_bytes_len(val);
        law_var_int_len_is_least(val);
    }
    loop
        invariant
            len + var_int_bytes(val).len() == var_int_encoding(value).len(),
            var_int_encoding(value).len() == seven_bit_groups(value as u32),
            var_int_encoding(value).len() <= 5,
            len < 5,
        decreases val,
    {
        len += 1;
        if val & 0xFFFF_FF80 == 0 {
            return len;
        }
        assert(val & 0xFFFF_FF80 != 0 ==> val >> 7u32 < val) by (bit_vector);
        val >>= 7;
    }
}

/// Appends the VarInt encoding of `value` to `buf`.
pub fn write_var_into_buf(buf: &mut Vec<u8>, value: i32)
    ensures
        final(buf)@ == old(buf)@ + var_int_encoding(value),
{
    let mut val = value as u32;
    let ghost start = buf@;
    loop
        invariant
            start == old(buf)@,
            buf@ + var_int_bytes(val) == start + var_int_encoding(value),
        decreases val,
    {
        if val & 0xFFFF_FF80 == 0 {
            let ghost before = buf@;
            buf.push(val as u8);
            assert(buf@ == before + var_int_bytes(val));
            return;
        }
        let ghost before = buf@;
        buf.push((val as u8) | 0x80);
        assert(val & 0xFFFF_FF80 != 0 ==> val >> 7u32 < val) by (bit_vector);
        assert(buf@ + var_int_bytes(val >> 7u32) == before + var_int_bytes(val));
        val >>= 7;
    }
}

/// Appends the VarInt encoding of `value` to `buf`.
pub fn write_var_int(buf: &mut BytesMut, value: i32)
    requires
        bytes_view(*old(buf)).len() + 5 <= bytes_capacity_limit(),
    ensures
        bytes_view(*final(buf)) == bytes_view(*old(buf)) + var_int_encoding(value),
{
    let mut tmp: Vec<u8> = Vec::new();
    write_var_into_buf(&mut tmp, value);
    proof {
        lemma_var_int_bytes_len(value as u32);
    }
    bytes_extend_from_slice(buf, tmp.as_slice());
}

/// A VarInt found from byte `i` on ends after `i`, within `s` and within five bytes,
/// at a byte without the continuation bit, and every byte before it from `i` on has that bit.
pub proof fn lemma_var_int_end_bounds(s: Seq<u8>, i: nat)
    ensures
        var_int_end_from(s, i) matches Some(n) ==> {
            &&& i < n <= s.len()
            &&& n <= 5
            &&& s[n - 1] < 0x80
            &&& forall|k: int| i <= k < n - 1 ==> s[k] >= 0x80
        },
    decreases 5 - i,
{
    if i < 5 && i < s.len() && s[i as int] >= 0x80 {
        lemma_var_int_end_bounds(s, i + 1);
    }
}

/// A VarInt encoding has between one and five bytes.
pub proof fn lemma_var_int_bytes_len(v: u32)
    ensures
        1 <= var_int_bytes(v).len() <= 5,
{
    reveal_with_fuel(var_int_bytes, 6);
    let v1 = v >> 7u32;
    let v2 = v1 >> 7u32;
    let v3 = v2 >> 7u32;
    let v4 = v3 >> 7u32;
    assert(v4 & 0xFFFF_FF80 == 0) by (bit_vector)
        requires
            v1 == v >> 7u32,
            v2 == v1 >> 7u32,
            v3 == v2 >> 7u32,
            v4 == v3 >> 7u32,
    ;
}

/// The least `k >= 1` with `v < 2^(7k)`: the number of seven-bit groups that `v` needs.
pub open spec fn seven_bit_groups(v: u32) -> nat {
    if v < 0x80 {
        1
    } else if v < 0x4000 {
        2
    } else if v < 0x20_0000 {
        3
    } else if v < 0x1000_0000 {
        4
    } else {
        5
    }
}

/// A VarInt encoding has one byte for each seven-bit group its value needs: its length
/// is the least `k >= 1` with `v < 2^(7k)`.
pub proof fn law_var_int_len_is_least(v: u32)
    ensures
        var_int_bytes(v).len() == seven_bit_groups(v),
{
    reveal_with_fuel(var_int_bytes, 6);
    let v1 = v >> 7u32;
    let v2 = v1 >> 7u32;
    let v3 = v2 >> 7u32;
    let v4 = v3 >> 7u32;
    assert({
        &&& (v & 0xFFFF_FF80 == 0) == (v < 0x80)
        &&& (v1 & 0xFFFF_FF80 == 0) == (v < 0x4000)
        &&& (v2 & 0xFFFF_FF80 == 0) == (v < 0x20_0000)
        &&& (v3 & 0xFFFF_FF80 == 0) == (v < 0x1000_0000)
        &&& v4 & 0xFFFF_FF80 == 0
    }) by (bit_vector)
        requires
            v1 == v >> 7u32,
            v2 == v1 >> 7u32,
            v3 == v2 >> 7u32,
            v4 == v3 >> 7u32,
    ;
}

/// Reading the VarInt at the front of an encoding followed by anything gives back the
/// encoded value and the length of the encoding.
pub proof fn law_var_int_round_trip(value: i32, rest: Seq<u8>)
    ensures
        spec_read_var_int(var_int_encoding(value) + rest) == Some(
            (value, var_int_encoding(value).len()),
        ),
{
    let v = value as u32;
    let v1 = v >> 7u32;
    let v2 = v1 >> 7u32;
    let v3 = v2 >> 7u32;
    let v4 = v3 >> 7u32;
    let e = var_int_bytes(v);
    let s = e + rest;
    reveal_with_fuel(var_int_bytes, 6);
    reveal_with_fuel(var_int_end_from, 6);
    reveal_with_fuel(var_int_bits, 6);
    assert(v4 & 0xFFFF_FF80 == 0) by (bit_vector)
        requires
            v1 == v >> 7u32,
            v2 == v1 >> 7u32,
            v3 == v2 >> 7u32,
            v4 == v3 >> 7u32,
    ;
    let b0 = ((v as u8) | 0x80) as u8;
    let b1 = ((v1 as u8) | 0x80) as u8;
    let b2 = ((v2 as u8) | 0x80) as u8;
    let b3 = ((v3 as u8) | 0x80) as u8;
    assert(b0 >= 0x80 && b1 >= 0x80 && b2 >= 0x80 && b3 >= 0x80) by (bit_vector)
        requires
            b0 == ((v as u8) | 0x80) as u8,
            b1 == ((v1 as u8) | 0x80) as u8,
            b2 == ((v2 as u8) | 0x80) as u8,
            b3 == ((v3 as u8) | 0x80) as u8,
    ;
    if v & 0xFFFF_FF80 == 0 {
        assert(e =~= seq![v as u8]);
        assert(s[0] == v as u8);
        assert((v as u8) < 0x80 && ((((v as u8) & 0x7f) as u32) << 0u32) as u32 == v) by (bit_vector)
            requires
                v & 0xFFFF_FF80 == 0,
        ;
        assert(var_int_bits(s, 1) == (0u32 | ((((s[0] & 0x7f) as u32) << 0u32) as u32)));
        assert((0u32 | v) == v) by (bit_vector);
    } else if v1 & 0xFFFF_FF80 == 0 {
        assert(e =~= seq![b0, v1 as u8]);
        assert(s[0] == b0 && s[1] == v1 as u8);
        assert((v1 as u8) < 0x80) by (bit_vector)
            requires
                v1 & 0xFFFF_FF80 == 0,
        ;
        assert(((0u32 | (((b0 & 0x7f) as u32) << 0u32) as u32) | ((((v1 as u8) & 0x7f) as u32)
            << 7u32) as u32) == v) by (bit_vector)
            requires
                b0 == ((v as u8) | 0x80) as u8,
                v1 == v >> 7u32,
                v1 & 0xFFFF_FF80 == 0,
        ;
    } else if v2 & 0xFFFF_FF80 == 0 {
        assert(e =~= seq![b0, b1, v2 as u8]);
        assert(s[0] == b0 && s[1] == b1 && s[2] == v2 as u8);
        assert((v2 as u8) < 0x80) by (bit_vector)
            requires
                v2 & 0xFFFF_FF80 == 0,
        ;
        assert((((0u32 | (((b0 & 0x7f) as u32) << 0u32) as u32) | (((b1 & 0x7f) as u32) << 7u32)
            as u32) | ((((v2 as u8) & 0x7f) as u32) << 14u32) as u32) == v) by (bit_vector)
            requires
                b0 == ((v as u8) | 0x80) as u8,
                b1 == ((v1 as u8) | 0x80) as u8,
                v1 == v >> 7u32,
                v2 == v1 >> 7u32,
                v2 & 0xFFFF_FF80 == 0,
        ;
    } else if v3 & 0xFFFF_FF80 == 0 {
        assert(e =~= seq![b0, b1, b2, v3 as u8]);
        assert(s[0] == b0 && s[1] == b1 && s[2] == b2 && s[3] == v3 as u8);
        assert((v3 as u8) < 0x80) by (bit_vector)
            requires
                v3 & 0xFFFF_FF80 == 0,
        ;
        assert(((((0u32 | (((b0 & 0x7f) as u32) << 0u32) as u32) | (((b1 & 0x7f) as u32) << 7u32)
            as u32) | (((b2 & 0x7f) as u32) << 14u32) as u32) | ((((v3 as u8) & 0x7f) as u32)
            << 21u32) as u32) == v) by (bit_vector)
            requires
                b0 == ((v as u8) | 0x80) as u8,
                b1 == ((v1 as u8) | 0x80) as u8,
                b2 == ((v2 as u8) | 0x80) as u8,
                v1 == v >> 7u32,
                v2 == v1 >> 7u32,
                v3 == v2 >> 7u32,
                v3 & 0xFFFF_FF80 == 0,
        ;
    } else {
        assert(e =~= seq![b0, b1, b2, b3, v4 as u8]);
        assert(s[0] == b0 && s[1] == b1 && s[2] == b2 && s[3] == b3 && s[4] == v4 as u8);
        assert((v4 as u8) < 0x80) by (bit_vector)
            requires
                v4 & 0xFFFF_FF80 == 0,
        ;
        assert((((((0u32 | (((b0 & 0x7f) as u32) << 0u32) as u32) | (((b1 & 0x7f) as u32) << 7u32)
            as u32) | (((b2 & 0x7f) as u32) << 14u32) as u32) | (((b3 & 0x7f) as u32) << 21u32)
            as u32) | ((((v4 as u8) & 0x7f) as u32) << 28u32) as u32) == v) by (bit_vector)
            requires
                b0 == ((v as u8) | 0x80) as u8,
                b1 == ((v1 as u8) | 0x80) as u8,
                b2 == ((v2 as u8) | 0x80) as u8,
                b3 == ((v3 as u8) | 0x80) as u8,
                v1 == v >> 7u32,
                v2 == v1 >> 7u32,
                v3 == v2 >> 7u32,
                v4 == v3 >> 7u32,
        ;
    }
    assert(((value as u32) as i32) == value) by (bit_vector);
}

/// Reading a protocol string back from its encoding gives the text and the length of
/// the encoding, for any valid UTF-8 text within the limit, whatever follows it.
pub proof fn law_read_string_round_trip(text: Seq<u8>, max_len: usize, rest: Seq<u8>)
    requires
        vstd::utf8::valid_utf8(text),
        text.len() <= 4 * max_len,
        text.len() <= i32::MAX,
    ensures
        spec_read_string(var_int_encoding(text.len() as i32) + text + rest, max_len) == Some(
            (text, var_int_encoding(text.len() as i32).len() + text.len()),
        ),
{
    let e = var_int_encoding(text.len() as i32);
    let s = e + text + rest;
    law_var_int_round_trip(text.len() as i32, text + rest);
    assert(s =~= e + (text + rest));
    assert(s.subrange(e.len() as int, (e.len() + text.len()) as int) =~= text);
}

} // verus!

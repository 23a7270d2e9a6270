//! The login exchange's own computations: the UUID a client sends in Login Start, what
//! each login packet means, the Encryption Response body, and unpacking a frame read
//! in compressed mode.

use vstd::prelude::*;
use flate2::read::ZlibDecoder;
use uuid::Uuid;
use vstd::string::StringSliceAdditionalSpecFns;
use crate::codec::{
    lemma_var_int_end_bounds, read_var_int_slice, spec_read_var_int, var_int_encoding, write_var_into_buf,
};
use crate::uuid_util::{offline_prefix, uuid_bytes};

verus! {

/// The hash of `s`: starting from 0, each byte in turn is added to 131 times the hash
/// so far, modulo 2^128.
pub open spec fn name_hash(s: Seq<u8>) -> u128
    decreases s.len(),
{
    if s.len() == 0 {
        0
    } else {
        name_hash(s.drop_last()).wrapping_mul(131).wrapping_add(s.last() as u128)
    }
}

/// The 16 big-endian bytes of `v`.
pub open spec fn u128_be_bytes(v: u128) -> [u8; 16] {
    [
        (v >> 120u128) as u8,
        (v >> 112u128) as u8,
        (v >> 104u128) as u8,
        (v >> 96u128) as u8,
        (v >> 88u128) as u8,
        (v >> 80u128) as u8,
        (v >> 72u128) as u8,
        (v >> 64u128) as u8,
        (v >> 56u128) as u8,
        (v >> 48u128) as u8,
        (v >> 40u128) as u8,
        (v >> 32u128) as u8,
        (v >> 24u128) as u8,
        (v >> 16u128) as u8,
        (v >> 8u128) as u8,
        v as u8,
    ]
}

/// `Uuid::from_u128`: the UUID whose bytes are the big-endian bytes of `v` (its source
/// reads `Uuid::from_bytes(v.to_be_bytes())`).
#[verifier::external_body]
fn uuid_from_u128(v: u128) -> (r: Uuid)
    ensures
        uuid_bytes(r) == u128_be_bytes(v),
{
    Uuid::from_u128(v)
}

/// The value of the UUID a client logging in as `username` sends: the hash of the
/// bytes of `"OfflinePlayer:"` followed by the name.
pub fn login_uuid_value(username: &str) -> (r: u128)
    ensures
        r == name_hash(offline_prefix() + username.spec_bytes()),
{
    let prefix: [u8; 14] = [
        0x4f, 0x66, 0x66, 0x6c, 0x69, 0x6e, 0x65, 0x50, 0x6c, 0x61, 0x79, 0x65, 0x72, 0x3a,
    ];
    let mut input: Vec<u8> = Vec::new();
    input.extend_from_slice(prefix.as_slice());
    input.extend_from_slice(username.as_bytes());
    assert(input@ =~= offline_prefix() + username.spec_bytes());
    let mut acc: u128 = 0;
    let mut i: usize = 0;
    while i < input.len()
        invariant
            i <= input@.len(),
            acc == name_hash(input@.take(i as int)),
        decreases input@.len() - i,
    {
        assert(input@.take(i + 1).drop_last() =~= input@.take(i as int));
        acc = acc.wrapping_mul(131).wrapping_add(input[i] as u128);
        i += 1;
    }
    assert(input@.take(input@.len() as int) =~= input@);
    acc
}

/// The UUID a client logging in as `username` sends in Login Start.
pub fn login_uuid(username: &str) -> (r: Uuid)
    ensures
        uuid_bytes(r) == u128_be_bytes(name_hash(offline_prefix() + username.spec_bytes())),
{
    uuid_from_u128(login_uuid_value(username))
}

/// What a packet of the login phase is, by its id.
#[derive(Debug, Clone, Copy, PartialEq, Eq, Structural)]
pub enum LoginPacket {
    /// 0x00: the server refused the login.
    Disconnect,
    /// 0x01: the server asks for encryption.
    EncryptionRequest,
    /// 0x02: the login succeeded.
    LoginSuccess,
    /// 0x03: the server turns compression on.
    SetCompression,
    /// Any other id, which is ignored.
    Unexpected,
}

pub open spec fn spec_login_packet(id: i32) -> LoginPacket {
    if id == 0x03 {
        LoginPacket::SetCompression
    } else if id == 0x02 {
        LoginPacket::LoginSuccess
    } else if id == 0x01 {
        LoginPacket::EncryptionRequest
    } else if id == 0x00 {
        LoginPacket::Disconnect
    } else {
        LoginPacket::Unexpected
    }
}

/// The meaning of a login-phase packet id.
pub fn login_packet(id: i32) -> (r: LoginPacket)
    ensures
        r == spec_login_packet(id),
{
    match id {
        0x03 => LoginPacket::SetCompression,
        0x02 => LoginPacket::LoginSuccess,
        0x01 => LoginPacket::EncryptionRequest,
        0x00 => LoginPacket::Disconnect,
        _ => LoginPacket::Unexpected,
    }
}

/// The body of an Encryption Response: the encrypted shared secret and the encrypted
/// verify token, each after its length as a VarInt.
pub fn encryption_response_body(enc_secret: &[u8], enc_token: &[u8]) -> (r: Vec<u8>)
    ensures
        r@ == var_int_encoding(enc_secret@.len() as i32) + enc_secret@ + var_int_encoding(
            enc_token@.len() as i32,
        ) + enc_token@,
{
    let mut resp: Vec<u8> = Vec::new();
    write_var_into_buf(&mut resp, enc_secret.len() as i32);
    resp.extend_from_slice(enc_secret);
    write_var_into_buf(&mut resp, enc_token.len() as i32);
    resp.extend_from_slice(enc_token);
    resp
}

/// The first `len` bytes of the zlib stream `data` inflates to, or `None` when the
/// stream is invalid or inflates to fewer bytes.
pub uninterp spec fn zlib_inflate_exact(data: Seq<u8>, len: nat) -> Option<Seq<u8>>;

/// `flate2::read::ZlibDecoder` over `data`, read with `read_exact` into `len` bytes: the
/// bytes read when it fills them all, `None` on its error. Which bytes a zlib stream
/// inflates to is not stated here; it is named `zlib_inflate_exact`.
#[verifier::external_body]
fn zlib_read_exact(data: &[u8], len: usize) -> (r: Option<Vec<u8>>)
    ensures
        match r {
            Some(v) => zlib_inflate_exact(data@, len as nat) == Some(v@) && v@.len() == len,
            None => zlib_inflate_exact(data@, len as nat) is None,
        },
{
    let mut decoder = ZlibDecoder::new(data);
    let mut out = vec![0u8; len];
    match std::io::Read::read_exact(&mut decoder, &mut out) {
        Ok(()) => Some(out),
        Err(_) => None,
    }
}

/// Whether the uncompressed length at the head of a compressed-mode frame body is not
/// negative: with compression on, a negative one is read as a length too large to be
/// allocated.
pub open spec fn compressed_header_ok(encoded: Seq<u8>) -> bool {
    match spec_read_var_int(encoded) {
        Some((v, n)) => v >= 0,
        None => true,
    }
}

/// The frame that a compressed-mode frame body `encoded` stands for, for a given
/// compression threshold: `None` when its uncompressed length is no VarInt; when the
/// threshold and that length are both positive, the packet inflated to that length
/// (`None` when it does not inflate), else the bytes after the length as they are;
/// either way after their length as a VarInt.
pub open spec fn spec_decompressed_frame(encoded: Seq<u8>, threshold: u32) -> Option<Seq<u8>> {
    match spec_read_var_int(encoded) {
        None => None,
        Some((ulen, n)) => {
            let rest = encoded.skip(n as int);
            if threshold > 0 && ulen > 0 {
                match zlib_inflate_exact(rest, ulen as nat) {
                    Some(d) => Some(var_int_encoding(d.len() as i32) + d),
                    None => None,
                }
            } else {
                Some(var_int_encoding(rest.len() as i32) + rest)
            }
        },
    }
}

/// Unpacks the body of a frame read in compressed mode into an uncompressed frame.
pub fn decompressed_frame(encoded: &[u8], threshold: u32) -> (r: Option<Vec<u8>>)
    requires
        threshold == 0 || compressed_header_ok(encoded@),
    ensures
        match spec_decompressed_frame(encoded@, threshold) {
            Some(f) => r is Some && r->0@ == f,
            None => r is None,
        },
{
    let (uncompressed_len, header_size) = match read_var_int_slice(encoded) {
        Some(p) => p,
        None => return None,
    };
    proof {
        lemma_var_int_end_bounds(encoded@, 0);
    }
    let body = slice_from(encoded, header_size);
    let mut out: Vec<u8> = Vec::new();
    if threshold > 0 && uncompressed_len > 0 {
        let decompressed = match zlib_read_exact(body, uncompressed_len as usize) {
            Some(d) => d,
            None => return None,
        };
        write_var_into_buf(&mut out, decompressed.len() as i32);
        out.extend_from_slice(decompressed.as_slice());
    } else {
        write_var_into_buf(&mut out, body.len() as i32);
        out.extend_from_slice(body);
    }
    Some(out)
}

/// The bytes of `s` from `start` on.
fn slice_from(s: &[u8], start: usize) -> (r: &[u8])
    requires
        start <= s@.len(),
    ensures
        r@ == s@.skip(start as int),
{
    let (_, tail) = s.split_at(start);
    tail
}

} // verus!

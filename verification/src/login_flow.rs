//! The login and configuration steps of a connection: what each packet received while
//! logging in or configuring means, the server's encryption request, its public key,
//! the client's encryption response, and the packets the client sends first.

use vstd::prelude::*;
use rsa::pkcs1::DecodeRsaPublicKey;
use rsa::traits::PublicKeyParts;
use rsa::{Pkcs1v15Encrypt, RsaPublicKey};
use vstd::string::StringSliceAdditionalSpecFns;
use crate::chunk::{lemma_var_int_at_bounds, var_int_at};
use crate::codec::{
    law_read_string_round_trip, law_var_int_round_trip, lemma_var_int_end_bounds, read_string_slice, read_var_int_slice, spec_read_string, var_int_encoding,
    write_var_into_buf,
};
use crate::connection::{der_strip_overflows, spec_strip_der_wrapper, strip_der_wrapper};
use crate::login::{encryption_response_body, login_packet, spec_login_packet, LoginPacket};

verus! {

#[verifier::external_type_specification]
#[verifier::external_body]
pub struct ExRsaPublicKey(RsaPublicKey);

/// Whether `der` is the DER of an RSA public key in the PKCS#1 format.
pub uninterp spec fn rsa_pkcs1_parses(der: Seq<u8>) -> bool;

/// The size in bytes of the modulus of the RSA public key whose PKCS#1 DER is `der`.
pub uninterp spec fn rsa_pkcs1_key_size(der: Seq<u8>) -> nat;

/// Whether `c` is a PKCS#1 v1.5 encryption of `m` under the RSA public key whose PKCS#1
/// DER is `key_der`, for some padding.
pub uninterp spec fn pkcs1v15_encrypts(key_der: Seq<u8>, c: Seq<u8>, m: Seq<u8>) -> bool;

/// An RSA public key together with the PKCS#1 DER it was parsed from and its size in
/// bytes. Only `rsa_from_pkcs1_der` makes one.
pub struct ServerKey {
    der: Vec<u8>,
    size: usize,
    key: RsaPublicKey,
}

impl ServerKey {
    /// The PKCS#1 DER the key was parsed from.
    pub closed spec fn der(&self) -> Seq<u8> {
        self.der@
    }

    /// The size of the key's modulus in bytes.
    pub closed spec fn key_size(&self) -> nat {
        self.size as nat
    }

    /// The PKCS#1 DER the key was parsed from.
    pub fn der_bytes(&self) -> (r: &[u8])
        ensures
            r@ == self.der(),
    {
        self.der.as_slice()
    }

    /// The size of the key's modulus in bytes.
    pub fn size(&self) -> (r: usize)
        ensures
            r == self.key_size(),
    {
        self.size
    }
}

/// `RsaPublicKey::from_pkcs1_der`: the key when `der` parses as a PKCS#1 RSA public key,
/// kept with `der` and with its size from `PublicKeyParts::size`. Whether parsing
/// succeeds is named `rsa_pkcs1_parses`, the size `rsa_pkcs1_key_size`.
#[verifier::external_body]
fn rsa_from_pkcs1_der(der: &[u8]) -> (r: Option<ServerKey>)
    ensures
        (r is Some) == rsa_pkcs1_parses(der@),
        r matches Some(k) ==> k.der() == der@ && k.key_size() == rsa_pkcs1_key_size(der@),
{
    match RsaPublicKey::from_pkcs1_der(der) {
        Ok(key) => Some(ServerKey { der: der.to_vec(), size: key.size(), key }),
        Err(_) => None,
    }
}

/// `RsaPublicKey::encrypt` with PKCS#1 v1.5 padding and the thread's random generator.
/// Its source refuses a message longer than the key's size less 11 bytes; otherwise the
/// ciphertext, left-padded to exactly the key's size, is an encryption of `msg` under the
/// key. Which ciphertext comes out depends on the random padding and is not stated.
#[verifier::external_body]
fn rsa_encrypt_pkcs1v15(key: &ServerKey, msg: &[u8]) -> (r: Option<Vec<u8>>)
    ensures
        (r is Some) == (msg@.len() + 11 <= key.key_size()),
        r matches Some(c) ==> c@.len() == key.key_size() && pkcs1v15_encrypts(key.der(), c@, msg@),
{
    let mut rng = rand::thread_rng();
    key.key.encrypt(&mut rng, Pkcs1v15Encrypt, msg).ok()
}

/// `rand::random`: sixteen random bytes. Nothing is stated of them.
#[verifier::external_body]
fn random_secret() -> (r: [u8; 16]) {
    rand::random()
}

/// The DER of the server's key that parses: the DER it sent when that parses as
/// PKCS#1, else the DER with its SubjectPublicKeyInfo wrapper stripped when that does.
pub open spec fn spec_server_key_der(der: Seq<u8>) -> Option<Seq<u8>> {
    if rsa_pkcs1_parses(der) {
        Some(der)
    } else if rsa_pkcs1_parses(spec_strip_der_wrapper(der)) {
        Some(spec_strip_der_wrapper(der))
    } else {
        None
    }
}

/// The server's public key from the DER it sent: parsed as PKCS#1, or else, when that
/// fails, with its SubjectPublicKeyInfo wrapper stripped first.
pub fn server_public_key(der: &[u8]) -> (r: Option<ServerKey>)
    requires
        !der_strip_overflows(der@),
    ensures
        match spec_server_key_der(der@) {
            Some(d) => r matches Some(k) && k.der() == d && k.key_size() == rsa_pkcs1_key_size(d),
            None => r is None,
        },
{
    match rsa_from_pkcs1_der(der) {
        Some(k) => Some(k),
        None => {
            let stripped = strip_der_wrapper(der);
            rsa_from_pkcs1_der(stripped.as_slice())
        },
    }
}

/// What reading an Encryption Request body gives.
pub enum EncryptionRequestParse {
    /// The server id's UTF-8 bytes, the public key's DER and the verify token.
    Parsed(Seq<u8>, Seq<u8>, Seq<u8>),
    /// The server id is no protocol string of at most 32767 characters, or a length is
    /// missing.
    Fails,
    /// A declared key or token length runs past the end (splitting there panics).
    Panics,
}

/// A byte array at `pos` after its VarInt length: the bytes and the position after
/// them; `None` when the length is missing, `Some(None)` when the length, taken as a
/// `usize`, runs past the end (a negative length becomes larger than any slice).
pub open spec fn split_array_at(s: Seq<u8>, pos: nat) -> Option<Option<(Seq<u8>, nat)>> {
    match var_int_at(s, pos) {
        None => None,
        Some((n, q)) => if n < 0 || q + n > s.len() {
            Some(None)
        } else {
            Some(Some((s.subrange(q as int, q + n), (q + n) as nat)))
        },
    }
}

/// The layout of an Encryption Request body: the server id as a protocol string of at
/// most 32767 characters, then the public key and the verify token, each after its
/// VarInt length.
pub open spec fn spec_encryption_request(s: Seq<u8>) -> EncryptionRequestParse {
    match spec_read_string(s, SERVER_ID_MAX_LEN) {
        None => EncryptionRequestParse::Fails,
        Some((id, p1)) => match split_array_at(s, p1) {
            None => EncryptionRequestParse::Fails,
            Some(None) => EncryptionRequestParse::Panics,
            Some(Some((key, p2))) => match split_array_at(s, p2) {
                None => EncryptionRequestParse::Fails,
                Some(None) => EncryptionRequestParse::Panics,
                Some(Some((token, _p3))) => EncryptionRequestParse::Parsed(id, key, token),
            },
        },
    }
}

/// The VarInt at `pos` of `s` and the position after it.
fn var_int_from(s: &[u8], pos: usize) -> (r: Option<(i32, usize)>)
    requires
        pos <= s@.len(),
    ensures
        match var_int_at(s@, pos as nat) {
            Some((v, q)) => r == Some((v, q as usize)),
            None => r is None,
        },
{
    let len = s.len();
    let (_, tail) = s.split_at(pos);
    assert(tail@ == s@.skip(pos as int));
    proof {
        lemma_var_int_end_bounds(tail@, 0);
    }
    match read_var_int_slice(tail) {
        Some((v, n)) => {
            assert(n <= tail@.len() && tail@.len() + pos == s@.len());
            Some((v, pos + n))
        },
        None => None,
    }
}

/// The bytes `s[start .. end]`.
fn bytes_between(s: &[u8], start: usize, end: usize) -> (r: Vec<u8>)
    requires
        start <= end <= s@.len(),
    ensures
        r@ == s@.subrange(start as int, end as int),
{
    let mut v: Vec<u8> = Vec::new();
    let mut i = start;
    while i < end
        invariant
            start <= i <= end <= s@.len(),
            v@ == s@.subrange(start as int, i as int),
        decreases end - i,
    {
        v.push(s[i]);
        i += 1;
        assert(v@ =~= s@.subrange(start as int, i as int));
    }
    v
}

/// Whether reading `body` as an Encryption Request would run a key or token length past
/// its end.
pub fn encryption_request_panics(body: &[u8]) -> (r: bool)
    ensures
        r == (spec_encryption_request(body@) is Panics),
{
    let len = body.len();
    let p1 = match read_string_slice(body, SERVER_ID_MAX_LEN) {
        Some((_id, p)) => p,
        None => return false,
    };
    let (kl, q1) = match var_int_from(body, p1) {
        Some(p) => p,
        None => return false,
    };
    proof {
        lemma_var_int_at_bounds(body@, p1 as nat);
    }
    if kl < 0 || (kl as usize) > len - q1 {
        return true;
    }
    let p2 = q1 + kl as usize;
    let (tl, q2) = match var_int_from(body, p2) {
        Some(p) => p,
        None => return false,
    };
    proof {
        lemma_var_int_at_bounds(body@, p2 as nat);
    }
    tl < 0 || (tl as usize) > len - q2
}

/// The longest server id, in characters.
pub const SERVER_ID_MAX_LEN: usize = 32767;

/// The longest reason of a login Disconnect, in characters.
pub const DISCONNECT_REASON_MAX_LEN: usize = 65535;

/// Reads an Encryption Request body: the server id, the public key's DER and the verify
/// token. `None` when the server id is no protocol string or a length is missing.
pub fn parse_encryption_request(body: &[u8]) -> (r: Option<(String, Vec<u8>, Vec<u8>)>)
    requires
        !(spec_encryption_request(body@) is Panics),
    ensures
        match spec_encryption_request(body@) {
            EncryptionRequestParse::Parsed(id, key, token) => r matches Some((a, b, c))
                && vstd::utf8::encode_utf8(a@) == id && b@ == key && c@ == token,
            _ => r is None,
        },
{
    let (server_id, p1) = match read_string_slice(body, SERVER_ID_MAX_LEN) {
        Some(p) => p,
        None => return None,
    };
    let len = body.len();
    let (kl, q1) = match var_int_from(body, p1) {
        Some(p) => p,
        None => return None,
    };
    proof {
        lemma_var_int_at_bounds(body@, p1 as nat);
    }
    let p2 = q1 + kl as usize;
    let pubkey = bytes_between(body, q1, p2);
    let (tl, q2) = match var_int_from(body, p2) {
        Some(p) => p,
        None => return None,
    };
    proof {
        lemma_var_int_at_bounds(body@, p2 as nat);
    }
    let p3 = q2 + tl as usize;
    assert(p3 <= len);
    let token = bytes_between(body, q2, p3);
    Some((server_id, pubkey, token))
}

/// Whether `body` is an Encryption Response body holding the ciphertexts `c1` (of the
/// shared secret) and `c2` (of the verify token).
pub open spec fn response_holds(body: Seq<u8>, c1: Seq<u8>, c2: Seq<u8>) -> bool {
    body == var_int_encoding(c1.len() as i32) + c1 + var_int_encoding(c2.len() as i32) + c2
}

/// Whether `body` is an Encryption Response body whose two ciphertexts, each of the
/// key's size, encrypt `secret` and `token` under the key whose PKCS#1 DER is `key_der`.
pub open spec fn response_encrypts(body: Seq<u8>, key_der: Seq<u8>, secret: Seq<u8>, token: Seq<u8>) -> bool {
    exists|c1: Seq<u8>, c2: Seq<u8>|
        #[trigger] response_holds(body, c1, c2) && c1.len() == rsa_pkcs1_key_size(key_der) && c2.len()
            == rsa_pkcs1_key_size(key_der) && pkcs1v15_encrypts(key_der, c1, secret) && pkcs1v15_encrypts(
            key_der,
            c2,
            token,
        )
}

/// Builds the client's Encryption Response for the server's key DER and verify token: a
/// fresh random shared secret, and the response body holding that secret and the token,
/// each encrypted with the server's key. `None` when the key parses neither directly nor
/// unwrapped, or when it is too small for the secret or the token (PKCS#1 v1.5 needs 11
/// bytes more than the message).
pub fn encryption_response(pubkey_der: &[u8], verify_token: &[u8]) -> (r: Option<([u8; 16], Vec<u8>)>)
    requires
        !der_strip_overflows(pubkey_der@),
    ensures
        match spec_server_key_der(pubkey_der@) {
            None => r is None,
            Some(d) => {
                &&& (r is Some) == (27 <= rsa_pkcs1_key_size(d) && verify_token@.len() + 11
                    <= rsa_pkcs1_key_size(d))
                &&& r matches Some((secret, body)) ==> response_encrypts(body@, d, secret@, verify_token@)
            },
        },
{
    let shared_secret = random_secret();
    let key = match server_public_key(pubkey_der) {
        Some(k) => k,
        None => return None,
    };
    let secret_bytes = shared_secret.as_slice();
    assert(secret_bytes@ == shared_secret@);
    let enc_secret = match rsa_encrypt_pkcs1v15(&key, secret_bytes) {
        Some(c) => c,
        None => return None,
    };
    let enc_token = match rsa_encrypt_pkcs1v15(&key, verify_token) {
        Some(c) => c,
        None => return None,
    };
    let body = encryption_response_body(enc_secret.as_slice(), enc_token.as_slice());
    assert(response_holds(body@, enc_secret@, enc_token@));
    Some((shared_secret, body))
}

/// What the client has set up while logging in: compression, and encryption once the
/// server asked for it.
#[derive(Debug, Clone, Copy, PartialEq, Eq, Structural)]
pub struct LoginState {
    pub compression_threshold: Option<u32>,
    pub encrypted: bool,
}

/// Why logging in failed.
#[derive(Debug, Clone, Copy, PartialEq, Eq, Structural)]
pub enum LoginError {
    BadCompressionThreshold,
    BadEncryptionRequest,
    BadLoginSuccess,
}

/// The longest player name, in characters.
pub const USERNAME_MAX_LEN: usize = 16;

/// The player name a Login Success body holds after the player's 16-byte UUID, as a
/// protocol string of at most 16 characters; the properties that follow are not read.
pub open spec fn spec_login_success(body: Seq<u8>) -> Option<Seq<u8>> {
    if body.len() < 16 {
        None
    } else {
        match spec_read_string(body.skip(16), USERNAME_MAX_LEN) {
            Some((name, _n)) => Some(name),
            None => None,
        }
    }
}

/// Reads the player name of a Login Success body.
pub fn login_success_username(body: &[u8]) -> (r: Option<String>)
    ensures
        match spec_login_success(body@) {
            Some(name) => r matches Some(st) && vstd::utf8::encode_utf8(st@) == name,
            None => r is None,
        },
{
    if body.len() < 16 {
        return None;
    }
    let (_, rest) = body.split_at(16);
    assert(rest@ == body@.skip(16));
    match read_string_slice(rest, USERNAME_MAX_LEN) {
        Some((name, _n)) => Some(name),
        None => None,
    }
}

/// What to do after a login packet.
#[derive(Debug, Clone, PartialEq, Eq)]
pub enum LoginAction {
    /// Read the next packet.
    Continue,
    /// Answer the encryption request with the server's key DER and verify token, then
    /// encrypt the connection.
    Encrypt(Vec<u8>, Vec<u8>),
    /// The login succeeded for the player name it holds: acknowledge it.
    Finish(String),
    /// The server rejected the login, with its reason (`None` when it does not decode).
    Rejected(Option<String>),
    /// Logging in failed.
    Fail(LoginError),
}

/// The spec of an action, its byte strings taken as sequences.
pub enum LoginOutcome {
    Continue,
    Encrypt(Seq<u8>, Seq<u8>),
    Finish(Seq<u8>),
    Rejected(Option<Seq<u8>>),
    Fail(LoginError),
}

pub open spec fn action_view(a: LoginAction) -> LoginOutcome {
    match a {
        LoginAction::Continue => LoginOutcome::Continue,
        LoginAction::Encrypt(k, t) => LoginOutcome::Encrypt(k@, t@),
        LoginAction::Finish(name) => LoginOutcome::Finish(vstd::utf8::encode_utf8(name@)),
        LoginAction::Rejected(r) => LoginOutcome::Rejected(
            match r {
                Some(v) => Some(vstd::utf8::encode_utf8(v@)),
                None => None,
            },
        ),
        LoginAction::Fail(e) => LoginOutcome::Fail(e),
    }
}

/// One login packet, by what its id means: Set Compression turns compression on at the
/// threshold the body holds (its bits taken as unsigned); Login Success ends the login
/// with the player name it holds, and fails when it holds none;
/// Encryption Request asks for encryption with the key and token it holds; Disconnect
/// rejects the login with the reason it holds, a protocol string of at most 65535
/// characters; any other packet is passed over.
pub open spec fn spec_login_step(state: LoginState, id: i32, body: Seq<u8>) -> (LoginState, LoginOutcome) {
    match spec_login_packet(id) {
        LoginPacket::SetCompression => match var_int_at(body, 0) {
            Some((t, _q)) => (
                LoginState { compression_threshold: Some(#[verifier::truncate] (t as u32)), ..state },
                LoginOutcome::Continue,
            ),
            None => (state, LoginOutcome::Fail(LoginError::BadCompressionThreshold)),
        },
        LoginPacket::LoginSuccess => match spec_login_success(body) {
            Some(name) => (state, LoginOutcome::Finish(name)),
            None => (state, LoginOutcome::Fail(LoginError::BadLoginSuccess)),
        },
        LoginPacket::EncryptionRequest => match spec_encryption_request(body) {
            EncryptionRequestParse::Parsed(_id, key, token) => (
                LoginState { encrypted: true, ..state },
                LoginOutcome::Encrypt(key, token),
            ),
            _ => (state, LoginOutcome::Fail(LoginError::BadEncryptionRequest)),
        },
        LoginPacket::Disconnect => (
            state,
            LoginOutcome::Rejected(
                match spec_read_string(body, DISCONNECT_REASON_MAX_LEN) {
                    Some((reason, _n)) => Some(reason),
                    None => None,
                },
            ),
        ),
        LoginPacket::Unexpected => (state, LoginOutcome::Continue),
    }
}

/// Decides what a login packet does.
pub fn login_step(state: LoginState, id: i32, body: &[u8]) -> (r: (LoginState, LoginAction))
    requires
        id == 0x01 ==> !(spec_encryption_request(body@) is Panics),
    ensures
        (r.0, action_view(r.1)) == spec_login_step(state, id, body@),
{
    match login_packet(id) {
        LoginPacket::SetCompression => match var_int_from(body, 0) {
            Some((t, _)) => (
                LoginState { compression_threshold: Some(#[verifier::truncate] (t as u32)), ..state },
                LoginAction::Continue,
            ),
            None => (state, LoginAction::Fail(LoginError::BadCompressionThreshold)),
        },
        LoginPacket::LoginSuccess => match login_success_username(body) {
            Some(name) => (state, LoginAction::Finish(name)),
            None => (state, LoginAction::Fail(LoginError::BadLoginSuccess)),
        },
        LoginPacket::EncryptionRequest => match parse_encryption_request(body) {
            Some((_server_id, key, token)) => (
                LoginState { encrypted: true, ..state },
                LoginAction::Encrypt(key, token),
            ),
            None => (state, LoginAction::Fail(LoginError::BadEncryptionRequest)),
        },
        LoginPacket::Disconnect => {
            let reason = match read_string_slice(body, DISCONNECT_REASON_MAX_LEN) {
                Some((text, _n)) => Some(text),
                None => None,
            };
            (state, LoginAction::Rejected(reason))
        },
        LoginPacket::Unexpected => (state, LoginAction::Continue),
    }
}

/// The id of the Handshake packet.
pub const HANDSHAKE_ID: i32 = 0x00;
/// The id of the Login Start packet.
pub const LOGIN_START_ID: i32 = 0x00;
/// The id of the client's Encryption Response.
pub const ENCRYPTION_RESPONSE_ID: i32 = 0x01;
/// The id of the client's Login Acknowledged, whose body is empty.
pub const LOGIN_ACKNOWLEDGED_ID: i32 = 0x03;
/// The state a Handshake asks to switch to for logging in.
pub const LOGIN_NEXT_STATE: i32 = 2;

/// The id of the server's Finish Configuration packet, and of the client's
/// acknowledgement of it.
pub const FINISH_CONFIGURATION_ID: i32 = 0x03;
pub const FINISH_CONFIGURATION_ACK_ID: i32 = 0x03;

/// What to do after a configuration packet.
#[derive(Debug, Clone, Copy, PartialEq, Eq, Structural)]
pub enum ConfigAction {
    /// Read the next packet.
    Continue,
    /// Acknowledge the end of configuration and enter the play state.
    EnterPlay,
}

/// A configuration packet ends configuration when it is Finish Configuration; every
/// other packet (registry data among them) is passed over.
pub fn config_step(id: i32) -> (r: ConfigAction)
    ensures
        r == (if id == FINISH_CONFIGURATION_ID { ConfigAction::EnterPlay } else { ConfigAction::Continue }),
{
    if id == FINISH_CONFIGURATION_ID {
        ConfigAction::EnterPlay
    } else {
        ConfigAction::Continue
    }
}

/// A string as the protocol writes it: its byte length as a VarInt, then its bytes.
pub open spec fn string_encoding(s: Seq<u8>) -> Seq<u8> {
    var_int_encoding(s.len() as i32) + s
}

/// Appends `s` as a protocol string.
fn put_string(buf: &mut Vec<u8>, s: &str)
    ensures
        final(buf)@ == old(buf)@ + string_encoding(s.spec_bytes()),
{
    let bytes = s.as_bytes();
    write_var_into_buf(buf, bytes.len() as i32);
    buf.extend_from_slice(bytes);
}

/// The body of a Handshake: the protocol version, the server address, the port
/// (big-endian) and the state to switch to.
pub fn handshake_body(protocol_version: i32, server_address: &str, server_port: u16, next_state: i32) -> (r: Vec<u8>)
    ensures
        r@ == var_int_encoding(protocol_version) + string_encoding(server_address.spec_bytes()) + seq![
            (server_port >> 8u16) as u8,
            server_port as u8,
        ] + var_int_encoding(next_state),
{
    let mut buf: Vec<u8> = Vec::new();
    write_var_into_buf(&mut buf, protocol_version);
    put_string(&mut buf, server_address);
    buf.push((server_port >> 8) as u8);
    buf.push(server_port as u8);
    write_var_into_buf(&mut buf, next_state);
    buf
}

/// The body of a Login Start: the player name and the 16 bytes of its UUID.
pub fn login_start_body(username: &str, uuid: [u8; 16]) -> (r: Vec<u8>)
    ensures
        r@ == string_encoding(username.spec_bytes()) + uuid@,
{
    let mut buf: Vec<u8> = Vec::new();
    put_string(&mut buf, username);
    buf.extend_from_slice(uuid.as_slice());
    buf
}

/// An Encryption Request body as the protocol lays it out: the server id as a string,
/// then the key and the token, each after its length as a VarInt.
pub open spec fn encryption_request_encoding(id: Seq<u8>, key: Seq<u8>, token: Seq<u8>) -> Seq<u8> {
    string_encoding(id) + var_int_encoding(key.len() as i32) + key + var_int_encoding(token.len() as i32)
        + token
}

/// Reading an Encryption Request gives back the server id, key and token it was written
/// with, whatever follows them, and the login step then asks to encrypt with that key
/// and token.
pub proof fn law_encryption_request_round_trip(
    state: LoginState,
    id: Seq<u8>,
    key: Seq<u8>,
    token: Seq<u8>,
    rest: Seq<u8>,
)
    requires
        vstd::utf8::valid_utf8(id),
        id.len() <= 4 * SERVER_ID_MAX_LEN,
        key.len() <= i32::MAX,
        token.len() <= i32::MAX,
    ensures
        spec_encryption_request(encryption_request_encoding(id, key, token) + rest)
            == EncryptionRequestParse::Parsed(id, key, token),
        spec_login_step(state, 0x01, encryption_request_encoding(id, key, token) + rest) == (
            LoginState { encrypted: true, ..state },
            LoginOutcome::Encrypt(key, token),
        ),
{
    let ei = var_int_encoding(id.len() as i32);
    let ek = var_int_encoding(key.len() as i32);
    let et = var_int_encoding(token.len() as i32);
    let s = encryption_request_encoding(id, key, token) + rest;
    let tail1 = ek + key + et + token + rest;
    assert(s =~= ei + id + tail1);
    law_read_string_round_trip(id, SERVER_ID_MAX_LEN, tail1);
    let p1 = ei.len() + id.len();
    assert(s.skip(p1 as int) =~= ek + (key + et + token + rest));
    law_var_int_round_trip(key.len() as i32, key + et + token + rest);
    let q1 = p1 + ek.len();
    assert(s.subrange(q1 as int, (q1 + key.len()) as int) =~= key);
    let p2 = q1 + key.len();
    assert(s.skip(p2 as int) =~= et + (token + rest));
    law_var_int_round_trip(token.len() as i32, token + rest);
    let q2 = p2 + et.len();
    assert(s.subrange(q2 as int, (q2 + token.len()) as int) =~= token);
    assert(spec_login_packet(0x01) == LoginPacket::EncryptionRequest);
}

/// A Disconnect whose reason was written as a protocol string rejects the login with that
/// reason, whatever follows it.
pub proof fn law_disconnect_reason_round_trip(state: LoginState, reason: Seq<u8>, rest: Seq<u8>)
    requires
        vstd::utf8::valid_utf8(reason),
        reason.len() <= 4 * DISCONNECT_REASON_MAX_LEN,
    ensures
        spec_login_step(state, 0x00, string_encoding(reason) + rest) == (
            state,
            LoginOutcome::Rejected(Some(reason)),
        ),
{
    law_read_string_round_trip(reason, DISCONNECT_REASON_MAX_LEN, rest);
    assert(spec_login_packet(0x00) == LoginPacket::Disconnect);
}

/// A Login Success body of a 16-byte UUID and a player name written as a protocol string
/// ends the login with that name, whatever follows it.
pub proof fn law_login_success_round_trip(state: LoginState, uuid: Seq<u8>, name: Seq<u8>, rest: Seq<u8>)
    requires
        uuid.len() == 16,
        vstd::utf8::valid_utf8(name),
        name.len() <= 4 * USERNAME_MAX_LEN,
    ensures
        spec_login_step(state, 0x02, uuid + string_encoding(name) + rest) == (
            state,
            LoginOutcome::Finish(name),
        ),
{
    let s = uuid + string_encoding(name) + rest;
    assert(s.skip(16) =~= string_encoding(name) + rest);
    law_read_string_round_trip(name, USERNAME_MAX_LEN, rest);
    assert(spec_login_packet(0x02) == LoginPacket::LoginSuccess);
}

/// Set Compression turns compression on at the threshold it was written with (its
/// 32-bit pattern read as unsigned), whatever follows, leaving encryption as it was.
pub proof fn law_set_compression_round_trip(state: LoginState, threshold: i32, rest: Seq<u8>)
    ensures
        spec_login_step(state, 0x03, var_int_encoding(threshold) + rest) == (
            LoginState { compression_threshold: Some(threshold as u32), encrypted: state.encrypted },
            LoginOutcome::Continue,
        ),
{
    law_var_int_round_trip(threshold, rest);
    assert((var_int_encoding(threshold) + rest).skip(0) =~= var_int_encoding(threshold) + rest);
    assert(spec_login_packet(0x03) == LoginPacket::SetCompression);
}

/// A packet whose id means nothing while logging in changes nothing and is passed over.
pub proof fn law_unknown_login_packets_are_ignored(state: LoginState, id: i32, body: Seq<u8>)
    requires
        !(0 <= id <= 3),
    ensures
        spec_login_step(state, id, body) == (state, LoginOutcome::Continue),
{
}

} // verus!

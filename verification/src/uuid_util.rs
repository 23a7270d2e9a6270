//! Offline-mode player UUIDs: the MD5 of `"OfflinePlayer:" + name`, stamped as a
//! version 3 (name-based, MD5) UUID of the RFC 4122 variant.

use vstd::prelude::*;
use md5::{Digest, Md5};
use uuid::Uuid;
use vstd::string::StringSliceAdditionalSpecFns;

verus! {

#[verifier::external_type_specification]
#[verifier::external_body]
pub struct ExUuid(Uuid);

/// The 16 bytes a `Uuid` holds.
pub uninterp spec fn uuid_bytes(u: Uuid) -> [u8; 16];

/// The MD5 digest of `data`.
pub uninterp spec fn md5_digest(data: Seq<u8>) -> [u8; 16];

/// `Md5::new`, `update` and `finalize` of the `md-5` crate: the MD5 digest of `data`.
#[verifier::external_body]
fn md5_of(data: &[u8]) -> (r: [u8; 16])
    ensures
        r == md5_digest(data@),
{
    let mut hasher = Md5::new();
    hasher.update(data);
    hasher.finalize().into()
}

/// `Uuid::from_bytes`: the UUID holding `bytes`.
#[verifier::external_body]
fn uuid_from_bytes(bytes: [u8; 16]) -> (r: Uuid)
    ensures
        uuid_bytes(r) == bytes,
{
    Uuid::from_bytes(bytes)
}

/// The ASCII bytes of `"OfflinePlayer:"`.
pub open spec fn offline_prefix() -> Seq<u8> {
    seq![0x4f, 0x66, 0x66, 0x6c, 0x69, 0x6e, 0x65, 0x50, 0x6c, 0x61, 0x79, 0x65, 0x72, 0x3a]
}

/// Sets the version (3) and variant (RFC 4122) bits of a name-based UUID.
pub open spec fn stamp_v3(b: [u8; 16]) -> Seq<u8> {
    b@.update(6, ((b@[6] & 0x0f) | 0x30) as u8).update(8, ((b@[8] & 0x3f) | 0x80) as u8)
}

/// The bytes of the offline UUID of a player whose name has UTF-8 bytes `name`.
pub open spec fn offline_uuid_bytes(name: Seq<u8>) -> Seq<u8> {
    stamp_v3(md5_digest(offline_prefix() + name))
}

pub fn create_offline_player_uuid(player_name: &str) -> (r: Uuid)
    ensures
        uuid_bytes(r)@ == offline_uuid_bytes(player_name.spec_bytes()),
{
    // "OfflinePlayer:"
    let prefix: [u8; 14] = [
        0x4f, 0x66, 0x66, 0x6c, 0x69, 0x6e, 0x65, 0x50, 0x6c, 0x61, 0x79, 0x65, 0x72, 0x3a,
    ];
    let mut input: Vec<u8> = Vec::new();
    input.extend_from_slice(prefix.as_slice());
    input.extend_from_slice(player_name.as_bytes());
    assert(input@ =~= offline_prefix() + player_name.spec_bytes());
    let hash = md5_of(input.as_slice());
    let mut bytes: [u8; 16] = hash;

    bytes[6] = (bytes[6] & 0x0f) | 0x30;
    bytes[8] = (bytes[8] & 0x3f) | 0x80;
    assert(bytes@ =~= stamp_v3(hash));

    uuid_from_bytes(bytes)
}

/// Every offline UUID is a version 3 UUID of the RFC 4122 variant: the high nibble of
/// byte 6 is 3 and the two high bits of byte 8 are `10`.
pub proof fn law_offline_uuid_version(name: Seq<u8>)
    ensures
        offline_uuid_bytes(name).len() == 16,
        offline_uuid_bytes(name)[6] >> 4u8 == 3,
        offline_uuid_bytes(name)[8] >> 6u8 == 2,
{
    let d = md5_digest(offline_prefix() + name);
    let b6 = d@[6];
    let b8 = d@[8];
    assert((((b6 & 0x0f) | 0x30) as u8) >> 4u8 == 3) by (bit_vector);
    assert((((b8 & 0x3f) | 0x80) as u8) >> 6u8 == 2) by (bit_vector);
}

} // verus!

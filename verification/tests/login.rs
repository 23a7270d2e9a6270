use std::io::Write;

use ferrite::login::{
    decompressed_frame, encryption_response_body, login_packet, login_uuid, login_uuid_value, LoginPacket,
};

fn fold_hash(s: &str) -> u128 {
    s.bytes().fold(0u128, |acc, b| acc.wrapping_mul(131).wrapping_add(b as u128))
}

#[test]
fn login_uuid_is_the_name_hash() {
    assert_eq!(login_uuid_value("Steve"), fold_hash("OfflinePlayer:Steve"));
    assert_eq!(login_uuid_value(""), fold_hash("OfflinePlayer:"));
    // Small known value: the hash of the prefix alone, computed step by step.
    let mut h: u128 = 0;
    for b in b"OfflinePlayer:" {
        h = h.wrapping_mul(131).wrapping_add(*b as u128);
    }
    assert_eq!(login_uuid_value(""), h);
    let u = login_uuid("Steve");
    assert_eq!(u, uuid::Uuid::from_u128(fold_hash("OfflinePlayer:Steve")));
    assert_eq!(u.as_bytes()[15], (fold_hash("OfflinePlayer:Steve") & 0xff) as u8);
    assert_ne!(login_uuid("Alex"), u);
}

#[test]
fn login_packet_ids() {
    assert_eq!(login_packet(0x00), LoginPacket::Disconnect);
    assert_eq!(login_packet(0x01), LoginPacket::EncryptionRequest);
    assert_eq!(login_packet(0x02), LoginPacket::LoginSuccess);
    assert_eq!(login_packet(0x03), LoginPacket::SetCompression);
    assert_eq!(login_packet(0x04), LoginPacket::Unexpected);
    assert_eq!(login_packet(-1), LoginPacket::Unexpected);
}

#[test]
fn encryption_response_layout() {
    let secret = vec![1u8; 128];
    let token = vec![2u8, 3, 4, 5];
    let body = encryption_response_body(&secret, &token);
    assert_eq!(body.len(), 2 + 128 + 1 + 4);
    assert_eq!(&body[..2], &[0x80, 0x01]);
    assert_eq!(&body[2..130], &secret[..]);
    assert_eq!(body[130], 4);
    assert_eq!(&body[131..], &token[..]);
    assert_eq!(encryption_response_body(&[], &[]), vec![0, 0]);
}

#[test]
fn compressed_frames_unpack() {
    // Below the threshold: uncompressed length 0, then the packet as it is.
    let raw = vec![0u8, 0x26, 9, 9];
    assert_eq!(decompressed_frame(&raw, 256), Some(vec![3, 0x26, 9, 9]));
    // Compressed: uncompressed length 5, then the zlib stream.
    let packet = vec![0x27u8, 1, 2, 3, 4];
    let mut enc = flate2::write::ZlibEncoder::new(Vec::new(), flate2::Compression::default());
    enc.write_all(&packet).unwrap();
    let z = enc.finish().unwrap();
    let mut body = vec![5u8];
    body.extend_from_slice(&z);
    assert_eq!(decompressed_frame(&body, 256), Some(vec![5, 0x27, 1, 2, 3, 4]));
    // With compression off (threshold 0) the bytes are passed on as they are.
    let mut expected = vec![z.len() as u8];
    expected.extend_from_slice(&z);
    assert_eq!(decompressed_frame(&body, 0), Some(expected));
    // A stream shorter than announced, garbage, and a missing length fail.
    let mut long = vec![9u8];
    long.extend_from_slice(&z);
    assert_eq!(decompressed_frame(&long, 256), None);
    assert_eq!(decompressed_frame(&[5u8, 1, 2, 3], 256), None);
    assert_eq!(decompressed_frame(&[], 256), None);
    assert_eq!(decompressed_frame(&[0x80], 256), None);
}

#[test]
fn negative_uncompressed_length_passes_through_without_compression() {
    let body = [0xFFu8, 0xFF, 0xFF, 0xFF, 0x0F, 7, 8];
    assert_eq!(decompressed_frame(&body, 0), Some(vec![2, 7, 8]));
}

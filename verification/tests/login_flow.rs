use ferrite::connection::{der_strip_would_overflow, frame_length_overflows};
use ferrite::login_flow::{
    config_step, encryption_request_panics, encryption_response, handshake_body, login_start_body,
    login_step, login_success_username, parse_encryption_request, server_public_key, ConfigAction, LoginAction, LoginError,
    LoginState,
};

fn pkcs1_key() -> Vec<u8> {
    vec![
        0x30, 0x81, 0x89, 0x2, 0x81, 0x81, 0x0, 0xa1, 0x70, 0xb3, 0x38, 0x39, 0x26, 0x30, 0x59, 0xf2, 0x8c, 0x10, 0x5d, 0x1f, 0xb1, 0x7c, 0x23, 0x90, 0xc1, 0x92, 0xcf, 0xd3, 0xac, 0x94, 0xaf, 0xf, 0x21, 0xdd, 0xb6, 0x6c, 0xad, 0x4a, 0x26, 0x8d, 0x11, 0x6e, 0xce, 0x17, 0x38, 0xf7, 0xd9, 0x3d, 0x9c, 0x17, 0x24, 0x11, 0xe2, 0xb, 0x8f, 0x6b, 0xd, 0x54, 0x9b, 0x6f, 0x3, 0x67, 0x5a, 0x16, 0x0, 0xa3, 0x5a, 0x9, 0x99, 0x50, 0xd8, 0x36, 0xf6, 0x75, 0xcc, 0x81, 0xe7, 0x4e, 0xf5, 0xe8, 0xe2, 0x5d, 0x94, 0xe, 0xd9, 0x4, 0x75, 0x95, 0x31, 0x98, 0x5d, 0x5d, 0x9d, 0xc9, 0xf8, 0x18, 0x18, 0xe8, 0x11, 0x89, 0x2f, 0x90, 0x2b, 0xd2, 0x3f, 0x8, 0x24, 0x12, 0x8b, 0x2f, 0x33, 0xc, 0x5c, 0x7f, 0xd0, 0xa6, 0xa3, 0xa4, 0x50, 0x65, 0x13, 0x27, 0xe, 0x26, 0x9e, 0xd, 0x37, 0xf2, 0xa7, 0x4d, 0xe4, 0x52, 0xe6, 0xb4, 0x39, 0x2, 0x3, 0x1, 0x0, 0x1
    ]
}

fn fresh() -> LoginState {
    LoginState { compression_threshold: None, encrypted: false }
}

#[test]
fn encryption_request_fields_are_read_in_order() {
    let body = [2u8, b'a', b'b', 3, 1, 2, 3, 2, 9, 8, 0xEE];
    assert_eq!(
        parse_encryption_request(&body),
        Some(("ab".to_string(), vec![1, 2, 3], vec![9, 8]))
    );
    assert!(!encryption_request_panics(&body));
}

#[test]
fn encryption_request_missing_parts_are_refused() {
    assert_eq!(parse_encryption_request(&[]), None);
    assert_eq!(parse_encryption_request(&[5, b'a']), None);
    assert_eq!(parse_encryption_request(&[0]), None);
    assert_eq!(parse_encryption_request(&[0, 1, 7]), None);
    assert!(!encryption_request_panics(&[5, b'a']));
    // a server id that is not UTF-8
    assert_eq!(parse_encryption_request(&[1, 0xFF, 0, 0]), None);
    assert!(!encryption_request_panics(&[1, 0xFF, 0, 0]));
}

#[test]
fn encryption_request_overlong_arrays_are_detected() {
    assert!(encryption_request_panics(&[0, 5, 1]));
    assert!(encryption_request_panics(&[0, 1, 7, 3, 1]));
    assert!(encryption_request_panics(&[0, 0xFF, 0xFF, 0xFF, 0xFF, 0x0F]));
    assert!(!encryption_request_panics(&[0, 0, 0]));
}

#[test]
fn set_compression_takes_the_threshold() {
    let (s, a) = login_step(fresh(), 0x03, &[0x80, 0x02]);
    assert_eq!(s, LoginState { compression_threshold: Some(256), encrypted: false });
    assert_eq!(a, LoginAction::Continue);
    let (s, _) = login_step(fresh(), 0x03, &[0xFF, 0xFF, 0xFF, 0xFF, 0x0F]);
    assert_eq!(s.compression_threshold, Some(u32::MAX));
    let (s, a) = login_step(fresh(), 0x03, &[0x80]);
    assert_eq!(s, fresh());
    assert_eq!(a, LoginAction::Fail(LoginError::BadCompressionThreshold));
}

#[test]
fn login_success_and_unknown_packets() {
    let mut success = vec![0xABu8; 16];
    success.extend_from_slice(&[5, b'S', b't', b'e', b'v', b'e', 0]);
    assert_eq!(login_step(fresh(), 0x02, &success), (fresh(), LoginAction::Finish("Steve".to_string())));
    assert_eq!(
        login_step(fresh(), 0x02, &[1, 2]),
        (fresh(), LoginAction::Fail(LoginError::BadLoginSuccess))
    );
    let mut long_name = vec![0u8; 16];
    long_name.push(65);
    long_name.extend_from_slice(&[b'a'; 65]);
    assert_eq!(login_success_username(&long_name), None);
    let mut ok_name = vec![0u8; 16];
    ok_name.push(3);
    ok_name.extend_from_slice(b"Bob");
    assert_eq!(login_success_username(&ok_name), Some("Bob".to_string()));
    assert_eq!(login_step(fresh(), 0x04, &[1, 2]), (fresh(), LoginAction::Continue));
    assert_eq!(login_step(fresh(), -1, &[]), (fresh(), LoginAction::Continue));
}

#[test]
fn encryption_request_turns_encryption_on() {
    let body = [0u8, 2, 5, 6, 1, 4];
    let (s, a) = login_step(fresh(), 0x01, &body);
    assert_eq!(s, LoginState { compression_threshold: None, encrypted: true });
    assert_eq!(a, LoginAction::Encrypt(vec![5, 6], vec![4]));
    let (s, a) = login_step(fresh(), 0x01, &[3, b'x']);
    assert_eq!(s, fresh());
    assert_eq!(a, LoginAction::Fail(LoginError::BadEncryptionRequest));
}

#[test]
fn disconnect_rejects_with_its_reason() {
    let (_, a) = login_step(fresh(), 0x00, &[2, b'h', b'i']);
    assert_eq!(a, LoginAction::Rejected(Some("hi".to_string())));
    let (_, a) = login_step(fresh(), 0x00, &[5, b'h']);
    assert_eq!(a, LoginAction::Rejected(None));
    let (_, a) = login_step(fresh(), 0x00, &[2, 0xFF, 0xFE]);
    assert_eq!(a, LoginAction::Rejected(None));
}

#[test]
fn finish_configuration_enters_play() {
    assert_eq!(config_step(0x03), ConfigAction::EnterPlay);
    assert_eq!(config_step(0x07), ConfigAction::Continue);
    assert_eq!(config_step(0x00), ConfigAction::Continue);
}

#[test]
fn handshake_and_login_start_bodies() {
    assert_eq!(
        handshake_body(772, "ab", 25565, 2),
        vec![0x84, 0x06, 2, b'a', b'b', 0x63, 0xDD, 2]
    );
    let mut expected = vec![2u8, b'a', b'b'];
    expected.extend_from_slice(&[7u8; 16]);
    assert_eq!(login_start_body("ab", [7u8; 16]), expected);
}

#[test]
fn server_key_is_parsed_directly_or_unwrapped() {
    let der = pkcs1_key();
    let key = server_public_key(&der).expect("key");
    assert_eq!(key.der_bytes(), &der[..]);
    assert_eq!(key.size(), 128);
    let mut wrapped = vec![0x30u8, 3, 0, 0, 0x03, 0];
    wrapped.extend_from_slice(&der);
    assert!(!der_strip_would_overflow(&wrapped));
    let key = server_public_key(&wrapped).expect("unwrapped key");
    assert_eq!(key.der_bytes(), &der[..]);
    assert_eq!(key.size(), 128);
    assert!(server_public_key(&[1, 2, 3]).is_none());
    assert!(server_public_key(&[]).is_none());
}

#[test]
fn encryption_response_holds_two_ciphertexts() {
    let der = pkcs1_key();
    let (_secret, body) = encryption_response(&der, &[1, 2, 3, 4]).unwrap();
    assert_eq!(body.len(), 2 + 128 + 2 + 128);
    assert_eq!(&body[0..2], &[0x80, 0x01]);
    assert_eq!(&body[130..132], &[0x80, 0x01]);
    assert!(encryption_response(&[1, 2, 3], &[1]).is_none());
    assert!(encryption_response(&der, &[7u8; 117]).is_some());
    assert!(encryption_response(&der, &[7u8; 118]).is_none());
}

#[test]
fn overflowing_lengths_are_detected() {
    let mut der = vec![0x30u8, 0x88, 0xFF, 0xFF, 0xFF, 0xFF, 0xFF, 0xFF, 0xFF, 0xFF];
    der.push(0);
    assert!(der_strip_would_overflow(&der));
    assert!(!der_strip_would_overflow(&[0x30, 3, 0, 0, 0x03, 0, 1]));
    assert!(!der_strip_would_overflow(&[1, 2]));
    let buf = bytes::BytesMut::from(&[0xFFu8, 0xFF, 0xFF, 0xFF, 0x0F][..]);
    assert!(frame_length_overflows(&buf));
    let buf = bytes::BytesMut::from(&[2u8, 0, 1][..]);
    assert!(!frame_length_overflows(&buf));
}

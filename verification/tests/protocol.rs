use bytes::{Buf, BufMut, BytesMut};
use ferrite::codec::{read_var_int, read_var_int_slice, var_int_encoded_len, write_var_int, write_var_into_buf};
use ferrite::connection::{der_len_at, encode_packet, parse_packets, strip_der_wrapper};
use ferrite::packets::{KeepAliveC2S, KeepAliveS2C, PingRequest, PongResponse, StatusRequest};

#[test]
fn var_int_known_encodings() {
    let cases: [(i32, &[u8]); 7] = [
        (0, &[0x00]),
        (1, &[0x01]),
        (127, &[0x7f]),
        (128, &[0x80, 0x01]),
        (300, &[0xac, 0x02]),
        (2147483647, &[0xff, 0xff, 0xff, 0xff, 0x07]),
        (-1, &[0xff, 0xff, 0xff, 0xff, 0x0f]),
    ];
    for &(v, enc) in cases.iter() {
        let mut out = Vec::new();
        write_var_into_buf(&mut out, v);
        assert_eq!(&out[..], enc);
        assert_eq!(var_int_encoded_len(v), enc.len());
        assert_eq!(read_var_int_slice(enc), Some((v, enc.len())));
    }
}

#[test]
fn var_int_round_trip_with_rest() {
    for &v in [0, 5, 200, 70000, -5, i32::MIN, i32::MAX].iter() {
        let mut buf = BytesMut::new();
        write_var_int(&mut buf, v);
        buf.put_u8(0xaa);
        assert_eq!(read_var_int(&mut buf), Some(v));
        assert_eq!(&buf[..], &[0xaa]);
    }
}

#[test]
fn var_int_incomplete_or_too_long() {
    let mut buf = BytesMut::from(&[0x80u8, 0x80][..]);
    assert_eq!(read_var_int(&mut buf), None);
    assert_eq!(buf.len(), 2);
    let mut long = BytesMut::from(&[0x80u8, 0x80, 0x80, 0x80, 0x80, 0x01][..]);
    assert_eq!(read_var_int(&mut long), None);
    assert_eq!(long.len(), 6);
    assert_eq!(read_var_int_slice(&[]), None);
}

#[test]
fn ping_pong_round_trip() {
    let req = PingRequest { payload: 0x0102_0304_0506_0708 };
    let mut body = req.encode();
    assert_eq!(&body[..], &[1, 2, 3, 4, 5, 6, 7, 8]);
    let pong = PongResponse::decode(&mut body).expect("decode");
    assert_eq!(pong.payload, 0x0102_0304_0506_0708);
    assert!(body.is_empty());
    let mut short = BytesMut::from(&[1u8, 2, 3][..]);
    assert!(PongResponse::decode(&mut short).is_none());
    assert_eq!(short.len(), 3);
    assert!(StatusRequest.encode().is_empty());
    assert_eq!(StatusRequest::ID, 0x00);
    assert_eq!(PingRequest::ID, 0x01);
}

#[test]
fn keep_alive_round_trip() {
    let mut body = KeepAliveC2S { id: -2 }.encode();
    body.put_u8(9);
    let ka = KeepAliveS2C::decode(&mut body).expect("decode");
    assert_eq!(ka.id, -2);
    assert_eq!(body.get_u8(), 9);
    assert_eq!(KeepAliveS2C::ID, 0x26);
    assert_eq!(KeepAliveC2S::ID, 0x1B);
}

#[test]
fn frame_round_trip() {
    let mut buf = encode_packet(0x26, &[1, 2, 3]);
    assert_eq!(&buf[..], &[4, 0x26, 1, 2, 3]);
    buf.extend_from_slice(&encode_packet(300, &[]));
    let (id, body) = parse_packets(&mut buf).expect("first");
    assert_eq!(id, 0x26);
    assert_eq!(&body[..], &[1, 2, 3]);
    let (id2, body2) = parse_packets(&mut buf).expect("second");
    assert_eq!(id2, 300);
    assert!(body2.is_empty());
    assert!(buf.is_empty());
}

#[test]
fn frame_incomplete_keeps_buffer() {
    let mut buf = BytesMut::from(&[5u8, 1, 2][..]);
    assert!(parse_packets(&mut buf).is_none());
    assert_eq!(buf.len(), 3);
    // a zero-length frame has no id: the frame is dropped
    let mut empty = BytesMut::from(&[0u8, 7][..]);
    assert!(parse_packets(&mut empty).is_none());
    assert_eq!(&empty[..], &[7]);
}

#[test]
fn der_lengths() {
    assert_eq!(der_len_at(&[0x30, 0x05], 1), 5);
    assert_eq!(der_len_at(&[0x30, 0x82, 0x01, 0x0a], 1), 0x010a);
    assert_eq!(der_len_at(&[0x30, 0x82, 0x01], 1), 0x01);
    assert_eq!(der_len_at(&[0x30], 4), 0);
}

#[test]
fn der_strip_wrapper() {
    // SEQUENCE(len 1) SEQUENCE(len 1) BIT STRING(len 1) unused-bits key...
    let der = [0x30u8, 0x01, 0x30, 0x01, 0x03, 0x01, 0x00, 0xaa, 0xbb];
    // pos: 1 + 1 = 2 -> SEQUENCE at 2: 3 + 1 = 4 -> BIT STRING at 4: 5 + 1 = 6 -> skip 7
    assert_eq!(strip_der_wrapper(&der), vec![0xaa, 0xbb]);
    // not a wrapper: returned as is
    let plain = [0x02u8, 0x01, 0x05, 0x00, 0x00];
    assert_eq!(strip_der_wrapper(&plain), plain.to_vec());
    let short = [0x30u8, 0x01];
    assert_eq!(strip_der_wrapper(&short), short.to_vec());
}

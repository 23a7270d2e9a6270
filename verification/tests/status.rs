use bytes::BytesMut;
use ferrite::codec::read_string;
use ferrite::packets::StatusResponse;

#[test]
fn status_response_reads_its_text() {
    let mut buf = BytesMut::from(&[5u8, b'h', b'e', b'l', b'l', b'o', 9][..]);
    let r = StatusResponse::decode(&mut buf).expect("status");
    assert_eq!(r.json, "hello");
    assert_eq!(&buf[..], &[9u8][..]);
}

#[test]
fn status_response_refuses_bad_text() {
    let mut buf = BytesMut::from(&[2u8, 0xFF, 0xFE][..]);
    assert!(StatusResponse::decode(&mut buf).is_none());
    assert_eq!(&buf[..], &[2u8, 0xFF, 0xFE][..]);
    let mut short = BytesMut::from(&[5u8, b'a'][..]);
    assert!(StatusResponse::decode(&mut short).is_none());
    assert_eq!(short.len(), 2);
    let mut empty = BytesMut::new();
    assert!(StatusResponse::decode(&mut empty).is_none());
}

#[test]
fn read_string_limits_and_utf8() {
    let mut buf = BytesMut::from(&[2u8, 0xC3, 0xA9][..]);
    assert_eq!(read_string(&mut buf, 1).as_deref(), Some("é"));
    assert!(buf.is_empty());
    let mut long = BytesMut::from(&[5u8, b'a', b'b', b'c', b'd', b'e'][..]);
    assert!(read_string(&mut long, 1).is_none());
    assert_eq!(long.len(), 6);
    assert_eq!(read_string(&mut long, 2).as_deref(), Some("abcde"));
    let mut negative = BytesMut::from(&[0xFFu8, 0xFF, 0xFF, 0xFF, 0x0F, 1][..]);
    assert!(read_string(&mut negative, 10).is_none());
}

use bytes::{Bytes, BytesMut};
use iotmq::protocol::{
    decode_binary, decode_len, decode_string, encode_binary, encode_len, encode_string, len_len,
    text_len, Error, Level, PacketType, Property, QoS,
};

#[test]
fn test_len_len() {
    assert_eq!(len_len(0), 1);
    assert_eq!(len_len(128), 2);
    assert_eq!(len_len(16384), 3);
    assert_eq!(len_len(2097152), 4);
}

#[test]
fn test_encode_len() {
    let mut buf = BytesMut::new();
    assert!(matches!(encode_len(&mut buf, 268_435_456), Err(Error::LenTooLong)));

    let mut buf = BytesMut::new();
    assert!(encode_len(&mut buf, 0).is_ok());
    assert_eq!(buf[..], [0x00]);

    let mut buf = BytesMut::new();
    assert!(encode_len(&mut buf, 1).is_ok());
    assert_eq!(buf[..], [0x01]);

    let mut buf = BytesMut::new();
    assert!(encode_len(&mut buf, 128).is_ok());
    assert_eq!(buf[..], [0x80, 0x01]);

    let mut buf = BytesMut::new();
    assert!(encode_len(&mut buf, 268_435_455).is_ok());
    assert_eq!(buf[..], [0xFF, 0xFF, 0xFF, 0x7F]);
}

#[test]
fn test_decode_len() {
    let src = &[];
    assert!(matches!(decode_len(src), Ok(None)));

    let src = &[0x01];
    assert!(matches!(decode_len(src), Ok(Some((1, 1)))));

    let src = &[0x80, 0x01];
    assert!(matches!(decode_len(src), Ok(Some((128, 2)))));

    let src = &[0xFF, 0xFF, 0xFF, 0x7F];
    assert!(matches!(decode_len(src), Ok(Some((268_435_455, 4)))));

    let src = &[0xFF, 0xFF, 0xFF, 0xFF];
    assert!(matches!(decode_len(src), Err(Error::MalformedPacket)));
}

#[test]
fn len_len_at_every_boundary() {
    assert_eq!(len_len(127), 1);
    assert_eq!(len_len(16383), 2);
    assert_eq!(len_len(2097151), 3);
    assert_eq!(len_len(268_435_455), 4);
    assert_eq!(len_len(268_435_456), 5);
}

#[test]
fn encode_len_boundary_values() {
    let cases: Vec<(usize, Vec<u8>)> = vec![
        (0, vec![0x00]),
        (127, vec![0x7F]),
        (128, vec![0x80, 0x01]),
        (16383, vec![0xFF, 0x7F]),
        (16384, vec![0x80, 0x80, 0x01]),
        (2097151, vec![0xFF, 0xFF, 0x7F]),
        (2097152, vec![0x80, 0x80, 0x80, 0x01]),
        (268435455, vec![0xFF, 0xFF, 0xFF, 0x7F]),
    ];
    for (value, bytes) in cases {
        let mut buf = BytesMut::new();
        assert_eq!(encode_len(&mut buf, value), Ok(()));
        assert_eq!(&buf[..], &bytes[..]);
        assert_eq!(bytes.len(), len_len(value));
    }
}

#[test]
fn encode_len_refuses_the_first_value_out_of_range() {
    let mut buf = BytesMut::new();
    buf.extend_from_slice(&[0xAA]);
    assert_eq!(encode_len(&mut buf, 268435456), Err(Error::LenTooLong));
    assert_eq!(&buf[..], &[0xAA]);
}

#[test]
fn encode_len_appends_after_what_is_there() {
    let mut buf = BytesMut::new();
    buf.extend_from_slice(&[0x10]);
    assert_eq!(encode_len(&mut buf, 300), Ok(()));
    assert_eq!(&buf[..], &[0x10, 0xAC, 0x02]);
}

#[test]
fn len_round_trip_on_chosen_values() {
    let values = [
        0usize, 1, 127, 128, 300, 16383, 16384, 65535, 2097151, 2097152, 123_456_789, 268435455,
    ];
    for v in values {
        let mut buf = BytesMut::new();
        assert_eq!(encode_len(&mut buf, v), Ok(()));
        buf.extend_from_slice(&[0xFF, 0x00]);
        assert_eq!(decode_len(&buf[..]), Ok(Some((v, len_len(v)))));
    }
}

#[test]
fn decode_len_waits_inside_an_integer() {
    assert_eq!(decode_len(&[0x80]), Ok(None));
    assert_eq!(decode_len(&[0xFF, 0xFF]), Ok(None));
    assert_eq!(decode_len(&[0xFF, 0xFF, 0xFF]), Ok(None));
}

#[test]
fn decode_len_ignores_what_follows() {
    assert_eq!(decode_len(&[0x05, 0xFF, 0xFF, 0xFF, 0xFF]), Ok(Some((5, 1))));
    assert_eq!(decode_len(&[0x80, 0x80, 0x01, 0xFF]), Ok(Some((16384, 3))));
}

#[test]
fn decode_len_accepts_padded_encodings() {
    assert_eq!(decode_len(&[0x80, 0x00]), Ok(Some((0, 2))));
    assert_eq!(decode_len(&[0x81, 0x80, 0x80, 0x00]), Ok(Some((1, 4))));
}

#[test]
fn decode_string_reads_text_and_moves_on() {
    let mut src = Bytes::from_static(&[0x00, 0x03, b'a', b'b', b'c', 0x07, 0x08]);
    assert_eq!(decode_string(&mut src), Ok(Some("abc".to_string())));
    assert_eq!(&src[..], &[0x07, 0x08]);
}

#[test]
fn decode_string_reads_an_empty_string() {
    let mut src = Bytes::from_static(&[0x00, 0x00, 0x09]);
    assert_eq!(decode_string(&mut src), Ok(Some(String::new())));
    assert_eq!(&src[..], &[0x09]);
}

#[test]
fn decode_string_reads_multibyte_text() {
    let mut src = Bytes::from_static(&[0x00, 0x05, 0xC3, 0xA9, 0xE2, 0x82, 0xAC]);
    assert_eq!(decode_string(&mut src), Ok(Some("\u{e9}\u{20ac}".to_string())));
    assert!(src.is_empty());
}

#[test]
fn decode_string_waits_for_a_partial_string() {
    let mut src = Bytes::from_static(&[0x00]);
    assert_eq!(decode_string(&mut src), Ok(None));
    assert_eq!(&src[..], &[0x00]);

    let mut src = Bytes::from_static(&[0x00, 0x04, b'M', b'Q', b'T']);
    assert_eq!(decode_string(&mut src), Ok(None));
    assert_eq!(&src[..], &[0x00, 0x04, b'M', b'Q', b'T']);

    let mut src = Bytes::new();
    assert_eq!(decode_string(&mut src), Ok(None));
}

#[test]
fn decode_string_refuses_bytes_that_are_not_utf8() {
    let mut src = Bytes::from_static(&[0x00, 0x02, 0xC3, 0x28, 0x01]);
    assert_eq!(decode_string(&mut src), Err(Error::ProtocolError));
    assert_eq!(&src[..], &[0x01]);

    let mut src = Bytes::from_static(&[0x00, 0x01, 0xFF]);
    assert_eq!(decode_string(&mut src), Err(Error::ProtocolError));
}

#[test]
fn decode_string_uses_a_big_endian_length() {
    let mut bytes = vec![0x01, 0x02];
    bytes.extend(std::iter::repeat(b'x').take(258));
    bytes.push(b'!');
    let mut src = Bytes::from(bytes);
    let text = decode_string(&mut src).unwrap().unwrap();
    assert_eq!(text.len(), 258);
    assert_eq!(&src[..], b"!");
}

#[test]
fn decode_binary_reads_any_bytes() {
    let mut src = Bytes::from_static(&[0x00, 0x03, 0xFF, 0x00, 0xC3, 0x01]);
    assert_eq!(decode_binary(&mut src), Some(vec![0xFF, 0x00, 0xC3]));
    assert_eq!(&src[..], &[0x01]);
}

#[test]
fn decode_binary_waits_for_a_partial_blob() {
    let mut src = Bytes::from_static(&[0x00, 0x03, 0xFF, 0x00]);
    assert_eq!(decode_binary(&mut src), None);
    assert_eq!(&src[..], &[0x00, 0x03, 0xFF, 0x00]);
}

#[test]
fn text_len_counts_bytes() {
    assert_eq!(text_len(""), 0);
    assert_eq!(text_len("abc"), 3);
    assert_eq!(text_len("\u{20ac}"), 3);
}

#[test]
fn qos_wire_values() {
    assert_eq!(QoS::try_from(0), Ok(QoS::AtMostOnce));
    assert_eq!(QoS::try_from(1), Ok(QoS::AtLeastOnce));
    assert_eq!(QoS::try_from(2), Ok(QoS::ExactlyOnce));
    assert_eq!(QoS::try_from(3), Err(Error::ProtocolError));
    assert_eq!(QoS::try_from(255), Err(Error::ProtocolError));
    assert_eq!(QoS::ExactlyOnce.code(), 2);
    assert_eq!(QoS::default(), QoS::AtMostOnce);
}

#[test]
fn packet_type_wire_values() {
    assert_eq!(PacketType::try_from(0), Ok(PacketType::Reserved));
    assert_eq!(PacketType::try_from(1), Ok(PacketType::Connect));
    assert_eq!(PacketType::try_from(2), Ok(PacketType::ConnAck));
    assert_eq!(PacketType::try_from(15), Ok(PacketType::Auth));
    assert_eq!(PacketType::try_from(16), Err(Error::MalformedPacket));
    for v in 0u8..16 {
        assert_eq!(PacketType::try_from(v).unwrap().code(), v);
    }
}

#[test]
fn property_wire_values() {
    assert_eq!(Property::try_from(0x11), Ok(Property::SessionExpiryInterval));
    assert_eq!(Property::try_from(0x26), Ok(Property::UserProperty));
    assert_eq!(Property::try_from(0x2A), Ok(Property::SharedSubAvailable));
    assert_eq!(Property::try_from(0x00), Err(Error::MalformedPacket));
    assert_eq!(Property::try_from(0x04), Err(Error::MalformedPacket));
    assert_eq!(Property::try_from(0x2B), Err(Error::MalformedPacket));
    let mut known = 0;
    for v in 0u8..=255 {
        if let Ok(p) = Property::try_from(v) {
            assert_eq!(p.code(), v);
            known += 1;
        }
    }
    assert_eq!(known, 27);
}

#[test]
fn level_names() {
    assert_eq!(Level(3).str(), "3.1");
    assert_eq!(Level(4).str(), "3.1.1");
    assert_eq!(Level(5).str(), "5.0");
    assert_eq!(Level(0).str(), "5.0");
}

#[test]
fn encode_string_writes_length_and_text() {
    let mut dst = BytesMut::new();
    dst.extend_from_slice(&[0x99]);
    assert_eq!(encode_string(&mut dst, "MQTT"), Ok(()));
    assert_eq!(&dst[..], &[0x99, 0x00, 0x04, 0x4D, 0x51, 0x54, 0x54]);
    assert_eq!(encode_string(&mut dst, ""), Ok(()));
    assert_eq!(&dst[7..], &[0x00, 0x00]);
}

#[test]
fn encode_string_counts_bytes_not_characters() {
    let mut dst = BytesMut::new();
    assert_eq!(encode_string(&mut dst, "\u{20ac}"), Ok(()));
    assert_eq!(&dst[..], &[0x00, 0x03, 0xE2, 0x82, 0xAC]);
}

#[test]
fn encode_binary_writes_a_big_endian_length() {
    let payload = vec![0xAB; 0x0102];
    let mut dst = BytesMut::new();
    assert_eq!(encode_binary(&mut dst, &payload), Ok(()));
    assert_eq!(dst.len(), 2 + 0x0102);
    assert_eq!(&dst[..3], &[0x01, 0x02, 0xAB]);
}

#[test]
fn encode_refuses_what_does_not_fit_the_prefix() {
    let mut dst = BytesMut::new();
    dst.extend_from_slice(&[0x01]);
    assert_eq!(encode_binary(&mut dst, &vec![0u8; 65536]), Err(Error::LenTooLong));
    assert_eq!(encode_string(&mut dst, &"x".repeat(65536)), Err(Error::LenTooLong));
    assert_eq!(&dst[..], &[0x01]);
    assert_eq!(encode_binary(&mut dst, &vec![7u8; 65535]), Ok(()));
    assert_eq!(dst.len(), 1 + 2 + 65535);
    assert_eq!(&dst[1..4], &[0xFF, 0xFF, 0x07]);
}

#[test]
fn string_round_trip() {
    for text in ["", "a", "client/1", "\u{e9}t\u{e9}", "\u{1F600} ok"] {
        let mut dst = BytesMut::new();
        assert_eq!(encode_string(&mut dst, text), Ok(()));
        dst.extend_from_slice(&[0x42]);
        let mut src = dst.freeze();
        assert_eq!(decode_string(&mut src), Ok(Some(text.to_string())));
        assert_eq!(&src[..], &[0x42]);
    }
}

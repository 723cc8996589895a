use bytes::BytesMut;
use iotmq::protocol::frame::DEFAULT_MAX_PACKET_SIZE;
use iotmq::protocol::{v3, v5, version, Codec, Error, Packet, Version};

const MINIMAL_V3: [u8; 14] =
    [0x10, 0x0C, 0x00, 0x04, 0x4D, 0x51, 0x54, 0x54, 0x04, 0x02, 0x00, 0x3C, 0x00, 0x00];

const MINIMAL_V5: [u8; 18] = [
    0x10, 0x10, 0x00, 0x04, 0x4D, 0x51, 0x54, 0x54, 0x05, 0x02, 0x00, 0x3C, 0x00, 0x00, 0x03, 0x61,
    0x62, 0x63,
];

fn buffer(bytes: &[u8]) -> BytesMut {
    let mut buf = BytesMut::new();
    buf.extend_from_slice(bytes);
    buf
}

#[test]
fn v3_codec_decodes_the_minimal_connect() {
    let mut buf = buffer(&MINIMAL_V3);
    let mut codec = v3::Codec::default();
    let (packet, size) = codec.decode(&mut buf).unwrap().unwrap();
    assert_eq!(size, 14);
    assert!(buf.is_empty());
    match packet {
        Packet::Connect(c) => {
            assert_eq!(c.protocol_name, "MQTT");
            assert_eq!(c.protocol_level, "3.1.1");
            assert!(c.clean_start);
            assert_eq!(c.keepalive, 60);
            assert_eq!(c.client_id, "");
        }
        other => panic!("not a CONNECT: {:?}", other),
    }
}

#[test]
fn v5_codec_decodes_the_minimal_connect() {
    let mut buf = buffer(&MINIMAL_V5);
    buf.extend_from_slice(&[0xC0, 0x00]);
    let mut codec = v5::Codec::default();
    let (packet, size) = codec.decode(&mut buf).unwrap().unwrap();
    assert_eq!(size, 18);
    assert_eq!(&buf[..], &[0xC0, 0x00]);
    match packet {
        Packet::Connect(c) => {
            assert_eq!(c.protocol_level, "5.0");
            assert_eq!(c.client_id, "abc");
            assert_eq!(c.properties, Some(v5::ConnectProperties::new()));
        }
        other => panic!("not a CONNECT: {:?}", other),
    }
}

#[test]
fn malformed_remaining_length() {
    let bytes = [0x10, 0xFF, 0xFF, 0xFF, 0xFF, 0x00];
    let mut buf = buffer(&bytes);
    assert_eq!(v3::Codec::default().decode(&mut buf), Err(Error::MalformedPacket));
    assert_eq!(&buf[..], &bytes);
    assert_eq!(v5::Codec::default().decode(&mut buf), Err(Error::MalformedPacket));
    assert_eq!(version::Codec::default().decode(&mut buf), Err(Error::MalformedPacket));
    assert_eq!(&buf[..], &bytes);
}

#[test]
fn incremental_feed_into_the_v3_codec() {
    let mut codec = v3::Codec::default();
    let mut buf = BytesMut::new();
    for (i, byte) in MINIMAL_V3.iter().enumerate() {
        buf.extend_from_slice(&[*byte]);
        let got = codec.decode(&mut buf).unwrap();
        if i < 13 {
            assert_eq!(got, None, "after {} bytes", i + 1);
            assert_eq!(&buf[..], &MINIMAL_V3[..i + 1]);
        } else {
            let (packet, size) = got.unwrap();
            assert_eq!(size, 14);
            assert!(matches!(packet, Packet::Connect(_)));
            assert!(buf.is_empty());
        }
    }
}

#[test]
fn incremental_feed_into_the_framer() {
    let mut codec = Codec::new(DEFAULT_MAX_PACKET_SIZE);
    let mut buf = BytesMut::new();
    let mut switched_after = 0;
    let mut decoded_after = 0;
    for (i, byte) in MINIMAL_V3.iter().enumerate() {
        buf.extend_from_slice(&[*byte]);
        let mut got = codec.decode(&mut buf).unwrap();
        if let Some((Packet::Version(v), size)) = got {
            assert_eq!(v, Version::V3);
            assert_eq!(size, 0);
            assert_eq!(&buf[..], &MINIMAL_V3[..i + 1]);
            assert!(codec.switch(v));
            switched_after = i + 1;
            got = codec.decode(&mut buf).unwrap();
        }
        match got {
            None => assert!(i < 13),
            Some((Packet::Connect(c), size)) => {
                assert_eq!(size, 14);
                assert_eq!(c.keepalive, 60);
                decoded_after = i + 1;
            }
            Some(other) => panic!("unexpected {:?}", other),
        }
    }
    assert_eq!(switched_after, 11);
    assert_eq!(decoded_after, 14);
    assert!(buf.is_empty());
}

#[test]
fn every_prefix_of_a_connect_is_pending() {
    for n in 0..MINIMAL_V5.len() {
        let mut buf = buffer(&MINIMAL_V5[..n]);
        assert_eq!(v5::Codec::default().decode(&mut buf), Ok(None));
        assert_eq!(&buf[..], &MINIMAL_V5[..n]);
    }
}

#[test]
fn a_pending_frame_has_room_reserved() {
    let mut buf = buffer(&[0x10, 0xE8, 0x07, 0x00]);
    assert_eq!(v3::Codec::default().decode(&mut buf), Ok(None));
    assert_eq!(&buf[..], &[0x10, 0xE8, 0x07, 0x00]);
    assert!(buf.capacity() >= 1003);
}

#[test]
fn two_frames_come_out_one_by_one() {
    let mut buf = buffer(&MINIMAL_V3);
    buf.extend_from_slice(&[0x20, 0x02, 0x01, 0x00]);
    let mut codec = v3::Codec::default();
    let (first, size) = codec.decode(&mut buf).unwrap().unwrap();
    assert!(matches!(first, Packet::Connect(_)));
    assert_eq!(size, 14);
    assert_eq!(&buf[..], &[0x20, 0x02, 0x01, 0x00]);
    let (second, size) = codec.decode(&mut buf).unwrap().unwrap();
    assert_eq!(size, 4);
    match second {
        Packet::ConnAck(c) => assert!(c.session_present),
        other => panic!("unexpected {:?}", other),
    }
    assert_eq!(codec.decode(&mut buf), Ok(None));
}

#[test]
fn the_type_byte_is_judged_before_the_length() {
    // Type 0 is reserved.
    let mut buf = buffer(&[0x00, 0x80]);
    assert_eq!(v3::Codec::default().decode(&mut buf), Err(Error::MalformedPacket));
    // CONNECT and CONNACK want clear flags.
    let mut buf = buffer(&[0x11, 0x80]);
    assert_eq!(v5::Codec::default().decode(&mut buf), Err(Error::MalformedPacket));
    let mut buf = buffer(&[0x28, 0x02, 0x00, 0x00]);
    assert_eq!(v5::Codec::default().decode(&mut buf), Err(Error::MalformedPacket));
    // AUTH exists under MQTT 5 only.
    let mut buf = buffer(&[0xF0, 0x80]);
    assert_eq!(v3::Codec::default().decode(&mut buf), Err(Error::MalformedPacket));
    assert_eq!(v5::Codec::default().decode(&mut buf), Ok(None));
    assert_eq!(&buf[..], &[0xF0, 0x80]);
}

#[test]
fn a_single_byte_decides_nothing() {
    let mut buf = buffer(&[0x00]);
    assert_eq!(v3::Codec::default().decode(&mut buf), Ok(None));
    assert_eq!(version::Codec::default().decode(&mut buf), Ok(None));
    let mut buf = BytesMut::new();
    assert_eq!(v5::Codec::default().decode(&mut buf), Ok(None));
}

#[test]
fn frames_of_other_types_are_taken_out_and_refused() {
    // PINGREQ
    let mut buf = buffer(&[0xC0, 0x00, 0x10]);
    assert_eq!(v3::Codec::default().decode(&mut buf), Err(Error::MalformedPacket));
    assert_eq!(&buf[..], &[0x10]);
    // PUBLISH with flags
    let mut buf = buffer(&[0x3B, 0x02, 0xAA, 0xBB]);
    assert_eq!(v5::Codec::default().decode(&mut buf), Err(Error::MalformedPacket));
    assert!(buf.is_empty());
}

#[test]
fn a_bad_body_is_taken_out_with_its_frame() {
    let mut buf = buffer(&[0x10, 0x02, 0x00, 0x04, 0x77]);
    assert_eq!(v3::Codec::default().decode(&mut buf), Err(Error::MalformedPacket));
    assert_eq!(&buf[..], &[0x77]);
}

#[test]
fn a_body_above_the_cap_is_too_long() {
    let mut codec = v3::Codec::new(11);
    let mut buf = buffer(&MINIMAL_V3);
    assert_eq!(codec.decode(&mut buf), Err(Error::LenTooLong));
    assert_eq!(&buf[..], &MINIMAL_V3);
    let mut codec = v3::Codec::new(12);
    assert!(codec.decode(&mut buf).unwrap().is_some());

    // The cap is judged on the header alone.
    let mut codec = v5::Codec::new(100);
    let mut buf = buffer(&[0x10, 0x65]);
    assert_eq!(codec.decode(&mut buf), Err(Error::LenTooLong));
    let mut buf = buffer(&[0x10, 0x64]);
    assert_eq!(codec.decode(&mut buf), Ok(None));
}

#[test]
fn the_default_cap_is_256_kib() {
    assert_eq!(DEFAULT_MAX_PACKET_SIZE, 256 * 1024);
    assert_eq!(v3::Codec::default().max_packet_size, 262_144);
    assert_eq!(v5::Codec::default().max_packet_size, 262_144);
    assert_eq!(version::Codec::default().max_packet_size, 262_144);
    // 262 144 = 0x80 0x80 0x10, 262 145 = 0x81 0x80 0x10
    let mut buf = buffer(&[0x10, 0x81, 0x80, 0x10]);
    assert_eq!(v5::Codec::default().decode(&mut buf), Err(Error::LenTooLong));
    let mut buf = buffer(&[0x10, 0x80, 0x80, 0x10]);
    assert_eq!(v5::Codec::default().decode(&mut buf), Ok(None));
}

#[test]
fn probe_finds_each_dialect() {
    let mut codec = version::Codec::default();
    let mut buf = buffer(&MINIMAL_V3);
    assert_eq!(codec.decode(&mut buf), Ok(Some((Packet::Version(Version::V3), 0))));
    assert_eq!(&buf[..], &MINIMAL_V3);

    let mut buf = buffer(&MINIMAL_V5);
    assert_eq!(codec.decode(&mut buf), Ok(Some((Packet::Version(Version::V5), 0))));
    assert_eq!(&buf[..], &MINIMAL_V5);

    let old = [
        0x10, 0x0E, 0x00, 0x06, b'M', b'Q', b'I', b's', b'd', b'p', 0x03, 0x02, 0x00, 0x3C, 0x00,
        0x00,
    ];
    let mut buf = buffer(&old);
    assert_eq!(codec.decode(&mut buf), Ok(Some((Packet::Version(Version::V3), 0))));
    assert_eq!(&buf[..], &old);
}

#[test]
fn probe_refuses_anything_but_connect() {
    for first in [0x00u8, 0x11, 0x1F, 0x20, 0x30, 0xC0, 0xF0, 0xFF] {
        let mut bytes = MINIMAL_V3;
        bytes[0] = first;
        let mut buf = buffer(&bytes);
        assert_eq!(version::Codec::default().decode(&mut buf), Err(Error::MalformedPacket));
        assert_eq!(&buf[..], &bytes);
        let mut buf = buffer(&[first, 0x00]);
        assert_eq!(version::Codec::default().decode(&mut buf), Err(Error::MalformedPacket));
    }
}

#[test]
fn probe_waits_for_nine_bytes_of_body() {
    for n in 0..11 {
        let mut buf = buffer(&MINIMAL_V5[..n]);
        assert_eq!(version::Codec::default().decode(&mut buf), Ok(None), "{} bytes", n);
    }
    let mut buf = buffer(&MINIMAL_V5[..11]);
    assert_eq!(
        version::Codec::default().decode(&mut buf),
        Ok(Some((Packet::Version(Version::V5), 0)))
    );
    // A length of two bytes moves the body by one.
    let mut bytes = vec![0x10, 0x8C, 0x00];
    bytes.extend_from_slice(&MINIMAL_V3[2..10]);
    let mut buf = buffer(&bytes);
    assert_eq!(version::Codec::default().decode(&mut buf), Ok(None));
    bytes.push(0x00);
    let mut buf = buffer(&bytes);
    assert_eq!(
        version::Codec::default().decode(&mut buf),
        Ok(Some((Packet::Version(Version::V3), 0)))
    );
}

#[test]
fn probe_refuses_other_protocol_names() {
    let cases: Vec<Vec<u8>> = vec![
        vec![0x10, 0x0C, 0x00, 0x04, b'M', b'Q', b'T', b'X', 0x04, 0x02, 0x00, 0x3C, 0x00, 0x00],
        vec![0x10, 0x0C, 0x00, 0x04, b'm', b'q', b't', b't', 0x04, 0x02, 0x00, 0x3C, 0x00, 0x00],
        vec![0x10, 0x0C, 0x00, 0x03, b'M', b'Q', b'T', b'T', 0x04, 0x02, 0x00, 0x3C, 0x00, 0x00],
        vec![0x10, 0x0C, 0x00, 0x06, b'M', b'Q', b'I', b's', b'd', b'P', 0x03, 0x02, 0x00, 0x3C],
        vec![0x10, 0x0C, 0xFF, 0xFF, b'M', b'Q', b'T', b'T', 0x04, 0x02, 0x00, 0x3C, 0x00, 0x00],
        vec![0x10, 0x0C, 0x00, 0x04, 0xFF, 0xFE, 0xFD, 0xFC, 0x04, 0x02, 0x00, 0x3C, 0x00, 0x00],
        vec![0x10, 0x0C, 0x00, 0x00, 0x04, 0x02, 0x00, 0x3C, 0x00, 0x00, 0x00, 0x00, 0x00, 0x00],
    ];
    for bytes in cases {
        let mut buf = buffer(&bytes);
        assert_eq!(version::Codec::default().decode(&mut buf), Err(Error::ProtocolError));
        assert_eq!(&buf[..], &bytes[..]);
    }
}

#[test]
fn probe_refuses_other_levels() {
    for level in [0u8, 1, 2, 6, 0x84, 0xFF] {
        let mut bytes = MINIMAL_V3;
        bytes[8] = level;
        let mut buf = buffer(&bytes);
        assert_eq!(
            version::Codec::default().decode(&mut buf),
            Err(Error::UnsupportedProtocolVersion)
        );
        assert_eq!(&buf[..], &bytes);
    }
    for level in [3u8, 4] {
        let mut bytes = MINIMAL_V3;
        bytes[8] = level;
        let mut buf = buffer(&bytes);
        assert_eq!(
            version::Codec::default().decode(&mut buf),
            Ok(Some((Packet::Version(Version::V3), 0)))
        );
    }
}

#[test]
fn the_framer_switches_once() {
    let mut codec = Codec::new(4096);
    assert!(matches!(codec, Codec::Version(_)));
    assert!(codec.switch(Version::V5));
    assert_eq!(codec, Codec::V5(v5::Codec::new(4096)));
    assert!(!codec.switch(Version::V3));
    assert_eq!(codec, Codec::V5(v5::Codec::new(4096)));

    let mut codec = Codec::new(77);
    assert!(codec.switch(Version::V3));
    assert_eq!(codec, Codec::V3(v3::Codec::new(77)));
}

#[test]
fn the_framer_forwards_to_the_codec_in_use() {
    let mut buf = buffer(&MINIMAL_V5);
    let mut codec = Codec::new(4096);
    assert_eq!(codec.decode(&mut buf), Ok(Some((Packet::Version(Version::V5), 0))));
    assert_eq!(buf.len(), 18);
    codec.switch(Version::V5);
    let (packet, size) = codec.decode(&mut buf).unwrap().unwrap();
    assert_eq!(size, 18);
    assert!(matches!(packet, Packet::Connect(_)));
    assert!(buf.is_empty());

    // The cap that the framer was made with holds after the switch.
    let mut codec = Codec::new(5);
    codec.switch(Version::V3);
    let mut buf = buffer(&MINIMAL_V3);
    assert_eq!(codec.decode(&mut buf), Err(Error::LenTooLong));
}

#[test]
fn version_of_level() {
    assert_eq!(Version::of_level(3), Some(Version::V3));
    assert_eq!(Version::of_level(4), Some(Version::V3));
    assert_eq!(Version::of_level(5), Some(Version::V5));
    assert_eq!(Version::of_level(0), None);
    assert_eq!(Version::of_level(6), None);
}

#[test]
fn the_cap_can_be_set_after_the_handshake() {
    let mut codec = Codec::new(4096);
    codec.switch(Version::V3);
    codec.set_max_packet_size(11);
    assert_eq!(codec, Codec::V3(v3::Codec::new(11)));
    let mut buf = buffer(&MINIMAL_V3);
    assert_eq!(codec.decode(&mut buf), Err(Error::LenTooLong));
    codec.set_max_packet_size(12);
    assert!(codec.decode(&mut buf).unwrap().is_some());

    let mut probing = Codec::new(1);
    probing.set_max_packet_size(9);
    assert_eq!(probing, Codec::Version(version::Codec::new(9)));
}

#[test]
fn a_codec_refuses_the_level_of_the_other_dialect_as_invalid() {
    let mut buf = buffer(&MINIMAL_V5);
    assert_eq!(v3::Codec::default().decode(&mut buf), Err(Error::ProtocolError));
    assert!(buf.is_empty());
    let mut buf = buffer(&MINIMAL_V3);
    assert_eq!(v5::Codec::default().decode(&mut buf), Err(Error::ProtocolError));
    let mut unknown = MINIMAL_V3;
    unknown[8] = 7;
    let mut buf = buffer(&unknown);
    assert_eq!(v3::Codec::default().decode(&mut buf), Err(Error::UnsupportedProtocolVersion));
}

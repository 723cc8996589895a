use bytes::Bytes;
use iotmq::protocol::connect::Flags;
use iotmq::protocol::v5::{ConnectProperties, WillProperties};
use iotmq::protocol::{v3, v5, Connect, Error, QoS, Version};

fn string(text: &str) -> Vec<u8> {
    let mut out = vec![(text.len() / 256) as u8, (text.len() % 256) as u8];
    out.extend_from_slice(text.as_bytes());
    out
}

fn blob(payload: &[u8]) -> Vec<u8> {
    let mut out = vec![(payload.len() / 256) as u8, (payload.len() % 256) as u8];
    out.extend_from_slice(payload);
    out
}

fn head(name: &str, level: u8, flags: u8, keepalive: u16) -> Vec<u8> {
    let mut out = string(name);
    out.push(level);
    out.push(flags);
    out.push((keepalive / 256) as u8);
    out.push((keepalive % 256) as u8);
    out
}

fn block(props: &[u8]) -> Vec<u8> {
    assert!(props.len() < 128);
    let mut out = vec![props.len() as u8];
    out.extend_from_slice(props);
    out
}

fn v5_body(flags: u8, props: &[u8], tail: &[u8]) -> Bytes {
    let mut body = head("MQTT", 5, flags, 60);
    body.extend(block(props));
    body.extend_from_slice(tail);
    Bytes::from(body)
}

#[test]
fn v3_minimal_connect() {
    let body = Bytes::from_static(&[
        0x00, 0x04, 0x4D, 0x51, 0x54, 0x54, 0x04, 0x02, 0x00, 0x3C, 0x00, 0x00,
    ]);
    let c = v3::connect::decode(body).unwrap();
    assert_eq!(c.protocol_name, "MQTT");
    assert_eq!(c.protocol_level, "3.1.1");
    assert!(c.clean_start);
    assert_eq!(c.keepalive, 60);
    assert_eq!(c.client_id, "");
    assert!(!c.username_flag);
    assert!(!c.password_flag);
    assert!(!c.will_flag);
    assert!(!c.will_retain);
    assert_eq!(c.will_qos, QoS::AtMostOnce);
    assert_eq!(c.properties, None);
    assert_eq!(c.will_properties, None);
    assert_eq!(c.will_topic, "");
    assert!(c.will_payload.is_empty());
    assert_eq!(c.username, None);
    assert_eq!(c.password, None);
}

#[test]
fn v3_connect_of_mqtt_3_1() {
    let mut body = head("MQIsdp", 3, 0x00, 10);
    body.extend(string("dev"));
    let c = v3::connect::decode(Bytes::from(body)).unwrap();
    assert_eq!(c.protocol_name, "MQIsdp");
    assert_eq!(c.protocol_level, "3.1");
    assert!(!c.clean_start);
    assert_eq!(c.keepalive, 10);
    assert_eq!(c.client_id, "dev");
}

#[test]
fn v3_connect_with_every_optional_field() {
    let mut body = head("MQTT", 4, 0xF6, 0x1234);
    body.extend(string("client"));
    body.extend(string("will/topic"));
    body.extend(blob(&[0xFF, 0x00, 0x80]));
    body.extend(string("user"));
    body.extend(blob(&[0x01, 0xFE]));
    let c = v3::connect::decode(Bytes::from(body)).unwrap();
    assert_eq!(c.keepalive, 0x1234);
    assert!(c.username_flag && c.password_flag && c.will_flag && c.will_retain && c.clean_start);
    assert_eq!(c.will_qos, QoS::ExactlyOnce);
    assert_eq!(c.client_id, "client");
    assert_eq!(c.will_topic, "will/topic");
    assert_eq!(c.will_payload, vec![0xFF, 0x00, 0x80]);
    assert_eq!(c.username, Some("user".to_string()));
    assert_eq!(c.password, Some(vec![0x01, 0xFE]));
    assert_eq!(c.properties, None);
    assert_eq!(c.will_properties, None);
}

#[test]
fn v3_connect_ignores_what_follows_the_last_field() {
    let mut body = head("MQTT", 4, 0x02, 60);
    body.extend(string("a"));
    body.extend_from_slice(&[0xDE, 0xAD]);
    let c = v3::connect::decode(Bytes::from(body)).unwrap();
    assert_eq!(c.client_id, "a");
    assert_eq!(c.username, None);
}

#[test]
fn v3_connect_has_no_property_block() {
    // Under MQTT 3 the byte after the keepalive starts the client identifier.
    let mut body = head("MQTT", 4, 0x02, 60);
    body.extend_from_slice(&[0x00, 0x01, b'x']);
    let c = v3::connect::decode(Bytes::from(body)).unwrap();
    assert_eq!(c.client_id, "x");
}

#[test]
fn v5_connect_with_empty_properties() {
    let body = Bytes::from_static(&[
        0x00, 0x04, 0x4D, 0x51, 0x54, 0x54, 0x05, 0x02, 0x00, 0x3C, 0x00, 0x00, 0x03, 0x61, 0x62,
        0x63,
    ]);
    let c = v5::connect::decode(body).unwrap();
    assert_eq!(c.protocol_level, "5.0");
    assert_eq!(c.properties, Some(ConnectProperties::new()));
    assert_eq!(c.client_id, "abc");
    assert!(c.clean_start);
    assert_eq!(c.keepalive, 60);
    assert_eq!(c.will_properties, None);
}

#[test]
fn v5_connect_with_session_expiry() {
    let mut tail = string("abc");
    tail.extend_from_slice(&[]);
    let body = v5_body(0x02, &[0x11, 0x00, 0x00, 0x00, 0x0A], &tail);
    let c = v5::connect::decode(body).unwrap();
    let props = c.properties.unwrap();
    assert_eq!(props.session_expiry_interval, Some(10));
    assert_eq!(props.receive_max, None);
    assert!(props.user_property.is_empty());
}

#[test]
fn v5_connect_with_every_optional_field() {
    let mut props = vec![0x11, 0x01, 0x02, 0x03, 0x04];
    props.extend_from_slice(&[0x21, 0x00, 0x14]);
    props.extend_from_slice(&[0x27, 0x00, 0x01, 0x00, 0x00]);
    props.extend_from_slice(&[0x22, 0x00, 0x0A]);
    props.extend_from_slice(&[0x19, 0x01]);
    props.extend_from_slice(&[0x17, 0x00]);
    props.push(0x26);
    props.extend(string("k1"));
    props.extend(string("v1"));
    props.push(0x15);
    props.extend(string("SCRAM"));
    props.push(0x16);
    props.extend(blob(&[0xAA, 0xBB]));
    props.push(0x26);
    props.extend(string("k2"));
    props.extend(string("v2"));

    let mut will = vec![0x03];
    will.extend(string("text/plain"));
    will.push(0x08);
    will.extend(string("reply/to"));
    will.push(0x09);
    will.extend(blob(&[0x01, 0x02, 0x03]));
    will.extend_from_slice(&[0x18, 0x00, 0x00, 0x00, 0x05]);
    will.extend_from_slice(&[0x02, 0x00, 0x00, 0x01, 0x00]);
    will.extend_from_slice(&[0x01, 0x01]);
    will.push(0x26);
    will.extend(string("wk"));
    will.extend(string("wv"));

    let mut tail = string("client-5");
    tail.extend(block(&will));
    tail.extend(string("last/will"));
    tail.extend(blob(&[0x00, 0xFF]));
    tail.extend(string("alice"));
    tail.extend(blob(b"secret"));

    let c = v5::connect::decode(v5_body(0xEE, &props, &tail)).unwrap();
    assert!(c.username_flag && c.password_flag && c.will_flag && c.will_retain && c.clean_start);
    assert_eq!(c.will_qos, QoS::AtLeastOnce);
    assert_eq!(c.client_id, "client-5");
    assert_eq!(c.will_topic, "last/will");
    assert_eq!(c.will_payload, vec![0x00, 0xFF]);
    assert_eq!(c.username, Some("alice".to_string()));
    assert_eq!(c.password, Some(b"secret".to_vec()));

    let p = c.properties.unwrap();
    assert_eq!(p.session_expiry_interval, Some(0x01020304));
    assert_eq!(p.receive_max, Some(20));
    assert_eq!(p.max_packet_size, Some(65536));
    assert_eq!(p.topic_alias_max, Some(10));
    assert_eq!(p.request_response_info, Some(1));
    assert_eq!(p.request_problem_info, Some(0));
    assert_eq!(
        p.user_property,
        vec![("k1".to_string(), "v1".to_string()), ("k2".to_string(), "v2".to_string())]
    );
    assert_eq!(p.auth_method, Some("SCRAM".to_string()));
    assert_eq!(p.auth_data, Some(vec![0xAA, 0xBB]));

    let w = c.will_properties.unwrap();
    assert_eq!(w.content_type, Some("text/plain".to_string()));
    assert_eq!(w.response_topic, Some("reply/to".to_string()));
    assert_eq!(w.correlation_data, Some(vec![0x01, 0x02, 0x03]));
    assert_eq!(w.will_delay_interval, Some(5));
    assert_eq!(w.message_expiry_interval, Some(256));
    assert_eq!(w.payload_format_indicator, Some(1));
    assert_eq!(w.user_property, vec![("wk".to_string(), "wv".to_string())]);
}

#[test]
fn v5_connect_with_no_optional_field() {
    let c = v5::connect::decode(v5_body(0x00, &[], &string(""))).unwrap();
    assert!(!c.username_flag && !c.password_flag && !c.will_flag && !c.will_retain);
    assert!(!c.clean_start);
    assert_eq!(c.client_id, "");
    assert_eq!(c.properties, Some(ConnectProperties::new()));
    assert_eq!(c.will_properties, None);
    assert_eq!(c.username, None);
    assert_eq!(c.password, None);
}

#[test]
fn v5_will_without_properties_has_an_empty_set() {
    let mut tail = string("c");
    tail.extend(block(&[]));
    tail.extend(string("t"));
    tail.extend(blob(&[]));
    let c = v5::connect::decode(v5_body(0x06, &[], &tail)).unwrap();
    assert_eq!(c.will_properties, Some(WillProperties::new()));
    assert_eq!(c.will_topic, "t");
    assert!(c.will_payload.is_empty());
}

#[test]
fn connect_refuses_the_reserved_flag() {
    let mut body = head("MQTT", 4, 0x03, 60);
    body.extend(string(""));
    assert_eq!(v3::connect::decode(Bytes::from(body)), Err(Error::ProtocolError));
    assert_eq!(v5::connect::decode(v5_body(0x01, &[], &string(""))), Err(Error::ProtocolError));
}

#[test]
fn connect_refuses_a_will_level_of_three() {
    let mut body = head("MQTT", 4, 0x1E, 60);
    body.extend(string(""));
    body.extend(string("t"));
    body.extend(blob(&[]));
    assert_eq!(v3::connect::decode(Bytes::from(body)), Err(Error::ProtocolError));
    assert_eq!(v5::connect::decode(v5_body(0x18, &[], &string(""))), Err(Error::ProtocolError));
}

#[test]
fn connect_refuses_a_level_of_another_dialect() {
    let mut body = head("MQTT", 5, 0x02, 60);
    body.extend(string(""));
    assert_eq!(v3::connect::decode(Bytes::from(body)), Err(Error::ProtocolError));
    for level in [3u8, 4] {
        let mut body = head("MQTT", level, 0x02, 60);
        body.extend(block(&[]));
        body.extend(string(""));
        assert_eq!(v5::connect::decode(Bytes::from(body)), Err(Error::ProtocolError));
    }
}

#[test]
fn connect_refuses_a_level_that_is_none_of_3_4_5() {
    for level in [0u8, 1, 2, 6, 0x84, 0xFF] {
        let mut body = head("MQTT", level, 0x02, 60);
        body.extend(string(""));
        assert_eq!(
            v3::connect::decode(Bytes::from(body.clone())),
            Err(Error::UnsupportedProtocolVersion)
        );
        assert_eq!(v5::connect::decode(Bytes::from(body)), Err(Error::UnsupportedProtocolVersion));
    }
}

#[test]
fn connect_judges_the_flags_before_the_level() {
    // Level 4 with a will level of 3: the flags decide under both dialects.
    let body = [0x00, 0x04, 0x4D, 0x51, 0x54, 0x54, 0x04, 0x1E, 0x00, 0x3C, 0x00, 0x00];
    assert_eq!(v3::connect::decode(Bytes::copy_from_slice(&body)), Err(Error::ProtocolError));
    assert_eq!(v5::connect::decode(Bytes::copy_from_slice(&body)), Err(Error::ProtocolError));
    // So they do where the level is none of 3, 4 and 5.
    for flags in [0x01u8, 0x18, 0x1E, 0xFF] {
        for level in [0u8, 3, 4, 5, 9] {
            let mut body = head("MQTT", level, flags, 60);
            body.extend(string(""));
            assert_eq!(
                v3::connect::decode(Bytes::from(body.clone())),
                Err(Error::ProtocolError)
            );
            assert_eq!(v5::connect::decode(Bytes::from(body)), Err(Error::ProtocolError));
        }
    }
    // A level without a flags byte after it is a body that ends early.
    let short = [0x00, 0x04, 0x4D, 0x51, 0x54, 0x54, 0x09];
    assert_eq!(v3::connect::decode(Bytes::copy_from_slice(&short)), Err(Error::MalformedPacket));
    assert_eq!(v5::connect::decode(Bytes::copy_from_slice(&short)), Err(Error::MalformedPacket));
}

#[test]
fn property_sets_start_empty() {
    assert_eq!(ConnectProperties::default(), ConnectProperties::new());
    assert_eq!(WillProperties::default(), WillProperties::new());
    assert_eq!(
        iotmq::protocol::v5::ConnAckProperties::default(),
        iotmq::protocol::v5::ConnAckProperties::new()
    );
    let props = ConnectProperties::default();
    assert_eq!(props.session_expiry_interval, None);
    assert_eq!(props.auth_data, None);
    assert!(props.user_property.is_empty());
}

#[test]
fn connect_refuses_a_body_that_ends_early() {
    let whole = {
        let mut body = head("MQTT", 4, 0xC2, 60);
        body.extend(string("id"));
        body.extend(string("user"));
        body.extend(blob(b"pw"));
        body
    };
    assert!(v3::connect::decode(Bytes::from(whole.clone())).is_ok());
    for n in 0..whole.len() {
        assert_eq!(
            v3::connect::decode(Bytes::copy_from_slice(&whole[..n])),
            Err(Error::MalformedPacket),
            "prefix of {} bytes",
            n
        );
    }
}

#[test]
fn connect_refuses_text_that_is_not_utf8() {
    let mut body = head("MQTT", 4, 0x02, 60);
    body.extend_from_slice(&[0x00, 0x02, 0xC0, 0x80]);
    assert_eq!(v3::connect::decode(Bytes::from(body)), Err(Error::ProtocolError));
}

#[test]
fn will_payload_and_password_need_not_be_text() {
    let mut body = head("MQTT", 4, 0x46, 60);
    body.extend(string("id"));
    body.extend(string("t"));
    body.extend(blob(&[0xC0, 0x80]));
    body.extend(blob(&[0xFF]));
    let c = v3::connect::decode(Bytes::from(body)).unwrap();
    assert_eq!(c.will_payload, vec![0xC0, 0x80]);
    assert_eq!(c.password, Some(vec![0xFF]));
}

#[test]
fn properties_refuse_a_second_value() {
    let twice = [0x11, 0, 0, 0, 1, 0x11, 0, 0, 0, 2];
    assert_eq!(
        v5::connect::decode(v5_body(0x02, &twice, &string(""))),
        Err(Error::MalformedPacket)
    );
    let mut src = Bytes::from(block(&[0x01, 0x00, 0x01, 0x01]));
    assert_eq!(WillProperties::decode(&mut src), Err(Error::MalformedPacket));
}

#[test]
fn properties_refuse_what_the_packet_does_not_have() {
    // Server keep alive belongs to CONNACK.
    let mut src = Bytes::from(block(&[0x13, 0x00, 0x0A]));
    assert_eq!(ConnectProperties::decode(&mut src), Err(Error::MalformedPacket));
    // Session expiry belongs to CONNECT, not to a will.
    let mut src = Bytes::from(block(&[0x11, 0, 0, 0, 1]));
    assert_eq!(WillProperties::decode(&mut src), Err(Error::MalformedPacket));
    // Subscription identifier: a known property that no packet here has.
    let mut src = Bytes::from(block(&[0x0B, 0x05]));
    assert_eq!(ConnectProperties::decode(&mut src), Err(Error::MalformedPacket));
}

#[test]
fn properties_refuse_an_unknown_identifier() {
    let mut src = Bytes::from(block(&[0x7F, 0x00]));
    assert_eq!(ConnectProperties::decode(&mut src), Err(Error::MalformedPacket));
}

#[test]
fn properties_refuse_a_string_that_overflows_the_block() {
    // The block holds 4 bytes; the string in it declares 5 and the bytes
    // after the block would be enough to fill it.
    let mut src = Bytes::from_static(&[0x04, 0x15, 0x00, 0x05, b'a', b'b', b'c', b'd', b'e']);
    assert_eq!(ConnectProperties::decode(&mut src), Err(Error::MalformedPacket));
    let mut src = Bytes::from_static(&[0x04, 0x26, 0x00, 0x05, b'a', b'b', b'c', b'd', b'e']);
    assert_eq!(ConnectProperties::decode(&mut src), Err(Error::MalformedPacket));
    let mut src = Bytes::from_static(&[0x04, 0x09, 0x00, 0x05, b'a', b'b', b'c', b'd', b'e']);
    assert_eq!(WillProperties::decode(&mut src), Err(Error::MalformedPacket));
}

#[test]
fn properties_refuse_a_block_longer_than_the_body() {
    let mut src = Bytes::from_static(&[0x05, 0x11, 0x00, 0x00]);
    assert_eq!(ConnectProperties::decode(&mut src), Err(Error::MalformedPacket));
    let mut src = Bytes::from_static(&[0x80]);
    assert_eq!(ConnectProperties::decode(&mut src), Err(Error::MalformedPacket));
    let mut src = Bytes::new();
    assert_eq!(ConnectProperties::decode(&mut src), Err(Error::MalformedPacket));
}

#[test]
fn properties_refuse_text_that_is_not_utf8() {
    let mut src = Bytes::from_static(&[0x04, 0x15, 0x00, 0x01, 0xFF]);
    assert_eq!(ConnectProperties::decode(&mut src), Err(Error::ProtocolError));
}

#[test]
fn properties_leave_what_follows_the_block() {
    let mut src = Bytes::from_static(&[0x03, 0x21, 0x00, 0x07, 0xAB, 0xCD]);
    let props = ConnectProperties::decode(&mut src).unwrap();
    assert_eq!(props.receive_max, Some(7));
    assert_eq!(&src[..], &[0xAB, 0xCD]);
}

#[test]
fn properties_read_integers_high_byte_first() {
    let mut src = Bytes::from_static(&[
        0x08, 0x27, 0x12, 0x34, 0x56, 0x78, 0x22, 0xAB, 0xCD,
    ]);
    let props = ConnectProperties::decode(&mut src).unwrap();
    assert_eq!(props.max_packet_size, Some(0x12345678));
    assert_eq!(props.topic_alias_max, Some(0xABCD));
}

#[test]
fn flags_byte_bit_by_bit() {
    let f = Flags::parse(0x80).unwrap();
    assert!(f.username && !f.password && !f.will_retain && !f.will && !f.clean_start);
    let f = Flags::parse(0x40).unwrap();
    assert!(!f.username && f.password);
    let f = Flags::parse(0x20).unwrap();
    assert!(f.will_retain);
    assert_eq!(Flags::parse(0x08).unwrap().will_qos, QoS::AtLeastOnce);
    assert_eq!(Flags::parse(0x10).unwrap().will_qos, QoS::ExactlyOnce);
    assert!(Flags::parse(0x04).unwrap().will);
    assert!(Flags::parse(0x02).unwrap().clean_start);
    assert_eq!(Flags::parse(0x01), Err(Error::ProtocolError));
    assert_eq!(Flags::parse(0x18), Err(Error::ProtocolError));
}

fn connect(version: Version, flags: u8, props: &[u8], client_id: &str) -> Connect {
    match version {
        Version::V3 => {
            let mut body = head("MQTT", 4, flags, 60);
            body.extend(string(client_id));
            v3::connect::decode(Bytes::from(body)).unwrap()
        }
        Version::V5 => v5::connect::decode(v5_body(flags, props, &string(client_id))).unwrap(),
    }
}

#[test]
fn validate_lets_an_empty_client_id_through_under_v3() {
    let c = connect(Version::V3, 0x00, &[], "");
    assert!(!c.clean_start);
    assert_eq!(c.validate(Version::V3), Ok(()));
}

#[test]
fn validate_wants_a_clean_start_for_an_empty_client_id_under_v5() {
    assert_eq!(connect(Version::V5, 0x00, &[], "").validate(Version::V5), Err(Error::ProtocolError));
    assert_eq!(connect(Version::V5, 0x02, &[], "").validate(Version::V5), Ok(()));
    assert_eq!(connect(Version::V5, 0x00, &[], "id").validate(Version::V5), Ok(()));
}

#[test]
fn validate_refuses_will_flags_without_a_will() {
    assert_eq!(connect(Version::V3, 0x0A, &[], "id").validate(Version::V3), Err(Error::ProtocolError));
    assert_eq!(connect(Version::V3, 0x22, &[], "id").validate(Version::V3), Err(Error::ProtocolError));
    assert_eq!(connect(Version::V5, 0x12, &[], "id").validate(Version::V5), Err(Error::ProtocolError));
    assert_eq!(connect(Version::V3, 0x02, &[], "id").validate(Version::V3), Ok(()));
}

#[test]
fn validate_checks_the_ranges_of_properties() {
    let ok = connect(Version::V5, 0x02, &[0x21, 0x00, 0x01, 0x19, 0x01, 0x17, 0x00], "id");
    assert_eq!(ok.validate(Version::V5), Ok(()));
    let zero_receive = connect(Version::V5, 0x02, &[0x21, 0x00, 0x00], "id");
    assert_eq!(zero_receive.validate(Version::V5), Err(Error::ProtocolError));
    let zero_size = connect(Version::V5, 0x02, &[0x27, 0, 0, 0, 0], "id");
    assert_eq!(zero_size.validate(Version::V5), Err(Error::ProtocolError));
    let bad_flag = connect(Version::V5, 0x02, &[0x19, 0x02], "id");
    assert_eq!(bad_flag.validate(Version::V5), Err(Error::ProtocolError));
    let bad_problem = connect(Version::V5, 0x02, &[0x17, 0xFF], "id");
    assert_eq!(bad_problem.validate(Version::V5), Err(Error::ProtocolError));
}

#[test]
fn validate_checks_the_will_payload_format() {
    let mut tail = string("id");
    tail.extend(block(&[0x01, 0x02]));
    tail.extend(string("t"));
    tail.extend(blob(&[]));
    let c = v5::connect::decode(v5_body(0x06, &[], &tail)).unwrap();
    assert_eq!(c.validate(Version::V5), Err(Error::ProtocolError));
}

#[test]
fn default_connect_is_empty() {
    let c = Connect::default();
    assert_eq!(c.protocol_name, "");
    assert_eq!(c.keepalive, 0);
    assert_eq!(c.will_qos, QoS::AtMostOnce);
    assert_eq!(c.properties, None);
    assert_eq!(c.password, None);
}

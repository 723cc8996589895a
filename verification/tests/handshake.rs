use bytes::{Bytes, BytesMut};
use iotmq::protocol::{v3, v5, Codec, ConnAck, Connect, Error, Packet, Version};
use iotmq::stream::{
    step, Action, Closing, Event, Session, State, REASON_MALFORMED, REASON_UNSUPPORTED_VERSION,
};

fn valid_connect() -> Connect {
    v3::connect::decode(Bytes::from_static(&[
        0x00, 0x04, 0x4D, 0x51, 0x54, 0x54, 0x04, 0x02, 0x00, 0x3C, 0x00, 0x02, b'i', b'd',
    ]))
    .unwrap()
}

fn invalid_connect() -> Connect {
    // A will level without a will.
    v3::connect::decode(Bytes::from_static(&[
        0x00, 0x04, 0x4D, 0x51, 0x54, 0x54, 0x04, 0x0A, 0x00, 0x3C, 0x00, 0x02, b'i', b'd',
    ]))
    .unwrap()
}

fn refusal(reason_code: u8) -> Action {
    Action::Send(ConnAck { session_present: false, reason_code, properties: None })
}

fn all_events() -> Vec<Event> {
    vec![
        Event::Packet(Packet::Version(Version::V3)),
        Event::Packet(Packet::Version(Version::V5)),
        Event::Packet(Packet::Connect(valid_connect())),
        Event::Packet(Packet::Connect(invalid_connect())),
        Event::Packet(Packet::ConnAck(ConnAck::default())),
        Event::Failed(Error::Io),
        Event::Failed(Error::MalformedPacket),
        Event::Failed(Error::ProtocolError),
        Event::Failed(Error::UnsupportedProtocolVersion),
        Event::Failed(Error::LenTooLong),
        Event::Failed(Error::Disconnect),
        Event::Eof,
        Event::Verdict(0),
        Event::Verdict(0x87),
        Event::Sent,
        Event::Shutdown,
    ]
}

fn all_states() -> Vec<State> {
    vec![
        State::Probe,
        State::Connecting(Version::V3),
        State::Connecting(Version::V5),
        State::Authorizing(Version::V3, valid_connect()),
        State::Acknowledging(Version::V5, valid_connect(), 0),
        State::Acknowledging(Version::V3, valid_connect(), 4),
        State::Refusing(Error::MalformedPacket),
        State::Established,
        State::Closed,
    ]
}

fn rank(state: &State) -> u32 {
    match state {
        State::Probe => 4,
        State::Connecting(_) => 3,
        State::Authorizing(_, _) => 2,
        State::Acknowledging(_, _, _) | State::Refusing(_) => 1,
        State::Established | State::Closed => 0,
    }
}

#[test]
fn a_handshake_that_succeeds() {
    let (state, action) = step(State::Probe, Event::Packet(Packet::Version(Version::V3)));
    assert_eq!(state, State::Connecting(Version::V3));
    assert_eq!(action, Action::Switch(Version::V3));

    let (state, action) = step(state, Event::Packet(Packet::Connect(valid_connect())));
    assert_eq!(state, State::Authorizing(Version::V3, valid_connect()));
    assert_eq!(action, Action::Authorize);

    let (state, action) = step(state, Event::Verdict(0));
    assert_eq!(state, State::Acknowledging(Version::V3, valid_connect(), 0));
    assert_eq!(action, refusal(0));

    let (state, action) = step(state, Event::Sent);
    assert_eq!(state, State::Established);
    assert_eq!(
        action,
        Action::HandOff(Session { version: Version::V3, connect: valid_connect() })
    );
}

#[test]
fn a_connection_that_is_not_authorized() {
    let state = State::Authorizing(Version::V5, valid_connect());
    let (state, action) = step(state, Event::Verdict(0x87));
    assert_eq!(state, State::Acknowledging(Version::V5, valid_connect(), 0x87));
    assert_eq!(action, refusal(0x87));
    let (state, action) = step(state, Event::Sent);
    assert_eq!(state, State::Closed);
    assert_eq!(action, Action::Close(Closing::Refused(0x87)));
}

#[test]
fn nothing_is_sent_before_the_dialect_is_known() {
    for event in all_events() {
        let (state, action) = step(State::Probe, event.clone());
        match event {
            Event::Packet(Packet::Version(v)) => {
                assert_eq!(state, State::Connecting(v));
                assert_eq!(action, Action::Switch(v));
            }
            _ => {
                assert_eq!(state, State::Closed);
                assert!(matches!(action, Action::Close(_)), "{:?}", event);
            }
        }
    }
    assert_eq!(
        step(State::Probe, Event::Failed(Error::MalformedPacket)).1,
        Action::Close(Closing::Failed(Error::MalformedPacket))
    );
    assert_eq!(
        step(State::Probe, Event::Packet(Packet::Connect(valid_connect()))).1,
        Action::Close(Closing::Failed(Error::MalformedPacket))
    );
    assert_eq!(step(State::Probe, Event::Eof).1, Action::Close(Closing::Failed(Error::Disconnect)));
    assert_eq!(step(State::Probe, Event::Shutdown).1, Action::Close(Closing::Shutdown));
    assert_eq!(
        step(State::Probe, Event::Sent).1,
        Action::Close(Closing::Failed(Error::ProtocolError))
    );
}

#[test]
fn a_bad_connect_is_refused_with_a_connack() {
    for version in [Version::V3, Version::V5] {
        for error in [Error::MalformedPacket, Error::ProtocolError] {
            let (state, action) = step(State::Connecting(version), Event::Failed(error));
            assert_eq!(state, State::Refusing(error));
            assert_eq!(action, refusal(REASON_MALFORMED));
            assert_eq!(REASON_MALFORMED, 0x81);
            let (state, action) = step(state, Event::Sent);
            assert_eq!(state, State::Closed);
            assert_eq!(action, Action::Close(Closing::Failed(error)));
        }
        let (state, action) =
            step(State::Connecting(version), Event::Packet(Packet::ConnAck(ConnAck::default())));
        assert_eq!(state, State::Refusing(Error::MalformedPacket));
        assert_eq!(action, refusal(0x81));
        let (state, action) =
            step(State::Connecting(version), Event::Packet(Packet::Connect(invalid_connect())));
        assert_eq!(state, State::Refusing(Error::ProtocolError));
        assert_eq!(action, refusal(0x81));
    }
}

#[test]
fn an_unsupported_version_is_answered_under_v5_only() {
    let event = Event::Failed(Error::UnsupportedProtocolVersion);
    let (state, action) = step(State::Connecting(Version::V5), event.clone());
    assert_eq!(state, State::Refusing(Error::UnsupportedProtocolVersion));
    assert_eq!(action, refusal(REASON_UNSUPPORTED_VERSION));
    assert_eq!(REASON_UNSUPPORTED_VERSION, 0x84);
    let (state, action) = step(State::Connecting(Version::V3), event);
    assert_eq!(state, State::Closed);
    assert_eq!(action, Action::Close(Closing::Failed(Error::UnsupportedProtocolVersion)));
}

#[test]
fn other_failures_close_at_once() {
    for error in [Error::Io, Error::LenTooLong, Error::Disconnect] {
        for state in all_states() {
            if matches!(state, State::Established | State::Closed) {
                continue;
            }
            let (next, action) = step(state, Event::Failed(error));
            assert_eq!(next, State::Closed);
            assert_eq!(action, Action::Close(Closing::Failed(error)));
        }
    }
}

#[test]
fn the_end_of_the_stream_and_a_shutdown_close_every_open_handshake() {
    for state in all_states() {
        if matches!(state, State::Established | State::Closed) {
            continue;
        }
        let (next, action) = step(state.clone(), Event::Eof);
        assert_eq!(next, State::Closed);
        assert_eq!(action, Action::Close(Closing::Failed(Error::Disconnect)));
        let (next, action) = step(state, Event::Shutdown);
        assert_eq!(next, State::Closed);
        assert_eq!(action, Action::Close(Closing::Shutdown));
    }
}

#[test]
fn a_handshake_that_is_over_stays_as_it_is() {
    for event in all_events() {
        assert_eq!(step(State::Established, event.clone()), (State::Established, Action::Done));
        assert_eq!(step(State::Closed, event), (State::Closed, Action::Done));
    }
}

#[test]
fn every_step_takes_a_handshake_nearer_to_its_end() {
    for state in all_states() {
        for event in all_events() {
            let (next, action) = step(state.clone(), event);
            if rank(&state) == 0 {
                assert_eq!(next, state);
            } else {
                assert!(rank(&next) < rank(&state));
            }
            assert!(!matches!(next, State::Probe));
            if matches!(action, Action::Switch(_)) {
                assert_eq!(state, State::Probe);
            }
            if matches!(action, Action::HandOff(_)) {
                assert!(matches!(state, State::Acknowledging(_, _, 0)));
                assert_eq!(next, State::Established);
            }
        }
    }
}

#[test]
fn an_event_that_is_not_awaited_is_a_protocol_error() {
    let close = Action::Close(Closing::Failed(Error::ProtocolError));
    assert_eq!(step(State::Connecting(Version::V3), Event::Sent).1, close);
    assert_eq!(step(State::Connecting(Version::V3), Event::Verdict(0)).1, close);
    let waiting = State::Authorizing(Version::V3, valid_connect());
    assert_eq!(step(waiting.clone(), Event::Sent).1, close);
    assert_eq!(step(waiting, Event::Packet(Packet::Connect(valid_connect()))).1, close);
    let sending = State::Acknowledging(Version::V3, valid_connect(), 0);
    assert_eq!(step(sending.clone(), Event::Verdict(0)).1, close);
    assert_eq!(step(sending, Event::Packet(Packet::Version(Version::V3))).1, close);
    assert_eq!(step(State::Refusing(Error::MalformedPacket), Event::Verdict(0)).1, close);
}

#[test]
fn the_cap_after_the_handshake() {
    let plain = Session { version: Version::V3, connect: valid_connect() };
    assert_eq!(plain.max_packet_size(None), 262_144);
    assert_eq!(plain.max_packet_size(Some(1000)), 1000);

    let mut body = vec![0x00, 0x04, 0x4D, 0x51, 0x54, 0x54, 0x05, 0x02, 0x00, 0x3C];
    body.extend_from_slice(&[0x05, 0x27, 0x00, 0x00, 0x20, 0x00]);
    body.extend_from_slice(&[0x00, 0x00]);
    let connect = v5::connect::decode(Bytes::from(body)).unwrap();
    let session = Session { version: Version::V5, connect };
    assert_eq!(session.max_packet_size(None), 8192);
    assert_eq!(session.max_packet_size(Some(64)), 64);
}

#[test]
fn a_whole_handshake_over_a_buffer() {
    let wire = [
        0x10, 0x10, 0x00, 0x04, 0x4D, 0x51, 0x54, 0x54, 0x05, 0x02, 0x00, 0x3C, 0x00, 0x00, 0x03,
        0x61, 0x62, 0x63,
    ];
    let mut codec = Codec::new(4096);
    let mut inbound = BytesMut::new();
    let mut outbound = BytesMut::new();
    let mut state = State::Probe;
    let mut fed = 0;
    let mut session = None;
    let mut steps = 0;
    while session.is_none() {
        steps += 1;
        assert!(steps < 100);
        let event = match &state {
            State::Authorizing(_, _) => Event::Verdict(0),
            State::Acknowledging(_, _, _) => Event::Sent,
            _ => match codec.decode(&mut inbound) {
                Ok(Some((packet, _))) => Event::Packet(packet),
                Ok(None) => {
                    inbound.extend_from_slice(&wire[fed..fed + 1]);
                    fed += 1;
                    continue;
                }
                Err(e) => Event::Failed(e),
            },
        };
        let (next, action) = step(state, event);
        state = next;
        match action {
            Action::Switch(v) => assert!(codec.switch(v)),
            Action::Authorize => {}
            Action::Send(connack) => {
                assert_eq!(codec.encode(Packet::ConnAck(connack), &mut outbound), Ok(()));
            }
            Action::HandOff(s) => session = Some(s),
            other => panic!("unexpected {:?}", other),
        }
    }
    let session = session.unwrap();
    assert_eq!(state, State::Established);
    assert_eq!(session.version, Version::V5);
    assert_eq!(session.connect.client_id, "abc");
    assert_eq!(session.connect.keepalive, 60);
    assert_eq!(fed, 18);
    assert!(inbound.is_empty());
    assert_eq!(&outbound[..], &[0x20, 0x03, 0x00, 0x00, 0x00]);
}

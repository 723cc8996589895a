//! What holds of the codecs for every input.

use super::connack::{block_bytes, connack_body, connack_encodable, connack_frame, parse_connack};
use super::field::lemma_take_len;
use super::frame::{spec_decode, spec_frame, spec_packet_type, spec_remainder, Frame};
use super::v5::connack::ConnAckPropertiesView;
use super::v5::connect::{ConnectPropertiesView, WillPropertiesView};
use super::v5::property::{lemma_field_overflows_block, spec_kind, Kind};
use super::connect::{parse_connect, spec_flags};
use super::field::take_string;
use super::version::{lemma_protocol_names, name_mqisdp, name_mqtt, spec_probe};
use super::{field_payload, field_rest};
use super::{
    field_short, lemma_len_len_ranges, lemma_len_round_trip, spec_decode_len, spec_encode_len,
    ConnAckView, Error, PacketType, PacketView, Property, Version, MAX_LEN,
};
use vstd::prelude::*;

verus! {

/// The probe refuses every buffer of two bytes or more that does not start
/// with the type byte of CONNECT.
pub proof fn lemma_probe_rejects(s: Seq<u8>)
    requires
        s.len() >= 2,
        s[0] != 0x10,
    ensures
        spec_probe(s) == Err::<Option<Version>, Error>(Error::MalformedPacket),
{
}

/// The probe and the codec it leads to read the same CONNECT alike. Where
/// the probe finds a dialect and that dialect's codec finds a whole frame,
/// the frame is a CONNECT whose protocol name is `MQTT` or `MQIsdp` and
/// whose level, if the body reaches that far, selects the dialect; a body
/// that ends inside the name is malformed.
pub proof fn lemma_probe_agrees(s: Seq<u8>, version: Version, cap: int)
    requires
        spec_probe(s) == Ok::<Option<Version>, Error>(Some(version)),
        spec_frame(s, version, cap) is Ready,
    ensures
        spec_frame(s, version, cap) matches Frame::Ready(t, _, body) && t == PacketType::Connect
            && match take_string(body) {
            Ok((name, rest)) => (name == "MQTT"@ || name == "MQIsdp"@) && (rest.len() >= 1
                ==> Version::spec_of_level(rest[0]) == Some(version)),
            Err(e) => e == Error::MalformedPacket,
        },
{
    lemma_protocol_names();
    assert(0x10u8 >> 4 == 1 && 0x10u8 & 0x0F == 0) by (bit_vector);
    let k = spec_decode_len(s.skip(1))->Ok_0->Some_0.1 as int;
    let len = spec_decode_len(s.skip(1))->Ok_0->Some_0.0 as int;
    let region = s.skip(1 + k);
    let body = s.subrange(1 + k, 1 + k + len);
    assert(body =~= region.take(len));
    if !super::field_short(body) {
        assert(body[0] == region[0] && body[1] == region[1]);
        assert(field_payload(body) =~= field_payload(region));
        if field_rest(body).len() >= 1 {
            assert(field_rest(body)[0] == region[2 + field_payload(region).len() as int]);
        }
    }
}

/// A CONNECT whose flags byte is refused, for a set bit 0 or a will level
/// of 3, is a `ProtocolError` under either dialect and whatever its level
/// byte says: where the protocol name reads as a string and the level and
/// flags bytes are there, no such body decodes.
pub proof fn lemma_refused_flags(s: Seq<u8>, version: Version)
    requires
        take_string(s) matches Ok((_, rest)) && rest.len() >= 2 && spec_flags(rest[1]) is Err,
    ensures
        parse_connect(s, version) == Err::<super::ConnectView, Error>(Error::ProtocolError),
{
    let rest = take_string(s)->Ok_0.1;
    assert(rest.skip(1)[0] == rest[1]);
}

/// A CONNECT whose level belongs to the other dialect is a `ProtocolError`,
/// and one whose level is none of 3, 4 and 5 is an
/// `UnsupportedProtocolVersion`, where name, level and flags read well.
pub proof fn lemma_refused_level(s: Seq<u8>, version: Version)
    requires
        take_string(s) matches Ok((_, rest)) && rest.len() >= 2 && spec_flags(rest[1]) is Ok
            && Version::spec_of_level(rest[0]) != Some(version),
    ensures
        parse_connect(s, version) == Err::<super::ConnectView, Error>(
            if Version::spec_of_level(take_string(s)->Ok_0.1[0]) is None {
                Error::UnsupportedProtocolVersion
            } else {
                Error::ProtocolError
            },
        ),
{
    let rest = take_string(s)->Ok_0.1;
    assert(rest.skip(1)[0] == rest[1]);
}

/// The bytes of a length decode alike with and without what follows them,
/// and too few of them decode to nothing yet.
pub proof fn lemma_decode_len_prefix(s: Seq<u8>, n: int)
    requires
        0 <= n <= s.len(),
        spec_decode_len(s) matches Ok(Some(_)),
    ensures
        spec_decode_len(s) matches Ok(Some((v, k))) && (if n < k {
            spec_decode_len(s.take(n)) == Ok::<Option<(nat, nat)>, Error>(None)
        } else {
            spec_decode_len(s.take(n)) == spec_decode_len(s)
        }),
{
    let p = s.take(n);
    assert(forall|i: int| 0 <= i < n ==> p[i] == s[i]);
}

/// While a frame that a dialect codec accepts is not all there, the codec
/// asks for more and leaves the buffer as it is.
pub proof fn lemma_prefix_pending(frame: Seq<u8>, n: int, version: Version, cap: int)
    requires
        spec_frame(frame, version, cap) matches Frame::Ready(_, size, _) && size == frame.len(),
        0 <= n < frame.len(),
    ensures
        spec_frame(frame.take(n), version, cap) is Pending,
        spec_decode(frame.take(n), version, cap) == Ok::<Option<(PacketView, int)>, Error>(None),
        spec_remainder(frame.take(n), version, cap) == frame.take(n),
{
    let p = frame.take(n);
    if n >= 2 {
        assert(p[0] == frame[0]);
        assert(p.skip(1) =~= frame.skip(1).take(n - 1));
        lemma_decode_len_prefix(frame.skip(1), n - 1);
    }
}

/// Whether a CONNACK is one that `version` can carry: under MQTT 3 it has
/// no properties, under MQTT 5 it has them, if only empty ones, and they
/// can be written.
pub open spec fn connack_in_range(c: ConnAckView, version: Version) -> bool {
    &&& connack_encodable(c, version)
    &&& match version {
        Version::V3 => c.properties is None,
        Version::V5 => c.properties is Some,
    }
}

/// Decoding the body of a CONNACK that the dialect can carry gives the
/// CONNACK back.
pub proof fn lemma_connack_body_round_trip(c: ConnAckView, version: Version)
    requires
        connack_in_range(c, version),
    ensures
        parse_connack(connack_body(c, version), version) == Ok::<ConnAckView, Error>(c),
{
    let body = connack_body(c, version);
    let flags = if c.session_present {
        1u8
    } else {
        0u8
    };
    assert(1u8 & 0x01 != 0 && 0u8 & 0x01 == 0) by (bit_vector);
    assert(body[0] == flags && body[1] == c.reason_code);
    match version {
        Version::V3 => {},
        Version::V5 => {
            let props = c.properties->Some_0;
            let block = block_bytes(c);
            assert(body.skip(1).skip(1) =~= spec_encode_len(block.len()) + block);
            lemma_len_len_ranges(block.len());
            lemma_take_len(block.len() as u32, block);
            assert(block.take(block.len() as int) =~= block);
            assert(block.skip(block.len() as int) =~= Seq::<u8>::empty());
            props.lemma_parse_bytes();
        },
    }
}

/// A type byte that the dialect accepts, the size of a body and the body
/// make a frame that is ready, whatever follows it: the body can be any up
/// to 268 435 455 bytes that the cap lets through.
pub proof fn lemma_frame_ready(
    first: u8,
    body: Seq<u8>,
    rest: Seq<u8>,
    version: Version,
    cap: int,
)
    requires
        spec_packet_type(first, version) is Some,
        body.len() <= MAX_LEN,
        body.len() <= cap,
    ensures
        spec_frame(seq![first] + spec_encode_len(body.len()) + body + rest, version, cap)
            == Frame::Ready(
            spec_packet_type(first, version)->Some_0,
            (seq![first] + spec_encode_len(body.len()) + body).len() as int,
            body,
        ),
        spec_remainder(seq![first] + spec_encode_len(body.len()) + body + rest, version, cap)
            == rest,
{
    let s = seq![first] + spec_encode_len(body.len()) + body + rest;
    let k = spec_encode_len(body.len()).len() as int;
    let len = body.len() as int;
    lemma_len_round_trip(body.len(), body + rest);
    assert(s[0] == first);
    assert(s.skip(1) =~= spec_encode_len(body.len()) + (body + rest));
    assert(s.subrange(1 + k, 1 + k + len) =~= body);
    assert(s.skip(1 + k + len) =~= rest);
}

/// Decoding what encoding a CONNACK wrote gives the CONNACK back, with the
/// size of the frame, and leaves what followed the frame: for every CONNACK
/// that the dialect can carry and whose body the codec's cap lets through.
pub proof fn lemma_connack_round_trip(c: ConnAckView, version: Version, cap: int, rest: Seq<u8>)
    requires
        connack_in_range(c, version),
        connack_body(c, version).len() <= cap,
    ensures
        spec_decode(connack_frame(c, version) + rest, version, cap) == Ok::<
            Option<(PacketView, int)>,
            Error,
        >(Some((PacketView::ConnAck(c), connack_frame(c, version).len() as int))),
        spec_remainder(connack_frame(c, version) + rest, version, cap) == rest,
{
    let body = connack_body(c, version);
    assert(body.len() <= MAX_LEN) by {
        reveal_with_fuel(spec_encode_len, 2);
        lemma_len_round_trip(block_bytes(c).len(), Seq::empty());
    }
    assert(spec_packet_type(0x20u8, version) == Some(PacketType::ConnAck)) by {
        assert(0x20u8 >> 4 == 2 && 0x20u8 & 0x0F == 0) by (bit_vector);
    }
    lemma_frame_ready(0x20u8, body, rest, version, cap);
    lemma_connack_body_round_trip(c, version);
}

/// A text, a blob or a pair of texts whose declared length reaches past the
/// end of the property block it stands in makes the packet malformed: for
/// each kind of property block, wherever in the block it stands.
pub proof fn lemma_overflowing_field_is_malformed(
    region: Seq<u8>,
    connect: ConnectPropertiesView,
    will: WillPropertiesView,
    connack: ConnAckPropertiesView,
)
    requires
        region.len() >= 1,
        Property::spec_from(region[0]) matches Some(p) && (spec_kind(p) == Kind::Text || spec_kind(
            p,
        ) == Kind::Binary || spec_kind(p) == Kind::Pair),
        field_short(region.skip(1)),
    ensures
        connect.parse(region) == Err::<ConnectPropertiesView, Error>(Error::MalformedPacket),
        will.parse(region) == Err::<WillPropertiesView, Error>(Error::MalformedPacket),
        connack.parse(region) == Err::<ConnAckPropertiesView, Error>(Error::MalformedPacket),
{
    reveal(ConnectPropertiesView::parse);
    reveal(WillPropertiesView::parse);
    reveal(ConnAckPropertiesView::parse);
    lemma_field_overflows_block(region);
}

} // verus!

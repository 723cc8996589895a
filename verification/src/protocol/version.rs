//! Dialects, and the probe that picks one from the first bytes of a
//! connection.

use super::frame::DEFAULT_MAX_PACKET_SIZE;
use super::{decode_len, field_payload, field_short, spec_decode_len, Error, Packet};
use crate::buf;
use bytes::BytesMut;
use vstd::prelude::*;
use vstd::slice::slice_subrange;

verus! {

/// The dialect a connection speaks. `V3` stands for MQTT 3.1 and 3.1.1,
/// which differ on the wire only in the protocol name and level of CONNECT.
#[derive(Debug, Clone, Copy, PartialEq, Eq, Structural)]
pub enum Version {
    V3,
    V5,
}

impl Version {
    /// The dialect that a protocol level byte selects: 3 and 4 select `V3`,
    /// 5 selects `V5`, and no other level is supported.
    pub open spec fn spec_of_level(level: u8) -> Option<Version> {
        if level == 3 || level == 4 {
            Some(Version::V3)
        } else if level == 5 {
            Some(Version::V5)
        } else {
            None
        }
    }

    /// The dialect that the protocol level byte of a CONNECT selects.
    pub fn of_level(level: u8) -> (v: Option<Version>)
        ensures
            v == Version::spec_of_level(level),
    {
        match level {
            3 | 4 => Some(Version::V3),
            5 => Some(Version::V5),
            _ => None,
        }
    }

    /// What this dialect makes of a protocol level byte. The level of the
    /// dialect is taken. A level that is none of 3, 4 and 5 is an
    /// `UnsupportedProtocolVersion`. One of the three that belongs to the
    /// other dialect is a field that means nothing here: a `ProtocolError`.
    pub open spec fn spec_judge_level(self, level: u8) -> Result<(), Error> {
        match Version::spec_of_level(level) {
            None => Err(Error::UnsupportedProtocolVersion),
            Some(v) => if v == self {
                Ok(())
            } else {
                Err(Error::ProtocolError)
            },
        }
    }

    /// Judges the protocol level byte of a CONNECT for this dialect.
    pub fn judge_level(&self, level: u8) -> (res: Result<(), Error>)
        ensures
            res == self.spec_judge_level(level),
    {
        match Version::of_level(level) {
            None => Err(Error::UnsupportedProtocolVersion),
            Some(Version::V3) => match self {
                Version::V3 => Ok(()),
                Version::V5 => Err(Error::ProtocolError),
            },
            Some(Version::V5) => match self {
                Version::V5 => Ok(()),
                Version::V3 => Err(Error::ProtocolError),
            },
        }
    }
}

/// The bytes of the protocol name `MQTT`.
pub open spec fn name_mqtt() -> Seq<u8> {
    seq![0x4Du8, 0x51u8, 0x54u8, 0x54u8]
}

/// The bytes of the protocol name `MQIsdp`.
pub open spec fn name_mqisdp() -> Seq<u8> {
    seq![0x4Du8, 0x51u8, 0x49u8, 0x73u8, 0x64u8, 0x70u8]
}

/// The two protocol names are the UTF-8 encodings of the texts `MQTT` and
/// `MQIsdp`, and decode to them.
pub proof fn lemma_protocol_names()
    ensures
        vstd::utf8::encode_utf8("MQTT"@) == name_mqtt(),
        vstd::utf8::encode_utf8("MQIsdp"@) == name_mqisdp(),
        vstd::utf8::valid_utf8(name_mqtt()) && vstd::utf8::decode_utf8(name_mqtt()) == "MQTT"@,
        vstd::utf8::valid_utf8(name_mqisdp()) && vstd::utf8::decode_utf8(name_mqisdp())
            == "MQIsdp"@,
{
    reveal_strlit("MQTT");
    reveal_strlit("MQIsdp");
    vstd::utf8::is_ascii_chars_encode_utf8("MQTT"@);
    vstd::utf8::is_ascii_chars_encode_utf8("MQIsdp"@);
    assert(vstd::utf8::encode_utf8("MQTT"@) =~= name_mqtt());
    assert(vstd::utf8::encode_utf8("MQIsdp"@) =~= name_mqisdp());
    vstd::utf8::encode_utf8_valid_utf8("MQTT"@);
    vstd::utf8::encode_utf8_valid_utf8("MQIsdp"@);
    vstd::utf8::encode_utf8_decode_utf8("MQTT"@);
    vstd::utf8::encode_utf8_decode_utf8("MQIsdp"@);
}

/// The dialect that the start of a CONNECT body asks for. The body must
/// open with the protocol name `MQTT` or `MQIsdp` as a length-prefixed
/// string, else it is a `ProtocolError`; the byte after the name is the
/// level, and a level that selects no dialect is an
/// `UnsupportedProtocolVersion`.
pub open spec fn spec_dialect(body: Seq<u8>) -> Result<Version, Error> {
    if field_short(body) || (field_payload(body) != name_mqtt() && field_payload(body)
        != name_mqisdp()) {
        Err(Error::ProtocolError)
    } else {
        match Version::spec_of_level(body[2 + field_payload(body).len() as int]) {
            Some(v) => Ok(v),
            None => Err(Error::UnsupportedProtocolVersion),
        }
    }
}

/// What the probe makes of the bytes buffered so far.
///
/// With fewer than two bytes nothing is decided. A first byte other than
/// `0x10`, a CONNECT with clear flags, is a `MalformedPacket`. Then the
/// size of the body must be all there, and nine bytes of the body, which
/// are enough to hold either protocol name and the level.
pub open spec fn spec_probe(s: Seq<u8>) -> Result<Option<Version>, Error> {
    if s.len() < 2 {
        Ok(None)
    } else if s[0] != 0x10 {
        Err(Error::MalformedPacket)
    } else {
        match spec_decode_len(s.skip(1)) {
            Err(e) => Err(e),
            Ok(None) => Ok(None),
            Ok(Some((_, k))) => if s.len() - (1 + k) < 9 {
                Ok(None)
            } else {
                match spec_dialect(s.skip((1 + k) as int)) {
                    Ok(v) => Ok(Some(v)),
                    Err(e) => Err(e),
                }
            },
        }
    }
}

/// Picks the dialect of a connection from its first CONNECT.
#[derive(Debug, Clone, Copy, PartialEq, Eq, Structural)]
pub struct Codec {
    /// The largest body that the dialect codec to come will accept.
    pub max_packet_size: usize,
}

impl Default for Codec {
    fn default() -> (codec: Codec)
        ensures
            codec.max_packet_size == DEFAULT_MAX_PACKET_SIZE,
    {
        Codec { max_packet_size: DEFAULT_MAX_PACKET_SIZE }
    }
}

impl Codec {
    /// A probe for a connection whose packets may have bodies of up to
    /// `max_packet_size` bytes.
    pub fn new(max_packet_size: usize) -> (codec: Codec)
        ensures
            codec.max_packet_size == max_packet_size,
    {
        Codec { max_packet_size }
    }

    /// Looks at the first CONNECT in `src` without taking anything out of
    /// it.
    ///
    /// Returns `None` until enough of the packet is there, then
    /// `Packet::Version` with the dialect that its protocol level selects,
    /// together with a size of 0: the packet stays in `src` for the
    /// dialect's codec to decode.
    pub fn decode(&mut self, src: &mut BytesMut) -> (res: Result<Option<(Packet, u32)>, Error>)
        ensures
            *final(self) == *old(self),
            buf::bytes_mut_view(*final(src)) == buf::bytes_mut_view(*old(src)),
            match spec_probe(buf::bytes_mut_view(*old(src))) {
                Ok(Some(v)) => res == Ok::<Option<(Packet, u32)>, Error>(
                    Some((Packet::Version(v), 0)),
                ),
                Ok(None) => res matches Ok(None),
                Err(e) => res matches Err(got) && got == e,
            },
            buf::bytes_mut_view(*old(src)).len() >= 2 && buf::bytes_mut_view(*old(src))[0] != 0x10
                ==> res matches Err(Error::MalformedPacket),
    {
        let ghost s = buf::bytes_mut_view(*src);

        // Check minimum length
        if buf::len(src) < 2 {
            return Ok(None);
        }
        // Check connect packet type
        let bytes = buf::as_slice(src);
        if bytes[0] != 0x10 {
            return Err(Error::MalformedPacket);
        }
        // Decode remaining length
        assert(s.subrange(1, s.len() as int) =~= s.skip(1));
        match decode_len(slice_subrange(bytes, 1, bytes.len()))? {
            Some((_, len_len)) => {
                let body = slice_subrange(bytes, len_len + 1, bytes.len());
                assert(body@ =~= s.skip(1 + len_len));
                if body.len() < 9 {
                    return Ok(None);
                }
                // Decode protocol

                let name_len = (body[0] as usize) * 256 + body[1] as usize;
                let level = if name_len == 4 && body[2] == 0x4D && body[3] == 0x51 && body[4]
                    == 0x54 && body[5] == 0x54 {
                    assert(field_payload(body@) =~= name_mqtt());
                    body[6]
                } else if name_len == 6 && body[2] == 0x4D && body[3] == 0x51 && body[4] == 0x49
                    && body[5] == 0x73 && body[6] == 0x64 && body[7] == 0x70 {
                    assert(field_payload(body@) =~= name_mqisdp());
                    body[8]
                } else {
                    assert(field_short(body@) || (field_payload(body@) != name_mqtt()
                        && field_payload(body@) != name_mqisdp())) by {
                        if !field_short(body@) {
                            let p = field_payload(body@);
                            if p == name_mqtt() {
                                assert(p.len() == 4);
                                assert(p[0] == body@[2] && p[1] == body@[3] && p[2] == body@[4]
                                    && p[3] == body@[5]);
                            }
                            if p == name_mqisdp() {
                                assert(p.len() == 6);
                                assert(p[0] == body@[2] && p[1] == body@[3] && p[2] == body@[4]
                                    && p[3] == body@[5] && p[4] == body@[6] && p[5] == body@[7]);
                            }
                        }
                    }
                    return Err(Error::ProtocolError);
                };

                // Decode level
                match Version::of_level(level) {
                    Some(version) => Ok(Some((Packet::Version(version), 0))),
                    None => Err(Error::UnsupportedProtocolVersion),
                }
            },
            None => Ok(None),
        }
    }
}

} // verus!

//! The wire form of CONNACK, for both dialects.
//!
//! The body is the acknowledge flags, of which bit 0 says whether a session
//! is present, and the reason code. Under MQTT 5 a property block follows,
//! empty where the packet holds no properties. The frame is the type byte
//! `0x20`, the body's size as a variable-length integer, and the body.

use super::field::take_u8;
use super::v5::connack::{take_connack_properties, ConnAckPropertiesView};
use super::{spec_encode_len, spec_len_len, ConnAckView, Error, Version, MAX_LEN};
use vstd::prelude::*;

verus! {

/// The property block of a CONNACK without the length that leads it:
/// nothing where the packet holds no properties.
pub open spec fn block_bytes(c: ConnAckView) -> Seq<u8> {
    match c.properties {
        Some(p) => p.bytes(),
        None => Seq::empty(),
    }
}

/// The body of a CONNACK under `version`.
pub open spec fn connack_body(c: ConnAckView, version: Version) -> Seq<u8> {
    let head = seq![if c.session_present { 1u8 } else { 0u8 }, c.reason_code];
    match version {
        Version::V3 => head,
        Version::V5 => head + spec_encode_len(block_bytes(c).len()) + block_bytes(c),
    }
}

/// The whole CONNACK frame under `version`.
pub open spec fn connack_frame(c: ConnAckView, version: Version) -> Seq<u8> {
    seq![0x20u8] + spec_encode_len(connack_body(c, version).len()) + connack_body(c, version)
}

/// Whether a CONNACK can be sent under `version`. Under MQTT 3 every one
/// can. Under MQTT 5 each text and blob among the properties must fit its
/// length prefix, and the body a variable-length integer.
pub open spec fn connack_encodable(c: ConnAckView, version: Version) -> bool {
    match version {
        Version::V3 => true,
        Version::V5 => {
            &&& c.properties matches Some(p) ==> p.fits()
            &&& 2 + spec_len_len(block_bytes(c).len()) + block_bytes(c).len() <= MAX_LEN
        },
    }
}

/// The CONNACK that a body decodes to under `version`. Of the acknowledge
/// flags only bit 0 is looked at, and bytes after the last field are
/// ignored. Under MQTT 5 the properties are always present, if only empty.
pub open spec fn parse_connack(s: Seq<u8>, version: Version) -> Result<ConnAckView, Error> {
    match take_u8(s) {
        Err(e) => Err(e),
        Ok((flags, after_flags)) => match take_u8(after_flags) {
            Err(e) => Err(e),
            Ok((reason_code, after_reason)) => match version {
                Version::V3 => Ok(
                    ConnAckView {
                        session_present: flags & 0x01 != 0,
                        reason_code,
                        properties: None,
                    },
                ),
                Version::V5 => match take_connack_properties(after_reason) {
                    Err(e) => Err(e),
                    Ok((props, _)) => Ok(
                        ConnAckView {
                            session_present: flags & 0x01 != 0,
                            reason_code,
                            properties: Some(props),
                        },
                    ),
                },
            },
        },
    }
}

} // verus!

//! The grammar of a CONNECT body, for both dialects.
//!
//! A body is the protocol name and level, the connect flags, the keepalive,
//! under MQTT 5 a property block, the client identifier, and then whatever
//! the flags announce: a will (under MQTT 5 led by its own property block),
//! a user name, a password. Bytes that follow the last announced field are
//! ignored.

use super::field::{
    read_binary, read_string, read_u16, read_u8, take_binary, take_string, take_u16, take_u8,
};
use super::v5::connect::{
    take_connect_properties, take_will_properties, ConnectPropertiesView, WillPropertiesView,
};
use super::{Connect, ConnectView, Error, Level, QoS, Version};
use crate::buf;
use bytes::Bytes;
use vstd::prelude::*;

verus! {

/// The connect flags byte, taken apart.
#[derive(Debug, Clone, Copy, PartialEq, Eq, Structural)]
pub struct Flags {
    pub username: bool,
    pub password: bool,
    pub will_retain: bool,
    pub will_qos: QoS,
    pub will: bool,
    pub clean_start: bool,
}

/// What a connect flags byte says: bit 7 announces a user name, bit 6 a
/// password, bit 5 is the will's retain flag, bits 4 and 3 its level, bit 2
/// announces a will and bit 1 asks for a clean start. A set bit 0, or a will
/// level of 3, is a `ProtocolError`.
pub open spec fn spec_flags(b: u8) -> Result<Flags, Error> {
    if b & 0x01 != 0 {
        Err(Error::ProtocolError)
    } else {
        match QoS::spec_from((b & 0x18) >> 3) {
            None => Err(Error::ProtocolError),
            Some(q) => Ok(
                Flags {
                    username: b & 0x80 != 0,
                    password: b & 0x40 != 0,
                    will_retain: b & 0x20 != 0,
                    will_qos: q,
                    will: b & 0x04 != 0,
                    clean_start: b & 0x02 != 0,
                },
            ),
        }
    }
}

impl Flags {
    /// Takes a connect flags byte apart.
    pub fn parse(b: u8) -> (res: Result<Flags, Error>)
        ensures
            res == spec_flags(b),
    {
        if b & 0x01 != 0 {
            return Err(Error::ProtocolError);
        }
        let will_qos = QoS::try_from((b & 0x18) >> 3)?;
        Ok(
            Flags {
                username: b & 0x80 != 0,
                password: b & 0x40 != 0,
                will_retain: b & 0x20 != 0,
                will_qos,
                will: b & 0x04 != 0,
                clean_start: b & 0x02 != 0,
            },
        )
    }
}

/// The fixed part of a CONNECT body.
pub struct Head {
    pub name: String,
    pub level: u8,
    pub flags: Flags,
    pub keepalive: u16,
}

/// What a `Head` holds.
pub struct HeadView {
    pub name: Seq<char>,
    pub level: u8,
    pub flags: Flags,
    pub keepalive: u16,
}

impl View for Head {
    type V = HeadView;

    open spec fn view(&self) -> HeadView {
        HeadView {
            name: self.name@,
            level: self.level,
            flags: self.flags,
            keepalive: self.keepalive,
        }
    }
}

/// The fixed part at the head of a CONNECT body and what follows it: the
/// protocol name, the level, the connect flags and the keepalive.
///
/// The flags are judged before the level, so a flags byte that is refused
/// is a `ProtocolError` whatever the level. Then the level is judged for
/// `version`: one that is none of 3, 4 and 5 is an
/// `UnsupportedProtocolVersion`, and one that belongs to the other dialect
/// is a `ProtocolError`.
pub open spec fn take_head(s: Seq<u8>, version: Version) -> Result<(HeadView, Seq<u8>), Error> {
    match take_string(s) {
        Err(e) => Err(e),
        Ok((name, after_name)) => match take_u8(after_name) {
            Err(e) => Err(e),
            Ok((level, after_level)) => match take_u8(after_level) {
                Err(e) => Err(e),
                Ok((b, after_flags)) => match spec_flags(b) {
                    Err(e) => Err(e),
                    Ok(flags) => match version.spec_judge_level(level) {
                        Err(e) => Err(e),
                        Ok(()) => match take_u16(after_flags) {
                            Err(e) => Err(e),
                            Ok((keepalive, rest)) => Ok(
                                (HeadView { name, level, flags, keepalive }, rest),
                            ),
                        },
                    },
                },
            },
        },
    }
}

/// Reads the fixed part of a CONNECT body.
pub(crate) fn read_head(src: &mut Bytes, version: Version) -> (res: Result<Head, Error>)
    ensures
        match take_head(buf::bytes_view(*old(src)), version) {
            Ok((head, rest)) => (res matches Ok(got) && got@ == head) && buf::bytes_view(
                *final(src),
            ) == rest,
            Err(e) => res matches Err(got) && got == e,
        },
{
    let name = read_string(src)?;
    let level = read_u8(src)?;
    let flags = Flags::parse(read_u8(src)?)?;
    version.judge_level(level)?;
    let keepalive = read_u16(src)?;
    Ok(Head { name, level, flags, keepalive })
}

/// The CONNECT properties at the head of `s`: none under MQTT 3, a property
/// block under MQTT 5.
pub open spec fn take_properties(s: Seq<u8>, version: Version) -> Result<
    (Option<ConnectPropertiesView>, Seq<u8>),
    Error,
> {
    match version {
        Version::V3 => Ok((None, s)),
        Version::V5 => match take_connect_properties(s) {
            Err(e) => Err(e),
            Ok((props, rest)) => Ok((Some(props), rest)),
        },
    }
}

/// A will as CONNECT carries it.
pub struct WillView {
    pub properties: Option<WillPropertiesView>,
    pub topic: Seq<char>,
    pub payload: Seq<u8>,
}

/// The will at the head of `s` and what follows it. Where none is
/// announced nothing is read. Where one is, it is a property block under
/// MQTT 5, then the topic, then the payload.
pub open spec fn take_will(s: Seq<u8>, version: Version, present: bool) -> Result<
    (WillView, Seq<u8>),
    Error,
> {
    if !present {
        Ok((WillView { properties: None, topic: Seq::empty(), payload: Seq::empty() }, s))
    } else {
        match take_will_block(s, version) {
            Err(e) => Err(e),
            Ok((properties, after_props)) => match take_string(after_props) {
                Err(e) => Err(e),
                Ok((topic, after_topic)) => match take_binary(after_topic) {
                    Err(e) => Err(e),
                    Ok((payload, rest)) => Ok((WillView { properties, topic, payload }, rest)),
                },
            },
        }
    }
}

/// The will properties at the head of `s`: none under MQTT 3, a property
/// block under MQTT 5.
pub open spec fn take_will_block(s: Seq<u8>, version: Version) -> Result<
    (Option<WillPropertiesView>, Seq<u8>),
    Error,
> {
    match version {
        Version::V3 => Ok((None, s)),
        Version::V5 => match take_will_properties(s) {
            Err(e) => Err(e),
            Ok((props, rest)) => Ok((Some(props), rest)),
        },
    }
}

/// The string at the head of `s` if one is announced.
pub open spec fn take_opt_string(s: Seq<u8>, present: bool) -> Result<
    (Option<Seq<char>>, Seq<u8>),
    Error,
> {
    if !present {
        Ok((None, s))
    } else {
        match take_string(s) {
            Err(e) => Err(e),
            Ok((text, rest)) => Ok((Some(text), rest)),
        }
    }
}

/// The blob at the head of `s` if one is announced.
pub open spec fn take_opt_binary(s: Seq<u8>, present: bool) -> Result<
    (Option<Seq<u8>>, Seq<u8>),
    Error,
> {
    if !present {
        Ok((None, s))
    } else {
        match take_binary(s) {
            Err(e) => Err(e),
            Ok((blob, rest)) => Ok((Some(blob), rest)),
        }
    }
}

/// The CONNECT that a body decodes to under `version`, or the error of the
/// first field that cannot be read.
pub open spec fn parse_connect(s: Seq<u8>, version: Version) -> Result<ConnectView, Error> {
    match take_head(s, version) {
        Err(e) => Err(e),
        Ok((head, after_head)) => match take_properties(after_head, version) {
            Err(e) => Err(e),
            Ok((properties, after_props)) => match take_string(after_props) {
                Err(e) => Err(e),
                Ok((client_id, after_id)) => match take_will(after_id, version, head.flags.will) {
                    Err(e) => Err(e),
                    Ok((will, after_will)) => match take_opt_string(
                        after_will,
                        head.flags.username,
                    ) {
                        Err(e) => Err(e),
                        Ok((username, after_user)) => match take_opt_binary(
                            after_user,
                            head.flags.password,
                        ) {
                            Err(e) => Err(e),
                            Ok((password, _)) => Ok(
                                ConnectView {
                                    protocol_name: head.name,
                                    protocol_level: Level(head.level).spec_str(),
                                    username_flag: head.flags.username,
                                    password_flag: head.flags.password,
                                    will_retain: head.flags.will_retain,
                                    will_qos: head.flags.will_qos,
                                    will_flag: head.flags.will,
                                    clean_start: head.flags.clean_start,
                                    keepalive: head.keepalive,
                                    properties,
                                    client_id,
                                    will_properties: will.properties,
                                    will_topic: will.topic,
                                    will_payload: will.payload,
                                    username,
                                    password,
                                },
                            ),
                        },
                    },
                },
            },
        },
    }
}

/// Whether a flag-valued property holds 0 or 1, where it is present.
pub open spec fn flag_valued(v: Option<u8>) -> bool {
    v matches Some(x) ==> x <= 1
}

/// Whether a decoded CONNECT is fit to be acted on under `version`.
///
/// Without a will, the will's level must be 0 and its retain flag clear.
/// Under MQTT 5 an empty client identifier needs a clean start, a receive
/// maximum or a maximum packet size must not be 0, and the properties that
/// stand for a flag must hold 0 or 1. Under MQTT 3 an empty client
/// identifier is let through for whoever authorizes the connection to judge.
pub open spec fn valid_connect(c: ConnectView, version: Version) -> bool {
    &&& !c.will_flag ==> c.will_qos == QoS::AtMostOnce && !c.will_retain
    &&& version == Version::V5 ==> {
        &&& c.client_id.len() == 0 ==> c.clean_start
        &&& c.properties matches Some(p) ==> {
            &&& p.receive_max != Some(0u16)
            &&& p.max_packet_size != Some(0u32)
            &&& flag_valued(p.request_response_info)
            &&& flag_valued(p.request_problem_info)
        }
        &&& c.will_properties matches Some(w) ==> flag_valued(w.payload_format_indicator)
    }
}

/// Whether a flag-valued property holds 0 or 1, where it is present.
fn is_flag_valued(v: &Option<u8>) -> (b: bool)
    ensures
        b == flag_valued(*v),
{
    match v {
        Some(x) => *x <= 1,
        None => true,
    }
}

impl Connect {
    /// Checks a decoded CONNECT before it is acted on; one that is not
    /// valid is a `ProtocolError`.
    pub fn validate(&self, version: Version) -> (res: Result<(), Error>)
        ensures
            valid_connect(self@, version) ==> res is Ok,
            !valid_connect(self@, version) ==> res == Err::<(), Error>(Error::ProtocolError),
    {
        if !self.will_flag {
            match self.will_qos {
                QoS::AtMostOnce => {},
                _ => {
                    return Err(Error::ProtocolError);
                },
            }
            if self.will_retain {
                return Err(Error::ProtocolError);
            }
        }
        match version {
            Version::V3 => {},
            Version::V5 => {
                if super::text_len(self.client_id.as_str()) == 0 && !self.clean_start {
                    proof {
                        lemma_empty_text(self.client_id@);
                    }
                    return Err(Error::ProtocolError);
                }
                proof {
                    lemma_empty_text(self.client_id@);
                }
                if let Some(ref p) = self.properties {
                    let receive_ok = match p.receive_max {
                        Some(n) => n != 0,
                        None => true,
                    };
                    let size_ok = match p.max_packet_size {
                        Some(n) => n != 0,
                        None => true,
                    };
                    if !receive_ok || !size_ok || !is_flag_valued(&p.request_response_info)
                        || !is_flag_valued(&p.request_problem_info) {
                        return Err(Error::ProtocolError);
                    }
                }
                if let Some(ref w) = self.will_properties {
                    if !is_flag_valued(&w.payload_format_indicator) {
                        return Err(Error::ProtocolError);
                    }
                }
            },
        }
        Ok(())
    }
}

/// A text is empty exactly when its UTF-8 encoding is.
pub proof fn lemma_empty_text(text: Seq<char>)
    ensures
        (text.len() == 0) == (vstd::utf8::encode_utf8(text).len() == 0),
{
    if text.len() > 0 {
        vstd::utf8::encode_utf8_first_scalar(text);
        assert(vstd::utf8::encode_utf8(text).len() > 0);
    }
}

/// Reads a user name, where the flags announce one.
pub(crate) fn read_opt_string(src: &mut Bytes, present: bool) -> (res: Result<
    Option<String>,
    Error,
>)
    ensures
        match take_opt_string(buf::bytes_view(*old(src)), present) {
            Ok((text, rest)) => (res matches Ok(got) && super::text_view(got) == text)
                && buf::bytes_view(*final(src)) == rest,
            Err(e) => res matches Err(got) && got == e,
        },
{
    if present {
        Ok(Some(read_string(src)?))
    } else {
        Ok(None)
    }
}

/// Reads a password, where the flags announce one.
pub(crate) fn read_opt_binary(src: &mut Bytes, present: bool) -> (res: Result<
    Option<Vec<u8>>,
    Error,
>)
    ensures
        match take_opt_binary(buf::bytes_view(*old(src)), present) {
            Ok((blob, rest)) => (res matches Ok(got) && super::blob_view(got) == blob)
                && buf::bytes_view(*final(src)) == rest,
            Err(e) => res matches Err(got) && got == e,
        },
{
    if present {
        Ok(Some(read_binary(src)?))
    } else {
        Ok(None)
    }
}

} // verus!

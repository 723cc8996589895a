//! CONNECT under MQTT 3.1 and 3.1.1.

use crate::buf;
use crate::protocol::connect::{parse_connect, read_head, read_opt_binary, read_opt_string};
use crate::protocol::field::{read_binary, read_string};
use crate::protocol::{Connect, Error, Level, Version};
use bytes::Bytes;
use vstd::prelude::*;

verus! {

/// Decodes the body of a CONNECT packet: protocol name, level 3 or 4,
/// connect flags, keepalive and client identifier, then will topic and
/// payload, user name and password as the flags announce them. There is no
/// property block.
///
/// A flags byte with bit 0 set or a will level of 3 is a `ProtocolError`
/// whatever the level, and so is level 5, which belongs to the other
/// dialect; any other level but 3 and 4 is an `UnsupportedProtocolVersion`.
pub fn decode(src: Bytes) -> (res: Result<Connect, Error>)
    ensures
        match parse_connect(buf::bytes_view(src), Version::V3) {
            Ok(c) => res matches Ok(got) && got@ == c,
            Err(e) => res matches Err(got) && got == e,
        },
{
    let mut src = src;

    // Protocol, connect flags, keep alive
    let head = read_head(&mut src, Version::V3)?;

    // Client ID
    let client_id = read_string(&mut src)?;

    // Will
    let mut will_topic = String::new();
    let mut will_payload = Vec::new();
    if head.flags.will {
        will_topic = read_string(&mut src)?;
        will_payload = read_binary(&mut src)?;
    }

    // User name, password
    let username = read_opt_string(&mut src, head.flags.username)?;
    let password = read_opt_binary(&mut src, head.flags.password)?;

    Ok(
        Connect {
            protocol_name: head.name,
            protocol_level: Level(head.level).str().to_owned(),
            username_flag: head.flags.username,
            password_flag: head.flags.password,
            will_retain: head.flags.will_retain,
            will_qos: head.flags.will_qos,
            will_flag: head.flags.will,
            clean_start: head.flags.clean_start,
            keepalive: head.keepalive,
            properties: None,
            client_id,
            will_properties: None,
            will_topic,
            will_payload,
            username,
            password,
        },
    )
}

} // verus!

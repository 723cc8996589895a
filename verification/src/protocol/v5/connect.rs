//! CONNECT under MQTT 5.0.

use super::property::{read_block, read_property, take_block, take_property, Value, ValueView};
use crate::buf;
use crate::protocol::connect::{parse_connect, read_head, read_opt_binary, read_opt_string};
use crate::protocol::field::{read_binary, read_string};
use crate::protocol::{
    blob_view, pairs_view, text_view, Connect, Error, Level, Property, Version,
};
use bytes::Bytes;
use vstd::prelude::*;

verus! {

/// Decodes the body of a CONNECT packet: protocol name, level 5, connect
/// flags, keepalive, property block and client identifier, then the will
/// with its own property block, user name and password as the flags
/// announce them.
///
/// A flags byte with bit 0 set or a will level of 3 is a `ProtocolError`
/// whatever the level, and so are levels 3 and 4, which belong to the other
/// dialect; any other level but 5 is an `UnsupportedProtocolVersion`.
pub fn decode(src: Bytes) -> (res: Result<Connect, Error>)
    ensures
        match parse_connect(buf::bytes_view(src), Version::V5) {
            Ok(c) => res matches Ok(got) && got@ == c,
            Err(e) => res matches Err(got) && got == e,
        },
{
    let mut src = src;

    // Protocol, connect flags, keep alive
    let head = read_head(&mut src, Version::V5)?;

    // Properties
    let properties = ConnectProperties::decode(&mut src)?;

    // Client ID
    let client_id = read_string(&mut src)?;

    // Will
    let mut will_properties = None;
    let mut will_topic = String::new();
    let mut will_payload = Vec::new();
    if head.flags.will {
        will_properties = Some(WillProperties::decode(&mut src)?);
        will_topic = read_string(&mut src)?;
        will_payload = read_binary(&mut src)?;
    }

    // User name, password
    let username = read_opt_string(&mut src, head.flags.username)?;
    let password = read_opt_binary(&mut src, head.flags.password)?;

    Ok(
        Connect {
            protocol_name: head.name,
            protocol_level: Level(head.level).str().to_owned(),
            username_flag: head.flags.username,
            password_flag: head.flags.password,
            will_retain: head.flags.will_retain,
            will_qos: head.flags.will_qos,
            will_flag: head.flags.will,
            clean_start: head.flags.clean_start,
            keepalive: head.keepalive,
            properties: Some(properties),
            client_id,
            will_properties,
            will_topic,
            will_payload,
            username,
            password,
        },
    )
}

/// The properties a client may send in CONNECT.
#[derive(Debug, Clone, PartialEq, Eq)]
pub struct ConnectProperties {
    pub session_expiry_interval: Option<u32>,
    pub receive_max: Option<u16>,
    pub max_packet_size: Option<u32>,
    pub topic_alias_max: Option<u16>,
    pub request_response_info: Option<u8>,
    pub request_problem_info: Option<u8>,
    pub user_property: Vec<(String, String)>,
    pub auth_method: Option<String>,
    pub auth_data: Option<Vec<u8>>,
}

/// What a `ConnectProperties` holds.
pub struct ConnectPropertiesView {
    pub session_expiry_interval: Option<u32>,
    pub receive_max: Option<u16>,
    pub max_packet_size: Option<u32>,
    pub topic_alias_max: Option<u16>,
    pub request_response_info: Option<u8>,
    pub request_problem_info: Option<u8>,
    pub user_property: Seq<(Seq<char>, Seq<char>)>,
    pub auth_method: Option<Seq<char>>,
    pub auth_data: Option<Seq<u8>>,
}

impl View for ConnectProperties {
    type V = ConnectPropertiesView;

    open spec fn view(&self) -> ConnectPropertiesView {
        ConnectPropertiesView {
            session_expiry_interval: self.session_expiry_interval,
            receive_max: self.receive_max,
            max_packet_size: self.max_packet_size,
            topic_alias_max: self.topic_alias_max,
            request_response_info: self.request_response_info,
            request_problem_info: self.request_problem_info,
            user_property: pairs_view(self.user_property@),
            auth_method: text_view(self.auth_method),
            auth_data: blob_view(self.auth_data),
        }
    }
}

impl ConnectPropertiesView {
    /// No property set.
    pub open spec fn empty() -> ConnectPropertiesView {
        ConnectPropertiesView {
            session_expiry_interval: None,
            receive_max: None,
            max_packet_size: None,
            topic_alias_max: None,
            request_response_info: None,
            request_problem_info: None,
            user_property: Seq::empty(),
            auth_method: None,
            auth_data: None,
        }
    }

    /// These properties with one more. A user property joins the end of the
    /// list. Any other property fills its field, and is a `MalformedPacket`
    /// when the field is filled already or CONNECT has no such property.
    #[verifier::opaque]
    pub open spec fn put(self, p: Property, v: ValueView) -> Result<ConnectPropertiesView, Error> {
        match (p, v) {
            (Property::SessionExpiryInterval, ValueView::FourByte(x)) => {
                if self.session_expiry_interval is Some {
                    Err(Error::MalformedPacket)
                } else {
                    Ok(ConnectPropertiesView { session_expiry_interval: Some(x), ..self })
                }
            },
            (Property::ReceiveMaximum, ValueView::TwoByte(x)) => {
                if self.receive_max is Some {
                    Err(Error::MalformedPacket)
                } else {
                    Ok(ConnectPropertiesView { receive_max: Some(x), ..self })
                }
            },
            (Property::MaxPacketSize, ValueView::FourByte(x)) => {
                if self.max_packet_size is Some {
                    Err(Error::MalformedPacket)
                } else {
                    Ok(ConnectPropertiesView { max_packet_size: Some(x), ..self })
                }
            },
            (Property::TopicAliasMaximum, ValueView::TwoByte(x)) => {
                if self.topic_alias_max is Some {
                    Err(Error::MalformedPacket)
                } else {
                    Ok(ConnectPropertiesView { topic_alias_max: Some(x), ..self })
                }
            },
            (Property::RequestResponseInfo, ValueView::Byte(x)) => {
                if self.request_response_info is Some {
                    Err(Error::MalformedPacket)
                } else {
                    Ok(ConnectPropertiesView { request_response_info: Some(x), ..self })
                }
            },
            (Property::RequestProblemInfo, ValueView::Byte(x)) => {
                if self.request_problem_info is Some {
                    Err(Error::MalformedPacket)
                } else {
                    Ok(ConnectPropertiesView { request_problem_info: Some(x), ..self })
                }
            },
            (Property::UserProperty, ValueView::Pair(k, x)) => Ok(
                ConnectPropertiesView { user_property: self.user_property.push((k, x)), ..self },
            ),
            (Property::AuthMethod, ValueView::Text(x)) => {
                if self.auth_method is Some {
                    Err(Error::MalformedPacket)
                } else {
                    Ok(ConnectPropertiesView { auth_method: Some(x), ..self })
                }
            },
            (Property::AuthData, ValueView::Binary(x)) => {
                if self.auth_data is Some {
                    Err(Error::MalformedPacket)
                } else {
                    Ok(ConnectPropertiesView { auth_data: Some(x), ..self })
                }
            },
            _ => Err(Error::MalformedPacket),
        }
    }

    /// What the properties in `block`, read one after another, add to
    /// `self`; the first one that cannot be read or added decides the error.
    #[verifier::opaque]
    pub open spec fn parse(self, block: Seq<u8>) -> Result<ConnectPropertiesView, Error>
        decreases block.len(),
    {
        if block.len() == 0 {
            Ok(self)
        } else {
            match take_property(block) {
                Err(e) => Err(e),
                Ok(((p, v), rest)) => match self.put(p, v) {
                    Err(e) => Err(e),
                    Ok(next) => next.parse(rest),
                },
            }
        }
    }
}

impl ConnectProperties {
    /// A set with no property in it.
    pub fn new() -> (props: ConnectProperties)
        ensures
            props@ == ConnectPropertiesView::empty(),
    {
        let props = ConnectProperties {
            session_expiry_interval: None,
            receive_max: None,
            max_packet_size: None,
            topic_alias_max: None,
            request_response_info: None,
            request_problem_info: None,
            user_property: Vec::new(),
            auth_method: None,
            auth_data: None,
        };
        assert(props@.user_property =~= Seq::empty());
        props
    }

    /// Adds one decoded property to the set.
    fn insert(&mut self, p: Property, v: Value) -> (res: Result<(), Error>)
        ensures
            match old(self)@.put(p, v@) {
                Ok(next) => res is Ok && final(self)@ == next,
                Err(e) => res == Err::<(), Error>(e),
            },
    {
        reveal(ConnectPropertiesView::put);
        match (p, v) {
            (Property::SessionExpiryInterval, Value::FourByte(x)) => {
                if self.session_expiry_interval.is_some() {
                    return Err(Error::MalformedPacket);
                }
                self.session_expiry_interval = Some(x);
            },
            (Property::ReceiveMaximum, Value::TwoByte(x)) => {
                if self.receive_max.is_some() {
                    return Err(Error::MalformedPacket);
                }
                self.receive_max = Some(x);
            },
            (Property::MaxPacketSize, Value::FourByte(x)) => {
                if self.max_packet_size.is_some() {
                    return Err(Error::MalformedPacket);
                }
                self.max_packet_size = Some(x);
            },
            (Property::TopicAliasMaximum, Value::TwoByte(x)) => {
                if self.topic_alias_max.is_some() {
                    return Err(Error::MalformedPacket);
                }
                self.topic_alias_max = Some(x);
            },
            (Property::RequestResponseInfo, Value::Byte(x)) => {
                if self.request_response_info.is_some() {
                    return Err(Error::MalformedPacket);
                }
                self.request_response_info = Some(x);
            },
            (Property::RequestProblemInfo, Value::Byte(x)) => {
                if self.request_problem_info.is_some() {
                    return Err(Error::MalformedPacket);
                }
                self.request_problem_info = Some(x);
            },
            (Property::UserProperty, Value::Pair(k, x)) => {
                self.user_property.push((k, x));
                assert(self@.user_property =~= old(self)@.user_property.push((k@, x@)));
            },
            (Property::AuthMethod, Value::Text(x)) => {
                if self.auth_method.is_some() {
                    return Err(Error::MalformedPacket);
                }
                self.auth_method = Some(x);
            },
            (Property::AuthData, Value::Binary(x)) => {
                if self.auth_data.is_some() {
                    return Err(Error::MalformedPacket);
                }
                self.auth_data = Some(x);
            },
            _ => {
                return Err(Error::MalformedPacket);
            },
        }
        Ok(())
    }

    /// Reads the property block at the head of `src`.
    ///
    /// The block is a variable-length integer and as many bytes as it says,
    /// holding one property after another. A property that CONNECT does not
    /// have, or has already, makes the packet malformed.
    pub fn decode(src: &mut Bytes) -> (res: Result<ConnectProperties, Error>)
        ensures
            match take_connect_properties(buf::bytes_view(*old(src))) {
                Ok((props, rest)) => (res matches Ok(got) && got@ == props) && buf::bytes_view(
                    *final(src),
                ) == rest,
                Err(e) => res matches Err(got) && got == e,
            },
    {
        let mut block = read_block(src)?;
        let mut prop = Self::new();
        let ghost all = buf::bytes_view(block);
        loop
            invariant
                take_block(buf::bytes_view(*old(src))) == Ok::<(Seq<u8>, Seq<u8>), Error>(
                    (all, buf::bytes_view(*src)),
                ),
                ConnectPropertiesView::empty().parse(all) == prop@.parse(buf::bytes_view(block)),
            decreases buf::bytes_view(block).len(),
        {
            reveal(ConnectPropertiesView::parse);
            if !buf::has_remaining(&block) {
                return Ok(prop);
            }
            let (property, value) = read_property(&mut block)?;
            prop.insert(property, value)?;
        }
    }
}

impl Default for ConnectProperties {
    fn default() -> (props: ConnectProperties)
        ensures
            props@ == ConnectPropertiesView::empty(),
    {
        Self::new()
    }
}

/// The CONNECT property block at the head of `s` and what follows it.
pub open spec fn take_connect_properties(s: Seq<u8>) -> Result<
    (ConnectPropertiesView, Seq<u8>),
    Error,
> {
    match take_block(s) {
        Err(e) => Err(e),
        Ok((block, rest)) => match ConnectPropertiesView::empty().parse(block) {
            Err(e) => Err(e),
            Ok(props) => Ok((props, rest)),
        },
    }
}


/// The properties a client may attach to its will.
#[derive(Debug, Clone, PartialEq, Eq)]
pub struct WillProperties {
    pub content_type: Option<String>,
    pub response_topic: Option<String>,
    pub correlation_data: Option<Vec<u8>>,
    pub will_delay_interval: Option<u32>,
    pub message_expiry_interval: Option<u32>,
    pub payload_format_indicator: Option<u8>,
    pub user_property: Vec<(String, String)>,
}

/// What a `WillProperties` holds.
pub struct WillPropertiesView {
    pub content_type: Option<Seq<char>>,
    pub response_topic: Option<Seq<char>>,
    pub correlation_data: Option<Seq<u8>>,
    pub will_delay_interval: Option<u32>,
    pub message_expiry_interval: Option<u32>,
    pub payload_format_indicator: Option<u8>,
    pub user_property: Seq<(Seq<char>, Seq<char>)>,
}

impl View for WillProperties {
    type V = WillPropertiesView;

    open spec fn view(&self) -> WillPropertiesView {
        WillPropertiesView {
            content_type: text_view(self.content_type),
            response_topic: text_view(self.response_topic),
            correlation_data: blob_view(self.correlation_data),
            will_delay_interval: self.will_delay_interval,
            message_expiry_interval: self.message_expiry_interval,
            payload_format_indicator: self.payload_format_indicator,
            user_property: pairs_view(self.user_property@),
        }
    }
}

impl WillPropertiesView {
    /// No property set.
    pub open spec fn empty() -> WillPropertiesView {
        WillPropertiesView {
            content_type: None,
            response_topic: None,
            correlation_data: None,
            will_delay_interval: None,
            message_expiry_interval: None,
            payload_format_indicator: None,
            user_property: Seq::empty(),
        }
    }

    /// These properties with one more. A user property joins the end of the
    /// list. Any other property fills its field, and is a `MalformedPacket`
    /// when the field is filled already or a will has no such property.
    #[verifier::opaque]
    pub open spec fn put(self, p: Property, v: ValueView) -> Result<WillPropertiesView, Error> {
        match (p, v) {
            (Property::ContentType, ValueView::Text(x)) => {
                if self.content_type is Some {
                    Err(Error::MalformedPacket)
                } else {
                    Ok(WillPropertiesView { content_type: Some(x), ..self })
                }
            },
            (Property::ResponseTopic, ValueView::Text(x)) => {
                if self.response_topic is Some {
                    Err(Error::MalformedPacket)
                } else {
                    Ok(WillPropertiesView { response_topic: Some(x), ..self })
                }
            },
            (Property::CorrelationData, ValueView::Binary(x)) => {
                if self.correlation_data is Some {
                    Err(Error::MalformedPacket)
                } else {
                    Ok(WillPropertiesView { correlation_data: Some(x), ..self })
                }
            },
            (Property::WillDelayInterval, ValueView::FourByte(x)) => {
                if self.will_delay_interval is Some {
                    Err(Error::MalformedPacket)
                } else {
                    Ok(WillPropertiesView { will_delay_interval: Some(x), ..self })
                }
            },
            (Property::MessageExpiryInterval, ValueView::FourByte(x)) => {
                if self.message_expiry_interval is Some {
                    Err(Error::MalformedPacket)
                } else {
                    Ok(WillPropertiesView { message_expiry_interval: Some(x), ..self })
                }
            },
            (Property::PayloadFormatIndicator, ValueView::Byte(x)) => {
                if self.payload_format_indicator is Some {
                    Err(Error::MalformedPacket)
                } else {
                    Ok(WillPropertiesView { payload_format_indicator: Some(x), ..self })
                }
            },
            (Property::UserProperty, ValueView::Pair(k, x)) => Ok(
                WillPropertiesView { user_property: self.user_property.push((k, x)), ..self },
            ),
            _ => Err(Error::MalformedPacket),
        }
    }

    /// What the properties in `block`, read one after another, add to
    /// `self`; the first one that cannot be read or added decides the error.
    #[verifier::opaque]
    pub open spec fn parse(self, block: Seq<u8>) -> Result<WillPropertiesView, Error>
        decreases block.len(),
    {
        if block.len() == 0 {
            Ok(self)
        } else {
            match take_property(block) {
                Err(e) => Err(e),
                Ok(((p, v), rest)) => match self.put(p, v) {
                    Err(e) => Err(e),
                    Ok(next) => next.parse(rest),
                },
            }
        }
    }
}

impl WillProperties {
    /// A set with no property in it.
    pub fn new() -> (props: WillProperties)
        ensures
            props@ == WillPropertiesView::empty(),
    {
        let props = WillProperties {
            content_type: None,
            response_topic: None,
            correlation_data: None,
            will_delay_interval: None,
            message_expiry_interval: None,
            payload_format_indicator: None,
            user_property: Vec::new(),
        };
        assert(props@.user_property =~= Seq::empty());
        props
    }

    /// Adds one decoded property to the set.
    fn insert(&mut self, p: Property, v: Value) -> (res: Result<(), Error>)
        ensures
            match old(self)@.put(p, v@) {
                Ok(next) => res is Ok && final(self)@ == next,
                Err(e) => res == Err::<(), Error>(e),
            },
    {
        reveal(WillPropertiesView::put);
        match (p, v) {
            (Property::ContentType, Value::Text(x)) => {
                if self.content_type.is_some() {
                    return Err(Error::MalformedPacket);
                }
                self.content_type = Some(x);
            },
            (Property::ResponseTopic, Value::Text(x)) => {
                if self.response_topic.is_some() {
                    return Err(Error::MalformedPacket);
                }
                self.response_topic = Some(x);
            },
            (Property::CorrelationData, Value::Binary(x)) => {
                if self.correlation_data.is_some() {
                    return Err(Error::MalformedPacket);
                }
                self.correlation_data = Some(x);
            },
            (Property::WillDelayInterval, Value::FourByte(x)) => {
                if self.will_delay_interval.is_some() {
                    return Err(Error::MalformedPacket);
                }
                self.will_delay_interval = Some(x);
            },
            (Property::MessageExpiryInterval, Value::FourByte(x)) => {
                if self.message_expiry_interval.is_some() {
                    return Err(Error::MalformedPacket);
                }
                self.message_expiry_interval = Some(x);
            },
            (Property::PayloadFormatIndicator, Value::Byte(x)) => {
                if self.payload_format_indicator.is_some() {
                    return Err(Error::MalformedPacket);
                }
                self.payload_format_indicator = Some(x);
            },
            (Property::UserProperty, Value::Pair(k, x)) => {
                self.user_property.push((k, x));
                assert(self@.user_property =~= old(self)@.user_property.push((k@, x@)));
            },
            _ => {
                return Err(Error::MalformedPacket);
            },
        }
        Ok(())
    }

    /// Reads the property block at the head of `src`.
    ///
    /// The block is a variable-length integer and as many bytes as it says,
    /// holding one property after another. A property that a will does not
    /// have, or has already, makes the packet malformed.
    pub fn decode(src: &mut Bytes) -> (res: Result<WillProperties, Error>)
        ensures
            match take_will_properties(buf::bytes_view(*old(src))) {
                Ok((props, rest)) => (res matches Ok(got) && got@ == props) && buf::bytes_view(
                    *final(src),
                ) == rest,
                Err(e) => res matches Err(got) && got == e,
            },
    {
        let mut block = read_block(src)?;
        let mut prop = Self::new();
        let ghost all = buf::bytes_view(block);
        loop
            invariant
                take_block(buf::bytes_view(*old(src))) == Ok::<(Seq<u8>, Seq<u8>), Error>(
                    (all, buf::bytes_view(*src)),
                ),
                WillPropertiesView::empty().parse(all) == prop@.parse(buf::bytes_view(block)),
            decreases buf::bytes_view(block).len(),
        {
            reveal(WillPropertiesView::parse);
            if !buf::has_remaining(&block) {
                return Ok(prop);
            }
            let (property, value) = read_property(&mut block)?;
            prop.insert(property, value)?;
        }
    }
}

impl Default for WillProperties {
    fn default() -> (props: WillProperties)
        ensures
            props@ == WillPropertiesView::empty(),
    {
        Self::new()
    }
}

/// The property block of a will at the head of `s` and what follows it.
pub open spec fn take_will_properties(s: Seq<u8>) -> Result<
    (WillPropertiesView, Seq<u8>),
    Error,
> {
    match take_block(s) {
        Err(e) => Err(e),
        Ok((block, rest)) => match WillPropertiesView::empty().parse(block) {
            Err(e) => Err(e),
            Ok(props) => Ok((props, rest)),
        },
    }
}


} // verus!

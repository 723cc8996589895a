//! CONNACK under MQTT 5.0.

use super::property::{
    binary_size_of, binary_value, blob_fits, blob_fits_of, byte_size_of, byte_value,
    four_byte_size_of, four_byte_value, lemma_optional_size, lemma_pairs_fit_tail,
    lemma_take_property, lemma_user_bytes_prefix, lemma_user_bytes_push, optional_bytes,
    optional_fits, optional_size, pairs_fit, property_bytes, put_binary_prop, put_byte_prop,
    put_four_byte_prop, put_text_prop, put_two_byte_prop, put_user_props, read_block,
    read_property, take_block, take_property, text_fits, text_fits_of, text_size_of,
    text_value, two_byte_size_of, two_byte_value, user_bytes, Value, ValueView,
};
use crate::buf;
use crate::protocol::connack::{
    block_bytes, connack_body, connack_encodable, connack_frame, parse_connack,
};
use crate::protocol::field::read_u8;
use crate::protocol::{
    blob_view, lemma_len_round_trip, len_len, pairs_view, put_len, spec_encode_len,
    spec_len_len, text_len, text_view, ConnAck, ConnAckView, Error, PacketType, Property,
    Version, MAX_FIELD, MAX_LEN,
};
use bytes::{Bytes, BytesMut};
use vstd::prelude::*;
use vstd::seq_lib::lemma_concat_associative;
use vstd::utf8::encode_utf8;

verus! {

/// Writes a CONNACK frame to `dst`: the type byte, the body's size, the
/// acknowledge flags, the reason code and the property block, which is
/// empty where the packet holds no properties.
///
/// Fails with `LenTooLong`, leaving `dst` as it was, when a property or the
/// body is too long to be sent or `dst` has no room for the frame.
pub fn encode(packet: ConnAck, dst: &mut BytesMut) -> (res: Result<(), Error>)
    ensures
        res is Ok <==> connack_encodable(packet@, Version::V5) && buf::bytes_mut_view(
            *old(dst),
        ).len() + connack_frame(packet@, Version::V5).len() <= buf::max_buf_len(),
        res is Ok ==> buf::bytes_mut_view(*final(dst)) == buf::bytes_mut_view(*old(dst))
            + connack_frame(packet@, Version::V5),
        res is Err ==> res == Err::<(), Error>(Error::LenTooLong) && buf::bytes_mut_view(
            *final(dst),
        ) == buf::bytes_mut_view(*old(dst)),
{
    let (prop_len, len) = match frame_sizes(&packet) {
        Some(sizes) => sizes,
        None => return Err(Error::LenTooLong),
    };
    proof {
        lemma_len_round_trip(len as nat, Seq::empty());
    }
    let size = 1 + len_len(len) + len;
    if buf::len(dst) > isize::MAX as usize - size {
        return Err(Error::LenTooLong);
    }
    buf::put_u8(dst, PacketType::ConnAck.code() << 4);
    put_len(dst, len);
    buf::put_u8(dst, if packet.session_present { 1 } else { 0 });
    buf::put_u8(dst, packet.reason_code);

    put_len(dst, prop_len);
    if let Some(prop) = packet.properties {
        prop.encode(dst);
    }
    proof {
        assert(2u8 << 4 == 0x20u8) by (bit_vector);
        lemma_frame_parts(packet@, buf::bytes_mut_view(*old(dst)), buf::bytes_mut_view(*dst));
    }
    Ok(())
}

/// Sizes of the property block and of the body of a CONNACK, where it can
/// be sent.
fn frame_sizes(packet: &ConnAck) -> (res: Option<(usize, usize)>)
    ensures
        res is Some <==> connack_encodable(packet@, Version::V5),
        res matches Some((prop_len, len)) ==> prop_len == block_bytes(packet@).len() && len == 2
            + spec_len_len(prop_len as nat) + prop_len && len == connack_body(
            packet@,
            Version::V5,
        ).len() && len <= MAX_LEN && (packet@.properties matches Some(p) ==> p.fits()),
{
    let mut prop_len: usize = 0;
    if let Some(ref prop) = packet.properties {
        match prop.checked_len() {
            Some(n) => {
                prop_len = n;
            },
            None => {
                return None;
            },
        }
    }
    proof {
        lemma_len_round_trip(prop_len as nat, Seq::empty());
    }
    let len = 2 + len_len(prop_len) + prop_len;
    if len > MAX_LEN {
        return None;
    }
    Some((prop_len, len))
}

/// Decodes the body of a CONNACK packet: acknowledge flags, reason code and
/// property block.
pub fn decode(src: Bytes) -> (res: Result<ConnAck, Error>)
    ensures
        match parse_connack(buf::bytes_view(src), Version::V5) {
            Ok(c) => res matches Ok(got) && got@ == c,
            Err(e) => res matches Err(got) && got == e,
        },
{
    let mut src = src;
    let flags = read_u8(&mut src)?;
    let reason_code = read_u8(&mut src)?;
    let properties = ConnAckProperties::decode(&mut src)?;
    Ok(ConnAck { session_present: flags & 0x01 != 0, reason_code, properties: Some(properties) })
}

/// The properties a server may send in CONNACK.
#[derive(Debug, Clone, PartialEq, Eq)]
pub struct ConnAckProperties {
    pub session_expiry_interval: Option<u32>,
    pub assigned_client_identifier: Option<String>,
    pub server_keep_alive: Option<u16>,
    pub auth_method: Option<String>,
    pub auth_data: Option<Vec<u8>>,
    pub response_info: Option<String>,
    pub server_reference: Option<String>,
    pub reason_string: Option<String>,
    pub receive_maximum: Option<u16>,
    pub topic_alias_max: Option<u16>,
    pub maximum_qos: Option<u8>,
    pub retain_available: Option<u8>,
    pub user_property: Vec<(String, String)>,
    pub max_packet_size: Option<u32>,
    pub wildcard_sub_available: Option<u8>,
    pub sub_identifier_available: Option<u8>,
    pub shared_sub_available: Option<u8>,
}

/// What a `ConnAckProperties` holds.
pub struct ConnAckPropertiesView {
    pub session_expiry_interval: Option<u32>,
    pub assigned_client_identifier: Option<Seq<char>>,
    pub server_keep_alive: Option<u16>,
    pub auth_method: Option<Seq<char>>,
    pub auth_data: Option<Seq<u8>>,
    pub response_info: Option<Seq<char>>,
    pub server_reference: Option<Seq<char>>,
    pub reason_string: Option<Seq<char>>,
    pub receive_maximum: Option<u16>,
    pub topic_alias_max: Option<u16>,
    pub maximum_qos: Option<u8>,
    pub retain_available: Option<u8>,
    pub user_property: Seq<(Seq<char>, Seq<char>)>,
    pub max_packet_size: Option<u32>,
    pub wildcard_sub_available: Option<u8>,
    pub sub_identifier_available: Option<u8>,
    pub shared_sub_available: Option<u8>,
}

impl View for ConnAckProperties {
    type V = ConnAckPropertiesView;

    open spec fn view(&self) -> ConnAckPropertiesView {
        ConnAckPropertiesView {
            session_expiry_interval: self.session_expiry_interval,
            assigned_client_identifier: text_view(self.assigned_client_identifier),
            server_keep_alive: self.server_keep_alive,
            auth_method: text_view(self.auth_method),
            auth_data: blob_view(self.auth_data),
            response_info: text_view(self.response_info),
            server_reference: text_view(self.server_reference),
            reason_string: text_view(self.reason_string),
            receive_maximum: self.receive_maximum,
            topic_alias_max: self.topic_alias_max,
            maximum_qos: self.maximum_qos,
            retain_available: self.retain_available,
            user_property: pairs_view(self.user_property@),
            max_packet_size: self.max_packet_size,
            wildcard_sub_available: self.wildcard_sub_available,
            sub_identifier_available: self.sub_identifier_available,
            shared_sub_available: self.shared_sub_available,
        }
    }
}

impl ConnAckPropertiesView {
    /// No property set.
    pub open spec fn empty() -> ConnAckPropertiesView {
        ConnAckPropertiesView {
            session_expiry_interval: None,
            assigned_client_identifier: None,
            server_keep_alive: None,
            auth_method: None,
            auth_data: None,
            response_info: None,
            server_reference: None,
            reason_string: None,
            receive_maximum: None,
            topic_alias_max: None,
            maximum_qos: None,
            retain_available: None,
            user_property: Seq::empty(),
            max_packet_size: None,
            wildcard_sub_available: None,
            sub_identifier_available: None,
            shared_sub_available: None,
        }
    }

    /// The value of the property `p`, where it is one that can occur at
    /// most once and is present.
    pub open spec fn value(self, p: Property) -> Option<ValueView> {
        match p {
            Property::SessionExpiryInterval => four_byte_value(self.session_expiry_interval),
            Property::AssignedClientIdentifier => text_value(self.assigned_client_identifier),
            Property::ServerKeepAlive => two_byte_value(self.server_keep_alive),
            Property::AuthMethod => text_value(self.auth_method),
            Property::AuthData => binary_value(self.auth_data),
            Property::ResponseInfo => text_value(self.response_info),
            Property::ServerReference => text_value(self.server_reference),
            Property::ReasonString => text_value(self.reason_string),
            Property::ReceiveMaximum => two_byte_value(self.receive_maximum),
            Property::TopicAliasMaximum => two_byte_value(self.topic_alias_max),
            Property::MaximumQoS => byte_value(self.maximum_qos),
            Property::RetainAvailable => byte_value(self.retain_available),
            Property::MaxPacketSize => four_byte_value(self.max_packet_size),
            Property::WildcardSubAvailable => byte_value(self.wildcard_sub_available),
            Property::SubIdentifierAvailable => byte_value(self.sub_identifier_available),
            Property::SharedSubAvailable => byte_value(self.shared_sub_available),
            _ => None,
        }
    }

    /// Whether the property `p` is absent or has a value that it can be
    /// written with.
    pub open spec fn writable(self, p: Property) -> bool {
        optional_fits(p, self.value(p))
    }

    /// The wire form of the property `p`: nothing where it is absent.
    pub open spec fn piece(self, p: Property) -> Seq<u8> {
        optional_bytes(p, self.value(p))
    }

    /// Size of the wire form of the property `p`.
    pub open spec fn size(self, p: Property) -> int {
        optional_size(self.value(p))
    }

    /// The wire form of the properties, without the length that leads the
    /// block: the properties that are present in ascending order of their
    /// identifiers, then the user properties in the order of the list.
    pub open spec fn bytes(self) -> Seq<u8> {
        self.fixed_bytes() + user_bytes(self.user_property)
    }

    /// The wire form of the properties that can occur at most once.
    pub open spec fn fixed_bytes(self) -> Seq<u8> {
        self.piece(Property::SessionExpiryInterval)
            + self.piece(Property::AssignedClientIdentifier)
            + self.piece(Property::ServerKeepAlive)
            + self.piece(Property::AuthMethod)
            + self.piece(Property::AuthData)
            + self.piece(Property::ResponseInfo)
            + self.piece(Property::ServerReference)
            + self.piece(Property::ReasonString)
            + self.piece(Property::ReceiveMaximum)
            + self.piece(Property::TopicAliasMaximum)
            + self.piece(Property::MaximumQoS)
            + self.piece(Property::RetainAvailable)
            + self.piece(Property::MaxPacketSize)
            + self.piece(Property::WildcardSubAvailable)
            + self.piece(Property::SubIdentifierAvailable)
            + self.piece(Property::SharedSubAvailable)
    }

    /// Sum of the sizes of the properties that can occur at most once.
    pub open spec fn fixed_len(self) -> int {
        self.size(Property::SessionExpiryInterval)
            + self.size(Property::AssignedClientIdentifier)
            + self.size(Property::ServerKeepAlive)
            + self.size(Property::AuthMethod)
            + self.size(Property::AuthData)
            + self.size(Property::ResponseInfo)
            + self.size(Property::ServerReference)
            + self.size(Property::ReasonString)
            + self.size(Property::ReceiveMaximum)
            + self.size(Property::TopicAliasMaximum)
            + self.size(Property::MaximumQoS)
            + self.size(Property::RetainAvailable)
            + self.size(Property::MaxPacketSize)
            + self.size(Property::WildcardSubAvailable)
            + self.size(Property::SubIdentifierAvailable)
            + self.size(Property::SharedSubAvailable)
    }

    /// Whether every text and blob that can occur at most once fits its
    /// length prefix.
    pub open spec fn fixed_fits(self) -> bool {
        &&& text_fits(self.assigned_client_identifier)
        &&& text_fits(self.auth_method)
        &&& blob_fits(self.auth_data)
        &&& text_fits(self.response_info)
        &&& text_fits(self.server_reference)
        &&& text_fits(self.reason_string)
    }

    /// Whether every text and blob among the properties can be
    /// length-prefixed.
    pub open spec fn fits(self) -> bool {
        self.fixed_fits() && pairs_fit(self.user_property)
    }

    /// Whether the properties can be sent: every text and blob fits its
    /// length prefix and the block fits a variable-length integer.
    pub open spec fn encodable(self) -> bool {
        self.fits() && self.bytes().len() <= MAX_LEN
    }

    /// Whether adding the property `p`, where `v` holds a value for it,
    /// turns these properties into `next`.
    pub open spec fn adds(self, p: Property, v: Option<ValueView>, next: ConnAckPropertiesView)
        -> bool {
        match v {
            Some(x) => self.put(p, x) == Ok::<ConnAckPropertiesView, Error>(next),
            None => next == self,
        }
    }

    /// These properties with one more. A user property joins the end of the
    /// list. Any other property fills its field, and is a `MalformedPacket`
    /// when the field is filled already or CONNACK has no such property.
    #[verifier::opaque]
    pub open spec fn put(self, p: Property, v: ValueView) -> Result<ConnAckPropertiesView, Error> {
        match (p, v) {
            (Property::SessionExpiryInterval, ValueView::FourByte(x)) => {
                if self.session_expiry_interval is Some {
                    Err(Error::MalformedPacket)
                } else {
                    Ok(ConnAckPropertiesView { session_expiry_interval: Some(x), ..self })
                }
            },
            (Property::AssignedClientIdentifier, ValueView::Text(x)) => {
                if self.assigned_client_identifier is Some {
                    Err(Error::MalformedPacket)
                } else {
                    Ok(ConnAckPropertiesView { assigned_client_identifier: Some(x), ..self })
                }
            },
            (Property::ServerKeepAlive, ValueView::TwoByte(x)) => {
                if self.server_keep_alive is Some {
                    Err(Error::MalformedPacket)
                } else {
                    Ok(ConnAckPropertiesView { server_keep_alive: Some(x), ..self })
                }
            },
            (Property::AuthMethod, ValueView::Text(x)) => {
                if self.auth_method is Some {
                    Err(Error::MalformedPacket)
                } else {
                    Ok(ConnAckPropertiesView { auth_method: Some(x), ..self })
                }
            },
            (Property::AuthData, ValueView::Binary(x)) => {
                if self.auth_data is Some {
                    Err(Error::MalformedPacket)
                } else {
                    Ok(ConnAckPropertiesView { auth_data: Some(x), ..self })
                }
            },
            (Property::ResponseInfo, ValueView::Text(x)) => {
                if self.response_info is Some {
                    Err(Error::MalformedPacket)
                } else {
                    Ok(ConnAckPropertiesView { response_info: Some(x), ..self })
                }
            },
            (Property::ServerReference, ValueView::Text(x)) => {
                if self.server_reference is Some {
                    Err(Error::MalformedPacket)
                } else {
                    Ok(ConnAckPropertiesView { server_reference: Some(x), ..self })
                }
            },
            (Property::ReasonString, ValueView::Text(x)) => {
                if self.reason_string is Some {
                    Err(Error::MalformedPacket)
                } else {
                    Ok(ConnAckPropertiesView { reason_string: Some(x), ..self })
                }
            },
            (Property::ReceiveMaximum, ValueView::TwoByte(x)) => {
                if self.receive_maximum is Some {
                    Err(Error::MalformedPacket)
                } else {
                    Ok(ConnAckPropertiesView { receive_maximum: Some(x), ..self })
                }
            },
            (Property::TopicAliasMaximum, ValueView::TwoByte(x)) => {
                if self.topic_alias_max is Some {
                    Err(Error::MalformedPacket)
                } else {
                    Ok(ConnAckPropertiesView { topic_alias_max: Some(x), ..self })
                }
            },
            (Property::MaximumQoS, ValueView::Byte(x)) => {
                if self.maximum_qos is Some {
                    Err(Error::MalformedPacket)
                } else {
                    Ok(ConnAckPropertiesView { maximum_qos: Some(x), ..self })
                }
            },
            (Property::RetainAvailable, ValueView::Byte(x)) => {
                if self.retain_available is Some {
                    Err(Error::MalformedPacket)
                } else {
                    Ok(ConnAckPropertiesView { retain_available: Some(x), ..self })
                }
            },
            (Property::UserProperty, ValueView::Pair(k, x)) => Ok(
                ConnAckPropertiesView { user_property: self.user_property.push((k, x)), ..self },
            ),
            (Property::MaxPacketSize, ValueView::FourByte(x)) => {
                if self.max_packet_size is Some {
                    Err(Error::MalformedPacket)
                } else {
                    Ok(ConnAckPropertiesView { max_packet_size: Some(x), ..self })
                }
            },
            (Property::WildcardSubAvailable, ValueView::Byte(x)) => {
                if self.wildcard_sub_available is Some {
                    Err(Error::MalformedPacket)
                } else {
                    Ok(ConnAckPropertiesView { wildcard_sub_available: Some(x), ..self })
                }
            },
            (Property::SubIdentifierAvailable, ValueView::Byte(x)) => {
                if self.sub_identifier_available is Some {
                    Err(Error::MalformedPacket)
                } else {
                    Ok(ConnAckPropertiesView { sub_identifier_available: Some(x), ..self })
                }
            },
            (Property::SharedSubAvailable, ValueView::Byte(x)) => {
                if self.shared_sub_available is Some {
                    Err(Error::MalformedPacket)
                } else {
                    Ok(ConnAckPropertiesView { shared_sub_available: Some(x), ..self })
                }
            },
            _ => Err(Error::MalformedPacket),
        }
    }

    /// What the properties in `block`, read one after another, add to
    /// `self`; the first one that cannot be read or added decides the error.
    #[verifier::opaque]
    pub open spec fn parse(self, block: Seq<u8>) -> Result<ConnAckPropertiesView, Error>
        decreases block.len(),
    {
        if block.len() == 0 {
            Ok(self)
        } else {
            match take_property(block) {
                Err(e) => Err(e),
                Ok(((p, v), rest)) => match self.put(p, v) {
                    Err(e) => Err(e),
                    Ok(next) => next.parse(rest),
                },
            }
        }
    }
}

impl ConnAckProperties {
    /// A set with no property in it.
    pub fn new() -> (props: ConnAckProperties)
        ensures
            props@ == ConnAckPropertiesView::empty(),
    {
        let props = ConnAckProperties {
            session_expiry_interval: None,
            assigned_client_identifier: None,
            server_keep_alive: None,
            auth_method: None,
            auth_data: None,
            response_info: None,
            server_reference: None,
            reason_string: None,
            receive_maximum: None,
            topic_alias_max: None,
            maximum_qos: None,
            retain_available: None,
            user_property: Vec::new(),
            max_packet_size: None,
            wildcard_sub_available: None,
            sub_identifier_available: None,
            shared_sub_available: None,
        };
        assert(props@.user_property =~= Seq::empty());
        props
    }

    /// Adds one decoded property to the set.
    fn insert(&mut self, p: Property, v: Value) -> (res: Result<(), Error>)
        ensures
            match old(self)@.put(p, v@) {
                Ok(next) => res is Ok && final(self)@ == next,
                Err(e) => res == Err::<(), Error>(e),
            },
    {
        reveal(ConnAckPropertiesView::put);
        match (p, v) {
            (Property::SessionExpiryInterval, Value::FourByte(x)) => {
                if self.session_expiry_interval.is_some() {
                    return Err(Error::MalformedPacket);
                }
                self.session_expiry_interval = Some(x);
            },
            (Property::AssignedClientIdentifier, Value::Text(x)) => {
                if self.assigned_client_identifier.is_some() {
                    return Err(Error::MalformedPacket);
                }
                self.assigned_client_identifier = Some(x);
            },
            (Property::ServerKeepAlive, Value::TwoByte(x)) => {
                if self.server_keep_alive.is_some() {
                    return Err(Error::MalformedPacket);
                }
                self.server_keep_alive = Some(x);
            },
            (Property::AuthMethod, Value::Text(x)) => {
                if self.auth_method.is_some() {
                    return Err(Error::MalformedPacket);
                }
                self.auth_method = Some(x);
            },
            (Property::AuthData, Value::Binary(x)) => {
                if self.auth_data.is_some() {
                    return Err(Error::MalformedPacket);
                }
                self.auth_data = Some(x);
            },
            (Property::ResponseInfo, Value::Text(x)) => {
                if self.response_info.is_some() {
                    return Err(Error::MalformedPacket);
                }
                self.response_info = Some(x);
            },
            (Property::ServerReference, Value::Text(x)) => {
                if self.server_reference.is_some() {
                    return Err(Error::MalformedPacket);
                }
                self.server_reference = Some(x);
            },
            (Property::ReasonString, Value::Text(x)) => {
                if self.reason_string.is_some() {
                    return Err(Error::MalformedPacket);
                }
                self.reason_string = Some(x);
            },
            (Property::ReceiveMaximum, Value::TwoByte(x)) => {
                if self.receive_maximum.is_some() {
                    return Err(Error::MalformedPacket);
                }
                self.receive_maximum = Some(x);
            },
            (Property::TopicAliasMaximum, Value::TwoByte(x)) => {
                if self.topic_alias_max.is_some() {
                    return Err(Error::MalformedPacket);
                }
                self.topic_alias_max = Some(x);
            },
            (Property::MaximumQoS, Value::Byte(x)) => {
                if self.maximum_qos.is_some() {
                    return Err(Error::MalformedPacket);
                }
                self.maximum_qos = Some(x);
            },
            (Property::RetainAvailable, Value::Byte(x)) => {
                if self.retain_available.is_some() {
                    return Err(Error::MalformedPacket);
                }
                self.retain_available = Some(x);
            },
            (Property::UserProperty, Value::Pair(k, x)) => {
                self.user_property.push((k, x));
                assert(self@.user_property =~= old(self)@.user_property.push((k@, x@)));
            },
            (Property::MaxPacketSize, Value::FourByte(x)) => {
                if self.max_packet_size.is_some() {
                    return Err(Error::MalformedPacket);
                }
                self.max_packet_size = Some(x);
            },
            (Property::WildcardSubAvailable, Value::Byte(x)) => {
                if self.wildcard_sub_available.is_some() {
                    return Err(Error::MalformedPacket);
                }
                self.wildcard_sub_available = Some(x);
            },
            (Property::SubIdentifierAvailable, Value::Byte(x)) => {
                if self.sub_identifier_available.is_some() {
                    return Err(Error::MalformedPacket);
                }
                self.sub_identifier_available = Some(x);
            },
            (Property::SharedSubAvailable, Value::Byte(x)) => {
                if self.shared_sub_available.is_some() {
                    return Err(Error::MalformedPacket);
                }
                self.shared_sub_available = Some(x);
            },
            _ => {
                return Err(Error::MalformedPacket);
            },
        }
        Ok(())
    }

    /// Writes the properties to `dst`, without the length that leads the
    /// block: those that are present in ascending order of their identifiers,
    /// then the user properties in the order of the list.
    pub fn encode(self, dst: &mut BytesMut)
        requires
            self@.fits(),
            buf::bytes_mut_view(*old(dst)).len() + self@.bytes().len() <= buf::max_buf_len(),
        ensures
            buf::bytes_mut_view(*final(dst)) == buf::bytes_mut_view(*old(dst)) + self@.bytes(),
    {
        let ghost start = buf::bytes_mut_view(*dst);
        let ghost mut done = Seq::<u8>::empty();
        assert(buf::bytes_mut_view(*dst) =~= start + done);
        put_four_byte_prop(dst, Property::SessionExpiryInterval, self.session_expiry_interval);
        proof {
            done = done + self@.piece(Property::SessionExpiryInterval);
            assert(buf::bytes_mut_view(*dst) =~= start + done);
        }
        put_text_prop(dst, Property::AssignedClientIdentifier, &self.assigned_client_identifier);
        proof {
            done = done + self@.piece(Property::AssignedClientIdentifier);
            assert(buf::bytes_mut_view(*dst) =~= start + done);
        }
        put_two_byte_prop(dst, Property::ServerKeepAlive, self.server_keep_alive);
        proof {
            done = done + self@.piece(Property::ServerKeepAlive);
            assert(buf::bytes_mut_view(*dst) =~= start + done);
        }
        put_text_prop(dst, Property::AuthMethod, &self.auth_method);
        proof {
            done = done + self@.piece(Property::AuthMethod);
            assert(buf::bytes_mut_view(*dst) =~= start + done);
        }
        put_binary_prop(dst, Property::AuthData, &self.auth_data);
        proof {
            done = done + self@.piece(Property::AuthData);
            assert(buf::bytes_mut_view(*dst) =~= start + done);
        }
        put_text_prop(dst, Property::ResponseInfo, &self.response_info);
        proof {
            done = done + self@.piece(Property::ResponseInfo);
            assert(buf::bytes_mut_view(*dst) =~= start + done);
        }
        put_text_prop(dst, Property::ServerReference, &self.server_reference);
        proof {
            done = done + self@.piece(Property::ServerReference);
            assert(buf::bytes_mut_view(*dst) =~= start + done);
        }
        put_text_prop(dst, Property::ReasonString, &self.reason_string);
        proof {
            done = done + self@.piece(Property::ReasonString);
            assert(buf::bytes_mut_view(*dst) =~= start + done);
        }
        put_two_byte_prop(dst, Property::ReceiveMaximum, self.receive_maximum);
        proof {
            done = done + self@.piece(Property::ReceiveMaximum);
            assert(buf::bytes_mut_view(*dst) =~= start + done);
        }
        put_two_byte_prop(dst, Property::TopicAliasMaximum, self.topic_alias_max);
        proof {
            done = done + self@.piece(Property::TopicAliasMaximum);
            assert(buf::bytes_mut_view(*dst) =~= start + done);
        }
        put_byte_prop(dst, Property::MaximumQoS, self.maximum_qos);
        proof {
            done = done + self@.piece(Property::MaximumQoS);
            assert(buf::bytes_mut_view(*dst) =~= start + done);
        }
        put_byte_prop(dst, Property::RetainAvailable, self.retain_available);
        proof {
            done = done + self@.piece(Property::RetainAvailable);
            assert(buf::bytes_mut_view(*dst) =~= start + done);
        }
        put_four_byte_prop(dst, Property::MaxPacketSize, self.max_packet_size);
        proof {
            done = done + self@.piece(Property::MaxPacketSize);
            assert(buf::bytes_mut_view(*dst) =~= start + done);
        }
        put_byte_prop(dst, Property::WildcardSubAvailable, self.wildcard_sub_available);
        proof {
            done = done + self@.piece(Property::WildcardSubAvailable);
            assert(buf::bytes_mut_view(*dst) =~= start + done);
        }
        put_byte_prop(dst, Property::SubIdentifierAvailable, self.sub_identifier_available);
        proof {
            done = done + self@.piece(Property::SubIdentifierAvailable);
            assert(buf::bytes_mut_view(*dst) =~= start + done);
        }
        put_byte_prop(dst, Property::SharedSubAvailable, self.shared_sub_available);
        proof {
            done = done + self@.piece(Property::SharedSubAvailable);
            assert(buf::bytes_mut_view(*dst) =~= start + done);
        }
        assert(done =~= self@.fixed_bytes());
        put_user_props(dst, &self.user_property);
        assert(buf::bytes_mut_view(*dst) =~= start + self@.bytes());
    }

    /// Whether every text and blob that can occur at most once fits its
    /// length prefix.
    fn fixed_fits(&self) -> (b: bool)
        ensures
            b == self@.fixed_fits(),
    {
        text_fits_of(&self.assigned_client_identifier)
            && text_fits_of(&self.auth_method)
            && blob_fits_of(&self.auth_data)
            && text_fits_of(&self.response_info)
            && text_fits_of(&self.server_reference)
            && text_fits_of(&self.reason_string)
    }

    /// Size of the wire form of the properties that can occur at most once.
    fn fixed_size(&self) -> (n: usize)
        requires
            self@.fixed_len() <= usize::MAX,
        ensures
            n == self@.fixed_len(),
    {
        proof {
            self@.lemma_fixed_len();
        }
        let mut len: usize = 0;
        len += four_byte_size_of(&self.session_expiry_interval);
        len += text_size_of(&self.assigned_client_identifier);
        len += two_byte_size_of(&self.server_keep_alive);
        len += text_size_of(&self.auth_method);
        len += binary_size_of(&self.auth_data);
        len += text_size_of(&self.response_info);
        len += text_size_of(&self.server_reference);
        len += text_size_of(&self.reason_string);
        len += two_byte_size_of(&self.receive_maximum);
        len += two_byte_size_of(&self.topic_alias_max);
        len += byte_size_of(&self.maximum_qos);
        len += byte_size_of(&self.retain_available);
        len += four_byte_size_of(&self.max_packet_size);
        len += byte_size_of(&self.wildcard_sub_available);
        len += byte_size_of(&self.sub_identifier_available);
        len += byte_size_of(&self.shared_sub_available);
        len
    }

    /// Size of the wire form of the properties, without the length that
    /// leads the block.
    pub fn len(&self) -> (n: usize)
        requires
            self@.bytes().len() <= usize::MAX,
        ensures
            n == self@.bytes().len(),
    {
        proof {
            self@.lemma_fixed_len();
        }
        let mut len = self.fixed_size();
        let ghost all = self@.user_property;
        let mut i: usize = 0;
        assert(all.take(0) =~= Seq::empty());
        while i < self.user_property.len()
            invariant
                i <= self.user_property@.len(),
                all == self@.user_property,
                all == pairs_view(self.user_property@),
                self@.bytes().len() <= usize::MAX,
                self@.bytes() == self@.fixed_bytes() + user_bytes(all),
                len == self@.fixed_bytes().len() + user_bytes(all.take(i as int)).len(),
            decreases self.user_property@.len() - i,
        {
            proof {
                lemma_user_bytes_prefix(all, i as int + 1);
                assert(all.take(i as int + 1) =~= all.take(i as int).push(all[i as int]));
                lemma_user_bytes_push(all.take(i as int), all[i as int]);
            }
            let pair = &self.user_property[i];
            len += 1 + 2 + text_len(pair.0.as_str()) + 2 + text_len(pair.1.as_str());
            i += 1;
        }
        assert(all.take(i as int) =~= all);
        len
    }

    /// Size of the wire form of the properties, where they can be sent at
    /// all: `None` when a text or blob is too long for its length prefix, or
    /// the block for a variable-length integer.
    pub fn checked_len(&self) -> (res: Option<usize>)
        ensures
            res is Some <==> self@.encodable(),
            res matches Some(n) ==> n == self@.bytes().len(),
    {
        proof {
            self@.lemma_fixed_len();
        }
        if !self.fixed_fits() {
            return None;
        }
        let mut len = self.fixed_size();
        let ghost all = self@.user_property;
        let mut i: usize = 0;
        assert(all.take(0) =~= Seq::empty());
        while i < self.user_property.len()
            invariant
                i <= self.user_property@.len(),
                all == self@.user_property,
                all == pairs_view(self.user_property@),
                self@.bytes() == self@.fixed_bytes() + user_bytes(all),
                len == self@.fixed_bytes().len() + user_bytes(all.take(i as int)).len(),
                len <= MAX_LEN + 500_000,
                pairs_fit(all.take(i as int)),
                self@.fixed_fits(),
            decreases self.user_property@.len() - i,
        {
            proof {
                lemma_user_bytes_prefix(all, i as int);
                lemma_user_bytes_prefix(all, i as int + 1);
                assert(all.take(i as int + 1) =~= all.take(i as int).push(all[i as int]));
                lemma_user_bytes_push(all.take(i as int), all[i as int]);
            }
            if len > MAX_LEN {
                return None;
            }
            let pair = &self.user_property[i];
            if text_len(pair.0.as_str()) > MAX_FIELD || text_len(pair.1.as_str()) > MAX_FIELD {
                assert(!pairs_fit(all)) by {
                    if pairs_fit(all) {
                        assert(encode_utf8(all[i as int].0).len() <= MAX_FIELD);
                    }
                }
                return None;
            }
            len += 1 + 2 + text_len(pair.0.as_str()) + 2 + text_len(pair.1.as_str());
            assert(pairs_fit(all.take(i as int + 1))) by {
                assert forall|j: int| 0 <= j < i + 1 implies encode_utf8(
                    #[trigger] all.take(i as int + 1)[j].0,
                ).len() <= MAX_FIELD && encode_utf8(all.take(i as int + 1)[j].1).len()
                    <= MAX_FIELD by {
                    if j < i {
                        assert(all.take(i as int + 1)[j] == all.take(i as int)[j]);
                    }
                }
            }
            i += 1;
        }
        assert(all.take(i as int) =~= all);
        if len > MAX_LEN {
            return None;
        }
        Some(len)
    }

    /// Reads the property block at the head of `src`.
    ///
    /// The block is a variable-length integer and as many bytes as it says,
    /// holding one property after another. A property that CONNACK does not
    /// have, or has already, makes the packet malformed.
    pub fn decode(src: &mut Bytes) -> (res: Result<ConnAckProperties, Error>)
        ensures
            match take_connack_properties(buf::bytes_view(*old(src))) {
                Ok((props, rest)) => (res matches Ok(got) && got@ == props) && buf::bytes_view(
                    *final(src),
                ) == rest,
                Err(e) => res matches Err(got) && got == e,
            },
    {
        let mut block = read_block(src)?;
        let mut prop = Self::new();
        let ghost all = buf::bytes_view(block);
        loop
            invariant
                take_block(buf::bytes_view(*old(src))) == Ok::<(Seq<u8>, Seq<u8>), Error>(
                    (all, buf::bytes_view(*src)),
                ),
                ConnAckPropertiesView::empty().parse(all) == prop@.parse(buf::bytes_view(block)),
            decreases buf::bytes_view(block).len(),
        {
            reveal(ConnAckPropertiesView::parse);
            if !buf::has_remaining(&block) {
                return Ok(prop);
            }
            let (property, value) = read_property(&mut block)?;
            prop.insert(property, value)?;
        }
    }
}

impl Default for ConnAckProperties {
    fn default() -> (props: ConnAckProperties)
        ensures
            props@ == ConnAckPropertiesView::empty(),
    {
        Self::new()
    }
}

/// The CONNACK property block at the head of `s` and what follows it.
pub open spec fn take_connack_properties(s: Seq<u8>) -> Result<
    (ConnAckPropertiesView, Seq<u8>),
    Error,
> {
    match take_block(s) {
        Err(e) => Err(e),
        Ok((block, rest)) => match ConnAckPropertiesView::empty().parse(block) {
            Err(e) => Err(e),
            Ok(props) => Ok((props, rest)),
        },
    }
}

impl ConnAckPropertiesView {
    /// The wire form of the properties that can occur at most once has the
    /// size that `fixed_len` gives, no property has a negative size, and
    /// where every text and blob fits its length prefix the sizes come to
    /// less than half a million bytes.
    pub proof fn lemma_fixed_len(self)
        ensures
            self.fixed_bytes().len() == self.fixed_len(),
            self.fixed_fits() ==> self.fixed_len() <= 500_000,
            self.size(Property::SessionExpiryInterval) >= 0,
            self.size(Property::AssignedClientIdentifier) >= 0,
            self.size(Property::ServerKeepAlive) >= 0,
            self.size(Property::AuthMethod) >= 0,
            self.size(Property::AuthData) >= 0,
            self.size(Property::ResponseInfo) >= 0,
            self.size(Property::ServerReference) >= 0,
            self.size(Property::ReasonString) >= 0,
            self.size(Property::ReceiveMaximum) >= 0,
            self.size(Property::TopicAliasMaximum) >= 0,
            self.size(Property::MaximumQoS) >= 0,
            self.size(Property::RetainAvailable) >= 0,
            self.size(Property::MaxPacketSize) >= 0,
            self.size(Property::WildcardSubAvailable) >= 0,
            self.size(Property::SubIdentifierAvailable) >= 0,
            self.size(Property::SharedSubAvailable) >= 0,
    {
        lemma_optional_size(
            Property::SessionExpiryInterval,
            self.value(Property::SessionExpiryInterval),
        );
        lemma_optional_size(
            Property::AssignedClientIdentifier,
            self.value(Property::AssignedClientIdentifier),
        );
        lemma_optional_size(Property::ServerKeepAlive, self.value(Property::ServerKeepAlive));
        lemma_optional_size(Property::AuthMethod, self.value(Property::AuthMethod));
        lemma_optional_size(Property::AuthData, self.value(Property::AuthData));
        lemma_optional_size(Property::ResponseInfo, self.value(Property::ResponseInfo));
        lemma_optional_size(Property::ServerReference, self.value(Property::ServerReference));
        lemma_optional_size(Property::ReasonString, self.value(Property::ReasonString));
        lemma_optional_size(Property::ReceiveMaximum, self.value(Property::ReceiveMaximum));
        lemma_optional_size(Property::TopicAliasMaximum, self.value(Property::TopicAliasMaximum));
        lemma_optional_size(Property::MaximumQoS, self.value(Property::MaximumQoS));
        lemma_optional_size(Property::RetainAvailable, self.value(Property::RetainAvailable));
        lemma_optional_size(Property::MaxPacketSize, self.value(Property::MaxPacketSize));
        lemma_optional_size(
            Property::WildcardSubAvailable,
            self.value(Property::WildcardSubAvailable),
        );
        lemma_optional_size(
            Property::SubIdentifierAvailable,
            self.value(Property::SubIdentifierAvailable),
        );
        lemma_optional_size(
            Property::SharedSubAvailable,
            self.value(Property::SharedSubAvailable),
        );
    }

    /// Where every text and blob fits its length prefix, each property
    /// that can occur at most once has a value that it can be written with.
    pub proof fn lemma_values_fit(self)
        requires
            self.fixed_fits(),
        ensures
            self.writable(Property::SessionExpiryInterval),
            self.writable(Property::AssignedClientIdentifier),
            self.writable(Property::ServerKeepAlive),
            self.writable(Property::AuthMethod),
            self.writable(Property::AuthData),
            self.writable(Property::ResponseInfo),
            self.writable(Property::ServerReference),
            self.writable(Property::ReasonString),
            self.writable(Property::ReceiveMaximum),
            self.writable(Property::TopicAliasMaximum),
            self.writable(Property::MaximumQoS),
            self.writable(Property::RetainAvailable),
            self.writable(Property::MaxPacketSize),
            self.writable(Property::WildcardSubAvailable),
            self.writable(Property::SubIdentifierAvailable),
            self.writable(Property::SharedSubAvailable),
    {
    }

    /// Reading the wire form of properties that can be written gives the
    /// properties back.
    pub proof fn lemma_parse_bytes(self)
        requires
            self.fits(),
        ensures
            ConnAckPropertiesView::empty().parse(self.bytes()) == Ok::<
                ConnAckPropertiesView,
                Error,
            >(self),
    {
        self.lemma_values_fit();

        // The value of each property that can occur at most once, and its
        // wire form.
        let v1 = self.value(Property::SessionExpiryInterval);
        let p1 = self.piece(Property::SessionExpiryInterval);
        let v2 = self.value(Property::AssignedClientIdentifier);
        let p2 = self.piece(Property::AssignedClientIdentifier);
        let v3 = self.value(Property::ServerKeepAlive);
        let p3 = self.piece(Property::ServerKeepAlive);
        let v4 = self.value(Property::AuthMethod);
        let p4 = self.piece(Property::AuthMethod);
        let v5 = self.value(Property::AuthData);
        let p5 = self.piece(Property::AuthData);
        let v6 = self.value(Property::ResponseInfo);
        let p6 = self.piece(Property::ResponseInfo);
        let v7 = self.value(Property::ServerReference);
        let p7 = self.piece(Property::ServerReference);
        let v8 = self.value(Property::ReasonString);
        let p8 = self.piece(Property::ReasonString);
        let v9 = self.value(Property::ReceiveMaximum);
        let p9 = self.piece(Property::ReceiveMaximum);
        let v10 = self.value(Property::TopicAliasMaximum);
        let p10 = self.piece(Property::TopicAliasMaximum);
        let v11 = self.value(Property::MaximumQoS);
        let p11 = self.piece(Property::MaximumQoS);
        let v12 = self.value(Property::RetainAvailable);
        let p12 = self.piece(Property::RetainAvailable);
        let v13 = self.value(Property::MaxPacketSize);
        let p13 = self.piece(Property::MaxPacketSize);
        let v14 = self.value(Property::WildcardSubAvailable);
        let p14 = self.piece(Property::WildcardSubAvailable);
        let v15 = self.value(Property::SubIdentifierAvailable);
        let p15 = self.piece(Property::SubIdentifierAvailable);
        let v16 = self.value(Property::SharedSubAvailable);
        let p16 = self.piece(Property::SharedSubAvailable);

        // The properties as they fill up, one field after the other.
        let a0 = ConnAckPropertiesView::empty();
        let a1 = ConnAckPropertiesView {
            session_expiry_interval: self.session_expiry_interval,
            ..a0
        };
        let a2 = ConnAckPropertiesView {
            assigned_client_identifier: self.assigned_client_identifier,
            ..a1
        };
        let a3 = ConnAckPropertiesView { server_keep_alive: self.server_keep_alive, ..a2 };
        let a4 = ConnAckPropertiesView { auth_method: self.auth_method, ..a3 };
        let a5 = ConnAckPropertiesView { auth_data: self.auth_data, ..a4 };
        let a6 = ConnAckPropertiesView { response_info: self.response_info, ..a5 };
        let a7 = ConnAckPropertiesView { server_reference: self.server_reference, ..a6 };
        let a8 = ConnAckPropertiesView { reason_string: self.reason_string, ..a7 };
        let a9 = ConnAckPropertiesView { receive_maximum: self.receive_maximum, ..a8 };
        let a10 = ConnAckPropertiesView { topic_alias_max: self.topic_alias_max, ..a9 };
        let a11 = ConnAckPropertiesView { maximum_qos: self.maximum_qos, ..a10 };
        let a12 = ConnAckPropertiesView { retain_available: self.retain_available, ..a11 };
        let a13 = ConnAckPropertiesView { max_packet_size: self.max_packet_size, ..a12 };
        let a14 = ConnAckPropertiesView {
            wildcard_sub_available: self.wildcard_sub_available,
            ..a13
        };
        let a15 = ConnAckPropertiesView {
            sub_identifier_available: self.sub_identifier_available,
            ..a14
        };
        let a16 = ConnAckPropertiesView { shared_sub_available: self.shared_sub_available, ..a15 };

        // What is left of the wire form after each field.
        let b16 = user_bytes(self.user_property);
        let b15 = p16 + b16;
        let b14 = p15 + b15;
        let b13 = p14 + b14;
        let b12 = p13 + b13;
        let b11 = p12 + b12;
        let b10 = p11 + b11;
        let b9 = p10 + b10;
        let b8 = p9 + b9;
        let b7 = p8 + b8;
        let b6 = p7 + b7;
        let b5 = p6 + b6;
        let b4 = p5 + b5;
        let b3 = p4 + b4;
        let b2 = p3 + b3;
        let b1 = p2 + b2;
        let b0 = p1 + b1;

        // What was read of the wire form up to each field.
        let l1 = p1;
        let l2 = l1 + p2;
        let l3 = l2 + p3;
        let l4 = l3 + p4;
        let l5 = l4 + p5;
        let l6 = l5 + p6;
        let l7 = l6 + p7;
        let l8 = l7 + p8;
        let l9 = l8 + p9;
        let l10 = l9 + p10;
        let l11 = l10 + p11;
        let l12 = l11 + p12;
        let l13 = l12 + p13;
        let l14 = l13 + p14;
        let l15 = l14 + p15;
        let l16 = l15 + p16;

        assert(a0.parse(b0) == a16.parse(b16)) by {
            assert(a0.adds(Property::SessionExpiryInterval, v1, a1)) by {
                reveal(ConnAckPropertiesView::put);
            }
            lemma_parse_step(a0, a1, Property::SessionExpiryInterval, v1, b1);
            assert(a1.adds(Property::AssignedClientIdentifier, v2, a2)) by {
                reveal(ConnAckPropertiesView::put);
            }
            lemma_parse_step(a1, a2, Property::AssignedClientIdentifier, v2, b2);
            assert(a2.adds(Property::ServerKeepAlive, v3, a3)) by {
                reveal(ConnAckPropertiesView::put);
            }
            lemma_parse_step(a2, a3, Property::ServerKeepAlive, v3, b3);
            assert(a3.adds(Property::AuthMethod, v4, a4)) by {
                reveal(ConnAckPropertiesView::put);
            }
            lemma_parse_step(a3, a4, Property::AuthMethod, v4, b4);
            assert(a4.adds(Property::AuthData, v5, a5)) by {
                reveal(ConnAckPropertiesView::put);
            }
            lemma_parse_step(a4, a5, Property::AuthData, v5, b5);
            assert(a5.adds(Property::ResponseInfo, v6, a6)) by {
                reveal(ConnAckPropertiesView::put);
            }
            lemma_parse_step(a5, a6, Property::ResponseInfo, v6, b6);
            assert(a6.adds(Property::ServerReference, v7, a7)) by {
                reveal(ConnAckPropertiesView::put);
            }
            lemma_parse_step(a6, a7, Property::ServerReference, v7, b7);
            assert(a7.adds(Property::ReasonString, v8, a8)) by {
                reveal(ConnAckPropertiesView::put);
            }
            lemma_parse_step(a7, a8, Property::ReasonString, v8, b8);
            assert(a8.adds(Property::ReceiveMaximum, v9, a9)) by {
                reveal(ConnAckPropertiesView::put);
            }
            lemma_parse_step(a8, a9, Property::ReceiveMaximum, v9, b9);
            assert(a9.adds(Property::TopicAliasMaximum, v10, a10)) by {
                reveal(ConnAckPropertiesView::put);
            }
            lemma_parse_step(a9, a10, Property::TopicAliasMaximum, v10, b10);
            assert(a10.adds(Property::MaximumQoS, v11, a11)) by {
                reveal(ConnAckPropertiesView::put);
            }
            lemma_parse_step(a10, a11, Property::MaximumQoS, v11, b11);
            assert(a11.adds(Property::RetainAvailable, v12, a12)) by {
                reveal(ConnAckPropertiesView::put);
            }
            lemma_parse_step(a11, a12, Property::RetainAvailable, v12, b12);
            assert(a12.adds(Property::MaxPacketSize, v13, a13)) by {
                reveal(ConnAckPropertiesView::put);
            }
            lemma_parse_step(a12, a13, Property::MaxPacketSize, v13, b13);
            assert(a13.adds(Property::WildcardSubAvailable, v14, a14)) by {
                reveal(ConnAckPropertiesView::put);
            }
            lemma_parse_step(a13, a14, Property::WildcardSubAvailable, v14, b14);
            assert(a14.adds(Property::SubIdentifierAvailable, v15, a15)) by {
                reveal(ConnAckPropertiesView::put);
            }
            lemma_parse_step(a14, a15, Property::SubIdentifierAvailable, v15, b15);
            assert(a15.adds(Property::SharedSubAvailable, v16, a16)) by {
                reveal(ConnAckPropertiesView::put);
            }
            lemma_parse_step(a15, a16, Property::SharedSubAvailable, v16, b16);
        }
        assert(b0 == self.bytes()) by {
            lemma_concat_associative(l1, p2, b2);
            lemma_concat_associative(l2, p3, b3);
            lemma_concat_associative(l3, p4, b4);
            lemma_concat_associative(l4, p5, b5);
            lemma_concat_associative(l5, p6, b6);
            lemma_concat_associative(l6, p7, b7);
            lemma_concat_associative(l7, p8, b8);
            lemma_concat_associative(l8, p9, b9);
            lemma_concat_associative(l9, p10, b10);
            lemma_concat_associative(l10, p11, b11);
            lemma_concat_associative(l11, p12, b12);
            lemma_concat_associative(l12, p13, b13);
            lemma_concat_associative(l13, p14, b14);
            lemma_concat_associative(l14, p15, b15);
            lemma_concat_associative(l15, p16, b16);
        }
        assert(a16.parse(b16) == Ok::<ConnAckPropertiesView, Error>(self)) by {
            lemma_parse_user(a16, self.user_property);
            assert(a16.user_property + self.user_property =~= self.user_property);
        }
    }
}

/// Reading a property that may be absent and then `rest` comes to adding
/// the property, where it is present, and reading `rest`.
pub proof fn lemma_parse_step(
    acc: ConnAckPropertiesView,
    next: ConnAckPropertiesView,
    p: Property,
    v: Option<ValueView>,
    rest: Seq<u8>,
)
    requires
        acc.adds(p, v, next),
        optional_fits(p, v),
    ensures
        acc.parse(optional_bytes(p, v) + rest) == next.parse(rest),
{
    reveal(ConnAckPropertiesView::parse);
    reveal(optional_bytes);
    match v {
        Some(x) => {
            lemma_take_property(p, x, rest);
        },
        None => {
            assert(optional_bytes(p, v) + rest =~= rest);
        },
    }
}

/// Reading the wire form of a list of user properties adds the list, in
/// its order, to the user properties read before.
pub proof fn lemma_parse_user(acc: ConnAckPropertiesView, pairs: Seq<(Seq<char>, Seq<char>)>)
    requires
        pairs_fit(pairs),
    ensures
        acc.parse(user_bytes(pairs)) == Ok::<ConnAckPropertiesView, Error>(
            ConnAckPropertiesView { user_property: acc.user_property + pairs, ..acc },
        ),
    decreases pairs.len(),
{
    if pairs.len() == 0 {
        reveal(ConnAckPropertiesView::parse);
        assert(acc.user_property + pairs =~= acc.user_property);
    } else {
        let first = ValueView::Pair(pairs[0].0, pairs[0].1);
        let next = ConnAckPropertiesView {
            user_property: acc.user_property.push((pairs[0].0, pairs[0].1)),
            ..acc
        };
        let tail = pairs.drop_first();
        assert(acc.adds(Property::UserProperty, Some(first), next)) by {
            reveal(ConnAckPropertiesView::put);
        }
        assert(optional_bytes(Property::UserProperty, Some(first)) == property_bytes(
            Property::UserProperty,
            first,
        )) by {
            reveal(optional_bytes);
        }
        lemma_pairs_fit_tail(pairs);
        lemma_parse_step(acc, next, Property::UserProperty, Some(first), user_bytes(tail));
        lemma_parse_user(next, tail);
        assert(next.user_property + tail =~= acc.user_property + pairs);
    }
}

/// A buffer that was given the type byte, the body's size, the two head
/// bytes, the block's size and the block, one after the other, has been
/// given the frame.
proof fn lemma_frame_parts(c: ConnAckView, start: Seq<u8>, end: Seq<u8>)
    requires
        end == (start.push(0x20u8) + spec_encode_len(
            (2 + spec_len_len(block_bytes(c).len()) + block_bytes(c).len()) as nat,
        )).push(if c.session_present { 1u8 } else { 0u8 }).push(c.reason_code) + spec_encode_len(
            block_bytes(c).len(),
        ) + block_bytes(c),
        block_bytes(c).len() <= MAX_LEN,
    ensures
        end == start + connack_frame(c, Version::V5),
{
    let block = block_bytes(c);
    lemma_len_round_trip(block.len(), Seq::empty());
    let body = connack_body(c, Version::V5);
    assert(body.len() == 2 + spec_len_len(block.len()) + block.len());
    assert(end =~= start + connack_frame(c, Version::V5));
}

} // verus!

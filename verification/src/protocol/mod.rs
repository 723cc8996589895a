//! MQTT packets and the primitive codecs they are built from.

pub mod codec;
pub mod connack;
pub mod connect;
pub mod field;
pub mod frame;
pub mod laws;
pub mod v3;
pub mod v5;
pub mod version;

pub use codec::Codec;
pub use version::Version;

use crate::buf;
use bytes::{Bytes, BytesMut};
use vstd::prelude::*;
use vstd::string::StringSliceAdditionalSpecFns;
use vstd::utf8::{decode_utf8, encode_utf8, valid_utf8};

verus! {

/// Why a packet was refused or a connection ended.
#[derive(Debug, Clone, Copy, PartialEq, Eq, Structural)]
pub enum Error {
    /// The underlying stream failed to read or write.
    Io,
    /// Bad fixed header, oversized length field, property out of place.
    MalformedPacket,
    /// A field that parses but means nothing: bad QoS, bad protocol name,
    /// text that is not UTF-8, a level that belongs to the other dialect.
    ProtocolError,
    /// The protocol level is none of 3, 4 and 5.
    UnsupportedProtocolVersion,
    /// The peer closed the stream.
    Disconnect,
    /// A length that the wire format or the buffer cap cannot hold.
    LenTooLong,
}

/// Quality of service of a message.
#[derive(Debug, Clone, Copy, PartialEq, Eq, Structural)]
pub enum QoS {
    AtMostOnce,
    AtLeastOnce,
    ExactlyOnce,
}

impl QoS {
    /// The level that a wire value stands for, if any.
    pub open spec fn spec_from(v: u8) -> Option<QoS> {
        if v == 0 {
            Some(QoS::AtMostOnce)
        } else if v == 1 {
            Some(QoS::AtLeastOnce)
        } else if v == 2 {
            Some(QoS::ExactlyOnce)
        } else {
            None
        }
    }

    /// The wire value of a level.
    pub open spec fn spec_code(self) -> u8 {
        match self {
            QoS::AtMostOnce => 0,
            QoS::AtLeastOnce => 1,
            QoS::ExactlyOnce => 2,
        }
    }

    /// The level with wire value `v`; values above 2 are a `ProtocolError`.
    pub fn try_from(v: u8) -> (res: Result<QoS, Error>)
        ensures
            match QoS::spec_from(v) {
                Some(q) => res == Ok::<QoS, Error>(q),
                None => res == Err::<QoS, Error>(Error::ProtocolError),
            },
    {
        match v {
            0 => Ok(QoS::AtMostOnce),
            1 => Ok(QoS::AtLeastOnce),
            2 => Ok(QoS::ExactlyOnce),
            _ => Err(Error::ProtocolError),
        }
    }

    /// The wire value of the level.
    pub fn code(&self) -> (v: u8)
        ensures
            v == self.spec_code(),
            QoS::spec_from(v) == Some(*self),
    {
        match self {
            QoS::AtMostOnce => 0,
            QoS::AtLeastOnce => 1,
            QoS::ExactlyOnce => 2,
        }
    }
}

impl Default for QoS {
    fn default() -> (q: QoS)
        ensures
            q == QoS::AtMostOnce,
    {
        QoS::AtMostOnce
    }
}

/// The sixteen values of a packet's type nibble.
#[derive(Debug, Clone, Copy, PartialEq, Eq, Structural)]
pub enum PacketType {
    Reserved,
    Connect,
    ConnAck,
    Publish,
    PubAck,
    PubRec,
    PubRel,
    PubComp,
    Subscribe,
    SubAck,
    Unsubscribe,
    UnsubAck,
    PingReq,
    PingResp,
    Disconnect,
    Auth,
}

impl PacketType {
    /// The wire value of a packet type.
    pub open spec fn spec_code(self) -> u8 {
        match self {
            PacketType::Reserved => 0,
            PacketType::Connect => 1,
            PacketType::ConnAck => 2,
            PacketType::Publish => 3,
            PacketType::PubAck => 4,
            PacketType::PubRec => 5,
            PacketType::PubRel => 6,
            PacketType::PubComp => 7,
            PacketType::Subscribe => 8,
            PacketType::SubAck => 9,
            PacketType::Unsubscribe => 10,
            PacketType::UnsubAck => 11,
            PacketType::PingReq => 12,
            PacketType::PingResp => 13,
            PacketType::Disconnect => 14,
            PacketType::Auth => 15,
        }
    }

    /// The packet type with wire value `v`; there is one for each value up
    /// to 15, and values above that are a `MalformedPacket`.
    pub fn try_from(v: u8) -> (res: Result<PacketType, Error>)
        ensures
            v <= 15 ==> (res matches Ok(t) && t.spec_code() == v),
            v > 15 ==> res == Err::<PacketType, Error>(Error::MalformedPacket),
    {
        match v {
            0 => Ok(PacketType::Reserved),
            1 => Ok(PacketType::Connect),
            2 => Ok(PacketType::ConnAck),
            3 => Ok(PacketType::Publish),
            4 => Ok(PacketType::PubAck),
            5 => Ok(PacketType::PubRec),
            6 => Ok(PacketType::PubRel),
            7 => Ok(PacketType::PubComp),
            8 => Ok(PacketType::Subscribe),
            9 => Ok(PacketType::SubAck),
            10 => Ok(PacketType::Unsubscribe),
            11 => Ok(PacketType::UnsubAck),
            12 => Ok(PacketType::PingReq),
            13 => Ok(PacketType::PingResp),
            14 => Ok(PacketType::Disconnect),
            15 => Ok(PacketType::Auth),
            _ => Err(Error::MalformedPacket),
        }
    }

    /// The wire value of the packet type.
    pub fn code(&self) -> (v: u8)
        ensures
            v == self.spec_code(),
            v <= 15,
    {
        match self {
            PacketType::Reserved => 0,
            PacketType::Connect => 1,
            PacketType::ConnAck => 2,
            PacketType::Publish => 3,
            PacketType::PubAck => 4,
            PacketType::PubRec => 5,
            PacketType::PubRel => 6,
            PacketType::PubComp => 7,
            PacketType::Subscribe => 8,
            PacketType::SubAck => 9,
            PacketType::Unsubscribe => 10,
            PacketType::UnsubAck => 11,
            PacketType::PingReq => 12,
            PacketType::PingResp => 13,
            PacketType::Disconnect => 14,
            PacketType::Auth => 15,
        }
    }
}

/// The identifiers of MQTT 5 properties.
#[derive(Debug, Clone, Copy, PartialEq, Eq, Structural)]
pub enum Property {
    PayloadFormatIndicator,
    MessageExpiryInterval,
    ContentType,
    ResponseTopic,
    CorrelationData,
    SubIdentifier,
    SessionExpiryInterval,
    AssignedClientIdentifier,
    ServerKeepAlive,
    AuthMethod,
    AuthData,
    RequestProblemInfo,
    WillDelayInterval,
    RequestResponseInfo,
    ResponseInfo,
    ServerReference,
    ReasonString,
    ReceiveMaximum,
    TopicAliasMaximum,
    TopicAlias,
    MaximumQoS,
    RetainAvailable,
    UserProperty,
    MaxPacketSize,
    WildcardSubAvailable,
    SubIdentifierAvailable,
    SharedSubAvailable,
}

impl Property {
    /// The wire identifier of a property.
    pub open spec fn spec_code(self) -> u8 {
        match self {
            Property::PayloadFormatIndicator => 0x01,
            Property::MessageExpiryInterval => 0x02,
            Property::ContentType => 0x03,
            Property::ResponseTopic => 0x08,
            Property::CorrelationData => 0x09,
            Property::SubIdentifier => 0x0B,
            Property::SessionExpiryInterval => 0x11,
            Property::AssignedClientIdentifier => 0x12,
            Property::ServerKeepAlive => 0x13,
            Property::AuthMethod => 0x15,
            Property::AuthData => 0x16,
            Property::RequestProblemInfo => 0x17,
            Property::WillDelayInterval => 0x18,
            Property::RequestResponseInfo => 0x19,
            Property::ResponseInfo => 0x1A,
            Property::ServerReference => 0x1C,
            Property::ReasonString => 0x1F,
            Property::ReceiveMaximum => 0x21,
            Property::TopicAliasMaximum => 0x22,
            Property::TopicAlias => 0x23,
            Property::MaximumQoS => 0x24,
            Property::RetainAvailable => 0x25,
            Property::UserProperty => 0x26,
            Property::MaxPacketSize => 0x27,
            Property::WildcardSubAvailable => 0x28,
            Property::SubIdentifierAvailable => 0x29,
            Property::SharedSubAvailable => 0x2A,
        }
    }

    /// The property that a wire identifier names, if any.
    pub open spec fn spec_from(v: u8) -> Option<Property> {
        if v == 0x01 {
            Some(Property::PayloadFormatIndicator)
        } else if v == 0x02 {
            Some(Property::MessageExpiryInterval)
        } else if v == 0x03 {
            Some(Property::ContentType)
        } else if v == 0x08 {
            Some(Property::ResponseTopic)
        } else if v == 0x09 {
            Some(Property::CorrelationData)
        } else if v == 0x0B {
            Some(Property::SubIdentifier)
        } else if v == 0x11 {
            Some(Property::SessionExpiryInterval)
        } else if v == 0x12 {
            Some(Property::AssignedClientIdentifier)
        } else if v == 0x13 {
            Some(Property::ServerKeepAlive)
        } else if v == 0x15 {
            Some(Property::AuthMethod)
        } else if v == 0x16 {
            Some(Property::AuthData)
        } else if v == 0x17 {
            Some(Property::RequestProblemInfo)
        } else if v == 0x18 {
            Some(Property::WillDelayInterval)
        } else if v == 0x19 {
            Some(Property::RequestResponseInfo)
        } else if v == 0x1A {
            Some(Property::ResponseInfo)
        } else if v == 0x1C {
            Some(Property::ServerReference)
        } else if v == 0x1F {
            Some(Property::ReasonString)
        } else if v == 0x21 {
            Some(Property::ReceiveMaximum)
        } else if v == 0x22 {
            Some(Property::TopicAliasMaximum)
        } else if v == 0x23 {
            Some(Property::TopicAlias)
        } else if v == 0x24 {
            Some(Property::MaximumQoS)
        } else if v == 0x25 {
            Some(Property::RetainAvailable)
        } else if v == 0x26 {
            Some(Property::UserProperty)
        } else if v == 0x27 {
            Some(Property::MaxPacketSize)
        } else if v == 0x28 {
            Some(Property::WildcardSubAvailable)
        } else if v == 0x29 {
            Some(Property::SubIdentifierAvailable)
        } else if v == 0x2A {
            Some(Property::SharedSubAvailable)
        } else {
            None
        }
    }

    /// The property named by `v`; an identifier outside the table is a
    /// `MalformedPacket`.
    pub fn try_from(v: u8) -> (res: Result<Property, Error>)
        ensures
            match Property::spec_from(v) {
                Some(p) => res == Ok::<Property, Error>(p),
                None => res == Err::<Property, Error>(Error::MalformedPacket),
            },
    {
        match v {
            0x01 => Ok(Property::PayloadFormatIndicator),
            0x02 => Ok(Property::MessageExpiryInterval),
            0x03 => Ok(Property::ContentType),
            0x08 => Ok(Property::ResponseTopic),
            0x09 => Ok(Property::CorrelationData),
            0x0B => Ok(Property::SubIdentifier),
            0x11 => Ok(Property::SessionExpiryInterval),
            0x12 => Ok(Property::AssignedClientIdentifier),
            0x13 => Ok(Property::ServerKeepAlive),
            0x15 => Ok(Property::AuthMethod),
            0x16 => Ok(Property::AuthData),
            0x17 => Ok(Property::RequestProblemInfo),
            0x18 => Ok(Property::WillDelayInterval),
            0x19 => Ok(Property::RequestResponseInfo),
            0x1A => Ok(Property::ResponseInfo),
            0x1C => Ok(Property::ServerReference),
            0x1F => Ok(Property::ReasonString),
            0x21 => Ok(Property::ReceiveMaximum),
            0x22 => Ok(Property::TopicAliasMaximum),
            0x23 => Ok(Property::TopicAlias),
            0x24 => Ok(Property::MaximumQoS),
            0x25 => Ok(Property::RetainAvailable),
            0x26 => Ok(Property::UserProperty),
            0x27 => Ok(Property::MaxPacketSize),
            0x28 => Ok(Property::WildcardSubAvailable),
            0x29 => Ok(Property::SubIdentifierAvailable),
            0x2A => Ok(Property::SharedSubAvailable),
            _ => Err(Error::MalformedPacket),
        }
    }

    /// The wire identifier of the property.
    pub fn code(&self) -> (v: u8)
        ensures
            v == self.spec_code(),
            Property::spec_from(v) == Some(*self),
    {
        match self {
            Property::PayloadFormatIndicator => 0x01,
            Property::MessageExpiryInterval => 0x02,
            Property::ContentType => 0x03,
            Property::ResponseTopic => 0x08,
            Property::CorrelationData => 0x09,
            Property::SubIdentifier => 0x0B,
            Property::SessionExpiryInterval => 0x11,
            Property::AssignedClientIdentifier => 0x12,
            Property::ServerKeepAlive => 0x13,
            Property::AuthMethod => 0x15,
            Property::AuthData => 0x16,
            Property::RequestProblemInfo => 0x17,
            Property::WillDelayInterval => 0x18,
            Property::RequestResponseInfo => 0x19,
            Property::ResponseInfo => 0x1A,
            Property::ServerReference => 0x1C,
            Property::ReasonString => 0x1F,
            Property::ReceiveMaximum => 0x21,
            Property::TopicAliasMaximum => 0x22,
            Property::TopicAlias => 0x23,
            Property::MaximumQoS => 0x24,
            Property::RetainAvailable => 0x25,
            Property::UserProperty => 0x26,
            Property::MaxPacketSize => 0x27,
            Property::WildcardSubAvailable => 0x28,
            Property::SubIdentifierAvailable => 0x29,
            Property::SharedSubAvailable => 0x2A,
        }
    }
}

/// A protocol level byte as it appears in CONNECT.
pub struct Level(pub u8);

impl Level {
    /// The version that a level byte names: "3.1" for 3, "3.1.1" for 4 and
    /// "5.0" for every other byte.
    pub open spec fn spec_str(self) -> Seq<char> {
        if self.0 == 3 {
            "3.1"@
        } else if self.0 == 4 {
            "3.1.1"@
        } else {
            "5.0"@
        }
    }

    /// The version that the level byte names.
    pub fn str(self) -> (name: &'static str)
        ensures
            name@ == self.spec_str(),
    {
        match self.0 {
            3 => "3.1",
            4 => "3.1.1",
            _ => "5.0",
        }
    }
}

/// A decoded CONNECT packet.
///
/// The will's level and retain flag are kept as they came even where the
/// packet has no will. Where it has none, `will_properties` is `None` and the
/// will's topic and payload are empty. `properties` is `None` under MQTT 3 and
/// present, if only empty, under MQTT 5; so is `will_properties` where there
/// is a will.
#[derive(Debug, Clone, PartialEq, Eq)]
pub struct Connect {
    pub protocol_name: String,
    pub protocol_level: String,
    pub username_flag: bool,
    pub password_flag: bool,
    pub will_retain: bool,
    pub will_qos: QoS,
    pub will_flag: bool,
    pub clean_start: bool,
    pub keepalive: u16,
    pub properties: Option<v5::ConnectProperties>,
    pub client_id: String,
    pub will_properties: Option<v5::WillProperties>,
    pub will_topic: String,
    pub will_payload: Vec<u8>,
    pub username: Option<String>,
    pub password: Option<Vec<u8>>,
}

/// What a `Connect` holds.
pub struct ConnectView {
    pub protocol_name: Seq<char>,
    pub protocol_level: Seq<char>,
    pub username_flag: bool,
    pub password_flag: bool,
    pub will_retain: bool,
    pub will_qos: QoS,
    pub will_flag: bool,
    pub clean_start: bool,
    pub keepalive: u16,
    pub properties: Option<v5::connect::ConnectPropertiesView>,
    pub client_id: Seq<char>,
    pub will_properties: Option<v5::connect::WillPropertiesView>,
    pub will_topic: Seq<char>,
    pub will_payload: Seq<u8>,
    pub username: Option<Seq<char>>,
    pub password: Option<Seq<u8>>,
}

impl View for Connect {
    type V = ConnectView;

    open spec fn view(&self) -> ConnectView {
        ConnectView {
            protocol_name: self.protocol_name@,
            protocol_level: self.protocol_level@,
            username_flag: self.username_flag,
            password_flag: self.password_flag,
            will_retain: self.will_retain,
            will_qos: self.will_qos,
            will_flag: self.will_flag,
            clean_start: self.clean_start,
            keepalive: self.keepalive,
            properties: match self.properties {
                Some(p) => Some(p@),
                None => None,
            },
            client_id: self.client_id@,
            will_properties: match self.will_properties {
                Some(p) => Some(p@),
                None => None,
            },
            will_topic: self.will_topic@,
            will_payload: self.will_payload@,
            username: text_view(self.username),
            password: blob_view(self.password),
        }
    }
}

impl ConnectView {
    /// A CONNECT with every flag clear and every field empty.
    pub open spec fn empty() -> ConnectView {
        ConnectView {
            protocol_name: Seq::empty(),
            protocol_level: Seq::empty(),
            username_flag: false,
            password_flag: false,
            will_retain: false,
            will_qos: QoS::AtMostOnce,
            will_flag: false,
            clean_start: false,
            keepalive: 0,
            properties: None,
            client_id: Seq::empty(),
            will_properties: None,
            will_topic: Seq::empty(),
            will_payload: Seq::empty(),
            username: None,
            password: None,
        }
    }
}

impl Default for Connect {
    fn default() -> (c: Connect)
        ensures
            c@ == ConnectView::empty(),
    {
        Connect {
            protocol_name: String::new(),
            protocol_level: String::new(),
            username_flag: false,
            password_flag: false,
            will_retain: false,
            will_qos: QoS::AtMostOnce,
            will_flag: false,
            clean_start: false,
            keepalive: 0,
            properties: None,
            client_id: String::new(),
            will_properties: None,
            will_topic: String::new(),
            will_payload: Vec::new(),
            username: None,
            password: None,
        }
    }
}

/// A CONNACK packet. `properties` belongs to MQTT 5; under MQTT 3 the
/// packet has none and `reason_code` is the return code.
#[derive(Debug, Clone, PartialEq, Eq)]
pub struct ConnAck {
    pub session_present: bool,
    pub reason_code: u8,
    pub properties: Option<v5::ConnAckProperties>,
}

/// What a `ConnAck` holds.
pub struct ConnAckView {
    pub session_present: bool,
    pub reason_code: u8,
    pub properties: Option<v5::connack::ConnAckPropertiesView>,
}

impl View for ConnAck {
    type V = ConnAckView;

    open spec fn view(&self) -> ConnAckView {
        ConnAckView {
            session_present: self.session_present,
            reason_code: self.reason_code,
            properties: match self.properties {
                Some(p) => Some(p@),
                None => None,
            },
        }
    }
}

impl Default for ConnAck {
    fn default() -> (c: ConnAck)
        ensures
            c@ == (ConnAckView { session_present: false, reason_code: 0, properties: None }),
    {
        ConnAck { session_present: false, reason_code: 0, properties: None }
    }
}

/// A packet as the codecs hand it over. `Version` never travels: the probe
/// gives it out to say which dialect the first CONNECT of a connection
/// asks for.
#[derive(Debug, Clone, PartialEq, Eq)]
pub enum Packet {
    Version(Version),
    Connect(Connect),
    ConnAck(ConnAck),
}

/// What a `Packet` holds.
pub enum PacketView {
    Version(Version),
    Connect(ConnectView),
    ConnAck(ConnAckView),
}

impl View for Packet {
    type V = PacketView;

    open spec fn view(&self) -> PacketView {
        match self {
            Packet::Version(v) => PacketView::Version(*v),
            Packet::Connect(c) => PacketView::Connect(c@),
            Packet::ConnAck(c) => PacketView::ConnAck(c@),
        }
    }
}

/// The text of an optional string.
pub open spec fn text_view(o: Option<String>) -> Option<Seq<char>> {
    match o {
        Some(s) => Some(s@),
        None => None,
    }
}

/// The bytes of an optional blob.
pub open spec fn blob_view(o: Option<Vec<u8>>) -> Option<Seq<u8>> {
    match o {
        Some(b) => Some(b@),
        None => None,
    }
}

/// The texts of a list of name and value strings.
pub open spec fn pairs_view(v: Seq<(String, String)>) -> Seq<(Seq<char>, Seq<char>)> {
    Seq::new(v.len(), |i: int| (v[i].0@, v[i].1@))
}

/// Largest value a variable-length integer can carry.
pub const MAX_LEN: usize = 268_435_455;

/// Number of bytes the variable-length encoding of `len` takes: one for
/// each base-128 digit.
pub open spec fn spec_len_len(len: nat) -> nat
    decreases len,
{
    if len < 128 {
        1
    } else {
        1 + spec_len_len(len / 128)
    }
}

/// The size of an encoding by the value's range: 1 byte below 128, 2 below
/// 16 384, 3 below 2 097 152, and 4 up to the largest value that can be
/// encoded.
pub proof fn lemma_len_len_ranges(len: nat)
    ensures
        len < 128 ==> spec_len_len(len) == 1,
        128 <= len < 16_384 ==> spec_len_len(len) == 2,
        16_384 <= len < 2_097_152 ==> spec_len_len(len) == 3,
        2_097_152 <= len <= MAX_LEN ==> spec_len_len(len) == 4,
        len <= u64::MAX ==> spec_len_len(len) <= 10,
{
    reveal_with_fuel(spec_len_len, 11);
}

/// Size of the variable-length encoding of `len`, for sizing a packet before
/// it is written.
pub fn len_len(len: usize) -> (n: usize)
    ensures
        n == spec_len_len(len as nat),
        len <= MAX_LEN ==> 1 <= n <= 4,
{
    let ghost orig = len as nat;
    let mut len = len;
    let mut len_len: usize = 1;
    proof {
        lemma_len_len_ranges(orig);
    }
    while len >= 128
        invariant
            len_len >= 1,
            len_len + spec_len_len(len as nat) == 1 + spec_len_len(orig),
            spec_len_len(orig) <= 10,
        decreases len,
    {
        len /= 128;
        len_len += 1;
    }
    len_len
}

/// The seven payload bits of a length byte.
pub open spec fn low7(b: u8) -> nat {
    (b % 128) as nat
}

/// What a variable-length integer at the head of `s` decodes to: the value
/// and the number of bytes it takes, `None` while the bytes at hand all ask
/// for another one, and `MalformedPacket` when a fifth byte would be needed.
pub open spec fn spec_decode_len(s: Seq<u8>) -> Result<Option<(nat, nat)>, Error> {
    if s.len() < 1 {
        Ok(None)
    } else if s[0] < 128 {
        Ok(Some((low7(s[0]), 1)))
    } else if s.len() < 2 {
        Ok(None)
    } else if s[1] < 128 {
        Ok(Some((low7(s[0]) + 128 * low7(s[1]), 2)))
    } else if s.len() < 3 {
        Ok(None)
    } else if s[2] < 128 {
        Ok(Some((low7(s[0]) + 128 * low7(s[1]) + 16_384 * low7(s[2]), 3)))
    } else if s.len() < 4 {
        Ok(None)
    } else if s[3] < 128 {
        Ok(
            Some(
                (
                    low7(s[0]) + 128 * low7(s[1]) + 16_384 * low7(s[2]) + 2_097_152 * low7(s[3]),
                    4,
                ),
            ),
        )
    } else {
        Err(Error::MalformedPacket)
    }
}

/// The variable-length encoding of `v`: base-128 digits, least significant
/// first, each but the last with its top bit set.
pub open spec fn spec_encode_len(v: nat) -> Seq<u8>
    decreases v,
{
    if v < 128 {
        seq![v as u8]
    } else {
        seq![(v % 128 + 128) as u8] + spec_encode_len(v / 128)
    }
}

/// Decodes the variable-length integer at the head of `src`.
///
/// Returns the value and the number of bytes read, `None` when `src` ends
/// inside the integer, and `MalformedPacket` when the fourth byte still has
/// its continuation bit set.
pub fn decode_len(src: &[u8]) -> (res: Result<Option<(usize, usize)>, Error>)
    ensures
        match spec_decode_len(src@) {
            Ok(Some((v, k))) => res == Ok::<Option<(usize, usize)>, Error>(
                Some((v as usize, k as usize)),
            ),
            Ok(None) => res == Ok::<Option<(usize, usize)>, Error>(None),
            Err(e) => res == Err::<Option<(usize, usize)>, Error>(e),
        },
        res matches Ok(Some((v, k))) ==> v <= MAX_LEN && 1 <= k <= 4 && k <= src@.len(),
{
    let mut len: usize = 0;
    let mut mult: usize = 1;
    let mut i: usize = 0;
    while i < src.len()
        invariant
            i <= 3,
            i <= src@.len(),
            forall|j: int| 0 <= j < i ==> src@[j] >= 128,
            i == 0 ==> len == 0 && mult == 1,
            i == 1 ==> len == low7(src@[0]) && mult == 128,
            i == 2 ==> len == low7(src@[0]) + 128 * low7(src@[1]) && mult == 16_384,
            i == 3 ==> len == low7(src@[0]) + 128 * low7(src@[1]) + 16_384 * low7(src@[2]) && mult
                == 2_097_152,
        decreases src@.len() - i,
    {
        let byte = src[i];
        assert(byte & 0x7F == byte % 128) by (bit_vector);
        assert((byte & 0x80 == 0) == (byte < 128)) by (bit_vector);
        len = len + (byte & 0x7F) as usize * mult;
        if byte & 0x80 == 0 {
            return Ok(Some((len, i + 1)));
        }
        if i == 3 {
            return Err(Error::MalformedPacket);
        }
        mult = mult * 128;
        i += 1;
    }
    Ok(None)
}

/// Appends the variable-length encoding of `len` to `dst`.
///
/// Fails with `LenTooLong`, leaving `dst` as it was, when `len` is above
/// 268 435 455 or `dst` has no room for the encoding.
pub fn encode_len(dst: &mut BytesMut, len: usize) -> (res: Result<(), Error>)
    ensures
        res is Ok <==> len <= MAX_LEN && buf::bytes_mut_view(*old(dst)).len() + spec_len_len(
            len as nat,
        ) <= buf::max_buf_len(),
        res is Ok ==> buf::bytes_mut_view(*final(dst)) == buf::bytes_mut_view(*old(dst))
            + spec_encode_len(len as nat),
        res is Err ==> res == Err::<(), Error>(Error::LenTooLong) && buf::bytes_mut_view(
            *final(dst),
        ) == buf::bytes_mut_view(*old(dst)),
{
    if len > MAX_LEN {
        return Err(Error::LenTooLong);
    }
    let need = len_len(len);
    if buf::len(dst) > isize::MAX as usize - need {
        return Err(Error::LenTooLong);
    }
    put_len(dst, len);
    Ok(())
}

/// Appends the variable-length encoding of `len`, for a caller that has
/// made sure of the value's range and of the room in `dst`.
pub(crate) fn put_len(dst: &mut BytesMut, len: usize)
    requires
        len <= MAX_LEN,
        buf::bytes_mut_view(*old(dst)).len() + spec_len_len(len as nat) <= buf::max_buf_len(),
    ensures
        buf::bytes_mut_view(*final(dst)) == buf::bytes_mut_view(*old(dst)) + spec_encode_len(
            len as nat,
        ),
{
    let ghost start = buf::bytes_mut_view(*dst);
    let ghost orig = len as nat;
    let mut len = len;
    loop
        invariant_except_break
            len <= MAX_LEN,
            buf::bytes_mut_view(*dst).len() + spec_len_len(len as nat) <= buf::max_buf_len(),
            buf::bytes_mut_view(*dst) + spec_encode_len(len as nat) == start + spec_encode_len(
                orig,
            ),
        ensures
            buf::bytes_mut_view(*dst) == start + spec_encode_len(orig),
        decreases len,
    {
        let ghost before = buf::bytes_mut_view(*dst);
        let ghost value = len as nat;
        let mut byte = (len % 128) as u8;
        len /= 128;
        if len > 0 {
            assert(byte | 0x80 == byte + 128) by (bit_vector)
                requires
                    byte < 128,
            ;
            byte |= 0x80;
        }
        buf::put_u8(dst, byte);
        if len == 0 {
            assert(before.push(byte) =~= before + spec_encode_len(value));
            break;
        }
        assert(before.push(byte) + spec_encode_len(len as nat) =~= before + spec_encode_len(
            value,
        ));
    }
}

/// Decoding the encoding of any value up to 268 435 455 gives the value back,
/// together with the size that `len_len` predicts, whatever bytes follow.
pub proof fn lemma_len_round_trip(v: nat, rest: Seq<u8>)
    requires
        v <= MAX_LEN,
    ensures
        spec_encode_len(v).len() == spec_len_len(v),
        spec_decode_len(spec_encode_len(v) + rest) == Ok::<Option<(nat, nat)>, Error>(
            Some((v, spec_len_len(v))),
        ),
{
    reveal_with_fuel(spec_encode_len, 5);
    reveal_with_fuel(spec_len_len, 5);
    let e = spec_encode_len(v);
    let s = e + rest;
    assert(forall|i: int| 0 <= i < e.len() ==> s[i] == e[i]);
}

/// Largest payload a length-prefixed string or blob can carry.
pub const MAX_FIELD: usize = 65_535;

/// Whether `s` ends before the length-prefixed field at its head does: no
/// room for the two length bytes, or fewer bytes after them than they
/// declare.
pub open spec fn field_short(s: Seq<u8>) -> bool {
    s.len() < 2 || s.len() < 2 + buf::be_u16(s)
}

/// The payload of the length-prefixed field at the head of `s`.
pub open spec fn field_payload(s: Seq<u8>) -> Seq<u8> {
    s.subrange(2, 2 + buf::be_u16(s))
}

/// What follows the length-prefixed field at the head of `s`.
pub open spec fn field_rest(s: Seq<u8>) -> Seq<u8> {
    s.skip(2 + buf::be_u16(s))
}

/// The wire form of a blob: its length as two bytes, high byte first, then
/// the payload.
pub open spec fn binary_bytes(payload: Seq<u8>) -> Seq<u8> {
    buf::u16_bytes(payload.len() as u16) + payload
}

/// The wire form of a string: the wire form of its UTF-8 encoding.
pub open spec fn string_bytes(text: Seq<char>) -> Seq<u8> {
    binary_bytes(encode_utf8(text))
}

/// Reads the length-prefixed blob at the head of `src`.
///
/// Returns `None`, with `src` untouched, when `src` ends before the blob
/// does; otherwise the payload, with `src` moved past it.
pub fn decode_binary(src: &mut Bytes) -> (res: Option<Vec<u8>>)
    ensures
        field_short(buf::bytes_view(*old(src))) ==> res is None && buf::bytes_view(*final(src))
            == buf::bytes_view(*old(src)),
        !field_short(buf::bytes_view(*old(src))) ==> (res matches Some(v) && v@ == field_payload(
            buf::bytes_view(*old(src)),
        ) && buf::bytes_view(*final(src)) == field_rest(buf::bytes_view(*old(src)))),
{
    let ghost s = buf::bytes_view(*src);
    if buf::remaining(src) < 2 {
        return None;
    }
    let head = buf::chunk(src);
    let len = (head[0] as usize) * 256 + head[1] as usize;
    if buf::remaining(src) - 2 < len {
        return None;
    }
    let declared = buf::get_u16(src);
    let payload = buf::split_to(src, declared as usize);
    assert(buf::bytes_view(payload) =~= field_payload(s));
    assert(buf::bytes_view(*src) =~= field_rest(s));
    Some(buf::to_vec(&payload))
}

/// Reads the length-prefixed UTF-8 string at the head of `src`.
///
/// Returns `None`, with `src` untouched, when `src` ends before the string
/// does. Otherwise `src` is moved past the string, and the result is the
/// text, or `ProtocolError` when the payload is not UTF-8.
pub fn decode_string(src: &mut Bytes) -> (res: Result<Option<String>, Error>)
    ensures
        field_short(buf::bytes_view(*old(src))) ==> res == Ok::<Option<String>, Error>(None)
            && buf::bytes_view(*final(src)) == buf::bytes_view(*old(src)),
        !field_short(buf::bytes_view(*old(src))) ==> buf::bytes_view(*final(src)) == field_rest(
            buf::bytes_view(*old(src)),
        ),
        !field_short(buf::bytes_view(*old(src))) && !valid_utf8(
            field_payload(buf::bytes_view(*old(src))),
        ) ==> res == Err::<Option<String>, Error>(Error::ProtocolError),
        !field_short(buf::bytes_view(*old(src))) && valid_utf8(
            field_payload(buf::bytes_view(*old(src))),
        ) ==> (res matches Ok(Some(text)) && text@ == decode_utf8(
            field_payload(buf::bytes_view(*old(src))),
        )),
{
    match decode_binary(src) {
        None => Ok(None),
        Some(payload) => {
            let ghost bytes = payload@;
            match String::from_utf8(payload) {
                Ok(text) => {
                    proof {
                        vstd::utf8::encode_utf8_decode_utf8(text@);
                    }
                    Ok(Some(text))
                },
                Err(_) => Err(Error::ProtocolError),
            }
        },
    }
}

/// Number of bytes in the UTF-8 encoding of `text`.
pub fn text_len(text: &str) -> (n: usize)
    ensures
        n == encode_utf8(text@).len(),
{
    text.as_bytes().len()
}

/// Appends the wire form of `payload`, for a caller that has made sure of
/// the payload's size and of the room in `dst`.
pub(crate) fn put_binary(dst: &mut BytesMut, payload: &[u8])
    requires
        payload@.len() <= MAX_FIELD,
        buf::bytes_mut_view(*old(dst)).len() + 2 + payload@.len() <= buf::max_buf_len(),
    ensures
        buf::bytes_mut_view(*final(dst)) == buf::bytes_mut_view(*old(dst)) + binary_bytes(
            payload@,
        ),
{
    let ghost start = buf::bytes_mut_view(*dst);
    buf::put_u16(dst, payload.len() as u16);
    buf::extend_from_slice(dst, payload);
    assert(buf::bytes_mut_view(*dst) =~= start + binary_bytes(payload@));
}

/// Appends the wire form of `text`, for a caller that has made sure of the
/// text's size and of the room in `dst`.
pub(crate) fn put_string(dst: &mut BytesMut, text: &str)
    requires
        encode_utf8(text@).len() <= MAX_FIELD,
        buf::bytes_mut_view(*old(dst)).len() + 2 + encode_utf8(text@).len() <= buf::max_buf_len(),
    ensures
        buf::bytes_mut_view(*final(dst)) == buf::bytes_mut_view(*old(dst)) + string_bytes(text@),
{
    put_binary(dst, text.as_bytes());
}

/// Appends the wire form of `payload` to `dst`: its length as two bytes,
/// high byte first, then the payload.
///
/// Fails with `LenTooLong`, leaving `dst` as it was, when the payload has
/// more than 65 535 bytes or `dst` has no room for it.
pub fn encode_binary(dst: &mut BytesMut, payload: &[u8]) -> (res: Result<(), Error>)
    ensures
        res is Ok <==> payload@.len() <= MAX_FIELD && buf::bytes_mut_view(*old(dst)).len() + 2
            + payload@.len() <= buf::max_buf_len(),
        res is Ok ==> buf::bytes_mut_view(*final(dst)) == buf::bytes_mut_view(*old(dst))
            + binary_bytes(payload@),
        res is Err ==> res == Err::<(), Error>(Error::LenTooLong) && buf::bytes_mut_view(
            *final(dst),
        ) == buf::bytes_mut_view(*old(dst)),
{
    if payload.len() > MAX_FIELD || buf::len(dst) > isize::MAX as usize - 2 - payload.len() {
        return Err(Error::LenTooLong);
    }
    put_binary(dst, payload);
    Ok(())
}

/// Appends the wire form of `text` to `dst`: the length of its UTF-8
/// encoding as two bytes, high byte first, then the encoding.
///
/// Fails with `LenTooLong`, leaving `dst` as it was, when the encoding has
/// more than 65 535 bytes or `dst` has no room for it.
pub fn encode_string(dst: &mut BytesMut, text: &str) -> (res: Result<(), Error>)
    ensures
        res is Ok <==> encode_utf8(text@).len() <= MAX_FIELD && buf::bytes_mut_view(
            *old(dst),
        ).len() + 2 + encode_utf8(text@).len() <= buf::max_buf_len(),
        res is Ok ==> buf::bytes_mut_view(*final(dst)) == buf::bytes_mut_view(*old(dst))
            + string_bytes(text@),
        res is Err ==> res == Err::<(), Error>(Error::LenTooLong) && buf::bytes_mut_view(
            *final(dst),
        ) == buf::bytes_mut_view(*old(dst)),
{
    encode_binary(dst, text.as_bytes())
}

} // verus!

//! One property of a property block: an identifier and the value whose shape
//! the identifier fixes.

use crate::buf;
use crate::protocol::field::{
    lemma_take_binary, lemma_take_len, lemma_take_string, lemma_take_u16, lemma_take_u32,
    read_binary, read_len, read_string, read_u16, read_u32, read_u8, take_binary, take_len,
    take_string, take_u16, take_u32, take_u8,
};
use crate::protocol::{
    binary_bytes, blob_view, field_short, pairs_view, put_binary, put_string, spec_encode_len,
    string_bytes, text_len, text_view, Error, Property, MAX_FIELD, MAX_LEN,
};
use bytes::{Bytes, BytesMut};
use vstd::prelude::*;
use vstd::utf8::encode_utf8;

verus! {

/// The shapes a property value can have on the wire.
#[derive(Debug, Clone, Copy, PartialEq, Eq, Structural)]
pub enum Kind {
    Byte,
    TwoByte,
    FourByte,
    VarInt,
    Text,
    Binary,
    Pair,
}

/// The shape of the value that follows a property's identifier.
pub open spec fn spec_kind(p: Property) -> Kind {
    match p {
        Property::PayloadFormatIndicator
        | Property::RequestProblemInfo
        | Property::RequestResponseInfo
        | Property::MaximumQoS
        | Property::RetainAvailable
        | Property::WildcardSubAvailable
        | Property::SubIdentifierAvailable
        | Property::SharedSubAvailable => Kind::Byte,
        Property::ServerKeepAlive
        | Property::ReceiveMaximum
        | Property::TopicAliasMaximum
        | Property::TopicAlias => Kind::TwoByte,
        Property::MessageExpiryInterval
        | Property::SessionExpiryInterval
        | Property::WillDelayInterval
        | Property::MaxPacketSize => Kind::FourByte,
        Property::SubIdentifier => Kind::VarInt,
        Property::ContentType
        | Property::ResponseTopic
        | Property::AssignedClientIdentifier
        | Property::AuthMethod
        | Property::ResponseInfo
        | Property::ServerReference
        | Property::ReasonString => Kind::Text,
        Property::CorrelationData | Property::AuthData => Kind::Binary,
        Property::UserProperty => Kind::Pair,
    }
}

/// The shape of the value that follows the identifier of `p`.
pub fn kind(p: Property) -> (k: Kind)
    ensures
        k == spec_kind(p),
{
    match p {
        Property::PayloadFormatIndicator
        | Property::RequestProblemInfo
        | Property::RequestResponseInfo
        | Property::MaximumQoS
        | Property::RetainAvailable
        | Property::WildcardSubAvailable
        | Property::SubIdentifierAvailable
        | Property::SharedSubAvailable => Kind::Byte,
        Property::ServerKeepAlive
        | Property::ReceiveMaximum
        | Property::TopicAliasMaximum
        | Property::TopicAlias => Kind::TwoByte,
        Property::MessageExpiryInterval
        | Property::SessionExpiryInterval
        | Property::WillDelayInterval
        | Property::MaxPacketSize => Kind::FourByte,
        Property::SubIdentifier => Kind::VarInt,
        Property::ContentType
        | Property::ResponseTopic
        | Property::AssignedClientIdentifier
        | Property::AuthMethod
        | Property::ResponseInfo
        | Property::ServerReference
        | Property::ReasonString => Kind::Text,
        Property::CorrelationData | Property::AuthData => Kind::Binary,
        Property::UserProperty => Kind::Pair,
    }
}

/// The value of one property.
#[derive(Debug, Clone, PartialEq, Eq)]
pub enum Value {
    Byte(u8),
    TwoByte(u16),
    FourByte(u32),
    VarInt(u32),
    Text(String),
    Binary(Vec<u8>),
    Pair(String, String),
}

/// The value of one property, as mathematics sees it.
pub enum ValueView {
    Byte(u8),
    TwoByte(u16),
    FourByte(u32),
    VarInt(u32),
    Text(Seq<char>),
    Binary(Seq<u8>),
    Pair(Seq<char>, Seq<char>),
}

impl View for Value {
    type V = ValueView;

    open spec fn view(&self) -> ValueView {
        match self {
            Value::Byte(v) => ValueView::Byte(*v),
            Value::TwoByte(v) => ValueView::TwoByte(*v),
            Value::FourByte(v) => ValueView::FourByte(*v),
            Value::VarInt(v) => ValueView::VarInt(*v),
            Value::Text(v) => ValueView::Text(v@),
            Value::Binary(v) => ValueView::Binary(v@),
            Value::Pair(k, v) => ValueView::Pair(k@, v@),
        }
    }
}

/// The value of shape `k` at the head of `s`, and what follows it.
pub open spec fn take_value(k: Kind, s: Seq<u8>) -> Result<(ValueView, Seq<u8>), Error> {
    match k {
        Kind::Byte => match take_u8(s) {
            Ok((v, rest)) => Ok((ValueView::Byte(v), rest)),
            Err(e) => Err(e),
        },
        Kind::TwoByte => match take_u16(s) {
            Ok((v, rest)) => Ok((ValueView::TwoByte(v), rest)),
            Err(e) => Err(e),
        },
        Kind::FourByte => match take_u32(s) {
            Ok((v, rest)) => Ok((ValueView::FourByte(v), rest)),
            Err(e) => Err(e),
        },
        Kind::VarInt => match take_len(s) {
            Ok((v, rest)) => Ok((ValueView::VarInt(v), rest)),
            Err(e) => Err(e),
        },
        Kind::Text => match take_string(s) {
            Ok((v, rest)) => Ok((ValueView::Text(v), rest)),
            Err(e) => Err(e),
        },
        Kind::Binary => match take_binary(s) {
            Ok((v, rest)) => Ok((ValueView::Binary(v), rest)),
            Err(e) => Err(e),
        },
        Kind::Pair => match take_string(s) {
            Ok((k, mid)) => match take_string(mid) {
                Ok((v, rest)) => Ok((ValueView::Pair(k, v), rest)),
                Err(e) => Err(e),
            },
            Err(e) => Err(e),
        },
    }
}

/// The property at the head of `s` and what follows it. An identifier
/// outside the table, or a value that does not fit in `s`, is a
/// `MalformedPacket`; text that is not UTF-8 is a `ProtocolError`.
pub open spec fn take_property(s: Seq<u8>) -> Result<((Property, ValueView), Seq<u8>), Error> {
    match take_u8(s) {
        Err(e) => Err(e),
        Ok((id, after_id)) => match Property::spec_from(id) {
            None => Err(Error::MalformedPacket),
            Some(p) => match take_value(spec_kind(p), after_id) {
                Ok((v, rest)) => Ok(((p, v), rest)),
                Err(e) => Err(e),
            },
        },
    }
}

/// Reads one property of a property block.
pub(crate) fn read_property(src: &mut Bytes) -> (res: Result<(Property, Value), Error>)
    ensures
        match take_property(buf::bytes_view(*old(src))) {
            Ok(((p, v), rest)) => (res matches Ok(got) && got.0 == p && got.1@ == v)
                && buf::bytes_view(*final(src)) == rest,
            Err(e) => res == Err::<(Property, Value), Error>(e),
        },
{
    let id = read_u8(src)?;
    let property = Property::try_from(id)?;
    let value = match kind(property) {
        Kind::Byte => Value::Byte(read_u8(src)?),
        Kind::TwoByte => Value::TwoByte(read_u16(src)?),
        Kind::FourByte => Value::FourByte(read_u32(src)?),
        Kind::VarInt => Value::VarInt(read_len(src)?),
        Kind::Text => Value::Text(read_string(src)?),
        Kind::Binary => Value::Binary(read_binary(src)?),
        Kind::Pair => {
            let k = read_string(src)?;
            let v = read_string(src)?;
            Value::Pair(k, v)
        },
    };
    Ok((property, value))
}

/// The property block at the head of `s` and what follows it: a
/// variable-length integer, then as many bytes as it says.
pub open spec fn take_block(s: Seq<u8>) -> Result<(Seq<u8>, Seq<u8>), Error> {
    match take_len(s) {
        Err(e) => Err(e),
        Ok((len, after)) => if after.len() < len {
            Err(Error::MalformedPacket)
        } else {
            Ok((after.take(len as int), after.skip(len as int)))
        },
    }
}

/// Splits the property block at the head of `src` off it.
pub(crate) fn read_block(src: &mut Bytes) -> (res: Result<Bytes, Error>)
    ensures
        match take_block(buf::bytes_view(*old(src))) {
            Ok((block, rest)) => (res matches Ok(got) && buf::bytes_view(got) == block)
                && buf::bytes_view(*final(src)) == rest,
            Err(e) => res matches Err(got) && got == e,
        },
{
    let len = read_len(src)? as usize;
    if buf::remaining(src) < len {
        return Err(Error::MalformedPacket);
    }
    Ok(buf::split_to(src, len))
}

/// The wire form of a property value.
pub open spec fn value_bytes(v: ValueView) -> Seq<u8> {
    match v {
        ValueView::Byte(b) => seq![b],
        ValueView::TwoByte(x) => buf::u16_bytes(x),
        ValueView::FourByte(x) => buf::u32_bytes(x),
        ValueView::VarInt(x) => spec_encode_len(x as nat),
        ValueView::Text(t) => string_bytes(t),
        ValueView::Binary(b) => binary_bytes(b),
        ValueView::Pair(k, v) => string_bytes(k) + string_bytes(v),
    }
}

/// The wire form of a property: its identifier, then its value.
pub open spec fn property_bytes(p: Property, v: ValueView) -> Seq<u8> {
    seq![p.spec_code()] + value_bytes(v)
}

/// The shape of a property value.
pub open spec fn kind_of(v: ValueView) -> Kind {
    match v {
        ValueView::Byte(_) => Kind::Byte,
        ValueView::TwoByte(_) => Kind::TwoByte,
        ValueView::FourByte(_) => Kind::FourByte,
        ValueView::VarInt(_) => Kind::VarInt,
        ValueView::Text(_) => Kind::Text,
        ValueView::Binary(_) => Kind::Binary,
        ValueView::Pair(_, _) => Kind::Pair,
    }
}

/// Whether a property value can be written: each text and blob in it has at
/// most 65 535 bytes, and an integer of variable length is at most
/// 268 435 455.
pub open spec fn value_fits(v: ValueView) -> bool {
    match v {
        ValueView::VarInt(x) => x <= MAX_LEN,
        ValueView::Text(t) => encode_utf8(t).len() <= MAX_FIELD,
        ValueView::Binary(b) => b.len() <= MAX_FIELD,
        ValueView::Pair(k, x) => encode_utf8(k).len() <= MAX_FIELD && encode_utf8(x).len()
            <= MAX_FIELD,
        _ => true,
    }
}

/// The value of a one-byte property that may be absent.
pub open spec fn byte_value(v: Option<u8>) -> Option<ValueView> {
    match v {
        Some(x) => Some(ValueView::Byte(x)),
        None => None,
    }
}

/// The value of a two-byte property that may be absent.
pub open spec fn two_byte_value(v: Option<u16>) -> Option<ValueView> {
    match v {
        Some(x) => Some(ValueView::TwoByte(x)),
        None => None,
    }
}

/// The value of a four-byte property that may be absent.
pub open spec fn four_byte_value(v: Option<u32>) -> Option<ValueView> {
    match v {
        Some(x) => Some(ValueView::FourByte(x)),
        None => None,
    }
}

/// The value of a text property that may be absent.
pub open spec fn text_value(v: Option<Seq<char>>) -> Option<ValueView> {
    match v {
        Some(x) => Some(ValueView::Text(x)),
        None => None,
    }
}

/// The value of a blob property that may be absent.
pub open spec fn binary_value(v: Option<Seq<u8>>) -> Option<ValueView> {
    match v {
        Some(x) => Some(ValueView::Binary(x)),
        None => None,
    }
}

/// Whether a value that may be absent is one that the property `p` can be
/// written with: where it is present it has the shape that the identifier
/// asks for and can be written.
pub open spec fn optional_fits(p: Property, v: Option<ValueView>) -> bool {
    v matches Some(x) ==> kind_of(x) == spec_kind(p) && value_fits(x)
}

/// The wire form of a property that may be absent: nothing where it is.
#[verifier::opaque]
pub open spec fn optional_bytes(p: Property, v: Option<ValueView>) -> Seq<u8> {
    match v {
        Some(x) => property_bytes(p, x),
        None => Seq::empty(),
    }
}

/// Size of the wire form of a property that may be absent: the identifier
/// byte and the value where it is present.
#[verifier::opaque]
pub open spec fn optional_size(v: Option<ValueView>) -> int {
    match v {
        Some(x) => 1 + value_bytes(x).len() as int,
        None => 0,
    }
}

/// The wire form of a list of user properties, in the list's order.
pub open spec fn user_bytes(pairs: Seq<(Seq<char>, Seq<char>)>) -> Seq<u8>
    decreases pairs.len(),
{
    if pairs.len() == 0 {
        Seq::empty()
    } else {
        property_bytes(Property::UserProperty, ValueView::Pair(pairs[0].0, pairs[0].1))
            + user_bytes(pairs.drop_first())
    }
}

/// Whether an optional text can be length-prefixed: absent, or at most
/// 65 535 bytes of UTF-8.
pub open spec fn text_fits(v: Option<Seq<char>>) -> bool {
    v matches Some(x) ==> encode_utf8(x).len() <= MAX_FIELD
}

/// Whether an optional blob can be length-prefixed: absent, or at most
/// 65 535 bytes.
pub open spec fn blob_fits(v: Option<Seq<u8>>) -> bool {
    v matches Some(x) ==> x.len() <= MAX_FIELD
}

/// Whether every name and value of a list of user properties can be
/// length-prefixed.
pub open spec fn pairs_fit(pairs: Seq<(Seq<char>, Seq<char>)>) -> bool {
    forall|i: int|
        0 <= i < pairs.len() ==> encode_utf8(#[trigger] pairs[i].0).len() <= MAX_FIELD
            && encode_utf8(pairs[i].1).len() <= MAX_FIELD
}

/// Appends a one-byte property where it is present.
pub(crate) fn put_byte_prop(dst: &mut BytesMut, p: Property, v: Option<u8>)
    requires
        buf::bytes_mut_view(*old(dst)).len() + optional_bytes(p, byte_value(v)).len()
            <= buf::max_buf_len(),
    ensures
        buf::bytes_mut_view(*final(dst)) == buf::bytes_mut_view(*old(dst)) + optional_bytes(
            p,
            byte_value(v),
        ),
{
    reveal(optional_bytes);
    let ghost start = buf::bytes_mut_view(*dst);
    if let Some(x) = v {
        buf::put_u8(dst, p.code());
        buf::put_u8(dst, x);
    }
    assert(buf::bytes_mut_view(*dst) =~= start + optional_bytes(p, byte_value(v)));
}

/// Appends a two-byte property where it is present.
pub(crate) fn put_two_byte_prop(dst: &mut BytesMut, p: Property, v: Option<u16>)
    requires
        buf::bytes_mut_view(*old(dst)).len() + optional_bytes(p, two_byte_value(v)).len()
            <= buf::max_buf_len(),
    ensures
        buf::bytes_mut_view(*final(dst)) == buf::bytes_mut_view(*old(dst)) + optional_bytes(
            p,
            two_byte_value(v),
        ),
{
    reveal(optional_bytes);
    let ghost start = buf::bytes_mut_view(*dst);
    if let Some(x) = v {
        buf::put_u8(dst, p.code());
        buf::put_u16(dst, x);
    }
    assert(buf::bytes_mut_view(*dst) =~= start + optional_bytes(p, two_byte_value(v)));
}

/// Appends a four-byte property where it is present.
pub(crate) fn put_four_byte_prop(dst: &mut BytesMut, p: Property, v: Option<u32>)
    requires
        buf::bytes_mut_view(*old(dst)).len() + optional_bytes(p, four_byte_value(v)).len()
            <= buf::max_buf_len(),
    ensures
        buf::bytes_mut_view(*final(dst)) == buf::bytes_mut_view(*old(dst)) + optional_bytes(
            p,
            four_byte_value(v),
        ),
{
    reveal(optional_bytes);
    let ghost start = buf::bytes_mut_view(*dst);
    if let Some(x) = v {
        buf::put_u8(dst, p.code());
        buf::put_u32(dst, x);
    }
    assert(buf::bytes_mut_view(*dst) =~= start + optional_bytes(p, four_byte_value(v)));
}

/// Appends a text property where it is present.
pub(crate) fn put_text_prop(dst: &mut BytesMut, p: Property, v: &Option<String>)
    requires
        text_fits(text_view(*v)),
        buf::bytes_mut_view(*old(dst)).len() + optional_bytes(p, text_value(text_view(*v))).len()
            <= buf::max_buf_len(),
    ensures
        buf::bytes_mut_view(*final(dst)) == buf::bytes_mut_view(*old(dst)) + optional_bytes(
            p,
            text_value(text_view(*v)),
        ),
{
    reveal(optional_bytes);
    let ghost start = buf::bytes_mut_view(*dst);
    if let Some(x) = v {
        buf::put_u8(dst, p.code());
        put_string(dst, x.as_str());
    }
    assert(buf::bytes_mut_view(*dst) =~= start + optional_bytes(p, text_value(text_view(*v))));
}

/// Appends a blob property where it is present.
pub(crate) fn put_binary_prop(dst: &mut BytesMut, p: Property, v: &Option<Vec<u8>>)
    requires
        blob_fits(blob_view(*v)),
        buf::bytes_mut_view(*old(dst)).len() + optional_bytes(p, binary_value(blob_view(*v))).len()
            <= buf::max_buf_len(),
    ensures
        buf::bytes_mut_view(*final(dst)) == buf::bytes_mut_view(*old(dst)) + optional_bytes(
            p,
            binary_value(blob_view(*v)),
        ),
{
    reveal(optional_bytes);
    let ghost start = buf::bytes_mut_view(*dst);
    if let Some(x) = v {
        buf::put_u8(dst, p.code());
        put_binary(dst, x.as_slice());
    }
    assert(buf::bytes_mut_view(*dst) =~= start + optional_bytes(p, binary_value(blob_view(*v))));
}

/// Appends a list of user properties in the list's order.
pub(crate) fn put_user_props(dst: &mut BytesMut, pairs: &Vec<(String, String)>)
    requires
        pairs_fit(pairs_view(pairs@)),
        buf::bytes_mut_view(*old(dst)).len() + user_bytes(pairs_view(pairs@)).len()
            <= buf::max_buf_len(),
    ensures
        buf::bytes_mut_view(*final(dst)) == buf::bytes_mut_view(*old(dst)) + user_bytes(
            pairs_view(pairs@),
        ),
{
    let ghost start = buf::bytes_mut_view(*dst);
    let ghost all = pairs_view(pairs@);
    let mut i: usize = 0;
    assert(all.take(0) =~= Seq::empty());
    while i < pairs.len()
        invariant
            i <= pairs@.len(),
            all == pairs_view(pairs@),
            pairs_fit(all),
            start.len() + user_bytes(all).len() <= buf::max_buf_len(),
            buf::bytes_mut_view(*dst) == start + user_bytes(all.take(i as int)),
        decreases pairs@.len() - i,
    {
        let ghost before = buf::bytes_mut_view(*dst);
        proof {
            lemma_user_bytes_prefix(all, i as int + 1);
            assert(all.take(i as int + 1) =~= all.take(i as int).push(all[i as int]));
            lemma_user_bytes_push(all.take(i as int), all[i as int]);
            assert(encode_utf8(all[i as int].0).len() <= MAX_FIELD);
        }
        let pair = &pairs[i];
        buf::put_u8(dst, Property::UserProperty.code());
        put_string(dst, pair.0.as_str());
        put_string(dst, pair.1.as_str());
        assert(buf::bytes_mut_view(*dst) =~= before + property_bytes(
            Property::UserProperty,
            ValueView::Pair(all[i as int].0, all[i as int].1),
        ));
        assert(buf::bytes_mut_view(*dst) =~= start + user_bytes(all.take(i as int + 1)));
        i += 1;
    }
    assert(all.take(i as int) =~= all);
}

/// Size of the wire form of a one-byte property that may be absent.
pub(crate) fn byte_size_of(v: &Option<u8>) -> (n: usize)
    ensures
        n == optional_size(byte_value(*v)),
{
    reveal(optional_size);
    if v.is_some() {
        1 + 1
    } else {
        0
    }
}

/// Size of the wire form of a two-byte property that may be absent.
pub(crate) fn two_byte_size_of(v: &Option<u16>) -> (n: usize)
    ensures
        n == optional_size(two_byte_value(*v)),
{
    reveal(optional_size);
    if v.is_some() {
        1 + 2
    } else {
        0
    }
}

/// Size of the wire form of a four-byte property that may be absent.
pub(crate) fn four_byte_size_of(v: &Option<u32>) -> (n: usize)
    ensures
        n == optional_size(four_byte_value(*v)),
{
    reveal(optional_size);
    if v.is_some() {
        1 + 4
    } else {
        0
    }
}

/// Size of the wire form of a text property that may be absent.
pub(crate) fn text_size_of(v: &Option<String>) -> (n: usize)
    requires
        optional_size(text_value(text_view(*v))) <= usize::MAX,
    ensures
        n == optional_size(text_value(text_view(*v))),
{
    reveal(optional_size);
    if let Some(ref text) = v {
        1 + 2 + text_len(text.as_str())
    } else {
        0
    }
}

/// Size of the wire form of a blob property that may be absent.
pub(crate) fn binary_size_of(v: &Option<Vec<u8>>) -> (n: usize)
    requires
        optional_size(binary_value(blob_view(*v))) <= usize::MAX,
    ensures
        n == optional_size(binary_value(blob_view(*v))),
{
    reveal(optional_size);
    if let Some(ref blob) = v {
        1 + 2 + blob.len()
    } else {
        0
    }
}

/// Whether an optional text fits its length prefix.
pub(crate) fn text_fits_of(v: &Option<String>) -> (b: bool)
    ensures
        b == text_fits(text_view(*v)),
{
    match v {
        Some(text) => text_len(text.as_str()) <= MAX_FIELD,
        None => true,
    }
}

/// Whether an optional blob fits its length prefix.
pub(crate) fn blob_fits_of(v: &Option<Vec<u8>>) -> (b: bool)
    ensures
        b == blob_fits(blob_view(*v)),
{
    match v {
        Some(blob) => blob.len() <= MAX_FIELD,
        None => true,
    }
}

/// The wire form of a property that may be absent has the size that
/// `optional_size` gives: nothing where it is absent, 2, 3 and 5 bytes for
/// the values of fixed size, and no more than 65 538 bytes for a text or a
/// blob that fits its length prefix.
pub proof fn lemma_optional_size(p: Property, v: Option<ValueView>)
    ensures
        optional_bytes(p, v).len() == optional_size(v),
        optional_size(v) >= 0,
        v is None ==> optional_size(v) == 0,
        v matches Some(ValueView::Byte(_)) ==> optional_size(v) == 2,
        v matches Some(ValueView::TwoByte(_)) ==> optional_size(v) == 3,
        v matches Some(ValueView::FourByte(_)) ==> optional_size(v) == 5,
        v matches Some(ValueView::Text(t)) ==> optional_size(v) == 3 + encode_utf8(t).len(),
        v matches Some(ValueView::Binary(b)) ==> optional_size(v) == 3 + b.len(),
{
    reveal(optional_bytes);
    reveal(optional_size);
}

/// Reading the wire form of a property gives the property back, whatever
/// bytes follow: the value must have the shape that the identifier asks for
/// and be one that can be written.
pub proof fn lemma_take_property(p: Property, v: ValueView, rest: Seq<u8>)
    requires
        kind_of(v) == spec_kind(p),
        value_fits(v),
    ensures
        take_property(property_bytes(p, v) + rest) == Ok::<
            ((Property, ValueView), Seq<u8>),
            Error,
        >(((p, v), rest)),
{
    let s = property_bytes(p, v) + rest;
    let tail = value_bytes(v) + rest;
    assert(s[0] == p.spec_code());
    assert(s.skip(1) =~= tail);
    assert(Property::spec_from(p.spec_code()) == Some(p));
    match v {
        ValueView::Byte(b) => {
            assert(tail[0] == b);
            assert(tail.skip(1) =~= rest);
        },
        ValueView::TwoByte(x) => {
            lemma_take_u16(x, rest);
        },
        ValueView::FourByte(x) => {
            lemma_take_u32(x, rest);
        },
        ValueView::VarInt(x) => {
            lemma_take_len(x, rest);
        },
        ValueView::Text(t) => {
            lemma_take_string(t, rest);
        },
        ValueView::Binary(b) => {
            lemma_take_binary(b, rest);
        },
        ValueView::Pair(k, x) => {
            lemma_take_string(k, string_bytes(x) + rest);
            lemma_take_string(x, rest);
            assert(tail =~= string_bytes(k) + (string_bytes(x) + rest));
        },
    }
}

/// A text, a blob or a pair of texts whose declared length reaches past the
/// end of its property block makes the block malformed.
pub proof fn lemma_field_overflows_block(block: Seq<u8>)
    requires
        block.len() >= 1,
        Property::spec_from(block[0]) matches Some(p) && (spec_kind(p) == Kind::Text || spec_kind(p)
            == Kind::Binary || spec_kind(p) == Kind::Pair),
        field_short(block.skip(1)),
    ensures
        take_property(block) == Err::<((Property, ValueView), Seq<u8>), Error>(
            Error::MalformedPacket,
        ),
{
}

/// Where a list of user properties can be written, so can its first one and
/// the rest of the list.
pub proof fn lemma_pairs_fit_tail(pairs: Seq<(Seq<char>, Seq<char>)>)
    requires
        pairs_fit(pairs),
        pairs.len() > 0,
    ensures
        value_fits(ValueView::Pair(pairs[0].0, pairs[0].1)),
        pairs_fit(pairs.drop_first()),
{
    let tail = pairs.drop_first();
    assert(encode_utf8(pairs[0].0).len() <= MAX_FIELD);
    assert forall|i: int| 0 <= i < tail.len() implies encode_utf8(#[trigger] tail[i].0).len()
        <= MAX_FIELD && encode_utf8(tail[i].1).len() <= MAX_FIELD by {
        assert(tail[i] == pairs[i + 1]);
        assert(encode_utf8(pairs[i + 1].0).len() <= MAX_FIELD);
    }
}

/// The wire form of a list of user properties with one more at its end is
/// the wire form of the list followed by that of the one.
pub proof fn lemma_user_bytes_push(pairs: Seq<(Seq<char>, Seq<char>)>, last: (Seq<char>, Seq<char>))
    ensures
        user_bytes(pairs.push(last)) == user_bytes(pairs) + property_bytes(
            Property::UserProperty,
            ValueView::Pair(last.0, last.1),
        ),
    decreases pairs.len(),
{
    if pairs.len() == 0 {
        assert(pairs.push(last).drop_first() =~= Seq::empty());
        assert(user_bytes(pairs.push(last).drop_first()) =~= Seq::empty());
        assert(user_bytes(pairs.push(last)) =~= property_bytes(
            Property::UserProperty,
            ValueView::Pair(last.0, last.1),
        ));
    } else {
        assert(pairs.push(last).drop_first() =~= pairs.drop_first().push(last));
        lemma_user_bytes_push(pairs.drop_first(), last);
        assert(user_bytes(pairs.push(last)) =~= user_bytes(pairs) + property_bytes(
            Property::UserProperty,
            ValueView::Pair(last.0, last.1),
        ));
    }
}

/// A list of user properties takes at least as many bytes as any of its
/// prefixes.
pub proof fn lemma_user_bytes_prefix(pairs: Seq<(Seq<char>, Seq<char>)>, n: int)
    requires
        0 <= n <= pairs.len(),
    ensures
        user_bytes(pairs.take(n)).len() <= user_bytes(pairs).len(),
    decreases pairs.len() - n,
{
    if n == pairs.len() {
        assert(pairs.take(n) =~= pairs);
    } else {
        lemma_user_bytes_prefix(pairs, n + 1);
        assert(pairs.take(n + 1) =~= pairs.take(n).push(pairs[n]));
        lemma_user_bytes_push(pairs.take(n), pairs[n]);
    }
}

} // verus!

//! Fields of a packet body.
//!
//! A body has a known end, so a field that does not fit before it is not
//! waited for: it makes the packet malformed.

use super::{
    binary_bytes, decode_binary, decode_len, decode_string, field_payload, field_rest,
    field_short, lemma_len_round_trip, spec_decode_len, spec_encode_len, string_bytes, Error,
    MAX_FIELD, MAX_LEN,
};
use crate::buf;
use bytes::Bytes;
use vstd::prelude::*;
use vstd::utf8::{decode_utf8, encode_utf8, valid_utf8};

verus! {

/// The byte at the head of `s` and what follows it.
pub open spec fn take_u8(s: Seq<u8>) -> Result<(u8, Seq<u8>), Error> {
    if s.len() < 1 {
        Err(Error::MalformedPacket)
    } else {
        Ok((s[0], s.skip(1)))
    }
}

/// The big-endian 16-bit integer at the head of `s` and what follows it.
pub open spec fn take_u16(s: Seq<u8>) -> Result<(u16, Seq<u8>), Error> {
    if s.len() < 2 {
        Err(Error::MalformedPacket)
    } else {
        Ok((buf::be_u16(s) as u16, s.skip(2)))
    }
}

/// The big-endian 32-bit integer at the head of `s` and what follows it.
pub open spec fn take_u32(s: Seq<u8>) -> Result<(u32, Seq<u8>), Error> {
    if s.len() < 4 {
        Err(Error::MalformedPacket)
    } else {
        Ok((buf::be_u32(s) as u32, s.skip(4)))
    }
}

/// The variable-length integer at the head of `s` and what follows it.
pub open spec fn take_len(s: Seq<u8>) -> Result<(u32, Seq<u8>), Error> {
    match spec_decode_len(s) {
        Ok(Some((v, k))) => Ok((v as u32, s.skip(k as int))),
        _ => Err(Error::MalformedPacket),
    }
}

/// The blob at the head of `s` and what follows it.
pub open spec fn take_binary(s: Seq<u8>) -> Result<(Seq<u8>, Seq<u8>), Error> {
    if field_short(s) {
        Err(Error::MalformedPacket)
    } else {
        Ok((field_payload(s), field_rest(s)))
    }
}

/// The string at the head of `s` and what follows it; a payload that is not
/// UTF-8 is a `ProtocolError`.
pub open spec fn take_string(s: Seq<u8>) -> Result<(Seq<char>, Seq<u8>), Error> {
    if field_short(s) {
        Err(Error::MalformedPacket)
    } else if !valid_utf8(field_payload(s)) {
        Err(Error::ProtocolError)
    } else {
        Ok((decode_utf8(field_payload(s)), field_rest(s)))
    }
}

/// Reads one byte of a packet body.
pub(crate) fn read_u8(src: &mut Bytes) -> (res: Result<u8, Error>)
    ensures
        match take_u8(buf::bytes_view(*old(src))) {
            Ok((v, rest)) => res == Ok::<u8, Error>(v) && buf::bytes_view(*final(src)) == rest,
            Err(e) => res == Err::<u8, Error>(e),
        },
{
    if buf::remaining(src) < 1 {
        return Err(Error::MalformedPacket);
    }
    Ok(buf::get_u8(src))
}

/// Reads a 16-bit integer of a packet body.
pub(crate) fn read_u16(src: &mut Bytes) -> (res: Result<u16, Error>)
    ensures
        match take_u16(buf::bytes_view(*old(src))) {
            Ok((v, rest)) => res == Ok::<u16, Error>(v) && buf::bytes_view(*final(src)) == rest,
            Err(e) => res == Err::<u16, Error>(e),
        },
{
    if buf::remaining(src) < 2 {
        return Err(Error::MalformedPacket);
    }
    Ok(buf::get_u16(src))
}

/// Reads a 32-bit integer of a packet body.
pub(crate) fn read_u32(src: &mut Bytes) -> (res: Result<u32, Error>)
    ensures
        match take_u32(buf::bytes_view(*old(src))) {
            Ok((v, rest)) => res == Ok::<u32, Error>(v) && buf::bytes_view(*final(src)) == rest,
            Err(e) => res == Err::<u32, Error>(e),
        },
{
    if buf::remaining(src) < 4 {
        return Err(Error::MalformedPacket);
    }
    Ok(buf::get_u32(src))
}

/// Reads a variable-length integer of a packet body.
pub(crate) fn read_len(src: &mut Bytes) -> (res: Result<u32, Error>)
    ensures
        match take_len(buf::bytes_view(*old(src))) {
            Ok((v, rest)) => res == Ok::<u32, Error>(v) && buf::bytes_view(*final(src)) == rest,
            Err(e) => res == Err::<u32, Error>(e),
        },
{
    match decode_len(buf::chunk(src)) {
        Ok(Some((len, len_len))) => {
            buf::advance(src, len_len);
            Ok(len as u32)
        },
        _ => Err(Error::MalformedPacket),
    }
}

/// Reads a blob of a packet body.
pub(crate) fn read_binary(src: &mut Bytes) -> (res: Result<Vec<u8>, Error>)
    ensures
        match take_binary(buf::bytes_view(*old(src))) {
            Ok((v, rest)) => (res matches Ok(got) && got@ == v) && buf::bytes_view(*final(src))
                == rest,
            Err(e) => res == Err::<Vec<u8>, Error>(e),
        },
{
    match decode_binary(src) {
        Some(payload) => Ok(payload),
        None => Err(Error::MalformedPacket),
    }
}

/// Reads a string of a packet body.
pub(crate) fn read_string(src: &mut Bytes) -> (res: Result<String, Error>)
    ensures
        match take_string(buf::bytes_view(*old(src))) {
            Ok((v, rest)) => (res matches Ok(got) && got@ == v) && buf::bytes_view(*final(src))
                == rest,
            Err(e) => res == Err::<String, Error>(e),
        },
{
    match decode_string(src) {
        Ok(Some(text)) => Ok(text),
        Ok(None) => Err(Error::MalformedPacket),
        Err(e) => Err(e),
    }
}

/// Reading what `u16_bytes` wrote gives the integer back.
pub proof fn lemma_take_u16(x: u16, rest: Seq<u8>)
    ensures
        take_u16(buf::u16_bytes(x) + rest) == Ok::<(u16, Seq<u8>), Error>((x, rest)),
{
    let s = buf::u16_bytes(x) + rest;
    assert(s[0] == (x / 256) as u8 && s[1] == (x % 256) as u8);
    assert(s.skip(2) =~= rest);
}

/// Reading what `u32_bytes` wrote gives the integer back.
pub proof fn lemma_take_u32(x: u32, rest: Seq<u8>)
    ensures
        take_u32(buf::u32_bytes(x) + rest) == Ok::<(u32, Seq<u8>), Error>((x, rest)),
{
    let s = buf::u32_bytes(x) + rest;
    assert(s[0] == (x / 0x100_0000) as u8 && s[1] == (x / 0x1_0000 % 256) as u8 && s[2] == (x
        / 0x100 % 256) as u8 && s[3] == (x % 256) as u8);
    assert(s.skip(4) =~= rest);
}

/// Reading the encoding of a length gives the length back.
pub proof fn lemma_take_len(x: u32, rest: Seq<u8>)
    requires
        x <= MAX_LEN,
    ensures
        take_len(spec_encode_len(x as nat) + rest) == Ok::<(u32, Seq<u8>), Error>((x, rest)),
{
    lemma_len_round_trip(x as nat, rest);
    assert((spec_encode_len(x as nat) + rest).skip(spec_encode_len(x as nat).len() as int)
        =~= rest);
}

/// Reading the wire form of a blob of at most 65 535 bytes gives the blob
/// back.
pub proof fn lemma_take_binary(payload: Seq<u8>, rest: Seq<u8>)
    requires
        payload.len() <= MAX_FIELD,
    ensures
        take_binary(binary_bytes(payload) + rest) == Ok::<(Seq<u8>, Seq<u8>), Error>(
            (payload, rest),
        ),
{
    let s = binary_bytes(payload) + rest;
    let n = payload.len() as u16;
    assert(s[0] == (n / 256) as u8 && s[1] == (n % 256) as u8);
    assert(buf::be_u16(s) == payload.len());
    assert(field_payload(s) =~= payload);
    assert(field_rest(s) =~= rest);
}

/// Reading the wire form of a text of at most 65 535 bytes gives the text
/// back.
pub proof fn lemma_take_string(text: Seq<char>, rest: Seq<u8>)
    requires
        encode_utf8(text).len() <= MAX_FIELD,
    ensures
        take_string(string_bytes(text) + rest) == Ok::<(Seq<char>, Seq<u8>), Error>(
            (text, rest),
        ),
{
    lemma_take_binary(encode_utf8(text), rest);
    vstd::utf8::encode_utf8_valid_utf8(text);
    vstd::utf8::encode_utf8_decode_utf8(text);
}

} // verus!

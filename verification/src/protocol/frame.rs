//! Cutting a byte stream into frames.
//!
//! A frame is the fixed header, which is the type byte and the size of the
//! body as a variable-length integer, and then the body. A dialect codec
//! looks at what is buffered and either asks for more, refuses the header,
//! or takes a whole frame out of the buffer.

use super::connack::parse_connack;
use super::connect::parse_connect;
use super::{decode_len, spec_decode_len, Error, PacketType, PacketView, Version};
use crate::buf;
use bytes::{Bytes, BytesMut};
use vstd::prelude::*;
use vstd::slice::slice_subrange;

verus! {

/// The cap on a body's size where none is configured: 256 KiB.
pub const DEFAULT_MAX_PACKET_SIZE: usize = 262_144;

/// What a dialect codec makes of the bytes buffered so far.
pub enum Frame {
    /// The frame is not all there yet.
    Pending,
    /// The fixed header is refused; nothing is taken from the buffer.
    Refused(Error),
    /// A whole frame: its type, its size with the fixed header, its body.
    Ready(PacketType, int, Seq<u8>),
}

/// The packet type that a type byte announces to `version`. The high nibble
/// is the type, which must be one of 1 to 15, and AUTH exists under MQTT 5
/// only. The low nibble holds the flags, which CONNECT and CONNACK want
/// clear.
pub open spec fn spec_packet_type(b: u8, version: Version) -> Option<PacketType> {
    let t = b >> 4;
    let flags = b & 0x0F;
    if t == 0 {
        None
    } else if t == 15 && version == Version::V3 {
        None
    } else if (t == 1 || t == 2) && flags != 0 {
        None
    } else {
        Some(spec_type_of(t))
    }
}

/// The packet type with wire value `t`.
pub open spec fn spec_type_of(t: u8) -> PacketType {
    if t == 0 {
        PacketType::Reserved
    } else if t == 1 {
        PacketType::Connect
    } else if t == 2 {
        PacketType::ConnAck
    } else if t == 3 {
        PacketType::Publish
    } else if t == 4 {
        PacketType::PubAck
    } else if t == 5 {
        PacketType::PubRec
    } else if t == 6 {
        PacketType::PubRel
    } else if t == 7 {
        PacketType::PubComp
    } else if t == 8 {
        PacketType::Subscribe
    } else if t == 9 {
        PacketType::SubAck
    } else if t == 10 {
        PacketType::Unsubscribe
    } else if t == 11 {
        PacketType::UnsubAck
    } else if t == 12 {
        PacketType::PingReq
    } else if t == 13 {
        PacketType::PingResp
    } else if t == 14 {
        PacketType::Disconnect
    } else {
        PacketType::Auth
    }
}

/// The frame at the head of `s`.
///
/// With fewer than two bytes nothing is decided. Then the type byte is
/// judged, then the size: a size that is not all there leaves the frame
/// pending, one above `cap` is `LenTooLong`. A frame is ready once the
/// buffer holds all of it.
pub open spec fn spec_frame(s: Seq<u8>, version: Version, cap: int) -> Frame {
    if s.len() < 2 {
        Frame::Pending
    } else {
        match spec_packet_type(s[0], version) {
            None => Frame::Refused(Error::MalformedPacket),
            Some(t) => match spec_decode_len(s.skip(1)) {
                Err(e) => Frame::Refused(e),
                Ok(None) => Frame::Pending,
                Ok(Some((len, k))) => if len > cap {
                    Frame::Refused(Error::LenTooLong)
                } else if s.len() < 1 + k + len {
                    Frame::Pending
                } else {
                    Frame::Ready(
                        t,
                        (1 + k + len) as int,
                        s.subrange((1 + k) as int, (1 + k + len) as int),
                    )
                },
            },
        }
    }
}

/// What a dialect codec returns for the bytes buffered so far: nothing while
/// the frame is pending, else the packet with the frame's size, or the error
/// of the header or of the body. A frame of a type other than CONNECT and
/// CONNACK is a `MalformedPacket`.
pub open spec fn spec_decode(s: Seq<u8>, version: Version, cap: int) -> Result<
    Option<(PacketView, int)>,
    Error,
> {
    match spec_frame(s, version, cap) {
        Frame::Pending => Ok(None),
        Frame::Refused(e) => Err(e),
        Frame::Ready(t, size, body) => match t {
            PacketType::Connect => match parse_connect(body, version) {
                Ok(c) => Ok(Some((PacketView::Connect(c), size))),
                Err(e) => Err(e),
            },
            PacketType::ConnAck => match parse_connack(body, version) {
                Ok(c) => Ok(Some((PacketView::ConnAck(c), size))),
                Err(e) => Err(e),
            },
            _ => Err(Error::MalformedPacket),
        },
    }
}

/// What a dialect codec leaves in the buffer: everything unless a whole
/// frame was there, and then what follows the frame, whether or not its body
/// could be decoded.
pub open spec fn spec_remainder(s: Seq<u8>, version: Version, cap: int) -> Seq<u8> {
    match spec_frame(s, version, cap) {
        Frame::Ready(_, size, _) => s.skip(size),
        _ => s,
    }
}

/// Judges a type byte for `version`.
pub(crate) fn packet_type(b: u8, version: Version) -> (res: Option<PacketType>)
    ensures
        res == spec_packet_type(b, version),
{
    let t = b >> 4;
    let flags = b & 0x0F;
    assert(b >> 4 <= 15) by (bit_vector);
    match PacketType::try_from(t) {
        Ok(PacketType::Reserved) => None,
        Ok(PacketType::Auth) => match version {
            Version::V3 => None,
            Version::V5 => Some(PacketType::Auth),
        },
        Ok(PacketType::Connect) => if flags != 0 {
            None
        } else {
            Some(PacketType::Connect)
        },
        Ok(PacketType::ConnAck) => if flags != 0 {
            None
        } else {
            Some(PacketType::ConnAck)
        },
        Ok(other) => Some(other),
        Err(_) => None,
    }
}

/// Takes the frame at the head of `src` out of it, where a whole one is
/// there, and hands over its type, its body and its size. A frame known to
/// be longer than what is buffered has room reserved for it.
pub(crate) fn split_frame(src: &mut BytesMut, version: Version, cap: usize) -> (res: Result<
    Option<(PacketType, Bytes, u32)>,
    Error,
>)
    ensures
        match spec_frame(buf::bytes_mut_view(*old(src)), version, cap as int) {
            Frame::Pending => res matches Ok(None) && buf::bytes_mut_view(*final(src))
                == buf::bytes_mut_view(*old(src)),
            Frame::Refused(e) => (res matches Err(got) && got == e) && buf::bytes_mut_view(
                *final(src),
            ) == buf::bytes_mut_view(*old(src)),
            Frame::Ready(t, size, body) => (res matches Ok(Some(got)) && got.0 == t
                && buf::bytes_view(got.1) == body && got.2 == size) && buf::bytes_mut_view(
                *final(src),
            ) == buf::bytes_mut_view(*old(src)).skip(size),
        },
{
    let ghost s = buf::bytes_mut_view(*src);

    // Check minimum length
    if buf::len(src) < 2 {
        return Ok(None);
    }
    // Packet type
    let bytes = buf::as_slice(src);
    let packet_type = match packet_type(bytes[0], version) {
        Some(t) => t,
        None => return Err(Error::MalformedPacket),
    };

    // Decode remaining length
    assert(s.subrange(1, s.len() as int) =~= s.skip(1));
    let (len, len_len) = match decode_len(slice_subrange(bytes, 1, bytes.len()))? {
        Some(found) => found,
        None => return Ok(None),
    };
    if len > cap {
        return Err(Error::LenTooLong);
    }
    let packet_size = 1 + len_len + len;
    if buf::len(src) < packet_size {
        buf::reserve(src, packet_size);
        return Ok(None);
    }
    buf::advance_mut(src, len_len + 1);
    let body = buf::freeze(buf::split_to_mut(src, len));
    assert(buf::bytes_view(body) =~= s.subrange(1 + len_len, 1 + len_len + len));
    assert(buf::bytes_mut_view(*src) =~= s.skip(packet_size as int));
    Ok(Some((packet_type, body, packet_size as u32)))
}

} // verus!

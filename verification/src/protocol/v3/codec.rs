//! The codec for MQTT 3.1 and 3.1.1.

use super::{connack, connect};
use crate::buf;
use crate::protocol::connack::{connack_encodable, connack_frame};
use crate::protocol::frame::{
    spec_decode, spec_remainder, split_frame, DEFAULT_MAX_PACKET_SIZE,
};
use crate::protocol::{Error, Packet, PacketType, PacketView, Version};
use bytes::BytesMut;
use vstd::prelude::*;

verus! {

/// Decodes and encodes whole packets of MQTT 3.1 and 3.1.1.
#[derive(Debug, Clone, Copy, PartialEq, Eq, Structural)]
pub struct Codec {
    /// The largest body that is accepted.
    pub max_packet_size: usize,
}

impl Default for Codec {
    fn default() -> (codec: Codec)
        ensures
            codec.max_packet_size == DEFAULT_MAX_PACKET_SIZE,
    {
        Codec { max_packet_size: DEFAULT_MAX_PACKET_SIZE }
    }
}

impl Codec {
    /// A codec that accepts bodies of up to `max_packet_size` bytes.
    pub fn new(max_packet_size: usize) -> (codec: Codec)
        ensures
            codec.max_packet_size == max_packet_size,
    {
        Codec { max_packet_size }
    }

    /// Takes the next packet out of `src`.
    ///
    /// Returns `None`, leaving `src` as it is, until `src` holds a whole
    /// frame. A fixed header that is refused also leaves `src` as it is. A
    /// whole frame is taken out of `src`, and the result is its packet
    /// together with the frame's size, or the error of its body.
    pub fn decode(&mut self, src: &mut BytesMut) -> (res: Result<Option<(Packet, u32)>, Error>)
        ensures
            *final(self) == *old(self),
            match spec_decode(
                buf::bytes_mut_view(*old(src)),
                Version::V3,
                old(self).max_packet_size as int,
            ) {
                Ok(Some((packet, size))) => res matches Ok(Some(got)) && got.0@ == packet && got.1
                    == size,
                Ok(None) => res matches Ok(None),
                Err(e) => res matches Err(got) && got == e,
            },
            buf::bytes_mut_view(*final(src)) == spec_remainder(
                buf::bytes_mut_view(*old(src)),
                Version::V3,
                old(self).max_packet_size as int,
            ),
    {
        // Split the frame off
        let (packet_type, bytes, packet_size) = match split_frame(
            src,
            Version::V3,
            self.max_packet_size,
        )? {
            Some(frame) => frame,
            None => return Ok(None),
        };

        // Decode packet
        let packet = match packet_type {
            PacketType::Connect => Packet::Connect(connect::decode(bytes)?),
            PacketType::ConnAck => Packet::ConnAck(connack::decode(bytes)?),
            _ => return Err(Error::MalformedPacket),
        };

        Ok(Some((packet, packet_size)))
    }

    /// Writes `item` to `dst` as one frame.
    ///
    /// Only CONNACK can be written. Any other packet is a `ProtocolError`,
    /// and a CONNACK that is too long to be sent, or for which `dst` has
    /// no room, is `LenTooLong`; either way `dst` stays as it was.
    pub fn encode(&mut self, item: Packet, dst: &mut BytesMut) -> (res: Result<(), Error>)
        ensures
            *final(self) == *old(self),
            match item@ {
                PacketView::ConnAck(c) => {
                    &&& res is Ok <==> connack_encodable(c, Version::V3) && buf::bytes_mut_view(
                        *old(dst),
                    ).len() + connack_frame(c, Version::V3).len() <= buf::max_buf_len()
                    &&& res is Ok ==> buf::bytes_mut_view(*final(dst)) == buf::bytes_mut_view(
                        *old(dst),
                    ) + connack_frame(c, Version::V3)
                    &&& res is Err ==> res == Err::<(), Error>(Error::LenTooLong)
                },
                _ => res == Err::<(), Error>(Error::ProtocolError),
            },
            res is Err ==> buf::bytes_mut_view(*final(dst)) == buf::bytes_mut_view(*old(dst)),
    {
        match item {
            Packet::ConnAck(packet) => connack::encode(packet, dst),
            _ => Err(Error::ProtocolError),
        }
    }
}

} // verus!

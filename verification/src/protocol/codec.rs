//! The framer of a connection: one codec that starts as the probe and is
//! switched, once, to the dialect that the probe finds.

use super::connack::{connack_encodable, connack_frame};
use super::frame::{spec_decode, spec_remainder};
use super::version::spec_probe;
use super::{v3, v5, version, Error, Packet, PacketView, Version};
use crate::buf;
use bytes::BytesMut;
use vstd::prelude::*;

verus! {

/// The codec in use on a connection.
#[derive(Debug, Clone, Copy, PartialEq, Eq, Structural)]
pub enum Codec {
    V3(v3::Codec),
    V5(v5::Codec),
    Version(version::Codec),
}

impl Codec {
    /// The dialect this codec speaks, or `None` while it still probes.
    pub open spec fn dialect(self) -> Option<Version> {
        match self {
            Codec::V3(_) => Some(Version::V3),
            Codec::V5(_) => Some(Version::V5),
            Codec::Version(_) => None,
        }
    }

    /// The largest body this codec accepts, or hands on to the codec it is
    /// switched to.
    pub open spec fn cap(self) -> usize {
        match self {
            Codec::V3(c) => c.max_packet_size,
            Codec::V5(c) => c.max_packet_size,
            Codec::Version(c) => c.max_packet_size,
        }
    }

    /// What `decode` returns for the bytes `s`: what the probe makes of
    /// them, with a size of 0, while probing, and what the dialect's codec
    /// makes of them after that.
    pub open spec fn spec_decode(self, s: Seq<u8>) -> Result<Option<(PacketView, int)>, Error> {
        match self.dialect() {
            Some(v) => spec_decode(s, v, self.cap() as int),
            None => match spec_probe(s) {
                Ok(Some(v)) => Ok(Some((PacketView::Version(v), 0))),
                Ok(None) => Ok(None),
                Err(e) => Err(e),
            },
        }
    }

    /// What `decode` leaves of the bytes `s`: all of them while probing.
    pub open spec fn spec_remainder(self, s: Seq<u8>) -> Seq<u8> {
        match self.dialect() {
            Some(v) => spec_remainder(s, v, self.cap() as int),
            None => s,
        }
    }

    /// A codec in its first state: probing, for a connection whose packets
    /// may have bodies of up to `max_packet_size` bytes.
    pub fn new(max_packet_size: usize) -> (codec: Codec)
        ensures
            codec.dialect() is None,
            codec.cap() == max_packet_size,
    {
        Codec::Version(version::Codec::new(max_packet_size))
    }

    /// Switches a probing codec to the codec of `version`, which takes the
    /// cap over. A codec that has a dialect keeps it: the switch happens
    /// once. Returns whether the codec was probing.
    pub fn switch(&mut self, version: Version) -> (switched: bool)
        ensures
            switched == (old(self).dialect() is None),
            switched ==> final(self).dialect() == Some(version),
            !switched ==> *final(self) == *old(self),
            final(self).cap() == old(self).cap(),
    {
        match *self {
            Codec::Version(probe) => {
                *self = match version {
                    Version::V3 => Codec::V3(v3::Codec::new(probe.max_packet_size)),
                    Version::V5 => Codec::V5(v5::Codec::new(probe.max_packet_size)),
                };
                true
            },
            _ => false,
        }
    }

    /// Sets the largest body that is accepted from now on, as it is done
    /// once a CONNECT has named the maximum packet size of its connection.
    pub fn set_max_packet_size(&mut self, max_packet_size: usize)
        ensures
            final(self).cap() == max_packet_size,
            final(self).dialect() == old(self).dialect(),
    {
        *self = match *self {
            Codec::V3(_) => Codec::V3(v3::Codec::new(max_packet_size)),
            Codec::V5(_) => Codec::V5(v5::Codec::new(max_packet_size)),
            Codec::Version(_) => Codec::Version(version::Codec::new(max_packet_size)),
        };
    }

    /// Takes the next packet out of `src` with the codec in use.
    pub fn decode(&mut self, src: &mut BytesMut) -> (res: Result<Option<(Packet, u32)>, Error>)
        ensures
            *final(self) == *old(self),
            match old(self).spec_decode(buf::bytes_mut_view(*old(src))) {
                Ok(Some((packet, size))) => res matches Ok(Some(got)) && got.0@ == packet && got.1
                    == size,
                Ok(None) => res matches Ok(None),
                Err(e) => res matches Err(got) && got == e,
            },
            buf::bytes_mut_view(*final(src)) == old(self).spec_remainder(
                buf::bytes_mut_view(*old(src)),
            ),
    {
        match self {
            Codec::V3(codec) => codec.decode(src),
            Codec::V5(codec) => codec.decode(src),
            Codec::Version(codec) => codec.decode(src),
        }
    }

    /// Writes `item` to `dst` with the codec in use. While the codec still
    /// probes nothing is written, and that is no error.
    pub fn encode(&mut self, item: Packet, dst: &mut BytesMut) -> (res: Result<(), Error>)
        ensures
            *final(self) == *old(self),
            match (old(self).dialect(), item@) {
                (None, _) => res is Ok && buf::bytes_mut_view(*final(dst)) == buf::bytes_mut_view(
                    *old(dst),
                ),
                (Some(v), PacketView::ConnAck(c)) => {
                    &&& res is Ok <==> connack_encodable(c, v) && buf::bytes_mut_view(
                        *old(dst),
                    ).len() + connack_frame(c, v).len() <= buf::max_buf_len()
                    &&& res is Ok ==> buf::bytes_mut_view(*final(dst)) == buf::bytes_mut_view(
                        *old(dst),
                    ) + connack_frame(c, v)
                    &&& res is Err ==> res == Err::<(), Error>(Error::LenTooLong)
                },
                (Some(_), _) => res == Err::<(), Error>(Error::ProtocolError),
            },
            res is Err ==> buf::bytes_mut_view(*final(dst)) == buf::bytes_mut_view(*old(dst)),
    {
        match self {
            Codec::V3(codec) => codec.encode(item, dst),
            Codec::V5(codec) => codec.encode(item, dst),
            _ => Ok(()),
        }
    }
}

} // verus!

//! CONNACK under MQTT 3.1 and 3.1.1.

use crate::buf;
use crate::protocol::connack::{connack_frame, parse_connack};
use crate::protocol::field::read_u8;
use crate::protocol::{ConnAck, Error, PacketType, Version};
use bytes::{Bytes, BytesMut};
use vstd::prelude::*;

verus! {

/// Writes a CONNACK frame to `dst`: the type byte, the size 2, the
/// acknowledge flags and the return code. Properties, which this dialect
/// does not have, are left out.
///
/// Fails with `LenTooLong`, leaving `dst` as it was, when `dst` has no room
/// for the four bytes.
pub fn encode(packet: ConnAck, dst: &mut BytesMut) -> (res: Result<(), Error>)
    ensures
        res is Ok <==> buf::bytes_mut_view(*old(dst)).len() + 4 <= buf::max_buf_len(),
        res is Ok ==> buf::bytes_mut_view(*final(dst)) == buf::bytes_mut_view(*old(dst))
            + connack_frame(packet@, Version::V3),
        res is Err ==> res == Err::<(), Error>(Error::LenTooLong) && buf::bytes_mut_view(
            *final(dst),
        ) == buf::bytes_mut_view(*old(dst)),
{
    let ghost start = buf::bytes_mut_view(*dst);
    if buf::len(dst) > isize::MAX as usize - 4 {
        return Err(Error::LenTooLong);
    }
    buf::put_u8(dst, PacketType::ConnAck.code() << 4);
    buf::put_u8(dst, 2);
    buf::put_u8(dst, if packet.session_present { 1 } else { 0 });
    buf::put_u8(dst, packet.reason_code);
    proof {
        assert(2u8 << 4 == 0x20u8) by (bit_vector);
        reveal_with_fuel(crate::protocol::spec_encode_len, 2);
        assert(buf::bytes_mut_view(*dst) =~= start + connack_frame(packet@, Version::V3));
    }
    Ok(())
}

/// Decodes the body of a CONNACK packet: acknowledge flags and return code.
pub fn decode(src: Bytes) -> (res: Result<ConnAck, Error>)
    ensures
        match parse_connack(buf::bytes_view(src), Version::V3) {
            Ok(c) => res matches Ok(got) && got@ == c,
            Err(e) => res matches Err(got) && got == e,
        },
{
    let mut src = src;
    let flags = read_u8(&mut src)?;
    let reason_code = read_u8(&mut src)?;
    Ok(ConnAck { session_present: flags & 0x01 != 0, reason_code, properties: None })
}

} // verus!

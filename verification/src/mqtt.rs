//! Rules of the transports that carry MQTT.

use vstd::prelude::*;

verus! {

/// The bytes of `mqtt`, the WebSocket subprotocol that a client must ask
/// for.
pub open spec fn ws_subprotocol() -> Seq<u8> {
    seq![0x6Du8, 0x71u8, 0x74u8, 0x74u8]
}

/// Whether the value of a `Sec-WebSocket-Protocol` header is the one
/// subprotocol that is served: `mqtt`, in lower case and nothing else.
pub fn accepts_subprotocol(value: &[u8]) -> (accepted: bool)
    ensures
        accepted == (value@ == ws_subprotocol()),
{
    if value.len() != 4 {
        return false;
    }
    let accepted = value[0] == 0x6D && value[1] == 0x71 && value[2] == 0x74 && value[3] == 0x74;
    assert(accepted == (value@ =~= ws_subprotocol()));
    accepted
}

} // verus!

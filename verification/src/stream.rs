//! The handshake of a connection, as a machine.
//!
//! Reading and writing belong to whoever owns the stream. After each thing
//! that happens on the stream the owner calls `step` with the state it holds
//! and the event, and gets back the next state and what to do. A handshake
//! starts in `State::Probe` and ends in `State::Established` or
//! `State::Closed`; nothing is tried twice.

use crate::protocol::connect::valid_connect;
use crate::protocol::frame::DEFAULT_MAX_PACKET_SIZE;
use crate::protocol::{ConnAck, Connect, Error, Packet, Version};
use vstd::prelude::*;

verus! {

/// The reason code of a CONNACK that refuses a malformed or invalid CONNECT.
pub const REASON_MALFORMED: u8 = 0x81;

/// The reason code of a CONNACK that refuses a protocol version.
pub const REASON_UNSUPPORTED_VERSION: u8 = 0x84;

/// Where a handshake stands.
#[derive(Debug, Clone, PartialEq, Eq)]
pub enum State {
    /// Nothing is known yet; the framer probes for the dialect.
    Probe,
    /// The dialect is chosen and the CONNECT is awaited.
    Connecting(Version),
    /// The CONNECT is in and valid; the verdict on it is awaited.
    Authorizing(Version, Connect),
    /// The CONNACK with the verdict's reason code is being sent.
    Acknowledging(Version, Connect, u8),
    /// A CONNACK that refuses the connection is being sent.
    Refusing(Error),
    /// The handshake succeeded and the connection was handed over.
    Established,
    /// The connection is closed.
    Closed,
}

/// What happened on the connection.
#[derive(Debug, Clone, PartialEq, Eq)]
pub enum Event {
    /// The framer decoded a packet.
    Packet(Packet),
    /// The framer refused what it read, or the stream failed.
    Failed(Error),
    /// The peer closed the stream.
    Eof,
    /// Whoever authorizes connections gave the reason code for the CONNACK.
    Verdict(u8),
    /// The packet that was to be sent has been written.
    Sent,
    /// The process is shutting down.
    Shutdown,
}

/// Why a connection is closed.
#[derive(Debug, Clone, Copy, PartialEq, Eq, Structural)]
pub enum Closing {
    /// The handshake failed with this error.
    Failed(Error),
    /// The connection was refused with this reason code.
    Refused(u8),
    /// The process is shutting down.
    Shutdown,
}

/// What a handshake hands over when it succeeds.
#[derive(Debug, Clone, PartialEq, Eq)]
pub struct Session {
    /// The dialect the connection speaks.
    pub version: Version,
    /// The CONNECT that opened it, with the client identifier, the
    /// keepalive and the properties the client asked for.
    pub connect: Connect,
}

/// What the owner of the stream is to do next.
#[derive(Debug, Clone, PartialEq, Eq)]
pub enum Action {
    /// Switch the framer to this dialect, then read the next frame from the
    /// bytes that are buffered already.
    Switch(Version),
    /// Ask for the verdict on the CONNECT that the state holds.
    Authorize,
    /// Send this CONNACK and report `Event::Sent`.
    Send(ConnAck),
    /// Hand the connection over to the session layer.
    HandOff(Session),
    /// Drop the stream.
    Close(Closing),
    /// Nothing: the handshake was over before.
    Done,
}

impl State {
    /// Whether the handshake is over.
    pub open spec fn terminal(self) -> bool {
        self is Established || self is Closed
    }

    /// How many steps a handshake in this state can still take.
    pub open spec fn rank(self) -> nat {
        match self {
            State::Probe => 4,
            State::Connecting(_) => 3,
            State::Authorizing(_, _) => 2,
            State::Acknowledging(_, _, _) => 1,
            State::Refusing(_) => 1,
            State::Established => 0,
            State::Closed => 0,
        }
    }

    /// The dialect chosen for the connection, once there is one.
    pub open spec fn dialect(self) -> Option<Version> {
        match self {
            State::Connecting(v) => Some(v),
            State::Authorizing(v, _) => Some(v),
            State::Acknowledging(v, _, _) => Some(v),
            _ => None,
        }
    }
}

/// The CONNACK that carries `reason_code` and nothing else.
pub open spec fn spec_connack(reason_code: u8) -> ConnAck {
    ConnAck { session_present: false, reason_code, properties: None }
}

/// What becomes of a connection whose CONNECT fails with `e` after the
/// dialect `version` was chosen. A malformed or invalid packet is answered
/// with reason code `0x81`, an unsupported protocol version with `0x84`
/// where the dialect is MQTT 5, and then the connection is closed. Any other
/// failure closes it at once.
pub open spec fn spec_refuse(version: Version, e: Error) -> (State, Action) {
    match e {
        Error::MalformedPacket | Error::ProtocolError => (
            State::Refusing(e),
            Action::Send(spec_connack(REASON_MALFORMED)),
        ),
        Error::UnsupportedProtocolVersion => match version {
            Version::V5 => (
                State::Refusing(e),
                Action::Send(spec_connack(REASON_UNSUPPORTED_VERSION)),
            ),
            Version::V3 => (State::Closed, Action::Close(Closing::Failed(e))),
        },
        _ => (State::Closed, Action::Close(Closing::Failed(e))),
    }
}

/// The next state of a handshake and what to do, for each state and event.
///
/// A failure of the stream, its end and a shutdown close the connection from
/// every state that is not over. Before the dialect is known nothing is
/// sent. An event that the state does not await is a `ProtocolError`.
pub open spec fn spec_step(state: State, event: Event) -> (State, Action) {
    match state {
        State::Established | State::Closed => (state, Action::Done),
        State::Probe => match event {
            Event::Packet(Packet::Version(v)) => (State::Connecting(v), Action::Switch(v)),
            Event::Packet(_) => (
                State::Closed,
                Action::Close(Closing::Failed(Error::MalformedPacket)),
            ),
            Event::Failed(e) => (State::Closed, Action::Close(Closing::Failed(e))),
            Event::Eof => (State::Closed, Action::Close(Closing::Failed(Error::Disconnect))),
            Event::Shutdown => (State::Closed, Action::Close(Closing::Shutdown)),
            _ => (State::Closed, Action::Close(Closing::Failed(Error::ProtocolError))),
        },
        State::Connecting(version) => match event {
            Event::Packet(Packet::Connect(c)) => if valid_connect(c@, version) {
                (State::Authorizing(version, c), Action::Authorize)
            } else {
                spec_refuse(version, Error::ProtocolError)
            },
            Event::Packet(_) => spec_refuse(version, Error::MalformedPacket),
            Event::Failed(e) => spec_refuse(version, e),
            Event::Eof => (State::Closed, Action::Close(Closing::Failed(Error::Disconnect))),
            Event::Shutdown => (State::Closed, Action::Close(Closing::Shutdown)),
            _ => (State::Closed, Action::Close(Closing::Failed(Error::ProtocolError))),
        },
        State::Authorizing(version, c) => match event {
            Event::Verdict(reason_code) => (
                State::Acknowledging(version, c, reason_code),
                Action::Send(spec_connack(reason_code)),
            ),
            Event::Failed(e) => (State::Closed, Action::Close(Closing::Failed(e))),
            Event::Eof => (State::Closed, Action::Close(Closing::Failed(Error::Disconnect))),
            Event::Shutdown => (State::Closed, Action::Close(Closing::Shutdown)),
            _ => (State::Closed, Action::Close(Closing::Failed(Error::ProtocolError))),
        },
        State::Acknowledging(version, c, reason_code) => match event {
            Event::Sent => if reason_code == 0 {
                (State::Established, Action::HandOff(Session { version, connect: c }))
            } else {
                (State::Closed, Action::Close(Closing::Refused(reason_code)))
            },
            Event::Failed(e) => (State::Closed, Action::Close(Closing::Failed(e))),
            Event::Eof => (State::Closed, Action::Close(Closing::Failed(Error::Disconnect))),
            Event::Shutdown => (State::Closed, Action::Close(Closing::Shutdown)),
            _ => (State::Closed, Action::Close(Closing::Failed(Error::ProtocolError))),
        },
        State::Refusing(cause) => match event {
            Event::Sent => (State::Closed, Action::Close(Closing::Failed(cause))),
            Event::Failed(e) => (State::Closed, Action::Close(Closing::Failed(e))),
            Event::Eof => (State::Closed, Action::Close(Closing::Failed(Error::Disconnect))),
            Event::Shutdown => (State::Closed, Action::Close(Closing::Shutdown)),
            _ => (State::Closed, Action::Close(Closing::Failed(Error::ProtocolError))),
        },
    }
}

/// The CONNACK that carries `reason_code` and nothing else.
fn connack(reason_code: u8) -> (c: ConnAck)
    ensures
        c == spec_connack(reason_code),
{
    ConnAck { session_present: false, reason_code, properties: None }
}

/// Decides what becomes of a connection whose CONNECT fails with `e`.
fn refuse(version: Version, e: Error) -> (next: (State, Action))
    ensures
        next == spec_refuse(version, e),
{
    match e {
        Error::MalformedPacket | Error::ProtocolError => (
            State::Refusing(e),
            Action::Send(connack(REASON_MALFORMED)),
        ),
        Error::UnsupportedProtocolVersion => match version {
            Version::V5 => (State::Refusing(e), Action::Send(connack(REASON_UNSUPPORTED_VERSION))),
            Version::V3 => (State::Closed, Action::Close(Closing::Failed(e))),
        },
        _ => (State::Closed, Action::Close(Closing::Failed(e))),
    }
}

/// Decides what happens on a stream failure, a stream end, a shutdown or an
/// event that the state does not await.
fn give_up(event: Event) -> (next: (State, Action))
    requires
        !(event is Packet),
    ensures
        next.0 == State::Closed,
        next.1 == Action::Close(
            match event {
                Event::Failed(e) => Closing::Failed(e),
                Event::Eof => Closing::Failed(Error::Disconnect),
                Event::Shutdown => Closing::Shutdown,
                _ => Closing::Failed(Error::ProtocolError),
            },
        ),
{
    let closing = match event {
        Event::Failed(e) => Closing::Failed(e),
        Event::Eof => Closing::Failed(Error::Disconnect),
        Event::Shutdown => Closing::Shutdown,
        _ => Closing::Failed(Error::ProtocolError),
    };
    (State::Closed, Action::Close(closing))
}

/// Takes one step of the handshake: from the state and what happened on the
/// connection to the next state and what to do.
pub fn step(state: State, event: Event) -> (next: (State, Action))
    ensures
        next == spec_step(state, event),
{
    match state {
        State::Established => (State::Established, Action::Done),
        State::Closed => (State::Closed, Action::Done),
        State::Probe => match event {
            Event::Packet(Packet::Version(v)) => (State::Connecting(v), Action::Switch(v)),
            Event::Packet(_) => (
                State::Closed,
                Action::Close(Closing::Failed(Error::MalformedPacket)),
            ),
            other => give_up(other),
        },
        State::Connecting(version) => match event {
            Event::Packet(Packet::Connect(c)) => match c.validate(version) {
                Ok(()) => (State::Authorizing(version, c), Action::Authorize),
                Err(e) => refuse(version, e),
            },
            Event::Packet(_) => refuse(version, Error::MalformedPacket),
            Event::Failed(e) => refuse(version, e),
            other => give_up(other),
        },
        State::Authorizing(version, c) => match event {
            Event::Verdict(reason_code) => (
                State::Acknowledging(version, c, reason_code),
                Action::Send(connack(reason_code)),
            ),
            Event::Packet(_) => (
                State::Closed,
                Action::Close(Closing::Failed(Error::ProtocolError)),
            ),
            other => give_up(other),
        },
        State::Acknowledging(version, c, reason_code) => match event {
            Event::Sent => if reason_code == 0 {
                (State::Established, Action::HandOff(Session { version, connect: c }))
            } else {
                (State::Closed, Action::Close(Closing::Refused(reason_code)))
            },
            Event::Packet(_) => (
                State::Closed,
                Action::Close(Closing::Failed(Error::ProtocolError)),
            ),
            other => give_up(other),
        },
        State::Refusing(cause) => match event {
            Event::Sent => (State::Closed, Action::Close(Closing::Failed(cause))),
            Event::Packet(_) => (
                State::Closed,
                Action::Close(Closing::Failed(Error::ProtocolError)),
            ),
            other => give_up(other),
        },
    }
}

impl Session {
    /// The cap on the size of a body for the rest of the connection: what
    /// was configured; where nothing was, the maximum packet size that the
    /// CONNECT names; and 256 KiB where it names none.
    pub open spec fn spec_max_packet_size(self, configured: Option<usize>) -> usize {
        match configured {
            Some(n) => n,
            None => match self.connect@.properties {
                Some(p) => match p.max_packet_size {
                    Some(n) => n as usize,
                    None => DEFAULT_MAX_PACKET_SIZE,
                },
                None => DEFAULT_MAX_PACKET_SIZE,
            },
        }
    }

    /// The cap on the size of a body for the rest of the connection.
    pub fn max_packet_size(&self, configured: Option<usize>) -> (cap: usize)
        ensures
            cap == self.spec_max_packet_size(configured),
    {
        if let Some(n) = configured {
            return n;
        }
        if let Some(ref p) = self.connect.properties {
            if let Some(n) = p.max_packet_size {
                return n as usize;
            }
        }
        DEFAULT_MAX_PACKET_SIZE
    }
}

/// A handshake that is over stays as it is and asks for nothing.
pub proof fn lemma_terminal_absorbs(state: State, event: Event)
    requires
        state.terminal(),
    ensures
        spec_step(state, event) == (state, Action::Done),
{
}

/// Every step of a handshake that is not over takes it nearer to its end:
/// after at most four steps a connection is established or closed.
pub proof fn lemma_progress(state: State, event: Event)
    requires
        !state.terminal(),
    ensures
        spec_step(state, event).0.rank() < state.rank(),
{
}

/// Nothing is sent and nothing is handed over before the dialect is known.
pub proof fn lemma_probe_is_silent(event: Event)
    ensures
        !(spec_step(State::Probe, event).1 is Send),
        !(spec_step(State::Probe, event).1 is HandOff),
{
}

/// The framer is switched once: only the probing state asks for a switch,
/// it asks for the dialect that the probe found, and no step leads back to
/// probing or changes the dialect.
pub proof fn lemma_switch_once(state: State, event: Event)
    ensures
        spec_step(state, event).1 matches Action::Switch(v) ==> state is Probe && event
            == Event::Packet(Packet::Version(v)) && spec_step(state, event).0.dialect() == Some(v),
        !(spec_step(state, event).0 is Probe),
        state.dialect() matches Some(v) ==> (spec_step(state, event).0.dialect() is None
            || spec_step(state, event).0.dialect() == Some(v)),
{
}

/// A connection is handed over only after the CONNACK for a valid CONNECT
/// went out with reason code 0, and it is handed over with that CONNECT and
/// the dialect chosen for it.
pub proof fn lemma_hand_off(state: State, event: Event)
    ensures
        spec_step(state, event).1 matches Action::HandOff(session) ==> state
            == State::Acknowledging(session.version, session.connect, 0u8) && event is Sent
            && spec_step(state, event).0 is Established,
        spec_step(state, event).0 matches State::Authorizing(v, c) ==> valid_connect(c@, v),
        spec_step(state, event).0 is Established ==> state is Established || spec_step(
            state,
            event,
        ).1 is HandOff,
{
}

} // verus!

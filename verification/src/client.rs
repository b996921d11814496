//! The client's polling contract and its connection state machine.
//!
//! A client is Pending until `connect()`, Connected while polling with
//! `next()`, and Disconnected after `disconnect()`. Any other use —
//! polling before connecting, connecting twice — is a caller error that
//! the state machine rejects before any I/O is attempted.

use vstd::prelude::*;

use crate::output_data::SEOutputData;
use crate::packet::ParseFailedError;

verus! {

/// One decoded packet: the ordered fields of its sub-packets.
pub type Packet = Vec<SEOutputData>;

/// Why a client call failed. `ReadWouldBlock` is not a true error: it is
/// the flow-control signal of a non-blocking source, and the caller
/// retries later.
#[derive(Debug, PartialEq, Eq, Structural, Clone, Copy)]
pub enum ClientError {
    /// The connection could not be opened.
    Connect,
    /// The connection could not be shut down.
    Disconnect,
    /// Reading from the connection failed with a true I/O error.
    Read,
    /// No data is available yet; poll again later.
    ReadWouldBlock,
    /// A packet framed by a valid header failed to decode.
    InvalidPacket(ParseFailedError),
}

/// The polling contract a telemetry client offers: connect once, take
/// packets one call at a time, disconnect once.
pub trait Client {
    fn connect(&mut self) -> Result<(), ClientError>;

    fn disconnect(&mut self) -> Result<(), ClientError>;

    fn next(&mut self) -> Result<Packet, ClientError>;
}

/// A client's life-cycle phase.
#[derive(Debug, PartialEq, Eq, Structural, Clone, Copy)]
pub enum ClientPhase {
    Pending,
    Connected,
    Disconnected,
}

/// A call on the client's interface.
#[derive(Debug, PartialEq, Eq, Structural, Clone, Copy)]
pub enum ClientCall {
    Connect,
    Disconnect,
    Next,
}

/// The connection state machine: `Connect` is valid only from Pending,
/// `Next` and `Disconnect` only from Connected; everything else is a
/// caller error, rejected with `None` before any I/O.
pub open spec fn spec_client_step(phase: ClientPhase, call: ClientCall) -> Option<ClientPhase> {
    match (phase, call) {
        (ClientPhase::Pending, ClientCall::Connect) => Some(ClientPhase::Connected),
        (ClientPhase::Connected, ClientCall::Next) => Some(ClientPhase::Connected),
        (ClientPhase::Connected, ClientCall::Disconnect) => Some(ClientPhase::Disconnected),
        _ => None,
    }
}

/// Decides one client call: the phase it leads to, or `None` for a
/// state-machine violation.
pub fn client_step(phase: ClientPhase, call: ClientCall) -> (r: Option<ClientPhase>)
    ensures
        r == spec_client_step(phase, call),
{
    match (phase, call) {
        (ClientPhase::Pending, ClientCall::Connect) => Some(ClientPhase::Connected),
        (ClientPhase::Connected, ClientCall::Next) => Some(ClientPhase::Connected),
        (ClientPhase::Connected, ClientCall::Disconnect) => Some(ClientPhase::Disconnected),
        _ => None,
    }
}

/// Polling before connecting, or connecting twice, is rejected, never
/// carried out: a call is accepted exactly in the phase the life cycle
/// fixes for it, and acceptance of `Next` keeps the client Connected.
pub proof fn lemma_client_state_machine(phase: ClientPhase, call: ClientCall)
    ensures
        spec_client_step(phase, ClientCall::Next) is Some <==> phase is Connected,
        spec_client_step(phase, ClientCall::Connect) is Some <==> phase is Pending,
        spec_client_step(phase, ClientCall::Disconnect) is Some <==> phase is Connected,
        spec_client_step(ClientPhase::Connected, ClientCall::Next) == Some(ClientPhase::Connected),
        spec_client_step(phase, call) is Some ==> !(spec_client_step(phase, call)->0 is Pending),
{
}

} // verus!

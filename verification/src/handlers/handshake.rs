use crate::batch::Batch;
use crate::client_state::{ClientState, ClientStateView};
use crate::error::PacketHandlerError;
use crate::forwarding::{check_bungee_cord, spec_check_bungee_cord};
use crate::packets::{HandshakePacket, PacketRegistry};
use crate::protocol::{spec_version_for_number, ProtocolVersion, State};
use crate::server_state::{ServerState, ServerStateView};
use crate::text::{concat, i64_to_string, spec_decimal};
use vstd::prelude::*;

verus! {

/// The reason a client is disconnected with when the proxy's forwarded data
/// is missing or wrong.
pub const PROXY_REQUIRED_KICK_MESSAGE: &'static str = "You must connect through a proxy.";

/// A handshake asked for a state that does not exist.
#[derive(Clone, Copy, Debug, PartialEq, Eq, Structural)]
pub struct UnknownStateError(pub i32);

impl UnknownStateError {
    /// The text the error is shown with: `unknown state` and the number.
    pub fn message(&self) -> (s: String)
        ensures
            s@ == "unknown state "@ + spec_decimal(self.0 as int),
    {
        let n = i64_to_string(self.0 as i64);
        concat("unknown state ", n.as_str())
    }
}

/// The state a handshake asks for: 1 status, 2 login, 3 transfer.
pub open spec fn spec_next_state(next_state: i32) -> Option<State> {
    if next_state == 1 {
        Some(State::Status)
    } else if next_state == 2 {
        Some(State::Login)
    } else if next_state == 3 {
        Some(State::Transfer)
    } else {
        None
    }
}

/// Whether `v` is the version a handshake announcing `protocol` speaks: any
/// version for -1; else the known version with the greatest number not above
/// `protocol`, or the oldest one when there is none.
pub open spec fn spec_protocol_of(protocol: i32, v: ProtocolVersion) -> bool {
    if protocol == -1 {
        v == ProtocolVersion::Any
    } else {
        spec_version_for_number(protocol, v)
    }
}

/// What handling the packet does, over the client's state before and after.
pub open spec fn spec_handshake_handled(packet: HandshakePacket, server: ServerStateView, before: ClientStateView, r: Result<Batch<PacketRegistry>, PacketHandlerError>, after: ClientStateView) -> bool {
    &&& spec_protocol_of(packet.protocol, after.protocol_version)
    &&& match spec_next_state(packet.next_state) {
        None => {
            &&& r matches Err(PacketHandlerError::InvalidState(m)) && m@ == "Unsupported next state."@
            &&& after == (ClientStateView {
                protocol_version: after.protocol_version,
                ..before
            })
        },
        Some(next) => {
            let moved = ClientStateView {
                protocol_version: after.protocol_version,
                state: next,
                ..before
            };
            if next == State::Login {
                match spec_check_bungee_cord(server.forwarding_mode, packet.hostname@) {
                    Err(e) => {
                        &&& r matches Err(PacketHandlerError::Custom(m)) && m@ == e.spec_message()
                        &&& after == moved
                    },
                    Ok(false) => {
                        &&& r matches Err(PacketHandlerError::InvalidState(m)) && m@ == PROXY_REQUIRED_KICK_MESSAGE@
                        &&& after.kick_message matches Some(m) && m@ == PROXY_REQUIRED_KICK_MESSAGE@
                        &&& after == (ClientStateView { kick_message: after.kick_message, ..moved })
                    },
                    Ok(true) => {
                        &&& r matches Ok(b) && b@ == Seq::<PacketRegistry>::empty()
                        &&& after == moved
                    },
                }
            } else {
                &&& r matches Ok(b) && b@ == Seq::<PacketRegistry>::empty()
                &&& after == moved
            }
        },
    }
}

/// A handshake moves the client to the state it asks for: 1 is status, 2 is
/// login, 3 is transfer, and any other number is refused with the client
/// left in its state. It records the protocol the client speaks: any version
/// for -1, else a known version not above the announced number (the oldest
/// for a number below them all). A status or transfer request always goes
/// through; a login goes through without forwarding, and under plain
/// BungeeCord forwarding exactly when the hostname carries forwarded data (a
/// NUL character), the client being kicked otherwise.
pub proof fn lemma_handshake_moves_as_asked(
    packet: HandshakePacket,
    server: ServerStateView,
    before: ClientStateView,
    r: Result<Batch<PacketRegistry>, PacketHandlerError>,
    after: ClientStateView,
)
    requires
        spec_handshake_handled(packet, server, before, r, after),
    ensures
        packet.protocol == -1 ==> after.protocol_version == ProtocolVersion::Any,
        packet.protocol != -1 ==> after.protocol_version.is_known() && (packet.protocol >= 4 ==> after.protocol_version.spec_number() <= packet.protocol),
        packet.next_state == 1 ==> after.state == State::Status && r is Ok,
        packet.next_state == 3 ==> after.state == State::Transfer && r is Ok,
        packet.next_state == 2 ==> after.state == State::Login,
        packet.next_state == 2 && server.forwarding_mode is Disabled ==> r is Ok && after.kick_message == before.kick_message,
        packet.next_state == 2 && server.forwarding_mode is Legacy ==> (r is Ok <==> packet.hostname@.contains('\0')),
        packet.next_state == 2 && server.forwarding_mode is Legacy && !packet.hostname@.contains('\0')
            ==> after.kick_message is Some,
        !(1 <= packet.next_state <= 3) ==> r is Err && after.state == before.state,
        after.pending_packets == before.pending_packets,
{
}

impl HandshakePacket {
    /// The state the client asks for.
    pub fn get_next_state(&self) -> (r: Result<State, UnknownStateError>)
        ensures
            match spec_next_state(self.next_state) {
                Some(s) => r == Ok::<State, UnknownStateError>(s),
                None => r == Err::<State, UnknownStateError>(UnknownStateError(self.next_state)),
            },
    {
        let state = self.next_state;
        if state == 1 {
            Ok(State::Status)
        } else if state == 2 {
            Ok(State::Login)
        } else if state == 3 {
            Ok(State::Transfer)
        } else {
            Err(UnknownStateError(state))
        }
    }

    /// The protocol version the client speaks.
    pub fn get_protocol(&self) -> (v: ProtocolVersion)
        ensures
            spec_protocol_of(self.protocol, v),
    {
        if self.protocol == -1 {
            ProtocolVersion::Any
        } else {
            ProtocolVersion::from_number(self.protocol)
        }
    }

    /// Records the client's protocol version and moves it to the state it
    /// asks for. A login is checked against the forwarding mode of the
    /// server: a client that did not come through the proxy is kicked.
    pub fn handle(&self, client_state: &mut ClientState, server_state: &ServerState) -> (r: Result<Batch<PacketRegistry>, PacketHandlerError>)
        ensures
            spec_handshake_handled(*self, server_state@, old(client_state)@, r, final(client_state)@),
    {
        let batch = Batch::new();
        client_state.set_protocol_version(self.get_protocol());
        match self.get_next_state() {
            Ok(next_state) => {
                client_state.set_state(next_state);
                if next_state == State::Login {
                    match check_bungee_cord(server_state, self.hostname.as_str()) {
                        Ok(true) => Ok(batch),
                        Ok(false) => {
                            client_state.kick(PROXY_REQUIRED_KICK_MESSAGE);
                            Err(PacketHandlerError::invalid_state(PROXY_REQUIRED_KICK_MESSAGE))
                        },
                        Err(e) => Err(PacketHandlerError::custom(e.message())),
                    }
                } else {
                    Ok(batch)
                }
            },
            Err(_) => Err(PacketHandlerError::invalid_state("Unsupported next state.")),
        }
    }
}

} // verus!

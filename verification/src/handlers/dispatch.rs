use crate::batch::Batch;
use crate::client_state::{ClientState, ClientStateView};
use crate::error::PacketHandlerError;
use crate::handlers::configuration::spec_acknowledge_configuration_handled;
use crate::handlers::handshake::spec_handshake_handled;
use crate::handlers::login::{spec_custom_query_answer_handled, spec_login_acknowledged_handled, spec_login_start_handled, VelocityKeyIntegrity};
use crate::handlers::play::{spec_set_player_position_and_rotation_handled, spec_set_player_position_handled};
use crate::handlers::status::{spec_ping_request_handled, spec_status_request_handled};
use crate::packets::PacketRegistry;
use crate::registries::VersionData;
use crate::server_state::{ServerState, ServerStateView};
use vstd::prelude::*;

verus! {

/// What handling a packet that a client sent does: each serverbound packet
/// is handled by its own handler; any other packet is refused.
pub open spec fn spec_packet_handled(
    packet: PacketRegistry,
    server: ServerStateView,
    data: VersionData,
    velocity_key: VelocityKeyIntegrity,
    before: ClientStateView,
    r: Result<Batch<PacketRegistry>, PacketHandlerError>,
    after: ClientStateView,
) -> bool {
    match packet {
        PacketRegistry::Handshake(p) => spec_handshake_handled(p, server, before, r, after),
        PacketRegistry::StatusRequest(p) => spec_status_request_handled(p, server, before, r, after),
        PacketRegistry::PingRequest(p) => spec_ping_request_handled(p, before, r, after),
        PacketRegistry::LoginStart(p) => spec_login_start_handled(p, server, data, before, r, after),
        PacketRegistry::CustomQueryAnswer(p) => spec_custom_query_answer_handled(p, server, velocity_key, data, before, r, after),
        PacketRegistry::LoginAcknowledged(p) => spec_login_acknowledged_handled(p, server, data.registries, before, r, after),
        PacketRegistry::AcknowledgeConfiguration(p) => spec_acknowledge_configuration_handled(p, server, data, before, r, after),
        PacketRegistry::SetPlayerPositionAndRotation(p) => spec_set_player_position_and_rotation_handled(p, server, before, r, after),
        PacketRegistry::SetPlayerPosition(p) => spec_set_player_position_handled(p, server, before, r, after),
        _ => {
            &&& r matches Err(PacketHandlerError::Custom(m)) && m@ == "Unhandled packet"@
            &&& after == before
        },
    }
}

impl PacketRegistry {
    /// Handles a packet that a client sent and returns what to answer.
    ///
    /// `data` is the game data of the client's protocol version and the spawn
    /// dimension, and `velocity_key` what checking a custom query answer's
    /// data against the forwarding secret found.
    pub fn handle(
        &self,
        client_state: &mut ClientState,
        server_state: &ServerState,
        data: VersionData,
        velocity_key: VelocityKeyIntegrity,
    ) -> (r: Result<Batch<PacketRegistry>, PacketHandlerError>)
        requires
            data.fits(old(client_state)@.protocol_version),
        ensures
            spec_packet_handled(*self, server_state@, data, velocity_key, old(client_state)@, r, final(client_state)@),
    {
        match self {
            PacketRegistry::Handshake(packet) => packet.handle(client_state, server_state),
            PacketRegistry::StatusRequest(packet) => packet.handle(client_state, server_state),
            PacketRegistry::PingRequest(packet) => packet.handle(client_state, server_state),
            PacketRegistry::LoginStart(packet) => packet.handle(client_state, server_state, data),
            PacketRegistry::CustomQueryAnswer(packet) => packet.handle(client_state, server_state, velocity_key, data),
            PacketRegistry::LoginAcknowledged(packet) => packet.handle(client_state, server_state, data.registries),
            PacketRegistry::AcknowledgeConfiguration(packet) => packet.handle(client_state, server_state, data),
            PacketRegistry::SetPlayerPositionAndRotation(packet) => packet.handle(client_state, server_state),
            PacketRegistry::SetPlayerPosition(packet) => packet.handle(client_state, server_state),
            _ => Err(PacketHandlerError::custom("Unhandled packet")),
        }
    }
}

} // verus!

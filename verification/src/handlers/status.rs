use crate::batch::Batch;
use crate::client_state::{ClientState, ClientStateView};
use crate::error::PacketHandlerError;
use crate::packets::{PacketRegistry, PingRequestPacket, PongResponsePacket, StatusRequestPacket, StatusResponsePacket};
use crate::protocol::ProtocolVersion;
use crate::server_state::{ServerState, ServerStateView};
use crate::text::concat;
use vstd::prelude::*;

verus! {

/// The version shown in the server list: the range of known versions with
/// protocol -1 to a client that did not say which it speaks, else its own.
pub open spec fn spec_status_version(protocol_version: ProtocolVersion) -> (Seq<char>, int) {
    if protocol_version == ProtocolVersion::Any {
        (ProtocolVersion::V1_7_2.spec_name() + "-"@ + ProtocolVersion::V1_21_6.spec_name(), -1)
    } else {
        (protocol_version.spec_name(), protocol_version.spec_number())
    }
}

/// Whether a packet is the server list entry that a client of the given
/// version is shown.
pub open spec fn spec_is_status_response(p: PacketRegistry, protocol_version: ProtocolVersion, server: ServerStateView) -> bool {
    &&& p matches PacketRegistry::StatusResponse(s)
    &&& s.version_name@ == spec_status_version(protocol_version).0
    &&& s.version_protocol == spec_status_version(protocol_version).1
    &&& s.description@ == server.description_text@
    &&& s.online_players == (if server.show_online_player_count { server.connected_clients } else { 0 })
    &&& s.max_players == server.max_players
    &&& !s.enforces_secure_chat
}

/// What handling the packet does, over the client's state before and after.
pub open spec fn spec_status_request_handled(packet: StatusRequestPacket, server: ServerStateView, before: ClientStateView, r: Result<Batch<PacketRegistry>, PacketHandlerError>, after: ClientStateView) -> bool {
    &&& after == before
    &&& r matches Ok(b) && b@.len() == 1 && spec_is_status_response(b@[0], before.protocol_version, server)
}

/// The server list shows a client of a known version that version, by name
/// and number, and a client that did not say its version the whole range of
/// supported versions with the number -1; it shows the description and the
/// player limit, and the number of players online only when the server
/// shows it (0 otherwise). Nothing of the client changes.
pub proof fn lemma_status_shows_server(
    packet: StatusRequestPacket,
    server: ServerStateView,
    before: ClientStateView,
    r: Result<Batch<PacketRegistry>, PacketHandlerError>,
    after: ClientStateView,
)
    requires
        spec_status_request_handled(packet, server, before, r, after),
    ensures
        r matches Ok(b) && b@.len() == 1 && (b@[0] matches PacketRegistry::StatusResponse(s) && {
            &&& before.protocol_version != ProtocolVersion::Any ==> s.version_protocol == before.protocol_version.spec_number()
                && s.version_name@ == before.protocol_version.spec_name()
            &&& before.protocol_version == ProtocolVersion::Any ==> s.version_protocol == -1
                && s.version_name@ == "1.7.2"@ + "-"@ + "1.21.6"@
            &&& s.description@ == server.description_text@
            &&& s.max_players == server.max_players
            &&& server.show_online_player_count ==> s.online_players == server.connected_clients
            &&& !server.show_online_player_count ==> s.online_players == 0
        }),
        after == before,
{
}

impl StatusRequestPacket {
    /// Answers with the server list entry.
    pub fn handle(&self, client_state: &mut ClientState, server_state: &ServerState) -> (r: Result<Batch<PacketRegistry>, PacketHandlerError>)
        ensures
            spec_status_request_handled(*self, server_state@, old(client_state)@, r, final(client_state)@),
    {
        let mut batch = Batch::new();
        let client_protocol_version = client_state.protocol_version();
        let (version_string, version_number) = if client_protocol_version.is_any() {
            let oldest = ProtocolVersion::oldest();
            let latest = ProtocolVersion::latest();
            let head = concat(oldest.humanize(), "-");
            (concat(head.as_str(), latest.humanize()), -1i32)
        } else {
            (client_protocol_version.humanize().to_owned(), client_protocol_version.version_number())
        };
        let packet = StatusResponsePacket {
            version_name: version_string,
            version_protocol: version_number,
            description: server_state.description_text().to_owned(),
            online_players: server_state.online_players(),
            max_players: server_state.max_players(),
            enforces_secure_chat: false,
        };
        batch.queue(PacketRegistry::StatusResponse(packet));
        Ok(batch)
    }
}

/// What handling the packet does, over the client's state before and after:
/// the pong, with the same timestamp, is queued in the client's pending
/// packets, and nothing is returned to send at once.
pub open spec fn spec_ping_request_handled(packet: PingRequestPacket, before: ClientStateView, r: Result<Batch<PacketRegistry>, PacketHandlerError>, after: ClientStateView) -> bool {
    &&& after == (ClientStateView {
        pending_packets: before.pending_packets.push(PacketRegistry::PongResponse(PongResponsePacket { timestamp: packet.timestamp })),
        ..before
    })
    &&& r matches Ok(b) && b@ == Seq::<PacketRegistry>::empty()
}

impl PingRequestPacket {
    /// Queues the answer to a ping, with the same timestamp, in the client state.
    pub fn handle(&self, client_state: &mut ClientState, server_state: &ServerState) -> (r: Result<Batch<PacketRegistry>, PacketHandlerError>)
        ensures
            spec_ping_request_handled(*self, old(client_state)@, r, final(client_state)@),
    {
        client_state.queue_packet(PacketRegistry::PongResponse(PongResponsePacket { timestamp: self.timestamp }));
        Ok(Batch::new())
    }
}

} // verus!

use crate::batch::Batch;
use crate::client_state::{ClientState, ClientStateView};
use crate::coordinate::Coordinate;
use crate::error::PacketHandlerError;
use crate::handlers::configuration::{send_message, spec_chat};
use crate::packets::{LegacyChatMessagePacket, PacketRegistry, SetPlayerPositionAndRotationPacket, SetPlayerPositionPacket, SynchronizePlayerPositionPacket, SystemChatMessagePacket};
use crate::protocol::ProtocolVersion;
use crate::server_state::{Boundaries, ServerState, ServerStateView};
use vstd::prelude::*;

verus! {

/// What a player at height `feet_y` is sent: nothing, unless the boundaries
/// are enabled and the player fell below the lowest height; then it is moved
/// back to the spawn, and told why when there is a message for it.
pub open spec fn spec_teleport_packets(protocol_version: ProtocolVersion, server: ServerStateView, feet_y: Coordinate) -> Seq<PacketRegistry> {
    match server.boundaries {
        Boundaries::Enabled { min_y, teleport_message } => if feet_y.spec_is_below(min_y as int) {
            seq![PacketRegistry::SynchronizePlayerPosition(SynchronizePlayerPositionPacket { position: server.spawn_position })]
                + match teleport_message {
                Some(m) => seq![spec_chat(protocol_version, m)],
                None => Seq::empty(),
            }
        } else {
            Seq::empty()
        },
        Boundaries::Disabled => Seq::empty(),
    }
}

/// A player is moved only when the boundaries are enabled and it is below the
/// lowest height, and then it is always moved to the spawn first.
pub proof fn lemma_teleport_only_below(protocol_version: ProtocolVersion, server: ServerStateView, feet_y: Coordinate)
    ensures
        ({
            let packets = spec_teleport_packets(protocol_version, server, feet_y);
            &&& packets.len() > 0 <==> (server.boundaries matches Boundaries::Enabled { min_y, .. } && feet_y.spec_is_below(min_y as int))
            &&& packets.len() > 0 ==> packets[0] == PacketRegistry::SynchronizePlayerPosition(SynchronizePlayerPositionPacket { position: server.spawn_position })
        }),
{
}

/// Whether `sent` is what a player at height `feet_y`, speaking
/// `protocol_version`, must be sent: nothing while it stands at or above the
/// lowest height (or the boundaries are off); below it, the move to the spawn,
/// then the teleport message if there is one, as a system chat message from
/// 1.19 on and a legacy chat message before.
pub open spec fn is_teleport_answer(protocol_version: ProtocolVersion, server: ServerStateView, feet_y: Coordinate, sent: Seq<PacketRegistry>) -> bool {
    match server.boundaries {
        Boundaries::Enabled { min_y, teleport_message } => if feet_y.spec_is_below(min_y as int) {
            &&& sent.len() >= 1
            &&& sent[0] == PacketRegistry::SynchronizePlayerPosition(SynchronizePlayerPositionPacket { position: server.spawn_position })
            &&& match teleport_message {
                Some(m) => {
                    &&& sent.len() == 2
                    &&& protocol_version.spec_number() >= ProtocolVersion::V1_19.spec_number()
                        ==> sent[1] == PacketRegistry::SystemChatMessage(SystemChatMessagePacket { message: m })
                    &&& protocol_version.spec_number() < ProtocolVersion::V1_19.spec_number()
                        ==> sent[1] == PacketRegistry::LegacyChatMessage(LegacyChatMessagePacket { message: m })
                },
                None => sent.len() == 1,
            }
        } else {
            sent.len() == 0
        },
        Boundaries::Disabled => sent.len() == 0,
    }
}

/// The packets a player at height `feet_y` is sent are the teleport answer
/// for its version: nothing at or above the lowest height, else the move to
/// the spawn, then the teleport message in the chat packet that the version
/// reads.
pub proof fn lemma_teleport_message_by_version(protocol_version: ProtocolVersion, server: ServerStateView, feet_y: Coordinate)
    ensures
        is_teleport_answer(protocol_version, server, feet_y, spec_teleport_packets(protocol_version, server, feet_y)),
{
}

/// Moves a player that fell below the world's lowest height back to the spawn.
pub fn teleport_player_to_spawn(client_state: &ClientState, server_state: &ServerState, feet_y: Coordinate) -> (b: Batch<PacketRegistry>)
    ensures
        b@ == spec_teleport_packets(client_state@.protocol_version, server_state@, feet_y),
{
    let mut batch = Batch::new();
    match server_state.boundaries() {
        Boundaries::Enabled { min_y, teleport_message } => {
            if feet_y.is_below(*min_y) {
                let position = server_state.spawn_position();
                batch.queue(PacketRegistry::SynchronizePlayerPosition(SynchronizePlayerPositionPacket { position }));
                match teleport_message {
                    Some(content) => send_message(&mut batch, content.clone(), client_state.protocol_version()),
                    None => {},
                }
            }
        },
        Boundaries::Disabled => {},
    }
    assert(batch@ =~= spec_teleport_packets(client_state@.protocol_version, server_state@, feet_y));
    batch
}

/// Queues every packet of a batch, in order, in the client's pending packets.
fn queue_in_client(client_state: &mut ClientState, batch: Batch<PacketRegistry>)
    ensures
        final(client_state)@ == (ClientStateView { pending_packets: old(client_state)@.pending_packets + batch@, ..old(client_state)@ }),
{
    let mut items = batch.into_iter().collect_all();
    let ghost all = items@;
    assert(old(client_state)@.pending_packets + all.take(0) =~= old(client_state)@.pending_packets);
    let ghost mut done: int = 0;
    while items.len() > 0
        invariant
            0 <= done <= all.len(),
            items@ == all.skip(done),
            client_state@ == (ClientStateView { pending_packets: old(client_state)@.pending_packets + all.take(done), ..old(client_state)@ }),
        decreases items@.len(),
    {
        let ghost before = items@;
        let packet = items.remove(0);
        assert(packet == all[done]);
        client_state.queue_packet(packet);
        assert(all.take(done + 1) =~= all.take(done).push(all[done]));
        assert(items@ =~= all.skip(done + 1));
        proof { done = done + 1; }
    }
    assert(all.take(done) =~= all);
}

/// What handling the packet does, over the client's state before and after:
/// the teleport packets, if any, are queued in the client's pending packets,
/// and nothing is returned to send at once.
pub open spec fn spec_set_player_position_handled(packet: SetPlayerPositionPacket, server: ServerStateView, before: ClientStateView, r: Result<Batch<PacketRegistry>, PacketHandlerError>, after: ClientStateView) -> bool {
    &&& after == (ClientStateView {
        pending_packets: before.pending_packets + spec_teleport_packets(before.protocol_version, server, packet.feet_y),
        ..before
    })
    &&& r matches Ok(b) && b@ == Seq::<PacketRegistry>::empty()
}

impl SetPlayerPositionPacket {
    /// Moves the player back to the spawn if it fell below the world: the
    /// packets are queued in the client state.
    pub fn handle(&self, client_state: &mut ClientState, server_state: &ServerState) -> (r: Result<Batch<PacketRegistry>, PacketHandlerError>)
        ensures
            spec_set_player_position_handled(*self, server_state@, old(client_state)@, r, final(client_state)@),
    {
        let batch = teleport_player_to_spawn(client_state, server_state, self.feet_y);
        queue_in_client(client_state, batch);
        Ok(Batch::new())
    }
}

/// What handling the packet does, over the client's state before and after.
pub open spec fn spec_set_player_position_and_rotation_handled(packet: SetPlayerPositionAndRotationPacket, server: ServerStateView, before: ClientStateView, r: Result<Batch<PacketRegistry>, PacketHandlerError>, after: ClientStateView) -> bool {
    &&& after == before
    &&& r matches Ok(b) && b@ == spec_teleport_packets(before.protocol_version, server, packet.feet_y)
}

/// A player that reports its position is answered for its own version: the
/// packets queued after what the client had pending are the teleport answer
/// for the client's protocol version and the reported height, and nothing
/// else of the client changes.
pub proof fn lemma_set_player_position_answer(
    packet: SetPlayerPositionPacket,
    server: ServerStateView,
    before: ClientStateView,
    r: Result<Batch<PacketRegistry>, PacketHandlerError>,
    after: ClientStateView,
)
    requires
        spec_set_player_position_handled(packet, server, before, r, after),
    ensures
        after.pending_packets.take(before.pending_packets.len() as int) == before.pending_packets,
        is_teleport_answer(before.protocol_version, server, packet.feet_y, after.pending_packets.skip(before.pending_packets.len() as int)),
        after == (ClientStateView { pending_packets: after.pending_packets, ..before }),
{
    lemma_teleport_message_by_version(before.protocol_version, server, packet.feet_y);
    let t = spec_teleport_packets(before.protocol_version, server, packet.feet_y);
    assert(after.pending_packets.take(before.pending_packets.len() as int) =~= before.pending_packets);
    assert(after.pending_packets.skip(before.pending_packets.len() as int) =~= t);
}

/// A player that reports its position and rotation is answered for its own
/// version: the packets returned are the teleport answer for the client's
/// protocol version and the reported height, and the client is left as it
/// was.
pub proof fn lemma_set_player_position_and_rotation_answer(
    packet: SetPlayerPositionAndRotationPacket,
    server: ServerStateView,
    before: ClientStateView,
    r: Result<Batch<PacketRegistry>, PacketHandlerError>,
    after: ClientStateView,
)
    requires
        spec_set_player_position_and_rotation_handled(packet, server, before, r, after),
    ensures
        r matches Ok(b) && is_teleport_answer(before.protocol_version, server, packet.feet_y, b@),
        after == before,
{
    lemma_teleport_message_by_version(before.protocol_version, server, packet.feet_y);
}

impl SetPlayerPositionAndRotationPacket {
    /// Moves the player back to the spawn if it fell below the world.
    pub fn handle(&self, client_state: &mut ClientState, server_state: &ServerState) -> (r: Result<Batch<PacketRegistry>, PacketHandlerError>)
        ensures
            spec_set_player_position_and_rotation_handled(*self, server_state@, old(client_state)@, r, final(client_state)@),
    {
        Ok(teleport_player_to_spawn(client_state, server_state, self.feet_y))
    }
}

} // verus!

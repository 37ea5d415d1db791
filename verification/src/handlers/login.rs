use crate::batch::Batch;
use crate::client_state::{spec_truncated_name_bytes, ClientState, ClientStateView, GameProfile, GameProfileView};
use crate::error::PacketHandlerError;
use crate::handlers::configuration::{send_play_packets, spec_login_registry, spec_play_error, spec_play_outcome, spec_play_packets};
use crate::random::is_uuid_v4;
use crate::handlers::handshake::PROXY_REQUIRED_KICK_MESSAGE;
use crate::packets::{ClientBoundKnownPacksPacket, CustomQueryAnswerPacket, CustomQueryPacket, FinishConfigurationPacket, GameProfilePacket, LoginAcknowledgedPacket, LoginStartPacket, LoginSuccessPacket, PacketRegistry, PluginMessagePacket, RegistryDataPacket};
use crate::protocol::{ProtocolVersion, State};
use crate::random::random_i32;
use crate::registries::{Registries, RegistryFormat, RegistryGroup, VersionData};
use crate::server_state::{ServerState, ServerStateView};
use vstd::prelude::*;
use vstd::utf8::encode_utf8;

verus! {

/// The registry data packet of one registry.
pub open spec fn spec_registry_packet(group: RegistryGroup) -> PacketRegistry {
    PacketRegistry::RegistryData(RegistryDataPacket::Registry { registry_id: group.registry_id, entries: group.entries })
}

/// The registry data packets: one per registry from 1.20.5 on, in the order
/// of the registries, or the whole codec at once in 1.20.2 and 1.20.3.
pub open spec fn spec_registry_packets(registries: Registries) -> Seq<PacketRegistry> {
    match registries {
        Registries::V1_20_5 { registries } => registries@.map_values(|group: RegistryGroup| spec_registry_packet(group)),
        Registries::V1_20_2 { registry_codec } => seq![PacketRegistry::RegistryData(RegistryDataPacket::Codec { codec: registry_codec })],
        _ => Seq::empty(),
    }
}

/// The packets of the configuration state, in the order they are sent: the
/// server brand, the known packs (1.20.5 and later), the registry data, and
/// the end of the configuration.
pub open spec fn spec_configuration_packets(protocol_version: ProtocolVersion, registries: Registries) -> Seq<PacketRegistry> {
    seq![PacketRegistry::ConfigurationClientBoundPluginMessage(PluginMessagePacket { channel: "minecraft:brand", data: "PicoLimbo" })]
    + (if protocol_version.spec_number() >= ProtocolVersion::V1_20_5.spec_number() {
        seq![PacketRegistry::ClientBoundKnownPacks(ClientBoundKnownPacksPacket { version: protocol_version.spec_humanize() })]
    } else {
        Seq::empty()
    })
    + spec_registry_packets(registries)
    + seq![PacketRegistry::FinishConfiguration(FinishConfigurationPacket {})]
}

/// Queues one registry data packet per registry, in order.
fn queue_registry_groups(batch: &mut Batch<PacketRegistry>, registries: Vec<RegistryGroup>)
    ensures
        final(batch)@ == old(batch)@ + registries@.map_values(|group: RegistryGroup| spec_registry_packet(group)),
{
    let ghost start = batch@;
    let ghost all = registries@;
    let mut rest = registries;
    let ghost mut done: int = 0;
    while rest.len() > 0
        invariant
            0 <= done <= all.len(),
            rest@ == all.subrange(done, all.len() as int),
            batch@ == start + all.subrange(0, done).map_values(|group: RegistryGroup| spec_registry_packet(group)),
        decreases rest@.len(),
    {
        let group = rest.remove(0);
        let RegistryGroup { registry_id, entries } = group;
        batch.queue(PacketRegistry::RegistryData(RegistryDataPacket::Registry { registry_id, entries }));
        assert(all.subrange(0, done + 1).map_values(|group: RegistryGroup| spec_registry_packet(group))
            =~= all.subrange(0, done).map_values(|group: RegistryGroup| spec_registry_packet(group)).push(spec_registry_packet(all[done])));
        proof {
            done = done + 1;
        }
        assert(rest@ =~= all.subrange(done, all.len() as int));
    }
    assert(all.subrange(0, done) =~= all);
}

/// Queues the packets of the configuration state.
///
/// `registries` is the registry data of the protocol version and the spawn
/// dimension; the configuration state exists from 1.20.2 on.
pub fn send_configuration_packets(
    batch: &mut Batch<PacketRegistry>,
    protocol_version: ProtocolVersion,
    server_state: &ServerState,
    registries: Registries,
)
    requires
        protocol_version.spec_supports_configuration_state(),
        registries.spec_format() == RegistryFormat::spec_from_version(protocol_version),
    ensures
        final(batch)@ == old(batch)@ + spec_configuration_packets(protocol_version, registries),
{
    let ghost start = batch@;
    let ghost all = registries;
    batch.queue(PacketRegistry::ConfigurationClientBoundPluginMessage(PluginMessagePacket { channel: "minecraft:brand", data: "PicoLimbo" }));
    if protocol_version.is_after_inclusive(ProtocolVersion::V1_20_5) {
        batch.queue(PacketRegistry::ClientBoundKnownPacks(ClientBoundKnownPacksPacket { version: protocol_version.humanize() }));
    }
    let ghost before_registries = batch@;
    match registries {
        Registries::V1_20_5 { registries } => queue_registry_groups(batch, registries),
        Registries::V1_20_2 { registry_codec } => batch.queue(PacketRegistry::RegistryData(RegistryDataPacket::Codec { codec: registry_codec })),
        _ => {},
    }
    assert(batch@ =~= before_registries + spec_registry_packets(all));
    batch.queue(PacketRegistry::FinishConfiguration(FinishConfigurationPacket {}));
    assert(batch@ =~= start + spec_configuration_packets(protocol_version, all));
}

/// What handling the packet does, over the client's state before and after.
pub open spec fn spec_login_acknowledged_handled(packet: LoginAcknowledgedPacket, server: ServerStateView, registries: Registries, before: ClientStateView, r: Result<Batch<PacketRegistry>, PacketHandlerError>, after: ClientStateView) -> bool {
    &&& before.protocol_version.spec_supports_configuration_state() ==> {
        &&& r matches Ok(b) && b@ == spec_configuration_packets(before.protocol_version, registries)
        &&& after == (crate::client_state::ClientStateView { state: State::Configuration, ..before })
    }
    &&& !before.protocol_version.spec_supports_configuration_state() ==> {
        &&& r matches Err(PacketHandlerError::InvalidState(m)) && m@ == "Configuration state not supported for this version"@
        &&& after == before
    }
}

/// A client with a configuration state that acknowledges its login is moved
/// to that state and sent, in order: the server brand first, the known packs
/// (from 1.20.5 on), the registry data (from 1.20.5 on one packet per
/// registry, each with that registry's id and entries, in the order of the
/// registries; in 1.20.2 and 1.20.3 the whole codec in one packet), and the
/// end of the configuration last.
pub proof fn lemma_configuration_sends_registries(
    packet: LoginAcknowledgedPacket,
    server: ServerStateView,
    registries: Registries,
    before: ClientStateView,
    r: Result<Batch<PacketRegistry>, PacketHandlerError>,
    after: ClientStateView,
)
    requires
        spec_login_acknowledged_handled(packet, server, registries, before, r, after),
        before.protocol_version.spec_supports_configuration_state(),
    ensures
        after == (ClientStateView { state: State::Configuration, ..before }),
        r matches Ok(b) && {
            let packs: int = if before.protocol_version.spec_number() >= ProtocolVersion::V1_20_5.spec_number() { 1 } else { 0 };
            &&& b@.len() >= 2
            &&& b@[0] == PacketRegistry::ConfigurationClientBoundPluginMessage(PluginMessagePacket { channel: "minecraft:brand", data: "PicoLimbo" })
            &&& b@.last() == PacketRegistry::FinishConfiguration(FinishConfigurationPacket {})
            &&& packs == 1 ==> b@[1] is ClientBoundKnownPacks
            &&& registries matches Registries::V1_20_5 { registries: groups } ==> {
                &&& b@.len() == groups@.len() + 2 + packs
                &&& forall|k: int| 0 <= k < groups@.len() ==> #[trigger] b@[1 + packs + k] == PacketRegistry::RegistryData(
                    RegistryDataPacket::Registry { registry_id: groups@[k].registry_id, entries: groups@[k].entries },
                )
            }
            &&& registries matches Registries::V1_20_2 { registry_codec } ==> {
                &&& b@.len() == 3 + packs
                &&& b@[1 + packs] == PacketRegistry::RegistryData(RegistryDataPacket::Codec { codec: registry_codec })
            }
        },
{
    let pv = before.protocol_version;
    let head = seq![PacketRegistry::ConfigurationClientBoundPluginMessage(PluginMessagePacket { channel: "minecraft:brand", data: "PicoLimbo" })]
        + (if pv.spec_number() >= ProtocolVersion::V1_20_5.spec_number() {
        seq![PacketRegistry::ClientBoundKnownPacks(ClientBoundKnownPacksPacket { version: pv.spec_humanize() })]
    } else {
        Seq::empty()
    });
    let regs = spec_registry_packets(registries);
    let all = spec_configuration_packets(pv, registries);
    assert(all == head + regs + seq![PacketRegistry::FinishConfiguration(FinishConfigurationPacket {})]);
    assert(all[0] == head[0]);
    match registries {
        Registries::V1_20_5 { registries: groups } => {
            assert forall|k: int| 0 <= k < groups@.len() implies #[trigger] all[head.len() + k] == PacketRegistry::RegistryData(
                RegistryDataPacket::Registry { registry_id: groups@[k].registry_id, entries: groups@[k].entries },
            ) by {
                assert(all[head.len() + k] == regs[k]);
            }
        },
        _ => {},
    }
}

impl LoginAcknowledgedPacket {
    /// Moves a client that has a configuration state (1.20.2 and later) to it
    /// and answers with the configuration packets; refuses older clients.
    pub fn handle(&self, client_state: &mut ClientState, server_state: &ServerState, registries: Registries) -> (r: Result<Batch<PacketRegistry>, PacketHandlerError>)
        requires
            old(client_state)@.protocol_version.spec_supports_configuration_state()
                ==> registries.spec_format() == RegistryFormat::spec_from_version(old(client_state)@.protocol_version),
        ensures
            spec_login_acknowledged_handled(*self, server_state@, registries, old(client_state)@, r, final(client_state)@),
    {
        let mut batch = Batch::new();
        let protocol_version = client_state.protocol_version();
        if protocol_version.supports_configuration_state() {
            client_state.set_state(State::Configuration);
            send_configuration_packets(&mut batch, protocol_version, server_state, registries);
            assert(batch@ =~= spec_configuration_packets(protocol_version, registries));
            Ok(batch)
        } else {
            Err(PacketHandlerError::invalid_state("Configuration state not supported for this version"))
        }
    }
}

/// What a Velocity proxy's forwarded data turned out to be: signed with the
/// shared secret, with the player it names, or not.
#[derive(Clone, Debug, PartialEq, Eq)]
pub enum VelocityKeyIntegrity {
    Invalid,
    Valid { player_uuid: u128, player_name: String },
}

/// The packet that ends the login: login success from 1.21.2 on, the game
/// profile before.
pub open spec fn spec_login_success_packet(protocol_version: ProtocolVersion, profile: GameProfileView) -> PacketRegistry {
    if protocol_version.spec_number() >= ProtocolVersion::V1_21_2.spec_number() {
        PacketRegistry::LoginSuccess(LoginSuccessPacket { uuid: profile.uuid, username: profile.username })
    } else {
        PacketRegistry::GameProfile(GameProfilePacket { uuid: profile.uuid, username: profile.username })
    }
}

/// What a successful login does: the end of the login is queued and the
/// profile kept; up to 1.20, which have no configuration state, the play
/// packets follow as `send_play_packets` sends them.
pub open spec fn spec_login_outcome(
    server: ServerStateView,
    data: VersionData,
    profile: GameProfileView,
    batch_before: Seq<PacketRegistry>,
    client_before: ClientStateView,
    r: Result<(), PacketHandlerError>,
    batch_after: Seq<PacketRegistry>,
    client_after: ClientStateView,
) -> bool {
    let protocol_version = client_before.protocol_version;
    let with_packet = batch_before.push(spec_login_success_packet(protocol_version, profile));
    let with_profile = ClientStateView { game_profile: Some(profile), ..client_before };
    if protocol_version.spec_number() <= ProtocolVersion::V1_20.spec_number() {
        spec_play_outcome(server, data, with_packet, with_profile, r, batch_after, client_after)
    } else {
        &&& r is Ok
        &&& batch_after == with_packet
        &&& client_after == with_profile
    }
}

/// The login ends with a packet that carries the profile the client keeps: the
/// first packet queued is a login success from 1.21.2 on and a game profile
/// before, with the unique id and the name of the profile that the client
/// state holds afterwards, whatever follows it.
pub proof fn lemma_login_ends_with_kept_profile(
    server: ServerStateView,
    data: VersionData,
    profile: GameProfileView,
    batch_before: Seq<PacketRegistry>,
    client_before: ClientStateView,
    r: Result<(), PacketHandlerError>,
    batch_after: Seq<PacketRegistry>,
    client_after: ClientStateView,
)
    requires
        spec_login_outcome(server, data, profile, batch_before, client_before, r, batch_after, client_after),
    ensures
        batch_after.len() > batch_before.len(),
        batch_after.take(batch_before.len() as int) == batch_before,
        client_after.game_profile == Some(profile),
        client_after.game_profile matches Some(kept) && match batch_after[batch_before.len() as int] {
            PacketRegistry::LoginSuccess(p) => {
                &&& client_before.protocol_version.spec_number() >= ProtocolVersion::V1_21_2.spec_number()
                &&& p.uuid == kept.uuid
                &&& p.username == kept.username
            },
            PacketRegistry::GameProfile(p) => {
                &&& client_before.protocol_version.spec_number() < ProtocolVersion::V1_21_2.spec_number()
                &&& p.uuid == kept.uuid
                &&& p.username == kept.username
            },
            _ => false,
        },
{
    let protocol_version = client_before.protocol_version;
    let with_packet = batch_before.push(spec_login_success_packet(protocol_version, profile));
    let with_profile = ClientStateView { game_profile: Some(profile), ..client_before };
    if protocol_version.spec_number() <= ProtocolVersion::V1_20.spec_number() {
        if spec_play_error(protocol_version, server, data) is None {
            let login = spec_login_registry(protocol_version, data)->Ok_0;
            let uuid = choose|uuid: u128| is_uuid_v4(uuid) && batch_after == with_packet + #[trigger] spec_play_packets(
                protocol_version,
                server,
                with_profile,
                login,
                uuid,
                data,
            );
            assert(batch_after[batch_before.len() as int] == with_packet[batch_before.len() as int]);
            assert(batch_after.take(batch_before.len() as int) =~= batch_before);
        } else {
            assert(batch_after.take(batch_before.len() as int) =~= batch_before);
        }
    } else {
        assert(batch_after.take(batch_before.len() as int) =~= batch_before);
    }
}

/// Ends the login of a player: queues the end of the login, keeps the
/// profile, and, up to 1.20, sends the play packets at once.
pub fn fire_login_success(
    batch: &mut Batch<PacketRegistry>,
    client_state: &mut ClientState,
    server_state: &ServerState,
    game_profile: GameProfile,
    data: VersionData,
) -> (r: Result<(), PacketHandlerError>)
    requires
        old(client_state)@.protocol_version.spec_number() <= ProtocolVersion::V1_20.spec_number()
            ==> data.fits(old(client_state)@.protocol_version),
    ensures
        spec_login_outcome(server_state@, data, game_profile@, old(batch)@, old(client_state)@, r, final(batch)@, final(client_state)@),
{
    let protocol_version = client_state.protocol_version();
    let uuid = game_profile.uuid();
    let username = game_profile.username_string();
    if protocol_version.is_after_inclusive(ProtocolVersion::V1_21_2) {
        batch.queue(PacketRegistry::LoginSuccess(LoginSuccessPacket { uuid, username }));
    } else {
        batch.queue(PacketRegistry::GameProfile(GameProfilePacket { uuid, username }));
    }
    client_state.set_game_profile(game_profile);
    if protocol_version.is_before_inclusive(ProtocolVersion::V1_20) {
        send_play_packets(batch, client_state, server_state, data)?;
    }
    Ok(())
}

/// The reason a client too old for modern forwarding is disconnected with.
pub open spec fn spec_no_modern_forwarding_message() -> Seq<char> {
    "Your client does not support modern forwarding."@
}

/// What handling the packet does, over the client's state before and after.
pub open spec fn spec_login_start_handled(packet: LoginStartPacket, server: ServerStateView, data: VersionData, before: ClientStateView, r: Result<Batch<PacketRegistry>, PacketHandlerError>, after: ClientStateView) -> bool {
    &&& server.forwarding_mode is Modern && before.protocol_version.spec_number() >= ProtocolVersion::V1_13.spec_number() ==> {
        &&& r matches Ok(b) && b@ == seq![PacketRegistry::CustomQuery(CustomQueryPacket {
            message_id: after.message_id,
            channel: "velocity:player_info",
        })]
        &&& after == (ClientStateView { message_id: after.message_id, ..before })
    }
    &&& server.forwarding_mode is Modern && before.protocol_version.spec_number() < ProtocolVersion::V1_13.spec_number() ==> {
        &&& r matches Ok(b) && b@ == Seq::<PacketRegistry>::empty()
        &&& after.kick_message matches Some(m) && m@ == spec_no_modern_forwarding_message()
        &&& after == (ClientStateView { kick_message: after.kick_message, ..before })
    }
    &&& !(server.forwarding_mode is Modern) ==> {
        let profile = GameProfileView { username: packet.name, uuid: packet.uuid, textures: None };
        match r {
            Ok(b) => spec_login_outcome(server, data, profile, Seq::empty(), before, Ok(()), b@, after),
            Err(e) => spec_login_outcome(
                server,
                data,
                profile,
                Seq::empty(),
                before,
                Err(e),
                seq![spec_login_success_packet(before.protocol_version, profile)],
                after,
            ),
        }
    }
}

/// Without modern forwarding a login start ends the login at once with the
/// name and unique id that the client sent: the client keeps that profile,
/// and the first packet it is sent carries them.
pub proof fn lemma_login_start_keeps_sent_profile(
    packet: LoginStartPacket,
    server: ServerStateView,
    data: VersionData,
    before: ClientStateView,
    r: Result<Batch<PacketRegistry>, PacketHandlerError>,
    after: ClientStateView,
)
    requires
        spec_login_start_handled(packet, server, data, before, r, after),
        !(server.forwarding_mode is Modern),
    ensures
        after.game_profile matches Some(p) && p.username == packet.name && p.uuid == packet.uuid,
        r matches Ok(b) ==> b@.len() > 0 && match b@[0] {
            PacketRegistry::LoginSuccess(p) => p.uuid == packet.uuid && p.username == packet.name,
            PacketRegistry::GameProfile(p) => p.uuid == packet.uuid && p.username == packet.name,
            _ => false,
        },
{
    let profile = GameProfileView { username: packet.name, uuid: packet.uuid, textures: None };
    match r {
        Ok(b) => {
            lemma_login_ends_with_kept_profile(server, data, profile, Seq::empty(), before, Ok(()), b@, after);
        },
        Err(e) => {
            lemma_login_ends_with_kept_profile(
                server,
                data,
                profile,
                Seq::empty(),
                before,
                Err(e),
                seq![spec_login_success_packet(before.protocol_version, profile)],
                after,
            );
        },
    }
}

impl LoginStartPacket {
    /// Starts the login of a player. With modern forwarding, asks the proxy
    /// for the player's data under a random message id (from 1.13 on; older
    /// clients are kicked); otherwise ends the login at once with the name
    /// and id the client sent.
    ///
    /// `data` is the game data of the client's protocol version and the spawn
    /// dimension.
    pub fn handle(&self, client_state: &mut ClientState, server_state: &ServerState, data: VersionData) -> (r: Result<Batch<PacketRegistry>, PacketHandlerError>)
        requires
            old(client_state)@.protocol_version.spec_number() <= ProtocolVersion::V1_20.spec_number()
                ==> data.fits(old(client_state)@.protocol_version),
        ensures
            spec_login_start_handled(*self, server_state@, data, old(client_state)@, r, final(client_state)@),
    {
        let mut batch = Batch::new();
        if server_state.is_modern_forwarding() {
            if client_state.protocol_version().is_after_inclusive(ProtocolVersion::V1_13) {
                let message_id = random_i32();
                client_state.set_velocity_login_message_id(message_id);
                batch.queue(PacketRegistry::CustomQuery(CustomQueryPacket { message_id, channel: "velocity:player_info" }));
                assert(batch@ =~= seq![PacketRegistry::CustomQuery(CustomQueryPacket { message_id, channel: "velocity:player_info" })]);
            } else {
                client_state.kick("Your client does not support modern forwarding.");
            }
            Ok(batch)
        } else {
            let game_profile = GameProfile::from_login_start(self);
            let ghost profile = game_profile@;
            let ghost start = batch@;
            match fire_login_success(&mut batch, client_state, server_state, game_profile, data) {
                Ok(()) => Ok(batch),
                Err(e) => {
                    assert(batch@ == start.push(spec_login_success_packet(old(client_state)@.protocol_version, profile)));
                    assert(start.push(spec_login_success_packet(old(client_state)@.protocol_version, profile))
                        =~= seq![spec_login_success_packet(old(client_state)@.protocol_version, profile)]);
                    Err(e)
                },
            }
        }
    }
}

/// What handling the packet does, over the client's state before and after.
pub open spec fn spec_custom_query_answer_handled(packet: CustomQueryAnswerPacket, server: ServerStateView, velocity_key: VelocityKeyIntegrity, data: VersionData, before: ClientStateView, r: Result<Batch<PacketRegistry>, PacketHandlerError>, after: ClientStateView) -> bool {
    &&& !(server.forwarding_mode is Modern && packet.message_id == before.message_id) ==> {
        &&& r matches Ok(b) && b@ == Seq::<PacketRegistry>::empty()
        &&& after == before
    }
    &&& server.forwarding_mode is Modern && packet.message_id == before.message_id ==> match velocity_key {
        VelocityKeyIntegrity::Invalid => {
            &&& r matches Ok(b) && b@ == Seq::<PacketRegistry>::empty()
            &&& after.kick_message matches Some(m) && m@ == PROXY_REQUIRED_KICK_MESSAGE@
            &&& after == (ClientStateView { kick_message: after.kick_message, ..before })
        },
        VelocityKeyIntegrity::Valid { player_uuid, player_name } => exists|profile: GameProfileView| {
            &&& encode_utf8(profile.username@) == spec_truncated_name_bytes(encode_utf8(player_name@))
            &&& profile.uuid == player_uuid
            &&& profile.textures is None
            &&& match r {
                Ok(b) => spec_login_outcome(server, data, profile, Seq::empty(), before, Ok(()), b@, after),
                Err(e) => spec_login_outcome(
                    server,
                    data,
                    profile,
                    Seq::empty(),
                    before,
                    Err(e),
                    seq![spec_login_success_packet(before.protocol_version, profile)],
                    after,
                ),
            }
        },
    }
}

/// A proxy's answer that passes the check ends the login with the forwarded
/// unique id, and a name that is the forwarded one cut to 16 bytes: the
/// client keeps that profile, and the first packet it is sent carries it.
pub proof fn lemma_forwarded_login_keeps_forwarded_profile(
    packet: CustomQueryAnswerPacket,
    server: ServerStateView,
    player_uuid: u128,
    player_name: String,
    data: VersionData,
    before: ClientStateView,
    r: Result<Batch<PacketRegistry>, PacketHandlerError>,
    after: ClientStateView,
)
    requires
        spec_custom_query_answer_handled(
            packet,
            server,
            VelocityKeyIntegrity::Valid { player_uuid, player_name },
            data,
            before,
            r,
            after,
        ),
        server.forwarding_mode is Modern,
        packet.message_id == before.message_id,
    ensures
        after.game_profile matches Some(p) && p.uuid == player_uuid
            && encode_utf8(p.username@) == spec_truncated_name_bytes(encode_utf8(player_name@)),
        r matches Ok(b) ==> (b@.len() > 0 && (after.game_profile matches Some(kept) && match b@[0] {
            PacketRegistry::LoginSuccess(p) => p.uuid == player_uuid && p.username == kept.username,
            PacketRegistry::GameProfile(p) => p.uuid == player_uuid && p.username == kept.username,
            _ => false,
        })),
{
    let profile = choose|profile: GameProfileView| {
        &&& encode_utf8(profile.username@) == spec_truncated_name_bytes(encode_utf8(player_name@))
        &&& profile.uuid == player_uuid
        &&& profile.textures is None
        &&& match r {
            Ok(b) => spec_login_outcome(server, data, profile, Seq::empty(), before, Ok(()), b@, after),
            Err(e) => spec_login_outcome(
                server,
                data,
                profile,
                Seq::empty(),
                before,
                Err(e),
                seq![spec_login_success_packet(before.protocol_version, profile)],
                after,
            ),
        }
    };
    match r {
        Ok(b) => {
            lemma_login_ends_with_kept_profile(server, data, profile, Seq::empty(), before, Ok(()), b@, after);
        },
        Err(e) => {
            lemma_login_ends_with_kept_profile(
                server,
                data,
                profile,
                Seq::empty(),
                before,
                Err(e),
                seq![spec_login_success_packet(before.protocol_version, profile)],
                after,
            );
        },
    }
}

impl CustomQueryAnswerPacket {
    /// Reads the proxy's answer to the query sent at login start. It is only
    /// heeded with modern forwarding and when it answers the query that was
    /// sent: a player whose data was not signed with the shared secret is
    /// kicked, one whose data was ends the login under the forwarded name
    /// and id.
    ///
    /// `velocity_key` is what checking the answer's data against the shared
    /// secret found, and `data` the game data of the client's protocol version
    /// and the spawn dimension.
    pub fn handle(
        &self,
        client_state: &mut ClientState,
        server_state: &ServerState,
        velocity_key: VelocityKeyIntegrity,
        data: VersionData,
    ) -> (r: Result<Batch<PacketRegistry>, PacketHandlerError>)
        requires
            old(client_state)@.protocol_version.spec_number() <= ProtocolVersion::V1_20.spec_number()
                ==> data.fits(old(client_state)@.protocol_version),
        ensures
            spec_custom_query_answer_handled(*self, server_state@, velocity_key, data, old(client_state)@, r, final(client_state)@),
    {
        let mut batch = Batch::new();
        let client_message_id = client_state.get_velocity_login_message_id();
        if server_state.is_modern_forwarding() && self.message_id == client_message_id {
            match velocity_key {
                VelocityKeyIntegrity::Invalid => {
                    client_state.kick(PROXY_REQUIRED_KICK_MESSAGE);
                    Ok(batch)
                },
                VelocityKeyIntegrity::Valid { player_uuid, player_name } => {
                    let game_profile = GameProfile::new(player_name.as_str(), player_uuid, None);
                    let ghost profile = game_profile@;
                    let ghost start = batch@;
                    match fire_login_success(&mut batch, client_state, server_state, game_profile, data) {
                        Ok(()) => Ok(batch),
                        Err(e) => {
                            assert(start.push(spec_login_success_packet(old(client_state)@.protocol_version, profile))
                                =~= seq![spec_login_success_packet(old(client_state)@.protocol_version, profile)]);
                            Err(e)
                        },
                    }
                },
            }
        } else {
            Ok(batch)
        }
    }
}

} // verus!

use crate::batch::Batch;
use crate::client_state::{advance_should_enable, ClientState, ClientStateView, KeepAliveStatus};
use crate::coordinate::{chunk_of, spec_chunk_of, Position};
use crate::error::PacketHandlerError;
use crate::game_mode::GameMode;
use crate::handlers::chunks::{in_square, lemma_chunks_are_chunks, lemma_chunks_fill_square, send_chunks, spec_chunk, spec_chunks};
use crate::packets::{AcknowledgeConfigurationPacket, BossBarColor, BossBarPacket, CommandsPacket, GameEventPacket, LegacyChatMessagePacket, LoginPacket, LoginRegistry, PacketRegistry, PlayerInfoUpdatePacket, PluginMessagePacket, SetCenterChunkPacket, SetDefaultSpawnPositionPacket, SetEntityMetadataPacket, SkinLookupRequest, SynchronizePlayerPositionPacket, SystemChatMessagePacket, TabListPacket, UpdateTimePacket};
use crate::protocol::{Dimension, ProtocolVersion, State};
use crate::random::{is_uuid_v4, random_u128, uuid_v4_from_bits};
use crate::registries::{Registries, VersionData};
use crate::server_state::{BossBar, ServerState, ServerStateView, TabList};
use crate::text::concat;
use vstd::prelude::*;

verus! {

/// The reason given when the spawn position has no chunk.
pub open spec fn spec_conversion_failed() -> Seq<char> {
    "Conversion failed: Invalid or out-of-range float"@
}

/// The chat packet that carries a system message for a protocol version: a
/// system chat message from 1.19 on, a legacy chat message before.
pub open spec fn spec_chat(protocol_version: ProtocolVersion, message: String) -> PacketRegistry {
    if protocol_version.spec_number() >= ProtocolVersion::V1_19.spec_number() {
        PacketRegistry::SystemChatMessage(SystemChatMessagePacket { message })
    } else {
        PacketRegistry::LegacyChatMessage(LegacyChatMessagePacket { message })
    }
}

/// Queues a system chat message in the form the protocol version reads.
pub fn send_message(batch: &mut Batch<PacketRegistry>, message: String, protocol_version: ProtocolVersion)
    ensures
        final(batch)@ == old(batch)@.push(spec_chat(protocol_version, message)),
{
    if protocol_version.is_after_inclusive(ProtocolVersion::V1_19) {
        batch.queue(PacketRegistry::SystemChatMessage(SystemChatMessagePacket { message }));
    } else {
        batch.queue(PacketRegistry::LegacyChatMessage(LegacyChatMessagePacket { message }));
    }
}

/// The player list packet, sent when the header or the footer is not empty.
pub open spec fn spec_tab_list_packets(tab_list: TabList) -> Seq<PacketRegistry> {
    if tab_list.header@.len() > 0 || tab_list.footer@.len() > 0 {
        seq![PacketRegistry::TabList(TabListPacket { header: tab_list.header, footer: tab_list.footer })]
    } else {
        Seq::empty()
    }
}

/// Queues the player list header and footer, if there are any.
pub fn send_tab_list_packets(batch: &mut Batch<PacketRegistry>, server_state: &ServerState)
    ensures
        final(batch)@ == old(batch)@ + spec_tab_list_packets(server_state@.tab_list),
{
    let tab_list = server_state.tab_list();
    if !tab_list.header.as_str().is_empty() || !tab_list.footer.as_str().is_empty() {
        let packet = TabListPacket { header: tab_list.header.clone(), footer: tab_list.footer.clone() };
        batch.queue(PacketRegistry::TabList(packet));
        assert(final(batch)@ =~= old(batch)@ + spec_tab_list_packets(server_state@.tab_list));
    } else {
        assert(old(batch)@ + spec_tab_list_packets(server_state@.tab_list) =~= old(batch)@);
    }
}

/// The boss bar packet, sent when the boss bar is enabled.
pub open spec fn spec_boss_bar_packets(boss_bar: BossBar, uuid: u128) -> Seq<PacketRegistry> {
    match boss_bar {
        BossBar::Enabled { title, health_bits, color, division } => seq![PacketRegistry::BossBar(BossBarPacket {
            uuid,
            title,
            health_bits,
            color: BossBarColor::spec_from_config(color),
            division,
            flags: 0,
        })],
        BossBar::Disabled => Seq::empty(),
    }
}

/// Queues the boss bar, if it is enabled, under the given id.
pub fn send_boss_bar_packets(batch: &mut Batch<PacketRegistry>, server_state: &ServerState, uuid: u128)
    ensures
        final(batch)@ == old(batch)@ + spec_boss_bar_packets(server_state@.boss_bar, uuid),
{
    match server_state.boss_bar() {
        BossBar::Enabled { title, health_bits, color, division } => {
            let packet = BossBarPacket {
                uuid,
                title: title.clone(),
                health_bits: *health_bits,
                color: BossBarColor::from_config(*color),
                division: *division,
                flags: 0,
            };
            batch.queue(PacketRegistry::BossBar(packet));
            assert(final(batch)@ =~= old(batch)@ + spec_boss_bar_packets(server_state@.boss_bar, uuid));
        },
        BossBar::Disabled => {
            assert(old(batch)@ + spec_boss_bar_packets(server_state@.boss_bar, uuid) =~= old(batch)@);
        },
    }
}

/// The skin packets of a player: from 1.8 on, for a player with a non-nil id,
/// its skin when known, or a request to fetch it when the server fetches
/// skins; then, from 1.8 on, the displayed skin layers.
pub open spec fn spec_skin_packets(protocol_version: ProtocolVersion, client: ClientStateView, fetch_player_skins: bool) -> Seq<PacketRegistry> {
    let since_1_8 = protocol_version.spec_number() >= ProtocolVersion::V1_8.spec_number();
    let info = match client.game_profile {
        Some(profile) => if since_1_8 && profile.uuid != 0 {
            match profile.textures {
                Some(textures) => seq![PacketRegistry::PlayerInfoUpdate(PlayerInfoUpdatePacket {
                    username: profile.username,
                    uuid: profile.uuid,
                    textures,
                })],
                None => if fetch_player_skins {
                    seq![PacketRegistry::SkinLookup(SkinLookupRequest { username: profile.username, uuid: profile.uuid })]
                } else {
                    Seq::empty()
                },
            }
        } else {
            Seq::empty()
        },
        None => Seq::empty(),
    };
    info + if since_1_8 {
        seq![PacketRegistry::SetEntityMetadata(SetEntityMetadataPacket { skin_layers: 0 })]
    } else {
        Seq::empty()
    }
}

/// Queues the skin packets of the player.
pub fn send_skin_packets(batch: &mut Batch<PacketRegistry>, client_state: &ClientState, server_state: &ServerState)
    ensures
        final(batch)@ == old(batch)@ + spec_skin_packets(client_state@.protocol_version, client_state@, server_state@.fetch_player_skins),
{
    let protocol_version = client_state.protocol_version();
    let since_1_8 = protocol_version.is_after_inclusive(ProtocolVersion::V1_8);
    let ghost start = batch@;
    match client_state.game_profile() {
        Some(profile) => {
            if since_1_8 && profile.uuid() != 0 {
                match profile.textures() {
                    Some(textures) => {
                        let packet = PlayerInfoUpdatePacket {
                            username: profile.username_string(),
                            uuid: profile.uuid(),
                            textures: textures.duplicate(),
                        };
                        batch.queue(PacketRegistry::PlayerInfoUpdate(packet));
                    },
                    None => {
                        if server_state.fetch_player_skins() {
                            let request = SkinLookupRequest { username: profile.username_string(), uuid: profile.uuid() };
                            batch.queue(PacketRegistry::SkinLookup(request));
                        }
                    },
                }
            }
        },
        None => {},
    }
    if since_1_8 {
        batch.queue(PacketRegistry::SetEntityMetadata(SetEntityMetadataPacket { skin_layers: 0 }));
    }
    assert(batch@ =~= start + spec_skin_packets(protocol_version, client_state@, server_state@.fetch_player_skins));
}

/// What the login packet says of the registries for a protocol version, or
/// why it cannot be built.
pub open spec fn spec_login_registry(protocol_version: ProtocolVersion, data: VersionData) -> Result<LoginRegistry, Seq<char>> {
    let n = protocol_version.spec_number();
    if ProtocolVersion::V1_7_2.spec_number() <= n <= ProtocolVersion::V1_15_2.spec_number() {
        Ok(LoginRegistry::Dimension)
    } else if ProtocolVersion::V1_16.spec_number() <= n <= ProtocolVersion::V1_20.spec_number() {
        match data.registries {
            Registries::V1_19 { registry_codec } => Ok(LoginRegistry::RegistryCodec { codec: registry_codec }),
            Registries::V1_16 { registry_codec } => Ok(LoginRegistry::RegistryCodec { codec: registry_codec }),
            Registries::V1_16_2 { registry_codec, dimension } => Ok(LoginRegistry::DimensionCodec { codec: registry_codec, dimension }),
            _ => Ok(LoginRegistry::Dimension),
        }
    } else if ProtocolVersion::V1_20_2.spec_number() <= n <= ProtocolVersion::V1_20_3.spec_number() {
        Ok(LoginRegistry::Dimension)
    } else if n >= ProtocolVersion::V1_20_5.spec_number() {
        match data.dimension_index {
            Some(index) => Ok(LoginRegistry::DimensionIndex { index }),
            None => Err("Dimension index was not found for version "@ + protocol_version.spec_name()),
        }
    } else {
        Err("Cannot build login packet for version "@ + protocol_version.spec_name())
    }
}

/// The game mode players get: a spectator is made creative up to 1.7.6, which
/// has no spectator mode.
pub open spec fn spec_play_game_mode(protocol_version: ProtocolVersion, game_mode: GameMode) -> GameMode {
    if protocol_version.spec_number() <= ProtocolVersion::V1_7_6.spec_number() && game_mode == GameMode::Spectator {
        GameMode::Creative
    } else {
        game_mode
    }
}

/// Builds what the login packet says of the registries.
pub fn build_login_registry(protocol_version: ProtocolVersion, registries: Registries, dimension_index: Option<i32>) -> (r: Result<LoginRegistry, PacketHandlerError>)
    ensures
        match spec_login_registry(protocol_version, VersionData { registries, dimension_index, void_biome_index: None }) {
            Ok(l) => r == Ok::<LoginRegistry, PacketHandlerError>(l),
            Err(m) => r matches Err(PacketHandlerError::InvalidState(e)) && e@ == m,
        },
{
    if protocol_version.between_inclusive(ProtocolVersion::V1_7_2, ProtocolVersion::V1_15_2) {
        Ok(LoginRegistry::Dimension)
    } else if protocol_version.between_inclusive(ProtocolVersion::V1_16, ProtocolVersion::V1_20) {
        match registries {
            Registries::V1_19 { registry_codec } => Ok(LoginRegistry::RegistryCodec { codec: registry_codec }),
            Registries::V1_16 { registry_codec } => Ok(LoginRegistry::RegistryCodec { codec: registry_codec }),
            Registries::V1_16_2 { registry_codec, dimension } => Ok(LoginRegistry::DimensionCodec { codec: registry_codec, dimension }),
            _ => Ok(LoginRegistry::Dimension),
        }
    } else if protocol_version.between_inclusive(ProtocolVersion::V1_20_2, ProtocolVersion::V1_20_3) {
        Ok(LoginRegistry::Dimension)
    } else if protocol_version.is_after_inclusive(ProtocolVersion::V1_20_5) {
        match dimension_index {
            Some(index) => Ok(LoginRegistry::DimensionIndex { index }),
            None => Err(PacketHandlerError::InvalidState(concat("Dimension index was not found for version ", protocol_version.humanize()))),
        }
    } else {
        Err(PacketHandlerError::InvalidState(concat("Cannot build login packet for version ", protocol_version.humanize())))
    }
}

/// The centre chunk of the spawn position, when both its coordinates have one.
pub open spec fn spec_center_chunk(position: Position) -> Option<(i32, i32)> {
    match (spec_chunk_of(position.x), spec_chunk_of(position.z)) {
        (Some(x), Some(z)) => Some((x, z)),
        _ => None,
    }
}

/// Finds the chunk that a horizontal position lies in.
pub fn world_position_to_chunk_position(position: Position) -> (r: Result<(i32, i32), PacketHandlerError>)
    ensures
        match spec_center_chunk(position) {
            Some(c) => r == Ok::<(i32, i32), PacketHandlerError>(c),
            None => r matches Err(PacketHandlerError::InvalidState(m)) && m@ == spec_conversion_failed(),
        },
{
    let x = match chunk_of(position.x) {
        Some(x) => x,
        None => return Err(PacketHandlerError::invalid_state("Conversion failed: Invalid or out-of-range float")),
    };
    let z = match chunk_of(position.z) {
        Some(z) => z,
        None => return Err(PacketHandlerError::invalid_state("Conversion failed: Invalid or out-of-range float")),
    };
    Ok((x, z))
}

/// Why the play packets cannot be sent, if they cannot: the login packet
/// cannot be built, or (from 1.19 on) the void biome is unknown or the spawn
/// has no chunk.
pub open spec fn spec_play_error(protocol_version: ProtocolVersion, server: ServerStateView, data: VersionData) -> Option<Seq<char>> {
    match spec_login_registry(protocol_version, data) {
        Err(m) => Some(m),
        Ok(_) => if protocol_version.spec_number() >= ProtocolVersion::V1_19.spec_number() {
            if data.void_biome_index is None {
                Some("Cannot find void biome index for version "@ + protocol_version.spec_name())
            } else if spec_center_chunk(server.spawn_position) is None {
                Some(spec_conversion_failed())
            } else {
                None
            }
        } else {
            None
        },
    }
}

/// The packets that open the play state: the login packet, the spawn
/// position and, from 1.13 on, the command tree.
pub open spec fn spec_login_packets(protocol_version: ProtocolVersion, server: ServerStateView, login: LoginRegistry) -> Seq<PacketRegistry> {
    let n = protocol_version.spec_number();
    let position = server.spawn_position;
    seq![PacketRegistry::Login(LoginPacket {
        dimension: server.spawn_dimension,
        registry: login,
        game_mode: spec_play_game_mode(protocol_version, server.game_mode).spec_value(),
        view_distance: server.view_distance,
        hardcore: server.hardcore,
    })]
    + (if n >= ProtocolVersion::V1_19.spec_number() {
        seq![PacketRegistry::SetDefaultSpawnPosition(SetDefaultSpawnPositionPacket { position })]
    } else {
        Seq::empty()
    })
    + seq![PacketRegistry::SynchronizePlayerPosition(SynchronizePlayerPositionPacket { position })]
    + (if n >= ProtocolVersion::V1_13.spec_number() {
        seq![PacketRegistry::Commands(CommandsPacket {})]
    } else {
        Seq::empty()
    })
}

/// The packets that greet the player: the brand (from 1.13 up to 1.20), the
/// welcome message when there is one, and the time of day.
pub open spec fn spec_greeting_packets(protocol_version: ProtocolVersion, server: ServerStateView) -> Seq<PacketRegistry> {
    let n = protocol_version.spec_number();
    let ticks = server.time_world_ticks;
    (if ProtocolVersion::V1_13.spec_number() <= n <= ProtocolVersion::V1_20.spec_number() {
        seq![PacketRegistry::PlayClientBoundPluginMessage(PluginMessagePacket { channel: "minecraft:brand", data: "PicoLimbo" })]
    } else {
        Seq::empty()
    })
    + (if server.welcome_message@.len() > 0 {
        seq![spec_chat(protocol_version, server.welcome_message)]
    } else {
        Seq::empty()
    })
    + seq![PacketRegistry::UpdateTime(UpdateTimePacket { world_age: ticks, time_of_day: ticks, time_advances: !server.lock_time })]
}

/// The packets that show the world around the spawn chunk (sent from 1.19
/// on): the wait-for-chunks event from 1.20.3 on, the centre chunk, then the
/// empty chunks.
pub open spec fn spec_world_packets(protocol_version: ProtocolVersion, center: (i32, i32), view_distance: i32, biome_id: i32, dimension: Dimension) -> Seq<PacketRegistry> {
    (if protocol_version.spec_number() >= ProtocolVersion::V1_20_3.spec_number() {
        seq![PacketRegistry::GameEvent(GameEventPacket { event: 13, value_bits: 0 })]
    } else {
        Seq::empty()
    })
    + seq![PacketRegistry::SetCenterChunk(SetCenterChunkPacket { chunk_x: center.0, chunk_z: center.1 })]
    + spec_chunks(center.0 as int, center.1 as int, view_distance as int, biome_id, dimension)
}

/// The packets that put a player in the world, in the order they are sent.
pub open spec fn spec_play_packets(
    protocol_version: ProtocolVersion,
    server: ServerStateView,
    client: ClientStateView,
    login: LoginRegistry,
    boss_bar_uuid: u128,
    data: VersionData,
) -> Seq<PacketRegistry> {
    spec_login_packets(protocol_version, server, login)
    + spec_greeting_packets(protocol_version, server)
    + spec_tab_list_packets(server.tab_list)
    + spec_skin_packets(protocol_version, client, server.fetch_player_skins)
    + spec_boss_bar_packets(server.boss_bar, boss_bar_uuid)
    + (if protocol_version.spec_number() >= ProtocolVersion::V1_19.spec_number() {
        spec_world_packets(
            protocol_version,
            spec_center_chunk(server.spawn_position).unwrap(),
            server.view_distance,
            data.void_biome_index.unwrap(),
            server.spawn_dimension,
        )
    } else {
        Seq::empty()
    })
}

/// The play packets open with the login packet, and the player is always
/// moved to the spawn: the synchronize-position packet comes second, or
/// third after the default spawn position from 1.19 on.
pub proof fn lemma_play_packets_open_with_login(
    protocol_version: ProtocolVersion,
    server: ServerStateView,
    client: ClientStateView,
    login: LoginRegistry,
    boss_bar_uuid: u128,
    data: VersionData,
)
    ensures
        ({
            let packets = spec_play_packets(protocol_version, server, client, login, boss_bar_uuid, data);
            let sync = PacketRegistry::SynchronizePlayerPosition(SynchronizePlayerPositionPacket { position: server.spawn_position });
            &&& packets[0] matches PacketRegistry::Login(l) && l.registry == login && l.dimension == server.spawn_dimension
            &&& if protocol_version.spec_number() >= ProtocolVersion::V1_19.spec_number() {
                &&& packets[1] == PacketRegistry::SetDefaultSpawnPosition(SetDefaultSpawnPositionPacket { position: server.spawn_position })
                &&& packets[2] == sync
            } else {
                packets[1] == sync
            }
        }),
{
    let l = spec_login_packets(protocol_version, server, login);
    let rest = spec_play_packets(protocol_version, server, client, login, boss_bar_uuid, data);
    assert(rest =~= l + (rest.skip(l.len() as int)));
}

/// Whether every time update among `s` is `u`.
spec fn only_time_update(s: Seq<PacketRegistry>, u: PacketRegistry) -> bool {
    forall|i: int| 0 <= i < s.len() && (#[trigger] s[i] is UpdateTime) ==> s[i] == u
}

proof fn lemma_only_time_update_concat(a: Seq<PacketRegistry>, b: Seq<PacketRegistry>, u: PacketRegistry)
    requires
        only_time_update(a, u),
        only_time_update(b, u),
    ensures
        only_time_update(a + b, u),
{
    assert forall|i: int| 0 <= i < (a + b).len() && (#[trigger] (a + b)[i] is UpdateTime) implies (a + b)[i] == u by {
        if i < a.len() {
            assert((a + b)[i] == a[i]);
        } else {
            assert((a + b)[i] == b[i - a.len()]);
        }
    }
}

/// The one time update among the play packets, and where it stands.
proof fn lemma_play_packets_time(
    protocol_version: ProtocolVersion,
    server: ServerStateView,
    client: ClientStateView,
    login: LoginRegistry,
    boss_bar_uuid: u128,
    data: VersionData,
)
    ensures
        ({
            let packets = spec_play_packets(protocol_version, server, client, login, boss_bar_uuid, data);
            let u = PacketRegistry::UpdateTime(UpdateTimePacket {
                world_age: server.time_world_ticks,
                time_of_day: server.time_world_ticks,
                time_advances: !server.lock_time,
            });
            &&& exists|i: int| 0 <= i < packets.len() && #[trigger] packets[i] == u
            &&& only_time_update(packets, u)
        }),
{
    let u = PacketRegistry::UpdateTime(UpdateTimePacket {
        world_age: server.time_world_ticks,
        time_of_day: server.time_world_ticks,
        time_advances: !server.lock_time,
    });
    let l = spec_login_packets(protocol_version, server, login);
    let g = spec_greeting_packets(protocol_version, server);
    let t = spec_tab_list_packets(server.tab_list);
    let k = spec_skin_packets(protocol_version, client, server.fetch_player_skins);
    let o = spec_boss_bar_packets(server.boss_bar, boss_bar_uuid);
    let w = if protocol_version.spec_number() >= ProtocolVersion::V1_19.spec_number() {
        spec_world_packets(
            protocol_version,
            spec_center_chunk(server.spawn_position).unwrap(),
            server.view_distance,
            data.void_biome_index.unwrap(),
            server.spawn_dimension,
        )
    } else {
        Seq::empty()
    };
    let packets = spec_play_packets(protocol_version, server, client, login, boss_bar_uuid, data);
    assert(packets == l + g + t + k + o + w);
    assert(only_time_update(l, u));
    assert(only_time_update(g, u));
    assert(g[g.len() - 1] == u);
    assert(only_time_update(t, u));
    assert(only_time_update(k, u));
    assert(only_time_update(o, u));
    assert(only_time_update(w, u)) by {
        if protocol_version.spec_number() >= ProtocolVersion::V1_19.spec_number() {
            let center = spec_center_chunk(server.spawn_position).unwrap();
            let head = if protocol_version.spec_number() >= ProtocolVersion::V1_20_3.spec_number() {
                seq![PacketRegistry::GameEvent(GameEventPacket { event: 13, value_bits: 0 })]
            } else {
                Seq::empty()
            };
            let middle = seq![PacketRegistry::SetCenterChunk(SetCenterChunkPacket { chunk_x: center.0, chunk_z: center.1 })];
            let chunks = spec_chunks(center.0 as int, center.1 as int, server.view_distance as int, data.void_biome_index.unwrap(), server.spawn_dimension);
            lemma_chunks_are_chunks(center.0 as int, center.1 as int, server.view_distance as int, data.void_biome_index.unwrap(), server.spawn_dimension);
            assert(only_time_update(head, u));
            assert(only_time_update(middle, u));
            assert(only_time_update(chunks, u));
            lemma_only_time_update_concat(head, middle, u);
            lemma_only_time_update_concat(head + middle, chunks, u);
            assert(w == head + middle + chunks);
        }
    }
    lemma_only_time_update_concat(l, g, u);
    lemma_only_time_update_concat(l + g, t, u);
    lemma_only_time_update_concat(l + g + t, k, u);
    lemma_only_time_update_concat(l + g + t + k, o, u);
    lemma_only_time_update_concat(l + g + t + k + o, w, u);
    let at = l.len() + g.len() - 1;
    assert(packets[at] == u);
}

/// Sending the play packets tells the client the configured time of day, and
/// lets time run exactly when the server does not lock it: among the packets
/// queued there is a time update, and every time update queued has the
/// configured ticks as world age and time of day and advances the time if
/// and only if `lock_time` is off.
pub proof fn lemma_play_time_follows_lock(
    server: ServerStateView,
    data: VersionData,
    batch_before: Seq<PacketRegistry>,
    client_before: ClientStateView,
    r: Result<(), PacketHandlerError>,
    batch_after: Seq<PacketRegistry>,
    client_after: ClientStateView,
)
    requires
        spec_play_outcome(server, data, batch_before, client_before, r, batch_after, client_after),
        r is Ok,
    ensures
        batch_after.len() >= batch_before.len(),
        batch_after.take(batch_before.len() as int) == batch_before,
        ({
            let sent = batch_after.skip(batch_before.len() as int);
            &&& exists|i: int| 0 <= i < sent.len() && (#[trigger] sent[i] is UpdateTime)
            &&& forall|i: int| 0 <= i < sent.len() && (#[trigger] sent[i] is UpdateTime) ==> {
                let t = sent[i]->UpdateTime_0;
                &&& t.time_advances == !server.lock_time
                &&& t.world_age == server.time_world_ticks
                &&& t.time_of_day == server.time_world_ticks
            }
        }),
{
    let protocol_version = client_before.protocol_version;
    let login = spec_login_registry(protocol_version, data)->Ok_0;
    let uuid = choose|uuid: u128| is_uuid_v4(uuid) && batch_after == batch_before + #[trigger] spec_play_packets(
        protocol_version,
        server,
        client_before,
        login,
        uuid,
        data,
    );
    let packets = spec_play_packets(protocol_version, server, client_before, login, uuid, data);
    lemma_play_packets_time(protocol_version, server, client_before, login, uuid, data);
    let sent = batch_after.skip(batch_before.len() as int);
    assert(sent =~= packets);
    assert(batch_after.take(batch_before.len() as int) =~= batch_before);
    let u = PacketRegistry::UpdateTime(UpdateTimePacket {
        world_age: server.time_world_ticks,
        time_of_day: server.time_world_ticks,
        time_advances: !server.lock_time,
    });
    let j = choose|j: int| 0 <= j < packets.len() && #[trigger] packets[j] == u;
    assert(sent[j] is UpdateTime);
}

/// Sending the play packets puts the player in the configured world: the
/// first packet queued is the login packet with the server's spawn
/// dimension, view distance, hardcore flag and game mode (a spectator is
/// made creative, 1, up to 1.7.6, which has no spectator mode); the welcome
/// message, when there is one, is queued in the chat packet that the client's
/// version reads (a system chat message from 1.19 on, a legacy chat message
/// before); the brand is queued from 1.13 up to 1.20; and the client ends in
/// the play state with keep-alive packets asked for, nothing else of it
/// changed.
pub proof fn lemma_play_packets_greet(
    server: ServerStateView,
    data: VersionData,
    batch_before: Seq<PacketRegistry>,
    client_before: ClientStateView,
    r: Result<(), PacketHandlerError>,
    batch_after: Seq<PacketRegistry>,
    client_after: ClientStateView,
)
    requires
        spec_play_outcome(server, data, batch_before, client_before, r, batch_after, client_after),
        r is Ok,
    ensures
        ({
            let pv = client_before.protocol_version;
            let sent = batch_after.skip(batch_before.len() as int);
            &&& sent.len() > 0
            &&& sent[0] matches PacketRegistry::Login(l) && {
                &&& l.dimension == server.spawn_dimension
                &&& l.view_distance == server.view_distance
                &&& l.hardcore == server.hardcore
                &&& l.game_mode == if pv.spec_number() <= ProtocolVersion::V1_7_6.spec_number() && server.game_mode == GameMode::Spectator {
                    1u8
                } else {
                    server.game_mode.spec_value()
                }
            }
            &&& server.welcome_message@.len() > 0 && pv.spec_number() >= ProtocolVersion::V1_19.spec_number() ==> exists|i: int|
                0 <= i < sent.len() && #[trigger] sent[i] == PacketRegistry::SystemChatMessage(SystemChatMessagePacket { message: server.welcome_message })
            &&& server.welcome_message@.len() > 0 && pv.spec_number() < ProtocolVersion::V1_19.spec_number() ==> exists|i: int|
                0 <= i < sent.len() && #[trigger] sent[i] == PacketRegistry::LegacyChatMessage(LegacyChatMessagePacket { message: server.welcome_message })
            &&& ProtocolVersion::V1_13.spec_number() <= pv.spec_number() <= ProtocolVersion::V1_20.spec_number() ==> exists|i: int|
                0 <= i < sent.len() && #[trigger] sent[i] == PacketRegistry::PlayClientBoundPluginMessage(PluginMessagePacket { channel: "minecraft:brand", data: "PicoLimbo" })
            &&& client_after.state == State::Play
            &&& client_after.keep_alive != KeepAliveStatus::Disabled
            &&& client_after == (ClientStateView { state: State::Play, keep_alive: client_after.keep_alive, ..client_before })
        }),
{
    let pv = client_before.protocol_version;
    let login = spec_login_registry(pv, data)->Ok_0;
    let uuid = choose|uuid: u128| is_uuid_v4(uuid) && batch_after == batch_before + #[trigger] spec_play_packets(
        pv,
        server,
        client_before,
        login,
        uuid,
        data,
    );
    let packets = spec_play_packets(pv, server, client_before, login, uuid, data);
    let sent = batch_after.skip(batch_before.len() as int);
    assert(sent =~= packets);
    let l = spec_login_packets(pv, server, login);
    let g = spec_greeting_packets(pv, server);
    let rest = packets.skip((l.len() + g.len()) as int);
    assert(packets =~= l + g + rest);
    let brand = if ProtocolVersion::V1_13.spec_number() <= pv.spec_number() <= ProtocolVersion::V1_20.spec_number() {
        seq![PacketRegistry::PlayClientBoundPluginMessage(PluginMessagePacket { channel: "minecraft:brand", data: "PicoLimbo" })]
    } else {
        Seq::<PacketRegistry>::empty()
    };
    assert(packets[0] == l[0]);
    if ProtocolVersion::V1_13.spec_number() <= pv.spec_number() <= ProtocolVersion::V1_20.spec_number() {
        assert(sent[l.len() as int] == g[0]);
    }
    if server.welcome_message@.len() > 0 {
        assert(sent[(l.len() + brand.len()) as int] == g[brand.len() as int]);
    }
}

/// What the world packets hold: the centre chunk, then every chunk of the
/// square around it.
proof fn lemma_world_packets_hold(protocol_version: ProtocolVersion, center: (i32, i32), view_distance: i32, biome_id: i32, dimension: Dimension)
    ensures
        ({
            let w = spec_world_packets(protocol_version, center, view_distance, biome_id, dimension);
            &&& w.contains(PacketRegistry::SetCenterChunk(SetCenterChunkPacket { chunk_x: center.0, chunk_z: center.1 }))
            &&& view_distance >= 0 ==> forall|x: int, z: int| in_square(center.0 as int, center.1 as int, view_distance as int, x, z)
                ==> w.contains(#[trigger] spec_chunk(x, z, biome_id, dimension))
        }),
{
    let w = spec_world_packets(protocol_version, center, view_distance, biome_id, dimension);
    let head = if protocol_version.spec_number() >= ProtocolVersion::V1_20_3.spec_number() {
        seq![PacketRegistry::GameEvent(GameEventPacket { event: 13, value_bits: 0 })]
    } else {
        Seq::empty()
    };
    let chunks = spec_chunks(center.0 as int, center.1 as int, view_distance as int, biome_id, dimension);
    assert(w[head.len() as int] == PacketRegistry::SetCenterChunk(SetCenterChunkPacket { chunk_x: center.0, chunk_z: center.1 }));
    if view_distance >= 0 {
        lemma_chunks_fill_square(center.0 as int, center.1 as int, view_distance as int, biome_id, dimension);
        assert forall|x: int, z: int| in_square(center.0 as int, center.1 as int, view_distance as int, x, z)
            implies w.contains(#[trigger] spec_chunk(x, z, biome_id, dimension)) by {
            let c = spec_chunk(x, z, biome_id, dimension);
            assert(chunks.contains(c));
            let j = choose|j: int| 0 <= j < chunks.len() && chunks[j] == c;
            assert(w[head.len() + 1 + j] == chunks[j]);
        }
    }
}

/// What the play packets hold besides the login and the greeting.
proof fn lemma_play_packets_hold(
    protocol_version: ProtocolVersion,
    server: ServerStateView,
    client: ClientStateView,
    login: LoginRegistry,
    boss_bar_uuid: u128,
    data: VersionData,
)
    ensures
        ({
            let packets = spec_play_packets(protocol_version, server, client, login, boss_bar_uuid, data);
            &&& server.tab_list.header@.len() > 0 || server.tab_list.footer@.len() > 0 ==> packets.contains(
                PacketRegistry::TabList(TabListPacket { header: server.tab_list.header, footer: server.tab_list.footer }),
            )
            &&& packets.contains(spec_boss_bar_packets(server.boss_bar, boss_bar_uuid)[0]) || server.boss_bar is Disabled
            &&& forall|p: PacketRegistry| #[trigger] spec_skin_packets(protocol_version, client, server.fetch_player_skins).contains(p)
                ==> packets.contains(p)
            &&& protocol_version.spec_number() >= ProtocolVersion::V1_19.spec_number() ==> {
                let w = spec_world_packets(
                    protocol_version,
                    spec_center_chunk(server.spawn_position).unwrap(),
                    server.view_distance,
                    data.void_biome_index.unwrap(),
                    server.spawn_dimension,
                );
                forall|p: PacketRegistry| #[trigger] w.contains(p) ==> packets.contains(p)
            }
        }),
{
    let packets = spec_play_packets(protocol_version, server, client, login, boss_bar_uuid, data);
    let l = spec_login_packets(protocol_version, server, login);
    let g = spec_greeting_packets(protocol_version, server);
    let t = spec_tab_list_packets(server.tab_list);
    let k = spec_skin_packets(protocol_version, client, server.fetch_player_skins);
    let o = spec_boss_bar_packets(server.boss_bar, boss_bar_uuid);
    let front = (l.len() + g.len() + t.len() + k.len() + o.len()) as int;
    let w = packets.skip(front);
    assert(packets =~= l + g + t + k + o + w);
    if server.tab_list.header@.len() > 0 || server.tab_list.footer@.len() > 0 {
        assert(packets[(l.len() + g.len()) as int] == t[0]);
    }
    if !(server.boss_bar is Disabled) {
        assert(packets[(l.len() + g.len() + t.len() + k.len()) as int] == o[0]);
    }
    assert forall|p: PacketRegistry| #[trigger] k.contains(p) implies packets.contains(p) by {
        let j = choose|j: int| 0 <= j < k.len() && k[j] == p;
        assert(packets[(l.len() + g.len() + t.len()) + j] == k[j]);
    }
    if protocol_version.spec_number() >= ProtocolVersion::V1_19.spec_number() {
        let world = spec_world_packets(
            protocol_version,
            spec_center_chunk(server.spawn_position).unwrap(),
            server.view_distance,
            data.void_biome_index.unwrap(),
            server.spawn_dimension,
        );
        assert(packets == l + g + t + k + o + world);
        assert(w =~= world);
        assert forall|p: PacketRegistry| #[trigger] w.contains(p) implies packets.contains(p) by {
            let j = choose|j: int| 0 <= j < w.len() && w[j] == p;
            assert(packets[front + j] == w[j]);
        }
    }
}

/// Sending the play packets shows the player what the server is set up
/// with: the player list header and footer when one of them is set; the
/// boss bar, when enabled, with its title, health, colour and division under
/// a version-4 UUID; and, from 1.19 on, the centre chunk at the spawn and
/// every chunk of the square of the view distance around it, in the spawn
/// dimension with the void biome. From 1.8 on a player with a non-nil id
/// is shown in the player list with its skin when it is known, or its skin is
/// asked for when it is not and the server fetches skins; and its skin
/// layers are shown.
pub proof fn lemma_play_packets_show_world(
    server: ServerStateView,
    data: VersionData,
    batch_before: Seq<PacketRegistry>,
    client_before: ClientStateView,
    r: Result<(), PacketHandlerError>,
    batch_after: Seq<PacketRegistry>,
    client_after: ClientStateView,
)
    requires
        spec_play_outcome(server, data, batch_before, client_before, r, batch_after, client_after),
        r is Ok,
    ensures
        ({
            let pv = client_before.protocol_version;
            let sent = batch_after.skip(batch_before.len() as int);
            &&& server.tab_list.header@.len() > 0 || server.tab_list.footer@.len() > 0 ==> sent.contains(
                PacketRegistry::TabList(TabListPacket { header: server.tab_list.header, footer: server.tab_list.footer }),
            )
            &&& match server.boss_bar {
                BossBar::Enabled { title, health_bits, color, division } => exists|b: BossBarPacket| {
                    &&& #[trigger] sent.contains(PacketRegistry::BossBar(b))
                    &&& b.title == title
                    &&& b.health_bits == health_bits
                    &&& b.color == BossBarColor::spec_from_config(color)
                    &&& b.division == division
                    &&& is_uuid_v4(b.uuid)
                },
                BossBar::Disabled => true,
            }
            &&& pv.spec_number() >= ProtocolVersion::V1_19.spec_number() ==> {
                let center = spec_center_chunk(server.spawn_position).unwrap();
                &&& sent.contains(PacketRegistry::SetCenterChunk(SetCenterChunkPacket { chunk_x: center.0, chunk_z: center.1 }))
                &&& server.view_distance >= 0 ==> forall|x: int, z: int| in_square(center.0 as int, center.1 as int, server.view_distance as int, x, z)
                    ==> sent.contains(#[trigger] spec_chunk(x, z, data.void_biome_index.unwrap(), server.spawn_dimension))
            }
            &&& pv.spec_number() >= ProtocolVersion::V1_8.spec_number() ==> {
                &&& sent.contains(PacketRegistry::SetEntityMetadata(SetEntityMetadataPacket { skin_layers: 0 }))
                &&& match client_before.game_profile {
                    Some(profile) => profile.uuid != 0 ==> match profile.textures {
                        Some(textures) => sent.contains(PacketRegistry::PlayerInfoUpdate(PlayerInfoUpdatePacket {
                            username: profile.username,
                            uuid: profile.uuid,
                            textures,
                        })),
                        None => server.fetch_player_skins ==> sent.contains(PacketRegistry::SkinLookup(SkinLookupRequest {
                            username: profile.username,
                            uuid: profile.uuid,
                        })),
                    },
                    None => true,
                }
            }
        }),
{
    let pv = client_before.protocol_version;
    let login = spec_login_registry(pv, data)->Ok_0;
    let uuid = choose|uuid: u128| is_uuid_v4(uuid) && batch_after == batch_before + #[trigger] spec_play_packets(
        pv,
        server,
        client_before,
        login,
        uuid,
        data,
    );
    let packets = spec_play_packets(pv, server, client_before, login, uuid, data);
    let sent = batch_after.skip(batch_before.len() as int);
    assert(sent =~= packets);
    lemma_play_packets_hold(pv, server, client_before, login, uuid, data);
    let k = spec_skin_packets(pv, client_before, server.fetch_player_skins);
    if pv.spec_number() >= ProtocolVersion::V1_8.spec_number() {
        assert(k.contains(k[k.len() - 1]));
        match client_before.game_profile {
            Some(profile) => if profile.uuid != 0 && (profile.textures is Some || server.fetch_player_skins) {
                assert(k.contains(k[0]));
            },
            None => {},
        }
    }
    match server.boss_bar {
        BossBar::Enabled { title, health_bits, color, division } => {
            let b = BossBarPacket { uuid, title, health_bits, color: BossBarColor::spec_from_config(color), division, flags: 0 };
            assert(spec_boss_bar_packets(server.boss_bar, uuid)[0] == PacketRegistry::BossBar(b));
            assert(sent.contains(PacketRegistry::BossBar(b)));
        },
        BossBar::Disabled => {},
    }
    if pv.spec_number() >= ProtocolVersion::V1_19.spec_number() {
        let center = spec_center_chunk(server.spawn_position).unwrap();
        lemma_world_packets_hold(pv, center, server.view_distance, data.void_biome_index.unwrap(), server.spawn_dimension);
    }
}

/// Queues the login packet, the spawn position and the command tree.
fn queue_login_packets(batch: &mut Batch<PacketRegistry>, protocol_version: ProtocolVersion, server_state: &ServerState, login_registry: LoginRegistry)
    ensures
        final(batch)@ == old(batch)@ + spec_login_packets(protocol_version, server_state@, login_registry),
{
    let ghost start = batch@;
    let expected_game_mode = server_state.game_mode();
    let game_mode = if protocol_version.is_before_inclusive(ProtocolVersion::V1_7_6) && expected_game_mode == GameMode::Spectator {
        GameMode::Creative
    } else {
        expected_game_mode
    };
    let login = LoginPacket {
        dimension: server_state.spawn_dimension(),
        registry: login_registry,
        game_mode: game_mode.value(),
        view_distance: server_state.view_distance(),
        hardcore: server_state.is_hardcore(),
    };
    batch.queue(PacketRegistry::Login(login));
    let position = server_state.spawn_position();
    if protocol_version.is_after_inclusive(ProtocolVersion::V1_19) {
        batch.queue(PacketRegistry::SetDefaultSpawnPosition(SetDefaultSpawnPositionPacket { position }));
    }
    batch.queue(PacketRegistry::SynchronizePlayerPosition(SynchronizePlayerPositionPacket { position }));
    if protocol_version.is_after_inclusive(ProtocolVersion::V1_13) {
        batch.queue(PacketRegistry::Commands(CommandsPacket {}));
    }
    assert(batch@ =~= start + spec_login_packets(protocol_version, server_state@, login_registry));
}

/// Queues the brand, the welcome message and the time of day.
fn queue_greeting_packets(batch: &mut Batch<PacketRegistry>, protocol_version: ProtocolVersion, server_state: &ServerState)
    ensures
        final(batch)@ == old(batch)@ + spec_greeting_packets(protocol_version, server_state@),
{
    let ghost start = batch@;
    // The brand is not shown before 1.13, and is sent while configuring from 1.20.2 on.
    if protocol_version.between_inclusive(ProtocolVersion::V1_13, ProtocolVersion::V1_20) {
        batch.queue(PacketRegistry::PlayClientBoundPluginMessage(PluginMessagePacket { channel: "minecraft:brand", data: "PicoLimbo" }));
    }
    match server_state.welcome_message() {
        Some(message) => send_message(batch, message, protocol_version),
        None => {},
    }
    let ticks = server_state.time_world_ticks();
    let lock_time = server_state.is_time_locked();
    batch.queue(PacketRegistry::UpdateTime(UpdateTimePacket { world_age: ticks, time_of_day: ticks, time_advances: !lock_time }));
    assert(batch@ =~= start + spec_greeting_packets(protocol_version, server_state@));
}

/// Queues the packets that show the world around the spawn chunk.
fn queue_world_packets(batch: &mut Batch<PacketRegistry>, protocol_version: ProtocolVersion, center: (i32, i32), view_distance: i32, biome_id: i32, dimension: Dimension)
    ensures
        final(batch)@ == old(batch)@ + spec_world_packets(protocol_version, center, view_distance, biome_id, dimension),
{
    let ghost start = batch@;
    if protocol_version.is_after_inclusive(ProtocolVersion::V1_20_3) {
        batch.queue(PacketRegistry::GameEvent(GameEventPacket { event: 13, value_bits: 0 }));
    }
    batch.queue(PacketRegistry::SetCenterChunk(SetCenterChunkPacket { chunk_x: center.0, chunk_z: center.1 }));
    send_chunks(batch, center, view_distance, biome_id, dimension);
    assert(batch@ =~= start + spec_world_packets(protocol_version, center, view_distance, biome_id, dimension));
}

/// What sending the play packets does: on an error, the reason, with nothing
/// queued and the client unchanged; else the play packets queued after what
/// was there (whatever random version-4 id the boss bar got), and the client in the play state
/// with keep-alive packets asked for.
pub open spec fn spec_play_outcome(
    server: ServerStateView,
    data: VersionData,
    batch_before: Seq<PacketRegistry>,
    client_before: ClientStateView,
    r: Result<(), PacketHandlerError>,
    batch_after: Seq<PacketRegistry>,
    client_after: ClientStateView,
) -> bool {
    let protocol_version = client_before.protocol_version;
    match spec_play_error(protocol_version, server, data) {
        Some(m) => {
            &&& r matches Err(PacketHandlerError::InvalidState(e)) && e@ == m
            &&& batch_after == batch_before
            &&& client_after == client_before
        },
        None => {
            &&& r is Ok
            &&& exists|boss_bar_uuid: u128| is_uuid_v4(boss_bar_uuid) && batch_after == batch_before + #[trigger] spec_play_packets(
                protocol_version,
                server,
                client_before,
                spec_login_registry(protocol_version, data)->Ok_0,
                boss_bar_uuid,
                data,
            )
            &&& client_after == (ClientStateView {
                state: State::Play,
                keep_alive: advance_should_enable(client_before.keep_alive),
                ..client_before
            })
        },
    }
}

/// Checks what the play packets need, in the order it is needed: the login
/// packet's registries, then (from 1.19 on) the void biome and the spawn chunk.
fn check_play_data(protocol_version: ProtocolVersion, server_state: &ServerState, data: VersionData) -> (r: Result<(LoginRegistry, i32, (i32, i32)), PacketHandlerError>)
    ensures
        match spec_play_error(protocol_version, server_state@, data) {
            Some(m) => r matches Err(PacketHandlerError::InvalidState(e)) && e@ == m,
            None => r matches Ok((login, biome_id, center)) && {
                &&& login == spec_login_registry(protocol_version, data)->Ok_0
                &&& protocol_version.spec_number() >= ProtocolVersion::V1_19.spec_number() ==> {
                    &&& biome_id == data.void_biome_index.unwrap()
                    &&& center == spec_center_chunk(server_state@.spawn_position).unwrap()
                }
            },
        },
{
    let ghost spec_data = data;
    let VersionData { registries, dimension_index, void_biome_index } = data;
    let login_registry = build_login_registry(protocol_version, registries, dimension_index)?;
    let mut biome_id: i32 = 0;
    let mut center: (i32, i32) = (0, 0);
    if protocol_version.is_after_inclusive(ProtocolVersion::V1_19) {
        biome_id = match void_biome_index {
            Some(b) => b,
            None => return Err(PacketHandlerError::InvalidState(concat("Cannot find void biome index for version ", protocol_version.humanize()))),
        };
        center = world_position_to_chunk_position(server_state.spawn_position())?;
    }
    Ok((login_registry, biome_id, center))
}

/// Queues the play packets, in order, with a random id for the boss bar.
fn queue_play_packets(
    batch: &mut Batch<PacketRegistry>,
    client_state: &ClientState,
    server_state: &ServerState,
    login: LoginRegistry,
    biome_id: i32,
    center: (i32, i32),
    Ghost(data): Ghost<VersionData>,
)
    requires
        client_state@.protocol_version.spec_number() >= ProtocolVersion::V1_19.spec_number() ==> {
            &&& biome_id == data.void_biome_index.unwrap()
            &&& center == spec_center_chunk(server_state@.spawn_position).unwrap()
        },
    ensures
        exists|boss_bar_uuid: u128| is_uuid_v4(boss_bar_uuid) && final(batch)@ == old(batch)@ + #[trigger] spec_play_packets(
            client_state@.protocol_version,
            server_state@,
            client_state@,
            login,
            boss_bar_uuid,
            data,
        ),
{
    let protocol_version = client_state.protocol_version();
    let ghost start = batch@;
    let ghost server = server_state@;
    let ghost client = client_state@;
    let ghost l = login;
    queue_login_packets(batch, protocol_version, server_state, login);
    let ghost a = spec_login_packets(protocol_version, server, l);
    queue_greeting_packets(batch, protocol_version, server_state);
    let ghost g = spec_greeting_packets(protocol_version, server);
    assert(batch@ =~= start + (a + g));
    send_tab_list_packets(batch, server_state);
    let ghost t = spec_tab_list_packets(server.tab_list);
    assert(batch@ =~= start + (a + g + t));
    send_skin_packets(batch, client_state, server_state);
    let ghost k = spec_skin_packets(protocol_version, client, server.fetch_player_skins);
    assert(batch@ =~= start + (a + g + t + k));
    let boss_bar_uuid = uuid_v4_from_bits(random_u128());
    send_boss_bar_packets(batch, server_state, boss_bar_uuid);
    let ghost o = spec_boss_bar_packets(server.boss_bar, boss_bar_uuid);
    assert(batch@ =~= start + (a + g + t + k + o));
    let ghost before_world = batch@;
    let since_1_19 = protocol_version.is_after_inclusive(ProtocolVersion::V1_19);
    if since_1_19 {
        queue_world_packets(batch, protocol_version, center, server_state.view_distance(), biome_id, server_state.spawn_dimension());
    } else {
        assert(batch@ =~= before_world + Seq::<PacketRegistry>::empty());
    }
    proof {
        let w = if since_1_19 {
            spec_world_packets(protocol_version, center, server.view_distance, biome_id, server.spawn_dimension)
        } else {
            Seq::<PacketRegistry>::empty()
        };
        assert(batch@ == before_world + w);
        assert(spec_play_packets(protocol_version, server, client, l, boss_bar_uuid, data) == a + g + t + k + o + w);
        assert(batch@ =~= start + (a + g + t + k + o + w));
    }
}

/// Queues the packets that put the player in the world, then moves the client
/// to the play state and asks for keep-alive packets.
///
/// `data` is the game data of the client's protocol version and the spawn
/// dimension. On an error nothing is queued and the client is left as it was.
pub fn send_play_packets(
    batch: &mut Batch<PacketRegistry>,
    client_state: &mut ClientState,
    server_state: &ServerState,
    data: VersionData,
) -> (r: Result<(), PacketHandlerError>)
    requires
        data.fits(old(client_state)@.protocol_version),
    ensures
        spec_play_outcome(server_state@, data, old(batch)@, old(client_state)@, r, final(batch)@, final(client_state)@),
{
    let protocol_version = client_state.protocol_version();
    let ghost spec_data = data;
    let (login, biome_id, center) = check_play_data(protocol_version, server_state, data)?;
    queue_play_packets(batch, client_state, server_state, login, biome_id, center, Ghost(spec_data));
    client_state.set_state(State::Play);
    client_state.set_keep_alive_should_enable();
    Ok(())
}

/// What handling the packet does, over the client's state before and after.
pub open spec fn spec_acknowledge_configuration_handled(packet: AcknowledgeConfigurationPacket, server: ServerStateView, data: VersionData, before: ClientStateView, r: Result<Batch<PacketRegistry>, PacketHandlerError>, after: ClientStateView) -> bool {
    &&& match r {
        Ok(b) => spec_play_outcome(server, data, Seq::empty(), before, Ok(()), b@, after),
        Err(e) => spec_play_outcome(server, data, Seq::empty(), before, Err(e), Seq::empty(), after),
    }
}

impl AcknowledgeConfigurationPacket {
    /// Answers the end of the configuration with the play packets.
    ///
    /// `data` is the game data of the client's protocol version and the spawn
    /// dimension.
    pub fn handle(&self, client_state: &mut ClientState, server_state: &ServerState, data: VersionData) -> (r: Result<Batch<PacketRegistry>, PacketHandlerError>)
        requires
            data.fits(old(client_state)@.protocol_version),
        ensures
            spec_acknowledge_configuration_handled(*self, server_state@, data, old(client_state)@, r, final(client_state)@),
    {
        let mut batch = Batch::new();
        send_play_packets(&mut batch, client_state, server_state, data)?;
        Ok(batch)
    }
}

} // verus!

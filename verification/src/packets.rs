use crate::config::{BossBarColorConfig, BossBarDivisionConfig};
use crate::coordinate::{Coordinate, Position};
use crate::protocol::Dimension;
use vstd::prelude::*;

verus! {

/// A named property of a player profile, such as its skin textures.
#[derive(Clone, Debug, PartialEq, Eq)]
pub struct Property {
    pub name: String,
    pub value: String,
    pub signature: Option<String>,
}

/// The handshake a client opens a connection with.
#[derive(Clone, Debug, PartialEq, Eq)]
pub struct HandshakePacket {
    /// The protocol number the client speaks, or -1 when it does not say.
    pub protocol: i32,
    /// The address the client connected to; proxies append forwarded data to it.
    pub hostname: String,
    pub port: u16,
    /// The state the client asks for: 1 status, 2 login, 3 transfer.
    pub next_state: i32,
}

/// A request for the server list entry.
#[derive(Clone, Copy, Debug, PartialEq, Eq, Default)]
pub struct StatusRequestPacket {}

/// The server list entry.
#[derive(Clone, Debug, PartialEq, Eq)]
pub struct StatusResponsePacket {
    pub version_name: String,
    pub version_protocol: i32,
    pub description: String,
    pub online_players: u32,
    pub max_players: u32,
    pub enforces_secure_chat: bool,
}

/// A ping, answered with the same timestamp.
#[derive(Clone, Copy, Debug, PartialEq, Eq, Default)]
pub struct PingRequestPacket {
    pub timestamp: i64,
}

#[derive(Clone, Copy, Debug, PartialEq, Eq)]
pub struct PongResponsePacket {
    pub timestamp: i64,
}

/// The start of a login, with the player's name and unique id.
#[derive(Clone, Debug, PartialEq, Eq)]
pub struct LoginStartPacket {
    pub name: String,
    pub uuid: u128,
}

#[derive(Clone, Copy, Debug, PartialEq, Eq, Default)]
pub struct LoginAcknowledgedPacket {}

/// A proxy's answer to a custom query: the forwarded player data.
#[derive(Clone, Debug, PartialEq, Eq)]
pub struct CustomQueryAnswerPacket {
    pub message_id: i32,
    pub data: Vec<u8>,
}

/// A custom query sent to the proxy during login.
#[derive(Clone, Debug, PartialEq, Eq)]
pub struct CustomQueryPacket {
    pub message_id: i32,
    pub channel: &'static str,
}

/// The end of the login (1.21.2 and later).
#[derive(Clone, Debug, PartialEq, Eq)]
pub struct LoginSuccessPacket {
    pub uuid: u128,
    pub username: String,
}

/// The end of the login (before 1.21.2).
#[derive(Clone, Debug, PartialEq, Eq)]
pub struct GameProfilePacket {
    pub uuid: u128,
    pub username: String,
}

/// A disconnection with its reason.
#[derive(Clone, Debug, PartialEq, Eq)]
pub struct DisconnectPacket {
    pub reason: String,
}

#[derive(Clone, Copy, Debug, PartialEq, Eq, Default)]
pub struct AcknowledgeConfigurationPacket {}

/// A plugin message on a channel, such as the server brand.
#[derive(Clone, Debug, PartialEq, Eq)]
pub struct PluginMessagePacket {
    pub channel: &'static str,
    pub data: &'static str,
}

/// The data packs the server knows, named by the game version.
#[derive(Clone, Debug, PartialEq, Eq)]
pub struct ClientBoundKnownPacksPacket {
    pub version: &'static str,
}

/// One entry of a registry, with its encoded data.
#[derive(Clone, Debug, PartialEq, Eq)]
pub struct RegistryEntry {
    pub entry_id: String,
    pub data: Vec<u8>,
}

/// Registry data: one registry with its entries (1.20.5 and later), or the
/// whole registry codec at once (1.20.2 and 1.20.3).
#[derive(Clone, Debug, PartialEq, Eq)]
pub enum RegistryDataPacket {
    Registry { registry_id: String, entries: Vec<RegistryEntry> },
    Codec { codec: Vec<u8> },
}

#[derive(Clone, Copy, Debug, PartialEq, Eq, Default)]
pub struct FinishConfigurationPacket {}

/// What the login packet says of the registries and the dimension.
#[derive(Clone, Debug, PartialEq, Eq)]
pub enum LoginRegistry {
    /// The dimension alone.
    Dimension,
    /// The registry codec (1.16, 1.16.1, 1.19 to 1.20).
    RegistryCodec { codec: Vec<u8> },
    /// The registry codec and the dimension type (1.16.2 to 1.18.2).
    DimensionCodec { codec: Vec<u8>, dimension: Vec<u8> },
    /// The index of the dimension type in the registry (1.20.5 and later).
    DimensionIndex { index: i32 },
}

/// The packet that puts a player in the world.
#[derive(Clone, Debug, PartialEq, Eq)]
pub struct LoginPacket {
    pub dimension: Dimension,
    pub registry: LoginRegistry,
    pub game_mode: u8,
    pub view_distance: i32,
    pub hardcore: bool,
}

/// Moves the player to a position.
#[derive(Clone, Copy, Debug, PartialEq, Eq)]
pub struct SynchronizePlayerPositionPacket {
    pub position: Position,
}

/// The player's report of where it moved.
#[derive(Clone, Copy, Debug, PartialEq, Eq)]
pub struct SetPlayerPositionPacket {
    pub x: Coordinate,
    pub feet_y: Coordinate,
    pub z: Coordinate,
    pub on_ground: bool,
}

/// The player's report of where it moved and where it looks (angles as `f32` bits).
#[derive(Clone, Copy, Debug, PartialEq, Eq)]
pub struct SetPlayerPositionAndRotationPacket {
    pub x: Coordinate,
    pub feet_y: Coordinate,
    pub z: Coordinate,
    pub yaw_bits: u32,
    pub pitch_bits: u32,
    pub on_ground: bool,
}

/// The position the compass points to and players respawn at.
#[derive(Clone, Copy, Debug, PartialEq, Eq)]
pub struct SetDefaultSpawnPositionPacket {
    pub position: Position,
}

/// The command tree; the server sends an empty one.
#[derive(Clone, Copy, Debug, PartialEq, Eq, Default)]
pub struct CommandsPacket {}

/// A game event, with its value as `f32` bits.
#[derive(Clone, Copy, Debug, PartialEq, Eq)]
pub struct GameEventPacket {
    pub event: u8,
    pub value_bits: u32,
}

/// The chunk the client centres its loaded area on.
#[derive(Clone, Copy, Debug, PartialEq, Eq)]
pub struct SetCenterChunkPacket {
    pub chunk_x: i32,
    pub chunk_z: i32,
}

/// The blocks and light of one chunk.
#[derive(Clone, Copy, Debug, PartialEq, Eq)]
pub struct ChunkDataAndUpdateLightPacket {
    pub chunk_x: i64,
    pub chunk_z: i64,
    pub biome_id: i32,
    pub dimension: Dimension,
}

/// A chat message from the system (1.19 and later).
#[derive(Clone, Debug, PartialEq, Eq)]
pub struct SystemChatMessagePacket {
    pub message: String,
}

/// A chat message from the system (before 1.19).
#[derive(Clone, Debug, PartialEq, Eq)]
pub struct LegacyChatMessagePacket {
    pub message: String,
}

#[derive(Clone, Copy, Debug, PartialEq, Eq)]
pub struct ClientBoundKeepAlivePacket {
    pub id: i64,
}

/// The age of the world and the time of day, and whether the time advances.
#[derive(Clone, Copy, Debug, PartialEq, Eq)]
pub struct UpdateTimePacket {
    pub world_age: i64,
    pub time_of_day: i64,
    pub time_advances: bool,
}

/// The header and footer of the player list.
#[derive(Clone, Debug, PartialEq, Eq)]
pub struct TabListPacket {
    pub header: String,
    pub footer: String,
}

/// The colour of a boss bar.
#[derive(Clone, Copy, Debug, PartialEq, Eq, Structural)]
pub enum BossBarColor {
    Pink,
    Blue,
    Red,
    Green,
    Yellow,
    Purple,
    White,
}

impl BossBarColor {
    pub open spec fn spec_from_config(c: BossBarColorConfig) -> BossBarColor {
        match c {
            BossBarColorConfig::Pink => BossBarColor::Pink,
            BossBarColorConfig::Blue => BossBarColor::Blue,
            BossBarColorConfig::Red => BossBarColor::Red,
            BossBarColorConfig::Green => BossBarColor::Green,
            BossBarColorConfig::Yellow => BossBarColor::Yellow,
            BossBarColorConfig::Purple => BossBarColor::Purple,
            BossBarColorConfig::White => BossBarColor::White,
        }
    }

    /// The colour that the configuration names.
    pub fn from_config(c: BossBarColorConfig) -> (b: BossBarColor)
        ensures
            b == Self::spec_from_config(c),
    {
        match c {
            BossBarColorConfig::Pink => BossBarColor::Pink,
            BossBarColorConfig::Blue => BossBarColor::Blue,
            BossBarColorConfig::Red => BossBarColor::Red,
            BossBarColorConfig::Green => BossBarColor::Green,
            BossBarColorConfig::Yellow => BossBarColor::Yellow,
            BossBarColorConfig::Purple => BossBarColor::Purple,
            BossBarColorConfig::White => BossBarColor::White,
        }
    }
}

/// Adds a boss bar at the top of the screen (health as `f32` bits).
#[derive(Clone, Debug, PartialEq, Eq)]
pub struct BossBarPacket {
    pub uuid: u128,
    pub title: String,
    pub health_bits: u32,
    pub color: BossBarColor,
    pub division: BossBarDivisionConfig,
    pub flags: u8,
}

/// Adds a player with its skin to the player list.
#[derive(Clone, Debug, PartialEq, Eq)]
pub struct PlayerInfoUpdatePacket {
    pub username: String,
    pub uuid: u128,
    pub textures: Property,
}

/// The displayed skin layers of the player.
#[derive(Clone, Copy, Debug, PartialEq, Eq)]
pub struct SetEntityMetadataPacket {
    pub skin_layers: u8,
}

/// A player list entry whose skin is not known yet: it becomes a player info
/// update once the skin has been fetched from the profile service, and is
/// dropped when none is found.
#[derive(Clone, Debug, PartialEq, Eq)]
pub struct SkinLookupRequest {
    pub username: String,
    pub uuid: u128,
}

/// A packet as read from the network: the name its id has in the packet
/// report of the client's version, and its undecoded data.
#[derive(Clone, Debug, PartialEq, Eq)]
pub struct NamedPacket {
    pub name: String,
    pub data: Vec<u8>,
}

/// Every packet the server reads or writes.
#[derive(Clone, Debug, PartialEq, Eq)]
pub enum PacketRegistry {
    Handshake(HandshakePacket),
    StatusRequest(StatusRequestPacket),
    StatusResponse(StatusResponsePacket),
    PingRequest(PingRequestPacket),
    PongResponse(PongResponsePacket),
    LoginStart(LoginStartPacket),
    LoginAcknowledged(LoginAcknowledgedPacket),
    CustomQueryAnswer(CustomQueryAnswerPacket),
    CustomQuery(CustomQueryPacket),
    LoginSuccess(LoginSuccessPacket),
    GameProfile(GameProfilePacket),
    LoginDisconnect(DisconnectPacket),
    AcknowledgeConfiguration(AcknowledgeConfigurationPacket),
    ConfigurationClientBoundPluginMessage(PluginMessagePacket),
    ClientBoundKnownPacks(ClientBoundKnownPacksPacket),
    RegistryData(RegistryDataPacket),
    FinishConfiguration(FinishConfigurationPacket),
    ConfigurationDisconnect(DisconnectPacket),
    Login(LoginPacket),
    SynchronizePlayerPosition(SynchronizePlayerPositionPacket),
    SetPlayerPosition(SetPlayerPositionPacket),
    SetPlayerPositionAndRotation(SetPlayerPositionAndRotationPacket),
    SetDefaultSpawnPosition(SetDefaultSpawnPositionPacket),
    Commands(CommandsPacket),
    GameEvent(GameEventPacket),
    SetCenterChunk(SetCenterChunkPacket),
    ChunkDataAndUpdateLight(ChunkDataAndUpdateLightPacket),
    PlayClientBoundPluginMessage(PluginMessagePacket),
    SystemChatMessage(SystemChatMessagePacket),
    LegacyChatMessage(LegacyChatMessagePacket),
    ClientBoundKeepAlive(ClientBoundKeepAlivePacket),
    PlayDisconnect(DisconnectPacket),
    UpdateTime(UpdateTimePacket),
    TabList(TabListPacket),
    BossBar(BossBarPacket),
    PlayerInfoUpdate(PlayerInfoUpdatePacket),
    SkinLookup(SkinLookupRequest),
    SetEntityMetadata(SetEntityMetadataPacket),
}

impl PacketRegistry {
    /// The name of the packet in the protocol reports: state, direction and
    /// identifier.
    pub open spec fn spec_report_name(self) -> Seq<char> {
        match self {
            PacketRegistry::Handshake(_) => "handshake/serverbound/minecraft:intention"@,
            PacketRegistry::StatusRequest(_) => "status/serverbound/minecraft:status_request"@,
            PacketRegistry::StatusResponse(_) => "status/clientbound/minecraft:status_response"@,
            PacketRegistry::PingRequest(_) => "status/serverbound/minecraft:ping_request"@,
            PacketRegistry::PongResponse(_) => "status/clientbound/minecraft:pong_response"@,
            PacketRegistry::LoginStart(_) => "login/serverbound/minecraft:hello"@,
            PacketRegistry::LoginAcknowledged(_) => "login/serverbound/minecraft:login_acknowledged"@,
            PacketRegistry::CustomQueryAnswer(_) => "login/serverbound/minecraft:custom_query_answer"@,
            PacketRegistry::CustomQuery(_) => "login/clientbound/minecraft:custom_query"@,
            PacketRegistry::LoginSuccess(_) => "login/clientbound/minecraft:login_finished"@,
            PacketRegistry::GameProfile(_) => "login/clientbound/minecraft:game_profile"@,
            PacketRegistry::LoginDisconnect(_) => "login/clientbound/minecraft:login_disconnect"@,
            PacketRegistry::AcknowledgeConfiguration(_) => "configuration/serverbound/minecraft:finish_configuration"@,
            PacketRegistry::ConfigurationClientBoundPluginMessage(_) => "configuration/clientbound/minecraft:custom_payload"@,
            PacketRegistry::ClientBoundKnownPacks(_) => "configuration/clientbound/minecraft:select_known_packs"@,
            PacketRegistry::RegistryData(_) => "configuration/clientbound/minecraft:registry_data"@,
            PacketRegistry::FinishConfiguration(_) => "configuration/clientbound/minecraft:finish_configuration"@,
            PacketRegistry::ConfigurationDisconnect(_) => "configuration/clientbound/minecraft:disconnect"@,
            PacketRegistry::Login(_) => "play/clientbound/minecraft:login"@,
            PacketRegistry::SynchronizePlayerPosition(_) => "play/clientbound/minecraft:player_position"@,
            PacketRegistry::SetPlayerPosition(_) => "play/serverbound/minecraft:move_player_pos"@,
            PacketRegistry::SetPlayerPositionAndRotation(_) => "play/serverbound/minecraft:move_player_pos_rot"@,
            PacketRegistry::SetDefaultSpawnPosition(_) => "play/clientbound/minecraft:set_default_spawn_position"@,
            PacketRegistry::Commands(_) => "play/clientbound/minecraft:commands"@,
            PacketRegistry::GameEvent(_) => "play/clientbound/minecraft:game_event"@,
            PacketRegistry::SetCenterChunk(_) => "play/clientbound/minecraft:set_chunk_cache_center"@,
            PacketRegistry::ChunkDataAndUpdateLight(_) => "play/clientbound/minecraft:level_chunk_with_light"@,
            PacketRegistry::PlayClientBoundPluginMessage(_) => "play/clientbound/minecraft:custom_payload"@,
            PacketRegistry::SystemChatMessage(_) => "play/clientbound/minecraft:system_chat"@,
            PacketRegistry::LegacyChatMessage(_) => "play/clientbound/minecraft:legacy_chat_message"@,
            PacketRegistry::ClientBoundKeepAlive(_) => "play/clientbound/minecraft:keep_alive"@,
            PacketRegistry::PlayDisconnect(_) => "play/clientbound/minecraft:disconnect"@,
            PacketRegistry::UpdateTime(_) => "play/clientbound/minecraft:set_time"@,
            PacketRegistry::TabList(_) => "play/clientbound/minecraft:tab_list"@,
            PacketRegistry::BossBar(_) => "play/clientbound/minecraft:boss_event"@,
            PacketRegistry::PlayerInfoUpdate(_) => "play/clientbound/minecraft:player_info_update"@,
            PacketRegistry::SkinLookup(_) => "play/clientbound/minecraft:player_info_update"@,
            PacketRegistry::SetEntityMetadata(_) => "play/clientbound/minecraft:set_entity_data"@,
        }
    }

    /// The name of the packet in the protocol reports, which its numeric id is
    /// looked up by.
    pub fn report_name(&self) -> (s: &'static str)
        ensures
            s@ == self.spec_report_name(),
    {
        match self {
            PacketRegistry::Handshake(_) => "handshake/serverbound/minecraft:intention",
            PacketRegistry::StatusRequest(_) => "status/serverbound/minecraft:status_request",
            PacketRegistry::StatusResponse(_) => "status/clientbound/minecraft:status_response",
            PacketRegistry::PingRequest(_) => "status/serverbound/minecraft:ping_request",
            PacketRegistry::PongResponse(_) => "status/clientbound/minecraft:pong_response",
            PacketRegistry::LoginStart(_) => "login/serverbound/minecraft:hello",
            PacketRegistry::LoginAcknowledged(_) => "login/serverbound/minecraft:login_acknowledged",
            PacketRegistry::CustomQueryAnswer(_) => "login/serverbound/minecraft:custom_query_answer",
            PacketRegistry::CustomQuery(_) => "login/clientbound/minecraft:custom_query",
            PacketRegistry::LoginSuccess(_) => "login/clientbound/minecraft:login_finished",
            PacketRegistry::GameProfile(_) => "login/clientbound/minecraft:game_profile",
            PacketRegistry::LoginDisconnect(_) => "login/clientbound/minecraft:login_disconnect",
            PacketRegistry::AcknowledgeConfiguration(_) => "configuration/serverbound/minecraft:finish_configuration",
            PacketRegistry::ConfigurationClientBoundPluginMessage(_) => "configuration/clientbound/minecraft:custom_payload",
            PacketRegistry::ClientBoundKnownPacks(_) => "configuration/clientbound/minecraft:select_known_packs",
            PacketRegistry::RegistryData(_) => "configuration/clientbound/minecraft:registry_data",
            PacketRegistry::FinishConfiguration(_) => "configuration/clientbound/minecraft:finish_configuration",
            PacketRegistry::ConfigurationDisconnect(_) => "configuration/clientbound/minecraft:disconnect",
            PacketRegistry::Login(_) => "play/clientbound/minecraft:login",
            PacketRegistry::SynchronizePlayerPosition(_) => "play/clientbound/minecraft:player_position",
            PacketRegistry::SetPlayerPosition(_) => "play/serverbound/minecraft:move_player_pos",
            PacketRegistry::SetPlayerPositionAndRotation(_) => "play/serverbound/minecraft:move_player_pos_rot",
            PacketRegistry::SetDefaultSpawnPosition(_) => "play/clientbound/minecraft:set_default_spawn_position",
            PacketRegistry::Commands(_) => "play/clientbound/minecraft:commands",
            PacketRegistry::GameEvent(_) => "play/clientbound/minecraft:game_event",
            PacketRegistry::SetCenterChunk(_) => "play/clientbound/minecraft:set_chunk_cache_center",
            PacketRegistry::ChunkDataAndUpdateLight(_) => "play/clientbound/minecraft:level_chunk_with_light",
            PacketRegistry::PlayClientBoundPluginMessage(_) => "play/clientbound/minecraft:custom_payload",
            PacketRegistry::SystemChatMessage(_) => "play/clientbound/minecraft:system_chat",
            PacketRegistry::LegacyChatMessage(_) => "play/clientbound/minecraft:legacy_chat_message",
            PacketRegistry::ClientBoundKeepAlive(_) => "play/clientbound/minecraft:keep_alive",
            PacketRegistry::PlayDisconnect(_) => "play/clientbound/minecraft:disconnect",
            PacketRegistry::UpdateTime(_) => "play/clientbound/minecraft:set_time",
            PacketRegistry::TabList(_) => "play/clientbound/minecraft:tab_list",
            PacketRegistry::BossBar(_) => "play/clientbound/minecraft:boss_event",
            PacketRegistry::PlayerInfoUpdate(_) => "play/clientbound/minecraft:player_info_update",
            PacketRegistry::SkinLookup(_) => "play/clientbound/minecraft:player_info_update",
            PacketRegistry::SetEntityMetadata(_) => "play/clientbound/minecraft:set_entity_data",
        }
    }
}

} // verus!

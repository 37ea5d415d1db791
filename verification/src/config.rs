use crate::coordinate::{Coordinate, Position};
use crate::error::PacketHandlerError;
use crate::game_mode::GameMode;
use crate::protocol::Dimension;
use crate::text::{concat, i64_to_string, lowercase_of, parse_i64, spec_decimal, spec_parse_i64, str_eq, to_lowercase};
use vstd::prelude::*;

verus! {

/// The game mode that players are given, as the configuration names it.
#[derive(Clone, Copy, Debug, PartialEq, Eq, Structural)]
pub enum GameModeConfig {
    Survival,
    Creative,
    Adventure,
    Spectator,
}

impl Default for GameModeConfig {
    fn default() -> (c: GameModeConfig)
        ensures
            c == GameModeConfig::Spectator,
    {
        GameModeConfig::Spectator
    }
}

impl GameModeConfig {
    pub open spec fn spec_game_mode(self) -> GameMode {
        match self {
            GameModeConfig::Survival => GameMode::Survival,
            GameModeConfig::Creative => GameMode::Creative,
            GameModeConfig::Adventure => GameMode::Adventure,
            GameModeConfig::Spectator => GameMode::Spectator,
        }
    }

    /// The game mode that the configuration names.
    pub fn game_mode(self) -> (m: GameMode)
        ensures
            m == self.spec_game_mode(),
    {
        match self {
            GameModeConfig::Survival => GameMode::Survival,
            GameModeConfig::Creative => GameMode::Creative,
            GameModeConfig::Adventure => GameMode::Adventure,
            GameModeConfig::Spectator => GameMode::Spectator,
        }
    }
}

/// The dimension that players spawn in, as the configuration names it.
#[derive(Clone, Copy, Debug, PartialEq, Eq, Structural)]
pub enum SpawnDimensionConfig {
    Overworld,
    Nether,
    End,
}

impl Default for SpawnDimensionConfig {
    fn default() -> (c: SpawnDimensionConfig)
        ensures
            c == SpawnDimensionConfig::Overworld,
    {
        SpawnDimensionConfig::Overworld
    }
}

impl SpawnDimensionConfig {
    pub open spec fn spec_dimension(self) -> Dimension {
        match self {
            SpawnDimensionConfig::Overworld => Dimension::Overworld,
            SpawnDimensionConfig::Nether => Dimension::Nether,
            SpawnDimensionConfig::End => Dimension::End,
        }
    }

    /// The dimension that the configuration names.
    pub fn dimension(self) -> (d: Dimension)
        ensures
            d == self.spec_dimension(),
    {
        match self {
            SpawnDimensionConfig::Overworld => Dimension::Overworld,
            SpawnDimensionConfig::Nether => Dimension::Nether,
            SpawnDimensionConfig::End => Dimension::End,
        }
    }
}

/// Velocity (modern) forwarding settings.
pub struct ModernForwardingConfig {
    pub enabled: bool,
    pub secret: String,
}

impl Default for ModernForwardingConfig {
    fn default() -> (c: ModernForwardingConfig)
        ensures
            !c.enabled,
            c.secret@ == Seq::<char>::empty(),
    {
        ModernForwardingConfig { enabled: false, secret: String::new() }
    }
}

/// BungeeCord (legacy) forwarding settings, with the optional BungeeGuard tokens.
pub struct BungeeCordForwardingConfig {
    pub enabled: bool,
    pub bungee_guard: bool,
    pub tokens: Vec<String>,
}

impl Default for BungeeCordForwardingConfig {
    fn default() -> (c: BungeeCordForwardingConfig)
        ensures
            !c.enabled,
            !c.bungee_guard,
            c.tokens@.len() == 0,
    {
        BungeeCordForwardingConfig { enabled: false, bungee_guard: false, tokens: Vec::new() }
    }
}

/// How player information is forwarded by a proxy in front of the server.
pub struct ForwardingConfig {
    pub velocity: ModernForwardingConfig,
    pub bungee_cord: BungeeCordForwardingConfig,
}

impl Default for ForwardingConfig {
    fn default() -> (c: ForwardingConfig)
        ensures
            !c.velocity.enabled,
            c.velocity.secret@ == Seq::<char>::empty(),
            !c.bungee_cord.enabled,
            !c.bungee_cord.bungee_guard,
            c.bungee_cord.tokens@.len() == 0,
    {
        ForwardingConfig {
            velocity: ModernForwardingConfig::default(),
            bungee_cord: BungeeCordForwardingConfig::default(),
        }
    }
}

/// The header and footer of the player list.
pub struct TabListConfig {
    pub header: String,
    pub footer: String,
}

impl Default for TabListConfig {
    fn default() -> (c: TabListConfig)
        ensures
            c.header@ == Seq::<char>::empty(),
            c.footer@ == Seq::<char>::empty(),
    {
        TabListConfig { header: String::new(), footer: String::new() }
    }
}

/// The world the players spawn in.
pub struct WorldConfig {
    /// The dimension to spawn the player in.
    pub spawn_dimension: SpawnDimensionConfig,
    /// The time of the world: "sunrise", "noon", "sunset", "midnight" or ticks
    /// (0 to 23999).
    pub time_world: String,
    /// Whether the world time stays at `time_world`.
    pub lock_time: bool,
}

impl Default for WorldConfig {
    fn default() -> (c: WorldConfig)
        ensures
            c.spawn_dimension == SpawnDimensionConfig::Overworld,
            c.time_world@ == "day"@,
            c.lock_time,
    {
        WorldConfig {
            spawn_dimension: SpawnDimensionConfig::default(),
            time_world: "day".to_owned(),
            lock_time: true,
        }
    }
}

/// The lowest height players may fall to before being sent back to the spawn.
pub struct BoundariesConfig {
    pub enabled: bool,
    pub min_y: i32,
    pub teleport_message: String,
}

impl Default for BoundariesConfig {
    fn default() -> (c: BoundariesConfig)
        ensures
            !c.enabled,
            c.min_y == -64,
            c.teleport_message@ == "You have reached the bottom of the worldconfig."@,
    {
        BoundariesConfig {
            enabled: false,
            min_y: -64,
            teleport_message: "You have reached the bottom of the worldconfig.".to_owned(),
        }
    }
}

/// The colour of the boss bar, as the configuration names it.
#[derive(Clone, Copy, Debug, PartialEq, Eq, Structural)]
pub enum BossBarColorConfig {
    Pink,
    Blue,
    Red,
    Green,
    Yellow,
    Purple,
    White,
}

impl Default for BossBarColorConfig {
    fn default() -> (c: BossBarColorConfig)
        ensures
            c == BossBarColorConfig::Pink,
    {
        BossBarColorConfig::Pink
    }
}

/// The number of notches the boss bar is divided in.
#[derive(Clone, Copy, Debug, PartialEq, Eq, Structural)]
pub enum BossBarDivisionConfig {
    NoDivision,
    SixNotches,
    TenNotches,
    TwelveNotches,
    TwentyNotches,
}

impl Default for BossBarDivisionConfig {
    fn default() -> (c: BossBarDivisionConfig)
        ensures
            c == BossBarDivisionConfig::NoDivision,
    {
        BossBarDivisionConfig::NoDivision
    }
}

impl BossBarDivisionConfig {
    pub open spec fn spec_notches(self) -> u8 {
        match self {
            BossBarDivisionConfig::NoDivision => 0,
            BossBarDivisionConfig::SixNotches => 6,
            BossBarDivisionConfig::TenNotches => 10,
            BossBarDivisionConfig::TwelveNotches => 12,
            BossBarDivisionConfig::TwentyNotches => 20,
        }
    }

    /// The number the division is written as in the configuration file.
    pub fn notches(self) -> (n: u8)
        ensures
            n == self.spec_notches(),
    {
        match self {
            BossBarDivisionConfig::NoDivision => 0,
            BossBarDivisionConfig::SixNotches => 6,
            BossBarDivisionConfig::TenNotches => 10,
            BossBarDivisionConfig::TwelveNotches => 12,
            BossBarDivisionConfig::TwentyNotches => 20,
        }
    }

    /// Reads a division back from the number it is written as; any number but
    /// 0, 6, 10, 12 and 20 is refused.
    pub fn from_notches(n: u8) -> (d: Option<BossBarDivisionConfig>)
        ensures
            d matches Some(division) ==> division.spec_notches() == n,
            d is None <==> (n != 0 && n != 6 && n != 10 && n != 12 && n != 20),
    {
        match n {
            0 => Some(BossBarDivisionConfig::NoDivision),
            6 => Some(BossBarDivisionConfig::SixNotches),
            10 => Some(BossBarDivisionConfig::TenNotches),
            12 => Some(BossBarDivisionConfig::TwelveNotches),
            20 => Some(BossBarDivisionConfig::TwentyNotches),
            _ => None,
        }
    }
}

/// Writing a division as its number and reading it back gives the division.
pub proof fn lemma_division_notches_roundtrip(d: BossBarDivisionConfig, e: BossBarDivisionConfig)
    ensures
        d.spec_notches() == e.spec_notches() ==> d == e,
{
}

/// What the server list shows of the server.
pub struct ServerListConfig {
    /// The maximum count shown; it does not limit the players.
    pub max_players: u32,
    pub message_of_the_day: String,
    /// Whether the actual number of players online is shown.
    pub show_online_player_count: bool,
}

impl Default for ServerListConfig {
    fn default() -> (c: ServerListConfig)
        ensures
            c.max_players == 20,
            c.message_of_the_day@ == "A Minecraft Server"@,
            c.show_online_player_count,
    {
        ServerListConfig { max_players: 20, message_of_the_day: "A Minecraft Server".to_owned(), show_online_player_count: true }
    }
}

/// The boss bar shown to every player. The health, a number from 0 to 1, is
/// held as the bits of its `f32`.
pub struct BossBarConfig {
    pub enabled: bool,
    pub title: String,
    pub health_bits: u32,
    pub color: BossBarColorConfig,
    pub division: BossBarDivisionConfig,
}

impl Default for BossBarConfig {
    fn default() -> (c: BossBarConfig)
        ensures
            !c.enabled,
            c.title@ == "<bold>Welcome to PicoLimbo!</bold>"@,
            c.health_bits == 0x3f80_0000u32,
            c.color == BossBarColorConfig::Pink,
            c.division == BossBarDivisionConfig::NoDivision,
    {
        BossBarConfig {
            enabled: false,
            title: "<bold>Welcome to PicoLimbo!</bold>".to_owned(),
            health_bits: 0x3f80_0000u32,
            color: BossBarColorConfig::Pink,
            division: BossBarDivisionConfig::NoDivision,
        }
    }
}

/// Where players spawn and how much of the world they see. The coordinates
/// of the spawn are held as `Coordinate`s.
pub struct SpawnConfig {
    pub spawn_position: Position,
    pub view_distance: i32,
    pub boundaries: BoundariesConfig,
}

/// The spawn of the default configuration: `(0, 320, 0)`.
pub open spec fn default_spawn() -> Position {
    Position {
        x: Coordinate { bits: 0, floor: Some(0) },
        y: Coordinate { bits: 0x4074_0000_0000_0000u64, floor: Some(320) },
        z: Coordinate { bits: 0, floor: Some(0) },
    }
}

impl Default for SpawnConfig {
    fn default() -> (c: SpawnConfig)
        ensures
            c.spawn_position == default_spawn(),
            c.view_distance == 2,
            !c.boundaries.enabled,
            c.boundaries.min_y == -64,
            c.boundaries.teleport_message@ == "You have reached the bottom of the worldconfig."@,
    {
        SpawnConfig {
            spawn_position: Position {
                x: Coordinate { bits: 0, floor: Some(0) },
                y: Coordinate { bits: 0x4074_0000_0000_0000u64, floor: Some(320) },
                z: Coordinate { bits: 0, floor: Some(0) },
            },
            view_distance: 2,
            boundaries: BoundariesConfig::default(),
        }
    }
}

/// The server's configuration.
pub struct Config {
    /// The address and port the server listens on.
    pub bind: String,
    pub forwarding: ForwardingConfig,
    pub world: WorldConfig,
    pub spawn: SpawnConfig,
    pub server_list: ServerListConfig,
    /// The message sent to players once they spawn.
    pub welcome_message: String,
    pub default_game_mode: GameModeConfig,
    pub hardcore: bool,
    pub tab_list: TabListConfig,
    pub fetch_player_skins: bool,
    pub boss_bar: BossBarConfig,
}

impl Default for Config {
    fn default() -> (c: Config)
        ensures
            c.bind@ == "0.0.0.0:25565"@,
            c.welcome_message@ == "Welcome to PicoLimbo!"@,
            c.default_game_mode == GameModeConfig::Spectator,
            !c.hardcore,
            !c.fetch_player_skins,
            !c.forwarding.velocity.enabled,
            c.forwarding.velocity.secret@ == Seq::<char>::empty(),
            !c.forwarding.bungee_cord.enabled,
            !c.forwarding.bungee_cord.bungee_guard,
            c.forwarding.bungee_cord.tokens@.len() == 0,
            c.world.spawn_dimension == SpawnDimensionConfig::Overworld,
            c.world.time_world@ == "day"@,
            c.world.lock_time,
            c.spawn.spawn_position == default_spawn(),
            c.spawn.view_distance == 2,
            !c.spawn.boundaries.enabled,
            c.spawn.boundaries.min_y == -64,
            c.spawn.boundaries.teleport_message@ == "You have reached the bottom of the worldconfig."@,
            c.server_list.max_players == 20,
            c.server_list.message_of_the_day@ == "A Minecraft Server"@,
            c.server_list.show_online_player_count,
            c.tab_list.header@ == Seq::<char>::empty(),
            c.tab_list.footer@ == Seq::<char>::empty(),
            !c.boss_bar.enabled,
            c.boss_bar.title@ == "<bold>Welcome to PicoLimbo!</bold>"@,
            c.boss_bar.health_bits == 0x3f80_0000u32,
            c.boss_bar.color == BossBarColorConfig::Pink,
            c.boss_bar.division == BossBarDivisionConfig::NoDivision,
    {
        Config {
            bind: "0.0.0.0:25565".to_owned(),
            forwarding: ForwardingConfig::default(),
            world: WorldConfig::default(),
            spawn: SpawnConfig::default(),
            server_list: ServerListConfig::default(),
            welcome_message: "Welcome to PicoLimbo!".to_owned(),
            default_game_mode: GameModeConfig::default(),
            hardcore: false,
            tab_list: TabListConfig::default(),
            fetch_player_skins: false,
            boss_bar: BossBarConfig::default(),
        }
    }
}

/// The time of day, in ticks, that a `time_world` setting names: the words
/// "sunrise" and "day" (1000), "noon" (6000), "sunset" and "night" (13000),
/// "midnight" (18000), in any case, or a number of ticks from 0 to 23999;
/// anything else is refused with the message of an invalid-state error.
pub open spec fn spec_parse_time(s: Seq<char>) -> Result<i64, Seq<char>> {
    let lower = lowercase_of(s);
    if lower == "sunrise"@ || lower == "day"@ {
        Ok(1000)
    } else if lower == "noon"@ {
        Ok(6000)
    } else if lower == "sunset"@ || lower == "night"@ {
        Ok(13000)
    } else if lower == "midnight"@ {
        Ok(18000)
    } else {
        match spec_parse_i64(lower) {
            None => Err("Invalid time_world value: "@ + lower),
            Some(ticks) => if 0 <= ticks < 24000 {
                Ok(ticks)
            } else {
                Err("time_world ticks out of range (0–23999): "@ + spec_decimal(ticks as int))
            },
        }
    }
}

/// A time of the world that is read is always a time of day: from 0 to
/// 23999 ticks.
pub proof fn lemma_parsed_time_in_day(s: Seq<char>)
    ensures
        spec_parse_time(s) matches Ok(t) ==> 0 <= t < 24000,
{
}

/// Whether a parsed time setting is what `spec_parse_time` gives: the same
/// ticks, or an invalid-state error with the same message.
pub open spec fn same_time_result(r: Result<i64, PacketHandlerError>, expected: Result<i64, Seq<char>>) -> bool {
    match expected {
        Ok(t) => r == Ok::<i64, PacketHandlerError>(t),
        Err(m) => r matches Err(PacketHandlerError::InvalidState(e)) && e@ == m,
    }
}

/// Parses a `time_world` setting into ticks.
pub trait ParseTime {
    fn parse_time(&self) -> Result<i64, PacketHandlerError>;
}

/// Parses a `time_world` setting into ticks.
pub fn parse_time(s: &str) -> (r: Result<i64, PacketHandlerError>)
    ensures
        same_time_result(r, spec_parse_time(s@)),
{
    let lower = to_lowercase(s);
    let l = lower.as_str();
    proof {
        reveal_strlit("sunrise");
    }
    if str_eq(l, "sunrise") || str_eq(l, "day") {
        Ok(1000)
    } else if str_eq(l, "noon") {
        Ok(6000)
    } else if str_eq(l, "sunset") || str_eq(l, "night") {
        Ok(13000)
    } else if str_eq(l, "midnight") {
        Ok(18000)
    } else {
        match parse_i64(l) {
            None => {
                let m = concat("Invalid time_world value: ", l);
                Err(PacketHandlerError::InvalidState(m))
            },
            Some(ticks) => {
                if 0 <= ticks && ticks < 24000 {
                    Ok(ticks)
                } else {
                    let digits = i64_to_string(ticks);
                    let m = concat("time_world ticks out of range (0–23999): ", digits.as_str());
                    Err(PacketHandlerError::InvalidState(m))
                }
            },
        }
    }
}

impl ParseTime for str {
    fn parse_time(&self) -> (r: Result<i64, PacketHandlerError>)
        ensures
            same_time_result(r, spec_parse_time(self@)),
    {
        parse_time(self)
    }
}

impl ParseTime for String {
    fn parse_time(&self) -> (r: Result<i64, PacketHandlerError>)
        ensures
            same_time_result(r, spec_parse_time(self@)),
    {
        parse_time(self.as_str())
    }
}

} // verus!

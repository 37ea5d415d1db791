use crate::config::{BossBarColorConfig, BossBarDivisionConfig, ForwardingConfig};
use crate::coordinate::{Coordinate, Position};
use crate::error::PacketHandlerError;
use crate::game_mode::GameMode;
use crate::protocol::Dimension;
use crate::text::str_eq;
use vstd::prelude::*;
use vstd::utf8::encode_utf8;

verus! {

/// How a proxy in front of the server forwards player information.
#[derive(Clone, Debug, PartialEq, Eq)]
pub enum ForwardingMode {
    Disabled,
    /// BungeeCord forwarding, which appends data to the handshake hostname.
    Legacy,
    /// BungeeCord forwarding checked with BungeeGuard tokens.
    BungeeGuard { tokens: Vec<String> },
    /// Velocity forwarding, signed with a shared secret.
    Modern { secret: Vec<u8> },
}

/// The forwarding secret or tokens were asked for in a mode that has none.
#[derive(Clone, Copy, Debug, PartialEq, Eq)]
pub struct MisconfiguredForwardingError;

impl MisconfiguredForwardingError {
    /// The text the error is shown with.
    pub fn message(&self) -> (s: &'static str)
        ensures
            s@ == "secret key not set"@,
    {
        "secret key not set"
    }
}

/// The player list header and footer; the list is sent when either is not
/// empty, with the empty one left blank.
#[derive(Clone, Debug, PartialEq, Eq)]
pub struct TabList {
    pub header: String,
    pub footer: String,
}

/// The boss bar that is shown, if any (health as `f32` bits).
#[derive(Clone, Debug, PartialEq, Eq)]
pub enum BossBar {
    Enabled { title: String, health_bits: u32, color: BossBarColorConfig, division: BossBarDivisionConfig },
    Disabled,
}

/// The lowest height players may reach, and what they are told when sent back.
#[derive(Clone, Debug, PartialEq, Eq)]
pub enum Boundaries {
    Enabled { min_y: i32, teleport_message: Option<String> },
    Disabled,
}

/// What a server state holds.
pub struct ServerStateView {
    pub forwarding_mode: ForwardingMode,
    pub spawn_dimension: Dimension,
    pub description_text: String,
    pub max_players: u32,
    pub welcome_message: String,
    pub connected_clients: u32,
    pub show_online_player_count: bool,
    pub game_mode: GameMode,
    pub hardcore: bool,
    pub spawn_position: Position,
    pub view_distance: i32,
    pub time_world_ticks: i64,
    pub lock_time: bool,
    pub tab_list: TabList,
    pub boss_bar: BossBar,
    pub boundaries: Boundaries,
    pub fetch_player_skins: bool,
}

/// The settings and shared counters of the server.
pub struct ServerState {
    forwarding_mode: ForwardingMode,
    spawn_dimension: Dimension,
    description_text: String,
    max_players: u32,
    welcome_message: String,
    connected_clients: u32,
    show_online_player_count: bool,
    game_mode: GameMode,
    hardcore: bool,
    spawn_position: Position,
    view_distance: i32,
    time_world_ticks: i64,
    lock_time: bool,
    tab_list: TabList,
    boss_bar: BossBar,
    boundaries: Boundaries,
    fetch_player_skins: bool,
}

impl View for ServerState {
    type V = ServerStateView;

    closed spec fn view(&self) -> ServerStateView {
        ServerStateView {
            forwarding_mode: self.forwarding_mode,
            spawn_dimension: self.spawn_dimension,
            description_text: self.description_text,
            max_players: self.max_players,
            welcome_message: self.welcome_message,
            connected_clients: self.connected_clients,
            show_online_player_count: self.show_online_player_count,
            game_mode: self.game_mode,
            hardcore: self.hardcore,
            spawn_position: self.spawn_position,
            view_distance: self.view_distance,
            time_world_ticks: self.time_world_ticks,
            lock_time: self.lock_time,
            tab_list: self.tab_list,
            boss_bar: self.boss_bar,
            boundaries: self.boundaries,
            fetch_player_skins: self.fetch_player_skins,
        }
    }
}

/// The origin of the world.
pub open spec fn origin() -> Position {
    Position {
        x: Coordinate { bits: 0, floor: Some(0) },
        y: Coordinate { bits: 0, floor: Some(0) },
        z: Coordinate { bits: 0, floor: Some(0) },
    }
}

pub fn origin_position() -> (p: Position)
    ensures
        p == origin(),
{
    Position {
        x: Coordinate { bits: 0, floor: Some(0) },
        y: Coordinate { bits: 0, floor: Some(0) },
        z: Coordinate { bits: 0, floor: Some(0) },
    }
}

impl Default for ServerState {
    /// A server with no forwarding, no player counted, an empty description and
    /// welcome message, spawning spectators at the origin of the overworld.
    fn default() -> (s: ServerState)
        ensures
            s@.forwarding_mode == ForwardingMode::Disabled,
            s@.spawn_dimension == Dimension::Overworld,
            s@.description_text@ == Seq::<char>::empty(),
            s@.max_players == 0,
            s@.welcome_message@ == Seq::<char>::empty(),
            s@.connected_clients == 0,
            !s@.show_online_player_count,
            s@.game_mode == GameMode::Spectator,
            !s@.hardcore,
            s@.spawn_position == origin(),
            s@.view_distance == 0,
            s@.time_world_ticks == 0,
            !s@.lock_time,
            s@.tab_list.header@ == Seq::<char>::empty(),
            s@.tab_list.footer@ == Seq::<char>::empty(),
            s@.boss_bar == BossBar::Disabled,
            s@.boundaries == Boundaries::Disabled,
            !s@.fetch_player_skins,
    {
        ServerState::builder().build_state()
    }
}

impl ServerState {
    /// Starts building a server state.
    pub fn builder() -> (b: ServerStateBuilder)
        ensures
            b.description_text@ == Seq::<char>::empty(),
            b.welcome_message@ == Seq::<char>::empty(),
            b.tab_list.header@ == Seq::<char>::empty(),
            b.tab_list.footer@ == Seq::<char>::empty(),
            b.forwarding_mode == ForwardingMode::Disabled,
            b.dimension is None,
            b.max_players == 0,
            !b.show_online_player_count,
            b.game_mode == GameMode::Spectator,
            !b.hardcore,
            b.spawn_position == origin(),
            b.view_distance == 0,
            b.time_world_ticks == 0,
            !b.lock_time,
            b.boss_bar == BossBar::Disabled,
            b.boundaries == Boundaries::Disabled,
            !b.fetch_player_skins,
    {
        ServerStateBuilder {
            forwarding_mode: ForwardingMode::Disabled,
            dimension: None,
            description_text: String::new(),
            max_players: 0,
            welcome_message: String::new(),
            show_online_player_count: false,
            game_mode: GameMode::Spectator,
            hardcore: false,
            spawn_position: origin_position(),
            view_distance: 0,
            time_world_ticks: 0,
            lock_time: false,
            tab_list: TabList { header: String::new(), footer: String::new() },
            boss_bar: BossBar::Disabled,
            boundaries: Boundaries::Disabled,
            fetch_player_skins: false,
        }
    }

    pub fn is_legacy_forwarding(&self) -> (b: bool)
        ensures
            b == (self@.forwarding_mode is Legacy),
    {
        matches!(self.forwarding_mode, ForwardingMode::Legacy)
    }

    pub fn is_modern_forwarding(&self) -> (b: bool)
        ensures
            b == (self@.forwarding_mode is Modern),
    {
        matches!(self.forwarding_mode, ForwardingMode::Modern { .. })
    }

    pub fn is_bungee_guard_forwarding(&self) -> (b: bool)
        ensures
            b == (self@.forwarding_mode is BungeeGuard),
    {
        matches!(self.forwarding_mode, ForwardingMode::BungeeGuard { .. })
    }

    /// The Velocity secret, in modern forwarding only.
    pub fn secret_key(&self) -> (r: Result<Vec<u8>, MisconfiguredForwardingError>)
        ensures
            match self@.forwarding_mode {
                ForwardingMode::Modern { secret } => r matches Ok(k) && k@ == secret@,
                _ => r is Err,
            },
    {
        match &self.forwarding_mode {
            ForwardingMode::Modern { secret } => Ok(secret.clone()),
            _ => Err(MisconfiguredForwardingError),
        }
    }

    /// The BungeeGuard tokens, in BungeeGuard forwarding only.
    pub fn tokens(&self) -> (r: Result<Vec<String>, MisconfiguredForwardingError>)
        ensures
            match self@.forwarding_mode {
                ForwardingMode::BungeeGuard { tokens } => r matches Ok(t) && t@ == tokens@,
                _ => r is Err,
            },
    {
        match &self.forwarding_mode {
            ForwardingMode::BungeeGuard { tokens } => Ok(tokens.clone()),
            _ => Err(MisconfiguredForwardingError),
        }
    }

    /// Whether `token` is one of the BungeeGuard tokens, in BungeeGuard
    /// forwarding only.
    pub fn has_token(&self, token: &str) -> (r: Result<bool, MisconfiguredForwardingError>)
        ensures
            match self@.forwarding_mode {
                ForwardingMode::BungeeGuard { tokens } => r matches Ok(found) && (found <==> exists|i: int|
                    0 <= i < tokens@.len() && #[trigger] tokens@[i]@ == token@),
                _ => r is Err,
            },
    {
        match &self.forwarding_mode {
            ForwardingMode::BungeeGuard { tokens } => {
                let mut i: usize = 0;
                while i < tokens.len()
                    invariant
                        self.forwarding_mode == (ForwardingMode::BungeeGuard { tokens: *tokens }),
                        i <= tokens@.len(),
                        forall|j: int| 0 <= j < i ==> tokens@[j]@ != token@,
                    decreases tokens@.len() - i,
                {
                    if str_eq(tokens[i].as_str(), token) {
                        assert(tokens@[i as int]@ == token@);
                        assert(self@.forwarding_mode == (ForwardingMode::BungeeGuard { tokens: *tokens }));
                        assert(exists|k: int| 0 <= k < tokens@.len() && #[trigger] tokens@[k]@ == token@);
                        let ghost ts = self@.forwarding_mode->tokens;
                        assert(ts == *tokens);
                        assert(ts@ == tokens@);
                        assert(ts@[i as int]@ == token@);
                        assert(match self@.forwarding_mode {
                            ForwardingMode::BungeeGuard { tokens: ts } => exists|k: int| 0 <= k < ts@.len() && #[trigger] ts@[k]@ == token@,
                            _ => false,
                        });
                        return Ok(true);
                    }
                    i = i + 1;
                }
                Ok(false)
            },
            _ => Err(MisconfiguredForwardingError),
        }
    }

    /// The description shown in the server list.
    pub fn description_text(&self) -> (s: &str)
        ensures
            s@ == self@.description_text@,
    {
        self.description_text.as_str()
    }

    pub fn max_players(&self) -> (n: u32)
        ensures
            n == self@.max_players,
    {
        self.max_players
    }

    /// The message sent to players once they are in the world, unless it is empty.
    pub fn welcome_message(&self) -> (m: Option<String>)
        ensures
            self@.welcome_message@.len() == 0 ==> m is None,
            self@.welcome_message@.len() > 0 ==> m == Some(self@.welcome_message),
    {
        if self.welcome_message.as_str().is_empty() {
            None
        } else {
            Some(self.welcome_message.clone())
        }
    }

    /// The number of players shown in the server list: the connected clients
    /// when the count is shown, else 0.
    pub fn online_players(&self) -> (n: u32)
        ensures
            n == if self@.show_online_player_count { self@.connected_clients } else { 0 },
    {
        if self.show_online_player_count {
            self.connected_clients
        } else {
            0
        }
    }

    pub fn spawn_dimension(&self) -> (d: Dimension)
        ensures
            d == self@.spawn_dimension,
    {
        self.spawn_dimension
    }

    pub fn game_mode(&self) -> (m: GameMode)
        ensures
            m == self@.game_mode,
    {
        self.game_mode
    }

    pub fn is_hardcore(&self) -> (b: bool)
        ensures
            b == self@.hardcore,
    {
        self.hardcore
    }

    pub fn spawn_position(&self) -> (p: Position)
        ensures
            p == self@.spawn_position,
    {
        self.spawn_position
    }

    pub fn view_distance(&self) -> (d: i32)
        ensures
            d == self@.view_distance,
    {
        self.view_distance
    }

    /// The time of day in ticks.
    pub fn time_world_ticks(&self) -> (t: i64)
        ensures
            t == self@.time_world_ticks,
    {
        self.time_world_ticks
    }

    /// Whether the time of day stays where it is.
    pub fn is_time_locked(&self) -> (b: bool)
        ensures
            b == self@.lock_time,
    {
        self.lock_time
    }

    pub fn tab_list(&self) -> (t: &TabList)
        ensures
            *t == self@.tab_list,
    {
        &self.tab_list
    }

    pub fn boss_bar(&self) -> (b: &BossBar)
        ensures
            *b == self@.boss_bar,
    {
        &self.boss_bar
    }

    pub fn boundaries(&self) -> (b: &Boundaries)
        ensures
            *b == self@.boundaries,
    {
        &self.boundaries
    }

    pub fn fetch_player_skins(&self) -> (b: bool)
        ensures
            b == self@.fetch_player_skins,
    {
        self.fetch_player_skins
    }

    /// The lowest height players may reach, when boundaries are enabled, else 0.
    pub fn min_y_pos(&self) -> (y: i32)
        ensures
            y == match self@.boundaries {
                Boundaries::Enabled { min_y, .. } => min_y,
                Boundaries::Disabled => 0,
            },
    {
        match &self.boundaries {
            Boundaries::Enabled { min_y, .. } => *min_y,
            Boundaries::Disabled => 0,
        }
    }

    /// The message players are told when sent back from below the boundary,
    /// unless there is none.
    pub fn min_y_message(&self) -> (m: Option<String>)
        ensures
            m == match self@.boundaries {
                Boundaries::Enabled { teleport_message, .. } => teleport_message,
                Boundaries::Disabled => None,
            },
    {
        match &self.boundaries {
            Boundaries::Enabled { teleport_message, .. } => match teleport_message {
                Some(t) => Some(t.clone()),
                None => None,
            },
            Boundaries::Disabled => None,
        }
    }

    /// Counts one more connected client (the count wraps around as an atomic
    /// counter does).
    pub fn increment(&mut self)
        ensures
            final(self)@ == spec_after_increment(old(self)@),
    {
        if self.connected_clients == u32::MAX {
            self.connected_clients = 0;
        } else {
            self.connected_clients = self.connected_clients + 1;
        }
    }

    /// Counts one connected client less (the count wraps around as an atomic
    /// counter does).
    pub fn decrement(&mut self)
        ensures
            final(self)@ == spec_after_decrement(old(self)@),
    {
        if self.connected_clients == 0 {
            self.connected_clients = u32::MAX;
        } else {
            self.connected_clients = self.connected_clients - 1;
        }
    }
}

/// The server state after one more client connected; the count wraps around.
pub open spec fn spec_after_increment(v: ServerStateView) -> ServerStateView {
    ServerStateView {
        connected_clients: if v.connected_clients == u32::MAX { 0 } else { (v.connected_clients + 1) as u32 },
        ..v
    }
}

/// The server state after one client left; the count wraps around.
pub open spec fn spec_after_decrement(v: ServerStateView) -> ServerStateView {
    ServerStateView {
        connected_clients: if v.connected_clients == 0 { u32::MAX } else { (v.connected_clients - 1) as u32 },
        ..v
    }
}

/// A client that connects and then leaves leaves the server state as it was,
/// and so does the reverse order.
pub proof fn lemma_increment_decrement(v: ServerStateView)
    ensures
        spec_after_decrement(spec_after_increment(v)) == v,
        spec_after_increment(spec_after_decrement(v)) == v,
{
}

/// Settings gathered to build a server state.
pub struct ServerStateBuilder {
    pub forwarding_mode: ForwardingMode,
    pub dimension: Option<Dimension>,
    pub description_text: String,
    pub max_players: u32,
    pub welcome_message: String,
    pub show_online_player_count: bool,
    pub game_mode: GameMode,
    pub hardcore: bool,
    pub spawn_position: Position,
    pub view_distance: i32,
    pub time_world_ticks: i64,
    pub lock_time: bool,
    pub tab_list: TabList,
    pub boss_bar: BossBar,
    pub boundaries: Boundaries,
    pub fetch_player_skins: bool,
}

/// Why a server state cannot be built from a configuration.
#[derive(Clone, Debug, PartialEq, Eq)]
pub enum ServerStateBuilderError {
    /// The spawn lies below the boundary players are sent back from.
    InvalidSpawnPosition,
    /// The time of the world is not one the configuration may name.
    InvalidTime(PacketHandlerError),
}

impl ServerStateBuilder {
    pub fn enable_legacy_forwarding(self) -> (b: Self)
        ensures
            b == (ServerStateBuilder { forwarding_mode: ForwardingMode::Legacy, ..self }),
    {
        ServerStateBuilder { forwarding_mode: ForwardingMode::Legacy, ..self }
    }

    pub fn enable_bungee_guard_forwarding(self, tokens: Vec<String>) -> (b: Self)
        ensures
            b == (ServerStateBuilder { forwarding_mode: ForwardingMode::BungeeGuard { tokens }, ..self }),
    {
        ServerStateBuilder { forwarding_mode: ForwardingMode::BungeeGuard { tokens }, ..self }
    }

    pub fn enable_modern_forwarding(self, secret: Vec<u8>) -> (b: Self)
        ensures
            b == (ServerStateBuilder { forwarding_mode: ForwardingMode::Modern { secret }, ..self }),
    {
        ServerStateBuilder { forwarding_mode: ForwardingMode::Modern { secret }, ..self }
    }

    pub fn disable_forwarding(self) -> (b: Self)
        ensures
            b == (ServerStateBuilder { forwarding_mode: ForwardingMode::Disabled, ..self }),
    {
        ServerStateBuilder { forwarding_mode: ForwardingMode::Disabled, ..self }
    }

    /// Sets the spawn dimension.
    pub fn dimension(self, dimension: Dimension) -> (b: Self)
        ensures
            b == (ServerStateBuilder { dimension: Some(dimension), ..self }),
    {
        ServerStateBuilder { dimension: Some(dimension), ..self }
    }

    pub fn description_text(self, text: &str) -> (b: Self)
        ensures
            b.description_text@ == text@,
            b == (ServerStateBuilder { description_text: b.description_text, ..self }),
    {
        ServerStateBuilder { description_text: text.to_owned(), ..self }
    }

    pub fn max_players(self, max_players: u32) -> (b: Self)
        ensures
            b == (ServerStateBuilder { max_players, ..self }),
    {
        ServerStateBuilder { max_players, ..self }
    }

    pub fn welcome_message(self, message: &str) -> (b: Self)
        ensures
            b.welcome_message@ == message@,
            b == (ServerStateBuilder { welcome_message: b.welcome_message, ..self }),
    {
        ServerStateBuilder { welcome_message: message.to_owned(), ..self }
    }

    pub fn show_online_player_count(self, show: bool) -> (b: Self)
        ensures
            b == (ServerStateBuilder { show_online_player_count: show, ..self }),
    {
        ServerStateBuilder { show_online_player_count: show, ..self }
    }

    pub fn game_mode(self, game_mode: GameMode) -> (b: Self)
        ensures
            b == (ServerStateBuilder { game_mode, ..self }),
    {
        ServerStateBuilder { game_mode, ..self }
    }

    pub fn hardcore(self, hardcore: bool) -> (b: Self)
        ensures
            b == (ServerStateBuilder { hardcore, ..self }),
    {
        ServerStateBuilder { hardcore, ..self }
    }

    pub fn spawn_position(self, position: Position) -> (b: Self)
        ensures
            b == (ServerStateBuilder { spawn_position: position, ..self }),
    {
        ServerStateBuilder { spawn_position: position, ..self }
    }

    /// Sets the view distance, held between 0 and 32.
    pub fn view_distance(self, view_distance: i32) -> (b: Self)
        ensures
            b == (ServerStateBuilder {
                view_distance: if view_distance < 0 { 0 } else if view_distance > 32 { 32 } else { view_distance },
                ..self
            }),
    {
        let clamped = if view_distance < 0 {
            0
        } else if view_distance > 32 {
            32
        } else {
            view_distance
        };
        ServerStateBuilder { view_distance: clamped, ..self }
    }

    /// Sets the time of day in ticks.
    pub fn time_world(self, ticks: i64) -> (b: Self)
        ensures
            b == (ServerStateBuilder { time_world_ticks: ticks, ..self }),
    {
        ServerStateBuilder { time_world_ticks: ticks, ..self }
    }

    pub fn lock_time(self, lock_time: bool) -> (b: Self)
        ensures
            b == (ServerStateBuilder { lock_time, ..self }),
    {
        ServerStateBuilder { lock_time, ..self }
    }

    /// Sets the player list header and footer.
    pub fn tab_list(self, header: String, footer: String) -> (b: Self)
        ensures
            b == (ServerStateBuilder { tab_list: TabList { header, footer }, ..self }),
    {
        ServerStateBuilder { tab_list: TabList { header, footer }, ..self }
    }

    pub fn boss_bar(self, boss_bar: BossBar) -> (b: Self)
        ensures
            b == (ServerStateBuilder { boss_bar, ..self }),
    {
        ServerStateBuilder { boss_bar, ..self }
    }

    /// Sends players back to the spawn when they fall below `min_y`, telling
    /// them `teleport_message` unless it is empty.
    pub fn boundaries(self, min_y: i32, teleport_message: &str) -> (b: Self)
        ensures
            b.boundaries matches Boundaries::Enabled { min_y: y, teleport_message: m } && y == min_y
                && (teleport_message@.len() == 0 ==> m is None)
                && (teleport_message@.len() > 0 ==> (m matches Some(t) && t@ == teleport_message@)),
            b == (ServerStateBuilder { boundaries: b.boundaries, ..self }),
    {
        let message = if teleport_message.is_empty() {
            None
        } else {
            Some(teleport_message.to_owned())
        };
        ServerStateBuilder { boundaries: Boundaries::Enabled { min_y, teleport_message: message }, ..self }
    }

    pub fn fetch_player_skins(self, fetch: bool) -> (b: Self)
        ensures
            b == (ServerStateBuilder { fetch_player_skins: fetch, ..self }),
    {
        ServerStateBuilder { fetch_player_skins: fetch, ..self }
    }

    pub open spec fn spec_state(self) -> ServerStateView {
        ServerStateView {
            forwarding_mode: self.forwarding_mode,
            spawn_dimension: match self.dimension {
                Some(d) => d,
                None => Dimension::Overworld,
            },
            description_text: self.description_text,
            max_players: self.max_players,
            welcome_message: self.welcome_message,
            connected_clients: 0,
            show_online_player_count: self.show_online_player_count,
            game_mode: self.game_mode,
            hardcore: self.hardcore,
            spawn_position: self.spawn_position,
            view_distance: self.view_distance,
            time_world_ticks: self.time_world_ticks,
            lock_time: self.lock_time,
            tab_list: self.tab_list,
            boss_bar: self.boss_bar,
            boundaries: self.boundaries,
            fetch_player_skins: self.fetch_player_skins,
        }
    }

    fn build_state(self) -> (s: ServerState)
        ensures
            s@ == self.spec_state(),
    {
        ServerState {
            forwarding_mode: self.forwarding_mode,
            spawn_dimension: match self.dimension {
                Some(d) => d,
                None => Dimension::Overworld,
            },
            description_text: self.description_text,
            max_players: self.max_players,
            welcome_message: self.welcome_message,
            connected_clients: 0,
            show_online_player_count: self.show_online_player_count,
            game_mode: self.game_mode,
            hardcore: self.hardcore,
            spawn_position: self.spawn_position,
            view_distance: self.view_distance,
            time_world_ticks: self.time_world_ticks,
            lock_time: self.lock_time,
            tab_list: self.tab_list,
            boss_bar: self.boss_bar,
            boundaries: self.boundaries,
            fetch_player_skins: self.fetch_player_skins,
        }
    }

    /// Builds the server state, with no client connected yet.
    pub fn build(self) -> (r: Result<ServerState, ServerStateBuilderError>)
        ensures
            r matches Ok(s) && s@ == self.spec_state(),
    {
        Ok(self.build_state())
    }
}

/// Whether `mode` is the forwarding mode a configuration asks for: Velocity,
/// with the UTF-8 bytes of the secret, when it is enabled; else BungeeGuard
/// with the tokens, or plain BungeeCord, when BungeeCord is enabled; else none.
pub open spec fn spec_forwarding_mode_of(config: ForwardingConfig, mode: ForwardingMode) -> bool {
    if config.velocity.enabled {
        mode matches ForwardingMode::Modern { secret } && secret@ == encode_utf8(config.velocity.secret@)
    } else if config.bungee_cord.enabled {
        if config.bungee_cord.bungee_guard {
            mode == (ForwardingMode::BungeeGuard { tokens: config.bungee_cord.tokens })
        } else {
            mode == ForwardingMode::Legacy
        }
    } else {
        mode == ForwardingMode::Disabled
    }
}

/// Picks the forwarding mode that a configuration asks for.
pub fn forwarding_mode_of(config: ForwardingConfig) -> (m: ForwardingMode)
    ensures
        spec_forwarding_mode_of(config, m),
{
    if config.velocity.enabled {
        let bytes = config.velocity.secret.as_str().as_bytes();
        let mut secret: Vec<u8> = Vec::new();
        let mut i: usize = 0;
        while i < bytes.len()
            invariant
                i <= bytes@.len(),
                secret@ == bytes@.take(i as int),
            decreases bytes@.len() - i,
        {
            secret.push(bytes[i]);
            assert(bytes@.take(i + 1) =~= bytes@.take(i as int).push(bytes@[i as int]));
            i = i + 1;
        }
        assert(bytes@.take(bytes@.len() as int) =~= bytes@);
        assert(secret@ == encode_utf8(config.velocity.secret@));
        ForwardingMode::Modern { secret }
    } else if config.bungee_cord.enabled {
        if config.bungee_cord.bungee_guard {
            ForwardingMode::BungeeGuard { tokens: config.bungee_cord.tokens }
        } else {
            ForwardingMode::Legacy
        }
    } else {
        ForwardingMode::Disabled
    }
}

} // verus!

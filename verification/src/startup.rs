use crate::client_state::ClientStateView;
use crate::config::{lemma_parsed_time_in_day, parse_time, same_time_result, spec_parse_time, BossBarConfig, BoundariesConfig, Config};
use crate::error::PacketHandlerError;
use crate::forwarding::lemma_forwarding_mode_choice;
use crate::handlers::configuration::{lemma_play_time_follows_lock, spec_play_outcome};
use crate::packets::PacketRegistry;
use crate::registries::VersionData;
use crate::server_state::{
    forwarding_mode_of, spec_forwarding_mode_of, BossBar, Boundaries, ForwardingMode, ServerState, ServerStateBuilder,
    ServerStateBuilderError, ServerStateView, TabList,
};
use vstd::prelude::*;

verus! {

/// Whether the spawn of a configuration lies below its enabled boundary.
pub open spec fn spec_spawn_below_boundary(cfg: Config) -> bool {
    cfg.spawn.boundaries.enabled && cfg.spawn.spawn_position.y.spec_is_below(cfg.spawn.boundaries.min_y as int)
}

/// The boss bar a configuration asks for.
pub open spec fn spec_boss_bar_of(cfg: BossBarConfig) -> BossBar {
    if cfg.enabled {
        BossBar::Enabled { title: cfg.title, health_bits: cfg.health_bits, color: cfg.color, division: cfg.division }
    } else {
        BossBar::Disabled
    }
}

/// Whether `b` is the boundary a configuration asks for: none when it is
/// disabled; else its lowest height, with its message unless it is empty.
pub open spec fn spec_boundaries_of(cfg: BoundariesConfig, b: Boundaries) -> bool {
    if cfg.enabled {
        &&& b matches Boundaries::Enabled { min_y, teleport_message } && min_y == cfg.min_y && match teleport_message {
            Some(m) => m@ == cfg.teleport_message@ && m@.len() > 0,
            None => cfg.teleport_message@.len() == 0,
        }
    } else {
        b == Boundaries::Disabled
    }
}

/// Whether `v` is the server state that a configuration describes, with the
/// world at `ticks`.
pub open spec fn spec_state_of(cfg: Config, ticks: i64, v: ServerStateView) -> bool {
    &&& spec_forwarding_mode_of(cfg.forwarding, v.forwarding_mode)
    &&& v.spawn_dimension == cfg.world.spawn_dimension.spec_dimension()
    &&& v.description_text@ == cfg.server_list.message_of_the_day@
    &&& v.max_players == cfg.server_list.max_players
    &&& v.welcome_message@ == cfg.welcome_message@
    &&& v.connected_clients == 0
    &&& v.show_online_player_count == cfg.server_list.show_online_player_count
    &&& v.game_mode == cfg.default_game_mode.spec_game_mode()
    &&& v.hardcore == cfg.hardcore
    &&& v.spawn_position == cfg.spawn.spawn_position
    &&& v.view_distance == (if cfg.spawn.view_distance < 0 { 0 } else if cfg.spawn.view_distance > 32 { 32 } else { cfg.spawn.view_distance })
    &&& v.time_world_ticks == ticks
    &&& v.lock_time == cfg.world.lock_time
    &&& v.tab_list == (TabList { header: cfg.tab_list.header, footer: cfg.tab_list.footer })
    &&& v.boss_bar == spec_boss_bar_of(cfg.boss_bar)
    &&& spec_boundaries_of(cfg.spawn.boundaries, v.boundaries)
    &&& v.fetch_player_skins == cfg.fetch_player_skins
}

/// The server state built from a configuration forwards as the configuration
/// asks: modern forwarding exactly when Velocity is enabled; otherwise, with
/// BungeeCord enabled, BungeeGuard with the configured tokens exactly when
/// `bungee_guard` is on and plain BungeeCord forwarding when it is off; and
/// no forwarding when neither is enabled.
pub proof fn lemma_state_forwards_as_configured(cfg: Config, ticks: i64, v: ServerStateView)
    requires
        spec_state_of(cfg, ticks, v),
    ensures
        v.forwarding_mode is Modern <==> cfg.forwarding.velocity.enabled,
        v.forwarding_mode is BungeeGuard <==> (!cfg.forwarding.velocity.enabled && cfg.forwarding.bungee_cord.enabled
            && cfg.forwarding.bungee_cord.bungee_guard),
        v.forwarding_mode is Legacy <==> (!cfg.forwarding.velocity.enabled && cfg.forwarding.bungee_cord.enabled
            && !cfg.forwarding.bungee_cord.bungee_guard),
        v.forwarding_mode is Disabled <==> (!cfg.forwarding.velocity.enabled && !cfg.forwarding.bungee_cord.enabled),
        v.forwarding_mode matches ForwardingMode::BungeeGuard { tokens } ==> tokens == cfg.forwarding.bungee_cord.tokens,
{
    lemma_forwarding_mode_choice(cfg.forwarding, v.forwarding_mode, Seq::empty());
}

/// The time settings of the configuration reach the players: on a server
/// built from a configuration whose time of the world reads as `ticks`, the
/// play packets sent to a joining player hold a time update, and every time
/// update among them has `ticks` (a time of day, from 0 to 23999) as world
/// age and time of day, and lets time run if and only if the configuration
/// does not lock it.
pub proof fn lemma_configured_time_reaches_players(
    cfg: Config,
    ticks: i64,
    v: ServerStateView,
    data: VersionData,
    batch_before: Seq<PacketRegistry>,
    client_before: ClientStateView,
    r: Result<(), PacketHandlerError>,
    batch_after: Seq<PacketRegistry>,
    client_after: ClientStateView,
)
    requires
        spec_parse_time(cfg.world.time_world@) == Ok::<i64, Seq<char>>(ticks),
        spec_state_of(cfg, ticks, v),
        spec_play_outcome(v, data, batch_before, client_before, r, batch_after, client_after),
        r is Ok,
    ensures
        0 <= ticks < 24000,
        ({
            let sent = batch_after.skip(batch_before.len() as int);
            &&& exists|i: int| 0 <= i < sent.len() && (#[trigger] sent[i] is UpdateTime)
            &&& forall|i: int| 0 <= i < sent.len() && (#[trigger] sent[i] is UpdateTime) ==> {
                let t = sent[i]->UpdateTime_0;
                &&& t.time_advances == !cfg.world.lock_time
                &&& t.world_age == ticks
                &&& t.time_of_day == ticks
            }
        }),
{
    lemma_parsed_time_in_day(cfg.world.time_world@);
    lemma_play_time_follows_lock(v, data, batch_before, client_before, r, batch_after, client_after);
}

/// The view distance of a server built from a configuration is the
/// configured one kept within 0 to 32.
pub proof fn lemma_view_distance_clamped(cfg: Config, ticks: i64, v: ServerStateView)
    requires
        spec_state_of(cfg, ticks, v),
    ensures
        0 <= v.view_distance <= 32,
        0 <= cfg.spawn.view_distance <= 32 ==> v.view_distance == cfg.spawn.view_distance,
        cfg.spawn.view_distance < 0 ==> v.view_distance == 0,
        cfg.spawn.view_distance > 32 ==> v.view_distance == 32,
{
}

/// Builds the server state that a configuration describes.
///
/// A spawn below the enabled boundary is refused first; then a time of the
/// world that cannot be read.
pub fn build_state(cfg: Config) -> (r: Result<ServerState, ServerStateBuilderError>)
    ensures
        spec_spawn_below_boundary(cfg) ==> r == Err::<ServerState, ServerStateBuilderError>(ServerStateBuilderError::InvalidSpawnPosition),
        !spec_spawn_below_boundary(cfg) ==> match spec_parse_time(cfg.world.time_world@) {
            Err(m) => r matches Err(ServerStateBuilderError::InvalidTime(f)) && same_time_result(Err(f), Err(m)),
            Ok(ticks) => r matches Ok(s) && spec_state_of(cfg, ticks, s@),
        },
{
    let ghost config = cfg;
    let Config {
        bind: _,
        forwarding,
        world,
        spawn,
        server_list,
        welcome_message,
        default_game_mode,
        hardcore,
        tab_list,
        fetch_player_skins,
        boss_bar,
    } = cfg;

    if spawn.boundaries.enabled && spawn.spawn_position.y.is_below(spawn.boundaries.min_y) {
        return Err(ServerStateBuilderError::InvalidSpawnPosition);
    }
    let ticks = match parse_time(world.time_world.as_str()) {
        Ok(t) => t,
        Err(e) => return Err(ServerStateBuilderError::InvalidTime(e)),
    };

    let builder = ServerState::builder();
    let builder = ServerStateBuilder { forwarding_mode: forwarding_mode_of(forwarding), ..builder };
    let builder = if spawn.boundaries.enabled {
        builder.boundaries(spawn.boundaries.min_y, spawn.boundaries.teleport_message.as_str())
    } else {
        builder
    };
    let boss = if boss_bar.enabled {
        BossBar::Enabled { title: boss_bar.title, health_bits: boss_bar.health_bits, color: boss_bar.color, division: boss_bar.division }
    } else {
        BossBar::Disabled
    };
    let builder = builder
        .dimension(world.spawn_dimension.dimension())
        .time_world(ticks)
        .lock_time(world.lock_time)
        .description_text(server_list.message_of_the_day.as_str())
        .welcome_message(welcome_message.as_str())
        .max_players(server_list.max_players)
        .show_online_player_count(server_list.show_online_player_count)
        .game_mode(default_game_mode.game_mode())
        .hardcore(hardcore)
        .spawn_position(spawn.spawn_position)
        .view_distance(spawn.view_distance)
        .tab_list(tab_list.header, tab_list.footer)
        .boss_bar(boss)
        .fetch_player_skins(fetch_player_skins);
    builder.build()
}

} // verus!

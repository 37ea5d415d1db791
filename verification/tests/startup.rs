use pico_limbo::config::{BossBarColorConfig, BossBarDivisionConfig, Config, GameModeConfig, SpawnDimensionConfig};
use pico_limbo::coordinate::{Coordinate, Position};
use pico_limbo::error::PacketHandlerError;
use pico_limbo::game_mode::GameMode;
use pico_limbo::protocol::Dimension;
use pico_limbo::server_state::{BossBar, Boundaries, ServerState, ServerStateBuilderError};
use pico_limbo::startup::build_state;

fn coordinate(value: f64) -> Coordinate {
    Coordinate { bits: value.to_bits(), floor: Some(value.floor() as i64) }
}

#[test]
fn default_configuration_builds_the_default_server() {
    let state = build_state(Config::default()).unwrap();
    assert!(!state.is_legacy_forwarding());
    assert!(!state.is_modern_forwarding());
    assert_eq!(state.description_text(), "A Minecraft Server");
    assert_eq!(state.max_players(), 20);
    assert_eq!(state.welcome_message(), Some("Welcome to PicoLimbo!".to_string()));
    assert_eq!(state.spawn_dimension(), Dimension::Overworld);
    assert_eq!(state.game_mode(), GameMode::Spectator);
    assert_eq!(state.view_distance(), 2);
    assert_eq!(state.time_world_ticks(), 1000);
    assert!(state.is_time_locked());
    assert_eq!(state.online_players(), 0);
    assert_eq!(state.spawn_position().y, coordinate(320.0));
}

#[test]
fn configuration_settings_reach_the_server_state() {
    let mut cfg = Config::default();
    cfg.world.spawn_dimension = SpawnDimensionConfig::End;
    cfg.world.time_world = "Midnight".to_string();
    cfg.world.lock_time = false;
    cfg.default_game_mode = GameModeConfig::Creative;
    cfg.hardcore = true;
    cfg.spawn.view_distance = 99;
    cfg.boss_bar.enabled = true;
    cfg.boss_bar.color = BossBarColorConfig::Red;
    cfg.boss_bar.division = BossBarDivisionConfig::SixNotches;
    cfg.forwarding.velocity.enabled = true;
    cfg.forwarding.velocity.secret = "key".to_string();
    let state = build_state(cfg).unwrap();
    assert_eq!(state.spawn_dimension(), Dimension::End);
    assert_eq!(state.time_world_ticks(), 18000);
    assert!(!state.is_time_locked());
    assert_eq!(state.game_mode(), GameMode::Creative);
    assert!(state.is_hardcore());
    assert_eq!(state.view_distance(), 32);
    assert!(matches!(state.boss_bar(), BossBar::Enabled { .. }));
    assert_eq!(state.secret_key().ok(), Some(b"key".to_vec()));
}

#[test]
fn spawn_below_the_boundary_is_refused() {
    let mut cfg = Config::default();
    cfg.spawn.boundaries.enabled = true;
    cfg.spawn.boundaries.min_y = 0;
    cfg.spawn.spawn_position = Position { x: coordinate(0.0), y: coordinate(-0.5), z: coordinate(0.0) };
    assert_eq!(build_state(cfg).err(), Some(ServerStateBuilderError::InvalidSpawnPosition));
}

#[test]
fn enabled_boundaries_reach_the_server_state() {
    let mut cfg = Config::default();
    cfg.spawn.boundaries.enabled = true;
    cfg.spawn.boundaries.min_y = 10;
    cfg.spawn.boundaries.teleport_message = String::new();
    let state = build_state(cfg).unwrap();
    assert_eq!(state.boundaries(), &Boundaries::Enabled { min_y: 10, teleport_message: None });
    assert_eq!(state.min_y_pos(), 10);
}

#[test]
fn unreadable_time_is_refused() {
    let mut cfg = Config::default();
    cfg.world.time_world = "tea time".to_string();
    assert_eq!(
        build_state(cfg).err(),
        Some(ServerStateBuilderError::InvalidTime(PacketHandlerError::InvalidState("Invalid time_world value: tea time".to_string())))
    );
    let mut cfg = Config::default();
    cfg.world.time_world = "24000".to_string();
    assert_eq!(
        build_state(cfg).err(),
        Some(ServerStateBuilderError::InvalidTime(PacketHandlerError::InvalidState("time_world ticks out of range (0–23999): 24000".to_string())))
    );
}

#[test]
fn builder_builds_whatever_the_spawn() {
    let below = ServerState::builder()
        .spawn_position(Position { x: coordinate(0.0), y: coordinate(-65.0), z: coordinate(0.0) })
        .boundaries(-64, "too low");
    let state = below.build().unwrap();
    assert_eq!(state.min_y_pos(), -64);
    assert_eq!(state.min_y_message(), Some("too low".to_string()));
    assert!(ServerState::builder().boundaries(10, "").build().is_ok());
}

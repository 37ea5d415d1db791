use pico_limbo::batch::Batch;
use pico_limbo::cli::{Cli, LogLevel};
use pico_limbo::client_state::{ClientState, GameProfile};
use pico_limbo::config::{parse_time, BossBarDivisionConfig, GameModeConfig, ParseTime, SpawnDimensionConfig};
use pico_limbo::error::PacketHandlerError;
use pico_limbo::fifo::Fifo;
use pico_limbo::game_mode::GameMode;
use pico_limbo::keep_alive::{enable_keep_alive_if_needed, KeepAliveSchedule};
use pico_limbo::packets::{PacketRegistry, PingRequestPacket, PongResponsePacket, Property};
use pico_limbo::protocol::{Dimension, ProtocolVersion, State};
use pico_limbo::server_state::ServerState;
use pico_limbo::text::{i64_to_string, parse_i64, parse_u64, split_char};

#[test]
fn fifo_hands_items_out_in_the_order_they_came() {
    let mut fifo = Fifo::new();
    fifo.push(1);
    fifo.push(2);
    fifo.push(3);
    assert_eq!(fifo.pop(), Some(1));
    fifo.push(4);
    assert_eq!(fifo.len(), 3);
    assert_eq!(fifo.drain().collect_all(), vec![2, 3, 4]);
    assert!(fifo.is_empty());
    assert_eq!(fifo.pop(), None);
}

#[test]
fn partly_consumed_drain_leaves_the_rest_queued() {
    let mut fifo = Fifo::new();
    fifo.push(1);
    fifo.push(2);
    fifo.push(3);
    {
        let mut drain = fifo.drain();
        assert_eq!(drain.next(), Some(1));
    }
    assert_eq!(fifo.len(), 2);
    assert_eq!(fifo.pop(), Some(2));
    let mut drain = fifo.drain();
    assert_eq!(drain.next(), Some(3));
    assert_eq!(drain.next(), None);
}

#[test]
fn batch_hands_items_out_in_the_order_they_were_queued() {
    let mut batch = Batch::new();
    batch.queue(1);
    batch.chain_iter(vec![2, 3]);
    batch.queue(4);
    assert_eq!(batch.len(), 4);
    let mut items = batch.into_iter();
    assert_eq!(items.next(), Some(1));
    assert_eq!(items.collect_all(), vec![2, 3, 4]);
}

#[test]
fn client_state_queues_packets_in_order() {
    let mut client_state = ClientState::default();
    assert!(client_state.has_no_more_packets());
    client_state.queue_packet(PacketRegistry::PongResponse(PongResponsePacket { timestamp: 1 }));
    client_state.queue_packet(PacketRegistry::PongResponse(PongResponsePacket { timestamp: 2 }));
    assert_eq!(client_state.next_packet(), Some(PacketRegistry::PongResponse(PongResponsePacket { timestamp: 1 })));
    assert_eq!(
        client_state.pending_packets().drain().collect_all(),
        vec![PacketRegistry::PongResponse(PongResponsePacket { timestamp: 2 })]
    );
    assert!(client_state.has_no_more_packets());
    let _ = PingRequestPacket::default();
}

#[test]
fn client_messages_follow_the_version() {
    let mut client_state = ClientState::default();
    client_state.set_protocol_version(ProtocolVersion::V1_18_2);
    client_state.send_message("hi".to_string());
    assert!(matches!(client_state.next_packet(), Some(PacketRegistry::LegacyChatMessage(_))));
    client_state.set_protocol_version(ProtocolVersion::V1_19);
    client_state.send_message("hi".to_string());
    assert!(matches!(client_state.next_packet(), Some(PacketRegistry::SystemChatMessage(_))));
}

#[test]
fn new_client_is_anonymous_until_it_logs_in() {
    let mut client_state = ClientState::default();
    assert_eq!(client_state.state(), State::Handshake);
    assert_eq!(client_state.protocol_version(), ProtocolVersion::Any);
    assert_eq!(client_state.get_username(), "Anonymous".to_string());
    assert_eq!(client_state.get_unique_id(), 0);
    assert_eq!(client_state.get_velocity_login_message_id(), -1);
    let textures = Property { name: "textures".to_string(), value: "abc".to_string(), signature: None };
    client_state.set_game_profile(GameProfile::new("Notch", 5, Some(textures.clone())));
    assert_eq!(client_state.get_username(), "Notch".to_string());
    assert_eq!(client_state.get_textures(), Some(textures));
    client_state.kick("bye");
    assert_eq!(client_state.should_kick(), Some("bye".to_string()));
}

#[test]
fn game_profile_names_are_cut_on_a_character_boundary_only() {
    assert_eq!(GameProfile::new("ABCDEFGHIJKLMNOPQRS", 1, None).username(), "ABCDEFGHIJKLMNOP");
    assert_eq!(GameProfile::new("Short", 1, None).username(), "Short");
    // Fifteen ASCII bytes and a two-byte character: byte 16 is inside it.
    let name = "ABCDEFGHIJKLMNOé";
    assert_eq!(GameProfile::new(name, 1, None).username(), name);
    let mut profile = GameProfile::anonymous(9, None);
    assert!(profile.is_anonymous());
    profile.set_name("Alex");
    assert!(!profile.is_anonymous());
    assert_eq!(profile.uuid(), 9);
}

#[test]
fn keep_alive_is_scheduled_once_when_asked_for() {
    let mut client_state = ClientState::default();
    client_state.set_protocol_version(ProtocolVersion::V1_7_6);
    assert_eq!(enable_keep_alive_if_needed(&mut client_state), None);
    client_state.set_keep_alive_should_enable();
    assert_eq!(
        enable_keep_alive_if_needed(&mut client_state),
        Some(KeepAliveSchedule { first_after_secs: Some(2), period_secs: 2 })
    );
    assert_eq!(enable_keep_alive_if_needed(&mut client_state), None);
    client_state.set_keep_alive_should_enable();
    assert!(!client_state.should_enable_keep_alive());

    let mut modern = ClientState::default();
    modern.set_protocol_version(ProtocolVersion::V1_21_4);
    modern.set_keep_alive_should_enable();
    assert_eq!(
        enable_keep_alive_if_needed(&mut modern),
        Some(KeepAliveSchedule { first_after_secs: None, period_secs: 20 })
    );
}

#[test]
fn connected_clients_are_counted_with_wrap_around() {
    let mut state = ServerState::builder().show_online_player_count(true).build().unwrap();
    state.decrement();
    assert_eq!(state.online_players(), u32::MAX);
    state.increment();
    assert_eq!(state.online_players(), 0);
    state.increment();
    state.increment();
    state.decrement();
    assert_eq!(state.online_players(), 1);
    let hidden = ServerState::builder().show_online_player_count(false).build().unwrap();
    let mut hidden = hidden;
    hidden.increment();
    assert_eq!(hidden.online_players(), 0);
}

#[test]
fn every_known_version_reads_back_from_its_number() {
    let versions = [
        ProtocolVersion::V1_7_2, ProtocolVersion::V1_8, ProtocolVersion::V1_12_2, ProtocolVersion::V1_16_2,
        ProtocolVersion::V1_19_4, ProtocolVersion::V1_20_3, ProtocolVersion::V1_20_5, ProtocolVersion::V1_21_6,
    ];
    for v in versions {
        assert_eq!(ProtocolVersion::from_number(v.version_number()), v);
    }
    assert_eq!(ProtocolVersion::from_number(770).humanize(), "1.21.5");
    assert_eq!(ProtocolVersion::V1_21_4.directory_name(), "V1_21_4");
    assert!(ProtocolVersion::V1_20_2.supports_configuration_state());
    assert!(!ProtocolVersion::V1_20.supports_configuration_state());
    assert!(ProtocolVersion::V1_13.between_inclusive(ProtocolVersion::V1_13, ProtocolVersion::V1_20));
    assert_eq!(State::Configuration.name(), "configuration");
}

#[test]
fn time_settings_are_read_in_any_case() {
    assert_eq!(parse_time("Sunrise"), Ok(1000));
    assert_eq!(parse_time("DAY"), Ok(1000));
    assert_eq!(parse_time("noon"), Ok(6000));
    assert_eq!("night".parse_time(), Ok(13000));
    assert_eq!("sunset".to_string().parse_time(), Ok(13000));
    assert_eq!(parse_time("midnight"), Ok(18000));
    assert_eq!(parse_time("23999"), Ok(23999));
    assert_eq!(parse_time("0"), Ok(0));
    assert_eq!(
        parse_time("-1"),
        Err(PacketHandlerError::InvalidState("time_world ticks out of range (0–23999): -1".to_string()))
    );
}

#[test]
fn configuration_enums_map_to_game_values() {
    assert_eq!(GameModeConfig::Adventure.game_mode(), GameMode::Adventure);
    assert_eq!(GameMode::Spectator.value(), 3);
    assert_eq!(SpawnDimensionConfig::Nether.dimension(), Dimension::Nether);
    for d in [
        BossBarDivisionConfig::NoDivision,
        BossBarDivisionConfig::SixNotches,
        BossBarDivisionConfig::TenNotches,
        BossBarDivisionConfig::TwelveNotches,
        BossBarDivisionConfig::TwentyNotches,
    ] {
        assert_eq!(BossBarDivisionConfig::from_notches(d.notches()), Some(d));
    }
    assert_eq!(BossBarDivisionConfig::from_notches(7), None);
}

#[test]
fn log_level_follows_verbosity() {
    let mut cli = Cli::with_defaults();
    assert_eq!(cli.config_path, "server.toml".to_string());
    assert_eq!(cli.log_level(), LogLevel::Info);
    cli.verbose = 1;
    assert_eq!(cli.log_level(), LogLevel::Debug);
    cli.verbose = 5;
    assert_eq!(cli.log_level(), LogLevel::Trace);
}

#[test]
fn text_helpers_split_and_parse() {
    assert_eq!(split_char("a\0b\0\0c", '\0'), vec!["a".to_string(), "b".to_string(), String::new(), "c".to_string()]);
    assert_eq!(split_char("", '\0'), vec![String::new()]);
    assert_eq!(parse_u64("+42"), Some(42));
    assert_eq!(parse_u64("18446744073709551615"), Some(u64::MAX));
    assert_eq!(parse_u64("18446744073709551616"), None);
    assert_eq!(parse_u64("-1"), None);
    assert_eq!(parse_u64(""), None);
    assert_eq!(parse_u64("+"), None);
    assert_eq!(parse_i64("-9223372036854775808"), Some(i64::MIN));
    assert_eq!(parse_i64("9223372036854775807"), Some(i64::MAX));
    assert_eq!(parse_i64("9223372036854775808"), None);
    assert_eq!(parse_i64("-9223372036854775809"), None);
    assert_eq!(parse_i64("+17"), Some(17));
    assert_eq!(parse_i64("-0"), Some(0));
    assert_eq!(parse_i64("-"), None);
    assert_eq!(parse_i64("1_000"), None);
    assert_eq!(parse_i64(" 1"), None);
}

#[test]
fn handler_errors_are_shown_with_their_reason() {
    assert_eq!(PacketHandlerError::custom("Unhandled packet").message(), "An error occurred while handling a packet: Unhandled packet".to_string());
    assert_eq!(PacketHandlerError::invalid_state("nope").message(), "nope".to_string());
}

#[test]
fn integers_are_written_in_decimal() {
    assert_eq!(i64_to_string(0), "0");
    assert_eq!(i64_to_string(7), "7");
    assert_eq!(i64_to_string(1234), "1234");
    assert_eq!(i64_to_string(-5), "-5");
    assert_eq!(i64_to_string(-100), "-100");
    assert_eq!(i64_to_string(i64::MAX), "9223372036854775807");
    assert_eq!(i64_to_string(i64::MIN), "-9223372036854775808");
}

#[test]
fn drain_of_k_items_leaves_the_rest() {
    let mut fifo = Fifo::new();
    for i in 0..5 {
        fifo.push(i);
    }
    {
        let mut drain = fifo.drain();
        assert_eq!(drain.next(), Some(0));
        assert_eq!(drain.next(), Some(1));
    }
    assert_eq!(fifo.len(), 3);
    {
        let mut drain = fifo.drain();
        assert_eq!(drain.next(), Some(2));
        assert_eq!(drain.next(), Some(3));
        assert_eq!(drain.next(), Some(4));
        assert_eq!(drain.next(), None);
        assert_eq!(drain.next(), None);
    }
    assert!(fifo.is_empty());
}

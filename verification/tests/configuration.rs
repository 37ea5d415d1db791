use pico_limbo::batch::Batch;
use pico_limbo::client_state::{ClientState, KeepAliveStatus};
use pico_limbo::error::PacketHandlerError;
use pico_limbo::handlers::configuration::send_play_packets;
use pico_limbo::packets::{AcknowledgeConfigurationPacket, PacketRegistry};
use pico_limbo::protocol::{ProtocolVersion, State};
use pico_limbo::registries::{Registries, VersionData};
use pico_limbo::config::{BossBarColorConfig, BossBarDivisionConfig};
use pico_limbo::random::uuid_v4_from_bits;
use pico_limbo::server_state::{BossBar, ServerState};

fn server_state() -> ServerState {
    ServerState::builder()
        .view_distance(0)
        .welcome_message("Hello, World!")
        .build()
        .unwrap()
}

fn client(protocol: ProtocolVersion) -> ClientState {
    let mut cs = ClientState::default();
    cs.set_protocol_version(protocol);
    let previous_state = if protocol.supports_configuration_state() {
        State::Configuration
    } else {
        State::Login
    };
    cs.set_state(previous_state);
    cs
}

/// Game data in the format of each version, with the void biome known.
fn data(protocol: ProtocolVersion) -> VersionData {
    let registries = if protocol.is_after_inclusive(ProtocolVersion::V1_20_5) {
        Registries::V1_20_5 { registries: Vec::new() }
    } else if protocol.between_inclusive(ProtocolVersion::V1_20_2, ProtocolVersion::V1_20_3) {
        Registries::V1_20_2 { registry_codec: vec![10, 0, 0] }
    } else if protocol.between_inclusive(ProtocolVersion::V1_19, ProtocolVersion::V1_20) {
        Registries::V1_19 { registry_codec: vec![10, 0, 0] }
    } else if protocol.between_inclusive(ProtocolVersion::V1_16_2, ProtocolVersion::V1_18_2) {
        Registries::V1_16_2 { registry_codec: vec![10, 0, 0], dimension: vec![10, 0, 0] }
    } else if protocol.between_inclusive(ProtocolVersion::V1_16, ProtocolVersion::V1_16_1) {
        Registries::V1_16 { registry_codec: vec![10, 0, 0] }
    } else {
        Registries::NoRegistries
    };
    VersionData { registries, dimension_index: Some(0), void_biome_index: Some(1) }
}

fn names(batch: Batch<PacketRegistry>) -> Vec<&'static str> {
    batch.into_iter().collect_all().iter().map(|p| p.report_name()).collect()
}

#[test]
fn test_v1_20_3_play_packets() {
    // Given
    let mut client_state = client(ProtocolVersion::V1_20_3);
    let server_state = server_state();
    let mut batch = Batch::new();

    // When
    send_play_packets(&mut batch, &mut client_state, &server_state, data(ProtocolVersion::V1_20_3)).unwrap();
    let mut batch = batch.into_iter();

    // Then
    assert!(matches!(batch.next().unwrap(), PacketRegistry::Login(_)));
    assert!(matches!(batch.next().unwrap(), PacketRegistry::SetDefaultSpawnPosition(_)));
    assert!(matches!(batch.next().unwrap(), PacketRegistry::SynchronizePlayerPosition(_)));
    assert!(matches!(batch.next().unwrap(), PacketRegistry::Commands(_)));
    assert!(matches!(batch.next().unwrap(), PacketRegistry::SystemChatMessage(_)));
    assert!(matches!(batch.next().unwrap(), PacketRegistry::UpdateTime(_)));
    assert!(matches!(batch.next().unwrap(), PacketRegistry::SetEntityMetadata(_)));
    assert!(matches!(batch.next().unwrap(), PacketRegistry::GameEvent(_)));
    assert!(matches!(batch.next().unwrap(), PacketRegistry::SetCenterChunk(_)));
    assert!(matches!(batch.next().unwrap(), PacketRegistry::ChunkDataAndUpdateLight(_)));
    assert!(batch.next().is_none());
}

#[test]
fn test_v1_19_play_packets() {
    // Given
    let mut client_state = client(ProtocolVersion::V1_19);
    let server_state = server_state();
    let mut batch = Batch::new();

    // When
    send_play_packets(&mut batch, &mut client_state, &server_state, data(ProtocolVersion::V1_19)).unwrap();
    let mut batch = batch.into_iter();

    // Then
    assert!(matches!(batch.next().unwrap(), PacketRegistry::Login(_)));
    assert!(matches!(batch.next().unwrap(), PacketRegistry::SetDefaultSpawnPosition(_)));
    assert!(matches!(batch.next().unwrap(), PacketRegistry::SynchronizePlayerPosition(_)));
    assert!(matches!(batch.next().unwrap(), PacketRegistry::Commands(_)));
    assert!(matches!(batch.next().unwrap(), PacketRegistry::PlayClientBoundPluginMessage(_)));
    assert!(matches!(batch.next().unwrap(), PacketRegistry::SystemChatMessage(_)));
    assert!(matches!(batch.next().unwrap(), PacketRegistry::UpdateTime(_)));
    assert!(matches!(batch.next().unwrap(), PacketRegistry::SetEntityMetadata(_)));
    assert!(matches!(batch.next().unwrap(), PacketRegistry::SetCenterChunk(_)));
    assert!(matches!(batch.next().unwrap(), PacketRegistry::ChunkDataAndUpdateLight(_)));
    assert!(batch.next().is_none());
}

#[test]
fn test_v1_13_play_packets() {
    // Given
    let mut client_state = client(ProtocolVersion::V1_13);
    let server_state = server_state();
    let mut batch = Batch::new();

    // When
    send_play_packets(&mut batch, &mut client_state, &server_state, data(ProtocolVersion::V1_13)).unwrap();
    let mut batch = batch.into_iter();

    // Then
    assert!(matches!(batch.next().unwrap(), PacketRegistry::Login(_)));
    assert!(matches!(batch.next().unwrap(), PacketRegistry::SynchronizePlayerPosition(_)));
    assert!(matches!(batch.next().unwrap(), PacketRegistry::Commands(_)));
    assert!(matches!(batch.next().unwrap(), PacketRegistry::PlayClientBoundPluginMessage(_)));
    assert!(matches!(batch.next().unwrap(), PacketRegistry::LegacyChatMessage(_)));
    assert!(matches!(batch.next().unwrap(), PacketRegistry::UpdateTime(_)));
    assert!(matches!(batch.next().unwrap(), PacketRegistry::SetEntityMetadata(_)));
    assert!(batch.next().is_none());
}

#[test]
fn test_pre_modern_play_packets() {
    // Given
    let mut client_state = client(ProtocolVersion::V1_12_2);
    let server_state = server_state();
    let mut batch = Batch::new();

    // When
    send_play_packets(&mut batch, &mut client_state, &server_state, data(ProtocolVersion::V1_12_2)).unwrap();
    let mut batch = batch.into_iter();

    // Then
    assert!(matches!(batch.next().unwrap(), PacketRegistry::Login(_)));
    assert!(matches!(batch.next().unwrap(), PacketRegistry::SynchronizePlayerPosition(_)));
    assert!(matches!(batch.next().unwrap(), PacketRegistry::LegacyChatMessage(_)));
    assert!(matches!(batch.next().unwrap(), PacketRegistry::UpdateTime(_)));
    assert!(matches!(batch.next().unwrap(), PacketRegistry::SetEntityMetadata(_)));
    assert!(batch.next().is_none());
}

#[test]
fn play_packets_move_the_client_to_play_and_ask_for_keep_alive() {
    let mut client_state = client(ProtocolVersion::V1_21_4);
    let server_state = server_state();
    let mut batch = Batch::new();
    send_play_packets(&mut batch, &mut client_state, &server_state, data(ProtocolVersion::V1_21_4)).unwrap();
    assert_eq!(client_state.state(), State::Play);
    assert!(client_state.should_enable_keep_alive());
    client_state.set_keep_alive_enabled();
    assert!(!client_state.should_enable_keep_alive());
    let _ = KeepAliveStatus::Enabled;
}

#[test]
fn view_distance_one_sends_nine_chunks_nearest_first() {
    let mut client_state = client(ProtocolVersion::V1_21_4);
    let server_state = ServerState::builder().view_distance(1).build().unwrap();
    let mut batch = Batch::new();
    send_play_packets(&mut batch, &mut client_state, &server_state, data(ProtocolVersion::V1_21_4)).unwrap();
    let packets = batch.into_iter().collect_all();
    let chunks: Vec<(i64, i64)> = packets
        .iter()
        .filter_map(|p| match p {
            PacketRegistry::ChunkDataAndUpdateLight(c) => Some((c.chunk_x, c.chunk_z)),
            _ => None,
        })
        .collect();
    assert_eq!(
        chunks,
        vec![(0, 0), (-1, -1), (0, -1), (1, -1), (-1, 1), (0, 1), (1, 1), (-1, 0), (1, 0)]
    );
}

#[test]
fn missing_void_biome_is_an_error_from_1_19_on() {
    let mut client_state = client(ProtocolVersion::V1_19);
    let server_state = server_state();
    let mut batch = Batch::new();
    let mut version_data = data(ProtocolVersion::V1_19);
    version_data.void_biome_index = None;
    let result = send_play_packets(&mut batch, &mut client_state, &server_state, version_data);
    assert_eq!(
        result,
        Err(PacketHandlerError::InvalidState("Cannot find void biome index for version 1.19".to_string()))
    );
    assert!(batch.is_empty());
    assert_eq!(client_state.state(), State::Login);
}

#[test]
fn missing_dimension_index_is_an_error_from_1_20_5_on() {
    let mut client_state = client(ProtocolVersion::V1_20_5);
    let server_state = server_state();
    let mut batch = Batch::new();
    let mut version_data = data(ProtocolVersion::V1_20_5);
    version_data.dimension_index = None;
    let result = send_play_packets(&mut batch, &mut client_state, &server_state, version_data);
    assert_eq!(
        result,
        Err(PacketHandlerError::InvalidState("Dimension index was not found for version 1.20.5".to_string()))
    );
    assert!(batch.is_empty());
}

#[test]
fn acknowledge_configuration_answers_with_the_play_packets() {
    let mut client_state = client(ProtocolVersion::V1_21_4);
    let server_state = server_state();
    let batch = AcknowledgeConfigurationPacket::default()
        .handle(&mut client_state, &server_state, data(ProtocolVersion::V1_21_4))
        .unwrap();
    let names = names(batch);
    assert_eq!(names[0], "play/clientbound/minecraft:login");
    assert_eq!(names[names.len() - 1], "play/clientbound/minecraft:level_chunk_with_light");
    assert_eq!(client_state.state(), State::Play);
}

#[test]
fn boss_bar_gets_a_version_4_uuid() {
    let mut client_state = client(ProtocolVersion::V1_21_4);
    let server_state = ServerState::builder()
        .view_distance(0)
        .boss_bar(BossBar::Enabled {
            title: "Limbo".to_string(),
            health_bits: 1.0f32.to_bits(),
            color: BossBarColorConfig::Red,
            division: BossBarDivisionConfig::SixNotches,
        })
        .build()
        .unwrap();
    let mut batch = Batch::new();
    send_play_packets(&mut batch, &mut client_state, &server_state, data(ProtocolVersion::V1_21_4)).unwrap();
    let bars: Vec<PacketRegistry> = batch
        .into_iter()
        .collect_all()
        .into_iter()
        .filter(|p| matches!(p, PacketRegistry::BossBar(_)))
        .collect();
    assert_eq!(bars.len(), 1);
    match &bars[0] {
        PacketRegistry::BossBar(bar) => {
            assert_eq!((bar.uuid >> 76) & 0xf, 4);
            assert_eq!((bar.uuid >> 62) & 0x3, 2);
            assert_eq!(bar.title, "Limbo");
        }
        _ => unreachable!(),
    }
}

#[test]
fn uuid_bits_are_set_for_version_4() {
    assert_eq!(uuid_v4_from_bits(0), (4u128 << 76) | (2u128 << 62));
    let mask: u128 = (0xfu128 << 76) | (0x3u128 << 62);
    assert_eq!(uuid_v4_from_bits(u128::MAX), (u128::MAX & !mask) | (4u128 << 76) | (2u128 << 62));
    let bits: u128 = 0x0123_4567_89ab_cdef_0123_4567_89ab_cdef;
    assert_eq!(uuid_v4_from_bits(bits) & !mask, bits & !mask);
}

use pico_limbo::batch::Batch;
use pico_limbo::client_state::ClientState;
use pico_limbo::error::PacketHandlerError;
use pico_limbo::handlers::handshake::PROXY_REQUIRED_KICK_MESSAGE;
use pico_limbo::handlers::login::{send_configuration_packets, VelocityKeyIntegrity};
use pico_limbo::packets::{CustomQueryAnswerPacket, LoginAcknowledgedPacket, LoginStartPacket, PacketRegistry, RegistryEntry};
use pico_limbo::protocol::{ProtocolVersion, State};
use pico_limbo::registries::{Registries, RegistryGroup, VersionData};
use pico_limbo::server_state::ServerState;

fn server_state() -> ServerState {
    ServerState::builder().build().unwrap()
}

fn modern_server_state() -> ServerState {
    ServerState::builder().enable_modern_forwarding(b"secret".to_vec()).build().unwrap()
}

fn client(protocol: ProtocolVersion) -> ClientState {
    let mut cs = ClientState::default();
    cs.set_protocol_version(protocol);
    cs.set_state(State::Login);
    cs
}

fn packet() -> LoginAcknowledgedPacket {
    LoginAcknowledgedPacket::default()
}

fn group(id: &str, entries: usize) -> RegistryGroup {
    RegistryGroup {
        registry_id: id.to_string(),
        entries: (0..entries)
            .map(|i| RegistryEntry { entry_id: format!("minecraft:entry_{i}"), data: vec![10, 0] })
            .collect(),
    }
}

/// The registries of 1.20.5, four of them.
fn registries_1_20_5() -> Registries {
    Registries::V1_20_5 {
        registries: vec![
            group("minecraft:dimension_type", 4),
            group("minecraft:worldgen/biome", 2),
            group("minecraft:damage_type", 3),
            group("minecraft:painting_variant", 1),
        ],
    }
}

fn registries_1_20_2() -> Registries {
    Registries::V1_20_2 { registry_codec: vec![10, 0, 0] }
}

fn data_before_configuration(protocol: ProtocolVersion) -> VersionData {
    let registries = if protocol.between_inclusive(ProtocolVersion::V1_19, ProtocolVersion::V1_20) {
        Registries::V1_19 { registry_codec: vec![10, 0, 0] }
    } else if protocol.between_inclusive(ProtocolVersion::V1_16_2, ProtocolVersion::V1_18_2) {
        Registries::V1_16_2 { registry_codec: vec![10, 0, 0], dimension: vec![10, 0, 0] }
    } else if protocol.between_inclusive(ProtocolVersion::V1_16, ProtocolVersion::V1_16_1) {
        Registries::V1_16 { registry_codec: vec![10, 0, 0] }
    } else if protocol.is_after_inclusive(ProtocolVersion::V1_20_5) {
        registries_1_20_5()
    } else if protocol.between_inclusive(ProtocolVersion::V1_20_2, ProtocolVersion::V1_20_3) {
        registries_1_20_2()
    } else {
        Registries::NoRegistries
    };
    VersionData { registries, dimension_index: Some(0), void_biome_index: Some(1) }
}

#[test]
fn test_login_ack_supported_protocol() {
    // Given
    let mut client_state = client(ProtocolVersion::V1_20_2);
    let server_state = server_state();
    let pkt = packet();

    // When
    let batch = pkt.handle(&mut client_state, &server_state, registries_1_20_2()).unwrap();
    let mut batch = batch.into_iter();

    // Then
    assert_eq!(client_state.state(), State::Configuration);
    assert!(batch.next().is_some());
}

#[test]
fn test_login_ack_unsupported_protocol() {
    // Given
    let mut client_state = client(ProtocolVersion::V1_20);
    let server_state = server_state();
    let pkt = packet();

    // When
    let result = pkt.handle(&mut client_state, &server_state, Registries::V1_19 { registry_codec: vec![] });

    // Then
    assert!(matches!(result, Err(PacketHandlerError::InvalidState(_))));
}

#[test]
fn test_configuration_packets_v1_20_2() {
    // Given
    let server_state = server_state();
    let mut batch = Batch::new();

    // When
    send_configuration_packets(&mut batch, ProtocolVersion::V1_20_2, &server_state, registries_1_20_2());
    let mut batch = batch.into_iter();

    // Then
    assert!(matches!(batch.next().unwrap(), PacketRegistry::ConfigurationClientBoundPluginMessage(_)));
    assert!(matches!(batch.next().unwrap(), PacketRegistry::RegistryData(_)));
    assert!(matches!(batch.next().unwrap(), PacketRegistry::FinishConfiguration(_)));
    assert!(batch.next().is_none());
}

#[test]
fn test_configuration_packets_v1_20_5() {
    // Given
    let server_state = server_state();
    let mut batch = Batch::new();

    // When
    send_configuration_packets(&mut batch, ProtocolVersion::V1_20_5, &server_state, registries_1_20_5());
    let mut batch = batch.into_iter();

    // Then
    assert!(matches!(batch.next().unwrap(), PacketRegistry::ConfigurationClientBoundPluginMessage(_)));
    assert!(matches!(batch.next().unwrap(), PacketRegistry::ClientBoundKnownPacks(_)));
    for _ in 0..4 {
        assert!(matches!(batch.next().unwrap(), PacketRegistry::RegistryData(_)));
    }
    assert!(matches!(batch.next().unwrap(), PacketRegistry::FinishConfiguration(_)));
    assert!(batch.next().is_none());
}

#[test]
fn configuration_packets_keep_the_registries_in_order() {
    let mut batch = Batch::new();
    send_configuration_packets(&mut batch, ProtocolVersion::V1_21_4, &server_state(), registries_1_20_5());
    let packets = batch.into_iter().collect_all();
    match &packets[1] {
        PacketRegistry::ClientBoundKnownPacks(p) => assert_eq!(p.version, "1.21.4"),
        _ => panic!("expected the known packs"),
    }
    let ids: Vec<String> = packets
        .iter()
        .filter_map(|p| match p {
            PacketRegistry::RegistryData(pico_limbo::packets::RegistryDataPacket::Registry { registry_id, entries }) => {
                Some(format!("{registry_id}:{}", entries.len()))
            },
            _ => None,
        })
        .collect();
    assert_eq!(
        ids,
        vec![
            "minecraft:dimension_type:4".to_string(),
            "minecraft:worldgen/biome:2".to_string(),
            "minecraft:damage_type:3".to_string(),
            "minecraft:painting_variant:1".to_string(),
        ]
    );
}

#[test]
fn login_start_without_forwarding_ends_the_login() {
    let mut client_state = client(ProtocolVersion::V1_21_4);
    let packet = LoginStartPacket { name: "Steve".to_string(), uuid: 42 };
    let batch = packet
        .handle(&mut client_state, &server_state(), data_before_configuration(ProtocolVersion::V1_21_4))
        .unwrap();
    let packets = batch.into_iter().collect_all();
    assert_eq!(packets.len(), 1);
    match &packets[0] {
        PacketRegistry::LoginSuccess(p) => {
            assert_eq!(p.username, "Steve".to_string());
            assert_eq!(p.uuid, 42);
        },
        _ => panic!("expected a login success"),
    }
    assert_eq!(client_state.get_username(), "Steve".to_string());
    assert_eq!(client_state.get_unique_id(), 42);
}

#[test]
fn login_start_before_1_21_2_sends_the_game_profile() {
    let mut client_state = client(ProtocolVersion::V1_21);
    let packet = LoginStartPacket { name: "Alex".to_string(), uuid: 7 };
    let batch = packet
        .handle(&mut client_state, &server_state(), data_before_configuration(ProtocolVersion::V1_21))
        .unwrap();
    let packets = batch.into_iter().collect_all();
    assert_eq!(packets.len(), 1);
    assert!(matches!(packets[0], PacketRegistry::GameProfile(_)));
}

#[test]
fn login_start_up_to_1_20_goes_straight_to_play() {
    let mut client_state = client(ProtocolVersion::V1_20);
    let packet = LoginStartPacket { name: "Alex".to_string(), uuid: 7 };
    let batch = packet
        .handle(&mut client_state, &server_state(), data_before_configuration(ProtocolVersion::V1_20))
        .unwrap();
    let packets = batch.into_iter().collect_all();
    assert!(matches!(packets[0], PacketRegistry::GameProfile(_)));
    assert!(matches!(packets[1], PacketRegistry::Login(_)));
    assert_eq!(client_state.state(), State::Play);
}

#[test]
fn login_start_with_modern_forwarding_queries_the_proxy() {
    let mut client_state = client(ProtocolVersion::V1_21_4);
    let packet = LoginStartPacket { name: "Steve".to_string(), uuid: 42 };
    let batch = packet
        .handle(&mut client_state, &modern_server_state(), data_before_configuration(ProtocolVersion::V1_21_4))
        .unwrap();
    let packets = batch.into_iter().collect_all();
    assert_eq!(packets.len(), 1);
    match &packets[0] {
        PacketRegistry::CustomQuery(q) => {
            assert_eq!(q.channel, "velocity:player_info");
            assert_eq!(q.message_id, client_state.get_velocity_login_message_id());
        },
        _ => panic!("expected a custom query"),
    }
}

#[test]
fn login_start_with_modern_forwarding_kicks_old_clients() {
    let mut client_state = client(ProtocolVersion::V1_12_2);
    let packet = LoginStartPacket { name: "Steve".to_string(), uuid: 42 };
    let batch = packet
        .handle(&mut client_state, &modern_server_state(), data_before_configuration(ProtocolVersion::V1_12_2))
        .unwrap();
    assert!(batch.is_empty());
    assert_eq!(
        client_state.should_kick(),
        Some("Your client does not support modern forwarding.".to_string())
    );
}

#[test]
fn custom_query_answer_with_a_valid_key_ends_the_login() {
    let mut client_state = client(ProtocolVersion::V1_21_4);
    client_state.set_velocity_login_message_id(5);
    let answer = CustomQueryAnswerPacket { message_id: 5, data: vec![] };
    let key = VelocityKeyIntegrity::Valid { player_uuid: 99, player_name: "ForwardedName".to_string() };
    let batch = answer
        .handle(&mut client_state, &modern_server_state(), key, data_before_configuration(ProtocolVersion::V1_21_4))
        .unwrap();
    let packets = batch.into_iter().collect_all();
    assert_eq!(packets.len(), 1);
    assert_eq!(client_state.get_username(), "ForwardedName".to_string());
    assert_eq!(client_state.get_unique_id(), 99);
}

#[test]
fn custom_query_answer_with_an_invalid_key_kicks() {
    let mut client_state = client(ProtocolVersion::V1_21_4);
    client_state.set_velocity_login_message_id(5);
    let answer = CustomQueryAnswerPacket { message_id: 5, data: vec![] };
    let batch = answer
        .handle(&mut client_state, &modern_server_state(), VelocityKeyIntegrity::Invalid, data_before_configuration(ProtocolVersion::V1_21_4))
        .unwrap();
    assert!(batch.is_empty());
    assert_eq!(client_state.should_kick(), Some(PROXY_REQUIRED_KICK_MESSAGE.to_string()));
}

#[test]
fn custom_query_answer_to_another_query_is_ignored() {
    let mut client_state = client(ProtocolVersion::V1_21_4);
    client_state.set_velocity_login_message_id(5);
    let answer = CustomQueryAnswerPacket { message_id: 6, data: vec![] };
    let batch = answer
        .handle(&mut client_state, &modern_server_state(), VelocityKeyIntegrity::Invalid, data_before_configuration(ProtocolVersion::V1_21_4))
        .unwrap();
    assert!(batch.is_empty());
    assert_eq!(client_state.should_kick(), None);
    assert_eq!(client_state.get_username(), "Anonymous".to_string());
}

#[test]
fn forwarded_names_are_cut_to_sixteen_bytes() {
    let mut client_state = client(ProtocolVersion::V1_21_4);
    client_state.set_velocity_login_message_id(5);
    let answer = CustomQueryAnswerPacket { message_id: 5, data: vec![] };
    let key = VelocityKeyIntegrity::Valid { player_uuid: 1, player_name: "ABCDEFGHIJKLMNOPQRSTUVWXYZ".to_string() };
    answer
        .handle(&mut client_state, &modern_server_state(), key, data_before_configuration(ProtocolVersion::V1_21_4))
        .unwrap();
    assert_eq!(client_state.get_username(), "ABCDEFGHIJKLMNOP".to_string());
}

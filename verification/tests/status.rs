use pico_limbo::client_state::ClientState;
use pico_limbo::packets::{HandshakePacket, PacketRegistry, PingRequestPacket, StatusRequestPacket};
use pico_limbo::protocol::ProtocolVersion;
use pico_limbo::server_state::ServerState;

fn client(server_state: &ServerState, protocol_version: i32) -> ClientState {
    let mut client_state = ClientState::default();
    let handshake_packet = HandshakePacket {
        protocol: protocol_version,
        hostname: "localhost".to_string(),
        port: 25565,
        next_state: 1,
    };
    handshake_packet.handle(&mut client_state, server_state).unwrap();
    client_state
}

fn status_protocol(packet: &PacketRegistry) -> Option<i32> {
    match packet {
        PacketRegistry::StatusResponse(status) => Some(status.version_protocol),
        _ => None,
    }
}

#[test]
fn test_ping_request_packet() {
    // Given
    let mut client_state = ClientState::default();
    let server_state = ServerState::default();
    let ping_request_packet = PingRequestPacket::default();

    // When
    ping_request_packet.handle(&mut client_state, &server_state).unwrap();

    // Then
    assert!(matches!(
        client_state.next_packet().unwrap(),
        PacketRegistry::PongResponse(_)
    ));
    assert!(client_state.has_no_more_packets());
}

#[test]
fn pong_carries_the_timestamp() {
    let mut client_state = ClientState::default();
    let batch = PingRequestPacket { timestamp: 123_456 }.handle(&mut client_state, &ServerState::default()).unwrap();
    assert!(batch.is_empty());
    match client_state.next_packet().unwrap() {
        PacketRegistry::PongResponse(pong) => assert_eq!(pong.timestamp, 123_456),
        _ => panic!("expected a pong"),
    }
}

#[test]
fn test_should_respond_with_same_protocol_version_if_valid() {
    // Given
    let expected_protocol = 578;
    let server_state = ServerState::default();
    let mut client_state = client(&server_state, expected_protocol);
    let status_request_packet = StatusRequestPacket::default();

    // When
    let batch = status_request_packet.handle(&mut client_state, &server_state).unwrap();
    let mut batch = batch.into_iter();

    // Then
    let packet = batch.next().unwrap();
    assert_eq!(status_protocol(&packet), Some(expected_protocol));
    assert!(batch.next().is_none());
}

#[test]
fn test_should_respond_with_any_version() {
    // Given
    let expected_protocol = -1;
    let server_state = ServerState::default();
    let mut client_state = client(&server_state, expected_protocol);
    let status_request_packet = StatusRequestPacket::default();

    // When
    let batch = status_request_packet.handle(&mut client_state, &server_state).unwrap();
    let mut batch = batch.into_iter();

    // Then
    let packet = batch.next().unwrap();
    assert_eq!(status_protocol(&packet), Some(expected_protocol));
    assert!(batch.next().is_none());
}

#[test]
fn test_should_respond_with_latest_known_version_if_larger() {
    // Given
    let expected_protocol = i32::MAX;
    let server_state = ServerState::default();
    let mut client_state = client(&server_state, expected_protocol);
    let status_request_packet = StatusRequestPacket::default();

    // When
    let batch = status_request_packet.handle(&mut client_state, &server_state).unwrap();
    let mut batch = batch.into_iter();

    // Then
    let packet = batch.next().unwrap();
    assert_eq!(status_protocol(&packet), Some(ProtocolVersion::latest().version_number()));
    assert!(batch.next().is_none());
}

#[test]
fn test_should_respond_with_oldest_known_version_if_smaller() {
    let test_values = [0, -2, i32::MIN];

    for &expected_protocol in &test_values {
        // Given
        let server_state = ServerState::default();
        let mut client_state = client(&server_state, expected_protocol);
        let status_request_packet = StatusRequestPacket::default();

        // When
        let batch = status_request_packet.handle(&mut client_state, &server_state).unwrap();
        let mut batch = batch.into_iter();

        // Then
        let packet = batch.next().unwrap();
        assert_eq!(status_protocol(&packet), Some(ProtocolVersion::oldest().version_number()));
        assert!(batch.next().is_none());
    }
}

#[test]
fn status_shows_the_version_range_to_a_client_of_any_version() {
    let server_state = ServerState::builder()
        .description_text("A Limbo")
        .max_players(20)
        .build()
        .unwrap();
    let mut client_state = client(&server_state, -1);
    let batch = StatusRequestPacket::default().handle(&mut client_state, &server_state).unwrap();
    match batch.into_iter().next().unwrap() {
        PacketRegistry::StatusResponse(status) => {
            assert_eq!(status.version_name, "1.7.2-1.21.6".to_string());
            assert_eq!(status.description, "A Limbo".to_string());
            assert_eq!(status.max_players, 20);
            assert_eq!(status.online_players, 0);
            assert!(!status.enforces_secure_chat);
        },
        _ => panic!("expected a status response"),
    }
}

#[test]
fn status_counts_connected_players_when_shown() {
    let mut server_state = ServerState::builder().show_online_player_count(true).build().unwrap();
    server_state.increment();
    server_state.increment();
    server_state.decrement();
    let mut client_state = client(&server_state, 769);
    let batch = StatusRequestPacket::default().handle(&mut client_state, &server_state).unwrap();
    match batch.into_iter().next().unwrap() {
        PacketRegistry::StatusResponse(status) => {
            assert_eq!(status.online_players, 1);
            assert_eq!(status.version_name, "1.21.4".to_string());
            assert_eq!(status.version_protocol, 769);
        },
        _ => panic!("expected a status response"),
    }
}

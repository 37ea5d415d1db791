use pico_limbo::client_state::ClientState;
use pico_limbo::error::PacketHandlerError;
use pico_limbo::handlers::handshake::{UnknownStateError, PROXY_REQUIRED_KICK_MESSAGE};
use pico_limbo::packets::HandshakePacket;
use pico_limbo::protocol::{ProtocolVersion, State};
use pico_limbo::server_state::ServerState;

fn server_state() -> ServerState {
    ServerState::builder().build().unwrap()
}

fn bungee_cord() -> ServerState {
    ServerState::builder().enable_legacy_forwarding().build().unwrap()
}

fn bungee_guard(tokens: &[&str]) -> ServerState {
    let tokens = tokens.iter().map(|t| t.to_string()).collect();
    ServerState::builder().enable_bungee_guard_forwarding(tokens).build().unwrap()
}

fn handshake(protocol: i32, hostname: &str, next_state: i32) -> HandshakePacket {
    HandshakePacket {
        protocol,
        hostname: hostname.to_string(),
        next_state,
        port: 25565,
    }
}

#[test]
fn test_handshake_handler_should_update_client_state_to_login() {
    // Given
    let mut client_state = ClientState::default();
    let handshake_packet = HandshakePacket {
        protocol: -1,
        hostname: String::new(),
        next_state: 2,
        port: 25565,
    };

    // When
    handshake_packet.handle(&mut client_state, &server_state()).unwrap();

    // Then
    assert_eq!(client_state.state(), State::Login);
}

#[test]
fn test_handshake_handler_should_update_client_state_to_status() {
    // Given
    let mut client_state = ClientState::default();
    let handshake_packet = HandshakePacket {
        protocol: -1,
        hostname: String::new(),
        next_state: 1,
        port: 25565,
    };

    // When
    handshake_packet.handle(&mut client_state, &server_state()).unwrap();

    // Then
    assert_eq!(client_state.state(), State::Status);
}

#[test]
fn test_handshake_handler_should_kick_when_received_unknown_state() {
    // Given
    let mut client_state = ClientState::default();
    let handshake_packet = HandshakePacket {
        protocol: -1,
        hostname: String::new(),
        next_state: 42,
        port: 25565,
    };

    // When
    let result = handshake_packet.handle(&mut client_state, &server_state());

    // Then
    assert!(matches!(result, Err(PacketHandlerError::InvalidState(_))));
}

#[test]
fn test_handshake_handler_should_update_client_protocol_version() {
    // Given
    let mut client_state = ClientState::default();
    let handshake_packet = HandshakePacket {
        protocol: 578,
        hostname: String::new(),
        next_state: 1,
        port: 25565,
    };

    // When
    handshake_packet.handle(&mut client_state, &server_state()).unwrap();

    // Then
    assert_eq!(client_state.protocol_version(), ProtocolVersion::V1_15_2);
}

#[test]
fn test_handshake_handler_should_change_state_when_bungee_cord_handshake_is_valid() {
    // Given
    let mut client_state = ClientState::default();
    let handshake_packet = HandshakePacket {
        protocol: 578,
        hostname: "part\0part\0part\0part".to_string(),
        next_state: 2,
        port: 25565,
    };

    // When
    handshake_packet.handle(&mut client_state, &bungee_cord()).unwrap();

    // Then
    assert_eq!(client_state.state(), State::Login);
}

#[test]
fn test_handshake_handler_should_kick_when_bungee_cord_handshake_is_invalid() {
    // Given
    let mut client_state = ClientState::default();
    let handshake_packet = HandshakePacket {
        protocol: 578,
        hostname: String::new(),
        next_state: 2,
        port: 25565,
    };

    // When
    let result = handshake_packet.handle(&mut client_state, &bungee_cord());

    // Then
    assert_eq!(
        client_state.should_kick(),
        Some(PROXY_REQUIRED_KICK_MESSAGE.to_string())
    );
    assert!(matches!(result, Err(PacketHandlerError::InvalidState(_))));
}

#[test]
fn unknown_state_error_names_the_state() {
    let packet = handshake(578, "", 42);
    let error = packet.get_next_state().unwrap_err();
    assert_eq!(error, UnknownStateError(42));
    assert_eq!(error.message(), "unknown state 42".to_string());
    assert_eq!(UnknownStateError(-7).message(), "unknown state -7".to_string());
}

#[test]
fn transfer_is_a_known_next_state() {
    assert_eq!(handshake(578, "", 3).get_next_state(), Ok(State::Transfer));
}

#[test]
fn protocol_numbers_map_to_the_latest_version_not_above_them() {
    assert_eq!(handshake(-1, "", 1).get_protocol(), ProtocolVersion::Any);
    assert_eq!(handshake(766, "", 1).get_protocol(), ProtocolVersion::V1_20_5);
    assert_eq!(handshake(767, "", 1).get_protocol(), ProtocolVersion::V1_21);
    assert_eq!(handshake(10_000, "", 1).get_protocol(), ProtocolVersion::V1_21_6);
    assert_eq!(handshake(0, "", 1).get_protocol(), ProtocolVersion::V1_7_2);
    assert_eq!(handshake(-2, "", 1).get_protocol(), ProtocolVersion::V1_7_2);
}

#[test]
fn status_is_not_checked_against_forwarding() {
    let mut client_state = ClientState::default();
    let result = handshake(578, "", 1).handle(&mut client_state, &bungee_cord());
    assert!(result.is_ok());
    assert_eq!(client_state.should_kick(), None);
}

#[test]
fn bungee_guard_accepts_a_known_token() {
    let hostname = "host\0127.0.0.1\0uuid\0[{\"name\":\"bungeeguard-token\",\"value\":\"secret\"}]";
    let mut client_state = ClientState::default();
    let result = handshake(578, hostname, 2).handle(&mut client_state, &bungee_guard(&["secret"]));
    assert!(result.is_ok());
    assert_eq!(client_state.state(), State::Login);
}

#[test]
fn bungee_guard_kicks_an_unknown_token() {
    let hostname = "host\0127.0.0.1\0uuid\0[{\"name\":\"bungeeguard-token\",\"value\":\"other\"}]";
    let mut client_state = ClientState::default();
    let result = handshake(578, hostname, 2).handle(&mut client_state, &bungee_guard(&["secret"]));
    assert!(matches!(result, Err(PacketHandlerError::InvalidState(_))));
    assert_eq!(client_state.should_kick(), Some(PROXY_REQUIRED_KICK_MESSAGE.to_string()));
}

#[test]
fn bungee_guard_reports_invalid_json() {
    let hostname = "host\0127.0.0.1\0uuid\0not json";
    let mut client_state = ClientState::default();
    let result = handshake(578, hostname, 2).handle(&mut client_state, &bungee_guard(&["secret"]));
    assert_eq!(result.err(), Some(PacketHandlerError::Custom("invalid json".to_string())));
    assert_eq!(client_state.state(), State::Login);
    assert_eq!(client_state.should_kick(), None);
}

use pico_limbo::client_state::ClientState;
use pico_limbo::coordinate::{Coordinate, Position};
use pico_limbo::handlers::play::teleport_player_to_spawn;
use pico_limbo::packets::{PacketRegistry, SetPlayerPositionAndRotationPacket, SetPlayerPositionPacket};
use pico_limbo::protocol::{ProtocolVersion, State};
use pico_limbo::server_state::ServerState;

fn coordinate(value: f64) -> Coordinate {
    let floor = if value.is_nan() { None } else { Some(value.floor() as i64) };
    Coordinate { bits: value.to_bits(), floor }
}

fn position(x: f64, y: f64, z: f64) -> Position {
    Position { x: coordinate(x), y: coordinate(y), z: coordinate(z) }
}

fn server_state_with_min_y(min_y: i32, message: Option<String>) -> ServerState {
    let builder = ServerState::builder().spawn_position(position(0.0, 100.0, 0.0));
    let builder = if let Some(content) = message {
        builder.boundaries(min_y, &content)
    } else {
        builder.boundaries(min_y, "")
    };
    builder.build().unwrap()
}

fn client_state() -> ClientState {
    let mut cs = ClientState::default();
    cs.set_protocol_version(ProtocolVersion::V1_20_5);
    cs.set_state(State::Play);
    cs
}

fn create_packet(feet_y: f64) -> SetPlayerPositionPacket {
    SetPlayerPositionPacket {
        x: coordinate(10.0),
        feet_y: coordinate(feet_y),
        z: coordinate(20.0),
        on_ground: true,
    }
}

#[test]
fn test_player_above_min_y_pos_no_packets_sent() {
    // Given
    let mut client_state = client_state();
    let server_state = server_state_with_min_y(50, None);
    let packet = create_packet(60.0);

    // When
    packet.handle(&mut client_state, &server_state).unwrap();

    // Then
    assert!(client_state.has_no_more_packets());
}

#[test]
fn test_player_below_min_y_pos_teleport_packet_sent() {
    // Given
    let mut client_state = client_state();
    let server_state = server_state_with_min_y(50, None);
    let packet = create_packet(40.0);

    // When
    packet.handle(&mut client_state, &server_state).unwrap();

    // Then
    assert!(matches!(
        client_state.next_packet().unwrap(),
        PacketRegistry::SynchronizePlayerPosition(_)
    ));
    assert!(client_state.has_no_more_packets());
}

#[test]
fn test_player_below_min_y_pos_with_message_two_packets_sent() {
    // Given
    let mut client_state = client_state();
    let server_state = server_state_with_min_y(50, Some("You are too low!".to_string()));
    let packet = create_packet(40.0);

    // When
    packet.handle(&mut client_state, &server_state).unwrap();

    // Then
    assert!(matches!(
        client_state.next_packet().unwrap(),
        PacketRegistry::SynchronizePlayerPosition(_)
    ));
    let second_packet = client_state.next_packet().unwrap();
    assert!(matches!(
        second_packet,
        PacketRegistry::SystemChatMessage(_) | PacketRegistry::LegacyChatMessage(_)
    ));
    assert!(client_state.has_no_more_packets());
}

#[test]
fn test_player_exactly_at_min_y_pos_no_packets_sent() {
    // Given
    let mut client_state = client_state();
    let server_state = server_state_with_min_y(50, None);
    let packet = create_packet(50.0); // Exactly at min_y_pos (50)

    // When
    packet.handle(&mut client_state, &server_state).unwrap();

    // Then
    assert!(client_state.has_no_more_packets());
}

#[test]
fn test_player_slightly_below_min_y_pos() {
    // Given
    let mut client_state = client_state();
    let server_state = server_state_with_min_y(50, None);
    let packet = create_packet(49.9);

    // When
    packet.handle(&mut client_state, &server_state).unwrap();

    // Then
    assert!(matches!(
        client_state.next_packet().unwrap(),
        PacketRegistry::SynchronizePlayerPosition(_)
    ));
    assert!(client_state.has_no_more_packets());
}

#[test]
fn test_negative_min_y_pos() {
    // Given
    let mut client_state = client_state();
    let server_state = server_state_with_min_y(-64, None);
    let packet = create_packet(-70.0);

    // When
    packet.handle(&mut client_state, &server_state).unwrap();

    // Then
    assert!(matches!(
        client_state.next_packet().unwrap(),
        PacketRegistry::SynchronizePlayerPosition(_)
    ));
    assert!(client_state.has_no_more_packets());
}

#[test]
fn test_should_teleport_and_message_player() {
    // Given
    let client_state = client_state();
    let server_state = server_state_with_min_y(0, Some("Direct teleport test".to_string()));

    // When
    let batch = teleport_player_to_spawn(&client_state, &server_state, coordinate(-1.0));
    let mut batch = batch.into_iter();

    // Then
    assert!(matches!(batch.next().unwrap(), PacketRegistry::SynchronizePlayerPosition(_)));
    assert!(matches!(
        batch.next().unwrap(),
        PacketRegistry::SystemChatMessage(_) | PacketRegistry::LegacyChatMessage(_)
    ));
    assert!(batch.next().is_none());
}

#[test]
fn test_should_teleport_player() {
    // Given
    let client_state = client_state();
    let server_state = server_state_with_min_y(0, None);

    // When
    let batch = teleport_player_to_spawn(&client_state, &server_state, coordinate(-1.0));
    let mut batch = batch.into_iter();

    // Then
    assert!(matches!(batch.next().unwrap(), PacketRegistry::SynchronizePlayerPosition(_)));
    assert!(batch.next().is_none());
}

#[test]
fn test_should_do_nothing() {
    // Given
    let client_state = client_state();
    let server_state = server_state_with_min_y(0, None);

    // When
    let batch = teleport_player_to_spawn(&client_state, &server_state, coordinate(10.0));
    let mut batch = batch.into_iter();

    // Then
    assert!(batch.next().is_none());
}

#[test]
fn nan_height_is_never_below_the_boundary() {
    let client_state = client_state();
    let server_state = server_state_with_min_y(0, None);
    let batch = teleport_player_to_spawn(&client_state, &server_state, coordinate(f64::NAN));
    assert!(batch.is_empty());
}

#[test]
fn position_and_rotation_is_handled_the_same_way() {
    let mut client_state = client_state();
    let server_state = server_state_with_min_y(50, None);
    let packet = SetPlayerPositionAndRotationPacket {
        x: coordinate(0.0),
        feet_y: coordinate(-3.5),
        z: coordinate(0.0),
        yaw_bits: 0,
        pitch_bits: 0,
        on_ground: false,
    };
    let batch = packet.handle(&mut client_state, &server_state).unwrap();
    assert_eq!(batch.len(), 1);
}

#[test]
fn without_boundaries_nobody_is_teleported() {
    let client_state = client_state();
    let server_state = ServerState::builder().build().unwrap();
    let batch = teleport_player_to_spawn(&client_state, &server_state, coordinate(-1000.0));
    assert!(batch.is_empty());
}

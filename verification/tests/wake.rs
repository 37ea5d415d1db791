use pico_limbo::packet_mapping::{PacketMap, PacketMapping};
use pico_limbo::packets::HandshakePacket;
use pico_limbo::protocol::{ProtocolVersion, State};
use pico_limbo::wake::{
    line_marks_done, login_wait_message, should_schedule_stop, should_start_server, split_command, status_version,
    wake_step, MissingStartupCommand, ServerStatus, WakeAction, WakeClient, WakeEvent, WakePacket, WakeSettings,
};

#[test]
fn status_follows_the_process_and_its_output() {
    assert_eq!(ServerStatus::of(false, false), ServerStatus::Offline);
    assert_eq!(ServerStatus::of(false, true), ServerStatus::Offline);
    assert_eq!(ServerStatus::of(true, false), ServerStatus::Starting);
    assert_eq!(ServerStatus::of(true, true), ServerStatus::Online);
}

#[test]
fn done_line_is_recognised() {
    assert!(line_marks_done("[12:00:00 INFO]: Done (3.2s)! For help, type \"help\""));
    assert!(!line_marks_done("[12:00:00 INFO]: Preparing spawn area: 40%"));
    assert!(!line_marks_done(""));
    assert!(line_marks_done("Done"));
    assert!(line_marks_done("[12:00:00 INFO]: Done preparing level"));
    assert!(!line_marks_done("done"));
}

#[test]
fn server_list_version_tells_the_status() {
    assert_eq!(status_version(ServerStatus::Offline), ("§5Sleeping", 0));
    assert_eq!(status_version(ServerStatus::Starting), ("§6Starting…", 0));
    assert_eq!(status_version(ServerStatus::Online), ("§4Error", 0));
}

#[test]
fn login_message_greets_the_player() {
    assert_eq!(
        login_wait_message("Steve"),
        "Hello Steve! This server was automatically started and will be online soon.".to_string()
    );
}

#[test]
fn only_a_login_to_an_unavailable_backend_starts_it() {
    assert!(should_start_server(State::Login, false));
    assert!(!should_start_server(State::Login, true));
    assert!(!should_start_server(State::Status, false));
}

#[test]
fn backend_stops_once_nobody_is_left() {
    assert!(should_schedule_stop(0, ServerStatus::Online));
    assert!(should_schedule_stop(0, ServerStatus::Starting));
    assert!(!should_schedule_stop(0, ServerStatus::Offline));
    assert!(!should_schedule_stop(2, ServerStatus::Online));
}

#[test]
fn start_command_is_split_into_program_and_arguments() {
    let (program, args) = split_command("  java -Xmx2G\t-jar  server.jar nogui ").unwrap();
    assert_eq!(program, "java".to_string());
    assert_eq!(args, vec!["-Xmx2G".to_string(), "-jar".to_string(), "server.jar".to_string(), "nogui".to_string()]);
    assert_eq!(split_command("   \n "), None);
    assert_eq!(split_command("run"), Some(("run".to_string(), vec![])));
}

#[test]
fn settings_have_defaults_but_need_a_start_command() {
    let settings = WakeSettings::from_values(None, Some("java -jar server.jar".to_string()), None).unwrap();
    assert_eq!(settings.data_dir, "./data/generated".to_string());
    assert_eq!(settings.sleep_delay_secs, 3600);
    let settings = WakeSettings::from_values(Some("/data".to_string()), Some("run".to_string()), Some("60".to_string())).unwrap();
    assert_eq!(settings.data_dir, "/data".to_string());
    assert_eq!(settings.sleep_delay_secs, 60);
    let settings = WakeSettings::from_values(None, Some("run".to_string()), Some("soon".to_string())).unwrap();
    assert_eq!(settings.sleep_delay_secs, 3600);
    assert_eq!(WakeSettings::from_values(None, None, None), Err(MissingStartupCommand));
}

#[test]
fn wake_packets_are_recognised_by_name() {
    assert_eq!(WakePacket::from_name("handshake/serverbound/minecraft:intention"), WakePacket::Handshake);
    assert_eq!(WakePacket::from_name("login/serverbound/minecraft:hello"), WakePacket::LoginStart);
    assert_eq!(WakePacket::from_name("status/serverbound/minecraft:status_request"), WakePacket::StatusRequest);
    assert_eq!(WakePacket::from_name("status/serverbound/minecraft:ping_request"), WakePacket::PingRequest);
    assert_eq!(WakePacket::from_name("play/serverbound/minecraft:chat"), WakePacket::Other);
}

#[test]
fn wake_client_tracks_its_connection() {
    let mut client = WakeClient::new();
    assert_eq!(client.protocol_version(), ProtocolVersion::Any);
    client.set_protocol(ProtocolVersion::V1_21_4);
    client.update_state(State::Status);
    assert_eq!(client.protocol_version(), ProtocolVersion::V1_21_4);
    assert!(!client.is_backend_server_available());
    let handshake = HandshakePacket { protocol: 769, hostname: "localhost".to_string(), port: 25565, next_state: 2 };
    client.set_backend_server_available(handshake.clone());
    assert!(client.is_backend_server_available());
    assert_eq!(client.get_handshake_packet_replay(), &Some(handshake));
}

#[test]
fn wake_client_names_packets_from_the_report_of_its_version() {
    let mut packet_map = PacketMap::new("data".to_string());
    let mapping = PacketMapping::from_json_str(
        r#"{"status":{"serverbound":{"minecraft:status_request":{"protocol_id":0}}}}"#,
    )
    .unwrap();
    packet_map.insert_mapping(ProtocolVersion::V1_21_4, mapping);
    let mut client = WakeClient::new();
    client.set_protocol(ProtocolVersion::V1_21_4);
    client.update_state(State::Status);
    assert_eq!(
        client.get_packet_name_from_id(&packet_map, 0),
        Some("status/serverbound/minecraft:status_request".to_string())
    );
    assert_eq!(client.get_packet_name_from_id(&packet_map, 1), None);
    client.set_protocol(ProtocolVersion::V1_20_5);
    assert_eq!(client.get_packet_name_from_id(&packet_map, 0), None);
}

fn handshake(protocol: i32, next_state: i32) -> HandshakePacket {
    HandshakePacket { protocol, hostname: "localhost".to_string(), port: 25565, next_state }
}

#[test]
fn login_handshake_wakes_a_sleeping_backend() {
    let mut client = WakeClient::new();
    let action = wake_step(&mut client, WakeEvent::Handshake { packet: handshake(767, 2), backend_reachable: false });
    assert_eq!(action, WakeAction::StartBackend);
    assert_eq!(client.state, State::Login);
    assert_eq!(client.version, Some(ProtocolVersion::V1_21));
    assert!(!client.is_backend_server_available());
    assert_eq!(client.get_handshake_packet_replay(), &None);
}

#[test]
fn status_handshake_does_not_wake_the_backend() {
    let mut client = WakeClient::new();
    let action = wake_step(&mut client, WakeEvent::Handshake { packet: handshake(767, 1), backend_reachable: false });
    assert_eq!(action, WakeAction::Nothing);
    assert_eq!(client.state, State::Status);
}

#[test]
fn reachable_backend_keeps_the_handshake_for_replay() {
    let mut client = WakeClient::new();
    let packet = handshake(770, 2);
    let action = wake_step(&mut client, WakeEvent::Handshake { packet: packet.clone(), backend_reachable: true });
    assert_eq!(action, WakeAction::Nothing);
    assert!(client.is_backend_server_available());
    assert_eq!(client.get_handshake_packet_replay(), &Some(packet));
    assert_eq!(client.version, Some(ProtocolVersion::V1_21_5));
}

#[test]
fn unknown_next_state_keeps_the_state() {
    let mut client = WakeClient::new();
    let action = wake_step(&mut client, WakeEvent::Handshake { packet: handshake(5, 7), backend_reachable: false });
    assert_eq!(action, WakeAction::Nothing);
    assert_eq!(client.state, State::Handshake);
    assert_eq!(client.version, Some(ProtocolVersion::V1_7_6));
}

#[test]
fn login_start_is_answered_with_a_disconnect() {
    let mut client = WakeClient::new();
    let action = wake_step(&mut client, WakeEvent::LoginStart { name: "Steve".to_string() });
    assert_eq!(
        action,
        WakeAction::Disconnect {
            message: "Hello Steve! This server was automatically started and will be online soon.".to_string()
        }
    );
}

#[test]
fn status_request_shows_the_backend_status() {
    let mut client = WakeClient::new();
    let action = wake_step(&mut client, WakeEvent::StatusRequest { status: ServerStatus::Starting });
    assert_eq!(
        action,
        WakeAction::Status { version_name: "§6Starting…", version_protocol: 0, description: "A Minecraft Server" }
    );
    let action = wake_step(&mut client, WakeEvent::StatusRequest { status: ServerStatus::Offline });
    assert_eq!(
        action,
        WakeAction::Status { version_name: "§5Sleeping", version_protocol: 0, description: "A Minecraft Server" }
    );
}

#[test]
fn ping_is_answered_with_its_timestamp() {
    let mut client = WakeClient::new();
    assert_eq!(wake_step(&mut client, WakeEvent::PingRequest { timestamp: 42 }), WakeAction::Pong { timestamp: 42 });
    assert_eq!(wake_step(&mut client, WakeEvent::Other), WakeAction::Nothing);
}

use pico_limbo::packet_mapping::{PacketMap, PacketMapError, PacketMapping, PacketMappingError};
use pico_limbo::protocol::{ProtocolVersion, State};

/// An excerpt of the packet report of 1.21.4.
const PACKETS_1_21_4: &str = r#"
{
  "configuration": {
    "clientbound": {
      "minecraft:custom_payload": { "protocol_id": 1 },
      "minecraft:finish_configuration": { "protocol_id": 3 }
    },
    "serverbound": {
      "minecraft:finish_configuration": { "protocol_id": 3 }
    }
  },
  "handshake": {
    "serverbound": {
      "minecraft:intention": { "protocol_id": 0 }
    }
  },
  "login": {
    "clientbound": {
      "minecraft:login_finished": { "protocol_id": 2 }
    },
    "serverbound": {
      "minecraft:hello": { "protocol_id": 0 },
      "minecraft:login_acknowledged": { "protocol_id": 3 }
    }
  },
  "status": {
    "clientbound": {
      "minecraft:status_response": { "protocol_id": 0 },
      "minecraft:pong_response": { "protocol_id": 1 }
    },
    "serverbound": {
      "minecraft:status_request": { "protocol_id": 0 },
      "minecraft:ping_request": { "protocol_id": 1 }
    }
  }
}
"#;

fn build_packet_map() -> PacketMap {
    let mut packet_map = PacketMap::new("data/generated".to_string());
    let mapping = PacketMapping::from_json_str(PACKETS_1_21_4).unwrap();
    packet_map.insert_mapping(ProtocolVersion::V1_21_4, mapping);
    packet_map
}

#[test]
fn get_packet_id() {
    // Given
    let packet_map = build_packet_map();
    let protocol_version = ProtocolVersion::V1_21_4;
    let packet_name = "handshake/serverbound/minecraft:intention";

    // When
    let packet_id = packet_map.get_packet_id(protocol_version, packet_name);

    // Then
    assert_eq!(packet_id.unwrap().unwrap(), 0);
}

#[test]
fn get_unknown_packet_id() {
    // Given
    let packet_map = build_packet_map();
    let protocol_version = ProtocolVersion::V1_21_4;
    let packet_name = "handshake/serverbound/minecraft:foo";

    // When
    let packet_id = packet_map.get_packet_id(protocol_version, packet_name);

    // Then
    assert!(packet_id.unwrap().is_none());
}

#[test]
fn get_packet_name() {
    // Given
    let packet_map = build_packet_map();
    let protocol_version = ProtocolVersion::V1_21_4;
    let status = State::Handshake;
    let packet_id = 0;

    // When
    let packet_name = packet_map.get_packet_name(protocol_version, status, packet_id);

    // Then
    assert_eq!(
        packet_name.unwrap().unwrap(),
        "handshake/serverbound/minecraft:intention".to_string()
    );
}

#[test]
fn test_packet_mapping_from_json() {
    let json_str = r#"
        {
          "handshake": {
            "serverbound": {
              "minecraft:intention": {
                "protocol_id": 0
              }
            }
          },
          "login": {
            "clientbound": {
              "minecraft:game_profile": {
                "protocol_id": 2
              }
            },
            "serverbound": {
              "minecraft:hello": {
                "protocol_id": 0
              }
            }
          }
        }
        "#;

    let mapping = PacketMapping::from_json_str(json_str).unwrap();

    // Check one of the keys.
    let key = "handshake/serverbound/minecraft:intention";
    assert_eq!(mapping.get_id(key), Some(0));

    let key2 = "login/serverbound/minecraft:hello";
    assert_eq!(mapping.get_id(key2), Some(0));

    let key3 = "login/clientbound/minecraft:game_profile";
    assert_eq!(mapping.get_id(key3), Some(2));

    let key4 = "handshake/serverbound/minecraft:intention";
    assert_eq!(
        mapping.get_name(0, "handshake/serverbound"),
        Some(key4.to_string())
    );
}

#[test]
fn unloaded_version_is_reported() {
    let packet_map = build_packet_map();
    assert_eq!(
        packet_map.get_packet_id(ProtocolVersion::V1_20_5, "handshake/serverbound/minecraft:intention"),
        Err(PacketMapError::ReportNotLoaded)
    );
    assert!(packet_map.is_loaded(ProtocolVersion::V1_21_4));
    assert!(!packet_map.is_loaded(ProtocolVersion::V1_20_5));
}

#[test]
fn packet_name_is_looked_up_in_the_serverbound_packets_of_the_state() {
    let packet_map = build_packet_map();
    let name = packet_map.get_packet_name(ProtocolVersion::V1_21_4, State::Status, 1);
    assert_eq!(name.unwrap(), Some("status/serverbound/minecraft:ping_request".to_string()));
    let name = packet_map.get_packet_name(ProtocolVersion::V1_21_4, State::Login, 3);
    assert_eq!(name.unwrap(), Some("login/serverbound/minecraft:login_acknowledged".to_string()));
    let name = packet_map.get_packet_name(ProtocolVersion::V1_21_4, State::Handshake, 7);
    assert_eq!(name.unwrap(), None);
}

#[test]
fn report_path_names_the_version_directory() {
    let packet_map = build_packet_map();
    assert_eq!(
        packet_map.report_path(ProtocolVersion::V1_21_4),
        "data/generated/V1_21_4/reports/packets.json".to_string()
    );
}

#[test]
fn first_loaded_report_stays() {
    let mut packet_map = build_packet_map();
    let other = PacketMapping::from_json_str(r#"{"handshake":{"serverbound":{"minecraft:intention":{"protocol_id":5}}}}"#).unwrap();
    packet_map.insert_mapping(ProtocolVersion::V1_21_4, other);
    assert_eq!(
        packet_map.get_packet_id(ProtocolVersion::V1_21_4, "handshake/serverbound/minecraft:intention"),
        Ok(Some(0))
    );
}

#[test]
fn malformed_reports_are_refused() {
    assert_eq!(PacketMapping::from_json_str("{").err(), Some(PacketMappingError::InvalidJson));
    assert_eq!(PacketMapping::from_json_str("[]").err(), Some(PacketMappingError::TopLevelNotObject));
    assert_eq!(PacketMapping::from_json_str(r#"{"handshake": 1}"#).err(), Some(PacketMappingError::StateNotObject));
    assert_eq!(
        PacketMapping::from_json_str(r#"{"handshake": {"serverbound": []}}"#).err(),
        Some(PacketMappingError::DirectionNotObject)
    );
    assert_eq!(
        PacketMapping::from_json_str(r#"{"handshake": {"serverbound": {"minecraft:intention": 0}}}"#).err(),
        Some(PacketMappingError::PacketNotObject)
    );
    assert_eq!(
        PacketMapping::from_json_str(r#"{"handshake": {"serverbound": {"minecraft:intention": {"protocol_id": -1}}}}"#).err(),
        Some(PacketMappingError::ProtocolIdNotU64)
    );
    let without_id = PacketMapping::from_json_str(r#"{"handshake": {"serverbound": {"minecraft:intention": {}}}}"#).unwrap();
    assert_eq!(without_id.get_id("handshake/serverbound/minecraft:intention"), None);
    assert_eq!(
        PacketMapping::from_json_str(r#"{"handshake": {"serverbound": {"minecraft:intention": {"protocol_id": 256}}}}"#).err(),
        Some(PacketMappingError::ProtocolIdOutOfRange)
    );
    assert_eq!(PacketMappingError::ProtocolIdOutOfRange.message(), "protocol_id is out of u8 range");
}

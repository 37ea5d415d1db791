use pico_limbo::forwarding::{check_bungee_cord, check_bungee_guard_document, read_token, BungeeGuardError};
use pico_limbo::json::{parse_json, JsonValue};
use pico_limbo::server_state::ServerState;

fn property(name: &str, value: &str) -> JsonValue {
    JsonValue::Object(
        vec!["name".to_string(), "value".to_string()],
        vec![JsonValue::Str(name.to_string()), JsonValue::Str(value.to_string())],
    )
}

fn bungee_guard(tokens: &[&str]) -> ServerState {
    ServerState::builder()
        .enable_bungee_guard_forwarding(tokens.iter().map(|t| t.to_string()).collect())
        .build()
        .unwrap()
}

#[test]
fn first_token_property_is_the_one_read() {
    let doc = JsonValue::Array(vec![
        property("textures", "skin"),
        property("bungeeguard-token", "first"),
        property("bungeeguard-token", "second"),
    ]);
    assert_eq!(read_token(&doc), Some(Some("first".to_string())));
    assert_eq!(read_token(&JsonValue::Array(vec![property("textures", "skin")])), Some(None));
    assert_eq!(read_token(&JsonValue::Null), None);
    assert_eq!(read_token(&JsonValue::Array(vec![JsonValue::Bool(true)])), None);
}

#[test]
fn properties_may_be_pairs_of_strings() {
    let doc = JsonValue::Array(vec![JsonValue::Array(vec![
        JsonValue::Str("bungeeguard-token".to_string()),
        JsonValue::Str("pair".to_string()),
    ])]);
    assert_eq!(read_token(&doc), Some(Some("pair".to_string())));
}

#[test]
fn token_document_is_checked_against_the_server_tokens() {
    let state = bungee_guard(&["first"]);
    let doc = JsonValue::Array(vec![property("bungeeguard-token", "first")]);
    assert_eq!(check_bungee_guard_document(&state, Some(doc)), Ok(true));
    let doc = JsonValue::Array(vec![property("bungeeguard-token", "other")]);
    assert_eq!(check_bungee_guard_document(&state, Some(doc)), Ok(false));
    assert_eq!(check_bungee_guard_document(&state, None), Err(BungeeGuardError::InvalidJson));
    let legacy = ServerState::builder().enable_legacy_forwarding().build().unwrap();
    let doc = JsonValue::Array(vec![property("bungeeguard-token", "first")]);
    assert_eq!(check_bungee_guard_document(&legacy, Some(doc)), Err(BungeeGuardError::MissingTokens));
}

#[test]
fn parsed_json_reaches_the_library_form() {
    let doc = parse_json(r#"[{"name":"bungeeguard-token","value":"abc"}]"#).unwrap();
    assert_eq!(read_token(&doc), Some(Some("abc".to_string())));
    assert!(parse_json("{").is_none());
}

#[test]
fn forwarding_modes_check_hostnames() {
    let none = ServerState::builder().build().unwrap();
    assert_eq!(check_bungee_cord(&none, "anything"), Ok(true));
    let legacy = ServerState::builder().enable_legacy_forwarding().build().unwrap();
    assert_eq!(check_bungee_cord(&legacy, "host\0ip\0uuid"), Ok(true));
    assert_eq!(check_bungee_cord(&legacy, "host"), Ok(false));
    let guard = bungee_guard(&["t"]);
    assert_eq!(check_bungee_cord(&guard, "host\0ip\0uuid"), Ok(false));
    assert_eq!(BungeeGuardError::InvalidJson.message(), "invalid json");
    assert_eq!(BungeeGuardError::MissingTokens.message(), "misconfigured forwarding");
}

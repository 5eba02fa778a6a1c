use launcher_core::manifest::{extract_version, parse_manifest};

#[test]
fn typical_body_parses() {
    let body = "{\"currentGameVersion\": \"1.2.3\", \"players\": 120}";
    assert_eq!(extract_version(body), Some(String::from("1.2.3")));
}

#[test]
fn whitespace_around_colon_is_accepted() {
    let body = "{\"currentGameVersion\"  :\n\t \"2.0-rc1\"}";
    assert_eq!(extract_version(body), Some(String::from("2.0-rc1")));
}

#[test]
fn compact_body_parses() {
    let body = "{\"currentGameVersion\":\"7\"}";
    assert_eq!(extract_version(body), Some(String::from("7")));
}

#[test]
fn empty_version_is_accepted() {
    let body = "{\"currentGameVersion\": \"\"}";
    assert_eq!(extract_version(body), Some(String::new()));
}

#[test]
fn missing_key_is_malformed() {
    assert_eq!(extract_version("{\"version\": \"1.2.3\"}"), None);
    assert_eq!(extract_version(""), None);
    assert_eq!(extract_version("currentGameVersion: \"1\""), None);
}

#[test]
fn missing_colon_is_malformed() {
    assert_eq!(extract_version("{\"currentGameVersion\" \"1.2.3\"}"), None);
}

#[test]
fn unquoted_value_is_malformed() {
    assert_eq!(extract_version("{\"currentGameVersion\": 3}"), None);
}

#[test]
fn unterminated_value_is_malformed() {
    assert_eq!(extract_version("{\"currentGameVersion\": \"1.2"), None);
}

#[test]
fn truncated_after_key_is_malformed() {
    assert_eq!(extract_version("{\"currentGameVersion\""), None);
    assert_eq!(extract_version("{\"currentGameVersion\":"), None);
    assert_eq!(extract_version("{\"currentGameVersion\": "), None);
}

#[test]
fn first_occurrence_wins() {
    let body = "{\"currentGameVersion\": \"a\", \"currentGameVersion\": \"b\"}";
    assert_eq!(extract_version(body), Some(String::from("a")));
}

#[test]
fn extra_fields_are_ignored() {
    let body = "{\"motd\": \"hi\", \"currentGameVersion\": \"4.5\", \"down\": false}";
    assert_eq!(extract_version(body), Some(String::from("4.5")));
}

#[test]
fn parse_manifest_records_transport() {
    let body = "{\"currentGameVersion\": \"1.0\"}";
    let secure = parse_manifest(body, true).unwrap();
    assert_eq!(secure.current_game_version, "1.0");
    assert!(secure.transport_secure);

    let degraded = parse_manifest(body, false).unwrap();
    assert_eq!(degraded.current_game_version, "1.0");
    assert!(!degraded.transport_secure);

    assert!(parse_manifest("{}", true).is_none());
}

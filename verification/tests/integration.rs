use samsung_tv_rs::{Key, RemoteCommand, SamsungTvConfig};

#[test]
fn test_config_builder() {
    let config = SamsungTvConfig::new("192.168.1.100")
        .secure()
        .name("Test")
        .token("abc123")
        .build();

    assert_eq!(config.host, "192.168.1.100");
    assert_eq!(config.port, 8002);
    assert!(config.use_tls);
    assert_eq!(config.token, Some("abc123".to_string()));
}

#[test]
fn test_key_codes() {
    assert_eq!(Key::Power.as_str(), "KEY_POWER");
    assert_eq!(Key::VolumeUp.as_str(), "KEY_VOLUP");
    assert_eq!(Key::Home.as_str(), "KEY_HOME");
    assert_eq!(Key::Enter.as_str(), "KEY_ENTER");
}

#[test]
fn test_remote_command_serialization() {
    let cmd = RemoteCommand::click(Key::VolumeUp);
    let payload = cmd.to_payload();
    let json = payload.to_json();

    assert!(json.contains("ms.remote.control"));
    assert!(json.contains("KEY_VOLUP"));
    assert!(json.contains("Click"));
}

use samsung_tv_rs::SamsungTvConfig;
use std::path::PathBuf;
use std::time::Duration;

#[test]
fn test_default_config() {
    let config = SamsungTvConfig::new("192.168.1.100");
    assert_eq!(config.host, "192.168.1.100");
    assert_eq!(config.port, 8001);
    assert!(!config.use_tls);
    assert_eq!(config.scheme(), "ws");
}

#[test]
fn test_secure_config() {
    let config = SamsungTvConfig::new("192.168.1.100").secure();
    assert_eq!(config.port, 8002);
    assert!(config.use_tls);
    assert_eq!(config.scheme(), "wss");
}

#[test]
fn test_builder_chain() {
    let config = SamsungTvConfig::new("tv.local")
        .secure()
        .name("My Remote")
        .token("abc123")
        .timeout(Duration::from_secs(10))
        .build();

    assert_eq!(config.host, "tv.local");
    assert_eq!(config.name, "My Remote");
    assert_eq!(config.token, Some("abc123".to_string()));
    assert_eq!(config.timeout, Duration::from_secs(10));
}

#[test]
fn test_config_defaults() {
    let config = SamsungTvConfig::new("192.168.1.100").build();
    assert_eq!(config.host, "192.168.1.100");
    assert_eq!(config.port, 8001);
    assert!(!config.use_tls);
}

#[test]
fn fresh_config_defaults() {
    let config = SamsungTvConfig::default();
    assert_eq!(config.host, "192.168.1.1");
    assert_eq!(config.name, "Samsung TV RS");
    assert_eq!(config.timeout, Duration::from_secs(5));
    assert_eq!(config.key_delay, Duration::from_millis(300));
    assert!(config.auto_reconnect);
    assert!(config.token.is_none());
    assert!(config.token_file.is_none());
}

#[test]
fn setters_change_one_field() {
    let config = SamsungTvConfig::new("h")
        .port(9000)
        .key_delay(Duration::from_millis(10))
        .auto_reconnect(false)
        .token_file(PathBuf::from("/tmp/t"));
    assert_eq!(config.port, 9000);
    assert_eq!(config.key_delay, Duration::from_millis(10));
    assert!(!config.auto_reconnect);
    assert_eq!(config.token_file, Some(PathBuf::from("/tmp/t")));
    assert!(!config.use_tls);
    let copy = config.clone();
    assert_eq!(copy.token_file, Some(PathBuf::from("/tmp/t")));
    assert_eq!(copy.host, "h");
}

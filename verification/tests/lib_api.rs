use samsung_tv_rs::{Command, Commands, Key, RemoteCommand, SamsungTvConfig};

#[test]
fn test_public_api_available() {
    // Ensure main types are accessible
    let _ = SamsungTvConfig::new("192.168.1.1");
    let _ = Key::Power;
    let _ = RemoteCommand::click(Key::VolumeUp);
}

#[test]
fn test_key_convenience() {
    // Keys should be usable directly
    let key = Key::VolumeUp;
    assert_eq!(key.as_str(), "KEY_VOLUP");
}

#[test]
fn test_backward_compat() {
    // Legacy API should still work
    let _ = Commands::KEY_POWER;
    assert_eq!(Command::KeyPower.as_str(), "KEY_POWER");
}

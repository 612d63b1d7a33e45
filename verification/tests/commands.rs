use samsung_tv_rs::{Command, CommandType, Commands, Key, RemoteCommand};

#[test]
fn test_command_type_str() {
    assert_eq!(CommandType::Click.as_str(), "Click");
    assert_eq!(CommandType::Press.as_str(), "Press");
    assert_eq!(CommandType::Release.as_str(), "Release");
}

#[test]
fn test_remote_command_payload() {
    let cmd = RemoteCommand::click(Key::VolumeUp);
    let payload = cmd.to_payload();

    let json = payload.to_json();
    assert!(json.contains("ms.remote.control"));
    assert!(json.contains("KEY_VOLUP"));
    assert!(json.contains("Click"));
}

#[test]
fn test_press_release_commands() {
    let press = RemoteCommand::press(Key::VolumeUp);
    assert_eq!(press.cmd_type, CommandType::Press);

    let release = RemoteCommand::release(Key::VolumeUp);
    assert_eq!(release.cmd_type, CommandType::Release);
}

#[test]
fn test_legacy_command_conversion() {
    let legacy = Command::KeyVolUp;
    assert_eq!(legacy.to_key(), Key::VolumeUp);
}

#[test]
fn remote_command_exact_json() {
    let json = RemoteCommand::press(Key::Home).to_payload().to_json();
    assert_eq!(
        json,
        r#"{"method":"ms.remote.control","params":{"Cmd":"Press","DataOfCmd":"KEY_HOME","Option":"false","TypeOfRemote":"SendRemoteKey"}}"#
    );
}

#[test]
fn command_type_default_is_click() {
    assert_eq!(CommandType::default(), CommandType::Click);
}

#[test]
fn legacy_commands_keep_their_codes() {
    for c in [
        Commands::KEY_VOLUP,
        Commands::KEY_VOLDOWN,
        Commands::KEY_MUTE,
        Commands::KEY_POWER,
        Commands::KEY_HOME,
    ] {
        assert_eq!(c.to_key().as_str(), c.as_str());
    }
}

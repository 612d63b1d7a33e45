use samsung_tv_rs::Key;

#[test]
fn test_key_to_string() {
    assert_eq!(Key::Power.as_str(), "KEY_POWER");
    assert_eq!(Key::VolumeUp.as_str(), "KEY_VOLUP");
    assert_eq!(Key::Enter.as_str(), "KEY_ENTER");
}

#[test]
fn test_key_parse() {
    assert_eq!(Key::parse("KEY_POWER"), Some(Key::Power));
    assert_eq!(Key::parse("KEY_VOLUP"), Some(Key::VolumeUp));
    assert_eq!(Key::parse("UNKNOWN"), None);
}

#[test]
fn test_key_display() {
    assert_eq!(Key::Home.to_string(), "KEY_HOME");
}

#[test]
fn test_custom_key() {
    let custom = Key::Custom("KEY_CUSTOM_123");
    assert_eq!(custom.as_str(), "KEY_CUSTOM_123");
}

#[test]
fn parse_recognizes_every_known_key() {
    let keys = [Key::Power, Key::PowerOff, Key::VolumeUp, Key::VolumeDown, Key::Mute, Key::ChannelUp, Key::ChannelDown, Key::ChannelList, Key::PreviousChannel, Key::Up, Key::Down, Key::Left, Key::Right, Key::Enter, Key::Return, Key::Exit, Key::Home, Key::Menu, Key::Num0, Key::Num1, Key::Num2, Key::Num3, Key::Num4, Key::Num5, Key::Num6, Key::Num7, Key::Num8, Key::Num9, Key::Play, Key::Pause, Key::Stop, Key::Rewind, Key::FastForward, Key::Record, Key::Red, Key::Green, Key::Yellow, Key::Blue, Key::Source, Key::Hdmi, Key::Hdmi1, Key::Hdmi2, Key::Hdmi3, Key::Hdmi4, Key::Component1, Key::Component2, Key::Av1, Key::Av2, Key::Av3, Key::Tv, Key::Dtv, Key::SmartHub, Key::Apps, Key::Browser, Key::Search, Key::Voice, Key::Ambient, Key::PictureSize, Key::PictureMode, Key::AspectRatio, Key::Settings, Key::Info, Key::Guide, Key::Tools, Key::Sleep, Key::Teletext, Key::TeletextMix, Key::Next, Key::Previous, Key::Pip, Key::PipSwap, Key::PipSize, Key::PipOnOff, Key::ThreeD, Key::Subtitle, Key::AudioDescription, Key::DvrMenu, Key::Live, Key::EManual, Key::FactoryMenu, Key::AutoProgram, Key::Contents, Key::Social, Key::Mts, Key::Caption, Key::Network, Key::PageUp, Key::PageDown, Key::MultiView, Key::Extra, Key::Calendar, Key::Email, Key::Help, Key::MyApps, Key::Language, Key::Keyboard];
    for k in keys {
        let parsed = Key::parse(k.as_str()).unwrap();
        assert_eq!(parsed.as_str(), k.as_str());
        if k != Key::Settings && k != Key::PipOnOff {
            assert_eq!(parsed, k);
        }
    }
}

#[test]
fn shared_codes_give_the_first_key() {
    assert_eq!(Key::Settings.as_str(), "KEY_MENU");
    assert_eq!(Key::parse("KEY_MENU"), Some(Key::Menu));
    assert_eq!(Key::parse("KEY_PIP_ONOFF"), Some(Key::Pip));
    assert_eq!(Key::parse("KEY_CONVERGENCE"), Some(Key::Browser));
    assert_eq!(Key::parse("key_power"), None);
    assert_eq!(Key::parse(""), None);
    assert_eq!(Key::parse("KEY_CUSTOM_123"), None);
}

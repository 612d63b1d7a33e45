use samsung_tv_rs::client::{connect_config, info_url, legacy_config, PlanRun, StepOutcome};
use samsung_tv_rs::{Command, Key, SamsungTvConfig, Session, Step, TokenManager};
use std::time::Duration;

fn sent(step: &Step) -> &str {
    match step {
        Step::Send(t) => t.as_str(),
        other => panic!("expected a send, got {:?}", other),
    }
}

fn session() -> Session {
    let config = SamsungTvConfig::new("10.0.0.1")
        .timeout(Duration::from_secs(2))
        .key_delay(Duration::from_millis(50));
    Session::new(config, TokenManager::new(None))
}

#[test]
fn explicit_token_wins_over_saved() {
    let config = SamsungTvConfig::new("h").token("explicit");
    let used = connect_config(config, Some("saved".to_string()));
    assert_eq!(used.token, Some("explicit".to_string()));
    let used = connect_config(SamsungTvConfig::new("h"), Some("saved".to_string()));
    assert_eq!(used.token, Some("saved".to_string()));
    let used = connect_config(SamsungTvConfig::new("h"), None);
    assert_eq!(used.token, None);
}

#[test]
fn send_key_plan() {
    let s = session();
    let steps = s.send_key(Key::VolumeUp);
    assert_eq!(steps.len(), 2);
    assert!(sent(&steps[0]).contains("\"DataOfCmd\":\"KEY_VOLUP\""));
    assert!(matches!(steps[1], Step::AwaitReply(d) if d == Duration::from_secs(2)));
}

#[test]
fn send_keys_plan_pauses_after_each_key() {
    let s = session();
    let steps = s.send_keys(&[Key::Down, Key::Enter]);
    assert_eq!(steps.len(), 6);
    assert!(sent(&steps[0]).contains("KEY_DOWN"));
    assert!(matches!(steps[2], Step::Pause(d) if d == Duration::from_millis(50)));
    assert!(sent(&steps[3]).contains("KEY_ENTER"));
    assert!(matches!(steps[5], Step::Pause(_)));
    assert!(s.send_keys(&[]).is_empty());
}

#[test]
fn hold_key_presses_then_releases() {
    let s = session();
    let steps = s.hold_key(Key::VolumeUp, Duration::from_secs(2));
    assert_eq!(steps.len(), 3);
    assert!(sent(&steps[0]).contains("\"Cmd\":\"Press\""));
    assert!(matches!(steps[1], Step::Pause(d) if d == Duration::from_secs(2)));
    assert!(sent(&steps[2]).contains("\"Cmd\":\"Release\""));
}

#[test]
fn open_browser_exits_first() {
    let s = session();
    let steps = s.open_browser("https://example.com");
    assert_eq!(steps.len(), 5);
    assert!(sent(&steps[0]).contains("KEY_EXIT"));
    assert!(matches!(steps[2], Step::Pause(d) if d == Duration::from_millis(500)));
    assert!(sent(&steps[3]).contains("\"metaTag\":\"https://example.com\""));
    assert!(sent(&steps[3]).contains("NATIVE_LAUNCH"));
}

#[test]
fn launch_and_text_messages() {
    let s = session();
    let steps = s.launch_app("3201907018807");
    assert!(sent(&steps[0]).contains("\"appId\":\"3201907018807\""));
    let steps = s.launch_app_with_meta("YouTube", "v=9");
    assert!(sent(&steps[0]).contains("\"metaTag\":\"v=9\""));
    let steps = s.send_text("hello");
    assert_eq!(
        sent(&steps[0]),
        r#"{"method":"ms.remote.control","params":{"Cmd":"aGVsbG8=","DataOfCmd":"base64","TypeOfRemote":"SendInputString"}}"#
    );
    assert!(s.list_apps_request().contains("ed.installedApp.get"));
}

#[test]
fn legacy_config_defaults() {
    let config = legacy_config("10.1.1.1", 8002, "Legacy");
    assert_eq!(config.port, 8002);
    assert_eq!(config.name, "Legacy");
    assert!(!config.use_tls);
}

#[test]
fn received_token_is_kept_and_saved() {
    let mut s = session();
    assert!(!s.accept_token(None));
    assert!(s.token().is_none());
    assert!(s.accept_token(Some("tok".to_string())));
    assert_eq!(s.token(), Some("tok"));
}

#[test]
fn info_urls() {
    assert_eq!(info_url("10.0.0.1", 8002), "http://10.0.0.1:8002/api/v2/");
    assert_eq!(info_url("h", 0), "http://h:0/api/v2/");
    assert_eq!(info_url("h", 65535), "http://h:65535/api/v2/");
    assert_eq!(session().info_url(), "http://10.0.0.1:8001/api/v2/");
}

#[test]
fn legacy_command_plan_repeats_rounds() {
    let s = session();
    let steps = s.send_command(Command::KeyMute, 2);
    assert_eq!(steps.len(), 6);
    assert!(sent(&steps[0]).contains("KEY_MUTE"));
    assert!(sent(&steps[3]).contains("KEY_MUTE"));
    assert!(matches!(steps[5], Step::Pause(d) if d == Duration::from_millis(50)));
    assert!(s.send_command(Command::KeyMute, 0).is_empty());
    let responses = samsung_tv_rs::client::command_responses(3);
    assert_eq!(responses, vec![String::new(), String::new(), String::new()]);
}

#[test]
fn plan_run_stops_at_first_failed_send() {
    let s = session();
    let mut run = PlanRun::new(s.send_keys(&[Key::Up, Key::Down]));
    assert!(matches!(run.next(), Some(Step::Send(_))));
    run.advance(StepOutcome::Sent);
    assert!(matches!(run.next(), Some(Step::AwaitReply(_))));
    run.advance(StepOutcome::Waited);
    assert!(matches!(run.next(), Some(Step::Pause(_))));
    run.advance(StepOutcome::Paused);
    assert!(matches!(run.next(), Some(Step::Send(_))));
    run.advance(StepOutcome::SendFailed);
    assert!(run.failed());
    assert!(run.next().is_none());

    let mut run = PlanRun::new(s.send_key(Key::Up));
    run.advance(StepOutcome::Sent);
    run.advance(StepOutcome::Waited);
    assert!(run.next().is_none());
    assert!(!run.failed());
}

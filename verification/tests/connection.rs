use samsung_tv_rs::connection::{build_url, handshake_outcome, timed_receive_outcome};
use samsung_tv_rs::{ConnectionState, SamsungTvConfig, SamsungTvError, StreamEvent};

#[test]
fn test_build_url_insecure() {
    let config = SamsungTvConfig::new("192.168.1.100")
        .name("TestClient")
        .build();

    let url = build_url(&config).unwrap();
    assert!(url.as_str().starts_with("ws://"));
    assert!(url.as_str().contains("192.168.1.100:8001"));
    assert!(url.as_str().contains("name="));
    assert!(!url.as_str().contains("token="));
}

#[test]
fn test_build_url_secure_with_token() {
    let config = SamsungTvConfig::new("192.168.1.100")
        .secure()
        .name("TestClient")
        .token("abc123")
        .build();

    let url = build_url(&config).unwrap();
    assert!(url.as_str().starts_with("wss://"));
    assert!(url.as_str().contains("192.168.1.100:8002"));
    assert!(url.as_str().contains("token=abc123"));
}

#[test]
fn url_carries_base64_name_and_normalized_host() {
    let config = SamsungTvConfig::new("TV.LOCAL").name("TestClient").port(9001);
    let url = build_url(&config).unwrap();
    assert_eq!(
        url,
        "ws://tv.local:9001/api/v2/channels/samsung.remote.control?name=VGVzdENsaWVudA=="
    );
}

#[test]
fn url_parse_error_is_reported() {
    let config = SamsungTvConfig::new("bad host");
    match build_url(&config) {
        Err(SamsungTvError::UrlParseError(_)) => {}
        other => panic!("unexpected: {:?}", other),
    }
}

fn text(s: &str) -> Option<StreamEvent> {
    Some(StreamEvent::Text(s.to_string()))
}

#[test]
fn handshake_outcomes() {
    assert!(matches!(handshake_outcome(None), Err(SamsungTvError::Timeout)));
    assert!(matches!(
        handshake_outcome(text(r#"{"event":"ms.channel.unauthorized"}"#)),
        Err(SamsungTvError::AuthenticationFailed)
    ));
    assert_eq!(
        handshake_outcome(text(r#"{"event":"ms.channel.connect","data":{"token":"77"}}"#)).unwrap(),
        Some("77".to_string())
    );
    assert_eq!(handshake_outcome(text(r#"{"event":"ms.channel.connect"}"#)).unwrap(), None);
    assert_eq!(handshake_outcome(text(r#"{"event":"ms.channel.ready"}"#)).unwrap(), None);
    assert_eq!(handshake_outcome(Some(StreamEvent::Close)).unwrap(), None);
    assert_eq!(handshake_outcome(Some(StreamEvent::Other)).unwrap(), None);
    match handshake_outcome(Some(StreamEvent::Ended)) {
        Err(SamsungTvError::InvalidResponse { message }) => {
            assert_eq!(message, "Connection closed immediately")
        }
        other => panic!("unexpected: {:?}", other),
    }
    let failure = tokio_tungstenite::tungstenite::Error::ConnectionClosed;
    assert!(matches!(
        handshake_outcome(Some(StreamEvent::Failed(failure))),
        Err(SamsungTvError::WebSocketError(_))
    ));
}

#[test]
fn connection_state_transitions() {
    let mut state = ConnectionState::opened();
    assert!(state.is_connected());
    assert!(state.check_open().is_ok());
    assert_eq!(state.on_message(StreamEvent::Text("hi".to_string())).unwrap(), Some("hi".to_string()));
    assert_eq!(state.on_message(StreamEvent::Other).unwrap(), None);
    assert!(state.is_connected());
    assert_eq!(state.on_message(StreamEvent::Close).unwrap(), None);
    assert!(!state.is_connected());
    assert!(matches!(state.check_open(), Err(SamsungTvError::NotConnected)));
    state.reopen();
    let failure = tokio_tungstenite::tungstenite::Error::AlreadyClosed;
    assert!(state.on_message(StreamEvent::Failed(failure)).is_err());
    assert!(!state.is_connected());
    state.reopen();
    assert_eq!(state.on_message(StreamEvent::Ended).unwrap(), None);
    assert!(!state.is_connected());
}

#[test]
fn closing_sends_a_frame_only_once() {
    let mut state = ConnectionState::opened();
    assert!(state.begin_close());
    assert!(!state.is_connected());
    assert!(!state.begin_close());
}

#[test]
fn timeout_is_no_message() {
    assert_eq!(timed_receive_outcome(None).unwrap(), None);
    assert_eq!(timed_receive_outcome(Some(Ok(Some("x".to_string())))).unwrap(), Some("x".to_string()));
    assert!(timed_receive_outcome(Some(Err(SamsungTvError::NotConnected))).is_err());
}

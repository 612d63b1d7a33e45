use samsung_tv_rs::TokenManager;
use std::path::PathBuf;

#[test]
fn test_extract_token_from_response() {
    let response = r#"{
            "event": "ms.channel.connect",
            "data": {
                "token": "12345678"
            }
        }"#;

    let token = TokenManager::extract_from_response(response);
    assert_eq!(token, Some("12345678".to_string()));
}

#[test]
fn test_extract_token_wrong_event() {
    let response = r#"{
            "event": "ms.channel.clientConnect",
            "data": {}
        }"#;

    let token = TokenManager::extract_from_response(response);
    assert_eq!(token, None);
}

#[test]
fn test_is_auth_error() {
    let error_response = r#"{"event": "ms.channel.unauthorized"}"#;
    assert!(TokenManager::is_auth_error(error_response));

    let success_response = r#"{"event": "ms.channel.connect"}"#;
    assert!(!TokenManager::is_auth_error(success_response));
}

#[test]
fn test_is_connected() {
    let response = r#"{"event": "ms.channel.connect"}"#;
    assert!(TokenManager::is_connected(response));

    let other = r#"{"event": "ms.channel.ready"}"#;
    assert!(!TokenManager::is_connected(other));
}

#[test]
fn test_token_manager_memory() {
    let mut manager = TokenManager::new(None);
    assert!(manager.token().is_none());

    manager.set_token("test_token".to_string());
    assert_eq!(manager.token(), Some("test_token"));

    manager.clear_token();
    assert!(manager.token().is_none());
}

#[test]
fn extract_rejects_empty_token_and_non_json() {
    let empty = r#"{"event": "ms.channel.connect", "data": {"token": ""}}"#;
    assert_eq!(TokenManager::extract_from_response(empty), None);
    assert_eq!(TokenManager::extract_from_response("not json"), None);
    let numeric = r#"{"event": "ms.channel.connect", "data": {"token": 5}}"#;
    assert_eq!(TokenManager::extract_from_response(numeric), None);
    let no_data = r#"{"event": "ms.channel.connect"}"#;
    assert_eq!(TokenManager::extract_from_response(no_data), None);
}

#[test]
fn auth_error_variants() {
    assert!(TokenManager::is_auth_error(r#"{"event": "ms.error"}"#));
    assert!(TokenManager::is_auth_error(r#"{"event": "x.unauthorized.y"}"#));
    assert!(!TokenManager::is_auth_error(r#"{"event": 3}"#));
    assert!(!TokenManager::is_auth_error("[1, 2]"));
    assert!(!TokenManager::is_connected("{"));
}

#[test]
fn connect_message_is_never_an_auth_error() {
    let msg = r#"{"event": "ms.channel.connect", "data": {"token": "t"}}"#;
    assert!(TokenManager::extract_from_response(msg).is_some());
    assert!(TokenManager::is_connected(msg));
    assert!(!TokenManager::is_auth_error(msg));
}

#[test]
fn adopt_loaded_trims_and_ignores_blank() {
    let mut manager = TokenManager::new(Some(PathBuf::from("/tmp/tok")));
    assert_eq!(manager.adopt_loaded(" \n\t"), None);
    assert!(manager.token().is_none());
    assert_eq!(manager.adopt_loaded("  abc\u{3000}\n"), Some("abc".to_string()));
    assert_eq!(manager.token(), Some("abc"));
}

#[test]
fn save_target_needs_token_and_file() {
    let manager = TokenManager::new(Some(PathBuf::from("/tmp/tok")));
    assert!(manager.save_target().is_none());
    let manager = TokenManager::with_token("t1".to_string(), None);
    assert!(manager.save_target().is_none());
    let manager = TokenManager::with_token("t1".to_string(), Some(PathBuf::from("/tmp/tok")));
    let (path, token) = manager.save_target().unwrap();
    assert_eq!(path, &PathBuf::from("/tmp/tok"));
    assert_eq!(token, "t1");
    assert_eq!(manager.token_file(), Some(&PathBuf::from("/tmp/tok")));
}

#[test]
fn clean_token_reloads_as_itself() {
    let mut manager = TokenManager::new(None);
    assert_eq!(manager.adopt_loaded("tok123"), Some("tok123".to_string()));
    assert_eq!(manager.token(), Some("tok123"));
    let mut manager = TokenManager::new(None);
    assert_eq!(manager.adopt_loaded(" tok123\n"), Some("tok123".to_string()));
}

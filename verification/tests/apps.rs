use samsung_tv_rs::apps::{app_ids, app_list_value, AppLaunchPayload, AppListPayload};

#[test]
fn test_app_launch_payload() {
    let payload = AppLaunchPayload::launch("Netflix");
    let json = payload.to_json();

    assert!(json.contains("ms.channel.emit"));
    assert!(json.contains("ed.apps.launch"));
    assert!(json.contains("Netflix"));
    assert!(json.contains("DEEP_LINK"));
}

#[test]
fn test_app_launch_with_meta() {
    let payload = AppLaunchPayload::launch_with_meta("YouTube", "video_id=abc123");
    let json = payload.to_json();

    assert!(json.contains("YouTube"));
    assert!(json.contains("video_id=abc123"));
}

#[test]
fn test_app_list_payload() {
    let payload = AppListPayload::new();
    let json = payload.to_json();

    assert!(json.contains("ms.channel.emit"));
    assert!(json.contains("ed.installedApp.get"));
}

#[test]
fn test_browser_payload() {
    let payload = AppLaunchPayload::open_browser("https://example.com");
    let json = payload.to_json();

    assert!(json.contains("https://example.com"));
    assert!(json.contains("org.tizen.browser"));
    assert!(json.contains("NATIVE_LAUNCH"));
    assert!(json.contains("metaTag"));
}

#[test]
fn test_app_launch_with_meta_uses_camel_case() {
    let payload = AppLaunchPayload::launch_with_meta("YouTube", "video_id=abc123");
    let json = payload.to_json();

    assert!(json.contains("metaTag"));
    assert!(!json.contains("meta_tag"));
}

#[test]
fn launch_payload_exact_text() {
    let json = AppLaunchPayload::launch(app_ids::NETFLIX).to_json();
    assert_eq!(
        json,
        r#"{"method":"ms.channel.emit","params":{"event":"ed.apps.launch","to":"host","data":{"appId":"11101200001","action_type":"DEEP_LINK"}}}"#
    );
}

#[test]
fn launch_with_meta_exact_text() {
    let json = AppLaunchPayload::launch_with_meta("YouTube", "v=1").to_json();
    assert_eq!(
        json,
        r#"{"method":"ms.channel.emit","params":{"event":"ed.apps.launch","to":"host","data":{"appId":"YouTube","action_type":"DEEP_LINK","metaTag":"v=1"}}}"#
    );
}

#[test]
fn launch_payload_escapes_quotes_and_backslashes() {
    let json = AppLaunchPayload::launch("a\"b\\c\n").to_json();
    assert!(json.contains(r#""appId":"a\"b\\c\n""#));
}

#[test]
fn browser_payload_fields() {
    let payload = AppLaunchPayload::open_browser("https://example.com");
    assert_eq!(payload.params.data.app_id, "org.tizen.browser");
    assert_eq!(payload.params.data.action_type, "NATIVE_LAUNCH");
    assert_eq!(payload.params.data.meta_tag, Some("https://example.com".to_string()));
    assert_eq!(payload.method, "ms.channel.emit");
}

#[test]
fn app_list_exact_text() {
    assert_eq!(
        AppListPayload::new().to_json(),
        r#"{"method":"ms.channel.emit","params":{"event":"ed.installedApp.get","data":{}}}"#
    );
}

#[test]
fn app_list_is_read_from_data_data() {
    let reply = r#"{"event":"ed.installedApp.get","data":{"data":[{"appId":"1","name":"A"}]}}"#;
    let list = app_list_value(reply).unwrap();
    assert!(list.is_array());
    assert_eq!(list[0]["appId"], "1");
    assert!(app_list_value(r#"{"data":{}}"#).is_none());
    assert!(app_list_value(r#"{"data":5}"#).is_none());
    assert!(app_list_value("garbage").is_none());
}

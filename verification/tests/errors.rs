use samsung_tv_rs::connection::build_url;
use samsung_tv_rs::{SamsungTvConfig, SamsungTvError};
use std::path::PathBuf;

#[test]
fn messages_of_plain_variants() {
    assert_eq!(SamsungTvError::NotConnected.message(), "not connected to TV");
    assert_eq!(SamsungTvError::Timeout.message(), "operation timed out");
    assert_eq!(
        SamsungTvError::AuthenticationFailed.message(),
        "authentication failed - token may be invalid or expired"
    );
    assert_eq!(
        SamsungTvError::AppNotFound { app_id: "x".to_string() }.message(),
        "app 'x' not found"
    );
    assert_eq!(
        SamsungTvError::CommandFailed { command: "c".to_string(), reason: "r".to_string() }
            .message(),
        "command 'c' failed: r"
    );
    assert_eq!(
        SamsungTvError::InvalidResponse { message: "m".to_string() }.message(),
        "invalid response from TV: m"
    );
}

#[test]
fn messages_carry_the_wrapped_error() {
    let e = SamsungTvError::ConnectionFailed {
        host: "h".to_string(),
        port: 8001,
        source: std::io::Error::other("boom"),
    };
    assert_eq!(e.message(), "failed to connect to TV at h:8001: boom");
    let e = SamsungTvError::TokenSaveFailed {
        path: PathBuf::from("/tmp/tok"),
        source: std::io::Error::other("denied"),
    };
    assert_eq!(e.message(), "failed to save token to /tmp/tok: denied");
    let e = build_url(&SamsungTvConfig::new("bad host")).unwrap_err();
    assert_eq!(e.message(), "invalid URL: invalid international domain name");
    assert_eq!(e.describe("x"), "invalid URL: x");
}

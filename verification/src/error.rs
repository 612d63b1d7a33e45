//! Errors of Samsung TV operations.
use std::path::PathBuf;
use crate::text::{decimal, owned, push_decimal};
use vstd::prelude::*;

verus! {

/// `url::ParseError`, carried opaquely inside `SamsungTvError::UrlParseError`.
#[verifier::external_type_specification]
#[verifier::external_body]
pub struct ExUrlParseError(url::ParseError);

/// `serde_json::Error`, carried opaquely inside `SamsungTvError::JsonError`.
#[verifier::external_type_specification]
#[verifier::external_body]
pub struct ExJsonError(serde_json::Error);

/// `native_tls::Error`, carried opaquely inside `SamsungTvError::TlsError`.
#[verifier::external_type_specification]
#[verifier::external_body]
pub struct ExTlsError(native_tls::Error);

/// The WebSocket error of `tokio_tungstenite`, carried opaquely inside
/// `SamsungTvError::WebSocketError`.
#[verifier::external_type_specification]
#[verifier::external_body]
pub struct ExWebSocketError(tokio_tungstenite::tungstenite::Error);

/// `reqwest::Error`, carried opaquely inside `SamsungTvError::HttpError`.
#[verifier::external_type_specification]
#[verifier::external_body]
pub struct ExHttpError(reqwest::Error);

/// `std::io::Error`, carried opaquely by the I/O variants.
#[verifier::external_type_specification]
#[verifier::external_body]
pub struct ExIoError(std::io::Error);

/// `std::path::PathBuf`, the token file location, carried opaquely.
#[verifier::external_type_specification]
#[verifier::external_body]
pub struct ExPathBuf(std::path::PathBuf);

/// Errors that can occur when interacting with a Samsung TV.
#[derive(Debug)]
pub enum SamsungTvError {
    /// Failed to establish a connection to the TV.
    ConnectionFailed { host: String, port: u16, source: std::io::Error },
    /// TLS/SSL error during secure connection.
    TlsError(native_tls::Error),
    /// TV requires authentication but no token was provided.
    AuthenticationRequired,
    /// Authentication with the provided token failed.
    AuthenticationFailed,
    /// WebSocket protocol error.
    WebSocketError(tokio_tungstenite::tungstenite::Error),
    /// Command execution failed.
    CommandFailed { command: String, reason: String },
    /// Operation timed out.
    Timeout,
    /// Invalid response received from TV.
    InvalidResponse { message: String },
    /// Failed to load token from file.
    TokenLoadFailed { path: PathBuf, source: std::io::Error },
    /// Failed to save token to file.
    TokenSaveFailed { path: PathBuf, source: std::io::Error },
    /// URL parsing error.
    UrlParseError(url::ParseError),
    /// JSON serialization/deserialization error.
    JsonError(serde_json::Error),
    /// HTTP request error.
    HttpError(reqwest::Error),
    /// Connection is not established.
    NotConnected,
    /// App not found on the TV.
    AppNotFound { app_id: String },
}

/// Result type alias for Samsung TV operations.
pub type Result<T> = std::result::Result<T, SamsungTvError>;

/// What `url::ParseError` displays as: a fixed description per kind.
pub uninterp spec fn url_error_display(e: url::ParseError) -> Seq<char>;

/// `Display for url::ParseError`.
#[verifier::external_body]
fn url_error_text(e: &url::ParseError) -> (r: String)
    ensures
        r@ == url_error_display(*e),
{
    e.to_string()
}

/// What `Path::display` writes for a path (its text, with invalid UTF-8
/// replaced).
pub uninterp spec fn path_display(p: PathBuf) -> Seq<char>;

/// `Path::display` written to a string.
#[verifier::external_body]
fn path_text(p: &PathBuf) -> (r: String)
    ensures
        r@ == path_display(*p),
{
    p.display().to_string()
}

/// `Display for std::io::Error`. Nothing is stated of the text: for
/// operating-system errors it comes from the system's error strings, which
/// depend on the machine and its locale.
#[verifier::external_body]
fn io_error_text(e: &std::io::Error) -> String {
    e.to_string()
}

/// `Display for native_tls::Error`. Nothing is stated of the text: it
/// comes from the platform's TLS library and can carry operating-system
/// error strings.
#[verifier::external_body]
fn tls_error_text(e: &native_tls::Error) -> String {
    e.to_string()
}

/// `Display for tungstenite::Error`. Nothing is stated of the text: its
/// I/O and TLS variants carry operating-system error strings.
#[verifier::external_body]
fn websocket_error_text(e: &tokio_tungstenite::tungstenite::Error) -> String {
    e.to_string()
}

/// `Display for serde_json::Error`. Nothing is stated of the text: its I/O
/// category carries operating-system error strings.
#[verifier::external_body]
fn json_error_text(e: &serde_json::Error) -> String {
    e.to_string()
}

/// `Display for reqwest::Error`. Nothing is stated of the text: it can
/// carry the text of the underlying connection or I/O error.
#[verifier::external_body]
fn http_error_text(e: &reqwest::Error) -> String {
    e.to_string()
}

/// The message of an error, with `detail` standing for the message of the
/// error it wraps (unused by the variants that wrap none).
pub open spec fn message_text(e: SamsungTvError, detail: Seq<char>) -> Seq<char> {
    match e {
        SamsungTvError::ConnectionFailed { host, port, .. } => "failed to connect to TV at "@
            + host@ + ":"@ + decimal(port as nat) + ": "@ + detail,
        SamsungTvError::TlsError(_) => "TLS error: "@ + detail,
        SamsungTvError::AuthenticationRequired =>
            "authentication required - connect without token first to receive one from the TV"@,
        SamsungTvError::AuthenticationFailed =>
            "authentication failed - token may be invalid or expired"@,
        SamsungTvError::WebSocketError(_) => "WebSocket error: "@ + detail,
        SamsungTvError::CommandFailed { command, reason } => "command '"@ + command@
            + "' failed: "@ + reason@,
        SamsungTvError::Timeout => "operation timed out"@,
        SamsungTvError::InvalidResponse { message } => "invalid response from TV: "@ + message@,
        SamsungTvError::TokenLoadFailed { path, .. } => "failed to load token from "@
            + path_display(path) + ": "@ + detail,
        SamsungTvError::TokenSaveFailed { path, .. } => "failed to save token to "@
            + path_display(path) + ": "@ + detail,
        SamsungTvError::UrlParseError(_) => "invalid URL: "@ + detail,
        SamsungTvError::JsonError(_) => "JSON error: "@ + detail,
        SamsungTvError::HttpError(_) => "HTTP request error: "@ + detail,
        SamsungTvError::NotConnected => "not connected to TV"@,
        SamsungTvError::AppNotFound { app_id } => "app '"@ + app_id@ + "' not found"@,
    }
}

impl SamsungTvError {
    /// The message of this error, with `detail` given for the message of the
    /// error it wraps.
    pub fn describe(&self, detail: &str) -> (r: String)
        ensures
            r@ == message_text(*self, detail@),
    {
        let mut out = String::new();
        match self {
            SamsungTvError::ConnectionFailed { host, port, .. } => {
                out.append("failed to connect to TV at ");
                out.append(host.as_str());
                out.append(":");
                push_decimal(&mut out, *port);
                out.append(": ");
                out.append(detail);
            },
            SamsungTvError::TlsError(_) => {
                out.append("TLS error: ");
                out.append(detail);
            },
            SamsungTvError::AuthenticationRequired => {
                out.append(
                    "authentication required - connect without token first to receive one from the TV",
                );
            },
            SamsungTvError::AuthenticationFailed => {
                out.append("authentication failed - token may be invalid or expired");
            },
            SamsungTvError::WebSocketError(_) => {
                out.append("WebSocket error: ");
                out.append(detail);
            },
            SamsungTvError::CommandFailed { command, reason } => {
                out.append("command '");
                out.append(command.as_str());
                out.append("' failed: ");
                out.append(reason.as_str());
            },
            SamsungTvError::Timeout => {
                out.append("operation timed out");
            },
            SamsungTvError::InvalidResponse { message } => {
                out.append("invalid response from TV: ");
                out.append(message.as_str());
            },
            SamsungTvError::TokenLoadFailed { path, .. } => {
                out.append("failed to load token from ");
                out.append(path_text(path).as_str());
                out.append(": ");
                out.append(detail);
            },
            SamsungTvError::TokenSaveFailed { path, .. } => {
                out.append("failed to save token to ");
                out.append(path_text(path).as_str());
                out.append(": ");
                out.append(detail);
            },
            SamsungTvError::UrlParseError(_) => {
                out.append("invalid URL: ");
                out.append(detail);
            },
            SamsungTvError::JsonError(_) => {
                out.append("JSON error: ");
                out.append(detail);
            },
            SamsungTvError::HttpError(_) => {
                out.append("HTTP request error: ");
                out.append(detail);
            },
            SamsungTvError::NotConnected => {
                out.append("not connected to TV");
            },
            SamsungTvError::AppNotFound { app_id } => {
                out.append("app '");
                out.append(app_id.as_str());
                out.append("' not found");
            },
        }
        out
    }

    /// The message of the error that this one wraps; empty for the variants
    /// that wrap none.
    pub fn detail(&self) -> (r: String)
        ensures
            match self {
                SamsungTvError::UrlParseError(e) => r@ == url_error_display(*e),
                SamsungTvError::ConnectionFailed { .. } => true,
                SamsungTvError::TlsError(_) => true,
                SamsungTvError::WebSocketError(_) => true,
                SamsungTvError::TokenLoadFailed { .. } => true,
                SamsungTvError::TokenSaveFailed { .. } => true,
                SamsungTvError::JsonError(_) => true,
                SamsungTvError::HttpError(_) => true,
                _ => r@ == Seq::<char>::empty(),
            },
    {
        match self {
            SamsungTvError::ConnectionFailed { source, .. } => io_error_text(source),
            SamsungTvError::TlsError(e) => tls_error_text(e),
            SamsungTvError::WebSocketError(e) => websocket_error_text(e),
            SamsungTvError::TokenLoadFailed { source, .. } => io_error_text(source),
            SamsungTvError::TokenSaveFailed { source, .. } => io_error_text(source),
            SamsungTvError::UrlParseError(e) => url_error_text(e),
            SamsungTvError::JsonError(e) => json_error_text(e),
            SamsungTvError::HttpError(e) => http_error_text(e),
            _ => String::new(),
        }
    }

    /// The error's message (what it displays as): its own text around the
    /// message of the error it wraps.
    pub fn message(&self) -> (r: String)
        ensures
            exists|d: Seq<char>| r@ == message_text(*self, d),
            self matches SamsungTvError::UrlParseError(e) ==> r@ == message_text(
                *self,
                url_error_display(*e),
            ),
    {
        let d = self.detail();
        self.describe(d.as_str())
    }
}

} // verus!

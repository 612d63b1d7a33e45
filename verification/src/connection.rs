//! Decisions of the WebSocket connection to a Samsung TV: the URL it opens,
//! what the TV's first message means, and how each received frame moves the
//! connection state. The socket itself lives with the caller.
use crate::auth::{reports_auth_error, reports_connected, response_token, TokenManager};
use crate::config::{scheme_of, SamsungTvConfig};
use crate::encoding::{
    base64_fits, base64_standard, encode_base64, parse_url, parsed_url, url_into_string,
};
use crate::error::SamsungTvError;
use crate::text::{decimal, owned, push_decimal};
use vstd::prelude::*;
use vstd::utf8::encode_utf8;

verus! {

/// The text of the remote-control URL for a configuration, before URL
/// parsing: scheme, host, port, the channel path, the base64 of the client
/// name, and the token when there is one.
pub open spec fn raw_url(c: SamsungTvConfig) -> Seq<char> {
    scheme_of(c) + "://"@ + c.host@ + ":"@ + decimal(c.port as nat)
        + "/api/v2/channels/samsung.remote.control?name="@ + base64_standard(encode_utf8(c.name@))
        + match c.token {
        Some(t) => "&token="@ + t@,
        None => ""@,
    }
}

/// The client name of `c` can be base64-encoded (its UTF-8 length is small
/// enough for the encoder's length computation).
pub open spec fn name_encodable(c: SamsungTvConfig) -> bool {
    base64_fits(encode_utf8(c.name@).len())
}

/// Builds the WebSocket URL for connecting to the TV: the serialization of
/// the parsed URL, or the URL parser's error.
pub fn build_url(config: &SamsungTvConfig) -> (r: Result<String, SamsungTvError>)
    requires
        name_encodable(*config),
    ensures
        match r {
            Ok(u) => parsed_url(raw_url(*config)) == Some(u@),
            Err(e) => parsed_url(raw_url(*config)) is None && e is UrlParseError,
        },
{
    let encoded_name = encode_base64(config.name.as_str().as_bytes());
    let mut url = String::new();
    url.append(config.scheme());
    url.append("://");
    url.append(config.host.as_str());
    url.append(":");
    push_decimal(&mut url, config.port);
    url.append("/api/v2/channels/samsung.remote.control?name=");
    url.append(encoded_name.as_str());
    let ghost before = url@;
    match &config.token {
        Some(token) => {
            url.append("&token=");
            url.append(token.as_str());
            assert(url@ =~= before + ("&token="@ + token@));
        },
        None => {
            proof {
                reveal_strlit("");
            }
            assert(url@ =~= before + ""@);
        },
    }
    match parse_url(url.as_str()) {
        Ok(u) => Ok(url_into_string(u)),
        Err(e) => Err(SamsungTvError::UrlParseError(e)),
    }
}

/// What reading the WebSocket produced.
pub enum StreamEvent {
    /// A text frame.
    Text(String),
    /// A close frame.
    Close,
    /// A ping, pong, binary or other frame.
    Other,
    /// The stream reported an error.
    Failed(tokio_tungstenite::tungstenite::Error),
    /// The stream ended.
    Ended,
}

/// The outcome of waiting for the TV's first message; `event` is `None`
/// when the wait timed out. An authentication error refuses the connection;
/// a connect confirmation yields its token, if it carries one; any other
/// frame yields no token; an error or an ended stream fails the connection.
pub fn handshake_outcome(event: Option<StreamEvent>) -> (r: Result<Option<String>, SamsungTvError>)
    ensures
        match event {
            None => r matches Err(e) && e is Timeout,
            Some(StreamEvent::Text(t)) => if reports_auth_error(t@) {
                r matches Err(e) && e is AuthenticationFailed
            } else if reports_connected(t@) {
                match r {
                    Ok(Some(token)) => response_token(t@) == Some(token@),
                    Ok(None) => response_token(t@) is None,
                    Err(_) => false,
                }
            } else {
                r matches Ok(None)
            },
            Some(StreamEvent::Close) => r matches Ok(None),
            Some(StreamEvent::Other) => r matches Ok(None),
            Some(StreamEvent::Failed(e)) => r == Err::<Option<String>, SamsungTvError>(
                SamsungTvError::WebSocketError(e),
            ),
            Some(StreamEvent::Ended) => r matches Err(SamsungTvError::InvalidResponse { message })
                && message@ == "Connection closed immediately"@,
        },
{
    match event {
        None => Err(SamsungTvError::Timeout),
        Some(StreamEvent::Text(t)) => {
            if TokenManager::is_auth_error(t.as_str()) {
                Err(SamsungTvError::AuthenticationFailed)
            } else if TokenManager::is_connected(t.as_str()) {
                Ok(TokenManager::extract_from_response(t.as_str()))
            } else {
                Ok(None)
            }
        },
        Some(StreamEvent::Close) => Ok(None),
        Some(StreamEvent::Other) => Ok(None),
        Some(StreamEvent::Failed(e)) => Err(SamsungTvError::WebSocketError(e)),
        Some(StreamEvent::Ended) => Err(
            SamsungTvError::InvalidResponse { message: owned("Connection closed immediately") },
        ),
    }
}

/// Whether a WebSocket connection is open.
#[derive(Debug)]
pub struct ConnectionState {
    pub connected: bool,
}

impl ConnectionState {
    /// The state of a connection that was just established.
    pub fn opened() -> (r: Self)
        ensures
            r.connected,
    {
        ConnectionState { connected: true }
    }

    /// Returns whether the connection is still open.
    pub fn is_connected(&self) -> (r: bool)
        ensures
            r == self.connected,
    {
        self.connected
    }

    /// Sending and receiving need an open connection.
    pub fn check_open(&self) -> (r: Result<(), SamsungTvError>)
        ensures
            r is Ok <==> self.connected,
            r matches Err(e) ==> e is NotConnected,
    {
        if self.connected {
            Ok(())
        } else {
            Err(SamsungTvError::NotConnected)
        }
    }

    /// Takes in a frame read from the open connection: text is delivered;
    /// a close frame, an error or the end of the stream close the connection;
    /// other frames are skipped.
    pub fn on_message(&mut self, event: StreamEvent) -> (r: Result<Option<String>, SamsungTvError>)
        ensures
            match event {
                StreamEvent::Text(t) => r == Ok::<Option<String>, SamsungTvError>(Some(t))
                    && final(self).connected == old(self).connected,
                StreamEvent::Close => r matches Ok(None) && !final(self).connected,
                StreamEvent::Other => r matches Ok(None) && final(self).connected == old(
                    self,
                ).connected,
                StreamEvent::Failed(e) => r == Err::<Option<String>, SamsungTvError>(
                    SamsungTvError::WebSocketError(e),
                ) && !final(self).connected,
                StreamEvent::Ended => r matches Ok(None) && !final(self).connected,
            },
    {
        match event {
            StreamEvent::Text(t) => Ok(Some(t)),
            StreamEvent::Close => {
                self.connected = false;
                Ok(None)
            },
            StreamEvent::Other => Ok(None),
            StreamEvent::Failed(e) => {
                self.connected = false;
                Err(SamsungTvError::WebSocketError(e))
            },
            StreamEvent::Ended => {
                self.connected = false;
                Ok(None)
            },
        }
    }

    /// Closing: marks the connection closed and says whether a close frame
    /// must be sent (only when it was open).
    pub fn begin_close(&mut self) -> (send_close: bool)
        ensures
            send_close == old(self).connected,
            !final(self).connected,
    {
        let was = self.connected;
        self.connected = false;
        was
    }

    /// A new socket was established in place of the old one.
    pub fn reopen(&mut self)
        ensures
            final(self).connected,
    {
        self.connected = true;
    }
}

/// The outcome of a receive bounded by a timeout; `outcome` is `None` when
/// the time ran out, which is not an error but no message.
pub fn timed_receive_outcome(outcome: Option<Result<Option<String>, SamsungTvError>>) -> (r: Result<
    Option<String>,
    SamsungTvError,
>)
    ensures
        match outcome {
            Some(x) => r == x,
            None => r matches Ok(None),
        },
{
    match outcome {
        Some(x) => x,
        None => Ok(None),
    }
}

} // verus!

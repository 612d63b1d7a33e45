//! Token-based authentication for Samsung TVs.
//!
//! Samsung TVs (2018+) require token authentication for secure WebSocket connections.
//! The flow is:
//! 1. Connect without a token -> TV shows "Allow connection?" prompt
//! 2. User accepts on TV -> TV sends response containing a token
//! 3. Save the token for future use
//! 4. Future connections use the saved token -> No prompt needed
use std::path::PathBuf;

use crate::json::{
    json_as_str, json_document, json_get, member, parse_json, string_member, JsonTree,
};
use crate::text::{
    has_substring, is_white_space, occurs_at, owned, str_contains, str_eq, trim, trim_end,
    trim_start, trimmed,
};
use vstd::prelude::*;

verus! {

/// The event name of the message that confirms a connection.
pub open spec fn connect_event() -> Seq<char> {
    "ms.channel.connect"@
}

/// The `event` member of a message, where it is a string.
pub open spec fn event_of(doc: JsonTree) -> Option<Seq<char>> {
    string_member(doc, "event"@)
}

/// The token that a connect message carries: the message is a JSON object
/// whose `event` is `ms.channel.connect` and whose `data.token` is a
/// non-empty string.
pub open spec fn response_token(text: Seq<char>) -> Option<Seq<char>> {
    match json_document(text) {
        None => None,
        Some(doc) => if event_of(doc) == Some(connect_event()) {
            match member(doc, "data"@) {
                Some(data) => match string_member(data, "token"@) {
                    Some(t) => if t.len() > 0 {
                        Some(t)
                    } else {
                        None
                    },
                    None => None,
                },
                None => None,
            }
        } else {
            None
        },
    }
}

/// The message reports an authentication error: its `event` is
/// `ms.channel.unauthorized` or `ms.error`, or mentions `unauthorized`.
pub open spec fn reports_auth_error(text: Seq<char>) -> bool {
    match json_document(text) {
        Some(doc) => match event_of(doc) {
            Some(e) => e == "ms.channel.unauthorized"@ || e == "ms.error"@ || has_substring(
                e,
                "unauthorized"@,
            ),
            None => false,
        },
        None => false,
    }
}

/// The message confirms the connection: its `event` is `ms.channel.connect`.
pub open spec fn reports_connected(text: Seq<char>) -> bool {
    match json_document(text) {
        Some(doc) => event_of(doc) == Some(connect_event()),
        None => false,
    }
}

/// Manages authentication tokens for Samsung TV connections.
#[derive(Debug)]
pub struct TokenManager {
    /// Current token in memory.
    token: Option<String>,
    /// Path to persist the token.
    token_file: Option<PathBuf>,
}

impl TokenManager {
    /// The token held in memory.
    pub closed spec fn current(&self) -> Option<Seq<char>> {
        match self.token {
            Some(t) => Some(t@),
            None => None,
        }
    }

    /// The configured token file.
    pub closed spec fn file(&self) -> Option<PathBuf> {
        self.token_file
    }

    /// Creates a new token manager.
    pub fn new(token_file: Option<PathBuf>) -> (r: Self)
        ensures
            r.current() is None,
            r.file() == token_file,
    {
        TokenManager { token: None, token_file }
    }

    /// Creates a token manager with an initial token.
    pub fn with_token(token: String, token_file: Option<PathBuf>) -> (r: Self)
        ensures
            r.current() == Some(token@),
            r.file() == token_file,
    {
        TokenManager { token: Some(token), token_file }
    }

    /// Returns the current token, if any.
    pub fn token(&self) -> (r: Option<&str>)
        ensures
            match r {
                Some(t) => self.current() == Some(t@),
                None => self.current() is None,
            },
    {
        match &self.token {
            Some(t) => Some(t.as_str()),
            None => None,
        }
    }

    /// Returns the configured token file, if any.
    pub fn token_file(&self) -> (r: Option<&PathBuf>)
        ensures
            match r {
                Some(p) => self.file() == Some(*p),
                None => self.file() is None,
            },
    {
        match &self.token_file {
            Some(p) => Some(p),
            None => None,
        }
    }

    /// Sets the current token.
    pub fn set_token(&mut self, token: String)
        ensures
            final(self).current() == Some(token@),
            final(self).file() == old(self).file(),
    {
        self.token = Some(token);
    }

    /// Clears the current token.
    pub fn clear_token(&mut self)
        ensures
            final(self).current() is None,
            final(self).file() == old(self).file(),
    {
        self.token = None;
    }

    /// Takes in the contents read from the token file: the trimmed text
    /// becomes the current token and is returned, unless it is empty, in which
    /// case nothing changes and `None` is returned.
    pub fn adopt_loaded(&mut self, contents: &str) -> (r: Option<String>)
        ensures
            final(self).file() == old(self).file(),
            trimmed(contents@).len() == 0 ==> r is None && final(self).current() == old(
                self,
            ).current(),
            trimmed(contents@).len() > 0 ==> (r matches Some(t) && t@ == trimmed(contents@)
                && final(self).current() == Some(trimmed(contents@))),
    {
        let t = trim(contents);
        if t.is_empty() {
            return None;
        }
        let token = owned(t);
        self.token = Some(owned(t));
        Some(token)
    }

    /// What saving writes: the token file and the current token, when both
    /// are set; `None` means there is nothing to save.
    pub fn save_target(&self) -> (r: Option<(&PathBuf, &str)>)
        ensures
            match r {
                Some((p, t)) => self.file() == Some(*p) && self.current() == Some(t@),
                None => self.file() is None || self.current() is None,
            },
    {
        match (&self.token, &self.token_file) {
            (Some(t), Some(p)) => Some((p, t.as_str())),
            _ => None,
        }
    }

    /// Extracts a token from a Samsung TV WebSocket response.
    ///
    /// The TV sends a response like:
    /// ```json
    /// {
    ///   "event": "ms.channel.connect",
    ///   "data": {
    ///     "token": "12345678"
    ///   }
    /// }
    /// ```
    pub fn extract_from_response(response: &str) -> (r: Option<String>)
        ensures
            match r {
                Some(t) => response_token(response@) == Some(t@),
                None => response_token(response@) is None,
            },
    {
        let doc = match parse_json(response) {
            Some(d) => d,
            None => return None,
        };
        let event = match json_get(&doc, "event") {
            Some(e) => e,
            None => return None,
        };
        let event = match json_as_str(event) {
            Some(e) => e,
            None => return None,
        };
        if !str_eq(event, "ms.channel.connect") {
            return None;
        }
        let data = match json_get(&doc, "data") {
            Some(d) => d,
            None => return None,
        };
        let token = match json_get(data, "token") {
            Some(t) => t,
            None => return None,
        };
        let token = match json_as_str(token) {
            Some(t) => t,
            None => return None,
        };
        if token.is_empty() {
            return None;
        }
        Some(owned(token))
    }

    /// Checks if the response indicates an authentication error.
    pub fn is_auth_error(response: &str) -> (r: bool)
        ensures
            r == reports_auth_error(response@),
    {
        let doc = match parse_json(response) {
            Some(d) => d,
            None => return false,
        };
        let event = match json_get(&doc, "event") {
            Some(e) => e,
            None => return false,
        };
        match json_as_str(event) {
            Some(e) => str_eq(e, "ms.channel.unauthorized") || str_eq(e, "ms.error")
                || str_contains(e, "unauthorized"),
            None => false,
        }
    }

    /// Checks if the response indicates a successful connection.
    pub fn is_connected(response: &str) -> (r: bool)
        ensures
            r == reports_connected(response@),
    {
        let doc = match parse_json(response) {
            Some(d) => d,
            None => return false,
        };
        let event = match json_get(&doc, "event") {
            Some(e) => e,
            None => return false,
        };
        match json_as_str(event) {
            Some(e) => str_eq(e, "ms.channel.connect"),
            None => false,
        }
    }
}

impl Default for TokenManager {
    /// A manager with no token and no token file.
    fn default() -> (r: Self)
        ensures
            r.current() is None,
            r.file() is None,
    {
        TokenManager { token: None, token_file: None }
    }
}

/// A token is only ever taken from a message that confirms the connection.
pub proof fn law_token_only_from_connect(text: Seq<char>)
    ensures
        response_token(text) is Some ==> reports_connected(text),
{
}

/// A message that confirms the connection is never read as an
/// authentication error.
pub proof fn law_connect_is_not_auth_error(text: Seq<char>)
    ensures
        reports_connected(text) ==> !reports_auth_error(text),
{
    reveal_strlit("ms.channel.connect");
    reveal_strlit("ms.channel.unauthorized");
    reveal_strlit("ms.error");
    reveal_strlit("unauthorized");
    let c = connect_event();
    assert(c.len() == 18);
    assert("ms.channel.unauthorized"@.len() == 23);
    assert("ms.error"@.len() == 8);
    assert forall|i: int| !#[trigger] occurs_at(c, "unauthorized"@, i) by {
        if occurs_at(c, "unauthorized"@, i) {
            assert(c.subrange(i, i + 12)[0] == "unauthorized"@[0]);
            assert("unauthorized"@[0] == 'u');
            assert(0 <= i <= 6);
            assert(c[0] == 'm' && c[1] == 's' && c[2] == '.' && c[3] == 'c' && c[4] == 'h' && c[5]
                == 'a' && c[6] == 'n');
        }
    }
}

/// A token that is not empty and has no white space at either end is read
/// back from the token file as itself: loading keeps the trimmed contents,
/// and trimming leaves such a token unchanged.
pub proof fn law_saved_token_reloads(t: Seq<char>)
    requires
        t.len() > 0,
        !is_white_space(t[0]),
        !is_white_space(t.last()),
    ensures
        trimmed(t) == t,
{
    assert(trim_start(t) == t);
    assert(trim_end(t) == t);
}

} // verus!

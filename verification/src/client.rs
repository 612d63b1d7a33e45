//! The TV client's decisions: which token a connection uses, and the steps
//! (messages to send, replies to await, pauses) that each remote-control
//! operation takes. The socket and the timers live with the caller, which
//! performs the steps in order and stops at the first failed send.
use std::collections::HashMap;
use std::time::Duration;

use crate::apps::{AppLaunchPayload, AppListPayload, TIZEN_BROWSER_APP_ID};
use crate::auth::TokenManager;
use crate::commands::keys::key_code;
use crate::commands::{
    command_key, command_payload_json, command_type_code, Command, CommandPayload,
    CommandType, Key, RemoteCommand,
};
use crate::config::{duration_nanos, millis, SamsungTvConfig};
use crate::encoding::{base64_fits, base64_standard, encode_base64};
use crate::json::{json_quoted, quote_json};
use crate::text::{decimal, push_decimal};
use vstd::prelude::*;
use vstd::utf8::encode_utf8;

verus! {

/// Device information from the TV's REST API.
#[derive(Debug, Clone)]
#[allow(non_snake_case)]
pub struct DeviceInfo {
    pub FrameTVSupport: Option<String>,
    pub GamePadSupport: Option<String>,
    pub ImeSyncedSupport: Option<String>,
    pub OS: Option<String>,
    pub TokenAuthSupport: Option<String>,
    pub VoiceSupport: Option<String>,
    pub countryCode: Option<String>,
    pub description: Option<String>,
    pub developerIP: Option<String>,
    pub developerMode: Option<String>,
    pub duid: Option<String>,
    pub firmwareVersion: Option<String>,
    pub id: Option<String>,
    pub ip: Option<String>,
    pub model: Option<String>,
    pub modelName: Option<String>,
    pub name: Option<String>,
    pub networkType: Option<String>,
    pub resolution: Option<String>,
    pub smartHubAgreement: Option<String>,
    pub ssid: Option<String>,
    pub device_type: Option<String>,
    pub udn: Option<String>,
    pub wifiMac: Option<String>,
}

/// TV information response.
#[derive(Debug, Clone)]
pub struct TvInfo {
    pub device: DeviceInfo,
    pub id: String,
    pub is_support: HashMap<String, String>,
    pub name: String,
    pub remote: String,
    pub device_type: String,
    pub uri: String,
    pub version: String,
}

/// One step of a remote-control operation.
#[derive(Debug)]
pub enum Step {
    /// Send this text frame; a failed send ends the operation with its error.
    Send(String),
    /// Wait up to this long for a reply, whatever it is (errors included).
    AwaitReply(Duration),
    /// Sleep this long.
    Pause(Duration),
}

/// A step as the contracts see it: the text sent, or a duration in
/// nanoseconds.
pub enum Action {
    Send(Seq<char>),
    Await(nat),
    Pause(nat),
}

/// The action of a step.
pub open spec fn action_of(s: Step) -> Action {
    match s {
        Step::Send(t) => Action::Send(t@),
        Step::AwaitReply(d) => Action::Await(duration_nanos(d)),
        Step::Pause(d) => Action::Pause(duration_nanos(d)),
    }
}

/// The actions of a list of steps.
pub open spec fn actions(v: Seq<Step>) -> Seq<Action> {
    v.map_values(|s: Step| action_of(s))
}

/// The JSON text of a remote-control message for `key` with command type
/// `t`.
pub open spec fn key_message(t: CommandType, key: Key) -> Seq<char> {
    "{\"method\":"@ + json_quoted("ms.remote.control"@) + ",\"params\":{\"Cmd\":"@ + json_quoted(
        command_type_code(t),
    ) + ",\"DataOfCmd\":"@ + json_quoted(key_code(key)) + ",\"Option\":"@ + json_quoted(
        "false"@,
    ) + ",\"TypeOfRemote\":"@ + json_quoted("SendRemoteKey"@) + "}}"@
}

/// The JSON text of an app-launch message.
pub open spec fn launch_message(
    app_id: Seq<char>,
    action_type: Seq<char>,
    meta: Option<Seq<char>>,
) -> Seq<char> {
    "{\"method\":"@ + json_quoted("ms.channel.emit"@) + ",\"params\":{\"event\":"@ + json_quoted(
        "ed.apps.launch"@,
    ) + ",\"to\":"@ + json_quoted("host"@) + ",\"data\":{\"appId\":"@ + json_quoted(app_id)
        + ",\"action_type\":"@ + json_quoted(action_type) + match meta {
        Some(m) => ",\"metaTag\":"@ + json_quoted(m),
        None => ""@,
    } + "}}}"@
}

/// The JSON text of a text-input message: the text goes base64-encoded as
/// `Cmd`, members in the sorted order in which a JSON object is written.
pub open spec fn text_message(text: Seq<char>) -> Seq<char> {
    "{\"method\":"@ + json_quoted("ms.remote.control"@) + ",\"params\":{\"Cmd\":"@ + json_quoted(
        base64_standard(encode_utf8(text)),
    ) + ",\"DataOfCmd\":"@ + json_quoted("base64"@) + ",\"TypeOfRemote\":"@ + json_quoted(
        "SendInputString"@,
    ) + "}}"@
}

/// Sending one key: the click message, then waiting for a reply.
pub open spec fn key_actions(c: SamsungTvConfig, key: Key) -> Seq<Action> {
    seq![
        Action::Send(key_message(CommandType::Click, key)),
        Action::Await(duration_nanos(c.timeout)),
    ]
}

/// Sending several keys: each key's actions followed by the key delay.
pub open spec fn keys_actions(c: SamsungTvConfig, keys: Seq<Key>) -> Seq<Action>
    decreases keys.len(),
{
    if keys.len() == 0 {
        seq![]
    } else {
        keys_actions(c, keys.drop_last()) + key_actions(c, keys.last()) + seq![
            Action::Pause(duration_nanos(c.key_delay)),
        ]
    }
}

/// The text of the message for `key` with command type `t`.
fn key_message_text(t: CommandType, key: Key) -> (r: String)
    ensures
        r@ == key_message(t, key),
{
    let cmd = RemoteCommand { key, cmd_type: t };
    cmd.to_payload().to_json()
}

/// The configuration a connection uses: an explicit token wins; without
/// one, the token loaded from the token file (if any) is used.
pub fn connect_config(config: SamsungTvConfig, loaded: Option<String>) -> (r: SamsungTvConfig)
    ensures
        config.token is Some ==> r == config,
        config.token is None ==> r == (SamsungTvConfig { token: loaded, ..config }),
{
    if config.token.is_none() {
        SamsungTvConfig { token: loaded, ..config }
    } else {
        config
    }
}

/// The configuration of the legacy constructor: `host` on `port`, with the
/// client name `name` and the other defaults of `SamsungTvConfig::new`.
pub fn legacy_config(host: &str, port: u16, name: &str) -> (r: SamsungTvConfig)
    ensures
        r.host@ == host@,
        r.port == port,
        r.name@ == name@,
        !r.use_tls,
        r.token is None,
        r.token_file is None,
        duration_nanos(r.timeout) == 5_000_000_000,
        duration_nanos(r.key_delay) == 300_000_000,
        r.auto_reconnect,
{
    SamsungTvConfig::new(host).port(port).name(name).build()
}

/// The URL of the TV's REST information endpoint.
pub open spec fn info_url_text(host: Seq<char>, port: u16) -> Seq<char> {
    "http://"@ + host + ":"@ + decimal(port as nat) + "/api/v2/"@
}

/// Builds the URL of the TV's REST information endpoint.
pub fn info_url(host: &str, port: u16) -> (r: String)
    ensures
        r@ == info_url_text(host@, port),
{
    let mut url = String::new();
    url.append("http://");
    url.append(host);
    url.append(":");
    push_decimal(&mut url, port);
    url.append("/api/v2/");
    url
}

/// The TV client's own state: its configuration and its tokens.
#[derive(Debug)]
pub struct Session {
    pub config: SamsungTvConfig,
    pub token_manager: TokenManager,
}

impl Session {
    /// A session with the given configuration and token manager.
    pub fn new(config: SamsungTvConfig, token_manager: TokenManager) -> (r: Self)
        ensures
            r.config == config,
            r.token_manager == token_manager,
    {
        Session { config, token_manager }
    }

    /// Takes in the token that the TV sent when the connection opened: it
    /// becomes the current token, and the result says that it is to be saved.
    pub fn accept_token(&mut self, received: Option<String>) -> (save: bool)
        ensures
            final(self).config == old(self).config,
            final(self).token_manager.file() == old(self).token_manager.file(),
            match received {
                Some(t) => save && final(self).token_manager.current() == Some(t@),
                None => !save && final(self).token_manager == old(self).token_manager,
            },
    {
        match received {
            Some(t) => {
                self.token_manager.set_token(t);
                true
            },
            None => false,
        }
    }

    /// Returns the current authentication token, if any.
    pub fn token(&self) -> (r: Option<&str>)
        ensures
            match r {
                Some(t) => self.token_manager.current() == Some(t@),
                None => self.token_manager.current() is None,
            },
    {
        self.token_manager.token()
    }

    /// The URL of the TV's REST information endpoint, which is always on
    /// port 8001 whatever the WebSocket port.
    pub fn info_url(&self) -> (r: String)
        ensures
            r@ == info_url_text(self.config.host@, 8001),
    {
        info_url(self.config.host.as_str(), 8001)
    }

    /// Sends a single key press to the TV.
    pub fn send_key(&self, key: Key) -> (r: Vec<Step>)
        ensures
            actions(r@) == key_actions(self.config, key),
    {
        let mut r: Vec<Step> = Vec::new();
        r.push(Step::Send(key_message_text(CommandType::Click, key)));
        r.push(Step::AwaitReply(self.config.timeout));
        assert(actions(r@) =~= key_actions(self.config, key));
        r
    }

    /// Sends multiple key presses with a delay between each.
    pub fn send_keys(&self, keys: &[Key]) -> (r: Vec<Step>)
        ensures
            actions(r@) == keys_actions(self.config, keys@),
    {
        let mut r: Vec<Step> = Vec::new();
        let mut i: usize = 0;
        assert(keys@.take(0) =~= Seq::<Key>::empty());
        assert(actions(r@) =~= Seq::<Action>::empty());
        while i < keys.len()
            invariant
                i <= keys.len(),
                actions(r@) == keys_actions(self.config, keys@.take(i as int)),
            decreases keys.len() - i,
        {
            let ghost before = r@;
            let key = keys[i];
            r.push(Step::Send(key_message_text(CommandType::Click, key)));
            r.push(Step::AwaitReply(self.config.timeout));
            r.push(Step::Pause(self.config.key_delay));
            assert(keys@.take(i + 1).drop_last() =~= keys@.take(i as int));
            assert(keys@.take(i + 1).last() == key);
            assert(actions(r@) =~= actions(before) + key_actions(self.config, key) + seq![
                Action::Pause(duration_nanos(self.config.key_delay)),
            ]);
            i = i + 1;
        }
        assert(keys@.take(keys.len() as int) =~= keys@);
        r
    }

    /// Holds a key for the specified duration: press, wait, release.
    pub fn hold_key(&self, key: Key, duration: Duration) -> (r: Vec<Step>)
        ensures
            actions(r@) == seq![
                Action::Send(key_message(CommandType::Press, key)),
                Action::Pause(duration_nanos(duration)),
                Action::Send(key_message(CommandType::Release, key)),
            ],
    {
        let mut r: Vec<Step> = Vec::new();
        r.push(Step::Send(key_message_text(CommandType::Press, key)));
        r.push(Step::Pause(duration));
        r.push(Step::Send(key_message_text(CommandType::Release, key)));
        assert(actions(r@) =~= seq![
            Action::Send(key_message(CommandType::Press, key)),
            Action::Pause(duration_nanos(duration)),
            Action::Send(key_message(CommandType::Release, key)),
        ]);
        r
    }

    /// The request for the installed apps list; the caller sends it and
    /// reads the list from the reply.
    pub fn list_apps_request(&self) -> (r: String)
        ensures
            r@ == "{\"method\":"@ + json_quoted("ms.channel.emit"@) + ",\"params\":{\"event\":"@
                + json_quoted("ed.installedApp.get"@) + ",\"data\":{}}}"@,
    {
        AppListPayload::new().to_json()
    }

    /// Launches an app by its ID.
    pub fn launch_app(&self, app_id: &str) -> (r: Vec<Step>)
        ensures
            actions(r@) == seq![
                Action::Send(launch_message(app_id@, "DEEP_LINK"@, None)),
                Action::Await(duration_nanos(self.config.timeout)),
            ],
    {
        let payload = AppLaunchPayload::launch(app_id);
        let text = payload.to_json();
        proof {
            reveal_strlit("");
        }
        let mut r: Vec<Step> = Vec::new();
        r.push(Step::Send(text));
        r.push(Step::AwaitReply(self.config.timeout));
        assert(actions(r@) =~= seq![
            Action::Send(launch_message(app_id@, "DEEP_LINK"@, None)),
            Action::Await(duration_nanos(self.config.timeout)),
        ]);
        r
    }

    /// Launches an app with deep link metadata.
    pub fn launch_app_with_meta(&self, app_id: &str, meta: &str) -> (r: Vec<Step>)
        ensures
            actions(r@) == seq![
                Action::Send(launch_message(app_id@, "DEEP_LINK"@, Some(meta@))),
                Action::Await(duration_nanos(self.config.timeout)),
            ],
    {
        let payload = AppLaunchPayload::launch_with_meta(app_id, meta);
        let text = payload.to_json();
        let mut r: Vec<Step> = Vec::new();
        r.push(Step::Send(text));
        r.push(Step::AwaitReply(self.config.timeout));
        assert(actions(r@) =~= seq![
            Action::Send(launch_message(app_id@, "DEEP_LINK"@, Some(meta@))),
            Action::Await(duration_nanos(self.config.timeout)),
        ]);
        r
    }

    /// Opens a URL in the TV's web browser.
    ///
    /// Sends `KEY_EXIT` first to bail out of any currently running app —
    /// without this, launching the browser is a no-op on most Tizen versions
    /// when a streaming app is in the foreground — then waits 500 ms.
    pub fn open_browser(&self, url: &str) -> (r: Vec<Step>)
        ensures
            actions(r@) == key_actions(self.config, Key::Exit) + seq![
                Action::Pause(500_000_000),
                Action::Send(launch_message(TIZEN_BROWSER_APP_ID@, "NATIVE_LAUNCH"@, Some(url@))),
                Action::Await(duration_nanos(self.config.timeout)),
            ],
    {
        let mut r = self.send_key(Key::Exit);
        let ghost before = r@;
        r.push(Step::Pause(millis(500)));
        let payload = AppLaunchPayload::open_browser(url);
        r.push(Step::Send(payload.to_json()));
        r.push(Step::AwaitReply(self.config.timeout));
        assert(actions(r@) =~= actions(before) + seq![
            Action::Pause(500_000_000),
            Action::Send(launch_message(TIZEN_BROWSER_APP_ID@, "NATIVE_LAUNCH"@, Some(url@))),
            Action::Await(duration_nanos(self.config.timeout)),
        ]);
        r
    }

    /// Sends text input to the TV.
    ///
    /// Use this when a text field is focused on the TV.
    pub fn send_text(&self, text: &str) -> (r: Vec<Step>)
        requires
            base64_fits(encode_utf8(text@).len()),
        ensures
            actions(r@) == seq![
                Action::Send(text_message(text@)),
                Action::Await(duration_nanos(self.config.timeout)),
            ],
    {
        let encoded = encode_base64(text.as_bytes());
        let mut out = String::new();
        out.append("{\"method\":");
        out.append(quote_json("ms.remote.control").as_str());
        out.append(",\"params\":{\"Cmd\":");
        out.append(quote_json(encoded.as_str()).as_str());
        out.append(",\"DataOfCmd\":");
        out.append(quote_json("base64").as_str());
        out.append(",\"TypeOfRemote\":");
        out.append(quote_json("SendInputString").as_str());
        out.append("}}");
        let mut r: Vec<Step> = Vec::new();
        r.push(Step::Send(out));
        r.push(Step::AwaitReply(self.config.timeout));
        assert(actions(r@) =~= seq![
            Action::Send(text_message(text@)),
            Action::Await(duration_nanos(self.config.timeout)),
        ]);
        r
    }
}

/// The legacy `send_command` repeated `repeat` times: each round's key
/// actions followed by the key delay.
pub open spec fn command_actions(c: SamsungTvConfig, command: Command, repeat: nat) -> Seq<Action>
    decreases repeat,
{
    if repeat == 0 {
        seq![]
    } else {
        command_actions(c, command, (repeat - 1) as nat) + key_actions(c, command_key(command))
            + seq![Action::Pause(duration_nanos(c.key_delay))]
    }
}

impl Session {
    /// The legacy `send_command`: the command's key sent `repeat` times,
    /// each time followed by the key delay.
    pub fn send_command(&self, command: Command, repeat: usize) -> (r: Vec<Step>)
        ensures
            actions(r@) == command_actions(self.config, command, repeat as nat),
    {
        let mut r: Vec<Step> = Vec::new();
        let mut i: usize = 0;
        assert(actions(r@) =~= Seq::<Action>::empty());
        while i < repeat
            invariant
                i <= repeat,
                actions(r@) == command_actions(self.config, command, i as nat),
            decreases repeat - i,
        {
            let ghost before = r@;
            let key = command.to_key();
            r.push(Step::Send(key_message_text(CommandType::Click, key)));
            r.push(Step::AwaitReply(self.config.timeout));
            r.push(Step::Pause(self.config.key_delay));
            assert(actions(r@) =~= actions(before) + key_actions(self.config, command_key(command))
                + seq![Action::Pause(duration_nanos(self.config.key_delay))]);
            i = i + 1;
        }
        r
    }
}

/// What the legacy `send_command` answers when every round went through:
/// one empty response per round.
pub fn command_responses(repeat: usize) -> (r: Vec<String>)
    ensures
        r@.len() == repeat,
        forall|i: int| 0 <= i < repeat ==> #[trigger] r@[i]@ == Seq::<char>::empty(),
{
    let mut r: Vec<String> = Vec::new();
    let mut i: usize = 0;
    while i < repeat
        invariant
            i <= repeat,
            r@.len() == i,
            forall|k: int| 0 <= k < i ==> #[trigger] r@[k]@ == Seq::<char>::empty(),
        decreases repeat - i,
    {
        r.push(String::new());
        i = i + 1;
    }
    r
}

/// What performing a step came to.
pub enum StepOutcome {
    /// The text frame was sent.
    Sent,
    /// Sending the text frame failed.
    SendFailed,
    /// The wait for a reply ended: a reply, no reply in time, or a receive
    /// error, none of which matters to the plan.
    Waited,
    /// The pause is over.
    Paused,
}

/// A plan being performed: its steps, how many have been performed, and
/// whether a failed send has ended it.
pub struct PlanRun {
    steps: Vec<Step>,
    done: usize,
    failed: bool,
}

impl PlanRun {
    /// The steps of the plan.
    pub closed spec fn plan(&self) -> Seq<Step> {
        self.steps@
    }

    /// How many steps have been performed.
    pub closed spec fn performed(&self) -> nat {
        self.done as nat
    }

    /// Whether a failed send has ended the run.
    pub closed spec fn has_failed(&self) -> bool {
        self.failed
    }

    /// A run that has performed nothing yet.
    pub fn new(steps: Vec<Step>) -> (r: Self)
        ensures
            r.plan() == steps@,
            r.performed() == 0,
            !r.has_failed(),
    {
        PlanRun { steps, done: 0, failed: false }
    }

    /// The step to perform next: none once the plan is through or a send
    /// has failed.
    pub fn next(&self) -> (r: Option<&Step>)
        ensures
            self.performed() <= self.plan().len() ==> match r {
                Some(s) => !self.has_failed() && self.performed() < self.plan().len() && *s
                    == self.plan()[self.performed() as int],
                None => self.has_failed() || self.performed() >= self.plan().len(),
            },
    {
        if self.failed || self.done >= self.steps.len() {
            None
        } else {
            Some(&self.steps[self.done])
        }
    }

    /// Takes in the outcome of the step `next` gave: a failed send ends the
    /// run; any other outcome moves on to the following step.
    pub fn advance(&mut self, outcome: StepOutcome)
        requires
            !old(self).has_failed(),
            old(self).performed() < old(self).plan().len(),
        ensures
            final(self).plan() == old(self).plan(),
            final(self).performed() == old(self).performed() + 1,
            final(self).has_failed() == (outcome is SendFailed),
    {
        assert(self.steps@.len() == self.steps.len());
        self.done = self.done + 1;
        if let StepOutcome::SendFailed = outcome {
            self.failed = true;
        }
    }

    /// Whether the run ended on a failed send.
    pub fn failed(&self) -> (r: bool)
        ensures
            r == self.has_failed(),
    {
        self.failed
    }
}

/// The message for a key is the remote-control payload of that key and
/// command type, as `RemoteCommand::to_payload` builds it and `to_json`
/// writes it: method `ms.remote.control`, `Cmd` the command type, `DataOfCmd`
/// the key's protocol string, `Option` "false", `TypeOfRemote`
/// "SendRemoteKey".
pub proof fn law_key_message_is_payload(t: CommandType, key: Key, p: CommandPayload)
    requires
        p.method@ == "ms.remote.control"@,
        p.params.cmd@ == command_type_code(t),
        p.params.data_of_cmd@ == key_code(key),
        p.params.option@ == "false"@,
        p.params.type_of_remote@ == "SendRemoteKey"@,
    ensures
        key_message(t, key) == command_payload_json(p),
        key_message(t, key) == "{\"method\":"@ + json_quoted("ms.remote.control"@)
            + ",\"params\":{\"Cmd\":"@ + json_quoted(command_type_code(t)) + ",\"DataOfCmd\":"@
            + json_quoted(key_code(key)) + ",\"Option\":"@ + json_quoted("false"@)
            + ",\"TypeOfRemote\":"@ + json_quoted("SendRemoteKey"@) + "}}"@,
{
}

/// Sending a key is one click of that key followed by a wait for the reply,
/// bounded by the configured timeout.
pub proof fn law_send_key_is_a_click(c: SamsungTvConfig, key: Key)
    ensures
        key_actions(c, key).len() == 2,
        key_actions(c, key)[0] == Action::Send(key_message(CommandType::Click, key)),
        key_actions(c, key)[1] == Action::Await(duration_nanos(c.timeout)),
{
}

/// Sending keys clicks each key in turn: for the i-th key, a click of that
/// key, a wait for the reply, then the key delay; nothing else is sent.
pub proof fn law_send_keys_clicks_each_key(c: SamsungTvConfig, keys: Seq<Key>)
    ensures
        keys_actions(c, keys).len() == 3 * keys.len(),
        forall|i: int|
            0 <= i < keys.len() ==> {
                &&& #[trigger] keys_actions(c, keys)[3 * i] == Action::Send(
                    key_message(CommandType::Click, keys[i]),
                )
                &&& keys_actions(c, keys)[3 * i + 1] == Action::Await(duration_nanos(c.timeout))
                &&& keys_actions(c, keys)[3 * i + 2] == Action::Pause(
                    duration_nanos(c.key_delay),
                )
            },
    decreases keys.len(),
{
    if keys.len() > 0 {
        let prev = keys.drop_last();
        law_send_keys_clicks_each_key(c, prev);
        assert forall|i: int| 0 <= i < keys.len() implies {
            &&& #[trigger] keys_actions(c, keys)[3 * i] == Action::Send(
                key_message(CommandType::Click, keys[i]),
            )
            &&& keys_actions(c, keys)[3 * i + 1] == Action::Await(duration_nanos(c.timeout))
            &&& keys_actions(c, keys)[3 * i + 2] == Action::Pause(duration_nanos(c.key_delay))
        } by {
            if i < keys.len() - 1 {
                assert(prev[i] == keys[i]);
                assert(keys_actions(c, prev)[3 * i] == Action::Send(
                    key_message(CommandType::Click, prev[i]),
                ));
            }
        }
    }
}

/// Sending the keys of `a` and then those of `b` is sending the keys of
/// `a + b`.
pub proof fn law_send_keys_concatenates(c: SamsungTvConfig, a: Seq<Key>, b: Seq<Key>)
    ensures
        keys_actions(c, a + b) == keys_actions(c, a) + keys_actions(c, b),
    decreases b.len(),
{
    if b.len() == 0 {
        assert(a + b =~= a);
        assert(keys_actions(c, a) + keys_actions(c, b) =~= keys_actions(c, a));
    } else {
        law_send_keys_concatenates(c, a, b.drop_last());
        assert((a + b).drop_last() =~= a + b.drop_last());
        assert((a + b).last() == b.last());
        assert(keys_actions(c, a + b) =~= keys_actions(c, a) + keys_actions(c, b));
    }
}

/// The legacy command sends its key's click `repeat` times: round i is a
/// click of the command's key, a wait for the reply, then the key delay.
pub proof fn law_send_command_repeats_clicks(c: SamsungTvConfig, command: Command, repeat: nat)
    ensures
        command_actions(c, command, repeat).len() == 3 * repeat,
        forall|i: int|
            0 <= i < repeat ==> {
                &&& #[trigger] command_actions(c, command, repeat)[3 * i] == Action::Send(
                    key_message(CommandType::Click, command_key(command)),
                )
                &&& command_actions(c, command, repeat)[3 * i + 1] == Action::Await(
                    duration_nanos(c.timeout),
                )
                &&& command_actions(c, command, repeat)[3 * i + 2] == Action::Pause(
                    duration_nanos(c.key_delay),
                )
            },
    decreases repeat,
{
    if repeat > 0 {
        law_send_command_repeats_clicks(c, command, (repeat - 1) as nat);
    }
}

/// The text message carries, as `Cmd`, the base64 of the text's UTF-8
/// bytes (so decoding `Cmd` and reading it as UTF-8 gives the text back),
/// with `DataOfCmd` "base64" and `TypeOfRemote` "SendInputString".
pub proof fn law_text_message_carries_utf8(text: Seq<char>)
    ensures
        text_message(text) == "{\"method\":"@ + json_quoted("ms.remote.control"@)
            + ",\"params\":{\"Cmd\":"@ + json_quoted(base64_standard(encode_utf8(text)))
            + ",\"DataOfCmd\":"@ + json_quoted("base64"@) + ",\"TypeOfRemote\":"@ + json_quoted(
            "SendInputString"@,
        ) + "}}"@,
{
}

/// The launch message names the app as `appId`, the launch kind as
/// `action_type`, and the deep link, when there is one, as `metaTag`.
pub proof fn law_launch_message_fields(
    app_id: Seq<char>,
    action_type: Seq<char>,
    meta: Option<Seq<char>>,
)
    ensures
        launch_message(app_id, action_type, None) == "{\"method\":"@ + json_quoted(
            "ms.channel.emit"@,
        ) + ",\"params\":{\"event\":"@ + json_quoted("ed.apps.launch"@) + ",\"to\":"@
            + json_quoted("host"@) + ",\"data\":{\"appId\":"@ + json_quoted(app_id)
            + ",\"action_type\":"@ + json_quoted(action_type) + ""@ + "}}}"@,
        meta matches Some(m) ==> launch_message(app_id, action_type, meta) == "{\"method\":"@
            + json_quoted("ms.channel.emit"@) + ",\"params\":{\"event\":"@ + json_quoted(
            "ed.apps.launch"@,
        ) + ",\"to\":"@ + json_quoted("host"@) + ",\"data\":{\"appId\":"@ + json_quoted(app_id)
            + ",\"action_type\":"@ + json_quoted(action_type) + (",\"metaTag\":"@ + json_quoted(m))
            + "}}}"@,
{
}

} // verus!

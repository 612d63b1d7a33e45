//! Remote control commands for Samsung TVs: command types, the commands
//! that pair them with a key, and the JSON payloads that carry them.
pub mod keys;

pub use keys::Key;

use crate::json::{json_quoted, quote_json};
use crate::text::owned;
use keys::key_code;
use vstd::prelude::*;

verus! {

/// Type of command to send to the TV.
#[derive(Debug, Clone, Copy, PartialEq, Eq, Structural)]
pub enum CommandType {
    /// Single key press (press and release).
    Click,
    /// Key down event (for holding keys).
    Press,
    /// Key up event (for releasing held keys).
    Release,
}

impl Default for CommandType {
    /// The default command type is a click.
    fn default() -> (r: Self)
        ensures
            r == CommandType::Click,
    {
        CommandType::Click
    }
}

/// The Samsung protocol string of each command type.
pub open spec fn command_type_code(t: CommandType) -> Seq<char> {
    match t {
        CommandType::Click => "Click"@,
        CommandType::Press => "Press"@,
        CommandType::Release => "Release"@,
    }
}

impl CommandType {
    /// Returns the Samsung protocol string for this command type.
    pub fn as_str(&self) -> (r: &'static str)
        ensures
            r@ == command_type_code(*self),
    {
        match self {
            CommandType::Click => "Click",
            CommandType::Press => "Press",
            CommandType::Release => "Release",
        }
    }
}

/// A remote control command to send to the TV.
#[derive(Debug, Clone)]
pub struct RemoteCommand {
    /// The key to send.
    pub key: Key,
    /// The type of command (click, press, release).
    pub cmd_type: CommandType,
}

impl RemoteCommand {
    /// Creates a new click command for the specified key.
    pub fn click(key: Key) -> (r: Self)
        ensures
            r.key == key,
            r.cmd_type == CommandType::Click,
    {
        RemoteCommand { key, cmd_type: CommandType::Click }
    }

    /// Creates a new press (key down) command for the specified key.
    pub fn press(key: Key) -> (r: Self)
        ensures
            r.key == key,
            r.cmd_type == CommandType::Press,
    {
        RemoteCommand { key, cmd_type: CommandType::Press }
    }

    /// Creates a new release (key up) command for the specified key.
    pub fn release(key: Key) -> (r: Self)
        ensures
            r.key == key,
            r.cmd_type == CommandType::Release,
    {
        RemoteCommand { key, cmd_type: CommandType::Release }
    }

    /// Converts this command to a JSON payload for the WebSocket API.
    pub fn to_payload(&self) -> (r: CommandPayload)
        ensures
            r.method@ == "ms.remote.control"@,
            r.params.cmd@ == command_type_code(self.cmd_type),
            r.params.data_of_cmd@ == key_code(self.key),
            r.params.option@ == "false"@,
            r.params.type_of_remote@ == "SendRemoteKey"@,
    {
        CommandPayload {
            method: owned("ms.remote.control"),
            params: CommandParams {
                cmd: owned(self.cmd_type.as_str()),
                data_of_cmd: owned(self.key.as_str()),
                option: owned("false"),
                type_of_remote: owned("SendRemoteKey"),
            },
        }
    }
}

/// WebSocket command payload.
#[derive(Debug)]
pub struct CommandPayload {
    pub method: String,
    pub params: CommandParams,
}

/// Parameters for a remote control command.
#[derive(Debug)]
pub struct CommandParams {
    pub cmd: String,
    pub data_of_cmd: String,
    pub option: String,
    pub type_of_remote: String,
}

/// The JSON text of a command payload, members in declaration order with the
/// protocol's names (`Cmd`, `DataOfCmd`, `Option`, `TypeOfRemote`).
pub open spec fn command_payload_json(p: CommandPayload) -> Seq<char> {
    "{\"method\":"@ + json_quoted(p.method@) + ",\"params\":{\"Cmd\":"@ + json_quoted(
        p.params.cmd@,
    ) + ",\"DataOfCmd\":"@ + json_quoted(p.params.data_of_cmd@) + ",\"Option\":"@
        + json_quoted(p.params.option@) + ",\"TypeOfRemote\":"@ + json_quoted(
        p.params.type_of_remote@,
    ) + "}}"@
}

impl CommandPayload {
    /// The JSON text sent over the WebSocket for this payload.
    pub fn to_json(&self) -> (r: String)
        ensures
            r@ == command_payload_json(*self),
    {
        let mut out = String::new();
        out.append("{\"method\":");
        out.append(quote_json(self.method.as_str()).as_str());
        out.append(",\"params\":{\"Cmd\":");
        out.append(quote_json(self.params.cmd.as_str()).as_str());
        out.append(",\"DataOfCmd\":");
        out.append(quote_json(self.params.data_of_cmd.as_str()).as_str());
        out.append(",\"Option\":");
        out.append(quote_json(self.params.option.as_str()).as_str());
        out.append(",\"TypeOfRemote\":");
        out.append(quote_json(self.params.type_of_remote.as_str()).as_str());
        out.append("}}");
        out
    }
}

// === Backward Compatibility ===
/// Legacy command enum, kept for backward compatibility; use `Key` instead.
#[derive(Debug, Clone, Copy, PartialEq, Eq, Structural)]
pub enum Command {
    KeyVolUp,
    KeyVolDown,
    KeyMute,
    KeyPower,
    KeyHome,
}

/// The Samsung protocol string of each legacy command.
pub open spec fn command_code(c: Command) -> Seq<char> {
    match c {
        Command::KeyVolUp => "KEY_VOLUP"@,
        Command::KeyVolDown => "KEY_VOLDOWN"@,
        Command::KeyMute => "KEY_MUTE"@,
        Command::KeyPower => "KEY_POWER"@,
        Command::KeyHome => "KEY_HOME"@,
    }
}

/// The key that stands for each legacy command.
pub open spec fn command_key(c: Command) -> Key {
    match c {
        Command::KeyVolUp => Key::VolumeUp,
        Command::KeyVolDown => Key::VolumeDown,
        Command::KeyMute => Key::Mute,
        Command::KeyPower => Key::Power,
        Command::KeyHome => Key::Home,
    }
}

impl Command {
    /// Returns the Samsung protocol string for this command.
    pub fn as_str(&self) -> (r: &'static str)
        ensures
            r@ == command_code(*self),
    {
        match self {
            Command::KeyVolUp => "KEY_VOLUP",
            Command::KeyVolDown => "KEY_VOLDOWN",
            Command::KeyMute => "KEY_MUTE",
            Command::KeyPower => "KEY_POWER",
            Command::KeyHome => "KEY_HOME",
        }
    }

    /// Converts this legacy command to the new Key type.
    pub fn to_key(&self) -> (r: Key)
        ensures
            r == command_key(*self),
    {
        match self {
            Command::KeyVolUp => Key::VolumeUp,
            Command::KeyVolDown => Key::VolumeDown,
            Command::KeyMute => Key::Mute,
            Command::KeyPower => Key::Power,
            Command::KeyHome => Key::Home,
        }
    }
}

/// A legacy command and the key it converts to carry the same protocol
/// string.
pub proof fn law_legacy_command_keeps_code(c: Command)
    ensures
        key_code(command_key(c)) == command_code(c),
{
}

/// Legacy command constants, kept for backward compatibility; use `Key`
/// directly instead.
pub struct Commands;

impl Commands {
    pub const KEY_VOLUP: Command = Command::KeyVolUp;
    pub const KEY_VOLDOWN: Command = Command::KeyVolDown;
    pub const KEY_MUTE: Command = Command::KeyMute;
    pub const KEY_POWER: Command = Command::KeyPower;
    pub const KEY_HOME: Command = Command::KeyHome;
}

/// The protocol names of the command types: a click, a key press and a key
/// release.
pub proof fn law_command_type_codes()
    ensures
        command_type_code(CommandType::Click) == "Click"@,
        command_type_code(CommandType::Press) == "Press"@,
        command_type_code(CommandType::Release) == "Release"@,
{
}

/// Each legacy command stands for the key of the same name, with that key's
/// protocol string.
pub proof fn law_legacy_commands()
    ensures
        command_key(Command::KeyVolUp) == Key::VolumeUp,
        command_key(Command::KeyVolDown) == Key::VolumeDown,
        command_key(Command::KeyMute) == Key::Mute,
        command_key(Command::KeyPower) == Key::Power,
        command_key(Command::KeyHome) == Key::Home,
        command_code(Command::KeyVolUp) == "KEY_VOLUP"@,
        command_code(Command::KeyVolDown) == "KEY_VOLDOWN"@,
        command_code(Command::KeyMute) == "KEY_MUTE"@,
        command_code(Command::KeyPower) == "KEY_POWER"@,
        command_code(Command::KeyHome) == "KEY_HOME"@,
{
}

} // verus!

//! Samsung TV remote control key codes.
use crate::text::{chars_eq_str, chars_of, owned};
use vstd::prelude::*;

verus! {

/// All available remote control keys for Samsung TVs.
#[derive(Debug, Clone, Copy, PartialEq, Eq, Hash)]
#[non_exhaustive]
pub enum Key {
    // === Power ===
    /// Power toggle
    Power,
    /// Power off only
    PowerOff,

    // === Volume ===
    /// Increase volume
    VolumeUp,
    /// Decrease volume
    VolumeDown,
    /// Toggle mute
    Mute,

    // === Channel ===
    /// Next channel
    ChannelUp,
    /// Previous channel
    ChannelDown,
    /// Show channel list
    ChannelList,
    /// Return to previous channel
    PreviousChannel,

    // === Navigation ===
    /// Navigate up
    Up,
    /// Navigate down
    Down,
    /// Navigate left
    Left,
    /// Navigate right
    Right,
    /// Confirm/Select
    Enter,
    /// Go back
    Return,
    /// Exit current menu
    Exit,
    /// Go to home screen
    Home,
    /// Open menu
    Menu,

    // === Numbers ===
    /// Number 0
    Num0,
    /// Number 1
    Num1,
    /// Number 2
    Num2,
    /// Number 3
    Num3,
    /// Number 4
    Num4,
    /// Number 5
    Num5,
    /// Number 6
    Num6,
    /// Number 7
    Num7,
    /// Number 8
    Num8,
    /// Number 9
    Num9,

    // === Media Playback ===
    /// Start playback
    Play,
    /// Pause playback
    Pause,
    /// Stop playback
    Stop,
    /// Rewind
    Rewind,
    /// Fast forward
    FastForward,
    /// Start recording
    Record,

    // === Color Buttons ===
    /// Red function button
    Red,
    /// Green function button
    Green,
    /// Yellow function button
    Yellow,
    /// Blue function button
    Blue,

    // === Input Sources ===
    /// Open source selection
    Source,
    /// HDMI (generic)
    Hdmi,
    /// HDMI port 1
    Hdmi1,
    /// HDMI port 2
    Hdmi2,
    /// HDMI port 3
    Hdmi3,
    /// HDMI port 4
    Hdmi4,
    /// Component input 1
    Component1,
    /// Component input 2
    Component2,
    /// AV input 1
    Av1,
    /// AV input 2
    Av2,
    /// AV input 3
    Av3,
    /// TV tuner
    Tv,
    /// Digital TV tuner
    Dtv,

    // === Smart Features ===
    /// Open Smart Hub
    SmartHub,
    /// Open apps menu
    Apps,
    /// Open web browser
    Browser,
    /// Open search
    Search,
    /// Activate voice control
    Voice,
    /// Ambient mode (Frame TVs)
    Ambient,

    // === Picture Settings ===
    /// Change picture size
    PictureSize,
    /// Change picture mode
    PictureMode,
    /// Toggle aspect ratio
    AspectRatio,

    // === Settings & Info ===
    /// Open settings menu
    Settings,
    /// Show program info
    Info,
    /// Open TV guide
    Guide,
    /// Open tools menu
    Tools,
    /// Set sleep timer
    Sleep,

    // === Teletext ===
    /// Toggle teletext
    Teletext,
    /// Teletext mix mode
    TeletextMix,

    // === Additional Media Controls ===
    /// Skip to next track/chapter
    Next,
    /// Skip to previous track/chapter
    Previous,

    // === Picture-in-Picture ===
    /// Toggle PIP
    Pip,
    /// Swap PIP windows
    PipSwap,
    /// Change PIP size
    PipSize,
    /// Toggle PIP on/off
    PipOnOff,

    // === 3D (Legacy) ===
    /// Toggle 3D mode
    ThreeD,

    // === Accessibility ===
    /// Toggle subtitles/closed captions
    Subtitle,
    /// Audio description
    AudioDescription,

    // === DVR Functions ===
    /// DVR menu
    DvrMenu,
    /// Live TV
    Live,

    // === Miscellaneous ===
    /// Open E-Manual
    EManual,
    /// Open factory menu (use with caution)
    FactoryMenu,
    /// Toggle auto program
    AutoProgram,
    /// Open contents menu
    Contents,
    /// Social media features
    Social,
    /// Open MTS (audio) menu
    Mts,
    /// Caption/subtitle options
    Caption,
    /// Open network settings
    Network,

    // === Extended Keys ===
    /// Page up in lists
    PageUp,
    /// Page down in lists
    PageDown,
    /// Enter multi-view
    MultiView,
    /// Extra button
    Extra,
    /// Open calendar
    Calendar,
    /// Open email
    Email,
    /// Help menu
    Help,
    /// Open my apps
    MyApps,

    // === Input Method ===
    /// Switch input language
    Language,
    /// Open on-screen keyboard
    Keyboard,

    // === Custom key code
    /// A custom key code not in the standard list
    Custom(&'static str),
}

/// The Samsung protocol string of each key.
pub open spec fn key_code(key: Key) -> Seq<char> {
    match key {
        Key::Power => "KEY_POWER"@,
        Key::PowerOff => "KEY_POWEROFF"@,
        Key::VolumeUp => "KEY_VOLUP"@,
        Key::VolumeDown => "KEY_VOLDOWN"@,
        Key::Mute => "KEY_MUTE"@,
        Key::ChannelUp => "KEY_CHUP"@,
        Key::ChannelDown => "KEY_CHDOWN"@,
        Key::ChannelList => "KEY_CH_LIST"@,
        Key::PreviousChannel => "KEY_PRECH"@,
        Key::Up => "KEY_UP"@,
        Key::Down => "KEY_DOWN"@,
        Key::Left => "KEY_LEFT"@,
        Key::Right => "KEY_RIGHT"@,
        Key::Enter => "KEY_ENTER"@,
        Key::Return => "KEY_RETURN"@,
        Key::Exit => "KEY_EXIT"@,
        Key::Home => "KEY_HOME"@,
        Key::Menu => "KEY_MENU"@,
        Key::Num0 => "KEY_0"@,
        Key::Num1 => "KEY_1"@,
        Key::Num2 => "KEY_2"@,
        Key::Num3 => "KEY_3"@,
        Key::Num4 => "KEY_4"@,
        Key::Num5 => "KEY_5"@,
        Key::Num6 => "KEY_6"@,
        Key::Num7 => "KEY_7"@,
        Key::Num8 => "KEY_8"@,
        Key::Num9 => "KEY_9"@,
        Key::Play => "KEY_PLAY"@,
        Key::Pause => "KEY_PAUSE"@,
        Key::Stop => "KEY_STOP"@,
        Key::Rewind => "KEY_REWIND"@,
        Key::FastForward => "KEY_FF"@,
        Key::Record => "KEY_REC"@,
        Key::Red => "KEY_RED"@,
        Key::Green => "KEY_GREEN"@,
        Key::Yellow => "KEY_YELLOW"@,
        Key::Blue => "KEY_BLUE"@,
        Key::Source => "KEY_SOURCE"@,
        Key::Hdmi => "KEY_HDMI"@,
        Key::Hdmi1 => "KEY_HDMI1"@,
        Key::Hdmi2 => "KEY_HDMI2"@,
        Key::Hdmi3 => "KEY_HDMI3"@,
        Key::Hdmi4 => "KEY_HDMI4"@,
        Key::Component1 => "KEY_COMPONENT1"@,
        Key::Component2 => "KEY_COMPONENT2"@,
        Key::Av1 => "KEY_AV1"@,
        Key::Av2 => "KEY_AV2"@,
        Key::Av3 => "KEY_AV3"@,
        Key::Tv => "KEY_TV"@,
        Key::Dtv => "KEY_DTV"@,
        Key::SmartHub => "KEY_SMART"@,
        Key::Apps => "KEY_APPS"@,
        Key::Browser => "KEY_CONVERGENCE"@,
        Key::Search => "KEY_SEARCH"@,
        Key::Voice => "KEY_VOICE"@,
        Key::Ambient => "KEY_AMBIENT"@,
        Key::PictureSize => "KEY_PICTURE_SIZE"@,
        Key::PictureMode => "KEY_PMODE"@,
        Key::AspectRatio => "KEY_ASPECT"@,
        Key::Settings => "KEY_MENU"@,
        Key::Info => "KEY_INFO"@,
        Key::Guide => "KEY_GUIDE"@,
        Key::Tools => "KEY_TOOLS"@,
        Key::Sleep => "KEY_SLEEP"@,
        Key::Teletext => "KEY_TTX_MIX"@,
        Key::TeletextMix => "KEY_TTX_SUBFACE"@,
        Key::Next => "KEY_FF_"@,
        Key::Previous => "KEY_REWIND_"@,
        Key::Pip => "KEY_PIP_ONOFF"@,
        Key::PipSwap => "KEY_PIP_SWAP"@,
        Key::PipSize => "KEY_PIP_SIZE"@,
        Key::PipOnOff => "KEY_PIP_ONOFF"@,
        Key::ThreeD => "KEY_PANNEL_CHDOWN"@,
        Key::Subtitle => "KEY_SUB_TITLE"@,
        Key::AudioDescription => "KEY_AD"@,
        Key::DvrMenu => "KEY_DVR_MENU"@,
        Key::Live => "KEY_LIVE"@,
        Key::EManual => "KEY_E_MANUAL"@,
        Key::FactoryMenu => "KEY_FACTORY"@,
        Key::AutoProgram => "KEY_AUTO_PROGRAM"@,
        Key::Contents => "KEY_CONTENTS"@,
        Key::Social => "KEY_SOCIAL"@,
        Key::Mts => "KEY_MTS"@,
        Key::Caption => "KEY_CAPTION"@,
        Key::Network => "KEY_NETWORK"@,
        Key::PageUp => "KEY_PAGEUP"@,
        Key::PageDown => "KEY_PAGEDOWN"@,
        Key::MultiView => "KEY_MULTI_VIEW"@,
        Key::Extra => "KEY_EXTRA"@,
        Key::Calendar => "KEY_CALENDAR"@,
        Key::Email => "KEY_EMAIL"@,
        Key::Help => "KEY_HELP"@,
        Key::MyApps => "KEY_ESAVING"@,
        Key::Language => "KEY_LANG"@,
        Key::Keyboard => "KEY_KEYBOARD"@,
        Key::Custom(s) => s@,
    }
}

/// The key that `Key::parse` gives for the protocol string `s`: the first
/// key, in declaration order, whose protocol string is `s` (`Custom` aside).
pub open spec fn parsed_key(s: Seq<char>) -> Option<Key> {
    if s == key_code(Key::Power) {
        Some(Key::Power)
    } else if s == key_code(Key::PowerOff) {
        Some(Key::PowerOff)
    } else if s == key_code(Key::VolumeUp) {
        Some(Key::VolumeUp)
    } else if s == key_code(Key::VolumeDown) {
        Some(Key::VolumeDown)
    } else if s == key_code(Key::Mute) {
        Some(Key::Mute)
    } else if s == key_code(Key::ChannelUp) {
        Some(Key::ChannelUp)
    } else if s == key_code(Key::ChannelDown) {
        Some(Key::ChannelDown)
    } else if s == key_code(Key::ChannelList) {
        Some(Key::ChannelList)
    } else if s == key_code(Key::PreviousChannel) {
        Some(Key::PreviousChannel)
    } else if s == key_code(Key::Up) {
        Some(Key::Up)
    } else if s == key_code(Key::Down) {
        Some(Key::Down)
    } else if s == key_code(Key::Left) {
        Some(Key::Left)
    } else if s == key_code(Key::Right) {
        Some(Key::Right)
    } else if s == key_code(Key::Enter) {
        Some(Key::Enter)
    } else if s == key_code(Key::Return) {
        Some(Key::Return)
    } else if s == key_code(Key::Exit) {
        Some(Key::Exit)
    } else if s == key_code(Key::Home) {
        Some(Key::Home)
    } else if s == key_code(Key::Menu) {
        Some(Key::Menu)
    } else if s == key_code(Key::Num0) {
        Some(Key::Num0)
    } else if s == key_code(Key::Num1) {
        Some(Key::Num1)
    } else if s == key_code(Key::Num2) {
        Some(Key::Num2)
    } else if s == key_code(Key::Num3) {
        Some(Key::Num3)
    } else if s == key_code(Key::Num4) {
        Some(Key::Num4)
    } else if s == key_code(Key::Num5) {
        Some(Key::Num5)
    } else if s == key_code(Key::Num6) {
        Some(Key::Num6)
    } else if s == key_code(Key::Num7) {
        Some(Key::Num7)
    } else if s == key_code(Key::Num8) {
        Some(Key::Num8)
    } else if s == key_code(Key::Num9) {
        Some(Key::Num9)
    } else if s == key_code(Key::Play) {
        Some(Key::Play)
    } else if s == key_code(Key::Pause) {
        Some(Key::Pause)
    } else if s == key_code(Key::Stop) {
        Some(Key::Stop)
    } else if s == key_code(Key::Rewind) {
        Some(Key::Rewind)
    } else if s == key_code(Key::FastForward) {
        Some(Key::FastForward)
    } else if s == key_code(Key::Record) {
        Some(Key::Record)
    } else if s == key_code(Key::Red) {
        Some(Key::Red)
    } else if s == key_code(Key::Green) {
        Some(Key::Green)
    } else if s == key_code(Key::Yellow) {
        Some(Key::Yellow)
    } else if s == key_code(Key::Blue) {
        Some(Key::Blue)
    } else if s == key_code(Key::Source) {
        Some(Key::Source)
    } else if s == key_code(Key::Hdmi) {
        Some(Key::Hdmi)
    } else if s == key_code(Key::Hdmi1) {
        Some(Key::Hdmi1)
    } else if s == key_code(Key::Hdmi2) {
        Some(Key::Hdmi2)
    } else if s == key_code(Key::Hdmi3) {
        Some(Key::Hdmi3)
    } else if s == key_code(Key::Hdmi4) {
        Some(Key::Hdmi4)
    } else if s == key_code(Key::Component1) {
        Some(Key::Component1)
    } else if s == key_code(Key::Component2) {
        Some(Key::Component2)
    } else if s == key_code(Key::Av1) {
        Some(Key::Av1)
    } else if s == key_code(Key::Av2) {
        Some(Key::Av2)
    } else if s == key_code(Key::Av3) {
        Some(Key::Av3)
    } else if s == key_code(Key::Tv) {
        Some(Key::Tv)
    } else if s == key_code(Key::Dtv) {
        Some(Key::Dtv)
    } else if s == key_code(Key::SmartHub) {
        Some(Key::SmartHub)
    } else if s == key_code(Key::Apps) {
        Some(Key::Apps)
    } else if s == key_code(Key::Browser) {
        Some(Key::Browser)
    } else if s == key_code(Key::Search) {
        Some(Key::Search)
    } else if s == key_code(Key::Voice) {
        Some(Key::Voice)
    } else if s == key_code(Key::Ambient) {
        Some(Key::Ambient)
    } else if s == key_code(Key::PictureSize) {
        Some(Key::PictureSize)
    } else if s == key_code(Key::PictureMode) {
        Some(Key::PictureMode)
    } else if s == key_code(Key::AspectRatio) {
        Some(Key::AspectRatio)
    } else if s == key_code(Key::Settings) {
        Some(Key::Settings)
    } else if s == key_code(Key::Info) {
        Some(Key::Info)
    } else if s == key_code(Key::Guide) {
        Some(Key::Guide)
    } else if s == key_code(Key::Tools) {
        Some(Key::Tools)
    } else if s == key_code(Key::Sleep) {
        Some(Key::Sleep)
    } else if s == key_code(Key::Teletext) {
        Some(Key::Teletext)
    } else if s == key_code(Key::TeletextMix) {
        Some(Key::TeletextMix)
    } else if s == key_code(Key::Next) {
        Some(Key::Next)
    } else if s == key_code(Key::Previous) {
        Some(Key::Previous)
    } else if s == key_code(Key::Pip) {
        Some(Key::Pip)
    } else if s == key_code(Key::PipSwap) {
        Some(Key::PipSwap)
    } else if s == key_code(Key::PipSize) {
        Some(Key::PipSize)
    } else if s == key_code(Key::PipOnOff) {
        Some(Key::PipOnOff)
    } else if s == key_code(Key::ThreeD) {
        Some(Key::ThreeD)
    } else if s == key_code(Key::Subtitle) {
        Some(Key::Subtitle)
    } else if s == key_code(Key::AudioDescription) {
        Some(Key::AudioDescription)
    } else if s == key_code(Key::DvrMenu) {
        Some(Key::DvrMenu)
    } else if s == key_code(Key::Live) {
        Some(Key::Live)
    } else if s == key_code(Key::EManual) {
        Some(Key::EManual)
    } else if s == key_code(Key::FactoryMenu) {
        Some(Key::FactoryMenu)
    } else if s == key_code(Key::AutoProgram) {
        Some(Key::AutoProgram)
    } else if s == key_code(Key::Contents) {
        Some(Key::Contents)
    } else if s == key_code(Key::Social) {
        Some(Key::Social)
    } else if s == key_code(Key::Mts) {
        Some(Key::Mts)
    } else if s == key_code(Key::Caption) {
        Some(Key::Caption)
    } else if s == key_code(Key::Network) {
        Some(Key::Network)
    } else if s == key_code(Key::PageUp) {
        Some(Key::PageUp)
    } else if s == key_code(Key::PageDown) {
        Some(Key::PageDown)
    } else if s == key_code(Key::MultiView) {
        Some(Key::MultiView)
    } else if s == key_code(Key::Extra) {
        Some(Key::Extra)
    } else if s == key_code(Key::Calendar) {
        Some(Key::Calendar)
    } else if s == key_code(Key::Email) {
        Some(Key::Email)
    } else if s == key_code(Key::Help) {
        Some(Key::Help)
    } else if s == key_code(Key::MyApps) {
        Some(Key::MyApps)
    } else if s == key_code(Key::Language) {
        Some(Key::Language)
    } else if s == key_code(Key::Keyboard) {
        Some(Key::Keyboard)
    } else {
        None
    }
}

/// The keys that `Key::parse` gives back from their own protocol string:
/// all but `Custom` and the two keys whose string an earlier key already
/// has (`Settings` shares `KEY_MENU` with `Menu`, `PipOnOff` shares
/// `KEY_PIP_ONOFF` with `Pip`).
pub open spec fn parseable(key: Key) -> bool {
    match key {
        Key::Custom(_) => false,
        Key::Settings => false,
        Key::PipOnOff => false,
        _ => true,
    }
}

impl Key {
    /// Returns the Samsung protocol string for this key.
    pub fn as_str(&self) -> (r: &str)
        ensures
            r@ == key_code(*self),
    {
        match self {
            Key::Power => "KEY_POWER",
            Key::PowerOff => "KEY_POWEROFF",
            Key::VolumeUp => "KEY_VOLUP",
            Key::VolumeDown => "KEY_VOLDOWN",
            Key::Mute => "KEY_MUTE",
            Key::ChannelUp => "KEY_CHUP",
            Key::ChannelDown => "KEY_CHDOWN",
            Key::ChannelList => "KEY_CH_LIST",
            Key::PreviousChannel => "KEY_PRECH",
            Key::Up => "KEY_UP",
            Key::Down => "KEY_DOWN",
            Key::Left => "KEY_LEFT",
            Key::Right => "KEY_RIGHT",
            Key::Enter => "KEY_ENTER",
            Key::Return => "KEY_RETURN",
            Key::Exit => "KEY_EXIT",
            Key::Home => "KEY_HOME",
            Key::Menu => "KEY_MENU",
            Key::Num0 => "KEY_0",
            Key::Num1 => "KEY_1",
            Key::Num2 => "KEY_2",
            Key::Num3 => "KEY_3",
            Key::Num4 => "KEY_4",
            Key::Num5 => "KEY_5",
            Key::Num6 => "KEY_6",
            Key::Num7 => "KEY_7",
            Key::Num8 => "KEY_8",
            Key::Num9 => "KEY_9",
            Key::Play => "KEY_PLAY",
            Key::Pause => "KEY_PAUSE",
            Key::Stop => "KEY_STOP",
            Key::Rewind => "KEY_REWIND",
            Key::FastForward => "KEY_FF",
            Key::Record => "KEY_REC",
            Key::Red => "KEY_RED",
            Key::Green => "KEY_GREEN",
            Key::Yellow => "KEY_YELLOW",
            Key::Blue => "KEY_BLUE",
            Key::Source => "KEY_SOURCE",
            Key::Hdmi => "KEY_HDMI",
            Key::Hdmi1 => "KEY_HDMI1",
            Key::Hdmi2 => "KEY_HDMI2",
            Key::Hdmi3 => "KEY_HDMI3",
            Key::Hdmi4 => "KEY_HDMI4",
            Key::Component1 => "KEY_COMPONENT1",
            Key::Component2 => "KEY_COMPONENT2",
            Key::Av1 => "KEY_AV1",
            Key::Av2 => "KEY_AV2",
            Key::Av3 => "KEY_AV3",
            Key::Tv => "KEY_TV",
            Key::Dtv => "KEY_DTV",
            Key::SmartHub => "KEY_SMART",
            Key::Apps => "KEY_APPS",
            Key::Browser => "KEY_CONVERGENCE",
            Key::Search => "KEY_SEARCH",
            Key::Voice => "KEY_VOICE",
            Key::Ambient => "KEY_AMBIENT",
            Key::PictureSize => "KEY_PICTURE_SIZE",
            Key::PictureMode => "KEY_PMODE",
            Key::AspectRatio => "KEY_ASPECT",
            Key::Settings => "KEY_MENU",
            Key::Info => "KEY_INFO",
            Key::Guide => "KEY_GUIDE",
            Key::Tools => "KEY_TOOLS",
            Key::Sleep => "KEY_SLEEP",
            Key::Teletext => "KEY_TTX_MIX",
            Key::TeletextMix => "KEY_TTX_SUBFACE",
            Key::Next => "KEY_FF_",
            Key::Previous => "KEY_REWIND_",
            Key::Pip => "KEY_PIP_ONOFF",
            Key::PipSwap => "KEY_PIP_SWAP",
            Key::PipSize => "KEY_PIP_SIZE",
            Key::PipOnOff => "KEY_PIP_ONOFF",
            Key::ThreeD => "KEY_PANNEL_CHDOWN",
            Key::Subtitle => "KEY_SUB_TITLE",
            Key::AudioDescription => "KEY_AD",
            Key::DvrMenu => "KEY_DVR_MENU",
            Key::Live => "KEY_LIVE",
            Key::EManual => "KEY_E_MANUAL",
            Key::FactoryMenu => "KEY_FACTORY",
            Key::AutoProgram => "KEY_AUTO_PROGRAM",
            Key::Contents => "KEY_CONTENTS",
            Key::Social => "KEY_SOCIAL",
            Key::Mts => "KEY_MTS",
            Key::Caption => "KEY_CAPTION",
            Key::Network => "KEY_NETWORK",
            Key::PageUp => "KEY_PAGEUP",
            Key::PageDown => "KEY_PAGEDOWN",
            Key::MultiView => "KEY_MULTI_VIEW",
            Key::Extra => "KEY_EXTRA",
            Key::Calendar => "KEY_CALENDAR",
            Key::Email => "KEY_EMAIL",
            Key::Help => "KEY_HELP",
            Key::MyApps => "KEY_ESAVING",
            Key::Language => "KEY_LANG",
            Key::Keyboard => "KEY_KEYBOARD",
            Key::Custom(s) => s,
        }
    }

    /// Creates a key from a raw Samsung protocol string.
    ///
    /// Returns `None` if the string doesn't match any known key; where two
    /// keys share a string, the one declared first is returned.
    pub fn parse(s: &str) -> (r: Option<Key>)
        ensures
            r == parsed_key(s@),
    {
        let v = chars_of(s);
        if chars_eq_str(&v, Key::Power.as_str()) {
            Some(Key::Power)
        } else if chars_eq_str(&v, Key::PowerOff.as_str()) {
            Some(Key::PowerOff)
        } else if chars_eq_str(&v, Key::VolumeUp.as_str()) {
            Some(Key::VolumeUp)
        } else if chars_eq_str(&v, Key::VolumeDown.as_str()) {
            Some(Key::VolumeDown)
        } else if chars_eq_str(&v, Key::Mute.as_str()) {
            Some(Key::Mute)
        } else if chars_eq_str(&v, Key::ChannelUp.as_str()) {
            Some(Key::ChannelUp)
        } else if chars_eq_str(&v, Key::ChannelDown.as_str()) {
            Some(Key::ChannelDown)
        } else if chars_eq_str(&v, Key::ChannelList.as_str()) {
            Some(Key::ChannelList)
        } else if chars_eq_str(&v, Key::PreviousChannel.as_str()) {
            Some(Key::PreviousChannel)
        } else if chars_eq_str(&v, Key::Up.as_str()) {
            Some(Key::Up)
        } else if chars_eq_str(&v, Key::Down.as_str()) {
            Some(Key::Down)
        } else if chars_eq_str(&v, Key::Left.as_str()) {
            Some(Key::Left)
        } else if chars_eq_str(&v, Key::Right.as_str()) {
            Some(Key::Right)
        } else if chars_eq_str(&v, Key::Enter.as_str()) {
            Some(Key::Enter)
        } else if chars_eq_str(&v, Key::Return.as_str()) {
            Some(Key::Return)
        } else if chars_eq_str(&v, Key::Exit.as_str()) {
            Some(Key::Exit)
        } else if chars_eq_str(&v, Key::Home.as_str()) {
            Some(Key::Home)
        } else if chars_eq_str(&v, Key::Menu.as_str()) {
            Some(Key::Menu)
        } else if chars_eq_str(&v, Key::Num0.as_str()) {
            Some(Key::Num0)
        } else if chars_eq_str(&v, Key::Num1.as_str()) {
            Some(Key::Num1)
        } else if chars_eq_str(&v, Key::Num2.as_str()) {
            Some(Key::Num2)
        } else if chars_eq_str(&v, Key::Num3.as_str()) {
            Some(Key::Num3)
        } else if chars_eq_str(&v, Key::Num4.as_str()) {
            Some(Key::Num4)
        } else if chars_eq_str(&v, Key::Num5.as_str()) {
            Some(Key::Num5)
        } else if chars_eq_str(&v, Key::Num6.as_str()) {
            Some(Key::Num6)
        } else if chars_eq_str(&v, Key::Num7.as_str()) {
            Some(Key::Num7)
        } else if chars_eq_str(&v, Key::Num8.as_str()) {
            Some(Key::Num8)
        } else if chars_eq_str(&v, Key::Num9.as_str()) {
            Some(Key::Num9)
        } else if chars_eq_str(&v, Key::Play.as_str()) {
            Some(Key::Play)
        } else if chars_eq_str(&v, Key::Pause.as_str()) {
            Some(Key::Pause)
        } else if chars_eq_str(&v, Key::Stop.as_str()) {
            Some(Key::Stop)
        } else if chars_eq_str(&v, Key::Rewind.as_str()) {
            Some(Key::Rewind)
        } else if chars_eq_str(&v, Key::FastForward.as_str()) {
            Some(Key::FastForward)
        } else if chars_eq_str(&v, Key::Record.as_str()) {
            Some(Key::Record)
        } else if chars_eq_str(&v, Key::Red.as_str()) {
            Some(Key::Red)
        } else if chars_eq_str(&v, Key::Green.as_str()) {
            Some(Key::Green)
        } else if chars_eq_str(&v, Key::Yellow.as_str()) {
            Some(Key::Yellow)
        } else if chars_eq_str(&v, Key::Blue.as_str()) {
            Some(Key::Blue)
        } else if chars_eq_str(&v, Key::Source.as_str()) {
            Some(Key::Source)
        } else if chars_eq_str(&v, Key::Hdmi.as_str()) {
            Some(Key::Hdmi)
        } else if chars_eq_str(&v, Key::Hdmi1.as_str()) {
            Some(Key::Hdmi1)
        } else if chars_eq_str(&v, Key::Hdmi2.as_str()) {
            Some(Key::Hdmi2)
        } else if chars_eq_str(&v, Key::Hdmi3.as_str()) {
            Some(Key::Hdmi3)
        } else if chars_eq_str(&v, Key::Hdmi4.as_str()) {
            Some(Key::Hdmi4)
        } else if chars_eq_str(&v, Key::Component1.as_str()) {
            Some(Key::Component1)
        } else if chars_eq_str(&v, Key::Component2.as_str()) {
            Some(Key::Component2)
        } else if chars_eq_str(&v, Key::Av1.as_str()) {
            Some(Key::Av1)
        } else if chars_eq_str(&v, Key::Av2.as_str()) {
            Some(Key::Av2)
        } else if chars_eq_str(&v, Key::Av3.as_str()) {
            Some(Key::Av3)
        } else if chars_eq_str(&v, Key::Tv.as_str()) {
            Some(Key::Tv)
        } else if chars_eq_str(&v, Key::Dtv.as_str()) {
            Some(Key::Dtv)
        } else if chars_eq_str(&v, Key::SmartHub.as_str()) {
            Some(Key::SmartHub)
        } else if chars_eq_str(&v, Key::Apps.as_str()) {
            Some(Key::Apps)
        } else if chars_eq_str(&v, Key::Browser.as_str()) {
            Some(Key::Browser)
        } else if chars_eq_str(&v, Key::Search.as_str()) {
            Some(Key::Search)
        } else if chars_eq_str(&v, Key::Voice.as_str()) {
            Some(Key::Voice)
        } else if chars_eq_str(&v, Key::Ambient.as_str()) {
            Some(Key::Ambient)
        } else if chars_eq_str(&v, Key::PictureSize.as_str()) {
            Some(Key::PictureSize)
        } else if chars_eq_str(&v, Key::PictureMode.as_str()) {
            Some(Key::PictureMode)
        } else if chars_eq_str(&v, Key::AspectRatio.as_str()) {
            Some(Key::AspectRatio)
        } else if chars_eq_str(&v, Key::Settings.as_str()) {
            Some(Key::Settings)
        } else if chars_eq_str(&v, Key::Info.as_str()) {
            Some(Key::Info)
        } else if chars_eq_str(&v, Key::Guide.as_str()) {
            Some(Key::Guide)
        } else if chars_eq_str(&v, Key::Tools.as_str()) {
            Some(Key::Tools)
        } else if chars_eq_str(&v, Key::Sleep.as_str()) {
            Some(Key::Sleep)
        } else if chars_eq_str(&v, Key::Teletext.as_str()) {
            Some(Key::Teletext)
        } else if chars_eq_str(&v, Key::TeletextMix.as_str()) {
            Some(Key::TeletextMix)
        } else if chars_eq_str(&v, Key::Next.as_str()) {
            Some(Key::Next)
        } else if chars_eq_str(&v, Key::Previous.as_str()) {
            Some(Key::Previous)
        } else if chars_eq_str(&v, Key::Pip.as_str()) {
            Some(Key::Pip)
        } else if chars_eq_str(&v, Key::PipSwap.as_str()) {
            Some(Key::PipSwap)
        } else if chars_eq_str(&v, Key::PipSize.as_str()) {
            Some(Key::PipSize)
        } else if chars_eq_str(&v, Key::PipOnOff.as_str()) {
            Some(Key::PipOnOff)
        } else if chars_eq_str(&v, Key::ThreeD.as_str()) {
            Some(Key::ThreeD)
        } else if chars_eq_str(&v, Key::Subtitle.as_str()) {
            Some(Key::Subtitle)
        } else if chars_eq_str(&v, Key::AudioDescription.as_str()) {
            Some(Key::AudioDescription)
        } else if chars_eq_str(&v, Key::DvrMenu.as_str()) {
            Some(Key::DvrMenu)
        } else if chars_eq_str(&v, Key::Live.as_str()) {
            Some(Key::Live)
        } else if chars_eq_str(&v, Key::EManual.as_str()) {
            Some(Key::EManual)
        } else if chars_eq_str(&v, Key::FactoryMenu.as_str()) {
            Some(Key::FactoryMenu)
        } else if chars_eq_str(&v, Key::AutoProgram.as_str()) {
            Some(Key::AutoProgram)
        } else if chars_eq_str(&v, Key::Contents.as_str()) {
            Some(Key::Contents)
        } else if chars_eq_str(&v, Key::Social.as_str()) {
            Some(Key::Social)
        } else if chars_eq_str(&v, Key::Mts.as_str()) {
            Some(Key::Mts)
        } else if chars_eq_str(&v, Key::Caption.as_str()) {
            Some(Key::Caption)
        } else if chars_eq_str(&v, Key::Network.as_str()) {
            Some(Key::Network)
        } else if chars_eq_str(&v, Key::PageUp.as_str()) {
            Some(Key::PageUp)
        } else if chars_eq_str(&v, Key::PageDown.as_str()) {
            Some(Key::PageDown)
        } else if chars_eq_str(&v, Key::MultiView.as_str()) {
            Some(Key::MultiView)
        } else if chars_eq_str(&v, Key::Extra.as_str()) {
            Some(Key::Extra)
        } else if chars_eq_str(&v, Key::Calendar.as_str()) {
            Some(Key::Calendar)
        } else if chars_eq_str(&v, Key::Email.as_str()) {
            Some(Key::Email)
        } else if chars_eq_str(&v, Key::Help.as_str()) {
            Some(Key::Help)
        } else if chars_eq_str(&v, Key::MyApps.as_str()) {
            Some(Key::MyApps)
        } else if chars_eq_str(&v, Key::Language.as_str()) {
            Some(Key::Language)
        } else if chars_eq_str(&v, Key::Keyboard.as_str()) {
            Some(Key::Keyboard)
        } else {
            None
        }
    }

    /// The protocol string as an owned `String`: what the key displays as.
    pub fn to_string(&self) -> (r: String)
        ensures
            r@ == key_code(*self),
    {
        owned(self.as_str())
    }
}

/// Every key but `Custom` is recognized from its protocol string: parsing
/// it gives a key with that same string.
pub proof fn law_parse_recognizes_every_key(key: Key)
    requires
        !(key is Custom),
    ensures
        parsed_key(key_code(key)) matches Some(k) && key_code(k) == key_code(key),
{
}

/// Parsing the protocol string of a key gives that very key back, unless the
/// key is `Custom` or an earlier key has the same string.
pub proof fn law_parse_inverts_as_str(key: Key)
    requires
        parseable(key),
    ensures
        parsed_key(key_code(key)) == Some(key),
{
    reveal_strlit("KEY_0");
    assert("KEY_0"@.len() == 5 && "KEY_0"@[4] == '0');
    reveal_strlit("KEY_1");
    assert("KEY_1"@.len() == 5 && "KEY_1"@[4] == '1');
    reveal_strlit("KEY_2");
    assert("KEY_2"@.len() == 5 && "KEY_2"@[4] == '2');
    reveal_strlit("KEY_3");
    assert("KEY_3"@.len() == 5 && "KEY_3"@[4] == '3');
    reveal_strlit("KEY_4");
    assert("KEY_4"@.len() == 5 && "KEY_4"@[4] == '4');
    reveal_strlit("KEY_5");
    assert("KEY_5"@.len() == 5 && "KEY_5"@[4] == '5');
    reveal_strlit("KEY_6");
    assert("KEY_6"@.len() == 5 && "KEY_6"@[4] == '6');
    reveal_strlit("KEY_7");
    assert("KEY_7"@.len() == 5 && "KEY_7"@[4] == '7');
    reveal_strlit("KEY_8");
    assert("KEY_8"@.len() == 5 && "KEY_8"@[4] == '8');
    reveal_strlit("KEY_9");
    assert("KEY_9"@.len() == 5 && "KEY_9"@[4] == '9');
    reveal_strlit("KEY_AD");
    assert("KEY_AD"@.len() == 6 && "KEY_AD"@[4] == 'A' && "KEY_AD"@[5] == 'D');
    reveal_strlit("KEY_AMBIENT");
    assert("KEY_AMBIENT"@.len() == 11 && "KEY_AMBIENT"@[4] == 'A' && "KEY_AMBIENT"@[5] == 'M');
    reveal_strlit("KEY_APPS");
    assert("KEY_APPS"@.len() == 8 && "KEY_APPS"@[4] == 'A' && "KEY_APPS"@[5] == 'P');
    reveal_strlit("KEY_ASPECT");
    assert("KEY_ASPECT"@.len() == 10 && "KEY_ASPECT"@[4] == 'A' && "KEY_ASPECT"@[5] == 'S');
    reveal_strlit("KEY_AUTO_PROGRAM");
    assert("KEY_AUTO_PROGRAM"@.len() == 16 && "KEY_AUTO_PROGRAM"@[4] == 'A' && "KEY_AUTO_PROGRAM"@[5] == 'U');
    reveal_strlit("KEY_AV1");
    assert("KEY_AV1"@.len() == 7 && "KEY_AV1"@[4] == 'A' && "KEY_AV1"@[5] == 'V' && "KEY_AV1"@[6] == '1');
    reveal_strlit("KEY_AV2");
    assert("KEY_AV2"@.len() == 7 && "KEY_AV2"@[4] == 'A' && "KEY_AV2"@[5] == 'V' && "KEY_AV2"@[6] == '2');
    reveal_strlit("KEY_AV3");
    assert("KEY_AV3"@.len() == 7 && "KEY_AV3"@[4] == 'A' && "KEY_AV3"@[5] == 'V' && "KEY_AV3"@[6] == '3');
    reveal_strlit("KEY_BLUE");
    assert("KEY_BLUE"@.len() == 8 && "KEY_BLUE"@[4] == 'B');
    reveal_strlit("KEY_CALENDAR");
    assert("KEY_CALENDAR"@.len() == 12 && "KEY_CALENDAR"@[4] == 'C' && "KEY_CALENDAR"@[5] == 'A' && "KEY_CALENDAR"@[6] == 'L');
    reveal_strlit("KEY_CAPTION");
    assert("KEY_CAPTION"@.len() == 11 && "KEY_CAPTION"@[4] == 'C' && "KEY_CAPTION"@[5] == 'A' && "KEY_CAPTION"@[6] == 'P');
    reveal_strlit("KEY_CHDOWN");
    assert("KEY_CHDOWN"@.len() == 10 && "KEY_CHDOWN"@[4] == 'C' && "KEY_CHDOWN"@[5] == 'H' && "KEY_CHDOWN"@[6] == 'D');
    reveal_strlit("KEY_CHUP");
    assert("KEY_CHUP"@.len() == 8 && "KEY_CHUP"@[4] == 'C' && "KEY_CHUP"@[5] == 'H' && "KEY_CHUP"@[6] == 'U');
    reveal_strlit("KEY_CH_LIST");
    assert("KEY_CH_LIST"@.len() == 11 && "KEY_CH_LIST"@[4] == 'C' && "KEY_CH_LIST"@[5] == 'H' && "KEY_CH_LIST"@[6] == '_');
    reveal_strlit("KEY_COMPONENT1");
    assert("KEY_COMPONENT1"@.len() == 14 && "KEY_COMPONENT1"@[4] == 'C' && "KEY_COMPONENT1"@[5] == 'O' && "KEY_COMPONENT1"@[6] == 'M' && "KEY_COMPONENT1"@[13] == '1');
    reveal_strlit("KEY_COMPONENT2");
    assert("KEY_COMPONENT2"@.len() == 14 && "KEY_COMPONENT2"@[4] == 'C' && "KEY_COMPONENT2"@[5] == 'O' && "KEY_COMPONENT2"@[6] == 'M' && "KEY_COMPONENT2"@[13] == '2');
    reveal_strlit("KEY_CONTENTS");
    assert("KEY_CONTENTS"@.len() == 12 && "KEY_CONTENTS"@[4] == 'C' && "KEY_CONTENTS"@[5] == 'O' && "KEY_CONTENTS"@[6] == 'N' && "KEY_CONTENTS"@[7] == 'T');
    reveal_strlit("KEY_CONVERGENCE");
    assert("KEY_CONVERGENCE"@.len() == 15 && "KEY_CONVERGENCE"@[4] == 'C' && "KEY_CONVERGENCE"@[5] == 'O' && "KEY_CONVERGENCE"@[6] == 'N' && "KEY_CONVERGENCE"@[7] == 'V');
    reveal_strlit("KEY_DOWN");
    assert("KEY_DOWN"@.len() == 8 && "KEY_DOWN"@[4] == 'D' && "KEY_DOWN"@[5] == 'O');
    reveal_strlit("KEY_DTV");
    assert("KEY_DTV"@.len() == 7 && "KEY_DTV"@[4] == 'D' && "KEY_DTV"@[5] == 'T');
    reveal_strlit("KEY_DVR_MENU");
    assert("KEY_DVR_MENU"@.len() == 12 && "KEY_DVR_MENU"@[4] == 'D' && "KEY_DVR_MENU"@[5] == 'V');
    reveal_strlit("KEY_EMAIL");
    assert("KEY_EMAIL"@.len() == 9 && "KEY_EMAIL"@[4] == 'E' && "KEY_EMAIL"@[5] == 'M');
    reveal_strlit("KEY_ENTER");
    assert("KEY_ENTER"@.len() == 9 && "KEY_ENTER"@[4] == 'E' && "KEY_ENTER"@[5] == 'N');
    reveal_strlit("KEY_ESAVING");
    assert("KEY_ESAVING"@.len() == 11 && "KEY_ESAVING"@[4] == 'E' && "KEY_ESAVING"@[5] == 'S');
    reveal_strlit("KEY_EXIT");
    assert("KEY_EXIT"@.len() == 8 && "KEY_EXIT"@[4] == 'E' && "KEY_EXIT"@[5] == 'X' && "KEY_EXIT"@[6] == 'I');
    reveal_strlit("KEY_EXTRA");
    assert("KEY_EXTRA"@.len() == 9 && "KEY_EXTRA"@[4] == 'E' && "KEY_EXTRA"@[5] == 'X' && "KEY_EXTRA"@[6] == 'T');
    reveal_strlit("KEY_E_MANUAL");
    assert("KEY_E_MANUAL"@.len() == 12 && "KEY_E_MANUAL"@[4] == 'E' && "KEY_E_MANUAL"@[5] == '_');
    reveal_strlit("KEY_FACTORY");
    assert("KEY_FACTORY"@.len() == 11 && "KEY_FACTORY"@[4] == 'F' && "KEY_FACTORY"@[5] == 'A');
    reveal_strlit("KEY_FF");
    assert("KEY_FF"@.len() == 6 && "KEY_FF"@[4] == 'F' && "KEY_FF"@[5] == 'F');
    reveal_strlit("KEY_FF_");
    assert("KEY_FF_"@.len() == 7 && "KEY_FF_"@[4] == 'F' && "KEY_FF_"@[5] == 'F');
    reveal_strlit("KEY_GREEN");
    assert("KEY_GREEN"@.len() == 9 && "KEY_GREEN"@[4] == 'G' && "KEY_GREEN"@[5] == 'R');
    reveal_strlit("KEY_GUIDE");
    assert("KEY_GUIDE"@.len() == 9 && "KEY_GUIDE"@[4] == 'G' && "KEY_GUIDE"@[5] == 'U');
    reveal_strlit("KEY_HDMI");
    assert("KEY_HDMI"@.len() == 8 && "KEY_HDMI"@[4] == 'H' && "KEY_HDMI"@[5] == 'D');
    reveal_strlit("KEY_HDMI1");
    assert("KEY_HDMI1"@.len() == 9 && "KEY_HDMI1"@[4] == 'H' && "KEY_HDMI1"@[5] == 'D' && "KEY_HDMI1"@[8] == '1');
    reveal_strlit("KEY_HDMI2");
    assert("KEY_HDMI2"@.len() == 9 && "KEY_HDMI2"@[4] == 'H' && "KEY_HDMI2"@[5] == 'D' && "KEY_HDMI2"@[8] == '2');
    reveal_strlit("KEY_HDMI3");
    assert("KEY_HDMI3"@.len() == 9 && "KEY_HDMI3"@[4] == 'H' && "KEY_HDMI3"@[5] == 'D' && "KEY_HDMI3"@[8] == '3');
    reveal_strlit("KEY_HDMI4");
    assert("KEY_HDMI4"@.len() == 9 && "KEY_HDMI4"@[4] == 'H' && "KEY_HDMI4"@[5] == 'D' && "KEY_HDMI4"@[8] == '4');
    reveal_strlit("KEY_HELP");
    assert("KEY_HELP"@.len() == 8 && "KEY_HELP"@[4] == 'H' && "KEY_HELP"@[5] == 'E');
    reveal_strlit("KEY_HOME");
    assert("KEY_HOME"@.len() == 8 && "KEY_HOME"@[4] == 'H' && "KEY_HOME"@[5] == 'O');
    reveal_strlit("KEY_INFO");
    assert("KEY_INFO"@.len() == 8 && "KEY_INFO"@[4] == 'I');
    reveal_strlit("KEY_KEYBOARD");
    assert("KEY_KEYBOARD"@.len() == 12 && "KEY_KEYBOARD"@[4] == 'K');
    reveal_strlit("KEY_LANG");
    assert("KEY_LANG"@.len() == 8 && "KEY_LANG"@[4] == 'L' && "KEY_LANG"@[5] == 'A');
    reveal_strlit("KEY_LEFT");
    assert("KEY_LEFT"@.len() == 8 && "KEY_LEFT"@[4] == 'L' && "KEY_LEFT"@[5] == 'E');
    reveal_strlit("KEY_LIVE");
    assert("KEY_LIVE"@.len() == 8 && "KEY_LIVE"@[4] == 'L' && "KEY_LIVE"@[5] == 'I');
    reveal_strlit("KEY_MENU");
    assert("KEY_MENU"@.len() == 8 && "KEY_MENU"@[4] == 'M' && "KEY_MENU"@[5] == 'E');
    reveal_strlit("KEY_MTS");
    assert("KEY_MTS"@.len() == 7 && "KEY_MTS"@[4] == 'M' && "KEY_MTS"@[5] == 'T');
    reveal_strlit("KEY_MULTI_VIEW");
    assert("KEY_MULTI_VIEW"@.len() == 14 && "KEY_MULTI_VIEW"@[4] == 'M' && "KEY_MULTI_VIEW"@[5] == 'U' && "KEY_MULTI_VIEW"@[6] == 'L');
    reveal_strlit("KEY_MUTE");
    assert("KEY_MUTE"@.len() == 8 && "KEY_MUTE"@[4] == 'M' && "KEY_MUTE"@[5] == 'U' && "KEY_MUTE"@[6] == 'T');
    reveal_strlit("KEY_NETWORK");
    assert("KEY_NETWORK"@.len() == 11 && "KEY_NETWORK"@[4] == 'N');
    reveal_strlit("KEY_PAGEDOWN");
    assert("KEY_PAGEDOWN"@.len() == 12 && "KEY_PAGEDOWN"@[4] == 'P' && "KEY_PAGEDOWN"@[5] == 'A' && "KEY_PAGEDOWN"@[6] == 'G' && "KEY_PAGEDOWN"@[8] == 'D');
    reveal_strlit("KEY_PAGEUP");
    assert("KEY_PAGEUP"@.len() == 10 && "KEY_PAGEUP"@[4] == 'P' && "KEY_PAGEUP"@[5] == 'A' && "KEY_PAGEUP"@[6] == 'G' && "KEY_PAGEUP"@[8] == 'U');
    reveal_strlit("KEY_PANNEL_CHDOWN");
    assert("KEY_PANNEL_CHDOWN"@.len() == 17 && "KEY_PANNEL_CHDOWN"@[4] == 'P' && "KEY_PANNEL_CHDOWN"@[5] == 'A' && "KEY_PANNEL_CHDOWN"@[6] == 'N');
    reveal_strlit("KEY_PAUSE");
    assert("KEY_PAUSE"@.len() == 9 && "KEY_PAUSE"@[4] == 'P' && "KEY_PAUSE"@[5] == 'A' && "KEY_PAUSE"@[6] == 'U');
    reveal_strlit("KEY_PICTURE_SIZE");
    assert("KEY_PICTURE_SIZE"@.len() == 16 && "KEY_PICTURE_SIZE"@[4] == 'P' && "KEY_PICTURE_SIZE"@[5] == 'I' && "KEY_PICTURE_SIZE"@[6] == 'C');
    reveal_strlit("KEY_PIP_ONOFF");
    assert("KEY_PIP_ONOFF"@.len() == 13 && "KEY_PIP_ONOFF"@[4] == 'P' && "KEY_PIP_ONOFF"@[5] == 'I' && "KEY_PIP_ONOFF"@[6] == 'P' && "KEY_PIP_ONOFF"@[8] == 'O');
    reveal_strlit("KEY_PIP_SIZE");
    assert("KEY_PIP_SIZE"@.len() == 12 && "KEY_PIP_SIZE"@[4] == 'P' && "KEY_PIP_SIZE"@[5] == 'I' && "KEY_PIP_SIZE"@[6] == 'P' && "KEY_PIP_SIZE"@[8] == 'S' && "KEY_PIP_SIZE"@[9] == 'I');
    reveal_strlit("KEY_PIP_SWAP");
    assert("KEY_PIP_SWAP"@.len() == 12 && "KEY_PIP_SWAP"@[4] == 'P' && "KEY_PIP_SWAP"@[5] == 'I' && "KEY_PIP_SWAP"@[6] == 'P' && "KEY_PIP_SWAP"@[8] == 'S' && "KEY_PIP_SWAP"@[9] == 'W');
    reveal_strlit("KEY_PLAY");
    assert("KEY_PLAY"@.len() == 8 && "KEY_PLAY"@[4] == 'P' && "KEY_PLAY"@[5] == 'L');
    reveal_strlit("KEY_PMODE");
    assert("KEY_PMODE"@.len() == 9 && "KEY_PMODE"@[4] == 'P' && "KEY_PMODE"@[5] == 'M');
    reveal_strlit("KEY_POWER");
    assert("KEY_POWER"@.len() == 9 && "KEY_POWER"@[4] == 'P' && "KEY_POWER"@[5] == 'O');
    reveal_strlit("KEY_POWEROFF");
    assert("KEY_POWEROFF"@.len() == 12 && "KEY_POWEROFF"@[4] == 'P' && "KEY_POWEROFF"@[5] == 'O');
    reveal_strlit("KEY_PRECH");
    assert("KEY_PRECH"@.len() == 9 && "KEY_PRECH"@[4] == 'P' && "KEY_PRECH"@[5] == 'R');
    reveal_strlit("KEY_REC");
    assert("KEY_REC"@.len() == 7 && "KEY_REC"@[4] == 'R' && "KEY_REC"@[5] == 'E' && "KEY_REC"@[6] == 'C');
    reveal_strlit("KEY_RED");
    assert("KEY_RED"@.len() == 7 && "KEY_RED"@[4] == 'R' && "KEY_RED"@[5] == 'E' && "KEY_RED"@[6] == 'D');
    reveal_strlit("KEY_RETURN");
    assert("KEY_RETURN"@.len() == 10 && "KEY_RETURN"@[4] == 'R' && "KEY_RETURN"@[5] == 'E' && "KEY_RETURN"@[6] == 'T');
    reveal_strlit("KEY_REWIND");
    assert("KEY_REWIND"@.len() == 10 && "KEY_REWIND"@[4] == 'R' && "KEY_REWIND"@[5] == 'E' && "KEY_REWIND"@[6] == 'W');
    reveal_strlit("KEY_REWIND_");
    assert("KEY_REWIND_"@.len() == 11 && "KEY_REWIND_"@[4] == 'R' && "KEY_REWIND_"@[5] == 'E' && "KEY_REWIND_"@[6] == 'W');
    reveal_strlit("KEY_RIGHT");
    assert("KEY_RIGHT"@.len() == 9 && "KEY_RIGHT"@[4] == 'R' && "KEY_RIGHT"@[5] == 'I');
    reveal_strlit("KEY_SEARCH");
    assert("KEY_SEARCH"@.len() == 10 && "KEY_SEARCH"@[4] == 'S' && "KEY_SEARCH"@[5] == 'E');
    reveal_strlit("KEY_SLEEP");
    assert("KEY_SLEEP"@.len() == 9 && "KEY_SLEEP"@[4] == 'S' && "KEY_SLEEP"@[5] == 'L');
    reveal_strlit("KEY_SMART");
    assert("KEY_SMART"@.len() == 9 && "KEY_SMART"@[4] == 'S' && "KEY_SMART"@[5] == 'M');
    reveal_strlit("KEY_SOCIAL");
    assert("KEY_SOCIAL"@.len() == 10 && "KEY_SOCIAL"@[4] == 'S' && "KEY_SOCIAL"@[5] == 'O' && "KEY_SOCIAL"@[6] == 'C');
    reveal_strlit("KEY_SOURCE");
    assert("KEY_SOURCE"@.len() == 10 && "KEY_SOURCE"@[4] == 'S' && "KEY_SOURCE"@[5] == 'O' && "KEY_SOURCE"@[6] == 'U');
    reveal_strlit("KEY_STOP");
    assert("KEY_STOP"@.len() == 8 && "KEY_STOP"@[4] == 'S' && "KEY_STOP"@[5] == 'T');
    reveal_strlit("KEY_SUB_TITLE");
    assert("KEY_SUB_TITLE"@.len() == 13 && "KEY_SUB_TITLE"@[4] == 'S' && "KEY_SUB_TITLE"@[5] == 'U');
    reveal_strlit("KEY_TOOLS");
    assert("KEY_TOOLS"@.len() == 9 && "KEY_TOOLS"@[4] == 'T' && "KEY_TOOLS"@[5] == 'O');
    reveal_strlit("KEY_TTX_MIX");
    assert("KEY_TTX_MIX"@.len() == 11 && "KEY_TTX_MIX"@[4] == 'T' && "KEY_TTX_MIX"@[5] == 'T' && "KEY_TTX_MIX"@[8] == 'M');
    reveal_strlit("KEY_TTX_SUBFACE");
    assert("KEY_TTX_SUBFACE"@.len() == 15 && "KEY_TTX_SUBFACE"@[4] == 'T' && "KEY_TTX_SUBFACE"@[5] == 'T' && "KEY_TTX_SUBFACE"@[8] == 'S');
    reveal_strlit("KEY_TV");
    assert("KEY_TV"@.len() == 6 && "KEY_TV"@[4] == 'T' && "KEY_TV"@[5] == 'V');
    reveal_strlit("KEY_UP");
    assert("KEY_UP"@.len() == 6 && "KEY_UP"@[4] == 'U');
    reveal_strlit("KEY_VOICE");
    assert("KEY_VOICE"@.len() == 9 && "KEY_VOICE"@[4] == 'V' && "KEY_VOICE"@[6] == 'I');
    reveal_strlit("KEY_VOLDOWN");
    assert("KEY_VOLDOWN"@.len() == 11 && "KEY_VOLDOWN"@[4] == 'V' && "KEY_VOLDOWN"@[6] == 'L' && "KEY_VOLDOWN"@[7] == 'D');
    reveal_strlit("KEY_VOLUP");
    assert("KEY_VOLUP"@.len() == 9 && "KEY_VOLUP"@[4] == 'V' && "KEY_VOLUP"@[6] == 'L' && "KEY_VOLUP"@[7] == 'U');
    reveal_strlit("KEY_YELLOW");
    assert("KEY_YELLOW"@.len() == 10 && "KEY_YELLOW"@[4] == 'Y');
}

/// `Key::parse` returns only keys that it gives back from their own string,
/// and only for that string.
pub proof fn law_parse_gives_code(s: Seq<char>)
    ensures
        parsed_key(s) matches Some(k) ==> key_code(k) == s && parseable(k),
{
}

/// The protocol string of every key, one by one as the TV protocol names
/// them; a `Custom` key carries its own string.
pub proof fn law_protocol_codes(custom: &'static str)
    ensures
        key_code(Key::Power) == "KEY_POWER"@,
        key_code(Key::PowerOff) == "KEY_POWEROFF"@,
        key_code(Key::VolumeUp) == "KEY_VOLUP"@,
        key_code(Key::VolumeDown) == "KEY_VOLDOWN"@,
        key_code(Key::Mute) == "KEY_MUTE"@,
        key_code(Key::ChannelUp) == "KEY_CHUP"@,
        key_code(Key::ChannelDown) == "KEY_CHDOWN"@,
        key_code(Key::ChannelList) == "KEY_CH_LIST"@,
        key_code(Key::PreviousChannel) == "KEY_PRECH"@,
        key_code(Key::Up) == "KEY_UP"@,
        key_code(Key::Down) == "KEY_DOWN"@,
        key_code(Key::Left) == "KEY_LEFT"@,
        key_code(Key::Right) == "KEY_RIGHT"@,
        key_code(Key::Enter) == "KEY_ENTER"@,
        key_code(Key::Return) == "KEY_RETURN"@,
        key_code(Key::Exit) == "KEY_EXIT"@,
        key_code(Key::Home) == "KEY_HOME"@,
        key_code(Key::Menu) == "KEY_MENU"@,
        key_code(Key::Num0) == "KEY_0"@,
        key_code(Key::Num1) == "KEY_1"@,
        key_code(Key::Num2) == "KEY_2"@,
        key_code(Key::Num3) == "KEY_3"@,
        key_code(Key::Num4) == "KEY_4"@,
        key_code(Key::Num5) == "KEY_5"@,
        key_code(Key::Num6) == "KEY_6"@,
        key_code(Key::Num7) == "KEY_7"@,
        key_code(Key::Num8) == "KEY_8"@,
        key_code(Key::Num9) == "KEY_9"@,
        key_code(Key::Play) == "KEY_PLAY"@,
        key_code(Key::Pause) == "KEY_PAUSE"@,
        key_code(Key::Stop) == "KEY_STOP"@,
        key_code(Key::Rewind) == "KEY_REWIND"@,
        key_code(Key::FastForward) == "KEY_FF"@,
        key_code(Key::Record) == "KEY_REC"@,
        key_code(Key::Red) == "KEY_RED"@,
        key_code(Key::Green) == "KEY_GREEN"@,
        key_code(Key::Yellow) == "KEY_YELLOW"@,
        key_code(Key::Blue) == "KEY_BLUE"@,
        key_code(Key::Source) == "KEY_SOURCE"@,
        key_code(Key::Hdmi) == "KEY_HDMI"@,
        key_code(Key::Hdmi1) == "KEY_HDMI1"@,
        key_code(Key::Hdmi2) == "KEY_HDMI2"@,
        key_code(Key::Hdmi3) == "KEY_HDMI3"@,
        key_code(Key::Hdmi4) == "KEY_HDMI4"@,
        key_code(Key::Component1) == "KEY_COMPONENT1"@,
        key_code(Key::Component2) == "KEY_COMPONENT2"@,
        key_code(Key::Av1) == "KEY_AV1"@,
        key_code(Key::Av2) == "KEY_AV2"@,
        key_code(Key::Av3) == "KEY_AV3"@,
        key_code(Key::Tv) == "KEY_TV"@,
        key_code(Key::Dtv) == "KEY_DTV"@,
        key_code(Key::SmartHub) == "KEY_SMART"@,
        key_code(Key::Apps) == "KEY_APPS"@,
        key_code(Key::Browser) == "KEY_CONVERGENCE"@,
        key_code(Key::Search) == "KEY_SEARCH"@,
        key_code(Key::Voice) == "KEY_VOICE"@,
        key_code(Key::Ambient) == "KEY_AMBIENT"@,
        key_code(Key::PictureSize) == "KEY_PICTURE_SIZE"@,
        key_code(Key::PictureMode) == "KEY_PMODE"@,
        key_code(Key::AspectRatio) == "KEY_ASPECT"@,
        key_code(Key::Settings) == "KEY_MENU"@,
        key_code(Key::Info) == "KEY_INFO"@,
        key_code(Key::Guide) == "KEY_GUIDE"@,
        key_code(Key::Tools) == "KEY_TOOLS"@,
        key_code(Key::Sleep) == "KEY_SLEEP"@,
        key_code(Key::Teletext) == "KEY_TTX_MIX"@,
        key_code(Key::TeletextMix) == "KEY_TTX_SUBFACE"@,
        key_code(Key::Next) == "KEY_FF_"@,
        key_code(Key::Previous) == "KEY_REWIND_"@,
        key_code(Key::Pip) == "KEY_PIP_ONOFF"@,
        key_code(Key::PipSwap) == "KEY_PIP_SWAP"@,
        key_code(Key::PipSize) == "KEY_PIP_SIZE"@,
        key_code(Key::PipOnOff) == "KEY_PIP_ONOFF"@,
        key_code(Key::ThreeD) == "KEY_PANNEL_CHDOWN"@,
        key_code(Key::Subtitle) == "KEY_SUB_TITLE"@,
        key_code(Key::AudioDescription) == "KEY_AD"@,
        key_code(Key::DvrMenu) == "KEY_DVR_MENU"@,
        key_code(Key::Live) == "KEY_LIVE"@,
        key_code(Key::EManual) == "KEY_E_MANUAL"@,
        key_code(Key::FactoryMenu) == "KEY_FACTORY"@,
        key_code(Key::AutoProgram) == "KEY_AUTO_PROGRAM"@,
        key_code(Key::Contents) == "KEY_CONTENTS"@,
        key_code(Key::Social) == "KEY_SOCIAL"@,
        key_code(Key::Mts) == "KEY_MTS"@,
        key_code(Key::Caption) == "KEY_CAPTION"@,
        key_code(Key::Network) == "KEY_NETWORK"@,
        key_code(Key::PageUp) == "KEY_PAGEUP"@,
        key_code(Key::PageDown) == "KEY_PAGEDOWN"@,
        key_code(Key::MultiView) == "KEY_MULTI_VIEW"@,
        key_code(Key::Extra) == "KEY_EXTRA"@,
        key_code(Key::Calendar) == "KEY_CALENDAR"@,
        key_code(Key::Email) == "KEY_EMAIL"@,
        key_code(Key::Help) == "KEY_HELP"@,
        key_code(Key::MyApps) == "KEY_ESAVING"@,
        key_code(Key::Language) == "KEY_LANG"@,
        key_code(Key::Keyboard) == "KEY_KEYBOARD"@,
        key_code(Key::Custom(custom)) == custom@,
{
}

} // verus!

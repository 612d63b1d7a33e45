//! Common app IDs for popular streaming services.
use vstd::prelude::*;

verus! {

/// Netflix app ID
pub const NETFLIX: &'static str = "11101200001";

/// YouTube app ID
pub const YOUTUBE: &'static str = "111299001912";

/// Amazon Prime Video app ID
pub const PRIME_VIDEO: &'static str = "3201512006785";

/// Disney+ app ID
pub const DISNEY_PLUS: &'static str = "3201901017640";

/// Hulu app ID
pub const HULU: &'static str = "3201601007625";

/// Spotify app ID
pub const SPOTIFY: &'static str = "3201606009684";

/// Plex app ID
pub const PLEX: &'static str = "3201512006963";

/// Apple TV app ID
pub const APPLE_TV: &'static str = "3201807016597";

/// HBO Max app ID
pub const HBO_MAX: &'static str = "3201601007230";

/// Twitch app ID
pub const TWITCH: &'static str = "3201504001965";

} // verus!

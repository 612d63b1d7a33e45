//! Control of Samsung Smart TVs over their WebSocket remote-control API.
//!
//! The library holds what a TV client decides: the keys and their protocol
//! codes, the JSON messages for keys, apps, the browser and text input, the
//! connection URL, how the TV's replies are read (tokens, authentication
//! errors), the steps of each remote-control operation, token handling, and
//! SSDP discovery of TVs on the local network.
pub mod apps;
pub mod auth;
pub mod client;
pub mod commands;
pub mod config;
pub mod connection;
pub mod discovery;
pub mod encoding;
pub mod error;
pub mod json;
pub mod text;

pub use apps::{app_ids, App, AppLaunchPayload, AppListPayload, BrowserPayload};
pub use auth::TokenManager;
pub use client::{DeviceInfo, Session, Step, TvInfo};
pub use commands::{Command, CommandPayload, CommandParams, CommandType, Commands, Key, RemoteCommand};
pub use config::{SamsungTvConfig, DEFAULT_WSS_PORT, DEFAULT_WS_PORT};
pub use connection::{ConnectionState, StreamEvent};
pub use error::{Result, SamsungTvError};

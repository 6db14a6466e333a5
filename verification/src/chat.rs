//! The chat plugin: a web socket per client, a shared table of sessions
//! and a store of messages.

pub mod client;
pub mod config;
pub mod messages;
pub mod plugin;
pub mod protocol;
pub mod server;
pub mod sessions;
pub mod websocket;

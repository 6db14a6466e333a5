//! The space server: a user-hosted site that loads plugins and lets the
//! relay vouch for its users.

pub mod config;
pub mod plugins;
pub mod routes;
pub mod state;
pub mod watcher;

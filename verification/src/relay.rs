//! The relay server: Google sign-in, account registration, session
//! tokens and the one-shot tokens that let a space authenticate a user.

pub mod assets;
pub mod auth;
pub mod config;
pub mod g_auth;
pub mod models;
pub mod routes;
pub mod state;

//! Core logic of the hutopia relay server, space server and their chat
//! plugin, with machine-checked contracts.

pub mod chat;
pub mod console;
pub mod crypto;
pub mod example;
pub mod json;
pub mod mime;
pub mod plugin_server;
pub mod relay;
pub mod space;
pub mod string_map;
pub mod text;
pub mod uuid_protocol;
pub mod widget_files;

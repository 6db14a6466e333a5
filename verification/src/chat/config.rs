//! The chat plugin's configuration file.

use vstd::prelude::*;

verus! {

/// The configuration file's name, in the plugins folder.
pub const CONFIG_FILE: &'static str = "chat.toml";

/// The whole configuration.
pub struct PluginConfig {
    pub plugin: Plugin,
}

/// The name of the environment variable that holds the database address.
pub struct Plugin {
    pub db_connection_env: String,
}

/// Where the configuration file is read from.
pub fn config_file_path() -> (r: String)
    ensures
        r@ == "plugins/"@ + CONFIG_FILE@,
{
    let mut s = "plugins/".to_owned();
    s.append(CONFIG_FILE);
    s
}

} // verus!

//! The relay's configuration file (`relay.toml`).

use vstd::prelude::*;

verus! {

/// The whole configuration.
pub struct RelayConfig {
    pub server: Server,
    pub env: Env,
}

/// Where the relay listens.
pub struct Server {
    pub address: String,
    pub port: u16,
}

/// The names of the environment variables that hold the secrets.
pub struct Env {
    pub db_connection: String,
    pub g_auth_client_id: String,
    pub g_auth_secret: String,
    pub redirect_url: String,
}

impl RelayConfig {
    /// The address and port the server binds to.
    pub fn bind_address(&self) -> (r: (String, u16))
        ensures
            r.0@ == self.server.address@,
            r.1 == self.server.port,
    {
        (self.server.address.clone(), self.server.port)
    }
}

} // verus!

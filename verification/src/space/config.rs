//! The space's configuration file (`space.toml`).

use vstd::prelude::*;

verus! {

/// The whole configuration.
pub struct SpaceConfig {
    pub server: Server,
    pub env: Env,
}

/// Where the space listens, and the relay it trusts.
pub struct Server {
    pub address: String,
    pub port: u16,
    pub relay: String,
}

/// The name of the environment variable that holds the database address.
pub struct Env {
    pub db_connection: String,
}

impl SpaceConfig {
    /// The address and port the server binds to.
    pub fn bind_address(&self) -> (r: (String, u16))
        ensures
            r.0@ == self.server.address@,
            r.1 == self.server.port,
    {
        (self.server.address.clone(), self.server.port)
    }
}

} // verus!

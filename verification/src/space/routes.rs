//! The space's own routes.

use vstd::prelude::*;

verus! {

/// The only peer allowed on the space's internal routes.
pub const LOOPBACK: &'static str = "127.0.0.1";

/// Whether a request to an internal route is allowed: only requests
/// from the loopback address are, so that only plugins running on the
/// space ask who a user is.
pub fn internal_request_allowed(peer_ip: Option<String>) -> (r: bool)
    ensures
        r == (peer_ip matches Some(ip) && ip@ == LOOPBACK@),
{
    match peer_ip {
        Some(ip) => {
            let loopback = LOOPBACK.to_owned();
            ip == loopback
        },
        None => false,
    }
}

} // verus!

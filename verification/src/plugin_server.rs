//! What every plugin shares with the space server: where plugins keep
//! their files and how a plugin asks the space who a user is.

use vstd::prelude::*;
use crate::text::{concat3, concat4};
use crate::json::{json_bool_field, read_json_bool_field};

verus! {

/// The folder that holds the plugin libraries and their configuration.
pub const PLUGINS_FOLDER: &'static str = "./plugins";

/// The space's internal address that authenticates users.
pub const INTERNAL_AUTH_URL: &'static str = "http://127.0.0.1:8080/internal/auth/";

/// The configuration file of the plugin `plugin_name`.
pub fn plugin_config_path(plugin_name: &str) -> (r: String)
    ensures
        r@ == PLUGINS_FOLDER@ + "/"@ + plugin_name@ + ".toml"@,
{
    concat4(PLUGINS_FOLDER, "/", plugin_name, ".toml")
}

/// The route on which the plugin `plugin_id` serves its web socket.
pub fn widget_ws_path(plugin_id: &str) -> (r: String)
    ensures
        r@ == "/widget/"@ + plugin_id@ + "/ws"@,
{
    concat3("/widget/", plugin_id, "/ws")
}

/// The space's address that authenticates `username` with `token`.
pub fn internal_auth_url(username: &str, token: &str) -> (r: String)
    ensures
        r@ == INTERNAL_AUTH_URL@ + username@ + "/"@ + token@,
{
    concat4(INTERNAL_AUTH_URL, username, "/", token)
}

/// The space's answer, read from the body of its reply: the boolean field
/// `authenticated`.
pub fn parse_auth_answer(body: &str) -> (r: Option<bool>)
    ensures
        r == json_bool_field(body@, "authenticated"@),
{
    read_json_bool_field(body, "authenticated")
}

/// The first step of finding who a plugin request comes from: both the
/// `username` and the `token` cookie must be set; then the space is asked
/// at the returned address about that username.
pub fn auth_request(username_cookie: Option<String>, token_cookie: Option<String>) -> (r: Option<
    (String, String),
>)
    ensures
        match (username_cookie, token_cookie) {
            (Some(u), Some(t)) => r matches Some((url, name)) && url@ == INTERNAL_AUTH_URL@ + u@
                + "/"@ + t@ && name@ == u@,
            _ => r is None,
        },
{
    let username = match username_cookie {
        Some(u) => u,
        None => return None,
    };
    let token = match token_cookie {
        Some(t) => t,
        None => return None,
    };
    let url = internal_auth_url(username.as_str(), token.as_str());
    Some((url, username))
}

/// Option<Username>: the user a plugin request comes from, given the
/// space's answer (`None` where the request failed or the answer could not
/// be read): the username of its cookie when the space said yes.
pub fn auth_user(username: String, answer: Option<bool>) -> (r: Option<String>)
    ensures
        r == (if answer == Some(true) { Some(username) } else { None }),
{
    match answer {
        Some(true) => Some(username),
        _ => None,
    }
}

} // verus!

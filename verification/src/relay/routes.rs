//! What the relay answers on each of its routes. Each function takes the
//! state and what the route's requests to Google and to the database
//! gave, and returns the reply together with the database writes to
//! make; the server around it performs those requests and writes.

use vstd::prelude::*;
use crate::relay::auth::{is_lower_letter, SESSION_TOKEN_LEN};
use crate::relay::g_auth::{
    gen_login_url, url_with_query, login_query, CHOOSE_ACCOUNT, GoogleUserResult, QueryCode,
    UnregisteredUser,
};
use crate::relay::models::{NewUser, NewUserToken, User};
use crate::relay::state::{ServerData, taken_user, space_token_matches};

verus! {

/// The HTTP status of a JSON reply.
#[derive(PartialEq, Eq, Structural, Clone, Copy, Debug)]
pub enum Status {
    Success,
    Unauthorized,
    BadGateway,
}

/// A cookie set on the client, valid for the whole site; `expired`
/// cookies are set to the UNIX epoch so that the client drops them.
pub struct SetCookie {
    pub name: String,
    pub value: String,
    pub expired: bool,
}

/// What `/api/userData` tells the client about its session.
pub struct UserData {
    pub logged: bool,
    pub username: Option<String>,
    pub email: Option<String>,
}

/// The JSON bodies the relay sends.
pub enum JsonBody {
    /// `{"status": "fail", "message": ..}`
    Fail { message: String },
    /// The session's user data.
    UserData(UserData),
    /// `{"token": .., "username": ..}`
    SpaceToken { token: String, username: String },
    /// `{"authenticated": ..}`
    Authenticated(bool),
}

/// A reply of the relay.
pub enum Reply {
    /// `302 Found` to `location`, setting `cookies` in order.
    Redirect { location: String, cookies: Vec<SetCookie> },
    /// A JSON body with the given status.
    Json { status: Status, body: JsonBody },
}

/// `r` is a failure reply with the given status and message.
pub open spec fn is_fail(r: Reply, status: Status, message: Seq<char>) -> bool {
    r matches Reply::Json { status: s, body: JsonBody::Fail { message: m } } && s == status && m@
        == message
}

/// `c` sets cookie `name` to `value`, not expired.
pub open spec fn sets_cookie(c: SetCookie, name: Seq<char>, value: Seq<char>) -> bool {
    c.name@ == name && c.value@ == value && !c.expired
}

/// `r` redirects to `location`.
pub open spec fn redirects_to(r: Reply, location: Seq<char>) -> bool {
    r matches Reply::Redirect { location: l, .. } && l@ == location
}

/// The cookies that reply `r` sets.
pub open spec fn cookies_of(r: Reply) -> Seq<SetCookie> {
    match r {
        Reply::Redirect { cookies, .. } => cookies@,
        Reply::Json { .. } => Seq::empty(),
    }
}

/// `r` is the answer to a request that is not signed in.
pub open spec fn is_not_logged(r: Reply) -> bool {
    r matches Reply::Json { status: Status::Success, body: JsonBody::UserData(d) } && !d.logged
        && d.username is None && d.email is None
}

fn cookie(name: &str, value: String) -> (c: SetCookie)
    ensures
        sets_cookie(c, name@, value@),
{
    SetCookie { name: name.to_owned(), value, expired: false }
}

fn fail(status: Status, message: String) -> (r: Reply)
    ensures
        is_fail(r, status, message@),
{
    Reply::Json { status, body: JsonBody::Fail { message } }
}

/// `GET /api/login`: sends the user to Google's account chooser.
pub fn login(data: &ServerData) -> (r: Reply)
    ensures
        r matches Reply::Redirect { location, cookies } && cookies@.len() == 0 && url_with_query(
            CHOOSE_ACCOUNT@,
            login_query(data.auth_config().client_id@, data.auth_config().redirect_url@),
        ) == Some(location@),
{
    let auth = data.auth();
    let url = gen_login_url(auth.client_id.as_str(), auth.redirect_url.as_str());
    Reply::Redirect { location: url, cookies: Vec::new() }
}

/// `GET /api/g_auth`, first step: a sign-in redirect without an
/// authorization code is refused.
pub fn check_authorization_code(query: &QueryCode) -> (r: Option<Reply>)
    ensures
        r is Some <==> query.code@.len() == 0,
        r matches Some(reply) ==> is_fail(
            reply,
            Status::Unauthorized,
            "Authorization code not provided!"@,
        ),
{
    if query.code.as_str().is_empty() {
        Some(fail(Status::Unauthorized, "Authorization code not provided!".to_owned()))
    } else {
        None
    }
}

/// `GET /api/g_auth`: the reply when Google's token or user information
/// request failed with `message`.
pub fn upstream_failure(message: String) -> (r: Reply)
    ensures
        is_fail(r, Status::BadGateway, message@),
{
    fail(Status::BadGateway, message)
}

/// What the last step of a sign-in decides.
pub struct SessionStart {
    pub reply: Reply,
    /// The session token to store for an existing account.
    pub store_token: Option<NewUserToken>,
}

/// `GET /api/g_auth`, last step, once Google has told who signed in.
/// A fresh session token is handed to the client in the `token` cookie.
/// When the Google account already has an account here
/// (`registered_username`), the token is stored for it and the user is
/// sent home with its username cookie; otherwise the user is remembered
/// under the token until it registers, and is sent to `/register`.
pub fn start_session(
    data: &mut ServerData,
    google_user: GoogleUserResult,
    access_token: String,
    id_token: String,
    registered_username: Option<String>,
) -> (r: SessionStart)
    ensures
        final(data).auth_config() == old(data).auth_config(),
        final(data).space_tokens() == old(data).space_tokens(),
        cookies_of(r.reply).len() >= 1,
        cookies_of(r.reply)[0].name@ == "token"@,
        !cookies_of(r.reply)[0].expired,
        ({
            let token = cookies_of(r.reply)[0].value@;
            &&& !old(data).unregistered().dom().contains(token)
            &&& token.len() == SESSION_TOKEN_LEN
            &&& forall|i: int| 0 <= i < token.len() ==> is_lower_letter(#[trigger] token[i])
            &&& match registered_username {
                Some(username) => {
                    &&& redirects_to(r.reply, "/"@)
                    &&& cookies_of(r.reply).len() == 2
                    &&& sets_cookie(cookies_of(r.reply)[1], "username"@, username@)
                    &&& r.store_token matches Some(t) && t.user_id@ == google_user.id@ && t.token@
                        == token
                    &&& final(data).unregistered() == old(data).unregistered()
                },
                None => {
                    &&& redirects_to(r.reply, "/register"@)
                    &&& cookies_of(r.reply).len() == 1
                    &&& r.store_token is None
                    &&& final(data).unregistered() == old(data).unregistered().insert(
                        token,
                        UnregisteredUser { google_user, access_token, id_token },
                    )
                },
            }
        }),
{
    let token = data.new_session_token();
    let ghost t = token@;
    match registered_username {
        Some(username) => {
            let user_id = google_user.id;
            let store = NewUserToken { user_id, token: token.clone() };
            let mut cookies: Vec<SetCookie> = Vec::new();
            cookies.push(cookie("token", token));
            cookies.push(cookie("username", username));
            SessionStart {
                reply: Reply::Redirect { location: "/".to_owned(), cookies },
                store_token: Some(store),
            }
        },
        None => {
            let user = UnregisteredUser { google_user, access_token, id_token };
            data.add_unregistered_user(token.clone(), user);
            let mut cookies: Vec<SetCookie> = Vec::new();
            cookies.push(cookie("token", token));
            SessionStart {
                reply: Reply::Redirect { location: "/register".to_owned(), cookies },
                store_token: None,
            }
        },
    }
}

/// `POST /api/register`, first step: the session token from the `token`
/// cookie must belong to a user who signed in and has not registered.
/// That user is taken out of the pending users whatever comes next.
pub fn register_take_user(data: &mut ServerData, token_cookie: Option<String>) -> (r: Result<
    (UnregisteredUser, String),
    Reply,
>)
    ensures
        final(data).auth_config() == old(data).auth_config(),
        final(data).space_tokens() == old(data).space_tokens(),
        match token_cookie {
            None => {
                &&& final(data).unregistered() == old(data).unregistered()
                &&& r matches Err(reply) && is_fail(
                    reply,
                    Status::BadGateway,
                    "You are not authenticated"@,
                )
            },
            Some(token) => {
                &&& final(data).unregistered() == old(data).unregistered().remove(token@)
                &&& match taken_user(old(data).unregistered(), token@) {
                    Some(user) => r matches Ok((u, t)) && u == user && t@ == token@,
                    None => r matches Err(reply) && is_fail(
                        reply,
                        Status::BadGateway,
                        "You are not authenticated"@,
                    ),
                }
            },
        },
{
    let token = match token_cookie {
        Some(t) => t,
        None => {
            return Err(fail(Status::BadGateway, "You are not authenticated".to_owned()));
        },
    };
    match data.take_unregistered_user(token.clone()) {
        Some(user) => Ok((user, token)),
        None => Err(fail(Status::BadGateway, "You are not authenticated".to_owned())),
    }
}

/// What registering decides.
pub struct RegisterOutcome {
    pub reply: Reply,
    /// The account to create.
    pub new_user: Option<NewUser>,
    /// The session token to store for it.
    pub new_token: Option<NewUserToken>,
}

/// `POST /api/register`, last step: a username that is taken is refused;
/// otherwise the account is created with the Google account's id and
/// e-mail address, the session token is stored for it, and the user is
/// sent home with its username cookie.
pub fn register_account(
    user: UnregisteredUser,
    token: String,
    username: String,
    username_exists: bool,
) -> (r: RegisterOutcome)
    ensures
        username_exists ==> is_fail(r.reply, Status::BadGateway, "Username already exists"@)
            && r.new_user is None && r.new_token is None,
        !username_exists ==> {
            &&& redirects_to(r.reply, "/"@)
            &&& cookies_of(r.reply).len() == 1
            &&& sets_cookie(cookies_of(r.reply)[0], "username"@, username@)
            &&& r.new_user matches Some(n) && n.id@ == user.google_user.id@ && n.email@
                == user.google_user.email@ && n.username@ == username@
            &&& r.new_token matches Some(t) && t.user_id@ == user.google_user.id@ && t.token@
                == token@
        },
{
    if username_exists {
        return RegisterOutcome {
            reply: fail(Status::BadGateway, "Username already exists".to_owned()),
            new_user: None,
            new_token: None,
        };
    }
    let id = user.google_user.id;
    let new_user = NewUser { id: id.clone(), email: user.google_user.email, username: username.clone() };
    let new_token = NewUserToken { user_id: id, token };
    let mut cookies: Vec<SetCookie> = Vec::new();
    cookies.push(cookie("username", username));
    RegisterOutcome {
        reply: Reply::Redirect { location: "/".to_owned(), cookies },
        new_user: Some(new_user),
        new_token: Some(new_token),
    }
}

/// The answer to a request that is not signed in.
pub fn not_logged() -> (r: Reply)
    ensures
        is_not_logged(r),
{
    Reply::Json {
        status: Status::Success,
        body: JsonBody::UserData(UserData { logged: false, username: None, email: None }),
    }
}

/// `POST /api/userData`: the signed-in user's name and e-mail address.
pub fn user_data(user: Option<User>) -> (r: Reply)
    ensures
        match user {
            None => is_not_logged(r),
            Some(u) => {
                &&& r matches Reply::Json { status: Status::Success, body: JsonBody::UserData(d) }
                    && d.logged
                &&& r->Json_body->UserData_0.username matches Some(n) && n@ == u.username@
                &&& r->Json_body->UserData_0.email matches Some(e) && e@ == u.email@
            },
        },
{
    match user {
        None => not_logged(),
        Some(u) => Reply::Json {
            status: Status::Success,
            body: JsonBody::UserData(
                UserData { logged: true, username: Some(u.username), email: Some(u.email) },
            ),
        },
    }
}

/// `GET /api/logout`: expires both session cookies and sends the user
/// home.
pub fn logout() -> (r: Reply)
    ensures
        redirects_to(r, "/"@),
        cookies_of(r).len() == 2,
        cookies_of(r)[0].name@ == "username"@,
        cookies_of(r)[1].name@ == "token"@,
        forall|i: int|
            0 <= i < 2 ==> (#[trigger] cookies_of(r)[i]).value@.len() == 0
                && cookies_of(r)[i].expired,
{
    let mut cookies: Vec<SetCookie> = Vec::new();
    cookies.push(SetCookie { name: "username".to_owned(), value: String::new(), expired: true });
    cookies.push(SetCookie { name: "token".to_owned(), value: String::new(), expired: true });
    Reply::Redirect { location: "/".to_owned(), cookies }
}

/// `POST /api/genSpaceAuthToken`: hands the signed-in user a fresh token
/// that a space can check once.
pub fn gen_space_auth_token(data: &mut ServerData, user: Option<User>) -> (r: Reply)
    ensures
        final(data).auth_config() == old(data).auth_config(),
        final(data).unregistered() == old(data).unregistered(),
        match user {
            None => is_not_logged(r) && final(data).space_tokens() == old(data).space_tokens(),
            Some(u) => {
                &&& r matches Reply::Json {
                    status: Status::Success,
                    body: JsonBody::SpaceToken { token, username },
                } && username@ == u.username@ && token@.len() == SESSION_TOKEN_LEN
                    && !old(data).space_tokens().dom().contains(token@)
                    && final(data).space_tokens() == old(data).space_tokens().insert(token@, u.username)
            },
        },
{
    match user {
        None => not_logged(),
        Some(u) => {
            let token = data.new_space_auth_token();
            data.add_space_auth_token(u.username.clone(), token.clone());
            Reply::Json {
                status: Status::Success,
                body: JsonBody::SpaceToken { token, username: u.username },
            }
        },
    }
}

/// `POST /api/checkSpaceAuthToken/{username}/{token}`: whether the token
/// was handed to that user. The token can be checked only once.
pub fn check_space_auth_token(data: &mut ServerData, username: &str, token: &str) -> (r: Reply)
    ensures
        final(data).auth_config() == old(data).auth_config(),
        final(data).unregistered() == old(data).unregistered(),
        final(data).space_tokens() == old(data).space_tokens().remove(token@),
        r matches Reply::Json { status: Status::Success, body: JsonBody::Authenticated(b) } && b
            == space_token_matches(old(data).space_tokens(), username@, token@),
{
    let authenticated = data.take_space_auth_tokens(username, token);
    Reply::Json { status: Status::Success, body: JsonBody::Authenticated(authenticated) }
}

} // verus!

//! The relay's in-memory state: users who signed in with Google but have
//! not registered yet, and the one-shot tokens handed to spaces.

use vstd::prelude::*;
use crate::string_map::StringMap;
use crate::relay::g_auth::UnregisteredUser;
use crate::relay::auth::{new_session_token, is_lower_letter, SESSION_TOKEN_LEN};

verus! {

/// The Google OAuth2 client settings.
pub struct GoogleAuthConfig {
    pub redirect_url: String,
    pub client_secret: String,
    pub client_id: String,
}

/// The relay's state.
pub struct ServerData {
    /// Auth config
    auth: GoogleAuthConfig,
    /// Users who are about to create their accounts in the /register page,
    /// by session token.
    unregistered_users: StringMap<UnregisteredUser>,
    /// Tokens used by a space to authenticate a user: token to username.
    space_auth_tokens: StringMap<String>,
}

/// The unregistered user that taking `token` hands back.
pub open spec fn taken_user(
    m: Map<Seq<char>, UnregisteredUser>,
    token: Seq<char>,
) -> Option<UnregisteredUser> {
    if m.dom().contains(token) {
        Some(m[token])
    } else {
        None
    }
}

/// Whether `token` was handed to `username`: what taking it answers.
pub open spec fn space_token_matches(
    m: Map<Seq<char>, String>,
    username: Seq<char>,
    token: Seq<char>,
) -> bool {
    m.dom().contains(token) && m[token]@ == username
}

impl ServerData {
    /// The Google client settings.
    pub closed spec fn auth_config(&self) -> GoogleAuthConfig {
        self.auth
    }

    /// The Google client settings.
    pub fn auth(&self) -> (r: &GoogleAuthConfig)
        ensures
            *r == self.auth_config(),
    {
        &self.auth
    }

    /// The unregistered users, by session token.
    pub closed spec fn unregistered(&self) -> Map<Seq<char>, UnregisteredUser> {
        self.unregistered_users.view()
    }

    /// The space authentication tokens, each with its username.
    pub closed spec fn space_tokens(&self) -> Map<Seq<char>, String> {
        self.space_auth_tokens.view()
    }

    /// A relay with the given client settings and no pending users or tokens.
    pub fn new(auth: GoogleAuthConfig) -> (r: Self)
        ensures
            r.auth_config() == auth,
            r.unregistered() == Map::<Seq<char>, UnregisteredUser>::empty(),
            r.space_tokens() == Map::<Seq<char>, String>::empty(),
    {
        ServerData {
            auth,
            unregistered_users: StringMap::new(),
            space_auth_tokens: StringMap::new(),
        }
    }

    /// A fresh session token: 64 random letters from `a` to `z`, under
    /// which no user is waiting to register.
    pub fn new_session_token(&self) -> (r: String)
        ensures
            !self.unregistered().dom().contains(r@),
            r@.len() == SESSION_TOKEN_LEN,
            forall|i: int| 0 <= i < r@.len() ==> is_lower_letter(#[trigger] r@[i]),
    {
        new_session_token(&self.unregistered_users)
    }

    /// A fresh space token: 64 random letters from `a` to `z`, not handed
    /// out already.
    pub fn new_space_auth_token(&self) -> (r: String)
        ensures
            !self.space_tokens().dom().contains(r@),
            r@.len() == SESSION_TOKEN_LEN,
            forall|i: int| 0 <= i < r@.len() ==> is_lower_letter(#[trigger] r@[i]),
    {
        new_session_token(&self.space_auth_tokens)
    }

    /// Remembers `user` under the session `token` until it registers.
    pub fn add_unregistered_user(&mut self, token: String, user: UnregisteredUser)
        ensures
            final(self).unregistered() == old(self).unregistered().insert(token@, user),
            final(self).space_tokens() == old(self).space_tokens(),
            final(self).auth_config() == old(self).auth_config(),
    {
        self.unregistered_users.insert(token, user);
    }

    /// Hands back, and forgets, the user remembered under `token`.
    pub fn take_unregistered_user(&mut self, token: String) -> (r: Option<UnregisteredUser>)
        ensures
            r == taken_user(old(self).unregistered(), token@),
            final(self).unregistered() == old(self).unregistered().remove(token@),
            final(self).space_tokens() == old(self).space_tokens(),
            final(self).auth_config() == old(self).auth_config(),
    {
        self.unregistered_users.remove(&token)
    }

    /// Hands `token` to `username`, for one authentication by a space.
    pub fn add_space_auth_token(&mut self, username: String, token: String)
        ensures
            final(self).space_tokens() == old(self).space_tokens().insert(token@, username),
            final(self).unregistered() == old(self).unregistered(),
            final(self).auth_config() == old(self).auth_config(),
    {
        self.space_auth_tokens.insert(token, username);
    }

    /// Consumes `token`: whether it was handed to `username`. The token is
    /// gone afterwards, whoever asked.
    pub fn take_space_auth_tokens(&mut self, username: &str, token: &str) -> (r: bool)
        ensures
            r == space_token_matches(old(self).space_tokens(), username@, token@),
            final(self).space_tokens() == old(self).space_tokens().remove(token@),
            final(self).unregistered() == old(self).unregistered(),
            final(self).auth_config() == old(self).auth_config(),
    {
        let key = token.to_owned();
        match self.space_auth_tokens.remove(&key) {
            Some(user) => {
                let wanted = username.to_owned();
                user == wanted
            },
            None => false,
        }
    }
}

/// A user remembered under a session token is handed back by the next
/// take of that token, and by none after it.
pub proof fn lemma_unregistered_user_taken_once(
    m: Map<Seq<char>, UnregisteredUser>,
    token: Seq<char>,
    user: UnregisteredUser,
)
    ensures
        taken_user(m.insert(token, user), token) == Some(user),
        taken_user(m.insert(token, user).remove(token), token) is None,
{
}

/// A space token authenticates the user it was handed to, and no one
/// else; once taken it authenticates no one.
pub proof fn lemma_space_token_single_use(
    m: Map<Seq<char>, String>,
    username: String,
    token: Seq<char>,
    asker: Seq<char>,
)
    ensures
        space_token_matches(m.insert(token, username), asker, token) == (asker == username@),
        !space_token_matches(m.insert(token, username).remove(token), asker, token),
{
}

/// Space tokens handed out one after the other differ, and handing out
/// the second leaves the first authenticating its own user.
pub proof fn lemma_space_tokens_in_turn(
    m: Map<Seq<char>, String>,
    first: String,
    first_token: Seq<char>,
    second: String,
    second_token: Seq<char>,
)
    requires
        !m.dom().contains(first_token),
        !m.insert(first_token, first).dom().contains(second_token),
    ensures
        first_token != second_token,
        space_token_matches(
            m.insert(first_token, first).insert(second_token, second),
            first@,
            first_token,
        ),
        space_token_matches(
            m.insert(first_token, first).insert(second_token, second),
            second@,
            second_token,
        ),
{
}

/// Users who sign in one after the other get different session tokens,
/// and each one's registration takes back its own pending sign-in.
pub proof fn lemma_sign_ins_in_turn(
    m: Map<Seq<char>, UnregisteredUser>,
    first: UnregisteredUser,
    first_token: Seq<char>,
    second: UnregisteredUser,
    second_token: Seq<char>,
)
    requires
        !m.dom().contains(first_token),
        !m.insert(first_token, first).dom().contains(second_token),
    ensures
        first_token != second_token,
        taken_user(m.insert(first_token, first).insert(second_token, second), first_token) == Some(
            first,
        ),
        taken_user(m.insert(first_token, first).insert(second_token, second), second_token)
            == Some(second),
{
}

/// Taking a token leaves every other token as it was.
pub proof fn lemma_space_token_take_keeps_others(
    m: Map<Seq<char>, String>,
    token: Seq<char>,
    other: Seq<char>,
    asker: Seq<char>,
)
    requires
        other != token,
    ensures
        space_token_matches(m.remove(token), asker, other) == space_token_matches(m, asker, other),
{
}

} // verus!

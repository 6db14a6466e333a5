//! The space's authentication of users. A user shows a token that the
//! relay handed it; the space asks the relay once whether the token is
//! the user's (the relay forgets the token when asked) and remembers the
//! positive answers.

use vstd::prelude::*;
use crate::string_map::StringMap;
use crate::space::config::SpaceConfig;
use crate::json::{json_bool_field, read_json_bool_field};
use crate::text::concat5;

verus! {

/// The first step of authenticating a user: an answer from the cache, or
/// the question to ask the relay.
pub enum AuthStep {
    /// The cache knows the token: this is the answer, and the relay is not
    /// asked.
    Answer(bool),
    /// The cache does not know the token: ask the relay at this address,
    /// then record its answer with `record_relay_answer`.
    AskRelay(String),
}

/// The space's state.
pub struct ServerData {
    /// Relay URI
    relay_uri: String,
    /// The tokens the relay vouched for: token to username.
    auth_tokens: StringMap<String>,
}

/// What the cache of vouched tokens answers for `username` and `token`:
/// nothing when the token is unknown, else whether it is that user's.
pub open spec fn cache_answer(
    m: Map<Seq<char>, Seq<char>>,
    username: Seq<char>,
    token: Seq<char>,
) -> Option<bool> {
    if m.dom().contains(token) {
        Some(m[token] == username)
    } else {
        None
    }
}

/// The cache after the relay answered `answer` about `username` and
/// `token`: only a positive answer is remembered.
pub open spec fn cache_after_answer(
    m: Map<Seq<char>, Seq<char>>,
    username: Seq<char>,
    token: Seq<char>,
    answer: Option<bool>,
) -> Map<Seq<char>, Seq<char>> {
    if answer == Some(true) {
        m.insert(token, username)
    } else {
        m
    }
}

/// The question the space asks the relay about `username` and `token`.
pub open spec fn check_url(relay: Seq<char>, username: Seq<char>, token: Seq<char>) -> Seq<char> {
    relay + "/api/checkSpaceAuthToken/"@ + username + "/"@ + token
}

impl ServerData {
    /// The relay's address.
    pub closed spec fn relay(&self) -> Seq<char> {
        self.relay_uri@
    }

    /// The tokens the relay vouched for, each with its username.
    pub closed spec fn cache(&self) -> Map<Seq<char>, Seq<char>> {
        self.auth_tokens.view().map_values(|u: String| u@)
    }

    /// A space that trusts the relay of `config` and has vouched tokens
    /// for no one yet.
    pub fn new(config: &SpaceConfig) -> (r: Self)
        ensures
            r.relay() == config.server.relay@,
            r.cache() == Map::<Seq<char>, Seq<char>>::empty(),
    {
        let r = ServerData { relay_uri: config.server.relay.clone(), auth_tokens: StringMap::new() };
        assert(r.cache() =~= Map::<Seq<char>, Seq<char>>::empty());
        r
    }

    /// The relay's address.
    pub fn relay_uri(&self) -> (r: &String)
        ensures
            r@ == self.relay(),
    {
        &self.relay_uri
    }

    /// The first step of authenticating `username` with `token`: the
    /// answer of the cache, if the token is in it.
    pub fn cached_auth(&self, username: &str, token: &str) -> (r: Option<bool>)
        ensures
            r == cache_answer(self.cache(), username@, token@),
    {
        let key = token.to_owned();
        match self.auth_tokens.get(&key) {
            Some(user) => {
                let wanted = username.to_owned();
                Some(*user == wanted)
            },
            None => None,
        }
    }

    /// Authenticating `username` with `token`: the cache answers for the
    /// tokens the relay vouched for; for any other token the relay must be
    /// asked (it forgets the token when asked, so its yes is remembered).
    pub fn auth_user(&self, username: &str, token: &str) -> (r: AuthStep)
        ensures
            match cache_answer(self.cache(), username@, token@) {
                Some(b) => r == AuthStep::Answer(b),
                None => r matches AuthStep::AskRelay(url) && url@ == check_url(
                    self.relay(),
                    username@,
                    token@,
                ),
            },
    {
        match self.cached_auth(username, token) {
            Some(b) => AuthStep::Answer(b),
            None => AuthStep::AskRelay(self.relay_check_url(username, token)),
        }
    }

    /// The address of the relay's check of `username` and `token`.
    pub fn relay_check_url(&self, username: &str, token: &str) -> (r: String)
        ensures
            r@ == check_url(self.relay(), username@, token@),
    {
        concat5(self.relay_uri.as_str(), "/api/checkSpaceAuthToken/", username, "/", token)
    }

    /// The last step: the relay answered `answer` (`None` where the
    /// request or its answer failed). `username` is authenticated exactly
    /// when the answer is a yes, which is then remembered.
    pub fn record_relay_answer(&mut self, username: &str, token: &str, answer: Option<bool>) -> (r:
        bool)
        ensures
            r == (answer == Some(true)),
            final(self).relay() == old(self).relay(),
            answer == Some(true) ==> final(self).cache() == old(self).cache().insert(
                token@,
                username@,
            ),
            answer != Some(true) ==> final(self).cache() == old(self).cache(),
            final(self).cache() == cache_after_answer(
                old(self).cache(),
                username@,
                token@,
                answer,
            ),
    {
        match answer {
            Some(true) => {
                self.auth_tokens.insert(token.to_owned(), username.to_owned());
                assert(self.cache() =~= old(self).cache().insert(token@, username@));
                true
            },
            _ => false,
        }
    }
}

/// The relay's answer, read from the body of its reply: the boolean
/// field `authenticated`.
pub fn parse_relay_answer(body: &str) -> (r: Option<bool>)
    ensures
        r == json_bool_field(body@, "authenticated"@),
{
    read_json_bool_field(body, "authenticated")
}

/// Once authenticating `username` with `token` has said yes, and as long
/// as nothing took the token out of the cache, `ServerData::auth_user`
/// with that token is answered by the space alone: yes for `username`, no
/// for any other user, and the relay is not asked again.
pub proof fn lemma_auth_user_keeps_answering(
    space: ServerData,
    username: Seq<char>,
    token: Seq<char>,
    asker: Seq<char>,
)
    requires
        space.cache().dom().contains(token),
        space.cache()[token] == username,
    ensures
        cache_answer(space.cache(), username, token) == Some(true),
        asker != username ==> cache_answer(space.cache(), asker, token) == Some(false),
        cache_answer(space.cache(), asker, token) is Some,
{
}

/// Recording the relay's yes about `username` and `token` leaves the
/// space answering that token by itself: after it, `auth_user` says yes
/// for `username` and no for anyone else, without asking the relay.
pub proof fn lemma_recorded_yes_answers(
    before: ServerData,
    after: ServerData,
    username: Seq<char>,
    token: Seq<char>,
    asker: Seq<char>,
)
    requires
        after.cache() == cache_after_answer(before.cache(), username, token, Some(true)),
    ensures
        cache_answer(after.cache(), asker, token) == Some(asker == username),
{
}

/// A refusal, or a failed exchange with the relay, is not remembered.
pub proof fn lemma_refusal_not_cached(
    m: Map<Seq<char>, Seq<char>>,
    username: Seq<char>,
    token: Seq<char>,
    answer: Option<bool>,
)
    requires
        answer != Some(true),
    ensures
        cache_after_answer(m, username, token, answer) == m,
{
}

} // verus!

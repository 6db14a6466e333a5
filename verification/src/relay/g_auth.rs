//! Google OAuth2: the data that the sign-in exchanges carry and the
//! requests that the relay makes.

use vstd::prelude::*;

verus! {

/// What Google's token endpoint answers.
pub struct OAuthResponse {
    pub access_token: String,
    pub id_token: String,
}

/// Google login response code, as the sign-in redirect carries it.
pub struct QueryCode {
    pub code: String,
    pub state: Option<String>,
}

/// The user information that Google returns.
pub struct GoogleUserResult {
    pub id: String,
    pub email: String,
    pub verified_email: Option<bool>,
    pub name: Option<String>,
    pub given_name: Option<String>,
    pub family_name: Option<String>,
    pub picture: Option<String>,
    pub locale: Option<String>,
}

/// Users who have signed in for the first time, but have yet to
/// register an account on the register page.
pub struct UnregisteredUser {
    pub google_user: GoogleUserResult,
    pub access_token: String,
    pub id_token: String,
}

/// The address of Google's account chooser.
pub const CHOOSE_ACCOUNT: &'static str = "https://accounts.google.com/o/oauth2/v2/auth/oauthchooseaccount";

/// The address of Google's token endpoint.
pub const TOKEN_URL: &'static str = "https://oauth2.googleapis.com/token";

/// The address of Google's user information endpoint.
pub const USER_INFO_URL: &'static str = "https://www.googleapis.com/oauth2/v1/userinfo";

/// The views of a list of name/value pairs.
pub open spec fn pairs_view(pairs: Seq<(String, String)>) -> Seq<(Seq<char>, Seq<char>)> {
    pairs.map_values(|p: (String, String)| (p.0@, p.1@))
}

/// The text of the URL that `reqwest::Url::parse` makes of `base`, after
/// each pair of `pairs` was appended to its query, in order, with
/// `append_pair`; `None` where `base` does not parse.
pub uninterp spec fn url_with_query(base: Seq<char>, pairs: Seq<(Seq<char>, Seq<char>)>) -> Option<
    Seq<char>,
>;

/// Calls `reqwest::Url::parse` on `base`, appends every pair to the
/// query with `form_urlencoded::Serializer::extend_pairs` (which calls
/// `append_pair` on each, in order) and returns the URL's text. The
/// contract only names the result: the URL syntax and the encoding of the
/// query are the `url` crate's. The two fixed addresses that the relay
/// uses, the account chooser and the user information endpoint, are
/// absolute `https` URLs with a host and a path, which `Url::parse`
/// accepts, and appending pairs cannot fail: for them the contract states
/// that a URL comes back.
#[verifier::external_body]
fn append_query_pairs(base: &str, pairs: &Vec<(String, String)>) -> (r: Option<String>)
    ensures
        match r {
            Some(s) => url_with_query(base@, pairs_view(pairs@)) == Some(s@),
            None => url_with_query(base@, pairs_view(pairs@)) is None,
        },
        (base@ == CHOOSE_ACCOUNT@ || base@ == USER_INFO_URL@) ==> r is Some,
{
    let mut url = reqwest::Url::parse(base).ok()?;
    url.query_pairs_mut().extend_pairs(pairs.iter());
    Some(url.into())
}

/// A pair of strings from two literals.
fn pair(name: &str, value: &str) -> (r: (String, String))
    ensures
        r.0@ == name@,
        r.1@ == value@,
{
    (name.to_owned(), value.to_owned())
}

/// The query pairs of the Google sign-in request.
pub open spec fn login_query(client_id: Seq<char>, redirect: Seq<char>) -> Seq<(Seq<char>, Seq<char>)> {
    seq![
        ("client_id"@, client_id),
        ("scope"@, "https://www.googleapis.com/auth/userinfo.email"@),
        ("response_type"@, "code"@),
        ("redirect_uri"@, redirect),
        ("service"@, "lso"@),
        ("o2v"@, "2"@),
    ]
}

/// The address to which the user is sent to sign in with Google: the
/// account chooser, asked for the user's e-mail address, with the
/// relay's client id and the address Google redirects back to.
pub fn gen_login_url(client_id: &str, redirect: &str) -> (r: String)
    ensures
        url_with_query(CHOOSE_ACCOUNT@, login_query(client_id@, redirect@)) == Some(r@),
{
    let mut pairs: Vec<(String, String)> = Vec::new();
    pairs.push(pair("client_id", client_id));
    pairs.push(pair("scope", "https://www.googleapis.com/auth/userinfo.email"));
    pairs.push(pair("response_type", "code"));
    pairs.push(pair("redirect_uri", redirect));
    pairs.push(pair("service", "lso"));
    pairs.push(pair("o2v", "2"));
    assert(pairs_view(pairs@) =~= login_query(client_id@, redirect@));
    match append_query_pairs(CHOOSE_ACCOUNT, &pairs) {
        Some(url) => url,
        None => String::new(),
    }
}

/// The form that asks Google's token endpoint to trade an authorization
/// code for tokens.
pub open spec fn token_form(
    authorization_code: Seq<char>,
    redirect_url: Seq<char>,
    client_id: Seq<char>,
    client_secret: Seq<char>,
) -> Seq<(Seq<char>, Seq<char>)> {
    seq![
        ("grant_type"@, "authorization_code"@),
        ("redirect_uri"@, redirect_url),
        ("client_id"@, client_id),
        ("code"@, authorization_code),
        ("client_secret"@, client_secret),
    ]
}

/// The form fields of the token request, in the order they are sent.
pub fn token_request_params(
    authorization_code: &str,
    redirect_url: &str,
    client_id: &str,
    client_secret: &str,
) -> (r: Vec<(String, String)>)
    ensures
        pairs_view(r@) == token_form(authorization_code@, redirect_url@, client_id@, client_secret@),
{
    let mut pairs: Vec<(String, String)> = Vec::new();
    pairs.push(pair("grant_type", "authorization_code"));
    pairs.push(pair("redirect_uri", redirect_url));
    pairs.push(pair("client_id", client_id));
    pairs.push(pair("code", authorization_code));
    pairs.push(pair("client_secret", client_secret));
    assert(pairs_view(pairs@) =~= token_form(
        authorization_code@,
        redirect_url@,
        client_id@,
        client_secret@,
    ));
    pairs
}

/// The query pairs of the user information request.
pub open spec fn user_info_query(access_token: Seq<char>) -> Seq<(Seq<char>, Seq<char>)> {
    seq![("alt"@, "json"@), ("access_token"@, access_token)]
}

/// The address from which the signed-in user's information is fetched,
/// asking for JSON and carrying the access token.
pub fn google_user_url(access_token: &str) -> (r: String)
    ensures
        url_with_query(USER_INFO_URL@, user_info_query(access_token@)) == Some(r@),
{
    let mut pairs: Vec<(String, String)> = Vec::new();
    pairs.push(pair("alt", "json"));
    pairs.push(pair("access_token", access_token));
    assert(pairs_view(pairs@) =~= user_info_query(access_token@));
    match append_query_pairs(USER_INFO_URL, &pairs) {
        Some(url) => url,
        None => String::new(),
    }
}

} // verus!

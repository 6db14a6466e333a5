use hutopia::relay::auth::{authenticated_user, random_session_token, session_credentials, token_alphabet, token_of_letters};
use hutopia::relay::assets::{handle_static_file, StaticFileReply};
use hutopia::relay::config::{Env, RelayConfig, Server};
use hutopia::relay::g_auth::{
    gen_login_url, google_user_url, token_request_params, GoogleUserResult, QueryCode,
};
use hutopia::relay::models::User;
use hutopia::relay::routes::{
    check_authorization_code, check_space_auth_token, gen_space_auth_token, login, logout,
    not_logged, register_account, register_take_user, start_session, upstream_failure,
    user_data, JsonBody, Reply, Status,
};
use hutopia::relay::state::{GoogleAuthConfig, ServerData};

fn auth() -> GoogleAuthConfig {
    GoogleAuthConfig {
        redirect_url: "http://localhost:8080/api/g_auth".to_string(),
        client_secret: "secret".to_string(),
        client_id: "client".to_string(),
    }
}

fn google_user(id: &str) -> GoogleUserResult {
    GoogleUserResult {
        id: id.to_string(),
        email: format!("{id}@example.com"),
        verified_email: Some(true),
        name: None,
        given_name: None,
        family_name: None,
        picture: None,
        locale: None,
    }
}

fn user(name: &str) -> User {
    User { id: "g1".to_string(), email: "g1@example.com".to_string(), username: name.to_string() }
}

fn fail_message(r: &Reply) -> Option<(Status, String)> {
    match r {
        Reply::Json { status, body: JsonBody::Fail { message } } => Some((*status, message.clone())),
        _ => None,
    }
}

#[test]
fn login_url_is_googles_account_chooser() {
    let url = gen_login_url("client", "http://localhost:8080/api/g_auth");
    assert_eq!(
        url,
        "https://accounts.google.com/o/oauth2/v2/auth/oauthchooseaccount?client_id=client\
&scope=https%3A%2F%2Fwww.googleapis.com%2Fauth%2Fuserinfo.email&response_type=code\
&redirect_uri=http%3A%2F%2Flocalhost%3A8080%2Fapi%2Fg_auth&service=lso&o2v=2"
    );
}

#[test]
fn login_redirects_to_the_account_chooser() {
    let data = ServerData::new(auth());
    match login(&data) {
        Reply::Redirect { location, cookies } => {
            assert!(location.starts_with("https://accounts.google.com/o/oauth2/v2/auth/oauthchooseaccount?client_id=client&"));
            assert!(cookies.is_empty());
        }
        _ => panic!("expected a redirect"),
    }
}

#[test]
fn token_request_form_fields() {
    let params = token_request_params("code1", "http://r", "id", "sec");
    let expected: Vec<(String, String)> = vec![
        ("grant_type".into(), "authorization_code".into()),
        ("redirect_uri".into(), "http://r".into()),
        ("client_id".into(), "id".into()),
        ("code".into(), "code1".into()),
        ("client_secret".into(), "sec".into()),
    ];
    assert_eq!(params, expected);
}

#[test]
fn user_info_url_carries_the_access_token() {
    assert_eq!(
        google_user_url("tok en"),
        "https://www.googleapis.com/oauth2/v1/userinfo?alt=json&access_token=tok+en"
    );
}

#[test]
fn session_tokens_are_64_lowercase_letters() {
    let a = random_session_token();
    let b = random_session_token();
    assert_eq!(a.chars().count(), 64);
    assert!(a.chars().all(|c| c.is_ascii_lowercase()));
    assert_ne!(a, b);
}

#[test]
fn missing_authorization_code_is_refused() {
    let empty = QueryCode { code: String::new(), state: None };
    let r = check_authorization_code(&empty).unwrap();
    assert_eq!(
        fail_message(&r),
        Some((Status::Unauthorized, "Authorization code not provided!".to_string()))
    );
    let some = QueryCode { code: "abc".to_string(), state: None };
    assert!(check_authorization_code(&some).is_none());
}

#[test]
fn upstream_failure_is_bad_gateway() {
    let r = upstream_failure("boom".to_string());
    assert_eq!(fail_message(&r), Some((Status::BadGateway, "boom".to_string())));
}

#[test]
fn first_sign_in_goes_to_register_then_registers() {
    let mut data = ServerData::new(auth());
    let start = start_session(&mut data, google_user("g1"), "acc".into(), "idt".into(), None);
    assert!(start.store_token.is_none());
    let token = match &start.reply {
        Reply::Redirect { location, cookies } => {
            assert_eq!(location, "/register");
            assert_eq!(cookies.len(), 1);
            assert_eq!(cookies[0].name, "token");
            cookies[0].value.clone()
        }
        _ => panic!("expected a redirect"),
    };
    let (pending, t) = register_take_user(&mut data, Some(token.clone())).ok().unwrap();
    assert_eq!(t, token);
    assert_eq!(pending.google_user.id, "g1");
    assert_eq!(pending.access_token, "acc");
    // the pending user is gone once taken
    let again = register_take_user(&mut data, Some(token.clone())).err().unwrap();
    assert_eq!(
        fail_message(&again),
        Some((Status::BadGateway, "You are not authenticated".to_string()))
    );
    let out = register_account(pending, token.clone(), "alice".into(), false);
    let nu = out.new_user.unwrap();
    assert_eq!((nu.id.as_str(), nu.email.as_str(), nu.username.as_str()), ("g1", "g1@example.com", "alice"));
    let nt = out.new_token.unwrap();
    assert_eq!((nt.user_id.as_str(), nt.token.as_str()), ("g1", token.as_str()));
    match out.reply {
        Reply::Redirect { location, cookies } => {
            assert_eq!(location, "/");
            assert_eq!(cookies.len(), 1);
            assert_eq!((cookies[0].name.as_str(), cookies[0].value.as_str()), ("username", "alice"));
        }
        _ => panic!("expected a redirect"),
    }
}

#[test]
fn register_without_cookie_or_with_taken_name_fails() {
    let mut data = ServerData::new(auth());
    let r = register_take_user(&mut data, None).err().unwrap();
    assert_eq!(fail_message(&r), Some((Status::BadGateway, "You are not authenticated".to_string())));
    let r = register_take_user(&mut data, Some("nope".into())).err().unwrap();
    assert_eq!(fail_message(&r), Some((Status::BadGateway, "You are not authenticated".to_string())));
    let pending = hutopia::relay::g_auth::UnregisteredUser {
        google_user: google_user("g2"),
        access_token: "a".into(),
        id_token: "i".into(),
    };
    let out = register_account(pending, "t".into(), "bob".into(), true);
    assert!(out.new_user.is_none() && out.new_token.is_none());
    assert_eq!(fail_message(&out.reply), Some((Status::BadGateway, "Username already exists".to_string())));
}

#[test]
fn returning_user_gets_token_and_username_cookies() {
    let mut data = ServerData::new(auth());
    let start = start_session(&mut data, google_user("g1"), "a".into(), "i".into(), Some("alice".into()));
    let stored = start.store_token.unwrap();
    assert_eq!(stored.user_id, "g1");
    match &start.reply {
        Reply::Redirect { location, cookies } => {
            assert_eq!(location, "/");
            assert_eq!(cookies.len(), 2);
            assert_eq!(cookies[0].name, "token");
            assert_eq!(cookies[0].value, stored.token);
            assert_eq!((cookies[1].name.as_str(), cookies[1].value.as_str()), ("username", "alice"));
        }
        _ => panic!("expected a redirect"),
    }
    // nothing is pending for a returning user
    assert!(register_take_user(&mut data, Some(stored.token.clone())).is_err());
}

#[test]
fn authentication_needs_both_cookies_and_a_known_token() {
    assert!(session_credentials(Some("t".into()), None).is_none());
    assert!(session_credentials(None, Some("u".into())).is_none());
    assert_eq!(session_credentials(Some("t".into()), Some("u".into())), Some(("t".to_string(), "u".to_string())));
    assert!(authenticated_user(Some(user("alice")), false).is_none());
    assert!(authenticated_user(None, true).is_none());
    assert_eq!(authenticated_user(Some(user("alice")), true).unwrap().username, "alice");
}

#[test]
fn user_data_and_not_logged() {
    match not_logged() {
        Reply::Json { status: Status::Success, body: JsonBody::UserData(d) } => {
            assert!(!d.logged && d.username.is_none() && d.email.is_none());
        }
        _ => panic!("expected user data"),
    }
    match user_data(Some(user("alice"))) {
        Reply::Json { status: Status::Success, body: JsonBody::UserData(d) } => {
            assert!(d.logged);
            assert_eq!(d.username.as_deref(), Some("alice"));
            assert_eq!(d.email.as_deref(), Some("g1@example.com"));
        }
        _ => panic!("expected user data"),
    }
}

#[test]
fn logout_expires_both_cookies() {
    match logout() {
        Reply::Redirect { location, cookies } => {
            assert_eq!(location, "/");
            let names: Vec<&str> = cookies.iter().map(|c| c.name.as_str()).collect();
            assert_eq!(names, vec!["username", "token"]);
            assert!(cookies.iter().all(|c| c.value.is_empty() && c.expired));
        }
        _ => panic!("expected a redirect"),
    }
}

#[test]
fn space_token_authenticates_its_user_once() {
    let mut data = ServerData::new(auth());
    let token = match gen_space_auth_token(&mut data, Some(user("alice"))) {
        Reply::Json { status: Status::Success, body: JsonBody::SpaceToken { token, username } } => {
            assert_eq!(username, "alice");
            token
        }
        _ => panic!("expected a token"),
    };
    let answer = |r: Reply| match r {
        Reply::Json { body: JsonBody::Authenticated(b), .. } => b,
        _ => panic!("expected an answer"),
    };
    assert!(answer(check_space_auth_token(&mut data, "alice", &token)));
    assert!(!answer(check_space_auth_token(&mut data, "alice", &token)));
}

#[test]
fn space_token_checked_for_another_user_is_spent() {
    let mut data = ServerData::new(auth());
    data.add_space_auth_token("alice".into(), "tok".into());
    let answer = |r: Reply| match r {
        Reply::Json { body: JsonBody::Authenticated(b), .. } => b,
        _ => panic!("expected an answer"),
    };
    assert!(!answer(check_space_auth_token(&mut data, "mallory", "tok")));
    assert!(!answer(check_space_auth_token(&mut data, "alice", "tok")));
}

#[test]
fn gen_space_auth_token_needs_a_user() {
    let mut data = ServerData::new(auth());
    match gen_space_auth_token(&mut data, None) {
        Reply::Json { body: JsonBody::UserData(d), .. } => assert!(!d.logged),
        _ => panic!("expected not logged"),
    }
}

#[test]
fn unregistered_users_are_taken_once() {
    let mut data = ServerData::new(auth());
    let u = hutopia::relay::g_auth::UnregisteredUser { google_user: google_user("g9"), access_token: "a".into(), id_token: "b".into() };
    data.add_unregistered_user("t1".into(), u);
    assert_eq!(data.take_unregistered_user("t1".into()).unwrap().google_user.id, "g9");
    assert!(data.take_unregistered_user("t1".into()).is_none());
}

#[test]
fn static_files_of_the_front_end() {
    match handle_static_file("index.html", Some(b"<html>".to_vec())) {
        StaticFileReply::Found { content_type, body } => {
            assert_eq!(content_type, "text/html");
            assert_eq!(body, b"<html>".to_vec());
        }
        _ => panic!("expected the file"),
    }
    match handle_static_file("missing.bin", None) {
        StaticFileReply::NotFound { text } => assert_eq!(text, "404 Not Found"),
        _ => panic!("expected 404"),
    }
}

#[test]
fn relay_config_bind_address() {
    let c = RelayConfig {
        server: Server { address: "0.0.0.0".into(), port: 8080 },
        env: Env {
            db_connection: "DB".into(),
            g_auth_client_id: "ID".into(),
            g_auth_secret: "SECRET".into(),
            redirect_url: "REDIRECT".into(),
        },
    };
    assert_eq!(c.bind_address(), ("0.0.0.0".to_string(), 8080));
}

#[test]
fn token_alphabet_is_a_to_z() {
    let letters: String = token_alphabet().into_iter().collect();
    assert_eq!(letters, "abcdefghijklmnopqrstuvwxyz");
}

#[test]
fn token_is_the_drawn_letters_in_order() {
    assert_eq!(token_of_letters(&vec!['q', 'a', 'z']), "qaz");
    assert_eq!(token_of_letters(&vec![]), "");
}

use hutopia::space::config::{Env, Server, SpaceConfig};
use hutopia::space::plugins::{
    check_plugin_versions, is_plugin_library, PluginHandler, PluginLoadError, PluginRegistrar,
};
use hutopia::space::routes::internal_request_allowed;
use hutopia::space::state::{parse_relay_answer, AuthStep, ServerData};
use hutopia::space::watcher::{restart_due, WatcherData};

fn config() -> SpaceConfig {
    SpaceConfig {
        server: Server { address: "0.0.0.0".into(), port: 8081, relay: "http://relay:8080".into() },
        env: Env { db_connection: "DB".into() },
    }
}

#[test]
fn relay_check_url() {
    let data = ServerData::new(&config());
    assert_eq!(data.relay_uri(), "http://relay:8080");
    assert_eq!(
        data.relay_check_url("alice", "tok"),
        "http://relay:8080/api/checkSpaceAuthToken/alice/tok"
    );
    assert_eq!(config().bind_address(), ("0.0.0.0".to_string(), 8081));
}

#[test]
fn vouched_tokens_are_cached() {
    let mut data = ServerData::new(&config());
    assert_eq!(data.cached_auth("alice", "tok"), None);
    assert!(data.record_relay_answer("alice", "tok", Some(true)));
    assert_eq!(data.cached_auth("alice", "tok"), Some(true));
    assert_eq!(data.cached_auth("mallory", "tok"), Some(false));
}

#[test]
fn refusals_and_failures_are_not_cached() {
    let mut data = ServerData::new(&config());
    assert!(!data.record_relay_answer("alice", "tok", Some(false)));
    assert!(!data.record_relay_answer("alice", "tok", None));
    assert_eq!(data.cached_auth("alice", "tok"), None);
}

#[test]
fn relay_answers_are_read_from_json() {
    assert_eq!(parse_relay_answer("{\"authenticated\": true}"), Some(true));
    assert_eq!(parse_relay_answer("{\"authenticated\":false}"), Some(false));
    assert_eq!(parse_relay_answer("{\"authenticated\": \"yes\"}"), None);
    assert_eq!(parse_relay_answer("{}"), None);
    assert_eq!(parse_relay_answer("not json"), None);
}

#[test]
fn internal_routes_only_from_loopback() {
    assert!(internal_request_allowed(Some("127.0.0.1".into())));
    assert!(!internal_request_allowed(Some("10.0.0.1".into())));
    assert!(!internal_request_allowed(None));
}

#[test]
fn plugin_versions_must_match() {
    assert_eq!(check_plugin_versions("1.80", "0.1", "1.80", "0.1"), Ok(()));
    assert_eq!(check_plugin_versions("1.79", "0.1", "1.80", "0.1"), Err(PluginLoadError::VersionMismatch));
    assert_eq!(check_plugin_versions("1.80", "0.2", "1.80", "0.1"), Err(PluginLoadError::VersionMismatch));
}

#[test]
fn plugin_libraries_by_extension() {
    assert!(is_plugin_library("./plugins/libchat.so", ".so"));
    assert!(!is_plugin_library("./plugins/chat.toml", ".so"));
    assert!(!is_plugin_library("so", ".so"));
    assert!(is_plugin_library("./plugins/chat.dll", ".dll"));
}

#[test]
fn later_plugins_replace_earlier_ones() {
    let mut handler: PluginHandler<&str> = PluginHandler::new();
    let mut first = PluginRegistrar::new();
    first.register_plugin("chat", "chat v1");
    first.register_plugin("console", "console");
    handler.add_plugins(first);
    let mut second = PluginRegistrar::new();
    second.register_plugin("chat", "chat v2");
    handler.add_plugins(second);
    assert_eq!(handler.plugins.len(), 2);
    assert_eq!(handler.plugins.get(&"chat".to_string()), Some(&"chat v2"));
    assert_eq!(handler.plugins.get(&"console".to_string()), Some(&"console"));
}

#[test]
fn watcher_restart_requests() {
    let mut w: WatcherData<u8> = WatcherData::new();
    assert!(w.take_restart_request());
    w.handle = Some(1);
    assert!(!w.take_restart_request());
    w.needs_restart = true;
    assert!(w.take_restart_request());
    assert!(!w.needs_restart);
    assert!(!w.take_restart_request());
}

#[test]
fn watcher_debounce() {
    assert!(restart_due(2_000, 1_000));
    assert!(!restart_due(1_999, 1_000));
    assert!(!restart_due(500, 1_000));
}

#[test]
fn auth_user_asks_the_relay_then_answers_from_the_cache() {
    let mut data = ServerData::new(&config());
    match data.auth_user("alice", "tok") {
        AuthStep::AskRelay(url) => {
            assert_eq!(url, "http://relay:8080/api/checkSpaceAuthToken/alice/tok")
        }
        AuthStep::Answer(_) => panic!("an unknown token must be checked by the relay"),
    }
    assert!(data.record_relay_answer("alice", "tok", Some(true)));
    assert!(matches!(data.auth_user("alice", "tok"), AuthStep::Answer(true)));
    assert!(matches!(data.auth_user("alice", "tok"), AuthStep::Answer(true)));
    assert!(matches!(data.auth_user("mallory", "tok"), AuthStep::Answer(false)));
    assert!(matches!(data.auth_user("alice", "other"), AuthStep::AskRelay(_)));
}

#[test]
fn watcher_change_seen() {
    let mut w: WatcherData<u8> = WatcherData::new();
    assert!(!w.change_seen(2_000, 1_000));
    assert!(w.needs_restart);
    w.needs_restart = false;
    w.handle = Some(3);
    assert!(!w.change_seen(1_500, 1_000));
    assert!(!w.needs_restart);
    assert!(w.change_seen(2_500, 1_000));
    assert!(w.needs_restart);
    assert_eq!(w.handle, Some(3));
}

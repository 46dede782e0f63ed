use dodev::active::{
    acquire, check_lock, is_in_use, lock_content, lock_path, process_exists, tunnels_dir,
    LockCheck, LockStep, ESRCH,
};
use dodev::auth::{get_auth_token, AuthError};
use dodev::config::{
    clear_api_key, clear_session, config_path, load_config, load_session, save_api_key,
    save_session, AppConfig, AuthConfig, ConfigError, DefaultsConfig, _resolve_relay_url_legacy,
};

const PATH: &str = "/home/u/.dodev/config.toml";

fn some(s: &str) -> Option<String> {
    Some(s.to_string())
}

fn saved() -> AppConfig {
    AppConfig {
        auth: Some(AuthConfig {
            api_key: some("key-1"),
            session_token: some("old"),
            user_id: None,
            email: some("old@x"),
            name: None,
        }),
        defaults: Some(DefaultsConfig { relay_url: some("wss://other") }),
    }
}

#[test]
fn config_lives_in_home_first() {
    let at = config_path(Some("/home/u"), Some("/etc")).unwrap();
    assert_eq!((at.base, at.names), ("/home/u", vec![".dodev".to_string(), "config.toml".to_string()]));
    let at = config_path(None, Some("/etc")).unwrap();
    assert_eq!((at.base, at.names), ("/etc", vec!["localdev".to_string(), "config.toml".to_string()]));
    assert!(config_path::<&str>(None, None).is_none());
}

#[test]
fn unreadable_config_is_none() {
    assert!(load_config(None).is_none());
    assert!(load_config(some("bad").map(Err)).is_none());
    assert!(load_config(Some(Ok(saved()))).is_some());
}

#[test]
fn saved_session_is_loaded_again() {
    let (path, config) = save_session(Some(PATH), Some(saved()), "tok", "u1", "e@x", "Ann").unwrap();
    assert_eq!(path, PATH);
    let auth = config.auth.as_ref().unwrap();
    assert_eq!(auth.api_key, some("key-1"));
    assert_eq!(config.defaults.as_ref().unwrap().relay_url, some("wss://other"));
    let session = load_session(Some(config)).unwrap();
    assert_eq!(session.session_token, "tok");
    assert_eq!(session.user_id, "u1");
    assert_eq!(session.email, "e@x");
    assert_eq!(session.name, "Ann");
}

#[test]
fn session_without_details_is_loaded() {
    let session = load_session(Some(saved())).unwrap();
    assert_eq!(session.session_token, "old");
    assert_eq!(session.user_id, "");
    assert_eq!(session.email, "old@x");
    assert_eq!(session.name, "");
}

#[test]
fn empty_or_missing_token_is_no_session() {
    let (_, config) = save_session(Some(PATH), None, "", "u", "e", "n").unwrap();
    assert!(load_session(Some(config)).is_none());
    assert!(load_session(Some(AppConfig::default())).is_none());
    assert!(load_session(None).is_none());
}

#[test]
fn cleared_session_is_not_loaded() {
    let (path, config) = clear_session(Some(PATH), true, Some(saved())).unwrap().unwrap();
    assert_eq!(path, PATH);
    let auth = config.auth.as_ref().unwrap();
    assert_eq!(auth.api_key, some("key-1"));
    assert_eq!(auth.session_token, None);
    assert_eq!(auth.email, None);
    assert!(config.defaults.is_some());
    assert!(load_session(Some(config)).is_none());
    assert!(clear_session(Some(PATH), false, None).unwrap().is_none());
    let (_, untouched) = clear_session(Some(PATH), true, None).unwrap().unwrap();
    assert!(untouched.auth.is_none() && untouched.defaults.is_none());
}

#[test]
fn clearing_forgets_what_saving_wrote() {
    let (_, with) = save_session(Some(PATH), Some(saved()), "t", "u", "e", "n").unwrap();
    let (_, a) = clear_session(Some(PATH), true, Some(with)).unwrap().unwrap();
    let (_, b) = clear_session(Some(PATH), true, Some(saved())).unwrap().unwrap();
    assert_eq!(format!("{:?}", a), format!("{:?}", b));
}

#[test]
fn api_key_is_saved_and_cleared() {
    let (_, config) = save_api_key(Some(PATH), Some(saved()), "key-2").unwrap();
    let auth = config.auth.as_ref().unwrap();
    assert_eq!(auth.api_key, some("key-2"));
    assert_eq!(auth.session_token, some("old"));
    let (_, config) = clear_api_key(Some(PATH), true, Some(config)).unwrap().unwrap();
    assert_eq!(config.auth.as_ref().unwrap().api_key, None);
    assert_eq!(load_session(Some(config)).unwrap().session_token, "old");
    assert!(clear_api_key(Some(PATH), false, None).unwrap().is_none());
    let (_, fresh) = save_api_key(Some(PATH), None, "k").unwrap();
    assert_eq!(fresh.auth.unwrap().api_key, some("k"));
}

#[test]
fn no_config_directory_is_an_error() {
    let no_path: Option<&str> = None;
    assert!(matches!(save_session(no_path, None, "t", "u", "e", "n"), Err(ConfigError::NoConfigDir)));
    assert!(matches!(clear_session(no_path, true, None), Err(ConfigError::NoConfigDir)));
    assert!(matches!(save_api_key(no_path, None, "k"), Err(ConfigError::NoConfigDir)));
    assert!(matches!(clear_api_key(no_path, true, None), Err(ConfigError::NoConfigDir)));
    assert_eq!(ConfigError::NoConfigDir.message(), "Cannot determine config directory");
    assert_eq!(ConfigError::Io("full".to_string()).message(), "IO error: full");
    assert_eq!(ConfigError::Serialize("odd".to_string()).message(), "Serialization error: odd");
}

#[test]
fn defaults_are_empty() {
    let config = AppConfig::default();
    assert!(config.auth.is_none() && config.defaults.is_none());
    let auth = AuthConfig::default();
    assert!(auth.api_key.is_none() && auth.session_token.is_none() && auth.name.is_none());
    assert!(DefaultsConfig::default().relay_url.is_none());
}

#[test]
fn legacy_relay_url_order() {
    let default = "wss://relay.local.dev/ws/connect";
    assert_eq!(_resolve_relay_url_legacy(default, Some(saved())), "wss://other");
    assert_eq!(_resolve_relay_url_legacy("wss://mine", Some(saved())), "wss://mine");
    assert_eq!(_resolve_relay_url_legacy(default, None), default);
    let empty = AppConfig { auth: None, defaults: Some(DefaultsConfig { relay_url: some("") }) };
    assert_eq!(_resolve_relay_url_legacy(default, Some(empty)), default);
}

#[test]
fn token_priority() {
    assert_eq!(get_auth_token(some("a"), some("b"), Some(saved())).unwrap(), "a");
    assert_eq!(get_auth_token(some(""), some("b"), Some(saved())).unwrap(), "b");
    assert_eq!(get_auth_token(None, some(""), Some(saved())).unwrap(), "old");
    let mut config = saved();
    config.auth.as_mut().unwrap().session_token = some("");
    assert_eq!(get_auth_token(None, None, Some(config)).unwrap(), "key-1");
}

#[test]
fn login_is_what_authenticates() {
    let (_, config) = save_session(Some(PATH), Some(saved()), "new", "u", "e", "n").unwrap();
    assert_eq!(get_auth_token(None, None, Some(config)).unwrap(), "new");
}

#[test]
fn nobody_is_logged_in_after_a_logout() {
    let (_, config) = clear_session(Some(PATH), true, Some(saved())).unwrap().unwrap();
    let (_, config) = clear_api_key(Some(PATH), true, Some(config)).unwrap().unwrap();
    let refused = get_auth_token(None, None, Some(config));
    assert_eq!(refused, Err(AuthError::NotFound));
    assert_eq!(
        AuthError::NotFound.message(),
        "Not logged in. Run `dodev login` to authenticate."
    );
    let mut empty_key = saved();
    empty_key.auth.as_mut().unwrap().session_token = None;
    empty_key.auth.as_mut().unwrap().api_key = some("");
    assert!(get_auth_token(None, None, Some(empty_key)).is_err());
}

#[test]
fn lock_files_are_per_subdomain() {
    let dir = tunnels_dir(Some("/home/u")).unwrap();
    assert_eq!((dir.base, dir.names), ("/home/u", vec![".dodev".to_string(), "tunnels".to_string()]));
    let a = lock_path(Some("/home/u"), "talk.dev").unwrap();
    assert_eq!(
        (a.base, a.names),
        ("/home/u", vec![".dodev".to_string(), "tunnels".to_string(), "talk.dev.lock".to_string()])
    );
    let b = lock_path(Some("/home/u"), "talk").unwrap();
    assert_eq!(b.names[2], "talk.lock");
    assert!(lock_path::<&str>(None, "x").is_none());
    assert!(tunnels_dir::<&str>(None).is_none());
}

#[test]
fn lock_names_the_process_that_wrote_it() {
    assert_eq!(lock_content(4711), "4711\n");
    for pid in [0u32, 1, 9, 10, 99, 4711, 65535, 2147483647] {
        let content = lock_content(pid);
        assert_eq!(check_lock(Some(content.as_str())), LockCheck::Probe(pid as i32));
    }
    // Beyond the range of process ids the lock counts as garbled.
    assert_eq!(check_lock(Some(lock_content(2147483648).as_str())), LockCheck::Garbled);
}

#[test]
fn locks_are_read_as_integers() {
    assert_eq!(check_lock(None), LockCheck::Free);
    for (text, value) in [
        (" 12\r\n", Some(12)),
        ("+7", Some(7)),
        ("-3", Some(-3)),
        ("007", Some(7)),
        ("2147483647", Some(2147483647)),
        ("-2147483648", Some(-2147483648)),
        ("2147483648", None),
        ("-2147483649", None),
        ("99999999999999999999999", None),
        ("", None),
        (" ", None),
        ("-", None),
        ("+", None),
        ("1 2", None),
        ("12a", None),
        ("\u{a0}5\u{3000}", Some(5)),
    ] {
        let expected = match value {
            Some(pid) => LockCheck::Probe(pid),
            None => LockCheck::Garbled,
        };
        assert_eq!(check_lock(Some(text)), expected, "{:?}", text);
        assert_eq!(text.trim().parse::<i32>().ok(), value, "{:?}", text);
    }
}

#[test]
fn only_a_missing_process_is_dead() {
    assert_eq!(ESRCH, libc::ESRCH);
    assert!(process_exists(0, 0));
    assert!(process_exists(0, ESRCH));
    assert!(!process_exists(-1, ESRCH));
    assert!(process_exists(-1, libc::EPERM));
}

#[test]
fn stale_and_garbled_locks_are_removed() {
    for alive in [true, false] {
        let free = is_in_use(LockCheck::Free, alive);
        assert!(!free.in_use && !free.remove);
        let garbled = is_in_use(LockCheck::Garbled, alive);
        assert!(!garbled.in_use && garbled.remove);
        let probed = is_in_use(LockCheck::Probe(1), alive);
        assert_eq!((probed.in_use, probed.remove), (alive, !alive));
    }
}

#[test]
fn acquiring_a_lock() {
    assert_eq!(*acquire(Some("/x.lock"), None).unwrap().path(), "/x.lock");
    let none: Option<&str> = None;
    assert_eq!(acquire(none, None).unwrap_err(), "no home dir");
    assert_eq!(
        acquire(Some("p"), Some((LockStep::Create, "/d", "denied"))).unwrap_err(),
        "create /d: denied"
    );
    assert_eq!(
        acquire(Some("p"), Some((LockStep::Write, "/d/x.lock", "full"))).unwrap_err(),
        "write /d/x.lock: full"
    );
}

//! The configuration: saved sessions, API keys and defaults.
//!
//! The functions here take what was read from disk and return what has to be written. They are
//! generic in the type of a path, which only the file system looks into.

use crate::text::{opt_text, text_eq, texts};
use vstd::prelude::*;

verus! {

/// Top-level config structure stored at `~/.dodev/config.toml`.
/// Shared across all dodev CLI subcommands.
#[derive(Debug)]
pub struct AppConfig {
    pub auth: Option<AuthConfig>,
    pub defaults: Option<DefaultsConfig>,
}

/// What the user is authenticated with.
#[derive(Debug)]
pub struct AuthConfig {
    /// Legacy API key (backwards compat with DODEV_API_KEY)
    pub api_key: Option<String>,
    /// Session token from browser-based OAuth login
    pub session_token: Option<String>,
    /// User ID from the identity provider
    pub user_id: Option<String>,
    /// User email address
    pub email: Option<String>,
    /// User display name
    pub name: Option<String>,
}

/// Defaults of the command line.
#[derive(Debug)]
pub struct DefaultsConfig {
    pub relay_url: Option<String>,
}

/// Session info returned from the config file.
#[derive(Debug, Clone)]
pub struct SessionInfo {
    pub session_token: String,
    pub user_id: String,
    pub email: String,
    pub name: String,
}

/// Why the configuration could not be saved.
#[derive(Debug)]
pub enum ConfigError {
    NoConfigDir,
    Io(String),
    Serialize(String),
}

/// The message for an error.
pub open spec fn config_error_text(e: ConfigError) -> Seq<char> {
    match e {
        ConfigError::NoConfigDir => "Cannot determine config directory"@,
        ConfigError::Io(text) => "IO error: "@ + text@,
        ConfigError::Serialize(text) => "Serialization error: "@ + text@,
    }
}

impl ConfigError {
    /// The message for the user.
    pub fn message(&self) -> (r: String)
        ensures
            r@ == config_error_text(*self),
    {
        match self {
            ConfigError::NoConfigDir => "Cannot determine config directory".to_owned(),
            ConfigError::Io(e) => {
                let mut out = "IO error: ".to_owned();
                out.append(e.as_str());
                out
            },
            ConfigError::Serialize(e) => {
                let mut out = "Serialization error: ".to_owned();
                out.append(e.as_str());
                out
            },
        }
    }
}

/// A place in the file system: a directory, and the names that lead down from it.
#[derive(Debug)]
pub struct Location<P> {
    pub base: P,
    pub names: Vec<String>,
}

// ---------------------------------------------------------------------------
// Models
// ---------------------------------------------------------------------------
/// The auth section as texts.
#[verifier::ext_equal]
pub struct AuthModel {
    pub api_key: Option<Seq<char>>,
    pub session_token: Option<Seq<char>>,
    pub user_id: Option<Seq<char>>,
    pub email: Option<Seq<char>>,
    pub name: Option<Seq<char>>,
}

/// The configuration as texts. `defaults` tells a missing section from one without a URL.
#[verifier::ext_equal]
pub struct ConfigModel {
    pub auth: Option<AuthModel>,
    pub defaults: Option<Option<Seq<char>>>,
}

/// A session as texts.
#[verifier::ext_equal]
pub struct SessionModel {
    pub session_token: Seq<char>,
    pub user_id: Seq<char>,
    pub email: Seq<char>,
    pub name: Seq<char>,
}

impl View for AuthConfig {
    type V = AuthModel;

    open spec fn view(&self) -> AuthModel {
        AuthModel {
            api_key: opt_text(self.api_key),
            session_token: opt_text(self.session_token),
            user_id: opt_text(self.user_id),
            email: opt_text(self.email),
            name: opt_text(self.name),
        }
    }
}

impl View for AppConfig {
    type V = ConfigModel;

    open spec fn view(&self) -> ConfigModel {
        ConfigModel {
            auth: match self.auth {
                Some(a) => Some(a@),
                None => None,
            },
            defaults: match self.defaults {
                Some(d) => Some(opt_text(d.relay_url)),
                None => None,
            },
        }
    }
}

impl View for SessionInfo {
    type V = SessionModel;

    open spec fn view(&self) -> SessionModel {
        SessionModel {
            session_token: self.session_token@,
            user_id: self.user_id@,
            email: self.email@,
            name: self.name@,
        }
    }
}

/// An auth section that holds nothing.
pub open spec fn empty_auth() -> AuthModel {
    AuthModel { api_key: None, session_token: None, user_id: None, email: None, name: None }
}

/// A configuration that holds nothing.
pub open spec fn empty_config() -> ConfigModel {
    ConfigModel { auth: None, defaults: None }
}

/// The configuration that was loaded, or an empty one.
pub open spec fn config_or_empty(loaded: Option<AppConfig>) -> ConfigModel {
    match loaded {
        Some(c) => c@,
        None => empty_config(),
    }
}

/// The auth section of a configuration, or an empty one.
pub open spec fn auth_or_empty(c: ConfigModel) -> AuthModel {
    match c.auth {
        Some(a) => a,
        None => empty_auth(),
    }
}

/// `c` with a session in it.
pub open spec fn with_session(c: ConfigModel, s: SessionModel) -> ConfigModel {
    ConfigModel {
        auth: Some(
            AuthModel {
                api_key: auth_or_empty(c).api_key,
                session_token: Some(s.session_token),
                user_id: Some(s.user_id),
                email: Some(s.email),
                name: Some(s.name),
            },
        ),
        defaults: c.defaults,
    }
}

/// `c` without its session.
pub open spec fn without_session(c: ConfigModel) -> ConfigModel {
    ConfigModel {
        auth: match c.auth {
            Some(a) => Some(AuthModel { api_key: a.api_key, ..empty_auth() }),
            None => None,
        },
        defaults: c.defaults,
    }
}

/// `c` with an API key in it.
pub open spec fn with_api_key(c: ConfigModel, key: Seq<char>) -> ConfigModel {
    ConfigModel {
        auth: Some(AuthModel { api_key: Some(key), ..auth_or_empty(c) }),
        defaults: c.defaults,
    }
}

/// `c` without its API key.
pub open spec fn without_api_key(c: ConfigModel) -> ConfigModel {
    ConfigModel {
        auth: match c.auth {
            Some(a) => Some(AuthModel { api_key: None, ..a }),
            None => None,
        },
        defaults: c.defaults,
    }
}

/// The text, or the empty text.
pub open spec fn text_or_empty(s: Option<Seq<char>>) -> Seq<char> {
    match s {
        Some(t) => t,
        None => Seq::empty(),
    }
}

/// The session that a configuration holds. A missing or empty token is no session.
pub open spec fn session_of(c: ConfigModel) -> Option<SessionModel> {
    let a = auth_or_empty(c);
    if text_or_empty(a.session_token).len() == 0 {
        None
    } else {
        Some(
            SessionModel {
                session_token: text_or_empty(a.session_token),
                user_id: text_or_empty(a.user_id),
                email: text_or_empty(a.email),
                name: text_or_empty(a.name),
            },
        )
    }
}

// ---------------------------------------------------------------------------
// Laws
// ---------------------------------------------------------------------------
/// A session that was saved is the session that is loaded, unless its token is empty.
pub proof fn saved_session_is_loaded(c: ConfigModel, s: SessionModel)
    requires
        s.session_token.len() > 0,
    ensures
        session_of(with_session(c, s)) == Some(s),
{
    assert(session_of(with_session(c, s)).unwrap() =~= s);
}

/// Saving a session with an empty token logs the user out.
pub proof fn empty_token_is_no_session(c: ConfigModel, s: SessionModel)
    requires
        s.session_token.len() == 0,
    ensures
        session_of(with_session(c, s)) is None,
{
}

/// Saving a session keeps the API key and the defaults.
pub proof fn saving_a_session_keeps_the_rest(c: ConfigModel, s: SessionModel)
    ensures
        auth_or_empty(with_session(c, s)).api_key == auth_or_empty(c).api_key,
        with_session(c, s).defaults == c.defaults,
{
}

/// After a session was cleared, none is loaded; the API key and the defaults are kept.
pub proof fn cleared_session_is_gone(c: ConfigModel)
    ensures
        session_of(without_session(c)) is None,
        auth_or_empty(without_session(c)).api_key == auth_or_empty(c).api_key,
        without_session(c).defaults == c.defaults,
{
}

/// Clearing a session forgets what saving it wrote.
pub proof fn clearing_undoes_saving(c: ConfigModel, s: SessionModel)
    requires
        c.auth is Some,
    ensures
        without_session(with_session(c, s)) == without_session(c),
{
    assert(without_session(with_session(c, s)) =~= without_session(c));
}

/// Saving or clearing an API key keeps the session and the defaults.
pub proof fn api_key_keeps_the_session(c: ConfigModel, key: Seq<char>)
    ensures
        session_of(with_api_key(c, key)) == session_of(c),
        session_of(without_api_key(c)) == session_of(c),
        with_api_key(c, key).defaults == c.defaults,
        without_api_key(c).defaults == c.defaults,
{
}

/// An API key that was saved is there; one that was cleared is not.
pub proof fn api_key_is_kept_and_cleared(c: ConfigModel, key: Seq<char>)
    ensures
        auth_or_empty(with_api_key(c, key)).api_key == Some(key),
        auth_or_empty(without_api_key(c)).api_key is None,
{
}

// ---------------------------------------------------------------------------
// Operations
// ---------------------------------------------------------------------------
impl Default for AuthConfig {
    fn default() -> (r: Self)
        ensures
            r@ == empty_auth(),
    {
        AuthConfig { api_key: None, session_token: None, user_id: None, email: None, name: None }
    }
}

impl Default for DefaultsConfig {
    fn default() -> (r: Self)
        ensures
            r.relay_url is None,
    {
        DefaultsConfig { relay_url: None }
    }
}

impl Default for AppConfig {
    fn default() -> (r: Self)
        ensures
            r@ == empty_config(),
    {
        AppConfig { auth: None, defaults: None }
    }
}

fn or_default(loaded: Option<AppConfig>) -> (r: AppConfig)
    ensures
        r@ == config_or_empty(loaded),
{
    match loaded {
        Some(c) => c,
        None => AppConfig::default(),
    }
}

fn auth_or_default(auth: Option<AuthConfig>) -> (r: AuthConfig)
    ensures
        r@ == match auth {
            Some(a) => a@,
            None => empty_auth(),
        },
{
    match auth {
        Some(a) => a,
        None => AuthConfig::default(),
    }
}

fn string_or_empty(s: Option<String>) -> (r: String)
    ensures
        r@ == text_or_empty(opt_text(s)),
{
    match s {
        Some(t) => t,
        None => String::new(),
    }
}

/// Where the config file is: `.dodev/config.toml` in the home directory, or else
/// `localdev/config.toml` in the platform's config directory.
pub fn config_path<P>(home: Option<P>, config_dir: Option<P>) -> (r: Option<Location<P>>)
    ensures
        r is Some == (home is Some || config_dir is Some),
        home matches Some(h) ==> r->Some_0.base == h && texts(r->Some_0.names@)
            == seq![".dodev"@, "config.toml"@],
        home is None ==> (config_dir matches Some(d) ==> r->Some_0.base == d
            && texts(r->Some_0.names@) == seq!["localdev"@, "config.toml"@]),
{
    match home {
        Some(base) => {
            let mut names: Vec<String> = Vec::new();
            names.push(".dodev".to_owned());
            names.push("config.toml".to_owned());
            assert(texts(names@) =~= seq![".dodev"@, "config.toml"@]);
            Some(Location { base, names })
        },
        None => match config_dir {
            Some(base) => {
                let mut names: Vec<String> = Vec::new();
                names.push("localdev".to_owned());
                names.push("config.toml".to_owned());
                assert(texts(names@) =~= seq!["localdev"@, "config.toml"@]);
                Some(Location { base, names })
            },
            None => None,
        },
    }
}

/// What a config file holds: nothing if it could not be found, read or parsed.
pub fn load_config(parsed: Option<Result<AppConfig, String>>) -> (r: Option<AppConfig>)
    ensures
        r == match parsed {
            Some(Ok(c)) => Some(c),
            _ => None,
        },
{
    match parsed {
        Some(Ok(c)) => Some(c),
        _ => None,
    }
}

/// Save a session token and user info: the place and the content to write.
///
/// Preserves existing config values (e.g. `defaults.relay_url`, `auth.api_key`).
pub fn save_session<P>(
    path: Option<P>,
    loaded: Option<AppConfig>,
    token: &str,
    user_id: &str,
    email: &str,
    name: &str,
) -> (r: Result<(P, AppConfig), ConfigError>)
    ensures
        match path {
            Some(p) => r is Ok && r->Ok_0.0 == p && r->Ok_0.1@ == with_session(
                config_or_empty(loaded),
                SessionModel {
                    session_token: token@,
                    user_id: user_id@,
                    email: email@,
                    name: name@,
                },
            ),
            None => r == Err::<(P, AppConfig), ConfigError>(ConfigError::NoConfigDir),
        },
{
    let path = match path {
        Some(p) => p,
        None => {
            return Err(ConfigError::NoConfigDir);
        },
    };
    let config = or_default(loaded);
    let auth = auth_or_default(config.auth);
    let auth = AuthConfig {
        api_key: auth.api_key,
        session_token: Some(token.to_owned()),
        user_id: Some(user_id.to_owned()),
        email: Some(email.to_owned()),
        name: Some(name.to_owned()),
    };
    Ok((path, AppConfig { auth: Some(auth), defaults: config.defaults }))
}

/// The saved session of the config that was loaded.
///
/// Returns `None` if no session token is stored.
pub fn load_session(loaded: Option<AppConfig>) -> (r: Option<SessionInfo>)
    ensures
        match r {
            Some(s) => session_of(config_or_empty(loaded)) == Some(s@),
            None => session_of(config_or_empty(loaded)) is None,
        },
{
    let config = match loaded {
        Some(c) => c,
        None => {
            return None;
        },
    };
    let auth = match config.auth {
        Some(a) => a,
        None => {
            return None;
        },
    };
    let session_token = match auth.session_token {
        Some(t) => t,
        None => {
            return None;
        },
    };
    if session_token.as_str().is_empty() {
        return None;
    }
    Some(
        SessionInfo {
            session_token,
            user_id: string_or_empty(auth.user_id),
            email: string_or_empty(auth.email),
            name: string_or_empty(auth.name),
        },
    )
}

/// Remove all session fields: the place and the content to write, or nothing if there is no file.
///
/// Preserves other config values (e.g. `defaults.relay_url`, `auth.api_key`).
pub fn clear_session<P>(path: Option<P>, exists: bool, loaded: Option<AppConfig>) -> (r: Result<
    Option<(P, AppConfig)>,
    ConfigError,
>)
    ensures
        match path {
            Some(p) => r is Ok && if exists {
                r->Ok_0 is Some && r->Ok_0->Some_0.0 == p && r->Ok_0->Some_0.1@ == without_session(
                    config_or_empty(loaded),
                )
            } else {
                r->Ok_0 is None
            },
            None => r == Err::<Option<(P, AppConfig)>, ConfigError>(ConfigError::NoConfigDir),
        },
{
    let path = match path {
        Some(p) => p,
        None => {
            return Err(ConfigError::NoConfigDir);
        },
    };
    if !exists {
        return Ok(None);
    }
    let config = or_default(loaded);
    let auth = match config.auth {
        Some(a) => Some(
            AuthConfig {
                api_key: a.api_key,
                session_token: None,
                user_id: None,
                email: None,
                name: None,
            },
        ),
        None => None,
    };
    Ok(Some((path, AppConfig { auth, defaults: config.defaults })))
}

/// Save an API key: the place and the content to write.
///
/// Preserves existing config values (e.g. `defaults.relay_url`).
pub fn save_api_key<P>(path: Option<P>, loaded: Option<AppConfig>, key: &str) -> (r: Result<
    (P, AppConfig),
    ConfigError,
>)
    ensures
        match path {
            Some(p) => r is Ok && r->Ok_0.0 == p && r->Ok_0.1@ == with_api_key(
                config_or_empty(loaded),
                key@,
            ),
            None => r == Err::<(P, AppConfig), ConfigError>(ConfigError::NoConfigDir),
        },
{
    let path = match path {
        Some(p) => p,
        None => {
            return Err(ConfigError::NoConfigDir);
        },
    };
    let config = or_default(loaded);
    let auth = auth_or_default(config.auth);
    let auth = AuthConfig {
        api_key: Some(key.to_owned()),
        session_token: auth.session_token,
        user_id: auth.user_id,
        email: auth.email,
        name: auth.name,
    };
    Ok((path, AppConfig { auth: Some(auth), defaults: config.defaults }))
}

/// Remove the API key: the place and the content to write, or nothing if there is no file.
pub fn clear_api_key<P>(path: Option<P>, exists: bool, loaded: Option<AppConfig>) -> (r: Result<
    Option<(P, AppConfig)>,
    ConfigError,
>)
    ensures
        match path {
            Some(p) => r is Ok && if exists {
                r->Ok_0 is Some && r->Ok_0->Some_0.0 == p && r->Ok_0->Some_0.1@ == without_api_key(
                    config_or_empty(loaded),
                )
            } else {
                r->Ok_0 is None
            },
            None => r == Err::<Option<(P, AppConfig)>, ConfigError>(ConfigError::NoConfigDir),
        },
{
    let path = match path {
        Some(p) => p,
        None => {
            return Err(ConfigError::NoConfigDir);
        },
    };
    if !exists {
        return Ok(None);
    }
    let config = or_default(loaded);
    let auth = match config.auth {
        Some(a) => Some(
            AuthConfig {
                api_key: None,
                session_token: a.session_token,
                user_id: a.user_id,
                email: a.email,
                name: a.name,
            },
        ),
        None => None,
    };
    Ok(Some((path, AppConfig { auth, defaults: config.defaults })))
}

/// The relay URL of older releases: a non-default command line value wins, then a URL of the
/// config file, then the default.
pub fn _resolve_relay_url_legacy(cli_value: &str, loaded: Option<AppConfig>) -> (r: String)
    ensures
        r@ == {
            let saved = match config_or_empty(loaded).defaults {
                Some(d) => text_or_empty(d),
                None => Seq::empty(),
            };
            if cli_value@ == "wss://relay.local.dev/ws/connect"@ && saved.len() > 0 {
                saved
            } else {
                cli_value@
            }
        },
{
    if text_eq(cli_value, "wss://relay.local.dev/ws/connect") {
        if let Some(config) = loaded {
            if let Some(defaults) = config.defaults {
                if let Some(url) = defaults.relay_url {
                    if !url.as_str().is_empty() {
                        return url;
                    }
                }
            }
        }
    }
    cli_value.to_owned()
}

} // verus!

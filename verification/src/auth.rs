//! The token that authenticates the user.

use crate::config::{
    auth_or_empty, config_or_empty, load_session, session_of, text_or_empty, with_session,
    without_api_key, without_session, AppConfig, ConfigModel, SessionModel,
};
use crate::text::opt_text;
use vstd::prelude::*;

verus! {

/// Errors that can occur when resolving the auth token.
#[derive(Debug, PartialEq, Eq, Structural)]
pub enum AuthError {
    NotFound,
}

/// The message for a user who is not logged in.
pub open spec fn auth_error_text() -> Seq<char> {
    "Not logged in. Run `dodev login` to authenticate."@
}

impl AuthError {
    /// The message for the user.
    pub fn message(&self) -> (r: String)
        ensures
            r@ == auth_error_text(),
    {
        "Not logged in. Run `dodev login` to authenticate.".to_owned()
    }
}

/// The token that authenticates the user: the first that is not empty among the API key of the
/// environment, the session token of the environment, the session token of the config file and
/// the API key of the config file.
pub open spec fn token_of(
    env_api_key: Option<Seq<char>>,
    env_session: Option<Seq<char>>,
    config: ConfigModel,
) -> Option<Seq<char>> {
    if text_or_empty(env_api_key).len() > 0 {
        env_api_key
    } else if text_or_empty(env_session).len() > 0 {
        env_session
    } else {
        match session_of(config) {
            Some(s) => Some(s.session_token),
            None => if text_or_empty(auth_or_empty(config).api_key).len() > 0 {
                auth_or_empty(config).api_key
            } else {
                None
            },
        }
    }
}

/// A token is never empty.
pub proof fn token_is_not_empty(
    env_api_key: Option<Seq<char>>,
    env_session: Option<Seq<char>>,
    config: ConfigModel,
)
    ensures
        token_of(env_api_key, env_session, config) matches Some(t) ==> t.len() > 0,
{
}

/// Without anything in the environment, a saved session is what authenticates, whatever API key
/// the config file holds.
pub proof fn session_beats_saved_key(config: ConfigModel)
    requires
        session_of(config) is Some,
    ensures
        token_of(None, None, config) == Some(session_of(config).unwrap().session_token),
{
}

/// After a login, the new session is what authenticates, unless the environment holds a token.
pub proof fn login_authenticates(config: ConfigModel, session: SessionModel)
    requires
        session.session_token.len() > 0,
    ensures
        token_of(None, None, with_session(config, session)) == Some(session.session_token),
{
}

/// After a logout, which clears the session and the API key, the config file authenticates nobody.
pub proof fn logout_forgets_the_token(config: ConfigModel)
    ensures
        token_of(None, None, without_api_key(without_session(config))) is None,
{
}

/// Resolve an auth token (API key or session token) for relay authentication.
///
/// Priority:
/// 1. `DODEV_API_KEY` environment variable (backwards compat)
/// 2. `DODEV_SESSION_TOKEN` environment variable
/// 3. Config file session_token at `~/.dodev/config.toml`
/// 4. Config file api_key at `~/.dodev/config.toml` (legacy)
pub fn get_auth_token(
    env_api_key: Option<String>,
    env_session: Option<String>,
    loaded: Option<AppConfig>,
) -> (r: Result<String, AuthError>)
    ensures
        match r {
            Ok(t) => token_of(
                opt_text(env_api_key),
                opt_text(env_session),
                config_or_empty(loaded),
            ) == Some(t@),
            Err(_) => token_of(
                opt_text(env_api_key),
                opt_text(env_session),
                config_or_empty(loaded),
            ) is None,
        },
{
    if let Some(key) = env_api_key {
        if !key.as_str().is_empty() {
            return Ok(key);
        }
    }
    if let Some(token) = env_session {
        if !token.as_str().is_empty() {
            return Ok(token);
        }
    }
    let saved_key = match &loaded {
        Some(c) => match &c.auth {
            Some(a) => match &a.api_key {
                Some(k) => Some(k.clone()),
                None => None,
            },
            None => None,
        },
        None => None,
    };
    if let Some(session) = load_session(loaded) {
        return Ok(session.session_token);
    }
    if let Some(key) = saved_key {
        if !key.as_str().is_empty() {
            return Ok(key);
        }
    }
    Err(AuthError::NotFound)
}

} // verus!

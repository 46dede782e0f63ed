//! What users are told, and where things are kept.

use crate::account::{account_url, check_account_status, is_success, unreachable_account};
use crate::active::{acquire, lock_path, LockStep, TunnelLock};
use crate::auth::AuthError;
use crate::config::{
    clear_api_key, clear_session, config_error_text, config_path, load_config, save_api_key,
    save_session, AppConfig, ConfigError, ConfigModel, Location, SessionModel,
    _resolve_relay_url_legacy,
};
use crate::display::{
    active_banner, public_url, reconnecting, request_log, status_style, Span,
};
use crate::laws::objects::lemma_utf8_joins;
use crate::login::{
    callback_response, logged_in_lines, login_outcome, step_heading, CallbackData, CallbackStep,
};
use crate::outside::http_text::status_line_of;
use crate::pages::LOGIN_PAGE;
use crate::report::{
    config_report, credentials_report, shown_part, status_report, update_error, updated_lines,
    UpdateStep,
};
use crate::start::{chosen_line, plan_start, StartPlan};
use crate::text::decimal;
use crate::tunnel::{log_path_parsed, setup_error, SetupStep, TunnelError};
use vstd::prelude::*;
use vstd::utf8::{encode_utf8, encode_utf8_decode_utf8};

verus! {

// ---------------------------------------------------------------------------
// Commands
// ---------------------------------------------------------------------------
/// A tunnel starts at once exactly if there is a token and the user named a relay; without a relay
/// all that was given is kept for the choice of a name. Without a token there is none.
pub proof fn how_a_tunnel_starts(
    token: Result<String, AuthError>,
    ws_url: Option<String>,
    subdomain: Option<String>,
    host: String,
    port: u16,
    r: Result<StartPlan, String>,
)
    requires
        call_ensures(plan_start, (token, ws_url, subdomain, host, port), r),
    ensures
        r is Ok <==> token is Ok,
        r matches Err(e) ==> e@ == "Not logged in. Run `dodev login` to authenticate."@,
        r matches Ok(p) ==> (p is Connect <==> ws_url is Some),
        r matches Ok(StartPlan::Connect(c)) ==> c.ws_url == ws_url.unwrap() && c.token
            == token->Ok_0 && c.local_host == host && c.local_port == port && (subdomain is Some
            ==> c.subdomain@ == subdomain.unwrap()@) && (subdomain is None ==> c.subdomain@
            == "lab"@),
        r matches Ok(StartPlan::Choose { token: t, requested, host: h, port: p }) ==> t
            == token->Ok_0 && requested == subdomain && h == host && p == port,
{
}

/// What the browser brought is the outcome of a login, and nothing else; waiting for too long is an
/// error.
pub proof fn logins_end(
    waited: Option<Result<CallbackData, String>>,
    r: Result<CallbackData, String>,
)
    requires
        call_ensures(login_outcome, (waited,), r),
    ensures
        waited matches Some(w) ==> r == w,
        waited is None ==> (r matches Err(e) && e@ == "Login timed out. Please try again."@),
{
}

/// A status tells of success exactly if it is one of the two hundreds; a refusal is reported with
/// the status and no more than the first two hundred characters.
pub proof fn refusals_are_reported(status: u16, body: &str, r: Result<(), String>)
    requires
        call_ensures(check_account_status, (status, body), r),
    ensures
        is_success(status) <==> status as int / 100 == 2,
        r is Ok <==> status as int / 100 == 2,
        body@.len() <= 200 ==> (r matches Err(e) ==> e@ == "Account lookup failed ("@
            + status_line_of(status) + "): "@ + body@),
        body@.len() > 200 ==> (r matches Err(e) ==> e@ == "Account lookup failed ("@
            + status_line_of(status) + "): "@ + body@.take(200)),
{
}

/// Each step of a login that fails has its own heading.
pub proof fn login_steps_are_told(step: CallbackStep)
    ensures
        step is Listen ==> step_heading(step) == "Failed to start callback server: "@,
        step is Address ==> step_heading(step) == "Failed to get listener address: "@,
        step is Accept ==> step_heading(step) == "Failed to accept connection: "@,
        step is Read ==> step_heading(step) == "Failed to read request: "@,
        step is Send ==> step_heading(step) == "Failed to send response: "@,
        step is Flush ==> step_heading(step) == "Failed to flush response: "@,
{
}

/// An error of the configuration is told with what the system says.
pub proof fn configuration_errors_are_told(text: String)
    ensures
        config_error_text(ConfigError::NoConfigDir) == "Cannot determine config directory"@,
        config_error_text(ConfigError::Io(text)) == "IO error: "@ + text@,
        config_error_text(ConfigError::Serialize(text)) == "Serialization error: "@ + text@,
{
}

/// The message of a tunnel's error is a heading and what went wrong.
pub proof fn tunnel_errors_are_told(e: TunnelError, r: String)
    requires
        call_ensures(TunnelError::message, (&e,), r),
    ensures
        e matches TunnelError::AuthFailed(t) ==> r@ == "Authentication failed: "@ + t@,
        e matches TunnelError::QuotaExceeded(t) ==> r@ == "Quota exceeded: "@ + t@,
        e matches TunnelError::WebSocket(t) ==> r@ == "WebSocket error: "@ + t@,
        e matches TunnelError::MaxReconnectsExceeded(n) ==> r@ == "Maximum reconnection attempts ("@
            + decimal(n as nat) + ") exceeded"@,
{
}

/// The error of a tunnel that could not be set up tells the step.
pub proof fn setup_errors_are_told(step: SetupStep, e: &str, r: TunnelError)
    requires
        call_ensures(setup_error, (step, e), r),
    ensures
        r is WebSocket,
        step is Client ==> (r matches TunnelError::WebSocket(t) && t@ == "client init: "@ + e@),
        step is Url ==> (r matches TunnelError::WebSocket(t) && t@ == "invalid ws url: "@ + e@),
{
}

/// A lock is taken exactly if there is a place for it and nothing failed; it is then the lock of
/// that place.
pub proof fn locks_are_taken<P>(
    path: Option<P>,
    failed: Option<(LockStep, &str, &str)>,
    r: Result<TunnelLock<P>, String>,
)
    requires
        call_ensures(acquire::<P>, (path, failed), r),
    ensures
        r is Ok <==> path is Some && failed is None,
        r matches Ok(lock) ==> lock.file() == path.unwrap(),
        path is None ==> (r matches Err(e) && e@ == "no home dir"@),
{
}

/// An update is told with the new version, if there is one.
pub proof fn updates_are_told(new_version: Option<&str>, r: Vec<String>)
    requires
        call_ensures(updated_lines, (new_version,), r),
    ensures
        r@.len() == 2,
        new_version matches Some(v) ==> r@[0]@ == "  \u{2714} Updated dodev to v"@ + v@,
        new_version is None ==> r@[0]@ == "  \u{2714} Already on the latest release."@,
        r@[1]@ == ""@,
{
    let t = crate::text::texts(r@);
    assert(t.len() == r@.len());
    assert(t[0] == r@[0]@);
    assert(t[1] == r@[1]@);
}

/// An update that failed is told with the step and the error.
pub proof fn failed_updates_are_told(step: UpdateStep, e: &str, r: String)
    requires
        call_ensures(update_error, (step, e), r),
    ensures
        step is Run ==> r@ == "Update failed: "@ + e@,
        step is Receipt ==> ("No install receipt found ("@ + e@ + "). "@).is_prefix_of(r@),
{
    if step is Receipt {
        let tail =
            "). `dodev update` only works for binaries installed via https://local.dev/install.sh — reinstall via that script to enable self-update."@;
        reveal_strlit("). ");
        reveal_strlit(
            "). `dodev update` only works for binaries installed via https://local.dev/install.sh — reinstall via that script to enable self-update.",
        );
        let head = "No install receipt found ("@ + e@ + "). "@;
        assert(r@ == "No install receipt found ("@ + e@ + tail);
        assert(r@.take(head.len() as int) =~= head);
    }
}

/// The account server is asked at one place, and that place is told if it cannot be reached.
pub proof fn the_account_server_is_named(e: &str, url: String, r: String)
    requires
        call_ensures(account_url, (), url),
        call_ensures(unreachable_account, (e,), r),
    ensures
        url@ == "https://local.dev"@ + "/api/cli/me"@,
        r@ == "Failed to reach "@ + url@ + ": "@ + e@,
{
}

/// The subdomain that was chosen is told.
pub proof fn choices_are_told(subdomain: &str, r: String)
    requires
        call_ensures(chosen_line, (subdomain,), r),
    ensures
        r@ == "  Using subdomain: "@ + subdomain@ + ".local.dev"@,
{
}

/// A login is told with the email of the user, if it is known.
pub proof fn logins_are_told(email: &str, r: Vec<String>)
    requires
        call_ensures(logged_in_lines, (email,), r),
    ensures
        r@.len() == 4,
        email@.len() > 0 ==> r@[1]@ == "  \u{2714} Logged in as "@ + email@,
        email@.len() == 0 ==> r@[1]@ == "  \u{2714} Logged in as "@ + "authenticated user"@,
{
    let t = crate::text::texts(r@);
    assert(t.len() == r@.len());
    assert(t[1] == r@[1]@);
}

/// The answer to the browser is the page, behind a header that tells its length in bytes.
pub proof fn browsers_get_the_page(r: String)
    requires
        call_ensures(callback_response, (), r),
    ensures
        exists|head: Seq<char>|
            r@ == #[trigger] (head + LOGIN_PAGE@) && "HTTP/1.1 200 OK\r\n"@.is_prefix_of(head),
        r@.len() > LOGIN_PAGE@.len(),
{
    let start =
        "HTTP/1.1 200 OK\r\nContent-Type: text/html; charset=utf-8\r\nContent-Length: "@;
    let head = start + decimal(encode_utf8(LOGIN_PAGE@).len()) + "\r\nConnection: close\r\n\r\n"@;
    assert(r@ == head + LOGIN_PAGE@);
    reveal_strlit("HTTP/1.1 200 OK\r\n");
    reveal_strlit(
        "HTTP/1.1 200 OK\r\nContent-Type: text/html; charset=utf-8\r\nContent-Length: ",
    );
    assert(head.take(17) =~= "HTTP/1.1 200 OK\r\n"@);
}

// ---------------------------------------------------------------------------
// Files
// ---------------------------------------------------------------------------
/// The config file is in the home directory, if there is one, and else in that for configurations.
pub proof fn where_the_config_file_is<P>(
    home: Option<P>,
    config_dir: Option<P>,
    r: Option<Location<P>>,
)
    requires
        call_ensures(config_path::<P>, (home, config_dir), r),
    ensures
        r is None <==> home is None && config_dir is None,
        home is Some ==> r.unwrap().base == home.unwrap() && r.unwrap().names@.len() == 2
            && r.unwrap().names@[0]@ == ".dodev"@ && r.unwrap().names@[1]@ == "config.toml"@,
        home is None && config_dir is Some ==> r.unwrap().base == config_dir.unwrap()
            && r.unwrap().names@.len() == 2 && r.unwrap().names@[0]@ == "localdev"@
            && r.unwrap().names@[1]@ == "config.toml"@,
{
    if let Some(l) = r {
        let t = crate::text::texts(l.names@);
        assert(t.len() == l.names@.len());
        assert(t[0] == l.names@[0]@);
        assert(t[1] == l.names@[1]@);
    }
}

/// The lock file of a subdomain is in the home directory, below the directory of the tunnels.
pub proof fn where_the_locks_are<P>(home: Option<P>, subdomain: &str, r: Option<Location<P>>)
    requires
        call_ensures(lock_path::<P>, (home, subdomain), r),
    ensures
        r is None <==> home is None,
        home is Some ==> r.unwrap().base == home.unwrap() && r.unwrap().names@.len() == 3
            && r.unwrap().names@[0]@ == ".dodev"@ && r.unwrap().names@[1]@ == "tunnels"@
            && r.unwrap().names@[2]@ == subdomain@ + ".lock"@,
{
    if let Some(l) = r {
        let t = crate::text::texts(l.names@);
        assert(t.len() == l.names@.len());
        assert(t[0] == l.names@[0]@);
        assert(t[1] == l.names@[1]@);
        assert(t[2] == l.names@[2]@);
    }
}

/// A file that was read and parsed is what it holds; any other is as good as none.
pub proof fn unreadable_files_hold_nothing(
    parsed: Option<Result<AppConfig, String>>,
    r: Option<AppConfig>,
)
    requires
        call_ensures(load_config, (parsed,), r),
    ensures
        parsed matches Some(Ok(c)) ==> r == Some(c),
        parsed is None || parsed.unwrap() is Err ==> r is None,
{
}

/// A session is written to the config file, with the four texts that were given, in place of the
/// one that was there; everything else that was there stays.
pub proof fn sessions_are_saved<P>(
    path: Option<P>,
    loaded: Option<AppConfig>,
    token: &str,
    user_id: &str,
    email: &str,
    name: &str,
    r: Result<(P, AppConfig), ConfigError>,
)
    requires
        call_ensures(save_session::<P>, (path, loaded, token, user_id, email, name), r),
    ensures
        path is None ==> r is Err && r->Err_0 is NoConfigDir,
        path is Some ==> r is Ok && r->Ok_0.0 == path.unwrap(),
        r matches Ok(w) ==> (w.1@.auth matches Some(a) && a.session_token == Some(token@)
            && a.user_id == Some(user_id@) && a.email == Some(email@) && a.name == Some(name@)),
        r matches Ok(w) ==> (loaded matches Some(c) ==> w.1@.defaults == c@.defaults && (c@.auth
            is Some ==> w.1@.auth.unwrap().api_key == c@.auth.unwrap().api_key)),
{
}

/// A session is cleared in the config file, if there is one; everything else that was there stays.
pub proof fn saved_sessions_are_cleared<P>(
    path: Option<P>,
    exists: bool,
    loaded: Option<AppConfig>,
    r: Result<Option<(P, AppConfig)>, ConfigError>,
)
    requires
        call_ensures(clear_session::<P>, (path, exists, loaded), r),
    ensures
        path is None ==> r is Err && r->Err_0 is NoConfigDir,
        path is Some ==> r is Ok && (r->Ok_0 is Some <==> exists),
        r matches Ok(Some(w)) ==> w.0 == path.unwrap() && (w.1@.auth matches Some(a)
            ==> a.session_token is None && a.user_id is None && a.email is None && a.name is None),
        r matches Ok(Some(w)) ==> (loaded matches Some(c) ==> w.1@.defaults == c@.defaults && (
        c@.auth is Some ==> w.1@.auth is Some && w.1@.auth.unwrap().api_key
            == c@.auth.unwrap().api_key)),
{
}

/// An API key is written to the config file, in place of the one that was there; everything else
/// that was there stays.
pub proof fn keys_are_saved<P>(
    path: Option<P>,
    loaded: Option<AppConfig>,
    key: &str,
    r: Result<(P, AppConfig), ConfigError>,
)
    requires
        call_ensures(save_api_key::<P>, (path, loaded, key), r),
    ensures
        path is None ==> r is Err && r->Err_0 is NoConfigDir,
        path is Some ==> r is Ok && r->Ok_0.0 == path.unwrap(),
        r matches Ok(w) ==> (w.1@.auth matches Some(a) && a.api_key == Some(key@)),
        r matches Ok(w) ==> (loaded matches Some(c) ==> w.1@.defaults == c@.defaults && (c@.auth
            is Some ==> ({
            let (a, b) = (w.1@.auth.unwrap(), c@.auth.unwrap());
            a.session_token == b.session_token && a.user_id == b.user_id && a.email == b.email
                && a.name == b.name
        }))),
{
}

/// An API key is cleared in the config file, if there is one; everything else that was there stays.
pub proof fn saved_keys_are_cleared<P>(
    path: Option<P>,
    exists: bool,
    loaded: Option<AppConfig>,
    r: Result<Option<(P, AppConfig)>, ConfigError>,
)
    requires
        call_ensures(clear_api_key::<P>, (path, exists, loaded), r),
    ensures
        path is None ==> r is Err && r->Err_0 is NoConfigDir,
        path is Some ==> r is Ok && (r->Ok_0 is Some <==> exists),
        r matches Ok(Some(w)) ==> w.0 == path.unwrap() && (w.1@.auth matches Some(a) ==> a.api_key
            is None),
        r matches Ok(Some(w)) ==> (loaded matches Some(c) ==> w.1@.defaults == c@.defaults && (
        c@.auth is Some ==> w.1@.auth is Some && ({
            let (a, b) = (w.1@.auth.unwrap(), c@.auth.unwrap());
            a.session_token == b.session_token && a.user_id == b.user_id && a.email == b.email
                && a.name == b.name
        }))),
{
}

/// A relay that the user named wins; the default gives way to a relay of the config file.
pub proof fn named_relays_win(cli_value: &str, loaded: Option<AppConfig>, r: String)
    requires
        call_ensures(_resolve_relay_url_legacy, (cli_value, loaded), r),
    ensures
        cli_value@ != "wss://relay.local.dev/ws/connect"@ ==> r@ == cli_value@,
        loaded matches Some(c) ==> (c.defaults matches Some(d) ==> (d.relay_url matches Some(u)
            ==> (cli_value@ == "wss://relay.local.dev/ws/connect"@ && u@.len() > 0 ==> r@ == u@)
            && (u@.len() == 0 ==> r@ == cli_value@))),
        loaded is None ==> r@ == cli_value@,
{
}

// ---------------------------------------------------------------------------
// Lines
// ---------------------------------------------------------------------------
/// The color of a status goes by its hundreds, and only errors of the server are bold.
pub proof fn colors_by_hundreds(status: u16)
    ensures
        status_style(status).color is Green <==> status as int / 100 == 2,
        status_style(status).color is Yellow <==> status as int / 100 == 3,
        status_style(status).color is Red <==> status as int / 100 == 4 || status as int / 100 == 5,
        status_style(status).color is White <==> !(2 <= status as int / 100 <= 5),
        status_style(status).bold <==> status as int / 100 == 5,
        !status_style(status).dimmed,
{
}

/// The log line of a request tells its method, path, status and duration, in this order.
pub proof fn requests_are_logged(
    method: &str,
    path: &str,
    status: u16,
    duration_ms: u64,
    r: Vec<Span>,
)
    requires
        call_ensures(request_log, (method, path, status, duration_ms), r),
    ensures
        r@.len() == 7,
        r@[1].text@ == method@ && r@[1].style.bold,
        r@[3].text@ == path@,
        r@[5].text@ == decimal(status as nat) && r@[5].style == status_style(status),
        r@[6].text@ == " ("@ + decimal(duration_ms as nat) + "ms)"@,
{
    let line = crate::display::line_of(r@);
    assert(line.len() == r@.len());
    assert(line[1] == (r@[1].text@, r@[1].style));
    assert(line[3] == (r@[3].text@, r@[3].style));
    assert(line[5] == (r@[5].text@, r@[5].style));
    assert(line[6] == (r@[6].text@, r@[6].style));
}

/// The path in the log is that of the URL, or the URL itself if it has none.
pub proof fn paths_are_logged(url: &str, path: Option<String>, r: String)
    requires
        call_ensures(log_path_parsed, (url, path), r),
    ensures
        path matches Some(p) ==> r@ == p@,
        path is None ==> r@ == url@,
{
}

/// From the third try on the user is told which one it is, out of how many.
pub proof fn tries_are_told(attempt: u32, max: u32, r: Option<Vec<Span>>)
    requires
        call_ensures(reconnecting, (attempt, max), r),
    ensures
        r is Some <==> attempt >= 3,
        r matches Some(line) ==> line@.len() == 3 && line@[2].text@ == " Reconnecting... (attempt "@
            + decimal(attempt as nat) + "/"@ + decimal(max as nat) + ")"@,
{
    if let Some(l) = r {
        let line = crate::display::line_of(l@);
        assert(line.len() == l@.len());
        assert(line[2] == (l@[2].text@, l@[2].style));
    }
}

/// The banner of a tunnel tells its public address, and that it leads to the local port.
pub proof fn banners_tell_the_address(subdomain: Seq<char>, port: u16, relay_host: Seq<char>)
    ensures
        public_url(subdomain, relay_host) == "https://"@ + subdomain + "."@ + relay_host,
        active_banner(subdomain, port, relay_host).len() == 8,
        active_banner(subdomain, port, relay_host)[3].len() == 3,
        active_banner(subdomain, port, relay_host)[3][2].0 == "   "@ + ("https://"@ + subdomain
            + "."@ + relay_host),
        active_banner(subdomain, port, relay_host)[4].len() == 3,
        active_banner(subdomain, port, relay_host)[4][2].0 == "  "@ + ("https://"@ + subdomain
            + "."@ + relay_host) + " → http://localhost:"@ + decimal(port as nat),
{
}

/// A long token is shown by the characters that make its first twelve bytes, and a short one as it
/// is.
pub proof fn tokens_are_cut(start: Seq<char>, rest: Seq<char>)
    ensures
        encode_utf8(start).len() == 12 ==> shown_part(start + rest) == start,
        encode_utf8(start).len() <= 12 ==> shown_part(start) == start,
{
    lemma_utf8_joins(start, rest);
    encode_utf8_decode_utf8(start);
    let bytes = encode_utf8(start + rest);
    if encode_utf8(start).len() == 12 {
        assert(bytes.subrange(0, 12) =~= encode_utf8(start));
        if bytes.len() == 12 {
            assert(bytes =~= encode_utf8(start));
            encode_utf8_decode_utf8(start + rest);
        }
    }
}

/// A session is told by its email or else its user id, and by its name if it has one; without a
/// session a token is told by its start, and without both the user is told to log in.
pub proof fn status_tells_who(s: SessionModel, token: Option<Seq<char>>, t: Seq<char>)
    ensures
        s.email.len() > 0 ==> status_report(Some(s), token)[1] == "  Authenticated:  yes ("@
            + s.email + ")"@,
        s.email.len() == 0 ==> status_report(Some(s), token)[1] == "  Authenticated:  yes ("@
            + s.user_id + ")"@,
        s.name.len() > 0 ==> status_report(Some(s), token) == seq![
            ""@,
            status_report(Some(s), token)[1],
            "  Name:           "@ + s.name,
            "  Auth method:    session token"@,
            ""@,
        ],
        s.name.len() == 0 ==> status_report(Some(s), token) == seq![
            ""@,
            status_report(Some(s), token)[1],
            "  Auth method:    session token"@,
            ""@,
        ],
        status_report(None, Some(t)) == seq![
            ""@,
            "  Authenticated:  yes ("@ + shown_part(t) + "...)"@,
            "  Auth method:    API key"@,
            ""@,
        ],
        status_report(None, None) == seq![
            ""@,
            "  Authenticated:  no"@,
            "  Run `dodev login` to authenticate."@,
            ""@,
        ],
{
}

/// The credentials of the config file are told by kind, the session first; if there are none, that
/// is told.
pub proof fn credentials_are_told(c: ConfigModel)
    ensures
        credentials_report(None) == seq!["  (no config file found)"@],
        c.auth is Some && c.auth.unwrap().session_token is Some && c.auth.unwrap().api_key is Some
            ==> credentials_report(Some(c)) == seq![
            "  Session:        set"@,
            "  API key:        set"@,
        ],
        c.auth is Some && c.auth.unwrap().session_token is Some && c.auth.unwrap().api_key is None
            ==> credentials_report(Some(c)) == seq!["  Session:        set"@],
        c.auth is Some && c.auth.unwrap().session_token is None && c.auth.unwrap().api_key is Some
            ==> credentials_report(Some(c)) == seq!["  API key:        set"@],
        c.auth is None || (c.auth.unwrap().session_token is None && c.auth.unwrap().api_key is None)
            ==> credentials_report(Some(c)) == seq!["  Auth:           not configured"@],
{
}

/// The report on the configuration tells the file, the credentials and the relay, in this order.
pub proof fn configuration_is_told(
    path: Option<Seq<char>>,
    config: Option<ConfigModel>,
    ws_url: Option<Seq<char>>,
)
    ensures
        ({
            let r = config_report(path, config, ws_url);
            let n = credentials_report(config).len() as int;
            &&& r.len() == n + 4
            &&& r.subrange(2, 2 + n) == credentials_report(config)
            &&& path is Some ==> r[1] == "  Config file:    "@ + path.unwrap()
            &&& path is None ==> r[1] == "  Config file:    "@ + "(unknown)"@
            &&& ws_url is Some ==> r[2 + n] == "  WS URL:         "@ + ws_url.unwrap()
                + " (override)"@
            &&& ws_url is None ==> r[2 + n]
                == "  WS URL:         wss://<subdomain>.local.dev/_dodev/connect (derived from --subdomain, default: lab)"@
        }),
{
    let r = config_report(path, config, ws_url);
    let n = credentials_report(config).len() as int;
    assert(r.subrange(2, 2 + n) =~= credentials_report(config));
}

} // verus!

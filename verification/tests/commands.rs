use dodev::account::{
    account_url, check_account_status, succeeded, unreachable_account, unreadable_account,
    AUTH_BASE_URL,
};
use dodev::auth::{get_auth_token, AuthError};
use dodev::config::{AppConfig, AuthConfig, ConfigError, SessionInfo};
use dodev::display::{
    disconnected, error_line, gave_up, reconnected_quietly, reconnecting, request_log,
    tunnel_active, Color, Span, Style,
};
use dodev::login::{
    auth_url, callback_data, callback_error, callback_response, logged_in_lines, logged_out_lines,
    login_outcome, opening_lines, read_callback, read_callback_text, request_target,
    unsaved_session, waiting_lines, CallbackData, CallbackStep,
};
use dodev::pages::LOGIN_PAGE;
use dodev::report::{config_lines, status_lines, update_error, updated_lines, UpdateStep};
use dodev::start::{
    choose_subdomain, chosen_line, names_to_probe, owned_subdomains, owns_subdomain, plan_start,
    tunnel_for, tunnel_to, MeResponse, StartPlan,
};

fn s(text: &str) -> String {
    text.to_string()
}

fn list(items: &[&str]) -> Vec<String> {
    items.iter().map(|i| s(i)).collect()
}

// ---------------------------------------------------------------------------
// Start
// ---------------------------------------------------------------------------
#[test]
fn assigned_names_come_first() {
    let me = MeResponse {
        email: None,
        assigned_subdomains: list(&["a", "b"]),
        reserved_subdomains: list(&["dev"]),
    };
    assert_eq!(owned_subdomains(&me), list(&["a", "b", "dev"]));
}

#[test]
fn owned_names_and_names_below_may_be_used() {
    let owned = list(&["Lab7", "dev"]);
    for (name, ok) in [
        ("dev", true),
        ("DEV", true),
        ("lab7", true),
        ("talk.dev", true),
        ("pbx.DEV", true),
        (".dev", true),
        ("dev.talk", false),
        ("a.b.dev", false),
        ("dev.", false),
        ("other", false),
        ("", false),
    ] {
        assert_eq!(owns_subdomain(&owned, name), ok, "{}", name);
    }
    assert!(!owns_subdomain(&vec![], "dev"));
}

#[test]
fn foreign_names_are_refused_with_a_list() {
    let refused = names_to_probe(Some("x"), &list(&["a", "b"])).unwrap_err();
    assert_eq!(
        refused,
        "You don't own 'x.local.dev'. Subdomains you can use:\n  - a.local.dev (and *.a.local.dev)\n  - b.local.dev (and *.b.local.dev)\n\nFor nested subdomains, claim a namespace at https://local.dev/dashboard/subdomains then run `dodev local http <port> -s <leaf>.<namespace>` — e.g. `talk.dev`, `pbx.dev`."
    );
    let refused = choose_subdomain(Some(s("x")), &vec![], &vec![false]).unwrap_err();
    assert_eq!(
        refused,
        "You don't own 'x.local.dev'. Subdomains you can use:\n  (none yet — try `dodev login` then re-run)\n\nFor nested subdomains, claim a namespace at https://local.dev/dashboard/subdomains then run `dodev local http <port> -s <leaf>.<namespace>` — e.g. `talk.dev`, `pbx.dev`."
    );
}

#[test]
fn requested_name_is_taken_if_free() {
    let owned = list(&["dev"]);
    assert_eq!(names_to_probe(Some("talk.dev"), &owned).unwrap(), list(&["talk.dev"]));
    assert_eq!(choose_subdomain(Some(s("talk.dev")), &owned, &vec![false]).unwrap(), "talk.dev");
    assert_eq!(
        choose_subdomain(Some(s("talk.dev")), &owned, &vec![true]).unwrap_err(),
        "'talk.dev.local.dev' is already in use by another dodev tunnel on this machine. Stop that one (Ctrl+C) or pick a different subdomain with -s."
    );
}

#[test]
fn first_free_name_is_picked() {
    let owned = list(&["a", "b", "c"]);
    assert_eq!(names_to_probe(None, &owned).unwrap(), owned);
    assert_eq!(choose_subdomain(None, &owned, &vec![false, false, false]).unwrap(), "a");
    assert_eq!(choose_subdomain(None, &owned, &vec![true, false, false]).unwrap(), "b");
    assert_eq!(choose_subdomain(None, &owned, &vec![true, true, false]).unwrap(), "c");
    assert_eq!(
        choose_subdomain(None, &owned, &vec![true, true, true]).unwrap_err(),
        "All 3 of your subdomains are in use by other dodev tunnels on this machine:\n  - a.local.dev\n  - b.local.dev\n  - c.local.dev\n\nStop one with Ctrl+C, or upgrade for more concurrent tunnels: https://local.dev/pricing"
    );
    assert_eq!(
        choose_subdomain(None, &vec![], &vec![]).unwrap_err(),
        "No subdomains assigned to your account yet. Try `dodev login` to refresh, or contact support@do.dev."
    );
}

#[test]
fn tunnels_connect_to_their_subdomain() {
    let t = tunnel_for(s("tok"), s("talk.dev"), s("localhost"), 3000);
    assert_eq!(t.ws_url, "wss://talk.dev.local.dev/_dodev/connect");
    assert_eq!((t.token, t.subdomain, t.local_host, t.local_port), (s("tok"), s("talk.dev"), s("localhost"), 3000));
    let t = tunnel_to(s("ws://test"), s("tok"), None, s("h"), 1);
    assert_eq!((t.ws_url, t.subdomain), (s("ws://test"), s("lab")));
    let t = tunnel_to(s("ws://test"), s("tok"), Some(s("x")), s("h"), 1);
    assert_eq!((t.subdomain, t.local_host, t.local_port), (s("x"), s("h"), 1));
    assert_eq!(chosen_line("x"), "  Using subdomain: x.local.dev");
}

#[test]
fn named_relay_wins() {
    match plan_start(Ok(s("tok")), Some(s("ws://test")), Some(s("x")), s("h"), 7) {
        Ok(StartPlan::Connect(t)) => {
            assert_eq!((t.ws_url, t.token, t.subdomain), (s("ws://test"), s("tok"), s("x")));
            assert_eq!((t.local_host, t.local_port), (s("h"), 7));
        }
        other => panic!("{:?}", other),
    }
    match plan_start(Ok(s("tok")), None, Some(s("x")), s("h"), 7) {
        Ok(StartPlan::Choose { token, requested, host, port }) => {
            assert_eq!((token, requested, host, port), (s("tok"), Some(s("x")), s("h"), 7))
        }
        other => panic!("{:?}", other),
    }
    let refused = plan_start(Err(AuthError::NotFound), Some(s("ws://test")), None, s("h"), 7);
    assert_eq!(refused.unwrap_err(), "Not logged in. Run `dodev login` to authenticate.");
}

// ---------------------------------------------------------------------------
// Account
// ---------------------------------------------------------------------------
#[test]
fn account_lookup() {
    assert_eq!(AUTH_BASE_URL, "https://local.dev");
    assert_eq!(account_url(), "https://local.dev/api/cli/me");
    assert!(check_account_status(200, "").is_ok());
    assert!(check_account_status(299, "x").is_ok());
    assert_eq!(unreachable_account("dns"), "Failed to reach https://local.dev/api/cli/me: dns");
    assert_eq!(
        check_account_status(401, "no").unwrap_err(),
        "Account lookup failed (401 Unauthorized): no"
    );
    assert_eq!(
        check_account_status(300, &"é".repeat(300)).unwrap_err(),
        format!("Account lookup failed (300 Multiple Choices): {}", "é".repeat(200))
    );
    assert!(!succeeded(199) && succeeded(204) && !succeeded(301));
    assert_eq!(unreadable_account("eof"), "Failed to parse account response: eof");
}

// ---------------------------------------------------------------------------
// Login
// ---------------------------------------------------------------------------
#[test]
fn login_address() {
    assert_eq!(auth_url(49152), "https://local.dev/auth/cli?port=49152");
}

#[test]
fn callback_brings_the_session() {
    let request =
        b"GET /callback?token=t%201&email=a%40b.c&name=Ann+B&user_id=u1 HTTP/1.1\r\nHost: localhost\r\n\r\n";
    let data = read_callback(request).unwrap();
    assert_eq!(data.token, "t 1");
    assert_eq!(data.email, "a@b.c");
    assert_eq!(data.name, "Ann B");
    assert_eq!(data.user_id, "u1");
}

#[test]
fn callback_needs_only_a_token() {
    let data = read_callback_text("GET /callback?token=t HTTP/1.1").unwrap();
    assert_eq!((data.token, data.email, data.name, data.user_id), (s("t"), s(""), s(""), s("")));
    assert_eq!(
        read_callback_text("GET /callback?email=x HTTP/1.1").unwrap_err(),
        "Missing token in callback"
    );
    assert_eq!(read_callback_text("GET /callback").unwrap_err(), "Missing token in callback");
    let data = read_callback_text("GET /?token=a&token=b x").unwrap();
    assert_eq!(data.token, "b");
    let pairs = vec![(s("token"), s("1")), (s("name"), s("n")), (s("token"), s("2"))];
    let data = callback_data(&pairs).unwrap();
    assert_eq!((data.token, data.name), (s("2"), s("n")));
}

#[test]
fn malformed_callbacks_are_refused() {
    for request in ["", "GET", "GET\n/callback?token=t", "\nGET /callback?token=t"] {
        assert_eq!(read_callback_text(request).unwrap_err(), "Invalid HTTP request");
    }
    let refused = read_callback_text("GET :99999/ HTTP/1.1").unwrap_err();
    assert_eq!(refused, "Failed to parse callback URL: invalid port number");
    assert_eq!(request_target("GET /x HTTP/1.1\r\nA: b"), Some("/x"));
    assert_eq!(request_target("\t GET\u{2003}/x"), Some("/x"));
    assert_eq!(read_callback(&[0xff, 0x20]).unwrap_err(), "Invalid HTTP request");
}

#[test]
fn callback_answer_announces_its_length() {
    let response = callback_response();
    let (head, body) = response.split_once("\r\n\r\n").unwrap();
    assert_eq!(body, LOGIN_PAGE);
    assert_eq!(
        head,
        format!(
            "HTTP/1.1 200 OK\r\nContent-Type: text/html; charset=utf-8\r\nContent-Length: {}\r\nConnection: close",
            LOGIN_PAGE.len()
        )
    );
    assert!(body.starts_with("<!DOCTYPE html><html><head><title>dodev CLI</title><style>\n"));
    assert!(body.ends_with("    </div></body></html>"));
}

#[test]
fn login_messages() {
    assert_eq!(callback_error(CallbackStep::Listen, "e"), "Failed to start callback server: e");
    assert_eq!(callback_error(CallbackStep::Address, "e"), "Failed to get listener address: e");
    assert_eq!(callback_error(CallbackStep::Accept, "e"), "Failed to accept connection: e");
    assert_eq!(callback_error(CallbackStep::Read, "e"), "Failed to read request: e");
    assert_eq!(callback_error(CallbackStep::Send, "e"), "Failed to send response: e");
    assert_eq!(callback_error(CallbackStep::Flush, "e"), "Failed to flush response: e");
    assert_eq!(login_outcome(None).unwrap_err(), "Login timed out. Please try again.");
    assert_eq!(login_outcome(Some(Err(s("e")))).unwrap_err(), "e");
    let data = CallbackData { token: s("t"), email: s(""), name: s(""), user_id: s("") };
    assert_eq!(login_outcome(Some(Ok(data))).unwrap().token, "t");
    assert_eq!(
        unsaved_session(&ConfigError::Io(s("full"))),
        "Failed to save session: IO error: full"
    );
    assert_eq!(opening_lines(), list(&["", "  Opening browser for authentication...", ""]));
    assert_eq!(
        waiting_lines("URL"),
        list(&["  If the browser doesn't open, visit:", "  URL", "", "  Waiting for authentication..."])
    );
    assert_eq!(
        logged_in_lines("a@b"),
        list(&["", "  ✔ Logged in as a@b", "  Run `dodev local http 3000` to create a tunnel.", ""])
    );
    assert_eq!(logged_in_lines("")[1], "  ✔ Logged in as authenticated user");
    assert_eq!(logged_out_lines(), list(&["", "  Logged out.", ""]));
}

// ---------------------------------------------------------------------------
// Status, config, update
// ---------------------------------------------------------------------------
#[test]
fn status_of_a_session() {
    let session = SessionInfo {
        session_token: s("t"),
        user_id: s("u1"),
        email: s("a@b"),
        name: s("Ann"),
    };
    assert_eq!(
        status_lines(Some(&session), None),
        list(&["", "  Authenticated:  yes (a@b)", "  Name:           Ann", "  Auth method:    session token", ""])
    );
    let session = SessionInfo { session_token: s("t"), user_id: s("u1"), email: s(""), name: s("") };
    assert_eq!(
        status_lines(Some(&session), Some("key")),
        list(&["", "  Authenticated:  yes (u1)", "  Auth method:    session token", ""])
    );
}

#[test]
fn status_of_a_key() {
    let key = get_auth_token(Some(s("dodev_0123456789")), None, None).unwrap();
    assert_eq!(
        status_lines(None, Some(key.as_str())),
        list(&["", "  Authenticated:  yes (dodev_012345...)", "  Auth method:    API key", ""])
    );
    assert_eq!(status_lines(None, Some("twelve_chars"))[1], "  Authenticated:  yes (twelve_chars...)");
    assert_eq!(status_lines(None, Some("éééééé1"))[1], "  Authenticated:  yes (éééééé...)");
    assert_eq!(
        status_lines(None, None),
        list(&["", "  Authenticated:  no", "  Run `dodev login` to authenticate.", ""])
    );
}

fn auth(session: Option<&str>, key: Option<&str>) -> AppConfig {
    AppConfig {
        auth: Some(AuthConfig {
            api_key: key.map(s),
            session_token: session.map(s),
            user_id: None,
            email: None,
            name: None,
        }),
        defaults: None,
    }
}

#[test]
fn configuration_report() {
    let derived = "  WS URL:         wss://<subdomain>.local.dev/_dodev/connect (derived from --subdomain, default: lab)";
    assert_eq!(
        config_lines(Some("/c"), Some(&auth(Some("t"), Some("k"))), None),
        list(&["", "  Config file:    /c", "  Session:        set", "  API key:        set", derived, ""])
    );
    assert_eq!(
        config_lines(None, None, Some("ws://x")),
        list(&["", "  Config file:    (unknown)", "  (no config file found)", "  WS URL:         ws://x (override)", ""])
    );
    assert_eq!(config_lines(Some("/c"), Some(&auth(None, Some(""))), None)[2], "  API key:        set");
    assert_eq!(config_lines(Some("/c"), Some(&auth(None, None)), None)[2], "  Auth:           not configured");
    assert_eq!(
        config_lines(Some("/c"), Some(&AppConfig::default()), None)[2],
        "  Auth:           not configured"
    );
}

#[test]
fn update_report() {
    assert_eq!(updated_lines(Some("0.2.0")), list(&["  ✔ Updated dodev to v0.2.0", ""]));
    assert_eq!(updated_lines(None), list(&["  ✔ Already on the latest release.", ""]));
    assert_eq!(update_error(UpdateStep::Run, "e"), "Update failed: e");
    assert_eq!(
        update_error(UpdateStep::Receipt, "e"),
        "No install receipt found (e). `dodev update` only works for binaries installed via https://local.dev/install.sh — reinstall via that script to enable self-update."
    );
    assert_eq!(dodev::report::UPDATING, "  Updating…");
}

// ---------------------------------------------------------------------------
// Display
// ---------------------------------------------------------------------------
fn line(spans: &[Span]) -> String {
    spans.iter().map(|p| p.text.as_str()).collect()
}

#[test]
fn banner_names_the_public_address() {
    let lines: Vec<String> =
        tunnel_active("lab", 3000, "local.dev").iter().map(|l| line(l)).collect();
    assert_eq!(
        lines,
        list(&[
            "",
            "  ✔ Tunnel active",
            "",
            "  Public URL:   https://lab.local.dev",
            "  Forwarding:  https://lab.local.dev → http://localhost:3000",
            "",
            "  Press Ctrl+C to stop",
            "",
        ])
    );
}

#[test]
fn request_log_colors_the_status() {
    for (status, color, bold) in [
        (200, Color::Green, false),
        (299, Color::Green, false),
        (304, Color::Yellow, false),
        (404, Color::Red, false),
        (500, Color::Red, true),
        (599, Color::Red, true),
        (101, Color::White, false),
        (600, Color::White, false),
    ] {
        let l = request_log("GET", "/p", status, 12);
        assert_eq!(line(&l), format!("  GET /p → {} (12ms)", status));
        assert_eq!(l[5].style, Style { color, bold, dimmed: false });
    }
}

#[test]
fn routine_reconnects_are_silent() {
    assert!(reconnecting(1, 20).is_none());
    assert!(reconnecting(2, 20).is_none());
    assert_eq!(line(&reconnecting(3, 20).unwrap()), "  ⟳ Reconnecting... (attempt 3/20)");
}

#[test]
fn other_lines() {
    let quiet = reconnected_quietly();
    assert_eq!(line(&quiet), "  ↻ tunnel refreshed");
    assert!(quiet[1].style.dimmed);
    assert_eq!(line(&error_line("boom")), "  ✗ Error: boom");
    let lines: Vec<String> = disconnected().iter().map(|l| line(l)).collect();
    assert_eq!(lines, list(&["", "  Tunnel disconnected."]));
    assert_eq!(gave_up(20), "Gave up after 20 reconnection attempts");
}

//! What the commands `status`, `config` and `update` tell.

use crate::config::{AppConfig, ConfigModel, SessionInfo, SessionModel};
use crate::text::texts;
use vstd::prelude::*;
use vstd::utf8::{decode_utf8, encode_utf8, encode_utf8_decode_utf8, is_char_boundary};

verus! {

fn two(a: &str, b: &str) -> (r: String)
    ensures
        r@ == a@ + b@,
{
    let mut out = a.to_owned();
    out.append(b);
    out
}

fn three(a: &str, b: &str, c: &str) -> (r: String)
    ensures
        r@ == a@ + b@ + c@,
{
    let mut out = a.to_owned();
    out.append(b);
    out.append(c);
    out
}

/// The text, if there is one.
pub open spec fn opt_str(s: Option<&str>) -> Option<Seq<char>> {
    match s {
        Some(t) => Some(t@),
        None => None,
    }
}

// ---------------------------------------------------------------------------
// Status
// ---------------------------------------------------------------------------
/// How much of a token is shown, in bytes.
pub const SHOWN_BYTES: usize = 12;

/// The part of a token that is shown.
pub open spec fn shown_part(token: Seq<char>) -> Seq<char> {
    if encode_utf8(token).len() > SHOWN_BYTES {
        decode_utf8(encode_utf8(token).subrange(0, SHOWN_BYTES as int))
    } else {
        token
    }
}

/// What the user is told about their authentication: a saved session, or else a token that comes
/// from elsewhere, or else nothing.
pub open spec fn status_report(session: Option<SessionModel>, token: Option<Seq<char>>) -> Seq<
    Seq<char>,
> {
    let lines = match session {
        Some(s) => seq![
            "  Authenticated:  yes ("@ + (if s.email.len() == 0 {
                s.user_id
            } else {
                s.email
            }) + ")"@,
        ] + (if s.name.len() == 0 {
            seq![]
        } else {
            seq!["  Name:           "@ + s.name]
        }) + seq!["  Auth method:    session token"@],
        None => match token {
            Some(t) => seq![
                "  Authenticated:  yes ("@ + shown_part(t) + "...)"@,
                "  Auth method:    API key"@,
            ],
            None => seq!["  Authenticated:  no"@, "  Run `dodev login` to authenticate."@],
        },
    };
    seq![""@] + lines + seq![""@]
}

fn shown(token: &str) -> (r: &str)
    requires
        encode_utf8(token@).len() > SHOWN_BYTES ==> is_char_boundary(
            encode_utf8(token@),
            SHOWN_BYTES as int,
        ),
    ensures
        r@ == shown_part(token@),
{
    let bytes = token.as_bytes();
    if bytes.len() > SHOWN_BYTES {
        let part = token.split_at(SHOWN_BYTES).0;
        proof {
            encode_utf8_decode_utf8(part@);
        }
        part
    } else {
        token
    }
}

/// The lines about the user's authentication. The cut through a long token must not split a
/// character.
pub fn status_lines(session: Option<&SessionInfo>, token: Option<&str>) -> (r: Vec<String>)
    requires
        session is None ==> (token matches Some(t) ==> encode_utf8(t@).len() > SHOWN_BYTES
            ==> is_char_boundary(encode_utf8(t@), SHOWN_BYTES as int)),
    ensures
        texts(r@) == status_report(
            match session {
                Some(s) => Some(s@),
                None => None,
            },
            opt_str(token),
        ),
{
    let mut lines: Vec<String> = Vec::new();
    lines.push("".to_owned());
    match session {
        Some(s) => {
            let who = if s.email.as_str().is_empty() {
                s.user_id.as_str()
            } else {
                s.email.as_str()
            };
            lines.push(three("  Authenticated:  yes (", who, ")"));
            if !s.name.as_str().is_empty() {
                lines.push(two("  Name:           ", s.name.as_str()));
            }
            lines.push("  Auth method:    session token".to_owned());
        },
        None => match token {
            Some(t) => {
                lines.push(three("  Authenticated:  yes (", shown(t), "...)"));
                lines.push("  Auth method:    API key".to_owned());
            },
            None => {
                lines.push("  Authenticated:  no".to_owned());
                lines.push("  Run `dodev login` to authenticate.".to_owned());
            },
        },
    }
    lines.push("".to_owned());
    assert(texts(lines@) =~= status_report(
        match session {
            Some(s) => Some(s@),
            None => None,
        },
        opt_str(token),
    ));
    lines
}

// ---------------------------------------------------------------------------
// Configuration
// ---------------------------------------------------------------------------
/// What the user is told about the credentials in the config file. An empty credential counts as
/// set here.
pub open spec fn credentials_report(config: Option<ConfigModel>) -> Seq<Seq<char>> {
    match config {
        None => seq!["  (no config file found)"@],
        Some(c) => {
            let has_session = c.auth matches Some(a) && a.session_token is Some;
            let has_key = c.auth matches Some(a) && a.api_key is Some;
            if !has_session && !has_key {
                seq!["  Auth:           not configured"@]
            } else {
                (if has_session {
                    seq!["  Session:        set"@]
                } else {
                    seq![]
                }) + (if has_key {
                    seq!["  API key:        set"@]
                } else {
                    seq![]
                })
            }
        },
    }
}

/// What the user is told about the configuration.
pub open spec fn config_report(
    path: Option<Seq<char>>,
    config: Option<ConfigModel>,
    ws_url: Option<Seq<char>>,
) -> Seq<Seq<char>> {
    seq![
        ""@,
        "  Config file:    "@ + match path {
            Some(p) => p,
            None => "(unknown)"@,
        },
    ] + credentials_report(config) + seq![
        match ws_url {
            Some(url) => "  WS URL:         "@ + url + " (override)"@,
            None => "  WS URL:         wss://<subdomain>.local.dev/_dodev/connect (derived from --subdomain, default: lab)"@,
        },
        ""@,
    ]
}

/// The lines about the configuration.
pub fn config_lines(
    path: Option<&str>,
    config: Option<&AppConfig>,
    ws_url: Option<&str>,
) -> (r: Vec<String>)
    ensures
        texts(r@) == config_report(
            opt_str(path),
            match config {
                Some(c) => Some(c@),
                None => None,
            },
            opt_str(ws_url),
        ),
{
    let mut lines: Vec<String> = Vec::new();
    lines.push("".to_owned());
    match path {
        Some(p) => lines.push(two("  Config file:    ", p)),
        None => lines.push(two("  Config file:    ", "(unknown)")),
    }
    match config {
        Some(c) => {
            let (has_session, has_key) = match &c.auth {
                Some(a) => (a.session_token.is_some(), a.api_key.is_some()),
                None => (false, false),
            };
            if has_session {
                lines.push("  Session:        set".to_owned());
            }
            if has_key {
                lines.push("  API key:        set".to_owned());
            }
            if !has_session && !has_key {
                lines.push("  Auth:           not configured".to_owned());
            }
        },
        None => lines.push("  (no config file found)".to_owned()),
    }
    match ws_url {
        Some(url) => lines.push(three("  WS URL:         ", url, " (override)")),
        None => lines.push(
            "  WS URL:         wss://<subdomain>.local.dev/_dodev/connect (derived from --subdomain, default: lab)".to_owned(),
        ),
    }
    lines.push("".to_owned());
    assert(texts(lines@) =~= config_report(
        opt_str(path),
        match config {
            Some(c) => Some(c@),
            None => None,
        },
        opt_str(ws_url),
    ));
    lines
}

// ---------------------------------------------------------------------------
// Update
// ---------------------------------------------------------------------------
/// What is shown while the update runs, without a line end.
pub const UPDATING: &'static str = "  Updating…";

/// The step of an update that failed.
#[derive(Debug, PartialEq, Eq, Structural)]
pub enum UpdateStep {
    /// Reading the receipt of the installer.
    Receipt,
    /// Updating.
    Run,
}

/// The message for an update that failed.
pub fn update_error(step: UpdateStep, e: &str) -> (r: String)
    ensures
        r@ == match step {
            UpdateStep::Receipt => "No install receipt found ("@ + e@
                + "). `dodev update` only works for binaries installed via https://local.dev/install.sh — reinstall via that script to enable self-update."@,
            UpdateStep::Run => "Update failed: "@ + e@,
        },
{
    match step {
        UpdateStep::Receipt => three(
            "No install receipt found (",
            e,
            "). `dodev update` only works for binaries installed via https://local.dev/install.sh — reinstall via that script to enable self-update.",
        ),
        UpdateStep::Run => two("Update failed: ", e),
    }
}

/// The lines after an update, with the new version if there is one.
pub fn updated_lines(new_version: Option<&str>) -> (r: Vec<String>)
    ensures
        texts(r@) == seq![
            match new_version {
                Some(v) => "  \u{2714} Updated dodev to v"@ + v@,
                None => "  \u{2714} Already on the latest release."@,
            },
            ""@,
        ],
{
    let mut lines: Vec<String> = Vec::new();
    match new_version {
        Some(v) => lines.push(two("  \u{2714} Updated dodev to v", v)),
        None => lines.push("  \u{2714} Already on the latest release.".to_owned()),
    }
    lines.push("".to_owned());
    assert(texts(lines@) =~= seq![
        match new_version {
            Some(v) => "  \u{2714} Updated dodev to v"@ + v@,
            None => "  \u{2714} Already on the latest release."@,
        },
        ""@,
    ]);
    lines
}

} // verus!

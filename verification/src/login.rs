//! Logging in through the browser.
//!
//! The client listens on a local port and sends the user to the account server, which comes back
//! to that port with a session token and what it knows about the user.

use crate::account::AUTH_BASE_URL;
use crate::config::{config_error_text, text_or_empty, ConfigError};
use crate::outside::web_address::{parse_url, url_of};
use crate::pages::LOGIN_PAGE;
use crate::text::{
    before, before_char, decimal, decode_lossy, lossy_text, nth_word, opt_text, pair_texts,
    push_decimal, text_eq, texts, words,
};
use vstd::prelude::*;
use vstd::utf8::encode_utf8;

verus! {

/// How long to wait for the browser, in seconds.
pub const LOGIN_TIMEOUT_SECS: u64 = 120;

/// How much of the browser's request is read, in bytes.
pub const CALLBACK_BYTES: usize = 8192;

/// Data received from the OAuth callback.
#[derive(Debug)]
pub struct CallbackData {
    pub token: String,
    pub email: String,
    pub name: String,
    pub user_id: String,
}

/// What a callback brings, as texts.
#[verifier::ext_equal]
pub struct CallbackModel {
    pub token: Seq<char>,
    pub email: Seq<char>,
    pub name: Seq<char>,
    pub user_id: Seq<char>,
}

impl View for CallbackData {
    type V = CallbackModel;

    open spec fn view(&self) -> CallbackModel {
        CallbackModel {
            token: self.token@,
            email: self.email@,
            name: self.name@,
            user_id: self.user_id@,
        }
    }
}

/// Where the user logs in, for a client that listens on `port`.
pub open spec fn login_url(port: u16) -> Seq<char> {
    AUTH_BASE_URL@ + "/auth/cli?port="@ + decimal(port as nat)
}

/// Where the user logs in, for a client that listens on `port`.
pub fn auth_url(port: u16) -> (r: String)
    ensures
        r@ == login_url(port),
{
    let mut url = AUTH_BASE_URL.to_owned();
    url.append("/auth/cli?port=");
    push_decimal(&mut url, port as u64);
    url
}

// ---------------------------------------------------------------------------
// The callback
// ---------------------------------------------------------------------------
/// The target of an HTTP request: the second word of its first line.
pub open spec fn target_of(request: Seq<char>) -> Option<Seq<char>> {
    let line = words(before_char(request, '\n'));
    if line.len() > 1 {
        Some(line[1])
    } else {
        None
    }
}

/// The value of a query parameter. Of a name that comes several times the last value counts.
pub open spec fn param_of(pairs: Seq<(Seq<char>, Seq<char>)>, name: Seq<char>) -> Option<Seq<char>>
    decreases pairs.len(),
{
    if pairs.len() == 0 {
        None
    } else if pairs.last().0 == name {
        Some(pairs.last().1)
    } else {
        param_of(pairs.drop_last(), name)
    }
}

/// What the query parameters of a callback bring. Only the token has to be there.
pub open spec fn callback_of_pairs(pairs: Seq<(Seq<char>, Seq<char>)>) -> Result<
    CallbackModel,
    Seq<char>,
> {
    match param_of(pairs, "token"@) {
        None => Err("Missing token in callback"@),
        Some(token) => Ok(
            CallbackModel {
                token,
                email: text_or_empty(param_of(pairs, "email"@)),
                name: text_or_empty(param_of(pairs, "name"@)),
                user_id: text_or_empty(param_of(pairs, "user_id"@)),
            },
        ),
    }
}

/// The address that a callback came to, given its target.
pub open spec fn callback_url(target: Seq<char>) -> Seq<char> {
    "http://localhost"@ + target
}

/// What a callback brings, given its text.
pub open spec fn callback_of(request: Seq<char>) -> Result<CallbackModel, Seq<char>> {
    match target_of(request) {
        None => Err("Invalid HTTP request"@),
        Some(target) => match url_of(callback_url(target)) {
            Err(e) => Err("Failed to parse callback URL: "@ + e),
            Ok(u) => callback_of_pairs(u.2),
        },
    }
}

/// The texts of a result.
pub open spec fn callback_model(r: Result<CallbackData, String>) -> Result<
    CallbackModel,
    Seq<char>,
> {
    match r {
        Ok(d) => Ok(d@),
        Err(e) => Err(e@),
    }
}

/// The target of an HTTP request.
pub fn request_target(request: &str) -> (r: Option<&str>)
    ensures
        match r {
            Some(t) => target_of(request@) == Some(t@),
            None => target_of(request@) is None,
        },
{
    nth_word(before(request, '\n'), 1)
}

fn param(pairs: &Vec<(String, String)>, name: &str) -> (r: Option<String>)
    ensures
        opt_text(r) == param_of(pair_texts(pairs@), name@),
{
    let ghost all = pair_texts(pairs@);
    let mut i: usize = pairs.len();
    assert(all.take(i as int) =~= all);
    while i > 0
        invariant
            i <= pairs@.len(),
            all == pair_texts(pairs@),
            param_of(all, name@) == param_of(all.take(i as int), name@),
        decreases i,
    {
        assert(all.take(i as int).drop_last() =~= all.take(i - 1));
        assert(all[i - 1] == (pairs@[i - 1].0@, pairs@[i - 1].1@));
        i = i - 1;
        if text_eq(pairs[i].0.as_str(), name) {
            return Some(pairs[i].1.clone());
        }
    }
    None
}

fn param_or_empty(pairs: &Vec<(String, String)>, name: &str) -> (r: String)
    ensures
        r@ == text_or_empty(param_of(pair_texts(pairs@), name@)),
{
    match param(pairs, name) {
        Some(v) => v,
        None => String::new(),
    }
}

/// What the query parameters of a callback bring, or the message that tells what is missing.
pub fn callback_data(pairs: &Vec<(String, String)>) -> (r: Result<CallbackData, String>)
    ensures
        callback_model(r) == callback_of_pairs(pair_texts(pairs@)),
{
    match param(pairs, "token") {
        None => Err("Missing token in callback".to_owned()),
        Some(token) => Ok(
            CallbackData {
                token,
                email: param_or_empty(pairs, "email"),
                name: param_or_empty(pairs, "name"),
                user_id: param_or_empty(pairs, "user_id"),
            },
        ),
    }
}

/// What a callback brings, or the message that tells why it brings nothing.
pub fn read_callback_text(request: &str) -> (r: Result<CallbackData, String>)
    ensures
        callback_model(r) == callback_of(request@),
{
    match request_target(request) {
        None => Err("Invalid HTTP request".to_owned()),
        Some(target) => {
            let mut url = "http://localhost".to_owned();
            url.append(target);
            match parse_url(url.as_str()) {
                Ok(parts) => callback_data(&parts.pairs),
                Err(e) => {
                    let mut out = "Failed to parse callback URL: ".to_owned();
                    out.append(e.as_str());
                    Err(out)
                },
            }
        },
    }
}

/// What a callback brings, given the bytes that the browser sent.
pub fn read_callback(request: &[u8]) -> (r: Result<CallbackData, String>)
    ensures
        callback_model(r) == callback_of(lossy_text(request@)),
{
    let text = decode_lossy(request);
    read_callback_text(text.as_str())
}

/// What the browser is answered: the page, with its length in bytes.
pub fn callback_response() -> (r: String)
    ensures
        r@
            == "HTTP/1.1 200 OK\r\nContent-Type: text/html; charset=utf-8\r\nContent-Length: "@
            + decimal(encode_utf8(LOGIN_PAGE@).len())
            + "\r\nConnection: close\r\n\r\n"@ + LOGIN_PAGE@,
{
    let page = LOGIN_PAGE.as_bytes_vec();
    let mut out =
        "HTTP/1.1 200 OK\r\nContent-Type: text/html; charset=utf-8\r\nContent-Length: ".to_owned();
    push_decimal(&mut out, page.len() as u64);
    out.append("\r\nConnection: close\r\n\r\n");
    out.append(LOGIN_PAGE);
    out
}

// ---------------------------------------------------------------------------
// What the user is told
// ---------------------------------------------------------------------------
/// The step of waiting for the browser that failed.
#[derive(Debug, PartialEq, Eq, Structural)]
pub enum CallbackStep {
    Listen,
    Address,
    Accept,
    Read,
    Send,
    Flush,
}

/// The heading of the message for a step that failed.
pub open spec fn step_heading(step: CallbackStep) -> Seq<char> {
    match step {
        CallbackStep::Listen => "Failed to start callback server: "@,
        CallbackStep::Address => "Failed to get listener address: "@,
        CallbackStep::Accept => "Failed to accept connection: "@,
        CallbackStep::Read => "Failed to read request: "@,
        CallbackStep::Send => "Failed to send response: "@,
        CallbackStep::Flush => "Failed to flush response: "@,
    }
}

/// The message for a step that failed.
pub fn callback_error(step: CallbackStep, e: &str) -> (r: String)
    ensures
        r@ == step_heading(step) + e@,
{
    let mut out = match step {
        CallbackStep::Listen => "Failed to start callback server: ".to_owned(),
        CallbackStep::Address => "Failed to get listener address: ".to_owned(),
        CallbackStep::Accept => "Failed to accept connection: ".to_owned(),
        CallbackStep::Read => "Failed to read request: ".to_owned(),
        CallbackStep::Send => "Failed to send response: ".to_owned(),
        CallbackStep::Flush => "Failed to flush response: ".to_owned(),
    };
    out.append(e);
    out
}

/// What came of waiting for the browser. There is nothing if it took too long.
pub fn login_outcome(waited: Option<Result<CallbackData, String>>) -> (r: Result<
    CallbackData,
    String,
>)
    ensures
        match waited {
            Some(outcome) => r == outcome,
            None => r matches Err(e) && e@ == "Login timed out. Please try again."@,
        },
{
    match waited {
        Some(outcome) => outcome,
        None => Err("Login timed out. Please try again.".to_owned()),
    }
}

/// The message for a session that could not be saved.
pub fn unsaved_session(e: &ConfigError) -> (r: String)
    ensures
        r@ == "Failed to save session: "@ + config_error_text(*e),
{
    let text = e.message();
    let mut out = "Failed to save session: ".to_owned();
    out.append(text.as_str());
    out
}

/// The lines before the browser opens.
pub fn opening_lines() -> (r: Vec<String>)
    ensures
        texts(r@) == seq![""@, "  Opening browser for authentication..."@, ""@],
{
    let mut lines: Vec<String> = Vec::new();
    lines.push("".to_owned());
    lines.push("  Opening browser for authentication...".to_owned());
    lines.push("".to_owned());
    assert(texts(lines@) =~= seq![""@, "  Opening browser for authentication..."@, ""@]);
    lines
}

/// The lines while the client waits for the browser.
pub fn waiting_lines(url: &str) -> (r: Vec<String>)
    ensures
        texts(r@) == seq![
            "  If the browser doesn't open, visit:"@,
            "  "@ + url@,
            ""@,
            "  Waiting for authentication..."@,
        ],
{
    let mut lines: Vec<String> = Vec::new();
    lines.push("  If the browser doesn't open, visit:".to_owned());
    let mut line = "  ".to_owned();
    line.append(url);
    lines.push(line);
    lines.push("".to_owned());
    lines.push("  Waiting for authentication...".to_owned());
    assert(texts(lines@) =~= seq![
        "  If the browser doesn't open, visit:"@,
        "  "@ + url@,
        ""@,
        "  Waiting for authentication..."@,
    ]);
    lines
}

/// Who is greeted after a login.
pub open spec fn greeted(email: Seq<char>) -> Seq<char> {
    if email.len() == 0 {
        "authenticated user"@
    } else {
        email
    }
}

/// The lines after a login.
pub fn logged_in_lines(email: &str) -> (r: Vec<String>)
    ensures
        texts(r@) == seq![
            ""@,
            "  \u{2714} Logged in as "@ + greeted(email@),
            "  Run `dodev local http 3000` to create a tunnel."@,
            ""@,
        ],
{
    let mut lines: Vec<String> = Vec::new();
    lines.push("".to_owned());
    let mut line = "  \u{2714} Logged in as ".to_owned();
    if email.is_empty() {
        line.append("authenticated user");
    } else {
        line.append(email);
    }
    lines.push(line);
    lines.push("  Run `dodev local http 3000` to create a tunnel.".to_owned());
    lines.push("".to_owned());
    assert(texts(lines@) =~= seq![
        ""@,
        "  \u{2714} Logged in as "@ + greeted(email@),
        "  Run `dodev local http 3000` to create a tunnel."@,
        ""@,
    ]);
    lines
}

/// The lines after a logout.
pub fn logged_out_lines() -> (r: Vec<String>)
    ensures
        texts(r@) == seq![""@, "  Logged out."@, ""@],
{
    let mut lines: Vec<String> = Vec::new();
    lines.push("".to_owned());
    lines.push("  Logged out.".to_owned());
    lines.push("".to_owned());
    assert(texts(lines@) =~= seq![""@, "  Logged out."@, ""@]);
    lines
}

// ---------------------------------------------------------------------------
// Laws
// ---------------------------------------------------------------------------
/// A callback without a token brings nothing, one with a token always something.
pub proof fn token_decides_the_callback(pairs: Seq<(Seq<char>, Seq<char>)>)
    ensures
        callback_of_pairs(pairs) is Ok <==> exists|i: int|
            0 <= i < pairs.len() && (#[trigger] pairs[i]).0 == "token"@,
{
    lemma_param_found(pairs, "token"@);
}

proof fn lemma_param_found(pairs: Seq<(Seq<char>, Seq<char>)>, name: Seq<char>)
    ensures
        param_of(pairs, name) is Some <==> exists|i: int|
            0 <= i < pairs.len() && (#[trigger] pairs[i]).0 == name,
    decreases pairs.len(),
{
    if pairs.len() > 0 {
        let init = pairs.drop_last();
        lemma_param_found(init, name);
        if pairs.last().0 == name {
            assert(pairs[pairs.len() - 1].0 == name);
        } else {
            if param_of(init, name) is Some {
                let i = choose|i: int| 0 <= i < init.len() && (#[trigger] init[i]).0 == name;
                assert(pairs[i].0 == name);
            }
            if exists|i: int| 0 <= i < pairs.len() && (#[trigger] pairs[i]).0 == name {
                let i = choose|i: int| 0 <= i < pairs.len() && (#[trigger] pairs[i]).0 == name;
                assert(init[i].0 == name);
            }
        }
    }
}

} // verus!

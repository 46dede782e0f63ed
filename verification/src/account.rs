//! The account server: what is asked of it, and what its refusals are reported as.

use crate::outside::http_text::{status_line, status_line_of};
use crate::text::{first_chars, take_chars};
use vstd::prelude::*;

verus! {

/// The account server.
pub const AUTH_BASE_URL: &'static str = "https://local.dev";

/// How much of a refusal's text is reported, in characters.
pub const REPORTED_CHARS: usize = 200;

/// Where the account server tells which subdomains a user owns.
pub fn account_url() -> (r: String)
    ensures
        r@ == AUTH_BASE_URL@ + "/api/cli/me"@,
{
    let mut url = AUTH_BASE_URL.to_owned();
    url.append("/api/cli/me");
    url
}

/// Whether a status tells of success.
pub open spec fn is_success(status: u16) -> bool {
    200 <= status < 300
}

/// Whether a status tells of success.
pub fn succeeded(status: u16) -> (r: bool)
    ensures
        r == is_success(status),
{
    200 <= status && status < 300
}

/// The message for an account server that did not answer.
pub fn unreachable_account(e: &str) -> (r: String)
    ensures
        r@ == "Failed to reach "@ + (AUTH_BASE_URL@ + "/api/cli/me"@) + ": "@ + e@,
{
    let url = account_url();
    let mut out = "Failed to reach ".to_owned();
    out.append(url.as_str());
    out.append(": ");
    out.append(e);
    out
}

/// Whether the account server answered with success, or else the message that tells how it
/// refused: its status and the start of its text.
pub fn check_account_status(status: u16, body: &str) -> (r: Result<(), String>)
    requires
        100 <= status <= 999,
    ensures
        match r {
            Ok(_) => is_success(status),
            Err(e) => !is_success(status) && e@ == "Account lookup failed ("@ + status_line_of(
                status,
            ) + "): "@ + first_chars(body@, REPORTED_CHARS as nat),
        },
{
    if succeeded(status) {
        return Ok(());
    }
    let line = status_line(status);
    let mut out = "Account lookup failed (".to_owned();
    out.append(line.as_str());
    out.append("): ");
    out.append(take_chars(body, REPORTED_CHARS));
    Err(out)
}

/// The message for an answer that could not be read.
pub fn unreadable_account(e: &str) -> (r: String)
    ensures
        r@ == "Failed to parse account response: "@ + e@,
{
    let mut out = "Failed to parse account response: ".to_owned();
    out.append(e);
    out
}

} // verus!

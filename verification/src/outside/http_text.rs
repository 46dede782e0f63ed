//! Methods, header names, header values and status lines of the crate `http`, as `reqwest` and
//! `tungstenite` export them.

use crate::text::{ascii_lower, decimal};
use tokio_tungstenite::tungstenite::http::{HeaderName, HeaderValue, StatusCode};
use vstd::prelude::*;
use vstd::utf8::encode_utf8;

verus! {

/// The characters of an HTTP token.
pub open spec fn is_token_char(c: char) -> bool {
    ||| '0' <= c && c <= '9'
    ||| 'A' <= c && c <= 'Z'
    ||| 'a' <= c && c <= 'z'
    ||| c == '!' || c == '#' || c == '$' || c == '%' || c == '&' || c == '\''
    ||| c == '*' || c == '+' || c == '-' || c == '.'
    ||| c == '^' || c == '_' || c == '`' || c == '|' || c == '~'
}

/// Whether a text is a non-empty run of token characters.
pub open spec fn is_token(s: Seq<char>) -> bool {
    s.len() > 0 && forall|i: int| 0 <= i < s.len() ==> is_token_char(#[trigger] s[i])
}

/// `Method::from_bytes`, with `Method::as_str` of what it returns: a method is any token, and its
/// case is kept.
#[verifier::external_body]
pub(crate) fn http_method(s: &str) -> (r: Option<String>)
    ensures
        r is Some == is_token(s@),
        r matches Some(m) ==> m@ == s@,
{
    reqwest::Method::from_bytes(s.as_bytes()).ok().map(|m| m.as_str().to_string())
}

/// The longest header name, in bytes.
pub const MAX_HEADER_NAME: usize = 65535;

/// Whether a text can name a header.
pub open spec fn is_header_name(s: Seq<char>) -> bool {
    is_token(s) && s.len() <= MAX_HEADER_NAME
}

/// `HeaderName::from_bytes`, with `HeaderName::as_str` of what it returns: a header name is any
/// token up to the length limit, turned into small letters.
#[verifier::external_body]
pub(crate) fn header_name(s: &str) -> (r: Option<String>)
    ensures
        r is Some == is_header_name(s@),
        r matches Some(n) ==> n@ == ascii_lower(s@),
{
    HeaderName::from_bytes(s.as_bytes()).ok().map(|n| n.as_str().to_string())
}

/// Whether a text can be the value of a header: its UTF-8 bytes hold no control byte but the tab.
pub open spec fn is_header_value(s: Seq<char>) -> bool {
    forall|i: int|
        0 <= i < encode_utf8(s).len() ==> {
            let b = #[trigger] encode_utf8(s)[i];
            (b >= 32 && b != 127) || b == 9
        }
}

/// `HeaderValue::from_str`: whether a text can be the value of a header, or else the message of
/// the error.
#[verifier::external_body]
pub(crate) fn check_header_value(s: &str) -> (r: Result<(), String>)
    ensures
        r is Ok == is_header_value(s@),
        r matches Err(e) ==> e@ == "failed to parse header value"@,
{
    match HeaderValue::from_str(s) {
        Ok(_) => Ok(()),
        Err(e) => Err(e.to_string()),
    }
}

/// What `StatusCode::to_string` returns for a status code.
pub uninterp spec fn status_line_of(code: u16) -> Seq<char>;

/// `StatusCode::to_string`: the code in decimal, a space and the code's reason. Status codes run
/// from 100 to 999.
#[verifier::external_body]
pub(crate) fn status_line(code: u16) -> (r: String)
    requires
        100 <= code <= 999,
    ensures
        r@ == status_line_of(code),
        (decimal(code as nat) + " "@).is_prefix_of(r@),
{
    StatusCode::from_u16(code).unwrap().to_string()
}

} // verus!

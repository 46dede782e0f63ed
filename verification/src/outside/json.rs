//! JSON text of the crate `serde_json`.

use vstd::prelude::*;
use vstd::utf8::encode_utf8;

verus! {

/// The error type `serde_json::Error`.
#[verifier::external_type_specification]
#[verifier::external_body]
pub struct ExJsonError(serde_json::Error);

/// The hexadecimal digit of value `d`.
pub open spec fn hex_digit(d: int) -> u8 {
    if d < 10 {
        (0x30 + d) as u8
    } else {
        (0x57 + d) as u8
    }
}

/// The bytes of one character inside a JSON string. The quote, the backslash and the control
/// characters below the space are escaped.
pub open spec fn json_char(c: char) -> Seq<u8> {
    if c == '"' {
        seq![0x5cu8, 0x22]
    } else if c == '\\' {
        seq![0x5cu8, 0x5c]
    } else if c as u32 == 8 {
        seq![0x5cu8, 0x62]
    } else if c == '\t' {
        seq![0x5cu8, 0x74]
    } else if c == '\n' {
        seq![0x5cu8, 0x6e]
    } else if c as u32 == 12 {
        seq![0x5cu8, 0x66]
    } else if c == '\r' {
        seq![0x5cu8, 0x72]
    } else if 32 > c as u32 {
        seq![0x5cu8, 0x75, 0x30, 0x30, hex_digit(c as int / 16), hex_digit(c as int % 16)]
    } else {
        encode_utf8(seq![c])
    }
}

/// The characters of a JSON string, without the quotes around it.
pub open spec fn json_chars(s: Seq<char>) -> Seq<u8>
    decreases s.len(),
{
    if s.len() == 0 {
        Seq::empty()
    } else {
        json_chars(s.drop_last()) + json_char(s.last())
    }
}

/// A text as a JSON string.
pub open spec fn json_string(s: Seq<char>) -> Seq<u8> {
    seq![0x22u8] + json_chars(s) + seq![0x22u8]
}

/// `serde_json::to_vec::<str>`: a text as a JSON string. The serializer fails only where its
/// writer does, and a vector takes every write.
#[verifier::external_body]
pub(crate) fn string_to_json(s: &str) -> (r: Result<Vec<u8>, serde_json::Error>)
    ensures
        r is Ok,
        r->Ok_0@ == json_string(s@),
{
    serde_json::to_vec(s)
}

/// `serde_json::Error::to_string`: the message of an error. What it says is left open.
#[verifier::external_body]
pub(crate) fn json_error_text(e: &serde_json::Error) -> String {
    e.to_string()
}

} // verus!

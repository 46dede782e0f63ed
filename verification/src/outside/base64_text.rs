//! Base64 of the crate `base64`, in its standard alphabet with canonical padding.

use base64::engine::general_purpose::STANDARD;
use base64::Engine;
use vstd::prelude::*;

verus! {

/// The character for six bits: capital letters, small letters, digits, `+` and `/`.
pub open spec fn base64_char(n: int) -> char {
    if n < 26 {
        (65 + n) as char
    } else if n < 52 {
        (71 + n) as char
    } else if n < 62 {
        (n - 4) as char
    } else if n == 62 {
        '+'
    } else {
        '/'
    }
}

/// Bytes as Base64: four characters for every three bytes, the last group filled up with `=`.
pub open spec fn base64_of(bytes: Seq<u8>) -> Seq<char>
    decreases bytes.len(),
{
    if bytes.len() == 0 {
        Seq::empty()
    } else if bytes.len() == 1 {
        let a = bytes[0] as int;
        seq![base64_char(a / 4), base64_char(a % 4 * 16), '=', '=']
    } else if bytes.len() == 2 {
        let (a, b) = (bytes[0] as int, bytes[1] as int);
        seq![base64_char(a / 4), base64_char(a % 4 * 16 + b / 16), base64_char(b % 16 * 4), '=']
    } else {
        let (a, b, c) = (bytes[0] as int, bytes[1] as int, bytes[2] as int);
        seq![
            base64_char(a / 4),
            base64_char(a % 4 * 16 + b / 16),
            base64_char(b % 16 * 4 + c / 64),
            base64_char(c % 64),
        ] + base64_of(bytes.skip(3))
    }
}

/// Whether the Base64 text of `len` bytes fits into memory: four characters for every three
/// bytes, and no allocation exceeds `isize::MAX`.
pub open spec fn base64_fits(len: nat) -> bool {
    4 * ((len + 2) / 3) <= isize::MAX
}

/// Whether the Base64 text of `len` bytes fits into memory.
pub fn fits_as_base64(len: usize) -> (r: bool)
    ensures
        r == base64_fits(len as nat),
{
    let groups: usize = len / 3 + if len % 3 == 0 {
        0
    } else {
        1
    };
    groups <= isize::MAX as usize / 4
}

/// `STANDARD.encode`: bytes as Base64, in the standard alphabet and with padding. It panics where
/// the text would not fit into memory.
#[verifier::external_body]
pub(crate) fn base64_encode(bytes: &[u8]) -> (r: String)
    requires
        base64_fits(bytes@.len()),
    ensures
        r@ == base64_of(bytes@),
{
    STANDARD.encode(bytes)
}

/// Whether `r` is what decoding a text gives: the bytes whose Base64 it is, or nothing if it is no
/// Base64.
pub open spec fn base64_decodes_to(s: Seq<char>, r: Option<Seq<u8>>) -> bool {
    forall|v: Seq<u8>| #[trigger] base64_of(v) == s <==> r == Some(v)
}

proof fn lemma_char_apart(m: int, n: int)
    requires
        0 <= m < 64,
        0 <= n < 64,
    ensures
        base64_char(m) == base64_char(n) ==> m == n,
        base64_char(m) != '=',
{
}

/// One group of four characters determines its three bytes. Missing bytes count as zero.
proof fn lemma_group_apart(a: u8, b: u8, c: u8, d: u8, e: u8, f: u8)
    ensures
        base64_char(a as int / 4) == base64_char(d as int / 4) && base64_char(
            a as int % 4 * 16 + b as int / 16,
        ) == base64_char(d as int % 4 * 16 + e as int / 16) ==> a == d && b as int / 16 == e as int
            / 16,
        base64_char(b as int % 16 * 4 + c as int / 64) == base64_char(
            e as int % 16 * 4 + f as int / 64,
        ) ==> b % 16 == e % 16 && c as int / 64 == f as int / 64,
        base64_char(c as int % 64) == base64_char(f as int % 64) ==> c % 64 == f % 64,
        base64_char(b as int % 16 * 4 + c as int / 64) != '=',
        base64_char(c as int % 64) != '=',
{
    lemma_char_apart(a as int / 4, d as int / 4);
    lemma_char_apart(a as int % 4 * 16 + b as int / 16, d as int % 4 * 16 + e as int / 16);
    lemma_char_apart(b as int % 16 * 4 + c as int / 64, e as int % 16 * 4 + f as int / 64);
    lemma_char_apart(c as int % 64, f as int % 64);
}

/// Bytes that have the same Base64 are the same.
pub proof fn base64_determines_its_bytes(x: Seq<u8>, y: Seq<u8>)
    requires
        base64_of(x) == base64_of(y),
    ensures
        x == y,
    decreases x.len(),
{
    let (s, t) = (base64_of(x), base64_of(y));
    assert(x.len() == 0 <==> s.len() == 0);
    assert(y.len() == 0 <==> t.len() == 0);
    if x.len() > 0 {
        let b = if x.len() > 1 {
            x[1]
        } else {
            0u8
        };
        let c = if x.len() > 2 {
            x[2]
        } else {
            0u8
        };
        let e = if y.len() > 1 {
            y[1]
        } else {
            0u8
        };
        let f = if y.len() > 2 {
            y[2]
        } else {
            0u8
        };
        lemma_group_apart(x[0], b, c, y[0], e, f);
        lemma_group_apart(y[0], e, f, x[0], b, c);
        assert(s[0] == t[0] && s[1] == t[1] && s[2] == t[2] && s[3] == t[3]);
        assert((s[2] == '=') == (x.len() == 1));
        assert((t[2] == '=') == (y.len() == 1));
        assert((s[3] == '=') == (x.len() <= 2));
        assert((t[3] == '=') == (y.len() <= 2));
        if x.len() > 2 {
            assert(s.skip(4) =~= base64_of(x.skip(3)));
            assert(t.skip(4) =~= base64_of(y.skip(3)));
            base64_determines_its_bytes(x.skip(3), y.skip(3));
            assert(x =~= seq![x[0], x[1], x[2]] + x.skip(3));
            assert(y =~= seq![y[0], y[1], y[2]] + y.skip(3));
        }
        assert(x =~= y);
    }
}

/// The length of a Base64 text: four characters for every three bytes.
pub proof fn base64_length(bytes: Seq<u8>)
    ensures
        base64_of(bytes).len() == 4 * ((bytes.len() + 2) / 3),
    decreases bytes.len(),
{
    if bytes.len() > 2 {
        base64_length(bytes.skip(3));
    }
}

/// Decoding the Base64 of some bytes gives these bytes.
pub proof fn base64_reads_back(bytes: Seq<u8>, r: Option<Seq<u8>>)
    requires
        base64_decodes_to(base64_of(bytes), r),
    ensures
        r == Some(bytes),
{
}

/// Decoding a text gives one result only.
pub proof fn base64_decodes_to_one(s: Seq<char>, a: Option<Seq<u8>>, b: Option<Seq<u8>>)
    requires
        base64_decodes_to(s, a),
        base64_decodes_to(s, b),
    ensures
        a == b,
{
    if let Some(x) = a {
        assert(base64_of(x) == s);
    }
    if let Some(y) = b {
        assert(base64_of(y) == s);
    }
}

/// `STANDARD.decode`: the bytes whose Base64 a text is, if it is one. The engine takes canonical
/// padding and zero trailing bits only, so it accepts a text exactly if some bytes encode to it,
/// and then returns these bytes.
#[verifier::external_body]
pub(crate) fn base64_decode(s: &str) -> (r: Option<Vec<u8>>)
    ensures
        base64_decodes_to(
            s@,
            match r {
                Some(v) => Some(v@),
                None => None,
            },
        ),
{
    STANDARD.decode(s).ok()
}

} // verus!

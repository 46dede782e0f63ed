//! What JSON determines: values that are written as the same JSON are the same.
//!
//! Most lemmas here take two values with what follows them, and tell that where the bytes are the
//! same, both the values and what follows are. The last ones tell that what is written is UTF-8.

use crate::json::{field_json, json_list, object_json, opt_string_json, strings_json};
use crate::outside::json::{hex_digit, json_char, json_chars, json_string};
use crate::text::{decimal, is_digit, joined, lemma_decimal_spells, pair_texts, texts};
use vstd::prelude::*;
use vstd::utf8::{
    char_u32_cast, codepoint_width_1, decode_first_scalar, encode_scalar, encode_utf8,
    encode_utf8_decode_utf8, encode_utf8_first_scalar, encode_utf8_valid_utf8, is_ascii_chars,
    is_ascii_chars_encode_utf8, is_leading_byte_width_1, length_of_first_scalar, pop_first_scalar,
    valid_first_scalar, valid_utf8, valid_utf8_concat,
};

verus! {

/// What follows equal beginnings is equal.
pub proof fn lemma_same_start(l: Seq<u8>, x: Seq<u8>, y: Seq<u8>)
    requires
        l + x == l + y,
    ensures
        x == y,
{
    assert((l + x).skip(l.len() as int) =~= x);
    assert((l + y).skip(l.len() as int) =~= y);
}

/// Three parts, grouped from the end.
pub proof fn lemma_group3(a: Seq<u8>, b: Seq<u8>, c: Seq<u8>)
    ensures
        a + b + c == a + (b + c),
{
    assert(a + b + c =~= a + (b + c));
}

/// Five parts, grouped from the end.
pub proof fn lemma_group5(a: Seq<u8>, b: Seq<u8>, c: Seq<u8>, d: Seq<u8>, e: Seq<u8>)
    ensures
        a + b + c + d + e == a + (b + (c + (d + e))),
{
    lemma_group3(a + b + c, d, e);
    lemma_group3(a + b, c, d + e);
    lemma_group3(a, b, c + (d + e));
}

/// Seven parts, grouped from the end.
pub proof fn lemma_group7(
    a: Seq<u8>,
    b: Seq<u8>,
    c: Seq<u8>,
    d: Seq<u8>,
    e: Seq<u8>,
    f: Seq<u8>,
    g: Seq<u8>,
)
    ensures
        a + b + c + d + e + f + g == a + (b + (c + (d + (e + (f + g))))),
{
    lemma_group3(a + b + c + d + e, f, g);
    lemma_group3(a + b + c + d, e, f + g);
    lemma_group5(a, b, c, d, e + (f + g));
}

/// Nine parts, grouped from the end.
pub proof fn lemma_group9(
    a: Seq<u8>,
    b: Seq<u8>,
    c: Seq<u8>,
    d: Seq<u8>,
    e: Seq<u8>,
    f: Seq<u8>,
    g: Seq<u8>,
    h: Seq<u8>,
    i: Seq<u8>,
)
    ensures
        a + b + c + d + e + f + g + h + i == a + (b + (c + (d + (e + (f + (g + (h + i))))))),
{
    lemma_group3(a + b + c + d + e + f + g, h, i);
    lemma_group3(a + b + c + d + e + f, g, h + i);
    lemma_group7(a, b, c, d, e, f, g + (h + i));
}

/// Eleven parts, grouped from the end.
pub proof fn lemma_group11(
    a: Seq<u8>,
    b: Seq<u8>,
    c: Seq<u8>,
    d: Seq<u8>,
    e: Seq<u8>,
    f: Seq<u8>,
    g: Seq<u8>,
    h: Seq<u8>,
    i: Seq<u8>,
    j: Seq<u8>,
    k: Seq<u8>,
)
    ensures
        a + b + c + d + e + f + g + h + i + j + k == a + (b + (c + (d + (e + (f + (g + (h + (i + (j
            + k))))))))),
{
    lemma_group3(a + b + c + d + e + f + g + h + i, j, k);
    lemma_group3(a + b + c + d + e + f + g + h, i, j + k);
    lemma_group9(a, b, c, d, e, f, g, h, i + (j + k));
}

// ---------------------------------------------------------------------------
// Strings
// ---------------------------------------------------------------------------
/// Whether a character is written as itself.
spec fn is_verbatim(c: char) -> bool {
    c != '"' && c != '\\' && c as u32 >= 32
}

proof fn lemma_one_char(c: char)
    ensures
        encode_utf8(seq![c]) == encode_scalar(c as u32),
        length_of_first_scalar(encode_utf8(seq![c])) == encode_utf8(seq![c]).len(),
        decode_first_scalar(encode_utf8(seq![c])) == c as u32,
        valid_first_scalar(encode_utf8(seq![c])),
        encode_utf8(seq![c]).len() > 0,
{
    let s = seq![c];
    assert(s.drop_first() =~= Seq::<char>::empty());
    assert(encode_utf8(Seq::<char>::empty()) =~= Seq::<u8>::empty());
    assert(encode_utf8(s) =~= encode_scalar(c as u32));
    encode_utf8_first_scalar(s);
}

proof fn lemma_first_byte(c: char)
    ensures
        json_char(c).len() > 0,
        json_char(c)[0] != 0x22,
        (json_char(c)[0] == 0x5c) == !is_verbatim(c),
{
    if is_verbatim(c) {
        lemma_one_char(c);
        let b = encode_utf8(seq![c])[0];
        assert(is_leading_byte_width_1(0x22) && is_leading_byte_width_1(0x5c)) by (bit_vector);
        assert(codepoint_width_1(0x22) == 0x22 && codepoint_width_1(0x5c) == 0x5c) by (bit_vector);
        assert(json_char(c)[0] == b);
        if b == 0x22 || b == 0x5c {
            assert(c as u32 == b as u32);
        }
    }
}

proof fn lemma_verbatim_apart(c: char, d: char, x: Seq<u8>, y: Seq<u8>)
    requires
        encode_utf8(seq![c]) + x == encode_utf8(seq![d]) + y,
    ensures
        c == d,
        x == y,
{
    let p = encode_utf8(seq![c]);
    let q = encode_utf8(seq![d]);
    lemma_one_char(c);
    lemma_one_char(d);
    assert((p + x)[0] == p[0]);
    assert((q + y)[0] == q[0]);
    assert(p.len() == q.len());
    assert forall|i: int| 0 <= i < p.len() implies p[i] == q[i] by {
        assert((p + x)[i] == p[i]);
        assert((q + y)[i] == q[i]);
    }
    assert(p =~= q);
    char_u32_cast(c, decode_first_scalar(p));
    char_u32_cast(d, decode_first_scalar(q));
    lemma_same_start(p, x, y);
}

proof fn lemma_char_apart(c: char, d: char, x: Seq<u8>, y: Seq<u8>)
    requires
        json_char(c) + x == json_char(d) + y,
    ensures
        c == d,
        x == y,
{
    lemma_first_byte(c);
    lemma_first_byte(d);
    let p = json_char(c);
    let q = json_char(d);
    assert((p + x)[0] == p[0]);
    assert((q + y)[0] == q[0]);
    if is_verbatim(c) {
        lemma_verbatim_apart(c, d, x, y);
    } else {
        assert(p.len() >= 2 && q.len() >= 2);
        assert((p + x)[1] == p[1]);
        assert((q + y)[1] == q[1]);
        if p[1] == 0x75 {
            assert(p.len() == 6 && q.len() == 6);
            assert((p + x)[4] == p[4] && (q + y)[4] == q[4]);
            assert((p + x)[5] == p[5] && (q + y)[5] == q[5]);
            assert(hex_digit(c as int / 16) == hex_digit(d as int / 16));
            assert(hex_digit(c as int % 16) == hex_digit(d as int % 16));
            assert(c as int / 16 == d as int / 16);
            assert(c as int % 16 == d as int % 16);
            assert(c as int == d as int);
        }
        assert(c == d);
        lemma_same_start(p, x, y);
    }
}

proof fn lemma_chars_front(s: Seq<char>)
    requires
        s.len() > 0,
    ensures
        json_chars(s) == json_char(s[0]) + json_chars(s.drop_first()),
    decreases s.len(),
{
    if s.len() == 1 {
        assert(s.drop_last() =~= Seq::<char>::empty());
        assert(s.drop_first() =~= Seq::<char>::empty());
        assert(json_chars(s) =~= json_char(s[0]) + json_chars(s.drop_first()));
    } else {
        let init = s.drop_last();
        lemma_chars_front(init);
        assert(init.drop_first() =~= s.drop_first().drop_last());
        assert(s.drop_first().last() == s.last());
        assert(json_chars(s) =~= json_char(s[0]) + json_chars(s.drop_first()));
    }
}

proof fn lemma_chars_apart(a: Seq<char>, b: Seq<char>, x: Seq<u8>, y: Seq<u8>)
    requires
        json_chars(a) + (seq![0x22u8] + x) == json_chars(b) + (seq![0x22u8] + y),
    ensures
        a == b,
        x == y,
    decreases a.len(),
{
    let quote = seq![0x22u8];
    let left = json_chars(a) + (quote + x);
    let right = json_chars(b) + (quote + y);
    if a.len() == 0 {
        assert(left[0] == 0x22);
        if b.len() > 0 {
            lemma_chars_front(b);
            lemma_first_byte(b[0]);
            assert(right[0] == json_char(b[0])[0]);
        }
        assert(a =~= b);
        assert(left =~= quote + x);
        assert(right =~= quote + y);
        lemma_same_start(quote, x, y);
    } else {
        lemma_chars_front(a);
        lemma_first_byte(a[0]);
        assert(left[0] == json_char(a[0])[0]);
        if b.len() == 0 {
            assert(right[0] == 0x22);
        }
        lemma_chars_front(b);
        let u = json_chars(a.drop_first()) + (quote + x);
        let v = json_chars(b.drop_first()) + (quote + y);
        assert(left =~= json_char(a[0]) + u);
        assert(right =~= json_char(b[0]) + v);
        lemma_char_apart(a[0], b[0], u, v);
        lemma_chars_apart(a.drop_first(), b.drop_first(), x, y);
        assert(a =~= seq![a[0]] + a.drop_first());
        assert(b =~= seq![b[0]] + b.drop_first());
    }
}

/// A JSON string ends where it ends, and determines its text.
pub proof fn lemma_string_apart(a: Seq<char>, b: Seq<char>, x: Seq<u8>, y: Seq<u8>)
    requires
        json_string(a) + x == json_string(b) + y,
    ensures
        a == b,
        x == y,
{
    let quote = seq![0x22u8];
    assert(json_string(a) + x =~= quote + (json_chars(a) + (quote + x)));
    assert(json_string(b) + y =~= quote + (json_chars(b) + (quote + y)));
    lemma_same_start(quote, json_chars(a) + (quote + x), json_chars(b) + (quote + y));
    lemma_chars_apart(a, b, x, y);
}

/// Texts that are written as the same JSON string are the same.
pub proof fn json_string_determines_its_text(a: Seq<char>, b: Seq<char>)
    requires
        json_string(a) == json_string(b),
    ensures
        a == b,
{
    lemma_string_apart(a, b, Seq::empty(), Seq::empty());
}

// ---------------------------------------------------------------------------
// Lists
// ---------------------------------------------------------------------------
/// Whether bytes go on with a comma or a closing bracket.
pub open spec fn stops(x: Seq<u8>, close: u8) -> bool {
    x.len() > 0 && (x[0] == 0x2c || x[0] == close)
}

/// Whether items can be told apart by what stands before a comma or a closing bracket, and none
/// of them looks like the end of a list.
pub open spec fn ends_alone(item: spec_fn(Seq<u8>) -> bool, close: u8) -> bool {
    &&& forall|p: Seq<u8>| #[trigger] item(p) ==> p.len() > 0 && p[0] != close
    &&& forall|p: Seq<u8>, q: Seq<u8>, x: Seq<u8>, y: Seq<u8>|
        item(p) && item(q) && stops(x, close) && stops(y, close) && #[trigger] (p + x)
            == #[trigger] (q + y) ==> p == q
}

proof fn lemma_comma()
    ensures
        encode_utf8(","@) == seq![0x2cu8],
{
    reveal_strlit(",");
    is_ascii_chars_encode_utf8(","@);
    assert(encode_utf8(","@) =~= seq![0x2cu8]);
}

proof fn lemma_joined_front(parts: Seq<Seq<u8>>, sep: Seq<u8>)
    requires
        parts.len() > 1,
    ensures
        joined(parts, sep) == parts[0] + sep + joined(parts.drop_first(), sep),
    decreases parts.len(),
{
    let init = parts.drop_last();
    let rest = parts.drop_first();
    assert(rest.last() == parts.last());
    if parts.len() == 2 {
        assert(init =~= seq![parts[0]]);
        assert(rest =~= seq![parts[1]]);
        assert(joined(init, sep) == parts[0]);
        assert(joined(rest, sep) == parts[1]);
    } else {
        lemma_joined_front(init, sep);
        assert(init.drop_first() =~= rest.drop_last());
        assert(joined(parts, sep) =~= parts[0] + sep + joined(rest, sep));
    }
}

/// Lists of items that can be told apart end where they end, and determine their items.
pub proof fn lemma_list_apart(
    a: Seq<Seq<u8>>,
    b: Seq<Seq<u8>>,
    item: spec_fn(Seq<u8>) -> bool,
    close: u8,
    x: Seq<u8>,
    y: Seq<u8>,
)
    requires
        ends_alone(item, close),
        close != 0x2c,
        forall|i: int| 0 <= i < a.len() ==> item(#[trigger] a[i]),
        forall|i: int| 0 <= i < b.len() ==> item(#[trigger] b[i]),
        joined(a, encode_utf8(","@)) + (seq![close] + x) == joined(b, encode_utf8(","@)) + (
        seq![close] + y),
    ensures
        a == b,
        x == y,
    decreases a.len(),
{
    lemma_comma();
    let comma = encode_utf8(","@);
    let end = seq![close];
    let left = joined(a, comma) + (end + x);
    let right = joined(b, comma) + (end + y);
    let u = if a.len() <= 1 {
        end + x
    } else {
        comma + (joined(a.drop_first(), comma) + (end + x))
    };
    let v = if b.len() <= 1 {
        end + y
    } else {
        comma + (joined(b.drop_first(), comma) + (end + y))
    };
    if a.len() > 0 {
        if a.len() > 1 {
            lemma_joined_front(a, comma);
        }
        assert(left =~= a[0] + u);
        assert(item(a[0]));
        assert(left[0] == a[0][0]);
    } else {
        assert(left =~= end + x);
        assert(left[0] == close);
    }
    if b.len() > 0 {
        if b.len() > 1 {
            lemma_joined_front(b, comma);
        }
        assert(right =~= b[0] + v);
        assert(item(b[0]));
        assert(right[0] == b[0][0]);
    } else {
        assert(right =~= end + y);
        assert(right[0] == close);
    }
    assert((a.len() == 0) == (b.len() == 0));
    if a.len() == 0 {
        assert(a =~= b);
        lemma_same_start(end, x, y);
    } else {
        assert(stops(u, close) && stops(v, close));
        assert(a[0] + u == b[0] + v);
        assert(a[0] == b[0]);
        lemma_same_start(a[0], u, v);
        assert(u[0] == (if a.len() <= 1 { close } else { 0x2cu8 }));
        assert(v[0] == (if b.len() <= 1 { close } else { 0x2cu8 }));
        if a.len() == 1 {
            assert(b.len() == 1);
            assert(a =~= b);
            lemma_same_start(end, x, y);
        } else {
            assert(b.len() > 1);
            let ra = a.drop_first();
            let rb = b.drop_first();
            lemma_same_start(
                comma,
                joined(ra, comma) + (end + x),
                joined(rb, comma) + (end + y),
            );
            lemma_list_apart(ra, rb, item, close, x, y);
            assert(a =~= seq![a[0]] + ra);
            assert(b =~= seq![b[0]] + rb);
        }
    }
}

proof fn lemma_brackets()
    ensures
        encode_utf8("["@) == seq![0x5bu8],
        encode_utf8("]"@) == seq![0x5du8],
        encode_utf8("{"@) == seq![0x7bu8],
        encode_utf8("}"@) == seq![0x7du8],
        encode_utf8(":"@) == seq![0x3au8],
{
    reveal_strlit("[");
    reveal_strlit("]");
    reveal_strlit("{");
    reveal_strlit("}");
    reveal_strlit(":");
    is_ascii_chars_encode_utf8("["@);
    is_ascii_chars_encode_utf8("]"@);
    is_ascii_chars_encode_utf8("{"@);
    is_ascii_chars_encode_utf8("}"@);
    is_ascii_chars_encode_utf8(":"@);
    assert(encode_utf8("["@) =~= seq![0x5bu8]);
    assert(encode_utf8("]"@) =~= seq![0x5du8]);
    assert(encode_utf8("{"@) =~= seq![0x7bu8]);
    assert(encode_utf8("}"@) =~= seq![0x7du8]);
    assert(encode_utf8(":"@) =~= seq![0x3au8]);
}

/// JSON arrays of items that can be told apart end where they end, and determine their items.
pub proof fn lemma_array_apart(
    a: Seq<Seq<u8>>,
    b: Seq<Seq<u8>>,
    item: spec_fn(Seq<u8>) -> bool,
    x: Seq<u8>,
    y: Seq<u8>,
)
    requires
        ends_alone(item, 0x5d),
        forall|i: int| 0 <= i < a.len() ==> item(#[trigger] a[i]),
        forall|i: int| 0 <= i < b.len() ==> item(#[trigger] b[i]),
        json_list(a) + x == json_list(b) + y,
    ensures
        a == b,
        x == y,
{
    lemma_brackets();
    let open = seq![0x5bu8];
    let end = seq![0x5du8];
    let comma = encode_utf8(","@);
    assert(json_list(a) + x =~= open + (joined(a, comma) + (end + x)));
    assert(json_list(b) + y =~= open + (joined(b, comma) + (end + y)));
    lemma_same_start(open, joined(a, comma) + (end + x), joined(b, comma) + (end + y));
    lemma_list_apart(a, b, item, 0x5d, x, y);
}

/// Whether bytes are a JSON string.
pub open spec fn is_json_string(p: Seq<u8>) -> bool {
    exists|s: Seq<char>| p == #[trigger] json_string(s)
}

/// JSON strings can be told apart by what stands before a comma or a closing bracket.
pub proof fn lemma_strings_end_alone(close: u8)
    requires
        close != 0x22,
    ensures
        ends_alone(|p: Seq<u8>| is_json_string(p), close),
{
    let item = |p: Seq<u8>| is_json_string(p);
    assert forall|p: Seq<u8>| #[trigger] item(p) implies p.len() > 0 && p[0] != close by {
        let s = choose|s: Seq<char>| p == #[trigger] json_string(s);
        assert(p[0] == 0x22);
    }
    assert forall|p: Seq<u8>, q: Seq<u8>, x: Seq<u8>, y: Seq<u8>|
        item(p) && item(q) && stops(x, close) && stops(y, close) && #[trigger] (p + x)
            == #[trigger] (q + y) implies p == q by {
        let s = choose|s: Seq<char>| p == #[trigger] json_string(s);
        let t = choose|t: Seq<char>| q == #[trigger] json_string(t);
        lemma_string_apart(s, t, x, y);
    }
}

/// A JSON array of strings ends where it ends, and determines its texts.
pub proof fn lemma_strings_apart(a: Seq<String>, b: Seq<String>, x: Seq<u8>, y: Seq<u8>)
    requires
        strings_json(a) + x == strings_json(b) + y,
    ensures
        texts(a) == texts(b),
        x == y,
{
    let item = |p: Seq<u8>| is_json_string(p);
    let f = |s: String| json_string(s@);
    lemma_strings_end_alone(0x5d);
    assert forall|i: int| 0 <= i < a.len() implies item(#[trigger] a.map_values(f)[i]) by {
        assert(a.map_values(f)[i] == json_string(a[i]@));
    }
    assert forall|i: int| 0 <= i < b.len() implies item(#[trigger] b.map_values(f)[i]) by {
        assert(b.map_values(f)[i] == json_string(b[i]@));
    }
    lemma_array_apart(a.map_values(f), b.map_values(f), item, x, y);
    assert(a.len() == a.map_values(f).len());
    assert(b.len() == b.map_values(f).len());
    assert forall|i: int| 0 <= i < a.len() implies texts(a)[i] == texts(b)[i] by {
        assert(a.map_values(f)[i] == json_string(a[i]@));
        assert(b.map_values(f)[i] == json_string(b[i]@));
        json_string_determines_its_text(a[i]@, b[i]@);
    }
    assert(texts(a) =~= texts(b));
}

// ---------------------------------------------------------------------------
// Objects
// ---------------------------------------------------------------------------
proof fn lemma_field_apart(
    k: Seq<char>,
    v: Seq<char>,
    l: Seq<char>,
    w: Seq<char>,
    x: Seq<u8>,
    y: Seq<u8>,
)
    requires
        field_json(k, v) + x == field_json(l, w) + y,
    ensures
        k == l,
        v == w,
        x == y,
{
    let colon = encode_utf8(":"@);
    assert(field_json(k, v) + x =~= json_string(k) + (colon + (json_string(v) + x)));
    assert(field_json(l, w) + y =~= json_string(l) + (colon + (json_string(w) + y)));
    lemma_string_apart(k, l, colon + (json_string(v) + x), colon + (json_string(w) + y));
    lemma_same_start(colon, json_string(v) + x, json_string(w) + y);
    lemma_string_apart(v, w, x, y);
}

/// Whether bytes are a field of a JSON object of strings.
pub open spec fn is_field_json(p: Seq<u8>) -> bool {
    exists|k: Seq<char>, v: Seq<char>| p == #[trigger] field_json(k, v)
}

proof fn lemma_fields_end_alone()
    ensures
        ends_alone(|p: Seq<u8>| is_field_json(p), 0x7d),
{
    let item = |p: Seq<u8>| is_field_json(p);
    assert forall|p: Seq<u8>| #[trigger] item(p) implies p.len() > 0 && p[0] != 0x7d by {
        let (k, v) = choose|k: Seq<char>, v: Seq<char>| p == #[trigger] field_json(k, v);
        assert(p[0] == json_string(k)[0]);
        assert(json_string(k)[0] == 0x22);
    }
    assert forall|p: Seq<u8>, q: Seq<u8>, x: Seq<u8>, y: Seq<u8>|
        item(p) && item(q) && stops(x, 0x7d) && stops(y, 0x7d) && #[trigger] (p + x)
            == #[trigger] (q + y) implies p == q by {
        let (k, v) = choose|k: Seq<char>, v: Seq<char>| p == #[trigger] field_json(k, v);
        let (l, w) = choose|l: Seq<char>, w: Seq<char>| q == #[trigger] field_json(l, w);
        lemma_field_apart(k, v, l, w, x, y);
    }
}

/// A JSON object of strings ends where it ends, and determines its names and values.
pub proof fn lemma_object_apart(
    a: Seq<(String, String)>,
    b: Seq<(String, String)>,
    x: Seq<u8>,
    y: Seq<u8>,
)
    requires
        object_json(a) + x == object_json(b) + y,
    ensures
        pair_texts(a) == pair_texts(b),
        x == y,
{
    let item = |p: Seq<u8>| is_field_json(p);
    let f = |p: (String, String)| field_json(p.0@, p.1@);
    let open = seq![0x7bu8];
    let end = seq![0x7du8];
    let comma = encode_utf8(","@);
    let fa = a.map_values(f);
    let fb = b.map_values(f);
    lemma_brackets();
    lemma_fields_end_alone();
    assert forall|i: int| 0 <= i < fa.len() implies item(#[trigger] fa[i]) by {
        assert(fa[i] == field_json(a[i].0@, a[i].1@));
    }
    assert forall|i: int| 0 <= i < fb.len() implies item(#[trigger] fb[i]) by {
        assert(fb[i] == field_json(b[i].0@, b[i].1@));
    }
    assert(object_json(a) + x =~= open + (joined(fa, comma) + (end + x)));
    assert(object_json(b) + y =~= open + (joined(fb, comma) + (end + y)));
    lemma_same_start(open, joined(fa, comma) + (end + x), joined(fb, comma) + (end + y));
    lemma_list_apart(fa, fb, item, 0x7d, x, y);
    assert(a.len() == fa.len() && b.len() == fb.len());
    assert forall|i: int| 0 <= i < a.len() implies pair_texts(a)[i] == pair_texts(b)[i] by {
        assert(fa[i] == field_json(a[i].0@, a[i].1@));
        assert(fb[i] == field_json(b[i].0@, b[i].1@));
        lemma_field_apart(a[i].0@, a[i].1@, b[i].0@, b[i].1@, Seq::empty(), Seq::empty());
    }
    assert(pair_texts(a) =~= pair_texts(b));
}

// ---------------------------------------------------------------------------
// Numbers
// ---------------------------------------------------------------------------
/// Whether bytes do not go on with a digit.
pub open spec fn no_digit(x: Seq<u8>) -> bool {
    x.len() == 0 || x[0] < 0x30 || x[0] > 0x39
}

/// A number in decimal is a run of digits.
pub proof fn lemma_digits(n: nat)
    ensures
        encode_utf8(decimal(n)).len() == decimal(n).len(),
        decimal(n).len() > 0,
        forall|i: int|
            0 <= i < decimal(n).len() ==> #[trigger] encode_utf8(decimal(n))[i] == decimal(n)[i]
                as u8 && 0x30 <= encode_utf8(decimal(n))[i] <= 0x39,
{
    lemma_decimal_spells(n);
    let s = decimal(n);
    assert forall|i: int| 0 <= i < s.len() implies is_digit(#[trigger] s[i]) by {}
    assert(is_ascii_chars(s));
    is_ascii_chars_encode_utf8(s);
    assert forall|i: int| 0 <= i < s.len() implies #[trigger] encode_utf8(s)[i] == s[i] as u8
        && 0x30 <= encode_utf8(s)[i] <= 0x39 by {
        assert(is_digit(s[i]));
    }
}

/// A number ends before the first byte that is no digit, and its digits determine it.
pub proof fn lemma_number_apart(m: nat, n: nat, x: Seq<u8>, y: Seq<u8>)
    requires
        no_digit(x),
        no_digit(y),
        encode_utf8(decimal(m)) + x == encode_utf8(decimal(n)) + y,
    ensures
        m == n,
        x == y,
{
    lemma_digits(m);
    lemma_digits(n);
    let p = encode_utf8(decimal(m));
    let q = encode_utf8(decimal(n));
    if p.len() < q.len() {
        assert((q + y)[p.len() as int] == q[p.len() as int]);
        assert((p + x)[p.len() as int] == x[0]);
    }
    if q.len() < p.len() {
        assert((p + x)[q.len() as int] == p[q.len() as int]);
        assert((q + y)[q.len() as int] == y[0]);
    }
    assert forall|i: int| 0 <= i < p.len() implies p[i] == q[i] by {
        assert((p + x)[i] == p[i]);
        assert((q + y)[i] == q[i]);
    }
    assert(p =~= q);
    encode_utf8_decode_utf8(decimal(m));
    encode_utf8_decode_utf8(decimal(n));
    lemma_decimal_spells(m);
    lemma_decimal_spells(n);
    lemma_same_start(p, x, y);
}

/// A string or `null` ends where it ends, and determines its text.
pub proof fn lemma_opt_string_apart(
    a: Option<Seq<char>>,
    b: Option<Seq<char>>,
    x: Seq<u8>,
    y: Seq<u8>,
)
    requires
        opt_string_json(a) + x == opt_string_json(b) + y,
    ensures
        a == b,
        x == y,
{
    reveal_strlit("null");
    is_ascii_chars_encode_utf8("null"@);
    let null = encode_utf8("null"@);
    assert(null[0] == 0x6e);
    match (a, b) {
        (Some(s), Some(t)) => lemma_string_apart(s, t, x, y),
        (None, None) => lemma_same_start(null, x, y),
        (Some(s), None) => {
            assert((json_string(s) + x)[0] == 0x22);
            assert((null + y)[0] == 0x6e);
        },
        (None, Some(t)) => {
            assert((json_string(t) + y)[0] == 0x22);
            assert((null + x)[0] == 0x6e);
        },
    }
}

// ---------------------------------------------------------------------------
// UTF-8
// ---------------------------------------------------------------------------
proof fn lemma_ascii_is_utf8(bytes: Seq<u8>)
    requires
        forall|i: int| 0 <= i < bytes.len() ==> #[trigger] bytes[i] < 128,
    ensures
        valid_utf8(bytes),
    decreases bytes.len(),
{
    if bytes.len() > 0 {
        let b = bytes[0];
        assert(is_leading_byte_width_1(b) && codepoint_width_1(b) == b as u32) by (bit_vector)
            requires
                b < 128u8,
        ;
        assert(valid_first_scalar(bytes));
        let more = pop_first_scalar(bytes);
        assert(more =~= bytes.skip(1));
        lemma_ascii_is_utf8(more);
    }
}

proof fn lemma_char_is_utf8(c: char)
    ensures
        valid_utf8(json_char(c)),
{
    if is_verbatim(c) {
        encode_utf8_valid_utf8(seq![c]);
    } else {
        if 32 > c as u32 {
            assert(hex_digit(c as int / 16) < 128 && hex_digit(c as int % 16) < 128);
        }
        lemma_ascii_is_utf8(json_char(c));
    }
}

proof fn lemma_chars_are_utf8(s: Seq<char>)
    ensures
        valid_utf8(json_chars(s)),
    decreases s.len(),
{
    if s.len() > 0 {
        let c = s.last();
        lemma_chars_are_utf8(s.drop_last());
        lemma_char_is_utf8(c);
        valid_utf8_concat(json_chars(s.drop_last()), json_char(c));
    } else {
        lemma_ascii_is_utf8(json_chars(s));
    }
}

/// Three pieces of UTF-8 are UTF-8.
pub proof fn lemma_utf8_parts(a: Seq<u8>, b: Seq<u8>, c: Seq<u8>)
    requires
        valid_utf8(a),
        valid_utf8(b),
        valid_utf8(c),
    ensures
        valid_utf8(a + b + c),
{
    valid_utf8_concat(a, b);
    valid_utf8_concat(a + b, c);
}

/// A JSON string is UTF-8.
pub proof fn lemma_string_is_utf8(s: Seq<char>)
    ensures
        valid_utf8(json_string(s)),
{
    let quote = seq![0x22u8];
    lemma_ascii_is_utf8(quote);
    lemma_chars_are_utf8(s);
    lemma_utf8_parts(quote, json_chars(s), quote);
}

proof fn lemma_joined_is_utf8(parts: Seq<Seq<u8>>, sep: Seq<u8>)
    requires
        forall|i: int| 0 <= i < parts.len() ==> valid_utf8(#[trigger] parts[i]),
        valid_utf8(sep),
    ensures
        valid_utf8(joined(parts, sep)),
    decreases parts.len(),
{
    if parts.len() == 0 {
        lemma_ascii_is_utf8(joined(parts, sep));
    } else if parts.len() > 1 {
        let init = parts.drop_last();
        assert forall|i: int| 0 <= i < init.len() implies valid_utf8(#[trigger] init[i]) by {
            assert(init[i] == parts[i]);
        }
        lemma_joined_is_utf8(init, sep);
        lemma_utf8_parts(joined(init, sep), sep, parts.last());
    }
}

/// A JSON array of strings is UTF-8.
pub proof fn lemma_strings_are_utf8(items: Seq<String>)
    ensures
        valid_utf8(strings_json(items)),
{
    let parts = items.map_values(|s: String| json_string(s@));
    let comma = encode_utf8(","@);
    encode_utf8_valid_utf8(","@);
    encode_utf8_valid_utf8("["@);
    encode_utf8_valid_utf8("]"@);
    assert forall|i: int| 0 <= i < parts.len() implies valid_utf8(#[trigger] parts[i]) by {
        lemma_string_is_utf8(items[i]@);
    }
    lemma_joined_is_utf8(parts, comma);
    lemma_utf8_parts(encode_utf8("["@), joined(parts, comma), encode_utf8("]"@));
}

/// A JSON object of strings is UTF-8.
pub proof fn lemma_object_is_utf8(rows: Seq<(String, String)>)
    ensures
        valid_utf8(object_json(rows)),
{
    let parts = rows.map_values(|p: (String, String)| field_json(p.0@, p.1@));
    let comma = encode_utf8(","@);
    let colon = encode_utf8(":"@);
    encode_utf8_valid_utf8(","@);
    encode_utf8_valid_utf8(":"@);
    encode_utf8_valid_utf8("{"@);
    encode_utf8_valid_utf8("}"@);
    assert forall|i: int| 0 <= i < parts.len() implies valid_utf8(#[trigger] parts[i]) by {
        let (k, v) = (json_string(rows[i].0@), json_string(rows[i].1@));
        lemma_string_is_utf8(rows[i].0@);
        lemma_string_is_utf8(rows[i].1@);
        lemma_utf8_parts(k, colon, v);
    }
    lemma_joined_is_utf8(parts, comma);
    lemma_utf8_parts(encode_utf8("{"@), joined(parts, comma), encode_utf8("}"@));
}

/// A JSON string or `null` is UTF-8.
pub proof fn lemma_opt_string_is_utf8(s: Option<Seq<char>>)
    ensures
        valid_utf8(opt_string_json(s)),
{
    match s {
        Some(t) => lemma_string_is_utf8(t),
        None => encode_utf8_valid_utf8("null"@),
    }
}

} // verus!

//! Writing JSON values, as UTF-8 bytes.

use crate::outside::json::{json_string, string_to_json};
use crate::table::Table;
use crate::text::{joined, lemma_joined_next, opt_text};
use vstd::prelude::*;
use vstd::utf8::encode_utf8;

verus! {

/// A JSON array of values that are JSON already.
pub open spec fn json_list(items: Seq<Seq<u8>>) -> Seq<u8> {
    encode_utf8("["@) + joined(items, encode_utf8(","@)) + encode_utf8("]"@)
}

/// Texts as a JSON array of strings.
pub open spec fn strings_json(items: Seq<String>) -> Seq<u8> {
    json_list(items.map_values(|s: String| json_string(s@)))
}

/// One field of a JSON object of strings.
pub open spec fn field_json(name: Seq<char>, value: Seq<char>) -> Seq<u8> {
    json_string(name) + encode_utf8(":"@) + json_string(value)
}

/// Names and values as a JSON object of strings.
pub open spec fn object_json(rows: Seq<(String, String)>) -> Seq<u8> {
    encode_utf8("{"@) + joined(
        rows.map_values(|p: (String, String)| field_json(p.0@, p.1@)),
        encode_utf8(","@),
    ) + encode_utf8("}"@)
}

/// A text as a JSON string, or `null`.
pub open spec fn opt_string_json(s: Option<Seq<char>>) -> Seq<u8> {
    match s {
        Some(t) => json_string(t),
        None => encode_utf8("null"@),
    }
}

/// Appends bytes.
pub(crate) fn push_all(out: &mut Vec<u8>, src: &[u8])
    ensures
        final(out)@ == old(out)@ + src@,
{
    let ghost before = out@;
    let mut i: usize = 0;
    while i < src.len()
        invariant
            i <= src@.len(),
            out@ == before + src@.take(i as int),
        decreases src@.len() - i,
    {
        out.push(src[i]);
        i = i + 1;
        assert(out@ =~= before + src@.take(i as int));
    }
    assert(src@.take(src@.len() as int) =~= src@);
}

/// Appends the UTF-8 bytes of a text.
pub(crate) fn push_text(out: &mut Vec<u8>, s: &str)
    ensures
        final(out)@ == old(out)@ + encode_utf8(s@),
{
    push_all(out, s.as_bytes());
}

/// Appends a text as a JSON string.
pub(crate) fn push_json_string(out: &mut Vec<u8>, s: &str) -> (r: Result<(), serde_json::Error>)
    ensures
        r is Ok,
        final(out)@ == old(out)@ + json_string(s@),
{
    let text = string_to_json(s)?;
    push_all(out, text.as_slice());
    Ok(())
}

/// Appends a text as a JSON string, or `null`.
pub(crate) fn push_opt_string(out: &mut Vec<u8>, s: &Option<String>) -> (r: Result<
    (),
    serde_json::Error,
>)
    ensures
        r is Ok,
        final(out)@ == old(out)@ + opt_string_json(opt_text(*s)),
{
    match s {
        Some(t) => push_json_string(out, t.as_str()),
        None => {
            push_text(out, "null");
            Ok(())
        },
    }
}

/// Appends texts as a JSON array of strings.
pub(crate) fn push_strings(out: &mut Vec<u8>, items: &Vec<String>) -> (r: Result<
    (),
    serde_json::Error,
>)
    ensures
        r is Ok,
        final(out)@ == old(out)@ + strings_json(items@),
{
    let ghost before = out@;
    let ghost parts = items@.map_values(|s: String| json_string(s@));
    let ghost comma = encode_utf8(","@);
    push_text(out, "[");
    let ghost start = out@;
    let mut i: usize = 0;
    assert(parts.take(0) =~= Seq::<Seq<u8>>::empty());
    assert(out@ =~= start + joined(parts.take(0), comma));
    while i < items.len()
        invariant
            i <= items@.len(),
            parts == items@.map_values(|s: String| json_string(s@)),
            comma == encode_utf8(","@),
            out@ == start + joined(parts.take(i as int), comma),
        decreases items@.len() - i,
    {
        proof {
            lemma_joined_next(parts, i as int, comma);
        }
        if i > 0 {
            push_text(out, ",");
        }
        push_json_string(out, items[i].as_str())?;
        assert(out@ =~= start + joined(parts.take(i + 1), comma));
        i = i + 1;
    }
    assert(parts.take(parts.len() as int) =~= parts);
    push_text(out, "]");
    assert(out@ =~= before + strings_json(items@));
    Ok(())
}

fn push_field(out: &mut Vec<u8>, name: &str, value: &str) -> (r: Result<(), serde_json::Error>)
    ensures
        r is Ok,
        final(out)@ == old(out)@ + field_json(name@, value@),
{
    let ghost before = out@;
    push_json_string(out, name)?;
    push_text(out, ":");
    push_json_string(out, value)?;
    assert(out@ =~= before + field_json(name@, value@));
    Ok(())
}

/// Appends a table as a JSON object of strings.
pub(crate) fn push_object(out: &mut Vec<u8>, table: &Table<String>) -> (r: Result<
    (),
    serde_json::Error,
>)
    ensures
        r is Ok,
        final(out)@ == old(out)@ + object_json(table.rows()),
{
    let ghost before = out@;
    let ghost parts = table.rows().map_values(|p: (String, String)| field_json(p.0@, p.1@));
    let ghost comma = encode_utf8(","@);
    push_text(out, "{");
    let ghost start = out@;
    let mut i: usize = 0;
    assert(parts.take(0) =~= Seq::<Seq<u8>>::empty());
    assert(out@ =~= start + joined(parts.take(0), comma));
    while i < table.len()
        invariant
            i <= parts.len(),
            parts == table.rows().map_values(|p: (String, String)| field_json(p.0@, p.1@)),
            comma == encode_utf8(","@),
            out@ == start + joined(parts.take(i as int), comma),
        decreases parts.len() - i,
    {
        proof {
            lemma_joined_next(parts, i as int, comma);
        }
        if i > 0 {
            push_text(out, ",");
        }
        let row = table.row(i);
        push_field(out, row.0.as_str(), row.1.as_str())?;
        assert(out@ =~= start + joined(parts.take(i + 1), comma));
        i = i + 1;
    }
    assert(parts.take(parts.len() as int) =~= parts);
    push_text(out, "}");
    assert(out@ =~= before + object_json(table.rows()));
    Ok(())
}

} // verus!

//! Texts: case, numbers, spaces, words, parts.

use crate::table::rows_map;
use crate::text::{
    ascii_lower, ascii_lower_char, before_char, decimal, digits_value, first_chars,
    is_space, joined, lemma_decimal_spells, lemma_first_index, spelled_i32, trimmed, word_len,
    words,
};
use vstd::prelude::*;

verus! {

proof fn lemma_letters(a: char, b: char)
    ensures
        ascii_lower_char(a) == ascii_lower_char(b) <==> a == b || ('A' <= a && a <= 'Z' && b as u32
            == a as u32 + 32) || ('A' <= b && b <= 'Z' && a as u32 == b as u32 + 32),
{
}

/// Two texts are equal up to case exactly if they are equally long and differ, where they do, only
/// in an ASCII letter that is a capital in one and small in the other.
pub proof fn only_case_differs(a: Seq<char>, b: Seq<char>)
    ensures
        ascii_lower(a) == ascii_lower(b) <==> a.len() == b.len() && forall|i: int|
            0 <= i < a.len() ==> (#[trigger] a[i] == b[i] || ('A' <= a[i] && a[i] <= 'Z' && b[i]
                as u32 == a[i] as u32 + 32) || ('A' <= b[i] && b[i] <= 'Z' && a[i] as u32 == b[i]
                as u32 + 32)),
{
    assert(ascii_lower(a).len() == a.len());
    assert(ascii_lower(b).len() == b.len());
    if a.len() == b.len() {
        assert forall|i: int| 0 <= i < a.len() implies (ascii_lower(a)[i] == ascii_lower(b)[i]) == (
        #[trigger] a[i] == b[i] || ('A' <= a[i] && a[i] <= 'Z' && b[i] as u32 == a[i] as u32 + 32)
            || ('A' <= b[i] && b[i] <= 'Z' && a[i] as u32 == b[i] as u32 + 32)) by {
            lemma_letters(a[i], b[i]);
        }
        if ascii_lower(a) == ascii_lower(b) {
            assert forall|i: int| 0 <= i < a.len() implies (#[trigger] a[i] == b[i] || ('A' <= a[i]
                && a[i] <= 'Z' && b[i] as u32 == a[i] as u32 + 32) || ('A' <= b[i] && b[i] <= 'Z'
                && a[i] as u32 == b[i] as u32 + 32)) by {
                assert(ascii_lower(a)[i] == ascii_lower(b)[i]);
            }
        } else if forall|i: int|
            0 <= i < a.len() ==> (#[trigger] a[i] == b[i] || ('A' <= a[i] && a[i] <= 'Z' && b[i]
                as u32 == a[i] as u32 + 32) || ('A' <= b[i] && b[i] <= 'Z' && a[i] as u32 == b[i]
                as u32 + 32)) {
            assert forall|i: int| 0 <= i < a.len() implies ascii_lower(a)[i] == ascii_lower(
                b,
            )[i] by {
                assert(a[i] == a[i]);
            }
            assert(ascii_lower(a) =~= ascii_lower(b));
        }
    }
}

/// A number below ten is one digit; the last digit of any other number is its rest by ten, after
/// the digits of its tenth.
pub proof fn decimal_goes_by_tens(n: nat)
    ensures
        n < 10 ==> decimal(n) == seq![(48 + n) as char],
        n >= 10 ==> decimal(n) == decimal(n / 10).push((48 + n % 10) as char),
{
}

/// A text that is read as a number is an optional sign and digits, and nothing else.
pub proof fn only_integers_are_read(s: Seq<char>)
    ensures
        spelled_i32(s) is Some ==> s.len() > 0 && (forall|i: int|
            1 <= i < s.len() ==> 48 <= (#[trigger] s[i]) as u32 <= 57) && (48 <= s[0] as u32 <= 57
            || (s.len() > 1 && (s[0] == '-' || s[0] == '+'))),
{
    if spelled_i32(s) is Some {
        let signed = s[0] == '-' || s[0] == '+';
        let body = if signed {
            s.drop_first()
        } else {
            s
        };
        assert(body.len() > 0);
        assert forall|i: int| 1 <= i < s.len() implies 48 <= (#[trigger] s[i]) as u32 <= 57 by {
            if signed {
                assert(body[i - 1] == s[i]);
                assert(crate::text::is_digit(body[i - 1]));
            } else {
                assert(crate::text::is_digit(body[i]));
            }
        }
        if !signed {
            assert(crate::text::is_digit(body[0]));
        }
    }
}

/// A number with a sign is read with that sign, as far as it fits.
pub proof fn signs_are_read(n: nat)
    ensures
        spelled_i32(seq!['-'] + decimal(n)) == (if n <= 2147483648 {
            Some((0 - n) as i32)
        } else {
            None
        }),
        spelled_i32(seq!['+'] + decimal(n)) == (if n <= 2147483647 {
            Some(n as i32)
        } else {
            None
        }),
        spelled_i32(decimal(n)) == (if n <= 2147483647 {
            Some(n as i32)
        } else {
            None
        }),
{
    lemma_decimal_spells(n);
    let d = decimal(n);
    assert((seq!['-'] + d).drop_first() =~= d);
    assert((seq!['+'] + d).drop_first() =~= d);
    assert(crate::text::is_digit(d[0]));
}

/// Trimming takes spaces off both ends, all of them, and nothing else.
pub proof fn trimming_takes_the_outer_spaces(s: Seq<char>) -> (r: (int, int))
    ensures
        0 <= r.0 <= r.1 <= s.len(),
        trimmed(s) == s.subrange(r.0, r.1),
        forall|i: int| 0 <= i < s.len() && !(r.0 <= i < r.1) ==> is_space(#[trigger] s[i]),
        r.0 < r.1 ==> !is_space(s[r.0]) && !is_space(s[r.1 - 1]),
    decreases s.len(),
{
    if s.len() > 0 && is_space(s[0]) {
        let t = s.drop_first();
        let (a, b) = trimming_takes_the_outer_spaces(t);
        assert(trimmed(s) == trimmed(t));
        assert(t.subrange(a, b) =~= s.subrange(a + 1, b + 1));
        assert forall|i: int| 0 <= i < s.len() && !(a + 1 <= i < b + 1) implies is_space(
            #[trigger] s[i],
        ) by {
            if i > 0 {
                assert(t[i - 1] == s[i]);
            }
        }
        (a + 1, b + 1)
    } else if s.len() > 0 && is_space(s[s.len() - 1]) {
        let t = s.drop_last();
        let (a, b) = trimming_takes_the_outer_spaces(t);
        assert(trimmed(s) == trimmed(t));
        assert(t.subrange(a, b) =~= s.subrange(a, b));
        assert forall|i: int| 0 <= i < s.len() && !(a <= i < b) implies is_space(
            #[trigger] s[i],
        ) by {
            if i < s.len() - 1 {
                assert(t[i] == s[i]);
            }
        }
        (a, b)
    } else {
        assert(s.subrange(0, s.len() as int) =~= s);
        (0, s.len() as int)
    }
}

proof fn lemma_word_len_all(s: Seq<char>)
    requires
        forall|i: int| 0 <= i < s.len() ==> !is_space(#[trigger] s[i]),
    ensures
        word_len(s) == s.len(),
    decreases s.len(),
{
    if s.len() > 0 {
        let t = s.drop_first();
        assert forall|i: int| 0 <= i < t.len() implies !is_space(#[trigger] t[i]) by {
            assert(t[i] == s[i + 1]);
        }
        lemma_word_len_all(t);
        assert(!is_space(s[0]));
    }
}

proof fn lemma_word_len_stops(u: Seq<char>, space: char, v: Seq<char>)
    requires
        is_space(space),
    ensures
        word_len(u + seq![space] + v) == word_len(u),
        word_len(u) <= u.len(),
    decreases u.len(),
{
    let s = u + seq![space] + v;
    if u.len() > 0 {
        assert(s[0] == u[0]);
        assert(s.drop_first() =~= u.drop_first() + seq![space] + v);
        lemma_word_len_stops(u.drop_first(), space, v);
    } else {
        assert(s[0] == space);
    }
}

/// A space parts the words before it from the words after it; a run without a space is one word.
pub proof fn spaces_part_words(u: Seq<char>, space: char, v: Seq<char>)
    requires
        is_space(space),
    ensures
        words(u + seq![space] + v) == words(u) + words(v),
        u.len() > 0 && (forall|i: int| 0 <= i < u.len() ==> !is_space(#[trigger] u[i])) ==> words(u)
            == seq![u],
        words(Seq::<char>::empty()) == Seq::<Seq<char>>::empty(),
    decreases u.len(),
{
    let s = u + seq![space] + v;
    if u.len() == 0 {
        assert(s[0] == space);
        assert(s.drop_first() =~= v);
        assert(words(u) =~= Seq::<Seq<char>>::empty());
        assert(words(s) =~= words(u) + words(v));
    } else if is_space(u[0]) {
        assert(s[0] == u[0]);
        assert(s.drop_first() =~= u.drop_first() + seq![space] + v);
        spaces_part_words(u.drop_first(), space, v);
    } else {
        assert(s[0] == u[0]);
        lemma_word_len_stops(u, space, v);
        let n = word_len(u) as int;
        assert(n > 0);
        assert(s.take(n) =~= u.take(n));
        assert(s.skip(n) =~= u.skip(n) + seq![space] + v);
        spaces_part_words(u.skip(n), space, v);
        assert(words(s) =~= seq![s.take(n)] + words(s.skip(n)));
        assert(words(u) =~= seq![u.take(n)] + words(u.skip(n)));
        assert(words(s) =~= words(u) + words(v));
    }
    if u.len() > 0 && (forall|i: int| 0 <= i < u.len() ==> !is_space(#[trigger] u[i])) {
        lemma_word_len_all(u);
        assert(!is_space(u[0]));
        assert(u.take(u.len() as int) =~= u);
        assert(u.skip(u.len() as int) =~= Seq::<char>::empty());
        assert(words(u) =~= seq![u]);
    }
}

/// What stands before a character holds no such character, and is followed by it or by the end.
pub proof fn before_stops_at_the_first(s: Seq<char>, c: char)
    ensures
        ({
            let b = before_char(s, c);
            &&& b.len() <= s.len()
            &&& forall|i: int| 0 <= i < b.len() ==> #[trigger] b[i] == s[i] && b[i] != c
            &&& b.len() < s.len() ==> s[b.len() as int] == c
        }),
{
    lemma_first_index(s, 0, c);
}

/// The first characters of a text are its first ones, as many as asked for or as there are.
pub proof fn first_chars_are_a_prefix(s: Seq<char>, n: nat)
    ensures
        first_chars(s, n).len() == (if s.len() < n {
            s.len()
        } else {
            n
        }),
        forall|i: int| 0 <= i < first_chars(s, n).len() ==> #[trigger] first_chars(s, n)[i] == s[i],
{
}

/// Joining nothing gives nothing, joining one part gives it, and one part more comes after a
/// separator.
pub proof fn parts_are_separated<T>(parts: Seq<Seq<T>>, part: Seq<T>, sep: Seq<T>)
    ensures
        joined(Seq::<Seq<T>>::empty(), sep) == Seq::<T>::empty(),
        joined(seq![part], sep) == part,
        parts.len() > 0 ==> joined(parts.push(part), sep) == joined(parts, sep) + sep + part,
{
    assert(parts.push(part).drop_last() =~= parts);
}

/// The value of a run of digits: each further digit counts once, and what came before ten times.
pub proof fn digits_count_by_tens(s: Seq<char>, c: char)
    requires
        48 <= c as u32 <= 57,
    ensures
        digits_value(s.push(c)) == digits_value(s) * 10 + (c as u32 - 48),
        digits_value(Seq::<char>::empty()) == 0,
{
    assert(s.push(c).drop_last() =~= s);
}

/// White space, among the ASCII characters, is the space and the five from the tab to the carriage
/// return; beyond them it is the separators and the no-break spaces of Unicode.
pub proof fn spaces_in_numbers(c: char)
    ensures
        128 > c as u32 ==> (is_space(c) <==> c as u32 == 32 || 9 <= c as u32 <= 13),
        c as u32 >= 128 ==> (is_space(c) <==> c as u32 == 133 || c as u32 == 160 || c as u32 == 5760
            || 8192 <= c as u32 <= 8202 || c as u32 == 8232 || c as u32 == 8233 || c as u32 == 8239
            || c as u32 == 8287 || c as u32 == 12288),
{
}

/// A row gives its name its value, and leaves the values of other names.
pub proof fn later_rows_win<V>(rows: Seq<(String, V)>, row: (String, V), other: Seq<char>)
    ensures
        rows_map(rows.push(row)).contains_key(row.0@),
        rows_map(rows.push(row))[row.0@] == row.1,
        other != row.0@ ==> rows_map(rows.push(row)).contains_key(other) == rows_map(
            rows,
        ).contains_key(other),
        other != row.0@ && rows_map(rows).contains_key(other) ==> rows_map(rows.push(row))[other]
            == rows_map(rows)[other],
        !rows_map(Seq::<(String, V)>::empty()).contains_key(other),
{
    assert(rows.push(row).drop_last() =~= rows);
}

} // verus!

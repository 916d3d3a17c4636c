//! JSON text for the data that templates are rendered with.

use vstd::prelude::*;
use crate::text::{digit_char, join, join_strings, push_char, push_str};

verus! {

/// A lower case hexadecimal digit of `d` (below sixteen).
pub open spec fn hex_digit(d: nat) -> char {
    if d < 10 {
        digit_char(d)
    } else if d == 10 {
        'a'
    } else if d == 11 {
        'b'
    } else if d == 12 {
        'c'
    } else if d == 13 {
        'd'
    } else if d == 14 {
        'e'
    } else {
        'f'
    }
}

/// How `serde_json` writes one character inside a string: quote and
/// backslash get a backslash, backspace, tab, line feed, form feed and
/// carriage return their short escapes, other control characters (below
/// `0x20`) a `\u00XX` escape in lower case hex; every other character stays.
pub open spec fn escape_char(c: char) -> Seq<char> {
    if c == '"' {
        seq!['\\', '"']
    } else if c == '\\' {
        seq!['\\', '\\']
    } else if c == '\u{8}' {
        seq!['\\', 'b']
    } else if c == '\t' {
        seq!['\\', 't']
    } else if c == '\n' {
        seq!['\\', 'n']
    } else if c == '\u{c}' {
        seq!['\\', 'f']
    } else if c == '\r' {
        seq!['\\', 'r']
    } else if (c as nat) < 0x20 {
        seq!['\\', 'u', '0', '0', hex_digit((c as nat) / 16), hex_digit((c as nat) % 16)]
    } else {
        seq![c]
    }
}

/// The escapes of the characters of a text, in order.
pub open spec fn escape_text(s: Seq<char>) -> Seq<char>
    decreases s.len(),
{
    if s.len() == 0 {
        Seq::empty()
    } else {
        escape_text(s.drop_last()) + escape_char(s.last())
    }
}

/// The JSON string holding `s`, as `serde_json` writes a `&str`: quotes
/// around the escaped text.
pub open spec fn json_string(s: Seq<char>) -> Seq<char> {
    seq!['"'] + escape_text(s) + seq!['"']
}

/// A JSON array of the given JSON values.
pub open spec fn json_array(values: Seq<Seq<char>>) -> Seq<char> {
    seq!['['] + join(values, seq![',']) + seq![']']
}

/// A JSON array of strings.
pub open spec fn json_string_array(items: Seq<Seq<char>>) -> Seq<char> {
    json_array(items.map_values(|s: Seq<char>| json_string(s)))
}

/// The JSON string holding `s`, written by `serde_json::to_string`, which
/// does not fail on a `&str`.
///
/// Trusted: the contract states the escaping that `serde_json`'s string
/// writer applies (its escape table and `write_char_escape`).
#[verifier::external_body]
pub(crate) fn json_string_of(s: &str) -> (r: String)
    ensures
        r@ == json_string(s@),
{
    serde_json::to_string(s).unwrap_or_default()
}

/// The JSON array of the given JSON values.
pub fn json_array_of(values: &Vec<String>) -> (r: String)
    ensures
        r@ == json_array(values.deep_view()),
{
    let mut r = String::from_str("[");
    let inner = join_strings(values, ",");
    push_str(&mut r, inner.as_str());
    push_str(&mut r, "]");
    proof {
        reveal_strlit("[");
        reveal_strlit(",");
        reveal_strlit("]");
        assert("["@ =~= seq!['[']);
        assert(","@ =~= seq![',']);
        assert("]"@ =~= seq![']']);
    }
    assert(r@ =~= json_array(values.deep_view()));
    r
}

/// The JSON array of strings.
pub fn json_string_array_of(items: &Vec<String>) -> (r: String)
    ensures
        r@ == json_string_array(items.deep_view()),
{
    let ghost iv = items.deep_view();
    let mut values: Vec<String> = Vec::new();
    let mut k: usize = 0;
    while k < items.len()
        invariant
            iv == items.deep_view(),
            k <= iv.len(),
            values.deep_view() == iv.take(k as int).map_values(|s: Seq<char>| json_string(s)),
        decreases iv.len() - k,
    {
        let j = json_string_of(items[k].as_str());
        let ghost prev = values.deep_view();
        values.push(j);
        assert(values.deep_view() =~= prev.push(json_string(iv[k as int])));
        assert(iv.take(k + 1).map_values(|s: Seq<char>| json_string(s)) =~= iv.take(
            k as int,
        ).map_values(|s: Seq<char>| json_string(s)).push(json_string(iv[k as int])));
        k = k + 1;
    }
    assert(iv.take(k as int) =~= iv);
    json_array_of(&values)
}


/// A JSON object member `"key":value`.
pub open spec fn json_field(key: Seq<char>, value: Seq<char>) -> Seq<char> {
    json_string(key) + seq![':'] + value
}

/// A JSON object of the given members.
pub open spec fn json_object(fields: Seq<Seq<char>>) -> Seq<char> {
    seq!['{'] + join(fields, seq![',']) + seq!['}']
}

/// The JSON object member `"key":value`.
pub fn json_field_of(key: &str, value: &str) -> (r: String)
    ensures
        r@ == json_field(key@, value@),
{
    let mut r = json_string_of(key);
    push_char(&mut r, ':');
    push_str(&mut r, value);
    r
}

/// The JSON object of the given members.
pub fn json_object_of(fields: &Vec<String>) -> (r: String)
    ensures
        r@ == json_object(fields.deep_view()),
{
    let mut r = String::new();
    push_char(&mut r, '{');
    let inner = join_strings(fields, ",");
    proof {
        reveal_strlit(",");
        assert(","@ =~= seq![',']);
    }
    push_str(&mut r, inner.as_str());
    push_char(&mut r, '}');
    assert(r@ =~= json_object(fields.deep_view()));
    r
}


/// A JSON array: `[]` for no values, `[v]` for one, and each further value
/// follows a comma before the closing bracket.
pub proof fn lemma_json_array_shape(values: Seq<Seq<char>>, v: Seq<char>)
    ensures
        json_array(Seq::empty()) == seq!['[', ']'],
        json_array(seq![v]) == seq!['['] + v + seq![']'],
        values.len() > 0 ==> json_array(values.push(v)) == json_array(values).drop_last() + seq![',']
            + v + seq![']'],
{
    crate::text::lemma_join_shape(values, seq![','], v);
    assert(json_array(Seq::empty()) =~= seq!['[', ']']);
    assert(json_array(seq![v]) =~= seq!['['] + v + seq![']']);
    if values.len() > 0 {
        let j = join(values, seq![',']);
        assert((seq!['['] + j + seq![']']).drop_last() =~= seq!['['] + j);
        assert(json_array(values.push(v)) =~= seq!['['] + j + seq![','] + v + seq![']']);
    }
}

/// The JSON text of a list of strings is a JSON array of the JSON strings:
/// `[]` for none, `["a"]` for one, and each further string follows a comma
/// before the closing bracket.
pub proof fn lemma_json_string_array_shape(items: Seq<Seq<char>>, s: Seq<char>)
    ensures
        json_string_array(Seq::empty()) == seq!['[', ']'],
        json_string_array(seq![s]) == seq!['['] + json_string(s) + seq![']'],
        items.len() > 0 ==> json_string_array(items.push(s)) == json_string_array(items).drop_last()
            + seq![','] + json_string(s) + seq![']'],
{
    let f = |t: Seq<char>| json_string(t);
    lemma_json_array_shape(items.map_values(f), json_string(s));
    assert(Seq::<Seq<char>>::empty().map_values(f) =~= Seq::<Seq<char>>::empty());
    assert(seq![s].map_values(f) =~= seq![json_string(s)]);
    assert(items.push(s).map_values(f) =~= items.map_values(f).push(json_string(s)));
}

} // verus!

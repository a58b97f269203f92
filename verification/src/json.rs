//! The JSON side of the mod <-> bot protocol.
//!
//! Reading a command: serde_json parses the text, and the library asks it for
//! one field at a time. What serde_json reads out of a given text is named
//! (`json_str_at`, `json_bool_at`, ...), so the command logic is stated and
//! proved over those names.
//!
//! Writing an event: serde_json turns each string into a JSON string literal
//! (quotes and escapes); the library lays the event object out around those
//! literals, keys in the sorted order serde_json's own map uses.
use crate::floats::{f64_is_infinite, f64_is_nan};
use crate::text::push_char;
use vstd::prelude::*;

verus! {

/// Whether serde_json accepts the text as one JSON value.
pub uninterp spec fn json_text_parses(raw: Seq<char>) -> bool;

/// The string serde_json finds under `key` of the top-level object of `raw`
/// (`None` when the text does not parse, is not an object, lacks the key, or
/// the value there is not a string).
pub uninterp spec fn json_str_at(raw: Seq<char>, key: Seq<char>) -> Option<Seq<char>>;

/// The boolean serde_json finds under `key` of the top-level object of `raw`.
pub uninterp spec fn json_bool_at(raw: Seq<char>, key: Seq<char>) -> Option<bool>;

/// The number under `key` of the top-level object of `raw`, when serde_json
/// can represent it as a `u64`.
pub uninterp spec fn json_u64_at(raw: Seq<char>, key: Seq<char>) -> Option<u64>;

/// The number under `key` of the top-level object of `raw`, as the bit
/// pattern of the `f64` serde_json gives for it.
pub uninterp spec fn json_f64_bits_at(raw: Seq<char>, key: Seq<char>) -> Option<u64>;

/// serde_json's JSON string literal for a text (surrounding quotes included).
pub uninterp spec fn json_string_literal(s: Seq<char>) -> Seq<char>;

/// An optional owned string, seen as optional text.
pub open spec fn opt_text(o: Option<String>) -> Option<Seq<char>> {
    match o {
        Some(s) => Some(s@),
        None => None,
    }
}

/// Whether `serde_json::from_str::<Value>` accepts `raw`.
#[verifier::external_body]
pub fn parses_as_json(raw: &str) -> (r: bool)
    ensures
        r == json_text_parses(raw@),
{
    serde_json::from_str::<serde_json::Value>(raw).is_ok()
}

/// `from_str::<Value>(raw)`, then `get(key)` and `as_str()`. Nothing is found
/// in a text serde_json rejects.
#[verifier::external_body]
pub fn json_str_field(raw: &str, key: &str) -> (r: Option<String>)
    ensures
        opt_text(r) == json_str_at(raw@, key@),
        !json_text_parses(raw@) ==> r is None,
{
    serde_json::from_str::<serde_json::Value>(raw).ok()?.get(key)?.as_str().map(String::from)
}

/// `from_str::<Value>(raw)`, then `get(key)` and `as_bool()`.
#[verifier::external_body]
pub fn json_bool_field(raw: &str, key: &str) -> (r: Option<bool>)
    ensures
        r == json_bool_at(raw@, key@),
        !json_text_parses(raw@) ==> r is None,
{
    serde_json::from_str::<serde_json::Value>(raw).ok()?.get(key)?.as_bool()
}

/// `from_str::<Value>(raw)`, then `get(key)` and `as_u64()`.
#[verifier::external_body]
pub fn json_u64_field(raw: &str, key: &str) -> (r: Option<u64>)
    ensures
        r == json_u64_at(raw@, key@),
        !json_text_parses(raw@) ==> r is None,
{
    serde_json::from_str::<serde_json::Value>(raw).ok()?.get(key)?.as_u64()
}

/// `from_str::<Value>(raw)`, then `get(key)` and `as_f64()`, as the value's bit
/// pattern. serde_json numbers are always finite (its `Number` refuses NaN and
/// the infinities), so the pattern is never NaN or infinite.
#[verifier::external_body]
pub fn json_f64_bits_field(raw: &str, key: &str) -> (r: Option<u64>)
    ensures
        r == json_f64_bits_at(raw@, key@),
        !json_text_parses(raw@) ==> r is None,
        r matches Some(b) ==> !f64_is_nan(b) && !f64_is_infinite(b),
{
    serde_json::from_str::<serde_json::Value>(raw).ok()?.get(key)?.as_f64().map(|x| x.to_bits())
}

/// `serde_json::to_string` of a string: its JSON string literal. Serialising a
/// `str` cannot fail.
#[verifier::external_body]
pub fn json_quote(s: &str) -> (r: String)
    ensures
        r@ == json_string_literal(s@),
{
    serde_json::to_string(s).unwrap_or_default()
}

/// `{"k1":v1,"k2":v2}` with both values strings.
pub open spec fn json_object2(k1: Seq<char>, v1: Seq<char>, k2: Seq<char>, v2: Seq<char>) -> Seq<
    char,
> {
    seq!['{'] + json_string_literal(k1) + seq![':'] + json_string_literal(v1) + seq![',']
        + json_string_literal(k2) + seq![':'] + json_string_literal(v2) + seq!['}']
}

/// `{"k1":v1,"k2":v2,"k3":v3}` with all values strings.
pub open spec fn json_object3(
    k1: Seq<char>,
    v1: Seq<char>,
    k2: Seq<char>,
    v2: Seq<char>,
    k3: Seq<char>,
    v3: Seq<char>,
) -> Seq<char> {
    seq!['{'] + json_string_literal(k1) + seq![':'] + json_string_literal(v1) + seq![',']
        + json_string_literal(k2) + seq![':'] + json_string_literal(v2) + seq![',']
        + json_string_literal(k3) + seq![':'] + json_string_literal(v3) + seq!['}']
}

/// The elements of a JSON array of strings, comma separated.
pub open spec fn json_string_items(items: Seq<Seq<char>>) -> Seq<char>
    decreases items.len(),
{
    if items.len() == 0 {
        Seq::empty()
    } else if items.len() == 1 {
        json_string_literal(items[0])
    } else {
        json_string_items(items.drop_last()) + seq![','] + json_string_literal(items.last())
    }
}

/// `{"k1":[s1,s2,...],"k2":v2}`.
pub open spec fn json_object_list_then_string(
    k1: Seq<char>,
    items: Seq<Seq<char>>,
    k2: Seq<char>,
    v2: Seq<char>,
) -> Seq<char> {
    seq!['{'] + json_string_literal(k1) + seq![':', '['] + json_string_items(items) + seq![
        ']',
        ',',
    ] + json_string_literal(k2) + seq![':'] + json_string_literal(v2) + seq!['}']
}

/// Appends `"key":value` (both as JSON string literals).
fn push_string_member(out: &mut String, key: &str, value: &str)
    ensures
        final(out)@ == old(out)@ + json_string_literal(key@) + seq![':'] + json_string_literal(
            value@,
        ),
{
    let k = json_quote(key);
    out.append(k.as_str());
    push_char(out, ':');
    let v = json_quote(value);
    out.append(v.as_str());
}

/// The object `{"k1":"v1","k2":"v2"}`.
pub fn object2(k1: &str, v1: &str, k2: &str, v2: &str) -> (r: String)
    ensures
        r@ == json_object2(k1@, v1@, k2@, v2@),
{
    let mut out = String::new();
    push_char(&mut out, '{');
    push_string_member(&mut out, k1, v1);
    push_char(&mut out, ',');
    push_string_member(&mut out, k2, v2);
    push_char(&mut out, '}');
    assert(out@ =~= json_object2(k1@, v1@, k2@, v2@));
    out
}

/// The object `{"k1":"v1","k2":"v2","k3":"v3"}`.
pub fn object3(k1: &str, v1: &str, k2: &str, v2: &str, k3: &str, v3: &str) -> (r: String)
    ensures
        r@ == json_object3(k1@, v1@, k2@, v2@, k3@, v3@),
{
    let mut out = String::new();
    push_char(&mut out, '{');
    push_string_member(&mut out, k1, v1);
    push_char(&mut out, ',');
    push_string_member(&mut out, k2, v2);
    push_char(&mut out, ',');
    push_string_member(&mut out, k3, v3);
    push_char(&mut out, '}');
    assert(out@ =~= json_object3(k1@, v1@, k2@, v2@, k3@, v3@));
    out
}

/// The object `{"k1":["s1","s2",...],"k2":"v2"}`.
pub fn object_list_then_string(k1: &str, items: &Vec<String>, k2: &str, v2: &str) -> (r: String)
    ensures
        r@ == json_object_list_then_string(k1@, items@.map_values(|s: String| s@), k2@, v2@),
{
    let ghost views = items@.map_values(|s: String| s@);
    let mut out = String::new();
    push_char(&mut out, '{');
    let k = json_quote(k1);
    out.append(k.as_str());
    push_char(&mut out, ':');
    push_char(&mut out, '[');
    let ghost prefix = out@;
    let mut i: usize = 0;
    while i < items.len()
        invariant
            i <= items.len(),
            views == items@.map_values(|s: String| s@),
            out@ == prefix + json_string_items(views.subrange(0, i as int)),
        decreases items.len() - i,
    {
        let ghost before = out@;
        if i > 0 {
            push_char(&mut out, ',');
        }
        let q = json_quote(items[i].as_str());
        out.append(q.as_str());
        proof {
            let sub = views.subrange(0, i + 1);
            assert(sub.drop_last() =~= views.subrange(0, i as int));
            assert(sub.last() == items[i as int]@);
            if i == 0 {
                assert(out@ =~= prefix + json_string_items(sub));
            } else {
                assert(out@ =~= prefix + json_string_items(sub));
            }
        }
        i = i + 1;
    }
    assert(views.subrange(0, items.len() as int) =~= views);
    push_char(&mut out, ']');
    push_char(&mut out, ',');
    push_string_member(&mut out, k2, v2);
    push_char(&mut out, '}');
    assert(out@ =~= json_object_list_then_string(k1@, views, k2@, v2@));
    out
}

} // verus!

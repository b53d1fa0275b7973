//! JSON objects of plain fields, built and written by `serde_json`: what a
//! value is written as, the order of an object's entries, and the text of
//! the whole object.
use vstd::prelude::*;
use serde_json::Value;
use crate::text::decimal;

verus! {

#[verifier::external_type_specification]
#[verifier::external_body]
pub struct ExJsonValue(Value);

#[verifier::external_type_specification]
#[verifier::external_body]
#[verifier::reject_recursive_types(K)]
#[verifier::reject_recursive_types(V)]
pub struct ExJsonMap<K, V>(serde_json::Map<K, V>);

/// A character `serde_json` writes inside a string as is: printable ASCII
/// other than a quote or a backslash.
pub open spec fn plain_json_char(c: char) -> bool {
    ' ' <= c && c <= '~' && c != '"' && c != '\\'
}

/// A text made of such characters only.
pub open spec fn plain_json_text(s: Seq<char>) -> bool {
    forall|i: int| 0 <= i < s.len() ==> plain_json_char(#[trigger] s[i])
}

/// Lexicographic order of texts by code point, which is the byte order of
/// their UTF-8 encodings and so the order of `String` keys.
pub open spec fn key_lt(a: Seq<char>, b: Seq<char>) -> bool
    decreases a.len(),
{
    if b.len() == 0 {
        false
    } else if a.len() == 0 {
        true
    } else if a[0] != b[0] {
        (a[0] as u32) < (b[0] as u32)
    } else {
        key_lt(a.drop_first(), b.drop_first())
    }
}

/// The order of keys is transitive.
pub proof fn lemma_key_lt_transitive(a: Seq<char>, b: Seq<char>, c: Seq<char>)
    requires
        key_lt(a, b),
        key_lt(b, c),
    ensures
        key_lt(a, c),
    decreases a.len(),
{
    if a.len() > 0 && b.len() > 0 && c.len() > 0 && a[0] == b[0] && b[0] == c[0] {
        lemma_key_lt_transitive(a.drop_first(), b.drop_first(), c.drop_first());
    }
}

/// An object's entries: each key with the text of its value.
pub type JsonEntries = Seq<(Seq<char>, Seq<char>)>;

/// Whether every key of `es` comes before `k`.
pub open spec fn keys_below(es: JsonEntries, k: Seq<char>) -> bool {
    forall|i: int| 0 <= i < es.len() ==> key_lt(#[trigger] es[i].0, k)
}

/// Whether every key of `es` is a plain text.
pub open spec fn keys_plain(es: JsonEntries) -> bool {
    forall|i: int| 0 <= i < es.len() ==> plain_json_text(#[trigger] es[i].0)
}

/// One entry as written: the quoted key, a colon, the value.
pub open spec fn entry_text(e: (Seq<char>, Seq<char>)) -> Seq<char> {
    "\""@ + e.0 + "\":"@ + e.1
}

/// The entries as written, separated by commas.
pub open spec fn entries_text(es: JsonEntries) -> Seq<char>
    decreases es.len(),
{
    if es.len() == 0 {
        Seq::empty()
    } else if es.len() == 1 {
        entry_text(es[0])
    } else {
        entries_text(es.drop_last()) + ","@ + entry_text(es.last())
    }
}

/// An object as written: its entries between braces, without whitespace.
pub open spec fn object_text(es: JsonEntries) -> Seq<char> {
    "{"@ + entries_text(es) + "}"@
}

/// The text `Value`'s `Display` of `serde_json` writes for `v`.
pub uninterp spec fn json_text(v: Value) -> Seq<char>;

/// The entries of a `serde_json` object map, in the order they are written.
pub uninterp spec fn json_entries(m: serde_json::Map<String, Value>) -> JsonEntries;

/// `Value::from(u64)` of `serde_json`: a number, written in decimal.
#[verifier::external_body]
pub(crate) fn json_number(n: u64) -> (v: Value)
    ensures
        json_text(v) == decimal(n as nat),
{
    Value::from(n)
}

/// `Value::Bool` of `serde_json`: written `true` or `false`.
#[verifier::external_body]
pub(crate) fn json_bool(b: bool) -> (v: Value)
    ensures
        json_text(v) == (if b {
            "true"@
        } else {
            "false"@
        }),
{
    Value::Bool(b)
}

/// `Value::String` of `serde_json`: a plain text is written between quotes
/// as it is.
#[verifier::external_body]
pub(crate) fn json_string(s: String) -> (v: Value)
    ensures
        plain_json_text(s@) ==> json_text(v) == "\""@ + s@ + "\""@,
{
    Value::String(s)
}

/// `serde_json::Map::new` of `serde_json`: no entries.
#[verifier::external_body]
pub(crate) fn json_map_new() -> (m: serde_json::Map<String, Value>)
    ensures
        json_entries(m) == Seq::<(Seq<char>, Seq<char>)>::empty(),
{
    serde_json::Map::new()
}

/// `serde_json::Map::insert` of `serde_json`: a key above every key present is written
/// last, whether the map keeps keys sorted or in insertion order.
#[verifier::external_body]
pub(crate) fn json_map_insert(m: &mut serde_json::Map<String, Value>, k: String, v: Value)
    ensures
        keys_below(json_entries(*old(m)), k@) ==> json_entries(*final(m)) == json_entries(
            *old(m),
        ).push((k@, json_text(v))),
{
    m.insert(k, v);
}

/// `Value::Object(m).to_string()` of `serde_json`: the object's entries in
/// the compact form, plain keys written as they are.
#[verifier::external_body]
pub(crate) fn json_object_string(m: serde_json::Map<String, Value>) -> (s: String)
    ensures
        keys_plain(json_entries(m)) ==> s@ == object_text(json_entries(m)),
{
    Value::Object(m).to_string()
}

} // verus!

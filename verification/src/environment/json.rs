//! JSON documents as text: taking them apart and quoting strings, by way
//! of `serde_json`.

use crate::db::query::{lemma_position_is, position};
use crate::text::str_eq;
use vstd::prelude::*;

verus! {

/// The elements of the JSON array that `text` holds, each as JSON text;
/// `None` where `text` is not a JSON array.
pub uninterp spec fn json_array_items_of(text: Seq<char>) -> Option<Seq<Seq<char>>>;

/// The members of the JSON object that `text` holds, each as its key and
/// its value as JSON text; `None` where `text` is not a JSON object.
pub uninterp spec fn json_object_entries_of(text: Seq<char>) -> Option<Seq<(Seq<char>, Seq<char>)>>;

/// The string that `text` holds; `None` where `text` is not a JSON string.
pub uninterp spec fn json_string_of(text: Seq<char>) -> Option<Seq<char>>;

/// The JSON string literal for `s`.
pub uninterp spec fn json_quote_of(s: Seq<char>) -> Seq<char>;

/// The document `text` as `serde_json` writes it in compact form; `None`
/// where `text` is not a JSON document.
pub uninterp spec fn json_parsed_of(text: Seq<char>) -> Option<Seq<char>>;

/// The document `text` in compact form; `{}` where `text` is not a JSON
/// document.
pub open spec fn json_normal_of(text: Seq<char>) -> Seq<char> {
    match json_parsed_of(text) {
        Some(t) => t,
        None => "{}"@,
    }
}

/// Parses `text` (`serde_json::from_str`) and, where it is an array, hands
/// out its elements, each written back as compact JSON (`Value`'s
/// `to_string`). What comes back depends on `text` alone.
#[verifier::external_body]
pub(crate) fn json_array_items(text: &str) -> (r: Option<Vec<String>>)
    ensures
        r.deep_view() == json_array_items_of(text@),
{
    match serde_json::from_str::<serde_json::Value>(text) {
        Ok(serde_json::Value::Array(items)) => Some(items.iter().map(|v| v.to_string()).collect()),
        _ => None,
    }
}

/// Parses `text` (`serde_json::from_str`) and, where it is an object, hands
/// out its members in the order in which `serde_json` walks them, each
/// value written back as compact JSON. What comes back depends on `text`
/// alone.
#[verifier::external_body]
pub(crate) fn json_object_entries(text: &str) -> (r: Option<Vec<(String, String)>>)
    ensures
        r.deep_view() == json_object_entries_of(text@),
{
    match serde_json::from_str::<serde_json::Value>(text) {
        Ok(serde_json::Value::Object(map)) => Some(
            map.iter().map(|(k, v)| (k.clone(), v.to_string())).collect(),
        ),
        _ => None,
    }
}

/// Parses `text` (`serde_json::from_str`) and, where it is a string, hands
/// out its content. What comes back depends on `text` alone.
#[verifier::external_body]
pub(crate) fn json_as_string(text: &str) -> (r: Option<String>)
    ensures
        r.deep_view() == json_string_of(text@),
{
    match serde_json::from_str::<serde_json::Value>(text) {
        Ok(serde_json::Value::String(s)) => Some(s),
        _ => None,
    }
}

/// Writes `s` as a JSON string literal (`Value::String`, written with
/// `to_string`). What comes back depends on `s` alone.
#[verifier::external_body]
pub(crate) fn json_quote(s: &str) -> (r: String)
    ensures
        r@ == json_quote_of(s@),
{
    serde_json::Value::String(s.to_string()).to_string()
}

/// Parses `text` (`serde_json::from_str`) and writes it back as compact
/// JSON (`Value`'s `to_string`); `None` where it does not parse. What
/// comes back depends on `text` alone.
#[verifier::external_body]
pub(crate) fn json_parse(text: &str) -> (r: Option<String>)
    ensures
        r.deep_view() == json_parsed_of(text@),
{
    match serde_json::from_str::<serde_json::Value>(text) {
        Ok(v) => Some(v.to_string()),
        Err(_) => None,
    }
}

/// Builds [`json_normal_of`].
pub fn json_normalize(text: &str) -> (r: String)
    ensures
        r@ == json_normal_of(text@),
{
    match json_parse(text) {
        Some(t) => t,
        None => String::from_str("{}"),
    }
}

/// The keys of a list of members.
pub open spec fn keys_of(entries: Seq<(Seq<char>, Seq<char>)>) -> Seq<Seq<char>> {
    Seq::new(entries.len(), |i: int| entries[i].0)
}

/// The value text of the first member `key` of a list of members.
pub open spec fn member(entries: Seq<(Seq<char>, Seq<char>)>, key: Seq<char>) -> Option<Seq<char>> {
    match position(keys_of(entries), key) {
        Some(i) => Some(entries[i].1),
        None => None,
    }
}

/// The string that the member `key` of a list of members holds.
pub open spec fn string_member(entries: Seq<(Seq<char>, Seq<char>)>, key: Seq<char>) -> Option<Seq<char>> {
    match member(entries, key) {
        Some(text) => json_string_of(text),
        None => None,
    }
}

/// The string that the field `field` of the JSON object `text` holds;
/// `None` where `text` is no object, has no such field, or the field holds
/// no string.
pub open spec fn string_field(text: Seq<char>, field: Seq<char>) -> Option<Seq<char>> {
    match json_object_entries_of(text) {
        Some(entries) => string_member(entries, field),
        None => None,
    }
}

/// Finds [`string_member`].
pub fn get_string_member(entries: &Vec<(String, String)>, key: &str) -> (r: Option<String>)
    ensures
        r.deep_view() == string_member(entries.deep_view(), key@),
{
    let ghost keys = keys_of(entries.deep_view());
    let mut i: usize = 0;
    while i < entries.len()
        invariant
            i <= entries.len(),
            keys == keys_of(entries.deep_view()),
            forall|j: int| 0 <= j < i ==> keys[j] != key@,
        decreases entries.len() - i,
    {
        assert(entries.deep_view()[i as int] == entries@[i as int].deep_view());
        if str_eq(entries[i].0.as_str(), key) {
            proof {
                lemma_position_is(keys, key@, i as int);
            }
            return json_as_string(entries[i].1.as_str());
        }
        i += 1;
    }
    None
}

/// Finds [`string_field`].
pub fn get_string_field(text: &str, field: &str) -> (r: Option<String>)
    ensures
        r.deep_view() == string_field(text@, field@),
{
    match json_object_entries(text) {
        Some(entries) => get_string_member(&entries, field),
        None => None,
    }
}

/// The text of a JSON object with the given members, in the order given:
/// each key quoted, each value as it stands.
pub open spec fn object_text(members: Seq<(Seq<char>, Seq<char>)>) -> Seq<char> {
    "{"@ + members_text(members, members.len() as int) + "}"@
}

/// The first `n` members, separated by commas.
pub open spec fn members_text(members: Seq<(Seq<char>, Seq<char>)>, n: int) -> Seq<char>
    decreases n,
{
    if n <= 0 {
        Seq::empty()
    } else {
        let sep = if n == 1 {
            Seq::<char>::empty()
        } else {
            ","@
        };
        members_text(members, n - 1) + sep + json_quote_of(members[n - 1].0) + ":"@ + members[n - 1].1
    }
}

/// Writes a JSON object: the members in the order given, each key quoted,
/// each value taken as JSON text as it stands.
pub fn write_object(members: &Vec<(String, String)>) -> (r: String)
    ensures
        r@ == object_text(members.deep_view()),
{
    let mut out = String::from_str("{");
    let mut i: usize = 0;
    while i < members.len()
        invariant
            i <= members.len(),
            out@ == "{"@ + members_text(members.deep_view(), i as int),
        decreases members.len() - i,
    {
        assert(members.deep_view()[i as int] == members@[i as int].deep_view());
        let ghost before = out@;
        if i > 0 {
            out.append(",");
        }
        let key = json_quote(members[i].0.as_str());
        out.append(key.as_str());
        out.append(":");
        out.append(members[i].1.as_str());
        proof {
            let sep = if i == 0 {
                Seq::<char>::empty()
            } else {
                ","@
            };
            assert(out@ =~= before + sep + json_quote_of(members.deep_view()[i as int].0) + ":"@
                + members.deep_view()[i as int].1);
            assert(out@ =~= "{"@ + members_text(members.deep_view(), i as int + 1));
        }
        i += 1;
    }
    out.append("}");
    out
}

/// The text of a JSON array of strings.
pub open spec fn string_array_text(items: Seq<Seq<char>>) -> Seq<char> {
    "["@ + items_text(items, items.len() as int) + "]"@
}

/// The first `n` strings, quoted and separated by commas.
pub open spec fn items_text(items: Seq<Seq<char>>, n: int) -> Seq<char>
    decreases n,
{
    if n <= 0 {
        Seq::empty()
    } else {
        let sep = if n == 1 {
            Seq::<char>::empty()
        } else {
            ","@
        };
        items_text(items, n - 1) + sep + json_quote_of(items[n - 1])
    }
}

/// Writes a JSON array of strings.
pub fn write_string_array(items: &Vec<String>) -> (r: String)
    ensures
        r@ == string_array_text(items.deep_view()),
{
    let mut out = String::from_str("[");
    let mut i: usize = 0;
    while i < items.len()
        invariant
            i <= items.len(),
            out@ == "["@ + items_text(items.deep_view(), i as int),
        decreases items.len() - i,
    {
        let ghost before = out@;
        if i > 0 {
            out.append(",");
        }
        let item = json_quote(items[i].as_str());
        out.append(item.as_str());
        proof {
            let sep = if i == 0 {
                Seq::<char>::empty()
            } else {
                ","@
            };
            assert(out@ =~= before + sep + json_quote_of(items.deep_view()[i as int]));
            assert(out@ =~= "["@ + items_text(items.deep_view(), i as int + 1));
        }
        i += 1;
    }
    out.append("]");
    out
}

} // verus!

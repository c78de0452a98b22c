//! JSON values as far as the library looks into them: an object is the list
//! of its members, each member's value held as JSON text; any other value is
//! its JSON text. Reading and writing JSON text is the work of `serde_json`,
//! `serde_urlencoded` and `serde_qs`.

use vstd::prelude::*;
use crate::entries::{clone_entries, pairs_view, Entries};

verus! {

/// A JSON value.
#[derive(Clone, Debug, PartialEq, Eq)]
pub enum JsonValue {
    /// An object: its members, each key with the JSON text of its value.
    Object(Vec<(String, String)>),
    /// A value that is no object, as JSON text.
    Other(String),
}

/// The mathematical value of a [`JsonValue`].
pub enum JsonModel {
    Object(Entries),
    Other(Seq<char>),
}

impl View for JsonValue {
    type V = JsonModel;

    open spec fn view(&self) -> JsonModel {
        match self {
            JsonValue::Object(members) => JsonModel::Object(pairs_view(members@)),
            JsonValue::Other(text) => JsonModel::Other(text@),
        }
    }
}

/// The mathematical value of a JSON value that may be absent.
pub open spec fn json_view(v: Option<JsonValue>) -> Option<JsonModel> {
    match v {
        Some(v) => Some(v@),
        None => None,
    }
}

/// The mathematical value of a text that may be absent.
pub open spec fn text_view(s: Option<String>) -> Option<Seq<char>> {
    match s {
        Some(s) => Some(s@),
        None => None,
    }
}

/// The value that `text` is the JSON text of, as `serde_json` reads it; none
/// where `text` is no JSON text. The members of an object come in the order
/// of `serde_json`'s map, each with its value in compact form; a value that
/// is no object comes in compact form.
pub uninterp spec fn json_parsed(text: Seq<char>) -> Option<JsonModel>;

/// Whether the text of each of `members` is JSON text.
pub open spec fn all_json(members: Entries) -> bool {
    forall|i: int| 0 <= i < members.len() ==> json_parsed(#[trigger] members[i].1) is Some
}

/// The compact JSON text of the object with the members `members`, as
/// `serde_json` writes it, where the text of each member is JSON text.
pub uninterp spec fn object_written(members: Entries) -> Seq<char>;

/// The compact JSON text of the object with the members `members`; none
/// where the text of a member is no JSON text.
pub open spec fn json_object_text(members: Entries) -> Option<Seq<char>> {
    if all_json(members) {
        Some(object_written(members))
    } else {
        None
    }
}

/// The indented JSON text of the value that `text` is the JSON text of, as
/// `serde_json` writes it.
pub uninterp spec fn indented(text: Seq<char>) -> Seq<char>;

/// The indented JSON text of the value that `text` is the JSON text of; none
/// where `text` is no JSON text.
pub open spec fn json_pretty(text: Seq<char>) -> Option<Seq<char>> {
    if json_parsed(text) is Some {
        Some(indented(text))
    } else {
        None
    }
}

/// The value that `text` is the JSON text of, in the form
/// `application/x-www-form-urlencoded` as `serde_urlencoded` writes it; none
/// where `text` is no JSON text or the value has no such form.
pub uninterp spec fn form_urlencoded(text: Seq<char>) -> Option<Seq<char>>;

/// The value that `text` is the JSON text of, as a query string as `serde_qs`
/// writes it; none where `text` is no JSON text or the value has no such
/// form.
pub uninterp spec fn query_string(text: Seq<char>) -> Option<Seq<char>>;

/// `serde_json::from_str` for a `serde_json::Value`, then `Value::to_string`
/// on each member of an object, or on a value that is no object. The result
/// depends on the text alone.
#[verifier::external_body]
pub(crate) fn read_json(text: &str) -> (r: Option<JsonValue>)
    ensures
        json_view(r) == json_parsed(text@),
{
    match serde_json::from_str::<serde_json::Value>(text) {
        Ok(serde_json::Value::Object(m)) => {
            Some(JsonValue::Object(m.iter().map(|(k, v)| (k.clone(), v.to_string())).collect()))
        },
        Ok(v) => Some(JsonValue::Other(v.to_string())),
        Err(_) => None,
    }
}

/// `serde_json::to_string` on a `serde_json::Map` that holds each key of
/// `members` with what `serde_json::from_str` reads from the member's text.
/// There is a result where every member's text is read, since a map of
/// values is always written; it depends on the members alone.
#[verifier::external_body]
fn write_object(members: &Vec<(String, String)>) -> (r: Option<String>)
    ensures
        r is Some <==> all_json(pairs_view(members@)),
        r is Some ==> r->0@ == object_written(pairs_view(members@)),
{
    let mut map = serde_json::Map::new();
    for (k, v) in members.iter() {
        map.insert(k.clone(), serde_json::from_str::<serde_json::Value>(v).ok()?);
    }
    serde_json::to_string(&map).ok()
}

/// `serde_json::to_string_pretty` on what `serde_json::from_str` reads from
/// `text`. There is a result where the text is read, since a value is always
/// written; it depends on the text alone.
#[verifier::external_body]
fn write_indented(text: &str) -> (r: Option<String>)
    ensures
        r is Some <==> json_parsed(text@) is Some,
        r is Some ==> r->0@ == indented(text@),
{
    let value = serde_json::from_str::<serde_json::Value>(text).ok()?;
    serde_json::to_string_pretty(&value).ok()
}

/// `serde_urlencoded::to_string` on what `serde_json::from_str` reads from
/// `text`. The result depends on the text alone.
#[verifier::external_body]
pub(crate) fn write_urlencoded(text: &str) -> (r: Option<String>)
    ensures
        text_view(r) == form_urlencoded(text@),
{
    let value = serde_json::from_str::<serde_json::Value>(text).ok()?;
    serde_urlencoded::to_string(&value).ok()
}

/// `serde_qs::to_string` on what `serde_json::from_str` reads from `text`.
/// The result depends on the text alone.
#[verifier::external_body]
pub(crate) fn write_query(text: &str) -> (r: Option<String>)
    ensures
        text_view(r) == query_string(text@),
{
    let value = serde_json::from_str::<serde_json::Value>(text).ok()?;
    serde_qs::to_string(&value).ok()
}

/// The compact JSON text of a value: that of the object with the given
/// members, or the text that a value that is no object holds.
pub open spec fn compact_text(v: JsonModel) -> Option<Seq<char>> {
    match v {
        JsonModel::Object(members) => json_object_text(members),
        JsonModel::Other(text) => Some(text),
    }
}

/// The compact JSON text of what `text` is the JSON text of: the text under
/// which an override's value becomes a member.
pub open spec fn member_text(text: Seq<char>) -> Option<Seq<char>> {
    match json_parsed(text) {
        Some(v) => compact_text(v),
        None => None,
    }
}

impl JsonValue {
    /// The object without members.
    pub fn empty_object() -> (r: JsonValue)
        ensures
            r@ == JsonModel::Object(Seq::empty()),
    {
        let r = JsonValue::Object(Vec::new());
        assert(r@->Object_0 =~= Seq::empty());
        r
    }

    /// Whether the value is an object.
    pub fn is_object(&self) -> (r: bool)
        ensures
            r == (self@ is Object),
    {
        match self {
            JsonValue::Object(_) => true,
            JsonValue::Other(_) => false,
        }
    }

    /// The compact JSON text of the value.
    pub fn to_text(&self) -> (r: Option<String>)
        ensures
            text_view(r) == compact_text(self@),
    {
        match self {
            JsonValue::Object(members) => write_object(members),
            JsonValue::Other(text) => Some(text.clone()),
        }
    }
}

/// The indented JSON text of the value that `text` is the JSON text of.
pub(crate) fn write_pretty(text: &str) -> (r: Option<String>)
    ensures
        text_view(r) == json_pretty(text@),
{
    write_indented(text)
}

/// The compact JSON text of what `text` is the JSON text of.
pub fn to_member_text(text: &str) -> (r: Option<String>)
    ensures
        text_view(r) == member_text(text@),
{
    match read_json(text) {
        Some(v) => v.to_text(),
        None => None,
    }
}

} // verus!

//! A mathematical model of JSON documents and the calls into `serde_json`
//! through which the library reads and builds them.

use vstd::prelude::*;

verus! {

/// What a JSON number holds: an integer, or the IEEE-754 bit pattern of a
/// number that was written with a fraction or an exponent.
pub enum JsonNumber {
    Integer(int),
    Float(u64),
}

/// The content of a JSON document.
pub enum JsonView {
    Null,
    Bool(bool),
    Number(JsonNumber),
    Text(Seq<char>),
    List(Seq<JsonView>),
    Object(Map<Seq<char>, JsonView>),
}

impl JsonView {
    /// The member stored under `key`, if this is an object that has one.
    pub open spec fn get(self, key: Seq<char>) -> Option<JsonView> {
        match self {
            JsonView::Object(members) => if members.contains_key(key) {
                Some(members[key])
            } else {
                None
            },
            _ => None,
        }
    }

    /// The member under `key`, where an explicit `null` counts as absent.
    pub open spec fn get_present(self, key: Seq<char>) -> Option<JsonView> {
        match self.get(key) {
            Some(JsonView::Null) => None,
            other => other,
        }
    }

    /// This object with `value` stored under `key`; anything but an object is
    /// left as it is.
    pub open spec fn with(self, key: Seq<char>, value: JsonView) -> JsonView {
        match self {
            JsonView::Object(members) => JsonView::Object(members.insert(key, value)),
            other => other,
        }
    }

    /// This object with `value` stored under `key` if there is a value.
    pub open spec fn with_opt(self, key: Seq<char>, value: Option<JsonView>) -> JsonView {
        match value {
            Some(v) => self.with(key, v),
            None => self,
        }
    }

    /// The object without members.
    pub open spec fn empty_object() -> JsonView {
        JsonView::Object(Map::empty())
    }
}

/// `serde_json::Value`, of which the library knows only what the functions
/// below state.
#[verifier::external_type_specification]
#[verifier::external_body]
pub struct ExValue(serde_json::Value);

/// The content of a `serde_json::Value`: `Null`, `Bool` and `String` stand
/// for themselves, a `Number` for its integer where it holds one and for the
/// bits of its `f64` where it does not, an `Array` for its elements in their
/// order, and an `Object` for its members by their keys.
pub uninterp spec fn json_view(v: serde_json::Value) -> JsonView;

/// The document that `serde_json::from_str` reads from a text, or `None`
/// where it rejects the text.
pub uninterp spec fn parsed_json(text: Seq<char>) -> Option<JsonView>;

/// The message with which `serde_json::from_str` rejects a text.
pub uninterp spec fn parse_failure(text: Seq<char>) -> Seq<char>;

/// The compact text that `serde_json` prints for a document.
pub uninterp spec fn json_text(j: JsonView) -> Seq<char>;

/// The contents of several values, in their order.
pub open spec fn json_views(items: Seq<serde_json::Value>) -> Seq<JsonView> {
    items.map_values(|v: serde_json::Value| json_view(v))
}

/// `serde_json::from_str` at the type `Value`: the parsed document, or the
/// text of the parser's error where it rejects the text. Both depend on the
/// text alone.
#[verifier::external_body]
pub(crate) fn parse_json(text: &str) -> (r: Result<serde_json::Value, String>)
    ensures
        match r {
            Ok(v) => parsed_json(text@) == Some(json_view(v)),
            Err(message) => parsed_json(text@) is None && message@ == parse_failure(text@),
        },
{
    match serde_json::from_str::<serde_json::Value>(text) {
        Ok(v) => Ok(v),
        Err(e) => Err(e.to_string()),
    }
}

/// `Value::get` with a string index: a copy of the member under `key`, which
/// exists only in an object that holds the key.
#[verifier::external_body]
pub(crate) fn member(v: &serde_json::Value, key: &str) -> (r: Option<serde_json::Value>)
    ensures
        match r {
            Some(x) => json_view(*v).get(key@) == Some(json_view(x)),
            None => json_view(*v).get(key@) is None,
        },
{
    v.get(key).cloned()
}

/// `Value::as_str`: the text of a JSON string, `None` for every other kind.
#[verifier::external_body]
pub(crate) fn as_text(v: &serde_json::Value) -> (r: Option<String>)
    ensures
        match r {
            Some(s) => json_view(*v) == JsonView::Text(s@),
            None => !(json_view(*v) is Text),
        },
{
    match v.as_str() {
        Some(s) => Some(s.to_owned()),
        None => None,
    }
}

/// `Value::as_bool`: the value of a JSON boolean, `None` for every other kind.
#[verifier::external_body]
pub(crate) fn as_bool(v: &serde_json::Value) -> (r: Option<bool>)
    ensures
        match r {
            Some(b) => json_view(*v) == JsonView::Bool(b),
            None => !(json_view(*v) is Bool),
        },
{
    v.as_bool()
}

/// `Value::is_null`.
#[verifier::external_body]
pub(crate) fn is_null(v: &serde_json::Value) -> (r: bool)
    ensures
        r == (json_view(*v) is Null),
{
    v.is_null()
}

/// `Value::as_array`: a copy of the elements of a JSON array in their order,
/// `None` for every other kind.
#[verifier::external_body]
pub(crate) fn as_list(v: &serde_json::Value) -> (r: Option<Vec<serde_json::Value>>)
    ensures
        match r {
            Some(items) => json_view(*v) == JsonView::List(json_views(items@)),
            None => !(json_view(*v) is List),
        },
{
    v.as_array().cloned()
}

/// The member under `key` unless it is absent or `null`.
pub fn present_member(v: &serde_json::Value, key: &str) -> (r: Option<serde_json::Value>)
    ensures
        match r {
            Some(x) => json_view(*v).get_present(key@) == Some(json_view(x)),
            None => json_view(*v).get_present(key@) is None,
        },
{
    match member(v, key) {
        None => None,
        Some(x) => if is_null(&x) {
            None
        } else {
            Some(x)
        },
    }
}

/// `Value::String` on a copy of the text.
#[verifier::external_body]
pub(crate) fn text_value(s: &str) -> (r: serde_json::Value)
    ensures
        json_view(r) == JsonView::Text(s@),
{
    serde_json::Value::String(s.to_owned())
}

/// `Value::Bool`.
#[verifier::external_body]
pub(crate) fn bool_value(b: bool) -> (r: serde_json::Value)
    ensures
        json_view(r) == JsonView::Bool(b),
{
    serde_json::Value::Bool(b)
}

/// `Value::from` on an `i32`: the JSON number that holds this integer.
#[verifier::external_body]
pub(crate) fn int_value(i: i32) -> (r: serde_json::Value)
    ensures
        json_view(r) == JsonView::Number(JsonNumber::Integer(i as int)),
{
    serde_json::Value::from(i)
}

/// `Value::Array`: the JSON array of the given elements in their order.
#[verifier::external_body]
pub(crate) fn list_value(items: Vec<serde_json::Value>) -> (r: serde_json::Value)
    ensures
        json_view(r) == JsonView::List(json_views(items@)),
{
    serde_json::Value::Array(items)
}

/// `Value::Object` on `Map::new()`: the JSON object without members.
#[verifier::external_body]
pub(crate) fn empty_object() -> (r: serde_json::Value)
    ensures
        json_view(r) == JsonView::empty_object(),
{
    serde_json::Value::Object(serde_json::Map::new())
}

/// `Map::insert` on the members of an object: `value` is stored under `key`,
/// in place of an earlier member of that key; a value that is no object is
/// handed back unchanged.
#[verifier::external_body]
pub(crate) fn with_member(object: serde_json::Value, key: &str, value: serde_json::Value) -> (r:
    serde_json::Value)
    ensures
        json_view(r) == json_view(object).with(key@, json_view(value)),
{
    let mut object = object;
    if let serde_json::Value::Object(members) = &mut object {
        members.insert(key.to_owned(), value);
    }
    object
}

/// `Value`'s `to_string`: the compact JSON text of the document.
#[verifier::external_body]
pub(crate) fn to_text(v: &serde_json::Value) -> (r: String)
    ensures
        r@ == json_text(json_view(*v)),
{
    v.to_string()
}

/// `Value`'s `clone`: a document of the same content.
#[verifier::external_body]
pub(crate) fn copy_value(v: &serde_json::Value) -> (r: serde_json::Value)
    ensures
        json_view(r) == json_view(*v),
{
    v.clone()
}

/// `Value::as_i64`: the value of a JSON number that is an integer in the
/// range of `i64`, `None` for everything else.
#[verifier::external_body]
pub(crate) fn as_i64(v: &serde_json::Value) -> (r: Option<i64>)
    ensures
        match r {
            Some(i) => json_view(*v) == JsonView::Number(JsonNumber::Integer(i as int)),
            None => !(json_view(*v) matches JsonView::Number(JsonNumber::Integer(n))
                && i64::MIN <= n <= i64::MAX),
        },
{
    v.as_i64()
}

/// The content of a value that may be absent.
pub open spec fn opt_json(v: Option<serde_json::Value>) -> Option<JsonView> {
    match v {
        Some(x) => Some(json_view(x)),
        None => None,
    }
}

} // verus!

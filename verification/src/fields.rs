//! Reading and writing the members of a JSON object one by one.
//!
//! A required member that is absent is a `MissingField` error that names it;
//! a member whose value has the wrong kind is a `Serde` error that names it.
//! An optional member may be absent or `null`.

use vstd::prelude::*;
use crate::error::{YooKassaError, YooKassaErrorView};
use crate::json::{
    as_bool, as_i64, as_text, bool_value, copy_value, int_value, json_view, member, opt_json,
    present_member, text_value, with_member, JsonNumber, JsonView,
};

verus! {

pub open spec fn opt_view<T: View>(o: Option<T>) -> Option<T::V> {
    match o {
        Some(t) => Some(t@),
        None => None,
    }
}

pub open spec fn seq_view<T: View>(s: Seq<T>) -> Seq<T::V> {
    s.map_values(|t: T| t@)
}

pub open spec fn opt_seq_view<T: View>(o: Option<Vec<T>>) -> Option<Seq<T::V>> {
    match o {
        Some(v) => Some(seq_view(v@)),
        None => None,
    }
}

/// The view of what a decoder returned.
pub open spec fn decoded<T: View>(r: Result<T, YooKassaError>) -> Result<T::V, YooKassaErrorView> {
    match r {
        Ok(t) => Ok(t@),
        Err(e) => Err(e@),
    }
}

pub open spec fn decoded_opt<T: View>(r: Result<Option<T>, YooKassaError>) -> Result<
    Option<T::V>,
    YooKassaErrorView,
> {
    match r {
        Ok(t) => Ok(opt_view(t)),
        Err(e) => Err(e@),
    }
}

pub open spec fn decoded_list<T: View>(r: Result<Vec<T>, YooKassaError>) -> Result<
    Seq<T::V>,
    YooKassaErrorView,
> {
    match r {
        Ok(t) => Ok(seq_view(t@)),
        Err(e) => Err(e@),
    }
}

pub open spec fn decoded_opt_list<T: View>(r: Result<Option<Vec<T>>, YooKassaError>) -> Result<
    Option<Seq<T::V>>,
    YooKassaErrorView,
> {
    match r {
        Ok(t) => Ok(opt_seq_view(t)),
        Err(e) => Err(e@),
    }
}

pub open spec fn text_at(j: JsonView, key: Seq<char>) -> Result<Seq<char>, YooKassaErrorView> {
    match j.get(key) {
        None => Err(YooKassaErrorView::MissingField(key)),
        Some(JsonView::Text(s)) => Ok(s),
        Some(_) => Err(YooKassaErrorView::Serde(key)),
    }
}

pub open spec fn opt_text_at(j: JsonView, key: Seq<char>) -> Result<
    Option<Seq<char>>,
    YooKassaErrorView,
> {
    match j.get_present(key) {
        None => Ok(None),
        Some(JsonView::Text(s)) => Ok(Some(s)),
        Some(_) => Err(YooKassaErrorView::Serde(key)),
    }
}

pub open spec fn bool_at(j: JsonView, key: Seq<char>) -> Result<bool, YooKassaErrorView> {
    match j.get(key) {
        None => Err(YooKassaErrorView::MissingField(key)),
        Some(JsonView::Bool(b)) => Ok(b),
        Some(_) => Err(YooKassaErrorView::Serde(key)),
    }
}

pub open spec fn opt_bool_at(j: JsonView, key: Seq<char>) -> Result<Option<bool>, YooKassaErrorView> {
    match j.get_present(key) {
        None => Ok(None),
        Some(JsonView::Bool(b)) => Ok(Some(b)),
        Some(_) => Err(YooKassaErrorView::Serde(key)),
    }
}

/// The `i32` that a document holds: an integer number within the type's range.
pub open spec fn int_of(j: JsonView) -> Option<i32> {
    match j {
        JsonView::Number(JsonNumber::Integer(n)) => if i32::MIN <= n <= i32::MAX {
            Some(n as i32)
        } else {
            None
        },
        _ => None,
    }
}

pub open spec fn int_at(j: JsonView, key: Seq<char>) -> Result<i32, YooKassaErrorView> {
    match j.get(key) {
        None => Err(YooKassaErrorView::MissingField(key)),
        Some(x) => match int_of(x) {
            Some(i) => Ok(i),
            None => Err(YooKassaErrorView::Serde(key)),
        },
    }
}

pub open spec fn opt_int_at(j: JsonView, key: Seq<char>) -> Result<Option<i32>, YooKassaErrorView> {
    match j.get_present(key) {
        None => Ok(None),
        Some(x) => match int_of(x) {
            Some(i) => Ok(Some(i)),
            None => Err(YooKassaErrorView::Serde(key)),
        },
    }
}

pub open spec fn text_json(o: Option<Seq<char>>) -> Option<JsonView> {
    match o {
        Some(s) => Some(JsonView::Text(s)),
        None => None,
    }
}

pub open spec fn bool_json(o: Option<bool>) -> Option<JsonView> {
    match o {
        Some(b) => Some(JsonView::Bool(b)),
        None => None,
    }
}

pub open spec fn int_json(i: i32) -> JsonView {
    JsonView::Number(JsonNumber::Integer(i as int))
}

pub open spec fn opt_int_json(o: Option<i32>) -> Option<JsonView> {
    match o {
        Some(i) => Some(int_json(i)),
        None => None,
    }
}

pub fn missing(key: &str) -> (e: YooKassaError)
    ensures
        e@ == YooKassaErrorView::MissingField(key@),
{
    YooKassaError::MissingField(key.to_owned())
}

pub fn invalid(key: &str) -> (e: YooKassaError)
    ensures
        e@ == YooKassaErrorView::Serde(key@),
{
    YooKassaError::Serde(key.to_owned())
}

pub fn get_text(v: &serde_json::Value, key: &str) -> (r: Result<String, YooKassaError>)
    ensures
        decoded(r) == text_at(json_view(*v), key@),
{
    match member(v, key) {
        None => Err(missing(key)),
        Some(x) => match as_text(&x) {
            Some(s) => Ok(s),
            None => Err(invalid(key)),
        },
    }
}

pub fn get_opt_text(v: &serde_json::Value, key: &str) -> (r: Result<Option<String>, YooKassaError>)
    ensures
        decoded_opt(r) == opt_text_at(json_view(*v), key@),
{
    match present_member(v, key) {
        None => Ok(None),
        Some(x) => match as_text(&x) {
            Some(s) => Ok(Some(s)),
            None => Err(invalid(key)),
        },
    }
}

pub fn get_bool(v: &serde_json::Value, key: &str) -> (r: Result<bool, YooKassaError>)
    ensures
        decoded(r) == bool_at(json_view(*v), key@),
{
    match member(v, key) {
        None => Err(missing(key)),
        Some(x) => match as_bool(&x) {
            Some(b) => Ok(b),
            None => Err(invalid(key)),
        },
    }
}

pub fn get_opt_bool(v: &serde_json::Value, key: &str) -> (r: Result<Option<bool>, YooKassaError>)
    ensures
        match r {
            Ok(b) => opt_bool_at(json_view(*v), key@) == Ok::<_, YooKassaErrorView>(b),
            Err(e) => opt_bool_at(json_view(*v), key@) == Err::<Option<bool>, _>(e@),
        },
{
    match present_member(v, key) {
        None => Ok(None),
        Some(x) => match as_bool(&x) {
            Some(b) => Ok(Some(b)),
            None => Err(invalid(key)),
        },
    }
}

/// The `i32` that a value holds, if it holds one.
pub fn value_int(v: &serde_json::Value) -> (r: Option<i32>)
    ensures
        r == int_of(json_view(*v)),
{
    match as_i64(v) {
        Some(i) => if -2147483648 <= i && i <= 2147483647 {
            Some(i as i32)
        } else {
            None
        },
        None => None,
    }
}

pub fn get_int(v: &serde_json::Value, key: &str) -> (r: Result<i32, YooKassaError>)
    ensures
        decoded(r) == int_at(json_view(*v), key@),
{
    match member(v, key) {
        None => Err(missing(key)),
        Some(x) => match value_int(&x) {
            Some(i) => Ok(i),
            None => Err(invalid(key)),
        },
    }
}

pub fn get_opt_int(v: &serde_json::Value, key: &str) -> (r: Result<Option<i32>, YooKassaError>)
    ensures
        match r {
            Ok(i) => opt_int_at(json_view(*v), key@) == Ok::<_, YooKassaErrorView>(i),
            Err(e) => opt_int_at(json_view(*v), key@) == Err::<Option<i32>, _>(e@),
        },
{
    match present_member(v, key) {
        None => Ok(None),
        Some(x) => match value_int(&x) {
            Some(i) => Ok(Some(i)),
            None => Err(invalid(key)),
        },
    }
}

/// A copy of the member under `key` unless it is absent or `null`.
pub fn get_opt_json(v: &serde_json::Value, key: &str) -> (r: Option<serde_json::Value>)
    ensures
        opt_json(r) == json_view(*v).get_present(key@),
{
    present_member(v, key)
}

pub fn with_text(object: serde_json::Value, key: &str, s: &String) -> (r: serde_json::Value)
    ensures
        json_view(r) == json_view(object).with(key@, JsonView::Text(s@)),
{
    with_member(object, key, text_value(s.as_str()))
}

pub fn with_opt_text(object: serde_json::Value, key: &str, s: &Option<String>) -> (r:
    serde_json::Value)
    ensures
        json_view(r) == json_view(object).with_opt(key@, text_json(opt_view(*s))),
{
    match s {
        Some(t) => with_member(object, key, text_value(t.as_str())),
        None => object,
    }
}

pub fn with_opt_bool(object: serde_json::Value, key: &str, b: Option<bool>) -> (r:
    serde_json::Value)
    ensures
        json_view(r) == json_view(object).with_opt(key@, bool_json(b)),
{
    match b {
        Some(x) => with_member(object, key, bool_value(x)),
        None => object,
    }
}

pub fn with_int(object: serde_json::Value, key: &str, i: i32) -> (r: serde_json::Value)
    ensures
        json_view(r) == json_view(object).with(key@, int_json(i)),
{
    with_member(object, key, int_value(i))
}

pub fn with_opt_int(object: serde_json::Value, key: &str, i: Option<i32>) -> (r: serde_json::Value)
    ensures
        json_view(r) == json_view(object).with_opt(key@, opt_int_json(i)),
{
    match i {
        Some(x) => with_member(object, key, int_value(x)),
        None => object,
    }
}

pub fn put_opt_json(object: serde_json::Value, key: &str, value: &Option<serde_json::Value>) -> (r:
    serde_json::Value)
    ensures
        json_view(r) == json_view(object).with_opt(key@, opt_json(*value)),
{
    match value {
        Some(x) => with_member(object, key, copy_value(x)),
        None => object,
    }
}

} // verus!

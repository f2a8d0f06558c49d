//! A mathematical model of JSON documents, and the trusted accessors of
//! `serde_json` that the decoders are proved against.
use vstd::prelude::*;
use vstd::string::StringExecFns;

verus! {

/// What a JSON document holds. An integer written without fraction or
/// exponent that fits in `u64` or `i64` keeps its exact value, except `-0`,
/// which serde_json reads as a float; any other number is held as a float,
/// whose value no decoder here reads.
pub enum Json {
    Null,
    Bool(bool),
    Int(int),
    Float,
    Str(Seq<char>),
    Array(Seq<Json>),
    Object(Map<Seq<char>, Json>),
}

#[verifier::external_type_specification]
#[verifier::external_body]
pub struct ExValue(serde_json::Value);

/// The document that a `serde_json::Value` holds.
pub uninterp spec fn json_of(v: serde_json::Value) -> Json;

/// The document that `serde_json` parses from a text, if the text is valid JSON.
pub uninterp spec fn parsed_json(s: Seq<char>) -> Option<Json>;

/// Relies on `serde_json::from_str::<Value>`: it succeeds exactly on valid JSON
/// text and then yields the document that the text denotes.
#[verifier::external_body]
pub(crate) fn parse_json(s: &str) -> (r: Option<serde_json::Value>)
    ensures
        r.is_some() == parsed_json(s@).is_some(),
        r.is_some() ==> json_of(r.unwrap()) == parsed_json(s@).unwrap(),
{
    serde_json::from_str::<serde_json::Value>(s).ok()
}

/// Relies on `Value::get` with a `&str` index: the member of an object under
/// that key, and `None` for a missing key or a value that is no object.
#[verifier::external_body]
pub(crate) fn json_member<'a>(v: &'a serde_json::Value, key: &str) -> (r: Option<&'a serde_json::Value>)
    ensures
        r.is_some() == (json_of(*v) is Object && json_of(*v)->Object_0.contains_key(key@)),
        r.is_some() ==> json_of(*r.unwrap()) == json_of(*v)->Object_0[key@],
{
    v.get(key)
}

/// Relies on `Value::as_str`: the text of a JSON string, else `None`.
#[verifier::external_body]
pub(crate) fn json_as_str<'a>(v: &'a serde_json::Value) -> (r: Option<&'a str>)
    ensures
        r.is_some() == json_of(*v) is Str,
        r.is_some() ==> r.unwrap()@ == json_of(*v)->Str_0,
{
    v.as_str()
}

/// Relies on `Value::as_i64`: an integer that fits in `i64`, else `None`.
#[verifier::external_body]
pub(crate) fn json_as_i64(v: &serde_json::Value) -> (r: Option<i64>)
    ensures
        r.is_some() == (json_of(*v) is Int && i64::MIN <= json_of(*v)->Int_0 <= i64::MAX),
        r.is_some() ==> r.unwrap() == json_of(*v)->Int_0,
{
    v.as_i64()
}

/// Relies on `Value::as_bool`: the value of a JSON boolean, else `None`.
#[verifier::external_body]
pub(crate) fn json_as_bool(v: &serde_json::Value) -> (r: Option<bool>)
    ensures
        r == (match json_of(*v) {
            Json::Bool(b) => Some(b),
            _ => None,
        }),
{
    v.as_bool()
}

/// Relies on `Value::as_array`: the elements of a JSON array, else `None`.
#[verifier::external_body]
pub(crate) fn json_as_array<'a>(v: &'a serde_json::Value) -> (r: Option<&'a Vec<serde_json::Value>>)
    ensures
        r.is_some() == json_of(*v) is Array,
        r.is_some() ==> r.unwrap()@.len() == json_of(*v)->Array_0.len(),
        r.is_some() ==> forall|i: int|
            0 <= i < r.unwrap()@.len() ==> json_of(#[trigger] r.unwrap()@[i]) == json_of(*v)->Array_0[i],
{
    v.as_array()
}

/// Relies on `Value::is_null`: whether the value is JSON `null`.
#[verifier::external_body]
pub(crate) fn json_is_null(v: &serde_json::Value) -> (r: bool)
    ensures
        r == json_of(*v) is Null,
{
    v.is_null()
}

/// The document held by an optional reference to a value.
pub open spec fn json_opt(o: Option<&serde_json::Value>) -> Option<Json> {
    match o {
        Some(v) => Some(json_of(*v)),
        None => None,
    }
}

/// The member under key `k` of an object document.
pub open spec fn field(j: Json, k: Seq<char>) -> Option<Json> {
    match j {
        Json::Object(m) => if m.contains_key(k) {
            Some(m[k])
        } else {
            None
        },
        _ => None,
    }
}

/// The member under key `k` or its alias `a`; a document that holds both
/// keys names the field twice and gives none.
pub open spec fn aliased(j: Json, k: Seq<char>, a: Seq<char>) -> Option<Json> {
    match (field(j, k), field(j, a)) {
        (Some(x), None) => Some(x),
        (None, Some(y)) => Some(y),
        _ => None,
    }
}

/// The text of a string document.
pub open spec fn text_of(j: Option<Json>) -> Option<Seq<char>> {
    match j {
        Some(Json::Str(s)) => Some(s),
        _ => None,
    }
}

/// An integer document that fits in `i32`.
pub open spec fn i32_of(j: Option<Json>) -> Option<i32> {
    match j {
        Some(Json::Int(n)) => if i32::MIN <= n <= i32::MAX {
            Some(n as i32)
        } else {
            None
        },
        _ => None,
    }
}

/// An integer document that fits in `i64`.
pub open spec fn i64_of(j: Option<Json>) -> Option<i64> {
    match j {
        Some(Json::Int(n)) => if i64::MIN <= n <= i64::MAX {
            Some(n as i64)
        } else {
            None
        },
        _ => None,
    }
}

/// The value of a boolean document.
pub open spec fn bool_of(j: Option<Json>) -> Option<bool> {
    match j {
        Some(Json::Bool(b)) => Some(b),
        _ => None,
    }
}

/// An optional text: absent or `null` gives `Some(None)`, a string gives its
/// text, anything else fails to decode.
pub open spec fn opt_text_of(j: Option<Json>) -> Option<Option<Seq<char>>> {
    match j {
        None => Some(None),
        Some(Json::Null) => Some(None),
        Some(Json::Str(s)) => Some(Some(s)),
        _ => None,
    }
}

/// The member of `v` under key `k`.
pub fn get_field<'a>(v: &'a serde_json::Value, k: &str) -> (r: Option<&'a serde_json::Value>)
    ensures
        json_opt(r) == field(json_of(*v), k@),
{
    json_member(v, k)
}

/// The member of `v` under key `k` or its alias `a`.
pub fn get_aliased<'a>(v: &'a serde_json::Value, k: &str, a: &str) -> (r: Option<&'a serde_json::Value>)
    requires
        k@ != a@,
    ensures
        json_opt(r) == aliased(json_of(*v), k@, a@),
{
    let x = json_member(v, k);
    let y = json_member(v, a);
    match (x, y) {
        (Some(x), None) => Some(x),
        (None, Some(y)) => Some(y),
        _ => None,
    }
}

/// The text of a string value, as an owned `String`.
pub fn get_text(o: Option<&serde_json::Value>) -> (r: Option<String>)
    ensures
        r.is_some() == text_of(json_opt(o)).is_some(),
        r.is_some() ==> r.unwrap()@ == text_of(json_opt(o)).unwrap(),
{
    match o {
        Some(v) => match json_as_str(v) {
            Some(s) => Some(String::from_str(s)),
            None => None,
        },
        None => None,
    }
}

/// An integer value that fits in `i32`.
pub fn get_i32(o: Option<&serde_json::Value>) -> (r: Option<i32>)
    ensures
        r == i32_of(json_opt(o)),
{
    match o {
        Some(v) => match json_as_i64(v) {
            Some(n) => if i32::MIN as i64 <= n && n <= i32::MAX as i64 {
                Some(n as i32)
            } else {
                None
            },
            None => None,
        },
        None => None,
    }
}

/// An integer value that fits in `i64`.
pub fn get_i64(o: Option<&serde_json::Value>) -> (r: Option<i64>)
    ensures
        r == i64_of(json_opt(o)),
{
    match o {
        Some(v) => json_as_i64(v),
        None => None,
    }
}

/// The value of a boolean.
pub fn get_bool(o: Option<&serde_json::Value>) -> (r: Option<bool>)
    ensures
        r == bool_of(json_opt(o)),
{
    match o {
        Some(v) => json_as_bool(v),
        None => None,
    }
}

/// An optional text: `Some(None)` for an absent or `null` value.
pub fn get_opt_text(o: Option<&serde_json::Value>) -> (r: Option<Option<String>>)
    ensures
        r.is_some() == opt_text_of(json_opt(o)).is_some(),
        r.is_some() ==> (r.unwrap().is_some() == opt_text_of(json_opt(o)).unwrap().is_some()),
        r.is_some() && r.unwrap().is_some() ==> r.unwrap().unwrap()@ == opt_text_of(json_opt(o)).unwrap().unwrap(),
{
    match o {
        None => Some(None),
        Some(v) => if json_is_null(v) {
            Some(None)
        } else {
            match json_as_str(v) {
                Some(s) => Some(Some(String::from_str(s))),
                None => None,
            }
        },
    }
}

} // verus!

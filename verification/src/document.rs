//! Reading JSON text. The text is parsed by `serde_json`; what it hands out is copied into a
//! [`Json`] that the rest of the library works on.

use vstd::prelude::*;
use crate::error::{outcome, DecodeError, DecodeErrorView, Strictness};
use crate::json::{distinct_names, lemma_object_view, names_once, Json, JsonNumber, JsonValue, Number};
use crate::wire::Decode;

verus! {

/// `serde_json::Value`: a document as the parser holds it. Nothing of its inside is known
/// here but what the functions below say.
#[verifier::external_type_specification]
#[verifier::external_body]
pub struct ExValue(serde_json::Value);

/// `serde_json::Error`: why the parser refused a text. It is only carried.
#[verifier::external_type_specification]
#[verifier::external_body]
pub struct ExError(serde_json::Error);

/// The document that a `serde_json::Value` holds. An object's members stand in the order in
/// which its map hands them out.
pub uninterp spec fn tree_of(value: serde_json::Value) -> JsonValue;

/// What `serde_json` makes of a text: the document it reads, or nothing where it refuses the
/// text.
pub uninterp spec fn parse_of(text: Seq<u8>) -> Option<JsonValue>;

/// `serde_json::from_slice`, asked for a `Value`: the document read from the text, or the
/// parser's error where the text is not one JSON document.
#[verifier::external_body]
fn read_value(text: &[u8]) -> (r: Result<serde_json::Value, serde_json::Error>)
    ensures
        match r {
            Ok(value) => parse_of(text@) == Some(tree_of(value)),
            Err(_) => parse_of(text@) is None,
        },
{
    serde_json::from_slice::<serde_json::Value>(text)
}

/// `Value::is_null` tells whether the value is `null`.
pub assume_specification[ serde_json::Value::is_null ](value: &serde_json::Value) -> (r: bool)
    ensures
        r == (tree_of(*value) is Null),
;

/// `Value::as_bool` hands out the boolean of a `true` or `false`, and nothing of any other
/// value.
pub assume_specification[ serde_json::Value::as_bool ](value: &serde_json::Value) -> (r: Option<bool>)
    ensures
        match r {
            Some(b) => tree_of(*value) == JsonValue::Bool(b),
            None => !(tree_of(*value) is Bool),
        },
;

/// `Value::as_u64` hands out an integer from 0 up, and nothing of any other value.
pub assume_specification[ serde_json::Value::as_u64 ](value: &serde_json::Value) -> (r: Option<u64>)
    ensures
        match r {
            Some(n) => tree_of(*value) == JsonValue::Number(JsonNumber::Int(n as int)),
            None => !(tree_of(*value) matches JsonValue::Number(JsonNumber::Int(n)) && n >= 0),
        },
;

/// `Value::as_i64` hands out an integer up to `i64::MAX`, and nothing of any other value.
pub assume_specification[ serde_json::Value::as_i64 ](value: &serde_json::Value) -> (r: Option<i64>)
    ensures
        match r {
            Some(n) => tree_of(*value) == JsonValue::Number(JsonNumber::Int(n as int)),
            None => !(tree_of(*value) matches JsonValue::Number(JsonNumber::Int(n)) && n <= i64::MAX),
        },
;

/// `Value::as_str` hands out the text of a string, and nothing of any other value.
pub assume_specification<'a>[ serde_json::Value::as_str ](value: &'a serde_json::Value) -> (r: Option<&'a str>)
    ensures
        match r {
            Some(text) => tree_of(*value) == JsonValue::String(text@),
            None => !(tree_of(*value) is String),
        },
;

/// `Value::as_array` hands out the items of an array, in order, and nothing of any other
/// value.
pub assume_specification<'a>[ serde_json::Value::as_array ](value: &'a serde_json::Value) -> (r: Option<
    &'a Vec<serde_json::Value>,
>)
    ensures
        match r {
            Some(items) => tree_of(*value) matches JsonValue::Array(docs) && docs.len() == items@.len()
                && forall|i: int| 0 <= i < items@.len() ==> tree_of(#[trigger] items@[i]) == docs[i],
            None => !(tree_of(*value) is Array),
        },
;

/// `Number`'s `to_string`, on the number of a `Value`: for a number that is no integer, its
/// decimal text. Nothing of a value that is no number.
#[verifier::external_body]
fn number_text(value: &serde_json::Value) -> (r: Option<String>)
    ensures
        match r {
            Some(text) => tree_of(*value) is Number && (tree_of(*value) matches JsonValue::Number(
                JsonNumber::Real(digits),
            ) ==> digits == text@),
            None => !(tree_of(*value) is Number),
        },
{
    match value.as_number() {
        Some(number) => Some(number.to_string()),
        None => None,
    }
}

/// `Value::as_object` and `Map::iter`: the members of an object, each name with its value, in
/// the order in which the map hands them out, which holds each name once. Nothing of a value
/// that is no object.
#[verifier::external_body]
fn members_of<'a>(value: &'a serde_json::Value) -> (r: Option<Vec<(&'a String, &'a serde_json::Value)>>)
    ensures
        match r {
            Some(members) => tree_of(*value) matches JsonValue::Object(docs) && docs.len() == members@.len()
                && distinct_names(docs) && forall|i: int|
                0 <= i < members@.len() ==> (#[trigger] members@[i]).0@ == docs[i].0 && tree_of(*members@[i].1)
                    == docs[i].1,
            None => !(tree_of(*value) is Object),
        },
{
    match value.as_object() {
        Some(map) => Some(map.iter().collect()),
        None => None,
    }
}

/// The library's own copy of a document that `serde_json` holds.
fn lift(value: &serde_json::Value) -> (r: Json)
    ensures
        r@ == tree_of(*value),
        names_once(r@),
    decreases tree_of(*value),
{
    if value.is_null() {
        return Json::Null;
    }
    if let Some(b) = value.as_bool() {
        return Json::Bool(b);
    }
    if let Some(n) = value.as_u64() {
        return Json::Number(Number::Unsigned(n));
    }
    if let Some(n) = value.as_i64() {
        return Json::Number(Number::Negative(n));
    }
    if let Some(text) = number_text(value) {
        return Json::Number(Number::Real(text));
    }
    if let Some(text) = value.as_str() {
        return Json::String(text.to_owned());
    }
    if let Some(items) = value.as_array() {
        let ghost docs = tree_of(*value)->Array_0;
        let mut out: Vec<Json> = Vec::new();
        let mut i: usize = 0;
        while i < items.len()
            invariant
                i <= items.len(),
                out@.len() == i,
                tree_of(*value) == JsonValue::Array(docs),
                docs.len() == items@.len(),
                forall|k: int| 0 <= k < items@.len() ==> tree_of(#[trigger] items@[k]) == docs[k],
                forall|k: int| 0 <= k < i ==> out@[k]@ == docs[k],
                forall|k: int| 0 <= k < i ==> names_once(#[trigger] docs[k]),
                decreases_to!(tree_of(*value) => docs),
            decreases items.len() - i,
        {
            assert(tree_of(items@[i as int]) == docs[i as int]);
            assert(decreases_to!(docs => docs[i as int]));
            let item = lift(&items[i]);
            out.push(item);
            i = i + 1;
        }
        let r = Json::Array(out);
        assert(r@->Array_0 =~= docs);
        return r;
    }
    if let Some(members) = members_of(value) {
        let ghost docs = tree_of(*value)->Object_0;
        let mut out: Vec<(String, Json)> = Vec::new();
        let mut i: usize = 0;
        while i < members.len()
            invariant
                i <= members.len(),
                out@.len() == i,
                tree_of(*value) == JsonValue::Object(docs),
                docs.len() == members@.len(),
                forall|k: int|
                    0 <= k < members@.len() ==> (#[trigger] members@[k]).0@ == docs[k].0 && tree_of(
                        *members@[k].1,
                    ) == docs[k].1,
                forall|k: int| 0 <= k < i ==> out@[k].deep_view() == docs[k],
                forall|k: int| 0 <= k < i ==> names_once((#[trigger] docs[k]).1),
                distinct_names(docs),
                decreases_to!(tree_of(*value) => docs),
            decreases members.len() - i,
        {
            assert(tree_of(*members@[i as int].1) == docs[i as int].1);
            assert(decreases_to!(docs => docs[i as int]));
            assert(decreases_to!(docs[i as int] => docs[i as int].1));
            let name = members[i].0.clone();
            let doc = lift(members[i].1);
            out.push((name, doc));
            i = i + 1;
        }
        proof {
            lemma_object_view(out);
            assert(out.deep_view() =~= docs);
        }
        return Json::Object(out);
    }
    // A document is of one of the six kinds, so this place is not reached.
    proof {
        assert(false);
    }
    Json::Null
}

/// What a text decodes to as a `T`: what the document read from it decodes to, or a syntax
/// error where the text is not a JSON document.
pub open spec fn spec_from_text<T: Decode>(text: Seq<u8>, mode: Strictness) -> Result<T::V, DecodeErrorView> {
    match parse_of(text) {
        Some(doc) => T::spec_decode(doc, mode),
        None => Err(DecodeErrorView::Syntax),
    }
}

impl Json {
    /// Reads a JSON text.
    pub fn parse(text: &[u8]) -> (r: Result<Json, DecodeError>)
        ensures
            match parse_of(text@) {
                Some(doc) => r matches Ok(json) && json@ == doc && names_once(doc),
                None => r matches Err(error) && error@ == DecodeErrorView::Syntax,
            },
    {
        match read_value(text) {
            Ok(value) => Ok(lift(&value)),
            Err(_) => Err(DecodeError::Syntax),
        }
    }
}

/// Reads a JSON text as a `T`.
pub fn from_text<T: Decode>(text: &[u8], mode: Strictness) -> (r: Result<T, DecodeError>)
    ensures
        outcome(r) == spec_from_text::<T>(text@, mode),
{
    match Json::parse(text) {
        Ok(doc) => T::decode(&doc, mode),
        Err(error) => Err(error),
    }
}

} // verus!

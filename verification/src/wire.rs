//! The types that have a place in the wire schema, and how they are read from and written to
//! JSON documents.

use vstd::prelude::*;
use crate::error::{outcome, DecodeError, DecodeErrorView, Expected, Strictness};
use crate::json::{find, lookup, Json, JsonNumber, JsonValue, Members, Number};

verus! {

/// A type that is read from a JSON document.
pub trait Decode: DeepView + Sized {
    /// What a document decodes to.
    spec fn spec_decode(doc: JsonValue, mode: Strictness) -> Result<Self::V, DecodeErrorView>;

    /// What a record gets for a field of this type whose key is absent: nothing, unless the
    /// type has a value for it.
    spec fn spec_absent() -> Option<Self::V>;

    fn decode(doc: &Json, mode: Strictness) -> (r: Result<Self, DecodeError>)
        ensures
            outcome(r) == Self::spec_decode(doc@, mode),
    ;

    fn absent() -> (r: Option<Self>)
        ensures
            r.deep_view() == Self::spec_absent(),
    ;
}

/// A type that is also written back to a JSON document.
pub trait Encode: Decode {
    /// The document that a value is written as.
    spec fn spec_encode(value: Self::V) -> JsonValue;

    /// The values that come back unchanged when they are encoded and then decoded.
    spec fn faithful(value: Self::V, mode: Strictness) -> bool;

    fn encode(&self) -> (r: Json)
        ensures
            r@ == Self::spec_encode(self.deep_view()),
    ;

    /// Decoding undoes encoding.
    proof fn round_trip(value: Self::V, mode: Strictness)
        requires
            Self::faithful(value, mode),
        ensures
            Self::spec_decode(Self::spec_encode(value), mode) == Ok::<Self::V, DecodeErrorView>(value),
    ;
}

/// A record: an object with a fixed set of declared keys.
pub trait Record {
    /// Whether the record declares a key of this name.
    spec fn spec_declares(name: Seq<char>) -> bool;

    fn declares(name: &str) -> (r: bool)
        ensures
            r == Self::spec_declares(name@),
    ;
}

impl Decode for u16 {
    open spec fn spec_decode(doc: JsonValue, mode: Strictness) -> Result<u16, DecodeErrorView> {
        match doc {
            JsonValue::Number(JsonNumber::Int(n)) if 0 <= n <= u16::MAX => Ok(n as u16),
            _ => Err(DecodeErrorView::Mismatch(Expected::Integer)),
        }
    }

    open spec fn spec_absent() -> Option<u16> {
        None
    }

    fn decode(doc: &Json, mode: Strictness) -> (r: Result<u16, DecodeError>) {
        match doc {
            Json::Number(Number::Unsigned(n)) if *n <= u16::MAX as u64 => Ok(*n as u16),
            Json::Number(Number::Negative(n)) if 0 <= *n && *n as u64 <= u16::MAX as u64 => Ok(*n as u16),
            _ => Err(DecodeError::Mismatch(Expected::Integer)),
        }
    }

    fn absent() -> (r: Option<u16>) {
        None
    }
}

impl Encode for u16 {
    open spec fn spec_encode(value: u16) -> JsonValue {
        JsonValue::Number(JsonNumber::Int(value as int))
    }

    open spec fn faithful(value: u16, mode: Strictness) -> bool {
        true
    }

    fn encode(&self) -> (r: Json) {
        Json::Number(Number::Unsigned(*self as u64))
    }

    proof fn round_trip(value: u16, mode: Strictness) {
    }
}

impl Decode for u32 {
    open spec fn spec_decode(doc: JsonValue, mode: Strictness) -> Result<u32, DecodeErrorView> {
        match doc {
            JsonValue::Number(JsonNumber::Int(n)) if 0 <= n <= u32::MAX => Ok(n as u32),
            _ => Err(DecodeErrorView::Mismatch(Expected::Integer)),
        }
    }

    open spec fn spec_absent() -> Option<u32> {
        None
    }

    fn decode(doc: &Json, mode: Strictness) -> (r: Result<u32, DecodeError>) {
        match doc {
            Json::Number(Number::Unsigned(n)) if *n <= u32::MAX as u64 => Ok(*n as u32),
            Json::Number(Number::Negative(n)) if 0 <= *n && *n as u64 <= u32::MAX as u64 => Ok(*n as u32),
            _ => Err(DecodeError::Mismatch(Expected::Integer)),
        }
    }

    fn absent() -> (r: Option<u32>) {
        None
    }
}

impl Encode for u32 {
    open spec fn spec_encode(value: u32) -> JsonValue {
        JsonValue::Number(JsonNumber::Int(value as int))
    }

    open spec fn faithful(value: u32, mode: Strictness) -> bool {
        true
    }

    fn encode(&self) -> (r: Json) {
        Json::Number(Number::Unsigned(*self as u64))
    }

    proof fn round_trip(value: u32, mode: Strictness) {
    }
}

impl Decode for u64 {
    open spec fn spec_decode(doc: JsonValue, mode: Strictness) -> Result<u64, DecodeErrorView> {
        match doc {
            JsonValue::Number(JsonNumber::Int(n)) if 0 <= n <= u64::MAX => Ok(n as u64),
            _ => Err(DecodeErrorView::Mismatch(Expected::Integer)),
        }
    }

    open spec fn spec_absent() -> Option<u64> {
        None
    }

    fn decode(doc: &Json, mode: Strictness) -> (r: Result<u64, DecodeError>) {
        match doc {
            Json::Number(Number::Unsigned(n)) => Ok(*n),
            Json::Number(Number::Negative(n)) if *n >= 0 => Ok(*n as u64),
            _ => Err(DecodeError::Mismatch(Expected::Integer)),
        }
    }

    fn absent() -> (r: Option<u64>) {
        None
    }
}

impl Encode for u64 {
    open spec fn spec_encode(value: u64) -> JsonValue {
        JsonValue::Number(JsonNumber::Int(value as int))
    }

    open spec fn faithful(value: u64, mode: Strictness) -> bool {
        true
    }

    fn encode(&self) -> (r: Json) {
        Json::Number(Number::Unsigned(*self))
    }

    proof fn round_trip(value: u64, mode: Strictness) {
    }
}

impl Decode for usize {
    open spec fn spec_decode(doc: JsonValue, mode: Strictness) -> Result<usize, DecodeErrorView> {
        match doc {
            JsonValue::Number(JsonNumber::Int(n)) if 0 <= n <= usize::MAX => Ok(n as usize),
            _ => Err(DecodeErrorView::Mismatch(Expected::Integer)),
        }
    }

    open spec fn spec_absent() -> Option<usize> {
        None
    }

    fn decode(doc: &Json, mode: Strictness) -> (r: Result<usize, DecodeError>) {
        match doc {
            Json::Number(Number::Unsigned(n)) if *n <= usize::MAX as u64 => Ok(*n as usize),
            Json::Number(Number::Negative(n)) if 0 <= *n && *n as u64 <= usize::MAX as u64 => Ok(*n as usize),
            _ => Err(DecodeError::Mismatch(Expected::Integer)),
        }
    }

    fn absent() -> (r: Option<usize>) {
        None
    }
}

impl Encode for usize {
    open spec fn spec_encode(value: usize) -> JsonValue {
        JsonValue::Number(JsonNumber::Int(value as int))
    }

    open spec fn faithful(value: usize, mode: Strictness) -> bool {
        true
    }

    fn encode(&self) -> (r: Json) {
        Json::Number(Number::Unsigned(*self as u64))
    }

    proof fn round_trip(value: usize, mode: Strictness) {
    }
}

impl Decode for bool {
    open spec fn spec_decode(doc: JsonValue, mode: Strictness) -> Result<bool, DecodeErrorView> {
        match doc {
            JsonValue::Bool(b) => Ok(b),
            _ => Err(DecodeErrorView::Mismatch(Expected::Boolean)),
        }
    }

    open spec fn spec_absent() -> Option<bool> {
        None
    }

    fn decode(doc: &Json, mode: Strictness) -> (r: Result<bool, DecodeError>) {
        match doc {
            Json::Bool(b) => Ok(*b),
            _ => Err(DecodeError::Mismatch(Expected::Boolean)),
        }
    }

    fn absent() -> (r: Option<bool>) {
        None
    }
}

impl Encode for bool {
    open spec fn spec_encode(value: bool) -> JsonValue {
        JsonValue::Bool(value)
    }

    open spec fn faithful(value: bool, mode: Strictness) -> bool {
        true
    }

    fn encode(&self) -> (r: Json) {
        Json::Bool(*self)
    }

    proof fn round_trip(value: bool, mode: Strictness) {
    }
}

impl Decode for String {
    open spec fn spec_decode(doc: JsonValue, mode: Strictness) -> Result<Seq<char>, DecodeErrorView> {
        match doc {
            JsonValue::String(text) => Ok(text),
            _ => Err(DecodeErrorView::Mismatch(Expected::String)),
        }
    }

    open spec fn spec_absent() -> Option<Seq<char>> {
        None
    }

    fn decode(doc: &Json, mode: Strictness) -> (r: Result<String, DecodeError>) {
        match doc {
            Json::String(text) => Ok(text.clone()),
            _ => Err(DecodeError::Mismatch(Expected::String)),
        }
    }

    fn absent() -> (r: Option<String>) {
        None
    }
}

impl Encode for String {
    open spec fn spec_encode(value: Seq<char>) -> JsonValue {
        JsonValue::String(value)
    }

    open spec fn faithful(value: Seq<char>, mode: Strictness) -> bool {
        true
    }

    fn encode(&self) -> (r: Json) {
        Json::String(self.clone())
    }

    proof fn round_trip(value: Seq<char>, mode: Strictness) {
    }
}

/// A document that the schema does not model is carried as it is.
impl Decode for Json {
    open spec fn spec_decode(doc: JsonValue, mode: Strictness) -> Result<JsonValue, DecodeErrorView> {
        Ok(doc)
    }

    open spec fn spec_absent() -> Option<JsonValue> {
        None
    }

    fn decode(doc: &Json, mode: Strictness) -> (r: Result<Json, DecodeError>) {
        Ok(doc.clone())
    }

    fn absent() -> (r: Option<Json>) {
        None
    }
}

impl Encode for Json {
    open spec fn spec_encode(value: JsonValue) -> JsonValue {
        value
    }

    open spec fn faithful(value: JsonValue, mode: Strictness) -> bool {
        true
    }

    fn encode(&self) -> (r: Json) {
        self.clone()
    }

    proof fn round_trip(value: JsonValue, mode: Strictness) {
    }
}

/// An optional value: `null` and an absent key both stand for none.
impl<T: Decode> Decode for Option<T> {
    open spec fn spec_decode(doc: JsonValue, mode: Strictness) -> Result<Option<T::V>, DecodeErrorView> {
        match doc {
            JsonValue::Null => Ok(None),
            _ => match T::spec_decode(doc, mode) {
                Ok(value) => Ok(Some(value)),
                Err(cause) => Err(cause),
            },
        }
    }

    open spec fn spec_absent() -> Option<Option<T::V>> {
        Some(None)
    }

    fn decode(doc: &Json, mode: Strictness) -> (r: Result<Option<T>, DecodeError>) {
        match doc {
            Json::Null => Ok(None),
            _ => match T::decode(doc, mode) {
                Ok(value) => Ok(Some(value)),
                Err(cause) => Err(cause),
            },
        }
    }

    fn absent() -> (r: Option<Option<T>>) {
        Some(None)
    }
}

/// A value that is written as `null` would come back as none, so it is not faithful.
impl<T: Encode> Encode for Option<T> {
    open spec fn spec_encode(value: Option<T::V>) -> JsonValue {
        match value {
            Some(inner) => T::spec_encode(inner),
            None => JsonValue::Null,
        }
    }

    open spec fn faithful(value: Option<T::V>, mode: Strictness) -> bool {
        match value {
            Some(inner) => T::faithful(inner, mode) && !(T::spec_encode(inner) is Null),
            None => true,
        }
    }

    fn encode(&self) -> (r: Json) {
        match self {
            Some(inner) => inner.encode(),
            None => Json::Null,
        }
    }

    proof fn round_trip(value: Option<T::V>, mode: Strictness) {
        match value {
            Some(inner) => {
                T::round_trip(inner, mode);
            },
            None => {},
        }
    }
}

/// What the first `count` items of an array are read as. The first item that cannot be read
/// decides the error.
pub open spec fn spec_items<T: Decode>(items: Seq<JsonValue>, count: nat, mode: Strictness) -> Result<
    Seq<T::V>,
    DecodeErrorView,
>
    decreases count,
{
    if count == 0 || count > items.len() {
        Ok(Seq::empty())
    } else {
        match spec_items::<T>(items, (count - 1) as nat, mode) {
            Err(error) => Err(error),
            Ok(values) => match T::spec_decode(items[count - 1], mode) {
                Ok(value) => Ok(values.push(value)),
                Err(cause) => Err(DecodeErrorView::Item((count - 1) as usize, Box::new(cause))),
            },
        }
    }
}

/// Once an item cannot be read, reading more items ends in the same error.
pub proof fn lemma_first_item_fails<T: Decode>(items: Seq<JsonValue>, failed: nat, count: nat, mode: Strictness)
    requires
        failed <= count <= items.len(),
        spec_items::<T>(items, failed, mode) is Err,
    ensures
        spec_items::<T>(items, count, mode) == spec_items::<T>(items, failed, mode),
    decreases count,
{
    if count > failed {
        lemma_first_item_fails::<T>(items, failed, (count - 1) as nat, mode);
    }
}

/// A list: an array whose items are read one by one, in order.
impl<T: Decode> Decode for Vec<T> {
    open spec fn spec_decode(doc: JsonValue, mode: Strictness) -> Result<Seq<T::V>, DecodeErrorView> {
        match doc {
            JsonValue::Array(items) => spec_items::<T>(items, items.len(), mode),
            _ => Err(DecodeErrorView::Mismatch(Expected::Array)),
        }
    }

    open spec fn spec_absent() -> Option<Seq<T::V>> {
        None
    }

    fn decode(doc: &Json, mode: Strictness) -> (r: Result<Vec<T>, DecodeError>) {
        match doc {
            Json::Array(items) => {
                let ghost docs = doc@->Array_0;
                assert(docs.len() == items@.len());
                let mut values: Vec<T> = Vec::new();
                let mut i: usize = 0;
                assert(values.deep_view() =~= Seq::empty());
                while i < items.len()
                    invariant
                        i <= items.len(),
                        doc@ == JsonValue::Array(docs),
                        docs.len() == items@.len(),
                        forall|k: int| 0 <= k < items@.len() ==> docs[k] == (#[trigger] items@[k])@,
                        spec_items::<T>(docs, i as nat, mode) == Ok::<Seq<T::V>, DecodeErrorView>(
                            values.deep_view(),
                        ),
                    decreases items.len() - i,
                {
                    assert(docs[i as int] == items@[i as int]@);
                    match T::decode(&items[i], mode) {
                        Ok(value) => {
                            let ghost before = values.deep_view();
                            values.push(value);
                            assert(values.deep_view() =~= before.push(value.deep_view()));
                        },
                        Err(cause) => {
                            proof {
                                assert(spec_items::<T>(docs, (i + 1) as nat, mode) == Err::<
                                    Seq<T::V>,
                                    DecodeErrorView,
                                >(DecodeErrorView::Item(i, Box::new(cause@))));
                                lemma_first_item_fails::<T>(docs, (i + 1) as nat, docs.len(), mode);
                            }
                            return Err(DecodeError::Item(i, Box::new(cause)));
                        },
                    }
                    i = i + 1;
                }
                Ok(values)
            },
            _ => Err(DecodeError::Mismatch(Expected::Array)),
        }
    }

    fn absent() -> (r: Option<Vec<T>>) {
        None
    }
}

/// What a record reads under one of its keys.
pub open spec fn spec_field<T: Decode>(members: Members, name: Seq<char>, mode: Strictness) -> Result<
    T::V,
    DecodeErrorView,
> {
    match lookup(members, name) {
        Some(doc) => match T::spec_decode(doc, mode) {
            Ok(value) => Ok(value),
            Err(cause) => Err(DecodeErrorView::Field(name, Box::new(cause))),
        },
        None => match T::spec_absent() {
            Some(value) => Ok(value),
            None => Err(DecodeErrorView::MissingField(name)),
        },
    }
}

/// Reads the field of a record that stands under `name`.
pub fn field<T: Decode>(members: &Vec<(String, Json)>, name: &str, mode: Strictness) -> (r: Result<
    T,
    DecodeError,
>)
    ensures
        outcome(r) == spec_field::<T>(members.deep_view(), name@, mode),
{
    match find(members, name) {
        Some(doc) => match T::decode(doc, mode) {
            Ok(value) => Ok(value),
            Err(cause) => Err(DecodeError::Field(name.to_owned(), Box::new(cause))),
        },
        None => match T::absent() {
            Some(value) => Ok(value),
            None => Err(DecodeError::MissingField(name.to_owned())),
        },
    }
}

} // verus!

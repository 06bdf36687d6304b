//! Decoding of JSON documents into typed values.
//!
//! Each type that a response can be decoded into says which documents have
//! its shape and which value such a document stands for. The shapes of the
//! building blocks are here; those of the payload types stand with the types.
//!
//! A record is decoded from an object and from nothing else. Its members may
//! come in any order, members that the record does not know are passed over,
//! and a member that may be absent may also be `null`. A choice among names
//! is decoded from the text of one of the names.

use crate::error::{decode_failure_message, Error};
use crate::json::{json_parsed, lemma_array_value, parse, Json, JsonValue};
use vstd::prelude::*;

verus! {

/// What a decode failure says of a document that is JSON but has another
/// shape than the type asked for.
pub const OTHER_SHAPE: &'static str = "the document does not have the shape of this type";

/// A type that a JSON document can be decoded into.
pub trait Decode: Sized + DeepView {
    /// The value that `json` stands for, if `json` has the shape of the type.
    spec fn shape(json: JsonValue) -> Option<Self::V>;

    /// The name by which failure messages call the type.
    spec fn name() -> Seq<char>;

    /// The name by which failure messages call the type.
    fn target_name() -> (name: String)
        ensures
            name@ == Self::name(),
    ;

    /// Decodes `json`: the value it stands for, or `None` where it has not
    /// the shape of the type.
    fn decode(json: &Json) -> (decoded: Option<Self>)
        ensures
            decoded.deep_view() == Self::shape(json.deep_view()),
    ;
}

/// The value of a result of the library: the value of what was decoded, or
/// the message of the error.
pub open spec fn outcome<T: DeepView>(result: Result<T, Error>) -> Result<T::V, Seq<char>> {
    match result {
        Ok(value) => Ok(value.deep_view()),
        Err(error) => Err(error@),
    }
}

/// The value of what a reader of documents hands back.
pub open spec fn document_read(parsed: Result<Json, String>) -> Result<JsonValue, Seq<char>> {
    match parsed {
        Ok(document) => Ok(document.deep_view()),
        Err(complaint) => Err(complaint@),
    }
}

/// What a document, or the reader's complaint in its place, comes to for the
/// type `T`: the value that the document stands for, or the message of the
/// decode failure.
pub open spec fn decoded_document<T: Decode>(parsed: Result<JsonValue, Seq<char>>) -> Result<
    T::V,
    Seq<char>,
> {
    match parsed {
        Ok(document) => match T::shape(document) {
            Some(value) => Ok(value),
            None => Err(decode_failure_message(T::name(), OTHER_SHAPE@)),
        },
        Err(complaint) => Err(decode_failure_message(T::name(), complaint)),
    }
}

/// Decodes what the reader made of a body: the value where there is a
/// document and it has the shape of `T`, a decode failure that names `T`
/// otherwise.
pub fn from_document<T: Decode>(parsed: Result<Json, String>) -> (result: Result<T, Error>)
    ensures
        outcome(result) == decoded_document::<T>(document_read(parsed)),
{
    let target = T::target_name();
    match parsed {
        Ok(document) => match T::decode(&document) {
            Some(value) => Ok(value),
            None => Err(Error::decode_failure(target.as_str(), OTHER_SHAPE)),
        },
        Err(complaint) => Err(Error::decode_failure(target.as_str(), complaint.as_str())),
    }
}

/// Decodes the JSON document that `bytes` spell.
pub fn from_slice<T: Decode>(bytes: &[u8]) -> (result: Result<T, Error>)
    ensures
        outcome(result) == decoded_document::<T>(json_parsed(bytes@)),
{
    from_document(parse(bytes))
}

/// The member `name` of `json`, decoded: `None` where `json` is no object,
/// lacks the member, or holds one of another shape than `T`'s.
#[verifier::opaque]
pub open spec fn member<T: Decode>(json: JsonValue, name: Seq<char>) -> Option<T::V> {
    match json.field(name) {
        Some(value) => T::shape(value),
        None => None,
    }
}

/// The member `name` of `json` where it may be left out: nothing for a member
/// that is absent or `null`, the decoded member otherwise, and `None` only
/// for a member of another shape than `T`'s.
#[verifier::opaque]
pub open spec fn optional_member<T: Decode>(json: JsonValue, name: Seq<char>) -> Option<
    Option<T::V>,
> {
    match json.field(name) {
        Some(value) => Option::<T>::shape(value),
        None => Some(None),
    }
}

/// Decodes the member `name` of `json`, which the shape demands.
pub fn required<T: Decode>(json: &Json, name: &str) -> (decoded: Option<T>)
    ensures
        decoded.deep_view() == member::<T>(json.deep_view(), name@),
{
    proof {
        reveal(member);
    }
    match json.field(name) {
        Some(value) => T::decode(value),
        None => None,
    }
}

/// Decodes the member `name` of `json`, which the shape lets be absent.
pub fn optional<T: Decode>(json: &Json, name: &str) -> (decoded: Option<Option<T>>)
    ensures
        decoded.deep_view() == optional_member::<T>(json.deep_view(), name@),
{
    proof {
        reveal(optional_member);
    }
    match json.field(name) {
        Some(value) => Option::<T>::decode(value),
        None => Some(None),
    }
}

impl Decode for () {
    open spec fn shape(json: JsonValue) -> Option<()> {
        match json {
            JsonValue::Null => Some(()),
            _ => None,
        }
    }

    open spec fn name() -> Seq<char> {
        "()"@
    }

    fn target_name() -> (name: String) {
        String::from_str("()")
    }

    fn decode(json: &Json) -> (decoded: Option<()>) {
        match json {
            Json::Null => Some(()),
            _ => None,
        }
    }
}

impl Decode for bool {
    open spec fn shape(json: JsonValue) -> Option<bool> {
        match json {
            JsonValue::Bool(flag) => Some(flag),
            _ => None,
        }
    }

    open spec fn name() -> Seq<char> {
        "bool"@
    }

    fn target_name() -> (name: String) {
        String::from_str("bool")
    }

    fn decode(json: &Json) -> (decoded: Option<bool>) {
        match json {
            Json::Bool(flag) => Some(*flag),
            _ => None,
        }
    }
}

impl Decode for u64 {
    open spec fn shape(json: JsonValue) -> Option<u64> {
        match json {
            JsonValue::Number(number) => number.unsigned,
            _ => None,
        }
    }

    open spec fn name() -> Seq<char> {
        "u64"@
    }

    fn target_name() -> (name: String) {
        String::from_str("u64")
    }

    fn decode(json: &Json) -> (decoded: Option<u64>) {
        match json {
            Json::Number(number) => number.unsigned,
            _ => None,
        }
    }
}

impl Decode for i64 {
    open spec fn shape(json: JsonValue) -> Option<i64> {
        match json {
            JsonValue::Number(number) => number.signed,
            _ => None,
        }
    }

    open spec fn name() -> Seq<char> {
        "i64"@
    }

    fn target_name() -> (name: String) {
        String::from_str("i64")
    }

    fn decode(json: &Json) -> (decoded: Option<i64>) {
        match json {
            Json::Number(number) => number.signed,
            _ => None,
        }
    }
}

impl Decode for i32 {
    open spec fn shape(json: JsonValue) -> Option<i32> {
        match json {
            JsonValue::Number(number) => match number.signed {
                Some(value) => if i32::MIN <= value <= i32::MAX {
                    Some(value as i32)
                } else {
                    None
                },
                None => None,
            },
            _ => None,
        }
    }

    open spec fn name() -> Seq<char> {
        "i32"@
    }

    fn target_name() -> (name: String) {
        String::from_str("i32")
    }

    fn decode(json: &Json) -> (decoded: Option<i32>) {
        match json {
            Json::Number(number) => match number.signed {
                Some(value) => if i32::MIN as i64 <= value && value <= i32::MAX as i64 {
                    Some(value as i32)
                } else {
                    None
                },
                None => None,
            },
            _ => None,
        }
    }
}

impl Decode for String {
    open spec fn shape(json: JsonValue) -> Option<Seq<char>> {
        match json {
            JsonValue::Text(text) => Some(text),
            _ => None,
        }
    }

    open spec fn name() -> Seq<char> {
        "String"@
    }

    fn target_name() -> (name: String) {
        String::from_str("String")
    }

    fn decode(json: &Json) -> (decoded: Option<String>) {
        match json {
            Json::Text(text) => Some(text.clone()),
            _ => None,
        }
    }
}

impl Decode for Json {
    open spec fn shape(json: JsonValue) -> Option<JsonValue> {
        Some(json)
    }

    open spec fn name() -> Seq<char> {
        "Json"@
    }

    fn target_name() -> (name: String) {
        String::from_str("Json")
    }

    fn decode(json: &Json) -> (decoded: Option<Json>) {
        Some(json.clone())
    }
}

impl<T: Decode> Decode for Option<T> {
    open spec fn shape(json: JsonValue) -> Option<Option<T::V>> {
        match json {
            JsonValue::Null => Some(None),
            _ => match T::shape(json) {
                Some(value) => Some(Some(value)),
                None => None,
            },
        }
    }

    open spec fn name() -> Seq<char> {
        "Option<"@ + T::name() + ">"@
    }

    fn target_name() -> (name: String) {
        let mut name = String::from_str("Option<");
        let inner = T::target_name();
        name.append(inner.as_str());
        name.append(">");
        name
    }

    fn decode(json: &Json) -> (decoded: Option<Option<T>>) {
        match json {
            Json::Null => Some(None),
            _ => match T::decode(json) {
                Some(value) => Some(Some(value)),
                None => None,
            },
        }
    }
}

/// The values that the items stand for, where every item has the shape of `T`.
pub open spec fn items_shape<T: Decode>(items: Seq<JsonValue>) -> Option<Seq<T::V>> {
    if forall|i: int| 0 <= i < items.len() ==> (#[trigger] T::shape(items[i])) is Some {
        Some(Seq::new(items.len(), |i: int| T::shape(items[i])->0))
    } else {
        None
    }
}

impl<T: Decode> Decode for Vec<T> {
    open spec fn shape(json: JsonValue) -> Option<Seq<T::V>> {
        match json {
            JsonValue::Array(items) => items_shape::<T>(items),
            _ => None,
        }
    }

    open spec fn name() -> Seq<char> {
        "Vec<"@ + T::name() + ">"@
    }

    fn target_name() -> (name: String) {
        let mut name = String::from_str("Vec<");
        let inner = T::target_name();
        name.append(inner.as_str());
        name.append(">");
        name
    }

    fn decode(json: &Json) -> (decoded: Option<Vec<T>>) {
        match json {
            Json::Array(items) => {
                let mut values: Vec<T> = Vec::new();
                let mut at: usize = 0;
                proof {
                    lemma_array_value(*items);
                }
                while at < items.len()
                    invariant
                        at <= items.len(),
                        values.len() == at,
                        json.deep_view() == JsonValue::Array(items.deep_view()),
                        forall|i: int|
                            0 <= i < at ==> T::shape(#[trigger] items.deep_view()[i]) == Some(
                                values[i].deep_view(),
                            ),
                    decreases items.len() - at,
                {
                    match T::decode(&items[at]) {
                        Some(value) => {
                            values.push(value);
                        },
                        None => {
                            assert(T::shape(items.deep_view()[at as int]) is None);
                            return None;
                        },
                    }
                    at += 1;
                }
                proof {
                    let tree = items.deep_view();
                    assert(values.deep_view() =~= Seq::new(
                        tree.len(),
                        |i: int| T::shape(tree[i])->0,
                    ));
                }
                Some(values)
            },
            _ => None,
        }
    }
}

} // verus!

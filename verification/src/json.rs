//! JSON documents as a tree of plain values, and the reading of one from the
//! bytes of a response body.

use crate::text::{decimal, decimal_text, signed_decimal, signed_decimal_text};
use serde_json::Value;
use vstd::prelude::*;

verus! {

/// A JSON number: what it is as an integer, where it is one, and how it is
/// written.
#[derive(Debug)]
pub struct Number {
    /// The number, where it is an integer from zero to `u64::MAX`.
    pub unsigned: Option<u64>,
    /// The number, where it is an integer from `i64::MIN` to `i64::MAX`.
    pub signed: Option<i64>,
    /// The number in decimal notation.
    pub notation: String,
}

/// The mathematical value of a [`Number`].
pub struct NumberValue {
    pub unsigned: Option<u64>,
    pub signed: Option<i64>,
    pub notation: Seq<char>,
}

impl DeepView for Number {
    type V = NumberValue;

    open spec fn deep_view(&self) -> NumberValue {
        NumberValue { unsigned: self.unsigned, signed: self.signed, notation: self.notation@ }
    }
}

impl Clone for Number {
    fn clone(&self) -> (copy: Self)
        ensures
            copy.deep_view() == self.deep_view(),
    {
        Number { unsigned: self.unsigned, signed: self.signed, notation: self.notation.clone() }
    }
}

impl NumberValue {
    /// The integer `n`, from zero up.
    pub open spec fn of_unsigned(n: u64) -> NumberValue {
        NumberValue {
            unsigned: Some(n),
            signed: if n <= i64::MAX {
                Some(n as i64)
            } else {
                None
            },
            notation: decimal(n as nat),
        }
    }

    /// The integer `i`.
    pub open spec fn of_signed(i: i64) -> NumberValue {
        NumberValue {
            unsigned: if i >= 0 {
                Some(i as u64)
            } else {
                None
            },
            signed: Some(i),
            notation: signed_decimal(i as int),
        }
    }
}

impl Number {
    /// The number that is the integer `n`.
    pub fn from_u64(n: u64) -> (number: Number)
        ensures
            number.deep_view() == NumberValue::of_unsigned(n),
    {
        let signed = if n <= i64::MAX as u64 {
            Some(n as i64)
        } else {
            None
        };
        Number { unsigned: Some(n), signed, notation: decimal_text(n) }
    }

    /// The number that is the integer `i`.
    pub fn from_i64(i: i64) -> (number: Number)
        ensures
            number.deep_view() == NumberValue::of_signed(i),
    {
        let unsigned = if i >= 0 {
            Some(i as u64)
        } else {
            None
        };
        Number { unsigned, signed: Some(i), notation: signed_decimal_text(i) }
    }
}

/// A JSON document. The entries of an object are kept in a list; where a
/// name occurs twice, the first entry is the one that [`Json::field`] finds.
#[derive(Debug)]
pub enum Json {
    Null,
    Bool(bool),
    Number(Number),
    Text(String),
    Array(Vec<Json>),
    Object(Vec<(String, Json)>),
}

/// The mathematical value of a [`Json`] document.
pub enum JsonValue {
    Null,
    Bool(bool),
    Number(NumberValue),
    Text(Seq<char>),
    Array(Seq<JsonValue>),
    Object(Seq<(Seq<char>, JsonValue)>),
}

/// The value of a document: each item of an array and each entry of an object
/// by its own value, in the order in which the document holds them.
pub open spec fn value_of(json: Json) -> JsonValue
    decreases json,
{
    match json {
        Json::Null => JsonValue::Null,
        Json::Bool(flag) => JsonValue::Bool(flag),
        Json::Number(number) => JsonValue::Number(number.deep_view()),
        Json::Text(text) => JsonValue::Text(text@),
        Json::Array(items) => JsonValue::Array(
            Seq::new(
                items@.len(),
                |i: int|
                    if 0 <= i < items@.len() {
                        value_of(items@[i])
                    } else {
                        JsonValue::Null
                    },
            ),
        ),
        Json::Object(entries) => JsonValue::Object(
            Seq::new(
                entries@.len(),
                |i: int|
                    if 0 <= i < entries@.len() {
                        (entries@[i].0@, value_of(entries@[i].1))
                    } else {
                        (Seq::empty(), JsonValue::Null)
                    },
            ),
        ),
    }
}

impl DeepView for Json {
    type V = JsonValue;

    open spec fn deep_view(&self) -> JsonValue {
        value_of(*self)
    }
}

/// The value of the first entry of `entries` that is named `name`.
pub open spec fn lookup(entries: Seq<(Seq<char>, JsonValue)>, name: Seq<char>) -> Option<
    JsonValue,
>
    decreases entries.len(),
{
    if entries.len() == 0 {
        None
    } else if entries[0].0 == name {
        Some(entries[0].1)
    } else {
        lookup(entries.drop_first(), name)
    }
}

impl JsonValue {
    /// The member `name` of an object; `None` for a member that the object
    /// lacks and for a value that is no object.
    pub open spec fn field(self, name: Seq<char>) -> Option<JsonValue> {
        match self {
            JsonValue::Object(entries) => lookup(entries, name),
            _ => None,
        }
    }
}

/// The value of an array is the sequence of the values of its items.
pub proof fn lemma_array_value(items: Vec<Json>)
    ensures
        Json::Array(items).deep_view() == JsonValue::Array(items.deep_view()),
{
    assert(Json::Array(items).deep_view()->Array_0 =~= items.deep_view());
}

/// The value of an object is the sequence of its entries' names and values.
pub proof fn lemma_object_value(entries: Vec<(String, Json)>)
    ensures
        Json::Object(entries).deep_view() == JsonValue::Object(entries.deep_view()),
{
    assert(Json::Object(entries).deep_view()->Object_0 =~= entries.deep_view());
}

/// An entry whose name differs from `name` does not change what a lookup of
/// `name` finds among the entries from that one on.
proof fn lemma_lookup_step(entries: Seq<(Seq<char>, JsonValue)>, name: Seq<char>, from: int)
    requires
        0 <= from < entries.len(),
    ensures
        entries[from].0 == name ==> lookup(entries.skip(from), name) == Some(entries[from].1),
        entries[from].0 != name ==> lookup(entries.skip(from), name) == lookup(
            entries.skip(from + 1),
            name,
        ),
{
    let rest = entries.skip(from);
    assert(rest[0] == entries[from]);
    assert(rest.drop_first() =~= entries.skip(from + 1));
}

impl Json {
    /// The member `name` of an object.
    pub fn field(&self, name: &str) -> (member: Option<&Json>)
        ensures
            member.deep_view() == self.deep_view().field(name@),
    {
        match self {
            Json::Object(entries) => {
                let wanted = String::from_str(name);
                let mut at: usize = 0;
                proof {
                    lemma_object_value(*entries);
                    assert(entries.deep_view().skip(0) =~= entries.deep_view());
                }
                while at < entries.len()
                    invariant
                        at <= entries.len(),
                        wanted@ == name@,
                        self.deep_view().field(name@) == lookup(
                            entries.deep_view().skip(at as int),
                            name@,
                        ),
                    decreases entries.len() - at,
                {
                    proof {
                        lemma_lookup_step(entries.deep_view(), name@, at as int);
                    }
                    if entries[at].0 == wanted {
                        return Some(&entries[at].1);
                    }
                    at += 1;
                }
                None
            },
            _ => None,
        }
    }
}

/// An item of an array, and the value of an entry of an object, is smaller
/// than the document that holds it.
proof fn lemma_parts_decrease(json: Json, at: int)
    ensures
        json is Array && 0 <= at < json->Array_0.len() ==> decreases_to!(json => json->Array_0@[at]),
        json is Object && 0 <= at < json->Object_0.len() ==> decreases_to!(json => json->Object_0@[at].1),
{
    if json is Array && 0 <= at < json->Array_0.len() {
        assert(decreases_to!(json => json->Array_0));
        assert(decreases_to!(json->Array_0 => json->Array_0@[at]));
    }
    if json is Object && 0 <= at < json->Object_0.len() {
        assert(decreases_to!(json => json->Object_0));
        assert(decreases_to!(json->Object_0 => json->Object_0@[at]));
        assert(decreases_to!(json->Object_0@[at] => json->Object_0@[at].1));
    }
}

impl Clone for Json {
    fn clone(&self) -> (copy: Self)
        ensures
            copy.deep_view() == self.deep_view(),
        decreases self,
    {
        match self {
            Json::Null => Json::Null,
            Json::Bool(flag) => Json::Bool(*flag),
            Json::Number(number) => Json::Number(number.clone()),
            Json::Text(text) => Json::Text(text.clone()),
            Json::Array(items) => {
                let mut copies: Vec<Json> = Vec::new();
                let mut at: usize = 0;
                while at < items.len()
                    invariant
                        at <= items.len(),
                        copies.len() == at,
                        *self == Json::Array(*items),
                        forall|i: int|
                            0 <= i < at ==> (#[trigger] copies[i]).deep_view()
                                == items[i].deep_view(),
                    decreases items.len() - at,
                {
                    proof {
                        lemma_parts_decrease(*self, at as int);
                    }
                    copies.push(items[at].clone());
                    at += 1;
                }
                proof {
                    lemma_array_value(copies);
                    lemma_array_value(*items);
                    assert(copies.deep_view() =~= items.deep_view());
                }
                Json::Array(copies)
            },
            Json::Object(entries) => {
                let mut copies: Vec<(String, Json)> = Vec::new();
                let mut at: usize = 0;
                while at < entries.len()
                    invariant
                        at <= entries.len(),
                        copies.len() == at,
                        *self == Json::Object(*entries),
                        forall|i: int|
                            0 <= i < at ==> (#[trigger] copies[i]).deep_view()
                                == entries[i].deep_view(),
                    decreases entries.len() - at,
                {
                    proof {
                        lemma_parts_decrease(*self, at as int);
                    }
                    copies.push((entries[at].0.clone(), entries[at].1.clone()));
                    at += 1;
                }
                proof {
                    lemma_object_value(copies);
                    lemma_object_value(*entries);
                    assert(copies.deep_view() =~= entries.deep_view());
                }
                Json::Object(copies)
            },
        }
    }
}

/// `serde_json::Value`, the type of the documents that the reader of
/// serde_json hands back. Nothing of its inside is known here.
#[verifier::external_type_specification]
#[verifier::external_body]
pub struct ExValue(serde_json::Value);

/// What `serde_json::from_slice` makes of `bytes` when asked for a
/// `serde_json::Value`: the document that they spell, or the reader's
/// complaint about the first thing in them that is no JSON.
pub uninterp spec fn json_parsed(bytes: Seq<u8>) -> Result<JsonValue, Seq<char>>;

/// The document that a `serde_json::Value` holds: null, a truth value, a
/// number, a text, the items of an array or the entries of an object.
pub uninterp spec fn document_in(value: Value) -> JsonValue;

/// Calls `serde_json::from_slice` for a `serde_json::Value`. The reader is a
/// function of the bytes alone: the same bytes give the same document, or the
/// same complaint, which is the error's `Display` text.
#[verifier::external_body]
fn read_value(bytes: &[u8]) -> (outcome: Result<Value, String>)
    ensures
        match outcome {
            Ok(value) => json_parsed(bytes@) == Ok::<JsonValue, Seq<char>>(document_in(value)),
            Err(complaint) => json_parsed(bytes@) == Err::<JsonValue, Seq<char>>(complaint@),
        },
{
    serde_json::from_slice::<Value>(bytes).map_err(|error| error.to_string())
}

/// Moves the contents of a `serde_json::Value` into a [`Json`], variant by
/// variant. Of a number it keeps what `Number::as_u64` and `Number::as_i64`
/// return and the text that `Number`'s `Display` gives it.
#[verifier::external_body]
fn tree_of(value: Value) -> (json: Json)
    ensures
        json.deep_view() == document_in(value),
{
    match value {
        Value::Null => Json::Null,
        Value::Bool(flag) => Json::Bool(flag),
        Value::Number(n) => {
            Json::Number(Number { unsigned: n.as_u64(), signed: n.as_i64(), notation: n.to_string() })
        },
        Value::String(text) => Json::Text(text),
        Value::Array(items) => Json::Array(items.into_iter().map(tree_of).collect()),
        Value::Object(entries) => Json::Object(
            entries.into_iter().map(|(name, member)| (name, tree_of(member))).collect(),
        ),
    }
}

/// Reads the JSON document that `bytes` spell.
pub fn parse(bytes: &[u8]) -> (outcome: Result<Json, String>)
    ensures
        match outcome {
            Ok(json) => json_parsed(bytes@) == Ok::<JsonValue, Seq<char>>(json.deep_view()),
            Err(complaint) => json_parsed(bytes@) == Err::<JsonValue, Seq<char>>(complaint@),
        },
{
    match read_value(bytes) {
        Ok(value) => Ok(tree_of(value)),
        Err(complaint) => Err(complaint),
    }
}

} // verus!

//! JSON documents: the tree that the message schema is written against, and
//! the passage between that tree and text, which `serde_json` does.

use serde_json::Value;
use vstd::prelude::*;

verus! {

/// A JSON document as a mathematical tree. Numbers come in three shapes, as
/// `serde_json` tells them apart: a non-negative integer, a negative
/// integer, and anything else, kept as the text that stands for it.
pub enum JsonDoc {
    Null,
    Bool(bool),
    UInt(u64),
    NegInt(i64),
    Decimal(Seq<char>),
    Str(Seq<char>),
    Array(Seq<JsonDoc>),
    Object(Seq<(Seq<char>, JsonDoc)>),
}

/// A JSON document in memory. An object keeps its members in document order.
#[derive(Debug, PartialEq, Eq)]
pub enum Json {
    Null,
    Bool(bool),
    UInt(u64),
    NegInt(i64),
    Decimal(String),
    Str(String),
    Array(Vec<Json>),
    Object(Vec<(String, Json)>),
}

/// The tree that a document in memory stands for.
pub open spec fn json_doc(json: Json) -> JsonDoc
    decreases json,
{
    match json {
        Json::Null => JsonDoc::Null,
        Json::Bool(b) => JsonDoc::Bool(b),
        Json::UInt(u) => JsonDoc::UInt(u),
        Json::NegInt(i) => JsonDoc::NegInt(i),
        Json::Decimal(s) => JsonDoc::Decimal(s@),
        Json::Str(s) => JsonDoc::Str(s@),
        Json::Array(items) => JsonDoc::Array(
            Seq::new(
                items@.len(),
                |i: int|
                    if 0 <= i < items@.len() {
                        json_doc(items@[i])
                    } else {
                        JsonDoc::Null
                    },
            ),
        ),
        Json::Object(members) => JsonDoc::Object(
            Seq::new(
                members@.len(),
                |i: int|
                    if 0 <= i < members@.len() {
                        (members@[i].0@, json_doc(members@[i].1))
                    } else {
                        (Seq::empty(), JsonDoc::Null)
                    },
            ),
        ),
    }
}

impl View for Json {
    type V = JsonDoc;

    open spec fn view(&self) -> JsonDoc {
        json_doc(*self)
    }
}

/// The members of an object in memory, as the members of its tree.
pub open spec fn members_view(members: Seq<(String, Json)>) -> Seq<(Seq<char>, JsonDoc)> {
    Seq::new(members.len(), |i: int| (members[i].0@, members[i].1@))
}

/// The items of an array in memory, as the items of its tree.
pub open spec fn items_view(items: Seq<Json>) -> Seq<JsonDoc> {
    Seq::new(items.len(), |i: int| items[i]@)
}

/// An object's tree is the tree of its members, one for one.
pub proof fn lemma_object_view(members: Vec<(String, Json)>)
    ensures
        Json::Object(members)@ == JsonDoc::Object(members_view(members@)),
{
    let doc = Json::Object(members)@;
    assert forall|i: int| 0 <= i < members@.len() implies doc->Object_0[i] == members_view(
        members@,
    )[i] by {}
    assert(doc->Object_0 =~= members_view(members@));
}

/// An array's tree is the tree of its items, one for one.
pub proof fn lemma_array_view(items: Vec<Json>)
    ensures
        Json::Array(items)@ == JsonDoc::Array(items_view(items@)),
{
    let doc = Json::Array(items)@;
    assert(doc->Array_0 =~= items_view(items@));
}

/// The first member of `members` at or after index `from` whose key is `key`.
pub open spec fn member_from(
    members: Seq<(Seq<char>, JsonDoc)>,
    key: Seq<char>,
    from: int,
) -> Option<JsonDoc>
    decreases members.len() - from,
{
    if from < 0 || from >= members.len() {
        None
    } else if members[from].0 == key {
        Some(members[from].1)
    } else {
        member_from(members, key, from + 1)
    }
}

/// The first member of `members` under `key`, if there is one.
pub open spec fn member(members: Seq<(Seq<char>, JsonDoc)>, key: Seq<char>) -> Option<JsonDoc> {
    member_from(members, key, 0)
}

/// No two members of `members` share a key.
pub open spec fn keys_distinct(members: Seq<(Seq<char>, JsonDoc)>) -> bool {
    forall|i: int, j: int|
        0 <= i < j < members.len() ==> (#[trigger] members[i]).0 != (#[trigger] members[j]).0
}

/// A document that is written out and read back unchanged: keys are unique
/// within each object, a negative integer is negative, and the text of a
/// decimal is one that the parser reads as that very decimal.
pub open spec fn canonical(doc: JsonDoc) -> bool
    decreases doc,
{
    match doc {
        JsonDoc::NegInt(i) => i < 0,
        JsonDoc::Decimal(text) => json_parse(text) == Some(JsonDoc::Decimal(text)),
        JsonDoc::Array(items) => forall|i: int|
            0 <= i < items.len() ==> canonical(#[trigger] items[i]),
        JsonDoc::Object(members) => keys_distinct(members) && forall|i: int|
            0 <= i < members.len() ==> canonical((#[trigger] members[i]).1),
        _ => true,
    }
}

/// The document type of `serde_json`. Nothing of its inside is known here
/// but the document that it holds.
#[verifier::external_type_specification]
#[verifier::external_body]
pub struct ExValue(serde_json::Value);

/// The document that a `serde_json::Value` holds.
pub uninterp spec fn value_doc(value: Value) -> JsonDoc;

/// What `serde_json::from_str` makes of a text: the document it reads, or
/// `None` where it reports an error.
pub uninterp spec fn json_parse(text: Seq<char>) -> Option<JsonDoc>;

/// The text that `serde_json::to_string` writes for a document.
pub uninterp spec fn json_text(doc: JsonDoc) -> Seq<char>;

/// Calls `serde_json::from_str` for a `Value`. The contract only names the
/// outcome: the document read is `json_parse` of the text, and an error of
/// the parser is `None`.
#[verifier::external_body]
fn value_from_text(text: &str) -> (value: Option<Value>)
    ensures
        json_parse(text@) == (match value {
            Some(v) => Some(value_doc(v)),
            None => None,
        }),
{
    serde_json::from_str::<Value>(text).ok()
}

/// Copies a `serde_json::Value` into a [`Json`], variant by variant. A number
/// is told apart by `Number::as_u64` and `Number::as_i64`; one that is
/// neither is kept as the text that `Number` prints. The contract says that
/// the copy holds the document that the value holds.
#[verifier::external_body]
fn json_from_value(value: &Value) -> (json: Json)
    ensures
        json@ == value_doc(*value),
{
    match value {
        Value::Null => Json::Null,
        Value::Bool(b) => Json::Bool(*b),
        Value::Number(n) => match (n.as_u64(), n.as_i64()) {
            (Some(u), _) => Json::UInt(u),
            (None, Some(i)) => Json::NegInt(i),
            (None, None) => Json::Decimal(n.to_string()),
        },
        Value::String(s) => Json::Str(s.clone()),
        Value::Array(a) => Json::Array(a.iter().map(json_from_value).collect()),
        Value::Object(m) => Json::Object(
            m.iter().map(|(k, v)| (k.clone(), json_from_value(v))).collect(),
        ),
    }
}

/// Builds the `serde_json::Value` for a [`Json`], variant by variant. The text
/// of a decimal goes through `serde_json::from_str`. The contract claims the
/// value holds the same document where that document is canonical: an object
/// of `serde_json` keeps one member per key, in the order of insertion.
#[verifier::external_body]
fn value_from_json(json: &Json) -> (value: Value)
    ensures
        canonical(json@) ==> value_doc(value) == json@,
{
    match json {
        Json::Null => Value::Null,
        Json::Bool(b) => Value::Bool(*b),
        Json::UInt(u) => Value::from(*u),
        Json::NegInt(i) => Value::from(*i),
        Json::Decimal(text) => serde_json::from_str(text).unwrap_or(Value::Null),
        Json::Str(s) => Value::String(s.clone()),
        Json::Array(a) => Value::Array(a.iter().map(value_from_json).collect()),
        Json::Object(m) => Value::Object(
            m.iter().map(|(k, v)| (k.clone(), value_from_json(v))).collect(),
        ),
    }
}

/// Calls `serde_json::to_string` on a `Value`. The contract only names the
/// text that comes out.
#[verifier::external_body]
fn text_from_value(value: &Value) -> (text: String)
    ensures
        text@ == json_text(value_doc(*value)),
{
    serde_json::to_string(value).unwrap_or_default()
}

/// Reads a JSON text. `None` where the text is no JSON document.
pub fn parse_json(text: &str) -> (json: Option<Json>)
    ensures
        match json {
            Some(j) => json_parse(text@) == Some(j@),
            None => json_parse(text@) is None,
        },
{
    match value_from_text(text) {
        Some(value) => Some(json_from_value(&value)),
        None => None,
    }
}

/// Writes a canonical document out as compact JSON text.
pub fn print_json(json: &Json) -> (text: String)
    requires
        canonical(json@),
    ensures
        text@ == json_text(json@),
{
    let value = value_from_json(json);
    text_from_value(&value)
}

/// Looks a member of an object up by its key; the first one wins.
pub fn get_member<'a>(members: &'a Vec<(String, Json)>, key: &str) -> (found: Option<&'a Json>)
    ensures
        match found {
            Some(j) => member(members_view(members@), key@) == Some(j@),
            None => member(members_view(members@), key@) is None,
        },
{
    let wanted: String = key.to_owned();
    let mut i: usize = 0;
    while i < members.len()
        invariant
            i <= members.len(),
            wanted@ == key@,
            member(members_view(members@), key@) == member_from(
                members_view(members@),
                key@,
                i as int,
            ),
        decreases members.len() - i,
    {
        if members[i].0 == wanted {
            return Some(&members[i].1);
        }
        i += 1;
    }
    None
}

} // verus!

//! The bridge to `serde_json`, which reads JSON text and writes it.
//!
//! What this module states of `serde_json` is taken on trust. The library
//! hands text to `serde_json` and takes its documents apart one level at a
//! time; all else is done, and proved, on this side of the bridge.

use crate::json::{
    lemma_array_view, lemma_object_view, merged, normalized, normalized_values, JsonModel,
    JsonValue,
};
use vstd::prelude::*;

verus! {

/// `serde_json::Number`, a JSON number. The library never looks inside one:
/// it carries numbers from the document it reads to the document it writes.
#[verifier::external_type_specification]
#[verifier::external_body]
pub struct ExNumber(serde_json::Number);

/// `serde_json::Value`, the document type of `serde_json`. It only ever
/// stands between `serde_json` and [`JsonValue`].
#[verifier::external_type_specification]
#[verifier::external_body]
pub struct ExValue(serde_json::Value);

/// `serde_json::Error`, the report of `serde_json` on text that it rejects.
#[verifier::external_type_specification]
#[verifier::external_body]
pub struct ExJsonError(serde_json::Error);

/// `<serde_json::Number as Clone>::clone`: the copy is the same number.
pub assume_specification[ <serde_json::Number as Clone>::clone ](n: &serde_json::Number) -> (r:
    serde_json::Number)
    ensures
        r == *n,
;

/// What `serde_json::from_str` makes of `text`: the document, or nothing
/// where it rejects the text.
pub uninterp spec fn parsed(text: Seq<char>) -> Option<JsonModel>;

/// What `serde_json::to_string` writes for `doc`: JSON on a single line.
pub uninterp spec fn compact_text(doc: JsonModel) -> Option<Seq<char>>;

/// What `serde_json::to_string_pretty` writes for `doc`: indented JSON.
pub uninterp spec fn pretty_text(doc: JsonModel) -> Option<Seq<char>>;

/// What a `serde_json::Value` holds.
pub uninterp spec fn value_model(value: serde_json::Value) -> JsonModel;

/// One level of a `serde_json::Value`: its kind, with what it holds or
/// with references to the values that it is made of.
enum Opened<'a> {
    Null,
    Bool(bool),
    Number(&'a serde_json::Number),
    Text(&'a String),
    Array(&'a Vec<serde_json::Value>),
    Object(Vec<(&'a String, &'a serde_json::Value)>),
}

/// One level of a `serde_json::Value` to be made: its kind, with what it
/// is to hold or with the values that it is to be made of.
enum Closed {
    Null,
    Bool(bool),
    Number(serde_json::Number),
    Text(String),
    Array(Vec<serde_json::Value>),
    Object(Vec<(String, serde_json::Value)>),
}

/// The document that an opened value holds.
spec fn opened_model(node: Opened) -> JsonModel {
    match node {
        Opened::Null => JsonModel::Null,
        Opened::Bool(b) => JsonModel::Bool(b),
        Opened::Number(n) => JsonModel::Number(*n),
        Opened::Text(s) => JsonModel::Text(s@),
        Opened::Array(items) => JsonModel::Array(
            Seq::new(items@.len(), |i: int| value_model(items@[i])),
        ),
        Opened::Object(members) => JsonModel::Object(
            Seq::new(members@.len(), |i: int| (members@[i].0@, value_model(*members@[i].1))),
        ),
    }
}

/// The document that a value made of `node` holds. An object holds each
/// name once.
spec fn closed_model(node: Closed) -> JsonModel {
    match node {
        Closed::Null => JsonModel::Null,
        Closed::Bool(b) => JsonModel::Bool(b),
        Closed::Number(n) => JsonModel::Number(n),
        Closed::Text(s) => JsonModel::Text(s@),
        Closed::Array(items) => JsonModel::Array(
            Seq::new(items@.len(), |i: int| value_model(items@[i])),
        ),
        Closed::Object(members) => JsonModel::Object(
            merged(Seq::new(members@.len(), |i: int| (members@[i].0@, value_model(members@[i].1)))),
        ),
    }
}

/// `serde_json::from_str` at `serde_json::Value`. Trusted: the outcome is a
/// function of the text alone, named [`parsed`]; nothing is claimed about
/// which texts are accepted.
#[verifier::external_body]
pub(crate) fn parse_text(text: &str) -> (r: Result<serde_json::Value, serde_json::Error>)
    ensures
        match r {
            Ok(value) => parsed(text@) == Some(value_model(value)),
            Err(_) => parsed(text@) is None,
        },
{
    serde_json::from_str::<serde_json::Value>(text)
}

/// `serde_json::to_string` on a `serde_json::Value`. Trusted: the outcome
/// is a function of the document alone, named [`compact_text`].
#[verifier::external_body]
pub(crate) fn render_compact(value: &serde_json::Value) -> (r: Result<String, serde_json::Error>)
    ensures
        match r {
            Ok(text) => compact_text(value_model(*value)) == Some(text@),
            Err(_) => compact_text(value_model(*value)) is None,
        },
{
    serde_json::to_string(value)
}

/// `serde_json::to_string_pretty` on a `serde_json::Value`. Trusted: the
/// outcome is a function of the document alone, named [`pretty_text`].
#[verifier::external_body]
pub(crate) fn render_pretty(value: &serde_json::Value) -> (r: Result<String, serde_json::Error>)
    ensures
        match r {
            Ok(text) => pretty_text(value_model(*value)) == Some(text@),
            Err(_) => pretty_text(value_model(*value)) is None,
        },
{
    serde_json::to_string_pretty(value)
}

/// Takes a `serde_json::Value` apart, one level deep. Trusted: the kind is
/// that of the variant, a scalar is the one that the variant holds, the
/// items of an array are those of its `Vec`, and the members of an object
/// are those that `serde_json::Map::iter` hands out, in its order.
#[verifier::external_body]
fn open<'a>(value: &'a serde_json::Value) -> (r: Opened<'a>)
    ensures
        opened_model(r) == value_model(*value),
{
    match value {
        serde_json::Value::Null => Opened::Null,
        serde_json::Value::Bool(b) => Opened::Bool(*b),
        serde_json::Value::Number(n) => Opened::Number(n),
        serde_json::Value::String(s) => Opened::Text(s),
        serde_json::Value::Array(items) => Opened::Array(items),
        serde_json::Value::Object(members) => Opened::Object(members.iter().collect()),
    }
}

/// Makes a `serde_json::Value` of one level. Trusted: the value is the
/// variant of the kind with what is handed in; the map of an object is
/// collected from the members in their order, which stores each under its
/// name as `serde_json::Map::insert` does, so that a name that comes again
/// keeps its first place and takes the later value.
#[verifier::external_body]
fn close(node: Closed) -> (r: serde_json::Value)
    ensures
        value_model(r) == closed_model(node),
{
    match node {
        Closed::Null => serde_json::Value::Null,
        Closed::Bool(b) => serde_json::Value::Bool(b),
        Closed::Number(n) => serde_json::Value::Number(n),
        Closed::Text(s) => serde_json::Value::String(s),
        Closed::Array(items) => serde_json::Value::Array(items),
        Closed::Object(members) => serde_json::Value::Object(members.into_iter().collect()),
    }
}

/// Copies a document of `serde_json` into a [`JsonValue`].
pub(crate) fn lift(value: &serde_json::Value) -> (r: JsonValue)
    ensures
        r@ == value_model(*value),
    decreases value_model(*value),
{
    let node = open(value);
    match node {
        Opened::Null => JsonValue::Null,
        Opened::Bool(b) => JsonValue::Bool(b),
        Opened::Number(n) => JsonValue::Number(n.clone()),
        Opened::Text(s) => JsonValue::Text(s.clone()),
        Opened::Array(items) => {
            let ghost models = value_model(*value)->Array_0;
            let mut out: Vec<JsonValue> = Vec::new();
            let mut i: usize = 0;
            while i < items.len()
                invariant
                    value_model(*value) == JsonModel::Array(models),
                    models.len() == items.len(),
                    forall|j: int| 0 <= j < items.len() ==> models[j] == value_model(items@[j]),
                    i <= items.len(),
                    out.len() == i,
                    forall|j: int| 0 <= j < i ==> out@[j]@ == models[j],
                decreases items.len() - i,
            {
                assert(decreases_to!(value_model(*value) => value_model(*value)->Array_0));
                assert(decreases_to!(models => models[i as int]));
                out.push(lift(&items[i]));
                i += 1;
            }
            proof {
                lemma_array_view(out);
                assert(out.deep_view() =~= models);
            }
            JsonValue::Array(out)
        },
        Opened::Object(members) => {
            let ghost models = value_model(*value)->Object_0;
            let mut out: Vec<(String, JsonValue)> = Vec::new();
            let mut i: usize = 0;
            while i < members.len()
                invariant
                    value_model(*value) == JsonModel::Object(models),
                    models.len() == members.len(),
                    forall|j: int|
                        0 <= j < members.len() ==> models[j] == (
                            members@[j].0@,
                            value_model(*members@[j].1),
                        ),
                    i <= members.len(),
                    out.len() == i,
                    forall|j: int| 0 <= j < i ==> out@[j].deep_view() == models[j],
                decreases members.len() - i,
            {
                assert(decreases_to!(value_model(*value) => value_model(*value)->Object_0));
                assert(decreases_to!(models[i as int] => models[i as int].1));
                out.push((members[i].0.clone(), lift(members[i].1)));
                i += 1;
            }
            proof {
                lemma_object_view(out);
                assert(out.deep_view() =~= models);
            }
            JsonValue::Object(out)
        },
    }
}

/// Copies a [`JsonValue`] into a document of `serde_json`, which holds
/// each name once in every object.
pub(crate) fn lower(value: &JsonValue) -> (r: serde_json::Value)
    ensures
        value_model(r) == normalized(value@),
    decreases value,
{
    match value {
        JsonValue::Null => close(Closed::Null),
        JsonValue::Bool(b) => close(Closed::Bool(*b)),
        JsonValue::Number(n) => close(Closed::Number(n.clone())),
        JsonValue::Text(s) => close(Closed::Text(s.clone())),
        JsonValue::Array(items) => {
            let mut out: Vec<serde_json::Value> = Vec::new();
            let mut i: usize = 0;
            while i < items.len()
                invariant
                    *value == JsonValue::Array(*items),
                    i <= items.len(),
                    out.len() == i,
                    forall|j: int| 0 <= j < i ==> value_model(out@[j]) == normalized(items@[j]@),
                decreases items.len() - i,
            {
                assert(decreases_to!(*value => value->Array_0));
                out.push(lower(&items[i]));
                i += 1;
            }
            let r = close(Closed::Array(out));
            assert(value_model(r)->Array_0 =~= normalized(value@)->Array_0);
            r
        },
        JsonValue::Object(members) => {
            let mut out: Vec<(String, serde_json::Value)> = Vec::new();
            let mut i: usize = 0;
            while i < members.len()
                invariant
                    *value == JsonValue::Object(*members),
                    i <= members.len(),
                    out.len() == i,
                    forall|j: int|
                        0 <= j < i ==> out@[j].0@ == members@[j].0@ && value_model(out@[j].1)
                            == normalized(members@[j].1@),
                decreases members.len() - i,
            {
                assert(decreases_to!(*value => value->Object_0));
                out.push((members[i].0.clone(), lower(&members[i].1)));
                i += 1;
            }
            let ghost lowered = Seq::new(
                out@.len(),
                |i: int| (out@[i].0@, value_model(out@[i].1)),
            );
            let r = close(Closed::Object(out));
            proof {
                assert(lowered =~= normalized_values(value@->Object_0));
            }
            r
        },
    }
}

} // verus!

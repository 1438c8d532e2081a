//! JSON documents as plain data, read from text and written to text by
//! `serde_json`.

pub mod bridge;

use crate::json::bridge::{compact_text, lift, lower, parse_text, parsed, pretty_text};
use crate::json::bridge::{render_compact, render_pretty};
use crate::ordered_map::{find, lemma_position_unique, lookup, stored};
use vstd::prelude::*;

verus! {

/// The mathematical value of a JSON document. The members of an object are
/// kept in the order of the document.
pub enum JsonModel {
    Null,
    Bool(bool),
    Number(serde_json::Number),
    Text(Seq<char>),
    Array(Seq<JsonModel>),
    Object(Members),
}

/// The members of an object: keys and values, in the order of the document.
pub type Members = Seq<(Seq<char>, JsonModel)>;

/// A JSON document held in memory.
#[derive(Debug, PartialEq)]
pub enum JsonValue {
    Null,
    Bool(bool),
    Number(serde_json::Number),
    Text(String),
    Array(Vec<JsonValue>),
    Object(Vec<(String, JsonValue)>),
}

/// The mathematical value of a document held in memory.
pub open spec fn model_of(value: JsonValue) -> JsonModel
    decreases value,
{
    match value {
        JsonValue::Null => JsonModel::Null,
        JsonValue::Bool(b) => JsonModel::Bool(b),
        JsonValue::Number(n) => JsonModel::Number(n),
        JsonValue::Text(s) => JsonModel::Text(s@),
        JsonValue::Array(items) => JsonModel::Array(
            Seq::new(
                items@.len(),
                |i: int|
                    if 0 <= i < items@.len() {
                        model_of(items@[i])
                    } else {
                        JsonModel::Null
                    },
            ),
        ),
        JsonValue::Object(members) => JsonModel::Object(
            Seq::new(
                members@.len(),
                |i: int|
                    if 0 <= i < members@.len() {
                        (members@[i].0@, model_of(members@[i].1))
                    } else {
                        (Seq::<char>::empty(), JsonModel::Null)
                    },
            ),
        ),
    }
}

impl View for JsonValue {
    type V = JsonModel;

    open spec fn view(&self) -> JsonModel {
        model_of(*self)
    }
}

impl DeepView for JsonValue {
    type V = JsonModel;

    open spec fn deep_view(&self) -> JsonModel {
        self@
    }
}

/// The member `key` of an object; nothing for any other kind of value.
pub open spec fn member(doc: JsonModel, key: Seq<char>) -> Option<JsonModel> {
    match doc {
        JsonModel::Object(members) => lookup(members, key),
        _ => None,
    }
}

/// The value of an array is the list of its items' values.
pub proof fn lemma_array_view(items: Vec<JsonValue>)
    ensures
        JsonValue::Array(items)@ == JsonModel::Array(items.deep_view()),
{
    assert(JsonValue::Array(items)@->Array_0 =~= items.deep_view());
}

/// The value of an object is the list of its members' keys and values.
pub proof fn lemma_object_view(members: Vec<(String, JsonValue)>)
    ensures
        JsonValue::Object(members)@ == JsonModel::Object(members.deep_view()),
{
    assert(JsonValue::Object(members)@->Object_0 =~= members.deep_view());
}

/// The members that remain where each member is stored under its name one
/// after the other: a name that comes again keeps its first place and
/// takes the later value.
pub open spec fn merged(members: Members) -> Members
    decreases members.len(),
{
    if members.len() == 0 {
        members
    } else {
        stored(merged(members.drop_last()), members.last().0, members.last().1)
    }
}

/// `doc` with each name held once in every object, as `serde_json` holds
/// documents: see [`merged`].
pub open spec fn normalized(doc: JsonModel) -> JsonModel
    decreases doc, 1nat,
{
    match doc {
        JsonModel::Array(items) => JsonModel::Array(
            Seq::new(
                items.len(),
                |i: int|
                    if 0 <= i < items.len() {
                        normalized(items[i])
                    } else {
                        JsonModel::Null
                    },
            ),
        ),
        JsonModel::Object(members) => JsonModel::Object(merged(normalized_values(members))),
        other => other,
    }
}

/// `members` with each value normalized.
pub open spec fn normalized_values(members: Members) -> Members
    decreases members, 0nat,
{
    Seq::new(
        members.len(),
        |i: int|
            if 0 <= i < members.len() {
                (members[i].0, normalized(members[i].1))
            } else {
                (Seq::<char>::empty(), JsonModel::Null)
            },
    )
}

/// Whether no two of `members` go by the same name.
pub open spec fn names_distinct(members: Members) -> bool {
    forall|i: int, j: int| 0 <= i < j < members.len() ==> members[i].0 != members[j].0
}

/// Whether every object in `doc` holds each name once.
pub open spec fn each_name_once(doc: JsonModel) -> bool
    decreases doc,
{
    match doc {
        JsonModel::Array(items) => forall|i: int|
            0 <= i < items.len() ==> each_name_once(#[trigger] items[i]),
        JsonModel::Object(members) => names_distinct(members) && forall|i: int|
            0 <= i < members.len() ==> each_name_once((#[trigger] members[i]).1),
        _ => true,
    }
}

/// Members with distinct names stay as they are when they are merged.
pub proof fn lemma_merged_of_distinct(members: Members)
    requires
        names_distinct(members),
    ensures
        merged(members) == members,
    decreases members.len(),
{
    if members.len() > 0 {
        let before = members.drop_last();
        lemma_merged_of_distinct(before);
        assert forall|j: int| 0 <= j < before.len() implies (#[trigger] before[j]).0
            != members.last().0 by {}
        lemma_position_unique(before, members.last().0, before.len() as int);
    }
}

/// A document in which every object holds each name once is written as it
/// is.
pub proof fn lemma_normalized_of_distinct(doc: JsonModel)
    requires
        each_name_once(doc),
    ensures
        normalized(doc) == doc,
    decreases doc,
{
    match doc {
        JsonModel::Array(items) => {
            assert forall|i: int| 0 <= i < items.len() implies normalized(items[i])
                == items[i] by {
                lemma_normalized_of_distinct(items[i]);
            }
            assert(normalized(doc)->Array_0 =~= items);
        },
        JsonModel::Object(members) => {
            assert forall|i: int| 0 <= i < members.len() implies normalized(members[i].1)
                == members[i].1 by {
                lemma_normalized_of_distinct(members[i].1);
            }
            assert(normalized_values(members) =~= members);
            lemma_merged_of_distinct(members);
        },
        _ => {},
    }
}

/// The text of `doc`, indented where `pretty` is set and on one line where
/// it is not. Each object of the text holds each name once: see
/// [`normalized`].
pub open spec fn rendered(doc: JsonModel, pretty: bool) -> Option<Seq<char>> {
    if pretty {
        pretty_text(normalized(doc))
    } else {
        compact_text(normalized(doc))
    }
}

impl JsonValue {
    /// Reads a JSON document from text.
    pub fn parse(text: &str) -> (r: Result<JsonValue, serde_json::Error>)
        ensures
            match r {
                Ok(doc) => parsed(text@) == Some(doc@),
                Err(_) => parsed(text@) is None,
            },
    {
        match parse_text(text) {
            Ok(value) => Ok(lift(&value)),
            Err(error) => Err(error),
        }
    }

    /// Writes the document as text, indented where `pretty` is set.
    pub fn render(&self, pretty: bool) -> (r: Result<String, serde_json::Error>)
        ensures
            match r {
                Ok(text) => rendered(self@, pretty) == Some(text@),
                Err(_) => rendered(self@, pretty) is None,
            },
    {
        let value = lower(self);
        if pretty {
            render_pretty(&value)
        } else {
            render_compact(&value)
        }
    }

    /// Whether the value is `null`.
    pub fn is_null(&self) -> (r: bool)
        ensures
            r == (self@ is Null),
    {
        match self {
            JsonValue::Null => true,
            _ => false,
        }
    }

    /// The member `key` of an object; `None` for a key that the object
    /// lacks and for a value that is no object.
    pub fn get(&self, key: &str) -> (r: Option<&JsonValue>)
        ensures
            r.deep_view() == member(self@, key@),
    {
        match self {
            JsonValue::Object(members) => {
                proof {
                    lemma_object_view(*members);
                }
                find(members, key)
            },
            _ => None,
        }
    }

    /// A copy of the whole document.
    pub fn duplicate(&self) -> (r: JsonValue)
        ensures
            r@ == self@,
        decreases self,
    {
        match self {
            JsonValue::Null => JsonValue::Null,
            JsonValue::Bool(b) => JsonValue::Bool(*b),
            JsonValue::Number(n) => JsonValue::Number(n.clone()),
            JsonValue::Text(s) => JsonValue::Text(s.clone()),
            JsonValue::Array(items) => {
                let mut out: Vec<JsonValue> = Vec::new();
                let mut i: usize = 0;
                while i < items.len()
                    invariant
                        *self == JsonValue::Array(*items),
                        i <= items.len(),
                        out.len() == i,
                        forall|j: int| 0 <= j < i ==> out@[j]@ == items@[j]@,
                    decreases items.len() - i,
                {
                    assert(decreases_to!(*self => self->Array_0));
                    out.push(items[i].duplicate());
                    i += 1;
                }
                let r = JsonValue::Array(out);
                assert(r@->Array_0 =~= self@->Array_0);
                r
            },
            JsonValue::Object(members) => {
                let mut out: Vec<(String, JsonValue)> = Vec::new();
                let mut i: usize = 0;
                while i < members.len()
                    invariant
                        *self == JsonValue::Object(*members),
                        i <= members.len(),
                        out.len() == i,
                        forall|j: int|
                            0 <= j < i ==> out@[j].0@ == members@[j].0@ && out@[j].1@
                                == members@[j].1@,
                    decreases members.len() - i,
                {
                    assert(decreases_to!(*self => self->Object_0));
                    out.push((members[i].0.clone(), members[i].1.duplicate()));
                    i += 1;
                }
                let r = JsonValue::Object(out);
                assert(r@->Object_0 =~= self@->Object_0);
                r
            },
        }
    }
}

impl Clone for JsonValue {
    fn clone(&self) -> (r: Self)
        ensures
            r@ == self@,
    {
        self.duplicate()
    }
}

} // verus!

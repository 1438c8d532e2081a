//! How typed values are read from JSON documents and written back.

use crate::json::{lemma_array_view, lemma_object_view, JsonModel, JsonValue};
use crate::ordered_map::OrderedMap;
use vstd::prelude::*;

verus! {

/// A type whose values have a JSON shape of their own.
///
/// `of` says which documents have the shape and what value each stands
/// for; `json` is the document written for a value. Reading what was
/// written gives the value back, and no value is written as `null`.
pub trait JsonShape: DeepView + Sized {
    /// The value that `doc` stands for, or nothing where `doc` does not
    /// have the shape.
    spec fn of(doc: JsonModel) -> Option<Self::V>;

    /// The document written for `value`.
    spec fn json(value: Self::V) -> JsonModel;

    /// Reads a value from a document.
    fn decode(doc: &JsonValue) -> (r: Option<Self>)
        ensures
            r.deep_view() == Self::of(doc@),
    ;

    /// Writes the value as a document.
    fn encode(&self) -> (r: JsonValue)
        ensures
            r@ == Self::json(self.deep_view()),
    ;

    /// Reading what was written gives the value back, and what is written
    /// is never `null`.
    proof fn lemma_round_trip(value: Self::V)
        ensures
            Self::of(Self::json(value)) == Some(value),
            !(Self::json(value) is Null),
    ;
}

impl JsonShape for String {
    open spec fn of(doc: JsonModel) -> Option<Seq<char>> {
        match doc {
            JsonModel::Text(s) => Some(s),
            _ => None,
        }
    }

    open spec fn json(value: Seq<char>) -> JsonModel {
        JsonModel::Text(value)
    }

    fn decode(doc: &JsonValue) -> (r: Option<String>) {
        match doc {
            JsonValue::Text(s) => Some(s.clone()),
            _ => None,
        }
    }

    fn encode(&self) -> (r: JsonValue) {
        JsonValue::Text(self.clone())
    }

    proof fn lemma_round_trip(value: Seq<char>) {
    }
}

impl JsonShape for bool {
    open spec fn of(doc: JsonModel) -> Option<bool> {
        match doc {
            JsonModel::Bool(b) => Some(b),
            _ => None,
        }
    }

    open spec fn json(value: bool) -> JsonModel {
        JsonModel::Bool(value)
    }

    fn decode(doc: &JsonValue) -> (r: Option<bool>) {
        match doc {
            JsonValue::Bool(b) => Some(*b),
            _ => None,
        }
    }

    fn encode(&self) -> (r: JsonValue) {
        JsonValue::Bool(*self)
    }

    proof fn lemma_round_trip(value: bool) {
    }
}

/// Whether every item of `items` has the shape of `T`.
pub open spec fn all_shaped<T: JsonShape>(items: Seq<JsonModel>) -> bool {
    forall|i: int| 0 <= i < items.len() ==> (#[trigger] T::of(items[i])) is Some
}

impl<T: JsonShape> JsonShape for Vec<T> {
    open spec fn of(doc: JsonModel) -> Option<Seq<T::V>> {
        match doc {
            JsonModel::Array(items) => if all_shaped::<T>(items) {
                Some(Seq::new(items.len(), |i: int| T::of(items[i]).unwrap()))
            } else {
                None
            },
            _ => None,
        }
    }

    open spec fn json(value: Seq<T::V>) -> JsonModel {
        JsonModel::Array(Seq::new(value.len(), |i: int| T::json(value[i])))
    }

    fn decode(doc: &JsonValue) -> (r: Option<Vec<T>>) {
        match doc {
            JsonValue::Array(items) => {
                proof {
                    lemma_array_view(*items);
                }
                let ghost models = items.deep_view();
                let mut out: Vec<T> = Vec::new();
                let mut i: usize = 0;
                while i < items.len()
                    invariant
                        doc@ == JsonModel::Array(models),
                        models == items.deep_view(),
                        i <= items.len(),
                        out.len() == i,
                        forall|j: int|
                            0 <= j < i ==> (#[trigger] T::of(models[j])) == Some(
                                out@[j].deep_view(),
                            ),
                    decreases items.len() - i,
                {
                    match T::decode(&items[i]) {
                        Some(item) => {
                            out.push(item);
                        },
                        None => {
                            assert(T::of(models[i as int]) is None);
                            return None;
                        },
                    }
                    i += 1;
                }
                Some(out)
            },
            _ => None,
        }
    }

    fn encode(&self) -> (r: JsonValue) {
        let mut out: Vec<JsonValue> = Vec::new();
        let mut i: usize = 0;
        while i < self.len()
            invariant
                i <= self.len(),
                out.len() == i,
                forall|j: int| 0 <= j < i ==> out@[j]@ == T::json(#[trigger] self@[j].deep_view()),
            decreases self.len() - i,
        {
            out.push(self[i].encode());
            i += 1;
        }
        proof {
            lemma_array_view(out);
            assert(out.deep_view() =~= Self::json(self.deep_view())->Array_0);
        }
        JsonValue::Array(out)
    }

    proof fn lemma_round_trip(value: Seq<T::V>) {
        let items = Self::json(value)->Array_0;
        assert forall|i: int| 0 <= i < items.len() implies (#[trigger] T::of(items[i])) == Some(
            value[i],
        ) by {
            T::lemma_round_trip(value[i]);
        }
    }
}

/// Whether the value of every member of `members` has the shape of `T`.
pub open spec fn all_members_shaped<T: JsonShape>(members: Seq<(Seq<char>, JsonModel)>) -> bool {
    forall|i: int| 0 <= i < members.len() ==> (#[trigger] T::of(members[i].1)) is Some
}

impl<T: JsonShape> JsonShape for OrderedMap<T> {
    open spec fn of(doc: JsonModel) -> Option<Seq<(Seq<char>, T::V)>> {
        match doc {
            JsonModel::Object(members) => if all_members_shaped::<T>(members) {
                Some(
                    Seq::new(
                        members.len(),
                        |i: int| (members[i].0, T::of(members[i].1).unwrap()),
                    ),
                )
            } else {
                None
            },
            _ => None,
        }
    }

    open spec fn json(value: Seq<(Seq<char>, T::V)>) -> JsonModel {
        JsonModel::Object(Seq::new(value.len(), |i: int| (value[i].0, T::json(value[i].1))))
    }

    fn decode(doc: &JsonValue) -> (r: Option<OrderedMap<T>>) {
        match doc {
            JsonValue::Object(members) => {
                proof {
                    lemma_object_view(*members);
                }
                let ghost models = members.deep_view();
                let mut out: Vec<(String, T)> = Vec::new();
                let mut i: usize = 0;
                while i < members.len()
                    invariant
                        doc@ == JsonModel::Object(models),
                        models == members.deep_view(),
                        i <= members.len(),
                        out.len() == i,
                        forall|j: int|
                            0 <= j < i ==> (#[trigger] T::of(models[j].1)) == Some(
                                out@[j].1.deep_view(),
                            ) && out@[j].0@ == models[j].0,
                    decreases members.len() - i,
                {
                    match T::decode(&members[i].1) {
                        Some(item) => {
                            out.push((members[i].0.clone(), item));
                        },
                        None => {
                            assert(T::of(models[i as int].1) is None);
                            return None;
                        },
                    }
                    i += 1;
                }
                let r = OrderedMap { entries: out };
                Some(r)
            },
            _ => None,
        }
    }

    fn encode(&self) -> (r: JsonValue) {
        let mut out: Vec<(String, JsonValue)> = Vec::new();
        let mut i: usize = 0;
        while i < self.entries.len()
            invariant
                i <= self.entries.len(),
                out.len() == i,
                forall|j: int|
                    0 <= j < i ==> out@[j].1@ == T::json(
                        #[trigger] self.entries@[j].1.deep_view(),
                    ) && out@[j].0@ == self.entries@[j].0@,
            decreases self.entries.len() - i,
        {
            out.push((self.entries[i].0.clone(), self.entries[i].1.encode()));
            i += 1;
        }
        proof {
            lemma_object_view(out);
            assert(out.deep_view() =~= Self::json(self.deep_view())->Object_0);
        }
        JsonValue::Object(out)
    }

    proof fn lemma_round_trip(value: Seq<(Seq<char>, T::V)>) {
        let members = Self::json(value)->Object_0;
        assert forall|i: int| 0 <= i < members.len() implies (#[trigger] T::of(members[i].1))
            == Some(value[i].1) by {
            T::lemma_round_trip(value[i].1);
        }
    }
}

impl JsonShape for OrderedMap<JsonValue> {
    open spec fn of(doc: JsonModel) -> Option<Seq<(Seq<char>, JsonModel)>> {
        match doc {
            JsonModel::Object(members) => Some(members),
            _ => None,
        }
    }

    open spec fn json(value: Seq<(Seq<char>, JsonModel)>) -> JsonModel {
        JsonModel::Object(value)
    }

    fn decode(doc: &JsonValue) -> (r: Option<OrderedMap<JsonValue>>) {
        match doc {
            JsonValue::Object(members) => {
                proof {
                    lemma_object_view(*members);
                }
                Some(OrderedMap { entries: duplicate_members(members) })
            },
            _ => None,
        }
    }

    fn encode(&self) -> (r: JsonValue) {
        let members = duplicate_members(&self.entries);
        proof {
            lemma_object_view(members);
        }
        JsonValue::Object(members)
    }

    proof fn lemma_round_trip(value: Seq<(Seq<char>, JsonModel)>) {
    }
}

/// A copy of a list of members.
pub fn duplicate_members(members: &Vec<(String, JsonValue)>) -> (r: Vec<(String, JsonValue)>)
    ensures
        r.deep_view() == members.deep_view(),
{
    let mut out: Vec<(String, JsonValue)> = Vec::new();
    let mut i: usize = 0;
    while i < members.len()
        invariant
            i <= members.len(),
            out.len() == i,
            forall|j: int|
                0 <= j < i ==> (#[trigger] out@[j]).deep_view() == members@[j].deep_view(),
        decreases members.len() - i,
    {
        out.push((members[i].0.clone(), members[i].1.duplicate()));
        i += 1;
    }
    out
}

/// What an attribute that the document must hold stands for: nothing where
/// it is missing or has another shape.
pub open spec fn required_of<T: JsonShape>(slot: Option<JsonModel>) -> Option<T::V> {
    match slot {
        Some(doc) => T::of(doc),
        None => None,
    }
}

/// What an attribute that the document may lack stands for. A missing
/// attribute and `null` stand for absence; nothing where the attribute has
/// another shape.
pub open spec fn optional_of<T: JsonShape>(slot: Option<JsonModel>) -> Option<Option<T::V>> {
    match slot {
        None => Some(None),
        Some(JsonModel::Null) => Some(None),
        Some(doc) => match T::of(doc) {
            Some(value) => Some(Some(value)),
            None => None,
        },
    }
}

/// What an attribute with a default stands for: the default where it is
/// missing; nothing where it has another shape.
pub open spec fn defaulted_of<T: JsonShape>(slot: Option<JsonModel>, default: T::V) -> Option<
    T::V,
> {
    match slot {
        Some(doc) => T::of(doc),
        None => Some(default),
    }
}

/// The document written for an attribute that may be absent.
pub open spec fn optional_json<T: JsonShape>(value: Option<T::V>) -> Option<JsonModel> {
    match value {
        Some(v) => Some(T::json(v)),
        None => None,
    }
}

/// The document written for an absent member of a record: `null`.
pub open spec fn nullable_json<T: JsonShape>(value: Option<T::V>) -> JsonModel {
    match value {
        Some(v) => T::json(v),
        None => JsonModel::Null,
    }
}

/// Reads an attribute that the document must hold.
pub fn decode_required<T: JsonShape>(slot: Option<&JsonValue>) -> (r: Option<T>)
    ensures
        r.deep_view() == required_of::<T>(slot.deep_view()),
{
    match slot {
        Some(doc) => T::decode(doc),
        None => None,
    }
}

/// Reads an attribute that the document may lack.
pub fn decode_optional<T: JsonShape>(slot: Option<&JsonValue>) -> (r: Option<Option<T>>)
    ensures
        r.deep_view() == optional_of::<T>(slot.deep_view()),
{
    match slot {
        None => Some(None),
        Some(doc) => {
            if doc.is_null() {
                Some(None)
            } else {
                match T::decode(doc) {
                    Some(value) => Some(Some(value)),
                    None => None,
                }
            }
        },
    }
}

/// Reads an attribute with a default.
pub fn decode_defaulted<T: JsonShape>(slot: Option<&JsonValue>, default: T) -> (r: Option<T>)
    ensures
        r.deep_view() == defaulted_of::<T>(slot.deep_view(), default.deep_view()),
{
    match slot {
        Some(doc) => T::decode(doc),
        None => Some(default),
    }
}

/// Writes an attribute that may be absent.
pub fn encode_optional<T: JsonShape>(value: &Option<T>) -> (r: Option<JsonValue>)
    ensures
        r.deep_view() == optional_json::<T>(value.deep_view()),
{
    match value {
        Some(v) => Some(v.encode()),
        None => None,
    }
}

/// Writes a member of a record that may be absent.
pub fn encode_nullable<T: JsonShape>(value: &Option<T>) -> (r: JsonValue)
    ensures
        r@ == nullable_json::<T>(value.deep_view()),
{
    match value {
        Some(v) => v.encode(),
        None => JsonValue::Null,
    }
}

/// An absent attribute is read back as absent and a present one as itself.
pub proof fn lemma_optional_round_trip<T: JsonShape>(value: Option<T::V>)
    ensures
        optional_of::<T>(optional_json::<T>(value)) == Some(value),
        optional_of::<T>(Some(nullable_json::<T>(value))) == Some(value),
{
    if let Some(v) = value {
        T::lemma_round_trip(v);
    }
}

} // verus!

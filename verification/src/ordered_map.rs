//! A map from text keys to values that remembers the order of insertion.

use crate::text::same_text;
use vstd::prelude::*;

verus! {

/// The index of the first entry of `entries` whose key is `key`, or
/// `entries.len()` when no entry has that key.
pub open spec fn position<V>(entries: Seq<(Seq<char>, V)>, key: Seq<char>) -> int
    decreases entries.len(),
{
    if entries.len() == 0 {
        0
    } else if entries[0].0 == key {
        0
    } else {
        1 + position(entries.drop_first(), key)
    }
}

/// The value of the first entry of `entries` whose key is `key`.
pub open spec fn lookup<V>(entries: Seq<(Seq<char>, V)>, key: Seq<char>) -> Option<V> {
    let i = position(entries, key);
    if i < entries.len() {
        Some(entries[i].1)
    } else {
        None
    }
}

/// `entries` with `value` stored under `key`: in place of the first entry
/// with that key, or at the end when there is none.
pub open spec fn stored<V>(entries: Seq<(Seq<char>, V)>, key: Seq<char>, value: V) -> Seq<
    (Seq<char>, V),
> {
    let i = position(entries, key);
    if i < entries.len() {
        entries.update(i, (key, value))
    } else {
        entries.push((key, value))
    }
}

/// `position` lies within bounds, points at an entry with the key, and no
/// earlier entry has the key.
pub proof fn lemma_position<V>(entries: Seq<(Seq<char>, V)>, key: Seq<char>)
    ensures
        0 <= position(entries, key) <= entries.len(),
        position(entries, key) < entries.len() ==> entries[position(entries, key)].0 == key,
        forall|j: int| 0 <= j < position(entries, key) ==> (#[trigger] entries[j]).0 != key,
    decreases entries.len(),
{
    if entries.len() != 0 && entries[0].0 != key {
        let rest = entries.drop_first();
        lemma_position(rest, key);
        assert forall|j: int| 0 <= j < position(entries, key) implies (#[trigger] entries[j]).0
            != key by {
            if j > 0 {
                assert(entries[j] == rest[j - 1]);
            }
        }
    }
}

/// An index with the properties of `position` is `position`.
pub proof fn lemma_position_unique<V>(entries: Seq<(Seq<char>, V)>, key: Seq<char>, i: int)
    requires
        0 <= i <= entries.len(),
        i < entries.len() ==> entries[i].0 == key,
        forall|j: int| 0 <= j < i ==> (#[trigger] entries[j]).0 != key,
    ensures
        position(entries, key) == i,
    decreases entries.len(),
{
    if entries.len() != 0 && i != 0 {
        let rest = entries.drop_first();
        assert forall|j: int| 0 <= j < i - 1 implies (#[trigger] rest[j]).0 != key by {}
        lemma_position_unique(rest, key, i - 1);
    }
}

/// The entry at `i` answers for its key where no earlier entry has it.
pub proof fn lemma_lookup_at<V>(entries: Seq<(Seq<char>, V)>, key: Seq<char>, i: int)
    requires
        0 <= i < entries.len(),
        entries[i].0 == key,
        forall|j: int| 0 <= j < i ==> (#[trigger] entries[j]).0 != key,
    ensures
        lookup(entries, key) == Some(entries[i].1),
{
    lemma_position_unique(entries, key, i);
}

/// A key that no entry has is answered by nothing.
pub proof fn lemma_lookup_absent<V>(entries: Seq<(Seq<char>, V)>, key: Seq<char>)
    requires
        forall|j: int| 0 <= j < entries.len() ==> (#[trigger] entries[j]).0 != key,
    ensures
        lookup(entries, key) is None,
{
    lemma_position_unique(entries, key, entries.len() as int);
}

/// Looking a key up in two lists laid end to end: the first list answers
/// where it holds the key, the second where it does not.
pub proof fn lemma_lookup_concat<V>(
    front: Seq<(Seq<char>, V)>,
    back: Seq<(Seq<char>, V)>,
    key: Seq<char>,
)
    ensures
        lookup(front + back, key) == if lookup(front, key) is Some {
            lookup(front, key)
        } else {
            lookup(back, key)
        },
{
    let all = front + back;
    lemma_position(front, key);
    lemma_position(back, key);
    let i = position(front, key);
    if i < front.len() {
        assert forall|j: int| 0 <= j < i implies (#[trigger] all[j]).0 != key by {}
        lemma_position_unique(all, key, i);
    } else {
        let k = position(back, key);
        assert forall|j: int| 0 <= j < front.len() + k implies (#[trigger] all[j]).0 != key by {}
        lemma_position_unique(all, key, front.len() + k);
    }
}
/// The index of the first entry whose key is `key`.
pub fn find_index<V: DeepView>(entries: &Vec<(String, V)>, key: &str) -> (r: Option<usize>)
    ensures
        match r {
            Some(i) => i < entries.len() && i == position(entries.deep_view(), key@),
            None => position(entries.deep_view(), key@) == entries.len(),
        },
{
    let mut i: usize = 0;
    while i < entries.len()
        invariant
            i <= entries.len(),
            forall|j: int| 0 <= j < i ==> (#[trigger] entries.deep_view()[j]).0 != key@,
        decreases entries.len() - i,
    {
        if same_text(entries[i].0.as_str(), key) {
            proof {
                lemma_position_unique(entries.deep_view(), key@, i as int);
            }
            return Some(i);
        }
        i += 1;
    }
    proof {
        lemma_position_unique(entries.deep_view(), key@, entries.len() as int);
    }
    None
}

/// The value of the first entry whose key is `key`.
pub fn find<'a, V: DeepView>(entries: &'a Vec<(String, V)>, key: &str) -> (r: Option<&'a V>)
    ensures
        r.deep_view() == lookup(entries.deep_view(), key@),
{
    match find_index(entries, key) {
        Some(i) => Some(&entries[i].1),
        None => None,
    }
}

/// A map from text keys to values, kept in the order in which the keys
/// were first stored.
///
/// A key is answered by its first entry; `insert` never adds a second
/// entry for a key that is already there.
#[derive(Debug, PartialEq)]
pub struct OrderedMap<V> {
    pub entries: Vec<(String, V)>,
}

impl<V: DeepView> View for OrderedMap<V> {
    type V = Seq<(Seq<char>, V::V)>;

    open spec fn view(&self) -> Self::V {
        self.entries.deep_view()
    }
}

impl<V: DeepView> DeepView for OrderedMap<V> {
    type V = Seq<(Seq<char>, V::V)>;

    open spec fn deep_view(&self) -> Self::V {
        self.entries.deep_view()
    }
}

impl<V: DeepView> OrderedMap<V> {
    /// A map without entries.
    pub fn new() -> (r: Self)
        ensures
            r@ == Seq::<(Seq<char>, V::V)>::empty(),
    {
        OrderedMap { entries: Vec::new() }
    }

    /// The number of entries.
    pub fn len(&self) -> (r: usize)
        ensures
            r == self@.len(),
    {
        self.entries.len()
    }

    /// Whether the map has no entry.
    pub fn is_empty(&self) -> (r: bool)
        ensures
            r == (self@.len() == 0),
    {
        self.entries.len() == 0
    }

    /// Whether some entry has the key `key`.
    pub fn contains_key(&self, key: &str) -> (r: bool)
        ensures
            r == lookup(self@, key@).is_some(),
    {
        find_index(&self.entries, key).is_some()
    }

    /// The value stored under `key`.
    pub fn get(&self, key: &str) -> (r: Option<&V>)
        ensures
            r.deep_view() == lookup(self@, key@),
    {
        find(&self.entries, key)
    }

    /// Stores `value` under `key` and returns the value it replaces.
    pub fn insert(&mut self, key: String, value: V) -> (r: Option<V>)
        ensures
            final(self)@ == stored(old(self)@, key@, value.deep_view()),
            r.deep_view() == lookup(old(self)@, key@),
    {
        match find_index(&self.entries, key.as_str()) {
            Some(i) => {
                let ghost before = self.entries.deep_view();
                let ghost stored_value = value.deep_view();
                let mut held = value;
                let slot = &mut self.entries[i];
                core::mem::swap(&mut slot.1, &mut held);
                proof {
                    lemma_position(before, key@);
                    assert(self.entries.deep_view() =~= before.update(
                        i as int,
                        (key@, stored_value),
                    ));
                }
                Some(held)
            },
            None => {
                self.entries.push((key, value));
                None
            },
        }
    }
}

} // verus!

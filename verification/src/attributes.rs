//! Attribute sets: the key/value pairs attached to a stored item.

use vstd::prelude::*;
use vstd::string::*;
use crate::text::same_text;

verus! {

/// The mathematical content of an attribute set.
pub type AttributeMap = Map<Seq<char>, Seq<char>>;

/// The mapping that a list of pairs stands for: each pair binds its key, and
/// a later pair wins over an earlier one with the same key.
pub open spec fn map_of(entries: Seq<(String, String)>) -> AttributeMap
    decreases entries.len(),
{
    if entries.len() == 0 {
        Map::empty()
    } else {
        map_of(entries.drop_last()).insert(entries.last().0@, entries.last().1@)
    }
}

/// No key occurs in two pairs.
pub open spec fn distinct_keys(entries: Seq<(String, String)>) -> bool {
    forall|i: int, j: int| 0 <= i < j < entries.len() ==> entries[i].0@ != entries[j].0@
}

/// Whether some pair of `entries` has the key `key`.
pub open spec fn binds(entries: Seq<(String, String)>, key: Seq<char>) -> bool {
    exists|i: int| 0 <= i < entries.len() && #[trigger] entries[i].0@ == key
}

/// A key is in the mapping exactly when a pair binds it.
pub proof fn lemma_map_of_domain(entries: Seq<(String, String)>, key: Seq<char>)
    ensures
        map_of(entries).contains_key(key) <==> binds(entries, key),
    decreases entries.len(),
{
    if entries.len() > 0 {
        let front = entries.drop_last();
        lemma_map_of_domain(front, key);
        if binds(entries, key) {
            let i = choose|i: int| 0 <= i < entries.len() && #[trigger] entries[i].0@ == key;
            if i < entries.len() - 1 {
                assert(front[i].0@ == key);
            }
        }
    }
}

/// With distinct keys, every pair's value is the one the mapping gives.
pub proof fn lemma_map_of_value(entries: Seq<(String, String)>, i: int)
    requires
        distinct_keys(entries),
        0 <= i < entries.len(),
    ensures
        map_of(entries).contains_key(entries[i].0@),
        map_of(entries)[entries[i].0@] == entries[i].1@,
    decreases entries.len(),
{
    if i < entries.len() - 1 {
        lemma_map_of_value(entries.drop_last(), i);
    }
}

/// Replacing the value of a pair whose key is `key` rebinds that key and
/// nothing else.
pub proof fn lemma_map_of_update(
    entries: Seq<(String, String)>,
    i: int,
    pair: (String, String),
)
    requires
        distinct_keys(entries),
        0 <= i < entries.len(),
        entries[i].0@ == pair.0@,
    ensures
        distinct_keys(entries.update(i, pair)),
        map_of(entries.update(i, pair)) == map_of(entries).insert(pair.0@, pair.1@),
    decreases entries.len(),
{
    let changed = entries.update(i, pair);
    let front = entries.drop_last();
    if i == entries.len() - 1 {
        assert(changed.drop_last() =~= front);
    } else {
        lemma_map_of_update(front, i, pair);
        assert(changed.drop_last() =~= front.update(i, pair));
    }
}

/// With distinct keys, the mapping has as many keys as there are pairs.
pub proof fn lemma_map_of_len(entries: Seq<(String, String)>)
    requires
        distinct_keys(entries),
    ensures
        map_of(entries).dom().finite(),
        map_of(entries).dom().len() == entries.len(),
    decreases entries.len(),
{
    if entries.len() > 0 {
        let front = entries.drop_last();
        lemma_map_of_len(front);
        lemma_map_of_domain(front, entries.last().0@);
    }
}

/// The daemon's search rule: an item is found when every attribute of the
/// predicate is an attribute of the item, with the same value. The item may
/// have attributes beyond those.
pub open spec fn satisfies(stored: AttributeMap, predicate: AttributeMap) -> bool {
    forall|key: Seq<char>| #[trigger]
        predicate.contains_key(key) ==> stored.contains_key(key) && stored[key] == predicate[key]
}

/// A finite mapping from attribute names to attribute values, with unique
/// names.
#[derive(Debug)]
pub struct Attributes {
    entries: Vec<(String, String)>,
}

impl View for Attributes {
    type V = AttributeMap;

    closed spec fn view(&self) -> AttributeMap {
        map_of(self.entries@)
    }
}

impl Attributes {
    #[verifier::type_invariant]
    spec fn well_formed(&self) -> bool {
        distinct_keys(self.entries@)
    }

    /// The empty attribute set.
    pub fn new() -> (empty: Attributes)
        ensures
            empty@ == AttributeMap::empty(),
    {
        Attributes { entries: Vec::new() }
    }

    /// The number of attributes.
    pub fn len(&self) -> (n: usize)
        ensures
            self@.dom().finite(),
            n == self@.dom().len(),
    {
        proof {
            use_type_invariant(self);
            lemma_map_of_len(self.entries@);
        }
        self.entries.len()
    }

    fn position(&self, key: &str) -> (found: Option<usize>)
        ensures
            match found {
                Some(i) => i < self.entries@.len() && self.entries@[i as int].0@ == key@,
                None => !binds(self.entries@, key@),
            },
    {
        let mut i: usize = 0;
        while i < self.entries.len()
            invariant
                i <= self.entries@.len(),
                forall|j: int| 0 <= j < i ==> self.entries@[j].0@ != key@,
            decreases self.entries@.len() - i,
        {
            if same_text(self.entries[i].0.as_str(), key) {
                return Some(i);
            }
            i += 1;
        }
        None
    }

    /// Whether `key` has a value.
    pub fn contains_key(&self, key: &str) -> (present: bool)
        ensures
            present == self@.contains_key(key@),
    {
        proof {
            lemma_map_of_domain(self.entries@, key@);
        }
        self.position(key).is_some()
    }

    /// The value of `key`, if it has one.
    pub fn get(&self, key: &str) -> (value: Option<&String>)
        ensures
            match value {
                Some(v) => self@.contains_key(key@) && v@ == self@[key@],
                None => !self@.contains_key(key@),
            },
    {
        proof {
            use_type_invariant(self);
            lemma_map_of_domain(self.entries@, key@);
        }
        match self.position(key) {
            Some(i) => {
                proof {
                    lemma_map_of_value(self.entries@, i as int);
                }
                Some(&self.entries[i].1)
            },
            None => None,
        }
    }

    /// Binds `key` to `value`, replacing any value that `key` had.
    pub fn insert(&mut self, key: String, value: String)
        ensures
            final(self)@ == old(self)@.insert(key@, value@),
    {
        proof {
            use_type_invariant(&*self);
        }
        let found = self.position(key.as_str());
        let mut entries: Vec<(String, String)> = Vec::new();
        std::mem::swap(&mut entries, &mut self.entries);
        let ghost before = entries@;
        match found {
            Some(i) => {
                proof {
                    lemma_map_of_update(before, i as int, (key, value));
                }
                entries.set(i, (key, value));
            },
            None => {
                entries.push((key, value));
                assert(entries@.drop_last() =~= before);
            },
        }
        self.entries = entries;
    }

    /// The pairs of this set, each key once, in no particular order.
    pub fn entries(&self) -> (pairs: &Vec<(String, String)>)
        ensures
            distinct_keys(pairs@),
            map_of(pairs@) == self@,
    {
        proof {
            use_type_invariant(self);
        }
        &self.entries
    }

    /// This set overlaid with `newer`: a key of `newer` takes its value from
    /// `newer`, every other key keeps the value it has here.
    pub fn overlay(&self, newer: &Attributes) -> (merged: Attributes)
        ensures
            merged@ == self@.union_prefer_right(newer@),
    {
        let mut merged = self.clone();
        let mut i: usize = 0;
        while i < newer.entries.len()
            invariant
                i <= newer.entries@.len(),
                merged@ == self@.union_prefer_right(map_of(newer.entries@.take(i as int))),
            decreases newer.entries@.len() - i,
        {
            let key = newer.entries[i].0.clone();
            let value = newer.entries[i].1.clone();
            merged.insert(key, value);
            assert(newer.entries@.take(i + 1).drop_last() =~= newer.entries@.take(i as int));
            i += 1;
        }
        assert(newer.entries@.take(i as int) =~= newer.entries@);
        merged
    }
}

impl Clone for Attributes {
    fn clone(&self) -> (copy: Attributes)
        ensures
            copy@ == self@,
    {
        proof {
            use_type_invariant(self);
        }
        let mut entries: Vec<(String, String)> = Vec::new();
        let mut i: usize = 0;
        while i < self.entries.len()
            invariant
                i <= self.entries@.len(),
                entries@ == self.entries@.take(i as int),
            decreases self.entries@.len() - i,
        {
            let key = self.entries[i].0.clone();
            let value = self.entries[i].1.clone();
            entries.push((key, value));
            i += 1;
        }
        assert(entries@ =~= self.entries@);
        Attributes { entries }
    }
}

} // verus!

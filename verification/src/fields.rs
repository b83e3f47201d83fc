//! A small map from text to text that keeps its entries in the order in which
//! their keys first came, and never holds a key twice.

use crate::json::{json_object_text, json_string_fields, read_string_fields, write_object};
use crate::text::text_eq;
use vstd::prelude::*;

verus! {

/// An entry as specifications see it: the key's and the value's characters.
pub type Entry = (Seq<char>, Seq<char>);

/// The value of the first entry under `key`, if there is one.
pub open spec fn lookup(entries: Seq<Entry>, key: Seq<char>) -> Option<Seq<char>>
    decreases entries.len(),
{
    if entries.len() == 0 {
        None
    } else {
        match lookup(entries.drop_last(), key) {
            Some(value) => Some(value),
            None => if entries.last().0 == key {
                Some(entries.last().1)
            } else {
                None
            },
        }
    }
}

/// No key occurs in two entries.
pub open spec fn distinct_keys(entries: Seq<Entry>) -> bool {
    forall|i: int, j: int|
        0 <= i < j < entries.len() ==> (#[trigger] entries[i]).0 != (#[trigger] entries[j]).0
}

/// The entries as a map from key to value; where a key occurs more than
/// once, its first entry counts.
pub open spec fn as_map(entries: Seq<Entry>) -> Map<Seq<char>, Seq<char>> {
    Map::new(
        |key: Seq<char>| lookup(entries, key) is Some,
        |key: Seq<char>| lookup(entries, key)->0,
    )
}

/// The characters of each key and value of a vector of owned pairs.
pub open spec fn pairs_text(pairs: Seq<(String, String)>) -> Seq<Entry> {
    pairs.map_values(|pair: (String, String)| (pair.0@, pair.1@))
}

/// `lookup` finds a key exactly when some entry holds it, and then gives the
/// value of the first such entry.
pub proof fn lemma_lookup_first(entries: Seq<Entry>, key: Seq<char>)
    ensures
        lookup(entries, key) is Some <==> exists|i: int|
            0 <= i < entries.len() && (#[trigger] entries[i]).0 == key,
        forall|i: int|
            0 <= i < entries.len() && (#[trigger] entries[i]).0 == key && (forall|j: int|
                0 <= j < i ==> (#[trigger] entries[j]).0 != key) ==> lookup(entries, key) == Some(
                entries[i].1,
            ),
    decreases entries.len(),
{
    if entries.len() > 0 {
        let init = entries.drop_last();
        let last = entries.len() - 1;
        lemma_lookup_first(init, key);
        if lookup(init, key) is None && entries[last].0 != key {
            assert forall|i: int| 0 <= i < entries.len() implies (#[trigger] entries[i]).0
                != key by {
                if i < last {
                    assert(init[i].0 != key);
                }
            }
        }
        assert forall|i: int|
            0 <= i < entries.len() && (#[trigger] entries[i]).0 == key && (forall|j: int|
                0 <= j < i ==> (#[trigger] entries[j]).0 != key) implies lookup(entries, key)
            == Some(entries[i].1) by {
            if i < last {
                assert(init[i].0 == key);
            }
        }
    }
}

/// The pairs without those whose key came earlier: of each key the first
/// pair stays, in the order of arrival.
pub open spec fn first_seen(pairs: Seq<Entry>) -> Seq<Entry>
    decreases pairs.len(),
{
    if pairs.len() == 0 {
        Seq::empty()
    } else {
        let kept = first_seen(pairs.drop_last());
        if lookup(kept, pairs.last().0) is Some {
            kept
        } else {
            kept.push(pairs.last())
        }
    }
}

/// Under every key, what `first_seen` keeps is the value that came first.
pub proof fn lemma_first_seen_wins(pairs: Seq<Entry>, key: Seq<char>)
    ensures
        lookup(first_seen(pairs), key) == lookup(pairs, key),
    decreases pairs.len(),
{
    if pairs.len() > 0 {
        let kept = first_seen(pairs.drop_last());
        lemma_first_seen_wins(pairs.drop_last(), key);
        lemma_first_seen_wins(pairs.drop_last(), pairs.last().0);
        if lookup(kept, pairs.last().0) is None {
            assert(kept.push(pairs.last()).drop_last() =~= kept);
        }
    }
}

/// `first_seen` keeps no key twice.
pub proof fn lemma_first_seen_distinct(pairs: Seq<Entry>)
    ensures
        distinct_keys(first_seen(pairs)),
    decreases pairs.len(),
{
    if pairs.len() > 0 {
        let kept = first_seen(pairs.drop_last());
        let last = pairs.last();
        lemma_first_seen_distinct(pairs.drop_last());
        if lookup(kept, last.0) is None {
            lemma_lookup_first(kept, last.0);
        }
    }
}

/// Read as maps, the pairs and what `first_seen` keeps of them are the same.
pub proof fn lemma_first_seen_map(pairs: Seq<Entry>)
    ensures
        as_map(first_seen(pairs)) == as_map(pairs),
{
    assert forall|key: Seq<char>| lookup(first_seen(pairs), key) == lookup(pairs, key) by {
        lemma_first_seen_wins(pairs, key);
    }
}

/// A map from text to text, in the order in which the keys first came.
pub struct TextMap {
    entries: Vec<(String, String)>,
}

impl View for TextMap {
    type V = Map<Seq<char>, Seq<char>>;

    open spec fn view(&self) -> Map<Seq<char>, Seq<char>> {
        as_map(self.entries())
    }
}

impl TextMap {
    /// The entries, oldest key first.
    pub closed spec fn entries(&self) -> Seq<Entry> {
        pairs_text(self.entries@)
    }

    #[verifier::type_invariant]
    spec fn no_key_twice(&self) -> bool {
        distinct_keys(self.entries())
    }

    /// A map without entries.
    pub fn new() -> (map: TextMap)
        ensures
            map.entries() == Seq::<Entry>::empty(),
            map@ == Map::<Seq<char>, Seq<char>>::empty(),
    {
        TextMap { entries: Vec::new() }
    }

    /// The number of entries.
    pub fn len(&self) -> (n: usize)
        ensures
            n == self.entries().len(),
    {
        self.entries.len()
    }

    /// The value stored under `key`.
    pub fn get(&self, key: &str) -> (found: Option<&String>)
        ensures
            match found {
                Some(value) => lookup(self.entries(), key@) == Some(value@),
                None => lookup(self.entries(), key@) is None,
            },
            found is Some <==> self@.dom().contains(key@),
            found matches Some(value) ==> self@[key@] == value@,
    {
        let mut i: usize = 0;
        while i < self.entries.len()
            invariant
                i <= self.entries@.len(),
                forall|j: int| 0 <= j < i ==> (#[trigger] self.entries()[j]).0 != key@,
            decreases self.entries@.len() - i,
        {
            if text_eq(self.entries[i].0.as_str(), key) {
                proof {
                    assert(self.entries()[i as int].0 == key@);
                    lemma_lookup_first(self.entries(), key@);
                }
                return Some(&self.entries[i].1);
            }
            i += 1;
        }
        proof {
            lemma_lookup_first(self.entries(), key@);
        }
        None
    }

    /// Whether an entry is stored under `key`.
    pub fn contains_key(&self, key: &str) -> (held: bool)
        ensures
            held == self@.dom().contains(key@),
            held == (lookup(self.entries(), key@) is Some),
    {
        self.get(key).is_some()
    }

    /// Stores `value` under `key` unless the key is held already; an entry
    /// that is there stays as it is.
    pub fn insert_if_absent(&mut self, key: String, value: String)
        ensures
            final(self).entries() == if lookup(old(self).entries(), key@) is Some {
                old(self).entries()
            } else {
                old(self).entries().push((key@, value@))
            },
            final(self)@ == if old(self)@.dom().contains(key@) {
                old(self)@
            } else {
                old(self)@.insert(key@, value@)
            },
    {
        if self.contains_key(key.as_str()) {
            return ;
        }
        proof {
            use_type_invariant(&*self);
            lemma_lookup_first(self.entries(), key@);
        }
        let ghost before = self.entries();
        let ghost added = (key@, value@);
        // The vector is moved out while it grows, so that the map never
        // holds a half-made state.
        let mut entries: Vec<(String, String)> = Vec::new();
        std::mem::swap(&mut self.entries, &mut entries);
        entries.push((key, value));
        proof {
            let after = pairs_text(entries@);
            assert(after.drop_last() =~= before);
            assert forall|i: int, j: int| 0 <= i < j < after.len() implies (#[trigger] after[i]).0
                != (#[trigger] after[j]).0 by {
                if j < before.len() {
                    assert(before[i].0 != before[j].0);
                } else {
                    assert(before[i].0 != added.0);
                }
            }
        }
        self.entries = entries;
    }

    /// The map of `pairs`, where of each key the first pair counts.
    pub fn from_pairs(pairs: &Vec<(String, String)>) -> (map: TextMap)
        ensures
            map.entries() == first_seen(pairs_text(pairs@)),
            map@ == as_map(pairs_text(pairs@)),
    {
        let ghost all = pairs_text(pairs@);
        let mut map = TextMap::new();
        let mut i: usize = 0;
        while i < pairs.len()
            invariant
                i <= pairs@.len(),
                all == pairs_text(pairs@),
                map.entries() == first_seen(all.take(i as int)),
            decreases pairs@.len() - i,
        {
            proof {
                assert(all.take(i + 1).drop_last() =~= all.take(i as int));
            }
            map.insert_if_absent(pairs[i].0.clone(), pairs[i].1.clone());
            i += 1;
        }
        proof {
            assert(all.take(i as int) =~= all);
            lemma_first_seen_map(all);
        }
        map
    }

    /// The map that `body` holds as a JSON object of strings; `None` where
    /// `body` is no such object.
    pub fn from_json(body: &[u8]) -> (map: Option<TextMap>)
        ensures
            match map {
                Some(m) => json_string_fields(body@) == Some(m@),
                None => json_string_fields(body@) is None,
            },
    {
        match read_string_fields(body) {
            Some(pairs) => Some(TextMap::from_pairs(&pairs)),
            None => None,
        }
    }

    /// The map as one line of JSON: an object with a string member for each
    /// entry; `None` where the map cannot be written so.
    pub fn json_line(&self) -> (line: Option<String>)
        ensures
            match line {
                Some(l) => json_object_text(self@) == Some(l@),
                None => json_object_text(self@) is None,
            },
    {
        proof {
            use_type_invariant(self);
        }
        write_object(&self.entries)
    }

    /// The entries, oldest key first.
    pub fn pairs(&self) -> (pairs: &Vec<(String, String)>)
        ensures
            pairs_text(pairs@) == self.entries(),
            distinct_keys(self.entries()),
    {
        proof {
            use_type_invariant(self);
        }
        &self.entries
    }
}

} // verus!

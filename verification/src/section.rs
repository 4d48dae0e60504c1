//! One section of a theme document: slot names mapped to raw colour texts,
//! kept in the order of their keys.

use vstd::prelude::*;
use vstd::string::*;
use crate::text::{
    key_before, key_order, keys_increasing, lemma_keys_one_way, lemma_keys_transitive, KeyOrder,
};

verus! {

/// A place at which `key` stands in `keys`, where it stands at one.
pub open spec fn place_of(keys: Seq<Seq<char>>, key: Seq<char>) -> int {
    choose|i: int| 0 <= i < keys.len() && keys[i] == key
}

/// The mapping that a list of keys and a list of values of the same length
/// stand for: each key is mapped to the value at its place.
pub open spec fn entries_map(keys: Seq<Seq<char>>, values: Seq<Seq<char>>) -> Map<
    Seq<char>,
    Seq<char>,
> {
    Map::new(
        |k: Seq<char>| keys.contains(k),
        |k: Seq<char>| values[place_of(keys, k)],
    )
}

/// In an increasing list no key stands at two places.
pub proof fn lemma_key_place(keys: Seq<Seq<char>>, i: int, j: int)
    requires
        keys_increasing(keys),
        0 <= i < keys.len(),
        0 <= j < keys.len(),
        keys[i] == keys[j],
    ensures
        i == j,
{
    if i < j {
        lemma_keys_one_way(keys[i], keys[j]);
    } else if j < i {
        lemma_keys_one_way(keys[j], keys[i]);
    }
}

/// In an increasing list each key is mapped to the value at its own place.
pub proof fn lemma_entry(keys: Seq<Seq<char>>, values: Seq<Seq<char>>, i: int)
    requires
        keys_increasing(keys),
        keys.len() == values.len(),
        0 <= i < keys.len(),
    ensures
        entries_map(keys, values).contains_key(keys[i]),
        entries_map(keys, values)[keys[i]] == values[i],
{
    let k = keys[i];
    assert(keys.contains(k));
    let j = place_of(keys, k);
    lemma_key_place(keys, i, j);
}

/// An increasing list of `n` keys stands for a mapping of `n` entries.
pub proof fn lemma_entries_count(keys: Seq<Seq<char>>, values: Seq<Seq<char>>)
    requires
        keys_increasing(keys),
        keys.len() == values.len(),
    ensures
        entries_map(keys, values).dom().finite(),
        entries_map(keys, values).dom().len() == keys.len(),
    decreases keys.len(),
{
    let m = entries_map(keys, values);
    if keys.len() == 0 {
        assert(m.dom() =~= Set::<Seq<char>>::empty());
    } else {
        let front_keys = keys.drop_last();
        let front_values = values.drop_last();
        let front = entries_map(front_keys, front_values);
        assert(keys_increasing(front_keys)) by {
            assert forall|i: int, j: int| 0 <= i < j < front_keys.len() implies key_before(
                front_keys[i],
                front_keys[j],
            ) by {
                assert(front_keys[i] == keys[i] && front_keys[j] == keys[j]);
            }
        }
        lemma_entries_count(front_keys, front_values);
        let last = keys.last();
        assert(!front.dom().contains(last)) by {
            if front_keys.contains(last) {
                let i = choose|i: int| 0 <= i < front_keys.len() && front_keys[i] == last;
                assert(keys[i] == last);
                lemma_key_place(keys, i, keys.len() - 1);
            }
        }
        assert(m.dom() =~= front.dom().insert(last)) by {
            assert forall|k: Seq<char>| m.dom().contains(k) implies front.dom().insert(
                last,
            ).contains(k) by {
                let i = choose|i: int| 0 <= i < keys.len() && keys[i] == k;
                if i < keys.len() - 1 {
                    assert(front_keys[i] == k);
                }
            }
            assert forall|k: Seq<char>| front.dom().insert(last).contains(k) implies m.dom().contains(
                k,
            ) by {
                if k == last {
                    assert(keys[keys.len() - 1] == k);
                } else {
                    let i = choose|i: int| 0 <= i < front_keys.len() && front_keys[i] == k;
                    assert(keys[i] == k);
                }
            }
        }
    }
}

/// Putting a new key at its place in an increasing list keeps the list
/// increasing and adds one entry to the mapping.
pub proof fn lemma_insert_new(
    keys: Seq<Seq<char>>,
    values: Seq<Seq<char>>,
    i: int,
    key: Seq<char>,
    value: Seq<char>,
)
    requires
        keys_increasing(keys),
        keys.len() == values.len(),
        0 <= i <= keys.len(),
        forall|j: int| 0 <= j < i ==> key_before(#[trigger] keys[j], key),
        i < keys.len() ==> key_before(key, keys[i]),
    ensures
        keys_increasing(keys.insert(i, key)),
        entries_map(keys.insert(i, key), values.insert(i, value)) == entries_map(
            keys,
            values,
        ).insert(key, value),
{
    let new_keys = keys.insert(i, key);
    let new_values = values.insert(i, value);
    assert forall|j: int| i <= j < keys.len() implies key_before(key, #[trigger] keys[j]) by {
        if i < j {
            lemma_keys_transitive(key, keys[i], keys[j]);
        }
    }
    assert forall|a: int, b: int| 0 <= a < b < new_keys.len() implies key_before(
        new_keys[a],
        new_keys[b],
    ) by {
        if b < i {
            assert(new_keys[a] == keys[a] && new_keys[b] == keys[b]);
        } else if b == i {
            assert(new_keys[a] == keys[a]);
        } else if a < i {
            assert(new_keys[a] == keys[a] && new_keys[b] == keys[b - 1]);
        } else if a == i {
            assert(new_keys[b] == keys[b - 1]);
        } else {
            assert(new_keys[a] == keys[a - 1] && new_keys[b] == keys[b - 1]);
        }
    }
    let before = entries_map(keys, values);
    let after = entries_map(new_keys, new_values);
    assert forall|k: Seq<char>| after.contains_key(k) <==> before.insert(key, value).contains_key(
        k,
    ) by {
        if after.contains_key(k) {
            let j = choose|j: int| 0 <= j < new_keys.len() && new_keys[j] == k;
            if j < i {
                assert(keys[j] == k);
            } else if j > i {
                assert(keys[j - 1] == k);
            }
        }
        if before.insert(key, value).contains_key(k) {
            if k == key {
                assert(new_keys[i] == k);
            } else {
                let j = choose|j: int| 0 <= j < keys.len() && keys[j] == k;
                if j < i {
                    assert(new_keys[j] == k);
                } else {
                    assert(new_keys[j + 1] == k);
                }
            }
        }
    }
    assert forall|k: Seq<char>| after.contains_key(k) implies after[k] == before.insert(
        key,
        value,
    )[k] by {
        let j = choose|j: int| 0 <= j < new_keys.len() && new_keys[j] == k;
        lemma_entry(new_keys, new_values, j);
        if j < i {
            assert(keys[j] == k);
            lemma_entry(keys, values, j);
            lemma_keys_one_way(k, key);
        } else if j > i {
            assert(keys[j - 1] == k);
            lemma_entry(keys, values, j - 1);
            lemma_keys_one_way(key, k);
        }
    }
    assert(after =~= before.insert(key, value));
}

/// Replacing the value at one place changes that key's entry and no other.
pub proof fn lemma_replace(keys: Seq<Seq<char>>, values: Seq<Seq<char>>, i: int, value: Seq<char>)
    requires
        keys_increasing(keys),
        keys.len() == values.len(),
        0 <= i < keys.len(),
    ensures
        entries_map(keys, values.update(i, value)) == entries_map(keys, values).insert(
            keys[i],
            value,
        ),
{
    let new_values = values.update(i, value);
    let before = entries_map(keys, values);
    let after = entries_map(keys, new_values);
    assert forall|k: Seq<char>| after.contains_key(k) implies after[k] == before.insert(
        keys[i],
        value,
    )[k] by {
        let j = choose|j: int| 0 <= j < keys.len() && keys[j] == k;
        lemma_entry(keys, new_values, j);
        lemma_entry(keys, values, j);
        if k == keys[i] {
            lemma_key_place(keys, i, j);
        }
    }
    assert(after =~= before.insert(keys[i], value));
}

/// A sparse mapping from slot names to raw colour texts. Its entries are
/// held, and handed out, in the order of their keys.
#[derive(Debug)]
pub struct ManifestSection {
    entries: Vec<(String, String)>,
}

impl View for ManifestSection {
    type V = Map<Seq<char>, Seq<char>>;

    /// The mapping itself.
    open spec fn view(&self) -> Map<Seq<char>, Seq<char>> {
        entries_map(self.keys(), self.values())
    }
}

impl ManifestSection {
    /// The keys, in the order in which the entries are handed out.
    pub closed spec fn keys(&self) -> Seq<Seq<char>> {
        Seq::new(self.entries@.len(), |i: int| self.entries@[i].0@)
    }

    /// The values, each at the place of its key.
    pub closed spec fn values(&self) -> Seq<Seq<char>> {
        Seq::new(self.entries@.len(), |i: int| self.entries@[i].1@)
    }

    #[verifier::type_invariant]
    closed spec fn ordered(&self) -> bool {
        keys_increasing(self.keys())
    }

    /// A section without entries.
    pub fn new() -> (r: Self)
        ensures
            r@ == Map::<Seq<char>, Seq<char>>::empty(),
            r.keys().len() == 0,
    {
        let r = ManifestSection { entries: Vec::new() };
        assert(r@ =~= Map::<Seq<char>, Seq<char>>::empty());
        r
    }

    /// The number of entries.
    pub fn len(&self) -> (n: usize)
        ensures
            n == self.keys().len(),
            n == self.values().len(),
            n == self@.len(),
            self@.dom().finite(),
            keys_increasing(self.keys()),
    {
        proof {
            use_type_invariant(self);
            lemma_entries_count(self.keys(), self.values());
        }
        self.entries.len()
    }

    /// Whether the section has no entry.
    pub fn is_empty(&self) -> (r: bool)
        ensures
            r == (self.keys().len() == 0),
            r == (self@.len() == 0),
    {
        self.len() == 0
    }

    /// The place of `key` among the entries, if it has one.
    fn find(&self, key: &str) -> (r: Option<usize>)
        ensures
            match r {
                Some(i) => i < self.keys().len() && self.keys()[i as int] == key@,
                None => !self.keys().contains(key@),
            },
    {
        let mut i: usize = 0;
        while i < self.entries.len()
            invariant
                i <= self.entries@.len(),
                forall|j: int| 0 <= j < i ==> self.keys()[j] != key@,
            decreases self.entries@.len() - i,
        {
            if key_order(self.entries[i].0.as_str(), key) == KeyOrder::Same {
                return Some(i);
            }
            i += 1;
        }
        None
    }

    /// Whether `key` has an entry.
    pub fn contains_key(&self, key: &str) -> (r: bool)
        ensures
            r == self@.contains_key(key@),
    {
        self.find(key).is_some()
    }

    /// The raw text stored under `key`.
    pub fn get<'a>(&'a self, key: &str) -> (r: Option<&'a str>)
        ensures
            match r {
                Some(v) => self@.contains_key(key@) && v@ == self@[key@],
                None => !self@.contains_key(key@),
            },
    {
        match self.find(key) {
            Some(i) => {
                proof {
                    use_type_invariant(self);
                    lemma_entry(self.keys(), self.values(), i as int);
                }
                Some(self.entries[i].1.as_str())
            },
            None => None,
        }
    }

    /// The entry at place `i` in the order of the keys, or nothing where the
    /// section holds `i` entries or fewer.
    pub fn entry_at<'a>(&'a self, i: usize) -> (r: Option<(&'a str, &'a str)>)
        ensures
            keys_increasing(self.keys()),
            match r {
                Some((k, v)) => {
                    &&& i < self.keys().len()
                    &&& k@ == self.keys()[i as int]
                    &&& v@ == self.values()[i as int]
                    &&& self@.contains_key(k@)
                    &&& self@[k@] == v@
                },
                None => i >= self.keys().len(),
            },
    {
        proof {
            use_type_invariant(self);
        }
        if i < self.entries.len() {
            proof {
                lemma_entry(self.keys(), self.values(), i as int);
            }
            Some((self.entries[i].0.as_str(), self.entries[i].1.as_str()))
        } else {
            None
        }
    }

    /// Stores `value` under `key`, and hands back the text that it replaces.
    pub fn insert(&mut self, key: String, value: String) -> (replaced: Option<String>)
        ensures
            final(self)@ == old(self)@.insert(key@, value@),
            match replaced {
                Some(v) => old(self)@.contains_key(key@) && v@ == old(self)@[key@],
                None => !old(self)@.contains_key(key@),
            },
    {
        proof {
            use_type_invariant(&*self);
        }
        let ghost keys = self.keys();
        let ghost values = self.values();
        let mut entries: Vec<(String, String)> = Vec::new();
        std::mem::swap(&mut entries, &mut self.entries);
        assert(entries@ == old(self).entries@);
        let mut i: usize = 0;
        let mut found = false;
        while i < entries.len()
            invariant_except_break
                !found,
            invariant
                i <= entries@.len(),
                keys.len() == entries@.len(),
                forall|j: int| 0 <= j < entries@.len() ==> keys[j] == (#[trigger] entries@[j]).0@,
                forall|j: int| 0 <= j < i ==> key_before(#[trigger] keys[j], key@),
            ensures
                i <= entries@.len(),
                forall|j: int| 0 <= j < i ==> key_before(#[trigger] keys[j], key@),
                found ==> i < entries@.len() && keys[i as int] == key@,
                !found && i < entries@.len() ==> key_before(key@, keys[i as int]),
            decreases entries@.len() - i,
        {
            let order = key_order(entries[i].0.as_str(), key.as_str());
            if order == KeyOrder::Same {
                found = true;
                break ;
            }
            if order == KeyOrder::After {
                break ;
            }
            i += 1;
        }
        if found {
            let previous = entries.remove(i);
            entries.insert(i, (key, value));
            proof {
                lemma_entry(keys, values, i as int);
                lemma_replace(keys, values, i as int, value@);
            }
            assert(Seq::new(entries@.len(), |j: int| entries@[j].0@) =~= keys);
            assert(Seq::new(entries@.len(), |j: int| entries@[j].1@) =~= values.update(
                i as int,
                value@,
            ));
            self.entries = entries;
            Some(previous.1)
        } else {
            entries.insert(i, (key, value));
            proof {
                lemma_insert_new(keys, values, i as int, key@, value@);
                if keys.contains(key@) {
                    let j = choose|j: int| 0 <= j < keys.len() && keys[j] == key@;
                    if j < i {
                        lemma_keys_one_way(keys[j], key@);
                    } else {
                        if i < j {
                            lemma_keys_transitive(key@, keys[i as int], keys[j]);
                        }
                        lemma_keys_one_way(key@, keys[j]);
                    }
                }
            }
            assert(Seq::new(entries@.len(), |j: int| entries@[j].0@) =~= keys.insert(
                i as int,
                key@,
            ));
            assert(Seq::new(entries@.len(), |j: int| entries@[j].1@) =~= values.insert(
                i as int,
                value@,
            ));
            self.entries = entries;
            None
        }
    }
}

impl Clone for ManifestSection {
    /// A copy with the same entries.
    fn clone(&self) -> (r: Self)
        ensures
            r@ == self@,
            r.keys() == self.keys(),
            r.values() == self.values(),
    {
        proof {
            use_type_invariant(self);
        }
        let mut entries: Vec<(String, String)> = Vec::new();
        let mut i: usize = 0;
        while i < self.entries.len()
            invariant
                i <= self.entries@.len(),
                entries@.len() == i,
                forall|j: int| 0 <= j < i ==> entries@[j] == self.entries@[j],
            decreases self.entries@.len() - i,
        {
            entries.push((self.entries[i].0.clone(), self.entries[i].1.clone()));
            i += 1;
        }
        assert(entries@ =~= self.entries@);
        let r = ManifestSection { entries };
        assert(r.keys() =~= self.keys());
        assert(r.values() =~= self.values());
        r
    }
}

} // verus!

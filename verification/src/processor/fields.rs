//! A small string-keyed map that keeps its bindings in a vector.

use vstd::prelude::*;
use super::text::same_text;

verus! {

/// No two entries of `e` carry the same key.
pub open spec fn distinct_keys(e: Seq<(String, String)>) -> bool {
    forall|i: int, j: int| 0 <= i < j < e.len() ==> (#[trigger] e[i]).0@ != (#[trigger] e[j]).0@
}

/// `key` is the key of some entry of `e`.
pub open spec fn has_key(e: Seq<(String, String)>, key: Seq<char>) -> bool {
    exists|i: int| 0 <= i < e.len() && (#[trigger] e[i]).0@ == key
}

/// The index of an entry of `e` that carries `key`.
pub open spec fn index_of_key(e: Seq<(String, String)>, key: Seq<char>) -> int {
    choose|i: int| 0 <= i < e.len() && (#[trigger] e[i]).0@ == key
}

/// The finite map that a sequence of key/value entries stands for.
pub open spec fn bindings(e: Seq<(String, String)>) -> Map<Seq<char>, Seq<char>> {
    Map::new(|key: Seq<char>| has_key(e, key), |key: Seq<char>| e[index_of_key(e, key)].1@)
}

/// What `m` binds `key` to, if anything.
pub open spec fn lookup(m: Map<Seq<char>, Seq<char>>, key: Seq<char>) -> Option<Seq<char>> {
    if m.contains_key(key) {
        Some(m[key])
    } else {
        None
    }
}

/// The text of an optional string.
pub open spec fn text_of(s: Option<String>) -> Option<Seq<char>> {
    match s {
        Some(s) => Some(s@),
        None => None,
    }
}

/// The text of an optional reference to a string.
pub open spec fn text_of_ref(s: Option<&String>) -> Option<Seq<char>> {
    match s {
        Some(s) => Some(s@),
        None => None,
    }
}

/// With distinct keys, the entry at `i` is the one that its key is bound to.
pub proof fn lemma_binding_at(e: Seq<(String, String)>, i: int)
    requires
        distinct_keys(e),
        0 <= i < e.len(),
    ensures
        bindings(e).contains_key(e[i].0@),
        bindings(e)[e[i].0@] == e[i].1@,
        index_of_key(e, e[i].0@) == i,
{
    let key = e[i].0@;
    assert(has_key(e, key));
    let j = index_of_key(e, key);
    assert(0 <= j < e.len() && e[j].0@ == key);
    if j < i {
        assert(e[j].0@ != e[i].0@);
    } else if i < j {
        assert(e[i].0@ != e[j].0@);
    }
}

/// Replacing the value of the entry at `i` binds its key to the new value
/// and changes nothing else.
pub proof fn lemma_replace(
    before: Seq<(String, String)>,
    after: Seq<(String, String)>,
    i: int,
    value: Seq<char>,
)
    requires
        distinct_keys(before),
        0 <= i < before.len(),
        after.len() == before.len(),
        after[i].0@ == before[i].0@,
        after[i].1@ == value,
        forall|j: int| 0 <= j < before.len() && j != i ==> after[j] == before[j],
    ensures
        distinct_keys(after),
        bindings(after) == bindings(before).insert(before[i].0@, value),
{
    let key = before[i].0@;
    assert forall|a: int| 0 <= a < after.len() implies (#[trigger] after[a]).0@ == before[a].0@ by {}
    assert forall|k: Seq<char>| has_key(after, k) <==> (has_key(before, k) || k == key) by {
        if has_key(before, k) {
            assert(after[index_of_key(before, k)].0@ == k);
        }
        if has_key(after, k) {
            assert(before[index_of_key(after, k)].0@ == k);
        }
        if k == key {
            assert(after[i].0@ == k);
        }
    }
    assert forall|k: Seq<char>| has_key(after, k) implies bindings(after)[k] == bindings(
        before,
    ).insert(key, value)[k] by {
        let j = index_of_key(after, k);
        lemma_binding_at(after, j);
        lemma_binding_at(before, j);
    }
    assert(bindings(after) =~= bindings(before).insert(key, value));
}

/// Appending an entry whose key is new binds that key and changes nothing
/// else.
pub proof fn lemma_append(before: Seq<(String, String)>, entry: (String, String))
    requires
        distinct_keys(before),
        !has_key(before, entry.0@),
    ensures
        distinct_keys(before.push(entry)),
        bindings(before.push(entry)) == bindings(before).insert(entry.0@, entry.1@),
{
    let after = before.push(entry);
    let last = before.len() as int;
    assert forall|a: int, b: int| 0 <= a < b < after.len() implies (#[trigger] after[a]).0@ != (
    #[trigger] after[b]).0@ by {
        if b == last {
            assert(before[a].0@ != entry.0@);
        } else {
            assert(after[a] == before[a]);
            assert(after[b] == before[b]);
        }
    }
    assert forall|k: Seq<char>| has_key(after, k) <==> (has_key(before, k) || k == entry.0@) by {
        if has_key(before, k) {
            assert(after[index_of_key(before, k)].0@ == k);
        }
        if has_key(after, k) {
            let j = index_of_key(after, k);
            if j < last {
                assert(before[j].0@ == k);
            }
        }
        if k == entry.0@ {
            assert(after[last].0@ == k);
        }
    }
    assert forall|k: Seq<char>| has_key(after, k) implies bindings(after)[k] == bindings(
        before,
    ).insert(entry.0@, entry.1@)[k] by {
        let j = index_of_key(after, k);
        lemma_binding_at(after, j);
        if j < last {
            lemma_binding_at(before, j);
        }
    }
    assert(bindings(after) =~= bindings(before).insert(entry.0@, entry.1@));
}

/// Taking out the entry at `i` unbinds its key and changes nothing else.
pub proof fn lemma_take_out(before: Seq<(String, String)>, i: int)
    requires
        distinct_keys(before),
        0 <= i < before.len(),
    ensures
        distinct_keys(before.remove(i)),
        bindings(before.remove(i)) == bindings(before).remove(before[i].0@),
{
    let after = before.remove(i);
    let key = before[i].0@;
    assert forall|a: int| 0 <= a < after.len() implies #[trigger] after[a] == before[if a < i {
        a
    } else {
        a + 1
    }] by {}
    assert forall|a: int, b: int| 0 <= a < b < after.len() implies (#[trigger] after[a]).0@ != (
    #[trigger] after[b]).0@ by {
        let a0 = if a < i { a } else { a + 1 };
        let b0 = if b < i { b } else { b + 1 };
        assert(before[a0].0@ != before[b0].0@);
    }
    assert forall|k: Seq<char>| has_key(after, k) <==> (has_key(before, k) && k != key) by {
        if has_key(before, k) && k != key {
            let j = index_of_key(before, k);
            assert(after[if j < i { j } else { j - 1 }].0@ == k);
        }
        if has_key(after, k) {
            let j = index_of_key(after, k);
            let j0 = if j < i { j } else { j + 1 };
            assert(before[j0].0@ == k);
            if j0 < i {
                assert(before[j0].0@ != before[i].0@);
            } else {
                assert(before[i].0@ != before[j0].0@);
            }
        }
    }
    assert forall|k: Seq<char>| has_key(after, k) implies bindings(after)[k] == bindings(
        before,
    ).remove(key)[k] by {
        let j = index_of_key(after, k);
        lemma_binding_at(after, j);
        lemma_binding_at(before, if j < i { j } else { j + 1 });
    }
    assert(bindings(after) =~= bindings(before).remove(key));
}

/// A map from text keys to text values, with each key bound at most once.
///
/// The view is the mathematical map; the order in which bindings were added
/// is not part of it.
#[derive(Debug)]
pub struct FieldMap {
    entries: Vec<(String, String)>,
}

impl View for FieldMap {
    type V = Map<Seq<char>, Seq<char>>;

    closed spec fn view(&self) -> Map<Seq<char>, Seq<char>> {
        bindings(self.entries@)
    }
}

impl Default for FieldMap {
    /// The empty map.
    fn default() -> (m: FieldMap)
        ensures
            m@ == Map::<Seq<char>, Seq<char>>::empty(),
    {
        FieldMap::new()
    }
}

impl FieldMap {
    #[verifier::type_invariant]
    spec fn keys_are_distinct(&self) -> bool {
        distinct_keys(self.entries@)
    }

    /// The empty map.
    pub fn new() -> (m: FieldMap)
        ensures
            m@ == Map::<Seq<char>, Seq<char>>::empty(),
    {
        let m = FieldMap { entries: Vec::new() };
        assert(m@ =~= Map::<Seq<char>, Seq<char>>::empty());
        m
    }

    /// Position of the entry that carries `key`.
    fn position(&self, key: &str) -> (at: Option<usize>)
        ensures
            match at {
                Some(i) => i < self.entries@.len() && self.entries@[i as int].0@ == key@,
                None => !has_key(self.entries@, key@),
            },
    {
        let mut i: usize = 0;
        while i < self.entries.len()
            invariant
                i <= self.entries@.len(),
                forall|j: int| 0 <= j < i ==> (#[trigger] self.entries@[j]).0@ != key@,
            decreases self.entries@.len() - i,
        {
            if same_text(self.entries[i].0.as_str(), key) {
                return Some(i);
            }
            i += 1;
        }
        None
    }

    /// Whether nothing is bound.
    pub fn is_empty(&self) -> (b: bool)
        ensures
            b <==> self@ == Map::<Seq<char>, Seq<char>>::empty(),
    {
        let b = self.entries.len() == 0;
        proof {
            if b {
                assert(self@ =~= Map::<Seq<char>, Seq<char>>::empty());
            } else {
                assert(has_key(self.entries@, self.entries@[0].0@));
                assert(self@.contains_key(self.entries@[0].0@));
            }
        }
        b
    }

    /// Whether `key` is bound.
    pub fn contains_key(&self, key: &str) -> (b: bool)
        ensures
            b == self@.contains_key(key@),
    {
        self.position(key).is_some()
    }

    /// The value that `key` is bound to.
    pub fn get(&self, key: &str) -> (value: Option<&String>)
        ensures
            text_of_ref(value) == lookup(self@, key@),
    {
        match self.position(key) {
            Some(i) => {
                proof {
                    use_type_invariant(self);
                    lemma_binding_at(self.entries@, i as int);
                }
                Some(&self.entries[i].1)
            },
            None => None,
        }
    }

    /// Binds `key` to `value`, replacing an earlier binding of `key`.
    /// Returns the value that was bound before.
    pub fn insert(&mut self, key: String, value: String) -> (previous: Option<String>)
        ensures
            final(self)@ == old(self)@.insert(key@, value@),
            text_of(previous) == lookup(old(self)@, key@),
    {
        proof {
            use_type_invariant(&*self);
        }
        let ghost before = self.entries@;
        let found = self.position(key.as_str());
        let mut entries: Vec<(String, String)> = Vec::new();
        core::mem::swap(&mut self.entries, &mut entries);
        let previous = match found {
            Some(i) => {
                let (_, previous) = entries.remove(i);
                entries.insert(i, (key, value));
                proof {
                    lemma_binding_at(before, i as int);
                    lemma_replace(before, entries@, i as int, value@);
                }
                Some(previous)
            },
            None => {
                proof {
                    lemma_append(before, (key, value));
                }
                entries.push((key, value));
                None
            },
        };
        self.entries = entries;
        previous
    }

    /// Unbinds `key` and returns the value that it was bound to.
    pub fn remove(&mut self, key: &str) -> (removed: Option<String>)
        ensures
            final(self)@ == old(self)@.remove(key@),
            text_of(removed) == lookup(old(self)@, key@),
    {
        proof {
            use_type_invariant(&*self);
        }
        let ghost before = self.entries@;
        match self.position(key) {
            Some(i) => {
                let mut entries: Vec<(String, String)> = Vec::new();
                core::mem::swap(&mut self.entries, &mut entries);
                let (_, value) = entries.remove(i);
                proof {
                    lemma_binding_at(before, i as int);
                    lemma_take_out(before, i as int);
                }
                self.entries = entries;
                Some(value)
            },
            None => {
                assert(self@ =~= old(self)@.remove(key@));
                None
            },
        }
    }

    /// The bindings, one entry per key.
    pub fn entries(&self) -> (e: &Vec<(String, String)>)
        ensures
            distinct_keys(e@),
            bindings(e@) == self@,
    {
        proof {
            use_type_invariant(self);
        }
        &self.entries
    }
}

} // verus!

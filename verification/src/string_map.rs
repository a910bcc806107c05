//! A map from strings to strings, kept as a list of pairs with distinct keys.
//!
//! Keys are compared character by character and are case-sensitive.  Writing
//! a key that is already present replaces its value.

use crate::text::str_eq;
use vstd::prelude::*;

verus! {

/// The map obtained by writing the pairs in order: a later pair replaces an
/// earlier one with the same key.
pub open spec fn map_of(pairs: Seq<(Seq<char>, Seq<char>)>) -> Map<Seq<char>, Seq<char>>
    decreases pairs.len(),
{
    if pairs.len() == 0 {
        Map::empty()
    } else {
        map_of(pairs.drop_last()).insert(pairs.last().0, pairs.last().1)
    }
}

/// No key occurs in two places of the list.
pub open spec fn distinct_keys(pairs: Seq<(Seq<char>, Seq<char>)>) -> bool {
    forall|i: int, j: int| 0 <= i < j < pairs.len() ==> pairs[i].0 != pairs[j].0
}

/// The key occurs somewhere in the list.
pub open spec fn has_key(pairs: Seq<(Seq<char>, Seq<char>)>, key: Seq<char>) -> bool {
    exists|i: int| 0 <= i < pairs.len() && #[trigger] pairs[i].0 == key
}

/// The characters of each string of a list of pairs.
pub open spec fn pair_views(v: Seq<(String, String)>) -> Seq<(Seq<char>, Seq<char>)> {
    Seq::new(v.len(), |i: int| (v[i].0@, v[i].1@))
}

/// Writing one more pair is an insertion into the map.
pub proof fn lemma_map_of_push(pairs: Seq<(Seq<char>, Seq<char>)>, pair: (Seq<char>, Seq<char>))
    ensures
        map_of(pairs.push(pair)) == map_of(pairs).insert(pair.0, pair.1),
{
    assert(pairs.push(pair).drop_last() =~= pairs);
}

/// The map has exactly the keys of the list, and finitely many.
pub proof fn lemma_map_of_keys(pairs: Seq<(Seq<char>, Seq<char>)>)
    ensures
        map_of(pairs).dom().finite(),
        forall|key: Seq<char>| #[trigger] map_of(pairs).contains_key(key) <==> has_key(pairs, key),
    decreases pairs.len(),
{
    if pairs.len() > 0 {
        let front = pairs.drop_last();
        let last = pairs.last();
        lemma_map_of_keys(front);
        assert forall|key: Seq<char>| #[trigger]
            map_of(pairs).contains_key(key) <==> has_key(pairs, key) by {
            if has_key(pairs, key) {
                let i = choose|i: int| 0 <= i < pairs.len() && #[trigger] pairs[i].0 == key;
                if i < pairs.len() - 1 {
                    assert(front[i].0 == key);
                    assert(has_key(front, key));
                }
            }
            if map_of(pairs).contains_key(key) {
                if key == last.0 {
                    assert(pairs[pairs.len() - 1].0 == key);
                } else {
                    assert(has_key(front, key));
                    let i = choose|i: int| 0 <= i < front.len() && #[trigger] front[i].0 == key;
                    assert(pairs[i].0 == key);
                }
            }
        }
    }
}

/// In a list with distinct keys every pair is an entry of the map.
pub proof fn lemma_map_of_entry(pairs: Seq<(Seq<char>, Seq<char>)>, i: int)
    requires
        distinct_keys(pairs),
        0 <= i < pairs.len(),
    ensures
        map_of(pairs).contains_key(pairs[i].0),
        map_of(pairs)[pairs[i].0] == pairs[i].1,
    decreases pairs.len(),
{
    if i < pairs.len() - 1 {
        let front = pairs.drop_last();
        assert(distinct_keys(front)) by {
            assert forall|a: int, b: int| 0 <= a < b < front.len() implies front[a].0
                != front[b].0 by {
                assert(pairs[a].0 != pairs[b].0);
            }
        }
        lemma_map_of_entry(front, i);
        assert(front[i] == pairs[i]);
        assert(pairs[i].0 != pairs[pairs.len() - 1].0);
    }
}

/// A list with distinct keys has as many pairs as its map has entries.
pub proof fn lemma_map_of_len(pairs: Seq<(Seq<char>, Seq<char>)>)
    requires
        distinct_keys(pairs),
    ensures
        map_of(pairs).dom().finite(),
        map_of(pairs).len() == pairs.len(),
    decreases pairs.len(),
{
    lemma_map_of_keys(pairs);
    if pairs.len() > 0 {
        let front = pairs.drop_last();
        assert(distinct_keys(front)) by {
            assert forall|a: int, b: int| 0 <= a < b < front.len() implies front[a].0
                != front[b].0 by {
                assert(pairs[a].0 != pairs[b].0);
            }
        }
        lemma_map_of_len(front);
        lemma_map_of_keys(front);
        assert(!map_of(front).contains_key(pairs.last().0)) by {
            if has_key(front, pairs.last().0) {
                let i = choose|i: int| 0 <= i < front.len() && #[trigger] front[i].0
                    == pairs.last().0;
                assert(pairs[i].0 != pairs[pairs.len() - 1].0);
            }
        }
    }
}

/// Replacing the value of a pair in a list with distinct keys is an insertion
/// into the map.
pub proof fn lemma_map_of_update(pairs: Seq<(Seq<char>, Seq<char>)>, i: int, value: Seq<char>)
    requires
        distinct_keys(pairs),
        0 <= i < pairs.len(),
    ensures
        map_of(pairs.update(i, (pairs[i].0, value))) == map_of(pairs).insert(pairs[i].0, value),
        distinct_keys(pairs.update(i, (pairs[i].0, value))),
    decreases pairs.len(),
{
    let key = pairs[i].0;
    let changed = pairs.update(i, (key, value));
    let front = pairs.drop_last();
    assert(distinct_keys(changed)) by {
        assert forall|a: int, b: int| 0 <= a < b < changed.len() implies changed[a].0
            != changed[b].0 by {
            assert(pairs[a].0 != pairs[b].0);
        }
    }
    if i == pairs.len() - 1 {
        assert(changed.drop_last() =~= front);
        assert(map_of(changed) =~= map_of(pairs).insert(key, value));
    } else {
        assert(distinct_keys(front)) by {
            assert forall|a: int, b: int| 0 <= a < b < front.len() implies front[a].0
                != front[b].0 by {
                assert(pairs[a].0 != pairs[b].0);
            }
        }
        lemma_map_of_update(front, i, value);
        assert(front[i] == pairs[i]);
        assert(changed.drop_last() =~= front.update(i, (key, value)));
        assert(changed.last() == pairs.last());
        assert(pairs[i].0 != pairs[pairs.len() - 1].0);
        assert(map_of(changed) =~= map_of(pairs).insert(key, value));
    }
}

/// A copy of a list of pairs.
pub fn clone_pairs(pairs: &Vec<(String, String)>) -> (r: Vec<(String, String)>)
    ensures
        pair_views(r@) == pair_views(pairs@),
{
    let n = pairs.len();
    let mut copy: Vec<(String, String)> = Vec::new();
    let mut i: usize = 0;
    while i < n
        invariant
            n == pairs@.len(),
            i <= n,
            pair_views(copy@) == pair_views(pairs@).take(i as int),
        decreases n - i,
    {
        let key = pairs[i].0.clone();
        let value = pairs[i].1.clone();
        let ghost copied = pair_views(copy@);
        copy.push((key, value));
        proof {
            assert(pair_views(copy@) =~= copied.push((key@, value@)));
            assert(pair_views(pairs@).take(i + 1) =~= copied.push((key@, value@)));
        }
        i = i + 1;
    }
    proof {
        assert(pair_views(copy@) =~= pair_views(pairs@));
    }
    copy
}

/// A map from strings to strings.
#[derive(Debug)]
pub struct StringMap {
    entries: Vec<(String, String)>,
}

impl View for StringMap {
    type V = Map<Seq<char>, Seq<char>>;

    open spec fn view(&self) -> Map<Seq<char>, Seq<char>> {
        map_of(self.pairs())
    }
}

impl StringMap {
    #[verifier::type_invariant]
    spec fn keys_are_distinct(self) -> bool {
        distinct_keys(pair_views(self.entries@))
    }

    /// The entries in the order in which this map lists them.
    pub closed spec fn pairs(self) -> Seq<(Seq<char>, Seq<char>)> {
        pair_views(self.entries@)
    }

    /// A map without entries.
    pub fn new() -> (r: StringMap)
        ensures
            r@ == Map::<Seq<char>, Seq<char>>::empty(),
            r.pairs() == Seq::<(Seq<char>, Seq<char>)>::empty(),
    {
        let r = StringMap { entries: Vec::new() };
        assert(r.pairs() =~= Seq::empty());
        r
    }

    /// The number of entries.
    pub fn len(&self) -> (r: usize)
        ensures
            r == self@.len(),
            r == self.pairs().len(),
            distinct_keys(self.pairs()),
    {
        proof {
            use_type_invariant(self);
            lemma_map_of_len(self.pairs());
        }
        self.entries.len()
    }

    /// Whether the map has no entry.
    pub fn is_empty(&self) -> (r: bool)
        ensures
            r == (self@.len() == 0),
            r == (self.pairs().len() == 0),
    {
        proof {
            use_type_invariant(self);
            lemma_map_of_len(self.pairs());
        }
        self.entries.len() == 0
    }

    /// The position of the key in the list of entries, if it is there.
    fn position(&self, key: &str) -> (r: Option<usize>)
        ensures
            distinct_keys(self.pairs()),
            match r {
                Some(i) => i < self.pairs().len() && self.pairs()[i as int].0 == key@
                    && self@.contains_key(key@) && self@[key@] == self.pairs()[i as int].1,
                None => !self@.contains_key(key@) && !has_key(self.pairs(), key@),
            },
    {
        proof {
            use_type_invariant(self);
        }
        let n = self.entries.len();
        let mut i: usize = 0;
        while i < n
            invariant
                n == self.entries@.len(),
                i <= n,
                distinct_keys(self.pairs()),
                forall|j: int| 0 <= j < i ==> self.pairs()[j].0 != key@,
            decreases n - i,
        {
            if str_eq(self.entries[i].0.as_str(), key) {
                proof {
                    lemma_map_of_entry(self.pairs(), i as int);
                }
                return Some(i);
            }
            i = i + 1;
        }
        proof {
            lemma_map_of_keys(self.pairs());
        }
        None
    }

    /// Whether the key has a value.
    pub fn contains_key(&self, key: &str) -> (r: bool)
        ensures
            r == self@.contains_key(key@),
    {
        self.position(key).is_some()
    }

    /// The value of the key, if it has one.
    pub fn get(&self, key: &str) -> (r: Option<&String>)
        ensures
            r is Some <==> self@.contains_key(key@),
            r is Some ==> r->0@ == self@[key@],
    {
        match self.position(key) {
            Some(i) => Some(&self.entries[i].1),
            None => None,
        }
    }

    /// Writes a value under a key and returns the value it replaces, if any.
    pub fn insert(&mut self, key: String, value: String) -> (previous: Option<String>)
        ensures
            final(self)@ == old(self)@.insert(key@, value@),
            previous is Some <==> old(self)@.contains_key(key@),
            previous is Some ==> previous->0@ == old(self)@[key@],
    {
        let ghost before = self.pairs();
        match self.position(key.as_str()) {
            Some(i) => {
                let previous = self.entries[i].1.clone();
                proof {
                    lemma_map_of_update(before, i as int, value@);
                }
                let mut entries: Vec<(String, String)> = Vec::new();
                core::mem::swap(&mut self.entries, &mut entries);
                entries.set(i, (key, value));
                proof {
                    assert(pair_views(entries@) =~= before.update(
                        i as int,
                        (before[i as int].0, value@),
                    ));
                }
                self.entries = entries;
                Some(previous)
            },
            None => {
                proof {
                    lemma_map_of_push(before, (key@, value@));
                    assert forall|a: int, b: int| 0 <= a < b < before.push(
                        (key@, value@),
                    ).len() implies before.push((key@, value@))[a].0 != before.push(
                        (key@, value@),
                    )[b].0 by {
                        if b == before.len() {
                            assert(before[a].0 != key@);
                        }
                    }
                }
                let mut entries: Vec<(String, String)> = Vec::new();
                core::mem::swap(&mut self.entries, &mut entries);
                entries.push((key, value));
                proof {
                    assert(pair_views(entries@) =~= before.push((key@, value@)));
                }
                self.entries = entries;
                None
            },
        }
    }

    /// Writes every entry of another map into this one.
    pub fn extend(&mut self, other: StringMap)
        ensures
            final(self)@ == old(self)@.union_prefer_right(other@),
    {
        let ghost start = self@;
        let n = other.entries.len();
        let mut i: usize = 0;
        proof {
            assert(other.pairs().take(0) =~= Seq::empty());
            assert(start =~= start.union_prefer_right(map_of(other.pairs().take(0))));
        }
        while i < n
            invariant
                n == other.entries@.len(),
                i <= n,
                self@ == start.union_prefer_right(map_of(other.pairs().take(i as int))),
            decreases n - i,
        {
            let key = other.entries[i].0.clone();
            let value = other.entries[i].1.clone();
            proof {
                let prefix = other.pairs().take(i as int);
                let next = other.pairs().take(i + 1);
                assert(next =~= prefix.push(other.pairs()[i as int]));
                lemma_map_of_push(prefix, other.pairs()[i as int]);
                assert(start.union_prefer_right(map_of(prefix)).insert(key@, value@)
                    =~= start.union_prefer_right(map_of(next)));
            }
            self.insert(key, value);
            i = i + 1;
        }
        proof {
            assert(other.pairs().take(n as int) =~= other.pairs());
        }
    }

    /// The entries as a list, each key once.
    pub fn into_pairs(self) -> (r: Vec<(String, String)>)
        ensures
            pair_views(r@) == self.pairs(),
            distinct_keys(self.pairs()),
            map_of(self.pairs()) == self@,
    {
        proof {
            use_type_invariant(&self);
        }
        self.entries
    }
}

impl Clone for StringMap {
    fn clone(&self) -> (r: StringMap)
        ensures
            r.pairs() == self.pairs(),
            r@ == self@,
    {
        proof {
            use_type_invariant(self);
        }
        StringMap { entries: clone_pairs(&self.entries) }
    }
}

impl Default for StringMap {
    fn default() -> (r: StringMap)
        ensures
            r@ == Map::<Seq<char>, Seq<char>>::empty(),
    {
        StringMap::new()
    }
}

} // verus!

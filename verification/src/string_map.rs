//! A small map from text to text, kept as a list of entries with distinct
//! keys. It stands where response headers and free-form metadata are held:
//! its meaning is a mathematical map, so the order of insertion is
//! irrelevant and a key inserted twice keeps the last value.

use crate::text::same_text;
use vstd::prelude::*;

verus! {

/// The map that a list of pairs denotes when it is read from left to right
/// and a later pair overrides an earlier one with the same key.
pub open spec fn pairs_map(pairs: Seq<(Seq<char>, Seq<char>)>) -> Map<Seq<char>, Seq<char>>
    decreases pairs.len(),
{
    if pairs.len() == 0 {
        Map::empty()
    } else {
        pairs_map(pairs.drop_last()).insert(pairs.last().0, pairs.last().1)
    }
}

/// The pairs of a vector of owned strings, as sequences of characters.
pub open spec fn pair_views(v: Seq<(String, String)>) -> Seq<(Seq<char>, Seq<char>)> {
    Seq::new(v.len(), |i: int| (v[i].0@, v[i].1@))
}

/// No key occurs at two positions.
pub open spec fn distinct_keys(pairs: Seq<(Seq<char>, Seq<char>)>) -> bool {
    forall|i: int, j: int| 0 <= i < j < pairs.len() ==> pairs[i].0 != pairs[j].0
}

/// A key is in the denoted map exactly when some pair carries it.
pub proof fn lemma_pairs_map_domain(pairs: Seq<(Seq<char>, Seq<char>)>, key: Seq<char>)
    ensures
        pairs_map(pairs).contains_key(key) <==> exists|i: int|
            0 <= i < pairs.len() && (#[trigger] pairs[i]).0 == key,
        pairs_map(pairs).dom().finite(),
    decreases pairs.len(),
{
    if pairs.len() > 0 {
        let front = pairs.drop_last();
        lemma_pairs_map_domain(front, key);
        if pairs_map(pairs).contains_key(key) {
            if pairs.last().0 == key {
                assert(pairs[pairs.len() - 1].0 == key);
            } else {
                let i = choose|i: int| 0 <= i < front.len() && (#[trigger] front[i]).0 == key;
                assert(pairs[i].0 == key);
            }
        }
        if exists|i: int| 0 <= i < pairs.len() && (#[trigger] pairs[i]).0 == key {
            let i = choose|i: int| 0 <= i < pairs.len() && (#[trigger] pairs[i]).0 == key;
            if i < pairs.len() - 1 {
                assert(front[i].0 == key);
            }
        }
    }
}

/// The denoted map gives each key the value of the last pair that carries it.
pub proof fn lemma_pairs_map_last_wins(pairs: Seq<(Seq<char>, Seq<char>)>, i: int)
    requires
        0 <= i < pairs.len(),
        forall|j: int| i < j < pairs.len() ==> (#[trigger] pairs[j]).0 != pairs[i].0,
    ensures
        pairs_map(pairs).contains_key(pairs[i].0),
        pairs_map(pairs)[pairs[i].0] == pairs[i].1,
    decreases pairs.len(),
{
    if i < pairs.len() - 1 {
        let front = pairs.drop_last();
        assert(pairs[pairs.len() - 1].0 != pairs[i].0);
        assert forall|j: int| i < j < front.len() implies (#[trigger] front[j]).0 != front[i].0 by {
            assert(pairs[j].0 != pairs[i].0);
        }
        lemma_pairs_map_last_wins(front, i);
    }
}

/// With distinct keys the denoted map has as many keys as there are pairs.
pub proof fn lemma_pairs_map_len(pairs: Seq<(Seq<char>, Seq<char>)>)
    requires
        distinct_keys(pairs),
    ensures
        pairs_map(pairs).dom().finite(),
        pairs_map(pairs).len() == pairs.len(),
    decreases pairs.len(),
{
    if pairs.len() > 0 {
        let front = pairs.drop_last();
        lemma_pairs_map_len(front);
        lemma_pairs_map_domain(front, pairs.last().0);
        if pairs_map(front).contains_key(pairs.last().0) {
            let i = choose|i: int|
                0 <= i < front.len() && (#[trigger] front[i]).0 == pairs.last().0;
            assert(pairs[i].0 == pairs[pairs.len() - 1].0);
        }
    }
}

/// Taking one pair out of a list with distinct keys removes its key from the
/// denoted map and changes nothing else.
pub proof fn lemma_pairs_map_remove(pairs: Seq<(Seq<char>, Seq<char>)>, i: int)
    requires
        distinct_keys(pairs),
        0 <= i < pairs.len(),
    ensures
        distinct_keys(pairs.remove(i)),
        pairs_map(pairs.remove(i)) == pairs_map(pairs).remove(pairs[i].0),
{
    let rest = pairs.remove(i);
    let key = pairs[i].0;
    assert forall|k: Seq<char>|
        pairs_map(rest).contains_key(k) <==> #[trigger] pairs_map(pairs).remove(key).contains_key(
            k,
        ) by {
        lemma_pairs_map_domain(rest, k);
        lemma_pairs_map_domain(pairs, k);
        if pairs_map(rest).contains_key(k) {
            let j = choose|j: int| 0 <= j < rest.len() && (#[trigger] rest[j]).0 == k;
            if j < i {
                assert(pairs[j].0 == k);
            } else {
                assert(pairs[j + 1].0 == k);
            }
        }
        if pairs_map(pairs).remove(key).contains_key(k) {
            let j = choose|j: int| 0 <= j < pairs.len() && (#[trigger] pairs[j]).0 == k;
            if j < i {
                assert(rest[j].0 == k);
            } else {
                assert(rest[j - 1].0 == k);
            }
        }
    }
    assert forall|k: Seq<char>| pairs_map(rest).contains_key(k) implies pairs_map(rest)[k]
        == pairs_map(pairs).remove(key)[k] by {
        lemma_pairs_map_domain(rest, k);
        let j = choose|j: int| 0 <= j < rest.len() && (#[trigger] rest[j]).0 == k;
        lemma_pairs_map_last_wins(rest, j);
        if j < i {
            lemma_pairs_map_last_wins(pairs, j);
        } else {
            lemma_pairs_map_last_wins(pairs, j + 1);
        }
    }
    assert(pairs_map(rest) =~= pairs_map(pairs).remove(key));
}

/// A finite map from text to text.
///
/// The entries are private: every value of this type has distinct keys, and
/// the methods below keep it so.
#[derive(Debug)]
pub struct StringMap {
    entries: Vec<(String, String)>,
}

impl View for StringMap {
    type V = Map<Seq<char>, Seq<char>>;

    closed spec fn view(&self) -> Map<Seq<char>, Seq<char>> {
        pairs_map(pair_views(self.entries@))
    }
}

impl StringMap {
    #[verifier::type_invariant]
    spec fn well_formed(&self) -> bool {
        distinct_keys(pair_views(self.entries@))
    }

    /// The entries in the order in which they are stored.
    pub closed spec fn pairs(&self) -> Seq<(Seq<char>, Seq<char>)> {
        pair_views(self.entries@)
    }

    /// What `pairs` and the view have to do with each other, for callers
    /// that walk the entries.
    pub proof fn lemma_pairs(&self)
        ensures
            self@ == pairs_map(self.pairs()),
            self@.dom().finite(),
    {
        lemma_pairs_map_domain(self.pairs(), Seq::empty());
    }

    /// The empty map.
    pub fn new() -> (r: StringMap)
        ensures
            r@ == Map::<Seq<char>, Seq<char>>::empty(),
            r.pairs().len() == 0,
    {
        StringMap { entries: Vec::new() }
    }

    /// The position of `key` among the entries, if it is there.
    fn position(&self, key: &str) -> (r: Option<usize>)
        ensures
            match r {
                Some(i) => i < self.entries@.len() && self.entries@[i as int].0@ == key@,
                None => forall|j: int|
                    0 <= j < self.entries@.len() ==> (#[trigger] self.entries@[j]).0@ != key@,
            },
    {
        let mut i: usize = 0;
        while i < self.entries.len()
            invariant
                i <= self.entries@.len(),
                forall|j: int| 0 <= j < i ==> (#[trigger] self.entries@[j]).0@ != key@,
            decreases self.entries@.len() - i,
        {
            if same_text(self.entries[i].0.as_str(), key) {
                return Some(i);
            }
            i += 1;
        }
        None
    }

    /// The number of keys.
    pub fn len(&self) -> (r: usize)
        ensures
            r == self@.len(),
            r == self.pairs().len(),
            self@.dom().finite(),
    {
        proof {
            use_type_invariant(self);
            lemma_pairs_map_len(pair_views(self.entries@));
        }
        self.entries.len()
    }

    /// Whether the map has no key.
    pub fn is_empty(&self) -> (r: bool)
        ensures
            r == (self@.len() == 0),
            r == (self@ == Map::<Seq<char>, Seq<char>>::empty()),
    {
        proof {
            use_type_invariant(self);
            lemma_pairs_map_len(pair_views(self.entries@));
            if self.entries@.len() > 0 {
                lemma_pairs_map_last_wins(pair_views(self.entries@), self.entries@.len() - 1);
            }
        }
        self.entries.len() == 0
    }

    /// Whether `key` has a value.
    pub fn contains_key(&self, key: &str) -> (r: bool)
        ensures
            r == self@.contains_key(key@),
    {
        let found = self.position(key);
        proof {
            let pairs = pair_views(self.entries@);
            lemma_pairs_map_domain(pairs, key@);
            if found is Some {
                assert(pairs[found.unwrap() as int].0 == key@);
            } else if self@.contains_key(key@) {
                let j = choose|j: int| 0 <= j < pairs.len() && (#[trigger] pairs[j]).0 == key@;
                assert(self.entries@[j].0@ == key@);
            }
        }
        found.is_some()
    }

    /// The value of `key`, if it has one.
    pub fn get(&self, key: &str) -> (r: Option<&String>)
        ensures
            match r {
                Some(v) => self@.contains_key(key@) && v@ == self@[key@],
                None => !self@.contains_key(key@),
            },
    {
        let found = self.position(key);
        proof {
            use_type_invariant(self);
            let pairs = pair_views(self.entries@);
            lemma_pairs_map_domain(pairs, key@);
            if found is Some {
                lemma_pairs_map_last_wins(pairs, found.unwrap() as int);
            } else if self@.contains_key(key@) {
                let j = choose|j: int| 0 <= j < pairs.len() && (#[trigger] pairs[j]).0 == key@;
                assert(self.entries@[j].0@ == key@);
            }
        }
        match found {
            Some(i) => Some(&self.entries[i].1),
            None => None,
        }
    }

    /// Gives `key` the value `value`, whatever it had before, and returns
    /// the value that it replaces.
    pub fn insert(&mut self, key: String, value: String) -> (r: Option<String>)
        ensures
            final(self)@ == old(self)@.insert(key@, value@),
            match r {
                Some(v) => old(self)@.contains_key(key@) && v@ == old(self)@[key@],
                None => !old(self)@.contains_key(key@),
            },
    {
        let found = self.position(key.as_str());
        let ghost before = pair_views(self.entries@);
        proof {
            use_type_invariant(&*self);
            lemma_pairs_map_domain(before, key@);
            if found is Some {
                lemma_pairs_map_last_wins(before, found.unwrap() as int);
                lemma_pairs_map_remove(before, found.unwrap() as int);
            } else if self@.contains_key(key@) {
                let j = choose|j: int| 0 <= j < before.len() && (#[trigger] before[j]).0 == key@;
                assert(self.entries@[j].0@ == key@);
            }
        }
        let mut entries: Vec<(String, String)> = Vec::new();
        std::mem::swap(&mut entries, &mut self.entries);
        let replaced = match found {
            Some(i) => {
                let gone = entries.remove(i);
                assert(pair_views(entries@) =~= before.remove(i as int));
                Some(gone.1)
            },
            None => None,
        };
        let ghost kept = pair_views(entries@);
        entries.push((key, value));
        proof {
            let after = pair_views(entries@);
            assert(after.drop_last() =~= kept);
            assert(after.last() == (key@, value@));
            assert forall|i: int, j: int| 0 <= i < j < after.len() implies after[i].0
                != after[j].0 by {
                if j == after.len() - 1 {
                    lemma_pairs_map_domain(kept, key@);
                    assert(kept[i].0 == after[i].0);
                } else {
                    assert(kept[i].0 == after[i].0 && kept[j].0 == after[j].0);
                }
            }
            assert(pairs_map(kept).insert(key@, value@) =~= pairs_map(before).insert(
                key@,
                value@,
            ));
        }
        self.entries = entries;
        replaced
    }

    /// Takes `key` out of the map and returns the value that it had.
    pub fn remove(&mut self, key: &str) -> (r: Option<String>)
        ensures
            final(self)@ == old(self)@.remove(key@),
            match r {
                Some(v) => old(self)@.contains_key(key@) && v@ == old(self)@[key@],
                None => !old(self)@.contains_key(key@),
            },
    {
        let found = self.position(key);
        let ghost before = pair_views(self.entries@);
        proof {
            use_type_invariant(&*self);
            lemma_pairs_map_domain(before, key@);
            if found is Some {
                lemma_pairs_map_last_wins(before, found.unwrap() as int);
                lemma_pairs_map_remove(before, found.unwrap() as int);
            } else if self@.contains_key(key@) {
                let j = choose|j: int| 0 <= j < before.len() && (#[trigger] before[j]).0 == key@;
                assert(self.entries@[j].0@ == key@);
            }
        }
        match found {
            Some(i) => {
                let mut entries: Vec<(String, String)> = Vec::new();
                std::mem::swap(&mut entries, &mut self.entries);
                let gone = entries.remove(i);
                assert(pair_views(entries@) =~= before.remove(i as int));
                self.entries = entries;
                Some(gone.1)
            },
            None => {
                assert(self@ =~= self@.remove(key@));
                None
            },
        }
    }

    /// The key and the value stored at position `i`; `None` where the map
    /// has no such position. Positions run from zero to `len() - 1` and
    /// change when the map does.
    pub fn entry(&self, i: usize) -> (r: Option<(&String, &String)>)
        ensures
            match r {
                Some(pair) => i < self.pairs().len() && (pair.0@, pair.1@) == self.pairs()[i as int]
                    && self@.contains_key(pair.0@) && self@[pair.0@] == pair.1@,
                None => i >= self.pairs().len(),
            },
    {
        if i < self.entries.len() {
            proof {
                use_type_invariant(self);
                lemma_pairs_map_last_wins(pair_views(self.entries@), i as int);
            }
            Some((&self.entries[i].0, &self.entries[i].1))
        } else {
            None
        }
    }

    /// The map that the pairs denote when a later pair overrides an earlier
    /// one with the same key.
    pub fn from_pairs(pairs: Vec<(String, String)>) -> (r: StringMap)
        ensures
            r@ == pairs_map(pair_views(pairs@)),
    {
        let mut map = StringMap::new();
        let mut i: usize = 0;
        while i < pairs.len()
            invariant
                i <= pairs@.len(),
                map@ == pairs_map(pair_views(pairs@).take(i as int)),
            decreases pairs@.len() - i,
        {
            let key = pairs[i].0.clone();
            let value = pairs[i].1.clone();
            map.insert(key, value);
            proof {
                let all = pair_views(pairs@);
                assert(all.take(i + 1).drop_last() =~= all.take(i as int));
                assert(all.take(i + 1).last() == all[i as int]);
            }
            i += 1;
        }
        assert(pair_views(pairs@).take(pairs@.len() as int) =~= pair_views(pairs@));
        map
    }

    /// A copy with the same keys and values.
    pub fn duplicate(&self) -> (r: StringMap)
        ensures
            r@ == self@,
    {
        let mut map = StringMap::new();
        let mut i: usize = 0;
        while i < self.entries.len()
            invariant
                i <= self.entries@.len(),
                map@ == pairs_map(pair_views(self.entries@).take(i as int)),
            decreases self.entries@.len() - i,
        {
            let key = self.entries[i].0.clone();
            let value = self.entries[i].1.clone();
            map.insert(key, value);
            proof {
                let all = pair_views(self.entries@);
                assert(all.take(i + 1).drop_last() =~= all.take(i as int));
                assert(all.take(i + 1).last() == all[i as int]);
            }
            i += 1;
        }
        assert(pair_views(self.entries@).take(self.entries@.len() as int) =~= pair_views(
            self.entries@,
        ));
        map
    }

    /// Whether `self` gives every one of its keys the value that `other`
    /// gives it.
    fn included_in(&self, other: &StringMap) -> (r: bool)
        ensures
            r == forall|k: Seq<char>| #[trigger]
                self@.contains_key(k) ==> other@.contains_key(k) && other@[k] == self@[k],
    {
        let mut i: usize = 0;
        proof {
            use_type_invariant(self);
        }
        while i < self.entries.len()
            invariant
                i <= self.entries@.len(),
                distinct_keys(pair_views(self.entries@)),
                forall|j: int|
                    0 <= j < i ==> other@.contains_key((#[trigger] self.entries@[j]).0@)
                        && other@[self.entries@[j].0@] == self.entries@[j].1@,
            decreases self.entries@.len() - i,
        {
            proof {
                lemma_pairs_map_last_wins(pair_views(self.entries@), i as int);
            }
            let same = match other.get(self.entries[i].0.as_str()) {
                Some(v) => same_text(v.as_str(), self.entries[i].1.as_str()),
                None => false,
            };
            if !same {
                assert(self@.contains_key(self.entries@[i as int].0@));
                return false;
            }
            i += 1;
        }
        proof {
            let pairs = pair_views(self.entries@);
            assert forall|k: Seq<char>| #[trigger] self@.contains_key(k) implies other@
                .contains_key(k) && other@[k] == self@[k] by {
                lemma_pairs_map_domain(pairs, k);
                let j = choose|j: int| 0 <= j < pairs.len() && (#[trigger] pairs[j]).0 == k;
                lemma_pairs_map_last_wins(pairs, j);
                assert(self.entries@[j].0@ == k);
            }
        }
        true
    }

    /// Whether two maps have the same keys with the same values, in
    /// whatever order they were filled.
    pub fn same_as(&self, other: &StringMap) -> (r: bool)
        ensures
            r == (self@ == other@),
    {
        let r = self.included_in(other) && other.included_in(self);
        proof {
            if r {
                assert(self@ =~= other@);
            }
        }
        r
    }
}

impl Clone for StringMap {
    fn clone(&self) -> (r: StringMap)
        ensures
            r@ == self@,
    {
        self.duplicate()
    }
}

} // verus!

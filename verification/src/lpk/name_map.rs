//! A small map from names to values, kept as a list of pairs in the order
//! in which the names came.

use crate::strings::str_eq;
use vstd::prelude::*;

verus! {

/// The index of the first pair with the key `key` at or behind `from`, or
/// the number of pairs where there is none.
pub open spec fn index_of_key<V>(pairs: Seq<(Seq<char>, V)>, key: Seq<char>, from: int) -> int
    decreases pairs.len() - from,
{
    if from >= pairs.len() || pairs[from].0 == key {
        from
    } else {
        index_of_key(pairs, key, from + 1)
    }
}

/// A list of pairs holds the key `key`.
pub open spec fn has_key<V>(pairs: Seq<(Seq<char>, V)>, key: Seq<char>) -> bool {
    0 <= index_of_key(pairs, key, 0) < pairs.len()
}

/// The value under `key`, where the list holds the key.
pub open spec fn value_of<V>(pairs: Seq<(Seq<char>, V)>, key: Seq<char>) -> V {
    pairs[index_of_key(pairs, key, 0)].1
}

/// The list with `value` under `key`: in the place of the old value where
/// the key is there, at the end where it is not.
pub open spec fn with_pair<V>(pairs: Seq<(Seq<char>, V)>, key: Seq<char>, value: V) -> Seq<
    (Seq<char>, V),
> {
    let at = index_of_key(pairs, key, 0);
    if 0 <= at < pairs.len() {
        pairs.update(at, (key, value))
    } else {
        pairs.push((key, value))
    }
}

/// No key is in the list twice.
pub open spec fn distinct_keys<V>(pairs: Seq<(Seq<char>, V)>) -> bool {
    forall|i: int, j: int|
        0 <= i < j < pairs.len() ==> (#[trigger] pairs[i]).0 != (#[trigger] pairs[j]).0
}

/// The search for a key ends at or behind its start, in the list or at its
/// end.
pub proof fn lemma_index_range<V>(pairs: Seq<(Seq<char>, V)>, key: Seq<char>, from: int)
    requires
        0 <= from <= pairs.len(),
    ensures
        from <= index_of_key(pairs, key, from) <= pairs.len(),
    decreases pairs.len() - from,
{
    if from < pairs.len() && pairs[from].0 != key {
        lemma_index_range(pairs, key, from + 1);
    }
}

/// Where the search for a key runs to the end of the list, no pair from
/// `from` on has the key.
pub proof fn lemma_key_not_found<V>(pairs: Seq<(Seq<char>, V)>, key: Seq<char>, from: int)
    requires
        0 <= from <= pairs.len(),
        index_of_key(pairs, key, from) >= pairs.len(),
    ensures
        forall|i: int| from <= i < pairs.len() ==> (#[trigger] pairs[i]).0 != key,
    decreases pairs.len() - from,
{
    if from < pairs.len() {
        lemma_key_not_found(pairs, key, from + 1);
    }
}

/// Where the search for a key ends inside the list, it ends at a pair with
/// the key.
pub proof fn lemma_key_found<V>(pairs: Seq<(Seq<char>, V)>, key: Seq<char>, from: int)
    requires
        0 <= from <= pairs.len(),
        index_of_key(pairs, key, from) < pairs.len(),
    ensures
        from <= index_of_key(pairs, key, from),
        pairs[index_of_key(pairs, key, from)].0 == key,
    decreases pairs.len() - from,
{
    if from < pairs.len() && pairs[from].0 != key {
        lemma_key_found(pairs, key, from + 1);
    }
}

/// A list with a pair put in holds that pair's key with that pair's value,
/// holds every other key as before, and still holds no key twice.
pub proof fn lemma_with_pair<V>(pairs: Seq<(Seq<char>, V)>, key: Seq<char>, value: V)
    requires
        distinct_keys(pairs),
    ensures
        distinct_keys(with_pair(pairs, key, value)),
        has_key(with_pair(pairs, key, value), key),
        value_of(with_pair(pairs, key, value), key) == value,
        forall|other: Seq<char>|
            other != key ==> has_key(with_pair(pairs, key, value), other) == has_key(pairs, other)
                && (has_key(pairs, other) ==> value_of(with_pair(pairs, key, value), other)
                == value_of(pairs, other)),
{
    let after = with_pair(pairs, key, value);
    let at = index_of_key(pairs, key, 0);
    lemma_index_range(pairs, key, 0);
    if at >= pairs.len() {
        lemma_key_not_found(pairs, key, 0);
    } else {
        lemma_key_found(pairs, key, 0);
    }
    lemma_same_search(pairs, after, key, 0, at);
    assert forall|other: Seq<char>| other != key implies has_key(after, other) == has_key(
        pairs,
        other,
    ) && (has_key(pairs, other) ==> value_of(after, other) == value_of(pairs, other)) by {
        lemma_other_search(pairs, key, value, other, 0);
    }
}

/// Two lists that agree in their keys before `upto`, the second with the
/// key at `upto`, are searched alike for a key that the first does not hold
/// before `upto`.
proof fn lemma_same_search<V>(
    pairs: Seq<(Seq<char>, V)>,
    after: Seq<(Seq<char>, V)>,
    key: Seq<char>,
    from: int,
    upto: int,
)
    requires
        0 <= from <= upto < after.len(),
        upto <= pairs.len(),
        after[upto].0 == key,
        forall|i: int| from <= i < upto ==> (#[trigger] after[i]).0 == pairs[i].0,
        forall|i: int| from <= i < upto ==> (#[trigger] pairs[i]).0 != key,
    ensures
        index_of_key(after, key, from) == upto,
    decreases upto - from,
{
    if from < upto {
        assert(after[from].0 == pairs[from].0);
        assert(pairs[from].0 != key);
        lemma_same_search(pairs, after, key, from + 1, upto);
    }
}

/// The search for another key than the one put in goes as before.
proof fn lemma_other_search<V>(
    pairs: Seq<(Seq<char>, V)>,
    key: Seq<char>,
    value: V,
    other: Seq<char>,
    from: int,
)
    requires
        0 <= from <= pairs.len(),
        other != key,
    ensures
        index_of_key(with_pair(pairs, key, value), other, from) < with_pair(
            pairs,
            key,
            value,
        ).len() <==> index_of_key(pairs, other, from) < pairs.len(),
        index_of_key(pairs, other, from) < pairs.len() ==> index_of_key(
            with_pair(pairs, key, value),
            other,
            from,
        ) == index_of_key(pairs, other, from) && with_pair(pairs, key, value)[index_of_key(
            pairs,
            other,
            from,
        )].1 == pairs[index_of_key(pairs, other, from)].1,
    decreases pairs.len() - from,
{
    let after = with_pair(pairs, key, value);
    let at = index_of_key(pairs, key, 0);
    lemma_index_range(pairs, key, 0);
    if at < pairs.len() {
        lemma_key_found(pairs, key, 0);
    }
    if from < pairs.len() {
        if pairs[from].0 != other {
            assert(after[from].0 != other);
            lemma_other_search(pairs, key, value, other, from + 1);
        } else {
            assert(after[from] == pairs[from]);
        }
    } else if from < after.len() {
        assert(after[from].0 == key);
        assert(index_of_key(after, other, from + 1) == from + 1);
    }
}

/// A map from names to values.
#[derive(Debug, PartialEq)]
pub struct NameMap<V> {
    pairs: Vec<(String, V)>,
}

impl<V> NameMap<V> {
    /// The pairs of the map, in the order in which their names came.
    pub closed spec fn entries(&self) -> Seq<(Seq<char>, V)> {
        self.pairs@.map_values(|pair: (String, V)| (pair.0@, pair.1))
    }

    /// No name is in the map twice.
    pub open spec fn wf(&self) -> bool {
        distinct_keys(self.entries())
    }

    /// A map without names.
    pub fn new() -> (map: Self)
        ensures
            map.wf(),
            map.entries().len() == 0,
    {
        NameMap { pairs: Vec::new() }
    }

    /// The number of names.
    pub fn len(&self) -> (len: usize)
        ensures
            len == self.entries().len(),
    {
        self.pairs.len()
    }

    /// The index of the pair of `key`, or the number of pairs where the map
    /// does not hold the key.
    pub fn find(&self, key: &str) -> (at: usize)
        ensures
            at == index_of_key(self.entries(), key@, 0),
            at <= self.entries().len(),
    {
        let mut at: usize = 0;
        while at < self.pairs.len() && !str_eq(self.pairs[at].0.as_str(), key)
            invariant
                at <= self.pairs.len(),
                index_of_key(self.entries(), key@, 0) == index_of_key(
                    self.entries(),
                    key@,
                    at as int,
                ),
            decreases self.pairs.len() - at,
        {
            at = at + 1;
        }
        at
    }

    /// Whether the map holds `key`.
    pub fn contains_key(&self, key: &str) -> (r: bool)
        ensures
            r == has_key(self.entries(), key@),
    {
        self.find(key) < self.pairs.len()
    }

    /// The value under `key`, if the map holds the key.
    pub fn get(&self, key: &str) -> (r: Option<&V>)
        ensures
            match r {
                Some(value) => has_key(self.entries(), key@) && *value == value_of(
                    self.entries(),
                    key@,
                ),
                None => !has_key(self.entries(), key@),
            },
    {
        let at = self.find(key);
        if at < self.pairs.len() {
            Some(&self.pairs[at].1)
        } else {
            None
        }
    }

    /// Puts `value` under `key`, in the place of the value that was there or
    /// as a new pair at the end.
    pub fn insert(&mut self, key: String, value: V)
        requires
            old(self).wf(),
        ensures
            final(self).wf(),
            final(self).entries() == with_pair(old(self).entries(), key@, value),
    {
        let at = self.find(key.as_str());
        let ghost before = self.entries();
        proof {
            lemma_with_pair(before, key@, value);
        }
        if at < self.pairs.len() {
            self.pairs[at] = (key, value);
            assert(self.entries() =~= before.update(at as int, (key@, value)));
        } else {
            self.pairs.push((key, value));
            assert(self.entries() =~= before.push((key@, value)));
        }
    }
}

} // verus!

//! A mapping from text to text that keeps the order in which its keys arrived.
//!
//! Query parameters, credential settings and flattened response objects are all
//! such mappings. A hash map hands its pairs out in an order that changes from
//! run to run, and a signed request must not depend on that: keeping the
//! arrival order makes every serialisation of a mapping reproducible.

use crate::text::str_eq;
use vstd::prelude::*;

verus! {

/// The index of the first pair of `pairs` whose key is `key`, or the length of
/// `pairs` if there is none.
pub open spec fn position<V>(pairs: Seq<(Seq<char>, V)>, key: Seq<char>) -> int
    decreases pairs.len(),
{
    if pairs.len() == 0 {
        0
    } else if pairs[0].0 == key {
        0
    } else {
        1 + position(pairs.drop_first(), key)
    }
}

/// The value that `pairs` holds for `key`.
pub open spec fn lookup<V>(pairs: Seq<(Seq<char>, V)>, key: Seq<char>) -> Option<V> {
    let i = position(pairs, key);
    if i < pairs.len() {
        Some(pairs[i].1)
    } else {
        None
    }
}

/// `pairs` after `key` has been given `value`: an existing pair keeps its
/// place, a new one goes to the end.
pub open spec fn put<V>(pairs: Seq<(Seq<char>, V)>, key: Seq<char>, value: V) -> Seq<
    (Seq<char>, V),
> {
    let i = position(pairs, key);
    if i < pairs.len() {
        pairs.update(i, (key, value))
    } else {
        pairs.push((key, value))
    }
}

/// No key occurs twice in `pairs`.
pub open spec fn distinct_keys<V>(pairs: Seq<(Seq<char>, V)>) -> bool {
    forall|i: int, j: int| 0 <= i < j < pairs.len() ==> pairs[i].0 != pairs[j].0
}

/// The pairs of strings as pairs of character sequences.
pub open spec fn pair_views(pairs: Seq<(String, String)>) -> Seq<(Seq<char>, Seq<char>)> {
    Seq::new(pairs.len(), |i: int| (pairs[i].0@, pairs[i].1@))
}

/// `position` finds the first pair with the key, and nothing before it has
/// that key.
pub proof fn lemma_position<V>(pairs: Seq<(Seq<char>, V)>, key: Seq<char>)
    ensures
        0 <= position(pairs, key) <= pairs.len(),
        position(pairs, key) < pairs.len() ==> pairs[position(pairs, key)].0 == key,
        forall|j: int| 0 <= j < position(pairs, key) ==> pairs[j].0 != key,
    decreases pairs.len(),
{
    if pairs.len() > 0 && pairs[0].0 != key {
        let rest = pairs.drop_first();
        lemma_position(rest, key);
        assert forall|j: int| 0 <= j < position(pairs, key) implies pairs[j].0 != key by {
            if j > 0 {
                assert(rest[j - 1] == pairs[j]);
            }
        }
    }
}

/// An index with the key, before which nothing has the key, is the position
/// of the key; so is the length where nothing has the key.
pub proof fn lemma_position_is<V>(pairs: Seq<(Seq<char>, V)>, key: Seq<char>, i: int)
    requires
        0 <= i <= pairs.len(),
        forall|j: int| 0 <= j < i ==> pairs[j].0 != key,
        i < pairs.len() ==> pairs[i].0 == key,
    ensures
        position(pairs, key) == i,
{
    lemma_position(pairs, key);
}

/// A key holds the value that it was given.
pub proof fn lemma_put_same<V>(pairs: Seq<(Seq<char>, V)>, key: Seq<char>, value: V)
    ensures
        lookup(put(pairs, key, value), key) == Some(value),
{
    lemma_position(pairs, key);
    lemma_position_is(put(pairs, key, value), key, position(pairs, key));
}

/// Giving a key a value keeps the keys distinct.
pub proof fn lemma_put_distinct<V>(pairs: Seq<(Seq<char>, V)>, key: Seq<char>, value: V)
    requires
        distinct_keys(pairs),
    ensures
        distinct_keys(put(pairs, key, value)),
{
    lemma_position(pairs, key);
}

/// A key other than the one that was given a value keeps what it had.
pub proof fn lemma_put_other<V>(
    pairs: Seq<(Seq<char>, V)>,
    key: Seq<char>,
    value: V,
    other: Seq<char>,
)
    requires
        other != key,
    ensures
        lookup(put(pairs, key, value), other) == lookup(pairs, other),
{
    lemma_position(pairs, key);
    lemma_position(pairs, other);
    let after = put(pairs, key, value);
    if position(pairs, other) < pairs.len() {
        lemma_position_is(after, other, position(pairs, other));
    } else {
        lemma_position_is(after, other, after.len() as int);
    }
}

/// What a sequence of pairs with one more pair at its end holds for a key:
/// what it held before, and the new value where it held nothing and the new
/// pair has the key.
pub proof fn lemma_lookup_push<V>(pairs: Seq<(Seq<char>, V)>, last: (Seq<char>, V), key: Seq<char>)
    ensures
        lookup(pairs.push(last), key) == if lookup(pairs, key) is Some {
            lookup(pairs, key)
        } else if last.0 == key {
            Some(last.1)
        } else {
            None
        },
{
    lemma_position(pairs, key);
    let longer = pairs.push(last);
    let i = position(pairs, key);
    if i < pairs.len() {
        lemma_position_is(longer, key, i);
    } else if last.0 == key {
        lemma_position_is(longer, key, pairs.len() as int);
    } else {
        lemma_position_is(longer, key, longer.len() as int);
    }
}

/// A sequence of pairs holds something for a key just when one of its pairs
/// has the key.
pub proof fn lemma_lookup_is_some<V>(pairs: Seq<(Seq<char>, V)>, key: Seq<char>)
    ensures
        lookup(pairs, key) is Some <==> exists|k: int|
            0 <= k < pairs.len() && (#[trigger] pairs[k]).0 == key,
{
    lemma_position(pairs, key);
    if lookup(pairs, key) is Some {
        assert(pairs[position(pairs, key)].0 == key);
    }
}

/// Whether one of the first `end` pairs has the name `name`.
pub fn name_occurs_before<T>(pairs: &Vec<(String, T)>, end: usize, name: &str) -> (found: bool)
    requires
        end <= pairs.len(),
    ensures
        found <==> exists|k: int| 0 <= k < end && (#[trigger] pairs@[k]).0@ == name@,
{
    let mut i: usize = 0;
    while i < end
        invariant
            i <= end <= pairs.len(),
            forall|k: int| 0 <= k < i ==> (#[trigger] pairs@[k]).0@ != name@,
        decreases end - i,
    {
        if str_eq(pairs[i].0.as_str(), name) {
            return true;
        }
        i += 1;
    }
    false
}

/// A mapping from text to text. The pairs stand in the order in which their
/// keys were first inserted.
#[derive(Clone, Debug)]
pub struct StringMap {
    entries: Vec<(String, String)>,
}

impl View for StringMap {
    type V = Seq<(Seq<char>, Seq<char>)>;

    closed spec fn view(&self) -> Seq<(Seq<char>, Seq<char>)> {
        pair_views(self.entries@)
    }
}

impl StringMap {
    /// No key occurs twice. The constructor establishes this and `insert`
    /// keeps it, so it holds of every mapping that a program can build.
    pub open spec fn wf(&self) -> bool {
        distinct_keys(self@)
    }

    /// The empty mapping.
    pub fn new() -> (map: StringMap)
        ensures
            map@ == Seq::<(Seq<char>, Seq<char>)>::empty(),
            map.wf(),
    {
        let map = StringMap { entries: Vec::new() };
        assert(map@ =~= Seq::<(Seq<char>, Seq<char>)>::empty());
        map
    }

    /// The number of pairs.
    pub fn len(&self) -> (n: usize)
        ensures
            n == self@.len(),
    {
        self.entries.len()
    }

    /// Whether the mapping holds no pair.
    pub fn is_empty(&self) -> (empty: bool)
        ensures
            empty == (self@.len() == 0),
    {
        self.entries.len() == 0
    }

    /// The pairs, in order.
    pub(crate) fn pairs(&self) -> (pairs: &Vec<(String, String)>)
        ensures
            pair_views(pairs@) == self@,
    {
        &self.entries
    }

    /// The key at place `index`.
    pub fn key_at(&self, index: usize) -> (key: &String)
        requires
            index < self@.len(),
        ensures
            key@ == self@[index as int].0,
    {
        &self.entries[index].0
    }

    /// The value at place `index`.
    pub fn value_at(&self, index: usize) -> (value: &String)
        requires
            index < self@.len(),
        ensures
            value@ == self@[index as int].1,
    {
        &self.entries[index].1
    }

    /// The place of `key`, or the number of pairs if the key is absent.
    fn find(&self, key: &str) -> (index: usize)
        ensures
            index == position(self@, key@),
    {
        let mut i: usize = 0;
        while i < self.entries.len()
            invariant
                i <= self.entries.len(),
                forall|j: int| 0 <= j < i ==> self@[j].0 != key@,
            decreases self.entries.len() - i,
        {
            if str_eq(self.entries[i].0.as_str(), key) {
                proof {
                    lemma_position_is(self@, key@, i as int);
                }
                return i;
            }
            i += 1;
        }
        proof {
            lemma_position_is(self@, key@, i as int);
        }
        i
    }

    /// The value of `key`, if the mapping holds the key.
    pub fn get(&self, key: &str) -> (value: Option<&String>)
        ensures
            match value {
                Some(v) => lookup(self@, key@) == Some(v@),
                None => lookup(self@, key@) is None,
            },
    {
        let i = self.find(key);
        if i < self.entries.len() {
            Some(&self.entries[i].1)
        } else {
            None
        }
    }

    /// Whether the mapping holds `key`.
    pub fn contains_key(&self, key: &str) -> (found: bool)
        ensures
            found == lookup(self@, key@).is_some(),
    {
        let i = self.find(key);
        i < self.entries.len()
    }

    /// Gives `key` the value `value`. A key that is already there keeps its
    /// place and loses its former value.
    pub fn insert(&mut self, key: String, value: String)
        ensures
            final(self)@ == put(old(self)@, key@, value@),
            old(self).wf() ==> final(self).wf(),
    {
        proof {
            if self.wf() {
                lemma_put_distinct(self@, key@, value@);
            }
        }
        let i = self.find(key.as_str());
        let ghost before = self@;
        if i < self.entries.len() {
            self.entries.set(i, (key, value));
        } else {
            self.entries.push((key, value));
        }
        assert(self@ =~= put(before, key@, value@));
    }
}

} // verus!

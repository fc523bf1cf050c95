//! An ordered list of textual key/value pairs in which no key occurs twice.
//!
//! Query parameters and command arguments are kept in this shape: writing a key
//! that is already present replaces its value in place, writing a new key
//! appends it.

use vstd::prelude::*;
use vstd::string::*;

verus! {

/// The mathematical model of a parameter list: pairs of key and value.
pub type Pairs = Seq<(Seq<char>, Seq<char>)>;

/// No key occurs at two places of `s`.
pub open spec fn distinct_keys(s: Pairs) -> bool {
    forall|i: int, j: int| 0 <= i < j < s.len() ==> s[i].0 != s[j].0
}

/// The first place at or after `start` where `key` occurs in `s`, or the
/// length of `s` where it does not occur.
pub open spec fn position_from(s: Pairs, key: Seq<char>, start: int) -> int
    decreases s.len() - start,
{
    if start < 0 || start >= s.len() {
        s.len() as int
    } else if s[start].0 == key {
        start
    } else {
        position_from(s, key, start + 1)
    }
}

/// The first place where `key` occurs in `s`, or the length of `s`.
pub open spec fn position(s: Pairs, key: Seq<char>) -> int {
    position_from(s, key, 0)
}

/// The value stored under `key`, if any.
pub open spec fn lookup(s: Pairs, key: Seq<char>) -> Option<Seq<char>> {
    let at = position(s, key);
    if at < s.len() {
        Some(s[at].1)
    } else {
        None
    }
}

/// The list after writing `value` under `key`: the last write wins, and the
/// other pairs keep their places.
pub open spec fn put(s: Pairs, key: Seq<char>, value: Seq<char>) -> Pairs {
    let at = position(s, key);
    if at < s.len() {
        s.update(at, (key, value))
    } else {
        s.push((key, value))
    }
}

/// Scanning from `start` finds `key` at `at` when no earlier place holds it.
pub proof fn lemma_position_from(s: Pairs, key: Seq<char>, start: int, at: int)
    requires
        0 <= start <= at <= s.len(),
        forall|j: int| start <= j < at ==> s[j].0 != key,
        at == s.len() || s[at].0 == key,
    ensures
        position_from(s, key, start) == at,
    decreases at - start,
{
    if start < at {
        lemma_position_from(s, key, start + 1, at);
    }
}

/// What `position` returns: a place that holds `key` with none before it, or
/// the length when no place holds it.
pub proof fn lemma_position_from_found(s: Pairs, key: Seq<char>, start: int)
    requires
        0 <= start <= s.len(),
    ensures
        start <= position_from(s, key, start) <= s.len(),
        position_from(s, key, start) < s.len() ==> s[position_from(s, key, start)].0 == key,
        forall|j: int| start <= j < position_from(s, key, start) ==> s[j].0 != key,
    decreases s.len() - start,
{
    if start < s.len() && s[start].0 != key {
        lemma_position_from_found(s, key, start + 1);
    }
}

/// Writing a key leaves it where it was, or puts it at the end.
pub proof fn lemma_put_position(s: Pairs, key: Seq<char>, value: Seq<char>)
    ensures
        position(put(s, key, value), key) == position(s, key),
        put(s, key, value).len() == if position(s, key) < s.len() {
            s.len()
        } else {
            s.len() + 1
        },
{
    lemma_position_from_found(s, key, 0);
    let at = position(s, key);
    let t = put(s, key, value);
    assert forall|j: int| 0 <= j < at implies t[j].0 != key by {
        assert(t[j] == s[j]);
    }
    lemma_position_from(t, key, 0, at);
}

/// After a write the key holds the written value.
pub proof fn lemma_put_then_lookup(s: Pairs, key: Seq<char>, value: Seq<char>)
    ensures
        lookup(put(s, key, value), key) == Some(value),
{
    lemma_put_position(s, key, value);
    lemma_position_from_found(s, key, 0);
}

/// A write under one key leaves every other key as it was.
pub proof fn lemma_put_keeps_others(s: Pairs, key: Seq<char>, value: Seq<char>, other: Seq<char>)
    requires
        other != key,
    ensures
        lookup(put(s, key, value), other) == lookup(s, other),
{
    lemma_position_from_found(s, key, 0);
    lemma_position_from_found(s, other, 0);
    let t = put(s, key, value);
    let at = position(s, other);
    assert forall|j: int| 0 <= j < at implies t[j].0 != other by {
        if j != position(s, key) {
            assert(t[j] == s[j]);
        }
    }
    if at < s.len() {
        assert(t[at] == s[at]);
        lemma_position_from(t, other, 0, at);
    } else {
        assert forall|j: int| 0 <= j < t.len() implies t[j].0 != other by {
            if j < s.len() && j != position(s, key) {
                assert(t[j] == s[j]);
            }
        }
        lemma_position_from(t, other, 0, t.len() as int);
    }
}

/// Where the keys are distinct, each pair is found under its key.
pub proof fn lemma_lookup_distinct(s: Pairs, at: int)
    requires
        distinct_keys(s),
        0 <= at < s.len(),
    ensures
        lookup(s, s[at].0) == Some(s[at].1),
{
    lemma_position_from(s, s[at].0, 0, at);
}

/// Two writes under one key leave what the second alone would have left.
pub proof fn lemma_put_twice(s: Pairs, key: Seq<char>, first: Seq<char>, second: Seq<char>)
    ensures
        put(put(s, key, first), key, second) == put(s, key, second),
        lookup(put(put(s, key, first), key, second), key) == Some(second),
{
    lemma_put_position(s, key, first);
    lemma_position_from_found(s, key, 0);
    lemma_put_then_lookup(s, key, second);
    assert(put(put(s, key, first), key, second) =~= put(s, key, second));
}

/// A write keeps the keys distinct.
pub proof fn lemma_put_distinct(s: Pairs, key: Seq<char>, value: Seq<char>)
    requires
        distinct_keys(s),
    ensures
        distinct_keys(put(s, key, value)),
{
    lemma_position_from_found(s, key, 0);
}

/// Two lists hold the same pairs, in whatever order: they are of one length,
/// and each pair of the first is found in the second.
pub open spec fn same_pairs(a: Pairs, b: Pairs) -> bool {
    &&& a.len() == b.len()
    &&& forall|i: int| 0 <= i < a.len() ==> lookup(b, (#[trigger] a[i]).0) == Some(a[i].1)
}

/// A list of key/value pairs with distinct keys. Two lists are equal when
/// they hold the same pairs, in whatever order.
#[derive(Debug)]
pub struct Params {
    entries: Vec<(String, String)>,
}

spec fn model(entries: Vec<(String, String)>) -> Pairs {
    Seq::new(entries.len() as nat, |i: int| (entries[i].0@, entries[i].1@))
}

impl View for Params {
    type V = Pairs;

    closed spec fn view(&self) -> Pairs {
        model(self.entries)
    }
}

impl PartialEq for Params {
    fn eq(&self, other: &Params) -> (r: bool) {
        if self.entries.len() != other.entries.len() {
            return false;
        }
        let mut i: usize = 0;
        while i < self.entries.len()
            invariant
                i <= self.entries.len(),
                self.entries.len() == other.entries.len(),
                forall|j: int|
                    0 <= j < i ==> lookup(other@, (#[trigger] self@[j]).0) == Some(self@[j].1),
            decreases self.entries.len() - i,
        {
            let at = other.find(&self.entries[i].0);
            assert(self@[i as int] == (self.entries[i as int].0@, self.entries[i as int].1@));
            if at >= other.entries.len() {
                assert(lookup(other@, self@[i as int].0) is None);
                return false;
            }
            assert(other@[at as int] == (other.entries[at as int].0@, other.entries[at as int].1@));
            if !(other.entries[at].1 == self.entries[i].1) {
                assert(lookup(other@, self@[i as int].0) != Some(self@[i as int].1));
                return false;
            }
            i += 1;
        }
        true
    }
}

impl vstd::std_specs::cmp::PartialEqSpecImpl for Params {
    open spec fn obeys_eq_spec() -> bool {
        true
    }

    open spec fn eq_spec(&self, other: &Params) -> bool {
        same_pairs(self@, other@)
    }
}

impl Clone for Params {
    fn clone(&self) -> (r: Params)
        ensures
            r@ == self@,
    {
        let mut entries: Vec<(String, String)> = Vec::new();
        let mut i: usize = 0;
        while i < self.entries.len()
            invariant
                i <= self.entries.len(),
                entries.len() == i,
                forall|j: int| 0 <= j < i ==> model(entries)[j] == self@[j],
            decreases self.entries.len() - i,
        {
            let key = self.entries[i].0.clone();
            let value = self.entries[i].1.clone();
            entries.push((key, value));
            i += 1;
        }
        proof {
            use_type_invariant(self);
            assert(model(entries) =~= self@);
        }
        Params { entries }
    }
}

impl Params {
    #[verifier::type_invariant]
    spec fn keys_distinct(&self) -> bool {
        distinct_keys(self@)
    }

    /// The empty list.
    pub fn new() -> (r: Params)
        ensures
            r@ == Seq::<(Seq<char>, Seq<char>)>::empty(),
            distinct_keys(r@),
    {
        let entries: Vec<(String, String)> = Vec::new();
        assert(model(entries) =~= Seq::<(Seq<char>, Seq<char>)>::empty());
        Params { entries }
    }

    /// The number of pairs.
    pub fn len(&self) -> (n: usize)
        ensures
            n == self@.len(),
            distinct_keys(self@),
    {
        proof {
            use_type_invariant(self);
        }
        self.entries.len()
    }

    /// The key of the pair at place `i`.
    pub fn key_at(&self, i: usize) -> (k: &str)
        requires
            i < self@.len(),
        ensures
            k@ == self@[i as int].0,
    {
        self.entries[i].0.as_str()
    }

    /// The value of the pair at place `i`.
    pub fn value_at(&self, i: usize) -> (v: &str)
        requires
            i < self@.len(),
        ensures
            v@ == self@[i as int].1,
    {
        self.entries[i].1.as_str()
    }

    fn find(&self, key: &String) -> (at: usize)
        ensures
            at == position(self@, key@),
            at <= self@.len(),
    {
        let mut i: usize = 0;
        while i < self.entries.len()
            invariant
                i <= self.entries.len(),
                forall|j: int| 0 <= j < i ==> self@[j].0 != key@,
            decreases self.entries.len() - i,
        {
            if self.entries[i].0 == *key {
                proof {
                    lemma_position_from(self@, key@, 0, i as int);
                }
                return i;
            }
            i += 1;
        }
        proof {
            lemma_position_from(self@, key@, 0, i as int);
        }
        i
    }

    /// The value stored under `key`, if any.
    pub fn get(&self, key: &str) -> (r: Option<&str>)
        ensures
            r is Some <==> lookup(self@, key@) is Some,
            r is Some ==> Some(r.unwrap()@) == lookup(self@, key@),
    {
        let wanted = String::from_str(key);
        let at = self.find(&wanted);
        if at < self.entries.len() {
            Some(self.entries[at].1.as_str())
        } else {
            None
        }
    }

    /// Writes `value` under `key`, replacing the value that the key had.
    pub fn insert(self, key: String, value: String) -> (r: Params)
        ensures
            r@ == put(self@, key@, value@),
            distinct_keys(r@),
    {
        proof {
            use_type_invariant(&self);
            lemma_put_distinct(self@, key@, value@);
        }
        let at = self.find(&key);
        let ghost before = self@;
        let mut entries = self.entries;
        if at < entries.len() {
            entries.set(at, (key, value));
        } else {
            entries.push((key, value));
        }
        assert(model(entries) =~= put(before, key@, value@));
        Params { entries }
    }
}

} // verus!

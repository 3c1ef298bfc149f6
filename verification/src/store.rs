//! A small verified key-value store with `get` / `insert` / `contains_key`
//! semantics, keyed by strings.
//!
//! The store is log-structured: `insert` appends a binding and a lookup
//! returns the latest binding for a key, so an insert for an existing key
//! overwrites the visible value. Nothing is ever deleted, which matches the
//! needs of this library: profiles, content items and entitlement snapshots
//! are only ever created or overwritten.
//!
//! The view of a store is the mathematical map from each bound key to the
//! value of its latest binding.

use vstd::prelude::*;
use vstd::string::StringExecFns;

verus! {

/// The map described by a sequence of bindings, later bindings winning.
pub open spec fn latest_bindings<V: View>(s: Seq<(String, V)>) -> Map<Seq<char>, V::V>
    decreases s.len(),
{
    if s.len() == 0 {
        Map::empty()
    } else {
        latest_bindings(s.drop_last()).insert(s.last().0@, s.last().1@)
    }
}

/// A string-keyed store of values, with the latest binding for each key
/// visible.
pub struct KvStore<V> {
    entries: Vec<(String, V)>,
}

impl<V: View> View for KvStore<V> {
    type V = Map<Seq<char>, V::V>;

    closed spec fn view(&self) -> Map<Seq<char>, V::V> {
        latest_bindings(self.entries@)
    }
}

/// If every binding's key differs from `k`, the described map has no entry
/// for `k`.
proof fn lemma_latest_bindings_absent<V: View>(s: Seq<(String, V)>, k: Seq<char>)
    requires
        forall|j: int| 0 <= j < s.len() ==> s[j].0@ != k,
    ensures
        !latest_bindings(s).contains_key(k),
    decreases s.len(),
{
    if s.len() > 0 {
        lemma_latest_bindings_absent(s.drop_last(), k);
    }
}

/// The binding at position `i`, when no later binding shares its key,
/// is the one the described map holds for that key.
proof fn lemma_latest_bindings_found<V: View>(s: Seq<(String, V)>, i: int)
    requires
        0 <= i < s.len(),
        forall|j: int| i < j < s.len() ==> s[j].0@ != s[i].0@,
    ensures
        latest_bindings(s).contains_key(s[i].0@),
        latest_bindings(s)[s[i].0@] == s[i].1@,
    decreases s.len(),
{
    if i < s.len() - 1 {
        assert(s.drop_last()[i] == s[i]);
        lemma_latest_bindings_found(s.drop_last(), i);
    }
}

impl<V: View> KvStore<V> {
    /// An empty store.
    pub fn new() -> (r: Self)
        ensures
            r@ == Map::<Seq<char>, V::V>::empty(),
    {
        let r = KvStore { entries: Vec::new() };
        proof {
            assert(r@ =~= Map::<Seq<char>, V::V>::empty());
        }
        r
    }

    /// Bind `key` to `value`, overwriting any visible earlier binding.
    pub fn insert(&mut self, key: String, value: V)
        ensures
            final(self)@ == old(self)@.insert(key@, value@),
    {
        self.entries.push((key, value));
        proof {
            assert(self.entries@.drop_last() =~= old(self).entries@);
        }
    }

    /// The value of the latest binding for `key`, if any.
    pub fn get(&self, key: &str) -> (r: Option<&V>)
        ensures
            match r {
                Some(v) => self@.contains_key(key@) && self@[key@] == v@,
                None => !self@.contains_key(key@),
            },
    {
        let k: String = String::from_str(key);
        let n: usize = self.entries.len();
        let mut i: usize = n;
        while i > 0
            invariant
                i <= n,
                n == self.entries@.len(),
                k@ == key@,
                forall|j: int| i <= j < n ==> self.entries@[j].0@ != key@,
            decreases i,
        {
            i = i - 1;
            let pair: &(String, V) = &self.entries[i];
            if pair.0 == k {
                proof {
                    lemma_latest_bindings_found(self.entries@, i as int);
                }
                return Some(&pair.1);
            }
        }
        proof {
            lemma_latest_bindings_absent(self.entries@, key@);
        }
        None
    }

    /// Read-only access to the journal of bindings, in the order they were
    /// made. A host that persists the store elsewhere can replay them; the
    /// visible map is the journal's latest bindings.
    pub fn entries(&self) -> (r: &Vec<(String, V)>)
        ensures
            latest_bindings(r@) == self@,
    {
        &self.entries
    }

    /// Whether the store holds a binding for `key`.
    pub fn contains_key(&self, key: &str) -> (r: bool)
        ensures
            r == self@.contains_key(key@),
    {
        self.get(key).is_some()
    }
}

impl Clone for KvStore<String> {
    /// Cloning preserves the visible bindings exactly.
    fn clone(&self) -> (res: Self)
        ensures
            res@ == self@,
    {
        let mut entries: Vec<(String, String)> = Vec::new();
        let n: usize = self.entries.len();
        let mut i: usize = 0;
        while i < n
            invariant
                i <= n,
                n == self.entries@.len(),
                entries@.len() == i,
                forall|j: int| 0 <= j < i ==> entries@[j] == self.entries@[j],
            decreases n - i,
        {
            let pair: &(String, String) = &self.entries[i];
            entries.push((pair.0.clone(), pair.1.clone()));
            i = i + 1;
        }
        let res = KvStore { entries };
        proof {
            assert(res.entries@ =~= self.entries@);
        }
        res
    }
}

impl Clone for KvStore<u64> {
    /// Cloning preserves the visible bindings exactly.
    fn clone(&self) -> (res: Self)
        ensures
            res@ == self@,
    {
        let mut entries: Vec<(String, u64)> = Vec::new();
        let n: usize = self.entries.len();
        let mut i: usize = 0;
        while i < n
            invariant
                i <= n,
                n == self.entries@.len(),
                entries@.len() == i,
                forall|j: int| 0 <= j < i ==> entries@[j] == self.entries@[j],
            decreases n - i,
        {
            let pair: &(String, u64) = &self.entries[i];
            entries.push((pair.0.clone(), pair.1));
            i = i + 1;
        }
        let res = KvStore { entries };
        proof {
            assert(res.entries@ =~= self.entries@);
        }
        res
    }
}

/// String-slice equality by contents, taken through owned strings, whose
/// equality operator carries a specification.
pub fn str_eq(a: &str, b: &str) -> (r: bool)
    ensures
        r == (a@ == b@),
{
    let sa: String = String::from_str(a);
    let sb: String = String::from_str(b);
    sa == sb
}

} // verus!

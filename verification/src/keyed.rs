//! A small map from transaction keys to values, kept as a list of entries
//! with distinct keys.
use vstd::prelude::*;

use crate::common::TransactionKey;

verus! {

/// The map that a list of entries stands for; a later entry for a key wins.
pub open spec fn keyed_map<V>(s: Seq<(TransactionKey, V)>) -> Map<TransactionKey, V>
    decreases s.len(),
{
    if s.len() == 0 {
        Map::empty()
    } else {
        keyed_map(s.drop_last()).insert(s.last().0, s.last().1)
    }
}

/// No two entries share a key.
pub open spec fn keys_unique<V>(s: Seq<(TransactionKey, V)>) -> bool {
    forall|i: int, j: int| 0 <= i < s.len() && 0 <= j < s.len() && i != j ==> #[trigger] s[i].0 != #[trigger] s[j].0
}

proof fn lemma_keyed_at<V>(s: Seq<(TransactionKey, V)>, i: int)
    requires
        keys_unique(s),
        0 <= i < s.len(),
    ensures
        keyed_map(s).dom().contains(s[i].0),
        keyed_map(s)[s[i].0] == s[i].1,
    decreases s.len(),
{
    if i < s.len() - 1 {
        assert(s.drop_last()[i] == s[i]);
        lemma_keyed_at(s.drop_last(), i);
    }
}

proof fn lemma_keyed_dom<V>(s: Seq<(TransactionKey, V)>, k: TransactionKey)
    ensures
        keyed_map(s).dom().contains(k) <==> exists|i: int| 0 <= i < s.len() && #[trigger] s[i].0 == k,
    decreases s.len(),
{
    if s.len() > 0 {
        lemma_keyed_dom(s.drop_last(), k);
        if keyed_map(s.drop_last()).dom().contains(k) {
            let i = choose|i: int| 0 <= i < s.drop_last().len() && #[trigger] s.drop_last()[i].0 == k;
            assert(s[i].0 == k);
        }
        if exists|i: int| 0 <= i < s.len() && #[trigger] s[i].0 == k {
            let i = choose|i: int| 0 <= i < s.len() && #[trigger] s[i].0 == k;
            if i < s.len() - 1 {
                assert(s.drop_last()[i].0 == k);
            }
        }
    }
}

proof fn lemma_keyed_remove<V>(s: Seq<(TransactionKey, V)>, i: int)
    requires
        keys_unique(s),
        0 <= i < s.len(),
    ensures
        keys_unique(s.remove(i)),
        keyed_map(s.remove(i)) == keyed_map(s).remove(s[i].0),
{
    let r = s.remove(i);
    let k = s[i].0;
    assert forall|a: int, b: int| 0 <= a < r.len() && 0 <= b < r.len() && a != b implies #[trigger] r[a].0
        != #[trigger] r[b].0 by {
        let a1 = if a < i { a } else { a + 1 };
        let b1 = if b < i { b } else { b + 1 };
        assert(r[a] == s[a1]);
        assert(r[b] == s[b1]);
    }
    assert forall|key: TransactionKey| #[trigger] keyed_map(r).dom().contains(key) <==> keyed_map(s).remove(k).dom().contains(key) by {
        lemma_keyed_dom(r, key);
        lemma_keyed_dom(s, key);
        if keyed_map(s).remove(k).dom().contains(key) {
            let j = choose|j: int| 0 <= j < s.len() && #[trigger] s[j].0 == key;
            assert(j != i);
            let j1 = if j < i { j } else { j - 1 };
            assert(r[j1] == s[j]);
        }
        if keyed_map(r).dom().contains(key) {
            let j = choose|j: int| 0 <= j < r.len() && #[trigger] r[j].0 == key;
            let j1 = if j < i { j } else { j + 1 };
            assert(r[j] == s[j1]);
            assert(j1 != i);
        }
    }
    assert forall|key: TransactionKey| #[trigger] keyed_map(r).dom().contains(key) implies keyed_map(r)[key] == keyed_map(s).remove(k)[key] by {
        lemma_keyed_dom(r, key);
        let j = choose|j: int| 0 <= j < r.len() && #[trigger] r[j].0 == key;
        let j1 = if j < i { j } else { j + 1 };
        assert(r[j] == s[j1]);
        lemma_keyed_at(r, j);
        lemma_keyed_at(s, j1);
    }
    assert(keyed_map(r) =~= keyed_map(s).remove(k));
}

proof fn lemma_keyed_push<V>(s: Seq<(TransactionKey, V)>, k: TransactionKey, v: V)
    requires
        keys_unique(s),
        !keyed_map(s).dom().contains(k),
    ensures
        keys_unique(s.push((k, v))),
        keyed_map(s.push((k, v))) == keyed_map(s).insert(k, v),
{
    let t = s.push((k, v));
    assert(t.drop_last() =~= s);
    assert forall|a: int, b: int| 0 <= a < t.len() && 0 <= b < t.len() && a != b implies #[trigger] t[a].0
        != #[trigger] t[b].0 by {
        if a < s.len() && b < s.len() {
            assert(t[a] == s[a]);
            assert(t[b] == s[b]);
        } else if a < s.len() {
            lemma_keyed_at(s, a);
        } else if b < s.len() {
            lemma_keyed_at(s, b);
        }
    }
}

/// Values keyed by transaction.
#[derive(Debug)]
pub struct KeyedVec<V> {
    entries: Vec<(TransactionKey, V)>,
}

impl<V> View for KeyedVec<V> {
    type V = Map<TransactionKey, V>;

    closed spec fn view(&self) -> Map<TransactionKey, V> {
        keyed_map(self.entries@)
    }
}

impl<V> KeyedVec<V> {
    pub closed spec fn wf(&self) -> bool {
        keys_unique(self.entries@)
    }

    pub fn new() -> (r: KeyedVec<V>)
        ensures
            r.wf(),
            r@ == Map::<TransactionKey, V>::empty(),
    {
        KeyedVec { entries: Vec::new() }
    }

    fn find(&self, key: TransactionKey) -> (r: Option<usize>)
        requires
            self.wf(),
        ensures
            match r {
                Some(i) => i < self.entries@.len() && self.entries@[i as int].0 == key,
                None => !self@.dom().contains(key),
            },
    {
        let mut i: usize = 0;
        while i < self.entries.len()
            invariant
                i <= self.entries@.len(),
                forall|j: int| 0 <= j < i ==> (#[trigger] self.entries@[j]).0 != key,
            decreases self.entries@.len() - i,
        {
            if self.entries[i].0 == key {
                return Some(i);
            }
            i = i + 1;
        }
        proof {
            lemma_keyed_dom(self.entries@, key);
        }
        None
    }

    /// Whether `key` has a value.
    pub fn contains_key(&self, key: TransactionKey) -> (r: bool)
        requires
            self.wf(),
        ensures
            r == self@.dom().contains(key),
    {
        match self.find(key) {
            Some(i) => {
                proof {
                    lemma_keyed_at(self.entries@, i as int);
                }
                true
            },
            None => false,
        }
    }

    /// Takes the value of `key` out, if it has one.
    pub fn remove(&mut self, key: TransactionKey) -> (r: Option<V>)
        requires
            old(self).wf(),
        ensures
            final(self).wf(),
            final(self)@ == old(self)@.remove(key),
            r == (if old(self)@.dom().contains(key) { Some(old(self)@[key]) } else { None::<V> }),
    {
        match self.find(key) {
            Some(i) => {
                proof {
                    lemma_keyed_at(self.entries@, i as int);
                    lemma_keyed_remove(self.entries@, i as int);
                }
                let (_, v) = self.entries.remove(i);
                Some(v)
            },
            None => {
                assert(self@ =~= old(self)@.remove(key));
                None
            },
        }
    }

    /// Gives `key` the value `value`, replacing and returning any earlier one.
    pub fn insert(&mut self, key: TransactionKey, value: V) -> (r: Option<V>)
        requires
            old(self).wf(),
        ensures
            final(self).wf(),
            final(self)@ == old(self)@.insert(key, value),
            r == (if old(self)@.dom().contains(key) { Some(old(self)@[key]) } else { None::<V> }),
    {
        let r = self.remove(key);
        proof {
            lemma_keyed_push(self.entries@, key, value);
        }
        self.entries.push((key, value));
        assert(self@ =~= old(self)@.insert(key, value));
        r
    }

    /// Takes every value out, leaving the map empty.
    pub fn take_all(&mut self) -> (r: Vec<V>)
        requires
            old(self).wf(),
        ensures
            final(self).wf(),
            final(self)@ == Map::<TransactionKey, V>::empty(),
            r@.len() == old(self)@.dom().len(),
            forall|k: TransactionKey| #[trigger] old(self)@.dom().contains(k) ==> r@.contains(old(self)@[k]),
            forall|i: int| 0 <= i < r@.len() ==> old(self)@.contains_value(#[trigger] r@[i]),
    {
        let mut entries: Vec<(TransactionKey, V)> = Vec::new();
        core::mem::swap(&mut entries, &mut self.entries);
        let ghost s = entries@;
        proof {
            lemma_keyed_len(s);
        }
        let mut out: Vec<V> = Vec::new();
        let mut i: usize = 0;
        let n = entries.len();
        while i < n
            invariant
                n == s.len(),
                keys_unique(s),
                i <= n,
                entries@ == s.skip(i as int),
                out@.len() == i,
                forall|j: int| 0 <= j < i ==> out@[j] == s[j].1,
            decreases n - i,
        {
            let (_, v) = entries.remove(0);
            assert(entries@ =~= s.skip(i as int + 1));
            out.push(v);
            i = i + 1;
        }
        assert(self@ =~= Map::<TransactionKey, V>::empty());
        assert forall|k: TransactionKey| #[trigger] old(self)@.dom().contains(k) implies out@.contains(old(self)@[k]) by {
            lemma_keyed_dom(s, k);
            let j = choose|j: int| 0 <= j < s.len() && #[trigger] s[j].0 == k;
            lemma_keyed_at(s, j);
            assert(out@[j] == s[j].1);
        }
        assert forall|j: int| 0 <= j < out@.len() implies old(self)@.contains_value(#[trigger] out@[j]) by {
            lemma_keyed_at(s, j);
            assert(old(self)@.dom().contains(s[j].0) && old(self)@[s[j].0] == out@[j]);
        }
        out
    }
}

proof fn lemma_keyed_len<V>(s: Seq<(TransactionKey, V)>)
    requires
        keys_unique(s),
    ensures
        keyed_map(s).dom().len() == s.len(),
        keyed_map(s).dom().finite(),
    decreases s.len(),
{
    if s.len() > 0 {
        let p = s.drop_last();
        assert(keys_unique(p)) by {
            assert forall|a: int, b: int| 0 <= a < p.len() && 0 <= b < p.len() && a != b implies #[trigger] p[a].0
                != #[trigger] p[b].0 by {
                assert(p[a] == s[a]);
                assert(p[b] == s[b]);
            }
        }
        lemma_keyed_len(p);
        lemma_keyed_dom(p, s.last().0);
        if keyed_map(p).dom().contains(s.last().0) {
            let j = choose|j: int| 0 <= j < p.len() && #[trigger] p[j].0 == s.last().0;
            assert(s[j].0 == s[s.len() - 1].0);
        }
    }
}

} // verus!

//! A key-to-record store: what the tracker keeps in each of its files. Keys are
//! unique; the store is viewed as a map from key text to the record's view.

use vstd::prelude::*;
use vstd::string::StrSliceExecFns;

verus! {

/// Lexicographic order on texts, from position `i` on.
pub open spec fn less_from(a: Seq<char>, b: Seq<char>, i: int) -> bool
    decreases a.len() - i,
{
    if i < 0 || i >= a.len() {
        i >= 0 && i < b.len()
    } else if i >= b.len() {
        false
    } else if a[i] != b[i] {
        a[i] < b[i]
    } else {
        less_from(a, b, i + 1)
    }
}

/// `a` sorts strictly before `b`: character codes compared in turn, a proper
/// prefix first.
pub open spec fn key_less(a: Seq<char>, b: Seq<char>) -> bool {
    less_from(a, b, 0)
}

/// Each key sorts strictly before the next.
pub open spec fn sorted_keys(s: Seq<Seq<char>>) -> bool {
    forall|i: int| 0 <= i < s.len() - 1 ==> key_less(#[trigger] s[i], s[i + 1])
}

proof fn lemma_less_total(a: Seq<char>, b: Seq<char>, i: int)
    requires
        0 <= i <= a.len(),
        i <= b.len(),
        a.subrange(0, i) == b.subrange(0, i),
        a != b,
        !less_from(a, b, i),
    ensures
        less_from(b, a, i),
    decreases a.len() - i,
{
    if i == a.len() {
        if i == b.len() {
            assert(a =~= a.subrange(0, i));
            assert(b =~= b.subrange(0, i));
        }
    } else if i < b.len() && a[i] == b[i] {
        assert(a.subrange(0, i + 1) =~= a.subrange(0, i).push(a[i]));
        assert(b.subrange(0, i + 1) =~= b.subrange(0, i).push(b[i]));
        lemma_less_total(a, b, i + 1);
    }
}

/// Of two different texts, one sorts before the other.
pub proof fn lemma_key_order_total(a: Seq<char>, b: Seq<char>)
    requires
        a != b,
        !key_less(a, b),
    ensures
        key_less(b, a),
{
    assert(a.subrange(0, 0) =~= b.subrange(0, 0));
    lemma_less_total(a, b, 0);
}

/// Whether `a` sorts strictly before `b`.
pub fn text_less(a: &str, b: &str) -> (r: bool)
    ensures
        r == key_less(a@, b@),
{
    let n = a.unicode_len();
    let m = b.unicode_len();
    let mut i: usize = 0;
    while i < n && i < m
        invariant
            n == a@.len(),
            m == b@.len(),
            i <= n,
            i <= m,
            less_from(a@, b@, 0) == less_from(a@, b@, i as int),
        decreases n - i,
    {
        let x = a.get_char(i);
        let y = b.get_char(i);
        if x != y {
            return x < y;
        }
        i = i + 1;
    }
    i < m
}

pub open spec fn has_key<T>(e: Seq<(String, T)>, k: Seq<char>) -> bool {
    exists|i: int| 0 <= i < e.len() && (#[trigger] e[i]).0@ == k
}

pub open spec fn index_of<T>(e: Seq<(String, T)>, k: Seq<char>) -> int {
    choose|i: int| 0 <= i < e.len() && (#[trigger] e[i]).0@ == k
}

pub open spec fn unique_keys<T>(e: Seq<(String, T)>) -> bool {
    forall|i: int, j: int|
        0 <= i < e.len() && 0 <= j < e.len() && i != j ==> (#[trigger] e[i]).0@ != (#[trigger] e[j]).0@
}

/// The map that a sequence of entries stands for.
pub open spec fn map_of<T: View>(e: Seq<(String, T)>) -> Map<Seq<char>, T::V> {
    Map::new(|k: Seq<char>| has_key(e, k), |k: Seq<char>| e[index_of(e, k)].1@)
}

proof fn lemma_index_of<T>(e: Seq<(String, T)>, i: int)
    requires
        unique_keys(e),
        0 <= i < e.len(),
    ensures
        has_key(e, e[i].0@),
        index_of(e, e[i].0@) == i,
{
    let k = e[i].0@;
    assert(has_key(e, k));
    let j = index_of(e, k);
    assert(e[j].0@ == k);
}

/// The texts of a sequence of strings.
pub open spec fn key_views(v: Seq<String>) -> Seq<Seq<char>> {
    v.map_values(|s: String| s@)
}

/// Records under unique text keys.
#[derive(Debug)]
pub struct Store<T> {
    entries: Vec<(String, T)>,
}

impl<T: View> View for Store<T> {
    type V = Map<Seq<char>, T::V>;

    closed spec fn view(&self) -> Map<Seq<char>, T::V> {
        map_of(self.entries@)
    }
}

impl<T> Store<T> {
    #[verifier::type_invariant]
    spec fn keys_distinct(self) -> bool {
        unique_keys(self.entries@)
    }
}

impl<T> Store<T> {
    /// Replaces the entries by `e`, which has unique keys, and returns the old ones.
    fn swap_entries(&mut self, e: Vec<(String, T)>) -> (r: Vec<(String, T)>)
        requires
            unique_keys(e@),
        ensures
            r@ == old(self).entries@,
            final(self).entries@ == e@,
    {
        let mut e = e;
        core::mem::swap(&mut self.entries, &mut e);
        e
    }
}

impl<T: View> Store<T> {
    /// An empty store.
    pub fn new() -> (r: Store<T>)
        ensures
            r@ == Map::<Seq<char>, T::V>::empty(),
    {
        let r = Store { entries: Vec::new() };
        assert(r@ =~= Map::<Seq<char>, T::V>::empty());
        r
    }

    /// The position of the entry under `k`, if there is one.
    fn find(&self, k: &str) -> (r: Option<usize>)
        ensures
            match r {
                Some(i) => i < self.entries@.len() && self.entries@[i as int].0@ == k@
                    && self@.contains_key(k@) && self@[k@] == self.entries@[i as int].1@,
                None => !self@.contains_key(k@),
            },
    {
        proof {
            use_type_invariant(self);
        }
        let mut i: usize = 0;
        while i < self.entries.len()
            invariant
                i <= self.entries@.len(),
                unique_keys(self.entries@),
                forall|j: int| 0 <= j < i ==> (#[trigger] self.entries@[j]).0@ != k@,
            decreases self.entries@.len() - i,
        {
            if crate::text::text_eq(self.entries[i].0.as_str(), k) {
                proof {
                    lemma_index_of(self.entries@, i as int);
                }
                return Some(i);
            }
            i = i + 1;
        }
        None
    }

    /// Whether a record is kept under `k`.
    pub fn contains_key(&self, k: &str) -> (r: bool)
        ensures
            r == self@.contains_key(k@),
    {
        self.find(k).is_some()
    }

    /// The record kept under `k`, if any.
    pub fn get(&self, k: &str) -> (r: Option<&T>)
        ensures
            match r {
                Some(v) => self@.contains_key(k@) && v@ == self@[k@],
                None => !self@.contains_key(k@),
            },
    {
        match self.find(k) {
            Some(i) => Some(&self.entries[i].1),
            None => None,
        }
    }

    /// Adds `v` under `k` unless `k` is taken; the store is unchanged then.
    pub fn try_insert(&mut self, k: String, v: T) -> (r: bool)
        ensures
            r == !old(self)@.contains_key(k@),
            r ==> final(self)@ == old(self)@.insert(k@, v@),
            !r ==> final(self)@ == old(self)@,
    {
        if self.contains_key(k.as_str()) {
            return false;
        }
        proof {
            use_type_invariant(&*self);
        }
        let ghost e0 = self.entries@;
        let ghost kv = k@;
        let ghost vv = v@;
        let mut e = self.swap_entries(Vec::new());
        e.push((k, v));
        proof {
            let e = e@;
            assert(e.len() == e0.len() + 1);
            assert forall|i: int, j: int|
                0 <= i < e.len() && 0 <= j < e.len() && i != j
                implies (#[trigger] e[i]).0@ != (#[trigger] e[j]).0@ by {
                if i < e0.len() && j < e0.len() {
                    assert(e[i] == e0[i] && e[j] == e0[j]);
                } else if i < e0.len() {
                    assert(e[i] == e0[i]);
                } else {
                    assert(e[j] == e0[j]);
                }
            }
            assert forall|key: Seq<char>| #[trigger] has_key(e, key) == (has_key(e0, key) || key == kv) by {
                if has_key(e0, key) {
                    let j = index_of(e0, key);
                    assert(e[j] == e0[j]);
                }
                if has_key(e, key) && key != kv {
                    let j = index_of(e, key);
                    assert(e[j] == e0[j]);
                }
                if key == kv {
                    assert(e[e0.len() as int].0@ == kv);
                }
            }
            assert forall|key: Seq<char>| #[trigger] has_key(e, key)
                implies e[index_of(e, key)].1@ == old(self)@.insert(kv, vv)[key] by {
                let j = index_of(e, key);
                lemma_index_of(e, j);
                if key == kv {
                    lemma_index_of(e, e0.len() as int);
                } else {
                    lemma_index_of(e0, j);
                    assert(e[j] == e0[j]);
                }
            }
            assert(map_of(e) =~= old(self)@.insert(kv, vv));
        }
        self.swap_entries(e);
        true
    }

    /// Takes out the record under `k`, if any.
    pub fn remove(&mut self, k: &str) -> (r: Option<T>)
        ensures
            final(self)@ == old(self)@.remove(k@),
            match r {
                Some(v) => old(self)@.contains_key(k@) && v@ == old(self)@[k@],
                None => !old(self)@.contains_key(k@),
            },
    {
        proof {
            use_type_invariant(&*self);
        }
        match self.find(k) {
            None => {
                assert(self@ =~= self@.remove(k@));
                None
            },
            Some(i) => {
                let ghost e0 = self.entries@;
                let mut e = self.swap_entries(Vec::new());
                let (_, v) = e.remove(i);
                proof {
                    let e = e@;
                    assert(e =~= e0.remove(i as int));
                    assert forall|a: int, b: int|
                        0 <= a < e.len() && 0 <= b < e.len() && a != b
                        implies (#[trigger] e[a]).0@ != (#[trigger] e[b]).0@ by {
                        let a0 = if a < i { a } else { a + 1 };
                        let b0 = if b < i { b } else { b + 1 };
                        assert(e[a] == e0[a0] && e[b] == e0[b0]);
                    }
                    assert forall|key: Seq<char>| #[trigger] has_key(e, key) == (has_key(e0, key) && key != k@) by {
                        if has_key(e, key) {
                            let a = index_of(e, key);
                            let a0 = if a < i { a } else { a + 1 };
                            assert(e[a] == e0[a0]);
                            lemma_index_of(e0, i as int);
                            if key == k@ {
                                assert(e0[a0].0@ == e0[i as int].0@);
                            }
                        }
                        if has_key(e0, key) && key != k@ {
                            let a0 = index_of(e0, key);
                            let a = if a0 < i { a0 } else { a0 - 1 };
                            assert(e[a] == e0[a0]);
                        }
                    }
                    assert forall|key: Seq<char>| #[trigger] has_key(e, key)
                        implies e[index_of(e, key)].1@ == old(self)@.remove(k@)[key] by {
                        let a = index_of(e, key);
                        lemma_index_of(e, a);
                        let a0 = if a < i { a } else { a + 1 };
                        assert(e[a] == e0[a0]);
                        lemma_index_of(e0, a0);
                    }
                    assert(map_of(e) =~= old(self)@.remove(k@));
                }
                self.swap_entries(e);
                Some(v)
            },
        }
    }

    /// The keys, in sorted order.
    pub fn sorted_keys(&self) -> (r: Vec<String>)
        ensures
            sorted_keys(key_views(r@)),
            r@.len() == self@.dom().len(),
            forall|k: Seq<char>| #[trigger] self@.contains_key(k) <==> key_views(r@).contains(k),
    {
        proof {
            use_type_invariant(self);
        }
        let mut out: Vec<String> = Vec::new();
        let mut n: usize = 0;
        while n < self.entries.len()
            invariant
                n <= self.entries@.len(),
                unique_keys(self.entries@),
                out@.len() == n,
                sorted_keys(key_views(out@)),
                key_views(out@).no_duplicates(),
                forall|k: Seq<char>|
                    #[trigger] key_views(out@).contains(k) <==> exists|j: int|
                        0 <= j < n && (#[trigger] self.entries@[j]).0@ == k,
            decreases self.entries@.len() - n,
        {
            let key = self.entries[n].0.clone();
            let ghost before = key_views(out@);
            let mut p: usize = 0;
            while p < out.len() && !text_less(key.as_str(), out[p].as_str())
                invariant
                    p <= out@.len(),
                    forall|j: int| 0 <= j < p ==> !key_less(key@, (#[trigger] out@[j])@),
                decreases out@.len() - p,
            {
                p = p + 1;
            }
            proof {
                assert(forall|j: int| 0 <= j < before.len() ==> before[j] == (#[trigger] out@[j])@);
                assert forall|j: int| 0 <= j < before.len() implies before[j] != key@ by {
                    assert(before.contains(before[j]));
                    let w = choose|w: int| 0 <= w < n && (#[trigger] self.entries@[w]).0@ == before[j];
                    assert(self.entries@[w].0@ != self.entries@[n as int].0@);
                }
                if p > 0 {
                    lemma_key_order_total(key@, before[p - 1]);
                }
            }
            out.insert(p, key);
            proof {
                let after = key_views(out@);
                assert(after =~= before.insert(p as int, self.entries@[n as int].0@));
                assert forall|i: int| 0 <= i < after.len() - 1 implies key_less(#[trigger] after[i], after[i + 1]) by {
                    if i + 1 < p {
                        assert(after[i] == before[i] && after[i + 1] == before[i + 1]);
                    } else if i + 1 == p {
                        assert(after[i] == before[i]);
                    } else if i == p {
                    } else {
                        assert(after[i] == before[i - 1] && after[i + 1] == before[i]);
                    }
                }
                assert forall|a: int, b: int| 0 <= a < after.len() && 0 <= b < after.len() && a != b
                    implies after[a] != after[b] by {
                    let a0 = if a < p { a } else { a - 1 };
                    let b0 = if b < p { b } else { b - 1 };
                    if a != p && b != p {
                        assert(after[a] == before[a0] && after[b] == before[b0]);
                    } else if a == p {
                        assert(after[b] == before[b0]);
                    } else {
                        assert(after[a] == before[a0]);
                    }
                }
                assert forall|k: Seq<char>|
                    after.contains(k) <==> exists|j: int|
                        0 <= j < n + 1 && (#[trigger] self.entries@[j]).0@ == k by {
                    if after.contains(k) {
                        let a = choose|a: int| 0 <= a < after.len() && after[a] == k;
                        if a < p {
                            assert(before[a] == k);
                            assert(before.contains(k));
                        } else if a > p {
                            assert(before[a - 1] == k);
                            assert(before.contains(k));
                        } else {
                            assert(self.entries@[n as int].0@ == k);
                        }
                    }
                    if exists|j: int| 0 <= j < n + 1 && (#[trigger] self.entries@[j]).0@ == k {
                        let j = choose|j: int| 0 <= j < n + 1 && (#[trigger] self.entries@[j]).0@ == k;
                        if j < n {
                            assert(before.contains(k));
                            let a = choose|a: int| 0 <= a < before.len() && before[a] == k;
                            if a < p {
                                assert(after[a] == k);
                            } else {
                                assert(after[a + 1] == k);
                            }
                        } else {
                            assert(after[p as int] == k);
                        }
                    }
                }
            }
            n = n + 1;
        }
        proof {
            let ks = key_views(out@);
            assert forall|k: Seq<char>| self@.contains_key(k) <==> ks.contains(k) by {
                if self@.contains_key(k) {
                    let j = index_of(self.entries@, k);
                    assert(self.entries@[j].0@ == k);
                }
            }
            ks.unique_seq_to_set();
            assert(self@.dom() =~= ks.to_set());
        }
        out
    }
}

} // verus!

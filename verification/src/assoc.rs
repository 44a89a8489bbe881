use vstd::prelude::*;
use crate::text::same_text;

verus! {

/// What the association list `m` says of `k`: the value of its first entry
/// with that key.
pub open spec fn lookup<K, V>(m: Seq<(K, V)>, k: K) -> Option<V>
    decreases m.len(),
{
    if m.len() == 0 {
        None
    } else if m[0].0 == k {
        Some(m[0].1)
    } else {
        lookup(m.drop_first(), k)
    }
}

/// The map that the association list `m` stands for.
pub open spec fn map_of<K, V>(m: Seq<(K, V)>) -> Map<K, V> {
    Map::new(|k: K| lookup(m, k) is Some, |k: K| lookup(m, k)->0)
}

/// Appending an entry for a new key adds that key and changes nothing else.
pub proof fn lemma_lookup_push<K, V>(m: Seq<(K, V)>, p: K, v: V, q: K)
    requires
        lookup(m, p) is None,
    ensures
        lookup(m.push((p, v)), q) == if q == p {
            Some(v)
        } else {
            lookup(m, q)
        },
    decreases m.len(),
{
    if m.len() > 0 {
        assert(m.push((p, v)).drop_first() =~= m.drop_first().push((p, v)));
        assert(m.push((p, v))[0] == m[0]);
        lemma_lookup_push(m.drop_first(), p, v, q);
    } else {
        assert(m.push((p, v)).drop_first() =~= Seq::<(K, V)>::empty());
        assert(m.push((p, v))[0] == (p, v));
        assert(lookup(Seq::<(K, V)>::empty(), q) is None);
        assert(lookup(m, q) is None);
    }
}

/// Replacing the first entry of a key changes the value of that key only.
pub proof fn lemma_lookup_update<K, V>(m: Seq<(K, V)>, i: int, p: K, v: V, q: K)
    requires
        0 <= i < m.len(),
        m[i].0 == p,
        forall|j: int| 0 <= j < i ==> m[j].0 != p,
    ensures
        lookup(m.update(i, (p, v)), q) == if q == p {
            Some(v)
        } else {
            lookup(m, q)
        },
    decreases m.len(),
{
    if i > 0 {
        assert(m.update(i, (p, v)).drop_first() =~= m.drop_first().update(i - 1, (p, v)));
        assert(m.update(i, (p, v))[0] == m[0]);
        lemma_lookup_update(m.drop_first(), i - 1, p, v, q);
    } else {
        assert(m.update(0, (p, v)).drop_first() =~= m.drop_first());
        assert(m.update(0, (p, v))[0] == (p, v));
    }
}

/// The value of a key is that of its first entry.
pub proof fn lemma_lookup_found<K, V>(m: Seq<(K, V)>, i: int, p: K)
    requires
        0 <= i < m.len(),
        m[i].0 == p,
        forall|j: int| 0 <= j < i ==> m[j].0 != p,
    ensures
        lookup(m, p) == Some(m[i].1),
    decreases m.len(),
{
    if i > 0 {
        lemma_lookup_found(m.drop_first(), i - 1, p);
    }
}

/// A key with no entry has no value.
pub proof fn lemma_lookup_missing<K, V>(m: Seq<(K, V)>, p: K)
    requires
        forall|j: int| 0 <= j < m.len() ==> m[j].0 != p,
    ensures
        lookup(m, p) is None,
    decreases m.len(),
{
    if m.len() > 0 {
        lemma_lookup_missing(m.drop_first(), p);
    }
}

/// The texts of the entries of a map from texts to texts.
pub open spec fn text_entries(m: Seq<(String, String)>) -> Seq<(Seq<char>, Seq<char>)> {
    m.map_values(|e: (String, String)| (e.0@, e.1@))
}

/// `m` with the entries `es` set in order (a later entry wins).
pub open spec fn insert_all(m: Map<Seq<char>, Seq<char>>, es: Seq<(Seq<char>, Seq<char>)>) -> Map<
    Seq<char>,
    Seq<char>,
>
    decreases es.len(),
{
    if es.len() == 0 {
        m
    } else {
        insert_all(m, es.drop_last()).insert(es.last().0, es.last().1)
    }
}

/// A map from texts to texts, such as an environment.
#[derive(Debug)]
pub struct TextMap {
    pub entries: Vec<(String, String)>,
}

impl View for TextMap {
    type V = Map<Seq<char>, Seq<char>>;

    open spec fn view(&self) -> Map<Seq<char>, Seq<char>> {
        map_of(text_entries(self.entries@))
    }
}

impl TextMap {
    /// The empty map.
    pub fn new() -> (r: TextMap)
        ensures
            r@ == Map::<Seq<char>, Seq<char>>::empty(),
    {
        let r = TextMap { entries: Vec::new() };
        assert(text_entries(r.entries@) =~= seq![]);
        assert(r@ =~= Map::<Seq<char>, Seq<char>>::empty());
        r
    }

    fn find(&self, k: &str) -> (r: Option<usize>)
        ensures
            match r {
                Some(i) => i < self.entries@.len() && text_entries(self.entries@)[i as int].0 == k@
                    && forall|j: int|
                    0 <= j < i ==> text_entries(self.entries@)[j].0 != k@,
                None => forall|j: int|
                    0 <= j < self.entries@.len() ==> text_entries(self.entries@)[j].0 != k@,
            },
    {
        let mut i: usize = 0;
        while i < self.entries.len()
            invariant
                i <= self.entries@.len(),
                forall|j: int| 0 <= j < i ==> text_entries(self.entries@)[j].0 != k@,
            decreases self.entries.len() - i,
        {
            if same_text(self.entries[i].0.as_str(), k) {
                return Some(i);
            }
            i = i + 1;
        }
        None
    }

    /// The value of `k`, if the map has one.
    pub fn get(&self, k: &str) -> (r: Option<String>)
        ensures
            match r {
                Some(v) => self@.dom().contains(k@) && self@[k@] == v@,
                None => !self@.dom().contains(k@),
            },
    {
        match self.find(k) {
            Some(i) => {
                proof {
                    lemma_lookup_found(text_entries(self.entries@), i as int, k@);
                }
                Some(self.entries[i].1.clone())
            },
            None => {
                proof {
                    lemma_lookup_missing(text_entries(self.entries@), k@);
                }
                None
            },
        }
    }

    /// Sets `k` to `v`; says whether `k` was new to the map.
    pub fn insert(&mut self, k: String, v: String) -> (r: bool)
        ensures
            final(self)@ == old(self)@.insert(k@, v@),
            r == !old(self)@.dom().contains(k@),
    {
        let ghost m0 = text_entries(self.entries@);
        let ghost kv = k@;
        let ghost vv = v@;
        match self.find(k.as_str()) {
            Some(i) => {
                proof {
                    lemma_lookup_found(m0, i as int, kv);
                }
                self.entries.set(i, (k, v));
                proof {
                    assert(text_entries(self.entries@) =~= m0.update(i as int, (kv, vv)));
                    assert forall|q: Seq<char>| #[trigger] lookup(text_entries(self.entries@), q)
                        == (if q == kv {
                        Some(vv)
                    } else {
                        lookup(m0, q)
                    }) by {
                        lemma_lookup_update(m0, i as int, kv, vv, q);
                    }
                    assert(self@ =~= map_of(m0).insert(kv, vv));
                }
                false
            },
            None => {
                proof {
                    lemma_lookup_missing(m0, kv);
                }
                self.entries.push((k, v));
                proof {
                    assert(text_entries(self.entries@) =~= m0.push((kv, vv)));
                    assert forall|q: Seq<char>| #[trigger] lookup(text_entries(self.entries@), q)
                        == (if q == kv {
                        Some(vv)
                    } else {
                        lookup(m0, q)
                    }) by {
                        lemma_lookup_push(m0, kv, vv, q);
                    }
                    assert(self@ =~= map_of(m0).insert(kv, vv));
                }
                true
            },
        }
    }

    /// Sets the entries `es` in order (a later entry wins).
    pub fn extend(&mut self, es: &Vec<(String, String)>)
        ensures
            final(self)@ == insert_all(old(self)@, text_entries(es@)),
    {
        let ghost m0 = self@;
        let mut i: usize = 0;
        assert(text_entries(es@).take(0) =~= seq![]);
        while i < es.len()
            invariant
                i <= es@.len(),
                self@ == insert_all(m0, text_entries(es@).take(i as int)),
            decreases es.len() - i,
        {
            let ghost t = text_entries(es@);
            assert(t.take(i + 1).drop_last() =~= t.take(i as int));
            let _ = self.insert(es[i].0.clone(), es[i].1.clone());
            i = i + 1;
        }
        assert(text_entries(es@).take(i as int) =~= text_entries(es@));
    }
}

/// The texts of `v`.
pub open spec fn text_seq(v: Seq<String>) -> Seq<Seq<char>> {
    v.map_values(|s: String| s@)
}

/// A set of texts, such as a set of relative paths.
#[derive(Debug)]
pub struct TextSet {
    pub items: Vec<String>,
}

impl View for TextSet {
    type V = Set<Seq<char>>;

    open spec fn view(&self) -> Set<Seq<char>> {
        text_seq(self.items@).to_set()
    }
}

impl TextSet {
    /// The empty set.
    pub fn new() -> (r: TextSet)
        ensures
            r@ == Set::<Seq<char>>::empty(),
    {
        let r = TextSet { items: Vec::new() };
        assert(text_seq(r.items@) =~= seq![]);
        assert(r@ =~= Set::<Seq<char>>::empty());
        r
    }

    /// Whether `s` is in the set.
    pub fn contains(&self, s: &str) -> (r: bool)
        ensures
            r == self@.contains(s@),
    {
        let mut i: usize = 0;
        while i < self.items.len()
            invariant
                i <= self.items@.len(),
                forall|j: int| 0 <= j < i ==> self.items@[j]@ != s@,
            decreases self.items.len() - i,
        {
            if same_text(self.items[i].as_str(), s) {
                assert(text_seq(self.items@)[i as int] == s@);
                return true;
            }
            i = i + 1;
        }
        assert forall|t: Seq<char>| #[trigger] text_seq(self.items@).contains(t) implies t != s@ by {
            let j = choose|j: int| 0 <= j < text_seq(self.items@).len() && text_seq(self.items@)[j] == t;
            assert(self.items@[j]@ == t);
        }
        false
    }

    /// Adds `s`; says whether it was new to the set.
    pub fn insert(&mut self, s: String) -> (r: bool)
        ensures
            final(self)@ == old(self)@.insert(s@),
            r == !old(self)@.contains(s@),
    {
        if self.contains(s.as_str()) {
            assert(self@.insert(s@) =~= self@);
            false
        } else {
            let ghost t0 = text_seq(self.items@);
            let ghost sv = s@;
            self.items.push(s);
            proof {
                assert(text_seq(self.items@) =~= t0.push(sv));
                assert(t0.push(sv).to_set() =~= t0.to_set().insert(sv)) by {
                    assert forall|x: Seq<char>| #[trigger] t0.push(sv).contains(x) <==> (t0.contains(x) || x == sv) by {
                        if t0.push(sv).contains(x) {
                            let j = choose|j: int| 0 <= j < t0.push(sv).len() && t0.push(sv)[j] == x;
                            if j < t0.len() {
                                assert(t0[j] == x);
                            }
                        }
                        if t0.contains(x) {
                            let j = choose|j: int| 0 <= j < t0.len() && t0[j] == x;
                            assert(t0.push(sv)[j] == x);
                        }
                        if x == sv {
                            assert(t0.push(sv)[t0.len() as int] == x);
                        }
                    }
                }
            }
            true
        }
    }

    /// Adds the texts of `items`.
    pub fn extend(&mut self, items: &Vec<String>)
        ensures
            final(self)@ == old(self)@.union(text_seq(items@).to_set()),
    {
        let ghost s0 = self@;
        let mut i: usize = 0;
        assert(text_seq(items@).take(0).to_set() =~= Set::<Seq<char>>::empty());
        assert(s0.union(Set::<Seq<char>>::empty()) =~= s0);
        while i < items.len()
            invariant
                i <= items@.len(),
                self@ == s0.union(text_seq(items@).take(i as int).to_set()),
            decreases items.len() - i,
        {
            let ghost t = text_seq(items@);
            let _ = self.insert(items[i].clone());
            proof {
                assert(t.take(i + 1) =~= t.take(i as int).push(t[i as int]));
                assert(t.take(i + 1).to_set() =~= t.take(i as int).to_set().insert(t[i as int])) by {
                    let s0 = t.take(i as int);
                    let x0 = t[i as int];
                    assert forall|x: Seq<char>| #[trigger] s0.push(x0).contains(x) <==> (s0.contains(x) || x == x0) by {
                        if s0.push(x0).contains(x) {
                            let j = choose|j: int| 0 <= j < s0.push(x0).len() && s0.push(x0)[j] == x;
                            if j < s0.len() {
                                assert(s0[j] == x);
                            }
                        }
                        if s0.contains(x) {
                            let j = choose|j: int| 0 <= j < s0.len() && s0[j] == x;
                            assert(s0.push(x0)[j] == x);
                        }
                        if x == x0 {
                            assert(s0.push(x0)[s0.len() as int] == x);
                        }
                    }
                }
                assert(self@ =~= s0.union(t.take(i + 1).to_set()));
            }
            i = i + 1;
        }
        assert(text_seq(items@).take(i as int) =~= text_seq(items@));
    }
}

} // verus!

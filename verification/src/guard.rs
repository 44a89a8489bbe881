use vstd::prelude::*;
use crate::packages::{Package, has_feature};
use crate::text::{
    chars_of, concat, string_of, string_views, has_prefix, same_text, debug_quote, debug_text,
};
use crate::tar::{components, path_components};
use crate::assoc::{lookup, map_of, lemma_lookup_push, lemma_lookup_update, lemma_lookup_found, lemma_lookup_missing};

verus! {

/// The listings and clean-ups that finishing a container runs, by the
/// features it installed.
#[derive(Debug, PartialEq, Eq, Structural)]
pub struct FinishSteps {
    pub pip_freeze: bool,
    pub npm_list: bool,
    pub composer_finish: bool,
    pub gem_list: bool,
}

/// What finishing a container with the installed features `featured` runs:
/// `pip freeze` where pip was installed, `npm ls` where npm was, the
/// composer clean-up where composer was, `gem list` where bundler was.
pub fn finish_steps(featured: &Vec<Package>) -> (r: FinishSteps)
    ensures
        r.pip_freeze == (featured@.contains(Package::PipPy2) || featured@.contains(Package::PipPy3)),
        r.npm_list == featured@.contains(Package::Npm),
        r.composer_finish == featured@.contains(Package::Composer),
        r.gem_list == featured@.contains(Package::Bundler),
{
    FinishSteps {
        pip_freeze: has_feature(featured, Package::PipPy2) || has_feature(featured, Package::PipPy3),
        npm_list: has_feature(featured, Package::Npm),
        composer_finish: has_feature(featured, Package::Composer),
        gem_list: has_feature(featured, Package::Bundler),
    }
}

/// The file inside the container, besides the default one, that is
/// emptied when the container is finished: the configured one where it is
/// not the default.
pub fn extra_truncate(configured: &Option<String>, default: &str) -> (r: Option<String>)
    requires
        configured matches Some(p) ==> has_prefix(p@, "/"@),
    ensures
        match configured {
            Some(p) => if components(p@) == components(default@) {
                r is None
            } else {
                r matches Some(x) && x@ == "/vagga/root/"@ + p@.drop_first()
            },
            None => r is None,
        },
{
    match configured {
        Some(p) => {
            let a = path_components(p.as_str());
            let b = path_components(default);
            if same_components(&a, &b) {
                None
            } else {
                let v = chars_of(p.as_str());
                proof {
                    reveal_strlit("/");
                }
                let rest = string_of(&v, 1, v.len());
                assert(rest@ =~= p@.drop_first());
                Some(concat("/vagga/root/", rest.as_str()))
            }
        },
        None => None,
    }
}

/// Whether two lists of components are equal.
pub fn same_components(a: &Vec<String>, b: &Vec<String>) -> (r: bool)
    ensures
        r == (string_views(a@) == string_views(b@)),
{
    if a.len() != b.len() {
        return false;
    }
    let mut i: usize = 0;
    while i < a.len()
        invariant
            a@.len() == b@.len(),
            i <= a@.len(),
            forall|k: int| 0 <= k < i ==> a@[k]@ == b@[k]@,
        decreases a.len() - i,
    {
        if !same_text(a[i].as_str(), b[i].as_str()) {
            assert(string_views(a@)[i as int] != string_views(b@)[i as int]);
            return false;
        }
        i = i + 1;
    }
    assert(string_views(a@) =~= string_views(b@));
    true
}

/// The warning about a data directory that repeats another one (where
/// `is_final`) or lies above one.
pub open spec fn duplicate_warning(rel_path: Seq<char>, is_final: bool) -> Seq<char> {
    if is_final {
        debug_text("/"@ + rel_path) + " is already contained as data directory"@
    } else {
        debug_text("/"@ + rel_path) + " is a prefix of other directory"@
    }
}

/// The warning about the data directory `rel_path` (relative to the root).
pub fn warn_duplicate_data_dir(rel_path: &str, is_final: bool) -> (r: String)
    ensures
        r@ == duplicate_warning(rel_path@, is_final),
{
    let path = concat("/", rel_path);
    let q = debug_quote(path.as_str());
    if is_final {
        concat(q.as_str(), " is already contained as data directory")
    } else {
        concat(q.as_str(), " is a prefix of other directory")
    }
}

/// A path relative to the root, as its components.
pub type Parts = Seq<Seq<char>>;

/// The components of a path as an association list key.
pub open spec fn parts_view(v: Vec<String>) -> Parts {
    string_views(v@)
}

/// The association list of the exec map `m`.
pub open spec fn entries_view(m: Seq<(Vec<String>, bool)>) -> Seq<(Parts, bool)> {
    m.map_values(|e: (Vec<String>, bool)| (parts_view(e.0), e.1))
}

/// The kept paths of a data container, with what is kept of each.
pub struct KeepMap {
    pub entries: Vec<(Vec<String>, bool)>,
}

impl KeepMap {
    /// The map of kept paths.
    pub open spec fn view_map(&self) -> Map<Parts, bool> {
        map_of(entries_view(self.entries@))
    }

    /// A map that keeps nothing.
    pub fn new() -> (r: KeepMap)
        ensures
            r.view_map() == Map::<Parts, bool>::empty(),
    {
        let r = KeepMap { entries: Vec::new() };
        assert(entries_view(r.entries@) =~= seq![]);
        assert(r.view_map() =~= Map::<Parts, bool>::empty());
        r
    }

    /// The position of the entry of `p`, if any.
    fn find(&self, p: &Vec<String>) -> (r: Option<usize>)
        ensures
            match r {
                Some(i) => i < self.entries@.len() && entries_view(self.entries@)[i as int].0
                    == parts_view(*p) && forall|j: int|
                    0 <= j < i ==> entries_view(self.entries@)[j].0 != parts_view(*p),
                None => forall|j: int|
                    0 <= j < self.entries@.len() ==> entries_view(self.entries@)[j].0
                        != parts_view(*p),
            },
    {
        let mut i: usize = 0;
        while i < self.entries.len()
            invariant
                i <= self.entries@.len(),
                forall|j: int|
                    0 <= j < i ==> entries_view(self.entries@)[j].0 != parts_view(*p),
            decreases self.entries.len() - i,
        {
            if same_components(&self.entries[i].0, p) {
                return Some(i);
            }
            i = i + 1;
        }
        None
    }

    /// What the map says of `p`.
    pub fn get(&self, p: &Vec<String>) -> (r: Option<bool>)
        ensures
            r == lookup(entries_view(self.entries@), parts_view(*p)),
    {
        match self.find(p) {
            Some(i) => {
                proof {
                    lemma_lookup_found(entries_view(self.entries@), i as int, parts_view(*p));
                }
                Some(self.entries[i].1)
            },
            None => {
                proof {
                    lemma_lookup_missing(entries_view(self.entries@), parts_view(*p));
                }
                None
            },
        }
    }

    /// Says `v` of `p`.
    pub fn insert(&mut self, p: Vec<String>, v: bool)
        ensures
            final(self).view_map() == old(self).view_map().insert(parts_view(p), v),
    {
        let ghost m0 = entries_view(self.entries@);
        let ghost pv = parts_view(p);
        match self.find(&p) {
            Some(i) => {
                self.entries.set(i, (p, v));
                proof {
                    assert(entries_view(self.entries@) =~= m0.update(i as int, (pv, v)));
                    assert forall|q: Parts| #[trigger] lookup(entries_view(self.entries@), q)
                        == (if q == pv {
                        Some(v)
                    } else {
                        lookup(m0, q)
                    }) by {
                        lemma_lookup_update(m0, i as int, pv, v, q);
                    }
                    assert(self.view_map() =~= map_of(m0).insert(pv, v));
                }
            },
            None => {
                proof {
                    lemma_lookup_missing(m0, pv);
                }
                self.entries.push((p, v));
                proof {
                    assert(entries_view(self.entries@) =~= m0.push((pv, v)));
                    assert forall|q: Parts| #[trigger] lookup(entries_view(self.entries@), q)
                        == (if q == pv {
                        Some(v)
                    } else {
                        lookup(m0, q)
                    }) by {
                        lemma_lookup_push(m0, pv, v, q);
                    }
                    assert(self.view_map() =~= map_of(m0).insert(pv, v));
                }
            },
        }
    }
}

/// The components `p` joined with `/`.
pub open spec fn join_parts(p: Parts) -> Seq<char>
    decreases p.len(),
{
    if p.len() == 0 {
        seq![]
    } else if p.len() == 1 {
        p[0]
    } else {
        join_parts(p.drop_last()) + "/"@ + p.last()
    }
}

/// The map of kept paths of a data container and the warnings so far.
pub struct KeepState {
    pub map: Map<Parts, bool>,
    pub warnings: Seq<Seq<char>>,
}

/// Takes the parent `p` of a data directory into account: a parent that is
/// itself a data directory is warned about, and a parent not yet in the
/// map is kept for what lies below it.
pub open spec fn step_parent(st: KeepState, p: Parts) -> KeepState {
    KeepState {
        warnings: if st.map.contains_key(p) && st.map[p] {
            st.warnings.push(duplicate_warning(join_parts(p), true))
        } else {
            st.warnings
        },
        map: if !st.map.contains_key(p) {
            st.map.insert(p, false)
        } else {
            st.map
        },
    }
}

/// The first `n` parents of the data directory `e`, nearest first.
pub open spec fn after_parents(st: KeepState, e: Parts, n: nat) -> KeepState
    decreases n,
{
    if n == 0 || n > e.len() {
        st
    } else {
        step_parent(after_parents(st, e, (n - 1) as nat), e.take(e.len() - n))
    }
}

/// Takes the data directory `e` into account: its parents, then itself,
/// kept whole; a data directory already in the map is warned about.
pub open spec fn add_data_dir(st: KeepState, e: Parts) -> KeepState {
    let s1 = after_parents(st, e, e.len());
    KeepState {
        warnings: if s1.map.contains_key(e) {
            s1.warnings.push(duplicate_warning(join_parts(e), s1.map[e]))
        } else {
            s1.warnings
        },
        map: s1.map.insert(e, true),
    }
}

/// The kept paths of a data container with the data directories `ds`.
pub open spec fn keep_state(ds: Seq<Parts>) -> KeepState
    decreases ds.len(),
{
    if ds.len() == 0 {
        KeepState { map: Map::empty(), warnings: seq![] }
    } else {
        add_data_dir(keep_state(ds.drop_last()), ds.last())
    }
}

/// The components `p` joined with `/`.
pub(crate) fn join_components(p: &Vec<String>) -> (r: String)
    ensures
        r@ == join_parts(parts_view(*p)),
{
    let mut r = String::new();
    let mut i: usize = 0;
    assert(parts_view(*p).take(0) =~= seq![]);
    while i < p.len()
        invariant
            i <= p@.len(),
            r@ == join_parts(parts_view(*p).take(i as int)),
        decreases p.len() - i,
    {
        let ghost pv = parts_view(*p);
        assert(pv.take(i + 1).drop_last() =~= pv.take(i as int));
        assert(pv.take(i + 1).last() == p@[i as int]@);
        if i > 0 {
            r.append("/");
        }
        r.append(p[i].as_str());
        proof {
            if i == 0 {
                assert(pv.take(1) =~= seq![p@[0]@]);
            }
        }
        i = i + 1;
    }
    assert(parts_view(*p).take(i as int) =~= parts_view(*p));
    r
}

/// The first `n` components of `p`.
fn first_parts(p: &Vec<String>, n: usize) -> (r: Vec<String>)
    requires
        n <= p@.len(),
    ensures
        parts_view(r) == parts_view(*p).take(n as int),
{
    let mut r: Vec<String> = Vec::new();
    let mut i: usize = 0;
    while i < n
        invariant
            n <= p@.len(),
            i <= n,
            parts_view(r) == parts_view(*p).take(i as int),
        decreases n - i,
    {
        let ghost r0 = parts_view(r);
        let x = p[i].clone();
        r.push(x);
        assert(parts_view(r) =~= r0.push(x@));
        assert(parts_view(r) =~= parts_view(*p).take(i + 1));
        i = i + 1;
    }
    r
}

/// The kept paths of a data container whose data directories (absolute
/// paths) are `data_dirs`, and the warnings about directories that repeat
/// or contain others.
pub fn keep_paths(data_dirs: &Vec<String>) -> (r: (KeepMap, Vec<String>))
    requires
        forall|i: int| 0 <= i < data_dirs@.len() ==> has_prefix(#[trigger] data_dirs@[i]@, "/"@),
    ensures
        r.0.view_map() == keep_state(
            string_views(data_dirs@).map_values(|d: Seq<char>| crate::tar::relative_components(d)),
        ).map,
        string_views(r.1@) == keep_state(
            string_views(data_dirs@).map_values(|d: Seq<char>| crate::tar::relative_components(d)),
        ).warnings,
{
    let ghost ds = string_views(data_dirs@).map_values(
        |d: Seq<char>| crate::tar::relative_components(d),
    );
    let mut map = KeepMap::new();
    let mut warnings: Vec<String> = Vec::new();
    let mut i: usize = 0;
    assert(ds.take(0) =~= seq![]);
    assert(string_views(warnings@) =~= seq![]);
    while i < data_dirs.len()
        invariant
            ds == string_views(data_dirs@).map_values(
                |d: Seq<char>| crate::tar::relative_components(d),
            ),
            i <= data_dirs@.len(),
            map.view_map() == keep_state(ds.take(i as int)).map,
            string_views(warnings@) == keep_state(ds.take(i as int)).warnings,
        decreases data_dirs.len() - i,
    {
        let e = crate::tar::link_target(data_dirs[i].as_str());
        let ghost ev = parts_view(e);
        assert(ev == ds[i as int]);
        assert(ds.take(i + 1).drop_last() =~= ds.take(i as int));
        let ghost st0 = keep_state(ds.take(i as int));
        let mut k: usize = 0;
        while k < e.len()
            invariant
                k <= e@.len(),
                ev == parts_view(e),
                map.view_map() == after_parents(st0, ev, k as nat).map,
                string_views(warnings@) == after_parents(st0, ev, k as nat).warnings,
            decreases e@.len() - k,
        {
            let n = k + 1;
            let p = first_parts(&e, e.len() - n);
            let before = map.get(&p);
            if before == Some(true) {
                let text = join_components(&p);
                let w = warn_duplicate_data_dir(text.as_str(), true);
                let ghost w0 = string_views(warnings@);
                warnings.push(w);
                assert(string_views(warnings@) =~= w0.push(w@));
            }
            if before.is_none() {
                map.insert(p, false);
            }
            proof {
                let s1 = after_parents(st0, ev, k as nat);
                assert(after_parents(st0, ev, n as nat) == step_parent(s1, ev.take(ev.len() - n)));
                assert(s1.map.contains_key(ev.take(ev.len() - n)) == (before is Some));
                if before is Some {
                    assert(s1.map[ev.take(ev.len() - n)] == before->0);
                }
                assert(map.view_map() =~= after_parents(st0, ev, n as nat).map);
            }
            k = k + 1;
        }
        let ghost s1 = after_parents(st0, ev, ev.len());
        let own = map.get(&e);
        match own {
            Some(is_final) => {
                let text = join_components(&e);
                let w = warn_duplicate_data_dir(text.as_str(), is_final);
                let ghost w0 = string_views(warnings@);
                warnings.push(w);
                assert(string_views(warnings@) =~= w0.push(w@));
            },
            None => {},
        }
        map.insert(e, true);
        proof {
            assert(s1.map.contains_key(ev) == (own is Some));
            assert(map.view_map() =~= keep_state(ds.take(i + 1)).map);
        }
        i = i + 1;
    }
    assert(ds.take(i as int) =~= ds);
    (map, warnings)
}

/// What clearing a data container does with an entry.
#[derive(Debug, PartialEq, Eq, Structural, Clone, Copy)]
pub enum KeepAction {
    /// Keep the entry and all it holds.
    Keep,
    /// Keep the directory, and look into what it holds.
    Descend,
    /// Remove the entry.
    Remove,
}

impl KeepMap {
    /// What clearing the container does with the entry at `rel` (relative
    /// to the root, as components).
    pub fn action(&self, rel: &Vec<String>) -> (r: KeepAction)
        ensures
            r == match lookup(entries_view(self.entries@), parts_view(*rel)) {
                Some(true) => KeepAction::Keep,
                Some(false) => KeepAction::Descend,
                None => KeepAction::Remove,
            },
    {
        match self.get(rel) {
            Some(true) => KeepAction::Keep,
            Some(false) => KeepAction::Descend,
            None => KeepAction::Remove,
        }
    }
}

proof fn lemma_parents_keep(st: KeepState, e: Parts, n: nat, k: Parts)
    requires
        st.map.contains_key(k),
    ensures
        after_parents(st, e, n).map.contains_key(k),
        after_parents(st, e, n).map[k] == st.map[k],
    decreases n,
{
    if n > 0 && n <= e.len() {
        lemma_parents_keep(st, e, (n - 1) as nat, k);
    }
}

/// Every data directory is kept whole, whatever the other data directories
/// are and in whatever order they come.
pub proof fn lemma_data_dirs_kept(ds: Seq<Parts>)
    ensures
        forall|i: int|
            0 <= i < ds.len() ==> keep_state(ds).map.contains_key(#[trigger] ds[i]) && keep_state(
                ds,
            ).map[ds[i]],
    decreases ds.len(),
{
    if ds.len() > 0 {
        let prev = ds.drop_last();
        lemma_data_dirs_kept(prev);
        let st = keep_state(prev);
        let e = ds.last();
        assert forall|i: int| 0 <= i < ds.len() implies keep_state(ds).map.contains_key(
            #[trigger] ds[i],
        ) && keep_state(ds).map[ds[i]] by {
            if i < ds.len() - 1 {
                assert(prev[i] == ds[i]);
                lemma_parents_keep(st, e, e.len(), ds[i]);
            }
        }
    }
}

/// The mounted paths `mounted`, in the order they are unmounted when the
/// container is finished: the last mounted first.
pub fn unmount_order(mounted: &Vec<String>) -> (r: Vec<String>)
    ensures
        string_views(r@) == string_views(mounted@).reverse(),
{
    let mut r: Vec<String> = Vec::new();
    let mut i: usize = mounted.len();
    let ghost m = string_views(mounted@);
    assert(string_views(r@) =~= m.subrange(i as int, m.len() as int).reverse());
    while i > 0
        invariant
            i <= mounted@.len(),
            m == string_views(mounted@),
            string_views(r@) == m.subrange(i as int, m.len() as int).reverse(),
        decreases i,
    {
        i = i - 1;
        let ghost r0 = string_views(r@);
        let x = mounted[i].clone();
        r.push(x);
        assert(string_views(r@) =~= r0.push(m[i as int]));
        assert(m.subrange(i as int, m.len() as int).reverse() =~= m.subrange(
            i + 1,
            m.len() as int,
        ).reverse().push(m[i as int]));
    }
    assert(m.subrange(0, m.len() as int) =~= m);
    r
}

/// `q` is a prefix of `p`.
pub open spec fn is_prefix(q: Parts, p: Parts) -> bool {
    q.len() <= p.len() && p.take(q.len() as int) == q
}

/// Whether the path `p` (components relative to the root, not empty) is
/// left by clearing a data container whose map of kept paths is `m`: the
/// clearing looks into each directory it keeps but not wholly, so at every
/// depth the prefix of `p` is in the map, unless a shallower prefix was
/// kept whole.
pub open spec fn survives(m: Map<Parts, bool>, p: Parts) -> bool {
    forall|j: int|
        1 <= j <= p.len() ==> (m.contains_key(#[trigger] p.take(j)) || exists|i: int|
            1 <= i < j && m.contains_key(p.take(i)) && m[p.take(i)])
}

/// The paths in the map are the prefixes of the data directories `ds`,
/// and a path in it is kept whole exactly where it is a data directory.
pub open spec fn keep_map_shape(m: Map<Parts, bool>, ds: Seq<Parts>) -> bool {
    &&& forall|q: Parts|
        #[trigger] m.contains_key(q) <==> exists|d: int| 0 <= d < ds.len() && is_prefix(q, ds[d])
    &&& forall|q: Parts| #[trigger] m.contains_key(q) ==> (m[q] <==> ds.contains(q))
}

/// The path `t` levels above the path `e`.
pub open spec fn parent_at(e: Parts, t: int) -> Parts {
    e.take(e.len() - t)
}

proof fn lemma_after_parents_shape(st: KeepState, e: Parts, n: nat)
    requires
        n <= e.len(),
    ensures
        forall|q: Parts|
            #[trigger] after_parents(st, e, n).map.contains_key(q) <==> (st.map.contains_key(q)
                || exists|t: int| 1 <= t <= n && q == #[trigger] parent_at(e, t)),
        forall|q: Parts|
            #[trigger] after_parents(st, e, n).map.contains_key(q) ==> after_parents(st, e, n).map[q]
                == (st.map.contains_key(q) && st.map[q]),
    decreases n,
{
    if n > 0 {
        lemma_after_parents_shape(st, e, (n - 1) as nat);
        let prev = after_parents(st, e, (n - 1) as nat);
        let p = parent_at(e, n as int);
        let after = after_parents(st, e, n);
        assert(after == step_parent(prev, p));
        assert forall|q: Parts| #[trigger] after.map.contains_key(q) <==> (st.map.contains_key(q)
            || exists|t: int| 1 <= t <= n && q == #[trigger] parent_at(e, t)) by {
            if exists|t: int| 1 <= t <= n && q == #[trigger] parent_at(e, t) {
                let t = choose|t: int| 1 <= t <= n && q == #[trigger] parent_at(e, t);
                if t < n {
                    assert(1 <= t <= n - 1 && q == parent_at(e, t));
                    assert(prev.map.contains_key(q));
                }
            }
            if after.map.contains_key(q) {
                if q == p {
                    assert(1 <= n <= n && q == parent_at(e, n as int));
                } else {
                    assert(prev.map.contains_key(q));
                    if !st.map.contains_key(q) {
                        let t = choose|t: int| 1 <= t <= n - 1 && q == #[trigger] parent_at(e, t);
                        assert(1 <= t <= n && q == parent_at(e, t));
                    }
                }
            }
        }
        assert forall|q: Parts| #[trigger] after.map.contains_key(q) implies after.map[q] == (
        st.map.contains_key(q) && st.map[q]) by {
            if !prev.map.contains_key(q) {
                assert(q == p);
                if st.map.contains_key(q) {
                    assert(prev.map.contains_key(q));
                }
            }
        }
    }
}

/// The map of kept paths of a data container holds the prefixes of its
/// data directories, and keeps a path whole exactly where it is one.
pub proof fn lemma_keep_map_shape(ds: Seq<Parts>)
    ensures
        keep_map_shape(keep_state(ds).map, ds),
    decreases ds.len(),
{
    if ds.len() == 0 {
        assert(keep_state(ds).map =~= Map::<Parts, bool>::empty());
    } else {
        let prev = ds.drop_last();
        let e = ds.last();
        lemma_keep_map_shape(prev);
        let st = keep_state(prev);
        lemma_after_parents_shape(st, e, e.len());
        let s1 = after_parents(st, e, e.len());
        let m = keep_state(ds).map;
        assert(m == s1.map.insert(e, true));
        assert forall|q: Parts| #[trigger] m.contains_key(q) <==> exists|d: int|
            0 <= d < ds.len() && is_prefix(q, ds[d]) by {
            if m.contains_key(q) {
                if q == e {
                    assert(ds[ds.len() - 1] == e);
                    assert(e.take(e.len() as int) =~= e);
                    assert(is_prefix(q, ds[ds.len() - 1]));
                } else if st.map.contains_key(q) {
                    let d = choose|d: int| 0 <= d < prev.len() && is_prefix(q, prev[d]);
                    assert(ds[d] == prev[d]);
                } else {
                    let t = choose|t: int| 1 <= t <= e.len() && q == #[trigger] parent_at(e, t);
                    assert(q.len() == e.len() - t);
                    assert(e.take(q.len() as int) =~= q);
                    assert(ds[ds.len() - 1] == e);
                    assert(is_prefix(q, ds[ds.len() - 1]));
                }
            }
            if exists|d: int| 0 <= d < ds.len() && is_prefix(q, ds[d]) {
                let d = choose|d: int| 0 <= d < ds.len() && is_prefix(q, ds[d]);
                if d < ds.len() - 1 {
                    assert(prev[d] == ds[d]);
                    assert(st.map.contains_key(q));
                } else if q.len() < e.len() {
                    let t = e.len() - q.len();
                    assert(q == parent_at(e, t));
                    assert(s1.map.contains_key(q));
                } else {
                    assert(q =~= e);
                }
            }
        }
        assert forall|q: Parts| #[trigger] m.contains_key(q) implies (m[q] <==> ds.contains(q)) by {
            if q == e {
                assert(ds[ds.len() - 1] == e);
            } else {
                if ds.contains(q) {
                    let k = choose|k: int| 0 <= k < ds.len() && ds[k] == q;
                    assert(k < ds.len() - 1);
                    assert(prev[k] == q);
                    assert(prev.contains(q));
                    assert(q.take(q.len() as int) =~= q);
                    assert(is_prefix(q, prev[k]));
                    assert(st.map.contains_key(q));
                }
                if st.map.contains_key(q) {
                    if prev.contains(q) {
                        let k = choose|k: int| 0 <= k < prev.len() && prev[k] == q;
                        assert(ds[k] == q);
                    }
                } else {
                    if prev.contains(q) {
                        let k = choose|k: int| 0 <= k < prev.len() && prev[k] == q;
                        assert(q.take(q.len() as int) =~= q);
                        assert(is_prefix(q, prev[k]));
                    }
                }
            }
        }
    }
}

/// Clearing a data container leaves exactly the paths that lie in one of
/// its data directories (the directory itself included) and the parents of
/// the data directories: nothing else survives, and none of these is
/// removed. A data directory that is the root itself is left out, as
/// clearing never looks up the root.
pub proof fn lemma_pruning(ds: Seq<Parts>, p: Parts)
    requires
        p.len() > 0,
        forall|d: int| 0 <= d < ds.len() ==> (#[trigger] ds[d]).len() > 0,
    ensures
        survives(keep_state(ds).map, p) <==> exists|d: int|
            0 <= d < ds.len() && (is_prefix(ds[d], p) || (is_prefix(p, ds[d]) && p.len()
                < ds[d].len())),
{
    lemma_keep_map_shape(ds);
    let m = keep_state(ds).map;
    if survives(m, p) {
        if forall|j: int| 1 <= j <= p.len() ==> m.contains_key(#[trigger] p.take(j)) {
            assert(p.take(p.len() as int) =~= p);
            assert(m.contains_key(p.take(p.len() as int)));
            let d = choose|d: int| 0 <= d < ds.len() && is_prefix(p, ds[d]);
            if p.len() == ds[d].len() {
                assert(ds[d].take(p.len() as int) =~= ds[d]);
                assert(is_prefix(ds[d], p));
            }
        } else {
            let j = choose|j: int| 1 <= j <= p.len() && !m.contains_key(#[trigger] p.take(j));
            let i = choose|i: int| 1 <= i < j && m.contains_key(p.take(i)) && m[p.take(i)];
            assert(ds.contains(p.take(i)));
            let d = choose|d: int| 0 <= d < ds.len() && ds[d] == p.take(i);
            assert(is_prefix(ds[d], p));
        }
    }
    if exists|d: int| 0 <= d < ds.len() && (is_prefix(ds[d], p) || (is_prefix(p, ds[d]) && p.len()
        < ds[d].len())) {
        let d = choose|d: int| 0 <= d < ds.len() && (is_prefix(ds[d], p) || (is_prefix(p, ds[d])
            && p.len() < ds[d].len()));
        let dd = ds[d];
        assert forall|j: int| 1 <= j <= p.len() implies (m.contains_key(#[trigger] p.take(j))
            || exists|i: int| 1 <= i < j && m.contains_key(p.take(i)) && m[p.take(i)]) by {
            if j <= dd.len() && (is_prefix(dd, p) || is_prefix(p, dd)) {
                assert(p.take(j) =~= dd.take(j));
                assert(is_prefix(p.take(j), dd));
                assert(m.contains_key(p.take(j)));
            } else if is_prefix(dd, p) {
                let i = dd.len() as int;
                assert(p.take(i) =~= dd);
                assert(dd.take(dd.len() as int) =~= dd);
                assert(is_prefix(dd, dd));
                assert(m.contains_key(p.take(i)));
                assert(ds.contains(dd));
            }
        }
    }
}

} // verus!

use vstd::prelude::*;
use crate::path_filter::{FilterError, FilterView, PathFilter, Verdict, WalkStep, filter_verdict, walk_step_of};
use crate::tar::{components, path_components, prefix_of};
use crate::text::string_views;

verus! {

/// Components of paths.
pub type Comps = Seq<Seq<char>>;

/// One of `pruned` is a prefix of the path whose components are `c`.
pub open spec fn under_pruned(pruned: Seq<Comps>, c: Comps) -> bool {
    exists|k: int| 0 <= k < pruned.len() && prefix_of(#[trigger] pruned[k], c)
}

/// The directories pruned by a walk with the filter `f` that met the
/// entries `es` (each a relative path and whether it is a directory) in
/// this order: an entry below a pruned directory is not looked at; a
/// directory whose step is `Prune` is pruned.
pub open spec fn walk_pruned(f: FilterView, es: Seq<(Seq<char>, bool)>) -> Seq<Comps>
    decreases es.len(),
{
    if es.len() == 0 {
        seq![]
    } else {
        let ps = walk_pruned(f, es.drop_last());
        let (p, d) = es.last();
        if !under_pruned(ps, components(p)) && walk_step_of(f, p, d) == WalkStep::Prune {
            ps.push(components(p))
        } else {
            ps
        }
    }
}

/// The walk yields the entry `es[i]`: it is not below a directory pruned
/// before it, and its step is `Emit`.
pub open spec fn walk_emits(f: FilterView, es: Seq<(Seq<char>, bool)>, i: int) -> bool {
    &&& !under_pruned(walk_pruned(f, es.take(i)), components(es[i].0))
    &&& walk_step_of(f, es[i].0, es[i].1) == WalkStep::Emit
}

/// A walk over a directory tree with a filter: the directories pruned so
/// far, as components, and the errors met so far, in order.
pub struct Walk {
    pub pruned: Vec<Vec<String>>,
    pub errors: Vec<FilterError>,
}

impl Walk {
    /// The pruned directories as components.
    pub open spec fn pruned_view(&self) -> Seq<Comps> {
        self.pruned@.map_values(|c: Vec<String>| string_views(c@))
    }

    /// A walk that met nothing yet.
    pub fn new() -> (r: Walk)
        ensures
            r.pruned_view() == Seq::<Comps>::empty(),
            r.errors@ == Seq::<FilterError>::empty(),
    {
        let r = Walk { pruned: Vec::new(), errors: Vec::new() };
        assert(r.pruned_view() =~= Seq::<Comps>::empty());
        r
    }

    fn is_under(&self, c: &Vec<String>) -> (r: bool)
        ensures
            r == under_pruned(self.pruned_view(), string_views(c@)),
    {
        let ghost ps = self.pruned_view();
        let mut k: usize = 0;
        while k < self.pruned.len()
            invariant
                k <= self.pruned@.len(),
                ps == self.pruned_view(),
                forall|j: int| 0 <= j < k ==> !prefix_of(#[trigger] ps[j], string_views(c@)),
            decreases self.pruned.len() - k,
        {
            let p = &self.pruned[k];
            assert(ps[k as int] == string_views(p@));
            if p.len() <= c.len() {
                let mut i: usize = 0;
                let mut same = true;
                while i < p.len()
                    invariant
                        p@.len() <= c@.len(),
                        i <= p@.len(),
                        same == forall|m: int| 0 <= m < i ==> p@[m]@ == c@[m]@,
                    decreases p.len() - i,
                {
                    if !crate::text::same_text(p[i].as_str(), c[i].as_str()) {
                        same = false;
                    }
                    i = i + 1;
                }
                if same {
                    assert(string_views(c@).take(p@.len() as int) =~= string_views(p@));
                    return true;
                } else {
                    proof {
                        let m = choose|m: int| 0 <= m < p@.len() && p@[m]@ != c@[m]@;
                        assert(string_views(c@).take(p@.len() as int)[m] != string_views(p@)[m]);
                    }
                }
            }
            k = k + 1;
        }
        false
    }

    /// Meets the entry at the relative path `rel` (a directory where
    /// `is_dir`) and answers whether the walk yields it. An entry below a
    /// pruned directory is neither looked at nor yielded; a directory whose
    /// step is `Prune` is pruned.
    pub fn visit(&mut self, f: &PathFilter, rel: &str, is_dir: bool) -> (r: bool)
        requires
            f.wf(),
        ensures
            ({
                let ps = old(self).pruned_view();
                let c = components(rel@);
                &&& final(self).pruned_view() == if !under_pruned(ps, c) && walk_step_of(
                    f@,
                    rel@,
                    is_dir,
                ) == WalkStep::Prune {
                    ps.push(c)
                } else {
                    ps
                }
                &&& r == (!under_pruned(ps, c) && walk_step_of(f@, rel@, is_dir) == WalkStep::Emit)
            }),
            final(self).errors@ == old(self).errors@,
    {
        let c = path_components(rel);
        if self.is_under(&c) {
            return false;
        }
        match f.walk_step(rel, is_dir) {
            WalkStep::Emit => true,
            WalkStep::Pass => false,
            WalkStep::Prune => {
                let ghost ps = self.pruned_view();
                let ghost cv = string_views(c@);
                self.pruned.push(c);
                assert(self.pruned_view() =~= ps.push(cv));
                false
            },
        }
    }

    /// Meets an entry whose path is not valid UTF-8 (shown as `path`): the
    /// error is kept and the walk goes on.
    pub fn not_utf8(&mut self, path: String)
        ensures
            final(self).errors@ == old(self).errors@.push(FilterError::Utf8(path)),
            final(self).pruned_view() == old(self).pruned_view(),
    {
        self.errors.push(FilterError::Utf8(path));
    }

    /// Meets an entry that could not be read: the error is kept and the
    /// walk goes on.
    pub fn failed(&mut self, e: walkdir::Error)
        ensures
            final(self).errors@ == old(self).errors@.push(FilterError::WalkDir(e)),
            final(self).pruned_view() == old(self).pruned_view(),
    {
        self.errors.push(FilterError::WalkDir(e));
    }

    /// Ends the walk: what was made of the entries it yielded where it met
    /// no error, else every error it met, in order.
    pub fn finish<R>(self, res: R) -> (r: Result<R, Vec<FilterError>>)
        ensures
            self.errors@.len() == 0 ==> r == Ok::<R, Vec<FilterError>>(res),
            self.errors@.len() > 0 ==> (r matches Err(es) && es@ == self.errors@),
    {
        if self.errors.len() == 0 {
            Ok(res)
        } else {
            Err(self.errors)
        }
    }
}

proof fn lemma_pruned_grow(f: FilterView, es: Seq<(Seq<char>, bool)>, a: int, b: int, x: Comps)
    requires
        0 <= a <= b <= es.len(),
        walk_pruned(f, es.take(a)).contains(x),
    ensures
        walk_pruned(f, es.take(b)).contains(x),
    decreases b - a,
{
    if a < b {
        lemma_pruned_grow(f, es, a, b - 1, x);
        assert(es.take(b).drop_last() =~= es.take(b - 1));
        let ps = walk_pruned(f, es.take(b - 1));
        let k = choose|k: int| 0 <= k < ps.len() && ps[k] == x;
        let qs = walk_pruned(f, es.take(b));
        assert(qs[k] == x);
    }
}

proof fn lemma_prefix_trans(a: Comps, b: Comps, c: Comps)
    requires
        prefix_of(a, b),
        prefix_of(b, c),
    ensures
        prefix_of(a, c),
{
    assert(c.take(a.len() as int) =~= c.take(b.len() as int).take(a.len() as int));
}

/// No entry that a walk yields lies below a directory that the filter
/// ignores, where the walk met that directory before it (as a walk of a
/// tree meets every directory before what it holds): such a directory is
/// pruned, or lies itself below a pruned one.
pub proof fn lemma_walk_no_ignored_ancestor(f: FilterView, es: Seq<(Seq<char>, bool)>, i: int, j: int)
    requires
        0 <= j < i < es.len(),
        es[j].1,
        es[j].0.len() > 0,
        prefix_of(components(es[j].0), components(es[i].0)),
        walk_emits(f, es, i),
    ensures
        !(filter_verdict(f, es[j].0, true) is Ignore),
{
    if filter_verdict(f, es[j].0, true) is Ignore {
        assert(walk_step_of(f, es[j].0, true) == WalkStep::Prune);
        let cj = components(es[j].0);
        let ci = components(es[i].0);
        let before = walk_pruned(f, es.take(j));
        assert(es.take(j + 1).drop_last() =~= es.take(j));
        assert(es.take(j + 1).last() == es[j]);
        if under_pruned(before, cj) {
            let k = choose|k: int| 0 <= k < before.len() && prefix_of(#[trigger] before[k], cj);
            lemma_prefix_trans(before[k], cj, ci);
            assert(before.contains(before[k]));
            lemma_pruned_grow(f, es, j, i, before[k]);
            let now = walk_pruned(f, es.take(i));
            let m = choose|m: int| 0 <= m < now.len() && now[m] == before[k];
            assert(prefix_of(now[m], ci));
        } else {
            let after = walk_pruned(f, es.take(j + 1));
            assert(after == before.push(cj));
            assert(after[before.len() as int] == cj);
            assert(after.contains(cj));
            lemma_pruned_grow(f, es, j + 1, i, cj);
            let now = walk_pruned(f, es.take(i));
            let m = choose|m: int| 0 <= m < now.len() && now[m] == cj;
            assert(prefix_of(now[m], ci));
        }
    }
}

} // verus!

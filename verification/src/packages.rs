use vstd::prelude::*;
use crate::text::same_text;

verus! {

/// A feature that a build step needs from the container: a toolchain, a
/// package manager or a version control system. All of them are installed
/// as build dependencies, but for the language runtimes themselves
/// (`Python2`, `Python3`, `Ruby`, `NodeJs`, `Php`).
#[derive(Copy, Clone, Debug, PartialEq, Eq, Structural, Hash, PartialOrd, Ord)]
pub enum Package {
    BuildEssential,
    Https,
    Python2,
    Python2Dev,
    Python3,
    Python3Dev,
    PipPy2,
    PipPy3,
    Ruby,
    RubyDev,
    Bundler,
    NodeJs,
    NodeJsDev,
    Npm,
    Yarn,
    Php,
    PhpDev,
    Composer,
    Git,
    Mercurial,
}

/// A feature that vagga installs by itself (a package manager that it
/// bootstraps) when the distribution does not provide it.
pub open spec fn is_generic(p: Package) -> bool {
    ||| p is PipPy2
    ||| p is PipPy3
    ||| p is Composer
    ||| p is Bundler
    ||| p is Yarn
}

/// Whether vagga installs the feature `p` by itself.
pub fn generic_feature(p: Package) -> (r: bool)
    ensures
        r == is_generic(p),
{
    match p {
        Package::PipPy2 | Package::PipPy3 | Package::Composer | Package::Bundler
        | Package::Yarn => true,
        _ => false,
    }
}

/// Whether `v` holds `p`.
pub fn has_feature(v: &Vec<Package>, p: Package) -> (r: bool)
    ensures
        r == v@.contains(p),
{
    let mut i: usize = 0;
    while i < v.len()
        invariant
            i <= v@.len(),
            forall|k: int| 0 <= k < i ==> v@[k] != p,
        decreases v.len() - i,
    {
        if v[i] == p {
            assert(v@[i as int] == p);
            return true;
        }
        i = i + 1;
    }
    false
}

/// The features of `features` for which `keep` holds, in order.
pub open spec fn features_where(features: Seq<Package>, keep: spec_fn(Package) -> bool) -> Seq<
    Package,
>
    decreases features.len(),
{
    if features.len() == 0 {
        seq![]
    } else {
        let rest = features_where(features.drop_last(), keep);
        if keep(features.last()) {
            rest.push(features.last())
        } else {
            rest
        }
    }
}

/// The features of `features` that are not in `featured` yet, in order:
/// those a build step still has to install.
pub fn pending_features(features: &[Package], featured: &Vec<Package>) -> (r: Vec<Package>)
    ensures
        r@ == features_where(features@, |p: Package| !featured@.contains(p)),
{
    let ghost keep = |p: Package| !featured@.contains(p);
    let mut r: Vec<Package> = Vec::new();
    let mut i: usize = 0;
    while i < features.len()
        invariant
            i <= features@.len(),
            keep == (|p: Package| !featured@.contains(p)),
            r@ == features_where(features@.take(i as int), keep),
        decreases features.len() - i,
    {
        let p = features[i];
        assert(features@.take(i + 1).drop_last() =~= features@.take(i as int));
        if !has_feature(featured, p) {
            r.push(p);
        }
        i = i + 1;
    }
    assert(features@.take(i as int) =~= features@);
    r
}

/// The features of `features` that vagga can neither get from the
/// distribution nor install by itself.
pub fn unsupported_features(features: &Vec<Package>) -> (r: Vec<Package>)
    ensures
        r@ == features_where(features@, |p: Package| !is_generic(p)),
{
    let ghost keep = |p: Package| !is_generic(p);
    let mut r: Vec<Package> = Vec::new();
    let mut i: usize = 0;
    while i < features.len()
        invariant
            i <= features@.len(),
            keep == (|p: Package| !is_generic(p)),
            r@ == features_where(features@.take(i as int), keep),
        decreases features.len() - i,
    {
        let p = features[i];
        assert(features@.take(i + 1).drop_last() =~= features@.take(i as int));
        if !generic_feature(p) {
            r.push(p);
        }
        i = i + 1;
    }
    assert(features@.take(i as int) =~= features@);
    r
}

/// The elements of `s.push(x)` are those of `s` and `x`.
pub proof fn lemma_push_to_set<A>(s: Seq<A>, x: A)
    ensures
        s.push(x).to_set() == s.to_set().insert(x),
{
    assert forall|y: A| #[trigger] s.push(x).to_set().contains(y) == s.to_set().insert(x).contains(y) by {
        if s.push(x).contains(y) && y != x {
            let k = choose|k: int| 0 <= k < s.push(x).len() && s.push(x)[k] == y;
            assert(s[k] == y);
        }
        if s.contains(y) {
            let k = choose|k: int| 0 <= k < s.len() && s[k] == y;
            assert(s.push(x)[k] == y);
        }
        if y == x {
            assert(s.push(x)[s.len() as int] == y);
        }
    }
    assert(s.push(x).to_set() =~= s.to_set().insert(x));
}

/// Adds to `featured` the features of `installed` that are not in
/// `leftover` (those the distribution installed), each once.
pub fn record_featured(featured: &mut Vec<Package>, installed: &Vec<Package>, leftover: &Vec<Package>)
    ensures
        final(featured)@.to_set() == old(featured)@.to_set().union(
            installed@.to_set().filter(|p: Package| !leftover@.contains(p)),
        ),
{
    let ghost start = featured@.to_set();
    let mut i: usize = 0;
    while i < installed.len()
        invariant
            i <= installed@.len(),
            featured@.to_set() == start.union(
                installed@.take(i as int).to_set().filter(|p: Package| !leftover@.contains(p)),
            ),
        decreases installed.len() - i,
    {
        let p = installed[i];
        let ghost before = featured@;
        assert(installed@.take(i + 1) =~= installed@.take(i as int).push(p));
        if !has_feature(leftover, p) && !has_feature(featured, p) {
            featured.push(p);
            assert(featured@ =~= before.push(p));
        }
        proof {
            lemma_push_to_set(installed@.take(i as int), p);
            lemma_push_to_set(before, p);
            if !leftover@.contains(p) {
                assert(featured@.to_set() =~= start.union(
                    installed@.take(i + 1).to_set().filter(|q: Package| !leftover@.contains(q)),
                ));
            } else {
                assert(installed@.take(i + 1).to_set().filter(|q: Package| !leftover@.contains(q))
                    =~= installed@.take(i as int).to_set().filter(|q: Package| !leftover@.contains(q)));
            }
        }
        i = i + 1;
    }
    assert(installed@.take(i as int) =~= installed@);
}

/// The names of the packages of a container: those it keeps
/// (`packages`), and those it needs only while it is built (`build_deps`).
pub struct PackageSets {
    pub packages: Vec<String>,
    pub build_deps: Vec<String>,
}

/// The set of the texts of `v`.
pub open spec fn names(v: Seq<String>) -> Set<Seq<char>> {
    names_seq(v).to_set()
}

/// The texts of `v`.
pub open spec fn texts(v: Seq<&str>) -> Seq<Seq<char>> {
    v.map_values(|s: &str| s@)
}

/// The state of installing features: the package sets, the packages to
/// install, and the features the distribution does not provide.
pub struct PlanView {
    pub packages: Set<Seq<char>>,
    pub build_deps: Set<Seq<char>>,
    pub to_install: Seq<Seq<char>>,
    pub unsupported: Seq<Package>,
}

/// A build dependency `n` is installed unless the container has it already,
/// as a package it keeps or as a build dependency.
pub open spec fn add_build_name(st: PlanView, n: Seq<char>) -> PlanView {
    if !st.packages.contains(n) && !st.build_deps.contains(n) {
        PlanView { build_deps: st.build_deps.insert(n), to_install: st.to_install.push(n), ..st }
    } else {
        st
    }
}

/// A package `n` to keep is no longer a build dependency, and is installed
/// unless the container keeps it already.
pub open spec fn add_system_name(st: PlanView, n: Seq<char>) -> PlanView {
    if !st.packages.contains(n) {
        PlanView {
            packages: st.packages.insert(n),
            build_deps: st.build_deps.remove(n),
            to_install: st.to_install.push(n),
            ..st
        }
    } else {
        PlanView { build_deps: st.build_deps.remove(n), ..st }
    }
}

/// `add_build_name` for each of `ns`, in order.
pub open spec fn add_build_names(st: PlanView, ns: Seq<Seq<char>>) -> PlanView
    decreases ns.len(),
{
    if ns.len() == 0 {
        st
    } else {
        add_build_name(add_build_names(st, ns.drop_last()), ns.last())
    }
}

/// `add_system_name` for each of `ns`, in order.
pub open spec fn add_system_names(st: PlanView, ns: Seq<Seq<char>>) -> PlanView
    decreases ns.len(),
{
    if ns.len() == 0 {
        st
    } else {
        add_system_name(add_system_names(st, ns.drop_last()), ns.last())
    }
}

/// The build dependencies and the packages to keep that a distribution
/// gives for one feature (`None` where it does not provide the feature).
pub type DepLists = (Option<Vec<&'static str>>, Option<Vec<&'static str>>);

/// The lists of one feature as texts.
pub type DepTexts = (Option<Seq<Seq<char>>>, Option<Seq<Seq<char>>>);

/// An optional list of names as texts.
pub open spec fn opt_texts(o: Option<Vec<&'static str>>) -> Option<Seq<Seq<char>>> {
    match o {
        Some(v) => Some(texts(v@)),
        None => None,
    }
}

/// `DepLists` as texts.
pub open spec fn dep_texts(d: DepLists) -> DepTexts {
    (opt_texts(d.0), opt_texts(d.1))
}

/// A sequence of `DepLists` as texts.
pub open spec fn deps_texts(ds: Seq<DepLists>) -> Seq<DepTexts> {
    ds.map_values(|d: DepLists| dep_texts(d))
}

/// Installing the feature `p`, whose lists are `build` and `system`.
pub open spec fn plan_feature(
    st: PlanView,
    p: Package,
    build: Option<Seq<Seq<char>>>,
    system: Option<Seq<Seq<char>>>,
) -> PlanView {
    match build {
        None => PlanView { unsupported: st.unsupported.push(p), ..st },
        Some(b) => {
            let st2 = add_build_names(st, b);
            match system {
                None => PlanView { unsupported: st2.unsupported.push(p), ..st2 },
                Some(sy) => add_system_names(st2, sy),
            }
        },
    }
}

/// Installing the features `fs`, in order, where `ds[i]` are the lists of
/// `fs[i]`.
pub open spec fn plan_features(st: PlanView, fs: Seq<Package>, ds: Seq<DepTexts>) -> PlanView
    decreases fs.len(),
{
    if fs.len() == 0 {
        st
    } else {
        let d = ds[fs.len() - 1];
        plan_feature(
            plan_features(st, fs.drop_last(), ds.take(fs.len() - 1)),
            fs.last(),
            d.0,
            d.1,
        )
    }
}

/// The texts of `v.push(x)` are those of `v` and `x`.
proof fn lemma_names_push(v: Seq<String>, x: String)
    ensures
        names(v.push(x)) == names(v).insert(x@),
{
    assert(names_seq(v.push(x)) =~= names_seq(v).push(x@));
    lemma_push_to_set(names_seq(v), x@);
}

/// Whether the text of one of `v` is `n`.
fn contains_name(v: &Vec<String>, n: &str) -> (r: bool)
    ensures
        r == names(v@).contains(n@),
{
    let mut i: usize = 0;
    while i < v.len()
        invariant
            i <= v@.len(),
            forall|k: int| 0 <= k < i ==> v@[k]@ != n@,
        decreases v.len() - i,
    {
        if same_text(v[i].as_str(), n) {
            assert(names_seq(v@)[i as int] == n@);
            return true;
        }
        i = i + 1;
    }
    assert(!names_seq(v@).contains(n@)) by {
        if names_seq(v@).contains(n@) {
            let k = choose|k: int|
                0 <= k < v@.len() && #[trigger] names_seq(v@)[k] == n@;
            assert(v@[k]@ == n@);
        }
    }
    false
}

/// Removes every text `n` from `v`.
fn remove_name(v: &mut Vec<String>, n: &str)
    ensures
        names(final(v)@) == names(old(v)@).remove(n@),
{
    let mut out: Vec<String> = Vec::new();
    let mut i: usize = 0;
    assert(names(out@) =~= names(v@.take(0)).remove(n@)) by {
        assert(names_seq(v@.take(0)) =~= seq![]);
        assert(names_seq(out@) =~= seq![]);
    }
    while i < v.len()
        invariant
            i <= v@.len(),
            names(out@) == names(v@.take(i as int)).remove(n@),
        decreases v.len() - i,
    {
        let ghost before = out@;
        proof {
            assert(v@.take(i + 1) =~= v@.take(i as int).push(v@[i as int]));
            lemma_names_push(v@.take(i as int), v@[i as int]);
        }
        if !same_text(v[i].as_str(), n) {
            let x = v[i].clone();
            out.push(x);
            proof {
                lemma_names_push(before, x);
                assert(names(out@) =~= names(v@.take(i + 1)).remove(n@));
            }
        } else {
            assert(names(out@) =~= names(v@.take(i + 1)).remove(n@));
        }
        i = i + 1;
    }
    assert(v@.take(i as int) =~= v@);
    *v = out;
}

/// Adds the text `n` to `v` unless one of `v` has it.
fn insert_name(v: &mut Vec<String>, n: &String)
    ensures
        names(final(v)@) == names(old(v)@).insert(n@),
{
    if contains_name(v, n.as_str()) {
        assert(names(v@).insert(n@) =~= names(v@));
    } else {
        let x = n.clone();
        proof {
            lemma_names_push(v@, x);
        }
        v.push(x);
    }
}

impl PackageSets {
    /// Takes the packages `pkgs` into those the container keeps; they are
    /// no longer build dependencies.
    pub fn keep_packages(&mut self, pkgs: &Vec<String>)
        ensures
            names(final(self).packages@) == names(old(self).packages@).union(names(pkgs@)),
            names(final(self).build_deps@) == names(old(self).build_deps@).difference(
                names(pkgs@),
            ),
    {
        let ghost p0 = names(self.packages@);
        let ghost b0 = names(self.build_deps@);
        let mut i: usize = 0;
        assert(names_seq(pkgs@.take(0)) =~= seq![]);
        assert(p0.union(names(pkgs@.take(0))) =~= p0);
        assert(b0.difference(names(pkgs@.take(0))) =~= b0);
        while i < pkgs.len()
            invariant
                i <= pkgs@.len(),
                names(self.packages@) == p0.union(names(pkgs@.take(i as int))),
                names(self.build_deps@) == b0.difference(names(pkgs@.take(i as int))),
            decreases pkgs.len() - i,
        {
            proof {
                assert(pkgs@.take(i + 1) =~= pkgs@.take(i as int).push(pkgs@[i as int]));
                lemma_names_push(pkgs@.take(i as int), pkgs@[i as int]);
            }
            insert_name(&mut self.packages, &pkgs[i]);
            remove_name(&mut self.build_deps, pkgs[i].as_str());
            proof {
                assert(names(self.packages@) =~= p0.union(names(pkgs@.take(i + 1))));
                assert(names(self.build_deps@) =~= b0.difference(names(pkgs@.take(i + 1))));
            }
            i = i + 1;
        }
        assert(pkgs@.take(i as int) =~= pkgs@);
    }

    /// Takes the packages `pkgs` as build dependencies, but for those the
    /// container keeps.
    pub fn add_build_deps(&mut self, pkgs: &Vec<String>)
        ensures
            final(self).packages == old(self).packages,
            names(final(self).build_deps@) == names(old(self).build_deps@).union(
                names(pkgs@).difference(names(old(self).packages@)),
            ),
    {
        let ghost b0 = names(self.build_deps@);
        let ghost kept = names(self.packages@);
        let mut i: usize = 0;
        assert(names_seq(pkgs@.take(0)) =~= seq![]);
        assert(b0.union(names(pkgs@.take(0)).difference(kept)) =~= b0);
        while i < pkgs.len()
            invariant
                i <= pkgs@.len(),
                kept == names(self.packages@),
                self.packages == old(self).packages,
                names(self.build_deps@) == b0.union(names(pkgs@.take(i as int)).difference(kept)),
            decreases pkgs.len() - i,
        {
            proof {
                assert(pkgs@.take(i + 1) =~= pkgs@.take(i as int).push(pkgs@[i as int]));
                lemma_names_push(pkgs@.take(i as int), pkgs@[i as int]);
            }
            if !contains_name(&self.packages, pkgs[i].as_str()) {
                insert_name(&mut self.build_deps, &pkgs[i]);
            }
            proof {
                assert(names(self.build_deps@) =~= b0.union(
                    names(pkgs@.take(i + 1)).difference(kept),
                ));
            }
            i = i + 1;
        }
        assert(pkgs@.take(i as int) =~= pkgs@);
    }
}

impl PackageSets {
    /// The sets as a plan with nothing to install yet.
    pub open spec fn start(&self) -> PlanView {
        PlanView {
            packages: names(self.packages@),
            build_deps: names(self.build_deps@),
            to_install: seq![],
            unsupported: seq![],
        }
    }

    /// Takes the build dependencies `ns` of a feature into account.
    fn add_build(&mut self, ns: &Vec<&'static str>, to_install: &mut Vec<String>, Ghost(unsupported): Ghost<Seq<Package>>)
        ensures
            add_build_names(
                PlanView {
                    packages: names(old(self).packages@),
                    build_deps: names(old(self).build_deps@),
                    to_install: names_seq(old(to_install)@),
                    unsupported,
                },
                texts(ns@),
            ) == (PlanView {
                packages: names(final(self).packages@),
                build_deps: names(final(self).build_deps@),
                to_install: names_seq(final(to_install)@),
                unsupported,
            }),
    {
        let ghost st0 = PlanView {
            packages: names(self.packages@),
            build_deps: names(self.build_deps@),
            to_install: names_seq(to_install@),
            unsupported,
        };
        let mut i: usize = 0;
        assert(texts(ns@).take(0) =~= seq![]);
        while i < ns.len()
            invariant
                i <= ns@.len(),
                add_build_names(st0, texts(ns@).take(i as int)) == (PlanView {
                    packages: names(self.packages@),
                    build_deps: names(self.build_deps@),
                    to_install: names_seq(to_install@),
                    unsupported,
                }),
            decreases ns.len() - i,
        {
            let n = ns[i];
            assert(texts(ns@).take(i + 1).drop_last() =~= texts(ns@).take(i as int));
            assert(texts(ns@).take(i + 1).last() == n@);
            if !contains_name(&self.packages, n) && !contains_name(&self.build_deps, n) {
                let ghost bd = self.build_deps@;
                let ghost ti = to_install@;
                self.build_deps.push(String::from_str(n));
                to_install.push(String::from_str(n));
                proof {
                    lemma_names_push(bd, self.build_deps@.last());
                    assert(self.build_deps@ =~= bd.push(self.build_deps@.last()));
                    assert(names_seq(to_install@) =~= names_seq(ti).push(n@));
                }
            }
            i = i + 1;
        }
        assert(texts(ns@).take(i as int) =~= texts(ns@));
    }

    /// Takes the packages to keep `ns` of a feature into account.
    fn add_system(&mut self, ns: &Vec<&'static str>, to_install: &mut Vec<String>, Ghost(unsupported): Ghost<Seq<Package>>)
        ensures
            add_system_names(
                PlanView {
                    packages: names(old(self).packages@),
                    build_deps: names(old(self).build_deps@),
                    to_install: names_seq(old(to_install)@),
                    unsupported,
                },
                texts(ns@),
            ) == (PlanView {
                packages: names(final(self).packages@),
                build_deps: names(final(self).build_deps@),
                to_install: names_seq(final(to_install)@),
                unsupported,
            }),
    {
        let ghost st0 = PlanView {
            packages: names(self.packages@),
            build_deps: names(self.build_deps@),
            to_install: names_seq(to_install@),
            unsupported,
        };
        let mut i: usize = 0;
        assert(texts(ns@).take(0) =~= seq![]);
        while i < ns.len()
            invariant
                i <= ns@.len(),
                add_system_names(st0, texts(ns@).take(i as int)) == (PlanView {
                    packages: names(self.packages@),
                    build_deps: names(self.build_deps@),
                    to_install: names_seq(to_install@),
                    unsupported,
                }),
            decreases ns.len() - i,
        {
            let n = ns[i];
            assert(texts(ns@).take(i + 1).drop_last() =~= texts(ns@).take(i as int));
            assert(texts(ns@).take(i + 1).last() == n@);
            remove_name(&mut self.build_deps, n);
            if !contains_name(&self.packages, n) {
                let ghost pk = self.packages@;
                let ghost ti = to_install@;
                self.packages.push(String::from_str(n));
                to_install.push(String::from_str(n));
                proof {
                    lemma_names_push(pk, self.packages@.last());
                    assert(self.packages@ =~= pk.push(self.packages@.last()));
                    assert(names_seq(to_install@) =~= names_seq(ti).push(n@));
                }
            }
            i = i + 1;
        }
        assert(texts(ns@).take(i as int) =~= texts(ns@));
    }

    /// Decides what to install for the features `features`, where `deps[i]`
    /// are the lists that the distribution gives for `features[i]`: returns
    /// the packages to install, in order, and the features the distribution
    /// does not provide; the sets take the new packages in.
    pub fn plan(&mut self, features: &[Package], deps: &Vec<DepLists>) -> (r: (Vec<String>, Vec<Package>))
        requires
            deps@.len() == features@.len(),
        ensures
            plan_features(old(self).start(), features@, deps_texts(deps@)) == (PlanView {
                packages: names(final(self).packages@),
                build_deps: names(final(self).build_deps@),
                to_install: names_seq(r.0@),
                unsupported: r.1@,
            }),
    {
        let ghost st0 = self.start();
        let mut to_install: Vec<String> = Vec::new();
        let mut unsupported: Vec<Package> = Vec::new();
        let mut i: usize = 0;
        assert(names_seq(to_install@) =~= seq![]);
        while i < features.len()
            invariant
                i <= features@.len(),
                deps@.len() == features@.len(),
                plan_features(st0, features@.take(i as int), deps_texts(deps@).take(i as int))
                    == (PlanView {
                    packages: names(self.packages@),
                    build_deps: names(self.build_deps@),
                    to_install: names_seq(to_install@),
                    unsupported: unsupported@,
                }),
            decreases features.len() - i,
        {
            let p = features[i];
            let d = &deps[i];
            assert(features@.take(i + 1).drop_last() =~= features@.take(i as int));
            assert(deps_texts(deps@).take(i + 1).take(i as int) =~= deps_texts(deps@).take(
                i as int,
            ));
            assert(deps_texts(deps@).take(i + 1)[i as int] == dep_texts(deps@[i as int]));
            match &d.0 {
                None => {
                    unsupported.push(p);
                },
                Some(b) => {
                    self.add_build(b, &mut to_install, Ghost(unsupported@));
                    match &d.1 {
                        None => {
                            unsupported.push(p);
                        },
                        Some(sy) => {
                            self.add_system(sy, &mut to_install, Ghost(unsupported@));
                        },
                    }
                },
            }
            i = i + 1;
        }
        assert(features@.take(i as int) =~= features@);
        assert(deps_texts(deps@).take(i as int) =~= deps_texts(deps@));
        (to_install, unsupported)
    }
}

/// The texts of `v`, in order.
pub open spec fn names_seq(v: Seq<String>) -> Seq<Seq<char>> {
    v.map_values(|s: String| s@)
}

/// The container has the package `n`, to keep or to build with.
pub open spec fn has_name(st: PlanView, n: Seq<char>) -> bool {
    st.packages.contains(n) || st.build_deps.contains(n)
}

/// No package is both kept and a build dependency, and every package to
/// install is in one of the sets.
pub open spec fn plan_ok(st: PlanView) -> bool {
    &&& st.packages.disjoint(st.build_deps)
    &&& forall|n: Seq<char>| #[trigger] st.to_install.contains(n) ==> has_name(st, n)
}

/// `b` has every package that `a` has.
pub open spec fn grows(a: PlanView, b: PlanView) -> bool {
    forall|n: Seq<char>| #[trigger] has_name(a, n) ==> has_name(b, n)
}

proof fn lemma_add_build_names(st: PlanView, ns: Seq<Seq<char>>)
    requires
        plan_ok(st),
    ensures
        plan_ok(add_build_names(st, ns)),
        grows(st, add_build_names(st, ns)),
        add_build_names(st, ns).unsupported == st.unsupported,
    decreases ns.len(),
{
    if ns.len() > 0 {
        let s1 = add_build_names(st, ns.drop_last());
        lemma_add_build_names(st, ns.drop_last());
        let n = ns.last();
        let s2 = add_build_name(s1, n);
        assert forall|m: Seq<char>| #[trigger] s2.to_install.contains(m) implies has_name(s2, m) by {
            if s2.to_install != s1.to_install {
                if m != n {
                    let k = choose|k: int| 0 <= k < s2.to_install.len() && s2.to_install[k] == m;
                    assert(s1.to_install[k] == m);
                    assert(s1.to_install.contains(m));
                    assert(has_name(s1, m));
                }
            } else {
                assert(s1.to_install.contains(m));
                assert(has_name(s1, m));
            }
        }
    }
}

proof fn lemma_add_system_names(st: PlanView, ns: Seq<Seq<char>>)
    requires
        plan_ok(st),
    ensures
        plan_ok(add_system_names(st, ns)),
        grows(st, add_system_names(st, ns)),
        add_system_names(st, ns).unsupported == st.unsupported,
    decreases ns.len(),
{
    if ns.len() > 0 {
        let s1 = add_system_names(st, ns.drop_last());
        lemma_add_system_names(st, ns.drop_last());
        let n = ns.last();
        let s2 = add_system_name(s1, n);
        assert forall|m: Seq<char>| #[trigger] s2.to_install.contains(m) implies has_name(s2, m) by {
            if s2.to_install != s1.to_install {
                if m != n {
                    let k = choose|k: int| 0 <= k < s2.to_install.len() && s2.to_install[k] == m;
                    assert(s1.to_install[k] == m);
                    assert(s1.to_install.contains(m));
                    assert(has_name(s1, m));
                }
            } else {
                assert(s1.to_install.contains(m));
                assert(has_name(s1, m));
            }
        }
    }
}

/// Installing features never makes a package both kept and a build
/// dependency, never loses a package, and leaves every package it installs
/// in one of the two sets.
pub proof fn lemma_plan_keeps_sets_apart(st: PlanView, fs: Seq<Package>, ds: Seq<DepTexts>)
    requires
        plan_ok(st),
        ds.len() == fs.len(),
    ensures
        plan_ok(plan_features(st, fs, ds)),
        grows(st, plan_features(st, fs, ds)),
    decreases fs.len(),
{
    if fs.len() > 0 {
        let s1 = plan_features(st, fs.drop_last(), ds.take(fs.len() - 1));
        lemma_plan_keeps_sets_apart(st, fs.drop_last(), ds.take(fs.len() - 1));
        let d = ds[fs.len() - 1];
        match d.0 {
            None => {},
            Some(b) => {
                lemma_add_build_names(s1, b);
                match d.1 {
                    None => {},
                    Some(sy) => {
                        lemma_add_system_names(add_build_names(s1, b), sy);
                    },
                }
            },
        }
    }
}

/// The features a distribution does not provide are, in order, those for
/// which it has no list of build dependencies or no list of packages to
/// keep.
pub proof fn lemma_plan_unsupported(st: PlanView, fs: Seq<Package>, ds: Seq<DepTexts>)
    requires
        ds.len() == fs.len(),
    ensures
        plan_features(st, fs, ds).unsupported == st.unsupported + features_where_missing(fs, ds),
    decreases fs.len(),
{
    if fs.len() > 0 {
        let s1 = plan_features(st, fs.drop_last(), ds.take(fs.len() - 1));
        lemma_plan_unsupported(st, fs.drop_last(), ds.take(fs.len() - 1));
        let d = ds[fs.len() - 1];
        lemma_unsupported_unchanged(s1, d.0, d.1);
        assert(ds.take(fs.len() - 1).len() == fs.drop_last().len());
        if ds[fs.len() - 1].0 is None || ds[fs.len() - 1].1 is None {
            assert(st.unsupported + features_where_missing(fs, ds) =~= (st.unsupported
                + features_where_missing(fs.drop_last(), ds.take(fs.len() - 1))).push(fs.last()));
        }
    }
}

proof fn lemma_unsupported_unchanged(
    st: PlanView,
    build: Option<Seq<Seq<char>>>,
    system: Option<Seq<Seq<char>>>,
)
    ensures
        build is Some && system is Some ==> add_system_names(
            add_build_names(st, build->0),
            system->0,
        ).unsupported == st.unsupported,
        build is Some ==> add_build_names(st, build->0).unsupported == st.unsupported,
{
    if build is Some {
        lemma_add_names_unsupported(st, build->0);
        if system is Some {
            lemma_add_names_unsupported(add_build_names(st, build->0), system->0);
        }
    }
}

proof fn lemma_add_names_unsupported(st: PlanView, ns: Seq<Seq<char>>)
    ensures
        add_build_names(st, ns).unsupported == st.unsupported,
        add_system_names(st, ns).unsupported == st.unsupported,
    decreases ns.len(),
{
    if ns.len() > 0 {
        lemma_add_names_unsupported(st, ns.drop_last());
    }
}

/// The features of `fs` for which the lists `ds` miss one of the two lists.
pub open spec fn features_where_missing(fs: Seq<Package>, ds: Seq<DepTexts>) -> Seq<Package>
    decreases fs.len(),
{
    if fs.len() == 0 {
        seq![]
    } else {
        let rest = features_where_missing(fs.drop_last(), ds.take(fs.len() - 1));
        if ds[fs.len() - 1].0 is None || ds[fs.len() - 1].1 is None {
            rest.push(fs.last())
        } else {
            rest
        }
    }
}

} // verus!

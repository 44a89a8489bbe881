use vstd::prelude::*;
use crate::assoc::text_seq;
use crate::guard::{join_parts, join_components, parts_view, Parts};
use crate::paths::{join_path, path_join};
use crate::range::Range;
use crate::tar::{components, path_components};
use crate::text::{concat, path_debug, path_debug_text, same_text, string_views};

verus! {

/// The files next to a configuration that are mixed into it where they
/// exist, in order.
pub open spec fn local_mixins() -> Seq<Seq<char>> {
    seq!["vagga.local.yaml"@, ".vagga.local.yaml"@, ".vagga/local.yaml"@]
}

/// The path of the components `c`, with single separators.
pub open spec fn render(c: Parts) -> Seq<char> {
    if c.len() > 0 && c[0] == "/"@ {
        "/"@ + join_parts(c.drop_first())
    } else {
        join_parts(c)
    }
}

/// The directories where the configuration of a project whose working
/// directory is the absolute path `work_dir` is looked for: the working
/// directory, then each of its parents up to the root.
pub open spec fn search_dirs(work_dir: Seq<char>) -> Seq<Seq<char>> {
    let c = components(work_dir);
    Seq::new(c.len(), |i: int| render(c.take(c.len() - i)))
}

fn render_parts(c: &Vec<String>) -> (r: String)
    ensures
        r@ == render(parts_view(*c)),
{
    if c.len() > 0 && same_text(c[0].as_str(), "/") {
        let mut rest = c.clone();
        let ghost cv = parts_view(*c);
        assert(parts_view(rest) == cv) by {
            assert forall|k: int| 0 <= k < rest@.len() implies rest@[k]@ == c@[k]@ by {
                assert(rest@[k] == c@[k]);
            }
            assert(parts_view(rest) =~= cv);
        }
        rest.remove(0);
        assert(parts_view(rest) =~= cv.drop_first());
        concat("/", join_components(&rest).as_str())
    } else {
        join_components(c)
    }
}

fn take_parts(c: &Vec<String>, k: usize) -> (r: Vec<String>)
    requires
        k <= c@.len(),
    ensures
        parts_view(r) == parts_view(*c).take(k as int),
{
    let mut r: Vec<String> = Vec::new();
    let mut i: usize = 0;
    while i < k
        invariant
            i <= k <= c@.len(),
            parts_view(r) == parts_view(*c).take(i as int),
        decreases k - i,
    {
        let x = c[i].clone();
        let ghost xv = x@;
        let ghost r0 = parts_view(r);
        assert(xv == c@[i as int]@);
        r.push(x);
        assert(parts_view(r) =~= r0.push(xv));
        assert(parts_view(r) =~= parts_view(*c).take(i + 1));
        i = i + 1;
    }
    r
}

/// The directories where the configuration is looked for, from the working
/// directory `work_dir` up.
pub fn config_search_dirs(work_dir: &str) -> (r: Vec<String>)
    ensures
        text_seq(r@) == search_dirs(work_dir@),
{
    let c = path_components(work_dir);
    let ghost cv = components(work_dir@);
    let n = c.len();
    let mut r: Vec<String> = Vec::new();
    let mut i: usize = 0;
    while i < n
        invariant
            n == c@.len(),
            cv == components(work_dir@),
            parts_view(c) == cv,
            i <= n,
            text_seq(r@) == search_dirs(work_dir@).take(i as int),
        decreases n - i,
    {
        let p = take_parts(&c, n - i);
        let d = render_parts(&p);
        let ghost r0 = text_seq(r@);
        let ghost dv = d@;
        r.push(d);
        assert(text_seq(r@) =~= r0.push(dv));
        assert(search_dirs(work_dir@).take(i + 1) =~= search_dirs(work_dir@).take(i as int).push(dv));
        i = i + 1;
    }
    assert(search_dirs(work_dir@).take(n as int) =~= search_dirs(work_dir@));
    r
}

/// The files whose existence decides whether the directory `dir` holds the
/// configuration, in the order they are looked at: `.vagga/vagga.yaml`,
/// `vagga.yaml`, then the local mixins.
pub open spec fn probe_files(dir: Seq<char>) -> Seq<Seq<char>> {
    seq![join_path(dir, ".vagga/vagga.yaml"@), join_path(dir, "vagga.yaml"@)] + local_mixins().map_values(
        |m: Seq<char>| join_path(dir, m),
    )
}

/// The files to look at in the directory `dir`.
pub fn config_probes(dir: &str) -> (r: Vec<String>)
    ensures
        text_seq(r@) == probe_files(dir@),
{
    let r = vec![
        path_join(dir, ".vagga/vagga.yaml"),
        path_join(dir, "vagga.yaml"),
        path_join(dir, "vagga.local.yaml"),
        path_join(dir, ".vagga.local.yaml"),
        path_join(dir, ".vagga/local.yaml"),
    ];
    assert(text_seq(r@) =~= probe_files(dir@));
    r
}

/// What the directory `dir` gives, where `found` says which of its
/// `probe_files` exist: the directory with its configuration file, the
/// directory alone where only local mixins exist, or nothing.
pub open spec fn probe_result(dir: Seq<char>, found: Seq<bool>) -> Option<(Seq<char>, Option<Seq<char>>)> {
    if found[0] {
        Some((dir, Some(join_path(dir, ".vagga/vagga.yaml"@))))
    } else if found[1] {
        Some((dir, Some(join_path(dir, "vagga.yaml"@))))
    } else if found[2] || found[3] || found[4] {
        Some((dir, None))
    } else {
        None
    }
}

/// The first of the directories `dirs` that gives a configuration.
pub open spec fn first_config(dirs: Seq<Seq<char>>, found: Seq<Seq<bool>>) -> Option<(Seq<char>, Option<Seq<char>>)>
    decreases dirs.len(),
{
    if dirs.len() == 0 || found.len() == 0 {
        None
    } else {
        match probe_result(dirs[0], found[0]) {
            Some(r) => Some(r),
            None => first_config(dirs.drop_first(), found.drop_first()),
        }
    }
}

/// The directory of the project's configuration and its file (none where
/// only local mixins were found), from the working directory `work_dir`
/// up; `found[i]` says which of the `config_probes` of the `i`-th
/// directory of `config_search_dirs` exist.
pub fn find_config_path(work_dir: &str, found: &Vec<Vec<bool>>) -> (r: Option<(String, Option<String>)>)
    requires
        found@.len() == search_dirs(work_dir@).len(),
        forall|i: int| 0 <= i < found@.len() ==> (#[trigger] found@[i])@.len() == 5,
    ensures
        match first_config(search_dirs(work_dir@), found@.map_values(|f: Vec<bool>| f@)) {
            None => r is None,
            Some((d, f)) => r matches Some((rd, rf)) && rd@ == d && match f {
                Some(fv) => rf matches Some(x) && x@ == fv,
                None => rf is None,
            },
        },
{
    let dirs = config_search_dirs(work_dir);
    let ghost ds = search_dirs(work_dir@);
    let ghost fs = found@.map_values(|f: Vec<bool>| f@);
    let mut i: usize = 0;
    assert(ds.skip(0) =~= ds);
    assert(fs.skip(0) =~= fs);
    while i < dirs.len()
        invariant
            text_seq(dirs@) == ds,
            ds == search_dirs(work_dir@),
            fs == found@.map_values(|f: Vec<bool>| f@),
            found@.len() == ds.len(),
            forall|j: int| 0 <= j < found@.len() ==> (#[trigger] found@[j])@.len() == 5,
            i <= dirs@.len(),
            first_config(ds, fs) == first_config(ds.skip(i as int), fs.skip(i as int)),
        decreases dirs.len() - i,
    {
        let f = &found[i];
        let d = dirs[i].as_str();
        assert(ds.skip(i as int)[0] == d@);
        assert(fs.skip(i as int)[0] == f@);
        assert(ds.skip(i as int).drop_first() =~= ds.skip(i + 1));
        assert(fs.skip(i as int).drop_first() =~= fs.skip(i + 1));
        if f[0] {
            return Some((dirs[i].clone(), Some(path_join(d, ".vagga/vagga.yaml"))));
        }
        if f[1] {
            return Some((dirs[i].clone(), Some(path_join(d, "vagga.yaml"))));
        }
        if f[2] || f[3] || f[4] {
            return Some((dirs[i].clone(), None));
        }
        i = i + 1;
    }
    assert(ds.skip(i as int).len() == 0);
    None
}

/// The error where no configuration is found from `work_dir` up.
pub fn not_found_error(work_dir: &str) -> (r: String)
    ensures
        r@ == "Config not found in path "@ + path_debug_text(work_dir@),
{
    concat("Config not found in path ", path_debug(work_dir).as_str())
}

/// The components that `Path::parent` keeps of the components `c` (a path
/// with no parent keeps all of them).
pub open spec fn parent_parts(c: Parts) -> Parts {
    if c.len() == 0 || (c.len() == 1 && c[0] == "/"@) {
        c
    } else {
        c.drop_last()
    }
}

/// A component that names a file or directory (not the root, `.` or `..`).
pub open spec fn is_normal(c: Seq<char>) -> bool {
    c != "/"@ && c != "."@ && c != ".."@
}

/// The file that `relative` names next to the file `base`, as included
/// files and mixins are found; `None` where `relative` has a part that is
/// not a plain name (the root, `.` or `..`).
pub open spec fn included_path(base: Seq<char>, relative: Seq<char>) -> Option<Seq<char>> {
    let rc = components(relative);
    if forall|i: int| 0 <= i < rc.len() ==> is_normal(#[trigger] rc[i]) {
        Some(render(parent_parts(components(base)) + rc))
    } else {
        None
    }
}

/// The file that `relative` names next to the file `base`; the error where
/// `relative` has a part that is not a plain name.
pub fn join_path_checked(base: &str, relative: &str) -> (r: Result<String, String>)
    ensures
        match included_path(base@, relative@) {
            Some(p) => r is Ok && r->Ok_0@ == p,
            None => r is Err && r->Err_0@
                == "Only relative paths without parent directories can be included"@,
        },
{
    let rc = path_components(relative);
    let mut i: usize = 0;
    while i < rc.len()
        invariant
            i <= rc@.len(),
            string_views(rc@) == components(relative@),
            forall|k: int| 0 <= k < i ==> is_normal(rc@[k]@),
        decreases rc.len() - i,
    {
        let p = rc[i].as_str();
        if same_text(p, "/") || same_text(p, ".") || same_text(p, "..") {
            assert(!is_normal(components(relative@)[i as int]));
            return Err(
                String::from_str("Only relative paths without parent directories can be included"),
            );
        }
        i = i + 1;
    }
    let mut c = path_components(base);
    let ghost cv = parts_view(c);
    if !(c.len() == 0 || (c.len() == 1 && same_text(c[0].as_str(), "/"))) {
        c.pop();
        assert(parts_view(c) =~= cv.drop_last());
    }
    let ghost pc = parts_view(c);
    let mut j: usize = 0;
    while j < rc.len()
        invariant
            j <= rc@.len(),
            parts_view(c) == pc + string_views(rc@).take(j as int),
        decreases rc.len() - j,
    {
        let x = rc[j].clone();
        let ghost xv = x@;
        let ghost c0 = parts_view(c);
        assert(xv == rc@[j as int]@);
        c.push(x);
        assert(parts_view(c) =~= c0.push(xv));
        assert(string_views(rc@).take(j + 1) =~= string_views(rc@).take(j as int).push(xv));
        j = j + 1;
    }
    assert(string_views(rc@).take(j as int) =~= string_views(rc@));
    Ok(render_parts(&c))
}

/// Gives an empty list of id ranges the full range of ids `0..=65535`.
pub fn default_ranges(v: &mut Vec<Range>)
    ensures
        old(v)@.len() > 0 ==> final(v)@ == old(v)@,
        old(v)@.len() == 0 ==> final(v)@.len() == 1,
        old(v)@.len() == 0 ==> final(v)@[0].first() == 0,
        old(v)@.len() == 0 ==> final(v)@[0].past() == 65536,
{
    if v.len() == 0 {
        v.push(Range::new(0, 65535));
    }
}

/// Entries whose keys are texts, as the keyed sections of a configuration
/// hold them.
pub open spec fn keyed_view<T>(m: Seq<(String, T)>) -> Seq<(Seq<char>, T)> {
    m.map_values(|e: (String, T)| (e.0@, e.1))
}

/// Whether the entries `m` have a key `k`.
pub open spec fn has_key<T>(m: Seq<(String, T)>, k: Seq<char>) -> bool {
    exists|i: int| 0 <= i < m.len() && (#[trigger] m[i]).0@ == k
}

fn find_key<T>(m: &Vec<(String, T)>, k: &str) -> (r: bool)
    ensures
        r == has_key(m@, k@),
{
    let mut i: usize = 0;
    while i < m.len()
        invariant
            i <= m@.len(),
            forall|j: int| 0 <= j < i ==> m@[j].0@ != k@,
        decreases m.len() - i,
    {
        if same_text(m[i].0.as_str(), k) {
            assert(m@[i as int].0@ == k@);
            return true;
        }
        i = i + 1;
    }
    false
}

/// The entries of `src` whose keys `dest` (with the entries of `src` before
/// them) does not have yet, in order: what a mixin adds.
pub open spec fn new_entries<T>(dest: Seq<(String, T)>, src: Seq<(String, T)>) -> Seq<(String, T)>
    decreases src.len(),
{
    if src.len() == 0 {
        seq![]
    } else {
        let before = new_entries(dest, src.drop_last());
        if has_key(dest + before, src.last().0@) {
            before
        } else {
            before.push(src.last())
        }
    }
}

/// Adds the entries of a mixin `src` whose keys `dest` does not have: a
/// mixin never replaces what the configuration (or an earlier mixin)
/// defines.
pub fn merge_absent<T>(dest: &mut Vec<(String, T)>, src: Vec<(String, T)>)
    ensures
        final(dest)@ == old(dest)@ + new_entries(old(dest)@, src@),
{
    let ghost d0 = dest@;
    let ghost s0 = src@;
    let mut src = src;
    let n = src.len();
    let mut rev: Vec<(String, T)> = Vec::new();
    while src.len() > 0
        invariant
            src@.len() + rev@.len() == s0.len(),
            src@ == s0.take(src@.len() as int),
            forall|k: int| 0 <= k < rev@.len() ==> rev@[k] == s0[s0.len() - 1 - k],
        decreases src@.len(),
    {
        let ghost before = src@;
        let e = src.pop().unwrap();
        assert(before.drop_last() =~= s0.take(src@.len() as int));
        rev.push(e);
    }
    let mut i: usize = 0;
    assert(s0.take(0) =~= seq![]);
    while rev.len() > 0
        invariant
            i + rev@.len() == s0.len(),
            s0.len() == n,
            forall|k: int| 0 <= k < rev@.len() ==> rev@[k] == s0[s0.len() - 1 - k],
            dest@ == d0 + new_entries(d0, s0.take(i as int)),
        decreases rev@.len(),
    {
        let e = rev.pop().unwrap();
        assert(e == s0[i as int]);
        assert(s0.take(i + 1).drop_last() =~= s0.take(i as int));
        assert(s0.take(i + 1).last() == e);
        if !find_key(dest, e.0.as_str()) {
            dest.push(e);
        }
        i = i + 1;
    }
    assert(s0.take(i as int) =~= s0);
}

} // verus!

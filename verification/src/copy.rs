use vstd::prelude::*;
use crate::guard::{KeepMap, Parts, parts_view};
use crate::matchers::{check_regex, regex_is_match, regex_builds, regex_matches};
use crate::tar::{components, path_components, prefix_of};
use crate::text::{string_views, decimal, decimal_of};
use crate::versioning::{VersionHash, ItemView, text_item};

verus! {

/// The files that `Copy` and `Depends` leave out where no other pattern is
/// given: version control metadata, vagga's own directory, backup and
/// editor files.
pub const DEFAULT_IGNORE_REGEX: &'static str = r#"(^|/)\.(git|hg|svn|vagga)($|/)|~$|\.bak$|\.orig$|^#.*#$"#;

/// The umask of `Copy` where none is given.
pub const DEFAULT_UMASK: u32 = 0o002;

/// The mode of a copied directory, before the umask.
pub const DIR_MODE: u32 = 0o777;

/// The mode of a copied file, before the umask.
pub const FILE_MODE: u32 = 0o666;

/// The mode of a copied executable file, before the umask.
pub const EXE_FILE_MODE: u32 = 0o777;

/// The bit of the mode by which a file counts as executable.
pub const EXE_CHECK_MASK: u32 = 0o100;

/// The build step that makes the container depend on the files below a
/// path of the project (the container is rebuilt where they change).
#[derive(Debug)]
pub struct Depends {
    pub path: String,
    pub ignore_regex: String,
    pub include_regex: Option<String>,
}

/// The build step that copies files into the container.
#[derive(Debug)]
pub struct Copy {
    pub source: String,
    pub path: String,
    pub owner_uid: Option<u32>,
    pub owner_gid: Option<u32>,
    pub umask: u32,
    pub preserve_permissions: bool,
    pub ignore_regex: String,
    pub include_regex: Option<String>,
}

/// The kind of a file to copy.
#[derive(Debug, Clone, Copy, PartialEq, Eq, Structural)]
pub enum FileKind {
    Symlink,
    Dir,
    File,
}

/// The mode given to a copy of a file of kind `kind` and mode `mode`:
/// none for a symlink; the file's own where permissions are preserved;
/// else that of a directory, an executable or a plain file, less the umask.
pub open spec fn copy_mode(c: Copy, kind: FileKind, mode: u32) -> Option<u32> {
    if kind == FileKind::Symlink {
        None
    } else if c.preserve_permissions {
        Some(mode)
    } else {
        let base: u32 = if kind == FileKind::Dir {
            DIR_MODE
        } else if mode & EXE_CHECK_MASK > 0 {
            EXE_FILE_MODE
        } else {
            FILE_MODE
        };
        Some(base & !c.umask)
    }
}

impl Copy {
    /// The mode given to the copy of a file of kind `kind` and mode `mode`.
    pub fn calc_mode(&self, kind: FileKind, mode: u32) -> (r: Option<u32>)
        ensures
            r == copy_mode(*self, kind, mode),
    {
        match kind {
            FileKind::Symlink => None,
            _ => {
                if self.preserve_permissions {
                    Some(mode)
                } else {
                    let base: u32 = match kind {
                        FileKind::Dir => DIR_MODE,
                        _ => if mode & EXE_CHECK_MASK > 0 {
                            EXE_FILE_MODE
                        } else {
                            FILE_MODE
                        },
                    };
                    Some(base & !self.umask)
                }
            },
        }
    }

    /// Whether the source is below `/work`, where the project's files are
    /// (the step is then versioned by the files themselves).
    pub fn source_in_work(&self) -> (r: bool)
        ensures
            r == prefix_of(components("/work"@), components(self.source@)),
    {
        let work = path_components("/work");
        let src = path_components(self.source.as_str());
        if work.len() > src.len() {
            return false;
        }
        let mut i: usize = 0;
        while i < work.len()
            invariant
                work@.len() <= src@.len(),
                string_views(work@) == components("/work"@),
                string_views(src@) == components(self.source@),
                i <= work@.len(),
                forall|k: int| 0 <= k < i ==> src@[k]@ == work@[k]@,
            decreases work.len() - i,
        {
            if !crate::text::same_text(src[i].as_str(), work[i].as_str()) {
                assert(string_views(src@).take(work@.len() as int)[i as int] != string_views(
                    work@,
                )[i as int]);
                return false;
            }
            i = i + 1;
        }
        assert(string_views(src@).take(work@.len() as int) =~= string_views(work@));
        true
    }
}

/// The patterns that choose the files of a copy.
#[derive(Debug)]
pub struct Filter {
    pub ignore_re: Option<String>,
    pub include_re: Option<String>,
}

/// Whether the filter `f` takes the relative path `s`: the ignore pattern
/// does not match it and the include pattern, if any, does.
pub open spec fn filter_takes(f: Filter, s: Seq<char>) -> bool {
    &&& (f.ignore_re matches Some(p) ==> !(regex_builds(p@) && regex_matches(p@, s)))
    &&& (f.include_re matches Some(p) ==> regex_builds(p@) && regex_matches(p@, s))
}

impl Filter {
    /// The filter of the patterns `ignore_regex` and `include_regex`; the
    /// error of the first one that does not compile.
    pub fn new(ignore_regex: &String, include_regex: &Option<String>) -> (r: Result<
        Filter,
        regex::Error,
    >)
        ensures
            r is Ok <==> (regex_builds(ignore_regex@) && (include_regex matches Some(p)
                ==> regex_builds(p@))),
            r matches Ok(f) ==> f.ignore_re == Some(*ignore_regex) && f.include_re
                == *include_regex,
    {
        match check_regex(ignore_regex.as_str()) {
            Err(e) => Err(e),
            Ok(()) => {
                match include_regex {
                    Some(inc) => match check_regex(inc.as_str()) {
                        Err(e) => Err(e),
                        Ok(()) => Ok(
                            Filter {
                                ignore_re: Some(ignore_regex.clone()),
                                include_re: Some(inc.clone()),
                            },
                        ),
                    },
                    None => Ok(Filter { ignore_re: Some(ignore_regex.clone()), include_re: None }),
                }
            },
        }
    }

    /// Whether the filter takes the relative path `s`.
    pub fn is_match(&self, s: &str) -> (r: bool)
        ensures
            r == filter_takes(*self, s@),
    {
        let ignored = match &self.ignore_re {
            Some(p) => regex_is_match(p.as_str(), s),
            None => false,
        };
        let taken = match &self.include_re {
            Some(p) => regex_is_match(p.as_str(), s),
            None => true,
        };
        !ignored && taken
    }
}

/// The number of leading components of `c`, at most `k`, whose path was
/// copied already: the longest such prefix, looking from `k` down.
pub open spec fn copied_depth(done: Set<Parts>, c: Parts, k: nat) -> nat
    decreases k,
{
    if k == 0 {
        0
    } else if done.contains(c.take(k as int)) {
        k
    } else {
        copied_depth(done, c, (k - 1) as nat)
    }
}

/// The paths to copy for the entry `c` where the paths `done` were copied
/// already: `c` and its parents, from the topmost one that was not copied
/// down to `c` itself.
pub open spec fn copy_chain(done: Set<Parts>, c: Parts) -> Seq<Parts> {
    let m = copied_depth(done, c, c.len());
    Seq::new((c.len() - m) as nat, |i: int| c.take(m + 1 + i))
}

/// A set of paths that has the parents of each of its paths.
pub open spec fn prefix_closed(s: Set<Parts>) -> bool {
    forall|p: Parts, k: int| s.contains(p) && 1 <= k < p.len() ==> s.contains(#[trigger] p.take(k))
}

/// The paths copied so far by a copy that walks a directory.
pub struct CopyTracker {
    pub done: KeepMap,
}

fn take_parts(c: &Vec<String>, k: usize) -> (r: Vec<String>)
    requires
        k <= c@.len(),
    ensures
        parts_view(r) == parts_view(*c).take(k as int),
{
    let mut r: Vec<String> = Vec::new();
    let mut i: usize = 0;
    while i < k
        invariant
            i <= k <= c@.len(),
            parts_view(r) == parts_view(*c).take(i as int),
        decreases k - i,
    {
        let x = c[i].clone();
        let ghost xv = x@;
        let ghost r0 = parts_view(r);
        assert(xv == c@[i as int]@);
        r.push(x);
        assert(parts_view(r) =~= r0.push(xv));
        assert(parts_view(r) =~= parts_view(*c).take(i + 1));
        i = i + 1;
    }
    r
}

proof fn lemma_depth_bound(done: Set<Parts>, c: Parts, k: nat)
    ensures
        copied_depth(done, c, k) <= k,
        copied_depth(done, c, k) > 0 ==> done.contains(c.take(copied_depth(done, c, k) as int)),
        forall|j: int|
            copied_depth(done, c, k) < j <= k ==> !done.contains(#[trigger] c.take(j)),
    decreases k,
{
    if k > 0 && !done.contains(c.take(k as int)) {
        lemma_depth_bound(done, c, (k - 1) as nat);
    }
}

impl CopyTracker {
    /// The paths copied so far.
    pub open spec fn copied(&self) -> Set<Parts> {
        self.done.view_map().dom()
    }

    /// A copy that copied nothing yet.
    pub fn new() -> (r: CopyTracker)
        ensures
            r.copied() == Set::<Parts>::empty(),
    {
        let r = CopyTracker { done: KeepMap::new() };
        assert(r.copied() =~= Set::<Parts>::empty());
        r
    }

    /// The number of leading components of `c` whose path was copied.
    fn depth(&self, c: &Vec<String>) -> (m: usize)
        ensures
            m == copied_depth(self.copied(), parts_view(*c), c@.len() as nat),
    {
        let ghost cv = parts_view(*c);
        let ghost n = c@.len() as nat;
        let mut k: usize = c.len();
        while k > 0
            invariant
                k <= c@.len(),
                cv == parts_view(*c),
                n == c@.len(),
                copied_depth(self.copied(), cv, n) == copied_depth(self.copied(), cv, k as nat),
            decreases k,
        {
            let p = take_parts(c, k);
            if self.done.get(&p).is_some() {
                return k;
            }
            k = k - 1;
        }
        0
    }

    /// The paths to copy, in order, for the entry `c` (a path relative to
    /// the copied directory, as its components); they count as copied
    /// afterwards.
    pub fn next(&mut self, c: &Vec<String>) -> (r: Vec<Vec<String>>)
        ensures
            r@.map_values(|p: Vec<String>| parts_view(p)) == copy_chain(
                old(self).copied(),
                parts_view(*c),
            ),
            final(self).copied() == old(self).copied().union(
                copy_chain(old(self).copied(), parts_view(*c)).to_set(),
            ),
    {
        let ghost cv = parts_view(*c);
        let ghost done0 = self.copied();
        let m = self.depth(c);
        proof {
            lemma_depth_bound(done0, cv, cv.len());
        }
        let ghost chain = copy_chain(done0, cv);
        let mut r: Vec<Vec<String>> = Vec::new();
        let mut i: usize = m;
        assert(chain.take(0).to_set() =~= Set::<Parts>::empty());
        assert(done0.union(Set::<Parts>::empty()) =~= done0);
        while i < c.len()
            invariant
                m <= i <= c@.len(),
                cv == parts_view(*c),
                chain == copy_chain(done0, cv),
                m == copied_depth(done0, cv, cv.len()),
                r@.map_values(|p: Vec<String>| parts_view(p)) == chain.take(i - m),
                self.copied() == done0.union(chain.take(i - m).to_set()),
            decreases c.len() - i,
        {
            let p = take_parts(c, i + 1);
            let q = take_parts(c, i + 1);
            let ghost pv = parts_view(p);
            assert(pv == chain[i - m]);
            self.done.insert(p, true);
            let ghost r0 = r@.map_values(|p: Vec<String>| parts_view(p));
            r.push(q);
            proof {
                assert(r@.map_values(|p: Vec<String>| parts_view(p)) =~= r0.push(pv));
                assert(chain.take(i + 1 - m) =~= chain.take(i - m).push(pv));
                assert(chain.take(i + 1 - m).to_set() =~= chain.take(i - m).to_set().insert(pv)) by {
                    let s0 = chain.take(i - m);
                    assert forall|x: Parts| #[trigger] s0.push(pv).contains(x) <==> (s0.contains(x) || x == pv) by {
                        if s0.push(pv).contains(x) {
                            let j = choose|j: int| 0 <= j < s0.push(pv).len() && s0.push(pv)[j] == x;
                            if j < s0.len() {
                                assert(s0[j] == x);
                            }
                        }
                        if s0.contains(x) {
                            let j = choose|j: int| 0 <= j < s0.len() && s0[j] == x;
                            assert(s0.push(pv)[j] == x);
                        }
                        if x == pv {
                            assert(s0.push(pv)[s0.len() as int] == x);
                        }
                    }
                }
                assert(self.copied() =~= done0.union(chain.take(i + 1 - m).to_set()));
            }
            i = i + 1;
        }
        assert(chain.take(i - m) =~= chain);
        r
    }
}

/// A copy that walks a directory copies the parents of each entry before
/// the entry, and nothing twice: for a set of copied paths that has the
/// parents of each of its paths, the paths to copy for an entry are new,
/// each lies directly below the one before it, the first lies directly
/// below a copied path or at the top, and afterwards the copied paths have
/// the entry and all its parents and still have the parents of each of
/// their paths.
pub proof fn lemma_copy_chain_parents_first(done: Set<Parts>, c: Parts)
    requires
        prefix_closed(done),
    ensures
        forall|i: int|
            0 <= i < copy_chain(done, c).len() ==> !done.contains(#[trigger] copy_chain(done, c)[i]),
        forall|i: int|
            0 < i < copy_chain(done, c).len() ==> (#[trigger] copy_chain(done, c)[i]).drop_last()
                == copy_chain(done, c)[i - 1],
        copy_chain(done, c).len() > 0 ==> (copy_chain(done, c)[0].len() == 1 || done.contains(
            copy_chain(done, c)[0].drop_last(),
        )),
        forall|k: int|
            1 <= k <= c.len() ==> done.union(copy_chain(done, c).to_set()).contains(
                #[trigger] c.take(k),
            ),
        prefix_closed(done.union(copy_chain(done, c).to_set())),
{
    let m = copied_depth(done, c, c.len());
    let ch = copy_chain(done, c);
    lemma_depth_bound(done, c, c.len());
    let all = done.union(ch.to_set());
    assert forall|i: int| 0 < i < ch.len() implies (#[trigger] ch[i]).drop_last() == ch[i - 1] by {
        assert(c.take(m + 1 + i).drop_last() =~= c.take(m + i));
    }
    if ch.len() > 0 {
        assert(ch[0] == c.take(m + 1int));
        if m > 0 {
            assert(c.take(m + 1int).drop_last() =~= c.take(m as int));
        }
    }
    assert forall|k: int| 1 <= k <= c.len() implies all.contains(#[trigger] c.take(k)) by {
        if k <= m {
            assert(c.take(m as int).take(k) =~= c.take(k));
        } else {
            assert(ch[k - m - 1] == c.take(k));
            assert(ch.contains(c.take(k)));
        }
    }
    assert forall|p: Parts, k: int| all.contains(p) && 1 <= k < p.len() implies all.contains(
        #[trigger] p.take(k),
    ) by {
        if !done.contains(p) {
            assert(ch.contains(p));
            let i = choose|i: int| 0 <= i < ch.len() && ch[i] == p;
            assert(p == c.take(m + 1 + i));
            assert(p.take(k) =~= c.take(k));
            assert(all.contains(c.take(k)));
        }
    }
}

/// A file met while a step is versioned by the files below a path, as a
/// look at it (not following symlinks) found it: its path, its kind, whether
/// it is a regular file, its mode and owner, and the target of a symlink
/// (empty for other kinds).
#[derive(Debug)]
pub struct FileEntry {
    pub path: String,
    pub kind: FileKind,
    pub regular: bool,
    pub mode: u32,
    pub uid: u32,
    pub gid: u32,
    pub link: String,
}

/// What versions the contents of the file `e`: the contents of a regular
/// file; the target of a symlink; nothing for other kinds.
pub open spec fn content_items(e: FileEntry) -> Seq<ItemView> {
    if e.regular {
        seq![ItemView::Stream(e.path@)]
    } else if e.kind == FileKind::Symlink {
        seq![ItemView::Input(e.link@)]
    } else {
        seq![]
    }
}

/// Feeds what versions the contents of `e` into `h`.
pub(crate) fn hash_content_of(h: &mut VersionHash, e: &FileEntry)
    ensures
        final(h)@ == old(h)@ + content_items(*e),
{
    let ghost h0 = h@;
    if e.regular {
        h.stream(e.path.as_str());
    } else {
        match e.kind {
            FileKind::Symlink => h.input(e.link.as_str()),
            _ => {},
        }
    }
    assert(h@ =~= h0 + content_items(*e));
}

/// The items of each entry of `es` in turn, as `f` gives them.
pub open spec fn entries_items(es: Seq<FileEntry>, f: spec_fn(FileEntry) -> Seq<ItemView>) -> Seq<ItemView>
    decreases es.len(),
{
    if es.len() == 0 {
        seq![]
    } else {
        entries_items(es.drop_last(), f) + f(es.last())
    }
}

impl Depends {
    /// What versions the file `e`: its path; whether it is executable,
    /// where it is a regular file (the rest of the mode depends on the
    /// umask of the host); its contents.
    pub open spec fn entry_items(e: FileEntry) -> Seq<ItemView> {
        seq![text_item("filename"@, e.path@)] + (if e.regular {
            seq![ItemView::Bool("is_executable"@, e.mode & EXE_CHECK_MASK > 0)]
        } else {
            seq![]
        }) + content_items(e)
    }

    /// Two files that differ only in their owner or in the bits of their
    /// mode other than the execute bit of the owner version the step alike:
    /// the rest of the mode depends on the umask of the host.
    pub proof fn lemma_entry_ignores_umask(e1: FileEntry, e2: FileEntry)
        requires
            e1.path@ == e2.path@,
            e1.kind == e2.kind,
            e1.regular == e2.regular,
            e1.link@ == e2.link@,
            e1.mode & EXE_CHECK_MASK == e2.mode & EXE_CHECK_MASK,
        ensures
            Self::entry_items(e1) == Self::entry_items(e2),
    {
        assert(content_items(e1) =~= content_items(e2));
        assert(Self::entry_items(e1) =~= Self::entry_items(e2));
    }

    /// Feeds what versions the file `e` into `h`.
    pub fn hash_entry(h: &mut VersionHash, e: &FileEntry)
        ensures
            final(h)@ == old(h)@ + Self::entry_items(*e),
    {
        let ghost h0 = h@;
        h.field_text("filename", e.path.as_str());
        if e.regular {
            h.bool_field("is_executable", e.mode & EXE_CHECK_MASK > 0);
        }
        let ghost h1 = h@;
        hash_content_of(h, e);
        assert(h@ =~= h0 + Self::entry_items(*e));
    }

    /// Feeds what versions the step into `h`, where `files` are the files
    /// below its path in the order they are met, or `None` where the path
    /// is missing. Returns whether the step is versioned; a missing path
    /// means it has to be built anew.
    pub fn hash(&self, h: &mut VersionHash, files: &Option<Vec<FileEntry>>) -> (r: bool)
        ensures
            r == files is Some,
            files matches Some(fs) ==> final(h)@ == old(h)@ + entries_items(
                fs@,
                |e: FileEntry| Self::entry_items(e),
            ),
    {
        let fs = match files {
            Some(fs) => fs,
            None => {
                return false;
            },
        };
        let ghost h0 = h@;
        let ghost f = |e: FileEntry| Self::entry_items(e);
        let mut i: usize = 0;
        assert(fs@.take(0) =~= seq![]);
        assert(h@ =~= h0 + entries_items(seq![], f));
        while i < fs.len()
            invariant
                i <= fs@.len(),
                f == (|e: FileEntry| Self::entry_items(e)),
                h@ == h0 + entries_items(fs@.take(i as int), f),
            decreases fs.len() - i,
        {
            Self::hash_entry(h, &fs[i]);
            assert(fs@.take(i + 1).drop_last() =~= fs@.take(i as int));
            assert(h@ =~= h0 + entries_items(fs@.take(i + 1), f));
            i = i + 1;
        }
        assert(fs@.take(i as int) =~= fs@);
        true
    }
}

/// `o`, or `d` where `o` is `None`.
pub open spec fn or_else(o: Option<u32>, d: u32) -> u32 {
    match o {
        Some(x) => x,
        None => d,
    }
}

impl Copy {
    /// What versions the file `e` of a copy from below `/work`: its path;
    /// the mode its copy gets, where it gets one; the owner of the copy;
    /// its contents.
    pub open spec fn entry_items(self, e: FileEntry) -> Seq<ItemView> {
        seq![text_item("filename"@, e.path@)] + (match copy_mode(self, e.kind, e.mode) {
            Some(m) => seq![ItemView::Text("mode"@, m)],
            None => seq![],
        }) + seq![
            ItemView::Text("uid"@, or_else(self.owner_uid, e.uid)),
            ItemView::Text("gid"@, or_else(self.owner_gid, e.gid)),
        ] + content_items(e)
    }

    /// Feeds what versions the file `e` into `h`.
    pub fn hash_entry(&self, h: &mut VersionHash, e: &FileEntry)
        ensures
            final(h)@ == old(h)@ + self.entry_items(*e),
    {
        let ghost h0 = h@;
        h.field_text("filename", e.path.as_str());
        match self.calc_mode(e.kind, e.mode) {
            Some(m) => h.text_number("mode", m),
            None => {},
        }
        let uid = match self.owner_uid {
            Some(u) => u,
            None => e.uid,
        };
        let gid = match self.owner_gid {
            Some(g) => g,
            None => e.gid,
        };
        h.text_number("uid", uid);
        h.text_number("gid", gid);
        let ghost h1 = h@;
        hash_content_of(h, e);
        assert(h@ =~= h0 + self.entry_items(*e));
    }

    /// What versions a copy from outside `/work` (its files come from the
    /// steps before, so they are not looked at): the source and the path;
    /// unless permissions are preserved, the owner where one is given and
    /// the umask, in decimal; whether permissions are preserved.
    pub open spec fn outside_items(self) -> Seq<ItemView> {
        seq![text_item("source"@, self.source@), text_item("path"@, self.path@)] + (if !self.preserve_permissions {
            (match self.owner_uid {
                Some(u) => seq![text_item("owner_uid"@, decimal_of(u as nat))],
                None => seq![],
            }) + (match self.owner_gid {
                Some(g) => seq![text_item("owner_gid"@, decimal_of(g as nat))],
                None => seq![],
            }) + seq![text_item("umask"@, decimal_of(self.umask as nat))]
        } else {
            seq![]
        }) + seq![ItemView::Bool("preserve_permissions"@, self.preserve_permissions)]
    }

    /// What versions a copy from below `/work` whose files are `fs`: each
    /// file in turn, then the path of the copy.
    pub open spec fn work_items(self, fs: Seq<FileEntry>) -> Seq<ItemView> {
        entries_items(fs, |e: FileEntry| self.entry_items(e)) + seq![text_item("path"@, self.path@)]
    }

    /// Feeds what versions the step into `h`, where `files` are the files
    /// below the source in the order they are met, or `None` where the
    /// source is missing (they are looked at for a source below `/work`
    /// only). Returns whether the step is versioned; a missing source below
    /// `/work` means it has to be built anew.
    pub fn hash(&self, h: &mut VersionHash, files: &Option<Vec<FileEntry>>) -> (r: bool)
        ensures
            r == (!prefix_of(components("/work"@), components(self.source@)) || files is Some),
            !prefix_of(components("/work"@), components(self.source@)) ==> final(h)@ == old(h)@
                + self.outside_items(),
            prefix_of(components("/work"@), components(self.source@)) ==> (files matches Some(fs)
                ==> final(h)@ == old(h)@ + self.work_items(fs@)),
    {
        let ghost h0 = h@;
        if !self.source_in_work() {
            h.field_text("source", self.source.as_str());
            h.field_text("path", self.path.as_str());
            let ghost h1 = h@;
            if !self.preserve_permissions {
                match self.owner_uid {
                    Some(u) => {
                        let t = decimal(u);
                        h.field_text("owner_uid", t.as_str());
                    },
                    None => {},
                }
                match self.owner_gid {
                    Some(g) => {
                        let t = decimal(g);
                        h.field_text("owner_gid", t.as_str());
                    },
                    None => {},
                }
                let t = decimal(self.umask);
                h.field_text("umask", t.as_str());
            }
            let ghost h2 = h@;
            h.bool_field("preserve_permissions", self.preserve_permissions);
            assert(h@ =~= h0 + self.outside_items());
            return true;
        }
        let fs = match files {
            Some(fs) => fs,
            None => {
                return false;
            },
        };
        let ghost f = |e: FileEntry| self.entry_items(e);
        let mut i: usize = 0;
        assert(fs@.take(0) =~= seq![]);
        assert(h@ =~= h0 + entries_items(seq![], f));
        while i < fs.len()
            invariant
                i <= fs@.len(),
                f == (|e: FileEntry| self.entry_items(e)),
                h@ == h0 + entries_items(fs@.take(i as int), f),
            decreases fs.len() - i,
        {
            self.hash_entry(h, &fs[i]);
            assert(fs@.take(i + 1).drop_last() =~= fs@.take(i as int));
            assert(h@ =~= h0 + entries_items(fs@.take(i + 1), f));
            i = i + 1;
        }
        assert(fs@.take(i as int) =~= fs@);
        h.field_text("path", self.path.as_str());
        assert(h@ =~= h0 + self.work_items(fs@));
        true
    }
}


/// Copying with permissions preserved keeps the mode of everything but a
/// symlink as it is, whatever the umask: the same file gets the same mode
/// under any two umasks. Without it, the mode has none of the umask's bits.
/// A symlink gets no mode either way.
pub proof fn lemma_copy_mode_laws(c: Copy, kind: FileKind, mode: u32, umask: u32)
    ensures
        kind != FileKind::Symlink && c.preserve_permissions ==> copy_mode(c, kind, mode) == Some(
            mode,
        ),
        c.preserve_permissions ==> copy_mode(c, kind, mode) == copy_mode(
            Copy { umask, ..c },
            kind,
            mode,
        ),
        kind != FileKind::Symlink && !c.preserve_permissions ==> (copy_mode(c, kind, mode) matches Some(
            m,
        ) && m & c.umask == 0),
        kind == FileKind::Symlink ==> copy_mode(c, kind, mode) is None,
{
    if kind != FileKind::Symlink && !c.preserve_permissions {
        let u = c.umask;
        assert(forall|b: u32| #[trigger] ((b & !u) & u) == 0) by (bit_vector);
    }
}


/// Copying without preserving permissions gives a directory `0o777`, an
/// executable file (owner may run it) `0o777` and any other file `0o666`,
/// each less the umask.
pub proof fn lemma_copy_mode_defaults(c: Copy, mode: u32)
    requires
        !c.preserve_permissions,
    ensures
        copy_mode(c, FileKind::Dir, mode) == Some(0o777u32 & !c.umask),
        mode & 0o100u32 != 0 ==> copy_mode(c, FileKind::File, mode) == Some(0o777u32 & !c.umask),
        mode & 0o100u32 == 0 ==> copy_mode(c, FileKind::File, mode) == Some(0o666u32 & !c.umask),
{
}

} // verus!

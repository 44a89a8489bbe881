use vstd::prelude::*;
use crate::versioning::{VersionHash, ItemView, text_item, opt_text_item, source_item};
use crate::text::{
    chars_of, concat, string_of, split_on, split_char, string_views, opt_text, has_prefix, same_text, lemma_split_on_len,
};
use crate::downloads::named_parts;
use crate::paths::{join_path, path_join};
use crate::guard::{join_parts, join_components};
use crate::text::{concat3, path_debug, path_debug_text};

verus! {

/// The build step that unpacks an archive into the container.
#[derive(Debug)]
pub struct Tar {
    pub url: String,
    pub sha256: Option<String>,
    pub path: String,
    pub subdir: String,
}

/// The build step that unpacks an archive and runs a script in it.
#[derive(Debug)]
pub struct TarInstall {
    pub url: String,
    pub sha256: Option<String>,
    pub subdir: Option<String>,
    pub script: String,
}

/// How an archive is compressed.
#[derive(Debug, PartialEq, Eq, Structural, Clone, Copy)]
pub enum Compression {
    Gzip,
    Xz,
    Bzip2,
}

/// `m` starts with the bytes `p`.
pub open spec fn starts_bytes(m: Seq<u8>, p: Seq<u8>) -> bool {
    m.len() >= p.len() && m.take(p.len() as int) == p
}

/// The compression that the first bytes `magic` of an archive show: gzip,
/// xz or bzip2, tried in this order.
pub open spec fn compression_of(magic: Seq<u8>) -> Option<Compression> {
    if starts_bytes(magic, seq![0x1fu8, 0x8bu8]) {
        Some(Compression::Gzip)
    } else if starts_bytes(magic, seq![0xFDu8, 0x37u8, 0x7au8, 0x58u8, 0x5au8, 0x00u8]) {
        Some(Compression::Xz)
    } else if starts_bytes(magic, seq![0x42u8, 0x5au8, 0x68u8]) {
        Some(Compression::Bzip2)
    } else {
        None
    }
}

/// Whether `m` starts with `p`.
fn has_bytes(m: &[u8], p: &[u8]) -> (r: bool)
    ensures
        r == starts_bytes(m@, p@),
{
    if m.len() < p.len() {
        return false;
    }
    let mut i: usize = 0;
    while i < p.len()
        invariant
            m@.len() >= p@.len(),
            i <= p@.len(),
            forall|k: int| 0 <= k < i ==> m@[k] == p@[k],
        decreases p.len() - i,
    {
        if m[i] != p[i] {
            assert(m@.take(p@.len() as int)[i as int] != p@[i as int]);
            return false;
        }
        i = i + 1;
    }
    assert(m@.take(p@.len() as int) =~= p@);
    true
}

/// The compression of an archive whose first bytes are `magic`.
pub fn detect_compression(magic: &[u8]) -> (r: Option<Compression>)
    ensures
        r == compression_of(magic@),
{
    let gz: [u8; 2] = [0x1f, 0x8b];
    let xz: [u8; 6] = [0xFD, 0x37, 0x7a, 0x58, 0x5a, 0x00];
    let bz: [u8; 3] = [0x42, 0x5a, 0x68];
    assert(gz@ =~= seq![0x1fu8, 0x8bu8]);
    assert(xz@ =~= seq![0xFDu8, 0x37u8, 0x7au8, 0x58u8, 0x5au8, 0x00u8]);
    assert(bz@ =~= seq![0x42u8, 0x5au8, 0x68u8]);
    if has_bytes(magic, &gz) {
        Some(Compression::Gzip)
    } else if has_bytes(magic, &xz) {
        Some(Compression::Xz)
    } else if has_bytes(magic, &bz) {
        Some(Compression::Bzip2)
    } else {
        None
    }
}

/// The components of a path, as `Path::components` gives them on Unix,
/// each as a text: the root as `/`, a leading `.` as `.`, then the named
/// pieces between the separators (repeated separators, trailing ones and
/// the other `.` pieces are normalized away).
pub open spec fn components(s: Seq<char>) -> Seq<Seq<char>> {
    let pieces = split_on(s, '/');
    (if s.len() > 0 && s[0] == '/' {
        seq!["/"@]
    } else if pieces[0] == "."@ {
        seq!["."@]
    } else {
        seq![]
    }) + named_parts(pieces)
}

/// The components of the path `s`.
pub fn path_components(s: &str) -> (r: Vec<String>)
    ensures
        string_views(r@) == components(s@),
{
    let pieces = split_char(s, '/');
    let ghost ps = split_on(s@, '/');
    proof {
        lemma_split_on_len(s@, '/');
    }
    let mut r: Vec<String> = Vec::new();
    let v = chars_of(s);
    if v.len() > 0 && v[0] == '/' {
        r.push(String::from_str("/"));
    } else if same_text(pieces[0].as_str(), ".") {
        r.push(String::from_str("."));
    }
    assert(ps[0] == pieces@[0]@);
    let ghost head = string_views(r@);
    let mut i: usize = 0;
    assert(ps.take(0) =~= seq![]);
    assert(head + seq![] =~= head);
    while i < pieces.len()
        invariant
            string_views(pieces@) == ps,
            i <= pieces@.len(),
            string_views(r@) == head + named_parts(ps.take(i as int)),
        decreases pieces.len() - i,
    {
        assert(ps.take(i + 1).drop_last() =~= ps.take(i as int));
        assert(ps.take(i + 1).last() == pieces@[i as int]@);
        let p = pieces[i].as_str();
        if p.unicode_len() > 0 && !same_text(p, ".") {
            let ghost r0 = string_views(r@);
            let x = pieces[i].clone();
            r.push(x);
            assert(string_views(r@) =~= r0.push(x@));
        }
        i = i + 1;
    }
    assert(ps.take(i as int) =~= ps);
    r
}

/// `base` is a prefix of `p`, component by component, as
/// `Path::starts_with` compares.
pub open spec fn prefix_of(base: Seq<Seq<char>>, p: Seq<Seq<char>>) -> bool {
    base.len() <= p.len() && p.take(base.len() as int) == base
}

/// The components of an entry path of an archive, without the root of an
/// absolute path.
pub open spec fn relative_components(s: Seq<char>) -> Seq<Seq<char>> {
    let c = components(s);
    if c.len() > 0 && c[0] == "/"@ {
        c.drop_first()
    } else {
        c
    }
}

/// Whether one of `paths` is a prefix of `c`.
pub open spec fn any_prefix(paths: Seq<Seq<char>>, c: Seq<Seq<char>>) -> bool {
    exists|i: int| 0 <= i < paths.len() && prefix_of(components(#[trigger] paths[i]), c)
}

/// Where an entry of an archive is unpacked, as components below the target
/// directory: nowhere where `includes` is not empty and names no prefix of
/// it, or where `excludes` names a prefix of it.
pub open spec fn entry_parts(
    path: Seq<char>,
    includes: Seq<Seq<char>>,
    excludes: Seq<Seq<char>>,
) -> Option<Seq<Seq<char>>> {
    let c = relative_components(path);
    if includes.len() > 0 && !any_prefix(includes, c) {
        None
    } else if any_prefix(excludes, c) {
        None
    } else {
        Some(c)
    }
}

/// Whether the components `base` are a prefix of `c`.
fn is_prefix(base: &Vec<String>, c: &Vec<String>) -> (r: bool)
    ensures
        r == prefix_of(string_views(base@), string_views(c@)),
{
    if base.len() > c.len() {
        return false;
    }
    let mut i: usize = 0;
    while i < base.len()
        invariant
            base@.len() <= c@.len(),
            i <= base@.len(),
            forall|k: int| 0 <= k < i ==> base@[k]@ == c@[k]@,
        decreases base.len() - i,
    {
        if !same_text(base[i].as_str(), c[i].as_str()) {
            assert(string_views(c@).take(base@.len() as int)[i as int] != string_views(base@)[i as int]);
            return false;
        }
        i = i + 1;
    }
    assert(string_views(c@).take(base@.len() as int) =~= string_views(base@));
    true
}

/// Whether one of `paths` names a prefix of the components `c`.
fn has_prefix_in(paths: &Vec<String>, c: &Vec<String>) -> (r: bool)
    ensures
        r == any_prefix(string_views(paths@), string_views(c@)),
{
    let mut i: usize = 0;
    while i < paths.len()
        invariant
            i <= paths@.len(),
            forall|k: int|
                0 <= k < i ==> !prefix_of(components(#[trigger] string_views(paths@)[k]), string_views(c@)),
        decreases paths.len() - i,
    {
        let comps = path_components(paths[i].as_str());
        assert(string_views(paths@)[i as int] == paths@[i as int]@);
        if is_prefix(&comps, c) {
            return true;
        }
        i = i + 1;
    }
    false
}

/// The components without the root of an absolute path.
fn relative_parts(path: &str) -> (r: Vec<String>)
    ensures
        string_views(r@) == relative_components(path@),
{
    let mut c = path_components(path);
    if c.len() > 0 && same_text(c[0].as_str(), "/") {
        let ghost c0 = string_views(c@);
        c.remove(0);
        assert(string_views(c@) =~= c0.drop_first());
    }
    c
}

/// Where the entry `path` of an archive is unpacked, as components below
/// the target directory, if it is unpacked.
pub fn entry_target(path: &str, includes: &Vec<String>, excludes: &Vec<String>) -> (r: Option<
    Vec<String>,
>)
    ensures
        match r {
            Some(c) => entry_parts(path@, string_views(includes@), string_views(excludes@)) == Some(
                string_views(c@),
            ),
            None => entry_parts(path@, string_views(includes@), string_views(excludes@)) is None,
        },
{
    let c = relative_parts(path);
    if includes.len() > 0 && !has_prefix_in(includes, &c) {
        return None;
    }
    if has_prefix_in(excludes, &c) {
        return None;
    }
    Some(c)
}

/// The target of a hard link entry, as components below the target
/// directory: its link name without the root of an absolute one.
pub fn link_target(link_name: &str) -> (r: Vec<String>)
    ensures
        string_views(r@) == relative_components(link_name@),
{
    relative_parts(link_name)
}

/// An id of an archive entry as the unpacking uses it: 0 where the entry
/// has none, and at most `u32::MAX`.
pub fn entry_id(id: Option<u64>) -> (r: u32)
    ensures
        r == match id {
            Some(x) => if x > u32::MAX {
                u32::MAX
            } else {
                x as u32
            },
            None => 0u32,
        },
{
    match id {
        Some(x) => if x > 4294967295u64 {
            4294967295u32
        } else {
            x as u32
        },
        None => 0,
    }
}

/// The message for an archive that unpacked nothing.
pub open spec fn empty_archive_error() -> Seq<char> {
    "Tar archive was empty"@
}

/// The message for an archive that unpacked several entries at its top.
pub open spec fn many_entries_error() -> Seq<char> {
    "Multiple directories was unpacked. If thats expected use `subdir: \".\"` or any other directory"@
}

/// The directory, inside the container, where the script of a
/// `TarInstall` step runs: the given subdirectory of the unpacked archive,
/// or else its only top entry.
pub open spec fn install_dir_of(name: Seq<char>, subdir: Option<Seq<char>>, entries: Seq<Seq<char>>) -> Result<
    Seq<char>,
    Seq<char>,
> {
    match subdir {
        Some(s) => Ok("/tmp/"@ + name + "/"@ + s),
        None => if entries.len() == 1 {
            Ok("/tmp/"@ + name + "/"@ + entries[0])
        } else if entries.len() == 0 {
            Err(empty_archive_error())
        } else {
            Err(many_entries_error())
        },
    }
}

impl TarInstall {
    /// The directory where the script runs, where the archive `name` was
    /// unpacked into `/tmp/name` and `entries` are the visible entries
    /// there.
    pub fn work_dir(&self, name: &str, entries: &Vec<String>) -> (r: Result<String, String>)
        requires
            self.subdir matches Some(s) ==> !has_prefix(s@, "/"@),
        ensures
            match install_dir_of(name@, opt_text(self.subdir), string_views(entries@)) {
                Ok(d) => r matches Ok(x) && x@ == d,
                Err(e) => r matches Err(x) && x@ == e,
            },
    {
        match &self.subdir {
            Some(sub) => {
                let mut d = concat("/tmp/", name);
                d.append("/");
                d.append(sub.as_str());
                Ok(d)
            },
            None => {
                if entries.len() == 1 {
                    let mut d = concat("/tmp/", name);
                    d.append("/");
                    d.append(entries[0].as_str());
                    Ok(d)
                } else if entries.len() == 0 {
                    Err(String::from_str("Tar archive was empty"))
                } else {
                    Err(
                        String::from_str(
                            "Multiple directories was unpacked. If thats expected use `subdir: \".\"` or any other directory",
                        ),
                    )
                }
            },
        }
    }

    /// The command that runs the script.
    pub fn script_command(&self) -> (r: Vec<String>)
        ensures
            string_views(r@) == seq!["/bin/sh"@, "-exc"@, self.script@],
    {
        let r = vec![String::from_str("/bin/sh"), String::from_str("-exc"), self.script.clone()];
        assert(string_views(r@) =~= seq!["/bin/sh"@, "-exc"@, self.script@]);
        r
    }
}

/// How a `Tar` step unpacks its archive.
#[derive(Debug)]
pub struct TarPlan {
    /// Where the archive goes.
    pub target: String,
    /// Whether only a subdirectory of the archive is unpacked.
    pub only_subdir: bool,
    /// Whether the name files of the container are restored afterwards.
    pub revert_names: bool,
}

impl Tar {
    /// How the archive is unpacked: into the container at the step's path,
    /// the subdirectory alone unless it is `.`, and the name files restored
    /// where the archive fills the whole container.
    pub fn plan(&self) -> (r: TarPlan)
        requires
            has_prefix(self.path@, "/"@),
        ensures
            r.target@ == "/vagga/root/"@ + self.path@.drop_first(),
            r.only_subdir == (components(self.subdir@) != seq!["."@]),
            r.revert_names == (components(self.path@) == seq!["/"@]),
    {
        let v = chars_of(self.path.as_str());
        proof {
            reveal_strlit("/");
        }
        let rest = string_of(&v, 1, v.len());
        assert(rest@ =~= self.path@.drop_first());
        let target = concat("/vagga/root/", rest.as_str());
        let sub = path_components(self.subdir.as_str());
        let only_subdir = !(sub.len() == 1 && same_text(sub[0].as_str(), "."));
        proof {
            if sub@.len() == 1 {
                assert(string_views(sub@) =~= seq![sub@[0]@]);
            }
            if string_views(sub@) == seq!["."@] {
                assert(string_views(sub@)[0] == sub@[0]@);
            }
        }
        let comps = path_components(self.path.as_str());
        let revert = comps.len() == 1 && same_text(comps[0].as_str(), "/");
        proof {
            if comps@.len() == 1 {
                assert(string_views(comps@) =~= seq![comps@[0]@]);
            }
            if string_views(comps@) == seq!["/"@] {
                assert(string_views(comps@)[0] == comps@[0]@);
            }
        }
        TarPlan { target, only_subdir, revert_names: revert }
    }
}

impl Tar {
    /// What versions the step: the checksum of the archive, or its address where it has none; the path; the subdirectory.
    pub open spec fn hash_items(self) -> Seq<ItemView> {
        seq![
            source_item(self.url, self.sha256),
            text_item("path"@, self.path@),
            text_item("subdir"@, self.subdir@),
        ]
    }

    /// Feeds what versions the step into `h`.
    pub fn hash(&self, h: &mut VersionHash)
        ensures
            final(h)@ == old(h)@ + self.hash_items(),
    {
        let ghost h0 = h@;
        match &self.sha256 {
            Some(s) => h.field_text("hash", s.as_str()),
            None => h.field_text("url", self.url.as_str()),
        }
        h.field_text("path", self.path.as_str());
        h.field_text("subdir", self.subdir.as_str());
        assert(h@ =~= h0 + self.hash_items());
    }
}

impl TarInstall {
    /// What versions the step: the checksum of the archive, or its address where it has none; the subdirectory; the script.
    pub open spec fn hash_items(self) -> Seq<ItemView> {
        seq![
            source_item(self.url, self.sha256),
            opt_text_item("subdir"@, self.subdir),
            text_item("script"@, self.script@),
        ]
    }

    /// Feeds what versions the step into `h`.
    pub fn hash(&self, h: &mut VersionHash)
        ensures
            final(h)@ == old(h)@ + self.hash_items(),
    {
        let ghost h0 = h@;
        match &self.sha256 {
            Some(s) => h.field_text("hash", s.as_str()),
            None => h.field_text("url", self.url.as_str()),
        }
        h.opt_field_text("subdir", &self.subdir);
        h.field_text("script", self.script.as_str());
        assert(h@ =~= h0 + self.hash_items());
    }
}

/// The kind of an archive entry, as its header gives it.
#[derive(Debug, Clone, Copy, PartialEq, Eq, Structural)]
pub enum EntryKind {
    Directory,
    Regular,
    Symlink,
    Link,
    Other,
}

/// What unpacking does with one entry of an archive that it takes.
#[derive(Debug)]
pub enum UnpackAction {
    /// Stop with this error; nothing more is unpacked.
    Stop(String),
    /// The entry handler took care of the entry.
    Handled,
    /// Make the directory at this path.
    MakeDir(String),
    /// Write the file at this path.
    WriteFile(String),
    /// Make at `path` a symlink to `link`.
    MakeSymlink { link: String, path: String },
    /// The hard link was put aside, to be made after all other entries.
    Deferred,
    /// Nothing, for an entry of another kind.
    Nothing,
}

/// An action as the specifications see it.
pub enum ActionView {
    Stop(Seq<char>),
    Handled,
    MakeDir(Seq<char>),
    WriteFile(Seq<char>),
    MakeSymlink(Seq<char>, Seq<char>),
    Deferred,
    Nothing,
}

pub open spec fn action_view(a: UnpackAction) -> ActionView {
    match a {
        UnpackAction::Stop(e) => ActionView::Stop(e@),
        UnpackAction::Handled => ActionView::Handled,
        UnpackAction::MakeDir(p) => ActionView::MakeDir(p@),
        UnpackAction::WriteFile(p) => ActionView::WriteFile(p@),
        UnpackAction::MakeSymlink { link, path } => ActionView::MakeSymlink(link@, path@),
        UnpackAction::Deferred => ActionView::Deferred,
        UnpackAction::Nothing => ActionView::Nothing,
    }
}

/// The state of unpacking a stream: the hard links put aside (each the
/// path it links to and the path it is made at), in the order they came,
/// and the first error, once there is one.
#[derive(Debug)]
pub struct Unpacking {
    pub links: Vec<(String, String)>,
    pub failed: Option<String>,
}

/// The links of the state as pairs of texts.
pub open spec fn links_view(v: Seq<(String, String)>) -> Seq<(Seq<char>, Seq<char>)> {
    v.map_values(|l: (String, String)| (l.0@, l.1@))
}

/// The path below `target_dir` of the entry whose components are `c`.
pub open spec fn entry_path(target_dir: Seq<char>, c: Seq<Seq<char>>) -> Seq<char> {
    join_path(target_dir, join_parts(c))
}

/// The message for a link entry without a target.
pub open spec fn broken_link_error(path: Seq<char>) -> Seq<char> {
    "Error unpacking "@ + path_debug_text(path) + ", broken symlink"@
}

impl Unpacking {
    /// The state before the first entry.
    pub fn new() -> (r: Unpacking)
        ensures
            r.links@.len() == 0,
            r.failed is None,
    {
        Unpacking { links: Vec::new(), failed: None }
    }

    /// Takes the entry unpacked at the components `c` below `target_dir`
    /// (chosen by `entry_target`), of kind `kind` and link name `link_name`,
    /// where the entry handler answered `handled`. After an error nothing
    /// changes and the error is given again. An error of the handler stops
    /// the unpacking; an entry the handler took is left alone; a directory,
    /// a file or a symlink is made at once (a link without a target is an
    /// error); a hard link is put aside until all other entries are done.
    pub fn step(
        &mut self,
        target_dir: &str,
        c: &Vec<String>,
        kind: EntryKind,
        link_name: &Option<String>,
        handled: Result<bool, String>,
    ) -> (r: UnpackAction)
        ensures
            ({
                let o = *old(self);
                let path = entry_path(target_dir@, string_views(c@));
                match o.failed {
                    Some(e) => *final(self) == o && action_view(r) == ActionView::Stop(e@),
                    None => match handled {
                        Err(e) => action_view(r) == ActionView::Stop(e@) && final(self).failed
                            == Some(e) && final(self).links == o.links,
                        Ok(true) => action_view(r) == ActionView::Handled && *final(self) == o,
                        Ok(false) => match kind {
                            EntryKind::Directory => action_view(r) == ActionView::MakeDir(path)
                                && *final(self) == o,
                            EntryKind::Regular => action_view(r) == ActionView::WriteFile(path)
                                && *final(self) == o,
                            EntryKind::Other => action_view(r) == ActionView::Nothing && *final(self)
                                == o,
                            EntryKind::Symlink => match link_name {
                                Some(l) => action_view(r) == ActionView::MakeSymlink(l@, path)
                                    && *final(self) == o,
                                None => action_view(r) == ActionView::Stop(broken_link_error(path))
                                    && opt_text(final(self).failed) == Some(broken_link_error(path))
                                    && final(self).links == o.links,
                            },
                            EntryKind::Link => match link_name {
                                Some(l) => action_view(r) == ActionView::Deferred && final(self).failed
                                    is None && links_view(final(self).links@) == links_view(
                                    o.links@,
                                ).push(
                                    (entry_path(target_dir@, relative_components(l@)), path),
                                ),
                                None => action_view(r) == ActionView::Stop(broken_link_error(path))
                                    && opt_text(final(self).failed) == Some(broken_link_error(path))
                                    && final(self).links == o.links,
                            },
                        },
                    },
                }
            }),
    {
        match &self.failed {
            Some(e) => {
                return UnpackAction::Stop(String::from_str(e.as_str()));
            },
            None => {},
        }
        let ok = match handled {
            Err(e) => {
                let r = UnpackAction::Stop(String::from_str(e.as_str()));
                self.failed = Some(e);
                return r;
            },
            Ok(b) => b,
        };
        if ok {
            return UnpackAction::Handled;
        }
        let path = path_join(target_dir, join_components(c).as_str());
        match kind {
            EntryKind::Directory => UnpackAction::MakeDir(path),
            EntryKind::Regular => UnpackAction::WriteFile(path),
            EntryKind::Other => UnpackAction::Nothing,
            EntryKind::Symlink => match link_name {
                Some(l) => UnpackAction::MakeSymlink { link: String::from_str(l.as_str()), path },
                None => {
                    let e = concat3("Error unpacking ", path_debug(path.as_str()).as_str(), ", broken symlink");
                    let r = UnpackAction::Stop(String::from_str(e.as_str()));
                    self.failed = Some(e);
                    r
                },
            },
            EntryKind::Link => match link_name {
                Some(l) => {
                    let t = link_target(l.as_str());
                    let src = path_join(target_dir, join_components(&t).as_str());
                    let ghost l0 = links_view(self.links@);
                    let ghost pair = (src@, path@);
                    self.links.push((src, path));
                    assert(links_view(self.links@) =~= l0.push(pair));
                    UnpackAction::Deferred
                },
                None => {
                    let e = concat3("Error unpacking ", path_debug(path.as_str()).as_str(), ", broken symlink");
                    let r = UnpackAction::Stop(String::from_str(e.as_str()));
                    self.failed = Some(e);
                    r
                },
            },
        }
    }

    /// What is left after the last entry: the first error, or else the hard
    /// links to make, in the order their entries came.
    pub fn finish(self) -> (r: Result<Vec<(String, String)>, String>)
        ensures
            match self.failed {
                Some(e) => r matches Err(x) && x@ == e@,
                None => r matches Ok(v) && links_view(v@) == links_view(self.links@),
            },
    {
        match self.failed {
            Some(e) => Err(e),
            None => Ok(self.links),
        }
    }
}

/// The message for a hard link from `src` to `dst` that could not be made
/// for the reason `err`.
pub fn hardlink_error(src: &str, dst: &str, err: &str) -> (r: String)
    ensures
        r@ == "Error hardlinking "@ + path_debug_text(src@) + " - "@ + path_debug_text(dst@) + ": "@
            + err@,
{
    let a = concat3("Error hardlinking ", path_debug(src).as_str(), " - ");
    let b = concat3(a.as_str(), path_debug(dst).as_str(), ": ");
    concat(b.as_str(), err)
}

/// The message for an archive whose first bytes show no compression that
/// unpacking knows.
pub fn unexpected_compression_error(archive: &str) -> (r: String)
    ensures
        r@ == "unpacking "@ + path_debug_text(archive@) + ": unexpected compression"@,
{
    concat3("unpacking ", path_debug(archive).as_str(), ": unexpected compression")
}

/// The compression of an archive whose first bytes are `magic`, or the
/// error for one that unpacking does not know.
pub fn archive_compression(archive: &str, magic: &[u8]) -> (r: Result<Compression, String>)
    ensures
        match compression_of(magic@) {
            Some(c) => r == Ok::<Compression, String>(c),
            None => r matches Err(e) && e@ == "unpacking "@ + path_debug_text(archive@)
                + ": unexpected compression"@,
        },
{
    match detect_compression(magic) {
        Some(c) => Ok(c),
        None => Err(unexpected_compression_error(archive)),
    }
}

} // verus!

use vstd::prelude::*;
use crate::versioning::{VersionHash, ItemView, ValueView, text_item, source_item};
use crate::context::build_root;
use crate::guard::{join_parts, join_components, parts_view};
use crate::paths::{join_path, path_join, rel_path, strip_root};
use crate::tar::{components, path_components, prefix_of};
use crate::text::{concat, path_debug, path_debug_text, str_ends_with, string_views};

verus! {

/// The build step that downloads a zip archive and unpacks it (or its
/// directory `subdir`) into the directory `path` of the container.
#[derive(Debug, Clone)]
pub struct Unzip {
    pub url: String,
    pub sha256: Option<String>,
    pub path: String,
    pub subdir: String,
}

/// The build step that downloads a file to the path `path` of the
/// container and gives it the mode `mode`.
#[derive(Debug)]
pub struct Download {
    pub url: String,
    pub path: String,
    pub mode: u32,
    pub sha256: Option<String>,
}

/// The absolute path `path` below the build root; `path` must be absolute.
pub fn below_root(path: &str) -> (r: String)
    requires
        rel_path(path@) is Some,
    ensures
        r@ == join_path(build_root(), rel_path(path@)->0),
{
    match strip_root(path) {
        Some(rel) => path_join("/vagga/root", rel.as_str()),
        None => String::new(),
    }
}

impl Unzip {
    /// The directory that the archive is unpacked into while the container
    /// is built.
    pub fn target_dir(&self) -> (r: String)
        requires
            rel_path(self.path@) is Some,
        ensures
            r@ == join_path(build_root(), rel_path(self.path@)->0),
    {
        below_root(self.path.as_str())
    }
}

impl Download {
    /// The file that the download is copied to while the container is
    /// built.
    pub fn target(&self) -> (r: String)
        requires
            rel_path(self.path@) is Some,
        ensures
            r@ == join_path(build_root(), rel_path(self.path@)->0),
    {
        below_root(self.path.as_str())
    }
}

/// Whether `subdir` names the whole archive (it is empty or `.`).
pub open spec fn whole_archive(subdir: Seq<char>) -> bool {
    components(subdir).len() == 0 || components(subdir) == seq!["."@]
}

/// What unpacking does with an entry of an archive.
#[derive(Debug)]
pub enum ZipEntry {
    /// The entry is outside the directory that is unpacked.
    Skip,
    /// A directory to create.
    Dir(String),
    /// A file to write.
    File(String),
}

/// Where the entry `name` of the archive goes below `dst`, where the
/// directory `subdir` of the archive is unpacked: `None` where the entry is
/// not in it.
pub open spec fn entry_out(dst: Seq<char>, subdir: Seq<char>, name: Seq<char>) -> Option<Seq<char>> {
    if whole_archive(subdir) {
        Some(join_path(dst, name))
    } else if prefix_of(components(subdir), components(name)) {
        Some(join_path(dst, join_parts(components(name).skip(components(subdir).len() as int))))
    } else {
        None
    }
}

/// Whether `subdir` names the whole archive.
pub fn is_whole_archive(subdir: &str) -> (r: bool)
    ensures
        r == whole_archive(subdir@),
{
    let c = path_components(subdir);
    if c.len() == 0 {
        return true;
    }
    if c.len() == 1 && crate::text::same_text(c[0].as_str(), ".") {
        assert(string_views(c@) =~= seq!["."@]);
        return true;
    }
    if c.len() == 1 {
        assert(string_views(c@)[0] != seq!["."@][0]);
    }
    false
}

fn starts_with_parts(p: &Vec<String>, base: &Vec<String>) -> (r: bool)
    ensures
        r == prefix_of(string_views(base@), string_views(p@)),
{
    if base.len() > p.len() {
        return false;
    }
    let mut i: usize = 0;
    while i < base.len()
        invariant
            base@.len() <= p@.len(),
            i <= base@.len(),
            forall|k: int| 0 <= k < i ==> p@[k]@ == base@[k]@,
        decreases base.len() - i,
    {
        if !crate::text::same_text(p[i].as_str(), base[i].as_str()) {
            assert(string_views(p@).take(base@.len() as int)[i as int] != string_views(base@)[i as int]);
            return false;
        }
        i = i + 1;
    }
    assert(string_views(p@).take(base@.len() as int) =~= string_views(base@));
    true
}

/// What unpacking the directory `subdir` of an archive into `dst` does with
/// the entry `name`: an entry whose name ends with `/` is a directory.
pub fn zip_entry(dst: &str, subdir: &str, name: &str) -> (r: ZipEntry)
    ensures
        match entry_out(dst@, subdir@, name@) {
            None => r is Skip,
            Some(out) => if name@.len() > 0 && name@.last() == '/' {
                r matches ZipEntry::Dir(p) && p@ == out
            } else {
                r matches ZipEntry::File(p) && p@ == out
            },
        },
{
    let out = if is_whole_archive(subdir) {
        path_join(dst, name)
    } else {
        let sub = path_components(subdir);
        let mut parts = path_components(name);
        if !starts_with_parts(&parts, &sub) {
            return ZipEntry::Skip;
        }
        let ghost pv = parts_view(parts);
        let mut rest: Vec<String> = Vec::new();
        let mut i: usize = sub.len();
        assert(pv.skip(sub@.len() as int).take(0) =~= seq![]);
        while i < parts.len()
            invariant
                sub@.len() <= i <= parts@.len(),
                pv == parts_view(parts),
                parts_view(rest) == pv.skip(sub@.len() as int).take(i - sub@.len()),
            decreases parts.len() - i,
        {
            let x = parts[i].clone();
            let ghost xv = x@;
            let ghost r0 = parts_view(rest);
            rest.push(x);
            assert(parts_view(rest) =~= r0.push(xv));
            assert(pv.skip(sub@.len() as int).take(i + 1 - sub@.len()) =~= r0.push(xv));
            i = i + 1;
        }
        assert(pv.skip(sub@.len() as int).take(i - sub@.len()) =~= pv.skip(sub@.len() as int));
        let joined = join_components(&rest);
        assert(parts_view(rest) == components(name@).skip(components(subdir@).len() as int));
        let o = path_join(dst, joined.as_str());
        assert(Some(o@) == entry_out(dst@, subdir@, name@));
        o
    };
    assert(Some(out@) == entry_out(dst@, subdir@, name@));
    let is_dir = str_ends_with(name, "/");
    proof {
        reveal_strlit("/");
        if name@.len() > 0 {
            assert(name@.subrange(name@.len() - 1, name@.len() as int) =~= seq![name@.last()]);
            assert("/"@ =~= seq!['/']);
            assert(seq![name@.last()] == "/"@ <==> name@.last() == '/') by {
                reveal_strlit("/");
                if seq![name@.last()] == "/"@ {
                    assert(seq![name@.last()][0] == "/"@[0]);
                }
                if name@.last() == '/' {
                    assert(seq![name@.last()] =~= "/"@);
                }
            }
        }
        assert(is_dir == (name@.len() > 0 && name@.last() == '/'));
    }
    if is_dir {
        ZipEntry::Dir(out)
    } else {
        ZipEntry::File(out)
    }
}

/// The error where the archive has no directory `subdir`.
pub fn missing_subdir_error(subdir: &str) -> (r: String)
    ensures
        r@ == path_debug_text(subdir@) + " is not found in archive"@,
{
    concat(path_debug(subdir).as_str(), " is not found in archive")
}

impl Unzip {
    /// What versions the step: the checksum of the archive, or its address where it has none; the path; the subdirectory.
    pub open spec fn hash_items(self) -> Seq<ItemView> {
        seq![
            source_item(self.url, self.sha256),
            text_item("path"@, self.path@),
            text_item("subdir"@, self.subdir@),
        ]
    }

    /// Feeds what versions the step into `h`.
    pub fn hash(&self, h: &mut VersionHash)
        ensures
            final(h)@ == old(h)@ + self.hash_items(),
    {
        let ghost h0 = h@;
        match &self.sha256 {
            Some(s) => h.field_text("hash", s.as_str()),
            None => h.field_text("url", self.url.as_str()),
        }
        h.field_text("path", self.path.as_str());
        h.field_text("subdir", self.subdir.as_str());
        assert(h@ =~= h0 + self.hash_items());
    }
}

impl Download {
    /// What versions the step: the checksum of the file, or its address where it has none; the path; the mode.
    pub open spec fn hash_items(self) -> Seq<ItemView> {
        seq![
            source_item(self.url, self.sha256),
            text_item("path"@, self.path@),
            ItemView::Field("mode"@, ValueView::Number(self.mode as u64)),
        ]
    }

    /// Feeds what versions the step into `h`.
    pub fn hash(&self, h: &mut VersionHash)
        ensures
            final(h)@ == old(h)@ + self.hash_items(),
    {
        let ghost h0 = h@;
        match &self.sha256 {
            Some(s) => h.field_text("hash", s.as_str()),
            None => h.field_text("url", self.url.as_str()),
        }
        h.field_text("path", self.path.as_str());
        h.field_number("mode", self.mode as u64);
        assert(h@ =~= h0 + self.hash_items());
    }
}

} // verus!

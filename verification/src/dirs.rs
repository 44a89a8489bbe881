use vstd::prelude::*;
use crate::versioning::{VersionHash, ItemView, text_item, pair_items, hash_pairs};
use crate::assoc::{text_seq};
use crate::context::build_root;
use crate::paths::{join_path, path_join, rel_path, strip_root};
use crate::tar::{components, path_components, prefix_of};
use crate::guard::same_components;
use crate::text::{concat, concat3, path_debug, path_debug_text, string_views};

verus! {

/// The build step that makes sure a directory exists in the container.
#[derive(Debug)]
pub struct EnsureDir(pub String);

/// The build step that removes a path from the container.
#[derive(Debug)]
pub struct Remove(pub String);

/// The build step that empties a directory of the container and keeps it
/// empty.
#[derive(Debug)]
pub struct EmptyDir(pub String);

/// The build step that mounts caches on directories of the container: each
/// absolute path with the name of its cache, in the order of the paths.
#[derive(Debug)]
pub struct CacheDirs(pub Vec<(String, String)>);

/// The build step that writes text files into the container: each absolute
/// path with its text, in the order of the paths.
#[derive(Debug)]
pub struct Text(pub Vec<(String, String)>);

/// What a look at a path found.
#[derive(Debug, Clone, Copy, PartialEq, Eq, Structural)]
pub enum PathStat {
    Dir,
    Other,
    Missing,
    Failed,
}

/// Where the absolute path `path` of the container lies while it is built;
/// `None` where `path` is not absolute.
pub open spec fn under_root(path: Seq<char>) -> Option<Seq<char>> {
    match rel_path(path) {
        Some(rel) => Some(join_path(build_root(), rel)),
        None => None,
    }
}

/// Where the absolute path `path` of the container lies while it is built.
pub fn in_root(path: &str) -> (r: Result<String, String>)
    ensures
        match under_root(path@) {
            Some(p) => r is Ok && r->Ok_0@ == p,
            None => r is Err && r->Err_0@ == "Must be absolute: "@ + path_debug_text(path@),
        },
{
    match strip_root(path) {
        Some(rel) => Ok(path_join("/vagga/root", rel.as_str())),
        None => Err(concat("Must be absolute: ", path_debug(path).as_str())),
    }
}

/// What removing a path does, by what is there.
#[derive(Debug, PartialEq, Eq, Structural)]
pub enum Removal {
    /// Empty the directory and remove it.
    CleanDir,
    /// Remove the file.
    RemoveFile,
    /// Nothing is there.
    Nothing,
}

/// What removing the path `path` (as the step names it) does where a look
/// at it found `stat`.
pub fn removal(path: &str, stat: PathStat) -> (r: Result<Removal, String>)
    ensures
        match stat {
            PathStat::Dir => r == Ok::<Removal, String>(Removal::CleanDir),
            PathStat::Other => r == Ok::<Removal, String>(Removal::RemoveFile),
            PathStat::Missing => r == Ok::<Removal, String>(Removal::Nothing),
            PathStat::Failed => r is Err && r->Err_0@ == "Cannot stat "@ + path_debug_text(path@),
        },
{
    match stat {
        PathStat::Dir => Ok(Removal::CleanDir),
        PathStat::Other => Ok(Removal::RemoveFile),
        PathStat::Missing => Ok(Removal::Nothing),
        PathStat::Failed => Err(concat("Cannot stat ", path_debug(path).as_str())),
    }
}

/// Whether making sure the directory `path` exists has to create it, where
/// a look at it found `stat`.
pub fn ensuring(path: &str, stat: PathStat) -> (r: Result<bool, String>)
    ensures
        match stat {
            PathStat::Dir => r == Ok::<bool, String>(false),
            PathStat::Missing => r == Ok::<bool, String>(true),
            PathStat::Other => r is Err && r->Err_0@ == "Path "@ + path_debug_text(path@)
                + " exists but not a directory"@,
            PathStat::Failed => r is Err && r->Err_0@ == "Cannot stat "@ + path_debug_text(path@),
        },
{
    match stat {
        PathStat::Dir => Ok(false),
        PathStat::Missing => Ok(true),
        PathStat::Other => Err(
            concat3("Path ", path_debug(path).as_str(), " exists but not a directory"),
        ),
        PathStat::Failed => Err(concat("Cannot stat ", path_debug(path).as_str())),
    }
}

/// The error of creating the directory `path`: a part of it that is in the
/// way (`already_exists`), or else the error `look_error` of the look that
/// found it missing.
pub fn create_dir_error(path: &str, already_exists: bool, look_error: &str) -> (r: String)
    ensures
        r@ == if already_exists {
            "Some intermediate path for "@ + path_debug_text(path@) + " exists but not a directory"@
        } else {
            "Error creating dir: "@ + look_error@
        },
{
    if already_exists {
        concat3(
            "Some intermediate path for ",
            path_debug(path).as_str(),
            " exists but not a directory",
        )
    } else {
        concat("Error creating dir: ", look_error)
    }
}

/// The warning about a directory `path` made inside the volume
/// `mount_point`.
pub open spec fn volume_warning(path: Seq<char>, mount_point: Seq<char>) -> Seq<char> {
    path_debug_text(path) + " directory is in the volume: "@ + path_debug_text(mount_point)
        + ".\n\t"@ + path_debug_text(path) + " will be unaccessible inside the container."@
}

/// Whether the directory `path` lies inside the volume `mount_point` (and is
/// not the mount point itself), as paths compare by components.
pub open spec fn inside_volume(path: Seq<char>, mount_point: Seq<char>) -> bool {
    components(path) != components(mount_point) && prefix_of(
        components(mount_point),
        components(path),
    )
}

/// The warnings about `path` for the volumes `mps`, in order.
pub open spec fn volume_warnings_of(path: Seq<char>, mps: Seq<Seq<char>>) -> Seq<Seq<char>>
    decreases mps.len(),
{
    if mps.len() == 0 {
        seq![]
    } else {
        let rest = volume_warnings_of(path, mps.drop_last());
        if inside_volume(path, mps.last()) {
            rest.push(volume_warning(path, mps.last()))
        } else {
            rest
        }
    }
}

fn starts_with_parts(p: &Vec<String>, base: &Vec<String>) -> (r: bool)
    ensures
        r == prefix_of(string_views(base@), string_views(p@)),
{
    if base.len() > p.len() {
        return false;
    }
    let mut i: usize = 0;
    while i < base.len()
        invariant
            base@.len() <= p@.len(),
            i <= base@.len(),
            forall|k: int| 0 <= k < i ==> p@[k]@ == base@[k]@,
        decreases base.len() - i,
    {
        if !crate::text::same_text(p[i].as_str(), base[i].as_str()) {
            assert(string_views(p@).take(base@.len() as int)[i as int] != string_views(base@)[i as int]);
            return false;
        }
        i = i + 1;
    }
    assert(string_views(p@).take(base@.len() as int) =~= string_views(base@));
    true
}

impl EnsureDir {
    /// The warnings about the directory of the step for the mount points
    /// `volumes` of the container's volumes, in order.
    pub fn volume_warnings(&self, volumes: &Vec<String>) -> (r: Vec<String>)
        ensures
            text_seq(r@) == volume_warnings_of(self.0@, text_seq(volumes@)),
    {
        let parts = path_components(self.0.as_str());
        let mut r: Vec<String> = Vec::new();
        let mut i: usize = 0;
        assert(text_seq(volumes@).take(0) =~= seq![]);
        while i < volumes.len()
            invariant
                i <= volumes@.len(),
                string_views(parts@) == components(self.0@),
                text_seq(r@) == volume_warnings_of(self.0@, text_seq(volumes@).take(i as int)),
            decreases volumes.len() - i,
        {
            let ghost vs = text_seq(volumes@);
            assert(vs.take(i + 1).drop_last() =~= vs.take(i as int));
            assert(vs.take(i + 1).last() == volumes@[i as int]@);
            let mp = path_components(volumes[i].as_str());
            if !same_components(&parts, &mp) && starts_with_parts(&parts, &mp) {
                let a = concat(path_debug(self.0.as_str()).as_str(), " directory is in the volume: ");
                let b = concat3(a.as_str(), path_debug(volumes[i].as_str()).as_str(), ".\n\t");
                let c = concat3(
                    b.as_str(),
                    path_debug(self.0.as_str()).as_str(),
                    " will be unaccessible inside the container.",
                );
                let ghost r0 = text_seq(r@);
                let ghost cv = c@;
                r.push(c);
                assert(text_seq(r@) =~= r0.push(cv));
            }
            i = i + 1;
        }
        assert(text_seq(volumes@).take(i as int) =~= text_seq(volumes@));
        r
    }
}

/// Whether all the paths of `es` are absolute.
pub open spec fn all_absolute(es: Seq<(String, String)>) -> bool {
    forall|i: int| 0 <= i < es.len() ==> (#[trigger] rel_path(es[i].0@)) is Some
}

impl Text {
    /// The files to write while the container is built: each path below the
    /// build root with its text, in order.
    pub fn files(&self) -> (r: Vec<(String, String)>)
        requires
            all_absolute(self.0@),
        ensures
            r@.len() == self.0@.len(),
            forall|i: int|
                0 <= i < r@.len() ==> Some(#[trigger] r@[i].0@) == under_root(self.0@[i].0@)
                    && r@[i].1@ == self.0@[i].1@,
    {
        let mut r: Vec<(String, String)> = Vec::new();
        let mut i: usize = 0;
        while i < self.0.len()
            invariant
                i <= self.0@.len(),
                all_absolute(self.0@),
                r@.len() == i,
                forall|k: int|
                    0 <= k < i ==> Some(#[trigger] r@[k].0@) == under_root(self.0@[k].0@)
                        && r@[k].1@ == self.0@[k].1@,
            decreases self.0.len() - i,
        {
            assert(rel_path(self.0@[i as int].0@) is Some);
            match in_root(self.0[i].0.as_str()) {
                Ok(p) => {
                    let t = self.0[i].1.clone();
                    r.push((p, t));
                },
                Err(_) => {},
            }
            i = i + 1;
        }
        r
    }
}

impl EnsureDir {
    /// What versions the step: its path.
    pub open spec fn hash_items(self) -> Seq<ItemView> {
        seq![
            text_item("path"@, self.0@),
        ]
    }

    /// Feeds what versions the step into `h`.
    pub fn hash(&self, h: &mut VersionHash)
        ensures
            final(h)@ == old(h)@ + self.hash_items(),
    {
        let ghost h0 = h@;
        h.field_text("path", self.0.as_str());
        assert(h@ =~= h0 + self.hash_items());
    }
}

impl Remove {
    /// What versions the step: its path.
    pub open spec fn hash_items(self) -> Seq<ItemView> {
        seq![
            text_item("path"@, self.0@),
        ]
    }

    /// Feeds what versions the step into `h`.
    pub fn hash(&self, h: &mut VersionHash)
        ensures
            final(h)@ == old(h)@ + self.hash_items(),
    {
        let ghost h0 = h@;
        h.field_text("path", self.0.as_str());
        assert(h@ =~= h0 + self.hash_items());
    }
}

impl EmptyDir {
    /// What versions the step: its path.
    pub open spec fn hash_items(self) -> Seq<ItemView> {
        seq![
            text_item("path"@, self.0@),
        ]
    }

    /// Feeds what versions the step into `h`.
    pub fn hash(&self, h: &mut VersionHash)
        ensures
            final(h)@ == old(h)@ + self.hash_items(),
    {
        let ghost h0 = h@;
        h.field_text("path", self.0.as_str());
        assert(h@ =~= h0 + self.hash_items());
    }
}

impl CacheDirs {
    /// What versions the step: each directory and the name of its cache in
    /// turn.
    pub open spec fn hash_items(self) -> Seq<ItemView> {
        pair_items(self.0@, "source"@, "name"@)
    }

    /// Feeds what versions the step into `h`.
    pub fn hash(&self, h: &mut VersionHash)
        ensures
            final(h)@ == old(h)@ + self.hash_items(),
    {
        hash_pairs(h, &self.0, "source", "name");
    }
}

impl Text {
    /// What versions the step: each path and the text written to it in
    /// turn.
    pub open spec fn hash_items(self) -> Seq<ItemView> {
        pair_items(self.0@, "path"@, "data"@)
    }

    /// Feeds what versions the step into `h`.
    pub fn hash(&self, h: &mut VersionHash)
        ensures
            final(h)@ == old(h)@ + self.hash_items(),
    {
        hash_pairs(h, &self.0, "path", "data");
    }
}

} // verus!

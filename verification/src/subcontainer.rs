use vstd::prelude::*;
use crate::context::build_root;
use crate::paths::{join_path, path_join, rel_path, strip_root};
use crate::copy::{FileEntry, content_items, entries_items};
use crate::versioning::{VersionHash, ItemView, ValueView, text_item, SetupHash, setup_items, hash_setup};
use crate::text::{concat3, debug_quote, debug_text};

verus! {

/// The build step that starts the container as a copy of another one.
#[derive(Debug)]
pub struct Container(pub String);

/// The build step that takes files from a built container: it copies the
/// directory `source` of the container `container` to `path`, or mounts it
/// read-only on `temporary_mount` while the build runs.
#[derive(Debug)]
pub struct Build {
    pub container: String,
    pub source: String,
    pub path: Option<String>,
    pub temporary_mount: Option<String>,
    pub content_hash: bool,
    pub rules: Vec<String>,
}

/// A git repository at a revision or a branch.
#[derive(Debug)]
pub struct GitSource {
    pub url: String,
    pub revision: Option<String>,
    pub branch: Option<String>,
}

/// Where the configuration of a sub-configuration comes from.
#[derive(Debug)]
pub enum Source {
    Git(GitSource),
    Container(String),
    Directory,
}

/// The build step that runs the setup steps of a container of another
/// configuration file.
#[derive(Debug)]
pub struct SubConfig {
    pub source: Source,
    pub path: String,
    pub container: String,
    pub cache: Option<bool>,
}

/// The directory of the image of the container `name` at the version
/// `version`.
pub open spec fn image_dir(name: Seq<char>, version: Seq<char>) -> Seq<char> {
    join_path("/vagga/base/.roots"@, name + "."@ + version)
}

/// The directory of the image of the container `name` at the version
/// `version`.
pub fn container_image_dir(name: &str, version: &str) -> (r: String)
    ensures
        r@ == image_dir(name@, version@),
{
    path_join("/vagga/base/.roots", concat3(name, ".", version).as_str())
}

impl Container {
    /// The container that the step needs built first.
    pub fn is_dependent_on(&self) -> (r: Option<&str>)
        ensures
            r matches Some(n) && n@ == self.0@,
    {
        Some(self.0.as_str())
    }
}

/// What the step `Build` does with the directory it takes.
#[derive(Debug)]
pub enum Placement {
    /// Copies the directory `src` to `dest`.
    Copy { src: String, dest: String },
    /// Mounts the directory `src` read-only on `dest`.
    Mount { src: String, dest: String },
    /// Nothing.
    Nothing,
}

/// How the step `Build` is versioned: by the content of the directory it
/// copies, or by the setup steps of the container it takes it from.
#[derive(Debug, PartialEq, Eq, Structural)]
pub enum BuildHash {
    Content,
    Setup,
    Nothing,
}

/// The paths of the step are absolute, as the configuration checks.
pub open spec fn build_paths_absolute(b: Build) -> bool {
    &&& rel_path(b.source@) is Some
    &&& (b.path matches Some(p) ==> rel_path(p@) is Some)
    &&& (b.temporary_mount matches Some(p) ==> rel_path(p@) is Some)
}

/// The directory `source` of the image `image`.
pub open spec fn source_in(image: Seq<char>, source: Seq<char>) -> Seq<char> {
    join_path(join_path(image, "root"@), rel_path(source)->0)
}

impl Build {
    /// The container that the step needs built first.
    pub fn is_dependent_on(&self) -> (r: Option<&str>)
        ensures
            r matches Some(n) && n@ == self.container@,
    {
        Some(self.container.as_str())
    }

    /// The directory the step takes from the image `image` of its
    /// container.
    pub fn source_dir(&self, image: &str) -> (r: String)
        requires
            rel_path(self.source@) is Some,
        ensures
            r@ == source_in(image@, self.source@),
    {
        let root = path_join(image, "root");
        match strip_root(self.source.as_str()) {
            Some(rel) => path_join(root.as_str(), rel.as_str()),
            None => root,
        }
    }

    /// What the step does with the directory it takes from the image
    /// `image`: copies it to `path` where one is given, else mounts it on
    /// `temporary_mount` where one is given.
    pub fn placement(&self, image: &str) -> (r: Placement)
        requires
            build_paths_absolute(*self),
        ensures
            match self.path {
                Some(p) => r matches Placement::Copy { src, dest } && src@ == source_in(
                    image@,
                    self.source@,
                ) && dest@ == join_path(build_root(), rel_path(p@)->0),
                None => match self.temporary_mount {
                    Some(m) => r matches Placement::Mount { src, dest } && src@ == source_in(
                        image@,
                        self.source@,
                    ) && dest@ == join_path(build_root(), rel_path(m@)->0),
                    None => r is Nothing,
                },
            },
    {
        let src = self.source_dir(image);
        match &self.path {
            Some(p) => {
                let dest = match strip_root(p.as_str()) {
                    Some(rel) => path_join("/vagga/root", rel.as_str()),
                    None => String::new(),
                };
                Placement::Copy { src, dest }
            },
            None => match &self.temporary_mount {
                Some(m) => {
                    let dest = match strip_root(m.as_str()) {
                        Some(rel) => path_join("/vagga/root", rel.as_str()),
                        None => String::new(),
                    };
                    Placement::Mount { src, dest }
                },
                None => Placement::Nothing,
            },
        }
    }

    /// How the step is versioned. Hashing by content is for a copy only,
    /// and rules go with a copy only.
    pub fn hashing(&self) -> (r: BuildHash)
        requires
            !(self.content_hash && self.path is None && self.temporary_mount is Some),
            !(!self.content_hash && self.rules@.len() > 0 && self.temporary_mount is Some),
        ensures
            r == (if self.content_hash {
                if self.path is Some {
                    BuildHash::Content
                } else {
                    BuildHash::Nothing
                }
            } else {
                BuildHash::Setup
            }),
    {
        if self.content_hash {
            if self.path.is_some() {
                BuildHash::Content
            } else {
                BuildHash::Nothing
            }
        } else {
            BuildHash::Setup
        }
    }
}

impl SubConfig {
    /// The container of another configuration that the step needs built
    /// first, where the configuration comes from one.
    pub fn is_dependent_on(&self) -> (r: Option<&str>)
        ensures
            match self.source {
                Source::Container(n) => r matches Some(m) && m@ == n@,
                _ => r is None,
            },
    {
        match &self.source {
            Source::Directory => None,
            Source::Container(name) => Some(name.as_str()),
            Source::Git(_) => None,
        }
    }

    /// The configuration file that the step reads: in the image `image` of
    /// the container it comes from, or in the project's directory.
    pub fn config_path(&self, image: Option<&str>) -> (r: String)
        requires
            !(self.source is Git),
            self.source is Container ==> image is Some,
        ensures
            r@ == match self.source {
                Source::Container(_) => join_path(join_path(image->0@, "root"@), self.path@),
                _ => join_path("/work"@, self.path@),
            },
    {
        match &self.source {
            Source::Container(_) => {
                let img = match image {
                    Some(i) => i,
                    None => "",
                };
                let root = path_join(img, "root");
                path_join(root.as_str(), self.path.as_str())
            },
            _ => path_join("/work", self.path.as_str()),
        }
    }
}

/// The permission bits of a mode.
pub const PERMISSION_BITS: u32 = 0o7777;

impl Build {
    /// What versions the file `e` of the directory taken by content: its
    /// path, its permission bits, its owner, its contents.
    pub open spec fn entry_items(e: FileEntry) -> Seq<ItemView> {
        seq![
            text_item("filename"@, e.path@),
            ItemView::Field("mode"@, ValueView::Number((e.mode & PERMISSION_BITS) as u64)),
            ItemView::Field("uid"@, ValueView::Number(e.uid as u64)),
            ItemView::Field("gid"@, ValueView::Number(e.gid as u64)),
        ] + content_items(e)
    }

    /// Feeds what versions the file `e` into `h`.
    pub fn hash_entry(h: &mut VersionHash, e: &FileEntry)
        ensures
            final(h)@ == old(h)@ + Self::entry_items(*e),
    {
        let ghost h0 = h@;
        h.field_text("filename", e.path.as_str());
        h.field_number("mode", (e.mode & PERMISSION_BITS) as u64);
        h.field_number("uid", e.uid as u64);
        h.field_number("gid", e.gid as u64);
        let ghost h1 = h@;
        crate::copy::hash_content_of(h, e);
        assert(h@ =~= h0 + Self::entry_items(*e));
    }

    /// What versions a step taken by content whose directory holds `fs`:
    /// each file in turn, then the path it is copied to.
    pub open spec fn content_items(self, fs: Seq<FileEntry>) -> Seq<ItemView> {
        entries_items(fs, |e: FileEntry| Self::entry_items(e)) + seq![text_item("path"@, self.path->0@)]
    }

    /// Feeds what versions a step taken by content into `h`, where `files`
    /// are the files of the directory it takes in the order they are met,
    /// or `None` where the image or the directory is missing. Returns
    /// whether the step is versioned; otherwise it has to be built anew.
    pub fn hash_content(&self, h: &mut VersionHash, files: &Option<Vec<FileEntry>>) -> (r: bool)
        requires
            self.content_hash,
            self.path is Some,
        ensures
            r == files is Some,
            files matches Some(fs) ==> final(h)@ == old(h)@ + self.content_items(fs@),
    {
        let fs = match files {
            Some(fs) => fs,
            None => {
                return false;
            },
        };
        let ghost h0 = h@;
        let ghost f = |e: FileEntry| Self::entry_items(e);
        let mut i: usize = 0;
        assert(fs@.take(0) =~= seq![]);
        assert(h@ =~= h0 + entries_items(seq![], f));
        while i < fs.len()
            invariant
                i <= fs@.len(),
                f == (|e: FileEntry| Self::entry_items(e)),
                h@ == h0 + entries_items(fs@.take(i as int), f),
            decreases fs.len() - i,
        {
            Self::hash_entry(h, &fs[i]);
            assert(fs@.take(i + 1).drop_last() =~= fs@.take(i as int));
            assert(h@ =~= h0 + entries_items(fs@.take(i + 1), f));
            i = i + 1;
        }
        assert(fs@.take(i as int) =~= fs@);
        match &self.path {
            Some(p) => h.field_text("path", p.as_str()),
            None => {},
        }
        assert(h@ =~= h0 + self.content_items(fs@));
        true
    }
}

/// The message for a container that the configuration lacks, as the
/// steps `Container` and `SubConfig` give it.
pub open spec fn container_missing(name: Seq<char>) -> Seq<char> {
    "container "@ + debug_text(name) + " not found"@
}

impl Container {
    /// Feeds what versions the step into `h`, where `setup` holds what
    /// versions each setup step of the container it starts from, or is
    /// `None` where the configuration has no such container.
    pub fn hash(&self, h: &mut VersionHash, setup: Option<&Vec<SetupHash>>) -> (r: Result<(), String>)
        ensures
            r is Err <==> setup is None,
            r matches Err(e) ==> e@ == container_missing(self.0@),
            setup matches Some(ss) ==> final(h)@ == old(h)@ + setup_items(ss@),
    {
        match setup {
            Some(ss) => {
                hash_setup(h, ss);
                Ok(())
            },
            None => {
                let q = debug_quote(self.0.as_str());
                Err(concat3("container ", q.as_str(), " not found"))
            },
        }
    }
}

impl Build {
    /// Feeds what versions the step into `h`. `setup` holds what versions
    /// each setup step of the container it takes from, or is `None` where
    /// the configuration has no such container; `root_exists` tells
    /// whether the image of that container is there, and `files` are the
    /// files of the directory taken (for a step versioned by content).
    /// Returns whether the step is versioned; otherwise it has to be built
    /// anew.
    pub fn hash(
        &self,
        h: &mut VersionHash,
        setup: Option<&Vec<SetupHash>>,
        root_exists: bool,
        files: &Option<Vec<FileEntry>>,
    ) -> (r: Result<bool, String>)
        requires
            !(self.content_hash && self.path is None && self.temporary_mount is Some),
            !(!self.content_hash && self.rules@.len() > 0 && self.temporary_mount is Some),
        ensures
            r is Err <==> setup is None,
            r matches Err(e) ==> e@ == "Container "@ + self.container@ + " not found"@,
            setup matches Some(ss) ==> {
                if !self.content_hash {
                    r == Ok::<bool, String>(true) && final(h)@ == old(h)@ + setup_items(ss@)
                } else if !root_exists {
                    r == Ok::<bool, String>(false)
                } else if self.path is Some {
                    r == Ok::<bool, String>(files is Some) && (files matches Some(fs)
                        ==> final(h)@ == old(h)@ + self.content_items(fs@))
                } else {
                    r == Ok::<bool, String>(true) && final(h)@ == old(h)@
                }
            },
    {
        let ss = match setup {
            Some(ss) => ss,
            None => {
                return Err(concat3("Container ", self.container.as_str(), " not found"));
            },
        };
        if !self.content_hash {
            hash_setup(h, ss);
            return Ok(true);
        }
        if !root_exists {
            return Ok(false);
        }
        if self.path.is_some() {
            Ok(self.hash_content(h, files))
        } else {
            Ok(true)
        }
    }
}

impl SubConfig {
    /// Feeds what versions the step into `h`, where `found` tells whether
    /// its configuration file is there and `setup` holds what versions each
    /// setup step of its container there, or is `None` where that
    /// configuration has no such container. Returns whether the step is
    /// versioned; a missing configuration file means it has to be built
    /// anew.
    pub fn hash(&self, h: &mut VersionHash, found: bool, setup: Option<&Vec<SetupHash>>) -> (r: Result<bool, String>)
        ensures
            !found ==> r == Ok::<bool, String>(false),
            found ==> (r is Err <==> setup is None),
            r matches Err(e) ==> e@ == container_missing(self.container@),
            found ==> (setup matches Some(ss) ==> r == Ok::<bool, String>(true) && final(h)@
                == old(h)@ + setup_items(ss@)),
    {
        if !found {
            return Ok(false);
        }
        match setup {
            Some(ss) => {
                hash_setup(h, ss);
                Ok(true)
            },
            None => {
                let q = debug_quote(self.container.as_str());
                Err(concat3("container ", q.as_str(), " not found"))
            },
        }
    }
}

} // verus!

use vstd::prelude::*;
use crate::versioning::{VersionHash, ItemView, text_item, opt_text_item};
use crate::assoc::text_seq;
use crate::context::build_root;
use crate::paths::{join_path, path_join, rel_path, strip_root};
use crate::text::{concat, replace_all, replace_spec, same_text};
use crate::subcontainer::GitSource;

verus! {

/// The build step that checks out a git repository into the container.
#[derive(Debug)]
pub struct Git {
    pub url: String,
    pub revision: Option<String>,
    pub branch: Option<String>,
    pub path: String,
}

/// The build step that checks out a git repository and runs an install
/// script in it.
#[derive(Debug)]
pub struct GitInstall {
    pub url: String,
    pub revision: Option<String>,
    pub branch: Option<String>,
    pub subdir: String,
    pub script: String,
}

/// The name of the cached clone of the repository `url`: the url with `%`
/// and `/` escaped.
pub open spec fn cache_name(url: Seq<char>) -> Seq<char> {
    replace_spec(replace_spec(url, "%"@, "%25"@), "/"@, "%2F"@)
}

/// A name that is a plain file name (not empty, `.` or `..`).
pub open spec fn plain_name(n: Seq<char>) -> bool {
    n.len() > 0 && n != "."@ && n != ".."@
}

/// The directory of the cached clone of `url`.
pub open spec fn cache_dir_of(url: Seq<char>) -> Seq<char> {
    join_path("/vagga/cache/git"@, cache_name(url))
}

/// The name of the cached clone of the repository `url`.
pub fn git_cache_name(url: &str) -> (r: String)
    ensures
        r@ == cache_name(url@),
{
    proof {
        reveal_strlit("%");
        reveal_strlit("/");
    }
    let a = replace_all(url, "%", "%25");
    replace_all(a.as_str(), "/", "%2F")
}

/// The directory of the cached clone of the repository `url`.
pub fn git_cache_dir(url: &str) -> (r: String)
    ensures
        r@ == cache_dir_of(url@),
{
    path_join("/vagga/cache/git", git_cache_name(url).as_str())
}

/// Where the repository `url` is cloned first, before it is renamed to its
/// cache directory: the cache directory with its file name replaced by
/// `.tmp.` and the name (`PathBuf::with_file_name`). A name that is empty
/// or `.` leaves the cache directory `git` as the last named component, so
/// that is what is replaced; for `..`, which names no file, the new name is
/// added after it.
pub open spec fn clone_dir_of(url: Seq<char>) -> Seq<char> {
    let n = cache_name(url);
    if plain_name(n) {
        join_path("/vagga/cache/git"@, ".tmp."@ + n)
    } else if n == ".."@ {
        join_path(join_path("/vagga/cache/git"@, n), ".tmp."@ + n)
    } else {
        join_path("/vagga/cache"@, ".tmp."@ + n)
    }
}

/// Where the repository `url` is cloned first, before it is renamed to its
/// cache directory.
pub fn git_clone_dir(url: &str) -> (r: String)
    ensures
        r@ == clone_dir_of(url@),
{
    proof {
        reveal_strlit(".");
        reveal_strlit("..");
    }
    let name = git_cache_name(url);
    let tmp = concat(".tmp.", name.as_str());
    if same_text(name.as_str(), "..") {
        let up = path_join("/vagga/cache/git", name.as_str());
        path_join(up.as_str(), tmp.as_str())
    } else if name.as_str().unicode_len() == 0 || same_text(name.as_str(), ".") {
        path_join("/vagga/cache", tmp.as_str())
    } else {
        path_join("/vagga/cache/git", tmp.as_str())
    }
}

/// The arguments of `git` that update the cached clone `cache`.
pub fn git_fetch_args(cache: &str) -> (r: Vec<String>)
    ensures
        text_seq(r@) == seq!["-C"@, cache@, "fetch"@],
{
    let r = vec![String::from_str("-C"), String::from_str(cache), String::from_str("fetch")];
    assert(text_seq(r@) =~= seq!["-C"@, cache@, "fetch"@]);
    r
}

/// The arguments of `git` that clone the repository `url` bare into `dir`.
pub fn git_clone_args(url: &str, dir: &str) -> (r: Vec<String>)
    ensures
        text_seq(r@) == seq!["clone"@, "--bare"@, url@, dir@],
{
    let r = vec![
        String::from_str("clone"),
        String::from_str("--bare"),
        String::from_str(url),
        String::from_str(dir),
    ];
    assert(text_seq(r@) =~= seq!["clone"@, "--bare"@, url@, dir@]);
    r
}

/// The revision that a checkout resets to: the revision where one is given,
/// else the branch where one is given, else none (the default branch).
pub open spec fn reset_target(revision: Option<String>, branch: Option<String>) -> Seq<Seq<char>> {
    match revision {
        Some(rev) => seq![rev@],
        None => match branch {
            Some(b) => seq![b@],
            None => seq![],
        },
    }
}

/// The arguments of `git` that check the cached clone `cache` out into
/// `dest`.
pub fn git_checkout_args(
    cache: &str,
    dest: &str,
    revision: &Option<String>,
    branch: &Option<String>,
) -> (r: Vec<String>)
    ensures
        text_seq(r@) == seq!["--git-dir"@, cache@, "--work-tree"@, dest@, "reset"@, "--hard"@]
            + reset_target(*revision, *branch),
{
    let mut r = vec![
        String::from_str("--git-dir"),
        String::from_str(cache),
        String::from_str("--work-tree"),
        String::from_str(dest),
        String::from_str("reset"),
        String::from_str("--hard"),
    ];
    let ghost head = text_seq(r@);
    assert(head =~= seq!["--git-dir"@, cache@, "--work-tree"@, dest@, "reset"@, "--hard"@]);
    match revision {
        Some(rev) => {
            r.push(rev.clone());
            assert(text_seq(r@) =~= head + seq![rev@]);
        },
        None => match branch {
            Some(b) => {
                r.push(b.clone());
                assert(text_seq(r@) =~= head + seq![b@]);
            },
            None => {
                assert(text_seq(r@) =~= head + seq![]);
            },
        },
    }
    r
}

impl Git {
    /// Where the repository is checked out while the container is built.
    pub fn dest(&self) -> (r: String)
        requires
            rel_path(self.path@) is Some,
        ensures
            r@ == join_path(build_root(), rel_path(self.path@)->0),
    {
        match strip_root(self.path.as_str()) {
            Some(rel) => path_join("/vagga/root", rel.as_str()),
            None => String::new(),
        }
    }
}

impl GitInstall {
    /// Where the repository is checked out while the container is built.
    pub fn checkout_dir(&self) -> (r: String)
        ensures
            r@ == join_path("/vagga/root/tmp"@, cache_name(self.url@)),
    {
        path_join("/vagga/root/tmp", git_cache_name(self.url.as_str()).as_str())
    }

    /// Where the install script runs, as the container sees it.
    pub fn work_dir(&self) -> (r: String)
        ensures
            r@ == join_path(join_path("/tmp"@, cache_name(self.url@)), self.subdir@),
    {
        let tmp = path_join("/tmp", git_cache_name(self.url.as_str()).as_str());
        path_join(tmp.as_str(), self.subdir.as_str())
    }

    /// The command line that runs the install script.
    pub fn script_command(&self) -> (r: Vec<String>)
        ensures
            text_seq(r@) == seq!["/bin/sh"@, "-exc"@, self.script@],
    {
        let r = vec![String::from_str("/bin/sh"), String::from_str("-exc"), self.script.clone()];
        assert(text_seq(r@) =~= seq!["/bin/sh"@, "-exc"@, self.script@]);
        r
    }
}

impl GitSource {
    /// Where the sources are checked out.
    pub fn source_dir(&self) -> (r: String)
        ensures
            r@ == join_path("/vagga/sources"@, cache_name(self.url@)),
    {
        path_join("/vagga/sources", git_cache_name(self.url.as_str()).as_str())
    }
}

impl Git {
    /// What versions the step: the repository, revision and branch, and the path.
    pub open spec fn hash_items(self) -> Seq<ItemView> {
        seq![
            text_item("url"@, self.url@),
            opt_text_item("revision"@, self.revision),
            opt_text_item("branch"@, self.branch),
            text_item("path"@, self.path@),
        ]
    }

    /// Feeds what versions the step into `h`.
    pub fn hash(&self, h: &mut VersionHash)
        ensures
            final(h)@ == old(h)@ + self.hash_items(),
    {
        let ghost h0 = h@;
        h.field_text("url", self.url.as_str());
        h.opt_field_text("revision", &self.revision);
        h.opt_field_text("branch", &self.branch);
        h.field_text("path", self.path.as_str());
        assert(h@ =~= h0 + self.hash_items());
    }
}

impl GitInstall {
    /// What versions the step: the repository, revision and branch, the subdirectory and the script.
    pub open spec fn hash_items(self) -> Seq<ItemView> {
        seq![
            text_item("url"@, self.url@),
            opt_text_item("revision"@, self.revision),
            opt_text_item("branch"@, self.branch),
            text_item("subdir"@, self.subdir@),
            text_item("script"@, self.script@),
        ]
    }

    /// Feeds what versions the step into `h`.
    pub fn hash(&self, h: &mut VersionHash)
        ensures
            final(h)@ == old(h)@ + self.hash_items(),
    {
        let ghost h0 = h@;
        h.field_text("url", self.url.as_str());
        h.opt_field_text("revision", &self.revision);
        h.opt_field_text("branch", &self.branch);
        h.field_text("subdir", self.subdir.as_str());
        h.field_text("script", self.script.as_str());
        assert(h@ =~= h0 + self.hash_items());
    }
}

} // verus!

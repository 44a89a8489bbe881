use vstd::prelude::*;
use crate::assoc::{TextMap, TextSet, text_entries, insert_all};
use crate::paths::{rel_path, strip_root, join_path, path_join};
use crate::text::{concat, path_debug, path_debug_text};
use crate::pip::PipConfig;
use crate::gem::GemConfig;
use crate::npm::NpmConfig;
use crate::composer::ComposerConfig;
use crate::packages::{Package, PackageSets, names};

verus! {

/// The state of building one container that the build steps read and
/// change: the directories to create, empty or remove when the container is
/// finished (relative to its root), the cache directories mounted into it,
/// the environment of the commands run in it, the settings of the package
/// managers, and the packages installed so far.
pub struct Context {
    pub container_name: String,
    pub ensure_dirs: TextSet,
    pub empty_dirs: TextSet,
    pub remove_paths: TextSet,
    pub mounted: Vec<String>,
    pub cache_dirs: TextMap,
    pub environ: TextMap,
    pub binary_ident: String,
    pub pip_settings: PipConfig,
    pub gem_settings: GemConfig,
    pub npm_settings: NpmConfig,
    pub composer_settings: ComposerConfig,
    pub packages: PackageSets,
    pub featured_packages: Vec<Package>,
}

/// The environment of the commands of a build before any step changes it.
pub open spec fn base_environ() -> Map<Seq<char>, Seq<char>> {
    map![
        "TERM"@ => "dumb"@,
        "HOME"@ => "/tmp"@,
        "PATH"@ => "/usr/local/sbin:/usr/local/bin:/usr/sbin:/usr/bin:/sbin:/bin"@,
    ]
}

/// A cache directory to mount: the directory of the cache and where it
/// goes in the container's root.
#[derive(Debug)]
pub struct CacheMount {
    pub cache_dir: String,
    pub target: String,
}

/// The error of a path that a build step wants absolute: the message
/// `what` and the path.
pub open spec fn absolute_error(what: Seq<char>, path: Seq<char>) -> Seq<char> {
    what + path_debug_text(path)
}

/// The root of the container while it is built.
pub open spec fn build_root() -> Seq<char> {
    "/vagga/root"@
}

/// `b` has the name, mounts, environment, identity, settings and packages
/// of `a`.
pub open spec fn same_setup(a: Context, b: Context) -> bool {
    &&& b.container_name == a.container_name
    &&& b.mounted == a.mounted
    &&& b.environ == a.environ
    &&& b.binary_ident == a.binary_ident
    &&& b.pip_settings == a.pip_settings
    &&& b.gem_settings == a.gem_settings
    &&& b.npm_settings == a.npm_settings
    &&& b.composer_settings == a.composer_settings
    &&& b.packages == a.packages
    &&& b.featured_packages == a.featured_packages
}

/// Adds the absolute path `path`, relative to the root, to `set`; `what`
/// names the set in the error.
fn add_rel_path(set: &mut TextSet, path: &str, what: &str) -> (r: Result<(), String>)
    ensures
        match rel_path(path@) {
            None => r is Err && r->Err_0@ == absolute_error(what@, path@) && *final(set) == *old(
                set,
            ),
            Some(rel) => r is Ok && final(set)@ == old(set)@.insert(rel),
        },
{
    match strip_root(path) {
        None => Err(concat(what, path_debug(path).as_str())),
        Some(rel) => {
            let _ = set.insert(rel);
            Ok(())
        },
    }
}

impl Context {
    /// The context of building the container `name`. Where the settings ask
    /// for the proxy variables to be passed on (`proxy_env_vars`), the
    /// values `proxy_values` that the environment of vagga gives them are
    /// set in the environment of the commands.
    pub fn new(name: String, proxy_env_vars: bool, proxy_values: &Vec<(String, String)>) -> (r: Context)
        ensures
            r.container_name@ == name@,
            r.environ@ == (if proxy_env_vars {
                insert_all(base_environ(), text_entries(proxy_values@))
            } else {
                base_environ()
            }),
            r.ensure_dirs@ == set!["dev"@, "proc"@, "run"@, "sys"@, "tmp"@, "work"@],
            r.empty_dirs@ == set!["tmp"@, "var/tmp"@],
            r.remove_paths@ == Set::<Seq<char>>::empty(),
            r.mounted@.len() == 0,
            r.cache_dirs@ == Map::<Seq<char>, Seq<char>>::empty(),
            r.binary_ident@ == "amd64"@,
            r.pip_settings.is_default(),
            r.gem_settings.is_default(),
            r.npm_settings.is_default(),
            r.composer_settings.is_default(),
            names(r.packages.packages@) == Set::<Seq<char>>::empty(),
            names(r.packages.build_deps@) == Set::<Seq<char>>::empty(),
            r.featured_packages@.len() == 0,
    {
        let mut environ = TextMap::new();
        let _ = environ.insert(String::from_str("TERM"), String::from_str("dumb"));
        let _ = environ.insert(String::from_str("HOME"), String::from_str("/tmp"));
        let _ = environ.insert(
            String::from_str("PATH"),
            String::from_str("/usr/local/sbin:/usr/local/bin:/usr/sbin:/usr/bin:/sbin:/bin"),
        );
        proof {
            reveal_strlit("TERM");
            reveal_strlit("HOME");
            reveal_strlit("PATH");
            assert(environ@ =~= base_environ());
        }
        if proxy_env_vars {
            environ.extend(proxy_values);
        }
        let mut ensure_dirs = TextSet::new();
        let _ = ensure_dirs.insert(String::from_str("dev"));
        let _ = ensure_dirs.insert(String::from_str("proc"));
        let _ = ensure_dirs.insert(String::from_str("run"));
        let _ = ensure_dirs.insert(String::from_str("sys"));
        let _ = ensure_dirs.insert(String::from_str("tmp"));
        let _ = ensure_dirs.insert(String::from_str("work"));
        let mut empty_dirs = TextSet::new();
        let _ = empty_dirs.insert(String::from_str("tmp"));
        let _ = empty_dirs.insert(String::from_str("var/tmp"));
        let packages = PackageSets { packages: Vec::new(), build_deps: Vec::new() };
        proof {
            assert(ensure_dirs@ =~= set!["dev"@, "proc"@, "run"@, "sys"@, "tmp"@, "work"@]);
            assert(empty_dirs@ =~= set!["tmp"@, "var/tmp"@]);
            assert(names(packages.packages@) =~= Set::<Seq<char>>::empty());
            assert(names(packages.build_deps@) =~= Set::<Seq<char>>::empty());
        }
        Context {
            container_name: name,
            ensure_dirs,
            empty_dirs,
            remove_paths: TextSet::new(),
            mounted: Vec::new(),
            cache_dirs: TextMap::new(),
            environ,
            binary_ident: String::from_str("amd64"),
            pip_settings: PipConfig::default(),
            gem_settings: GemConfig::default(),
            npm_settings: NpmConfig::default(),
            composer_settings: ComposerConfig::default(),
            packages,
            featured_packages: Vec::new(),
        }
    }

    /// Records the cache `name` for the absolute path `path` of the
    /// container. Where the path had no cache yet, the result says what to
    /// mount there: the directory `/vagga/cache/<name>` on `path` below the
    /// root of the container.
    pub fn add_cache_dir(&mut self, path: &str, name: String) -> (r: Result<Option<CacheMount>, String>)
        ensures
            match rel_path(path@) {
                None => {
                    &&& r is Err
                    &&& r->Err_0@ == absolute_error("cache_dir must be absolute: "@, path@)
                    &&& *final(self) == *old(self)
                },
                Some(rel) => {
                    &&& r is Ok
                    &&& final(self).cache_dirs@ == old(self).cache_dirs@.insert(rel, name@)
                    &&& match r->Ok_0 {
                        Some(m) => !old(self).cache_dirs@.dom().contains(rel) && m.cache_dir@
                            == join_path("/vagga/cache"@, name@) && m.target@ == join_path(
                            build_root(),
                            rel,
                        ),
                        None => old(self).cache_dirs@.dom().contains(rel),
                    }
                    &&& final(self).container_name == old(self).container_name
                    &&& final(self).ensure_dirs == old(self).ensure_dirs
                    &&& final(self).empty_dirs == old(self).empty_dirs
                    &&& final(self).remove_paths == old(self).remove_paths
                    &&& final(self).mounted == old(self).mounted
                    &&& final(self).environ == old(self).environ
                    &&& final(self).packages == old(self).packages
                    &&& final(self).featured_packages == old(self).featured_packages
                },
            },
    {
        match strip_root(path) {
            None => Err(concat("cache_dir must be absolute: ", path_debug(path).as_str())),
            Some(rel) => {
                let target = path_join("/vagga/root", rel.as_str());
                if self.cache_dirs.insert(rel, name.clone()) {
                    let cache_dir = path_join("/vagga/cache", name.as_str());
                    Ok(Some(CacheMount { cache_dir, target }))
                } else {
                    Ok(None)
                }
            },
        }
    }

    /// Records the absolute path `path` to be removed when the container is
    /// finished.
    pub fn add_remove_path(&mut self, path: &str) -> (r: Result<(), String>)
        ensures
            match rel_path(path@) {
                None => r is Err && r->Err_0@ == absolute_error("remove path must be absolute: "@, path@)
                    && *final(self) == *old(self),
                Some(rel) => r is Ok && final(self).remove_paths@ == old(self).remove_paths@.insert(rel)
                    && final(self).ensure_dirs == old(self).ensure_dirs && final(self).empty_dirs
                    == old(self).empty_dirs && final(self).cache_dirs == old(self).cache_dirs
                    && same_setup(*old(self), *final(self)),
            },
    {
        add_rel_path(&mut self.remove_paths, path, "remove path must be absolute: ")
    }

    /// Records the absolute path `path` as a directory left empty when the
    /// container is finished.
    pub fn add_empty_dir(&mut self, path: &str) -> (r: Result<(), String>)
        ensures
            match rel_path(path@) {
                None => r is Err && r->Err_0@ == absolute_error("empty_dir must be absolute: "@, path@)
                    && *final(self) == *old(self),
                Some(rel) => r is Ok && final(self).empty_dirs@ == old(self).empty_dirs@.insert(rel)
                    && final(self).ensure_dirs == old(self).ensure_dirs && final(self).remove_paths
                    == old(self).remove_paths && final(self).cache_dirs == old(self).cache_dirs
                    && same_setup(*old(self), *final(self)),
            },
    {
        add_rel_path(&mut self.empty_dirs, path, "empty_dir must be absolute: ")
    }

    /// Records the absolute path `path` as a directory that the finished
    /// container has.
    pub fn add_ensure_dir(&mut self, path: &str) -> (r: Result<(), String>)
        ensures
            match rel_path(path@) {
                None => r is Err && r->Err_0@ == absolute_error("ensure_dir must be absolute: "@, path@)
                    && *final(self) == *old(self),
                Some(rel) => r is Ok && final(self).ensure_dirs@ == old(self).ensure_dirs@.insert(rel)
                    && final(self).empty_dirs == old(self).empty_dirs && final(self).remove_paths
                    == old(self).remove_paths && final(self).cache_dirs == old(self).cache_dirs
                    && same_setup(*old(self), *final(self)),
            },
    {
        add_rel_path(&mut self.ensure_dirs, path, "ensure_dir must be absolute: ")
    }
}

} // verus!

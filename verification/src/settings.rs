use vstd::prelude::*;
use crate::assoc::{TextMap, TextSet, text_entries, text_seq, insert_all};
use crate::docker::DEFAULT_REGISTRY_HOST;
use crate::guard::same_components;
use crate::tar::{components, path_components};
use crate::text::{opt_text, string_views};
use crate::ubuntu::DEFAULT_MIRROR;

verus! {

/// The Alpine mirror where the settings name none.
pub const DEFAULT_ALPINE_MIRROR: &'static str = "http://dl-cdn.alpinelinux.org/alpine/";

/// The settings that the build and the commands of a container read.
#[derive(Debug)]
pub struct Settings {
    pub version_check: bool,
    pub proxy_env_vars: bool,
    pub ubuntu_mirror: Option<String>,
    pub ubuntu_skip_locking: bool,
    pub alpine_mirror: Option<String>,
    pub uid_map: Option<(Vec<(u32, u32, u32)>, Vec<(u32, u32, u32)>)>,
    pub push_image_script: Option<String>,
    pub build_lock_wait: bool,
    pub versioned_build_dir: bool,
    pub auto_apply_sysctl: bool,
    pub environ: TextMap,
    pub index_all_images: bool,
    pub hard_link_identical_files: bool,
    pub hard_link_between_projects: bool,
    pub run_symlinks_as_commands: bool,
    pub disable_auto_clean: bool,
    pub storage_subdir_from_env_var: Option<String>,
    pub docker_insecure_registries: TextSet,
    pub docker_registry_aliases: TextMap,
}

impl Settings {
    /// The Ubuntu mirror: the one the settings name, or the default one.
    pub fn ubuntu_mirror(&self) -> (r: String)
        ensures
            r@ == match self.ubuntu_mirror {
                Some(m) => m@,
                None => DEFAULT_MIRROR@,
            },
    {
        crate::ubuntu::ubuntu_mirror(&self.ubuntu_mirror)
    }

    /// The Alpine mirror: the one the settings name, or the default one.
    pub fn alpine_mirror(&self) -> (r: String)
        ensures
            r@ == match self.alpine_mirror {
                Some(m) => m@,
                None => DEFAULT_ALPINE_MIRROR@,
            },
    {
        match &self.alpine_mirror {
            Some(m) => m.clone(),
            None => String::from_str(DEFAULT_ALPINE_MIRROR),
        }
    }
}

/// The settings that only vagga itself reads (not the containers).
#[derive(Debug)]
pub struct MergedSettings {
    pub external_volumes: TextMap,
    pub push_image_script: Option<String>,
    pub storage_dir: Option<String>,
    pub storage_subdir_from_env_var: Option<String>,
    pub cache_dir: Option<String>,
    pub shared_cache: bool,
    pub disable_auto_clean: bool,
    pub propagate_environ: TextSet,
}

/// A directory of the settings after `~` is expanded: the path, or the
/// failure to expand it where there is no home directory.
#[derive(Debug)]
pub enum Expanded {
    Path(String),
    NoHome,
}

/// The settings of one project in a user's settings file.
#[derive(Debug)]
pub struct SiteSettings {
    pub storage_dir: Option<String>,
    pub storage_subdir_from_env_var: Option<String>,
    pub cache_dir: Option<String>,
    pub version_check: Option<bool>,
    pub ubuntu_mirror: Option<String>,
    pub ubuntu_skip_locking: Option<bool>,
    pub versioned_build_dir: Option<bool>,
    pub alpine_mirror: Option<String>,
    pub external_volumes: Vec<(String, String)>,
    pub push_image_script: Option<String>,
    pub build_lock_wait: Option<bool>,
    pub auto_apply_sysctl: Option<bool>,
    pub index_all_images: Option<bool>,
    pub hard_link_identical_files: Option<bool>,
    pub hard_link_between_projects: Option<bool>,
    pub run_symlinks_as_commands: Option<bool>,
    pub disable_auto_clean: Option<bool>,
    pub environ: Vec<(String, String)>,
}

/// A user's settings file (trusted: it may say where vagga stores things).
#[derive(Debug)]
pub struct SecureSettings {
    pub storage_dir: Option<Expanded>,
    pub storage_subdir_from_env_var: Option<String>,
    pub cache_dir: Option<Expanded>,
    pub version_check: Option<bool>,
    pub proxy_env_vars: Option<bool>,
    pub ubuntu_mirror: Option<String>,
    pub ubuntu_skip_locking: Option<bool>,
    pub versioned_build_dir: Option<bool>,
    pub alpine_mirror: Option<String>,
    pub site_settings: Vec<(String, SiteSettings)>,
    pub external_volumes: Vec<(String, String)>,
    pub push_image_script: Option<String>,
    pub build_lock_wait: Option<bool>,
    pub auto_apply_sysctl: Option<bool>,
    pub index_all_images: Option<bool>,
    pub hard_link_identical_files: Option<bool>,
    pub hard_link_between_projects: Option<bool>,
    pub run_symlinks_as_commands: Option<bool>,
    pub disable_auto_clean: Option<bool>,
    pub environ: Vec<(String, String)>,
    pub propagate_environ: Vec<String>,
    pub docker_insecure_registries: Vec<String>,
    pub docker_registry_aliases: Vec<(String, String)>,
}

/// A project's own settings file (untrusted: it may only tune the build).
#[derive(Debug)]
pub struct InsecureSettings {
    pub version_check: Option<bool>,
    pub shared_cache: Option<bool>,
    pub ubuntu_mirror: Option<String>,
    pub ubuntu_skip_locking: Option<bool>,
    pub versioned_build_dir: Option<bool>,
    pub alpine_mirror: Option<String>,
    pub build_lock_wait: Option<bool>,
    pub run_symlinks_as_commands: Option<bool>,
    pub disable_auto_clean: Option<bool>,
    pub environ: Vec<(String, String)>,
}

/// The settings before any settings file is read.
pub fn default_settings() -> (r: (MergedSettings, Settings))
    ensures
        r.0.external_volumes@ == Map::<Seq<char>, Seq<char>>::empty(),
        r.0.push_image_script is None,
        r.0.storage_dir is None,
        r.0.storage_subdir_from_env_var is None,
        r.0.cache_dir is None,
        !r.0.shared_cache,
        !r.0.disable_auto_clean,
        r.0.propagate_environ@ == Set::<Seq<char>>::empty(),
        r.1.proxy_env_vars,
        r.1.version_check,
        r.1.uid_map is None,
        r.1.ubuntu_mirror is None,
        !r.1.ubuntu_skip_locking,
        !r.1.versioned_build_dir,
        r.1.alpine_mirror is None,
        r.1.push_image_script is None,
        !r.1.build_lock_wait,
        !r.1.auto_apply_sysctl,
        !r.1.index_all_images,
        !r.1.hard_link_identical_files,
        !r.1.hard_link_between_projects,
        r.1.run_symlinks_as_commands,
        !r.1.disable_auto_clean,
        r.1.environ@ == Map::<Seq<char>, Seq<char>>::empty(),
        r.1.storage_subdir_from_env_var is None,
        r.1.docker_insecure_registries@ == set!["localhost"@],
        r.1.docker_registry_aliases@ == map!["docker.io"@ => DEFAULT_REGISTRY_HOST@],
{
    let ext = MergedSettings {
        external_volumes: TextMap::new(),
        push_image_script: None,
        storage_dir: None,
        storage_subdir_from_env_var: None,
        cache_dir: None,
        shared_cache: false,
        disable_auto_clean: false,
        propagate_environ: TextSet::new(),
    };
    let mut registries = TextSet::new();
    let _ = registries.insert(String::from_str("localhost"));
    let mut aliases = TextMap::new();
    let _ = aliases.insert(String::from_str("docker.io"), String::from_str(DEFAULT_REGISTRY_HOST));
    proof {
        assert(registries@ =~= set!["localhost"@]);
        assert(aliases@ =~= map!["docker.io"@ => DEFAULT_REGISTRY_HOST@]);
    }
    let shared = Settings {
        version_check: true,
        proxy_env_vars: true,
        ubuntu_mirror: None,
        ubuntu_skip_locking: false,
        alpine_mirror: None,
        uid_map: None,
        push_image_script: None,
        build_lock_wait: false,
        versioned_build_dir: false,
        auto_apply_sysctl: false,
        environ: TextMap::new(),
        index_all_images: false,
        hard_link_identical_files: false,
        hard_link_between_projects: false,
        run_symlinks_as_commands: true,
        disable_auto_clean: false,
        storage_subdir_from_env_var: None,
        docker_insecure_registries: registries,
        docker_registry_aliases: aliases,
    };
    (ext, shared)
}

/// `new` where it is given, else `old`.
pub open spec fn or_keep<T>(new: Option<T>, old: T) -> T {
    match new {
        Some(v) => v,
        None => old,
    }
}

/// The text of `new` where it is given, else `old`.
pub open spec fn or_keep_text(new: Option<String>, old: Option<Seq<char>>) -> Option<Seq<char>> {
    match new {
        Some(v) => Some(v@),
        None => old,
    }
}

/// The path of an expanded directory, where it was expanded.
pub open spec fn expanded_text(e: Option<Expanded>) -> Option<String> {
    match e {
        Some(Expanded::Path(p)) => Some(p),
        _ => None,
    }
}

/// The settings of the project at `root` in the list `sites`: those of the
/// first entry whose path names the same directory.
pub open spec fn site_for(sites: Seq<(String, SiteSettings)>, root: Seq<char>) -> Option<SiteSettings>
    decreases sites.len(),
{
    if sites.len() == 0 {
        None
    } else if components(sites[0].0@) == components(root) {
        Some(sites[0].1)
    } else {
        site_for(sites.drop_first(), root)
    }
}

/// The error of a directory that could not be expanded.
pub open spec fn expand_error(cfg: SecureSettings) -> Option<Seq<char>> {
    if cfg.storage_dir matches Some(Expanded::NoHome) {
        Some("Can't expand tilde `~` in storage dir no HOME found"@)
    } else if cfg.cache_dir matches Some(Expanded::NoHome) {
        Some("Can't expand tilde `~` in cache dir no HOME found"@)
    } else {
        None
    }
}

/// The entries of a site's external volumes, or none.
pub open spec fn site_volumes(s: Option<SiteSettings>) -> Seq<(Seq<char>, Seq<char>)> {
    match s {
        Some(x) => text_entries(x.external_volumes@),
        None => seq![],
    }
}

/// The entries of a site's environment, or none.
pub open spec fn site_environ(s: Option<SiteSettings>) -> Seq<(Seq<char>, Seq<char>)> {
    match s {
        Some(x) => text_entries(x.environ@),
        None => seq![],
    }
}

/// What the flags and texts of a user's settings file `cfg` make of the
/// settings `s0`: each that the file gives replaces the one of `s0`.
pub open spec fn common_flags(s0: Settings, cfg: SecureSettings, s1: Settings) -> bool {
    &&& s1.version_check == or_keep(cfg.version_check, s0.version_check)
    &&& s1.proxy_env_vars == or_keep(cfg.proxy_env_vars, s0.proxy_env_vars)
    &&& opt_text(s1.ubuntu_mirror) == or_keep_text(cfg.ubuntu_mirror, opt_text(s0.ubuntu_mirror))
    &&& s1.ubuntu_skip_locking == or_keep(cfg.ubuntu_skip_locking, s0.ubuntu_skip_locking)
    &&& s1.versioned_build_dir == or_keep(cfg.versioned_build_dir, s0.versioned_build_dir)
    &&& opt_text(s1.alpine_mirror) == or_keep_text(cfg.alpine_mirror, opt_text(s0.alpine_mirror))
    &&& opt_text(s1.push_image_script) == or_keep_text(cfg.push_image_script, opt_text(s0.push_image_script))
    &&& s1.build_lock_wait == or_keep(cfg.build_lock_wait, s0.build_lock_wait)
    &&& s1.auto_apply_sysctl == or_keep(cfg.auto_apply_sysctl, s0.auto_apply_sysctl)
    &&& s1.index_all_images == or_keep(cfg.index_all_images, s0.index_all_images)
    &&& s1.hard_link_identical_files == or_keep(cfg.hard_link_identical_files, s0.hard_link_identical_files)
    &&& s1.hard_link_between_projects == or_keep(cfg.hard_link_between_projects, s0.hard_link_between_projects)
    &&& s1.run_symlinks_as_commands == or_keep(cfg.run_symlinks_as_commands, s0.run_symlinks_as_commands)
    &&& s1.disable_auto_clean == or_keep(cfg.disable_auto_clean, s0.disable_auto_clean)
    &&& s1.storage_subdir_from_env_var == s0.storage_subdir_from_env_var
    &&& s1.environ == s0.environ
    &&& s1.docker_insecure_registries == s0.docker_insecure_registries
    &&& s1.docker_registry_aliases == s0.docker_registry_aliases
    &&& s1.uid_map == s0.uid_map
}

/// What the part of a user's settings file `cfg` that holds for all
/// projects makes of the settings (`a0`, `s0`).
pub open spec fn common_step(a0: MergedSettings, s0: Settings, cfg: SecureSettings, a1: MergedSettings, s1: Settings) -> bool {
    &&& opt_text(a1.storage_dir) == or_keep_text(expanded_text(cfg.storage_dir), opt_text(a0.storage_dir))
    &&& opt_text(a1.storage_subdir_from_env_var) == or_keep_text(cfg.storage_subdir_from_env_var, opt_text(a0.storage_subdir_from_env_var))
    &&& opt_text(s1.storage_subdir_from_env_var) == or_keep_text(cfg.storage_subdir_from_env_var, opt_text(s0.storage_subdir_from_env_var))
    &&& opt_text(a1.cache_dir) == or_keep_text(expanded_text(cfg.cache_dir), opt_text(a0.cache_dir))
    &&& a1.shared_cache == (a0.shared_cache || expanded_text(cfg.cache_dir) is Some)
    &&& a1.external_volumes@ == insert_all(a0.external_volumes@, text_entries(cfg.external_volumes@))
    &&& s1.environ@ == insert_all(s0.environ@, text_entries(cfg.environ@))
    &&& a1.propagate_environ@ == a0.propagate_environ@.union(text_seq(cfg.propagate_environ@).to_set())
    &&& s1.docker_insecure_registries@ == s0.docker_insecure_registries@.union(text_seq(cfg.docker_insecure_registries@).to_set())
    &&& s1.docker_registry_aliases@ == insert_all(s0.docker_registry_aliases@, text_entries(cfg.docker_registry_aliases@))
    &&& a1.push_image_script == a0.push_image_script
    &&& a1.disable_auto_clean == a0.disable_auto_clean
    &&& s1.version_check == or_keep(cfg.version_check, s0.version_check)
    &&& s1.proxy_env_vars == or_keep(cfg.proxy_env_vars, s0.proxy_env_vars)
    &&& opt_text(s1.ubuntu_mirror) == or_keep_text(cfg.ubuntu_mirror, opt_text(s0.ubuntu_mirror))
    &&& s1.ubuntu_skip_locking == or_keep(cfg.ubuntu_skip_locking, s0.ubuntu_skip_locking)
    &&& s1.versioned_build_dir == or_keep(cfg.versioned_build_dir, s0.versioned_build_dir)
    &&& opt_text(s1.alpine_mirror) == or_keep_text(cfg.alpine_mirror, opt_text(s0.alpine_mirror))
    &&& opt_text(s1.push_image_script) == or_keep_text(cfg.push_image_script, opt_text(s0.push_image_script))
    &&& s1.build_lock_wait == or_keep(cfg.build_lock_wait, s0.build_lock_wait)
    &&& s1.auto_apply_sysctl == or_keep(cfg.auto_apply_sysctl, s0.auto_apply_sysctl)
    &&& s1.index_all_images == or_keep(cfg.index_all_images, s0.index_all_images)
    &&& s1.hard_link_identical_files == or_keep(cfg.hard_link_identical_files, s0.hard_link_identical_files)
    &&& s1.hard_link_between_projects == or_keep(cfg.hard_link_between_projects, s0.hard_link_between_projects)
    &&& s1.run_symlinks_as_commands == or_keep(cfg.run_symlinks_as_commands, s0.run_symlinks_as_commands)
    &&& s1.disable_auto_clean == or_keep(cfg.disable_auto_clean, s0.disable_auto_clean)
    &&& s1.uid_map == s0.uid_map
}

/// What the flags and texts of the settings `site` of one project make of
/// the settings `s0`.
pub open spec fn site_flags(s0: Settings, site: SiteSettings, s1: Settings) -> bool {
    &&& s1.version_check == or_keep(site.version_check, s0.version_check)
    &&& opt_text(s1.ubuntu_mirror) == or_keep_text(site.ubuntu_mirror, opt_text(s0.ubuntu_mirror))
    &&& s1.ubuntu_skip_locking == or_keep(site.ubuntu_skip_locking, s0.ubuntu_skip_locking)
    &&& s1.versioned_build_dir == or_keep(site.versioned_build_dir, s0.versioned_build_dir)
    &&& opt_text(s1.alpine_mirror) == or_keep_text(site.alpine_mirror, opt_text(s0.alpine_mirror))
    &&& opt_text(s1.push_image_script) == or_keep_text(site.push_image_script, opt_text(s0.push_image_script))
    &&& s1.build_lock_wait == or_keep(site.build_lock_wait, s0.build_lock_wait)
    &&& s1.auto_apply_sysctl == or_keep(site.auto_apply_sysctl, s0.auto_apply_sysctl)
    &&& s1.index_all_images == or_keep(site.index_all_images, s0.index_all_images)
    &&& s1.hard_link_identical_files == or_keep(site.hard_link_identical_files, s0.hard_link_identical_files)
    &&& s1.hard_link_between_projects == or_keep(site.hard_link_between_projects, s0.hard_link_between_projects)
    &&& s1.run_symlinks_as_commands == or_keep(site.run_symlinks_as_commands, s0.run_symlinks_as_commands)
    &&& s1.disable_auto_clean == or_keep(site.disable_auto_clean, s0.disable_auto_clean)
    &&& s1.proxy_env_vars == s0.proxy_env_vars
    &&& s1.storage_subdir_from_env_var == s0.storage_subdir_from_env_var
    &&& s1.environ == s0.environ
    &&& s1.docker_insecure_registries == s0.docker_insecure_registries
    &&& s1.docker_registry_aliases == s0.docker_registry_aliases
    &&& s1.uid_map == s0.uid_map
}

/// What the settings `site` of one project make of the settings (`a0`,
/// `s0`).
pub open spec fn site_step(a0: MergedSettings, s0: Settings, site: SiteSettings, a1: MergedSettings, s1: Settings) -> bool {
    &&& opt_text(a1.storage_dir) == or_keep_text(site.storage_dir, opt_text(a0.storage_dir))
    &&& opt_text(a1.storage_subdir_from_env_var) == or_keep_text(site.storage_subdir_from_env_var, opt_text(a0.storage_subdir_from_env_var))
    &&& opt_text(s1.storage_subdir_from_env_var) == or_keep_text(site.storage_subdir_from_env_var, opt_text(s0.storage_subdir_from_env_var))
    &&& opt_text(a1.cache_dir) == or_keep_text(site.cache_dir, opt_text(a0.cache_dir))
    &&& a1.shared_cache == (a0.shared_cache || site.cache_dir is Some)
    &&& a1.external_volumes@ == insert_all(a0.external_volumes@, text_entries(site.external_volumes@))
    &&& s1.environ@ == insert_all(s0.environ@, text_entries(site.environ@))
    &&& a1.propagate_environ == a0.propagate_environ
    &&& s1.docker_insecure_registries == s0.docker_insecure_registries
    &&& s1.docker_registry_aliases == s0.docker_registry_aliases
    &&& a1.push_image_script == a0.push_image_script
    &&& a1.disable_auto_clean == a0.disable_auto_clean
    &&& s1.version_check == or_keep(site.version_check, s0.version_check)
    &&& s1.proxy_env_vars == s0.proxy_env_vars
    &&& opt_text(s1.ubuntu_mirror) == or_keep_text(site.ubuntu_mirror, opt_text(s0.ubuntu_mirror))
    &&& s1.ubuntu_skip_locking == or_keep(site.ubuntu_skip_locking, s0.ubuntu_skip_locking)
    &&& s1.versioned_build_dir == or_keep(site.versioned_build_dir, s0.versioned_build_dir)
    &&& opt_text(s1.alpine_mirror) == or_keep_text(site.alpine_mirror, opt_text(s0.alpine_mirror))
    &&& opt_text(s1.push_image_script) == or_keep_text(site.push_image_script, opt_text(s0.push_image_script))
    &&& s1.build_lock_wait == or_keep(site.build_lock_wait, s0.build_lock_wait)
    &&& s1.auto_apply_sysctl == or_keep(site.auto_apply_sysctl, s0.auto_apply_sysctl)
    &&& s1.index_all_images == or_keep(site.index_all_images, s0.index_all_images)
    &&& s1.hard_link_identical_files == or_keep(site.hard_link_identical_files, s0.hard_link_identical_files)
    &&& s1.hard_link_between_projects == or_keep(site.hard_link_between_projects, s0.hard_link_between_projects)
    &&& s1.run_symlinks_as_commands == or_keep(site.run_symlinks_as_commands, s0.run_symlinks_as_commands)
    &&& s1.disable_auto_clean == or_keep(site.disable_auto_clean, s0.disable_auto_clean)
    &&& s1.uid_map == s0.uid_map
}

fn find_site(sites: &Vec<(String, SiteSettings)>, root: &str) -> (r: Option<usize>)
    ensures
        match r {
            Some(i) => i < sites@.len() && site_for(sites@, root@) == Some(sites@[i as int].1),
            None => site_for(sites@, root@) is None,
        },
{
    let rc = path_components(root);
    let mut i: usize = 0;
    assert(sites@.skip(0) =~= sites@);
    while i < sites.len()
        invariant
            i <= sites@.len(),
            string_views(rc@) == components(root@),
            site_for(sites@, root@) == site_for(sites@.skip(i as int), root@),
        decreases sites.len() - i,
    {
        let sc = path_components(sites[i].0.as_str());
        let ghost rest = sites@.skip(i as int);
        assert(rest[0] == sites@[i as int]);
        assert(rest.drop_first() =~= sites@.skip(i + 1));
        if same_components(&sc, &rc) {
            return Some(i);
        }
        i = i + 1;
    }
    assert(sites@.skip(i as int) =~= seq![]);
    None
}

fn pick_bool(new: Option<bool>, old: bool) -> (r: bool)
    ensures
        r == or_keep(new, old),
{
    match new {
        Some(b) => b,
        None => old,
    }
}

fn pick_text(new: &Option<String>, old: &Option<String>) -> (r: Option<String>)
    ensures
        opt_text(r) == or_keep_text(*new, opt_text(*old)),
{
    match new {
        Some(s) => Some(s.clone()),
        None => match old {
            Some(s) => Some(s.clone()),
            None => None,
        },
    }
}

/// The settings (`a`, `s`) that merging the user's settings file `cfg`
/// into (`a0`, `s0`) gives, where `site` is what the file says for the
/// project: what it says for all projects applies first, then what it says
/// for this one.
pub open spec fn merged_result(a0: MergedSettings, s0: Settings, cfg: SecureSettings, site: Option<SiteSettings>, a: MergedSettings, s: Settings) -> bool {
    match site {
        None => common_step(a0, s0, cfg, a, s),
        Some(st) => exists|a1: MergedSettings, s1: Settings| #[trigger] common_step(a0, s0, cfg, a1, s1) && site_step(a1, s1, st, a, s),
    }
}

/// Merges the user's settings file `cfg` into the settings (`ext`,
/// `settings`), for the project at `project_root`; the error where a
/// directory of the file could not be expanded.
pub fn merge_settings(ext: MergedSettings, settings: Settings, cfg: &SecureSettings, project_root: &str) -> (r: Result<(MergedSettings, Settings), String>)
    ensures
        match expand_error(*cfg) {
            Some(e) => r is Err && r->Err_0@ == e,
            None => {
                let site = site_for(cfg.site_settings@, project_root@);
                &&& r is Ok
                &&& r matches Ok((a, s)) && merged_result(ext, settings, *cfg, site, a, s)
            },
        },
{
    if let Some(Expanded::NoHome) = &cfg.storage_dir {
        return Err(String::from_str("Can't expand tilde `~` in storage dir no HOME found"));
    }
    if let Some(Expanded::NoHome) = &cfg.cache_dir {
        return Err(String::from_str("Can't expand tilde `~` in cache dir no HOME found"));
    }
    let ghost a0 = ext;
    let ghost s0 = settings;
    let (a1, s1) = apply_common(ext, settings, cfg);
    match find_site(&cfg.site_settings, project_root) {
        None => Ok((a1, s1)),
        Some(i) => {
            let ghost a1v = a1;
            let ghost s1v = s1;
            let (a2, s2) = apply_site(a1, s1, &cfg.site_settings[i].1);
            assert(common_step(a0, s0, *cfg, a1v, s1v));
            Ok((a2, s2))
        },
    }
}

fn common_flags_of(s: Settings, cfg: &SecureSettings) -> (r: Settings)
    ensures
        common_flags(s, *cfg, r),
{
    Settings {
        version_check: pick_bool(cfg.version_check, s.version_check),
        proxy_env_vars: pick_bool(cfg.proxy_env_vars, s.proxy_env_vars),
        ubuntu_mirror: pick_text(&cfg.ubuntu_mirror, &s.ubuntu_mirror),
        ubuntu_skip_locking: pick_bool(cfg.ubuntu_skip_locking, s.ubuntu_skip_locking),
        alpine_mirror: pick_text(&cfg.alpine_mirror, &s.alpine_mirror),
        uid_map: s.uid_map,
        push_image_script: pick_text(&cfg.push_image_script, &s.push_image_script),
        build_lock_wait: pick_bool(cfg.build_lock_wait, s.build_lock_wait),
        versioned_build_dir: pick_bool(cfg.versioned_build_dir, s.versioned_build_dir),
        auto_apply_sysctl: pick_bool(cfg.auto_apply_sysctl, s.auto_apply_sysctl),
        environ: s.environ,
        index_all_images: pick_bool(cfg.index_all_images, s.index_all_images),
        hard_link_identical_files: pick_bool(cfg.hard_link_identical_files, s.hard_link_identical_files),
        hard_link_between_projects: pick_bool(cfg.hard_link_between_projects, s.hard_link_between_projects),
        run_symlinks_as_commands: pick_bool(cfg.run_symlinks_as_commands, s.run_symlinks_as_commands),
        disable_auto_clean: pick_bool(cfg.disable_auto_clean, s.disable_auto_clean),
        storage_subdir_from_env_var: s.storage_subdir_from_env_var,
        docker_insecure_registries: s.docker_insecure_registries,
        docker_registry_aliases: s.docker_registry_aliases,
    }
}

fn apply_common_settings(s: Settings, cfg: &SecureSettings) -> (r: Settings)
    ensures
        opt_text(r.storage_subdir_from_env_var) == or_keep_text(cfg.storage_subdir_from_env_var, opt_text(s.storage_subdir_from_env_var)),
        r.environ@ == insert_all(s.environ@, text_entries(cfg.environ@)),
        r.docker_insecure_registries@ == s.docker_insecure_registries@.union(text_seq(cfg.docker_insecure_registries@).to_set()),
        r.docker_registry_aliases@ == insert_all(s.docker_registry_aliases@, text_entries(cfg.docker_registry_aliases@)),
        r.version_check == or_keep(cfg.version_check, s.version_check),
        r.proxy_env_vars == or_keep(cfg.proxy_env_vars, s.proxy_env_vars),
        opt_text(r.ubuntu_mirror) == or_keep_text(cfg.ubuntu_mirror, opt_text(s.ubuntu_mirror)),
        r.ubuntu_skip_locking == or_keep(cfg.ubuntu_skip_locking, s.ubuntu_skip_locking),
        r.versioned_build_dir == or_keep(cfg.versioned_build_dir, s.versioned_build_dir),
        opt_text(r.alpine_mirror) == or_keep_text(cfg.alpine_mirror, opt_text(s.alpine_mirror)),
        opt_text(r.push_image_script) == or_keep_text(cfg.push_image_script, opt_text(s.push_image_script)),
        r.build_lock_wait == or_keep(cfg.build_lock_wait, s.build_lock_wait),
        r.auto_apply_sysctl == or_keep(cfg.auto_apply_sysctl, s.auto_apply_sysctl),
        r.index_all_images == or_keep(cfg.index_all_images, s.index_all_images),
        r.hard_link_identical_files == or_keep(cfg.hard_link_identical_files, s.hard_link_identical_files),
        r.hard_link_between_projects == or_keep(cfg.hard_link_between_projects, s.hard_link_between_projects),
        r.run_symlinks_as_commands == or_keep(cfg.run_symlinks_as_commands, s.run_symlinks_as_commands),
        r.disable_auto_clean == or_keep(cfg.disable_auto_clean, s.disable_auto_clean),
        r.uid_map == s.uid_map,
{
    let s1 = common_flags_of(s, cfg);
    let Settings {
        version_check,
        proxy_env_vars,
        ubuntu_mirror,
        ubuntu_skip_locking,
        alpine_mirror,
        uid_map,
        push_image_script,
        build_lock_wait,
        versioned_build_dir,
        auto_apply_sysctl,
        environ,
        index_all_images,
        hard_link_identical_files,
        hard_link_between_projects,
        run_symlinks_as_commands,
        disable_auto_clean,
        storage_subdir_from_env_var,
        docker_insecure_registries,
        docker_registry_aliases,
    } = s1;
    let mut environ = environ;
    environ.extend(&cfg.environ);
    let mut docker_insecure_registries = docker_insecure_registries;
    docker_insecure_registries.extend(&cfg.docker_insecure_registries);
    let mut docker_registry_aliases = docker_registry_aliases;
    docker_registry_aliases.extend(&cfg.docker_registry_aliases);
    Settings {
        version_check,
        proxy_env_vars,
        ubuntu_mirror,
        ubuntu_skip_locking,
        alpine_mirror,
        uid_map,
        push_image_script,
        build_lock_wait,
        versioned_build_dir,
        auto_apply_sysctl,
        environ,
        index_all_images,
        hard_link_identical_files,
        hard_link_between_projects,
        run_symlinks_as_commands,
        disable_auto_clean,
        storage_subdir_from_env_var: pick_text(&cfg.storage_subdir_from_env_var, &storage_subdir_from_env_var),
        docker_insecure_registries,
        docker_registry_aliases,
    }
}

fn apply_common(a: MergedSettings, s: Settings, cfg: &SecureSettings) -> (r: (MergedSettings, Settings))
    ensures
        common_step(a, s, *cfg, r.0, r.1),
{
    let s1 = apply_common_settings(s, cfg);
    let MergedSettings {
        external_volumes,
        push_image_script,
        storage_dir,
        storage_subdir_from_env_var,
        cache_dir,
        shared_cache,
        disable_auto_clean,
        propagate_environ,
    } = a;
    let mut external_volumes = external_volumes;
    external_volumes.extend(&cfg.external_volumes);
    let mut propagate_environ = propagate_environ;
    propagate_environ.extend(&cfg.propagate_environ);
    let storage_dir = match &cfg.storage_dir {
        Some(Expanded::Path(dir)) => Some(dir.clone()),
        _ => storage_dir,
    };
    let (cache_dir, shared_cache) = match &cfg.cache_dir {
        Some(Expanded::Path(dir)) => (Some(dir.clone()), true),
        _ => (cache_dir, shared_cache),
    };
    let a1 = MergedSettings {
        external_volumes,
        push_image_script,
        storage_dir,
        storage_subdir_from_env_var: pick_text(&cfg.storage_subdir_from_env_var, &storage_subdir_from_env_var),
        cache_dir,
        shared_cache,
        disable_auto_clean,
        propagate_environ,
    };
    (a1, s1)
}

fn site_flags_of(s: Settings, site: &SiteSettings) -> (r: Settings)
    ensures
        site_flags(s, *site, r),
{
    Settings {
        version_check: pick_bool(site.version_check, s.version_check),
        proxy_env_vars: s.proxy_env_vars,
        ubuntu_mirror: pick_text(&site.ubuntu_mirror, &s.ubuntu_mirror),
        ubuntu_skip_locking: pick_bool(site.ubuntu_skip_locking, s.ubuntu_skip_locking),
        alpine_mirror: pick_text(&site.alpine_mirror, &s.alpine_mirror),
        uid_map: s.uid_map,
        push_image_script: pick_text(&site.push_image_script, &s.push_image_script),
        build_lock_wait: pick_bool(site.build_lock_wait, s.build_lock_wait),
        versioned_build_dir: pick_bool(site.versioned_build_dir, s.versioned_build_dir),
        auto_apply_sysctl: pick_bool(site.auto_apply_sysctl, s.auto_apply_sysctl),
        environ: s.environ,
        index_all_images: pick_bool(site.index_all_images, s.index_all_images),
        hard_link_identical_files: pick_bool(site.hard_link_identical_files, s.hard_link_identical_files),
        hard_link_between_projects: pick_bool(site.hard_link_between_projects, s.hard_link_between_projects),
        run_symlinks_as_commands: pick_bool(site.run_symlinks_as_commands, s.run_symlinks_as_commands),
        disable_auto_clean: pick_bool(site.disable_auto_clean, s.disable_auto_clean),
        storage_subdir_from_env_var: s.storage_subdir_from_env_var,
        docker_insecure_registries: s.docker_insecure_registries,
        docker_registry_aliases: s.docker_registry_aliases,
    }
}

fn apply_site(a: MergedSettings, s: Settings, site: &SiteSettings) -> (r: (MergedSettings, Settings))
    ensures
        site_step(a, s, *site, r.0, r.1),
{
    let mut s1 = site_flags_of(s, site);
    s1.storage_subdir_from_env_var = pick_text(&site.storage_subdir_from_env_var, &s1.storage_subdir_from_env_var);
    s1.environ.extend(&site.environ);
    let mut a1 = a;
    a1.storage_dir = pick_text(&site.storage_dir, &a1.storage_dir);
    a1.storage_subdir_from_env_var = pick_text(&site.storage_subdir_from_env_var, &a1.storage_subdir_from_env_var);
    if let Some(dir) = &site.cache_dir {
        a1.cache_dir = Some(dir.clone());
        a1.shared_cache = true;
    }
    a1.external_volumes.extend(&site.external_volumes);
    (a1, s1)
}

/// Applies the project's own settings file `cfg` to the settings (`ext`,
/// `settings`): it may change whether to check versions, the mirrors,
/// locking, the shared cache, waiting for the build lock, symlinked
/// commands, and the environment.
pub fn apply_insecure(ext: MergedSettings, settings: Settings, cfg: &InsecureSettings) -> (r: (MergedSettings, Settings))
    ensures
        r.1.version_check == or_keep(cfg.version_check, settings.version_check),
        opt_text(r.1.ubuntu_mirror) == or_keep_text(cfg.ubuntu_mirror, opt_text(settings.ubuntu_mirror)),
        r.1.ubuntu_skip_locking == or_keep(cfg.ubuntu_skip_locking, settings.ubuntu_skip_locking),
        opt_text(r.1.alpine_mirror) == or_keep_text(cfg.alpine_mirror, opt_text(settings.alpine_mirror)),
        r.0.shared_cache == or_keep(cfg.shared_cache, ext.shared_cache),
        r.1.build_lock_wait == or_keep(cfg.build_lock_wait, settings.build_lock_wait),
        r.1.run_symlinks_as_commands == or_keep(cfg.run_symlinks_as_commands, settings.run_symlinks_as_commands),
        r.1.environ@ == insert_all(settings.environ@, text_entries(cfg.environ@)),
        r.1.versioned_build_dir == settings.versioned_build_dir,
        r.1.disable_auto_clean == settings.disable_auto_clean,
        r.1.proxy_env_vars == settings.proxy_env_vars,
        r.1.push_image_script == settings.push_image_script,
        r.1.storage_subdir_from_env_var == settings.storage_subdir_from_env_var,
        r.1.docker_insecure_registries == settings.docker_insecure_registries,
        r.1.docker_registry_aliases == settings.docker_registry_aliases,
        r.0.storage_dir == ext.storage_dir,
        r.0.cache_dir == ext.cache_dir,
        r.0.external_volumes == ext.external_volumes,
        r.0.propagate_environ == ext.propagate_environ,
{
    let mut s1 = Settings {
        version_check: pick_bool(cfg.version_check, settings.version_check),
        proxy_env_vars: settings.proxy_env_vars,
        ubuntu_mirror: pick_text(&cfg.ubuntu_mirror, &settings.ubuntu_mirror),
        ubuntu_skip_locking: pick_bool(cfg.ubuntu_skip_locking, settings.ubuntu_skip_locking),
        alpine_mirror: pick_text(&cfg.alpine_mirror, &settings.alpine_mirror),
        uid_map: settings.uid_map,
        push_image_script: settings.push_image_script,
        build_lock_wait: pick_bool(cfg.build_lock_wait, settings.build_lock_wait),
        versioned_build_dir: settings.versioned_build_dir,
        auto_apply_sysctl: settings.auto_apply_sysctl,
        environ: settings.environ,
        index_all_images: settings.index_all_images,
        hard_link_identical_files: settings.hard_link_identical_files,
        hard_link_between_projects: settings.hard_link_between_projects,
        run_symlinks_as_commands: pick_bool(cfg.run_symlinks_as_commands, settings.run_symlinks_as_commands),
        disable_auto_clean: settings.disable_auto_clean,
        storage_subdir_from_env_var: settings.storage_subdir_from_env_var,
        docker_insecure_registries: settings.docker_insecure_registries,
        docker_registry_aliases: settings.docker_registry_aliases,
    };
    s1.environ.extend(&cfg.environ);
    let mut a1 = ext;
    a1.shared_cache = pick_bool(cfg.shared_cache, a1.shared_cache);
    (a1, s1)
}

} // verus!

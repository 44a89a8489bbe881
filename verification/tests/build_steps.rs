use vagga_core::context::{CacheMount, Context};
use vagga_core::copy::{CopyTracker, FileKind, Filter, DEFAULT_IGNORE_REGEX};
use vagga_core::dirs::{create_dir_error, ensuring, in_root, removal, EnsureDir, PathStat, Removal, Text};
use vagga_core::distrib::{BuildDeps, DistroBox, Install};
use vagga_core::packages::PackageSets;
use vagga_core::paths::{path_join, strip_root};
use vagga_core::steps::{cmd_candidates, find_cmd, Cmd, Env, RunAs, Sh, StepError};
use vagga_core::subcontainer::{container_image_dir, Build, BuildHash, Placement, Source, SubConfig};
use vagga_core::unzip::{is_whole_archive, missing_subdir_error, zip_entry, Download, Unzip, ZipEntry};
use vagga_core::ubuntu::configure_common;
use vagga_core::vcs::{git_cache_dir, git_checkout_args, git_clone_args, git_clone_dir, git_fetch_args, Git, GitInstall};

fn s(x: &str) -> String {
    x.to_string()
}

fn strings(v: &[&str]) -> Vec<String> {
    v.iter().map(|x| x.to_string()).collect()
}

#[test]
fn path_join_follows_pathbuf_push() {
    assert_eq!(path_join("/vagga/root", "etc"), "/vagga/root/etc");
    assert_eq!(path_join("/vagga/root/", "etc"), "/vagga/root/etc");
    assert_eq!(path_join("/work", "/abs"), "/abs");
    assert_eq!(path_join("", "rel"), "rel");
}

#[test]
fn strip_root_normalizes() {
    assert_eq!(strip_root("/usr//local/bin/"), Some(s("usr/local/bin")));
    assert_eq!(strip_root("/"), Some(s("")));
    assert_eq!(strip_root("usr/bin"), None);
}

#[test]
fn context_starts_with_base_environment() {
    let ctx = Context::new(s("app"), false, &vec![(s("http_proxy"), s("p"))]);
    assert_eq!(ctx.environ.get("TERM"), Some(s("dumb")));
    assert_eq!(ctx.environ.get("HOME"), Some(s("/tmp")));
    assert_eq!(ctx.environ.get("http_proxy"), None);
    assert!(ctx.ensure_dirs.contains("work"));
    assert!(ctx.empty_dirs.contains("var/tmp"));
    assert_eq!(ctx.binary_ident, "amd64");
}

#[test]
fn context_passes_proxy_variables_on_request() {
    let ctx = Context::new(s("app"), true, &vec![(s("http_proxy"), s("p")), (s("no_proxy"), s("x"))]);
    assert_eq!(ctx.environ.get("http_proxy"), Some(s("p")));
    assert_eq!(ctx.environ.get("no_proxy"), Some(s("x")));
}

#[test]
fn context_records_relative_paths() {
    let mut ctx = Context::new(s("app"), false, &vec![]);
    assert!(ctx.add_ensure_dir("/var/lib/app").is_ok());
    assert!(ctx.ensure_dirs.contains("var/lib/app"));
    assert!(ctx.add_remove_path("/var/cache").is_ok());
    assert!(ctx.remove_paths.contains("var/cache"));
    assert!(ctx.add_empty_dir("/run/app").is_ok());
    assert!(ctx.empty_dirs.contains("run/app"));
    assert_eq!(ctx.add_ensure_dir("relative").unwrap_err(), "ensure_dir must be absolute: \"relative\"");
    assert_eq!(ctx.add_remove_path("x").unwrap_err(), "remove path must be absolute: \"x\"");
    assert_eq!(ctx.add_empty_dir("y").unwrap_err(), "empty_dir must be absolute: \"y\"");
}

#[test]
fn cache_dir_is_mounted_once() {
    let mut ctx = Context::new(s("app"), false, &vec![]);
    let first = ctx.add_cache_dir("/root/.cache", s("pip")).unwrap();
    match first {
        Some(CacheMount { cache_dir, target }) => {
            assert_eq!(cache_dir, "/vagga/cache/pip");
            assert_eq!(target, "/vagga/root/root/.cache");
        },
        None => panic!("the first cache dir is mounted"),
    }
    assert!(ctx.add_cache_dir("/root/.cache", s("other")).unwrap().is_none());
    assert_eq!(ctx.cache_dirs.get("root/.cache"), Some(s("other")));
    assert_eq!(ctx.add_cache_dir("rel", s("n")).unwrap_err(), "cache_dir must be absolute: \"rel\"");
}

#[test]
fn sh_and_cmd_command_lines() {
    assert_eq!(Sh(s("make")).command(), strings(&["/bin/sh", "-exc", "make"]));
    assert_eq!(Cmd(strings(&["ls", "-l"])).command(), strings(&["ls", "-l"]));
}

#[test]
fn env_step_sets_variables_in_order() {
    let mut ctx = Context::new(s("app"), false, &vec![]);
    Env(vec![(s("A"), s("1")), (s("TERM"), s("xterm"))]).apply(&mut ctx);
    assert_eq!(ctx.environ.get("A"), Some(s("1")));
    assert_eq!(ctx.environ.get("TERM"), Some(s("xterm")));
}

#[test]
fn run_as_runner_arguments() {
    let r = RunAs {
        user_id: 1000,
        group_id: 100,
        supplementary_gids: vec![10, 20],
        external_user_id: Some(1),
        work_dir: s("src"),
        isolate_network: true,
        script: s("whoami"),
    };
    let plan = r.plan(false);
    assert_eq!(plan.args, strings(&[
        "__runner__", "run_as", "--work-dir", "/work/src",
        "--external-user-id", "1", "--user-id", "1000", "--group-id", "100",
        "--supplementary-gids", "10", "20", "--", "whoami",
    ]));
    assert!(plan.use_network && plan.create_network);
    assert!(!r.plan(true).create_network);
    let plain = RunAs {
        user_id: 0,
        group_id: 0,
        supplementary_gids: vec![],
        external_user_id: None,
        work_dir: s("/work"),
        isolate_network: false,
        script: s("id"),
    };
    assert_eq!(plain.plan(false).args, strings(&[
        "__runner__", "run_as", "--work-dir", "/work", "--user-id", "0", "--group-id", "0", "--", "id",
    ]));
}

#[test]
fn command_search_along_path() {
    let cands = cmd_candidates("/usr/bin:relative:/bin", "ls");
    assert_eq!(cands, vec![
        (s("/vagga/root/usr/bin/ls"), s("/usr/bin/ls")),
        (s("/vagga/root/bin/ls"), s("/bin/ls")),
    ]);
    assert_eq!(find_cmd(Some("/usr/bin:relative:/bin"), "ls", &vec![false, true]).unwrap(), "/bin/ls");
    match find_cmd(Some("/usr/bin"), "ls", &vec![false]) {
        Err(StepError::CommandNotFound(n, p)) => {
            assert_eq!(n, "ls");
            assert_eq!(p, "/usr/bin");
        },
        _ => panic!("the command is not found"),
    }
    match find_cmd(None, "ls", &vec![]) {
        Err(StepError::CommandNotFound(_, p)) => assert_eq!(p, "-- empty PATH --"),
        _ => panic!("no PATH"),
    }
}

#[test]
fn step_error_messages() {
    assert_eq!(StepError::NoDistro.message(), "this step requires some linux distribution to be active");
    assert_eq!(
        StepError::CommandNotFound(s("ls"), s("/bin")).message(),
        "command \"ls\" not found in one of \"/bin\"",
    );
    assert_eq!(
        StepError::DistroOverlap("Ubuntu", "Alpine").message(),
        "step initializes distribution \"Ubuntu\" but the \"Alpine\" is already initialized",
    );
    assert_eq!(
        StepError::UnsupportedFeatures(vec![
            vagga_core::packages::Package::Git,
            vagga_core::packages::Package::Npm,
        ]).message(),
        "current linux distribution does not support features: [Git, Npm]",
    );
}

#[test]
fn dirs_decisions() {
    assert_eq!(in_root("/etc/app").unwrap(), "/vagga/root/etc/app");
    assert_eq!(in_root("etc").unwrap_err(), "Must be absolute: \"etc\"");
    assert_eq!(removal("/x", PathStat::Dir).unwrap(), Removal::CleanDir);
    assert_eq!(removal("/x", PathStat::Other).unwrap(), Removal::RemoveFile);
    assert_eq!(removal("/x", PathStat::Missing).unwrap(), Removal::Nothing);
    assert_eq!(removal("/x", PathStat::Failed).unwrap_err(), "Cannot stat \"/x\"");
    assert_eq!(ensuring("/x", PathStat::Dir), Ok(false));
    assert_eq!(ensuring("/x", PathStat::Missing), Ok(true));
    assert_eq!(ensuring("/x", PathStat::Other).unwrap_err(), "Path \"/x\" exists but not a directory");
    assert_eq!(
        create_dir_error("/x", true, "e"),
        "Some intermediate path for \"/x\" exists but not a directory",
    );
    assert_eq!(create_dir_error("/x", false, "e"), "Error creating dir: e");
}

#[test]
fn ensure_dir_inside_volume_warns() {
    let d = EnsureDir(s("/var/lib/data"));
    let w = d.volume_warnings(&strings(&["/var/lib", "/var/lib/data", "/tmp"]));
    assert_eq!(w, vec![s(
        "\"/var/lib/data\" directory is in the volume: \"/var/lib\".\n\t\"/var/lib/data\" will be unaccessible inside the container.",
    )]);
}

#[test]
fn text_files_below_root() {
    let t = Text(vec![(s("/etc/motd"), s("hi"))]);
    assert_eq!(t.files(), vec![(s("/vagga/root/etc/motd"), s("hi"))]);
}

#[test]
fn git_commands() {
    assert_eq!(git_cache_dir("https://github.com/a/b"), "/vagga/cache/git/https:%2F%2Fgithub.com%2Fa%2Fb");
    assert_eq!(git_cache_dir("a%b"), "/vagga/cache/git/a%25b");
    assert_eq!(git_clone_dir("x/y"), "/vagga/cache/git/.tmp.x%2Fy");
    assert_eq!(git_fetch_args("/c"), strings(&["-C", "/c", "fetch"]));
    assert_eq!(git_clone_args("u", "/t"), strings(&["clone", "--bare", "u", "/t"]));
    assert_eq!(
        git_checkout_args("/c", "/d", &Some(s("v1")), &Some(s("main"))),
        strings(&["--git-dir", "/c", "--work-tree", "/d", "reset", "--hard", "v1"]),
    );
    assert_eq!(
        git_checkout_args("/c", "/d", &None, &Some(s("main"))),
        strings(&["--git-dir", "/c", "--work-tree", "/d", "reset", "--hard", "main"]),
    );
    assert_eq!(
        git_checkout_args("/c", "/d", &None, &None),
        strings(&["--git-dir", "/c", "--work-tree", "/d", "reset", "--hard"]),
    );
    let g = Git { url: s("u"), revision: None, branch: None, path: s("/opt/src") };
    assert_eq!(g.dest(), "/vagga/root/opt/src");
    let gi = GitInstall { url: s("r/x"), revision: None, branch: None, subdir: s("."), script: s("make") };
    assert_eq!(gi.checkout_dir(), "/vagga/root/tmp/r%2Fx");
    assert_eq!(gi.work_dir(), "/tmp/r%2Fx/.");
    assert_eq!(gi.script_command(), strings(&["/bin/sh", "-exc", "make"]));
}

#[test]
fn subcontainer_paths() {
    assert_eq!(container_image_dir("base", "abc"), "/vagga/base/.roots/base.abc");
    let b = Build {
        container: s("base"),
        source: s("/usr/lib"),
        path: Some(s("/opt/lib")),
        temporary_mount: None,
        content_hash: true,
        rules: vec![],
    };
    assert_eq!(b.source_dir("/img"), "/img/root/usr/lib");
    match b.placement("/img") {
        Placement::Copy { src, dest } => {
            assert_eq!(src, "/img/root/usr/lib");
            assert_eq!(dest, "/vagga/root/opt/lib");
        },
        _ => panic!("a path copies"),
    }
    assert_eq!(b.hashing(), BuildHash::Content);
    assert_eq!(b.is_dependent_on(), Some("base"));
    let m = Build { path: None, temporary_mount: Some(s("/mnt")), content_hash: false, ..b };
    assert!(matches!(m.placement("/img"), Placement::Mount { .. }));
    assert_eq!(m.hashing(), BuildHash::Setup);
    let sc = SubConfig { source: Source::Directory, path: s("vagga.yaml"), container: s("c"), cache: None };
    assert_eq!(sc.config_path(None), "/work/vagga.yaml");
    assert_eq!(sc.is_dependent_on(), None);
    let sc2 = SubConfig { source: Source::Container(s("x")), path: s("vagga.yaml"), container: s("c"), cache: None };
    assert_eq!(sc2.config_path(Some("/img")), "/img/root/vagga.yaml");
    assert_eq!(sc2.is_dependent_on(), Some("x"));
}

#[test]
fn copy_modes() {
    let c = vagga_core::copy::Copy {
        source: s("/work/src"),
        path: s("/app"),
        owner_uid: None,
        owner_gid: None,
        umask: 0o002,
        preserve_permissions: false,
        ignore_regex: s(DEFAULT_IGNORE_REGEX),
        include_regex: None,
    };
    assert_eq!(c.calc_mode(FileKind::Dir, 0o700), Some(0o775));
    assert_eq!(c.calc_mode(FileKind::File, 0o744), Some(0o775));
    assert_eq!(c.calc_mode(FileKind::File, 0o644), Some(0o664));
    assert_eq!(c.calc_mode(FileKind::Symlink, 0o777), None);
    assert!(c.source_in_work());
    let p = vagga_core::copy::Copy { preserve_permissions: true, source: s("/etc"), ..c };
    assert_eq!(p.calc_mode(FileKind::File, 0o600), Some(0o600));
    assert!(!p.source_in_work());
}

#[test]
fn copy_filter_defaults() {
    let f = Filter::new(&s(DEFAULT_IGNORE_REGEX), &None).unwrap();
    assert!(f.is_match("src/main.rs"));
    assert!(!f.is_match(".git/config"));
    assert!(!f.is_match("notes.txt~"));
    assert!(!f.is_match("a.bak"));
    let g = Filter::new(&s(DEFAULT_IGNORE_REGEX), &Some(s(r"\.rs$"))).unwrap();
    assert!(g.is_match("src/main.rs"));
    assert!(!g.is_match("README"));
    assert!(Filter::new(&s("("), &None).is_err());
}

#[test]
fn copy_tracker_copies_parents_first() {
    let mut t = CopyTracker::new();
    let first = t.next(&strings(&["a", "b", "c"]));
    assert_eq!(first, vec![strings(&["a"]), strings(&["a", "b"]), strings(&["a", "b", "c"])]);
    let second = t.next(&strings(&["a", "b", "d"]));
    assert_eq!(second, vec![strings(&["a", "b", "d"])]);
    assert!(t.next(&strings(&["a"])).is_empty());
}

#[test]
fn packaging_steps_record_packages() {
    let mut sets = PackageSets { packages: vec![], build_deps: strings(&["gcc"]) };
    Install(strings(&["gcc", "curl"])).record(&mut sets);
    assert!(sets.packages.contains(&s("gcc")) && sets.packages.contains(&s("curl")));
    assert!(!sets.build_deps.contains(&s("gcc")));
    BuildDeps(strings(&["curl", "make"])).record(&mut sets);
    assert!(sets.build_deps.contains(&s("make")));
    assert!(!sets.build_deps.contains(&s("curl")));
}

#[test]
fn distro_box_is_set_once() {
    let mut d = DistroBox::Unknown;
    assert_eq!(d.name(), "unknown");
    assert!(matches!(d.expect_some(), Err(StepError::NoDistro)));
    let alpine = vagga_core::alpine::Distro {
        version: s("v3.4"),
        mirror: s("http://m/"),
        base_setup: false,
        apk_update: true,
    };
    assert!(d.set(DistroBox::Alpine(alpine)).is_ok());
    assert_eq!(d.name(), "Alpine");
    assert!(d.expect_alpine().is_ok());
    match d.expect_ubuntu() {
        Err(StepError::WrongDistro(a, b)) => {
            assert_eq!(a, "ubuntu");
            assert_eq!(b, "Alpine");
        },
        _ => panic!("wrong distribution"),
    }
    let again = vagga_core::alpine::Distro {
        version: s("v3.5"),
        mirror: s("http://m/"),
        base_setup: false,
        apk_update: true,
    };
    match d.set(DistroBox::Alpine(again)) {
        Err(StepError::DistroOverlap(a, b)) => {
            assert_eq!(a, "Alpine");
            assert_eq!(b, "Alpine");
        },
        _ => panic!("overlap"),
    }
}

#[test]
fn unzip_entries() {
    assert!(is_whole_archive(""));
    assert!(is_whole_archive("."));
    assert!(!is_whole_archive("sub"));
    assert!(matches!(zip_entry("/dst", "", "a/b.txt"), ZipEntry::File(p) if p == "/dst/a/b.txt"));
    assert!(matches!(zip_entry("/dst", "", "a/"), ZipEntry::Dir(p) if p == "/dst/a/"));
    assert!(matches!(zip_entry("/dst", "pkg", "pkg/x/y"), ZipEntry::File(p) if p == "/dst/x/y"));
    assert!(matches!(zip_entry("/dst", "pkg", "other/x"), ZipEntry::Skip));
    assert_eq!(missing_subdir_error("pkg"), "\"pkg\" is not found in archive");
    let u = Unzip { url: s("u"), sha256: None, path: s("/opt"), subdir: s("") };
    assert_eq!(u.target_dir(), "/vagga/root/opt");
    let d = Download { url: s("u"), path: s("/usr/bin/tool"), mode: 0o755, sha256: None };
    assert_eq!(d.target(), "/vagga/root/usr/bin/tool");
}

#[test]
fn ubuntu_build_caches_packages_and_sets_environment() {
    let mut ctx = Context::new(s("app"), false, &vec![]);
    let mount = configure_common(&mut ctx).unwrap().unwrap();
    assert_eq!(mount.cache_dir, "/vagga/cache/apt-cache");
    assert_eq!(mount.target, "/vagga/root/var/cache/apt");
    assert_eq!(ctx.environ.get("DEBIAN_FRONTEND"), Some(s("noninteractive")));
    assert_eq!(ctx.environ.get("LANG"), Some(s("en_US.UTF-8")));
    assert!(ctx.environ.get("PATH").unwrap().ends_with("/usr/games:/usr/local/games"));
    assert!(configure_common(&mut ctx).unwrap().is_none());
}

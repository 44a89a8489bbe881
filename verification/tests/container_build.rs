use vagga_core::fetch::FetchTask;
use vagga_core::container_build::{
    add_build_environ, builder_cache_dir, builder_path, format_ranges, image_dirs_in, root_dirs, short_hash,
    ScriptContainer, VersionPiece,
};

fn s(x: &str) -> String {
    x.to_string()
}

fn pair(k: &str, v: &str) -> (String, String) {
    (s(k), s(v))
}

fn container() -> ScriptContainer {
    ScriptContainer {
        name: s("devel"),
        fullname: s("devel-py"),
        builder: s("debian"),
        parameters: vec![pair("packages", "python"), pair("suite", "sid")],
        uids: vec![(0, 999), (1000, 65535)],
        gids: vec![],
        provision: Some(s("make install")),
        shell: vec![s("/bin/sh"), s("-c")],
    }
}

#[test]
fn builder_gets_names_caller_environment_and_parameters() {
    let c = container();
    let env = c.builder_environ("/bin", "/p/.vagga/.cache/debian", "/p", &vec![pair("USER", "me")]);
    assert_eq!(env, vec![
        pair("HOME", "/homeless-shelter"),
        pair("PATH", "/bin"),
        pair("container_name", "devel"),
        pair("container_fullname", "devel-py"),
        pair("cache_dir", "/p/.vagga/.cache/debian"),
        pair("project_root", "/p"),
        pair("CALLER_USER", "me"),
        pair("debian_packages", "python"),
        pair("debian_suite", "sid"),
    ]);
    assert_eq!(builder_path(&None), "/sbin:/bin:/usr/sbin:/usr/bin:/usr/local/bin:/usr/local/sbin");
    assert_eq!(builder_path(&Some(s("/x"))), "/x");
    assert_eq!(builder_cache_dir("/p/.vagga", "debian"), "/p/.vagga/.cache/debian");
}

#[test]
fn primitive_version_lists_parameters() {
    assert_eq!(container().primitive_version(), "debian:packages=python;suite=sid;");
}

#[test]
fn version_pieces_follow_script_ranges_and_provision() {
    let c = container();
    let shown: Vec<String> = c.version_pieces(false).iter().map(|p| format!("{:?}", p)).collect();
    assert_eq!(shown, vec![
        r#"Text("debian:packages=python;suite=sid;")"#,
        r#"Text("uids:")"#,
        "Number(0)",
        "Number(999)",
        "Number(1000)",
        "Number(65535)",
        r#"Text("make install")"#,
    ]);
    let with_script = c.version_pieces(true);
    assert!(matches!(with_script[2], VersionPiece::ScriptOutput));
    assert_eq!(with_script.len(), 9);
}

#[test]
fn builder_runs_in_user_namespace() {
    let c = container();
    assert_eq!(format_ranges(&c.uids), "0-999,1000-65535");
    assert_eq!(c.build_args("/b/build.sh"), vec![
        s("_userns"), s("--uid-ranges"), s("0-999,1000-65535"), s("/b/build.sh"),
    ]);
    assert_eq!(c.provision_args("/r.tmp", "make install"), vec![
        s("_chroot"), s("--writeable"), s("--inventory"), s("--force-user-namespace"),
        s("--uid-ranges"), s("0-999,1000-65535"), s("/r.tmp"), s("/bin/sh"), s("-c"), s("make install"),
    ]);
}

#[test]
fn build_directories_and_environment() {
    let d = root_dirs("/p/.vagga", "devel-py", "abcdef1");
    assert_eq!(d.root, "/p/.vagga/.roots/devel-py.abcdef1");
    assert_eq!(d.tmp, "/p/.vagga/.roots/devel-py.abcdef1.tmp");
    assert_eq!(d.artifacts, "/p/.vagga/.artifacts/devel-py.abcdef1");
    assert_eq!(d.old, "/p/.vagga/.roots/devel-py.abcdef1.old");
    let mut env = vec![pair("HOME", "/homeless-shelter")];
    add_build_environ(&mut env, "/usr/bin/vagga", "/inv", &d, "abcdef1", &Some(s("debug")));
    assert_eq!(env[1..].to_vec(), vec![
        pair("vagga_exe", "/usr/bin/vagga"),
        pair("vagga_inventory", "/inv"),
        pair("artifacts_dir", "/p/.vagga/.artifacts/devel-py.abcdef1"),
        pair("container_hash", "abcdef1"),
        pair("container_root", "/p/.vagga/.roots/devel-py.abcdef1.tmp"),
        pair("VAGGA_IN_BUILD", "1"),
        pair("RUST_LOG", "debug"),
    ]);
    assert_eq!(short_hash("abcdef1234"), "abcdef1");
    assert_eq!(image_dirs_in("/r")[5], "/r/etc");
}

#[test]
fn fetch_task_names_cached_file_by_hash_and_url_path() {
    let t = FetchTask::cache("https://example.com/files/pkg.tar.gz?x=1", &Some(s("0123456789abcdef")));
    assert_eq!(t.destination, "/vagga/cache/downloads/01234567-pkg.tar.gz");
    assert_eq!(t.url, "https://example.com/files/pkg.tar.gz?x=1");
    let u = FetchTask::cache("https://example.com/", &None);
    assert!(u.destination.starts_with("/vagga/cache/downloads/"));
    assert!(u.destination.ends_with("-file.bin"));
    assert_eq!(u.destination.len(), "/vagga/cache/downloads/".len() + 8 + "-file.bin".len());
    assert!(FetchTask::try_cache("not a url", &None).is_none());
    assert!(FetchTask::try_cache("http://h/a.zip", &None).is_some());
}

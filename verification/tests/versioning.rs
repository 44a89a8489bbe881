use vagga_core::assoc::TextMap;
use vagga_core::composer::{composer_setup_args, composer_update_args, ComposerDependencies, LockPackages};
use vagga_core::copy::{Depends, FileEntry, FileKind};
use vagga_core::gem::{gem_cache_dir, gem_version_text, no_doc_args, GemBundle};
use vagga_core::npm::{JsonVersion, NpmConfig, NpmDependencies, PackageJson, Section, YarnDependencies};
use vagga_core::pip::hash_requirement;
use vagga_core::steps::{Env, RunAs, Sh};
use vagga_core::subcontainer::{Build, Container};
use vagga_core::unzip::Download;
use vagga_core::versioning::{SetupHash, VersionHash};

fn s(x: &str) -> String {
    x.to_string()
}

fn shown(h: VersionHash) -> Vec<String> {
    h.into_items().iter().map(|i| format!("{:?}", i)).collect()
}

#[test]
fn script_versions_shell_step() {
    let mut h = VersionHash::new();
    Sh(s("echo hi")).hash(&mut h);
    assert_eq!(shown(h), vec![r#"Field("script", Text("echo hi"))"#]);
}

#[test]
fn checksum_replaces_url_in_download_version() {
    let mut with_sum = VersionHash::new();
    Download { url: s("http://x/a"), path: s("/a"), mode: 0o644, sha256: Some(s("abc")) }.hash(&mut with_sum);
    assert_eq!(shown(with_sum), vec![
        r#"Field("hash", Text("abc"))"#,
        r#"Field("path", Text("/a"))"#,
        r#"Field("mode", Number(420))"#,
    ]);
    let mut no_sum = VersionHash::new();
    Download { url: s("http://x/a"), path: s("/a"), mode: 0o644, sha256: None }.hash(&mut no_sum);
    assert_eq!(shown(no_sum)[0], r#"Field("url", Text("http://x/a"))"#);
}

#[test]
fn env_versions_each_pair() {
    let mut h = VersionHash::new();
    Env(vec![(s("A"), s("1")), (s("B"), s("2"))]).hash(&mut h);
    assert_eq!(shown(h), vec![
        r#"Field("key", Text("A"))"#,
        r#"Field("value", Text("1"))"#,
        r#"Field("key", Text("B"))"#,
        r#"Field("value", Text("2"))"#,
    ]);
}

#[test]
fn run_as_versions_user_and_script() {
    let mut h = VersionHash::new();
    RunAs {
        user_id: 1,
        group_id: 2,
        supplementary_gids: vec![3],
        external_user_id: None,
        work_dir: s("w"),
        isolate_network: true,
        script: s("ls"),
    }.hash(&mut h);
    let items = shown(h);
    assert_eq!(items.len(), 7);
    assert_eq!(items[2], r#"OptField("external_user_id", None)"#);
    assert_eq!(items[3], r#"Field("supplementary_gids", Numbers([3]))"#);
}

#[test]
fn npm_config_versions_only_changed_yarn_settings() {
    let mut h = VersionHash::new();
    NpmConfig {
        install_node: true,
        install_yarn: true,
        npm_exe: s("npm"),
        yarn_exe: s("yarn"),
        yarn_version: None,
    }.hash(&mut h);
    assert_eq!(shown(h), vec![
        r#"Field("npm_exe", Text("npm"))"#,
        r#"Field("install_node", Flag(true))"#,
        r#"OptField("yarn_version", None)"#,
    ]);
    let mut h = VersionHash::new();
    NpmConfig {
        install_node: false,
        install_yarn: false,
        npm_exe: s("npm"),
        yarn_exe: s("/usr/bin/yarn"),
        yarn_version: Some(s("1.0")),
    }.hash(&mut h);
    assert_eq!(shown(h).len(), 5);
}

fn package_json() -> PackageJson {
    PackageJson {
        sections: vec![
            (s("dependencies"), Section::Entries(vec![
                (s("a"), JsonVersion::Text(s("^1.0"))),
                (s("b"), JsonVersion::Other(s("true"))),
            ])),
            (s("devDependencies"), Section::Entries(vec![(s("c"), JsonVersion::Text(s("2")))])),
        ],
    }
}

#[test]
fn npm_dependencies_version_chosen_sections() {
    let step = NpmDependencies {
        file: s("package.json"),
        package: true,
        dev: false,
        peer: false,
        bundled: false,
        optional: false,
    };
    assert_eq!(step.package_file(), "/work/package.json");
    let mut h = VersionHash::new();
    step.hash(&mut h, &package_json());
    assert_eq!(shown(h), vec![r#"Field("a", Text("^1.0"))"#, r#"Field("b", Text("*"))"#]);
}

#[test]
fn yarn_dependencies_need_covering_lock_file() {
    let step = YarnDependencies { dir: s("app"), production: true, optional: false };
    let (lock, pkg) = step.files();
    assert_eq!(lock, "/work/app/yarn.lock");
    assert_eq!(pkg, "/work/app/package.json");
    let pj = package_json();
    let mut h = VersionHash::new();
    assert!(!step.hash(&mut h, None));
    let partial = vec![s("c@2")];
    let mut h = VersionHash::new();
    assert!(!step.hash(&mut h, Some((&pj, &partial))));
    let full = vec![s("a@^1.0")];
    let mut h = VersionHash::new();
    assert!(step.hash(&mut h, Some((&pj, &full))));
    assert_eq!(shown(h), vec![
        r#"Field("production", Flag(true))"#,
        r#"Field("a", Text("^1.0"))"#,
        r#"Field("b", Text("*"))"#,
        r#"File("/work/app/yarn.lock")"#,
    ]);
}

#[test]
fn gemfile_lines_version_bundle() {
    let step = GemBundle { gemfile: s("Gemfile"), without: vec![], trust_policy: None };
    assert_eq!(step.lock_path(), Some(s("/work/Gemfile.lock")));
    let mut h = VersionHash::new();
    let text = "source 'https://rubygems.org'\n\n  # comment\n  gem 'rails'  \n";
    assert!(step.hash(&mut h, true, text).is_ok());
    assert_eq!(shown(h), vec![
        r#"Field("gemfile", Text("Gemfile"))"#,
        r#"File("/work/Gemfile")"#,
        r#"Field("line", Text("source 'https://rubygems.org'"))"#,
        r#"Field("line", Text("gem 'rails'"))"#,
    ]);
    let root = GemBundle { gemfile: s("/"), without: vec![], trust_policy: None };
    assert_eq!(root.lock_path(), None);
    let mut h = VersionHash::new();
    assert_eq!(root.hash(&mut h, false, ""), Err(s("Gemfile should be under /work")));
}

#[test]
fn depends_versions_executable_bit_and_contents() {
    let files = vec![
        FileEntry { path: s("/work/d"), kind: FileKind::Dir, regular: false, mode: 0o755, uid: 0, gid: 0, link: s("") },
        FileEntry { path: s("/work/d/x"), kind: FileKind::File, regular: true, mode: 0o755, uid: 0, gid: 0, link: s("") },
        FileEntry { path: s("/work/d/l"), kind: FileKind::Symlink, regular: false, mode: 0o777, uid: 0, gid: 0, link: s("x") },
    ];
    let step = Depends { path: s("d"), ignore_regex: s(""), include_regex: None };
    let mut h = VersionHash::new();
    assert!(step.hash(&mut h, &Some(files)));
    assert_eq!(shown(h), vec![
        r#"Field("filename", Text("/work/d"))"#,
        r#"Field("filename", Text("/work/d/x"))"#,
        r#"Bool("is_executable", true)"#,
        r#"Stream("/work/d/x")"#,
        r#"Field("filename", Text("/work/d/l"))"#,
        r#"Input("x")"#,
    ]);
    let mut h = VersionHash::new();
    assert!(!step.hash(&mut h, &None));
}

#[test]
fn copy_from_outside_work_versions_settings() {
    let step = vagga_core::copy::Copy {
        source: s("/usr/lib"),
        path: s("/lib2"),
        owner_uid: Some(1000),
        owner_gid: None,
        umask: 0o022,
        preserve_permissions: false,
        ignore_regex: s(""),
        include_regex: None,
    };
    let mut h = VersionHash::new();
    assert!(step.hash(&mut h, &None));
    assert_eq!(shown(h), vec![
        r#"Field("source", Text("/usr/lib"))"#,
        r#"Field("path", Text("/lib2"))"#,
        r#"Field("owner_uid", Text("1000"))"#,
        r#"Field("umask", Text("18"))"#,
        r#"Bool("preserve_permissions", false)"#,
    ]);
}

#[test]
fn composer_lock_without_packages_is_an_error() {
    let step = ComposerDependencies {
        working_dir: Some(s("php")),
        dev: true,
        prefer: None,
        ignore_platform_reqs: false,
        no_autoloader: false,
        no_scripts: false,
        no_plugins: false,
        optimize_autoloader: false,
        classmap_authoritative: false,
    };
    let (lock, json) = step.files();
    assert_eq!(lock, "/work/php/composer.lock");
    assert_eq!(json, "/work/php/composer.json");
    let mut data = TextMap::new();
    data.insert(s("require"), s(r#"{"php":">=7"}"#));
    data.insert(s("autoload-dev"), s("{}"));
    let mut h = VersionHash::new();
    assert_eq!(
        step.hash(&mut h, &Some(LockPackages::Missing), &data),
        Err(s("Missing 'packages' property from composer.lock"))
    );
    let mut h = VersionHash::new();
    assert_eq!(
        step.hash(&mut h, &Some(LockPackages::NotArray), &data),
        Err(s("'packages' property is not an array"))
    );
    let mut h = VersionHash::new();
    assert!(step.hash(&mut h, &None, &data).is_ok());
    let items = shown(h);
    assert_eq!(items.len(), 9);
    assert_eq!(items[0], r#"Field("require", Json("{\"php\":\">=7\"}"))"#);
    assert_eq!(items[1], r#"Field("conflict", Json("null"))"#);
    assert_eq!(items[8], r#"Field("require-dev", Json("{}"))"#);
}

#[test]
fn requirement_includes_are_not_items() {
    let mut h = VersionHash::new();
    assert_eq!(hash_requirement(&mut h, "-r other.txt"), Some(s("other.txt")));
    assert_eq!(hash_requirement(&mut h, "flask==1.0"), None);
    assert_eq!(shown(h), vec![r#"Item("flask==1.0")"#]);
}

#[test]
fn container_versioned_by_setup_of_its_base() {
    let setup = vec![SetupHash {
        name: s("Sh"),
        items: {
            let mut h = VersionHash::new();
            Sh(s("x")).hash(&mut h);
            h.into_items()
        },
    }];
    let mut h = VersionHash::new();
    assert!(Container(s("base")).hash(&mut h, Some(&setup)).is_ok());
    assert_eq!(shown(h), vec![r#"Command("Sh")"#, r#"Field("script", Text("x"))"#]);
    let mut h = VersionHash::new();
    assert_eq!(Container(s("base")).hash(&mut h, None), Err(s(r#"container "base" not found"#)));
    let b = Build {
        container: s("base"),
        source: s("/src"),
        path: None,
        temporary_mount: None,
        content_hash: false,
        rules: vec![],
    };
    let mut h = VersionHash::new();
    assert_eq!(b.hash(&mut h, None, true, &None), Err(s("Container base not found")));
}

#[test]
fn depends_ignores_mode_bits_but_execute() {
    let a = FileEntry { path: s("/work/f"), kind: FileKind::File, regular: true, mode: 0o755, uid: 1, gid: 1, link: s("") };
    let b = FileEntry { path: s("/work/f"), kind: FileKind::File, regular: true, mode: 0o700, uid: 2, gid: 3, link: s("") };
    let mut ha = VersionHash::new();
    Depends::hash_entry(&mut ha, &a);
    let mut hb = VersionHash::new();
    Depends::hash_entry(&mut hb, &b);
    assert_eq!(shown(ha), shown(hb));
}

#[test]
fn gem_helpers() {
    assert_eq!(gem_version_text("2.7.6\n"), Ok(s("2.7")));
    assert_eq!(gem_version_text("unknown"), Err(s("Gem version was not found")));
    assert_eq!(no_doc_args(true, true), vec![s("--no-document")]);
    assert_eq!(no_doc_args(false, true), vec![s("--no-rdoc"), s("--no-ri")]);
    assert_eq!(no_doc_args(false, false), vec![s("--no-document")]);
    assert_eq!(gem_cache_dir("/var/lib/gems/2.7.0\n"), "/var/lib/gems/2.7.0/cache");
}

#[test]
fn composer_self_install_args() {
    assert_eq!(composer_setup_args("/usr/bin/php"), vec![
        s("/usr/bin/php"), s("/tmp/composer-setup.php"), s("--install-dir=/tmp/composer-self-cache"),
    ]);
    assert_eq!(composer_update_args("php"), vec![
        s("php"), s("/tmp/composer-self-cache/composer.phar"), s("self-update"), s("--clean-backups"),
    ]);
}

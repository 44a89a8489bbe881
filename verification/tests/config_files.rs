use vagga_core::builders::{command_label, CommandName, NameVisitor, StepVisitor};
use vagga_core::config_files::{
    config_probes, config_search_dirs, default_ranges, find_config_path, join_path_checked, merge_absent,
    not_found_error,
};
use vagga_core::debian::{
    add_debian_repo, apt_install, apt_remove, ensure_packages, fetch_ubuntu_core, finish, init_ubuntu_core,
    ubuntu_add_universe, first_failure, BuildType, LegacyDistro, UbuntuInfo,
};
use vagga_core::packages::{Package, PackageSets};
use vagga_core::range::Range;
use vagga_core::settings::{
    apply_insecure, default_settings, merge_settings, Expanded, InsecureSettings, SecureSettings, SiteSettings,
};
use vagga_core::validate::{validate_config, validate_container};

fn s(x: &str) -> String {
    x.to_string()
}

fn strings(v: &[&str]) -> Vec<String> {
    v.iter().map(|x| x.to_string()).collect()
}

#[test]
fn search_goes_up_to_the_root() {
    assert_eq!(config_search_dirs("/home/u/proj"), strings(&["/home/u/proj", "/home/u", "/home", "/"]));
    assert_eq!(config_search_dirs("/"), strings(&["/"]));
    assert_eq!(
        config_probes("/p"),
        strings(&["/p/.vagga/vagga.yaml", "/p/vagga.yaml", "/p/vagga.local.yaml", "/p/.vagga.local.yaml", "/p/.vagga/local.yaml"]),
    );
    assert_eq!(config_probes("/")[1], "/vagga.yaml");
}

#[test]
fn first_directory_with_a_configuration_wins() {
    let none = vec![false; 5];
    let mut plain = vec![false; 5];
    plain[1] = true;
    let mut dotted = vec![false; 5];
    dotted[0] = true;
    dotted[1] = true;
    let mut mixin = vec![false; 5];
    mixin[3] = true;
    assert_eq!(
        find_config_path("/a/b", &vec![none.clone(), plain.clone(), none.clone()]),
        Some((s("/a"), Some(s("/a/vagga.yaml")))),
    );
    assert_eq!(
        find_config_path("/a/b", &vec![dotted.clone(), plain.clone(), none.clone()]),
        Some((s("/a/b"), Some(s("/a/b/.vagga/vagga.yaml")))),
    );
    assert_eq!(find_config_path("/a/b", &vec![mixin, plain, none.clone()]), Some((s("/a/b"), None)));
    assert_eq!(find_config_path("/a/b", &vec![none.clone(), none.clone(), none]), None);
    assert_eq!(not_found_error("/a/b"), "Config not found in path \"/a/b\"");
}

#[test]
fn included_files_are_plain_relative_paths() {
    assert_eq!(join_path_checked("/p/vagga.yaml", "inc/more.yaml").unwrap(), "/p/inc/more.yaml");
    assert_eq!(join_path_checked("/p/vagga.yaml", "./x.yaml").unwrap_err(),
        "Only relative paths without parent directories can be included");
    assert!(join_path_checked("/p/vagga.yaml", "../x.yaml").is_err());
    assert!(join_path_checked("/p/vagga.yaml", "/etc/x.yaml").is_err());
}

#[test]
fn empty_ranges_get_all_ids() {
    let mut v: Vec<Range> = vec![];
    default_ranges(&mut v);
    assert_eq!(v.len(), 1);
    assert_eq!(v[0].start(), 0);
    assert_eq!(v[0].end(), 65536);
    let mut w = vec![Range::new(1, 2)];
    default_ranges(&mut w);
    assert_eq!(w.len(), 1);
    assert_eq!(w[0].start(), 1);
}

#[test]
fn mixins_never_replace_entries() {
    let mut dest = vec![(s("app"), 1), (s("db"), 2)];
    merge_absent(&mut dest, vec![(s("db"), 20), (s("cache"), 3), (s("cache"), 30)]);
    assert_eq!(dest, vec![(s("app"), 1), (s("db"), 2), (s("cache"), 3)]);
}

#[test]
fn dependency_cycles_are_found() {
    let g = vec![
        (s("a"), strings(&["b"])),
        (s("b"), strings(&["c"])),
        (s("c"), strings(&[])),
    ];
    assert_eq!(validate_config(&g), Some(Ok(())));
    let cyc = vec![(s("a"), strings(&["b"])), (s("b"), strings(&["a"]))];
    assert_eq!(
        validate_container(&cyc, "a", &strings(&["b"])),
        Some(Err(s("Container \"a\" has cyclic dependency"))),
    );
    let missing = vec![(s("a"), strings(&["x"]))];
    assert_eq!(
        validate_config(&missing),
        Some(Err(s("Container \"x\" referenced from \"a\" is not found"))),
    );
    let endless = vec![(s("a"), strings(&["b"])), (s("b"), strings(&["c"])), (s("c"), strings(&["b"]))];
    assert_eq!(validate_container(&endless, "a", &strings(&["b"])), None);
}

#[test]
fn build_step_names() {
    let v = NameVisitor;
    assert_eq!(v.visit_str("Sh"), Ok(CommandName::Sh));
    assert_eq!(v.visit_str("ComposerConfig"), Ok(CommandName::ComposerConfig));
    assert_eq!(v.visit_str("Nope"), Err("invalid build step"));
    assert_eq!(v.visit_str(command_label(CommandName::GitDescribe)), Ok(CommandName::GitDescribe));
    let e = StepVisitor.expecting();
    assert!(e.starts_with("build step is one of Alpine, AlpineRepo, Ubuntu, UbuntuRepo, "));
    assert!(e.ends_with("ComposerInstall, ComposerDependencies, ComposerConfig"));
    assert_eq!(e, v.expecting());
}

#[test]
fn legacy_ubuntu_core_urls() {
    assert_eq!(
        fetch_ubuntu_core("xenial", BuildType::Daily).url,
        "http://cdimage.ubuntu.com/ubuntu-core/xenial/daily/current/xenial-core-amd64.tar.gz",
    );
    let f = fetch_ubuntu_core("16.04", BuildType::Release);
    assert_eq!(
        f.url,
        "http://cdimage.ubuntu.com/ubuntu-core/releases/16.04/release/ubuntu-core-16.04-core-amd64.tar.gz",
    );
    assert_eq!(f.target, "/vagga/root");
    assert_eq!(f.exclude, strings(&["dev"]));
}

#[test]
fn legacy_ubuntu_setup() {
    let init = init_ubuntu_core("deb http://archive.ubuntu.com/ubuntu/ xenial main\n", "http://m/");
    assert_eq!(init.sources_list, "deb http://m/ xenial main\n");
    assert_eq!(init.files[0].text, "#!/bin/sh\nexit 101\n");
    assert_eq!(init.files[0].mode, Some(0o755));
    assert_eq!(init.locale_gen, strings(&["/usr/sbin/locale-gen", "en_US.UTF-8"]));
}

#[test]
fn legacy_apt_commands() {
    let mut dist = LegacyDistro::Ubuntu(UbuntuInfo { release: s("xenial"), apt_update: true, has_universe: false });
    let cmds = apt_install(&mut dist, &strings(&["git"])).unwrap();
    assert_eq!(cmds, vec![
        strings(&["/usr/bin/apt-get", "update"]),
        strings(&["/usr/bin/apt-get", "install", "-y", "git"]),
    ]);
    match &dist {
        LegacyDistro::Ubuntu(info) => assert!(!info.apt_update),
        LegacyDistro::Other(_) => panic!("expected Ubuntu"),
    }
    assert_eq!(apt_install(&mut dist, &strings(&["vim"])).unwrap().len(), 1);
    let mut other = LegacyDistro::Other(s("Alpine"));
    assert_eq!(apt_install(&mut other, &strings(&["vim"])), Err(s("Incompatible distribution: Alpine")));
    assert_eq!(first_failure(&vec![Ok(()), Err(s("update failed")), Err(s("later"))]), Err(s("update failed")));
    assert_eq!(first_failure(&vec![Ok(()), Ok(())]), Ok(()));
    assert_eq!(apt_remove(&strings(&["gcc"])), strings(&["/usr/bin/apt-get", "remove", "-y", "gcc"]));
    let fin = finish(&strings(&["gcc"]));
    assert_eq!(fin.commands[1], strings(&["/usr/bin/apt-get", "autoremove", "-y"]));
    assert_eq!(fin.list_command, strings(&["dpkg", "-l"]));
}

#[test]
fn legacy_repository_file() {
    let mut info = UbuntuInfo { release: s("xenial"), apt_update: false, has_universe: true };
    let f = add_debian_repo(&mut info, "http://ppa.example/ubuntu", "xenial", &strings(&["main"]));
    assert_eq!(f.name, "69a19c51-xenial.list");
    assert_eq!(f.line, "deb http://ppa.example/ubuntu xenial main");
    assert!(info.apt_update);
    assert_eq!(ubuntu_add_universe(&info, "http://m/"), None);
    let no_universe = UbuntuInfo { release: s("xenial"), apt_update: false, has_universe: false };
    assert_eq!(
        ubuntu_add_universe(&no_universe, "http://m/"),
        Some(s("deb http://m/ xenial universe\ndeb http://m/ xenial-updates universe\ndeb http://m/ xenial-security universe\n")),
    );
}

#[test]
fn legacy_feature_packages() {
    let info = UbuntuInfo { release: s("xenial"), apt_update: false, has_universe: false };
    let mut sets = PackageSets { packages: vec![], build_deps: vec![] };
    let (universe, install, unsupported) =
        ensure_packages(&info, &mut sets, &[Package::BuildEssential, Package::NodeJs, Package::Bundler]);
    assert!(universe);
    assert_eq!(install, strings(&["build-essential", "nodejs", "nodejs-legacy"]));
    assert_eq!(unsupported, vec![Package::Bundler]);
}

fn site(dir: &str) -> SiteSettings {
    SiteSettings {
        storage_dir: Some(s(dir)),
        storage_subdir_from_env_var: None,
        cache_dir: None,
        version_check: Some(false),
        ubuntu_mirror: None,
        ubuntu_skip_locking: None,
        versioned_build_dir: None,
        alpine_mirror: None,
        external_volumes: vec![],
        push_image_script: None,
        build_lock_wait: None,
        auto_apply_sysctl: None,
        index_all_images: None,
        hard_link_identical_files: None,
        hard_link_between_projects: None,
        run_symlinks_as_commands: None,
        disable_auto_clean: None,
        environ: vec![(s("SITE"), s("1"))],
    }
}

fn secure() -> SecureSettings {
    SecureSettings {
        storage_dir: Some(Expanded::Path(s("/storage"))),
        storage_subdir_from_env_var: None,
        cache_dir: Some(Expanded::Path(s("/cache"))),
        version_check: Some(true),
        proxy_env_vars: Some(false),
        ubuntu_mirror: Some(s("http://u/")),
        ubuntu_skip_locking: None,
        versioned_build_dir: None,
        alpine_mirror: None,
        site_settings: vec![(s("/proj/"), site("/site-storage"))],
        external_volumes: vec![(s("data"), s("/data"))],
        push_image_script: None,
        build_lock_wait: None,
        auto_apply_sysctl: None,
        index_all_images: None,
        hard_link_identical_files: None,
        hard_link_between_projects: None,
        run_symlinks_as_commands: None,
        disable_auto_clean: None,
        environ: vec![(s("SITE"), s("0")), (s("ALL"), s("1"))],
        propagate_environ: strings(&["HOME"]),
        docker_insecure_registries: strings(&["r.local"]),
        docker_registry_aliases: vec![(s("hub"), s("h.io"))],
    }
}

#[test]
fn settings_defaults() {
    let (ext, settings) = default_settings();
    assert!(!ext.shared_cache);
    assert!(settings.version_check && settings.proxy_env_vars && settings.run_symlinks_as_commands);
    assert!(settings.docker_insecure_registries.contains("localhost"));
    assert_eq!(settings.docker_registry_aliases.get("docker.io"), Some(s("index.docker.io")));
    assert_eq!(settings.ubuntu_mirror(), "mirror://mirrors.ubuntu.com/mirrors.txt");
    assert_eq!(settings.alpine_mirror(), "http://dl-cdn.alpinelinux.org/alpine/");
}

#[test]
fn user_settings_merge_site_last() {
    let (ext, settings) = default_settings();
    let (ext, settings) = merge_settings(ext, settings, &secure(), "/proj").unwrap();
    assert_eq!(ext.storage_dir, Some(s("/site-storage")));
    assert_eq!(ext.cache_dir, Some(s("/cache")));
    assert!(ext.shared_cache);
    assert!(!settings.version_check);
    assert!(!settings.proxy_env_vars);
    assert_eq!(settings.ubuntu_mirror(), "http://u/");
    assert_eq!(settings.environ.get("SITE"), Some(s("1")));
    assert_eq!(settings.environ.get("ALL"), Some(s("1")));
    assert_eq!(ext.external_volumes.get("data"), Some(s("/data")));
    assert!(ext.propagate_environ.contains("HOME"));
    assert!(settings.docker_insecure_registries.contains("r.local"));
    assert_eq!(settings.docker_registry_aliases.get("hub"), Some(s("h.io")));
}

#[test]
fn user_settings_of_another_project() {
    let (ext, settings) = default_settings();
    let (ext, settings) = merge_settings(ext, settings, &secure(), "/other").unwrap();
    assert_eq!(ext.storage_dir, Some(s("/storage")));
    assert!(settings.version_check);
    assert_eq!(settings.environ.get("SITE"), Some(s("0")));
}

#[test]
fn unexpandable_directories_are_errors() {
    let (ext, settings) = default_settings();
    let mut cfg = secure();
    cfg.storage_dir = Some(Expanded::NoHome);
    assert_eq!(
        merge_settings(ext, settings, &cfg, "/proj").unwrap_err(),
        "Can't expand tilde `~` in storage dir no HOME found",
    );
    let (ext, settings) = default_settings();
    let mut cfg = secure();
    cfg.cache_dir = Some(Expanded::NoHome);
    assert_eq!(
        merge_settings(ext, settings, &cfg, "/proj").unwrap_err(),
        "Can't expand tilde `~` in cache dir no HOME found",
    );
}

#[test]
fn project_settings_tune_the_build() {
    let (ext, settings) = default_settings();
    let cfg = InsecureSettings {
        version_check: Some(false),
        shared_cache: Some(true),
        ubuntu_mirror: None,
        ubuntu_skip_locking: Some(true),
        versioned_build_dir: Some(true),
        alpine_mirror: Some(s("http://a/")),
        build_lock_wait: None,
        run_symlinks_as_commands: None,
        disable_auto_clean: Some(true),
        environ: vec![(s("X"), s("y"))],
    };
    let (ext, settings) = apply_insecure(ext, settings, &cfg);
    assert!(ext.shared_cache);
    assert!(!settings.version_check);
    assert!(settings.ubuntu_skip_locking);
    assert!(!settings.versioned_build_dir);
    assert!(!settings.disable_auto_clean);
    assert_eq!(settings.alpine_mirror(), "http://a/");
    assert_eq!(settings.environ.get("X"), Some(s("y")));
}

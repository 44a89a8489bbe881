use vagga_core::assoc::TextSet;
use vagga_core::composer::{is_conf_d, is_php_config_dir, php_conf_d};
use vagga_core::pip::{enter_requirements, parse_req_filename, requirement_names};
use vagga_core::alpine::{base_repositories, check_version, choose_mirror, mirror_list, AlpineRepo};
use vagga_core::docker::{blob_files, parse_image, whiteout_action, Whiteout};
use vagga_core::downloads::{
    after_fetch, any_https, cache_name, download_error, fetch_command, local_path, part_path, FetchNext,
    FetchStatus,
};
use vagga_core::guard::{extra_truncate, finish_steps, warn_duplicate_data_dir};
use vagga_core::packages::{has_feature, pending_features, Package, PackageSets};
use vagga_core::range::{parse_range, parse_u32, Range};
use vagga_core::tar::{detect_compression, path_components, Compression};
use vagga_core::ubuntu::{ld_preload, staged_copy, universe_sources, AptTrust, Distro, EMDParams, UbuntuRelease};
use vagga_core::dns::{copy_error, revert_steps, NameFileStep, HOSTS_WARNING, RESOLV_WARNING};

fn s(x: &str) -> String {
    x.to_string()
}

fn strings(v: &[&str]) -> Vec<String> {
    v.iter().map(|x| x.to_string()).collect()
}

fn alpine(version: &str) -> vagga_core::alpine::Distro {
    vagga_core::alpine::Distro {
        version: s(version),
        mirror: s("http://mirror/alpine/"),
        base_setup: false,
        apk_update: false,
    }
}

#[test]
fn alpine_repositories() {
    assert_eq!(base_repositories("http://m/", "v3.4"), "http://m/v3.4/main\n");
    let mut d = alpine("v3.4");
    let line = d.add_alpine_repo(&AlpineRepo { url: None, branch: None, repo: s("community"), tag: None });
    assert_eq!(line, "http://mirror/alpine/v3.4/community");
    assert!(d.apk_update);
    let tagged = d.add_alpine_repo(&AlpineRepo {
        url: Some(s("http://other")),
        branch: Some(s("edge")),
        repo: s("testing"),
        tag: Some(s("t")),
    });
    assert_eq!(tagged, "@t http://other/edge/testing");
    assert_eq!(d.add_repo("edge/main").unwrap(), "http://mirror/alpine/edge/main");
    assert!(d.add_repo("a/b/c").unwrap_err().starts_with("Cannot parse repository string."));
}

#[test]
fn alpine_versions() {
    assert!(check_version("v3.4").is_ok());
    assert_eq!(check_version("3.4").unwrap_err(), "Error checking alpine version: '3.4'");
    assert_eq!(alpine("v3.4").php_build_deps(), vec!["php5"]);
    assert_eq!(alpine("v3.3").php_build_deps(), vec!["php"]);
    assert_eq!(alpine("v3.5").php_system_deps()[1], "php5-cli");
}

#[test]
fn alpine_mirrors() {
    let text = "# comment\n  http://a/  \n\nhttp://b/\n";
    assert_eq!(mirror_list(text), strings(&["http://a/", "http://b/"]));
    let m = choose_mirror(text);
    assert!(m == "http://a/" || m == "http://b/");
}

#[test]
fn alpine_feature_packages() {
    let d = alpine("v3.4");
    let mut sets = PackageSets { packages: vec![], build_deps: vec![] };
    let (install, unsupported) = d.ensure_packages(&mut sets, &[Package::BuildEssential, Package::PipPy2]);
    assert_eq!(install, strings(&["build-base", "ca-certificates"]));
    assert_eq!(unsupported, vec![Package::PipPy2]);
    assert_eq!(d.build_deps(Package::Https), Some(vec!["ca-certificates"]));
}

#[test]
fn ubuntu_eatmydata() {
    let p = EMDParams::find("xenial", "amd64").unwrap();
    assert_eq!(p.package, "libeatmydata1");
    assert_eq!(p.preload, "/usr/lib/x86_64-linux-gnu/libeatmydata.so");
    assert!(!p.needs_universe);
    assert!(EMDParams::find("trusty", "armhf").unwrap().needs_universe);
    assert_eq!(EMDParams::find("bionic", "amd64"), None);
    assert_eq!(ld_preload(Some("a.so"), "b.so"), "a.so:b.so");
    assert_eq!(ld_preload(Some(""), "b.so"), "b.so");
    assert_eq!(ld_preload(None, "b.so"), "b.so");
}

#[test]
fn ubuntu_sources() {
    assert_eq!(
        universe_sources("http://m/", "xenial"),
        "deb http://m/ xenial universe\ndeb http://m/ xenial-updates universe\ndeb http://m/ xenial-security universe\n",
    );
    let t = AptTrust { server: None, keys: strings(&["ABC"]) };
    assert_eq!(t.key_args(), strings(&["adv", "--keyserver", "keyserver.ubuntu.com", "--recv-keys", "ABC"]));
}

#[test]
fn docker_image_names() {
    let i = parse_image("python:3");
    assert_eq!(i.registry, "index.docker.io");
    assert_eq!(i.image, "library/python");
    assert_eq!(i.tag, "3");
    let j = parse_image("registry.example.com:5000/ns/app");
    assert_eq!(j.registry, "registry.example.com:5000");
    assert_eq!(j.image, "ns/app");
    assert_eq!(j.tag, "latest");
}

#[test]
fn docker_layer_files() {
    let f = blob_files("sha256:0123456789abcdef").unwrap();
    assert_eq!(f.short_digest, "0123456789ab");
    assert_eq!(f.blob, "/vagga/cache/docker-layers/0123456789abcdef.tar.gz");
    assert_eq!(f.tmp, "/vagga/cache/docker-layers/.0123456789abcdef.tar.gz.tmp");
    assert_eq!(f.lock, "/vagga/cache/docker-layers/.0123456789abcdef.tar.gz.lock");
    assert_eq!(blob_files("nodigest").unwrap_err(), "Invalid layer digest: nodigest");
    assert_eq!(whiteout_action(Some(".wh..wh..opq"), true), Whiteout::ClearDir);
    assert_eq!(whiteout_action(Some(".wh.file"), true), Whiteout::Remove(s("file")));
    assert_eq!(whiteout_action(Some("file"), true), Whiteout::Keep);
}

#[test]
fn archives() {
    assert_eq!(detect_compression(&[0x1f, 0x8b, 8]), Some(Compression::Gzip));
    assert_eq!(detect_compression(b"BZh9"), Some(Compression::Bzip2));
    assert_eq!(detect_compression(&[0xfd, b'7', b'z', b'X', b'Z', 0]), Some(Compression::Xz));
    assert_eq!(detect_compression(b"plain"), None);
    assert_eq!(path_components("/a//b/./c/"), strings(&["/", "a", "b", "c"]));
    assert_eq!(path_components("./x"), strings(&[".", "x"]));
}

#[test]
fn finishing_a_container() {
    let f = finish_steps(&vec![Package::PipPy3, Package::Npm]);
    assert!(f.pip_freeze && f.npm_list && !f.composer_finish && !f.gem_list);
    assert_eq!(extra_truncate(&Some(s("/etc/hosts")), "/etc/hosts"), None);
    assert_eq!(extra_truncate(&Some(s("/etc/other")), "/etc/hosts"), Some(s("/vagga/root/etc/other")));
    assert_eq!(warn_duplicate_data_dir("var/lib", true), "\"/var/lib\" is already contained as data directory");
    assert_eq!(warn_duplicate_data_dir("var", false), "\"/var\" is a prefix of other directory");
}

#[test]
fn features_to_install() {
    assert!(has_feature(&vec![Package::Git], Package::Git));
    assert_eq!(
        pending_features(&[Package::Git, Package::Npm], &vec![Package::Git]),
        vec![Package::Npm],
    );
}

#[test]
fn id_ranges() {
    assert_eq!(parse_u32("65535"), Some(65535));
    assert_eq!(parse_u32("+7"), Some(7));
    assert_eq!(parse_u32("x"), None);
    let r = parse_range("100-200").unwrap();
    assert_eq!((r.start(), r.end()), (100, 201));
    let one = parse_range("5").unwrap();
    assert_eq!((one.start(), one.end()), (5, 6));
    assert_eq!(parse_range("x-3").unwrap_err(), "Error parsing range");
    let x = Range::new(0, 9).shift(3);
    assert_eq!((x.start(), x.len()), (3, 7));
}

#[test]
fn downloads() {
    assert_eq!(cache_name("http://x/a/file.tar.gz", &Some(s("0123456789abcdef"))), "01234567-file.tar.gz");
    assert_eq!(local_path("./vendor/x.tar"), Some(s("/work/./vendor/x.tar")));
    assert_eq!(local_path("/volumes/v/x"), Some(s("/volumes/v/x")));
    assert_eq!(local_path("http://x"), None);
    assert!(any_https(&strings(&["http://a", "https://b"])));
    assert_eq!(fetch_command(false, "/t", "u"), strings(&["/vagga/bin/busybox", "wget", "-O", "/t", "u"]));
    assert_eq!(fetch_command(true, "/t", "u"), strings(&["/usr/bin/wget", "-O", "/t", "u"]));
    assert_eq!(part_path("x"), "/vagga/cache/downloads/x.part");
    assert!(matches!(after_fetch(FetchStatus::Succeeded), FetchNext::Keep));
    assert!(matches!(after_fetch(FetchStatus::Failed), FetchNext::TryNext));
    assert!(matches!(after_fetch(FetchStatus::NotStarted(s("e"))), FetchNext::Stop(m) if m == "Error starting wget: e"));
    assert_eq!(
        download_error("/vagga/cache/downloads/f", &strings(&["http://a", "http://b"])),
        "Error downloading file \"/vagga/cache/downloads/f\" from [\"http://a\", \"http://b\"]",
    );
}

#[test]
fn php_configuration_directories() {
    let out = "Configuration File (php.ini) Path: /etc/php/7.0/cli\nScan for additional .ini files in: /etc/php5/cli/conf.d\n";
    assert_eq!(php_conf_d(out).unwrap(), "/etc/php5/cli/conf.d");
    assert_eq!(php_conf_d("nothing here").unwrap_err(), "PHP configuration directory was not found");
    assert!(is_php_config_dir("php5"));
    assert!(!is_php_config_dir("apache2"));
    assert!(is_conf_d("/vagga/root/etc/php5/cli/conf.d"));
    assert!(!is_conf_d("/vagga/root/etc/php5/cli"));
}

#[test]
fn nested_requirements_files() {
    let mut used = TextSet::new();
    assert!(enter_requirements(&mut used, "\"/work/req.txt\"").is_ok());
    assert_eq!(
        enter_requirements(&mut used, "\"/work/req.txt\"").unwrap_err(),
        "Cyclic requirement: \"/work/req.txt\"",
    );
    assert_eq!(parse_req_filename("-r base.txt"), Some(s("base.txt")));
    assert_eq!(parse_req_filename("--constraint=c.txt"), Some(s("c.txt")));
    assert_eq!(parse_req_filename("flask==1.0"), None);
    assert_eq!(requirement_names("flask\n# comment\n\n  six  \n"), strings(&["flask", "six"]));
}

fn jammy() -> Distro {
    let mut d = Distro::new(UbuntuRelease {
        codename: Some(s("jammy")),
        version: None,
        url: None,
        arch: s("amd64"),
        keep_chfn_command: false,
        eatmydata: false,
    });
    d.set_codename(s("jammy")).unwrap();
    d
}

#[test]
fn apt_lists_cache_is_per_codename() {
    let d = jammy();
    assert_eq!(d.apt_lists_cache(), "/vagga/cache/apt-lists-jammy");
}

#[test]
fn apt_lists_go_to_cache_only_when_fetched() {
    let mut d = jammy();
    let names = strings(&["a_Packages", "lock", "b_Release"]);
    assert!(d.lists_to_cache(&names).is_empty());
    let prep = d.prepare_install();
    assert!(prep.copy_lists);
    assert_eq!(d.lists_to_cache(&names), strings(&["a_Packages", "b_Release"]));
}

#[test]
fn apt_list_copied_through_temporary_name() {
    let (tmp, fin) = staged_copy("/vagga/root/var/lib/apt/lists", "x_Release");
    assert_eq!(tmp, "/vagga/root/var/lib/apt/lists/.tmp.x_Release");
    assert_eq!(fin, "/vagga/root/var/lib/apt/lists/x_Release");
}

fn step_text(st: &NameFileStep) -> String {
    match st {
        NameFileStep::Copy { from, to } => format!("copy {} {}", from, to),
        NameFileStep::Warn(w) => format!("warn {}", w),
    }
}

#[test]
fn name_files_replaced_unless_not_files() {
    let all = revert_steps(None, Some(true));
    let texts: Vec<String> = all.iter().map(step_text).collect();
    assert_eq!(texts, vec![
        s("copy /etc/resolv.conf /vagga/root/etc/resolv.conf"),
        s("copy /etc/hosts /vagga/root/etc/hosts"),
    ]);
    let kept = revert_steps(Some(false), Some(false));
    let texts: Vec<String> = kept.iter().map(step_text).collect();
    assert_eq!(texts, vec![format!("warn {}", RESOLV_WARNING), format!("warn {}", HOSTS_WARNING)]);
    assert_eq!(copy_error("/etc/hosts", "denied"), "Error copying /etc/hosts: denied");
}

#[test]
fn codename_learned_once_from_lsb_release() {
    let mut d = Distro::new(UbuntuRelease {
        codename: None,
        version: Some(s("22.04")),
        url: None,
        arch: s("amd64"),
        keep_chfn_command: false,
        eatmydata: false,
    });
    let mut ident = s("x86_64");
    assert!(d.ensure_codename(&mut ident, "DISTRIB_ID=Ubuntu\nDISTRIB_CODENAME=jammy\n").is_ok());
    assert_eq!(ident, "x86_64-ubuntu-jammy");
    assert_eq!(d.codename, Some(s("jammy")));
    assert!(d.ensure_codename(&mut ident, "").is_ok());
    assert_eq!(ident, "x86_64-ubuntu-jammy");
    let mut other = Distro::new(UbuntuRelease {
        codename: None,
        version: None,
        url: None,
        arch: s("amd64"),
        keep_chfn_command: false,
        eatmydata: false,
    });
    let mut ident2 = s("i");
    assert!(other.ensure_codename(&mut ident2, "DISTRIB_ID=Ubuntu\n").is_err());
    assert_eq!(ident2, "i");
}

use std::collections::HashSet;

use vagga_core::npm::{
    _get_all_patterns, check_deps, get_all_patterns, npm_deps, npm_install_args, parse_feature,
    scan_features, yarn_link, yarn_scan_features, JsonVersion, NpmConfig, NpmDependencies,
    PackageJson, Section, YarnDependencies,
};
use vagga_core::packages::Package;

fn parse(text: &str) -> HashSet<String> {
    _get_all_patterns(text).into_iter().collect()
}

#[test]
fn yarn_simple() {
    assert_eq!(
        parse("babel-eslint@^6.1.2:\n"),
        vec!["babel-eslint@^6.1.2"].iter().map(ToString::to_string).collect()
    );
}

#[test]
fn yarn_pair() {
    assert_eq!(
        parse("babel-core@^6.24.1, babel-core@^6.25.0:\n"),
        vec!["babel-core@^6.24.1", "babel-core@^6.25.0"]
            .iter()
            .map(ToString::to_string)
            .collect()
    );
}

#[test]
fn yarn_quoted() {
    assert_eq!(
        parse("\"@types/node@^6.0.46\":\n"),
        vec!["@types/node@^6.0.46"].iter().map(ToString::to_string).collect()
    );
}

#[test]
fn yarn_lock_skips_indented_comments_and_values() {
    let text = "# yarn lockfile v1\n\nleft-pad@^1.0.0, left-pad@~1.1:\n  version \"1.1.3\"\n  resolved \"x\"\nnot-an-entry\nleft-pad@^1.0.0:\n";
    let got = parse(text);
    let want: HashSet<String> = vec!["left-pad@^1.0.0", "left-pad@~1.1"]
        .iter()
        .map(ToString::to_string)
        .collect();
    assert_eq!(got, want);
    assert_eq!(_get_all_patterns(text).len(), 2);
}

#[test]
fn yarn_lock_with_lone_quote_is_refused() {
    assert!(get_all_patterns("\" , x:\n").is_none());
    assert_eq!(get_all_patterns("a@1:\n").unwrap(), vec!["a@1".to_string()]);
}

fn config() -> NpmConfig {
    NpmConfig::default()
}

#[test]
fn npm_config_defaults() {
    let c = config();
    assert!(c.install_node);
    assert!(c.install_yarn);
    assert_eq!(c.npm_exe, "npm");
    assert_eq!(c.yarn_exe, "/usr/bin/yarn");
    assert!(c.yarn_version.is_none());
}

#[test]
fn npm_features_of_git_packages() {
    let pkgs = vec!["git://github.com/a/b".to_string(), "left-pad".to_string()];
    assert_eq!(
        scan_features(&config(), &pkgs),
        vec![Package::BuildEssential, Package::NodeJs, Package::NodeJsDev, Package::Npm, Package::Git]
    );
    let mut c = config();
    c.install_node = false;
    assert_eq!(
        yarn_scan_features(&c, &vec![]),
        vec![Package::BuildEssential, Package::Yarn]
    );
    let mut f = vec![];
    parse_feature("1.2.3", &mut f);
    assert!(f.is_empty());
}

#[test]
fn npm_install_arguments() {
    assert_eq!(
        npm_install_args(&vec!["a".to_string(), "b@1".to_string()]),
        vec!["install", "--global", "--user=root", "--cache=/tmp/npm-cache", "a", "b@1"]
    );
}

fn deps(pairs: &[(&str, Option<&str>)]) -> Option<Vec<(String, Option<String>)>> {
    Some(pairs.iter().map(|(k, v)| (k.to_string(), v.map(|x| x.to_string()))).collect())
}

#[test]
fn check_deps_needs_every_text_version() {
    let patterns = vec!["a@^1".to_string(), "b@2".to_string()];
    assert!(check_deps(&None, &patterns));
    assert!(check_deps(&deps(&[("a", Some("^1")), ("c", None)]), &patterns));
    assert!(!check_deps(&deps(&[("a", Some("^1")), ("b", Some("3"))]), &patterns));
}

fn package_json() -> PackageJson {
    PackageJson {
        sections: vec![
            (
                "dependencies".to_string(),
                Section::Entries(vec![
                    ("a".to_string(), JsonVersion::Text("^1".to_string())),
                    ("b".to_string(), JsonVersion::Text("git://x/y".to_string())),
                ]),
            ),
            (
                "devDependencies".to_string(),
                Section::Entries(vec![("c".to_string(), JsonVersion::Other("Number(3)".to_string()))]),
            ),
            ("peerDependencies".to_string(), Section::NotMapping),
        ],
    }
}

fn info(dev: bool, peer: bool) -> NpmDependencies {
    NpmDependencies {
        file: "package.json".to_string(),
        package: true,
        dev,
        peer,
        bundled: true,
        optional: false,
    }
}

#[test]
fn npm_deps_collects_packages_and_features() {
    let (pkgs, features) = npm_deps(&config(), &info(false, false), &package_json()).unwrap();
    assert_eq!(pkgs, vec!["a@^1", "b@git://x/y"]);
    assert_eq!(
        features,
        vec![Package::BuildEssential, Package::NodeJs, Package::NodeJsDev, Package::Npm, Package::Git]
    );
}

#[test]
fn npm_deps_errors() {
    let e = npm_deps(&config(), &info(true, false), &package_json()).unwrap_err();
    assert_eq!(e, "Package \"c\" has wrong version Number(3)");
    let e = npm_deps(&config(), &info(false, true), &package_json()).unwrap_err();
    assert_eq!(e, "The \"peerDependencies\" is not a mapping (JSON object)");
}

#[test]
fn yarn_lock_check() {
    let pj = package_json();
    let patterns = vec!["a@^1".to_string(), "b@git://x/y".to_string()];
    let y = YarnDependencies { dir: ".".to_string(), production: true, optional: false };
    assert!(y.locked(&pj, &patterns));
    let y = YarnDependencies { dir: ".".to_string(), production: true, optional: true };
    assert!(y.locked(&pj, &patterns));
    assert!(!y.locked(&pj, &vec!["a@^1".to_string()]));
}

#[test]
fn yarn_download_link() {
    let mut c = config();
    c.yarn_version = Some("vv1.2.3 ".to_string());
    assert_eq!(
        yarn_link(&c, "ignored"),
        "https://github.com/yarnpkg/yarn/releases/download/v1.2.3/yarn-1.2.3.js"
    );
    assert_eq!(
        yarn_link(&config(), " 0.27.5\n"),
        "https://github.com/yarnpkg/yarn/releases/download/v0.27.5/yarn-0.27.5.js"
    );
}

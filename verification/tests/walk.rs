use vagga_core::walk::Walk;
use vagga_core::path_filter::{PathFilter, WalkStep};

/// The tree of the walk tests: each entry's path relative to the root and
/// whether it is a directory, in the order a directory lists them.
fn tree() -> Vec<(&'static str, bool)> {
    vec![
        ("dir", true),
        ("dir/subdir", true),
        ("dir/subdir/test.ini", false),
        ("dir/test.py", false),
        ("dir/test.rs", false),
        ("test.py", false),
        ("test.rs", false),
    ]
}

fn parent_of(p: &str) -> &str {
    match p.rfind('/') {
        Some(i) => &p[..i],
        None => "",
    }
}

/// Walks the tree below `tests/dir1` as the filter's walk does: the root is
/// passed over, pruned directories are not entered, and yielded paths are
/// joined to the root.
fn walk(f: &PathFilter) -> Vec<String> {
    let mut out = Vec::new();
    let mut pruned: Vec<String> = Vec::new();
    assert!(f.walk_step("", true) == WalkStep::Pass);
    for (p, is_dir) in tree() {
        let mut parent = parent_of(p);
        let mut hidden = false;
        while !parent.is_empty() {
            if pruned.iter().any(|x| x == parent) {
                hidden = true;
            }
            parent = parent_of(parent);
        }
        if hidden {
            continue;
        }
        match f.walk_step(p, is_dir) {
            WalkStep::Emit => out.push(format!("tests/dir1/{}", p)),
            WalkStep::Pass => {},
            WalkStep::Prune => pruned.push(p.to_string()),
        }
    }
    out.sort();
    out
}

fn glob_paths(rules: &[&str]) -> Vec<String> {
    walk(&PathFilter::glob(rules).unwrap())
}

fn regex_paths(ignore: Option<&str>, taken: Option<&str>) -> Vec<String> {
    walk(&PathFilter::regex(ignore, taken).unwrap())
}

#[test]
fn test_walk_glob() {
    assert_eq!(glob_paths(&[]).len(), 0);

    assert_eq!(glob_paths(&[""]).len(), 0);

    assert_eq!(glob_paths(&["/"]),
               vec!("tests/dir1/dir/subdir/test.ini",
                    "tests/dir1/dir/test.py",
                    "tests/dir1/dir/test.rs",
                    "tests/dir1/test.py",
                    "tests/dir1/test.rs"));

    assert_eq!(glob_paths(&["*.rs"]),
               vec!("tests/dir1/dir/test.rs",
                    "tests/dir1/test.rs"));

    assert_eq!(glob_paths(&["/*.rs"]),
               vec!("tests/dir1/test.rs"));

    assert_eq!(glob_paths(&["/dir/*.rs"]),
               vec!("tests/dir1/dir/test.rs"));

    assert_eq!(glob_paths(&["dir/"]),
               vec!("tests/dir1/dir",
                    "tests/dir1/dir/subdir/test.ini",
                    "tests/dir1/dir/test.py",
                    "tests/dir1/dir/test.rs"));

    assert_eq!(glob_paths(&["/dir"]),
               vec!("tests/dir1/dir/subdir/test.ini",
                    "tests/dir1/dir/test.py",
                    "tests/dir1/dir/test.rs"));

    assert_eq!(glob_paths(&["subdir/"]),
               vec!("tests/dir1/dir/subdir",
                    "tests/dir1/dir/subdir/test.ini"));

    assert_eq!(glob_paths(&["/**/*.rs"]),
               vec!("tests/dir1/dir/test.rs",
                    "tests/dir1/test.rs"));

    assert_eq!(glob_paths(&["!dir/", "*.rs"]),
               vec!("tests/dir1/test.rs"));

    assert_eq!(glob_paths(&["!dir/subdir", "*.rs"]),
               vec!("tests/dir1/dir/test.rs",
                    "tests/dir1/test.rs"));

    assert_eq!(glob_paths(&["!subdir", "*.rs"]),
               vec!("tests/dir1/dir/test.rs",
                    "tests/dir1/test.rs"));

    assert_eq!(glob_paths(&["!*.rs", "/dir"]),
               vec!("tests/dir1/dir/subdir/test.ini",
                    "tests/dir1/dir/test.py"));

    assert_eq!(glob_paths(&["!*.rs", "!subdir", "/dir"]),
               vec!("tests/dir1/dir/test.py"));

    assert_eq!(glob_paths(&["!dir/", "dir/"]),
               vec!("tests/dir1/dir",
                    "tests/dir1/dir/subdir/test.ini",
                    "tests/dir1/dir/test.py",
                    "tests/dir1/dir/test.rs"));
}

#[test]
fn test_walk_regex() {
    assert_eq!(regex_paths(None, Some(r".*\.rs")),
               vec!("tests/dir1/dir/test.rs",
                    "tests/dir1/test.rs"));

    assert_eq!(regex_paths(None, Some(r"(^|/)dir($|/)")),
               vec!("tests/dir1/dir",
                    "tests/dir1/dir/subdir",
                    "tests/dir1/dir/subdir/test.ini",
                    "tests/dir1/dir/test.py",
                    "tests/dir1/dir/test.rs"));

    assert_eq!(regex_paths(Some(r"(^|/)dir($|/)"), Some(r".*\.rs")),
               vec!("tests/dir1/test.rs"));
}

#[test]
fn walk_yields_nothing_below_an_ignored_directory() {
    let filter = PathFilter::glob(&vec!["*.rs", "!target/"]).unwrap();
    let mut walk = Walk::new();
    let entries = [
        ("", true),
        ("src", true),
        ("src/main.rs", false),
        ("target", true),
        ("target/debug", true),
        ("target/debug/build.rs", false),
        ("lib.rs", false),
    ];
    let yielded: Vec<&str> = entries.iter()
        .filter(|(p, d)| walk.visit(&filter, p, *d))
        .map(|(p, _)| *p)
        .collect();
    assert_eq!(yielded, vec!["src/main.rs", "lib.rs"]);
}

#[test]
fn walk_reports_every_error_it_met() {
    let filter = PathFilter::glob(&vec!["*.rs"]).unwrap();
    let mut walk = Walk::new();
    assert!(walk.visit(&filter, "a.rs", false));
    walk.not_utf8("\"bad\\xff\"".to_string());
    assert!(walk.visit(&filter, "b.rs", false));
    walk.not_utf8("\"worse\\xfe\"".to_string());
    match walk.finish(2) {
        Err(errors) => assert_eq!(errors.len(), 2),
        Ok(_) => panic!("Expected the errors of the walk"),
    }
    let clean = Walk::new();
    assert_eq!(clean.finish("done").ok(), Some("done"));
}

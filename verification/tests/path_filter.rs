use vagga_core::path_filter::{prepare_rule, PathFilter, WalkStep};

#[test]
fn test_glob_relative_no_wildcards() {
    let f = PathFilter::glob(&vec!("foo")).unwrap();
    assert!(f.matched("foo", false).is_include());
    assert!(f.matched("foo", true).is_include());
    assert!(f.matched("test", false).is_none());
    assert!(f.matched("test", true).is_none());
    assert!(f.matched("dir/foo", false).is_include());
    assert!(f.matched("dir/foo", true).is_include());
    assert!(f.matched("foo/test", false).is_include());
    assert!(f.matched("foo/test", true).is_include());
    assert!(f.matched("dir/foo/test", false).is_include());
    assert!(f.matched("dir/foo/test", true).is_include());
}

#[test]
fn test_glob_relative_with_wildcard() {
    let f = PathFilter::glob(&vec!("*.rs")).unwrap();
    assert!(f.matched("test.rs", false).is_include());
    assert!(f.matched("dir/test.rs", false).is_include());
    assert!(f.matched("dir/subdir/main.rs", false).is_include());
    assert!(f.matched("test.py", false).is_none());
    assert!(f.matched("test.rs.bak", false).is_none());
    assert!(f.matched("dir", false).is_none());
    assert!(f.matched("dir", true).is_none());
    assert!(f.matched("dir/test.py", false).is_none());
    assert!(f.matched(".git", false).is_none());
    assert!(f.matched(".git", true).is_none());
    assert!(f.matched(".git/test.rs", false).is_include());
}

#[test]
fn test_glob_absolute_no_wildcards() {
    let f = PathFilter::glob(&vec!("/foo")).unwrap();
    assert!(f.matched("foo", false).is_include());
    assert!(f.matched("foo", true).is_include());
    assert!(f.matched("test", false).is_none());
    assert!(f.matched("test", true).is_none());
    assert!(f.matched("dir/foo", false).is_none());
    assert!(f.matched("dir/foo", true).is_none());
    assert!(f.matched("foo/test", false).is_include());
    assert!(f.matched("foo/test", true).is_include());
    assert!(f.matched("dir/foo/test", false).is_none());
    assert!(f.matched("dir/foo/test", true).is_none());
}

#[test]
fn test_glob_absolute_with_wildcard() {
    let f = PathFilter::glob(&vec!("/*.rs")).unwrap();
    assert!(f.matched("test.rs", false).is_include());
    assert!(f.matched("test.py", false).is_none());
    assert!(f.matched("dir/test.rs", false).is_none());
}

#[test]
fn test_glob_relative_dir() {
    let f = PathFilter::glob(&vec!("dir/")).unwrap();
    assert!(f.matched("test.rs", false).is_none());
    assert!(f.matched("otherdir/test.rs", false).is_none());
    assert!(f.matched("dir", true).is_include());
    assert!(f.matched("dir", false).is_none());
    assert!(f.matched("otherdir", true).is_none());
    assert!(f.matched("dir/test.rs", false).is_include());
    assert!(f.matched("dir/test.py", false).is_include());
    assert!(f.matched("dir/subdir", true).is_include());
    assert!(f.matched("dir/subdir/test.rs", false).is_include());
    assert!(f.matched("otherdir/dir", true).is_include());
    assert!(f.matched("otherdir/dir", false).is_none());
    assert!(f.matched("otherdir/dir/test.py", false).is_include());
    assert!(f.matched("otherdir/dir/subdir", true).is_include());
}

#[test]
fn test_glob_absolute_dir() {
    let f = PathFilter::glob(&vec!("/dir/")).unwrap();
    assert!(f.matched("test.rs", false).is_none());
    assert!(f.matched("otherdir/test.rs", false).is_none());
    assert!(f.matched("dir", true).is_include());
    assert!(f.matched("dir", false).is_none());
    assert!(f.matched("otherdir", true).is_none());
    assert!(f.matched("dir/test.rs", false).is_include());
    assert!(f.matched("dir/test.py", false).is_include());
    assert!(f.matched("dir/subdir", true).is_include());
    assert!(f.matched("dir/subdir/test.rs", false).is_include());
    assert!(f.matched("otherdir/dir", true).is_none());
    assert!(f.matched("otherdir/dir", false).is_none());
    assert!(f.matched("otherdir/dir/test.py", false).is_none());
    assert!(f.matched("otherdir/dir/subdir", true).is_none());
}

#[test]
fn test_glob_inverse() {
    let f = PathFilter::glob(&vec!("!.git/", "*.rs")).unwrap();
    assert!(f.matched("test.rs", false).is_include());
    assert!(f.matched("dir/test.rs", false).is_include());
    assert!(f.matched("dir/subdir/main.rs", false).is_include());
    assert!(f.matched("test.py", false).is_none());
    assert!(f.matched("test.rs.bak", false).is_none());
    assert!(f.matched("dir", false).is_none());
    assert!(f.matched("dir", true).is_none());
    assert!(f.matched("dir/test.py", false).is_none());
    assert!(f.matched(".git", false).is_none());
    assert!(f.matched(".git", true).is_ignore());
    assert!(f.matched(".git/test.rs", false).is_include());
}

#[test]
fn test_glob_inverse_nested() {
    let f = PathFilter::glob(&vec!("!target/build", "*.rs")).unwrap();
    assert!(f.matched("test.rs", false).is_include());
    assert!(f.matched("target/test.rs", false).is_include());
    assert!(f.matched("target", false).is_none());
    assert!(f.matched("target", true).is_none());
    assert!(f.matched("target/build", false).is_ignore());
    assert!(f.matched("target/build", true).is_ignore());
}

#[test]
fn test_glob_ignore_pattern_and_include_file() {
    let f = PathFilter::glob(&vec!("!*.py", "/dir")).unwrap();
    assert!(f.matched("test.rs", true).is_none());
    assert!(f.matched("test.py", true).is_ignore());
    assert!(f.matched("dir", true).is_include());
    assert!(f.matched("dir/test.rs", false).is_include());
    assert!(f.matched("dir/test.py", false).is_ignore());
}

#[test]
fn test_glob_ignore_pattern_and_include_dir() {
    let f = PathFilter::glob(&vec!("!*.py", "/dir/")).unwrap();
    assert!(f.matched("test.rs", true).is_none());
    assert!(f.matched("test.py", true).is_ignore());
    assert!(f.matched("dir", true).is_include());
    assert!(f.matched("dir/test.rs", false).is_include());
    assert!(f.matched("dir/test.py", false).is_ignore());
}

#[test]
fn test_glob_escape() {
    let f = PathFilter::glob(&vec!("\\!dir/")).unwrap();
    assert!(f.matched("!dir", false).is_none());
    assert!(f.matched("!dir", true).is_include());
    assert!(f.matched("!dir/test.rs", false).is_include());
    assert!(f.matched("dir", false).is_none());
    assert!(f.matched("dir", true).is_none());

    let f = PathFilter::glob(&vec!("\\\\dir/")).unwrap();
    assert!(f.matched("\\dir", false).is_none());
    assert!(f.matched("\\dir", true).is_include());
    assert!(f.matched("\\dir/test.rs", false).is_include());
    assert!(f.matched("dir", false).is_none());
    assert!(f.matched("dir", true).is_none());
}

#[test]
fn test_glob_precedence() {
    let f = PathFilter::glob(&vec!("!.git/", ".git/")).unwrap();
    assert!(f.matched(".git", true).is_include());
    assert!(f.matched(".git", false).is_none());
}

#[test]
fn test_glob_leading_double_asterisks() {
    let f = PathFilter::glob(&vec!("**/foo")).unwrap();
    assert!(f.matched("foo", true).is_include());
    assert!(f.matched("foo", false).is_include());
    assert!(f.matched("foo/test.rs", false).is_include());
    assert!(f.matched("foo/subdir", true).is_include());
    assert!(f.matched("foo/subdir/test.rs", false).is_include());
}

#[test]
fn test_glob_intermediate_double_asterisks() {
    let f = PathFilter::glob(&vec!("dir/**/foo")).unwrap();
    assert!(f.matched("dir", true).is_include());
    assert!(f.matched("dir", false).is_none());
    assert!(f.matched("dir/test.rs", false).is_none());
    assert!(f.matched("dir/subdir", true).is_include());
    assert!(f.matched("dir/foo", false).is_include());
    assert!(f.matched("dir/foo", true).is_include());
    assert!(f.matched("dir/foo/test.rs", false).is_include());
    assert!(f.matched("dir/subdir/foo", false).is_include());
    assert!(f.matched("dir/subdir/foo", true).is_include());
    assert!(f.matched("dir/subdir/foo/test.rs", false).is_include());
}

#[test]
fn test_glob_trailing_double_asterisks() {
    let f = PathFilter::glob(&vec!("dir/**")).unwrap();
    assert!(f.matched("dir", true).is_include());
    assert!(f.matched("dir", false).is_include());
    assert!(f.matched("dir/test.rs", false).is_include());
    assert!(f.matched("dir/subdir", true).is_include());
    assert!(f.matched("dir/subdir/test.rs", false).is_include());
}

#[test]
fn test_glob_unique_rules() {
    let f = PathFilter::glob(&vec!("/dir/test/", "/dir/test/")).unwrap();
    match f {
        PathFilter::Glob {ref rules, ..} => {
            let globs = rules.iter()
                .map(|r| &r.glob)
                .collect::<Vec<_>>();
            assert_eq!(globs, &["dir", "dir/test", "dir/test/**/*"]);
        },
        PathFilter::Re {..} => {
            panic!("Expected glob filter");
        },
    }
}

#[test]
fn test_regex_empty() {
    let f = PathFilter::regex(None::<&str>, None::<&str>).unwrap();
    assert!(f.matched("test.ini", false).is_none());
    assert!(f.matched("dir", true).is_none());
    assert!(f.matched("dir/test.rs", false).is_none());
    assert!(f.matched("dir/subdir/test.py", false).is_none());
}


#[test]
fn test_regex_ignore() {
    let f = PathFilter::regex(
            Some(r"(^|/)\.(git|hg)($|/)|\.bak$|\.orig$"), None::<&str>)
        .unwrap();
    assert!(f.matched("test.ini", false).is_none());
    assert!(f.matched("test.bak", false).is_ignore());
    assert!(f.matched("dir", true).is_none());
    assert!(f.matched("dir/test.rs", false).is_none());
    assert!(f.matched("dir/test.bak", false).is_ignore());
    assert!(f.matched("dir/subdir/module.orig", false).is_ignore());
    assert!(f.matched(".git", true).is_ignore());
    assert!(f.matched(".git", false).is_ignore());
    assert!(f.matched(".hg", true).is_ignore());
    assert!(f.matched(".svn", true).is_none());
    assert!(f.matched(".git/test.rs", false).is_ignore());
    assert!(f.matched(".git/objects", true).is_ignore());
    assert!(f.matched(".hg/test.ini", false).is_ignore());
}

#[test]
fn test_regex_include() {
    let f = PathFilter::regex(None::<&str>, Some(r"(^|/).*\.rs$")).unwrap();
    assert!(f.matched("test.rs", false).is_include());
    assert!(f.matched("test.py", false).is_none());
    assert!(f.matched("dir", true).is_none());
    assert!(f.matched("dir/test.rs", false).is_include());
    assert!(f.matched("dir/test.py", false).is_none());
    assert!(f.matched("dir/subdir", true).is_none());
    assert!(f.matched("dir/subdir/test.rs", false).is_include());
}

#[test]
fn test_regex_ignore_and_include() {
    let f = PathFilter::regex(
            Some(r"(^|/)\.(git|hg)($|/)|\.bak$|\.orig$"),
            Some(r"(^|/).*(\.rs|\.ini)$"))
        .unwrap();
    assert!(f.matched("test.ini", false).is_include());
    assert!(f.matched("test.rs", false).is_include());
    assert!(f.matched("test.py", false).is_none());
    assert!(f.matched("dir", true).is_none());
    assert!(f.matched("dir/test.rs", false).is_include());
    assert!(f.matched("dir/test.py", false).is_none());
    assert!(f.matched("dir/test.bak", false).is_ignore());
    assert!(f.matched("dir/subdir/test.rs", false).is_include());
    assert!(f.matched("dir/subdir/test.py", false).is_none());
    assert!(f.matched("dir/subdir/test.bak", false).is_ignore());
    assert!(f.matched(".git", true).is_ignore());
    assert!(f.matched(".git", false).is_ignore());
    assert!(f.matched(".hg", true).is_ignore());
    assert!(f.matched(".svn", true).is_none());
    assert!(f.matched(".git/test.rs", false).is_ignore());
    assert!(f.matched(".git/objects", true).is_ignore());
    assert!(f.matched(".hg/test.ini", false).is_ignore());
}

#[test]
fn walk_steps_of_glob_filter() {
    let f = PathFilter::glob(&vec!("dir/", "!dir/subdir")).unwrap();
    assert_eq!(f.walk_step("", true), WalkStep::Pass);
    assert_eq!(f.walk_step("dir", true), WalkStep::Emit);
    assert_eq!(f.walk_step("dir/a.rs", false), WalkStep::Emit);
    assert_eq!(f.walk_step("dir/subdir", true), WalkStep::Prune);
    assert_eq!(f.walk_step("other", true), WalkStep::Pass);
    let f = PathFilter::glob(&vec!("/dir/*.rs")).unwrap();
    assert_eq!(f.walk_step("dir", true), WalkStep::Pass);
    assert_eq!(f.walk_step("other", true), WalkStep::Prune);
    assert_eq!(f.walk_step("dir/x.rs", false), WalkStep::Emit);
}

#[test]
fn walk_steps_of_regex_filter() {
    let f = PathFilter::regex(None::<&str>, Some(r".*\.rs")).unwrap();
    assert_eq!(f.walk_step("dir", true), WalkStep::Pass);
    assert_eq!(f.walk_step("dir/test.rs", false), WalkStep::Emit);
    let f = PathFilter::regex(Some(r"(^|/)dir($|/)"), None::<&str>).unwrap();
    assert_eq!(f.walk_step("dir", true), WalkStep::Prune);
    assert_eq!(f.walk_step("test.rs", false), WalkStep::Emit);
}

#[test]
fn bad_patterns_are_errors() {
    assert!(PathFilter::regex(Some("("), None::<&str>).is_err());
    assert!(PathFilter::regex(None::<&str>, Some("[")).is_err());
    assert!(PathFilter::glob(&vec!("a[")).is_err());
}

#[test]
fn glob_rules_of_an_ignoring_line() {
    let f = PathFilter::glob(&vec!("!*.py")).unwrap();
    match f {
        PathFilter::Glob { ref rules, skip_unknown_dirs, .. } => {
            let globs = rules.iter().map(|r| &r.glob).collect::<Vec<_>>();
            assert_eq!(globs, &["**/*.py", "**/*.py/**"]);
            assert!(rules.iter().all(|r| r.is_ignore));
            assert!(skip_unknown_dirs);
        }
        PathFilter::Re { .. } => panic!("Expected glob filter"),
    }
}

#[test]
fn glob_rules_of_nested_directories() {
    let f = PathFilter::glob(&vec!("a/b/c/")).unwrap();
    match f {
        PathFilter::Glob { ref rules, skip_unknown_dirs, .. } => {
            let globs = rules.iter().map(|r| &r.glob).collect::<Vec<_>>();
            assert_eq!(globs, &["**/a", "**/a/b", "**/a/b/c", "**/a/b/c/**/*"]);
            assert!(rules[0].is_intermediate && rules[1].is_intermediate);
            assert!(!rules[2].is_intermediate && rules[2].is_dir);
            assert!(!skip_unknown_dirs);
        }
        PathFilter::Re { .. } => panic!("Expected glob filter"),
    }
}

#[test]
fn glob_root_directory_line() {
    let f = PathFilter::glob(&vec!("/")).unwrap();
    match f {
        PathFilter::Glob { ref rules, .. } => {
            let globs = rules.iter().map(|r| &r.glob).collect::<Vec<_>>();
            assert_eq!(globs, &["**/*"]);
        }
        PathFilter::Re { .. } => panic!("Expected glob filter"),
    }
}

fn glob_strings(f: &PathFilter) -> Vec<String> {
    match f {
        PathFilter::Glob { rules, .. } => rules.iter().map(|r| r.glob.clone()).collect(),
        PathFilter::Re { .. } => panic!("Expected glob filter"),
    }
}

#[test]
fn glob_rules_of_separate_lines_follow_each_other() {
    let both = PathFilter::glob(&vec!("/src", "!*.pyc")).unwrap();
    let first = PathFilter::glob(&vec!("/src")).unwrap();
    let second = PathFilter::glob(&vec!("!*.pyc")).unwrap();
    let mut expected = glob_strings(&first);
    expected.extend(glob_strings(&second));
    assert_eq!(glob_strings(&both), expected);
}

#[test]
fn a_line_prepared_twice_adds_nothing_the_second_time() {
    let mut cooked = Vec::new();
    let mut unique = Vec::new();
    prepare_rule("/src/", &mut cooked, &mut unique);
    let first = cooked.len();
    assert!(first > 0);
    assert_eq!(unique.len(), first);
    prepare_rule("/src/", &mut cooked, &mut unique);
    assert_eq!(cooked.len(), first);
    assert_eq!(unique.len(), first);
}

use vagga_core::downloads::{check_download, check_hashsum, check_local};
use vagga_core::guard::{keep_paths, unmount_order, KeepAction};
use vagga_core::npm::{NpmConfig, YarnDependencies};
use vagga_core::tar::{archive_compression, hardlink_error, Compression, EntryKind, UnpackAction, Unpacking};

fn s(x: &str) -> String {
    x.to_string()
}

fn strings(v: &[&str]) -> Vec<String> {
    v.iter().map(|x| x.to_string()).collect()
}

fn act(a: &UnpackAction) -> String {
    format!("{:?}", a)
}

#[test]
fn hard_links_are_made_after_all_other_entries() {
    let mut st = Unpacking::new();
    let a = st.step("/t", &strings(&["bin", "a"]), EntryKind::Regular, &None, Ok(false));
    assert_eq!(act(&a), r#"WriteFile("/t/bin/a")"#);
    let l = st.step("/t", &strings(&["bin", "b"]), EntryKind::Link, &Some(s("/bin/a")), Ok(false));
    assert_eq!(act(&l), "Deferred");
    let d = st.step("/t", &strings(&["etc"]), EntryKind::Directory, &None, Ok(false));
    assert_eq!(act(&d), r#"MakeDir("/t/etc")"#);
    let h = st.step("/t", &strings(&["x"]), EntryKind::Regular, &None, Ok(true));
    assert_eq!(act(&h), "Handled");
    let y = st.step("/t", &strings(&["y"]), EntryKind::Symlink, &Some(s("x")), Ok(false));
    assert_eq!(act(&y), r#"MakeSymlink { link: "x", path: "/t/y" }"#);
    assert_eq!(st.finish(), Ok(vec![(s("/t/bin/a"), s("/t/bin/b"))]));
}

#[test]
fn unpacking_stops_at_the_first_error() {
    let mut st = Unpacking::new();
    let e = st.step("/t", &strings(&["a"]), EntryKind::Regular, &None, Err(s("handler failed")));
    assert_eq!(act(&e), r#"Stop("handler failed")"#);
    let later = st.step("/t", &strings(&["b"]), EntryKind::Link, &None, Ok(false));
    assert_eq!(act(&later), r#"Stop("handler failed")"#);
    assert_eq!(st.finish(), Err(s("handler failed")));
    let mut st2 = Unpacking::new();
    let b = st2.step("/t", &strings(&["l"]), EntryKind::Link, &None, Ok(false));
    assert_eq!(act(&b), r#"Stop("Error unpacking \"/t/l\", broken symlink")"#);
    assert_eq!(hardlink_error("/a", "/b", "gone"), r#"Error hardlinking "/a" - "/b": gone"#);
}

#[test]
fn unknown_compression_is_an_error() {
    assert_eq!(archive_compression("/x.tar", &[0x1f, 0x8b, 0]), Ok(Compression::Gzip));
    assert_eq!(archive_compression("/x.tar", b"ustar"), Err(s(r#"unpacking "/x.tar": unexpected compression"#)));
}

#[test]
fn sums_are_checked() {
    let empty_sum = "e3b0c44298fc1c149afbf4c8996fb92427ae41e4649b934ca495991b7852b855";
    assert!(check_hashsum(b"", empty_sum).is_ok());
    assert_eq!(
        check_hashsum(b"", "00"),
        Err(format!("Hashsum mismatch: expected 00, got {}", empty_sum))
    );
    assert!(check_download(b"abc", &None).is_ok());
    assert!(check_download(b"", &Some(s(empty_sum))).is_ok());
    assert!(check_download(b"x", &Some(s(empty_sum))).is_err());
    let e = check_local("/work/f", b"x", &Some(s("00"))).unwrap_err();
    assert!(e.starts_with(r#"Error when checking hashsum for file "/work/f": Hashsum mismatch: expected 00, got "#));
}

#[test]
fn data_container_unmounts_in_reverse_and_prunes() {
    assert_eq!(unmount_order(&strings(&["/a", "/b", "/c"])), strings(&["/c", "/b", "/a"]));
    let (map, warnings) = keep_paths(&strings(&["/var/lib/db"]));
    assert!(warnings.is_empty());
    assert_eq!(map.action(&strings(&["var"])), KeepAction::Descend);
    assert_eq!(map.action(&strings(&["var", "lib"])), KeepAction::Descend);
    assert_eq!(map.action(&strings(&["var", "lib", "db"])), KeepAction::Keep);
    assert_eq!(map.action(&strings(&["var", "log"])), KeepAction::Remove);
    assert_eq!(map.action(&strings(&["etc"])), KeepAction::Remove);
}

#[test]
fn yarn_install_command() {
    let settings = NpmConfig {
        install_node: true,
        install_yarn: true,
        npm_exe: s("npm"),
        yarn_exe: s("/usr/bin/yarn"),
        yarn_version: None,
    };
    let step = YarnDependencies { dir: s("app"), production: true, optional: false };
    assert_eq!(step.yarn_install_args(&settings), strings(&[
        "/usr/bin/yarn", "install", "--no-progress", "--modules-folder=/usr/lib/node_modules",
        "--cache-folder=/tmp/yarn-cache", "--production",
    ]));
    let (work, modules, bin) = step.dirs();
    assert_eq!(work, "/work/app");
    assert_eq!(modules, "/vagga/root/work/app/node_modules");
    assert_eq!(bin, "/work/app/node_modules/.bin");
}

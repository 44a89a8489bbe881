use vagga_core::clean::{alive_root, container_dirs, help_error, is_tmp_folder, old_roots};
use vagga_core::generic::SuperviseMode;
use vagga_core::supervise::{on_event, on_start_failure, process_work_dir_error, watches_events, SuperviseAction, SuperviseEvent};
use vagga_core::launch::{check_chroot_root, chroot_mounts, ChrootMount, command_environ, command_work_dir, link_plan, parse_volume, plain_command_line, ChrootVolume};

fn s(x: &str) -> String {
    x.to_string()
}

fn strings(v: &[&str]) -> Vec<String> {
    v.iter().map(|x| x.to_string()).collect()
}

#[test]
fn cleanup_of_containers() {
    assert_eq!(help_error(), "Use one of the cleanup options");
    assert_eq!(container_dirs("/p/.vagga", &strings(&["a", "b"])), strings(&["/p/.vagga/.roots/a", "/p/.vagga/.roots/b"]));
    assert!(is_tmp_folder("app.1234.tmp"));
    assert!(!is_tmp_folder(".tmp"));
    assert!(!is_tmp_folder("app.tmpx"));
    assert!(!is_tmp_folder("tmp"));
    assert_eq!(alive_root(".roots/app.abc"), Some(s("app.abc")));
    assert_eq!(alive_root("/abs/.roots/app"), None);
    let links = vec![
        (s("app"), s(".roots/app.1")),
        (s(".lnk.x"), s(".roots/x.2")),
        (s("db"), s(".roots/db.3")),
    ];
    assert_eq!(old_roots(&links, &strings(&["app.1", "x.2", "db.3", "old.0"])), strings(&["x.2", "old.0"]));
}

#[test]
fn chroot_volumes() {
    assert_eq!(
        parse_volume("/src:/dst"),
        Some(ChrootVolume { source: s("/src"), target: s("/dst"), writeable: false }),
    );
    assert_eq!(
        parse_volume("/src:/dst:rw"),
        Some(ChrootVolume { source: s("/src"), target: s("/dst:rw"), writeable: false }),
    );
    assert_eq!(parse_volume("/src"), None);
}

#[test]
fn plain_commands() {
    let (prog, args) = plain_command_line(&Some(strings(&["strace", "-f"])), &strings(&["python", "app.py"]), &strings(&["--debug"]));
    assert_eq!(prog, "strace");
    assert_eq!(args, strings(&["-f", "python", "app.py", "--debug"]));
    let (prog, args) = plain_command_line(&None, &strings(&["ls"]), &vec![]);
    assert_eq!(prog, "ls");
    assert!(args.is_empty());
    assert_eq!(command_work_dir("/proj", "src").unwrap(), "/proj/src");
    assert_eq!(command_work_dir("/proj", "/etc").unwrap_err(), "Command's work-dir must be relative to project root");
    let env = command_environ(&vec![(s("A"), s("1"))], &vec![(s("A"), s("2")), (s("B"), s("3"))]);
    assert_eq!(env.get("A"), Some(s("2")));
    assert_eq!(env.get("B"), Some(s("3")));
}

#[test]
fn container_links() {
    let p = link_plan("/p/.vagga", "app.abc", "app", "app");
    assert_eq!(p.tmp, "/p/.vagga/.lnk.app.abc");
    assert_eq!(p.relative_root, ".roots/app.abc");
    assert_eq!(p.targets, strings(&["/p/.vagga/app"]));
    let q = link_plan("/p/.vagga", "app.abc", "app", "app--v2");
    assert_eq!(q.targets, strings(&["/p/.vagga/app", "/p/.vagga/app--v2"]));
}

fn action_text(a: SuperviseAction) -> String {
    format!("{:?}", a)
}

#[test]
fn supervisor_reacts_by_mode() {
    assert!(!watches_events(SuperviseMode::WaitAll));
    assert!(watches_events(SuperviseMode::Restart));
    let exit = SuperviseEvent::Exit(s("web"));
    assert_eq!(action_text(on_event(SuperviseMode::StopOnFailure, &exit)), "StopAll(15)");
    assert_eq!(action_text(on_event(SuperviseMode::Restart, &exit)), r#"Restart("web")"#);
    assert_eq!(action_text(on_event(SuperviseMode::Restart, &SuperviseEvent::Signal(2))), "StopAll(2)");
    assert_eq!(action_text(on_event(SuperviseMode::StopOnFailure, &SuperviseEvent::Signal(1))), "Nothing");
    assert_eq!(action_text(on_start_failure()), "StopAll(15)");
    assert_eq!(process_work_dir_error("db"), "The `work-dir` of db of must be relative to project root");
}

fn mount_text(m: &ChrootMount) -> String {
    format!("{:?}", m)
}

#[test]
fn chroot_mounts_tmp_inventory_and_volumes() {
    let vols = vec![
        ChrootVolume { source: s("/src"), target: s("/data"), writeable: false },
        ChrootVolume { source: s("/rw"), target: s("/var/rw"), writeable: true },
    ];
    let ms: Vec<String> = chroot_mounts("/p/.vagga", Some("/inv"), &vols).iter().map(mount_text).collect();
    assert_eq!(ms, vec![
        r#"Tmpfs { target: "/p/.vagga/.mnt/tmp", options: "size=100m,mode=1777" }"#.to_string(),
        r#"BindRo { source: "/inv", target: "/p/.vagga/.mnt/tmp/inventory" }"#.to_string(),
        r#"BindRo { source: "/src", target: "/p/.vagga/.mnt/data" }"#.to_string(),
        r#"Bind { source: "/rw", target: "/p/.vagga/.mnt/var/rw" }"#.to_string(),
    ]);
    assert_eq!(chroot_mounts("/p/.vagga", None, &vec![]).len(), 1);
    assert!(check_chroot_root("/p", "/p/.vagga/.roots/x").is_ok());
    assert_eq!(check_chroot_root("/p", "/q"), Err(s("Trying to chroot into wrong folder: /q")));
}

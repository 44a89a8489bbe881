use vstd::prelude::*;
use crate::assoc::{TextMap, text_entries, text_seq, insert_all};
use crate::paths::{join_path, path_join, rel_path, strip_root};
use crate::tar::{components, path_components, prefix_of};
use crate::text::{concat, split_once_char, split_once_spec, same_text, string_views};

verus! {

/// A directory mounted into a container run by `vagga _chroot`.
#[derive(Debug, PartialEq, Eq)]
pub struct ChrootVolume {
    pub source: String,
    pub target: String,
    pub writeable: bool,
}

/// The volume that the option `input` (`source:target`) names: what
/// follows the first `:` is the target, and the volume is read-only.
pub fn parse_volume(input: &str) -> (r: Option<ChrootVolume>)
    ensures
        match split_once_spec(input@, ':') {
            Some((a, b)) => r matches Some(v) && v.source@ == a && v.target@ == b && !v.writeable,
            None => r is None,
        },
{
    match split_once_char(input, ':') {
        Some((a, b)) => Some(ChrootVolume { source: a, target: b, writeable: false }),
        None => None,
    }
}

/// The program and the arguments of a plain command: the container's
/// command wrapper, then the command's own line, then the arguments given
/// on the command line.
pub open spec fn command_line(wrapper: Option<Seq<Seq<char>>>, cmd: Seq<Seq<char>>, args: Seq<Seq<char>>) -> Seq<Seq<char>> {
    let head = match wrapper {
        Some(w) => w,
        None => seq![],
    };
    head + cmd + args
}

fn push_all(v: &mut Vec<String>, more: &Vec<String>)
    ensures
        text_seq(final(v)@) == text_seq(old(v)@) + text_seq(more@),
{
    let ghost v0 = text_seq(v@);
    let mut i: usize = 0;
    assert(text_seq(more@).take(0) =~= seq![]);
    while i < more.len()
        invariant
            i <= more@.len(),
            text_seq(v@) == v0 + text_seq(more@).take(i as int),
        decreases more.len() - i,
    {
        let x = more[i].clone();
        let ghost xv = x@;
        let ghost a0 = text_seq(v@);
        assert(xv == more@[i as int]@);
        v.push(x);
        assert(text_seq(v@) =~= a0.push(xv));
        assert(text_seq(more@).take(i + 1) =~= text_seq(more@).take(i as int).push(xv));
        i = i + 1;
    }
    assert(text_seq(more@).take(i as int) =~= text_seq(more@));
}

/// The program of a plain command and its arguments.
pub fn plain_command_line(wrapper: &Option<Vec<String>>, cmd: &Vec<String>, args: &Vec<String>) -> (r: (
    String,
    Vec<String>,
))
    requires
        command_line(
            match wrapper {
                Some(w) => Some(text_seq(w@)),
                None => None,
            },
            text_seq(cmd@),
            text_seq(args@),
        ).len() > 0,
    ensures
        seq![r.0@] + text_seq(r.1@) == command_line(
            match wrapper {
                Some(w) => Some(text_seq(w@)),
                None => None,
            },
            text_seq(cmd@),
            text_seq(args@),
        ),
{
    let mut line: Vec<String> = Vec::new();
    match wrapper {
        Some(w) => push_all(&mut line, w),
        None => {},
    }
    push_all(&mut line, cmd);
    push_all(&mut line, args);
    let ghost all = text_seq(line@);
    assert(all.len() > 0);
    let program = line.remove(0);
    assert(seq![program@] + text_seq(line@) =~= all);
    (program, line)
}

/// The working directory of a command whose `work-dir` is `work_dir`: the
/// path below the project root `project_root`; an error where it does not
/// lie below the root (by components, as written).
pub fn command_work_dir(project_root: &str, work_dir: &str) -> (r: Result<String, String>)
    ensures
        prefix_of(components(project_root@), components(join_path(project_root@, work_dir@))) ==> (r
            matches Ok(p) && p@ == join_path(project_root@, work_dir@)),
        !prefix_of(components(project_root@), components(join_path(project_root@, work_dir@)))
            ==> (r matches Err(e) && e@ == "Command's work-dir must be relative to project root"@),
{
    let p = path_join(project_root, work_dir);
    let a = path_components(project_root);
    let b = path_components(p.as_str());
    let mut ok = a.len() <= b.len();
    let mut i: usize = 0;
    while ok && i < a.len()
        invariant
            i <= a@.len(),
            ok ==> a@.len() <= b@.len(),
            ok ==> forall|k: int| 0 <= k < i ==> b@[k]@ == a@[k]@,
            !ok ==> !prefix_of(string_views(a@), string_views(b@)),
        decreases a.len() - i,
    {
        if !same_text(a[i].as_str(), b[i].as_str()) {
            assert(string_views(b@).take(a@.len() as int)[i as int] != string_views(a@)[i as int]);
            ok = false;
        }
        i = i + 1;
    }
    if ok {
        assert(string_views(b@).take(a@.len() as int) =~= string_views(a@));
        Ok(p)
    } else {
        Err(String::from_str("Command's work-dir must be relative to project root"))
    }
}

/// The environment of a plain command: its own variables, then the
/// inherited ones that vagga's environment has (with their values).
pub fn command_environ(environ: &Vec<(String, String)>, inherited: &Vec<(String, String)>) -> (r: TextMap)
    ensures
        r@ == insert_all(insert_all(Map::empty(), text_entries(environ@)), text_entries(inherited@)),
{
    let mut m = TextMap::new();
    m.extend(environ);
    m.extend(inherited);
    m
}

/// How a built container is linked from the project's directory: the
/// temporary link, what it points to, and the links it is renamed to.
#[derive(Debug)]
pub struct LinkPlan {
    pub tmp: String,
    pub relative_root: String,
    pub targets: Vec<String>,
}

/// How the image `image_dir` (the name of the directory in `.roots`) of
/// the container `name` (full name `fullname`) is linked in `local_vagga`:
/// under its name, and under its full name where that differs.
pub fn link_plan(local_vagga: &str, image_dir: &str, name: &str, fullname: &str) -> (r: LinkPlan)
    ensures
        r.tmp@ == join_path(local_vagga@, ".lnk."@ + image_dir@),
        r.relative_root@ == join_path(".roots"@, image_dir@),
        text_seq(r.targets@) == if name@ == fullname@ {
            seq![join_path(local_vagga@, name@)]
        } else {
            seq![join_path(local_vagga@, name@), join_path(local_vagga@, fullname@)]
        },
{
    let mut targets = vec![path_join(local_vagga, name)];
    if !same_text(name, fullname) {
        targets.push(path_join(local_vagga, fullname));
    }
    assert(text_seq(targets@) =~= if name@ == fullname@ {
        seq![join_path(local_vagga@, name@)]
    } else {
        seq![join_path(local_vagga@, name@), join_path(local_vagga@, fullname@)]
    });
    LinkPlan {
        tmp: path_join(local_vagga, concat(".lnk.", image_dir).as_str()),
        relative_root: path_join(".roots", image_dir),
        targets,
    }
}

/// Whether the path `root` lies below `project_root`, by components.
pub fn below_project(project_root: &str, root: &str) -> (r: bool)
    ensures
        r == prefix_of(components(project_root@), components(root@)),
{
    let a = path_components(project_root);
    let b = path_components(root);
    if a.len() > b.len() {
        return false;
    }
    let mut i: usize = 0;
    while i < a.len()
        invariant
            i <= a@.len(),
            a@.len() <= b@.len(),
            string_views(a@) == components(project_root@),
            string_views(b@) == components(root@),
            forall|k: int| 0 <= k < i ==> b@[k]@ == a@[k]@,
        decreases a.len() - i,
    {
        if !same_text(a[i].as_str(), b[i].as_str()) {
            assert(string_views(b@).take(a@.len() as int)[i as int] != string_views(a@)[i as int]);
            return false;
        }
        i = i + 1;
    }
    assert(string_views(b@).take(a@.len() as int) =~= string_views(a@));
    true
}

/// Checks that the new root `root` of `vagga _chroot` lies below the
/// project root.
pub fn check_chroot_root(project_root: &str, root: &str) -> (r: Result<(), String>)
    ensures
        r is Ok <==> prefix_of(components(project_root@), components(root@)),
        r matches Err(e) ==> e@ == "Trying to chroot into wrong folder: "@ + root@,
{
    if below_project(project_root, root) {
        Ok(())
    } else {
        Err(concat("Trying to chroot into wrong folder: ", root))
    }
}

/// A mount of a container run by `vagga _chroot`.
#[derive(Debug)]
pub enum ChrootMount {
    Tmpfs { target: String, options: &'static str },
    BindRo { source: String, target: String },
    Bind { source: String, target: String },
}

/// A mount as the specifications see it.
pub enum MountView {
    Tmpfs(Seq<char>, Seq<char>),
    BindRo(Seq<char>, Seq<char>),
    Bind(Seq<char>, Seq<char>),
}

pub open spec fn mount_view(m: ChrootMount) -> MountView {
    match m {
        ChrootMount::Tmpfs { target, options } => MountView::Tmpfs(target@, options@),
        ChrootMount::BindRo { source, target } => MountView::BindRo(source@, target@),
        ChrootMount::Bind { source, target } => MountView::Bind(source@, target@),
    }
}

/// The mount of the volume `v` below the mount root `mnt_root`.
pub open spec fn volume_mount(mnt_root: Seq<char>, v: ChrootVolume) -> MountView {
    let target = join_path(mnt_root, rel_path(v.target@)->0);
    if v.writeable {
        MountView::Bind(v.source@, target)
    } else {
        MountView::BindRo(v.source@, target)
    }
}

/// The mounts of `vagga _chroot`, below `.mnt` of `local_vagga`: a small
/// temporary file system on `tmp`; the inventory, read-only, on
/// `tmp/inventory` where it is asked for; then each volume on its target.
pub open spec fn chroot_mounts_of(
    local_vagga: Seq<char>,
    inventory: Option<Seq<char>>,
    volumes: Seq<ChrootVolume>,
) -> Seq<MountView> {
    let mnt = join_path(local_vagga, ".mnt"@);
    seq![MountView::Tmpfs(join_path(mnt, "tmp"@), "size=100m,mode=1777"@)] + (match inventory {
        Some(i) => seq![MountView::BindRo(i, join_path(join_path(mnt, "tmp"@), "inventory"@))],
        None => seq![],
    }) + volumes.map_values(|v: ChrootVolume| volume_mount(mnt, v))
}

/// The mounts of `vagga _chroot`; each volume's target is absolute.
pub fn chroot_mounts(local_vagga: &str, inventory: Option<&str>, volumes: &Vec<ChrootVolume>) -> (r: Vec<ChrootMount>)
    requires
        forall|i: int| 0 <= i < volumes@.len() ==> rel_path(#[trigger] volumes@[i].target@) is Some,
    ensures
        r@.map_values(|m: ChrootMount| mount_view(m)) == chroot_mounts_of(
            local_vagga@,
            match inventory {
                Some(i) => Some(i@),
                None => None,
            },
            volumes@,
        ),
{
    let ghost f = |m: ChrootMount| mount_view(m);
    let mnt = path_join(local_vagga, ".mnt");
    let tmp = path_join(mnt.as_str(), "tmp");
    let mut r: Vec<ChrootMount> = Vec::new();
    r.push(ChrootMount::Tmpfs { target: String::from_str(tmp.as_str()), options: "size=100m,mode=1777" });
    match inventory {
        Some(i) => {
            let ghost r0 = r@;
            let m = ChrootMount::BindRo { source: String::from_str(i), target: path_join(tmp.as_str(), "inventory") };
            let ghost mv = mount_view(m);
            r.push(m);
            assert(r@.map_values(f) =~= r0.map_values(f).push(mv));
        },
        None => {},
    }
    let ghost head = r@.map_values(f);
    let ghost g = |v: ChrootVolume| volume_mount(mnt@, v);
    let mut k: usize = 0;
    assert(volumes@.take(0).map_values(g) =~= seq![]);
    assert(r@.map_values(f) =~= head + volumes@.take(0).map_values(g));
    while k < volumes.len()
        invariant
            k <= volumes@.len(),
            forall|i: int| 0 <= i < volumes@.len() ==> rel_path(#[trigger] volumes@[i].target@) is Some,
            f == (|m: ChrootMount| mount_view(m)),
            g == (|v: ChrootVolume| volume_mount(mnt@, v)),
            r@.map_values(f) == head + volumes@.take(k as int).map_values(g),
        decreases volumes.len() - k,
    {
        let v = &volumes[k];
        assert(rel_path(volumes@[k as int].target@) is Some);
        let rel = match strip_root(v.target.as_str()) {
            Some(x) => x,
            None => String::new(),
        };
        let target = path_join(mnt.as_str(), rel.as_str());
        let m = if v.writeable {
            ChrootMount::Bind { source: String::from_str(v.source.as_str()), target }
        } else {
            ChrootMount::BindRo { source: String::from_str(v.source.as_str()), target }
        };
        let ghost r0 = r@;
        let ghost mv = mount_view(m);
        r.push(m);
        assert(mv == g(volumes@[k as int]));
        assert(r@.map_values(f) =~= r0.map_values(f).push(mv));
        assert(volumes@.take(k + 1).map_values(g) =~= volumes@.take(k as int).map_values(g).push(
            g(volumes@[k as int]),
        ));
        k = k + 1;
    }
    assert(volumes@.take(k as int) =~= volumes@);
    r
}

} // verus!

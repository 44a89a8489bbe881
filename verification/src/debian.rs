use vstd::prelude::*;
use crate::assoc::text_seq;
use crate::hashing::{sha256_hex, sha256_text};
use crate::packages::{Package, PackageSets, PlanView, DepLists, plan_features, dep_texts, deps_texts, names, names_seq, texts, opt_texts};
use crate::text::{concat, concat3, string_of, chars_of, string_views};
use crate::ubuntu::{mirror_sources, mirrored_lines, universe_sources, universe_list, components_tail};

verus! {

/// Which image of an Ubuntu release the older Ubuntu steps start from.
#[derive(Debug, Clone, Copy, PartialEq, Eq, Structural)]
pub enum BuildType {
    Daily,
    Release,
}

/// What the older Ubuntu steps know of the container's Ubuntu: its release,
/// whether the package index needs an update before the next install, and
/// whether the `universe` component is enabled.
#[derive(Debug)]
pub struct UbuntuInfo {
    pub release: String,
    pub apt_update: bool,
    pub has_universe: bool,
}

/// The URL of the Ubuntu core image of `release`.
pub open spec fn core_url(release: Seq<char>, build_type: BuildType) -> Seq<char> {
    match build_type {
        BuildType::Daily => "http://cdimage.ubuntu.com/ubuntu-core/"@ + release + "/daily/current/"@
            + release + "-core-amd64.tar.gz"@,
        BuildType::Release => "http://cdimage.ubuntu.com/ubuntu-core/releases/"@ + release
            + "/release/ubuntu-core-"@ + release + "-core-amd64.tar.gz"@,
    }
}

/// How the Ubuntu core image is fetched: the image to download, the
/// directory it is unpacked into, and the entries left out.
#[derive(Debug)]
pub struct CoreFetch {
    pub url: String,
    pub target: String,
    pub exclude: Vec<String>,
}

/// How the Ubuntu core image of `release` is fetched.
pub fn fetch_ubuntu_core(release: &str, build_type: BuildType) -> (r: CoreFetch)
    ensures
        r.url@ == core_url(release@, build_type),
        r.target@ == "/vagga/root"@,
        text_seq(r.exclude@) == seq!["dev"@],
{
    let url = match build_type {
        BuildType::Daily => {
            let a = concat3("http://cdimage.ubuntu.com/ubuntu-core/", release, "/daily/current/");
            concat3(a.as_str(), release, "-core-amd64.tar.gz")
        },
        BuildType::Release => {
            let a = concat3(
                "http://cdimage.ubuntu.com/ubuntu-core/releases/",
                release,
                "/release/ubuntu-core-",
            );
            concat3(a.as_str(), release, "-core-amd64.tar.gz")
        },
    };
    let exclude = vec![String::from_str("dev")];
    assert(text_seq(exclude@) =~= seq!["dev"@]);
    CoreFetch { url, target: String::from_str("/vagga/root"), exclude }
}

/// A file that setting up Ubuntu writes: its path, its text and its mode.
#[derive(Debug)]
pub struct SetupFile {
    pub path: String,
    pub text: String,
    pub mode: Option<u32>,
}

/// What setting up an unpacked Ubuntu core image does: the files to write
/// (a `policy-rc.d` that keeps services from starting, and the dpkg and apt
/// settings), the host's `resolv.conf` copied in, the locale generated, and
/// the sources list pointed at the mirror.
#[derive(Debug)]
pub struct CoreInit {
    pub files: Vec<SetupFile>,
    pub resolv_conf: (String, String),
    pub locale_gen: Vec<String>,
    pub sources_list: String,
}

/// The settings of apt that keep it from installing recommended and
/// suggested packages.
pub const NO_RECOMMENDS: &'static str = "\n            APT::Install-Recommends \"0\";\n            APT::Install-Suggests \"0\";\n        ";

/// How the unpacked Ubuntu core image is set up, where its sources list is
/// `sources_list` and the mirror is `mirror`.
pub fn init_ubuntu_core(sources_list: &str, mirror: &str) -> (r: CoreInit)
    ensures
        r.files@.len() == 3,
        r.files@[0].path@ == "/vagga/root/usr/sbin/policy-rc.d"@,
        r.files@[0].text@ == "#!/bin/sh\nexit 101\n"@,
        r.files@[0].mode == Some(0o755u32),
        r.files@[1].path@ == "/vagga/root/etc/dpkg/dpkg.cfg.d/02apt-speedup"@,
        r.files@[1].text@ == "force-unsafe-io"@,
        r.files@[1].mode is None,
        r.files@[2].path@ == "/vagga/root/etc/apt/apt.conf.d/01norecommend"@,
        r.files@[2].text@ == NO_RECOMMENDS@,
        r.files@[2].mode is None,
        r.resolv_conf.0@ == "/etc/resolv.conf"@,
        r.resolv_conf.1@ == "/vagga/root/etc/resolv.conf"@,
        text_seq(r.locale_gen@) == seq!["/usr/sbin/locale-gen"@, "en_US.UTF-8"@],
        r.sources_list@ == mirrored_lines(crate::text::lines_of(sources_list@), mirror@),
{
    let files = vec![
        SetupFile {
            path: String::from_str("/vagga/root/usr/sbin/policy-rc.d"),
            text: String::from_str("#!/bin/sh\nexit 101\n"),
            mode: Some(0o755),
        },
        SetupFile {
            path: String::from_str("/vagga/root/etc/dpkg/dpkg.cfg.d/02apt-speedup"),
            text: String::from_str("force-unsafe-io"),
            mode: None,
        },
        SetupFile {
            path: String::from_str("/vagga/root/etc/apt/apt.conf.d/01norecommend"),
            text: String::from_str(NO_RECOMMENDS),
            mode: None,
        },
    ];
    let locale_gen = vec![String::from_str("/usr/sbin/locale-gen"), String::from_str("en_US.UTF-8")];
    assert(text_seq(locale_gen@) =~= seq!["/usr/sbin/locale-gen"@, "en_US.UTF-8"@]);
    CoreInit {
        files,
        resolv_conf: (String::from_str("/etc/resolv.conf"), String::from_str("/vagga/root/etc/resolv.conf")),
        locale_gen,
        sources_list: mirror_sources(sources_list, mirror),
    }
}

/// The command line of `apt-get` with the action `action` and `-y`,
/// followed by the packages `pkgs`.
pub open spec fn apt_line(action: Seq<char>, pkgs: Seq<String>) -> Seq<Seq<char>> {
    seq!["/usr/bin/apt-get"@, action, "-y"@] + text_seq(pkgs)
}

fn apt_command(action: &str, pkgs: &Vec<String>) -> (r: Vec<String>)
    ensures
        text_seq(r@) == apt_line(action@, pkgs@),
{
    let mut args = vec![String::from_str("/usr/bin/apt-get"), String::from_str(action), String::from_str("-y")];
    let ghost head = text_seq(args@);
    assert(head =~= seq!["/usr/bin/apt-get"@, action@, "-y"@]);
    let mut i: usize = 0;
    assert(text_seq(pkgs@).take(0) =~= seq![]);
    while i < pkgs.len()
        invariant
            i <= pkgs@.len(),
            text_seq(args@) == head + text_seq(pkgs@).take(i as int),
        decreases pkgs.len() - i,
    {
        let x = pkgs[i].clone();
        let ghost xv = x@;
        let ghost a0 = text_seq(args@);
        assert(xv == pkgs@[i as int]@);
        args.push(x);
        assert(text_seq(args@) =~= a0.push(xv));
        assert(text_seq(pkgs@).take(i + 1) =~= text_seq(pkgs@).take(i as int).push(xv));
        i = i + 1;
    }
    assert(text_seq(pkgs@).take(i as int) =~= text_seq(pkgs@));
    args
}

/// The distribution of a container being built: Ubuntu with its state,
/// or another one, named by its `Debug` text.
#[derive(Debug)]
pub enum LegacyDistro {
    Ubuntu(UbuntuInfo),
    Other(String),
}

/// The commands that install the packages `pkgs`: only on Ubuntu (another
/// distribution is an error and nothing changes); the package index is
/// updated first where it needs to be (and then no longer does). The
/// commands run in order, and the first that fails ends the install with
/// its error (`first_failure`).
pub fn apt_install(dist: &mut LegacyDistro, pkgs: &Vec<String>) -> (r: Result<Vec<Vec<String>>, String>)
    ensures
        match *old(dist) {
            LegacyDistro::Other(name) => r matches Err(e) && e@ == "Incompatible distribution: "@
                + name@ && *final(dist) == *old(dist),
            LegacyDistro::Ubuntu(info) => *final(dist) matches LegacyDistro::Ubuntu(after) && {
                &&& !after.apt_update
                &&& after.release == info.release
                &&& after.has_universe == info.has_universe
                &&& r matches Ok(cmds) && {
                    &&& cmds@.len() == if info.apt_update { 2int } else { 1int }
                    &&& info.apt_update ==> text_seq(cmds@[0]@) == seq!["/usr/bin/apt-get"@, "update"@]
                    &&& text_seq(cmds@.last()@) == apt_line("install"@, pkgs@)
                }
            },
        },
{
    match dist {
        LegacyDistro::Other(name) => Err(concat("Incompatible distribution: ", name.as_str())),
        LegacyDistro::Ubuntu(info) => {
            let mut cmds: Vec<Vec<String>> = Vec::new();
            if info.apt_update {
                info.apt_update = false;
                let update = vec![String::from_str("/usr/bin/apt-get"), String::from_str("update")];
                assert(text_seq(update@) =~= seq!["/usr/bin/apt-get"@, "update"@]);
                cmds.push(update);
            }
            cmds.push(apt_command("install", pkgs));
            Ok(cmds)
        },
    }
}

/// The outcome of running commands in order, where `results` are the
/// results of those that ran: the first error, or success.
pub open spec fn first_failure_of(results: Seq<Result<(), String>>) -> Result<(), Seq<char>>
    decreases results.len(),
{
    if results.len() == 0 {
        Ok(())
    } else {
        match results[0] {
            Err(e) => Err(e@),
            Ok(()) => first_failure_of(results.drop_first()),
        }
    }
}

/// The outcome of the commands whose results are `results`, in the order
/// they ran: the first error, or success.
pub fn first_failure(results: &Vec<Result<(), String>>) -> (r: Result<(), String>)
    ensures
        match first_failure_of(results@) {
            Ok(()) => r is Ok,
            Err(e) => r matches Err(x) && x@ == e,
        },
{
    let mut i: usize = 0;
    assert(results@.skip(0) =~= results@);
    while i < results.len()
        invariant
            i <= results@.len(),
            first_failure_of(results@) == first_failure_of(results@.skip(i as int)),
        decreases results.len() - i,
    {
        assert(results@.skip(i as int)[0] == results@[i as int]);
        assert(results@.skip(i as int).drop_first() =~= results@.skip(i + 1));
        match &results[i] {
            Err(e) => {
                return Err(String::from_str(e.as_str()));
            },
            Ok(()) => {},
        }
        i = i + 1;
    }
    assert(results@.skip(i as int) =~= Seq::<Result<(), String>>::empty());
    Ok(())
}

/// The command that removes the packages `pkgs`.
pub fn apt_remove(pkgs: &Vec<String>) -> (r: Vec<String>)
    ensures
        text_seq(r@) == apt_line("remove"@, pkgs@),
{
    apt_command("remove", pkgs)
}

/// What finishing an Ubuntu container does: removes the build dependencies
/// `build_deps` and what nothing needs any more, then lists the installed
/// packages into a file.
#[derive(Debug)]
pub struct DebianFinish {
    pub commands: Vec<Vec<String>>,
    pub list_command: Vec<String>,
    pub list_file: String,
}

/// How an Ubuntu container with the build dependencies `build_deps` is
/// finished.
pub fn finish(build_deps: &Vec<String>) -> (r: DebianFinish)
    ensures
        r.commands@.len() == 2,
        text_seq(r.commands@[0]@) == apt_line("remove"@, build_deps@),
        text_seq(r.commands@[1]@) == apt_line("autoremove"@, seq![]),
        text_seq(r.list_command@) == seq!["dpkg"@, "-l"@],
        r.list_file@ == "/vagga/container/debian-packages.txt"@,
{
    let none: Vec<String> = Vec::new();
    let commands = vec![apt_remove(build_deps), apt_command("autoremove", &none)];
    let list_command = vec![String::from_str("dpkg"), String::from_str("-l")];
    assert(text_seq(list_command@) =~= seq!["dpkg"@, "-l"@]);
    DebianFinish {
        commands,
        list_command,
        list_file: String::from_str("/vagga/container/debian-packages.txt"),
    }
}

/// The components of a repository, each followed by a zero character.
pub open spec fn zero_ended(cs: Seq<Seq<char>>) -> Seq<char>
    decreases cs.len(),
{
    if cs.len() == 0 {
        seq![]
    } else {
        zero_ended(cs.drop_last()) + cs.last() + seq!['\0']
    }
}

/// The text whose digest names the sources file of a repository.
pub open spec fn repo_key(url: Seq<char>, suite: Seq<char>, cs: Seq<Seq<char>>) -> Seq<char> {
    url + seq!['\0'] + suite + seq!['\0'] + zero_ended(cs)
}

/// The sources file of a repository that the older Ubuntu steps add: its
/// name (the first 8 digits of the digest of the repository, and the
/// suite) and its line.
#[derive(Debug)]
pub struct RepoFile {
    pub name: String,
    pub line: String,
}

/// The sources file of the repository at `url` for `suite` with the
/// components `cs`; the package index needs an update afterwards.
pub fn add_debian_repo(info: &mut UbuntuInfo, url: &str, suite: &str, cs: &Vec<String>) -> (r: RepoFile)
    ensures
        final(info).apt_update,
        final(info).release == old(info).release,
        final(info).has_universe == old(info).has_universe,
        r.name@ == sha256_text(repo_key(url@, suite@, string_views(cs@))).take(8) + "-"@ + suite@
            + ".list"@,
        r.line@ == "deb "@ + url@ + " "@ + suite@ + components_tail(string_views(cs@)),
{
    info.apt_update = true;
    let mut key = String::from_str(url);
    let mut zero = String::new();
    crate::text::push_char(&mut zero, '\0');
    key.append(zero.as_str());
    key.append(suite);
    key.append(zero.as_str());
    let mut line = concat3("deb ", url, " ");
    line.append(suite);
    let ghost key0 = key@;
    let ghost line0 = line@;
    let mut i: usize = 0;
    assert(string_views(cs@).take(0) =~= seq![]);
    assert(key0 + zero_ended(seq![]) =~= key0);
    assert(line0 + components_tail(seq![]) =~= line0);
    while i < cs.len()
        invariant
            i <= cs@.len(),
            zero@ == seq!['\0'],
            key@ == key0 + zero_ended(string_views(cs@).take(i as int)),
            line@ == line0 + components_tail(string_views(cs@).take(i as int)),
        decreases cs.len() - i,
    {
        let ghost s = string_views(cs@);
        assert(s.take(i + 1).drop_last() =~= s.take(i as int));
        assert(s.take(i + 1).last() == cs@[i as int]@);
        key.append(cs[i].as_str());
        key.append(zero.as_str());
        line.append(" ");
        line.append(cs[i].as_str());
        assert(key@ =~= key0 + zero_ended(s.take(i + 1)));
        assert(line@ =~= line0 + components_tail(s.take(i + 1)));
        i = i + 1;
    }
    assert(string_views(cs@).take(i as int) =~= string_views(cs@));
    assert(key@ =~= repo_key(url@, suite@, string_views(cs@)));
    let digest = sha256_hex(key.as_str());
    let dv = chars_of(digest.as_str());
    let head = string_of(&dv, 0, 8);
    assert(head@ =~= digest@.take(8));
    let name = concat3(head.as_str(), "-", suite);
    RepoFile { name: concat(name.as_str(), ".list"), line }
}

/// The sources list that enables `universe`, where the container's Ubuntu
/// does not have it (`None` where it does).
pub fn ubuntu_add_universe(info: &UbuntuInfo, mirror: &str) -> (r: Option<String>)
    ensures
        info.has_universe ==> r is None,
        !info.has_universe ==> (r matches Some(t) && t@ == universe_list(mirror@, info.release@)),
{
    if info.has_universe {
        None
    } else {
        Some(universe_sources(mirror, info.release.as_str()))
    }
}

/// The build dependencies that the older Ubuntu steps install for the
/// feature `p` (`None` where they do not provide it).
pub open spec fn legacy_build_names(p: Package) -> Option<Seq<Seq<char>>> {
    match p {
        Package::BuildEssential => Some(seq!["build-essential"@]),
        Package::Python2 => Some(seq![]),
        Package::Python2Dev => Some(seq!["python-dev"@]),
        Package::Python3 => Some(seq![]),
        Package::Python3Dev => Some(seq!["python3-dev"@]),
        Package::NodeJs => Some(seq![]),
        Package::NodeJsDev => Some(seq!["nodejs-dev"@]),
        Package::Npm => Some(seq!["npm"@]),
        Package::Git => Some(seq!["git"@]),
        Package::Mercurial => Some(seq!["hg"@]),
        _ => None,
    }
}

/// The packages to keep that the older Ubuntu steps install for the
/// feature `p` (`None` where they do not provide it).
pub open spec fn legacy_system_names(p: Package) -> Option<Seq<Seq<char>>> {
    match p {
        Package::BuildEssential => Some(seq![]),
        Package::Python2 => Some(seq!["python"@]),
        Package::Python2Dev => Some(seq![]),
        Package::Python3 => Some(seq!["python3"@]),
        Package::Python3Dev => Some(seq![]),
        Package::NodeJs => Some(seq!["nodejs"@, "nodejs-legacy"@]),
        Package::NodeJsDev => Some(seq![]),
        Package::Npm => Some(seq![]),
        Package::Git => Some(seq![]),
        Package::Mercurial => Some(seq![]),
        _ => None,
    }
}

/// The build dependencies of the feature `p`.
pub fn build_deps(p: Package) -> (r: Option<Vec<&'static str>>)
    ensures
        opt_texts(r) == legacy_build_names(p),
{
    let r = match p {
        Package::BuildEssential => Some(vec!["build-essential"]),
        Package::Python2 => Some(vec![]),
        Package::Python2Dev => Some(vec!["python-dev"]),
        Package::Python3 => Some(vec![]),
        Package::Python3Dev => Some(vec!["python3-dev"]),
        Package::NodeJs => Some(vec![]),
        Package::NodeJsDev => Some(vec!["nodejs-dev"]),
        Package::Npm => Some(vec!["npm"]),
        Package::Git => Some(vec!["git"]),
        Package::Mercurial => Some(vec!["hg"]),
        _ => None,
    };
    proof {
        if r is Some {
            assert(texts(r->0@) =~= legacy_build_names(p)->0);
        }
    }
    r
}

/// The packages to keep of the feature `p`.
pub fn system_deps(p: Package) -> (r: Option<Vec<&'static str>>)
    ensures
        opt_texts(r) == legacy_system_names(p),
{
    let r = match p {
        Package::BuildEssential => Some(vec![]),
        Package::Python2 => Some(vec!["python"]),
        Package::Python2Dev => Some(vec![]),
        Package::Python3 => Some(vec!["python3"]),
        Package::Python3Dev => Some(vec![]),
        Package::NodeJs => Some(vec!["nodejs", "nodejs-legacy"]),
        Package::NodeJsDev => Some(vec![]),
        Package::Npm => Some(vec![]),
        Package::Git => Some(vec![]),
        Package::Mercurial => Some(vec![]),
        _ => None,
    };
    proof {
        if r is Some {
            assert(texts(r->0@) =~= legacy_system_names(p)->0);
        }
    }
    r
}

/// The lists of the features `fs` for the older Ubuntu steps.
pub open spec fn legacy_dep_names(fs: Seq<Package>) -> Seq<(Option<Seq<Seq<char>>>, Option<Seq<Seq<char>>>)> {
    fs.map_values(|p: Package| (legacy_build_names(p), legacy_system_names(p)))
}

/// Decides what to install for the features `features` and takes the new
/// packages into `sets`: first whether the sources of `universe` are
/// written (the older steps write them while `has_universe` is not set),
/// then the packages to install and the features that are not provided.
pub fn ensure_packages(info: &UbuntuInfo, sets: &mut PackageSets, features: &[Package]) -> (r: (
    bool,
    Vec<String>,
    Vec<Package>,
))
    ensures
        r.0 == !info.has_universe,
        plan_features(old(sets).start(), features@, legacy_dep_names(features@)) == (PlanView {
            packages: names(final(sets).packages@),
            build_deps: names(final(sets).build_deps@),
            to_install: names_seq(r.1@),
            unsupported: r.2@,
        }),
{
    let mut deps: Vec<DepLists> = Vec::new();
    let mut i: usize = 0;
    while i < features.len()
        invariant
            i <= features@.len(),
            deps@.len() == i,
            forall|k: int|
                0 <= k < i ==> dep_texts(#[trigger] deps@[k]) == (
                    legacy_build_names(features@[k]),
                    legacy_system_names(features@[k]),
                ),
        decreases features.len() - i,
    {
        let p = features[i];
        deps.push((build_deps(p), system_deps(p)));
        i = i + 1;
    }
    assert(deps_texts(deps@) =~= legacy_dep_names(features@));
    let (to_install, unsupported) = sets.plan(features, &deps);
    (!info.has_universe, to_install, unsupported)
}

} // verus!

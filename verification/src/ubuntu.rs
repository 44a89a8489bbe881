use vstd::prelude::*;
use crate::versioning::{VersionHash, ItemView, text_item, flag_item, texts_item, opt_text_item};
use crate::packages::{Package, PackageSets, DepLists, DepTexts, opt_texts, plan_features, PlanView, names, names_seq, texts, dep_texts, deps_texts};
use crate::paths::{join_path, path_join, rel_path};
use crate::context::{Context, CacheMount, build_root};
use crate::text::{
    chars_of, concat, concat3, string_of, split_on, split_char, string_views, opt_text, has_prefix, same_text, str_starts_with, trim, trim_spec, lemma_split_on_len, push_char,
};

verus! {

/// The build step that starts an Ubuntu container of the given codename.
#[derive(Debug)]
pub struct Ubuntu(pub String);

/// The build step that starts an Ubuntu container from a release given by
/// codename, by version (deprecated) or by the url of its image.
#[derive(Debug, Clone)]
pub struct UbuntuRelease {
    pub codename: Option<String>,
    pub version: Option<String>,
    pub url: Option<String>,
    pub arch: String,
    pub keep_chfn_command: bool,
    pub eatmydata: bool,
}

/// The build step that enables the `universe` component.
#[derive(Debug)]
pub struct UbuntuUniverse;

/// The build step that adds a Launchpad PPA.
#[derive(Debug)]
pub struct UbuntuPPA(pub String);

/// The build step that adds an apt repository.
#[derive(Debug)]
pub struct UbuntuRepo {
    pub url: Option<String>,
    pub suite: Option<String>,
    pub components: Vec<String>,
    pub trusted: bool,
}

/// The build step that imports apt keys from a key server.
#[derive(Debug)]
pub struct AptTrust {
    pub server: Option<String>,
    pub keys: Vec<String>,
}

/// Whether apt needs, or has, the https transport.
#[derive(Debug, PartialEq, Eq, Structural, Clone, Copy)]
pub enum AptHttps {
    No,
    Need,
    Installed,
}

/// Whether `apt-get install` runs under `libeatmydata`: not at all, not yet
/// (it has to be installed first), or preloading the given library.
#[derive(Debug, PartialEq, Eq, Clone, Copy)]
pub enum EatMyData {
    No,
    Need,
    Preload(&'static str),
}

/// How `libeatmydata` is had on one release and architecture.
#[derive(Debug, PartialEq, Eq, Clone, Copy)]
pub struct EMDParams {
    pub needs_universe: bool,
    pub package: &'static str,
    pub preload: &'static str,
}

/// The state of an Ubuntu container while it is built.
#[derive(Debug)]
pub struct Distro {
    pub config: UbuntuRelease,
    pub codename: Option<String>,
    pub apt_update: bool,
    pub apt_https: AptHttps,
    pub has_indices: bool,
    pub has_universe: bool,
    pub eatmydata: EatMyData,
}

/// The codename is known and is `c`.
pub open spec fn codename_is(codename: Option<String>, c: &str) -> bool {
    codename is Some && codename->0@ == c@
}

/// Node.js needs `nodejs-legacy` on every known release but `precise`.
pub open spec fn node_legacy(codename: Option<String>) -> bool {
    codename is Some && !codename_is(codename, "precise")
}

/// PHP is PHP 7 on every known release but the PHP 5 ones.
pub open spec fn php7(codename: Option<String>) -> bool {
    &&& codename is Some
    &&& !codename_is(codename, "precise")
    &&& !codename_is(codename, "trusty")
    &&& !codename_is(codename, "vivid")
    &&& !codename_is(codename, "wily")
}

/// Ruby needs `rubygems` on `precise`.
pub open spec fn rubygems(codename: Option<String>) -> bool {
    codename_is(codename, "precise")
}

/// The packages the feature `p` keeps on the release `codename`.
pub open spec fn system_names(codename: Option<String>, p: Package) -> Option<Seq<Seq<char>>> {
    match p {
        Package::BuildEssential => Some(seq![]),
        Package::Https => Some(seq![]),
        Package::Python2 => Some(seq!["python"@]),
        Package::Python2Dev => Some(seq![]),
        Package::Python3 => Some(seq!["python3"@]),
        Package::Python3Dev => Some(seq![]),
        Package::PipPy2 => None,
        Package::PipPy3 => None,
        Package::NodeJs => if node_legacy(codename) {
            Some(seq!["nodejs"@, "nodejs-legacy"@])
        } else {
            Some(seq!["nodejs"@])
        },
        Package::NodeJsDev => Some(seq![]),
        Package::Npm => Some(seq![]),
        Package::Yarn => None,
        Package::Php => if php7(codename) {
            Some(seq!["php-common"@, "php-cli"@, "php-json"@, "php-zip"@])
        } else {
            Some(seq!["php5-common"@, "php5-cli"@])
        },
        Package::PhpDev => Some(seq![]),
        Package::Composer => None,
        Package::Ruby => if rubygems(codename) {
            Some(seq!["ruby"@, "rubygems"@])
        } else {
            Some(seq!["ruby"@])
        },
        Package::RubyDev => Some(seq![]),
        Package::Bundler => None,
        Package::Git => Some(seq![]),
        Package::Mercurial => Some(seq![]),
    }
}

/// The build dependencies of the feature `p` on the release `codename`.
pub open spec fn build_names(codename: Option<String>, p: Package) -> Option<Seq<Seq<char>>> {
    match p {
        Package::BuildEssential => Some(seq!["build-essential"@, "ca-certificates"@]),
        Package::Https => Some(seq!["ca-certificates"@]),
        Package::Python2 => Some(seq![]),
        Package::Python2Dev => Some(seq!["python-dev"@]),
        Package::Python3 => Some(seq![]),
        Package::Python3Dev => Some(seq!["python3-dev"@]),
        Package::PipPy2 => None,
        Package::PipPy3 => None,
        Package::NodeJs => Some(seq![]),
        Package::NodeJsDev => Some(seq!["nodejs-dev"@]),
        Package::Npm => Some(seq!["npm"@]),
        Package::Yarn => None,
        Package::Php => Some(seq![]),
        Package::PhpDev => if php7(codename) {
            Some(seq!["php-dev"@])
        } else {
            Some(seq!["php5-dev"@])
        },
        Package::Composer => None,
        Package::Ruby => Some(seq![]),
        Package::RubyDev => Some(seq!["ruby-dev"@]),
        Package::Bundler => None,
        Package::Git => Some(seq!["git"@]),
        Package::Mercurial => Some(seq!["mercurial"@]),
    }
}

/// The lists of the features `fs` on the release `codename`.
pub open spec fn dep_names(codename: Option<String>, fs: Seq<Package>) -> Seq<DepTexts> {
    fs.map_values(|p: Package| (build_names(codename, p), system_names(codename, p)))
}

/// Whether the known codename is `c`.
fn codename_eq(codename: &Option<String>, c: &str) -> (r: bool)
    ensures
        r == codename_is(*codename, c),
{
    match codename {
        Some(x) => same_text(x.as_str(), c),
        None => false,
    }
}

impl Distro {
    /// The state of a container that starts from the release `config`.
    pub fn new(config: UbuntuRelease) -> (r: Distro)
        ensures
            r.config == config,
            r.eatmydata == (if config.eatmydata {
                EatMyData::Need
            } else {
                EatMyData::No
            }),
            r.codename is None,
            r.apt_update,
            r.apt_https == AptHttps::No,
            !r.has_indices,
            !r.has_universe,
    {
        Distro {
            eatmydata: if config.eatmydata {
                EatMyData::Need
            } else {
                EatMyData::No
            },
            config: config,
            codename: None,
            apt_update: true,
            apt_https: AptHttps::No,
            has_indices: false,
            has_universe: false,
        }
    }

    /// Enables the `universe` component: the package index is updated before
    /// the next install.
    pub fn enable_universe(&mut self) -> (r: Result<(), String>)
        ensures
            r is Ok,
            final(self).has_universe,
            final(self).apt_update,
            final(self).config == old(self).config,
            final(self).codename == old(self).codename,
            final(self).apt_https == old(self).apt_https,
            final(self).has_indices == old(self).has_indices,
            final(self).eatmydata == old(self).eatmydata,
    {
        self.has_universe = true;
        self.apt_update = true;
        Ok(())
    }

    /// Whether Node.js needs the `nodejs-legacy` package.
    pub fn needs_node_legacy(&self) -> (r: bool)
        ensures
            r == node_legacy(self.codename),
    {
        match &self.codename {
            Some(c) => !same_text(c.as_str(), "precise"),
            None => false,
        }
    }

    /// Whether the release has PHP 7.
    pub fn has_php7(&self) -> (r: bool)
        ensures
            r == php7(self.codename),
    {
        match &self.codename {
            Some(c) => {
                let cs = c.as_str();
                !(same_text(cs, "precise") || same_text(cs, "trusty") || same_text(cs, "vivid")
                    || same_text(cs, "wily"))
            },
            None => false,
        }
    }

    /// Whether Ruby needs the `rubygems` package.
    pub fn needs_rubygems(&self) -> (r: bool)
        ensures
            r == rubygems(self.codename),
    {
        codename_eq(&self.codename, "precise")
    }

    /// The packages the feature `pkg` keeps.
    pub fn system_deps(&self, pkg: Package) -> (r: Option<Vec<&'static str>>)
        ensures
            opt_texts(r) == system_names(self.codename, pkg),
    {
        let r = match pkg {
            Package::BuildEssential => Some(vec![]),
            Package::Https => Some(vec![]),
            Package::Python2 => Some(vec!["python"]),
            Package::Python2Dev => Some(vec![]),
            Package::Python3 => Some(vec!["python3"]),
            Package::Python3Dev => Some(vec![]),
            Package::PipPy2 => None,
            Package::PipPy3 => None,
            Package::NodeJs => if self.needs_node_legacy() {
                Some(vec!["nodejs", "nodejs-legacy"])
            } else {
                Some(vec!["nodejs"])
            },
            Package::NodeJsDev => Some(vec![]),
            Package::Npm => Some(vec![]),
            Package::Yarn => None,
            Package::Php => if self.has_php7() {
                Some(vec!["php-common", "php-cli", "php-json", "php-zip"])
            } else {
                Some(vec!["php5-common", "php5-cli"])
            },
            Package::PhpDev => Some(vec![]),
            Package::Composer => None,
            Package::Ruby => if self.needs_rubygems() {
                Some(vec!["ruby", "rubygems"])
            } else {
                Some(vec!["ruby"])
            },
            Package::RubyDev => Some(vec![]),
            Package::Bundler => None,
            Package::Git => Some(vec![]),
            Package::Mercurial => Some(vec![]),
        };
        proof {
            if r is Some {
                assert(texts(r->0@) =~= system_names(self.codename, pkg)->0);
            }
        }
        r
    }

    /// The build dependencies of the feature `pkg`.
    pub fn build_deps(&self, pkg: Package) -> (r: Option<Vec<&'static str>>)
        ensures
            opt_texts(r) == build_names(self.codename, pkg),
    {
        let r = match pkg {
            Package::BuildEssential => Some(vec!["build-essential", "ca-certificates"]),
            Package::Https => Some(vec!["ca-certificates"]),
            Package::Python2 => Some(vec![]),
            Package::Python2Dev => Some(vec!["python-dev"]),
            Package::Python3 => Some(vec![]),
            Package::Python3Dev => Some(vec!["python3-dev"]),
            Package::PipPy2 => None,
            Package::PipPy3 => None,
            Package::NodeJs => Some(vec![]),
            Package::NodeJsDev => Some(vec!["nodejs-dev"]),
            Package::Npm => Some(vec!["npm"]),
            Package::Yarn => None,
            Package::Php => Some(vec![]),
            Package::PhpDev => if self.has_php7() {
                Some(vec!["php-dev"])
            } else {
                Some(vec!["php5-dev"])
            },
            Package::Composer => None,
            Package::Ruby => Some(vec![]),
            Package::RubyDev => Some(vec!["ruby-dev"]),
            Package::Bundler => None,
            Package::Git => Some(vec!["git"]),
            Package::Mercurial => Some(vec!["mercurial"]),
        };
        proof {
            if r is Some {
                assert(texts(r->0@) =~= build_names(self.codename, pkg)->0);
            }
        }
        r
    }

    /// Decides what to install for the features `features` and takes the new
    /// packages into `sets`. The `universe` component is enabled first where
    /// it is not yet (the first result says whether it was, so that its
    /// sources get written); then come the packages to install (with
    /// `apt-get install`, where there are any) and the features that Ubuntu
    /// does not provide.
    pub fn ensure_packages(&mut self, sets: &mut PackageSets, features: &[Package]) -> (r: (
        bool,
        Vec<String>,
        Vec<Package>,
    ))
        ensures
            r.0 == !old(self).has_universe,
            final(self).has_universe,
            final(self).apt_update == (old(self).apt_update || !old(self).has_universe),
            final(self).config == old(self).config,
            final(self).codename == old(self).codename,
            final(self).apt_https == old(self).apt_https,
            final(self).has_indices == old(self).has_indices,
            final(self).eatmydata == old(self).eatmydata,
            plan_features(old(sets).start(), features@, dep_names(old(self).codename, features@))
                == (PlanView {
                packages: names(final(sets).packages@),
                build_deps: names(final(sets).build_deps@),
                to_install: names_seq(r.1@),
                unsupported: r.2@,
            }),
    {
        let add_universe = !self.has_universe;
        if add_universe {
            let _ = self.enable_universe();
        }
        let mut deps: Vec<DepLists> = Vec::new();
        let mut i: usize = 0;
        while i < features.len()
            invariant
                i <= features@.len(),
                deps@.len() == i,
                forall|k: int|
                    0 <= k < i ==> dep_texts(#[trigger] deps@[k]) == (
                        build_names(self.codename, features@[k]),
                        system_names(self.codename, features@[k]),
                    ),
            decreases features.len() - i,
        {
            let p = features[i];
            deps.push((self.build_deps(p), self.system_deps(p)));
            i = i + 1;
        }
        assert(deps_texts(deps@) =~= dep_names(self.codename, features@));
        let (to_install, unsupported) = sets.plan(features, &deps);
        (add_universe, to_install, unsupported)
    }
}

/// How `libeatmydata` is had on the release `codename` and architecture
/// `arch`, where vagga knows it.
pub open spec fn emd_params(codename: Seq<char>, arch: Seq<char>) -> Option<EMDParams> {
    if codename == "xenial"@ && arch == "amd64"@ {
        Some(
            EMDParams {
                needs_universe: false,
                package: "libeatmydata1",
                preload: "/usr/lib/x86_64-linux-gnu/libeatmydata.so",
            },
        )
    } else if codename == "xenial"@ && arch == "i386"@ {
        Some(
            EMDParams {
                needs_universe: false,
                package: "libeatmydata1",
                preload: "/usr/lib/i386-linux-gnu/libeatmydata.so",
            },
        )
    } else if codename == "trusty"@ || codename == "precise"@ {
        Some(
            EMDParams {
                needs_universe: true,
                package: "eatmydata",
                preload: "/usr/lib/libeatmydata/libeatmydata.so",
            },
        )
    } else {
        None
    }
}

impl EMDParams {
    /// How `libeatmydata` is had on the release `codename` and architecture
    /// `arch`; `None` where vagga does not know.
    pub fn find(codename: &str, arch: &str) -> (r: Option<EMDParams>)
        ensures
            r == emd_params(codename@, arch@),
    {
        if same_text(codename, "xenial") && same_text(arch, "amd64") {
            Some(
                EMDParams {
                    needs_universe: false,
                    package: "libeatmydata1",
                    preload: "/usr/lib/x86_64-linux-gnu/libeatmydata.so",
                },
            )
        } else if same_text(codename, "xenial") && same_text(arch, "i386") {
            Some(
                EMDParams {
                    needs_universe: false,
                    package: "libeatmydata1",
                    preload: "/usr/lib/i386-linux-gnu/libeatmydata.so",
                },
            )
        } else if same_text(codename, "trusty") || same_text(codename, "precise") {
            Some(
                EMDParams {
                    needs_universe: true,
                    package: "eatmydata",
                    preload: "/usr/lib/libeatmydata/libeatmydata.so",
                },
            )
        } else {
            None
        }
    }
}

/// The value of `LD_PRELOAD` that loads `preload` too, where `current` is
/// the value the container's environment sets, if any.
pub open spec fn preload_value(current: Option<Seq<char>>, preload: Seq<char>) -> Seq<char> {
    match current {
        Some(v) => if v.len() > 0 {
            v + seq![':'] + preload
        } else {
            preload
        },
        None => preload,
    }
}

/// The value of `LD_PRELOAD` for `apt-get install` under `libeatmydata`.
pub fn ld_preload(current: Option<&str>, preload: &str) -> (r: String)
    ensures
        r@ == preload_value(
            match current {
                Some(v) => Some(v@),
                None => None,
            },
            preload@,
        ),
{
    match current {
        Some(v) => {
            if v.unicode_len() > 0 {
                proof {
                    reveal_strlit(":");
                    assert(":"@ =~= seq![':']);
                }
                concat3(v, ":", preload)
            } else {
                String::from_str(preload)
            }
        },
        None => String::from_str(preload),
    }
}

/// How a repository string names its suite and component: `component`
/// (of the release's own suite) or `suite/component`; `None` for any other
/// form.
pub open spec fn repo_parts(s: Seq<char>) -> Option<(Option<Seq<char>>, Seq<char>)> {
    let p = split_on(s, '/');
    if p.len() == 1 {
        Some((None, p[0]))
    } else if p.len() == 2 {
        Some((Some(p[0]), p[1]))
    } else {
        None
    }
}

/// The suite that a repository string names, if any.
pub open spec fn repo_suite(s: Seq<char>) -> Option<Seq<char>> {
    let p = split_on(s, '/');
    if p.len() == 2 {
        Some(p[0])
    } else {
        None
    }
}

/// The component that a repository string names.
pub open spec fn repo_component(s: Seq<char>) -> Seq<char> {
    split_on(s, '/').last()
}

/// The message for a repository string that `repo_parts` does not accept.
pub open spec fn repo_error(s: Seq<char>) -> Seq<char> {
    "Cannot parse repository string. Should be in the next formats: 'suite/component' or 'component'. But was: '"@
        + s + "'"@
}

impl Distro {
    /// The repository named by `repo` (`component` or `suite/component`) on
    /// the mirror, not trusted; a bare component belongs to the release's
    /// own suite, which must be known by then.
    pub fn add_repo(&self, repo: &str) -> (r: Result<UbuntuRepo, String>)
        requires
            split_on(repo@, '/').len() == 1 ==> self.codename is Some,
        ensures
            r is Ok <==> repo_parts(repo@) is Some,
            r matches Err(e) ==> e@ == repo_error(repo@),
            r matches Ok(u) ==> u.url is None && !u.trusted && opt_text(u.suite) == Some(
                or_suite(repo_suite(repo@), self.codename),
            ) && string_views(u.components@) == seq![repo_component(repo@)],
    {
        let parts = split_char(repo, '/');
        proof {
            lemma_split_on_len(repo@, '/');
        }
        if parts.len() > 2 {
            return Err(concat3(
                "Cannot parse repository string. Should be in the next formats: 'suite/component' or 'component'. But was: '",
                repo,
                "'",
            ));
        }
        let (suite, component) = if parts.len() == 1 {
            let c = match &self.codename {
                Some(c) => c.clone(),
                None => String::new(),
            };
            (c, parts[0].clone())
        } else {
            (parts[0].clone(), parts[1].clone())
        };
        let components = vec![component];
        assert(string_views(components@) =~= seq![repo_component(repo@)]);
        Ok(UbuntuRepo { url: None, suite: Some(suite), components: components, trusted: false })
    }
}

/// The suite of a repository: the one it names, or else the codename.
pub open spec fn or_suite(named: Option<Seq<char>>, codename: Option<String>) -> Seq<char> {
    match named {
        Some(s) => s,
        None => codename->0@,
    }
}

/// The mirror that vagga uses where the settings name none.
pub const DEFAULT_MIRROR: &'static str = "mirror://mirrors.ubuntu.com/mirrors.txt";

/// The Ubuntu mirror: the one the settings name, or the default one.
pub fn ubuntu_mirror(setting: &Option<String>) -> (r: String)
    ensures
        r@ == match setting {
            Some(m) => m@,
            None => DEFAULT_MIRROR@,
        },
{
    match setting {
        Some(m) => m.clone(),
        None => String::from_str(DEFAULT_MIRROR),
    }
}

/// The components of a sources line, each after a space.
pub open spec fn components_tail(cs: Seq<Seq<char>>) -> Seq<char>
    decreases cs.len(),
{
    if cs.len() == 0 {
        seq![]
    } else {
        components_tail(cs.drop_last()) + " "@ + cs.last()
    }
}

/// The line of an apt sources list for `suite` of the repository at `url`.
pub open spec fn sources_line(trusted: bool, url: Seq<char>, suite: Seq<char>, cs: Seq<Seq<char>>) -> Seq<
    char,
> {
    "deb"@ + (if trusted {
        " [trusted=yes] "@
    } else {
        " "@
    }) + url + " "@ + suite + components_tail(cs)
}

impl Distro {
    /// The sources line of the repository `repo`: at its url or the mirror,
    /// for its suite or the release's own (known by then); the package index
    /// is updated before the next install.
    pub fn add_debian_repo(&mut self, repo: &UbuntuRepo, mirror: &str) -> (r: String)
        requires
            repo.suite is Some || old(self).codename is Some,
        ensures
            r@ == sources_line(
                repo.trusted,
                match repo.url {
                    Some(u) => u@,
                    None => mirror@,
                },
                or_suite(opt_text(repo.suite), old(self).codename),
                string_views(repo.components@),
            ),
            final(self).apt_update,
            final(self).config == old(self).config,
            final(self).codename == old(self).codename,
            final(self).apt_https == old(self).apt_https,
            final(self).has_indices == old(self).has_indices,
            final(self).has_universe == old(self).has_universe,
            final(self).eatmydata == old(self).eatmydata,
    {
        self.apt_update = true;
        let url: &str = match &repo.url {
            Some(u) => u.as_str(),
            None => mirror,
        };
        let suite: &str = match &repo.suite {
            Some(s) => s.as_str(),
            None => match &self.codename {
                Some(c) => c.as_str(),
                None => "",
            },
        };
        let mut line = String::from_str("deb");
        if repo.trusted {
            line.append(" [trusted=yes] ");
        } else {
            line.append(" ");
        }
        line.append(url);
        line.append(" ");
        line.append(suite);
        let ghost head = line@;
        let mut i: usize = 0;
        assert(string_views(repo.components@).take(0) =~= seq![]);
        assert(head + components_tail(seq![]) =~= head);
        while i < repo.components.len()
            invariant
                i <= repo.components@.len(),
                line@ == head + components_tail(string_views(repo.components@).take(i as int)),
            decreases repo.components.len() - i,
        {
            let ghost cs = string_views(repo.components@);
            assert(cs.take(i + 1).drop_last() =~= cs.take(i as int));
            assert(cs.take(i + 1).last() == repo.components@[i as int]@);
            line.append(" ");
            line.append(repo.components[i].as_str());
            assert(line@ =~= head + components_tail(cs.take(i + 1)));
            i = i + 1;
        }
        assert(string_views(repo.components@).take(i as int) =~= string_views(repo.components@));
        line
    }

    /// The repository of the Launchpad PPA `name` for this release, whose
    /// codename is known by then.
    pub fn add_ubuntu_ppa(&self, name: &str) -> (r: UbuntuRepo)
        requires
            self.codename is Some,
        ensures
            opt_text(r.url) == Some("http://ppa.launchpad.net/"@ + name@ + "/ubuntu"@),
            opt_text(r.suite) == Some(self.codename->0@),
            string_views(r.components@) == seq!["main"@],
            !r.trusted,
    {
        let suite = match &self.codename {
            Some(c) => c.clone(),
            None => String::new(),
        };
        let components = vec![String::from_str("main")];
        assert(string_views(components@) =~= seq!["main"@]);
        UbuntuRepo {
            url: Some(concat3("http://ppa.launchpad.net/", name, "/ubuntu")),
            suite: Some(suite),
            components: components,
            trusted: false,
        }
    }

    /// Takes the codename read from the unpacked release: it must be the one
    /// known before, if any.
    pub fn set_codename(&mut self, codename: String) -> (r: Result<(), String>)
        ensures
            r is Err <==> (old(self).codename is Some && old(self).codename->0@ != codename@),
            r matches Err(e) ==> e@ == "Codename mismatch. This is either bug of vagga or may be damaged archive"@,
            r is Ok ==> opt_text(final(self).codename) == Some(codename@),
            final(self).config == old(self).config,
            final(self).apt_update == old(self).apt_update,
            final(self).apt_https == old(self).apt_https,
            final(self).has_indices == old(self).has_indices,
            final(self).has_universe == old(self).has_universe,
            final(self).eatmydata == old(self).eatmydata,
    {
        match &self.codename {
            Some(c) => {
                if !same_text(c.as_str(), codename.as_str()) {
                    return Err(
                        String::from_str(
                            "Codename mismatch. This is either bug of vagga or may be damaged archive",
                        ),
                    );
                }
                Ok(())
            },
            None => {
                self.codename = Some(codename);
                Ok(())
            },
        }
    }

    /// Takes note of a repository that a build step adds: one served over
    /// https needs the https transport of apt.
    pub fn note_repo(&mut self, repo: &UbuntuRepo)
        ensures
            final(self).apt_https == (if old(self).apt_https == AptHttps::No && (repo.url is Some
                && has_prefix(repo.url->0@, "https:"@)) {
                AptHttps::Need
            } else {
                old(self).apt_https
            }),
            final(self).config == old(self).config,
            final(self).codename == old(self).codename,
            final(self).apt_update == old(self).apt_update,
            final(self).has_indices == old(self).has_indices,
            final(self).has_universe == old(self).has_universe,
            final(self).eatmydata == old(self).eatmydata,
    {
        let https = match &repo.url {
            Some(u) => str_starts_with(u.as_str(), "https:"),
            None => false,
        };
        if https && self.apt_https == AptHttps::No {
            self.apt_https = AptHttps::Need;
        }
    }
}

/// The arguments of `apt-key` that import the keys of `key`.
pub open spec fn apt_key_args(server: Option<Seq<char>>, keys: Seq<Seq<char>>) -> Seq<Seq<char>> {
    seq![
        "adv"@,
        "--keyserver"@,
        match server {
            Some(s) => s,
            None => "keyserver.ubuntu.com"@,
        },
        "--recv-keys"@,
    ] + keys
}

impl AptTrust {
    /// The arguments of `apt-key` that import these keys.
    pub fn key_args(&self) -> (r: Vec<String>)
        ensures
            string_views(r@) == apt_key_args(opt_text(self.server), string_views(self.keys@)),
    {
        let mut r: Vec<String> = Vec::new();
        r.push(String::from_str("adv"));
        r.push(String::from_str("--keyserver"));
        match &self.server {
            Some(s) => r.push(s.clone()),
            None => r.push(String::from_str("keyserver.ubuntu.com")),
        }
        r.push(String::from_str("--recv-keys"));
        let ghost head = string_views(r@);
        let mut i: usize = 0;
        while i < self.keys.len()
            invariant
                i <= self.keys@.len(),
                string_views(r@) == head + string_views(self.keys@).take(i as int),
            decreases self.keys.len() - i,
        {
            let ghost r0 = r@;
            let k = self.keys[i].clone();
            assert(k@ == string_views(self.keys@)[i as int]);
            r.push(k);
            assert(string_views(r@) =~= string_views(r0).push(k@));
            assert(string_views(self.keys@).take(i + 1) =~= string_views(self.keys@).take(i as int).push(k@));
            assert(string_views(r@) =~= head + string_views(self.keys@).take(i + 1));
            i = i + 1;
        }
        assert(string_views(self.keys@).take(i as int) =~= string_views(self.keys@));
        assert(head =~= seq![
            "adv"@,
            "--keyserver"@,
            match opt_text(self.server) {
                Some(s) => s,
                None => "keyserver.ubuntu.com"@,
            },
            "--recv-keys"@,
        ]);
        r
    }
}

/// The sources list that enables `universe` for the release `codename`.
pub open spec fn universe_list(mirror: Seq<char>, codename: Seq<char>) -> Seq<char> {
    "deb "@ + mirror + " "@ + codename + " universe\n"@ + "deb "@ + mirror + " "@ + codename
        + "-updates universe\n"@ + "deb "@ + mirror + " "@ + codename + "-security universe\n"@
}

/// The sources list that enables `universe` for the release `codename`.
pub fn universe_sources(mirror: &str, codename: &str) -> (r: String)
    ensures
        r@ == universe_list(mirror@, codename@),
{
    let mut r = String::from_str("deb ");
    r.append(mirror);
    r.append(" ");
    r.append(codename);
    r.append(" universe\n");
    r.append("deb ");
    r.append(mirror);
    r.append(" ");
    r.append(codename);
    r.append("-updates universe\n");
    r.append("deb ");
    r.append(mirror);
    r.append(" ");
    r.append(codename);
    r.append("-security universe\n");
    r
}

/// `k` is the position of the first `c` in `l`.
pub open spec fn is_first(l: Seq<char>, c: char, k: int) -> bool {
    0 <= k < l.len() && l[k] == c && forall|j: int| 0 <= j < k ==> l[j] != c
}

/// The codename that a line of `/etc/lsb-release` gives: the value after
/// the first `=` where the key before it is `DISTRIB_CODENAME`, both
/// trimmed.
pub open spec fn lsb_value(l: Seq<char>) -> Option<Seq<char>> {
    if exists|k: int| is_first(l, '=', k) {
        let k = choose|k: int| is_first(l, '=', k);
        if trim_spec(l.take(k)) == "DISTRIB_CODENAME"@ {
            Some(trim_spec(l.skip(k + 1)))
        } else {
            None
        }
    } else {
        None
    }
}

/// The codename that the first line of `ls` that gives one gives.
pub open spec fn lsb_codename(ls: Seq<Seq<char>>) -> Option<Seq<char>>
    decreases ls.len(),
{
    if ls.len() == 0 {
        None
    } else {
        match lsb_value(ls[0]) {
            Some(v) => Some(v),
            None => lsb_codename(ls.drop_first()),
        }
    }
}

/// The message when `/etc/lsb-release` gives no codename.
pub open spec fn lsb_error() -> Seq<char> {
    "Coudn't read codename from '/vagga/root/etc/lsb-release'"@
}

/// The codename that one line of `/etc/lsb-release` gives, if any.
fn lsb_line_value(line: &str) -> (r: Option<String>)
    ensures
        opt_text(r) == lsb_value(line@),
{
    let v = chars_of(line);
    let mut k: usize = 0;
    while k < v.len() && v[k] != '='
        invariant
            k <= v@.len(),
            forall|j: int| 0 <= j < k ==> v@[j] != '=',
        decreases v.len() - k,
    {
        k = k + 1;
    }
    if k == v.len() {
        assert(!exists|k2: int| is_first(line@, '=', k2)) by {
            if exists|k2: int| is_first(line@, '=', k2) {
                let k2 = choose|k2: int| is_first(line@, '=', k2);
                assert(v@[k2] == '=');
            }
        }
        return None;
    }
    assert(is_first(line@, '=', k as int));
    assert forall|k2: int| is_first(line@, '=', k2) implies k2 == k as int by {
        if k2 < k {
            assert(v@[k2] != '=');
        } else if k2 > k {
            assert(line@[k as int] == '=');
        }
    }
    let key = string_of(&v, 0, k);
    let key_t = trim(key.as_str());
    assert(v@.subrange(0, k as int) =~= line@.take(k as int));
    if same_text(key_t.as_str(), "DISTRIB_CODENAME") {
        let value = string_of(&v, k + 1, v.len());
        assert(v@.subrange(k + 1, v@.len() as int) =~= line@.skip(k + 1));
        Some(trim(value.as_str()))
    } else {
        None
    }
}

/// The codename of the release that `lsb_release` (the text of
/// `/etc/lsb-release`) describes.
pub fn codename_from_lsb(lsb_release: &str) -> (r: Result<String, String>)
    ensures
        r is Ok <==> lsb_codename(crate::text::lines_of(lsb_release@)) is Some,
        r matches Ok(c) ==> Some(c@) == lsb_codename(crate::text::lines_of(lsb_release@)),
        r matches Err(e) ==> e@ == lsb_error(),
{
    let lines = crate::text::text_lines(lsb_release);
    let ghost ls = crate::text::lines_of(lsb_release@);
    let mut i: usize = 0;
    assert(ls.skip(0) =~= ls);
    while i < lines.len()
        invariant
            ls == crate::text::lines_of(lsb_release@),
            string_views(lines@) == ls,
            i <= lines@.len(),
            lsb_codename(ls) == lsb_codename(ls.skip(i as int)),
        decreases lines.len() - i,
    {
        assert(ls.skip(i as int)[0] == lines@[i as int]@);
        match lsb_line_value(lines[i].as_str()) {
            Some(c) => {
                assert(ls.skip(i as int).len() > 0);
                assert(lsb_value(ls.skip(i as int)[0]) == Some(c@));
                return Ok(c);
            },
            None => {},
        }
        assert(ls.skip(i as int).drop_first() =~= ls.skip(i + 1));
        i = i + 1;
    }
    assert(ls.skip(i as int) =~= Seq::<Seq<char>>::empty());
    Err(String::from_str("Coudn't read codename from '/vagga/root/etc/lsb-release'"))
}

/// The version that a release version stands for: its first five
/// characters where a `.` follows them (`12.04.5` is `12.04`).
pub open spec fn short_version(v: Seq<char>) -> Seq<char> {
    match crate::text::byte_prefix_of(v, 5) {
        Some(p) => if p.len() < v.len() && v[p.len() as int] == '.' {
            p
        } else {
            v
        },
        None => v,
    }
}

/// The codename of the release with the version `v`, for the versions that
/// vagga knows.
pub open spec fn version_codename(v: Seq<char>) -> Option<Seq<char>> {
    if v == "12.04"@ {
        Some("precise"@)
    } else if v == "14.04"@ {
        Some("trusty"@)
    } else if v == "14.10"@ {
        Some("utopic"@)
    } else if v == "15.04"@ {
        Some("vivid"@)
    } else if v == "15.10"@ {
        Some("wily"@)
    } else if v == "16.04"@ {
        Some("xenial"@)
    } else {
        None
    }
}

/// The urls of the core image of the release `codename` for `arch`.
pub open spec fn core_image_urls(codename: Seq<char>, arch: Seq<char>) -> Seq<Seq<char>> {
    seq![
        "https://partner-images.canonical.com/core/"@ + codename + "/current/ubuntu-"@ + codename
            + "-core-cloudimg-"@ + arch + "-root.tar.gz"@,
        "https://partner-images.canonical.com/core/unsupported/"@ + codename + "/current/ubuntu-"@
            + codename + "-core-cloudimg-"@ + arch + "-root.tar.gz"@,
    ]
}

/// The message for a release version that vagga does not know.
pub open spec fn unknown_version_error(v: Seq<char>) -> Seq<char> {
    "Unknown version "@ + crate::text::debug_text(v)
        + ". Note, we only have certain number of hardcoded versions for backwards-compatibility. You should use `codename` property (or `!Ubuntu` step) for first-class support"@
}

/// The message for a release that names neither a codename, a version nor
/// a url.
pub open spec fn no_release_error() -> Seq<char> {
    "UbuntuRelease tag must contain one of `codename` (preferred), `version` (deprecated) or `url` (if you need something special)"@
}

/// The urls to download the core image of a release from: its own url; or,
/// by its version (which vagga must know) or its codename, the image on the
/// Canonical servers and the one in their archive of unsupported releases.
pub open spec fn release_urls(rel: UbuntuRelease) -> Result<Seq<Seq<char>>, Seq<char>> {
    match rel.url {
        Some(u) => Ok(seq![u@]),
        None => match rel.version {
            Some(v) => match version_codename(short_version(v@)) {
                Some(c) => Ok(core_image_urls(c, rel.arch@)),
                None => Err(unknown_version_error(v@)),
            },
            None => match rel.codename {
                Some(c) => Ok(core_image_urls(c@, rel.arch@)),
                None => Err(no_release_error()),
            },
        },
    }
}

/// The urls of the core image of the release `codename` for `arch`.
fn image_urls(codename: &str, arch: &str) -> (r: Vec<String>)
    ensures
        string_views(r@) == core_image_urls(codename@, arch@),
{
    let mut a = String::from_str("https://partner-images.canonical.com/core/");
    a.append(codename);
    a.append("/current/ubuntu-");
    a.append(codename);
    a.append("-core-cloudimg-");
    a.append(arch);
    a.append("-root.tar.gz");
    let mut b = String::from_str("https://partner-images.canonical.com/core/unsupported/");
    b.append(codename);
    b.append("/current/ubuntu-");
    b.append(codename);
    b.append("-core-cloudimg-");
    b.append(arch);
    b.append("-root.tar.gz");
    let r = vec![a, b];
    assert(string_views(r@) =~= core_image_urls(codename@, arch@));
    r
}

/// The codename of the release version `v`, for the versions vagga knows.
fn codename_of_version(v: &str) -> (r: Option<&'static str>)
    ensures
        match r {
            Some(c) => version_codename(v@) == Some(c@),
            None => version_codename(v@) is None,
        },
{
    if same_text(v, "12.04") {
        Some("precise")
    } else if same_text(v, "14.04") {
        Some("trusty")
    } else if same_text(v, "14.10") {
        Some("utopic")
    } else if same_text(v, "15.04") {
        Some("vivid")
    } else if same_text(v, "15.10") {
        Some("wily")
    } else if same_text(v, "16.04") {
        Some("xenial")
    } else {
        None
    }
}

impl UbuntuRelease {
    /// The urls to download the core image of this release from.
    pub fn image_urls(&self) -> (r: Result<Vec<String>, String>)
        requires
            self.url is None && self.version is Some ==> (crate::text::bytes_len(self.version->0@) <= 5
                || crate::text::byte_prefix_of(self.version->0@, 5) is Some),
        ensures
            match r {
                Ok(us) => release_urls(*self) == Ok::<Seq<Seq<char>>, Seq<char>>(string_views(us@)),
                Err(e) => release_urls(*self) == Err::<Seq<Seq<char>>, Seq<char>>(e@),
            },
    {
        match &self.url {
            Some(u) => {
                let r = vec![u.clone()];
                assert(string_views(r@) =~= seq![u@]);
                Ok(r)
            },
            None => match &self.version {
                Some(version) => {
                    let v = chars_of(version.as_str());
                    let short = match crate::text::byte_prefix(version.as_str(), 5) {
                        Some(p) => {
                            let pv = chars_of(p.as_str());
                            if pv.len() < v.len() && v[pv.len()] == '.' {
                                p
                            } else {
                                String::from_str(version.as_str())
                            }
                        },
                        None => String::from_str(version.as_str()),
                    };
                    assert(short@ =~= short_version(version@));
                    match codename_of_version(short.as_str()) {
                        Some(c) => Ok(image_urls(c, self.arch.as_str())),
                        None => {
                            let quoted = crate::text::debug_quote(version.as_str());
                            Err(concat3(
                                "Unknown version ",
                                quoted.as_str(),
                                ". Note, we only have certain number of hardcoded versions for backwards-compatibility. You should use `codename` property (or `!Ubuntu` step) for first-class support",
                            ))
                        },
                    }
                },
                None => match &self.codename {
                    Some(c) => Ok(image_urls(c.as_str(), self.arch.as_str())),
                    None => Err(
                        String::from_str(
                            "UbuntuRelease tag must contain one of `codename` (preferred), `version` (deprecated) or `url` (if you need something special)",
                        ),
                    ),
                },
            },
        }
    }
}

/// What runs before `apt-get install`, in this order: the https transport
/// is installed (as build dependencies, after an update of the main
/// sources only); the package lists are copied from the cache; the
/// `universe` sources are written; the package index is updated; the
/// package of `libeatmydata` is installed.
#[derive(Debug)]
pub struct InstallPrep {
    pub install_https: bool,
    pub copy_lists: bool,
    pub add_universe: bool,
    pub update: bool,
    pub eatmydata_package: Option<&'static str>,
}

/// How `libeatmydata` is had on the release of `d`, whose codename is known.
pub open spec fn emd_of(d: Distro) -> Option<EMDParams> {
    emd_params(d.codename->0@, d.config.arch@)
}

impl Distro {
    /// Decides what runs before the next `apt-get install` and takes it into
    /// the state. Nothing runs unless the package index is to be updated;
    /// then the codename must be known.
    pub fn prepare_install(&mut self) -> (r: InstallPrep)
        requires
            old(self).apt_update ==> old(self).codename is Some,
        ensures
            ({
                let o = *old(self);
                let emd = if o.apt_update && o.eatmydata == EatMyData::Need {
                    emd_of(o)
                } else {
                    None
                };
                &&& r.install_https == (o.apt_update && o.apt_https == AptHttps::Need)
                &&& r.copy_lists == (o.apt_update && !o.has_indices)
                &&& r.add_universe == (emd is Some && emd->0.needs_universe)
                &&& r.update == o.apt_update
                &&& r.eatmydata_package == match emd {
                    Some(p) => Some(p.package),
                    None => None,
                }
                &&& !o.apt_update ==> *final(self) == o
                &&& o.apt_update ==> {
                    &&& !final(self).apt_update
                    &&& final(self).apt_https == if o.apt_https == AptHttps::Need {
                        AptHttps::Installed
                    } else {
                        o.apt_https
                    }
                    &&& final(self).has_indices
                    &&& final(self).has_universe == (o.has_universe || r.add_universe)
                    &&& final(self).eatmydata == if o.eatmydata == EatMyData::Need {
                        match emd {
                            Some(p) => EatMyData::Preload(p.preload),
                            None => EatMyData::No,
                        }
                    } else {
                        o.eatmydata
                    }
                    &&& final(self).config == o.config
                    &&& final(self).codename == o.codename
                }
            }),
    {
        let mut prep = InstallPrep {
            install_https: false,
            copy_lists: false,
            add_universe: false,
            update: false,
            eatmydata_package: None,
        };
        if !self.apt_update {
            return prep;
        }
        if self.apt_https == AptHttps::Need {
            prep.install_https = true;
            self.apt_https = AptHttps::Installed;
        }
        if !self.has_indices {
            prep.copy_lists = true;
            self.has_indices = true;
        }
        if let EatMyData::Need = self.eatmydata {
            let codename: &str = match &self.codename {
                Some(c) => c.as_str(),
                None => "",
            };
            match EMDParams::find(codename, self.config.arch.as_str()) {
                Some(params) => {
                    if params.needs_universe {
                        let _ = self.enable_universe();
                        prep.add_universe = true;
                    }
                    prep.eatmydata_package = Some(params.package);
                    self.eatmydata = EatMyData::Preload(params.preload);
                },
                None => {
                    self.eatmydata = EatMyData::No;
                },
            }
        }
        self.apt_update = false;
        prep.update = true;
        prep
    }
}

/// The archive that the sources list of a core image points to.
pub const ARCHIVE_URL: &'static str = "http://archive.ubuntu.com/ubuntu/";

/// The lines `ls` of a sources list, each pointing to `mirror` instead of
/// the Ubuntu archive, and each ending with a newline.
pub open spec fn mirrored_lines(ls: Seq<Seq<char>>, mirror: Seq<char>) -> Seq<char>
    decreases ls.len(),
{
    if ls.len() == 0 {
        seq![]
    } else {
        mirrored_lines(ls.drop_last(), mirror) + crate::text::replace_spec(
            ls.last(),
            ARCHIVE_URL@,
            mirror,
        ) + seq!['\n']
    }
}

/// The sources list `sources` pointing to `mirror` instead of the Ubuntu
/// archive.
pub fn mirror_sources(sources: &str, mirror: &str) -> (r: String)
    ensures
        r@ == mirrored_lines(crate::text::lines_of(sources@), mirror@),
{
    let lines = crate::text::text_lines(sources);
    let ghost ls = crate::text::lines_of(sources@);
    let mut out = String::new();
    let mut i: usize = 0;
    assert(ls.take(0) =~= seq![]);
    proof {
        reveal_strlit("http://archive.ubuntu.com/ubuntu/");
    }
    assert(ARCHIVE_URL@.len() > 0);
    while i < lines.len()
        invariant
            string_views(lines@) == ls,
            i <= lines@.len(),
            ARCHIVE_URL@.len() > 0,
            out@ == mirrored_lines(ls.take(i as int), mirror@),
        decreases lines.len() - i,
    {
        let line = crate::text::replace_all(lines[i].as_str(), ARCHIVE_URL, mirror);
        out.append(line.as_str());
        push_char(&mut out, '\n');
        assert(ls.take(i + 1).drop_last() =~= ls.take(i as int));
        assert(ls.take(i + 1).last() == lines@[i as int]@);
        i = i + 1;
    }
    assert(ls.take(i as int) =~= ls);
    out
}


/// The directory of the cache that keeps the package lists of the release
/// `codename` between builds.
pub open spec fn apt_lists_cache_spec(codename: Seq<char>) -> Seq<char> {
    "/vagga/cache/apt-lists-"@ + codename
}

/// The directory where apt keeps the package lists of the container being
/// built.
pub const APT_LISTS_DIR: &'static str = "/vagga/root/var/lib/apt/lists";

impl Distro {
    /// The cache directory of the package lists of this release, whose
    /// codename is known.
    pub fn apt_lists_cache(&self) -> (r: String)
        requires
            self.codename is Some,
        ensures
            r@ == apt_lists_cache_spec(self.codename->0@),
    {
        let codename: &str = match &self.codename {
            Some(c) => c.as_str(),
            None => "",
        };
        concat("/vagga/cache/apt-lists-", codename)
    }

    /// Which of the package lists `names` go to the cache when the build
    /// ends: none unless the lists were fetched in this build, and never the
    /// `lock` file; the others in their order.
    pub fn lists_to_cache(&self, names: &Vec<String>) -> (r: Vec<String>)
        ensures
            string_views(r@) == if self.has_indices {
                string_views(names@).filter(|n: Seq<char>| n != "lock"@)
            } else {
                Seq::<Seq<char>>::empty()
            },
    {
        let mut r: Vec<String> = Vec::new();
        if !self.has_indices {
            assert(string_views(r@) =~= Seq::<Seq<char>>::empty());
            return r;
        }
        let ghost pred = |n: Seq<char>| n != "lock"@;
        let ghost t = string_views(names@);
        let mut i: usize = 0;
        assert(t.take(0).filter(pred) =~= seq![]);
        assert(string_views(r@) =~= seq![]);
        while i < names.len()
            invariant
                i <= names@.len(),
                t == string_views(names@),
                pred == (|n: Seq<char>| n != "lock"@),
                string_views(r@) == t.take(i as int).filter(pred),
            decreases names.len() - i,
        {
            let ghost r0 = string_views(r@);
            if !same_text(names[i].as_str(), "lock") {
                let x = names[i].clone();
                let ghost xv = x@;
                r.push(x);
                assert(string_views(r@) =~= r0.push(xv));
            }
            proof {
                assert(t[i as int] == names@[i as int]@);
                assert(t.take(i + 1) =~= t.take(i as int).push(t[i as int]));
                t.take(i as int).lemma_filter_push(t[i as int], pred);
            }
            i = i + 1;
        }
        assert(t.take(i as int) =~= t);
        r
    }
}

/// Where the package list `name` is copied into `dir`: first under a
/// temporary name, which is then renamed to the second.
pub fn staged_copy(dir: &str, name: &str) -> (r: (String, String))
    ensures
        r.0@ == join_path(dir@, ".tmp."@ + name@),
        r.1@ == join_path(dir@, name@),
{
    let tmp = concat(".tmp.", name);
    (path_join(dir, tmp.as_str()), path_join(dir, name))
}

impl Ubuntu {
    /// What versions the step: its codename.
    pub open spec fn hash_items(self) -> Seq<ItemView> {
        seq![
            text_item("Ubuntu"@, self.0@),
        ]
    }

    /// Feeds what versions the step into `h`.
    pub fn hash(&self, h: &mut VersionHash)
        ensures
            final(h)@ == old(h)@ + self.hash_items(),
    {
        let ghost h0 = h@;
        h.field_text("Ubuntu", self.0.as_str());
        assert(h@ =~= h0 + self.hash_items());
    }
}

impl UbuntuPPA {
    /// What versions the step: the name of the archive.
    pub open spec fn hash_items(self) -> Seq<ItemView> {
        seq![
            text_item("UbuntuPPA"@, self.0@),
        ]
    }

    /// Feeds what versions the step into `h`.
    pub fn hash(&self, h: &mut VersionHash)
        ensures
            final(h)@ == old(h)@ + self.hash_items(),
    {
        let ghost h0 = h@;
        h.field_text("UbuntuPPA", self.0.as_str());
        assert(h@ =~= h0 + self.hash_items());
    }
}

impl AptTrust {
    /// What versions the step: the key server and the keys.
    pub open spec fn hash_items(self) -> Seq<ItemView> {
        seq![
            opt_text_item("server"@, self.server),
            texts_item("keys"@, self.keys@),
        ]
    }

    /// Feeds what versions the step into `h`.
    pub fn hash(&self, h: &mut VersionHash)
        ensures
            final(h)@ == old(h)@ + self.hash_items(),
    {
        let ghost h0 = h@;
        h.opt_field_text("server", &self.server);
        h.field_texts("keys", &self.keys);
        assert(h@ =~= h0 + self.hash_items());
    }
}

impl UbuntuRepo {
    /// What versions the step: the address, suite and components, and whether it is trusted.
    pub open spec fn hash_items(self) -> Seq<ItemView> {
        seq![
            opt_text_item("url"@, self.url),
            opt_text_item("suite"@, self.suite),
            texts_item("components"@, self.components@),
            flag_item("trusted"@, self.trusted),
        ]
    }

    /// Feeds what versions the step into `h`.
    pub fn hash(&self, h: &mut VersionHash)
        ensures
            final(h)@ == old(h)@ + self.hash_items(),
    {
        let ghost h0 = h@;
        h.opt_field_text("url", &self.url);
        h.opt_field_text("suite", &self.suite);
        h.field_texts("components", &self.components);
        h.field_flag("trusted", self.trusted);
        assert(h@ =~= h0 + self.hash_items());
    }
}

impl UbuntuRelease {
    /// What versions the step: the codename, version or address of the release, the architecture, and whether `chfn` is kept.
    pub open spec fn hash_items(self) -> Seq<ItemView> {
        seq![
            opt_text_item("codename"@, self.codename),
            opt_text_item("version"@, self.version),
            opt_text_item("url"@, self.url),
            text_item("arch"@, self.arch@),
            flag_item("keep_chfn_command"@, self.keep_chfn_command),
        ]
    }

    /// Feeds what versions the step into `h`.
    pub fn hash(&self, h: &mut VersionHash)
        ensures
            final(h)@ == old(h)@ + self.hash_items(),
    {
        let ghost h0 = h@;
        h.opt_field_text("codename", &self.codename);
        h.opt_field_text("version", &self.version);
        h.opt_field_text("url", &self.url);
        h.field_text("arch", self.arch.as_str());
        h.field_flag("keep_chfn_command", self.keep_chfn_command);
        assert(h@ =~= h0 + self.hash_items());
    }
}

impl UbuntuUniverse {
    /// What versions the step: nothing, as there is one such step.
    pub open spec fn hash_items(self) -> Seq<ItemView> {
        seq![]
    }

    /// Feeds what versions the step into `h`: nothing.
    pub fn hash(&self, h: &mut VersionHash)
        ensures
            final(h)@ == old(h)@ + self.hash_items(),
    {
        assert(h@ =~= h@ + self.hash_items());
    }
}

/// The search path of the commands of an Ubuntu container.
pub const UBUNTU_PATH: &'static str = "/usr/local/sbin:/usr/local/bin:/usr/sbin:/usr/bin:/sbin:/bin:/usr/games:/usr/local/games";

/// The environment `env` with what the commands of an Ubuntu container
/// need: a non-interactive package frontend, an UTF-8 locale and the
/// search path.
pub open spec fn ubuntu_environ(env: Map<Seq<char>, Seq<char>>) -> Map<Seq<char>, Seq<char>> {
    env.insert("DEBIAN_FRONTEND"@, "noninteractive"@).insert("LANG"@, "en_US.UTF-8"@).insert(
        "PATH"@,
        UBUNTU_PATH@,
    )
}

/// Sets up the build of an Ubuntu container: the cache of downloaded
/// packages (the result says what to mount, where it is new) and the
/// environment of its commands.
pub fn configure_common(ctx: &mut Context) -> (r: Result<Option<CacheMount>, String>)
    ensures
        match rel_path("/var/cache/apt"@) {
            None => r is Err && *final(ctx) == *old(ctx),
            Some(rel) => {
                &&& r is Ok
                &&& final(ctx).cache_dirs@ == old(ctx).cache_dirs@.insert(rel, "apt-cache"@)
                &&& final(ctx).environ@ == ubuntu_environ(old(ctx).environ@)
                &&& match r->Ok_0 {
                    Some(m) => !old(ctx).cache_dirs@.dom().contains(rel) && m.cache_dir@
                        == join_path("/vagga/cache"@, "apt-cache"@) && m.target@ == join_path(
                        build_root(),
                        rel,
                    ),
                    None => old(ctx).cache_dirs@.dom().contains(rel),
                }
            },
        },
{
    let mount = match ctx.add_cache_dir("/var/cache/apt", String::from_str("apt-cache")) {
        Ok(m) => m,
        Err(e) => {
            return Err(e);
        },
    };
    let _ = ctx.environ.insert(String::from_str("DEBIAN_FRONTEND"), String::from_str("noninteractive"));
    let _ = ctx.environ.insert(String::from_str("LANG"), String::from_str("en_US.UTF-8"));
    let _ = ctx.environ.insert(String::from_str("PATH"), String::from_str(UBUNTU_PATH));
    Ok(mount)
}

impl Distro {
    /// Learns the codename of the release from `lsb_release` (the text of
    /// `/etc/lsb-release`, read only where the codename is not known yet)
    /// and names the binaries of the build after it. Nothing changes where
    /// the codename is known.
    pub fn ensure_codename(&mut self, binary_ident: &mut String, lsb_release: &str) -> (r: Result<(), String>)
        ensures
            old(self).codename is Some ==> r is Ok && *final(self) == *old(self) && final(binary_ident)@
                == old(binary_ident)@,
            old(self).codename is None ==> {
                let c = lsb_codename(crate::text::lines_of(lsb_release@));
                &&& (r is Ok <==> c is Some)
                &&& (r matches Err(e) ==> e@ == lsb_error() && *final(self) == *old(self)
                    && final(binary_ident)@ == old(binary_ident)@)
                &&& (r is Ok ==> opt_text(final(self).codename) == c && final(binary_ident)@
                    == old(binary_ident)@ + "-ubuntu-"@ + c->0)
                &&& final(self).config == old(self).config
                &&& final(self).apt_update == old(self).apt_update
                &&& final(self).apt_https == old(self).apt_https
                &&& final(self).has_indices == old(self).has_indices
                &&& final(self).has_universe == old(self).has_universe
                &&& final(self).eatmydata == old(self).eatmydata
            },
    {
        if self.codename.is_some() {
            return Ok(());
        }
        let codename = match codename_from_lsb(lsb_release) {
            Ok(c) => c,
            Err(e) => {
                return Err(e);
            },
        };
        let ident = concat3(binary_ident.as_str(), "-ubuntu-", codename.as_str());
        *binary_ident = ident;
        self.codename = Some(codename);
        Ok(())
    }
}

} // verus!

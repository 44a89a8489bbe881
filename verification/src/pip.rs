use vstd::prelude::*;
use crate::versioning::{VersionHash, ItemView, opt_text_item};
use crate::packages::Package;
use crate::assoc::TextSet;
use crate::text::{
    extend_strings,
    chars_of, concat, string_of, string_views, opt_text, has_prefix, str_starts_with, trim,
    trim_spec, lines_of, text_lines,
};

verus! {

/// The settings of the pip build steps.
#[derive(Debug, Clone)]
pub struct PipConfig {
    pub find_links: Vec<String>,
    pub index_urls: Vec<String>,
    pub trusted_hosts: Vec<String>,
    pub dependencies: bool,
    pub cache_wheels: bool,
    pub install_python: bool,
    pub python_exe: Option<String>,
}

/// The build step that installs Python 2 packages.
#[derive(Debug)]
pub struct Py2Install(pub Vec<String>);

/// The build step that installs the Python 2 packages of a requirements
/// file.
#[derive(Debug)]
pub struct Py2Requirements(pub String);

/// The build step that installs Python 3 packages.
#[derive(Debug)]
pub struct Py3Install(pub Vec<String>);

/// The build step that installs the Python 3 packages of a requirements
/// file.
#[derive(Debug)]
pub struct Py3Requirements(pub String);

impl PipConfig {
    /// Whether these are the settings that apply where none are given.
    pub open spec fn is_default(&self) -> bool {
        &&& self.find_links@.len() == 0
        &&& self.index_urls@.len() == 0
        &&& self.trusted_hosts@.len() == 0
        &&& !self.dependencies
        &&& self.cache_wheels
        &&& self.install_python
        &&& self.python_exe is None
    }
}

impl Default for PipConfig {
    fn default() -> (r: PipConfig)
        ensures
            r.is_default(),
    {
        PipConfig {
            find_links: Vec::new(),
            index_urls: Vec::new(),
            trusted_hosts: Vec::new(),
            dependencies: false,
            cache_wheels: true,
            install_python: true,
            python_exe: None,
        }
    }
}

/// The features that installing the package `name` needs: a version
/// control system for a package from one, and https where it is fetched
/// over https.
pub open spec fn pkg_features(name: Seq<char>) -> Seq<Package> {
    if has_prefix(name, "git+https"@) {
        seq![Package::Git, Package::Https]
    } else if has_prefix(name, "git+"@) {
        seq![Package::Git]
    } else if has_prefix(name, "hg+https"@) {
        seq![Package::Mercurial, Package::Https]
    } else if has_prefix(name, "hg+"@) {
        seq![Package::Mercurial]
    } else {
        seq![]
    }
}

/// The features that the packages `names` need, one after the other.
pub open spec fn pkgs_features(names: Seq<Seq<char>>) -> Seq<Package>
    decreases names.len(),
{
    if names.len() == 0 {
        seq![]
    } else {
        pkgs_features(names.drop_last()) + pkg_features(names.last())
    }
}

/// The features that installing the packages `names` with the pip of
/// Python `ver` (2, or else 3) needs.
pub open spec fn pip_features(install_python: bool, ver: u8, names: Seq<Seq<char>>) -> Seq<Package> {
    seq![Package::BuildEssential] + (if ver == 2 {
        (if install_python {
            seq![Package::Python2, Package::Python2Dev]
        } else {
            seq![]
        }) + seq![Package::PipPy2]
    } else {
        (if install_python {
            seq![Package::Python3, Package::Python3Dev]
        } else {
            seq![]
        }) + seq![Package::PipPy3]
    }) + pkgs_features(names)
}

/// The features that installing the packages `pkgs` with the pip of Python
/// `ver` needs.
pub fn scan_features(settings: &PipConfig, ver: u8, pkgs: &Vec<String>) -> (r: Vec<Package>)
    ensures
        r@ == pip_features(settings.install_python, ver, string_views(pkgs@)),
{
    let mut res: Vec<Package> = Vec::new();
    res.push(Package::BuildEssential);
    if ver == 2 {
        if settings.install_python {
            res.push(Package::Python2);
            res.push(Package::Python2Dev);
        }
        res.push(Package::PipPy2);
    } else {
        if settings.install_python {
            res.push(Package::Python3);
            res.push(Package::Python3Dev);
        }
        res.push(Package::PipPy3);
    }
    let ghost head = res@;
    let mut i: usize = 0;
    assert(string_views(pkgs@).take(0) =~= seq![]);
    assert(head + seq![] =~= head);
    while i < pkgs.len()
        invariant
            i <= pkgs@.len(),
            res@ == head + pkgs_features(string_views(pkgs@).take(i as int)),
        decreases pkgs.len() - i,
    {
        let name = pkgs[i].as_str();
        assert(string_views(pkgs@).take(i + 1).drop_last() =~= string_views(pkgs@).take(i as int));
        assert(string_views(pkgs@).take(i + 1).last() == name@);
        if str_starts_with(name, "git+https") {
            res.push(Package::Git);
            res.push(Package::Https);
        } else if str_starts_with(name, "git+") {
            res.push(Package::Git);
        } else if str_starts_with(name, "hg+https") {
            res.push(Package::Mercurial);
            res.push(Package::Https);
        } else if str_starts_with(name, "hg+") {
            res.push(Package::Mercurial);
        }
        assert(res@ =~= head + pkgs_features(string_views(pkgs@).take(i + 1)));
        i = i + 1;
    }
    assert(string_views(pkgs@).take(i as int) =~= string_views(pkgs@));
    assert(res@ =~= pip_features(settings.install_python, ver, string_views(pkgs@)));
    res
}

/// The Python of the pip build steps: the configured one, or `python2` or
/// `python3` by the version.
pub open spec fn python_of(python_exe: Option<Seq<char>>, ver: u8) -> Seq<char> {
    match python_exe {
        Some(p) => p,
        None => if ver == 2 {
            "python2"@
        } else {
            "python3"@
        },
    }
}

/// The first index url as `--index-url`, the others as
/// `--extra-index-url`.
pub open spec fn index_args(urls: Seq<Seq<char>>) -> Seq<Seq<char>> {
    if urls.len() == 0 {
        seq![]
    } else {
        seq!["--index-url="@ + urls[0]] + urls.drop_first().map_values(
            |u: Seq<char>| "--extra-index-url="@ + u,
        )
    }
}

/// Each trusted host after `--trusted-host`.
pub open spec fn host_args(hosts: Seq<Seq<char>>) -> Seq<Seq<char>>
    decreases hosts.len(),
{
    if hosts.len() == 0 {
        seq![]
    } else {
        host_args(hosts.drop_last()) + seq!["--trusted-host"@, hosts.last()]
    }
}

/// The command line of `pip install` with the settings `s` for Python
/// `ver`, before the packages.
pub open spec fn pip_args_of(s: PipConfig, ver: u8) -> Seq<Seq<char>> {
    seq![python_of(opt_text(s.python_exe), ver), "-m"@, "pip"@, "install"@, "--ignore-installed"@]
        + index_args(string_views(s.index_urls@)) + host_args(string_views(s.trusted_hosts@)) + (
    if !s.dependencies {
        seq!["--no-deps"@]
    } else {
        seq![]
    }) + string_views(s.find_links@).map_values(|l: Seq<char>| "--find-links="@ + l)
}

/// The command line of `pip install` for Python `ver`, before the packages.
pub fn pip_args(settings: &PipConfig, ver: u8) -> (r: Vec<String>)
    ensures
        string_views(r@) == pip_args_of(*settings, ver),
{
    let mut args: Vec<String> = Vec::new();
    let python = match &settings.python_exe {
        Some(p) => p.clone(),
        None => if ver == 2 {
            String::from_str("python2")
        } else {
            String::from_str("python3")
        },
    };
    args.push(python);
    args.push(String::from_str("-m"));
    args.push(String::from_str("pip"));
    args.push(String::from_str("install"));
    args.push(String::from_str("--ignore-installed"));
    let ghost a0 = string_views(args@);
    assert(a0 =~= seq![
        python_of(opt_text(settings.python_exe), ver),
        "-m"@,
        "pip"@,
        "install"@,
        "--ignore-installed"@,
    ]);
    let urls = &settings.index_urls;
    let ghost us = string_views(urls@);
    if urls.len() > 0 {
        args.push(concat("--index-url=", urls[0].as_str()));
        let mut i: usize = 1;
        assert(us.drop_first().take(0).map_values(|u: Seq<char>| "--extra-index-url="@ + u)
            =~= seq![]);
        assert(string_views(args@) =~= a0 + seq!["--index-url="@ + us[0]]);
        while i < urls.len()
            invariant
                us == string_views(urls@),
                1 <= i <= urls@.len(),
                string_views(args@) == a0 + seq!["--index-url="@ + us[0]] + us.drop_first().take(
                    i - 1,
                ).map_values(|u: Seq<char>| "--extra-index-url="@ + u),
            decreases urls.len() - i,
        {
            let ghost g0 = string_views(args@);
            let x = concat("--extra-index-url=", urls[i].as_str());
            args.push(x);
            assert(string_views(args@) =~= g0.push(x@));
            assert(us.drop_first().take(i as int) =~= us.drop_first().take(i - 1).push(us[i as int]));
            assert(string_views(args@) =~= a0 + seq!["--index-url="@ + us[0]] + us.drop_first().take(
                i as int,
            ).map_values(|u: Seq<char>| "--extra-index-url="@ + u));
            i = i + 1;
        }
        assert(us.drop_first().take(i - 1) =~= us.drop_first());
    }
    let ghost a1 = string_views(args@);
    assert(a1 =~= a0 + index_args(us));
    let hosts = &settings.trusted_hosts;
    let ghost hs = string_views(hosts@);
    let mut j: usize = 0;
    assert(hs.take(0) =~= seq![]);
    assert(a1 + seq![] =~= a1);
    while j < hosts.len()
        invariant
            hs == string_views(hosts@),
            j <= hosts@.len(),
            string_views(args@) == a1 + host_args(hs.take(j as int)),
        decreases hosts.len() - j,
    {
        let ghost g0 = string_views(args@);
        args.push(String::from_str("--trusted-host"));
        let h = hosts[j].clone();
        assert(h@ == hs[j as int]);
        args.push(h);
        assert(hs.take(j + 1).drop_last() =~= hs.take(j as int));
        assert(string_views(args@) =~= g0 + seq!["--trusted-host"@, h@]);
        assert(string_views(args@) =~= a1 + host_args(hs.take(j + 1)));
        j = j + 1;
    }
    assert(hs.take(j as int) =~= hs);
    if !settings.dependencies {
        args.push(String::from_str("--no-deps"));
    }
    let ghost a2 = string_views(args@);
    assert(a2 =~= a1 + host_args(hs) + if !settings.dependencies {
        seq!["--no-deps"@]
    } else {
        seq![]
    });
    let links = &settings.find_links;
    let ghost ls = string_views(links@);
    let mut k: usize = 0;
    assert(ls.take(0).map_values(|l: Seq<char>| "--find-links="@ + l) =~= seq![]);
    assert(a2 + seq![] =~= a2);
    while k < links.len()
        invariant
            ls == string_views(links@),
            k <= links@.len(),
            string_views(args@) == a2 + ls.take(k as int).map_values(
                |l: Seq<char>| "--find-links="@ + l,
            ),
        decreases links.len() - k,
    {
        let ghost g0 = string_views(args@);
        let x = concat("--find-links=", links[k].as_str());
        args.push(x);
        assert(string_views(args@) =~= g0.push(x@));
        assert(ls.take(k + 1) =~= ls.take(k as int).push(ls[k as int]));
        assert(string_views(args@) =~= a2 + ls.take(k + 1).map_values(
            |l: Seq<char>| "--find-links="@ + l,
        ));
        k = k + 1;
    }
    assert(ls.take(k as int) =~= ls);
    args
}

/// The requirements of a requirements file: its lines, trimmed, without the
/// empty ones and the comments.
pub open spec fn requirement_lines(ls: Seq<Seq<char>>) -> Seq<Seq<char>>
    decreases ls.len(),
{
    if ls.len() == 0 {
        seq![]
    } else {
        let rest = requirement_lines(ls.drop_last());
        let t = trim_spec(ls.last());
        if t.len() == 0 || has_prefix(t, "#"@) {
            rest
        } else {
            rest.push(t)
        }
    }
}

/// The requirements of the requirements file `text`.
pub fn requirement_names(text: &str) -> (r: Vec<String>)
    ensures
        string_views(r@) == requirement_lines(lines_of(text@)),
{
    let lines = text_lines(text);
    let ghost ls = lines_of(text@);
    let mut names: Vec<String> = Vec::new();
    let mut i: usize = 0;
    assert(ls.take(0) =~= seq![]);
    while i < lines.len()
        invariant
            string_views(lines@) == ls,
            i <= lines@.len(),
            string_views(names@) == requirement_lines(ls.take(i as int)),
        decreases lines.len() - i,
    {
        let chunk = trim(lines[i].as_str());
        assert(ls.take(i + 1).drop_last() =~= ls.take(i as int));
        assert(ls.take(i + 1).last() == lines@[i as int]@);
        if !(chunk.unicode_len() == 0 || str_starts_with(chunk.as_str(), "#")) {
            let ghost n0 = string_views(names@);
            let c = chunk;
            names.push(c);
            assert(string_views(names@) =~= n0.push(c@));
        }
        i = i + 1;
    }
    assert(ls.take(i as int) =~= ls);
    names
}

/// The prefixes with which a requirements line names another requirements
/// file, in the order they are tried.
pub open spec fn req_prefixes() -> Seq<Seq<char>> {
    seq![
        "-r"@,
        "--requirement "@,
        "--requirement="@,
        "-c"@,
        "--constraint "@,
        "--constraint="@,
    ]
}

/// The file that a requirements line names with the first prefix of `ps`
/// it starts with, trimmed.
pub open spec fn req_file_with(line: Seq<char>, ps: Seq<Seq<char>>) -> Option<Seq<char>>
    decreases ps.len(),
{
    if ps.len() == 0 {
        None
    } else if has_prefix(line, ps[0]) {
        Some(trim_spec(line.skip(ps[0].len() as int)))
    } else {
        req_file_with(line, ps.drop_first())
    }
}

/// The requirements file that the line `line` includes, if it includes one.
pub fn parse_req_filename(line: &str) -> (r: Option<String>)
    ensures
        opt_text(r) == req_file_with(line@, req_prefixes()),
{
    let prefixes: Vec<&'static str> = vec![
        "-r",
        "--requirement ",
        "--requirement=",
        "-c",
        "--constraint ",
        "--constraint=",
    ];
    let ghost ps = crate::packages::texts(prefixes@);
    assert(ps =~= req_prefixes());
    let v = chars_of(line);
    let mut i: usize = 0;
    assert(ps.skip(0) =~= ps);
    while i < prefixes.len()
        invariant
            ps == crate::packages::texts(prefixes@),
            ps == req_prefixes(),
            v@ == line@,
            i <= prefixes@.len(),
            req_file_with(line@, ps) == req_file_with(line@, ps.skip(i as int)),
        decreases prefixes.len() - i,
    {
        let p = prefixes[i];
        let ghost rest = ps.skip(i as int);
        assert(rest[0] == p@);
        if str_starts_with(line, p) {
            let n = p.unicode_len();
            let tail = string_of(&v, n, v.len());
            assert(tail@ =~= line@.skip(n as int));
            return Some(trim(tail.as_str()));
        }
        assert(rest.drop_first() =~= ps.skip(i + 1));
        i = i + 1;
    }
    assert(ps.skip(i as int) =~= Seq::<Seq<char>>::empty());
    None
}

/// The command line that installs the packages `pkgs` with the pip of
/// Python `ver`.
pub fn pip_install_command(settings: &PipConfig, ver: u8, pkgs: &Vec<String>) -> (r: Vec<String>)
    ensures
        string_views(r@) == pip_args_of(*settings, ver) + string_views(pkgs@),
{
    let mut args = pip_args(settings, ver);
    extend_strings(&mut args, pkgs);
    args
}

/// The command line that installs the requirements file `reqtxt` with the
/// pip of Python `ver`.
pub fn pip_requirements_command(settings: &PipConfig, ver: u8, reqtxt: &str) -> (r: Vec<String>)
    ensures
        string_views(r@) == pip_args_of(*settings, ver) + seq!["--requirement"@, reqtxt@],
{
    let mut args = pip_args(settings, ver);
    let ghost a0 = string_views(args@);
    args.push(String::from_str("--requirement"));
    args.push(String::from_str(reqtxt));
    assert(string_views(args@) =~= a0 + seq!["--requirement"@, reqtxt@]);
    args
}

/// The command line that lists the installed packages of Python `ver`.
pub fn pip_freeze_command(settings: &PipConfig, ver: u8) -> (r: Vec<String>)
    ensures
        string_views(r@) == seq![
            python_of(opt_text(settings.python_exe), ver),
            "-m"@,
            "pip"@,
            "freeze"@,
        ],
{
    let python = match &settings.python_exe {
        Some(p) => p.clone(),
        None => if ver == 2 {
            String::from_str("python2")
        } else {
            String::from_str("python3")
        },
    };
    let r = vec![python, String::from_str("-m"), String::from_str("pip"), String::from_str("freeze")];
    assert(string_views(r@) =~= seq![
        python_of(opt_text(settings.python_exe), ver),
        "-m"@,
        "pip"@,
        "freeze"@,
    ]);
    r
}

/// Enters the requirements file `name` (its canonical path as `Debug`
/// writes it) while the requirements files that include each other are
/// versioned; an error where it was entered already.
pub fn enter_requirements(used: &mut TextSet, name: &str) -> (r: Result<(), String>)
    ensures
        old(used)@.contains(name@) ==> (r matches Err(e) && e@ == "Cyclic requirement: "@ + name@),
        old(used)@.contains(name@) ==> final(used)@ == old(used)@,
        !old(used)@.contains(name@) ==> r is Ok && final(used)@ == old(used)@.insert(name@),
{
    if used.contains(name) {
        Err(concat("Cyclic requirement: ", name))
    } else {
        let _ = used.insert(String::from_str(name));
        Ok(())
    }
}

impl PipConfig {
    /// What versions the step: the package sources, the flags and the python executable.
    pub open spec fn hash_items(self) -> Seq<ItemView> {
        seq![
            ItemView::Sequence("find_links"@, string_views(self.find_links@)),
            ItemView::Sequence("index_urls"@, string_views(self.index_urls@)),
            ItemView::Sequence("trusted_hosts"@, string_views(self.trusted_hosts@)),
            ItemView::Bool("dependencies"@, self.dependencies),
            ItemView::Bool("cache_wheels"@, self.cache_wheels),
            ItemView::Bool("install_python"@, self.install_python),
            opt_text_item("python_exe"@, self.python_exe),
        ]
    }

    /// Feeds what versions the step into `h`.
    pub fn hash(&self, h: &mut VersionHash)
        ensures
            final(h)@ == old(h)@ + self.hash_items(),
    {
        let ghost h0 = h@;
        h.sequence("find_links", &self.find_links);
        h.sequence("index_urls", &self.index_urls);
        h.sequence("trusted_hosts", &self.trusted_hosts);
        h.bool_field("dependencies", self.dependencies);
        h.bool_field("cache_wheels", self.cache_wheels);
        h.bool_field("install_python", self.install_python);
        h.opt_field_text("python_exe", &self.python_exe);
        assert(h@ =~= h0 + self.hash_items());
    }
}

impl Py2Install {
    /// What versions the step: its packages.
    pub open spec fn hash_items(self) -> Seq<ItemView> {
        seq![
            ItemView::Sequence("Py2Install"@, string_views(self.0@)),
        ]
    }

    /// Feeds what versions the step into `h`.
    pub fn hash(&self, h: &mut VersionHash)
        ensures
            final(h)@ == old(h)@ + self.hash_items(),
    {
        let ghost h0 = h@;
        h.sequence("Py2Install", &self.0);
        assert(h@ =~= h0 + self.hash_items());
    }
}

impl Py3Install {
    /// What versions the step: its packages.
    pub open spec fn hash_items(self) -> Seq<ItemView> {
        seq![
            ItemView::Sequence("Py3Install"@, string_views(self.0@)),
        ]
    }

    /// Feeds what versions the step into `h`.
    pub fn hash(&self, h: &mut VersionHash)
        ensures
            final(h)@ == old(h)@ + self.hash_items(),
    {
        let ghost h0 = h@;
        h.sequence("Py3Install", &self.0);
        assert(h@ =~= h0 + self.hash_items());
    }
}

/// Versions the requirement `chunk` of a requirements file (a line as
/// `requirement_names` gives it): a line that includes another file feeds
/// nothing and gives the file, which is versioned in its place; any other
/// line is fed as an item.
pub fn hash_requirement(h: &mut VersionHash, chunk: &str) -> (r: Option<String>)
    ensures
        opt_text(r) == req_file_with(chunk@, req_prefixes()),
        r is Some ==> final(h)@ == old(h)@,
        r is None ==> final(h)@ == old(h)@.push(ItemView::Item(chunk@)),
{
    let r = parse_req_filename(chunk);
    if r.is_none() {
        h.item(chunk);
    }
    r
}


proof fn lemma_not_prefix_at(s: Seq<char>, p: Seq<char>, i: int)
    requires
        0 <= i < p.len(),
        i < s.len() ==> s[i] != p[i],
    ensures
        !has_prefix(s, p),
{
    if p.len() <= s.len() {
        assert(s.subrange(0, p.len() as int)[i] != p[i]);
    }
}

proof fn lemma_req_first_match(line: Seq<char>, ps: Seq<Seq<char>>, k: int)
    requires
        0 <= k < ps.len(),
        has_prefix(line, ps[k]),
        forall|j: int| 0 <= j < k ==> !has_prefix(line, #[trigger] ps[j]),
    ensures
        req_file_with(line, ps) == Some(trim_spec(line.skip(ps[k].len() as int))),
    decreases k,
{
    if k > 0 {
        assert(!has_prefix(line, ps[0]));
        let rest = ps.drop_first();
        assert forall|j: int| 0 <= j < k - 1 implies !has_prefix(line, #[trigger] rest[j]) by {
            assert(rest[j] == ps[j + 1]);
        }
        lemma_req_first_match(line, rest, k - 1);
    }
}

proof fn lemma_req_no_match(line: Seq<char>, ps: Seq<Seq<char>>)
    requires
        forall|j: int| 0 <= j < ps.len() ==> !has_prefix(line, #[trigger] ps[j]),
    ensures
        req_file_with(line, ps) is None,
    decreases ps.len(),
{
    if ps.len() > 0 {
        assert(!has_prefix(line, ps[0]));
        let rest = ps.drop_first();
        assert forall|j: int| 0 <= j < rest.len() implies !has_prefix(line, #[trigger] rest[j]) by {
            assert(rest[j] == ps[j + 1]);
        }
        lemma_req_no_match(line, rest);
    }
}

/// What a requirements line includes: after `-r` or `-c` (no space needed),
/// or after `--requirement` or `--constraint` and a space or `=`, the rest
/// of the line, trimmed, names the included file; a line that does not
/// start with `-` includes nothing.
pub proof fn lemma_req_filename_laws(x: Seq<char>, line: Seq<char>)
    ensures
        req_file_with("-r"@ + x, req_prefixes()) == Some(trim_spec(x)),
        req_file_with("-c"@ + x, req_prefixes()) == Some(trim_spec(x)),
        req_file_with("--requirement "@ + x, req_prefixes()) == Some(trim_spec(x)),
        req_file_with("--requirement="@ + x, req_prefixes()) == Some(trim_spec(x)),
        req_file_with("--constraint "@ + x, req_prefixes()) == Some(trim_spec(x)),
        req_file_with("--constraint="@ + x, req_prefixes()) == Some(trim_spec(x)),
        (line.len() == 0 || line[0] != '-') ==> req_file_with(line, req_prefixes()) is None,
{
    reveal_strlit("-r");
    reveal_strlit("-c");
    reveal_strlit("--requirement ");
    reveal_strlit("--requirement=");
    reveal_strlit("--constraint ");
    reveal_strlit("--constraint=");
    let ps = req_prefixes();
    assert(ps[0] == "-r"@);
    assert(ps[1] == "--requirement "@);
    assert(ps[2] == "--requirement="@);
    assert(ps[3] == "-c"@);
    assert(ps[4] == "--constraint "@);
    assert(ps[5] == "--constraint="@);

    let a = "-r"@ + x;
    assert(a.subrange(0, 2) =~= "-r"@);
    assert(a.skip(2) =~= x);
    lemma_req_first_match(a, ps, 0);

    let c = "-c"@ + x;
    assert(c.subrange(0, 2) =~= "-c"@);
    assert(c.skip(2) =~= x);
    lemma_not_prefix_at(c, ps[0], 1);
    lemma_not_prefix_at(c, ps[1], 1);
    lemma_not_prefix_at(c, ps[2], 1);
    lemma_req_first_match(c, ps, 3);

    let r1 = "--requirement "@ + x;
    assert(r1.subrange(0, 14) =~= "--requirement "@);
    assert(r1.skip(14) =~= x);
    lemma_not_prefix_at(r1, ps[0], 1);
    lemma_req_first_match(r1, ps, 1);

    let r2 = "--requirement="@ + x;
    assert(r2.subrange(0, 14) =~= "--requirement="@);
    assert(r2.skip(14) =~= x);
    lemma_not_prefix_at(r2, ps[0], 1);
    lemma_not_prefix_at(r2, ps[1], 13);
    lemma_req_first_match(r2, ps, 2);

    let c1 = "--constraint "@ + x;
    assert(c1.subrange(0, 13) =~= "--constraint "@);
    assert(c1.skip(13) =~= x);
    lemma_not_prefix_at(c1, ps[0], 1);
    lemma_not_prefix_at(c1, ps[1], 2);
    lemma_not_prefix_at(c1, ps[2], 2);
    lemma_not_prefix_at(c1, ps[3], 1);
    lemma_req_first_match(c1, ps, 4);

    let c2 = "--constraint="@ + x;
    assert(c2.subrange(0, 13) =~= "--constraint="@);
    assert(c2.skip(13) =~= x);
    lemma_not_prefix_at(c2, ps[0], 1);
    lemma_not_prefix_at(c2, ps[1], 2);
    lemma_not_prefix_at(c2, ps[2], 2);
    lemma_not_prefix_at(c2, ps[3], 1);
    lemma_not_prefix_at(c2, ps[4], 12);
    lemma_req_first_match(c2, ps, 5);

    if line.len() == 0 || line[0] != '-' {
        assert forall|j: int| 0 <= j < ps.len() implies !has_prefix(line, #[trigger] ps[j]) by {
            lemma_not_prefix_at(line, ps[j], 0);
        }
        lemma_req_no_match(line, ps);
    }
}

} // verus!

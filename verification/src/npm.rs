use vstd::prelude::*;
use crate::versioning::{VersionHash, ItemView, text_item, flag_item, texts_item, opt_text_item};
use crate::paths::{join_path, path_join};
use crate::packages::Package;
use crate::text::{
    chars_of, concat3, string_of, string_views, opt_text, has_prefix, has_suffix, str_starts_with, str_ends_with, same_text, trim, trim_spec, lines_of, text_lines, debug_quote, debug_text,
};
use crate::matchers::{regex_builds, regex_found, regex_find_all, check_regex};

verus! {

/// The settings of the npm and yarn build steps.
#[derive(Debug, Clone)]
pub struct NpmConfig {
    pub install_node: bool,
    pub install_yarn: bool,
    pub npm_exe: String,
    pub yarn_exe: String,
    pub yarn_version: Option<String>,
}

/// The build step that installs npm packages globally.
#[derive(Debug)]
pub struct NpmInstall(pub Vec<String>);

/// The build step that installs the dependencies a `package.json` lists.
#[derive(Debug)]
pub struct NpmDependencies {
    pub file: String,
    pub package: bool,
    pub dev: bool,
    pub peer: bool,
    pub bundled: bool,
    pub optional: bool,
}

/// The build step that installs the dependencies of a project with yarn.
#[derive(Debug)]
pub struct YarnDependencies {
    pub dir: String,
    pub production: bool,
    pub optional: bool,
}

impl NpmConfig {
    /// Whether these are the settings that apply where none are given.
    pub open spec fn is_default(&self) -> bool {
        &&& self.install_node
        &&& self.install_yarn
        &&& self.npm_exe@ == "npm"@
        &&& self.yarn_exe@ == "/usr/bin/yarn"@
        &&& self.yarn_version is None
    }
}

impl Default for NpmConfig {
    fn default() -> (r: NpmConfig)
        ensures
            r.is_default(),
    {
        NpmConfig {
            install_node: true,
            install_yarn: true,
            npm_exe: String::from_str("npm"),
            yarn_exe: String::from_str("/usr/bin/yarn"),
            yarn_version: None,
        }
    }
}

/// The pattern of the items of a `yarn.lock` entry line: a quoted text, or
/// a run of characters other than `,`.
pub const YARN_PATTERN: &'static str = "\"[^\"]+\"|[^,]+";

/// A line of `yarn.lock` that starts an entry: not indented, not a comment,
/// and ending with `:`.
pub open spec fn is_entry_line(l: Seq<char>) -> bool {
    !has_prefix(l, " "@) && !has_prefix(l, "#"@) && has_suffix(l, ":"@)
}

/// The items of an entry line, before the final `:`.
pub open spec fn line_items(l: Seq<char>) -> Seq<Seq<char>> {
    regex_found(YARN_PATTERN@, l.drop_last())
}

/// An item trimmed, and without the quotes around it.
pub open spec fn clean_item(item: Seq<char>) -> Seq<char> {
    let t = trim_spec(item);
    if t.len() > 0 && t[0] == '"' && t.last() == '"' {
        t.subrange(1, t.len() - 1)
    } else {
        t
    }
}

/// An item that trims to a lone quote, on which the unquoting fails.
pub open spec fn lone_quote(item: Seq<char>) -> bool {
    trim_spec(item) == seq!['"']
}

/// The patterns of the lines `ls` of a `yarn.lock`: the cleaned items of
/// its entry lines.
pub open spec fn yarn_patterns(ls: Seq<Seq<char>>) -> Set<Seq<char>>
    decreases ls.len(),
{
    if ls.len() == 0 {
        Set::empty()
    } else {
        let rest = yarn_patterns(ls.drop_last());
        let l = ls.last();
        if is_entry_line(l) {
            rest.union(line_items(l).map_values(|i: Seq<char>| clean_item(i)).to_set())
        } else {
            rest
        }
    }
}

/// No entry line of `ls` has an item that trims to a lone quote.
pub open spec fn no_lone_quote(ls: Seq<Seq<char>>) -> bool {
    forall|k: int, j: int|
        0 <= k < ls.len() && is_entry_line(ls[k]) && 0 <= j < line_items(ls[k]).len()
            ==> !lone_quote(#[trigger] line_items(ls[k])[j])
}

/// `item` trimmed and unquoted.
fn clean(item: &str) -> (r: String)
    requires
        !lone_quote(item@),
    ensures
        r@ == clean_item(item@),
{
    let t = trim(item);
    let v = chars_of(t.as_str());
    if v.len() == 1 {
        assert(v@ =~= seq![v@[0]]);
    }
    if v.len() > 0 && v[0] == '"' && v[v.len() - 1] == '"' {
        string_of(&v, 1, v.len() - 1)
    } else {
        t
    }
}

/// Adds `x` to `set` unless it is there already.
fn insert_text(set: &mut Vec<String>, x: String)
    requires
        string_views(old(set)@).no_duplicates(),
    ensures
        string_views(final(set)@).no_duplicates(),
        string_views(final(set)@).to_set() == string_views(old(set)@).to_set().insert(x@),
{
    let mut i: usize = 0;
    while i < set.len()
        invariant
            i <= set@.len(),
            string_views(set@).no_duplicates(),
            forall|k: int| 0 <= k < i ==> set@[k]@ != x@,
        decreases set.len() - i,
    {
        if same_text(set[i].as_str(), x.as_str()) {
            assert(string_views(set@)[i as int] == x@);
            assert(string_views(set@).to_set() =~= string_views(set@).to_set().insert(x@));
            return;
        }
        i = i + 1;
    }
    let ghost before = string_views(set@);
    set.push(x);
    proof {
        assert(string_views(set@) =~= before.push(x@));
        assert(!before.contains(x@)) by {
            if before.contains(x@) {
                let k = choose|k: int| 0 <= k < before.len() && before[k] == x@;
                assert(set@[k]@ == x@);
            }
        }
        assert forall|y: Seq<char>| #[trigger] string_views(set@).to_set().contains(y)
            == before.to_set().insert(x@).contains(y) by {
            if string_views(set@).contains(y) && y != x@ {
                let k = choose|k: int| 0 <= k < string_views(set@).len() && string_views(set@)[k] == y;
                assert(before[k] == y);
            }
            if before.contains(y) {
                let k = choose|k: int| 0 <= k < before.len() && before[k] == y;
                assert(string_views(set@)[k] == y);
            }
            if y == x@ {
                assert(string_views(set@)[before.len() as int] == y);
            }
        }
        assert(string_views(set@).to_set() =~= before.to_set().insert(x@));
    }
}

/// The patterns that the entries of the `yarn.lock` text `text` name, each
/// once.
pub fn _get_all_patterns(text: &str) -> (r: Vec<String>)
    requires
        regex_builds(YARN_PATTERN@),
        no_lone_quote(lines_of(text@)),
    ensures
        string_views(r@).no_duplicates(),
        string_views(r@).to_set() == yarn_patterns(lines_of(text@)),
{
    let lines = text_lines(text);
    let ghost ls = lines_of(text@);
    let mut result: Vec<String> = Vec::new();
    let mut i: usize = 0;
    assert(ls.take(0) =~= seq![]);
    assert(string_views(result@).to_set() =~= Set::empty());
    while i < lines.len()
        invariant
            regex_builds(YARN_PATTERN@),
            ls == lines_of(text@),
            no_lone_quote(ls),
            string_views(lines@) == ls,
            i <= lines@.len(),
            string_views(result@).no_duplicates(),
            string_views(result@).to_set() == yarn_patterns(ls.take(i as int)),
        decreases lines.len() - i,
    {
        let line = lines[i].as_str();
        assert(ls.take(i + 1).drop_last() =~= ls.take(i as int));
        assert(ls.take(i + 1).last() == line@);
        assert(ls[i as int] == line@);
        proof {
            reveal_strlit(" ");
            reveal_strlit("#");
            reveal_strlit(":");
        }
        if !str_starts_with(line, " ") && !str_starts_with(line, "#") && str_ends_with(line, ":") {
            let v = chars_of(line);
            let body = string_of(&v, 0, v.len() - 1);
            assert(body@ =~= line@.drop_last());
            let items = regex_find_all(YARN_PATTERN, body.as_str());
            let ghost its = line_items(line@);
            assert(string_views(items@) =~= its);
            let ghost base = string_views(result@).to_set();
            let mut j: usize = 0;
            assert(its.take(0).map_values(|x: Seq<char>| clean_item(x)).to_set() =~= Set::empty());
            assert(base =~= base.union(Set::empty()));
            while j < items.len()
                invariant
                    string_views(items@) == its,
                    its == line_items(line@),
                    ls[i as int] == line@,
                    is_entry_line(line@),
                    no_lone_quote(ls),
                    0 <= i < ls.len(),
                    j <= items@.len(),
                    string_views(result@).no_duplicates(),
                    string_views(result@).to_set() == base.union(
                        its.take(j as int).map_values(|x: Seq<char>| clean_item(x)).to_set(),
                    ),
                decreases items.len() - j,
            {
                assert(its[j as int] == items@[j as int]@);
                assert(!lone_quote(line_items(ls[i as int])[j as int]));
                let c = clean(items[j].as_str());
                insert_text(&mut result, c);
                proof {
                    let f = |x: Seq<char>| clean_item(x);
                    assert(its.take(j + 1).map_values(f) =~= its.take(j as int).map_values(f).push(
                        c@,
                    ));
                    crate::packages::lemma_push_to_set(its.take(j as int).map_values(f), c@);
                    assert(string_views(result@).to_set() =~= base.union(
                        its.take(j + 1).map_values(f).to_set(),
                    ));
                }
                j = j + 1;
            }
            assert(its.take(j as int) =~= its);
        }
        i = i + 1;
    }
    assert(ls.take(i as int) =~= ls);
    result
}

/// Whether the item `item` trims to a lone quote.
fn is_lone_quote(item: &str) -> (r: bool)
    ensures
        r == lone_quote(item@),
{
    let t = trim(item);
    let v = chars_of(t.as_str());
    let r = v.len() == 1 && v[0] == '"';
    if v.len() == 1 {
        assert(v@ =~= seq![v@[0]]);
    }
    r
}

/// The patterns that the entries of the `yarn.lock` text `text` name, each
/// once; `None` where the pattern of items does not compile or an item is
/// a lone quote.
pub fn get_all_patterns(text: &str) -> (r: Option<Vec<String>>)
    ensures
        r is Some <==> regex_builds(YARN_PATTERN@) && no_lone_quote(lines_of(text@)),
        r matches Some(v) ==> string_views(v@).no_duplicates() && string_views(v@).to_set()
            == yarn_patterns(lines_of(text@)),
{
    if check_regex(YARN_PATTERN).is_err() {
        return None;
    }
    let lines = text_lines(text);
    let ghost ls = lines_of(text@);
    let mut i: usize = 0;
    while i < lines.len()
        invariant
            regex_builds(YARN_PATTERN@),
            ls == lines_of(text@),
            string_views(lines@) == ls,
            i <= lines@.len(),
            forall|k: int, j: int|
                0 <= k < i && is_entry_line(ls[k]) && 0 <= j < line_items(ls[k]).len()
                    ==> !lone_quote(#[trigger] line_items(ls[k])[j]),
        decreases lines.len() - i,
    {
        let line = lines[i].as_str();
        assert(ls[i as int] == line@);
        proof {
            reveal_strlit(" ");
            reveal_strlit("#");
            reveal_strlit(":");
        }
        if !str_starts_with(line, " ") && !str_starts_with(line, "#") && str_ends_with(line, ":") {
            let v = chars_of(line);
            let body = string_of(&v, 0, v.len() - 1);
            assert(body@ =~= line@.drop_last());
            let items = regex_find_all(YARN_PATTERN, body.as_str());
            let ghost its = line_items(line@);
            assert(string_views(items@) =~= its);
            let mut j: usize = 0;
            while j < items.len()
                invariant
                    ls == lines_of(text@),
                    0 <= i < ls.len(),
                    is_entry_line(ls[i as int]),
                    string_views(items@) == its,
                    its == line_items(ls[i as int]),
                    j <= items@.len(),
                    forall|m: int| 0 <= m < j ==> !lone_quote(#[trigger] its[m]),
                decreases items.len() - j,
            {
                assert(its[j as int] == items@[j as int]@);
                if is_lone_quote(items[j].as_str()) {
                    assert(!no_lone_quote(ls)) by {
                        assert(line_items(ls[i as int])[j as int] == its[j as int]);
                    }
                    return None;
                }
                j = j + 1;
            }
        }
        i = i + 1;
    }
    Some(_get_all_patterns(text))
}

/// The pattern under which `yarn.lock` lists the dependency `name` at
/// `version`.
pub open spec fn dep_pattern(name: Seq<char>, version: Seq<char>) -> Seq<char> {
    name + "@"@ + version
}

/// A section of dependencies of a `package.json`: each package with its
/// version where the version is a text.
pub type DepSection = Vec<(String, Option<String>)>;

/// Whether `yarn.lock` has a pattern for each dependency of `deps` whose
/// version is a text; a section that is missing or not a mapping needs
/// nothing.
pub open spec fn deps_locked(deps: Option<DepSection>, patterns: Set<Seq<char>>) -> bool {
    match deps {
        None => true,
        Some(d) => forall|k: int|
            0 <= k < d@.len() && (#[trigger] d@[k]).1 is Some ==> patterns.contains(
                dep_pattern(d@[k].0@, d@[k].1->0@),
            ),
    }
}

/// Whether `patterns` holds `x`.
fn has_text(patterns: &Vec<String>, x: &str) -> (r: bool)
    ensures
        r == string_views(patterns@).contains(x@),
{
    let mut i: usize = 0;
    while i < patterns.len()
        invariant
            i <= patterns@.len(),
            forall|k: int| 0 <= k < i ==> patterns@[k]@ != x@,
        decreases patterns.len() - i,
    {
        if same_text(patterns[i].as_str(), x) {
            assert(string_views(patterns@)[i as int] == x@);
            return true;
        }
        i = i + 1;
    }
    assert(!string_views(patterns@).contains(x@)) by {
        if string_views(patterns@).contains(x@) {
            let k = choose|k: int|
                0 <= k < string_views(patterns@).len() && string_views(patterns@)[k] == x@;
            assert(patterns@[k]@ == x@);
        }
    }
    false
}

/// Whether the lock file's `patterns` cover every dependency of `deps`
/// (a section of `package.json`), as yarn checks it.
pub fn check_deps(deps: &Option<DepSection>, patterns: &Vec<String>) -> (r: bool)
    ensures
        r == deps_locked(*deps, string_views(patterns@).to_set()),
{
    let items = match deps {
        Some(items) => items,
        None => {
            return true;
        },
    };
    let mut i: usize = 0;
    while i < items.len()
        invariant
            *deps == Some(*items),
            i <= items@.len(),
            forall|k: int|
                0 <= k < i && (#[trigger] items@[k]).1 is Some ==> string_views(
                    patterns@,
                ).to_set().contains(dep_pattern(items@[k].0@, items@[k].1->0@)),
        decreases items.len() - i,
    {
        let (key, value) = &items[i];
        match value {
            Some(val) => {
                let item = concat3(key.as_str(), "@", val.as_str());
                if !has_text(patterns, item.as_str()) {
                    return false;
                }
            },
            None => {},
        }
        i = i + 1;
    }
    true
}

/// The features that a package specification needs: git for a git url.
pub open spec fn feature_of(info: Seq<char>) -> Seq<Package> {
    if has_prefix(info, "git://"@) {
        seq![Package::Git]
    } else {
        seq![]
    }
}

/// Adds the features that the package specification `info` needs.
pub fn parse_feature(info: &str, features: &mut Vec<Package>)
    ensures
        final(features)@ == old(features)@ + feature_of(info@),
{
    if str_starts_with(info, "git://") {
        features.push(Package::Git);
    }
    assert(features@ =~= old(features)@ + feature_of(info@));
}

/// The features that the package specifications `pkgs` need, one after
/// the other.
pub open spec fn features_of(pkgs: Seq<Seq<char>>) -> Seq<Package>
    decreases pkgs.len(),
{
    if pkgs.len() == 0 {
        seq![]
    } else {
        features_of(pkgs.drop_last()) + feature_of(pkgs.last())
    }
}

/// Adds the features that `pkgs` need.
fn parse_features(pkgs: &Vec<String>, features: &mut Vec<Package>)
    ensures
        final(features)@ == old(features)@ + features_of(string_views(pkgs@)),
{
    let ghost start = features@;
    let mut i: usize = 0;
    assert(string_views(pkgs@).take(0) =~= seq![]);
    assert(start + seq![] =~= start);
    while i < pkgs.len()
        invariant
            i <= pkgs@.len(),
            features@ == start + features_of(string_views(pkgs@).take(i as int)),
        decreases pkgs.len() - i,
    {
        assert(string_views(pkgs@).take(i + 1).drop_last() =~= string_views(pkgs@).take(i as int));
        assert(string_views(pkgs@).take(i + 1).last() == pkgs@[i as int]@);
        parse_feature(pkgs[i].as_str(), features);
        assert(features@ =~= start + features_of(string_views(pkgs@).take(i + 1)));
        i = i + 1;
    }
    assert(string_views(pkgs@).take(i as int) =~= string_views(pkgs@));
}

/// The features that installing the npm packages `pkgs` needs.
pub open spec fn npm_features(install_node: bool, pkgs: Seq<Seq<char>>) -> Seq<Package> {
    seq![Package::BuildEssential] + (if install_node {
        seq![Package::NodeJs, Package::NodeJsDev, Package::Npm]
    } else {
        seq![]
    }) + features_of(pkgs)
}

/// The features that installing the npm packages `pkgs` needs.
pub fn scan_features(settings: &NpmConfig, pkgs: &Vec<String>) -> (r: Vec<Package>)
    ensures
        r@ == npm_features(settings.install_node, string_views(pkgs@)),
{
    let mut res: Vec<Package> = Vec::new();
    res.push(Package::BuildEssential);
    if settings.install_node {
        res.push(Package::NodeJs);
        res.push(Package::NodeJsDev);
        res.push(Package::Npm);
    }
    parse_features(pkgs, &mut res);
    assert(res@ =~= npm_features(settings.install_node, string_views(pkgs@)));
    res
}

/// The features that installing with yarn the packages `pkgs` needs.
pub open spec fn yarn_features(install_node: bool, pkgs: Seq<Seq<char>>) -> Seq<Package> {
    seq![Package::BuildEssential] + (if install_node {
        seq![Package::NodeJs, Package::NodeJsDev]
    } else {
        seq![]
    }) + seq![Package::Yarn] + features_of(pkgs)
}

/// The features that installing with yarn the packages `pkgs` needs.
pub fn yarn_scan_features(settings: &NpmConfig, pkgs: &Vec<String>) -> (r: Vec<Package>)
    ensures
        r@ == yarn_features(settings.install_node, string_views(pkgs@)),
{
    let mut res: Vec<Package> = Vec::new();
    res.push(Package::BuildEssential);
    if settings.install_node {
        res.push(Package::NodeJs);
        res.push(Package::NodeJsDev);
    }
    res.push(Package::Yarn);
    parse_features(pkgs, &mut res);
    assert(res@ =~= yarn_features(settings.install_node, string_views(pkgs@)));
    res
}

/// The arguments of npm that install `pkgs` globally.
pub open spec fn npm_install_args_of(pkgs: Seq<Seq<char>>) -> Seq<Seq<char>> {
    seq!["install"@, "--global"@, "--user=root"@, "--cache=/tmp/npm-cache"@] + pkgs
}

/// The arguments of npm that install `pkgs` globally.
pub fn npm_install_args(pkgs: &Vec<String>) -> (r: Vec<String>)
    ensures
        string_views(r@) == npm_install_args_of(string_views(pkgs@)),
{
    let mut r: Vec<String> = Vec::new();
    r.push(String::from_str("install"));
    r.push(String::from_str("--global"));
    r.push(String::from_str("--user=root"));
    r.push(String::from_str("--cache=/tmp/npm-cache"));
    let ghost head = string_views(r@);
    let mut i: usize = 0;
    while i < pkgs.len()
        invariant
            i <= pkgs@.len(),
            string_views(r@) == head + string_views(pkgs@).take(i as int),
        decreases pkgs.len() - i,
    {
        let ghost r0 = r@;
        let p = pkgs[i].clone();
        assert(p@ == string_views(pkgs@)[i as int]);
        r.push(p);
        assert(string_views(r@) =~= string_views(r0).push(p@));
        assert(string_views(pkgs@).take(i + 1) =~= string_views(pkgs@).take(i as int).push(p@));
        i = i + 1;
    }
    assert(string_views(pkgs@).take(i as int) =~= string_views(pkgs@));
    assert(head =~= seq!["install"@, "--global"@, "--user=root"@, "--cache=/tmp/npm-cache"@]);
    r
}

/// Whether the old npm of the release `codename` must be told to use the
/// system's certificates (`npm config set ca ""`).
pub open spec fn needs_ca_reset_of(codename: Option<Seq<char>>) -> bool {
    codename == Some("trusty"@) || codename == Some("precise"@)
}

/// Whether the old npm of the release `codename` must be told to use the
/// system's certificates.
pub fn needs_ca_reset(codename: &Option<String>) -> (r: bool)
    ensures
        r == needs_ca_reset_of(opt_text(*codename)),
{
    match codename {
        Some(c) => same_text(c.as_str(), "trusty") || same_text(c.as_str(), "precise"),
        None => false,
    }
}

/// The version of a dependency as a `package.json` gives it: a text, or
/// another JSON value, kept as its debug form.
#[derive(Debug, Clone)]
pub enum JsonVersion {
    Text(String),
    Other(String),
}

/// A section of a `package.json`: missing, not a mapping, or the packages
/// it maps to their versions.
#[derive(Debug, Clone)]
pub enum Section {
    Missing,
    NotMapping,
    Entries(Vec<(String, JsonVersion)>),
}

/// The top-level keys of a `package.json` with their sections.
#[derive(Debug)]
pub struct PackageJson {
    pub sections: Vec<(String, Section)>,
}

impl PackageJson {
    /// The section under `key`: the first one under that key, or `Missing`.
    pub open spec fn section_of(self, key: Seq<char>) -> Section {
        section_in(self.sections@, key)
    }

    /// The section under `key`.
    pub fn get(&self, key: &str) -> (r: &Section)
        ensures
            *r == self.section_of(key@),
    {
        let mut i: usize = 0;
        assert(self.sections@.skip(0) =~= self.sections@);
        while i < self.sections.len()
            invariant
                i <= self.sections@.len(),
                section_in(self.sections@, key@) == section_in(self.sections@.skip(i as int), key@),
            decreases self.sections.len() - i,
        {
            let ghost rest = self.sections@.skip(i as int);
            assert(rest[0] == self.sections@[i as int]);
            if same_text(self.sections[i].0.as_str(), key) {
                return &self.sections[i].1;
            }
            assert(rest.drop_first() =~= self.sections@.skip(i + 1));
            i = i + 1;
        }
        assert(self.sections@.skip(i as int) =~= Seq::<(String, Section)>::empty());
        &MISSING
    }
}

/// The section that no key has.
pub const MISSING: Section = Section::Missing;

/// The first section under `key` in `ss`, or `Missing`.
pub open spec fn section_in(ss: Seq<(String, Section)>, key: Seq<char>) -> Section
    decreases ss.len(),
{
    if ss.len() == 0 {
        Section::Missing
    } else if ss[0].0@ == key {
        ss[0].1
    } else {
        section_in(ss.drop_first(), key)
    }
}

/// The message for a dependency whose version is not a text.
pub open spec fn wrong_version_error(name: Seq<char>, value: Seq<char>) -> Seq<char> {
    "Package "@ + debug_text(name) + " has wrong version "@ + value
}

/// The message for a section that is not a mapping.
pub open spec fn not_mapping_error(key: Seq<char>) -> Seq<char> {
    "The "@ + debug_text(key) + " is not a mapping (JSON object)"@
}

/// The first dependency of `es` whose version is not a text, if any.
pub open spec fn first_bad(es: Seq<(String, JsonVersion)>) -> Option<(Seq<char>, Seq<char>)>
    decreases es.len(),
{
    if es.len() == 0 {
        None
    } else {
        match es[0].1 {
            JsonVersion::Other(d) => Some((es[0].0@, d@)),
            JsonVersion::Text(_) => first_bad(es.drop_first()),
        }
    }
}

/// The package specifications (`name@version`) of the dependencies `es`.
pub open spec fn entry_specs(es: Seq<(String, JsonVersion)>) -> Seq<Seq<char>>
    decreases es.len(),
{
    if es.len() == 0 {
        seq![]
    } else {
        entry_specs(es.drop_last()) + match es.last().1 {
            JsonVersion::Text(v) => seq![dep_pattern(es.last().0@, v@)],
            JsonVersion::Other(_) => seq![],
        }
    }
}

/// The versions of the dependencies `es` that are texts.
pub open spec fn entry_versions(es: Seq<(String, JsonVersion)>) -> Seq<Seq<char>>
    decreases es.len(),
{
    if es.len() == 0 {
        seq![]
    } else {
        entry_versions(es.drop_last()) + match es.last().1 {
            JsonVersion::Text(v) => seq![v@],
            JsonVersion::Other(_) => seq![],
        }
    }
}

/// What scanning a section adds: its package specifications and the
/// features of their versions, or the error of the section.
pub open spec fn scan_section(s: Section, key: Seq<char>) -> Result<(Seq<Seq<char>>, Seq<Package>), Seq<char>> {
    match s {
        Section::Missing => Ok((seq![], seq![])),
        Section::NotMapping => Err(not_mapping_error(key)),
        Section::Entries(es) => match first_bad(es@) {
            Some((n, d)) => Err(wrong_version_error(n, d)),
            None => Ok((entry_specs(es@), features_of(entry_versions(es@)))),
        },
    }
}

/// Adds the dependencies of the section `section` (under `key`) to
/// `packages`, as `name@version`, and the features their versions need to
/// `features`; fails, changing nothing, where the section is not a mapping
/// or a version is not a text.
pub fn scan_dic(
    section: &Section,
    key: &str,
    packages: &mut Vec<String>,
    features: &mut Vec<Package>,
) -> (r: Result<(), String>)
    ensures
        match scan_section(*section, key@) {
            Ok((ps, fs)) => r is Ok && string_views(final(packages)@) == string_views(
                old(packages)@,
            ) + ps && final(features)@ == old(features)@ + fs,
            Err(e) => r matches Err(m) && m@ == e && final(packages)@ == old(packages)@
                && final(features)@ == old(features)@,
        },
{
    match section {
        Section::Missing => {
            assert(string_views(packages@) =~= string_views(packages@) + seq![]);
            assert(features@ =~= features@ + seq![]);
            Ok(())
        },
        Section::NotMapping => {
            let q = debug_quote(key);
            Err(concat3("The ", q.as_str(), " is not a mapping (JSON object)"))
        },
        Section::Entries(es) => {
            let mut i: usize = 0;
            assert(es@.skip(0) =~= es@);
            while i < es.len()
                invariant
                    *section == Section::Entries(*es),
                    i <= es@.len(),
                    first_bad(es@) == first_bad(es@.skip(i as int)),
                decreases es.len() - i,
            {
                let ghost rest = es@.skip(i as int);
                assert(rest[0] == es@[i as int]);
                match &es[i].1 {
                    JsonVersion::Other(d) => {
                        let q = debug_quote(es[i].0.as_str());
                        let mut m = concat3("Package ", q.as_str(), " has wrong version ");
                        m.append(d.as_str());
                        return Err(m);
                    },
                    JsonVersion::Text(_) => {},
                }
                assert(rest.drop_first() =~= es@.skip(i + 1));
                i = i + 1;
            }
            assert(es@.skip(i as int) =~= Seq::<(String, JsonVersion)>::empty());
            let ghost p0 = string_views(packages@);
            let ghost f0 = features@;
            let mut j: usize = 0;
            assert(es@.take(0) =~= seq![]);
            assert(p0 + seq![] =~= p0);
            assert(f0 + features_of(seq![]) =~= f0);
            while j < es.len()
                invariant
                    j <= es@.len(),
                    string_views(packages@) == p0 + entry_specs(es@.take(j as int)),
                    features@ == f0 + features_of(entry_versions(es@.take(j as int))),
                decreases es.len() - j,
            {
                assert(es@.take(j + 1).drop_last() =~= es@.take(j as int));
                assert(es@.take(j + 1).last() == es@[j as int]);
                match &es[j].1 {
                    JsonVersion::Text(v) => {
                        let ghost pk = packages@;
                        let spec_text = concat3(es[j].0.as_str(), "@", v.as_str());
                        let ghost fv = features@;
                        parse_feature(v.as_str(), features);
                        packages.push(spec_text);
                        assert(string_views(packages@) =~= string_views(pk).push(spec_text@));
                        assert(string_views(packages@) =~= p0 + entry_specs(es@.take(j + 1)));
                        let ghost vs = entry_versions(es@.take(j as int));
                        assert(entry_versions(es@.take(j + 1)) =~= vs.push(v@));
                        assert(vs.push(v@).drop_last() =~= vs);
                        assert(features@ =~= f0 + features_of(entry_versions(es@.take(j + 1))));
                    },
                    JsonVersion::Other(_) => {
                        assert(string_views(packages@) =~= p0 + entry_specs(es@.take(j + 1)));
                        assert(entry_versions(es@.take(j + 1)) =~= entry_versions(es@.take(j as int)));
                    },
                }
                j = j + 1;
            }
            assert(es@.take(j as int) =~= es@);
            Ok(())
        },
    }
}

/// The result of scanning the sections `keys` of `pj` one after the other:
/// the first error, or all the specifications and features.
pub open spec fn scan_keys(pj: PackageJson, keys: Seq<Seq<char>>) -> Result<
    (Seq<Seq<char>>, Seq<Package>),
    Seq<char>,
>
    decreases keys.len(),
{
    if keys.len() == 0 {
        Ok((seq![], seq![]))
    } else {
        match scan_section(pj.section_of(keys[0]), keys[0]) {
            Err(e) => Err(e),
            Ok((p, f)) => match scan_keys(pj, keys.drop_first()) {
                Err(e) => Err(e),
                Ok((p2, f2)) => Ok((p + p2, f + f2)),
            },
        }
    }
}

/// The sections of a `package.json` that a `NpmDependencies` step installs,
/// in order.
pub open spec fn npm_dep_keys(info: NpmDependencies) -> Seq<Seq<char>> {
    (if info.package {
        seq!["dependencies"@]
    } else {
        seq![]
    }) + (if info.dev {
        seq!["devDependencies"@]
    } else {
        seq![]
    }) + (if info.peer {
        seq!["peerDependencies"@]
    } else {
        seq![]
    }) + (if info.bundled {
        seq!["bundledDependencies"@, "bundleDependencies"@]
    } else {
        seq![]
    }) + (if info.optional {
        seq!["optionalDependencies"@]
    } else {
        seq![]
    })
}

/// The sections that `info` installs.
fn dep_keys(info: &NpmDependencies) -> (r: Vec<&'static str>)
    ensures
        crate::packages::texts(r@) == npm_dep_keys(*info),
{
    let mut r: Vec<&'static str> = Vec::new();
    if info.package {
        r.push("dependencies");
    }
    if info.dev {
        r.push("devDependencies");
    }
    if info.peer {
        r.push("peerDependencies");
    }
    if info.bundled {
        r.push("bundledDependencies");
        r.push("bundleDependencies");
    }
    if info.optional {
        r.push("optionalDependencies");
    }
    assert(crate::packages::texts(r@) =~= npm_dep_keys(*info));
    r
}

/// The packages (`name@version`) that a `NpmDependencies` step installs from
/// the `package.json` `pj`, and the features that installing them needs; or
/// the error of the first section that is not a mapping or has a version
/// that is not a text.
pub fn npm_deps(settings: &NpmConfig, info: &NpmDependencies, pj: &PackageJson) -> (r: Result<
    (Vec<String>, Vec<Package>),
    String,
>)
    ensures
        match scan_keys(*pj, npm_dep_keys(*info)) {
            Ok((ps, fs)) => r matches Ok((p, f)) && string_views(p@) == ps && f@ == npm_features(
                settings.install_node,
                seq![],
            ) + fs,
            Err(e) => r matches Err(m) && m@ == e,
        },
{
    let none: Vec<String> = Vec::new();
    let mut features = scan_features(settings, &none);
    assert(string_views(none@) =~= seq![]);
    let mut packages: Vec<String> = Vec::new();
    let keys = dep_keys(info);
    let ghost ks = npm_dep_keys(*info);
    let ghost f0 = features@;
    let mut i: usize = 0;
    assert(ks.skip(0) =~= ks);
    assert(string_views(packages@) =~= seq![]);
    assert(f0 + seq![] =~= f0);
    while i < keys.len()
        invariant
            ks == npm_dep_keys(*info),
            crate::packages::texts(keys@) == ks,
            i <= keys@.len(),
            match scan_keys(*pj, ks) {
                Ok((ps, fs)) => match scan_keys(*pj, ks.skip(i as int)) {
                    Ok((ps2, fs2)) => ps == string_views(packages@) + ps2 && fs == features@.skip(
                        f0.len() as int,
                    ) + fs2,
                    Err(_) => false,
                },
                Err(e) => scan_keys(*pj, ks.skip(i as int)) == Err::<
                    (Seq<Seq<char>>, Seq<Package>),
                    Seq<char>,
                >(e),
            },
            features@.len() >= f0.len(),
            features@.take(f0.len() as int) == f0,
            f0 == npm_features(settings.install_node, seq![]),
        decreases keys.len() - i,
    {
        let key = keys[i];
        let ghost rest = ks.skip(i as int);
        assert(rest[0] == key@);
        assert(rest.drop_first() =~= ks.skip(i + 1));
        let ghost p_before = string_views(packages@);
        let ghost f_before = features@;
        match scan_dic(pj.get(key), key, &mut packages, &mut features) {
            Ok(()) => {
                proof {
                    let (p1, fa) = scan_section(pj.section_of(key@), key@)->Ok_0;
                    assert(features@.skip(f0.len() as int) =~= f_before.skip(f0.len() as int)
                        + fa);
                    assert(features@.take(f0.len() as int) =~= f0);
                    match scan_keys(*pj, ks) {
                        Ok((ps, fs)) => {
                            match scan_keys(*pj, ks.skip(i + 1)) {
                                Ok((ps2, fs2)) => {
                                    assert(ps =~= string_views(packages@) + ps2);
                                    assert(fs =~= features@.skip(f0.len() as int) + fs2);
                                },
                                Err(_) => {},
                            }
                        },
                        Err(e) => {},
                    }
                }
            },
            Err(m) => {
                assert(scan_section(pj.section_of(key@), key@) == Err::<
                    (Seq<Seq<char>>, Seq<Package>),
                    Seq<char>,
                >(m@));
                assert(scan_keys(*pj, rest) == Err::<(Seq<Seq<char>>, Seq<Package>), Seq<char>>(
                    m@,
                ));
                return Err(m);
            },
        }
        i = i + 1;
    }
    assert(ks.skip(i as int) =~= Seq::<Seq<char>>::empty());
    proof {
        match scan_keys(*pj, ks) {
            Ok((ps, fs)) => {
                assert(ps =~= string_views(packages@));
                assert(features@ =~= f0 + fs);
            },
            Err(e) => {},
        }
    }
    Ok((packages, features))
}

/// The dependencies of a section with their text versions: none for a
/// section that is missing or not a mapping.
pub open spec fn section_deps(s: Section) -> Option<Seq<(Seq<char>, Option<Seq<char>>)>> {
    match s {
        Section::Entries(es) => Some(
            es@.map_values(
                |e: (String, JsonVersion)|
                    (
                        e.0@,
                        match e.1 {
                            JsonVersion::Text(v) => Some(v@),
                            JsonVersion::Other(_) => None,
                        },
                    ),
            ),
        ),
        _ => None,
    }
}

/// The section as a `DepSection`.
pub fn deps_of(s: &Section) -> (r: Option<DepSection>)
    ensures
        match r {
            Some(d) => section_deps(*s) == Some(
                d@.map_values(|e: (String, Option<String>)| (e.0@, opt_text(e.1))),
            ),
            None => section_deps(*s) is None,
        },
{
    match s {
        Section::Entries(es) => {
            let mut d: DepSection = Vec::new();
            let mut i: usize = 0;
            while i < es.len()
                invariant
                    *s == Section::Entries(*es),
                    i <= es@.len(),
                    d@.len() == i,
                    forall|k: int|
                        0 <= k < i ==> (#[trigger] d@[k]).0@ == es@[k].0@ && opt_text(d@[k].1)
                            == match es@[k].1 {
                            JsonVersion::Text(v) => Some(v@),
                            JsonVersion::Other(_) => None,
                        },
                decreases es.len() - i,
            {
                let v = match &es[i].1 {
                    JsonVersion::Text(v) => Some(v.clone()),
                    JsonVersion::Other(_) => None,
                };
                d.push((es[i].0.clone(), v));
                i = i + 1;
            }
            assert(section_deps(*s)->0 =~= d@.map_values(
                |e: (String, Option<String>)| (e.0@, opt_text(e.1)),
            ));
            Some(d)
        },
        _ => None,
    }
}

/// Whether the lock file's `patterns` cover the section `s`.
pub open spec fn section_locked(s: Section, patterns: Set<Seq<char>>) -> bool {
    match section_deps(s) {
        None => true,
        Some(d) => forall|k: int|
            0 <= k < d.len() && (#[trigger] d[k]).1 is Some ==> patterns.contains(
                dep_pattern(d[k].0, d[k].1->0),
            ),
    }
}

impl YarnDependencies {
    /// Whether the lock file whose patterns are `patterns` covers the
    /// dependencies of `pj` that this step installs, as yarn checks it: the
    /// runtime ones, the development ones unless only production ones are
    /// installed, and the optional ones where they are installed. Otherwise
    /// the step has to be run anew.
    pub fn locked(&self, pj: &PackageJson, patterns: &Vec<String>) -> (r: bool)
        ensures
            r == (section_locked(pj.section_of("dependencies"@), string_views(patterns@).to_set())
                && (self.production || section_locked(
                pj.section_of("devDependencies"@),
                string_views(patterns@).to_set(),
            )) && (!self.optional || section_locked(
                pj.section_of("optionalDependencies"@),
                string_views(patterns@).to_set(),
            ))),
    {
        let ok1 = section_ok(pj.get("dependencies"), patterns);
        if !ok1 {
            return false;
        }
        if !self.production {
            if !section_ok(pj.get("devDependencies"), patterns) {
                return false;
            }
        }
        if self.optional {
            if !section_ok(pj.get("optionalDependencies"), patterns) {
                return false;
            }
        }
        true
    }
}

/// Whether the patterns cover the section `s`.
fn section_ok(s: &Section, patterns: &Vec<String>) -> (r: bool)
    ensures
        r == section_locked(*s, string_views(patterns@).to_set()),
{
    let d = deps_of(s);
    let r = check_deps(&d, patterns);
    proof {
        if d is Some {
            let dv = d->0@;
            let f = |e: (String, Option<String>)| (e.0@, opt_text(e.1));
            assert forall|k: int|
                0 <= k < dv.len() && (#[trigger] dv[k]).1 is Some implies dv.map_values(f)[k].1 is Some
                && dv.map_values(f)[k].1->0 == dv[k].1->0@ && dv.map_values(f)[k].0 == dv[k].0@ by {}
            assert forall|k: int|
                0 <= k < dv.len() && (#[trigger] dv.map_values(f)[k]).1 is Some implies dv[k].1 is Some by {}
        }
    }
    r
}

/// The version of yarn to download: the configured one without the leading
/// `v`s, or the latest one; trimmed either way.
pub open spec fn yarn_version_of(configured: Option<Seq<char>>, latest: Seq<char>) -> Seq<char> {
    match configured {
        Some(v) => trim_spec(strip_vs(v)),
        None => trim_spec(latest),
    }
}

/// `v` without its leading `v` characters.
pub open spec fn strip_vs(v: Seq<char>) -> Seq<char>
    decreases v.len(),
{
    if v.len() > 0 && v[0] == 'v' {
        strip_vs(v.drop_first())
    } else {
        v
    }
}

/// The url of the yarn script of the version `ver`.
pub open spec fn yarn_link_of(ver: Seq<char>) -> Seq<char> {
    "https://github.com/yarnpkg/yarn/releases/download/v"@ + ver + "/yarn-"@ + ver + ".js"@
}

/// The url of the yarn script to install: of the version the settings
/// name, or else of `latest`, the text of yarn's latest-version file.
pub fn yarn_link(settings: &NpmConfig, latest: &str) -> (r: String)
    ensures
        r@ == yarn_link_of(yarn_version_of(opt_text(settings.yarn_version), latest@)),
{
    let ver = match &settings.yarn_version {
        Some(v) => {
            let cs = chars_of(v.as_str());
            let mut k: usize = 0;
            assert(cs@.skip(0) =~= cs@);
            while k < cs.len() && cs[k] == 'v'
                invariant
                    k <= cs@.len(),
                    cs@ == v@,
                    strip_vs(v@) == strip_vs(cs@.skip(k as int)),
                decreases cs.len() - k,
            {
                assert(cs@.skip(k as int).drop_first() =~= cs@.skip(k + 1));
                k = k + 1;
            }
            let rest = string_of(&cs, k, cs.len());
            assert(rest@ =~= cs@.skip(k as int));
            trim(rest.as_str())
        },
        None => trim(latest),
    };
    let mut r = String::from_str("https://github.com/yarnpkg/yarn/releases/download/v");
    r.append(ver.as_str());
    r.append("/yarn-");
    r.append(ver.as_str());
    r.append(".js");
    r
}

impl NpmInstall {
    /// What versions the step: its packages.
    pub open spec fn hash_items(self) -> Seq<ItemView> {
        seq![
            texts_item("packages"@, self.0@),
        ]
    }

    /// Feeds what versions the step into `h`.
    pub fn hash(&self, h: &mut VersionHash)
        ensures
            final(h)@ == old(h)@ + self.hash_items(),
    {
        let ghost h0 = h@;
        h.field_texts("packages", &self.0);
        assert(h@ =~= h0 + self.hash_items());
    }
}

impl NpmConfig {
    /// What versions the settings: the npm executable and whether node is
    /// installed; whether yarn is installed, where it is not; the yarn
    /// executable, where it is not `yarn`; the yarn version.
    pub open spec fn hash_items(self) -> Seq<ItemView> {
        seq![text_item("npm_exe"@, self.npm_exe@), flag_item("install_node"@, self.install_node)]
            + (if !self.install_yarn {
            seq![flag_item("install_yarn"@, self.install_yarn)]
        } else {
            seq![]
        }) + (if self.yarn_exe@ != "yarn"@ {
            seq![text_item("yarn_exe"@, self.yarn_exe@)]
        } else {
            seq![]
        }) + seq![opt_text_item("yarn_version"@, self.yarn_version)]
    }

    /// Feeds what versions the settings into `h`.
    pub fn hash(&self, h: &mut VersionHash)
        ensures
            final(h)@ == old(h)@ + self.hash_items(),
    {
        let ghost h0 = h@;
        h.field_text("npm_exe", self.npm_exe.as_str());
        h.field_flag("install_node", self.install_node);
        let ghost h1 = h@;
        if !self.install_yarn {
            h.field_flag("install_yarn", self.install_yarn);
        }
        let ghost h2 = h@;
        if !same_text(self.yarn_exe.as_str(), "yarn") {
            h.field_text("yarn_exe", self.yarn_exe.as_str());
        }
        let ghost h3 = h@;
        h.opt_field_text("yarn_version", &self.yarn_version);
        assert(h@ =~= h0 + self.hash_items());
    }
}

/// The version of a dependency as it is hashed: its text, or `*` where it
/// is not a text.
pub open spec fn hashed_version(v: JsonVersion) -> Seq<char> {
    match v {
        JsonVersion::Text(t) => t@,
        JsonVersion::Other(_) => "*"@,
    }
}

/// What versions the section `s` of a `package.json`: each dependency
/// named by the package with its version, where `s` is a mapping; nothing
/// otherwise.
pub open spec fn dep_items(s: Section) -> Seq<ItemView> {
    match s {
        Section::Entries(es) => es@.map_values(
            |e: (String, JsonVersion)| text_item(e.0@, hashed_version(e.1)),
        ),
        _ => seq![],
    }
}

/// Feeds what versions the section `s` into `h`.
pub fn hash_deps(h: &mut VersionHash, s: &Section)
    ensures
        final(h)@ == old(h)@ + dep_items(*s),
{
    let ghost h0 = h@;
    match s {
        Section::Entries(es) => {
            let ghost f = |e: (String, JsonVersion)| text_item(e.0@, hashed_version(e.1));
            let mut i: usize = 0;
            assert(h@ =~= h0 + es@.take(0).map_values(f));
            while i < es.len()
                invariant
                    i <= es@.len(),
                    f == (|e: (String, JsonVersion)| text_item(e.0@, hashed_version(e.1))),
                    h@ == h0 + es@.take(i as int).map_values(f),
                decreases es.len() - i,
            {
                match &es[i].1 {
                    JsonVersion::Text(t) => h.field_text(es[i].0.as_str(), t.as_str()),
                    JsonVersion::Other(_) => h.field_text(es[i].0.as_str(), "*"),
                }
                assert(es@.take(i + 1).map_values(f) =~= es@.take(i as int).map_values(f).push(
                    f(es@[i as int]),
                ));
                assert(h@ =~= h0 + es@.take(i + 1).map_values(f));
                i = i + 1;
            }
            assert(es@.take(i as int) =~= es@);
        },
        _ => {
            assert(h@ =~= h0 + dep_items(*s));
        },
    }
}

/// What versions the section `s` where `cond` holds; nothing otherwise.
pub open spec fn deps_if(cond: bool, s: Section) -> Seq<ItemView> {
    if cond {
        dep_items(s)
    } else {
        seq![]
    }
}

/// Feeds what versions the section `s` into `h` where `cond` holds.
pub fn hash_deps_if(h: &mut VersionHash, cond: bool, s: &Section)
    ensures
        final(h)@ == old(h)@ + deps_if(cond, *s),
{
    if cond {
        hash_deps(h, s);
    } else {
        assert(h@ =~= h@ + deps_if(cond, *s));
    }
}

impl NpmDependencies {
    /// The `package.json` whose dependencies the step installs.
    pub open spec fn package_path(self) -> Seq<char> {
        join_path("/work"@, self.file@)
    }

    /// The path of the `package.json`.
    pub fn package_file(&self) -> (r: String)
        ensures
            r@ == self.package_path(),
    {
        path_join("/work", self.file.as_str())
    }

    /// What versions the step, where its `package.json` is `pj`: the
    /// dependencies of each section it installs, in this order: runtime,
    /// development, peer, bundled (under both spellings), optional.
    pub open spec fn hash_items(self, pj: PackageJson) -> Seq<ItemView> {
        deps_if(self.package, pj.section_of("dependencies"@))
            + deps_if(self.dev, pj.section_of("devDependencies"@))
            + deps_if(self.peer, pj.section_of("peerDependencies"@))
            + (deps_if(self.bundled, pj.section_of("bundledDependencies"@))
                + deps_if(self.bundled, pj.section_of("bundleDependencies"@)))
            + deps_if(self.optional, pj.section_of("optionalDependencies"@))
    }

    /// Feeds what versions the step into `h`, where its `package.json` is
    /// `pj`.
    #[verifier::spinoff_prover]
    #[verifier::rlimit(40)]
    pub fn hash(&self, h: &mut VersionHash, pj: &PackageJson)
        ensures
            final(h)@ == old(h)@ + self.hash_items(*pj),
    {
        let s1 = pj.get("dependencies");
        let s2 = pj.get("devDependencies");
        let s3 = pj.get("peerDependencies");
        let s4 = pj.get("bundledDependencies");
        let s5 = pj.get("bundleDependencies");
        let s6 = pj.get("optionalDependencies");
        let ghost h0 = h@;
        hash_deps_if(h, self.package, s1);
        let ghost h1 = h@;
        hash_deps_if(h, self.dev, s2);
        let ghost h2 = h@;
        hash_deps_if(h, self.peer, s3);
        let ghost h3 = h@;
        hash_deps_if(h, self.bundled, s4);
        let ghost h4 = h@;
        hash_deps_if(h, self.bundled, s5);
        let ghost h5 = h@;
        hash_deps_if(h, self.optional, s6);
        proof {
            let a = deps_if(self.package, *s1);
            let b = deps_if(self.dev, *s2);
            let c = deps_if(self.peer, *s3);
            let d1 = deps_if(self.bundled, *s4);
            let d2 = deps_if(self.bundled, *s5);
            let e = deps_if(self.optional, *s6);
            assert(h@ =~= h0 + (a + b + c + (d1 + d2) + e));
        }
    }
}

impl YarnDependencies {
    /// Whether the lock file whose patterns are `patterns` covers the
    /// dependencies of `pj` that this step installs.
    pub open spec fn locked_spec(self, pj: PackageJson, patterns: Set<Seq<char>>) -> bool {
        &&& section_locked(pj.section_of("dependencies"@), patterns)
        &&& (self.production || section_locked(pj.section_of("devDependencies"@), patterns))
        &&& (!self.optional || section_locked(pj.section_of("optionalDependencies"@), patterns))
    }

    /// The lock file of the project.
    pub open spec fn lock_path(self) -> Seq<char> {
        join_path(join_path("/work"@, self.dir@), "yarn.lock"@)
    }

    /// The `package.json` of the project.
    pub open spec fn package_path(self) -> Seq<char> {
        join_path(join_path("/work"@, self.dir@), "package.json"@)
    }

    /// The paths of the lock file and of the `package.json`.
    pub fn files(&self) -> (r: (String, String))
        ensures
            r.0@ == self.lock_path(),
            r.1@ == self.package_path(),
    {
        let dir = path_join("/work", self.dir.as_str());
        (path_join(dir.as_str(), "yarn.lock"), path_join(dir.as_str(), "package.json"))
    }

    /// What versions the step, where its `package.json` is `pj`: whether
    /// only production dependencies are installed; the runtime
    /// dependencies, the development ones unless only production ones are
    /// installed, and the optional ones where they are; the lock file.
    pub open spec fn hash_items(self, pj: PackageJson) -> Seq<ItemView> {
        seq![flag_item("production"@, self.production)] + dep_items(pj.section_of("dependencies"@))
            + (if !self.production {
            dep_items(pj.section_of("devDependencies"@))
        } else {
            seq![]
        }) + (if self.optional {
            dep_items(pj.section_of("optionalDependencies"@))
        } else {
            seq![]
        }) + seq![ItemView::File(self.lock_path())]
    }

    /// Feeds what versions the step into `h`, where `lock` is the
    /// `package.json` and the patterns of the lock file where there is a
    /// lock file. Returns whether the step is versioned: there must be a
    /// lock file, and it must cover the dependencies installed; otherwise
    /// the step has to be built anew.
    pub fn hash(&self, h: &mut VersionHash, lock: Option<(&PackageJson, &Vec<String>)>) -> (r: bool)
        ensures
            r == match lock {
                Some((pj, patterns)) => self.locked_spec(*pj, string_views(patterns@).to_set()),
                None => false,
            },
            match lock {
                Some((pj, _)) => r ==> final(h)@ == old(h)@ + self.hash_items(*pj),
                None => true,
            },
    {
        let ghost h0 = h@;
        h.field_flag("production", self.production);
        let (pj, patterns) = match lock {
            Some(l) => l,
            None => {
                return false;
            },
        };
        if !self.locked(pj, patterns) {
            return false;
        }
        let ghost h1 = h@;
        hash_deps(h, pj.get("dependencies"));
        let ghost h2 = h@;
        if !self.production {
            hash_deps(h, pj.get("devDependencies"));
        }
        let ghost h3 = h@;
        if self.optional {
            hash_deps(h, pj.get("optionalDependencies"));
        }
        let ghost h4 = h@;
        let (lock_file, _) = self.files();
        h.file(lock_file.as_str());
        assert(h@ =~= h0 + self.hash_items(*pj));
        true
    }
}

impl YarnDependencies {
    /// The command line that installs the project's dependencies with the
    /// yarn of `settings`: without a progress bar, into the global modules
    /// folder, with the cache in `/tmp/yarn-cache`, and only the runtime
    /// dependencies where the step says so.
    pub fn yarn_install_args(&self, settings: &NpmConfig) -> (r: Vec<String>)
        ensures
            string_views(r@) == seq![
                settings.yarn_exe@,
                "install"@,
                "--no-progress"@,
                "--modules-folder=/usr/lib/node_modules"@,
                "--cache-folder=/tmp/yarn-cache"@,
            ] + if self.production {
                seq!["--production"@]
            } else {
                seq![]
            },
    {
        let mut r = vec![
            String::from_str(settings.yarn_exe.as_str()),
            String::from_str("install"),
            String::from_str("--no-progress"),
            String::from_str("--modules-folder=/usr/lib/node_modules"),
            String::from_str("--cache-folder=/tmp/yarn-cache"),
        ];
        let ghost r0 = string_views(r@);
        if self.production {
            r.push(String::from_str("--production"));
        }
        assert(string_views(r@) =~= seq![
            settings.yarn_exe@,
            "install"@,
            "--no-progress"@,
            "--modules-folder=/usr/lib/node_modules"@,
            "--cache-folder=/tmp/yarn-cache"@,
        ] + if self.production {
            seq!["--production"@]
        } else {
            seq![]
        });
        r
    }

    /// The directories of the install: where yarn runs, the project's
    /// `node_modules` in the container (the global modules folder is
    /// mounted there while yarn runs), and the executables that are linked
    /// into `/usr/bin` afterwards.
    pub fn dirs(&self) -> (r: (String, String, String))
        ensures
            r.0@ == join_path("/work"@, self.dir@),
            r.1@ == join_path(join_path("/vagga/root/work"@, self.dir@), "node_modules"@),
            r.2@ == join_path(join_path("/work"@, self.dir@), "node_modules/.bin"@),
    {
        let base = path_join("/work", self.dir.as_str());
        let root = path_join("/vagga/root/work", self.dir.as_str());
        let bin = path_join(base.as_str(), "node_modules/.bin");
        (base, path_join(root.as_str(), "node_modules"), bin)
    }
}


/// Installing with yarn where node is installed needs, after the build
/// tools, node and its headers (for native modules), then yarn, then what
/// the packages need; without node, the build tools, then yarn. The two
/// differ exactly by node and its headers.
pub proof fn lemma_yarn_features_with_node(pkgs: Seq<Seq<char>>)
    ensures
        yarn_features(true, pkgs).take(4) == seq![
            Package::BuildEssential,
            Package::NodeJs,
            Package::NodeJsDev,
            Package::Yarn,
        ],
        yarn_features(false, pkgs).take(2) == seq![Package::BuildEssential, Package::Yarn],
        yarn_features(true, pkgs).skip(4) == features_of(pkgs),
        yarn_features(false, pkgs).skip(2) == features_of(pkgs),
        yarn_features(true, pkgs) == yarn_features(false, pkgs).take(1) + seq![
            Package::NodeJs,
            Package::NodeJsDev,
        ] + yarn_features(false, pkgs).skip(1),
{
    assert(yarn_features(true, pkgs).take(4) =~= seq![
        Package::BuildEssential,
        Package::NodeJs,
        Package::NodeJsDev,
        Package::Yarn,
    ]);
    assert(yarn_features(false, pkgs).take(2) =~= seq![Package::BuildEssential, Package::Yarn]);
    assert(yarn_features(true, pkgs).skip(4) =~= features_of(pkgs));
    assert(yarn_features(false, pkgs).skip(2) =~= features_of(pkgs));
    assert(yarn_features(true, pkgs) =~= yarn_features(false, pkgs).take(1) + seq![
        Package::NodeJs,
        Package::NodeJsDev,
    ] + yarn_features(false, pkgs).skip(1));
}

/// Installing with npm where node is installed needs, after the build
/// tools, node, its headers and npm, then what the packages need; without
/// node, the build tools and what the packages need.
pub proof fn lemma_npm_features_with_node(pkgs: Seq<Seq<char>>)
    ensures
        npm_features(true, pkgs).take(4) == seq![
            Package::BuildEssential,
            Package::NodeJs,
            Package::NodeJsDev,
            Package::Npm,
        ],
        npm_features(true, pkgs).skip(4) == features_of(pkgs),
        npm_features(false, pkgs) == seq![Package::BuildEssential] + features_of(pkgs),
{
    assert(npm_features(true, pkgs).take(4) =~= seq![
        Package::BuildEssential,
        Package::NodeJs,
        Package::NodeJsDev,
        Package::Npm,
    ]);
    assert(npm_features(true, pkgs).skip(4) =~= features_of(pkgs));
    assert(npm_features(false, pkgs) =~= seq![Package::BuildEssential] + features_of(pkgs));
}


/// A package given by a `git://` url needs git, once for each such package;
/// no other package needs anything: what a list of packages needs is only
/// ever git.
pub proof fn lemma_features_of_packages(pkgs: Seq<Seq<char>>, x: Seq<char>)
    ensures
        has_prefix(x, "git://"@) ==> features_of(pkgs.push(x)) == features_of(pkgs).push(
            Package::Git,
        ),
        !has_prefix(x, "git://"@) ==> features_of(pkgs.push(x)) == features_of(pkgs),
        forall|i: int| 0 <= i < features_of(pkgs).len() ==> #[trigger] features_of(pkgs)[i]
            == Package::Git,
    decreases pkgs.len(),
{
    assert(pkgs.push(x).drop_last() =~= pkgs);
    assert(pkgs.push(x).last() == x);
    assert(features_of(pkgs).push(Package::Git) =~= features_of(pkgs) + seq![Package::Git]);
    assert(features_of(pkgs) + Seq::<Package>::empty() =~= features_of(pkgs));
    if pkgs.len() > 0 {
        lemma_features_of_packages(pkgs.drop_last(), pkgs.last());
        assert(pkgs.drop_last().push(pkgs.last()) =~= pkgs);
    }
}

} // verus!

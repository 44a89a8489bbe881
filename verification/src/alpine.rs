use vstd::prelude::*;
use crate::versioning::{VersionHash, ItemView, text_item, opt_text_item};
use crate::packages::{Package, PackageSets, DepLists, DepTexts, opt_texts, plan_features, PlanView, names, names_seq};
use crate::version::{compare_versions, version_order, Order};
use crate::text::{
    chars_of, concat3, split_on, split_char, string_views, opt_text, has_prefix, has_suffix, str_ends_with, trim, trim_spec, lemma_split_on_len, push_char,
};
use crate::matchers::{regex_builds, regex_matches, regex_is_match, check_regex, regex_error_text};
use rand::Rng;

verus! {

/// The build step that starts an Alpine container of the given version
/// (such as `v3.4`).
#[derive(Debug)]
pub struct Alpine(pub String);

/// The build step that adds an Alpine package repository.
#[derive(Debug)]
pub struct AlpineRepo {
    pub url: Option<String>,
    pub branch: Option<String>,
    pub repo: String,
    pub tag: Option<String>,
}

/// The state of an Alpine container while it is built.
#[derive(Debug)]
pub struct Distro {
    pub version: String,
    pub mirror: String,
    pub base_setup: bool,
    pub apk_update: bool,
}

/// The latest Alpine version that vagga knows.
pub const LATEST_VERSION: &'static str = "v3.4";

/// The pattern of the versions that an Alpine step accepts.
pub const ALPINE_VERSION_REGEX: &'static str = "^v\\d+.\\d+$";

/// Alpine versions from this one on name the PHP packages `php5`.
pub const VERSION_WITH_PHP5: &'static str = "v3.4";

/// Whether the Alpine version `v` names its PHP packages `php5`.
pub open spec fn has_php5(v: Seq<char>) -> bool {
    version_order(v, VERSION_WITH_PHP5@) != Order::Less
}

/// The build dependencies of PHP on the Alpine version `v`.
pub open spec fn php_build_names(v: Seq<char>) -> Seq<Seq<char>> {
    if has_php5(v) {
        seq!["php5"@]
    } else {
        seq!["php"@]
    }
}

/// The packages of PHP on the Alpine version `v`.
pub open spec fn php_system_names(v: Seq<char>) -> Seq<Seq<char>> {
    if has_php5(v) {
        seq![
            "php5"@,
            "php5-cli"@,
            "php5-openssl"@,
            "php5-phar"@,
            "php5-json"@,
            "php5-pdo"@,
            "php5-dom"@,
            "php5-zip"@,
        ]
    } else {
        seq![
            "php"@,
            "php-cli"@,
            "php-openssl"@,
            "php-phar"@,
            "php-json"@,
            "php-pdo"@,
            "php-dom"@,
            "php-zip"@,
        ]
    }
}

/// The build dependencies of the feature `p` on the Alpine version `v`
/// (`None` where Alpine does not provide the feature).
pub open spec fn build_names(v: Seq<char>, p: Package) -> Option<Seq<Seq<char>>> {
    match p {
        Package::BuildEssential => Some(seq!["build-base"@, "ca-certificates"@]),
        Package::Https => Some(seq!["ca-certificates"@]),
        Package::Python2 => Some(seq![]),
        Package::Python2Dev => Some(seq!["python-dev"@]),
        Package::Python3 => Some(seq![]),
        Package::Python3Dev => Some(seq!["python3-dev"@]),
        Package::PipPy2 => None,
        Package::PipPy3 => None,
        Package::NodeJs => Some(seq![]),
        Package::NodeJsDev => Some(seq!["nodejs-dev"@]),
        Package::Npm => Some(seq![]),
        Package::Yarn => None,
        Package::Php => Some(seq![]),
        Package::PhpDev => Some(php_build_names(v)),
        Package::Composer => None,
        Package::Ruby => Some(seq![]),
        Package::RubyDev => Some(seq!["ruby-dev"@]),
        Package::Bundler => None,
        Package::Git => Some(seq!["git"@]),
        Package::Mercurial => Some(seq!["mercurial"@]),
    }
}

/// The packages the feature `p` keeps on the Alpine version `v` (`None`
/// where Alpine does not provide the feature).
pub open spec fn system_names(v: Seq<char>, p: Package) -> Option<Seq<Seq<char>>> {
    match p {
        Package::BuildEssential => Some(seq![]),
        Package::Https => Some(seq![]),
        Package::Python2 => Some(seq!["python"@]),
        Package::Python2Dev => Some(seq![]),
        Package::Python3 => Some(seq!["python3"@]),
        Package::Python3Dev => Some(seq![]),
        Package::PipPy2 => None,
        Package::PipPy3 => None,
        Package::NodeJs => Some(seq!["nodejs"@]),
        Package::NodeJsDev => Some(seq![]),
        Package::Npm => Some(seq!["nodejs"@]),
        Package::Yarn => None,
        Package::Php => Some(php_system_names(v)),
        Package::PhpDev => Some(seq![]),
        Package::Composer => None,
        Package::Ruby => Some(seq!["ruby"@, "ruby-io-console"@]),
        Package::RubyDev => Some(seq![]),
        Package::Bundler => None,
        Package::Git => Some(seq![]),
        Package::Mercurial => Some(seq![]),
    }
}

/// The lists of the features `fs` on the Alpine version `v`.
pub open spec fn dep_names(v: Seq<char>, fs: Seq<Package>) -> Seq<DepTexts> {
    fs.map_values(|p: Package| (build_names(v, p), system_names(v, p)))
}

impl Distro {
    /// Whether this version names its PHP packages `php5`.
    fn php5(&self) -> (r: bool)
        ensures
            r == has_php5(self.version@),
    {
        match compare_versions(self.version.as_str(), VERSION_WITH_PHP5) {
            Order::Less => false,
            _ => true,
        }
    }

    /// The build dependencies of PHP.
    pub fn php_build_deps(&self) -> (r: Vec<&'static str>)
        ensures
            names_of(r@) == php_build_names(self.version@),
    {
        let r = if self.php5() {
            vec!["php5"]
        } else {
            vec!["php"]
        };
        assert(names_of(r@) =~= php_build_names(self.version@));
        r
    }

    /// The packages of PHP.
    pub fn php_system_deps(&self) -> (r: Vec<&'static str>)
        ensures
            names_of(r@) == php_system_names(self.version@),
    {
        let r = if self.php5() {
            vec![
                "php5",
                "php5-cli",
                "php5-openssl",
                "php5-phar",
                "php5-json",
                "php5-pdo",
                "php5-dom",
                "php5-zip",
            ]
        } else {
            vec!["php", "php-cli", "php-openssl", "php-phar", "php-json", "php-pdo", "php-dom", "php-zip"]
        };
        assert(names_of(r@) =~= php_system_names(self.version@));
        r
    }

    /// The build dependencies of the feature `pkg`.
    pub fn build_deps(&self, pkg: Package) -> (r: Option<Vec<&'static str>>)
        ensures
            opt_texts(r) == build_names(self.version@, pkg),
    {
        let r = match pkg {
            Package::BuildEssential => Some(vec!["build-base", "ca-certificates"]),
            Package::Https => Some(vec!["ca-certificates"]),
            Package::Python2 => Some(vec![]),
            Package::Python2Dev => Some(vec!["python-dev"]),
            Package::Python3 => Some(vec![]),
            Package::Python3Dev => Some(vec!["python3-dev"]),
            Package::PipPy2 => None,
            Package::PipPy3 => None,
            Package::NodeJs => Some(vec![]),
            Package::NodeJsDev => Some(vec!["nodejs-dev"]),
            Package::Npm => Some(vec![]),
            Package::Yarn => None,
            Package::Php => Some(vec![]),
            Package::PhpDev => Some(self.php_build_deps()),
            Package::Composer => None,
            Package::Ruby => Some(vec![]),
            Package::RubyDev => Some(vec!["ruby-dev"]),
            Package::Bundler => None,
            Package::Git => Some(vec!["git"]),
            Package::Mercurial => Some(vec!["mercurial"]),
        };
        proof {
            if r is Some {
                assert(names_of(r->0@) =~= build_names(self.version@, pkg)->0);
            }
        }
        r
    }

    /// The packages the feature `pkg` keeps.
    pub fn system_deps(&self, pkg: Package) -> (r: Option<Vec<&'static str>>)
        ensures
            opt_texts(r) == system_names(self.version@, pkg),
    {
        let r = match pkg {
            Package::BuildEssential => Some(vec![]),
            Package::Https => Some(vec![]),
            Package::Python2 => Some(vec!["python"]),
            Package::Python2Dev => Some(vec![]),
            Package::Python3 => Some(vec!["python3"]),
            Package::Python3Dev => Some(vec![]),
            Package::PipPy2 => None,
            Package::PipPy3 => None,
            Package::NodeJs => Some(vec!["nodejs"]),
            Package::NodeJsDev => Some(vec![]),
            Package::Npm => Some(vec!["nodejs"]),
            Package::Yarn => None,
            Package::Php => Some(self.php_system_deps()),
            Package::PhpDev => Some(vec![]),
            Package::Composer => None,
            Package::Ruby => Some(vec!["ruby", "ruby-io-console"]),
            Package::RubyDev => Some(vec![]),
            Package::Bundler => None,
            Package::Git => Some(vec![]),
            Package::Mercurial => Some(vec![]),
        };
        proof {
            if r is Some {
                assert(names_of(r->0@) =~= system_names(self.version@, pkg)->0);
            }
        }
        r
    }

    /// Decides what to install for the features `features` and takes the new
    /// packages into `sets`: returns the packages to install (with `apk add`,
    /// where there are any) and the features that Alpine does not provide.
    pub fn ensure_packages(&self, sets: &mut PackageSets, features: &[Package]) -> (r: (
        Vec<String>,
        Vec<Package>,
    ))
        ensures
            plan_features(old(sets).start(), features@, dep_names(self.version@, features@))
                == (PlanView {
                packages: names(final(sets).packages@),
                build_deps: names(final(sets).build_deps@),
                to_install: names_seq(r.0@),
                unsupported: r.1@,
            }),
    {
        let mut deps: Vec<DepLists> = Vec::new();
        let mut i: usize = 0;
        while i < features.len()
            invariant
                i <= features@.len(),
                deps@.len() == i,
                forall|k: int|
                    0 <= k < i ==> crate::packages::dep_texts(#[trigger] deps@[k]) == (
                        build_names(self.version@, features@[k]),
                        system_names(self.version@, features@[k]),
                    ),
            decreases features.len() - i,
        {
            let p = features[i];
            deps.push((self.build_deps(p), self.system_deps(p)));
            i = i + 1;
        }
        assert(crate::packages::deps_texts(deps@) =~= dep_names(self.version@, features@));
        sets.plan(features, &deps)
    }
}

/// The texts of `v`.
pub open spec fn names_of(v: Seq<&'static str>) -> Seq<Seq<char>> {
    crate::packages::texts(v)
}

/// How a repository string names its branch and its repository:
/// `repository` or `branch/repository`; `None` for any other form.
pub open spec fn repo_parts(s: Seq<char>) -> Option<(Option<Seq<char>>, Seq<char>)> {
    let p = split_on(s, '/');
    if p.len() == 1 {
        Some((None, p[0]))
    } else if p.len() == 2 {
        Some((Some(p[0]), p[1]))
    } else {
        None
    }
}

/// The branch that a repository string names, if any.
pub open spec fn repo_branch(s: Seq<char>) -> Option<Seq<char>> {
    let p = split_on(s, '/');
    if p.len() == 2 {
        Some(p[0])
    } else {
        None
    }
}

/// The repository that a repository string names.
pub open spec fn repo_name(s: Seq<char>) -> Seq<char> {
    split_on(s, '/').last()
}

/// The message for a repository string that `repo_parts` does not accept.
pub open spec fn repo_error(s: Seq<char>) -> Seq<char> {
    "Cannot parse repository string. Should be in the next formats: 'branch/repository' or 'repository'. But was: '"@
        + s + "'"@
}

/// `u` with a `/` at its end.
pub open spec fn with_slash(u: Seq<char>) -> Seq<char> {
    if has_suffix(u, seq!['/']) {
        u
    } else {
        u.push('/')
    }
}

/// The line of `/etc/apk/repositories` for a repository: its tag as `@tag `,
/// the mirror's url ending with `/`, the branch, `/` and the repository.
pub open spec fn repo_line(
    tag: Option<Seq<char>>,
    url: Seq<char>,
    branch: Seq<char>,
    repo: Seq<char>,
) -> Seq<char> {
    (match tag {
        Some(t) => seq!['@'] + t + seq![' '],
        None => seq![],
    }) + with_slash(url) + branch + seq!['/'] + repo
}

/// The value of an optional text, or `d`.
pub open spec fn or_else(o: Option<Seq<char>>, d: Seq<char>) -> Seq<char> {
    match o {
        Some(x) => x,
        None => d,
    }
}

impl Distro {
    /// The line that adds the repository `repo` to the repositories file;
    /// the package index is updated before the next install.
    pub fn add_alpine_repo(&mut self, repo: &AlpineRepo) -> (r: String)
        ensures
            final(self).apk_update,
            final(self).version == old(self).version,
            final(self).mirror == old(self).mirror,
            final(self).base_setup == old(self).base_setup,
            r@ == repo_line(
                opt_text(repo.tag),
                or_else(opt_text(repo.url), old(self).mirror@),
                or_else(opt_text(repo.branch), old(self).version@),
                repo.repo@,
            ),
    {
        self.apk_update = true;
        let mut line = String::new();
        let ghost t = match opt_text(repo.tag) {
            Some(t) => seq!['@'] + t + seq![' '],
            None => seq![],
        };
        if let Some(tag) = &repo.tag {
            push_char(&mut line, '@');
            line.append(tag.as_str());
            push_char(&mut line, ' ');
        }
        assert(line@ =~= t);
        let url = match &repo.url {
            Some(u) => u,
            None => &self.mirror,
        };
        line.append(url.as_str());
        let ends = str_ends_with(url.as_str(), "/");
        proof {
            reveal_strlit("/");
            assert("/"@ =~= seq!['/']);
        }
        if !ends {
            push_char(&mut line, '/');
        }
        assert(line@ =~= t + with_slash(url@));
        let branch = match &repo.branch {
            Some(b) => b,
            None => &self.version,
        };
        line.append(branch.as_str());
        push_char(&mut line, '/');
        line.append(repo.repo.as_str());
        assert(line@ =~= t + with_slash(url@) + branch@ + seq!['/'] + repo.repo@);
        line
    }

    /// The line that adds the repository named by `repo` (`repository` or
    /// `branch/repository`) from the mirror of this container.
    pub fn add_repo(&mut self, repo: &str) -> (r: Result<String, String>)
        ensures
            r is Ok <==> repo_parts(repo@) is Some,
            r matches Err(e) ==> e@ == repo_error(repo@) && *final(self) == *old(self),
            r matches Ok(line) ==> line@ == repo_line(
                None,
                old(self).mirror@,
                or_else(repo_branch(repo@), old(self).version@),
                repo_name(repo@),
            ) && final(self).apk_update && final(self).version == old(self).version
                && final(self).mirror == old(self).mirror && final(self).base_setup == old(
                self,
            ).base_setup,
    {
        let parts = split_char(repo, '/');
        proof {
            lemma_split_on_len(repo@, '/');
        }
        if parts.len() > 2 {
            return Err(concat3(
                "Cannot parse repository string. Should be in the next formats: 'branch/repository' or 'repository'. But was: '",
                repo,
                "'",
            ));
        }
        let (branch, name) = if parts.len() == 1 {
            (None, parts[0].clone())
        } else {
            (Some(parts[0].clone()), parts[1].clone())
        };
        let alpine_repo = AlpineRepo {
            url: Some(self.mirror.clone()),
            branch: branch,
            repo: name,
            tag: None,
        };
        Ok(self.add_alpine_repo(&alpine_repo))
    }
}

/// The first line of the repositories file of a new container.
pub open spec fn base_repo_line(mirror: Seq<char>, version: Seq<char>) -> Seq<char> {
    mirror + version + "/main\n"@
}

/// The repositories file that a new container starts with.
pub fn base_repositories(mirror: &str, version: &str) -> (r: String)
    ensures
        r@ == base_repo_line(mirror@, version@),
{
    concat3(mirror, version, "/main\n")
}

/// The message for a version that is not of the form `vX.Y`.
pub open spec fn version_error(v: Seq<char>) -> Seq<char> {
    "Error checking alpine version: '"@ + v + "'"@
}

/// Checks that `version` has the form of an Alpine version (`v3.4`).
pub fn check_version(version: &str) -> (r: Result<(), String>)
    ensures
        r is Ok <==> regex_builds(ALPINE_VERSION_REGEX@) && regex_matches(
            ALPINE_VERSION_REGEX@,
            version@,
        ),
        regex_builds(ALPINE_VERSION_REGEX@) ==> (r matches Err(e) ==> e@ == version_error(
            version@,
        )),
{
    match check_regex(ALPINE_VERSION_REGEX) {
        Err(e) => Err(regex_error_text(&e)),
        Ok(()) => {
            if regex_is_match(ALPINE_VERSION_REGEX, version) {
                Ok(())
            } else {
                Err(concat3("Error checking alpine version: '", version, "'"))
            }
        },
    }
}

/// The mirrors of a mirror list: its lines, trimmed, without the empty ones
/// and the comments (lines that start with `#`).
pub open spec fn mirror_entries(ls: Seq<Seq<char>>) -> Seq<Seq<char>>
    decreases ls.len(),
{
    if ls.len() == 0 {
        seq![]
    } else {
        let rest = mirror_entries(ls.drop_last());
        let t = trim_spec(ls.last());
        if t.len() > 0 && !has_prefix(t, seq!['#']) {
            rest.push(t)
        } else {
            rest
        }
    }
}

/// The mirrors listed in `text`, one per line.
pub fn mirror_list(text: &str) -> (r: Vec<String>)
    ensures
        string_views(r@) == mirror_entries(split_on(text@, '\n')),
{
    let lines = split_char(text, '\n');
    let ghost ls = split_on(text@, '\n');
    let mut r: Vec<String> = Vec::new();
    let mut i: usize = 0;
    assert(ls.take(0) =~= seq![]);
    while i < lines.len()
        invariant
            string_views(lines@) == ls,
            i <= lines@.len(),
            string_views(r@) == mirror_entries(ls.take(i as int)),
        decreases lines.len() - i,
    {
        let t = trim(lines[i].as_str());
        assert(ls.take(i + 1).drop_last() =~= ls.take(i as int));
        assert(ls.take(i + 1).last() == lines@[i as int]@);
        let tv = chars_of(t.as_str());
        if tv.len() > 0 && tv[0] != '#' {
            let ghost r0 = r@;
            r.push(t);
            assert(string_views(r@) =~= string_views(r0).push(tv@));
        }
        proof {
            if tv@.len() > 0 {
                assert(has_prefix(tv@, seq!['#']) == (tv@[0] == '#')) by {
                    if tv@[0] == '#' {
                        assert(tv@.subrange(0, 1) =~= seq!['#']);
                    } else {
                        assert(tv@.subrange(0, 1)[0] == tv@[0]);
                    }
                }
            }
        }
        i = i + 1;
    }
    assert(ls.take(i as int) =~= ls);
    r
}

/// A number chosen at random below `n`, by `rand`'s thread-local
/// generator (`Rng::gen_range`, which panics on an empty range).
#[verifier::external_body]
fn random_below(n: usize) -> (r: usize)
    requires
        n > 0,
    ensures
        r < n,
{
    rand::thread_rng().gen_range(0..n)
}

/// A mirror chosen at random from the list `text`.
pub fn choose_mirror(text: &str) -> (r: String)
    requires
        mirror_entries(split_on(text@, '\n')).len() > 0,
    ensures
        mirror_entries(split_on(text@, '\n')).contains(r@),
{
    let repos = mirror_list(text);
    let k = random_below(repos.len());
    assert(string_views(repos@)[k as int] == repos@[k as int]@);
    repos[k].clone()
}

impl Alpine {
    /// What versions the step: its version.
    pub open spec fn hash_items(self) -> Seq<ItemView> {
        seq![
            text_item("version"@, self.0@),
        ]
    }

    /// Feeds what versions the step into `h`.
    pub fn hash(&self, h: &mut VersionHash)
        ensures
            final(h)@ == old(h)@ + self.hash_items(),
    {
        let ghost h0 = h@;
        h.field_text("version", self.0.as_str());
        assert(h@ =~= h0 + self.hash_items());
    }
}

impl AlpineRepo {
    /// What versions the step: the mirror, branch, repository and tag.
    pub open spec fn hash_items(self) -> Seq<ItemView> {
        seq![
            opt_text_item("url"@, self.url),
            opt_text_item("branch"@, self.branch),
            text_item("repo"@, self.repo@),
            opt_text_item("tag"@, self.tag),
        ]
    }

    /// Feeds what versions the step into `h`.
    pub fn hash(&self, h: &mut VersionHash)
        ensures
            final(h)@ == old(h)@ + self.hash_items(),
    {
        let ghost h0 = h@;
        h.opt_field_text("url", &self.url);
        h.opt_field_text("branch", &self.branch);
        h.field_text("repo", self.repo.as_str());
        h.opt_field_text("tag", &self.tag);
        assert(h@ =~= h0 + self.hash_items());
    }
}

} // verus!

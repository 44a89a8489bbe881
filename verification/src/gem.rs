use vstd::prelude::*;
use crate::versioning::{VersionHash, ItemView, text_item, flag_item, texts_item, opt_text_item};
use crate::paths::{join_path, path_join};
use crate::tar::{components, path_components};
use crate::guard::{join_parts, join_components, parts_view};
use crate::packages::Package;
use crate::text::{string_views, same_text, extend_strings, concat, trim, trim_spec, has_prefix, str_starts_with, lines_of, text_lines};
use crate::matchers::{regex_builds, regex_matches, regex_is_match, check_regex, regex_capture, regex_error_text, regex_group};

verus! {

/// The gem executable that vagga uses where the settings name none.
pub const DEFAULT_GEM_EXE: &'static str = "/usr/bin/gem";

/// Where the executables of installed gems go.
pub const BIN_DIR: &'static str = "/usr/local/bin";

/// The build step that installs ruby gems.
#[derive(Debug)]
pub struct GemInstall(pub Vec<String>);

/// The settings of the ruby build steps.
#[derive(Debug, Clone)]
pub struct GemConfig {
    pub install_ruby: bool,
    pub gem_exe: Option<String>,
    pub update_gem: bool,
}

/// The build step that installs the gems of a `Gemfile` with bundler.
#[derive(Debug)]
pub struct GemBundle {
    pub gemfile: String,
    pub without: Vec<String>,
    pub trust_policy: Option<String>,
}

impl GemConfig {
    /// Whether these are the settings that apply where none are given.
    pub open spec fn is_default(&self) -> bool {
        &&& self.install_ruby
        &&& self.gem_exe is None
        &&& self.update_gem
    }
}

impl Default for GemConfig {
    fn default() -> (r: GemConfig)
        ensures
            r.is_default(),
    {
        GemConfig { install_ruby: true, gem_exe: None, update_gem: true }
    }
}

/// The gem executable: the configured one or the default one.
pub fn gem_exe(settings: &GemConfig) -> (r: String)
    ensures
        r@ == match settings.gem_exe {
            Some(g) => g@,
            None => DEFAULT_GEM_EXE@,
        },
{
    match &settings.gem_exe {
        Some(g) => g.clone(),
        None => String::from_str(DEFAULT_GEM_EXE),
    }
}

/// The pattern of the lines of a `Gemfile` that fetch gems with git.
pub const GIT_GEMS_REGEX: &'static str = "(git .*? do)|(:(git|github|gist|bitbucket) =>)|(git_source\\(.*?\\))";

/// Whether the `Gemfile` text `gemfile` fetches gems with git (false where
/// the pattern does not compile).
pub fn requires_git(gemfile: &str) -> (r: bool)
    ensures
        r == (regex_builds(GIT_GEMS_REGEX@) && regex_matches(GIT_GEMS_REGEX@, gemfile@)),
{
    regex_is_match(GIT_GEMS_REGEX, gemfile)
}

/// The features that the ruby build steps need; git where the `Gemfile`
/// fetches gems with it.
pub open spec fn gem_features(install_ruby: bool, needs_git: bool) -> Seq<Package> {
    seq![Package::BuildEssential] + (if install_ruby {
        seq![Package::Ruby, Package::RubyDev]
    } else {
        seq![]
    }) + seq![Package::Https, Package::Bundler] + (if needs_git {
        seq![Package::Git]
    } else {
        seq![]
    })
}

/// The features that the ruby build steps need.
pub fn scan_features(settings: &GemConfig, needs_git: bool) -> (r: Vec<Package>)
    ensures
        r@ == gem_features(settings.install_ruby, needs_git),
{
    let mut res: Vec<Package> = Vec::new();
    res.push(Package::BuildEssential);
    if settings.install_ruby {
        res.push(Package::Ruby);
        res.push(Package::RubyDev);
    }
    res.push(Package::Https);
    res.push(Package::Bundler);
    if needs_git {
        res.push(Package::Git);
    }
    assert(res@ =~= gem_features(settings.install_ruby, needs_git));
    res
}

/// The arguments of `gem` that install `pkgs`, where `no_doc` are the
/// options that skip the documentation.
pub open spec fn gem_install_args_of(no_doc: Seq<Seq<char>>, pkgs: Seq<Seq<char>>) -> Seq<Seq<char>> {
    seq!["install"@, "--bindir"@, BIN_DIR@] + no_doc + pkgs
}

/// The arguments of `gem` that install `pkgs`.
pub fn gem_install_args(no_doc: &Vec<String>, pkgs: &Vec<String>) -> (r: Vec<String>)
    ensures
        string_views(r@) == gem_install_args_of(string_views(no_doc@), string_views(pkgs@)),
{
    let mut r = vec![String::from_str("install"), String::from_str("--bindir"), String::from_str(BIN_DIR)];
    assert(string_views(r@) =~= seq!["install"@, "--bindir"@, BIN_DIR@]);
    extend_strings(&mut r, no_doc);
    extend_strings(&mut r, pkgs);
    r
}

/// Whether `p` is a trust policy of bundler.
pub open spec fn valid_trust_policy(p: Seq<char>) -> bool {
    p == "LowSecurity"@ || p == "MediumSecurity"@ || p == "HighSecurity"@
}

/// The message for a trust policy that bundler does not know.
pub open spec fn trust_policy_error(p: Seq<char>) -> Seq<char> {
    "Value of 'GemBundle.trust_policy' must be 'LowSecurity', 'MediumSecurity' or 'HighSecurity', '"@
        + p + "' given"@
}

/// The arguments of `bundle` for a `GemBundle` step.
pub open spec fn bundle_args_of(b: GemBundle) -> Seq<Seq<char>> {
    seq!["install"@, "--system"@, "--binstubs"@, BIN_DIR@, "--gemfile"@, b.gemfile@] + (if b.without@.len()
        > 0 {
        seq!["--without"@] + string_views(b.without@)
    } else {
        seq![]
    }) + match b.trust_policy {
        Some(p) => seq!["--trust-policy"@, p@],
        None => seq![],
    }
}

impl GemBundle {
    /// The arguments of `bundle` that install the gems; an error where the
    /// trust policy is not one that bundler knows.
    pub fn bundle_args(&self) -> (r: Result<Vec<String>, String>)
        ensures
            r is Err <==> (self.trust_policy is Some && !valid_trust_policy(
                self.trust_policy->0@,
            )),
            r matches Err(e) ==> e@ == trust_policy_error(self.trust_policy->0@),
            r matches Ok(v) ==> string_views(v@) == bundle_args_of(*self),
    {
        let mut r = vec![
            String::from_str("install"),
            String::from_str("--system"),
            String::from_str("--binstubs"),
            String::from_str(BIN_DIR),
            String::from_str("--gemfile"),
            self.gemfile.clone(),
        ];
        let ghost a0 = string_views(r@);
        assert(a0 =~= seq!["install"@, "--system"@, "--binstubs"@, BIN_DIR@, "--gemfile"@, self.gemfile@]);
        if self.without.len() > 0 {
            r.push(String::from_str("--without"));
            extend_strings(&mut r, &self.without);
        }
        let ghost a1 = string_views(r@);
        assert(a1 =~= a0 + (if self.without@.len() > 0 {
            seq!["--without"@] + string_views(self.without@)
        } else {
            seq![]
        }));
        if let Some(p) = &self.trust_policy {
            let ps = p.as_str();
            if !(same_text(ps, "LowSecurity") || same_text(ps, "MediumSecurity") || same_text(
                ps,
                "HighSecurity",
            )) {
                let mut m = String::from_str(
                    "Value of 'GemBundle.trust_policy' must be 'LowSecurity', 'MediumSecurity' or 'HighSecurity', '",
                );
                m.append(ps);
                m.append("' given");
                return Err(m);
            }
            r.push(String::from_str("--trust-policy"));
            r.push(p.clone());
        }
        assert(string_views(r@) =~= bundle_args_of(*self));
        Ok(r)
    }
}

impl GemInstall {
    /// What versions the step: its packages.
    pub open spec fn hash_items(self) -> Seq<ItemView> {
        seq![
            texts_item("packages"@, self.0@),
        ]
    }

    /// Feeds what versions the step into `h`.
    pub fn hash(&self, h: &mut VersionHash)
        ensures
            final(h)@ == old(h)@ + self.hash_items(),
    {
        let ghost h0 = h@;
        h.field_texts("packages", &self.0);
        assert(h@ =~= h0 + self.hash_items());
    }
}

impl GemConfig {
    /// What versions the step: whether ruby is installed, the gem executable, and whether gem is updated.
    pub open spec fn hash_items(self) -> Seq<ItemView> {
        seq![
            flag_item("install_ruby"@, self.install_ruby),
            opt_text_item("gem_exe"@, self.gem_exe),
            flag_item("update_gem"@, self.update_gem),
        ]
    }

    /// Feeds what versions the step into `h`.
    pub fn hash(&self, h: &mut VersionHash)
        ensures
            final(h)@ == old(h)@ + self.hash_items(),
    {
        let ghost h0 = h@;
        h.field_flag("install_ruby", self.install_ruby);
        h.opt_field_text("gem_exe", &self.gem_exe);
        h.field_flag("update_gem", self.update_gem);
        assert(h@ =~= h0 + self.hash_items());
    }
}

/// What versions the lines `ls` of a `Gemfile`: each line, trimmed,
/// except blank lines and comments.
pub open spec fn gem_line_items(ls: Seq<Seq<char>>) -> Seq<ItemView>
    decreases ls.len(),
{
    if ls.len() == 0 {
        seq![]
    } else {
        let t = trim_spec(ls.last());
        gem_line_items(ls.drop_last()) + if t.len() == 0 || has_prefix(t, "#"@) {
            Seq::<ItemView>::empty()
        } else {
            seq![text_item("line"@, t)]
        }
    }
}

impl GemBundle {
    /// The `Gemfile` of the step.
    pub open spec fn gemfile_path(self) -> Seq<char> {
        join_path("/work"@, self.gemfile@)
    }

    /// Whether the `Gemfile` path is the root itself, which has no parent
    /// directory to hold the lock file.
    pub open spec fn at_root(self) -> bool {
        components(self.gemfile_path()) == seq!["/"@]
    }

    /// The lock file beside the `Gemfile`, where the path has a parent
    /// (its components but the last, written out from the root).
    pub open spec fn lock_path_spec(self) -> Seq<char> {
        let c = components(self.gemfile_path());
        join_path("/"@ + join_parts(c.subrange(1, c.len() - 1)), "Gemfile.lock"@)
    }

    /// The lock file beside the `Gemfile`; `None` where the `Gemfile` path
    /// has no parent.
    pub fn lock_path(&self) -> (r: Option<String>)
        ensures
            r is None <==> self.at_root(),
            r matches Some(p) ==> p@ == self.lock_path_spec(),
    {
        proof {
            reveal_strlit("/work");
        }
        let path = path_join("/work", self.gemfile.as_str());
        assert(path@[0] == '/');
        let mut c = path_components(path.as_str());
        let ghost cv = components(path@);
        assert(cv[0] == "/"@);
        if c.len() <= 1 {
            assert(cv =~= seq!["/"@]);
            return None;
        }
        c.remove(0);
        c.pop();
        assert(parts_view(c) =~= cv.subrange(1, cv.len() - 1));
        let parent = concat("/", join_components(&c).as_str());
        Some(path_join(parent.as_str(), "Gemfile.lock"))
    }

    /// What versions the step, where `lock_exists` tells whether the lock
    /// file is there and `text` is the `Gemfile`: the name of the
    /// `Gemfile`; where the lock file is there, the file at the `Gemfile`
    /// path; the lines of the `Gemfile` but blank lines and comments.
    pub open spec fn hash_items(self, lock_exists: bool, text: Seq<char>) -> Seq<ItemView> {
        seq![text_item("gemfile"@, self.gemfile@)] + (if lock_exists {
            seq![ItemView::File(self.gemfile_path())]
        } else {
            seq![]
        }) + gem_line_items(lines_of(text))
    }

    /// Feeds what versions the step into `h`. Fails where the `Gemfile`
    /// path has no parent.
    pub fn hash(&self, h: &mut VersionHash, lock_exists: bool, text: &str) -> (r: Result<(), String>)
        ensures
            r is Err <==> self.at_root(),
            r matches Err(e) ==> e@ == "Gemfile should be under /work"@,
            r is Ok ==> final(h)@ == old(h)@ + self.hash_items(lock_exists, text@),
    {
        let ghost h0 = h@;
        h.field_text("gemfile", self.gemfile.as_str());
        if self.lock_path().is_none() {
            return Err(String::from_str("Gemfile should be under /work"));
        }
        let path = path_join("/work", self.gemfile.as_str());
        if lock_exists {
            h.file(path.as_str());
        }
        let ghost h1 = h@;
        let lines = text_lines(text);
        let ghost ls = lines_of(text@);
        let mut i: usize = 0;
        assert(ls.take(0) =~= seq![]);
        assert(h1 + gem_line_items(seq![]) =~= h1);
        while i < lines.len()
            invariant
                i <= lines@.len(),
                string_views(lines@) == ls,
                h@ == h1 + gem_line_items(ls.take(i as int)),
            decreases lines.len() - i,
        {
            let t = trim(lines[i].as_str());
            proof {
                reveal_strlit("");
                if t@.len() == 0 {
                    assert(t@ =~= ""@);
                }
            }
            if !same_text(t.as_str(), "") && !str_starts_with(t.as_str(), "#") {
                h.field_text("line", t.as_str());
            }
            proof {
                assert(ls.take(i + 1).drop_last() =~= ls.take(i as int));
                assert(ls.take(i + 1).last() == lines@[i as int]@);
            }
            assert(h@ =~= h1 + gem_line_items(ls.take(i + 1)));
            i = i + 1;
        }
        assert(ls.take(i as int) =~= ls);
        assert(h@ =~= h0 + self.hash_items(lock_exists, text@));
        Ok(())
    }
}

/// The pattern of the `major.minor` version at the start of what
/// `gem --version` prints.
pub const GEM_VERSION_REGEX: &'static str = r#"^(\d+?\.\d+?)\."#;

/// The `major.minor` version of gem in `output`, what `gem --version`
/// printed; an error where it has none.
pub fn gem_version_text(output: &str) -> (r: Result<String, String>)
    ensures
        regex_builds(GEM_VERSION_REGEX@) ==> match regex_group(GEM_VERSION_REGEX@, output@, 1) {
            Some(v) => r matches Ok(t) && t@ == v,
            None => r matches Err(e) && e@ == "Gem version was not found"@,
        },
        !regex_builds(GEM_VERSION_REGEX@) ==> r is Err,
{
    match check_regex(GEM_VERSION_REGEX) {
        Err(e) => Err(regex_error_text(&e)),
        Ok(()) => match regex_capture(GEM_VERSION_REGEX, output, 1) {
            Some(v) => Ok(v),
            None => Err(String::from_str("Gem version was not found")),
        },
    }
}

/// The options that keep gem from installing documentation: the newer one
/// where gem is updated by the build or is older than 2.0 (`old_gem`, which
/// is asked only where gem is not updated), the older pair otherwise.
pub fn no_doc_args(update_gem: bool, old_gem: bool) -> (r: Vec<String>)
    ensures
        string_views(r@) == if !update_gem && old_gem {
            seq!["--no-rdoc"@, "--no-ri"@]
        } else {
            seq!["--no-document"@]
        },
{
    let r = if !update_gem && old_gem {
        vec![String::from_str("--no-rdoc"), String::from_str("--no-ri")]
    } else {
        vec![String::from_str("--no-document")]
    };
    assert(string_views(r@) =~= if !update_gem && old_gem {
        seq!["--no-rdoc"@, "--no-ri"@]
    } else {
        seq!["--no-document"@]
    });
    r
}

/// The cache of downloaded gems, below the directory that
/// `gem env gemdir` printed as `output`.
pub fn gem_cache_dir(output: &str) -> (r: String)
    ensures
        r@ == join_path(trim_spec(output@), "cache"@),
{
    let dir = trim(output);
    path_join(dir.as_str(), "cache")
}

} // verus!

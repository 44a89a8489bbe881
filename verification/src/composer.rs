use vstd::prelude::*;
use crate::versioning::{VersionHash, ItemView, ValueView, flag_item, texts_item, opt_text_item};
use crate::assoc::TextMap;
use crate::paths::{join_path, path_join};
use crate::packages::Package;
use crate::text::{string_views, opt_text, same_text, concat, extend_strings, has_prefix, str_starts_with};
use crate::matchers::{check_regex, regex_capture, regex_error_text, regex_builds, regex_group};
use crate::tar::{components, path_components};

verus! {

/// The PHP runtime that vagga uses where the settings name none.
pub const DEFAULT_RUNTIME: &'static str = "/usr/bin/php";

/// The include path of PHP where the settings name none.
pub const DEFAULT_INCLUDE_PATH: &'static str = ".:/usr/local/lib/composer";

/// Where composer keeps its global packages.
pub const COMPOSER_VENDOR_DIR: &'static str = "/usr/local/lib/composer/vendor";

/// The settings of the composer build steps.
#[derive(Debug, Clone)]
pub struct ComposerConfig {
    pub install_runtime: bool,
    pub install_dev: bool,
    pub runtime_exe: Option<String>,
    pub include_path: Option<String>,
    pub keep_composer: bool,
    pub vendor_dir: Option<String>,
}

/// The build step that installs composer packages globally.
#[derive(Debug)]
pub struct ComposerInstall(pub Vec<String>);

/// The build step that installs the dependencies of a `composer.json`.
#[derive(Debug)]
pub struct ComposerDependencies {
    pub working_dir: Option<String>,
    pub dev: bool,
    pub prefer: Option<String>,
    pub ignore_platform_reqs: bool,
    pub no_autoloader: bool,
    pub no_scripts: bool,
    pub no_plugins: bool,
    pub optimize_autoloader: bool,
    pub classmap_authoritative: bool,
}

impl ComposerConfig {
    /// Whether these are the settings that apply where none are given.
    pub open spec fn is_default(&self) -> bool {
        &&& self.install_runtime
        &&& !self.install_dev
        &&& self.runtime_exe is None
        &&& self.include_path is None
        &&& !self.keep_composer
        &&& self.vendor_dir is None
    }
}

impl Default for ComposerConfig {
    fn default() -> (r: ComposerConfig)
        ensures
            r.is_default(),
    {
        ComposerConfig {
            install_runtime: true,
            install_dev: false,
            runtime_exe: None,
            include_path: None,
            keep_composer: false,
            vendor_dir: None,
        }
    }
}

/// The features that the composer build steps need: git is assumed always.
pub open spec fn composer_features(install_runtime: bool, install_dev: bool) -> Seq<Package> {
    seq![Package::Https, Package::Composer] + (if install_runtime {
        seq![Package::Php] + if install_dev {
            seq![Package::BuildEssential, Package::PhpDev]
        } else {
            seq![]
        }
    } else {
        seq![]
    }) + seq![Package::Git]
}

/// The features that the composer build steps need.
pub fn scan_features(settings: &ComposerConfig) -> (r: Vec<Package>)
    ensures
        r@ == composer_features(settings.install_runtime, settings.install_dev),
{
    let mut res: Vec<Package> = Vec::new();
    res.push(Package::Https);
    res.push(Package::Composer);
    if settings.install_runtime {
        res.push(Package::Php);
        if settings.install_dev {
            res.push(Package::BuildEssential);
            res.push(Package::PhpDev);
        }
    }
    res.push(Package::Git);
    assert(res@ =~= composer_features(settings.install_runtime, settings.install_dev));
    res
}

/// The command that runs composer: the runtime, then composer, without
/// interaction.
pub open spec fn composer_cmd_of(runtime: Option<Seq<char>>) -> Seq<Seq<char>> {
    seq![
        match runtime {
            Some(r) => r,
            None => DEFAULT_RUNTIME@,
        },
        "/usr/local/bin/composer"@,
        "--no-interaction"@,
    ]
}

/// The command that runs composer.
pub fn composer_cmd(settings: &ComposerConfig) -> (r: Vec<String>)
    ensures
        string_views(r@) == composer_cmd_of(opt_text(settings.runtime_exe)),
{
    let runtime = match &settings.runtime_exe {
        Some(r) => r.clone(),
        None => String::from_str(DEFAULT_RUNTIME),
    };
    let r = vec![runtime, String::from_str("/usr/local/bin/composer"), String::from_str("--no-interaction")];
    assert(string_views(r@) =~= composer_cmd_of(opt_text(settings.runtime_exe)));
    r
}

/// The command that installs the packages `pkgs` globally.
pub fn composer_install(settings: &ComposerConfig, pkgs: &Vec<String>) -> (r: Vec<String>)
    ensures
        string_views(r@) == composer_cmd_of(opt_text(settings.runtime_exe)) + seq![
            "global"@,
            "require"@,
            "--prefer-dist"@,
            "--update-no-dev"@,
        ] + string_views(pkgs@),
{
    let mut r = composer_cmd(settings);
    let ghost a0 = string_views(r@);
    r.push(String::from_str("global"));
    r.push(String::from_str("require"));
    r.push(String::from_str("--prefer-dist"));
    r.push(String::from_str("--update-no-dev"));
    assert(string_views(r@) =~= a0 + seq!["global"@, "require"@, "--prefer-dist"@, "--update-no-dev"@]);
    extend_strings(&mut r, pkgs);
    r
}

/// The message for a `prefer` that composer does not know.
pub open spec fn prefer_error(p: Seq<char>) -> Seq<char> {
    "Value of 'ComposerDependencies.prefer' must be either 'source' or 'dist', '"@ + p + "' given"@
}

/// `[s]` where `c` holds, else nothing.
pub open spec fn flag(c: bool, s: Seq<char>) -> Seq<Seq<char>> {
    if c {
        seq![s]
    } else {
        seq![]
    }
}

/// Appends `s` to `v` where `c` holds.
fn push_flag(v: &mut Vec<String>, c: bool, s: &str)
    ensures
        string_views(final(v)@) == string_views(old(v)@) + flag(c, s@),
{
    let ghost v0 = string_views(v@);
    if c {
        v.push(String::from_str(s));
        assert(string_views(v@) =~= v0 + seq![s@]);
    } else {
        assert(string_views(v@) =~= v0 + Seq::<Seq<char>>::empty());
    }
}

/// The options of `composer install` for a `ComposerDependencies` step,
/// before the preferred kind of package.
pub open spec fn dependencies_flags_of(info: ComposerDependencies) -> Seq<Seq<char>> {
    seq!["install"@] + (match info.working_dir {
        Some(d) => seq!["--working-dir="@ + d@],
        None => seq![],
    }) + flag(!info.dev, "--no-dev"@) + flag(info.ignore_platform_reqs, "--ignore-platform-reqs"@)
        + flag(info.no_autoloader, "--no_autoloader"@) + flag(info.no_scripts, "--no-scripts"@)
        + flag(info.no_plugins, "--no-plugins"@) + flag(
        info.optimize_autoloader,
        "--optimize-autoloader"@,
    )
}

/// The options of `composer install` for a `ComposerDependencies` step.
pub open spec fn dependencies_args_of(info: ComposerDependencies) -> Seq<Seq<char>> {
    dependencies_flags_of(info) + match info.prefer {
        Some(p) => if p@ == "dist"@ {
            seq!["--prefer-dist"@]
        } else {
            seq!["--prefer-source"@]
        },
        None => seq![],
    }
}

/// The options of `composer install` before the preferred kind of package.
fn dependencies_flags(info: &ComposerDependencies) -> (r: Vec<String>)
    ensures
        string_views(r@) == dependencies_flags_of(*info),
{
    let mut opts: Vec<String> = Vec::new();
    opts.push(String::from_str("install"));
    if let Some(d) = &info.working_dir {
        opts.push(concat("--working-dir=", d.as_str()));
    }
    let ghost o0 = string_views(opts@);
    assert(o0 =~= seq!["install"@] + match info.working_dir {
        Some(d) => seq!["--working-dir="@ + d@],
        None => seq![],
    });
    push_flag(&mut opts, !info.dev, "--no-dev");
    push_flag(&mut opts, info.ignore_platform_reqs, "--ignore-platform-reqs");
    push_flag(&mut opts, info.no_autoloader, "--no_autoloader");
    push_flag(&mut opts, info.no_scripts, "--no-scripts");
    push_flag(&mut opts, info.no_plugins, "--no-plugins");
    push_flag(&mut opts, info.optimize_autoloader, "--optimize-autoloader");
    opts
}

/// The command that installs the dependencies of a `ComposerDependencies`
/// step; an error where `prefer` is neither `source` nor `dist`.
pub fn composer_dependencies(settings: &ComposerConfig, info: &ComposerDependencies) -> (r: Result<
    Vec<String>,
    String,
>)
    ensures
        r is Err <==> (info.prefer is Some && info.prefer->0@ != "dist"@ && info.prefer->0@
            != "source"@),
        r matches Err(e) ==> e@ == prefer_error(info.prefer->0@),
        r matches Ok(v) ==> string_views(v@) == composer_cmd_of(opt_text(settings.runtime_exe))
            + dependencies_args_of(*info),
{
    let mut r = composer_cmd(settings);
    let mut opts = dependencies_flags(info);
    let ghost o1 = string_views(opts@);
    if let Some(p) = &info.prefer {
        if same_text(p.as_str(), "dist") {
            opts.push(String::from_str("--prefer-dist"));
        } else if same_text(p.as_str(), "source") {
            opts.push(String::from_str("--prefer-source"));
        } else {
            let mut m = String::from_str(
                "Value of 'ComposerDependencies.prefer' must be either 'source' or 'dist', '",
            );
            m.append(p.as_str());
            m.append("' given");
            return Err(m);
        }
    }
    assert(string_views(opts@) =~= dependencies_args_of(*info));
    extend_strings(&mut r, &opts);
    Ok(r)
}

/// The content of the `vagga.ini` file that sets PHP's include path.
pub fn vagga_ini(settings: &ComposerConfig) -> (r: String)
    ensures
        r@ == "include_path="@ + match settings.include_path {
            Some(p) => p@,
            None => DEFAULT_INCLUDE_PATH@,
        },
{
    match &settings.include_path {
        Some(p) => concat("include_path=", p.as_str()),
        None => concat("include_path=", DEFAULT_INCLUDE_PATH),
    }
}

/// The pattern of the line of `php --ini` that names the directory of
/// additional configuration files.
pub const PHP_CONF_D_REGEX: &'static str = r#"(?m).*?(/etc/php\d/.*?conf.d)$"#;

/// The directory of additional PHP configuration files that the output
/// `output` of `php --ini` names: the first line ending with such a
/// directory below `/etc/php<digit>`.
pub fn php_conf_d(output: &str) -> (r: Result<String, String>)
    ensures
        regex_builds(PHP_CONF_D_REGEX@) ==> match regex_group(PHP_CONF_D_REGEX@, output@, 1) {
            Some(d) => r matches Ok(x) && x@ == d,
            None => r matches Err(e) && e@ == "PHP configuration directory was not found"@,
        },
        !regex_builds(PHP_CONF_D_REGEX@) ==> r is Err,
{
    match check_regex(PHP_CONF_D_REGEX) {
        Err(e) => Err(regex_error_text(&e)),
        Ok(()) => match regex_capture(PHP_CONF_D_REGEX, output, 1) {
            Some(d) => Ok(d),
            None => Err(String::from_str("PHP configuration directory was not found")),
        },
    }
}

/// Whether the directory `name` of `/etc` holds PHP configuration.
pub fn is_php_config_dir(name: &str) -> (r: bool)
    ensures
        r == has_prefix(name@, "php"@),
{
    str_starts_with(name, "php")
}

/// Whether the path `path` is a directory of additional configuration
/// files: its last component is `conf.d`.
pub fn is_conf_d(path: &str) -> (r: bool)
    ensures
        r == (components(path@).len() > 0 && components(path@).last() == "conf.d"@),
{
    let c = path_components(path);
    c.len() > 0 && same_text(c[c.len() - 1].as_str(), "conf.d")
}

impl ComposerConfig {
    /// What versions the step: the runtime executable, the include path, the flags and the vendor directory.
    pub open spec fn hash_items(self) -> Seq<ItemView> {
        seq![
            opt_text_item("runtime_exe"@, self.runtime_exe),
            opt_text_item("include_path"@, self.include_path),
            flag_item("install_runtime"@, self.install_runtime),
            flag_item("install_dev"@, self.install_dev),
            flag_item("keep_composer"@, self.keep_composer),
            opt_text_item("vendor_dir"@, self.vendor_dir),
        ]
    }

    /// Feeds what versions the step into `h`.
    pub fn hash(&self, h: &mut VersionHash)
        ensures
            final(h)@ == old(h)@ + self.hash_items(),
    {
        let ghost h0 = h@;
        h.opt_field_text("runtime_exe", &self.runtime_exe);
        h.opt_field_text("include_path", &self.include_path);
        h.field_flag("install_runtime", self.install_runtime);
        h.field_flag("install_dev", self.install_dev);
        h.field_flag("keep_composer", self.keep_composer);
        h.opt_field_text("vendor_dir", &self.vendor_dir);
        assert(h@ =~= h0 + self.hash_items());
    }
}

impl ComposerInstall {
    /// What versions the step: its packages.
    pub open spec fn hash_items(self) -> Seq<ItemView> {
        seq![
            texts_item("packages"@, self.0@),
        ]
    }

    /// Feeds what versions the step into `h`.
    pub fn hash(&self, h: &mut VersionHash)
        ensures
            final(h)@ == old(h)@ + self.hash_items(),
    {
        let ghost h0 = h@;
        h.field_texts("packages", &self.0);
        assert(h@ =~= h0 + self.hash_items());
    }
}

/// The `packages` of a `composer.lock`: missing, not an array, or the
/// packages, each a JSON object whose values are kept as JSON text.
#[derive(Debug)]
pub enum LockPackages {
    Missing,
    NotArray,
    Packages(Vec<TextMap>),
}

/// The keys of a locked package that version the dependencies, before its
/// requirements.
pub open spec fn lock_keys() -> Seq<Seq<char>> {
    seq!["name"@, "version"@, "source"@, "dist"@, "extra"@, "autoload"@]
}

/// The JSON text of the value of `key` in the object `m`; `null` where it
/// has none.
pub open spec fn json_value(m: Map<Seq<char>, Seq<char>>, key: Seq<char>) -> Seq<char> {
    if m.dom().contains(key) {
        m[key]
    } else {
        "null"@
    }
}

/// The field `name` with the value of `key` in the object `m`.
pub open spec fn json_item(m: Map<Seq<char>, Seq<char>>, name: Seq<char>, key: Seq<char>) -> ItemView {
    ItemView::Field(name, ValueView::Json(json_value(m, key)))
}

/// Feeds the field `name` with the value of `key` in the object `m`.
fn hash_json(h: &mut VersionHash, m: &TextMap, name: &str, key: &str)
    ensures
        final(h)@ == old(h)@.push(json_item(m@, name@, key@)),
{
    match m.get(key) {
        Some(v) => h.field_json(name, v.as_str()),
        None => h.field_json(name, "null"),
    }
}

/// What versions a locked package `m`: its name, version, source,
/// distribution, extra data and autoload settings, then its requirements.
pub open spec fn package_items(m: Map<Seq<char>, Seq<char>>) -> Seq<ItemView> {
    lock_keys().map_values(|k: Seq<char>| json_item(m, k, k)) + seq![
        json_item(m, "require"@, "require"@),
        json_item(m, "require-dev"@, "require-dev"@),
    ]
}

/// What versions the locked packages `ps`, each in turn.
pub open spec fn packages_items(ps: Seq<TextMap>) -> Seq<ItemView>
    decreases ps.len(),
{
    if ps.len() == 0 {
        seq![]
    } else {
        packages_items(ps.drop_last()) + package_items(ps.last()@)
    }
}

/// Feeds what versions the locked package `m` into `h`.
fn hash_package(h: &mut VersionHash, m: &TextMap)
    ensures
        final(h)@ == old(h)@ + package_items(m@),
{
    let ghost h0 = h@;
    let keys: Vec<&'static str> = vec!["name", "version", "source", "dist", "extra", "autoload"];
    let ghost ks = crate::packages::texts(keys@);
    let ghost f = |k: Seq<char>| json_item(m@, k, k);
    assert(ks =~= lock_keys());
    let mut i: usize = 0;
    assert(h@ =~= h0 + ks.take(0).map_values(f));
    while i < keys.len()
        invariant
            i <= keys@.len(),
            ks == crate::packages::texts(keys@),
            f == (|k: Seq<char>| json_item(m@, k, k)),
            h@ == h0 + ks.take(i as int).map_values(f),
        decreases keys.len() - i,
    {
        hash_json(h, m, keys[i], keys[i]);
        assert(ks[i as int] == keys@[i as int]@);
        assert(ks.take(i + 1).map_values(f) =~= ks.take(i as int).map_values(f).push(f(ks[i as int])));
        i = i + 1;
    }
    assert(ks.take(i as int) =~= ks);
    hash_json(h, m, "require", "require");
    hash_json(h, m, "require-dev", "require-dev");
    assert(h@ =~= h0 + package_items(m@));
}

impl ComposerDependencies {
    /// The directory of the project.
    pub open spec fn base_dir(self) -> Seq<char> {
        match self.working_dir {
            Some(w) => join_path("/work"@, w@),
            None => "/work"@,
        }
    }

    /// The paths of `composer.lock` and `composer.json`.
    pub fn files(&self) -> (r: (String, String))
        ensures
            r.0@ == join_path(self.base_dir(), "composer.lock"@),
            r.1@ == join_path(self.base_dir(), "composer.json"@),
    {
        let base = match &self.working_dir {
            Some(w) => path_join("/work", w.as_str()),
            None => String::from_str("/work"),
        };
        (path_join(base.as_str(), "composer.lock"), path_join(base.as_str(), "composer.json"))
    }

    /// What versions the project whose `composer.json` is the object `m`:
    /// its requirements, conflicts, replacements, provisions, autoload
    /// settings, repositories and stability settings, and its development
    /// autoload settings under the name `require-dev`.
    pub open spec fn json_items(m: Map<Seq<char>, Seq<char>>) -> Seq<ItemView> {
        seq![
            json_item(m, "require"@, "require"@),
            json_item(m, "conflict"@, "conflict"@),
            json_item(m, "replace"@, "replace"@),
            json_item(m, "provide"@, "provide"@),
            json_item(m, "autoload"@, "autoload"@),
            json_item(m, "repositories"@, "repositories"@),
            json_item(m, "minimum-stability"@, "minimum-stability"@),
            json_item(m, "prefer-stable"@, "prefer-stable"@),
            json_item(m, "require-dev"@, "autoload-dev"@),
        ]
    }

    /// Feeds what versions the step into `h`, where `lock` holds the
    /// packages of `composer.lock` where there is one and `data` is the
    /// `composer.json`: the locked packages, then the project. Fails where
    /// the lock file has no array of packages.
    pub fn hash(&self, h: &mut VersionHash, lock: &Option<LockPackages>, data: &TextMap) -> (r: Result<(), String>)
        ensures
            r is Err <==> (lock matches Some(l) && !(l is Packages)),
            (lock matches Some(LockPackages::Missing)) ==> (r matches Err(e) && e@
                == "Missing 'packages' property from composer.lock"@),
            (lock matches Some(LockPackages::NotArray)) ==> (r matches Err(e) && e@
                == "'packages' property is not an array"@),
            r is Ok ==> final(h)@ == old(h)@ + (match lock {
                Some(LockPackages::Packages(ps)) => packages_items(ps@),
                _ => Seq::<ItemView>::empty(),
            }) + Self::json_items(data@),
    {
        let ghost h0 = h@;
        match lock {
            Some(LockPackages::Missing) => {
                return Err(String::from_str("Missing 'packages' property from composer.lock"));
            },
            Some(LockPackages::NotArray) => {
                return Err(String::from_str("'packages' property is not an array"));
            },
            Some(LockPackages::Packages(ps)) => {
                let mut i: usize = 0;
                assert(ps@.take(0) =~= seq![]);
                assert(h@ =~= h0 + packages_items(seq![]));
                while i < ps.len()
                    invariant
                        i <= ps@.len(),
                        h@ == h0 + packages_items(ps@.take(i as int)),
                    decreases ps.len() - i,
                {
                    hash_package(h, &ps[i]);
                    assert(ps@.take(i + 1).drop_last() =~= ps@.take(i as int));
                    assert(h@ =~= h0 + packages_items(ps@.take(i + 1)));
                    i = i + 1;
                }
                assert(ps@.take(i as int) =~= ps@);
            },
            None => {
                assert(h@ =~= h0 + Seq::<ItemView>::empty());
            },
        }
        let ghost h1 = h@;
        hash_json(h, data, "require", "require");
        hash_json(h, data, "conflict", "conflict");
        hash_json(h, data, "replace", "replace");
        hash_json(h, data, "provide", "provide");
        hash_json(h, data, "autoload", "autoload");
        hash_json(h, data, "repositories", "repositories");
        hash_json(h, data, "minimum-stability", "minimum-stability");
        hash_json(h, data, "prefer-stable", "prefer-stable");
        hash_json(h, data, "require-dev", "autoload-dev");
        assert(h@ =~= h1 + Self::json_items(data@));
        Ok(())
    }
}

/// Where the installer of composer puts composer itself.
pub const COMPOSER_SELF_CACHE: &'static str = "/tmp/composer-self-cache";

/// The arguments that run the installer of composer with the PHP runtime
/// `runtime`.
pub fn composer_setup_args(runtime: &str) -> (r: Vec<String>)
    ensures
        string_views(r@) == seq![
            runtime@,
            "/tmp/composer-setup.php"@,
            "--install-dir="@ + COMPOSER_SELF_CACHE@,
        ],
{
    let r = vec![
        String::from_str(runtime),
        String::from_str("/tmp/composer-setup.php"),
        concat("--install-dir=", COMPOSER_SELF_CACHE),
    ];
    assert(string_views(r@) =~= seq![
        runtime@,
        "/tmp/composer-setup.php"@,
        "--install-dir="@ + COMPOSER_SELF_CACHE@,
    ]);
    r
}

/// The arguments that update composer with the PHP runtime `runtime`.
pub fn composer_update_args(runtime: &str) -> (r: Vec<String>)
    ensures
        string_views(r@) == seq![
            runtime@,
            COMPOSER_SELF_CACHE@ + "/composer.phar"@,
            "self-update"@,
            "--clean-backups"@,
        ],
{
    let r = vec![
        String::from_str(runtime),
        concat(COMPOSER_SELF_CACHE, "/composer.phar"),
        String::from_str("self-update"),
        String::from_str("--clean-backups"),
    ];
    assert(string_views(r@) =~= seq![
        runtime@,
        COMPOSER_SELF_CACHE@ + "/composer.phar"@,
        "self-update"@,
        "--clean-backups"@,
    ]);
    r
}

} // verus!

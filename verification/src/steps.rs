use vstd::prelude::*;
use crate::assoc::{text_entries, text_seq};
use crate::context::{Context, build_root};
use crate::assoc::insert_all;
use crate::paths::{join_path, path_join, rel_path, strip_root};
use crate::text::{
    concat, concat3, debug_quote, debug_text, decimal, decimal_of, path_debug, path_debug_text, split_char, split_on, string_views,
};
use crate::packages::Package;
use crate::versioning::{VersionHash, ItemView, ValueView, text_item, flag_item, texts_item, pair_items, hash_pairs};

verus! {

/// What a build step fails with, where the failure is one of the step's own
/// decisions.
#[derive(Debug)]
pub enum StepError {
    /// A step sets up a distribution where another one is set up already.
    DistroOverlap(&'static str, &'static str),
    /// A step of one distribution runs where another one is set up.
    WrongDistro(&'static str, &'static str),
    /// A step needs a distribution and none is set up.
    NoDistro,
    /// A command is in none of the directories of the search path.
    CommandNotFound(String, String),
    /// The distribution does not provide the features.
    UnsupportedFeatures(Vec<Package>),
    /// A fixed message.
    Message(&'static str),
    /// A message made where the error came.
    Compat(String),
}

/// The name of the feature `p`, as `Debug` writes it.
pub open spec fn package_name(p: Package) -> Seq<char> {
    match p {
        Package::BuildEssential => "BuildEssential"@,
        Package::Https => "Https"@,
        Package::Python2 => "Python2"@,
        Package::Python2Dev => "Python2Dev"@,
        Package::Python3 => "Python3"@,
        Package::Python3Dev => "Python3Dev"@,
        Package::PipPy2 => "PipPy2"@,
        Package::PipPy3 => "PipPy3"@,
        Package::Ruby => "Ruby"@,
        Package::RubyDev => "RubyDev"@,
        Package::Bundler => "Bundler"@,
        Package::NodeJs => "NodeJs"@,
        Package::NodeJsDev => "NodeJsDev"@,
        Package::Npm => "Npm"@,
        Package::Yarn => "Yarn"@,
        Package::Php => "Php"@,
        Package::PhpDev => "PhpDev"@,
        Package::Composer => "Composer"@,
        Package::Git => "Git"@,
        Package::Mercurial => "Mercurial"@,
    }
}

/// The name of the feature `p`.
pub fn package_label(p: Package) -> (r: &'static str)
    ensures
        r@ == package_name(p),
{
    match p {
        Package::BuildEssential => "BuildEssential",
        Package::Https => "Https",
        Package::Python2 => "Python2",
        Package::Python2Dev => "Python2Dev",
        Package::Python3 => "Python3",
        Package::Python3Dev => "Python3Dev",
        Package::PipPy2 => "PipPy2",
        Package::PipPy3 => "PipPy3",
        Package::Ruby => "Ruby",
        Package::RubyDev => "RubyDev",
        Package::Bundler => "Bundler",
        Package::NodeJs => "NodeJs",
        Package::NodeJsDev => "NodeJsDev",
        Package::Npm => "Npm",
        Package::Yarn => "Yarn",
        Package::Php => "Php",
        Package::PhpDev => "PhpDev",
        Package::Composer => "Composer",
        Package::Git => "Git",
        Package::Mercurial => "Mercurial",
    }
}

/// The names of `ps` separated by `, `.
pub open spec fn names_joined(ps: Seq<Package>) -> Seq<char>
    decreases ps.len(),
{
    if ps.len() == 0 {
        seq![]
    } else if ps.len() == 1 {
        package_name(ps[0])
    } else {
        names_joined(ps.drop_last()) + ", "@ + package_name(ps.last())
    }
}

/// The list `ps` as `Debug` writes a list of features.
pub open spec fn package_list(ps: Seq<Package>) -> Seq<char> {
    "["@ + names_joined(ps) + "]"@
}

/// The text of a list of features.
pub fn package_list_text(ps: &Vec<Package>) -> (r: String)
    ensures
        r@ == package_list(ps@),
{
    let mut s = String::new();
    let mut i: usize = 0;
    assert(ps@.take(0) =~= seq![]);
    while i < ps.len()
        invariant
            i <= ps@.len(),
            s@ == names_joined(ps@.take(i as int)),
        decreases ps.len() - i,
    {
        assert(ps@.take(i + 1).drop_last() =~= ps@.take(i as int));
        if i > 0 {
            s.append(", ");
        }
        s.append(package_label(ps[i]));
        proof {
            if i == 0 {
                assert(ps@.take(1) =~= seq![ps@[0]]);
            }
        }
        i = i + 1;
    }
    assert(ps@.take(i as int) =~= ps@);
    concat3("[", s.as_str(), "]")
}

/// The message of an error, as it is shown.
pub open spec fn step_message(e: StepError) -> Seq<char> {
    match e {
        StepError::DistroOverlap(new, is) => "step initializes distribution "@ + debug_text(new@)
            + " but the "@ + debug_text(is@) + " is already initialized"@,
        StepError::WrongDistro(should, is) => "step must be used on "@ + debug_text(should@)
            + " but used on "@ + debug_text(is@) + " distribution instead"@,
        StepError::NoDistro => "this step requires some linux distribution to be active"@,
        StepError::CommandNotFound(name, path) => "command "@ + path_debug_text(name@)
            + " not found in one of "@ + debug_text(path@),
        StepError::UnsupportedFeatures(fs) => "current linux distribution does not support features: "@
            + package_list(fs@),
        StepError::Message(m) => m@,
        StepError::Compat(m) => m@,
    }
}

impl StepError {
    /// The message of the error.
    pub fn message(&self) -> (r: String)
        ensures
            r@ == step_message(*self),
    {
        match self {
            StepError::DistroOverlap(new, is) => {
                let a = concat("step initializes distribution ", debug_quote(new).as_str());
                let b = concat3(a.as_str(), " but the ", debug_quote(is).as_str());
                concat(b.as_str(), " is already initialized")
            },
            StepError::WrongDistro(should, is) => {
                let a = concat("step must be used on ", debug_quote(should).as_str());
                let b = concat3(a.as_str(), " but used on ", debug_quote(is).as_str());
                concat(b.as_str(), " distribution instead")
            },
            StepError::NoDistro => String::from_str(
                "this step requires some linux distribution to be active",
            ),
            StepError::CommandNotFound(name, path) => {
                let a = concat("command ", path_debug(name.as_str()).as_str());
                concat3(a.as_str(), " not found in one of ", debug_quote(path.as_str()).as_str())
            },
            StepError::UnsupportedFeatures(fs) => concat(
                "current linux distribution does not support features: ",
                package_list_text(fs).as_str(),
            ),
            StepError::Message(m) => String::from_str(m),
            StepError::Compat(m) => m.clone(),
        }
    }
}

/// The build step that runs a shell script.
#[derive(Debug)]
pub struct Sh(pub String);

impl Sh {
    /// The command line that runs the script.
    pub fn command(&self) -> (r: Vec<String>)
        ensures
            text_seq(r@) == seq!["/bin/sh"@, "-exc"@, self.0@],
    {
        let r = vec![String::from_str("/bin/sh"), String::from_str("-exc"), self.0.clone()];
        assert(text_seq(r@) =~= seq!["/bin/sh"@, "-exc"@, self.0@]);
        r
    }
}

/// The build step that runs a command line.
#[derive(Debug)]
pub struct Cmd(pub Vec<String>);

impl Cmd {
    /// The command line to run.
    pub fn command(&self) -> (r: Vec<String>)
        ensures
            text_seq(r@) == text_seq(self.0@),
    {
        let mut r: Vec<String> = Vec::new();
        let mut i: usize = 0;
        while i < self.0.len()
            invariant
                i <= self.0@.len(),
                text_seq(r@) == text_seq(self.0@).take(i as int),
            decreases self.0.len() - i,
        {
            let x = self.0[i].clone();
            assert(x@ == self.0@[i as int]@);
            push_string(&mut r, x);
            assert(text_seq(r@) =~= text_seq(self.0@).take(i + 1));
            i = i + 1;
        }
        assert(text_seq(self.0@).take(i as int) =~= text_seq(self.0@));
        r
    }
}

/// The build step that sets variables of the environment of the commands
/// that follow it, in the order of their names.
#[derive(Debug)]
pub struct Env(pub Vec<(String, String)>);

impl Env {
    /// Sets the variables in the environment of `ctx`.
    pub fn apply(&self, ctx: &mut Context)
        ensures
            final(ctx).environ@ == insert_all(old(ctx).environ@, text_entries(self.0@)),
            final(ctx).container_name == old(ctx).container_name,
            final(ctx).ensure_dirs == old(ctx).ensure_dirs,
            final(ctx).empty_dirs == old(ctx).empty_dirs,
            final(ctx).remove_paths == old(ctx).remove_paths,
            final(ctx).mounted == old(ctx).mounted,
            final(ctx).cache_dirs == old(ctx).cache_dirs,
            final(ctx).packages == old(ctx).packages,
            final(ctx).featured_packages == old(ctx).featured_packages,
    {
        ctx.environ.extend(&self.0);
    }
}

/// The build step that runs a script as another user, through vagga's own
/// runner.
#[derive(Debug)]
pub struct RunAs {
    pub user_id: u32,
    pub group_id: u32,
    pub supplementary_gids: Vec<u32>,
    pub external_user_id: Option<u32>,
    pub work_dir: String,
    pub isolate_network: bool,
    pub script: String,
}

/// The decimal texts of `v`.
pub open spec fn decimals(v: Seq<u32>) -> Seq<Seq<char>> {
    v.map_values(|g: u32| decimal_of(g as nat))
}

/// The arguments that start vagga's runner for the step `r`.
pub open spec fn runner_args(r: RunAs) -> Seq<Seq<char>> {
    seq!["__runner__"@, "run_as"@, "--work-dir"@, join_path("/work"@, r.work_dir@)] + (match r.external_user_id {
        Some(e) => seq!["--external-user-id"@, decimal_of(e as nat)],
        None => seq![],
    }) + seq!["--user-id"@, decimal_of(r.user_id as nat), "--group-id"@, decimal_of(r.group_id as nat)]
        + (if r.supplementary_gids@.len() > 0 {
        seq!["--supplementary-gids"@] + decimals(r.supplementary_gids@)
    } else {
        seq![]
    }) + seq!["--"@, r.script@]
}

/// How the step `RunAs` runs: the arguments of the runner, and whether it
/// joins the isolated network namespace of the build, creating it first.
#[derive(Debug)]
pub struct RunAsPlan {
    pub args: Vec<String>,
    pub use_network: bool,
    pub create_network: bool,
}

fn push_text(v: &mut Vec<String>, s: &str)
    ensures
        text_seq(final(v)@) == text_seq(old(v)@).push(s@),
{
    v.push(String::from_str(s));
    assert(text_seq(v@) =~= text_seq(old(v)@).push(s@));
}

fn push_string(v: &mut Vec<String>, s: String)
    ensures
        text_seq(final(v)@) == text_seq(old(v)@).push(s@),
{
    let ghost sv = s@;
    v.push(s);
    assert(text_seq(v@) =~= text_seq(old(v)@).push(sv));
}

impl RunAs {
    /// How the step runs where the build has an isolated network namespace
    /// already (`has_network`) or not.
    pub fn plan(&self, has_network: bool) -> (r: RunAsPlan)
        ensures
            text_seq(r.args@) == runner_args(*self),
            r.use_network == self.isolate_network,
            r.create_network == (self.isolate_network && !has_network),
    {
        let mut args: Vec<String> = Vec::new();
        push_text(&mut args, "__runner__");
        push_text(&mut args, "run_as");
        push_text(&mut args, "--work-dir");
        push_string(&mut args, path_join("/work", self.work_dir.as_str()));
        let ghost head = text_seq(args@);
        match self.external_user_id {
            Some(e) => {
                push_text(&mut args, "--external-user-id");
                push_string(&mut args, decimal(e));
            },
            None => {},
        }
        let ghost mid = text_seq(args@);
        push_text(&mut args, "--user-id");
        push_string(&mut args, decimal(self.user_id));
        push_text(&mut args, "--group-id");
        push_string(&mut args, decimal(self.group_id));
        let ghost before_gids = text_seq(args@);
        if self.supplementary_gids.len() > 0 {
            push_text(&mut args, "--supplementary-gids");
            let ghost start = text_seq(args@);
            let mut i: usize = 0;
            while i < self.supplementary_gids.len()
                invariant
                    i <= self.supplementary_gids@.len(),
                    text_seq(args@) == start + decimals(self.supplementary_gids@).take(i as int),
                decreases self.supplementary_gids.len() - i,
            {
                push_string(&mut args, decimal(self.supplementary_gids[i]));
                assert(decimals(self.supplementary_gids@).take(i + 1) =~= decimals(
                    self.supplementary_gids@,
                ).take(i as int).push(decimal_of(self.supplementary_gids@[i as int] as nat)));
                i = i + 1;
            }
            assert(decimals(self.supplementary_gids@).take(i as int) =~= decimals(
                self.supplementary_gids@,
            ));
        }
        push_text(&mut args, "--");
        push_string(&mut args, self.script.clone());
        proof {
            assert(text_seq(args@) =~= runner_args(*self));
        }
        RunAsPlan {
            args,
            use_network: self.isolate_network,
            create_network: self.isolate_network && !has_network,
        }
    }
}

/// Where a command `cmd` is looked for along the directories `dirs` of the
/// search path: for each absolute one, in order, the path to check below the
/// root of the container and the path of the command in the container.
pub open spec fn candidates_of(dirs: Seq<Seq<char>>, cmd: Seq<char>) -> Seq<(Seq<char>, Seq<char>)>
    decreases dirs.len(),
{
    if dirs.len() == 0 {
        seq![]
    } else {
        let rest = candidates_of(dirs.drop_last(), cmd);
        match rel_path(dirs.last()) {
            Some(rel) => rest.push(
                (join_path(join_path(build_root(), rel), cmd), join_path(dirs.last(), cmd)),
            ),
            None => rest,
        }
    }
}

/// The places of the command `cmd` along the search path `paths` (its
/// directories are separated by `:`).
pub open spec fn command_candidates(paths: Seq<char>, cmd: Seq<char>) -> Seq<(Seq<char>, Seq<char>)> {
    candidates_of(split_on(paths, ':'), cmd)
}

/// The places of the command `cmd` along the search path `paths`.
pub fn cmd_candidates(paths: &str, cmd: &str) -> (r: Vec<(String, String)>)
    ensures
        text_entries(r@) == command_candidates(paths@, cmd@),
{
    let dirs = split_char(paths, ':');
    let ghost ds = split_on(paths@, ':');
    let mut r: Vec<(String, String)> = Vec::new();
    let mut i: usize = 0;
    assert(ds.take(0) =~= seq![]);
    while i < dirs.len()
        invariant
            string_views(dirs@) == ds,
            i <= dirs@.len(),
            text_entries(r@) == candidates_of(ds.take(i as int), cmd@),
        decreases dirs.len() - i,
    {
        assert(ds.take(i + 1).drop_last() =~= ds.take(i as int));
        assert(ds.take(i + 1).last() == dirs@[i as int]@);
        match strip_root(dirs[i].as_str()) {
            Some(rel) => {
                let root = path_join("/vagga/root", rel.as_str());
                let check = path_join(root.as_str(), cmd);
                let found = path_join(dirs[i].as_str(), cmd);
                let ghost r0 = text_entries(r@);
                let ghost entry = (check@, found@);
                r.push((check, found));
                assert(text_entries(r@) =~= r0.push(entry));
            },
            None => {},
        }
        i = i + 1;
    }
    assert(ds.take(i as int) =~= ds);
    r
}

/// What the search for the command `cmd` gives, where `found[i]` says
/// whether the `i`-th place of `command_candidates` has the command: the
/// path of the first place that has it; an error naming the search path
/// (`None` where the environment has no `PATH`) where none has it.
pub open spec fn find_cmd_result(path_var: Option<Seq<char>>, cmd: Seq<char>, found: Seq<bool>, r: Result<
    String,
    StepError,
>) -> bool {
    match path_var {
        None => r matches Err(StepError::CommandNotFound(n, p)) && n@ == cmd && p@
            == "-- empty PATH --"@,
        Some(paths) => {
            let cs = command_candidates(paths, cmd);
            match r {
                Ok(s) => exists|i: int|
                    0 <= i < found.len() && #[trigger] found[i] && (forall|j: int|
                        0 <= j < i ==> !found[j]) && s@ == cs[i].1,
                Err(e) => {
                    &&& forall|i: int| 0 <= i < found.len() ==> !found[i]
                    &&& e matches StepError::CommandNotFound(n, p) && n@ == cmd && p@ == paths
                },
            }
        },
    }
}

/// Finds the command `cmd` along the search path `path_var` of the build's
/// environment; `found[i]` says whether the `i`-th place of
/// `cmd_candidates` has the command.
pub fn find_cmd(path_var: Option<&str>, cmd: &str, found: &Vec<bool>) -> (r: Result<String, StepError>)
    requires
        path_var is Some ==> found@.len() == command_candidates(path_var->0@, cmd@).len(),
    ensures
        find_cmd_result(
            match path_var {
                Some(p) => Some(p@),
                None => None,
            },
            cmd@,
            found@,
            r,
        ),
{
    match path_var {
        None => Err(
            StepError::CommandNotFound(String::from_str(cmd), String::from_str("-- empty PATH --")),
        ),
        Some(paths) => {
            let cs = cmd_candidates(paths, cmd);
            let mut i: usize = 0;
            while i < found.len()
                invariant
                    i <= found@.len(),
                    found@.len() == cs@.len(),
                    text_entries(cs@) == command_candidates(paths@, cmd@),
                    path_var == Some(paths),
                    forall|j: int| 0 <= j < i ==> !found@[j],
                decreases found.len() - i,
            {
                if found[i] {
                    let r = cs[i].1.clone();
                    assert(text_entries(cs@)[i as int].1 == r@);
                    assert(found@[i as int]);
                    let ghost ii = i as int;
                    assert(exists|k: int|
                        0 <= k < found@.len() && #[trigger] found@[k] && (forall|j: int|
                            0 <= j < k ==> !found@[j]) && r@ == command_candidates(paths@, cmd@)[k].1) by {
                        assert(0 <= ii < found@.len() && found@[ii]);
                    }
                    return Ok(r);
                }
                i = i + 1;
            }
            Err(StepError::CommandNotFound(String::from_str(cmd), String::from_str(paths)))
        },
    }
}

impl Sh {
    /// What versions the step: its script.
    pub open spec fn hash_items(self) -> Seq<ItemView> {
        seq![text_item("script"@, self.0@)]
    }

    /// Feeds what versions the step into `h`.
    pub fn hash(&self, h: &mut VersionHash)
        ensures
            final(h)@ == old(h)@ + self.hash_items(),
    {
        let ghost h0 = h@;
        h.field_text("script", self.0.as_str());
        assert(h@ =~= h0 + self.hash_items());
    }
}

impl Cmd {
    /// What versions the step: its command line.
    pub open spec fn hash_items(self) -> Seq<ItemView> {
        seq![texts_item("command-line"@, self.0@)]
    }

    /// Feeds what versions the step into `h`.
    pub fn hash(&self, h: &mut VersionHash)
        ensures
            final(h)@ == old(h)@ + self.hash_items(),
    {
        let ghost h0 = h@;
        h.field_texts("command-line", &self.0);
        assert(h@ =~= h0 + self.hash_items());
    }
}

impl Env {
    /// What versions the step: each variable's name and value in turn.
    pub open spec fn hash_items(self) -> Seq<ItemView> {
        pair_items(self.0@, "key"@, "value"@)
    }

    /// Feeds what versions the step into `h`.
    pub fn hash(&self, h: &mut VersionHash)
        ensures
            final(h)@ == old(h)@ + self.hash_items(),
    {
        hash_pairs(h, &self.0, "key", "value");
    }
}

impl RunAs {
    /// What versions the step: the user and groups, the working directory,
    /// whether the network is isolated, and the script.
    pub open spec fn hash_items(self) -> Seq<ItemView> {
        seq![
            ItemView::Field("user_id"@, ValueView::Number(self.user_id as u64)),
            ItemView::Field("group_id"@, ValueView::Number(self.group_id as u64)),
            ItemView::OptField("external_user_id"@, match self.external_user_id {
                Some(n) => Some(ValueView::Number(n as u64)),
                None => None,
            }),
            ItemView::Field("supplementary_gids"@, ValueView::Numbers(self.supplementary_gids@)),
            text_item("work_dir"@, self.work_dir@),
            flag_item("isolate_network"@, self.isolate_network),
            text_item("script"@, self.script@),
        ]
    }

    /// Feeds what versions the step into `h`.
    pub fn hash(&self, h: &mut VersionHash)
        ensures
            final(h)@ == old(h)@ + self.hash_items(),
    {
        let ghost h0 = h@;
        h.field_number("user_id", self.user_id as u64);
        h.field_number("group_id", self.group_id as u64);
        h.opt_field_number("external_user_id", self.external_user_id);
        h.field_numbers("supplementary_gids", &self.supplementary_gids);
        h.field_text("work_dir", self.work_dir.as_str());
        h.field_flag("isolate_network", self.isolate_network);
        h.field_text("script", self.script.as_str());
        assert(h@ =~= h0 + self.hash_items());
    }
}

} // verus!

use vstd::prelude::*;
use crate::range::Range;
use crate::text::{concat, same_text};

verus! {

/// How the first process of a command's container behaves.
#[derive(Debug, Clone, Copy, PartialEq, Eq, Structural)]
pub enum Pid1Mode {
    Exec,
    Wait,
    WaitAllChildren,
}

/// When a supervising command stops.
#[derive(Debug, Clone, Copy, PartialEq, Eq, Structural)]
pub enum SuperviseMode {
    WaitAll,
    StopOnFailure,
    Restart,
}

/// How the root of a container is mounted for a command.
#[derive(Debug, Clone, Copy, PartialEq, Eq, Structural)]
pub enum WriteMode {
    ReadOnly,
    TransientHardLinkCopy,
}

impl Pid1Mode {
    /// The mode that the configuration names `name`.
    pub fn from_name(name: &str) -> (r: Option<Pid1Mode>)
        ensures
            r == if name@ == "exec"@ {
                Some(Pid1Mode::Exec)
            } else if name@ == "wait"@ {
                Some(Pid1Mode::Wait)
            } else if name@ == "wait-all-children"@ {
                Some(Pid1Mode::WaitAllChildren)
            } else {
                None::<Pid1Mode>
            },
    {
        if same_text(name, "exec") {
            Some(Pid1Mode::Exec)
        } else if same_text(name, "wait") {
            Some(Pid1Mode::Wait)
        } else if same_text(name, "wait-all-children") {
            Some(Pid1Mode::WaitAllChildren)
        } else {
            None
        }
    }
}

impl SuperviseMode {
    /// The mode that the configuration names `name`.
    pub fn from_name(name: &str) -> (r: Option<SuperviseMode>)
        ensures
            r == if name@ == "wait-all"@ {
                Some(SuperviseMode::WaitAll)
            } else if name@ == "stop-on-failure"@ {
                Some(SuperviseMode::StopOnFailure)
            } else if name@ == "restart"@ {
                Some(SuperviseMode::Restart)
            } else {
                None::<SuperviseMode>
            },
    {
        if same_text(name, "wait-all") {
            Some(SuperviseMode::WaitAll)
        } else if same_text(name, "stop-on-failure") {
            Some(SuperviseMode::StopOnFailure)
        } else if same_text(name, "restart") {
            Some(SuperviseMode::Restart)
        } else {
            None
        }
    }
}

impl WriteMode {
    /// The mode that the configuration names `name`.
    pub fn from_name(name: &str) -> (r: Option<WriteMode>)
        ensures
            r == if name@ == "read-only"@ {
                Some(WriteMode::ReadOnly)
            } else if name@ == "transient-hard-link-copy"@ {
                Some(WriteMode::TransientHardLinkCopy)
            } else {
                None::<WriteMode>
            },
    {
        if same_text(name, "read-only") {
            Some(WriteMode::ReadOnly)
        } else if same_text(name, "transient-hard-link-copy") {
            Some(WriteMode::TransientHardLinkCopy)
        } else {
            None
        }
    }
}

/// What a command executes: a shell line, a command, or children that it
/// supervises.
#[derive(Debug)]
pub enum Executor {
    Shell(String),
    Plain(Vec<String>),
    Supervise(SuperviseMode, Vec<(String, Command)>),
}

/// A command of the configuration, checked.
#[derive(Debug)]
pub struct Command {
    pub name: String,
    pub pid1mode: Pid1Mode,
    pub work_dir: Option<String>,
    pub container: Option<String>,
    pub accepts_arguments: bool,
    pub environ: Vec<(String, String)>,
    pub inherit_environ: Vec<String>,
    pub description: Option<String>,
    pub resolv_conf: bool,
    pub write_mode: WriteMode,
    pub banner: Option<String>,
    pub banner_delay: i64,
    pub epilog: Option<String>,
    pub execute: Executor,
}

/// A command as the configuration writes it, before it is checked.
#[derive(Debug)]
pub struct GenericCommand {
    pub pid1mode: Pid1Mode,
    pub work_dir: Option<String>,
    pub container: Option<String>,
    pub accepts_arguments: Option<bool>,
    pub environ: Vec<(String, String)>,
    pub inherit_environ: Vec<String>,
    pub description: Option<String>,
    pub resolv_conf: bool,
    pub write_mode: WriteMode,
    pub banner: Option<String>,
    pub banner_delay: i64,
    pub epilog: Option<String>,
    pub run: Option<String>,
    pub command: Vec<String>,
    pub supervise: Vec<(String, GenericCommand)>,
    pub supervise_mode: SuperviseMode,
}

/// The variants of a configuration parameter: a default and the options.
#[derive(Debug)]
pub struct Variant {
    pub default: Option<String>,
    pub options: Vec<String>,
}

/// A directory that a container must have, with its mode.
#[derive(Debug, Clone, PartialEq, Eq, Structural)]
pub struct Directory {
    pub mode: u32,
}

/// A container of the configuration.
#[derive(Debug)]
pub struct Container {
    pub default_command: Option<Vec<String>>,
    pub command_wrapper: Option<Vec<String>>,
    pub shell: Vec<String>,
    pub builder: String,
    pub provision: Option<String>,
    pub parameters: Vec<(String, String)>,
    pub environ_file: Option<String>,
    pub environ: Vec<(String, String)>,
    pub ensure_dirs: Vec<(String, Directory)>,
    pub uids: Vec<Range>,
    pub gids: Vec<Range>,
    pub tmpfs_volumes: Vec<(String, String)>,
}

impl Container {
    /// Fills in what the configuration leaves empty: the shell `/bin/sh -c`
    /// and a `/tmp` of 100 MB.
    pub fn apply_defaults(&mut self)
        ensures
            old(self).shell@.len() > 0 ==> final(self).shell == old(self).shell,
            old(self).shell@.len() == 0 ==> final(self).shell@.map_values(|s: String| s@) == seq![
                "/bin/sh"@,
                "-c"@,
            ],
            old(self).tmpfs_volumes@.len() > 0 ==> final(self).tmpfs_volumes == old(
                self,
            ).tmpfs_volumes,
            old(self).tmpfs_volumes@.len() == 0 ==> final(self).tmpfs_volumes@.len() == 1,
            old(self).tmpfs_volumes@.len() == 0 ==> final(self).tmpfs_volumes@[0].0@ == "/tmp"@,
            old(self).tmpfs_volumes@.len() == 0 ==> final(self).tmpfs_volumes@[0].1@
                == "size=100m,mode=1777"@,
            final(self).default_command == old(self).default_command,
            final(self).command_wrapper == old(self).command_wrapper,
            final(self).builder == old(self).builder,
            final(self).provision == old(self).provision,
            final(self).parameters == old(self).parameters,
            final(self).environ_file == old(self).environ_file,
            final(self).environ == old(self).environ,
            final(self).ensure_dirs == old(self).ensure_dirs,
            final(self).uids == old(self).uids,
            final(self).gids == old(self).gids,
    {
        if self.shell.len() == 0 {
            self.shell.push(String::from_str("/bin/sh"));
            self.shell.push(String::from_str("-c"));
            assert(self.shell@.map_values(|s: String| s@) =~= seq!["/bin/sh"@, "-c"@]);
        }
        if self.tmpfs_volumes.len() == 0 {
            self.tmpfs_volumes.push((String::from_str("/tmp"), String::from_str("size=100m,mode=1777")));
        }
    }
}

/// 1 where the option holds a value, else 0.
pub fn one<T>(opt: &Option<T>) -> (r: i64)
    ensures
        r == if opt is Some {
            1i64
        } else {
            0i64
        },
{
    if opt.is_some() {
        1
    } else {
        0
    }
}

/// 1 where the option holds a value, else 0.
pub fn one_opt<T>(opt: &Option<T>) -> (r: i64)
    ensures
        r == if opt is Some {
            1i64
        } else {
            0i64
        },
{
    if opt.is_some() {
        1
    } else {
        0
    }
}

/// 1 where the collection is not empty, else 0.
pub fn one_len<T>(coll: &Vec<T>) -> (r: i64)
    ensures
        r == if coll@.len() > 0 {
            1i64
        } else {
            0i64
        },
{
    if coll.len() > 0 {
        1
    } else {
        0
    }
}

/// The message for a command that says not exactly one of what to run.
pub open spec fn exactly_one_error(name: Seq<char>) -> Seq<char> {
    "Expected exactly one of `command` or `run` or `supervise` for command "@ + name
}

/// The message for a command that runs in no container.
pub open spec fn container_error(name: Seq<char>) -> Seq<char> {
    "The `container` is required for command "@ + name
}

/// The number of ways a command says what to run.
pub open spec fn ways(g: GenericCommand) -> int {
    (if g.run is Some {
        1int
    } else {
        0int
    }) + (if g.command@.len() > 0 {
        1int
    } else {
        0int
    }) + (if g.supervise@.len() > 0 {
        1int
    } else {
        0int
    })
}

/// The error of checking the command `g` named `name`, if any: it must say
/// exactly one way to run, it must name a container unless it supervises,
/// and its children must check, the first failing child giving the error.
pub open spec fn command_error(g: GenericCommand, name: Seq<char>) -> Option<Seq<char>>
    decreases g,
{
    if ways(g) != 1 {
        Some(exactly_one_error(name))
    } else if g.container is None && g.supervise@.len() == 0 {
        Some(container_error(name))
    } else if g.run is None && g.command@.len() == 0 {
        children_error(g.supervise@)
    } else {
        None
    }
}

/// The error of the first of the children `cs` that fails its check.
pub open spec fn children_error(cs: Seq<(String, GenericCommand)>) -> Option<Seq<char>>
    decreases cs,
{
    if cs.len() == 0 {
        None
    } else {
        match command_error(cs[0].1, cs[0].0@) {
            Some(e) => Some(e),
            None => children_error(cs.drop_first()),
        }
    }
}

/// `c` is the command `g` named `name` once checked: it keeps the
/// settings of `g`, accepts arguments where `g` says so or else where it
/// runs a command, and executes the shell line, the command or the checked
/// children of `g`, in this order of preference.
pub open spec fn converted(g: GenericCommand, name: Seq<char>, c: Command) -> bool
    decreases g,
{
    &&& c.name@ == name
    &&& c.pid1mode == g.pid1mode
    &&& c.work_dir == g.work_dir
    &&& c.container == g.container
    &&& c.accepts_arguments == match g.accepts_arguments {
        Some(b) => b,
        None => g.run is None && g.command@.len() > 0,
    }
    &&& c.environ == g.environ
    &&& c.inherit_environ == g.inherit_environ
    &&& c.description == g.description
    &&& c.resolv_conf == g.resolv_conf
    &&& c.write_mode == g.write_mode
    &&& c.banner == g.banner
    &&& c.banner_delay == g.banner_delay
    &&& c.epilog == g.epilog
    &&& match c.execute {
        Executor::Shell(s) => g.run == Some(s),
        Executor::Plain(v) => g.run is None && g.command@.len() > 0 && v == g.command,
        Executor::Supervise(m, cs) => {
            &&& g.run is None
            &&& g.command@.len() == 0
            &&& m == g.supervise_mode
            &&& cs@.len() == g.supervise@.len()
            &&& forall|i: int|
                0 <= i < cs@.len() ==> (#[trigger] cs@[i]).0@ == g.supervise@[i].0@ && converted(
                    g.supervise@[i].1,
                    g.supervise@[i].0@,
                    cs@[i].1,
                )
        },
    }
}

impl GenericCommand {
    /// The command named `name` once checked; the error of the check where
    /// it fails.
    #[verifier::loop_isolation(false)]
    pub fn to_command(self, name: String) -> (r: Result<Command, String>)
        ensures
            r is Err <==> command_error(self, name@) is Some,
            r matches Err(e) ==> e@ == command_error(self, name@)->0,
            r matches Ok(c) ==> converted(self, name@, c),
        decreases self,
    {
        let ghost s0 = self;
        let ways = one_opt(&self.run) + one_len(&self.command) + one_len(&self.supervise);
        if ways != 1 {
            return Err(
                concat(
                    "Expected exactly one of `command` or `run` or `supervise` for command ",
                    name.as_str(),
                ),
            );
        }
        if self.container.is_none() && self.supervise.len() == 0 {
            return Err(concat("The `container` is required for command ", name.as_str()));
        }
        let GenericCommand {
            pid1mode,
            work_dir,
            container,
            accepts_arguments,
            environ,
            inherit_environ,
            description,
            resolv_conf,
            write_mode,
            banner,
            banner_delay,
            epilog,
            run,
            command,
            supervise,
            supervise_mode,
        } = self;
        let mut takes_args = false;
        let executor = match run {
            Some(line) => Executor::Shell(line),
            None => {
                if command.len() > 0 {
                    takes_args = true;
                    Executor::Plain(command)
                } else {
                    let ghost orig = supervise@;
                    let mut rest = supervise;
                    let mut out: Vec<(String, Command)> = Vec::new();
                    let mut k: usize = 0;
                    let total = rest.len();
                    assert(orig.skip(0) =~= orig);
                    assert(command_error(s0, name@) == children_error(orig));
                    while rest.len() > 0
                        invariant
                            orig == s0.supervise@,
                            total == orig.len(),
                            command_error(s0, name@) == children_error(orig),
                            k <= orig.len(),
                            rest@ == orig.skip(k as int),
                            out@.len() == k,
                            forall|i: int|
                                0 <= i < k ==> (#[trigger] out@[i]).0@ == orig[i].0@ && converted(
                                    orig[i].1,
                                    orig[i].0@,
                                    out@[i].1,
                                ),
                            children_error(orig) == children_error(orig.skip(k as int)),
                        decreases rest@.len(),
                    {
                        assert(rest@[0] == orig[k as int]);
                        let (n, g) = rest.remove(0);
                        let ghost gk = orig[k as int].1;
                        assert(g == gk);
                        proof {
                            assert(decreases_to!(s0 => s0.supervise));
                            assert(decreases_to!(s0.supervise => s0.supervise@));
                            assert(decreases_to!(s0.supervise@ => s0.supervise@[k as int]));
                            assert(decreases_to!(s0.supervise@[k as int] => s0.supervise@[k as int].1));
                            assert(decreases_to!(s0 => gk));
                        }
                        let n2 = n.clone();
                        let ghost skk = orig.skip(k as int);
                        assert(skk[0] == orig[k as int]);
                        match g.to_command(n) {
                            Ok(c) => {
                                out.push((n2, c));
                            },
                            Err(e) => {
                                assert(children_error(skk) == Some(e@));
                                return Err(e);
                            },
                        }
                        assert(skk.drop_first() =~= orig.skip(k + 1));
                        assert(rest@ =~= orig.skip(k + 1));
                        k = k + 1;
                    }
                    assert(k == orig.len());
                    Executor::Supervise(supervise_mode, out)
                }
            },
        };
        Ok(Command {
            name: name,
            pid1mode: pid1mode,
            work_dir: work_dir,
            container: container,
            accepts_arguments: match accepts_arguments {
                Some(b) => b,
                None => takes_args,
            },
            environ: environ,
            inherit_environ: inherit_environ,
            description: description,
            resolv_conf: resolv_conf,
            write_mode: write_mode,
            banner: banner,
            banner_delay: banner_delay,
            epilog: epilog,
            execute: executor,
        })
    }
}

} // verus!

use vstd::prelude::*;
use crate::range::Range;

verus! {

/// How the first process of a command's container behaves: it execs the
/// command, waits for it, or waits for all the children.
#[allow(non_camel_case_types)]
#[derive(Debug, Clone, PartialEq, Eq, Structural, Copy)]
pub enum Pid1Mode {
    exec,
    wait,
    wait_all_children,
}

/// When a supervising command stops: when all its children succeeded, or
/// on the first failure.
#[allow(non_camel_case_types)]
#[derive(Debug, Clone, PartialEq, Eq, Structural, Copy)]
pub enum SuperviseMode {
    wait_all_successful,
    stop_on_failure,
}

/// How the root of a container is mounted for a command.
#[allow(non_camel_case_types)]
#[derive(Debug, Clone, PartialEq, Eq, Structural, Copy)]
pub enum WriteMode {
    read_only,
    transient_hard_link_copy,
}

/// The network of a child of a supervising command: its address, host name
/// and the ports it forwards.
#[derive(Debug, Clone, PartialEq, Eq)]
pub struct Network {
    pub ip: String,
    pub hostname: Option<String>,
    pub ports: Vec<(u16, u16)>,
}

/// What a command runs: a shell line, or a command with its arguments.
#[derive(Debug, Clone, PartialEq, Eq)]
pub enum Run {
    Shell(String),
    Command(Vec<String>),
}

/// A command run in a container.
#[derive(Debug, Clone, PartialEq, Eq)]
pub struct CommandInfo {
    pub source: Option<String>,
    pub description: Option<String>,
    pub banner: Option<String>,
    pub banner_delay: Option<u32>,
    pub epilog: Option<String>,
    pub pass_tcp_socket: Option<String>,
    pub prerequisites: Vec<String>,
    pub options: Option<String>,
    pub expect_inotify_limit: Option<usize>,
    pub symlink_name: Option<String>,
    pub aliases: Vec<String>,
    pub group: Option<String>,
    pub isolate_network: bool,
    pub tags: Vec<String>,
    pub network: Option<Network>,
    pub pid1mode: Pid1Mode,
    pub work_dir: Option<String>,
    pub container: String,
    pub accepts_arguments: Option<bool>,
    pub environ: Vec<(String, String)>,
    pub volumes: Vec<String>,
    pub write_mode: WriteMode,
    pub run: Run,
    pub user_id: u32,
    pub external_user_id: Option<u32>,
    pub group_id: u32,
    pub supplementary_gids: Vec<u32>,
}

/// A command run in the capsule, outside any container.
#[derive(Debug, Clone, PartialEq, Eq)]
pub struct CapsuleInfo {
    pub source: Option<String>,
    pub description: Option<String>,
    pub banner: Option<String>,
    pub banner_delay: Option<u32>,
    pub epilog: Option<String>,
    pub pass_tcp_socket: Option<String>,
    pub prerequisites: Vec<String>,
    pub options: Option<String>,
    pub expect_inotify_limit: Option<usize>,
    pub symlink_name: Option<String>,
    pub aliases: Vec<String>,
    pub group: Option<String>,
    pub isolate_network: bool,
    pub uids: Vec<Range>,
    pub gids: Vec<Range>,
    pub work_dir: Option<String>,
    pub accepts_arguments: Option<bool>,
    pub environ: Vec<(String, String)>,
    pub run: Run,
}

/// A command that runs and supervises several children.
#[derive(Debug, Clone, PartialEq, Eq)]
pub struct SuperviseInfo {
    pub source: Option<String>,
    pub description: Option<String>,
    pub banner: Option<String>,
    pub banner_delay: Option<u32>,
    pub epilog: Option<String>,
    pub prerequisites: Vec<String>,
    pub options: Option<String>,
    pub expect_inotify_limit: Option<usize>,
    pub symlink_name: Option<String>,
    pub aliases: Vec<String>,
    pub group: Option<String>,
    pub isolate_network: bool,
    pub mode: SuperviseMode,
    pub kill_unresponsive_after: u32,
    pub children: Vec<(String, ChildCommand)>,
}

/// A command of the configuration.
#[derive(Debug, Clone, PartialEq, Eq)]
pub enum MainCommand {
    Command(CommandInfo),
    CapsuleCommand(CapsuleInfo),
    Supervise(SuperviseInfo),
}

/// A reference to the value of an option.
pub open spec fn opt_ref<T>(o: &Option<T>) -> Option<&T> {
    match o {
        Some(x) => Some(x),
        None => None,
    }
}

/// The name under which a command is linked as an executable.
pub struct LinkInfo<'a> {
    pub name: &'a str,
}

/// A child of a supervising command.
#[derive(Debug, Clone, PartialEq, Eq)]
pub enum ChildCommand {
    Command(CommandInfo),
    BridgeCommand(CommandInfo),
}

impl MainCommand {
    /// The description of the command.
    pub fn description(&self) -> (r: Option<&String>)
        ensures
            r == match self {
                MainCommand::Command(c) => opt_ref(&c.description),
                MainCommand::Supervise(c) => opt_ref(&c.description),
                MainCommand::CapsuleCommand(c) => opt_ref(&c.description),
            },
    {
        match self {
            MainCommand::Command(cmd) => cmd.description.as_ref(),
            MainCommand::Supervise(cmd) => cmd.description.as_ref(),
            MainCommand::CapsuleCommand(cmd) => cmd.description.as_ref(),
        }
    }

    /// The options of the command, in the usage syntax.
    pub fn options(&self) -> (r: Option<&String>)
        ensures
            r == match self {
                MainCommand::Command(c) => opt_ref(&c.options),
                MainCommand::Supervise(c) => opt_ref(&c.options),
                MainCommand::CapsuleCommand(c) => opt_ref(&c.options),
            },
    {
        match self {
            MainCommand::Command(cmd) => cmd.options.as_ref(),
            MainCommand::Supervise(cmd) => cmd.options.as_ref(),
            MainCommand::CapsuleCommand(cmd) => cmd.options.as_ref(),
        }
    }

    /// The name of the command's symlink, if it has one.
    pub open spec fn symlink_of(&self) -> Option<String> {
        match self {
            MainCommand::Command(c) => c.symlink_name,
            MainCommand::Supervise(c) => c.symlink_name,
            MainCommand::CapsuleCommand(c) => c.symlink_name,
        }
    }

    /// The link of the command as an executable, if it has one.
    pub fn link(&self) -> (r: Option<LinkInfo>)
        ensures
            match r {
                Some(l) => self.symlink_of() is Some && l.name@ == self.symlink_of()->0@,
                None => self.symlink_of() is None,
            },
    {
        let name = match self {
            MainCommand::Command(cmd) => &cmd.symlink_name,
            MainCommand::CapsuleCommand(cmd) => &cmd.symlink_name,
            MainCommand::Supervise(cmd) => &cmd.symlink_name,
        };
        match name {
            Some(n) => Some(LinkInfo { name: n.as_str() }),
            None => None,
        }
    }

    /// The file the command was read from.
    pub open spec fn source_of(&self) -> Option<String> {
        match self {
            MainCommand::Command(c) => c.source,
            MainCommand::Supervise(c) => c.source,
            MainCommand::CapsuleCommand(c) => c.source,
        }
    }

    /// Records the file the command was read from.
    pub fn set_source(&mut self, fname: String)
        ensures
            final(self).source_of() == Some(fname),
    {
        match self {
            MainCommand::Command(c) => c.source = Some(fname),
            MainCommand::CapsuleCommand(c) => c.source = Some(fname),
            MainCommand::Supervise(c) => c.source = Some(fname),
        }
    }

    /// The file the command was read from.
    pub fn source(&self) -> (r: &Option<String>)
        ensures
            *r == self.source_of(),
    {
        match self {
            MainCommand::Command(c) => &c.source,
            MainCommand::CapsuleCommand(c) => &c.source,
            MainCommand::Supervise(c) => &c.source,
        }
    }

    /// The other names of the command.
    pub fn aliases(&self) -> (r: &Vec<String>)
        ensures
            *r == match self {
                MainCommand::Command(c) => c.aliases,
                MainCommand::Supervise(c) => c.aliases,
                MainCommand::CapsuleCommand(c) => c.aliases,
            },
    {
        match self {
            MainCommand::Command(c) => &c.aliases,
            MainCommand::CapsuleCommand(c) => &c.aliases,
            MainCommand::Supervise(c) => &c.aliases,
        }
    }

    /// The title of the group the command is listed in.
    pub fn group_title(&self) -> (r: Option<&str>)
        ensures
            match r {
                Some(t) => match self {
                    MainCommand::Command(c) => c.group is Some && t@ == c.group->0@,
                    MainCommand::Supervise(c) => c.group is Some && t@ == c.group->0@,
                    MainCommand::CapsuleCommand(c) => c.group is Some && t@ == c.group->0@,
                },
                None => match self {
                    MainCommand::Command(c) => c.group is None,
                    MainCommand::Supervise(c) => c.group is None,
                    MainCommand::CapsuleCommand(c) => c.group is None,
                },
            },
    {
        let g = match self {
            MainCommand::Command(c) => &c.group,
            MainCommand::CapsuleCommand(c) => &c.group,
            MainCommand::Supervise(c) => &c.group,
        };
        match g {
            Some(x) => Some(x.as_str()),
            None => None,
        }
    }
}

impl ChildCommand {
    /// The description of the child, whatever its kind.
    pub open spec fn info(&self) -> CommandInfo {
        match self {
            ChildCommand::Command(i) => *i,
            ChildCommand::BridgeCommand(i) => *i,
        }
    }

    /// The container the child runs in.
    pub fn get_container(&self) -> (r: &String)
        ensures
            *r == self.info().container,
    {
        match self {
            ChildCommand::Command(info) => &info.container,
            ChildCommand::BridgeCommand(info) => &info.container,
        }
    }

    /// The tags by which the child is chosen.
    pub fn get_tags(&self) -> (r: &Vec<String>)
        ensures
            *r == self.info().tags,
    {
        match self {
            ChildCommand::Command(info) => &info.tags,
            ChildCommand::BridgeCommand(info) => &info.tags,
        }
    }

    /// The paths at which the child's volumes are mounted.
    pub fn get_volumes(&self) -> (r: &Vec<String>)
        ensures
            *r == self.info().volumes,
    {
        match self {
            ChildCommand::Command(info) => &info.volumes,
            ChildCommand::BridgeCommand(info) => &info.volumes,
        }
    }

    /// The commands to run before the child.
    pub fn prerequisites(&self) -> (r: &Vec<String>)
        ensures
            *r == self.info().prerequisites,
    {
        match self {
            ChildCommand::Command(cmd) => &cmd.prerequisites,
            ChildCommand::BridgeCommand(cmd) => &cmd.prerequisites,
        }
    }

    /// The TCP socket passed to the child, if any.
    pub fn pass_socket(&self) -> (r: Option<&String>)
        ensures
            r == opt_ref(&self.info().pass_tcp_socket),
    {
        match self {
            ChildCommand::Command(c) => c.pass_tcp_socket.as_ref(),
            ChildCommand::BridgeCommand(c) => c.pass_tcp_socket.as_ref(),
        }
    }
}

/// What has a network of its own.
pub trait Networking {
    /// The network, if there is one.
    fn network(&self) -> Option<&Network>;
}

impl Networking for ChildCommand {
    /// The network of a plain child; a bridge has none of its own.
    fn network(&self) -> (r: Option<&Network>)
        ensures
            r == match self {
                ChildCommand::Command(c) => opt_ref(&c.network),
                ChildCommand::BridgeCommand(_) => None,
            },
    {
        match self {
            ChildCommand::Command(cmd) => cmd.network.as_ref(),
            ChildCommand::BridgeCommand(_) => None,
        }
    }
}

} // verus!

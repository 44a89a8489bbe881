use vstd::prelude::*;
use crate::text::{concat, same_text};

verus! {

/// The kind of a build step, by the name it has in the configuration.
#[derive(Debug, Clone, Copy, PartialEq, Eq, Structural)]
pub enum CommandName {
    Alpine,
    AlpineRepo,
    AptTrust,
    Build,
    BuildDeps,
    CacheDirs,
    Cmd,
    ComposerConfig,
    ComposerDependencies,
    ComposerInstall,
    Container,
    Copy,
    Depends,
    Download,
    EmptyDir,
    EnsureDir,
    Env,
    GemBundle,
    GemConfig,
    GemInstall,
    Git,
    GitDescribe,
    GitInstall,
    Install,
    NpmConfig,
    NpmDependencies,
    NpmInstall,
    PipConfig,
    Py2Install,
    Py2Requirements,
    Py3Install,
    Py3Requirements,
    Remove,
    Repo,
    RunAs,
    Sh,
    SubConfig,
    Tar,
    TarInstall,
    Text,
    Ubuntu,
    UbuntuPPA,
    UbuntuRelease,
    UbuntuRepo,
    UbuntuUniverse,
    Unzip,
    YarnDependencies,
}

/// The name of the build step `c` in the configuration.
pub open spec fn command_text(c: CommandName) -> Seq<char> {
    match c {
        CommandName::Alpine => "Alpine"@,
        CommandName::AlpineRepo => "AlpineRepo"@,
        CommandName::AptTrust => "AptTrust"@,
        CommandName::Build => "Build"@,
        CommandName::BuildDeps => "BuildDeps"@,
        CommandName::CacheDirs => "CacheDirs"@,
        CommandName::Cmd => "Cmd"@,
        CommandName::ComposerConfig => "ComposerConfig"@,
        CommandName::ComposerDependencies => "ComposerDependencies"@,
        CommandName::ComposerInstall => "ComposerInstall"@,
        CommandName::Container => "Container"@,
        CommandName::Copy => "Copy"@,
        CommandName::Depends => "Depends"@,
        CommandName::Download => "Download"@,
        CommandName::EmptyDir => "EmptyDir"@,
        CommandName::EnsureDir => "EnsureDir"@,
        CommandName::Env => "Env"@,
        CommandName::GemBundle => "GemBundle"@,
        CommandName::GemConfig => "GemConfig"@,
        CommandName::GemInstall => "GemInstall"@,
        CommandName::Git => "Git"@,
        CommandName::GitDescribe => "GitDescribe"@,
        CommandName::GitInstall => "GitInstall"@,
        CommandName::Install => "Install"@,
        CommandName::NpmConfig => "NpmConfig"@,
        CommandName::NpmDependencies => "NpmDependencies"@,
        CommandName::NpmInstall => "NpmInstall"@,
        CommandName::PipConfig => "PipConfig"@,
        CommandName::Py2Install => "Py2Install"@,
        CommandName::Py2Requirements => "Py2Requirements"@,
        CommandName::Py3Install => "Py3Install"@,
        CommandName::Py3Requirements => "Py3Requirements"@,
        CommandName::Remove => "Remove"@,
        CommandName::Repo => "Repo"@,
        CommandName::RunAs => "RunAs"@,
        CommandName::Sh => "Sh"@,
        CommandName::SubConfig => "SubConfig"@,
        CommandName::Tar => "Tar"@,
        CommandName::TarInstall => "TarInstall"@,
        CommandName::Text => "Text"@,
        CommandName::Ubuntu => "Ubuntu"@,
        CommandName::UbuntuPPA => "UbuntuPPA"@,
        CommandName::UbuntuRelease => "UbuntuRelease"@,
        CommandName::UbuntuRepo => "UbuntuRepo"@,
        CommandName::UbuntuUniverse => "UbuntuUniverse"@,
        CommandName::Unzip => "Unzip"@,
        CommandName::YarnDependencies => "YarnDependencies"@,
    }
}

/// The kind of build step named `s`, if any.
pub open spec fn command_of(s: Seq<char>) -> Option<CommandName> {
    if s == "Alpine"@ {
        Some(CommandName::Alpine)
    } else if s == "AlpineRepo"@ {
        Some(CommandName::AlpineRepo)
    } else if s == "AptTrust"@ {
        Some(CommandName::AptTrust)
    } else if s == "Build"@ {
        Some(CommandName::Build)
    } else if s == "BuildDeps"@ {
        Some(CommandName::BuildDeps)
    } else if s == "CacheDirs"@ {
        Some(CommandName::CacheDirs)
    } else if s == "Cmd"@ {
        Some(CommandName::Cmd)
    } else if s == "ComposerConfig"@ {
        Some(CommandName::ComposerConfig)
    } else if s == "ComposerDependencies"@ {
        Some(CommandName::ComposerDependencies)
    } else if s == "ComposerInstall"@ {
        Some(CommandName::ComposerInstall)
    } else if s == "Container"@ {
        Some(CommandName::Container)
    } else if s == "Copy"@ {
        Some(CommandName::Copy)
    } else if s == "Depends"@ {
        Some(CommandName::Depends)
    } else if s == "Download"@ {
        Some(CommandName::Download)
    } else if s == "EmptyDir"@ {
        Some(CommandName::EmptyDir)
    } else if s == "EnsureDir"@ {
        Some(CommandName::EnsureDir)
    } else if s == "Env"@ {
        Some(CommandName::Env)
    } else if s == "GemBundle"@ {
        Some(CommandName::GemBundle)
    } else if s == "GemConfig"@ {
        Some(CommandName::GemConfig)
    } else if s == "GemInstall"@ {
        Some(CommandName::GemInstall)
    } else if s == "Git"@ {
        Some(CommandName::Git)
    } else if s == "GitDescribe"@ {
        Some(CommandName::GitDescribe)
    } else if s == "GitInstall"@ {
        Some(CommandName::GitInstall)
    } else if s == "Install"@ {
        Some(CommandName::Install)
    } else if s == "NpmConfig"@ {
        Some(CommandName::NpmConfig)
    } else if s == "NpmDependencies"@ {
        Some(CommandName::NpmDependencies)
    } else if s == "NpmInstall"@ {
        Some(CommandName::NpmInstall)
    } else if s == "PipConfig"@ {
        Some(CommandName::PipConfig)
    } else if s == "Py2Install"@ {
        Some(CommandName::Py2Install)
    } else if s == "Py2Requirements"@ {
        Some(CommandName::Py2Requirements)
    } else if s == "Py3Install"@ {
        Some(CommandName::Py3Install)
    } else if s == "Py3Requirements"@ {
        Some(CommandName::Py3Requirements)
    } else if s == "Remove"@ {
        Some(CommandName::Remove)
    } else if s == "Repo"@ {
        Some(CommandName::Repo)
    } else if s == "RunAs"@ {
        Some(CommandName::RunAs)
    } else if s == "Sh"@ {
        Some(CommandName::Sh)
    } else if s == "SubConfig"@ {
        Some(CommandName::SubConfig)
    } else if s == "Tar"@ {
        Some(CommandName::Tar)
    } else if s == "TarInstall"@ {
        Some(CommandName::TarInstall)
    } else if s == "Text"@ {
        Some(CommandName::Text)
    } else if s == "Ubuntu"@ {
        Some(CommandName::Ubuntu)
    } else if s == "UbuntuPPA"@ {
        Some(CommandName::UbuntuPPA)
    } else if s == "UbuntuRelease"@ {
        Some(CommandName::UbuntuRelease)
    } else if s == "UbuntuRepo"@ {
        Some(CommandName::UbuntuRepo)
    } else if s == "UbuntuUniverse"@ {
        Some(CommandName::UbuntuUniverse)
    } else if s == "Unzip"@ {
        Some(CommandName::Unzip)
    } else if s == "YarnDependencies"@ {
        Some(CommandName::YarnDependencies)
    } else {
        None
    }
}

/// The number of kinds of build steps.
pub const COMMAND_COUNT: usize = 47;

/// The `i`-th kind of build step in the order that the configuration's
/// error messages list them.
pub open spec fn command_at(i: usize) -> CommandName {
    match i {
        0 => CommandName::Alpine,
        1 => CommandName::AlpineRepo,
        2 => CommandName::Ubuntu,
        3 => CommandName::UbuntuRepo,
        4 => CommandName::UbuntuRelease,
        5 => CommandName::UbuntuPPA,
        6 => CommandName::UbuntuUniverse,
        7 => CommandName::AptTrust,
        8 => CommandName::Repo,
        9 => CommandName::Install,
        10 => CommandName::BuildDeps,
        11 => CommandName::Git,
        12 => CommandName::GitInstall,
        13 => CommandName::GitDescribe,
        14 => CommandName::PipConfig,
        15 => CommandName::Py2Install,
        16 => CommandName::Py2Requirements,
        17 => CommandName::Py3Install,
        18 => CommandName::Py3Requirements,
        19 => CommandName::Tar,
        20 => CommandName::TarInstall,
        21 => CommandName::Unzip,
        22 => CommandName::Sh,
        23 => CommandName::Cmd,
        24 => CommandName::RunAs,
        25 => CommandName::Env,
        26 => CommandName::Text,
        27 => CommandName::Copy,
        28 => CommandName::Download,
        29 => CommandName::EnsureDir,
        30 => CommandName::CacheDirs,
        31 => CommandName::EmptyDir,
        32 => CommandName::Remove,
        33 => CommandName::Depends,
        34 => CommandName::Container,
        35 => CommandName::Build,
        36 => CommandName::SubConfig,
        37 => CommandName::NpmConfig,
        38 => CommandName::NpmDependencies,
        39 => CommandName::YarnDependencies,
        40 => CommandName::NpmInstall,
        41 => CommandName::GemInstall,
        42 => CommandName::GemBundle,
        43 => CommandName::GemConfig,
        44 => CommandName::ComposerInstall,
        45 => CommandName::ComposerDependencies,
        _ => CommandName::ComposerConfig,
    }
}

/// The `i`-th kind of build step in the order of the error messages.
fn listed_command(i: usize) -> (r: CommandName)
    requires
        i < COMMAND_COUNT,
    ensures
        r == command_at(i),
{
    match i {
        0 => CommandName::Alpine,
        1 => CommandName::AlpineRepo,
        2 => CommandName::Ubuntu,
        3 => CommandName::UbuntuRepo,
        4 => CommandName::UbuntuRelease,
        5 => CommandName::UbuntuPPA,
        6 => CommandName::UbuntuUniverse,
        7 => CommandName::AptTrust,
        8 => CommandName::Repo,
        9 => CommandName::Install,
        10 => CommandName::BuildDeps,
        11 => CommandName::Git,
        12 => CommandName::GitInstall,
        13 => CommandName::GitDescribe,
        14 => CommandName::PipConfig,
        15 => CommandName::Py2Install,
        16 => CommandName::Py2Requirements,
        17 => CommandName::Py3Install,
        18 => CommandName::Py3Requirements,
        19 => CommandName::Tar,
        20 => CommandName::TarInstall,
        21 => CommandName::Unzip,
        22 => CommandName::Sh,
        23 => CommandName::Cmd,
        24 => CommandName::RunAs,
        25 => CommandName::Env,
        26 => CommandName::Text,
        27 => CommandName::Copy,
        28 => CommandName::Download,
        29 => CommandName::EnsureDir,
        30 => CommandName::CacheDirs,
        31 => CommandName::EmptyDir,
        32 => CommandName::Remove,
        33 => CommandName::Depends,
        34 => CommandName::Container,
        35 => CommandName::Build,
        36 => CommandName::SubConfig,
        37 => CommandName::NpmConfig,
        38 => CommandName::NpmDependencies,
        39 => CommandName::YarnDependencies,
        40 => CommandName::NpmInstall,
        41 => CommandName::GemInstall,
        42 => CommandName::GemBundle,
        43 => CommandName::GemConfig,
        44 => CommandName::ComposerInstall,
        45 => CommandName::ComposerDependencies,
        _ => CommandName::ComposerConfig,
    }
}

/// The names of all build steps, as texts, in the order of the error
/// messages.
pub open spec fn command_names() -> Seq<Seq<char>> {
    Seq::new(47, |i: int| command_text(command_at(i as usize)))
}

/// The names of `ns` separated by `, `.
pub open spec fn joined(ns: Seq<Seq<char>>) -> Seq<char>
    decreases ns.len(),
{
    if ns.len() == 0 {
        seq![]
    } else if ns.len() == 1 {
        ns[0]
    } else {
        joined(ns.drop_last()) + ", "@ + ns.last()
    }
}

/// What the configuration expects where a build step stands.
pub open spec fn expected_step() -> Seq<char> {
    "build step is one of "@ + joined(command_names())
}

/// The text of what the configuration expects where a build step stands.
fn expecting_text() -> (r: String)
    ensures
        r@ == expected_step(),
{
    let mut s = String::new();
    let mut i: usize = 0;
    assert(command_names().take(0) =~= seq![]);
    while i < COMMAND_COUNT
        invariant
            i <= COMMAND_COUNT,
            s@ == joined(command_names().take(i as int)),
        decreases COMMAND_COUNT - i,
    {
        assert(command_names().take(i + 1).drop_last() =~= command_names().take(i as int));
        if i > 0 {
            s.append(", ");
        }
        s.append(command_label(listed_command(i)));
        proof {
            if i == 0 {
                assert(command_names().take(1) =~= seq![command_names()[0]]);
            }
        }
        i = i + 1;
    }
    assert(command_names().take(47) =~= command_names());
    concat("build step is one of ", s.as_str())
}

/// Reads the name of a build step.
pub struct NameVisitor;

/// Reads a build step: its name, then its settings.
pub struct StepVisitor;

impl NameVisitor {
    /// What the configuration expects where a build step's name stands.
    pub fn expecting(&self) -> (r: String)
        ensures
            r@ == expected_step(),
    {
        expecting_text()
    }

    /// The kind of build step named `val`; an error where no step has that
    /// name.
    pub fn visit_str(&self, val: &str) -> (r: Result<CommandName, &'static str>)
        ensures
            match command_of(val@) {
                Some(c) => r == Ok::<CommandName, &'static str>(c),
                None => r matches Err(e) && e@ == "invalid build step"@,
            },
    {
        if same_text(val, "Alpine") {
            Ok(CommandName::Alpine)
        } else if same_text(val, "AlpineRepo") {
            Ok(CommandName::AlpineRepo)
        } else if same_text(val, "AptTrust") {
            Ok(CommandName::AptTrust)
        } else if same_text(val, "Build") {
            Ok(CommandName::Build)
        } else if same_text(val, "BuildDeps") {
            Ok(CommandName::BuildDeps)
        } else if same_text(val, "CacheDirs") {
            Ok(CommandName::CacheDirs)
        } else if same_text(val, "Cmd") {
            Ok(CommandName::Cmd)
        } else if same_text(val, "ComposerConfig") {
            Ok(CommandName::ComposerConfig)
        } else if same_text(val, "ComposerDependencies") {
            Ok(CommandName::ComposerDependencies)
        } else if same_text(val, "ComposerInstall") {
            Ok(CommandName::ComposerInstall)
        } else if same_text(val, "Container") {
            Ok(CommandName::Container)
        } else if same_text(val, "Copy") {
            Ok(CommandName::Copy)
        } else if same_text(val, "Depends") {
            Ok(CommandName::Depends)
        } else if same_text(val, "Download") {
            Ok(CommandName::Download)
        } else if same_text(val, "EmptyDir") {
            Ok(CommandName::EmptyDir)
        } else if same_text(val, "EnsureDir") {
            Ok(CommandName::EnsureDir)
        } else if same_text(val, "Env") {
            Ok(CommandName::Env)
        } else if same_text(val, "GemBundle") {
            Ok(CommandName::GemBundle)
        } else if same_text(val, "GemConfig") {
            Ok(CommandName::GemConfig)
        } else if same_text(val, "GemInstall") {
            Ok(CommandName::GemInstall)
        } else if same_text(val, "Git") {
            Ok(CommandName::Git)
        } else if same_text(val, "GitDescribe") {
            Ok(CommandName::GitDescribe)
        } else if same_text(val, "GitInstall") {
            Ok(CommandName::GitInstall)
        } else if same_text(val, "Install") {
            Ok(CommandName::Install)
        } else if same_text(val, "NpmConfig") {
            Ok(CommandName::NpmConfig)
        } else if same_text(val, "NpmDependencies") {
            Ok(CommandName::NpmDependencies)
        } else if same_text(val, "NpmInstall") {
            Ok(CommandName::NpmInstall)
        } else if same_text(val, "PipConfig") {
            Ok(CommandName::PipConfig)
        } else if same_text(val, "Py2Install") {
            Ok(CommandName::Py2Install)
        } else if same_text(val, "Py2Requirements") {
            Ok(CommandName::Py2Requirements)
        } else if same_text(val, "Py3Install") {
            Ok(CommandName::Py3Install)
        } else if same_text(val, "Py3Requirements") {
            Ok(CommandName::Py3Requirements)
        } else if same_text(val, "Remove") {
            Ok(CommandName::Remove)
        } else if same_text(val, "Repo") {
            Ok(CommandName::Repo)
        } else if same_text(val, "RunAs") {
            Ok(CommandName::RunAs)
        } else if same_text(val, "Sh") {
            Ok(CommandName::Sh)
        } else if same_text(val, "SubConfig") {
            Ok(CommandName::SubConfig)
        } else if same_text(val, "Tar") {
            Ok(CommandName::Tar)
        } else if same_text(val, "TarInstall") {
            Ok(CommandName::TarInstall)
        } else if same_text(val, "Text") {
            Ok(CommandName::Text)
        } else if same_text(val, "Ubuntu") {
            Ok(CommandName::Ubuntu)
        } else if same_text(val, "UbuntuPPA") {
            Ok(CommandName::UbuntuPPA)
        } else if same_text(val, "UbuntuRelease") {
            Ok(CommandName::UbuntuRelease)
        } else if same_text(val, "UbuntuRepo") {
            Ok(CommandName::UbuntuRepo)
        } else if same_text(val, "UbuntuUniverse") {
            Ok(CommandName::UbuntuUniverse)
        } else if same_text(val, "Unzip") {
            Ok(CommandName::Unzip)
        } else if same_text(val, "YarnDependencies") {
            Ok(CommandName::YarnDependencies)
        } else {
            Err("invalid build step")
        }
    }
}

impl StepVisitor {
    /// What the configuration expects where a build step stands.
    pub fn expecting(&self) -> (r: String)
        ensures
            r@ == expected_step(),
    {
        expecting_text()
    }
}

/// The name of the build step `c`.
pub fn command_label(c: CommandName) -> (r: &'static str)
    ensures
        r@ == command_text(c),
{
    match c {
        CommandName::Alpine => "Alpine",
        CommandName::AlpineRepo => "AlpineRepo",
        CommandName::AptTrust => "AptTrust",
        CommandName::Build => "Build",
        CommandName::BuildDeps => "BuildDeps",
        CommandName::CacheDirs => "CacheDirs",
        CommandName::Cmd => "Cmd",
        CommandName::ComposerConfig => "ComposerConfig",
        CommandName::ComposerDependencies => "ComposerDependencies",
        CommandName::ComposerInstall => "ComposerInstall",
        CommandName::Container => "Container",
        CommandName::Copy => "Copy",
        CommandName::Depends => "Depends",
        CommandName::Download => "Download",
        CommandName::EmptyDir => "EmptyDir",
        CommandName::EnsureDir => "EnsureDir",
        CommandName::Env => "Env",
        CommandName::GemBundle => "GemBundle",
        CommandName::GemConfig => "GemConfig",
        CommandName::GemInstall => "GemInstall",
        CommandName::Git => "Git",
        CommandName::GitDescribe => "GitDescribe",
        CommandName::GitInstall => "GitInstall",
        CommandName::Install => "Install",
        CommandName::NpmConfig => "NpmConfig",
        CommandName::NpmDependencies => "NpmDependencies",
        CommandName::NpmInstall => "NpmInstall",
        CommandName::PipConfig => "PipConfig",
        CommandName::Py2Install => "Py2Install",
        CommandName::Py2Requirements => "Py2Requirements",
        CommandName::Py3Install => "Py3Install",
        CommandName::Py3Requirements => "Py3Requirements",
        CommandName::Remove => "Remove",
        CommandName::Repo => "Repo",
        CommandName::RunAs => "RunAs",
        CommandName::Sh => "Sh",
        CommandName::SubConfig => "SubConfig",
        CommandName::Tar => "Tar",
        CommandName::TarInstall => "TarInstall",
        CommandName::Text => "Text",
        CommandName::Ubuntu => "Ubuntu",
        CommandName::UbuntuPPA => "UbuntuPPA",
        CommandName::UbuntuRelease => "UbuntuRelease",
        CommandName::UbuntuRepo => "UbuntuRepo",
        CommandName::UbuntuUniverse => "UbuntuUniverse",
        CommandName::Unzip => "Unzip",
        CommandName::YarnDependencies => "YarnDependencies",
    }
}

/// Each build step is read back from its own name: reading the name of
/// any kind of step gives that kind.
#[verifier::spinoff_prover]
#[verifier::rlimit(60)]
pub proof fn lemma_command_names_read_back(c: CommandName)
    ensures
        command_of(command_text(c)) == Some(c),
{
    reveal_strlit("Alpine");
    reveal_strlit("AlpineRepo");
    reveal_strlit("AptTrust");
    reveal_strlit("Build");
    reveal_strlit("BuildDeps");
    reveal_strlit("CacheDirs");
    reveal_strlit("Cmd");
    reveal_strlit("ComposerConfig");
    reveal_strlit("ComposerDependencies");
    reveal_strlit("ComposerInstall");
    reveal_strlit("Container");
    reveal_strlit("Copy");
    reveal_strlit("Depends");
    reveal_strlit("Download");
    reveal_strlit("EmptyDir");
    reveal_strlit("EnsureDir");
    reveal_strlit("Env");
    reveal_strlit("GemBundle");
    reveal_strlit("GemConfig");
    reveal_strlit("GemInstall");
    reveal_strlit("Git");
    reveal_strlit("GitDescribe");
    reveal_strlit("GitInstall");
    reveal_strlit("Install");
    reveal_strlit("NpmConfig");
    reveal_strlit("NpmDependencies");
    reveal_strlit("NpmInstall");
    reveal_strlit("PipConfig");
    reveal_strlit("Py2Install");
    reveal_strlit("Py2Requirements");
    reveal_strlit("Py3Install");
    reveal_strlit("Py3Requirements");
    reveal_strlit("Remove");
    reveal_strlit("Repo");
    reveal_strlit("RunAs");
    reveal_strlit("Sh");
    reveal_strlit("SubConfig");
    reveal_strlit("Tar");
    reveal_strlit("TarInstall");
    reveal_strlit("Text");
    reveal_strlit("Ubuntu");
    reveal_strlit("UbuntuPPA");
    reveal_strlit("UbuntuRelease");
    reveal_strlit("UbuntuRepo");
    reveal_strlit("UbuntuUniverse");
    reveal_strlit("Unzip");
    reveal_strlit("YarnDependencies");
    assert("Alpine"@.len() == 6 && "Alpine"@[0] == 'A');
    assert("AlpineRepo"@.len() == 10 && "AlpineRepo"@[0] == 'A');
    assert("AptTrust"@.len() == 8 && "AptTrust"@[0] == 'A');
    assert("Build"@.len() == 5 && "Build"@[0] == 'B');
    assert("BuildDeps"@.len() == 9 && "BuildDeps"@[0] == 'B');
    assert("CacheDirs"@.len() == 9 && "CacheDirs"@[0] == 'C' && "CacheDirs"@[1] == 'a');
    assert("Cmd"@.len() == 3 && "Cmd"@[0] == 'C');
    assert("ComposerConfig"@.len() == 14 && "ComposerConfig"@[0] == 'C');
    assert("ComposerDependencies"@.len() == 20);
    assert("ComposerInstall"@.len() == 15 && "ComposerInstall"@[0] == 'C');
    assert("Container"@.len() == 9 && "Container"@[0] == 'C' && "Container"@[1] == 'o');
    assert("Copy"@.len() == 4 && "Copy"@[0] == 'C');
    assert("Depends"@.len() == 7 && "Depends"@[0] == 'D');
    assert("Download"@.len() == 8 && "Download"@[0] == 'D');
    assert("EmptyDir"@.len() == 8 && "EmptyDir"@[0] == 'E');
    assert("EnsureDir"@.len() == 9 && "EnsureDir"@[0] == 'E');
    assert("Env"@.len() == 3 && "Env"@[0] == 'E');
    assert("GemBundle"@.len() == 9 && "GemBundle"@[0] == 'G' && "GemBundle"@[3] == 'B');
    assert("GemConfig"@.len() == 9 && "GemConfig"@[0] == 'G' && "GemConfig"@[3] == 'C');
    assert("GemInstall"@.len() == 10 && "GemInstall"@[0] == 'G' && "GemInstall"@[1] == 'e');
    assert("Git"@.len() == 3 && "Git"@[0] == 'G');
    assert("GitDescribe"@.len() == 11);
    assert("GitInstall"@.len() == 10 && "GitInstall"@[0] == 'G' && "GitInstall"@[1] == 'i');
    assert("Install"@.len() == 7 && "Install"@[0] == 'I');
    assert("NpmConfig"@.len() == 9 && "NpmConfig"@[0] == 'N');
    assert("NpmDependencies"@.len() == 15 && "NpmDependencies"@[0] == 'N');
    assert("NpmInstall"@.len() == 10 && "NpmInstall"@[0] == 'N');
    assert("PipConfig"@.len() == 9 && "PipConfig"@[0] == 'P');
    assert("Py2Install"@.len() == 10 && "Py2Install"@[0] == 'P' && "Py2Install"@[2] == '2');
    assert("Py2Requirements"@.len() == 15 && "Py2Requirements"@[0] == 'P' && "Py2Requirements"@[2] == '2');
    assert("Py3Install"@.len() == 10 && "Py3Install"@[0] == 'P' && "Py3Install"@[2] == '3');
    assert("Py3Requirements"@.len() == 15 && "Py3Requirements"@[0] == 'P' && "Py3Requirements"@[2] == '3');
    assert("Remove"@.len() == 6 && "Remove"@[0] == 'R');
    assert("Repo"@.len() == 4 && "Repo"@[0] == 'R');
    assert("RunAs"@.len() == 5 && "RunAs"@[0] == 'R');
    assert("Sh"@.len() == 2);
    assert("SubConfig"@.len() == 9 && "SubConfig"@[0] == 'S');
    assert("Tar"@.len() == 3 && "Tar"@[0] == 'T');
    assert("TarInstall"@.len() == 10 && "TarInstall"@[0] == 'T');
    assert("Text"@.len() == 4 && "Text"@[0] == 'T');
    assert("Ubuntu"@.len() == 6 && "Ubuntu"@[0] == 'U');
    assert("UbuntuPPA"@.len() == 9 && "UbuntuPPA"@[0] == 'U');
    assert("UbuntuRelease"@.len() == 13);
    assert("UbuntuRepo"@.len() == 10 && "UbuntuRepo"@[0] == 'U');
    assert("UbuntuUniverse"@.len() == 14 && "UbuntuUniverse"@[0] == 'U');
    assert("Unzip"@.len() == 5 && "Unzip"@[0] == 'U');
    assert("YarnDependencies"@.len() == 16);
}

} // verus!

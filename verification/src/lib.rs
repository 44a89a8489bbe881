use vstd::prelude::*;

pub mod text;
pub mod version;
pub mod matchers;
pub mod path_filter;
pub mod packages;
pub mod alpine;
pub mod ubuntu;
pub mod hashing;
pub mod downloads;
pub mod npm;
pub mod pip;
pub mod gem;
pub mod composer;
pub mod docker;
pub mod range;
pub mod command;
pub mod generic;
pub mod tar;
pub mod guard;
pub mod assoc;
pub mod paths;
pub mod context;
pub mod steps;
pub mod dirs;
pub mod subcontainer;
pub mod vcs;
pub mod copy;
pub mod distrib;
pub mod unzip;
pub mod debian;
pub mod builders;
pub mod settings;
pub mod config_files;
pub mod validate;
pub mod clean;
pub mod launch;
pub mod dns;
pub mod versioning;
pub mod container_build;
pub mod supervise;
pub mod fetch;
pub mod walk;

verus! {
} // verus!

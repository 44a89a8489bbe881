use vstd::prelude::*;
use crate::text::{concat, concat3};

verus! {

/// One step of putting the host's name files back into the container.
#[derive(Debug, Clone, Copy)]
pub enum NameFileStep {
    /// Copy the host's file `from` over the container's `to`.
    Copy { from: &'static str, to: &'static str },
    /// Leave the container's file alone and warn with this text.
    Warn(&'static str),
}

/// Whether a name file of the container may be replaced, where `looked` is
/// what a look at it found: `None` where the look failed, else whether it is
/// a plain file.
pub open spec fn replaceable(looked: Option<bool>) -> bool {
    looked is None || looked == Some(true)
}

/// The warning given where the container's `resolv.conf` is not a file.
pub const RESOLV_WARNING: &'static str = "The `/etc/resolv.conf` is not a file, we avoid replacing it. Under certain conditions this may mean that DNS does not work in the container.";

/// The warning given where the container's `hosts` is not a file.
pub const HOSTS_WARNING: &'static str = "The `/etc/hosts` is not a file, we avoid replacing it. Under certain conditions this may mean that DNS works badly in the container.";

/// The step for the name file `from` of the host, to be copied to `to`.
pub open spec fn name_file_step(
    looked: Option<bool>,
    from: &'static str,
    to: &'static str,
    warning: &'static str,
) -> NameFileStep {
    if replaceable(looked) {
        NameFileStep::Copy { from, to }
    } else {
        NameFileStep::Warn(warning)
    }
}

/// What putting back `resolv.conf` and then `hosts` does, where the looks at
/// the container's copies found `resolv` and `hosts`.
pub fn revert_steps(resolv: Option<bool>, hosts: Option<bool>) -> (r: Vec<NameFileStep>)
    ensures
        r@ == seq![
            name_file_step(resolv, "/etc/resolv.conf", "/vagga/root/etc/resolv.conf", RESOLV_WARNING),
            name_file_step(hosts, "/etc/hosts", "/vagga/root/etc/hosts", HOSTS_WARNING),
        ],
{
    let mut r: Vec<NameFileStep> = Vec::new();
    let resolv_ok = match resolv {
        None => true,
        Some(is_file) => is_file,
    };
    if resolv_ok {
        r.push(NameFileStep::Copy { from: "/etc/resolv.conf", to: "/vagga/root/etc/resolv.conf" });
    } else {
        r.push(NameFileStep::Warn(RESOLV_WARNING));
    }
    let hosts_ok = match hosts {
        None => true,
        Some(is_file) => is_file,
    };
    if hosts_ok {
        r.push(NameFileStep::Copy { from: "/etc/hosts", to: "/vagga/root/etc/hosts" });
    } else {
        r.push(NameFileStep::Warn(HOSTS_WARNING));
    }
    assert(r@ =~= seq![
        name_file_step(resolv, "/etc/resolv.conf", "/vagga/root/etc/resolv.conf", RESOLV_WARNING),
        name_file_step(hosts, "/etc/hosts", "/vagga/root/etc/hosts", HOSTS_WARNING),
    ]);
    r
}

/// The error of copying the host's name file `from`, where the copy failed
/// with `err`.
pub fn copy_error(from: &str, err: &str) -> (r: String)
    ensures
        r@ == "Error copying "@ + from@ + ": "@ + err@,
{
    let head = concat3("Error copying ", from, ": ");
    concat(head.as_str(), err)
}

} // verus!

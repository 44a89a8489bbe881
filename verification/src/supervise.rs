use vstd::prelude::*;
use crate::generic::SuperviseMode;

verus! {

/// The number of the signal that asks a process to terminate (Linux).
pub const SIGTERM: i32 = 15;

/// The number of the interrupt signal (Linux).
pub const SIGINT: i32 = 2;

/// The number of the quit signal (Linux).
pub const SIGQUIT: i32 = 3;

/// Whether the signal `sig`, received by the supervisor, stops the
/// supervised processes.
pub open spec fn stop_signal(sig: i32) -> bool {
    sig == SIGTERM || sig == SIGINT || sig == SIGQUIT
}

/// What the supervisor of a group of processes is told: a process of the
/// group has exited, or the supervisor got a signal.
#[derive(Debug)]
pub enum SuperviseEvent {
    Exit(String),
    Signal(i32),
}

/// What the supervisor does next: sends the signal to all processes and
/// fails (it then waits for all of them to exit); starts the process of the
/// given name again; or nothing.
#[derive(Debug)]
pub enum SuperviseAction {
    StopAll(i32),
    Restart(String),
    Nothing,
}

/// Whether the supervisor watches the events of its processes in `mode`;
/// otherwise it only waits for all of them to exit.
pub open spec fn watches(mode: SuperviseMode) -> bool {
    mode != SuperviseMode::WaitAll
}

/// Whether the supervisor watches the events of its processes in `mode`.
pub fn watches_events(mode: SuperviseMode) -> (r: bool)
    ensures
        r == watches(mode),
{
    match mode {
        SuperviseMode::WaitAll => false,
        _ => true,
    }
}

/// What the supervisor in `mode` (which watches events) does on the event
/// `ev`: a stop signal is passed on to all processes, which ends the
/// supervision; other signals are ignored; a process that exits stops all
/// the others with `SIGTERM` where the mode stops on failure, and is started
/// again where the mode restarts processes.
pub fn on_event(mode: SuperviseMode, ev: &SuperviseEvent) -> (r: SuperviseAction)
    requires
        watches(mode),
    ensures
        match *ev {
            SuperviseEvent::Signal(sig) => if stop_signal(sig) {
                r == SuperviseAction::StopAll(sig)
            } else {
                r == SuperviseAction::Nothing
            },
            SuperviseEvent::Exit(name) => if mode == SuperviseMode::StopOnFailure {
                r == SuperviseAction::StopAll(SIGTERM)
            } else {
                r matches SuperviseAction::Restart(n) && n@ == name@
            },
        },
{
    match ev {
        SuperviseEvent::Signal(sig) => {
            if *sig == SIGTERM || *sig == SIGINT || *sig == SIGQUIT {
                SuperviseAction::StopAll(*sig)
            } else {
                SuperviseAction::Nothing
            }
        },
        SuperviseEvent::Exit(name) => match mode {
            SuperviseMode::StopOnFailure => SuperviseAction::StopAll(SIGTERM),
            _ => SuperviseAction::Restart(String::from_str(name.as_str())),
        },
    }
}

/// What the supervisor does where a process of the group fails to start:
/// it stops all the others with `SIGTERM`, fails, and starts no more.
pub fn on_start_failure() -> (r: SuperviseAction)
    ensures
        r == SuperviseAction::StopAll(SIGTERM),
{
    SuperviseAction::StopAll(SIGTERM)
}

/// The message for a process of a supervising command whose `work-dir`
/// does not lie below the project root.
pub fn process_work_dir_error(name: &str) -> (r: String)
    ensures
        r@ == "The `work-dir` of "@ + name@ + " of must be relative to project root"@,
{
    crate::text::concat3("The `work-dir` of ", name, " of must be relative to project root")
}

} // verus!

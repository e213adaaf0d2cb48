//! Core decisions of a mod loader that finds the game process, starts it past
//! its launch interceptor, stages the loader payload and writes it into the
//! running game.
pub mod launcher;
pub mod payload;
pub mod remote;
pub mod target;
pub mod watcher;

use crate::target::TargetPathSet;
use crate::watcher::{DiscoveryEvent, ProcessWatcher, Timeout, WatchPhase, WatchSpec};
use vstd::prelude::*;

verus! {

/// Which tool is running.
#[derive(Clone, Copy, Debug, PartialEq, Eq, Structural)]
pub enum RunType {
    /// The resident watcher: polls every 2 s, never times out, and injects
    /// into every game process that starts.
    Watcher,
    /// The one-off injector: polls every second and gives up after 10 s.
    Injector,
}

/// What the system-wide single-instance lock reported at start.
#[derive(Clone, Copy, Debug, PartialEq, Eq, Structural)]
pub enum InstanceGuard {
    /// This process holds the lock.
    Acquired,
    /// Another instance holds it.
    HeldElsewhere,
}

/// The watch parameters of a tool.
pub open spec fn spec_for(run_type: RunType) -> WatchSpec {
    match run_type {
        RunType::Watcher => WatchSpec { polling_ms: 2000, timeout: Timeout::Never, oneshot: false },
        RunType::Injector => WatchSpec {
            polling_ms: 1000,
            timeout: Timeout::After { ms: 10000 },
            oneshot: true,
        },
    }
}

/// The watch parameters of a tool.
pub fn watch_spec(run_type: RunType) -> (r: WatchSpec)
    ensures
        r == spec_for(run_type),
        r.wf(),
{
    match run_type {
        RunType::Watcher => WatchSpec { polling_ms: 2000, timeout: Timeout::Never, oneshot: false },
        RunType::Injector => WatchSpec {
            polling_ms: 1000,
            timeout: Timeout::After { ms: 10000 },
            oneshot: true,
        },
    }
}

/// What a tool does once started.
#[derive(Debug)]
pub enum RunPlan {
    /// Another instance runs: leave quietly, doing nothing.
    Exit,
    /// Drive this watcher; show the tray icon where `tray` is set.
    Watch { watcher: ProcessWatcher, tray: bool },
}

/// The start of a tool: a second instance does no work, and the first gets a
/// watcher that has not started yet, with its tool's parameters and the
/// game's paths.
pub fn run(run_type: RunType, guard: InstanceGuard, targets: TargetPathSet) -> (r: RunPlan)
    ensures
        guard == InstanceGuard::HeldElsewhere <==> r is Exit,
        r matches RunPlan::Watch { watcher, tray } ==> {
            &&& watcher.wf()
            &&& watcher.spec == spec_for(run_type)
            &&& watcher.targets == targets
            &&& watcher.state.phase() == WatchPhase::Idle
            &&& tray == (run_type == RunType::Watcher)
        },
{
    if guard == InstanceGuard::HeldElsewhere {
        return RunPlan::Exit;
    }
    let spec = watch_spec(run_type);
    match ProcessWatcher::new(targets, spec.polling_ms, spec.timeout, spec.oneshot) {
        Some(watcher) => RunPlan::Watch { watcher, tray: run_type == RunType::Watcher },
        None => RunPlan::Exit,
    }
}

/// What a tool does with a discovery.
#[derive(Clone, Copy, Debug, PartialEq, Eq, Structural)]
pub enum Reaction {
    /// Inject the plugins into this process.
    Inject { pid: u32 },
    /// Tell the user that the game was not found, and stop.
    ReportNotFound,
}

/// A found process is injected into; an expiry is reported to the user.
pub fn react(event: DiscoveryEvent) -> (r: Reaction)
    ensures
        event matches DiscoveryEvent::Found { pid } ==> r == (Reaction::Inject { pid }),
        event is TimedOut ==> r == Reaction::ReportNotFound,
{
    match event {
        DiscoveryEvent::Found { pid } => Reaction::Inject { pid },
        DiscoveryEvent::TimedOut => Reaction::ReportNotFound,
    }
}

} // verus!

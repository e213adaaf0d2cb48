//! The launcher that starts the game as a debuggee, so that the launch
//! interceptor registered for its file name stands down, and then detaches.
use crate::target::{ascii_lower, binary_of, bytes_of, file_name, file_name_of, to_ascii_lower, GameBinary, TargetPathSet};
use vstd::prelude::*;

verus! {

/// Why the launcher could not start the game.
#[derive(Debug)]
pub enum LaunchError {
    /// No target path was given: the launcher was not started as a launcher.
    MissingTarget,
    /// The target argument has no file name.
    NoFileName,
    /// The target's file name is not one of the game's executables.
    UnrecognizedTarget,
    /// The system could not create the process.
    SpawnFailure { message: String },
    /// The debugger could not be detached from the new process.
    DetachFailure { message: String },
}

impl LaunchError {
    /// Whether the launcher was invoked wrongly, rather than failing at its
    /// work.
    pub fn is_usage_error(&self) -> (r: bool)
        ensures
            r == (self is MissingTarget || self is NoFileName || self is UnrecognizedTarget),
    {
        match self {
            LaunchError::MissingTarget | LaunchError::NoFileName | LaunchError::UnrecognizedTarget => true,
            _ => false,
        }
    }
}

/// What to start: the configured path of the build that was asked for, and
/// the arguments to hand on to it.
#[derive(Debug)]
pub struct LaunchPlan {
    pub binary: GameBinary,
    pub program: String,
    pub args: Vec<String>,
}

/// Whether `a` holds the strings of `b`, character for character.
pub open spec fn same_strings(a: Seq<String>, b: Seq<String>) -> bool {
    &&& a.len() == b.len()
    &&& forall|i: int| 0 <= i < a.len() ==> (#[trigger] a[i])@ == b[i]@
}

/// Decides what to start from the launcher's arguments (the program's own
/// path left out): the first is the game's path or file name, and the rest
/// are handed on. Nothing is started on an error.
pub fn autostart(args: &Vec<String>, targets: &TargetPathSet) -> (r: Result<LaunchPlan, LaunchError>)
    ensures
        args@.len() == 0 <==> r matches Err(LaunchError::MissingTarget),
        r matches Err(LaunchError::NoFileName) <==> (args@.len() > 0 && file_name(
            ascii_lower(bytes_of(args@[0]@)),
        ) is None),
        r matches Err(LaunchError::UnrecognizedTarget) <==> (args@.len() > 0 && file_name(
            ascii_lower(bytes_of(args@[0]@)),
        ) is Some && binary_of(bytes_of(args@[0]@)) is None),
        r is Ok <==> (args@.len() > 0 && binary_of(bytes_of(args@[0]@)) is Some),
        r matches Ok(plan) ==> {
            &&& binary_of(bytes_of(args@[0]@)) == Some(plan.binary)
            &&& plan.program@ == targets.path_of(plan.binary)
            &&& same_strings(plan.args@, args@.drop_first())
        },
        !(r matches Err(LaunchError::SpawnFailure { .. })),
        !(r matches Err(LaunchError::DetachFailure { .. })),
{
    if args.len() == 0 {
        return Err(LaunchError::MissingTarget);
    }
    let target = args[0].as_str();
    let lower = to_ascii_lower(target.as_bytes());
    if file_name_of(lower.as_slice()).is_none() {
        return Err(LaunchError::NoFileName);
    }
    let binary = match crate::target::binary_of_path(target) {
        Some(b) => b,
        None => return Err(LaunchError::UnrecognizedTarget),
    };
    let program = targets.path(binary);
    let mut rest: Vec<String> = Vec::new();
    let mut i: usize = 1;
    while i < args.len()
        invariant
            1 <= i <= args@.len(),
            same_strings(rest@, args@.subrange(1, i as int)),
        decreases args@.len() - i,
    {
        rest.push(args[i].clone());
        i = i + 1;
    }
    assert(args@.subrange(1, args@.len() as int) =~= args@.drop_first());
    Ok(LaunchPlan { binary, program, args: rest })
}

/// A game process created as a debuggee of the launcher.
#[derive(Clone, Copy, Debug, PartialEq, Eq, Structural)]
pub struct LaunchSession {
    pub pid: u32,
    pub debugger_attached: bool,
}

/// The session that follows the process creation's outcome: the new
/// process's identifier, or the system's error message.
pub fn on_spawned(result: Result<u32, String>) -> (r: Result<LaunchSession, LaunchError>)
    ensures
        result matches Ok(pid) ==> r == Ok::<LaunchSession, LaunchError>(
            LaunchSession { pid, debugger_attached: true },
        ),
        result matches Err(m) ==> r matches Err(LaunchError::SpawnFailure { message }) && message@
            == m@,
{
    match result {
        Ok(pid) => Ok(LaunchSession { pid, debugger_attached: true }),
        Err(message) => Err(LaunchError::SpawnFailure { message }),
    }
}

impl LaunchSession {
    /// The session after the detach call's outcome; on success the process
    /// runs on by itself and its identifier goes to the injector.
    pub fn detached(self, result: Result<(), String>) -> (r: Result<LaunchSession, LaunchError>)
        ensures
            result is Ok ==> r == Ok::<LaunchSession, LaunchError>(
                LaunchSession { pid: self.pid, debugger_attached: false },
            ),
            result matches Err(m) ==> r matches Err(LaunchError::DetachFailure { message })
                && message@ == m@,
    {
        match result {
            Ok(()) => Ok(LaunchSession { pid: self.pid, debugger_attached: false }),
            Err(message) => Err(LaunchError::DetachFailure { message }),
        }
    }
}

} // verus!

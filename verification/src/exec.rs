//! The command phase: spawning the trailing command, mapping how it (or its
//! spawn attempt) ended to the run's exit code, and the status message a
//! failed spawn is reported with.

use vstd::prelude::*;

verus! {

/// How a spawned child process ended.
#[derive(Copy, Clone, Debug, PartialEq, Eq, Structural)]
pub enum Termination {
    /// The process exited with the given exit code.
    Exited(u32),
    /// The process was killed by the signal with the given number.
    Signaled(u8),
    /// The process ended in a way the platform reports under neither of the
    /// two forms above.
    Other(i32),
    /// The process ended, but its status could not be determined.
    Undetermined,
}

/// Why a child process could not be spawned or awaited.
#[derive(Clone, Debug, PartialEq, Eq)]
pub enum SpawnFailure {
    /// The command was found but may not be executed.
    PermissionDenied,
    /// The command was not found on the executable search path.
    NotFound,
    /// Any other spawn or wait error, with the error's own text.
    Other { detail: String },
}

/// The exit code a termination maps to: a normal exit forwards its code, a
/// death by signal S maps to 128 + S, and anything else to 255.
pub open spec fn spec_exit_code_from(termination: Termination) -> i32 {
    match termination {
        Termination::Exited(code) => code as i32,
        Termination::Signaled(signal) => (128 + signal) as i32,
        Termination::Other(_) => 255,
        Termination::Undetermined => 255,
    }
}

/// The exit code a whole command phase maps to: a termination as
/// [`spec_exit_code_from`] says, a permission-denied spawn to 126, a
/// not-found spawn to 127, and any other spawn or wait error to 255.
pub open spec fn spec_command_exit_code(outcome: Result<Termination, SpawnFailure>) -> i32 {
    match outcome {
        Ok(termination) => spec_exit_code_from(termination),
        Err(SpawnFailure::PermissionDenied) => 126,
        Err(SpawnFailure::NotFound) => 127,
        Err(SpawnFailure::Other { .. }) => 255,
    }
}

/// Maps how a child ended to the exit code it stands for.
pub fn exit_code_from(exit_status: Termination) -> (code: i32)
    ensures
        code == spec_exit_code_from(exit_status),
{
    match exit_status {
        Termination::Exited(exit_code) => #[verifier::truncate] (exit_code as i32),
        Termination::Signaled(signal) => 128 + (signal as i32),
        _ => 255,
    }
}

/// Maps the outcome of a whole command phase — a termination or a spawn
/// failure — to the run's exit code.
pub fn process_popen_result(popen_result: &Result<Termination, SpawnFailure>) -> (code: i32)
    ensures
        code == spec_command_exit_code(*popen_result),
{
    match popen_result {
        Ok(exit_status) => exit_code_from(*exit_status),
        Err(SpawnFailure::PermissionDenied) => 126,
        Err(SpawnFailure::NotFound) => 127,
        Err(SpawnFailure::Other { .. }) => 255,
    }
}

/// The status message a failed spawn is reported with, naming the command:
/// permission denied and not-found each in their own words, anything else
/// with the error's own text.
pub open spec fn spec_spawn_failure_message(command: Seq<char>, failure: SpawnFailure) -> Seq<
    char,
> {
    match failure {
        SpawnFailure::PermissionDenied => "Command '"@ + command
            + "' could not be run: permission denied."@,
        SpawnFailure::NotFound => "Command '"@ + command + "' not found."@,
        SpawnFailure::Other { detail } => "Command '"@ + command
            + "' failed with unexpected error: "@ + detail@ + "."@,
    }
}

/// The status message a failed spawn is reported with.
pub fn spawn_failure_message(command: &str, failure: &SpawnFailure) -> (message: String)
    ensures
        message@ == spec_spawn_failure_message(command@, *failure),
{
    let mut message = String::from_str("Command '");
    message.append(command);
    match failure {
        SpawnFailure::PermissionDenied => {
            message.append("' could not be run: permission denied.");
        },
        SpawnFailure::NotFound => {
            message.append("' not found.");
        },
        SpawnFailure::Other { detail } => {
            message.append("' failed with unexpected error: ");
            message.append(detail.as_str());
            message.append(".");
        },
    }
    message
}

/// Relies on subprocess::Exec: `cmd(command).args(args).join()` resolves
/// `command` against the executable search path, spawns it with the standard
/// streams inherited, waits for it to end, and reports the termination or the
/// spawn error. What comes back depends on the machine, so nothing is
/// promised of it; the io::Error kind a spawn error carries is told apart
/// here, one arm per variant, and any other error keeps its text.
#[verifier::external_body]
fn spawn_and_join(command: &str, args: &Vec<String>) -> (outcome: Result<Termination, SpawnFailure>)
{
    match subprocess::Exec::cmd(command).args(args.as_slice()).join() {
        Ok(subprocess::ExitStatus::Exited(code)) => Ok(Termination::Exited(code)),
        Ok(subprocess::ExitStatus::Signaled(signal)) => Ok(Termination::Signaled(signal)),
        Ok(subprocess::ExitStatus::Other(raw)) => Ok(Termination::Other(raw)),
        Ok(subprocess::ExitStatus::Undetermined) => Ok(Termination::Undetermined),
        Err(subprocess::PopenError::IoError(error)) if error.kind()
            == std::io::ErrorKind::PermissionDenied => Err(SpawnFailure::PermissionDenied),
        Err(subprocess::PopenError::IoError(error)) if error.kind()
            == std::io::ErrorKind::NotFound => Err(SpawnFailure::NotFound),
        Err(error) => Err(SpawnFailure::Other { detail: format!("{}", error) }),
    }
}

/// Runs `command` with `args` and answers with the outcome — how the child
/// ended, or why it could not be spawned — together with the exit code that
/// outcome maps to under [`spec_command_exit_code`]. The caller reports a
/// spawn failure with [`spawn_failure_message`].
pub fn run_command(command: &str, args: &Vec<String>) -> (result: (
    i32,
    Result<Termination, SpawnFailure>,
))
    ensures
        result.0 == spec_command_exit_code(result.1),
{
    let outcome = spawn_and_join(command, args);
    let code = process_popen_result(&outcome);
    (code, outcome)
}

} // verus!

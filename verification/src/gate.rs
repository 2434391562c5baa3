//! Aggregation of per-target outcomes and the strict/lenient gating policy.

use vstd::prelude::*;

verus! {

use crate::exec::{run_command, spec_command_exit_code, SpawnFailure, Termination};

/// The trailing command: its name, resolved against the executable search
/// path, and its argument vector.
pub struct CommandSpec {
    /// The command to run.
    pub program: String,
    /// Its arguments, in order.
    pub args: Vec<String>,
}

/// The aggregate result of a run: `true` iff every target's wait succeeded.
/// An empty run is vacuously successful.
pub open spec fn spec_aggregate(results: Seq<bool>) -> bool {
    forall|i: int| 0 <= i < results.len() ==> results[i]
}

/// Reduces the per-target results to the aggregate result: the logical AND
/// over all of them, `true` for an empty list.
pub fn aggregate_outcomes(results: &Vec<bool>) -> (all_available: bool)
    ensures
        all_available == spec_aggregate(results@),
{
    let mut i: usize = 0;
    while i < results.len()
        invariant
            0 <= i <= results@.len(),
            forall|j: int| 0 <= j < i ==> results@[j],
        decreases results@.len() - i,
    {
        if !results[i] {
            return false;
        }
        i += 1;
    }
    true
}

/// Whether the trailing command is to run: it must have been given, and in
/// strict mode every target must have been reachable. In lenient mode a given
/// command runs regardless of the aggregate result.
pub open spec fn spec_should_run_command(aggregate: bool, strict: bool, has_command: bool) -> bool {
    has_command && (!strict || aggregate)
}

/// The exit code of a run in which no command runs: `0` when every target was
/// reachable, `1` otherwise.
pub open spec fn spec_baseline_exit_code(aggregate: bool) -> i32 {
    if aggregate {
        0
    } else {
        1
    }
}

/// The gating decision: whether the trailing command (if one was given) runs,
/// and the exit code of the run in case it does not.
pub fn gate_policy(aggregate: bool, strict: bool, has_command: bool) -> (decision: (bool, i32))
    ensures
        decision.0 == spec_should_run_command(aggregate, strict, has_command),
        decision.1 == spec_baseline_exit_code(aggregate),
{
    let should_run = has_command && (!strict || aggregate);
    let baseline: i32 = if aggregate {
        0
    } else {
        1
    };
    (should_run, baseline)
}

/// The command the positional tokens stand for: the first token names the
/// program, the rest are its arguments in order; no tokens, no command.
pub fn command_spec_of(tokens: &Vec<String>) -> (command: Option<CommandSpec>)
    ensures
        match command {
            None => tokens@.len() == 0,
            Some(spec) => {
                &&& tokens@.len() > 0
                &&& spec.program == tokens@[0]
                &&& spec.args@ == tokens@.subrange(1, tokens@.len() as int)
            },
        },
{
    if tokens.len() == 0 {
        return None;
    }
    let program = tokens[0].clone();
    let mut args: Vec<String> = Vec::new();
    let mut i: usize = 1;
    while i < tokens.len()
        invariant
            1 <= i <= tokens@.len(),
            args@ == tokens@.subrange(1, i as int),
        decreases tokens@.len() - i,
    {
        args.push(tokens[i].clone());
        proof {
            assert(args@ =~= tokens@.subrange(1, i + 1 as int));
        }
        i += 1;
    }
    Some(CommandSpec { program, args })
}

/// The whole phase after the waits have been joined: applies the gating
/// policy and, exactly when it says so, runs the trailing command. Without a
/// command run the result is the baseline exit code and no outcome; with one,
/// it is the command's outcome and the exit code that outcome maps to, so the
/// caller can report a failed spawn (see
/// [`crate::exec::spawn_failure_message`]).
pub fn run_gated_command(aggregate: bool, strict: bool, command: &Option<CommandSpec>) -> (result: (
    i32,
    Option<Result<Termination, SpawnFailure>>,
))
    ensures
        !spec_should_run_command(aggregate, strict, command is Some) ==> result == (
            spec_baseline_exit_code(aggregate),
            None::<Result<Termination, SpawnFailure>>,
        ),
        spec_should_run_command(aggregate, strict, command is Some) ==> {
            &&& result.1 matches Some(outcome)
            &&& result.0 == spec_command_exit_code(outcome)
        },
{
    let (should_run, baseline) = gate_policy(aggregate, strict, command.is_some());
    match (should_run, command) {
        (true, Some(spec)) => {
            let (code, outcome) = run_command(spec.program.as_str(), &spec.args);
            (code, Some(outcome))
        },
        _ => (baseline, None),
    }
}

} // verus!

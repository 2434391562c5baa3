//! The per-target wait: resolution and TCP-probe retry decisions against a
//! shared deadline, as a state machine.
//!
//! The surrounding driver owns the clock, the name resolution, the TCP
//! connects and the sleeps; this module owns every decision. The driver
//! reports each observation as a [`WaitEvent`] (carrying the elapsed time at
//! which it was made) and performs the [`WaitAction`] handed back, until the
//! action is [`WaitAction::Finish`].

use vstd::prelude::*;

verus! {

use crate::TimeoutSeconds;
use crate::status::{decimal, spec_decimal};

/// The fixed polling cadence between two attempts of the same phase.
pub const RETRY_INTERVAL_MILLIS: u64 = 500;

/// The wait budget of one target, shared by its resolution and probe phases.
#[derive(Clone, Copy, Debug, PartialEq, Eq, Structural)]
pub enum Deadline {
    /// No budget: the wait retries until it succeeds.
    Forever,
    /// The wait fails once the elapsed time reaches `millis`.
    Within { millis: u128 },
}

/// Why a wait ended in failure.
#[derive(Clone, Copy, Debug, PartialEq, Eq, Structural)]
pub enum WaitError {
    /// Name resolution still failed when the deadline was reached.
    Resolution,
    /// A connect attempt still failed when the deadline was reached.
    Connection,
    /// The budget was already spent before a connect could be attempted.
    DeadlineExpired,
}

/// The result of one target's wait.
#[derive(Clone, Copy, Debug, PartialEq, Eq, Structural)]
pub enum WaitOutcome {
    /// The target accepted a connection, `elapsed_millis` after the wait began.
    Available { elapsed_millis: u128 },
    /// The target never accepted one within the deadline.
    Failed { error: WaitError },
}

/// Where a wait currently stands.
#[derive(Clone, Copy, Debug, PartialEq, Eq, Structural)]
pub enum WaitPhase {
    /// The target's address is still being resolved.
    Resolving,
    /// The address is known; connects are being attempted.
    Probing,
    /// The wait is over.
    Done { outcome: WaitOutcome },
}

/// An observation the driver reports. Each carries the time elapsed since the
/// wait began, read immediately after the observed operation.
#[derive(Clone, Copy, Debug, PartialEq, Eq, Structural)]
pub enum WaitEvent {
    /// A resolution attempt finished; `ok` says whether it yielded an address.
    Resolved { ok: bool, elapsed_millis: u128 },
    /// The driver is about to attempt a connect and asks for its budget.
    ProbeTick { elapsed_millis: u128 },
    /// A connect attempt finished; `ok` says whether it reached the target.
    Connected { ok: bool, elapsed_millis: u128 },
}

/// What the driver must do next.
#[derive(Clone, Copy, Debug, PartialEq, Eq, Structural)]
pub enum WaitAction {
    /// Ask for a connect budget (report a `ProbeTick`).
    Probe,
    /// Sleep `millis`, then attempt resolution again.
    SleepThenResolve { millis: u64 },
    /// Sleep `millis`, then ask for a connect budget again.
    SleepThenProbe { millis: u64 },
    /// Attempt a connect with no per-attempt timeout.
    ConnectUnbounded,
    /// Attempt a connect bounded by `millis`, the budget that is left.
    ConnectFor { millis: u128 },
    /// The wait is over; report the outcome.
    Finish { outcome: WaitOutcome },
}

/// The deadline a timeout of `timeout_seconds` stands for: `0` means no
/// deadline at all, any other value a budget of that many seconds.
pub open spec fn spec_deadline_of(timeout_seconds: u64) -> Deadline {
    if timeout_seconds == 0 {
        Deadline::Forever
    } else {
        Deadline::Within { millis: (timeout_seconds * 1000) as u128 }
    }
}

/// Whether a deadline is already spent after `elapsed_millis`.
pub open spec fn spec_expired(deadline: Deadline, elapsed_millis: u128) -> bool {
    match deadline {
        Deadline::Forever => false,
        Deadline::Within { millis } => elapsed_millis >= millis,
    }
}

/// Which events a wait in `phase` can observe: resolution outcomes while
/// resolving, budget requests and connect outcomes while probing, and nothing
/// once it is done.
pub open spec fn event_fits(phase: WaitPhase, event: WaitEvent) -> bool {
    match (phase, event) {
        (WaitPhase::Resolving, WaitEvent::Resolved { .. }) => true,
        (WaitPhase::Probing, WaitEvent::ProbeTick { .. }) => true,
        (WaitPhase::Probing, WaitEvent::Connected { .. }) => true,
        _ => false,
    }
}

/// One step of the wait: from the deadline, the current phase and an observed
/// event to the next phase and the driver's next action.
///
/// - A successful resolution moves on to probing; a failed one retries after
///   the fixed interval until the deadline is spent, then the wait fails.
/// - A budget request answers with the time that is left (all of it when
///   there is no deadline); with none left the wait fails without an attempt.
/// - A successful connect ends the wait in success with the observed elapsed
///   time; a failed one retries after the fixed interval until the deadline
///   is spent, then the wait fails.
///
/// An event that does not fit the phase (see [`event_fits`]) leaves the phase
/// unchanged, and the action handed back reports a deadline failure; under
/// [`wait_for_service`]'s precondition that arm is never stepped.
pub open spec fn spec_wait_step(deadline: Deadline, phase: WaitPhase, event: WaitEvent) -> (
    WaitPhase,
    WaitAction,
) {
    match (phase, event) {
        (WaitPhase::Resolving, WaitEvent::Resolved { ok, elapsed_millis }) => {
            if ok {
                (WaitPhase::Probing, WaitAction::Probe)
            } else if spec_expired(deadline, elapsed_millis) {
                let outcome = WaitOutcome::Failed { error: WaitError::Resolution };
                (WaitPhase::Done { outcome }, WaitAction::Finish { outcome })
            } else {
                (WaitPhase::Resolving, WaitAction::SleepThenResolve { millis: RETRY_INTERVAL_MILLIS })
            }
        },
        (WaitPhase::Probing, WaitEvent::ProbeTick { elapsed_millis }) => {
            match deadline {
                Deadline::Forever => (WaitPhase::Probing, WaitAction::ConnectUnbounded),
                Deadline::Within { millis } => {
                    if elapsed_millis >= millis {
                        let outcome = WaitOutcome::Failed { error: WaitError::DeadlineExpired };
                        (WaitPhase::Done { outcome }, WaitAction::Finish { outcome })
                    } else {
                        (
                            WaitPhase::Probing,
                            WaitAction::ConnectFor { millis: (millis - elapsed_millis) as u128 },
                        )
                    }
                },
            }
        },
        (WaitPhase::Probing, WaitEvent::Connected { ok, elapsed_millis }) => {
            if ok {
                let outcome = WaitOutcome::Available { elapsed_millis };
                (WaitPhase::Done { outcome }, WaitAction::Finish { outcome })
            } else if spec_expired(deadline, elapsed_millis) {
                let outcome = WaitOutcome::Failed { error: WaitError::Connection };
                (WaitPhase::Done { outcome }, WaitAction::Finish { outcome })
            } else {
                (WaitPhase::Probing, WaitAction::SleepThenProbe { millis: RETRY_INTERVAL_MILLIS })
            }
        },
        _ => (phase, WaitAction::Finish { outcome: WaitOutcome::Failed { error: WaitError::DeadlineExpired } }),
    }
}

/// The wait for one target: its deadline and where it stands.
pub struct ServiceWaiter {
    /// The shared budget of the resolution and probe phases.
    pub deadline: Deadline,
    /// Where the wait stands; starts at `Resolving`.
    pub phase: WaitPhase,
}

impl ServiceWaiter {
    /// A fresh wait with the deadline that `timeout_seconds` stands for.
    pub fn new(timeout_seconds: TimeoutSeconds) -> (waiter: Self)
        ensures
            waiter.deadline == spec_deadline_of(timeout_seconds),
            waiter.phase == WaitPhase::Resolving,
    {
        let deadline = if timeout_seconds == 0 {
            Deadline::Forever
        } else {
            Deadline::Within { millis: (timeout_seconds as u128) * 1000 }
        };
        ServiceWaiter { deadline, phase: WaitPhase::Resolving }
    }

    /// Whether the wait started without a deadline (`timeout_seconds` was 0).
    pub fn is_unbounded(&self) -> (unbounded: bool)
        ensures
            unbounded == (self.deadline is Forever),
    {
        match self.deadline {
            Deadline::Forever => true,
            Deadline::Within { .. } => false,
        }
    }

    /// The outcome of a finished wait, `None` while it is still under way.
    pub fn outcome(&self) -> (outcome: Option<WaitOutcome>)
        ensures
            match self.phase {
                WaitPhase::Done { outcome: o } => outcome == Some(o),
                _ => outcome is None,
            },
    {
        match self.phase {
            WaitPhase::Done { outcome } => Some(outcome),
            _ => None,
        }
    }
}

/// Advances the wait for one service by one observed event and hands back the
/// action the driver must take, exactly as [`spec_wait_step`] lays down. The
/// driver performs the resolution attempts, the connects and the sleeps, and
/// reports each observation here together with the elapsed time.
pub fn wait_for_service(waiter: &mut ServiceWaiter, event: WaitEvent) -> (action: WaitAction)
    requires
        event_fits(old(waiter).phase, event),
    ensures
        final(waiter).deadline == old(waiter).deadline,
        (final(waiter).phase, action) == spec_wait_step(old(waiter).deadline, old(waiter).phase, event),
{
    let step = match (waiter.phase, event) {
        (WaitPhase::Resolving, WaitEvent::Resolved { ok, elapsed_millis }) => {
            if ok {
                (WaitPhase::Probing, WaitAction::Probe)
            } else if expired(&waiter.deadline, elapsed_millis) {
                let outcome = WaitOutcome::Failed { error: WaitError::Resolution };
                (WaitPhase::Done { outcome }, WaitAction::Finish { outcome })
            } else {
                (WaitPhase::Resolving, WaitAction::SleepThenResolve { millis: RETRY_INTERVAL_MILLIS })
            }
        },
        (WaitPhase::Probing, WaitEvent::ProbeTick { elapsed_millis }) => {
            match waiter.deadline {
                Deadline::Forever => (WaitPhase::Probing, WaitAction::ConnectUnbounded),
                Deadline::Within { millis } => {
                    if elapsed_millis >= millis {
                        let outcome = WaitOutcome::Failed { error: WaitError::DeadlineExpired };
                        (WaitPhase::Done { outcome }, WaitAction::Finish { outcome })
                    } else {
                        (WaitPhase::Probing, WaitAction::ConnectFor { millis: millis - elapsed_millis })
                    }
                },
            }
        },
        (WaitPhase::Probing, WaitEvent::Connected { ok, elapsed_millis }) => {
            if ok {
                let outcome = WaitOutcome::Available { elapsed_millis };
                (WaitPhase::Done { outcome }, WaitAction::Finish { outcome })
            } else if expired(&waiter.deadline, elapsed_millis) {
                let outcome = WaitOutcome::Failed { error: WaitError::Connection };
                (WaitPhase::Done { outcome }, WaitAction::Finish { outcome })
            } else {
                (WaitPhase::Probing, WaitAction::SleepThenProbe { millis: RETRY_INTERVAL_MILLIS })
            }
        },
        _ => {
            let outcome = WaitOutcome::Failed { error: WaitError::DeadlineExpired };
            (waiter.phase, WaitAction::Finish { outcome })
        },
    };
    waiter.phase = step.0;
    step.1
}

/// The elapsed time a success line reports, in tenths of a second: rounded to
/// the nearest tenth, but never less than one tenth.
pub open spec fn spec_displayed_tenths(elapsed_millis: u128) -> u128 {
    let rounded = elapsed_millis / 100 + if elapsed_millis % 100 >= 50 {
        1int
    } else {
        0int
    };
    if rounded < 1 {
        1
    } else {
        rounded as u128
    }
}

/// The elapsed time a success line reports, in tenths of a second.
pub fn displayed_tenths(elapsed_millis: u128) -> (tenths: u128)
    ensures
        tenths == spec_displayed_tenths(elapsed_millis),
        tenths >= 1,
{
    let carry: u128 = if elapsed_millis % 100 >= 50 {
        1
    } else {
        0
    };
    let rounded = elapsed_millis / 100 + carry;
    if rounded < 1 {
        1
    } else {
        rounded
    }
}

/// The message announcing one target's wait, before any work begins.
pub open spec fn spec_starting_message(host: Seq<char>, timeout_seconds: u64) -> Seq<char> {
    if timeout_seconds == 0 {
        "Waiting for "@ + host + " without a timeout..."@
    } else {
        "Waiting "@ + spec_decimal(timeout_seconds as int) + " seconds for "@ + host + "..."@
    }
}

/// The message announcing one target's wait, before any work begins.
pub fn starting_message(host: &str, timeout_seconds: TimeoutSeconds) -> (message: String)
    ensures
        message@ == spec_starting_message(host@, timeout_seconds),
{
    if timeout_seconds == 0 {
        let mut message = String::from_str("Waiting for ");
        message.append(host);
        message.append(" without a timeout...");
        message
    } else {
        let mut message = String::from_str("Waiting ");
        message.append(decimal(timeout_seconds as u128).as_str());
        message.append(" seconds for ");
        message.append(host);
        message.append("...");
        message
    }
}

/// The message reporting one target's success, with the elapsed time shown in
/// tenths of a second as [`spec_displayed_tenths`] lays down.
pub open spec fn spec_success_message(host: Seq<char>, elapsed_millis: u128) -> Seq<char> {
    let tenths = spec_displayed_tenths(elapsed_millis);
    host + " is available after "@ + spec_decimal((tenths / 10) as int) + "."@ + spec_decimal(
        (tenths % 10) as int,
    ) + " seconds."@
}

/// The message reporting one target's success.
pub fn success_message(host: &str, elapsed_millis: u128) -> (message: String)
    ensures
        message@ == spec_success_message(host@, elapsed_millis),
{
    let tenths = displayed_tenths(elapsed_millis);
    let mut message = String::from_str(host);
    message.append(" is available after ");
    message.append(decimal(tenths / 10).as_str());
    message.append(".");
    message.append(decimal(tenths % 10).as_str());
    message.append(" seconds.");
    message
}

/// The message reporting one target's failure, with the configured timeout
/// and the text of the terminal error.
pub open spec fn spec_failure_message(
    host: Seq<char>,
    timeout_seconds: u64,
    error_text: Seq<char>,
) -> Seq<char> {
    host + " timed out after waiting for "@ + spec_decimal(timeout_seconds as int)
        + " seconds ("@ + error_text + ")."@
}

/// The message reporting one target's failure.
pub fn failure_message(host: &str, timeout_seconds: TimeoutSeconds, error_text: &str) -> (message:
    String)
    ensures
        message@ == spec_failure_message(host@, timeout_seconds, error_text@),
{
    let mut message = String::from_str(host);
    message.append(" timed out after waiting for ");
    message.append(decimal(timeout_seconds as u128).as_str());
    message.append(" seconds (");
    message.append(error_text);
    message.append(").");
    message
}

/// Whether a wait in `phase` has ended in failure.
pub open spec fn spec_has_failed(phase: WaitPhase) -> bool {
    phase matches WaitPhase::Done { outcome: WaitOutcome::Failed { .. } }
}

/// The elapsed time an event carries.
pub open spec fn spec_event_elapsed(event: WaitEvent) -> u128 {
    match event {
        WaitEvent::Resolved { elapsed_millis, .. } => elapsed_millis,
        WaitEvent::ProbeTick { elapsed_millis } => elapsed_millis,
        WaitEvent::Connected { elapsed_millis, .. } => elapsed_millis,
    }
}

/// An event that reports no progress: a failed resolution, a failed connect,
/// or a budget request (which succeeds nothing by itself).
pub open spec fn spec_event_is_setback(event: WaitEvent) -> bool {
    match event {
        WaitEvent::Resolved { ok, .. } => !ok,
        WaitEvent::ProbeTick { .. } => true,
        WaitEvent::Connected { ok, .. } => !ok,
    }
}

/// With no deadline a wait never fails: whatever a step observes and however
/// much time has passed, it either succeeds or retries.
pub proof fn lemma_unbounded_wait_never_fails(phase: WaitPhase, event: WaitEvent)
    requires
        event_fits(phase, event),
    ensures
        !spec_has_failed(spec_wait_step(Deadline::Forever, phase, event).0),
{
}

/// With a deadline of `millis`, a step fails only once the observed elapsed
/// time has reached `millis` — never before — and a setback observed at or
/// past `millis` does end the wait in failure.
pub proof fn lemma_bounded_wait_fails_exactly_at_deadline(
    millis: u128,
    phase: WaitPhase,
    event: WaitEvent,
)
    requires
        event_fits(phase, event),
    ensures
        spec_has_failed(spec_wait_step(Deadline::Within { millis }, phase, event).0)
            ==> spec_event_elapsed(event) >= millis,
        spec_event_is_setback(event) && spec_event_elapsed(event) >= millis
            ==> spec_has_failed(spec_wait_step(Deadline::Within { millis }, phase, event).0),
{
}

/// Where a wait stands after observing a sequence of events, one step at a
/// time from the initial resolving phase.
pub open spec fn spec_wait_run(deadline: Deadline, events: Seq<WaitEvent>) -> WaitPhase
    decreases events.len(),
{
    if events.len() == 0 {
        WaitPhase::Resolving
    } else {
        spec_wait_step(deadline, spec_wait_run(deadline, events.drop_last()), events.last()).0
    }
}

/// With no deadline a wait never fails, however long the run: after any
/// sequence of observed events it has either succeeded or is still retrying.
pub proof fn lemma_unbounded_run_never_fails(events: Seq<WaitEvent>)
    ensures
        !spec_has_failed(spec_wait_run(Deadline::Forever, events)),
    decreases events.len(),
{
    if events.len() > 0 {
        lemma_unbounded_run_never_fails(events.drop_last());
        let before = spec_wait_run(Deadline::Forever, events.drop_last());
        if event_fits(before, events.last()) {
            lemma_unbounded_wait_never_fails(before, events.last());
        }
    }
}

/// With no deadline the machine never tells the driver to stop short of
/// success: the only `Finish` action it ever hands back carries a successful
/// outcome, and every other action asks for another attempt. A driver that
/// keeps performing the actions therefore succeeds as soon as a connect
/// attempt reaches a listener; that an attempt eventually does is the
/// driver's loop and the network's part, which no contract here can state.
pub proof fn lemma_unbounded_wait_keeps_trying(phase: WaitPhase, event: WaitEvent)
    requires
        event_fits(phase, event),
    ensures
        spec_wait_step(Deadline::Forever, phase, event).1 matches WaitAction::Finish { outcome }
            ==> outcome matches WaitOutcome::Available { .. },
{
}

/// With a deadline of `millis`, a wait that has failed observed some event at
/// or past the deadline: it never fails before its budget is spent.
pub proof fn lemma_bounded_run_fails_only_past_deadline(millis: u128, events: Seq<WaitEvent>)
    requires
        spec_has_failed(spec_wait_run(Deadline::Within { millis }, events)),
    ensures
        exists|k: int|
            0 <= k < events.len() && spec_event_elapsed(#[trigger] events[k]) >= millis,
    decreases events.len(),
{
    let before = spec_wait_run(Deadline::Within { millis }, events.drop_last());
    if spec_has_failed(before) {
        lemma_bounded_run_fails_only_past_deadline(millis, events.drop_last());
        let k = choose|k: int|
            0 <= k < events.drop_last().len() && spec_event_elapsed(
                #[trigger] events.drop_last()[k],
            ) >= millis;
        assert(events[k] == events.drop_last()[k]);
        assert(spec_event_elapsed(events[k]) >= millis);
    } else {
        if event_fits(before, events.last()) {
            lemma_bounded_wait_fails_exactly_at_deadline(millis, before, events.last());
        }
        assert(spec_event_elapsed(events[events.len() - 1]) >= millis);
    }
}

/// An already-reachable target succeeds as soon as a connect is attempted,
/// whatever the deadline and however much time has passed. Two runs of the
/// wait phase against such a target therefore both succeed, and their
/// outcomes differ in nothing but the recorded elapsed time.
pub proof fn lemma_reachable_wait_idempotent(
    deadline: Deadline,
    first_elapsed_millis: u128,
    second_elapsed_millis: u128,
)
    ensures
        spec_wait_step(
            deadline,
            WaitPhase::Probing,
            WaitEvent::Connected { ok: true, elapsed_millis: first_elapsed_millis },
        ).0 == (WaitPhase::Done {
            outcome: WaitOutcome::Available { elapsed_millis: first_elapsed_millis },
        }),
        spec_wait_step(
            deadline,
            WaitPhase::Probing,
            WaitEvent::Connected { ok: true, elapsed_millis: second_elapsed_millis },
        ).0 == (WaitPhase::Done {
            outcome: WaitOutcome::Available { elapsed_millis: second_elapsed_millis },
        }),
{
}

/// Whether a deadline is already spent after `elapsed_millis`.
pub fn expired(deadline: &Deadline, elapsed_millis: u128) -> (spent: bool)
    ensures
        spent == spec_expired(*deadline, elapsed_millis),
{
    match deadline {
        Deadline::Forever => false,
        Deadline::Within { millis } => elapsed_millis >= *millis,
    }
}

} // verus!

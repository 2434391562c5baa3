use rust_for_it::wait::{
    displayed_tenths, failure_message, starting_message, success_message, wait_for_service,
    Deadline, ServiceWaiter, WaitAction, WaitEvent, WaitOutcome, WaitPhase, RETRY_INTERVAL_MILLIS,
};

#[test]
fn test_deadline_from_timeout() {
    assert_eq!(ServiceWaiter::new(0).deadline, Deadline::Forever);
    assert_eq!(
        ServiceWaiter::new(1).deadline,
        Deadline::Within { millis: 1000 }
    );
    assert_eq!(
        ServiceWaiter::new(15).deadline,
        Deadline::Within { millis: 15000 }
    );
    assert!(ServiceWaiter::new(0).is_unbounded());
    assert!(!ServiceWaiter::new(15).is_unbounded());
}

#[test]
fn test_unbounded_wait_never_fails() {
    // With timeout 0 the wait retries forever: no event ends it in failure,
    // however much time has passed.
    let mut waiter = ServiceWaiter::new(0);
    for round in 0..100u128 {
        let action = wait_for_service(
            &mut waiter,
            WaitEvent::Resolved {
                ok: false,
                elapsed_millis: round * 86_400_000,
            },
        );
        assert_eq!(
            action,
            WaitAction::SleepThenResolve {
                millis: RETRY_INTERVAL_MILLIS
            }
        );
    }
    let action = wait_for_service(
        &mut waiter,
        WaitEvent::Resolved {
            ok: true,
            elapsed_millis: 10_000_000,
        },
    );
    assert_eq!(action, WaitAction::Probe);
    let action = wait_for_service(
        &mut waiter,
        WaitEvent::ProbeTick {
            elapsed_millis: 10_000_000,
        },
    );
    assert_eq!(action, WaitAction::ConnectUnbounded);
    for round in 0..100u128 {
        let action = wait_for_service(
            &mut waiter,
            WaitEvent::Connected {
                ok: false,
                elapsed_millis: 10_000_000 + round * 86_400_000,
            },
        );
        assert_eq!(
            action,
            WaitAction::SleepThenProbe {
                millis: RETRY_INTERVAL_MILLIS
            }
        );
    }
    assert_eq!(waiter.outcome(), None);
}

#[test]
fn test_bounded_wait_fails_exactly_at_deadline() {
    // Timeout 1 second, no listener ever: connect attempts keep failing. The
    // wait must not fail before 1000 ms have elapsed, and must fail once they
    // have.
    let mut waiter = ServiceWaiter::new(1);
    assert_eq!(
        wait_for_service(
            &mut waiter,
            WaitEvent::Resolved {
                ok: true,
                elapsed_millis: 3
            }
        ),
        WaitAction::Probe
    );
    assert_eq!(
        wait_for_service(&mut waiter, WaitEvent::ProbeTick { elapsed_millis: 3 }),
        WaitAction::ConnectFor { millis: 997 }
    );
    assert_eq!(
        wait_for_service(
            &mut waiter,
            WaitEvent::Connected {
                ok: false,
                elapsed_millis: 999
            }
        ),
        WaitAction::SleepThenProbe {
            millis: RETRY_INTERVAL_MILLIS
        }
    );
    assert_eq!(waiter.outcome(), None);
    assert_eq!(
        wait_for_service(
            &mut waiter,
            WaitEvent::Connected {
                ok: false,
                elapsed_millis: 1000
            }
        ),
        WaitAction::Finish {
            outcome: WaitOutcome::Failed {
                error: rust_for_it::wait::WaitError::Connection
            }
        }
    );
    assert_eq!(
        waiter.outcome(),
        Some(WaitOutcome::Failed {
            error: rust_for_it::wait::WaitError::Connection
        })
    );
}

#[test]
fn test_bounded_wait_budget_expiry() {
    // The budget check itself fails the wait once the deadline is spent.
    let mut waiter = ServiceWaiter::new(1);
    assert_eq!(
        wait_for_service(
            &mut waiter,
            WaitEvent::Resolved {
                ok: true,
                elapsed_millis: 400
            }
        ),
        WaitAction::Probe
    );
    assert_eq!(
        wait_for_service(&mut waiter, WaitEvent::ProbeTick { elapsed_millis: 400 }),
        WaitAction::ConnectFor { millis: 600 }
    );
    let mut again = ServiceWaiter::new(1);
    assert_eq!(
        wait_for_service(
            &mut again,
            WaitEvent::Resolved {
                ok: true,
                elapsed_millis: 1000
            }
        ),
        WaitAction::Probe
    );
    assert_eq!(
        wait_for_service(&mut again, WaitEvent::ProbeTick { elapsed_millis: 1000 }),
        WaitAction::Finish {
            outcome: WaitOutcome::Failed {
                error: rust_for_it::wait::WaitError::DeadlineExpired
            }
        }
    );
}

#[test]
fn test_resolution_shares_the_deadline() {
    // A target that spends its whole budget failing to resolve never gets a
    // connect attempt.
    let mut waiter = ServiceWaiter::new(1);
    assert_eq!(
        wait_for_service(
            &mut waiter,
            WaitEvent::Resolved {
                ok: false,
                elapsed_millis: 500
            }
        ),
        WaitAction::SleepThenResolve {
            millis: RETRY_INTERVAL_MILLIS
        }
    );
    assert_eq!(
        wait_for_service(
            &mut waiter,
            WaitEvent::Resolved {
                ok: false,
                elapsed_millis: 1001
            }
        ),
        WaitAction::Finish {
            outcome: WaitOutcome::Failed {
                error: rust_for_it::wait::WaitError::Resolution
            }
        }
    );
}

#[test]
fn test_reachable_wait_idempotent() {
    // Against an already-reachable target the wait phase succeeds every time
    // it is run; only the recorded elapsed time differs.
    let mut first = ServiceWaiter::new(15);
    assert_eq!(
        wait_for_service(
            &mut first,
            WaitEvent::Resolved {
                ok: true,
                elapsed_millis: 2
            }
        ),
        WaitAction::Probe
    );
    assert_eq!(
        wait_for_service(&mut first, WaitEvent::ProbeTick { elapsed_millis: 2 }),
        WaitAction::ConnectFor { millis: 14998 }
    );
    assert_eq!(
        wait_for_service(
            &mut first,
            WaitEvent::Connected {
                ok: true,
                elapsed_millis: 120
            }
        ),
        WaitAction::Finish {
            outcome: WaitOutcome::Available {
                elapsed_millis: 120
            }
        }
    );
    assert_eq!(first.phase, WaitPhase::Done {
        outcome: WaitOutcome::Available {
            elapsed_millis: 120
        }
    });

    let mut second = ServiceWaiter::new(15);
    assert_eq!(
        wait_for_service(
            &mut second,
            WaitEvent::Resolved {
                ok: true,
                elapsed_millis: 1
            }
        ),
        WaitAction::Probe
    );
    assert_eq!(
        wait_for_service(&mut second, WaitEvent::ProbeTick { elapsed_millis: 1 }),
        WaitAction::ConnectFor { millis: 14999 }
    );
    assert_eq!(
        wait_for_service(
            &mut second,
            WaitEvent::Connected {
                ok: true,
                elapsed_millis: 3
            }
        ),
        WaitAction::Finish {
            outcome: WaitOutcome::Available { elapsed_millis: 3 }
        }
    );
    assert_eq!(
        second.outcome(),
        Some(WaitOutcome::Available { elapsed_millis: 3 })
    );
}

#[test]
fn test_displayed_tenths() {
    // Rounded to the nearest tenth of a second, never below one tenth.
    assert_eq!(displayed_tenths(0), 1);
    assert_eq!(displayed_tenths(49), 1);
    assert_eq!(displayed_tenths(50), 1);
    assert_eq!(displayed_tenths(100), 1);
    assert_eq!(displayed_tenths(149), 1);
    assert_eq!(displayed_tenths(150), 2);
    assert_eq!(displayed_tenths(1000), 10);
    assert_eq!(displayed_tenths(1049), 10);
    assert_eq!(displayed_tenths(1050), 11);
}

#[test]
fn test_status_messages() {
    assert_eq!(
        starting_message("127.0.0.1:631", 0),
        "Waiting for 127.0.0.1:631 without a timeout..."
    );
    assert_eq!(
        starting_message("127.0.0.1:631", 1),
        "Waiting 1 seconds for 127.0.0.1:631..."
    );
    assert_eq!(
        starting_message("one:1", 123),
        "Waiting 123 seconds for one:1..."
    );
    assert_eq!(
        success_message("127.0.0.1:631", 40),
        "127.0.0.1:631 is available after 0.1 seconds."
    );
    assert_eq!(
        success_message("h:1", 1240),
        "h:1 is available after 1.2 seconds."
    );
    assert_eq!(
        failure_message("h:1", 2, "connection refused"),
        "h:1 timed out after waiting for 2 seconds (connection refused)."
    );
}

use secret_agent::error::Error;
use secret_agent::gateway::{error_for, Attempt, Decision, FailureKind, RetryPolicy, RetryState};

fn failed(kind: FailureKind, detail: &str) -> Attempt {
    Attempt::Failed { kind, detail: detail.to_string() }
}

/// Drives the policy over the outcomes of a collaborator, as a caller would,
/// and returns the last state and decision.
fn drive(policy: &RetryPolicy, outcomes: Vec<Attempt>) -> (RetryState, Option<Decision>, Vec<u64>) {
    let mut state = policy.start();
    let mut waits = Vec::new();
    let mut elapsed = 0u64;
    for outcome in outcomes {
        let (next, decision) = policy.decide(state, outcome, elapsed);
        state = next;
        match decision {
            Decision::RetryAfter(delay) => {
                waits.push(delay);
                elapsed += delay;
            }
            other => return (state, Some(other), waits),
        }
    }
    (state, None, waits)
}

#[test]
fn default_policy() {
    let policy = RetryPolicy::default();
    assert_eq!(policy.initial_delay_ms, 500);
    assert_eq!(policy.growth_percent, 150);
    assert_eq!(policy.max_delay_ms, 60_000);
    assert_eq!(policy.max_attempts, 5);
    assert_eq!(policy.max_elapsed_ms, 900_000);
    assert_eq!(policy.start(), RetryState { attempts: 0, next_delay_ms: 500 });
}

#[test]
fn two_failures_then_success_take_three_attempts() {
    let policy = RetryPolicy::default();
    let (state, decision, waits) = drive(
        &policy,
        vec![
            failed(FailureKind::Transport, "connection reset"),
            failed(FailureKind::Schema, "missing field"),
            Attempt::Succeeded("package A;".to_string()),
        ],
    );
    assert_eq!(decision, Some(Decision::Done("package A;".to_string())));
    assert_eq!(state.attempts, 3);
    assert_eq!(waits, vec![500, 750]);
}

#[test]
fn persistent_failure_surfaces_the_last_error() {
    let policy = RetryPolicy::default();
    let outcomes = vec![
        failed(FailureKind::Transport, "first"),
        failed(FailureKind::Transport, "second"),
        failed(FailureKind::Schema, "third"),
        failed(FailureKind::Transport, "fourth"),
        failed(FailureKind::Schema, "fifth"),
        failed(FailureKind::Transport, "never made"),
    ];
    let (state, decision, waits) = drive(&policy, outcomes);
    assert_eq!(state.attempts, 5);
    assert_eq!(waits, vec![500, 750, 1125, 1687]);
    assert_eq!(
        decision,
        Some(Decision::GiveUp(Error::ParseError("fifth".to_string())))
    );
    let transport = vec![
        failed(FailureKind::Transport, "a"),
        failed(FailureKind::Transport, "b"),
    ];
    let strict = RetryPolicy { max_attempts: 2, ..policy };
    let (state, decision, _) = drive(&strict, transport);
    assert_eq!(state.attempts, 2);
    assert_eq!(decision, Some(Decision::GiveUp(Error::AIError("b".to_string()))));
}

#[test]
fn the_time_budget_ends_a_request() {
    let policy = RetryPolicy { max_elapsed_ms: 1_000, ..RetryPolicy::default() };
    let state = policy.start();
    let (next, decision) = policy.decide(state, failed(FailureKind::Transport, "slow"), 500);
    assert_eq!(decision, Decision::RetryAfter(500));
    assert_eq!(next, RetryState { attempts: 1, next_delay_ms: 750 });
    let (last, decision) = policy.decide(next, failed(FailureKind::Transport, "slower"), 251);
    assert_eq!(decision, Decision::GiveUp(Error::AIError("slower".to_string())));
    assert_eq!(last.attempts, 2);
    let (_, decision) = policy.decide(next, failed(FailureKind::Transport, "ok"), 250);
    assert_eq!(decision, Decision::RetryAfter(750));
    let (_, decision) = policy.decide(state, failed(FailureKind::Schema, "late"), u64::MAX);
    assert_eq!(decision, Decision::GiveUp(Error::ParseError("late".to_string())));
}

#[test]
fn delays_grow_up_to_the_longest() {
    let policy = RetryPolicy::default();
    assert_eq!(policy.next_delay(500), 750);
    assert_eq!(policy.next_delay(1), 1);
    assert_eq!(policy.next_delay(0), 0);
    assert_eq!(policy.next_delay(40_000), 60_000);
    assert_eq!(policy.next_delay(39_999), 59_998);
    assert_eq!(policy.next_delay(u64::MAX), 60_000);
    let huge = RetryPolicy { growth_percent: u32::MAX, max_delay_ms: u64::MAX, ..policy };
    assert_eq!(huge.next_delay(u64::MAX), u64::MAX);
    let short = RetryPolicy { initial_delay_ms: 100, max_delay_ms: 50, ..policy };
    assert_eq!(short.start().next_delay_ms, 50);
}

#[test]
fn no_allowed_attempt_gives_up_after_the_first() {
    let policy = RetryPolicy { max_attempts: 0, ..RetryPolicy::default() };
    let (state, decision) =
        policy.decide(policy.start(), failed(FailureKind::Transport, "x"), 0);
    assert_eq!(state.attempts, 1);
    assert_eq!(decision, Decision::GiveUp(Error::AIError("x".to_string())));
    let worn = RetryState { attempts: u32::MAX, next_delay_ms: 1 };
    let (state, decision) = policy.decide(worn, Attempt::Succeeded("t".to_string()), 0);
    assert_eq!(state.attempts, u32::MAX);
    assert_eq!(decision, Decision::Done("t".to_string()));
}

#[test]
fn failure_kinds_map_to_their_errors() {
    assert_eq!(
        error_for(FailureKind::Transport, "t".to_string()),
        Error::AIError("t".to_string())
    );
    assert_eq!(
        error_for(FailureKind::Schema, "s".to_string()),
        Error::ParseError("s".to_string())
    );
}

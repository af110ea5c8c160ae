//! The retry policy of the inference gateway. A request to the
//! text-generation service is attempted, and after each failure the policy
//! decides whether to wait and try again or to give up. The caller performs
//! the requests and the waits; the decisions are made here.
use crate::error::{Error, ErrorView};
use vstd::prelude::*;

verus! {

/// How a request is retried: the delays grow from `initial_delay_ms` by
/// `growth_percent` per cent after each failure, up to `max_delay_ms`, and
/// the request is given up after `max_attempts` attempts, or when the next
/// wait would end later than `max_elapsed_ms` after the first attempt began.
#[derive(Debug, Clone, Copy, PartialEq, Eq, Structural)]
pub struct RetryPolicy {
    pub initial_delay_ms: u64,
    pub growth_percent: u32,
    pub max_delay_ms: u64,
    pub max_attempts: u32,
    pub max_elapsed_ms: u64,
}

impl Default for RetryPolicy {
    /// Half a second at first, half as much again after each failure, a
    /// minute at most; five attempts within a quarter of an hour.
    fn default() -> (r: RetryPolicy)
        ensures
            r == (RetryPolicy {
                initial_delay_ms: 500,
                growth_percent: 150,
                max_delay_ms: 60_000,
                max_attempts: 5,
                max_elapsed_ms: 900_000,
            }),
    {
        RetryPolicy {
            initial_delay_ms: 500,
            growth_percent: 150,
            max_delay_ms: 60_000,
            max_attempts: 5,
            max_elapsed_ms: 900_000,
        }
    }
}

/// Why an attempt failed.
#[derive(Debug, Clone, Copy, PartialEq, Eq, Structural)]
pub enum FailureKind {
    /// The service could not be reached or refused the request.
    Transport,
    /// The response arrived but could not be decoded into the expected shape.
    Schema,
}

/// What one attempt came to.
#[derive(Debug, PartialEq, Eq)]
pub enum Attempt {
    Succeeded(String),
    Failed { kind: FailureKind, detail: String },
}

/// The mathematical value of an [`Attempt`].
pub enum AttemptView {
    Succeeded(Seq<char>),
    Failed { kind: FailureKind, detail: Seq<char> },
}

impl View for Attempt {
    type V = AttemptView;

    open spec fn view(&self) -> AttemptView {
        match self {
            Attempt::Succeeded(text) => AttemptView::Succeeded(text@),
            Attempt::Failed { kind, detail } => AttemptView::Failed { kind: *kind, detail: detail@ },
        }
    }
}

/// Where a request stands: how many attempts were made, and how long to
/// wait before the next one.
#[derive(Debug, Clone, Copy, PartialEq, Eq, Structural)]
pub struct RetryState {
    pub attempts: u32,
    pub next_delay_ms: u64,
}

/// What to do after an attempt.
#[derive(Debug, PartialEq, Eq)]
pub enum Decision {
    /// The request succeeded with this text.
    Done(String),
    /// Wait this many milliseconds, then attempt again.
    RetryAfter(u64),
    /// The budget is spent: the request failed for good with this error.
    GiveUp(Error),
}

/// The mathematical value of a [`Decision`].
pub enum DecisionView {
    Done(Seq<char>),
    RetryAfter(u64),
    GiveUp(ErrorView),
}

impl View for Decision {
    type V = DecisionView;

    open spec fn view(&self) -> DecisionView {
        match self {
            Decision::Done(text) => DecisionView::Done(text@),
            Decision::RetryAfter(delay) => DecisionView::RetryAfter(*delay),
            Decision::GiveUp(error) => DecisionView::GiveUp(error@),
        }
    }
}

/// The error that a failure of the given kind surfaces as: a service error
/// for a transport failure, a parse error for a schema failure.
pub open spec fn failure_error(kind: FailureKind, detail: Seq<char>) -> ErrorView {
    match kind {
        FailureKind::Transport => ErrorView::AIError(detail),
        FailureKind::Schema => ErrorView::ParseError(detail),
    }
}

/// The delay that follows `delay_ms`: grown by the policy's percentage,
/// capped at the policy's longest delay.
pub open spec fn grown_delay(policy: RetryPolicy, delay_ms: u64) -> u64 {
    let grown = delay_ms as int * policy.growth_percent as int / 100;
    if grown < policy.max_delay_ms {
        grown as u64
    } else {
        policy.max_delay_ms
    }
}

/// The state before the first attempt.
pub open spec fn initial_state(policy: RetryPolicy) -> RetryState {
    RetryState {
        attempts: 0,
        next_delay_ms: if policy.initial_delay_ms < policy.max_delay_ms {
            policy.initial_delay_ms
        } else {
            policy.max_delay_ms
        },
    }
}

/// The number of attempts made once one more is counted; the count stops at
/// the largest number it can hold.
pub open spec fn attempts_after(state: RetryState) -> u32 {
    if state.attempts < u32::MAX {
        (state.attempts + 1) as u32
    } else {
        state.attempts
    }
}

/// Whether another attempt is within the budget after a failure: fewer than
/// the allowed attempts were made, and the wait ends within the allowed time.
pub open spec fn may_retry(policy: RetryPolicy, state: RetryState, elapsed_ms: u64) -> bool {
    &&& attempts_after(state) < policy.max_attempts
    &&& elapsed_ms + state.next_delay_ms <= policy.max_elapsed_ms
}

/// The state and the decision after an attempt that ended `elapsed_ms`
/// after the first attempt began.
pub open spec fn step(
    policy: RetryPolicy,
    state: RetryState,
    attempt: AttemptView,
    elapsed_ms: u64,
) -> (RetryState, DecisionView) {
    let counted = RetryState { attempts: attempts_after(state), next_delay_ms: state.next_delay_ms };
    match attempt {
        AttemptView::Succeeded(text) => (counted, DecisionView::Done(text)),
        AttemptView::Failed { kind, detail } => if may_retry(policy, state, elapsed_ms) {
            (
                RetryState {
                    attempts: attempts_after(state),
                    next_delay_ms: grown_delay(policy, state.next_delay_ms),
                },
                DecisionView::RetryAfter(state.next_delay_ms),
            )
        } else {
            (counted, DecisionView::GiveUp(failure_error(kind, detail)))
        },
    }
}

/// Whether `decision` ends the request.
pub open spec fn is_final(decision: DecisionView) -> bool {
    !(decision is RetryAfter)
}

/// The error that a failure of the given kind surfaces as.
pub fn error_for(kind: FailureKind, detail: String) -> (r: Error)
    ensures
        r@ == failure_error(kind, detail@),
{
    match kind {
        FailureKind::Transport => Error::AIError(detail),
        FailureKind::Schema => Error::ParseError(detail),
    }
}

impl RetryPolicy {
    /// The delay that follows `delay_ms`.
    pub fn next_delay(&self, delay_ms: u64) -> (r: u64)
        ensures
            r == grown_delay(*self, delay_ms),
            r <= self.max_delay_ms,
    {
        assert(delay_ms as int * self.growth_percent as int <= u64::MAX as int * u32::MAX as int)
            by (nonlinear_arith)
            requires
                0 <= delay_ms as int <= u64::MAX as int,
                0 <= self.growth_percent as int <= u32::MAX as int,
        ;
        let product: u128 = (delay_ms as u128) * (self.growth_percent as u128);
        let grown: u128 = product / 100;
        if grown < self.max_delay_ms as u128 {
            grown as u64
        } else {
            self.max_delay_ms
        }
    }

    /// The state before the first attempt.
    pub fn start(&self) -> (r: RetryState)
        ensures
            r == initial_state(*self),
    {
        RetryState {
            attempts: 0,
            next_delay_ms: if self.initial_delay_ms < self.max_delay_ms {
                self.initial_delay_ms
            } else {
                self.max_delay_ms
            },
        }
    }

    /// Counts the attempt and decides what follows it. A success ends the
    /// request. A failure is retried after the current delay while the
    /// budget allows, whatever its kind; once the budget is spent the
    /// failure is surfaced as the error of its own kind, with its own detail.
    pub fn decide(&self, state: RetryState, attempt: Attempt, elapsed_ms: u64) -> (r: (
        RetryState,
        Decision,
    ))
        ensures
            (r.0, r.1@) == step(*self, state, attempt@, elapsed_ms),
    {
        let attempts = state.attempts.saturating_add(1);
        match attempt {
            Attempt::Succeeded(text) => (
                RetryState { attempts, next_delay_ms: state.next_delay_ms },
                Decision::Done(text),
            ),
            Attempt::Failed { kind, detail } => {
                let in_time = elapsed_ms <= self.max_elapsed_ms && state.next_delay_ms
                    <= self.max_elapsed_ms - elapsed_ms;
                if attempts < self.max_attempts && in_time {
                    (
                        RetryState { attempts, next_delay_ms: self.next_delay(state.next_delay_ms) },
                        Decision::RetryAfter(state.next_delay_ms),
                    )
                } else {
                    (
                        RetryState { attempts, next_delay_ms: state.next_delay_ms },
                        Decision::GiveUp(error_for(kind, detail)),
                    )
                }
            },
        }
    }
}

/// One attempt as the caller saw it: what it came to, and how long after
/// the first attempt began it ended.
pub struct Observed {
    pub attempt: AttemptView,
    pub elapsed_ms: u64,
}

/// Where a request stands after a series of attempts, and the decision that
/// ended it, if one did.
pub struct RunView {
    pub state: RetryState,
    pub decision: Option<DecisionView>,
}

/// The course of a request from `state` on, when its attempts come out as
/// `observed`, one after the other, until a decision ends it.
pub open spec fn run(policy: RetryPolicy, state: RetryState, observed: Seq<Observed>) -> RunView
    decreases observed.len(),
{
    if observed.len() == 0 {
        RunView { state, decision: None }
    } else {
        let (next, decision) = step(policy, state, observed[0].attempt, observed[0].elapsed_ms);
        if decision is RetryAfter {
            run(policy, next, observed.drop_first())
        } else {
            RunView { state: next, decision: Some(decision) }
        }
    }
}

/// The delay before the retry that follows the failure of attempt `n`,
/// counted from zero.
pub open spec fn delay_after(policy: RetryPolicy, n: nat) -> u64
    decreases n,
{
    if n == 0 {
        initial_state(policy).next_delay_ms
    } else {
        grown_delay(policy, delay_after(policy, (n - 1) as nat))
    }
}

proof fn lemma_run_failing(policy: RetryPolicy, state: RetryState, observed: Seq<Observed>)
    requires
        observed.len() >= 1,
        state.attempts < u32::MAX,
        state.attempts + observed.len() >= policy.max_attempts,
        forall|i: int| 0 <= i < observed.len() ==> (#[trigger] observed[i]).attempt is Failed,
    ensures
        ({
            let out = run(policy, state, observed);
            let last = out.state.attempts - state.attempts - 1;
            &&& state.attempts < out.state.attempts
            &&& out.state.attempts <= policy.max_attempts || out.state.attempts == state.attempts
                + 1
            &&& 0 <= last < observed.len()
            &&& out.decision == Some(
                DecisionView::GiveUp(
                    failure_error(observed[last].attempt->kind, observed[last].attempt->detail),
                ),
            )
        }),
    decreases observed.len(),
{
    let (next, decision) = step(policy, state, observed[0].attempt, observed[0].elapsed_ms);
    if decision is RetryAfter {
        let rest = observed.drop_first();
        assert forall|i: int| 0 <= i < rest.len() implies (#[trigger] rest[i]).attempt is Failed by {
            assert(rest[i] == observed[i + 1]);
        }
        lemma_run_failing(policy, next, rest);
        let out = run(policy, next, rest);
        assert(rest[out.state.attempts - next.attempts - 1] == observed[out.state.attempts
            - state.attempts - 1]);
    }
}

/// A request whose every attempt fails is given up: after the allowed
/// number of attempts at the latest (after the first, where none is
/// allowed), and with the error of the last attempt that was made, of its
/// kind and with its detail.
pub proof fn lemma_persistent_failure_gives_up(policy: RetryPolicy, observed: Seq<Observed>)
    requires
        observed.len() >= 1,
        observed.len() >= policy.max_attempts,
        forall|i: int| 0 <= i < observed.len() ==> (#[trigger] observed[i]).attempt is Failed,
    ensures
        ({
            let out = run(policy, initial_state(policy), observed);
            let last = out.state.attempts - 1;
            &&& 1 <= out.state.attempts
            &&& out.state.attempts <= policy.max_attempts || out.state.attempts == 1
            &&& last < observed.len()
            &&& out.decision == Some(
                DecisionView::GiveUp(
                    failure_error(observed[last].attempt->kind, observed[last].attempt->detail),
                ),
            )
        }),
{
    lemma_run_failing(policy, initial_state(policy), observed);
}

proof fn lemma_run_recovering(
    policy: RetryPolicy,
    state: RetryState,
    observed: Seq<Observed>,
    made: nat,
)
    requires
        observed.len() >= 1,
        state.attempts == made,
        state.next_delay_ms == delay_after(policy, made),
        made + observed.len() <= policy.max_attempts,
        observed.last().attempt is Succeeded,
        forall|i: int|
            0 <= i < observed.len() - 1 ==> {
                &&& (#[trigger] observed[i]).attempt is Failed
                &&& observed[i].elapsed_ms + delay_after(policy, (made + i) as nat)
                    <= policy.max_elapsed_ms
            },
    ensures
        run(policy, state, observed) == (RunView {
            state: RetryState {
                attempts: (made + observed.len()) as u32,
                next_delay_ms: delay_after(policy, (made + observed.len() - 1) as nat),
            },
            decision: Some(DecisionView::Done(observed.last().attempt->Succeeded_0)),
        }),
    decreases observed.len(),
{
    if observed.len() > 1 {
        let (next, decision) = step(policy, state, observed[0].attempt, observed[0].elapsed_ms);
        let rest = observed.drop_first();
        assert(observed[0].attempt is Failed);
        assert(decision is RetryAfter);
        assert(rest.last() == observed.last());
        assert forall|i: int| 0 <= i < rest.len() - 1 implies {
            &&& (#[trigger] rest[i]).attempt is Failed
            &&& rest[i].elapsed_ms + delay_after(policy, (made + 1 + i) as nat)
                <= policy.max_elapsed_ms
        } by {
            assert(rest[i] == observed[i + 1]);
        }
        lemma_run_recovering(policy, next, rest, made + 1);
    } else {
        assert(observed[0] == observed.last());
    }
}

/// A request that fails some times and then succeeds ends in success, with
/// every attempt counted, the successful one included: provided that the
/// attempts are within the allowed number and each wait ended within the
/// allowed time.
pub proof fn lemma_success_after_failures(policy: RetryPolicy, observed: Seq<Observed>)
    requires
        1 <= observed.len() <= policy.max_attempts,
        observed.last().attempt is Succeeded,
        forall|i: int|
            0 <= i < observed.len() - 1 ==> {
                &&& (#[trigger] observed[i]).attempt is Failed
                &&& observed[i].elapsed_ms + delay_after(policy, i as nat) <= policy.max_elapsed_ms
            },
    ensures
        run(policy, initial_state(policy), observed).decision == Some(
            DecisionView::Done(observed.last().attempt->Succeeded_0),
        ),
        run(policy, initial_state(policy), observed).state.attempts == observed.len(),
{
    lemma_run_recovering(policy, initial_state(policy), observed, 0);
}

} // verus!

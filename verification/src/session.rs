//! A specification-level model of one retry session.
//!
//! [`steps`] replays the controller's loop on ghost state: starting from a
//! delay generator, an operation, a condition and an optional time budget,
//! it applies [`step`] — one attempt together with the checks and the sleep
//! that follow a failure — a given number of times. The verified controller
//! ([`crate::Retry::run`]) promises that, for deterministic collaborators,
//! its observable behavior equals some prefix of this replay; the session
//! laws below then pin down how whole sessions end.
//!
//! Within one session the checks run in a fixed order: a failure first
//! meets the budget check, then the retry condition, then the delay lookup,
//! then the pre-sleep budget check; only then does the session sleep. The
//! condition runs before the delay lookup, so a non-retryable error never
//! advances the generator.

use vstd::prelude::*;
use crate::backoff::Backoff;
use crate::operation::Condition;
use crate::operation::Operation;
use crate::sleep::clock_add;

verus! {

/// The ghost state of a retry session after some number of attempts.
pub struct RunState<T, E> {
    /// Attempts made so far.
    pub attempts: nat,
    /// Delays pulled from the generator so far.
    pub pulls: nat,
    /// The sleeper's clock: the session started at `t0` and this advances
    /// (saturating) by each slept duration.
    pub clock: u64,
    /// The durations slept so far, oldest first.
    pub slept: Seq<u64>,
    /// The session's result once it has stopped.
    pub done: Option<Result<T, E>>,
}

/// One iteration of the retry loop, replayed on ghost state: make an
/// attempt; on success stop with the value; on failure stop with the error
/// if the budget is already spent, the error is not retryable, the
/// generator is exhausted, or the next delay would overrun the budget;
/// otherwise sleep that delay and continue. A session that has stopped
/// stays stopped.
pub open spec fn step<T, E, B: Backoff, O: Operation<T, E>, C: Condition<E>>(
    gen0: B,
    op0: O,
    cond: C,
    budget: Option<u64>,
    t0: u64,
    s: RunState<T, E>,
) -> RunState<T, E> {
    if s.done is Some {
        s
    } else {
        match op0.outcome(op0.calls() + s.attempts) {
            Ok(v) => RunState { attempts: s.attempts + 1, done: Some(Ok(v)), ..s },
            Err(e) => if budget matches Some(b) && s.clock - t0 >= b {
                RunState { attempts: s.attempts + 1, done: Some(Err(e)), ..s }
            } else if !cond.retryable(&e) {
                RunState { attempts: s.attempts + 1, done: Some(Err(e)), ..s }
            } else {
                match gen0.nominal(s.pulls) {
                    None => RunState {
                        attempts: s.attempts + 1,
                        pulls: s.pulls + 1,
                        done: Some(Err(e)),
                        ..s
                    },
                    Some(d) => if budget matches Some(b) && s.clock - t0 + d > b {
                        RunState {
                            attempts: s.attempts + 1,
                            pulls: s.pulls + 1,
                            done: Some(Err(e)),
                            ..s
                        }
                    } else {
                        RunState {
                            attempts: s.attempts + 1,
                            pulls: s.pulls + 1,
                            clock: clock_add(s.clock, d),
                            slept: s.slept.push(d),
                            done: None,
                        }
                    },
                }
            },
        }
    }
}

/// The session state after `n` iterations of [`step`], starting with no
/// attempts made and the clock at `t0`.
pub open spec fn steps<T, E, B: Backoff, O: Operation<T, E>, C: Condition<E>>(
    gen0: B,
    op0: O,
    cond: C,
    budget: Option<u64>,
    t0: u64,
    n: nat,
) -> RunState<T, E>
    decreases n,
{
    if n == 0 {
        RunState { attempts: 0, pulls: 0, clock: t0, slept: Seq::empty(), done: None }
    } else {
        step(gen0, op0, cond, budget, t0, steps(gen0, op0, cond, budget, t0, (n - 1) as nat))
    }
}

/// A stopped session never changes again: the replay's outcome is the same
/// at every later length, so the session's end is well defined.
pub proof fn lemma_steps_absorb<T, E, B: Backoff, O: Operation<T, E>, C: Condition<E>>(
    gen0: B,
    op0: O,
    cond: C,
    budget: Option<u64>,
    t0: u64,
    n: nat,
    m: nat,
)
    requires
        n <= m,
        steps(gen0, op0, cond, budget, t0, n).done is Some,
    ensures
        steps(gen0, op0, cond, budget, t0, m) == steps(gen0, op0, cond, budget, t0, n),
    decreases m,
{
    if n < m {
        lemma_steps_absorb(gen0, op0, cond, budget, t0, n, (m - 1) as nat);
    }
}

/// Law: a session's end is deterministic: any two replay lengths at which
/// it has stopped show the same state, result included.
pub proof fn lemma_session_outcome_unique<T, E, B: Backoff, O: Operation<T, E>, C: Condition<E>>(
    gen0: B,
    op0: O,
    cond: C,
    budget: Option<u64>,
    t0: u64,
    n1: nat,
    n2: nat,
)
    requires
        steps(gen0, op0, cond, budget, t0, n1).done is Some,
        steps(gen0, op0, cond, budget, t0, n2).done is Some,
    ensures
        steps(gen0, op0, cond, budget, t0, n1) == steps(gen0, op0, cond, budget, t0, n2),
{
    if n1 <= n2 {
        lemma_steps_absorb(gen0, op0, cond, budget, t0, n1, n2);
    } else {
        lemma_steps_absorb(gen0, op0, cond, budget, t0, n2, n1);
    }
}

/// Whether the session is certain to stop by its `k`-th attempt (counted
/// from zero), whatever the budget: that attempt succeeds, or fails with a
/// non-retryable error, or finds the generator exhausted.
pub open spec fn halts_at<T, E, B: Backoff, O: Operation<T, E>, C: Condition<E>>(
    gen: B,
    op: O,
    cond: C,
    k: nat,
) -> bool {
    ||| op.outcome(op.calls() + k) is Ok
    ||| (op.outcome(op.calls() + k) matches Err(e) && !cond.retryable(&e))
    ||| gen.nominal(k) is None
}

/// Whether the session is certain to stop at some attempt.
pub open spec fn halts<T, E, B: Backoff, O: Operation<T, E>, C: Condition<E>>(
    gen: B,
    op: O,
    cond: C,
) -> bool {
    exists|k: nat| halts_at(gen, op, cond, k)
}

/// Whether the generator is eventually exhausted.
pub open spec fn exhaustible<B: Backoff>(gen: B) -> bool {
    exists|k: nat| gen.nominal(k) is None
}

/// While every attempt fails retryably and a delay is available, and no
/// budget is set, the session keeps running: after `n` iterations it has
/// made `n` attempts, pulled and slept `n` delays, and not stopped.
proof fn lemma_session_runs<T, E, B: Backoff, O: Operation<T, E>, C: Condition<E>>(
    gen0: B,
    op0: O,
    cond: C,
    t0: u64,
    n: nat,
)
    requires
        forall|j: nat| j < n ==> (#[trigger] op0.outcome(op0.calls() + j)) is Err,
        forall|j: nat|
            j < n ==> (#[trigger] op0.outcome(op0.calls() + j) matches Err(e)
                ==> cond.retryable(&e)),
        forall|j: nat| j < n ==> (#[trigger] gen0.nominal(j)) is Some,
    ensures
        steps(gen0, op0, cond, None::<u64>, t0, n).done is None,
        steps(gen0, op0, cond, None::<u64>, t0, n).attempts == n,
        steps(gen0, op0, cond, None::<u64>, t0, n).pulls == n,
        steps(gen0, op0, cond, None::<u64>, t0, n).slept.len() == n,
    decreases n,
{
    if n > 0 {
        lemma_session_runs(gen0, op0, cond, t0, (n - 1) as nat);
    }
}

/// Law: with no budget, an operation that fails retryably on its first
/// `k - 1` attempts and succeeds on attempt `k` — within the generator's
/// capacity — ends the session in success after exactly `k` attempts and
/// `k - 1` sleeps.
pub proof fn lemma_session_succeeds<T, E, B: Backoff, O: Operation<T, E>, C: Condition<E>>(
    gen0: B,
    op0: O,
    cond: C,
    t0: u64,
    k: nat,
)
    requires
        1 <= k,
        op0.outcome(op0.calls() + (k - 1) as nat) is Ok,
        forall|j: nat| j < k - 1 ==> (#[trigger] op0.outcome(op0.calls() + j)) is Err,
        forall|j: nat|
            j < k - 1 ==> (#[trigger] op0.outcome(op0.calls() + j) matches Err(e)
                ==> cond.retryable(&e)),
        forall|j: nat| j < k - 1 ==> (#[trigger] gen0.nominal(j)) is Some,
    ensures
        steps(gen0, op0, cond, None::<u64>, t0, k).done == Some(
            op0.outcome(op0.calls() + (k - 1) as nat),
        ),
        steps(gen0, op0, cond, None::<u64>, t0, k).attempts == k,
        steps(gen0, op0, cond, None::<u64>, t0, k).slept.len() == k - 1,
{
    lemma_session_runs(gen0, op0, cond, t0, (k - 1) as nat);
}

/// Law: a failure that the condition rejects stops the session at that very
/// attempt, with no further sleep — here stated for the first attempt, with
/// any budget and regardless of the generator's capacity.
pub proof fn lemma_session_rejects<T, E, B: Backoff, O: Operation<T, E>, C: Condition<E>>(
    gen0: B,
    op0: O,
    cond: C,
    budget: Option<u64>,
    t0: u64,
)
    requires
        op0.outcome(op0.calls()) is Err,
        op0.outcome(op0.calls()) matches Err(e) ==> !cond.retryable(&e),
    ensures
        steps(gen0, op0, cond, budget, t0, 1).done == Some(op0.outcome(op0.calls())),
        steps(gen0, op0, cond, budget, t0, 1).attempts == 1,
        steps(gen0, op0, cond, budget, t0, 1).slept.len() == 0,
{
    assert(steps(gen0, op0, cond, budget, t0, 0).done is None);
}

/// Law: with no budget and an always-retrying condition, an operation that
/// keeps failing ends the session by exhaustion: a generator that offers
/// exactly `m` delays yields `m + 1` attempts and `m` sleeps, and the
/// session's result is the last attempt's error.
pub proof fn lemma_session_exhausts<T, E, B: Backoff, O: Operation<T, E>, C: Condition<E>>(
    gen0: B,
    op0: O,
    cond: C,
    t0: u64,
    m: nat,
)
    requires
        forall|j: nat| j <= m ==> (#[trigger] op0.outcome(op0.calls() + j)) is Err,
        forall|j: nat|
            j <= m ==> (#[trigger] op0.outcome(op0.calls() + j) matches Err(e)
                ==> cond.retryable(&e)),
        forall|j: nat| j < m ==> (#[trigger] gen0.nominal(j)) is Some,
        gen0.nominal(m) is None,
    ensures
        steps(gen0, op0, cond, None::<u64>, t0, m + 1).done == Some(
            op0.outcome(op0.calls() + m),
        ),
        steps(gen0, op0, cond, None::<u64>, t0, m + 1).attempts == m + 1,
        steps(gen0, op0, cond, None::<u64>, t0, m + 1).slept.len() == m,
{
    lemma_session_runs(gen0, op0, cond, t0, m);
}

/// Law: a session with budget `b` never sleeps past it: after any number of
/// iterations the clock has advanced from `t0` by at most `b`, because a
/// delay that would overrun the budget is never slept.
pub proof fn lemma_budget_respected<T, E, B: Backoff, O: Operation<T, E>, C: Condition<E>>(
    gen0: B,
    op0: O,
    cond: C,
    b: u64,
    t0: u64,
    n: nat,
)
    ensures
        t0 <= steps(gen0, op0, cond, Some(b), t0, n).clock,
        steps(gen0, op0, cond, Some(b), t0, n).clock - t0 <= b,
    decreases n,
{
    if n > 0 {
        lemma_budget_respected(gen0, op0, cond, b, t0, (n - 1) as nat);
    }
}

} // verus!

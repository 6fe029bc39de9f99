//! The retry controller: drives a fallible operation until it succeeds, its
//! backoff strategy is exhausted, its time budget is spent, or its error is
//! judged non-retryable.
//!
//! [`Retry`] is a builder: [`Retry::new`] pairs a backoff strategy with an
//! operation and retries every error; [`Retry::with_condition`] and
//! [`Retry::with_max_duration`] refine that. [`Retry::run`] then executes
//! the session against an injected [`Sleeper`]. Whatever ends the session,
//! the last observed error is returned unchanged — never wrapped in a
//! synthetic "retries exhausted" value.

use vstd::prelude::*;
use crate::backoff::Backoff;
use crate::operation::AlwaysRetry;
use crate::operation::Condition;
use crate::operation::Operation;
use crate::session::exhaustible;
use crate::session::halts;
use crate::session::halts_at;
use crate::session::steps;
use crate::sleep::Sleeper;

verus! {

/// A configured retry session: a backoff strategy, an operation, a retry
/// condition and an optional cumulative time budget in milliseconds.
pub struct Retry<B, O, C> {
    strategy: B,
    operation: O,
    condition: C,
    max_duration: Option<u64>,
}

impl<B, O, C> Retry<B, O, C> {
    /// The configured backoff strategy.
    pub closed spec fn gen(&self) -> B {
        self.strategy
    }

    /// The configured operation.
    pub closed spec fn op(&self) -> O {
        self.operation
    }

    /// The configured retry condition.
    pub closed spec fn cond(&self) -> C {
        self.condition
    }

    /// The configured time budget, if any.
    pub closed spec fn budget(&self) -> Option<u64> {
        self.max_duration
    }

    /// The operation, for inspection of its session-owned state (such as a
    /// scripted operation's attempt count) after a run.
    pub fn operation(&self) -> (r: &O)
        ensures
            *r == self.op(),
    {
        &self.operation
    }

    /// Replaces the retry condition: only errors the new predicate accepts
    /// warrant another attempt.
    pub fn with_condition<C2>(self, condition: C2) -> (r: Retry<B, O, C2>)
        ensures
            r.gen() == self.gen(),
            r.op() == self.op(),
            r.cond() == condition,
            r.budget() == self.budget(),
    {
        Retry {
            strategy: self.strategy,
            operation: self.operation,
            condition,
            max_duration: self.max_duration,
        }
    }

    /// Sets the cumulative time budget for the whole session, in
    /// milliseconds.
    pub fn with_max_duration(self, max_duration_ms: u64) -> (r: Self)
        ensures
            r.gen() == self.gen(),
            r.op() == self.op(),
            r.cond() == self.cond(),
            r.budget() == Some(max_duration_ms),
    {
        Retry { max_duration: Some(max_duration_ms), ..self }
    }
}

impl<B, O> Retry<B, O, AlwaysRetry> {
    /// Creates a session that retries on every error, with no time budget.
    pub fn new(strategy: B, operation: O) -> (r: Self)
        ensures
            r.gen() == strategy,
            r.op() == operation,
            r.cond() == AlwaysRetry,
            r.budget() is None,
    {
        Self { strategy, operation, condition: AlwaysRetry, max_duration: None }
    }
}

impl<B, O, C> Retry<B, O, C> {
    /// Runs the retry session to completion against the given sleeper.
    ///
    /// Per iteration: invoke the operation; on success return the value at
    /// once. On failure, stop with the error if the budget is already
    /// spent; then consult the condition and stop if the error is not
    /// retryable (the generator is not advanced); then pull the next delay
    /// and stop if the strategy is exhausted; then stop if that delay would
    /// overrun the budget; otherwise sleep it and try again.
    ///
    /// The caller must know the session stops: a scripted operation must
    /// make it halt at some attempt, and an unscripted one must come with
    /// an eventually-exhausted strategy.
    ///
    /// For deterministic collaborators the whole observable behavior —
    /// result, attempt count, generator advance, sleep log and clock — is
    /// pinned to the session replay [`steps`]; a condition that rejects
    /// every error stops any session after exactly one attempt and no
    /// sleep.
    pub fn run<T, E, S: Sleeper>(&mut self, sleeper: &mut S) -> (r: Result<T, E>) where
        B: Backoff,
        O: Operation<T, E>,
        C: Condition<E>,

        requires
            if old(self).op().scripted() {
                halts(old(self).gen(), old(self).op(), old(self).cond())
            } else {
                exhaustible(old(self).gen())
            },
        ensures
            final(self).cond() == old(self).cond(),
            final(self).budget() == old(self).budget(),
            final(self).op().scripted() == old(self).op().scripted(),
            forall|k: nat| final(self).op().outcome(k) == old(self).op().outcome(k),
            final(self).gen().is_exact() == old(self).gen().is_exact(),
            final(sleeper).steady() == old(sleeper).steady(),
            final(self).op().calls() >= old(self).op().calls() + 1,
            old(sleeper).log().is_prefix_of(final(sleeper).log()),
            (forall|e: E| !old(self).cond().retryable(&e)) ==> {
                &&& final(self).op().calls() == old(self).op().calls() + 1
                &&& final(sleeper).log() == old(sleeper).log()
            },
            (old(self).op().scripted() && (old(self).budget() is None || (
                old(self).gen().is_exact() && old(sleeper).steady()
            ))) ==> exists|n: nat|
                {
                    let s = #[trigger] steps(
                        old(self).gen(),
                        old(self).op(),
                        old(self).cond(),
                        old(self).budget(),
                        old(sleeper).time(),
                        n,
                    );
                    &&& s.done == Some(r)
                    &&& final(self).op().calls() == old(self).op().calls() + s.attempts
                    &&& forall|k: nat|
                        final(self).gen().nominal(k) == old(self).gen().nominal(k + s.pulls)
                    &&& final(sleeper).log().len() == old(sleeper).log().len() + s.slept.len()
                    &&& forall|i: int|
                        0 <= i < s.slept.len()
                            ==> final(sleeper).log()[old(sleeper).log().len() + i] <= s.slept[i]
                    &&& (old(self).gen().is_exact()
                        ==> final(sleeper).log() == old(sleeper).log() + s.slept)
                    &&& (old(sleeper).steady() && old(self).gen().is_exact()
                        ==> final(sleeper).time() == s.clock)
                },
    {
        let ghost gen0 = self.strategy;
        let ghost op0 = self.operation;
        let ghost cond0 = self.condition;
        let ghost budget0 = self.max_duration;
        let ghost t0 = sleeper.time();
        let ghost log0 = sleeper.log();
        let ghost steady0 = sleeper.steady();
        let ghost corr = op0.scripted() && (budget0 is None || (gen0.is_exact() && steady0));

        let start = sleeper.elapsed();

        let ghost k0: nat = if op0.scripted() {
            choose|k: nat| halts_at(gen0, op0, cond0, k)
        } else {
            choose|k: nat| gen0.nominal(k) is None
        };
        let ghost mut iter: nat = 0;
        let ghost mut pulls: nat = 0;

        #[verifier::loop_isolation(false)]
        loop
            invariant
                self.condition == cond0,
                self.max_duration == budget0,
                self.operation.scripted() == op0.scripted(),
                forall|k: nat| self.operation.outcome(k) == op0.outcome(k),
                self.strategy.is_exact() == gen0.is_exact(),
                sleeper.steady() == steady0,
                self.operation.calls() == op0.calls() + iter,
                forall|k: nat| self.strategy.nominal(k) == gen0.nominal(k + pulls),
                sleeper.time() >= start,
                steady0 ==> start == t0,
                start >= t0,
                log0.is_prefix_of(sleeper.log()),
                iter <= k0,
                op0.scripted() ==> halts_at(
                    self.strategy,
                    self.operation,
                    self.condition,
                    (k0 - iter) as nat,
                ),
                !op0.scripted() ==> self.strategy.nominal((k0 - iter) as nat) is None,
                (forall|e: E| !old(self).cond().retryable(&e)) ==> iter == 0 && sleeper.log()
                    == log0,
                corr ==> {
                    let s = steps(gen0, op0, cond0, budget0, t0, iter);
                    &&& s.done is None
                    &&& s.attempts == iter
                    &&& s.pulls == pulls
                    &&& sleeper.log().len() == log0.len() + s.slept.len()
                    &&& forall|i: int|
                        0 <= i < s.slept.len() ==> sleeper.log()[log0.len() + i] <= s.slept[i]
                    &&& (gen0.is_exact() ==> sleeper.log() == log0 + s.slept)
                    &&& (steady0 && gen0.is_exact() ==> sleeper.time() == s.clock)
                },
            decreases k0 - iter,
        {
            let ghost cur = steps(gen0, op0, cond0, budget0, t0, iter);
            let ghost stepped = steps(gen0, op0, cond0, budget0, t0, iter + 1);
            proof {
                assert(stepped == crate::session::step(gen0, op0, cond0, budget0, t0, cur));
            }

            let attempt_result = self.operation.attempt();
            match attempt_result {
                Ok(value) => {
                    proof {
                        iter = iter + 1;
                    }
                    return Ok(value);
                },
                Err(e) => {
                    if let Some(b) = self.max_duration {
                        let now = sleeper.elapsed();
                        let elapsed_session = now - start;
                        if elapsed_session >= b {
                            proof {
                                iter = iter + 1;
                            }
                            return Err(e);
                        }
                    }
                    if !self.condition.should_retry(&e) {
                        proof {
                            iter = iter + 1;
                        }
                        return Err(e);
                    }
                    match self.strategy.next() {
                        None => {
                            proof {
                                iter = iter + 1;
                                pulls = pulls + 1;
                            }
                            return Err(e);
                        },
                        Some(delay) => {
                            proof {
                                pulls = pulls + 1;
                                assert(old(self).cond().retryable(&e));
                            }
                            if let Some(b) = self.max_duration {
                                let now = sleeper.elapsed();
                                let elapsed_session = now - start;
                                if (elapsed_session as u128) + (delay as u128) > (b as u128) {
                                    proof {
                                        iter = iter + 1;
                                    }
                                    return Err(e);
                                }
                            }
                            sleeper.sleep(delay);
                            proof {
                                iter = iter + 1;
                            }
                        },
                    }
                },
            }
        }
    }
}

} // verus!

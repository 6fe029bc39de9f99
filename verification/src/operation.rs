//! The operation and retry-condition capabilities driven by the retry
//! controller.
//!
//! An [`Operation`] is a repeatable producer of a fallible result, invoked
//! once per attempt. A [`Condition`] is a pure predicate over the
//! operation's error value that decides whether another attempt is
//! warranted; the default, [`AlwaysRetry`], retries on every error.

use vstd::prelude::*;

verus! {

/// A repeatable fallible operation, invoked once per retry attempt.
///
/// The spec function `calls` counts the attempts made so far. An operation
/// whose `scripted` flag holds is deterministic: its `k`-th invocation
/// (counting from zero) returns exactly `outcome(k)`, so the whole retry
/// session can be predicted from its script. An operation backed by the
/// outside world leaves `scripted` false, and nothing is promised of its
/// results.
pub trait Operation<T, E> {
    /// How many attempts have been made on this operation.
    spec fn calls(&self) -> nat;

    /// Whether the operation's results are determined by its script.
    spec fn scripted(&self) -> bool;

    /// The result of the `k`-th invocation, for a scripted operation.
    spec fn outcome(&self, k: nat) -> Result<T, E>;

    /// Makes one attempt.
    fn attempt(&mut self) -> (r: Result<T, E>)
        ensures
            final(self).calls() == old(self).calls() + 1,
            final(self).scripted() == old(self).scripted(),
            forall|k: nat| final(self).outcome(k) == old(self).outcome(k),
            old(self).scripted() ==> r == old(self).outcome(old(self).calls()),
    ;
}

/// A predicate over an operation's error value, deciding whether another
/// attempt is warranted. Evaluated once per failure, before the delay
/// generator is consulted, so a non-retryable error never advances the
/// generator.
pub trait Condition<E> {
    /// Whether an attempt that failed with `e` should be retried.
    spec fn retryable(&self, e: &E) -> bool;

    /// Evaluates the predicate on `e`.
    fn should_retry(&self, e: &E) -> (r: bool)
        ensures
            r == self.retryable(e),
    ;
}

/// The always-true retry predicate.
pub fn default_condition<E>(e: &E) -> (r: bool)
    ensures
        r,
{
    true
}

/// The default retry condition: every error warrants another attempt.
#[derive(Debug, Clone, Copy, PartialEq, Eq, Structural)]
pub struct AlwaysRetry;

impl<E> Condition<E> for AlwaysRetry {
    open spec fn retryable(&self, e: &E) -> bool {
        true
    }

    fn should_retry(&self, e: &E) -> (r: bool) {
        default_condition(e)
    }
}

/// The fail-fast retry condition: no error warrants another attempt, so a
/// session ends on its first failure whatever its strategy could offer.
#[derive(Debug, Clone, Copy, PartialEq, Eq, Structural)]
pub struct NeverRetry;

impl<E> Condition<E> for NeverRetry {
    open spec fn retryable(&self, _e: &E) -> bool {
        false
    }

    fn should_retry(&self, _e: &E) -> (r: bool) {
        false
    }
}

/// A retry condition over numeric error codes that treats one code as
/// permanent: every other error warrants another attempt.
#[derive(Debug, Clone, Copy, PartialEq, Eq, Structural)]
pub struct RejectCode {
    /// The error code that is never retried.
    pub code: u64,
}

impl RejectCode {
    /// Creates a condition that refuses to retry `code` and retries
    /// everything else.
    pub fn new(code: u64) -> (r: Self)
        ensures
            r.code == code,
    {
        Self { code }
    }
}

impl Condition<u64> for RejectCode {
    open spec fn retryable(&self, e: &u64) -> bool {
        *e != self.code
    }

    fn should_retry(&self, e: &u64) -> (r: bool) {
        *e != self.code
    }
}

/// A deterministic operation for driving the controller in tests: it fails
/// with a fixed error code until its `succeed_on`-th invocation (1-based),
/// which returns that attempt number; later invocations fail again. With
/// `succeed_on` zero it fails forever.
#[derive(Clone, Copy)]
pub struct ScriptedOperation {
    succeed_on: u64,
    err_code: u64,
    made: u64,
    calls_exact: Ghost<nat>,
}

impl ScriptedOperation {
    /// The invocation count tracked in `made` saturates at `u64::MAX`
    /// while the ghost count stays exact.
    #[verifier::type_invariant]
    spec fn counter_in_step(&self) -> bool {
        self.made as nat == if self.calls_exact@ <= u64::MAX as nat {
            self.calls_exact@
        } else {
            u64::MAX as nat
        }
    }

    /// Creates an operation that succeeds on its `succeed_on`-th invocation
    /// and fails with `err_code` on every other one.
    pub fn new(succeed_on: u64, err_code: u64) -> (r: Self)
        ensures
            r.calls() == 0,
            r.scripted(),
            forall|k: nat|
                r.outcome(k) == if k + 1 == succeed_on {
                    Result::<u64, u64>::Ok(succeed_on)
                } else {
                    Result::<u64, u64>::Err(err_code)
                },
    {
        Self { succeed_on, err_code, made: 0, calls_exact: Ghost(0) }
    }

    /// How many attempts have been made so far.
    pub fn attempts_made(&self) -> (n: u64)
        requires
            self.calls() <= u64::MAX,
        ensures
            n == self.calls(),
    {
        proof {
            use_type_invariant(self);
        }
        self.made
    }
}

impl Operation<u64, u64> for ScriptedOperation {
    closed spec fn calls(&self) -> nat {
        self.calls_exact@
    }

    closed spec fn scripted(&self) -> bool {
        true
    }

    closed spec fn outcome(&self, k: nat) -> Result<u64, u64> {
        if k + 1 == self.succeed_on {
            Ok(self.succeed_on)
        } else {
            Err(self.err_code)
        }
    }

    fn attempt(&mut self) -> (r: Result<u64, u64>) {
        proof {
            use_type_invariant(&*self);
        }
        let next_attempt = self.made.checked_add(1);
        let ghost made_before = self.calls_exact@;
        *self = Self {
            made: self.made.saturating_add(1),
            calls_exact: Ghost(made_before + 1),
            ..(*self)
        };
        match next_attempt {
            Some(n) => if n == self.succeed_on {
                Ok(self.succeed_on)
            } else {
                Err(self.err_code)
            },
            None => Err(self.err_code),
        }
    }
}

} // verus!

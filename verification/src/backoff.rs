//! Backoff strategies: generators of the successive wait durations between
//! retry attempts.
//!
//! A generator is pulled once per retry; `None` is the terminal signal that
//! no further delay is available ("exhaustion"), distinct from a zero delay.
//! Every generator is characterized by the spec sequence [`Backoff::nominal`]
//! of the delays it has still to offer, so that the retry controller can be
//! specified against any strategy.

use vstd::prelude::*;

verus! {

/// Saturating addition on `u64`, as a spec-level function.
pub open spec fn sat_add64(a: u64, b: u64) -> u64 {
    if a + b > u64::MAX {
        u64::MAX
    } else {
        (a + b) as u64
    }
}

/// Saturating doubling on `u64`.
pub open spec fn sat_dbl(a: u64) -> u64 {
    if 2 * a > u64::MAX {
        u64::MAX
    } else {
        (2 * a) as u64
    }
}

/// `a` doubled `k` times, saturating at `u64::MAX`.
pub open spec fn sat_dbl_n(a: u64, k: nat) -> u64
    decreases k,
{
    if k == 0 {
        a
    } else {
        sat_dbl(sat_dbl_n(a, (k - 1) as nat))
    }
}

/// The `k`-th element of the saturating Fibonacci-style chain that starts
/// with `a, b` and then repeatedly appends the saturating sum of the last
/// two elements.
pub open spec fn fib_chain(a: u64, b: u64, k: nat) -> u64
    decreases k,
{
    if k == 0 {
        a
    } else {
        fib_chain(b, sat_add64(a, b), (k - 1) as nat)
    }
}

/// A raw delay clamped by an optional ceiling.
pub open spec fn clamped(v: u64, ceiling: Option<u64>) -> u64 {
    match ceiling {
        Some(c) => if v > c {
            c
        } else {
            v
        },
        None => v,
    }
}

/// A backoff strategy: a stateful generator of wait durations in
/// milliseconds.
///
/// `next` returns `None` once the strategy is exhausted; the retry loop then
/// stops. The spec function `nominal` gives, for the generator's current
/// state, the `k`-th delay it has still to offer (`None` past exhaustion),
/// and each call to `next` consumes the head of that sequence. A strategy
/// whose `is_exact` flag holds emits exactly its nominal delays; a
/// randomized strategy such as [`Jitter`] only promises to stay at or below
/// them.
pub trait Backoff: Sized {
    /// The `k`-th delay this generator will offer, counted from its current
    /// state, or `None` if it will be exhausted by then.
    spec fn nominal(&self, k: nat) -> Option<u64>;

    /// Whether the emitted delays equal the nominal ones (rather than merely
    /// staying at or below them).
    spec fn is_exact(&self) -> bool;

    /// Pulls the next wait duration, advancing the generator.
    fn next(&mut self) -> (d: Option<u64>)
        ensures
            d is Some <==> old(self).nominal(0) is Some,
            forall|k: nat| final(self).nominal(k) == old(self).nominal(k + 1),
            final(self).is_exact() == old(self).is_exact(),
            d matches Some(v) ==> v <= old(self).nominal(0)->0,
            old(self).is_exact() ==> d == old(self).nominal(0),
    ;
}

/// Bounding combinator, available on every backoff strategy.
pub trait Limit: Backoff {
    /// Limits this strategy to its first `n` delays, as an alternative to a
    /// built-in retry cap.
    fn take(self, n: usize) -> (t: Take<Self>)
        ensures
            forall|k: nat|
                t.nominal(k) == if k < n {
                    self.nominal(k)
                } else {
                    None::<u64>
                },
            t.is_exact() == self.is_exact(),
            t.wrapped() == self,
            t.left() == n,
    ;
}

impl<B: Backoff> Limit for B {
    fn take(self, n: usize) -> (t: Take<B>) {
        Take { inner: self, remaining: n }
    }
}

/// A backoff strategy that always waits for the same duration; infinite
/// unless limited, for example with [`Limit::take`].
#[derive(Debug, Clone, Copy)]
pub struct FixedDelay {
    delay_ms: u64,
}

impl FixedDelay {
    /// Creates a strategy that always yields `delay_ms`.
    pub fn new(delay_ms: u64) -> (r: Self)
        ensures
            forall|k: nat| r.nominal(k) == Some(delay_ms),
            r.is_exact(),
    {
        Self { delay_ms }
    }
}

impl Backoff for FixedDelay {
    closed spec fn nominal(&self, k: nat) -> Option<u64> {
        Some(self.delay_ms)
    }

    closed spec fn is_exact(&self) -> bool {
        true
    }

    fn next(&mut self) -> (d: Option<u64>) {
        Some(self.delay_ms)
    }
}

/// Shifting the saturating doubling chain commutes with one doubling step.
proof fn lemma_sat_dbl_n_shift(a: u64, k: nat)
    ensures
        sat_dbl_n(sat_dbl(a), k) == sat_dbl(sat_dbl_n(a, k)),
    decreases k,
{
    if k > 0 {
        lemma_sat_dbl_n_shift(a, (k - 1) as nat);
    }
}

/// A backoff strategy that doubles the wait duration on every pull,
/// saturating at the largest representable delay instead of overflowing.
///
/// An optional ceiling clamps only the emitted value; the internal doubling
/// progression keeps growing (saturating) underneath it. An optional retry
/// cap makes the strategy exhausted after that many pulls.
#[derive(Debug, Clone, Copy)]
pub struct ExponentialBackoff {
    current: u64,
    max_delay: Option<u64>,
    max_retries: Option<usize>,
    attempt: usize,
}

impl ExponentialBackoff {
    /// The raw (unclamped) delay the strategy would offer `k` pulls from
    /// now, ignoring any retry cap.
    pub closed spec fn growth(&self, k: nat) -> u64 {
        sat_dbl_n(self.current, k)
    }

    /// The optional ceiling applied to each emitted delay.
    pub closed spec fn ceiling(&self) -> Option<u64> {
        self.max_delay
    }

    /// The retry cap this strategy was given, if any.
    pub closed spec fn limit(&self) -> Option<nat> {
        match self.max_retries {
            Some(m) => Some(m as nat),
            None => None,
        }
    }

    /// How many pulls have been served so far (saturating at `usize::MAX`).
    pub closed spec fn pulls_made(&self) -> nat {
        self.attempt as nat
    }

    /// How many more pulls the strategy will serve, or `None` if unlimited.
    pub open spec fn remaining(&self) -> Option<nat> {
        match self.limit() {
            Some(m) => if self.pulls_made() <= m {
                Some((m - self.pulls_made()) as nat)
            } else {
                Some(0)
            },
            None => None,
        }
    }

    /// Creates a doubling strategy whose first delay is `base_delay_ms`.
    pub fn new(base_delay_ms: u64) -> (r: Self)
        ensures
            forall|k: nat| r.growth(k) == sat_dbl_n(base_delay_ms, k),
            r.ceiling() is None,
            r.limit() is None,
            r.pulls_made() == 0,
            r.is_exact(),
    {
        Self { current: base_delay_ms, max_delay: None, max_retries: None, attempt: 0 }
    }

    /// Sets the ceiling: emitted delays will not exceed `max_delay_ms`.
    pub fn with_max_delay(self, max_delay_ms: u64) -> (r: Self)
        ensures
            forall|k: nat| r.growth(k) == self.growth(k),
            r.ceiling() == Some(max_delay_ms),
            r.limit() == self.limit(),
            r.pulls_made() == self.pulls_made(),
            r.is_exact(),
    {
        Self { max_delay: Some(max_delay_ms), ..self }
    }

    /// Caps the number of pulls: after `max_retries` more delays (counted
    /// from the strategy's creation) the strategy is exhausted.
    pub fn with_max_retries(self, max_retries: usize) -> (r: Self)
        ensures
            forall|k: nat| r.growth(k) == self.growth(k),
            r.ceiling() == self.ceiling(),
            r.limit() == Some(max_retries as nat),
            r.pulls_made() == self.pulls_made(),
            r.is_exact(),
    {
        Self { max_retries: Some(max_retries), ..self }
    }
}

impl Backoff for ExponentialBackoff {
    closed spec fn nominal(&self, k: nat) -> Option<u64> {
        if self.remaining() matches Some(rem) && k >= rem {
            None
        } else {
            Some(clamped(self.growth(k), self.ceiling()))
        }
    }

    closed spec fn is_exact(&self) -> bool {
        true
    }

    fn next(&mut self) -> (d: Option<u64>) {
        if let Some(m) = self.max_retries {
            if self.attempt >= m {
                return None;
            }
        }
        self.attempt = self.attempt.saturating_add(1);
        let mut delay = self.current;
        if let Some(c) = self.max_delay {
            if delay > c {
                delay = c;
            }
        }
        self.current = if self.current > u64::MAX / 2 {
            u64::MAX
        } else {
            self.current * 2
        };
        proof {
            assert forall|k: nat| #[trigger] self.nominal(k) == old(self).nominal(k + 1) by {
                lemma_sat_dbl_n_shift(old(self).current, k);
            }
        }
        Some(delay)
    }
}

/// A backoff strategy that grows along the Fibonacci sequence scaled by its
/// base delay (base, base, 2x, 3x, 5x, 8x, ...), saturating instead of
/// overflowing, with the same optional ceiling and retry cap as
/// [`ExponentialBackoff`].
#[derive(Debug, Clone, Copy)]
pub struct FibonacciBackoff {
    current: u64,
    upcoming: u64,
    max_delay: Option<u64>,
    max_retries: Option<usize>,
    attempt: usize,
}

impl FibonacciBackoff {
    /// The raw (unclamped) delay the strategy would offer `k` pulls from
    /// now, ignoring any retry cap.
    pub closed spec fn growth(&self, k: nat) -> u64 {
        fib_chain(self.current, self.upcoming, k)
    }

    /// The optional ceiling applied to each emitted delay.
    pub closed spec fn ceiling(&self) -> Option<u64> {
        self.max_delay
    }

    /// The retry cap this strategy was given, if any.
    pub closed spec fn limit(&self) -> Option<nat> {
        match self.max_retries {
            Some(m) => Some(m as nat),
            None => None,
        }
    }

    /// How many pulls have been served so far (saturating at `usize::MAX`).
    pub closed spec fn pulls_made(&self) -> nat {
        self.attempt as nat
    }

    /// How many more pulls the strategy will serve, or `None` if unlimited.
    pub open spec fn remaining(&self) -> Option<nat> {
        match self.limit() {
            Some(m) => if self.pulls_made() <= m {
                Some((m - self.pulls_made()) as nat)
            } else {
                Some(0)
            },
            None => None,
        }
    }

    /// Creates a Fibonacci strategy whose first two delays are
    /// `base_delay_ms`.
    pub fn new(base_delay_ms: u64) -> (r: Self)
        ensures
            forall|k: nat| r.growth(k) == fib_chain(base_delay_ms, base_delay_ms, k),
            r.ceiling() is None,
            r.limit() is None,
            r.pulls_made() == 0,
            r.is_exact(),
    {
        Self {
            current: base_delay_ms,
            upcoming: base_delay_ms,
            max_delay: None,
            max_retries: None,
            attempt: 0,
        }
    }

    /// Sets the ceiling: emitted delays will not exceed `max_delay_ms`.
    pub fn with_max_delay(self, max_delay_ms: u64) -> (r: Self)
        ensures
            forall|k: nat| r.growth(k) == self.growth(k),
            r.ceiling() == Some(max_delay_ms),
            r.limit() == self.limit(),
            r.pulls_made() == self.pulls_made(),
            r.is_exact(),
    {
        Self { max_delay: Some(max_delay_ms), ..self }
    }

    /// Caps the number of pulls: after `max_retries` more delays (counted
    /// from the strategy's creation) the strategy is exhausted.
    pub fn with_max_retries(self, max_retries: usize) -> (r: Self)
        ensures
            forall|k: nat| r.growth(k) == self.growth(k),
            r.ceiling() == self.ceiling(),
            r.limit() == Some(max_retries as nat),
            r.pulls_made() == self.pulls_made(),
            r.is_exact(),
    {
        Self { max_retries: Some(max_retries), ..self }
    }
}

impl Backoff for FibonacciBackoff {
    closed spec fn nominal(&self, k: nat) -> Option<u64> {
        if self.remaining() matches Some(rem) && k >= rem {
            None
        } else {
            Some(clamped(self.growth(k), self.ceiling()))
        }
    }

    closed spec fn is_exact(&self) -> bool {
        true
    }

    fn next(&mut self) -> (d: Option<u64>) {
        if let Some(m) = self.max_retries {
            if self.attempt >= m {
                return None;
            }
        }
        self.attempt = self.attempt.saturating_add(1);
        let mut delay = self.current;
        if let Some(c) = self.max_delay {
            if delay > c {
                delay = c;
            }
        }
        let sum = self.current.saturating_add(self.upcoming);
        self.current = self.upcoming;
        self.upcoming = sum;
        Some(delay)
    }
}

/// Draws a uniformly distributed value between 0 and `max_value`, both
/// bounds included.
///
/// Relies on `rand::Rng::gen_range` over the inclusive range
/// `0..=max_value`, which returns a value within that range; the range is
/// never empty, so the call cannot panic.
#[verifier::external_body]
fn sample_up_to(max_value: u64) -> (r: u64)
    ensures
        r <= max_value,
{
    rand::Rng::gen_range(&mut rand::thread_rng(), 0..=max_value)
}

/// A decorator that adds "full jitter" to any backoff strategy: each delay
/// pulled from the inner strategy is replaced by a uniformly random delay
/// between zero and that value, both bounds included. Exhaustion of the
/// inner strategy is propagated unchanged, and the nominal delay sequence is
/// the inner one, so a jittered delay never exceeds what the un-jittered
/// strategy would have waited.
#[derive(Debug, Clone)]
pub struct Jitter<B> {
    inner: B,
}

impl<B: Backoff> Jitter<B> {
    /// The inner strategy, whose nominal delays bound the jittered ones.
    pub closed spec fn wrapped(&self) -> B {
        self.inner
    }

    /// Wraps a strategy to add full jitter to every delay it emits.
    pub fn new(inner: B) -> (r: Self)
        ensures
            r.wrapped() == inner,
            forall|k: nat| r.nominal(k) == inner.nominal(k),
            !r.is_exact(),
    {
        Self { inner }
    }
}

impl<B: Backoff> Backoff for Jitter<B> {
    closed spec fn nominal(&self, k: nat) -> Option<u64> {
        self.inner.nominal(k)
    }

    closed spec fn is_exact(&self) -> bool {
        false
    }

    fn next(&mut self) -> (d: Option<u64>) {
        match self.inner.next() {
            None => None,
            Some(delay) => Some(sample_up_to(delay)),
        }
    }
}

/// A decorator that stops an inner strategy after a fixed number of pulls.
#[derive(Debug, Clone, Copy)]
pub struct Take<B> {
    inner: B,
    remaining: usize,
}

impl<B> Take<B> {
    /// The wrapped strategy.
    pub closed spec fn wrapped(&self) -> B {
        self.inner
    }

    /// How many more pulls this decorator will pass through.
    pub closed spec fn left(&self) -> nat {
        self.remaining as nat
    }
}

impl<B: Backoff> Backoff for Take<B> {
    closed spec fn nominal(&self, k: nat) -> Option<u64> {
        if k < self.remaining {
            self.inner.nominal(k)
        } else {
            None
        }
    }

    closed spec fn is_exact(&self) -> bool {
        self.inner.is_exact()
    }

    fn next(&mut self) -> (d: Option<u64>) {
        if self.remaining == 0 {
            None
        } else {
            self.remaining = self.remaining - 1;
            self.inner.next()
        }
    }
}

/// Powers of two.
pub open spec fn pow2(k: nat) -> nat
    decreases k,
{
    if k == 0 {
        1
    } else {
        2 * pow2((k - 1) as nat)
    }
}

/// The Fibonacci sequence: 0, 1, 1, 2, 3, 5, 8, ...
pub open spec fn fib(k: nat) -> nat
    decreases k,
{
    if k == 0 {
        0
    } else if k == 1 {
        1
    } else {
        fib((k - 1) as nat) + fib((k - 2) as nat)
    }
}

/// The Fibonacci sequence never decreases.
proof fn lemma_fib_mono(i: nat, j: nat)
    requires
        i <= j,
    ensures
        fib(i) <= fib(j),
    decreases j,
{
    if i < j && j >= 2 {
        lemma_fib_mono(i, (j - 1) as nat);
    }
}

/// Law: a fixed-delay strategy limited to `n` pulls offers exactly `n`
/// copies of its delay and is then exhausted.
pub proof fn lemma_fixed_take_law(t: Take<FixedDelay>, d: u64, k: nat)
    requires
        forall|j: nat| t.wrapped().nominal(j) == Some(d),
    ensures
        t.nominal(k) == if k < t.left() {
            Some(d)
        } else {
            None::<u64>
        },
{
    assert(t.wrapped().nominal(k) == Some(d));
}

/// Law: while `b * 2^k` is representable, the saturating doubling chain
/// from `b` is exactly the powers of two scaled by `b`.
pub proof fn lemma_sat_dbl_n_exact(b: u64, k: nat)
    requires
        b * pow2(k) <= u64::MAX,
    ensures
        sat_dbl_n(b, k) == b * pow2(k),
    decreases k,
{
    if k > 0 {
        let p = pow2((k - 1) as nat);
        assert(pow2(k) == 2 * p);
        assert(0 <= b * p && 2 * (b * p) == b * pow2(k)) by (nonlinear_arith)
            requires
                pow2(k) == 2 * p,
                b >= 0,
                p >= 0,
        ;
        lemma_sat_dbl_n_exact(b, (k - 1) as nat);
    } else {
        assert(b * pow2(0) == b) by (nonlinear_arith)
            requires
                pow2(0) == 1,
        ;
    }
}

/// Law: an exponential strategy with base `b` offers, as its `k`-th delay,
/// `b * 2^k` clamped to its ceiling, for as long as `b * 2^k` is
/// representable and no retry cap interferes.
pub proof fn lemma_exponential_delays(g: ExponentialBackoff, b: u64, k: nat)
    requires
        forall|j: nat| g.growth(j) == sat_dbl_n(b, j),
        g.remaining() matches Some(rem) ==> k < rem,
        b * pow2(k) <= u64::MAX,
    ensures
        g.nominal(k) == Some(clamped((b * pow2(k)) as u64, g.ceiling())),
{
    lemma_sat_dbl_n_exact(b, k);
}

/// Law: an exponential strategy capped at `m` retries (and not yet pulled
/// from) offers a delay at exactly the first `m` positions.
pub proof fn lemma_exponential_exhausts(g: ExponentialBackoff, m: nat, k: nat)
    requires
        g.limit() == Some(m),
        g.pulls_made() == 0,
    ensures
        g.nominal(k) is Some <==> k < m,
{
}

/// While `b * fib(i + k + 2)` is representable, the saturating Fibonacci
/// chain seeded with consecutive scaled Fibonacci numbers stays exact.
proof fn lemma_fib_chain_gen(b: u64, i: nat, k: nat)
    requires
        b * fib(i + k + 2) <= u64::MAX,
    ensures
        fib_chain((b * fib(i + 1)) as u64, (b * fib(i + 2)) as u64, k) == b * fib(i + k + 1),
    decreases k,
{
    let f1 = fib(i + 1);
    let f2 = fib(i + 2);
    let fcap = fib(i + k + 2);
    lemma_fib_mono(i + 1, i + k + 2);
    assert(b * f1 <= b * fcap) by (nonlinear_arith)
        requires
            f1 <= fcap,
            b >= 0,
    ;
    lemma_fib_mono(i + 2, i + k + 2);
    assert(b * f2 <= b * fcap) by (nonlinear_arith)
        requires
            f2 <= fcap,
            b >= 0,
    ;
    if k > 0 {
        assert(fib(i + 3) == f1 + f2);
        assert(b * f1 + b * f2 == b * (f1 + f2)) by (nonlinear_arith);
        lemma_fib_mono(i + 3, i + k + 2);
        assert(b * (f1 + f2) <= b * fcap) by (nonlinear_arith)
            requires
                f1 + f2 <= fcap,
                b >= 0,
        ;
        lemma_fib_chain_gen(b, i + 1, (k - 1) as nat);
    }
}

/// Law: while `b * fib(k + 2)` is representable, the `k`-th raw delay of a
/// Fibonacci strategy with base `b` is `b * fib(k + 1)`, that is, the
/// sequence `b, b, 2b, 3b, 5b, 8b, ...`.
pub proof fn lemma_fib_chain_exact(b: u64, k: nat)
    requires
        b * fib(k + 2) <= u64::MAX,
    ensures
        fib_chain(b, b, k) == b * fib(k + 1),
{
    assert(fib(0) == 0);
    assert(fib(1) == 1);
    assert(fib(2) == 1);
    assert(b * fib(1) == b && b * fib(2) == b) by (nonlinear_arith)
        requires
            fib(1) == 1,
            fib(2) == 1,
    ;
    lemma_fib_chain_gen(b, 0, k);
}

/// Law: a Fibonacci strategy with base `b` offers, as its `k`-th delay,
/// `b * fib(k + 1)` clamped to its ceiling, for as long as that value is
/// representable and no retry cap interferes.
pub proof fn lemma_fibonacci_delays(g: FibonacciBackoff, b: u64, k: nat)
    requires
        forall|j: nat| g.growth(j) == fib_chain(b, b, j),
        g.remaining() matches Some(rem) ==> k < rem,
        b * fib(k + 2) <= u64::MAX,
    ensures
        g.nominal(k) == Some(clamped((b * fib(k + 1)) as u64, g.ceiling())),
{
    lemma_fib_chain_exact(b, k);
}

/// Law: a Fibonacci strategy capped at `m` retries (and not yet pulled
/// from) offers a delay at exactly the first `m` positions.
pub proof fn lemma_fibonacci_exhausts(g: FibonacciBackoff, m: nat, k: nat)
    requires
        g.limit() == Some(m),
        g.pulls_made() == 0,
    ensures
        g.nominal(k) is Some <==> k < m,
{
}

/// Law: the built-in retry cap and the external [`Limit::take`] decorator
/// are interchangeable — here stated for the exponential strategy: a fresh
/// strategy capped at `m` retries offers the same delay sequence as the
/// same strategy, uncapped, limited to its first `m` delays.
pub proof fn lemma_limiters_interchangeable(
    g: ExponentialBackoff,
    t: Take<ExponentialBackoff>,
    m: nat,
    k: nat,
)
    requires
        g.limit() == Some(m),
        g.pulls_made() == 0,
        t.left() == m,
        t.wrapped().limit() is None,
        forall|j: nat| t.wrapped().growth(j) == g.growth(j),
        t.wrapped().ceiling() == g.ceiling(),
    ensures
        t.nominal(k) == g.nominal(k),
{
}

/// Law: wrapping a strategy in jitter leaves its nominal delay sequence
/// (and so its exhaustion behavior) unchanged; each emitted delay stays
/// between zero and the wrapped strategy's nominal delay by the contract of
/// [`Backoff::next`].
pub proof fn lemma_jitter_preserves_nominal<B: Backoff>(j: Jitter<B>, k: nat)
    ensures
        j.nominal(k) == j.wrapped().nominal(k),
        !j.is_exact(),
{
}

} // verus!

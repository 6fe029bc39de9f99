//! The sleeper capability: how the retry controller waits between attempts
//! and measures the session's elapsed time.
//!
//! The controller is agnostic to the underlying scheduler: any value
//! implementing [`Sleeper`] can be injected. [`RecordingSleeper`] is a
//! deterministic sleeper that logs the requested durations without actually
//! waiting, so retry sessions can be driven and inspected in tests; a
//! production sleeper wraps a real timer outside the verified library.

use vstd::prelude::*;

verus! {

/// Saturating addition on `u64`, used for a sleeper's clock.
pub open spec fn clock_add(t: u64, d: u64) -> u64 {
    if t + d > u64::MAX {
        u64::MAX
    } else {
        (t + d) as u64
    }
}

/// A capability that suspends the current task and tells the time.
///
/// `time` is the sleeper's monotonic clock, in milliseconds from an
/// arbitrary epoch; `log` records every duration slept through this
/// sleeper. A sleeper whose `steady` flag holds is deterministic: its clock
/// advances exactly by each slept duration and not otherwise, as a
/// recording sleeper's does. A real timer leaves `steady` false and only
/// promises that its clock never runs backwards and that each sleep lasts
/// at least the requested duration.
pub trait Sleeper {
    /// The sleeper's clock, in milliseconds.
    spec fn time(&self) -> u64;

    /// Every duration slept so far, oldest first.
    spec fn log(&self) -> Seq<u64>;

    /// Whether the clock advances exactly by the slept durations.
    spec fn steady(&self) -> bool;

    /// Reads the clock.
    fn elapsed(&mut self) -> (t: u64)
        ensures
            final(self).log() == old(self).log(),
            final(self).steady() == old(self).steady(),
            final(self).time() >= old(self).time(),
            old(self).steady() ==> final(self).time() == old(self).time(),
            t == final(self).time(),
    ;

    /// Suspends the current task for at least `duration_ms` milliseconds.
    fn sleep(&mut self, duration_ms: u64)
        ensures
            final(self).log() == old(self).log().push(duration_ms),
            final(self).steady() == old(self).steady(),
            final(self).time() >= old(self).time(),
            old(self).steady() ==> final(self).time() == clock_add(
                old(self).time(),
                duration_ms,
            ),
    ;
}

/// A deterministic sleeper that records the requested durations instead of
/// waiting: its clock is the saturating sum of everything slept so far.
#[derive(Debug, Clone)]
pub struct RecordingSleeper {
    total: u64,
    slept: Vec<u64>,
}

impl RecordingSleeper {
    /// Creates a recording sleeper with an empty log and its clock at zero.
    pub fn new() -> (r: Self)
        ensures
            r.time() == 0,
            r.log() == Seq::<u64>::empty(),
            r.steady(),
    {
        Self { total: 0, slept: Vec::new() }
    }

    /// How many sleeps have been recorded.
    pub fn count(&self) -> (n: usize)
        ensures
            n == self.log().len(),
    {
        self.slept.len()
    }

    /// The recorded duration of the `i`-th sleep.
    pub fn recorded(&self, i: usize) -> (d: u64)
        requires
            i < self.log().len(),
        ensures
            d == self.log()[i as int],
    {
        self.slept[i]
    }

    /// The saturating sum of all recorded durations.
    pub fn total_slept(&self) -> (t: u64)
        ensures
            t == self.time(),
    {
        self.total
    }
}

impl Sleeper for RecordingSleeper {
    closed spec fn time(&self) -> u64 {
        self.total
    }

    closed spec fn log(&self) -> Seq<u64> {
        self.slept@
    }

    closed spec fn steady(&self) -> bool {
        true
    }

    fn elapsed(&mut self) -> (t: u64) {
        self.total
    }

    fn sleep(&mut self, duration_ms: u64) {
        self.slept.push(duration_ms);
        self.total = self.total.saturating_add(duration_ms);
    }
}

/// A monotonic point in time, measured by the operating system.
#[verifier::external_type_specification]
#[verifier::external_body]
pub struct ExInstant(std::time::Instant);

/// Relies on `std::time::Instant::now`: a reading of the operating
/// system's monotonic clock. Nothing is promised of the value.
#[verifier::external_body]
fn instant_now() -> std::time::Instant {
    std::time::Instant::now()
}

/// Relies on `std::time::Instant::elapsed`: the wall-clock time since
/// `start`, here in whole milliseconds, saturating at `u64::MAX`. Nothing
/// is promised of the value: the clock is the machine's.
#[verifier::external_body]
fn millis_since(start: &std::time::Instant) -> u64 {
    let millis = start.elapsed().as_millis();
    if millis > u64::MAX as u128 {
        u64::MAX
    } else {
        millis as u64
    }
}

/// Relies on `async_std::task::block_on` driving `async_std::task::sleep`:
/// suspends the current thread for at least `duration_ms` milliseconds
/// (possibly longer, never less).
#[verifier::external_body]
fn suspend_for(duration_ms: u64) {
    async_std::task::block_on(async_std::task::sleep(
        std::time::Duration::from_millis(duration_ms),
    ))
}

/// A sleeper that really waits, suspending the current thread, and
/// measures elapsed time with the operating system's monotonic clock.
///
/// Its clock readings come from the machine, so nothing beyond
/// monotonicity holds of them (`steady` is false); the durations it is
/// asked to sleep are still logged exactly.
pub struct WallSleeper {
    started: std::time::Instant,
    last_seen: u64,
    asked: Ghost<Seq<u64>>,
}

impl WallSleeper {
    /// Creates a wall-clock sleeper; its clock starts at zero.
    pub fn new() -> (r: Self)
        ensures
            r.time() == 0,
            r.log() == Seq::<u64>::empty(),
            !r.steady(),
    {
        Self { started: instant_now(), last_seen: 0, asked: Ghost(Seq::empty()) }
    }
}

impl Sleeper for WallSleeper {
    closed spec fn time(&self) -> u64 {
        self.last_seen
    }

    closed spec fn log(&self) -> Seq<u64> {
        self.asked@
    }

    closed spec fn steady(&self) -> bool {
        false
    }

    fn elapsed(&mut self) -> (t: u64) {
        let now = millis_since(&self.started);
        if now > self.last_seen {
            self.last_seen = now;
        }
        self.last_seen
    }

    fn sleep(&mut self, duration_ms: u64) {
        suspend_for(duration_ms);
        self.asked = Ghost(self.asked@.push(duration_ms));
    }
}

} // verus!

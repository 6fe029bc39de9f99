//! Retry engine: backoff delay generators and a controller that drives a
//! fallible operation until it succeeds, a retry budget runs out, or the
//! error is judged non-retryable.
//!
//! All durations are whole milliseconds, carried as `u64` values.
//!
//! The controller is agnostic to how attempts are executed and how time
//! passes: the operation, the retry condition and the sleeper are injected
//! capabilities, so a recording sleeper can drive the loop in tests while a
//! real timer drives it in production.

pub mod backoff;
pub mod operation;
pub mod retry;
pub mod session;
pub mod sleep;

pub use backoff::Backoff;
pub use backoff::ExponentialBackoff;
pub use backoff::FibonacciBackoff;
pub use backoff::FixedDelay;
pub use backoff::Jitter;
pub use backoff::Limit;
pub use backoff::Take;
pub use operation::AlwaysRetry;
pub use operation::Condition;
pub use operation::NeverRetry;
pub use operation::Operation;
pub use operation::RejectCode;
pub use operation::ScriptedOperation;
pub use operation::default_condition;
pub use retry::Retry;
pub use sleep::RecordingSleeper;
pub use sleep::Sleeper;
pub use sleep::WallSleeper;

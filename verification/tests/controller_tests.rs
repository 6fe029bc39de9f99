use retrier::FixedDelay;
use retrier::Jitter;
use retrier::Limit;
use retrier::RecordingSleeper;
use retrier::Retry;
use retrier::ScriptedOperation;
use retrier::operation::RejectCode;
use retrier::operation::default_condition;

// The error codes the scripted operations fail with.
const FAIL: u64 = 7;
const PERMANENT: u64 = 99;

#[test]
fn test_success_on_first_try() {
    let op = ScriptedOperation::new(1, FAIL); // Succeeds on attempt 1
    let strategy = FixedDelay::new(10).take(5);

    let mut sleeper = RecordingSleeper::new();
    let mut retry = Retry::new(strategy, op);
    let result: Result<u64, u64> = retry.run(&mut sleeper);

    assert!(result.is_ok());
    assert_eq!(result.unwrap(), 1);
    assert_eq!(retry.operation().attempts_made(), 1);
}

#[test]
fn test_success_on_third_try() {
    let op = ScriptedOperation::new(3, FAIL); // Succeeds on attempt 3
    let strategy = FixedDelay::new(10).take(5);

    let mut sleeper = RecordingSleeper::new();
    let mut retry = Retry::new(strategy, op);
    let result: Result<u64, u64> = retry.run(&mut sleeper);

    assert!(result.is_ok());
    assert_eq!(result.unwrap(), 3);
    assert_eq!(retry.operation().attempts_made(), 3);
    assert_eq!(sleeper.count(), 2);
}

#[test]
fn test_failure_on_max_retries() {
    let op = ScriptedOperation::new(10, FAIL); // Succeeds on attempt 10
    let strategy = FixedDelay::new(10).take(3); // 3 retries = 4 total attempts

    let mut sleeper = RecordingSleeper::new();
    let mut retry = Retry::new(strategy, op);
    let result: Result<u64, u64> = retry.run(&mut sleeper);

    assert!(result.is_err());
    assert_eq!(result.unwrap_err(), FAIL);
    assert_eq!(retry.operation().attempts_made(), 4); // 1 initial + 3 retries
    // It slept 3 times (10ms + 10ms + 10ms).
    assert_eq!(sleeper.count(), 3);
    assert_eq!(sleeper.total_slept(), 30);
}

#[test]
fn test_failure_on_max_duration() {
    let op = ScriptedOperation::new(10, FAIL); // Succeeds on 10
    // Strategy allows 10 retries, but each sleeps 50ms.
    let strategy = FixedDelay::new(50).take(10);

    let mut sleeper = RecordingSleeper::new();
    let mut retry = Retry::new(strategy, op).with_max_duration(75); // Max duration is 75ms
    let result: Result<u64, u64> = retry.run(&mut sleeper);

    assert!(result.is_err());
    assert_eq!(result.unwrap_err(), FAIL);
    // Runs once (fail), sleeps (50ms), runs twice (fail).
    // The next sleep (50ms) would push past 75ms, so it stops.
    assert_eq!(retry.operation().attempts_made(), 2);
    assert_eq!(sleeper.count(), 1);
}

#[test]
fn test_failure_on_condition() {
    let op = ScriptedOperation::new(10, PERMANENT); // Fails with the permanent code
    let strategy = FixedDelay::new(10).take(5);

    let mut sleeper = RecordingSleeper::new();
    let mut retry = Retry::new(strategy, op).with_condition(RejectCode::new(PERMANENT));
    let result: Result<u64, u64> = retry.run(&mut sleeper);

    assert!(result.is_err());
    assert_eq!(result.unwrap_err(), PERMANENT);
    // Fails on the very first attempt, without sleeping.
    assert_eq!(retry.operation().attempts_made(), 1);
    assert_eq!(sleeper.count(), 0);
}

#[test]
fn test_never_retry_stops_immediately() {
    // The strategy is unlimited, but the fail-fast condition ends the
    // session on the first failure: one attempt, no sleep.
    let op = ScriptedOperation::new(0, FAIL); // Never succeeds
    let strategy = FixedDelay::new(10);

    let mut sleeper = RecordingSleeper::new();
    let mut retry = Retry::new(strategy, op).with_condition(retrier::NeverRetry);
    let result: Result<u64, u64> = retry.run(&mut sleeper);

    assert_eq!(result, Err(FAIL));
    assert_eq!(retry.operation().attempts_made(), 1);
    assert_eq!(sleeper.count(), 0);
}

#[test]
fn test_condition_retries_other_codes() {
    // The rejected code differs from the one the operation fails with, so
    // the session retries to success.
    let op = ScriptedOperation::new(3, FAIL);
    let strategy = FixedDelay::new(10).take(5);

    let mut sleeper = RecordingSleeper::new();
    let mut retry = Retry::new(strategy, op).with_condition(RejectCode::new(PERMANENT));
    let result: Result<u64, u64> = retry.run(&mut sleeper);

    assert_eq!(result, Ok(3));
    assert_eq!(retry.operation().attempts_made(), 3);
    assert_eq!(sleeper.count(), 2);
}

#[test]
fn test_sleep_log_records_delays() {
    let op = ScriptedOperation::new(3, FAIL);
    let strategy = FixedDelay::new(5).take(5);

    let mut sleeper = RecordingSleeper::new();
    let mut retry = Retry::new(strategy, op);
    let result: Result<u64, u64> = retry.run(&mut sleeper);

    assert_eq!(result, Ok(3));
    assert_eq!(sleeper.count(), 2);
    assert_eq!(sleeper.recorded(0), 5);
    assert_eq!(sleeper.recorded(1), 5);
    assert_eq!(sleeper.total_slept(), 10);
}

#[test]
fn test_strategy_exhaustion_returns_last_error() {
    let op = ScriptedOperation::new(0, 42); // Never succeeds
    let strategy = FixedDelay::new(10).take(3);

    let mut sleeper = RecordingSleeper::new();
    let mut retry = Retry::new(strategy, op);
    let result: Result<u64, u64> = retry.run(&mut sleeper);

    assert_eq!(result, Err(42));
    assert_eq!(retry.operation().attempts_made(), 4);
    assert_eq!(sleeper.count(), 3);
}

#[test]
fn test_budget_boundary_sleep_is_allowed() {
    let op = ScriptedOperation::new(10, FAIL);
    let strategy = FixedDelay::new(50).take(10);

    let mut sleeper = RecordingSleeper::new();
    let mut retry = Retry::new(strategy, op).with_max_duration(100);
    let result: Result<u64, u64> = retry.run(&mut sleeper);

    assert!(result.is_err());
    // A sleep landing exactly on the budget is still taken; the session
    // stops on the next failure, when the budget is spent.
    assert_eq!(retry.operation().attempts_made(), 3);
    assert_eq!(sleeper.count(), 2);
    assert_eq!(sleeper.total_slept(), 100);
}

#[test]
fn test_zero_delay_session() {
    let op = ScriptedOperation::new(4, FAIL);
    let strategy = FixedDelay::new(0).take(5);

    let mut sleeper = RecordingSleeper::new();
    let mut retry = Retry::new(strategy, op);
    let result: Result<u64, u64> = retry.run(&mut sleeper);

    assert_eq!(result, Ok(4));
    assert_eq!(retry.operation().attempts_made(), 4);
    assert_eq!(sleeper.count(), 3);
    assert_eq!(sleeper.total_slept(), 0);
}

#[test]
fn test_jittered_session_sleeps_within_bounds() {
    let op = ScriptedOperation::new(4, FAIL);
    let strategy = Jitter::new(FixedDelay::new(10)).take(5);

    let mut sleeper = RecordingSleeper::new();
    let mut retry = Retry::new(strategy, op);
    let result: Result<u64, u64> = retry.run(&mut sleeper);

    assert_eq!(result, Ok(4));
    assert_eq!(retry.operation().attempts_made(), 4);
    assert_eq!(sleeper.count(), 3);
    for i in 0..sleeper.count() {
        assert!(sleeper.recorded(i) <= 10);
    }
}

#[test]
fn test_default_condition_retries_everything() {
    assert!(default_condition(&FAIL));
    assert!(default_condition(&"any error at all"));

    // Retry::new installs the always-retry condition: a transient error
    // does not stop the session.
    let op = ScriptedOperation::new(2, FAIL);
    let strategy = FixedDelay::new(1).take(5);
    let mut sleeper = RecordingSleeper::new();
    let mut retry = Retry::new(strategy, op);
    let result: Result<u64, u64> = retry.run(&mut sleeper);
    assert_eq!(result, Ok(2));
    assert_eq!(retry.operation().attempts_made(), 2);
}

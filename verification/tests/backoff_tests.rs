use retrier::Backoff;
use retrier::ExponentialBackoff;
use retrier::FibonacciBackoff;
use retrier::FixedDelay;
use retrier::Jitter;
use retrier::Limit;

#[test]
fn test_fixed_delay() {
    let mut strategy = FixedDelay::new(1000).take(3);
    assert_eq!(strategy.next(), Some(1000));
    assert_eq!(strategy.next(), Some(1000));
    assert_eq!(strategy.next(), Some(1000));
    assert_eq!(strategy.next(), None);
}

#[test]
fn test_exponential_backoff() {
    let mut strategy = ExponentialBackoff::new(100).take(4);
    assert_eq!(strategy.next(), Some(100));
    assert_eq!(strategy.next(), Some(200));
    assert_eq!(strategy.next(), Some(400));
    assert_eq!(strategy.next(), Some(800));
    assert_eq!(strategy.next(), None);
}

#[test]
fn test_exponential_backoff_with_max_delay() {
    let mut strategy = ExponentialBackoff::new(100).with_max_delay(300).take(4);
    assert_eq!(strategy.next(), Some(100));
    assert_eq!(strategy.next(), Some(200));
    assert_eq!(strategy.next(), Some(300)); // Capped
    assert_eq!(strategy.next(), Some(300)); // Capped
    assert_eq!(strategy.next(), None);
}

#[test]
fn test_exponential_backoff_with_max_retries() {
    let mut strategy = ExponentialBackoff::new(100).with_max_retries(2);
    assert_eq!(strategy.next(), Some(100));
    assert_eq!(strategy.next(), Some(200));
    assert_eq!(strategy.next(), None); // Limit reached
}

#[test]
fn test_fibonacci_backoff() {
    let mut strategy = FibonacciBackoff::new(1000).take(6);
    assert_eq!(strategy.next(), Some(1000));
    assert_eq!(strategy.next(), Some(1000));
    assert_eq!(strategy.next(), Some(2000));
    assert_eq!(strategy.next(), Some(3000));
    assert_eq!(strategy.next(), Some(5000));
    assert_eq!(strategy.next(), Some(8000));
    assert_eq!(strategy.next(), None);
}

#[test]
fn test_fibonacci_backoff_with_max_retries() {
    let mut strategy = FibonacciBackoff::new(1000).with_max_retries(3);
    assert_eq!(strategy.next(), Some(1000));
    assert_eq!(strategy.next(), Some(1000));
    assert_eq!(strategy.next(), Some(2000));
    assert_eq!(strategy.next(), None); // Limit reached
}

#[test]
fn test_jitter_wrapper() {
    let fixed = FixedDelay::new(1000);
    let mut jitter = Jitter::new(fixed).take(10);
    for _ in 0..10 {
        let duration = jitter.next().unwrap();
        assert!(duration <= 1000);
    }
    assert_eq!(jitter.next(), None);
}

#[test]
fn test_fibonacci_backoff_with_max_delay() {
    let mut strategy = FibonacciBackoff::new(1000).with_max_delay(2500).take(5);
    assert_eq!(strategy.next(), Some(1000));
    assert_eq!(strategy.next(), Some(1000));
    assert_eq!(strategy.next(), Some(2000));
    assert_eq!(strategy.next(), Some(2500)); // Capped
    assert_eq!(strategy.next(), Some(2500)); // Capped
    assert_eq!(strategy.next(), None);
}

#[test]
fn test_exponential_backoff_saturates() {
    let mut strategy = ExponentialBackoff::new(u64::MAX / 2 + 1);
    assert_eq!(strategy.next(), Some(u64::MAX / 2 + 1));
    assert_eq!(strategy.next(), Some(u64::MAX));
    assert_eq!(strategy.next(), Some(u64::MAX));
}

#[test]
fn test_fibonacci_backoff_saturates() {
    let mut strategy = FibonacciBackoff::new(u64::MAX - 1);
    assert_eq!(strategy.next(), Some(u64::MAX - 1));
    assert_eq!(strategy.next(), Some(u64::MAX - 1));
    assert_eq!(strategy.next(), Some(u64::MAX));
    assert_eq!(strategy.next(), Some(u64::MAX));
}

#[test]
fn test_zero_base_delay_is_allowed() {
    let mut strategy = ExponentialBackoff::new(0).take(3);
    assert_eq!(strategy.next(), Some(0));
    assert_eq!(strategy.next(), Some(0));
    assert_eq!(strategy.next(), Some(0));
    assert_eq!(strategy.next(), None);
}

#[test]
fn test_take_zero_is_exhausted_at_once() {
    let mut strategy = FixedDelay::new(42).take(0);
    assert_eq!(strategy.next(), None);
    assert_eq!(strategy.next(), None);
}

#[test]
fn test_jitter_propagates_exhaustion() {
    let mut jitter = Jitter::new(FixedDelay::new(7).take(1));
    assert!(jitter.next().is_some());
    assert_eq!(jitter.next(), None);
}

#[test]
fn test_jitter_over_exponential_stays_below_nominal() {
    let mut plain = ExponentialBackoff::new(100).take(5);
    let mut jitter = Jitter::new(ExponentialBackoff::new(100)).take(5);
    for _ in 0..5 {
        let bound = plain.next().unwrap();
        let jittered = jitter.next().unwrap();
        assert!(jittered <= bound);
    }
    assert_eq!(jitter.next(), None);
}

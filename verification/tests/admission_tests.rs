//! Tests for the token-bucket admission control.

use abi_gateway::admission::TokenBucket;

#[test]
fn burst_is_admitted_then_rejected() {
    let mut bucket = TokenBucket::new(5, 2, 0);
    for _ in 0..5 {
        assert!(bucket.try_admit(0));
    }
    assert!(!bucket.try_admit(0), "the sixth request in the same instant exceeds the burst");
}

#[test]
fn tokens_refill_at_the_configured_rate() {
    let mut bucket = TokenBucket::new(5, 2, 0);
    for _ in 0..5 {
        assert!(bucket.try_admit(0));
    }
    assert!(!bucket.try_admit(0));
    assert!(bucket.try_admit(1), "one elapsed unit refills two tokens");
    assert!(bucket.try_admit(1));
    assert!(!bucket.try_admit(1));
}

#[test]
fn refill_is_capped_at_capacity() {
    let mut bucket = TokenBucket::new(3, 1, 0);
    for _ in 0..3 {
        assert!(bucket.try_admit(1_000_000));
    }
    assert!(!bucket.try_admit(1_000_000), "a long idle period refills at most the capacity");
}

#[test]
fn a_clock_that_moves_backwards_adds_nothing() {
    let mut bucket = TokenBucket::new(2, 1, 100);
    assert!(bucket.try_admit(100));
    assert!(bucket.try_admit(50));
    assert!(!bucket.try_admit(50));
}

#[test]
fn rejected_requests_consume_nothing() {
    let mut bucket = TokenBucket::new(1, 1, 0);
    assert!(bucket.try_admit(0));
    assert!(!bucket.try_admit(0));
    assert!(!bucket.try_admit(0));
    assert!(bucket.try_admit(1), "rejections must not push the refill point forward past now");
}

use escrow_ledger::replay::{MonotonicGuard, ReplayRejected, UniqueGuard};

#[test]
fn monotonic_accepts_increasing_nonces() {
    let mut g = MonotonicGuard::new();
    assert_eq!(g.last_nonce(1), None);
    assert_eq!(g.check_and_record(1, 5), Ok(()));
    assert_eq!(g.check_and_record(1, 6), Ok(()));
    assert_eq!(g.check_and_record(1, 100), Ok(()));
    assert_eq!(g.last_nonce(1), Some(100));
}

#[test]
fn monotonic_rejects_equal_and_smaller_nonces() {
    let mut g = MonotonicGuard::new();
    assert_eq!(g.check_and_record(1, 5), Ok(()));
    assert_eq!(g.check_and_record(1, 5), Err(ReplayRejected { subject: 1, nonce: 5 }));
    assert_eq!(g.check_and_record(1, 4), Err(ReplayRejected { subject: 1, nonce: 4 }));
    assert_eq!(g.last_nonce(1), Some(5));
}

#[test]
fn monotonic_keeps_subjects_apart() {
    let mut g = MonotonicGuard::new();
    assert_eq!(g.check_and_record(1, 5), Ok(()));
    assert_eq!(g.check_and_record(2, 0), Ok(()));
    assert_eq!(g.check_and_record(2, 3), Ok(()));
    assert_eq!(g.last_nonce(1), Some(5));
    assert_eq!(g.last_nonce(2), Some(3));
}

#[test]
fn monotonic_same_nonce_twice_succeeds_once() {
    let mut g = MonotonicGuard::new();
    let results = [g.check_and_record(9, 42), g.check_and_record(9, 42)];
    assert_eq!(results.iter().filter(|r| r.is_ok()).count(), 1);
}

#[test]
fn unique_accepts_each_pair_once() {
    let mut g = UniqueGuard::new();
    assert!(!g.contains(1, 7));
    assert_eq!(g.check_and_record(1, 7), Ok(()));
    assert!(g.contains(1, 7));
    assert_eq!(g.check_and_record(1, 7), Err(ReplayRejected { subject: 1, nonce: 7 }));
    assert_eq!(g.check_and_record(1, 3), Ok(()));
    assert_eq!(g.check_and_record(2, 7), Ok(()));
}

#[test]
fn unique_same_nonce_twice_succeeds_once() {
    let mut g = UniqueGuard::new();
    let results = [g.check_and_record(4, 4), g.check_and_record(4, 4)];
    assert_eq!(results.iter().filter(|r| r.is_ok()).count(), 1);
}

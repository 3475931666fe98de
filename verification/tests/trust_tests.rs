use invisibly::trust::{TrustLevel, RecoveryState, TrustEventType, deduct_trust, deduct_trust_baseline, recover_trust,
    manual_verify, manual_verify_with_reason, get_trust_score, get_trust_history, get_recovery_state};

fn level(score: u8, state: RecoveryState) -> TrustLevel {
    TrustLevel { score, history: vec![], last_updated: String::new(), recovery_state: state }
}

#[test]
fn test_recover_from_zero_is_not_locked() {
    let mut trust = level(0, RecoveryState::Fast);
    trust.recover(0);
    assert!(trust.score > 0, "score stuck at 0 after recover() - the exact regression this test guards against");
}

#[test]
fn test_recovery_is_faster_near_bottom_than_near_top() {
    let mut low = level(10, RecoveryState::Fast);
    let mut high = level(95, RecoveryState::Locked);
    low.recover(0);
    high.recover(0);
    let low_gain = low.score - 10;
    let high_gain = high.score - 95;
    assert!(low_gain > high_gain, "recovery near 0 ({}) should be faster than recovery near 100 ({})", low_gain, high_gain);
}

#[test]
fn test_recover_never_exceeds_100() {
    let mut trust = level(99, RecoveryState::Locked);
    trust.recover(0);
    assert!(trust.score <= 100);
}

#[test]
fn test_deduction_saturates_at_zero() {
    let mut trust = level(5, RecoveryState::Fast);
    trust.apply_deduction("test deduction larger than remaining score", 50, TrustEventType::Deduction);
    assert_eq!(trust.score, 0, "deduction should saturate at 0, not underflow");
}

#[test]
fn test_manual_verify_sets_100_from_any_score() {
    let mut trust = level(0, RecoveryState::Fast);
    trust.manual_verify("test", "unit-test");
    assert_eq!(trust.score, 100);
}

#[test]
fn recovery_steps_by_tier() {
    let cases = [(0u8, 5u8), (20, 25), (21, 24), (60, 63), (61, 63), (90, 92), (91, 92), (97, 98), (98, 99), (99, 99), (100, 100)];
    for (start, expected) in cases {
        let mut t = level(start, RecoveryState::Medium);
        t.recover(7);
        assert_eq!(t.score, expected, "from {}", start);
    }
}

#[test]
fn recovery_at_full_score_records_nothing() {
    let mut t = level(100, RecoveryState::Locked);
    t.recover(1);
    assert_eq!(t.score, 100);
    assert!(t.history.is_empty());
}

#[test]
fn recovery_records_reason_and_new_state() {
    let mut t = level(10, RecoveryState::Fast);
    recover_trust(&mut t, 5);
    assert_eq!(t.history.len(), 1);
    assert_eq!(t.history[0].reason, "Tiered recovery (Fast)");
    assert_eq!(t.history[0].new_score, 15);
    assert_eq!(t.history[0].deduction, 0);
    assert_eq!(t.history[0].event_type, TrustEventType::Recovery);
    assert_eq!(t.recovery_state, RecoveryState::Fast);
}

#[test]
fn deduction_updates_state_and_history() {
    let mut t = level(100, RecoveryState::Locked);
    deduct_trust(&mut t, "Timeline chain verification failed", 30);
    assert_eq!(get_trust_score(&t), 70);
    assert_eq!(get_recovery_state(&t), RecoveryState::Slow);
    let h = get_trust_history(&t);
    assert_eq!(h.len(), 1);
    assert_eq!(h[0].reason, "Timeline chain verification failed");
    assert_eq!(h[0].deduction, 30);
    assert_eq!(h[0].new_score, 70);
}

#[test]
fn manual_verification_reason_text() {
    let mut t = level(40, RecoveryState::Medium);
    manual_verify(&mut t);
    assert_eq!(t.history[0].reason, "Manual verification: API request (authorized by: dashboard-user)");
    manual_verify_with_reason(&mut t, "checked", "admin");
    assert_eq!(t.history[1].reason, "Manual verification: checked (authorized by: admin)");
    assert_eq!(t.recovery_state, RecoveryState::Locked);
}

#[test]
fn default_trust_level_is_full() {
    let t = TrustLevel::default();
    assert_eq!(t.score, 100);
    assert_eq!(t.recovery_state, RecoveryState::Locked);
    assert!(t.history.is_empty());
}

#[test]
fn automatic_recovery_stops_short_of_full_trust() {
    for start in [0u8, 20, 59, 89, 90, 97, 98] {
        let mut t = level(start, RecoveryState::Medium);
        recover_trust(&mut t, 5);
        assert!(t.score < 100);
    }
    let mut t = level(99, RecoveryState::Locked);
    recover_trust(&mut t, 5);
    assert_eq!(t.score, 99);
    assert!(t.history.is_empty());
    manual_verify(&mut t);
    assert_eq!(t.score, 100);
}

#[test]
fn recovery_state_tracks_the_score_across_writers() {
    fn tier(s: u8) -> RecoveryState {
        if s <= 20 { RecoveryState::Fast } else if s <= 60 { RecoveryState::Medium } else if s <= 90 { RecoveryState::Slow } else { RecoveryState::Locked }
    }
    let mut t = TrustLevel::default();
    assert_eq!(get_recovery_state(&t), tier(get_trust_score(&t)));
    deduct_trust(&mut t, "a", 50);
    assert_eq!(get_recovery_state(&t), RecoveryState::Medium);
    deduct_trust_baseline(&mut t, "b", 35);
    assert_eq!(get_trust_score(&t), 15);
    assert_eq!(get_recovery_state(&t), RecoveryState::Fast);
    recover_trust(&mut t, 1);
    assert_eq!(get_trust_score(&t), 20);
    assert_eq!(get_recovery_state(&t), tier(20));
    recover_trust(&mut t, 1);
    assert_eq!(get_recovery_state(&t), tier(get_trust_score(&t)));
    manual_verify(&mut t);
    assert_eq!(get_recovery_state(&t), RecoveryState::Locked);
}

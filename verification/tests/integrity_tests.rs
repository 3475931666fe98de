use invisibly::integrity::{calculate, Context, IntegrityWeights, IntegrityState, Status, Severity,
    evaluate_sr, evaluate_rdp, evaluate_vpn, clamp_weights};

fn issue(c: &str, m: &str) -> (String, String) {
    (c.to_string(), m.to_string())
}

fn neutral() -> Context {
    Context { is_public_wifi: false, is_vpn_connected: false, is_home_network: false }
}

fn calc(issues: &[(String, String)], lockdown: bool, valid: bool) -> invisibly::integrity::IntegrityReport {
    calculate(issues, lockdown, valid, &IntegrityWeights::default(), &neutral())
}

#[test]
fn test_healthy_state_returns_100() {
    let issues = vec![];
    let report = calc(&issues, false, true);
    assert_eq!(report.score, 100);
    assert_eq!(report.state, IntegrityState::Maintained);
    assert!(report.deductions.is_empty());
}

#[test]
fn test_dns_change_deducts_correctly() {
    let issues = vec![issue("dns", "DNS changed")];
    let report = calc(&issues, false, true);
    assert_eq!(report.score, 88);
    assert_eq!(report.state, IntegrityState::DriftDetected);
    assert_eq!(report.deductions.len(), 1);
    assert_eq!(report.deductions[0].points, 12);
}

#[test]
fn test_firewall_disabled_deducts_correctly() {
    let issues = vec![issue("firewall", "Firewall changed: OFF")];
    let report = calc(&issues, false, true);
    assert_eq!(report.score, 80);
    assert_eq!(report.state, IntegrityState::Compromised);
    assert_eq!(report.deductions.len(), 1);
    assert_eq!(report.deductions[0].points, 20);
}

#[test]
fn test_multiple_issues_deduct_correctly() {
    let issues = vec![issue("dns", "DNS changed"), issue("firewall", "Firewall changed: OFF")];
    let report = calc(&issues, false, true);
    assert_eq!(report.score, 68);
    assert_eq!(report.state, IntegrityState::Compromised);
    assert_eq!(report.deductions.len(), 2);
}

#[test]
fn test_lockdown_state_returns_100() {
    let issues = vec![issue("dns", "DNS changed")];
    let report = calc(&issues, true, true);
    assert_eq!(report.score, 100);
    assert_eq!(report.state, IntegrityState::Lockdown);
    assert!(report.deductions.is_empty());
}

#[test]
fn test_invalid_baseline_returns_0() {
    let issues = vec![issue("dns", "DNS changed")];
    let report = calc(&issues, false, false);
    assert_eq!(report.score, 0);
    assert_eq!(report.state, IntegrityState::Invalid);
    assert_eq!(report.deductions.len(), 1);
    assert_eq!(report.deductions[0].points, 100);
}

#[test]
fn test_score_capped_at_zero() {
    let issues = vec![
        issue("firewall", "Firewall changed: OFF"),
        issue("defender", "OFF"),
        issue("uac", "UAC changed: OFF"),
        issue("wu", "Windows Update changed: OFF"),
        issue("sr", "OFF"),
        issue("smartscreen", "SmartScreen changed: OFF"),
    ];
    let report = calc(&issues, false, true);
    assert_eq!(report.score, 0);
}

#[test]
fn test_error_sentinel_does_not_deduct() {
    let issues = vec![issue("dns", "ERROR_DNS_DETECTION_FAILED")];
    let report = calc(&issues, false, true);
    assert_eq!(report.score, 100);
    assert!(report.deductions.iter().all(|d| d.points == 0));
}

#[test]
fn test_error_sentinel_on_formerly_medium_category_does_not_deduct() {
    let issues = vec![issue("vpn", "ERROR_VPN_DETECTION_FAILED")];
    let report = calc(&issues, false, true);
    assert_eq!(report.score, 100);
    assert!(report.deductions.iter().all(|d| d.points == 0));
}

#[test]
fn test_arp_error_sentinel_does_not_deduct() {
    let issues = vec![issue("arp", "ERROR_ARP_DETECTION_FAILED")];
    let report = calc(&issues, false, true);
    assert_eq!(report.score, 100);
    assert!(report.deductions.iter().all(|d| d.points == 0));
}

#[test]
fn test_arp_change_is_low_severity_not_high() {
    let issues = vec![issue("arp", "ARP table changed")];
    let report = calc(&issues, false, true);
    assert_eq!(report.score, 98);
    assert_eq!(report.deductions[0].points, 2);
}

#[test]
fn control_status_lists_every_control_once() {
    let report = calc(&[], false, true);
    assert_eq!(report.control_status.len(), 34);
    assert_eq!(report.control_status[0].0, "firewall");
    assert_eq!(report.control_status[0].1.status, Status::Healthy);
    assert_eq!(report.control_status[0].1.reason, "Firewall is enabled");
    assert_eq!(report.control_status[33].0, "susp_proc");
}

#[test]
fn error_message_is_reported_as_unknown() {
    let c = evaluate_rdp(&[issue("rdp", "ERROR_X")]);
    assert_eq!(c.status, Status::Unknown);
    assert_eq!(c.reason, "RDP detection failed: ERROR_X");
    let sr = evaluate_sr(&[issue("sr", "ERROR_Y")]);
    assert_eq!(sr.reason, "System Restore is not available on this system");
}

#[test]
fn rdp_is_flagged_on_either_word() {
    assert_eq!(evaluate_rdp(&[issue("rdp", "RUNNING")]).status, Status::Warning);
    assert_eq!(evaluate_rdp(&[issue("rdp", "LISTENING")]).severity, Severity::Medium);
    assert_eq!(evaluate_rdp(&[issue("rdp", "STOPPED")]).status, Status::Healthy);
}

#[test]
fn vpn_multiplier_on_public_wifi() {
    let ctx = Context { is_public_wifi: true, is_vpn_connected: false, is_home_network: false };
    let issues = vec![issue("vpn", "DISCONNECTED")];
    let report = calculate(&issues, false, true, &IntegrityWeights::default(), &ctx);
    assert_eq!(report.deductions[0].points, 6);
    assert_eq!(report.score, 94);
    assert_eq!(evaluate_vpn(&issues).status, Status::Warning);
}

#[test]
fn vpn_at_home_costs_nothing_but_is_listed() {
    let ctx = Context { is_public_wifi: false, is_vpn_connected: false, is_home_network: true };
    let issues = vec![issue("vpn", "DISCONNECTED")];
    let report = calculate(&issues, false, true, &IntegrityWeights::default(), &ctx);
    assert_eq!(report.deductions.len(), 1);
    assert_eq!(report.deductions[0].points, 0);
    assert_eq!(report.score, 100);
    assert_eq!(report.state, IntegrityState::Maintained);
}

#[test]
fn context_detection_from_values() {
    let c = Context::detect("PUBLIC", "CONNECTED", Some("Home".to_string()), "Home");
    assert!(c.is_public_wifi && c.is_vpn_connected && c.is_home_network);
    let d = Context::detect("PRIVATE", "DISCONNECTED", None, "Unknown");
    assert!(!d.is_public_wifi && !d.is_vpn_connected && d.is_home_network);
    assert_eq!(c.deduction_multiplier("wifi_profile"), 2);
    assert_eq!(d.deduction_multiplier("dns"), 1);
}

#[test]
fn weights_are_clamped() {
    let w = clamp_weights(IntegrityWeights { critical: 200, high: 12, medium: 101, low: 2 });
    assert_eq!((w.critical, w.high, w.medium, w.low), (100, 12, 100, 2));
}

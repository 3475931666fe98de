use invisibly::autorepair::{
    auto_fix_for, alert_for, issue_pairs, issue_categories, tally_repairs, sync_repaired_baseline, repair_summary,
    run_auto_repair, run_scan_only, AutoFix, AlertKind, RepairInput, RepairRun, ScanInput,
};
use invisibly::server::DaemonState;
use invisibly::state::SystemState;
use invisibly::integrity::{Context, IntegrityWeights, IntegrityState};
use invisibly::trust::TrustLevel;

fn s(v: &[&str]) -> Vec<String> {
    v.iter().map(|x| x.to_string()).collect()
}

fn base() -> SystemState {
    SystemState {
        dns_servers: s(&["1.1.1.1"]), hosts_hash: "h".into(), arp_table: vec![], wifi_ssid: "Home".into(),
        proxy_settings: s(&["None"]), network_devices: vec![], network_adapters: vec![], listening_ports: vec![],
        startup_entries: vec![], firewall_profiles: vec![], scheduled_tasks: vec![], services_list: vec![],
        defender_status: "ON".into(), secure_boot: "ON".into(), login_failures: "LOW".into(),
        suspicious_processes: vec![], root_cas: vec![], bt_devices: vec![], hid_devices: vec![],
        installed_software: vec![], fake_extensions: vec![], unicode_bidi_files: vec![], homoglyph_domains: vec![],
        uac_status: "ON".into(), windows_update_status: "ON".into(), system_restore_status: "ON".into(),
        event_log_status: "OK".into(), smart_screen_status: "ON".into(), vpn_status: "DISCONNECTED".into(),
        ipv6_status: "ON".into(), wifi_profile_status: "PRIVATE".into(), doh_status: "ON".into(),
        laps_status: "ENABLED".into(), dhcp_server: "10.0.0.1".into(), bitlocker_status: "ON".into(),
        credential_guard_status: "ON".into(), rdp_status: "OFF".into(),
    }
}

fn ctx() -> Context {
    Context { is_public_wifi: false, is_vpn_connected: false, is_home_network: false }
}

fn trust(score: u8) -> TrustLevel {
    let mut t = TrustLevel::default();
    t.score = score;
    t
}

fn t3(a: &str, b: &str, c: &str) -> (String, String, String) {
    (a.to_string(), b.to_string(), c.to_string())
}

#[test]
fn fixes_and_alerts_by_category() {
    assert_eq!(auto_fix_for("hosts"), AutoFix::RestoreHosts);
    assert_eq!(auto_fix_for("dns"), AutoFix::FlagDns);
    assert_eq!(auto_fix_for("wifi"), AutoFix::NoFix);
    assert_eq!(auto_fix_for("rdp"), AutoFix::DisableRdp);
    assert_eq!(auto_fix_for("fakeext"), AutoFix::QuarantineFakeFiles);
    assert_eq!(auto_fix_for("bruteforce"), AutoFix::BlockBruteforceIps);
    assert_eq!(alert_for("arp"), Some(AlertKind::ServiceChange));
    assert_eq!(alert_for("devices"), Some(AlertKind::NewDevice));
    assert_eq!(alert_for("susp_proc"), Some(AlertKind::SuspiciousProcess));
    assert_eq!(alert_for("hosts"), None);
}

#[test]
fn issue_lists() {
    let issues = vec![t3("dns", "d1", "confirm"), t3("uac", "OFF", "automatic")];
    assert_eq!(issue_pairs(&issues), vec![("dns".to_string(), "d1".to_string()), ("uac".to_string(), "OFF".to_string())]);
    assert_eq!(issue_categories(&issues), s(&["dns", "uac"]));
}

#[test]
fn tally_sorts_issues() {
    let issues = vec![
        t3("hosts", "x", "automatic"), t3("defender", "OFF", "automatic"), t3("dns", "x", "automatic"),
        t3("wifi", "x", "automatic"), t3("startup", "x", "confirm"), t3("vpn", "x", "alert"),
        t3("secureboot", "OFF", "manual"), t3("odd", "x", "unknown"),
    ];
    let t = tally_repairs(&issues, &vec![true, false, true]);
    assert_eq!(t.repaired, s(&["hosts", "wifi"]));
    assert_eq!(t.failed, s(&["defender", "dns", "secureboot"]));
    assert_eq!(t.pending_confirm, s(&["startup"]));
    assert_eq!(t.alerted, s(&["vpn"]));
}

#[test]
fn baseline_sync_copies_only_safe_fields() {
    let b = base();
    let mut after = base();
    after.hosts_hash = "new".into();
    after.wifi_ssid = "Cafe".into();
    let (synced, did) = sync_repaired_baseline(&b, &after, &s(&["hosts", "wifi"]));
    assert!(did);
    assert_eq!(synced.hosts_hash, "new");
    assert_eq!(synced.wifi_ssid, "Home");
    let (_, none) = sync_repaired_baseline(&b, &after, &s(&["wifi", "tasks"]));
    assert!(!none);
}

#[test]
fn summary_text() {
    let issues = vec![t3("uac", "OFF", "automatic"), t3("startup", "x", "confirm")];
    let t = tally_repairs(&issues, &vec![true]);
    assert_eq!(repair_summary(&t, 91), "Repaired: [\"uac\"] | Alerted: [] | Failed: [] | Pending Confirm: [\"startup\"] | New Score: 91 | \u{26a0}\u{fe0f} Some changes require manual confirmation");
    let t2 = tally_repairs(&vec![], &vec![]);
    assert_eq!(repair_summary(&t2, 100), "Repaired: [] | Alerted: [] | Failed: [] | Pending Confirm: [] | New Score: 100");
}

#[test]
fn repair_run_outcomes() {
    let mut st = DaemonState::new();
    let w = IntegrityWeights::default();
    let m = run_auto_repair(&mut st, &trust(50), RepairInput::LoadFailed("gone".into()), false, &w, &ctx());
    assert_eq!(m, "Failed to load baseline: gone");
    let run = RepairRun { baseline: base(), current: base(), outcomes: vec![], current_after: base(), baseline_saved: true };
    assert_eq!(run_auto_repair(&mut st, &trust(50), RepairInput::Run(run), false, &w, &ctx()), "No changes detected");
    assert!(st.integrity_report.is_none());

    let mut cur = base();
    cur.uac_status = "OFF".into();
    let run = RepairRun { baseline: base(), current: cur, outcomes: vec![true], current_after: base(), baseline_saved: true };
    let m = run_auto_repair(&mut st, &trust(50), RepairInput::Run(run), false, &w, &ctx());
    assert_eq!(m, "Repaired: [\"uac\"] | Alerted: [] | Failed: [] | Pending Confirm: [] | New Score: 100");
    assert_eq!(st.trust_level, 50);
    assert_eq!(st.integrity_report.as_ref().unwrap().state, IntegrityState::Maintained);
}

#[test]
fn scan_run_outcomes() {
    let mut st = DaemonState::new();
    let w = IntegrityWeights::default();
    let m = run_scan_only(&mut st, &trust(70), ScanInput::BaselineInvalid, false, &w, &ctx());
    assert_eq!(m, "Scanned 34 signals | Baseline INVALID - manual review required");
    assert_eq!(st.integrity_report.as_ref().unwrap().state, IntegrityState::Invalid);
    assert_eq!(st.trust_level, 100);
    let m = run_scan_only(&mut st, &trust(70), ScanInput::Snapshots(base(), base()), false, &w, &ctx());
    assert_eq!(m, "Scanned 34 signals | No issues found | Score: 100");
    assert_eq!(st.trust_level, 70);
    let mut cur = base();
    cur.uac_status = "OFF".into();
    cur.vpn_status = "CONNECTED".into();
    let m = run_scan_only(&mut st, &trust(70), ScanInput::Snapshots(base(), cur), false, &w, &ctx());
    let score = st.integrity_report.as_ref().unwrap().score;
    assert_eq!(m, format!("Scanned 34 signals | 2 issue(s) found: [\"uac\", \"vpn\"] | Score: {}", score));
    assert!(score < 100);
    assert_eq!(run_scan_only(&mut st, &trust(70), ScanInput::LoadFailed("x".into()), false, &w, &ctx()), "Failed to load baseline: x");
}

#[test]
fn rdp_fake_files_and_bruteforce_count_by_outcome() {
    let issues = vec![
        t3("rdp", "LISTENING", "automatic"), t3("fakeext", "x", "automatic"), t3("bruteforce", "HIGH", "automatic"),
    ];
    let t = tally_repairs(&issues, &vec![true, false, false]);
    assert_eq!(t.repaired, s(&["rdp"]));
    assert_eq!(t.failed, s(&["fakeext", "bruteforce"]));
    let t = tally_repairs(&issues, &vec![false, true, true]);
    assert_eq!(t.repaired, s(&["fakeext", "bruteforce"]));
    assert_eq!(t.failed, s(&["rdp"]));
}

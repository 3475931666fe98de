use invisibly::daemon::{
    ideal_reference, apply_automatic_repair, penalize_new_issues, ghost_toggle_decision, should_regenerate_baseline,
    self_integrity_ok, scheduled_task_plan, task_create_command, tray_running, cycle_records, LoopFix, GhostToggle,
    TaskPlan, cycle_step, record_incident, CycleStep, Incident, invalid_baseline_action, regeneration_action,
    repair_follow_up, BaselineAction, RepairFollowUp,
};
use invisibly::behavior::detect_all_changes;
use invisibly::state::SystemState;
use invisibly::trust::{TrustLevel, TrustEventType};

fn s(v: &[&str]) -> Vec<String> {
    v.iter().map(|x| x.to_string()).collect()
}

fn machine() -> SystemState {
    SystemState {
        dns_servers: s(&["1.1.1.1"]), hosts_hash: "h".into(), arp_table: s(&["a"]), wifi_ssid: "Home".into(),
        proxy_settings: s(&["None"]), network_devices: s(&["d"]), network_adapters: vec![], listening_ports: vec![],
        startup_entries: s(&["app"]), firewall_profiles: vec![], scheduled_tasks: s(&["t1"]), services_list: s(&["s1"]),
        defender_status: "OFF".into(), secure_boot: "ON".into(), login_failures: "LOW".into(),
        suspicious_processes: vec![], root_cas: vec![], bt_devices: vec![], hid_devices: vec![],
        installed_software: vec![], fake_extensions: vec![], unicode_bidi_files: vec![], homoglyph_domains: vec![],
        uac_status: "ON".into(), windows_update_status: "ON".into(), system_restore_status: "ON".into(),
        event_log_status: "OK".into(), smart_screen_status: "ON".into(), vpn_status: "DISCONNECTED".into(),
        ipv6_status: "ON".into(), wifi_profile_status: "PRIVATE".into(), doh_status: "ON".into(),
        laps_status: "ENABLED".into(), dhcp_server: "10.0.0.1".into(), bitlocker_status: "ON".into(),
        credential_guard_status: "ON".into(), rdp_status: "LISTENING".into(),
    }
}

#[test]
fn first_run_reference_flags_only_universal_settings() {
    let m = machine();
    let ideal = ideal_reference(&m);
    assert_eq!(ideal.defender_status, "ON");
    assert_eq!(ideal.rdp_status, "OFF");
    assert!(ideal.proxy_settings.is_empty());
    assert_eq!(ideal.wifi_ssid, "Home");
    let found: Vec<String> = detect_all_changes(&ideal, &m).into_iter().map(|t| t.0).collect();
    assert_eq!(found, s(&["proxy", "defender", "rdp"]));
    let mut off = machine();
    off.rdp_status = "ERROR".into();
    assert_eq!(ideal_reference(&off).rdp_status, "ERROR");
}

#[test]
fn automatic_repair_gates() {
    let cur = machine();
    let mut b = machine();
    b.scheduled_tasks = s(&["old"]);
    assert_eq!(apply_automatic_repair("hosts", &mut b, &cur, false, true, |_| false), (true, false));
    assert_eq!(apply_automatic_repair("hosts", &mut b, &cur, true, false, |_| false), (true, false));
    assert_eq!(apply_automatic_repair("hosts", &mut b, &cur, true, true, |f| f == LoopFix::RestoreHosts), (true, false));
    assert_eq!(apply_automatic_repair("hosts", &mut b, &cur, true, true, |_| false), (false, false));
    assert_eq!(apply_automatic_repair("startup", &mut b, &cur, true, true, |_| false), (true, false));
    assert_eq!(b.scheduled_tasks, s(&["old"]));
    assert_eq!(apply_automatic_repair("tasks", &mut b, &cur, true, false, |_| false), (true, true));
    assert_eq!(b.scheduled_tasks, s(&["t1"]));
    b.wifi_ssid = "Old".into();
    assert_eq!(apply_automatic_repair("wifi", &mut b, &cur, true, true, |_| false), (true, true));
    assert_eq!(b.wifi_ssid, "Home");
    assert_eq!(apply_automatic_repair("unknown", &mut b, &cur, true, true, |_| false), (true, false));
}

#[test]
fn trust_is_charged_once_per_new_issue() {
    let mut t = TrustLevel::default();
    let mut penalized: Vec<String> = Vec::new();
    penalize_new_issues(&mut t, &mut penalized, &s(&["firewall", "dns", "wifi", "firewall"]));
    assert_eq!(t.score, 85);
    assert_eq!(t.history.len(), 2);
    assert_eq!(t.history[0].reason, "firewall compromised");
    assert_eq!(t.history[0].new_score, 90);
    assert_eq!(t.history[1].reason, "dns changed");
    assert_eq!(t.history[1].event_type, TrustEventType::Deduction);
    assert_eq!(penalized, s(&["firewall", "dns", "wifi"]));
    penalize_new_issues(&mut t, &mut penalized, &s(&["firewall", "dns", "wifi"]));
    assert_eq!(t.score, 87);
    assert_eq!(t.history.last().unwrap().event_type, TrustEventType::Recovery);
    penalize_new_issues(&mut t, &mut penalized, &s(&["dns"]));
    assert_eq!(penalized, s(&["dns"]));
    penalize_new_issues(&mut t, &mut penalized, &s(&["dns", "firewall"]));
    assert_eq!(t.history.last().unwrap().reason, "firewall compromised");
}

#[test]
fn ghost_toggle_rules() {
    assert_eq!(ghost_toggle_decision(true, false, false, None, 1000), GhostToggle::Enable);
    assert_eq!(ghost_toggle_decision(true, false, false, Some("990".into()), 1000), GhostToggle::Keep);
    assert_eq!(ghost_toggle_decision(true, false, false, Some(" 940 ".into()), 1000), GhostToggle::Enable);
    assert_eq!(ghost_toggle_decision(false, true, true, Some("bad".into()), 1000), GhostToggle::Disable);
    assert_eq!(ghost_toggle_decision(false, true, false, None, 1000), GhostToggle::Keep);
    assert_eq!(ghost_toggle_decision(true, true, true, None, 1000), GhostToggle::Keep);
    assert_eq!(ghost_toggle_decision(true, false, false, Some("2000".into()), 1000), GhostToggle::Enable);
}

#[test]
fn self_healing_checks() {
    assert!(should_regenerate_baseline(false, true, true, true));
    assert!(!should_regenerate_baseline(false, true, true, false));
    assert!(!should_regenerate_baseline(true, true, true, true));
    assert!(self_integrity_ok(Some("abc\n".into()), "abc"));
    assert!(!self_integrity_ok(Some("abd".into()), "abc"));
    assert!(self_integrity_ok(None, "abc"));
}

#[test]
fn scheduled_task_and_tray() {
    let out = Some("\"InvisiblyDaemon\",\"C:\\App\\invisibly-daemon.exe\"".to_string());
    assert_eq!(scheduled_task_plan(out.clone(), out.clone(), "C:\\Other\\x.exe"), TaskPlan::Keep);
    assert_eq!(scheduled_task_plan(out.clone(), Some("InvisiblyDaemon".into()), "C:\\x.exe"), TaskPlan::Create { delete_first: true });
    assert_eq!(scheduled_task_plan(None, None, "C:\\x.exe"), TaskPlan::Create { delete_first: false });
    assert_eq!(task_create_command("C:\\a b\\d.exe"), "schtasks /create /tn \"InvisiblyDaemon\" /tr \"C:\\a b\\d.exe\" /sc onlogon /rl highest /f");
    assert!(tray_running(Some("invisibly-tray.exe  1234".into())));
    assert!(!tray_running(Some("INFO: No tasks".into())));
    assert!(!tray_running(None));
}

#[test]
fn cycle_records_keep_reviewable_issues() {
    let issues = vec![
        ("dns".to_string(), "d".to_string(), "confirm".to_string()),
        ("uac".to_string(), "OFF".to_string(), "automatic".to_string()),
        ("vpn".to_string(), "v".to_string(), "alert".to_string()),
    ];
    let r = cycle_records(&issues);
    assert_eq!(r, vec![
        ("dns".to_string(), "confirm".to_string(), "d".to_string()),
        ("vpn".to_string(), "alert".to_string(), "v".to_string()),
    ]);
}

#[test]
fn change_steps_by_action_type() {
    assert_eq!(cycle_step("automatic"), CycleStep::Repair);
    assert_eq!(cycle_step("confirm"), CycleStep::QueueApproval);
    assert_eq!(cycle_step("alert"), CycleStep::Alert);
    assert_eq!(cycle_step("manual"), CycleStep::Manual);
    assert_eq!(cycle_step("later"), CycleStep::Unknown);
}

#[test]
fn incidents_charge_or_reward_trust() {
    let mut t = TrustLevel::default();
    record_incident(&mut t, Incident::ExecutableModified);
    assert_eq!(t.score, 60);
    assert_eq!(t.history.last().unwrap().reason, "Self-integrity check failed - executable modified");
    assert_eq!(t.history.last().unwrap().event_type, TrustEventType::Deduction);
    record_incident(&mut t, Incident::TimelineChainBroken);
    assert_eq!(t.score, 30);
    record_incident(&mut t, Incident::BaselineInvalid);
    assert_eq!(t.score, 5);
    record_incident(&mut t, Incident::HeartbeatBaselineInvalid);
    assert_eq!(t.score, 0);
    record_incident(&mut t, Incident::RepairCleared);
    assert!(t.score > 0);
    assert_eq!(t.history.last().unwrap().event_type, TrustEventType::Recovery);
}

#[test]
fn invalid_baseline_is_regenerated_only_when_safe() {
    assert_eq!(invalid_baseline_action(true, true, true), BaselineAction::Regenerate);
    assert_eq!(invalid_baseline_action(true, true, false), BaselineAction::ChargeAndStop);
    assert_eq!(invalid_baseline_action(false, true, true), BaselineAction::ChargeAndStop);
    assert_eq!(regeneration_action(true), BaselineAction::PublishCleanAndStop);
    assert_eq!(regeneration_action(false), BaselineAction::ChargeAndStop);
    assert_eq!(repair_follow_up(0), RepairFollowUp::ResetAndReward);
    assert_eq!(repair_follow_up(2), RepairFollowUp::IssuesRemain);
}

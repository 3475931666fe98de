use invisibly::state::SystemState;
use invisibly::behavior::{detect_all_changes, parse_profile, find_weakened_profiles, is_on_state};
use invisibly::detect::{diff, get_filtered_root_cas, first_run_sanitize};
use invisibly::policy::{detect_context, evaluate, evaluate_batch, PolicyContext};
use invisibly::order::sort_strings;

fn s(v: &[&str]) -> Vec<String> {
    v.iter().map(|x| x.to_string()).collect()
}

fn base() -> SystemState {
    SystemState {
        dns_servers: s(&["8.8.8.8", "1.1.1.1"]), hosts_hash: "h".into(), arp_table: s(&["a"]), wifi_ssid: "Home".into(),
        proxy_settings: s(&["None"]), network_devices: s(&["d"]), network_adapters: s(&["eth"]), listening_ports: vec![],
        startup_entries: vec![], firewall_profiles: s(&["Domain: True", "Private: True", "Public: True"]),
        scheduled_tasks: vec![], services_list: vec![], defender_status: "ON".into(), secure_boot: "ON".into(),
        login_failures: "LOW".into(), suspicious_processes: s(&["None"]), root_cas: s(&["None"]), bt_devices: vec![],
        hid_devices: vec![], installed_software: vec![], fake_extensions: vec![], unicode_bidi_files: vec![],
        homoglyph_domains: vec![], uac_status: "ON".into(), windows_update_status: "ON".into(),
        system_restore_status: "ON".into(), event_log_status: "OK".into(), smart_screen_status: "ON".into(),
        vpn_status: "DISCONNECTED".into(), ipv6_status: "ON".into(), wifi_profile_status: "PRIVATE".into(),
        doh_status: "ON".into(), laps_status: "ENABLED".into(), dhcp_server: "10.0.0.1".into(),
        bitlocker_status: "ON".into(), credential_guard_status: "ON".into(), rdp_status: "OFF".into(),
    }
}

#[test]
fn no_drift_no_changes() {
    assert!(detect_all_changes(&base(), &base()).is_empty());
    assert!(diff(&base(), &base()).is_empty());
}

#[test]
fn dns_change_on_same_network_needs_confirmation() {
    let mut c = base();
    c.dns_servers = s(&["6.6.6.6"]);
    let ch = detect_all_changes(&base(), &c);
    assert_eq!(ch.len(), 1);
    assert_eq!(ch[0].0, "dns");
    assert_eq!(ch[0].2, "confirm");
    assert_eq!(ch[0].1, "DNS changed from [\"1.1.1.1\", \"8.8.8.8\"] to [\"6.6.6.6\"] while network unchanged (SSID 'Home')");
}

#[test]
fn reordered_dns_is_not_drift() {
    let mut c = base();
    c.dns_servers = s(&["1.1.1.1", "8.8.8.8"]);
    assert!(detect_all_changes(&base(), &c).is_empty());
}

#[test]
fn network_switch_is_expected_drift() {
    let mut c = base();
    c.wifi_ssid = "Cafe".into();
    c.dns_servers = s(&["9.9.9.9"]);
    c.arp_table = s(&["b"]);
    c.dhcp_server = "192.168.1.1".into();
    let ch = detect_all_changes(&base(), &c);
    let cats: Vec<&str> = ch.iter().map(|t| t.0.as_str()).collect();
    assert_eq!(cats, vec!["wifi"]);
    assert_eq!(ch[0].1, "WiFi changed from 'Home' to 'Cafe'");
    assert_eq!(ch[0].2, "automatic");
}

#[test]
fn firewall_profile_disabled() {
    let mut c = base();
    c.firewall_profiles = s(&["Domain: True", "Private: False", "Public: True"]);
    let ch = detect_all_changes(&base(), &c);
    assert_eq!(ch.len(), 1);
    assert_eq!(ch[0].0, "firewall");
    assert_eq!(ch[0].1, "Firewall profile(s) disabled: [\"Private\"] (current: [\"Domain: True\", \"Private: False\", \"Public: True\"])");
    let mut e = c.clone();
    e.firewall_profiles = s(&["ERROR_FIREWALL"]);
    assert!(detect_all_changes(&base(), &e).is_empty());
}

#[test]
fn profiles_parse_and_compare() {
    assert_eq!(parse_profile(" Public : Enabled "), Some(("Public".to_string(), true)));
    assert_eq!(parse_profile("Domain: off"), Some(("Domain".to_string(), false)));
    assert_eq!(parse_profile("garbage"), None);
    let w = find_weakened_profiles(&s(&["A: on", "B: 1"]), &s(&["A: off", "B: true"]));
    assert_eq!(w, s(&["A"]));
}

#[test]
fn security_signals_have_actions() {
    let mut c = base();
    c.defender_status = "OFF".into();
    c.secure_boot = "OFF".into();
    c.rdp_status = "LISTENING".into();
    c.vpn_status = "CONNECTED".into();
    let ch = detect_all_changes(&base(), &c);
    let got: Vec<(&str, &str, &str)> = ch.iter().map(|t| (t.0.as_str(), t.1.as_str(), t.2.as_str())).collect();
    assert_eq!(got, vec![
        ("defender", "OFF", "automatic"),
        ("secureboot", "OFF", "manual"),
        ("vpn", "CONNECTED", "alert"),
        ("rdp", "LISTENING", "automatic"),
    ]);
}

#[test]
fn pairwise_diff_texts() {
    let mut c = base();
    c.uac_status = "OFF".into();
    c.hosts_hash = "x".into();
    let d = diff(&base(), &c);
    assert_eq!(d, vec![("hosts".to_string(), "Hosts modified".to_string()), ("uac".to_string(), "UAC: OFF".to_string())]);
    assert_eq!(get_filtered_root_cas(), s(&["None"]));
}

#[test]
fn first_run_sanity() {
    let issues = first_run_sanitize("OFF", &s(&["Public: OFF"]), "OFF", &s(&["http://p", "x"]), "HIGH (12)");
    assert_eq!(issues, s(&["DEFENDER_OFF", "FIREWALL_OFF", "SECURE_BOOT_OFF", "PROXY_SET", "BRUTE_FORCE"]));
    assert!(first_run_sanitize("ON", &s(&["Public: ON"]), "ON", &s(&["None", "x"]), "LOW").is_empty());
}

#[test]
fn policy_context_and_results() {
    let c = detect_context("PUBLIC", "DISCONNECTED", Some("Home".into()), "Cafe", false);
    assert!(c.is_public_wifi && !c.is_vpn_connected && !c.is_home_network);
    let r = evaluate("vpn", &c);
    assert_eq!(r.deduction, 12);
    assert_eq!(r.reason, "VPN disconnected on public WiFi \u{2014} traffic exposed");
    assert_eq!(evaluate("wifi_profile", &c).deduction, 2);
    assert_eq!(evaluate("firewall", &c).deduction, 20);
    assert_eq!(evaluate("other", &c).reason, "No policy applied");
    let home = detect_context("PRIVATE", "DISCONNECTED", None, "Unknown", false);
    assert!(home.is_home_network);
    assert_eq!(evaluate("vpn", &home).reason, "No VPN needed on trusted home network");
    let batch = evaluate_batch(&s(&["vpn", "firewall", "vpn", "dns"]), &c);
    let keys: Vec<&str> = batch.iter().map(|e| e.0.as_str()).collect();
    assert_eq!(keys, vec!["vpn", "firewall"]);
    let _ = PolicyContext { is_public_wifi: false, is_vpn_connected: false, is_home_network: false, is_locked_down: true };
}

#[test]
fn strings_sort_lexicographically() {
    assert_eq!(sort_strings(&s(&["b", "ab", "a"])), s(&["a", "ab", "b"]));
}

#[test]
fn dhcp_change_on_same_network_is_reported() {
    let mut c = base();
    c.dhcp_server = "10.0.0.66".into();
    let ch = detect_all_changes(&base(), &c);
    assert_eq!(ch, vec![("dhcp".to_string(), "10.0.0.66".to_string(), "alert".to_string())]);
}

#[test]
fn on_words_enable_a_profile() {
    for w in ["on", "true", "enabled", "1"] {
        assert!(is_on_state(w));
    }
    for w in ["off", "false", "0", "On", ""] {
        assert!(!is_on_state(w));
    }
}

#[test]
fn batch_keys_only_positive_categories_once() {
    let c = PolicyContext { is_public_wifi: true, is_vpn_connected: true, is_home_network: false, is_locked_down: false };
    let batch = evaluate_batch(&s(&["vpn", "defender", "wifi_profile", "defender", "other"]), &c);
    let keys: Vec<&str> = batch.iter().map(|e| e.0.as_str()).collect();
    assert_eq!(keys, vec!["defender", "wifi_profile"]);
    assert_eq!(batch[0].1.deduction, 20);
    assert_eq!(batch[1].1.deduction, 2);
}

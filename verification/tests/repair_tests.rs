use invisibly::repair::{
    flag_dns_changed, disable_bt_devices, alert_vpn_disconnected, alert_bitlocker_off, confirmed_repair_for,
    confirmed_repair_message, execute_confirmed_repair, is_fake_extension, new_network_devices,
    bruteforce_block_succeeded, strip_bidi, ConfirmedRepair, repair_log_line, incident_report,
    ghost_state_verified,
};

fn s(v: &[&str]) -> Vec<String> {
    v.iter().map(|x| x.to_string()).collect()
}

#[test]
fn notices_carry_their_texts() {
    let n = flag_dns_changed();
    assert_eq!(n.log_action, "DNS");
    assert_eq!(n.incident_action, "ConfirmationRequired");
    assert!(!n.outcome);
    assert_eq!(disable_bt_devices().incident_details, "Unknown BT devices detected - manual approval needed");
    assert!(!alert_vpn_disconnected().log_action.is_empty());
    assert!(!alert_bitlocker_off().incident_category.is_empty());
}

#[test]
fn confirmed_repairs_by_category() {
    assert_eq!(confirmed_repair_for("rdp"), Some(ConfirmedRepair::DisableRdp));
    assert_eq!(confirmed_repair_for("devices"), Some(ConfirmedRepair::BlockNewDevices));
    assert_eq!(confirmed_repair_for("wifi"), None);
    assert_eq!(confirmed_repair_message(ConfirmedRepair::ResetDns, true), "DNS reset to DHCP successfully");
    assert_eq!(confirmed_repair_message(ConfirmedRepair::ResetDns, false), "DNS reset failed - check logs");
    assert_eq!(execute_confirmed_repair("firewall", |r| r == ConfirmedRepair::EnableFirewall), "Firewall re-enabled successfully");
    assert_eq!(execute_confirmed_repair("hid", |_| false), "HID disable failed - check logs");
    assert_eq!(execute_confirmed_repair("nope", |_| true), "Unknown category: nope");
}

#[test]
fn fake_extensions_and_new_devices() {
    assert!(is_fake_extension("invoice.pdf.exe"));
    assert!(is_fake_extension("a.exe.txt"));
    assert!(!is_fake_extension("setup.exe"));
    assert_eq!(new_network_devices(&s(&["a", "b"]), &s(&["b", "c", "a", "d"])), s(&["c", "d"]));
}

#[test]
fn bruteforce_block_outcome() {
    assert!(bruteforce_block_succeeded("New-NetFirewallRule ok", "", Some(0)));
    assert!(!bruteforce_block_succeeded("New-NetFirewallRule ok", "Error: x", Some(0)));
    assert!(!bruteforce_block_succeeded("nothing", "", Some(0)));
    assert!(!bruteforce_block_succeeded("displayName", "", None));
}

#[test]
fn bidi_controls_are_stripped() {
    assert_eq!(strip_bidi("a\u{202E}b\u{200B}c\u{00AD}"), "abc");
    assert_eq!(strip_bidi("plain"), "plain");
}

#[test]
fn log_and_incident_texts() {
    assert_eq!(repair_log_line("2024-01-01 10:00:00", "DNS", "reset"), "2024-01-01 10:00:00|DNS|reset\n");
    assert_eq!(
        incident_report("D", "Hosts", "Success", "restored"),
        "========================================\nINVISIBLY INCIDENT REPORT\n========================================\nDate: D\nCategory: Hosts\nAction: Success\nSeverity: High\n\nDETAILS:\nrestored\n\n========================================\n"
    );
}

#[test]
fn ghost_mode_read_back() {
    assert!(ghost_state_verified("Allow\r\n1\r\n", true));
    assert!(!ghost_state_verified("Allow\n0\n", true));
    assert!(ghost_state_verified("\n Allow \n 0 \n", false));
    assert!(ghost_state_verified("Allow\n-0\n", false));
    assert!(!ghost_state_verified("Block\n1\n", true));
    assert!(!ghost_state_verified("Allow\n", false));
    assert!(!ghost_state_verified("Allow\nx\n", false));
}

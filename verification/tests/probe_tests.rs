use invisibly::probes::{
    read_listing, read_wifi, read_usb, read_dns, read_arp, read_network_devices, read_word, count_is_positive,
    read_login_failures, read_system_restore, read_smart_screen, read_vpn, read_ipv6, read_event_log, read_ports,
    read_installed_software, read_fake_extensions, read_unicode_bidi_files, read_homoglyph_domains,
    detect_port_scan, check_ransomware, read_hosts_hash, read_defender, read_secure_boot, read_uac,
    read_windows_update, read_wifi_profile, read_doh, read_laps, netstat_readable, read_firewall, read_startup,
    collect_state, ProbeOutputs,
};

fn s(v: &[&str]) -> Vec<String> {
    v.iter().map(|x| x.to_string()).collect()
}

fn some(x: &str) -> Option<String> {
    Some(x.to_string())
}

#[test]
fn listings_and_single_values() {
    assert_eq!(read_listing(some(" a \r\n\r\nb\n"), "None"), s(&["a", "b"]));
    assert_eq!(read_listing(some("\n"), "None"), s(&["None"]));
    assert_eq!(read_listing(None, "None"), s(&["None"]));
    assert_eq!(read_firewall(None), s(&["Unknown"]));
    assert_eq!(read_wifi(some(" Home\r\n")), "Home");
    assert_eq!(read_wifi(some("  ")), "Unknown");
    assert_eq!(read_usb(None), "");
    assert_eq!(read_usb(some(" SanDisk ")), "SanDisk");
    assert_eq!(read_startup(s(&["a.lnk"]), some("OneDrive\n")), s(&["a.lnk", "OneDrive"]));
    assert_eq!(read_startup(vec![], None), s(&["None"]));
}

#[test]
fn dns_servers_are_split_and_deduplicated() {
    assert_eq!(read_dns(some("8.8.8.8, 1.1.1.1\n1.1.1.1,,9.9.9.9\n")), s(&["8.8.8.8", "1.1.1.1", "9.9.9.9"]));
    assert_eq!(read_dns(some("")), s(&["Unknown"]));
    assert_eq!(read_dns(None), s(&["Unknown"]));
}

#[test]
fn arp_and_devices() {
    let out = "Interface: 10.0.0.5\n  Internet Address  Physical Address  Type\n  10.0.0.1   aa-bb   dynamic\n  224.0.0.22  01-00  static\n";
    assert_eq!(read_arp(some(out)), s(&["10.0.0.1   aa-bb   dynamic", "224.0.0.22  01-00  static"]));
    assert_eq!(read_network_devices(some(out)), s(&["10.0.0.1"]));
    assert_eq!(read_arp(some("nothing")), s(&["None"]));
    assert_eq!(read_network_devices(None), s(&["None"]));
}

#[test]
fn status_words() {
    assert_eq!(read_defender(some("True\r\n")), "ON");
    assert_eq!(read_defender(some("False")), "OFF");
    assert_eq!(read_defender(some("??")), "Unknown");
    assert_eq!(read_secure_boot(some("nope")), "OFF");
    assert_eq!(read_secure_boot(None), "Unknown");
    assert_eq!(read_uac(some("1")), "ON");
    assert_eq!(read_windows_update(some("Stopped")), "OFF");
    assert_eq!(read_wifi_profile(some("Domain")), "DOMAIN");
    assert_eq!(read_doh(None), "Unknown");
    assert_eq!(read_laps(some("0")), "DISABLED");
    assert_eq!(read_laps(None), "NOT_INSTALLED");
    assert_eq!(read_word(some(" b "), &[("a", "A"), ("b", "B")], "X", "M"), "B");
    assert_eq!(read_event_log(some("0")), "EMPTY");
    assert_eq!(read_event_log(some("1")), "OK");
    assert_eq!(read_event_log(None), "Unknown");
}

#[test]
fn counts_and_two_step_readings() {
    assert!(count_is_positive(" 3 "));
    assert!(!count_is_positive("0"));
    assert!(!count_is_positive("-2"));
    assert!(!count_is_positive("3000000000"));
    assert_eq!(read_login_failures(some("12")), "HIGH: 12 failures");
    assert_eq!(read_login_failures(some("3")), "3");
    assert_eq!(read_login_failures(some(" n/a ")), "n/a");
    assert_eq!(read_login_failures(None), "0");
    assert_eq!(read_system_restore(some("Running"), None), "ON");
    assert_eq!(read_system_restore(some("Stopped"), some("2")), "ON");
    assert_eq!(read_system_restore(None, some("0")), "OFF");
    assert_eq!(read_smart_screen(some("Off"), some("True")), "OFF");
    assert_eq!(read_smart_screen(some("?"), some("True")), "ON");
    assert_eq!(read_smart_screen(None, None), "Unknown");
    assert_eq!(read_vpn(some("0"), some("1")), "CONNECTED");
    assert_eq!(read_vpn(None, some("0")), "DISCONNECTED");
    assert_eq!(read_ipv6(some("2")), "ON");
    assert_eq!(read_ipv6(None), "OFF");
}

const NETSTAT: &str = "\nActive Connections\n\n  Proto  Local Address          Foreign Address        State           PID\n  TCP    0.0.0.0:445            0.0.0.0:0              LISTENING       4\n  TCP    0.0.0.0:135            0.0.0.0:0              LISTENING       900\n  TCP    127.0.0.1:12790        0.0.0.0:0              LISTENING       1\n  TCP    0.0.0.0:445            0.0.0.0:0              LISTENING       4\n  TCP    10.0.0.5:5000          8.8.4.4:443            ESTABLISHED     7\n  TCP    10.0.0.5:5001          8.8.4.4:443            ESTABLISHED     7\n  TCP    10.0.0.5:5002          10.0.0.9:443           ESTABLISHED     7\n";

#[test]
fn listening_ports_sorted_and_unique() {
    assert_eq!(read_ports(some(NETSTAT)), s(&["0.0.0.0:135", "0.0.0.0:445"]));
    assert!(read_ports(None).is_empty());
}

#[test]
fn port_scan_suspect() {
    assert!(netstat_readable(NETSTAT));
    assert!(!netstat_readable("a\nb\nc\nd\nx y z\n"));
    assert_eq!(detect_port_scan(some(NETSTAT), 1), "8.8.4.4");
    assert_eq!(detect_port_scan(some(NETSTAT), 2), "");
    assert_eq!(detect_port_scan(None, 0), "");
}

#[test]
fn software_files_and_lookalikes() {
    assert_eq!(read_installed_software(some("Notepad++\n  CCleaner Free \nMcAfee LiveSafe\n")), s(&["CCleaner Free", "McAfee LiveSafe"]));
    assert_eq!(read_installed_software(some("Notepad++")), s(&["None"]));
    assert_eq!(read_fake_extensions(&s(&["Invoice.PDF.exe", "setup.exe", "x.exe.zip"])), s(&["Invoice.PDF.exe", "x.exe.zip"]));
    assert_eq!(read_fake_extensions(&vec![]), s(&["None"]));
    assert_eq!(read_unicode_bidi_files(some("127.0.0.1 a\u{202E}b"), &s(&["ok.lnk", "e\u{200B}vil.lnk"])), s(&["C:\\Windows\\System32\\drivers\\etc\\hosts", "Startup: e\u{200B}vil.lnk"]));
    assert_eq!(read_unicode_bidi_files(None, &vec![]), s(&["None"]));
    assert_eq!(read_homoglyph_domains(&s(&["1.1.1.1", "p\u{430}ypal.com"]), some("# x comment\n1.2.3.4 \u{440}aypal.com \n")), s(&["p\u{430}ypal.com", "1.2.3.4 \u{440}aypal.com"]));
    assert_eq!(read_homoglyph_domains(&s(&["1.1.1.1"]), None), s(&["None"]));
}

#[test]
fn canaries_and_hosts_hash() {
    assert!(check_ransomware(&vec![Some(1), Some(2), Some(3), Some(4), Some(29)]));
    assert!(!check_ransomware(&vec![Some(1), Some(2), Some(3), Some(4), Some(30)]));
    assert!(!check_ransomware(&vec![Some(1), None, Some(3), Some(4), Some(5)]));
    assert_eq!(read_hosts_hash(some("abc")), "ba7816bf8f01cfea414140de5dae2223b00361a396177a9cb410ff61f20015ad");
    assert_eq!(read_hosts_hash(None), "unreadable");
}

fn no_output() -> ProbeOutputs {
    ProbeOutputs {
        dns: None, hosts: None, arp: None, wifi: None, proxy: None, adapters: None, netstat: None,
        startup_names: vec![], run_key: None, firewall: None, tasks: None, services: None, defender: None,
        secure_boot: None, login_failures: None, processes: None, bluetooth: None, hid: None, software: None,
        user_files: vec![], uac: None, windows_update: None, restore_service: None, restore_points: None,
        event_log: None, smart_screen_explorer: None, smart_screen_defender: None, vpn_adapters: None,
        vpn_processes: None, ipv6: None, wifi_profile: None, doh: None, laps: None,
    }
}

#[test]
fn snapshot_from_probe_outputs() {
    let empty = collect_state(no_output());
    assert_eq!(empty.dns_servers, s(&["Unknown"]));
    assert_eq!(empty.hosts_hash, "unreadable");
    assert_eq!(empty.wifi_ssid, "Unknown");
    assert_eq!(empty.firewall_profiles, s(&["Unknown"]));
    assert_eq!(empty.startup_entries, s(&["None"]));
    assert_eq!(empty.vpn_status, "DISCONNECTED");
    assert_eq!(empty.laps_status, "NOT_INSTALLED");
    assert_eq!(empty.system_restore_status, "OFF");
    assert_eq!(empty.rdp_status, "");

    let mut raw = no_output();
    raw.dns = some("8.8.8.8,1.1.1.1\r\n8.8.8.8\r\n");
    raw.hosts = some("127.0.0.1 localhost\n");
    raw.wifi = some("Home\r\n");
    raw.defender = some("True\r\n");
    raw.uac = some("0\r\n");
    raw.firewall = some("Domain:ON\r\nPublic:OFF\r\n");
    raw.user_files = s(&["invoice.pdf.exe", "notes.txt"]);
    raw.vpn_processes = some("2\r\n");
    let snap = collect_state(raw);
    assert_eq!(snap.dns_servers, s(&["8.8.8.8", "1.1.1.1"]));
    assert_eq!(snap.hosts_hash, read_hosts_hash(some("127.0.0.1 localhost\n")));
    assert_ne!(snap.hosts_hash, "127.0.0.1 localhost\n");
    assert_eq!(snap.wifi_ssid, "Home");
    assert_eq!(snap.defender_status, "ON");
    assert_eq!(snap.uac_status, "OFF");
    assert_eq!(snap.firewall_profiles, s(&["Domain:ON", "Public:OFF"]));
    assert_eq!(snap.fake_extensions, s(&["invoice.pdf.exe"]));
    assert_eq!(snap.vpn_status, "CONNECTED");
}

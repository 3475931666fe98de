//! Comparison of two snapshots, and the first-run sanity check.

use vstd::prelude::*;
use crate::state::{SystemState, StateView, opt_item, push_opt, any_other_than, any_containing, any_other_than_exec, any_containing_exec, pair_views, push_pair_if, prefixed, strings_eq};
use crate::text::{owned, views, contains, str_eq, str_contains};

verus! {

/// The pairwise difference between two snapshots, in a fixed category order.
/// The pairwise difference between two snapshots, in a fixed category order.
pub open spec fn spec_diff(a: StateView, b: StateView) -> Seq<(Seq<char>, Seq<char>)> {
    diff_signals(diff_files(diff_security(diff_network(Seq::empty(), a, b), a, b), a, b), a, b)
}

/// Network signals.
pub open spec fn diff_network(s: Seq<(Seq<char>, Seq<char>)>, a: StateView, b: StateView) -> Seq<(Seq<char>, Seq<char>)> {
    let s = push_opt(s, a.dns_servers != b.dns_servers, ("dns"@, "DNS changed"@));
    let s = push_opt(s, a.hosts_hash != b.hosts_hash, ("hosts"@, "Hosts modified"@));
    let s = push_opt(s, a.arp_table != b.arp_table, ("arp"@, "ARP changed"@));
    let s = push_opt(s, a.wifi_ssid != b.wifi_ssid, ("wifi"@, "WiFi changed"@));
    let s = push_opt(s, a.proxy_settings != b.proxy_settings, ("proxy"@, "Proxy changed"@));
    let s = push_opt(s, a.network_devices != b.network_devices, ("devices"@, "New device"@));
    let s = push_opt(s, a.network_adapters != b.network_adapters, ("adapter"@, "New network adapter"@));
    let s = push_opt(s, a.listening_ports != b.listening_ports, ("ports"@, "Ports changed"@));
    s
}

/// System-security signals.
pub open spec fn diff_security(s: Seq<(Seq<char>, Seq<char>)>, a: StateView, b: StateView) -> Seq<(Seq<char>, Seq<char>)> {
    let s = push_opt(s, a.startup_entries != b.startup_entries, ("startup"@, "Startup changed"@));
    let s = push_opt(s, a.firewall_profiles != b.firewall_profiles, ("firewall"@, "Firewall changed"@));
    let s = push_opt(s, a.scheduled_tasks != b.scheduled_tasks, ("tasks"@, "Tasks changed"@));
    let s = push_opt(s, a.services_list != b.services_list, ("services"@, "Services changed"@));
    let s = push_opt(s, a.defender_status != b.defender_status, ("defender"@, "Defender changed"@));
    let s = push_opt(s, a.secure_boot != b.secure_boot, ("secureboot"@, "Secure Boot changed"@));
    let s = push_opt(s, contains(a.login_failures, "HIGH"@) && a.login_failures != b.login_failures, ("bruteforce"@, "Brute force attack detected"@));
    let s = push_opt(s, a.suspicious_processes != b.suspicious_processes && any_other_than(b.suspicious_processes, "None"@), ("susp_proc"@, "Suspicious process running"@));
    let s = push_opt(s, a.root_cas != b.root_cas, ("rootca"@, "Root CA changed"@));
    s
}

/// Hardware, software and file signals.
pub open spec fn diff_files(s: Seq<(Seq<char>, Seq<char>)>, a: StateView, b: StateView) -> Seq<(Seq<char>, Seq<char>)> {
    let s = push_opt(s, a.bt_devices != b.bt_devices, ("bt"@, "New Bluetooth device"@));
    let s = push_opt(s, a.hid_devices != b.hid_devices, ("hid"@, "New HID device - possible BadUSB"@));
    let s = push_opt(s, a.installed_software != b.installed_software && any_other_than(b.installed_software, "None"@), ("bloatware"@, "Bloatware/PUP detected"@));
    let s = push_opt(s, a.fake_extensions != b.fake_extensions && any_other_than(b.fake_extensions, "None"@), ("fakeext"@, "Fake file extension found"@));
    let s = push_opt(s, a.unicode_bidi_files != b.unicode_bidi_files && any_other_than(b.unicode_bidi_files, "None"@), ("trojan_source"@, "Unicode bidi attack detected"@));
    let s = push_opt(s, a.homoglyph_domains != b.homoglyph_domains && any_other_than(b.homoglyph_domains, "None"@), ("homoglyph"@, "Homoglyph domain detected"@));
    s
}

/// Integrity signals.
pub open spec fn diff_signals(s: Seq<(Seq<char>, Seq<char>)>, a: StateView, b: StateView) -> Seq<(Seq<char>, Seq<char>)> {
    let s = push_opt(s, a.uac_status != b.uac_status, ("uac"@, "UAC: "@ + b.uac_status));
    let s = push_opt(s, a.windows_update_status != b.windows_update_status, ("wu"@, "Windows Update: "@ + b.windows_update_status));
    let s = push_opt(s, a.system_restore_status != b.system_restore_status, ("sr"@, "System Restore: "@ + b.system_restore_status));
    let s = push_opt(s, a.event_log_status != b.event_log_status, ("eventlog"@, "Event Log: "@ + b.event_log_status));
    let s = push_opt(s, a.smart_screen_status != b.smart_screen_status, ("smartscreen"@, "SmartScreen: "@ + b.smart_screen_status));
    let s = push_opt(s, a.vpn_status != b.vpn_status, ("vpn"@, "VPN: "@ + b.vpn_status));
    let s = push_opt(s, a.ipv6_status != b.ipv6_status, ("ipv6"@, "IPv6: "@ + b.ipv6_status));
    let s = push_opt(s, a.wifi_profile_status != b.wifi_profile_status, ("wifi_profile"@, "WiFi Profile: "@ + b.wifi_profile_status));
    let s = push_opt(s, a.doh_status != b.doh_status, ("doh"@, "DoH: "@ + b.doh_status));
    let s = push_opt(s, a.laps_status != b.laps_status, ("laps"@, "LAPS: "@ + b.laps_status));
    s
}

fn push_diff_network(a: &SystemState, b: &SystemState, d: &mut Vec<(String, String)>)
    ensures
        pair_views(final(d)@) == diff_network(pair_views(old(d)@), a@, b@),
{
    push_pair_if(d, !strings_eq(&a.dns_servers, &b.dns_servers), "dns", owned("DNS changed"));
    push_pair_if(d, !str_eq(a.hosts_hash.as_str(), b.hosts_hash.as_str()), "hosts", owned("Hosts modified"));
    push_pair_if(d, !strings_eq(&a.arp_table, &b.arp_table), "arp", owned("ARP changed"));
    push_pair_if(d, !str_eq(a.wifi_ssid.as_str(), b.wifi_ssid.as_str()), "wifi", owned("WiFi changed"));
    push_pair_if(d, !strings_eq(&a.proxy_settings, &b.proxy_settings), "proxy", owned("Proxy changed"));
    push_pair_if(d, !strings_eq(&a.network_devices, &b.network_devices), "devices", owned("New device"));
    push_pair_if(d, !strings_eq(&a.network_adapters, &b.network_adapters), "adapter", owned("New network adapter"));
    push_pair_if(d, !strings_eq(&a.listening_ports, &b.listening_ports), "ports", owned("Ports changed"));
}

fn push_diff_security(a: &SystemState, b: &SystemState, d: &mut Vec<(String, String)>)
    ensures
        pair_views(final(d)@) == diff_security(pair_views(old(d)@), a@, b@),
{
    push_pair_if(d, !strings_eq(&a.startup_entries, &b.startup_entries), "startup", owned("Startup changed"));
    push_pair_if(d, !strings_eq(&a.firewall_profiles, &b.firewall_profiles), "firewall", owned("Firewall changed"));
    push_pair_if(d, !strings_eq(&a.scheduled_tasks, &b.scheduled_tasks), "tasks", owned("Tasks changed"));
    push_pair_if(d, !strings_eq(&a.services_list, &b.services_list), "services", owned("Services changed"));
    push_pair_if(d, !str_eq(a.defender_status.as_str(), b.defender_status.as_str()), "defender", owned("Defender changed"));
    push_pair_if(d, !str_eq(a.secure_boot.as_str(), b.secure_boot.as_str()), "secureboot", owned("Secure Boot changed"));
    let brute = str_contains(a.login_failures.as_str(), "HIGH") && !str_eq(a.login_failures.as_str(), b.login_failures.as_str());
    push_pair_if(d, brute, "bruteforce", owned("Brute force attack detected"));
    let susp = !strings_eq(&a.suspicious_processes, &b.suspicious_processes) && any_other_than_exec(&b.suspicious_processes, "None");
    push_pair_if(d, susp, "susp_proc", owned("Suspicious process running"));
    push_pair_if(d, !strings_eq(&a.root_cas, &b.root_cas), "rootca", owned("Root CA changed"));
}

fn push_diff_files(a: &SystemState, b: &SystemState, d: &mut Vec<(String, String)>)
    ensures
        pair_views(final(d)@) == diff_files(pair_views(old(d)@), a@, b@),
{
    push_pair_if(d, !strings_eq(&a.bt_devices, &b.bt_devices), "bt", owned("New Bluetooth device"));
    push_pair_if(d, !strings_eq(&a.hid_devices, &b.hid_devices), "hid", owned("New HID device - possible BadUSB"));
    let bloat = !strings_eq(&a.installed_software, &b.installed_software) && any_other_than_exec(&b.installed_software, "None");
    push_pair_if(d, bloat, "bloatware", owned("Bloatware/PUP detected"));
    let fake = !strings_eq(&a.fake_extensions, &b.fake_extensions) && any_other_than_exec(&b.fake_extensions, "None");
    push_pair_if(d, fake, "fakeext", owned("Fake file extension found"));
    let bidi = !strings_eq(&a.unicode_bidi_files, &b.unicode_bidi_files) && any_other_than_exec(&b.unicode_bidi_files, "None");
    push_pair_if(d, bidi, "trojan_source", owned("Unicode bidi attack detected"));
    let homo = !strings_eq(&a.homoglyph_domains, &b.homoglyph_domains) && any_other_than_exec(&b.homoglyph_domains, "None");
    push_pair_if(d, homo, "homoglyph", owned("Homoglyph domain detected"));
}

fn push_diff_signals(a: &SystemState, b: &SystemState, d: &mut Vec<(String, String)>)
    ensures
        pair_views(final(d)@) == diff_signals(pair_views(old(d)@), a@, b@),
{
    push_pair_if(d, !str_eq(a.uac_status.as_str(), b.uac_status.as_str()), "uac", prefixed("UAC: ", &b.uac_status));
    push_pair_if(d, !str_eq(a.windows_update_status.as_str(), b.windows_update_status.as_str()), "wu", prefixed("Windows Update: ", &b.windows_update_status));
    push_pair_if(d, !str_eq(a.system_restore_status.as_str(), b.system_restore_status.as_str()), "sr", prefixed("System Restore: ", &b.system_restore_status));
    push_pair_if(d, !str_eq(a.event_log_status.as_str(), b.event_log_status.as_str()), "eventlog", prefixed("Event Log: ", &b.event_log_status));
    push_pair_if(d, !str_eq(a.smart_screen_status.as_str(), b.smart_screen_status.as_str()), "smartscreen", prefixed("SmartScreen: ", &b.smart_screen_status));
    push_pair_if(d, !str_eq(a.vpn_status.as_str(), b.vpn_status.as_str()), "vpn", prefixed("VPN: ", &b.vpn_status));
    push_pair_if(d, !str_eq(a.ipv6_status.as_str(), b.ipv6_status.as_str()), "ipv6", prefixed("IPv6: ", &b.ipv6_status));
    push_pair_if(d, !str_eq(a.wifi_profile_status.as_str(), b.wifi_profile_status.as_str()), "wifi_profile", prefixed("WiFi Profile: ", &b.wifi_profile_status));
    push_pair_if(d, !str_eq(a.doh_status.as_str(), b.doh_status.as_str()), "doh", prefixed("DoH: ", &b.doh_status));
    push_pair_if(d, !str_eq(a.laps_status.as_str(), b.laps_status.as_str()), "laps", prefixed("LAPS: ", &b.laps_status));
}

/// Lists every signal that differs between `a` and `b`, as (category, message).
pub fn diff(a: &SystemState, b: &SystemState) -> (d: Vec<(String, String)>)
    ensures
        pair_views(d@) == spec_diff(a@, b@),
{
    let mut d: Vec<(String, String)> = Vec::new();
    proof {
        assert(pair_views(d@) =~= Seq::empty());
    }
    push_diff_network(a, b, &mut d);
    push_diff_security(a, b, &mut d);
    push_diff_files(a, b, &mut d);
    push_diff_signals(a, b, &mut d);
    d
}

/// Root CA detection is switched off: the list always reads "None".
pub fn get_filtered_root_cas() -> (v: Vec<String>)
    ensures
        views(v@) == seq!["None"@],
{
    let mut v: Vec<String> = Vec::new();
    v.push(owned("None"));
    proof {
        assert(views(v@) =~= seq!["None"@]);
    }
    v
}

/// The issues the first-run sanity check reports, from the detected
/// Defender status, firewall profiles, Secure Boot status, proxy settings
/// and login-failure summary.
pub open spec fn spec_first_run_issues(
    defender: Seq<char>,
    firewall: Seq<Seq<char>>,
    secure_boot: Seq<char>,
    proxy: Seq<Seq<char>>,
    login_failures: Seq<char>,
) -> Seq<Seq<char>> {
    opt_item(defender != "ON"@, "DEFENDER_OFF"@)
    + opt_item(any_containing(firewall, "OFF"@), "FIREWALL_OFF"@)
    + opt_item(secure_boot == "OFF"@, "SECURE_BOOT_OFF"@)
    + opt_item(proxy.len() > 1 && proxy[0] != "None"@, "PROXY_SET"@)
    + opt_item(contains(login_failures, "HIGH"@), "BRUTE_FORCE"@)
}

fn push_if(v: &mut Vec<String>, c: bool, s: &str)
    ensures
        views(final(v)@) == views(old(v)@) + opt_item(c, s@),
{
    if c {
        v.push(owned(s));
    }
    proof {
        assert(views(v@) =~= views(old(v)@) + opt_item(c, s@));
    }
}

/// The first-run sanity check over freshly detected values.
pub fn first_run_sanitize(
    defender_status: &str,
    firewall: &Vec<String>,
    secure_boot: &str,
    proxy: &Vec<String>,
    login_failures: &str,
) -> (issues: Vec<String>)
    ensures
        views(issues@) == spec_first_run_issues(defender_status@, views(firewall@), secure_boot@,
            views(proxy@), login_failures@),
{
    let mut issues: Vec<String> = Vec::new();
    proof {
        assert(views(issues@) =~= Seq::empty());
    }
    push_if(&mut issues, !str_eq(defender_status, "ON"), "DEFENDER_OFF");
    push_if(&mut issues, any_containing_exec(firewall, "OFF"), "FIREWALL_OFF");
    push_if(&mut issues, str_eq(secure_boot, "OFF"), "SECURE_BOOT_OFF");
    let proxy_set = proxy.len() > 1 && !str_eq(proxy[0].as_str(), "None");
    push_if(&mut issues, proxy_set, "PROXY_SET");
    push_if(&mut issues, str_contains(login_failures, "HIGH"), "BRUTE_FORCE");
    issues
}

} // verus!

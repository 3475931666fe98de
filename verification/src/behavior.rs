//! Behavior-based detection: every change between a baseline snapshot and the
//! current one, each with the action it calls for.
//!
//! Action types: "automatic" (safe to auto-repair), "confirm" (needs user
//! confirmation), "alert" (alert only), "manual" (manual intervention).

use vstd::prelude::*;
use crate::state::{SystemState, StateView, push_opt, strings_eq};
use crate::text::{views, list_contains, owned, append, string_of, chars_of, trim, to_lowercase, format_debug_list,
    str_eq, str_starts_with, trimmed, lowercased, debug_list, starts_with};
use crate::order::{sort_strings, sorted_strings};

verus! {

/// The contents of a list of (category, details, action) triples.
pub open spec fn triple_views(v: Seq<(String, String, String)>) -> Seq<(Seq<char>, Seq<char>, Seq<char>)> {
    v.map_values(|t: (String, String, String)| (t.0@, t.1@, t.2@))
}

// ============================================
// FIREWALL PROFILE PARSING
// ============================================

/// Index of the first `c` in `s` at or after `k`.
pub open spec fn first_char_from(s: Seq<char>, c: char, k: int) -> Option<int>
    decreases s.len() - k,
{
    if k < 0 || k >= s.len() {
        None
    } else if s[k] == c {
        Some(k)
    } else {
        first_char_from(s, c, k + 1)
    }
}

/// A lowercased state word that means "enabled".
pub open spec fn is_on_word(s: Seq<char>) -> bool {
    s == "on"@ || s == "true"@ || s == "enabled"@ || s == "1"@
}

/// A "Name: State" profile line split at its first ':' into the trimmed
/// name and whether the trimmed, lowercased state means enabled; `None`
/// for a line without ':'.
pub open spec fn profile_entry(p: Seq<char>) -> Option<(Seq<char>, bool)> {
    match first_char_from(p, ':', 0) {
        Some(k) => Some((
            trimmed(p.subrange(0, k)),
            is_on_word(lowercased(trimmed(p.subrange(k + 1, p.len() as int)))),
        )),
        None => None,
    }
}

/// The state recorded for `name` by the last profile line naming it.
pub open spec fn profile_lookup(ps: Seq<Seq<char>>, name: Seq<char>, n: int) -> Option<bool>
    decreases n,
{
    if n <= 0 || n > ps.len() {
        None
    } else {
        match profile_entry(ps[n - 1]) {
            Some(e) => if e.0 == name { Some(e.1) } else { profile_lookup(ps, name, n - 1) },
            None => profile_lookup(ps, name, n - 1),
        }
    }
}

/// A profile that was on in `b` and is off in `c`.
pub open spec fn is_weakened(b: Seq<Seq<char>>, c: Seq<Seq<char>>, name: Seq<char>) -> bool {
    profile_lookup(b, name, b.len() as int) == Some(true) && profile_lookup(c, name, c.len() as int) == Some(false)
}

/// The weakened profile names among the first `k` baseline lines, each once,
/// in the order they first appear.
pub open spec fn weakened_upto(b: Seq<Seq<char>>, c: Seq<Seq<char>>, k: int) -> Seq<Seq<char>>
    decreases k,
{
    if k <= 0 || k > b.len() {
        Seq::empty()
    } else {
        let prev = weakened_upto(b, c, k - 1);
        match profile_entry(b[k - 1]) {
            Some(e) => if is_weakened(b, c, e.0) && !prev.contains(e.0) { prev.push(e.0) } else { prev },
            None => prev,
        }
    }
}

/// Every profile that was on in the baseline and is off now.
pub open spec fn weakened_profiles(b: Seq<Seq<char>>, c: Seq<Seq<char>>) -> Seq<Seq<char>> {
    weakened_upto(b, c, b.len() as int)
}

fn find_char(s: &[char], c: char) -> (r: Option<usize>)
    ensures
        match r {
            Some(k) => first_char_from(s@, c, 0) == Some(k as int) && k < s.len(),
            None => first_char_from(s@, c, 0) is None,
        },
{
    let mut i: usize = 0;
    while i < s.len()
        invariant
            i <= s@.len(),
            first_char_from(s@, c, 0) == first_char_from(s@, c, i as int),
        decreases s@.len() - i,
    {
        if s[i] == c {
            return Some(i);
        }
        i = i + 1;
    }
    None
}

fn slice_string(s: &Vec<char>, from: usize, to: usize) -> (r: String)
    requires
        from <= to <= s@.len(),
    ensures
        r@ == s@.subrange(from as int, to as int),
{
    let mut v: Vec<char> = Vec::new();
    let mut i = from;
    while i < to
        invariant
            from <= i <= to <= s@.len(),
            v@ == s@.subrange(from as int, i as int),
        decreases to - i,
    {
        v.push(s[i]);
        i = i + 1;
        proof {
            assert(v@ =~= s@.subrange(from as int, i as int));
        }
    }
    string_of(v.as_slice())
}

/// Whether a lowercased profile state means enabled.
pub fn is_on_state(lower: &str) -> (b: bool)
    ensures
        b == is_on_word(lower@),
{
    str_eq(lower, "on") || str_eq(lower, "true") || str_eq(lower, "enabled") || str_eq(lower, "1")
}

/// Parses one "Name: State" firewall profile line.
pub fn parse_profile(p: &str) -> (r: Option<(String, bool)>)
    ensures
        match r {
            Some(e) => profile_entry(p@) == Some((e.0@, e.1)),
            None => profile_entry(p@) is None,
        },
{
    let pc = chars_of(p);
    match find_char(pc.as_slice(), ':') {
        Some(k) => {
            let name_raw = slice_string(&pc, 0, k);
            let state_raw = slice_string(&pc, k + 1, pc.len());
            let name = trim(name_raw.as_str());
            let state_trimmed = trim(state_raw.as_str());
            let state = to_lowercase(state_trimmed.as_str());
            Some((name, is_on_state(state.as_str())))
        },
        None => None,
    }
}

fn parse_profiles(ps: &Vec<String>) -> (r: Vec<Option<(String, bool)>>)
    ensures
        r@.len() == ps@.len(),
        forall|i: int| 0 <= i < ps@.len() ==> match #[trigger] r@[i] {
            Some(e) => profile_entry(ps@[i]@) == Some((e.0@, e.1)),
            None => profile_entry(ps@[i]@) is None,
        },
{
    let mut r: Vec<Option<(String, bool)>> = Vec::new();
    let mut i: usize = 0;
    while i < ps.len()
        invariant
            i <= ps@.len(),
            r@.len() == i,
            forall|j: int| 0 <= j < i ==> match #[trigger] r@[j] {
                Some(e) => profile_entry(ps@[j]@) == Some((e.0@, e.1)),
                None => profile_entry(ps@[j]@) is None,
            },
        decreases ps@.len() - i,
    {
        r.push(parse_profile(ps[i].as_str()));
        i = i + 1;
    }
    r
}

fn lookup(ps: &Vec<String>, parsed: &Vec<Option<(String, bool)>>, name: &str) -> (r: Option<bool>)
    requires
        parsed@.len() == ps@.len(),
        forall|i: int| 0 <= i < ps@.len() ==> match #[trigger] parsed@[i] {
            Some(e) => profile_entry(ps@[i]@) == Some((e.0@, e.1)),
            None => profile_entry(ps@[i]@) is None,
        },
    ensures
        r == profile_lookup(views(ps@), name@, ps@.len() as int),
{
    let mut n = parsed.len();
    while n > 0
        invariant
            n <= parsed@.len(),
            parsed@.len() == ps@.len(),
            forall|i: int| 0 <= i < ps@.len() ==> match #[trigger] parsed@[i] {
                Some(e) => profile_entry(ps@[i]@) == Some((e.0@, e.1)),
                None => profile_entry(ps@[i]@) is None,
            },
            profile_lookup(views(ps@), name@, ps@.len() as int) == profile_lookup(views(ps@), name@, n as int),
        decreases n,
    {
        let ghost j = n - 1;
        assert(views(ps@)[j as int] == ps@[j as int]@);
        match &parsed[n - 1] {
            Some(e) => {
                if str_eq(e.0.as_str(), name) {
                    return Some(e.1);
                }
            },
            None => {},
        }
        n = n - 1;
    }
    None
}


/// The firewall profiles that were on in the baseline and are off now.
pub fn find_weakened_profiles(baseline: &Vec<String>, current: &Vec<String>) -> (w: Vec<String>)
    ensures
        views(w@) == weakened_profiles(views(baseline@), views(current@)),
{
    let bp = parse_profiles(baseline);
    let cp = parse_profiles(current);
    let mut w: Vec<String> = Vec::new();
    let mut k: usize = 0;
    while k < baseline.len()
        invariant
            k <= baseline@.len(),
            bp@.len() == baseline@.len(),
            cp@.len() == current@.len(),
            forall|i: int| 0 <= i < baseline@.len() ==> match #[trigger] bp@[i] {
                Some(e) => profile_entry(baseline@[i]@) == Some((e.0@, e.1)),
                None => profile_entry(baseline@[i]@) is None,
            },
            forall|i: int| 0 <= i < current@.len() ==> match #[trigger] cp@[i] {
                Some(e) => profile_entry(current@[i]@) == Some((e.0@, e.1)),
                None => profile_entry(current@[i]@) is None,
            },
            views(w@) == weakened_upto(views(baseline@), views(current@), k as int),
        decreases baseline@.len() - k,
    {
        assert(views(baseline@)[k as int] == baseline@[k as int]@);
        match &bp[k] {
            Some(e) => {
                let name = e.0.as_str();
                let was = lookup(baseline, &bp, name);
                let now = lookup(current, &cp, name);
                if was == Some(true) && now == Some(false) && !list_contains(&w, name) {
                    let ghost prev = views(w@);
                    w.push(owned(name));
                    proof {
                        assert(views(w@) =~= prev.push(name@));
                    }
                }
            },
            None => {},
        }
        k = k + 1;
    }
    w
}

/// Some current profile reports a detection failure.
pub open spec fn has_firewall_error(c: Seq<Seq<char>>) -> bool {
    exists|i: int| 0 <= i < c.len() && starts_with(c[i], "ERROR_"@)
}

fn any_error(v: &Vec<String>) -> (r: bool)
    ensures
        r == has_firewall_error(views(v@)),
{
    let mut i: usize = 0;
    while i < v.len()
        invariant
            i <= v@.len(),
            forall|j: int| 0 <= j < i ==> !starts_with(v@[j]@, "ERROR_"@),
        decreases v@.len() - i,
    {
        if str_starts_with(v[i].as_str(), "ERROR_") {
            proof {
                assert(views(v@)[i as int] == v@[i as int]@);
            }
            return true;
        }
        i = i + 1;
    }
    proof {
        assert forall|j: int| 0 <= j < views(v@).len() implies !starts_with(views(v@)[j], "ERROR_"@) by {
            assert(views(v@)[j] == v@[j]@);
        }
    }
    false
}

// ============================================
// SPECIFICATION OF THE CHANGE LIST
// ============================================

pub type Change = (Seq<char>, Seq<char>, Seq<char>);

/// The network's identity (SSID, DHCP server, VPN, adapters) changed, which
/// makes DNS, ARP and device changes expected rather than suspicious.
pub open spec fn network_identity_changed(b: StateView, c: StateView) -> bool {
    b.wifi_ssid != c.wifi_ssid || b.dhcp_server != c.dhcp_server || b.vpn_status != c.vpn_status
        || b.network_adapters != c.network_adapters
}

/// The network itself (SSID, VPN, adapters) changed: a new DHCP server is
/// then expected; on the same network it suggests DHCP spoofing.
pub open spec fn network_switched(b: StateView, c: StateView) -> bool {
    b.wifi_ssid != c.wifi_ssid || b.vpn_status != c.vpn_status || b.network_adapters != c.network_adapters
}

/// The details line for a DNS change.
pub open spec fn dns_details(b: StateView, c: StateView) -> Seq<char> {
    "DNS changed from "@ + debug_list(sorted_strings(b.dns_servers)) + " to "@
        + debug_list(sorted_strings(c.dns_servers)) + " while network unchanged (SSID '"@
        + c.wifi_ssid + "')"@
}

/// The details line for disabled firewall profiles.
pub open spec fn firewall_details(b: StateView, c: StateView) -> Seq<char> {
    "Firewall profile(s) disabled: "@ + debug_list(weakened_profiles(b.firewall_profiles, c.firewall_profiles))
        + " (current: "@ + debug_list(c.firewall_profiles) + ")"@
}

pub open spec fn changes_network(s: Seq<Change>, b: StateView, c: StateView) -> Seq<Change> {
    let nic = network_identity_changed(b, c);
    let s = push_opt(s, sorted_strings(b.dns_servers) != sorted_strings(c.dns_servers) && !nic,
        ("dns"@, dns_details(b, c), "confirm"@));
    let s = push_opt(s, b.hosts_hash != c.hosts_hash, ("hosts"@, "Hosts file modified"@, "automatic"@));
    let s = push_opt(s, b.proxy_settings != c.proxy_settings,
        ("proxy"@, "Proxy changed from "@ + debug_list(b.proxy_settings) + " to "@ + debug_list(c.proxy_settings), "automatic"@));
    let s = push_opt(s, b.arp_table != c.arp_table && !nic,
        ("arp"@, "ARP table changed: "@ + debug_list(c.arp_table), "alert"@));
    let s = push_opt(s, b.wifi_ssid != c.wifi_ssid,
        ("wifi"@, "WiFi changed from '"@ + b.wifi_ssid + "' to '"@ + c.wifi_ssid + "'"@, "automatic"@));
    let s = push_opt(s, b.network_devices != c.network_devices && !nic,
        ("devices"@, "New network devices: "@ + debug_list(c.network_devices), "confirm"@));
    let s = push_opt(s, b.network_adapters != c.network_adapters,
        ("adapter"@, "Network adapters changed: "@ + debug_list(c.network_adapters), "confirm"@));
    s
}

pub open spec fn changes_security(s: Seq<Change>, b: StateView, c: StateView) -> Seq<Change> {
    let s = push_opt(s, !has_firewall_error(c.firewall_profiles)
        && weakened_profiles(b.firewall_profiles, c.firewall_profiles).len() > 0,
        ("firewall"@, firewall_details(b, c), "confirm"@));
    let s = push_opt(s, b.defender_status != c.defender_status, ("defender"@, c.defender_status, "automatic"@));
    let s = push_opt(s, b.uac_status != c.uac_status, ("uac"@, c.uac_status, "automatic"@));
    let s = push_opt(s, b.windows_update_status != c.windows_update_status, ("wu"@, c.windows_update_status, "automatic"@));
    let s = push_opt(s, b.system_restore_status != c.system_restore_status, ("sr"@, c.system_restore_status, "automatic"@));
    let s = push_opt(s, b.smart_screen_status != c.smart_screen_status, ("smartscreen"@, c.smart_screen_status, "automatic"@));
    let s = push_opt(s, b.secure_boot != c.secure_boot, ("secureboot"@, c.secure_boot, "manual"@));
    s
}

pub open spec fn changes_persistence(s: Seq<Change>, b: StateView, c: StateView) -> Seq<Change> {
    let s = push_opt(s, b.startup_entries != c.startup_entries,
        ("startup"@, "Startup entries changed: "@ + debug_list(c.startup_entries), "confirm"@));
    let s = push_opt(s, b.scheduled_tasks != c.scheduled_tasks,
        ("tasks"@, "Scheduled tasks changed: "@ + debug_list(c.scheduled_tasks), "automatic"@));
    let s = push_opt(s, b.services_list != c.services_list,
        ("services"@, "Services changed: "@ + debug_list(c.services_list), "automatic"@));
    let s = push_opt(s, b.bt_devices != c.bt_devices,
        ("bt"@, "New Bluetooth devices: "@ + debug_list(c.bt_devices), "confirm"@));
    let s = push_opt(s, b.hid_devices != c.hid_devices,
        ("hid"@, "New HID devices: "@ + debug_list(c.hid_devices), "confirm"@));
    let s = push_opt(s, b.fake_extensions != c.fake_extensions,
        ("fakeext"@, "Fake extensions: "@ + debug_list(c.fake_extensions), "automatic"@));
    let s = push_opt(s, b.unicode_bidi_files != c.unicode_bidi_files,
        ("trojan_source"@, "Unicode bidi files: "@ + debug_list(c.unicode_bidi_files), "automatic"@));
    let s = push_opt(s, b.homoglyph_domains != c.homoglyph_domains,
        ("homoglyph"@, "Homoglyph domains: "@ + debug_list(c.homoglyph_domains), "alert"@));
    let s = push_opt(s, b.suspicious_processes != c.suspicious_processes,
        ("susp_proc"@, "Suspicious processes: "@ + debug_list(c.suspicious_processes), "alert"@));
    let s = push_opt(s, b.installed_software != c.installed_software,
        ("bloatware"@, "New software detected: "@ + debug_list(c.installed_software), "alert"@));
    s
}

pub open spec fn changes_signals(s: Seq<Change>, b: StateView, c: StateView) -> Seq<Change> {
    let switched = network_switched(b, c);
    let s = push_opt(s, b.login_failures != c.login_failures, ("bruteforce"@, c.login_failures, "automatic"@));
    let s = push_opt(s, b.vpn_status != c.vpn_status, ("vpn"@, c.vpn_status, "alert"@));
    let s = push_opt(s, b.ipv6_status != c.ipv6_status, ("ipv6"@, c.ipv6_status, "automatic"@));
    let s = push_opt(s, b.wifi_profile_status != c.wifi_profile_status, ("wifi_profile"@, c.wifi_profile_status, "automatic"@));
    let s = push_opt(s, b.doh_status != c.doh_status, ("doh"@, c.doh_status, "alert"@));
    let s = push_opt(s, b.laps_status != c.laps_status, ("laps"@, c.laps_status, "alert"@));
    let s = push_opt(s, b.dhcp_server != c.dhcp_server && !switched, ("dhcp"@, c.dhcp_server, "alert"@));
    let s = push_opt(s, b.bitlocker_status != c.bitlocker_status, ("bitlocker"@, c.bitlocker_status, "alert"@));
    let s = push_opt(s, b.credential_guard_status != c.credential_guard_status, ("credguard"@, c.credential_guard_status, "alert"@));
    let s = push_opt(s, b.rdp_status != c.rdp_status, ("rdp"@, c.rdp_status, "automatic"@));
    let s = push_opt(s, b.event_log_status != c.event_log_status, ("eventlog"@, c.event_log_status, "alert"@));
    s
}

/// Every change from baseline `b` to current `c`, in a fixed order.
pub open spec fn spec_all_changes(b: StateView, c: StateView) -> Seq<Change> {
    changes_signals(changes_persistence(changes_security(changes_network(Seq::empty(), b, c), b, c), b, c), b, c)
}

// ============================================
// IMPLEMENTATION
// ============================================

fn add_change(changes: &mut Vec<(String, String, String)>, cat: &str, details: String, action: &str)
    ensures
        triple_views(final(changes)@) == triple_views(old(changes)@).push((cat@, details@, action@)),
{
    changes.push((owned(cat), details, owned(action)));
    proof {
        assert(triple_views(changes@) =~= triple_views(old(changes)@).push((cat@, details@, action@)));
    }
}

fn listed(prefix: &str, v: &Vec<String>) -> (r: String)
    ensures
        r@ == prefix@ + debug_list(views(v@)),
{
    let mut r = owned(prefix);
    let d = format_debug_list(v.as_slice());
    append(&mut r, d.as_str());
    r
}

fn push_network(b: &SystemState, c: &SystemState, changes: &mut Vec<(String, String, String)>)
    ensures
        triple_views(final(changes)@) == changes_network(triple_views(old(changes)@), b@, c@),
{
    let nic = !str_eq(b.wifi_ssid.as_str(), c.wifi_ssid.as_str())
        || !str_eq(b.dhcp_server.as_str(), c.dhcp_server.as_str())
        || !str_eq(b.vpn_status.as_str(), c.vpn_status.as_str())
        || !strings_eq(&b.network_adapters, &c.network_adapters);
    let bdns = sort_strings(&b.dns_servers);
    let cdns = sort_strings(&c.dns_servers);
    if !strings_eq(&bdns, &cdns) && !nic {
        let mut d = listed("DNS changed from ", &bdns);
        append(&mut d, " to ");
        append(&mut d, format_debug_list(cdns.as_slice()).as_str());
        append(&mut d, " while network unchanged (SSID '");
        append(&mut d, c.wifi_ssid.as_str());
        append(&mut d, "')");
        add_change(changes, "dns", d, "confirm");
    }
    if !str_eq(b.hosts_hash.as_str(), c.hosts_hash.as_str()) {
        add_change(changes, "hosts", owned("Hosts file modified"), "automatic");
    }
    if !strings_eq(&b.proxy_settings, &c.proxy_settings) {
        let mut d = listed("Proxy changed from ", &b.proxy_settings);
        append(&mut d, " to ");
        append(&mut d, format_debug_list(c.proxy_settings.as_slice()).as_str());
        add_change(changes, "proxy", d, "automatic");
    }
    if !strings_eq(&b.arp_table, &c.arp_table) && !nic {
        add_change(changes, "arp", listed("ARP table changed: ", &c.arp_table), "alert");
    }
    if !str_eq(b.wifi_ssid.as_str(), c.wifi_ssid.as_str()) {
        let mut d = owned("WiFi changed from '");
        append(&mut d, b.wifi_ssid.as_str());
        append(&mut d, "' to '");
        append(&mut d, c.wifi_ssid.as_str());
        append(&mut d, "'");
        add_change(changes, "wifi", d, "automatic");
    }
    if !strings_eq(&b.network_devices, &c.network_devices) && !nic {
        add_change(changes, "devices", listed("New network devices: ", &c.network_devices), "confirm");
    }
    if !strings_eq(&b.network_adapters, &c.network_adapters) {
        add_change(changes, "adapter", listed("Network adapters changed: ", &c.network_adapters), "confirm");
    }
}

fn push_security(b: &SystemState, c: &SystemState, changes: &mut Vec<(String, String, String)>)
    ensures
        triple_views(final(changes)@) == changes_security(triple_views(old(changes)@), b@, c@),
{
    if !any_error(&c.firewall_profiles) {
        let weakened = find_weakened_profiles(&b.firewall_profiles, &c.firewall_profiles);
        if weakened.len() > 0 {
            let mut d = listed("Firewall profile(s) disabled: ", &weakened);
            append(&mut d, " (current: ");
            append(&mut d, format_debug_list(c.firewall_profiles.as_slice()).as_str());
            append(&mut d, ")");
            add_change(changes, "firewall", d, "confirm");
        }
    }
    if !str_eq(b.defender_status.as_str(), c.defender_status.as_str()) {
        add_change(changes, "defender", c.defender_status.clone(), "automatic");
    }
    if !str_eq(b.uac_status.as_str(), c.uac_status.as_str()) {
        add_change(changes, "uac", c.uac_status.clone(), "automatic");
    }
    if !str_eq(b.windows_update_status.as_str(), c.windows_update_status.as_str()) {
        add_change(changes, "wu", c.windows_update_status.clone(), "automatic");
    }
    if !str_eq(b.system_restore_status.as_str(), c.system_restore_status.as_str()) {
        add_change(changes, "sr", c.system_restore_status.clone(), "automatic");
    }
    if !str_eq(b.smart_screen_status.as_str(), c.smart_screen_status.as_str()) {
        add_change(changes, "smartscreen", c.smart_screen_status.clone(), "automatic");
    }
    if !str_eq(b.secure_boot.as_str(), c.secure_boot.as_str()) {
        add_change(changes, "secureboot", c.secure_boot.clone(), "manual");
    }
}

fn push_persistence(b: &SystemState, c: &SystemState, changes: &mut Vec<(String, String, String)>)
    ensures
        triple_views(final(changes)@) == changes_persistence(triple_views(old(changes)@), b@, c@),
{
    if !strings_eq(&b.startup_entries, &c.startup_entries) {
        add_change(changes, "startup", listed("Startup entries changed: ", &c.startup_entries), "confirm");
    }
    if !strings_eq(&b.scheduled_tasks, &c.scheduled_tasks) {
        add_change(changes, "tasks", listed("Scheduled tasks changed: ", &c.scheduled_tasks), "automatic");
    }
    if !strings_eq(&b.services_list, &c.services_list) {
        add_change(changes, "services", listed("Services changed: ", &c.services_list), "automatic");
    }
    if !strings_eq(&b.bt_devices, &c.bt_devices) {
        add_change(changes, "bt", listed("New Bluetooth devices: ", &c.bt_devices), "confirm");
    }
    if !strings_eq(&b.hid_devices, &c.hid_devices) {
        add_change(changes, "hid", listed("New HID devices: ", &c.hid_devices), "confirm");
    }
    if !strings_eq(&b.fake_extensions, &c.fake_extensions) {
        add_change(changes, "fakeext", listed("Fake extensions: ", &c.fake_extensions), "automatic");
    }
    if !strings_eq(&b.unicode_bidi_files, &c.unicode_bidi_files) {
        add_change(changes, "trojan_source", listed("Unicode bidi files: ", &c.unicode_bidi_files), "automatic");
    }
    if !strings_eq(&b.homoglyph_domains, &c.homoglyph_domains) {
        add_change(changes, "homoglyph", listed("Homoglyph domains: ", &c.homoglyph_domains), "alert");
    }
    if !strings_eq(&b.suspicious_processes, &c.suspicious_processes) {
        add_change(changes, "susp_proc", listed("Suspicious processes: ", &c.suspicious_processes), "alert");
    }
    if !strings_eq(&b.installed_software, &c.installed_software) {
        add_change(changes, "bloatware", listed("New software detected: ", &c.installed_software), "alert");
    }
}

fn push_signals(b: &SystemState, c: &SystemState, changes: &mut Vec<(String, String, String)>)
    ensures
        triple_views(final(changes)@) == changes_signals(triple_views(old(changes)@), b@, c@),
{
    let switched = !str_eq(b.wifi_ssid.as_str(), c.wifi_ssid.as_str())
        || !str_eq(b.vpn_status.as_str(), c.vpn_status.as_str())
        || !strings_eq(&b.network_adapters, &c.network_adapters);
    if !str_eq(b.login_failures.as_str(), c.login_failures.as_str()) {
        add_change(changes, "bruteforce", c.login_failures.clone(), "automatic");
    }
    if !str_eq(b.vpn_status.as_str(), c.vpn_status.as_str()) {
        add_change(changes, "vpn", c.vpn_status.clone(), "alert");
    }
    if !str_eq(b.ipv6_status.as_str(), c.ipv6_status.as_str()) {
        add_change(changes, "ipv6", c.ipv6_status.clone(), "automatic");
    }
    if !str_eq(b.wifi_profile_status.as_str(), c.wifi_profile_status.as_str()) {
        add_change(changes, "wifi_profile", c.wifi_profile_status.clone(), "automatic");
    }
    if !str_eq(b.doh_status.as_str(), c.doh_status.as_str()) {
        add_change(changes, "doh", c.doh_status.clone(), "alert");
    }
    if !str_eq(b.laps_status.as_str(), c.laps_status.as_str()) {
        add_change(changes, "laps", c.laps_status.clone(), "alert");
    }
    if !str_eq(b.dhcp_server.as_str(), c.dhcp_server.as_str()) && !switched {
        add_change(changes, "dhcp", c.dhcp_server.clone(), "alert");
    }
    if !str_eq(b.bitlocker_status.as_str(), c.bitlocker_status.as_str()) {
        add_change(changes, "bitlocker", c.bitlocker_status.clone(), "alert");
    }
    if !str_eq(b.credential_guard_status.as_str(), c.credential_guard_status.as_str()) {
        add_change(changes, "credguard", c.credential_guard_status.clone(), "alert");
    }
    if !str_eq(b.rdp_status.as_str(), c.rdp_status.as_str()) {
        add_change(changes, "rdp", c.rdp_status.clone(), "automatic");
    }
    if !str_eq(b.event_log_status.as_str(), c.event_log_status.as_str()) {
        add_change(changes, "eventlog", c.event_log_status.clone(), "alert");
    }
}

/// Detects every change between `baseline` and `current`, as
/// (category, details, action type) triples in a fixed category order.
pub fn detect_all_changes(baseline: &SystemState, current: &SystemState) -> (changes: Vec<(String, String, String)>)
    ensures
        triple_views(changes@) == spec_all_changes(baseline@, current@),
{
    let mut changes: Vec<(String, String, String)> = Vec::new();
    proof {
        assert(triple_views(changes@) =~= Seq::empty());
    }
    push_network(baseline, current, &mut changes);
    push_security(baseline, current, &mut changes);
    push_persistence(baseline, current, &mut changes);
    push_signals(baseline, current, &mut changes);
    changes
}

// ============================================
// LAWS
// ============================================

/// Some change of `changes` is filed under `cat`.
pub open spec fn reports(changes: Seq<Change>, cat: Seq<char>) -> bool {
    exists|i: int| 0 <= i < changes.len() && #[trigger] changes[i].0 == cat
}

proof fn lemma_nothing_weakened(b: Seq<Seq<char>>, k: int)
    ensures
        weakened_upto(b, b, k).len() == 0,
    decreases k,
{
    if k > 0 && k <= b.len() {
        lemma_nothing_weakened(b, k - 1);
    }
}

proof fn lemma_push_opt_keeps(s: Seq<Change>, t: Seq<Change>, c: bool, x: Change)
    requires
        t.len() <= s.len(),
        s.subrange(0, t.len() as int) =~= t,
    ensures
        push_opt(s, c, x).len() >= t.len(),
        push_opt(s, c, x).subrange(0, t.len() as int) =~= t,
{
    if c {
        assert forall|i: int| 0 <= i < t.len() implies #[trigger] s.push(x)[i] == t[i] by {
            assert(s.subrange(0, t.len() as int)[i] == s[i]);
        }
    }
}

/// A later stage of the change list keeps what the earlier stages found.
proof fn lemma_stages_keep(s: Seq<Change>, b: StateView, c: StateView)
    ensures
        changes_network(s, b, c).len() >= s.len(),
        changes_network(s, b, c).subrange(0, s.len() as int) =~= s,
        changes_security(s, b, c).len() >= s.len(),
        changes_security(s, b, c).subrange(0, s.len() as int) =~= s,
        changes_persistence(s, b, c).len() >= s.len(),
        changes_persistence(s, b, c).subrange(0, s.len() as int) =~= s,
        changes_signals(s, b, c).len() >= s.len(),
        changes_signals(s, b, c).subrange(0, s.len() as int) =~= s,
{
    lemma_network_keeps(s, b, c);
    lemma_security_keeps(s, b, c);
    lemma_persistence_keeps(s, b, c);
    lemma_signals_keeps(s, b, c);
}

proof fn lemma_network_keeps(s: Seq<Change>, b: StateView, c: StateView)
    ensures
        changes_network(s, b, c).len() >= s.len(),
        changes_network(s, b, c).subrange(0, s.len() as int) =~= s,
{
    lemma_stage_keeps_prefix(s, s, b, c, 0);
}

proof fn lemma_security_keeps(s: Seq<Change>, b: StateView, c: StateView)
    ensures
        changes_security(s, b, c).len() >= s.len(),
        changes_security(s, b, c).subrange(0, s.len() as int) =~= s,
{
    lemma_stage_keeps_prefix(s, s, b, c, 1);
}

proof fn lemma_persistence_keeps(s: Seq<Change>, b: StateView, c: StateView)
    ensures
        changes_persistence(s, b, c).len() >= s.len(),
        changes_persistence(s, b, c).subrange(0, s.len() as int) =~= s,
{
    lemma_stage_keeps_prefix(s, s, b, c, 2);
}

#[verifier::spinoff_prover]
proof fn lemma_signals_keeps(s: Seq<Change>, b: StateView, c: StateView)
    ensures
        changes_signals(s, b, c).len() >= s.len(),
        changes_signals(s, b, c).subrange(0, s.len() as int) =~= s,
{
    lemma_stage_keeps_prefix(s, s, b, c, 3);
}

/// `stage` of the change list, applied to `s`.
spec fn stage_of(s: Seq<Change>, b: StateView, c: StateView, stage: int) -> Seq<Change> {
    if stage == 0 { changes_network(s, b, c) }
    else if stage == 1 { changes_security(s, b, c) }
    else if stage == 2 { changes_persistence(s, b, c) }
    else { changes_signals(s, b, c) }
}

/// Applies the pushes of one stage one at a time, keeping the prefix `t`.
proof fn lemma_stage_keeps_prefix(s: Seq<Change>, t: Seq<Change>, b: StateView, c: StateView, stage: int)
    requires
        t.len() <= s.len(),
        s.subrange(0, t.len() as int) =~= t,
        0 <= stage <= 3,
    ensures
        stage_of(s, b, c, stage).len() >= t.len(),
        stage_of(s, b, c, stage).subrange(0, t.len() as int) =~= t,
{
    let steps = stage_steps(b, c, stage);
    lemma_pushes_keep(s, t, steps, steps.len() as int);
    lemma_stage_is_pushes(s, b, c, stage);
}

/// The (condition, change) pushes a stage makes, in order.
spec fn stage_steps(b: StateView, c: StateView, stage: int) -> Seq<(bool, Change)> {
    let nic = network_identity_changed(b, c);
    if stage == 0 {
        seq![
            (sorted_strings(b.dns_servers) != sorted_strings(c.dns_servers) && !nic, ("dns"@, dns_details(b, c), "confirm"@)),
            (b.hosts_hash != c.hosts_hash, ("hosts"@, "Hosts file modified"@, "automatic"@)),
            (b.proxy_settings != c.proxy_settings,
                ("proxy"@, "Proxy changed from "@ + debug_list(b.proxy_settings) + " to "@ + debug_list(c.proxy_settings), "automatic"@)),
            (b.arp_table != c.arp_table && !nic, ("arp"@, "ARP table changed: "@ + debug_list(c.arp_table), "alert"@)),
            (b.wifi_ssid != c.wifi_ssid, ("wifi"@, "WiFi changed from '"@ + b.wifi_ssid + "' to '"@ + c.wifi_ssid + "'"@, "automatic"@)),
            (b.network_devices != c.network_devices && !nic, ("devices"@, "New network devices: "@ + debug_list(c.network_devices), "confirm"@)),
            (b.network_adapters != c.network_adapters, ("adapter"@, "Network adapters changed: "@ + debug_list(c.network_adapters), "confirm"@)),
        ]
    } else if stage == 1 {
        seq![
            (!has_firewall_error(c.firewall_profiles) && weakened_profiles(b.firewall_profiles, c.firewall_profiles).len() > 0,
                ("firewall"@, firewall_details(b, c), "confirm"@)),
            (b.defender_status != c.defender_status, ("defender"@, c.defender_status, "automatic"@)),
            (b.uac_status != c.uac_status, ("uac"@, c.uac_status, "automatic"@)),
            (b.windows_update_status != c.windows_update_status, ("wu"@, c.windows_update_status, "automatic"@)),
            (b.system_restore_status != c.system_restore_status, ("sr"@, c.system_restore_status, "automatic"@)),
            (b.smart_screen_status != c.smart_screen_status, ("smartscreen"@, c.smart_screen_status, "automatic"@)),
            (b.secure_boot != c.secure_boot, ("secureboot"@, c.secure_boot, "manual"@)),
        ]
    } else if stage == 2 {
        seq![
            (b.startup_entries != c.startup_entries, ("startup"@, "Startup entries changed: "@ + debug_list(c.startup_entries), "confirm"@)),
            (b.scheduled_tasks != c.scheduled_tasks, ("tasks"@, "Scheduled tasks changed: "@ + debug_list(c.scheduled_tasks), "automatic"@)),
            (b.services_list != c.services_list, ("services"@, "Services changed: "@ + debug_list(c.services_list), "automatic"@)),
            (b.bt_devices != c.bt_devices, ("bt"@, "New Bluetooth devices: "@ + debug_list(c.bt_devices), "confirm"@)),
            (b.hid_devices != c.hid_devices, ("hid"@, "New HID devices: "@ + debug_list(c.hid_devices), "confirm"@)),
            (b.fake_extensions != c.fake_extensions, ("fakeext"@, "Fake extensions: "@ + debug_list(c.fake_extensions), "automatic"@)),
            (b.unicode_bidi_files != c.unicode_bidi_files, ("trojan_source"@, "Unicode bidi files: "@ + debug_list(c.unicode_bidi_files), "automatic"@)),
            (b.homoglyph_domains != c.homoglyph_domains, ("homoglyph"@, "Homoglyph domains: "@ + debug_list(c.homoglyph_domains), "alert"@)),
            (b.suspicious_processes != c.suspicious_processes, ("susp_proc"@, "Suspicious processes: "@ + debug_list(c.suspicious_processes), "alert"@)),
            (b.installed_software != c.installed_software, ("bloatware"@, "New software detected: "@ + debug_list(c.installed_software), "alert"@)),
        ]
    } else {
        seq![
            (b.login_failures != c.login_failures, ("bruteforce"@, c.login_failures, "automatic"@)),
            (b.vpn_status != c.vpn_status, ("vpn"@, c.vpn_status, "alert"@)),
            (b.ipv6_status != c.ipv6_status, ("ipv6"@, c.ipv6_status, "automatic"@)),
            (b.wifi_profile_status != c.wifi_profile_status, ("wifi_profile"@, c.wifi_profile_status, "automatic"@)),
            (b.doh_status != c.doh_status, ("doh"@, c.doh_status, "alert"@)),
            (b.laps_status != c.laps_status, ("laps"@, c.laps_status, "alert"@)),
            (b.dhcp_server != c.dhcp_server && !network_switched(b, c), ("dhcp"@, c.dhcp_server, "alert"@)),
            (b.bitlocker_status != c.bitlocker_status, ("bitlocker"@, c.bitlocker_status, "alert"@)),
            (b.credential_guard_status != c.credential_guard_status, ("credguard"@, c.credential_guard_status, "alert"@)),
            (b.rdp_status != c.rdp_status, ("rdp"@, c.rdp_status, "automatic"@)),
            (b.event_log_status != c.event_log_status, ("eventlog"@, c.event_log_status, "alert"@)),
        ]
    }
}

/// The first `n` steps pushed onto `s`.
spec fn apply_steps(s: Seq<Change>, steps: Seq<(bool, Change)>, n: int) -> Seq<Change>
    decreases n,
{
    if n <= 0 || n > steps.len() { s } else { push_opt(apply_steps(s, steps, n - 1), steps[n - 1].0, steps[n - 1].1) }
}

proof fn lemma_pushes_keep(s: Seq<Change>, t: Seq<Change>, steps: Seq<(bool, Change)>, n: int)
    requires
        t.len() <= s.len(),
        s.subrange(0, t.len() as int) =~= t,
        0 <= n <= steps.len(),
    ensures
        apply_steps(s, steps, n).len() >= t.len(),
        apply_steps(s, steps, n).subrange(0, t.len() as int) =~= t,
    decreases n,
{
    if n > 0 {
        lemma_pushes_keep(s, t, steps, n - 1);
        lemma_push_opt_keeps(apply_steps(s, steps, n - 1), t, steps[n - 1].0, steps[n - 1].1);
    }
}

proof fn lemma_stage_is_pushes(s: Seq<Change>, b: StateView, c: StateView, stage: int)
    requires
        0 <= stage <= 3,
    ensures
        stage_of(s, b, c, stage) == apply_steps(s, stage_steps(b, c, stage), stage_steps(b, c, stage).len() as int),
{
    if stage == 0 {
        lemma_stage_pushes_at(s, b, c, 0);
    } else if stage == 1 {
        lemma_stage_pushes_at(s, b, c, 1);
    } else if stage == 2 {
        lemma_stage_pushes_at(s, b, c, 2);
    } else {
        lemma_stage_pushes_at(s, b, c, 3);
    }
}

#[verifier::spinoff_prover]
proof fn lemma_stage_pushes_at(s: Seq<Change>, b: StateView, c: StateView, stage: int)
    requires
        0 <= stage <= 3,
    ensures
        stage_of(s, b, c, stage) == apply_steps(s, stage_steps(b, c, stage), stage_steps(b, c, stage).len() as int),
{
    let steps = stage_steps(b, c, stage);
    reveal_with_fuel(apply_steps, 12);
}

/// A report found by an earlier stage survives every later stage.
proof fn lemma_reports_survive(s: Seq<Change>, b: StateView, c: StateView, cat: Seq<char>, stage: int)
    requires
        reports(s, cat),
        1 <= stage <= 3,
    ensures
        stage <= 1 ==> reports(changes_persistence(s, b, c), cat),
        stage <= 2 ==> reports(changes_signals(changes_persistence(s, b, c), b, c), cat),
        stage == 3 ==> reports(changes_signals(s, b, c), cat),
{
    let i = choose|i: int| 0 <= i < s.len() && #[trigger] s[i].0 == cat;
    lemma_stages_keep(s, b, c);
    let p = changes_persistence(s, b, c);
    lemma_stages_keep(p, b, c);
    assert(p[i] == p.subrange(0, s.len() as int)[i]);
    assert(p[i].0 == cat);
    let q = changes_signals(p, b, c);
    assert(q[i] == q.subrange(0, p.len() as int)[i]);
    assert(q[i].0 == cat);
    let r = changes_signals(s, b, c);
    assert(r[i] == r.subrange(0, s.len() as int)[i]);
    assert(r[i].0 == cat);
}

/// A system that has not changed since its baseline shows no drift.
pub proof fn law_unchanged_system_has_no_drift(s: StateView)
    ensures
        spec_all_changes(s, s).len() == 0,
{
    lemma_nothing_weakened(s.firewall_profiles, s.firewall_profiles.len() as int);
}

/// The changes the product documents are detected: DNS servers changed on an
/// unchanged network, a firewall profile switched off, a new device on an
/// unchanged network, UAC switched, Windows Update switched, a new DHCP
/// server on the same network.
pub proof fn law_documented_changes_are_detected(b: StateView, c: StateView)
    ensures
        sorted_strings(b.dns_servers) != sorted_strings(c.dns_servers) && !network_identity_changed(b, c)
            ==> reports(spec_all_changes(b, c), "dns"@),
        !has_firewall_error(c.firewall_profiles) && weakened_profiles(b.firewall_profiles, c.firewall_profiles).len() > 0
            ==> reports(spec_all_changes(b, c), "firewall"@),
        b.network_devices != c.network_devices && !network_identity_changed(b, c)
            ==> reports(spec_all_changes(b, c), "devices"@),
        b.uac_status != c.uac_status ==> reports(spec_all_changes(b, c), "uac"@),
        b.windows_update_status != c.windows_update_status ==> reports(spec_all_changes(b, c), "wu"@),
        b.dhcp_server != c.dhcp_server && !network_switched(b, c) ==> reports(spec_all_changes(b, c), "dhcp"@),
{
    let n = changes_network(Seq::empty(), b, c);
    let sec = changes_security(n, b, c);
    lemma_stages_keep(n, b, c);
    if sorted_strings(b.dns_servers) != sorted_strings(c.dns_servers) && !network_identity_changed(b, c) {
        assert(n[0].0 == "dns"@);
        assert(sec[0] == sec.subrange(0, n.len() as int)[0]);
        assert(sec[0].0 == "dns"@);
        lemma_reports_survive(sec, b, c, "dns"@, 1);
    }
    if b.network_devices != c.network_devices && !network_identity_changed(b, c) {
        assert(reports(n, "devices"@)) by {
            let k = n.len() - 1 - (if b.network_adapters != c.network_adapters { 1int } else { 0int });
            assert(n[k].0 == "devices"@);
        }
        let i = choose|i: int| 0 <= i < n.len() && #[trigger] n[i].0 == "devices"@;
        assert(sec[i] == sec.subrange(0, n.len() as int)[i]);
        assert(sec[i].0 == "devices"@);
        lemma_reports_survive(sec, b, c, "devices"@, 1);
    }
    let fw = !has_firewall_error(c.firewall_profiles) && weakened_profiles(b.firewall_profiles, c.firewall_profiles).len() > 0;
    let k0 = n.len() as int;
    let k1 = k0 + if fw { 1int } else { 0int };
    let k2 = k1 + if b.defender_status != c.defender_status { 1int } else { 0int };
    let k3 = k2 + if b.uac_status != c.uac_status { 1int } else { 0int };
    if fw {
        assert(sec[k0].0 == "firewall"@);
        lemma_reports_survive(sec, b, c, "firewall"@, 1);
    }
    if b.uac_status != c.uac_status {
        assert(sec[k2].0 == "uac"@);
        lemma_reports_survive(sec, b, c, "uac"@, 1);
    }
    if b.windows_update_status != c.windows_update_status {
        assert(sec[k3].0 == "wu"@);
        lemma_reports_survive(sec, b, c, "wu"@, 1);
    }
    if b.dhcp_server != c.dhcp_server && !network_switched(b, c) {
        lemma_dhcp_reported(b, c);
    }
}

proof fn lemma_dhcp_reported(b: StateView, c: StateView)
    requires
        b.dhcp_server != c.dhcp_server,
        !network_switched(b, c),
    ensures
        reports(spec_all_changes(b, c), "dhcp"@),
{
    let p = changes_persistence(changes_security(changes_network(Seq::empty(), b, c), b, c), b, c);
    let all = changes_signals(p, b, c);
    let j = p.len() as int
        + (if b.login_failures != c.login_failures { 1int } else { 0int })
        + (if b.vpn_status != c.vpn_status { 1int } else { 0int })
        + (if b.ipv6_status != c.ipv6_status { 1int } else { 0int })
        + (if b.wifi_profile_status != c.wifi_profile_status { 1int } else { 0int })
        + (if b.doh_status != c.doh_status { 1int } else { 0int })
        + (if b.laps_status != c.laps_status { 1int } else { 0int });
    assert(all[j].0 == "dhcp"@);
    assert(all == spec_all_changes(b, c));
}

// ============================================
// WHERE EACH DRIFT IS FILED
// ============================================

/// Some change in `s` is filed under `cat` with action `action`.
pub open spec fn files(s: Seq<Change>, cat: Seq<char>, action: Seq<char>) -> bool {
    exists|i: int| #![trigger s[i]] 0 <= i < s.len() && s[i].0 == cat && s[i].2 == action
}

/// The change `x` is among `s`.
pub open spec fn files_exactly(s: Seq<Change>, x: Change) -> bool {
    exists|i: int| #![trigger s[i]] 0 <= i < s.len() && s[i] == x
}

pub broadcast proof fn lemma_files_push_opt(s: Seq<Change>, c: bool, x: Change, cat: Seq<char>, action: Seq<char>)
    ensures
        #[trigger] files(push_opt(s, c, x), cat, action) == (files(s, cat, action) || (c && x.0 == cat && x.2 == action)),
{
    if c {
        let t = s.push(x);
        if files(s, cat, action) {
            let i = choose|i: int| #![trigger s[i]] 0 <= i < s.len() && s[i].0 == cat && s[i].2 == action;
            assert(t[i] == s[i]);
        }
        if x.0 == cat && x.2 == action {
            assert(t[s.len() as int] == x);
        }
        if files(t, cat, action) {
            let i = choose|i: int| #![trigger t[i]] 0 <= i < t.len() && t[i].0 == cat && t[i].2 == action;
            if i < s.len() {
                assert(s[i] == t[i]);
            }
        }
    }
}

pub broadcast proof fn lemma_files_exactly_push_opt(s: Seq<Change>, c: bool, x: Change, y: Change)
    ensures
        #[trigger] files_exactly(push_opt(s, c, x), y) == (files_exactly(s, y) || (c && x == y)),
{
    if c {
        let t = s.push(x);
        if files_exactly(s, y) {
            let i = choose|i: int| #![trigger s[i]] 0 <= i < s.len() && s[i] == y;
            assert(t[i] == s[i]);
        }
        if x == y {
            assert(t[s.len() as int] == x);
        }
        if files_exactly(t, y) {
            let i = choose|i: int| #![trigger t[i]] 0 <= i < t.len() && t[i] == y;
            if i < s.len() {
                assert(s[i] == t[i]);
            }
        }
    }
}

/// Every drift is reported under its own category with the action the
/// product documents for it: a modified hosts file as ("hosts", "Hosts file
/// modified", "automatic"); a switched security control with its current
/// status, automatically repaired (Secure Boot for manual handling); DNS,
/// device, adapter, firewall, startup, Bluetooth and HID changes for the
/// user's confirmation; the rest as documented below.
pub proof fn law_changes_are_filed(b: StateView, c: StateView)
    ensures
        b.hosts_hash != c.hosts_hash
            ==> files_exactly(spec_all_changes(b, c), ("hosts"@, "Hosts file modified"@, "automatic"@)),
        sorted_strings(b.dns_servers) != sorted_strings(c.dns_servers) && !network_identity_changed(b, c)
            ==> files(spec_all_changes(b, c), "dns"@, "confirm"@),
        b.proxy_settings != c.proxy_settings ==> files(spec_all_changes(b, c), "proxy"@, "automatic"@),
        b.arp_table != c.arp_table && !network_identity_changed(b, c)
            ==> files(spec_all_changes(b, c), "arp"@, "alert"@),
        b.wifi_ssid != c.wifi_ssid ==> files(spec_all_changes(b, c), "wifi"@, "automatic"@),
        b.network_devices != c.network_devices && !network_identity_changed(b, c)
            ==> files(spec_all_changes(b, c), "devices"@, "confirm"@),
        b.network_adapters != c.network_adapters ==> files(spec_all_changes(b, c), "adapter"@, "confirm"@),
        !has_firewall_error(c.firewall_profiles) && weakened_profiles(b.firewall_profiles, c.firewall_profiles).len() > 0
            ==> files(spec_all_changes(b, c), "firewall"@, "confirm"@),
        b.defender_status != c.defender_status
            ==> files_exactly(spec_all_changes(b, c), ("defender"@, c.defender_status, "automatic"@)),
        b.uac_status != c.uac_status
            ==> files_exactly(spec_all_changes(b, c), ("uac"@, c.uac_status, "automatic"@)),
        b.windows_update_status != c.windows_update_status
            ==> files_exactly(spec_all_changes(b, c), ("wu"@, c.windows_update_status, "automatic"@)),
        b.system_restore_status != c.system_restore_status
            ==> files_exactly(spec_all_changes(b, c), ("sr"@, c.system_restore_status, "automatic"@)),
        b.smart_screen_status != c.smart_screen_status
            ==> files_exactly(spec_all_changes(b, c), ("smartscreen"@, c.smart_screen_status, "automatic"@)),
        b.secure_boot != c.secure_boot
            ==> files_exactly(spec_all_changes(b, c), ("secureboot"@, c.secure_boot, "manual"@)),
        b.startup_entries != c.startup_entries ==> files(spec_all_changes(b, c), "startup"@, "confirm"@),
        b.scheduled_tasks != c.scheduled_tasks ==> files(spec_all_changes(b, c), "tasks"@, "automatic"@),
        b.services_list != c.services_list ==> files(spec_all_changes(b, c), "services"@, "automatic"@),
        b.bt_devices != c.bt_devices ==> files(spec_all_changes(b, c), "bt"@, "confirm"@),
        b.hid_devices != c.hid_devices ==> files(spec_all_changes(b, c), "hid"@, "confirm"@),
        b.fake_extensions != c.fake_extensions ==> files(spec_all_changes(b, c), "fakeext"@, "automatic"@),
        b.unicode_bidi_files != c.unicode_bidi_files
            ==> files(spec_all_changes(b, c), "trojan_source"@, "automatic"@),
        b.homoglyph_domains != c.homoglyph_domains ==> files(spec_all_changes(b, c), "homoglyph"@, "alert"@),
        b.suspicious_processes != c.suspicious_processes ==> files(spec_all_changes(b, c), "susp_proc"@, "alert"@),
        b.installed_software != c.installed_software ==> files(spec_all_changes(b, c), "bloatware"@, "alert"@),
        b.login_failures != c.login_failures
            ==> files_exactly(spec_all_changes(b, c), ("bruteforce"@, c.login_failures, "automatic"@)),
        b.vpn_status != c.vpn_status ==> files_exactly(spec_all_changes(b, c), ("vpn"@, c.vpn_status, "alert"@)),
        b.ipv6_status != c.ipv6_status
            ==> files_exactly(spec_all_changes(b, c), ("ipv6"@, c.ipv6_status, "automatic"@)),
        b.wifi_profile_status != c.wifi_profile_status
            ==> files_exactly(spec_all_changes(b, c), ("wifi_profile"@, c.wifi_profile_status, "automatic"@)),
        b.doh_status != c.doh_status ==> files_exactly(spec_all_changes(b, c), ("doh"@, c.doh_status, "alert"@)),
        b.laps_status != c.laps_status ==> files_exactly(spec_all_changes(b, c), ("laps"@, c.laps_status, "alert"@)),
        b.dhcp_server != c.dhcp_server && !network_switched(b, c)
            ==> files_exactly(spec_all_changes(b, c), ("dhcp"@, c.dhcp_server, "alert"@)),
        b.bitlocker_status != c.bitlocker_status
            ==> files_exactly(spec_all_changes(b, c), ("bitlocker"@, c.bitlocker_status, "alert"@)),
        b.credential_guard_status != c.credential_guard_status
            ==> files_exactly(spec_all_changes(b, c), ("credguard"@, c.credential_guard_status, "alert"@)),
        b.rdp_status != c.rdp_status ==> files_exactly(spec_all_changes(b, c), ("rdp"@, c.rdp_status, "automatic"@)),
        b.event_log_status != c.event_log_status
            ==> files_exactly(spec_all_changes(b, c), ("eventlog"@, c.event_log_status, "alert"@)),
{
    broadcast use lemma_files_push_opt, lemma_files_exactly_push_opt;
}

/// The categories the detector files for the user's confirmation.
pub open spec fn confirm_category(cat: Seq<char>) -> bool {
    cat == "dns"@ || cat == "devices"@ || cat == "adapter"@ || cat == "firewall"@ || cat == "startup"@
        || cat == "bt"@ || cat == "hid"@
}

/// The categories the detector files for automatic repair.
pub open spec fn automatic_category(cat: Seq<char>) -> bool {
    cat == "hosts"@ || cat == "proxy"@ || cat == "wifi"@ || cat == "defender"@ || cat == "uac"@
        || cat == "wu"@ || cat == "sr"@ || cat == "smartscreen"@ || cat == "tasks"@ || cat == "services"@
        || cat == "fakeext"@ || cat == "trojan_source"@ || cat == "bruteforce"@ || cat == "ipv6"@
        || cat == "wifi_profile"@ || cat == "rdp"@
}

/// A confirm-tier change is one of the confirm categories, and an
/// automatic one one of the automatic categories.
pub open spec fn filed_properly(x: Change) -> bool {
    &&& x.2 == "confirm"@ ==> confirm_category(x.0)
    &&& x.2 == "automatic"@ ==> automatic_category(x.0)
}

pub open spec fn all_filed_properly(s: Seq<Change>) -> bool {
    forall|i: int| 0 <= i < s.len() ==> filed_properly(#[trigger] s[i])
}

pub broadcast proof fn lemma_filed_properly_push_opt(s: Seq<Change>, c: bool, x: Change)
    ensures
        #[trigger] all_filed_properly(push_opt(s, c, x)) == (all_filed_properly(s) && (c ==> filed_properly(x))),
{
    if c {
        let t = s.push(x);
        if all_filed_properly(s) && filed_properly(x) {
            assert forall|i: int| 0 <= i < t.len() implies filed_properly(#[trigger] t[i]) by {
                if i < s.len() {
                    assert(t[i] == s[i]);
                }
            }
        }
        if all_filed_properly(t) {
            assert(filed_properly(t[s.len() as int]));
            assert forall|i: int| 0 <= i < s.len() implies filed_properly(#[trigger] s[i]) by {
                assert(t[i] == s[i]);
            }
        }
    }
}

/// The length and leading letters of each category name, which tell any two
/// of them apart.
pub proof fn lemma_category_names()
    ensures
        "dns"@.len() == 3, "dns"@[0] == 'd', "dns"@[1] == 'n',
        "hosts"@.len() == 5, "hosts"@[0] == 'h',
        "proxy"@.len() == 5, "proxy"@[0] == 'p',
        "arp"@.len() == 3, "arp"@[0] == 'a',
        "wifi"@.len() == 4, "wifi"@[0] == 'w',
        "devices"@.len() == 7, "devices"@[0] == 'd',
        "adapter"@.len() == 7, "adapter"@[0] == 'a',
        "firewall"@.len() == 8, "firewall"@[0] == 'f',
        "defender"@.len() == 8, "defender"@[0] == 'd',
        "uac"@.len() == 3, "uac"@[0] == 'u',
        "wu"@.len() == 2, "wu"@[0] == 'w',
        "sr"@.len() == 2, "sr"@[0] == 's',
        "smartscreen"@.len() == 11, "smartscreen"@[0] == 's',
        "secureboot"@.len() == 10, "secureboot"@[0] == 's',
        "startup"@.len() == 7, "startup"@[0] == 's',
        "tasks"@.len() == 5, "tasks"@[0] == 't',
        "services"@.len() == 8, "services"@[0] == 's',
        "bt"@.len() == 2, "bt"@[0] == 'b',
        "hid"@.len() == 3, "hid"@[0] == 'h',
        "fakeext"@.len() == 7, "fakeext"@[0] == 'f',
        "trojan_source"@.len() == 13, "trojan_source"@[0] == 't',
        "homoglyph"@.len() == 9, "homoglyph"@[0] == 'h',
        "susp_proc"@.len() == 9, "susp_proc"@[0] == 's',
        "bloatware"@.len() == 9, "bloatware"@[0] == 'b', "bloatware"@[1] == 'l',
        "bruteforce"@.len() == 10, "bruteforce"@[0] == 'b',
        "vpn"@.len() == 3, "vpn"@[0] == 'v',
        "ipv6"@.len() == 4, "ipv6"@[0] == 'i',
        "wifi_profile"@.len() == 12, "wifi_profile"@[0] == 'w',
        "doh"@.len() == 3, "doh"@[0] == 'd', "doh"@[1] == 'o',
        "laps"@.len() == 4, "laps"@[0] == 'l',
        "dhcp"@.len() == 4, "dhcp"@[0] == 'd',
        "bitlocker"@.len() == 9, "bitlocker"@[0] == 'b', "bitlocker"@[1] == 'i',
        "credguard"@.len() == 9, "credguard"@[0] == 'c',
        "rdp"@.len() == 3, "rdp"@[0] == 'r',
        "eventlog"@.len() == 8, "eventlog"@[0] == 'e',
{
    reveal_strlit("dns");
    reveal_strlit("hosts");
    reveal_strlit("proxy");
    reveal_strlit("arp");
    reveal_strlit("wifi");
    reveal_strlit("devices");
    reveal_strlit("adapter");
    reveal_strlit("firewall");
    reveal_strlit("defender");
    reveal_strlit("uac");
    reveal_strlit("wu");
    reveal_strlit("sr");
    reveal_strlit("smartscreen");
    reveal_strlit("secureboot");
    reveal_strlit("startup");
    reveal_strlit("tasks");
    reveal_strlit("services");
    reveal_strlit("bt");
    reveal_strlit("hid");
    reveal_strlit("fakeext");
    reveal_strlit("trojan_source");
    reveal_strlit("homoglyph");
    reveal_strlit("susp_proc");
    reveal_strlit("bloatware");
    reveal_strlit("bruteforce");
    reveal_strlit("vpn");
    reveal_strlit("ipv6");
    reveal_strlit("wifi_profile");
    reveal_strlit("doh");
    reveal_strlit("laps");
    reveal_strlit("dhcp");
    reveal_strlit("bitlocker");
    reveal_strlit("credguard");
    reveal_strlit("rdp");
    reveal_strlit("eventlog");
}

proof fn lemma_action_words_differ()
    ensures
        "confirm"@ != "automatic"@,
        "alert"@ != "automatic"@,
        "alert"@ != "confirm"@,
        "manual"@ != "automatic"@,
        "manual"@ != "confirm"@,
{
    reveal_strlit("confirm");
    reveal_strlit("automatic");
    reveal_strlit("alert");
    reveal_strlit("manual");
    assert("confirm"@.len() == 7 && "automatic"@.len() == 9 && "alert"@.len() == 5 && "manual"@.len() == 6);
}

#[verifier::spinoff_prover]
proof fn lemma_network_filed(s: Seq<Change>, b: StateView, c: StateView)
    requires
        all_filed_properly(s),
    ensures
        all_filed_properly(changes_network(s, b, c)),
{
    broadcast use lemma_filed_properly_push_opt;
    lemma_action_words_differ();
}

#[verifier::spinoff_prover]
proof fn lemma_security_filed(s: Seq<Change>, b: StateView, c: StateView)
    requires
        all_filed_properly(s),
    ensures
        all_filed_properly(changes_security(s, b, c)),
{
    broadcast use lemma_filed_properly_push_opt;
    lemma_action_words_differ();
}

#[verifier::spinoff_prover]
proof fn lemma_persistence_filed(s: Seq<Change>, b: StateView, c: StateView)
    requires
        all_filed_properly(s),
    ensures
        all_filed_properly(changes_persistence(s, b, c)),
{
    broadcast use lemma_filed_properly_push_opt;
    lemma_action_words_differ();
}

#[verifier::spinoff_prover]
proof fn lemma_signals_filed(s: Seq<Change>, b: StateView, c: StateView)
    requires
        all_filed_properly(s),
    ensures
        all_filed_properly(changes_signals(s, b, c)),
{
    broadcast use lemma_filed_properly_push_opt;
    lemma_action_words_differ();
}

/// Every change the detector reports for confirmation is in a confirm
/// category, and every one it reports for automatic repair is in an
/// automatic category.
pub proof fn lemma_changes_filed_properly(b: StateView, c: StateView)
    ensures
        all_filed_properly(spec_all_changes(b, c)),
{
    let e = Seq::<Change>::empty();
    assert(all_filed_properly(e));
    let n = changes_network(e, b, c);
    lemma_network_filed(e, b, c);
    let sec = changes_security(n, b, c);
    lemma_security_filed(n, b, c);
    let p = changes_persistence(sec, b, c);
    lemma_persistence_filed(sec, b, c);
    lemma_signals_filed(p, b, c);
}

} // verus!

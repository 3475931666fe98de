//! Repair planning: what each repair logs, which confirmed repair a category
//! runs and what it reports, and the decisions repairs make on command output.
//!
//! Automatic repairs run without input; confirm-tier findings wait for the
//! user; alert-only findings are logged and never repaired.

use vstd::prelude::*;
use crate::behavior::{spec_all_changes, lemma_changes_filed_properly, confirm_category, lemma_category_names};
use crate::state::StateView;
use crate::daemon::{LoopFix, loop_fix_spec};
use crate::text::{owned, append, views, str_eq, list_contains, str_contains, str_starts_with, str_ends_with, contains, starts_with, ends_with, chars_of, string_of};


verus! {

/// What a repair step writes to the repair log and the incident report, and
/// what it returns.
#[derive(Debug, Clone)]
pub struct RepairNotice {
    pub log_action: String,
    pub log_details: String,
    pub incident_category: String,
    pub incident_action: String,
    pub incident_details: String,
    pub outcome: bool,
}

/// The notice has exactly these texts and outcome.
pub open spec fn notice_is(n: RepairNotice, la: Seq<char>, ld: Seq<char>, ic: Seq<char>, ia: Seq<char>, id: Seq<char>, outcome: bool) -> bool {
    n.log_action@ == la && n.log_details@ == ld && n.incident_category@ == ic && n.incident_action@ == ia
        && n.incident_details@ == id && n.outcome == outcome
}

fn notice(la: &str, ld: &str, ic: &str, ia: &str, id: &str, outcome: bool) -> (n: RepairNotice)
    ensures
        notice_is(n, la@, ld@, ic@, ia@, id@, outcome),
{
    RepairNotice {
        log_action: owned(la),
        log_details: owned(ld),
        incident_category: owned(ic),
        incident_action: owned(ia),
        incident_details: owned(id),
        outcome,
    }
}

/// Unknown Bluetooth devices: disabling waits for confirmation.
pub fn disable_bt_devices() -> (n: RepairNotice)
    ensures
        notice_is(n, "Bluetooth"@, "⚠️ Manual confirmation required - use /confirm endpoint"@, "Bluetooth"@, "ConfirmationRequired"@, "Unknown BT devices detected - manual approval needed"@, false),
{
    notice("Bluetooth", "⚠️ Manual confirmation required - use /confirm endpoint", "Bluetooth", "ConfirmationRequired", "Unknown BT devices detected - manual approval needed", false)
}

/// Unknown HID devices: disabling waits for confirmation.
pub fn disable_hid_devices() -> (n: RepairNotice)
    ensures
        notice_is(n, "HID"@, "⚠️ Manual confirmation required - use /confirm endpoint"@, "HID"@, "ConfirmationRequired"@, "Unknown HID devices detected - manual approval needed"@, false),
{
    notice("HID", "⚠️ Manual confirmation required - use /confirm endpoint", "HID", "ConfirmationRequired", "Unknown HID devices detected - manual approval needed", false)
}

/// Changed DNS servers: resetting waits for confirmation.
pub fn flag_dns_changed() -> (n: RepairNotice)
    ensures
        notice_is(n, "DNS"@, "⚠️ Manual confirmation required - use /confirm endpoint"@, "DNS"@, "ConfirmationRequired"@, "DNS servers changed - manual approval needed"@, false),
{
    notice("DNS", "⚠️ Manual confirmation required - use /confirm endpoint", "DNS", "ConfirmationRequired", "DNS servers changed - manual approval needed", false)
}

/// Changed firewall profiles: re-enabling waits for confirmation.
pub fn flag_firewall_changed() -> (n: RepairNotice)
    ensures
        notice_is(n, "Firewall"@, "⚠️ Manual confirmation required - use /confirm endpoint"@, "Firewall"@, "ConfirmationRequired"@, "Firewall profile state changed - manual approval needed"@, false),
{
    notice("Firewall", "⚠️ Manual confirmation required - use /confirm endpoint", "Firewall", "ConfirmationRequired", "Firewall profile state changed - manual approval needed", false)
}

/// Unknown network adapters: disabling waits for confirmation.
pub fn disable_unknown_adapters() -> (n: RepairNotice)
    ensures
        notice_is(n, "Adapter"@, "⚠️ Manual confirmation required - use /confirm endpoint"@, "Adapter"@, "ConfirmationRequired"@, "Unknown network adapters detected - manual approval needed"@, false),
{
    notice("Adapter", "⚠️ Manual confirmation required - use /confirm endpoint", "Adapter", "ConfirmationRequired", "Unknown network adapters detected - manual approval needed", false)
}

/// Fake file extensions: quarantining waits for confirmation.
pub fn flag_fake_extensions() -> (n: RepairNotice)
    ensures
        notice_is(n, "FakeExtensions"@, "⚠️ Manual confirmation required - use /confirm endpoint"@, "FakeExtensions"@, "ConfirmationRequired"@, "Fake file extensions detected - manual approval needed"@, false),
{
    notice("FakeExtensions", "⚠️ Manual confirmation required - use /confirm endpoint", "FakeExtensions", "ConfirmationRequired", "Fake file extensions detected - manual approval needed", false)
}

/// Changed startup entries: quarantining waits for confirmation.
pub fn flag_startup_changed() -> (n: RepairNotice)
    ensures
        notice_is(n, "Startup"@, "⚠️ Manual confirmation required - use /confirm endpoint"@, "Startup"@, "ConfirmationRequired"@, "Startup entries changed - manual approval needed"@, false),
{
    notice("Startup", "⚠️ Manual confirmation required - use /confirm endpoint", "Startup", "ConfirmationRequired", "Startup entries changed - manual approval needed", false)
}

/// Possible brute force: blocking waits for confirmation.
pub fn flag_bruteforce_detected() -> (n: RepairNotice)
    ensures
        notice_is(n, "BruteForce"@, "⚠️ Manual confirmation required - use /confirm endpoint"@, "BruteForce"@, "ConfirmationRequired"@, "Possible brute force detected - manual approval needed"@, false),
{
    notice("BruteForce", "⚠️ Manual confirmation required - use /confirm endpoint", "BruteForce", "ConfirmationRequired", "Possible brute force detected - manual approval needed", false)
}

/// Alert only: logs the finding and reports success.
pub fn alert_bloatware() -> (n: RepairNotice)
    ensures
        notice_is(n, "Bloatware"@, "⚠️ Bloatware/PUP detected"@, "Bloatware"@, "Detected"@, "Bloatware/PUP detected"@, true),
{
    notice("Bloatware", "⚠️ Bloatware/PUP detected", "Bloatware", "Detected", "Bloatware/PUP detected", true)
}

/// Alert only: logs the finding and reports success.
pub fn alert_suspicious_process() -> (n: RepairNotice)
    ensures
        notice_is(n, "SuspiciousProcess"@, "⚠️ Suspicious process detected from Temp/Downloads"@, "SuspiciousProcess"@, "Detected"@, "Suspicious process detected"@, true),
{
    notice("SuspiciousProcess", "⚠️ Suspicious process detected from Temp/Downloads", "SuspiciousProcess", "Detected", "Suspicious process detected", true)
}

/// Alert only: logs the finding and reports success.
pub fn alert_new_device() -> (n: RepairNotice)
    ensures
        notice_is(n, "NewDevice"@, "⚠️ New network device detected"@, "NewDevice"@, "Detected"@, "New network device detected"@, true),
{
    notice("NewDevice", "⚠️ New network device detected", "NewDevice", "Detected", "New network device detected", true)
}

/// Alert only: logs the finding and reports success.
pub fn alert_secure_boot() -> (n: RepairNotice)
    ensures
        notice_is(n, "SecureBoot"@, "⚠️ Secure Boot is OFF"@, "SecureBoot"@, "Alert"@, "Secure Boot is OFF"@, true),
{
    notice("SecureBoot", "⚠️ Secure Boot is OFF", "SecureBoot", "Alert", "Secure Boot is OFF", true)
}

/// Alert only: logs the finding and reports success.
pub fn alert_service_change() -> (n: RepairNotice)
    ensures
        notice_is(n, "ServiceChange"@, "⚠️ Windows Service changed"@, "ServiceChange"@, "Alert"@, "Windows Service changed"@, true),
{
    notice("ServiceChange", "⚠️ Windows Service changed", "ServiceChange", "Alert", "Windows Service changed", true)
}

/// Alert only: logs the finding and reports success.
pub fn alert_event_log_cleared() -> (n: RepairNotice)
    ensures
        notice_is(n, "EventLog"@, "⚠️ Event log was cleared"@, "EventLog"@, "Alert"@, "Event log was cleared - investigation recommended"@, true),
{
    notice("EventLog", "⚠️ Event log was cleared", "EventLog", "Alert", "Event log was cleared - investigation recommended", true)
}

/// Alert only: logs the finding and reports success.
pub fn alert_vpn_disconnected() -> (n: RepairNotice)
    ensures
        notice_is(n, "VPN"@, "⚠️ VPN disconnected"@, "VPN"@, "Alert"@, "VPN disconnected - check your connection"@, true),
{
    notice("VPN", "⚠️ VPN disconnected", "VPN", "Alert", "VPN disconnected - check your connection", true)
}

/// Alert only: logs the finding and reports success.
pub fn alert_doh_changed() -> (n: RepairNotice)
    ensures
        notice_is(n, "DoH"@, "⚠️ DNS over HTTPS changed"@, "DoH"@, "Alert"@, "DNS over HTTPS setting changed"@, true),
{
    notice("DoH", "⚠️ DNS over HTTPS changed", "DoH", "Alert", "DNS over HTTPS setting changed", true)
}

/// Alert only: logs the finding and reports success.
pub fn alert_laps_changed() -> (n: RepairNotice)
    ensures
        notice_is(n, "LAPS"@, "⚠️ LAPS status changed"@, "LAPS"@, "Alert"@, "LAPS status changed"@, true),
{
    notice("LAPS", "⚠️ LAPS status changed", "LAPS", "Alert", "LAPS status changed", true)
}

/// Alert only: logs the finding and reports success.
pub fn alert_dhcp_spoofing() -> (n: RepairNotice)
    ensures
        notice_is(n, "DHCP"@, "⚠️ DHCP server changed - possible spoofing"@, "DHCP"@, "Alert"@, "DHCP server changed - possible DHCP spoofing attack"@, true),
{
    notice("DHCP", "⚠️ DHCP server changed - possible spoofing", "DHCP", "Alert", "DHCP server changed - possible DHCP spoofing attack", true)
}

/// Alert only: logs the finding and reports success.
pub fn alert_bitlocker_off() -> (n: RepairNotice)
    ensures
        notice_is(n, "BitLocker"@, "⚠️ BitLocker is disabled"@, "BitLocker"@, "Alert"@, "BitLocker is disabled - data at risk"@, true),
{
    notice("BitLocker", "⚠️ BitLocker is disabled", "BitLocker", "Alert", "BitLocker is disabled - data at risk", true)
}

/// Alert only: logs the finding and reports success.
pub fn alert_credential_guard_off() -> (n: RepairNotice)
    ensures
        notice_is(n, "CredGuard"@, "⚠️ Credential Guard is disabled"@, "CredGuard"@, "Alert"@, "Credential Guard is disabled - credential theft risk"@, true),
{
    notice("CredGuard", "⚠️ Credential Guard is disabled", "CredGuard", "Alert", "Credential Guard is disabled - credential theft risk", true)
}

// ============================================
// CONFIRMED REPAIRS
// ============================================

/// A repair that runs only after the user approved it.
#[derive(Debug, Clone, Copy, PartialEq, Eq, Structural)]
pub enum ConfirmedRepair {
    DisableRdp,
    ResetDns,
    EnableFirewall,
    DisableBluetooth,
    DisableHid,
    QuarantineStartup,
    BlockBruteforce,
    DisableAdapters,
    QuarantineFakeFiles,
    BlockNewDevices,
}

/// The confirmed repair a category runs.
pub open spec fn spec_repair_for(category: Seq<char>) -> Option<ConfirmedRepair> {
    if category == "rdp"@ { Some(ConfirmedRepair::DisableRdp) }
    else if category == "dns"@ { Some(ConfirmedRepair::ResetDns) }
    else if category == "firewall"@ { Some(ConfirmedRepair::EnableFirewall) }
    else if category == "bt"@ { Some(ConfirmedRepair::DisableBluetooth) }
    else if category == "hid"@ { Some(ConfirmedRepair::DisableHid) }
    else if category == "startup"@ { Some(ConfirmedRepair::QuarantineStartup) }
    else if category == "bruteforce"@ { Some(ConfirmedRepair::BlockBruteforce) }
    else if category == "adapter"@ { Some(ConfirmedRepair::DisableAdapters) }
    else if category == "fakeext"@ { Some(ConfirmedRepair::QuarantineFakeFiles) }
    else if category == "devices"@ { Some(ConfirmedRepair::BlockNewDevices) }
    else { None }
}

/// The message a confirmed repair reports.
pub open spec fn spec_repair_message(r: ConfirmedRepair, ok: bool) -> Seq<char> {
    match r {
        ConfirmedRepair::DisableRdp => if ok { "RDP disabled successfully"@ } else { "RDP disable failed - check logs"@ },
        ConfirmedRepair::ResetDns => if ok { "DNS reset to DHCP successfully"@ } else { "DNS reset failed - check logs"@ },
        ConfirmedRepair::EnableFirewall => if ok { "Firewall re-enabled successfully"@ } else { "Firewall re-enable failed - check logs"@ },
        ConfirmedRepair::DisableBluetooth => if ok { "Bluetooth devices disabled successfully"@ } else { "Bluetooth disable failed - check logs"@ },
        ConfirmedRepair::DisableHid => if ok { "HID devices disabled successfully"@ } else { "HID disable failed - check logs"@ },
        ConfirmedRepair::QuarantineStartup => if ok { "Startup entries quarantined successfully"@ } else { "Startup quarantine failed - check logs"@ },
        ConfirmedRepair::BlockBruteforce => if ok { "Brute force IPs blocked successfully"@ } else { "Brute force blocking failed - check logs"@ },
        ConfirmedRepair::DisableAdapters => if ok { "Unknown adapters disabled successfully"@ } else { "Adapter disable failed - check logs"@ },
        ConfirmedRepair::QuarantineFakeFiles => if ok { "Fake extensions quarantined successfully"@ } else { "Fake extension quarantine failed - check logs"@ },
        ConfirmedRepair::BlockNewDevices => if ok { "New network device(s) blocked successfully"@ } else { "Network device block failed - check logs"@ },
    }
}

/// The confirmed repair a category runs, if any.
pub fn confirmed_repair_for(category: &str) -> (r: Option<ConfirmedRepair>)
    ensures
        r == spec_repair_for(category@),
{
    if str_eq(category, "rdp") { Some(ConfirmedRepair::DisableRdp) }
    else if str_eq(category, "dns") { Some(ConfirmedRepair::ResetDns) }
    else if str_eq(category, "firewall") { Some(ConfirmedRepair::EnableFirewall) }
    else if str_eq(category, "bt") { Some(ConfirmedRepair::DisableBluetooth) }
    else if str_eq(category, "hid") { Some(ConfirmedRepair::DisableHid) }
    else if str_eq(category, "startup") { Some(ConfirmedRepair::QuarantineStartup) }
    else if str_eq(category, "bruteforce") { Some(ConfirmedRepair::BlockBruteforce) }
    else if str_eq(category, "adapter") { Some(ConfirmedRepair::DisableAdapters) }
    else if str_eq(category, "fakeext") { Some(ConfirmedRepair::QuarantineFakeFiles) }
    else if str_eq(category, "devices") { Some(ConfirmedRepair::BlockNewDevices) }
    else { None }
}

/// The message a confirmed repair reports for its outcome.
pub fn confirmed_repair_message(r: ConfirmedRepair, ok: bool) -> (m: String)
    ensures
        m@ == spec_repair_message(r, ok),
{
    let s: &str = match r {
        ConfirmedRepair::DisableRdp => if ok { "RDP disabled successfully" } else { "RDP disable failed - check logs" },
        ConfirmedRepair::ResetDns => if ok { "DNS reset to DHCP successfully" } else { "DNS reset failed - check logs" },
        ConfirmedRepair::EnableFirewall => if ok { "Firewall re-enabled successfully" } else { "Firewall re-enable failed - check logs" },
        ConfirmedRepair::DisableBluetooth => if ok { "Bluetooth devices disabled successfully" } else { "Bluetooth disable failed - check logs" },
        ConfirmedRepair::DisableHid => if ok { "HID devices disabled successfully" } else { "HID disable failed - check logs" },
        ConfirmedRepair::QuarantineStartup => if ok { "Startup entries quarantined successfully" } else { "Startup quarantine failed - check logs" },
        ConfirmedRepair::BlockBruteforce => if ok { "Brute force IPs blocked successfully" } else { "Brute force blocking failed - check logs" },
        ConfirmedRepair::DisableAdapters => if ok { "Unknown adapters disabled successfully" } else { "Adapter disable failed - check logs" },
        ConfirmedRepair::QuarantineFakeFiles => if ok { "Fake extensions quarantined successfully" } else { "Fake extension quarantine failed - check logs" },
        ConfirmedRepair::BlockNewDevices => if ok { "New network device(s) blocked successfully" } else { "Network device block failed - check logs" },
    };
    owned(s)
}

/// Runs the confirmed repair for `category` through `run` (which performs
/// it and reports success) and returns the message for the user.
///
/// `run` is taken by value and called at most once, and its precondition is
/// owed only for the repair the category maps to: so that repair runs exactly
/// once, no other repair runs, and an unknown category runs nothing.
pub fn execute_confirmed_repair<F: FnOnce(ConfirmedRepair) -> bool>(category: &str, run: F) -> (m: String)
    requires
        match spec_repair_for(category@) {
            Some(r) => run.requires((r,)),
            None => true,
        },
    ensures
        spec_repair_for(category@) is None ==> m@ == "Unknown category: "@ + category@,
        spec_repair_for(category@) matches Some(r) ==> exists|ok: bool| #[trigger] run.ensures((r,), ok)
            && m@ == spec_repair_message(r, ok),
{
    match confirmed_repair_for(category) {
        Some(r) => {
            let ok = run(r);
            confirmed_repair_message(r, ok)
        },
        None => {
            let mut m = owned("Unknown category: ");
            append(&mut m, category);
            m
        },
    }
}

// ============================================
// DECISIONS ON DETECTED DATA AND COMMAND OUTPUT
// ============================================

/// A file name (lowercased) that disguises an executable as a document.
pub open spec fn is_fake_extension_name(lower: Seq<char>) -> bool {
    ends_with(lower, ".pdf.exe"@) || ends_with(lower, ".doc.exe"@) || ends_with(lower, ".jpg.exe"@)
        || ends_with(lower, ".txt.exe"@) || contains(lower, ".exe."@)
}

/// Whether a lowercased file name disguises an executable as a document.
pub fn is_fake_extension(lower: &str) -> (r: bool)
    ensures
        r == is_fake_extension_name(lower@),
{
    str_ends_with(lower, ".pdf.exe") || str_ends_with(lower, ".doc.exe") || str_ends_with(lower, ".jpg.exe")
        || str_ends_with(lower, ".txt.exe") || str_contains(lower, ".exe.")
}

/// The network devices seen now that the baseline did not have (detection
/// failure sentinels excluded), in order.
pub open spec fn spec_new_devices(baseline: Seq<Seq<char>>, current: Seq<Seq<char>>) -> Seq<Seq<char>> {
    current.filter(|ip: Seq<char>| !starts_with(ip, "ERROR_"@) && !baseline.contains(ip))
}

/// The devices to block: seen now, not in the baseline, not a sentinel.
pub fn new_network_devices(baseline: &Vec<String>, current: &Vec<String>) -> (r: Vec<String>)
    ensures
        views(r@) == spec_new_devices(views(baseline@), views(current@)),
{
    let ghost pred = |ip: Seq<char>| !starts_with(ip, "ERROR_"@) && !views(baseline@).contains(ip);
    let mut r: Vec<String> = Vec::new();
    let mut i: usize = 0;
    proof {
        assert(views(current@).subrange(0, 0) =~= Seq::<Seq<char>>::empty());
        assert(views(r@) =~= views(current@).subrange(0, 0).filter(pred));
    }
    while i < current.len()
        invariant
            i <= current@.len(),
            pred == (|ip: Seq<char>| !starts_with(ip, "ERROR_"@) && !views(baseline@).contains(ip)),
            views(r@) == views(current@).subrange(0, i as int).filter(pred),
        decreases current@.len() - i,
    {
        let ip = &current[i];
        let keep = !str_starts_with(ip.as_str(), "ERROR_") && !list_contains(baseline, ip.as_str());
        let ghost prev = views(r@);
        if keep {
            r.push(ip.clone());
        }
        proof {
            let s = views(current@).subrange(0, i + 1);
            assert(s.drop_last() =~= views(current@).subrange(0, i as int));
            assert(s.last() == ip@);
            reveal_with_fuel(Seq::filter, 1);
            assert(views(r@) =~= s.filter(pred));
        }
        i = i + 1;
    }
    proof {
        assert(views(current@).subrange(0, i as int) =~= views(current@));
    }
    r
}

/// Blocking brute-force sources counts as done when the command reported
/// creating rules and showed no error.
pub open spec fn spec_bruteforce_blocked(stdout: Seq<char>, stderr: Seq<char>, exit_code: Option<i32>) -> bool {
    (contains(stdout, "New-NetFirewallRule"@) || contains(stdout, "displayName"@))
        && !(contains(stderr, "Error"@) || contains(stderr, "Failed"@) || exit_code != Some(0i32))
}

/// Whether the brute-force blocking command actually created rules.
pub fn bruteforce_block_succeeded(stdout: &str, stderr: &str, exit_code: Option<i32>) -> (r: bool)
    ensures
        r == spec_bruteforce_blocked(stdout@, stderr@, exit_code),
{
    let created = str_contains(stdout, "New-NetFirewallRule") || str_contains(stdout, "displayName");
    let has_error = str_contains(stderr, "Error") || str_contains(stderr, "Failed") || exit_code != Some(0i32);
    created && !has_error
}

/// The characters removed from the hosts file as Unicode bidi controls.
pub open spec fn is_bidi_char(c: char) -> bool {
    c == '\u{202E}' || c == '\u{202D}' || c == '\u{2066}' || c == '\u{2067}' || c == '\u{2068}'
        || c == '\u{2069}' || c == '\u{200B}' || c == '\u{200C}' || c == '\u{200D}' || c == '\u{200E}'
        || c == '\u{200F}' || c == '\u{FEFF}' || c == '\u{202A}' || c == '\u{202B}' || c == '\u{202C}'
        || c == '\u{00AD}'
}

/// `content` without bidi control characters.
pub fn strip_bidi(content: &str) -> (r: String)
    ensures
        r@ == content@.filter(|c: char| !is_bidi_char(c)),
{
    let c = chars_of(content);
    let mut out: Vec<char> = Vec::new();
    let mut i: usize = 0;
    proof {
        assert(c@.subrange(0, 0) =~= Seq::<char>::empty());
        assert(out@ =~= c@.subrange(0, 0).filter(|c: char| !is_bidi_char(c)));
    }
    while i < c.len()
        invariant
            i <= c@.len(),
            out@ == c@.subrange(0, i as int).filter(|c: char| !is_bidi_char(c)),
        decreases c@.len() - i,
    {
        let ch = c[i];
        let bidi = ch == '\u{202E}' || ch == '\u{202D}' || ch == '\u{2066}' || ch == '\u{2067}'
            || ch == '\u{2068}' || ch == '\u{2069}' || ch == '\u{200B}' || ch == '\u{200C}'
            || ch == '\u{200D}' || ch == '\u{200E}' || ch == '\u{200F}' || ch == '\u{FEFF}'
            || ch == '\u{202A}' || ch == '\u{202B}' || ch == '\u{202C}' || ch == '\u{00AD}';
        if !bidi {
            out.push(ch);
        }
        proof {
            let s = c@.subrange(0, i + 1);
            assert(s.drop_last() =~= c@.subrange(0, i as int));
            reveal_with_fuel(Seq::filter, 1);
            assert(out@ =~= s.filter(|c: char| !is_bidi_char(c)));
        }
        i = i + 1;
    }
    proof {
        assert(c@.subrange(0, i as int) =~= c@);
    }
    string_of(out.as_slice())
}

// ============================================
// LOGS AND VERIFICATION OF GHOST MODE
// ============================================

/// One line of the repair log.
pub fn repair_log_line(timestamp: &str, action: &str, details: &str) -> (l: String)
    ensures
        l@ == timestamp@ + "|"@ + action@ + "|"@ + details@ + "\n"@,
{
    let mut l = owned(timestamp);
    append(&mut l, "|");
    append(&mut l, action);
    append(&mut l, "|");
    append(&mut l, details);
    append(&mut l, "\n");
    l
}

/// The incident report written for a repair outcome.
pub fn incident_report(date: &str, category: &str, action: &str, details: &str) -> (r: String)
    ensures
        r@ == "========================================\nINVISIBLY INCIDENT REPORT\n========================================\nDate: "@
            + date@ + "\nCategory: "@ + category@ + "\nAction: "@ + action@
            + "\nSeverity: High\n\nDETAILS:\n"@ + details@ + "\n\n========================================\n"@,
{
    let mut r = owned("========================================\nINVISIBLY INCIDENT REPORT\n========================================\nDate: ");
    append(&mut r, date);
    append(&mut r, "\nCategory: ");
    append(&mut r, category);
    append(&mut r, "\nAction: ");
    append(&mut r, action);
    append(&mut r, "\nSeverity: High\n\nDETAILS:\n");
    append(&mut r, details);
    append(&mut r, "\n\n========================================\n");
    r
}

/// Whether the firewall state read back after switching Ghost Mode matches:
/// outbound traffic still allowed, and the ICMP block rule present (when
/// switching on) or gone (when switching off). The output holds the Public
/// profile's outbound action and the rule count on its first two non-empty
/// lines; an unreadable count counts as -1.
pub open spec fn ghost_verified_spec(out: Seq<char>, expect_active: bool) -> bool {
    let ls = crate::text::trimmed_lines_of(out);
    let outbound = ls.len() > 0 && ls[0] == "Allow"@;
    let count: int = if ls.len() > 1 {
        match crate::baseline::spec_parse_i32(ls[1]) { Some(n) => n, None => -1 }
    } else {
        -1
    };
    outbound && (if expect_active { count >= 1 } else { count == 0 })
}

/// Checks the firewall state read back after switching Ghost Mode.
pub fn ghost_state_verified(out: &str, expect_active: bool) -> (ok: bool)
    ensures
        ok == ghost_verified_spec(out@, expect_active),
{
    let ls = crate::text::trimmed_lines(out);
    proof {
        if ls@.len() > 0 {
            assert(views(ls@)[0] == ls@[0]@);
        }
        if ls@.len() > 1 {
            assert(views(ls@)[1] == ls@[1]@);
        }
    }
    let outbound = ls.len() > 0 && str_eq(ls[0].as_str(), "Allow");
    let count: i64 = if ls.len() > 1 {
        match crate::baseline::parse_i32(ls[1].as_str()) {
            Some(n) => n as i64,
            None => -1,
        }
    } else {
        -1
    };
    outbound && (if expect_active { count >= 1 } else { count == 0 })
}

// ============================================
// LAWS
// ============================================

/// Every change the detector files for the user's confirmation can be
/// approved: its category has a confirmed repair, so approving it runs that
/// repair instead of answering "Unknown category".
pub proof fn law_confirmable_changes_have_repairs(b: StateView, c: StateView)
    ensures
        forall|i: int| 0 <= i < spec_all_changes(b, c).len() && spec_all_changes(b, c)[i].2 == "confirm"@
            ==> (#[trigger] spec_repair_for(spec_all_changes(b, c)[i].0)) is Some,
{
    lemma_changes_filed_properly(b, c);
    let all = spec_all_changes(b, c);
    assert forall|i: int| 0 <= i < all.len() && all[i].2 == "confirm"@
        implies (#[trigger] spec_repair_for(all[i].0)) is Some by {
        assert(confirm_category(all[i].0));
    }
}

/// Distinct confirmable categories run distinct confirmed repairs.
pub proof fn law_confirmed_repairs_are_distinct(a: Seq<char>, b: Seq<char>)
    requires
        confirm_category(a),
        confirm_category(b),
        a != b,
    ensures
        spec_repair_for(a) != spec_repair_for(b),
{
    lemma_category_names();
}

/// The same fix in the repair carried out on approval and in the
/// monitoring loop.
pub open spec fn same_repair(r: ConfirmedRepair, f: LoopFix) -> bool {
    match (r, f) {
        (ConfirmedRepair::DisableRdp, LoopFix::DisableRdp) => true,
        (ConfirmedRepair::DisableBluetooth, LoopFix::DisableBtDevices) => true,
        (ConfirmedRepair::DisableHid, LoopFix::DisableHidDevices) => true,
        (ConfirmedRepair::QuarantineStartup, LoopFix::QuarantineStartup) => true,
        (ConfirmedRepair::BlockBruteforce, LoopFix::BlockBruteforceIps) => true,
        (ConfirmedRepair::DisableAdapters, LoopFix::DisableUnknownAdapters) => true,
        (ConfirmedRepair::QuarantineFakeFiles, LoopFix::DeleteFakeFiles) => true,
        _ => false,
    }
}

/// A category repaired both on approval and by the monitoring loop gets the
/// same fix from both.
pub proof fn law_confirmed_repair_matches_loop_fix(cat: Seq<char>)
    ensures
        spec_repair_for(cat) is Some && loop_fix_spec(cat) is Some
            ==> same_repair(spec_repair_for(cat)->0, (loop_fix_spec(cat)->0).0),
{
    lemma_category_names();
}

} // verus!

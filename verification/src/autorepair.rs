//! The on-demand repair run and the read-only scan run.
//!
//! A run compares the stored baseline with a fresh snapshot, applies the
//! automatic fixes, keeps the baseline in step with what was really fixed,
//! re-scores, and reports what happened. The caller performs the system work
//! (reading snapshots, running fixes, saving the baseline) and hands the
//! outcomes in; every decision and the resulting report are made here.

use vstd::prelude::*;
use crate::state::{SystemState, StateView, pair_views, copy_strings};
use crate::behavior::{detect_all_changes, spec_all_changes, triple_views, Change, lemma_changes_filed_properly,
    automatic_category, lemma_category_names};
use crate::daemon::{LoopFix, loop_fix_spec};
use crate::integrity::{calculate, report_for, IntegrityWeights, Context};
use crate::server::{DaemonState, set_integrity_report, set_trust_level};
use crate::trust::TrustLevel;
use crate::text::{views, debug_list, format_debug_list, decimal, decimal_string, append, str_eq};

verus! {

// ============================================
// WHAT EACH CATEGORY CALLS FOR
// ============================================

/// The automatic fix a repair run applies for a category.
#[derive(Debug, Clone, Copy, PartialEq, Eq, Structural)]
pub enum AutoFix {
    FlagDns,
    RestoreHosts,
    FlagFirewall,
    RemoveProxy,
    EnableDefender,
    EnableUac,
    EnableWindowsUpdate,
    EnableSystemRestore,
    EnableSmartScreen,
    EnableIpv6,
    SetWifiPrivate,
    CleanUnicodeBidi,
    DisableRdp,
    QuarantineFakeFiles,
    BlockBruteforceIps,
    NoFix,
}

pub open spec fn auto_fix_spec(cat: Seq<char>) -> AutoFix {
    if cat == "dns"@ { AutoFix::FlagDns }
    else if cat == "hosts"@ { AutoFix::RestoreHosts }
    else if cat == "firewall"@ { AutoFix::FlagFirewall }
    else if cat == "proxy"@ { AutoFix::RemoveProxy }
    else if cat == "defender"@ { AutoFix::EnableDefender }
    else if cat == "uac"@ { AutoFix::EnableUac }
    else if cat == "wu"@ { AutoFix::EnableWindowsUpdate }
    else if cat == "sr"@ { AutoFix::EnableSystemRestore }
    else if cat == "smartscreen"@ { AutoFix::EnableSmartScreen }
    else if cat == "ipv6"@ { AutoFix::EnableIpv6 }
    else if cat == "wifi_profile"@ { AutoFix::SetWifiPrivate }
    else if cat == "trojan_source"@ { AutoFix::CleanUnicodeBidi }
    else if cat == "rdp"@ { AutoFix::DisableRdp }
    else if cat == "fakeext"@ { AutoFix::QuarantineFakeFiles }
    else if cat == "bruteforce"@ { AutoFix::BlockBruteforceIps }
    else { AutoFix::NoFix }
}

/// The automatic fix for a category.
pub fn auto_fix_for(category: &str) -> (f: AutoFix)
    ensures
        f == auto_fix_spec(category@),
{
    if str_eq(category, "dns") { AutoFix::FlagDns }
    else if str_eq(category, "hosts") { AutoFix::RestoreHosts }
    else if str_eq(category, "firewall") { AutoFix::FlagFirewall }
    else if str_eq(category, "proxy") { AutoFix::RemoveProxy }
    else if str_eq(category, "defender") { AutoFix::EnableDefender }
    else if str_eq(category, "uac") { AutoFix::EnableUac }
    else if str_eq(category, "wu") { AutoFix::EnableWindowsUpdate }
    else if str_eq(category, "sr") { AutoFix::EnableSystemRestore }
    else if str_eq(category, "smartscreen") { AutoFix::EnableSmartScreen }
    else if str_eq(category, "ipv6") { AutoFix::EnableIpv6 }
    else if str_eq(category, "wifi_profile") { AutoFix::SetWifiPrivate }
    else if str_eq(category, "trojan_source") { AutoFix::CleanUnicodeBidi }
    else if str_eq(category, "rdp") { AutoFix::DisableRdp }
    else if str_eq(category, "fakeext") { AutoFix::QuarantineFakeFiles }
    else if str_eq(category, "bruteforce") { AutoFix::BlockBruteforceIps }
    else { AutoFix::NoFix }
}

/// The alert raised for an alert-only category.
#[derive(Debug, Clone, Copy, PartialEq, Eq, Structural)]
pub enum AlertKind {
    VpnDisconnected,
    DohChanged,
    LapsChanged,
    EventLogCleared,
    DhcpSpoofing,
    BitlockerOff,
    CredentialGuardOff,
    SecureBoot,
    Bloatware,
    ServiceChange,
    NewDevice,
    SuspiciousProcess,
}

pub open spec fn alert_spec(cat: Seq<char>) -> Option<AlertKind> {
    if cat == "vpn"@ { Some(AlertKind::VpnDisconnected) }
    else if cat == "doh"@ { Some(AlertKind::DohChanged) }
    else if cat == "laps"@ { Some(AlertKind::LapsChanged) }
    else if cat == "eventlog"@ { Some(AlertKind::EventLogCleared) }
    else if cat == "dhcp"@ { Some(AlertKind::DhcpSpoofing) }
    else if cat == "bitlocker"@ { Some(AlertKind::BitlockerOff) }
    else if cat == "credguard"@ { Some(AlertKind::CredentialGuardOff) }
    else if cat == "secureboot"@ { Some(AlertKind::SecureBoot) }
    else if cat == "bloatware"@ { Some(AlertKind::Bloatware) }
    else if cat == "arp"@ || cat == "tasks"@ || cat == "services"@ { Some(AlertKind::ServiceChange) }
    else if cat == "wifi"@ || cat == "devices"@ { Some(AlertKind::NewDevice) }
    else if cat == "homoglyph"@ || cat == "susp_proc"@ { Some(AlertKind::SuspiciousProcess) }
    else { None }
}

/// The alert for an alert-only category, if it has one.
pub fn alert_for(category: &str) -> (a: Option<AlertKind>)
    ensures
        a == alert_spec(category@),
{
    if str_eq(category, "vpn") { Some(AlertKind::VpnDisconnected) }
    else if str_eq(category, "doh") { Some(AlertKind::DohChanged) }
    else if str_eq(category, "laps") { Some(AlertKind::LapsChanged) }
    else if str_eq(category, "eventlog") { Some(AlertKind::EventLogCleared) }
    else if str_eq(category, "dhcp") { Some(AlertKind::DhcpSpoofing) }
    else if str_eq(category, "bitlocker") { Some(AlertKind::BitlockerOff) }
    else if str_eq(category, "credguard") { Some(AlertKind::CredentialGuardOff) }
    else if str_eq(category, "secureboot") { Some(AlertKind::SecureBoot) }
    else if str_eq(category, "bloatware") { Some(AlertKind::Bloatware) }
    else if str_eq(category, "arp") || str_eq(category, "tasks") || str_eq(category, "services") {
        Some(AlertKind::ServiceChange)
    } else if str_eq(category, "wifi") || str_eq(category, "devices") {
        Some(AlertKind::NewDevice)
    } else if str_eq(category, "homoglyph") || str_eq(category, "susp_proc") {
        Some(AlertKind::SuspiciousProcess)
    } else {
        None
    }
}

// ============================================
// ISSUE LISTS
// ============================================

/// (category, details) of each change.
pub open spec fn change_pairs(c: Seq<Change>) -> Seq<(Seq<char>, Seq<char>)> {
    c.map_values(|t: Change| (t.0, t.1))
}

/// The category of each change.
pub open spec fn change_categories(c: Seq<Change>) -> Seq<Seq<char>> {
    c.map_values(|t: Change| t.0)
}

/// The (category, details) pairs the score is computed from.
pub fn issue_pairs(issues: &Vec<(String, String, String)>) -> (r: Vec<(String, String)>)
    ensures
        pair_views(r@) == change_pairs(triple_views(issues@)),
{
    let mut r: Vec<(String, String)> = Vec::new();
    let mut i: usize = 0;
    while i < issues.len()
        invariant
            i <= issues@.len(),
            pair_views(r@) == change_pairs(triple_views(issues@)).subrange(0, i as int),
        decreases issues@.len() - i,
    {
        let a = issues[i].0.clone();
        let b = issues[i].1.clone();
        let ghost before = r@;
        r.push((a, b));
        proof {
            assert(pair_views(r@) =~= pair_views(before).push((a@, b@)));
            assert(triple_views(issues@)[i as int] == (issues@[i as int].0@, issues@[i as int].1@, issues@[i as int].2@));
            assert(change_pairs(triple_views(issues@)).subrange(0, i + 1) =~= change_pairs(triple_views(issues@)).subrange(0, i as int).push((a@, b@)));
        }
        i = i + 1;
    }
    proof {
        assert(change_pairs(triple_views(issues@)).subrange(0, i as int) =~= change_pairs(triple_views(issues@)));
    }
    r
}

/// The category of each issue.
pub fn issue_categories(issues: &Vec<(String, String, String)>) -> (r: Vec<String>)
    ensures
        views(r@) == change_categories(triple_views(issues@)),
{
    let mut r: Vec<String> = Vec::new();
    let mut i: usize = 0;
    while i < issues.len()
        invariant
            i <= issues@.len(),
            views(r@) == change_categories(triple_views(issues@)).subrange(0, i as int),
        decreases issues@.len() - i,
    {
        let a = issues[i].0.clone();
        let ghost before = r@;
        r.push(a);
        proof {
            assert(views(r@) =~= views(before).push(a@));
            assert(triple_views(issues@)[i as int] == (issues@[i as int].0@, issues@[i as int].1@, issues@[i as int].2@));
            assert(change_categories(triple_views(issues@)).subrange(0, i + 1) =~= change_categories(triple_views(issues@)).subrange(0, i as int).push(a@));
        }
        i = i + 1;
    }
    proof {
        assert(change_categories(triple_views(issues@)).subrange(0, i as int) =~= change_categories(triple_views(issues@)));
    }
    r
}

// ============================================
// TALLY OF A REPAIR RUN
// ============================================

/// The categories a run repaired, alerted on, failed on, and left for confirmation.
pub struct RepairTally {
    pub repaired: Vec<String>,
    pub alerted: Vec<String>,
    pub failed: Vec<String>,
    pub pending_confirm: Vec<String>,
}

pub ghost struct TallyView {
    pub repaired: Seq<Seq<char>>,
    pub alerted: Seq<Seq<char>>,
    pub failed: Seq<Seq<char>>,
    pub pending_confirm: Seq<Seq<char>>,
}

impl View for RepairTally {
    type V = TallyView;

    open spec fn view(&self) -> TallyView {
        TallyView {
            repaired: views(self.repaired@),
            alerted: views(self.alerted@),
            failed: views(self.failed@),
            pending_confirm: views(self.pending_confirm@),
        }
    }
}

/// The outcome reported for issue `i` (missing outcomes count as failures).
pub open spec fn outcome_of(outcomes: Seq<bool>, i: int) -> bool {
    if 0 <= i < outcomes.len() { outcomes[i] } else { false }
}

/// Whether the automatic fix for `cat` succeeded, given what running it gave:
/// the DNS and firewall fixes only flag the change and report failure, a
/// category without a fix (Wi-Fi, tasks, services) counts as done, and every
/// other fix counts by its outcome.
pub open spec fn fix_succeeded(cat: Seq<char>, outcome: bool) -> bool {
    match auto_fix_spec(cat) {
        AutoFix::FlagDns => false,
        AutoFix::FlagFirewall => false,
        AutoFix::NoFix => true,
        _ => outcome,
    }
}

pub open spec fn tally_step(t: TallyView, c: Change, outcome: bool) -> TallyView {
    if c.2 == "automatic"@ {
        if fix_succeeded(c.0, outcome) {
            TallyView { repaired: t.repaired.push(c.0), ..t }
        } else {
            TallyView { failed: t.failed.push(c.0), ..t }
        }
    } else if c.2 == "confirm"@ {
        TallyView { pending_confirm: t.pending_confirm.push(c.0), ..t }
    } else if c.2 == "alert"@ {
        TallyView { alerted: t.alerted.push(c.0), ..t }
    } else if c.2 == "manual"@ {
        TallyView { failed: t.failed.push(c.0), ..t }
    } else {
        t
    }
}

/// The tally after the first `n` issues.
pub open spec fn tally_upto(issues: Seq<Change>, outcomes: Seq<bool>, n: int) -> TallyView
    decreases n,
{
    if n <= 0 {
        TallyView { repaired: Seq::empty(), alerted: Seq::empty(), failed: Seq::empty(), pending_confirm: Seq::empty() }
    } else {
        tally_step(tally_upto(issues, outcomes, n - 1), issues[n - 1], outcome_of(outcomes, n - 1))
    }
}

fn push_owned(v: &mut Vec<String>, s: &String)
    ensures
        views(final(v)@) == views(old(v)@).push(s@),
{
    let c = s.clone();
    let ghost before = v@;
    v.push(c);
    proof {
        assert(views(v@) =~= views(before).push(c@));
    }
}

/// Sorts the issues of a run into repaired, alerted, failed and pending,
/// where `outcomes[i]` is what running the fix for issue `i` gave.
pub fn tally_repairs(issues: &Vec<(String, String, String)>, outcomes: &Vec<bool>) -> (t: RepairTally)
    ensures
        t@ == tally_upto(triple_views(issues@), outcomes@, issues@.len() as int),
{
    let mut t = RepairTally { repaired: Vec::new(), alerted: Vec::new(), failed: Vec::new(), pending_confirm: Vec::new() };
    let mut i: usize = 0;
    proof {
        assert(views(t.repaired@) =~= Seq::<Seq<char>>::empty());
        assert(views(t.alerted@) =~= Seq::<Seq<char>>::empty());
        assert(views(t.failed@) =~= Seq::<Seq<char>>::empty());
        assert(views(t.pending_confirm@) =~= Seq::<Seq<char>>::empty());
    }
    while i < issues.len()
        invariant
            i <= issues@.len(),
            t@ == tally_upto(triple_views(issues@), outcomes@, i as int),
        decreases issues@.len() - i,
    {
        let cat = &issues[i].0;
        let action = issues[i].2.as_str();
        let outcome = if i < outcomes.len() { outcomes[i] } else { false };
        proof {
            assert(triple_views(issues@)[i as int] == (issues@[i as int].0@, issues@[i as int].1@, issues@[i as int].2@));
        }
        let ghost prev = t@;
        if str_eq(action, "automatic") {
            let ok = match auto_fix_for(cat.as_str()) {
                AutoFix::FlagDns => false,
                AutoFix::FlagFirewall => false,
                AutoFix::NoFix => true,
                _ => outcome,
            };
            if ok {
                push_owned(&mut t.repaired, cat);
            } else {
                push_owned(&mut t.failed, cat);
            }
        } else if str_eq(action, "confirm") {
            push_owned(&mut t.pending_confirm, cat);
        } else if str_eq(action, "alert") {
            push_owned(&mut t.alerted, cat);
        } else if str_eq(action, "manual") {
            push_owned(&mut t.failed, cat);
        }
        proof {
            assert(t@ =~= tally_step(prev, triple_views(issues@)[i as int], outcome_of(outcomes@, i as int)));
        }
        i = i + 1;
    }
    t
}

// ============================================
// KEEPING THE BASELINE IN STEP
// ============================================

/// Categories whose repaired value may be copied into the baseline.
pub open spec fn is_rebaseline_safe(cat: Seq<char>) -> bool {
    cat == "hosts"@ || cat == "proxy"@ || cat == "defender"@ || cat == "uac"@ || cat == "wu"@ || cat == "sr"@ || cat == "smartscreen"@ || cat == "ipv6"@ || cat == "wifi_profile"@ || cat == "trojan_source"@
}

/// The baseline with the field of `cat` taken from the post-repair snapshot.
pub open spec fn sync_field(b: StateView, a: StateView, cat: Seq<char>) -> StateView {
    if cat == "hosts"@ { StateView { hosts_hash: a.hosts_hash, ..b } }
    else if cat == "proxy"@ { StateView { proxy_settings: a.proxy_settings, ..b } }
    else if cat == "defender"@ { StateView { defender_status: a.defender_status, ..b } }
    else if cat == "uac"@ { StateView { uac_status: a.uac_status, ..b } }
    else if cat == "wu"@ { StateView { windows_update_status: a.windows_update_status, ..b } }
    else if cat == "sr"@ { StateView { system_restore_status: a.system_restore_status, ..b } }
    else if cat == "smartscreen"@ { StateView { smart_screen_status: a.smart_screen_status, ..b } }
    else if cat == "ipv6"@ { StateView { ipv6_status: a.ipv6_status, ..b } }
    else if cat == "wifi_profile"@ { StateView { wifi_profile_status: a.wifi_profile_status, ..b } }
    else if cat == "trojan_source"@ { StateView { unicode_bidi_files: a.unicode_bidi_files, ..b } }
    else { b }
}

/// The baseline after syncing the first `n` repaired categories.
pub open spec fn synced_upto(b: StateView, a: StateView, r: Seq<Seq<char>>, n: int) -> StateView
    decreases n,
{
    if n <= 0 { b } else { sync_field(synced_upto(b, a, r, n - 1), a, r[n - 1]) }
}

/// Some repaired category may be synced into the baseline.
pub open spec fn any_safe(r: Seq<Seq<char>>) -> bool {
    exists|i: int| 0 <= i < r.len() && is_rebaseline_safe(r[i])
}

/// Copies the repaired, sync-safe fields from the post-repair snapshot into
/// a copy of the baseline; also says whether anything was synced.
pub fn sync_repaired_baseline(baseline: &SystemState, after: &SystemState, repaired: &Vec<String>) -> (r: (SystemState, bool))
    ensures
        r.0@ == synced_upto(baseline@, after@, views(repaired@), repaired@.len() as int),
        r.1 == any_safe(views(repaired@)),
{
    let mut s = baseline.duplicate();
    let mut did = false;
    let mut i: usize = 0;
    while i < repaired.len()
        invariant
            i <= repaired@.len(),
            s@ == synced_upto(baseline@, after@, views(repaired@), i as int),
            did == (exists|j: int| 0 <= j < i && is_rebaseline_safe(views(repaired@)[j])),
        decreases repaired@.len() - i,
    {
        let cat = repaired[i].as_str();
        proof {
            assert(views(repaired@)[i as int] == repaired@[i as int]@);
        }
        let ghost prev = s@;
        if str_eq(cat, "hosts") {
            s.hosts_hash = after.hosts_hash.clone();
            did = true;
        } else if str_eq(cat, "proxy") {
            s.proxy_settings = copy_strings(&after.proxy_settings);
            did = true;
        } else if str_eq(cat, "defender") {
            s.defender_status = after.defender_status.clone();
            did = true;
        } else if str_eq(cat, "uac") {
            s.uac_status = after.uac_status.clone();
            did = true;
        } else if str_eq(cat, "wu") {
            s.windows_update_status = after.windows_update_status.clone();
            did = true;
        } else if str_eq(cat, "sr") {
            s.system_restore_status = after.system_restore_status.clone();
            did = true;
        } else if str_eq(cat, "smartscreen") {
            s.smart_screen_status = after.smart_screen_status.clone();
            did = true;
        } else if str_eq(cat, "ipv6") {
            s.ipv6_status = after.ipv6_status.clone();
            did = true;
        } else if str_eq(cat, "wifi_profile") {
            s.wifi_profile_status = after.wifi_profile_status.clone();
            did = true;
        } else if str_eq(cat, "trojan_source") {
            s.unicode_bidi_files = copy_strings(&after.unicode_bidi_files);
            did = true;
        }
        proof {
            assert(s@ =~= sync_field(prev, after@, views(repaired@)[i as int]));
        }
        i = i + 1;
    }
    (s, did)
}

// ============================================
// REPORTING A RUN
// ============================================

/// The summary of a repair run.
pub open spec fn repair_message(t: TallyView, score: u8) -> Seq<char> {
    let base = "Repaired: "@ + debug_list(t.repaired) + " | Alerted: "@ + debug_list(t.alerted)
        + " | Failed: "@ + debug_list(t.failed) + " | Pending Confirm: "@ + debug_list(t.pending_confirm)
        + " | New Score: "@ + decimal(score as nat);
    if t.pending_confirm.len() > 0 {
        base + " | \u{26a0}\u{fe0f} Some changes require manual confirmation"@
    } else {
        base
    }
}

/// Writes the summary of a repair run.
pub fn repair_summary(t: &RepairTally, score: u8) -> (m: String)
    ensures
        m@ == repair_message(t@, score),
{
    let mut m = String::from_str("Repaired: ");
    let a = format_debug_list(t.repaired.as_slice());
    append(&mut m, a.as_str());
    append(&mut m, " | Alerted: ");
    let b = format_debug_list(t.alerted.as_slice());
    append(&mut m, b.as_str());
    append(&mut m, " | Failed: ");
    let c = format_debug_list(t.failed.as_slice());
    append(&mut m, c.as_str());
    append(&mut m, " | Pending Confirm: ");
    let d = format_debug_list(t.pending_confirm.as_slice());
    append(&mut m, d.as_str());
    append(&mut m, " | New Score: ");
    let n = decimal_string(score as u64);
    append(&mut m, n.as_str());
    if t.pending_confirm.len() > 0 {
        append(&mut m, " | \u{26a0}\u{fe0f} Some changes require manual confirmation");
    }
    m
}

// ============================================
// THE REPAIR RUN
// ============================================

/// What the caller observed during a repair run: the stored baseline, the
/// snapshot before repairs, what each issue's fix gave (by issue index), the
/// snapshot after repairs, and whether saving the synced baseline worked.
pub struct RepairRun {
    pub baseline: SystemState,
    pub current: SystemState,
    pub outcomes: Vec<bool>,
    pub current_after: SystemState,
    pub baseline_saved: bool,
}

/// A repair run, or the error that stopped it from loading the baseline.
pub enum RepairInput {
    LoadFailed(String),
    Run(RepairRun),
}

/// The baseline the post-repair check runs against: the synced one when
/// something was synced and it was saved, else the stored one.
pub open spec fn checked_baseline(b: StateView, after: StateView, t: TallyView, saved: bool) -> StateView {
    if any_safe(t.repaired) && saved {
        synced_upto(b, after, t.repaired, t.repaired.len() as int)
    } else {
        b
    }
}

/// `new` differs from `old` at most in the published report and trust level.
pub open spec fn publishes_only(old: DaemonState, new: DaemonState) -> bool {
    &&& new.trust_state@ == old.trust_state@
    &&& new.ghost_active == old.ghost_active
    &&& new.awaiting_consent == old.awaiting_consent
    &&& new.ts2_enabled == old.ts2_enabled
    &&& new.ransomware_alert == old.ransomware_alert
    &&& new.elevated == old.elevated
    &&& new.tamper_detected == old.tamper_detected
}

/// Finishes a repair run: tallies the fixes, syncs the baseline, re-scores
/// against the post-repair snapshot, publishes the report and the trust
/// level, and returns the summary.
pub fn run_auto_repair(
    state: &mut DaemonState,
    trust: &TrustLevel,
    input: RepairInput,
    is_lockdown: bool,
    weights: &IntegrityWeights,
    context: &Context,
) -> (m: String)
    ensures
        match input {
            RepairInput::LoadFailed(e) => m@ == "Failed to load baseline: "@ + e@ && *final(state) == *old(state),
            RepairInput::Run(run) => {
                let issues = spec_all_changes(run.baseline@, run.current@);
                if issues.len() == 0 {
                    m@ == "No changes detected"@ && *final(state) == *old(state)
                } else {
                    let t = tally_upto(issues, run.outcomes@, issues.len() as int);
                    let check = checked_baseline(run.baseline@, run.current_after@, t, run.baseline_saved);
                    let after = spec_all_changes(check, run.current_after@);
                    &&& final(state).integrity_report is Some
                    &&& report_for(final(state).integrity_report->0@, change_pairs(after), is_lockdown, true, *weights, *context)
                    &&& final(state).trust_level == trust.score
                    &&& publishes_only(*old(state), *final(state))
                    &&& m@ == repair_message(t, final(state).integrity_report->0.score)
                }
            },
        },
{
    match input {
        RepairInput::LoadFailed(e) => {
            let mut m = String::from_str("Failed to load baseline: ");
            append(&mut m, e.as_str());
            m
        },
        RepairInput::Run(run) => {
            let issues = detect_all_changes(&run.baseline, &run.current);
            if issues.len() == 0 {
                return String::from_str("No changes detected");
            }
            let t = tally_repairs(&issues, &run.outcomes);
            let (synced, did) = sync_repaired_baseline(&run.baseline, &run.current_after, &t.repaired);
            let issues_after = if did && run.baseline_saved {
                detect_all_changes(&synced, &run.current_after)
            } else {
                detect_all_changes(&run.baseline, &run.current_after)
            };
            let pairs = issue_pairs(&issues_after);
            let report = calculate(pairs.as_slice(), is_lockdown, true, weights, context);
            let score = report.score;
            set_integrity_report(state, report);
            set_trust_level(state, trust.score);
            repair_summary(&t, score)
        },
    }
}

// ============================================
// THE SCAN RUN
// ============================================

/// What a scan found before scoring: an invalid baseline, a baseline that
/// could not be loaded, or the stored baseline and a fresh snapshot.
pub enum ScanInput {
    BaselineInvalid,
    LoadFailed(String),
    Snapshots(SystemState, SystemState),
}

/// The summary of a scan.
pub open spec fn scan_message(cats: Seq<Seq<char>>, score: u8) -> Seq<char> {
    if cats.len() == 0 {
        "Scanned 34 signals | No issues found | Score: "@ + decimal(score as nat)
    } else {
        "Scanned 34 signals | "@ + decimal(cats.len()) + " issue(s) found: "@ + debug_list(cats)
            + " | Score: "@ + decimal(score as nat)
    }
}

/// A read-only scan: scores the drift from the baseline without repairing,
/// publishes the report and trust level, and returns the summary.
pub fn run_scan_only(
    state: &mut DaemonState,
    trust: &TrustLevel,
    input: ScanInput,
    is_lockdown: bool,
    weights: &IntegrityWeights,
    context: &Context,
) -> (m: String)
    ensures
        match input {
            ScanInput::BaselineInvalid => {
                &&& final(state).integrity_report is Some
                &&& report_for(final(state).integrity_report->0@, Seq::empty(), false, false, *weights, *context)
                &&& final(state).trust_level == old(state).trust_level
                &&& publishes_only(*old(state), *final(state))
                &&& m@ == "Scanned 34 signals | Baseline INVALID - manual review required"@
            },
            ScanInput::LoadFailed(e) => m@ == "Failed to load baseline: "@ + e@ && *final(state) == *old(state),
            ScanInput::Snapshots(b, c) => {
                let issues = spec_all_changes(b@, c@);
                &&& final(state).integrity_report is Some
                &&& report_for(final(state).integrity_report->0@, change_pairs(issues), is_lockdown, true, *weights, *context)
                &&& final(state).trust_level == trust.score
                &&& publishes_only(*old(state), *final(state))
                &&& m@ == scan_message(change_categories(issues), final(state).integrity_report->0.score)
            },
        },
{
    match input {
        ScanInput::BaselineInvalid => {
            let none: Vec<(String, String)> = Vec::new();
            proof {
                assert(pair_views(none@) =~= Seq::empty());
            }
            let report = calculate(none.as_slice(), false, false, weights, context);
            set_integrity_report(state, report);
            let m = String::from_str("Scanned 34 signals | Baseline INVALID - manual review required");
            m
        },
        ScanInput::LoadFailed(e) => {
            let mut m = String::from_str("Failed to load baseline: ");
            append(&mut m, e.as_str());
            m
        },
        ScanInput::Snapshots(b, c) => {
            let issues = detect_all_changes(&b, &c);
            let pairs = issue_pairs(&issues);
            let report = calculate(pairs.as_slice(), is_lockdown, true, weights, context);
            let score = report.score;
            set_integrity_report(state, report);
            set_trust_level(state, trust.score);
            let cats = issue_categories(&issues);
            let mut m;
            if cats.len() == 0 {
                m = String::from_str("Scanned 34 signals | No issues found | Score: ");
            } else {
                m = String::from_str("Scanned 34 signals | ");
                let n = decimal_string(cats.len() as u64);
                append(&mut m, n.as_str());
                append(&mut m, " issue(s) found: ");
                let l = format_debug_list(cats.as_slice());
                append(&mut m, l.as_str());
                append(&mut m, " | Score: ");
            }
            let sc = decimal_string(score as u64);
            append(&mut m, sc.as_str());
            m
        },
    }
}

// ============================================
// LAWS
// ============================================

/// Whether an automatic-repair change at position `i` of the detector's
/// list is one whose baseline is synced rather than repaired (Wi-Fi, tasks,
/// services).
pub open spec fn synced_category(cat: Seq<char>) -> bool {
    cat == "wifi"@ || cat == "tasks"@ || cat == "services"@
}

/// Every change the detector files for automatic repair, other than the
/// synced Wi-Fi, tasks and services, gets a real fix in a repair run, and is
/// tallied by that fix's outcome: listed as repaired when the fix succeeded
/// and as failed when it did not.
pub proof fn law_automatic_changes_are_fixed(b: StateView, c: StateView, t: TallyView, i: int)
    requires
        0 <= i < spec_all_changes(b, c).len(),
        spec_all_changes(b, c)[i].2 == "automatic"@,
        !synced_category(spec_all_changes(b, c)[i].0),
    ensures
        ({
            let x = spec_all_changes(b, c)[i];
            &&& auto_fix_spec(x.0) != AutoFix::NoFix
            &&& auto_fix_spec(x.0) != AutoFix::FlagDns
            &&& auto_fix_spec(x.0) != AutoFix::FlagFirewall
            &&& tally_step(t, x, true) == (TallyView { repaired: t.repaired.push(x.0), ..t })
            &&& tally_step(t, x, false) == (TallyView { failed: t.failed.push(x.0), ..t })
        }),
{
    lemma_changes_filed_properly(b, c);
    let x = spec_all_changes(b, c)[i];
    assert(automatic_category(x.0));
    lemma_fixed_category(x.0);
}

proof fn lemma_fixed_category(cat: Seq<char>)
    requires
        automatic_category(cat),
        !synced_category(cat),
    ensures
        auto_fix_spec(cat) != AutoFix::NoFix,
        auto_fix_spec(cat) != AutoFix::FlagDns,
        auto_fix_spec(cat) != AutoFix::FlagFirewall,
        forall|o: bool| fix_succeeded(cat, o) == o,
{
    lemma_category_names();
}

/// The same fix in a repair run and in the monitoring loop.
pub open spec fn same_fix(a: AutoFix, f: LoopFix) -> bool {
    match (a, f) {
        (AutoFix::RestoreHosts, LoopFix::RestoreHosts) => true,
        (AutoFix::RemoveProxy, LoopFix::RemoveProxy) => true,
        (AutoFix::EnableDefender, LoopFix::EnableDefender) => true,
        (AutoFix::EnableUac, LoopFix::EnableUac) => true,
        (AutoFix::EnableWindowsUpdate, LoopFix::EnableWindowsUpdate) => true,
        (AutoFix::EnableSystemRestore, LoopFix::EnableSystemRestore) => true,
        (AutoFix::EnableSmartScreen, LoopFix::EnableSmartScreen) => true,
        (AutoFix::EnableIpv6, LoopFix::EnableIpv6) => true,
        (AutoFix::SetWifiPrivate, LoopFix::SetWifiPrivate) => true,
        (AutoFix::CleanUnicodeBidi, LoopFix::CleanUnicodeBidi) => true,
        (AutoFix::DisableRdp, LoopFix::DisableRdp) => true,
        (AutoFix::QuarantineFakeFiles, LoopFix::DeleteFakeFiles) => true,
        (AutoFix::BlockBruteforceIps, LoopFix::BlockBruteforceIps) => true,
        _ => false,
    }
}

/// A repair run and the monitoring loop fix an automatic change the same
/// way: every automatic category outside the synced ones has a fix in both,
/// and it is the same fix.
pub proof fn law_repair_run_matches_loop(cat: Seq<char>)
    requires
        automatic_category(cat),
        !synced_category(cat),
    ensures
        loop_fix_spec(cat) is Some,
        same_fix(auto_fix_spec(cat), (loop_fix_spec(cat)->0).0),
{
    lemma_category_names();
}

} // verus!

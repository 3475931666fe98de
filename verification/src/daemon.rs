//! The monitoring loop's decisions: the first-run reference state, the
//! automatic fix for each drift category, charging trust once per newly seen
//! issue, the Ghost Mode auto-toggle, and the self-healing checks.
//!
//! The loop itself (sleeping, snapshots, files, commands) belongs to the
//! caller, which hands in what it observed and carries out what comes back.

use vstd::prelude::*;
use crate::state::{SystemState, StateView, copy_strings};
use crate::trust::{
    TrustLevel, TrustEventType, deducted_score, recovered_score, recovery_reason, recovery_tier, records_event,
    deduct_trust, recover_trust,
};
use crate::text::{views, list_contains, str_eq, append, trimmed, trim, contains, str_contains};
use crate::baseline::spec_parse_u64;
use crate::behavior::{spec_all_changes, changes_network, changes_security, changes_persistence, changes_signals, weakened_upto, Change};
use crate::state::push_opt;

verus! {

broadcast use vstd::string::group_string_axioms;

// ============================================
// FIRST-RUN REFERENCE
// ============================================

/// The recommended secure state for a machine whose current state is `c`:
/// every signal with one universally right value is set to it, everything
/// machine-specific is left as found. RDP is only forced off when it is on.
pub open spec fn ideal_spec(c: StateView) -> StateView {
    StateView {
        defender_status: "ON"@,
        uac_status: "ON"@,
        windows_update_status: "ON"@,
        system_restore_status: "ON"@,
        smart_screen_status: "ON"@,
        ipv6_status: "ON"@,
        doh_status: "ON"@,
        laps_status: "ENABLED"@,
        bitlocker_status: "ON"@,
        credential_guard_status: "ON"@,
        secure_boot: "ON"@,
        proxy_settings: Seq::empty(),
        fake_extensions: Seq::empty(),
        unicode_bidi_files: Seq::empty(),
        homoglyph_domains: Seq::empty(),
        installed_software: Seq::empty(),
        rdp_status: if c.rdp_status == "LISTENING"@ || c.rdp_status == "RUNNING"@ { "OFF"@ } else { c.rdp_status },
        ..c
    }
}

/// Builds the reference state first-run findings are measured against.
pub fn ideal_reference(current: &SystemState) -> (ideal: SystemState)
    ensures
        ideal@ == ideal_spec(current@),
{
    let mut ideal = current.duplicate();
    ideal.defender_status = String::from_str("ON");
    ideal.uac_status = String::from_str("ON");
    ideal.windows_update_status = String::from_str("ON");
    ideal.system_restore_status = String::from_str("ON");
    ideal.smart_screen_status = String::from_str("ON");
    ideal.ipv6_status = String::from_str("ON");
    ideal.doh_status = String::from_str("ON");
    ideal.laps_status = String::from_str("ENABLED");
    ideal.bitlocker_status = String::from_str("ON");
    ideal.credential_guard_status = String::from_str("ON");
    ideal.secure_boot = String::from_str("ON");
    ideal.proxy_settings = Vec::new();
    ideal.fake_extensions = Vec::new();
    ideal.unicode_bidi_files = Vec::new();
    ideal.homoglyph_domains = Vec::new();
    ideal.installed_software = Vec::new();
    if str_eq(current.rdp_status.as_str(), "LISTENING") || str_eq(current.rdp_status.as_str(), "RUNNING") {
        ideal.rdp_status = String::from_str("OFF");
    }
    proof {
        assert(views(ideal.proxy_settings@) =~= Seq::<Seq<char>>::empty());
        assert(views(ideal.fake_extensions@) =~= Seq::<Seq<char>>::empty());
        assert(views(ideal.unicode_bidi_files@) =~= Seq::<Seq<char>>::empty());
        assert(views(ideal.homoglyph_domains@) =~= Seq::<Seq<char>>::empty());
        assert(views(ideal.installed_software@) =~= Seq::<Seq<char>>::empty());
    }
    ideal
}

// ============================================
// AUTOMATIC FIXES IN THE MONITORING LOOP
// ============================================

/// A system fix the monitoring loop can run for a drift category.
#[derive(Debug, Clone, Copy, PartialEq, Eq, Structural)]
pub enum LoopFix {
    RestoreHosts,
    RemoveProxy,
    EnableDefender,
    EnableUac,
    EnableWindowsUpdate,
    EnableSystemRestore,
    EnableSmartScreen,
    EnableIpv6,
    SetWifiPrivate,
    CleanUnicodeBidi,
    DisableRdp,
    QuarantineStartup,
    DeleteFakeFiles,
    DisableBtDevices,
    DisableHidDevices,
    BlockBruteforceIps,
    DisableUnknownAdapters,
}

/// The fix for a category, and whether its reported outcome counts (the
/// quarantine/delete/disable fixes count as done whatever they report).
pub open spec fn loop_fix_spec(cat: Seq<char>) -> Option<(LoopFix, bool)> {
    if cat == "hosts"@ { Some((LoopFix::RestoreHosts, true)) }
    else if cat == "proxy"@ { Some((LoopFix::RemoveProxy, true)) }
    else if cat == "defender"@ { Some((LoopFix::EnableDefender, true)) }
    else if cat == "uac"@ { Some((LoopFix::EnableUac, true)) }
    else if cat == "wu"@ { Some((LoopFix::EnableWindowsUpdate, true)) }
    else if cat == "sr"@ { Some((LoopFix::EnableSystemRestore, true)) }
    else if cat == "smartscreen"@ { Some((LoopFix::EnableSmartScreen, true)) }
    else if cat == "ipv6"@ { Some((LoopFix::EnableIpv6, true)) }
    else if cat == "wifi_profile"@ { Some((LoopFix::SetWifiPrivate, true)) }
    else if cat == "trojan_source"@ { Some((LoopFix::CleanUnicodeBidi, true)) }
    else if cat == "rdp"@ { Some((LoopFix::DisableRdp, true)) }
    else if cat == "startup"@ { Some((LoopFix::QuarantineStartup, false)) }
    else if cat == "fakeext"@ { Some((LoopFix::DeleteFakeFiles, false)) }
    else if cat == "bt"@ { Some((LoopFix::DisableBtDevices, false)) }
    else if cat == "hid"@ { Some((LoopFix::DisableHidDevices, false)) }
    else if cat == "bruteforce"@ { Some((LoopFix::BlockBruteforceIps, true)) }
    else if cat == "adapter"@ { Some((LoopFix::DisableUnknownAdapters, false)) }
    else { None }
}

fn loop_fix_for(category: &str) -> (r: Option<(LoopFix, bool)>)
    ensures
        r == loop_fix_spec(category@),
{
    if str_eq(category, "hosts") { Some((LoopFix::RestoreHosts, true)) }
    else if str_eq(category, "proxy") { Some((LoopFix::RemoveProxy, true)) }
    else if str_eq(category, "defender") { Some((LoopFix::EnableDefender, true)) }
    else if str_eq(category, "uac") { Some((LoopFix::EnableUac, true)) }
    else if str_eq(category, "wu") { Some((LoopFix::EnableWindowsUpdate, true)) }
    else if str_eq(category, "sr") { Some((LoopFix::EnableSystemRestore, true)) }
    else if str_eq(category, "smartscreen") { Some((LoopFix::EnableSmartScreen, true)) }
    else if str_eq(category, "ipv6") { Some((LoopFix::EnableIpv6, true)) }
    else if str_eq(category, "wifi_profile") { Some((LoopFix::SetWifiPrivate, true)) }
    else if str_eq(category, "trojan_source") { Some((LoopFix::CleanUnicodeBidi, true)) }
    else if str_eq(category, "rdp") { Some((LoopFix::DisableRdp, true)) }
    else if str_eq(category, "startup") { Some((LoopFix::QuarantineStartup, false)) }
    else if str_eq(category, "fakeext") { Some((LoopFix::DeleteFakeFiles, false)) }
    else if str_eq(category, "bt") { Some((LoopFix::DisableBtDevices, false)) }
    else if str_eq(category, "hid") { Some((LoopFix::DisableHidDevices, false)) }
    else if str_eq(category, "bruteforce") { Some((LoopFix::BlockBruteforceIps, true)) }
    else if str_eq(category, "adapter") { Some((LoopFix::DisableUnknownAdapters, false)) }
    else { None }
}

/// Drift that is accepted into the baseline rather than reverted.
pub open spec fn is_hygiene(cat: Seq<char>) -> bool {
    cat == "tasks"@ || cat == "services"@ || cat == "wifi"@
}

/// The baseline after accepting a hygiene category's current values.
pub open spec fn hygiene_synced(b: StateView, c: StateView, cat: Seq<char>) -> StateView {
    if cat == "tasks"@ {
        StateView { scheduled_tasks: c.scheduled_tasks, ..b }
    } else if cat == "services"@ {
        StateView { services_list: c.services_list, ..b }
    } else if cat == "wifi"@ {
        StateView {
            wifi_ssid: c.wifi_ssid,
            dhcp_server: c.dhcp_server,
            arp_table: c.arp_table,
            network_devices: c.network_devices,
            ..b
        }
    } else {
        b
    }
}

/// Applies the automatic-tier fix for one category and says whether it
/// succeeded and whether the baseline was synced instead. Nothing runs when
/// the daemon is not elevated, nor for a security fix without Pro; both
/// count as success. `run` carries out a system fix and reports its outcome.
///
/// `run` is taken by value and called at most once, and its precondition is
/// owed only for the fix the category maps to when elevated with Pro: so
/// that fix runs exactly once there, and in every other case nothing runs.
pub fn apply_automatic_repair<F: FnOnce(LoopFix) -> bool>(
    category: &str,
    baseline: &mut SystemState,
    current: &SystemState,
    is_elevated_now: bool,
    is_pro: bool,
    run: F,
) -> (r: (bool, bool))
    requires
        is_elevated_now && is_pro && !is_hygiene(category@) ==> match loop_fix_spec(category@) {
            Some((fix, _)) => run.requires((fix,)),
            None => true,
        },
    ensures
        !is_elevated_now ==> r == (true, false) && final(baseline)@ == old(baseline)@,
        is_elevated_now && !is_hygiene(category@) && !is_pro ==> r == (true, false) && final(baseline)@ == old(baseline)@,
        is_elevated_now && is_hygiene(category@) ==> r == (true, true)
            && final(baseline)@ == hygiene_synced(old(baseline)@, current@, category@),
        is_elevated_now && !is_hygiene(category@) && is_pro ==> {
            &&& final(baseline)@ == old(baseline)@
            &&& !r.1
            &&& match loop_fix_spec(category@) {
                Some((fix, counts)) => exists|ok: bool| #[trigger] run.ensures((fix,), ok)
                    && r.0 == (if counts { ok } else { true }),
                None => r.0,
            }
        },
{
    if !is_elevated_now {
        return (true, false);
    }
    let hygiene = str_eq(category, "tasks") || str_eq(category, "services") || str_eq(category, "wifi");
    if !hygiene && !is_pro {
        return (true, false);
    }
    if str_eq(category, "tasks") {
        baseline.scheduled_tasks = copy_strings(&current.scheduled_tasks);
        return (true, true);
    }
    if str_eq(category, "services") {
        baseline.services_list = copy_strings(&current.services_list);
        return (true, true);
    }
    if str_eq(category, "wifi") {
        baseline.wifi_ssid = current.wifi_ssid.clone();
        baseline.dhcp_server = current.dhcp_server.clone();
        baseline.arp_table = copy_strings(&current.arp_table);
        baseline.network_devices = copy_strings(&current.network_devices);
        return (true, true);
    }
    match loop_fix_for(category) {
        Some((fix, counts)) => {
            let ok = run(fix);
            if counts { (ok, false) } else { (true, false) }
        },
        None => (true, false),
    }
}

// ============================================
// CHARGING TRUST ONCE PER NEW ISSUE
// ============================================

/// The trust charge for a category the cycle it newly appears.
pub open spec fn penalty_spec(cat: Seq<char>) -> Option<(Seq<char>, u8)> {
    if cat == "firewall"@ || cat == "defender"@ || cat == "uac"@ || cat == "wu"@ || cat == "sr"@
        || cat == "smartscreen"@ || cat == "secureboot"@ || cat == "bitlocker"@ || cat == "credguard"@ {
        Some((cat + " compromised"@, 10))
    } else if cat == "dns"@ || cat == "hosts"@ || cat == "proxy"@ || cat == "startup"@ || cat == "dhcp"@
        || cat == "rdp"@ {
        Some((cat + " changed"@, 5))
    } else {
        None
    }
}

/// The distinct categories among the first `n` of `cats`, in first-appearance
/// order, leaving out those in `skip`.
pub open spec fn distinct_new(cats: Seq<Seq<char>>, skip: Seq<Seq<char>>, n: int) -> Seq<Seq<char>>
    decreases n,
{
    if n <= 0 || n > cats.len() {
        Seq::empty()
    } else {
        let prev = distinct_new(cats, skip, n - 1);
        let c = cats[n - 1];
        if skip.contains(c) || prev.contains(c) { prev } else { prev.push(c) }
    }
}

/// The charges for the first `n` newly seen categories.
pub open spec fn penalties(newly: Seq<Seq<char>>, n: int) -> Seq<(Seq<char>, u8)>
    decreases n,
{
    if n <= 0 || n > newly.len() {
        Seq::empty()
    } else {
        match penalty_spec(newly[n - 1]) {
            Some(p) => penalties(newly, n - 1).push(p),
            None => penalties(newly, n - 1),
        }
    }
}

/// The score after the first `n` charges of `list`.
pub open spec fn score_after(score: u8, list: Seq<(Seq<char>, u8)>, n: int) -> u8
    decreases n,
{
    if n <= 0 || n > list.len() {
        score
    } else {
        deducted_score(score_after(score, list, n - 1), list[n - 1].1)
    }
}

/// `new` is `old` with one deduction event per charge of `list`, in order.
pub open spec fn charges_recorded(old: TrustLevel, new: TrustLevel, list: Seq<(Seq<char>, u8)>) -> bool {
    &&& new.history@.len() == old.history@.len() + list.len()
    &&& new.history@.subrange(0, old.history@.len() as int) == old.history@
    &&& forall|j: int| 0 <= j < list.len() ==> {
        let e = #[trigger] new.history@[old.history@.len() + j];
        &&& e.reason@ == list[j].0
        &&& e.deduction == list[j].1
        &&& e.new_score == score_after(old.score, list, j + 1)
        &&& e.event_type == TrustEventType::Deduction
    }
    &&& new.score == score_after(old.score, list, list.len() as int)
    &&& list.len() > 0 ==> new.recovery_state == recovery_tier(new.score)
    &&& list.len() == 0 ==> new == old
}

/// Charges trust for the categories that are new this cycle (not charged
/// while they persisted), remembers the current categories for the next
/// cycle, and grants one recovery step when nothing new appeared.
pub fn penalize_new_issues(trust: &mut TrustLevel, penalized: &mut Vec<String>, categories: &Vec<String>)
    ensures
        views(final(penalized)@) == distinct_new(views(categories@), Seq::empty(), categories@.len() as int),
        ({
            let newly = distinct_new(views(categories@), views(old(penalized)@), categories@.len() as int);
            &&& newly.len() > 0 ==> charges_recorded(*old(trust), *final(trust), penalties(newly, newly.len() as int))
            &&& newly.len() == 0 && recovered_score(old(trust).score) > old(trust).score ==> records_event(
                *old(trust), *final(trust), recovered_score(old(trust).score),
                recovery_reason(old(trust).recovery_state), 0, TrustEventType::Recovery)
            &&& newly.len() == 0 && recovered_score(old(trust).score) <= old(trust).score ==> *final(trust) == *old(trust)
        }),
{
    let ghost t0 = *trust;
    let mut newly: Vec<String> = Vec::new();
    let mut all: Vec<String> = Vec::new();
    let mut i: usize = 0;
    proof {
        assert(views(newly@) =~= Seq::<Seq<char>>::empty());
        assert(views(all@) =~= Seq::<Seq<char>>::empty());
        assert(t0.history@.subrange(0, t0.history@.len() as int) =~= t0.history@);
    }
    while i < categories.len()
        invariant
            i <= categories@.len(),
            views(newly@) == distinct_new(views(categories@), views(penalized@), i as int),
            views(all@) == distinct_new(views(categories@), Seq::empty(), i as int),
            charges_recorded(t0, *trust, penalties(views(newly@), newly@.len() as int)),
            t0 == *old(trust),
            penalized@ == old(penalized)@,
        decreases categories@.len() - i,
    {
        let cat = &categories[i];
        proof {
            assert(views(categories@)[i as int] == cat@);
        }
        if !list_contains(&all, cat.as_str()) {
            let ghost before = all@;
            all.push(cat.clone());
            proof {
                assert(views(all@) =~= views(before).push(cat@));
                assert(!Seq::<Seq<char>>::empty().contains(cat@));
            }
        }
        if !list_contains(penalized, cat.as_str()) && !list_contains(&newly, cat.as_str()) {
            let ghost before_n = newly@;
            let ghost before_t = *trust;
            let ghost list_before = penalties(views(before_n), before_n.len() as int);
            newly.push(cat.clone());
            proof {
                assert(views(newly@) =~= views(before_n).push(cat@));
                assert(views(newly@).subrange(0, before_n.len() as int) =~= views(before_n));
                lemma_penalties_prefix(views(newly@), before_n.len() as int);
            }
            let compromised = str_eq(cat.as_str(), "firewall") || str_eq(cat.as_str(), "defender")
                || str_eq(cat.as_str(), "uac") || str_eq(cat.as_str(), "wu") || str_eq(cat.as_str(), "sr")
                || str_eq(cat.as_str(), "smartscreen") || str_eq(cat.as_str(), "secureboot")
                || str_eq(cat.as_str(), "bitlocker") || str_eq(cat.as_str(), "credguard");
            let changed = str_eq(cat.as_str(), "dns") || str_eq(cat.as_str(), "hosts")
                || str_eq(cat.as_str(), "proxy") || str_eq(cat.as_str(), "startup")
                || str_eq(cat.as_str(), "dhcp") || str_eq(cat.as_str(), "rdp");
            if compromised || changed {
                let mut reason = cat.clone();
                let points: u8 = if compromised { 10 } else { 5 };
                if compromised {
                    append(&mut reason, " compromised");
                } else {
                    append(&mut reason, " changed");
                }
                deduct_trust(trust, reason.as_str(), points);
                proof {
                    let list = penalties(views(newly@), newly@.len() as int);
                    assert(penalty_spec(cat@) == Some((reason@, points)));
                    assert(list =~= list_before.push((reason@, points)));
                    lemma_charge_step(t0, before_t, *trust, list_before, reason@, points);
                }
            } else {
                proof {
                    assert(penalty_spec(cat@) is None);
                    assert(penalties(views(newly@), newly@.len() as int) =~= list_before);
                }
            }
        }
        i = i + 1;
    }
    if newly.len() == 0 {
        proof {
            assert(*trust == t0);
        }
        recover_trust(trust, 2);
    }
    *penalized = all;
}

proof fn lemma_penalties_prefix(newly: Seq<Seq<char>>, n: int)
    requires
        0 <= n < newly.len(),
        n + 1 == newly.len(),
    ensures
        penalties(newly, n + 1) == match penalty_spec(newly[n]) {
            Some(p) => penalties(newly.subrange(0, n), n).push(p),
            None => penalties(newly.subrange(0, n), n),
        },
{
    lemma_penalties_sub(newly, n);
}

proof fn lemma_penalties_sub(newly: Seq<Seq<char>>, n: int)
    requires
        0 <= n <= newly.len(),
    ensures
        penalties(newly.subrange(0, n), n) == penalties(newly, n),
    decreases n,
{
    if n > 0 {
        lemma_penalties_sub(newly, n - 1);
        assert(newly.subrange(0, n - 1) =~= newly.subrange(0, n).subrange(0, n - 1));
        lemma_penalties_sub(newly.subrange(0, n), n - 1);
    }
}

proof fn lemma_score_after_push(score: u8, list: Seq<(Seq<char>, u8)>, p: (Seq<char>, u8), n: int)
    requires
        0 <= n <= list.len(),
    ensures
        score_after(score, list.push(p), n) == score_after(score, list, n),
    decreases n,
{
    if n > 0 {
        lemma_score_after_push(score, list, p, n - 1);
    }
}

proof fn lemma_charge_step(
    t0: TrustLevel,
    before: TrustLevel,
    after: TrustLevel,
    list: Seq<(Seq<char>, u8)>,
    reason: Seq<char>,
    points: u8,
)
    requires
        charges_recorded(t0, before, list),
        records_event(before, after, deducted_score(before.score, points), reason, points, TrustEventType::Deduction),
    ensures
        charges_recorded(t0, after, list.push((reason, points))),
{
    let l2 = list.push((reason, points));
    lemma_score_after_push(t0.score, list, (reason, points), list.len() as int);
    assert forall|j: int| 0 <= j <= list.len() implies #[trigger] score_after(t0.score, l2, j) == score_after(t0.score, list, j) by {
        lemma_score_after_push(t0.score, list, (reason, points), j);
    }
    let n0 = t0.history@.len();
    assert(after.history@.subrange(0, before.history@.len() as int) == before.history@);
    assert(after.history@.subrange(0, n0 as int) =~= before.history@.subrange(0, n0 as int));
    assert forall|j: int| 0 <= j < l2.len() implies {
        let e = #[trigger] after.history@[n0 + j];
        &&& e.reason@ == l2[j].0
        &&& e.deduction == l2[j].1
        &&& e.new_score == score_after(t0.score, l2, j + 1)
        &&& e.event_type == TrustEventType::Deduction
    } by {
        if j < list.len() {
            assert(after.history@[n0 + j] == before.history@[n0 + j]);
            assert(score_after(t0.score, l2, j + 1) == score_after(t0.score, list, j + 1));
        } else {
            assert(after.history@[n0 + j] == after.history@.last());
        }
    }
}

// ============================================
// GHOST MODE AUTO-TOGGLE AND SELF-HEALING
// ============================================

/// What the periodic check does about Ghost Mode.
#[derive(Debug, Clone, Copy, PartialEq, Eq, Structural)]
pub enum GhostToggle {
    Enable,
    Disable,
    Keep,
}

/// Seconds since the last toggle, as unsigned arithmetic that wraps when the
/// clock went backwards.
pub open spec fn elapsed(now: u64, last: u64) -> int {
    if now >= last { now - last } else { now - last + 0x1_0000_0000_0000_0000 }
}

/// A toggle is allowed unless a readable last-toggle time is under a minute old.
pub open spec fn can_toggle_spec(last_toggle: Option<Seq<char>>, now: u64) -> bool {
    match last_toggle {
        Some(t) => match spec_parse_u64(trimmed(t)) {
            Some(last) => elapsed(now, last) >= 60,
            None => true,
        },
        None => true,
    }
}

/// Public Wi-Fi turns Ghost Mode on; leaving it turns off a Ghost Mode that
/// was switched on automatically; at most one toggle a minute.
pub open spec fn ghost_toggle_spec(is_public: bool, ghost_active: bool, was_auto: bool, last_toggle: Option<Seq<char>>, now: u64) -> GhostToggle {
    if !can_toggle_spec(last_toggle, now) {
        GhostToggle::Keep
    } else if is_public && !ghost_active {
        GhostToggle::Enable
    } else if !is_public && ghost_active && was_auto {
        GhostToggle::Disable
    } else {
        GhostToggle::Keep
    }
}

/// Decides the Ghost Mode auto-toggle from the network profile, the current
/// mode, whether it was switched on automatically, the stored time of the
/// last toggle and the current time (seconds since the epoch).
pub fn ghost_toggle_decision(
    is_public: bool,
    ghost_active: bool,
    ghost_was_auto: bool,
    last_toggle: Option<String>,
    now: u64,
) -> (d: GhostToggle)
    ensures
        d == ghost_toggle_spec(is_public, ghost_active, ghost_was_auto,
            match last_toggle { Some(t) => Some(t@), None => None }, now),
{
    let mut can_toggle = true;
    match &last_toggle {
        Some(t) => {
            let tt = trim(t.as_str());
            match crate::baseline::parse_u64(tt.as_str()) {
                Some(last) => {
                    let diff: u64 = now.wrapping_sub(last);
                    proof {
                        assert(diff as int == elapsed(now, last));
                    }
                    if diff < 60 {
                        can_toggle = false;
                    }
                },
                None => {},
            }
        },
        None => {},
    }
    if !can_toggle {
        GhostToggle::Keep
    } else if is_public && !ghost_active {
        GhostToggle::Enable
    } else if !is_public && ghost_active && ghost_was_auto {
        GhostToggle::Disable
    } else {
        GhostToggle::Keep
    }
}

/// What the monitoring loop does with one detected change, by its action type.
#[derive(Debug, Clone, Copy, PartialEq, Eq, Structural)]
pub enum CycleStep {
    /// Apply the automatic repair.
    Repair,
    /// Queue the change for the user's approval.
    QueueApproval,
    /// Only report it.
    Alert,
    /// Report that it needs manual intervention.
    Manual,
    /// An action type the loop does not know.
    Unknown,
}

/// The step the monitoring loop takes for a change of action type `action`.
pub fn cycle_step(action: &str) -> (s: CycleStep)
    ensures
        s == (if action@ == "automatic"@ {
            CycleStep::Repair
        } else if action@ == "confirm"@ {
            CycleStep::QueueApproval
        } else if action@ == "alert"@ {
            CycleStep::Alert
        } else if action@ == "manual"@ {
            CycleStep::Manual
        } else {
            CycleStep::Unknown
        }),
{
    if str_eq(action, "automatic") {
        CycleStep::Repair
    } else if str_eq(action, "confirm") {
        CycleStep::QueueApproval
    } else if str_eq(action, "alert") {
        CycleStep::Alert
    } else if str_eq(action, "manual") {
        CycleStep::Manual
    } else {
        CycleStep::Unknown
    }
}

/// What the daemon charges trust for, and the clean repair it rewards.
#[derive(Debug, Clone, Copy, PartialEq, Eq, Structural)]
pub enum Incident {
    /// The timeline chain failed verification at startup.
    TimelineChainBroken,
    /// The executable no longer matches its stored signature.
    ExecutableModified,
    /// The baseline failed verification in a monitoring cycle.
    BaselineInvalid,
    /// The baseline failed verification in the 30-second heartbeat.
    HeartbeatBaselineInvalid,
    /// An automatic repair left no drift behind.
    RepairCleared,
}

/// The reason and points an incident is charged, if it is charged.
pub open spec fn incident_charge(i: Incident) -> Option<(Seq<char>, u8)> {
    match i {
        Incident::TimelineChainBroken => Some(("Timeline chain verification failed"@, 30u8)),
        Incident::ExecutableModified => Some(("Self-integrity check failed - executable modified"@, 40u8)),
        Incident::BaselineInvalid => Some(("Baseline integrity check failed"@, 25u8)),
        Incident::HeartbeatBaselineInvalid => Some(("Heartbeat: baseline tampered"@, 25u8)),
        Incident::RepairCleared => None,
    }
}

/// Records an incident in the trust level: a deduction with the incident's
/// reason and points, or, for a cleared repair, one tiered recovery step.
pub fn record_incident(trust: &mut TrustLevel, i: Incident)
    ensures
        match incident_charge(i) {
            Some(c) => records_event(*old(trust), *final(trust), deducted_score(old(trust).score, c.1),
                c.0, c.1, TrustEventType::Deduction),
            None => {
                &&& recovered_score(old(trust).score) > old(trust).score ==> records_event(
                    *old(trust), *final(trust), recovered_score(old(trust).score),
                    recovery_reason(old(trust).recovery_state), 0, TrustEventType::Recovery)
                &&& recovered_score(old(trust).score) <= old(trust).score ==> *final(trust) == *old(trust)
            },
        },
{
    match i {
        Incident::TimelineChainBroken => deduct_trust(trust, "Timeline chain verification failed", 30),
        Incident::ExecutableModified => deduct_trust(trust, "Self-integrity check failed - executable modified", 40),
        Incident::BaselineInvalid => deduct_trust(trust, "Baseline integrity check failed", 25),
        Incident::HeartbeatBaselineInvalid => deduct_trust(trust, "Heartbeat: baseline tampered", 25),
        Incident::RepairCleared => recover_trust(trust, 5),
    }
}

/// An invalid baseline is regenerated instead of charged for when it exists,
/// the master key reads back healthy and the executable is untampered.
pub fn should_regenerate_baseline(baseline_valid: bool, baseline_exists: bool, key_healthy: bool, self_ok: bool) -> (b: bool)
    ensures
        b == (!baseline_valid && baseline_exists && key_healthy && self_ok),
{
    !baseline_valid && baseline_exists && key_healthy && self_ok
}

/// What the monitoring cycle does after finding the baseline invalid, and
/// after trying to regenerate it.
#[derive(Debug, Clone, Copy, PartialEq, Eq, Structural)]
pub enum BaselineAction {
    /// Regenerate the baseline, then act on whether that worked.
    Regenerate,
    /// Publish a clean report and end the cycle.
    PublishCleanAndStop,
    /// Charge trust for the invalid baseline, publish the failure and end the cycle.
    ChargeAndStop,
}

/// The cycle's step for an invalid baseline: regenerate it when that is
/// allowed, otherwise charge for it and stop.
pub fn invalid_baseline_action(baseline_exists: bool, key_healthy: bool, self_ok: bool) -> (a: BaselineAction)
    ensures
        a == (if baseline_exists && key_healthy && self_ok {
            BaselineAction::Regenerate
        } else {
            BaselineAction::ChargeAndStop
        }),
{
    if should_regenerate_baseline(false, baseline_exists, key_healthy, self_ok) {
        BaselineAction::Regenerate
    } else {
        BaselineAction::ChargeAndStop
    }
}

/// The cycle's step once regeneration was tried: a fresh baseline ends the
/// cycle with a clean report; a failed one is charged for like any invalid
/// baseline.
pub fn regeneration_action(regenerated: bool) -> (a: BaselineAction)
    ensures
        a == (if regenerated { BaselineAction::PublishCleanAndStop } else { BaselineAction::ChargeAndStop }),
{
    if regenerated {
        BaselineAction::PublishCleanAndStop
    } else {
        BaselineAction::ChargeAndStop
    }
}

/// What follows the automatic repairs of a cycle, by the drift left after them.
#[derive(Debug, Clone, Copy, PartialEq, Eq, Structural)]
pub enum RepairFollowUp {
    /// No drift remains: reset the baseline to the clean state and record
    /// the cleared repair (one recovery step).
    ResetAndReward,
    /// Some drift remains: report how much, and change nothing.
    IssuesRemain,
}

/// The step after a cycle's repairs, given how many changes a fresh
/// detection still finds.
pub fn repair_follow_up(remaining: usize) -> (f: RepairFollowUp)
    ensures
        f == (if remaining == 0 { RepairFollowUp::ResetAndReward } else { RepairFollowUp::IssuesRemain }),
{
    if remaining == 0 {
        RepairFollowUp::ResetAndReward
    } else {
        RepairFollowUp::IssuesRemain
    }
}

/// The self-integrity check: with a stored hash, whether it matches the
/// executable's current hash (ignoring surrounding whitespace); without one,
/// the check passes (and the caller stores the current hash).
pub fn self_integrity_ok(stored_hash: Option<String>, current_hash: &str) -> (ok: bool)
    ensures
        ok == match stored_hash {
            Some(s) => trimmed(s@) == current_hash@,
            None => true,
        },
{
    match &stored_hash {
        Some(s) => {
            let t = trim(s.as_str());
            str_eq(t.as_str(), current_hash)
        },
        None => true,
    }
}

// ============================================
// SCHEDULED TASK AND TRAY
// ============================================

/// What keeping the elevated logon task in place calls for.
#[derive(Debug, Clone, Copy, PartialEq, Eq, Structural)]
pub enum TaskPlan {
    /// The task exists and points at this executable.
    Keep,
    /// (Re)create the task, deleting a stale one first when it exists.
    Create { delete_first: bool },
}

/// Decides about the logon task from two `schtasks /query` outputs (absent
/// when the command could not run) and this executable's path.
pub fn scheduled_task_plan(first_query: Option<String>, second_query: Option<String>, exe_path: &str) -> (p: TaskPlan)
    ensures
        ({
            let exists = match first_query { Some(o) => contains(o@, "InvisiblyDaemon"@), None => false };
            let matches = exists && match second_query {
                Some(o) => contains(o@, exe_path@) || contains(o@, "invisibly-daemon.exe"@),
                None => false,
            };
            &&& exists && matches ==> p == TaskPlan::Keep
            &&& !(exists && matches) ==> p == (TaskPlan::Create { delete_first: exists })
        }),
{
    let exists = match &first_query {
        Some(o) => str_contains(o.as_str(), "InvisiblyDaemon"),
        None => false,
    };
    let matches = exists && match &second_query {
        Some(o) => str_contains(o.as_str(), exe_path) || str_contains(o.as_str(), "invisibly-daemon.exe"),
        None => false,
    };
    if exists && matches {
        TaskPlan::Keep
    } else {
        TaskPlan::Create { delete_first: exists }
    }
}

/// The command that registers the elevated logon task for `exe_path`.
pub fn task_create_command(exe_path: &str) -> (c: String)
    ensures
        c@ == "schtasks /create /tn \"InvisiblyDaemon\" /tr \""@ + exe_path@ + "\" /sc onlogon /rl highest /f"@,
{
    let mut c = String::from_str("schtasks /create /tn \"InvisiblyDaemon\" /tr \"");
    append(&mut c, exe_path);
    append(&mut c, "\" /sc onlogon /rl highest /f");
    c
}

/// Whether `tasklist` output shows the tray running.
pub fn tray_running(tasklist_output: Option<String>) -> (b: bool)
    ensures
        b == match tasklist_output { Some(o) => contains(o@, "invisibly-tray.exe"@), None => false },
{
    match &tasklist_output {
        Some(o) => str_contains(o.as_str(), "invisibly-tray.exe"),
        None => false,
    }
}

// ============================================
// TIMELINE RECORDS OF A CYCLE
// ============================================

/// The (category, action, details) records a monitoring cycle logs: every
/// issue that needs confirmation, alerts or needs manual work.
pub open spec fn cycle_records_upto(issues: Seq<(Seq<char>, Seq<char>, Seq<char>)>, n: int) -> Seq<(Seq<char>, Seq<char>, Seq<char>)>
    decreases n,
{
    if n <= 0 || n > issues.len() {
        Seq::empty()
    } else {
        let t = issues[n - 1];
        if t.2 == "confirm"@ || t.2 == "alert"@ || t.2 == "manual"@ {
            cycle_records_upto(issues, n - 1).push((t.0, t.2, t.1))
        } else {
            cycle_records_upto(issues, n - 1)
        }
    }
}

/// The records a monitoring cycle adds to the timeline for its issues.
pub fn cycle_records(issues: &Vec<(String, String, String)>) -> (r: Vec<(String, String, String)>)
    ensures
        crate::behavior::triple_views(r@)
            == cycle_records_upto(crate::behavior::triple_views(issues@), issues@.len() as int),
{
    let mut r: Vec<(String, String, String)> = Vec::new();
    let mut i: usize = 0;
    proof {
        assert(crate::behavior::triple_views(r@) =~= Seq::<(Seq<char>, Seq<char>, Seq<char>)>::empty());
    }
    while i < issues.len()
        invariant
            i <= issues@.len(),
            crate::behavior::triple_views(r@) == cycle_records_upto(crate::behavior::triple_views(issues@), i as int),
        decreases issues@.len() - i,
    {
        let t = &issues[i];
        proof {
            assert(crate::behavior::triple_views(issues@)[i as int] == (t.0@, t.1@, t.2@));
        }
        let a = t.2.as_str();
        if str_eq(a, "confirm") || str_eq(a, "alert") || str_eq(a, "manual") {
            let rec = (t.0.clone(), t.2.clone(), t.1.clone());
            let ghost before = r@;
            r.push(rec);
            proof {
                assert(crate::behavior::triple_views(r@) =~= crate::behavior::triple_views(before).push((t.0@, t.2@, t.1@)));
            }
        }
        i = i + 1;
    }
    r
}

// ============================================
// LAWS
// ============================================

proof fn lemma_distinct_covers(cats: Seq<Seq<char>>, n: int, k: int)
    requires
        0 <= k < n <= cats.len(),
    ensures
        distinct_new(cats, Seq::empty(), n).contains(cats[k]),
    decreases n,
{
    let prev = distinct_new(cats, Seq::empty(), n - 1);
    if k < n - 1 {
        lemma_distinct_covers(cats, n - 1, k);
        if !(prev.contains(cats[n - 1])) {
            assert(prev.push(cats[n - 1]).contains(cats[k])) by {
                let j = choose|j: int| 0 <= j < prev.len() && prev[j] == cats[k];
                assert(prev.push(cats[n - 1])[j] == cats[k]);
            }
        }
    } else {
        if !prev.contains(cats[k]) {
            assert(prev.push(cats[k])[prev.len() as int] == cats[k]);
        }
    }
}

proof fn lemma_nothing_new(cats: Seq<Seq<char>>, skip: Seq<Seq<char>>, n: int)
    requires
        0 <= n <= cats.len(),
        forall|k: int| 0 <= k < n ==> skip.contains(cats[k]),
    ensures
        distinct_new(cats, skip, n).len() == 0,
    decreases n,
{
    if n > 0 {
        lemma_nothing_new(cats, skip, n - 1);
    }
}

/// An issue that persists is charged once: after a cycle has seen some
/// categories, a next cycle with the same categories finds nothing new (so
/// it charges nothing and grants a recovery step instead).
pub proof fn law_persistent_issue_charged_once(cats: Seq<Seq<char>>)
    ensures
        distinct_new(cats, distinct_new(cats, Seq::empty(), cats.len() as int), cats.len() as int).len() == 0,
{
    let seen = distinct_new(cats, Seq::empty(), cats.len() as int);
    assert forall|k: int| 0 <= k < cats.len() implies seen.contains(cats[k]) by {
        lemma_distinct_covers(cats, cats.len() as int, k);
    }
    lemma_nothing_new(cats, seen, cats.len() as int);
}

proof fn lemma_distinct_new_covers(cats: Seq<Seq<char>>, skip: Seq<Seq<char>>, n: int, k: int)
    requires
        0 <= k < n <= cats.len(),
        !skip.contains(cats[k]),
    ensures
        distinct_new(cats, skip, n).contains(cats[k]),
    decreases n,
{
    let prev = distinct_new(cats, skip, n - 1);
    if k < n - 1 {
        lemma_distinct_new_covers(cats, skip, n - 1, k);
        if !(skip.contains(cats[n - 1]) || prev.contains(cats[n - 1])) {
            let j = choose|j: int| 0 <= j < prev.len() && prev[j] == cats[k];
            assert(prev.push(cats[n - 1])[j] == cats[k]);
        }
    } else {
        if !prev.contains(cats[k]) {
            assert(prev.push(cats[k])[prev.len() as int] == cats[k]);
        }
    }
}

proof fn lemma_penalties_cover(newly: Seq<Seq<char>>, n: int, k: int)
    requires
        0 <= k < n <= newly.len(),
        penalty_spec(newly[k]) is Some,
    ensures
        penalties(newly, n).contains(penalty_spec(newly[k])->0),
    decreases n,
{
    let prev = penalties(newly, n - 1);
    if k < n - 1 {
        lemma_penalties_cover(newly, n - 1, k);
        let j = choose|j: int| 0 <= j < prev.len() && prev[j] == penalty_spec(newly[k])->0;
        if let Some(p) = penalty_spec(newly[n - 1]) {
            assert(prev.push(p)[j] == prev[j]);
        }
    } else {
        assert(prev.push(penalty_spec(newly[k])->0)[prev.len() as int] == penalty_spec(newly[k])->0);
    }
}

proof fn lemma_penalty_names_differ()
    ensures
        "dns"@ != "firewall"@, "dns"@ != "defender"@, "dns"@ != "uac"@, "dns"@ != "wu"@, "dns"@ != "sr"@,
        "dns"@ != "smartscreen"@, "dns"@ != "secureboot"@, "dns"@ != "bitlocker"@, "dns"@ != "credguard"@,
        "hosts"@ != "firewall"@, "hosts"@ != "defender"@, "hosts"@ != "uac"@, "hosts"@ != "wu"@, "hosts"@ != "sr"@,
        "hosts"@ != "smartscreen"@, "hosts"@ != "secureboot"@, "hosts"@ != "bitlocker"@, "hosts"@ != "credguard"@,
        "proxy"@ != "firewall"@, "proxy"@ != "defender"@, "proxy"@ != "uac"@, "proxy"@ != "wu"@, "proxy"@ != "sr"@,
        "proxy"@ != "smartscreen"@, "proxy"@ != "secureboot"@, "proxy"@ != "bitlocker"@, "proxy"@ != "credguard"@,
        "startup"@ != "firewall"@, "startup"@ != "defender"@, "startup"@ != "uac"@, "startup"@ != "wu"@,
        "startup"@ != "sr"@, "startup"@ != "smartscreen"@, "startup"@ != "secureboot"@, "startup"@ != "bitlocker"@,
        "startup"@ != "credguard"@,
        "dhcp"@ != "firewall"@, "dhcp"@ != "defender"@, "dhcp"@ != "uac"@, "dhcp"@ != "wu"@, "dhcp"@ != "sr"@,
        "dhcp"@ != "smartscreen"@, "dhcp"@ != "secureboot"@, "dhcp"@ != "bitlocker"@, "dhcp"@ != "credguard"@,
        "rdp"@ != "firewall"@, "rdp"@ != "defender"@, "rdp"@ != "uac"@, "rdp"@ != "wu"@, "rdp"@ != "sr"@,
        "rdp"@ != "smartscreen"@, "rdp"@ != "secureboot"@, "rdp"@ != "bitlocker"@, "rdp"@ != "credguard"@,
{
    reveal_strlit("dns");
    reveal_strlit("hosts");
    reveal_strlit("proxy");
    reveal_strlit("startup");
    reveal_strlit("dhcp");
    reveal_strlit("rdp");
    reveal_strlit("firewall");
    reveal_strlit("defender");
    reveal_strlit("uac");
    reveal_strlit("wu");
    reveal_strlit("sr");
    reveal_strlit("smartscreen");
    reveal_strlit("secureboot");
    reveal_strlit("bitlocker");
    reveal_strlit("credguard");
    assert("dns"@.len() == 3 && "hosts"@.len() == 5 && "proxy"@.len() == 5 && "startup"@.len() == 7);
    assert("dhcp"@.len() == 4 && "rdp"@.len() == 3 && "firewall"@.len() == 8 && "defender"@.len() == 8);
    assert("uac"@.len() == 3 && "wu"@.len() == 2 && "sr"@.len() == 2 && "smartscreen"@.len() == 11);
    assert("secureboot"@.len() == 10 && "bitlocker"@.len() == 9 && "credguard"@.len() == 9);
    assert("dns"@[0] == 'd' && "rdp"@[0] == 'r' && "uac"@[0] == 'u');
}

/// A category that newly appears among a cycle's issues is charged: a
/// security control (firewall, Defender, UAC, Windows Update, System
/// Restore, SmartScreen, Secure Boot, BitLocker, Credential Guard) costs 10
/// points as "<category> compromised", and a changed DNS, hosts, proxy,
/// startup, DHCP or RDP setting costs 5 points as "<category> changed".
/// `skip` holds the categories already charged while they persisted.
pub proof fn law_new_issue_is_charged(cats: Seq<Seq<char>>, skip: Seq<Seq<char>>, c: Seq<char>)
    requires
        cats.contains(c),
        !skip.contains(c),
    ensures
        ({
            let newly = distinct_new(cats, skip, cats.len() as int);
            &&& (c == "firewall"@ || c == "defender"@ || c == "uac"@ || c == "wu"@ || c == "sr"@
                || c == "smartscreen"@ || c == "secureboot"@ || c == "bitlocker"@ || c == "credguard"@)
                ==> penalties(newly, newly.len() as int).contains((c + " compromised"@, 10u8))
            &&& (c == "dns"@ || c == "hosts"@ || c == "proxy"@ || c == "startup"@ || c == "dhcp"@ || c == "rdp"@)
                ==> penalties(newly, newly.len() as int).contains((c + " changed"@, 5u8))
        }),
{
    let newly = distinct_new(cats, skip, cats.len() as int);
    let k = choose|k: int| 0 <= k < cats.len() && cats[k] == c;
    lemma_distinct_new_covers(cats, skip, cats.len() as int, k);
    let j = choose|j: int| 0 <= j < newly.len() && newly[j] == c;
    lemma_penalty_names_differ();
    if penalty_spec(c) is Some {
        lemma_penalties_cover(newly, newly.len() as int, j);
    }
}

/// Signals with one universally right value, the only ones the first-run
/// comparison can flag.
pub open spec fn universal_category(cat: Seq<char>) -> bool {
    cat == "proxy"@ || cat == "defender"@ || cat == "uac"@ || cat == "wu"@ || cat == "sr"@
        || cat == "smartscreen"@ || cat == "secureboot"@ || cat == "fakeext"@ || cat == "trojan_source"@
        || cat == "homoglyph"@ || cat == "bloatware"@ || cat == "ipv6"@ || cat == "doh"@ || cat == "laps"@
        || cat == "bitlocker"@ || cat == "credguard"@ || cat == "rdp"@
}

pub open spec fn all_universal(s: Seq<Change>) -> bool {
    forall|i: int| 0 <= i < s.len() ==> universal_category(#[trigger] s[i].0)
}

proof fn lemma_push_opt_universal(s: Seq<Change>, c: bool, x: Change)
    requires
        all_universal(s),
        c ==> universal_category(x.0),
    ensures
        all_universal(push_opt(s, c, x)),
{
    if c {
        assert forall|i: int| 0 <= i < push_opt(s, c, x).len() implies universal_category(#[trigger] push_opt(s, c, x)[i].0) by {
            if i < s.len() {
                assert(push_opt(s, c, x)[i] == s[i]);
            }
        }
    }
}

proof fn lemma_no_weakening(p: Seq<Seq<char>>, k: int)
    ensures
        weakened_upto(p, p, k).len() == 0,
    decreases k,
{
    if k > 0 && k <= p.len() {
        lemma_no_weakening(p, k - 1);
    }
}

/// Measured against its own reference state, a machine can only be flagged
/// on signals with one universally right value; its Wi-Fi, devices, startup
/// apps and other machine-specific settings are never first-run findings.
pub proof fn law_first_run_flags_only_universal_signals(c: StateView)
    ensures
        all_universal(spec_all_changes(ideal_spec(c), c)),
{
    let b = ideal_spec(c);
    lemma_no_weakening(c.firewall_profiles, c.firewall_profiles.len() as int);
    let s0 = Seq::<Change>::empty();
    let s1 = changes_network(s0, b, c);
    assert(s1 == push_opt(s0, b.proxy_settings != c.proxy_settings,
        ("proxy"@, "Proxy changed from "@ + crate::text::debug_list(b.proxy_settings) + " to "@ + crate::text::debug_list(c.proxy_settings), "automatic"@)));
    lemma_push_opt_universal(s0, b.proxy_settings != c.proxy_settings,
        ("proxy"@, "Proxy changed from "@ + crate::text::debug_list(b.proxy_settings) + " to "@ + crate::text::debug_list(c.proxy_settings), "automatic"@));
    let s2 = changes_security(s1, b, c);
    assert(all_universal(s2)) by {
        let t1 = push_opt(s1, b.defender_status != c.defender_status, ("defender"@, c.defender_status, "automatic"@));
        lemma_push_opt_universal(s1, b.defender_status != c.defender_status, ("defender"@, c.defender_status, "automatic"@));
        let t2 = push_opt(t1, b.uac_status != c.uac_status, ("uac"@, c.uac_status, "automatic"@));
        lemma_push_opt_universal(t1, b.uac_status != c.uac_status, ("uac"@, c.uac_status, "automatic"@));
        let t3 = push_opt(t2, b.windows_update_status != c.windows_update_status, ("wu"@, c.windows_update_status, "automatic"@));
        lemma_push_opt_universal(t2, b.windows_update_status != c.windows_update_status, ("wu"@, c.windows_update_status, "automatic"@));
        let t4 = push_opt(t3, b.system_restore_status != c.system_restore_status, ("sr"@, c.system_restore_status, "automatic"@));
        lemma_push_opt_universal(t3, b.system_restore_status != c.system_restore_status, ("sr"@, c.system_restore_status, "automatic"@));
        let t5 = push_opt(t4, b.smart_screen_status != c.smart_screen_status, ("smartscreen"@, c.smart_screen_status, "automatic"@));
        lemma_push_opt_universal(t4, b.smart_screen_status != c.smart_screen_status, ("smartscreen"@, c.smart_screen_status, "automatic"@));
        let t6 = push_opt(t5, b.secure_boot != c.secure_boot, ("secureboot"@, c.secure_boot, "manual"@));
        lemma_push_opt_universal(t5, b.secure_boot != c.secure_boot, ("secureboot"@, c.secure_boot, "manual"@));
        assert(s2 == t6);
    }
    let s3 = changes_persistence(s2, b, c);
    assert(all_universal(s3)) by {
        let t1 = push_opt(s2, b.fake_extensions != c.fake_extensions,
            ("fakeext"@, "Fake extensions: "@ + crate::text::debug_list(c.fake_extensions), "automatic"@));
        lemma_push_opt_universal(s2, b.fake_extensions != c.fake_extensions,
            ("fakeext"@, "Fake extensions: "@ + crate::text::debug_list(c.fake_extensions), "automatic"@));
        let t2 = push_opt(t1, b.unicode_bidi_files != c.unicode_bidi_files,
            ("trojan_source"@, "Unicode bidi files: "@ + crate::text::debug_list(c.unicode_bidi_files), "automatic"@));
        lemma_push_opt_universal(t1, b.unicode_bidi_files != c.unicode_bidi_files,
            ("trojan_source"@, "Unicode bidi files: "@ + crate::text::debug_list(c.unicode_bidi_files), "automatic"@));
        let t3 = push_opt(t2, b.homoglyph_domains != c.homoglyph_domains,
            ("homoglyph"@, "Homoglyph domains: "@ + crate::text::debug_list(c.homoglyph_domains), "alert"@));
        lemma_push_opt_universal(t2, b.homoglyph_domains != c.homoglyph_domains,
            ("homoglyph"@, "Homoglyph domains: "@ + crate::text::debug_list(c.homoglyph_domains), "alert"@));
        let t4 = push_opt(t3, b.installed_software != c.installed_software,
            ("bloatware"@, "New software detected: "@ + crate::text::debug_list(c.installed_software), "alert"@));
        lemma_push_opt_universal(t3, b.installed_software != c.installed_software,
            ("bloatware"@, "New software detected: "@ + crate::text::debug_list(c.installed_software), "alert"@));
        assert(s3 == t4);
    }
    let s4 = changes_signals(s3, b, c);
    assert(all_universal(s4)) by {
        let t1 = push_opt(s3, b.ipv6_status != c.ipv6_status, ("ipv6"@, c.ipv6_status, "automatic"@));
        lemma_push_opt_universal(s3, b.ipv6_status != c.ipv6_status, ("ipv6"@, c.ipv6_status, "automatic"@));
        let t2 = push_opt(t1, b.doh_status != c.doh_status, ("doh"@, c.doh_status, "alert"@));
        lemma_push_opt_universal(t1, b.doh_status != c.doh_status, ("doh"@, c.doh_status, "alert"@));
        let t3 = push_opt(t2, b.laps_status != c.laps_status, ("laps"@, c.laps_status, "alert"@));
        lemma_push_opt_universal(t2, b.laps_status != c.laps_status, ("laps"@, c.laps_status, "alert"@));
        let t4 = push_opt(t3, b.bitlocker_status != c.bitlocker_status, ("bitlocker"@, c.bitlocker_status, "alert"@));
        lemma_push_opt_universal(t3, b.bitlocker_status != c.bitlocker_status, ("bitlocker"@, c.bitlocker_status, "alert"@));
        let t5 = push_opt(t4, b.credential_guard_status != c.credential_guard_status, ("credguard"@, c.credential_guard_status, "alert"@));
        lemma_push_opt_universal(t4, b.credential_guard_status != c.credential_guard_status, ("credguard"@, c.credential_guard_status, "alert"@));
        let t6 = push_opt(t5, b.rdp_status != c.rdp_status, ("rdp"@, c.rdp_status, "automatic"@));
        lemma_push_opt_universal(t5, b.rdp_status != c.rdp_status, ("rdp"@, c.rdp_status, "automatic"@));
        assert(s4 == t6);
    }
}

} // verus!

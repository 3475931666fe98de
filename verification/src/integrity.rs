//! Integrity Score & State Machine.
//!
//! A weighted score (0-100) is computed from the current list of detected
//! issues, one control at a time, and mapped to a system state.

use vstd::prelude::*;
use crate::clock::now_rfc3339;
use crate::state::pair_views;
use crate::behavior::lemma_category_names;
use crate::text::{decimal, decimal_string, contains, starts_with, owned, append, str_contains, str_starts_with, str_eq};

verus! {

// ============================================
// TYPES
// ============================================

#[derive(Debug, Clone, Copy, PartialEq, Eq, Structural)]
pub enum IntegrityState {
    Maintained,
    DriftDetected,
    Compromised,
    Lockdown,
    Invalid,
}

#[derive(Debug, Clone, Copy, PartialEq, Eq, Structural)]
pub enum Status {
    Healthy,
    Warning,
    Compromised,
    Unknown,
}

#[derive(Debug, Clone, Copy, PartialEq, Eq, Structural)]
pub enum Severity {
    Critical,
    High,
    Medium,
    Low,
    Info,
}

#[derive(Debug, Clone)]
pub struct ControlStatus {
    pub status: Status,
    pub reason: String,
    pub severity: Severity,
    pub weight: u8,
}

#[derive(Debug, Clone)]
pub struct Deduction {
    pub category: String,
    pub severity: Severity,
    pub points: u8,
    pub reason: String,
    pub context: String,
}

/// The report: `control_status` lists every control once, in evaluation order.
#[derive(Debug, Clone)]
pub struct IntegrityReport {
    pub score: u8,
    pub state: IntegrityState,
    pub control_status: Vec<(String, ControlStatus)>,
    pub deductions: Vec<Deduction>,
    pub timestamp: String,
}

#[derive(Debug, Clone, Copy)]
pub struct IntegrityWeights {
    pub critical: u8,
    pub high: u8,
    pub medium: u8,
    pub low: u8,
}

#[derive(Debug, Clone, Copy)]
pub struct Context {
    pub is_public_wifi: bool,
    pub is_vpn_connected: bool,
    pub is_home_network: bool,
}

/// One row of the control table.
#[derive(Debug, Clone, Copy)]
pub struct ControlRule {
    pub category: &'static str,
    /// Any report for the category is a finding (not only one naming a word).
    pub any: bool,
    pub word_a: &'static str,
    pub word_b: &'static str,
    pub bad_status: Status,
    pub severity: Severity,
    pub weight: u8,
    /// Reason given when detection itself failed.
    pub error_text: &'static str,
    /// Whether the failing message is appended to `error_text`.
    pub append_msg: bool,
    pub bad_reason: &'static str,
    pub healthy_reason: &'static str,
}

// ============================================
// VIEWS
// ============================================

pub ghost struct RuleSpec {
    pub category: Seq<char>,
    pub any: bool,
    pub word_a: Seq<char>,
    pub word_b: Seq<char>,
    pub bad_status: Status,
    pub severity: Severity,
    pub weight: u8,
    pub error_text: Seq<char>,
    pub append_msg: bool,
    pub bad_reason: Seq<char>,
    pub healthy_reason: Seq<char>,
}

pub ghost struct StatusView {
    pub status: Status,
    pub reason: Seq<char>,
    pub severity: Severity,
    pub weight: u8,
}

pub ghost struct DeductionView {
    pub category: Seq<char>,
    pub severity: Severity,
    pub points: u8,
    pub reason: Seq<char>,
    pub context: Seq<char>,
}

impl View for ControlRule {
    type V = RuleSpec;

    open spec fn view(&self) -> RuleSpec {
        RuleSpec {
            category: self.category@,
            any: self.any,
            word_a: self.word_a@,
            word_b: self.word_b@,
            bad_status: self.bad_status,
            severity: self.severity,
            weight: self.weight,
            error_text: self.error_text@,
            append_msg: self.append_msg,
            bad_reason: self.bad_reason@,
            healthy_reason: self.healthy_reason@,
        }
    }
}

impl View for ControlStatus {
    type V = StatusView;

    open spec fn view(&self) -> StatusView {
        StatusView { status: self.status, reason: self.reason@, severity: self.severity, weight: self.weight }
    }
}

impl View for Deduction {
    type V = DeductionView;

    open spec fn view(&self) -> DeductionView {
        DeductionView {
            category: self.category@,
            severity: self.severity,
            points: self.points,
            reason: self.reason@,
            context: self.context@,
        }
    }
}

/// The character contents of a report.
pub ghost struct ReportView {
    pub score: u8,
    pub state: IntegrityState,
    pub control_status: Seq<(Seq<char>, StatusView)>,
    pub deductions: Seq<DeductionView>,
    pub timestamp: Seq<char>,
}

impl View for IntegrityReport {
    type V = ReportView;

    open spec fn view(&self) -> ReportView {
        ReportView {
            score: self.score,
            state: self.state,
            control_status: status_views(self.control_status@),
            deductions: deduction_views(self.deductions@),
            timestamp: self.timestamp@,
        }
    }
}

pub open spec fn deduction_views(d: Seq<Deduction>) -> Seq<DeductionView> {
    d.map_values(|x: Deduction| x@)
}

pub open spec fn status_views(c: Seq<(String, ControlStatus)>) -> Seq<(Seq<char>, StatusView)> {
    c.map_values(|x: (String, ControlStatus)| (x.0@, x.1@))
}

// ============================================
// SPECIFICATION: ISSUES AND CONTROLS
// ============================================

/// The message of the first issue at or after `k` filed under `category`.
pub open spec fn first_issue_from(issues: Seq<(Seq<char>, Seq<char>)>, category: Seq<char>, k: int) -> Option<Seq<char>>
    decreases issues.len() - k,
{
    if k < 0 || k >= issues.len() {
        None
    } else if issues[k].0 == category {
        Some(issues[k].1)
    } else {
        first_issue_from(issues, category, k + 1)
    }
}

/// The message of the first issue filed under `category`.
pub open spec fn first_issue(issues: Seq<(Seq<char>, Seq<char>)>, category: Seq<char>) -> Option<Seq<char>> {
    first_issue_from(issues, category, 0)
}

/// A message reporting that detection itself failed.
pub open spec fn is_error_message(msg: Seq<char>) -> bool {
    starts_with(msg, "ERROR_"@)
}

pub open spec fn healthy_view(reason: Seq<char>) -> StatusView {
    StatusView { status: Status::Healthy, reason, severity: Severity::Info, weight: 0 }
}

/// What one control reports for the given issues.
pub open spec fn rule_outcome(r: RuleSpec, issues: Seq<(Seq<char>, Seq<char>)>) -> StatusView {
    match first_issue(issues, r.category) {
        Some(msg) => if is_error_message(msg) {
            StatusView {
                status: Status::Unknown,
                reason: if r.append_msg { r.error_text + msg } else { r.error_text },
                severity: Severity::Info,
                weight: 0,
            }
        } else if r.any || contains(msg, r.word_a) || contains(msg, r.word_b) {
            StatusView { status: r.bad_status, reason: r.bad_reason, severity: r.severity, weight: r.weight }
        } else {
            healthy_view(r.healthy_reason)
        },
        None => healthy_view(r.healthy_reason),
    }
}

pub open spec fn mk_rule(
    category: Seq<char>, any: bool, word_a: Seq<char>, word_b: Seq<char>, bad_status: Status,
    severity: Severity, weight: u8, error_text: Seq<char>, append_msg: bool,
    bad_reason: Seq<char>, healthy_reason: Seq<char>,
) -> RuleSpec {
    RuleSpec { category, any, word_a, word_b, bad_status, severity, weight, error_text, append_msg, bad_reason, healthy_reason }
}

/// The number of controls.
pub open spec fn control_count() -> int {
    34
}

/// The control table, in evaluation order.
pub open spec fn spec_control_rule(i: int) -> RuleSpec {
    if i == 0 { mk_rule("firewall"@, false, "OFF"@, "OFF"@, Status::Compromised, Severity::Critical, 20, "Firewall detection failed: "@, true, "Firewall is disabled"@, "Firewall is enabled"@) }
    else if i == 1 { mk_rule("defender"@, false, "OFF"@, "OFF"@, Status::Compromised, Severity::Critical, 20, "Defender detection failed: "@, true, "Windows Defender is disabled"@, "Windows Defender is enabled"@) }
    else if i == 2 { mk_rule("dns"@, true, ""@, ""@, Status::Warning, Severity::High, 12, "DNS detection failed: "@, true, "DNS configuration changed"@, "DNS is configured correctly"@) }
    else if i == 3 { mk_rule("hosts"@, true, ""@, ""@, Status::Warning, Severity::High, 12, "Hosts detection failed: "@, true, "Hosts file modified"@, "Hosts file is intact"@) }
    else if i == 4 { mk_rule("proxy"@, true, ""@, ""@, Status::Warning, Severity::High, 12, "Proxy detection failed: "@, true, "Proxy settings changed"@, "No proxy detected"@) }
    else if i == 5 { mk_rule("uac"@, false, "OFF"@, "OFF"@, Status::Compromised, Severity::Critical, 20, "UAC detection failed: "@, true, "UAC is disabled"@, "UAC is enabled"@) }
    else if i == 6 { mk_rule("wu"@, false, "OFF"@, "OFF"@, Status::Compromised, Severity::Critical, 20, "Windows Update detection failed: "@, true, "Windows Update is disabled"@, "Windows Update is enabled"@) }
    else if i == 7 { mk_rule("sr"@, false, "OFF"@, "OFF"@, Status::Compromised, Severity::Critical, 20, "System Restore is not available on this system"@, false, "System Restore is disabled"@, "System Restore is enabled"@) }
    else if i == 8 { mk_rule("smartscreen"@, false, "OFF"@, "OFF"@, Status::Compromised, Severity::Critical, 20, "SmartScreen detection failed: "@, true, "SmartScreen is disabled"@, "SmartScreen is enabled"@) }
    else if i == 9 { mk_rule("vpn"@, false, "DISCONNECTED"@, "DISCONNECTED"@, Status::Warning, Severity::Low, 2, "VPN detection failed: "@, true, "VPN is disconnected"@, "VPN is connected"@) }
    else if i == 10 { mk_rule("ipv6"@, false, "OFF"@, "OFF"@, Status::Warning, Severity::Low, 2, "IPv6 detection failed: "@, true, "IPv6 is disabled"@, "IPv6 is enabled"@) }
    else if i == 11 { mk_rule("wifi_profile"@, false, "PUBLIC"@, "PUBLIC"@, Status::Warning, Severity::Low, 2, "WiFi profile detection failed: "@, true, "WiFi profile is set to Public"@, "WiFi profile is Private"@) }
    else if i == 12 { mk_rule("doh"@, false, "OFF"@, "OFF"@, Status::Warning, Severity::Medium, 6, "DoH detection failed: "@, true, "DNS over HTTPS is disabled"@, "DNS over HTTPS is enabled"@) }
    else if i == 13 { mk_rule("laps"@, false, "DISABLED"@, "DISABLED"@, Status::Warning, Severity::Medium, 6, "LAPS detection failed: "@, true, "LAPS is disabled"@, "LAPS is enabled"@) }
    else if i == 14 { mk_rule("secureboot"@, false, "OFF"@, "OFF"@, Status::Compromised, Severity::Critical, 20, "Secure Boot detection failed: "@, true, "Secure Boot is disabled"@, "Secure Boot is enabled"@) }
    else if i == 15 { mk_rule("startup"@, true, ""@, ""@, Status::Warning, Severity::High, 12, "Startup detection failed: "@, true, "Startup entries changed"@, "Startup entries are clean"@) }
    else if i == 16 { mk_rule("services"@, true, ""@, ""@, Status::Warning, Severity::Medium, 6, "Services detection failed: "@, true, "Windows Services changed"@, "Windows Services are unchanged"@) }
    else if i == 17 { mk_rule("devices"@, true, ""@, ""@, Status::Warning, Severity::Medium, 6, "Devices detection failed: "@, true, "New network device detected"@, "No unknown network devices"@) }
    else if i == 18 { mk_rule("dhcp"@, true, ""@, ""@, Status::Warning, Severity::High, 12, "DHCP detection failed: "@, true, "DHCP server changed (possible spoofing)"@, "DHCP server is consistent"@) }
    else if i == 19 { mk_rule("bitlocker"@, false, "OFF"@, "OFF"@, Status::Compromised, Severity::High, 12, "BitLocker detection failed: "@, true, "BitLocker is disabled"@, "BitLocker is enabled"@) }
    else if i == 20 { mk_rule("credguard"@, false, "OFF"@, "OFF"@, Status::Compromised, Severity::High, 12, "Credential Guard detection failed: "@, true, "Credential Guard is disabled"@, "Credential Guard is enabled"@) }
    else if i == 21 { mk_rule("rdp"@, false, "LISTENING"@, "RUNNING"@, Status::Warning, Severity::Medium, 6, "RDP detection failed: "@, true, "RDP is enabled (port 3389 listening)"@, "RDP is disabled"@) }
    else if i == 22 { mk_rule("bruteforce"@, false, "HIGH"@, "HIGH"@, Status::Compromised, Severity::Critical, 20, "Brute force detection failed: "@, true, "Multiple login failures detected (brute force)"@, "No brute force attempts detected"@) }
    else if i == 23 { mk_rule("trojan_source"@, true, ""@, ""@, Status::Compromised, Severity::High, 12, "Trojan source detection failed: "@, true, "Unicode bidi files detected (trojan source)"@, "No trojan source files detected"@) }
    else if i == 24 { mk_rule("hid"@, true, ""@, ""@, Status::Warning, Severity::Medium, 6, "HID detection failed: "@, true, "New HID devices detected"@, "No suspicious HID devices"@) }
    else if i == 25 { mk_rule("bt"@, true, ""@, ""@, Status::Warning, Severity::Low, 2, "Bluetooth detection failed: "@, true, "New Bluetooth devices detected"@, "No unknown Bluetooth devices"@) }
    else if i == 26 { mk_rule("fakeext"@, true, ""@, ""@, Status::Compromised, Severity::High, 12, "Fake extension detection failed: "@, true, "Fake file extensions detected"@, "No fake file extensions detected"@) }
    else if i == 27 { mk_rule("bloatware"@, true, ""@, ""@, Status::Warning, Severity::Low, 2, "Bloatware detection failed: "@, true, "New software detected (possible bloatware)"@, "No bloatware detected"@) }
    else if i == 28 { mk_rule("adapter"@, true, ""@, ""@, Status::Warning, Severity::Medium, 6, "Adapter detection failed: "@, true, "Network adapters changed"@, "Network adapters are unchanged"@) }
    else if i == 29 { mk_rule("tasks"@, true, ""@, ""@, Status::Warning, Severity::Medium, 6, "Tasks detection failed: "@, true, "Scheduled tasks changed"@, "Scheduled tasks are unchanged"@) }
    else if i == 30 { mk_rule("wifi"@, true, ""@, ""@, Status::Warning, Severity::Low, 2, "WiFi detection failed: "@, true, "WiFi network changed"@, "WiFi network is unchanged"@) }
    else if i == 31 { mk_rule("arp"@, true, ""@, ""@, Status::Warning, Severity::Low, 2, "ARP detection failed: "@, true, "ARP table changed (possible spoofing)"@, "ARP table is consistent"@) }
    else if i == 32 { mk_rule("homoglyph"@, true, ""@, ""@, Status::Warning, Severity::Medium, 6, "Homoglyph detection failed: "@, true, "Homoglyph domains detected (typosquatting)"@, "No homoglyph domains detected"@) }
    else { mk_rule("susp_proc"@, true, ""@, ""@, Status::Warning, Severity::High, 12, "Suspicious process detection failed: "@, true, "Suspicious processes detected"@, "No suspicious processes detected"@) }
}

// ============================================
// SPECIFICATION: WEIGHTS, CONTEXT, SCORE
// ============================================

/// Points a severity is worth under the given weights.
pub open spec fn base_points(severity: Severity, w: IntegrityWeights) -> u8 {
    match severity {
        Severity::Critical => w.critical,
        Severity::High => w.high,
        Severity::Medium => w.medium,
        Severity::Low => w.low,
        Severity::Info => 0,
    }
}

/// The context multiplier for a category.
pub open spec fn multiplier(ctx: Context, category: Seq<char>) -> u8 {
    if category == "vpn"@ {
        if ctx.is_public_wifi && !ctx.is_vpn_connected { 3 }
        else if ctx.is_home_network && !ctx.is_vpn_connected { 0 }
        else { 1 }
    } else if category == "wifi_profile"@ {
        if ctx.is_public_wifi { 2 } else { 0 }
    } else {
        1
    }
}

/// Points deducted for a finding: base points times multiplier, at most 100.
pub open spec fn points_for(severity: Severity, category: Seq<char>, w: IntegrityWeights, ctx: Context) -> u8 {
    let p = base_points(severity, w) as int * multiplier(ctx, category) as int;
    if p > 100 { 100 } else { p as u8 }
}

/// A status that costs points.
pub open spec fn is_finding(s: StatusView) -> bool {
    s.status != Status::Healthy && s.status != Status::Unknown
}

pub open spec fn outcome_at(issues: Seq<(Seq<char>, Seq<char>)>, i: int) -> StatusView {
    rule_outcome(spec_control_rule(i), issues)
}

pub open spec fn deduction_at(issues: Seq<(Seq<char>, Seq<char>)>, w: IntegrityWeights, ctx: Context, i: int) -> DeductionView {
    let o = outcome_at(issues, i);
    let cat = spec_control_rule(i).category;
    DeductionView { category: cat, severity: o.severity, points: points_for(o.severity, cat, w, ctx), reason: o.reason, context: o.reason }
}

/// The deductions made by the first `n` controls, in order.
pub open spec fn deductions_upto(issues: Seq<(Seq<char>, Seq<char>)>, w: IntegrityWeights, ctx: Context, n: int) -> Seq<DeductionView>
    decreases n,
{
    if n <= 0 {
        Seq::empty()
    } else if is_finding(outcome_at(issues, n - 1)) {
        deductions_upto(issues, w, ctx, n - 1).push(deduction_at(issues, w, ctx, n - 1))
    } else {
        deductions_upto(issues, w, ctx, n - 1)
    }
}

/// The sum of the points of a list of deductions.
pub open spec fn total_points(d: Seq<DeductionView>) -> int
    decreases d.len(),
{
    if d.len() == 0 { 0 } else { total_points(d.drop_last()) + d.last().points }
}

/// 100 minus the total, floored at 0.
pub open spec fn score_from_total(total: int) -> u8 {
    if total >= 100 { 0 } else { (100 - total) as u8 }
}

/// Some deduction is critical.
pub open spec fn has_critical(d: Seq<DeductionView>) -> bool {
    exists|i: int| 0 <= i < d.len() && d[i].severity == Severity::Critical
}

/// The state a score and its deductions put the system in.
pub open spec fn state_for(d: Seq<DeductionView>, score: u8) -> IntegrityState {
    if score >= 90 {
        IntegrityState::Maintained
    } else if has_critical(d) {
        IntegrityState::Compromised
    } else if d.len() > 0 {
        IntegrityState::DriftDetected
    } else {
        IntegrityState::Maintained
    }
}

/// The control status list: every control with its outcome, in table order.
pub open spec fn spec_control_statuses(issues: Seq<(Seq<char>, Seq<char>)>) -> Seq<(Seq<char>, StatusView)> {
    Seq::new(control_count() as nat, |i: int| (spec_control_rule(i).category, outcome_at(issues, i)))
}

/// The single deduction recorded for an invalid baseline.
pub open spec fn invalid_baseline_deduction() -> DeductionView {
    DeductionView {
        category: "baseline"@,
        severity: Severity::Critical,
        points: 100,
        reason: "Baseline integrity check failed"@,
        context: "Baseline has been tampered with. Manual approval required."@,
    }
}

// ============================================
// WEIGHTS AND CONTEXT
// ============================================

impl Default for IntegrityWeights {
    fn default() -> (w: Self)
        ensures
            w.critical == 20 && w.high == 12 && w.medium == 6 && w.low == 2,
    {
        IntegrityWeights { critical: 20, high: 12, medium: 6, low: 2 }
    }
}

/// Caps each configured weight at 100, as loading a weights file does.
pub fn clamp_weights(w: IntegrityWeights) -> (r: IntegrityWeights)
    ensures
        r.critical == if w.critical > 100 { 100 } else { w.critical },
        r.high == if w.high > 100 { 100 } else { w.high },
        r.medium == if w.medium > 100 { 100 } else { w.medium },
        r.low == if w.low > 100 { 100 } else { w.low },
{
    IntegrityWeights {
        critical: if w.critical > 100 { 100 } else { w.critical },
        high: if w.high > 100 { 100 } else { w.high },
        medium: if w.medium > 100 { 100 } else { w.medium },
        low: if w.low > 100 { 100 } else { w.low },
    }
}

impl Context {
    /// Builds the context from the detected WiFi profile, VPN status, the
    /// configured home SSID (if any) and the current SSID.
    pub fn detect(wifi_profile: &str, vpn_status: &str, home_ssid: Option<String>, current_ssid: &str) -> (c: Context)
        ensures
            c.is_public_wifi == (wifi_profile@ == "PUBLIC"@),
            c.is_vpn_connected == (vpn_status@ == "CONNECTED"@),
            c.is_home_network == (current_ssid@ == match home_ssid {
                Some(h) => h@,
                None => "Unknown"@,
            }),
    {
        let home = match home_ssid {
            Some(h) => h,
            None => owned("Unknown"),
        };
        Context {
            is_public_wifi: str_eq(wifi_profile, "PUBLIC"),
            is_vpn_connected: str_eq(vpn_status, "CONNECTED"),
            is_home_network: str_eq(current_ssid, home.as_str()),
        }
    }

    /// The multiplier applied to a category's deduction in this context.
    pub fn deduction_multiplier(&self, category: &str) -> (m: u8)
        ensures
            m == multiplier(*self, category@),
    {
        if str_eq(category, "vpn") {
            if self.is_public_wifi && !self.is_vpn_connected {
                3
            } else if self.is_home_network && !self.is_vpn_connected {
                0
            } else {
                1
            }
        } else if str_eq(category, "wifi_profile") {
            if self.is_public_wifi { 2 } else { 0 }
        } else {
            1
        }
    }
}

// ============================================
// CONTROL EVALUATION
// ============================================

/// The message of the first issue filed under `category`.
fn find_issue(issues: &[(String, String)], category: &str) -> (r: Option<String>)
    ensures
        match r {
            Some(m) => first_issue(pair_views(issues@), category@) == Some(m@),
            None => first_issue(pair_views(issues@), category@) is None,
        },
{
    let mut i: usize = 0;
    while i < issues.len()
        invariant
            i <= pair_views(issues@).len(),
            first_issue(pair_views(issues@), category@) == first_issue_from(pair_views(issues@), category@, i as int),
        decreases pair_views(issues@).len() - i,
    {
        if str_eq(issues[i].0.as_str(), category) {
            return Some(issues[i].1.clone());
        }
        i = i + 1;
    }
    None
}

/// A detection-failure sentinel.
fn is_error(msg: &str) -> (r: bool)
    ensures
        r == is_error_message(msg@),
{
    str_starts_with(msg, "ERROR_")
}

fn healthy_status(reason: &str) -> (c: ControlStatus)
    ensures
        c@ == healthy_view(reason@),
{
    ControlStatus { status: Status::Healthy, reason: owned(reason), severity: Severity::Info, weight: 0 }
}

fn unknown_status(reason: String) -> (c: ControlStatus)
    ensures
        c@ == (StatusView { status: Status::Unknown, reason: reason@, severity: Severity::Info, weight: 0 }),
{
    ControlStatus { status: Status::Unknown, reason, severity: Severity::Info, weight: 0 }
}

fn compromised_status(reason: &str, severity: Severity, weight: u8) -> (c: ControlStatus)
    ensures
        c@ == (StatusView { status: Status::Compromised, reason: reason@, severity, weight }),
{
    ControlStatus { status: Status::Compromised, reason: owned(reason), severity, weight }
}

fn warning_status(reason: &str, severity: Severity, weight: u8) -> (c: ControlStatus)
    ensures
        c@ == (StatusView { status: Status::Warning, reason: reason@, severity, weight }),
{
    ControlStatus { status: Status::Warning, reason: owned(reason), severity, weight }
}

/// Evaluates one control row against the issues.
pub fn evaluate_rule(rule: &ControlRule, issues: &[(String, String)]) -> (c: ControlStatus)
    ensures
        c@ == rule_outcome(rule@, pair_views(issues@)),
{
    match find_issue(issues, rule.category) {
        Some(msg) => {
            if is_error(msg.as_str()) {
                let mut reason = owned(rule.error_text);
                if rule.append_msg {
                    append(&mut reason, msg.as_str());
                }
                unknown_status(reason)
            } else if rule.any || str_contains(msg.as_str(), rule.word_a) || str_contains(msg.as_str(), rule.word_b) {
                match rule.bad_status {
                    Status::Compromised => compromised_status(rule.bad_reason, rule.severity, rule.weight),
                    Status::Warning => warning_status(rule.bad_reason, rule.severity, rule.weight),
                    other => ControlStatus { status: other, reason: owned(rule.bad_reason), severity: rule.severity, weight: rule.weight },
                }
            } else {
                healthy_status(rule.healthy_reason)
            }
        }
        None => healthy_status(rule.healthy_reason),
    }
}

fn rule(
    category: &'static str, any: bool, word_a: &'static str, word_b: &'static str, bad_status: Status,
    severity: Severity, weight: u8, error_text: &'static str, append_msg: bool,
    bad_reason: &'static str, healthy_reason: &'static str,
) -> (r: ControlRule)
    ensures
        r@ == mk_rule(category@, any, word_a@, word_b@, bad_status, severity, weight, error_text@, append_msg, bad_reason@, healthy_reason@),
{
    ControlRule { category, any, word_a, word_b, bad_status, severity, weight, error_text, append_msg, bad_reason, healthy_reason }
}

/// The control at position `i` of the table.
pub fn control_rule(i: usize) -> (r: ControlRule)
    requires
        i < control_count(),
    ensures
        r@ == spec_control_rule(i as int),
{
    if i == 0 { rule("firewall", false, "OFF", "OFF", Status::Compromised, Severity::Critical, 20, "Firewall detection failed: ", true, "Firewall is disabled", "Firewall is enabled") }
    else if i == 1 { rule("defender", false, "OFF", "OFF", Status::Compromised, Severity::Critical, 20, "Defender detection failed: ", true, "Windows Defender is disabled", "Windows Defender is enabled") }
    else if i == 2 { rule("dns", true, "", "", Status::Warning, Severity::High, 12, "DNS detection failed: ", true, "DNS configuration changed", "DNS is configured correctly") }
    else if i == 3 { rule("hosts", true, "", "", Status::Warning, Severity::High, 12, "Hosts detection failed: ", true, "Hosts file modified", "Hosts file is intact") }
    else if i == 4 { rule("proxy", true, "", "", Status::Warning, Severity::High, 12, "Proxy detection failed: ", true, "Proxy settings changed", "No proxy detected") }
    else if i == 5 { rule("uac", false, "OFF", "OFF", Status::Compromised, Severity::Critical, 20, "UAC detection failed: ", true, "UAC is disabled", "UAC is enabled") }
    else if i == 6 { rule("wu", false, "OFF", "OFF", Status::Compromised, Severity::Critical, 20, "Windows Update detection failed: ", true, "Windows Update is disabled", "Windows Update is enabled") }
    else if i == 7 { rule("sr", false, "OFF", "OFF", Status::Compromised, Severity::Critical, 20, "System Restore is not available on this system", false, "System Restore is disabled", "System Restore is enabled") }
    else if i == 8 { rule("smartscreen", false, "OFF", "OFF", Status::Compromised, Severity::Critical, 20, "SmartScreen detection failed: ", true, "SmartScreen is disabled", "SmartScreen is enabled") }
    else if i == 9 { rule("vpn", false, "DISCONNECTED", "DISCONNECTED", Status::Warning, Severity::Low, 2, "VPN detection failed: ", true, "VPN is disconnected", "VPN is connected") }
    else if i == 10 { rule("ipv6", false, "OFF", "OFF", Status::Warning, Severity::Low, 2, "IPv6 detection failed: ", true, "IPv6 is disabled", "IPv6 is enabled") }
    else if i == 11 { rule("wifi_profile", false, "PUBLIC", "PUBLIC", Status::Warning, Severity::Low, 2, "WiFi profile detection failed: ", true, "WiFi profile is set to Public", "WiFi profile is Private") }
    else if i == 12 { rule("doh", false, "OFF", "OFF", Status::Warning, Severity::Medium, 6, "DoH detection failed: ", true, "DNS over HTTPS is disabled", "DNS over HTTPS is enabled") }
    else if i == 13 { rule("laps", false, "DISABLED", "DISABLED", Status::Warning, Severity::Medium, 6, "LAPS detection failed: ", true, "LAPS is disabled", "LAPS is enabled") }
    else if i == 14 { rule("secureboot", false, "OFF", "OFF", Status::Compromised, Severity::Critical, 20, "Secure Boot detection failed: ", true, "Secure Boot is disabled", "Secure Boot is enabled") }
    else if i == 15 { rule("startup", true, "", "", Status::Warning, Severity::High, 12, "Startup detection failed: ", true, "Startup entries changed", "Startup entries are clean") }
    else if i == 16 { rule("services", true, "", "", Status::Warning, Severity::Medium, 6, "Services detection failed: ", true, "Windows Services changed", "Windows Services are unchanged") }
    else if i == 17 { rule("devices", true, "", "", Status::Warning, Severity::Medium, 6, "Devices detection failed: ", true, "New network device detected", "No unknown network devices") }
    else if i == 18 { rule("dhcp", true, "", "", Status::Warning, Severity::High, 12, "DHCP detection failed: ", true, "DHCP server changed (possible spoofing)", "DHCP server is consistent") }
    else if i == 19 { rule("bitlocker", false, "OFF", "OFF", Status::Compromised, Severity::High, 12, "BitLocker detection failed: ", true, "BitLocker is disabled", "BitLocker is enabled") }
    else if i == 20 { rule("credguard", false, "OFF", "OFF", Status::Compromised, Severity::High, 12, "Credential Guard detection failed: ", true, "Credential Guard is disabled", "Credential Guard is enabled") }
    else if i == 21 { rule("rdp", false, "LISTENING", "RUNNING", Status::Warning, Severity::Medium, 6, "RDP detection failed: ", true, "RDP is enabled (port 3389 listening)", "RDP is disabled") }
    else if i == 22 { rule("bruteforce", false, "HIGH", "HIGH", Status::Compromised, Severity::Critical, 20, "Brute force detection failed: ", true, "Multiple login failures detected (brute force)", "No brute force attempts detected") }
    else if i == 23 { rule("trojan_source", true, "", "", Status::Compromised, Severity::High, 12, "Trojan source detection failed: ", true, "Unicode bidi files detected (trojan source)", "No trojan source files detected") }
    else if i == 24 { rule("hid", true, "", "", Status::Warning, Severity::Medium, 6, "HID detection failed: ", true, "New HID devices detected", "No suspicious HID devices") }
    else if i == 25 { rule("bt", true, "", "", Status::Warning, Severity::Low, 2, "Bluetooth detection failed: ", true, "New Bluetooth devices detected", "No unknown Bluetooth devices") }
    else if i == 26 { rule("fakeext", true, "", "", Status::Compromised, Severity::High, 12, "Fake extension detection failed: ", true, "Fake file extensions detected", "No fake file extensions detected") }
    else if i == 27 { rule("bloatware", true, "", "", Status::Warning, Severity::Low, 2, "Bloatware detection failed: ", true, "New software detected (possible bloatware)", "No bloatware detected") }
    else if i == 28 { rule("adapter", true, "", "", Status::Warning, Severity::Medium, 6, "Adapter detection failed: ", true, "Network adapters changed", "Network adapters are unchanged") }
    else if i == 29 { rule("tasks", true, "", "", Status::Warning, Severity::Medium, 6, "Tasks detection failed: ", true, "Scheduled tasks changed", "Scheduled tasks are unchanged") }
    else if i == 30 { rule("wifi", true, "", "", Status::Warning, Severity::Low, 2, "WiFi detection failed: ", true, "WiFi network changed", "WiFi network is unchanged") }
    else if i == 31 { rule("arp", true, "", "", Status::Warning, Severity::Low, 2, "ARP detection failed: ", true, "ARP table changed (possible spoofing)", "ARP table is consistent") }
    else if i == 32 { rule("homoglyph", true, "", "", Status::Warning, Severity::Medium, 6, "Homoglyph detection failed: ", true, "Homoglyph domains detected (typosquatting)", "No homoglyph domains detected") }
    else { rule("susp_proc", true, "", "", Status::Warning, Severity::High, 12, "Suspicious process detection failed: ", true, "Suspicious processes detected", "No suspicious processes detected") }
}

/// The whole control table, in evaluation order.
pub fn get_control_evaluators() -> (v: Vec<ControlRule>)
    ensures
        v@.len() == control_count(),
        forall|i: int| 0 <= i < control_count() ==> #[trigger] v@[i]@ == spec_control_rule(i),
{
    let mut v: Vec<ControlRule> = Vec::new();
    let mut i: usize = 0;
    while i < 34
        invariant
            i <= 34,
            v@.len() == i,
            forall|j: int| 0 <= j < i ==> #[trigger] v@[j]@ == spec_control_rule(j),
        decreases 34 - i,
    {
        v.push(control_rule(i));
        i = i + 1;
    }
    v
}

// ============================================
// INDIVIDUAL EVALUATORS
// ============================================

/// The `firewall` control.
pub fn evaluate_firewall(issues: &[(String, String)]) -> (c: ControlStatus)
    ensures
        c@ == rule_outcome(spec_control_rule(0), pair_views(issues@)),
{
    evaluate_rule(&control_rule(0), issues)
}

/// The `defender` control.
pub fn evaluate_defender(issues: &[(String, String)]) -> (c: ControlStatus)
    ensures
        c@ == rule_outcome(spec_control_rule(1), pair_views(issues@)),
{
    evaluate_rule(&control_rule(1), issues)
}

/// The `dns` control.
pub fn evaluate_dns(issues: &[(String, String)]) -> (c: ControlStatus)
    ensures
        c@ == rule_outcome(spec_control_rule(2), pair_views(issues@)),
{
    evaluate_rule(&control_rule(2), issues)
}

/// The `hosts` control.
pub fn evaluate_hosts(issues: &[(String, String)]) -> (c: ControlStatus)
    ensures
        c@ == rule_outcome(spec_control_rule(3), pair_views(issues@)),
{
    evaluate_rule(&control_rule(3), issues)
}

/// The `proxy` control.
pub fn evaluate_proxy(issues: &[(String, String)]) -> (c: ControlStatus)
    ensures
        c@ == rule_outcome(spec_control_rule(4), pair_views(issues@)),
{
    evaluate_rule(&control_rule(4), issues)
}

/// The `uac` control.
pub fn evaluate_uac(issues: &[(String, String)]) -> (c: ControlStatus)
    ensures
        c@ == rule_outcome(spec_control_rule(5), pair_views(issues@)),
{
    evaluate_rule(&control_rule(5), issues)
}

/// The `wu` control.
pub fn evaluate_wu(issues: &[(String, String)]) -> (c: ControlStatus)
    ensures
        c@ == rule_outcome(spec_control_rule(6), pair_views(issues@)),
{
    evaluate_rule(&control_rule(6), issues)
}

/// The `sr` control.
pub fn evaluate_sr(issues: &[(String, String)]) -> (c: ControlStatus)
    ensures
        c@ == rule_outcome(spec_control_rule(7), pair_views(issues@)),
{
    evaluate_rule(&control_rule(7), issues)
}

/// The `smartscreen` control.
pub fn evaluate_smartscreen(issues: &[(String, String)]) -> (c: ControlStatus)
    ensures
        c@ == rule_outcome(spec_control_rule(8), pair_views(issues@)),
{
    evaluate_rule(&control_rule(8), issues)
}

/// The `vpn` control.
pub fn evaluate_vpn(issues: &[(String, String)]) -> (c: ControlStatus)
    ensures
        c@ == rule_outcome(spec_control_rule(9), pair_views(issues@)),
{
    evaluate_rule(&control_rule(9), issues)
}

/// The `ipv6` control.
pub fn evaluate_ipv6(issues: &[(String, String)]) -> (c: ControlStatus)
    ensures
        c@ == rule_outcome(spec_control_rule(10), pair_views(issues@)),
{
    evaluate_rule(&control_rule(10), issues)
}

/// The `wifi_profile` control.
pub fn evaluate_wifi_profile(issues: &[(String, String)]) -> (c: ControlStatus)
    ensures
        c@ == rule_outcome(spec_control_rule(11), pair_views(issues@)),
{
    evaluate_rule(&control_rule(11), issues)
}

/// The `doh` control.
pub fn evaluate_doh(issues: &[(String, String)]) -> (c: ControlStatus)
    ensures
        c@ == rule_outcome(spec_control_rule(12), pair_views(issues@)),
{
    evaluate_rule(&control_rule(12), issues)
}

/// The `laps` control.
pub fn evaluate_laps(issues: &[(String, String)]) -> (c: ControlStatus)
    ensures
        c@ == rule_outcome(spec_control_rule(13), pair_views(issues@)),
{
    evaluate_rule(&control_rule(13), issues)
}

/// The `secureboot` control.
pub fn evaluate_secureboot(issues: &[(String, String)]) -> (c: ControlStatus)
    ensures
        c@ == rule_outcome(spec_control_rule(14), pair_views(issues@)),
{
    evaluate_rule(&control_rule(14), issues)
}

/// The `startup` control.
pub fn evaluate_startup(issues: &[(String, String)]) -> (c: ControlStatus)
    ensures
        c@ == rule_outcome(spec_control_rule(15), pair_views(issues@)),
{
    evaluate_rule(&control_rule(15), issues)
}

/// The `services` control.
pub fn evaluate_services(issues: &[(String, String)]) -> (c: ControlStatus)
    ensures
        c@ == rule_outcome(spec_control_rule(16), pair_views(issues@)),
{
    evaluate_rule(&control_rule(16), issues)
}

/// The `devices` control.
pub fn evaluate_devices(issues: &[(String, String)]) -> (c: ControlStatus)
    ensures
        c@ == rule_outcome(spec_control_rule(17), pair_views(issues@)),
{
    evaluate_rule(&control_rule(17), issues)
}

/// The `dhcp` control.
pub fn evaluate_dhcp(issues: &[(String, String)]) -> (c: ControlStatus)
    ensures
        c@ == rule_outcome(spec_control_rule(18), pair_views(issues@)),
{
    evaluate_rule(&control_rule(18), issues)
}

/// The `bitlocker` control.
pub fn evaluate_bitlocker(issues: &[(String, String)]) -> (c: ControlStatus)
    ensures
        c@ == rule_outcome(spec_control_rule(19), pair_views(issues@)),
{
    evaluate_rule(&control_rule(19), issues)
}

/// The `credguard` control.
pub fn evaluate_credguard(issues: &[(String, String)]) -> (c: ControlStatus)
    ensures
        c@ == rule_outcome(spec_control_rule(20), pair_views(issues@)),
{
    evaluate_rule(&control_rule(20), issues)
}

/// The `rdp` control.
pub fn evaluate_rdp(issues: &[(String, String)]) -> (c: ControlStatus)
    ensures
        c@ == rule_outcome(spec_control_rule(21), pair_views(issues@)),
{
    evaluate_rule(&control_rule(21), issues)
}

/// The `bruteforce` control.
pub fn evaluate_bruteforce(issues: &[(String, String)]) -> (c: ControlStatus)
    ensures
        c@ == rule_outcome(spec_control_rule(22), pair_views(issues@)),
{
    evaluate_rule(&control_rule(22), issues)
}

/// The `trojan_source` control.
pub fn evaluate_trojan_source(issues: &[(String, String)]) -> (c: ControlStatus)
    ensures
        c@ == rule_outcome(spec_control_rule(23), pair_views(issues@)),
{
    evaluate_rule(&control_rule(23), issues)
}

/// The `hid` control.
pub fn evaluate_hid(issues: &[(String, String)]) -> (c: ControlStatus)
    ensures
        c@ == rule_outcome(spec_control_rule(24), pair_views(issues@)),
{
    evaluate_rule(&control_rule(24), issues)
}

/// The `bt` control.
pub fn evaluate_bt(issues: &[(String, String)]) -> (c: ControlStatus)
    ensures
        c@ == rule_outcome(spec_control_rule(25), pair_views(issues@)),
{
    evaluate_rule(&control_rule(25), issues)
}

/// The `fakeext` control.
pub fn evaluate_fakeext(issues: &[(String, String)]) -> (c: ControlStatus)
    ensures
        c@ == rule_outcome(spec_control_rule(26), pair_views(issues@)),
{
    evaluate_rule(&control_rule(26), issues)
}

/// The `bloatware` control.
pub fn evaluate_bloatware(issues: &[(String, String)]) -> (c: ControlStatus)
    ensures
        c@ == rule_outcome(spec_control_rule(27), pair_views(issues@)),
{
    evaluate_rule(&control_rule(27), issues)
}

/// The `adapter` control.
pub fn evaluate_adapter(issues: &[(String, String)]) -> (c: ControlStatus)
    ensures
        c@ == rule_outcome(spec_control_rule(28), pair_views(issues@)),
{
    evaluate_rule(&control_rule(28), issues)
}

/// The `tasks` control.
pub fn evaluate_tasks(issues: &[(String, String)]) -> (c: ControlStatus)
    ensures
        c@ == rule_outcome(spec_control_rule(29), pair_views(issues@)),
{
    evaluate_rule(&control_rule(29), issues)
}

/// The `wifi` control.
pub fn evaluate_wifi(issues: &[(String, String)]) -> (c: ControlStatus)
    ensures
        c@ == rule_outcome(spec_control_rule(30), pair_views(issues@)),
{
    evaluate_rule(&control_rule(30), issues)
}

/// The `arp` control.
pub fn evaluate_arp(issues: &[(String, String)]) -> (c: ControlStatus)
    ensures
        c@ == rule_outcome(spec_control_rule(31), pair_views(issues@)),
{
    evaluate_rule(&control_rule(31), issues)
}

/// The `homoglyph` control.
pub fn evaluate_homoglyph(issues: &[(String, String)]) -> (c: ControlStatus)
    ensures
        c@ == rule_outcome(spec_control_rule(32), pair_views(issues@)),
{
    evaluate_rule(&control_rule(32), issues)
}

/// The `susp_proc` control.
pub fn evaluate_susp_proc(issues: &[(String, String)]) -> (c: ControlStatus)
    ensures
        c@ == rule_outcome(spec_control_rule(33), pair_views(issues@)),
{
    evaluate_rule(&control_rule(33), issues)
}

// ============================================
// SCORE CALCULATION
// ============================================

fn copy_status(c: &ControlStatus) -> (r: ControlStatus)
    ensures
        r@ == c@,
{
    ControlStatus { status: c.status, reason: c.reason.clone(), severity: c.severity, weight: c.weight }
}

fn copy_deduction(d: &Deduction) -> (r: Deduction)
    ensures
        r@ == d@,
{
    Deduction {
        category: d.category.clone(),
        severity: d.severity,
        points: d.points,
        reason: d.reason.clone(),
        context: d.context.clone(),
    }
}

/// A field-for-field copy of a report.
pub fn copy_report(r: &IntegrityReport) -> (c: IntegrityReport)
    ensures
        c@ == r@,
{
    let mut cs: Vec<(String, ControlStatus)> = Vec::new();
    let mut i: usize = 0;
    while i < r.control_status.len()
        invariant
            i <= r.control_status@.len(),
            status_views(cs@) == status_views(r.control_status@).subrange(0, i as int),
        decreases r.control_status@.len() - i,
    {
        let entry = &r.control_status[i];
        let name = entry.0.clone();
        let st = copy_status(&entry.1);
        let ghost before = cs@;
        cs.push((name, st));
        proof {
            assert(cs@ == before.push((name, st)));
            assert(status_views(cs@) =~= status_views(before).push((name@, st@)));
            assert(status_views(r.control_status@)[i as int] == (entry.0@, entry.1@));
        }
        i = i + 1;
        proof {
            assert(status_views(cs@) =~= status_views(r.control_status@).subrange(0, i as int));
        }
    }
    let mut ds: Vec<Deduction> = Vec::new();
    let mut j: usize = 0;
    while j < r.deductions.len()
        invariant
            j <= r.deductions@.len(),
            deduction_views(ds@) == deduction_views(r.deductions@).subrange(0, j as int),
        decreases r.deductions@.len() - j,
    {
        let d = copy_deduction(&r.deductions[j]);
        let ghost before = ds@;
        ds.push(d);
        proof {
            assert(ds@ == before.push(d));
            assert(deduction_views(ds@) =~= deduction_views(before).push(d@));
            assert(deduction_views(r.deductions@)[j as int] == r.deductions@[j as int]@);
        }
        j = j + 1;
        proof {
            assert(deduction_views(ds@) =~= deduction_views(r.deductions@).subrange(0, j as int));
        }
    }
    proof {
        assert(status_views(r.control_status@).subrange(0, i as int) =~= status_views(r.control_status@));
        assert(deduction_views(r.deductions@).subrange(0, j as int) =~= deduction_views(r.deductions@));
    }
    IntegrityReport {
        score: r.score,
        state: r.state,
        control_status: cs,
        deductions: ds,
        timestamp: r.timestamp.clone(),
    }
}

/// Records the deduction for one finding and returns its points.
fn apply_deduction(
    deductions: &mut Vec<Deduction>,
    category: &str,
    status: &ControlStatus,
    weights: &IntegrityWeights,
    context: &Context,
) -> (points: u8)
    ensures
        points == points_for(status.severity, category@, *weights, *context),
        deduction_views(final(deductions)@) == deduction_views(old(deductions)@).push(DeductionView {
            category: category@,
            severity: status.severity,
            points,
            reason: status.reason@,
            context: status.reason@,
        }),
{
    let mult = context.deduction_multiplier(category);
    let base: u8 = match status.severity {
        Severity::Critical => weights.critical,
        Severity::High => weights.high,
        Severity::Medium => weights.medium,
        Severity::Low => weights.low,
        Severity::Info => 0,
    };
    // The product saturates before the cap at 100, so it never overflows.
    let product: u16 = (base as u16) * (mult as u16);
    let points: u8 = if product > 100 { 100 } else { product as u8 };
    deductions.push(Deduction {
        category: owned(category),
        severity: status.severity,
        points,
        reason: status.reason.clone(),
        context: status.reason.clone(),
    });
    proof {
        assert(deduction_views(deductions@) =~= deduction_views(old(deductions)@).push(deductions@.last()@));
    }
    points
}

/// The state a score and its deductions put the system in.
fn determine_state(deductions: &[Deduction], score: u8) -> (s: IntegrityState)
    ensures
        s == state_for(deduction_views(deductions@), score),
{
    let mut has_crit = false;
    let mut i: usize = 0;
    while i < deductions.len()
        invariant
            i <= deductions@.len(),
            has_crit == exists|j: int| 0 <= j < i && deductions@[j].severity == Severity::Critical,
        decreases deductions@.len() - i,
    {
        if deductions[i].severity == Severity::Critical {
            has_crit = true;
        }
        i = i + 1;
    }
    proof {
        let d = deduction_views(deductions@);
        if has_crit {
            let j = choose|j: int| 0 <= j < deductions@.len() && deductions@[j].severity == Severity::Critical;
            assert(d[j].severity == Severity::Critical);
        } else {
            assert forall|j: int| 0 <= j < d.len() implies d[j].severity != Severity::Critical by {
                assert(d[j] == deductions@[j]@);
            }
        }
    }
    if score >= 90 {
        IntegrityState::Maintained
    } else if has_crit {
        IntegrityState::Compromised
    } else if deductions.len() > 0 {
        IntegrityState::DriftDetected
    } else {
        IntegrityState::Maintained
    }
}

proof fn lemma_total_push(d: Seq<DeductionView>, x: DeductionView)
    ensures
        total_points(d.push(x)) == total_points(d) + x.points,
{
    assert(d.push(x).drop_last() =~= d);
}

proof fn lemma_total_bounded(d: Seq<DeductionView>)
    ensures
        0 <= total_points(d) <= 255 * d.len(),
    decreases d.len(),
{
    if d.len() > 0 {
        lemma_total_bounded(d.drop_last());
    }
}

proof fn lemma_deductions_len(issues: Seq<(Seq<char>, Seq<char>)>, w: IntegrityWeights, ctx: Context, n: int)
    ensures
        deductions_upto(issues, w, ctx, n).len() <= if n < 0 { 0 } else { n },
    decreases n,
{
    if n > 0 {
        lemma_deductions_len(issues, w, ctx, n - 1);
    }
}

/// What `calculate` reports for these issues, lockdown flag and baseline
/// validity (every field but the timestamp).
pub open spec fn report_for(
    r: ReportView,
    issues: Seq<(Seq<char>, Seq<char>)>,
    is_lockdown: bool,
    is_baseline_valid: bool,
    w: IntegrityWeights,
    ctx: Context,
) -> bool {
    if !is_baseline_valid {
        &&& r.score == 0
        &&& r.state == IntegrityState::Invalid
        &&& r.control_status.len() == 0
        &&& r.deductions == seq![invalid_baseline_deduction()]
    } else if is_lockdown {
        &&& r.score == 100
        &&& r.state == IntegrityState::Lockdown
        &&& r.control_status.len() == 0
        &&& r.deductions.len() == 0
    } else {
        let d = deductions_upto(issues, w, ctx, control_count());
        &&& r.deductions == d
        &&& r.score == score_from_total(total_points(d))
        &&& r.state == state_for(d, r.score)
        &&& r.control_status == spec_control_statuses(issues)
    }
}

/// Computes the integrity report for the current issues.
///
/// An invalid baseline gives score 0 and state Invalid; an active lockdown
/// gives score 100 and state Lockdown; otherwise every control is evaluated
/// in table order and each finding costs its weighted, context-adjusted points.
pub fn calculate(
    issues: &[(String, String)],
    is_lockdown: bool,
    is_baseline_valid: bool,
    weights: &IntegrityWeights,
    context: &Context,
) -> (report: IntegrityReport)
    ensures
        !is_baseline_valid ==> {
            &&& report.score == 0
            &&& report.state == IntegrityState::Invalid
            &&& report.control_status@.len() == 0
            &&& deduction_views(report.deductions@) == seq![invalid_baseline_deduction()]
        },
        is_baseline_valid && is_lockdown ==> {
            &&& report.score == 100
            &&& report.state == IntegrityState::Lockdown
            &&& report.control_status@.len() == 0
            &&& report.deductions@.len() == 0
        },
        is_baseline_valid && !is_lockdown ==> {
            let d = deductions_upto(pair_views(issues@), *weights, *context, control_count());
            &&& deduction_views(report.deductions@) == d
            &&& report.score == score_from_total(total_points(d))
            &&& report.state == state_for(d, report.score)
            &&& status_views(report.control_status@) == spec_control_statuses(pair_views(issues@))
        },
        report_for(report@, pair_views(issues@), is_lockdown, is_baseline_valid, *weights, *context),
{
    if !is_baseline_valid {
        let mut deductions: Vec<Deduction> = Vec::new();
        deductions.push(Deduction {
            category: owned("baseline"),
            severity: Severity::Critical,
            points: 100,
            reason: owned("Baseline integrity check failed"),
            context: owned("Baseline has been tampered with. Manual approval required."),
        });
        proof {
            assert(deduction_views(deductions@) =~= seq![invalid_baseline_deduction()]);
        }
        return IntegrityReport {
            score: 0,
            state: IntegrityState::Invalid,
            control_status: Vec::new(),
            deductions,
            timestamp: now_rfc3339(),
        };
    }
    if is_lockdown {
        return IntegrityReport {
            score: 100,
            state: IntegrityState::Lockdown,
            control_status: Vec::new(),
            deductions: Vec::new(),
            timestamp: now_rfc3339(),
        };
    }
    let rules = get_control_evaluators();
    let mut total: u16 = 0;
    let mut deductions: Vec<Deduction> = Vec::new();
    let mut control_status: Vec<(String, ControlStatus)> = Vec::new();
    let mut i: usize = 0;
    while i < rules.len()
        invariant
            rules@.len() == control_count(),
            forall|j: int| 0 <= j < control_count() ==> #[trigger] rules@[j]@ == spec_control_rule(j),
            i <= rules@.len(),
            deduction_views(deductions@) == deductions_upto(pair_views(issues@), *weights, *context, i as int),
            total as int == total_points(deductions_upto(pair_views(issues@), *weights, *context, i as int)),
            total <= 100 * i,
            status_views(control_status@) == spec_control_statuses(pair_views(issues@)).subrange(0, i as int),
        decreases rules@.len() - i,
    {
        let r = &rules[i];
        let status = evaluate_rule(r, issues);
        assert(status@ == outcome_at(pair_views(issues@), i as int));
        let ghost before = control_status@;
        let ghost dbefore = deductions@;
        assert(r@ == spec_control_rule(i as int));
        control_status.push((owned(r.category), copy_status(&status)));
        proof {
            assert(status_views(control_status@) =~= status_views(before).push((r.category@, status@)));
            assert(spec_control_statuses(pair_views(issues@)).subrange(0, i + 1) =~= spec_control_statuses(pair_views(issues@)).subrange(0, i as int).push(spec_control_statuses(pair_views(issues@))[i as int]));
        }
        if status.status != Status::Healthy && status.status != Status::Unknown {
            let points = apply_deduction(&mut deductions, r.category, &status, weights, context);
            proof {
                let dv = deduction_views(dbefore);
                lemma_total_push(dv, deduction_views(deductions@).last());
                assert(deduction_views(deductions@).last() == deduction_at(pair_views(issues@), *weights, *context, i as int));
                lemma_deductions_len(pair_views(issues@), *weights, *context, i as int);
            }
            total = total + points as u16;
        }
        i = i + 1;
    }
    proof {
        assert(spec_control_statuses(pair_views(issues@)).subrange(0, 34) =~= spec_control_statuses(pair_views(issues@)));
    }
    let final_score: u8 = if total >= 100 { 0 } else { (100 - total) as u8 };
    let state = determine_state(deductions.as_slice(), final_score);
    IntegrityReport {
        score: final_score,
        state,
        control_status,
        deductions,
        timestamp: now_rfc3339(),
    }
}

// ============================================
// MARKDOWN EXPORT
// ============================================

pub open spec fn state_label(s: IntegrityState) -> Seq<char> {
    match s {
        IntegrityState::Maintained => "\u{2705} Maintained"@,
        IntegrityState::DriftDetected => "\u{26a0}\u{fe0f} Drift Detected"@,
        IntegrityState::Compromised => "\u{1f534} Compromised"@,
        IntegrityState::Lockdown => "\u{1f535} Lockdown"@,
        IntegrityState::Invalid => "\u{274c} Invalid"@,
    }
}

pub open spec fn status_mark(s: Status) -> Seq<char> {
    match s {
        Status::Healthy => "\u{2705}"@,
        Status::Warning => "\u{26a0}\u{fe0f}"@,
        Status::Compromised => "\u{1f534}"@,
        Status::Unknown => "\u{2753}"@,
    }
}

pub open spec fn severity_label(s: Severity) -> Seq<char> {
    match s {
        Severity::Critical => "\u{1f534} Critical"@,
        Severity::High => "\u{1f7e0} High"@,
        Severity::Medium => "\u{1f7e1} Medium"@,
        Severity::Low => "\u{1f535} Low"@,
        Severity::Info => "\u{26aa} Info"@,
    }
}

pub open spec fn control_line(c: (Seq<char>, StatusView)) -> Seq<char> {
    "- **"@ + c.0 + "** "@ + status_mark(c.1.status) + " \u{2014} "@ + c.1.reason + "\n"@
}

pub open spec fn control_lines(cs: Seq<(Seq<char>, StatusView)>, n: int) -> Seq<char>
    decreases n,
{
    if n <= 0 || n > cs.len() { Seq::empty() } else { control_lines(cs, n - 1) + control_line(cs[n - 1]) }
}

pub open spec fn deduction_line(d: DeductionView) -> Seq<char> {
    "- **"@ + d.category + "** ("@ + severity_label(d.severity) + ") -"@ + decimal(d.points as nat)
        + " points\n  - "@ + d.reason + "\n"@
}

pub open spec fn deduction_lines(ds: Seq<DeductionView>, n: int) -> Seq<char>
    decreases n,
{
    if n <= 0 || n > ds.len() { Seq::empty() } else { deduction_lines(ds, n - 1) + deduction_line(ds[n - 1]) }
}

/// The report as Markdown.
pub open spec fn report_markdown(r: ReportView) -> Seq<char> {
    let header = "# Integrity Report\n\n**Score:** "@ + decimal(r.score as nat) + "/100\n**State:** "@
        + state_label(r.state) + "\n**Timestamp:** "@ + r.timestamp + "\n\n"@;
    let controls = if r.control_status.len() == 0 {
        "\u{2705} No controls to evaluate.\n"@
    } else {
        "## Control Status\n\n"@ + control_lines(r.control_status, r.control_status.len() as int)
    };
    let deductions = if r.deductions.len() == 0 {
        Seq::empty()
    } else {
        "\n## Deductions\n\n"@ + deduction_lines(r.deductions, r.deductions.len() as int)
    };
    header + controls + deductions
}

fn state_label_text(s: IntegrityState) -> (t: &'static str)
    ensures
        t@ == state_label(s),
{
    match s {
        IntegrityState::Maintained => "\u{2705} Maintained",
        IntegrityState::DriftDetected => "\u{26a0}\u{fe0f} Drift Detected",
        IntegrityState::Compromised => "\u{1f534} Compromised",
        IntegrityState::Lockdown => "\u{1f535} Lockdown",
        IntegrityState::Invalid => "\u{274c} Invalid",
    }
}

fn status_mark_text(s: Status) -> (t: &'static str)
    ensures
        t@ == status_mark(s),
{
    match s {
        Status::Healthy => "\u{2705}",
        Status::Warning => "\u{26a0}\u{fe0f}",
        Status::Compromised => "\u{1f534}",
        Status::Unknown => "\u{2753}",
    }
}

fn severity_label_text(s: Severity) -> (t: &'static str)
    ensures
        t@ == severity_label(s),
{
    match s {
        Severity::Critical => "\u{1f534} Critical",
        Severity::High => "\u{1f7e0} High",
        Severity::Medium => "\u{1f7e1} Medium",
        Severity::Low => "\u{1f535} Low",
        Severity::Info => "\u{26aa} Info",
    }
}

fn control_line_text(name: &String, c: &ControlStatus) -> (t: String)
    ensures
        t@ == control_line((name@, c@)),
{
    let mut t = String::from_str("- **");
    append(&mut t, name.as_str());
    append(&mut t, "** ");
    append(&mut t, status_mark_text(c.status));
    append(&mut t, " \u{2014} ");
    append(&mut t, c.reason.as_str());
    append(&mut t, "\n");
    t
}

fn deduction_line_text(d: &Deduction) -> (t: String)
    ensures
        t@ == deduction_line(d@),
{
    let mut t = String::from_str("- **");
    append(&mut t, d.category.as_str());
    append(&mut t, "** (");
    append(&mut t, severity_label_text(d.severity));
    append(&mut t, ") -");
    let pts = decimal_string(d.points as u64);
    append(&mut t, pts.as_str());
    append(&mut t, " points\n  - ");
    append(&mut t, d.reason.as_str());
    append(&mut t, "\n");
    t
}

/// Renders a report as Markdown.
pub fn format_report_markdown(report: &IntegrityReport) -> (md: String)
    ensures
        md@ == report_markdown(report@),
{
    let mut out = String::from_str("# Integrity Report\n\n**Score:** ");
    let score = decimal_string(report.score as u64);
    append(&mut out, score.as_str());
    append(&mut out, "/100\n**State:** ");
    append(&mut out, state_label_text(report.state));
    append(&mut out, "\n**Timestamp:** ");
    append(&mut out, report.timestamp.as_str());
    append(&mut out, "\n\n");
    let ghost header = out@;
    if report.control_status.len() == 0 {
        append(&mut out, "\u{2705} No controls to evaluate.\n");
    } else {
        append(&mut out, "## Control Status\n\n");
        let ghost start = out@;
        let mut i: usize = 0;
        while i < report.control_status.len()
            invariant
                i <= report.control_status@.len(),
                out@ == start + control_lines(status_views(report.control_status@), i as int),
            decreases report.control_status@.len() - i,
        {
            let entry = &report.control_status[i];
            let line = control_line_text(&entry.0, &entry.1);
            append(&mut out, line.as_str());
            proof {
                assert(status_views(report.control_status@)[i as int] == (entry.0@, entry.1@));
            }
            i = i + 1;
        }
    }
    let ghost mid = out@;
    if report.deductions.len() > 0 {
        append(&mut out, "\n## Deductions\n\n");
        let ghost start = out@;
        let mut j: usize = 0;
        while j < report.deductions.len()
            invariant
                j <= report.deductions@.len(),
                out@ == start + deduction_lines(deduction_views(report.deductions@), j as int),
            decreases report.deductions@.len() - j,
        {
            let d = &report.deductions[j];
            let line = deduction_line_text(d);
            append(&mut out, line.as_str());
            proof {
                assert(deduction_views(report.deductions@)[j as int] == d@);
            }
            j = j + 1;
        }
    }
    out
}

/// The integrity score is always between 0 and 100.
pub proof fn law_score_within_range(
    r: ReportView,
    issues: Seq<(Seq<char>, Seq<char>)>,
    is_lockdown: bool,
    is_baseline_valid: bool,
    w: IntegrityWeights,
    ctx: Context,
)
    requires
        report_for(r, issues, is_lockdown, is_baseline_valid, w, ctx),
    ensures
        0 <= r.score <= 100,
{
    if is_baseline_valid && !is_lockdown {
        lemma_total_nonneg(deductions_upto(issues, w, ctx, control_count()));
    }
}

proof fn lemma_total_nonneg(d: Seq<DeductionView>)
    ensures
        total_points(d) >= 0,
    decreases d.len(),
{
    if d.len() > 0 {
        lemma_total_nonneg(d.drop_last());
    }
}

proof fn lemma_no_issues_no_deductions(w: IntegrityWeights, ctx: Context, n: int)
    ensures
        deductions_upto(Seq::empty(), w, ctx, n) =~= Seq::<DeductionView>::empty(),
    decreases n,
{
    if n > 0 {
        lemma_no_issues_no_deductions(w, ctx, n - 1);
        assert(first_issue(Seq::<(Seq<char>, Seq<char>)>::empty(), spec_control_rule(n - 1).category) is None);
    }
}

/// With no drift, a valid baseline and no lockdown, the score is 100, the
/// state is Maintained and nothing is deducted.
pub proof fn law_no_issues_full_score(r: ReportView, w: IntegrityWeights, ctx: Context)
    requires
        report_for(r, Seq::empty(), false, true, w, ctx),
    ensures
        r.score == 100,
        r.state == IntegrityState::Maintained,
        r.deductions.len() == 0,
{
    lemma_no_issues_no_deductions(w, ctx, control_count());
}

proof fn lemma_finding_deducted(issues: Seq<(Seq<char>, Seq<char>)>, w: IntegrityWeights, ctx: Context, i: int, n: int)
    requires
        0 <= i < n,
        is_finding(outcome_at(issues, i)),
    ensures
        deductions_upto(issues, w, ctx, n).contains(deduction_at(issues, w, ctx, i)),
        total_points(deductions_upto(issues, w, ctx, n)) >= deduction_at(issues, w, ctx, i).points,
    decreases n,
{
    let prev = deductions_upto(issues, w, ctx, n - 1);
    let x = deduction_at(issues, w, ctx, i);
    if i == n - 1 {
        lemma_total_push(prev, x);
        lemma_total_nonneg(prev);
        assert(prev.push(x)[prev.len() as int] == x);
    } else {
        lemma_finding_deducted(issues, w, ctx, i, n - 1);
        if is_finding(outcome_at(issues, n - 1)) {
            let y = deduction_at(issues, w, ctx, n - 1);
            lemma_total_push(prev, y);
            let k = choose|k: int| 0 <= k < prev.len() && prev[k] == x;
            assert(prev.push(y)[k] == x);
        }
    }
}

/// The reason a switched-off critical control reports.
pub open spec fn disabled_reason(c: Seq<char>) -> Seq<char> {
    if c == "firewall"@ { "Firewall is disabled"@ }
    else if c == "defender"@ { "Windows Defender is disabled"@ }
    else if c == "uac"@ { "UAC is disabled"@ }
    else if c == "wu"@ { "Windows Update is disabled"@ }
    else if c == "sr"@ { "System Restore is disabled"@ }
    else if c == "smartscreen"@ { "SmartScreen is disabled"@ }
    else { "Secure Boot is disabled"@ }
}

/// A critical protection reported "OFF" is scored as compromised: when the
/// first issue filed under the firewall, Defender, UAC, Windows Update,
/// System Restore, SmartScreen or Secure Boot says "OFF" (and is not a
/// detection error), that control is Compromised with Critical severity, a
/// deduction of the critical weight is recorded for it, the score drops by
/// at least that weight, and with a critical weight above 10 the system is
/// Compromised. With the default weights a lone disabled Defender gives 80.
pub proof fn law_switched_off_control_is_critical(
    r: ReportView,
    issues: Seq<(Seq<char>, Seq<char>)>,
    w: IntegrityWeights,
    ctx: Context,
    c: Seq<char>,
    msg: Seq<char>,
)
    requires
        report_for(r, issues, false, true, w, ctx),
        c == "firewall"@ || c == "defender"@ || c == "uac"@ || c == "wu"@ || c == "sr"@
            || c == "smartscreen"@ || c == "secureboot"@,
        first_issue(issues, c) == Some(msg),
        contains(msg, "OFF"@),
        !starts_with(msg, "ERROR_"@),
    ensures
        r.control_status.contains((c, StatusView {
            status: Status::Compromised,
            reason: disabled_reason(c),
            severity: Severity::Critical,
            weight: 20,
        })),
        r.deductions.contains(DeductionView {
            category: c,
            severity: Severity::Critical,
            points: if w.critical > 100 { 100 } else { w.critical },
            reason: disabled_reason(c),
            context: disabled_reason(c),
        }),
        r.score as int <= 100 - (if w.critical > 100 { 100 } else { w.critical as int }),
        w.critical > 10 ==> r.state == IntegrityState::Compromised,
{
    lemma_category_names();
    let i: int = if c == "firewall"@ { 0 } else if c == "defender"@ { 1 } else if c == "uac"@ { 5 }
        else if c == "wu"@ { 6 } else if c == "sr"@ { 7 } else if c == "smartscreen"@ { 8 } else { 14 };
    assert(spec_control_rule(i).category == c);
    let o = outcome_at(issues, i);
    assert(o == StatusView { status: Status::Compromised, reason: disabled_reason(c), severity: Severity::Critical, weight: 20 });
    let cs = spec_control_statuses(issues);
    assert(cs[i] == (c, o));
    let d = deductions_upto(issues, w, ctx, control_count());
    lemma_finding_deducted(issues, w, ctx, i, control_count());
    let x = deduction_at(issues, w, ctx, i);
    assert(multiplier(ctx, c) == 1);
    let k = choose|k: int| 0 <= k < d.len() && d[k] == x;
    assert(d[k].severity == Severity::Critical);
    assert(has_critical(d));
}

} // verus!

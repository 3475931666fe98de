//! Local API: the daemon's shared status, the HTTP framing and request
//! parsing, endpoint routing, and the repair/scan runs the API triggers.
//!
//! Sockets, threads and files stay with the caller; everything that decides
//! what to answer, or what state to move to, is here.

use vstd::prelude::*;
use crate::integrity::{IntegrityReport, IntegrityState, IntegrityWeights, Context, copy_report, calculate, report_for};
use crate::timeline::{TimelineEntry, RepairResult};
use crate::state::SystemState;
use crate::behavior::{detect_all_changes, spec_all_changes};
use crate::autorepair::{issue_pairs, change_pairs, publishes_only};
use crate::trust::{TrustLevel, manual_verify_with_reason, manual_reason, records_event, TrustEventType};
use vstd::utf8::encode_utf8;
use crate::text::{decimal, decimal_string, append, push_char, chars_of, sub_string, find_first, scan_to_any, replace_str, lines, split_whitespace, trim, to_lowercase, str_contains, str_starts_with, find_spec, stop_at, replace_all, lines_of, words_of, before_char, trimmed, lowercased, contains, starts_with, ends_with, str_ends_with, lemma_stop_at_bounds, lemma_find_spec, occurs_at, utf8_len, utf8_len_below};

verus! {

broadcast use vstd::string::group_string_axioms;

// ============================================
// SHARED DAEMON STATUS
// ============================================

/// Everything the monitoring loop publishes for the API to serve.
pub struct DaemonState {
    pub trust_state: String,
    pub ghost_active: bool,
    pub awaiting_consent: bool,
    pub ts2_enabled: bool,
    pub ransomware_alert: bool,
    pub integrity_report: Option<IntegrityReport>,
    pub elevated: bool,
    pub tamper_detected: bool,
    pub trust_level: u8,
}

/// One write to the shared status, as made by its setter.
pub enum StatusWrite {
    TrustState(String),
    GhostActive(bool),
    AwaitingConsent(bool),
    Ts2Enabled(bool),
    RansomwareAlert(bool),
    Report(IntegrityReport),
    Elevated(bool),
    TamperDetected(bool),
    TrustLevel(u8),
}

/// The yes/no flags of the shared status.
pub enum StatusFlag {
    GhostActive,
    AwaitingConsent,
    Ts2Enabled,
    RansomwareAlert,
    Elevated,
    TamperDetected,
}

/// The status as `DaemonState::new` makes it.
pub open spec fn at_startup(s: DaemonState) -> bool {
    &&& s.trust_state@ == "Trusted"@
    &&& !s.ghost_active
    &&& s.awaiting_consent
    &&& s.ts2_enabled
    &&& !s.ransomware_alert
    &&& s.integrity_report is None
    &&& s.elevated
    &&& !s.tamper_detected
    &&& s.trust_level == 100
}

/// `new` is `old` after the write `w`: the written field takes the written
/// value and every other field is unchanged.
pub open spec fn write_applied(old: DaemonState, new: DaemonState, w: StatusWrite) -> bool {
    match w {
        StatusWrite::TrustState(v) => {
            &&& new.trust_state@ == v@
            &&& new.ghost_active == old.ghost_active
            &&& new.awaiting_consent == old.awaiting_consent
            &&& new.ts2_enabled == old.ts2_enabled
            &&& new.ransomware_alert == old.ransomware_alert
            &&& new.integrity_report == old.integrity_report
            &&& new.elevated == old.elevated
            &&& new.tamper_detected == old.tamper_detected
            &&& new.trust_level == old.trust_level
        },
        StatusWrite::GhostActive(b) => new == (DaemonState { ghost_active: b, ..old }),
        StatusWrite::AwaitingConsent(b) => new == (DaemonState { awaiting_consent: b, ..old }),
        StatusWrite::Ts2Enabled(b) => new == (DaemonState { ts2_enabled: b, ..old }),
        StatusWrite::RansomwareAlert(b) => new == (DaemonState { ransomware_alert: b, ..old }),
        StatusWrite::Report(r) => new == (DaemonState { integrity_report: Some(r), ..old }),
        StatusWrite::Elevated(b) => new == (DaemonState { elevated: b, ..old }),
        StatusWrite::TamperDetected(b) => new == (DaemonState { tamper_detected: b, ..old }),
        StatusWrite::TrustLevel(l) => new == (DaemonState { trust_level: l, ..old }),
    }
}

/// The value a write gives to flag `f`, if it writes that flag.
pub open spec fn flag_written(w: StatusWrite, f: StatusFlag) -> Option<bool> {
    match (w, f) {
        (StatusWrite::GhostActive(b), StatusFlag::GhostActive) => Some(b),
        (StatusWrite::AwaitingConsent(b), StatusFlag::AwaitingConsent) => Some(b),
        (StatusWrite::Ts2Enabled(b), StatusFlag::Ts2Enabled) => Some(b),
        (StatusWrite::RansomwareAlert(b), StatusFlag::RansomwareAlert) => Some(b),
        (StatusWrite::Elevated(b), StatusFlag::Elevated) => Some(b),
        (StatusWrite::TamperDetected(b), StatusFlag::TamperDetected) => Some(b),
        _ => None,
    }
}

/// The flag a status field holds.
pub open spec fn flag_of(s: DaemonState, f: StatusFlag) -> bool {
    match f {
        StatusFlag::GhostActive => s.ghost_active,
        StatusFlag::AwaitingConsent => s.awaiting_consent,
        StatusFlag::Ts2Enabled => s.ts2_enabled,
        StatusFlag::RansomwareAlert => s.ransomware_alert,
        StatusFlag::Elevated => s.elevated,
        StatusFlag::TamperDetected => s.tamper_detected,
    }
}

/// The value of the last write of flag `f` among `ws`, or `default` if none
/// writes it.
pub open spec fn last_flag(ws: Seq<StatusWrite>, f: StatusFlag, default: bool) -> bool
    decreases ws.len(),
{
    if ws.len() == 0 {
        default
    } else {
        match flag_written(ws.last(), f) {
            Some(b) => b,
            None => last_flag(ws.drop_last(), f, default),
        }
    }
}

/// The text of the last trust-state write among `ws`, if any.
pub open spec fn last_trust_state(ws: Seq<StatusWrite>) -> Option<Seq<char>>
    decreases ws.len(),
{
    if ws.len() == 0 {
        None
    } else {
        match ws.last() {
            StatusWrite::TrustState(v) => Some(v@),
            _ => last_trust_state(ws.drop_last()),
        }
    }
}

/// The last report published among `ws`, if any.
pub open spec fn last_report(ws: Seq<StatusWrite>) -> Option<IntegrityReport>
    decreases ws.len(),
{
    if ws.len() == 0 {
        None
    } else {
        match ws.last() {
            StatusWrite::Report(r) => Some(r),
            _ => last_report(ws.drop_last()),
        }
    }
}

/// The last trust level published among `ws`, if any.
pub open spec fn last_trust_level(ws: Seq<StatusWrite>) -> Option<u8>
    decreases ws.len(),
{
    if ws.len() == 0 {
        None
    } else {
        match ws.last() {
            StatusWrite::TrustLevel(l) => Some(l),
            _ => last_trust_level(ws.drop_last()),
        }
    }
}

impl DaemonState {
    /// The status at startup: trusted, not ghosted, consent not yet given,
    /// monitoring enabled, no alert, no report, assumed elevated, no tamper,
    /// trust level 100.
    pub fn new() -> (s: DaemonState)
        ensures
            s.trust_state@ == "Trusted"@,
            !s.ghost_active,
            s.awaiting_consent,
            s.ts2_enabled,
            !s.ransomware_alert,
            s.integrity_report is None,
            s.elevated,
            !s.tamper_detected,
            s.trust_level == 100,
            at_startup(s),
    {
        DaemonState {
            trust_state: String::from_str("Trusted"),
            ghost_active: false,
            awaiting_consent: true,
            ts2_enabled: true,
            ransomware_alert: false,
            integrity_report: None,
            elevated: true,
            tamper_detected: false,
            trust_level: 100,
        }
    }
}

pub fn set_trust_state(state: &mut DaemonState, value: &str)
    ensures
        final(state).trust_state@ == value@,
        final(state).ghost_active == old(state).ghost_active,
        final(state).awaiting_consent == old(state).awaiting_consent,
        final(state).ts2_enabled == old(state).ts2_enabled,
        final(state).ransomware_alert == old(state).ransomware_alert,
        final(state).integrity_report == old(state).integrity_report,
        final(state).elevated == old(state).elevated,
        final(state).tamper_detected == old(state).tamper_detected,
        final(state).trust_level == old(state).trust_level,
        forall|v: String| v@ == value@ ==> #[trigger] write_applied(*old(state), *final(state), StatusWrite::TrustState(v)),
{
    state.trust_state = value.to_owned();
}

pub fn get_trust_state(state: &DaemonState) -> (s: String)
    ensures
        s@ == state.trust_state@,
{
    state.trust_state.clone()
}

pub fn set_ghost_active(state: &mut DaemonState, active: bool)
    ensures
        *final(state) == (DaemonState { ghost_active: active, ..*old(state) }),
        write_applied(*old(state), *final(state), StatusWrite::GhostActive(active)),
{
    state.ghost_active = active;
}

pub fn is_ghost_active(state: &DaemonState) -> (b: bool)
    ensures
        b == state.ghost_active,
{
    state.ghost_active
}

pub fn set_awaiting_consent(state: &mut DaemonState, awaiting: bool)
    ensures
        *final(state) == (DaemonState { awaiting_consent: awaiting, ..*old(state) }),
        write_applied(*old(state), *final(state), StatusWrite::AwaitingConsent(awaiting)),
{
    state.awaiting_consent = awaiting;
}

pub fn is_awaiting_consent(state: &DaemonState) -> (b: bool)
    ensures
        b == state.awaiting_consent,
{
    state.awaiting_consent
}

pub fn set_ts2_enabled(state: &mut DaemonState, enabled: bool)
    ensures
        *final(state) == (DaemonState { ts2_enabled: enabled, ..*old(state) }),
        write_applied(*old(state), *final(state), StatusWrite::Ts2Enabled(enabled)),
{
    state.ts2_enabled = enabled;
}

pub fn is_ts2_enabled(state: &DaemonState) -> (b: bool)
    ensures
        b == state.ts2_enabled,
{
    state.ts2_enabled
}

pub fn set_ransomware_alert(state: &mut DaemonState, active: bool)
    ensures
        *final(state) == (DaemonState { ransomware_alert: active, ..*old(state) }),
        write_applied(*old(state), *final(state), StatusWrite::RansomwareAlert(active)),
{
    state.ransomware_alert = active;
}

pub fn is_ransomware_alert(state: &DaemonState) -> (b: bool)
    ensures
        b == state.ransomware_alert,
{
    state.ransomware_alert
}

/// Publishes a new report, replacing the previous one.
pub fn set_integrity_report(state: &mut DaemonState, report: IntegrityReport)
    ensures
        *final(state) == (DaemonState { integrity_report: Some(report), ..*old(state) }),
        write_applied(*old(state), *final(state), StatusWrite::Report(report)),
{
    state.integrity_report = Some(report);
}

/// A copy of the published report, if any.
pub fn get_integrity_report(state: &DaemonState) -> (r: Option<IntegrityReport>)
    ensures
        match (r, state.integrity_report) {
            (Some(a), Some(b)) => a@ == b@,
            (None, None) => true,
            _ => false,
        },
{
    match &state.integrity_report {
        Some(report) => Some(copy_report(report)),
        None => None,
    }
}

pub fn set_elevated(state: &mut DaemonState, elevated: bool)
    ensures
        *final(state) == (DaemonState { elevated: elevated, ..*old(state) }),
        write_applied(*old(state), *final(state), StatusWrite::Elevated(elevated)),
{
    state.elevated = elevated;
}

pub fn is_elevated(state: &DaemonState) -> (b: bool)
    ensures
        b == state.elevated,
{
    state.elevated
}

pub fn set_tamper_detected(state: &mut DaemonState, detected: bool)
    ensures
        *final(state) == (DaemonState { tamper_detected: detected, ..*old(state) }),
        write_applied(*old(state), *final(state), StatusWrite::TamperDetected(detected)),
{
    state.tamper_detected = detected;
}

pub fn is_tamper_detected(state: &DaemonState) -> (b: bool)
    ensures
        b == state.tamper_detected,
{
    state.tamper_detected
}

pub fn set_trust_level(state: &mut DaemonState, score: u8)
    ensures
        *final(state) == (DaemonState { trust_level: score, ..*old(state) }),
        write_applied(*old(state), *final(state), StatusWrite::TrustLevel(score)),
{
    state.trust_level = score;
}

/// The published trust level; a stored 0 falls back to the live trust score.
pub fn get_trust_level(state: &DaemonState, trust: &TrustLevel) -> (l: u8)
    ensures
        l == (if state.trust_level == 0 { trust.score } else { state.trust_level }),
{
    if state.trust_level == 0 {
        trust.score
    } else {
        state.trust_level
    }
}

proof fn lemma_status_replay(states: Seq<DaemonState>, ws: Seq<StatusWrite>, f: StatusFlag)
    requires
        states.len() == ws.len() + 1,
        at_startup(states[0]),
        forall|i: int| 0 <= i < ws.len() ==> write_applied(states[i], states[i + 1], #[trigger] ws[i]),
    ensures
        flag_of(states.last(), f) == last_flag(ws, f, flag_of(states[0], f)),
        states.last().trust_state@ == (match last_trust_state(ws) { Some(v) => v, None => "Trusted"@ }),
        states.last().integrity_report == last_report(ws),
        states.last().trust_level == (match last_trust_level(ws) { Some(l) => l, None => 100u8 }),
    decreases ws.len(),
{
    if ws.len() > 0 {
        let n = ws.len() - 1;
        let prev_states = states.drop_last();
        let prev_ws = ws.drop_last();
        assert forall|i: int| 0 <= i < prev_ws.len() implies
            write_applied(prev_states[i], prev_states[i + 1], #[trigger] prev_ws[i]) by {
            assert(ws[i] == prev_ws[i]);
        }
        lemma_status_replay(prev_states, prev_ws, f);
        assert(write_applied(states[n], states[n + 1], ws[n]));
        assert(prev_states.last() == states[n]);
    }
}

/// Every getter of the shared status reads the last value its setter wrote
/// since startup, or the startup value if it was never written: trust state
/// "Trusted", ghost mode off, consent awaited, monitoring on, no ransomware
/// alert, no report, elevated, no tamper, trust level 100. `states` are the
/// status after startup and after each write of `ws` in turn.
pub proof fn law_status_reads_last_write(states: Seq<DaemonState>, ws: Seq<StatusWrite>)
    requires
        states.len() == ws.len() + 1,
        at_startup(states[0]),
        forall|i: int| 0 <= i < ws.len() ==> write_applied(states[i], states[i + 1], #[trigger] ws[i]),
    ensures
        states.last().trust_state@ == (match last_trust_state(ws) { Some(v) => v, None => "Trusted"@ }),
        states.last().ghost_active == last_flag(ws, StatusFlag::GhostActive, false),
        states.last().awaiting_consent == last_flag(ws, StatusFlag::AwaitingConsent, true),
        states.last().ts2_enabled == last_flag(ws, StatusFlag::Ts2Enabled, true),
        states.last().ransomware_alert == last_flag(ws, StatusFlag::RansomwareAlert, false),
        states.last().integrity_report == last_report(ws),
        states.last().elevated == last_flag(ws, StatusFlag::Elevated, true),
        states.last().tamper_detected == last_flag(ws, StatusFlag::TamperDetected, false),
        states.last().trust_level == (match last_trust_level(ws) { Some(l) => l, None => 100u8 }),
{
    lemma_status_replay(states, ws, StatusFlag::GhostActive);
    lemma_status_replay(states, ws, StatusFlag::AwaitingConsent);
    lemma_status_replay(states, ws, StatusFlag::Ts2Enabled);
    lemma_status_replay(states, ws, StatusFlag::RansomwareAlert);
    lemma_status_replay(states, ws, StatusFlag::Elevated);
    lemma_status_replay(states, ws, StatusFlag::TamperDetected);
}

// ============================================
// HTTP FRAMING
// ============================================

/// The one origin the API answers cross-origin requests for.
pub open spec fn origin_text() -> Seq<char> {
    "http://127.0.0.1:12790"@
}

/// The CORS header block.
pub open spec fn cors_text() -> Seq<char> {
    "Access-Control-Allow-Origin: "@ + origin_text()
        + "\r\nAccess-Control-Allow-Methods: GET, POST, OPTIONS\r\nAccess-Control-Allow-Headers: Content-Type, Authorization\r\n"@
}

/// The anti-framing, content-policy and no-sniff header block.
pub open spec fn security_text() -> Seq<char> {
    "X-Frame-Options: DENY\r\nContent-Security-Policy: default-src 'self'; script-src 'self' 'unsafe-inline'; style-src 'self' 'unsafe-inline'; frame-ancestors 'none'; object-src 'none'; base-uri 'self'; form-action 'self'\r\nX-Content-Type-Options: nosniff\r\n"@
}

/// The status line text for a code; codes without their own text read as 500.
pub open spec fn status_text(code: u16) -> Seq<char> {
    if code == 200 {
        "200 OK"@
    } else if code == 400 {
        "400 Bad Request"@
    } else if code == 403 {
        "403 Forbidden"@
    } else if code == 404 {
        "404 Not Found"@
    } else if code == 429 {
        "429 Too Many Requests"@
    } else {
        "500 Internal Server Error"@
    }
}

/// The byte count `str::len` reports for text with these characters.
pub open spec fn wire_len(body: Seq<char>) -> nat {
    (encode_utf8(body).len() as usize) as nat
}

/// A complete JSON response with the given status and body.
pub open spec fn json_text(code: u16, body: Seq<char>) -> Seq<char> {
    "HTTP/1.1 "@ + status_text(code) + "\r\n"@ + cors_text() + security_text()
        + "Content-Type: application/json\r\nContent-Length: "@ + decimal(wire_len(body)) + "\r\n\r\n"@ + body
}

/// A complete, uncached HTML response with the given body.
pub open spec fn html_text(body: Seq<char>) -> Seq<char> {
    "HTTP/1.1 200 OK\r\n"@ + cors_text() + security_text()
        + "Content-Type: text/html\r\nCache-Control: no-cache, no-store, must-revalidate\r\nPragma: no-cache\r\nExpires: 0\r\nContent-Length: "@
        + decimal(wire_len(body)) + "\r\n\r\n"@ + body
}

pub fn cors_allowed_origin() -> (s: &'static str)
    ensures
        s@ == origin_text(),
{
    "http://127.0.0.1:12790"
}

pub fn cors_headers() -> (s: String)
    ensures
        s@ == cors_text(),
{
    let mut s = String::from_str("Access-Control-Allow-Origin: ");
    append(&mut s, cors_allowed_origin());
    append(&mut s, "\r\nAccess-Control-Allow-Methods: GET, POST, OPTIONS\r\nAccess-Control-Allow-Headers: Content-Type, Authorization\r\n");
    s
}

pub fn security_headers() -> (s: &'static str)
    ensures
        s@ == security_text(),
{
    "X-Frame-Options: DENY\r\nContent-Security-Policy: default-src 'self'; script-src 'self' 'unsafe-inline'; style-src 'self' 'unsafe-inline'; frame-ancestors 'none'; object-src 'none'; base-uri 'self'; form-action 'self'\r\nX-Content-Type-Options: nosniff\r\n"
}

pub fn status_string(code: u16) -> (s: &'static str)
    ensures
        s@ == status_text(code),
{
    match code {
        200 => "200 OK",
        400 => "400 Bad Request",
        403 => "403 Forbidden",
        404 => "404 Not Found",
        429 => "429 Too Many Requests",
        _ => "500 Internal Server Error",
    }
}

/// Frames `body` as a JSON response; the length header counts UTF-8 bytes.
pub fn json_response(status: u16, body: &str) -> (r: String)
    ensures
        r@ == json_text(status, body@),
{
    let mut r = String::from_str("HTTP/1.1 ");
    append(&mut r, status_string(status));
    append(&mut r, "\r\n");
    let cors = cors_headers();
    append(&mut r, cors.as_str());
    append(&mut r, security_headers());
    append(&mut r, "Content-Type: application/json\r\nContent-Length: ");
    let n = decimal_string(body.len() as u64);
    append(&mut r, n.as_str());
    append(&mut r, "\r\n\r\n");
    append(&mut r, body);
    r
}

/// Frames `body` as an uncached HTML page.
pub fn html_response(body: &str) -> (r: String)
    ensures
        r@ == html_text(body@),
{
    let mut r = String::from_str("HTTP/1.1 200 OK\r\n");
    let cors = cors_headers();
    append(&mut r, cors.as_str());
    append(&mut r, security_headers());
    append(&mut r, "Content-Type: text/html\r\nCache-Control: no-cache, no-store, must-revalidate\r\nPragma: no-cache\r\nExpires: 0\r\nContent-Length: ");
    let n = decimal_string(body.len() as u64);
    append(&mut r, n.as_str());
    append(&mut r, "\r\n\r\n");
    append(&mut r, body);
    r
}

/// The answer to a request without a valid token.
pub fn unauthorized() -> (r: String)
    ensures
        r@ == json_text(403, "{\"error\":\"Unauthorized - Invalid token\"}"@),
{
    let body = "{\"error\":\"Unauthorized - Invalid token\"}";
    json_response(403, body)
}

/// The answer when too many connections are open.
pub fn rate_limited() -> (r: String)
    ensures
        r@ == json_text(429, "{\"error\":\"Too many concurrent connections\"}"@),
{
    let body = "{\"error\":\"Too many concurrent connections\"}";
    json_response(429, body)
}

// ============================================
// REQUEST PARSING
// ============================================

/// The value of `param=` in a request line: the text after the first
/// occurrence up to `&`, a space or the end, trimmed; absent when empty.
pub open spec fn query_param_spec(req: Seq<char>, param: Seq<char>) -> Option<Seq<char>> {
    match find_spec(req, param + "="@, 0) {
        Some(pos) => {
            let start = pos + param.len() + 1;
            let v = trimmed(req.subrange(start, stop_at(req, start, seq!['&', ' '])));
            if v.len() > 0 { Some(v) } else { None }
        },
        None => None,
    }
}

/// The request body: what lies between the first blank line and the next one
/// (or the end); absent without a blank line.
pub open spec fn body_spec(req: Seq<char>) -> Option<Seq<char>> {
    match find_spec(req, "\r\n\r\n"@, 0) {
        Some(a) => match find_spec(req, "\r\n\r\n"@, a + 4) {
            Some(b) => Some(req.subrange(a + 4, b)),
            None => Some(req.subrange(a + 4, req.len() as int)),
        },
        None => None,
    }
}

/// `param` looked up in a body as `param=value` (value up to `&`, `\n`, `\r`
/// or the end, untrimmed).
pub open spec fn form_value_spec(body: Seq<char>, param: Seq<char>) -> Option<Seq<char>> {
    match find_spec(body, param + "="@, 0) {
        Some(pos) => {
            let start = pos + param.len() + 1;
            Some(body.subrange(start, stop_at(body, start, seq!['&', '\n', '\r'])))
        },
        None => None,
    }
}

/// `param` looked up in a body: a JSON-style `"param":"` match is tried first
/// (its value is read from the quote that opens it, up to the next quote),
/// then `param=value`.
pub open spec fn body_param_spec(body: Seq<char>, param: Seq<char>) -> Option<Seq<char>> {
    match find_spec(body, "\""@ + param + "\":\""@, 0) {
        Some(pos) => {
            let start = pos + param.len() + 3;
            match find_spec(body, "\""@, start) {
                Some(end) => Some(body.subrange(start, end)),
                None => form_value_spec(body, param),
            }
        },
        None => form_value_spec(body, param),
    }
}

/// `param` looked up in the body of a request.
pub open spec fn request_body_param_spec(req: Seq<char>, param: Seq<char>) -> Option<Seq<char>> {
    match body_spec(req) {
        Some(body) => body_param_spec(body, param),
        None => None,
    }
}

/// The SSID posted as `ssid=...`: trimmed, non-empty and under 64 bytes,
/// otherwise empty.
pub open spec fn home_ssid_spec(req: Seq<char>) -> Seq<char> {
    match find_spec(req, "ssid="@, 0) {
        Some(pos) => {
            let start = pos + 5;
            let v = trimmed(req.subrange(start, stop_at(req, start, seq!['&', '\n', '\r'])));
            if v.len() > 0 && utf8_len(v) < 64 { v } else { Seq::empty() }
        },
        None => Seq::empty(),
    }
}

/// The index of the first line, from `k` on, that starts with `prefix`.
pub open spec fn first_line_with(ls: Seq<Seq<char>>, prefix: Seq<char>, k: int) -> Option<int>
    decreases ls.len() - k,
{
    if k < 0 || k >= ls.len() {
        None
    } else if starts_with(ls[k], prefix) {
        Some(k)
    } else {
        first_line_with(ls, prefix, k + 1)
    }
}

/// Method, path (without query) and `Authorization` value of a request.
pub open spec fn request_parts(req: Seq<char>) -> (Seq<char>, Seq<char>, Seq<char>) {
    let ls = lines_of(req);
    if ls.len() == 0 {
        ("GET"@, "/"@, Seq::empty())
    } else {
        let parts = words_of(ls[0]);
        let method = if parts.len() > 0 { parts[0] } else { "GET"@ };
        let full = if parts.len() > 1 { parts[1] } else { "/"@ };
        let auth = match first_line_with(ls, "Authorization:"@, 0) {
            Some(i) => replace_all(ls[i], "Authorization: "@, Seq::empty()),
            None => Seq::empty(),
        };
        (method, before_char(full, '?'), auth)
    }
}

/// Whether the headers carry `token` as a bearer or token credential,
/// compared without regard to case.
pub open spec fn auth_valid(headers: Seq<char>, token: Seq<char>) -> bool {
    auth_matches_spec(lowercased(headers), lowercased(token))
}

/// Lowercased headers carry a lowercased token as `bearer <token>` or
/// `token <token>`.
pub open spec fn auth_matches_spec(lower_headers: Seq<char>, lower_token: Seq<char>) -> bool {
    contains(lower_headers, "bearer "@ + lower_token) || contains(lower_headers, "token "@ + lower_token)
}

fn string_plus(a: &str, b: &str) -> (r: String)
    ensures
        r@ == a@ + b@,
{
    let mut r = a.to_owned();
    append(&mut r, b);
    r
}

/// Looks up `param=` in a request line.
pub fn parse_query_param(request: &str, param: &str) -> (r: Option<String>)
    ensures
        match r {
            Some(v) => query_param_spec(request@, param@) == Some(v@),
            None => query_param_spec(request@, param@) is None,
        },
{
    let req = chars_of(request);
    let pat_s = string_plus(param, "=");
    let pat = chars_of(pat_s.as_str());
    match find_first(req.as_slice(), pat.as_slice(), 0) {
        Some(pos) => {
            proof {
                reveal_strlit("=");
                assert(pat@.len() == param@.len() + 1);
                lemma_find_spec(req@, pat@, 0);
                assert(find_spec(req@, pat@, 0) == Some(pos as int));
                assert(occurs_at(req@, pat@, pos as int));
            }
            let n = req.len();
            assert(pos + pat@.len() <= n);
            let start = pos + pat.len();
            let stops = vec!['&', ' '];
            proof {
                lemma_stop_at_bounds(req@, start as int, stops@);
                assert(stops@ =~= seq!['&', ' ']);
            }
            let end = scan_to_any(req.as_slice(), start, stops.as_slice());
            let raw = sub_string(req.as_slice(), start, end);
            let v = trim(raw.as_str());
            if v.as_str().is_empty() {
                None
            } else {
                Some(v)
            }
        },
        None => None,
    }
}

/// The start of the text after the first `pat` in `s` at or after `from`.
fn after_pattern(s: &Vec<char>, pat: &Vec<char>, from: usize) -> (r: Option<(usize, usize)>)
    ensures
        match r {
            Some((pos, start)) => find_spec(s@, pat@, from as int) == Some(pos as int)
                && start == pos + pat@.len() && start <= s@.len(),
            None => find_spec(s@, pat@, from as int) is None,
        },
{
    match find_first(s.as_slice(), pat.as_slice(), from) {
        Some(pos) => {
            proof {
                lemma_find_spec(s@, pat@, from as int);
                assert(occurs_at(s@, pat@, pos as int));
            }
            let n = s.len();
            assert(pos + pat@.len() <= n);
            Some((pos, pos + pat.len()))
        },
        None => None,
    }
}

fn form_value(body: &Vec<char>, param: &str) -> (r: Option<String>)
    ensures
        match r {
            Some(v) => form_value_spec(body@, param@) == Some(v@),
            None => form_value_spec(body@, param@) is None,
        },
{
    let pat_s = string_plus(param, "=");
    let pat = chars_of(pat_s.as_str());
    proof {
        reveal_strlit("=");
    }
    match after_pattern(body, &pat, 0) {
        Some((_pos, start)) => {
            let stops = vec!['&', '\n', '\r'];
            proof {
                lemma_stop_at_bounds(body@, start as int, stops@);
                assert(stops@ =~= seq!['&', '\n', '\r']);
            }
            let end = scan_to_any(body.as_slice(), start, stops.as_slice());
            Some(sub_string(body.as_slice(), start, end))
        },
        None => None,
    }
}

/// Looks up `param` in the body of a request.
pub fn parse_request_body(request: &str, param: &str) -> (r: Option<String>)
    ensures
        match r {
            Some(v) => request_body_param_spec(request@, param@) == Some(v@),
            None => request_body_param_spec(request@, param@) is None,
        },
{
    let req = chars_of(request);
    let sep = chars_of("\r\n\r\n");
    proof {
        reveal_strlit("\r\n\r\n");
    }
    let body: Vec<char> = match after_pattern(&req, &sep, 0) {
        Some((_a, start)) => {
            match find_first(req.as_slice(), sep.as_slice(), start) {
                Some(b) => {
                    proof {
                        lemma_find_spec(req@, sep@, start as int);
                    }
                    chars_of(sub_string(req.as_slice(), start, b).as_str())
                },
                None => chars_of(sub_string(req.as_slice(), start, req.len()).as_str()),
            }
        },
        None => {
            return None;
        },
    };
    assert(body_spec(request@) == Some(body@));
    let quote = chars_of("\"");
    let open_s = string_plus("\"", param);
    let open_s = string_plus(open_s.as_str(), "\":\"");
    let open = chars_of(open_s.as_str());
    proof {
        reveal_strlit("\"");
        reveal_strlit("\":\"");
        assert(open@ == "\""@ + param@ + "\":\""@);
    }
    match after_pattern(&body, &open, 0) {
        Some((_pos, after)) => {
            assert(open@.len() == param@.len() + 4);
            let start = after - 1;
            match find_first(body.as_slice(), quote.as_slice(), start) {
                Some(end) => {
                    proof {
                        lemma_find_spec(body@, quote@, start as int);
                    }
                    Some(sub_string(body.as_slice(), start, end))
                },
                None => form_value(&body, param),
            }
        },
        None => form_value(&body, param),
    }
}

/// Reads the home SSID posted as `ssid=...`; empty when missing or invalid.
pub fn parse_home_ssid(request: &str) -> (r: String)
    ensures
        r@ == home_ssid_spec(request@),
{
    let req = chars_of(request);
    let pat = chars_of("ssid=");
    proof {
        reveal_strlit("ssid=");
    }
    match after_pattern(&req, &pat, 0) {
        Some((_pos, start)) => {
            let stops = vec!['&', '\n', '\r'];
            proof {
                lemma_stop_at_bounds(req@, start as int, stops@);
                assert(stops@ =~= seq!['&', '\n', '\r']);
            }
            let end = scan_to_any(req.as_slice(), start, stops.as_slice());
            let raw = sub_string(req.as_slice(), start, end);
            let v = trim(raw.as_str());
            if !v.as_str().is_empty() && utf8_len_below(v.as_str(), 64) {
                v
            } else {
                String::new()
            }
        },
        None => String::new(),
    }
}

/// The JSON string escape of one character.
pub open spec fn json_escape_char(c: char) -> Seq<char> {
    if c == '"' {
        seq!['\\', '"']
    } else if c == '\\' {
        seq!['\\', '\\']
    } else if c == '\n' {
        seq!['\\', 'n']
    } else if c == '\r' {
        seq!['\\', 'r']
    } else if c == '\t' {
        seq!['\\', 't']
    } else {
        seq![c]
    }
}

/// `s` with quotes, backslashes, newlines, carriage returns and tabs escaped.
pub open spec fn json_escaped(s: Seq<char>) -> Seq<char>
    decreases s.len(),
{
    if s.len() == 0 { Seq::empty() } else { json_escaped(s.drop_last()) + json_escape_char(s.last()) }
}

/// The HTML escape of one character (`&`, `<` and `>` only).
pub open spec fn html_escape_char(c: char) -> Seq<char> {
    if c == '&' {
        seq!['&', 'a', 'm', 'p', ';']
    } else if c == '<' {
        seq!['&', 'l', 't', ';']
    } else if c == '>' {
        seq!['&', 'g', 't', ';']
    } else {
        seq![c]
    }
}

/// `s` with `&`, `<` and `>` escaped.
pub open spec fn html_escaped(s: Seq<char>) -> Seq<char>
    decreases s.len(),
{
    if s.len() == 0 { Seq::empty() } else { html_escaped(s.drop_last()) + html_escape_char(s.last()) }
}

/// Escapes text for use inside a JSON string literal.
pub fn json_escape(s: &str) -> (r: String)
    ensures
        r@ == json_escaped(s@),
{
    let v = chars_of(s);
    let mut r = String::new();
    let mut i: usize = 0;
    while i < v.len()
        invariant
            v@ == s@,
            i <= v@.len(),
            r@ == json_escaped(v@.subrange(0, i as int)),
        decreases v@.len() - i,
    {
        let c = v[i];
        let ghost before = r@;
        if c == '"' {
            push_char(&mut r, '\\');
            push_char(&mut r, '"');
        } else if c == '\\' {
            push_char(&mut r, '\\');
            push_char(&mut r, '\\');
        } else if c == '\n' {
            push_char(&mut r, '\\');
            push_char(&mut r, 'n');
        } else if c == '\r' {
            push_char(&mut r, '\\');
            push_char(&mut r, 'r');
        } else if c == '\t' {
            push_char(&mut r, '\\');
            push_char(&mut r, 't');
        } else {
            push_char(&mut r, c);
        }
        proof {
            assert(r@ =~= before + json_escape_char(c));
            assert(v@.subrange(0, i + 1).drop_last() =~= v@.subrange(0, i as int));
        }
        i = i + 1;
    }
    proof {
        assert(v@.subrange(0, i as int) =~= s@);
    }
    r
}

/// Escapes `&`, `<` and `>` for use inside HTML.
pub fn html_escape(s: &str) -> (r: String)
    ensures
        r@ == html_escaped(s@),
{
    let v = chars_of(s);
    let mut r = String::new();
    let mut i: usize = 0;
    while i < v.len()
        invariant
            v@ == s@,
            i <= v@.len(),
            r@ == html_escaped(v@.subrange(0, i as int)),
        decreases v@.len() - i,
    {
        let c = v[i];
        let ghost before = r@;
        if c == '&' {
            push_char(&mut r, '&');
            push_char(&mut r, 'a');
            push_char(&mut r, 'm');
            push_char(&mut r, 'p');
            push_char(&mut r, ';');
        } else if c == '<' {
            push_char(&mut r, '&');
            push_char(&mut r, 'l');
            push_char(&mut r, 't');
            push_char(&mut r, ';');
        } else if c == '>' {
            push_char(&mut r, '&');
            push_char(&mut r, 'g');
            push_char(&mut r, 't');
            push_char(&mut r, ';');
        } else {
            push_char(&mut r, c);
        }
        proof {
            assert(r@ =~= before + html_escape_char(c));
            assert(v@.subrange(0, i + 1).drop_last() =~= v@.subrange(0, i as int));
        }
        i = i + 1;
    }
    proof {
        assert(v@.subrange(0, i as int) =~= s@);
    }
    r
}

/// The consent page: the template with the privacy policy and the licence
/// text, each HTML-escaped, put in place of their markers.
pub open spec fn consent_html_spec(template: Seq<char>, privacy: Seq<char>, license: Seq<char>) -> Seq<char> {
    replace_all(
        replace_all(template, "__PRIVACY_POLICY_TEXT__"@, html_escaped(privacy)),
        "__LICENSE_TEXT__"@,
        html_escaped(license),
    )
}

/// Builds the consent page from its template and the shipped texts.
pub fn build_consent_html(template: &str, privacy: &str, license: &str) -> (r: String)
    ensures
        r@ == consent_html_spec(template@, privacy@, license@),
{
    proof {
        reveal_strlit("__PRIVACY_POLICY_TEXT__");
        reveal_strlit("__LICENSE_TEXT__");
    }
    let p = html_escape(privacy);
    let l = html_escape(license);
    let step = replace_str(template, "__PRIVACY_POLICY_TEXT__", p.as_str());
    replace_str(step.as_str(), "__LICENSE_TEXT__", l.as_str())
}

/// Whether the headers carry the API token.
pub fn validate_auth(headers: &str, token: &str) -> (ok: bool)
    ensures
        ok == auth_valid(headers@, token@),
{
    let lower_headers = to_lowercase(headers);
    let lower_token = to_lowercase(token);
    auth_matches(lower_headers.as_str(), lower_token.as_str())
}

/// Whether lowercased headers carry the lowercased token as a bearer or
/// token credential.
pub fn auth_matches(lower_headers: &str, lower_token: &str) -> (ok: bool)
    ensures
        ok == auth_matches_spec(lower_headers@, lower_token@),
{
    let bearer = string_plus("bearer ", lower_token);
    let tok = string_plus("token ", lower_token);
    str_contains(lower_headers, bearer.as_str()) || str_contains(lower_headers, tok.as_str())
}

/// Splits a raw request into method, path and `Authorization` value.
pub fn parse_request(request: &str) -> (r: (String, String, String))
    ensures
        (r.0@, r.1@, r.2@) == request_parts(request@),
{
    let ls = lines(request);
    if ls.len() == 0 {
        return (String::from_str("GET"), String::from_str("/"), String::new());
    }
    let parts = split_whitespace(ls[0].as_str());
    proof {
        assert(crate::text::views(ls@)[0] == ls@[0]@);
    }
    let method = if parts.len() > 0 {
        proof { assert(crate::text::views(parts@)[0] == parts@[0]@); }
        parts[0].clone()
    } else {
        String::from_str("GET")
    };
    let full = if parts.len() > 1 {
        proof { assert(crate::text::views(parts@)[1] == parts@[1]@); }
        parts[1].clone()
    } else {
        String::from_str("/")
    };
    let fv = chars_of(full.as_str());
    let q = vec!['?'];
    proof {
        lemma_stop_at_bounds(fv@, 0, q@);
        assert(q@ =~= seq!['?']);
    }
    let cut = scan_to_any(fv.as_slice(), 0, q.as_slice());
    let path = sub_string(fv.as_slice(), 0, cut);
    let mut auth = String::new();
    let mut i: usize = 0;
    assert(method@ == request_parts(request@).0);
    assert(path@ == request_parts(request@).1);
    while i < ls.len()
        invariant
            i <= ls@.len(),
            crate::text::views(ls@) == lines_of(request@),
            first_line_with(lines_of(request@), "Authorization:"@, i as int)
                == first_line_with(lines_of(request@), "Authorization:"@, 0),
            auth@ == Seq::<char>::empty(),
            method@ == request_parts(request@).0,
            path@ == request_parts(request@).1,
            lines_of(request@).len() > 0,
        decreases ls@.len() - i,
    {
        proof {
            assert(crate::text::views(ls@)[i as int] == ls@[i as int]@);
        }
        if str_starts_with(ls[i].as_str(), "Authorization:") {
            proof {
                reveal_strlit("Authorization: ");
                reveal_strlit("");
                assert(""@ =~= Seq::<char>::empty());
            }
            let a = replace_str(ls[i].as_str(), "Authorization: ", "");
            proof {
                assert(first_line_with(lines_of(request@), "Authorization:"@, i as int) == Some(i as int));
            }
            return (method, path, a);
        }
        i = i + 1;
    }
    (method, path, auth)
}

// ============================================
// ROUTING
// ============================================

/// What a request asks for, once method, path and credentials are read.
#[derive(Debug, Clone, Copy, PartialEq, Eq, Structural)]
pub enum Route {
    Preflight,
    Unauthorized,
    Token,
    Root,
    Dashboard,
    AcceptConsent,
    Status,
    Timeline,
    Report,
    Reset,
    Repair,
    Sanitize,
    GhostOn,
    GhostOff,
    Home,
    Enable,
    Disable,
    WatchedFolders,
    Rollback,
    Restart,
    VerifyTrust,
    Approve,
    NotFound,
}

/// Paths served without a token.
pub open spec fn is_open_path(path: Seq<char>) -> bool {
    path == "/"@ || path == "/dashboard"@ || path == "/token"@ || path == "/accept_consent"@
}

/// The endpoint a (method, path) pair names, for an authorised request.
pub open spec fn endpoint_spec(method: Seq<char>, path: Seq<char>) -> Route {
    if method == "GET"@ && path == "/token"@ { Route::Token }
    else if method == "GET"@ && path == "/"@ { Route::Root }
    else if method == "GET"@ && path == "/dashboard"@ { Route::Dashboard }
    else if method == "POST"@ && path == "/accept_consent"@ { Route::AcceptConsent }
    else if method == "GET"@ && path == "/status"@ { Route::Status }
    else if method == "GET"@ && path == "/timeline"@ { Route::Timeline }
    else if method == "GET"@ && path == "/report"@ { Route::Report }
    else if method == "POST"@ && path == "/reset"@ { Route::Reset }
    else if method == "POST"@ && path == "/repair"@ { Route::Repair }
    else if method == "POST"@ && path == "/sanitize"@ { Route::Sanitize }
    else if method == "POST"@ && path == "/ghost"@ { Route::GhostOn }
    else if method == "POST"@ && path == "/unghost"@ { Route::GhostOff }
    else if method == "POST"@ && path == "/home"@ { Route::Home }
    else if method == "POST"@ && path == "/enable"@ { Route::Enable }
    else if method == "POST"@ && path == "/disable"@ { Route::Disable }
    else if method == "GET"@ && path == "/watched-folders"@ { Route::WatchedFolders }
    else if method == "POST"@ && path == "/rollback"@ { Route::Rollback }
    else if method == "POST"@ && path == "/restart"@ { Route::Restart }
    else if method == "POST"@ && path == "/verify_trust"@ { Route::VerifyTrust }
    else if method == "POST"@ && path == "/approve"@ { Route::Approve }
    else { Route::NotFound }
}

/// The route of a request: preflight first, then the token check for every
/// path but the open ones, then the endpoint.
pub open spec fn route_spec(method: Seq<char>, path: Seq<char>, authorized: bool) -> Route {
    if method == "OPTIONS"@ {
        Route::Preflight
    } else if !is_open_path(path) && !authorized {
        Route::Unauthorized
    } else {
        endpoint_spec(method, path)
    }
}

fn is_pair(method: &str, path: &str, m: &str, p: &str) -> (b: bool)
    ensures
        b == (method@ == m@ && path@ == p@),
{
    crate::text::str_eq(method, m) && crate::text::str_eq(path, p)
}

fn endpoint(method: &str, path: &str) -> (r: Route)
    ensures
        r == endpoint_spec(method@, path@),
{
    if is_pair(method, path, "GET", "/token") { Route::Token }
    else if is_pair(method, path, "GET", "/") { Route::Root }
    else if is_pair(method, path, "GET", "/dashboard") { Route::Dashboard }
    else if is_pair(method, path, "POST", "/accept_consent") { Route::AcceptConsent }
    else if is_pair(method, path, "GET", "/status") { Route::Status }
    else if is_pair(method, path, "GET", "/timeline") { Route::Timeline }
    else if is_pair(method, path, "GET", "/report") { Route::Report }
    else if is_pair(method, path, "POST", "/reset") { Route::Reset }
    else if is_pair(method, path, "POST", "/repair") { Route::Repair }
    else if is_pair(method, path, "POST", "/sanitize") { Route::Sanitize }
    else if is_pair(method, path, "POST", "/ghost") { Route::GhostOn }
    else if is_pair(method, path, "POST", "/unghost") { Route::GhostOff }
    else if is_pair(method, path, "POST", "/home") { Route::Home }
    else if is_pair(method, path, "POST", "/enable") { Route::Enable }
    else if is_pair(method, path, "POST", "/disable") { Route::Disable }
    else if is_pair(method, path, "GET", "/watched-folders") { Route::WatchedFolders }
    else if is_pair(method, path, "POST", "/rollback") { Route::Rollback }
    else if is_pair(method, path, "POST", "/restart") { Route::Restart }
    else if is_pair(method, path, "POST", "/verify_trust") { Route::VerifyTrust }
    else if is_pair(method, path, "POST", "/approve") { Route::Approve }
    else { Route::NotFound }
}

/// Decides what a request is for, checking the token where one is required.
pub fn route_request(method: &str, path: &str, headers: &str, token: &str) -> (r: Route)
    ensures
        r == route_spec(method@, path@, auth_valid(headers@, token@)),
{
    if crate::text::str_eq(method, "OPTIONS") {
        return Route::Preflight;
    }
    let open = crate::text::str_eq(path, "/") || crate::text::str_eq(path, "/dashboard")
        || crate::text::str_eq(path, "/token") || crate::text::str_eq(path, "/accept_consent");
    if !open && !validate_auth(headers, token) {
        return Route::Unauthorized;
    }
    endpoint(method, path)
}

// ============================================
// ENDPOINT REPLIES
// ============================================

/// A status code and a JSON body, before framing.
pub struct ApiReply {
    pub code: u16,
    pub body: String,
}

/// Frames a reply as a JSON response.
pub fn render_reply(reply: &ApiReply) -> (r: String)
    ensures
        r@ == json_text(reply.code, reply.body@),
{
    json_response(reply.code, reply.body.as_str())
}

/// The answer to a CORS preflight.
pub fn preflight_response() -> (r: String)
    ensures
        r@ == "HTTP/1.1 200 OK\r\n"@ + cors_text() + "Content-Length: 0\r\n\r\n"@,
{
    let mut r = String::from_str("HTTP/1.1 200 OK\r\n");
    let cors = cors_headers();
    append(&mut r, cors.as_str());
    append(&mut r, "Content-Length: 0\r\n\r\n");
    r
}

pub open spec fn bool_text(b: bool) -> Seq<char> {
    if b { "true"@ } else { "false"@ }
}

/// The name `{:?}` prints for an integrity state.
pub open spec fn state_name(s: IntegrityState) -> Seq<char> {
    match s {
        IntegrityState::Maintained => "Maintained"@,
        IntegrityState::DriftDetected => "DriftDetected"@,
        IntegrityState::Compromised => "Compromised"@,
        IntegrityState::Lockdown => "Lockdown"@,
        IntegrityState::Invalid => "Invalid"@,
    }
}

fn bool_str(b: bool) -> (s: &'static str)
    ensures
        s@ == bool_text(b),
{
    if b { "true" } else { "false" }
}

/// The `{:?}` name of an integrity state.
pub fn integrity_state_name(s: IntegrityState) -> (r: &'static str)
    ensures
        r@ == state_name(s),
{
    match s {
        IntegrityState::Maintained => "Maintained",
        IntegrityState::DriftDetected => "DriftDetected",
        IntegrityState::Compromised => "Compromised",
        IntegrityState::Lockdown => "Lockdown",
        IntegrityState::Invalid => "Invalid",
    }
}

/// The published score, 0 without a report.
pub open spec fn published_score(state: DaemonState) -> u8 {
    match state.integrity_report {
        Some(r) => r.score,
        None => 0,
    }
}

/// The published state name, `Unknown` without a report.
pub open spec fn published_state(state: DaemonState) -> Seq<char> {
    match state.integrity_report {
        Some(r) => state_name(r.state),
        None => "Unknown"@,
    }
}

/// The trust level the API reports.
pub open spec fn served_trust_level(state: DaemonState, trust: TrustLevel) -> u8 {
    if state.trust_level == 0 { trust.score } else { state.trust_level }
}

/// The body of `GET /`.
pub open spec fn root_body(state: DaemonState, trust: TrustLevel, is_pro: bool) -> Seq<char> {
    "{\"status\":\"ok\",\"trust_state\":\""@ + state.trust_state@
        + "\",\"ghost\":"@ + bool_text(state.ghost_active)
        + ",\"enabled\":"@ + bool_text(state.ts2_enabled)
        + ",\"integrity_score\":"@ + decimal(published_score(state) as nat)
        + ",\"integrity_state\":\""@ + published_state(state)
        + "\",\"trust_level\":"@ + decimal(served_trust_level(state, trust) as nat)
        + ",\"elevated\":"@ + bool_text(state.elevated)
        + ",\"tamper_detected\":"@ + bool_text(state.tamper_detected)
        + ",\"ransomware_alert\":"@ + bool_text(state.ransomware_alert)
        + ",\"awaiting_consent\":"@ + bool_text(state.awaiting_consent)
        + ",\"is_pro\":"@ + bool_text(is_pro) + "}"@
}

/// The body of `GET /status`.
pub open spec fn status_body(state: DaemonState, trust: TrustLevel, is_pro: bool) -> Seq<char> {
    "{\"trust_state\":\""@ + state.trust_state@
        + "\",\"ghost\":"@ + bool_text(state.ghost_active)
        + ",\"enabled\":"@ + bool_text(state.ts2_enabled)
        + ",\"integrity_score\":"@ + decimal(published_score(state) as nat)
        + ",\"trust_level\":"@ + decimal(served_trust_level(state, trust) as nat)
        + ",\"elevated\":"@ + bool_text(state.elevated)
        + ",\"tamper_detected\":"@ + bool_text(state.tamper_detected)
        + ",\"ransomware_alert\":"@ + bool_text(state.ransomware_alert)
        + ",\"is_pro\":"@ + bool_text(is_pro) + "}"@
}

fn report_score(state: &DaemonState) -> (n: u8)
    ensures
        n == published_score(*state),
{
    match &state.integrity_report {
        Some(r) => r.score,
        None => 0,
    }
}

/// The reply to `GET /`: the full public status.
pub fn root_reply(state: &DaemonState, trust: &TrustLevel, is_pro: bool) -> (r: ApiReply)
    ensures
        r.code == 200,
        r.body@ == root_body(*state, *trust, is_pro),
{
    let mut b = String::from_str("{\"status\":\"ok\",\"trust_state\":\"");
    append(&mut b, state.trust_state.as_str());
    append(&mut b, "\",\"ghost\":");
    append(&mut b, bool_str(state.ghost_active));
    append(&mut b, ",\"enabled\":");
    append(&mut b, bool_str(state.ts2_enabled));
    append(&mut b, ",\"integrity_score\":");
    let score = decimal_string(report_score(state) as u64);
    append(&mut b, score.as_str());
    append(&mut b, ",\"integrity_state\":\"");
    let name: &str = match &state.integrity_report {
        Some(rep) => integrity_state_name(rep.state),
        None => "Unknown",
    };
    append(&mut b, name);
    append(&mut b, "\",\"trust_level\":");
    let level = decimal_string(get_trust_level(state, trust) as u64);
    append(&mut b, level.as_str());
    append(&mut b, ",\"elevated\":");
    append(&mut b, bool_str(state.elevated));
    append(&mut b, ",\"tamper_detected\":");
    append(&mut b, bool_str(state.tamper_detected));
    append(&mut b, ",\"ransomware_alert\":");
    append(&mut b, bool_str(state.ransomware_alert));
    append(&mut b, ",\"awaiting_consent\":");
    append(&mut b, bool_str(state.awaiting_consent));
    append(&mut b, ",\"is_pro\":");
    append(&mut b, bool_str(is_pro));
    append(&mut b, "}");
    ApiReply { code: 200, body: b }
}

/// The reply to `GET /status`.
pub fn status_reply(state: &DaemonState, trust: &TrustLevel, is_pro: bool) -> (r: ApiReply)
    ensures
        r.code == 200,
        r.body@ == status_body(*state, *trust, is_pro),
{
    let mut b = String::from_str("{\"trust_state\":\"");
    append(&mut b, state.trust_state.as_str());
    append(&mut b, "\",\"ghost\":");
    append(&mut b, bool_str(state.ghost_active));
    append(&mut b, ",\"enabled\":");
    append(&mut b, bool_str(state.ts2_enabled));
    append(&mut b, ",\"integrity_score\":");
    let score = decimal_string(report_score(state) as u64);
    append(&mut b, score.as_str());
    append(&mut b, ",\"trust_level\":");
    let level = decimal_string(get_trust_level(state, trust) as u64);
    append(&mut b, level.as_str());
    append(&mut b, ",\"elevated\":");
    append(&mut b, bool_str(state.elevated));
    append(&mut b, ",\"tamper_detected\":");
    append(&mut b, bool_str(state.tamper_detected));
    append(&mut b, ",\"ransomware_alert\":");
    append(&mut b, bool_str(state.ransomware_alert));
    append(&mut b, ",\"is_pro\":");
    append(&mut b, bool_str(is_pro));
    append(&mut b, "}");
    ApiReply { code: 200, body: b }
}

fn text_reply(code: u16, text: &str) -> (r: ApiReply)
    ensures
        r.code == code,
        r.body@ == text@,
{
    ApiReply { code, body: text.to_owned() }
}

/// The reply to `GET /token` for a trusted caller.
pub fn token_reply(token: &str) -> (r: ApiReply)
    ensures
        r.code == 200,
        r.body@ == "{\"token\":\""@ + token@ + "\"}"@,
{
    let mut b = String::from_str("{\"token\":\"");
    append(&mut b, token);
    append(&mut b, "\"}");
    ApiReply { code: 200, body: b }
}

/// `{"error":"<text>"}` with the text as given.
pub fn error_reply(code: u16, text: &str) -> (r: ApiReply)
    ensures
        r.code == code,
        r.body@ == "{\"error\":\""@ + text@ + "\"}"@,
{
    let mut b = String::from_str("{\"error\":\"");
    append(&mut b, text);
    append(&mut b, "\"}");
    ApiReply { code, body: b }
}

/// `{"status":"ok","message":"<text>"}` with the text escaped.
pub open spec fn ok_message_body(text: Seq<char>) -> Seq<char> {
    "{\"status\":\"ok\",\"message\":\""@ + json_escaped(text) + "\"}"@
}

/// The reply carrying the outcome of a repair, scan or rollback.
pub fn ok_message_reply(text: &str) -> (r: ApiReply)
    ensures
        r.code == 200,
        r.body@ == ok_message_body(text@),
{
    let mut b = String::from_str("{\"status\":\"ok\",\"message\":\"");
    let e = json_escape(text);
    append(&mut b, e.as_str());
    append(&mut b, "\"}");
    ApiReply { code: 200, body: b }
}

/// The page `GET /dashboard` serves: the consent page until consent is given.
pub fn dashboard_page(state: &DaemonState, consent_html: &str, dashboard_html: &str) -> (r: String)
    ensures
        r@ == html_text(if state.awaiting_consent { consent_html@ } else { dashboard_html@ }),
{
    if state.awaiting_consent {
        html_response(consent_html)
    } else {
        html_response(dashboard_html)
    }
}

/// Records accepted consent once the caller has stored it.
pub fn consent_recorded(state: &mut DaemonState) -> (r: ApiReply)
    ensures
        *final(state) == (DaemonState { awaiting_consent: false, ..*old(state) }),
        r.code == 200,
        r.body@ == "{\"status\":\"ok\"}"@,
{
    set_awaiting_consent(state, false);
    text_reply(200, "{\"status\":\"ok\"}")
}

/// The reply to `GET /report` when no report has been published.
pub fn no_report_reply() -> (r: ApiReply)
    ensures
        r.code == 404,
        r.body@ == "{\"error\":\"No report available\"}"@,
{
    text_reply(404, "{\"error\":\"No report available\"}")
}

/// The reply to an unknown endpoint.
pub fn not_found_reply() -> (r: ApiReply)
    ensures
        r.code == 404,
        r.body@ == "{\"error\":\"Not found\"}"@,
{
    text_reply(404, "{\"error\":\"Not found\"}")
}

/// `new` is `old` with Ghost Mode set to `on` and the trust state `label`;
/// every other published value is unchanged.
pub open spec fn mode_switched(old: DaemonState, new: DaemonState, on: bool, label: Seq<char>) -> bool {
    &&& new.ghost_active == on
    &&& new.trust_state@ == label
    &&& new.awaiting_consent == old.awaiting_consent
    &&& new.ts2_enabled == old.ts2_enabled
    &&& new.ransomware_alert == old.ransomware_alert
    &&& new.integrity_report == old.integrity_report
    &&& new.elevated == old.elevated
    &&& new.tamper_detected == old.tamper_detected
    &&& new.trust_level == old.trust_level
}

/// Switches Ghost Mode on: refused without Pro; otherwise `applied` is what
/// applying the firewall rules gave, and success marks the state as Ghost.
pub fn ghost_reply(state: &mut DaemonState, is_pro: bool, applied: bool) -> (r: ApiReply)
    ensures
        !is_pro ==> *final(state) == *old(state) && r.code == 402
            && r.body@ == "{\"status\":\"error\",\"message\":\"Ghost Mode requires an active Pro subscription\"}"@,
        is_pro && applied ==> mode_switched(*old(state), *final(state), true, "Ghost"@)
            && r.code == 200 && r.body@ == "{\"status\":\"ok\",\"message\":\"Ghost Mode enabled\"}"@,
        is_pro && !applied ==> *final(state) == *old(state) && r.code == 500
            && r.body@ == "{\"status\":\"error\",\"message\":\"Ghost Mode failed to apply - system state unchanged, check daemon logs\"}"@,
{
    if !is_pro {
        text_reply(402, "{\"status\":\"error\",\"message\":\"Ghost Mode requires an active Pro subscription\"}")
    } else if applied {
        set_ghost_active(state, true);
        set_trust_state(state, "Ghost");
        text_reply(200, "{\"status\":\"ok\",\"message\":\"Ghost Mode enabled\"}")
    } else {
        text_reply(500, "{\"status\":\"error\",\"message\":\"Ghost Mode failed to apply - system state unchanged, check daemon logs\"}")
    }
}

/// Switches Ghost Mode off; `reverted` is what removing the rules gave.
pub fn unghost_reply(state: &mut DaemonState, reverted: bool) -> (r: ApiReply)
    ensures
        reverted ==> mode_switched(*old(state), *final(state), false, "Trusted"@)
            && r.code == 200 && r.body@ == "{\"status\":\"ok\",\"message\":\"Ghost Mode disabled\"}"@,
        !reverted ==> *final(state) == *old(state) && r.code == 500
            && r.body@ == "{\"status\":\"error\",\"message\":\"Ghost Mode revert failed - firewall state may be inconsistent, retry or check daemon logs\"}"@,
{
    if reverted {
        set_ghost_active(state, false);
        set_trust_state(state, "Trusted");
        text_reply(200, "{\"status\":\"ok\",\"message\":\"Ghost Mode disabled\"}")
    } else {
        text_reply(500, "{\"status\":\"error\",\"message\":\"Ghost Mode revert failed - firewall state may be inconsistent, retry or check daemon logs\"}")
    }
}

/// The reply to `POST /home` for the SSID parsed from the request (saved by
/// the caller when non-empty).
pub fn home_reply(ssid: &str) -> (r: ApiReply)
    ensures
        ssid@.len() > 0 ==> r.code == 200 && r.body@ == "{\"status\":\"ok\",\"ssid\":\""@ + json_escaped(ssid@) + "\"}"@,
        ssid@.len() == 0 ==> r.code == 400 && r.body@ == "{\"error\":\"Invalid SSID\"}"@,
{
    if ssid.is_empty() {
        text_reply(400, "{\"error\":\"Invalid SSID\"}")
    } else {
        let mut b = String::from_str("{\"status\":\"ok\",\"ssid\":\"");
        let e = json_escape(ssid);
        append(&mut b, e.as_str());
        append(&mut b, "\"}");
        ApiReply { code: 200, body: b }
    }
}

/// Turns monitoring on or off.
pub fn enable_reply(state: &mut DaemonState, enabled: bool) -> (r: ApiReply)
    ensures
        *final(state) == (DaemonState { ts2_enabled: enabled, ..*old(state) }),
        r.code == 200,
        r.body@ == (if enabled {
            "{\"status\":\"ok\",\"message\":\"Invisibly enabled\"}"@
        } else {
            "{\"status\":\"ok\",\"message\":\"Invisibly disabled\"}"@
        }),
{
    set_ts2_enabled(state, enabled);
    if enabled {
        text_reply(200, "{\"status\":\"ok\",\"message\":\"Invisibly enabled\"}")
    } else {
        text_reply(200, "{\"status\":\"ok\",\"message\":\"Invisibly disabled\"}")
    }
}

/// The JSON list of watched folders, each escaped and quoted.
pub open spec fn folder_list(f: Seq<Seq<char>>) -> Seq<char>
    decreases f.len(),
{
    if f.len() == 0 {
        Seq::empty()
    } else if f.len() == 1 {
        "\""@ + json_escaped(f[0]) + "\""@
    } else {
        folder_list(f.drop_last()) + ","@ + "\""@ + json_escaped(f.last()) + "\""@
    }
}

/// The reply to `GET /watched-folders`.
pub fn folders_reply(folders: &Vec<String>) -> (r: ApiReply)
    ensures
        r.code == 200,
        r.body@ == "{\"folders\":["@ + folder_list(crate::text::views(folders@)) + "]}"@,
{
    let mut list = String::new();
    let mut i: usize = 0;
    while i < folders.len()
        invariant
            i <= folders@.len(),
            list@ == folder_list(crate::text::views(folders@).subrange(0, i as int)),
        decreases folders@.len() - i,
    {
        let ghost before = list@;
        if i > 0 {
            append(&mut list, ",");
        }
        append(&mut list, "\"");
        let e = json_escape(folders[i].as_str());
        append(&mut list, e.as_str());
        append(&mut list, "\"");
        proof {
            let v = crate::text::views(folders@);
            assert(v.subrange(0, i + 1).drop_last() =~= v.subrange(0, i as int));
            assert(v[i as int] == folders@[i as int]@);
            if i == 0 {
                assert(before =~= Seq::<char>::empty());
                assert(list@ =~= "\""@ + json_escaped(v[0]) + "\""@);
            } else {
                assert(list@ =~= before + ","@ + "\""@ + json_escaped(v[i as int]) + "\""@);
            }
        }
        i = i + 1;
    }
    proof {
        assert(crate::text::views(folders@).subrange(0, i as int) =~= crate::text::views(folders@));
    }
    let mut b = String::from_str("{\"folders\":[");
    append(&mut b, list.as_str());
    append(&mut b, "]}");
    ApiReply { code: 200, body: b }
}

/// The reply to `POST /restart` (the caller exits shortly after sending it).
pub fn restart_reply() -> (r: ApiReply)
    ensures
        r.code == 200,
        r.body@ == "{\"status\":\"ok\",\"message\":\"Restarting - daemon will be back within ~10 seconds\"}"@,
{
    text_reply(200, "{\"status\":\"ok\",\"message\":\"Restarting - daemon will be back within ~10 seconds\"}")
}

/// The reason `POST /verify_trust` records: the body's `reason`, else "API request".
pub open spec fn verify_reason(req: Seq<char>) -> Seq<char> {
    match request_body_param_spec(req, "reason"@) {
        Some(r) => r,
        None => "API request"@,
    }
}

/// `POST /verify_trust`: restores trust to 100 with the posted reason and
/// publishes the new level.
pub fn verify_trust_reply(state: &mut DaemonState, trust: &mut TrustLevel, request: &str) -> (r: ApiReply)
    ensures
        records_event(*old(trust), *final(trust), 100,
            manual_reason(verify_reason(request@), "dashboard-user"@), 0, TrustEventType::ManualVerify),
        *final(state) == (DaemonState { trust_level: 100, ..*old(state) }),
        r.code == 200,
        r.body@ == "{\"status\":\"ok\",\"trust_level\":"@ + decimal(100) + "}"@,
{
    let reason = match parse_request_body(request, "reason") {
        Some(r) => r,
        None => String::from_str("API request"),
    };
    manual_verify_with_reason(trust, reason.as_str(), "dashboard-user");
    set_trust_level(state, trust.score);
    let level = get_trust_level(state, trust);
    let mut b = String::from_str("{\"status\":\"ok\",\"trust_level\":");
    let n = decimal_string(level as u64);
    append(&mut b, n.as_str());
    append(&mut b, "}");
    ApiReply { code: 200, body: b }
}

// ============================================
// APPROVALS AND RESETS
// ============================================

/// The entry records `category` as waiting for approval.
pub open spec fn is_pending(e: TimelineEntry, category: Seq<char>) -> bool {
    e.category@ == category && e.action@ == "pending_approval"@ && e.result == RepairResult::AwaitingApproval
}

/// Whether some timeline entry holds `category` as pending approval.
pub fn check_pending_approval(entries: &[TimelineEntry], category: &str) -> (b: bool)
    ensures
        b == exists|i: int| 0 <= i < entries@.len() && is_pending(#[trigger] entries@[i], category@),
{
    let mut i: usize = 0;
    while i < entries.len()
        invariant
            i <= entries@.len(),
            forall|j: int| 0 <= j < i ==> !is_pending(#[trigger] entries@[j], category@),
        decreases entries@.len() - i,
    {
        let e = &entries[i];
        if crate::text::str_eq(e.category.as_str(), category) && crate::text::str_eq(e.action.as_str(), "pending_approval")
            && e.result == RepairResult::AwaitingApproval {
            return true;
        }
        i = i + 1;
    }
    false
}

/// The category named by `POST /approve?category=...` (empty when absent).
pub open spec fn approve_category(req: Seq<char>) -> Seq<char> {
    match query_param_spec(req, "category"@) {
        Some(c) => c,
        None => Seq::empty(),
    }
}

/// Checks an approval request: the category to repair, or the refusal.
pub fn approval_request(request: &str, entries: &[TimelineEntry]) -> (r: Result<String, ApiReply>)
    ensures
        approve_category(request@).len() == 0 ==> (r matches Err(reply) && reply.code == 400
            && reply.body@ == "{\"error\":\"Category parameter required\"}"@),
        approve_category(request@).len() > 0
            && !(exists|i: int| 0 <= i < entries@.len() && is_pending(#[trigger] entries@[i], approve_category(request@)))
            ==> (r matches Err(reply) && reply.code == 400 && reply.body@
                == "{\"error\":\"Category '"@ + json_escaped(approve_category(request@)) + "' is not pending approval\"}"@),
        approve_category(request@).len() > 0
            && (exists|i: int| 0 <= i < entries@.len() && is_pending(#[trigger] entries@[i], approve_category(request@)))
            ==> (r matches Ok(c) && c@ == approve_category(request@)),
{
    let category = match parse_query_param(request, "category") {
        Some(c) => c,
        None => String::new(),
    };
    if category.as_str().is_empty() {
        return Err(text_reply(400, "{\"error\":\"Category parameter required\"}"));
    }
    if !check_pending_approval(entries, category.as_str()) {
        let mut b = String::from_str("{\"error\":\"Category '");
        let e = json_escape(category.as_str());
        append(&mut b, e.as_str());
        append(&mut b, "' is not pending approval\"}");
        return Err(ApiReply { code: 400, body: b });
    }
    Ok(category)
}

/// `POST /reset` once the caller tried to store `snapshot` as the new
/// baseline: on success the snapshot is scored against itself and published.
pub fn reset_reply(
    state: &mut DaemonState,
    snapshot: &SystemState,
    saved: Result<(), String>,
    weights: &IntegrityWeights,
    context: &Context,
) -> (r: ApiReply)
    ensures
        match saved {
            Ok(_) => {
                &&& final(state).integrity_report is Some
                &&& report_for(final(state).integrity_report->0@,
                    change_pairs(spec_all_changes(snapshot@, snapshot@)), false, true, *weights, *context)
                &&& final(state).trust_level == old(state).trust_level
                &&& publishes_only(*old(state), *final(state))
                &&& r.code == 200
                &&& r.body@ == "{\"status\":\"ok\",\"message\":\"Baseline reset and recreated\"}"@
            },
            Err(e) => {
                &&& *final(state) == *old(state)
                &&& r.code == 500
                &&& r.body@ == "{\"error\":\"Failed to create baseline: "@ + json_escaped(e@) + "\"}"@
            },
        },
{
    match saved {
        Ok(_) => {
            let issues = detect_all_changes(snapshot, snapshot);
            let pairs = issue_pairs(&issues);
            let report = calculate(pairs.as_slice(), false, true, weights, context);
            set_integrity_report(state, report);
            text_reply(200, "{\"status\":\"ok\",\"message\":\"Baseline reset and recreated\"}")
        },
        Err(e) => {
            let mut b = String::from_str("{\"error\":\"Failed to create baseline: ");
            let esc = json_escape(e.as_str());
            append(&mut b, esc.as_str());
            append(&mut b, "\"}");
            ApiReply { code: 500, body: b }
        },
    }
}

// ============================================
// TOKEN HANDLING
// ============================================

/// Tokens are rotated after this many reuses.
pub const TOKEN_ROTATE_AFTER: u64 = 100;

/// The reuse counter stored beside the token (0 when missing or unreadable).
pub open spec fn token_counter_spec(file: Option<Seq<char>>) -> u64 {
    match file {
        Some(t) => match crate::baseline::spec_parse_u64(trimmed(t)) {
            Some(n) => n,
            None => 0,
        },
        None => 0,
    }
}

/// What to do about the API token at startup.
pub enum TokenStep {
    /// Generate and store a new token and reset the counter to "0".
    Rotate,
    /// Use the stored token if it can be read, storing this counter text;
    /// otherwise generate one and store the counter "1".
    Reuse { next_counter: String },
}

/// `n` in lowercase hex without leading zeros, as `{:x}` prints it.
pub open spec fn hex_number(n: nat) -> Seq<char>
    decreases n,
{
    if n < 16 {
        seq![crate::crypto::hex_digit(n as int)]
    } else {
        hex_number(n / 16).push(crate::crypto::hex_digit((n % 16) as int))
    }
}

fn hex_digit_char(d: u128) -> (c: char)
    requires
        d < 16,
    ensures
        c == crate::crypto::hex_digit(d as int),
{
    let b = d as u8;
    if b < 10 { (48u8 + b) as char } else { (87u8 + b) as char }
}

fn hex_number_string(n: u128) -> (s: String)
    ensures
        s@ == hex_number(n as nat),
    decreases n,
{
    if n < 16 {
        let mut s = String::new();
        push_char(&mut s, hex_digit_char(n));
        proof {
            assert(s@ =~= hex_number(n as nat));
        }
        s
    } else {
        let mut s = hex_number_string(n / 16);
        push_char(&mut s, hex_digit_char(n % 16));
        s
    }
}

/// The token text for two draws: each in lowercase hex without leading
/// zeros, one after the other.
pub fn token_text(a: u128, b: u128) -> (t: String)
    ensures
        t@ == hex_number(a as nat) + hex_number(b as nat),
{
    let mut t = hex_number_string(a);
    let tail = hex_number_string(b);
    append(&mut t, tail.as_str());
    t
}

/// `rand::random::<u128>()`: a random number; nothing is known of which.
#[verifier::external_body]
fn random_u128() -> (n: u128) {
    rand::random::<u128>()
}

/// A fresh API token: two random 128-bit draws written by `token_text`.
pub fn new_token() -> (t: String)
    ensures
        exists|a: u128, b: u128| #![trigger hex_number(a as nat), hex_number(b as nat)] t@ == hex_number(a as nat) + hex_number(b as nat),
{
    let a = random_u128();
    let b = random_u128();
    token_text(a, b)
}

/// Decides between rotating the token and reusing the stored one.
pub fn token_step(counter_file: Option<String>) -> (s: TokenStep)
    ensures
        ({
            let n = token_counter_spec(match counter_file { Some(t) => Some(t@), None => None });
            &&& n >= TOKEN_ROTATE_AFTER ==> s is Rotate
            &&& n < TOKEN_ROTATE_AFTER ==> (s matches TokenStep::Reuse { next_counter } && next_counter@ == decimal((n + 1) as nat))
        }),
{
    let n: u64 = match &counter_file {
        Some(t) => {
            let tt = trim(t.as_str());
            match crate::baseline::parse_u64(tt.as_str()) {
                Some(n) => n,
                None => 0,
            }
        },
        None => 0,
    };
    if n >= TOKEN_ROTATE_AFTER {
        TokenStep::Rotate
    } else {
        TokenStep::Reuse { next_counter: decimal_string(n + 1) }
    }
}

/// A stored token as it is served: without surrounding whitespace.
pub fn stored_token(decrypted: &str) -> (t: String)
    ensures
        t@ == trimmed(decrypted@),
{
    trim(decrypted)
}

/// The `icacls` arguments that restrict the token file to SYSTEM and
/// Administrators, removing broad groups and the signed-in user.
pub fn token_acl_args(path: &str, username: &str) -> (args: Vec<String>)
    ensures
        username@.len() == 0 ==> crate::text::views(args@) == seq![
            path@, "/inheritance:r"@, "/grant:r"@, "SYSTEM:F"@, "/grant:r"@, "Administrators:F"@,
            "/remove"@, "Users"@, "/remove"@, "Everyone"@,
        ],
        username@.len() > 0 ==> crate::text::views(args@) == seq![
            path@, "/inheritance:r"@, "/grant:r"@, "SYSTEM:F"@, "/grant:r"@, "Administrators:F"@,
            "/remove"@, "Users"@, "/remove"@, "Everyone"@, "/remove"@, username@,
        ],
{
    let mut args: Vec<String> = Vec::new();
    args.push(path.to_owned());
    args.push(String::from_str("/inheritance:r"));
    args.push(String::from_str("/grant:r"));
    args.push(String::from_str("SYSTEM:F"));
    args.push(String::from_str("/grant:r"));
    args.push(String::from_str("Administrators:F"));
    args.push(String::from_str("/remove"));
    args.push(String::from_str("Users"));
    args.push(String::from_str("/remove"));
    args.push(String::from_str("Everyone"));
    if !username.is_empty() {
        args.push(String::from_str("/remove"));
        args.push(username.to_owned());
    }
    proof {
        if username@.len() == 0 {
            assert(crate::text::views(args@) =~= seq![
                path@, "/inheritance:r"@, "/grant:r"@, "SYSTEM:F"@, "/grant:r"@, "Administrators:F"@,
                "/remove"@, "Users"@, "/remove"@, "Everyone"@,
            ]);
        } else {
            assert(crate::text::views(args@) =~= seq![
                path@, "/inheritance:r"@, "/grant:r"@, "SYSTEM:F"@, "/grant:r"@, "Administrators:F"@,
                "/remove"@, "Users"@, "/remove"@, "Everyone"@, "/remove"@, username@,
            ]);
        }
    }
    args
}

/// Browsers trusted to fetch the token, matched by executable file name.
pub open spec fn browser_suffixes() -> Seq<Seq<char>> {
    seq!["\\chrome.exe"@, "\\msedge.exe"@, "\\firefox.exe"@, "\\brave.exe"@, "\\opera.exe"@, "\\iexplore.exe"@]
}

/// Whether the process on the other end of a token request may have the
/// token: our own tray binary at its exact expected path, or a browser.
/// Paths are compared without regard to case.
pub open spec fn trusted_caller_spec(caller_path: Option<Seq<char>>, expected_tray: Option<Seq<char>>) -> bool {
    match caller_path {
        None => false,
        Some(p) => {
            let lower = lowercased(p);
            (match expected_tray {
                Some(t) => lower == lowercased(t),
                None => false,
            }) || exists|i: int| 0 <= i < browser_suffixes().len() && ends_with(lower, browser_suffixes()[i])
        },
    }
}

/// Decides whether a token request comes from a trusted process, given the
/// caller's executable path (if it could be resolved) and the expected path
/// of the tray binary (if the daemon's own location is known).
pub fn is_trusted_token_caller(caller_path: Option<String>, expected_tray: Option<String>) -> (ok: bool)
    ensures
        ok == trusted_caller_spec(
            match caller_path { Some(p) => Some(p@), None => None },
            match expected_tray { Some(t) => Some(t@), None => None },
        ),
{
    let path = match &caller_path {
        Some(p) => p,
        None => return false,
    };
    let lower = to_lowercase(path.as_str());
    match &expected_tray {
        Some(t) => {
            let lt = to_lowercase(t.as_str());
            if crate::text::str_eq(lower.as_str(), lt.as_str()) {
                return true;
            }
        },
        None => {},
    }
    let suffixes = vec![
        String::from_str("\\chrome.exe"),
        String::from_str("\\msedge.exe"),
        String::from_str("\\firefox.exe"),
        String::from_str("\\brave.exe"),
        String::from_str("\\opera.exe"),
        String::from_str("\\iexplore.exe"),
    ];
    proof {
        assert(crate::text::views(suffixes@) =~= browser_suffixes());
    }
    let mut i: usize = 0;
    while i < suffixes.len()
        invariant
            i <= suffixes@.len(),
            crate::text::views(suffixes@) == browser_suffixes(),
            lower@ == lowercased(path@),
            caller_path matches Some(p) && p@ == path@,
            forall|j: int| 0 <= j < i ==> !ends_with(lower@, browser_suffixes()[j]),
            !(match expected_tray { Some(t) => lower@ == lowercased(t@), None => false }),
        decreases suffixes@.len() - i,
    {
        proof {
            assert(crate::text::views(suffixes@)[i as int] == suffixes@[i as int]@);
        }
        if str_ends_with(lower.as_str(), suffixes[i].as_str()) {
            proof {
                assert(ends_with(lower@, browser_suffixes()[i as int]));
            }
            return true;
        }
        i = i + 1;
    }
    false
}

/// The PowerShell script that resolves the executable of the process holding
/// the loopback connection from `peer_port` to the API port.
pub fn caller_lookup_script(peer_port: u16) -> (s: String)
    ensures
        s@ == "$c = Get-NetTCPConnection -LocalPort 12790 -RemotePort "@ + decimal(peer_port as nat)
            + " -State Established -ErrorAction SilentlyContinue | Select-Object -First 1; if ($c) { (Get-Process -Id $c.OwningProcess -ErrorAction SilentlyContinue).Path }"@,
{
    let mut s = String::from_str("$c = Get-NetTCPConnection -LocalPort 12790 -RemotePort ");
    let p = decimal_string(peer_port as u64);
    append(&mut s, p.as_str());
    append(&mut s, " -State Established -ErrorAction SilentlyContinue | Select-Object -First 1; if ($c) { (Get-Process -Id $c.OwningProcess -ErrorAction SilentlyContinue).Path }");
    s
}

// ============================================
// ROLLBACK SUMMARY
// ============================================

/// What restoring the hosts file gave.
#[derive(Debug, Clone, Copy, PartialEq, Eq, Structural)]
pub enum HostsRestore {
    Restored,
    Failed,
    NoBackup,
}

pub open spec fn hosts_line(h: HostsRestore) -> Seq<char> {
    match h {
        HostsRestore::Restored => "Hosts file restored"@,
        HostsRestore::Failed => "Hosts restore failed: permission denied or file in use"@,
        HostsRestore::NoBackup => "No hosts backup found"@,
    }
}

pub open spec fn step_line(ok: bool, good: Seq<char>, bad: Seq<char>) -> Seq<char> {
    if ok { good } else { bad }
}

/// The rollback report: one line per step, joined by "; ". `ghost` is what
/// removing the Ghost Mode rules gave, when Ghost Mode was active.
pub open spec fn rollback_text(
    hosts: HostsRestore, firewall_ok: bool, proxy_ok: bool, dns_ok: bool, defender_ok: bool, ghost: Option<bool>,
) -> Seq<char> {
    let base = hosts_line(hosts) + "; "@
        + step_line(firewall_ok, "Firewall reset to default"@, "Firewall reset FAILED"@) + "; "@
        + step_line(proxy_ok, "Proxy removed"@, "Proxy removal FAILED"@) + "; "@
        + step_line(dns_ok, "DNS reset to DHCP (active adapter)"@, "DNS reset FAILED"@) + "; "@
        + step_line(defender_ok, "Defender re-enabled"@, "Defender re-enable FAILED"@);
    match ghost {
        Some(ok) => base + "; "@ + step_line(ok, "Ghost Mode disabled"@,
            "Ghost Mode firewall rules FAILED to remove (flag cleared anyway)"@),
        None => base,
    }
}

/// Writes the rollback report; a rollback that ran the Ghost Mode step also
/// clears Ghost Mode in the published state.
pub fn rollback_changes(
    state: &mut DaemonState,
    hosts: HostsRestore,
    firewall_ok: bool,
    proxy_ok: bool,
    dns_ok: bool,
    defender_ok: bool,
    ghost: Option<bool>,
) -> (r: String)
    ensures
        r@ == rollback_text(hosts, firewall_ok, proxy_ok, dns_ok, defender_ok, ghost),
        ghost is Some ==> *final(state) == (DaemonState { ghost_active: false, ..*old(state) }),
        ghost is None ==> *final(state) == *old(state),
{
    let mut r = match hosts {
        HostsRestore::Restored => String::from_str("Hosts file restored"),
        HostsRestore::Failed => String::from_str("Hosts restore failed: permission denied or file in use"),
        HostsRestore::NoBackup => String::from_str("No hosts backup found"),
    };
    append(&mut r, "; ");
    append(&mut r, if firewall_ok { "Firewall reset to default" } else { "Firewall reset FAILED" });
    append(&mut r, "; ");
    append(&mut r, if proxy_ok { "Proxy removed" } else { "Proxy removal FAILED" });
    append(&mut r, "; ");
    append(&mut r, if dns_ok { "DNS reset to DHCP (active adapter)" } else { "DNS reset FAILED" });
    append(&mut r, "; ");
    append(&mut r, if defender_ok { "Defender re-enabled" } else { "Defender re-enable FAILED" });
    match ghost {
        Some(ok) => {
            set_ghost_active(state, false);
            append(&mut r, "; ");
            append(&mut r, if ok { "Ghost Mode disabled" } else { "Ghost Mode firewall rules FAILED to remove (flag cleared anyway)" });
        },
        None => {},
    }
    r
}

// ============================================
// LAWS
// ============================================

/// A request without a valid token never reaches a protected endpoint: for
/// every method but a preflight, every path outside the open ones routes to
/// the refusal.
pub proof fn law_protected_paths_need_token(method: Seq<char>, path: Seq<char>)
    requires
        method != "OPTIONS"@,
        !is_open_path(path),
    ensures
        route_spec(method, path, false) == Route::Unauthorized,
{
}

/// HTML-escaped text holds no angle brackets, so it cannot open a tag.
pub proof fn law_html_escape_removes_markup(s: Seq<char>)
    ensures
        !html_escaped(s).contains('<'),
        !html_escaped(s).contains('>'),
    decreases s.len(),
{
    if s.len() > 0 {
        law_html_escape_removes_markup(s.drop_last());
        let a = html_escaped(s.drop_last());
        let b = html_escape_char(s.last());
        assert(!b.contains('<') && !b.contains('>')) by {
            if b.contains('<') {
                let k = choose|k: int| 0 <= k < b.len() && b[k] == '<';
            }
            if b.contains('>') {
                let k = choose|k: int| 0 <= k < b.len() && b[k] == '>';
            }
        }
        assert forall|k: int| 0 <= k < (a + b).len() implies (a + b)[k] != '<' && (a + b)[k] != '>' by {
            if k < a.len() {
                assert((a + b)[k] == a[k]);
            } else {
                assert((a + b)[k] == b[k - a.len()]);
            }
        }
    }
}

/// A freshly reset baseline is scored against itself: the published report
/// has score 100, state Maintained and no deductions.
pub proof fn law_reset_scores_full(r: crate::integrity::ReportView, snapshot: crate::state::StateView, w: IntegrityWeights, ctx: Context)
    requires
        report_for(r, change_pairs(spec_all_changes(snapshot, snapshot)), false, true, w, ctx),
    ensures
        r.score == 100,
        r.state == IntegrityState::Maintained,
        r.deductions.len() == 0,
{
    crate::behavior::law_unchanged_system_has_no_drift(snapshot);
    assert(change_pairs(spec_all_changes(snapshot, snapshot)) =~= Seq::empty());
    crate::integrity::law_no_issues_full_score(r, w, ctx);
}

} // verus!

use invisibly::server::{
    DaemonState, ApiReply, Route, HostsRestore, TokenStep, json_response, html_response, status_string,
    unauthorized, rate_limited, parse_query_param, parse_request_body, parse_home_ssid, json_escape,
    html_escape, build_consent_html, validate_auth, parse_request, route_request, render_reply,
    preflight_response, root_reply, status_reply, token_reply, error_reply, ok_message_reply, dashboard_page,
    consent_recorded, no_report_reply, not_found_reply, ghost_reply, unghost_reply, home_reply, enable_reply,
    folders_reply, restart_reply, verify_trust_reply, check_pending_approval, approval_request, reset_reply,
    token_step, stored_token, token_acl_args, is_trusted_token_caller, caller_lookup_script, rollback_changes,
    set_trust_state, get_trust_state, set_ghost_active, is_ghost_active, set_awaiting_consent,
    is_awaiting_consent, set_ts2_enabled, is_ts2_enabled, set_ransomware_alert, is_ransomware_alert,
    set_integrity_report, get_integrity_report, set_elevated, is_elevated, set_tamper_detected,
    is_tamper_detected, set_trust_level, get_trust_level, cors_headers, cors_allowed_origin, security_headers,
    integrity_state_name, token_text, new_token, auth_matches,
};
use invisibly::integrity::{calculate, Context, IntegrityWeights, IntegrityState};
use invisibly::timeline::{TimelineEntry, RepairResult};
use invisibly::trust::TrustLevel;
use invisibly::state::SystemState;

fn trust(score: u8) -> TrustLevel {
    let mut t = TrustLevel::default();
    t.score = score;
    t
}

fn blank_state() -> SystemState {
    SystemState {
        dns_servers: vec![], hosts_hash: String::new(), arp_table: vec![], wifi_ssid: String::new(),
        proxy_settings: vec![], network_devices: vec![], network_adapters: vec![], listening_ports: vec![],
        startup_entries: vec![], firewall_profiles: vec![], scheduled_tasks: vec![], services_list: vec![],
        defender_status: String::new(), secure_boot: String::new(), login_failures: String::new(),
        suspicious_processes: vec![], root_cas: vec![], bt_devices: vec![], hid_devices: vec![],
        installed_software: vec![], fake_extensions: vec![], unicode_bidi_files: vec![], homoglyph_domains: vec![],
        uac_status: String::new(), windows_update_status: String::new(), system_restore_status: String::new(),
        event_log_status: String::new(), smart_screen_status: String::new(), vpn_status: String::new(),
        ipv6_status: String::new(), wifi_profile_status: String::new(), doh_status: String::new(),
        laps_status: String::new(), dhcp_server: String::new(), bitlocker_status: String::new(),
        credential_guard_status: String::new(), rdp_status: String::new(),
    }
}

fn entry(cat: &str, action: &str, result: RepairResult) -> TimelineEntry {
    TimelineEntry {
        id: 1, timestamp: "t".to_string(), monotonic_counter: 1, category: cat.to_string(),
        action: action.to_string(), before: String::new(), after: String::new(), result,
        previous_hash: "0".to_string(), hash: "0123456789abcdef0123".to_string(),
    }
}

const CORS: &str = "Access-Control-Allow-Origin: http://127.0.0.1:12790\r\nAccess-Control-Allow-Methods: GET, POST, OPTIONS\r\nAccess-Control-Allow-Headers: Content-Type, Authorization\r\n";
const SEC: &str = "X-Frame-Options: DENY\r\nContent-Security-Policy: default-src 'self'; script-src 'self' 'unsafe-inline'; style-src 'self' 'unsafe-inline'; frame-ancestors 'none'; object-src 'none'; base-uri 'self'; form-action 'self'\r\nX-Content-Type-Options: nosniff\r\n";

#[test]
fn daemon_state_starts_trusted_and_awaiting_consent() {
    let s = DaemonState::new();
    assert_eq!(get_trust_state(&s), "Trusted");
    assert!(!is_ghost_active(&s));
    assert!(is_awaiting_consent(&s));
    assert!(is_ts2_enabled(&s));
    assert!(!is_ransomware_alert(&s));
    assert!(get_integrity_report(&s).is_none());
    assert!(is_elevated(&s));
    assert!(!is_tamper_detected(&s));
    assert_eq!(s.trust_level, 100);
}

#[test]
fn setters_change_one_flag_each() {
    let mut s = DaemonState::new();
    set_trust_state(&mut s, "Ghost");
    set_ghost_active(&mut s, true);
    set_awaiting_consent(&mut s, false);
    set_ts2_enabled(&mut s, false);
    set_ransomware_alert(&mut s, true);
    set_elevated(&mut s, false);
    set_tamper_detected(&mut s, true);
    assert_eq!(get_trust_state(&s), "Ghost");
    assert!(is_ghost_active(&s) && !is_awaiting_consent(&s) && !is_ts2_enabled(&s));
    assert!(is_ransomware_alert(&s) && !is_elevated(&s) && is_tamper_detected(&s));
}

#[test]
fn trust_level_zero_falls_back_to_live_score() {
    let mut s = DaemonState::new();
    set_trust_level(&mut s, 0);
    assert_eq!(get_trust_level(&s, &trust(42)), 42);
    set_trust_level(&mut s, 77);
    assert_eq!(get_trust_level(&s, &trust(42)), 77);
}

#[test]
fn published_report_is_copied_back() {
    let mut s = DaemonState::new();
    let issues = vec![("dns".to_string(), "DNS changed".to_string())];
    let ctx = Context { is_public_wifi: false, is_vpn_connected: false, is_home_network: false };
    let r = calculate(&issues, false, true, &IntegrityWeights::default(), &ctx);
    set_integrity_report(&mut s, r);
    let back = get_integrity_report(&s).unwrap();
    assert_eq!(back.score, 88);
    assert_eq!(back.state, IntegrityState::DriftDetected);
    assert_eq!(back.deductions.len(), 1);
}

#[test]
fn json_response_frames_body_with_byte_length() {
    let r = json_response(200, "{\"a\":\"é\"}");
    let expected = format!("HTTP/1.1 200 OK\r\n{}{}Content-Type: application/json\r\nContent-Length: 10\r\n\r\n{{\"a\":\"é\"}}", CORS, SEC);
    assert_eq!(r, expected);
    assert_eq!(cors_headers(), CORS);
    assert_eq!(security_headers(), SEC);
    assert_eq!(cors_allowed_origin(), "http://127.0.0.1:12790");
}

#[test]
fn html_response_is_uncached() {
    let r = html_response("<p>x</p>");
    let expected = format!("HTTP/1.1 200 OK\r\n{}{}Content-Type: text/html\r\nCache-Control: no-cache, no-store, must-revalidate\r\nPragma: no-cache\r\nExpires: 0\r\nContent-Length: 8\r\n\r\n<p>x</p>", CORS, SEC);
    assert_eq!(r, expected);
}

#[test]
fn status_codes_read_as_text() {
    assert_eq!(status_string(200), "200 OK");
    assert_eq!(status_string(400), "400 Bad Request");
    assert_eq!(status_string(403), "403 Forbidden");
    assert_eq!(status_string(404), "404 Not Found");
    assert_eq!(status_string(429), "429 Too Many Requests");
    assert_eq!(status_string(500), "500 Internal Server Error");
    assert_eq!(status_string(402), "500 Internal Server Error");
}

#[test]
fn refusals_are_json() {
    assert!(unauthorized().starts_with("HTTP/1.1 403 Forbidden\r\n"));
    assert!(unauthorized().ends_with("Content-Length: 40\r\n\r\n{\"error\":\"Unauthorized - Invalid token\"}"));
    assert!(rate_limited().starts_with("HTTP/1.1 429 Too Many Requests\r\n"));
    assert!(rate_limited().ends_with("Content-Length: 43\r\n\r\n{\"error\":\"Too many concurrent connections\"}"));
}

#[test]
fn query_param_is_trimmed_and_cut_at_separators() {
    let req = "GET /timeline?format=markdown&x=1 HTTP/1.1\r\n";
    assert_eq!(parse_query_param(req, "format"), Some("markdown".to_string()));
    assert_eq!(parse_query_param("POST /approve?category=dns HTTP/1.1", "category"), Some("dns".to_string()));
    assert_eq!(parse_query_param("GET /x?format= HTTP/1.1", "format"), None);
    assert_eq!(parse_query_param("GET /x HTTP/1.1", "format"), None);
}

#[test]
fn body_param_from_form_and_json() {
    let form = "POST /verify_trust HTTP/1.1\r\nHost: x\r\n\r\nreason=checked by me&x=1";
    assert_eq!(parse_request_body(form, "reason"), Some("checked by me".to_string()));
    let json = "POST /verify_trust HTTP/1.1\r\n\r\n{\"reason\":\"fine\"}";
    assert_eq!(parse_request_body(json, "reason"), Some(String::new()));
    assert_eq!(parse_request_body("POST / HTTP/1.1\r\nHost: x", "reason"), None);
    assert_eq!(parse_request_body("POST / HTTP/1.1\r\n\r\nother=1", "reason"), None);
}

#[test]
fn home_ssid_is_validated() {
    assert_eq!(parse_home_ssid("POST /home HTTP/1.1\r\n\r\nssid=  MyNet &x"), "MyNet");
    assert_eq!(parse_home_ssid("POST /home HTTP/1.1\r\n\r\nssid="), "");
    let long = format!("ssid={}", "a".repeat(64));
    assert_eq!(parse_home_ssid(&long), "");
    let ok = format!("ssid={}", "a".repeat(63));
    assert_eq!(parse_home_ssid(&ok), "a".repeat(63));
    let wide = format!("ssid={}", "é".repeat(32));
    assert_eq!(parse_home_ssid(&wide), "");
    assert_eq!(parse_home_ssid("no ssid here"), "");
}

#[test]
fn escapes() {
    assert_eq!(json_escape("a\"b\\c\nd\re\tf"), "a\\\"b\\\\c\\nd\\re\\tf");
    assert_eq!(html_escape("<a & b>"), "&lt;a &amp; b&gt;");
    assert!(!html_escape("<<>>").contains('<'));
}

#[test]
fn consent_page_embeds_escaped_texts() {
    let page = build_consent_html("<div>__PRIVACY_POLICY_TEXT__</div><pre>__LICENSE_TEXT__</pre>", "a<b", "c&d");
    assert_eq!(page, "<div>a&lt;b</div><pre>c&amp;d</pre>");
}

#[test]
fn auth_is_case_insensitive_bearer_or_token() {
    assert!(validate_auth("Bearer AbC", "abc"));
    assert!(validate_auth("token ABC", "abc"));
    assert!(!validate_auth("Basic abc", "abc"));
}

#[test]
fn request_parts() {
    let req = "GET /timeline?format=json HTTP/1.1\r\nHost: x\r\nAuthorization: Bearer tok\r\n\r\n";
    let (m, p, a) = parse_request(req);
    assert_eq!((m.as_str(), p.as_str(), a.as_str()), ("GET", "/timeline", "Bearer tok"));
    let (m, p, a) = parse_request("");
    assert_eq!((m.as_str(), p.as_str(), a.as_str()), ("GET", "/", ""));
    let (m, p, a) = parse_request("POST");
    assert_eq!((m.as_str(), p.as_str(), a.as_str()), ("POST", "/", ""));
}

#[test]
fn routing_checks_token_except_open_paths() {
    assert_eq!(route_request("OPTIONS", "/status", "", "t"), Route::Preflight);
    assert_eq!(route_request("GET", "/status", "", "t"), Route::Unauthorized);
    assert_eq!(route_request("GET", "/status", "Bearer t", "t"), Route::Status);
    assert_eq!(route_request("GET", "/", "", "t"), Route::Root);
    assert_eq!(route_request("GET", "/token", "", "t"), Route::Token);
    assert_eq!(route_request("POST", "/accept_consent", "", "t"), Route::AcceptConsent);
    assert_eq!(route_request("POST", "/", "", "t"), Route::NotFound);
    assert_eq!(route_request("POST", "/ghost", "Bearer t", "t"), Route::GhostOn);
    assert_eq!(route_request("POST", "/unghost", "Bearer t", "t"), Route::GhostOff);
    assert_eq!(route_request("GET", "/watched-folders", "Bearer t", "t"), Route::WatchedFolders);
    assert_eq!(route_request("POST", "/approve", "Bearer t", "t"), Route::Approve);
    assert_eq!(route_request("GET", "/nope", "Bearer t", "t"), Route::NotFound);
}

#[test]
fn replies_render_as_json() {
    let r = render_reply(&ApiReply { code: 404, body: "{}".to_string() });
    assert!(r.starts_with("HTTP/1.1 404 Not Found\r\n") && r.ends_with("Content-Length: 2\r\n\r\n{}"));
    assert_eq!(preflight_response(), format!("HTTP/1.1 200 OK\r\n{}Content-Length: 0\r\n\r\n", CORS));
}

#[test]
fn root_and_status_bodies() {
    let s = DaemonState::new();
    let r = root_reply(&s, &trust(90), true);
    assert_eq!(r.code, 200);
    assert_eq!(r.body, "{\"status\":\"ok\",\"trust_state\":\"Trusted\",\"ghost\":false,\"enabled\":true,\"integrity_score\":0,\"integrity_state\":\"Unknown\",\"trust_level\":100,\"elevated\":true,\"tamper_detected\":false,\"ransomware_alert\":false,\"awaiting_consent\":true,\"is_pro\":true}");
    let st = status_reply(&s, &trust(90), false);
    assert_eq!(st.body, "{\"trust_state\":\"Trusted\",\"ghost\":false,\"enabled\":true,\"integrity_score\":0,\"trust_level\":100,\"elevated\":true,\"tamper_detected\":false,\"ransomware_alert\":false,\"is_pro\":false}");
    assert_eq!(integrity_state_name(IntegrityState::DriftDetected), "DriftDetected");
}

#[test]
fn simple_replies() {
    assert_eq!(token_reply("abc").body, "{\"token\":\"abc\"}");
    let e = error_reply(500, "disk full");
    assert_eq!((e.code, e.body.as_str()), (500, "{\"error\":\"disk full\"}"));
    assert_eq!(ok_message_reply("a \"b\"").body, "{\"status\":\"ok\",\"message\":\"a \\\"b\\\"\"}");
    assert_eq!(no_report_reply().code, 404);
    assert_eq!(not_found_reply().body, "{\"error\":\"Not found\"}");
    assert_eq!(restart_reply().body, "{\"status\":\"ok\",\"message\":\"Restarting - daemon will be back within ~10 seconds\"}");
}

#[test]
fn dashboard_serves_consent_until_accepted() {
    let mut s = DaemonState::new();
    assert!(dashboard_page(&s, "CONSENT", "DASH").ends_with("\r\n\r\nCONSENT"));
    let r = consent_recorded(&mut s);
    assert_eq!(r.body, "{\"status\":\"ok\"}");
    assert!(dashboard_page(&s, "CONSENT", "DASH").ends_with("\r\n\r\nDASH"));
}

#[test]
fn ghost_on_requires_pro_and_success() {
    let mut s = DaemonState::new();
    let r = ghost_reply(&mut s, false, true);
    assert_eq!(r.code, 402);
    assert!(!s.ghost_active);
    let r = ghost_reply(&mut s, true, false);
    assert_eq!(r.code, 500);
    let r = ghost_reply(&mut s, true, true);
    assert_eq!(r.code, 200);
    assert!(s.ghost_active);
    assert_eq!(s.trust_state, "Ghost");
    let r = unghost_reply(&mut s, true);
    assert_eq!(r.body, "{\"status\":\"ok\",\"message\":\"Ghost Mode disabled\"}");
    assert!(!s.ghost_active);
    assert_eq!(s.trust_state, "Trusted");
    assert_eq!(unghost_reply(&mut s, false).code, 500);
}

#[test]
fn home_enable_folders() {
    assert_eq!(home_reply("Net\"1").body, "{\"status\":\"ok\",\"ssid\":\"Net\\\"1\"}");
    assert_eq!(home_reply("").code, 400);
    let mut s = DaemonState::new();
    assert_eq!(enable_reply(&mut s, false).body, "{\"status\":\"ok\",\"message\":\"Invisibly disabled\"}");
    assert!(!s.ts2_enabled);
    assert_eq!(enable_reply(&mut s, true).body, "{\"status\":\"ok\",\"message\":\"Invisibly enabled\"}");
    let f = folders_reply(&vec!["C:\\Users\\a".to_string(), "D".to_string()]);
    assert_eq!(f.body, "{\"folders\":[\"C:\\\\Users\\\\a\",\"D\"]}");
    assert_eq!(folders_reply(&vec![]).body, "{\"folders\":[]}");
}

#[test]
fn verify_trust_restores_100() {
    let mut s = DaemonState::new();
    set_trust_level(&mut s, 30);
    let mut t = trust(30);
    let r = verify_trust_reply(&mut s, &mut t, "POST /verify_trust HTTP/1.1\r\n\r\nreason=reviewed");
    assert_eq!(r.body, "{\"status\":\"ok\",\"trust_level\":100}");
    assert_eq!(t.score, 100);
    assert_eq!(s.trust_level, 100);
    assert_eq!(t.history.last().unwrap().reason, "Manual verification: reviewed (authorized by: dashboard-user)");
    let mut t2 = trust(10);
    verify_trust_reply(&mut s, &mut t2, "POST /verify_trust HTTP/1.1\r\n\r\n");
    assert_eq!(t2.history.last().unwrap().reason, "Manual verification: API request (authorized by: dashboard-user)");
}

#[test]
fn approvals_need_a_pending_category() {
    let entries = vec![entry("dns", "pending_approval", RepairResult::AwaitingApproval), entry("rdp", "detected", RepairResult::AwaitingApproval)];
    assert!(check_pending_approval(&entries, "dns"));
    assert!(!check_pending_approval(&entries, "rdp"));
    match approval_request("POST /approve HTTP/1.1", &entries) {
        Err(r) => assert_eq!(r.body, "{\"error\":\"Category parameter required\"}"),
        Ok(_) => panic!("expected refusal"),
    }
    match approval_request("POST /approve?category=rdp HTTP/1.1", &entries) {
        Err(r) => assert_eq!(r.body, "{\"error\":\"Category 'rdp' is not pending approval\"}"),
        Ok(_) => panic!("expected refusal"),
    }
    match approval_request("POST /approve?category=dns HTTP/1.1", &entries) {
        Ok(c) => assert_eq!(c, "dns"),
        Err(_) => panic!("expected approval"),
    }
}

#[test]
fn reset_publishes_clean_report_or_reports_error() {
    let mut s = DaemonState::new();
    let ctx = Context { is_public_wifi: false, is_vpn_connected: false, is_home_network: false };
    let r = reset_reply(&mut s, &blank_state(), Ok(()), &IntegrityWeights::default(), &ctx);
    assert_eq!(r.code, 200);
    assert_eq!(s.integrity_report.as_ref().unwrap().score, 100);
    let mut s2 = DaemonState::new();
    let r = reset_reply(&mut s2, &blank_state(), Err("no \"key\"".to_string()), &IntegrityWeights::default(), &ctx);
    assert_eq!((r.code, r.body.as_str()), (500, "{\"error\":\"Failed to create baseline: no \\\"key\\\"\"}"));
    assert!(s2.integrity_report.is_none());
}

#[test]
fn token_rotation_and_acl() {
    assert!(matches!(token_step(Some(" 100 ".to_string())), TokenStep::Rotate));
    match token_step(Some("41".to_string())) {
        TokenStep::Reuse { next_counter } => assert_eq!(next_counter, "42"),
        TokenStep::Rotate => panic!("should reuse"),
    }
    match token_step(None) {
        TokenStep::Reuse { next_counter } => assert_eq!(next_counter, "1"),
        TokenStep::Rotate => panic!("should reuse"),
    }
    assert_eq!(stored_token(" abc\n"), "abc");
    assert_eq!(token_acl_args("f", "bob"), vec!["f", "/inheritance:r", "/grant:r", "SYSTEM:F", "/grant:r", "Administrators:F", "/remove", "Users", "/remove", "Everyone", "/remove", "bob"]);
    assert_eq!(token_acl_args("f", "").len(), 10);
}

#[test]
fn token_callers() {
    assert!(is_trusted_token_caller(Some("C:\\Apps\\CHROME.EXE".to_string()), None));
    assert!(is_trusted_token_caller(Some("C:\\X\\INVISIBLY-TRAY.EXE".to_string()), Some("c:\\x\\invisibly-tray.exe".to_string())));
    assert!(!is_trusted_token_caller(Some("C:\\Temp\\invisibly-tray.exe".to_string()), Some("C:\\X\\invisibly-tray.exe".to_string())));
    assert!(!is_trusted_token_caller(None, None));
    assert!(!is_trusted_token_caller(Some("C:\\powershell.exe".to_string()), None));
    assert!(caller_lookup_script(5000).contains("-RemotePort 5000 -State"));
}

#[test]
fn rollback_summary_lists_each_step() {
    let mut s = DaemonState::new();
    set_ghost_active(&mut s, true);
    let r = rollback_changes(&mut s, HostsRestore::NoBackup, true, false, true, true, Some(false));
    assert_eq!(r, "No hosts backup found; Firewall reset to default; Proxy removal FAILED; DNS reset to DHCP (active adapter); Defender re-enabled; Ghost Mode firewall rules FAILED to remove (flag cleared anyway)");
    assert!(!s.ghost_active);
    let r = rollback_changes(&mut s, HostsRestore::Restored, false, true, false, false, None);
    assert_eq!(r, "Hosts file restored; Firewall reset FAILED; Proxy removed; DNS reset FAILED; Defender re-enable FAILED");
}

#[test]
fn token_text_is_two_lowercase_hex_numbers() {
    assert_eq!(token_text(0, 255), "0ff");
    assert_eq!(token_text(0xab, 1), "ab1");
    assert_eq!(token_text(u128::MAX, 0), "ffffffffffffffffffffffffffffffff0");
}

#[test]
fn new_tokens_are_hex() {
    let t = new_token();
    assert!(t.len() >= 2 && t.len() <= 64);
    assert!(t.chars().all(|c| c.is_ascii_digit() || ('a'..='f').contains(&c)));
}

#[test]
fn auth_matches_bearer_or_token_prefix() {
    assert!(auth_matches("authorization: bearer abc", "abc"));
    assert!(auth_matches("x-invisibly-token: token abc", "abc"));
    assert!(!auth_matches("authorization: basic abc", "abc"));
    assert!(!auth_matches("authorization: bearer abd", "abc"));
}

#[test]
fn status_getters_read_the_last_write() {
    let mut st = DaemonState::new();
    set_ghost_active(&mut st, true);
    set_trust_state(&mut st, "Compromised");
    set_ghost_active(&mut st, false);
    set_trust_level(&mut st, 40);
    set_trust_state(&mut st, "Trusted");
    assert!(!is_ghost_active(&st));
    assert_eq!(get_trust_state(&st), "Trusted");
    assert!(is_awaiting_consent(&st));
    assert!(is_ts2_enabled(&st));
    assert!(!is_ransomware_alert(&st));
    assert!(is_elevated(&st));
    assert!(!is_tamper_detected(&st));
    assert!(get_integrity_report(&st).is_none());
    assert_eq!(get_trust_level(&st, &trust(70)), 40);
}

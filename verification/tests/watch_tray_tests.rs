use invisibly::watcher::{BurstDetector, counts_as_change, burst_details, FileEventKind, BURST_THRESHOLD};
use invisibly::tray::{
    status_display, get_pending_categories, approve_label, menu_action, DaemonStatus, IconColor, MenuAction,
    RelaunchWatch,
};
use invisibly::license::{LicenseStatus, is_pro_licensed, set_licensed, check_store_license, StoreLookup};
use invisibly::config::{
    load_home_ssid, load_watched_folders, watched_folders_text, default_folder_candidates, acl_hardening_args,
    acl_failure_entry,
};

fn s(v: &[&str]) -> Vec<String> {
    v.iter().map(|x| x.to_string()).collect()
}

#[test]
fn burst_of_twenty_changes_alerts_once_per_cooldown() {
    let mut d = BurstDetector::new();
    for i in 0..(BURST_THRESHOLD - 1) {
        assert_eq!(d.on_change(1000 + i as u64), None);
    }
    assert_eq!(d.on_change(2000), Some(20));
    assert!(d.recent.is_empty());
    assert_eq!(d.last_alert, Some(2000));
    for i in 0..20u64 {
        assert_eq!(d.on_change(3000 + i), None);
    }
    assert!(!d.should_clear_alert(30000, true));
    assert!(d.should_clear_alert(62001, true));
    assert!(!d.should_clear_alert(62001, false));
}

#[test]
fn old_events_leave_the_window() {
    let mut d = BurstDetector::new();
    for i in 0..19u64 {
        d.on_change(i);
    }
    assert_eq!(d.on_change(20000), None);
    assert_eq!(d.recent, vec![20000]);
    assert!(counts_as_change(FileEventKind::Modify));
    assert!(!counts_as_change(FileEventKind::Other));
    assert_eq!(burst_details(23), "23 file changes within 10s");
}

fn status(score: Option<u8>, state: Option<&str>, trust: &str, enabled: bool) -> Option<DaemonStatus> {
    Some(DaemonStatus {
        status: Some("ok".into()), trust_state: trust.into(), ghost_mode: false, enabled,
        integrity_score: score, integrity_state: state.map(|x| x.to_string()), trust_level: None,
        elevated: true, tamper_detected: false, ransomware_alert: false,
    })
}

#[test]
fn tray_icon_and_tooltip() {
    assert_eq!(status_display(&None), (IconColor::Gray, "\u{26aa} Daemon offline".to_string()));
    assert_eq!(status_display(&status(Some(95), None, "Trusted", true)), (IconColor::Green, "\u{1f7e2} Maintained - 95%\nRight-click for menu".to_string()));
    assert_eq!(status_display(&status(Some(95), None, "Trusted", false)).0, IconColor::Gray);
    assert_eq!(status_display(&status(Some(75), None, "Trusted", true)), (IconColor::Yellow, "\u{1f7e1} Drift Detected - 75%\nRight-click for menu".to_string()));
    assert_eq!(status_display(&status(Some(40), None, "Trusted", true)).1, "\u{1f534} Compromised - 40%\nRight-click for menu");
    assert_eq!(status_display(&status(Some(39), None, "Trusted", true)).1, "\u{1f534} CRITICAL - 39%\nRight-click for menu");
    assert_eq!(status_display(&status(None, Some("Lockdown"), "Trusted", true)), (IconColor::Blue, "\u{1f535} Lockdown Active\nRight-click for menu".to_string()));
    assert_eq!(status_display(&status(None, None, "Ghost", true)).0, IconColor::Blue);
    assert_eq!(status_display(&status(None, Some("Other"), "Trusted", true)).1, "\u{1f7e2} Trusted - Active\nRight-click for menu");
    assert_eq!(status_display(&status(None, None, "Other", true)).1, "\u{26aa} Checking...");
}

#[test]
fn pending_categories_deduplicated() {
    let recs = vec![
        ("dns".to_string(), "pending_approval".to_string(), "AwaitingApproval".to_string()),
        ("rdp".to_string(), "detected".to_string(), "AwaitingApproval".to_string()),
        ("dns".to_string(), "pending_approval".to_string(), "AwaitingApproval".to_string()),
        ("bt".to_string(), "pending_approval".to_string(), "AwaitingApproval".to_string()),
    ];
    assert_eq!(get_pending_categories(&recs), s(&["dns", "bt"]));
    assert_eq!(approve_label(2), "Approve Pending Changes (2)");
    assert_eq!(menu_action("approve_all"), MenuAction::ApproveAll);
    assert_eq!(menu_action("sep"), MenuAction::Ignore);
}

#[test]
fn relaunch_after_three_failures_with_cooldown() {
    let mut w = RelaunchWatch::new();
    assert!(!w.on_failure(0));
    assert!(!w.on_failure(1000));
    assert!(w.on_failure(2000));
    assert_eq!(w.consecutive_failures, 0);
    assert!(!w.on_failure(3000));
    assert!(!w.on_failure(4000));
    assert!(!w.on_failure(5000));
    assert!(w.on_failure(40000));
    w.on_success();
    assert_eq!(w.consecutive_failures, 0);
}

#[test]
fn licensing_fails_open() {
    let mut l = LicenseStatus::new();
    assert!(is_pro_licensed(&l));
    set_licensed(&mut l, check_store_license(StoreLookup::Active(false)));
    assert!(!is_pro_licensed(&l));
    assert!(check_store_license(StoreLookup::ProductNotFound));
    assert!(check_store_license(StoreLookup::NoStoreContext));
    assert!(check_store_license(StoreLookup::Active(true)));
}

#[test]
fn settings_files() {
    assert_eq!(load_home_ssid(Some("  Home \n".into())), Some("Home".to_string()));
    assert_eq!(load_home_ssid(Some("  ".into())), None);
    assert_eq!(load_home_ssid(None), None);
    assert_eq!(load_watched_folders(Some("C:\\A\r\n\n  D:\\B  \n".into())), Some(s(&["C:\\A", "D:\\B"])));
    assert_eq!(load_watched_folders(Some("\n \n".into())), None);
    assert_eq!(watched_folders_text(&s(&["a", "b"])), "a\nb");
    assert_eq!(default_folder_candidates("C:\\Users\\x"), s(&["C:\\Users\\x\\Documents", "C:\\Users\\x\\Desktop", "C:\\Users\\x\\Pictures", "C:\\Users\\x\\Downloads"]));
    assert!(default_folder_candidates("").is_empty());
    assert_eq!(acl_hardening_args("D", "bob")[7..9], s(&["/grant", "bob:F"]));
    assert_eq!(acl_hardening_args("D", "").len(), 11);
    assert_eq!(acl_failure_entry("2024-01-01 00:00:00", "boom"), "2024-01-01 00:00:00|ACL_FAILURE|boom\n");
}

#[test]
fn tray_alerts_take_priority() {
    let mut s = status(Some(95), None, "Trusted", true).unwrap();
    s.ghost_mode = true;
    assert_eq!(status_display(&Some(s.clone())), (IconColor::Blue, "\u{1f535} Ghost Mode Active\nRight-click for menu".to_string()));
    s.elevated = false;
    assert_eq!(status_display(&Some(s.clone())), (IconColor::Gray, "\u{26aa} Limited protection - running without admin rights\nRight-click for menu".to_string()));
    s.tamper_detected = true;
    assert_eq!(status_display(&Some(s.clone())), (IconColor::Red, "\u{1f534} Security alert - executable tamper check failed\nRight-click for menu".to_string()));
    s.ransomware_alert = true;
    assert_eq!(status_display(&Some(s)), (IconColor::Red, "\u{1f534} Possible ransomware activity detected\nRight-click for menu".to_string()));
}

#[test]
fn license_follows_the_last_check() {
    let mut l = LicenseStatus::new();
    for lookup in [StoreLookup::Active(false), StoreLookup::AddOnsUnreadable] {
        set_licensed(&mut l, check_store_license(lookup));
    }
    assert!(is_pro_licensed(&l));
    for lookup in [StoreLookup::Active(true), StoreLookup::Active(false)] {
        set_licensed(&mut l, check_store_license(lookup));
    }
    assert!(!is_pro_licensed(&l));
}

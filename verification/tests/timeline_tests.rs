use invisibly::timeline::{
    build_entry, compute_hash, verify_chain, get_last_hash, get_next_id, get_full_timeline, init_timeline,
    format_timeline_markdown, TimelineCounter, RepairResult, TimelineEntry, add_entry,
};

fn chain() -> Vec<TimelineEntry> {
    let mut es: Vec<TimelineEntry> = Vec::new();
    let e1 = build_entry(&es, "dns", "pending_approval", "1.1.1.1", "awaiting", RepairResult::AwaitingApproval, 7);
    es.push(e1);
    let e2 = build_entry(&es, "hosts", "restored", "a", "b", RepairResult::Success, 8);
    es.push(e2);
    es
}

#[test]
fn entries_chain_to_the_previous_hash() {
    let es = chain();
    assert_eq!(es[0].id, 1);
    assert_eq!(es[0].previous_hash, "0");
    assert_eq!(es[0].hash, "f6593330c2ada57f2a089a1f3dbbc1f5413f9b864b24098d503625cf5018dae7");
    assert_eq!(es[1].id, 2);
    assert_eq!(es[1].previous_hash, es[0].hash);
    assert_eq!(es[1].hash, "4cb0ecb4f801790d9a57142c70b607e9144c775da8188072f15b93ecd30f998c");
    assert_eq!(compute_hash("0", 1, "dns", "pending_approval", "1.1.1.1", "awaiting", RepairResult::AwaitingApproval, 7), es[0].hash);
}

#[test]
fn chain_verifies_until_tampered() {
    let mut es = chain();
    assert!(verify_chain(&es));
    assert!(init_timeline(&es));
    assert!(verify_chain(&[]));
    es[0].after = "tampered".to_string();
    assert!(!verify_chain(&es));
}

#[test]
fn ids_and_last_hash() {
    let es = chain();
    assert_eq!(get_next_id(&es), 3);
    assert_eq!(get_last_hash(&es), es[1].hash);
    assert_eq!(get_last_hash(&[]), "0");
    let t = get_full_timeline(es.clone());
    assert_eq!(t.entry_count, 2);
    assert!(t.chain_valid);
    assert_eq!(t.last_hash, es[1].hash);
}

#[test]
fn counter_counts_up() {
    let mut c = TimelineCounter::starting_after(41);
    assert_eq!(c.get_next_counter(), 42);
    assert_eq!(c.get_next_counter(), 43);
}

#[test]
fn markdown_lists_newest_first() {
    assert_eq!(format_timeline_markdown(&[]), "# Security Timeline\n\nNo events recorded.");
    let mut es = chain();
    es[0].timestamp = "T1".to_string();
    es[1].timestamp = "T2".to_string();
    let md = format_timeline_markdown(&es);
    let expected = format!(
        "# Security Timeline\n\n## T2 \u{2014} hosts\n\n- **Action:** restored\n- **Before:** `a`\n- **After:** `b`\n- **Result:** \u{2705} Success\n- **Entry ID:** 2\n- **Counter:** 8\n- **Chain Hash:** `4cb0ecb4f801790d`\n\n## T1 \u{2014} dns\n\n- **Action:** pending_approval\n- **Before:** `1.1.1.1`\n- **After:** `awaiting`\n- **Result:** \u{23f3} Awaiting Approval\n- **Entry ID:** 1\n- **Counter:** 7\n- **Chain Hash:** `f6593330c2ada57f`\n\n"
    );
    assert_eq!(md, expected);
}

#[test]
fn rewritten_hash_is_detected() {
    for k in 0..2 {
        let mut es = chain();
        es[k].hash = "0000000000000000000000000000000000000000000000000000000000000000".to_string();
        assert!(!verify_chain(&es));
    }
    let mut es = chain();
    es[1].monotonic_counter = 7;
    assert!(!verify_chain(&es));
}

#[test]
fn adding_an_entry_appends_it() {
    let es = chain();
    let before = get_full_timeline(es.clone());
    let e = build_entry(&es, "proxy", "restored", "x", "y", RepairResult::Failed, 9);
    let mut grown = es.clone();
    grown.push(e.clone());
    let after = get_full_timeline(grown);
    assert_eq!(after.entry_count, before.entry_count + 1);
    assert_eq!(e.id, before.entry_count + 1);
    assert_eq!(e.previous_hash, before.last_hash);
    assert_eq!(after.last_hash, e.hash);
    assert!(before.chain_valid && after.chain_valid);
    for i in 0..es.len() {
        assert_eq!(after.entries[i].hash, es[i].hash);
    }
    let stale = build_entry(&after.entries, "proxy", "again", "y", "z", RepairResult::Success, 9);
    let mut bad = after.entries.clone();
    bad.push(stale);
    assert!(!verify_chain(&bad));
}

#[test]
fn add_entry_takes_the_next_counter_and_chains() {
    let mut es = chain();
    let before = es.clone();
    let mut c = TimelineCounter::starting_after(8);
    add_entry(&mut es, &mut c, "dns", "restored", "9.9.9.9", "dhcp", RepairResult::Success);
    assert_eq!(c.last, 9);
    assert_eq!(es.len(), 3);
    assert_eq!(es[2].id, 3);
    assert_eq!(es[2].monotonic_counter, 9);
    assert_eq!(es[2].previous_hash, before[1].hash);
    assert_eq!(es[2].category, "dns");
    assert_eq!(get_last_hash(&es), es[2].hash);
    assert!(verify_chain(&es));
    let mut stale = TimelineCounter::starting_after(0);
    add_entry(&mut es, &mut stale, "dns", "again", "a", "b", RepairResult::Skipped);
    assert!(!verify_chain(&es));
}

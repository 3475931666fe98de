//! Readings of detector output into snapshot values.
//!
//! Each detector runs a system command (or reads a file) and hands its text
//! output here, `None` when the command could not run; these functions decide
//! the value recorded in the snapshot.

use vstd::prelude::*;
use crate::text::{
    views, trimmed, trim, lines, lines_of, trimmed_lines, trimmed_lines_of, contains, str_eq, str_contains,
    list_contains, chars_of, string_of, to_lowercase, lowercased, starts_with, str_starts_with, words_of,
    split_whitespace, append, owned, ends_with, str_ends_with,
};
use crate::baseline::{spec_parse_u64, parse_u64};
use crate::state::{SystemState, StateView};

verus! {

broadcast use vstd::string::group_string_axioms;

/// `v`, or the single `fallback` when `v` is empty.
pub open spec fn or_single(v: Seq<Seq<char>>, fallback: Seq<char>) -> Seq<Seq<char>> {
    if v.len() == 0 { seq![fallback] } else { v }
}

fn or_fallback(v: Vec<String>, fallback: &str) -> (r: Vec<String>)
    ensures
        views(r@) == or_single(views(v@), fallback@),
{
    if v.len() == 0 {
        let mut r: Vec<String> = Vec::new();
        r.push(owned(fallback));
        proof {
            assert(views(r@) =~= seq![fallback@]);
        }
        r
    } else {
        v
    }
}

/// The non-empty trimmed lines of an output, or the single `fallback`
/// (also when the command could not run).
pub open spec fn listing(out: Option<Seq<char>>, fallback: Seq<char>) -> Seq<Seq<char>> {
    match out {
        Some(o) => or_single(trimmed_lines_of(o), fallback),
        None => seq![fallback],
    }
}

pub open spec fn opt_view(o: Option<String>) -> Option<Seq<char>> {
    match o {
        Some(s) => Some(s@),
        None => None,
    }
}

/// A one-item-per-line reading (proxy, adapters, firewall profiles, tasks,
/// services, processes, certificates, Bluetooth and HID devices).
pub fn read_listing(out: Option<String>, fallback: &str) -> (r: Vec<String>)
    ensures
        views(r@) == listing(opt_view(out), fallback@),
{
    match &out {
        Some(o) => or_fallback(trimmed_lines(o.as_str()), fallback),
        None => or_fallback(Vec::new(), fallback),
    }
}

/// A one-line reading: the trimmed output, or `fallback` when it is empty or
/// the command could not run.
pub open spec fn single_reading(out: Option<Seq<char>>, fallback: Seq<char>) -> Seq<char> {
    match out {
        Some(o) => if trimmed(o).len() > 0 { trimmed(o) } else { fallback },
        None => fallback,
    }
}

/// The Wi-Fi SSID reading (`Unknown` when absent).
pub fn read_wifi(out: Option<String>) -> (r: String)
    ensures
        r@ == single_reading(opt_view(out), "Unknown"@),
{
    match &out {
        Some(o) => {
            let t = trim(o.as_str());
            if t.as_str().is_empty() { owned("Unknown") } else { t }
        },
        None => owned("Unknown"),
    }
}

/// The USB mass-storage reading (empty when none).
pub fn read_usb(out: Option<String>) -> (r: String)
    ensures
        r@ == single_reading(opt_view(out), Seq::empty()),
{
    match &out {
        Some(o) => trim(o.as_str()),
        None => String::new(),
    }
}

// ============================================
// DNS SERVERS
// ============================================

/// The comma-separated parts of `s`.
pub open spec fn comma_parts(s: Seq<char>) -> Seq<Seq<char>>
    decreases s.len(),
{
    match crate::text::find_spec(s, seq![','], 0) {
        Some(k) => {
            if 0 <= k < s.len() {
                seq![s.subrange(0, k)] + comma_parts(s.subrange(k + 1, s.len() as int))
            } else {
                seq![s]
            }
        },
        None => seq![s],
    }
}

/// Adds the trimmed, non-empty parts not yet present.
pub open spec fn add_distinct(acc: Seq<Seq<char>>, parts: Seq<Seq<char>>, n: int) -> Seq<Seq<char>>
    decreases n,
{
    if n <= 0 || n > parts.len() {
        acc
    } else {
        let prev = add_distinct(acc, parts, n - 1);
        let a = trimmed(parts[n - 1]);
        if a.len() > 0 && !prev.contains(a) { prev.push(a) } else { prev }
    }
}

/// The distinct server addresses over the first `n` output lines.
pub open spec fn dns_upto(ls: Seq<Seq<char>>, n: int) -> Seq<Seq<char>>
    decreases n,
{
    if n <= 0 || n > ls.len() {
        Seq::empty()
    } else {
        let parts = comma_parts(ls[n - 1]);
        add_distinct(dns_upto(ls, n - 1), parts, parts.len() as int)
    }
}

/// The DNS servers: every distinct address listed (comma-separated, one
/// adapter per line), or `Unknown`.
pub open spec fn dns_reading(out: Option<Seq<char>>) -> Seq<Seq<char>> {
    match out {
        Some(o) => or_single(dns_upto(lines_of(o), lines_of(o).len() as int), "Unknown"@),
        None => seq!["Unknown"@],
    }
}

proof fn lemma_comma_parts_step(s: Seq<char>, k: int)
    requires
        crate::text::find_spec(s, seq![','], 0) == Some(k),
    ensures
        0 <= k < s.len(),
        s[k] == ',',
        forall|j: int| 0 <= j < k ==> s[j] != ',',
{
    crate::text::lemma_find_spec(s, seq![','], 0);
    assert(s.subrange(k, k + 1) == seq![',']);
    assert(s[k] == s.subrange(k, k + 1)[0]);
    assert forall|j: int| 0 <= j < k implies s[j] != ',' by {
        if s[j] == ',' {
            assert(s.subrange(j, j + 1) =~= seq![',']);
            assert(crate::text::occurs_at(s, seq![','], j));
        }
    }
}

fn split_commas(s: &str) -> (parts: Vec<String>)
    ensures
        views(parts@) == comma_parts(s@),
{
    let v = chars_of(s);
    let mut parts: Vec<String> = Vec::new();
    let mut start: usize = 0;
    let comma = vec![','];
    proof {
        assert(comma@ =~= seq![',']);
        assert(views(parts@) + comma_parts(v@.subrange(0, v@.len() as int)) =~= comma_parts(s@)) by {
            assert(v@.subrange(0, v@.len() as int) =~= s@);
        }
    }
    loop
        invariant
            v@ == s@,
            comma@ == seq![','],
            start <= v@.len(),
            views(parts@) + comma_parts(v@.subrange(start as int, v@.len() as int)) == comma_parts(s@),
        decreases v@.len() - start,
    {
        let ghost rest = v@.subrange(start as int, v@.len() as int);
        let sub = sub_chars(&v, start, v.len());
        assert(sub@ == rest);
        match crate::text::find_first(sub.as_slice(), comma.as_slice(), 0) {
            Some(k) => {
                proof {
                    lemma_comma_parts_step(rest, k as int);
                }
                let part = string_of_range(&sub, 0, k);
                let ghost before = parts@;
                parts.push(part);
                proof {
                    assert(views(parts@) =~= views(before).push(rest.subrange(0, k as int)));
                    assert(rest.subrange(k + 1, rest.len() as int) =~= v@.subrange(start + k + 1, v@.len() as int));
                    assert(comma_parts(rest) == seq![rest.subrange(0, k as int)] + comma_parts(rest.subrange(k + 1, rest.len() as int)));
                    assert(views(parts@) + comma_parts(v@.subrange(start + k + 1, v@.len() as int))
                        =~= views(before) + comma_parts(rest));
                }
                start = start + k + 1;
            },
            None => {
                let part = string_of(sub.as_slice());
                let ghost before = parts@;
                parts.push(part);
                proof {
                    assert(comma_parts(rest) == seq![rest]);
                    assert(views(parts@) =~= views(before) + seq![rest]);
                }
                return parts;
            },
        }
    }
}

fn sub_chars(v: &Vec<char>, a: usize, b: usize) -> (r: Vec<char>)
    requires
        a <= b <= v@.len(),
    ensures
        r@ == v@.subrange(a as int, b as int),
{
    let mut r: Vec<char> = Vec::new();
    let mut i = a;
    while i < b
        invariant
            a <= i <= b,
            b <= v@.len(),
            r@ == v@.subrange(a as int, i as int),
        decreases b - i,
    {
        r.push(v[i]);
        i = i + 1;
        proof {
            assert(r@ =~= v@.subrange(a as int, i as int));
        }
    }
    r
}

fn string_of_range(v: &Vec<char>, a: usize, b: usize) -> (s: String)
    requires
        a <= b <= v@.len(),
    ensures
        s@ == v@.subrange(a as int, b as int),
{
    crate::text::sub_string(v.as_slice(), a, b)
}

/// Reads the DNS servers from the resolver listing.
pub fn read_dns(out: Option<String>) -> (r: Vec<String>)
    ensures
        views(r@) == dns_reading(opt_view(out)),
{
    match &out {
        Some(o) => {
            let ls = lines(o.as_str());
            let mut d: Vec<String> = Vec::new();
            let mut i: usize = 0;
            proof {
                assert(views(d@) =~= Seq::<Seq<char>>::empty());
            }
            while i < ls.len()
                invariant
                    i <= ls@.len(),
                    views(ls@) == lines_of(o@),
                    views(d@) == dns_upto(lines_of(o@), i as int),
                decreases ls@.len() - i,
            {
                proof {
                    assert(views(ls@)[i as int] == ls@[i as int]@);
                }
                let parts = split_commas(ls[i].as_str());
                let ghost acc0 = views(d@);
                let mut j: usize = 0;
                while j < parts.len()
                    invariant
                        j <= parts@.len(),
                        views(d@) == add_distinct(acc0, views(parts@), j as int),
                    decreases parts@.len() - j,
                {
                    proof {
                        assert(views(parts@)[j as int] == parts@[j as int]@);
                    }
                    let a = trim(parts[j].as_str());
                    if !a.as_str().is_empty() && !list_contains(&d, a.as_str()) {
                        let ghost before = d@;
                        d.push(a);
                        proof {
                            assert(views(d@) =~= views(before).push(a@));
                        }
                    }
                    j = j + 1;
                }
                i = i + 1;
            }
            or_fallback(d, "Unknown")
        },
        None => or_fallback(Vec::new(), "Unknown"),
    }
}

// ============================================
// ARP TABLE AND NETWORK DEVICES
// ============================================

/// ARP entries (lines mentioning dynamic or static) among the first `n` lines, trimmed.
pub open spec fn arp_upto(ls: Seq<Seq<char>>, n: int) -> Seq<Seq<char>>
    decreases n,
{
    if n <= 0 || n > ls.len() {
        Seq::empty()
    } else if contains(ls[n - 1], "dynamic"@) || contains(ls[n - 1], "static"@) {
        arp_upto(ls, n - 1).push(trimmed(ls[n - 1]))
    } else {
        arp_upto(ls, n - 1)
    }
}

/// The ARP table reading, or `None`.
pub open spec fn arp_reading(out: Option<Seq<char>>) -> Seq<Seq<char>> {
    match out {
        Some(o) => or_single(arp_upto(lines_of(o), lines_of(o).len() as int), "None"@),
        None => seq!["None"@],
    }
}

/// Reads the ARP table from `arp -a` output.
pub fn read_arp(out: Option<String>) -> (r: Vec<String>)
    ensures
        views(r@) == arp_reading(opt_view(out)),
{
    match &out {
        Some(o) => {
            let ls = lines(o.as_str());
            let mut a: Vec<String> = Vec::new();
            let mut i: usize = 0;
            proof {
                assert(views(a@) =~= Seq::<Seq<char>>::empty());
            }
            while i < ls.len()
                invariant
                    i <= ls@.len(),
                    views(ls@) == lines_of(o@),
                    views(a@) == arp_upto(lines_of(o@), i as int),
                decreases ls@.len() - i,
            {
                proof {
                    assert(views(ls@)[i as int] == ls@[i as int]@);
                }
                let l = ls[i].as_str();
                if str_contains(l, "dynamic") || str_contains(l, "static") {
                    let t = trim(l);
                    let ghost before = a@;
                    a.push(t);
                    proof {
                        assert(views(a@) =~= views(before).push(t@));
                    }
                }
                i = i + 1;
            }
            or_fallback(a, "None")
        },
        None => or_fallback(Vec::new(), "None"),
    }
}

/// Addresses (first word of each dynamic ARP line) among the first `n` lines.
pub open spec fn devices_upto(ls: Seq<Seq<char>>, n: int) -> Seq<Seq<char>>
    decreases n,
{
    if n <= 0 || n > ls.len() {
        Seq::empty()
    } else if contains(ls[n - 1], "dynamic"@) && words_of(ls[n - 1]).len() > 0 {
        devices_upto(ls, n - 1).push(words_of(ls[n - 1])[0])
    } else {
        devices_upto(ls, n - 1)
    }
}

/// The network devices reading, or `None`.
pub open spec fn devices_reading(out: Option<Seq<char>>) -> Seq<Seq<char>> {
    match out {
        Some(o) => or_single(devices_upto(lines_of(o), lines_of(o).len() as int), "None"@),
        None => seq!["None"@],
    }
}

/// Reads the addresses of dynamically learned neighbours from `arp -a` output.
pub fn read_network_devices(out: Option<String>) -> (r: Vec<String>)
    ensures
        views(r@) == devices_reading(opt_view(out)),
{
    match &out {
        Some(o) => {
            let ls = lines(o.as_str());
            let mut d: Vec<String> = Vec::new();
            let mut i: usize = 0;
            proof {
                assert(views(d@) =~= Seq::<Seq<char>>::empty());
            }
            while i < ls.len()
                invariant
                    i <= ls@.len(),
                    views(ls@) == lines_of(o@),
                    views(d@) == devices_upto(lines_of(o@), i as int),
                decreases ls@.len() - i,
            {
                proof {
                    assert(views(ls@)[i as int] == ls@[i as int]@);
                }
                let l = ls[i].as_str();
                if str_contains(l, "dynamic") {
                    let w = split_whitespace(l);
                    if w.len() > 0 {
                        let ip = w[0].clone();
                        proof {
                            assert(views(w@)[0] == w@[0]@);
                        }
                        let ghost before = d@;
                        d.push(ip);
                        proof {
                            assert(views(d@) =~= views(before).push(ip@));
                        }
                    }
                }
                i = i + 1;
            }
            or_fallback(d, "None")
        },
        None => or_fallback(Vec::new(), "None"),
    }
}

// ============================================
// STATUS WORDS
// ============================================

/// The reading of a command whose trimmed output is one of a few words:
/// the value paired with the first matching word, `otherwise` for other
/// output, and `missing` when the command could not run.
pub open spec fn word_reading(out: Option<Seq<char>>, words: Seq<(Seq<char>, Seq<char>)>, otherwise: Seq<char>, missing: Seq<char>) -> Seq<char> {
    match out {
        Some(o) => word_lookup(trimmed(o), words, 0, otherwise),
        None => missing,
    }
}

pub open spec fn word_lookup(w: Seq<char>, words: Seq<(Seq<char>, Seq<char>)>, k: int, otherwise: Seq<char>) -> Seq<char>
    decreases words.len() - k,
{
    if k < 0 || k >= words.len() {
        otherwise
    } else if words[k].0 == w {
        words[k].1
    } else {
        word_lookup(w, words, k + 1, otherwise)
    }
}

pub open spec fn pair_seq(v: Seq<(&str, &str)>) -> Seq<(Seq<char>, Seq<char>)> {
    v.map_values(|p: (&str, &str)| (p.0@, p.1@))
}

/// Maps a status command's output through a word table.
pub fn read_word(out: Option<String>, words: &[(&str, &str)], otherwise: &str, missing: &str) -> (r: String)
    ensures
        r@ == word_reading(opt_view(out), pair_seq(words@), otherwise@, missing@),
{
    match &out {
        Some(o) => {
            let t = trim(o.as_str());
            let mut k: usize = 0;
            while k < words.len()
                invariant
                    k <= words@.len(),
                    t@ == trimmed(o@),
                    out matches Some(x) && x@ == o@,
                    word_lookup(t@, pair_seq(words@), k as int, otherwise@)
                        == word_lookup(t@, pair_seq(words@), 0, otherwise@),
                decreases words@.len() - k,
            {
                proof {
                    assert(pair_seq(words@)[k as int] == (words@[k as int].0@, words@[k as int].1@));
                }
                if str_eq(t.as_str(), words[k].0) {
                    return owned(words[k].1);
                }
                k = k + 1;
            }
            owned(otherwise)
        },
        None => owned(missing),
    }
}

/// Whether a count printed by a command is a positive number (as an `i32`).
pub open spec fn positive_count(out: Seq<char>) -> bool {
    match spec_parse_u64(trimmed(out)) {
        Some(n) => 0 < n <= i32::MAX,
        None => false,
    }
}

/// Reads a printed count and says whether it is positive.
pub fn count_is_positive(out: &str) -> (b: bool)
    ensures
        b == positive_count(out@),
{
    let t = trim(out);
    match parse_u64(t.as_str()) {
        Some(n) => 0 < n && n <= 0x7fff_ffff,
        None => false,
    }
}

/// The login-failure reading: a count above 5 reads as HIGH, other output
/// is kept as printed (trimmed), and "0" when the query could not run.
pub open spec fn login_reading(out: Option<Seq<char>>) -> Seq<char> {
    match out {
        Some(o) => match spec_parse_u64(trimmed(o)) {
            Some(n) => if 5 < n <= i32::MAX {
                "HIGH: "@ + crate::text::decimal(n as nat) + " failures"@
            } else {
                trimmed(o)
            },
            None => trimmed(o),
        },
        None => "0"@,
    }
}

/// Reads the failed-logon count.
pub fn read_login_failures(out: Option<String>) -> (r: String)
    ensures
        r@ == login_reading(opt_view(out)),
{
    match &out {
        Some(o) => {
            let t = trim(o.as_str());
            match parse_u64(t.as_str()) {
                Some(n) => {
                    if 5 < n && n <= 0x7fff_ffff {
                        let mut r = owned("HIGH: ");
                        let d = crate::text::decimal_string(n);
                        append(&mut r, d.as_str());
                        append(&mut r, " failures");
                        r
                    } else {
                        t
                    }
                },
                None => t,
            }
        },
        None => owned("0"),
    }
}

/// A status read in two steps: the first command's word table decides when
/// it matches; otherwise a fallback reading decides.
pub open spec fn two_step(first: Option<Seq<char>>, words: Seq<(Seq<char>, Seq<char>)>, fallback: Seq<char>) -> Seq<char> {
    match first {
        Some(o) => word_lookup(trimmed(o), words, 0, fallback),
        None => fallback,
    }
}

/// System Restore: ON when its service runs, else ON when restore points
/// exist, else OFF.
pub fn read_system_restore(service: Option<String>, points: Option<String>) -> (r: String)
    ensures
        r@ == two_step(opt_view(service), seq![("Running"@, "ON"@)],
            match points { Some(p) => if positive_count(p@) { "ON"@ } else { "OFF"@ }, None => "OFF"@ }),
{
    let fallback: &str = match &points {
        Some(p) => if count_is_positive(p.as_str()) { "ON" } else { "OFF" },
        None => "OFF",
    };
    let words = [("Running", "ON")];
    proof {
        assert(pair_seq(words@) =~= seq![("Running"@, "ON"@)]);
    }
    read_word(service, &words, fallback, fallback)
}

/// SmartScreen: the Explorer setting decides when it is known, else the
/// Defender preference, else Unknown.
pub fn read_smart_screen(explorer: Option<String>, defender: Option<String>) -> (r: String)
    ensures
        r@ == two_step(opt_view(explorer),
            seq![("RequireAdmin"@, "ON"@), ("Enabled"@, "ON"@), ("Off"@, "OFF"@)],
            word_reading(opt_view(defender), seq![("True"@, "ON"@), ("False"@, "OFF"@)], "Unknown"@, "Unknown"@)),
{
    let dw = [("True", "ON"), ("False", "OFF")];
    proof {
        assert(pair_seq(dw@) =~= seq![("True"@, "ON"@), ("False"@, "OFF"@)]);
    }
    let fallback = read_word(defender, &dw, "Unknown", "Unknown");
    let ew = [("RequireAdmin", "ON"), ("Enabled", "ON"), ("Off", "OFF")];
    proof {
        assert(pair_seq(ew@) =~= seq![("RequireAdmin"@, "ON"@), ("Enabled"@, "ON"@), ("Off"@, "OFF"@)]);
    }
    read_word(explorer, &ew, fallback.as_str(), fallback.as_str())
}

/// VPN: CONNECTED when a VPN adapter is up, else when a VPN process runs.
pub fn read_vpn(adapters: Option<String>, processes: Option<String>) -> (r: String)
    ensures
        r@ == (if (match adapters { Some(a) => positive_count(a@), None => false })
            || (match processes { Some(p) => positive_count(p@), None => false }) {
            "CONNECTED"@
        } else {
            "DISCONNECTED"@
        }),
{
    let up = match &adapters {
        Some(a) => count_is_positive(a.as_str()),
        None => false,
    };
    let running = match &processes {
        Some(p) => count_is_positive(p.as_str()),
        None => false,
    };
    if up || running { owned("CONNECTED") } else { owned("DISCONNECTED") }
}

/// IPv6: ON when some adapter has it bound.
pub fn read_ipv6(out: Option<String>) -> (r: String)
    ensures
        r@ == (if (match out { Some(o) => positive_count(o@), None => false }) { "ON"@ } else { "OFF"@ }),
{
    let on = match &out {
        Some(o) => count_is_positive(o.as_str()),
        None => false,
    };
    if on { owned("ON") } else { owned("OFF") }
}

/// The Security event log: EMPTY when it holds no event, OK otherwise.
pub fn read_event_log(out: Option<String>) -> (r: String)
    ensures
        r@ == word_reading(opt_view(out), seq![("0"@, "EMPTY"@)], "OK"@, "Unknown"@),
{
    let w = [("0", "EMPTY")];
    proof {
        assert(pair_seq(w@) =~= seq![("0"@, "EMPTY"@)]);
    }
    read_word(out, &w, "OK", "Unknown")
}

// ============================================
// LISTENING PORTS
// ============================================

/// The output lines after netstat's four header lines.
pub open spec fn body_lines(o: Seq<char>) -> Seq<Seq<char>> {
    if lines_of(o).len() <= 4 { Seq::empty() } else { lines_of(o).subrange(4, lines_of(o).len() as int) }
}

/// Listening local addresses among the first `n` lines, leaving out the
/// unspecified address and the API's own port.
pub open spec fn listening_upto(ls: Seq<Seq<char>>, n: int) -> Seq<Seq<char>>
    decreases n,
{
    if n <= 0 || n > ls.len() {
        Seq::empty()
    } else {
        let parts = words_of(ls[n - 1]);
        let prev = listening_upto(ls, n - 1);
        if parts.len() >= 4 && parts[3] == "LISTENING"@ && parts[1] != "0.0.0.0:0"@ && !ends_with(parts[1], ":12790"@) {
            prev.push(parts[1])
        } else {
            prev
        }
    }
}

/// `s` without repeats of an item directly after itself.
pub open spec fn dedup_adjacent(s: Seq<Seq<char>>) -> Seq<Seq<char>>
    decreases s.len(),
{
    if s.len() == 0 {
        s
    } else {
        let prev = dedup_adjacent(s.drop_last());
        if s.len() >= 2 && s[s.len() - 2] == s.last() { prev } else { prev.push(s.last()) }
    }
}

/// The listening ports reading: sorted, without duplicates.
pub open spec fn ports_reading(out: Option<Seq<char>>) -> Seq<Seq<char>> {
    match out {
        Some(o) => dedup_adjacent(crate::order::sorted_strings(listening_upto(body_lines(o), body_lines(o).len() as int))),
        None => Seq::empty(),
    }
}

fn dedup_sorted(v: &Vec<String>) -> (r: Vec<String>)
    ensures
        views(r@) == dedup_adjacent(views(v@)),
{
    let mut r: Vec<String> = Vec::new();
    let mut i: usize = 0;
    proof {
        assert(views(r@) =~= dedup_adjacent(views(v@).subrange(0, 0)));
    }
    while i < v.len()
        invariant
            i <= v@.len(),
            views(r@) == dedup_adjacent(views(v@).subrange(0, i as int)),
        decreases v@.len() - i,
    {
        let ghost pre = views(v@).subrange(0, i + 1);
        proof {
            assert(pre.drop_last() =~= views(v@).subrange(0, i as int));
            assert(pre.last() == v@[i as int]@);
            if i >= 1 {
                assert(pre[pre.len() - 2] == v@[i - 1]@);
            }
        }
        if i == 0 || !str_eq(v[i - 1].as_str(), v[i].as_str()) {
            let c = v[i].clone();
            let ghost before = r@;
            r.push(c);
            proof {
                assert(views(r@) =~= views(before).push(c@));
            }
        }
        i = i + 1;
    }
    proof {
        assert(views(v@).subrange(0, i as int) =~= views(v@));
    }
    r
}

/// Reads the listening TCP endpoints from `netstat -ano -p TCP` output.
pub fn read_ports(out: Option<String>) -> (r: Vec<String>)
    ensures
        views(r@) == ports_reading(opt_view(out)),
{
    match &out {
        Some(o) => {
            let all = lines(o.as_str());
            let mut p: Vec<String> = Vec::new();
            let mut i: usize = 4;
            let ghost body = body_lines(o@);
            proof {
                assert(views(p@) =~= Seq::<Seq<char>>::empty());
            }
            while i < all.len()
                invariant
                    4 <= i,
                    views(all@) == lines_of(o@),
                    body == body_lines(o@),
                    i <= all@.len() || all@.len() <= 4,
                    all@.len() > 4 ==> views(p@) == listening_upto(body, i - 4),
                    all@.len() <= 4 ==> p@.len() == 0,
                decreases all@.len() - i,
            {
                proof {
                    assert(views(all@)[i as int] == all@[i as int]@);
                    assert(body[i - 4] == all@[i as int]@);
                }
                let parts = split_whitespace(all[i].as_str());
                if parts.len() >= 4 && str_eq(parts[3].as_str(), "LISTENING") {
                    proof {
                        assert(views(parts@)[3] == parts@[3]@);
                        assert(views(parts@)[1] == parts@[1]@);
                    }
                    let a = parts[1].as_str();
                    if !str_eq(a, "0.0.0.0:0") && !str_ends_with(a, ":12790") {
                        let c = parts[1].clone();
                        let ghost before = p@;
                        p.push(c);
                        proof {
                            assert(views(p@) =~= views(before).push(c@));
                        }
                    }
                }
                i = i + 1;
            }
            proof {
                if all@.len() > 4 {
                    assert(i - 4 == body.len());
                } else {
                    assert(views(p@) =~= listening_upto(body, body.len() as int));
                }
            }
            let sorted = crate::order::sort_strings(&p);
            dedup_sorted(&sorted)
        },
        None => Vec::new(),
    }
}

// ============================================
// SOFTWARE AND FILES
// ============================================

/// Names of known bloatware and potentially unwanted programs.
pub open spec fn bloat_names() -> Seq<Seq<char>> {
    seq![
        "mcafee"@, "norton"@, "ccleaner"@, "driver booster"@, "driver updater"@, "registry cleaner"@,
        "pc optimizer"@, "speedup"@, "tuneup"@, "candy crush"@, "farmville"@, "bubble witch"@,
        "mycleanpc"@, "advanced systemcare"@, "wise care"@, "glary utilities"@,
    ]
}

pub open spec fn is_bloat(line: Seq<char>) -> bool {
    exists|i: int| 0 <= i < bloat_names().len() && contains(lowercased(trimmed(line)), bloat_names()[i])
}

pub open spec fn bloat_upto(ls: Seq<Seq<char>>, n: int) -> Seq<Seq<char>>
    decreases n,
{
    if n <= 0 || n > ls.len() {
        Seq::empty()
    } else if is_bloat(ls[n - 1]) {
        bloat_upto(ls, n - 1).push(trimmed(ls[n - 1]))
    } else {
        bloat_upto(ls, n - 1)
    }
}

/// The installed-software reading: listed programs that match a known
/// bloatware name (case-insensitively), or `None`.
pub open spec fn software_reading(out: Option<Seq<char>>) -> Seq<Seq<char>> {
    match out {
        Some(o) => or_single(bloat_upto(lines_of(o), lines_of(o).len() as int), "None"@),
        None => seq!["None"@],
    }
}

fn bloat_list() -> (v: Vec<String>)
    ensures
        views(v@) == bloat_names(),
{
    let v = vec![
        owned("mcafee"), owned("norton"), owned("ccleaner"), owned("driver booster"), owned("driver updater"),
        owned("registry cleaner"), owned("pc optimizer"), owned("speedup"), owned("tuneup"), owned("candy crush"),
        owned("farmville"), owned("bubble witch"), owned("mycleanpc"), owned("advanced systemcare"),
        owned("wise care"), owned("glary utilities"),
    ];
    proof {
        assert(views(v@) =~= bloat_names());
    }
    v
}

fn matches_bloat(line: &str, bloat: &Vec<String>) -> (b: bool)
    requires
        views(bloat@) == bloat_names(),
    ensures
        b == is_bloat(line@),
{
    let t = trim(line);
    let lower = to_lowercase(t.as_str());
    let mut i: usize = 0;
    while i < bloat.len()
        invariant
            i <= bloat@.len(),
            views(bloat@) == bloat_names(),
            lower@ == lowercased(trimmed(line@)),
            forall|j: int| 0 <= j < i ==> !contains(lower@, bloat_names()[j]),
        decreases bloat@.len() - i,
    {
        proof {
            assert(views(bloat@)[i as int] == bloat@[i as int]@);
        }
        if str_contains(lower.as_str(), bloat[i].as_str()) {
            return true;
        }
        i = i + 1;
    }
    false
}

/// Reads the installed programs and keeps the known bloatware.
pub fn read_installed_software(out: Option<String>) -> (r: Vec<String>)
    ensures
        views(r@) == software_reading(opt_view(out)),
{
    match &out {
        Some(o) => {
            let bloat = bloat_list();
            let ls = lines(o.as_str());
            let mut found: Vec<String> = Vec::new();
            let mut i: usize = 0;
            proof {
                assert(views(found@) =~= Seq::<Seq<char>>::empty());
            }
            while i < ls.len()
                invariant
                    i <= ls@.len(),
                    views(bloat@) == bloat_names(),
                    views(ls@) == lines_of(o@),
                    views(found@) == bloat_upto(lines_of(o@), i as int),
                decreases ls@.len() - i,
            {
                proof {
                    assert(views(ls@)[i as int] == ls@[i as int]@);
                }
                if matches_bloat(ls[i].as_str(), &bloat) {
                    let t = trim(ls[i].as_str());
                    let ghost before = found@;
                    found.push(t);
                    proof {
                        assert(views(found@) =~= views(before).push(t@));
                    }
                }
                i = i + 1;
            }
            or_fallback(found, "None")
        },
        None => or_fallback(Vec::new(), "None"),
    }
}

/// The file names that disguise an executable as a document, or `None`.
pub open spec fn fake_files(names: Seq<Seq<char>>) -> Seq<Seq<char>> {
    or_single(names.filter(|n: Seq<char>| crate::repair::is_fake_extension_name(lowercased(n))), "None"@)
}

/// Picks the disguised executables among the names found in the user's
/// Desktop and Downloads folders.
pub fn read_fake_extensions(names: &Vec<String>) -> (r: Vec<String>)
    ensures
        views(r@) == fake_files(views(names@)),
{
    let mut f: Vec<String> = Vec::new();
    let mut i: usize = 0;
    let ghost pred = |n: Seq<char>| crate::repair::is_fake_extension_name(lowercased(n));
    proof {
        assert(views(f@) =~= views(names@).subrange(0, 0).filter(pred));
    }
    while i < names.len()
        invariant
            i <= names@.len(),
            pred == (|n: Seq<char>| crate::repair::is_fake_extension_name(lowercased(n))),
            views(f@) == views(names@).subrange(0, i as int).filter(pred),
        decreases names@.len() - i,
    {
        let lower = to_lowercase(names[i].as_str());
        let fake = crate::repair::is_fake_extension(lower.as_str());
        let ghost before = f@;
        if fake {
            let c = names[i].clone();
            f.push(c);
            proof {
                assert(views(f@) =~= views(before).push(c@));
            }
        }
        proof {
            let s = views(names@).subrange(0, i + 1);
            assert(s.drop_last() =~= views(names@).subrange(0, i as int));
            assert(s.last() == names@[i as int]@);
            reveal_with_fuel(Seq::filter, 1);
            assert(views(f@) =~= s.filter(pred));
        }
        i = i + 1;
    }
    proof {
        assert(views(names@).subrange(0, i as int) =~= views(names@));
    }
    or_fallback(f, "None")
}

// ============================================
// HIDDEN-CHARACTER AND LOOK-ALIKE FINDINGS
// ============================================

/// Characters that hide or reorder text (bidi controls, zero-width and
/// invisible operators, soft hyphen).
pub open spec fn is_hidden_char(c: char) -> bool {
    c == '\u{202E}' || c == '\u{202D}' || c == '\u{2066}' || c == '\u{2067}' || c == '\u{2068}'
        || c == '\u{2069}' || c == '\u{200B}' || c == '\u{200C}' || c == '\u{200D}' || c == '\u{200E}'
        || c == '\u{200F}' || c == '\u{FEFF}' || c == '\u{2060}' || c == '\u{2061}' || c == '\u{2062}'
        || c == '\u{2063}' || c == '\u{2064}' || c == '\u{202A}' || c == '\u{202B}' || c == '\u{202C}'
        || c == '\u{00AD}'
}

/// Characters that pass for Latin letters in a domain name.
pub open spec fn is_lookalike_char(c: char) -> bool {
    c == '\u{430}' || c == '\u{435}' || c == '\u{43e}' || c == '\u{440}' || c == '\u{441}' || c == '\u{443}'
        || c == '\u{456}' || c == 'x'
}

pub open spec fn has_hidden(s: Seq<char>) -> bool {
    exists|i: int| 0 <= i < s.len() && is_hidden_char(s[i])
}

pub open spec fn has_lookalike(s: Seq<char>) -> bool {
    exists|i: int| 0 <= i < s.len() && is_lookalike_char(s[i])
}

fn any_hidden(s: &str) -> (b: bool)
    ensures
        b == has_hidden(s@),
{
    let v = chars_of(s);
    let mut i: usize = 0;
    while i < v.len()
        invariant
            v@ == s@,
            i <= v@.len(),
            forall|j: int| 0 <= j < i ==> !is_hidden_char(v@[j]),
        decreases v@.len() - i,
    {
        let c = v[i];
        if c == '\u{202E}' || c == '\u{202D}' || c == '\u{2066}' || c == '\u{2067}' || c == '\u{2068}'
            || c == '\u{2069}' || c == '\u{200B}' || c == '\u{200C}' || c == '\u{200D}' || c == '\u{200E}'
            || c == '\u{200F}' || c == '\u{FEFF}' || c == '\u{2060}' || c == '\u{2061}' || c == '\u{2062}'
            || c == '\u{2063}' || c == '\u{2064}' || c == '\u{202A}' || c == '\u{202B}' || c == '\u{202C}'
            || c == '\u{00AD}' {
            return true;
        }
        i = i + 1;
    }
    false
}

fn any_lookalike(s: &str) -> (b: bool)
    ensures
        b == has_lookalike(s@),
{
    let v = chars_of(s);
    let mut i: usize = 0;
    while i < v.len()
        invariant
            v@ == s@,
            i <= v@.len(),
            forall|j: int| 0 <= j < i ==> !is_lookalike_char(v@[j]),
        decreases v@.len() - i,
    {
        let c = v[i];
        if c == '\u{430}' || c == '\u{435}' || c == '\u{43e}' || c == '\u{440}' || c == '\u{441}'
            || c == '\u{443}' || c == '\u{456}' || c == 'x' {
            return true;
        }
        i = i + 1;
    }
    false
}

/// The hidden-character findings: the hosts file when it holds such a
/// character, then each startup entry whose name does; or `None`.
pub open spec fn bidi_reading(hosts: Option<Seq<char>>, startup: Seq<Seq<char>>) -> Seq<Seq<char>> {
    let h: Seq<Seq<char>> = match hosts {
        Some(c) => if has_hidden(c) { seq!["C:\\Windows\\System32\\drivers\\etc\\hosts"@] } else { Seq::empty() },
        None => Seq::empty(),
    };
    or_single(h + startup.filter(|n: Seq<char>| has_hidden(n)).map_values(|n: Seq<char>| "Startup: "@ + n), "None"@)
}

/// Looks for hidden characters in the hosts file and in startup entry names.
pub fn read_unicode_bidi_files(hosts: Option<String>, startup_names: &Vec<String>) -> (r: Vec<String>)
    ensures
        views(r@) == bidi_reading(opt_view(hosts), views(startup_names@)),
{
    let mut u: Vec<String> = Vec::new();
    let hit = match &hosts {
        Some(c) => any_hidden(c.as_str()),
        None => false,
    };
    if hit {
        u.push(owned("C:\\Windows\\System32\\drivers\\etc\\hosts"));
    }
    let ghost h = views(u@);
    let ghost pred = |n: Seq<char>| has_hidden(n);
    let ghost tag = |n: Seq<char>| "Startup: "@ + n;
    proof {
        if hit {
            assert(h =~= seq!["C:\\Windows\\System32\\drivers\\etc\\hosts"@]);
        } else {
            assert(h =~= Seq::<Seq<char>>::empty());
        }
        assert(views(startup_names@).subrange(0, 0).filter(pred) =~= Seq::<Seq<char>>::empty());
        assert(views(u@) =~= h + views(startup_names@).subrange(0, 0).filter(pred).map_values(tag));
    }
    let mut i: usize = 0;
    while i < startup_names.len()
        invariant
            i <= startup_names@.len(),
            pred == (|n: Seq<char>| has_hidden(n)),
            tag == (|n: Seq<char>| "Startup: "@ + n),
            views(u@) == h + views(startup_names@).subrange(0, i as int).filter(pred).map_values(tag),
        decreases startup_names@.len() - i,
    {
        let name = startup_names[i].as_str();
        let ghost before = views(u@);
        let ghost prefix = views(startup_names@).subrange(0, i as int);
        let ghost s = views(startup_names@).subrange(0, i + 1);
        proof {
            assert(s.drop_last() =~= prefix);
            assert(s.last() == startup_names@[i as int]@);
            reveal_with_fuel(Seq::filter, 1);
        }
        if any_hidden(name) {
            let mut e = owned("Startup: ");
            append(&mut e, name);
            u.push(e);
            proof {
                assert(s.filter(pred) =~= prefix.filter(pred).push(name@));
                assert(s.filter(pred).map_values(tag) =~= prefix.filter(pred).map_values(tag).push(e@));
                assert(views(u@) =~= before.push(e@));
            }
        } else {
            proof {
                assert(s.filter(pred) =~= prefix.filter(pred));
            }
        }
        i = i + 1;
    }
    proof {
        assert(views(startup_names@).subrange(0, i as int) =~= views(startup_names@));
    }
    or_fallback(u, "None")
}

/// Hosts lines with a look-alike character that are not comments, trimmed.
pub open spec fn lookalike_hosts_upto(ls: Seq<Seq<char>>, n: int) -> Seq<Seq<char>>
    decreases n,
{
    if n <= 0 || n > ls.len() {
        Seq::empty()
    } else if has_lookalike(ls[n - 1]) && !starts_with(ls[n - 1], "#"@) {
        lookalike_hosts_upto(ls, n - 1).push(trimmed(ls[n - 1]))
    } else {
        lookalike_hosts_upto(ls, n - 1)
    }
}

/// The look-alike findings: DNS entries holding such a character, then
/// hosts-file lines that do; or `None`.
pub open spec fn homoglyph_reading(dns: Seq<Seq<char>>, hosts: Option<Seq<char>>) -> Seq<Seq<char>> {
    let from_hosts = match hosts {
        Some(c) => lookalike_hosts_upto(lines_of(c), lines_of(c).len() as int),
        None => Seq::empty(),
    };
    or_single(dns.filter(|d: Seq<char>| has_lookalike(d)) + from_hosts, "None"@)
}

/// Looks for look-alike characters in the DNS servers and the hosts file.
pub fn read_homoglyph_domains(dns: &Vec<String>, hosts: Option<String>) -> (r: Vec<String>)
    ensures
        views(r@) == homoglyph_reading(views(dns@), opt_view(hosts)),
{
    let mut h: Vec<String> = Vec::new();
    let ghost pred = |d: Seq<char>| has_lookalike(d);
    let mut i: usize = 0;
    proof {
        assert(views(h@) =~= views(dns@).subrange(0, 0).filter(pred));
    }
    while i < dns.len()
        invariant
            i <= dns@.len(),
            pred == (|d: Seq<char>| has_lookalike(d)),
            views(h@) == views(dns@).subrange(0, i as int).filter(pred),
        decreases dns@.len() - i,
    {
        let ghost before = views(h@);
        let ghost s = views(dns@).subrange(0, i + 1);
        proof {
            assert(s.drop_last() =~= views(dns@).subrange(0, i as int));
            assert(s.last() == dns@[i as int]@);
            reveal_with_fuel(Seq::filter, 1);
        }
        if any_lookalike(dns[i].as_str()) {
            let c = dns[i].clone();
            h.push(c);
            proof {
                assert(views(h@) =~= before.push(c@));
            }
        }
        i = i + 1;
    }
    proof {
        assert(views(dns@).subrange(0, i as int) =~= views(dns@));
    }
    let ghost from_dns = views(h@);
    match &hosts {
        Some(c) => {
            let ls = lines(c.as_str());
            let mut k: usize = 0;
            proof {
                assert(views(h@) =~= from_dns + lookalike_hosts_upto(lines_of(c@), 0));
            }
            while k < ls.len()
                invariant
                    k <= ls@.len(),
                    views(ls@) == lines_of(c@),
                    views(h@) == from_dns + lookalike_hosts_upto(lines_of(c@), k as int),
                decreases ls@.len() - k,
            {
                proof {
                    assert(views(ls@)[k as int] == ls@[k as int]@);
                }
                let l = ls[k].as_str();
                if any_lookalike(l) && !str_starts_with(l, "#") {
                    let t = trim(l);
                    let ghost before = views(h@);
                    h.push(t);
                    proof {
                        assert(views(h@) =~= before.push(t@));
                    }
                }
                k = k + 1;
            }
        },
        None => {
            proof {
                assert(views(h@) =~= from_dns + Seq::<Seq<char>>::empty());
            }
        },
    }
    or_fallback(h, "None")
}

// ============================================
// PORT SCAN, CANARY FILES, HOSTS HASH
// ============================================

/// The text before the last `:` in `s`, if there is one.
pub open spec fn before_last_colon(s: Seq<char>) -> Option<Seq<char>>
    decreases s.len(),
{
    if s.len() == 0 {
        None
    } else if s.last() == ':' {
        Some(s.drop_last())
    } else {
        before_last_colon(s.drop_last())
    }
}

/// A remote address from a private or excluded range.
pub open spec fn is_excluded_remote(ip: Seq<char>) -> bool {
    starts_with(ip, "127."@) || starts_with(ip, "192.168."@) || starts_with(ip, "10."@) || starts_with(ip, "23."@)
}

/// Remote addresses of established connections among the first `n` lines.
pub open spec fn remotes_upto(ls: Seq<Seq<char>>, n: int) -> Seq<Seq<char>>
    decreases n,
{
    if n <= 0 || n > ls.len() {
        Seq::empty()
    } else {
        let parts = words_of(ls[n - 1]);
        let prev = remotes_upto(ls, n - 1);
        if parts.len() >= 4 && parts[3] == "ESTABLISHED"@ {
            match before_last_colon(parts[2]) {
                Some(ip) => if !is_excluded_remote(ip) { prev.push(ip) } else { prev },
                None => prev,
            }
        } else {
            prev
        }
    }
}

/// How often `x` occurs in `s`.
pub open spec fn count_in(s: Seq<Seq<char>>, x: Seq<char>) -> nat
    decreases s.len(),
{
    if s.len() == 0 { 0 } else { count_in(s.drop_last(), x) + if s.last() == x { 1nat } else { 0nat } }
}

/// The first of `ips` (from index `k` on) that occurs more than `threshold` times.
pub open spec fn first_over(ips: Seq<Seq<char>>, threshold: nat, k: int) -> Seq<char>
    decreases ips.len() - k,
{
    if k < 0 || k >= ips.len() {
        Seq::empty()
    } else if count_in(ips, ips[k]) > threshold {
        ips[k]
    } else {
        first_over(ips, threshold, k + 1)
    }
}

/// A netstat listing no line of which has exactly three fields (such a line
/// cannot be read as a connection).
pub open spec fn netstat_well_formed(o: Seq<char>) -> bool {
    forall|i: int| 0 <= i < body_lines(o).len() ==> words_of(#[trigger] body_lines(o)[i]).len() != 3
}

/// The port-scan suspect: the first public remote address holding more than
/// `threshold` established connections, or empty.
pub open spec fn port_scan_reading(out: Option<Seq<char>>, threshold: nat) -> Seq<char> {
    match out {
        Some(o) => {
            let ips = remotes_upto(body_lines(o), body_lines(o).len() as int);
            first_over(ips, threshold, 0)
        },
        None => Seq::empty(),
    }
}

fn last_colon_prefix(s: &str) -> (r: Option<String>)
    ensures
        match r {
            Some(p) => before_last_colon(s@) == Some(p@),
            None => before_last_colon(s@) is None,
        },
{
    let v = chars_of(s);
    let mut n = v.len();
    proof {
        assert(v@.subrange(0, n as int) =~= s@);
    }
    while n > 0
        invariant
            n <= v@.len(),
            v@ == s@,
            before_last_colon(v@.subrange(0, n as int)) == before_last_colon(s@),
        decreases n,
    {
        proof {
            assert(v@.subrange(0, n as int).drop_last() =~= v@.subrange(0, n - 1));
        }
        if v[n - 1] == ':' {
            return Some(crate::text::sub_string(v.as_slice(), 0, n - 1));
        }
        n = n - 1;
    }
    proof {
        assert(v@.subrange(0, 0) =~= Seq::<char>::empty());
        assert(v@.subrange(0, v@.len() as int) =~= s@);
    }
    None
}

fn count_of(v: &Vec<String>, x: &str) -> (c: usize)
    ensures
        c == count_in(views(v@), x@),
{
    let mut c: usize = 0;
    let mut i: usize = 0;
    while i < v.len()
        invariant
            i <= v@.len(),
            c == count_in(views(v@).subrange(0, i as int), x@),
            c <= i,
        decreases v@.len() - i,
    {
        proof {
            let s = views(v@).subrange(0, i + 1);
            assert(s.drop_last() =~= views(v@).subrange(0, i as int));
            assert(s.last() == v@[i as int]@);
        }
        if str_eq(v[i].as_str(), x) {
            c = c + 1;
        }
        i = i + 1;
    }
    proof {
        assert(views(v@).subrange(0, i as int) =~= views(v@));
    }
    c
}

/// Looks for one remote address holding many established connections.
pub fn detect_port_scan(out: Option<String>, threshold: usize) -> (r: String)
    requires
        out matches Some(o) ==> netstat_well_formed(o@),
    ensures
        r@ == port_scan_reading(opt_view(out), threshold as nat),
{
    match &out {
        Some(o) => {
            let all = lines(o.as_str());
            let ghost body = body_lines(o@);
            let mut ips: Vec<String> = Vec::new();
            let mut i: usize = 4;
            proof {
                assert(views(ips@) =~= Seq::<Seq<char>>::empty());
            }
            while i < all.len()
                invariant
                    4 <= i,
                    views(all@) == lines_of(o@),
                    body == body_lines(o@),
                    i <= all@.len() || all@.len() <= 4,
                    all@.len() > 4 ==> views(ips@) == remotes_upto(body, i - 4),
                    all@.len() <= 4 ==> ips@.len() == 0,
                decreases all@.len() - i,
            {
                proof {
                    assert(views(all@)[i as int] == all@[i as int]@);
                    assert(body[i - 4] == all@[i as int]@);
                }
                let parts = split_whitespace(all[i].as_str());
                if parts.len() >= 4 && str_eq(parts[3].as_str(), "ESTABLISHED") {
                    proof {
                        assert(views(parts@)[3] == parts@[3]@);
                        assert(views(parts@)[2] == parts@[2]@);
                    }
                    match last_colon_prefix(parts[2].as_str()) {
                        Some(ip) => {
                            let excluded = str_starts_with(ip.as_str(), "127.") || str_starts_with(ip.as_str(), "192.168.")
                                || str_starts_with(ip.as_str(), "10.") || str_starts_with(ip.as_str(), "23.");
                            if !excluded {
                                let ghost before = ips@;
                                ips.push(ip);
                                proof {
                                    assert(views(ips@) =~= views(before).push(ip@));
                                }
                            }
                        },
                        None => {},
                    }
                }
                i = i + 1;
            }
            proof {
                if all@.len() <= 4 {
                    assert(views(ips@) =~= remotes_upto(body, body.len() as int));
                }
            }
            assert(views(ips@) == remotes_upto(body_lines(o@), body_lines(o@).len() as int));
            let mut k: usize = 0;
            while k < ips.len()
                invariant
                    k <= ips@.len(),
                    views(ips@) == remotes_upto(body_lines(o@), body_lines(o@).len() as int),
                    out matches Some(x) && x@ == o@,
                    first_over(views(ips@), threshold as nat, k as int) == first_over(views(ips@), threshold as nat, 0),
                decreases ips@.len() - k,
            {
                proof {
                    assert(views(ips@)[k as int] == ips@[k as int]@);
                }
                if count_of(&ips, ips[k].as_str()) > threshold {
                    return ips[k].clone();
                }
                k = k + 1;
            }
            String::new()
        },
        None => String::new(),
    }
}

/// How many canary files were modified less than 30 seconds ago (by age in
/// seconds; `None` for a file whose age could not be read).
pub open spec fn fresh_canaries(ages: Seq<Option<u64>>) -> nat
    decreases ages.len(),
{
    if ages.len() == 0 {
        0
    } else {
        fresh_canaries(ages.drop_last()) + match ages.last() {
            Some(a) => if a < 30 { 1nat } else { 0nat },
            None => 0nat,
        }
    }
}

/// Ransomware canary check: all five canary files touched within 30 seconds.
pub fn check_ransomware(ages: &Vec<Option<u64>>) -> (tripped: bool)
    ensures
        tripped == (fresh_canaries(ages@) >= 5),
{
    let mut n: usize = 0;
    let mut i: usize = 0;
    while i < ages.len()
        invariant
            i <= ages@.len(),
            n == fresh_canaries(ages@.subrange(0, i as int)),
            n <= i,
        decreases ages@.len() - i,
    {
        proof {
            assert(ages@.subrange(0, i + 1).drop_last() =~= ages@.subrange(0, i as int));
        }
        match ages[i] {
            Some(a) => if a < 30 { n = n + 1; },
            None => {},
        }
        i = i + 1;
    }
    proof {
        assert(ages@.subrange(0, i as int) =~= ages@);
    }
    n >= 5
}

/// The hosts-file fingerprint: lowercase hex SHA-256 of its text, or
/// `unreadable`.
pub fn read_hosts_hash(content: Option<String>) -> (h: String)
    requires
        content matches Some(c) ==> c@.len() < crate::crypto::hash_char_limit(),
    ensures
        match content {
            Some(c) => h@ == crate::crypto::hex_lower(crate::crypto::sha256(vstd::utf8::encode_utf8(c@))),
            None => h@ == "unreadable"@,
        },
{
    match &content {
        Some(c) => crate::crypto::sha256_hex(c.as_str()),
        None => owned("unreadable"),
    }
}

/// The reading of Defender real-time protection.
pub fn read_defender(out: Option<String>) -> (r: String)
    ensures
        r@ == word_reading(opt_view(out), seq![("True"@, "ON"@), ("False"@, "OFF"@)], "Unknown"@, "Unknown"@),
{
    let w = [("True", "ON"), ("False", "OFF")];
    proof {
        assert(pair_seq(w@) =~= seq![("True"@, "ON"@), ("False"@, "OFF"@)]);
    }
    read_word(out, &w, "Unknown", "Unknown")
}

/// The reading of Secure Boot.
pub fn read_secure_boot(out: Option<String>) -> (r: String)
    ensures
        r@ == word_reading(opt_view(out), seq![("True"@, "ON"@)], "OFF"@, "Unknown"@),
{
    let w = [("True", "ON")];
    proof {
        assert(pair_seq(w@) =~= seq![("True"@, "ON"@)]);
    }
    read_word(out, &w, "OFF", "Unknown")
}

/// The reading of UAC (EnableLUA).
pub fn read_uac(out: Option<String>) -> (r: String)
    ensures
        r@ == word_reading(opt_view(out), seq![("1"@, "ON"@), ("0"@, "OFF"@)], "Unknown"@, "Unknown"@),
{
    let w = [("1", "ON"), ("0", "OFF")];
    proof {
        assert(pair_seq(w@) =~= seq![("1"@, "ON"@), ("0"@, "OFF"@)]);
    }
    read_word(out, &w, "Unknown", "Unknown")
}

/// The reading of the Windows Update service.
pub fn read_windows_update(out: Option<String>) -> (r: String)
    ensures
        r@ == word_reading(opt_view(out), seq![("Running"@, "ON"@), ("Stopped"@, "OFF"@)], "Unknown"@, "Unknown"@),
{
    let w = [("Running", "ON"), ("Stopped", "OFF")];
    proof {
        assert(pair_seq(w@) =~= seq![("Running"@, "ON"@), ("Stopped"@, "OFF"@)]);
    }
    read_word(out, &w, "Unknown", "Unknown")
}

/// The reading of the network category.
pub fn read_wifi_profile(out: Option<String>) -> (r: String)
    ensures
        r@ == word_reading(opt_view(out), seq![("Public"@, "PUBLIC"@), ("Private"@, "PRIVATE"@), ("Domain"@, "DOMAIN"@)], "Unknown"@, "Unknown"@),
{
    let w = [("Public", "PUBLIC"), ("Private", "PRIVATE"), ("Domain", "DOMAIN")];
    proof {
        assert(pair_seq(w@) =~= seq![("Public"@, "PUBLIC"@), ("Private"@, "PRIVATE"@), ("Domain"@, "DOMAIN"@)]);
    }
    read_word(out, &w, "Unknown", "Unknown")
}

/// The reading of DNS over HTTPS.
pub fn read_doh(out: Option<String>) -> (r: String)
    ensures
        r@ == word_reading(opt_view(out), seq![("True"@, "ON"@), ("False"@, "OFF"@)], "Unknown"@, "Unknown"@),
{
    let w = [("True", "ON"), ("False", "OFF")];
    proof {
        assert(pair_seq(w@) =~= seq![("True"@, "ON"@), ("False"@, "OFF"@)]);
    }
    read_word(out, &w, "Unknown", "Unknown")
}

/// The reading of LAPS.
pub fn read_laps(out: Option<String>) -> (r: String)
    ensures
        r@ == word_reading(opt_view(out), seq![("1"@, "ENABLED"@), ("0"@, "DISABLED"@)], "NOT_INSTALLED"@, "NOT_INSTALLED"@),
{
    let w = [("1", "ENABLED"), ("0", "DISABLED")];
    proof {
        assert(pair_seq(w@) =~= seq![("1"@, "ENABLED"@), ("0"@, "DISABLED"@)]);
    }
    read_word(out, &w, "NOT_INSTALLED", "NOT_INSTALLED")
}

/// Whether a netstat listing can be read line by line as connections.
pub fn netstat_readable(o: &str) -> (b: bool)
    ensures
        b == netstat_well_formed(o@),
{
    let all = lines(o);
    let mut i: usize = 4;
    while i < all.len()
        invariant
            4 <= i,
            views(all@) == lines_of(o@),
            all@.len() > 4 ==> i <= all@.len(),
            forall|j: int| 0 <= j < i - 4 && j < body_lines(o@).len() ==> words_of(#[trigger] body_lines(o@)[j]).len() != 3,
        decreases all@.len() - i,
    {
        proof {
            assert(views(all@)[i as int] == all@[i as int]@);
            assert(body_lines(o@)[i - 4] == all@[i as int]@);
        }
        let parts = split_whitespace(all[i].as_str());
        if parts.len() == 3 {
            return false;
        }
        i = i + 1;
    }
    true
}

/// The firewall profile reading (`Unknown` when nothing was listed).
pub fn read_firewall(out: Option<String>) -> (r: Vec<String>)
    ensures
        views(r@) == listing(opt_view(out), "Unknown"@),
{
    read_listing(out, "Unknown")
}

/// The startup entries: the names in the Startup folder, then the Run-key
/// values listed; or `None`.
pub fn read_startup(folder_names: Vec<String>, run_key: Option<String>) -> (r: Vec<String>)
    ensures
        views(r@) == or_single(views(folder_names@) + match run_key {
            Some(o) => trimmed_lines_of(o@),
            None => Seq::empty(),
        }, "None"@),
{
    let mut e = folder_names;
    let ghost first = views(e@);
    match &run_key {
        Some(o) => {
            let more = trimmed_lines(o.as_str());
            let mut i: usize = 0;
            while i < more.len()
                invariant
                    i <= more@.len(),
                    views(e@) == first + views(more@).subrange(0, i as int),
                decreases more@.len() - i,
            {
                let c = more[i].clone();
                let ghost before = e@;
                e.push(c);
                proof {
                    assert(views(e@) =~= views(before).push(c@));
                    assert(views(more@).subrange(0, i + 1) =~= views(more@).subrange(0, i as int).push(c@));
                }
                i = i + 1;
            }
            proof {
                assert(views(more@).subrange(0, i as int) =~= views(more@));
            }
        },
        None => {
            proof {
                assert(first + Seq::<Seq<char>>::empty() =~= first);
            }
        },
    }
    or_fallback(e, "None")
}

// ============================================
// THE SNAPSHOT
// ============================================

/// What every probe of a snapshot gave: each command's standard output
/// (absent when it could not run), the hosts file (absent when unreadable),
/// and the names found in the Startup folder and in the user's Desktop and
/// Downloads folders.
pub struct ProbeOutputs {
    pub dns: Option<String>,
    pub hosts: Option<String>,
    pub arp: Option<String>,
    pub wifi: Option<String>,
    pub proxy: Option<String>,
    pub adapters: Option<String>,
    pub netstat: Option<String>,
    pub startup_names: Vec<String>,
    pub run_key: Option<String>,
    pub firewall: Option<String>,
    pub tasks: Option<String>,
    pub services: Option<String>,
    pub defender: Option<String>,
    pub secure_boot: Option<String>,
    pub login_failures: Option<String>,
    pub processes: Option<String>,
    pub bluetooth: Option<String>,
    pub hid: Option<String>,
    pub software: Option<String>,
    pub user_files: Vec<String>,
    pub uac: Option<String>,
    pub windows_update: Option<String>,
    pub restore_service: Option<String>,
    pub restore_points: Option<String>,
    pub event_log: Option<String>,
    pub smart_screen_explorer: Option<String>,
    pub smart_screen_defender: Option<String>,
    pub vpn_adapters: Option<String>,
    pub vpn_processes: Option<String>,
    pub ipv6: Option<String>,
    pub wifi_profile: Option<String>,
    pub doh: Option<String>,
    pub laps: Option<String>,
}

/// A positive count in an optional output.
pub open spec fn counted(out: Option<String>) -> bool {
    match out {
        Some(o) => positive_count(o@),
        None => false,
    }
}

/// The snapshot the probe outputs read as. The signals no probe reads yet
/// (DHCP server, BitLocker, Credential Guard, RDP) stay empty.
pub open spec fn snapshot_of(r: ProbeOutputs) -> StateView {
    let dns = dns_reading(opt_view(r.dns));
    StateView {
        dns_servers: dns,
        hosts_hash: match r.hosts {
            Some(c) => crate::crypto::hex_lower(crate::crypto::sha256(vstd::utf8::encode_utf8(c@))),
            None => "unreadable"@,
        },
        arp_table: arp_reading(opt_view(r.arp)),
        wifi_ssid: single_reading(opt_view(r.wifi), "Unknown"@),
        proxy_settings: listing(opt_view(r.proxy), "None"@),
        network_devices: devices_reading(opt_view(r.arp)),
        network_adapters: listing(opt_view(r.adapters), "None"@),
        listening_ports: ports_reading(opt_view(r.netstat)),
        startup_entries: or_single(views(r.startup_names@) + match r.run_key {
            Some(o) => trimmed_lines_of(o@),
            None => Seq::empty(),
        }, "None"@),
        firewall_profiles: listing(opt_view(r.firewall), "Unknown"@),
        scheduled_tasks: listing(opt_view(r.tasks), "None"@),
        services_list: listing(opt_view(r.services), "None"@),
        defender_status: word_reading(opt_view(r.defender), seq![("True"@, "ON"@), ("False"@, "OFF"@)], "Unknown"@, "Unknown"@),
        secure_boot: word_reading(opt_view(r.secure_boot), seq![("True"@, "ON"@)], "OFF"@, "Unknown"@),
        login_failures: login_reading(opt_view(r.login_failures)),
        suspicious_processes: listing(opt_view(r.processes), "None"@),
        root_cas: seq!["None"@],
        bt_devices: listing(opt_view(r.bluetooth), "None"@),
        hid_devices: listing(opt_view(r.hid), "None"@),
        installed_software: software_reading(opt_view(r.software)),
        fake_extensions: fake_files(views(r.user_files@)),
        unicode_bidi_files: bidi_reading(opt_view(r.hosts), views(r.startup_names@)),
        homoglyph_domains: homoglyph_reading(dns, opt_view(r.hosts)),
        uac_status: word_reading(opt_view(r.uac), seq![("1"@, "ON"@), ("0"@, "OFF"@)], "Unknown"@, "Unknown"@),
        windows_update_status: word_reading(opt_view(r.windows_update), seq![("Running"@, "ON"@), ("Stopped"@, "OFF"@)], "Unknown"@, "Unknown"@),
        system_restore_status: two_step(opt_view(r.restore_service), seq![("Running"@, "ON"@)],
            if counted(r.restore_points) { "ON"@ } else { "OFF"@ }),
        event_log_status: word_reading(opt_view(r.event_log), seq![("0"@, "EMPTY"@)], "OK"@, "Unknown"@),
        smart_screen_status: two_step(opt_view(r.smart_screen_explorer),
            seq![("RequireAdmin"@, "ON"@), ("Enabled"@, "ON"@), ("Off"@, "OFF"@)],
            word_reading(opt_view(r.smart_screen_defender), seq![("True"@, "ON"@), ("False"@, "OFF"@)], "Unknown"@, "Unknown"@)),
        vpn_status: if counted(r.vpn_adapters) || counted(r.vpn_processes) { "CONNECTED"@ } else { "DISCONNECTED"@ },
        ipv6_status: if counted(r.ipv6) { "ON"@ } else { "OFF"@ },
        wifi_profile_status: word_reading(opt_view(r.wifi_profile),
            seq![("Public"@, "PUBLIC"@), ("Private"@, "PRIVATE"@), ("Domain"@, "DOMAIN"@)], "Unknown"@, "Unknown"@),
        doh_status: word_reading(opt_view(r.doh), seq![("True"@, "ON"@), ("False"@, "OFF"@)], "Unknown"@, "Unknown"@),
        laps_status: word_reading(opt_view(r.laps), seq![("1"@, "ENABLED"@), ("0"@, "DISABLED"@)], "NOT_INSTALLED"@, "NOT_INSTALLED"@),
        dhcp_server: Seq::empty(),
        bitlocker_status: Seq::empty(),
        credential_guard_status: Seq::empty(),
        rdp_status: Seq::empty(),
    }
}

fn copy_opt(o: &Option<String>) -> (r: Option<String>)
    ensures
        opt_view(r) == opt_view(*o),
{
    match o {
        Some(s) => Some(owned(s.as_str())),
        None => None,
    }
}

/// Reads one snapshot of every monitored signal from the probes' outputs.
pub fn collect_state(raw: ProbeOutputs) -> (s: SystemState)
    requires
        raw.hosts matches Some(c) ==> c@.len() < crate::crypto::hash_char_limit(),
    ensures
        s@ == snapshot_of(raw),
{
    let ghost r = raw;
    let dns_servers = read_dns(raw.dns);
    let homoglyph_domains = read_homoglyph_domains(&dns_servers, copy_opt(&raw.hosts));
    let unicode_bidi_files = read_unicode_bidi_files(copy_opt(&raw.hosts), &raw.startup_names);
    let arp_table = read_arp(copy_opt(&raw.arp));
    let network_devices = read_network_devices(raw.arp);
    let fake_extensions = read_fake_extensions(&raw.user_files);
    let s = SystemState {
        hosts_hash: read_hosts_hash(raw.hosts),
        arp_table,
        wifi_ssid: read_wifi(raw.wifi),
        proxy_settings: read_listing(raw.proxy, "None"),
        network_devices,
        network_adapters: read_listing(raw.adapters, "None"),
        listening_ports: read_ports(raw.netstat),
        startup_entries: read_startup(raw.startup_names, raw.run_key),
        firewall_profiles: read_firewall(raw.firewall),
        scheduled_tasks: read_listing(raw.tasks, "None"),
        services_list: read_listing(raw.services, "None"),
        defender_status: read_defender(raw.defender),
        secure_boot: read_secure_boot(raw.secure_boot),
        login_failures: read_login_failures(raw.login_failures),
        suspicious_processes: read_listing(raw.processes, "None"),
        root_cas: crate::detect::get_filtered_root_cas(),
        bt_devices: read_listing(raw.bluetooth, "None"),
        hid_devices: read_listing(raw.hid, "None"),
        installed_software: read_installed_software(raw.software),
        fake_extensions,
        unicode_bidi_files,
        homoglyph_domains,
        dns_servers,
        uac_status: read_uac(raw.uac),
        windows_update_status: read_windows_update(raw.windows_update),
        system_restore_status: read_system_restore(raw.restore_service, raw.restore_points),
        event_log_status: read_event_log(raw.event_log),
        smart_screen_status: read_smart_screen(raw.smart_screen_explorer, raw.smart_screen_defender),
        vpn_status: read_vpn(raw.vpn_adapters, raw.vpn_processes),
        ipv6_status: read_ipv6(raw.ipv6),
        wifi_profile_status: read_wifi_profile(raw.wifi_profile),
        doh_status: read_doh(raw.doh),
        laps_status: read_laps(raw.laps),
        dhcp_server: String::new(),
        bitlocker_status: String::new(),
        credential_guard_status: String::new(),
        rdp_status: String::new(),
    };
    proof {
        assert(views(s.root_cas@) == seq!["None"@]);
    }
    s
}

} // verus!

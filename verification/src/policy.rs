//! Policy engine: context-aware deductions for a few categories.
//!
//! VPN disconnected on public WiFi costs points; at home it does not. A
//! disabled firewall or Defender costs the same in every context.

use vstd::prelude::*;
use crate::text::{owned, str_eq, views};

verus! {

#[derive(Debug, Clone, Copy)]
pub struct PolicyContext {
    pub is_public_wifi: bool,
    pub is_vpn_connected: bool,
    pub is_home_network: bool,
    pub is_locked_down: bool,
}

#[derive(Debug, Clone)]
pub struct PolicyRule {
    pub category: String,
    pub condition: String,
    pub severity: String,
    pub deduction: u8,
    pub priority: u8,
}

#[derive(Debug, Clone)]
pub struct PolicyResult {
    pub deduction: u8,
    pub reason: String,
}

/// The deduction and reason a category earns in a context.
pub open spec fn spec_evaluate(category: Seq<char>, c: PolicyContext) -> (u8, Seq<char>) {
    if category == "vpn"@ {
        if c.is_public_wifi && !c.is_vpn_connected {
            (12, "VPN disconnected on public WiFi — traffic exposed"@)
        } else if c.is_public_wifi && c.is_vpn_connected {
            (0, "VPN connected on public WiFi — traffic protected"@)
        } else if c.is_home_network && !c.is_vpn_connected {
            (0, "No VPN needed on trusted home network"@)
        } else {
            (0, "VPN status normal"@)
        }
    } else if category == "wifi_profile"@ {
        if c.is_public_wifi {
            (2, "WiFi profile is Public — device is discoverable"@)
        } else {
            (0, "WiFi profile is Private — device hidden"@)
        }
    } else if category == "firewall"@ {
        (20, "Firewall is disabled — system exposed"@)
    } else if category == "defender"@ {
        (20, "Windows Defender is disabled — no real-time protection"@)
    } else {
        (0, "No policy applied"@)
    }
}

fn result(deduction: u8, reason: &str) -> (r: PolicyResult)
    ensures
        r.deduction == deduction,
        r.reason@ == reason@,
{
    PolicyResult { deduction, reason: owned(reason) }
}

/// Builds the policy context from the detected WiFi profile, VPN status,
/// configured home SSID (if any), current SSID and lockdown flag.
pub fn detect_context(
    wifi_profile: &str,
    vpn_status: &str,
    home_ssid: Option<String>,
    current_ssid: &str,
    is_locked_down: bool,
) -> (c: PolicyContext)
    ensures
        c.is_public_wifi == (wifi_profile@ == "PUBLIC"@),
        c.is_vpn_connected == (vpn_status@ == "CONNECTED"@),
        c.is_home_network == (current_ssid@ == match home_ssid {
            Some(h) => h@,
            None => "Unknown"@,
        }),
        c.is_locked_down == is_locked_down,
{
    let home = match home_ssid {
        Some(h) => h,
        None => owned("Unknown"),
    };
    PolicyContext {
        is_public_wifi: str_eq(wifi_profile, "PUBLIC"),
        is_vpn_connected: str_eq(vpn_status, "CONNECTED"),
        is_home_network: str_eq(current_ssid, home.as_str()),
        is_locked_down,
    }
}

fn evaluate_vpn(context: &PolicyContext) -> (r: PolicyResult)
    ensures
        (r.deduction, r.reason@) == spec_evaluate("vpn"@, *context),
{
    if context.is_public_wifi && !context.is_vpn_connected {
        result(12, "VPN disconnected on public WiFi — traffic exposed")
    } else if context.is_public_wifi && context.is_vpn_connected {
        result(0, "VPN connected on public WiFi — traffic protected")
    } else if context.is_home_network && !context.is_vpn_connected {
        result(0, "No VPN needed on trusted home network")
    } else {
        result(0, "VPN status normal")
    }
}

fn evaluate_wifi_profile(context: &PolicyContext) -> (r: PolicyResult)
    ensures
        (r.deduction, r.reason@) == spec_evaluate("wifi_profile"@, *context),
{
    proof {
        reveal_strlit("vpn");
        reveal_strlit("wifi_profile");
        reveal_strlit("firewall");
        reveal_strlit("defender");
        assert("wifi_profile"@.len() != "vpn"@.len());
        assert("firewall"@.len() != "vpn"@.len());
        assert("firewall"@.len() != "wifi_profile"@.len());
        assert("defender"@.len() != "vpn"@.len());
        assert("defender"@.len() != "wifi_profile"@.len());
        assert("defender"@[0] != "firewall"@[0]);
    }
    if context.is_public_wifi {
        result(2, "WiFi profile is Public — device is discoverable")
    } else {
        result(0, "WiFi profile is Private — device hidden")
    }
}

fn evaluate_firewall(_context: &PolicyContext) -> (r: PolicyResult)
    ensures
        (r.deduction, r.reason@) == spec_evaluate("firewall"@, *_context),
{
    proof {
        reveal_strlit("vpn");
        reveal_strlit("wifi_profile");
        reveal_strlit("firewall");
        reveal_strlit("defender");
        assert("wifi_profile"@.len() != "vpn"@.len());
        assert("firewall"@.len() != "vpn"@.len());
        assert("firewall"@.len() != "wifi_profile"@.len());
        assert("defender"@.len() != "vpn"@.len());
        assert("defender"@.len() != "wifi_profile"@.len());
        assert("defender"@[0] != "firewall"@[0]);
    }
    result(20, "Firewall is disabled — system exposed")
}

fn evaluate_defender(_context: &PolicyContext) -> (r: PolicyResult)
    ensures
        (r.deduction, r.reason@) == spec_evaluate("defender"@, *_context),
{
    proof {
        reveal_strlit("vpn");
        reveal_strlit("wifi_profile");
        reveal_strlit("firewall");
        reveal_strlit("defender");
        assert("wifi_profile"@.len() != "vpn"@.len());
        assert("firewall"@.len() != "vpn"@.len());
        assert("firewall"@.len() != "wifi_profile"@.len());
        assert("defender"@.len() != "vpn"@.len());
        assert("defender"@.len() != "wifi_profile"@.len());
        assert("defender"@[0] != "firewall"@[0]);
    }
    result(20, "Windows Defender is disabled — no real-time protection")
}

/// The policy result for one category in a context.
pub fn evaluate(category: &str, context: &PolicyContext) -> (r: PolicyResult)
    ensures
        (r.deduction, r.reason@) == spec_evaluate(category@, *context),
{
    if str_eq(category, "vpn") {
        evaluate_vpn(context)
    } else if str_eq(category, "wifi_profile") {
        evaluate_wifi_profile(context)
    } else if str_eq(category, "firewall") {
        evaluate_firewall(context)
    } else if str_eq(category, "defender") {
        evaluate_defender(context)
    } else {
        result(0, "No policy applied")
    }
}

/// The categories among the first `n` with a positive deduction, each once,
/// in the order they first appear.
pub open spec fn batch_upto(categories: Seq<Seq<char>>, c: PolicyContext, n: int) -> Seq<Seq<char>>
    decreases n,
{
    if n <= 0 || n > categories.len() {
        Seq::empty()
    } else {
        let prev = batch_upto(categories, c, n - 1);
        let cat = categories[n - 1];
        if spec_evaluate(cat, c).0 > 0 && !prev.contains(cat) { prev.push(cat) } else { prev }
    }
}

/// The categories a batch result is keyed by, in order.
pub open spec fn batch_keys(results: Seq<(String, PolicyResult)>) -> Seq<Seq<char>> {
    results.map_values(|e: (String, PolicyResult)| e.0@)
}

proof fn lemma_batch_upto_members(categories: Seq<Seq<char>>, c: PolicyContext, n: int)
    requires
        0 <= n <= categories.len(),
    ensures
        batch_upto(categories, c, n).no_duplicates(),
        forall|x: Seq<char>| #[trigger] batch_upto(categories, c, n).contains(x) <==>
            ((exists|j: int| 0 <= j < n && categories[j] == x) && spec_evaluate(x, c).0 > 0),
    decreases n,
{
    if n > 0 {
        lemma_batch_upto_members(categories, c, n - 1);
        let prev = batch_upto(categories, c, n - 1);
        let cat = categories[n - 1];
        assert forall|x: Seq<char>| #[trigger] batch_upto(categories, c, n).contains(x) <==>
            ((exists|j: int| 0 <= j < n && categories[j] == x) && spec_evaluate(x, c).0 > 0) by {
            let b = batch_upto(categories, c, n);
            if b.contains(x) {
                let k = choose|k: int| 0 <= k < b.len() && b[k] == x;
                if k < prev.len() {
                    assert(prev[k] == x);
                }
                if prev.contains(x) {
                    let j = choose|j: int| 0 <= j < n - 1 && categories[j] == x;
                    assert(0 <= j < n && categories[j] == x);
                } else {
                    assert(x == cat);
                    assert(categories[n - 1] == x);
                }
            }
            if (exists|j: int| 0 <= j < n && categories[j] == x) && spec_evaluate(x, c).0 > 0 {
                let j = choose|j: int| 0 <= j < n && categories[j] == x;
                if j < n - 1 {
                    assert(categories[j] == x);
                    assert(prev.contains(x));
                    let k = choose|k: int| 0 <= k < prev.len() && prev[k] == x;
                    assert(b[k] == x);
                } else {
                    assert(x == cat);
                    if !prev.contains(cat) {
                        assert(b[prev.len() as int] == x);
                    }
                }
            }
        }
    }
}

/// A batch evaluation keys exactly the listed categories that earn a
/// positive deduction in the context, and keys none of them twice.
pub proof fn law_batch_keys_are_positive_categories(categories: Seq<Seq<char>>, c: PolicyContext)
    ensures
        batch_upto(categories, c, categories.len() as int).no_duplicates(),
        forall|x: Seq<char>| #[trigger] batch_upto(categories, c, categories.len() as int).contains(x) <==>
            (categories.contains(x) && spec_evaluate(x, c).0 > 0),
{
    lemma_batch_upto_members(categories, c, categories.len() as int);
    assert forall|x: Seq<char>| #[trigger] batch_upto(categories, c, categories.len() as int).contains(x) <==>
        (categories.contains(x) && spec_evaluate(x, c).0 > 0) by {
        if categories.contains(x) {
            let j = choose|j: int| 0 <= j < categories.len() && categories[j] == x;
            assert(0 <= j < categories.len() && categories[j] == x);
        }
    }
}

fn keyed_contains(v: &Vec<(String, PolicyResult)>, s: &str) -> (r: bool)
    ensures
        r == batch_keys(v@).contains(s@),
{
    let ghost keys = batch_keys(v@);
    let mut i: usize = 0;
    while i < v.len()
        invariant
            i <= v@.len(),
            keys == batch_keys(v@),
            forall|j: int| 0 <= j < i ==> keys[j] != s@,
        decreases v@.len() - i,
    {
        if str_eq(v[i].0.as_str(), s) {
            assert(keys[i as int] == s@);
            return true;
        }
        i = i + 1;
    }
    false
}

/// The results of every category with a positive deduction, keyed by
/// category; a category listed twice appears once.
pub fn evaluate_batch(categories: &[String], context: &PolicyContext) -> (results: Vec<(String, PolicyResult)>)
    ensures
        batch_keys(results@) == batch_upto(views(categories@), *context, categories@.len() as int),
        forall|i: int| 0 <= i < results@.len() ==>
            (#[trigger] results@[i].1.deduction, results@[i].1.reason@) == spec_evaluate(results@[i].0@, *context),
        batch_keys(results@).no_duplicates(),
        forall|x: Seq<char>| #[trigger] batch_keys(results@).contains(x) <==>
            (views(categories@).contains(x) && spec_evaluate(x, *context).0 > 0),
{
    let mut results: Vec<(String, PolicyResult)> = Vec::new();
    let mut n: usize = 0;
    while n < categories.len()
        invariant
            n <= categories@.len(),
            batch_keys(results@) == batch_upto(views(categories@), *context, n as int),
            forall|i: int| 0 <= i < results@.len() ==>
                (#[trigger] results@[i].1.deduction, results@[i].1.reason@) == spec_evaluate(results@[i].0@, *context),
        decreases categories@.len() - n,
    {
        let cat = &categories[n];
        assert(views(categories@)[n as int] == cat@);
        let r = evaluate(cat.as_str(), context);
        if r.deduction > 0 && !keyed_contains(&results, cat.as_str()) {
            let ghost prev = results@;
            results.push((cat.clone(), r));
            proof {
                assert(batch_keys(results@)
                    =~= batch_keys(prev).push(cat@));
            }
        }
        n = n + 1;
    }
    proof {
        law_batch_keys_are_positive_categories(views(categories@), *context);
    }
    results
}

} // verus!

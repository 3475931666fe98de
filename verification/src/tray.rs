//! The tray companion's decisions: which icon and tooltip a daemon status
//! shows, which categories wait for approval, what a menu click does, and
//! when an unresponsive daemon is relaunched.

use vstd::prelude::*;
use crate::text::{views, decimal, decimal_string, append, str_eq, list_contains};

verus! {

broadcast use vstd::string::group_string_axioms;

/// The status the daemon publishes at `GET /`, as far as the tray reads it.
#[derive(Debug, Clone)]
pub struct DaemonStatus {
    pub status: Option<String>,
    pub trust_state: String,
    pub ghost_mode: bool,
    pub enabled: bool,
    pub integrity_score: Option<u8>,
    pub integrity_state: Option<String>,
    pub trust_level: Option<u8>,
    /// The daemon runs with administrator rights.
    pub elevated: bool,
    /// The executable failed its own signature check.
    pub tamper_detected: bool,
    /// The folder watch saw a burst of file changes.
    pub ransomware_alert: bool,
}

/// The tray icon colours.
#[derive(Debug, Clone, Copy, PartialEq, Eq, Structural)]
pub enum IconColor {
    Green,
    Yellow,
    Red,
    Blue,
    Gray,
}

pub open spec fn right_click() -> Seq<char> {
    "\nRight-click for menu"@
}

/// Icon and tooltip for a status without a score, from the state name and
/// then the trust state.
pub open spec fn unscored_display(s: DaemonStatus) -> (IconColor, Seq<char>) {
    match s.integrity_state {
        Some(st) if st@ == "Maintained"@ => (IconColor::Green, "\u{1f7e2} Maintained"@ + right_click()),
        Some(st) if st@ == "DriftDetected"@ => (IconColor::Yellow, "\u{1f7e1} Drift Detected"@ + right_click()),
        Some(st) if st@ == "Compromised"@ => (IconColor::Red, "\u{1f534} Compromised"@ + right_click()),
        Some(st) if st@ == "Lockdown"@ => (IconColor::Blue, "\u{1f535} Lockdown Active"@ + right_click()),
        _ => if s.trust_state@ == "Ghost"@ {
            (IconColor::Blue, "\u{1f535} Ghost Mode Active"@ + right_click())
        } else if s.trust_state@ == "Trusted"@ {
            if s.enabled {
                (IconColor::Green, "\u{1f7e2} Trusted - Active"@ + right_click())
            } else {
                (IconColor::Gray, "\u{26aa} Disabled - Monitor Only"@)
            }
        } else {
            (IconColor::Gray, "\u{26aa} Checking..."@)
        },
    }
}

/// Icon and tooltip for a status (or for no answer from the daemon).
/// Alerts come first: possible ransomware activity, then a failed tamper
/// check; then limited protection without administrator rights; then Ghost
/// Mode; otherwise the integrity score decides.
pub open spec fn display_spec(status: Option<DaemonStatus>) -> (IconColor, Seq<char>) {
    match status {
        None => (IconColor::Gray, "\u{26aa} Daemon offline"@),
        Some(s) => if s.ransomware_alert {
            (IconColor::Red, "\u{1f534} Possible ransomware activity detected"@ + right_click())
        } else if s.tamper_detected {
            (IconColor::Red, "\u{1f534} Security alert - executable tamper check failed"@ + right_click())
        } else if !s.elevated {
            (IconColor::Gray, "\u{26aa} Limited protection - running without admin rights"@ + right_click())
        } else if s.ghost_mode {
            (IconColor::Blue, "\u{1f535} Ghost Mode Active"@ + right_click())
        } else {
            scored_display(s)
        },
    }
}

/// Icon and tooltip from the integrity score (or, without one, the state
/// name and the trust state).
pub open spec fn scored_display(s: DaemonStatus) -> (IconColor, Seq<char>) {
    match s.integrity_score {
        Some(score) => if score >= 90 {
            if s.enabled {
                (IconColor::Green, "\u{1f7e2} Maintained - "@ + decimal(score as nat) + "%"@ + right_click())
            } else {
                (IconColor::Gray, "\u{26aa} Disabled - Monitor Only"@)
            }
        } else if score >= 70 {
            (IconColor::Yellow, "\u{1f7e1} Drift Detected - "@ + decimal(score as nat) + "%"@ + right_click())
        } else if score >= 40 {
            (IconColor::Red, "\u{1f534} Compromised - "@ + decimal(score as nat) + "%"@ + right_click())
        } else {
            (IconColor::Red, "\u{1f534} CRITICAL - "@ + decimal(score as nat) + "%"@ + right_click())
        },
        None => unscored_display(s),
    }
}

fn scored_tooltip(prefix: &str, score: u8) -> (t: String)
    ensures
        t@ == prefix@ + decimal(score as nat) + "%"@ + right_click(),
{
    let mut t = prefix.to_owned();
    let n = decimal_string(score as u64);
    append(&mut t, n.as_str());
    append(&mut t, "%");
    append(&mut t, "\nRight-click for menu");
    t
}

fn plain_tooltip(head: &str) -> (t: String)
    ensures
        t@ == head@ + right_click(),
{
    let mut t = head.to_owned();
    append(&mut t, "\nRight-click for menu");
    t
}

/// The icon and tooltip the tray shows for the latest status poll.
pub fn status_display(status: &Option<DaemonStatus>) -> (r: (IconColor, String))
    ensures
        (r.0, r.1@) == display_spec(*status),
{
    match status {
        None => (IconColor::Gray, String::from_str("\u{26aa} Daemon offline")),
        Some(s) if s.ransomware_alert => (IconColor::Red, plain_tooltip("\u{1f534} Possible ransomware activity detected")),
        Some(s) if s.tamper_detected => (IconColor::Red, plain_tooltip("\u{1f534} Security alert - executable tamper check failed")),
        Some(s) if !s.elevated => (IconColor::Gray, plain_tooltip("\u{26aa} Limited protection - running without admin rights")),
        Some(s) if s.ghost_mode => (IconColor::Blue, plain_tooltip("\u{1f535} Ghost Mode Active")),
        Some(s) => match s.integrity_score {
            Some(score) => {
                if score >= 90 {
                    if s.enabled {
                        (IconColor::Green, scored_tooltip("\u{1f7e2} Maintained - ", score))
                    } else {
                        (IconColor::Gray, String::from_str("\u{26aa} Disabled - Monitor Only"))
                    }
                } else if score >= 70 {
                    (IconColor::Yellow, scored_tooltip("\u{1f7e1} Drift Detected - ", score))
                } else if score >= 40 {
                    (IconColor::Red, scored_tooltip("\u{1f534} Compromised - ", score))
                } else {
                    (IconColor::Red, scored_tooltip("\u{1f534} CRITICAL - ", score))
                }
            },
            None => {
                let named: Option<(IconColor, String)> = match &s.integrity_state {
                    Some(st) => {
                        if str_eq(st.as_str(), "Maintained") {
                            Some((IconColor::Green, plain_tooltip("\u{1f7e2} Maintained")))
                        } else if str_eq(st.as_str(), "DriftDetected") {
                            Some((IconColor::Yellow, plain_tooltip("\u{1f7e1} Drift Detected")))
                        } else if str_eq(st.as_str(), "Compromised") {
                            Some((IconColor::Red, plain_tooltip("\u{1f534} Compromised")))
                        } else if str_eq(st.as_str(), "Lockdown") {
                            Some((IconColor::Blue, plain_tooltip("\u{1f535} Lockdown Active")))
                        } else {
                            None
                        }
                    },
                    None => None,
                };
                match named {
                    Some(r) => r,
                    None => {
                        if str_eq(s.trust_state.as_str(), "Ghost") {
                            (IconColor::Blue, plain_tooltip("\u{1f535} Ghost Mode Active"))
                        } else if str_eq(s.trust_state.as_str(), "Trusted") {
                            if s.enabled {
                                (IconColor::Green, plain_tooltip("\u{1f7e2} Trusted - Active"))
                            } else {
                                (IconColor::Gray, String::from_str("\u{26aa} Disabled - Monitor Only"))
                            }
                        } else {
                            (IconColor::Gray, String::from_str("\u{26aa} Checking..."))
                        }
                    },
                }
            },
        },
    }
}

/// The pending categories among the first `n` timeline records
/// (category, action, result), each once, in order of first appearance.
pub open spec fn pending_upto(records: Seq<(Seq<char>, Seq<char>, Seq<char>)>, n: int) -> Seq<Seq<char>>
    decreases n,
{
    if n <= 0 || n > records.len() {
        Seq::empty()
    } else {
        let prev = pending_upto(records, n - 1);
        let r = records[n - 1];
        if r.1 == "pending_approval"@ && r.2 == "AwaitingApproval"@ && !prev.contains(r.0) {
            prev.push(r.0)
        } else {
            prev
        }
    }
}

/// The categories waiting for approval in the timeline records.
pub fn get_pending_categories(records: &Vec<(String, String, String)>) -> (pending: Vec<String>)
    ensures
        views(pending@) == pending_upto(crate::behavior::triple_views(records@), records@.len() as int),
{
    let mut pending: Vec<String> = Vec::new();
    let mut i: usize = 0;
    proof {
        assert(views(pending@) =~= Seq::<Seq<char>>::empty());
    }
    while i < records.len()
        invariant
            i <= records@.len(),
            views(pending@) == pending_upto(crate::behavior::triple_views(records@), i as int),
        decreases records@.len() - i,
    {
        let r = &records[i];
        proof {
            assert(crate::behavior::triple_views(records@)[i as int] == (r.0@, r.1@, r.2@));
        }
        if str_eq(r.1.as_str(), "pending_approval") && str_eq(r.2.as_str(), "AwaitingApproval")
            && !list_contains(&pending, r.0.as_str()) {
            let c = r.0.clone();
            let ghost before = pending@;
            pending.push(c);
            proof {
                assert(views(pending@) =~= views(before).push(c@));
            }
        }
        i = i + 1;
    }
    pending
}

/// The label of the approval menu item.
pub fn approve_label(pending_count: usize) -> (l: String)
    ensures
        l@ == "Approve Pending Changes ("@ + decimal(pending_count as nat) + ")"@,
{
    let mut l = String::from_str("Approve Pending Changes (");
    let n = decimal_string(pending_count as u64);
    append(&mut l, n.as_str());
    append(&mut l, ")");
    l
}

/// What a tray menu click asks for.
#[derive(Debug, Clone, Copy, PartialEq, Eq, Structural)]
pub enum MenuAction {
    OpenDashboard,
    ApproveAll,
    Quit,
    Ignore,
}

pub fn menu_action(id: &str) -> (a: MenuAction)
    ensures
        a == (if id@ == "open_dashboard"@ {
            MenuAction::OpenDashboard
        } else if id@ == "approve_all"@ {
            MenuAction::ApproveAll
        } else if id@ == "quit_app"@ {
            MenuAction::Quit
        } else {
            MenuAction::Ignore
        }),
{
    if str_eq(id, "open_dashboard") {
        MenuAction::OpenDashboard
    } else if str_eq(id, "approve_all") {
        MenuAction::ApproveAll
    } else if str_eq(id, "quit_app") {
        MenuAction::Quit
    } else {
        MenuAction::Ignore
    }
}

/// Failed polls needed before a relaunch.
pub const RELAUNCH_AFTER_FAILURES: u32 = 3;
/// Minimum time between relaunches, in milliseconds.
pub const RELAUNCH_COOLDOWN_MS: u64 = 30000;

/// The poller's memory of failures and of the last relaunch.
pub struct RelaunchWatch {
    pub consecutive_failures: u32,
    pub last_relaunch: Option<u64>,
}

impl RelaunchWatch {
    pub fn new() -> (w: RelaunchWatch)
        ensures
            w.consecutive_failures == 0,
            w.last_relaunch is None,
    {
        RelaunchWatch { consecutive_failures: 0, last_relaunch: None }
    }

    /// A successful poll resets the failure count.
    pub fn on_success(&mut self)
        ensures
            final(self).consecutive_failures == 0,
            final(self).last_relaunch == old(self).last_relaunch,
    {
        self.consecutive_failures = 0;
    }

    /// A failed poll at `now` (ms); returns whether to relaunch the daemon:
    /// after three failures in a row, at most once per cooldown.
    pub fn on_failure(&mut self, now: u64) -> (relaunch: bool)
        ensures
            ({
                let failures = if old(self).consecutive_failures == u32::MAX {
                    u32::MAX as int
                } else {
                    old(self).consecutive_failures + 1
                };
                let cooldown_ok = match old(self).last_relaunch {
                    Some(t) => crate::watcher::since(now, t) > RELAUNCH_COOLDOWN_MS,
                    None => true,
                };
                &&& relaunch == (failures >= RELAUNCH_AFTER_FAILURES && cooldown_ok)
                &&& relaunch ==> final(self).consecutive_failures == 0 && final(self).last_relaunch == Some(now)
                &&& !relaunch ==> final(self).consecutive_failures == failures
                    && final(self).last_relaunch == old(self).last_relaunch
            }),
    {
        self.consecutive_failures = self.consecutive_failures.saturating_add(1);
        if self.consecutive_failures >= RELAUNCH_AFTER_FAILURES {
            let cooldown_ok = match self.last_relaunch {
                Some(t) => (if now >= t { now - t } else { 0 }) > RELAUNCH_COOLDOWN_MS,
                None => true,
            };
            if cooldown_ok {
                self.last_relaunch = Some(now);
                self.consecutive_failures = 0;
                return true;
            }
        }
        false
    }
}

} // verus!

//! Real-time ransomware-pattern detection over file-change events.
//!
//! A burst of at least `BURST_THRESHOLD` changes within `BURST_WINDOW_MS`
//! raises an alert, at most one per `ALERT_COOLDOWN_MS`; the alert clears
//! itself once a cooldown has passed without a new burst. The caller feeds
//! events and timeouts with a monotonic clock in milliseconds.

use vstd::prelude::*;
use crate::text::{decimal, decimal_string, append};

verus! {

pub const BURST_THRESHOLD: usize = 20;
pub const BURST_WINDOW_MS: u64 = 10000;
pub const ALERT_COOLDOWN_MS: u64 = 60000;

/// The kind of a file-system event.
#[derive(Debug, Clone, Copy, PartialEq, Eq, Structural)]
pub enum FileEventKind {
    Create,
    Modify,
    Remove,
    Other,
}

/// Only creations, modifications and removals count towards a burst.
pub fn counts_as_change(kind: FileEventKind) -> (b: bool)
    ensures
        b == (kind != FileEventKind::Other),
{
    match kind {
        FileEventKind::Create => true,
        FileEventKind::Modify => true,
        FileEventKind::Remove => true,
        FileEventKind::Other => false,
    }
}

/// `a - b`, or 0 when `b` is later (how elapsed time between instants reads).
pub open spec fn since(a: u64, b: u64) -> int {
    if a >= b { a - b } else { 0 }
}

/// The recent events still inside the window ending at `now`, dropping the
/// oldest ones first.
pub open spec fn in_window(s: Seq<u64>, now: u64) -> Seq<u64>
    decreases s.len(),
{
    if s.len() > 0 && since(now, s[0]) > BURST_WINDOW_MS {
        in_window(s.drop_first(), now)
    } else {
        s
    }
}

/// The sliding-window state of the detector.
pub struct BurstDetector {
    pub recent: Vec<u64>,
    pub last_alert: Option<u64>,
}

impl BurstDetector {
    /// Fewer than a burst's worth of events are ever pending.
    pub open spec fn wf(&self) -> bool {
        self.recent@.len() < BURST_THRESHOLD
    }

    /// A detector with no recent events and no alert yet.
    pub fn new() -> (d: BurstDetector)
        ensures
            d.wf(),
            d.recent@.len() == 0,
            d.last_alert is None,
    {
        BurstDetector { recent: Vec::new(), last_alert: None }
    }

    /// Records one file change at `now`. When the window then holds a burst,
    /// the window is cleared and, outside the cooldown, the number of events
    /// in the burst is returned and the alert time is set.
    pub fn on_change(&mut self, now: u64) -> (alert: Option<usize>)
        requires
            old(self).wf(),
        ensures
            final(self).wf(),
            ({
                let w = in_window(old(self).recent@.push(now), now);
                let cooldown_ok = match old(self).last_alert {
                    Some(t) => since(now, t) > ALERT_COOLDOWN_MS,
                    None => true,
                };
                if w.len() >= BURST_THRESHOLD {
                    &&& final(self).recent@.len() == 0
                    &&& cooldown_ok ==> alert == Some(w.len() as usize) && final(self).last_alert == Some(now)
                    &&& !cooldown_ok ==> alert is None && final(self).last_alert == old(self).last_alert
                } else {
                    &&& final(self).recent@ == w
                    &&& alert is None
                    &&& final(self).last_alert == old(self).last_alert
                }
            }),
    {
        self.recent.push(now);
        let ghost pushed = self.recent@;
        loop
            invariant
                in_window(self.recent@, now) == in_window(pushed, now),
                self.recent@.len() <= pushed.len(),
                pushed.len() <= BURST_THRESHOLD,
                pushed == old(self).recent@.push(now),
                self.last_alert == old(self).last_alert,
            ensures
                self.recent@ == in_window(pushed, now),
                self.last_alert == old(self).last_alert,
            decreases self.recent@.len(),
        {
            if self.recent.len() == 0 {
                break;
            }
            let front = self.recent[0];
            let elapsed: u64 = if now >= front { now - front } else { 0 };
            if elapsed > BURST_WINDOW_MS {
                let ghost before = self.recent@;
                self.recent.remove(0);
                proof {
                    assert(self.recent@ =~= before.drop_first());
                }
            } else {
                break;
            }
        }
        if self.recent.len() >= BURST_THRESHOLD {
            let count = self.recent.len();
            let cooldown_ok = match self.last_alert {
                Some(t) => (if now >= t { now - t } else { 0 }) > ALERT_COOLDOWN_MS,
                None => true,
            };
            self.recent.clear();
            if cooldown_ok {
                self.last_alert = Some(now);
                return Some(count);
            }
            return None;
        }
        None
    }

    /// On a quiet timeout: whether an active alert should now be cleared
    /// (a cooldown has passed since it was raised).
    pub fn should_clear_alert(&self, now: u64, alert_active: bool) -> (clear: bool)
        ensures
            clear == (alert_active && match self.last_alert {
                Some(t) => since(now, t) > ALERT_COOLDOWN_MS,
                None => false,
            }),
    {
        if !alert_active {
            return false;
        }
        match self.last_alert {
            Some(t) => (if now >= t { now - t } else { 0 }) > ALERT_COOLDOWN_MS,
            None => false,
        }
    }
}

/// The details recorded for a burst of `count` changes.
pub fn burst_details(count: usize) -> (d: String)
    ensures
        d@ == decimal(count as nat) + " file changes within 10s"@,
{
    let mut d = decimal_string(count as u64);
    append(&mut d, " file changes within 10s");
    d
}

} // verus!

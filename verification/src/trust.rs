//! Trust Level: a slow-moving reputation score kept beside the live health score.
//!
//! It starts at 100, drops on significant events, and recovers in tiers that
//! are fastest near the bottom and slowest near the top. Automatic recovery
//! stops at 99: only manual verification restores full trust.

use vstd::prelude::*;
use crate::clock::now_rfc3339;
use crate::text::{owned, append};

verus! {

#[derive(Debug, Clone, Copy, PartialEq, Eq, Structural)]
pub enum TrustEventType {
    Deduction,
    Recovery,
    ManualVerify,
    BaselineTamper,
    SelfIntegrityFailure,
    ChainFailure,
}

#[derive(Debug, Clone, Copy, PartialEq, Eq, Structural)]
pub enum RecoveryState {
    Fast,
    Medium,
    Slow,
    Locked,
}

#[derive(Debug, Clone)]
pub struct TrustEvent {
    pub timestamp: String,
    pub reason: String,
    pub deduction: u8,
    pub new_score: u8,
    pub event_type: TrustEventType,
}

#[derive(Debug, Clone)]
pub struct TrustLevel {
    pub score: u8,
    pub history: Vec<TrustEvent>,
    pub last_updated: String,
    pub recovery_state: RecoveryState,
}

// ============================================
// SPECIFICATION
// ============================================

/// The recovery band a score falls in.
pub open spec fn recovery_tier(score: u8) -> RecoveryState {
    if score <= 20 {
        RecoveryState::Fast
    } else if score <= 60 {
        RecoveryState::Medium
    } else if score <= 90 {
        RecoveryState::Slow
    } else if score <= 100 {
        RecoveryState::Locked
    } else {
        RecoveryState::Medium
    }
}

/// How many points one recovery step adds at a given score.
pub open spec fn recovery_step(score: u8) -> nat {
    if score <= 20 {
        5
    } else if score <= 60 {
        3
    } else if score <= 90 {
        2
    } else if score <= 100 {
        1
    } else {
        0
    }
}

/// The highest score automatic recovery reaches.
pub open spec fn recovery_ceiling() -> u8 {
    99
}

/// The score after one recovery step, capped at 99 (a score already at or
/// above the cap is left as it is).
pub open spec fn recovered_score(score: u8) -> u8 {
    if recovery_step(score) == 0 {
        score
    } else if score + recovery_step(score) >= recovery_ceiling() {
        if recovery_ceiling() > score { recovery_ceiling() } else { score }
    } else {
        (score + recovery_step(score)) as u8
    }
}

/// The score after a deduction, saturating at zero.
pub open spec fn deducted_score(score: u8, deduction: u8) -> u8 {
    if deduction >= score { 0 } else { (score - deduction) as u8 }
}

/// The name `{:?}` prints for a recovery state.
pub open spec fn recovery_state_name(r: RecoveryState) -> Seq<char> {
    match r {
        RecoveryState::Fast => "Fast"@,
        RecoveryState::Medium => "Medium"@,
        RecoveryState::Slow => "Slow"@,
        RecoveryState::Locked => "Locked"@,
    }
}

/// The reason recorded for a tiered recovery from state `r`.
pub open spec fn recovery_reason(r: RecoveryState) -> Seq<char> {
    "Tiered recovery ("@ + recovery_state_name(r) + ")"@
}

/// The reason recorded for a manual verification.
pub open spec fn manual_reason(reason: Seq<char>, authorized_by: Seq<char>) -> Seq<char> {
    "Manual verification: "@ + reason + " (authorized by: "@ + authorized_by + ")"@
}

/// The stored recovery state is the tier of the stored score.
pub open spec fn tier_consistent(t: TrustLevel) -> bool {
    t.recovery_state == recovery_tier(t.score)
}

/// One write to a trust level, by the operation that makes it.
pub enum TrustWrite {
    Deduct(u8),
    Recover,
    Verify,
}

/// The score a write leaves.
pub open spec fn score_after(score: u8, w: TrustWrite) -> u8 {
    match w {
        TrustWrite::Deduct(d) => deducted_score(score, d),
        TrustWrite::Recover => if recovered_score(score) > score { recovered_score(score) } else { score },
        TrustWrite::Verify => 100,
    }
}

/// The score after the writes `ws` in turn, starting from `score`.
pub open spec fn replayed_score(score: u8, ws: Seq<TrustWrite>) -> u8
    decreases ws.len(),
{
    if ws.len() == 0 { score } else { score_after(replayed_score(score, ws.drop_last()), ws.last()) }
}

/// `new` is `old` with one event appended that records the move to `score`.
pub open spec fn records_event(
    old: TrustLevel,
    new: TrustLevel,
    score: u8,
    reason: Seq<char>,
    deduction: u8,
    event_type: TrustEventType,
) -> bool {
    &&& new.score == score
    &&& new.recovery_state == recovery_tier(score)
    &&& new.history@.len() == old.history@.len() + 1
    &&& new.history@.subrange(0, old.history@.len() as int) == old.history@
    &&& new.history@.last().reason@ == reason
    &&& new.history@.last().deduction == deduction
    &&& new.history@.last().new_score == score
    &&& new.history@.last().event_type == event_type
}

/// `new` is `old` after a deduction of `d`, for some reason and event type.
pub open spec fn records_deduction(old: TrustLevel, new: TrustLevel, d: u8) -> bool {
    exists|reason: Seq<char>, et: TrustEventType|
        #[trigger] records_event(old, new, deducted_score(old.score, d), reason, d, et)
}

/// `new` is `old` after the write `w`, as the operation making it states:
/// a deduction or manual verification records an event with its new score,
/// and a recovery step records one only when it raises the score.
pub open spec fn trust_write_applied(old: TrustLevel, new: TrustLevel, w: TrustWrite) -> bool {
    match w {
        TrustWrite::Deduct(d) => records_deduction(old, new, d),
        TrustWrite::Recover => if recovered_score(old.score) > old.score {
            records_event(old, new, recovered_score(old.score), recovery_reason(old.recovery_state), 0,
                TrustEventType::Recovery)
        } else {
            new == old
        },
        TrustWrite::Verify => exists|reason: Seq<char>|
            #[trigger] records_event(old, new, 100, reason, 0, TrustEventType::ManualVerify),
    }
}

// ============================================
// IMPLEMENTATION
// ============================================

fn tier_of(score: u8) -> (r: RecoveryState)
    ensures
        r == recovery_tier(score),
{
    if score <= 20 {
        RecoveryState::Fast
    } else if score <= 60 {
        RecoveryState::Medium
    } else if score <= 90 {
        RecoveryState::Slow
    } else if score <= 100 {
        RecoveryState::Locked
    } else {
        RecoveryState::Medium
    }
}

fn state_name(r: RecoveryState) -> (s: &'static str)
    ensures
        s@ == recovery_state_name(r),
{
    match r {
        RecoveryState::Fast => "Fast",
        RecoveryState::Medium => "Medium",
        RecoveryState::Slow => "Slow",
        RecoveryState::Locked => "Locked",
    }
}

/// A field-for-field copy of an event.
pub fn copy_event(e: &TrustEvent) -> (r: TrustEvent)
    ensures
        r == *e,
{
    TrustEvent {
        timestamp: e.timestamp.clone(),
        reason: e.reason.clone(),
        deduction: e.deduction,
        new_score: e.new_score,
        event_type: e.event_type,
    }
}

impl TrustLevel {
    fn record(&mut self, reason: String, deduction: u8, new_score: u8, event_type: TrustEventType)
        ensures
            records_event(*old(self), *final(self), new_score, reason@, deduction, event_type),
    {
        let event = TrustEvent {
            timestamp: now_rfc3339(),
            reason,
            deduction,
            new_score,
            event_type,
        };
        self.score = new_score;
        self.history.push(event);
        self.last_updated = now_rfc3339();
        self.recovery_state = tier_of(new_score);
        proof {
            assert(self.history@.subrange(0, old(self).history@.len() as int) =~= old(self).history@);
        }
    }

    /// Lowers the score by `deduction`, saturating at 0, and records the event.
    pub fn apply_deduction(&mut self, reason: &str, deduction: u8, event_type: TrustEventType)
        ensures
            records_event(
                *old(self),
                *final(self),
                deducted_score(old(self).score, deduction),
                reason@,
                deduction,
                event_type,
            ),
            trust_write_applied(*old(self), *final(self), TrustWrite::Deduct(deduction)),
    {
        let new_score = self.score.saturating_sub(deduction);
        self.record(owned(reason), deduction, new_score, event_type);
        proof {
            let ghost r = reason@;
            assert(records_event(*old(self), *self, deducted_score(old(self).score, deduction), r,
                deduction, event_type));
            assert(records_deduction(*old(self), *self, deduction));
        }
    }

    /// One tiered recovery step: +5 at 0-20, +3 at 21-60, +2 at 61-90, +1 at
    /// 91-100, capped at 99. A step that would not raise the score changes nothing.
    /// `_amount` is accepted for callers' sake; the tier alone decides the step.
    pub fn recover(&mut self, _amount: u8)
        ensures
            recovered_score(old(self).score) > old(self).score ==> records_event(
                *old(self),
                *final(self),
                recovered_score(old(self).score),
                recovery_reason(old(self).recovery_state),
                0,
                TrustEventType::Recovery,
            ),
            recovered_score(old(self).score) <= old(self).score ==> *final(self) == *old(self),
            trust_write_applied(*old(self), *final(self), TrustWrite::Recover),
    {
        let step: u8 = if self.score <= 20 {
            5
        } else if self.score <= 60 {
            3
        } else if self.score <= 90 {
            2
        } else if self.score <= 100 {
            1
        } else {
            0
        };
        if step == 0 {
            return;
        }
        let raised = self.score.saturating_add(step);
        let new_score = if raised < 99 { raised } else { 99 };
        if new_score > self.score {
            let mut reason = owned("Tiered recovery (");
            append(&mut reason, state_name(self.recovery_state));
            append(&mut reason, ")");
            self.record(reason, 0, new_score, TrustEventType::Recovery);
        }
    }

    /// Sets the score to 100 and records who authorized it.
    pub fn manual_verify(&mut self, reason: &str, authorized_by: &str)
        ensures
            records_event(
                *old(self),
                *final(self),
                100,
                manual_reason(reason@, authorized_by@),
                0,
                TrustEventType::ManualVerify,
            ),
            trust_write_applied(*old(self), *final(self), TrustWrite::Verify),
    {
        let mut text = owned("Manual verification: ");
        append(&mut text, reason);
        append(&mut text, " (authorized by: ");
        append(&mut text, authorized_by);
        append(&mut text, ")");
        self.record(text, 0, 100, TrustEventType::ManualVerify);
    }

    /// The recovery band of the current score.
    fn get_recovery_tier(&self) -> (r: RecoveryState)
        ensures
            r == recovery_tier(self.score),
    {
        tier_of(self.score)
    }

    /// The recovery state that belongs with the current score.
    pub fn calculate_recovery_state(&self) -> (r: RecoveryState)
        ensures
            r == recovery_tier(self.score),
    {
        self.get_recovery_tier()
    }
}

impl Default for TrustLevel {
    fn default() -> (t: Self)
        ensures
            t.score == 100,
            t.history@.len() == 0,
            t.recovery_state == RecoveryState::Locked,
            tier_consistent(t),
    {
        TrustLevel {
            score: 100,
            history: Vec::new(),
            last_updated: now_rfc3339(),
            recovery_state: RecoveryState::Locked,
        }
    }
}

// ============================================
// EVENT-BASED OPERATIONS
// ============================================

/// Records a plain deduction.
pub fn deduct_trust(trust: &mut TrustLevel, reason: &str, deduction: u8)
    ensures
        records_event(*old(trust), *final(trust), deducted_score(old(trust).score, deduction),
            reason@, deduction, TrustEventType::Deduction),
        trust_write_applied(*old(trust), *final(trust), TrustWrite::Deduct(deduction)),
{
    trust.apply_deduction(reason, deduction, TrustEventType::Deduction);
}

/// Records a deduction for a tampered baseline.
pub fn deduct_trust_baseline(trust: &mut TrustLevel, reason: &str, deduction: u8)
    ensures
        records_event(*old(trust), *final(trust), deducted_score(old(trust).score, deduction),
            reason@, deduction, TrustEventType::BaselineTamper),
        trust_write_applied(*old(trust), *final(trust), TrustWrite::Deduct(deduction)),
{
    trust.apply_deduction(reason, deduction, TrustEventType::BaselineTamper);
}

/// Records a deduction for a failed self-integrity check.
pub fn deduct_trust_self_integrity(trust: &mut TrustLevel, reason: &str, deduction: u8)
    ensures
        records_event(*old(trust), *final(trust), deducted_score(old(trust).score, deduction),
            reason@, deduction, TrustEventType::SelfIntegrityFailure),
        trust_write_applied(*old(trust), *final(trust), TrustWrite::Deduct(deduction)),
{
    trust.apply_deduction(reason, deduction, TrustEventType::SelfIntegrityFailure);
}

/// Records a deduction for a broken timeline chain.
pub fn deduct_trust_chain_failure(trust: &mut TrustLevel, reason: &str, deduction: u8)
    ensures
        records_event(*old(trust), *final(trust), deducted_score(old(trust).score, deduction),
            reason@, deduction, TrustEventType::ChainFailure),
        trust_write_applied(*old(trust), *final(trust), TrustWrite::Deduct(deduction)),
{
    trust.apply_deduction(reason, deduction, TrustEventType::ChainFailure);
}

/// One tiered recovery step.
pub fn recover_trust(trust: &mut TrustLevel, amount: u8)
    ensures
        recovered_score(old(trust).score) > old(trust).score ==> records_event(
            *old(trust), *final(trust), recovered_score(old(trust).score),
            recovery_reason(old(trust).recovery_state), 0, TrustEventType::Recovery),
        recovered_score(old(trust).score) <= old(trust).score ==> *final(trust) == *old(trust),
        trust_write_applied(*old(trust), *final(trust), TrustWrite::Recover),
{
    trust.recover(amount);
}

/// Manual verification requested from the dashboard.
pub fn manual_verify(trust: &mut TrustLevel)
    ensures
        records_event(*old(trust), *final(trust), 100,
            manual_reason("API request"@, "dashboard-user"@), 0, TrustEventType::ManualVerify),
        trust_write_applied(*old(trust), *final(trust), TrustWrite::Verify),
{
    trust.manual_verify("API request", "dashboard-user");
}

/// Manual verification with an explicit reason and authorizer.
pub fn manual_verify_with_reason(trust: &mut TrustLevel, reason: &str, authorized_by: &str)
    ensures
        records_event(*old(trust), *final(trust), 100,
            manual_reason(reason@, authorized_by@), 0, TrustEventType::ManualVerify),
        trust_write_applied(*old(trust), *final(trust), TrustWrite::Verify),
{
    trust.manual_verify(reason, authorized_by);
}

/// The current score.
pub fn get_trust_score(trust: &TrustLevel) -> (s: u8)
    ensures
        s == trust.score,
{
    trust.score
}

/// A copy of the recorded events, oldest first.
pub fn get_trust_history(trust: &TrustLevel) -> (h: Vec<TrustEvent>)
    ensures
        h@ == trust.history@,
{
    let mut h: Vec<TrustEvent> = Vec::new();
    let mut i: usize = 0;
    while i < trust.history.len()
        invariant
            i <= trust.history@.len(),
            h@ == trust.history@.subrange(0, i as int),
        decreases trust.history@.len() - i,
    {
        h.push(copy_event(&trust.history[i]));
        i = i + 1;
        proof {
            assert(h@ =~= trust.history@.subrange(0, i as int));
        }
    }
    proof {
        assert(trust.history@.subrange(0, i as int) =~= trust.history@);
    }
    h
}

/// The stored recovery state.
pub fn get_recovery_state(trust: &TrustLevel) -> (r: RecoveryState)
    ensures
        r == trust.recovery_state,
{
    trust.recovery_state
}

// ============================================
// LAWS
// ============================================

/// A recovery step never takes a score of at most 100 above 100.
pub proof fn law_recover_never_exceeds_100(score: u8)
    requires
        score <= 100,
    ensures
        recovered_score(score) <= 100,
{
}

/// Recovery is never locked: from any score below the 99 ceiling (including
/// 0), one step strictly raises the score.
pub proof fn law_recover_not_locked_below_ceiling(score: u8)
    requires
        score < 99,
    ensures
        recovered_score(score) > score,
{
}

/// Recovery is at least as fast at a lower score as at a higher one.
pub proof fn law_recovery_faster_near_bottom(low: u8, high: u8)
    requires
        low <= high <= 100,
    ensures
        recovery_step(low) >= recovery_step(high),
        low <= 20 && high > 90 ==> recovery_step(low) > recovery_step(high),
{
}

/// A deduction saturates at 0 and never raises the score.
pub proof fn law_deduction_saturates(score: u8, deduction: u8)
    ensures
        deducted_score(score, deduction) <= score,
        deduction >= score ==> deducted_score(score, deduction) == 0,
        deduction < score ==> deducted_score(score, deduction) == score - deduction,
{
}

/// A score of 100 is a fixed point of recovery: nothing is recorded.
pub proof fn law_full_score_recovery_is_no_op(score: u8)
    requires
        score == 100,
    ensures
        recovered_score(score) == score,
{
}

/// Automatic recovery never restores full trust: one step from any score
/// below 100 stays below 100, and never lowers the score.
pub proof fn law_recovery_stays_below_full(score: u8)
    requires
        score < 100,
    ensures
        score <= recovered_score(score) < 100,
{
}

proof fn lemma_trust_replay(states: Seq<TrustLevel>, ws: Seq<TrustWrite>)
    requires
        states.len() == ws.len() + 1,
        tier_consistent(states[0]),
        forall|i: int| 0 <= i < ws.len() ==> trust_write_applied(states[i], states[i + 1], #[trigger] ws[i]),
    ensures
        tier_consistent(states.last()),
        states.last().score == replayed_score(states[0].score, ws),
    decreases ws.len(),
{
    if ws.len() > 0 {
        let n = ws.len() - 1;
        let prev_states = states.drop_last();
        let prev_ws = ws.drop_last();
        assert forall|i: int| 0 <= i < prev_ws.len() implies
            trust_write_applied(prev_states[i], prev_states[i + 1], #[trigger] prev_ws[i]) by {
            assert(ws[i] == prev_ws[i]);
        }
        lemma_trust_replay(prev_states, prev_ws);
        assert(trust_write_applied(states[n], states[n + 1], ws[n]));
        assert(prev_states.last() == states[n]);
    }
}

/// The recovery state always matches the tier of the score, whichever
/// deductions, recovery steps and manual verifications wrote the trust level
/// since it was created (a new level, score 100 and Locked, has it): after
/// any sequence of writes the stored state is the tier of the stored score,
/// and that score is the one the writes lead to. `states` are the level
/// before and after each write of `ws` in turn.
pub proof fn law_recovery_state_is_tier_of_score(states: Seq<TrustLevel>, ws: Seq<TrustWrite>)
    requires
        states.len() == ws.len() + 1,
        tier_consistent(states[0]),
        forall|i: int| 0 <= i < ws.len() ==> trust_write_applied(states[i], states[i + 1], #[trigger] ws[i]),
    ensures
        forall|k: int| 0 <= k < states.len() ==> tier_consistent(#[trigger] states[k]),
        states.last().recovery_state == recovery_tier(states.last().score),
        states.last().score == replayed_score(states[0].score, ws),
{
    assert forall|k: int| 0 <= k < states.len() implies tier_consistent(#[trigger] states[k]) by {
        let sub_states = states.subrange(0, k + 1);
        let sub_ws = ws.subrange(0, k);
        assert forall|i: int| 0 <= i < sub_ws.len() implies
            trust_write_applied(sub_states[i], sub_states[i + 1], #[trigger] sub_ws[i]) by {
            assert(sub_ws[i] == ws[i]);
            assert(sub_states[i] == states[i]);
            assert(sub_states[i + 1] == states[i + 1]);
        }
        lemma_trust_replay(sub_states, sub_ws);
        assert(sub_states.last() == states[k]);
    }
    lemma_trust_replay(states, ws);
}

} // verus!

//! Security Timeline: an append-only event log with hash chaining.
//!
//! Every entry carries the hash of the entry before it, so a change to any
//! recorded entry breaks the chain from that point on.

use vstd::prelude::*;
use vstd::utf8::{encode_utf8, decode_utf8, is_char_boundary};
use crate::clock::now_rfc3339;
use crate::crypto::{sha256, hex_lower, sha256_hex, hash_char_limit};
use crate::text::{decimal, decimal_string, owned, append, str_eq};

verus! {

#[derive(Debug, Clone, Copy, PartialEq, Eq, Structural)]
pub enum RepairResult {
    Success,
    Failed,
    Skipped,
    AwaitingApproval,
}

#[derive(Debug, Clone)]
pub struct TimelineEntry {
    pub id: u64,
    pub timestamp: String,
    pub monotonic_counter: u64,
    pub category: String,
    pub action: String,
    pub before: String,
    pub after: String,
    pub result: RepairResult,
    pub previous_hash: String,
    pub hash: String,
}

#[derive(Debug, Clone)]
pub struct Timeline {
    pub entries: Vec<TimelineEntry>,
    pub last_hash: String,
    pub chain_valid: bool,
    pub entry_count: u64,
}

// ============================================
// SPECIFICATION
// ============================================

/// The name `{:?}` prints for a result.
pub open spec fn result_name(r: RepairResult) -> Seq<char> {
    match r {
        RepairResult::Success => "Success"@,
        RepairResult::Failed => "Failed"@,
        RepairResult::Skipped => "Skipped"@,
        RepairResult::AwaitingApproval => "AwaitingApproval"@,
    }
}

/// The text that is hashed for an entry.
pub open spec fn hash_input(
    previous: Seq<char>, id: u64, category: Seq<char>, action: Seq<char>, before: Seq<char>,
    after: Seq<char>, result: RepairResult, counter: u64,
) -> Seq<char> {
    previous + decimal(id as nat) + category + action + before + after + result_name(result) + decimal(counter as nat)
}

/// The chain hash of an entry: lowercase hex of the SHA-256 of its hash input.
pub open spec fn spec_hash(
    previous: Seq<char>, id: u64, category: Seq<char>, action: Seq<char>, before: Seq<char>,
    after: Seq<char>, result: RepairResult, counter: u64,
) -> Seq<char> {
    hex_lower(sha256(encode_utf8(hash_input(previous, id, category, action, before, after, result, counter))))
}

/// The hash an entry should carry after `previous`.
pub open spec fn expected_hash(previous: Seq<char>, e: TimelineEntry) -> Seq<char> {
    spec_hash(previous, e.id, e.category@, e.action@, e.before@, e.after@, e.result, e.monotonic_counter)
}

/// A text short enough to be hashed together with a handful of others.
pub open spec fn short_text(s: Seq<char>) -> bool {
    s.len() < 0x0004_0000_0000_0000
}

/// The fields of an entry that are hashed are all short texts.
pub open spec fn entry_fits(e: TimelineEntry) -> bool {
    short_text(e.hash@) && short_text(e.category@) && short_text(e.action@)
        && short_text(e.before@) && short_text(e.after@)
}

/// The chain from entry `i` on is valid, given the hash and counter before it.
pub open spec fn chain_valid_from(es: Seq<TimelineEntry>, i: int, prev_hash: Seq<char>, prev_counter: u64) -> bool
    decreases es.len() - i,
{
    if i < 0 || i >= es.len() {
        true
    } else {
        let e = es[i];
        &&& e.monotonic_counter > prev_counter
        &&& e.hash@ == expected_hash(prev_hash, e)
        &&& chain_valid_from(es, i + 1, e.hash@, e.monotonic_counter)
    }
}

/// Counters strictly increase and every hash matches its predecessor's.
pub open spec fn chain_valid(es: Seq<TimelineEntry>) -> bool {
    chain_valid_from(es, 0, "0"@, 0)
}

/// The hash the next entry chains to: the last entry's, or "0".
pub open spec fn spec_last_hash(es: Seq<TimelineEntry>) -> Seq<char> {
    if es.len() == 0 { "0"@ } else { es.last().hash@ }
}

/// The counter of the last entry, or 0.
pub open spec fn spec_last_counter(es: Seq<TimelineEntry>) -> u64 {
    if es.len() == 0 { 0 } else { es.last().monotonic_counter }
}

/// `e` is the entry that adding these fields with this counter after `es`
/// makes: the next id, the given fields, chained to the last hash.
pub open spec fn built_after(
    es: Seq<TimelineEntry>, e: TimelineEntry, category: Seq<char>, action: Seq<char>,
    before: Seq<char>, after: Seq<char>, result: RepairResult, counter: u64,
) -> bool {
    &&& e.id == es.len() + 1
    &&& e.monotonic_counter == counter
    &&& e.category@ == category
    &&& e.action@ == action
    &&& e.before@ == before
    &&& e.after@ == after
    &&& e.result == result
    &&& e.previous_hash@ == spec_last_hash(es)
    &&& e.hash@ == expected_hash(spec_last_hash(es), e)
}

// ============================================
// LEMMAS
// ============================================

spec fn p10(k: nat) -> nat
    decreases k,
{
    if k == 0 { 1 } else { 10 * p10((k - 1) as nat) }
}

proof fn lemma_decimal_len(n: nat, k: nat)
    requires
        k >= 1,
        n < p10(k),
    ensures
        decimal(n).len() <= k,
    decreases k,
{
    if n >= 10 {
        assert(k >= 2) by {
            if k == 1 { assert(p10(1) == 10) by { reveal_with_fuel(p10, 2); } }
        }
        assert(n / 10 < p10((k - 1) as nat)) by {
            assert(p10(k) == 10 * p10((k - 1) as nat));
        }
        lemma_decimal_len(n / 10, (k - 1) as nat);
    }
}

/// A `u64` has at most 20 decimal digits.
pub(crate) proof fn lemma_u64_decimal_len(n: u64)
    ensures
        decimal(n as nat).len() <= 20,
{
    assert(p10(20) == 100000000000000000000) by {
        reveal_with_fuel(p10, 21);
    }
    lemma_decimal_len(n as nat, 20);
}

proof fn lemma_chain_push(es: Seq<TimelineEntry>, e: TimelineEntry, i: int, ph: Seq<char>, pc: u64)
    requires
        0 <= i <= es.len(),
        i == es.len() ==> ph == spec_last_hash(es) && pc == spec_last_counter(es),
        i < es.len() && i > 0 ==> ph == es[i - 1].hash@ && pc == es[i - 1].monotonic_counter,
        i == 0 ==> ph == "0"@ && pc == 0,
    ensures
        chain_valid_from(es.push(e), i, ph, pc) == (chain_valid_from(es, i, ph, pc)
            && e.monotonic_counter > spec_last_counter(es) && e.hash@ == expected_hash(spec_last_hash(es), e)),
    decreases es.len() - i,
{
    let s = es.push(e);
    if i == es.len() {
        assert(s[i] == e);
        assert(chain_valid_from(s, i + 1, e.hash@, e.monotonic_counter));
    } else {
        assert(s[i] == es[i]);
        lemma_chain_push(es, e, i + 1, es[i].hash@, es[i].monotonic_counter);
    }
}

// ============================================
// IMPLEMENTATION
// ============================================

fn result_str(r: RepairResult) -> (s: &'static str)
    ensures
        s@ == result_name(r),
        s@.len() <= 16,
{
    proof {
        reveal_strlit("Success");
        reveal_strlit("Failed");
        reveal_strlit("Skipped");
        reveal_strlit("AwaitingApproval");
    }
    match r {
        RepairResult::Success => "Success",
        RepairResult::Failed => "Failed",
        RepairResult::Skipped => "Skipped",
        RepairResult::AwaitingApproval => "AwaitingApproval",
    }
}

/// The chain hash of an entry with these fields, chained after `previous`.
pub fn compute_hash(
    previous: &str, id: u64, category: &str, action: &str, before: &str, after: &str,
    result: RepairResult, counter: u64,
) -> (h: String)
    requires
        short_text(previous@),
        short_text(category@),
        short_text(action@),
        short_text(before@),
        short_text(after@),
    ensures
        h@ == spec_hash(previous@, id, category@, action@, before@, after@, result, counter),
{
    let rs = result_str(result);
    let mut data = owned(previous);
    append(&mut data, decimal_string(id).as_str());
    append(&mut data, category);
    append(&mut data, action);
    append(&mut data, before);
    append(&mut data, after);
    append(&mut data, rs);
    append(&mut data, decimal_string(counter).as_str());
    proof {
        lemma_u64_decimal_len(id);
        lemma_u64_decimal_len(counter);
        assert(data@ =~= hash_input(previous@, id, category@, action@, before@, after@, result, counter));
        assert(data@.len() < hash_char_limit());
    }
    sha256_hex(data.as_str())
}

/// Checks the whole chain: counters strictly increase and every entry's
/// hash is the hash of its fields chained after the previous entry's hash
/// ("0" for the first). An empty timeline is valid.
pub fn verify_chain(entries: &[TimelineEntry]) -> (ok: bool)
    requires
        forall|i: int| 0 <= i < entries@.len() ==> entry_fits(#[trigger] entries@[i]),
    ensures
        ok == chain_valid(entries@),
{
    if entries.len() == 0 {
        return true;
    }
    let mut prev_hash = owned("0");
    proof {
        reveal_strlit("0");
    }
    let mut prev_counter: u64 = 0;
    let mut i: usize = 0;
    while i < entries.len()
        invariant
            forall|j: int| 0 <= j < entries@.len() ==> entry_fits(#[trigger] entries@[j]),
            i <= entries@.len(),
            short_text(prev_hash@),
            chain_valid(entries@) == chain_valid_from(entries@, i as int, prev_hash@, prev_counter),
        decreases entries@.len() - i,
    {
        let e = &entries[i];
        assert(entry_fits(entries@[i as int]));
        if e.monotonic_counter <= prev_counter {
            return false;
        }
        let computed = compute_hash(prev_hash.as_str(), e.id, e.category.as_str(), e.action.as_str(),
            e.before.as_str(), e.after.as_str(), e.result, e.monotonic_counter);
        if !str_eq(computed.as_str(), e.hash.as_str()) {
            return false;
        }
        prev_hash = e.hash.clone();
        prev_counter = e.monotonic_counter;
        i = i + 1;
    }
    true
}

/// The hash the next entry chains to.
pub fn get_last_hash(entries: &[TimelineEntry]) -> (h: String)
    ensures
        h@ == spec_last_hash(entries@),
{
    if entries.len() == 0 {
        owned("0")
    } else {
        entries[entries.len() - 1].hash.clone()
    }
}

/// The id of the next entry: one more than the number of entries.
pub fn get_next_id(entries: &[TimelineEntry]) -> (id: u64)
    requires
        entries@.len() < u64::MAX,
    ensures
        id == entries@.len() + 1,
{
    entries.len() as u64 + 1
}

/// A new entry to append after `entries`: it chains to the last hash and
/// takes the next id; the timestamp is the current time.
pub fn build_entry(
    entries: &[TimelineEntry], category: &str, action: &str, before: &str, after: &str,
    result: RepairResult, counter: u64,
) -> (e: TimelineEntry)
    requires
        entries@.len() < u64::MAX,
        entries@.len() > 0 ==> short_text(entries@.last().hash@),
        short_text(category@),
        short_text(action@),
        short_text(before@),
        short_text(after@),
    ensures
        built_after(entries@, e, category@, action@, before@, after@, result, counter),
{
    let previous = get_last_hash(entries);
    let id = get_next_id(entries);
    proof {
        reveal_strlit("0");
    }
    let hash = compute_hash(previous.as_str(), id, category, action, before, after, result, counter);
    TimelineEntry {
        id,
        timestamp: now_rfc3339(),
        monotonic_counter: counter,
        category: owned(category),
        action: owned(action),
        before: owned(before),
        after: owned(after),
        result,
        previous_hash: previous,
        hash,
    }
}

/// Adds one entry to the timeline: it takes the next counter value, is
/// built after the current entries, and is appended after them. The
/// timeline is append-only: earlier entries stay as they were, the count
/// grows by one, the new entry chains to the previous last hash and its
/// hash becomes the last hash. A valid timeline stays valid when the
/// counter has not fallen behind the stored entries.
pub fn add_entry(
    entries: &mut Vec<TimelineEntry>, counter: &mut TimelineCounter, category: &str, action: &str,
    before: &str, after: &str, result: RepairResult,
)
    requires
        old(entries)@.len() < u64::MAX,
        old(counter).last < u64::MAX,
        old(entries)@.len() > 0 ==> short_text(old(entries)@.last().hash@),
        short_text(category@),
        short_text(action@),
        short_text(before@),
        short_text(after@),
    ensures
        final(entries)@.len() == old(entries)@.len() + 1,
        final(entries)@ == old(entries)@.push(final(entries)@.last()),
        final(counter).last == old(counter).last + 1,
        built_after(old(entries)@, final(entries)@.last(), category@, action@, before@, after@, result,
            final(counter).last),
        spec_last_hash(final(entries)@) == final(entries)@.last().hash@,
        spec_last_counter(final(entries)@) == final(counter).last,
        chain_valid(final(entries)@) ==> chain_valid(old(entries)@),
        (chain_valid(old(entries)@) && old(counter).last >= spec_last_counter(old(entries)@))
            ==> chain_valid(final(entries)@),
{
    let n = counter.get_next_counter();
    let e = build_entry(entries.as_slice(), category, action, before, after, result, n);
    let ghost prev = entries@;
    entries.push(e);
    proof {
        law_added_entry_is_appended(prev, entries@.last(), category@, action@, before@, after@, result, n);
    }
}

/// The timeline view of a list of entries.
pub fn get_full_timeline(entries: Vec<TimelineEntry>) -> (t: Timeline)
    requires
        forall|i: int| 0 <= i < entries@.len() ==> entry_fits(#[trigger] entries@[i]),
        entries@.len() <= u64::MAX,
    ensures
        t.entries@ == entries@,
        t.last_hash@ == spec_last_hash(entries@),
        t.chain_valid == chain_valid(entries@),
        t.entry_count == entries@.len(),
{
    let last_hash = get_last_hash(entries.as_slice());
    let chain_valid = verify_chain(entries.as_slice());
    let entry_count = entries.len() as u64;
    Timeline { entries, last_hash, chain_valid, entry_count }
}

/// The startup check of the timeline: whether the stored chain verifies.
pub fn init_timeline(entries: &[TimelineEntry]) -> (ok: bool)
    requires
        forall|i: int| 0 <= i < entries@.len() ==> entry_fits(#[trigger] entries@[i]),
    ensures
        ok == chain_valid(entries@),
{
    verify_chain(entries)
}

// ============================================
// LAWS
// ============================================

/// Appending an entry keeps a timeline valid exactly when the entry's
/// counter exceeds the last one and its hash chains to the last hash.
pub proof fn law_append_keeps_chain_valid(es: Seq<TimelineEntry>, e: TimelineEntry)
    ensures
        chain_valid(es.push(e)) == (chain_valid(es) && e.monotonic_counter > spec_last_counter(es)
            && e.hash@ == expected_hash(spec_last_hash(es), e)),
{
    reveal_strlit("0");
    if es.len() == 0 {
        lemma_chain_push(es, e, 0, "0"@, 0);
    } else {
        lemma_chain_push(es, e, 0, "0"@, 0);
    }
}

/// An entry made by `build_entry` with a fresh counter extends a valid
/// timeline into a valid timeline.
pub proof fn law_built_entry_extends_chain(es: Seq<TimelineEntry>, e: TimelineEntry)
    requires
        chain_valid(es),
        e.monotonic_counter > spec_last_counter(es),
        e.hash@ == expected_hash(spec_last_hash(es), e),
    ensures
        chain_valid(es.push(e)),
{
    law_append_keeps_chain_valid(es, e);
}

/// The timeline is append-only: adding an entry after `es` leaves every
/// earlier entry as it was and puts the new one last, with the next id and
/// chained to the previous last hash; the last hash becomes its hash, the
/// count grows by one, and a valid timeline stays valid when the counter is
/// fresh.
pub proof fn law_added_entry_is_appended(
    es: Seq<TimelineEntry>, e: TimelineEntry, category: Seq<char>, action: Seq<char>,
    before: Seq<char>, after: Seq<char>, result: RepairResult, counter: u64,
)
    requires
        built_after(es, e, category, action, before, after, result, counter),
    ensures
        es.push(e).len() == es.len() + 1,
        es.push(e).subrange(0, es.len() as int) == es,
        es.push(e).last() == e,
        e.id == es.len() + 1,
        e.previous_hash@ == spec_last_hash(es),
        spec_last_hash(es.push(e)) == e.hash@,
        spec_last_counter(es.push(e)) == counter,
        (chain_valid(es) && counter > spec_last_counter(es)) ==> chain_valid(es.push(e)),
        chain_valid(es.push(e)) ==> chain_valid(es),
{
    assert(es.push(e).subrange(0, es.len() as int) =~= es);
    law_append_keeps_chain_valid(es, e);
}

/// `e` is `orig` with only its stored hash rewritten.
pub open spec fn hash_rewritten(orig: TimelineEntry, e: TimelineEntry) -> bool {
    &&& e.id == orig.id
    &&& e.category@ == orig.category@
    &&& e.action@ == orig.action@
    &&& e.before@ == orig.before@
    &&& e.after@ == orig.after@
    &&& e.result == orig.result
    &&& e.monotonic_counter == orig.monotonic_counter
    &&& e.hash@ != orig.hash@
}

proof fn lemma_rewrite_breaks(es: Seq<TimelineEntry>, k: int, e: TimelineEntry, i: int, ph: Seq<char>, pc: u64)
    requires
        0 <= i <= k < es.len(),
        chain_valid_from(es, i, ph, pc),
        hash_rewritten(es[k], e),
    ensures
        !chain_valid_from(es.update(k, e), i, ph, pc),
    decreases k - i,
{
    let es2 = es.update(k, e);
    if i < k {
        assert(es2[i] == es[i]);
        lemma_rewrite_breaks(es, k, e, i + 1, es[i].hash@, es[i].monotonic_counter);
    } else {
        assert(es2[k] == e);
        assert(expected_hash(ph, e) == expected_hash(ph, es[k]));
    }
}

/// The timeline is tamper-evident for stored hashes: rewriting the hash of
/// any one entry of a valid timeline makes verification fail.
pub proof fn law_rewritten_hash_is_detected(es: Seq<TimelineEntry>, k: int, e: TimelineEntry)
    requires
        chain_valid(es),
        0 <= k < es.len(),
        hash_rewritten(es[k], e),
    ensures
        !chain_valid(es.update(k, e)),
{
    lemma_rewrite_breaks(es, k, e, 0, "0"@, 0);
}

// ============================================
// COUNTER
// ============================================

/// The monotonic counter stamped on new entries.
pub struct TimelineCounter {
    pub last: u64,
}

impl TimelineCounter {
    /// A counter that continues after the last one recorded.
    pub fn starting_after(last: u64) -> (c: TimelineCounter)
        ensures
            c.last == last,
    {
        TimelineCounter { last }
    }

    /// The next counter value (one more than the last handed out).
    pub fn get_next_counter(&mut self) -> (n: u64)
        requires
            old(self).last < u64::MAX,
        ensures
            n == old(self).last + 1,
            final(self).last == n,
    {
        self.last = self.last + 1;
        self.last
    }
}

// ============================================
// MARKDOWN EXPORT
// ============================================

/// How a result reads in the exported timeline.
pub open spec fn result_label(r: RepairResult) -> Seq<char> {
    match r {
        RepairResult::Success => "\u{2705} Success"@,
        RepairResult::Failed => "\u{274c} Failed"@,
        RepairResult::Skipped => "\u{23ed}\u{fe0f} Skipped"@,
        RepairResult::AwaitingApproval => "\u{23f3} Awaiting Approval"@,
    }
}

/// The characters of the first 16 bytes of a hash.
pub open spec fn hash_head(h: Seq<char>) -> Seq<char> {
    decode_utf8(encode_utf8(h).subrange(0, 16))
}

/// A hash whose 16th byte starts a character (or ends the text).
pub open spec fn cuttable_hash(h: Seq<char>) -> bool {
    is_char_boundary(encode_utf8(h), 16)
}

/// One entry as a Markdown section.
pub open spec fn entry_markdown(e: TimelineEntry) -> Seq<char> {
    "## "@ + e.timestamp@ + " \u{2014} "@ + e.category@ + "\n\n"@
        + "- **Action:** "@ + e.action@ + "\n- **Before:** `"@ + e.before@ + "`\n- **After:** `"@ + e.after@
        + "`\n- **Result:** "@ + result_label(e.result) + "\n- **Entry ID:** "@ + decimal(e.id as nat)
        + "\n- **Counter:** "@ + decimal(e.monotonic_counter as nat) + "\n- **Chain Hash:** `"@
        + hash_head(e.hash@) + "`\n\n"@
}

/// The sections of the entries from the last one down to index `i`.
pub open spec fn sections_from(es: Seq<TimelineEntry>, i: int) -> Seq<char>
    decreases es.len() - i,
{
    if i < 0 || i >= es.len() { Seq::empty() } else { sections_from(es, i + 1) + entry_markdown(es[i]) }
}

/// The timeline as Markdown, newest entry first.
pub open spec fn timeline_markdown(es: Seq<TimelineEntry>) -> Seq<char> {
    if es.len() == 0 {
        "# Security Timeline\n\nNo events recorded."@
    } else {
        "# Security Timeline\n\n"@ + sections_from(es, 0)
    }
}

fn result_label_text(r: RepairResult) -> (s: &'static str)
    ensures
        s@ == result_label(r),
{
    match r {
        RepairResult::Success => "\u{2705} Success",
        RepairResult::Failed => "\u{274c} Failed",
        RepairResult::Skipped => "\u{23ed}\u{fe0f} Skipped",
        RepairResult::AwaitingApproval => "\u{23f3} Awaiting Approval",
    }
}

fn entry_section(e: &TimelineEntry) -> (s: String)
    requires
        cuttable_hash(e.hash@),
    ensures
        s@ == entry_markdown(*e),
{
    let mut s = String::from_str("## ");
    append(&mut s, e.timestamp.as_str());
    append(&mut s, " \u{2014} ");
    append(&mut s, e.category.as_str());
    append(&mut s, "\n\n");
    append(&mut s, "- **Action:** ");
    append(&mut s, e.action.as_str());
    append(&mut s, "\n- **Before:** `");
    append(&mut s, e.before.as_str());
    append(&mut s, "`\n- **After:** `");
    append(&mut s, e.after.as_str());
    append(&mut s, "`\n- **Result:** ");
    append(&mut s, result_label_text(e.result));
    append(&mut s, "\n- **Entry ID:** ");
    let id = decimal_string(e.id);
    append(&mut s, id.as_str());
    append(&mut s, "\n- **Counter:** ");
    let c = decimal_string(e.monotonic_counter);
    append(&mut s, c.as_str());
    append(&mut s, "\n- **Chain Hash:** `");
    let h = e.hash.as_str();
    proof {
        broadcast use vstd::utf8::encode_utf8_valid_utf8;
    }
    let (head, _rest) = h.split_at(16);
    proof {
        broadcast use vstd::utf8::encode_utf8_decode_utf8;
        assert(decode_utf8(encode_utf8(head@)) == head@);
    }
    append(&mut s, head);
    append(&mut s, "`\n\n");
    s
}

/// Renders the timeline as Markdown, newest entry first.
pub fn format_timeline_markdown(entries: &[TimelineEntry]) -> (md: String)
    requires
        forall|i: int| 0 <= i < entries@.len() ==> cuttable_hash(#[trigger] entries@[i].hash@),
    ensures
        md@ == timeline_markdown(entries@),
{
    if entries.len() == 0 {
        return String::from_str("# Security Timeline\n\nNo events recorded.");
    }
    let mut out = String::from_str("# Security Timeline\n\n");
    let mut i = entries.len();
    while i > 0
        invariant
            i <= entries@.len(),
            entries@.len() > 0,
            forall|k: int| 0 <= k < entries@.len() ==> cuttable_hash(#[trigger] entries@[k].hash@),
            out@ == "# Security Timeline\n\n"@ + sections_from(entries@, i as int),
        decreases i,
    {
        let sec = entry_section(&entries[i - 1]);
        append(&mut out, sec.as_str());
        i = i - 1;
        proof {
            assert(sections_from(entries@, i as int) == sections_from(entries@, i + 1) + entry_markdown(entries@[i as int]));
        }
    }
    out
}

} // verus!

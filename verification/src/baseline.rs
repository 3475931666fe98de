//! Baseline integrity: signed, versioned, hash-chained snapshots.
//!
//! A baseline is signed with HMAC-SHA256. A changed hash, a bad signature,
//! or a version other than the current one makes it invalid.

use vstd::prelude::*;
use vstd::utf8::encode_utf8;
use vstd::relations::sorted_by;
use crate::clock::now_rfc3339;
use crate::crypto::{sha256, hmac_sha256, hex_lower, hmac_sign, sha256_hex};
use crate::text::{decimal, decimal_string, owned, append, str_eq, chars_of, trim, trimmed};
use crate::timeline::short_text;

verus! {

#[derive(Debug, Clone)]
pub struct SignedBaseline {
    pub version: u64,
    pub timestamp: String,
    pub state: String,
    pub signature: String,
    pub previous_hash: String,
}

#[derive(Debug, Clone)]
pub struct BaselineVersion {
    pub version: u64,
    pub timestamp: String,
    pub hash: String,
}

#[derive(Debug, Clone)]
pub struct BaselineStatus {
    pub exists: bool,
    pub valid: bool,
    pub version: u64,
    pub timestamp: String,
    pub state: String,
}

// ============================================
// SPECIFICATION
// ============================================

/// The signature of a baseline state chained after `prev_hash`.
pub open spec fn spec_signature(key: Seq<u8>, state: Seq<char>, prev_hash: Seq<char>, version: u64) -> Seq<char> {
    hex_lower(hmac_sha256(key, encode_utf8(prev_hash + decimal(version as nat) + state)))
}

/// The stored hash of a baseline record.
pub open spec fn spec_baseline_hash(b: SignedBaseline) -> Seq<char> {
    hex_lower(sha256(encode_utf8(decimal(b.version as nat) + b.timestamp@ + b.state@ + b.signature@)))
}

/// The fields that are hashed or signed are short texts.
pub open spec fn baseline_fits(b: SignedBaseline) -> bool {
    short_text(b.timestamp@) && short_text(b.state@) && short_text(b.signature@) && short_text(b.previous_hash@)
}

/// The verdict on a stored baseline: (exists, valid, state text).
pub open spec fn spec_verdict(
    b: Option<SignedBaseline>, current_version: u64, stored_hash: Seq<char>, key: Seq<u8>,
) -> (bool, bool, Seq<char>) {
    match b {
        None => (false, false, Seq::empty()),
        Some(b) => if b.version != current_version {
            (true, false, "OUTDATED_VERSION (current: "@ + decimal(current_version as nat) + ")"@)
        } else if spec_baseline_hash(b) != stored_hash {
            (true, false, "HASH_MISMATCH"@)
        } else if spec_signature(key, b.state@, b.previous_hash@, b.version) != b.signature@ {
            (true, false, "INVALID_SIGNATURE"@)
        } else {
            (true, true, "VALID"@)
        },
    }
}

// ============================================
// HELPERS
// ============================================

/// The HMAC signature of a baseline state.
pub fn sign_baseline(key: &[u8; 32], state: &str, prev_hash: &str, version: u64) -> (sig: String)
    requires
        short_text(state@),
        short_text(prev_hash@),
    ensures
        sig@ == spec_signature(key@, state@, prev_hash@, version),
{
    let mut data = owned(prev_hash);
    append(&mut data, decimal_string(version).as_str());
    append(&mut data, state);
    proof {
        crate::timeline::lemma_u64_decimal_len(version);
        crate::crypto::lemma_encode_len(data@);
    }
    hmac_sign(key, data.as_str().as_bytes())
}

/// The hash stored beside a baseline.
pub fn compute_baseline_hash(b: &SignedBaseline) -> (h: String)
    requires
        baseline_fits(*b),
    ensures
        h@ == spec_baseline_hash(*b),
{
    let mut data = decimal_string(b.version);
    append(&mut data, b.timestamp.as_str());
    append(&mut data, b.state.as_str());
    append(&mut data, b.signature.as_str());
    proof {
        crate::timeline::lemma_u64_decimal_len(b.version);
    }
    sha256_hex(data.as_str())
}

/// Signs `state` as baseline `version`, chained after `prev_hash`; the
/// timestamp is the current time.
pub fn build_baseline(key: &[u8; 32], state: String, prev_hash: String, version: u64) -> (b: SignedBaseline)
    requires
        short_text(state@),
        short_text(prev_hash@),
    ensures
        b.version == version,
        b.state@ == state@,
        b.previous_hash@ == prev_hash@,
        b.signature@ == spec_signature(key@, state@, prev_hash@, version),
{
    let signature = sign_baseline(key, state.as_str(), prev_hash.as_str(), version);
    SignedBaseline { version, timestamp: now_rfc3339(), state, signature, previous_hash: prev_hash }
}

/// Checks a stored baseline against the current version number, the stored
/// hash and the HMAC key, in that order.
pub fn verify_baseline(
    baseline: Option<SignedBaseline>,
    current_version: u64,
    stored_hash: &str,
    key: &[u8; 32],
) -> (s: BaselineStatus)
    requires
        baseline matches Some(b) ==> baseline_fits(b),
    ensures
        (s.exists, s.valid, s.state@) == spec_verdict(baseline, current_version, stored_hash@, key@),
        baseline matches Some(b) ==> s.version == b.version && s.timestamp@ == b.timestamp@,
        baseline is None ==> s.version == 0 && s.timestamp@.len() == 0,
{
    match baseline {
        None => BaselineStatus {
            exists: false,
            valid: false,
            version: 0,
            timestamp: String::new(),
            state: String::new(),
        },
        Some(b) => {
            if b.version != current_version {
                let mut state = owned("OUTDATED_VERSION (current: ");
                append(&mut state, decimal_string(current_version).as_str());
                append(&mut state, ")");
                return BaselineStatus { exists: true, valid: false, version: b.version, timestamp: b.timestamp, state };
            }
            let computed = compute_baseline_hash(&b);
            if !str_eq(computed.as_str(), stored_hash) {
                return BaselineStatus { exists: true, valid: false, version: b.version, timestamp: b.timestamp, state: owned("HASH_MISMATCH") };
            }
            let sig = sign_baseline(key, b.state.as_str(), b.previous_hash.as_str(), b.version);
            if !str_eq(sig.as_str(), b.signature.as_str()) {
                return BaselineStatus { exists: true, valid: false, version: b.version, timestamp: b.timestamp, state: owned("INVALID_SIGNATURE") };
            }
            BaselineStatus { exists: true, valid: true, version: b.version, timestamp: b.timestamp, state: owned("VALID") }
        },
    }
}

/// The hash a new baseline chains to: the current baseline's, or "0".
pub fn get_previous_hash(baseline: &Option<SignedBaseline>) -> (h: String)
    requires
        baseline matches Some(b) ==> baseline_fits(*b),
    ensures
        h@ == match baseline {
            Some(b) => spec_baseline_hash(*b),
            None => "0"@,
        },
{
    match baseline {
        Some(b) => compute_baseline_hash(b),
        None => owned("0"),
    }
}

// ============================================
// VERSION NUMBERS
// ============================================

/// The value of a run of decimal digits.
pub open spec fn digits_value(s: Seq<char>) -> nat
    decreases s.len(),
{
    if s.len() == 0 {
        0
    } else {
        digits_value(s.drop_last()) * 10 + ((s.last() as int) - ('0' as int)) as nat
    }
}

pub open spec fn all_digits(s: Seq<char>) -> bool {
    forall|i: int| 0 <= i < s.len() ==> '0' <= #[trigger] s[i] && s[i] <= '9'
}

/// What `str::parse::<u64>` accepts: an optional '+', then one or more
/// decimal digits whose value fits in 64 bits.
pub open spec fn spec_parse_u64(s: Seq<char>) -> Option<u64> {
    let digits = if s.len() > 0 && s[0] == '+' { s.drop_first() } else { s };
    if digits.len() > 0 && all_digits(digits) && digits_value(digits) <= u64::MAX {
        Some(digits_value(digits) as u64)
    } else {
        None
    }
}

/// Parses an unsigned decimal number the way `str::parse::<u64>` does.
pub fn parse_u64(s: &str) -> (r: Option<u64>)
    ensures
        r == spec_parse_u64(s@),
{
    let c = chars_of(s);
    let start: usize = if c.len() > 0 && c[0] == '+' { 1 } else { 0 };
    let ghost digits = if s@.len() > 0 && s@[0] == '+' { s@.drop_first() } else { s@ };
    proof {
        assert(digits =~= c@.subrange(start as int, c@.len() as int));
    }
    if start >= c.len() {
        return None;
    }
    let mut value: u64 = 0;
    let mut i = start;
    while i < c.len()
        invariant
            start <= i <= c@.len(),
            c@ == s@,
            digits == (if s@.len() > 0 && s@[0] == '+' { s@.drop_first() } else { s@ }),
            digits == c@.subrange(start as int, c@.len() as int),
            all_digits(c@.subrange(start as int, i as int)),
            value as nat == digits_value(c@.subrange(start as int, i as int)),
        decreases c@.len() - i,
    {
        let ch = c[i];
        if ch < '0' || ch > '9' {
            proof {
                assert(digits[i - start] == ch);
                assert(!all_digits(digits));
            }
            return None;
        }
        let d = (ch as u32 - '0' as u32) as u64;
        proof {
            let prefix = c@.subrange(start as int, i + 1);
            assert(prefix.drop_last() =~= c@.subrange(start as int, i as int));
            assert(prefix.last() == ch);
        }
        if value > (u64::MAX - d) / 10 {
            proof {
                let prefix = c@.subrange(start as int, i + 1);
                assert(digits_value(prefix) > u64::MAX) by (nonlinear_arith)
                    requires
                        digits_value(prefix) == value * 10 + d,
                        value > (u64::MAX - d) / 10,
                        d <= 9;
                assert(digits.subrange(0, i + 1 - start) =~= prefix);
                assert(all_digits(prefix)) by {
                    assert forall|j: int| 0 <= j < prefix.len() implies '0' <= #[trigger] prefix[j] && prefix[j] <= '9' by {
                        if j < prefix.len() - 1 {
                            assert(prefix[j] == c@.subrange(start as int, i as int)[j]);
                        }
                    }
                }
                lemma_digits_value_prefix_monotone(digits, (i + 1 - start) as int);
                assert(!all_digits(digits) || digits_value(digits) > u64::MAX);
            }
            return None;
        }
        value = value * 10 + d;
        i = i + 1;
    }
    proof {
        assert(c@.subrange(start as int, i as int) =~= digits);
    }
    Some(value)
}

proof fn lemma_digits_value_prefix_monotone(s: Seq<char>, k: int)
    requires
        0 <= k <= s.len(),
        all_digits(s.subrange(0, k)),
    ensures
        all_digits(s) ==> digits_value(s.subrange(0, k)) <= digits_value(s),
    decreases s.len() - k,
{
    if k < s.len() && all_digits(s) {
        lemma_digits_value_prefix_monotone(s, k + 1);
        let p = s.subrange(0, k + 1);
        assert(p.drop_last() =~= s.subrange(0, k));
        assert(digits_value(p) >= digits_value(s.subrange(0, k)));
    } else if k == s.len() {
        assert(s.subrange(0, k) =~= s);
    }
}

/// The current baseline version: the number in the version file (trimmed),
/// else the stored baseline's version, else 0.
pub fn get_current_version(version_file: Option<String>, baseline: &Option<SignedBaseline>) -> (v: u64)
    ensures
        v == match version_file {
            Some(text) => match spec_parse_u64(trimmed(text@)) {
                Some(n) => n,
                None => match baseline { Some(b) => b.version, None => 0 },
            },
            None => match baseline { Some(b) => b.version, None => 0 },
        },
{
    if let Some(text) = version_file {
        let t = trim(text.as_str());
        if let Some(v) = parse_u64(t.as_str()) {
            return v;
        }
    }
    match baseline {
        Some(b) => b.version,
        None => 0,
    }
}

/// The version a new baseline gets.
pub fn get_next_version(current: u64) -> (v: u64)
    requires
        current < u64::MAX,
    ensures
        v == current + 1,
{
    current + 1
}

// ============================================
// PRUNING
// ============================================

/// How many archived versions are kept.
pub const MAX_VERSIONS: usize = 200;

pub open spec fn u64_le() -> spec_fn(u64, u64) -> bool {
    |a: u64, b: u64| a <= b
}

/// The version numbers in ascending order.
pub open spec fn sorted_versions(v: Seq<BaselineVersion>) -> Seq<u64> {
    v.map_values(|x: BaselineVersion| x.version).sort_by(u64_le())
}

proof fn lemma_u64_total()
    ensures
        vstd::relations::total_ordering(u64_le()),
{
}

/// The version numbers of `versions`, ascending.
pub fn sort_versions(versions: &[BaselineVersion]) -> (r: Vec<u64>)
    ensures
        r@ == sorted_versions(versions@),
{
    let ghost input = versions@.map_values(|x: BaselineVersion| x.version);
    let mut r: Vec<u64> = Vec::new();
    let mut i: usize = 0;
    proof {
        assert(r@ =~= input.subrange(0, 0));
    }
    while i < versions.len()
        invariant
            input == versions@.map_values(|x: BaselineVersion| x.version),
            i <= versions@.len(),
            sorted_by(r@, u64_le()),
            r@.to_multiset() == input.subrange(0, i as int).to_multiset(),
        decreases versions@.len() - i,
    {
        let x = versions[i].version;
        let mut p: usize = 0;
        while p < r.len()
            invariant
                p <= r@.len(),
                forall|j: int| 0 <= j < p ==> #[trigger] r@[j] <= x,
            ensures
                p <= r@.len(),
                forall|j: int| 0 <= j < p ==> #[trigger] r@[j] <= x,
                p < r@.len() ==> r@[p as int] > x,
            decreases r@.len() - p,
        {
            if r[p] > x {
                break;
            }
            p = p + 1;
        }
        let ghost old_r = r@;
        r.insert(p, x);
        proof {
            assert(r@ =~= old_r.insert(p as int, x));
            assert forall|a: int, b: int| 0 <= a < b < r@.len() implies #[trigger] u64_le()(r@[a], r@[b]) by {
                if a < p && b == p {
                } else if a == p && b > p {
                    assert(r@[b] == old_r[b - 1]);
                    if b - 1 > p {
                        assert(u64_le()(old_r[p as int], old_r[b - 1]));
                    }
                } else if a < p && b > p {
                    assert(u64_le()(old_r[a], old_r[b - 1]));
                } else if b < p {
                    assert(u64_le()(old_r[a], old_r[b]));
                } else {
                    assert(u64_le()(old_r[a - 1], old_r[b - 1]));
                }
            }
            vstd::seq_lib::to_multiset_insert(old_r, p as int, x);
            assert(input.subrange(0, i + 1) =~= input.subrange(0, i as int).push(x));
            vstd::seq_lib::to_multiset_build(input.subrange(0, i as int), x);
        }
        i = i + 1;
    }
    proof {
        assert(input.subrange(0, i as int) =~= input);
        lemma_u64_total();
        input.lemma_sort_by_ensures(u64_le());
        vstd::seq_lib::lemma_sorted_unique(r@, sorted_versions(versions@), u64_le());
    }
    r
}

/// The index of the first history entry for `version`, from `k` on.
pub open spec fn version_index_from(versions: Seq<BaselineVersion>, version: u64, k: int) -> Option<int>
    decreases versions.len() - k,
{
    if k < 0 || k >= versions.len() {
        None
    } else if versions[k].version == version {
        Some(k)
    } else {
        version_index_from(versions, version, k + 1)
    }
}

/// The stored hash to restore `version` with: that of its first history
/// entry, or the error naming the missing version.
pub fn restore_target(versions: &[BaselineVersion], version: u64) -> (r: Result<String, String>)
    ensures
        match version_index_from(versions@, version, 0) {
            Some(i) => r matches Ok(h) && h@ == versions@[i].hash@,
            None => r matches Err(e) && e@ == "Version "@ + decimal(version as nat) + " not found"@,
        },
{
    let mut k: usize = 0;
    while k < versions.len()
        invariant
            k <= versions@.len(),
            version_index_from(versions@, version, 0) == version_index_from(versions@, version, k as int),
        decreases versions@.len() - k,
    {
        if versions[k].version == version {
            return Ok(owned(versions[k].hash.as_str()));
        }
        k = k + 1;
    }
    let mut e = owned("Version ");
    let n = decimal_string(version);
    append(&mut e, n.as_str());
    append(&mut e, " not found");
    Err(e)
}

/// The archived versions to delete so that the newest `MAX_VERSIONS` remain:
/// none when there are at most that many, else the oldest surplus.
pub fn prune_old_versions(versions: &[BaselineVersion]) -> (remove: Vec<u64>)
    ensures
        versions@.len() <= MAX_VERSIONS ==> remove@.len() == 0,
        versions@.len() > MAX_VERSIONS ==> remove@ == sorted_versions(versions@).subrange(0, versions@.len() - MAX_VERSIONS),
{
    if versions.len() <= MAX_VERSIONS {
        return Vec::new();
    }
    let sorted = sort_versions(versions);
    let count = versions.len() - MAX_VERSIONS;
    let mut remove: Vec<u64> = Vec::new();
    let mut i: usize = 0;
    proof {
        versions@.map_values(|x: BaselineVersion| x.version).lemma_sort_by_ensures(u64_le());
        lemma_u64_total();
    }
    assert(sorted@.len() == versions@.len()) by {
        let input = versions@.map_values(|x: BaselineVersion| x.version);
        input.lemma_sort_by_ensures(u64_le());
        vstd::seq_lib::to_multiset_len(input);
        vstd::seq_lib::to_multiset_len(sorted@);
    }
    while i < count
        invariant
            count <= sorted@.len(),
            i <= count,
            remove@ == sorted@.subrange(0, i as int),
        decreases count - i,
    {
        remove.push(sorted[i]);
        i = i + 1;
        proof {
            assert(remove@ =~= sorted@.subrange(0, i as int));
        }
    }
    remove
}

// ============================================
// LAWS
// ============================================

/// A baseline that carries the signature of its own contents, whose stored
/// hash matches, and whose version is the current one, verifies as VALID.
pub proof fn law_fresh_baseline_verifies(b: SignedBaseline, key: Seq<u8>)
    requires
        b.signature@ == spec_signature(key, b.state@, b.previous_hash@, b.version),
    ensures
        spec_verdict(Some(b), b.version, spec_baseline_hash(b), key) == (true, true, "VALID"@),
{
}

/// Rollback protection: a baseline whose version is not the current one is never valid.
pub proof fn law_outdated_version_is_invalid(b: SignedBaseline, current: u64, stored: Seq<char>, key: Seq<u8>)
    requires
        b.version != current,
    ensures
        !spec_verdict(Some(b), current, stored, key).1,
{
}

/// Tamper evidence: a stored hash that does not match, or a signature that
/// does not match the contents, makes the baseline invalid.
pub proof fn law_tampered_baseline_is_invalid(b: SignedBaseline, current: u64, stored: Seq<char>, key: Seq<u8>)
    requires
        spec_baseline_hash(b) != stored || spec_signature(key, b.state@, b.previous_hash@, b.version) != b.signature@,
    ensures
        !spec_verdict(Some(b), current, stored, key).1,
{
}

/// What `str::parse::<i32>` accepts: an optional sign, then decimal digits
/// whose value fits in 32 signed bits.
pub open spec fn spec_parse_i32(s: Seq<char>) -> Option<int> {
    if s.len() > 0 && s[0] == '-' {
        let d = s.drop_first();
        if d.len() > 0 && d[0] != '+' {
            match spec_parse_u64(d) {
                Some(n) => if n <= 0x8000_0000 { Some(-(n as int)) } else { None },
                None => None,
            }
        } else {
            None
        }
    } else {
        match spec_parse_u64(s) {
            Some(n) => if n <= 0x7fff_ffff { Some(n as int) } else { None },
            None => None,
        }
    }
}

/// Parses a signed 32-bit decimal number.
pub fn parse_i32(s: &str) -> (r: Option<i32>)
    ensures
        match r {
            Some(v) => spec_parse_i32(s@) == Some(v as int),
            None => spec_parse_i32(s@) is None,
        },
{
    let c = chars_of(s);
    if c.len() > 0 && c[0] == '-' {
        if c.len() < 2 || c[1] == '+' {
            return None;
        }
        let rest = crate::text::sub_string(c.as_slice(), 1, c.len());
        proof {
            assert(rest@ =~= s@.drop_first());
        }
        match parse_u64(rest.as_str()) {
            Some(n) => {
                if n <= 0x8000_0000 {
                    let v: i64 = -(n as i64);
                    Some(v as i32)
                } else {
                    None
                }
            },
            None => None,
        }
    } else {
        match parse_u64(s) {
            Some(n) => if n <= 0x7fff_ffff { Some(n as i32) } else { None },
            None => None,
        }
    }
}

} // verus!

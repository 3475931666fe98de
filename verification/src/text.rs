//! Character-sequence helpers shared by every module that reads or builds text.

use vstd::prelude::*;
use vstd::std_specs::iter::IteratorSpec;

verus! {

broadcast use vstd::string::group_string_axioms;

// ============================================
// SPECIFICATIONS
// ============================================

/// `p` occurs in `s` starting at index `i`.
pub open spec fn occurs_at(s: Seq<char>, p: Seq<char>, i: int) -> bool {
    0 <= i && i + p.len() <= s.len() && s.subrange(i, i + p.len()) == p
}

/// `p` occurs somewhere in `s`.
pub open spec fn contains(s: Seq<char>, p: Seq<char>) -> bool {
    exists|i: int| occurs_at(s, p, i)
}

/// `s` starts with `p`.
pub open spec fn starts_with(s: Seq<char>, p: Seq<char>) -> bool {
    occurs_at(s, p, 0)
}

/// `s` ends with `p`.
pub open spec fn ends_with(s: Seq<char>, p: Seq<char>) -> bool {
    p.len() <= s.len() && occurs_at(s, p, s.len() - p.len())
}

/// The decimal digit character for `d < 10`.
pub open spec fn digit_char(d: nat) -> char {
    if d == 0 { '0' } else if d == 1 { '1' } else if d == 2 { '2' } else if d == 3 { '3' }
    else if d == 4 { '4' } else if d == 5 { '5' } else if d == 6 { '6' } else if d == 7 { '7' }
    else if d == 8 { '8' } else { '9' }
}

/// The decimal rendering of `n`, without sign or leading zeros.
pub open spec fn decimal(n: nat) -> Seq<char>
    decreases n,
{
    if n < 10 {
        seq![digit_char(n)]
    } else {
        decimal(n / 10).push(digit_char(n % 10))
    }
}

/// `s` without its leading whitespace.
pub open spec fn trim_leading(s: Seq<char>) -> Seq<char>
    decreases s.len(),
{
    if s.len() > 0 && is_ws(s[0]) { trim_leading(s.drop_first()) } else { s }
}

/// `s` without its trailing whitespace.
pub open spec fn trim_trailing(s: Seq<char>) -> Seq<char>
    decreases s.len(),
{
    if s.len() > 0 && is_ws(s.last()) { trim_trailing(s.drop_last()) } else { s }
}

/// What `str::trim` gives back for `s`: `s` without leading and trailing
/// whitespace (Unicode `White_Space`, as `is_ws` lists it).
pub open spec fn trimmed(s: Seq<char>) -> Seq<char> {
    trim_trailing(trim_leading(s))
}

/// What `str::to_lowercase` gives back for `s`.
pub uninterp spec fn lowercased(s: Seq<char>) -> Seq<char>;

/// What `format!("{:?}", v)` gives back for a vector of strings with these contents.
pub uninterp spec fn debug_list(items: Seq<Seq<char>>) -> Seq<char>;

/// The character contents of each string of `v`.
pub open spec fn views(v: Seq<String>) -> Seq<Seq<char>> {
    v.map_values(|s: String| s@)
}

// ============================================
// TRUSTED WRAPPERS (std)
// ============================================

/// `String::push`: appends one character at the end.
#[verifier::external_body]
pub(crate) fn push_char(s: &mut String, c: char)
    ensures
        final(s)@ == old(s)@.push(c),
{
    s.push(c);
}

/// `str::to_lowercase`: the Unicode lowercase mapping, named by `lowercased`.
#[verifier::external_body]
pub(crate) fn to_lowercase(s: &str) -> (res: String)
    ensures
        res@ == lowercased(s@),
{
    s.to_lowercase()
}

/// `format!("{:?}", v)` on a slice of strings, named by `debug_list`.
#[verifier::external_body]
pub(crate) fn format_debug_list(v: &[String]) -> (res: String)
    ensures
        res@ == debug_list(views(v@)),
{
    format!("{:?}", v)
}

// ============================================
// EXECUTABLE HELPERS
// ============================================

/// The characters of `s`, in order.
pub fn chars_of(s: &str) -> (v: Vec<char>)
    ensures
        v@ == s@,
{
    let mut v: Vec<char> = Vec::new();
    let ghost whole = s@;
    let mut it = s.chars();
    proof {
        assert(it.remaining() == whole);
    }
    loop
        invariant
            whole == s@,
            v@ + it.remaining() == whole,
            it.obeys_prophetic_iter_laws(),
            it.decrease() is Some,
        decreases it.decrease()->0,
    {
        let ghost before = it;
        let next = it.next();
        match next {
            Some(c) => {
                v.push(c);
                proof {
                    assert(v@ + it.remaining() =~= whole);
                }
            }
            None => {
                proof {
                    assert(before.remaining().len() == 0);
                    assert(v@ =~= whole);
                }
                return v;
            }
        }
    }
}

/// A string holding exactly the characters `v`.
pub fn string_of(v: &[char]) -> (s: String)
    ensures
        s@ == v@,
{
    let mut s = String::new();
    let mut i: usize = 0;
    while i < v.len()
        invariant
            i <= v@.len(),
            s@ == v@.subrange(0, i as int),
        decreases v@.len() - i,
    {
        push_char(&mut s, v[i]);
        i = i + 1;
        proof {
            assert(s@ =~= v@.subrange(0, i as int));
        }
    }
    proof {
        assert(v@.subrange(0, v@.len() as int) =~= v@);
    }
    s
}

/// A fresh string with the contents of `s`.
pub fn owned(s: &str) -> (res: String)
    ensures
        res@ == s@,
{
    s.to_owned()
}

/// Whether `p` occurs in `s` at index `i` (false when it does not fit).
pub fn occurs_at_exec(s: &[char], p: &[char], i: usize) -> (r: bool)
    ensures
        r == occurs_at(s@, p@, i as int),
{
    if i > s.len() || p.len() > s.len() - i {
        return false;
    }
    let mut k: usize = 0;
    while k < p.len()
        invariant
            i + p.len() <= s.len(),
            k <= p@.len(),
            forall|j: int| 0 <= j < k ==> s@[i + j] == p@[j],
        decreases p@.len() - k,
    {
        if s[i + k] != p[k] {
            proof {
                assert(s@.subrange(i as int, i + p@.len())[k as int] != p@[k as int]);
            }
            return false;
        }
        k = k + 1;
    }
    proof {
        assert(s@.subrange(i as int, i + p@.len()) =~= p@);
    }
    true
}

/// The first index at or after `from` where `p` occurs in `s`.
pub fn find_from(s: &[char], p: &[char], from: usize) -> (r: Option<usize>)
    ensures
        match r {
            Some(i) => from <= i && occurs_at(s@, p@, i as int)
                && forall|j: int| from <= j < i ==> !occurs_at(s@, p@, j),
            None => forall|j: int| from <= j ==> !occurs_at(s@, p@, j),
        },
{
    let mut i = from;
    while i <= s.len()
        invariant
            from <= i,
            forall|j: int| from <= j < i ==> !occurs_at(s@, p@, j),
        decreases s@.len() + 1 - i,
    {
        if occurs_at_exec(s, p, i) {
            return Some(i);
        }
        if i == s.len() {
            proof {
                assert forall|j: int| from <= j implies !occurs_at(s@, p@, j) by {
                    if j > i {
                        assert(j + p@.len() > s@.len());
                    }
                }
            }
            return None;
        }
        i = i + 1;
    }
    None
}

/// Whether `p` occurs in `s`.
pub fn seq_contains(s: &[char], p: &[char]) -> (r: bool)
    ensures
        r == contains(s@, p@),
{
    let f = find_from(s, p, 0);
    match f {
        Some(i) => true,
        None => {
            assert forall|j: int| !occurs_at(s@, p@, j) by {
                if j < 0 {} else {}
            }
            false
        }
    }
}

/// Whether `p` occurs in `s`.
pub fn str_contains(s: &str, p: &str) -> (r: bool)
    ensures
        r == contains(s@, p@),
{
    let sv = chars_of(s);
    let pv = chars_of(p);
    seq_contains(sv.as_slice(), pv.as_slice())
}

/// Whether `s` starts with `p`.
pub fn str_starts_with(s: &str, p: &str) -> (r: bool)
    ensures
        r == starts_with(s@, p@),
{
    let sv = chars_of(s);
    let pv = chars_of(p);
    occurs_at_exec(sv.as_slice(), pv.as_slice(), 0)
}

/// Whether `s` ends with `p`.
pub fn str_ends_with(s: &str, p: &str) -> (r: bool)
    ensures
        r == ends_with(s@, p@),
{
    let sv = chars_of(s);
    let pv = chars_of(p);
    if pv.len() > sv.len() {
        return false;
    }
    occurs_at_exec(sv.as_slice(), pv.as_slice(), sv.len() - pv.len())
}

/// Whether two strings hold the same characters.
pub fn str_eq(a: &str, b: &str) -> (r: bool)
    ensures
        r == (a@ == b@),
{
    let av = chars_of(a);
    let bv = chars_of(b);
    if av.len() != bv.len() {
        return false;
    }
    let mut i: usize = 0;
    while i < av.len()
        invariant
            av@ == a@,
            bv@ == b@,
            av@.len() == bv@.len(),
            i <= av@.len(),
            forall|j: int| 0 <= j < i ==> av@[j] == bv@[j],
        decreases av@.len() - i,
    {
        if av[i] != bv[i] {
            return false;
        }
        i = i + 1;
    }
    proof {
        assert(av@ =~= bv@);
    }
    true
}

proof fn lemma_decimal_nonempty(n: nat)
    ensures
        decimal(n).len() >= 1,
    decreases n,
{
    if n >= 10 {
        lemma_decimal_nonempty(n / 10);
    }
}

fn digit_of(d: u64) -> (c: char)
    requires
        d < 10,
    ensures
        c == digit_char(d as nat),
{
    if d == 0 { '0' } else if d == 1 { '1' } else if d == 2 { '2' } else if d == 3 { '3' }
    else if d == 4 { '4' } else if d == 5 { '5' } else if d == 6 { '6' } else if d == 7 { '7' }
    else if d == 8 { '8' } else { '9' }
}

/// The decimal rendering of `n`.
pub fn decimal_string(n: u64) -> (s: String)
    ensures
        s@ == decimal(n as nat),
    decreases n,
{
    if n < 10 {
        let mut s = String::new();
        push_char(&mut s, digit_of(n));
        proof {
            assert(s@ =~= decimal(n as nat));
        }
        s
    } else {
        let mut s = decimal_string(n / 10);
        push_char(&mut s, digit_of(n % 10));
        s
    }
}

/// Appends `t` to `s`.
pub fn append(s: &mut String, t: &str)
    ensures
        final(s)@ == old(s)@ + t@,
{
    s.append(t);
}

// ============================================
// SEARCHING, SLICING AND SPLITTING
// ============================================

/// The first index at or after `from` where `p` occurs in `s`.
pub open spec fn find_spec(s: Seq<char>, p: Seq<char>, from: int) -> Option<int>
    decreases s.len() + 1 - from,
{
    if from < 0 || from > s.len() {
        None
    } else if occurs_at(s, p, from) {
        Some(from)
    } else {
        find_spec(s, p, from + 1)
    }
}

/// The first index at or after `from` holding one of `stops`, or `s.len()`.
pub open spec fn stop_at(s: Seq<char>, from: int, stops: Seq<char>) -> int
    decreases s.len() - from,
{
    if from < 0 || from >= s.len() {
        s.len() as int
    } else if stops.contains(s[from]) {
        from
    } else {
        stop_at(s, from + 1, stops)
    }
}

/// `s` with every non-overlapping occurrence of `p`, scanned left to right,
/// replaced by `r` (the behaviour of `str::replace` for a non-empty `p`).
pub open spec fn replace_all(s: Seq<char>, p: Seq<char>, r: Seq<char>) -> Seq<char>
    decreases s.len(),
{
    if s.len() == 0 {
        Seq::empty()
    } else if p.len() > 0 && occurs_at(s, p, 0) {
        r + replace_all(s.subrange(p.len() as int, s.len() as int), p, r)
    } else {
        seq![s[0]] + replace_all(s.drop_first(), p, r)
    }
}

/// The line-splitting state after reading `n` characters: finished lines and
/// the line in progress.
pub open spec fn lines_state(s: Seq<char>, n: int) -> (Seq<Seq<char>>, Seq<char>)
    decreases n,
{
    if n <= 0 {
        (Seq::empty(), Seq::empty())
    } else {
        let (done, cur) = lines_state(s, n - 1);
        if s[n - 1] == '\n' {
            (done.push(strip_cr(cur)), Seq::empty())
        } else {
            (done, cur.push(s[n - 1]))
        }
    }
}

/// `line` without one trailing carriage return.
pub open spec fn strip_cr(line: Seq<char>) -> Seq<char> {
    if line.len() > 0 && line.last() == '\r' { line.drop_last() } else { line }
}

/// What `str::lines` yields: lines end at `\n` (a `\r` before it is dropped),
/// and a last line without a terminator is kept as it stands.
pub open spec fn lines_of(s: Seq<char>) -> Seq<Seq<char>> {
    let (done, cur) = lines_state(s, s.len() as int);
    if cur.len() > 0 { done.push(cur) } else { done }
}

/// The non-empty trimmed lines among the first `n` of `ls`.
pub open spec fn trimmed_lines_upto(ls: Seq<Seq<char>>, n: int) -> Seq<Seq<char>>
    decreases n,
{
    if n <= 0 || n > ls.len() {
        Seq::empty()
    } else if trimmed(ls[n - 1]).len() > 0 {
        trimmed_lines_upto(ls, n - 1).push(trimmed(ls[n - 1]))
    } else {
        trimmed_lines_upto(ls, n - 1)
    }
}

/// The non-empty lines of `data`, each trimmed.
pub open spec fn trimmed_lines_of(data: Seq<char>) -> Seq<Seq<char>> {
    trimmed_lines_upto(lines_of(data), lines_of(data).len() as int)
}

/// The non-empty lines of `data`, each trimmed, in order.
pub fn trimmed_lines(data: &str) -> (v: Vec<String>)
    ensures
        views(v@) == trimmed_lines_of(data@),
{
    let ls = lines(data);
    let mut out: Vec<String> = Vec::new();
    let mut i: usize = 0;
    proof {
        assert(views(out@) =~= Seq::<Seq<char>>::empty());
    }
    while i < ls.len()
        invariant
            i <= ls@.len(),
            views(ls@) == lines_of(data@),
            views(out@) == trimmed_lines_upto(lines_of(data@), i as int),
        decreases ls@.len() - i,
    {
        proof {
            assert(views(ls@)[i as int] == ls@[i as int]@);
        }
        let t = trim(ls[i].as_str());
        if !t.as_str().is_empty() {
            let ghost before = out@;
            out.push(t);
            proof {
                assert(views(out@) =~= views(before).push(t@));
            }
        }
        i = i + 1;
    }
    out
}

/// `char::is_whitespace`: the Unicode `White_Space` property.
pub open spec fn is_ws(c: char) -> bool {
    c == ' ' || ('\t' <= c && c <= '\r') || c == '\u{85}' || c == '\u{a0}' || c == '\u{1680}'
        || ('\u{2000}' <= c && c <= '\u{200a}') || c == '\u{2028}' || c == '\u{2029}'
        || c == '\u{202f}' || c == '\u{205f}' || c == '\u{3000}'
}

/// The word-splitting state after reading `n` characters.
pub open spec fn words_state(s: Seq<char>, n: int) -> (Seq<Seq<char>>, Seq<char>)
    decreases n,
{
    if n <= 0 {
        (Seq::empty(), Seq::empty())
    } else {
        let (done, cur) = words_state(s, n - 1);
        if is_ws(s[n - 1]) {
            if cur.len() > 0 { (done.push(cur), Seq::empty()) } else { (done, cur) }
        } else {
            (done, cur.push(s[n - 1]))
        }
    }
}

/// What `str::split_whitespace` yields.
pub open spec fn words_of(s: Seq<char>) -> Seq<Seq<char>> {
    let (done, cur) = words_state(s, s.len() as int);
    if cur.len() > 0 { done.push(cur) } else { done }
}

/// `s` up to (not including) the first `c`, or all of `s`.
pub open spec fn before_char(s: Seq<char>, c: char) -> Seq<char> {
    s.subrange(0, stop_at(s, 0, seq![c]))
}

pub(crate) proof fn lemma_stop_at_bounds(s: Seq<char>, from: int, stops: Seq<char>)
    requires
        0 <= from,
    ensures
        from <= stop_at(s, from, stops) <= s.len() || (from > s.len() && stop_at(s, from, stops) == s.len()),
        stop_at(s, from, stops) <= s.len(),
    decreases s.len() - from,
{
    if from < s.len() && !stops.contains(s[from]) {
        lemma_stop_at_bounds(s, from + 1, stops);
    }
}

/// What `find_spec` finds is an occurrence, the first one from `from` on.
pub(crate) proof fn lemma_find_spec(s: Seq<char>, p: Seq<char>, from: int)
    requires
        0 <= from,
    ensures
        match find_spec(s, p, from) {
            Some(i) => from <= i && occurs_at(s, p, i)
                && forall|j: int| from <= j < i ==> !occurs_at(s, p, j),
            None => forall|j: int| from <= j ==> !occurs_at(s, p, j),
        },
    decreases s.len() + 1 - from,
{
    if from <= s.len() && !occurs_at(s, p, from) {
        lemma_find_spec(s, p, from + 1);
    }
}

/// The number of bytes UTF-8 uses for `c`.
pub open spec fn utf8_width(c: char) -> nat {
    if (c as u32) < 0x80 {
        1
    } else if (c as u32) < 0x800 {
        2
    } else if (c as u32) < 0x10000 {
        3
    } else {
        4
    }
}

/// The number of bytes of the UTF-8 encoding of `s`.
pub open spec fn utf8_len(s: Seq<char>) -> nat
    decreases s.len(),
{
    if s.len() == 0 { 0 } else { utf8_len(s.drop_last()) + utf8_width(s.last()) }
}

proof fn lemma_utf8_len_prefix(s: Seq<char>, i: int, j: int)
    requires
        0 <= i <= j <= s.len(),
    ensures
        utf8_len(s.subrange(0, i)) <= utf8_len(s.subrange(0, j)),
    decreases j - i,
{
    if i < j {
        assert(s.subrange(0, j).drop_last() =~= s.subrange(0, j - 1));
        lemma_utf8_len_prefix(s, i, j - 1);
    }
}

/// Whether `s` takes fewer than `limit` bytes in UTF-8.
pub fn utf8_len_below(s: &str, limit: u64) -> (r: bool)
    ensures
        r == (utf8_len(s@) < limit),
{
    if limit == 0 {
        return false;
    }
    let v = chars_of(s);
    let mut total: u128 = 0;
    let mut i: usize = 0;
    proof {
        assert(v@.subrange(0, 0) =~= Seq::<char>::empty());
    }
    while i < v.len()
        invariant
            v@ == s@,
            i <= v@.len(),
            total == utf8_len(v@.subrange(0, i as int)),
            total < limit,
        decreases v@.len() - i,
    {
        let c = v[i];
        let w: u128 = if (c as u32) < 0x80 { 1 } else if (c as u32) < 0x800 { 2 } else if (c as u32) < 0x10000 { 3 } else { 4 };
        proof {
            assert(v@.subrange(0, i + 1).drop_last() =~= v@.subrange(0, i as int));
        }
        total = total + w;
        i = i + 1;
        if total >= limit as u128 {
            proof {
                lemma_utf8_len_prefix(v@, i as int, v@.len() as int);
                assert(v@.subrange(0, v@.len() as int) =~= s@);
            }
            return false;
        }
    }
    proof {
        assert(v@.subrange(0, i as int) =~= s@);
    }
    true
}

/// `char::is_whitespace`.
pub fn is_whitespace(c: char) -> (b: bool)
    ensures
        b == is_ws(c),
{
    c == ' ' || ('\t' <= c && c <= '\r') || c == '\u{85}' || c == '\u{a0}' || c == '\u{1680}'
        || ('\u{2000}' <= c && c <= '\u{200a}') || c == '\u{2028}' || c == '\u{2029}'
        || c == '\u{202f}' || c == '\u{205f}' || c == '\u{3000}'
}

/// `s` without leading and trailing whitespace, as `str::trim` gives it.
pub(crate) fn trim(s: &str) -> (res: String)
    ensures
        res@ == trimmed(s@),
{
    let v = chars_of(s);
    let ghost whole = v@;
    let mut a: usize = 0;
    assert(whole.subrange(0, whole.len() as int) =~= whole);
    while a < v.len() && is_whitespace(v[a])
        invariant
            a <= v@.len(),
            whole == v@,
            trim_leading(whole) == trim_leading(whole.subrange(a as int, whole.len() as int)),
        decreases v@.len() - a,
    {
        proof {
            let rest = whole.subrange(a as int, whole.len() as int);
            assert(rest.drop_first() =~= whole.subrange(a + 1, whole.len() as int));
        }
        a = a + 1;
    }
    let ghost lead = whole.subrange(a as int, whole.len() as int);
    assert(trim_leading(lead) == lead);
    let mut b: usize = v.len();
    while b > a && is_whitespace(v[b - 1])
        invariant
            a <= b <= v@.len(),
            whole == v@,
            lead == whole.subrange(a as int, whole.len() as int),
            trim_trailing(lead) == trim_trailing(whole.subrange(a as int, b as int)),
        decreases b - a,
    {
        proof {
            let part = whole.subrange(a as int, b as int);
            assert(part.drop_last() =~= whole.subrange(a as int, b - 1));
        }
        b = b - 1;
    }
    proof {
        let part = whole.subrange(a as int, b as int);
        assert(trim_trailing(part) == part);
    }
    sub_string(v.as_slice(), a, b)
}

/// The first index at or after `from` where `p` occurs in `s`.
pub fn find_first(s: &[char], p: &[char], from: usize) -> (r: Option<usize>)
    ensures
        match r {
            Some(i) => find_spec(s@, p@, from as int) == Some(i as int),
            None => find_spec(s@, p@, from as int) is None,
        },
{
    let mut i = from;
    while i <= s.len()
        invariant
            from <= i,
            find_spec(s@, p@, i as int) == find_spec(s@, p@, from as int),
        decreases s@.len() + 1 - i,
    {
        if occurs_at_exec(s, p, i) {
            return Some(i);
        }
        if i == s.len() {
            proof {
                assert(find_spec(s@, p@, i + 1) is None);
            }
            return None;
        }
        i = i + 1;
    }
    None
}

/// The first index at or after `from` holding one of `stops`, or `s.len()`.
pub fn scan_to_any(s: &[char], from: usize, stops: &[char]) -> (r: usize)
    ensures
        r == stop_at(s@, from as int, stops@),
        r <= s@.len(),
{
    let mut i = from;
    if i >= s.len() {
        return s.len();
    }
    while i < s.len()
        invariant
            from <= i <= s@.len(),
            stop_at(s@, i as int, stops@) == stop_at(s@, from as int, stops@),
        decreases s@.len() - i,
    {
        let mut k: usize = 0;
        let mut hit = false;
        while k < stops.len()
            invariant
                i < s@.len(),
                k <= stops@.len(),
                hit == (exists|j: int| 0 <= j < k && stops@[j] == s@[i as int]),
            decreases stops@.len() - k,
        {
            if stops[k] == s[i] {
                hit = true;
            }
            k = k + 1;
        }
        if hit {
            return i;
        }
        i = i + 1;
    }
    s.len()
}

/// A string of the characters `v[a..b]`.
pub fn sub_string(v: &[char], a: usize, b: usize) -> (s: String)
    requires
        a <= b <= v@.len(),
    ensures
        s@ == v@.subrange(a as int, b as int),
{
    let mut s = String::new();
    let mut i = a;
    while i < b
        invariant
            a <= i <= b,
            b <= v@.len(),
            s@ == v@.subrange(a as int, i as int),
        decreases b - i,
    {
        push_char(&mut s, v[i]);
        i = i + 1;
        proof {
            assert(s@ =~= v@.subrange(a as int, i as int));
        }
    }
    s
}

/// `str::replace` with a non-empty pattern.
pub fn replace_str(s: &str, p: &str, r: &str) -> (out: String)
    requires
        p@.len() > 0,
    ensures
        out@ == replace_all(s@, p@, r@),
{
    let sv = chars_of(s);
    let pv = chars_of(p);
    let mut out = String::new();
    let mut i: usize = 0;
    proof {
        assert(sv@.subrange(0, sv@.len() as int) =~= s@);
        assert(out@ + replace_all(s@, p@, r@) =~= replace_all(s@, p@, r@));
    }
    while i < sv.len()
        invariant
            sv@ == s@,
            pv@ == p@,
            pv@.len() > 0,
            i <= sv@.len(),
            out@ + replace_all(sv@.subrange(i as int, sv@.len() as int), pv@, r@) == replace_all(s@, p@, r@),
        decreases sv@.len() - i,
    {
        let ghost rest = sv@.subrange(i as int, sv@.len() as int);
        if occurs_at_exec(sv.as_slice(), pv.as_slice(), i) {
            proof {
                assert(rest.subrange(0, pv@.len() as int) =~= sv@.subrange(i as int, i + pv@.len()));
                assert(rest.subrange(pv@.len() as int, rest.len() as int)
                    =~= sv@.subrange(i + pv@.len(), sv@.len() as int));
                assert(out@ + r@ + replace_all(sv@.subrange(i + pv@.len(), sv@.len() as int), pv@, r@)
                    =~= out@ + replace_all(rest, pv@, r@));
            }
            append(&mut out, r);
            i = i + pv.len();
        } else {
            proof {
                assert(!occurs_at(rest, pv@, 0)) by {
                    if occurs_at(rest, pv@, 0) {
                        assert(rest.subrange(0, pv@.len() as int) =~= sv@.subrange(i as int, i + pv@.len()));
                    }
                }
                assert(rest.drop_first() =~= sv@.subrange(i + 1, sv@.len() as int));
                assert(out@.push(sv@[i as int]) + replace_all(sv@.subrange(i + 1, sv@.len() as int), pv@, r@)
                    =~= out@ + replace_all(rest, pv@, r@));
            }
            push_char(&mut out, sv[i]);
            i = i + 1;
        }
    }
    proof {
        assert(sv@.subrange(i as int, sv@.len() as int) =~= Seq::<char>::empty());
        assert(out@ + Seq::<char>::empty() =~= out@);
    }
    out
}

/// What `str::lines` yields, as owned strings.
pub fn lines(s: &str) -> (v: Vec<String>)
    ensures
        views(v@) == lines_of(s@),
{
    let sv = chars_of(s);
    let mut done: Vec<String> = Vec::new();
    let mut cur: Vec<char> = Vec::new();
    let mut i: usize = 0;
    while i < sv.len()
        invariant
            sv@ == s@,
            i <= sv@.len(),
            (views(done@), cur@) == lines_state(s@, i as int),
        decreases sv@.len() - i,
    {
        let c = sv[i];
        if c == '\n' {
            let mut n = cur.len();
            if n > 0 && cur[n - 1] == '\r' {
                n = n - 1;
            }
            let line = sub_string(cur.as_slice(), 0, n);
            proof {
                assert(line@ == strip_cr(cur@)) by {
                    if cur@.len() > 0 && cur@.last() == '\r' {
                        assert(cur@.subrange(0, n as int) =~= cur@.drop_last());
                    } else {
                        assert(cur@.subrange(0, n as int) =~= cur@);
                    }
                }
            }
            let ghost before = done@;
            done.push(line);
            proof {
                assert(views(done@) =~= views(before).push(line@));
            }
            cur = Vec::new();
        } else {
            cur.push(c);
        }
        i = i + 1;
    }
    if cur.len() > 0 {
        let last = string_of(cur.as_slice());
        let ghost before = done@;
        done.push(last);
        proof {
            assert(views(done@) =~= views(before).push(last@));
        }
    }
    done
}

/// What `str::split_whitespace` yields, as owned strings.
pub fn split_whitespace(s: &str) -> (v: Vec<String>)
    ensures
        views(v@) == words_of(s@),
{
    let sv = chars_of(s);
    let mut done: Vec<String> = Vec::new();
    let mut cur: Vec<char> = Vec::new();
    let mut i: usize = 0;
    while i < sv.len()
        invariant
            sv@ == s@,
            i <= sv@.len(),
            (views(done@), cur@) == words_state(s@, i as int),
        decreases sv@.len() - i,
    {
        let c = sv[i];
        if is_whitespace(c) {
            if cur.len() > 0 {
                let w = string_of(cur.as_slice());
                let ghost before = done@;
                done.push(w);
                proof {
                    assert(views(done@) =~= views(before).push(w@));
                }
                cur = Vec::new();
            }
        } else {
            cur.push(c);
        }
        i = i + 1;
    }
    if cur.len() > 0 {
        let last = string_of(cur.as_slice());
        let ghost before = done@;
        done.push(last);
        proof {
            assert(views(done@) =~= views(before).push(last@));
        }
    }
    done
}

/// Whether `v` holds a string equal to `s`.
pub fn list_contains(v: &Vec<String>, s: &str) -> (r: bool)
    ensures
        r == views(v@).contains(s@),
{
    let mut i: usize = 0;
    while i < v.len()
        invariant
            i <= v@.len(),
            forall|j: int| 0 <= j < i ==> v@[j]@ != s@,
        decreases v@.len() - i,
    {
        if str_eq(v[i].as_str(), s) {
            proof {
                assert(views(v@)[i as int] == s@);
            }
            return true;
        }
        i = i + 1;
    }
    proof {
        if views(v@).contains(s@) {
            let j = choose|j: int| 0 <= j < views(v@).len() && views(v@)[j] == s@;
            assert(v@[j]@ == s@);
        }
    }
    false
}

} // verus!

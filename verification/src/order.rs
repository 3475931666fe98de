//! Lexicographic order on character sequences, and sorting lists of strings by it.
//!
//! Comparing by character code points is the order `String` sorts in (its
//! byte-wise UTF-8 order coincides with code-point order).

use vstd::prelude::*;
use vstd::relations::{sorted_by, total_ordering};
use crate::text::{views, chars_of};

verus! {

/// `a` comes before or equals `b`, comparing character codes left to right.
pub open spec fn lex_le(a: Seq<char>, b: Seq<char>) -> bool
    decreases a.len(),
{
    if a.len() == 0 {
        true
    } else if b.len() == 0 {
        false
    } else if a[0] != b[0] {
        (a[0] as int) < (b[0] as int)
    } else {
        lex_le(a.drop_first(), b.drop_first())
    }
}

/// The order as a relation value.
pub open spec fn lex_order() -> spec_fn(Seq<char>, Seq<char>) -> bool {
    |a: Seq<char>, b: Seq<char>| lex_le(a, b)
}

/// `s` in ascending order.
pub open spec fn sorted_strings(s: Seq<Seq<char>>) -> Seq<Seq<char>> {
    s.sort_by(lex_order())
}

proof fn lemma_reflexive(a: Seq<char>)
    ensures
        lex_le(a, a),
    decreases a.len(),
{
    if a.len() > 0 {
        lemma_reflexive(a.drop_first());
    }
}

proof fn lemma_antisymmetric(a: Seq<char>, b: Seq<char>)
    requires
        lex_le(a, b),
        lex_le(b, a),
    ensures
        a == b,
    decreases a.len(),
{
    if a.len() > 0 && b.len() > 0 && a[0] == b[0] {
        lemma_antisymmetric(a.drop_first(), b.drop_first());
        assert(a =~= seq![a[0]] + a.drop_first());
        assert(b =~= seq![b[0]] + b.drop_first());
    } else if a.len() == 0 && b.len() == 0 {
        assert(a =~= b);
    }
}

proof fn lemma_transitive(a: Seq<char>, b: Seq<char>, c: Seq<char>)
    requires
        lex_le(a, b),
        lex_le(b, c),
    ensures
        lex_le(a, c),
    decreases a.len(),
{
    if a.len() > 0 && b.len() > 0 && c.len() > 0 && a[0] == b[0] && b[0] == c[0] {
        lemma_transitive(a.drop_first(), b.drop_first(), c.drop_first());
    }
}

proof fn lemma_connected(a: Seq<char>, b: Seq<char>)
    ensures
        lex_le(a, b) || lex_le(b, a),
    decreases a.len(),
{
    if a.len() > 0 && b.len() > 0 && a[0] == b[0] {
        lemma_connected(a.drop_first(), b.drop_first());
    }
}

/// The order is a total order.
pub(crate) proof fn lemma_lex_total()
    ensures
        total_ordering(lex_order()),
{
    assert forall|a: Seq<char>| #[trigger] lex_order()(a, a) by {
        lemma_reflexive(a);
    }
    assert forall|a: Seq<char>, b: Seq<char>| #[trigger] lex_order()(a, b) && #[trigger] lex_order()(b, a) implies a == b by {
        lemma_antisymmetric(a, b);
    }
    assert forall|a: Seq<char>, b: Seq<char>, c: Seq<char>| #[trigger] lex_order()(a, b) && #[trigger] lex_order()(b, c) implies lex_order()(a, c) by {
        lemma_transitive(a, b, c);
    }
    assert forall|a: Seq<char>, b: Seq<char>| #[trigger] lex_order()(a, b) || #[trigger] lex_order()(b, a) by {
        lemma_connected(a, b);
    }
}

/// Whether `a` comes before or equals `b`.
pub fn lex_le_exec(a: &[char], b: &[char]) -> (r: bool)
    ensures
        r == lex_le(a@, b@),
{
    let mut i: usize = 0;
    proof {
        assert(a@.skip(0) =~= a@);
        assert(b@.skip(0) =~= b@);
    }
    while i < a.len() && i < b.len()
        invariant
            i <= a@.len(),
            i <= b@.len(),
            lex_le(a@, b@) == lex_le(a@.skip(i as int), b@.skip(i as int)),
        decreases a@.len() - i,
    {
        if a[i] != b[i] {
            proof {
                assert(a@.skip(i as int)[0] == a@[i as int]);
                assert(b@.skip(i as int)[0] == b@[i as int]);
            }
            return a[i] < b[i];
        }
        proof {
            assert(a@.skip(i as int).drop_first() =~= a@.skip(i + 1));
            assert(b@.skip(i as int).drop_first() =~= b@.skip(i + 1));
        }
        i = i + 1;
    }
    i == a.len()
}

/// Sorts a list of strings into ascending order, as `slice::sort` would.
pub fn sort_strings(v: &Vec<String>) -> (r: Vec<String>)
    ensures
        views(r@) == sorted_strings(views(v@)),
{
    proof {
        lemma_lex_total();
    }
    let mut r: Vec<String> = Vec::new();
    let mut i: usize = 0;
    proof {
        assert(views(r@) =~= views(v@.subrange(0, 0)));
    }
    while i < v.len()
        invariant
            total_ordering(lex_order()),
            i <= v@.len(),
            sorted_by(views(r@), lex_order()),
            views(r@).to_multiset() == views(v@.subrange(0, i as int)).to_multiset(),
        decreases v@.len() - i,
    {
        let x = v[i].clone();
        let xc = chars_of(x.as_str());
        let mut p: usize = 0;
        while p < r.len()
            invariant
                total_ordering(lex_order()),
                xc@ == x@,
                p <= r@.len(),
                forall|j: int| 0 <= j < p ==> lex_le(#[trigger] r@[j]@, x@),
            ensures
                p <= r@.len(),
                forall|j: int| 0 <= j < p ==> lex_le(#[trigger] r@[j]@, x@),
                p < r@.len() ==> !lex_le(r@[p as int]@, x@),
            decreases r@.len() - p,
        {
            let rc = chars_of(r[p].as_str());
            if !lex_le_exec(rc.as_slice(), xc.as_slice()) {
                break;
            }
            p = p + 1;
        }
        let ghost old_r = views(r@);
        proof {
            if p < r@.len() {
                assert(!lex_le(r@[p as int]@, x@));
                lemma_connected(r@[p as int]@, x@);
            }
        }
        r.insert(p, x);
        proof {
            let nr = views(r@);
            assert(nr =~= old_r.insert(p as int, x@));
            assert forall|a: int, b: int| 0 <= a < b < nr.len() implies #[trigger] lex_order()(nr[a], nr[b]) by {
                if a < p && b == p {
                } else if a == p && b > p {
                    assert(old_r[p as int] == nr[p + 1]);
                    assert(lex_le(x@, old_r[p as int]));
                    if b > p + 1 {
                        assert(lex_order()(old_r[p as int], old_r[b - 1]));
                        lemma_transitive(x@, old_r[p as int], old_r[b - 1]);
                    }
                } else if a < p && b > p {
                    assert(lex_order()(old_r[a], old_r[b - 1]));
                } else if b < p {
                    assert(lex_order()(old_r[a], old_r[b]));
                } else {
                    assert(lex_order()(old_r[a - 1], old_r[b - 1]));
                }
            }
            vstd::seq_lib::to_multiset_insert(old_r, p as int, x@);
            assert(views(v@.subrange(0, i + 1)) =~= views(v@.subrange(0, i as int)).push(x@));
            vstd::seq_lib::to_multiset_build(views(v@.subrange(0, i as int)), x@);
        }
        i = i + 1;
    }
    proof {
        assert(v@.subrange(0, i as int) =~= v@);
        views(v@).lemma_sort_by_ensures(lex_order());
        vstd::seq_lib::lemma_sorted_unique(views(r@), sorted_strings(views(v@)), lex_order());
    }
    r
}

} // verus!

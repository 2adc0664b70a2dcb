//! Facts about filtered sequences.

use vstd::prelude::*;

verus! {

/// `sub` holds the items of `s` at the places `at`, which grow.
pub open spec fn picks<A>(s: Seq<A>, sub: Seq<A>, at: Seq<int>) -> bool {
    &&& at.len() == sub.len()
    &&& forall|k: int| 0 <= k < at.len() ==> 0 <= #[trigger] at[k] < s.len() && sub[k] == s[at[k]]
    &&& forall|k: int, m: int| 0 <= k < m < at.len() ==> #[trigger] at[k] < #[trigger] at[m]
}

/// Filtering a sequence with one more item at its end filters the sequence
/// and then keeps or drops the item.
pub proof fn lemma_filter_push<A>(s: Seq<A>, last: A, keep: spec_fn(A) -> bool)
    ensures
        s.push(last).filter(keep) == if keep(last) {
            s.filter(keep).push(last)
        } else {
            s.filter(keep)
        },
{
    reveal(Seq::filter);
    assert(s.push(last).drop_last() =~= s);
}

/// The items that a filter keeps stand in the order in which they stood:
/// each comes from a place of the sequence, and later ones from later places.
pub proof fn lemma_filter_is_subsequence<A>(s: Seq<A>, keep: spec_fn(A) -> bool)
    ensures
        exists|at: Seq<int>| #[trigger] picks(s, s.filter(keep), at),
    decreases s.len(),
{
    reveal(Seq::filter);
    if s.len() == 0 {
        assert(picks(s, s.filter(keep), Seq::<int>::empty()));
    } else {
        lemma_filter_is_subsequence(s.drop_last(), keep);
        let at = choose|at: Seq<int>| #[trigger] picks(s.drop_last(), s.drop_last().filter(keep), at);
        if keep(s.last()) {
            assert(picks(s, s.filter(keep), at.push(s.len() - 1)));
        } else {
            assert(picks(s, s.filter(keep), at));
        }
    }
}

/// A filter leaves a sequence as it is when every item passes.
pub proof fn lemma_filter_all_pass<A>(s: Seq<A>, keep: spec_fn(A) -> bool)
    requires
        forall|i: int| 0 <= i < s.len() ==> keep(#[trigger] s[i]),
    ensures
        s.filter(keep) == s,
    decreases s.len(),
{
    reveal(Seq::filter);
    if s.len() > 0 {
        lemma_filter_all_pass(s.drop_last(), keep);
        assert(s.drop_last().push(s.last()) =~= s);
    }
}

} // verus!

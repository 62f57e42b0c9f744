//! Facts about sequences that the other modules share.

use vstd::prelude::*;

verus! {

/// The position of the first element that passes the test, or the length of
/// the sequence where none does.
pub open spec fn first_where<A>(s: Seq<A>, test: spec_fn(A) -> bool) -> int
    decreases s.len(),
{
    if s.len() == 0 {
        0
    } else if test(s.first()) {
        0
    } else {
        1 + first_where(s.drop_first(), test)
    }
}

/// `first_where` is `k` where no element before `k` passes the test and
/// either the element at `k` passes it or `k` is the length of the sequence.
pub proof fn lemma_first_where_is<A>(s: Seq<A>, test: spec_fn(A) -> bool, k: int)
    requires
        0 <= k <= s.len(),
        forall|j: int| 0 <= j < k ==> !test(#[trigger] s[j]),
        k < s.len() ==> test(s[k]),
    ensures
        first_where(s, test) == k,
    decreases k,
{
    if k > 0 {
        let rest = s.drop_first();
        assert(s.first() == s[0]);
        assert forall|j: int| 0 <= j < k - 1 implies !test(#[trigger] rest[j]) by {
            assert(rest[j] == s[j + 1]);
        }
        if k < s.len() {
            assert(rest[k - 1] == s[k]);
        }
        lemma_first_where_is(rest, test, k - 1);
    } else if s.len() > 0 {
        assert(s.first() == s[0]);
    }
}

/// `first_where` lies within the sequence or at its end, the element there
/// passes the test, and no element before it does.
pub proof fn lemma_first_where<A>(s: Seq<A>, test: spec_fn(A) -> bool)
    ensures
        0 <= first_where(s, test) <= s.len(),
        first_where(s, test) < s.len() ==> test(s[first_where(s, test)]),
        forall|j: int| 0 <= j < first_where(s, test) ==> !test(#[trigger] s[j]),
    decreases s.len(),
{
    if s.len() == 0 {
    } else if test(s.first()) {
        assert(s.first() == s[0]);
    } else {
        let rest = s.drop_first();
        lemma_first_where(rest, test);
        let k = first_where(rest, test);
        assert(s.first() == s[0]);
        assert forall|j: int| 0 <= j < k + 1 implies !test(#[trigger] s[j]) by {
            if j > 0 {
                assert(rest[j - 1] == s[j]);
            }
        }
        if k < rest.len() {
            assert(rest[k] == s[k + 1]);
        }
    }
}

/// Filtering one more element: the element is appended where it passes the test.
pub proof fn lemma_filter_step<A>(s: Seq<A>, keep: spec_fn(A) -> bool, n: int)
    requires
        0 <= n < s.len(),
    ensures
        s.take(n + 1).filter(keep) == (if keep(s[n]) {
            s.take(n).filter(keep).push(s[n])
        } else {
            s.take(n).filter(keep)
        }),
{
    reveal(Seq::filter);
    assert(s.take(n + 1).drop_last() =~= s.take(n));
    assert(s.take(n + 1).last() == s[n]);
}

/// A filter that every element passes changes nothing.
pub proof fn lemma_filter_keeps_all<A>(s: Seq<A>, keep: spec_fn(A) -> bool)
    requires
        forall|i: int| 0 <= i < s.len() ==> keep(#[trigger] s[i]),
    ensures
        s.filter(keep) == s,
    decreases s.len(),
{
    reveal(Seq::filter);
    if s.len() > 0 {
        lemma_filter_keeps_all(s.drop_last(), keep);
        assert(s.drop_last().push(s.last()) =~= s);
    }
}

} // verus!

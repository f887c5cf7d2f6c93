use vstd::prelude::*;

verus! {

/// Filtering one more element of a prefix either keeps it at the end or
/// leaves the result as it was.
pub proof fn lemma_filter_take_step<A>(s: Seq<A>, p: spec_fn(A) -> bool, i: int)
    requires
        0 <= i < s.len(),
    ensures
        s.take(i + 1).filter(p) == (if p(s[i]) {
            s.take(i).filter(p).push(s[i])
        } else {
            s.take(i).filter(p)
        }),
{
    reveal(Seq::filter);
    assert(s.take(i + 1).drop_last() =~= s.take(i));
    assert(s.take(i + 1).last() == s[i]);
}

/// Filtering a whole sequence is filtering its full prefix.
pub proof fn lemma_filter_take_all<A>(s: Seq<A>, p: spec_fn(A) -> bool)
    ensures
        s.take(s.len() as int).filter(p) == s.filter(p),
{
    assert(s.take(s.len() as int) =~= s);
}

} // verus!

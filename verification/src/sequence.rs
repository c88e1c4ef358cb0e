//! Selecting from sequences.

use vstd::prelude::*;

verus! {

/// The values that `f` gives for the elements of `s`, in their order, the
/// elements for which it gives none left out.
pub open spec fn filter_map<A, B>(s: Seq<A>, f: spec_fn(A) -> Option<B>) -> Seq<B>
    decreases s.len(),
{
    if s.len() == 0 {
        Seq::empty()
    } else {
        match f(s.last()) {
            Some(b) => filter_map(s.drop_last(), f).push(b),
            None => filter_map(s.drop_last(), f),
        }
    }
}

/// What one more element adds to `filter_map`.
pub proof fn lemma_filter_map_step<A, B>(s: Seq<A>, f: spec_fn(A) -> Option<B>, i: int)
    requires
        0 <= i < s.len(),
    ensures
        filter_map(s.take(i + 1), f) == match f(s[i]) {
            Some(b) => filter_map(s.take(i), f).push(b),
            None => filter_map(s.take(i), f),
        },
{
    assert(s.take(i + 1).last() == s[i]);
    assert(s.take(i + 1).drop_last() =~= s.take(i));
}

/// Every element of `filter_map(s, f)` is what `f` gives for an element of `s`.
pub proof fn lemma_filter_map_sound<A, B>(s: Seq<A>, f: spec_fn(A) -> Option<B>, i: int)
    requires
        0 <= i < filter_map(s, f).len(),
    ensures
        exists|j: int| 0 <= j < s.len() && f(#[trigger] s[j]) == Some(filter_map(s, f)[i]),
    decreases s.len(),
{
    let rest = s.drop_last();
    if f(s.last()) is Some && i == filter_map(rest, f).len() {
        assert(s[s.len() - 1] == s.last());
    } else {
        lemma_filter_map_sound(rest, f, i);
        let j = choose|j: int| 0 <= j < rest.len() && f(#[trigger] rest[j]) == Some(filter_map(rest, f)[i]);
        assert(s[j] == rest[j]);
    }
}

/// For every element of `s` for which `f` gives a value, that value is an
/// element of `filter_map(s, f)`.
pub proof fn lemma_filter_map_complete<A, B>(s: Seq<A>, f: spec_fn(A) -> Option<B>, j: int)
    requires
        0 <= j < s.len(),
        f(s[j]) is Some,
    ensures
        exists|i: int| 0 <= i < filter_map(s, f).len() && Some(#[trigger] filter_map(s, f)[i]) == f(s[j]),
    decreases s.len(),
{
    let rest = s.drop_last();
    let all = filter_map(s, f);
    if j == s.len() - 1 {
        let i = filter_map(rest, f).len() as int;
        assert(Some(all[i]) == f(s[j]));
    } else {
        assert(rest[j] == s[j]);
        lemma_filter_map_complete(rest, f, j);
        let i = choose|i: int| 0 <= i < filter_map(rest, f).len() && Some(#[trigger] filter_map(rest, f)[i]) == f(rest[j]);
        assert(all[i] == filter_map(rest, f)[i]);
    }
}

} // verus!

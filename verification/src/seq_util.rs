//! One-step unfoldings of the sequence combinators that the collection
//! loops are proved against.

use vstd::prelude::*;

verus! {

/// Filtering a sequence extended by one element keeps the old filtered
/// prefix and appends the element exactly when it satisfies the predicate.
pub proof fn lemma_filter_push<T>(s: Seq<T>, pred: spec_fn(T) -> bool, x: T)
    ensures
        (s.push(x)).filter(pred) == if pred(x) {
            s.filter(pred).push(x)
        } else {
            s.filter(pred)
        },
{
    reveal(Seq::filter);
    assert(s.push(x).drop_last() =~= s);
    assert(s.push(x).last() == x);
    if pred(x) {
        assert((s.push(x)).filter(pred) =~= s.filter(pred).push(x));
    } else {
        assert((s.push(x)).filter(pred) =~= s.filter(pred));
    }
}

/// Filter-mapping a sequence extended by one element keeps the old output
/// and appends the element's image exactly when the function keeps it.
pub proof fn lemma_filter_map_push<T, U>(s: Seq<T>, f: spec_fn(T) -> Option<U>, x: T)
    ensures
        (s.push(x)).filter_map(f) == match f(x) {
            Some(y) => s.filter_map(f).push(y),
            None => s.filter_map(f),
        },
{
    assert(s.push(x).drop_last() =~= s);
    assert(s.push(x).last() == x);
    match f(x) {
        Some(y) => {
            assert((s.push(x)).filter_map(f) =~= s.filter_map(f).push(y));
        },
        None => {
            assert((s.push(x)).filter_map(f) =~= s.filter_map(f));
        },
    }
}

/// Mapping a sequence extended by one element appends the element's image.
pub proof fn lemma_map_values_push<T, U>(s: Seq<T>, f: spec_fn(T) -> U, x: T)
    ensures
        (s.push(x)).map_values(f) == s.map_values(f).push(f(x)),
{
    assert((s.push(x)).map_values(f) =~= s.map_values(f).push(f(x)));
}

} // verus!

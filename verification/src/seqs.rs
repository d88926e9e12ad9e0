//! Facts about filtered sequences.

use vstd::prelude::*;

verus! {

/// Filtering one element more appends that element, if it passes.
pub proof fn filter_take_next<T>(s: Seq<T>, i: int, pred: spec_fn(T) -> bool)
    requires
        0 <= i < s.len(),
    ensures
        s.take(i + 1).filter(pred) == if pred(s[i]) {
            s.take(i).filter(pred).push(s[i])
        } else {
            s.take(i).filter(pred)
        },
{
    reveal(Seq::filter);
    assert(s.take(i + 1).drop_last() =~= s.take(i));
}

/// Nothing passes through a filter over no elements.
pub proof fn filter_take_none<T>(s: Seq<T>, pred: spec_fn(T) -> bool)
    ensures
        s.take(0).filter(pred) == Seq::<T>::empty(),
{
    reveal(Seq::filter);
    assert(s.take(0) =~= Seq::<T>::empty());
}

/// Filtering distinct elements keeps them distinct and filters their set.
pub proof fn filter_distinct<T>(s: Seq<T>, pred: spec_fn(T) -> bool)
    requires
        s.no_duplicates(),
    ensures
        s.filter(pred).no_duplicates(),
        s.filter(pred).to_set() == s.to_set().filter(pred),
    decreases s.len(),
{
    reveal(Seq::filter);
    if s.len() > 0 {
        let rest = s.drop_last();
        filter_distinct(rest, pred);
        assert forall|x: T| #[trigger] s.filter(pred).to_set().contains(x) <==> s.to_set().filter(
            pred,
        ).contains(x) by {
            let sub = rest.filter(pred);
            assert(sub.to_set().contains(x) <==> sub.contains(x));
            assert(s.to_set().contains(x) <==> rest.contains(x) || x == s.last()) by {
                if s.contains(x) {
                    let k = s.index_of(x);
                    if k < rest.len() {
                        assert(rest[k] == x);
                    }
                }
                if rest.contains(x) {
                    assert(s[rest.index_of(x)] == x);
                }
                assert(s.contains(s.last()));
            }
            if pred(s.last()) {
                let out = sub.push(s.last());
                assert(out.contains(x) <==> sub.contains(x) || x == s.last()) by {
                    if sub.contains(x) {
                        assert(out[sub.index_of(x)] == x);
                    }
                    assert(out[sub.len() as int] == s.last());
                    if out.contains(x) {
                        let k = out.index_of(x);
                        if k < sub.len() {
                            assert(sub[k] == x);
                        }
                    }
                }
            }
        }
        assert(s.filter(pred).to_set() =~= s.to_set().filter(pred));
        if pred(s.last()) {
            let sub = rest.filter(pred);
            assert(!sub.contains(s.last())) by {
                if sub.contains(s.last()) {
                    assert(sub.to_set().contains(s.last()));
                    assert(rest.contains(s.last()));
                    let k = rest.index_of(s.last());
                    assert(s[k] == s[s.len() - 1]);
                }
            }
        }
    } else {
        assert(s.filter(pred).to_set() =~= s.to_set().filter(pred));
    }
}

/// Pushing an element inserts it into the set of elements.
pub proof fn lemma_push_to_set<T>(s: Seq<T>, x: T)
    ensures
        s.push(x).to_set() == s.to_set().insert(x),
{
    assert forall|y: T| #[trigger] s.push(x).to_set().contains(y) <==> s.to_set().insert(x).contains(
        y,
    ) by {
        if s.contains(y) {
            assert(s.push(x)[s.index_of(y)] == y);
        }
        assert(s.push(x)[s.len() as int] == x);
        if s.push(x).contains(y) && y != x {
            let k = s.push(x).index_of(y);
            assert(s[k] == y);
        }
    }
    assert(s.push(x).to_set() =~= s.to_set().insert(x));
}

} // verus!

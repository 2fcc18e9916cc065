//! Facts about picking the elements of a sequence by a condition.

use vstd::prelude::*;

verus! {

/// Two conditions that agree on every element pick the same elements.
pub proof fn filter_agrees<T>(s: Seq<T>, p: spec_fn(T) -> bool, q: spec_fn(T) -> bool)
    requires
        forall|i: int| 0 <= i < s.len() ==> p(#[trigger] s[i]) == q(s[i]),
    ensures
        s.filter(p) == s.filter(q),
    decreases s.len(),
{
    reveal(Seq::filter);
    if s.len() > 0 {
        assert forall|i: int| 0 <= i < s.drop_last().len() implies p(
            #[trigger] s.drop_last()[i],
        ) == q(s.drop_last()[i]) by {
            assert(s.drop_last()[i] == s[i]);
        }
        filter_agrees(s.drop_last(), p, q);
        assert(p(s[s.len() - 1]) == q(s[s.len() - 1]));
    }
}

/// A condition that holds of every element picks them all.
pub proof fn filter_keeps_all<T>(s: Seq<T>, p: spec_fn(T) -> bool)
    requires
        forall|i: int| 0 <= i < s.len() ==> p(#[trigger] s[i]),
    ensures
        s.filter(p) == s,
    decreases s.len(),
{
    reveal(Seq::filter);
    if s.len() > 0 {
        assert forall|i: int| 0 <= i < s.drop_last().len() implies p(
            #[trigger] s.drop_last()[i],
        ) by {
            assert(s.drop_last()[i] == s[i]);
        }
        filter_keeps_all(s.drop_last(), p);
        assert(p(s[s.len() - 1]));
        assert(s.drop_last().push(s.last()) =~= s);
    }
}

/// A condition that holds of no element picks none.
pub proof fn filter_keeps_none<T>(s: Seq<T>, p: spec_fn(T) -> bool)
    requires
        forall|i: int| 0 <= i < s.len() ==> !p(#[trigger] s[i]),
    ensures
        s.filter(p) == Seq::<T>::empty(),
    decreases s.len(),
{
    reveal(Seq::filter);
    if s.len() > 0 {
        assert forall|i: int| 0 <= i < s.drop_last().len() implies !p(
            #[trigger] s.drop_last()[i],
        ) by {
            assert(s.drop_last()[i] == s[i]);
        }
        filter_keeps_none(s.drop_last(), p);
        assert(!p(s[s.len() - 1]));
    } else {
        assert(s =~= Seq::<T>::empty());
    }
}

/// Picking by one condition and then by another picks by both.
pub proof fn filter_twice<T>(
    s: Seq<T>,
    a: spec_fn(T) -> bool,
    b: spec_fn(T) -> bool,
    both: spec_fn(T) -> bool,
)
    requires
        forall|i: int| 0 <= i < s.len() ==> #[trigger] both(s[i]) == (a(s[i]) && b(s[i])),
    ensures
        s.filter(a).filter(b) == s.filter(both),
    decreases s.len(),
{
    reveal(Seq::filter);
    if s.len() > 0 {
        assert forall|i: int| 0 <= i < s.drop_last().len() implies #[trigger] both(
            s.drop_last()[i],
        ) == (a(s.drop_last()[i]) && b(s.drop_last()[i])) by {
            assert(s.drop_last()[i] == s[i]);
            assert(both(s[i]) == (a(s[i]) && b(s[i])));
        }
        filter_twice(s.drop_last(), a, b, both);
        let front = s.drop_last().filter(a);
        assert(both(s[s.len() - 1]) == (a(s[s.len() - 1]) && b(s[s.len() - 1])));
        if a(s.last()) {
            front.lemma_filter_push(s.last(), b);
        }
    }
}

/// Where no element meets two conditions at once, those that meet one or
/// the other are as many as those that meet the one and those that meet the
/// other together.
pub proof fn filter_counts_add<T>(
    s: Seq<T>,
    p: spec_fn(T) -> bool,
    q: spec_fn(T) -> bool,
    either: spec_fn(T) -> bool,
)
    requires
        forall|i: int| 0 <= i < s.len() ==> #[trigger] either(s[i]) == (p(s[i]) || q(s[i])),
        forall|i: int| 0 <= i < s.len() ==> !(#[trigger] p(s[i]) && q(s[i])),
    ensures
        s.filter(either).len() == s.filter(p).len() + s.filter(q).len(),
    decreases s.len(),
{
    reveal(Seq::filter);
    if s.len() > 0 {
        let front = s.drop_last();
        assert forall|i: int| 0 <= i < front.len() implies #[trigger] either(front[i]) == (p(
            front[i],
        ) || q(front[i])) by {
            assert(front[i] == s[i]);
            assert(either(s[i]) == (p(s[i]) || q(s[i])));
        }
        assert forall|i: int| 0 <= i < front.len() implies !(#[trigger] p(front[i]) && q(
            front[i],
        )) by {
            assert(front[i] == s[i]);
            assert(!(p(s[i]) && q(s[i])));
        }
        filter_counts_add(front, p, q, either);
        let n = s.len() - 1;
        assert(either(s[n]) == (p(s[n]) || q(s[n])));
        assert(!(p(s[n]) && q(s[n])));
    }
}

/// The elements that meet a condition and those that do not are all the
/// elements.
pub proof fn filter_counts_split<T>(s: Seq<T>, p: spec_fn(T) -> bool, not_p: spec_fn(T) -> bool)
    requires
        forall|i: int| 0 <= i < s.len() ==> #[trigger] not_p(s[i]) == !p(s[i]),
    ensures
        s.filter(p).len() + s.filter(not_p).len() == s.len(),
    decreases s.len(),
{
    reveal(Seq::filter);
    if s.len() > 0 {
        let front = s.drop_last();
        assert forall|i: int| 0 <= i < front.len() implies #[trigger] not_p(front[i]) == !p(
            front[i],
        ) by {
            assert(front[i] == s[i]);
            assert(not_p(s[i]) == !p(s[i]));
        }
        filter_counts_split(front, p, not_p);
        let n = s.len() - 1;
        assert(not_p(s[n]) == !p(s[n]));
    }
}

} // verus!

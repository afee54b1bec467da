//! Laws relating the container's operations, stated over the sequence
//! model that the operations' contracts use.

use vstd::prelude::*;

use crate::StackVec;

verus! {

/// The sequence of values obtained by popping from the back of `s`,
/// `n` times, in the order they come out.
pub open spec fn popped_values<T>(s: Seq<T>, n: nat) -> Seq<T>
    recommends
        n <= s.len(),
    decreases n,
{
    if n == 0 {
        Seq::<T>::empty()
    } else {
        seq![s.last()] + popped_values(s.drop_last(), (n - 1) as nat)
    }
}

/// Capacity conservation: however the container was filled, the element
/// count and the remaining capacity always add up to the capacity.
pub proof fn lemma_capacity_conservation<T, const CAP: usize>(v: &StackVec<T, CAP>)
    requires
        v.wf(),
    ensures
        v@.len() + (CAP - v@.len()) == CAP,
        v@.len() <= CAP,
{
}

/// The sequence of values obtained by pulling from the front of `s`,
/// `n` times, in the order they come out.
pub open spec fn yielded_values<T>(s: Seq<T>, n: nat) -> Seq<T>
    recommends
        n <= s.len(),
    decreases n,
{
    if n == 0 {
        Seq::<T>::empty()
    } else {
        seq![s.first()] + yielded_values(s.drop_first(), (n - 1) as nat)
    }
}

/// Pulling every element from the front of `s` yields `s` itself.
pub proof fn lemma_yield_all<T>(s: Seq<T>)
    ensures
        yielded_values(s, s.len()) == s,
    decreases s.len(),
{
    if s.len() == 0 {
        assert(yielded_values(s, 0) =~= s);
    } else {
        lemma_yield_all(s.drop_first());
        assert(seq![s.first()] + s.drop_first() =~= s);
    }
}

/// Drain exhaustiveness: collecting everything a drain of `[a, b)`
/// yields produces exactly the elements of that range, in order; the
/// container keeps exactly the elements outside the range, in order,
/// so its length decreases by exactly `b - a`.
pub proof fn lemma_drain_exhaustiveness<T>(s: Seq<T>, a: int, b: int)
    requires
        0 <= a <= b <= s.len(),
    ensures
        yielded_values(s.subrange(a, b), (b - a) as nat) == s.subrange(a, b),
        (s.subrange(0, a) + s.subrange(b, s.len() as int)).len() == s.len() - (b - a),
        forall|j: int| 0 <= j < a ==> (s.subrange(0, a) + s.subrange(b, s.len() as int))[j] == s[j],
        forall|j: int|
            a <= j < s.len() - (b - a) ==> (s.subrange(0, a) + s.subrange(b, s.len() as int))[j]
                == s[j + (b - a)],
{
    lemma_yield_all(s.subrange(a, b));
}

/// What remains in a container holding `s` after popping `n` times.
pub open spec fn remaining_after_pops<T>(s: Seq<T>, n: nat) -> Seq<T>
    recommends
        n <= s.len(),
{
    s.take(s.len() - n)
}

/// Push/pop duality: after pushing the values of `xs` onto a container
/// holding `s`, popping `xs.len()` times yields exactly the values of
/// `xs` in reverse order and leaves `s` behind; in particular, starting
/// from an empty container the pops leave it empty.
pub proof fn lemma_push_pop_duality<T>(s: Seq<T>, xs: Seq<T>)
    ensures
        popped_values(s + xs, xs.len()) == xs.reverse(),
        remaining_after_pops(s + xs, xs.len()) == s,
        s.len() == 0 ==> remaining_after_pops(s + xs, xs.len()).len() == 0,
    decreases xs.len(),
{
    assert((s + xs).take(s.len() as int) =~= s);
    if xs.len() == 0 {
        assert(popped_values(s + xs, 0) =~= xs.reverse());
    } else {
        let ys = xs.drop_last();
        assert((s + xs).drop_last() =~= s + ys);
        lemma_push_pop_duality(s, ys);
        assert(popped_values(s + xs, xs.len()) =~= seq![xs.last()] + popped_values(
            s + ys,
            ys.len(),
        ));
        assert(seq![xs.last()] + ys.reverse() =~= xs.reverse());
    }
}

} // verus!

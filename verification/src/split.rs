use vstd::prelude::*;

verus! {

/// The first `amount` elements of `s`: what an advance by `amount` hands out.
pub open spec fn consumed<T>(s: Seq<T>, amount: nat) -> Seq<T> {
    s.subrange(0, amount as int)
}

/// What follows the first `amount` elements of `s`: what the handle spans
/// once it has advanced by `amount`.
pub open spec fn remaining<T>(s: Seq<T>, amount: nat) -> Seq<T> {
    s.subrange(amount as int, s.len() as int)
}

/// An advance within bounds parts the view at `amount` and nowhere else: the
/// consumed portion holds the first `amount` elements in order, the rest
/// holds the others in order, and the two put together are the view as it
/// was.
pub proof fn lemma_advance_partitions<T>(s: Seq<T>, amount: nat)
    requires
        amount <= s.len(),
    ensures
        consumed(s, amount).len() == amount,
        remaining(s, amount).len() == s.len() - amount,
        forall|i: int| 0 <= i < amount ==> consumed(s, amount)[i] == s[i],
        forall|i: int| 0 <= i < s.len() - amount ==> remaining(s, amount)[i] == s[amount + i],
        consumed(s, amount) + remaining(s, amount) == s,
{
    assert(consumed(s, amount) + remaining(s, amount) =~= s);
}

/// Advancing by nothing hands out an empty portion and leaves the view as
/// it was.
pub proof fn lemma_advance_by_nothing<T>(s: Seq<T>)
    ensures
        consumed(s, 0) == Seq::<T>::empty(),
        remaining(s, 0) == s,
{
    assert(consumed(s, 0) =~= Seq::<T>::empty());
    assert(remaining(s, 0) =~= s);
}

/// Advancing by the whole length hands out the whole view and leaves an
/// empty one.
pub proof fn lemma_advance_by_everything<T>(s: Seq<T>)
    ensures
        consumed(s, s.len()) == s,
        remaining(s, s.len()) == Seq::<T>::empty(),
{
    assert(consumed(s, s.len()) =~= s);
    assert(remaining(s, s.len()) =~= Seq::<T>::empty());
}

} // verus!

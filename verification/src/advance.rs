use crate::error::AdvanceError;
use crate::length::Length;
use crate::split::{consumed, remaining};
use core::ops::Deref;
use vstd::pervasive::runtime_assert;
use vstd::prelude::*;

verus! {

/// Advances a handle over its elements: each advance hands out the elements
/// passed over and rebinds the handle to the ones that follow.
pub trait Advance<'a>: Length + Sized {
    /// The element of the sequence.
    type Element;

    /// The output of advancing.
    type AdvanceOut: Deref<Target = [Self::Element]>;

    /// The elements that the handle spans, in order.
    spec fn elements(&self) -> Seq<Self::Element>;

    /// The elements that a consumed portion spans, in order.
    spec fn portion(out: &Self::AdvanceOut) -> Seq<Self::Element>;

    /// The length that the handle reports is the number of elements it spans.
    proof fn lemma_len_counts_elements(&self)
        ensures
            self.spec_len() == self.elements().len(),
    ;

    /// Advances self forward by `amount`, returning the advanced over portion.
    /// The caller has made sure that there is enough data.
    fn advance(&'a mut self, amount: usize) -> (out: Self::AdvanceOut)
        requires
            amount <= old(self).spec_len(),
        ensures
            Self::portion(&out) == consumed(old(self).elements(), amount as nat),
            final(self).elements() == remaining(old(self).elements(), amount as nat),
    {
        runtime_assert(amount <= self.len());
        self.advance_unchecked(amount)
    }

    /// Advances self forward by `amount`, returning the advanced over portion.
    /// Errors if not enough data, and then leaves self as it was.
    fn try_advance(&'a mut self, amount: usize) -> (res: Result<Self::AdvanceOut, AdvanceError>)
        ensures
            amount <= old(self).spec_len() ==> {
                &&& res is Ok
                &&& Self::portion(&res->Ok_0) == consumed(old(self).elements(), amount as nat)
                &&& final(self).elements() == remaining(old(self).elements(), amount as nat)
            },
            amount > old(self).spec_len() ==> {
                &&& res == Err::<Self::AdvanceOut, AdvanceError>(
                    AdvanceError::NotEnoughData {
                        needed: amount,
                        remaining: old(self).spec_len() as usize,
                    },
                )
                &&& *final(self) == *old(self)
            },
    {
        if self.len() < amount {
            Err(AdvanceError::NotEnoughData { needed: amount, remaining: self.len() })
        } else {
            Ok(self.advance_unchecked(amount))
        }
    }

    /// Advances self forward by `amount`, returning the advanced over portion.
    /// Makes no check of its own: `amount` must not be greater than the
    /// length of self.
    fn advance_unchecked(&'a mut self, amount: usize) -> (out: Self::AdvanceOut)
        requires
            amount <= old(self).spec_len(),
        ensures
            Self::portion(&out) == consumed(old(self).elements(), amount as nat),
            final(self).elements() == remaining(old(self).elements(), amount as nat),
    ;
}

impl<'a, 'b, T> Advance<'a> for &'b [T] {
    type Element = T;

    type AdvanceOut = &'b [T];

    open spec fn elements(&self) -> Seq<T> {
        self@
    }

    open spec fn portion(out: &&'b [T]) -> Seq<T> {
        out@
    }

    proof fn lemma_len_counts_elements(&self) {
    }

    fn advance_unchecked(&'a mut self, amount: usize) -> (out: &'b [T]) {
        let (head, tail) = (*self).split_at(amount);
        *self = tail;
        head
    }
}

impl<'a, 'b, T> Advance<'a> for &'b mut [T] {
    type Element = T;

    type AdvanceOut = &'b mut [T];

    open spec fn elements(&self) -> Seq<T> {
        self@
    }

    open spec fn portion(out: &&'b mut [T]) -> Seq<T> {
        out@
    }

    proof fn lemma_len_counts_elements(&self) {
    }

    /// Beyond what every handle promises: the storage ends up holding what
    /// was last written through the consumed portion, followed by what was
    /// last written through the handle. Neither view reaches the other's
    /// elements.
    fn advance(&'a mut self, amount: usize) -> (out: &'b mut [T])
        ensures
            final(*old(self))@ == final(out)@ + final(*final(self))@,
    {
        runtime_assert(amount <= self.len());
        self.advance_unchecked(amount)
    }

    /// Beyond what every handle promises: on success the storage ends up
    /// holding what was last written through the consumed portion, followed
    /// by what was last written through the handle.
    fn try_advance(&'a mut self, amount: usize) -> (res: Result<&'b mut [T], AdvanceError>)
        ensures
            res is Ok ==> final(*old(self))@ == final(res->Ok_0)@ + final(*final(self))@,
    {
        if self.len() < amount {
            Err(AdvanceError::NotEnoughData { needed: amount, remaining: self.len() })
        } else {
            Ok(self.advance_unchecked(amount))
        }
    }

    /// Beyond what every handle promises: the storage ends up holding what
    /// was last written through the consumed portion, followed by what was
    /// last written through the handle.
    fn advance_unchecked(&'a mut self, amount: usize) -> (out: &'b mut [T])
        ensures
            final(*old(self))@ == final(out)@ + final(*final(self))@,
    {
        let mut whole: &'b mut [T] = &mut [];
        core::mem::swap(self, &mut whole);
        let (head, tail) = whole.split_at_mut(amount);
        *self = tail;
        head
    }
}

} // verus!

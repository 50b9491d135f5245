use crate::advance::Advance;
use crate::error::AdvanceError;
use crate::length::Length;
use crate::split::{consumed, remaining};
use core::ops::Deref;
use vstd::array::array_view;
use vstd::pervasive::runtime_assert;
use vstd::prelude::*;

verus! {

/// `<[V]>::as_array` of std: a slice of exactly `M` elements is handed back
/// as an array reference over the same elements, and a slice of any other
/// length gives `None`.
pub assume_specification<V, const M: usize>[ <[V]>::as_array::<M> ](slice: &[V]) -> (out: Option<
    &[V; M],
>)
    ensures
        slice@.len() == M ==> out is Some && out.unwrap()@ == slice@,
        slice@.len() != M ==> out is None,
;

/// `<[V]>::as_mut_array` of std: a slice of exactly `M` elements is handed
/// back as a mutable array reference over the same elements, so that what is
/// written through the array is what the slice ends up holding; a slice of
/// any other length gives `None` and stays as it was.
pub assume_specification<V, const M: usize>[ <[V]>::as_mut_array::<M> ](slice: &mut [V]) -> (out:
    Option<&mut [V; M]>)
    ensures
        old(slice)@.len() == M ==> {
            &&& out is Some
            &&& out.unwrap()@ == old(slice)@
            &&& final(slice)@ == final(out.unwrap())@
        },
        old(slice)@.len() != M ==> out is None && final(slice)@ == old(slice)@,
;

/// Advances a handle by a number of elements that its type fixes, giving
/// back an array of exactly that size.
pub trait AdvanceArray<'a, const N: usize>: Length + Sized {
    /// The element of the array.
    type Element;

    /// The output of advancing.
    type AdvanceOut: Deref<Target = [Self::Element; N]>;

    /// The elements that the handle spans, in order.
    spec fn elements(&self) -> Seq<Self::Element>;

    /// The `N` elements that a consumed portion spans, in order.
    spec fn portion(out: &Self::AdvanceOut) -> Seq<Self::Element>;

    /// The length that the handle reports is the number of elements it spans.
    proof fn lemma_len_counts_elements(&self)
        ensures
            self.spec_len() == self.elements().len(),
    ;

    /// A consumed portion spans exactly `N` elements.
    proof fn lemma_portion_is_sized(out: &Self::AdvanceOut)
        ensures
            Self::portion(out).len() == N,
    ;

    /// Advances self forward by `N`, returning the advanced over portion.
    /// The caller has made sure that there is enough data.
    fn advance_array(&'a mut self) -> (out: Self::AdvanceOut)
        requires
            N <= old(self).spec_len(),
        ensures
            Self::portion(&out) == consumed(old(self).elements(), N as nat),
            final(self).elements() == remaining(old(self).elements(), N as nat),
    {
        runtime_assert(N <= self.len());
        self.advance_array_unchecked()
    }

    /// Advances self forward by `N`, returning the advanced over portion.
    /// Errors if not enough data, and then leaves self as it was.
    fn try_advance_array(&'a mut self) -> (res: Result<Self::AdvanceOut, AdvanceError>)
        ensures
            N <= old(self).spec_len() ==> {
                &&& res is Ok
                &&& Self::portion(&res->Ok_0) == consumed(old(self).elements(), N as nat)
                &&& final(self).elements() == remaining(old(self).elements(), N as nat)
            },
            N > old(self).spec_len() ==> {
                &&& res == Err::<Self::AdvanceOut, AdvanceError>(
                    AdvanceError::NotEnoughData {
                        needed: N,
                        remaining: old(self).spec_len() as usize,
                    },
                )
                &&& *final(self) == *old(self)
            },
    {
        if self.len() < N {
            Err(AdvanceError::NotEnoughData { needed: N, remaining: self.len() })
        } else {
            Ok(self.advance_array_unchecked())
        }
    }

    /// Advances self forward by `N`, returning the advanced over portion.
    /// Makes no check of its own: `N` must not be greater than the length of
    /// self.
    fn advance_array_unchecked(&'a mut self) -> (out: Self::AdvanceOut)
        requires
            N <= old(self).spec_len(),
        ensures
            Self::portion(&out) == consumed(old(self).elements(), N as nat),
            final(self).elements() == remaining(old(self).elements(), N as nat),
    ;
}

impl<'a, 'b, T, const N: usize> AdvanceArray<'a, N> for &'b [T] {
    type Element = T;

    type AdvanceOut = &'b [T; N];

    open spec fn elements(&self) -> Seq<T> {
        self@
    }

    open spec fn portion(out: &&'b [T; N]) -> Seq<T> {
        out@
    }

    proof fn lemma_len_counts_elements(&self) {
    }

    proof fn lemma_portion_is_sized(out: &&'b [T; N]) {
    }

    fn advance_array_unchecked(&'a mut self) -> (out: &'b [T; N]) {
        let head: &'b [T] = self.advance_unchecked(N);
        head.as_array::<N>().unwrap()
    }
}

impl<'a, 'b, T, const N: usize> AdvanceArray<'a, N> for &'b mut [T] {
    type Element = T;

    type AdvanceOut = &'b mut [T; N];

    open spec fn elements(&self) -> Seq<T> {
        self@
    }

    open spec fn portion(out: &&'b mut [T; N]) -> Seq<T> {
        out@
    }

    proof fn lemma_len_counts_elements(&self) {
    }

    proof fn lemma_portion_is_sized(out: &&'b mut [T; N]) {
    }

    /// Beyond what every handle promises: the storage ends up holding what
    /// was last written through the consumed array, followed by what was
    /// last written through the handle. Neither view reaches the other's
    /// elements.
    fn advance_array(&'a mut self) -> (out: &'b mut [T; N])
        ensures
            final(*old(self))@ == array_view::<T, N>(*final(out)) + final(*final(self))@,
    {
        runtime_assert(N <= self.len());
        self.advance_array_unchecked()
    }

    /// Beyond what every handle promises: on success the storage ends up
    /// holding what was last written through the consumed array, followed by
    /// what was last written through the handle.
    fn try_advance_array(&'a mut self) -> (res: Result<&'b mut [T; N], AdvanceError>)
        ensures
            res is Ok ==> final(*old(self))@ == array_view::<T, N>(*final(res->Ok_0)) + final(*final(self))@,
    {
        if self.len() < N {
            Err(AdvanceError::NotEnoughData { needed: N, remaining: self.len() })
        } else {
            Ok(self.advance_array_unchecked())
        }
    }

    /// Beyond what every handle promises: the storage ends up holding what
    /// was last written through the consumed array, followed by what was
    /// last written through the handle.
    fn advance_array_unchecked(&'a mut self) -> (out: &'b mut [T; N])
        ensures
            final(*old(self))@ == array_view::<T, N>(*final(out)) + final(*final(self))@,
    {
        let head: &'b mut [T] = self.advance_unchecked(N);
        head.as_mut_array::<N>().unwrap()
    }
}

} // verus!

use vstd::prelude::*;

verus! {

/// Anything that spans a known number of elements.
pub trait Length {
    /// The number of elements in view.
    spec fn spec_len(&self) -> nat;

    /// Gets the length.
    fn len(&self) -> (n: usize)
        ensures
            n == self.spec_len(),
    ;

    /// Tells whether the length is 0.
    fn is_empty(&self) -> (b: bool)
        ensures
            b <==> self.spec_len() == 0,
    {
        self.len() == 0
    }
}

impl<T> Length for [T] {
    open spec fn spec_len(&self) -> nat {
        self@.len()
    }

    fn len(&self) -> (n: usize) {
        <[T]>::len(self)
    }
}

impl<T> Length for &'_ [T] {
    open spec fn spec_len(&self) -> nat {
        self@.len()
    }

    fn len(&self) -> (n: usize) {
        <[T]>::len(self)
    }
}

impl<T> Length for &'_ mut [T] {
    open spec fn spec_len(&self) -> nat {
        self@.len()
    }

    fn len(&self) -> (n: usize) {
        <[T]>::len(self)
    }
}

impl<T, const N: usize> Length for [T; N] {
    open spec fn spec_len(&self) -> nat {
        N as nat
    }

    fn len(&self) -> (n: usize) {
        N
    }
}

impl<T, const N: usize> Length for &'_ [T; N] {
    open spec fn spec_len(&self) -> nat {
        N as nat
    }

    fn len(&self) -> (n: usize) {
        N
    }
}

impl<T, const N: usize> Length for &'_ mut [T; N] {
    open spec fn spec_len(&self) -> nat {
        N as nat
    }

    fn len(&self) -> (n: usize) {
        N
    }
}

/// Inspecting a view does not change it: any two answers that `len` gives
/// for the same view are the same number.
pub proof fn lemma_len_is_stable<L: Length + ?Sized>(view: &L, first: usize, second: usize)
    requires
        call_ensures(L::len, (view,), first),
        call_ensures(L::len, (view,), second),
    ensures
        first == second,
        first == view.spec_len(),
{
}

/// A fixed-size array spans as many elements as its type declares, and its
/// view has that many entries.
pub proof fn lemma_array_len_is_its_size<T, const N: usize>(array: &[T; N])
    ensures
        array.spec_len() == N,
        array@.len() == N,
{
}

} // verus!

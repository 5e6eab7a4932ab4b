use vstd::prelude::*;
use core::marker::PhantomData;
use crate::dtype::Dtype;
use crate::shape::{Shape, dims_product};

verus! {

/// A slot in the gradient region that holds a value saved by a forward pass for its
/// backward pass.
pub struct Saved<T: Dtype, S: Shape> {
    offset: usize,
    _pd: PhantomData<(T, S)>,
}

/// The byte count of a saved slot, which follows from its type.
pub trait SavedSize {
    const BYTES: usize;
}

impl<T: Dtype, S: Shape> SavedSize for Saved<T, S> {
    const BYTES: usize = S::NUMEL * T::SIZE_BYTES;
}

impl<T: Dtype, S: Shape> Saved<T, S> {

    /// Where the slot starts, in bytes from the start of the arena.
    pub closed spec fn spec_offset(&self) -> usize {
        self.offset
    }

    pub fn at(offset: usize) -> (s: Self)
        ensures
            s.spec_offset() == offset,
    {
        Saved { offset, _pd: PhantomData }
    }

    pub fn offset(&self) -> (o: usize)
        ensures
            o == self.spec_offset(),
    {
        self.offset
    }

    /// Gives up the slot and returns where it started.
    pub fn consume(self) -> (o: usize)
        ensures
            o == self.spec_offset(),
    {
        self.offset
    }
}

/// A saved slot holds the product of its dimensions times the element size in bytes,
/// whenever that fits in a `usize`.
pub proof fn lemma_saved_bytes<T: Dtype, S: Shape>()
    requires
        dims_product(S::spec_dims()) <= usize::MAX,
        dims_product(S::spec_dims()) * T::SIZE_BYTES <= usize::MAX,
    ensures
        Saved::<T, S>::BYTES == dims_product(S::spec_dims()) * T::SIZE_BYTES,
{
    S::lemma_rank_numel();
}

} // verus!

use vstd::prelude::*;
use core::marker::PhantomData;
use crate::dtype::Dtype;
use crate::shape::{Shape, dims_product};
use crate::storage::Region;

verus! {

/// A typed handle to `S::NUMEL` elements of type `T` that start at byte `offset` of an arena.
#[derive(Copy, Debug)]
pub struct Tensor<T: Dtype, S: Shape> {
    pub region: Region,
    pub offset: usize,
    pub(crate) _pd: PhantomData<(T, S)>,
}

impl<T: Dtype, S: Shape> Clone for Tensor<T, S> {
    fn clone(&self) -> (t: Self)
        ensures
            t == *self,
    {
        *self
    }
}

/// Element and byte counts that follow from a tensor's type.
pub trait TensorSize {
    const NUMEL: usize;
    const NBYTES: usize;
}

impl<T: Dtype, S: Shape> TensorSize for Tensor<T, S> {
    const NUMEL: usize = S::NUMEL;
    const NBYTES: usize = S::NUMEL * T::SIZE_BYTES;
}

impl<T: Dtype, S: Shape> Tensor<T, S> {

    /// The region the tensor lives in.
    pub closed spec fn spec_region(&self) -> Region {
        self.region
    }

    /// Where the tensor starts, in bytes from the start of the arena.
    pub closed spec fn spec_offset(&self) -> usize {
        self.offset
    }

    pub fn from_offset(region: Region, offset: usize) -> (t: Self)
        ensures
            t.spec_region() == region,
            t.spec_offset() == offset,
    {
        Tensor { region, offset, _pd: PhantomData }
    }

    pub(crate) fn byte_offset(&self) -> (o: usize)
        ensures
            o == self.spec_offset(),
    {
        self.offset
    }

    pub fn numel(&self) -> (n: usize)
        ensures
            n == Self::NUMEL,
    {
        Self::NUMEL
    }

    pub fn nbytes(&self) -> (n: usize)
        ensures
            n == Self::NBYTES,
    {
        Self::NBYTES
    }

    pub fn dims(&self) -> (d: Vec<usize>)
        ensures
            d@.len() == S::spec_dims().len(),
            forall|i: int| 0 <= i < d@.len() ==> d@[i] as nat == #[trigger] S::spec_dims()[i],
    {
        S::dims()
    }
}

/// A tensor's element count is its shape's, the product of its dimensions whenever that
/// fits in a `usize`; its byte count is that many times the element size whenever the
/// product fits; and its rank is its number of dimensions.
pub proof fn lemma_tensor_counts<T: Dtype, S: Shape>()
    ensures
        Tensor::<T, S>::NUMEL == S::NUMEL,
        S::RANK == S::spec_dims().len(),
        dims_product(S::spec_dims()) <= usize::MAX ==> Tensor::<T, S>::NUMEL == dims_product(
            S::spec_dims(),
        ),
        S::NUMEL * T::SIZE_BYTES <= usize::MAX ==> Tensor::<T, S>::NBYTES == S::NUMEL * T::SIZE_BYTES,
{
    S::lemma_rank_numel();
}

/// A tensor holds the product of its dimensions in elements and that many times the element
/// size in bytes, whenever the byte count fits in a `usize`.
pub proof fn lemma_tensor_sizes<T: Dtype, S: Shape>()
    requires
        dims_product(S::spec_dims()) <= usize::MAX,
        dims_product(S::spec_dims()) * T::SIZE_BYTES <= usize::MAX,
    ensures
        Tensor::<T, S>::NUMEL == dims_product(S::spec_dims()),
        Tensor::<T, S>::NBYTES == dims_product(S::spec_dims()) * T::SIZE_BYTES,
{
    S::lemma_rank_numel();
}

} // verus!

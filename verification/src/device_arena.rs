use vstd::prelude::*;
use crate::arena::{ArenaLayout, ArenaView, fresh_arena, layout_fits, region_view};
use crate::device::Device;
use crate::dtype::Dtype;
use crate::error::{ErrorView, LaunchError, LaunchResult, result_view};
use crate::region::{RegionState, align_up, spec_align_up, lemma_align_up};
use crate::saved::{Saved, SavedSize};
use crate::shape::Shape;
use crate::storage::{Region, subslice_mut};
use crate::tensor::{Tensor, TensorSize};

verus! {

/// The out-of-memory error for `nbytes` asked of a region of arena `v` that cannot hold
/// them: what was asked and what is left after aligning the cursor.
pub open spec fn out_of_memory(v: ArenaView, r: Region, nbytes: nat) -> ErrorView {
    let start = spec_align_up(v.region(r).used as int);
    ErrorView::OutOfMemory {
        requested: nbytes,
        available: if v.region(r).cap >= start { (v.region(r).cap - start) as nat } else { 0 },
    }
}

/// The outcome of asking arena `before` for `nbytes` in region `r`: the new arena and
/// the offset when they fit, and the out-of-memory error with the arena unchanged when
/// they do not.
pub open spec fn try_alloc_outcome(
    before: ArenaView,
    r: Region,
    nbytes: nat,
    after: ArenaView,
    result: Result<int, ErrorView>,
) -> bool {
    if before.fits(r, nbytes) {
        &&& after == before.after_alloc(r, nbytes)
        &&& result == Ok::<int, ErrorView>(before.alloc_offset(r))
    } else {
        &&& after == before
        &&& result == Err::<int, ErrorView>(out_of_memory(before, r, nbytes))
    }
}

impl RegionState {
    /// Like `bump`, but reports a region that cannot hold `nbytes` instead of
    /// assuming it can.
    pub(crate) fn try_bump(&mut self, nbytes: usize) -> (r: LaunchResult<usize>)
        requires
            old(self).wf(),
            spec_align_up(old(self).cursor as int) + nbytes <= usize::MAX,
        ensures
            final(self).wf(),
            final(self).base == old(self).base,
            final(self).cap == old(self).cap,
            spec_align_up(old(self).cursor as int) + nbytes <= old(self).cap ==> {
                &&& final(self).cursor == spec_align_up(old(self).cursor as int) + nbytes
                &&& r == Ok::<usize, LaunchError>(
                    (old(self).base + spec_align_up(old(self).cursor as int)) as usize,
                )
            },
            spec_align_up(old(self).cursor as int) + nbytes > old(self).cap ==> {
                &&& final(self).cursor == old(self).cursor
                &&& r matches Err(e) && e@ == ErrorView::OutOfMemory {
                    requested: nbytes as nat,
                    available: if old(self).cap >= spec_align_up(old(self).cursor as int) {
                        (old(self).cap - spec_align_up(old(self).cursor as int)) as nat
                    } else {
                        0
                    },
                }
            },
    {
        proof {
            lemma_align_up(self.cursor as int);
        }
        let start = align_up(self.cursor);
        let end = start + nbytes;
        if end > self.cap {
            return Err(
                LaunchError::OutOfMemory { requested: nbytes, available: self.cap.saturating_sub(start) },
            );
        }
        self.cursor = end;
        Ok(self.base + start)
    }
}

/// An arena in device memory, split into a weight, an activation and a gradient region
/// like the host `Arena`, but reporting exhausted regions as errors; on the host its
/// bytes live in ordinary memory.
pub struct DeviceArena {
    buf: Vec<u8>,
    weight: RegionState,
    activation: RegionState,
    gradient: RegionState,
}

impl View for DeviceArena {
    type V = ArenaView;

    closed spec fn view(&self) -> ArenaView {
        ArenaView {
            bytes: self.buf@,
            weight: region_view(self.weight),
            activation: region_view(self.activation),
            gradient: region_view(self.gradient),
        }
    }
}

impl DeviceArena {
    pub open spec fn wf(&self) -> bool {
        self@.wf()
    }

    proof fn lemma_states_wf(&self)
        requires
            self.wf(),
        ensures
            self.weight.wf(),
            self.activation.wf(),
            self.gradient.wf(),
    {
    }

    /// Allocates the zeroed arena for `layout` on `device`.
    pub fn new(device: &Device, layout: ArenaLayout) -> (r: LaunchResult<Self>)
        requires
            layout_fits(layout),
        ensures
            r matches Ok(a) && a@ == fresh_arena(layout) && a.wf(),
    {
        let w = align_up(layout.weight_bytes);
        let a = align_up(layout.activation_bytes);
        let g = align_up(layout.gradient_bytes);
        proof {
            lemma_align_up(layout.weight_bytes as int);
            lemma_align_up(layout.activation_bytes as int);
            lemma_align_up(layout.gradient_bytes as int);
        }
        let total = w + a + g;
        let mut buf: Vec<u8> = Vec::with_capacity(total);
        let mut i: usize = 0;
        while i < total
            invariant
                i <= total,
                buf@ == Seq::new(i as nat, |k: int| 0u8),
            decreases total - i,
        {
            buf.push(0u8);
            i = i + 1;
        }
        let arena = DeviceArena {
            buf,
            weight: RegionState { base: 0, cap: w, cursor: 0 },
            activation: RegionState { base: w, cap: a, cursor: 0 },
            gradient: RegionState { base: w + a, cap: g, cursor: 0 },
        };
        assert(arena@.bytes =~= fresh_arena(layout).bytes);
        Ok(arena)
    }

    /// Takes room for a tensor from `region`, or reports that the region is too full.
    pub fn allocate<T: Dtype, S: Shape>(&mut self, region: Region) -> (r: LaunchResult<
        Tensor<T, S>,
    >)
        requires
            old(self).wf(),
            spec_align_up(old(self)@.region(region).used as int) + Tensor::<T, S>::NBYTES
                <= usize::MAX,
        ensures
            try_alloc_outcome(
                old(self)@,
                region,
                Tensor::<T, S>::NBYTES as nat,
                final(self)@,
                match r {
                    Ok(t) => Ok(t.spec_offset() as int),
                    Err(e) => Err(e@),
                },
            ),
            r matches Ok(t) ==> t.spec_region() == region,
    {
        proof {
            self.lemma_states_wf();
        }
        let nbytes = <Tensor<T, S> as TensorSize>::NBYTES;
        let offset = match region {
            Region::Weight => self.weight.try_bump(nbytes),
            Region::Activation => self.activation.try_bump(nbytes),
            Region::Gradient => self.gradient.try_bump(nbytes),
        }?;
        Ok(Tensor::from_offset(region, offset))
    }

    /// Takes room for a saved value from the gradient region, or reports that the region
    /// is too full.
    pub fn alloc_saved<T: Dtype, S: Shape>(&mut self) -> (r: LaunchResult<Saved<T, S>>)
        requires
            old(self).wf(),
            spec_align_up(old(self)@.gradient.used as int) + Saved::<T, S>::BYTES <= usize::MAX,
        ensures
            try_alloc_outcome(
                old(self)@,
                Region::Gradient,
                Saved::<T, S>::BYTES as nat,
                final(self)@,
                match r {
                    Ok(s) => Ok(s.spec_offset() as int),
                    Err(e) => Err(e@),
                },
            ),
    {
        proof {
            self.lemma_states_wf();
        }
        let offset = self.gradient.try_bump(<Saved<T, S> as SavedSize>::BYTES)?;
        Ok(Saved::at(offset))
    }

    pub fn reset_activations(&mut self)
        requires
            old(self).wf(),
        ensures
            final(self)@ == old(self)@.after_reset(),
    {
        self.activation.cursor = 0;
    }

    pub fn used(&self, region: Region) -> (n: usize)
        ensures
            n == self@.region(region).used,
    {
        match region {
            Region::Weight => self.weight.cursor,
            Region::Activation => self.activation.cursor,
            Region::Gradient => self.gradient.cursor,
        }
    }

    pub fn total_bytes(&self) -> (n: usize)
        ensures
            n == self@.bytes.len(),
    {
        self.buf.len()
    }

    /// The `len` bytes at `offset`.
    pub fn host_bytes(&self, offset: usize, len: usize) -> (b: &[u8])
        requires
            offset + len <= self@.bytes.len(),
        ensures
            b@ == self@.bytes.subrange(offset as int, offset + len),
    {
        let _n = self.buf.len();
        vstd::slice::slice_subrange(self.buf.as_slice(), offset, offset + len)
    }

    /// The `len` bytes at `offset`, for writing; the rest of the arena is left as it was.
    pub fn host_bytes_mut(&mut self, offset: usize, len: usize) -> (b: &mut [u8])
        requires
            offset + len <= old(self)@.bytes.len(),
        ensures
            b@ == old(self)@.bytes.subrange(offset as int, offset + len),
            final(b)@.len() == len,
            final(self)@ == (ArenaView {
                bytes: old(self)@.bytes.subrange(0, offset as int) + final(b)@ + old(
                    self,
                )@.bytes.subrange(offset + len, old(self)@.bytes.len() as int),
                ..old(self)@
            }),
    {
        let _n = self.buf.len();
        subslice_mut(self.buf.as_mut_slice(), offset, offset + len)
    }
}

} // verus!

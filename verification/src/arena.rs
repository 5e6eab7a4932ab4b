use vstd::prelude::*;
use crate::dtype::Dtype;
use crate::region::{ALIGN, RegionState, align_up, spec_align_up, lemma_align_up, lemma_align_up_monotone};
use crate::saved::{Saved, SavedSize};
use crate::shape::Shape;
use crate::storage::{HostBuffer, Region};
use crate::tensor::{Tensor, TensorSize};

verus! {

/// Requested sizes of the three regions of an arena, before rounding up to `ALIGN`.
#[derive(Clone, Copy, Debug)]
pub struct ArenaLayout {
    pub weight_bytes: usize,
    pub activation_bytes: usize,
    pub gradient_bytes: usize,
}

/// Each region size of `layout` can be rounded up, and the rounded sizes add up to no
/// more than the largest buffer that can be allocated, `isize::MAX` bytes.
pub open spec fn layout_fits(layout: ArenaLayout) -> bool {
    &&& layout.weight_bytes + ALIGN - 1 <= usize::MAX
    &&& layout.activation_bytes + ALIGN - 1 <= usize::MAX
    &&& layout.gradient_bytes + ALIGN - 1 <= usize::MAX
    &&& spec_align_up(layout.weight_bytes as int) + spec_align_up(layout.activation_bytes as int)
        + spec_align_up(layout.gradient_bytes as int) <= isize::MAX
}

/// The size of an arena built from `layout`: the three region sizes, each rounded up.
pub open spec fn layout_total(layout: ArenaLayout) -> int {
    spec_align_up(layout.weight_bytes as int) + spec_align_up(layout.activation_bytes as int)
        + spec_align_up(layout.gradient_bytes as int)
}

/// Each region size of `layout`, rounded up, and their sum fit in a `usize`.
pub open spec fn layout_total_fits(layout: ArenaLayout) -> bool {
    &&& layout.weight_bytes + ALIGN - 1 <= usize::MAX
    &&& layout.activation_bytes + ALIGN - 1 <= usize::MAX
    &&& layout.gradient_bytes + ALIGN - 1 <= usize::MAX
    &&& layout_total(layout) <= usize::MAX
}

impl ArenaLayout {
    pub fn total(&self) -> (n: usize)
        requires
            layout_total_fits(*self),
        ensures
            n == layout_total(*self),
    {
        align_up(self.weight_bytes) + align_up(self.activation_bytes) + align_up(
            self.gradient_bytes,
        )
    }
}

/// One region of an arena: bytes `[base, base + cap)`, of which the first `used` are taken.
pub ghost struct RegionView {
    pub base: nat,
    pub cap: nat,
    pub used: nat,
}

/// What an arena holds: its bytes and the state of its three regions.
pub ghost struct ArenaView {
    pub bytes: Seq<u8>,
    pub weight: RegionView,
    pub activation: RegionView,
    pub gradient: RegionView,
}

impl ArenaView {
    pub open spec fn region(self, r: Region) -> RegionView {
        match r {
            Region::Weight => self.weight,
            Region::Activation => self.activation,
            Region::Gradient => self.gradient,
        }
    }

    pub open spec fn with_region(self, r: Region, rv: RegionView) -> ArenaView {
        match r {
            Region::Weight => ArenaView { weight: rv, ..self },
            Region::Activation => ArenaView { activation: rv, ..self },
            Region::Gradient => ArenaView { gradient: rv, ..self },
        }
    }

    /// The regions lie back to back from byte 0, in the order weight, activation,
    /// gradient, each aligned and no larger than its share of the bytes.
    pub open spec fn wf(self) -> bool {
        &&& self.weight.base == 0
        &&& self.activation.base == self.weight.cap
        &&& self.gradient.base == self.weight.cap + self.activation.cap
        &&& self.bytes.len() == self.weight.cap + self.activation.cap + self.gradient.cap
        &&& self.bytes.len() <= isize::MAX
        &&& self.weight.cap % ALIGN as nat == 0
        &&& self.activation.cap % ALIGN as nat == 0
        &&& self.gradient.cap % ALIGN as nat == 0
        &&& self.weight.used <= self.weight.cap
        &&& self.activation.used <= self.activation.cap
        &&& self.gradient.used <= self.gradient.cap
    }

    /// Where the next allocation in region `r` starts.
    pub open spec fn alloc_offset(self, r: Region) -> int {
        self.region(r).base + spec_align_up(self.region(r).used as int)
    }

    /// An allocation of `nbytes` fits in what is left of region `r`.
    pub open spec fn fits(self, r: Region, nbytes: nat) -> bool {
        spec_align_up(self.region(r).used as int) + nbytes <= self.region(r).cap
    }

    /// The arena after `nbytes` are taken from region `r`.
    pub open spec fn after_alloc(self, r: Region, nbytes: nat) -> ArenaView {
        self.with_region(
            r,
            RegionView {
                used: (spec_align_up(self.region(r).used as int) + nbytes) as nat,
                ..self.region(r)
            },
        )
    }

    /// The arena after its activation region is emptied.
    pub open spec fn after_reset(self) -> ArenaView {
        ArenaView { activation: RegionView { used: 0, ..self.activation }, ..self }
    }
}

/// A fresh arena for `layout`: zeroed bytes and three empty regions.
pub open spec fn fresh_arena(layout: ArenaLayout) -> ArenaView {
    let w = spec_align_up(layout.weight_bytes as int) as nat;
    let a = spec_align_up(layout.activation_bytes as int) as nat;
    let g = spec_align_up(layout.gradient_bytes as int) as nat;
    ArenaView {
        bytes: Seq::new(w + a + g, |i: int| 0u8),
        weight: RegionView { base: 0, cap: w, used: 0 },
        activation: RegionView { base: w, cap: a, used: 0 },
        gradient: RegionView { base: w + a, cap: g, used: 0 },
    }
}

/// A host-memory arena split into a weight, an activation and a gradient region, each
/// handing out aligned byte ranges in order.
#[derive(Debug)]
pub struct Arena {
    buf: HostBuffer,
    weight: RegionState,
    activation: RegionState,
    gradient: RegionState,
}

pub(crate) open spec fn region_view(rs: RegionState) -> RegionView {
    RegionView { base: rs.base as nat, cap: rs.cap as nat, used: rs.cursor as nat }
}

impl View for Arena {
    type V = ArenaView;

    closed spec fn view(&self) -> ArenaView {
        ArenaView {
            bytes: self.buf@,
            weight: region_view(self.weight),
            activation: region_view(self.activation),
            gradient: region_view(self.gradient),
        }
    }
}

impl Arena {
    pub open spec fn wf(&self) -> bool {
        self@.wf()
    }

    proof fn lemma_states_wf(&self)
        requires
            self.wf(),
        ensures
            self.weight.wf(),
            self.activation.wf(),
            self.gradient.wf(),
    {
    }

    pub fn new(layout: ArenaLayout) -> (a: Self)
        requires
            layout_fits(layout),
        ensures
            a@ == fresh_arena(layout),
            a.wf(),
    {
        let w = align_up(layout.weight_bytes);
        let a = align_up(layout.activation_bytes);
        let g = align_up(layout.gradient_bytes);
        proof {
            lemma_align_up(layout.weight_bytes as int);
            lemma_align_up(layout.activation_bytes as int);
            lemma_align_up(layout.gradient_bytes as int);
        }
        let arena = Arena {
            buf: HostBuffer::zeroed(w + a + g),
            weight: RegionState { base: 0, cap: w, cursor: 0 },
            activation: RegionState { base: w, cap: a, cursor: 0 },
            gradient: RegionState { base: w + a, cap: g, cursor: 0 },
        };
        assert(arena@.bytes =~= fresh_arena(layout).bytes);
        arena
    }

    /// Takes room for a tensor from `region`.
    pub fn allocate<T: Dtype, S: Shape>(&mut self, region: Region) -> (t: Tensor<T, S>)
        requires
            old(self).wf(),
            old(self)@.fits(region, Tensor::<T, S>::NBYTES as nat),
        ensures
            final(self)@ == old(self)@.after_alloc(region, Tensor::<T, S>::NBYTES as nat),
            t.spec_region() == region,
            t.spec_offset() == old(self)@.alloc_offset(region),
    {
        proof {
            self.lemma_states_wf();
        }
        let nbytes = <Tensor<T, S> as TensorSize>::NBYTES;
        let offset = match region {
            Region::Weight => self.weight.bump(nbytes),
            Region::Activation => self.activation.bump(nbytes),
            Region::Gradient => self.gradient.bump(nbytes),
        };
        Tensor::from_offset(region, offset)
    }

    /// Takes room for a saved value from the gradient region.
    pub fn alloc_saved<T: Dtype, S: Shape>(&mut self) -> (s: Saved<T, S>)
        requires
            old(self).wf(),
            old(self)@.fits(Region::Gradient, Saved::<T, S>::BYTES as nat),
        ensures
            final(self)@ == old(self)@.after_alloc(Region::Gradient, Saved::<T, S>::BYTES as nat),
            s.spec_offset() == old(self)@.alloc_offset(Region::Gradient),
    {
        proof {
            self.lemma_states_wf();
        }
        let offset = self.gradient.bump(<Saved<T, S> as SavedSize>::BYTES);
        Saved::at(offset)
    }

    pub fn reset_activations(&mut self)
        requires
            old(self).wf(),
        ensures
            final(self)@ == old(self)@.after_reset(),
    {
        self.activation.cursor = 0;
    }

    pub fn used(&self, region: Region) -> (n: usize)
        ensures
            n == self@.region(region).used,
    {
        match region {
            Region::Weight => self.weight.cursor,
            Region::Activation => self.activation.cursor,
            Region::Gradient => self.gradient.cursor,
        }
    }

    pub fn total_bytes(&self) -> (n: usize)
        ensures
            n == self@.bytes.len(),
    {
        self.buf.len()
    }

    /// The bytes of tensor `t`.
    pub fn tensor_bytes<T: Dtype, S: Shape>(&self, t: &Tensor<T, S>) -> (b: &[u8])
        requires
            t.spec_offset() + Tensor::<T, S>::NBYTES <= self@.bytes.len(),
        ensures
            b@ == self@.bytes.subrange(
                t.spec_offset() as int,
                t.spec_offset() + Tensor::<T, S>::NBYTES,
            ),
    {
        self.buf.slice(t.byte_offset(), <Tensor<T, S> as TensorSize>::NBYTES)
    }

    /// The bytes of tensor `t`, for writing; the rest of the arena is left as it was.
    pub fn tensor_bytes_mut<T: Dtype, S: Shape>(&mut self, t: &Tensor<T, S>) -> (b: &mut [u8])
        requires
            t.spec_offset() + Tensor::<T, S>::NBYTES <= old(self)@.bytes.len(),
        ensures
            b@ == old(self)@.bytes.subrange(
                t.spec_offset() as int,
                t.spec_offset() + Tensor::<T, S>::NBYTES,
            ),
            final(b)@.len() == Tensor::<T, S>::NBYTES,
            final(self)@ == (ArenaView {
                bytes: old(self)@.bytes.subrange(0, t.spec_offset() as int) + final(b)@ + old(
                    self,
                )@.bytes.subrange(
                    t.spec_offset() + Tensor::<T, S>::NBYTES,
                    old(self)@.bytes.len() as int,
                ),
                ..old(self)@
            }),
    {
        self.buf.slice_mut(t.byte_offset(), <Tensor<T, S> as TensorSize>::NBYTES)
    }

    pub fn buffer(&self) -> (b: &HostBuffer)
        ensures
            b@ == self@.bytes,
    {
        &self.buf
    }

    /// The whole byte buffer, for writing; the regions are left as they were.
    pub fn buffer_mut(&mut self) -> (b: &mut HostBuffer)
        ensures
            b@ == old(self)@.bytes,
            final(self)@ == (ArenaView { bytes: final(b)@, ..old(self)@ }),
    {
        &mut self.buf
    }
}


/// A fresh arena is well formed and its size is `layout.total()`.
pub proof fn lemma_fresh_arena(layout: ArenaLayout)
    requires
        layout_fits(layout),
    ensures
        fresh_arena(layout).wf(),
        fresh_arena(layout).bytes.len() == layout_total(layout),
        forall|r: Region| #[trigger] fresh_arena(layout).region(r).used == 0,
{
    lemma_align_up(layout.weight_bytes as int);
    lemma_align_up(layout.activation_bytes as int);
    lemma_align_up(layout.gradient_bytes as int);
}

/// The three regions are disjoint, lie in the order weight, activation, gradient, and
/// together cover the whole buffer.
pub proof fn lemma_regions_partition(v: ArenaView)
    requires
        v.wf(),
    ensures
        v.weight.base == 0,
        v.weight.base + v.weight.cap == v.activation.base,
        v.activation.base + v.activation.cap == v.gradient.base,
        v.gradient.base + v.gradient.cap == v.bytes.len(),
        forall|r: Region| #[trigger] v.region(r).base % ALIGN as nat == 0,
{
    assert((v.weight.cap + v.activation.cap) % 256 == 0) by (nonlinear_arith)
        requires
            v.weight.cap % 256 == 0,
            v.activation.cap % 256 == 0,
    ;
}

/// An allocation that fits starts at an aligned offset, at or after everything already
/// taken from its region, and ends inside the region, where the region's new cursor is;
/// the arena stays well formed.
pub proof fn lemma_alloc_placement(v: ArenaView, r: Region, nbytes: nat)
    requires
        v.wf(),
        v.fits(r, nbytes),
    ensures
        v.alloc_offset(r) % ALIGN as int == 0,
        v.region(r).base + v.region(r).used <= v.alloc_offset(r),
        v.alloc_offset(r) + nbytes == v.region(r).base + v.after_alloc(r, nbytes).region(r).used,
        v.alloc_offset(r) + nbytes <= v.region(r).base + v.region(r).cap,
        v.after_alloc(r, nbytes).wf(),
        v.after_alloc(r, nbytes).bytes == v.bytes,
{
    lemma_regions_partition(v);
    lemma_align_up(v.region(r).used as int);
    let b = v.region(r).base as int;
    let u = spec_align_up(v.region(r).used as int);
    assert((b + u) % 256 == 0) by (nonlinear_arith)
        requires
            b % 256 == 0,
            u % 256 == 0,
    ;
}

/// Two allocations made one after the other, from the same region or from different
/// ones, never share a byte.
pub proof fn lemma_successive_allocations_disjoint(
    v: ArenaView,
    r1: Region,
    n1: nat,
    r2: Region,
    n2: nat,
)
    requires
        v.wf(),
        v.fits(r1, n1),
        v.after_alloc(r1, n1).fits(r2, n2),
    ensures
        ({
            let o1 = v.alloc_offset(r1);
            let o2 = v.after_alloc(r1, n1).alloc_offset(r2);
            o1 + n1 <= o2 || o2 + n2 <= o1
        }),
{
    let v1 = v.after_alloc(r1, n1);
    lemma_alloc_placement(v, r1, n1);
    lemma_alloc_placement(v1, r2, n2);
    lemma_regions_partition(v);
}

/// When the first of two allocations from the same region is a multiple of `ALIGN` bytes
/// long, the second starts exactly where the first ends.
pub proof fn lemma_aligned_allocations_are_packed(v: ArenaView, r: Region, n1: nat, n2: nat)
    requires
        v.wf(),
        v.fits(r, n1),
        v.after_alloc(r, n1).fits(r, n2),
        n1 % ALIGN as nat == 0,
    ensures
        v.after_alloc(r, n1).alloc_offset(r) == v.alloc_offset(r) + n1,
{
    let u = spec_align_up(v.region(r).used as int);
    lemma_align_up(v.region(r).used as int);
    assert((u + n1) % 256 == 0) by (nonlinear_arith)
        requires
            u % 256 == 0,
            n1 % 256 == 0,
    ;
    lemma_align_up(u + n1);
}

/// Emptying the activation region leaves the other regions and the bytes as they were,
/// and the next activation allocation starts again at the start of the region, where the
/// first activation allocation of a fresh arena starts.
pub proof fn lemma_reset_rewinds(v: ArenaView, layout: ArenaLayout)
    requires
        v.wf(),
    ensures
        v.after_reset().wf(),
        v.after_reset().region(Region::Activation).used == 0,
        v.after_reset().alloc_offset(Region::Activation) == v.activation.base,
        v.after_reset().weight == v.weight,
        v.after_reset().gradient == v.gradient,
        v.after_reset().bytes == v.bytes,
        layout_fits(layout) ==> fresh_arena(layout).alloc_offset(Region::Activation)
            == fresh_arena(layout).activation.base,
{
    lemma_align_up(0);
}

/// Allocating never moves a cursor back: each region's cursor is at least where it was.
pub proof fn lemma_alloc_monotone(v: ArenaView, r: Region, nbytes: nat, q: Region)
    requires
        v.wf(),
        v.fits(r, nbytes),
    ensures
        v.region(q).used <= v.after_alloc(r, nbytes).region(q).used,
        v.after_alloc(r, nbytes).region(q).base == v.region(q).base,
        v.after_alloc(r, nbytes).region(q).cap == v.region(q).cap,
{
    lemma_align_up(v.region(r).used as int);
}

/// The arena after the first `k` allocations of `reqs` (region and byte count each).
pub open spec fn state_after(v: ArenaView, reqs: Seq<(Region, nat)>, k: int) -> ArenaView
    decreases k,
{
    if k <= 0 {
        v
    } else {
        state_after(v, reqs, k - 1).after_alloc(reqs[k - 1].0, reqs[k - 1].1)
    }
}

/// Each allocation of `reqs` fits when it is made.
pub open spec fn all_fit(v: ArenaView, reqs: Seq<(Region, nat)>) -> bool {
    forall|k: int| 0 <= k < reqs.len() ==> #[trigger] state_after(v, reqs, k).fits(reqs[k].0, reqs[k].1)
}

/// Where the `k`-th allocation of `reqs` starts.
pub open spec fn offset_of(v: ArenaView, reqs: Seq<(Region, nat)>, k: int) -> int {
    state_after(v, reqs, k).alloc_offset(reqs[k].0)
}

proof fn lemma_prefix_allocations(v: ArenaView, reqs: Seq<(Region, nat)>, n: int)
    requires
        v.wf(),
        all_fit(v, reqs),
        0 <= n <= reqs.len(),
    ensures
        state_after(v, reqs, n).wf(),
        state_after(v, reqs, n).bytes == v.bytes,
        forall|q: Region|
            #![trigger state_after(v, reqs, n).region(q)]
            state_after(v, reqs, n).region(q).base == v.region(q).base
                && state_after(v, reqs, n).region(q).cap == v.region(q).cap,
        forall|i: int|
            0 <= i < n ==> {
                &&& v.region(reqs[i].0).base <= #[trigger] offset_of(v, reqs, i)
                &&& offset_of(v, reqs, i) + reqs[i].1 <= v.region(reqs[i].0).base + state_after(
                    v,
                    reqs,
                    n,
                ).region(reqs[i].0).used
                &&& offset_of(v, reqs, i) % ALIGN as int == 0
            },
    decreases n,
{
    if n > 0 {
        lemma_prefix_allocations(v, reqs, n - 1);
        let prev = state_after(v, reqs, n - 1);
        let r = reqs[n - 1].0;
        let nb = reqs[n - 1].1;
        assert(prev.fits(r, nb));
        lemma_alloc_placement(prev, r, nb);
        let cur = state_after(v, reqs, n);
        assert(cur == prev.after_alloc(r, nb));
        assert forall|q: Region| #![trigger cur.region(q)] cur.region(q).base == v.region(q).base
            && cur.region(q).cap == v.region(q).cap && prev.region(q).used <= cur.region(q).used by {
            lemma_alloc_monotone(prev, r, nb, q);
            assert(prev.region(q).base == v.region(q).base);
        }
        assert forall|i: int| 0 <= i < n implies {
            &&& v.region(reqs[i].0).base <= #[trigger] offset_of(v, reqs, i)
            &&& offset_of(v, reqs, i) + reqs[i].1 <= v.region(reqs[i].0).base + cur.region(reqs[i].0).used
            &&& offset_of(v, reqs, i) % ALIGN as int == 0
        } by {
            if i == n - 1 {
                assert(prev.region(r).base == v.region(r).base);
            } else {
                assert(prev.region(reqs[i].0).used <= cur.region(reqs[i].0).used);
            }
        }
    }
}

/// Every allocation of a run of allocations that all fit is aligned and lies inside its
/// region, and no two of them share a byte.
pub proof fn lemma_allocations_disjoint(v: ArenaView, reqs: Seq<(Region, nat)>)
    requires
        v.wf(),
        all_fit(v, reqs),
    ensures
        forall|i: int|
            0 <= i < reqs.len() ==> {
                &&& #[trigger] offset_of(v, reqs, i) % ALIGN as int == 0
                &&& v.region(reqs[i].0).base <= offset_of(v, reqs, i)
                &&& offset_of(v, reqs, i) + reqs[i].1 <= v.region(reqs[i].0).base + v.region(reqs[i].0).cap
            },
        forall|i: int, j: int|
            0 <= i < j < reqs.len() ==> offset_of(v, reqs, i) + reqs[i].1 <= #[trigger] offset_of(
                v,
                reqs,
                j,
            ) || offset_of(v, reqs, j) + reqs[j].1 <= #[trigger] offset_of(v, reqs, i),
{
    lemma_regions_partition(v);
    let n = reqs.len() as int;
    lemma_prefix_allocations(v, reqs, n);
    assert forall|i: int| 0 <= i < n implies {
        &&& #[trigger] offset_of(v, reqs, i) % ALIGN as int == 0
        &&& v.region(reqs[i].0).base <= offset_of(v, reqs, i)
        &&& offset_of(v, reqs, i) + reqs[i].1 <= v.region(reqs[i].0).base + v.region(reqs[i].0).cap
    } by {
        lemma_prefix_allocations(v, reqs, i + 1);
        let st = state_after(v, reqs, i + 1);
        assert(st.region(reqs[i].0).cap == v.region(reqs[i].0).cap);
    }
    assert forall|i: int, j: int| 0 <= i < j < n implies offset_of(v, reqs, i) + reqs[i].1
        <= #[trigger] offset_of(v, reqs, j) || offset_of(v, reqs, j) + reqs[j].1
        <= #[trigger] offset_of(v, reqs, i) by {
        lemma_prefix_allocations(v, reqs, j);
        lemma_prefix_allocations(v, reqs, j + 1);
        lemma_prefix_allocations(v, reqs, i + 1);
        let sj = state_after(v, reqs, j);
        lemma_alloc_placement(sj, reqs[j].0, reqs[j].1);
        assert(sj.region(reqs[j].0).base == v.region(reqs[j].0).base);
        assert(state_after(v, reqs, i + 1).region(reqs[i].0).cap == v.region(reqs[i].0).cap);
    }
}

/// One thing done to an arena: an allocation of `nbytes` from `region` (which leaves the
/// arena as it is when it does not fit, as a failed device allocation does), emptying the
/// activation region, or writing `data` at `offset` (left undone when it would pass the
/// end).
pub ghost enum ArenaOp {
    Alloc { region: Region, nbytes: nat },
    Reset,
    Write { offset: int, data: Seq<u8> },
}

/// The arena after `op`.
pub open spec fn apply_op(v: ArenaView, op: ArenaOp) -> ArenaView {
    match op {
        ArenaOp::Alloc { region, nbytes } => if v.fits(region, nbytes) {
            v.after_alloc(region, nbytes)
        } else {
            v
        },
        ArenaOp::Reset => v.after_reset(),
        ArenaOp::Write { offset, data } => if 0 <= offset && offset + data.len() <= v.bytes.len() {
            ArenaView {
                bytes: v.bytes.subrange(0, offset) + data + v.bytes.subrange(
                    offset + data.len(),
                    v.bytes.len() as int,
                ),
                ..v
            }
        } else {
            v
        },
    }
}

/// The arena after the first `k` operations of `ops`.
pub open spec fn run_ops(v: ArenaView, ops: Seq<ArenaOp>, k: int) -> ArenaView
    decreases k,
{
    if k <= 0 {
        v
    } else {
        apply_op(run_ops(v, ops, k - 1), ops[k - 1])
    }
}

/// Through any run of operations an arena stays well formed, keeps its size and keeps
/// where each region lies; so an arena made from `layout` holds `layout.total()` bytes
/// for as long as it lives.
pub proof fn lemma_ops_keep_size(v: ArenaView, ops: Seq<ArenaOp>, k: int)
    requires
        v.wf(),
        0 <= k <= ops.len(),
    ensures
        run_ops(v, ops, k).wf(),
        run_ops(v, ops, k).bytes.len() == v.bytes.len(),
        forall|q: Region|
            #![trigger run_ops(v, ops, k).region(q)]
            run_ops(v, ops, k).region(q).base == v.region(q).base && run_ops(v, ops, k).region(q).cap
                == v.region(q).cap,
    decreases k,
{
    if k > 0 {
        lemma_ops_keep_size(v, ops, k - 1);
        let prev = run_ops(v, ops, k - 1);
        match ops[k - 1] {
            ArenaOp::Alloc { region, nbytes } => {
                if prev.fits(region, nbytes) {
                    lemma_alloc_placement(prev, region, nbytes);
                    assert forall|q: Region| #![trigger run_ops(v, ops, k).region(q)]
                        run_ops(v, ops, k).region(q).base == v.region(q).base
                            && run_ops(v, ops, k).region(q).cap == v.region(q).cap by {
                        lemma_alloc_monotone(prev, region, nbytes, q);
                        assert(prev.region(q).base == v.region(q).base);
                    }
                }
            },
            ArenaOp::Reset => {
                lemma_reset_rewinds(prev, ArenaLayout { weight_bytes: 0, activation_bytes: 0, gradient_bytes: 0 });
                assert forall|q: Region| #![trigger run_ops(v, ops, k).region(q)]
                    run_ops(v, ops, k).region(q).base == v.region(q).base
                        && run_ops(v, ops, k).region(q).cap == v.region(q).cap by {
                    assert(prev.region(q).base == v.region(q).base);
                }
            },
            ArenaOp::Write { offset, data } => {
                assert forall|q: Region| #![trigger run_ops(v, ops, k).region(q)]
                    run_ops(v, ops, k).region(q).base == v.region(q).base
                        && run_ops(v, ops, k).region(q).cap == v.region(q).cap by {
                    assert(prev.region(q).base == v.region(q).base);
                }
            },
        }
    }
}

/// An arena made from `layout` holds `layout.total()` bytes after any run of operations.
pub proof fn lemma_total_stays(layout: ArenaLayout, ops: Seq<ArenaOp>)
    requires
        layout_fits(layout),
    ensures
        run_ops(fresh_arena(layout), ops, ops.len() as int).bytes.len() == layout_total(layout),
        run_ops(fresh_arena(layout), ops, ops.len() as int).wf(),
{
    lemma_fresh_arena(layout);
    lemma_ops_keep_size(fresh_arena(layout), ops, ops.len() as int);
}

} // verus!

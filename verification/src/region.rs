use vstd::prelude::*;

verus! {

/// Every allocation in an arena starts at a multiple of this many bytes.
pub const ALIGN: usize = 256;

/// `n` rounded up to the next multiple of `ALIGN`.
pub open spec fn spec_align_up(n: int) -> int {
    ((n + ALIGN - 1) / ALIGN as int) * ALIGN
}

/// Facts about rounding up: the result is aligned, not smaller, and less than one `ALIGN`
/// above the input; aligned inputs are kept as they are.
pub proof fn lemma_align_up(n: int)
    requires
        0 <= n,
    ensures
        spec_align_up(n) % ALIGN as int == 0,
        n <= spec_align_up(n) < n + ALIGN,
        n % ALIGN as int == 0 ==> spec_align_up(n) == n,
{
    let q = (n + ALIGN - 1) / ALIGN as int;
    assert(q * 256 % 256 == 0) by (nonlinear_arith);
    assert(n <= q * 256 < n + 256) by (nonlinear_arith)
        requires
            q == (n + 255) / 256,
            0 <= n,
    ;
    if n % 256 == 0 {
        assert(q * 256 == n) by (nonlinear_arith)
            requires
                q == (n + 255) / 256,
                n % 256 == 0,
        ;
    }
}

/// Rounding up keeps order.
pub proof fn lemma_align_up_monotone(m: int, n: int)
    requires
        0 <= m <= n,
    ensures
        spec_align_up(m) <= spec_align_up(n),
{
    assert((m + 255) / 256 <= (n + 255) / 256) by (nonlinear_arith)
        requires
            0 <= m <= n,
    ;
    assert(((m + 255) / 256) * 256 <= ((n + 255) / 256) * 256) by (nonlinear_arith)
        requires
            (m + 255) / 256 <= (n + 255) / 256,
    ;
}

/// Rounds `n` up to a multiple of `ALIGN`.
pub(crate) fn align_up(n: usize) -> (r: usize)
    requires
        n + ALIGN - 1 <= usize::MAX,
    ensures
        r == spec_align_up(n as int),
{
    let m = n + (ALIGN - 1);
    let r = m & !(ALIGN - 1);
    assert(m & !255usize == (m / 256) * 256) by (bit_vector);
    r
}

/// One bump-allocated region: bytes `[base, base + cap)` of an arena, of which the first
/// `cursor` are taken.
#[derive(Debug)]
pub(crate) struct RegionState {
    pub(crate) base: usize,
    pub(crate) cap: usize,
    pub(crate) cursor: usize,
}

impl RegionState {
    pub(crate) open spec fn wf(&self) -> bool {
        &&& self.cursor <= self.cap
        &&& self.cap % ALIGN == 0
        &&& self.base % ALIGN == 0
        &&& self.base + self.cap <= usize::MAX
    }

    /// Takes `nbytes` at the first aligned position at or after the cursor and returns
    /// where they start, counted from the start of the arena.
    pub(crate) fn bump(&mut self, nbytes: usize) -> (start: usize)
        requires
            old(self).wf(),
            spec_align_up(old(self).cursor as int) + nbytes <= old(self).cap,
        ensures
            final(self).wf(),
            final(self).base == old(self).base,
            final(self).cap == old(self).cap,
            final(self).cursor == spec_align_up(old(self).cursor as int) + nbytes,
            start == old(self).base + spec_align_up(old(self).cursor as int),
    {
        proof {
            lemma_align_up(self.cursor as int);
        }
        let start = align_up(self.cursor);
        let end = start + nbytes;
        self.cursor = end;
        self.base + start
    }
}

} // verus!

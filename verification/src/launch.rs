use vstd::prelude::*;
use crate::device::{Stream, StreamHandle};
use crate::error::{ErrorView, LaunchError, LaunchResult, result_view};
use crate::text::{concat, concat4, decimal, u64_to_decimal};
use vstd::std_specs::convert::IntoSpec;

verus! {

/// The most threads one block may have.
pub const MAX_THREADS_PER_BLOCK: u32 = 1024;

/// The most dynamic shared memory one block may use, in bytes.
pub const MAX_DYNAMIC_SMEM_BYTES: u32 = 232448;

/// A three-dimensional extent of a grid or a block.
#[derive(Debug, Clone, Copy, PartialEq, Eq, Structural)]
pub struct Dim3 {
    pub x: u32,
    pub y: u32,
    pub z: u32,
}

impl Dim3 {
    /// The number of points in the extent.
    pub open spec fn spec_total(self) -> int {
        self.x * self.y * self.z
    }

    pub fn new(x: u32, y: u32, z: u32) -> (d: Self)
        ensures
            d == (Dim3 { x, y, z }),
    {
        Dim3 { x, y, z }
    }

    pub fn linear(x: u32) -> (d: Self)
        ensures
            d == (Dim3 { x, y: 1, z: 1 }),
    {
        Dim3 { x, y: 1, z: 1 }
    }

    pub fn total(&self) -> (n: u64)
        requires
            self.spec_total() <= u64::MAX,
        ensures
            n == self.spec_total(),
    {
        assert(self.x * self.y <= u64::MAX) by (nonlinear_arith)
            requires
                self.x <= u32::MAX,
                self.y <= u32::MAX,
        ;
        let xy = (self.x as u64) * (self.y as u64);
        assert(xy <= xy * self.z || self.z == 0) by (nonlinear_arith)
            requires
                xy >= 0,
        ;
        assert(xy * self.z == self.spec_total()) by (nonlinear_arith)
            requires
                xy == self.x * self.y,
        ;
        xy * (self.z as u64)
    }
}

/// What converting a number, a pair or a triple into an extent gives.
impl vstd::std_specs::convert::FromSpecImpl<u32> for Dim3 {
    open spec fn obeys_from_spec() -> bool {
        true
    }

    open spec fn from_spec(x: u32) -> Self {
        Dim3 { x, y: 1, z: 1 }
    }
}

impl vstd::std_specs::convert::FromSpecImpl<(u32, u32)> for Dim3 {
    open spec fn obeys_from_spec() -> bool {
        true
    }

    open spec fn from_spec(xy: (u32, u32)) -> Self {
        Dim3 { x: xy.0, y: xy.1, z: 1 }
    }
}

impl vstd::std_specs::convert::FromSpecImpl<(u32, u32, u32)> for Dim3 {
    open spec fn obeys_from_spec() -> bool {
        true
    }

    open spec fn from_spec(xyz: (u32, u32, u32)) -> Self {
        Dim3 { x: xyz.0, y: xyz.1, z: xyz.2 }
    }
}

/// A single number is a linear extent.
impl From<u32> for Dim3 {
    fn from(x: u32) -> (d: Self) {
        Dim3 { x, y: 1, z: 1 }
    }
}

/// A pair is a planar extent.
impl From<(u32, u32)> for Dim3 {
    fn from(xy: (u32, u32)) -> (d: Self) {
        Dim3 { x: xy.0, y: xy.1, z: 1 }
    }
}

/// A triple gives all three dimensions.
impl From<(u32, u32, u32)> for Dim3 {
    fn from(xyz: (u32, u32, u32)) -> (d: Self) {
        Dim3 { x: xyz.0, y: xyz.1, z: xyz.2 }
    }
}

/// How a kernel is launched: the grid, the block, the dynamic shared memory and the
/// stream.
#[derive(Debug, Clone, Copy, PartialEq, Eq, Structural)]
pub struct LaunchParams {
    pub grid: Dim3,
    pub block: Dim3,
    pub shared_mem_bytes: u32,
    pub stream: Stream,
}

/// Launch parameters on the default stream without shared memory.
pub open spec fn plain_params(grid: Dim3, block: Dim3) -> LaunchParams {
    LaunchParams { grid, block, shared_mem_bytes: 0, stream: Stream::spec_default() }
}

/// The extents of `p` can be multiplied out in a `u64`.
pub open spec fn params_countable(p: LaunchParams) -> bool {
    &&& p.grid.spec_total() <= u64::MAX
    &&& p.block.spec_total() <= u64::MAX
}

/// What validating `p` gives: an error for an empty grid or block, for a block with too
/// many threads, or for too much shared memory, checked in that order.
pub open spec fn validation(p: LaunchParams) -> Result<(), ErrorView> {
    if p.grid.spec_total() == 0 || p.block.spec_total() == 0 {
        Err(ErrorView::InvalidLaunchConfig("grid and block dimensions must be nonzero"@))
    } else if p.block.spec_total() > MAX_THREADS_PER_BLOCK {
        Err(
            ErrorView::InvalidLaunchConfig(
                "block has "@ + decimal(p.block.spec_total() as nat) + " threads, max is "@
                    + decimal(MAX_THREADS_PER_BLOCK as nat),
            ),
        )
    } else if p.shared_mem_bytes > MAX_DYNAMIC_SMEM_BYTES {
        Err(
            ErrorView::InvalidLaunchConfig(
                "dynamic shared memory "@ + decimal(p.shared_mem_bytes as nat)
                    + " bytes exceeds H100 max "@ + decimal(MAX_DYNAMIC_SMEM_BYTES as nat),
            ),
        )
    } else {
        Ok(())
    }
}

/// Extents whose third dimension is 1 can always be multiplied out in a `u64`.
pub proof fn lemma_flat_countable(grid: Dim3, block: Dim3)
    requires
        grid.z == 1,
        block.z == 1,
    ensures
        params_countable(plain_params(grid, block)),
{
    assert(grid.x * grid.y <= u64::MAX) by (nonlinear_arith)
        requires
            grid.x <= u32::MAX,
            grid.y <= u32::MAX,
    ;
    assert(block.x * block.y <= u64::MAX) by (nonlinear_arith)
        requires
            block.x <= u32::MAX,
            block.y <= u32::MAX,
    ;
}

impl LaunchParams {
    /// Launch parameters from anything that converts into the two extents.
    pub fn new<G: Into<Dim3>, B: Into<Dim3>>(grid: G, block: B) -> (p: Self)
        ensures
            G::obeys_into_spec() && B::obeys_into_spec() ==> p == plain_params(
                grid.into_spec(),
                block.into_spec(),
            ),
    {
        LaunchParams {
            grid: grid.into(),
            block: block.into(),
            shared_mem_bytes: 0,
            stream: Stream::default_stream(),
        }
    }

    pub fn with_shared_mem(self, bytes: u32) -> (p: Self)
        ensures
            p == (LaunchParams { shared_mem_bytes: bytes, ..self }),
    {
        let mut p = self;
        p.shared_mem_bytes = bytes;
        p
    }

    pub fn on_stream(self, stream: Stream) -> (p: Self)
        ensures
            p == (LaunchParams { stream, ..self }),
    {
        let mut p = self;
        p.stream = stream;
        p
    }

    pub fn total_threads(&self) -> (n: u64)
        requires
            params_countable(*self),
            self.grid.spec_total() * self.block.spec_total() <= u64::MAX,
        ensures
            n == self.grid.spec_total() * self.block.spec_total(),
    {
        self.grid.total() * self.block.total()
    }

    /// Checks the parameters against the device's limits.
    pub fn validate(&self) -> (r: LaunchResult<()>)
        requires
            params_countable(*self),
        ensures
            result_view(r) == validation(*self),
    {
        if self.grid.total() == 0 || self.block.total() == 0 {
            return Err(
                LaunchError::InvalidLaunchConfig(
                    String::from_str("grid and block dimensions must be nonzero"),
                ),
            );
        }
        let block_threads = self.block.total();
        if block_threads > MAX_THREADS_PER_BLOCK as u64 {
            let n = u64_to_decimal(block_threads);
            let max = u64_to_decimal(MAX_THREADS_PER_BLOCK as u64);
            return Err(
                LaunchError::InvalidLaunchConfig(
                    concat4("block has ", n.as_str(), " threads, max is ", max.as_str()),
                ),
            );
        }
        if self.shared_mem_bytes > MAX_DYNAMIC_SMEM_BYTES {
            let n = u64_to_decimal(self.shared_mem_bytes as u64);
            let max = u64_to_decimal(MAX_DYNAMIC_SMEM_BYTES as u64);
            return Err(
                LaunchError::InvalidLaunchConfig(
                    concat4(
                        "dynamic shared memory ",
                        n.as_str(),
                        " bytes exceeds H100 max ",
                        max.as_str(),
                    ),
                ),
            );
        }
        Ok(())
    }
}

} // verus!

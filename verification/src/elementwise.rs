use vstd::prelude::*;
use crate::error::LaunchResult;
use crate::launch::{lemma_flat_countable, params_countable, Dim3, LaunchParams, plain_params};
use crate::launcher::{KernelArg, KernelId, KernelLauncher};

verus! {

/// Threads per elementwise block.
pub const ELEMENTWISE_BLOCK: u32 = 256;

/// The launch parameters for `n` independent elements: one thread each, in blocks of
/// `ELEMENTWISE_BLOCK`, and never fewer than one block.
pub open spec fn elementwise_params(n: int) -> LaunchParams {
    let blocks = (n + ELEMENTWISE_BLOCK - 1) / ELEMENTWISE_BLOCK as int;
    plain_params(
        Dim3 { x: (if blocks == 0 { 1 } else { blocks }) as u32, y: 1, z: 1 },
        Dim3 { x: ELEMENTWISE_BLOCK, y: 1, z: 1 },
    )
}

pub fn elementwise_grid(n: usize) -> (p: LaunchParams)
    requires
        n + ELEMENTWISE_BLOCK <= u64::MAX,
    ensures
        p == elementwise_params(n as int),
        params_countable(p),
{
    let block = ELEMENTWISE_BLOCK;
    let g = (n as u64 + block as u64 - 1) / block as u64;
    let grid = (if g == 0 { 1 } else { g }) as u32;
    proof {
        lemma_flat_countable(Dim3 { x: grid, y: 1, z: 1 }, Dim3 { x: block, y: 1, z: 1 });
    }
    LaunchParams::new(grid, block)
}

/// A conversion between element types done on the device.
#[derive(Debug, Clone, Copy, PartialEq, Eq, Structural)]
pub enum CastKind {
    F32ToF8E4M3,
    F8E4M3ToF32,
    F32ToBf16,
    Bf16ToF32,
}

/// The kernel that performs a cast.
pub open spec fn cast_kernel(kind: CastKind) -> KernelId {
    match kind {
        CastKind::F32ToF8E4M3 => KernelId("cast_f32_to_fp8e4m3"),
        CastKind::F8E4M3ToF32 => KernelId("cast_fp8e4m3_to_f32"),
        CastKind::F32ToBf16 => KernelId("cast_f32_to_bf16"),
        CastKind::Bf16ToF32 => KernelId("cast_bf16_to_f32"),
    }
}

impl CastKind {
    pub fn kernel(self) -> (k: KernelId)
        ensures
            k == cast_kernel(self),
    {
        match self {
            CastKind::F32ToF8E4M3 => KernelId("cast_f32_to_fp8e4m3"),
            CastKind::F8E4M3ToF32 => KernelId("cast_fp8e4m3_to_f32"),
            CastKind::F32ToBf16 => KernelId("cast_f32_to_bf16"),
            CastKind::Bf16ToF32 => KernelId("cast_bf16_to_f32"),
        }
    }
}

pub fn residual_add_fwd_kernel() -> (k: KernelId)
    ensures
        k == KernelId("residual_add_fwd"),
{
    KernelId("residual_add_fwd")
}

pub fn residual_add_bwd_kernel() -> (k: KernelId)
    ensures
        k == KernelId("residual_add_bwd"),
{
    KernelId("residual_add_bwd")
}

pub fn embedding_fwd_kernel() -> (k: KernelId)
    ensures
        k == KernelId("embedding_lookup_fwd"),
{
    KernelId("embedding_lookup_fwd")
}

pub fn embedding_bwd_kernel() -> (k: KernelId)
    ensures
        k == KernelId("embedding_lookup_bwd"),
{
    KernelId("embedding_lookup_bwd")
}

pub fn dropout_fwd_kernel() -> (k: KernelId)
    ensures
        k == KernelId("dropout_fwd"),
{
    KernelId("dropout_fwd")
}

pub fn dropout_bwd_kernel() -> (k: KernelId)
    ensures
        k == KernelId("dropout_bwd"),
{
    KernelId("dropout_bwd")
}

/// Elementwise launches: each method hands its buffers, in order, to its kernel, over
/// one thread per element.
pub trait ElementwiseLaunch: KernelLauncher {
    fn residual_add(&self, out: KernelArg, a: KernelArg, b: KernelArg, n: usize) -> (r:
        LaunchResult<()>)
        requires
            n + ELEMENTWISE_BLOCK <= u64::MAX,
        ensures
            self.launch_ensures(
                KernelId("residual_add_fwd"),
                elementwise_params(n as int),
                seq![out, a, b],
                r,
            ),
    {
        let args = [out, a, b];
        assert(args@ =~= seq![out, a, b]);
        self.launch(residual_add_fwd_kernel(), elementwise_grid(n), &args)
    }

    fn residual_add_backward(
        &self,
        d_a: KernelArg,
        d_b: KernelArg,
        d_out: KernelArg,
        n: usize,
    ) -> (r: LaunchResult<()>)
        requires
            n + ELEMENTWISE_BLOCK <= u64::MAX,
        ensures
            self.launch_ensures(
                KernelId("residual_add_bwd"),
                elementwise_params(n as int),
                seq![d_a, d_b, d_out],
                r,
            ),
    {
        let args = [d_a, d_b, d_out];
        assert(args@ =~= seq![d_a, d_b, d_out]);
        self.launch(residual_add_bwd_kernel(), elementwise_grid(n), &args)
    }

    fn embedding_lookup(
        &self,
        out: KernelArg,
        table: KernelArg,
        indices: KernelArg,
        tokens: usize,
        dim: usize,
    ) -> (r: LaunchResult<()>)
        requires
            tokens * dim <= usize::MAX,
            tokens * dim + ELEMENTWISE_BLOCK <= u64::MAX,
        ensures
            self.launch_ensures(
                KernelId("embedding_lookup_fwd"),
                elementwise_params(tokens * dim),
                seq![out, table, indices],
                r,
            ),
    {
        let args = [out, table, indices];
        assert(args@ =~= seq![out, table, indices]);
        self.launch(embedding_fwd_kernel(), elementwise_grid(tokens * dim), &args)
    }

    fn embedding_backward(
        &self,
        d_table: KernelArg,
        d_out: KernelArg,
        indices: KernelArg,
        tokens: usize,
        dim: usize,
    ) -> (r: LaunchResult<()>)
        requires
            tokens * dim <= usize::MAX,
            tokens * dim + ELEMENTWISE_BLOCK <= u64::MAX,
        ensures
            self.launch_ensures(
                KernelId("embedding_lookup_bwd"),
                elementwise_params(tokens * dim),
                seq![d_table, d_out, indices],
                r,
            ),
    {
        let args = [d_table, d_out, indices];
        assert(args@ =~= seq![d_table, d_out, indices]);
        self.launch(embedding_bwd_kernel(), elementwise_grid(tokens * dim), &args)
    }

    /// Drops elements with probability given by the bits `p_bits` of an `f32`, seeded
    /// by `seed`; both are the kernel's business and take no part in the launch.
    fn dropout_forward(
        &self,
        out: KernelArg,
        input: KernelArg,
        mask: KernelArg,
        n: usize,
        p_bits: u32,
        seed: u64,
    ) -> (r: LaunchResult<()>)
        requires
            n + ELEMENTWISE_BLOCK <= u64::MAX,
        ensures
            self.launch_ensures(
                KernelId("dropout_fwd"),
                elementwise_params(n as int),
                seq![out, input, mask],
                r,
            ),
    {
        let args = [out, input, mask];
        assert(args@ =~= seq![out, input, mask]);
        self.launch(dropout_fwd_kernel(), elementwise_grid(n), &args)
    }

    fn dropout_backward(&self, d_in: KernelArg, d_out: KernelArg, mask: KernelArg, n: usize) -> (r:
        LaunchResult<()>)
        requires
            n + ELEMENTWISE_BLOCK <= u64::MAX,
        ensures
            self.launch_ensures(
                KernelId("dropout_bwd"),
                elementwise_params(n as int),
                seq![d_in, d_out, mask],
                r,
            ),
    {
        let args = [d_in, d_out, mask];
        assert(args@ =~= seq![d_in, d_out, mask]);
        self.launch(dropout_bwd_kernel(), elementwise_grid(n), &args)
    }

    fn cast(&self, dst: KernelArg, src: KernelArg, n: usize, kind: CastKind) -> (r: LaunchResult<
        (),
    >)
        requires
            n + ELEMENTWISE_BLOCK <= u64::MAX,
        ensures
            self.launch_ensures(cast_kernel(kind), elementwise_params(n as int), seq![dst, src], r),
    {
        let args = [dst, src];
        assert(args@ =~= seq![dst, src]);
        self.launch(kind.kernel(), elementwise_grid(n), &args)
    }
}

impl<T: KernelLauncher + ?Sized> ElementwiseLaunch for T {}

} // verus!

use vstd::prelude::*;
use crate::error::LaunchResult;
use crate::launch::{lemma_flat_countable, params_countable, Dim3, LaunchParams, plain_params};
use crate::launcher::{KernelArg, KernelId, KernelLauncher};

verus! {

/// Threads per normalisation block.
pub const NORM_BLOCK: u32 = 256;

/// One block per row, never fewer than one.
pub open spec fn rowwise_params(rows: usize) -> LaunchParams {
    plain_params(
        Dim3 { x: (if rows as u32 == 0 { 1 } else { rows as u32 }), y: 1, z: 1 },
        Dim3 { x: NORM_BLOCK, y: 1, z: 1 },
    )
}

pub fn rowwise(rows: usize) -> (p: LaunchParams)
    ensures
        p == rowwise_params(rows),
        params_countable(p),
{
    let r = rows as u32;
    proof {
        lemma_flat_countable(Dim3 { x: if r == 0 { 1 } else { r }, y: 1, z: 1 }, Dim3 { x: NORM_BLOCK, y: 1, z: 1 });
    }
    LaunchParams::new(if r == 0 { 1 } else { r }, NORM_BLOCK)
}

pub fn rmsnorm_fwd_kernel() -> (k: KernelId)
    ensures
        k == KernelId("rmsnorm_adjoint_fwd"),
{
    KernelId("rmsnorm_adjoint_fwd")
}

pub fn rmsnorm_bwd_kernel() -> (k: KernelId)
    ensures
        k == KernelId("rmsnorm_adjoint_bwd"),
{
    KernelId("rmsnorm_adjoint_bwd")
}

pub fn layernorm_fwd_kernel() -> (k: KernelId)
    ensures
        k == KernelId("layernorm_adjoint_fwd"),
{
    KernelId("layernorm_adjoint_fwd")
}

pub fn layernorm_bwd_kernel() -> (k: KernelId)
    ensures
        k == KernelId("layernorm_adjoint_bwd"),
{
    KernelId("layernorm_adjoint_bwd")
}

/// RMSNorm launches: one block per token.
pub trait RmsNormLaunch: KernelLauncher {
    fn rmsnorm_fwd(
        &self,
        out: KernelArg,
        x: KernelArg,
        weight: KernelArg,
        rms: KernelArg,
        tokens: usize,
        dim: usize,
    ) -> (r: LaunchResult<()>)
        ensures
            self.launch_ensures(
                KernelId("rmsnorm_adjoint_fwd"),
                rowwise_params(tokens),
                seq![out, x, weight, rms],
                r,
            ),
    {
        let args = [out, x, weight, rms];
        assert(args@ =~= seq![out, x, weight, rms]);
        self.launch(rmsnorm_fwd_kernel(), rowwise(tokens), &args)
    }

    fn rmsnorm_bwd(
        &self,
        dx: KernelArg,
        dweight: KernelArg,
        dy: KernelArg,
        x: KernelArg,
        rms: KernelArg,
        weight: KernelArg,
        tokens: usize,
        dim: usize,
    ) -> (r: LaunchResult<()>)
        ensures
            self.launch_ensures(
                KernelId("rmsnorm_adjoint_bwd"),
                rowwise_params(tokens),
                seq![dx, dweight, dy, x, rms, weight],
                r,
            ),
    {
        let args = [dx, dweight, dy, x, rms, weight];
        assert(args@ =~= seq![dx, dweight, dy, x, rms, weight]);
        self.launch(rmsnorm_bwd_kernel(), rowwise(tokens), &args)
    }
}

impl<T: KernelLauncher + ?Sized> RmsNormLaunch for T {}

/// LayerNorm launches: one block per token.
pub trait LayerNormLaunch: KernelLauncher {
    fn layernorm_fwd(
        &self,
        out: KernelArg,
        x: KernelArg,
        weight: KernelArg,
        bias: KernelArg,
        mean: KernelArg,
        invstd: KernelArg,
        tokens: usize,
        dim: usize,
    ) -> (r: LaunchResult<()>)
        ensures
            self.launch_ensures(
                KernelId("layernorm_adjoint_fwd"),
                rowwise_params(tokens),
                seq![out, x, weight, bias, mean, invstd],
                r,
            ),
    {
        let args = [out, x, weight, bias, mean, invstd];
        assert(args@ =~= seq![out, x, weight, bias, mean, invstd]);
        self.launch(layernorm_fwd_kernel(), rowwise(tokens), &args)
    }

    fn layernorm_bwd(
        &self,
        dx: KernelArg,
        dweight: KernelArg,
        dbias: KernelArg,
        dy: KernelArg,
        x: KernelArg,
        mean: KernelArg,
        invstd: KernelArg,
        weight: KernelArg,
        tokens: usize,
        dim: usize,
    ) -> (r: LaunchResult<()>)
        ensures
            self.launch_ensures(
                KernelId("layernorm_adjoint_bwd"),
                rowwise_params(tokens),
                seq![dx, dweight, dbias, dy, x, mean, invstd, weight],
                r,
            ),
    {
        let args = [dx, dweight, dbias, dy, x, mean, invstd, weight];
        assert(args@ =~= seq![dx, dweight, dbias, dy, x, mean, invstd, weight]);
        self.launch(layernorm_bwd_kernel(), rowwise(tokens), &args)
    }
}

impl<T: KernelLauncher + ?Sized> LayerNormLaunch for T {}

} // verus!

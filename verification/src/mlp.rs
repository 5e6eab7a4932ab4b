use vstd::prelude::*;
use crate::elementwise::{ELEMENTWISE_BLOCK, elementwise_grid, elementwise_params};
use crate::error::LaunchResult;
use crate::launcher::{KernelArg, KernelId, KernelLauncher};

verus! {

pub fn swiglu_fwd_kernel() -> (k: KernelId)
    ensures
        k == KernelId("swiglu_adjoint_fwd"),
{
    KernelId("swiglu_adjoint_fwd")
}

pub fn swiglu_bwd_kernel() -> (k: KernelId)
    ensures
        k == KernelId("swiglu_adjoint_bwd"),
{
    KernelId("swiglu_adjoint_bwd")
}

/// SwiGLU MLP launches: one thread per element of the `tokens x d_ff` hidden activation.
pub trait SwigluLaunch: KernelLauncher {
    fn swiglu_fwd(
        &self,
        out: KernelArg,
        x: KernelArg,
        gate_proj: KernelArg,
        up_proj: KernelArg,
        down_proj: KernelArg,
        tokens: usize,
        d_model: usize,
        d_ff: usize,
    ) -> (r: LaunchResult<()>)
        requires
            tokens * d_ff <= usize::MAX,
            tokens * d_ff + ELEMENTWISE_BLOCK <= u64::MAX,
        ensures
            self.launch_ensures(
                KernelId("swiglu_adjoint_fwd"),
                elementwise_params(tokens * d_ff),
                seq![out, x, gate_proj, up_proj, down_proj],
                r,
            ),
    {
        let args = [out, x, gate_proj, up_proj, down_proj];
        assert(args@ =~= seq![out, x, gate_proj, up_proj, down_proj]);
        self.launch(swiglu_fwd_kernel(), elementwise_grid(tokens * d_ff), &args)
    }

    fn swiglu_bwd(
        &self,
        dx: KernelArg,
        dgate_proj: KernelArg,
        dup_proj: KernelArg,
        ddown_proj: KernelArg,
        dy: KernelArg,
        x: KernelArg,
        gate_proj: KernelArg,
        up_proj: KernelArg,
        down_proj: KernelArg,
        tokens: usize,
        d_model: usize,
        d_ff: usize,
    ) -> (r: LaunchResult<()>)
        requires
            tokens * d_ff <= usize::MAX,
            tokens * d_ff + ELEMENTWISE_BLOCK <= u64::MAX,
        ensures
            self.launch_ensures(
                KernelId("swiglu_adjoint_bwd"),
                elementwise_params(tokens * d_ff),
                seq![dx, dgate_proj, dup_proj, ddown_proj, dy, x, gate_proj, up_proj, down_proj],
                r,
            ),
    {
        let args = [dx, dgate_proj, dup_proj, ddown_proj, dy, x, gate_proj, up_proj, down_proj];
        assert(args@ =~= seq![
            dx,
            dgate_proj,
            dup_proj,
            ddown_proj,
            dy,
            x,
            gate_proj,
            up_proj,
            down_proj,
        ]);
        self.launch(swiglu_bwd_kernel(), elementwise_grid(tokens * d_ff), &args)
    }
}

impl<T: KernelLauncher + ?Sized> SwigluLaunch for T {}

} // verus!

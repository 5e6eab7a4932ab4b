use vstd::prelude::*;
use crate::error::LaunchResult;
use crate::launch::{lemma_flat_countable, params_countable, Dim3, LaunchParams, plain_params};
use crate::launcher::{KernelArg, KernelId, KernelLauncher};

verus! {

/// Matrix products go to the BLAS library, which picks its own grid: the launch carries a
/// single thread.
pub open spec fn blas_params() -> LaunchParams {
    plain_params(Dim3 { x: 1, y: 1, z: 1 }, Dim3 { x: 1, y: 1, z: 1 })
}

fn cublas_params() -> (p: LaunchParams)
    ensures
        p == blas_params(),
        params_countable(p),
{
    proof {
        lemma_flat_countable(Dim3 { x: 1, y: 1, z: 1 }, Dim3 { x: 1, y: 1, z: 1 });
    }
    LaunchParams::new(1u32, 1u32)
}

pub fn matmul_fwd_kernel() -> (k: KernelId)
    ensures
        k == KernelId("matmul_fwd"),
{
    KernelId("matmul_fwd")
}

pub fn matmul_bwd_kernel() -> (k: KernelId)
    ensures
        k == KernelId("matmul_bwd"),
{
    KernelId("matmul_bwd")
}

pub fn linear_fwd_kernel() -> (k: KernelId)
    ensures
        k == KernelId("linear_fwd"),
{
    KernelId("linear_fwd")
}

pub fn linear_bwd_kernel() -> (k: KernelId)
    ensures
        k == KernelId("linear_bwd"),
{
    KernelId("linear_bwd")
}

/// Matrix product launches: each method hands its buffers, in order, to its kernel.
pub trait MatmulLaunch: KernelLauncher {
    fn matmul_fwd(
        &self,
        out: KernelArg,
        lhs: KernelArg,
        rhs: KernelArg,
        m: usize,
        k: usize,
        n: usize,
    ) -> (r: LaunchResult<()>)
        ensures
            self.launch_ensures(KernelId("matmul_fwd"), blas_params(), seq![out, lhs, rhs], r),
    {
        let args = [out, lhs, rhs];
        assert(args@ =~= seq![out, lhs, rhs]);
        self.launch(matmul_fwd_kernel(), cublas_params(), &args)
    }

    fn matmul_bwd(
        &self,
        dlhs: KernelArg,
        drhs: KernelArg,
        dout: KernelArg,
        lhs: KernelArg,
        rhs: KernelArg,
        m: usize,
        k: usize,
        n: usize,
    ) -> (r: LaunchResult<()>)
        ensures
            self.launch_ensures(
                KernelId("matmul_bwd"),
                blas_params(),
                seq![dlhs, drhs, dout, lhs, rhs],
                r,
            ),
    {
        let args = [dlhs, drhs, dout, lhs, rhs];
        assert(args@ =~= seq![dlhs, drhs, dout, lhs, rhs]);
        self.launch(matmul_bwd_kernel(), cublas_params(), &args)
    }

    fn linear_fwd(
        &self,
        out: KernelArg,
        x: KernelArg,
        weight: KernelArg,
        bias: KernelArg,
        m: usize,
        k: usize,
        n: usize,
    ) -> (r: LaunchResult<()>)
        ensures
            self.launch_ensures(
                KernelId("linear_fwd"),
                blas_params(),
                seq![out, x, weight, bias],
                r,
            ),
    {
        let args = [out, x, weight, bias];
        assert(args@ =~= seq![out, x, weight, bias]);
        self.launch(linear_fwd_kernel(), cublas_params(), &args)
    }

    fn linear_bwd(
        &self,
        dx: KernelArg,
        dweight: KernelArg,
        dbias: KernelArg,
        dout: KernelArg,
        x: KernelArg,
        weight: KernelArg,
        m: usize,
        k: usize,
        n: usize,
    ) -> (r: LaunchResult<()>)
        ensures
            self.launch_ensures(
                KernelId("linear_bwd"),
                blas_params(),
                seq![dx, dweight, dbias, dout, x, weight],
                r,
            ),
    {
        let args = [dx, dweight, dbias, dout, x, weight];
        assert(args@ =~= seq![dx, dweight, dbias, dout, x, weight]);
        self.launch(linear_bwd_kernel(), cublas_params(), &args)
    }
}

impl<T: KernelLauncher + ?Sized> MatmulLaunch for T {}

} // verus!

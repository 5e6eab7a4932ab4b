use vstd::prelude::*;
use crate::error::LaunchResult;
use crate::launch::{lemma_flat_countable, params_countable, Dim3, LaunchParams, plain_params};
use crate::launcher::{KernelArg, KernelId, KernelLauncher};

verus! {

/// Query positions handled by one block.
pub const ATTN_Q_TILE: usize = 64;

/// Threads per attention block.
pub const ATTN_BLOCK: u32 = 128;

/// The launch shape of attention over `batch * heads` sequences of `seqlen` positions:
/// one block per sequence and per tile of query positions, never fewer than one of each.
pub open spec fn attention_grid_spec(batch: usize, heads: usize, seqlen: usize) -> (Dim3, Dim3) {
    let q_blocks = (seqlen + ATTN_Q_TILE - 1) / ATTN_Q_TILE as int;
    let bh = batch * heads;
    (
        Dim3 {
            x: (if bh == 0 { 1 } else { bh }) as u32,
            y: (if q_blocks == 0 { 1 } else { q_blocks }) as u32,
            z: 1,
        },
        Dim3 { x: ATTN_BLOCK, y: 1, z: 1 },
    )
}

/// The launch parameters for attention: the grid of `attention_grid_spec` on the
/// default stream, without shared memory.
pub open spec fn attention_params(batch: usize, heads: usize, seqlen: usize) -> LaunchParams {
    plain_params(
        attention_grid_spec(batch, heads, seqlen).0,
        attention_grid_spec(batch, heads, seqlen).1,
    )
}

pub fn attention_grid(batch: usize, heads: usize, seqlen: usize) -> (p: LaunchParams)
    requires
        seqlen + ATTN_Q_TILE <= usize::MAX,
        batch * heads <= usize::MAX,
    ensures
        p == attention_params(batch, heads, seqlen),
        params_countable(p),
{
    let q = (seqlen + ATTN_Q_TILE - 1) / ATTN_Q_TILE;
    let q_blocks = (if q == 0 { 1 } else { q }) as u32;
    let b = batch * heads;
    let bh = (if b == 0 { 1 } else { b }) as u32;
    proof {
        lemma_flat_countable(Dim3 { x: bh, y: q_blocks, z: 1 }, Dim3 { x: ATTN_BLOCK, y: 1, z: 1 });
    }
    LaunchParams::new((bh, q_blocks), ATTN_BLOCK)
}

/// The kernel that runs attention forwards.
pub fn attention_fwd_kernel() -> (k: KernelId)
    ensures
        k == KernelId("attention_adjoint_fwd"),
{
    KernelId("attention_adjoint_fwd")
}

/// The kernel that runs attention backwards.
pub fn attention_bwd_kernel() -> (k: KernelId)
    ensures
        k == KernelId("attention_adjoint_bwd"),
{
    KernelId("attention_adjoint_bwd")
}

/// Attention launches: each method hands its buffers, in order, to the attention kernel.
pub trait AttentionLaunch: KernelLauncher {
    fn attention_fwd(
        &self,
        out: KernelArg,
        q: KernelArg,
        k: KernelArg,
        v: KernelArg,
        lse: KernelArg,
        batch: usize,
        heads: usize,
        seqlen: usize,
        head_dim: usize,
        causal: bool,
    ) -> (r: LaunchResult<()>)
        requires
            seqlen + ATTN_Q_TILE <= usize::MAX,
            batch * heads <= usize::MAX,
        ensures
            self.launch_ensures(
                KernelId("attention_adjoint_fwd"),
                attention_params(batch, heads, seqlen),
                seq![out, q, k, v, lse],
                r,
            ),
    {
        let kid = attention_fwd_kernel();
        let p = attention_grid(batch, heads, seqlen);
        let args = [out, q, k, v, lse];
        assert(args@ =~= seq![out, q, k, v, lse]);
        self.launch(kid, p, &args)
    }

    fn attention_bwd(
        &self,
        dq: KernelArg,
        dk: KernelArg,
        dv: KernelArg,
        dout: KernelArg,
        q: KernelArg,
        k: KernelArg,
        v: KernelArg,
        lse: KernelArg,
        batch: usize,
        heads: usize,
        seqlen: usize,
        head_dim: usize,
        causal: bool,
    ) -> (r: LaunchResult<()>)
        requires
            seqlen + ATTN_Q_TILE <= usize::MAX,
            batch * heads <= usize::MAX,
        ensures
            self.launch_ensures(
                KernelId("attention_adjoint_bwd"),
                attention_params(batch, heads, seqlen),
                seq![dq, dk, dv, dout, q, k, v, lse],
                r,
            ),
    {
        let kid = attention_bwd_kernel();
        let p = attention_grid(batch, heads, seqlen);
        let args = [dq, dk, dv, dout, q, k, v, lse];
        assert(args@ =~= seq![dq, dk, dv, dout, q, k, v, lse]);
        self.launch(kid, p, &args)
    }
}

impl<T: KernelLauncher + ?Sized> AttentionLaunch for T {}

} // verus!

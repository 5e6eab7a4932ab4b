use vstd::prelude::*;

verus! {

/// The number of elements of a tensor whose dimensions are `dims`.
pub open spec fn dims_product(dims: Seq<nat>) -> nat
    decreases dims.len(),
{
    if dims.len() == 0 {
        1
    } else {
        dims.last() * dims_product(dims.drop_last())
    }
}

/// A tensor shape fixed at the type level.
pub trait Shape: Copy + 'static {
    const RANK: usize;
    const NUMEL: usize;

    /// The dimensions, outermost first.
    spec fn spec_dims() -> Seq<nat>;

    /// The dimensions, outermost first.
    fn dims() -> (d: Vec<usize>)
        ensures
            d@.len() == Self::spec_dims().len(),
            forall|i: int| 0 <= i < d@.len() ==> d@[i] as nat == #[trigger] Self::spec_dims()[i],
    ;

    /// `RANK` is the number of dimensions, and `NUMEL` is their product whenever that fits
    /// in a `usize` (a shape whose product does not fit cannot be instantiated).
    proof fn lemma_rank_numel()
        ensures
            Self::RANK == Self::spec_dims().len(),
            dims_product(Self::spec_dims()) <= usize::MAX ==> Self::NUMEL == dims_product(
                Self::spec_dims(),
            ),
    ;
}

/// A shape of rank 1.
#[derive(Clone, Copy, Debug, Default)]
pub struct S1<const A: usize>;

/// A shape of rank 2.
#[derive(Clone, Copy, Debug, Default)]
pub struct S2<const A: usize, const B: usize>;

/// A shape of rank 3.
#[derive(Clone, Copy, Debug, Default)]
pub struct S3<const A: usize, const B: usize, const C: usize>;

/// A shape of rank 4.
#[derive(Clone, Copy, Debug, Default)]
pub struct S4<const A: usize, const B: usize, const C: usize, const D: usize>;

proof fn lemma_truncated_product(x: int, y: int)
    requires
        0 <= x,
        0 <= y,
        x * y <= usize::MAX,
    ensures
        y == 0 || x <= usize::MAX,
{
    if y != 0 {
        assert(x <= x * y) by (nonlinear_arith)
            requires
                0 <= x,
                1 <= y,
        ;
    }
}

impl<const A: usize> Shape for S1<A> {
    const RANK: usize = 1;
    const NUMEL: usize = A;

    open spec fn spec_dims() -> Seq<nat> {
        seq![A as nat]
    }

    fn dims() -> (d: Vec<usize>) {
        let mut d: Vec<usize> = Vec::new();
        d.push(A);
        d
    }

    proof fn lemma_rank_numel() {
        let s = Self::spec_dims();
        reveal_with_fuel(dims_product, 5);
        assert(s.drop_last() =~= Seq::<nat>::empty());
        assert(dims_product(s) == A * 1);
    }
}

impl<const A: usize, const B: usize> Shape for S2<A, B> {
    const RANK: usize = 2;
    const NUMEL: usize = A * B;

    open spec fn spec_dims() -> Seq<nat> {
        seq![A as nat, B as nat]
    }

    fn dims() -> (d: Vec<usize>) {
        let mut d: Vec<usize> = Vec::new();
        d.push(A);
        d.push(B);
        d
    }

    proof fn lemma_rank_numel() {
        let s = Self::spec_dims();
        reveal_with_fuel(dims_product, 5);
        assert(s.drop_last() =~= seq![A as nat]);
        assert(s.drop_last().drop_last() =~= Seq::<nat>::empty());
        assert(dims_product(s) == B * A);
        assert(B * A == A * B) by (nonlinear_arith);
    }
}

impl<const A: usize, const B: usize, const C: usize> Shape for S3<A, B, C> {
    const RANK: usize = 3;
    const NUMEL: usize = A * B * C;

    open spec fn spec_dims() -> Seq<nat> {
        seq![A as nat, B as nat, C as nat]
    }

    fn dims() -> (d: Vec<usize>) {
        let mut d: Vec<usize> = Vec::new();
        d.push(A);
        d.push(B);
        d.push(C);
        d
    }

    proof fn lemma_rank_numel() {
        let s = Self::spec_dims();
        reveal_with_fuel(dims_product, 5);
        assert(s.drop_last() =~= seq![A as nat, B as nat]);
        assert(s.drop_last().drop_last() =~= seq![A as nat]);
        assert(s.drop_last().drop_last().drop_last() =~= Seq::<nat>::empty());
        assert(dims_product(s) == C * (B * A));
        assert(C * (B * A) == (A * B) * C) by (nonlinear_arith);
        if dims_product(s) <= usize::MAX {
            lemma_truncated_product(A * B, C as int);
        }
    }
}

impl<const A: usize, const B: usize, const C: usize, const D: usize> Shape for S4<A, B, C, D> {
    const RANK: usize = 4;
    const NUMEL: usize = A * B * C * D;

    open spec fn spec_dims() -> Seq<nat> {
        seq![A as nat, B as nat, C as nat, D as nat]
    }

    fn dims() -> (d: Vec<usize>) {
        let mut d: Vec<usize> = Vec::new();
        d.push(A);
        d.push(B);
        d.push(C);
        d.push(D);
        d
    }

    proof fn lemma_rank_numel() {
        let s = Self::spec_dims();
        reveal_with_fuel(dims_product, 5);
        assert(s.drop_last() =~= seq![A as nat, B as nat, C as nat]);
        assert(s.drop_last().drop_last() =~= seq![A as nat, B as nat]);
        assert(s.drop_last().drop_last().drop_last() =~= seq![A as nat]);
        assert(s.drop_last().drop_last().drop_last().drop_last() =~= Seq::<nat>::empty());
        assert(dims_product(s) == D * (C * (B * A)));
        assert(D * (C * (B * A)) == ((A * B) * C) * D) by (nonlinear_arith);
        if dims_product(s) <= usize::MAX {
            lemma_truncated_product((A * B) * C, D as int);
            if D != 0 {
                lemma_truncated_product(A * B, C as int);
                if C != 0 {
                    assert(((A * B) as usize) as int == A * B);
                }
                assert((((A * B) as usize) * C) as int == (A * B) * C);
                assert((((A * B) as usize * C) as usize) as int == (A * B) * C);
            } else {
                assert(((((A * B) as usize * C) as usize) * D) as int == 0);
            }
        }
    }
}

/// Shapes that can be multiplied as matrices, and the shape of their product.
pub trait MatmulWith<Rhs: Shape>: Shape {
    type Output: Shape;
}

impl<const M: usize, const K: usize, const N: usize> MatmulWith<S2<K, N>> for S2<M, K> {
    type Output = S2<M, N>;
}

impl<const B: usize, const M: usize, const K: usize, const N: usize> MatmulWith<S2<K, N>> for S3<
    B,
    M,
    K,
> {
    type Output = S3<B, M, N>;
}

impl<const B: usize, const M: usize, const K: usize, const N: usize> MatmulWith<
    S3<B, K, N>,
> for S3<B, M, K> {
    type Output = S3<B, M, N>;
}

/// A matrix product keeps the outer dimensions: `[M, K] x [K, N]` gives `[M, N]`,
/// and a batch `[B, M, K]` times `[K, N]` or `[B, K, N]` gives `[B, M, N]`.
pub proof fn lemma_matmul_output_dims<
    const B: usize,
    const M: usize,
    const K: usize,
    const N: usize,
>()
    ensures
        <<S2<M, K> as MatmulWith<S2<K, N>>>::Output as Shape>::spec_dims() == seq![
            M as nat,
            N as nat,
        ],
        <<S3<B, M, K> as MatmulWith<S2<K, N>>>::Output as Shape>::spec_dims() == seq![
            B as nat,
            M as nat,
            N as nat,
        ],
        <<S3<B, M, K> as MatmulWith<S3<B, K, N>>>::Output as Shape>::spec_dims() == seq![
            B as nat,
            M as nat,
            N as nat,
        ],
{
}

} // verus!

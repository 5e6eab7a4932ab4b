use beacon::arena::{Arena, ArenaLayout};
use beacon::dtype::{Bf16, DType, Dtype, Fp8E4M3, Half, BF16, F16, F32};
use beacon::region::ALIGN;
use beacon::saved::{Saved, SavedSize};
use beacon::shape::{MatmulWith, Shape, S1, S2, S3, S4};
use beacon::storage::{HostBuffer, Region};
use beacon::tensor::{Tensor, TensorSize};

fn small_arena() -> Arena {
    Arena::new(ArenaLayout {
        weight_bytes: 1 << 20,
        activation_bytes: 1 << 20,
        gradient_bytes: 1 << 20,
    })
}

#[test]
fn arena_allocations_are_aligned_and_sequential() {
    let mut a = small_arena();
    let t0 = a.allocate::<F32, S2<16, 16>>(Region::Weight);
    let t1 = a.allocate::<F32, S2<16, 16>>(Region::Weight);
    assert_eq!(t0.offset % ALIGN, 0);
    assert_eq!(t1.offset % ALIGN, 0);
    let first_end = t0.offset + Tensor::<F32, S2<16, 16>>::NBYTES;
    assert!(t1.offset >= first_end);
    assert_eq!(t1.offset % ALIGN, 0);
}

#[test]
fn arena_regions_are_disjoint() {
    let mut a = small_arena();
    let w = a.allocate::<F32, S2<16, 16>>(Region::Weight);
    let act = a.allocate::<Bf16, S2<16, 16>>(Region::Activation);
    let g = a.alloc_saved::<F32, S2<16, 16>>();
    assert!(w.offset < act.offset);
    assert!(act.offset < g.offset());
}

#[test]
fn arena_activation_reset_rewinds_cursor() {
    let mut a = small_arena();
    let first = a.allocate::<F32, S2<64, 64>>(Region::Activation);
    assert!(a.used(Region::Activation) > 0);
    a.reset_activations();
    assert_eq!(a.used(Region::Activation), 0);
    let again = a.allocate::<F32, S2<64, 64>>(Region::Activation);
    assert_eq!(again.offset, first.offset);
}

#[test]
fn arena_gradient_buffer_offsets_match_saved_bytes() {
    let mut a = small_arena();
    let s0 = a.alloc_saved::<F32, S2<8, 8>>();
    let s1 = a.alloc_saved::<F32, S2<8, 8>>();
    assert_eq!(s1.offset() - s0.offset(), Saved::<F32, S2<8, 8>>::BYTES);
}

#[test]
fn arena_unaligned_sizes_round_up() {
    let mut a = Arena::new(ArenaLayout { weight_bytes: 1, activation_bytes: 257, gradient_bytes: 0 });
    assert_eq!(a.total_bytes(), 256 + 512);
    assert_eq!(ArenaLayout { weight_bytes: 1, activation_bytes: 257, gradient_bytes: 0 }.total(), 768);
    let t0 = a.allocate::<Fp8E4M3, S1<3>>(Region::Activation);
    let t1 = a.allocate::<Fp8E4M3, S1<3>>(Region::Activation);
    assert_eq!(t0.offset, 256);
    assert_eq!(t1.offset, 512);
    assert_eq!(a.used(Region::Activation), 259);
    assert_eq!(a.used(Region::Weight), 0);
}

#[test]
fn arena_tensor_bytes_read_back_writes() {
    let mut a = small_arena();
    let t = a.allocate::<Bf16, S1<4>>(Region::Weight);
    let u = a.allocate::<Bf16, S1<4>>(Region::Weight);
    a.tensor_bytes_mut(&t).copy_from_slice(&[1, 2, 3, 4, 5, 6, 7, 8]);
    assert_eq!(a.tensor_bytes(&t), &[1, 2, 3, 4, 5, 6, 7, 8]);
    assert_eq!(a.tensor_bytes(&u), &[0; 8]);
    assert_eq!(a.buffer().len(), a.total_bytes());
    assert_eq!(a.buffer().slice(0, 2), &[1, 2]);
    a.buffer_mut().as_mut_slice()[0] = 9;
    assert_eq!(a.tensor_bytes(&t)[0], 9);
}

#[test]
fn host_buffer_basics() {
    let mut b = HostBuffer::zeroed(4);
    assert_eq!(b.len(), 4);
    assert!(!b.is_empty());
    assert!(HostBuffer::zeroed(0).is_empty());
    b.slice_mut(1, 2).copy_from_slice(&[7, 8]);
    assert_eq!(b.as_slice(), &[0, 7, 8, 0]);
    assert_eq!(b.slice(2, 2), &[8, 0]);
}

#[test]
fn dtype_sizes() {
    assert_eq!(F32::SIZE_BYTES, 4);
    assert_eq!(Bf16::SIZE_BYTES, 2);
    assert_eq!(F16::SIZE_BYTES, 2);
    assert_eq!(Fp8E4M3::SIZE_BYTES, 1);
    assert_eq!(DType::Fp8E4M3.size_bytes(), 1);
}

#[test]
fn dtype_names_match_markers() {
    assert_eq!(DType::F32.name(), "f32");
    assert_eq!(DType::F16.name(), "f16");
    assert_eq!(DType::Bf16.name(), "bf16");
    assert_eq!(DType::Fp8E4M3.name(), "fp8e4m3");
    assert_eq!(F16::NAME, "f16");
    assert_eq!(Bf16::DTYPE, DType::Bf16);
    assert_eq!(DType::F16.size_bytes(), 2);
}

#[test]
fn bytes_is_const_from_shape() {
    assert_eq!(Saved::<F32, S2<512, 768>>::BYTES, 512 * 768 * 4);
    assert_eq!(Saved::<Bf16, S1<768>>::BYTES, 768 * 2);
}

#[test]
fn consume_returns_offset() {
    let s = Saved::<F32, S2<8, 8>>::at(256);
    assert_eq!(s.offset(), 256);
    assert_eq!(s.consume(), 256);
}

#[test]
fn numel_and_dims() {
    assert_eq!(<S1<50257> as Shape>::NUMEL, 50257);
    assert_eq!(<S2<768, 3072> as Shape>::NUMEL, 768 * 3072);
    assert_eq!(<S4<4, 12, 512, 64> as Shape>::NUMEL, 4 * 12 * 512 * 64);
    assert_eq!(<S2<768, 3072> as Shape>::dims(), vec![768, 3072]);
    assert_eq!(<S3<4, 512, 768> as Shape>::RANK, 3);
}

#[test]
fn matmul_output_shape() {
    type Lhs = S2<2048, 768>;
    type Rhs = S2<768, 3072>;
    type Out = <Lhs as MatmulWith<Rhs>>::Output;
    assert_eq!(<Out as Shape>::dims(), vec![2048, 3072]);
}

#[test]
fn batched_matmul_output_shapes() {
    type A = <S3<4, 8, 16> as MatmulWith<S2<16, 32>>>::Output;
    type B = <S3<4, 8, 16> as MatmulWith<S3<4, 16, 32>>>::Output;
    assert_eq!(<A as Shape>::dims(), vec![4, 8, 32]);
    assert_eq!(<B as Shape>::dims(), vec![4, 8, 32]);
    assert_eq!(<A as Shape>::NUMEL, 4 * 8 * 32);
}

#[test]
fn const_byte_sizes() {
    assert_eq!(Tensor::<F32, S2<768, 3072>>::NBYTES, 768 * 3072 * 4);
    assert_eq!(Tensor::<Bf16, S2<768, 3072>>::NBYTES, 768 * 3072 * 2);
    assert_eq!(Tensor::<F32, S1<50257>>::NUMEL, 50257);
}

#[test]
fn tensor_accessors() {
    let t = Tensor::<F16, S3<2, 3, 4>>::from_offset(Region::Gradient, 512);
    assert_eq!(t.region, Region::Gradient);
    assert_eq!(t.offset, 512);
    assert_eq!(t.numel(), 24);
    assert_eq!(t.nbytes(), 48);
    assert_eq!(t.dims(), vec![2, 3, 4]);
}

fn bf16_through(v: f32) -> f32 {
    f32::from_bits(BF16::from_f32_bits(v.to_bits()).to_f32_bits())
}

fn half_through(v: f32) -> f32 {
    f32::from_bits(Half::from_f32_bits(v.to_bits()).to_f32_bits())
}

#[test]
fn bf16_roundtrip() {
    for &v in &[0.0f32, 1.0, -2.5, 3.1415927, 1e6, -1e-6] {
        let r = bf16_through(v);
        let tol = v.abs() * 0.01 + 1e-6;
        assert!((r - v).abs() <= tol, "bf16 {v} -> {r}");
    }
}

#[test]
fn half_roundtrip() {
    for &v in &[0.0f32, 1.0, -2.5, 0.5, 100.0, -0.001] {
        let r = half_through(v);
        let tol = v.abs() * 0.001 + 1e-4;
        assert!((r - v).abs() <= tol, "f16 {v} -> {r}");
    }
}

#[test]
fn bf16_rounds_to_nearest_even() {
    // 1.0 + 2^-8 lies halfway between two bfloat16 values; the even one is 1.0.
    assert_eq!(BF16::from_f32_bits(0x3f80_8000).0, 0x3f80);
    // Just above halfway rounds up.
    assert_eq!(BF16::from_f32_bits(0x3f80_8001).0, 0x3f81);
    // Halfway above an odd pattern rounds up to the even one.
    assert_eq!(BF16::from_f32_bits(0x3f81_8000).0, 0x3f82);
    // A NaN stays a NaN and becomes quiet.
    assert_eq!(BF16::from_f32_bits(0x7f80_0001).0, 0x7fc0);
    assert_eq!(BF16(0x3f80).to_f32_bits(), 0x3f80_0000);
    assert_eq!(bf16_through(1.0), 1.0);
}

#[test]
fn half_exact_patterns() {
    assert_eq!(Half::from_f32_bits(1.0f32.to_bits()).0, 0x3c00);
    assert_eq!(Half::from_f32_bits((-2.0f32).to_bits()).0, 0xc000);
    assert_eq!(Half::from_f32_bits(65504.0f32.to_bits()).0, 0x7bff);
    assert_eq!(Half::from_f32_bits(1e6f32.to_bits()).0, 0x7c00);
    assert_eq!(Half::from_f32_bits(f32::NAN.to_bits()).0 & 0x7e00, 0x7e00);
    assert_eq!(Half::from_f32_bits(1e-10f32.to_bits()).0, 0x0000);
    assert_eq!(Half(0x3c00).to_f32_bits(), 1.0f32.to_bits());
    assert_eq!(Half(0xfc00).to_f32_bits(), f32::NEG_INFINITY.to_bits());
    // The smallest subnormal widens to 2^-26: its exponent lands two below its value.
    assert_eq!(f32::from_bits(Half(0x0001).to_f32_bits()), 2f32.powi(-26));
}

#[test]
fn half_roundtrip_of_every_normal_pattern() {
    for h in 0u16..=0xffff {
        let e = (h >> 10) & 0x1f;
        let m = h & 0x3ff;
        if e == 0 && m != 0 {
            continue;
        }
        let back = Half::from_f32_bits(Half(h).to_f32_bits()).0;
        if e == 0x1f && m != 0 {
            assert_eq!(back, (h & 0x8000) | 0x7e00);
        } else {
            assert_eq!(back, h);
        }
    }
}

#[test]
fn arena_interleaved_allocations_never_overlap() {
    let mut a = small_arena();
    let mut ranges: Vec<(usize, usize)> = Vec::new();
    let t1 = a.allocate::<F32, S2<3, 5>>(Region::Activation);
    ranges.push((t1.offset, t1.nbytes()));
    let t2 = a.allocate::<Bf16, S1<7>>(Region::Weight);
    ranges.push((t2.offset, t2.nbytes()));
    let t3 = a.allocate::<F32, S1<1>>(Region::Activation);
    ranges.push((t3.offset, t3.nbytes()));
    let s1 = a.alloc_saved::<F16, S2<4, 4>>();
    ranges.push((s1.offset(), <Saved<F16, S2<4, 4>> as SavedSize>::BYTES));
    let t4 = a.allocate::<Fp8E4M3, S3<2, 3, 4>>(Region::Weight);
    ranges.push((t4.offset, t4.nbytes()));
    for (i, &(oi, ni)) in ranges.iter().enumerate() {
        assert_eq!(oi % ALIGN, 0);
        for &(oj, nj) in &ranges[i + 1..] {
            assert!(oi + ni <= oj || oj + nj <= oi, "[{oi}, {}) and [{oj}, {}) overlap", oi + ni, oj + nj);
        }
    }
}

#[test]
fn layout_totals() {
    assert_eq!(ArenaLayout { weight_bytes: 1, activation_bytes: 256, gradient_bytes: 0 }.total(), 512);
    assert_eq!(
        ArenaLayout { weight_bytes: 1 << 20, activation_bytes: 1 << 20, gradient_bytes: 1 << 20 }.total(),
        3145728
    );
    // Past what one buffer can hold, the total is still computed.
    let big = (1usize << 63) - 255;
    assert_eq!(ArenaLayout { weight_bytes: big, activation_bytes: 0, gradient_bytes: 0 }.total(), 1usize << 63);
}

#[test]
fn arena_total_stays_through_operations() {
    let layout = ArenaLayout { weight_bytes: 1 << 20, activation_bytes: 1 << 20, gradient_bytes: 1 << 20 };
    let mut a = Arena::new(layout);
    let t = a.allocate::<F32, S2<16, 16>>(Region::Activation);
    a.tensor_bytes_mut(&t)[0] = 7;
    let _ = a.alloc_saved::<F16, S1<8>>();
    a.reset_activations();
    let _ = a.allocate::<Bf16, S1<3>>(Region::Weight);
    assert_eq!(a.total_bytes(), layout.total());
    assert_eq!(a.total_bytes(), 3145728);
}

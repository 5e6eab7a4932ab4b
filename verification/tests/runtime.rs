use std::cell::RefCell;

use beacon::adjoint_table::lookup;
use beacon::arena::{Arena, ArenaLayout};
use beacon::attention::{attention_bwd_kernel, attention_fwd_kernel, attention_grid, AttentionLaunch};
use beacon::blas::BlasHandles;
use beacon::copy::{copy_dtoh, copy_dtoh_to_host_arena, copy_htod, copy_htod_from_host_arena};
use beacon::device::{Device, DeviceId, Stream, StreamCounter, StreamHandle};
use beacon::device_arena::DeviceArena;
use beacon::dtype::{Bf16, F32};
use beacon::elementwise::{
    elementwise_grid, residual_add_bwd_kernel, residual_add_fwd_kernel, CastKind, ElementwiseLaunch,
};
use beacon::error::{LaunchError, LaunchResult};
use beacon::launch::{Dim3, LaunchParams, MAX_DYNAMIC_SMEM_BYTES, MAX_THREADS_PER_BLOCK};
use beacon::launcher::{Access, KernelArg, KernelId, KernelLauncher};
use beacon::matmul::{
    linear_bwd_kernel, linear_fwd_kernel, matmul_bwd_kernel, matmul_fwd_kernel, MatmulLaunch,
};
use beacon::mlp::{swiglu_bwd_kernel, swiglu_fwd_kernel, SwigluLaunch};
use beacon::modules::ModuleCache;
use beacon::norm::{
    layernorm_bwd_kernel, layernorm_fwd_kernel, rmsnorm_bwd_kernel, rmsnorm_fwd_kernel, rowwise,
    LayerNormLaunch, RmsNormLaunch,
};
use beacon::ptx::{ptx_artifacts, ptx_path};
use beacon::region::ALIGN;
use beacon::residual::check_residual_add_args;
use beacon::runtime::{cuda_enabled, Launcher};
use beacon::saved::{Saved, SavedSize};
use beacon::shape::S2;
use beacon::storage::Region;
use beacon::tensor::{Tensor, TensorSize};

#[derive(Default)]
struct Recorder {
    log: RefCell<Vec<(&'static str, usize)>>,
}

impl Recorder {
    fn calls(&self) -> Vec<(&'static str, usize)> {
        self.log.borrow().clone()
    }
}

impl KernelLauncher for Recorder {
    fn device(&self) -> DeviceId {
        DeviceId(0)
    }

    fn launch(&self, kernel: KernelId, params: LaunchParams, args: &[KernelArg]) -> LaunchResult<()> {
        params.validate()?;
        self.log.borrow_mut().push((kernel.name(), args.len()));
        Ok(())
    }
}

struct RecordingLauncher {
    id: DeviceId,
}

impl KernelLauncher for RecordingLauncher {
    fn device(&self) -> DeviceId {
        self.id
    }

    fn launch(&self, kernel: KernelId, params: LaunchParams, args: &[KernelArg]) -> LaunchResult<()> {
        params.validate()?;
        if args.is_empty() {
            return Err(LaunchError::InvalidLaunchConfig(format!(
                "{} called with no args",
                kernel.name()
            )));
        }
        Ok(())
    }
}

fn a() -> KernelArg {
    KernelArg::read(0, 256)
}

fn small_layout() -> ArenaLayout {
    ArenaLayout {
        weight_bytes: 1 << 20,
        activation_bytes: 1 << 20,
        gradient_bytes: 1 << 20,
    }
}

fn launcher() -> Launcher {
    Launcher::on_device(0).unwrap()
}

#[test]
fn attention_grid_tiles_q() {
    let g = attention_grid(4, 12, 512);
    assert_eq!(g.grid.x, 48);
    assert_eq!(g.grid.y, 8);
}

#[test]
fn attention_grid_never_empty() {
    let g = attention_grid(0, 12, 0);
    assert_eq!(g.grid, Dim3::new(1, 1, 1));
    assert_eq!(g.block, Dim3::new(128, 1, 1));
    let g = attention_grid(1, 1, 65);
    assert_eq!(g.grid.y, 2);
}

#[test]
fn attention_routes() {
    let r = Recorder::default();
    r.attention_fwd(a(), a(), a(), a(), a(), 4, 12, 512, 64, true).unwrap();
    r.attention_bwd(a(), a(), a(), a(), a(), a(), a(), a(), 4, 12, 512, 64, true)
        .unwrap();
    assert_eq!(
        r.calls(),
        vec![("attention_adjoint_fwd", 5), ("attention_adjoint_bwd", 8)]
    );
}

#[test]
fn handles_bind_to_default_stream() {
    let device = Device::new(0).unwrap();
    let stream = device.default_stream();
    assert!(stream.is_default());
    let mut handles = BlasHandles::new(&device, &stream).unwrap();
    assert!(handles.bind_stream(&device, &stream).is_ok());
}

#[test]
fn default_stream_is_zero_handle() {
    let s = Stream::default_stream();
    assert!(s.is_default());
    assert_eq!(s.handle(), StreamHandle::default_handle());
    assert_eq!(s.handle(), StreamHandle(0));
    assert_eq!(Stream::default(), s);
}

#[test]
fn non_default_stream() {
    let s = Stream::from_handle(StreamHandle(5));
    assert!(!s.is_default());
    assert_eq!(s.handle(), StreamHandle(5));
}

#[test]
fn device_construct_and_sync() {
    let d = Device::new(0).unwrap();
    let mut streams = StreamCounter::new();
    assert_eq!(d.id(), DeviceId(0));
    assert!(d.default_stream().is_default());
    assert!(d.new_stream(&mut streams).is_ok());
    assert!(d.synchronize().is_ok());
    assert!(d.shutdown().is_ok());
}

#[test]
fn cuda_stream_resolves_default() {
    let d = Device::new(0).unwrap();
    let s = d.default_stream();
    assert_eq!(s.handle(), Stream::default_stream().handle());
    assert!(s.synchronize(&d).is_ok());
}

#[test]
fn context_initialized_on_new() {
    let d = Device::new(3).unwrap();
    assert_eq!(d.id().0, 3);
}

#[test]
fn host_stub_device_without_cuda_feature() {
    let d = Device::new(0).unwrap();
    assert_eq!(d.id(), DeviceId(0));
    assert!(d.synchronize().is_ok());
}

#[test]
fn host_stub_new_stream_returns_distinct_handles() {
    let d = Device::new(0).unwrap();
    let mut streams = StreamCounter::new();
    let a = d.new_stream(&mut streams).unwrap();
    let b = d.new_stream(&mut streams).unwrap();
    assert!(!a.is_default());
    assert!(!b.is_default());
    assert_ne!(a.handle(), b.handle());
    assert!(a.synchronize(&d).is_ok());
    assert!(b.synchronize(&d).is_ok());
}

#[test]
fn owned_stream_is_non_default_and_syncs() {
    let d = Device::new(0).unwrap();
    let mut streams = StreamCounter::new();
    let s = d.new_stream(&mut streams).unwrap();
    assert!(!s.is_default());
    assert!(s.synchronize(&d).is_ok());
    let default = d.default_stream();
    assert!(default.is_default());
    assert!(default.synchronize(&d).is_ok());
}

#[test]
fn owned_streams_are_distinct_from_default() {
    let d = Device::new(0).unwrap();
    let mut streams = StreamCounter::new();
    let owned = d.new_stream(&mut streams).unwrap();
    assert_ne!(owned.handle(), d.default_stream().handle());
}

#[test]
fn streams_of_different_devices_are_distinct() {
    let d0 = Device::new(0).unwrap();
    let d1 = Device::new(1).unwrap();
    let mut streams = StreamCounter::new();
    let a = d0.new_stream(&mut streams).unwrap();
    let b = d1.new_stream(&mut streams).unwrap();
    let c = d0.new_stream(&mut streams).unwrap();
    assert_eq!((a.handle(), b.handle(), c.handle()), (StreamHandle(1), StreamHandle(2), StreamHandle(3)));
}

#[test]
fn family_methods_through_a_trait_object() {
    let l = launcher();
    let dynamic: &dyn KernelLauncher = &l;
    let r = dynamic.linear_fwd(KernelArg::write(0, 64), KernelArg::read(64, 64), KernelArg::read(128, 64), KernelArg::read(0, 0), 4, 4, 4);
    assert_eq!(r, Err(LaunchError::Unimplemented("linear_fwd")));
}

#[test]
fn grid_is_nonzero_even_for_zero_elements() {
    assert!(elementwise_grid(0).grid.total() >= 1);
    assert_eq!(elementwise_grid(513).grid.x, 3);
}

#[test]
fn elementwise_grid_exact_multiples() {
    assert_eq!(elementwise_grid(256).grid.x, 1);
    assert_eq!(elementwise_grid(257).grid.x, 2);
    assert_eq!(elementwise_grid(512).block, Dim3::new(256, 1, 1));
    assert_eq!(rowwise(0).grid.x, 1);
    assert_eq!(rowwise(7).grid.x, 7);
}

#[test]
fn cast_kind_maps_to_kernels() {
    assert_eq!(CastKind::F32ToF8E4M3.kernel(), KernelId("cast_f32_to_fp8e4m3"));
    assert_eq!(CastKind::Bf16ToF32.kernel(), KernelId("cast_bf16_to_f32"));
    assert_eq!(CastKind::F8E4M3ToF32.kernel().name(), "cast_fp8e4m3_to_f32");
    assert_eq!(CastKind::F32ToBf16.kernel().name(), "cast_f32_to_bf16");
}

#[test]
fn families_route_to_expected_kernels() {
    let r = Recorder::default();
    r.residual_add(KernelArg::write(0, 256), a(), a(), 64).unwrap();
    r.residual_add_backward(KernelArg::read_write(0, 256), KernelArg::read_write(256, 256), a(), 64)
        .unwrap();
    r.embedding_lookup(KernelArg::write(0, 256), a(), a(), 8, 32).unwrap();
    r.embedding_backward(KernelArg::read_write(0, 256), a(), a(), 8, 32).unwrap();
    r.dropout_forward(KernelArg::write(0, 256), a(), KernelArg::write(256, 256), 64, 0.0f32.to_bits(), 7)
        .unwrap();
    r.dropout_backward(KernelArg::write(0, 256), a(), a(), 64).unwrap();
    r.cast(KernelArg::write(0, 256), a(), 64, CastKind::F32ToF8E4M3).unwrap();
    assert_eq!(
        r.calls(),
        vec![
            ("residual_add_fwd", 3),
            ("residual_add_bwd", 3),
            ("embedding_lookup_fwd", 3),
            ("embedding_lookup_bwd", 3),
            ("dropout_fwd", 3),
            ("dropout_bwd", 3),
            ("cast_f32_to_fp8e4m3", 2),
        ]
    );
}

#[test]
fn access_modes_preserved() {
    let w = KernelArg::write(0, 256);
    assert_eq!(w.access, Access::Write);
}

#[test]
fn display_messages() {
    assert_eq!(
        LaunchError::Unimplemented("rmsnorm_adjoint_fwd").message(),
        "unimplemented without the `cuda` feature: rmsnorm_adjoint_fwd"
    );
    assert_eq!(
        LaunchError::FunctionNotFound("attention_adjoint_bwd".into()).message(),
        "kernel function not found: attention_adjoint_bwd"
    );
    assert_eq!(
        LaunchError::OutOfMemory {
            requested: 1024,
            available: 512
        }
        .message(),
        "out of device memory: requested 1024 bytes, 512 available"
    );
}

#[test]
fn other_messages() {
    assert_eq!(LaunchError::InvalidLaunchConfig("x".into()).message(), "invalid launch config: x");
    assert_eq!(LaunchError::ModuleLoad("m".into()).message(), "ptx module load failed: m");
    assert_eq!(LaunchError::Cuda("boom".into()).message(), "cuda error: boom");
    assert_eq!(LaunchError::Cublas("lt".into()).message(), "cublas error: lt");
    assert_eq!(
        LaunchError::ShapeMismatch { expected: "4 bytes".into(), found: "8 bytes".into() }.message(),
        "shape mismatch: expected 4 bytes, found 8 bytes"
    );
    assert_eq!(
        LaunchError::OutOfMemory { requested: 0, available: 18446744073709551615 }.message(),
        "out of device memory: requested 0 bytes, 18446744073709551615 available"
    );
}

#[test]
fn result_alias_works() {
    fn ok() -> LaunchResult<u32> {
        Ok(7)
    }
    fn err() -> LaunchResult<u32> {
        Err(LaunchError::Cuda("boom".into()))
    }
    assert_eq!(ok().unwrap(), 7);
    assert!(err().is_err());
}

#[derive(Debug)]
struct AsStdError(LaunchError);

impl std::fmt::Display for AsStdError {
    fn fmt(&self, f: &mut std::fmt::Formatter<'_>) -> std::fmt::Result {
        f.write_str(&self.0.message())
    }
}

impl std::error::Error for AsStdError {}

#[test]
fn is_std_error() {
    fn takes_error(e: &dyn std::error::Error) -> String {
        e.to_string()
    }
    assert_eq!(
        takes_error(&AsStdError(LaunchError::Cublas("lt descriptor".into()))),
        "cublas error: lt descriptor"
    );
}

#[test]
fn dim3_conversions_and_total() {
    assert_eq!(Dim3::from(8), Dim3::new(8, 1, 1));
    assert_eq!(Dim3::from((4, 4)), Dim3::new(4, 4, 1));
    assert_eq!(Dim3::from((2, 3, 4)), Dim3::new(2, 3, 4));
    assert_eq!(Dim3::linear(8), Dim3::new(8, 1, 1));
    assert_eq!(Dim3::new(2, 3, 4).total(), 24);
}

#[test]
fn params_builders_and_defaults() {
    let p = LaunchParams::new(128u32, 256u32);
    assert_eq!(p.shared_mem_bytes, 0);
    assert!(p.stream.is_default());
    assert_eq!(p.total_threads(), 128 * 256);
    let p = p.with_shared_mem(48 * 1024);
    assert_eq!(p.shared_mem_bytes, 48 * 1024);
    let p = p.on_stream(Stream::from_handle(StreamHandle(9)));
    assert_eq!(p.stream.handle(), StreamHandle(9));
    assert_eq!(p.shared_mem_bytes, 48 * 1024);
}

#[test]
fn validate_ok() {
    let p = LaunchParams::new((32u32, 8u32, 1u32), (64u32, 16u32, 1u32)).with_shared_mem(100 * 1024);
    assert_eq!(p.block.total(), 1024);
    assert!(p.validate().is_ok());
}

#[test]
fn validate_rejects_too_many_threads() {
    let p = LaunchParams::new(1u32, (32u32, 33u32, 1u32));
    assert!(p.block.total() > MAX_THREADS_PER_BLOCK as u64);
    assert!(p.validate().is_err());
    assert_eq!(
        p.validate(),
        Err(LaunchError::InvalidLaunchConfig("block has 1056 threads, max is 1024".into()))
    );
}

#[test]
fn validate_rejects_oversized_smem() {
    let p = LaunchParams::new(1u32, 256u32).with_shared_mem(MAX_DYNAMIC_SMEM_BYTES + 1);
    assert!(p.validate().is_err());
    assert_eq!(
        p.validate(),
        Err(LaunchError::InvalidLaunchConfig(
            "dynamic shared memory 232449 bytes exceeds H100 max 232448".into()
        ))
    );
}

#[test]
fn validate_rejects_zero_dims() {
    let p = LaunchParams::new(0u32, 256u32);
    assert!(p.validate().is_err());
    assert_eq!(
        p.validate(),
        Err(LaunchError::InvalidLaunchConfig("grid and block dimensions must be nonzero".into()))
    );
}

#[test]
fn kernel_id_name() {
    assert_eq!(KernelId("rmsnorm_adjoint_fwd").name(), "rmsnorm_adjoint_fwd");
}

#[test]
fn kernel_arg_access_modes() {
    assert_eq!(KernelArg::read(0, 16).access, Access::Read);
    assert_eq!(KernelArg::write(16, 32).access, Access::Write);
    assert_eq!(KernelArg::read_write(48, 8).access, Access::ReadWrite);
    assert_eq!(KernelArg::write(16, 32).offset, 16);
    assert_eq!(KernelArg::write(16, 32).len_bytes, 32);
}

#[test]
fn launcher_via_trait_object() {
    let l = RecordingLauncher { id: DeviceId(0) };
    let dynamic: &dyn KernelLauncher = &l;
    assert_eq!(dynamic.device(), DeviceId(0));
    let params = LaunchParams::new(8u32, 64u32);
    let args = [KernelArg::read(0, 256), KernelArg::write(256, 256)];
    assert!(dynamic.launch(KernelId("x"), params, &args).is_ok());
}

#[test]
fn launcher_propagates_invalid_config() {
    let l = RecordingLauncher { id: DeviceId(0) };
    let bad = LaunchParams::new(0u32, 64u32);
    assert!(l.launch(KernelId("x"), bad, &[KernelArg::read(0, 1)]).is_err());
}

#[test]
fn cuda_enabled_matches_cfg() {
    assert!(!cuda_enabled());
}

#[test]
fn ptx_manifest_is_available() {
    let _ = ptx_artifacts().len();
    assert!(ptx_path("nonexistent_kernel").is_none());
}

#[test]
fn launcher_kernel_ids_match_adjoint_table() {
    let pairs = [
        ("matmul", matmul_fwd_kernel(), matmul_bwd_kernel()),
        ("linear", linear_fwd_kernel(), linear_bwd_kernel()),
        ("rmsnorm", rmsnorm_fwd_kernel(), rmsnorm_bwd_kernel()),
        ("layernorm", layernorm_fwd_kernel(), layernorm_bwd_kernel()),
        ("flash_attention", attention_fwd_kernel(), attention_bwd_kernel()),
        ("swiglu_mlp", swiglu_fwd_kernel(), swiglu_bwd_kernel()),
        ("residual_add", residual_add_fwd_kernel(), residual_add_bwd_kernel()),
    ];
    for (op, fwd, bwd) in pairs {
        let entry = lookup(op).unwrap_or_else(|| panic!("missing op {op}"));
        assert_eq!(fwd.name(), entry.forward_launcher, "fwd mismatch for {op}");
        assert_eq!(bwd.name(), entry.backward_launcher, "bwd mismatch for {op}");
    }
}

#[test]
fn matmul_and_linear_route() {
    let r = Recorder::default();
    r.matmul_fwd(a(), a(), a(), 2048, 768, 3072).unwrap();
    r.matmul_bwd(a(), a(), a(), a(), a(), 2048, 768, 3072).unwrap();
    r.linear_fwd(a(), a(), a(), a(), 2048, 768, 50257).unwrap();
    r.linear_bwd(a(), a(), a(), a(), a(), a(), 2048, 768, 50257).unwrap();
    assert_eq!(
        r.calls(),
        vec![
            ("matmul_fwd", 3),
            ("matmul_bwd", 5),
            ("linear_fwd", 4),
            ("linear_bwd", 6),
        ]
    );
}

#[test]
fn swiglu_routes() {
    let r = Recorder::default();
    r.swiglu_fwd(a(), a(), a(), a(), a(), 2048, 768, 3072).unwrap();
    r.swiglu_bwd(a(), a(), a(), a(), a(), a(), a(), a(), a(), 2048, 768, 3072)
        .unwrap();
    assert_eq!(
        r.calls(),
        vec![("swiglu_adjoint_fwd", 5), ("swiglu_adjoint_bwd", 9)]
    );
}

#[test]
fn host_stub_rejects_load_without_cuda_feature() {
    let device = Device::new(0).unwrap();
    let mut cache = ModuleCache::new();
    assert!(cache
        .load_module(&device, "elementwise")
        .unwrap_err()
        .message()
        .contains("unimplemented"));
}

#[test]
fn missing_ptx_is_module_load_error() {
    let device = Device::new(0).unwrap();
    let mut cache = ModuleCache::new();
    let err = cache
        .load_module(&device, "definitely_missing_module")
        .unwrap_err();
    assert_eq!(err, LaunchError::Unimplemented("ptx module load"));
}

#[test]
fn cache_counts_stay_zero_until_load() {
    let cache = ModuleCache::new();
    assert_eq!(cache.loaded_modules(), 0);
    assert_eq!(cache.cached_functions(), 0);
}

#[test]
fn rmsnorm_routes() {
    let r = Recorder::default();
    r.rmsnorm_fwd(a(), a(), a(), a(), 512, 768).unwrap();
    r.rmsnorm_bwd(a(), a(), a(), a(), a(), a(), 512, 768).unwrap();
    assert_eq!(
        r.calls(),
        vec![("rmsnorm_adjoint_fwd", 4), ("rmsnorm_adjoint_bwd", 6)]
    );
}

#[test]
fn layernorm_routes() {
    let r = Recorder::default();
    r.layernorm_fwd(a(), a(), a(), a(), a(), a(), 512, 768).unwrap();
    r.layernorm_bwd(a(), a(), a(), a(), a(), a(), a(), a(), 512, 768).unwrap();
    assert_eq!(
        r.calls(),
        vec![("layernorm_adjoint_fwd", 6), ("layernorm_adjoint_bwd", 8)]
    );
}

#[test]
fn device_id_exposed() {
    assert_eq!(launcher().device(), DeviceId(0));
    assert_eq!(launcher().device_ref().id(), DeviceId(0));
    assert_eq!(Launcher::new(Device::new(2).unwrap()).device(), DeviceId(2));
}

#[test]
fn elementwise_methods_are_unimplemented_with_kernel_name() {
    let l = launcher();
    assert_eq!(
        l.residual_add(KernelArg::write(0, 256), a(), a(), 64),
        Err(LaunchError::Unimplemented("residual_add_fwd"))
    );
    assert_eq!(
        l.residual_add_backward(
            KernelArg::read_write(0, 256),
            KernelArg::read_write(256, 256),
            a(),
            64
        ),
        Err(LaunchError::Unimplemented("residual_add_bwd"))
    );
    assert_eq!(
        l.embedding_lookup(KernelArg::write(0, 256), a(), a(), 8, 32),
        Err(LaunchError::Unimplemented("embedding_lookup_fwd"))
    );
    assert_eq!(
        l.cast(KernelArg::write(0, 256), a(), 64, CastKind::F32ToF8E4M3),
        Err(LaunchError::Unimplemented("cast_f32_to_fp8e4m3"))
    );
}

#[test]
fn all_families_bottom_out_in_unimplemented() {
    let l = launcher();
    assert!(matches!(
        l.rmsnorm_fwd(a(), a(), a(), a(), 8, 8),
        Err(LaunchError::Unimplemented("rmsnorm_adjoint_fwd"))
    ));
    assert!(matches!(
        l.layernorm_fwd(a(), a(), a(), a(), a(), a(), 8, 8),
        Err(LaunchError::Unimplemented("layernorm_adjoint_fwd"))
    ));
    assert!(matches!(
        l.swiglu_fwd(a(), a(), a(), a(), a(), 8, 8, 8),
        Err(LaunchError::Unimplemented("swiglu_adjoint_fwd"))
    ));
    assert!(matches!(
        l.attention_fwd(a(), a(), a(), a(), a(), 1, 1, 64, 64, false),
        Err(LaunchError::Unimplemented("attention_adjoint_fwd"))
    ));
    assert!(matches!(
        l.matmul_fwd(a(), a(), a(), 8, 8, 8),
        Err(LaunchError::Unimplemented("matmul_fwd"))
    ));
}

#[test]
fn invalid_config_errors_before_unimplemented() {
    let l = launcher();
    let bad = LaunchParams::new(0u32, 64u32);
    assert!(matches!(
        l.launch(KernelId("x"), bad, &[a()]),
        Err(LaunchError::InvalidLaunchConfig(_))
    ));
}

fn open_arena() -> (Device, DeviceArena) {
    let device = Device::new(0).unwrap();
    let arena = DeviceArena::new(&device, small_layout()).unwrap();
    (device, arena)
}

#[test]
fn device_arena_allocations_are_aligned_and_sequential() {
    let (_device, mut a) = open_arena();
    let t0 = a.allocate::<F32, S2<16, 16>>(Region::Weight).unwrap();
    let t1 = a.allocate::<F32, S2<16, 16>>(Region::Weight).unwrap();
    assert_eq!(t0.offset % ALIGN, 0);
    assert_eq!(t1.offset % ALIGN, 0);
    let first_end = t0.offset + Tensor::<F32, S2<16, 16>>::NBYTES;
    assert!(t1.offset >= first_end);
}

#[test]
fn device_arena_regions_are_disjoint() {
    let (_device, mut a) = open_arena();
    let w = a.allocate::<F32, S2<16, 16>>(Region::Weight).unwrap();
    let act = a.allocate::<Bf16, S2<16, 16>>(Region::Activation).unwrap();
    let g = a.alloc_saved::<F32, S2<16, 16>>().unwrap();
    assert!(w.offset < act.offset);
    assert!(act.offset < g.offset());
}

#[test]
fn device_arena_activation_reset_rewinds_cursor() {
    let (_device, mut a) = open_arena();
    let first = a.allocate::<F32, S2<64, 64>>(Region::Activation).unwrap();
    assert!(a.used(Region::Activation) > 0);
    a.reset_activations();
    assert_eq!(a.used(Region::Activation), 0);
    let again = a.allocate::<F32, S2<64, 64>>(Region::Activation).unwrap();
    assert_eq!(again.offset, first.offset);
}

#[test]
fn device_arena_gradient_buffer_offsets_match_saved_bytes() {
    let (_device, mut a) = open_arena();
    let s0 = a.alloc_saved::<F32, S2<8, 8>>().unwrap();
    let s1 = a.alloc_saved::<F32, S2<8, 8>>().unwrap();
    assert_eq!(s1.offset() - s0.offset(), Saved::<F32, S2<8, 8>>::BYTES);
}

#[test]
fn total_bytes_matches_layout() {
    let (_device, a) = open_arena();
    assert_eq!(a.total_bytes(), small_layout().total());
}

#[test]
fn region_overflow_returns_error() {
    let device = Device::new(0).unwrap();
    let mut a = DeviceArena::new(
        &device,
        ArenaLayout {
            weight_bytes: 64,
            activation_bytes: 64,
            gradient_bytes: 64,
        },
    )
    .unwrap();
    assert!(a.allocate::<F32, S2<16, 16>>(Region::Weight).is_err());
    assert_eq!(
        a.allocate::<F32, S2<16, 16>>(Region::Weight).err(),
        Some(LaunchError::OutOfMemory { requested: 1024, available: 256 })
    );
    assert_eq!(a.used(Region::Weight), 0);
}

fn f32_bytes(v: &[f32]) -> Vec<u8> {
    v.iter().flat_map(|x| x.to_ne_bytes()).collect()
}

#[test]
fn htod_dtoh_roundtrip() {
    let (device, mut dev) = open_arena();
    let stream = device.default_stream();
    let t = dev.allocate::<F32, S2<4, 4>>(Region::Weight).unwrap();
    let src: Vec<f32> = (0..16).map(|i| i as f32).collect();
    copy_htod(&device, &stream, &mut dev, &t, &f32_bytes(&src)).unwrap();
    let mut out = vec![0u8; 64];
    copy_dtoh(&device, &stream, &dev, &t, &mut out).unwrap();
    assert_eq!(out, f32_bytes(&src));
}

#[test]
fn rejects_length_mismatch() {
    let (device, mut dev) = open_arena();
    let stream = device.default_stream();
    let t = dev.allocate::<F32, S2<4, 4>>(Region::Weight).unwrap();
    let r = copy_htod(&device, &stream, &mut dev, &t, &f32_bytes(&[1.0f32]));
    assert!(r.is_err());
    assert_eq!(
        r,
        Err(LaunchError::ShapeMismatch { expected: "16 elements".into(), found: "1 elements".into() })
    );
}

#[test]
fn copy_rejects_tensor_past_the_end() {
    let (device, mut dev) = open_arena();
    let stream = device.default_stream();
    let t = Tensor::<F32, S2<4, 4>>::from_offset(Region::Gradient, 3 << 20);
    let r = copy_htod(&device, &stream, &mut dev, &t, &[0u8; 64]);
    assert_eq!(
        r,
        Err(LaunchError::InvalidLaunchConfig(
            "tensor byte range [3145728, 3145792) exceeds device arena size 3145728".into()
        ))
    );
}

#[test]
fn host_arena_to_device_and_back() {
    let device = Device::new(0).unwrap();
    let mut host = Arena::new(small_layout());
    let mut dev = DeviceArena::new(&device, small_layout()).unwrap();
    let stream = device.default_stream();
    let ht = host.allocate::<F32, S2<2, 3>>(Region::Weight);
    let ht_out = host.allocate::<F32, S2<2, 3>>(Region::Activation);
    let dt = dev.allocate::<F32, S2<2, 3>>(Region::Weight).unwrap();
    let payload = f32_bytes(&[1.0, 2.0, 3.0, 4.0, 5.0, 6.0]);
    host.tensor_bytes_mut(&ht).copy_from_slice(&payload);
    copy_htod_from_host_arena(&device, &stream, &mut dev, &host, &dt, &ht).unwrap();
    copy_dtoh_to_host_arena(&device, &stream, &dev, &mut host, &dt, &ht_out).unwrap();
    assert_eq!(host.tensor_bytes(&ht_out), payload.as_slice());
}

#[test]
fn residual_add_args_are_checked_in_order() {
    let ok = [KernelArg::write(0, 64), KernelArg::read(64, 64), KernelArg::read(128, 64)];
    assert_eq!(check_residual_add_args(&ok, 192), Ok(16));
    assert_eq!(
        check_residual_add_args(&ok[..2], 192),
        Err(LaunchError::InvalidLaunchConfig("residual_add_fwd expects 3 args, got 2".to_string()))
    );
    let uneven = [KernelArg::write(0, 64), KernelArg::read(64, 32), KernelArg::read(128, 64)];
    assert_eq!(
        check_residual_add_args(&uneven, 192),
        Err(LaunchError::ShapeMismatch {
            expected: "64 bytes".to_string(),
            found: "out=64, a=32, b=64".to_string(),
        })
    );
    let ragged = [KernelArg::write(0, 6), KernelArg::read(8, 6), KernelArg::read(16, 6)];
    assert_eq!(
        check_residual_add_args(&ragged, 192),
        Err(LaunchError::InvalidLaunchConfig(
            "residual_add_fwd byte length must be a multiple of 4".to_string()
        ))
    );
    assert_eq!(
        check_residual_add_args(&ok, 160),
        Err(LaunchError::InvalidLaunchConfig("b byte range [128, 192) exceeds arena size 160".to_string()))
    );
    let far = [KernelArg::write(usize::MAX - 8, 64), KernelArg::read(0, 64), KernelArg::read(0, 64)];
    assert_eq!(
        check_residual_add_args(&far, 192),
        Err(LaunchError::InvalidLaunchConfig(format!(
            "out byte range [{}, {}) exceeds arena size 192",
            usize::MAX - 8,
            usize::MAX
        )))
    );
}

#[test]
fn device_arena_total_stays_through_operations() {
    let (_device, mut a) = open_arena();
    let t = a.allocate::<F32, S2<4, 4>>(Region::Weight).unwrap();
    a.host_bytes_mut(t.offset, 4)[0] = 1;
    a.reset_activations();
    assert!(a.allocate::<F32, S2<4, 4>>(Region::Activation).is_ok());
    assert_eq!(a.total_bytes(), small_layout().total());
}

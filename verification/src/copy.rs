use vstd::prelude::*;
use crate::arena::{Arena, ArenaView};
use crate::device::{Device, Stream};
use crate::device_arena::DeviceArena;
use crate::dtype::Dtype;
use crate::error::{ErrorView, LaunchError, LaunchResult, result_view};
use crate::shape::Shape;
use crate::tensor::{Tensor, TensorSize};
use crate::text::{concat, concat3, concat4, decimal, usize_to_decimal};

verus! {

/// `bytes` with `data` written over it from `offset` on.
pub open spec fn overwrite(bytes: Seq<u8>, offset: int, data: Seq<u8>) -> Seq<u8> {
    bytes.subrange(0, offset) + data + bytes.subrange(offset + data.len(), bytes.len() as int)
}

/// The end of the byte range `[offset, offset + len)`, saturated at `usize::MAX`.
pub open spec fn range_end(offset: usize, len: usize) -> usize {
    offset.saturating_add(len)
}

/// The error for a tensor range that does not fit in an arena of `total` bytes.
pub open spec fn tensor_range_error(offset: usize, nbytes: usize, total: usize, kind: Seq<char>) -> ErrorView {
    ErrorView::InvalidLaunchConfig(
        "tensor byte range ["@ + decimal(offset as nat) + ", "@ + decimal(
            range_end(offset, nbytes) as nat,
        ) + ") exceeds "@ + kind + " arena size "@ + decimal(total as nat),
    )
}

/// The error for a copy range that does not fit in the device arena.
pub open spec fn copy_range_error(offset: usize, len: usize, total: usize) -> ErrorView {
    ErrorView::InvalidLaunchConfig(
        "copy byte range ["@ + decimal(offset as nat) + ", "@ + decimal(range_end(offset, len) as nat)
            + ") exceeds device arena size "@ + decimal(total as nat),
    )
}

/// The error for host data of `found` elements where `expected` are needed.
pub open spec fn numel_error(expected: usize, found: usize) -> ErrorView {
    ErrorView::ShapeMismatch {
        expected: decimal(expected as nat) + " elements"@,
        found: decimal(found as nat) + " elements"@,
    }
}

/// What copying `data` to byte `offset` of device arena `before` gives: nothing to do for
/// no data, an error for a range past the end, and otherwise the data written there.
pub open spec fn htod_outcome(
    before: ArenaView,
    offset: usize,
    data: Seq<u8>,
    after: ArenaView,
    result: Result<(), ErrorView>,
) -> bool {
    if data.len() == 0 {
        after == before && result == Ok::<(), ErrorView>(())
    } else if range_end(offset, data.len() as usize) > before.bytes.len() {
        after == before && result == Err::<(), ErrorView>(
            copy_range_error(offset, data.len() as usize, before.bytes.len() as usize),
        )
    } else {
        &&& after == ArenaView { bytes: overwrite(before.bytes, offset as int, data), ..before }
        &&& result == Ok::<(), ErrorView>(())
    }
}

/// What copying `len` bytes from byte `offset` of device arena `arena` into a buffer that
/// held `before` gives: nothing to do for no bytes, an error for a range past the end, and
/// otherwise the arena's bytes.
pub open spec fn dtoh_outcome(
    arena: ArenaView,
    offset: usize,
    before: Seq<u8>,
    after: Seq<u8>,
    result: Result<(), ErrorView>,
) -> bool {
    if before.len() == 0 {
        after == before && result == Ok::<(), ErrorView>(())
    } else if range_end(offset, before.len() as usize) > arena.bytes.len() {
        after == before && result == Err::<(), ErrorView>(
            copy_range_error(offset, before.len() as usize, arena.bytes.len() as usize),
        )
    } else {
        &&& after == arena.bytes.subrange(offset as int, offset + before.len())
        &&& result == Ok::<(), ErrorView>(())
    }
}

fn check_numel<T: Dtype, S: Shape>(found: usize) -> (r: LaunchResult<()>)
    ensures
        found == Tensor::<T, S>::NUMEL ==> r is Ok,
        found != Tensor::<T, S>::NUMEL ==> result_view(r) == Err::<(), ErrorView>(
            numel_error(Tensor::<T, S>::NUMEL, found),
        ),
{
    let numel = <Tensor<T, S> as TensorSize>::NUMEL;
    if found != numel {
        let e = usize_to_decimal(numel);
        let f = usize_to_decimal(found);
        return Err(
            LaunchError::ShapeMismatch {
                expected: concat(e.as_str(), " elements"),
                found: concat(f.as_str(), " elements"),
            },
        );
    }
    Ok(())
}

/// The error for a tensor at `offset` of `nbytes` bytes that does not fit in `total`.
fn range_error(offset: usize, nbytes: usize, total: usize, kind: &str) -> (e: LaunchError)
    ensures
        e@ == tensor_range_error(offset, nbytes, total, kind@),
{
    let end = offset.saturating_add(nbytes);
    let o = usize_to_decimal(offset);
    let en = usize_to_decimal(end);
    let t = usize_to_decimal(total);
    let a = concat4("tensor byte range [", o.as_str(), ", ", en.as_str());
    let b = concat4(a.as_str(), ") exceeds ", kind, " arena size ");
    LaunchError::InvalidLaunchConfig(concat(b.as_str(), t.as_str()))
}

fn check_device_bounds<T: Dtype, S: Shape>(arena: &DeviceArena, tensor: &Tensor<T, S>) -> (r:
    LaunchResult<()>)
    ensures
        range_end(tensor.spec_offset(), Tensor::<T, S>::NBYTES) <= arena@.bytes.len() ==> r is Ok,
        range_end(tensor.spec_offset(), Tensor::<T, S>::NBYTES) > arena@.bytes.len() ==> result_view(r)
            == Err::<(), ErrorView>(
            tensor_range_error(
                tensor.spec_offset(),
                Tensor::<T, S>::NBYTES,
                arena@.bytes.len() as usize,
                "device"@,
            ),
        ),
{
    let end = tensor.byte_offset().saturating_add(tensor.nbytes());
    if end > arena.total_bytes() {
        return Err(range_error(tensor.byte_offset(), tensor.nbytes(), arena.total_bytes(), "device"));
    }
    Ok(())
}

fn check_host_bounds<T: Dtype, S: Shape>(arena: &Arena, tensor: &Tensor<T, S>) -> (r: LaunchResult<
    (),
>)
    ensures
        range_end(tensor.spec_offset(), Tensor::<T, S>::NBYTES) <= arena@.bytes.len() ==> r is Ok,
        range_end(tensor.spec_offset(), Tensor::<T, S>::NBYTES) > arena@.bytes.len() ==> result_view(r)
            == Err::<(), ErrorView>(
            tensor_range_error(
                tensor.spec_offset(),
                Tensor::<T, S>::NBYTES,
                arena@.bytes.len() as usize,
                "host"@,
            ),
        ),
{
    let end = tensor.byte_offset().saturating_add(tensor.nbytes());
    if end > arena.total_bytes() {
        return Err(range_error(tensor.byte_offset(), tensor.nbytes(), arena.total_bytes(), "host"));
    }
    Ok(())
}

fn copy_range_err(offset: usize, len: usize, total: usize) -> (e: LaunchError)
    ensures
        e@ == copy_range_error(offset, len, total),
{
    let end = offset.saturating_add(len);
    let o = usize_to_decimal(offset);
    let en = usize_to_decimal(end);
    let t = usize_to_decimal(total);
    let a = concat4("copy byte range [", o.as_str(), ", ", en.as_str());
    let b = concat3(a.as_str(), ") exceeds device arena size ", t.as_str());
    LaunchError::InvalidLaunchConfig(b)
}

/// Copies `src` into `dst`, which has the same length.
fn copy_into(dst: &mut [u8], src: &[u8])
    requires
        old(dst)@.len() == src@.len(),
    ensures
        final(dst)@ == src@,
{
    let mut i: usize = 0;
    while i < src.len()
        invariant
            dst@.len() == src@.len(),
            i <= src@.len(),
            forall|j: int| 0 <= j < i ==> dst@[j] == src@[j],
        decreases src@.len() - i,
    {
        dst[i] = src[i];
        i = i + 1;
    }
    assert(dst@ =~= src@);
}

fn copy_bytes_htod(
    device: &Device,
    stream: &Stream,
    arena: &mut DeviceArena,
    offset: usize,
    src: &[u8],
) -> (r: LaunchResult<()>)
    requires
        old(arena).wf(),
    ensures
        htod_outcome(old(arena)@, offset, src@, final(arena)@, result_view(r)),
{
    if src.len() == 0 {
        return Ok(());
    }
    let end = offset.saturating_add(src.len());
    if end > arena.total_bytes() {
        return Err(copy_range_err(offset, src.len(), arena.total_bytes()));
    }
    let dst = arena.host_bytes_mut(offset, src.len());
    copy_into(dst, src);
    assert(final(arena)@.bytes =~= overwrite(old(arena)@.bytes, offset as int, src@));
    Ok(())
}

fn copy_bytes_dtoh(
    device: &Device,
    stream: &Stream,
    arena: &DeviceArena,
    offset: usize,
    dst: &mut [u8],
) -> (r: LaunchResult<()>)
    requires
        arena.wf(),
    ensures
        dtoh_outcome(arena@, offset, old(dst)@, final(dst)@, result_view(r)),
{
    if dst.len() == 0 {
        return Ok(());
    }
    let end = offset.saturating_add(dst.len());
    if end > arena.total_bytes() {
        return Err(copy_range_err(offset, dst.len(), arena.total_bytes()));
    }
    let src = arena.host_bytes(offset, dst.len());
    copy_into(dst, src);
    Ok(())
}


/// Copies the bytes of `src`, host data of `S::NUMEL` elements of type `T`, into tensor
/// `dst` of the device arena.
pub fn copy_htod<T: Dtype, S: Shape>(
    device: &Device,
    stream: &Stream,
    arena: &mut DeviceArena,
    dst: &Tensor<T, S>,
    src: &[u8],
) -> (r: LaunchResult<()>)
    requires
        old(arena).wf(),
        T::SIZE_BYTES > 0,
        src@.len() % T::SIZE_BYTES as nat == 0,
    ensures
        ({
            let n = (src@.len() / T::SIZE_BYTES as nat) as usize;
            if n != Tensor::<T, S>::NUMEL {
                &&& final(arena)@ == old(arena)@
                &&& result_view(r) == Err::<(), ErrorView>(numel_error(Tensor::<T, S>::NUMEL, n))
            } else if range_end(dst.spec_offset(), Tensor::<T, S>::NBYTES) > old(arena)@.bytes.len() {
                &&& final(arena)@ == old(arena)@
                &&& result_view(r) == Err::<(), ErrorView>(
                    tensor_range_error(
                        dst.spec_offset(),
                        Tensor::<T, S>::NBYTES,
                        old(arena)@.bytes.len() as usize,
                        "device"@,
                    ),
                )
            } else {
                htod_outcome(old(arena)@, dst.spec_offset(), src@, final(arena)@, result_view(r))
            }
        }),
{
    check_numel::<T, S>(src.len() / T::SIZE_BYTES)?;
    check_device_bounds(arena, dst)?;
    copy_bytes_htod(device, stream, arena, dst.byte_offset(), src)
}

/// Copies tensor `src` of the device arena into `dst`, host room for the bytes of
/// `S::NUMEL` elements of type `T`.
pub fn copy_dtoh<T: Dtype, S: Shape>(
    device: &Device,
    stream: &Stream,
    arena: &DeviceArena,
    src: &Tensor<T, S>,
    dst: &mut [u8],
) -> (r: LaunchResult<()>)
    requires
        arena.wf(),
        T::SIZE_BYTES > 0,
        old(dst)@.len() % T::SIZE_BYTES as nat == 0,
    ensures
        ({
            let n = (old(dst)@.len() / T::SIZE_BYTES as nat) as usize;
            if n != Tensor::<T, S>::NUMEL {
                &&& final(dst)@ == old(dst)@
                &&& result_view(r) == Err::<(), ErrorView>(numel_error(Tensor::<T, S>::NUMEL, n))
            } else if range_end(src.spec_offset(), Tensor::<T, S>::NBYTES) > arena@.bytes.len() {
                &&& final(dst)@ == old(dst)@
                &&& result_view(r) == Err::<(), ErrorView>(
                    tensor_range_error(
                        src.spec_offset(),
                        Tensor::<T, S>::NBYTES,
                        arena@.bytes.len() as usize,
                        "device"@,
                    ),
                )
            } else {
                dtoh_outcome(arena@, src.spec_offset(), old(dst)@, final(dst)@, result_view(r))
            }
        }),
{
    check_numel::<T, S>(dst.len() / T::SIZE_BYTES)?;
    check_device_bounds(arena, src)?;
    copy_bytes_dtoh(device, stream, arena, src.byte_offset(), dst)
}

/// Copies tensor `src` of the host arena into tensor `dst` of the device arena.
pub fn copy_htod_from_host_arena<T: Dtype, S: Shape>(
    device: &Device,
    stream: &Stream,
    device_arena: &mut DeviceArena,
    host_arena: &Arena,
    dst: &Tensor<T, S>,
    src: &Tensor<T, S>,
) -> (r: LaunchResult<()>)
    requires
        old(device_arena).wf(),
        host_arena.wf(),
    ensures
        if range_end(src.spec_offset(), Tensor::<T, S>::NBYTES) > host_arena@.bytes.len() {
            &&& final(device_arena)@ == old(device_arena)@
            &&& result_view(r) == Err::<(), ErrorView>(
                tensor_range_error(
                    src.spec_offset(),
                    Tensor::<T, S>::NBYTES,
                    host_arena@.bytes.len() as usize,
                    "host"@,
                ),
            )
        } else if range_end(dst.spec_offset(), Tensor::<T, S>::NBYTES) > old(
            device_arena,
        )@.bytes.len() {
            &&& final(device_arena)@ == old(device_arena)@
            &&& result_view(r) == Err::<(), ErrorView>(
                tensor_range_error(
                    dst.spec_offset(),
                    Tensor::<T, S>::NBYTES,
                    old(device_arena)@.bytes.len() as usize,
                    "device"@,
                ),
            )
        } else {
            &&& r is Ok
            &&& final(device_arena)@ == (ArenaView {
                bytes: overwrite(
                    old(device_arena)@.bytes,
                    dst.spec_offset() as int,
                    host_arena@.bytes.subrange(
                        src.spec_offset() as int,
                        src.spec_offset() + Tensor::<T, S>::NBYTES,
                    ),
                ),
                ..old(device_arena)@
            })
        },
{
    check_host_bounds(host_arena, src)?;
    check_device_bounds(device_arena, dst)?;
    let bytes = host_arena.tensor_bytes(src);
    let r = copy_bytes_htod(device, stream, device_arena, dst.byte_offset(), bytes);
    proof {
        if bytes@.len() == 0 {
            assert(overwrite(old(device_arena)@.bytes, dst.spec_offset() as int, bytes@)
                =~= old(device_arena)@.bytes);
        }
    }
    r
}

/// Copies tensor `src` of the device arena into tensor `dst` of the host arena.
pub fn copy_dtoh_to_host_arena<T: Dtype, S: Shape>(
    device: &Device,
    stream: &Stream,
    device_arena: &DeviceArena,
    host_arena: &mut Arena,
    src: &Tensor<T, S>,
    dst: &Tensor<T, S>,
) -> (r: LaunchResult<()>)
    requires
        device_arena.wf(),
        old(host_arena).wf(),
    ensures
        if range_end(dst.spec_offset(), Tensor::<T, S>::NBYTES) > old(host_arena)@.bytes.len() {
            &&& final(host_arena)@ == old(host_arena)@
            &&& result_view(r) == Err::<(), ErrorView>(
                tensor_range_error(
                    dst.spec_offset(),
                    Tensor::<T, S>::NBYTES,
                    old(host_arena)@.bytes.len() as usize,
                    "host"@,
                ),
            )
        } else if range_end(src.spec_offset(), Tensor::<T, S>::NBYTES) > device_arena@.bytes.len() {
            &&& final(host_arena)@ == old(host_arena)@
            &&& result_view(r) == Err::<(), ErrorView>(
                tensor_range_error(
                    src.spec_offset(),
                    Tensor::<T, S>::NBYTES,
                    device_arena@.bytes.len() as usize,
                    "device"@,
                ),
            )
        } else {
            &&& r is Ok
            &&& final(host_arena)@ == (ArenaView {
                bytes: overwrite(
                    old(host_arena)@.bytes,
                    dst.spec_offset() as int,
                    device_arena@.bytes.subrange(
                        src.spec_offset() as int,
                        src.spec_offset() + Tensor::<T, S>::NBYTES,
                    ),
                ),
                ..old(host_arena)@
            })
        },
{
    check_host_bounds(host_arena, dst)?;
    check_device_bounds(device_arena, src)?;
    let bytes = host_arena.tensor_bytes_mut(dst);
    let r = copy_bytes_dtoh(device, stream, device_arena, src.byte_offset(), bytes);
    assert(final(host_arena)@.bytes =~= overwrite(
        old(host_arena)@.bytes,
        dst.spec_offset() as int,
        device_arena@.bytes.subrange(
            src.spec_offset() as int,
            src.spec_offset() + Tensor::<T, S>::NBYTES,
        ),
    ));
    r
}

/// Copying bytes to the device and copying the same range back gives the bytes that were
/// written.
pub proof fn lemma_htod_then_dtoh_roundtrip(
    before: ArenaView,
    offset: usize,
    data: Seq<u8>,
    after: ArenaView,
    room: Seq<u8>,
    read: Seq<u8>,
    r1: Result<(), ErrorView>,
    r2: Result<(), ErrorView>,
)
    requires
        htod_outcome(before, offset, data, after, r1),
        r1 is Ok,
        room.len() == data.len(),
        dtoh_outcome(after, offset, room, read, r2),
    ensures
        r2 is Ok,
        read == data,
{
    if data.len() > 0 {
        assert(after.bytes.subrange(offset as int, offset + data.len()) =~= data);
    } else {
        assert(read =~= data);
    }
}

} // verus!

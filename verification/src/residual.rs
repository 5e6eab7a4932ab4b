use vstd::prelude::*;
use crate::error::{ErrorView, LaunchError, LaunchResult, result_view};
use crate::launcher::KernelArg;
use crate::text::{concat, concat3, concat4, decimal, usize_to_decimal};

verus! {

/// The end of the byte range `[offset, offset + len)`, held at `usize::MAX`.
pub open spec fn sat_end(offset: usize, len: usize) -> usize {
    if offset + len > usize::MAX {
        usize::MAX
    } else {
        (offset + len) as usize
    }
}

/// The error for a buffer `label` whose byte range passes the end of the arena.
pub open spec fn range_error(label: Seq<char>, arg: KernelArg, arena_len: usize) -> ErrorView {
    ErrorView::InvalidLaunchConfig(
        label + " byte range ["@ + decimal(arg.offset as nat) + ", "@ + decimal(
            sat_end(arg.offset, arg.len_bytes) as nat,
        ) + ") exceeds arena size "@ + decimal(arena_len as nat),
    )
}

/// Whether a buffer lies within an arena of `arena_len` bytes.
pub open spec fn in_arena(arg: KernelArg, arena_len: usize) -> bool {
    sat_end(arg.offset, arg.len_bytes) <= arena_len
}

/// What the residual add kernel is launched with, from its buffers (result, then the
/// two summands) in an arena of `arena_len` bytes: the number of `f32` elements it adds,
/// or why it cannot run. The checks come in order: the number of buffers, their equal
/// sizes, whole elements, then each buffer within the arena.
pub open spec fn spec_residual_add_args(args: Seq<KernelArg>, arena_len: usize) -> Result<usize, ErrorView> {
    if args.len() != 3 {
        Err(
            ErrorView::InvalidLaunchConfig(
                "residual_add_fwd expects 3 args, got "@ + decimal(args.len()),
            ),
        )
    } else {
        let out = args[0];
        let a = args[1];
        let b = args[2];
        if out.len_bytes != a.len_bytes || out.len_bytes != b.len_bytes {
            Err(
                ErrorView::ShapeMismatch {
                    expected: decimal(out.len_bytes as nat) + " bytes"@,
                    found: "out="@ + decimal(out.len_bytes as nat) + ", a="@ + decimal(
                        a.len_bytes as nat,
                    ) + ", b="@ + decimal(b.len_bytes as nat),
                },
            )
        } else if out.len_bytes % 4 != 0 {
            Err(
                ErrorView::InvalidLaunchConfig(
                    "residual_add_fwd byte length must be a multiple of 4"@,
                ),
            )
        } else if !in_arena(out, arena_len) {
            Err(range_error("out"@, out, arena_len))
        } else if !in_arena(a, arena_len) {
            Err(range_error("a"@, a, arena_len))
        } else if !in_arena(b, arena_len) {
            Err(range_error("b"@, b, arena_len))
        } else {
            Ok(out.len_bytes / 4)
        }
    }
}

fn check_in_arena(label: &str, arg: KernelArg, arena_len: usize) -> (r: LaunchResult<()>)
    ensures
        match r {
            Ok(_) => in_arena(arg, arena_len),
            Err(e) => !in_arena(arg, arena_len) && e@ == range_error(label@, arg, arena_len),
        },
{
    let end = arg.offset.saturating_add(arg.len_bytes);
    if end > arena_len {
        let o = usize_to_decimal(arg.offset);
        let e = usize_to_decimal(end);
        let n = usize_to_decimal(arena_len);
        let head = concat4(label, " byte range [", o.as_str(), ", ");
        let msg = concat4(head.as_str(), e.as_str(), ") exceeds arena size ", n.as_str());
        return Err(LaunchError::InvalidLaunchConfig(msg));
    }
    Ok(())
}

/// Checks the buffers of a residual add launch against each other and against an arena
/// of `arena_len` bytes, and gives the number of `f32` elements to add.
pub fn check_residual_add_args(args: &[KernelArg], arena_len: usize) -> (r: LaunchResult<usize>)
    ensures
        result_view(r) == spec_residual_add_args(args@, arena_len),
{
    if args.len() != 3 {
        let n = usize_to_decimal(args.len());
        return Err(
            LaunchError::InvalidLaunchConfig(concat("residual_add_fwd expects 3 args, got ", n.as_str())),
        );
    }
    let out = args[0];
    let a = args[1];
    let b = args[2];
    if out.len_bytes != a.len_bytes || out.len_bytes != b.len_bytes {
        let o = usize_to_decimal(out.len_bytes);
        let sa = usize_to_decimal(a.len_bytes);
        let sb = usize_to_decimal(b.len_bytes);
        let head = concat4("out=", o.as_str(), ", a=", sa.as_str());
        return Err(
            LaunchError::ShapeMismatch {
                expected: concat(o.as_str(), " bytes"),
                found: concat3(head.as_str(), ", b=", sb.as_str()),
            },
        );
    }
    if out.len_bytes % 4 != 0 {
        return Err(
            LaunchError::InvalidLaunchConfig(
                String::from_str("residual_add_fwd byte length must be a multiple of 4"),
            ),
        );
    }
    check_in_arena("out", out, arena_len)?;
    check_in_arena("a", a, arena_len)?;
    check_in_arena("b", b, arena_len)?;
    Ok(out.len_bytes / 4)
}

} // verus!

use vstd::prelude::*;
use crate::device::DeviceId;
use crate::error::LaunchResult;
use crate::launch::{LaunchParams, params_countable};

verus! {

/// The name of a kernel.
#[derive(Debug, Clone, Copy, PartialEq, Eq)]
pub struct KernelId(pub &'static str);

impl KernelId {
    pub fn name(&self) -> (s: &'static str)
        ensures
            s == self.0,
    {
        self.0
    }
}

/// How a kernel uses one of its buffers.
#[derive(Debug, Clone, Copy, PartialEq, Eq, Structural)]
pub enum Access {
    Read,
    Write,
    ReadWrite,
}

/// A buffer handed to a kernel: `len_bytes` bytes at `offset` of the arena.
#[derive(Debug, Clone, Copy, PartialEq, Eq, Structural)]
pub struct KernelArg {
    pub offset: usize,
    pub len_bytes: usize,
    pub access: Access,
}

impl KernelArg {
    pub fn read(offset: usize, len_bytes: usize) -> (a: Self)
        ensures
            a == (KernelArg { offset, len_bytes, access: Access::Read }),
    {
        KernelArg { offset, len_bytes, access: Access::Read }
    }

    pub fn write(offset: usize, len_bytes: usize) -> (a: Self)
        ensures
            a == (KernelArg { offset, len_bytes, access: Access::Write }),
    {
        KernelArg { offset, len_bytes, access: Access::Write }
    }

    pub fn read_write(offset: usize, len_bytes: usize) -> (a: Self)
        ensures
            a == (KernelArg { offset, len_bytes, access: Access::ReadWrite }),
    {
        KernelArg { offset, len_bytes, access: Access::ReadWrite }
    }
}

/// Something that runs kernels on a device.
pub trait KernelLauncher {
    /// What the launcher promises of the result of launching `kernel` with `params` on the
    /// buffers `args`; a launcher that promises nothing keeps this default.
    open spec fn launch_ensures(
        &self,
        kernel: KernelId,
        params: LaunchParams,
        args: Seq<KernelArg>,
        result: LaunchResult<()>,
    ) -> bool {
        true
    }

    fn device(&self) -> DeviceId;

    fn launch(&self, kernel: KernelId, params: LaunchParams, args: &[KernelArg]) -> (r:
        LaunchResult<()>)
        requires
            params_countable(params),
        ensures
            self.launch_ensures(kernel, params, args@, r),
    ;
}

} // verus!

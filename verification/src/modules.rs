use vstd::prelude::*;
use crate::device::Device;
use crate::error::{LaunchError, LaunchResult};

verus! {

/// Kernel modules loaded on a device, and the kernels taken from them; on the host no
/// module can be loaded.
pub struct ModuleCache {}

impl ModuleCache {
    pub fn new() -> (c: Self) {
        ModuleCache {}
    }

    /// Loads the kernel module `module_name`, which on the host is not possible.
    pub fn load_module(&mut self, device: &Device, module_name: &str) -> (r: LaunchResult<()>)
        ensures
            r matches Err(LaunchError::Unimplemented(what)) && what@ == "ptx module load"@,
    {
        Err(LaunchError::Unimplemented("ptx module load"))
    }

    pub fn loaded_modules(&self) -> (n: usize)
        ensures
            n == 0,
    {
        0
    }

    pub fn cached_functions(&self) -> (n: usize)
        ensures
            n == 0,
    {
        0
    }
}

impl Default for ModuleCache {
    fn default() -> (c: Self) {
        ModuleCache::new()
    }
}

} // verus!

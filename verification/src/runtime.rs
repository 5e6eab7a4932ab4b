use vstd::prelude::*;
use crate::device::{Device, DeviceId};
use crate::error::{ErrorView, LaunchError, LaunchResult, result_view};
use crate::launch::{LaunchParams, params_countable, validation};
use crate::launcher::{KernelArg, KernelId, KernelLauncher};

verus! {

/// What the host launcher answers a launch of `kernel` with `params`: the validation
/// error when the parameters are invalid, and otherwise that the kernel is not available
/// on the host.
pub open spec fn host_launch_outcome(kernel: KernelId, params: LaunchParams) -> Result<(), ErrorView> {
    match validation(params) {
        Err(e) => Err(e),
        Ok(_) => Err(ErrorView::Unimplemented(kernel.0@)),
    }
}

/// Whether device kernels can be run: this build runs on the host only.
pub fn cuda_enabled() -> (b: bool)
    ensures
        !b,
{
    false
}

/// A kernel launcher for one device.
pub struct Launcher {
    device: Device,
}

impl Launcher {
    pub closed spec fn spec_device(&self) -> Device {
        self.device
    }

    pub fn new(device: Device) -> (l: Self)
        ensures
            l.spec_device() == device,
    {
        Launcher { device }
    }

    /// A launcher for device `ordinal`.
    pub fn on_device(ordinal: usize) -> (r: LaunchResult<Self>)
        ensures
            r matches Ok(l) && l.spec_device().spec_id() == DeviceId(ordinal),
    {
        let device = Device::new(ordinal)?;
        Ok(Launcher { device })
    }

    pub fn device_ref(&self) -> (d: &Device)
        ensures
            *d == self.spec_device(),
    {
        &self.device
    }
}

impl KernelLauncher for Launcher {
    open spec fn launch_ensures(
        &self,
        kernel: KernelId,
        params: LaunchParams,
        args: Seq<KernelArg>,
        result: LaunchResult<()>,
    ) -> bool {
        result_view(result) == host_launch_outcome(kernel, params)
    }

    fn device(&self) -> (d: DeviceId)
        ensures
            d == self.spec_device().spec_id(),
    {
        self.device.id()
    }

    fn launch(&self, kernel: KernelId, params: LaunchParams, args: &[KernelArg]) -> (r:
        LaunchResult<()>) {
        params.validate()?;
        Err(LaunchError::Unimplemented(kernel.name()))
    }
}

} // verus!

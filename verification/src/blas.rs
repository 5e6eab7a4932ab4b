use vstd::prelude::*;
use crate::device::{Device, Stream};
use crate::error::LaunchResult;

verus! {

/// The BLAS handles of a device, bound to one stream; on the host there are none to hold.
pub struct BlasHandles {}

impl BlasHandles {
    /// Creates the handles on `stream`; on the host this always succeeds.
    pub fn new(device: &Device, stream: &Stream) -> (r: LaunchResult<Self>)
        ensures
            r is Ok,
    {
        Ok(BlasHandles {})
    }

    /// Moves the handles to `stream`; on the host this always succeeds.
    pub fn bind_stream(&mut self, device: &Device, stream: &Stream) -> (r: LaunchResult<()>)
        ensures
            r is Ok,
    {
        Ok(())
    }
}

} // verus!

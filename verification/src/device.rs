use vstd::prelude::*;
use crate::error::LaunchResult;

verus! {

/// The ordinal of a device.
#[derive(Debug, Clone, Copy, PartialEq, Eq, Structural)]
pub struct DeviceId(pub usize);

/// An opaque name for a stream of work on a device.
#[derive(Debug, Clone, Copy, PartialEq, Eq, Structural)]
pub struct StreamHandle(pub u64);

impl StreamHandle {
    /// The handle of the default stream.
    pub open spec fn spec_default() -> StreamHandle {
        StreamHandle(0)
    }

    /// The handle of the default stream.
    pub fn default_handle() -> (h: StreamHandle)
        ensures
            h == StreamHandle::spec_default(),
    {
        StreamHandle(0)
    }
}

/// A stream of work on a device; streams that share a handle are the same stream.
#[derive(Debug, Clone, Copy, PartialEq, Eq, Structural)]
pub struct Stream {
    handle: StreamHandle,
}

impl Stream {
    pub closed spec fn spec_handle(&self) -> StreamHandle {
        self.handle
    }

    /// The stream with handle `handle`.
    pub closed spec fn spec_new(handle: StreamHandle) -> Stream {
        Stream { handle }
    }

    /// The default stream.
    pub open spec fn spec_default() -> Stream {
        Stream::spec_new(StreamHandle::spec_default())
    }

    /// A stream is determined by its handle.
    pub proof fn lemma_handle(s: Stream, handle: StreamHandle)
        ensures
            Stream::spec_new(handle).spec_handle() == handle,
            s == Stream::spec_new(s.spec_handle()),
    {
    }

    pub fn default_stream() -> (s: Self)
        ensures
            s == Stream::spec_default(),
            s.spec_handle() == StreamHandle::spec_default(),
    {
        Stream { handle: StreamHandle::default_handle() }
    }

    pub fn from_handle(handle: StreamHandle) -> (s: Self)
        ensures
            s == Stream::spec_new(handle),
            s.spec_handle() == handle,
    {
        Stream { handle }
    }

    pub fn handle(&self) -> (h: StreamHandle)
        ensures
            h == self.spec_handle(),
    {
        self.handle
    }

    pub fn is_default(&self) -> (b: bool)
        ensures
            b == (self.spec_handle() == StreamHandle::spec_default()),
    {
        self.handle == StreamHandle::default_handle()
    }

    /// Waits for the work queued on this stream; on the host there is none, so this
    /// always succeeds.
    pub fn synchronize(&self, device: &Device) -> (r: LaunchResult<()>)
        ensures
            r is Ok,
    {
        Ok(())
    }
}

impl Default for Stream {
    fn default() -> (s: Self)
        ensures
            s.spec_handle() == StreamHandle::spec_default(),
    {
        Self::default_stream()
    }
}

/// Where the handles of new streams come from: one counter serves the whole process, so
/// that no two streams opened through it share a handle, whatever device opens them.
#[derive(Debug)]
pub struct StreamCounter {
    next: u64,
}

impl StreamCounter {
    /// The handle the next stream opened through this counter gets.
    pub closed spec fn spec_next(&self) -> u64 {
        self.next
    }

    /// A counter whose first stream gets handle 1, the one after the default stream's.
    pub fn new() -> (c: Self)
        ensures
            c.spec_next() == 1,
    {
        StreamCounter { next: 1 }
    }
}

/// A device.
#[derive(Debug)]
pub struct Device {
    id: DeviceId,
}

impl Device {
    pub closed spec fn spec_id(&self) -> DeviceId {
        self.id
    }

    /// Opens device `ordinal`; on the host this always succeeds.
    pub fn new(ordinal: usize) -> (r: LaunchResult<Self>)
        ensures
            r matches Ok(d) && d.spec_id() == DeviceId(ordinal),
    {
        Ok(Device { id: DeviceId(ordinal) })
    }

    pub fn id(&self) -> (i: DeviceId)
        ensures
            i == self.spec_id(),
    {
        self.id
    }

    pub fn default_stream(&self) -> (s: Stream)
        ensures
            s.spec_handle() == StreamHandle::spec_default(),
    {
        Stream::default_stream()
    }

    /// Opens a new stream, taking the next handle of the process's counter `streams`.
    pub fn new_stream(&self, streams: &mut StreamCounter) -> (r: LaunchResult<Stream>)
        ensures
            r matches Ok(s) && s.spec_handle() == StreamHandle(old(streams).spec_next()),
            final(streams).spec_next() == (old(streams).spec_next() + 1) % 0x1_0000_0000_0000_0000,
    {
        let id = streams.next;
        streams.next = streams.next.wrapping_add(1);
        Ok(Stream::from_handle(StreamHandle(id)))
    }

    /// Waits for all work on the device; on the host there is none, so this always
    /// succeeds.
    pub fn synchronize(&self) -> (r: LaunchResult<()>)
        ensures
            r is Ok,
    {
        Ok(())
    }

    /// Waits for all work on the device and closes it.
    pub fn shutdown(self) -> (r: LaunchResult<()>)
        ensures
            r is Ok,
    {
        self.synchronize()
    }
}

/// Two streams opened one after the other through the same counter, by the same device
/// or by two different ones, have different handles, and neither is the default stream
/// as long as the counter has not run through every handle.
pub proof fn lemma_new_streams_distinct(
    c0: StreamCounter,
    c1: StreamCounter,
    a: Stream,
    b: Stream,
)
    requires
        a.spec_handle() == StreamHandle(c0.spec_next()),
        c1.spec_next() == (c0.spec_next() + 1) % 0x1_0000_0000_0000_0000,
        b.spec_handle() == StreamHandle(c1.spec_next()),
        0 < c0.spec_next() < u64::MAX,
    ensures
        a.spec_handle() != b.spec_handle(),
        a.spec_handle() != StreamHandle::spec_default(),
        b.spec_handle() != StreamHandle::spec_default(),
{
}

} // verus!

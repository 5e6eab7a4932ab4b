use vstd::prelude::*;

verus! {

/// The three regions of an arena.
#[derive(Clone, Copy, Debug, PartialEq, Eq, Structural)]
pub enum Region {
    Weight,
    Activation,
    Gradient,
}

/// A zero-initialised byte buffer in host memory.
#[derive(Debug)]
pub struct HostBuffer {
    bytes: Vec<u8>,
}

impl View for HostBuffer {
    type V = Seq<u8>;

    closed spec fn view(&self) -> Seq<u8> {
        self.bytes@
    }
}

/// `&mut bytes[start..end]`.
#[verifier::external_body]
pub(crate) fn subslice_mut(bytes: &mut [u8], start: usize, end: usize) -> (out: &mut [u8])
    requires
        start <= end <= old(bytes)@.len(),
    ensures
        out@ == old(bytes)@.subrange(start as int, end as int),
        final(out)@.len() == out@.len(),
        final(bytes)@ == old(bytes)@.subrange(0, start as int) + final(out)@ + old(bytes)@.subrange(
            end as int,
            old(bytes)@.len() as int,
        ),
{
    &mut bytes[start..end]
}

impl HostBuffer {
    pub fn zeroed(len: usize) -> (b: Self)
        requires
            len <= isize::MAX,
        ensures
            b@ == Seq::new(len as nat, |i: int| 0u8),
    {
        let mut bytes: Vec<u8> = Vec::with_capacity(len);
        let mut i: usize = 0;
        while i < len
            invariant
                i <= len,
                bytes@ == Seq::new(i as nat, |k: int| 0u8),
            decreases len - i,
        {
            bytes.push(0u8);
            i = i + 1;
        }
        HostBuffer { bytes }
    }

    pub fn len(&self) -> (n: usize)
        ensures
            n == self@.len(),
    {
        self.bytes.len()
    }

    pub fn is_empty(&self) -> (b: bool)
        ensures
            b == (self@.len() == 0),
    {
        self.bytes.len() == 0
    }

    pub fn as_slice(&self) -> (s: &[u8])
        ensures
            s@ == self@,
    {
        self.bytes.as_slice()
    }

    pub fn as_mut_slice(&mut self) -> (s: &mut [u8])
        ensures
            s@ == old(self)@,
            final(self)@ == final(s)@,
    {
        self.bytes.as_mut_slice()
    }

    /// The `len` bytes that start at `offset`.
    pub fn slice(&self, offset: usize, len: usize) -> (s: &[u8])
        requires
            offset + len <= self@.len(),
        ensures
            s@ == self@.subrange(offset as int, offset + len),
    {
        let _n = self.bytes.len();
        vstd::slice::slice_subrange(self.bytes.as_slice(), offset, offset + len)
    }

    /// The `len` bytes that start at `offset`, for writing; the rest of the buffer is left
    /// as it was.
    pub fn slice_mut(&mut self, offset: usize, len: usize) -> (s: &mut [u8])
        requires
            offset + len <= old(self)@.len(),
        ensures
            s@ == old(self)@.subrange(offset as int, offset + len),
            final(s)@.len() == len,
            final(self)@ == old(self)@.subrange(0, offset as int) + final(s)@ + old(
                self,
            )@.subrange(offset + len, old(self)@.len() as int),
    {
        let _n = self.bytes.len();
        subslice_mut(self.bytes.as_mut_slice(), offset, offset + len)
    }
}

} // verus!

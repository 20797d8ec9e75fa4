use vstd::prelude::*;

verus! {

/// What is kept of a vertex buffer that is written anew each frame: its size
/// in bytes.
#[derive(Debug, Clone, Copy, PartialEq, Eq, Structural)]
pub struct DynamicVertexBuffer {
    size: usize,
}

impl DynamicVertexBuffer {
    /// The size of the buffer on the device, in bytes.
    pub closed spec fn size(&self) -> usize {
        self.size
    }

    /// The bookkeeping of a buffer made from `size` bytes of data.
    pub fn new(size: usize) -> (buffer: Self)
        ensures
            buffer.size() == size,
    {
        DynamicVertexBuffer { size }
    }

    /// Takes note that `size` bytes of data are written. Answers whether the
    /// buffer has to be made anew for them, which it has when the size is
    /// another.
    pub fn set(&mut self, size: usize) -> (renew: bool)
        ensures
            renew == (size != old(self).size()),
            final(self).size() == size,
    {
        if size != self.size {
            self.size = size;
            true
        } else {
            false
        }
    }
}

} // verus!

use vstd::prelude::*;

use crate::gfx::raw::config::IndexFormat;
use crate::gfx::raw::index_buffer::index_count;

verus! {

/// What is kept of an index buffer that is written anew each frame: the
/// format of its indices, its size in bytes and the count of its indices.
#[derive(Debug, Clone, Copy, PartialEq, Eq, Structural)]
pub struct DynamicIndexBuffer {
    format: IndexFormat,
    size: usize,
    len: u32,
}

/// What a `DynamicIndexBuffer` holds.
pub struct DynamicIndexBufferView {
    pub format: IndexFormat,
    pub size: usize,
    pub len: u32,
}

impl View for DynamicIndexBuffer {
    type V = DynamicIndexBufferView;

    closed spec fn view(&self) -> DynamicIndexBufferView {
        DynamicIndexBufferView { format: self.format, size: self.size, len: self.len }
    }
}

impl DynamicIndexBuffer {
    /// The bookkeeping of a buffer made from `size` bytes of data that hold
    /// `len` indices.
    pub fn new(size: usize, format: IndexFormat, len: usize) -> (buffer: Self)
        ensures
            buffer@ == (DynamicIndexBufferView { format, size, len: index_count(len) }),
    {
        DynamicIndexBuffer { format, size, len: (len as u64 % 0x1_0000_0000u64) as u32 }
    }

    /// Takes note that `size` bytes of data with `len` indices are written.
    /// Answers whether the buffer has to be made anew for them, which it has
    /// when the size is another; only then the count changes.
    pub fn set(&mut self, size: usize, len: usize) -> (renew: bool)
        ensures
            renew == (size != old(self)@.size),
            final(self)@ == if renew {
                DynamicIndexBufferView { format: old(self)@.format, size, len: index_count(len) }
            } else {
                old(self)@
            },
    {
        if size != self.size {
            self.len = (len as u64 % 0x1_0000_0000u64) as u32;
            self.size = size;
            true
        } else {
            false
        }
    }

    pub fn format(&self) -> (format: IndexFormat)
        ensures
            format == self@.format,
    {
        self.format
    }

    pub fn len(&self) -> (len: u32)
        ensures
            len == self@.len,
    {
        self.len
    }
}

} // verus!

use vstd::prelude::*;

use crate::gfx::raw::config::IndexFormat;

verus! {

/// A count of indices as the device takes it: in 32 bits, the higher bits
/// cut off.
pub open spec fn index_count(len: usize) -> u32 {
    (len as int % 0x1_0000_0000) as u32
}

/// What is kept of an index buffer on the device: the format of its
/// indices and their count.
#[derive(Debug, Clone, Copy, PartialEq, Eq, Structural)]
pub struct IndexBuffer {
    format: IndexFormat,
    len: u32,
}

/// What an `IndexBuffer` holds.
pub struct IndexBufferView {
    pub format: IndexFormat,
    pub len: u32,
}

impl View for IndexBuffer {
    type V = IndexBufferView;

    closed spec fn view(&self) -> IndexBufferView {
        IndexBufferView { format: self.format, len: self.len }
    }
}

impl IndexBuffer {
    /// The bookkeeping of a buffer of `len` indices.
    pub fn new(format: IndexFormat, len: usize) -> (buffer: Self)
        ensures
            buffer@ == (IndexBufferView { format, len: index_count(len) }),
    {
        IndexBuffer { format, len: (len as u64 % 0x1_0000_0000u64) as u32 }
    }

    pub fn format(&self) -> (format: IndexFormat)
        ensures
            format == self@.format,
    {
        self.format
    }

    pub fn len(&self) -> (len: u32)
        ensures
            len == self@.len,
    {
        self.len
    }
}

} // verus!

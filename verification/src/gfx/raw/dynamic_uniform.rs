use vstd::prelude::*;

use crate::gfx::raw::config::{BindGroupLayoutEntry, BindingType, ShaderStages};

verus! {

/// What is to be done with the buffer of a dynamic uniform.
#[derive(Debug, Clone, Copy, PartialEq, Eq, Structural)]
pub enum Resize {
    /// Nothing.
    Keep,
    /// Make a larger buffer of `size` bytes, copy all of the old buffer
    /// into it, and bind it in a new bind group.
    Expand { size: u64 },
    /// Make a smaller buffer of `size` bytes, fill it from the old buffer,
    /// and bind it in a new bind group.
    Shrink { size: u64 },
}

/// What is to be done to set a dynamic uniform: first what `resize` says,
/// then the value is written at `offset` in the buffer, and the uniform is
/// put on the list of those to reset after the frame if `enqueue` is set.
#[derive(Debug, Clone, Copy, PartialEq, Eq, Structural)]
pub struct Write {
    pub resize: Resize,
    pub offset: u64,
    pub enqueue: bool,
}

/// What is to be done to reset a dynamic uniform after a frame: first what
/// `resize` says, then the oldest bind group is dropped if `drop_oldest` is
/// set.
#[derive(Debug, Clone, Copy, PartialEq, Eq, Structural)]
pub struct Reset {
    pub resize: Resize,
    pub drop_oldest: bool,
}

/// The bookkeeping of a uniform buffer that holds one value for each draw of
/// a frame, each at a multiple of the device's offset alignment.
#[derive(Debug)]
pub struct DynamicUniform {
    uuid: u128,
    size: usize,
    alignment: u32,
    length: u32,
    offset: u32,
    desired_length: u32,
    bind_groups: usize,
    queued: bool,
    visibility: ShaderStages,
}

/// What a `DynamicUniform` holds.
pub struct DynamicUniformView {
    /// The size of one value, in bytes.
    pub size: nat,
    /// The offset alignment of the device.
    pub alignment: nat,
    /// How many values the buffer has room for.
    pub length: nat,
    /// How many values were set in this frame.
    pub offset: nat,
    /// How many bind groups are alive.
    pub bind_groups: nat,
    /// Whether the uniform is on the list of those to reset.
    pub queued: bool,
    /// The shader stages that see the uniform.
    pub visibility: ShaderStages,
}

/// The least multiple of `alignment` that holds `size` bytes.
pub open spec fn step(size: nat, alignment: nat) -> nat {
    alignment * (size / alignment + if size % alignment == 0 {
        0nat
    } else {
        1nat
    })
}

/// The change from a buffer of `from` values to one of `to` values of
/// `stride` bytes.
pub open spec fn resized(from: nat, to: nat, stride: nat) -> Resize {
    if from < to {
        Resize::Expand { size: (stride * to) as u64 }
    } else if from == to {
        Resize::Keep
    } else {
        Resize::Shrink { size: (stride * to) as u64 }
    }
}

impl DynamicUniformView {
    /// The distance between two values in the buffer.
    pub open spec fn stride(self) -> nat {
        step(self.size, self.alignment)
    }

    /// The uniform after one more value was set.
    pub open spec fn set(self) -> DynamicUniformView {
        if self.offset + 1 > self.length {
            DynamicUniformView {
                length: self.length + 1,
                offset: self.offset + 1,
                bind_groups: self.bind_groups + 1,
                queued: true,
                ..self
            }
        } else {
            DynamicUniformView { offset: self.offset + 1, queued: true, ..self }
        }
    }

    /// What is to be done to set one more value.
    pub open spec fn write(self) -> Write {
        Write {
            resize: if self.offset + 1 > self.length {
                Resize::Expand { size: (self.stride() * (self.length + 1)) as u64 }
            } else {
                Resize::Keep
            },
            offset: (self.stride() * self.offset) as u64,
            enqueue: !self.queued,
        }
    }

    /// The uniform with room for `length` values.
    pub open spec fn resize(self, length: nat) -> DynamicUniformView {
        if length == self.length {
            self
        } else {
            DynamicUniformView { length, bind_groups: self.bind_groups + 1, ..self }
        }
    }

    /// The uniform after a frame: no value is set, the buffer has room for
    /// as many values as the frame has set, and of two or more bind groups
    /// the oldest is gone.
    pub open spec fn reset(self) -> DynamicUniformView {
        let sized = self.resize(self.offset);
        DynamicUniformView {
            offset: 0,
            queued: false,
            bind_groups: if sized.bind_groups > 1 {
                (sized.bind_groups - 1) as nat
            } else {
                sized.bind_groups
            },
            ..sized
        }
    }

    /// What is to be done to reset the uniform after a frame.
    pub open spec fn resetting(self) -> Reset {
        Reset {
            resize: resized(self.length, self.offset, self.stride()),
            drop_oldest: self.resize(self.offset).bind_groups > 1,
        }
    }
}

impl View for DynamicUniform {
    type V = DynamicUniformView;

    closed spec fn view(&self) -> DynamicUniformView {
        DynamicUniformView {
            size: self.size as nat,
            alignment: self.alignment as nat,
            length: self.length as nat,
            offset: self.offset as nat,
            bind_groups: self.bind_groups as nat,
            queued: self.queued,
            visibility: self.visibility,
        }
    }
}

/// `uuid::Uuid::new_v4`, as a number by `Uuid::as_u128`: a random
/// identifier, of which nothing is known beforehand.
#[verifier::external_body]
fn fresh_id() -> u128 {
    uuid::Uuid::new_v4().as_u128()
}

impl DynamicUniform {
    /// Whether values of `size` bytes can be laid out at multiples of
    /// `alignment`: the alignment is not 0, and the distance between two
    /// values fits the 32 bits in which the device counts offsets.
    pub open spec fn fits(size: usize, alignment: u32) -> bool {
        alignment > 0 && step(size as nat, alignment as nat) <= u32::MAX
    }

    /// The identifier under which the uniform stands on the list of those to
    /// reset. It is drawn at random when the uniform is made, and stays.
    pub closed spec fn ident(&self) -> u128 {
        self.uuid
    }

    #[verifier::type_invariant]
    closed spec fn inv(&self) -> bool {
        &&& Self::fits(self.size, self.alignment)
        &&& self.desired_length == self.offset
        &&& self.bind_groups >= 1
    }

    /// The distance between two values in the buffer.
    fn step_u32(&self) -> (stride: u32)
        ensures
            stride == self@.stride(),
            self@.alignment > 0,
    {
        proof {
            use_type_invariant(self);
        }
        Self::stride_of(self.size, self.alignment)
    }

    fn step_u64(&self) -> (stride: u64)
        ensures
            stride == self@.stride(),
            stride <= u32::MAX,
            self@.alignment > 0,
    {
        self.step_u32() as u64
    }

    /// The least multiple of `alignment` that holds `size` bytes.
    fn stride_of(size: usize, alignment: u32) -> (stride: u32)
        requires
            Self::fits(size, alignment),
        ensures
            stride == step(size as nat, alignment as nat),
    {
        let alignment_wide: usize = alignment as usize;
        let whole: usize = size / alignment_wide;
        let rest: usize = size % alignment_wide;
        if rest != 0 {
            assert(whole + 1 <= u32::MAX) by (nonlinear_arith)
                requires
                    alignment >= 1,
                    alignment * (whole + 1) <= u32::MAX,
            ;
        }
        let count: usize = if rest == 0 {
            whole
        } else {
            whole + 1
        };
        assert(alignment * count <= u32::MAX) by (nonlinear_arith)
            requires
                alignment as nat * (count as nat) == step(size as nat, alignment as nat),
                step(size as nat, alignment as nat) <= u32::MAX,
        ;
        assert(count <= u32::MAX) by (nonlinear_arith)
            requires
                alignment * count <= u32::MAX,
                alignment >= 1,
        ;
        alignment * (count as u32)
    }

    /// Whether values of `size` bytes can be laid out at multiples of
    /// `alignment`.
    pub fn can_hold(size: usize, alignment: u32) -> (fits: bool)
        ensures
            fits == Self::fits(size, alignment),
    {
        if alignment == 0 {
            return false;
        }
        let alignment_wide: usize = alignment as usize;
        let whole: usize = size / alignment_wide;
        let count: u128 = if size % alignment_wide == 0 {
            whole as u128
        } else {
            whole as u128 + 1
        };
        assert(alignment as u128 * count <= 0xffff_ffff * 0x1_0000_0000_0000_0000) by (nonlinear_arith)
            requires
                alignment <= 0xffff_ffff,
                count <= 0x1_0000_0000_0000_0000,
        ;
        alignment as u128 * count <= u32::MAX as u128
    }

    /// The bookkeeping of a buffer with room for one value of `size` bytes.
    pub fn new(size: usize, alignment: u32, stages: ShaderStages) -> (uniform: Self)
        requires
            Self::fits(size, alignment),
        ensures
            uniform@ == (DynamicUniformView {
                size: size as nat,
                alignment: alignment as nat,
                length: 1,
                offset: 0,
                bind_groups: 1,
                queued: false,
                visibility: stages,
            }),
    {
        Self::with_capacity(size, 1, alignment, stages)
    }

    /// The bookkeeping of a buffer with room for `length` values of `size`
    /// bytes, none of them set, bound in one bind group.
    pub fn with_capacity(size: usize, length: u32, alignment: u32, stages: ShaderStages) -> (uniform: Self)
        requires
            Self::fits(size, alignment),
        ensures
            uniform@ == (DynamicUniformView {
                size: size as nat,
                alignment: alignment as nat,
                length: length as nat,
                offset: 0,
                bind_groups: 1,
                queued: false,
                visibility: stages,
            }),
    {
        DynamicUniform {
            uuid: fresh_id(),
            size,
            alignment,
            length,
            offset: 0,
            desired_length: 0,
            bind_groups: 1,
            queued: false,
            visibility: stages,
        }
    }

    /// How many bytes the buffer holds.
    pub fn buffer_size(&self) -> (size: u64)
        ensures
            size == self@.stride() * self@.length,
    {
        let stride = self.step_u64();
        assert(stride * self.length <= 0xffff_ffff * 0xffff_ffff) by (nonlinear_arith)
            requires
                stride <= 0xffff_ffff,
                self.length <= 0xffff_ffff,
        ;
        stride * self.length as u64
    }

    /// Gives the buffer room for `length` values.
    pub fn resize(&mut self, length: u32) -> (resize: Resize)
        requires
            old(self)@.bind_groups < usize::MAX,
        ensures
            final(self)@ == old(self)@.resize(length as nat),
            final(self).ident() == old(self).ident(),
            resize == resized(old(self)@.length, length as nat, old(self)@.stride()),
    {
        proof {
            use_type_invariant(&*self);
        }
        let stride = self.step_u64();
        assert(stride * length <= 0xffff_ffff * 0xffff_ffff) by (nonlinear_arith)
            requires
                stride <= 0xffff_ffff,
                length <= 0xffff_ffff,
        ;
        if self.length < length {
            self.length = length;
            self.bind_groups = self.bind_groups + 1;
            Resize::Expand { size: stride * length as u64 }
        } else if self.length == length {
            Resize::Keep
        } else {
            self.length = length;
            self.bind_groups = self.bind_groups + 1;
            Resize::Shrink { size: stride * length as u64 }
        }
    }

    /// Whether one more value can be set: the counts of values and of bind
    /// groups have not reached what their types hold.
    pub open spec fn can_set(self) -> bool {
        self@.offset < u32::MAX && self@.length < u32::MAX && self@.bind_groups < usize::MAX
    }

    /// Whether one more value can be set.
    pub fn has_room(&self) -> (room: bool)
        ensures
            room == self.can_set(),
    {
        self.offset < u32::MAX && self.length < u32::MAX && self.bind_groups < usize::MAX
    }

    /// Takes note that one more value is set, and says how to set it.
    pub fn set(&mut self) -> (write: Write)
        requires
            old(self).can_set(),
        ensures
            final(self)@ == old(self)@.set(),
            final(self).ident() == old(self).ident(),
            write == old(self)@.write(),
    {
        proof {
            use_type_invariant(&*self);
        }
        let stride = self.step_u64();
        assert(stride * (self.length + 1) <= 0xffff_ffff * 0xffff_ffff) by (nonlinear_arith)
            requires
                stride <= 0xffff_ffff,
                self.length + 1 <= 0xffff_ffff,
        ;
        assert(stride * self.offset <= 0xffff_ffff * 0xffff_ffff) by (nonlinear_arith)
            requires
                stride <= 0xffff_ffff,
                self.offset <= 0xffff_ffff,
        ;
        let enqueue = !self.queued;
        let at = stride * self.offset as u64;
        if self.offset + 1 > self.length {
            let size = stride * (self.length as u64 + 1);
            *self = DynamicUniform {
                uuid: self.uuid,
                size: self.size,
                alignment: self.alignment,
                length: self.length + 1,
                offset: self.offset + 1,
                desired_length: self.desired_length + 1,
                bind_groups: self.bind_groups + 1,
                queued: true,
                visibility: self.visibility,
            };
            Write { resize: Resize::Expand { size }, offset: at, enqueue }
        } else {
            *self = DynamicUniform {
                uuid: self.uuid,
                size: self.size,
                alignment: self.alignment,
                length: self.length,
                offset: self.offset + 1,
                desired_length: self.desired_length + 1,
                bind_groups: self.bind_groups,
                queued: true,
                visibility: self.visibility,
            };
            Write { resize: Resize::Keep, offset: at, enqueue }
        }
    }

    /// Whether the `index`-th value lies at an offset that the device can
    /// count.
    pub open spec fn reaches(self, index: u32) -> bool {
        self@.stride() * index <= u32::MAX
    }

    /// Whether the `index`-th value lies at an offset that the device can
    /// count.
    pub fn can_reach(&self, index: u32) -> (reached: bool)
        ensures
            reached == self.reaches(index),
    {
        let stride = self.step_u64();
        assert(stride * index <= 0xffff_ffff * 0xffff_ffff) by (nonlinear_arith)
            requires
                stride <= 0xffff_ffff,
                index <= 0xffff_ffff,
        ;
        stride * index as u64 <= u32::MAX as u64
    }

    /// The distance between two values in the buffer.
    pub fn stride(&self) -> (stride: u32)
        ensures
            stride == self@.stride(),
    {
        self.step_u32()
    }

    /// Where the `index`-th value lies in the buffer.
    pub fn offset_of(&self, index: u32) -> (offset: u32)
        requires
            self.reaches(index),
        ensures
            offset == self@.stride() * index,
    {
        self.step_u32() * index
    }

    /// How many values were set in this frame.
    pub fn offset(&self) -> (offset: u32)
        ensures
            offset == self@.offset,
    {
        self.offset
    }

    /// Ends a frame, and says what is to be done with the buffer and the
    /// bind groups.
    pub fn reset(&mut self) -> (reset: Reset)
        requires
            old(self)@.bind_groups < usize::MAX,
        ensures
            final(self)@ == old(self)@.reset(),
            final(self).ident() == old(self).ident(),
            reset == old(self)@.resetting(),
    {
        proof {
            use_type_invariant(&*self);
        }
        let stride = self.step_u64();
        assert(stride * self.offset <= 0xffff_ffff * 0xffff_ffff) by (nonlinear_arith)
            requires
                stride <= 0xffff_ffff,
                self.offset <= 0xffff_ffff,
        ;
        let size = stride * self.offset as u64;
        let resize = if self.length < self.desired_length {
            Resize::Expand { size }
        } else if self.length == self.desired_length {
            Resize::Keep
        } else {
            Resize::Shrink { size }
        };
        let grown: usize = if self.length == self.desired_length {
            self.bind_groups
        } else {
            self.bind_groups + 1
        };
        let drop_oldest = grown > 1;
        *self = DynamicUniform {
            uuid: self.uuid,
            size: self.size,
            alignment: self.alignment,
            length: self.desired_length,
            offset: 0,
            desired_length: 0,
            bind_groups: if drop_oldest {
                (grown - 1) as usize
            } else {
                grown
            },
            queued: false,
            visibility: self.visibility,
        };
        Reset { resize, drop_oldest }
    }

    /// The bind group and the offset in the buffer for the value that was
    /// set last: the newest bind group, and the last value, or the first
    /// where none was set.
    pub fn binding(&self) -> (binding: (usize, u32))
        requires
            self.reaches(self@.offset as u32),
        ensures
            binding.0 == self@.bind_groups - 1,
            binding.1 == self@.stride() * if self@.offset == 0 {
                0
            } else {
                self@.offset - 1
            },
    {
        proof {
            use_type_invariant(self);
        }
        let index: u32 = if self.offset == 0 {
            0
        } else {
            self.offset - 1
        };
        let stride = self.step_u32();
        assert(stride * index <= stride * self.offset) by (nonlinear_arith)
            requires
                index <= self.offset,
        ;
        (self.bind_groups - 1, stride * index)
    }

    /// The layout of the uniform's bind group: one uniform buffer with a
    /// dynamic offset, seen by `stages`.
    pub fn bind_group_layout(stages: ShaderStages) -> (entry: BindGroupLayoutEntry)
        ensures
            entry.binding == 0,
            entry.visibility == stages,
            entry.ty == BindingType::Uniform(true),
            entry.count.is_none(),
    {
        BindGroupLayoutEntry { binding: 0, visibility: stages, ty: BindingType::Uniform(true), count: None }
    }

    pub fn is_empty(&self) -> (empty: bool)
        ensures
            empty == (self@.length == 0),
    {
        self.length == 0
    }

    pub fn len(&self) -> (length: u32)
        ensures
            length == self@.length,
    {
        self.length
    }

    /// How many bind groups are alive.
    pub fn bind_groups(&self) -> (count: usize)
        ensures
            count == self@.bind_groups,
            count >= 1,
    {
        proof {
            use_type_invariant(self);
        }
        self.bind_groups
    }

    /// The identifier under which the uniform stands on the list of those to
    /// reset.
    pub fn id(&self) -> (id: u128)
        ensures
            id == self.ident(),
    {
        self.uuid
    }

    /// The shader stages that see the uniform.
    pub fn visibility(&self) -> (stages: ShaderStages)
        ensures
            stages == self@.visibility,
    {
        self.visibility
    }
}

} // verus!

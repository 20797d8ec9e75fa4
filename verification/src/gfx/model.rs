use vstd::prelude::*;

use crate::gfx::camera::Camera;
use crate::gfx::sprite::SpriteView;
use crate::gfx::texture::Texture;
use crate::gfx::vertex::{quad_indices, quad_vertices, Quad, Vertex};
use crate::types::errors::BatchError;

verus! {

/// What a draw call holds: the textures bound to its slots, slot 0 first, and
/// its quads in the order in which they were added.
pub struct DrawCallView {
    pub textures: Seq<Texture>,
    pub quads: Seq<Quad>,
}

impl DrawCallView {
    /// The vertex buffer: four vertices for each quad.
    pub open spec fn vertices(self) -> Seq<Vertex> {
        quad_vertices(self.quads)
    }

    /// The index buffer: six indices for each quad.
    pub open spec fn indices(self) -> Seq<int> {
        quad_indices(self.quads.len())
    }

    /// Whether `texture` is bound to one of the slots.
    pub open spec fn binds(self, texture: Texture) -> bool {
        exists|i: int| 0 <= i < self.textures.len() && #[trigger] self.textures[i].id == texture.id
    }

    /// The first slot to which `texture` is bound, where it is bound at all.
    pub open spec fn slot_of(self, texture: Texture) -> int {
        choose|i: int|
            0 <= i < self.textures.len() && #[trigger] self.textures[i].id == texture.id && forall|j: int|
                0 <= j < i ==> #[trigger] self.textures[j].id != texture.id
    }

    /// Slot 0 is taken, no texture is bound twice, and every quad names a slot
    /// that is taken.
    pub open spec fn wf(self) -> bool {
        &&& self.textures.len() >= 1
        &&& forall|i: int, j: int|
            0 <= i < j < self.textures.len() ==> #[trigger] self.textures[i].id
                != #[trigger] self.textures[j].id
        &&& forall|k: int| 0 <= k < self.quads.len() ==> (#[trigger] self.quads[k]).slot < self.textures.len()
    }

    /// Whether the draw call keeps within `capacity` slots. Slot 0 is always
    /// there, also with a capacity of 0.
    pub open spec fn within(self, capacity: u32) -> bool {
        self.textures.len() <= capacity || self.textures.len() == 1
    }

    /// Whether the draw call takes another quad: the count of its indices
    /// then still fits the 32 bits in which the graphics device counts them.
    pub open spec fn has_room(self) -> bool {
        self.quads.len() < MAX_QUADS
    }

    /// The draw call that a sprite opens: its texture in slot 0, and its quad.
    pub open spec fn opened(sprite: SpriteView) -> DrawCallView {
        DrawCallView {
            textures: seq![sprite.texture],
            quads: seq![Quad { target: sprite.target, color: sprite.color, slot: 0u32 }],
        }
    }

    /// The draw call with `texture` bound to the next free slot.
    pub open spec fn with_texture(self, texture: Texture) -> DrawCallView {
        DrawCallView { textures: self.textures.push(texture), quads: self.quads }
    }

    /// The draw call with one more quad.
    pub open spec fn with_quad(self, quad: Quad) -> DrawCallView {
        DrawCallView { textures: self.textures, quads: self.quads.push(quad) }
    }

    /// The draw call after `sprite` has been added to it. Its texture keeps
    /// the slot it has, or takes the next free one.
    pub open spec fn with_sprite(self, sprite: SpriteView) -> DrawCallView {
        if self.binds(sprite.texture) {
            self.with_quad(
                Quad { target: sprite.target, color: sprite.color, slot: self.slot_of(sprite.texture) as u32 },
            )
        } else {
            self.with_texture(sprite.texture).with_quad(
                Quad { target: sprite.target, color: sprite.color, slot: self.textures.len() as u32 },
            )
        }
    }

    /// The sprites that the quads stand for, in order: each quad with the
    /// texture bound to its slot.
    pub open spec fn sprites(self) -> Seq<SpriteView> {
        Seq::new(
            self.quads.len(),
            |k: int|
                SpriteView {
                    texture: self.textures[self.quads[k].slot as int],
                    target: self.quads[k].target,
                    color: self.quads[k].color,
                },
        )
    }
}

/// One step of a frame's submission to the graphics device.
#[derive(Debug, Clone, Copy, PartialEq, Eq, Structural)]
pub enum Command {
    /// Select the batch's pipeline.
    SetPipeline,
    /// Bind the camera uniform to a bind group.
    SetUniform { group: u32 },
    /// Upload the vertices of a draw call of the batch.
    UploadVertices { draw_call: usize },
    /// Upload the indices of a draw call of the batch, `count` of them.
    UploadIndices { draw_call: usize, count: u32 },
    /// Bind a texture to a bind group: that of a draw call's slot, or the
    /// blank placeholder where the slot is free.
    SetTexture { group: u32, texture: Option<Texture> },
    /// Select the uploaded vertices of a draw call for a vertex buffer slot.
    SetVertexBuffer { slot: u32, draw_call: usize },
    /// Select the uploaded indices of a draw call.
    SetIndexBuffer { draw_call: usize },
    /// Draw the indices from `first` up to, not including, `end`, once.
    DrawIndexed { first: u32, end: u32, base_vertex: i32, instances: u32 },
}

/// What holds of a batch at any time.
pub struct BatchView {
    /// Whether a frame is being recorded.
    pub drawing: bool,
    /// How many textures one draw call can bind.
    pub capacity: u32,
    /// The draw calls of the frame, in the order in which they were opened.
    pub calls: Seq<DrawCallView>,
    /// The camera that all draw calls share.
    pub camera: Camera,
    /// How many draw calls the last completed flush issued.
    pub flushed: nat,
}

/// The most quads that one draw call takes: the count of its indices fits the
/// 32 bits in which the graphics device counts them. A sprite that finds the
/// open draw call full opens a new one.
pub const MAX_QUADS: usize = 715_827_882;

impl BatchView {
    /// Every draw call is well formed and keeps within the capacity.
    pub open spec fn wf(self) -> bool {
        forall|i: int|
            0 <= i < self.calls.len() ==> (#[trigger] self.calls[i]).wf() && self.calls[i].within(
                self.capacity,
            )
    }

    /// Whether `sprite` joins the open draw call: there is one, it takes
    /// another quad, and it binds the sprite's texture already or has a slot
    /// left for it.
    pub open spec fn joins(self, sprite: SpriteView) -> bool {
        &&& self.calls.len() > 0
        &&& self.calls.last().has_room()
        &&& (self.calls.last().binds(sprite.texture) || self.calls.last().textures.len() < self.capacity)
    }

    /// The batch with a new draw call that `sprite` opens.
    pub open spec fn opened(self, sprite: SpriteView) -> BatchView {
        BatchView { calls: self.calls.push(DrawCallView::opened(sprite)), ..self }
    }

    /// The batch after one sprite has been recorded. The sprite joins the open
    /// draw call where it can; else it opens a new draw call.
    pub open spec fn record(self, sprite: SpriteView) -> BatchView {
        if self.joins(sprite) {
            BatchView {
                calls: self.calls.update(self.calls.len() - 1, self.calls.last().with_sprite(sprite)),
                ..self
            }
        } else {
            self.opened(sprite)
        }
    }

    /// What `draw_sprite` makes of the batch: the sprite is recorded while a
    /// frame is being recorded, and dropped otherwise.
    pub open spec fn drawn(self, sprite: SpriteView) -> BatchView {
        if self.drawing {
            self.record(sprite)
        } else {
            self
        }
    }

    /// What `draw_sprite` makes of the batch when it is called for each of
    /// the sprites in turn.
    pub open spec fn drawn_all(self, sprites: Seq<SpriteView>) -> BatchView
        decreases sprites.len(),
    {
        if sprites.len() == 0 {
            self
        } else {
            self.drawn_all(sprites.drop_last()).drawn(sprites.last())
        }
    }

    /// What `begin` returns.
    pub open spec fn begin_result(self) -> Result<(), BatchError> {
        if self.drawing {
            Err(BatchError::BatchIsDrawing)
        } else {
            Ok(())
        }
    }

    /// What `begin` makes of the batch: an idle batch drops the frame before
    /// and records a new one.
    pub open spec fn begun(self) -> BatchView {
        if self.drawing {
            self
        } else {
            BatchView { drawing: true, calls: Seq::empty(), ..self }
        }
    }

    /// The textures for the `capacity` bind groups after that of the camera:
    /// those of the draw call's slots, then the blank placeholder.
    pub open spec fn bindings(self, call: int) -> Seq<Command> {
        Seq::new(
            self.capacity as nat,
            |g: int|
                Command::SetTexture {
                    group: (g + 1) as u32,
                    texture: if g < self.calls[call].textures.len() {
                        Some(self.calls[call].textures[g])
                    } else {
                        None
                    },
                },
        )
    }

    /// The submission of one draw call: its uploads, the camera in bind
    /// group 0, its textures, and one indexed draw of all its indices.
    pub open spec fn submission(self, call: int) -> Seq<Command> {
        let count = (6 * self.calls[call].quads.len()) as u32;
        seq![
            Command::UploadVertices { draw_call: call as usize },
            Command::UploadIndices { draw_call: call as usize, count },
            Command::SetUniform { group: 0u32 },
        ] + self.bindings(call) + seq![
            Command::SetVertexBuffer { slot: 0u32, draw_call: call as usize },
            Command::SetIndexBuffer { draw_call: call as usize },
            Command::DrawIndexed { first: 0u32, end: count, base_vertex: 0i32, instances: 1u32 },
        ]
    }

    /// The submissions of the first `n` draw calls, in order.
    pub open spec fn submissions(self, n: nat) -> Seq<Command>
        decreases n,
    {
        if n == 0 {
            Seq::empty()
        } else {
            self.submissions((n - 1) as nat) + self.submission(n - 1)
        }
    }

    /// The submission of a frame: the pipeline, then each draw call in the
    /// order in which it was opened.
    pub open spec fn plan(self) -> Seq<Command> {
        seq![Command::SetPipeline] + self.submissions(self.calls.len())
    }

    /// What a flush returns, given whether a render target is acquired. A
    /// frame without draw calls submits nothing and needs no render target.
    pub open spec fn flush_result(self, frame_acquired: bool) -> Result<Seq<Command>, BatchError> {
        if self.calls.len() == 0 {
            Ok(Seq::empty())
        } else if !frame_acquired {
            Err(BatchError::FrameIsNone)
        } else {
            Ok(self.plan())
        }
    }

    /// What `end` returns, given whether a render target is acquired.
    pub open spec fn end_result(self, frame_acquired: bool) -> Result<Seq<Command>, BatchError> {
        if !self.drawing {
            Err(BatchError::BatchNotDrawing)
        } else {
            self.flush_result(frame_acquired)
        }
    }

    /// What `end` makes of the batch: a recording batch becomes idle and
    /// keeps its draw calls, and a flush that completes counts them.
    pub open spec fn ended(self, frame_acquired: bool) -> BatchView {
        if !self.drawing {
            self
        } else if self.calls.len() > 0 && !frame_acquired {
            BatchView { drawing: false, ..self }
        } else {
            BatchView { drawing: false, flushed: self.calls.len(), ..self }
        }
    }

    /// How many quads the draw calls hold together.
    pub open spec fn quad_count(self) -> nat {
        self.quads_before(self.calls.len())
    }

    /// How many quads the first `n` draw calls hold together.
    pub open spec fn quads_before(self, n: nat) -> nat
        decreases n,
    {
        if n == 0 {
            0
        } else {
            self.quads_before((n - 1) as nat) + self.calls[n - 1].quads.len()
        }
    }

    /// How many vertices the first `n` draw calls hold together.
    pub open spec fn vertices_before(self, n: nat) -> nat
        decreases n,
    {
        if n == 0 {
            0
        } else {
            self.vertices_before((n - 1) as nat) + self.calls[n - 1].vertices().len()
        }
    }

    /// How many vertices the draw calls hold together.
    pub open spec fn vertex_count(self) -> nat {
        self.vertices_before(self.calls.len())
    }

    /// How many indices the first `n` draw calls hold together.
    pub open spec fn indices_before(self, n: nat) -> nat
        decreases n,
    {
        if n == 0 {
            0
        } else {
            self.indices_before((n - 1) as nat) + self.calls[n - 1].indices().len()
        }
    }

    /// How many indices the draw calls hold together.
    pub open spec fn index_count(self) -> nat {
        self.indices_before(self.calls.len())
    }

    /// The sprites that the first `n` draw calls stand for, in the order in
    /// which the graphics device draws them.
    pub open spec fn sprites_before(self, n: nat) -> Seq<SpriteView>
        decreases n,
    {
        if n == 0 {
            Seq::empty()
        } else {
            self.sprites_before((n - 1) as nat) + self.calls[n - 1].sprites()
        }
    }

    /// The sprites that the draw calls stand for, in the order in which the
    /// graphics device draws them.
    pub open spec fn sprites(self) -> Seq<SpriteView> {
        self.sprites_before(self.calls.len())
    }
}

} // verus!

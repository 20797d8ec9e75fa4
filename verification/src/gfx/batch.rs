use vstd::prelude::*;

use crate::gfx::camera::Camera;
use crate::gfx::laws::{lemma_record, same_sprites};
use crate::gfx::model::{BatchView, Command, DrawCallView, MAX_QUADS};
use crate::gfx::raw::config::Order;
use crate::gfx::raw::layout::{batch_group, batch_layouts, BindGroupLayout};
use crate::gfx::shader::{source, source_of};
use crate::gfx::sprite::Sprite;
use crate::gfx::texture::Texture;
use crate::gfx::vertex::{corner_order, quad_indices, quad_vertices, Quad, Vertex};
use crate::types::errors::BatchError;
use crate::types::{Color, Position, Rectangle, Size};

verus! {

/// The quads that a vertex buffer holds: one for every four vertices, found
/// from the first and the third of them.
pub open spec fn quads_of(vertices: Seq<Vertex>) -> Seq<Quad> {
    Seq::new((vertices.len() / 4) as nat, |k: int| Quad::between(vertices[4 * k], vertices[4 * k + 2]))
}

/// The numbers that an index buffer holds.
pub open spec fn index_values(indices: Seq<u32>) -> Seq<int> {
    indices.map_values(|i: u32| i as int)
}

/// What a flush hands out, with the commands as a sequence.
pub open spec fn submitted(result: Result<Vec<Command>, BatchError>) -> Result<Seq<Command>, BatchError> {
    match result {
        Ok(commands) => Ok(commands@),
        Err(error) => Err(error),
    }
}

/// One batch of geometry that the graphics device draws at once, with the
/// textures bound to its slots.
#[derive(Debug)]
pub struct DrawCall {
    textures: Vec<Texture>,
    vertex: Vec<Vertex>,
    index: Vec<u32>,
    index_offset: u32,
    current_texture: u64,
}

impl View for DrawCall {
    type V = DrawCallView;

    closed spec fn view(&self) -> DrawCallView {
        DrawCallView { textures: self.textures@, quads: quads_of(self.vertex@) }
    }
}

impl DrawCall {
    #[verifier::type_invariant]
    closed spec fn inv(&self) -> bool {
        &&& self@.wf()
        &&& self@.quads.len() <= MAX_QUADS
        &&& self.textures.len() <= u32::MAX
        &&& self.vertex@ == self@.vertices()
        &&& index_values(self.index@) == self@.indices()
        &&& self.index_offset == 4 * self@.quads.len()
        &&& self.current_texture == self.textures@[0].id
    }

    /// The textures bound to the slots, slot 0 first.
    pub fn textures(&self) -> (textures: &Vec<Texture>)
        ensures
            textures@ == self@.textures,
            self@.wf(),
    {
        proof {
            use_type_invariant(self);
        }
        &self.textures
    }

    /// The vertex buffer.
    pub fn vertices(&self) -> (vertices: &Vec<Vertex>)
        ensures
            vertices@ == self@.vertices(),
    {
        proof {
            use_type_invariant(self);
        }
        &self.vertex
    }

    /// The index buffer. Each index names one of the draw call's own
    /// vertices.
    pub fn indices(&self) -> (indices: &Vec<u32>)
        ensures
            index_values(indices@) == self@.indices(),
            forall|i: int| 0 <= i < indices@.len() ==> #[trigger] indices@[i] < self@.vertices().len(),
    {
        proof {
            use_type_invariant(self);
            assert(index_values(self.index@).len() == self.index@.len());
            assert forall|i: int| 0 <= i < self.index@.len() implies #[trigger] self.index@[i]
                < self@.vertices().len() by {
                assert(index_values(self.index@)[i] == self.index@[i]);
                assert(self@.indices()[i] == 4 * (i / 6) + corner_order(i % 6));
                assert(i / 6 < self@.quads.len());
            }
        }
        &self.index
    }

    /// The running index offset: the number from which the indices of the
    /// next quad count, which is the count of the vertices.
    pub fn index_offset(&self) -> (offset: u32)
        ensures
            offset == self@.vertices().len(),
    {
        proof {
            use_type_invariant(self);
        }
        self.index_offset
    }

    /// The identity of the texture that opened the draw call: that of slot 0.
    pub fn current_texture(&self) -> (id: u64)
        ensures
            self@.textures.len() >= 1,
            id == self@.textures[0].id,
    {
        proof {
            use_type_invariant(self);
        }
        self.current_texture
    }

    /// How many quads the draw call holds.
    pub fn quads(&self) -> (count: usize)
        ensures
            count == self@.quads.len(),
            count <= MAX_QUADS,
    {
        proof {
            use_type_invariant(self);
        }
        self.vertex.len() / 4
    }

    /// The slot to which `texture` is bound, if it is bound.
    fn position(&self, texture: Texture) -> (slot: Option<u32>)
        ensures
            slot.is_some() == self@.binds(texture),
            slot.is_some() ==> slot.unwrap() == self@.slot_of(texture) && slot.unwrap() < self@.textures.len(),
    {
        proof {
            use_type_invariant(self);
        }
        if self.current_texture == texture.id {
            assert(self@.textures[0].id == texture.id);
            return Some(0);
        }
        let mut i: usize = 0;
        while i < self.textures.len()
            invariant
                i <= self.textures.len() <= u32::MAX,
                forall|j: int| 0 <= j < i ==> #[trigger] self.textures@[j].id != texture.id,
            decreases self.textures.len() - i,
        {
            if self.textures[i].id == texture.id {
                assert(self@.textures[i as int].id == texture.id);
                return Some(i as u32);
            }
            i += 1;
        }
        None
    }
}

/// A batcher of sprites. Between `begin` and `end` it records the sprites of
/// one frame into as few draw calls as the texture slots allow, in the order
/// in which they were drawn; `end` hands out the frame's submission to the
/// graphics device.
#[derive(Debug)]
pub struct Batch {
    draw_calls: Vec<DrawCall>,
    is_drawing: bool,
    capacity: u32,
    camera: Camera,
    flushed: usize,
}

impl View for Batch {
    type V = BatchView;

    closed spec fn view(&self) -> BatchView {
        BatchView {
            drawing: self.is_drawing,
            capacity: self.capacity,
            calls: self.draw_calls@.map_values(|call: DrawCall| call@),
            camera: self.camera,
            flushed: self.flushed as nat,
        }
    }
}

impl Batch {
    #[verifier::type_invariant]
    closed spec fn inv(&self) -> bool {
        &&& self.capacity < u32::MAX
        &&& forall|i: int|
            0 <= i < self.draw_calls.len() ==> (#[trigger] self.draw_calls[i]).inv() && self.draw_calls[i]@.within(
                self.capacity,
            )
    }

    /// The batch at rest, before any frame, for a graphics device that binds
    /// `max_bind_groups` groups at once: one group is the camera's, and each
    /// of the others, if there are others, takes a texture.
    pub open spec fn initial(max_bind_groups: u32) -> BatchView {
        BatchView {
            drawing: false,
            capacity: if max_bind_groups == 0 {
                0u32
            } else {
                (max_bind_groups - 1) as u32
            },
            calls: Seq::empty(),
            camera: Camera::of_viewport(Size { width: 1280u32, height: 720u32 }),
            flushed: 0,
        }
    }

    /// A batch for a graphics device that binds `max_bind_groups` groups at
    /// once.
    pub fn new(max_bind_groups: u32) -> (batch: Self)
        ensures
            batch@ == Self::initial(max_bind_groups),
            batch@.wf(),
    {
        let batch = Batch {
            draw_calls: Vec::new(),
            is_drawing: false,
            capacity: if max_bind_groups == 0 {
                0
            } else {
                max_bind_groups - 1
            },
            camera: Camera::for_viewport(Size { width: 1280, height: 720 }),
            flushed: 0,
        };
        assert(batch@.calls =~= Seq::empty());
        batch
    }

    /// Points the camera at a viewport of `size`.
    pub fn resize(&mut self, size: Size<u32>)
        ensures
            final(self)@ == (BatchView { camera: Camera::of_viewport(size), ..old(self)@ }),
    {
        proof {
            use_type_invariant(&*self);
        }
        self.camera = Camera::for_viewport(size);
    }

    /// Starts the recording of a frame, and drops the frame before.
    pub fn begin(&mut self) -> (result: Result<(), BatchError>)
        ensures
            result == old(self)@.begin_result(),
            final(self)@ == old(self)@.begun(),
    {
        proof {
            use_type_invariant(&*self);
        }
        if self.is_drawing {
            return Err(BatchError::BatchIsDrawing);
        }
        self.is_drawing = true;
        self.draw_calls = Vec::new();
        assert(self@.calls =~= Seq::empty());
        Ok(())
    }

    /// Adds one quad to a draw call: four vertices, and six indices that
    /// count from the draw call's running offset.
    fn add_quad(draw_call: DrawCall, target: Rectangle<i64>, color: Color<u8>, texture_index: u32) -> (added: DrawCall)
        requires
            texture_index < draw_call@.textures.len(),
            draw_call@.quads.len() < MAX_QUADS,
        ensures
            added@ == draw_call@.with_quad(Quad { target, color, slot: texture_index }),
    {
        proof {
            use_type_invariant(&draw_call);
        }
        let ghost before = draw_call@;
        let ghost quad = Quad { target, color, slot: texture_index };
        let DrawCall { textures, mut vertex, mut index, index_offset, current_texture } = draw_call;
        let ghost old_vertex = vertex@;
        let ghost old_index = index@;
        assert(index_values(old_index).len() == old_index.len());
        let left: i128 = target.x as i128;
        let top: i128 = target.y as i128;
        let right: i128 = target.x as i128 + target.width as i128;
        let bottom: i128 = target.y as i128 + target.height as i128;
        vertex.push(
            Vertex {
                position: Position { x: left, y: top },
                color,
                texcoord: Position { x: 0, y: 1 },
                texture_index,
            },
        );
        vertex.push(
            Vertex {
                position: Position { x: left, y: bottom },
                color,
                texcoord: Position { x: 0, y: 0 },
                texture_index,
            },
        );
        vertex.push(
            Vertex {
                position: Position { x: right, y: bottom },
                color,
                texcoord: Position { x: 1, y: 0 },
                texture_index,
            },
        );
        vertex.push(
            Vertex {
                position: Position { x: right, y: top },
                color,
                texcoord: Position { x: 1, y: 1 },
                texture_index,
            },
        );
        index.push(index_offset);
        index.push(index_offset + 2);
        index.push(index_offset + 1);
        index.push(index_offset);
        index.push(index_offset + 3);
        index.push(index_offset + 2);
        proof {
            let n = before.quads.len() as int;
            quad.lemma_between_corners();
            assert(vertex@.len() == 4 * n + 4);
            assert(forall|i: int| 0 <= i < 4 * n ==> vertex@[i] == old_vertex[i]);
            assert(vertex@[4 * n] == quad.corner(0));
            assert(vertex@[4 * n + 1] == quad.corner(1));
            assert(vertex@[4 * n + 2] == quad.corner(2));
            assert(vertex@[4 * n + 3] == quad.corner(3));
            assert(quads_of(vertex@) =~= before.quads.push(quad));
            assert(vertex@ =~= quad_vertices(quads_of(vertex@)));
            assert(index@.len() == 6 * n + 6);
            assert forall|i: int| 0 <= i < 6 * n + 6 implies index_values(index@)[i] == quad_indices(
                (n + 1) as nat,
            )[i] by {
                if i < 6 * n {
                    assert(index@[i] == old_index[i]);
                    assert(index_values(old_index)[i] == quad_indices(n as nat)[i]);
                } else {
                    assert(i / 6 == n);
                }
            }
            assert(index_values(index@) =~= quad_indices((n + 1) as nat));
        }
        DrawCall { textures, vertex, index, index_offset: index_offset + 4, current_texture }
    }

    /// Opens a draw call with the sprite's texture in slot 0 and the sprite's
    /// quad in it.
    fn add_new_draw_call(calls: &mut Vec<DrawCall>, sprite: &Sprite)
        ensures
            final(calls)@ == old(calls)@.push(final(calls)@.last()),
            final(calls)@.last()@ == DrawCallView::opened(sprite@),
            final(calls)@.last().inv(),
    {
        let texture = sprite.texture();
        let mut textures: Vec<Texture> = Vec::new();
        textures.push(texture);
        proof {
            assert(quads_of(Seq::<Vertex>::empty()) =~= Seq::empty());
            assert(Seq::<Vertex>::empty() =~= quad_vertices(Seq::empty()));
            assert(index_values(Seq::<u32>::empty()) =~= quad_indices(0));
        }
        let empty = DrawCall {
            textures,
            vertex: Vec::new(),
            index: Vec::new(),
            index_offset: 0,
            current_texture: texture.id,
        };
        assert(empty@.quads =~= Seq::empty());
        let draw_call = Self::add_quad(empty, sprite.target(), sprite.color(), 0);
        proof {
            use_type_invariant(&draw_call);
            assert(draw_call@.quads =~= DrawCallView::opened(sprite@).quads);
            assert(draw_call@.textures =~= DrawCallView::opened(sprite@).textures);
        }
        calls.push(draw_call);
    }

    /// Records one sprite: one quad, four vertices and six indices more,
    /// drawn after all that was recorded before. Outside the recording of a
    /// frame the sprite is dropped.
    pub fn draw_sprite(&mut self, sprite: &Sprite)
        ensures
            final(self)@ == old(self)@.drawn(sprite@),
            final(self)@.wf(),
            old(self)@.drawing ==> final(self)@.vertex_count() == old(self)@.vertex_count() + 4,
            old(self)@.drawing ==> final(self)@.index_count() == old(self)@.index_count() + 6,
            old(self)@.drawing ==> same_sprites(final(self)@.sprites(), old(self)@.sprites().push(sprite@)),
    {
        proof {
            use_type_invariant(&*self);
        }
        if !self.is_drawing {
            proof {
                self.lemma_wf();
            }
            return ;
        }
        let ghost before = self@;
        proof {
            self.lemma_wf();
            lemma_record(before, sprite@);
        }
        let mut calls: Vec<DrawCall> = Vec::new();
        core::mem::swap(&mut self.draw_calls, &mut calls);
        assert(calls@.map_values(|call: DrawCall| call@) == before.calls);
        match calls.pop() {
            None => {
                Self::add_new_draw_call(&mut calls, sprite);
            },
            Some(draw_call) => {
                proof {
                    use_type_invariant(&draw_call);
                }
                let texture = sprite.texture();
                let found = if draw_call.quads() < MAX_QUADS {
                    draw_call.position(texture)
                } else {
                    None
                };
                match found {
                    Some(slot) => {
                        let added = Self::add_quad(draw_call, sprite.target(), sprite.color(), slot);
                        proof {
                            use_type_invariant(&added);
                        }
                        calls.push(added);
                    },
                    None => {
                        if draw_call.quads() < MAX_QUADS && draw_call.textures.len() < self.capacity as usize {
                            let ghost open = draw_call@;
                            let DrawCall { mut textures, vertex, index, index_offset, current_texture } = draw_call;
                            textures.push(texture);
                            let slot: u32 = (textures.len() - 1) as u32;
                            let bound = DrawCall { textures, vertex, index, index_offset, current_texture };
                            assert(bound@ == open.with_texture(texture));
                            let added = Self::add_quad(bound, sprite.target(), sprite.color(), slot);
                            proof {
                                use_type_invariant(&added);
                            }
                            calls.push(added);
                        } else {
                            calls.push(draw_call);
                            Self::add_new_draw_call(&mut calls, sprite);
                        }
                    },
                }
            },
        }
        assert(calls@.map_values(|call: DrawCall| call@) =~= before.record(sprite@).calls);
        self.draw_calls = calls;
        proof {
            self.lemma_wf();
        }
    }

    /// Ends the recording of a frame and hands out its submission, for which
    /// a render target must be acquired unless nothing was recorded.
    pub fn end(&mut self, frame_acquired: bool) -> (result: Result<Vec<Command>, BatchError>)
        ensures
            submitted(result) == old(self)@.end_result(frame_acquired),
            final(self)@ == old(self)@.ended(frame_acquired),
    {
        proof {
            use_type_invariant(&*self);
        }
        if !self.is_drawing {
            return Err(BatchError::BatchNotDrawing);
        }
        let result = self.flush(frame_acquired);
        self.is_drawing = false;
        if result.is_ok() {
            self.flushed = self.draw_calls.len();
        }
        result
    }

    /// The submission of the recorded draw calls, in the order in which they
    /// were opened.
    fn flush(&self, frame_acquired: bool) -> (result: Result<Vec<Command>, BatchError>)
        ensures
            submitted(result) == self@.flush_result(frame_acquired),
    {
        let mut commands: Vec<Command> = Vec::new();
        if self.draw_calls.len() == 0 {
            return Ok(commands);
        }
        if !frame_acquired {
            return Err(BatchError::FrameIsNone);
        }
        commands.push(Command::SetPipeline);
        let ghost head = commands@;
        assert(head =~= seq![Command::SetPipeline]);
        let mut i: usize = 0;
        while i < self.draw_calls.len()
            invariant
                i <= self.draw_calls.len(),
                self@.calls.len() == self.draw_calls.len(),
                commands@ == head + self@.submissions(i as nat),
            decreases self.draw_calls.len() - i,
        {
            proof {
                use_type_invariant(self);
            }
            let draw_call = &self.draw_calls[i];
            assert(draw_call@ == self@.calls[i as int]);
            assert(index_values(draw_call.index@).len() == draw_call.index@.len());
            let count: u32 = draw_call.index.len() as u32;
            let ghost done = commands@;
            commands.push(Command::UploadVertices { draw_call: i });
            commands.push(Command::UploadIndices { draw_call: i, count });
            commands.push(Command::SetUniform { group: 0 });
            let mut group: u32 = 0;
            while group < self.capacity
                invariant
                    group <= self.capacity,
                    i < self.draw_calls.len(),
                    *draw_call == self.draw_calls[i as int],
                    draw_call@ == self@.calls[i as int],
                    self@.capacity == self.capacity,
                    commands@ == done + seq![
                        Command::UploadVertices { draw_call: i },
                        Command::UploadIndices { draw_call: i, count },
                        Command::SetUniform { group: 0u32 },
                    ] + self@.bindings(i as int).take(group as int),
                decreases self.capacity - group,
            {
                let texture = if (group as usize) < draw_call.textures.len() {
                    Some(draw_call.textures[group as usize])
                } else {
                    None
                };
                commands.push(Command::SetTexture { group: group + 1, texture });
                assert(self@.bindings(i as int).take(group + 1) =~= self@.bindings(i as int).take(group as int).push(
                    self@.bindings(i as int)[group as int],
                ));
                group += 1;
            }
            commands.push(Command::SetVertexBuffer { slot: 0, draw_call: i });
            commands.push(Command::SetIndexBuffer { draw_call: i });
            commands.push(Command::DrawIndexed { first: 0, end: count, base_vertex: 0, instances: 1 });
            proof {
                assert(self@.bindings(i as int).take(self.capacity as int) =~= self@.bindings(i as int));
                assert(commands@ =~= done + self@.submission(i as int));
                assert(self@.submissions((i + 1) as nat) == self@.submissions(i as nat) + self@.submission(i as int));
            }
            i += 1;
        }
        Ok(commands)
    }

    /// How many draw calls the last completed flush issued.
    pub fn draw_calls(&self) -> (count: usize)
        ensures
            count == self@.flushed,
    {
        self.flushed
    }

    /// The draw calls recorded since the last `begin`, in the order in which
    /// they were opened.
    pub fn recorded(&self) -> (calls: &Vec<DrawCall>)
        ensures
            calls@.map_values(|call: DrawCall| call@) == self@.calls,
            self@.wf(),
    {
        proof {
            use_type_invariant(self);
            self.lemma_wf();
        }
        &self.draw_calls
    }

    /// Whether a frame is being recorded.
    pub fn is_drawing(&self) -> (drawing: bool)
        ensures
            drawing == self@.drawing,
    {
        self.is_drawing
    }

    /// How many textures one draw call can bind.
    pub fn capacity(&self) -> (capacity: u32)
        ensures
            capacity == self@.capacity,
            capacity < u32::MAX,
    {
        proof {
            use_type_invariant(self);
        }
        self.capacity
    }

    /// The layouts of the bind groups of the batch's pipeline, each with its
    /// number: the camera's, then one for each texture slot.
    pub fn bind_group_layouts(&self) -> (layouts: Vec<(Order, BindGroupLayout)>)
        ensures
            layouts@.len() == self@.capacity + 1,
            forall|group: int|
                0 <= group <= self@.capacity ==> (#[trigger] layouts@[group]).0 == batch_group(group).0
                    && layouts@[group].1@ == batch_group(group).1,
    {
        proof {
            use_type_invariant(self);
        }
        batch_layouts(self.capacity)
    }

    /// The shader of the batch's pipeline, made from `template`.
    pub fn shader_source(&self, template: &str) -> (shader: String)
        ensures
            shader@ == source_of(template@, self@.capacity as nat),
    {
        source(template, self.capacity)
    }

    /// The camera that all draw calls share.
    pub fn camera(&self) -> (camera: Camera)
        ensures
            camera == self@.camera,
    {
        self.camera
    }

    /// The draw calls of a batch are well formed and keep within its
    /// capacity.
    proof fn lemma_wf(&self)
        requires
            self.inv(),
        ensures
            self@.wf(),
    {
    }
}

} // verus!

use vstd::prelude::*;

use crate::gfx::batch::Batch;
use crate::gfx::model::{BatchView, Command, DrawCallView};
use crate::gfx::sprite::SpriteView;
use crate::types::errors::BatchError;

verus! {

/// Whether two batches agree on their first `n` draw calls.
pub open spec fn same_calls(a: BatchView, b: BatchView, n: nat) -> bool {
    &&& n <= a.calls.len()
    &&& n <= b.calls.len()
    &&& forall|i: int| 0 <= i < n ==> a.calls[i] == b.calls[i]
}

/// Whether two sequences of sprites agree: in length, and one by one in
/// texture, rectangle and tint.
pub open spec fn same_sprites(a: Seq<SpriteView>, b: Seq<SpriteView>) -> bool {
    &&& a.len() == b.len()
    &&& forall|k: int|
        0 <= k < a.len() ==> (#[trigger] a[k]).texture.same(b[k].texture) && a[k].target == b[k].target
            && a[k].color == b[k].color
}

/// What is counted over the first draw calls depends on those draw calls
/// alone.
proof fn lemma_same_calls(a: BatchView, b: BatchView, n: nat)
    requires
        same_calls(a, b, n),
    ensures
        a.quads_before(n) == b.quads_before(n),
        a.vertices_before(n) == b.vertices_before(n),
        a.indices_before(n) == b.indices_before(n),
        a.sprites_before(n) == b.sprites_before(n),
    decreases n,
{
    if n > 0 {
        lemma_same_calls(a, b, (n - 1) as nat);
    }
}

/// A draw call holds four vertices and six indices for each quad.
proof fn lemma_counts_before(batch: BatchView, n: nat)
    requires
        n <= batch.calls.len(),
    ensures
        batch.vertices_before(n) == 4 * batch.quads_before(n),
        batch.indices_before(n) == 6 * batch.quads_before(n),
        batch.sprites_before(n).len() == batch.quads_before(n),
    decreases n,
{
    if n > 0 {
        lemma_counts_before(batch, (n - 1) as nat);
    }
}

/// A sprite that joins a well-formed draw call leaves it well formed, adds
/// itself at the end of what the draw call draws, and takes a new slot only
/// where its texture had none.
pub proof fn lemma_with_sprite(call: DrawCallView, capacity: u32, sprite: SpriteView)
    requires
        call.wf(),
        call.within(capacity),
        call.binds(sprite.texture) || call.textures.len() < capacity,
    ensures
        call.with_sprite(sprite).wf(),
        call.with_sprite(sprite).within(capacity),
        call.with_sprite(sprite).quads.len() == call.quads.len() + 1,
        same_sprites(call.with_sprite(sprite).sprites(), call.sprites().push(sprite)),
        forall|k: int| 0 <= k < call.quads.len() ==> call.with_sprite(sprite).sprites()[k] == call.sprites()[k],
{
    let after = call.with_sprite(sprite);
    if call.binds(sprite.texture) {
        let slot = call.slot_of(sprite.texture);
        assert(0 <= slot < call.textures.len() && call.textures[slot].id == sprite.texture.id);
        assert(after.textures == call.textures);
    } else {
        assert(forall|i: int| 0 <= i < call.textures.len() ==> after.textures[i] == call.textures[i]);
        assert(after.textures[call.textures.len() as int] == sprite.texture);
        assert forall|i: int, j: int| 0 <= i < j < after.textures.len() implies #[trigger] after.textures[i].id
            != #[trigger] after.textures[j].id by {
            if j == call.textures.len() {
                assert(call.textures[i].id != sprite.texture.id);
            }
        }
    }
    assert forall|k: int| 0 <= k < after.quads.len() implies (#[trigger] after.quads[k]).slot
        < after.textures.len() by {
        if k < call.quads.len() {
            assert(after.quads[k] == call.quads[k]);
        }
    }
    assert forall|k: int| 0 <= k < call.quads.len() implies after.sprites()[k] == call.sprites()[k] by {
        assert(after.quads[k] == call.quads[k]);
    }
}

/// Recording a sprite leaves a well-formed batch well formed.
pub proof fn lemma_record_wf(batch: BatchView, sprite: SpriteView)
    requires
        batch.wf(),
    ensures
        batch.record(sprite).wf(),
{
    let after = batch.record(sprite);
    let n = batch.calls.len() as int;
    if batch.joins(sprite) {
        lemma_with_sprite(batch.calls.last(), batch.capacity, sprite);
        assert forall|i: int| 0 <= i < after.calls.len() implies (#[trigger] after.calls[i]).wf()
            && after.calls[i].within(after.capacity) by {
            if i < n - 1 {
                assert(after.calls[i] == batch.calls[i]);
            }
        }
    } else {
        assert forall|i: int| 0 <= i < after.calls.len() implies (#[trigger] after.calls[i]).wf()
            && after.calls[i].within(after.capacity) by {
            if i < n {
                assert(after.calls[i] == batch.calls[i]);
            }
        }
    }
}

/// Each recorded sprite adds one quad, four vertices and six indices to the
/// batch, and is drawn after all that was recorded before it.
pub proof fn lemma_record(batch: BatchView, sprite: SpriteView)
    requires
        batch.wf(),
    ensures
        batch.record(sprite).quad_count() == batch.quad_count() + 1,
        batch.record(sprite).vertex_count() == batch.vertex_count() + 4,
        batch.record(sprite).index_count() == batch.index_count() + 6,
        same_sprites(batch.record(sprite).sprites(), batch.sprites().push(sprite)),
        forall|k: int| 0 <= k < batch.sprites().len() ==> batch.record(sprite).sprites()[k] == batch.sprites()[k],
{
    let after = batch.record(sprite);
    let n = batch.calls.len();
    lemma_counts_before(batch, n);
    lemma_counts_before(after, after.calls.len());
    if batch.joins(sprite) {
        let last = batch.calls.last();
        lemma_with_sprite(last, batch.capacity, sprite);
        lemma_same_calls(batch, after, (n - 1) as nat);
        lemma_counts_before(batch, (n - 1) as nat);
        assert(after.calls[n - 1] == last.with_sprite(sprite));
        assert(after.sprites() == batch.sprites_before((n - 1) as nat) + last.with_sprite(sprite).sprites());
        assert(batch.sprites() == batch.sprites_before((n - 1) as nat) + last.sprites());
    } else {
        lemma_same_calls(batch, after, n);
        assert(after.calls[n as int] == DrawCallView::opened(sprite));
        assert(after.sprites() == batch.sprites() + DrawCallView::opened(sprite).sprites());
    }
}

/// Drawing sprites one after the other leaves a well-formed batch well
/// formed, and neither starts nor ends the recording of a frame.
pub proof fn lemma_drawn_all_wf(batch: BatchView, sprites: Seq<SpriteView>)
    requires
        batch.wf(),
    ensures
        batch.drawn_all(sprites).wf(),
        batch.drawn_all(sprites).drawing == batch.drawing,
    decreases sprites.len(),
{
    if sprites.len() > 0 {
        lemma_drawn_all_wf(batch, sprites.drop_last());
        lemma_record_wf(batch.drawn_all(sprites.drop_last()), sprites.last());
    }
}

/// Whatever sprites are drawn between one `begin` and the `end` after it, the
/// draw calls then hold four vertices and six indices for each sprite.
pub proof fn law_geometry_counts(batch: BatchView, sprites: Seq<SpriteView>)
    requires
        !batch.drawing,
    ensures
        batch.begun().drawn_all(sprites).vertex_count() == 4 * sprites.len(),
        batch.begun().drawn_all(sprites).index_count() == 6 * sprites.len(),
        batch.begun().drawn_all(sprites).quad_count() == sprites.len(),
    decreases sprites.len(),
{
    let start = batch.begun();
    if sprites.len() > 0 {
        law_geometry_counts(batch, sprites.drop_last());
        lemma_drawn_all_wf(start, sprites.drop_last());
        lemma_record(start.drawn_all(sprites.drop_last()), sprites.last());
    }
}

/// Every index of a draw call names one of the draw call's own vertices.
pub proof fn law_indices_in_range(call: DrawCallView)
    ensures
        call.indices().len() == 6 * call.quads.len(),
        call.vertices().len() == 4 * call.quads.len(),
        forall|i: int| 0 <= i < call.indices().len() ==> 0 <= #[trigger] call.indices()[i] < call.vertices().len(),
{
}

/// Drawing sprites neither starts nor ends the recording of a frame.
pub proof fn lemma_drawn_all_drawing(batch: BatchView, sprites: Seq<SpriteView>)
    ensures
        batch.drawn_all(sprites).drawing == batch.drawing,
    decreases sprites.len(),
{
    if sprites.len() > 0 {
        lemma_drawn_all_drawing(batch, sprites.drop_last());
    }
}

/// A second `begin` without an `end` between the two fails with
/// `BatchIsDrawing` and leaves untouched what was recorded since the first,
/// whatever sprites were drawn between the two.
pub proof fn law_begin_twice(batch: BatchView, sprites: Seq<SpriteView>)
    ensures
        batch.begun().drawn_all(sprites).begin_result() == Err::<(), BatchError>(BatchError::BatchIsDrawing),
        batch.begun().drawn_all(sprites).begun() == batch.begun().drawn_all(sprites),
{
    lemma_drawn_all_drawing(batch.begun(), sprites);
}

/// An `end` without a `begin` before it fails with `BatchNotDrawing` and
/// changes nothing: on an idle batch, and so on a new batch and after any
/// `end`.
pub proof fn law_end_without_begin(batch: BatchView, max_bind_groups: u32, frame_acquired: bool, again: bool)
    ensures
        Batch::initial(max_bind_groups).end_result(frame_acquired) == Err::<Seq<Command>, BatchError>(
            BatchError::BatchNotDrawing,
        ),
        !batch.drawing ==> batch.end_result(frame_acquired) == Err::<Seq<Command>, BatchError>(
            BatchError::BatchNotDrawing,
        ) && batch.ended(frame_acquired) == batch,
        batch.ended(frame_acquired).end_result(again) == Err::<Seq<Command>, BatchError>(
            BatchError::BatchNotDrawing,
        ),
{
}

/// A frame in which no sprite is drawn ends well, whether a render target is
/// acquired or not: it submits nothing and issues no draw call.
pub proof fn law_empty_frame(batch: BatchView, frame_acquired: bool)
    requires
        !batch.drawing,
    ensures
        batch.begun().end_result(frame_acquired) == Ok::<Seq<Command>, BatchError>(Seq::empty()),
        batch.begun().ended(frame_acquired).flushed == 0,
        batch.begun().ended(frame_acquired).calls.len() == 0,
        !batch.begun().ended(frame_acquired).drawing,
{
}

/// How many commands the submission of one draw call takes with `capacity`
/// texture slots: two uploads, the camera, one texture for each slot, the
/// two buffers and the draw.
pub open spec fn submission_len(capacity: u32) -> int {
    capacity + 6
}

/// The submissions of the first draw calls stand one after the other, each
/// in full.
proof fn lemma_submission_at(batch: BatchView, n: nat, k: int)
    requires
        0 <= k < n <= batch.calls.len(),
    ensures
        batch.submissions(n).len() == n * submission_len(batch.capacity),
        batch.submissions(n).subrange(
            k * submission_len(batch.capacity),
            (k + 1) * submission_len(batch.capacity),
        ) == batch.submission(k),
    decreases n,
{
    let len = submission_len(batch.capacity);
    lemma_submissions_len(batch, n);
    lemma_submissions_len(batch, k as nat);
    assert((k + 1) * len == k * len + len) by (nonlinear_arith);
    assert(batch.submission(n - 1).len() == len);
    if n == k + 1 {
        assert(batch.submissions(n).subrange(k * len, (k + 1) * len) =~= batch.submission(k));
    } else {
        lemma_submission_at(batch, (n - 1) as nat, k);
        lemma_submissions_len(batch, (n - 1) as nat);
        assert((k + 1) * len <= (n - 1) * len) by (nonlinear_arith)
            requires
                k + 1 <= n - 1,
                len >= 0,
        ;
        assert(batch.submissions(n).subrange(k * len, (k + 1) * len) =~= batch.submissions((n - 1) as nat).subrange(
            k * len,
            (k + 1) * len,
        ));
    }
}

/// The submissions of the first `n` draw calls take as many commands as `n`
/// submissions do.
proof fn lemma_submissions_len(batch: BatchView, n: nat)
    requires
        n <= batch.calls.len(),
    ensures
        batch.submissions(n).len() == n * submission_len(batch.capacity),
    decreases n,
{
    let len = submission_len(batch.capacity);
    if n > 0 {
        lemma_submissions_len(batch, (n - 1) as nat);
        assert(batch.submission(n - 1).len() == len);
        assert(n * len == (n - 1) * len + len) by (nonlinear_arith);
    }
}

/// The submission of a frame takes the draw calls in the order in which
/// they were opened: after the pipeline, the commands of the `k`-th draw
/// call stand in the `k`-th place, in full and nowhere else, so that no
/// draw call is left out, drawn twice or moved.
pub proof fn law_submission_order(batch: BatchView, k: int)
    requires
        0 <= k < batch.calls.len(),
    ensures
        batch.plan().len() == 1 + batch.calls.len() * submission_len(batch.capacity),
        batch.plan()[0] == Command::SetPipeline,
        batch.plan().subrange(
            1 + k * submission_len(batch.capacity),
            1 + (k + 1) * submission_len(batch.capacity),
        ) == batch.submission(k),
{
    let len = submission_len(batch.capacity);
    let n = batch.calls.len();
    lemma_submission_at(batch, n, k);
    assert((k + 1) * len == k * len + len) by (nonlinear_arith);
    assert((k + 1) * len <= n * len) by (nonlinear_arith)
        requires
            k + 1 <= n,
            len >= 0,
    ;
    assert(batch.plan().subrange(1 + k * len, 1 + (k + 1) * len) =~= batch.submissions(n).subrange(
        k * len,
        (k + 1) * len,
    ));
}

/// The draw calls of a frame, taken in the order in which they are issued,
/// draw the sprites in the order in which they were drawn: no sprite is left
/// out, added or moved.
pub proof fn law_draw_order(batch: BatchView, sprites: Seq<SpriteView>)
    requires
        !batch.drawing,
    ensures
        same_sprites(batch.begun().drawn_all(sprites).sprites(), sprites),
    decreases sprites.len(),
{
    let start = batch.begun();
    if sprites.len() > 0 {
        let before = start.drawn_all(sprites.drop_last());
        law_draw_order(batch, sprites.drop_last());
        lemma_drawn_all_wf(start, sprites.drop_last());
        lemma_record(before, sprites.last());
        let after = before.drawn(sprites.last());
        assert forall|k: int| 0 <= k < after.sprites().len() implies (#[trigger] after.sprites()[k]).texture.same(
            sprites[k].texture,
        ) && after.sprites()[k].target == sprites[k].target && after.sprites()[k].color == sprites[k].color by {
            if k < before.sprites().len() {
                assert(after.sprites()[k] == before.sprites()[k]);
                assert(sprites.drop_last()[k] == sprites[k]);
            } else {
                assert(before.sprites().push(sprites.last())[k] == sprites.last());
            }
        }
    }
}

} // verus!

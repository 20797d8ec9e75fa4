use adore::errors::BatchError;
use adore::{
    Batch, Camera, Color, Command, Position, Rectangle, Size, Sprite, Texture, TextureRegistry, Vertex,
};

fn sprite(id: u64) -> Sprite {
    Sprite::new(Texture::new(id, 16, 8))
}

fn ids(textures: &[Texture]) -> Vec<u64> {
    textures.iter().map(|texture| texture.id()).collect()
}

#[test]
fn five_sprites_on_two_slots_make_two_draw_calls() {
    let (a, b, c) = (sprite(1), sprite(2), sprite(3));
    let mut batch = Batch::new(3);
    assert_eq!(batch.capacity(), 2);
    assert_eq!(batch.begin(), Ok(()));
    for drawn in [&a, &a, &b, &c, &a] {
        batch.draw_sprite(drawn);
    }
    {
        let calls = batch.recorded();
        assert_eq!(calls.len(), 2);
        assert_eq!(ids(calls[0].textures()), vec![1, 2]);
        assert_eq!(calls[0].quads(), 3);
        assert_eq!(ids(calls[1].textures()), vec![3, 1]);
        assert_eq!(calls[1].quads(), 2);
        let slots: Vec<u32> = calls[0].vertices().iter().map(|v| v.texture_index).collect();
        assert_eq!(slots, vec![0, 0, 0, 0, 0, 0, 0, 0, 1, 1, 1, 1]);
        let slots: Vec<u32> = calls[1].vertices().iter().map(|v| v.texture_index).collect();
        assert_eq!(slots, vec![0, 0, 0, 0, 1, 1, 1, 1]);
    }
    assert!(batch.end(true).is_ok());
    assert_eq!(batch.draw_calls(), 2);
}

#[test]
fn a_bound_texture_is_found_in_a_full_draw_call() {
    let (a, b, c) = (sprite(1), sprite(2), sprite(3));
    let mut batch = Batch::new(3);
    batch.begin().unwrap();
    for drawn in [&a, &b, &b, &a, &c] {
        batch.draw_sprite(drawn);
    }
    let calls = batch.recorded();
    assert_eq!(calls.len(), 2);
    assert_eq!(ids(calls[0].textures()), vec![1, 2]);
    assert_eq!(calls[0].quads(), 4);
    assert_eq!(calls[0].vertices()[8].texture_index, 1);
    assert_eq!(calls[0].vertices()[12].texture_index, 0);
    assert_eq!(ids(calls[1].textures()), vec![3]);
}

#[test]
fn vertex_and_index_counts_follow_the_sprite_count() {
    let sprites: Vec<Sprite> = (0..7).map(|i| sprite(i % 4)).collect();
    let mut batch = Batch::new(3);
    batch.begin().unwrap();
    for (drawn, one) in sprites.iter().enumerate() {
        batch.draw_sprite(one);
        let vertices: usize = batch.recorded().iter().map(|call| call.vertices().len()).sum();
        let indices: usize = batch.recorded().iter().map(|call| call.indices().len()).sum();
        assert_eq!(vertices, 4 * (drawn + 1));
        assert_eq!(indices, 6 * (drawn + 1));
    }
}

#[test]
fn indices_stay_below_the_vertex_count_of_their_draw_call() {
    let mut batch = Batch::new(2);
    batch.begin().unwrap();
    for i in 0..9 {
        batch.draw_sprite(&sprite(i / 3));
    }
    assert_eq!(batch.recorded().len(), 3);
    for call in batch.recorded() {
        assert_eq!(call.vertices().len(), 12);
        assert!(call.indices().iter().all(|&index| (index as usize) < call.vertices().len()));
    }
}

#[test]
fn a_quad_has_its_corners_in_order_and_v_flipped() {
    let mut one = sprite(9);
    one.set_target(Rectangle::new(10, 20, 30, 40));
    one.set_color(Color::new(1, 2, 3, 4));
    let mut batch = Batch::new(4);
    batch.begin().unwrap();
    batch.draw_sprite(&one);
    let call = &batch.recorded()[0];
    let corner = |x: i128, y: i128, u: u32, v: u32| Vertex {
        position: Position { x, y },
        color: Color::new(1, 2, 3, 4),
        texcoord: Position { x: u, y: v },
        texture_index: 0,
    };
    assert_eq!(
        call.vertices(),
        &vec![corner(10, 20, 0, 1), corner(10, 60, 0, 0), corner(40, 60, 1, 0), corner(40, 20, 1, 1)]
    );
    assert_eq!(call.indices(), &vec![0, 2, 1, 0, 3, 2]);
}

#[test]
fn the_indices_of_the_second_quad_count_from_four() {
    let mut batch = Batch::new(4);
    batch.begin().unwrap();
    batch.draw_sprite(&sprite(1));
    batch.draw_sprite(&sprite(2));
    assert_eq!(batch.recorded()[0].indices(), &vec![0, 2, 1, 0, 3, 2, 4, 6, 5, 4, 7, 6]);
    assert_eq!(batch.recorded()[0].vertices()[4].texture_index, 1);
}

#[test]
fn a_quad_at_the_edge_of_the_coordinates_does_not_wrap() {
    let mut one = sprite(1);
    one.set_target(Rectangle::new(i64::MAX, i64::MIN, i64::MAX, i64::MIN));
    let mut batch = Batch::new(4);
    batch.begin().unwrap();
    batch.draw_sprite(&one);
    let vertices = batch.recorded()[0].vertices();
    assert_eq!(vertices[0].position, Position { x: 9223372036854775807, y: -9223372036854775808 });
    assert_eq!(vertices[2].position, Position { x: 18446744073709551614, y: -18446744073709551616 });
}

#[test]
fn begin_twice_fails_and_keeps_what_was_recorded() {
    let mut batch = Batch::new(3);
    assert_eq!(batch.begin(), Ok(()));
    batch.draw_sprite(&sprite(1));
    batch.draw_sprite(&sprite(2));
    assert_eq!(batch.begin(), Err(BatchError::BatchIsDrawing));
    assert!(batch.is_drawing());
    assert_eq!(batch.recorded().len(), 1);
    assert_eq!(batch.recorded()[0].quads(), 2);
    assert_eq!(ids(batch.recorded()[0].textures()), vec![1, 2]);
    assert_eq!(batch.draw_calls(), 0);
}

#[test]
fn end_without_begin_fails() {
    let mut batch = Batch::new(3);
    assert_eq!(batch.end(true), Err(BatchError::BatchNotDrawing));
    assert_eq!(batch.end(false), Err(BatchError::BatchNotDrawing));
    batch.begin().unwrap();
    assert!(batch.end(true).is_ok());
    assert_eq!(batch.end(true), Err(BatchError::BatchNotDrawing));
    assert!(!batch.is_drawing());
}

#[test]
fn an_empty_frame_ends_well_without_a_draw_call() {
    let mut batch = Batch::new(3);
    batch.begin().unwrap();
    assert_eq!(batch.end(true), Ok(vec![]));
    assert_eq!(batch.draw_calls(), 0);
    batch.begin().unwrap();
    assert_eq!(batch.end(false), Ok(vec![]));
    assert_eq!(batch.draw_calls(), 0);
    assert!(!batch.is_drawing());
}

#[test]
fn the_draw_order_is_kept_across_draw_calls() {
    let mut back = sprite(1);
    back.set_target(Rectangle::new(0, 0, 10, 10));
    let mut front = sprite(2);
    front.set_target(Rectangle::new(5, 5, 10, 10));
    for max_bind_groups in [1, 2, 3] {
        let mut batch = Batch::new(max_bind_groups);
        batch.begin().unwrap();
        batch.draw_sprite(&back);
        batch.draw_sprite(&front);
        let mut drawn = vec![];
        for call in batch.recorded() {
            for quad in call.vertices().chunks(4) {
                let texture = call.textures()[quad[0].texture_index as usize].id();
                drawn.push((texture, quad[0].position.x, quad[0].position.y));
            }
        }
        assert_eq!(drawn, vec![(1, 0, 0), (2, 5, 5)]);
        assert_eq!(batch.recorded().len(), if max_bind_groups == 3 { 1 } else { 2 });
    }
}

#[test]
fn without_a_texture_slot_to_spare_each_new_texture_opens_a_draw_call() {
    let mut batch = Batch::new(1);
    assert_eq!(batch.capacity(), 0);
    batch.begin().unwrap();
    for id in [1, 1, 2, 1] {
        batch.draw_sprite(&sprite(id));
    }
    let quads: Vec<usize> = batch.recorded().iter().map(|call| call.quads()).collect();
    assert_eq!(quads, vec![2, 1, 1]);
    let commands = batch.end(true).unwrap();
    assert!(commands.iter().all(|command| !matches!(command, Command::SetTexture { .. })));
    assert_eq!(batch.draw_calls(), 3);
}

#[test]
fn the_flush_submits_each_draw_call_in_order() {
    let (a, b) = (sprite(1), sprite(2));
    let mut batch = Batch::new(2);
    batch.begin().unwrap();
    batch.draw_sprite(&a);
    batch.draw_sprite(&a);
    batch.draw_sprite(&b);
    let commands = batch.end(true).unwrap();
    assert_eq!(
        commands,
        vec![
            Command::SetPipeline,
            Command::UploadVertices { draw_call: 0 },
            Command::UploadIndices { draw_call: 0, count: 12 },
            Command::SetUniform { group: 0 },
            Command::SetTexture { group: 1, texture: Some(a.texture()) },
            Command::SetVertexBuffer { slot: 0, draw_call: 0 },
            Command::SetIndexBuffer { draw_call: 0 },
            Command::DrawIndexed { first: 0, end: 12, base_vertex: 0, instances: 1 },
            Command::UploadVertices { draw_call: 1 },
            Command::UploadIndices { draw_call: 1, count: 6 },
            Command::SetUniform { group: 0 },
            Command::SetTexture { group: 1, texture: Some(b.texture()) },
            Command::SetVertexBuffer { slot: 0, draw_call: 1 },
            Command::SetIndexBuffer { draw_call: 1 },
            Command::DrawIndexed { first: 0, end: 6, base_vertex: 0, instances: 1 },
        ]
    );
    assert_eq!(batch.draw_calls(), 2);
}

#[test]
fn free_slots_are_bound_to_the_blank_texture() {
    let a = sprite(7);
    let mut batch = Batch::new(4);
    batch.begin().unwrap();
    batch.draw_sprite(&a);
    let commands = batch.end(true).unwrap();
    assert_eq!(
        commands[4..7],
        [
            Command::SetTexture { group: 1, texture: Some(a.texture()) },
            Command::SetTexture { group: 2, texture: None },
            Command::SetTexture { group: 3, texture: None },
        ]
    );
    assert_eq!(commands.len(), 10);
    assert_eq!(commands[0], Command::SetPipeline);
    assert_eq!(commands[3], Command::SetUniform { group: 0 });
}

#[test]
fn a_frame_without_a_render_target_fails_and_the_next_one_starts_clean() {
    let mut batch = Batch::new(3);
    batch.begin().unwrap();
    batch.draw_sprite(&sprite(1));
    assert!(batch.end(true).is_ok());
    assert_eq!(batch.draw_calls(), 1);
    batch.begin().unwrap();
    batch.draw_sprite(&sprite(1));
    batch.draw_sprite(&sprite(2));
    batch.draw_sprite(&sprite(3));
    assert_eq!(batch.end(false), Err(BatchError::FrameIsNone));
    assert!(!batch.is_drawing());
    assert_eq!(batch.draw_calls(), 1);
    assert_eq!(batch.recorded().len(), 2);
    assert_eq!(batch.begin(), Ok(()));
    assert_eq!(batch.recorded().len(), 0);
}

#[test]
fn a_sprite_drawn_outside_a_frame_is_dropped() {
    let mut batch = Batch::new(3);
    batch.draw_sprite(&sprite(1));
    assert_eq!(batch.recorded().len(), 0);
    batch.begin().unwrap();
    batch.draw_sprite(&sprite(1));
    batch.end(true).unwrap();
    batch.draw_sprite(&sprite(2));
    assert_eq!(batch.recorded().len(), 1);
    assert_eq!(batch.recorded()[0].quads(), 1);
}

#[test]
fn a_new_batch_is_idle() {
    assert_eq!(Batch::new(0).capacity(), 0);
    assert_eq!(Batch::new(1).capacity(), 0);
    assert_eq!(Batch::new(u32::MAX).capacity(), 4294967294);
    let batch = Batch::new(8);
    assert!(!batch.is_drawing());
    assert_eq!(batch.capacity(), 7);
    assert_eq!(batch.draw_calls(), 0);
    assert_eq!(batch.camera(), Camera::for_viewport(Size { width: 1280, height: 720 }));
}

#[test]
fn resizing_points_the_camera_at_the_new_viewport() {
    let full = Rectangle::new(0, 0, 640, 480);
    let mut batch = Batch::new(3);
    assert!(!batch.camera().covers(full));
    batch.resize(Size { width: 640, height: 480 });
    let camera = batch.camera();
    assert!(camera.covers(full));
    assert_eq!(
        (camera.projection.left, camera.projection.right, camera.projection.bottom, camera.projection.top),
        (0, 640, 0, 480)
    );
    assert_eq!((camera.projection.near, camera.projection.far), (0, 1));
    assert_eq!((camera.view.eye.x, camera.view.eye.y, camera.view.eye.z), (0, 0, 1));
    assert_eq!((camera.view.center.x, camera.view.center.y, camera.view.center.z), (0, 0, 0));
    assert_eq!((camera.view.up.x, camera.view.up.y, camera.view.up.z), (0, 1, 0));
    assert!(!camera.covers(Rectangle::new(1, 0, 640, 480)));
    assert!(!camera.covers(Rectangle::new(0, 0, 639, 480)));
    assert!(camera.covers(Rectangle::new(-1, -1, 642, 482)));
}

#[test]
fn resizing_is_possible_while_idle_and_keeps_the_recording() {
    let mut batch = Batch::new(3);
    batch.begin().unwrap();
    batch.draw_sprite(&sprite(1));
    batch.resize(Size { width: 2, height: 3 });
    assert!(batch.is_drawing());
    assert_eq!(batch.recorded().len(), 1);
    batch.end(true).unwrap();
    batch.resize(Size { width: 4, height: 5 });
    assert_eq!(batch.camera(), Camera::for_viewport(Size { width: 4, height: 5 }));
    assert_eq!(batch.draw_calls(), 1);
}

#[test]
fn a_sprite_starts_at_the_origin_as_large_as_its_texture_and_white() {
    let texture = Texture::new(5, 64, 32);
    let one = Sprite::new(texture);
    assert_eq!(one.target(), Rectangle::new(0, 0, 64, 32));
    let largest = Sprite::new(Texture::new(6, u32::MAX, u32::MAX));
    assert_eq!(largest.target(), Rectangle::new(0, 0, 4294967295, 4294967295));
    assert_eq!(one.color(), Color::new(255, 255, 255, 255));
    assert_eq!(one.color(), Color::default());
    assert_eq!(one.texture(), texture);
    assert_eq!((one.width(), one.height()), (64, 32));
}

#[test]
fn a_sprite_can_be_moved_and_tinted() {
    let mut one = Sprite::new(Texture::new(5, 64, 32));
    one.target_mut().x = 7;
    one.target_mut().height = 9;
    assert_eq!(one.target(), Rectangle::new(7, 0, 64, 9));
    one.set_target(Rectangle::new(1, 2, 3, 4));
    assert_eq!(one.target(), Rectangle::new(1, 2, 3, 4));
    one.color_mut().a = 0;
    assert_eq!(one.color(), Color::new(255, 255, 255, 0));
    one.set_color(Color::new(9, 8, 7, 6));
    assert_eq!(one.color(), Color::new(9, 8, 7, 6));
    assert_eq!((one.width(), one.height()), (64, 32));
    assert_eq!(one.texture().id(), 5);
}

#[test]
fn textures_are_told_apart_by_their_identity() {
    let a = Texture::new(1, 4, 4);
    assert!(a.is(&Texture::new(1, 8, 8)));
    assert!(!a.is(&Texture::new(2, 4, 4)));
    assert_eq!((a.id(), a.width(), a.height()), (1, 4, 4));
}

#[test]
fn each_error_says_what_went_wrong() {
    assert_eq!(BatchError::BatchIsDrawing.message(), "Batch is already drawing");
    assert_eq!(BatchError::BatchNotDrawing.message(), "Batch is not drawing");
    assert_eq!(BatchError::FrameIsNone.message(), "Frame is None");
}

#[test]
fn a_draw_call_counts_its_indices_from_its_vertices() {
    let mut batch = Batch::new(3);
    batch.begin().unwrap();
    for id in [4, 5, 4] {
        batch.draw_sprite(&sprite(id));
    }
    let call = &batch.recorded()[0];
    assert_eq!(call.index_offset(), 12);
    assert_eq!(call.current_texture(), 4);
    assert_eq!(call.vertices().len(), 12);
}

#[test]
fn a_registry_hands_out_each_identity_once() {
    let mut registry = TextureRegistry::new();
    assert_eq!(registry.len(), 0);
    let first = registry.register(16, 8).unwrap();
    let second = registry.register(16, 8).unwrap();
    assert_eq!(first, Texture::new(0, 16, 8));
    assert_eq!(second, Texture::new(1, 16, 8));
    assert!(!first.is(&second));
    assert_eq!(registry.register(1, 2), Some(Texture::new(2, 1, 2)));
    assert_eq!(registry.len(), 3);
}

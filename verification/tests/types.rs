use adore::{Color, Delta, Position, Rectangle, Size};

#[test]
fn a_rectangle_keeps_its_fields() {
    let r = Rectangle::new(1, 2, 3, 4);
    assert_eq!((r.x, r.y, r.width, r.height), (1, 2, 3, 4));
}

#[test]
fn a_color_keeps_its_channels_in_order() {
    let c = Color::new(1u8, 2, 3, 4);
    assert_eq!((c.r, c.g, c.b, c.a), (1, 2, 3, 4));
    let channels: [u8; 4] = c.into();
    assert_eq!(channels, [1, 2, 3, 4]);
}

#[test]
fn the_default_color_is_opaque_white() {
    assert_eq!(Color::<u8>::default(), Color::new(255, 255, 255, 255));
}

#[test]
fn sizes_convert_to_and_from_pairs() {
    let size: Size<u32> = (3, 4).into();
    assert_eq!(size, Size { width: 3, height: 4 });
    let pair: (u32, u32) = size.into();
    assert_eq!(pair, (3, 4));
    let array: [u32; 2] = size.into();
    assert_eq!(array, [3, 4]);
    assert_eq!(Size::<u32>::default(), Size { width: 0, height: 0 });
}

#[test]
fn positions_convert_to_and_from_pairs() {
    let position: Position<i64> = (5, -6).into();
    assert_eq!(position, Position { x: 5, y: -6 });
    let pair: (i64, i64) = position.into();
    assert_eq!(pair, (5, -6));
}

#[test]
fn deltas_convert_to_and_from_pairs() {
    let delta: Delta<i32> = (7, 8).into();
    assert_eq!(delta, Delta::new(7, 8));
    let pair: (i32, i32) = delta.into();
    assert_eq!(pair, (7, 8));
}

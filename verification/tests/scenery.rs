use fps_core::fixed::Vec3Fx;
use fps_core::scene::{palette, shape_position, uv_debug_texture_data};

#[test]
fn texture_is_eight_by_eight_rgba() {
    let data = uv_debug_texture_data();
    assert_eq!(data.len(), 8 * 8 * 4);
}

#[test]
fn texture_first_row_is_the_palette() {
    let data = uv_debug_texture_data();
    let pal = palette();
    assert_eq!(&data[0..32], &pal[..]);
}

#[test]
fn texture_rows_rotate_one_color_per_row() {
    let data = uv_debug_texture_data();
    let pal = palette();
    for y in 1..8usize {
        for i in 0..32usize {
            assert_eq!(data[32 * y + i], pal[(i + 32 - 4 * y) % 32]);
        }
    }
}

#[test]
fn texture_is_fully_opaque() {
    let data = uv_debug_texture_data();
    for k in 0..64usize {
        assert_eq!(data[4 * k + 3], 255);
    }
}

#[test]
fn shapes_stand_in_an_even_row() {
    // Seven shapes, as the scene spawns: spacing of 28 units over six gaps.
    let first = shape_position(0, 7);
    assert_eq!(first, Vec3Fx { x: -14_000, y: 2_000, z: 2_500 });
    let second = shape_position(1, 7);
    assert_eq!(second.x, -14_000 + 28_000 / 6);
    let last = shape_position(6, 7);
    assert_eq!(last.x, -14_000 + 6 * (28_000 / 6));
    assert_eq!(last.y, 2_000);
    assert_eq!(last.z, 2_500);
}

#[test]
fn two_shapes_stand_at_the_edges() {
    assert_eq!(shape_position(0, 2).x, -14_000);
    assert_eq!(shape_position(1, 2).x, 14_000);
}

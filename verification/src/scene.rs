//! Startup scene data: the decorative shape row and the procedural debug
//! texture.
//!
//! The shell spawns the meshes, colliders and lights; this module computes
//! the values they are built from — where each decorative shape stands, and
//! the bytes of the checkerboard-style texture painted on them.

use vstd::prelude::*;

use vstd::arithmetic::div_mod::{
    lemma_fundamental_div_mod, lemma_mod_mod, lemma_mod_multiples_vanish,
};

use crate::fixed::Vec3Fx;

verus! {

/// Half the width of the decorative shape row, in milli-units: the shapes
/// stand evenly spaced from `-SHAPES_X_EXTENT` to `SHAPES_X_EXTENT`.
pub const SHAPES_X_EXTENT: i64 = 14_000;

/// The height the shapes are spawned at, in milli-units (2 units up).
pub const SHAPE_HEIGHT: i64 = 2_000;

/// The depth of the shape row, in milli-units: the shapes stand at half
/// this forward offset (5 units of extent, so 2.5 units out).
pub const Z_EXTENT: i64 = 5_000;

/// Where the decorative shape `index` of `count` stands: the row spans
/// `[-SHAPES_X_EXTENT, SHAPES_X_EXTENT]` left to right at a fixed height
/// and forward offset, with one spacing step between neighbours.
pub fn shape_position(index: u64, count: u64) -> (r: Vec3Fx)
    requires
        2 <= count,
        index < count,
        count <= 1_000_000,
    ensures
        r.x == -SHAPES_X_EXTENT + index * ((2 * SHAPES_X_EXTENT) as int / (count - 1)),
        r.y == SHAPE_HEIGHT,
        r.z == Z_EXTENT as int / 2,
        -SHAPES_X_EXTENT <= r.x <= SHAPES_X_EXTENT,
{
    let spacing: u64 = 28_000 / (count - 1);
    proof {
        lemma_fundamental_div_mod(28_000, (count - 1) as int);
        assert(index * spacing <= 28_000) by (nonlinear_arith)
            requires
                0 <= index <= count - 1,
                0 <= spacing,
                (count - 1) * spacing <= 28_000,
        ;
    }
    let x: i64 = -14_000 + (index * spacing) as i64;
    Vec3Fx { x, y: SHAPE_HEIGHT, z: 2_500 }
}

/// The 32-byte palette the debug texture cycles through: eight RGBA
/// colors, each fully opaque.
pub open spec fn spec_palette() -> Seq<u8> {
    seq![
        255u8, 102u8, 159u8, 255u8, 255u8, 159u8, 102u8, 255u8, 236u8, 255u8, 102u8, 255u8, 121u8,
        255u8, 102u8, 255u8, 102u8, 255u8, 198u8, 255u8, 102u8, 198u8, 255u8, 255u8, 121u8, 102u8,
        255u8, 255u8, 236u8, 102u8, 255u8, 255u8,
    ]
}

/// The palette as bytes in memory.
pub fn palette() -> (r: Vec<u8>)
    ensures
        r@ == spec_palette(),
{
    let mut r: Vec<u8> = Vec::new();
    r.push(255);
    r.push(102);
    r.push(159);
    r.push(255);
    r.push(255);
    r.push(159);
    r.push(102);
    r.push(255);
    r.push(236);
    r.push(255);
    r.push(102);
    r.push(255);
    r.push(121);
    r.push(255);
    r.push(102);
    r.push(255);
    r.push(102);
    r.push(255);
    r.push(198);
    r.push(255);
    r.push(102);
    r.push(198);
    r.push(255);
    r.push(255);
    r.push(121);
    r.push(102);
    r.push(255);
    r.push(255);
    r.push(236);
    r.push(102);
    r.push(255);
    r.push(255);
    assert(r@ =~= spec_palette());
    r
}

/// Byte `k` of the debug texture: row `k / 32` reads the palette rotated
/// right by four bytes per row, so byte `k % 32` of the row comes from four
/// palette positions earlier per row, wrapped around.
pub open spec fn spec_texture_byte(k: int) -> u8 {
    spec_palette()[((k % 32) + 32 - 4 * (k / 32)) % 32]
}

/// The pixel bytes of the 8 by 8 RGBA debug test pattern: each row is the
/// palette rotated right by one color (four bytes) relative to the row
/// above.
pub fn uv_debug_texture_data() -> (r: Vec<u8>)
    ensures
        r@.len() == 256,
        forall|k: int| 0 <= k < 256 ==> r@[k] == spec_texture_byte(k),
{
    let pal = palette();
    let mut data: Vec<u8> = Vec::new();
    let mut k: usize = 0;
    while k < 256
        invariant
            pal@ == spec_palette(),
            data@.len() == k,
            k <= 256,
            forall|j: int| 0 <= j < k ==> data@[j] == spec_texture_byte(j),
        decreases 256 - k,
    {
        let idx: usize = ((k % 32) + 32 - 4 * (k / 32)) % 32;
        data.push(pal[idx]);
        k = k + 1;
    }
    data
}

/// Every alpha byte of the debug texture is 255: the pattern is fully
/// opaque. Alpha bytes are every fourth byte, and rotating the palette by
/// whole colors keeps alpha positions on alpha bytes, all of which the
/// palette holds at 255.
pub proof fn lemma_texture_alpha_opaque(k: int)
    requires
        0 <= k < 256,
        k % 4 == 3,
    ensures
        spec_texture_byte(k) == 255,
{
    let i: int = k % 32;
    let y: int = k / 32;
    let raw: int = i + 32 - 4 * y;
    let idx: int = raw % 32;
    lemma_mod_mod(k, 4, 8);
    assert(i % 4 == 3);
    assert(raw == 4 * (8 - y) + i);
    lemma_mod_multiples_vanish(8 - y, i, 4);
    assert(raw % 4 == i % 4);
    lemma_mod_mod(raw, 4, 8);
    assert(idx % 4 == raw % 4);
    assert(0 <= idx < 32);
    assert(idx == 3 || idx == 7 || idx == 11 || idx == 15 || idx == 19 || idx == 23 || idx == 27
        || idx == 31);
    assert(spec_palette()[3] == 255);
    assert(spec_palette()[7] == 255);
    assert(spec_palette()[11] == 255);
    assert(spec_palette()[15] == 255);
    assert(spec_palette()[19] == 255);
    assert(spec_palette()[23] == 255);
    assert(spec_palette()[27] == 255);
    assert(spec_palette()[31] == 255);
}

} // verus!

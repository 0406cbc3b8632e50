//! ARGB8888 color packing and unpacking.
//!
//! Every color in the pipeline is a packed 32-bit value laid out as
//! `0xAARRGGBB`. Packing and channel extraction are specified bit-exactly,
//! and unpacking then repacking an opaque color is proved to be the identity.

use vstd::prelude::*;

verus! {

/// Background clear color.
pub const BACKGROUND: u32 = 0xFF1E1E1E;
/// Grid overlay color.
pub const GRID: u32 = 0xFF333333;
/// Wireframe overlay color.
pub const WIREFRAME: u32 = 0xFF00FF00;
/// Vertex marker color.
pub const VERTEX: u32 = 0xFFFF0000;
/// Default fill color for untextured, unlit faces.
pub const FILL: u32 = 0xFFFFFFFF;
/// Magenta debug color.
pub const MAGENTA: u32 = 0xFFFF00FF;

/// The packed `0xAARRGGBB` value built from four 8-bit channels.
pub open spec fn pack_spec(a: u8, r: u8, g: u8, b: u8) -> u32 {
    ((a as u32) << 24) | ((r as u32) << 16) | ((g as u32) << 8) | (b as u32)
}

/// Alpha channel of a packed color.
pub open spec fn alpha_spec(c: u32) -> u8 {
    ((c >> 24) & 0xFF) as u8
}

/// Red channel of a packed color.
pub open spec fn red_spec(c: u32) -> u8 {
    ((c >> 16) & 0xFF) as u8
}

/// Green channel of a packed color.
pub open spec fn green_spec(c: u32) -> u8 {
    ((c >> 8) & 0xFF) as u8
}

/// Blue channel of a packed color.
pub open spec fn blue_spec(c: u32) -> u8 {
    (c & 0xFF) as u8
}

/// Pack four 8-bit channels into a `0xAARRGGBB` color.
pub fn pack_argb(a: u8, r: u8, g: u8, b: u8) -> (c: u32)
    ensures
        c == pack_spec(a, r, g, b),
{
    ((a as u32) << 24u32) | ((r as u32) << 16u32) | ((g as u32) << 8u32) | (b as u32)
}

/// Alpha channel of a packed color.
pub fn alpha_of(c: u32) -> (r: u8)
    ensures
        r == alpha_spec(c),
{
    proof {
        assert((c >> 24) & 0xFF < 256) by (bit_vector);
    }
    ((c >> 24u32) & 0xFF) as u8
}

/// Red channel of a packed color.
pub fn red_of(c: u32) -> (r: u8)
    ensures
        r == red_spec(c),
{
    proof {
        assert((c >> 16) & 0xFF < 256) by (bit_vector);
    }
    ((c >> 16u32) & 0xFF) as u8
}

/// Green channel of a packed color.
pub fn green_of(c: u32) -> (r: u8)
    ensures
        r == green_spec(c),
{
    proof {
        assert((c >> 8) & 0xFF < 256) by (bit_vector);
    }
    ((c >> 8u32) & 0xFF) as u8
}

/// Blue channel of a packed color.
pub fn blue_of(c: u32) -> (r: u8)
    ensures
        r == blue_spec(c),
{
    proof {
        assert(c & 0xFF < 256) by (bit_vector);
    }
    (c & 0xFF) as u8
}

/// Packing four channels and reading them back returns the same channels.
pub proof fn lemma_pack_then_unpack(a: u8, r: u8, g: u8, b: u8)
    ensures
        alpha_spec(pack_spec(a, r, g, b)) == a,
        red_spec(pack_spec(a, r, g, b)) == r,
        green_spec(pack_spec(a, r, g, b)) == g,
        blue_spec(pack_spec(a, r, g, b)) == b,
{
    assert(alpha_spec(pack_spec(a, r, g, b)) == a) by (bit_vector);
    assert(red_spec(pack_spec(a, r, g, b)) == r) by (bit_vector);
    assert(green_spec(pack_spec(a, r, g, b)) == g) by (bit_vector);
    assert(blue_spec(pack_spec(a, r, g, b)) == b) by (bit_vector);
}

/// Unpacking a fully opaque color to its channels and repacking it with full
/// alpha yields the original color.
pub proof fn lemma_unpack_then_pack_opaque(c: u32)
    requires
        alpha_spec(c) == 255,
    ensures
        pack_spec(255, red_spec(c), green_spec(c), blue_spec(c)) == c,
{
    assert(alpha_spec(c) == 255 ==> pack_spec(255, red_spec(c), green_spec(c), blue_spec(c))
        == c) by (bit_vector);
}

} // verus!

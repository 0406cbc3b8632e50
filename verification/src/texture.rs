//! 2D textures: an ARGB pixel grid with exact nearest-neighbor fetch.
//!
//! Storage is a flat row-major array of packed colors with top-left origin.
//! The host decodes an image file, converts its bytes through
//! [`pixels_from_rgba`], and builds the [`Texture`]; sampling reduces
//! normalized coordinates to a pixel address and reads it with
//! [`Texture::texel_clamped`].

use vstd::prelude::*;

use crate::colors::{pack_argb, pack_spec};
use crate::framebuffer::lemma_index_in_range;
use crate::mesh::LoadError;

verus! {

/// A 2D texture: a width x height grid of packed ARGB colors, row-major
/// with top-left origin.
#[derive(Debug)]
pub struct Texture {
    data: Vec<u32>,
    width: u32,
    height: u32,
}

impl Texture {
    /// The pixel grid, row-major from the top-left pixel.
    pub closed spec fn pixels(&self) -> Seq<u32> {
        self.data@
    }

    /// Texture width in pixels.
    pub closed spec fn spec_width(&self) -> u32 {
        self.width
    }

    /// Texture height in pixels.
    pub closed spec fn spec_height(&self) -> u32 {
        self.height
    }

    /// A texture is non-empty, its pixel count matches its dimensions, and
    /// the count fits the machine's addressing.
    pub open spec fn wf(&self) -> bool {
        &&& self.pixels().len() == (self.spec_width() as int) * (self.spec_height() as int)
        &&& self.pixels().len() <= usize::MAX
        &&& self.spec_width() > 0
        &&& self.spec_height() > 0
    }

    /// Build a texture from decoded image data. Returns `Ok` exactly when
    /// both dimensions are nonzero and the pixel count matches them;
    /// otherwise the image did not decode to a usable grid.
    pub fn from_pixels(width: u32, height: u32, data: Vec<u32>) -> (r: Result<Texture, LoadError>)
        ensures
            match r {
                Ok(t) => {
                    &&& t.wf()
                    &&& t.spec_width() == width
                    &&& t.spec_height() == height
                    &&& t.pixels() == data@
                },
                Err(e) => {
                    &&& e == LoadError::ImageDecode
                    &&& !(width > 0 && height > 0 && data@.len() == (width as int) * (
                    height as int))
                },
            },
    {
        proof {
            assert((width as int) * (height as int) <= u64::MAX) by (nonlinear_arith)
                requires
                    width <= u32::MAX,
                    height <= u32::MAX,
            ;
        }
        let len = data.len();
        if width > 0 && height > 0 && len as u64 == (width as u64) * (height as u64) {
            Ok(Texture { data, width, height })
        } else {
            Err(LoadError::ImageDecode)
        }
    }

    /// Texture width in pixels.
    pub fn width(&self) -> (w: u32)
        ensures
            w == self.spec_width(),
    {
        self.width
    }

    /// Texture height in pixels.
    pub fn height(&self) -> (h: u32)
        ensures
            h == self.spec_height(),
    {
        self.height
    }

    /// The pixel stored at column `x` of row `y`.
    pub fn texel(&self, x: u32, y: u32) -> (c: u32)
        requires
            self.wf(),
            x < self.spec_width(),
            y < self.spec_height(),
        ensures
            c == self.pixels()[(y as int) * (self.spec_width() as int) + (x as int)],
    {
        proof {
            lemma_index_in_range(x as int, y as int, self.spec_width() as int, self.spec_height() as int);
        }
        let idx: usize = (y as usize) * (self.width as usize) + (x as usize);
        self.data[idx]
    }

    /// The pixel at `(x, y)` with both coordinates clamped to the last
    /// column and row, as nearest-neighbor sampling requires at the edge.
    pub fn texel_clamped(&self, x: u32, y: u32) -> (c: u32)
        requires
            self.wf(),
        ensures
            c == {
                let cx = if x < self.spec_width() {
                    x as int
                } else {
                    self.spec_width() - 1
                };
                let cy = if y < self.spec_height() {
                    y as int
                } else {
                    self.spec_height() - 1
                };
                self.pixels()[cy * (self.spec_width() as int) + cx]
            },
    {
        let cx = if x < self.width {
            x
        } else {
            self.width - 1
        };
        let cy = if y < self.height {
            y
        } else {
            self.height - 1
        };
        self.texel(cx, cy)
    }
}

/// Convert decoded RGBA bytes, four per pixel in `[r, g, b, a]` order, into
/// packed `0xAARRGGBB` colors, one per pixel, in the same order.
pub fn pixels_from_rgba(bytes: &Vec<u8>) -> (r: Vec<u32>)
    requires
        bytes@.len() % 4 == 0,
    ensures
        r@.len() == bytes@.len() / 4,
        forall|i: int|
            0 <= i < r@.len() ==> r@[i] == pack_spec(
                bytes@[4 * i + 3],
                bytes@[4 * i],
                bytes@[4 * i + 1],
                bytes@[4 * i + 2],
            ),
{
    let count = bytes.len() / 4;
    let mut out: Vec<u32> = Vec::new();
    let mut i: usize = 0;
    while i < count
        invariant
            bytes@.len() <= usize::MAX,
            bytes@.len() % 4 == 0,
            count == bytes@.len() / 4,
            i <= count,
            out@.len() == i,
            forall|k: int|
                0 <= k < i ==> out@[k] == pack_spec(
                    bytes@[4 * k + 3],
                    bytes@[4 * k],
                    bytes@[4 * k + 1],
                    bytes@[4 * k + 2],
                ),
        decreases count - i,
    {
        proof {
            assert(bytes@.len() == 4 * count);
        }
        let red = bytes[4 * i];
        let green = bytes[4 * i + 1];
        let blue = bytes[4 * i + 2];
        let alpha = bytes[4 * i + 3];
        out.push(pack_argb(alpha, red, green, blue));
        i += 1;
    }
    out
}

} // verus!

//! Color and depth buffers with bounds-checked, depth-tested pixel writes.
//!
//! The depth buffer enables hidden-surface removal: each pixel stores a depth
//! key, and a write lands only when its key is strictly greater than the one
//! already stored. The pipeline uses the reciprocal of the clip-space `w` as
//! the depth (larger means closer to the camera), handed to this module as an
//! ordered 32-bit key: for the nonnegative reciprocals the pipeline produces,
//! the IEEE-754 bit pattern of `1/w` orders exactly as the number itself, so
//! the buffer holds raw bit patterns and the test is an integer comparison.
//! A cleared pixel holds key 0, the pattern of `0.0`, meaning infinitely far.

use vstd::prelude::*;

use crate::colors::BACKGROUND;

verus! {

/// One depth-tested write against a stored `(depth, color)` pair: the write
/// lands if and only if its depth key is strictly greater than the stored one.
pub open spec fn depth_test_write(d: u32, c: u32, wd: u32, wc: u32) -> (u32, u32) {
    if wd > d {
        (wd, wc)
    } else {
        (d, c)
    }
}

/// The stored pair after a sequence of depth-tested writes, applied in order,
/// to one pixel that starts with depth `d0` and color `c0`. This is exactly
/// what repeated calls of [`FrameBuffer::set_pixel_with_depth`] on one
/// in-bounds pixel leave behind.
pub open spec fn run_depth_writes(d0: u32, c0: u32, ws: Seq<(u32, u32)>) -> (u32, u32)
    decreases ws.len(),
{
    if ws.len() == 0 {
        (d0, c0)
    } else {
        let prev = run_depth_writes(d0, c0, ws.drop_last());
        depth_test_write(prev.0, prev.1, ws.last().0, ws.last().1)
    }
}

/// The largest depth seen: the initial depth `d0` or the largest key among
/// the writes, whichever is greater.
pub open spec fn max_depth(d0: u32, ws: Seq<(u32, u32)>) -> u32
    decreases ws.len(),
{
    if ws.len() == 0 {
        d0
    } else {
        let m = max_depth(d0, ws.drop_last());
        if ws.last().0 > m {
            ws.last().0
        } else {
            m
        }
    }
}

/// Write `i` beats the initial depth, beats every write before it strictly,
/// and is beaten by no write: it is the first write carrying the maximum
/// depth of the whole sequence.
pub open spec fn is_winning_write(d0: u32, ws: Seq<(u32, u32)>, i: int) -> bool {
    &&& 0 <= i < ws.len()
    &&& ws[i].0 > d0
    &&& forall|j: int| 0 <= j < i ==> ws[j].0 < ws[i].0
    &&& forall|j: int| 0 <= j < ws.len() ==> ws[j].0 <= ws[i].0
}

/// `max_depth` bounds the initial depth and every write, and is attained by
/// the initial depth or by some write.
proof fn lemma_max_depth_bounds(d0: u32, ws: Seq<(u32, u32)>)
    ensures
        max_depth(d0, ws) >= d0,
        forall|j: int| 0 <= j < ws.len() ==> ws[j].0 <= max_depth(d0, ws),
        max_depth(d0, ws) == d0 || exists|j: int|
            0 <= j < ws.len() && ws[j].0 == max_depth(d0, ws),
    decreases ws.len(),
{
    if ws.len() > 0 {
        let prefix = ws.drop_last();
        lemma_max_depth_bounds(d0, prefix);
        assert forall|j: int| 0 <= j < ws.len() implies ws[j].0 <= max_depth(d0, ws) by {
            if j < ws.len() - 1 {
                assert(prefix[j] == ws[j]);
            }
        }
        if max_depth(d0, ws) != d0 {
            if ws.last().0 > max_depth(d0, prefix) {
                assert(ws[ws.len() - 1].0 == max_depth(d0, ws));
            } else {
                let j = choose|j: int| 0 <= j < prefix.len() && prefix[j].0 == max_depth(
                    d0,
                    prefix,
                );
                assert(ws[j].0 == max_depth(d0, ws));
            }
        }
    }
}

/// Depth-test monotonicity: over any sequence of depth-tested writes to one
/// pixel, the stored depth ends at the maximum depth seen, and the final
/// color is the color of the (unique) first write carrying that maximum — or
/// the initial color, when no write beat the initial depth.
pub proof fn lemma_depth_test_keeps_nearest(d0: u32, c0: u32, ws: Seq<(u32, u32)>)
    ensures
        run_depth_writes(d0, c0, ws).0 == max_depth(d0, ws),
        max_depth(d0, ws) == d0 ==> run_depth_writes(d0, c0, ws).1 == c0,
        max_depth(d0, ws) > d0 ==> exists|i: int|
            is_winning_write(d0, ws, i) && run_depth_writes(d0, c0, ws).1 == ws[i].1,
    decreases ws.len(),
{
    lemma_max_depth_bounds(d0, ws);
    if ws.len() > 0 {
        let prefix = ws.drop_last();
        let w = ws.last();
        lemma_depth_test_keeps_nearest(d0, c0, prefix);
        lemma_max_depth_bounds(d0, prefix);
        let prev = run_depth_writes(d0, c0, prefix);
        assert(forall|j: int| 0 <= j < prefix.len() ==> prefix[j] == ws[j]);
        assert(prev.0 == max_depth(d0, prefix));
        if w.0 > prev.0 {
            assert(is_winning_write(d0, ws, ws.len() - 1));
        } else {
            if max_depth(d0, prefix) > d0 {
                let i = choose|i: int|
                    is_winning_write(d0, prefix, i) && run_depth_writes(d0, c0, prefix).1
                        == prefix[i].1;
                // The winner of the prefix attains the prefix maximum, so the
                // appended write, which does not exceed it, leaves it winning.
                assert(max_depth(d0, prefix) <= ws[i].0);
                assert(is_winning_write(d0, ws, i));
            }
        }
    }
}

/// There is at most one winning write.
pub proof fn lemma_winning_write_unique(d0: u32, ws: Seq<(u32, u32)>, i: int, j: int)
    requires
        is_winning_write(d0, ws, i),
        is_winning_write(d0, ws, j),
    ensures
        i == j,
{
    if i < j {
        assert(ws[i].0 < ws[j].0);
        assert(ws[j].0 <= ws[i].0);
    }
    if j < i {
        assert(ws[j].0 < ws[i].0);
        assert(ws[i].0 <= ws[j].0);
    }
}

/// Distinct in-bounds pixel coordinates land on distinct buffer indices.
pub proof fn lemma_index_injective(x1: int, y1: int, x2: int, y2: int, w: int)
    requires
        0 <= x1 < w,
        0 <= x2 < w,
        0 <= y1,
        0 <= y2,
        !(x1 == x2 && y1 == y2),
    ensures
        y1 * w + x1 != y2 * w + x2,
{
    assert(y1 * w + x1 != y2 * w + x2) by (nonlinear_arith)
        requires
            0 <= x1 < w,
            0 <= x2 < w,
            0 <= y1,
            0 <= y2,
            !(x1 == x2 && y1 == y2),
    ;
}

/// An in-bounds pixel's buffer index lies inside the buffer.
pub proof fn lemma_index_in_range(x: int, y: int, w: int, h: int)
    requires
        0 <= x < w,
        0 <= y < h,
    ensures
        0 <= y * w + x < w * h,
{
    assert(0 <= y * w + x < w * h) by (nonlinear_arith)
        requires
            0 <= x < w,
            0 <= y < h,
    ;
}

/// A width x height color buffer paired with an equally sized depth buffer.
pub struct FrameBuffer {
    color: Vec<u32>,
    depth: Vec<u32>,
    width: u32,
    height: u32,
}

impl FrameBuffer {
    /// The color buffer contents, row-major from the top-left pixel.
    pub closed spec fn colors(&self) -> Seq<u32> {
        self.color@
    }

    /// The depth buffer contents, row-major from the top-left pixel.
    pub closed spec fn depths(&self) -> Seq<u32> {
        self.depth@
    }

    /// Buffer width in pixels.
    pub closed spec fn spec_width(&self) -> u32 {
        self.width
    }

    /// Buffer height in pixels.
    pub closed spec fn spec_height(&self) -> u32 {
        self.height
    }

    /// Number of pixels.
    pub open spec fn size(&self) -> int {
        (self.spec_width() as int) * (self.spec_height() as int)
    }

    /// Both buffers match the dimensions, and the dimensions fit the machine:
    /// coordinates are addressed as `i32` and the pixel count as `usize`.
    pub open spec fn wf(&self) -> bool {
        &&& self.colors().len() == self.size()
        &&& self.depths().len() == self.size()
        &&& self.spec_width() <= i32::MAX
        &&& self.spec_height() <= i32::MAX
        &&& self.size() <= usize::MAX
    }

    /// Whether `(x, y)` addresses a pixel of the buffer.
    pub open spec fn in_bounds(&self, x: int, y: int) -> bool {
        0 <= x < self.spec_width() && 0 <= y < self.spec_height()
    }

    /// Row-major buffer index of pixel `(x, y)`.
    pub open spec fn index_of(&self, x: int, y: int) -> int {
        y * (self.spec_width() as int) + x
    }

    /// Color currently stored at pixel `(x, y)`.
    pub open spec fn pixel(&self, x: int, y: int) -> u32 {
        self.colors()[self.index_of(x, y)]
    }

    /// Depth key currently stored at pixel `(x, y)`.
    pub open spec fn depth_at(&self, x: int, y: int) -> u32 {
        self.depths()[self.index_of(x, y)]
    }

    /// The two buffer dimensions are unchanged.
    pub open spec fn same_dims(&self, other: &FrameBuffer) -> bool {
        self.spec_width() == other.spec_width() && self.spec_height() == other.spec_height()
    }

    /// Create a buffer of the given dimensions, with every pixel holding the
    /// background color and the infinitely-far depth key 0.
    pub fn new(width: u32, height: u32) -> (fb: FrameBuffer)
        requires
            (width as int) * (height as int) <= usize::MAX,
            width <= i32::MAX,
            height <= i32::MAX,
        ensures
            fb.wf(),
            fb.spec_width() == width,
            fb.spec_height() == height,
            forall|i: int| 0 <= i < fb.size() ==> fb.colors()[i] == BACKGROUND,
            forall|i: int| 0 <= i < fb.size() ==> fb.depths()[i] == 0,
    {
        let size: usize = (width as usize) * (height as usize);
        FrameBuffer { color: filled(BACKGROUND, size), depth: filled(0, size), width, height }
    }

    /// Buffer width in pixels.
    pub fn width(&self) -> (w: u32)
        ensures
            w == self.spec_width(),
    {
        self.width
    }

    /// Buffer height in pixels.
    pub fn height(&self) -> (h: u32)
        ensures
            h == self.spec_height(),
    {
        self.height
    }

    /// The color buffer, for handing the finished frame to the host surface.
    pub fn color_data(&self) -> (r: &Vec<u32>)
        ensures
            r@ == self.colors(),
    {
        &self.color
    }

    /// Replace the buffers with freshly cleared ones of the new dimensions.
    pub fn resize(&mut self, width: u32, height: u32)
        requires
            (width as int) * (height as int) <= usize::MAX,
            width <= i32::MAX,
            height <= i32::MAX,
        ensures
            final(self).wf(),
            final(self).spec_width() == width,
            final(self).spec_height() == height,
            forall|i: int| 0 <= i < final(self).size() ==> final(self).colors()[i] == BACKGROUND,
            forall|i: int| 0 <= i < final(self).size() ==> final(self).depths()[i] == 0,
    {
        let size: usize = (width as usize) * (height as usize);
        self.color = filled(BACKGROUND, size);
        self.depth = filled(0, size);
        self.width = width;
        self.height = height;
    }

    /// Set every pixel of the color buffer to `color`; depths are untouched.
    pub fn clear(&mut self, color: u32)
        requires
            old(self).wf(),
        ensures
            final(self).wf(),
            final(self).same_dims(old(self)),
            final(self).depths() == old(self).depths(),
            forall|i: int| 0 <= i < final(self).size() ==> final(self).colors()[i] == color,
    {
        let len = self.color.len();
        let mut i: usize = 0;
        while i < len
            invariant
                len == self.colors().len(),
                i <= len,
                self.depth == old(self).depth,
                self.width == old(self).width,
                self.height == old(self).height,
                forall|j: int| 0 <= j < i ==> self.colors()[j] == color,
            decreases len - i,
        {
            self.color.set(i, color);
            i += 1;
        }
    }

    /// Set every depth key to 0, the infinitely-far clear value; colors are
    /// untouched.
    pub fn clear_depth(&mut self)
        requires
            old(self).wf(),
        ensures
            final(self).wf(),
            final(self).same_dims(old(self)),
            final(self).colors() == old(self).colors(),
            forall|i: int| 0 <= i < final(self).size() ==> final(self).depths()[i] == 0,
    {
        let len = self.depth.len();
        let mut i: usize = 0;
        while i < len
            invariant
                len == self.depths().len(),
                i <= len,
                self.color == old(self).color,
                self.width == old(self).width,
                self.height == old(self).height,
                forall|j: int| 0 <= j < i ==> self.depths()[j] == 0,
            decreases len - i,
        {
            self.depth.set(i, 0);
            i += 1;
        }
    }

    /// Write `color` at `(x, y)` without a depth test; out-of-bounds
    /// coordinates are silently dropped.
    pub fn set_pixel(&mut self, x: i32, y: i32, color: u32)
        requires
            old(self).wf(),
        ensures
            final(self).wf(),
            final(self).same_dims(old(self)),
            final(self).depths() == old(self).depths(),
            final(self).colors().len() == old(self).colors().len(),
            forall|px: int, py: int| old(self).in_bounds(px, py) ==> final(self).pixel(px, py) == (
            if px == x && py == y {
                color
            } else {
                old(self).pixel(px, py)
            }),
    {
        if x >= 0 && y >= 0 && x < self.width as i32 && y < self.height as i32 {
            proof {
                lemma_index_in_range(x as int, y as int, self.spec_width() as int, self.spec_height() as int);
            }
            let idx: usize = (y as usize) * (self.width as usize) + (x as usize);
            self.color.set(idx, color);
            proof {
                assert forall|px: int, py: int| old(self).in_bounds(px, py) implies self.pixel(
                    px,
                    py,
                ) == (if px == x && py == y {
                    color
                } else {
                    old(self).pixel(px, py)
                }) by {
                    lemma_index_in_range(px, py, self.spec_width() as int, self.spec_height() as int);
                    if !(px == x && py == y) {
                        lemma_index_injective(px, py, x as int, y as int, self.spec_width() as int);
                    }
                }
            }
        }
    }

    /// Depth-tested write at `(x, y)`: the color and depth land if and only
    /// if `(x, y)` is in bounds and `depth` is strictly greater than the key
    /// stored there. Out-of-bounds coordinates are silently dropped.
    pub fn set_pixel_with_depth(&mut self, x: i32, y: i32, depth: u32, color: u32)
        requires
            old(self).wf(),
        ensures
            final(self).wf(),
            final(self).same_dims(old(self)),
            final(self).colors().len() == old(self).colors().len(),
            final(self).depths().len() == old(self).depths().len(),
            forall|px: int, py: int| old(self).in_bounds(px, py) ==> final(self).pixel(px, py) == (
            if px == x && py == y {
                depth_test_write(old(self).depth_at(px, py), old(self).pixel(px, py), depth, color).1
            } else {
                old(self).pixel(px, py)
            }),
            forall|px: int, py: int| old(self).in_bounds(px, py) ==> final(self).depth_at(px, py)
                == (if px == x && py == y {
                depth_test_write(old(self).depth_at(px, py), old(self).pixel(px, py), depth, color).0
            } else {
                old(self).depth_at(px, py)
            }),
    {
        if x >= 0 && y >= 0 && x < self.width as i32 && y < self.height as i32 {
            proof {
                lemma_index_in_range(x as int, y as int, self.spec_width() as int, self.spec_height() as int);
            }
            let idx: usize = (y as usize) * (self.width as usize) + (x as usize);
            if depth > self.depth[idx] {
                self.depth.set(idx, depth);
                self.color.set(idx, color);
            }
            proof {
                assert forall|px: int, py: int| old(self).in_bounds(px, py) implies #[trigger] self
                    .pixel(px, py) == (if px == x && py == y {
                    depth_test_write(
                        old(self).depth_at(px, py),
                        old(self).pixel(px, py),
                        depth,
                        color,
                    ).1
                } else {
                    old(self).pixel(px, py)
                }) by {
                    lemma_index_in_range(px, py, self.spec_width() as int, self.spec_height() as int);
                    if !(px == x && py == y) {
                        lemma_index_injective(px, py, x as int, y as int, self.spec_width() as int);
                    }
                }
                assert forall|px: int, py: int| old(self).in_bounds(px, py) implies #[trigger] self
                    .depth_at(px, py) == (if px == x && py == y {
                    depth_test_write(
                        old(self).depth_at(px, py),
                        old(self).pixel(px, py),
                        depth,
                        color,
                    ).0
                } else {
                    old(self).depth_at(px, py)
                }) by {
                    lemma_index_in_range(px, py, self.spec_width() as int, self.spec_height() as int);
                    if !(px == x && py == y) {
                        lemma_index_injective(px, py, x as int, y as int, self.spec_width() as int);
                    }
                }
            }
        }
    }

    /// Fill the axis-aligned rectangle of the given size whose top-left
    /// corner is `(x, y)`, without depth testing; parts outside the buffer
    /// are silently dropped.
    pub fn draw_rect(&mut self, x: i32, y: i32, width: i32, height: i32, color: u32)
        requires
            old(self).wf(),
            x + width <= i32::MAX,
            y + height <= i32::MAX,
        ensures
            final(self).wf(),
            final(self).same_dims(old(self)),
            final(self).depths() == old(self).depths(),
            final(self).colors().len() == old(self).colors().len(),
            forall|px: int, py: int| old(self).in_bounds(px, py) ==> final(self).pixel(px, py) == (
            if x <= px < x + width && y <= py < y + height {
                color
            } else {
                old(self).pixel(px, py)
            }),
    {
        let mut dy: i32 = 0;
        while dy < height
            invariant
                self.wf(),
                self.same_dims(old(self)),
                self.depths() == old(self).depths(),
                self.colors().len() == old(self).colors().len(),
                0 <= dy,
                dy <= height || dy == 0,
                x + width <= i32::MAX,
                y + height <= i32::MAX,
                forall|px: int, py: int| old(self).in_bounds(px, py) ==> self.pixel(px, py) == (
                if x <= px < x + width && y <= py < y + dy {
                    color
                } else {
                    old(self).pixel(px, py)
                }),
            decreases height - dy,
        {
            let mut dx: i32 = 0;
            while dx < width
                invariant
                    self.wf(),
                    self.same_dims(old(self)),
                    self.depths() == old(self).depths(),
                    self.colors().len() == old(self).colors().len(),
                    0 <= dx,
                    dx <= width || dx == 0,
                    0 <= dy < height,
                    x + width <= i32::MAX,
                    y + height <= i32::MAX,
                    forall|px: int, py: int| old(self).in_bounds(px, py) ==> self.pixel(px, py)
                        == (if x <= px < x + width && y <= py < y + dy {
                        color
                    } else if py == y + dy && x <= px < x + dx {
                        color
                    } else {
                        old(self).pixel(px, py)
                    }),
                decreases width - dx,
            {
                self.set_pixel(x + dx, y + dy, color);
                dx += 1;
            }
            dy += 1;
        }
    }

    /// Paint every pixel whose column or row index is a multiple of
    /// `spacing` with `color`, leaving all other pixels untouched.
    pub fn draw_grid(&mut self, spacing: i32, color: u32)
        requires
            old(self).wf(),
            spacing > 0,
        ensures
            final(self).wf(),
            final(self).same_dims(old(self)),
            final(self).depths() == old(self).depths(),
            final(self).colors().len() == old(self).colors().len(),
            forall|px: int, py: int| old(self).in_bounds(px, py) ==> final(self).pixel(px, py) == (
            if px % (spacing as int) == 0 || py % (spacing as int) == 0 {
                color
            } else {
                old(self).pixel(px, py)
            }),
    {
        let h: i32 = self.height as i32;
        let w: i32 = self.width as i32;
        let mut y: i32 = 0;
        while y < h
            invariant
                self.wf(),
                self.same_dims(old(self)),
                self.depths() == old(self).depths(),
                self.colors().len() == old(self).colors().len(),
                spacing > 0,
                0 <= y <= h,
                w == self.spec_width() as i32,
                h == self.spec_height() as i32,
                forall|px: int, py: int| old(self).in_bounds(px, py) ==> self.pixel(px, py) == (
                if py < y && (px % (spacing as int) == 0 || py % (spacing as int) == 0) {
                    color
                } else {
                    old(self).pixel(px, py)
                }),
            decreases h - y,
        {
            let mut x: i32 = 0;
            while x < w
                invariant
                    self.wf(),
                    self.same_dims(old(self)),
                    self.depths() == old(self).depths(),
                    self.colors().len() == old(self).colors().len(),
                    spacing > 0,
                    0 <= y < h,
                    0 <= x <= w,
                    w == self.spec_width() as i32,
                    h == self.spec_height() as i32,
                    forall|px: int, py: int| old(self).in_bounds(px, py) ==> self.pixel(px, py)
                        == (if py < y && (px % (spacing as int) == 0 || py % (spacing as int)
                        == 0) {
                        color
                    } else if py == y && px < x && (px % (spacing as int) == 0 || py % (
                    spacing as int) == 0) {
                        color
                    } else {
                        old(self).pixel(px, py)
                    }),
                decreases w - x,
            {
                if x % spacing == 0 || y % spacing == 0 {
                    self.set_pixel(x, y, color);
                }
                x += 1;
            }
            y += 1;
        }
    }

    /// Color at `(x, y)`, or `None` when out of bounds.
    pub fn get_pixel(&self, x: i32, y: i32) -> (r: Option<u32>)
        requires
            self.wf(),
        ensures
            self.in_bounds(x as int, y as int) ==> r == Some(self.pixel(x as int, y as int)),
            !self.in_bounds(x as int, y as int) ==> r is None,
    {
        if x >= 0 && y >= 0 && x < self.width as i32 && y < self.height as i32 {
            proof {
                lemma_index_in_range(x as int, y as int, self.spec_width() as int, self.spec_height() as int);
            }
            let idx: usize = (y as usize) * (self.width as usize) + (x as usize);
            Some(self.color[idx])
        } else {
            None
        }
    }

    /// Depth key at `(x, y)`, or `None` when out of bounds.
    pub fn get_depth(&self, x: i32, y: i32) -> (r: Option<u32>)
        requires
            self.wf(),
        ensures
            self.in_bounds(x as int, y as int) ==> r == Some(self.depth_at(x as int, y as int)),
            !self.in_bounds(x as int, y as int) ==> r is None,
    {
        if x >= 0 && y >= 0 && x < self.width as i32 && y < self.height as i32 {
            proof {
                lemma_index_in_range(x as int, y as int, self.spec_width() as int, self.spec_height() as int);
            }
            let idx: usize = (y as usize) * (self.width as usize) + (x as usize);
            Some(self.depth[idx])
        } else {
            None
        }
    }
}

/// A vector of `len` copies of `value`.
fn filled(value: u32, len: usize) -> (v: Vec<u32>)
    ensures
        v@.len() == len,
        forall|i: int| 0 <= i < len ==> v@[i] == value,
{
    let mut v: Vec<u32> = Vec::new();
    let mut i: usize = 0;
    while i < len
        invariant
            i <= len,
            v@.len() == i,
            forall|j: int| 0 <= j < i ==> v@[j] == value,
        decreases len - i,
    {
        v.push(value);
        i += 1;
    }
    v
}

} // verus!

//! The six half-spaces of the canonical homogeneous clip cube.
//!
//! Polygons are clipped after projection, in clip space, where the visible
//! region is `-w <= x, y, z <= w`. The planes are fixed constants, so
//! nothing has to be rebuilt when the projection parameters change. The
//! signed-distance arithmetic and the Sutherland-Hodgman walk run in the
//! host's floating point; this module fixes the planes and the order in
//! which they are applied.

use vstd::prelude::*;

verus! {

/// One plane of the clip cube. A homogeneous vertex `(x, y, z, w)` is
/// inside a plane when its signed distance is nonnegative: `w + x` for
/// `Left`, `w - x` for `Right`, `w + y` for `Bottom`, `w - y` for `Top`,
/// `w + z` for `Near`, and `w - z` for `Far`.
#[derive(Clone, Copy, Debug, PartialEq, Eq, Structural)]
pub enum ClipPlane {
    /// `x >= -w`
    Left,
    /// `x <= w`
    Right,
    /// `y >= -w`
    Bottom,
    /// `y <= w`
    Top,
    /// `z >= -w`
    Near,
    /// `z <= w`
    Far,
}

/// The order in which the clipper applies the six planes.
pub open spec fn canonical_plane_order() -> Seq<ClipPlane> {
    seq![
        ClipPlane::Left,
        ClipPlane::Right,
        ClipPlane::Bottom,
        ClipPlane::Top,
        ClipPlane::Near,
        ClipPlane::Far,
    ]
}

/// Clips polygons against the canonical clip-space cube. Stateless but for
/// the fixed plane list.
pub struct ClipSpaceClipper {
    planes: [ClipPlane; 6],
}

impl ClipSpaceClipper {
    /// The planes, in application order.
    pub closed spec fn spec_planes(&self) -> Seq<ClipPlane> {
        self.planes@
    }

    /// A clipper holding the six cube planes in canonical order.
    pub fn new() -> (c: ClipSpaceClipper)
        ensures
            c.spec_planes() == canonical_plane_order(),
    {
        let planes = [
            ClipPlane::Left,
            ClipPlane::Right,
            ClipPlane::Bottom,
            ClipPlane::Top,
            ClipPlane::Near,
            ClipPlane::Far,
        ];
        proof {
            assert(planes@ =~= canonical_plane_order());
        }
        ClipSpaceClipper { planes }
    }

    /// How many planes the clipper applies.
    pub fn plane_count(&self) -> (n: usize)
        ensures
            n == self.spec_planes().len(),
    {
        6
    }

    /// The plane applied at position `i`.
    pub fn plane_at(&self, i: usize) -> (p: ClipPlane)
        requires
            i < self.spec_planes().len(),
        ensures
            p == self.spec_planes()[i as int],
    {
        self.planes[i]
    }
}

impl Default for ClipSpaceClipper {
    /// Same as [`ClipSpaceClipper::new`].
    fn default() -> (c: Self)
        ensures
            c.spec_planes() == canonical_plane_order(),
    {
        ClipSpaceClipper::new()
    }
}

/// Fan triangulation of a convex polygon of `n` vertices, anchored at
/// vertex 0: the triangles `(0, i, i+1)` for `i = 1 .. n-2`. A polygon of
/// fewer than three vertices yields no triangle.
pub fn fan_triangulation(n: usize) -> (r: Vec<(usize, usize, usize)>)
    ensures
        n < 3 ==> r@.len() == 0,
        n >= 3 ==> r@.len() == n - 2,
        forall|k: int|
            0 <= k < r@.len() ==> r@[k] == (0usize, (k + 1) as usize, (k + 2) as usize),
{
    let mut r: Vec<(usize, usize, usize)> = Vec::new();
    if n < 3 {
        return r;
    }
    let mut i: usize = 1;
    while i < n - 1
        invariant
            3 <= n,
            1 <= i <= n - 1,
            r@.len() == i - 1,
            forall|k: int|
                0 <= k < r@.len() ==> r@[k] == (0usize, (k + 1) as usize, (k + 2) as usize),
        decreases n - i,
    {
        r.push((0, i, i + 1));
        i += 1;
    }
    r
}

} // verus!

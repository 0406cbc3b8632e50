//! Rasterizer selection.
//!
//! Two interchangeable triangle fillers exist: a scanline filler using
//! flat-top/flat-bottom decomposition and an edge-function filler iterating
//! a bounding box. Their per-pixel floating-point loops run in the host; the
//! selector here is the single switch the engine flips at runtime, and the
//! dispatcher holding both instances guarantees which one a fill call
//! reaches.

use vstd::prelude::*;

verus! {

/// Scanline triangle filler: decomposes a triangle into flat-top and
/// flat-bottom halves and fills horizontal spans.
pub struct ScanlineRasterizer;

impl ScanlineRasterizer {
    /// A scanline rasterizer instance.
    pub fn new() -> (r: ScanlineRasterizer)
        ensures
            r == (ScanlineRasterizer {  }),
    {
        ScanlineRasterizer {  }
    }
}

/// Edge-function triangle filler: tests every pixel of the bounding box
/// against three edge functions.
pub struct EdgeFunctionRasterizer;

impl EdgeFunctionRasterizer {
    /// An edge-function rasterizer instance.
    pub fn new() -> (r: EdgeFunctionRasterizer)
        ensures
            r == (EdgeFunctionRasterizer {  }),
    {
        EdgeFunctionRasterizer {  }
    }
}

/// Which rasterization algorithm the engine uses.
#[derive(Debug, Clone, Copy, PartialEq, Eq, Structural)]
pub enum RasterizerType {
    /// Flat-top/flat-bottom scanline decomposition.
    Scanline,
    /// Bounding-box iteration with edge-function tests.
    EdgeFunction,
}

impl RasterizerType {
    /// The algorithm's display name.
    pub fn label(&self) -> (m: &'static str)
        ensures
            m@ == match self {
                RasterizerType::Scanline => "Scanline"@,
                RasterizerType::EdgeFunction => "EdgeFunction"@,
            },
    {
        match self {
            RasterizerType::Scanline => "Scanline",
            RasterizerType::EdgeFunction => "EdgeFunction",
        }
    }
}

impl Default for RasterizerType {
    /// The scanline rasterizer.
    fn default() -> (r: Self)
        ensures
            r == RasterizerType::Scanline,
    {
        RasterizerType::Scanline
    }
}

/// The edge function: twice the signed area of the triangle formed by the
/// directed edge `(a, b)` and the point `p`. Its sign tells which side of
/// the edge `p` lies on; zero means exactly on the edge's line. Evaluated
/// at the three edges of a triangle it yields the unnormalized barycentric
/// weights of `p`. The host computes it in floating point; the rule itself
/// is exact, so it is stated and proved here over the integer grid.
pub open spec fn edge_function_spec(ax: int, ay: int, bx: int, by: int, px: int, py: int) -> int {
    (bx - ax) * (py - ay) - (by - ay) * (px - ax)
}

/// A top or left edge in a Y-down screen: horizontal and pointing left, or
/// going upward.
pub open spec fn is_top_left_edge(ax: int, ay: int, bx: int, by: int) -> bool {
    (by == ay && bx < ax) || by < ay
}

/// The inside test of one directed edge of a counter-clockwise triangle,
/// under the top-left fill rule: points strictly inside pass, and a point
/// exactly on the edge passes only when the edge is a top or left edge.
pub open spec fn edge_admits(ax: int, ay: int, bx: int, by: int, px: int, py: int) -> bool {
    let e = edge_function_spec(ax, ay, bx, by, px, py);
    e > 0 || (e == 0 && is_top_left_edge(ax, ay, bx, by))
}

/// A counter-clockwise triangle covers a point when all three of its
/// directed edges admit it.
pub open spec fn covered_ccw(
    ax: int,
    ay: int,
    bx: int,
    by: int,
    cx: int,
    cy: int,
    px: int,
    py: int,
) -> bool {
    &&& edge_admits(bx, by, cx, cy, px, py)
    &&& edge_admits(cx, cy, ax, ay, px, py)
    &&& edge_admits(ax, ay, bx, by, px, py)
}

/// The barycentric sum identity in coordinates relative to the triangle's
/// first vertex: `u` and `v` are the other two vertices, `q` the queried
/// point.
proof fn lemma_edge_functions_sum_relative(
    ux: int,
    uy: int,
    vx: int,
    vy: int,
    qx: int,
    qy: int,
)
    by (nonlinear_arith)
    ensures
        (vx - ux) * (qy - uy) - (vy - uy) * (qx - ux) + (vy * qx - vx * qy) + (ux * qy - uy * qx)
            == ux * vy - uy * vx,
{
}

/// Barycentric sum: at every point, the three edge-function values of a
/// triangle sum exactly to its signed doubled area. Dividing by that area
/// is what makes the three barycentric weights sum to one.
pub proof fn lemma_edge_functions_sum(
    ax: int,
    ay: int,
    bx: int,
    by: int,
    cx: int,
    cy: int,
    px: int,
    py: int,
)
    ensures
        edge_function_spec(bx, by, cx, cy, px, py) + edge_function_spec(cx, cy, ax, ay, px, py)
            + edge_function_spec(ax, ay, bx, by, px, py) == edge_function_spec(
            ax,
            ay,
            bx,
            by,
            cx,
            cy,
        ),
{
    let ux = bx - ax;
    let uy = by - ay;
    let vx = cx - ax;
    let vy = cy - ay;
    let qx = px - ax;
    let qy = py - ay;
    lemma_edge_functions_sum_relative(ux, uy, vx, vy, qx, qy);
    assert(edge_function_spec(cx, cy, ax, ay, px, py) == vy * qx - vx * qy) by (nonlinear_arith)
        requires
            vx == cx - ax,
            vy == cy - ay,
            qx == px - ax,
            qy == py - ay,
    ;
}

/// Top-left coverage partition along one edge: of the two opposite
/// orientations of an edge shared by two adjacent triangles, no point is
/// admitted by both, and a point exactly on the edge's line is admitted by
/// exactly one.
pub proof fn lemma_shared_edge_partition(ax: int, ay: int, bx: int, by: int, px: int, py: int)
    requires
        !(ax == bx && ay == by),
    ensures
        !(edge_admits(ax, ay, bx, by, px, py) && edge_admits(bx, by, ax, ay, px, py)),
        edge_function_spec(ax, ay, bx, by, px, py) == 0 ==> (edge_admits(ax, ay, bx, by, px, py)
            <==> !edge_admits(bx, by, ax, ay, px, py)),
{
    assert(edge_function_spec(bx, by, ax, ay, px, py) == -edge_function_spec(
        ax,
        ay,
        bx,
        by,
        px,
        py,
    )) by (nonlinear_arith);
}

/// Top-left coverage partition: two counter-clockwise triangles that share
/// the edge between `a` and `b`, one on each side, never both cover the
/// same point; and a point exactly on the shared edge that the remaining
/// edges of both triangles admit is covered by exactly one of the two.
pub proof fn lemma_no_double_coverage_across_shared_edge(
    ax: int,
    ay: int,
    bx: int,
    by: int,
    cx: int,
    cy: int,
    dx: int,
    dy: int,
    px: int,
    py: int,
)
    requires
        !(ax == bx && ay == by),
    ensures
        !(covered_ccw(ax, ay, bx, by, cx, cy, px, py) && covered_ccw(
            bx,
            by,
            ax,
            ay,
            dx,
            dy,
            px,
            py,
        )),
        (edge_function_spec(ax, ay, bx, by, px, py) == 0 && edge_admits(bx, by, cx, cy, px, py)
            && edge_admits(cx, cy, ax, ay, px, py) && edge_admits(ax, ay, dx, dy, px, py)
            && edge_admits(dx, dy, bx, by, px, py)) ==> (covered_ccw(
            ax,
            ay,
            bx,
            by,
            cx,
            cy,
            px,
            py,
        ) != covered_ccw(bx, by, ax, ay, dx, dy, px, py)),
{
    lemma_shared_edge_partition(ax, ay, bx, by, px, py);
}

/// Coordinates far enough from the `i32` edges that an edge function fits
/// a 64-bit value.
pub open spec fn grid_coord(c: int) -> bool {
    -0x2000_0000 <= c <= 0x2000_0000
}

/// The edge function of edge `(a, b)` at `p`, exactly.
pub fn edge_function_value(ax: i32, ay: i32, bx: i32, by: i32, px: i32, py: i32) -> (e: i64)
    requires
        grid_coord(ax as int),
        grid_coord(ay as int),
        grid_coord(bx as int),
        grid_coord(by as int),
        grid_coord(px as int),
        grid_coord(py as int),
    ensures
        e == edge_function_spec(ax as int, ay as int, bx as int, by as int, px as int, py as int),
{
    proof {
        assert(((bx - ax) * (py - ay) <= 0x1000_0000_0000_0000 && (bx - ax) * (py - ay)
            >= -0x1000_0000_0000_0000) && ((by - ay) * (px - ax) <= 0x1000_0000_0000_0000 && (by
            - ay) * (px - ax) >= -0x1000_0000_0000_0000)) by (nonlinear_arith)
            requires
                grid_coord(ax as int),
                grid_coord(ay as int),
                grid_coord(bx as int),
                grid_coord(by as int),
                grid_coord(px as int),
                grid_coord(py as int),
        ;
    }
    (bx as i64 - ax as i64) * (py as i64 - ay as i64) - (by as i64 - ay as i64) * (px as i64
        - ax as i64)
}

/// Whether the directed edge `(a, b)` of a counter-clockwise triangle
/// admits the point `p` under the top-left fill rule.
pub fn edge_admits_point(ax: i32, ay: i32, bx: i32, by: i32, px: i32, py: i32) -> (r: bool)
    requires
        grid_coord(ax as int),
        grid_coord(ay as int),
        grid_coord(bx as int),
        grid_coord(by as int),
        grid_coord(px as int),
        grid_coord(py as int),
    ensures
        r == edge_admits(ax as int, ay as int, bx as int, by as int, px as int, py as int),
{
    let e = edge_function_value(ax, ay, bx, by, px, py);
    e > 0 || (e == 0 && ((by == ay && bx < ax) || by < ay))
}

/// Whether a counter-clockwise triangle covers the point `p` under the
/// top-left fill rule.
pub fn point_covered_ccw(
    ax: i32,
    ay: i32,
    bx: i32,
    by: i32,
    cx: i32,
    cy: i32,
    px: i32,
    py: i32,
) -> (r: bool)
    requires
        grid_coord(ax as int),
        grid_coord(ay as int),
        grid_coord(bx as int),
        grid_coord(by as int),
        grid_coord(cx as int),
        grid_coord(cy as int),
        grid_coord(px as int),
        grid_coord(py as int),
    ensures
        r == covered_ccw(
            ax as int,
            ay as int,
            bx as int,
            by as int,
            cx as int,
            cy as int,
            px as int,
            py as int,
        ),
{
    edge_admits_point(bx, by, cx, cy, px, py) && edge_admits_point(cx, cy, ax, ay, px, py)
        && edge_admits_point(ax, ay, bx, by, px, py)
}

/// Holds both rasterizer instances and the tag selecting the active one.
pub struct RasterizerDispatcher {
    scanline: ScanlineRasterizer,
    edge_function: EdgeFunctionRasterizer,
    active: RasterizerType,
}

impl RasterizerDispatcher {
    /// The currently selected algorithm.
    pub closed spec fn spec_active(&self) -> RasterizerType {
        self.active
    }

    /// A dispatcher with the given algorithm selected.
    pub fn new(rasterizer_type: RasterizerType) -> (r: RasterizerDispatcher)
        ensures
            r.spec_active() == rasterizer_type,
    {
        RasterizerDispatcher {
            scanline: ScanlineRasterizer::new(),
            edge_function: EdgeFunctionRasterizer::new(),
            active: rasterizer_type,
        }
    }

    /// Select the algorithm used from now on.
    pub fn set_type(&mut self, rasterizer_type: RasterizerType)
        ensures
            final(self).spec_active() == rasterizer_type,
    {
        self.active = rasterizer_type;
    }

    /// The currently selected algorithm.
    pub fn active_type(&self) -> (r: RasterizerType)
        ensures
            r == self.spec_active(),
    {
        self.active
    }
}

} // verus!

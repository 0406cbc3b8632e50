//! Bresenham's line walk.
//!
//! The wireframe overlay draws each triangle edge as a run of pixels. The
//! walk itself is pure integer arithmetic: starting at one endpoint it
//! steps one pixel at a time, each step a unit move along an axis or a
//! diagonal, always toward the other endpoint, until it reaches it. The
//! host interpolates a depth along the returned run and writes each pixel
//! through the framebuffer's depth test.

use vstd::prelude::*;

verus! {

/// Distance between two coordinates.
pub open spec fn abs_diff(a: int, b: int) -> int {
    if a >= b {
        a - b
    } else {
        b - a
    }
}

/// The coordinate span a line walk may start from: far enough from the
/// `i32` edges that the walk's error arithmetic cannot overflow.
pub open spec fn walkable_coord(c: int) -> bool {
    -0x800_0000 <= c <= 0x800_0000
}

/// Each pair of neighboring points differs by at most one per axis, never
/// stands still, and moves toward `(x1, y1)` on both axes.
pub open spec fn monotone_king_path(pts: Seq<(i32, i32)>, x1: int, y1: int) -> bool {
    forall|k: int|
        0 <= k < pts.len() - 1 ==> {
            let ax = #[trigger] pts[k].0 as int;
            let ay = pts[k].1 as int;
            let bx = pts[k + 1].0 as int;
            let by = pts[k + 1].1 as int;
            &&& (ax != bx || ay != by)
            &&& (if x1 >= ax {
                ax <= bx <= x1
            } else {
                x1 <= bx <= ax
            })
            &&& (if y1 >= ay {
                ay <= by <= y1
            } else {
                y1 <= by <= ay
            })
        }
}

/// The pixels of the line from `(x0, y0)` to `(x1, y1)`, by Bresenham's
/// walk: the first point is the start, the last is the end, every step is
/// a unit king-move toward the end, and the run visits at most one point
/// per unit of distance covered.
pub fn line_points(x0: i32, y0: i32, x1: i32, y1: i32) -> (pts: Vec<(i32, i32)>)
    requires
        walkable_coord(x0 as int),
        walkable_coord(y0 as int),
        walkable_coord(x1 as int),
        walkable_coord(y1 as int),
    ensures
        pts@.len() == 1 + (if abs_diff(x0 as int, x1 as int) >= abs_diff(y0 as int, y1 as int) {
            abs_diff(x0 as int, x1 as int)
        } else {
            abs_diff(y0 as int, y1 as int)
        }),
        pts@[0] == (x0, y0),
        pts@[pts@.len() - 1] == (x1, y1),
        monotone_king_path(pts@, x1 as int, y1 as int),
{
    let dx: i32 = if x1 >= x0 {
        x1 - x0
    } else {
        x0 - x1
    };
    let dy: i32 = if y1 >= y0 {
        y1 - y0
    } else {
        y0 - y1
    };
    let sx: i32 = if x0 < x1 {
        1
    } else {
        -1
    };
    let sy: i32 = if y0 < y1 {
        1
    } else {
        -1
    };

    let mut pts: Vec<(i32, i32)> = Vec::new();
    let mut err: i32 = dx - dy;
    let mut x: i32 = x0;
    let mut y: i32 = y0;

    let ghost mut a: int = 0;
    let ghost mut b: int = 0;

    loop
        invariant_except_break
            dx == abs_diff(x0 as int, x1 as int),
            dy == abs_diff(y0 as int, y1 as int),
            walkable_coord(x0 as int),
            walkable_coord(y0 as int),
            walkable_coord(x1 as int),
            walkable_coord(y1 as int),
            sx == (if x0 < x1 {
                1i32
            } else {
                -1i32
            }),
            sy == (if y0 < y1 {
                1i32
            } else {
                -1i32
            }),
            0 <= a <= dx,
            0 <= b <= dy,
            x as int == x0 + (if x0 < x1 {
                a
            } else {
                -a
            }),
            y as int == y0 + (if y0 < y1 {
                b
            } else {
                -b
            }),
            err as int == dx - dy - a * (dy as int) + b * (dx as int),
            -2 * (dy as int) <= err as int <= 2 * (dx as int),
            // The walk always advances its longer axis, so the number of
            // points visited equals the distance covered on that axis.
            dx > dy ==> 2 * (err as int) >= dx - 2 * (dy as int) && pts@.len() == a,
            dx < dy ==> 2 * (err as int) <= 2 * (dx as int) - dy && pts@.len() == b,
            dx == dy ==> err == 0 && a == b && pts@.len() == a,
            pts@.len() == 0 ==> a == 0 && b == 0,
            pts@.len() > 0 ==> pts@[0] == (x0, y0),
            monotone_king_path(pts@.push((x, y)), x1 as int, y1 as int),
        ensures
            pts@.len() == 1 + (if dx >= dy {
                dx as int
            } else {
                dy as int
            }),
            pts@[0] == (x0, y0),
            pts@[pts@.len() - 1] == (x1, y1),
            monotone_king_path(pts@, x1 as int, y1 as int),
        decreases (dx - a) + (dy - b),
    {
        let ghost old_pts = pts@;
        pts.push((x, y));

        if x == x1 && y == y1 {
            proof {
                assert(pts@ == old_pts.push((x, y)));
                assert(a == dx && b == dy);
            }
            break;
        }

        // Not at the target yet, so at least one axis has distance left.
        proof {
            assert(a < dx || b < dy);
        }

        let e2: i32 = 2 * err;
        let ghost a0 = a;
        let ghost b0 = b;

        proof {
            // At least one branch fires: were both to stay, `dx <= 2 err`
            // and `2 err <= -dy` would force both distances to zero.
            if !(e2 > -dy) && !(e2 < dx) {
                assert(dx <= -dy);
                assert(false);
            }
        }

        if e2 > -dy {
            proof {
                // The walk never passes the target column: once `a` has
                // reached `dx`, the error term is too low for this branch.
                if a0 == dx {
                    assert(b0 < dy);
                    assert(false) by (nonlinear_arith)
                        requires
                            0 <= b0 < (dy as int),
                            0 <= (dx as int),
                            (e2 as int) == 2 * ((dx as int) - (dy as int) - (dx as int) * (
                            dy as int) + b0 * (dx as int)),
                            (e2 as int) > -(dy as int),
                    ;
                }
                a = a + 1;
                assert((a0 + 1) * (dy as int) == a0 * (dy as int) + (dy as int))
                    by (nonlinear_arith);
            }
            err = err - dy;
            x = x + sx;
        }
        if e2 < dx {
            proof {
                // Likewise the walk never passes the target row.
                if b0 == dy {
                    assert(a0 < dx);
                    assert(false) by (nonlinear_arith)
                        requires
                            0 <= a0 < (dx as int),
                            0 <= (dy as int),
                            (e2 as int) == 2 * ((dx as int) - (dy as int) - a0 * (dy as int) + (
                            dy as int) * (dx as int)),
                            (e2 as int) < (dx as int),
                    ;
                }
                b = b + 1;
                assert((b0 + 1) * (dx as int) == b0 * (dx as int) + (dx as int))
                    by (nonlinear_arith);
            }
            err = err + dx;
            y = y + sy;
        }

        proof {
            // The new position is one king-move toward the target, so the
            // path grown by it stays a monotone king path.
            let grown = pts@.push((x, y));
            assert(pts@ == old_pts.push((pts@[pts@.len() - 1])));
            assert forall|k: int| 0 <= k < grown.len() - 1 implies {
                let ax = #[trigger] grown[k].0 as int;
                let ay = grown[k].1 as int;
                let bx = grown[k + 1].0 as int;
                let by = grown[k + 1].1 as int;
                &&& (ax != bx || ay != by)
                &&& (if x1 >= ax {
                    ax <= bx <= x1 as int
                } else {
                    x1 as int <= bx <= ax
                })
                &&& (if y1 >= ay {
                    ay <= by <= y1 as int
                } else {
                    y1 as int <= by <= ay
                })
            } by {
                if k < grown.len() - 2 {
                    assert(grown[k] == old_pts.push((pts@[pts@.len() - 1]))[k]);
                }
            }
        }
    }
    pts
}

} // verus!

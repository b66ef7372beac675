//! Drawing-space geometry: locations, displacements, the geometry variants a
//! drawing object can take, and the grid-snapping arithmetic.
//!
//! Coordinates are whole drawing units. Translation saturates at the i64
//! bounds rather than wrapping, so every operation is total.

use vstd::prelude::*;

verus! {

/// Spacing of the snapping grid, in drawing units.
pub const GRID_SPACING: u64 = 20;

/// A location in drawing space.
#[derive(Clone, Copy, PartialEq, Eq, Structural, Debug)]
pub struct Point {
    pub x: i64,
    pub y: i64,
}

/// A displacement between two drawing-space locations.
#[derive(Clone, Copy, PartialEq, Eq, Structural, Debug)]
pub struct Vector {
    pub dx: i64,
    pub dy: i64,
}

/// The geometry of one drawing object.
#[derive(Clone, Copy, PartialEq, Eq, Structural, Debug)]
pub enum Geometry {
    /// A single vertex.
    Point(Point),
    /// A segment from a start vertex to an end vertex.
    Line(Point, Point),
    /// A curve from a start vertex to an end vertex, bent towards a control
    /// vertex.
    Arc(Point, Point, Point),
    /// The background grid; purely visual, its `snap` flag mirrors the
    /// editor's snap toggle for rendering feedback.
    Grid(GridGeometry),
}

/// Description of the background grid.
#[derive(Clone, Copy, PartialEq, Eq, Structural, Debug)]
pub struct GridGeometry {
    pub spacing: u64,
    pub snap: bool,
}

/// An integer clamped into the range of i64.
pub open spec fn clamp_i64(v: int) -> int {
    if v < i64::MIN {
        i64::MIN as int
    } else if v > i64::MAX {
        i64::MAX as int
    } else {
        v
    }
}

/// A coordinate plus an offset, saturating at the i64 bounds.
pub open spec fn sat_add(a: int, b: int) -> int {
    clamp_i64(a + b)
}

/// A point moved by a displacement, each coordinate saturating.
pub open spec fn spec_translate_point(p: Point, d: Vector) -> Point {
    Point { x: sat_add(p.x as int, d.dx as int) as i64, y: sat_add(p.y as int, d.dy as int) as i64 }
}

/// A geometry moved by a displacement. The grid does not move.
pub open spec fn spec_translate_geometry(g: Geometry, d: Vector) -> Geometry {
    match g {
        Geometry::Point(p) => Geometry::Point(spec_translate_point(p, d)),
        Geometry::Line(a, b) => Geometry::Line(spec_translate_point(a, d), spec_translate_point(b, d)),
        Geometry::Arc(a, b, c) => Geometry::Arc(
            spec_translate_point(a, d),
            spec_translate_point(b, d),
            spec_translate_point(c, d),
        ),
        Geometry::Grid(grid) => Geometry::Grid(grid),
    }
}

/// The multiple of `g` nearest to the magnitude `u`; a tie rounds up.
pub open spec fn nearest_multiple_mag(u: nat, g: nat) -> nat
    recommends
        g >= 1,
{
    let r = u % g;
    if 2 * r < g {
        (u - r) as nat
    } else {
        (u - r + g) as nat
    }
}

/// The coordinate snapped to the nearest multiple of the grid spacing,
/// clamped into i64. Negative coordinates snap symmetrically, so a tie
/// rounds away from zero.
pub open spec fn spec_snap_coord(v: int, g: nat) -> int
    recommends
        g >= 1,
{
    if v >= 0 {
        clamp_i64(nearest_multiple_mag(v as nat, g) as int)
    } else {
        clamp_i64(-(nearest_multiple_mag((-v) as nat, g) as int))
    }
}

/// A point with both coordinates snapped to the grid.
pub open spec fn spec_snap_point(p: Point, g: nat) -> Point {
    Point { x: spec_snap_coord(p.x as int, g) as i64, y: spec_snap_coord(p.y as int, g) as i64 }
}

impl Point {
    /// The point moved by `d`, saturating at the coordinate bounds.
    pub fn translate(self, d: Vector) -> (r: Point)
        ensures
            r == spec_translate_point(self, d),
    {
        Point { x: sat_add_i64(self.x, d.dx), y: sat_add_i64(self.y, d.dy) }
    }
}

impl Geometry {
    /// The geometry moved by `d`; the grid stays put.
    pub fn translate(self, d: Vector) -> (r: Geometry)
        ensures
            r == spec_translate_geometry(self, d),
    {
        match self {
            Geometry::Point(p) => Geometry::Point(p.translate(d)),
            Geometry::Line(a, b) => Geometry::Line(a.translate(d), b.translate(d)),
            Geometry::Arc(a, b, c) => Geometry::Arc(a.translate(d), b.translate(d), c.translate(d)),
            Geometry::Grid(grid) => Geometry::Grid(grid),
        }
    }
}

/// Saturating addition on i64.
pub fn sat_add_i64(a: i64, b: i64) -> (r: i64)
    ensures
        r as int == sat_add(a as int, b as int),
{
    let s: i128 = a as i128 + b as i128;
    if s > i64::MAX as i128 {
        i64::MAX
    } else if s < i64::MIN as i128 {
        i64::MIN
    } else {
        s as i64
    }
}

/// The multiple of `g` nearest to the magnitude `u`, computed in u64.
fn nearest_multiple_mag_u64(u: u64, g: u64) -> (r: u64)
    requires
        1 <= g <= i64::MAX as u64,
        u <= i64::MAX as u64 + 1,
    ensures
        r == nearest_multiple_mag(u as nat, g as nat),
{
    let rem = u % g;
    proof {
        assert(rem <= u && rem < g) by (nonlinear_arith)
            requires
                g >= 1,
                rem == u % g,
        ;
    }
    let down = u - rem;
    if 2 * rem < g {
        down
    } else {
        down + g
    }
}

/// The coordinate snapped to the nearest multiple of the grid spacing.
pub fn snap_coord(v: i64, g: u64) -> (r: i64)
    requires
        1 <= g <= i64::MAX as u64,
    ensures
        r as int == spec_snap_coord(v as int, g as nat),
{
    if v >= 0 {
        let mag = nearest_multiple_mag_u64(v as u64, g);
        if mag > i64::MAX as u64 {
            i64::MAX
        } else {
            mag as i64
        }
    } else {
        let mag = nearest_multiple_mag_u64((-(v as i128)) as u64, g);
        if mag >= 9223372036854775808u64 {
            i64::MIN
        } else {
            -(mag as i64)
        }
    }
}

/// The point snapped to the grid.
pub fn snap_point(p: Point, g: u64) -> (r: Point)
    requires
        1 <= g <= i64::MAX as u64,
    ensures
        r == spec_snap_point(p, g as nat),
{
    Point { x: snap_coord(p.x, g), y: snap_coord(p.y, g) }
}

} // verus!

//! Reading, measuring and moving the points of the zones.

use vstd::prelude::*;

use crate::interp_instructor::state::Interp;
use crate::interp_instructor::state::InterpView;
use crate::interp_instructor::state::Zone;
use crate::interp_instructor::state::ZoneView;
use crate::interp_instructor::state::TOUCHED_X;
use crate::interp_instructor::state::TOUCHED_Y;
use crate::interp_instructor::vector::dot;
use crate::interp_instructor::vector::dot_product;
use crate::interp_instructor::vector::freedom_share;
use crate::interp_instructor::vector::normalize;
use crate::interp_instructor::vector::normalized;
use crate::interp_instructor::vector::share_of_freedom;
use crate::interp_instructor::vector::shift_along;
use crate::interp_instructor::vector::shift_by;
use crate::interp_instructor::vector::Vector;
use crate::numerics::wrap_i32;
use crate::numerics::wrap_to_i32;
use crate::numerics::F26d6;
use crate::outline::Point;
use crate::truetype_loader::F2dot14;

verus! {

/// The difference of two coordinates, in 32 bits.
pub open spec fn diff(a: F26d6, b: F26d6) -> int {
    wrap_i32(a.0 - b.0)
}

/// The sum of a coordinate and a shift, in 32 bits.
pub open spec fn plus(a: F26d6, d: int) -> F26d6 {
    F26d6(wrap_i32(a.0 + d) as i32)
}

/// The distance from `b` to `a` measured along `v`.
pub open spec fn measure(v: Vector, a: Point, b: Point) -> int {
    dot(v, diff(a.x, b.x), diff(a.y, b.y))
}

/// The coordinate of `a` along `v`.
pub open spec fn coordinate(v: Vector, a: Point) -> int {
    dot(v, a.x.0 as int, a.y.0 as int)
}

/// The distance `d` laid along the component `f` of a unit vector.
pub open spec fn along(d: int, f: F2dot14) -> int {
    wrap_i32((d * f.0 + 0x2000) / 0x4000)
}

/// The flag `f` of a point once it has been moved along the freedom vector
/// `fv`: touched along each axis on which the vector has a share.
pub open spec fn touched(f: u8, fv: Vector) -> u8 {
    let fx = if fv.x.0 != 0 {
        f | TOUCHED_X
    } else {
        f
    };
    if fv.y.0 != 0 {
        fx | TOUCHED_Y
    } else {
        fx
    }
}

/// The zone `zone` after the point `p` has been shifted by `(dx, dy)`. The
/// point moves along those axes only on which the freedom vector `fv` has a
/// share, and is marked as touched there if `touch` is set.
pub open spec fn shifted(zone: ZoneView, p: int, dx: int, dy: int, touch: bool, fv: Vector) -> ZoneView {
    let pt = zone.points[p];
    let moved = Point {
        x: if fv.x.0 != 0 {
            plus(pt.x, dx)
        } else {
            pt.x
        },
        y: if fv.y.0 != 0 {
            plus(pt.y, dy)
        } else {
            pt.y
        },
    };
    ZoneView {
        points: zone.points.update(p, moved),
        flags: if touch {
            zone.flags.update(p, touched(zone.flags[p], fv))
        } else {
            zone.flags
        },
        ..zone
    }
}

/// How far a point moves along x when it is to move by `d` along the
/// projection vector.
pub open spec fn shift_x(m: InterpView, d: int) -> int {
    shift_along(
        d,
        m.state.freedom_vec.x.0 as int,
        freedom_share(m.state.freedom_vec, m.state.project_vec),
    )
}

/// How far a point moves along y when it is to move by `d` along the
/// projection vector.
pub open spec fn shift_y(m: InterpView, d: int) -> int {
    shift_along(
        d,
        m.state.freedom_vec.y.0 as int,
        freedom_share(m.state.freedom_vec, m.state.project_vec),
    )
}

impl InterpView {
    /// Whether the zone `z` has a point number `p`.
    pub open spec fn has_point(self, z: usize, p: int) -> bool {
        0 <= p < self.zone(z).len()
    }

    /// Where the point `p` of the zone `z` is now.
    pub open spec fn cur(self, z: usize, p: int) -> Point {
        self.zone(z).points[p]
    }

    /// Where the point `p` of the zone `z` was before any instruction ran.
    pub open spec fn org(self, z: usize, p: int) -> Point {
        self.zone(z).original[p]
    }

    /// The machine after the point `p` of the zone `z` has been shifted by
    /// `(dx, dy)` along the freedom vector.
    pub open spec fn shift_point(self, z: usize, p: int, dx: int, dy: int, touch: bool) -> InterpView {
        self.with_zone(z, shifted(self.zone(z), p, dx, dy, touch, self.state.freedom_vec))
    }

    /// The machine after the point `p` of the zone `z` has been moved along
    /// the freedom vector so far that it has moved by `d` along the
    /// projection vector, and touched.
    pub open spec fn move_point(self, z: usize, p: int, d: int) -> InterpView {
        self.shift_point(z, p, shift_x(self, d), shift_y(self, d), true)
    }

    /// The machine after the point `p` of the zone `z` has been put at `at`,
    /// now and originally.
    pub open spec fn place_point(self, z: usize, p: int, at: Point) -> InterpView {
        self.with_zone(
            z,
            ZoneView {
                points: self.zone(z).points.update(p, at),
                original: self.zone(z).original.update(p, at),
                ..self.zone(z)
            },
        )
    }

    /// The machine after the original place of the point `p` of the zone `z`
    /// has been set to where the point is now.
    pub open spec fn settle_point(self, z: usize, p: int) -> InterpView {
        self.with_zone(
            z,
            ZoneView {
                original: self.zone(z).original.update(p, self.zone(z).points[p]),
                ..self.zone(z)
            },
        )
    }
}

/// The unit vector along the line from `b` to `a`, or across it, turned a
/// quarter turn counter-clockwise, where `across` is set. Two points at one
/// place give the x axis.
pub open spec fn line_vector(a: Point, b: Point, across: bool) -> Vector {
    let dx = diff(a.x, b.x);
    let dy = diff(a.y, b.y);
    if across {
        normalized(wrap_i32(-dy), dx)
    } else {
        normalized(dx, dy)
    }
}

/// The difference of two coordinates.
pub fn difference(a: F26d6, b: F26d6) -> (d: i32)
    ensures
        d == diff(a, b),
{
    (a - b).0
}

/// Measures the distance from `b` to `a` along `v`.
pub fn measure_along(v: Vector, a: Point, b: Point) -> (d: i32)
    ensures
        d == measure(v, a, b),
{
    dot_product(v, difference(a.x, b.x), difference(a.y, b.y))
}

/// The coordinate of `a` along `v`.
pub fn coordinate_along(v: Vector, a: Point) -> (d: i32)
    ensures
        d == coordinate(v, a),
{
    dot_product(v, a.x.0, a.y.0)
}

/// Lays the distance `d` along the component `f` of a unit vector.
pub fn lay_along(d: i32, f: F2dot14) -> (r: i32)
    ensures
        r == along(d as int, f),
{
    let r = dot_product(Vector { x: f, y: F2dot14(0) }, d, 0);
    assert(d * f.0 + 0 * 0 + 0x2000 == d * f.0 + 0x2000);
    r
}

/// The unit vector along or across the line from `b` to `a`.
pub fn vector_of_line(a: Point, b: Point, across: bool) -> (v: Vector)
    ensures
        v == line_vector(a, b, across),
{
    let dx = difference(a.x, b.x);
    let dy = difference(a.y, b.y);
    if across {
        let turned = wrap_to_i32(-(dy as i64));
        normalize(turned, dx)
    } else {
        normalize(dx, dy)
    }
}

impl Zone {
    /// Shifts the point `p` by `(dx, dy)` along the freedom vector `fv`.
    pub(crate) fn shift(&mut self, p: usize, dx: i32, dy: i32, touch: bool, fv: Vector)
        requires
            old(self)@.wf(),
            p < old(self)@.len(),
        ensures
            final(self)@ == shifted(old(self)@, p as int, dx as int, dy as int, touch, fv),
            final(self)@.wf(),
            final(self)@.len() == old(self)@.len(),
    {
        let pt = self.points[p];
        let x = if fv.x.0 != 0 { pt.x + F26d6(dx) } else { pt.x };
        let y = if fv.y.0 != 0 { pt.y + F26d6(dy) } else { pt.y };
        self.points.set(p, Point { x, y });
        if touch {
            let f = self.flags[p];
            let fx = if fv.x.0 != 0 { f | TOUCHED_X } else { f };
            let fy = if fv.y.0 != 0 { fx | TOUCHED_Y } else { fx };
            self.flags.set(p, fy);
        }
    }

    /// Puts the point `p` at `at`, now and originally.
    pub(crate) fn place(&mut self, p: usize, at: Point)
        requires
            old(self)@.wf(),
            p < old(self)@.len(),
        ensures
            final(self)@ == (ZoneView {
                points: old(self)@.points.update(p as int, at),
                original: old(self)@.original.update(p as int, at),
                ..old(self)@
            }),
            final(self)@.wf(),
            final(self)@.len() == old(self)@.len(),
    {
        self.points.set(p, at);
        self.original.set(p, at);
    }

    /// Sets the original place of the point `p` to where the point is now.
    pub(crate) fn settle(&mut self, p: usize)
        requires
            old(self)@.wf(),
            p < old(self)@.len(),
        ensures
            final(self)@ == (ZoneView {
                original: old(self)@.original.update(p as int, old(self)@.points[p as int]),
                ..old(self)@
            }),
            final(self)@.wf(),
            final(self)@.len() == old(self)@.len(),
    {
        let at = self.points[p];
        self.original.set(p, at);
    }
}

impl Interp {
    /// The number of points of the zone `z`.
    pub fn zone_len(&self, z: usize) -> (n: usize)
        ensures
            n == self@.zone(z).len(),
    {
        if z == 0 {
            self.twilight.points.len()
        } else {
            self.glyph.points.len()
        }
    }

    /// Where the point `p` of the zone `z` is now.
    pub(crate) fn cur_point(&self, z: usize, p: usize) -> (pt: Point)
        requires
            self@.has_point(z, p as int),
        ensures
            pt == self@.cur(z, p as int),
    {
        if z == 0 {
            self.twilight.points[p]
        } else {
            self.glyph.points[p]
        }
    }

    /// Where the point `p` of the zone `z` was before any instruction ran.
    pub(crate) fn org_point(&self, z: usize, p: usize) -> (pt: Point)
        requires
            self@.wf(),
            self@.has_point(z, p as int),
        ensures
            pt == self@.org(z, p as int),
    {
        if z == 0 {
            self.twilight.original[p]
        } else {
            self.glyph.original[p]
        }
    }

    /// Shifts the point `p` of the zone `z` by `(dx, dy)` along the freedom
    /// vector.
    pub(crate) fn shift_point(&mut self, z: usize, p: usize, dx: i32, dy: i32, touch: bool)
        requires
            old(self)@.wf(),
            old(self)@.has_point(z, p as int),
        ensures
            final(self)@ == old(self)@.shift_point(z, p as int, dx as int, dy as int, touch),
            final(self)@.wf(),
    {
        let fv = self.state.freedom_vec;
        if z == 0 {
            self.twilight.shift(p, dx, dy, touch, fv);
        } else {
            self.glyph.shift(p, dx, dy, touch, fv);
        }
    }

    /// Moves the point `p` of the zone `z` by `d` along the projection
    /// vector.
    pub(crate) fn move_point(&mut self, z: usize, p: usize, d: i32)
        requires
            old(self)@.wf(),
            old(self)@.has_point(z, p as int),
        ensures
            final(self)@ == old(self)@.move_point(z, p as int, d as int),
            final(self)@.wf(),
    {
        let fv = self.state.freedom_vec;
        let share = share_of_freedom(fv, self.state.project_vec);
        let dx = shift_by(d, fv.x.0, share);
        let dy = shift_by(d, fv.y.0, share);
        self.shift_point(z, p, dx, dy, true);
    }

    /// Puts the point `p` of the zone `z` at `at`, now and originally.
    pub(crate) fn place_point(&mut self, z: usize, p: usize, at: Point)
        requires
            old(self)@.wf(),
            old(self)@.has_point(z, p as int),
        ensures
            final(self)@ == old(self)@.place_point(z, p as int, at),
            final(self)@.wf(),
    {
        if z == 0 {
            self.twilight.place(p, at);
        } else {
            self.glyph.place(p, at);
        }
    }

    /// Sets the original place of the point `p` of the zone `z` to where
    /// the point is now.
    pub(crate) fn settle_point(&mut self, z: usize, p: usize)
        requires
            old(self)@.wf(),
            old(self)@.has_point(z, p as int),
        ensures
            final(self)@ == old(self)@.settle_point(z, p as int),
            final(self)@.wf(),
    {
        if z == 0 {
            self.twilight.settle(p);
        } else {
            self.glyph.settle(p);
        }
    }
}

} // verus!

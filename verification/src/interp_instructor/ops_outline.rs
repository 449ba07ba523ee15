//! Instructions that place a point where two lines cross, and that carry
//! the points which no instruction has touched along with those that have
//! been moved.

use vstd::prelude::*;

use crate::interp_instructor::state::agrees;
use crate::interp_instructor::state::Interp;
use crate::interp_instructor::state::InterpView;
use crate::interp_instructor::state::Outcome;
use crate::interp_instructor::state::Zone;
use crate::interp_instructor::state::ZoneView;
use crate::interp_instructor::state::TOUCHED_X;
use crate::interp_instructor::state::TOUCHED_Y;
use crate::interp_instructor::ScalerError;
use crate::numerics::div_toward_zero;
use crate::numerics::div_wide_toward_zero;
use crate::numerics::wrap_i32;
use crate::numerics::wrap_wide_to_i32;
use crate::numerics::F26d6;
use crate::outline::Point;

verus! {

/// The coordinate of the crossing of two lines along one axis. The first
/// line begins at `a` and runs by `da` along this axis; across the lines
/// lie `val`, the offset of the second line from the first, and `disc`,
/// which is zero where the lines are parallel. Lines that are parallel meet
/// at the mean `mean4` of the four points that define them.
pub open spec fn crossing_axis(a: int, da: int, val: int, disc: int, sum4: int) -> int {
    if disc == 0 {
        wrap_i32(div_toward_zero(sum4, 4))
    } else {
        wrap_i32(a + div_toward_zero(val * da, disc))
    }
}

/// The point where the line through `a0` and `a1` crosses the line through
/// `b0` and `b1`.
pub open spec fn crossing(a0: Point, a1: Point, b0: Point, b1: Point) -> Point {
    let dax = a1.x.0 - a0.x.0;
    let day = a1.y.0 - a0.y.0;
    let dbx = b1.x.0 - b0.x.0;
    let dby = b1.y.0 - b0.y.0;
    let dx = b0.x.0 - a0.x.0;
    let dy = b0.y.0 - a0.y.0;
    let disc = day * dbx - dax * dby;
    let val = dy * dbx - dx * dby;
    Point {
        x: F26d6(
            crossing_axis(
                a0.x.0 as int,
                dax,
                val,
                disc,
                a0.x.0 + a1.x.0 + b0.x.0 + b1.x.0,
            ) as i32,
        ),
        y: F26d6(
            crossing_axis(
                a0.y.0 as int,
                day,
                val,
                disc,
                a0.y.0 + a1.y.0 + b0.y.0 + b1.y.0,
            ) as i32,
        ),
    }
}

/// The machine after `ISECT` (`0x0F`), which takes the end and the start of
/// a line of zone pointer 0, then the end and the start of a line of zone
/// pointer 1, then a point of zone pointer 2, and puts the point where the
/// lines cross. The point is touched along both axes.
pub open spec fn isect(m: InterpView) -> Outcome {
    let s = m.state;
    if m.depth() < 5 {
        Err(ScalerError::StackUnderflow(m.pc))
    } else {
        let b1 = m.top(0) as int;
        let b0 = m.top(1) as int;
        let a1 = m.top(2) as int;
        let a0 = m.top(3) as int;
        let p = m.top(4) as int;
        if !m.has_point(s.zp2, p) || !m.has_point(s.zp1, a0) || !m.has_point(s.zp1, a1)
            || !m.has_point(s.zp0, b0) || !m.has_point(s.zp0, b1) {
            Err(ScalerError::InvalidGlyph)
        } else {
            let zone = m.zone(s.zp2);
            Ok(
                m.popped(5).with_zone(
                    s.zp2,
                    ZoneView {
                        points: zone.points.update(
                            p,
                            crossing(
                                m.cur(s.zp1, a0),
                                m.cur(s.zp1, a1),
                                m.cur(s.zp0, b0),
                                m.cur(s.zp0, b1),
                            ),
                        ),
                        flags: zone.flags.update(p, zone.flags[p] | TOUCHED_X | TOUCHED_Y),
                        ..zone
                    },
                ),
            )
        }
    }
}

fn cross_axis(a: i32, da: i128, val: i128, disc: i128, sum4: i128) -> (r: i32)
    requires
        -0x1_0000_0000 < da < 0x1_0000_0000,
        -0x4_0000_0000_0000_0000 < val < 0x4_0000_0000_0000_0000,
        -0x4_0000_0000_0000_0000 < disc < 0x4_0000_0000_0000_0000,
        -0x4_0000_0000 < sum4 < 0x4_0000_0000,
    ensures
        r == crossing_axis(a as int, da as int, val as int, disc as int, sum4 as int),
{
    if disc == 0 {
        wrap_wide_to_i32(div_wide_toward_zero(sum4, 4))
    } else {
        assert(-0x4_0000_0000_0000_0000_0000_0000 < val * da < 0x4_0000_0000_0000_0000_0000_0000)
            by (nonlinear_arith)
            requires
                -0x1_0000_0000 < da < 0x1_0000_0000,
                -0x4_0000_0000_0000_0000 < val < 0x4_0000_0000_0000_0000,
        ;
        let q = div_wide_toward_zero(val * da, disc);
        assert(-0x4_0000_0000_0000_0000_0000_0000 < q < 0x4_0000_0000_0000_0000_0000_0000) by {
            lemma_quotient_bound(val * da, disc as int, 0x4_0000_0000_0000_0000_0000_0000);
        }
        wrap_wide_to_i32(a as i128 + q)
    }
}

/// A quotient towards zero is no farther from zero than the dividend.
pub proof fn lemma_quotient_bound(a: int, b: int, bound: int)
    requires
        b != 0,
        -bound < a < bound,
    ensures
        -bound < div_toward_zero(a, b) < bound,
{
    let q = div_toward_zero(a, b);
    let an = if a < 0 {
        -a
    } else {
        a
    };
    let bn = if b < 0 {
        -b
    } else {
        b
    };
    assert(0 <= an / bn <= an) by (nonlinear_arith)
        requires
            an >= 0,
            bn >= 1,
    ;
}

fn cross(a0: Point, a1: Point, b0: Point, b1: Point) -> (r: Point)
    ensures
        r == crossing(a0, a1, b0, b1),
{
    let dax: i128 = a1.x.0 as i128 - a0.x.0 as i128;
    let day: i128 = a1.y.0 as i128 - a0.y.0 as i128;
    let dbx: i128 = b1.x.0 as i128 - b0.x.0 as i128;
    let dby: i128 = b1.y.0 as i128 - b0.y.0 as i128;
    let dx: i128 = b0.x.0 as i128 - a0.x.0 as i128;
    let dy: i128 = b0.y.0 as i128 - a0.y.0 as i128;
    assert(-0x1_0000_0000_0000_0000 < day * dbx < 0x1_0000_0000_0000_0000) by (nonlinear_arith)
        requires
            -0x1_0000_0000 < day < 0x1_0000_0000,
            -0x1_0000_0000 < dbx < 0x1_0000_0000,
    ;
    assert(-0x1_0000_0000_0000_0000 < dax * dby < 0x1_0000_0000_0000_0000) by (nonlinear_arith)
        requires
            -0x1_0000_0000 < dax < 0x1_0000_0000,
            -0x1_0000_0000 < dby < 0x1_0000_0000,
    ;
    assert(-0x1_0000_0000_0000_0000 < dy * dbx < 0x1_0000_0000_0000_0000) by (nonlinear_arith)
        requires
            -0x1_0000_0000 < dy < 0x1_0000_0000,
            -0x1_0000_0000 < dbx < 0x1_0000_0000,
    ;
    assert(-0x1_0000_0000_0000_0000 < dx * dby < 0x1_0000_0000_0000_0000) by (nonlinear_arith)
        requires
            -0x1_0000_0000 < dx < 0x1_0000_0000,
            -0x1_0000_0000 < dby < 0x1_0000_0000,
    ;
    let disc: i128 = day * dbx - dax * dby;
    let val: i128 = dy * dbx - dx * dby;
    let sum_x: i128 = a0.x.0 as i128 + a1.x.0 as i128 + b0.x.0 as i128 + b1.x.0 as i128;
    let sum_y: i128 = a0.y.0 as i128 + a1.y.0 as i128 + b0.y.0 as i128 + b1.y.0 as i128;
    Point {
        x: F26d6(cross_axis(a0.x.0, dax, val, disc, sum_x)),
        y: F26d6(cross_axis(a0.y.0, day, val, disc, sum_y)),
    }
}

/// The coordinate of `p` along the x axis, or along the y axis.
pub open spec fn axis(p: Point, x_axis: bool) -> int {
    if x_axis {
        p.x.0 as int
    } else {
        p.y.0 as int
    }
}

/// The point `p` with the coordinate `v` along the x axis, or along the y
/// axis.
pub open spec fn with_axis(p: Point, x_axis: bool, v: int) -> Point {
    if x_axis {
        Point { x: F26d6(v as i32), y: p.y }
    } else {
        Point { x: p.x, y: F26d6(v as i32) }
    }
}

/// Whether the flag `f` says that the point has been touched along the
/// axis.
pub open spec fn is_touched(f: u8, x_axis: bool) -> bool {
    if x_axis {
        f & TOUCHED_X != 0
    } else {
        f & TOUCHED_Y != 0
    }
}

/// The two touched points between which others are carried along: where
/// each was originally and where it is now, the one that was lower first.
pub struct Span {
    pub low_before: int,
    pub low_now: int,
    pub high_before: int,
    pub high_now: int,
}

/// The span between the points `r1` and `r2` of `zone`.
pub open spec fn span_of(zone: ZoneView, x_axis: bool, r1: int, r2: int) -> Span {
    if axis(zone.original[r1], x_axis) <= axis(zone.original[r2], x_axis) {
        Span {
            low_before: axis(zone.original[r1], x_axis),
            low_now: axis(zone.points[r1], x_axis),
            high_before: axis(zone.original[r2], x_axis),
            high_now: axis(zone.points[r2], x_axis),
        }
    } else {
        Span {
            low_before: axis(zone.original[r2], x_axis),
            low_now: axis(zone.points[r2], x_axis),
            high_before: axis(zone.original[r1], x_axis),
            high_now: axis(zone.points[r1], x_axis),
        }
    }
}

/// Where a point that was at `o` comes to lie by the span `s`: a point at or
/// below the lower end moves as that end has moved, a point at or above the
/// higher end as that end; a point between them keeps its share of the way
/// from the one to the other.
pub open spec fn carried(o: int, s: Span) -> int {
    if o <= s.low_before {
        wrap_i32(o + (s.low_now - s.low_before))
    } else if o >= s.high_before {
        wrap_i32(o + (s.high_now - s.high_before))
    } else if s.low_now == s.high_now {
        s.low_now
    } else {
        wrap_i32(
            s.low_now + div_toward_zero(
                (o - s.low_before) * (s.high_now - s.low_now),
                s.high_before - s.low_before,
            ),
        )
    }
}

/// The zone `zone` after its points from `first` up to, but without,
/// `until` have been carried along by the span `s`.
pub open spec fn carry_range(zone: ZoneView, x_axis: bool, first: int, until: int, s: Span) -> ZoneView {
    ZoneView {
        points: Seq::new(
            zone.points.len(),
            |i: int|
                if first <= i < until {
                    with_axis(zone.points[i], x_axis, carried(axis(zone.original[i], x_axis), s))
                } else {
                    zone.points[i]
                },
        ),
        ..zone
    }
}

/// The zone `zone` after its points from `first` up to, but without,
/// `until` have been carried along between the touched points `r1` and
/// `r2`.
pub open spec fn interpolate_range(
    zone: ZoneView,
    x_axis: bool,
    first: int,
    until: int,
    r1: int,
    r2: int,
) -> ZoneView {
    carry_range(zone, x_axis, first, until, span_of(zone, x_axis, r1, r2))
}

/// The zone `zone` after its points from `first` up to, but without,
/// `until` have moved as far as the touched point `t` has moved; `t` itself
/// stays.
pub open spec fn follow_range(zone: ZoneView, x_axis: bool, first: int, until: int, t: int) -> ZoneView {
    ZoneView {
        points: Seq::new(
            zone.points.len(),
            |i: int|
                if first <= i < until && i != t {
                    with_axis(
                        zone.points[i],
                        x_axis,
                        wrap_i32(
                            axis(zone.points[i], x_axis) + wrap_i32(
                                axis(zone.points[t], x_axis) - axis(zone.original[t], x_axis),
                            ),
                        ),
                    )
                } else {
                    zone.points[i]
                },
        ),
        ..zone
    }
}

/// The first touched point from `from` up to, but without, `until`.
pub open spec fn first_touched(flags: Seq<u8>, x_axis: bool, from: int, until: int) -> Option<int>
    decreases until - from,
{
    if from >= until {
        None
    } else if is_touched(flags[from], x_axis) {
        Some(from)
    } else {
        first_touched(flags, x_axis, from + 1, until)
    }
}

/// The zone after the rest of the contour from `first` to `last` has been
/// gone through from `point` on. `ft` is the first touched point of the
/// contour, `ct` the last touched point before `point`. The points between
/// two touched points are carried along between them; those behind the last
/// touched point and before the first are carried along between these two,
/// round the end of the contour. Where a single point is touched, all others
/// follow it.
pub open spec fn scan_contour(
    zone: ZoneView,
    x_axis: bool,
    first: int,
    last: int,
    ft: int,
    ct: int,
    point: int,
) -> ZoneView
    decreases last + 1 - point,
{
    if point > last {
        if ct == ft {
            follow_range(zone, x_axis, first, last + 1, ct)
        } else {
            interpolate_range(
                interpolate_range(zone, x_axis, ct + 1, last + 1, ct, ft),
                x_axis,
                first,
                ft,
                ct,
                ft,
            )
        }
    } else if is_touched(zone.flags[point], x_axis) {
        scan_contour(
            interpolate_range(zone, x_axis, ct + 1, point, ct, point),
            x_axis,
            first,
            last,
            ft,
            point,
            point + 1,
        )
    } else {
        scan_contour(zone, x_axis, first, last, ft, ct, point + 1)
    }
}

/// The zone after the untouched points of the contour from `first` to
/// `last` have been carried along. A contour without a touched point stays
/// as it is.
pub open spec fn carry_contour(zone: ZoneView, x_axis: bool, first: int, last: int) -> ZoneView {
    match first_touched(zone.flags, x_axis, first, last + 1) {
        Some(ft) => scan_contour(zone, x_axis, first, last, ft, ft, ft + 1),
        None => zone,
    }
}

/// The last point of the contour `c`, or the last point of the zone where
/// the contour claims to end behind it.
pub open spec fn contour_last(zone: ZoneView, c: int) -> int {
    if zone.ends[c] < zone.len() {
        zone.ends[c] as int
    } else {
        zone.len() - 1
    }
}

/// The zone after the untouched points of its contours from number `c` on
/// have been carried along; contour `c` begins at the point `first`. A
/// contour that ends before it begins is passed over.
pub open spec fn carry_contours(zone: ZoneView, x_axis: bool, c: int, first: int) -> ZoneView
    decreases zone.ends.len() - c,
{
    if c < 0 || c >= zone.ends.len() {
        zone
    } else if first > contour_last(zone, c) {
        carry_contours(zone, x_axis, c + 1, first)
    } else {
        let after = carry_contour(zone, x_axis, first, contour_last(zone, c));
        if after.ends == zone.ends && after.len() == zone.len() {
            carry_contours(after, x_axis, c + 1, contour_last(zone, c) + 1)
        } else {
            zone
        }
    }
}

/// The machine after `IUP` (`0x30` along y, `0x31` along x), which carries
/// the untouched points of the glyph zone along with the touched points of
/// their contours.
pub open spec fn iup(m: InterpView, op: u8) -> Outcome {
    Ok(InterpView { glyph: carry_contours(m.glyph, op == 0x31, 0, 0), ..m })
}

/// The machine after `ISECT` or `IUP`.
pub open spec fn outline_op(m: InterpView, op: u8) -> Outcome {
    if op == 0x0F {
        isect(m)
    } else {
        iup(m, op)
    }
}

/// Whether `op` is `ISECT` or `IUP`.
pub open spec fn is_outline_op(op: u8) -> bool {
    op == 0x0F || op == 0x30 || op == 0x31
}

fn axis_of(p: Point, x_axis: bool) -> (v: i32)
    ensures
        v == axis(p, x_axis),
{
    if x_axis {
        p.x.0
    } else {
        p.y.0
    }
}

fn set_axis(p: Point, x_axis: bool, v: i32) -> (r: Point)
    ensures
        r == with_axis(p, x_axis, v as int),
{
    if x_axis {
        Point { x: F26d6(v), y: p.y }
    } else {
        Point { x: p.x, y: F26d6(v) }
    }
}

fn touched_along(f: u8, x_axis: bool) -> (b: bool)
    ensures
        b == is_touched(f, x_axis),
{
    if x_axis {
        f & TOUCHED_X != 0
    } else {
        f & TOUCHED_Y != 0
    }
}

fn carry(o: i32, low_before: i32, low_now: i32, high_before: i32, high_now: i32) -> (r: i32)
    requires
        low_before <= high_before,
    ensures
        r == carried(
            o as int,
            Span {
                low_before: low_before as int,
                low_now: low_now as int,
                high_before: high_before as int,
                high_now: high_now as int,
            },
        ),
{
    if o <= low_before {
        wrap_wide_to_i32(o as i128 + (low_now as i128 - low_before as i128))
    } else if o >= high_before {
        wrap_wide_to_i32(o as i128 + (high_now as i128 - high_before as i128))
    } else if low_now == high_now {
        low_now
    } else {
        let way: i128 = o as i128 - low_before as i128;
        let stretch: i128 = high_now as i128 - low_now as i128;
        assert(-0x1_0000_0000_0000_0000 < way * stretch < 0x1_0000_0000_0000_0000) by (nonlinear_arith)
            requires
                0 < way < 0x1_0000_0000,
                -0x1_0000_0000 < stretch < 0x1_0000_0000,
        ;
        let q = div_wide_toward_zero(way * stretch, high_before as i128 - low_before as i128);
        proof {
            lemma_quotient_bound(
                way * stretch,
                high_before - low_before,
                0x1_0000_0000_0000_0000,
            );
        }
        wrap_wide_to_i32(low_now as i128 + q)
    }
}

impl Zone {
    fn interpolate_all(&mut self, x_axis: bool, first: usize, until: usize, r1: usize, r2: usize)
        requires
            old(self)@.wf(),
            until <= old(self)@.len(),
            r1 < old(self)@.len(),
            r2 < old(self)@.len(),
        ensures
            final(self)@ == interpolate_range(
                old(self)@,
                x_axis,
                first as int,
                until as int,
                r1 as int,
                r2 as int,
            ),
            final(self)@.wf(),
            final(self)@.len() == old(self)@.len(),
            final(self)@.flags == old(self)@.flags,
            final(self)@.ends == old(self)@.ends,
    {
        let o1 = axis_of(self.original[r1], x_axis);
        let o2 = axis_of(self.original[r2], x_axis);
        let c1 = axis_of(self.points[r1], x_axis);
        let c2 = axis_of(self.points[r2], x_axis);
        let (low_before, low_now, high_before, high_now) = if o1 <= o2 {
            (o1, c1, o2, c2)
        } else {
            (o2, c2, o1, c1)
        };
        let ghost s = span_of(old(self)@, x_axis, r1 as int, r2 as int);
        if until <= first {
            assert(self@.points =~= carry_range(old(self)@, x_axis, first as int, until as int, s).points);
            return ;
        }
        let mut i: usize = first;
        while i < until
            invariant
                first <= i <= until,
                until <= old(self)@.len(),
                low_before <= high_before,
                s == (Span {
                    low_before: low_before as int,
                    low_now: low_now as int,
                    high_before: high_before as int,
                    high_now: high_now as int,
                }),
                self.original@ == old(self)@.original,
                self.flags@ == old(self)@.flags,
                self.ends@ == old(self)@.ends,
                old(self)@.wf(),
                self.points@ == carry_range(old(self)@, x_axis, first as int, i as int, s).points,
            decreases until - i,
        {
            let v = carry(
                axis_of(self.original[i], x_axis),
                low_before,
                low_now,
                high_before,
                high_now,
            );
            let p = self.points[i];
            self.points.set(i, set_axis(p, x_axis, v));
            i = i + 1;
            assert(self.points@ =~= carry_range(old(self)@, x_axis, first as int, i as int, s).points);
        }
    }

    fn follow_all(&mut self, x_axis: bool, first: usize, until: usize, t: usize)
        requires
            old(self)@.wf(),
            first <= until <= old(self)@.len(),
            t < old(self)@.len(),
        ensures
            final(self)@ == follow_range(old(self)@, x_axis, first as int, until as int, t as int),
            final(self)@.wf(),
            final(self)@.len() == old(self)@.len(),
            final(self)@.flags == old(self)@.flags,
            final(self)@.ends == old(self)@.ends,
    {
        let delta = wrap_wide_to_i32(
            axis_of(self.points[t], x_axis) as i128 - axis_of(self.original[t], x_axis) as i128,
        );
        let mut i: usize = first;
        assert(self.points@ =~= follow_range(old(self)@, x_axis, first as int, i as int, t as int).points);
        while i < until
            invariant
                first <= i <= until,
                until <= old(self)@.len(),
                t < old(self)@.len(),
                delta == wrap_i32(
                    axis(old(self)@.points[t as int], x_axis) - axis(
                        old(self)@.original[t as int],
                        x_axis,
                    ),
                ),
                self.original@ == old(self)@.original,
                self.flags@ == old(self)@.flags,
                self.ends@ == old(self)@.ends,
                old(self)@.wf(),
                self.points@ == follow_range(
                    old(self)@,
                    x_axis,
                    first as int,
                    i as int,
                    t as int,
                ).points,
            decreases until - i,
        {
            if i != t {
                let p = self.points[i];
                let v = wrap_wide_to_i32(axis_of(p, x_axis) as i128 + delta as i128);
                self.points.set(i, set_axis(p, x_axis, v));
            }
            i = i + 1;
            assert(self.points@ =~= follow_range(
                old(self)@,
                x_axis,
                first as int,
                i as int,
                t as int,
            ).points);
        }
    }

    fn find_touched(&self, x_axis: bool, from: usize, until: usize) -> (r: Option<usize>)
        requires
            self@.wf(),
            until <= self@.len(),
        ensures
            match r {
                Some(i) => first_touched(self@.flags, x_axis, from as int, until as int) == Some(
                    i as int,
                ) && from <= i < until,
                None => first_touched(self@.flags, x_axis, from as int, until as int) is None,
            },
    {
        let mut i: usize = from;
        while i < until
            invariant
                from <= i || until <= from,
                until <= self@.len(),
                self@.wf(),
                first_touched(self@.flags, x_axis, from as int, until as int) == first_touched(
                    self@.flags,
                    x_axis,
                    i as int,
                    until as int,
                ),
            decreases until - i,
        {
            if touched_along(self.flags[i], x_axis) {
                return Some(i);
            }
            i = i + 1;
        }
        None
    }

    fn carry_one_contour(&mut self, x_axis: bool, first: usize, last: usize)
        requires
            old(self)@.wf(),
            first <= last < old(self)@.len(),
        ensures
            final(self)@ == carry_contour(old(self)@, x_axis, first as int, last as int),
            final(self)@.wf(),
            final(self)@.len() == old(self)@.len(),
            final(self)@.flags == old(self)@.flags,
            final(self)@.ends == old(self)@.ends,
    {
        let n = self.points.len();
        let ft = match self.find_touched(x_axis, first, last + 1) {
            Some(i) => i,
            None => { return ; },
        };
        let mut ct: usize = ft;
        let mut point: usize = ft + 1;
        while point <= last
            invariant
                first <= ft <= ct < point <= last + 1,
                last < old(self)@.len(),
                last < n,
                self@.wf(),
                self@.len() == old(self)@.len(),
                self@.flags == old(self)@.flags,
                self@.ends == old(self)@.ends,
                scan_contour(
                    old(self)@,
                    x_axis,
                    first as int,
                    last as int,
                    ft as int,
                    ft as int,
                    ft + 1,
                ) == scan_contour(
                    self@,
                    x_axis,
                    first as int,
                    last as int,
                    ft as int,
                    ct as int,
                    point as int,
                ),
            decreases last + 1 - point,
        {
            if touched_along(self.flags[point], x_axis) {
                self.interpolate_all(x_axis, ct + 1, point, ct, point);
                ct = point;
            }
            point = point + 1;
        }
        if ct == ft {
            self.follow_all(x_axis, first, last + 1, ct);
        } else {
            self.interpolate_all(x_axis, ct + 1, last + 1, ct, ft);
            self.interpolate_all(x_axis, first, ft, ct, ft);
        }
    }

    /// Carries the untouched points of all contours along with the touched
    /// ones, along the x axis or along the y axis.
    pub(crate) fn carry_untouched(&mut self, x_axis: bool)
        requires
            old(self)@.wf(),
        ensures
            final(self)@ == carry_contours(old(self)@, x_axis, 0, 0),
            final(self)@.wf(),
            final(self)@.len() == old(self)@.len(),
    {
        let n = self.points.len();
        let mut first: usize = 0;
        let mut c: usize = 0;
        while c < self.ends.len()
            invariant
                c <= self@.ends.len(),
                first <= n,
                n == self@.len(),
                n == old(self)@.len(),
                self@.wf(),
                carry_contours(old(self)@, x_axis, 0, 0) == carry_contours(
                    self@,
                    x_axis,
                    c as int,
                    first as int,
                ),
            decreases self@.ends.len() - c,
        {
            let end = self.ends[c] as usize;
            if n == 0 {
                c = c + 1;
            } else {
                let last: usize = if end < n { end } else { n - 1 };
                if first > last {
                    c = c + 1;
                } else {
                    self.carry_one_contour(x_axis, first, last);
                    first = last + 1;
                    c = c + 1;
                }
            }
        }
    }
}

impl Interp {
    fn do_isect(&mut self) -> (r: Result<(), ScalerError>)
        requires
            old(self)@.wf(),
        ensures
            agrees(r, final(self)@, isect(old(self)@)),
            r is Ok ==> final(self)@.wf(),
    {
        let depth = self.stack.len();
        let s = self.state;
        if depth < 5 {
            return Err(ScalerError::StackUnderflow(self.pc));
        }
        let b1 = self.stack[depth - 1] as usize;
        let b0 = self.stack[depth - 2] as usize;
        let a1 = self.stack[depth - 3] as usize;
        let a0 = self.stack[depth - 4] as usize;
        let p = self.stack[depth - 5] as usize;
        if p >= self.zone_len(s.zp2) || a0 >= self.zone_len(s.zp1) || a1 >= self.zone_len(s.zp1)
            || b0 >= self.zone_len(s.zp0) || b1 >= self.zone_len(s.zp0) {
            return Err(ScalerError::InvalidGlyph);
        }
        let at = cross(
            self.cur_point(s.zp1, a0),
            self.cur_point(s.zp1, a1),
            self.cur_point(s.zp0, b0),
            self.cur_point(s.zp0, b1),
        );
        self.stack.truncate(depth - 5);
        assert(self.stack@ =~= old(self)@.popped(5).stack);
        if s.zp2 == 0 {
            let f = self.twilight.flags[p];
            self.twilight.points.set(p, at);
            self.twilight.flags.set(p, f | TOUCHED_X | TOUCHED_Y);
        } else {
            let f = self.glyph.flags[p];
            self.glyph.points.set(p, at);
            self.glyph.flags.set(p, f | TOUCHED_X | TOUCHED_Y);
        }
        Ok(())
    }

    /// Runs `ISECT` or `IUP`.
    pub(crate) fn do_outline_op(&mut self, op: u8) -> (r: Result<(), ScalerError>)
        requires
            old(self)@.wf(),
            is_outline_op(op),
        ensures
            agrees(r, final(self)@, outline_op(old(self)@, op)),
            r is Ok ==> final(self)@.wf(),
    {
        if op == 0x0F {
            self.do_isect()
        } else {
            self.glyph.carry_untouched(op == 0x31);
            Ok(())
        }
    }
}

} // verus!

//! Glyph outlines as lines and quadratic curves over an array of points.

use vstd::arithmetic::div_mod::lemma_fundamental_div_mod;
use vstd::arithmetic::div_mod::lemma_fundamental_div_mod_converse;
use vstd::prelude::*;

use crate::numerics::F26d6;
use crate::truetype_loader::glyph_data_table::strictly_increasing;
use crate::truetype_loader::glyph_data_table::GlyphDescriptionView;
use crate::truetype_loader::GlyphDescription;
use crate::truetype_loader::GlyphPoint;

verus! {

/// A point of an outline, in pixels with six fraction bits.
#[derive(Clone, Copy, Debug, PartialEq, Eq, Structural)]
pub struct Point {
    pub x: F26d6,
    pub y: F26d6,
}

impl Point {
    pub fn new(x: F26d6, y: F26d6) -> (p: Point)
        ensures
            p == (Point { x, y }),
    {
        Point { x, y }
    }
}

/// One piece of an outline. The numbers are indices into the point array of
/// the glyph: a line from the first point to the second, or a quadratic
/// curve from the first point to the third with the second as control point.
#[derive(Clone, Copy, Debug, PartialEq, Eq, Structural)]
pub enum Curve {
    Line(usize, usize),
    Quad(usize, usize, usize),
}

/// An assembled outline: its pieces, and the points that they refer to.
#[derive(Clone, Debug)]
pub struct Glyph {
    pub curves: Vec<Curve>,
    pub points: Vec<Point>,
}

/// What a `Glyph` holds.
pub struct Outline {
    pub curves: Seq<Curve>,
    pub points: Seq<Point>,
}

impl View for Glyph {
    type V = Outline;

    open spec fn view(&self) -> Outline {
        Outline { curves: self.curves@, points: self.points@ }
    }
}

/// The index in `[start, end)` that is congruent to `i` modulo the length of
/// that range.
pub open spec fn wrapped_index(i: int, start: int, end: int) -> int {
    start + (i - start) % (end - start)
}

/// Brings the index `i` into the contour `[start, end)` by wrapping around.
pub fn wrap(i: usize, start: usize, end: usize) -> (r: usize)
    requires
        start < end,
    ensures
        r == wrapped_index(i as int, start as int, end as int),
        start <= r < end,
{
    let len: usize = end - start;
    if i >= start {
        start + (i - start) % len
    } else {
        let back: usize = (start - i) % len;
        let ghost q = (start - i) / (len as int);
        proof {
            lemma_fundamental_div_mod(start - i, len as int);
            if back == 0 {
                assert(i - start == -q * len + 0) by (nonlinear_arith)
                    requires
                        start - i == len * q + back,
                        back == 0,
                ;
                lemma_fundamental_div_mod_converse(i - start, len as int, -q, 0);
            } else {
                assert(i - start == (-q - 1) * len + (len - back)) by (nonlinear_arith)
                    requires
                        start - i == len * q + back,
                ;
                lemma_fundamental_div_mod_converse(i - start, len as int, -q - 1, len - back);
            }
        }
        if back == 0 {
            start
        } else {
            start + (len - back)
        }
    }
}

/// The `k`-th index behind `start` in the contour `[s, e)`, going round.
fn index_behind(s: usize, e: usize, start: usize, k: usize) -> (p: usize)
    requires
        s <= start < e,
        k <= e - s,
    ensures
        p == wrapped_index(start + k, s as int, e as int),
        s <= p < e,
{
    let len: usize = e - s;
    let room: usize = e - start;
    let ghost offset = (start - s) + k;
    proof {
        if k >= room {
            assert(offset == 1 * len + (offset - len)) by (nonlinear_arith);
            lemma_fundamental_div_mod_converse(offset, len as int, 1, offset - len);
        } else {
            assert(offset == 0 * len + offset) by (nonlinear_arith);
            lemma_fundamental_div_mod_converse(offset, len as int, 0, offset);
        }
    }
    if k >= room {
        s + (k - room)
    } else {
        start + k
    }
}

/// The point half way between `a` and `b`; each coordinate is rounded down
/// to a whole raw unit.
pub open spec fn midpoint(a: Point, b: Point) -> Point {
    Point {
        x: F26d6(((a.x.0 + b.x.0) / 2) as i32),
        y: F26d6(((a.y.0 + b.y.0) / 2) as i32),
    }
}

fn halfway(a: i32, b: i32) -> (m: i32)
    ensures
        m == (a + b) / 2,
{
    let sum: i64 = a as i64 + b as i64;
    assert(sum >> 1 == sum / 2) by (bit_vector);
    (sum >> 1) as i32
}

fn midpoint_of(a: Point, b: Point) -> (m: Point)
    ensures
        m == midpoint(a, b),
{
    Point { x: F26d6(halfway(a.x.0, b.x.0)), y: F26d6(halfway(a.y.0, b.y.0)) }
}

/// The first point of the contour `[s, e)` that lies on the curve.
pub open spec fn first_on_curve(points: Seq<GlyphPoint>, s: int, e: int) -> Option<int>
    decreases e - s,
{
    if s >= e {
        None
    } else if points[s].on_curve {
        Some(s)
    } else {
        first_on_curve(points, s + 1, e)
    }
}

/// The outline `out` with one more piece.
pub open spec fn with_curve(out: Outline, c: Curve) -> Outline {
    Outline { curves: out.curves.push(c), points: out.points }
}

/// The outline `out` with the contour closed: where a control point is
/// pending, a curve over it back to the first point of the contour; then
/// always a line to the first point.
pub open spec fn close_contour(out: Outline, last: int, pending: Option<int>, start: int) -> Outline {
    match pending {
        Some(ctrl) => with_curve(
            with_curve(out, Curve::Quad(last as usize, ctrl as usize, start as usize)),
            Curve::Line(start as usize, start as usize),
        ),
        None => with_curve(out, Curve::Line(last as usize, start as usize)),
    }
}

/// The outline after the points of the contour `[s, s + len)` from the
/// `k`-th behind `start` on have been walked, and the contour closed. The
/// walk goes round the contour from `start`, which lies on the curve. `last`
/// is where the pen stands, `pending` a control point that waits for the end
/// of its curve.
///
/// A point on the curve ends a line, or the curve of the pending control
/// point. A control point waits. Where one is pending already, the curve of
/// that one ends half way between the two, at a point that is added to the
/// point array.
pub open spec fn walk_contour(
    points: Seq<GlyphPoint>,
    s: int,
    len: int,
    start: int,
    k: int,
    last: int,
    pending: Option<int>,
    out: Outline,
) -> Outline
    decreases len - k,
{
    if k >= len || len <= 0 {
        close_contour(out, last, pending, start)
    } else {
        let p = wrapped_index(start + k, s, s + len);
        if points[p].on_curve {
            let c = match pending {
                Some(ctrl) => Curve::Quad(last as usize, ctrl as usize, p as usize),
                None => Curve::Line(last as usize, p as usize),
            };
            walk_contour(points, s, len, start, k + 1, p, None, with_curve(out, c))
        } else {
            match pending {
                Some(ctrl) => walk_contour(
                    points,
                    s,
                    len,
                    start,
                    k + 1,
                    out.points.len() as int,
                    Some(p),
                    Outline {
                        curves: out.curves.push(
                            Curve::Quad(last as usize, ctrl as usize, out.points.len() as usize),
                        ),
                        points: out.points.push(midpoint(out.points[ctrl], out.points[p])),
                    },
                ),
                None => walk_contour(points, s, len, start, k + 1, last, Some(p), out),
            }
        }
    }
}

/// The outline after the contours from number `c` on have been added to
/// `out`; contour `c` begins at the point `s`. `None` where a contour has no
/// point on the curve to start from.
pub open spec fn add_contours(
    ends: Seq<u16>,
    points: Seq<GlyphPoint>,
    c: int,
    s: int,
    out: Outline,
) -> Option<Outline>
    decreases ends.len() - c,
{
    if c < 0 || c >= ends.len() {
        Some(out)
    } else {
        match first_on_curve(points, s, ends[c] + 1) {
            Some(start) => add_contours(
                ends,
                points,
                c + 1,
                ends[c] + 1,
                walk_contour(points, s, ends[c] + 1 - s, start, 1, start, None, out),
            ),
            None => None,
        }
    }
}

/// Whether the stored points, the end points of the contours and the points
/// handed in fit together: the end points increase, none lies outside the
/// stored points, and each stored point has a point handed in.
pub open spec fn consistent(ends: Seq<u16>, points: Seq<GlyphPoint>, cpoints: Seq<Point>) -> bool {
    &&& cpoints.len() == points.len()
    &&& strictly_increasing(ends)
    &&& ends.len() > 0 ==> ends[ends.len() - 1] < points.len()
}

/// The outline of the glyph `glyph` drawn over the points `cpoints`: the
/// contours one after the other. There is none for a glyph without contours
/// of its own, for data that does not fit together, and for a contour
/// without a point on the curve.
pub open spec fn assemble(glyph: GlyphDescriptionView, cpoints: Seq<Point>) -> Option<Outline> {
    match glyph {
        GlyphDescriptionView::Simple { end_points_of_contours, points, .. } => {
            if consistent(end_points_of_contours, points, cpoints) {
                add_contours(
                    end_points_of_contours,
                    points,
                    0,
                    0,
                    Outline { curves: Seq::empty(), points: cpoints },
                )
            } else {
                None
            }
        },
        _ => None,
    }
}

/// The points of a glyph in font units as points of an outline: each
/// coordinate as a whole number.
pub open spec fn unscaled_points(points: Seq<GlyphPoint>) -> Seq<Point> {
    Seq::new(
        points.len(),
        |i: int| Point { x: F26d6::wrapped(points[i].x * 64), y: F26d6::wrapped(points[i].y * 64) },
    )
}

fn find_on_curve(points: &Vec<GlyphPoint>, s: usize, e: usize) -> (r: Option<usize>)
    requires
        s <= e <= points@.len(),
    ensures
        match r {
            Some(i) => first_on_curve(points@, s as int, e as int) == Some(i as int) && s <= i < e
                && points@[i as int].on_curve,
            None => first_on_curve(points@, s as int, e as int) is None,
        },
{
    let mut i: usize = s;
    while i < e
        invariant
            s <= i <= e,
            e <= points@.len(),
            first_on_curve(points@, s as int, e as int) == first_on_curve(
                points@,
                i as int,
                e as int,
            ),
        decreases e - i,
    {
        if points[i].on_curve {
            return Some(i);
        }
        i = i + 1;
    }
    None
}

fn check_ends(ends: &Vec<u16>, n: usize) -> (b: bool)
    ensures
        b == (strictly_increasing(ends@) && (ends@.len() > 0 ==> ends@[ends@.len() - 1] < n)),
{
    let mut i: usize = 1;
    while i < ends.len()
        invariant
            1 <= i,
            forall|a: int, b: int| 0 <= a < b < i && b < ends@.len() ==> ends@[a] < ends@[b],
        decreases ends.len() - i,
    {
        if ends[i - 1] >= ends[i] {
            return false;
        }
        i = i + 1;
    }
    ends.len() == 0 || (ends[ends.len() - 1] as usize) < n
}

/// Walks one contour and adds its pieces to `glyph`.
fn add_contour(glyph: &mut Glyph, points: &Vec<GlyphPoint>, s: usize, e: usize, start: usize)
    requires
        s <= start < e <= points@.len(),
        points@.len() <= old(glyph).points@.len(),
    ensures
        final(glyph)@ == walk_contour(
            points@,
            s as int,
            e - s,
            start as int,
            1,
            start as int,
            None,
            old(glyph)@,
        ),
        old(glyph).points@.len() <= final(glyph).points@.len(),
{
    let len: usize = e - s;
    let ghost target = walk_contour(
        points@,
        s as int,
        len as int,
        start as int,
        1,
        start as int,
        None,
        glyph@,
    );
    let mut last: usize = start;
    let mut pending: Option<usize> = None;
    let mut k: usize = 1;
    while k < len
        invariant
            1 <= k <= len,
            len == e - s,
            s <= start < e <= points@.len(),
            points@.len() <= glyph.points@.len(),
            old(glyph).points@.len() <= glyph.points@.len(),
            pending matches Some(ctrl) ==> ctrl < points@.len(),
            target == walk_contour(
                points@,
                s as int,
                len as int,
                start as int,
                k as int,
                last as int,
                match pending {
                    Some(ctrl) => Some(ctrl as int),
                    None => None,
                },
                glyph@,
            ),
        decreases len - k,
    {
        let p: usize = index_behind(s, e, start, k);
        if points[p].on_curve {
            match pending {
                Some(ctrl) => glyph.curves.push(Curve::Quad(last, ctrl, p)),
                None => glyph.curves.push(Curve::Line(last, p)),
            }
            last = p;
            pending = None;
        } else {
            match pending {
                Some(ctrl) => {
                    let m = midpoint_of(glyph.points[ctrl], glyph.points[p]);
                    let im: usize = glyph.points.len();
                    glyph.curves.push(Curve::Quad(last, ctrl, im));
                    glyph.points.push(m);
                    last = im;
                    pending = Some(p);
                },
                None => {
                    pending = Some(p);
                },
            }
        }
        k = k + 1;
    }
    match pending {
        Some(ctrl) => {
            glyph.curves.push(Curve::Quad(last, ctrl, start));
            glyph.curves.push(Curve::Line(start, start));
        },
        None => {
            glyph.curves.push(Curve::Line(last, start));
        },
    }
}

impl Glyph {
    /// Assembles the outline of a simple glyph over the points `cpoints`,
    /// which stand for the stored points of the glyph one for one.
    pub fn from_truetype_with_points(ttf_glyph: &GlyphDescription, cpoints: Vec<Point>) -> (r:
        Option<Glyph>)
        ensures
            view_of_glyph(r) == assemble(ttf_glyph@, cpoints@),
    {
        match ttf_glyph {
            GlyphDescription::Simple { end_points_of_contours, points, .. } => {
                if cpoints.len() != points.len() || !check_ends(
                    end_points_of_contours,
                    points.len(),
                ) {
                    return None;
                }
                let ghost given = cpoints@;
                let mut glyph = Glyph { curves: Vec::new(), points: cpoints };
                let ghost first = glyph@;
                assert(assemble(ttf_glyph@, given) == add_contours(
                    end_points_of_contours@,
                    points@,
                    0,
                    0,
                    first,
                ));
                let mut s: usize = 0;
                let mut c: usize = 0;
                while c < end_points_of_contours.len()
                    invariant
                        c <= end_points_of_contours@.len(),
                        strictly_increasing(end_points_of_contours@),
                        end_points_of_contours@.len() > 0 ==> end_points_of_contours@[
                            end_points_of_contours@.len() - 1
                        ] < points@.len(),
                        s <= points@.len(),
                        c > 0 ==> s == end_points_of_contours@[c - 1] + 1,
                        c == 0 ==> s == 0,
                        given == cpoints@,
                        points@.len() <= glyph.points@.len(),
                        assemble(ttf_glyph@, given) == add_contours(
                            end_points_of_contours@,
                            points@,
                            c as int,
                            s as int,
                            glyph@,
                        ),
                    decreases end_points_of_contours.len() - c,
                {
                    let e: usize = end_points_of_contours[c] as usize + 1;
                    proof {
                        let n = end_points_of_contours@.len() - 1;
                        if c < n {
                            assert(end_points_of_contours@[c as int] < end_points_of_contours@[n]);
                        }
                        if c > 0 {
                            assert(end_points_of_contours@[c - 1] < end_points_of_contours@[
                                c as int
                            ]);
                        }
                    }
                    let start = match find_on_curve(points, s, e) {
                        Some(i) => i,
                        None => { return None; },
                    };
                    add_contour(&mut glyph, points, s, e, start);
                    s = e;
                    c = c + 1;
                }
                Some(glyph)
            },
            _ => None,
        }
    }

    /// Assembles the outline of a simple glyph over its own points, in font
    /// units.
    pub fn from_truetype(ttf_glyph: &GlyphDescription) -> (r: Option<Glyph>)
        ensures
            view_of_glyph(r) == (match ttf_glyph@ {
                GlyphDescriptionView::Simple { points, .. } => assemble(
                    ttf_glyph@,
                    unscaled_points(points),
                ),
                _ => None,
            }),
    {
        match ttf_glyph {
            GlyphDescription::Simple { points, .. } => {
                let mut cpoints: Vec<Point> = Vec::new();
                let mut i: usize = 0;
                while i < points.len()
                    invariant
                        i <= points@.len(),
                        cpoints@.len() == i,
                        forall|j: int|
                            0 <= j < i ==> cpoints@[j] == unscaled_points(points@)[j],
                    decreases points.len() - i,
                {
                    let p = points[i];
                    cpoints.push(Point { x: F26d6::from(p.x), y: F26d6::from(p.y) });
                    i = i + 1;
                }
                assert(cpoints@ =~= unscaled_points(points@));
                Glyph::from_truetype_with_points(ttf_glyph, cpoints)
            },
            _ => None,
        }
    }
}

/// The view of an outline that may be absent.
pub open spec fn view_of_glyph(g: Option<Glyph>) -> Option<Outline> {
    match g {
        Some(v) => Some(v@),
        None => None,
    }
}

/// Whether every point that the piece `c` names is one of the first `n`.
pub open spec fn curve_in_range(c: Curve, n: int) -> bool {
    match c {
        Curve::Line(a, b) => a < n && b < n,
        Curve::Quad(a, b, e) => a < n && b < n && e < n,
    }
}

/// Whether the outline `out` is built over the points `given`: these come
/// first among its points, unchanged, and every piece names points that the
/// outline has.
pub open spec fn built_over(out: Outline, given: Seq<Point>) -> bool {
    &&& given.len() <= out.points.len()
    &&& out.points.subrange(0, given.len() as int) == given
    &&& forall|i: int|
        0 <= i < out.curves.len() ==> curve_in_range(
            #[trigger] out.curves[i],
            out.points.len() as int,
        )
}

proof fn lemma_with_curve_built(out: Outline, given: Seq<Point>, c: Curve)
    requires
        built_over(out, given),
        curve_in_range(c, out.points.len() as int),
    ensures
        built_over(with_curve(out, c), given),
{
    let after = with_curve(out, c);
    assert forall|i: int| 0 <= i < after.curves.len() implies curve_in_range(
        #[trigger] after.curves[i],
        after.points.len() as int,
    ) by {
        if i < out.curves.len() {
            assert(after.curves[i] == out.curves[i]);
        }
    }
}

proof fn lemma_walk_built(
    points: Seq<GlyphPoint>,
    s: int,
    len: int,
    start: int,
    k: int,
    last: int,
    pending: Option<int>,
    out: Outline,
    given: Seq<Point>,
)
    requires
        built_over(out, given),
        0 <= s,
        0 < len,
        s + len <= given.len(),
        s <= start < s + len,
        1 <= k,
        0 <= last < out.points.len(),
        pending matches Some(c) ==> 0 <= c < given.len(),
        out.points.len() + (len - k) < usize::MAX,
    ensures
        built_over(walk_contour(points, s, len, start, k, last, pending, out), given),
        walk_contour(points, s, len, start, k, last, pending, out).points.len() <= out.points.len()
            + (if len - k > 0 {
            len - k
        } else {
            0
        }),
    decreases len - k,
{
    if k >= len {
        match pending {
            Some(ctrl) => {
                let first = with_curve(out, Curve::Quad(last as usize, ctrl as usize, start as usize));
                lemma_with_curve_built(
                    out,
                    given,
                    Curve::Quad(last as usize, ctrl as usize, start as usize),
                );
                lemma_with_curve_built(first, given, Curve::Line(start as usize, start as usize));
            },
            None => {
                lemma_with_curve_built(out, given, Curve::Line(last as usize, start as usize));
            },
        }
    } else {
        vstd::arithmetic::div_mod::lemma_mod_pos_bound(start + k - s, len);
        let p = wrapped_index(start + k, s, s + len);
        assert(s <= p < s + len);
        if points[p].on_curve {
            let c = match pending {
                Some(ctrl) => Curve::Quad(last as usize, ctrl as usize, p as usize),
                None => Curve::Line(last as usize, p as usize),
            };
            lemma_with_curve_built(out, given, c);
            lemma_walk_built(points, s, len, start, k + 1, p, None, with_curve(out, c), given);
        } else {
            match pending {
                Some(ctrl) => {
                    let n = out.points.len() as int;
                    let next = Outline {
                        curves: out.curves.push(Curve::Quad(last as usize, ctrl as usize, n as usize)),
                        points: out.points.push(midpoint(out.points[ctrl], out.points[p])),
                    };
                    assert(next.points.subrange(0, given.len() as int) =~= given) by {
                        assert(out.points.subrange(0, given.len() as int) == given);
                        assert forall|i: int| 0 <= i < given.len() implies next.points.subrange(
                            0,
                            given.len() as int,
                        )[i] == given[i] by {
                            assert(next.points[i] == out.points[i]);
                            assert(out.points.subrange(0, given.len() as int)[i] == out.points[i]);
                        }
                    }
                    assert forall|i: int| 0 <= i < next.curves.len() implies curve_in_range(
                        #[trigger] next.curves[i],
                        next.points.len() as int,
                    ) by {
                        if i < out.curves.len() {
                            assert(next.curves[i] == out.curves[i]);
                            assert(curve_in_range(out.curves[i], out.points.len() as int));
                        }
                    }
                    lemma_walk_built(points, s, len, start, k + 1, n, Some(p), next, given);
                },
                None => {
                    lemma_walk_built(points, s, len, start, k + 1, last, Some(p), out, given);
                },
            }
        }
    }
}

proof fn lemma_first_on_curve_range(points: Seq<GlyphPoint>, s: int, e: int)
    ensures
        first_on_curve(points, s, e) matches Some(i) ==> s <= i < e,
    decreases e - s,
{
    if s < e && !points[s].on_curve {
        lemma_first_on_curve_range(points, s + 1, e);
    }
}

proof fn lemma_contours_built(
    ends: Seq<u16>,
    points: Seq<GlyphPoint>,
    c: int,
    s: int,
    out: Outline,
    given: Seq<Point>,
)
    requires
        built_over(out, given),
        strictly_increasing(ends),
        ends.len() > 0 ==> ends[ends.len() - 1] < given.len(),
        0 <= c,
        0 <= s,
        c > 0 ==> c <= ends.len() && s == ends[c - 1] + 1,
        c == 0 ==> s == 0,
        out.points.len() <= given.len() + s,
        2 * given.len() < usize::MAX,
        add_contours(ends, points, c, s, out) is Some,
    ensures
        built_over(add_contours(ends, points, c, s, out)->Some_0, given),
    decreases ends.len() - c,
{
    if c < ends.len() {
        let e = ends[c] + 1;
        let n = ends.len() - 1;
        if c < n {
            assert(ends[c] < ends[n]);
        }
        if c > 0 {
            assert(ends[c - 1] < ends[c]);
        }
        lemma_first_on_curve_range(points, s, e);
        let start = first_on_curve(points, s, e)->Some_0;
        lemma_walk_built(points, s, e - s, start, 1, start, None, out, given);
        let after = walk_contour(points, s, e - s, start, 1, start, None, out);
        lemma_contours_built(ends, points, c + 1, e, after, given);
    }
}

/// Every outline that is assembled is built over the points that were
/// handed in: they are its first points, and each line and curve runs
/// between points of the outline.
pub proof fn lemma_assemble_built_over(glyph: GlyphDescriptionView, cpoints: Seq<Point>)
    requires
        assemble(glyph, cpoints) is Some,
        2 * cpoints.len() < usize::MAX,
    ensures
        built_over(assemble(glyph, cpoints)->Some_0, cpoints),
{
    match glyph {
        GlyphDescriptionView::Simple { end_points_of_contours, points, .. } => {
            let first = Outline { curves: Seq::empty(), points: cpoints };
            assert(first.points.subrange(0, cpoints.len() as int) =~= cpoints);
            lemma_contours_built(end_points_of_contours, points, 0, 0, first, cpoints);
        },
        _ => {},
    }
}

/// Assembling is a function of the glyph and the points: two outlines of
/// the same glyph over the same points are the same, piece for piece and
/// point for point.
pub proof fn lemma_assemble_repeatable(
    glyph: GlyphDescriptionView,
    cpoints: Seq<Point>,
    first: Option<Outline>,
    second: Option<Outline>,
)
    requires
        first == assemble(glyph, cpoints),
        second == assemble(glyph, cpoints),
    ensures
        first == second,
{
}

} // verus!

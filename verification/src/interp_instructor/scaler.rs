//! The scaler: it prepares the hinting machine for one size of a font and
//! runs it on the glyphs.

use vstd::prelude::*;

use crate::interp_instructor::machine::loaded;
use crate::interp_instructor::machine::run;
use crate::interp_instructor::machine::started;
use crate::interp_instructor::machine::STEP_LIMIT;
use crate::interp_instructor::ops_state::scale_funits;
use crate::interp_instructor::ops_state::scaled;
use crate::interp_instructor::state::Definition;
use crate::interp_instructor::state::Interp;
use crate::interp_instructor::state::InterpState;
use crate::interp_instructor::state::InterpView;
use crate::interp_instructor::state::Outcome;
use crate::interp_instructor::state::Zone;
use crate::interp_instructor::state::ZoneView;
use crate::interp_instructor::state::CVT_PROGRAM;
use crate::interp_instructor::state::FONT_PROGRAM;
use crate::interp_instructor::state::MAX_CALLS;
use crate::interp_instructor::state::ON_CURVE;
use crate::interp_instructor::zone_ops::plus;
use crate::interp_instructor::ScalerError;
use crate::numerics::F26d6;
use crate::outline::assemble;
use crate::outline::Glyph;
use crate::outline::Outline;
use crate::outline::Point;
use crate::truetype_loader::font::SfntFontView;
use crate::truetype_loader::glyph_data_table::GlyphDescriptionView;
use crate::truetype_loader::GlyphDataTable;
use crate::truetype_loader::GlyphDescription;
use crate::truetype_loader::GlyphPoint;
use crate::truetype_loader::HorizMetricsTable;
use crate::truetype_loader::LongHorMetric;
use crate::truetype_loader::MaxProfileTable;
use crate::truetype_loader::SfntFont;
use crate::truetype_loader::TableTag;

verus! {

/// The number of pixels that the em square takes at `point_size` points on
/// a device of `dpi` dots per inch: `point_size * dpi / 72`, rounded to the
/// nearest pixel, and no more than fits in 32 bits.
pub open spec fn pixels_per_em(point_size: u32, dpi: u32) -> u32 {
    if (point_size * dpi + 36) / 72 > 0xFFFF_FFFF {
        0xFFFF_FFFF
    } else {
        ((point_size * dpi + 36) / 72) as u32
    }
}

/// Computes the pixels per em.
pub fn ppem_of(point_size: u32, dpi: u32) -> (r: u32)
    ensures
        r == pixels_per_em(point_size, dpi),
{
    let a: u128 = point_size as u128;
    let b: u128 = dpi as u128;
    assert(a * b <= 0xFFFF_FFFF * 0xFFFF_FFFF) by (nonlinear_arith)
        requires
            a <= 0xFFFF_FFFF,
            b <= 0xFFFF_FFFF,
    ;
    let v: u128 = (a * b + 36) / 72;
    if v > 0xFFFF_FFFF {
        0xFFFF_FFFF
    } else {
        v as u32
    }
}

/// The numerator of the scale: one font unit is
/// `point_size * dpi / (72 * units_per_em)` pixels.
pub open spec fn scale_numerator(point_size: u32, dpi: u32) -> u64 {
    (point_size * dpi) as u64
}

/// The denominator of the scale.
pub open spec fn scale_denominator(units_per_em: u16) -> u64 {
    (72 * units_per_em) as u64
}

/// A definition that has not been made.
pub open spec fn undefined() -> Definition {
    Definition { defined: false, program: 0, start: 0 }
}

/// A zone of `n` points at the origin, without contours.
pub open spec fn blank_zone(n: nat) -> ZoneView {
    ZoneView {
        points: Seq::new(n, |i: int| Point { x: F26d6(0), y: F26d6(0) }),
        original: Seq::new(n, |i: int| Point { x: F26d6(0), y: F26d6(0) }),
        flags: Seq::new(n, |i: int| 0u8),
        ends: Seq::empty(),
    }
}

/// The control values `cv` of the font scaled to pixels.
pub open spec fn scaled_values(cv: Seq<i16>, num: u64, den: u64) -> Seq<F26d6> {
    Seq::new(cv.len(), |i: int| F26d6(scaled(cv[i] as int, num as int, den as int) as i32))
}

/// The machine of a font before any of its programs has run: an empty
/// stack, storage and twilight zone of the sizes that the maximum profile
/// gives, all cleared, no definitions, the control values scaled, and the
/// graphics state at its defaults.
pub open spec fn fresh_machine(
    maxp: MaxProfileTable,
    cv: Seq<i16>,
    font_program: Seq<u8>,
    cvt_program: Seq<u8>,
    point_size: u32,
    dpi: u32,
    units_per_em: u16,
) -> InterpView {
    InterpView {
        stack: Seq::empty(),
        pc: 0,
        program: FONT_PROGRAM,
        state: InterpState::initial(),
        storage: Seq::new(maxp.max_storage as nat, |i: int| 0u32),
        cv_table: scaled_values(
            cv,
            scale_numerator(point_size, dpi),
            scale_denominator(units_per_em),
        ),
        functions: Seq::new(maxp.max_function_defs as nat, |i: int| undefined()),
        instructions: Seq::new(256, |i: int| undefined()),
        frames: Seq::empty(),
        font_program,
        cvt_program,
        glyph_program: Seq::empty(),
        twilight: blank_zone(maxp.max_twilight_points as nat),
        glyph: blank_zone(0),
        max_stack: maxp.max_stack as usize,
        ppem: pixels_per_em(point_size, dpi),
        point_size,
        scale_num: scale_numerator(point_size, dpi),
        scale_den: scale_denominator(units_per_em),
    }
}

/// The machine `m` ready for the next program: the stack empty and the
/// graphics state at its defaults.
pub open spec fn cleared(m: InterpView) -> InterpView {
    InterpView { stack: Seq::empty(), state: InterpState::initial(), ..m }
}

/// The graphics state `s` as a glyph finds it: what the control value
/// program has set stays, but the vectors, the reference points, the zone
/// pointers, the loop counter and the round state, which every program
/// finds at their defaults.
pub open spec fn settled(s: InterpState) -> InterpState {
    InterpState {
        dual_prj_vec: InterpState::initial().dual_prj_vec,
        freedom_vec: InterpState::initial().freedom_vec,
        project_vec: InterpState::initial().project_vec,
        loopv: 1,
        round_state: InterpState::initial().round_state,
        rp0: 0,
        rp1: 0,
        rp2: 0,
        zp0: 1,
        zp1: 1,
        zp2: 1,
        ..s
    }
}

/// The machine after the font program and then the control value program
/// have run on `fresh`, with the graphics state settled; the machine as the
/// glyphs of this size find it.
pub open spec fn prepared(fresh: InterpView) -> Outcome {
    match run(started(fresh, FONT_PROGRAM), STEP_LIMIT as nat) {
        Ok(m) => match run(started(cleared(m), CVT_PROGRAM), STEP_LIMIT as nat) {
            Ok(after) => Ok(after.with_state(settled(after.state))),
            Err(e) => Err(e),
        },
        Err(e) => Err(e),
    }
}

/// The points of a glyph scaled to pixels.
pub open spec fn scaled_points(points: Seq<GlyphPoint>, num: u64, den: u64) -> Seq<Point> {
    Seq::new(
        points.len(),
        |i: int|
            Point {
                x: F26d6(scaled(points[i].x as int, num as int, den as int) as i32),
                y: F26d6(scaled(points[i].y as int, num as int, den as int) as i32),
            },
    )
}

/// The flags of the points of a glyph as the machine keeps them.
pub open spec fn zone_flags(points: Seq<GlyphPoint>) -> Seq<u8> {
    Seq::new(
        points.len(),
        |i: int|
            if points[i].on_curve {
                ON_CURVE
            } else {
                0u8
            },
    )
}

/// The horizontal metrics of the glyph number `glyph_index`, where the
/// font has them.
pub open spec fn metric_of(metrics: Seq<LongHorMetric>, glyph_index: int) -> Option<LongHorMetric> {
    if 0 <= glyph_index < metrics.len() {
        Some(metrics[glyph_index])
    } else {
        None
    }
}

/// The four points that follow the points of the outline in the glyph zone,
/// for programs that fit the metrics of the glyph to the grid: the origin of
/// the glyph, which lies its left side bearing to the left of `x_min`; the
/// point one advance width to the right of the origin; and two points for
/// vertical metrics, which are not kept and lie at zero. A glyph without
/// metrics has its origin at zero and no advance.
pub open spec fn phantom_points(x_min: i16, metric: Option<LongHorMetric>, num: u64, den: u64) -> Seq<
    Point,
> {
    let left = match metric {
        Some(m) => x_min - m.left_side_bearing,
        None => 0,
    };
    let advance = match metric {
        Some(m) => m.advance_width as int,
        None => 0,
    };
    seq![
        Point { x: F26d6(scaled(left, num as int, den as int) as i32), y: F26d6(0) },
        Point { x: F26d6(scaled(left + advance, num as int, den as int) as i32), y: F26d6(0) },
        Point { x: F26d6(0), y: F26d6(0) },
        Point { x: F26d6(0), y: F26d6(0) },
    ]
}

/// The machine `snapshot` set up for a glyph: the stack is empty, and the
/// glyph zone holds the scaled points of the glyph and, behind them, the
/// points `phantoms`; each point is also its own original.
pub open spec fn working(
    snapshot: InterpView,
    ends: Seq<u16>,
    points: Seq<GlyphPoint>,
    phantoms: Seq<Point>,
) -> InterpView {
    InterpView {
        stack: Seq::empty(),
        glyph: ZoneView {
            points: scaled_points(points, snapshot.scale_num, snapshot.scale_den) + phantoms,
            original: scaled_points(points, snapshot.scale_num, snapshot.scale_den) + phantoms,
            flags: zone_flags(points) + Seq::new(phantoms.len(), |i: int| 0u8),
            ends,
        },
        ..snapshot
    }
}

/// The points `points` moved by `offset`.
pub open spec fn translated(points: Seq<Point>, offset: Point) -> Seq<Point> {
    Seq::new(
        points.len(),
        |i: int|
            Point {
                x: plus(points[i].x, offset.x.0 as int),
                y: plus(points[i].y, offset.y.0 as int),
            },
    )
}

/// The outline of `glyph` at the size of `snapshot`, grid-fitted and moved
/// by `offset`: the points are scaled, the program of the glyph runs on a
/// copy of the snapshot, the points of the outline are moved, and the
/// outline is assembled over them. Only a simple glyph has such an outline.
/// A machine that is not well formed, an error of the program, and an
/// outline that cannot be assembled make the glyph invalid.
pub open spec fn hinted_outline(
    snapshot: InterpView,
    glyph: GlyphDescriptionView,
    metric: Option<LongHorMetric>,
    offset: Point,
) -> Result<Outline, ScalerError> {
    match glyph {
        GlyphDescriptionView::Simple { x_min, end_points_of_contours, instructions, points, .. } => {
            let start = working(
                snapshot,
                end_points_of_contours,
                points,
                phantom_points(x_min, metric, snapshot.scale_num, snapshot.scale_den),
            );
            if !start.wf() {
                Err(ScalerError::InvalidGlyph)
            } else {
                match run(loaded(start, instructions), STEP_LIMIT as nat) {
                    Ok(m) => if m.glyph.points.len() < points.len() {
                        Err(ScalerError::InvalidGlyph)
                    } else {
                        match assemble(
                            glyph,
                            translated(m.glyph.points.subrange(0, points.len() as int), offset),
                        ) {
                            Some(outline) => Ok(outline),
                            None => Err(ScalerError::InvalidGlyph),
                        }
                    },
                    Err(e) => Err(e),
                }
            }
        },
        _ => Err(ScalerError::InvalidGlyph),
    }
}

fn scale_values(cv: &Vec<i16>, num: u64, den: u64) -> (r: Vec<F26d6>)
    requires
        den > 0,
    ensures
        r@ == scaled_values(cv@, num, den),
{
    let mut out: Vec<F26d6> = Vec::new();
    let mut i: usize = 0;
    while i < cv.len()
        invariant
            i <= cv@.len(),
            den > 0,
            out@.len() == i,
            forall|j: int| 0 <= j < i ==> out@[j] == scaled_values(cv@, num, den)[j],
        decreases cv.len() - i,
    {
        out.push(F26d6(scale_funits(cv[i] as i32, num, den)));
        i = i + 1;
    }
    assert(out@ =~= scaled_values(cv@, num, den));
    out
}

fn scale_points(points: &Vec<GlyphPoint>, num: u64, den: u64) -> (r: Vec<Point>)
    requires
        den > 0,
    ensures
        r@ == scaled_points(points@, num, den),
{
    let mut out: Vec<Point> = Vec::new();
    let mut i: usize = 0;
    while i < points.len()
        invariant
            i <= points@.len(),
            den > 0,
            out@.len() == i,
            forall|j: int| 0 <= j < i ==> out@[j] == scaled_points(points@, num, den)[j],
        decreases points.len() - i,
    {
        let p = points[i];
        out.push(
            Point {
                x: F26d6(scale_funits(p.x, num, den)),
                y: F26d6(scale_funits(p.y, num, den)),
            },
        );
        i = i + 1;
    }
    assert(out@ =~= scaled_points(points@, num, den));
    out
}

fn flags_of(points: &Vec<GlyphPoint>) -> (r: Vec<u8>)
    ensures
        r@ == zone_flags(points@),
{
    let mut out: Vec<u8> = Vec::new();
    let mut i: usize = 0;
    while i < points.len()
        invariant
            i <= points@.len(),
            out@.len() == i,
            forall|j: int| 0 <= j < i ==> out@[j] == zone_flags(points@)[j],
        decreases points.len() - i,
    {
        out.push(if points[i].on_curve { ON_CURVE } else { 0 });
        i = i + 1;
    }
    assert(out@ =~= zone_flags(points@));
    out
}

fn translate(points: &Vec<Point>, n: usize, offset: Point) -> (r: Vec<Point>)
    requires
        n <= points@.len(),
    ensures
        r@ == translated(points@.subrange(0, n as int), offset),
{
    let mut out: Vec<Point> = Vec::new();
    let mut i: usize = 0;
    while i < n
        invariant
            i <= n,
            n <= points@.len(),
            out@.len() == i,
            forall|j: int|
                0 <= j < i ==> out@[j] == translated(points@.subrange(0, n as int), offset)[j],
        decreases n - i,
    {
        let p = points[i];
        out.push(Point { x: p.x + offset.x, y: p.y + offset.y });
        i = i + 1;
    }
    assert(out@ =~= translated(points@.subrange(0, n as int), offset));
    out
}

fn phantoms_of(x_min: i16, metric: Option<LongHorMetric>, num: u64, den: u64) -> (r: Vec<Point>)
    requires
        den > 0,
    ensures
        r@ == phantom_points(x_min, metric, num, den),
{
    let (left, advance): (i32, i32) = match metric {
        Some(m) => (x_min as i32 - m.left_side_bearing as i32, m.advance_width as i32),
        None => (0, 0),
    };
    let mut out: Vec<Point> = Vec::new();
    out.push(Point { x: F26d6(scale_funits(left, num, den)), y: F26d6(0) });
    out.push(Point { x: F26d6(scale_funits(left + advance, num, den)), y: F26d6(0) });
    out.push(Point { x: F26d6(0), y: F26d6(0) });
    out.push(Point { x: F26d6(0), y: F26d6(0) });
    assert(out@ =~= phantom_points(x_min, metric, num, den));
    out
}

fn join_points(a: Vec<Point>, b: &Vec<Point>) -> (r: Vec<Point>)
    ensures
        r@ == a@ + b@,
{
    let mut out = a;
    let mut i: usize = 0;
    while i < b.len()
        invariant
            i <= b@.len(),
            out@ == a@ + b@.subrange(0, i as int),
        decreases b.len() - i,
    {
        out.push(b[i]);
        i = i + 1;
        assert(out@ =~= a@ + b@.subrange(0, i as int));
    }
    assert(b@.subrange(0, b@.len() as int) =~= b@);
    out
}

fn padded_flags(points: &Vec<GlyphPoint>, extra: usize) -> (r: Vec<u8>)
    ensures
        r@ == zone_flags(points@) + Seq::new(extra as nat, |i: int| 0u8),
{
    let mut out = flags_of(points);
    let mut i: usize = 0;
    while i < extra
        invariant
            i <= extra,
            out@ == zone_flags(points@) + Seq::new(i as nat, |k: int| 0u8),
        decreases extra - i,
    {
        out.push(0);
        i = i + 1;
        assert(out@ =~= zone_flags(points@) + Seq::new(i as nat, |k: int| 0u8));
    }
    out
}

fn blank(n: usize) -> (z: Zone)
    ensures
        z@ == blank_zone(n as nat),
{
    let mut points: Vec<Point> = Vec::new();
    let mut flags: Vec<u8> = Vec::new();
    let mut i: usize = 0;
    while i < n
        invariant
            i <= n,
            points@.len() == i,
            flags@.len() == i,
            forall|j: int| 0 <= j < i ==> points@[j] == (Point { x: F26d6(0), y: F26d6(0) }),
            forall|j: int| 0 <= j < i ==> flags@[j] == 0u8,
        decreases n - i,
    {
        points.push(Point { x: F26d6(0), y: F26d6(0) });
        flags.push(0);
        i = i + 1;
    }
    let original = points.clone();
    assert(original@ =~= points@);
    let z = Zone { points, original, flags, ends: Vec::new() };
    assert(z@.points =~= blank_zone(n as nat).points);
    assert(z@.original =~= blank_zone(n as nat).original);
    assert(z@.flags =~= blank_zone(n as nat).flags);
    z
}

fn zeros(n: usize) -> (v: Vec<u32>)
    ensures
        v@ == Seq::new(n as nat, |i: int| 0u32),
{
    let mut v: Vec<u32> = Vec::new();
    let mut i: usize = 0;
    while i < n
        invariant
            i <= n,
            v@.len() == i,
            forall|j: int| 0 <= j < i ==> v@[j] == 0u32,
        decreases n - i,
    {
        v.push(0);
        i = i + 1;
    }
    assert(v@ =~= Seq::new(n as nat, |i: int| 0u32));
    v
}

fn no_definitions(n: usize) -> (v: Vec<Definition>)
    ensures
        v@ == Seq::new(n as nat, |i: int| undefined()),
{
    let mut v: Vec<Definition> = Vec::new();
    let mut i: usize = 0;
    while i < n
        invariant
            i <= n,
            v@.len() == i,
            forall|j: int| 0 <= j < i ==> v@[j] == undefined(),
        decreases n - i,
    {
        v.push(Definition { defined: false, program: 0, start: 0 });
        i = i + 1;
    }
    assert(v@ =~= Seq::new(n as nat, |i: int| undefined()));
    v
}

impl Zone {
    /// A copy of the zone.
    pub fn duplicate(&self) -> (z: Zone)
        ensures
            z@ == self@,
    {
        let points = self.points.clone();
        let original = self.original.clone();
        let flags = self.flags.clone();
        let ends = self.ends.clone();
        assert(points@ =~= self.points@);
        assert(original@ =~= self.original@);
        assert(flags@ =~= self.flags@);
        assert(ends@ =~= self.ends@);
        Zone { points, original, flags, ends }
    }
}

impl Interp {
    /// The machine of a font before any of its programs has run, for
    /// `point_size` points on a device of `dpi` dots per inch.
    pub fn new(
        maxp: &MaxProfileTable,
        cv: &Vec<i16>,
        font_program: &Vec<u8>,
        cvt_program: &Vec<u8>,
        point_size: u32,
        dpi: u32,
        units_per_em: u16,
    ) -> (m: Interp)
        requires
            units_per_em > 0,
        ensures
            m@ == fresh_machine(
                *maxp,
                cv@,
                font_program@,
                cvt_program@,
                point_size,
                dpi,
                units_per_em,
            ),
            m@.wf(),
    {
        let num: u64 = {
            let a: u64 = point_size as u64;
            let b: u64 = dpi as u64;
            assert(a * b <= 0xFFFF_FFFF * 0xFFFF_FFFF) by (nonlinear_arith)
                requires
                    a <= 0xFFFF_FFFF,
                    b <= 0xFFFF_FFFF,
            ;
            a * b
        };
        let den: u64 = 72 * (units_per_em as u64);
        let fpgm = font_program.clone();
        let prep = cvt_program.clone();
        assert(fpgm@ =~= font_program@);
        assert(prep@ =~= cvt_program@);
        Interp {
            stack: Vec::new(),
            pc: 0,
            program: FONT_PROGRAM,
            state: InterpState::new(),
            storage: zeros(maxp.max_storage as usize),
            cv_table: scale_values(cv, num, den),
            functions: no_definitions(maxp.max_function_defs as usize),
            instructions: no_definitions(256),
            frames: Vec::new(),
            font_program: fpgm,
            cvt_program: prep,
            glyph_program: Vec::new(),
            twilight: blank(maxp.max_twilight_points as usize),
            glyph: blank(0),
            max_stack: maxp.max_stack as usize,
            ppem: ppem_of(point_size, dpi),
            point_size,
            scale_num: num,
            scale_den: den,
        }
    }

    /// A copy of the machine.
    pub fn duplicate(&self) -> (m: Interp)
        ensures
            m@ == self@,
    {
        let stack = self.stack.clone();
        let storage = self.storage.clone();
        let cv_table = self.cv_table.clone();
        let functions = self.functions.clone();
        let instructions = self.instructions.clone();
        let frames = self.frames.clone();
        let font_program = self.font_program.clone();
        let cvt_program = self.cvt_program.clone();
        let glyph_program = self.glyph_program.clone();
        assert(stack@ =~= self.stack@);
        assert(storage@ =~= self.storage@);
        assert(cv_table@ =~= self.cv_table@);
        assert(functions@ =~= self.functions@);
        assert(instructions@ =~= self.instructions@);
        assert(frames@ =~= self.frames@);
        assert(font_program@ =~= self.font_program@);
        assert(cvt_program@ =~= self.cvt_program@);
        assert(glyph_program@ =~= self.glyph_program@);
        Interp {
            stack,
            pc: self.pc,
            program: self.program,
            state: self.state,
            storage,
            cv_table,
            functions,
            instructions,
            frames,
            font_program,
            cvt_program,
            glyph_program,
            twilight: self.twilight.duplicate(),
            glyph: self.glyph.duplicate(),
            max_stack: self.max_stack,
            ppem: self.ppem,
            point_size: self.point_size,
            scale_num: self.scale_num,
            scale_den: self.scale_den,
        }
    }

    /// Whether the machine meets its invariant.
    pub fn is_wf(&self) -> (b: bool)
        ensures
            b == self@.wf(),
    {
        self.stack.len() <= self.max_stack && self.state.zp0 <= 1 && self.state.zp1 <= 1
            && self.state.zp2 <= 1 && self.point_in_range(self.state.rp0) && self.point_in_range(
            self.state.rp1,
        ) && self.point_in_range(self.state.rp2) && self.twilight.points.len()
            == self.twilight.original.len() && self.twilight.points.len()
            == self.twilight.flags.len() && self.glyph.points.len() == self.glyph.original.len()
            && self.glyph.points.len() == self.glyph.flags.len() && self.frames.len() <= MAX_CALLS
            && self.scale_den > 0
    }

    /// Runs the font program, then the control value program, each on an
    /// empty stack and with the graphics state at its defaults.
    pub fn prepare(&mut self) -> (r: Result<(), ScalerError>)
        requires
            old(self)@.wf(),
        ensures
            match r {
                Ok(_) => prepared(old(self)@) == Ok::<InterpView, ScalerError>(final(self)@),
                Err(e) => prepared(old(self)@) == Err::<InterpView, ScalerError>(e),
            },
            r is Ok ==> final(self)@.wf(),
    {
        self.run_program(FONT_PROGRAM)?;
        self.stack.clear();
        self.state = InterpState::new();
        self.run_program(CVT_PROGRAM)?;
        let defaults = InterpState::new();
        self.state.dual_prj_vec = defaults.dual_prj_vec;
        self.state.freedom_vec = defaults.freedom_vec;
        self.state.project_vec = defaults.project_vec;
        self.state.loopv = 1;
        self.state.round_state = defaults.round_state;
        self.state.rp0 = 0;
        self.state.rp1 = 0;
        self.state.rp2 = 0;
        self.state.zp0 = 1;
        self.state.zp1 = 1;
        self.state.zp2 = 1;
        Ok(())
    }
}

/// A scaler that grid-fits the glyphs of a font at one size.
pub struct InstructedGlyphScaler<'f> {
    pub glyph_table: &'f GlyphDataTable,
    /// The horizontal metrics of the glyphs, where the font has them.
    pub metrics: Option<&'f HorizMetricsTable>,
    pub output_dpi: u32,
    pub units_per_em: u16,
    pub point_size: u32,
    /// The machine as the font program and the control value program have
    /// left it. Every glyph starts from a copy of it.
    pub state: Interp,
}

/// What an `InstructedGlyphScaler` holds.
pub struct ScalerView {
    pub glyphs: Seq<GlyphDescriptionView>,
    pub metrics: Seq<LongHorMetric>,
    pub output_dpi: u32,
    pub units_per_em: u16,
    pub point_size: u32,
    pub state: InterpView,
}

impl<'f> View for InstructedGlyphScaler<'f> {
    type V = ScalerView;

    open spec fn view(&self) -> ScalerView {
        ScalerView {
            glyphs: self.glyph_table@,
            metrics: match self.metrics {
                Some(t) => t@,
                None => Seq::empty(),
            },
            output_dpi: self.output_dpi,
            units_per_em: self.units_per_em,
            point_size: self.point_size,
            state: self.state@,
        }
    }
}

/// The bytes of a program that may be absent: none.
pub open spec fn program_or_none(p: Option<Seq<u8>>) -> Seq<u8> {
    match p {
        Some(code) => code,
        None => Seq::empty(),
    }
}

/// The scaler of `font` for `point_size` points at `dpi` dots per inch: the
/// machine of the font after its font program and its control value
/// program. The font must have glyph data, a header, control values and a
/// maximum profile, which are asked for in this order, and an em square that
/// is not empty.
pub open spec fn scaler_of(font: SfntFontView, dpi: u32, point_size: u32) -> Result<
    ScalerView,
    ScalerError,
> {
    if font.glyf_table is None {
        Err(ScalerError::MissingTable(TableTag::GlyphData))
    } else if font.head_table is None {
        Err(ScalerError::MissingTable(TableTag::FontHeader))
    } else if font.cval_table is None {
        Err(ScalerError::MissingTable(TableTag::ControlValue))
    } else if font.maxp_table is None {
        Err(ScalerError::MissingTable(TableTag::MaxProfile))
    } else if font.head_table->Some_0.units_per_em == 0 {
        Err(ScalerError::InvalidGlyph)
    } else {
        match prepared(
            fresh_machine(
                font.maxp_table->Some_0,
                font.cval_table->Some_0,
                program_or_none(font.fprg_table),
                program_or_none(font.prep_table),
                point_size,
                dpi,
                font.head_table->Some_0.units_per_em,
            ),
        ) {
            Ok(m) => Ok(
                ScalerView {
                    glyphs: font.glyf_table->Some_0,
                    metrics: match font.hmtx_table {
                        Some(t) => t,
                        None => Seq::empty(),
                    },
                    output_dpi: dpi,
                    units_per_em: font.head_table->Some_0.units_per_em,
                    point_size,
                    state: m,
                },
            ),
            Err(e) => Err(e),
        }
    }
}

impl<'f> InstructedGlyphScaler<'f> {
    /// Sets the scaler up for `font` at `point_size` points on a device of
    /// `dpi` dots per inch, and runs the programs of the font.
    pub fn new(font: &'f SfntFont, dpi: u32, point_size: u32) -> (r: Result<
        InstructedGlyphScaler<'f>,
        ScalerError,
    >)
        ensures
            match r {
                Ok(s) => scaler_of(font@, dpi, point_size) == Ok::<ScalerView, ScalerError>(s@),
                Err(e) => scaler_of(font@, dpi, point_size) == Err::<ScalerView, ScalerError>(e),
            },
    {
        let glyph_table = match &font.glyf_table {
            Some(t) => t,
            None => { return Err(ScalerError::MissingTable(TableTag::GlyphData)); },
        };
        let head = match font.head_table {
            Some(t) => t,
            None => { return Err(ScalerError::MissingTable(TableTag::FontHeader)); },
        };
        let cv = match &font.cval_table {
            Some(t) => t,
            None => { return Err(ScalerError::MissingTable(TableTag::ControlValue)); },
        };
        let maxp = match font.maxp_table {
            Some(t) => t,
            None => { return Err(ScalerError::MissingTable(TableTag::MaxProfile)); },
        };
        if head.units_per_em == 0 {
            return Err(ScalerError::InvalidGlyph);
        }
        let none: Vec<u8> = Vec::new();
        let font_program = match &font.fprg_table {
            Some(p) => &p.0,
            None => &none,
        };
        let cvt_program = match &font.prep_table {
            Some(p) => &p.0,
            None => &none,
        };
        let mut state = Interp::new(
            &maxp,
            &cv.0,
            font_program,
            cvt_program,
            point_size,
            dpi,
            head.units_per_em,
        );
        state.prepare()?;
        let metrics = match &font.hmtx_table {
            Some(t) => Some(t),
            None => None,
        };
        Ok(
            InstructedGlyphScaler {
                glyph_table,
                metrics,
                output_dpi: dpi,
                units_per_em: head.units_per_em,
                point_size,
                state,
            },
        )
    }

    /// The scale as a fraction: one font unit is so many pixels.
    pub fn uniform_scale(&self) -> (r: (u64, u64))
        ensures
            r == (self.state.scale_num, self.state.scale_den),
    {
        (self.state.scale_num, self.state.scale_den)
    }

    /// What `scale_glyph` gives for the glyph number `glyph_index`.
    pub open spec fn scaled_glyph(s: ScalerView, glyph_index: int, offset: Point) -> Result<
        Outline,
        ScalerError,
    > {
        if 0 <= glyph_index < s.glyphs.len() {
            hinted_outline(
                s.state,
                s.glyphs[glyph_index],
                metric_of(s.metrics, glyph_index),
                offset,
            )
        } else {
            Err(ScalerError::InvalidGlyph)
        }
    }

    /// Scales and grid-fits the glyph number `glyph_index` and moves it by
    /// `offset`. The scaler itself stays as it is: the same glyph gives the
    /// same outline every time.
    pub fn scale_glyph(&self, glyph_index: usize, offset: Point) -> (r: Result<Glyph, ScalerError>)
        ensures
            match r {
                Ok(g) => InstructedGlyphScaler::scaled_glyph(self@, glyph_index as int, offset)
                    == Ok::<Outline, ScalerError>(g@),
                Err(e) => InstructedGlyphScaler::scaled_glyph(self@, glyph_index as int, offset)
                    == Err::<Outline, ScalerError>(e),
            },
    {
        if glyph_index >= self.glyph_table.glyphs.len() {
            return Err(ScalerError::InvalidGlyph);
        }
        let glyph = &self.glyph_table.glyphs[glyph_index];
        assert(self@.glyphs[glyph_index as int] == glyph@);
        let metric: Option<LongHorMetric> = match self.metrics {
            Some(t) => if glyph_index < t.metrics.len() {
                Some(t.metrics[glyph_index])
            } else {
                None
            },
            None => None,
        };
        assert(metric == metric_of(self@.metrics, glyph_index as int));
        match glyph {
            GlyphDescription::Simple {
                x_min,
                end_points_of_contours,
                instructions,
                points,
                ..
            } => {
                let mut machine = self.state.duplicate();
                machine.stack.clear();
                if machine.scale_den == 0 {
                    return Err(ScalerError::InvalidGlyph);
                }
                let phantoms = phantoms_of(*x_min, metric, machine.scale_num, machine.scale_den);
                let scaled = join_points(
                    scale_points(points, machine.scale_num, machine.scale_den),
                    &phantoms,
                );
                let original = scaled.clone();
                assert(original@ =~= scaled@);
                let ends = end_points_of_contours.clone();
                assert(ends@ =~= end_points_of_contours@);
                machine.glyph = Zone {
                    points: scaled,
                    original,
                    flags: padded_flags(points, phantoms.len()),
                    ends,
                };
                assert(machine@ == working(
                    self.state@,
                    end_points_of_contours@,
                    points@,
                    phantoms@,
                ));
                if !machine.is_wf() {
                    return Err(ScalerError::InvalidGlyph);
                }
                machine.interpret(instructions)?;
                if machine.glyph.points.len() < points.len() {
                    return Err(ScalerError::InvalidGlyph);
                }
                let moved = translate(&machine.glyph.points, points.len(), offset);
                match Glyph::from_truetype_with_points(glyph, moved) {
                    Some(g) => Ok(g),
                    None => Err(ScalerError::InvalidGlyph),
                }
            },
            _ => Err(ScalerError::InvalidGlyph),
        }
    }
}

/// Scaling a glyph is a function of the scaler, the glyph and the offset:
/// two outlines of the same glyph, made by the same scaler with the same
/// offset, are the same.
pub proof fn lemma_scale_glyph_repeatable(
    s: ScalerView,
    glyph_index: int,
    offset: Point,
    first: Result<Outline, ScalerError>,
    second: Result<Outline, ScalerError>,
)
    requires
        first == InstructedGlyphScaler::scaled_glyph(s, glyph_index, offset),
        second == InstructedGlyphScaler::scaled_glyph(s, glyph_index, offset),
    ensures
        first == second,
{
}

} // verus!

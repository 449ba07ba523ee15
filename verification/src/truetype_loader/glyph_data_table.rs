//! The `glyf` table: the outline of every glyph.

use vstd::prelude::*;

use crate::numerics::wrap_i32;
use crate::truetype_loader::binary_reader::be_i16;
use crate::truetype_loader::binary_reader::be_u16;
use crate::truetype_loader::binary_reader::be_u16_array;
use crate::truetype_loader::binary_reader::BinaryReader;
use crate::truetype_loader::F2dot14;
use crate::truetype_loader::LoadError;
use crate::truetype_loader::LocationTable;
use crate::truetype_loader::MaxProfileTable;
use crate::truetype_loader::Table;
use crate::truetype_loader::TableTag;

verus! {

/// Flag of a point: the point lies on the curve.
pub const GP_ON_CURVE: u8 = 0x01;

/// Flag of a point: its x delta is one byte long.
pub const GP_X_SHORT_VEC: u8 = 0x02;

/// Flag of a point: its y delta is one byte long.
pub const GP_Y_SHORT_VEC: u8 = 0x04;

/// Flag of a point: the next byte says how many more points have this flag.
pub const GP_REPEAT: u8 = 0x08;

/// Flag of a point: a short x delta is positive; a long one is left out and
/// x stays what it was.
pub const GP_X_SAME_OR_VEC_SIGN: u8 = 0x10;

/// Flag of a point: the same for y.
pub const GP_Y_SAME_OR_VEC_SIGN: u8 = 0x20;

/// Flag of a component: its two arguments are words, not bytes.
pub const CGF_ARGS_ARE_WORDS: u16 = 0x0001;

/// Flag of a component: the arguments are an offset, not a pair of points.
pub const CGF_ARGS_ARE_XY: u16 = 0x0002;

/// Flag of a component: the offset is rounded to the grid.
pub const CGF_ROUND_XY_TO_GRID: u16 = 0x0004;

/// Flag of a component: one scale for both axes follows.
pub const CGF_SIMPLE_SCALE: u16 = 0x0008;

/// Flag of a component: another component follows.
pub const CGF_MORE_COMPONENTS: u16 = 0x0020;

/// Flag of a component: a scale for each axis follows.
pub const CGF_XY_SCALE: u16 = 0x0040;

/// Flag of a component: a two by two matrix follows.
pub const CGF_2X2_TRANSFORM: u16 = 0x0080;

/// Flag of a component: instructions follow the last component.
pub const CGF_INSTRUCTIONS_PRESENT: u16 = 0x0100;

/// Flag of a component: the glyph takes its metrics from this component.
pub const CGF_USE_METRICS: u16 = 0x0200;

/// Flag of a component: the components overlap.
pub const CGF_OVERLAP_COMPOUND: u16 = 0x0400;

/// How a component is scaled before it is placed.
#[derive(Clone, Copy, Debug, PartialEq, Eq, Structural)]
pub enum Transformation {
    Uniform(F2dot14),
    XY(F2dot14, F2dot14),
    Mat2x2 { xscale: F2dot14, scale01: F2dot14, scale10: F2dot14, yscale: F2dot14 },
}

/// One component of a composite glyph: another glyph, where it goes, and how
/// it is scaled.
#[derive(Clone, Copy, Debug, PartialEq, Eq, Structural)]
pub struct ComponentGlyphDescription {
    pub glyph_index: u16,
    pub arg1: u16,
    pub arg2: u16,
    pub transform: Transformation,
    pub use_metrics: bool,
}

/// One point of a simple glyph, in font units.
#[derive(Clone, Copy, Debug, PartialEq, Eq, Structural)]
pub struct GlyphPoint {
    pub on_curve: bool,
    pub x: i32,
    pub y: i32,
    pub flag: u8,
}

/// The description of one glyph.
#[derive(Clone, Debug)]
pub enum GlyphDescription {
    /// A glyph without an outline.
    Empty,
    /// A glyph drawn by its own contours.
    Simple {
        num_contours: u16,
        x_min: i16,
        y_min: i16,
        x_max: i16,
        y_max: i16,
        end_points_of_contours: Vec<u16>,
        instructions: Vec<u8>,
        points: Vec<GlyphPoint>,
    },
    /// A glyph put together from other glyphs.
    Composite { components: Vec<ComponentGlyphDescription>, instructions: Vec<u8> },
}

/// What a `GlyphDescription` holds.
pub enum GlyphDescriptionView {
    Empty,
    Simple {
        num_contours: u16,
        x_min: i16,
        y_min: i16,
        x_max: i16,
        y_max: i16,
        end_points_of_contours: Seq<u16>,
        instructions: Seq<u8>,
        points: Seq<GlyphPoint>,
    },
    Composite { components: Seq<ComponentGlyphDescription>, instructions: Seq<u8> },
}

impl View for GlyphDescription {
    type V = GlyphDescriptionView;

    open spec fn view(&self) -> GlyphDescriptionView {
        match self {
            GlyphDescription::Empty => GlyphDescriptionView::Empty,
            GlyphDescription::Simple {
                num_contours,
                x_min,
                y_min,
                x_max,
                y_max,
                end_points_of_contours,
                instructions,
                points,
            } => GlyphDescriptionView::Simple {
                num_contours: *num_contours,
                x_min: *x_min,
                y_min: *y_min,
                x_max: *x_max,
                y_max: *y_max,
                end_points_of_contours: end_points_of_contours@,
                instructions: instructions@,
                points: points@,
            },
            GlyphDescription::Composite { components, instructions } => {
                GlyphDescriptionView::Composite {
                    components: components@,
                    instructions: instructions@,
                }
            },
        }
    }
}

/// A decoded run together with the position just behind it, with `prefix`
/// put in front of the run.
pub open spec fn with_prefix<T>(prefix: Seq<T>, rest: Option<(Seq<T>, int)>) -> Option<
    (Seq<T>, int),
> {
    match rest {
        Some((items, end)) => Some((prefix + items, end)),
        None => None,
    }
}

/// The flags of the next `need` points, read from `pos` on, and the position
/// behind the last byte read; `None` where the bytes end too early. A flag
/// with the repeat bit is followed by a count and stands for that many more
/// points, but for no more points than are still needed.
pub open spec fn expand_flags(g: Seq<u8>, pos: int, need: nat) -> Option<(Seq<u8>, int)>
    decreases need,
{
    if need == 0 {
        Some((Seq::empty(), pos))
    } else if pos < 0 || pos >= g.len() {
        None
    } else if g[pos] & GP_REPEAT != 0 {
        if pos + 1 >= g.len() {
            None
        } else {
            let count = if g[pos + 1] + 1 < need {
                (g[pos + 1] + 1) as nat
            } else {
                need
            };
            with_prefix(
                Seq::new(count, |i: int| g[pos]),
                expand_flags(g, pos + 2, (need - count) as nat),
            )
        }
    } else {
        with_prefix(seq![g[pos]], expand_flags(g, pos + 1, (need - 1) as nat))
    }
}

/// The number of bytes that hold the delta of a point with the flag `f`
/// along the axis of the bits `short` and `same`.
pub open spec fn delta_width(f: u8, short: u8, same: u8) -> int {
    if f & short != 0 {
        1
    } else if f & same == 0 {
        2
    } else {
        0
    }
}

/// The delta of a point with the flag `f`, read at `pos`: a byte, added or
/// subtracted as the `same` bit says, where the `short` bit is set; else a
/// signed word, or nothing where the `same` bit is set.
pub open spec fn delta_at(g: Seq<u8>, pos: int, f: u8, short: u8, same: u8) -> int {
    if f & short != 0 {
        if f & same != 0 {
            g[pos] as int
        } else {
            -(g[pos] as int)
        }
    } else if f & same == 0 {
        be_i16(g, pos) as int
    } else {
        0
    }
}

/// The coordinates of the points from number `k` on along one axis, read
/// from `pos` on, and the position behind the last byte read; `None` where
/// the bytes end too early. Each point adds its delta to the coordinate
/// `last` of the point before it, in 32 bits.
pub open spec fn decode_coords(
    g: Seq<u8>,
    pos: int,
    flags: Seq<u8>,
    k: int,
    short: u8,
    same: u8,
    last: i32,
) -> Option<(Seq<i32>, int)>
    decreases flags.len() - k,
{
    if k < 0 || k >= flags.len() {
        Some((Seq::empty(), pos))
    } else if pos < 0 || pos + delta_width(flags[k], short, same) > g.len() {
        None
    } else {
        let cur = wrap_i32(last + delta_at(g, pos, flags[k], short, same)) as i32;
        with_prefix(
            seq![cur],
            decode_coords(
                g,
                pos + delta_width(flags[k], short, same),
                flags,
                k + 1,
                short,
                same,
                cur,
            ),
        )
    }
}

/// Reads the delta of one point at `pos` and adds it to `last`.
fn next_coord(g: &[u8], pos: usize, f: u8, short: u8, same: u8, last: i32) -> (r: Option<
    (i32, usize),
>)
    requires
        pos <= g@.len(),
    ensures
        match r {
            Some((cur, end)) => pos + delta_width(f, short, same) <= g@.len() && end == pos
                + delta_width(f, short, same) && cur == wrap_i32(
                last + delta_at(g@, pos as int, f, short, same),
            ) as i32,
            None => pos + delta_width(f, short, same) > g@.len(),
        },
{
    let len = g.len();
    if f & short != 0 {
        if pos >= len {
            return None;
        }
        let v: i32 = g[pos] as i32;
        let delta: i32 = if f & same != 0 { v } else { -v };
        Some((last.wrapping_add(delta), pos + 1))
    } else if f & same == 0 {
        if len - pos < 2 {
            return None;
        }
        let mut r = BinaryReader { data: g, pos };
        match r.read_i16() {
            Ok(d) => Some((last.wrapping_add(d as i32), pos + 2)),
            Err(_) => None,
        }
    } else {
        Some((last, pos))
    }
}

fn push_copies(v: &mut Vec<u8>, f: u8, count: usize)
    ensures
        final(v)@ == old(v)@ + Seq::new(count as nat, |i: int| f),
{
    let mut i: usize = 0;
    while i < count
        invariant
            i <= count,
            v@ == old(v)@ + Seq::new(i as nat, |j: int| f),
        decreases count - i,
    {
        v.push(f);
        i = i + 1;
        assert(v@ =~= old(v)@ + Seq::new(i as nat, |j: int| f));
    }
    assert(v@ =~= old(v)@ + Seq::new(count as nat, |j: int| f));
}

/// Reads the flags of `n` points from `start` on.
fn read_flags(g: &[u8], start: usize, n: usize) -> (r: Option<(Vec<u8>, usize)>)
    requires
        start <= g@.len(),
    ensures
        match r {
            Some((flags, end)) => expand_flags(g@, start as int, n as nat) == Some(
                (flags@, end as int),
            ) && flags@.len() == n && end <= g@.len(),
            None => expand_flags(g@, start as int, n as nat) is None,
        },
{
    let len = g.len();
    let mut flags: Vec<u8> = Vec::new();
    let mut pos: usize = start;
    while flags.len() < n
        invariant
            len == g@.len(),
            pos <= len,
            flags@.len() <= n,
            expand_flags(g@, start as int, n as nat) == with_prefix(
                flags@,
                expand_flags(g@, pos as int, (n - flags@.len()) as nat),
            ),
        decreases n - flags@.len(),
    {
        let ghost before = flags@;
        let ghost need = (n - flags@.len()) as nat;
        if pos >= len {
            return None;
        }
        let f: u8 = g[pos];
        if f & GP_REPEAT != 0 {
            if pos + 1 >= len {
                return None;
            }
            let extra: usize = g[pos + 1] as usize + 1;
            let left: usize = n - flags.len();
            let count: usize = if extra < left { extra } else { left };
            push_copies(&mut flags, f, count);
            proof {
                let rest = expand_flags(g@, pos + 2, (need - count) as nat);
                let run = Seq::new(count as nat, |i: int| f);
                assert(expand_flags(g@, pos as int, need) == with_prefix(run, rest));
                if rest is Some {
                    assert(before + (run + rest->Some_0.0) =~= (before + run) + rest->Some_0.0);
                }
            }
            pos = pos + 2;
        } else {
            flags.push(f);
            proof {
                let rest = expand_flags(g@, pos + 1, (need - 1) as nat);
                assert(expand_flags(g@, pos as int, need) == with_prefix(seq![f], rest));
                assert(flags@ =~= before + seq![f]);
                if rest is Some {
                    assert(before + (seq![f] + rest->Some_0.0) =~= (before + seq![f])
                        + rest->Some_0.0);
                }
            }
            pos = pos + 1;
        }
    }
    proof {
        assert(flags@ + Seq::<u8>::empty() =~= flags@);
    }
    Some((flags, pos))
}

/// Reads the coordinates of all points along one axis from `start` on.
fn read_coords(g: &[u8], start: usize, flags: &Vec<u8>, short: u8, same: u8) -> (r: Option<
    (Vec<i32>, usize),
>)
    requires
        start <= g@.len(),
    ensures
        match r {
            Some((coords, end)) => decode_coords(g@, start as int, flags@, 0, short, same, 0)
                == Some((coords@, end as int)) && coords@.len() == flags@.len() && end
                <= g@.len(),
            None => decode_coords(g@, start as int, flags@, 0, short, same, 0) is None,
        },
{
    let len = g.len();
    let n = flags.len();
    let mut coords: Vec<i32> = Vec::new();
    let mut pos: usize = start;
    let mut last: i32 = 0;
    let mut k: usize = 0;
    while k < n
        invariant
            len == g@.len(),
            n == flags@.len(),
            pos <= len,
            k <= n,
            coords@.len() == k,
            decode_coords(g@, start as int, flags@, 0, short, same, 0) == with_prefix(
                coords@,
                decode_coords(g@, pos as int, flags@, k as int, short, same, last),
            ),
        decreases n - k,
    {
        let ghost before = coords@;
        let ghost old_pos = pos as int;
        let ghost old_last = last;
        let f: u8 = flags[k];
        match next_coord(g, pos, f, short, same, last) {
            Some((cur, end)) => {
                last = cur;
                pos = end;
            },
            None => {
                return None;
            },
        }
        coords.push(last);
        proof {
            let rest = decode_coords(g@, pos as int, flags@, k + 1, short, same, last);
            assert(decode_coords(g@, old_pos, flags@, k as int, short, same, old_last)
                == with_prefix(seq![last], rest));
            assert(coords@ =~= before + seq![last]);
            if rest is Some {
                assert(before + (seq![last] + rest->Some_0.0) =~= (before + seq![last])
                    + rest->Some_0.0);
            }
        }
        k = k + 1;
    }
    proof {
        assert(coords@ + Seq::<i32>::empty() =~= coords@);
    }
    Some((coords, pos))
}

/// Whether every number of `e` is greater than all before it.
pub open spec fn strictly_increasing(e: Seq<u16>) -> bool {
    forall|i: int, j: int| 0 <= i < j < e.len() ==> e[i] < e[j]
}

/// Point number `k` of a glyph with the flags `flags` and the coordinates
/// `xs` and `ys`.
pub open spec fn point_of(flags: Seq<u8>, xs: Seq<i32>, ys: Seq<i32>, k: int) -> GlyphPoint {
    GlyphPoint { on_curve: flags[k] & GP_ON_CURVE != 0, x: xs[k], y: ys[k], flag: flags[k] }
}

/// What the bytes `g` of a glyph with contours of its own encode: a header
/// of ten bytes, the last point of each contour, the instructions, then the
/// flags, the x coordinates and the y coordinates of all points. The glyph
/// has one point more than the number of its last end point. End points that
/// do not increase, and bytes that end too early, are refused.
pub open spec fn simple_glyph(g: Seq<u8>) -> Result<GlyphDescriptionView, LoadError> {
    let nc = be_i16(g, 0) as int;
    let ends = be_u16_array(g, 10, nc as nat);
    let flags_at = 12 + 2 * nc + be_u16(g, 10 + 2 * nc);
    if 12 + 2 * nc <= g.len() && flags_at <= g.len() && strictly_increasing(ends) {
        let n = (ends[nc - 1] + 1) as nat;
        match expand_flags(g, flags_at, n) {
            Some((flags, xs_at)) => match decode_coords(
                g,
                xs_at,
                flags,
                0,
                GP_X_SHORT_VEC,
                GP_X_SAME_OR_VEC_SIGN,
                0,
            ) {
                Some((xs, ys_at)) => match decode_coords(
                    g,
                    ys_at,
                    flags,
                    0,
                    GP_Y_SHORT_VEC,
                    GP_Y_SAME_OR_VEC_SIGN,
                    0,
                ) {
                    Some((ys, end)) => Ok(
                        GlyphDescriptionView::Simple {
                            num_contours: nc as u16,
                            x_min: be_i16(g, 2),
                            y_min: be_i16(g, 4),
                            x_max: be_i16(g, 6),
                            y_max: be_i16(g, 8),
                            end_points_of_contours: ends,
                            instructions: g.subrange(12 + 2 * nc, flags_at),
                            points: Seq::new(n, |k: int| point_of(flags, xs, ys, k)),
                        },
                    ),
                    None => Err(LoadError::MalformedData),
                },
                None => Err(LoadError::MalformedData),
            },
            None => Err(LoadError::MalformedData),
        }
    } else {
        Err(LoadError::MalformedData)
    }
}

fn check_increasing(e: &Vec<u16>) -> (b: bool)
    ensures
        b == strictly_increasing(e@),
{
    let mut i: usize = 1;
    while i < e.len()
        invariant
            1 <= i,
            forall|a: int, b: int| 0 <= a < b < i && b < e@.len() ==> e@[a] < e@[b],
        decreases e.len() - i,
    {
        if e[i - 1] >= e[i] {
            return false;
        }
        i = i + 1;
    }
    true
}

fn read_simple_glyph(g: &[u8], num_contours: i16) -> (r: Result<GlyphDescription, LoadError>)
    requires
        g@.len() >= 10,
        num_contours > 0,
        num_contours == be_i16(g@, 0),
    ensures
        match r {
            Ok(t) => simple_glyph(g@) == Ok::<GlyphDescriptionView, LoadError>(t@),
            Err(e) => simple_glyph(g@) == Err::<GlyphDescriptionView, LoadError>(e),
        },
{
    let mut reader = BinaryReader { data: g, pos: 2 };
    let x_min = reader.read_i16()?;
    let y_min = reader.read_i16()?;
    let x_max = reader.read_i16()?;
    let y_max = reader.read_i16()?;
    let nc: usize = num_contours as usize;
    let ends = reader.read_u16_array(nc)?;
    let num_instr = reader.read_u16()?;
    let instructions = reader.read_bytes(num_instr as usize)?;
    if !check_increasing(&ends) {
        return Err(LoadError::MalformedData);
    }
    let n: usize = ends[nc - 1] as usize + 1;
    let (flags, xs_at) = match read_flags(g, reader.pos, n) {
        Some(v) => v,
        None => { return Err(LoadError::MalformedData); },
    };
    let (xs, ys_at) = match read_coords(g, xs_at, &flags, GP_X_SHORT_VEC, GP_X_SAME_OR_VEC_SIGN) {
        Some(v) => v,
        None => { return Err(LoadError::MalformedData); },
    };
    let (ys, _) = match read_coords(g, ys_at, &flags, GP_Y_SHORT_VEC, GP_Y_SAME_OR_VEC_SIGN) {
        Some(v) => v,
        None => { return Err(LoadError::MalformedData); },
    };
    let mut points: Vec<GlyphPoint> = Vec::new();
    let mut k: usize = 0;
    while k < n
        invariant
            k <= n,
            flags@.len() == n,
            xs@.len() == n,
            ys@.len() == n,
            points@.len() == k,
            forall|j: int| 0 <= j < k ==> points@[j] == point_of(flags@, xs@, ys@, j),
        decreases n - k,
    {
        let f: u8 = flags[k];
        points.push(GlyphPoint { on_curve: f & GP_ON_CURVE != 0, x: xs[k], y: ys[k], flag: f });
        k = k + 1;
    }
    assert(points@ =~= Seq::new(n as nat, |k: int| point_of(flags@, xs@, ys@, k)));
    Ok(
        GlyphDescription::Simple {
            num_contours: num_contours as u16,
            x_min,
            y_min,
            x_max,
            y_max,
            end_points_of_contours: ends,
            instructions,
            points,
        },
    )
}

/// The number of bytes that the two arguments of a component take.
pub open spec fn args_width(flags: u16) -> int {
    if flags & CGF_ARGS_ARE_WORDS != 0 {
        4
    } else {
        2
    }
}

/// The number of bytes that the transformation of a component takes.
pub open spec fn transform_width(flags: u16) -> int {
    if flags & CGF_SIMPLE_SCALE != 0 {
        2
    } else if flags & CGF_XY_SCALE != 0 {
        4
    } else if flags & CGF_2X2_TRANSFORM != 0 {
        8
    } else {
        0
    }
}

/// The number of bytes of the component record with the flags `flags`.
pub open spec fn component_size(flags: u16) -> int {
    4 + args_width(flags) + transform_width(flags)
}

/// The transformation of a component with the flags `flags`, read at `at`.
/// A component without one is not scaled: its scale is 1.0.
pub open spec fn transform_at(g: Seq<u8>, at: int, flags: u16) -> Transformation {
    if flags & CGF_SIMPLE_SCALE != 0 {
        Transformation::Uniform(F2dot14(be_i16(g, at)))
    } else if flags & CGF_XY_SCALE != 0 {
        Transformation::XY(F2dot14(be_i16(g, at)), F2dot14(be_i16(g, at + 2)))
    } else if flags & CGF_2X2_TRANSFORM != 0 {
        Transformation::Mat2x2 {
            xscale: F2dot14(be_i16(g, at)),
            scale01: F2dot14(be_i16(g, at + 2)),
            scale10: F2dot14(be_i16(g, at + 4)),
            yscale: F2dot14(be_i16(g, at + 6)),
        }
    } else {
        Transformation::Uniform(F2dot14(0x4000))
    }
}

/// The component whose record starts at `pos`.
pub open spec fn component_at(g: Seq<u8>, pos: int) -> ComponentGlyphDescription {
    let flags = be_u16(g, pos);
    ComponentGlyphDescription {
        glyph_index: be_u16(g, pos + 2),
        arg1: if flags & CGF_ARGS_ARE_WORDS != 0 {
            be_u16(g, pos + 4)
        } else {
            g[pos + 4] as u16
        },
        arg2: if flags & CGF_ARGS_ARE_WORDS != 0 {
            be_u16(g, pos + 6)
        } else {
            g[pos + 5] as u16
        },
        transform: transform_at(g, pos + 4 + args_width(flags), flags),
        use_metrics: flags & CGF_USE_METRICS != 0,
    }
}

/// A run of component records: the components, the position behind the last
/// record, and whether one of them announces instructions.
pub struct ComponentRun {
    pub components: Seq<ComponentGlyphDescription>,
    pub end: int,
    pub has_instructions: bool,
}

/// The run `rest` with the components `prefix` in front of it, of which one
/// announces instructions if `has` says so.
pub open spec fn extend_run(
    prefix: Seq<ComponentGlyphDescription>,
    has: bool,
    rest: Option<ComponentRun>,
) -> Option<ComponentRun> {
    match rest {
        Some(run) => Some(
            ComponentRun {
                components: prefix + run.components,
                end: run.end,
                has_instructions: has || run.has_instructions,
            },
        ),
        None => None,
    }
}

/// The component records from `pos` on, up to and with the first that does
/// not announce another; `None` where the bytes end too early.
pub open spec fn components_from(g: Seq<u8>, pos: int) -> Option<ComponentRun>
    decreases g.len() - pos,
{
    if pos < 0 || pos + 4 > g.len() || pos + component_size(be_u16(g, pos)) > g.len() {
        None
    } else {
        let flags = be_u16(g, pos);
        if flags & CGF_MORE_COMPONENTS != 0 {
            extend_run(
                seq![component_at(g, pos)],
                flags & CGF_INSTRUCTIONS_PRESENT != 0,
                components_from(g, pos + component_size(flags)),
            )
        } else {
            Some(
                ComponentRun {
                    components: seq![component_at(g, pos)],
                    end: pos + component_size(flags),
                    has_instructions: flags & CGF_INSTRUCTIONS_PRESENT != 0,
                },
            )
        }
    }
}

/// What the bytes `g` of a glyph made of components encode: a header of ten
/// bytes, the component records, and instructions where a record announces
/// them.
pub open spec fn composite_glyph(g: Seq<u8>) -> Result<GlyphDescriptionView, LoadError> {
    match components_from(g, 10) {
        Some(run) => if run.has_instructions {
            if run.end + 2 <= g.len() && run.end + 2 + be_u16(g, run.end) <= g.len() {
                Ok(
                    GlyphDescriptionView::Composite {
                        components: run.components,
                        instructions: g.subrange(run.end + 2, run.end + 2 + be_u16(g, run.end)),
                    },
                )
            } else {
                Err(LoadError::MalformedData)
            }
        } else {
            Ok(
                GlyphDescriptionView::Composite {
                    components: run.components,
                    instructions: Seq::empty(),
                },
            )
        },
        None => Err(LoadError::MalformedData),
    }
}

/// Reads the component record at the cursor.
fn read_component(reader: &mut BinaryReader) -> (r: Option<(ComponentGlyphDescription, u16)>)
    requires
        old(reader).pos <= old(reader).data@.len(),
    ensures
        final(reader).data == old(reader).data,
        match r {
            Some((c, flags)) => {
                &&& flags == be_u16(old(reader).data@, old(reader).pos as int)
                &&& old(reader).pos + component_size(flags) <= old(reader).data@.len()
                &&& final(reader).pos == old(reader).pos + component_size(flags)
                &&& c == component_at(old(reader).data@, old(reader).pos as int)
            },
            None => old(reader).pos + 4 > old(reader).data@.len() || old(reader).pos
                + component_size(be_u16(old(reader).data@, old(reader).pos as int)) > old(
                reader,
            ).data@.len(),
        },
{
    let flags = match reader.read_u16() {
        Ok(v) => v,
        Err(_) => { return None; },
    };
    let glyph_index = match reader.read_u16() {
        Ok(v) => v,
        Err(_) => { return None; },
    };
    let (arg1, arg2) = if flags & CGF_ARGS_ARE_WORDS != 0 {
        let a = match reader.read_u16() {
            Ok(v) => v,
            Err(_) => { return None; },
        };
        let b = match reader.read_u16() {
            Ok(v) => v,
            Err(_) => { return None; },
        };
        (a, b)
    } else {
        let a = match reader.read_u8() {
            Ok(v) => v,
            Err(_) => { return None; },
        };
        let b = match reader.read_u8() {
            Ok(v) => v,
            Err(_) => { return None; },
        };
        (a as u16, b as u16)
    };
    let transform = if flags & CGF_SIMPLE_SCALE != 0 {
        let a = match reader.read_f2dot14() {
            Ok(v) => v,
            Err(_) => { return None; },
        };
        Transformation::Uniform(a)
    } else if flags & CGF_XY_SCALE != 0 {
        let a = match reader.read_f2dot14() {
            Ok(v) => v,
            Err(_) => { return None; },
        };
        let b = match reader.read_f2dot14() {
            Ok(v) => v,
            Err(_) => { return None; },
        };
        Transformation::XY(a, b)
    } else if flags & CGF_2X2_TRANSFORM != 0 {
        let a = match reader.read_f2dot14() {
            Ok(v) => v,
            Err(_) => { return None; },
        };
        let b = match reader.read_f2dot14() {
            Ok(v) => v,
            Err(_) => { return None; },
        };
        let c = match reader.read_f2dot14() {
            Ok(v) => v,
            Err(_) => { return None; },
        };
        let d = match reader.read_f2dot14() {
            Ok(v) => v,
            Err(_) => { return None; },
        };
        Transformation::Mat2x2 { xscale: a, scale01: b, scale10: c, yscale: d }
    } else {
        Transformation::Uniform(F2dot14(0x4000))
    };
    Some(
        (
            ComponentGlyphDescription {
                glyph_index,
                arg1,
                arg2,
                transform,
                use_metrics: flags & CGF_USE_METRICS != 0,
            },
            flags,
        ),
    )
}

fn read_composite_glyph(g: &[u8]) -> (r: Result<GlyphDescription, LoadError>)
    requires
        g@.len() >= 10,
    ensures
        match r {
            Ok(t) => composite_glyph(g@) == Ok::<GlyphDescriptionView, LoadError>(t@),
            Err(e) => composite_glyph(g@) == Err::<GlyphDescriptionView, LoadError>(e),
        },
{
    let mut reader = BinaryReader { data: g, pos: 10 };
    let mut components: Vec<ComponentGlyphDescription> = Vec::new();
    let mut has_instructions = false;
    let mut more = true;
    while more
        invariant
            reader.data == g,
            reader.pos <= g@.len(),
            more ==> components_from(g@, 10) == extend_run(
                components@,
                has_instructions,
                components_from(g@, reader.pos as int),
            ),
            !more ==> components_from(g@, 10) == Some(
                ComponentRun {
                    components: components@,
                    end: reader.pos as int,
                    has_instructions,
                },
            ),
        decreases g@.len() - reader.pos + (if more { 1int } else { 0int }),
    {
        let ghost before = components@;
        let ghost pos = reader.pos as int;
        let ghost had = has_instructions;
        let (c, flags) = match read_component(&mut reader) {
            Some(v) => v,
            None => { return Err(LoadError::MalformedData); },
        };
        components.push(c);
        if flags & CGF_INSTRUCTIONS_PRESENT != 0 {
            has_instructions = true;
        }
        if flags & CGF_MORE_COMPONENTS == 0 {
            more = false;
        }
        proof {
            assert(components@ =~= before + seq![c]);
            if more {
                let rest = components_from(g@, reader.pos as int);
                if rest is Some {
                    assert(before + (seq![c] + rest->Some_0.components) =~= (before + seq![c])
                        + rest->Some_0.components);
                }
            }
        }
    }
    let instructions = if has_instructions {
        let n = reader.read_u16()?;
        reader.read_bytes(n as usize)?
    } else {
        Vec::new()
    };
    Ok(GlyphDescription::Composite { components, instructions })
}

impl GlyphDescription {
    /// What the bytes `g` of one glyph encode. A glyph of no bytes, or of no
    /// contours, has no outline; a positive number of contours leads a
    /// simple glyph, a negative one a composite glyph.
    pub open spec fn decode(g: Seq<u8>) -> Result<GlyphDescriptionView, LoadError> {
        if g.len() == 0 {
            Ok(GlyphDescriptionView::Empty)
        } else if g.len() < 10 {
            Err(LoadError::MalformedData)
        } else if be_i16(g, 0) > 0 {
            simple_glyph(g)
        } else if be_i16(g, 0) < 0 {
            composite_glyph(g)
        } else {
            Ok(GlyphDescriptionView::Empty)
        }
    }

    /// What decoding a glyph of `glyph_length` bytes at `at` gives.
    pub open spec fn parse(s: Seq<u8>, at: int, glyph_length: int) -> Result<
        GlyphDescriptionView,
        LoadError,
    > {
        if at + glyph_length <= s.len() {
            GlyphDescription::decode(s.subrange(at, at + glyph_length))
        } else {
            Err(LoadError::MalformedData)
        }
    }

    /// Decodes the glyph that takes the next `glyph_length` bytes.
    pub fn from_binary(reader: &mut BinaryReader, glyph_length: usize) -> (r: Result<
        GlyphDescription,
        LoadError,
    >)
        ensures
            final(reader).data == old(reader).data,
            match r {
                Ok(t) => GlyphDescription::parse(
                    old(reader).data@,
                    old(reader).pos as int,
                    glyph_length as int,
                ) == Ok::<GlyphDescriptionView, LoadError>(t@),
                Err(e) => GlyphDescription::parse(
                    old(reader).data@,
                    old(reader).pos as int,
                    glyph_length as int,
                ) == Err::<GlyphDescriptionView, LoadError>(e),
            },
    {
        let g = reader.take(glyph_length)?;
        if glyph_length == 0 {
            return Ok(GlyphDescription::Empty);
        }
        if glyph_length < 10 {
            return Err(LoadError::MalformedData);
        }
        let mut header = BinaryReader { data: g, pos: 0 };
        let num_contours = header.read_i16()?;
        if num_contours > 0 {
            read_simple_glyph(g, num_contours)
        } else if num_contours < 0 {
            read_composite_glyph(g)
        } else {
            Ok(GlyphDescription::Empty)
        }
    }
}

/// The greatest of the first `n` numbers of `e`; `-1` where there is none.
pub open spec fn max_end_point(e: Seq<u16>, n: nat) -> int
    decreases n,
{
    if n == 0 {
        -1
    } else if e[n - 1] > max_end_point(e, (n - 1) as nat) {
        e[n - 1] as int
    } else {
        max_end_point(e, (n - 1) as nat)
    }
}

proof fn lemma_max_is_last(e: Seq<u16>, n: nat)
    requires
        strictly_increasing(e),
        0 < n <= e.len(),
    ensures
        max_end_point(e, n) == e[n - 1],
    decreases n,
{
    if n > 1 {
        lemma_max_is_last(e, (n - 1) as nat);
        assert(e[n - 2] < e[n - 1]);
    } else {
        assert(max_end_point(e, 0) == -1);
    }
}

/// Every simple glyph that is decoded has exactly one point more than the
/// greatest of its end points, and as many end points as contours.
pub proof fn lemma_simple_glyph_point_count(g: Seq<u8>)
    requires
        GlyphDescription::decode(g) is Ok,
    ensures
        GlyphDescription::decode(g)->Ok_0 matches GlyphDescriptionView::Simple {
            num_contours,
            end_points_of_contours,
            points,
            ..
        } ==> points.len() == 1 + max_end_point(
            end_points_of_contours,
            end_points_of_contours.len(),
        ) && end_points_of_contours.len() == num_contours && num_contours > 0,
{
    if g.len() >= 10 && be_i16(g, 0) > 0 {
        let nc = be_i16(g, 0) as int;
        let ends = be_u16_array(g, 10, nc as nat);
        lemma_max_is_last(ends, nc as nat);
    } else if g.len() >= 10 && be_i16(g, 0) < 0 {
        assert(!(composite_glyph(g) is Ok && composite_glyph(g)->Ok_0 is Simple));
    }
}

/// The `glyf` table: the description of every glyph, in the order of the
/// glyph indices.
#[derive(Clone, Debug)]
pub struct GlyphDataTable {
    pub glyphs: Vec<GlyphDescription>,
}

impl View for GlyphDataTable {
    type V = Seq<GlyphDescriptionView>;

    open spec fn view(&self) -> Seq<GlyphDescriptionView> {
        self.glyphs@.map_values(|g: GlyphDescription| g@)
    }
}

impl GlyphDataTable {
    /// What decoding glyph number `i` gives: the bytes between its offset
    /// and the next, counted from `table_start`. Offsets that fall are
    /// refused.
    pub open spec fn glyph(s: Seq<u8>, table_start: int, offsets: Seq<u32>, i: int) -> Result<
        GlyphDescriptionView,
        LoadError,
    > {
        if offsets[i] <= offsets[i + 1] && table_start + offsets[i] <= s.len() {
            GlyphDescription::parse(s, table_start + offsets[i], offsets[i + 1] - offsets[i])
        } else {
            Err(LoadError::MalformedData)
        }
    }

    /// The number of glyphs that a location index of `n` offsets describes.
    pub open spec fn glyph_count(n: nat) -> nat {
        if n == 0 {
            0
        } else {
            (n - 1) as nat
        }
    }

    /// What decoding the `glyf` table that starts at `table_start` gives with
    /// the location index `offsets`: one glyph for every pair of neighbouring
    /// offsets, or `MalformedData` where one of them cannot be decoded.
    pub open spec fn parse(s: Seq<u8>, table_start: int, offsets: Seq<u32>) -> Result<
        Seq<GlyphDescriptionView>,
        LoadError,
    > {
        if forall|i: int|
            0 <= i < GlyphDataTable::glyph_count(offsets.len()) ==> (
            #[trigger] GlyphDataTable::glyph(s, table_start, offsets, i)) is Ok {
            Ok(
                Seq::new(
                    GlyphDataTable::glyph_count(offsets.len()),
                    |i: int| GlyphDataTable::glyph(s, table_start, offsets, i)->Ok_0,
                ),
            )
        } else {
            Err(LoadError::MalformedData)
        }
    }

    /// Decodes the glyphs that the location index points to. The number of
    /// glyphs is that of the location index; the maximum profile does not
    /// limit what is decoded.
    pub fn from_binary(
        reader: &mut BinaryReader,
        table_start: usize,
        maxp_table: MaxProfileTable,
        loca_table: &LocationTable,
    ) -> (r: Result<GlyphDataTable, LoadError>)
        ensures
            final(reader).data == old(reader).data,
            match r {
                Ok(t) => GlyphDataTable::parse(
                    old(reader).data@,
                    table_start as int,
                    loca_table@,
                ) == Ok::<Seq<GlyphDescriptionView>, LoadError>(t@),
                Err(e) => GlyphDataTable::parse(
                    old(reader).data@,
                    table_start as int,
                    loca_table@,
                ) == Err::<Seq<GlyphDescriptionView>, LoadError>(e),
            },
    {
        let ghost s = reader.data@;
        let len = reader.data.len();
        let offsets = &loca_table.offsets;
        let n: usize = if offsets.len() == 0 { 0 } else { offsets.len() - 1 };
        let mut glyphs: Vec<GlyphDescription> = Vec::new();
        let mut i: usize = 0;
        while i < n
            invariant
                reader.data@ == s,
                reader.data == old(reader).data,
                s.len() == len,
                offsets@ == loca_table@,
                n == GlyphDataTable::glyph_count(offsets@.len()),
                i <= n,
                glyphs@.len() == i,
                forall|j: int|
                    0 <= j < i ==> GlyphDataTable::glyph(s, table_start as int, offsets@, j)
                        == Ok::<GlyphDescriptionView, LoadError>((#[trigger] glyphs@[j])@),
            decreases n - i,
        {
            let from = offsets[i];
            let to = offsets[i + 1];
            if from > to {
                assert(!(GlyphDataTable::glyph(s, table_start as int, offsets@, i as int) is Ok));
                return Err(LoadError::MalformedData);
            }
            let start: usize = match table_start.checked_add(from as usize) {
                Some(v) => v,
                None => {
                    assert(!(GlyphDataTable::glyph(s, table_start as int, offsets@, i as int) is Ok));
                    return Err(LoadError::MalformedData);
                },
            };
            match reader.seek(start) {
                Ok(_) => {},
                Err(_) => {
                    assert(!(GlyphDataTable::glyph(s, table_start as int, offsets@, i as int) is Ok));
                    return Err(LoadError::MalformedData);
                },
            }
            match GlyphDescription::from_binary(reader, (to - from) as usize) {
                Ok(g) => {
                    glyphs.push(g);
                },
                Err(e) => {
                    proof {
                        lemma_glyph_error(s, start as int, to - from);
                        assert(!(GlyphDataTable::glyph(s, table_start as int, offsets@, i as int) is Ok));
                    }
                    return Err(e);
                },
            }
            i = i + 1;
        }
        assert(glyphs@.map_values(|g: GlyphDescription| g@) =~= Seq::new(
            n as nat,
            |i: int| GlyphDataTable::glyph(s, table_start as int, offsets@, i)->Ok_0,
        ));
        assert forall|j: int| 0 <= j < n implies (#[trigger] GlyphDataTable::glyph(
            s,
            table_start as int,
            offsets@,
            j,
        )) is Ok by {
            assert(GlyphDataTable::glyph(s, table_start as int, offsets@, j) == Ok::<
                GlyphDescriptionView,
                LoadError,
            >(glyphs@[j]@));
        }
        Ok(GlyphDataTable { glyphs })
    }
}

/// A glyph that cannot be decoded is refused as malformed.
pub proof fn lemma_glyph_error(s: Seq<u8>, at: int, glyph_length: int)
    ensures
        GlyphDescription::parse(s, at, glyph_length) matches Err(e) ==> e
            == LoadError::MalformedData,
{
}

impl Table for GlyphDataTable {
    fn tag(&self) -> (t: TableTag)
        ensures
            t == TableTag::GlyphData,
    {
        TableTag::GlyphData
    }
}

} // verus!

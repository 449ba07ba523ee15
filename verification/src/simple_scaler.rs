//! A scaler that scales the outlines of a font without grid-fitting them.

use vstd::prelude::*;

use crate::interp_instructor::ops_state::scale_funits;
use crate::interp_instructor::ops_state::scaled;
use crate::interp_instructor::scaler::scale_denominator;
use crate::interp_instructor::scaler::scale_numerator;
use crate::interp_instructor::zone_ops::plus;
use crate::interp_instructor::ScalerError;
use crate::numerics::wrap_i32;
use crate::numerics::wrap_to_i32;
use crate::numerics::F26d6;
use crate::outline::assemble;
use crate::outline::Glyph;
use crate::outline::Outline;
use crate::outline::Point;
use crate::truetype_loader::font::SfntFontView;
use crate::truetype_loader::glyph_data_table::GlyphDescriptionView;
use crate::truetype_loader::GlyphDataTable;
use crate::truetype_loader::GlyphDescription;
use crate::truetype_loader::GlyphPoint;
use crate::truetype_loader::SfntFont;
use crate::truetype_loader::TableTag;

verus! {

/// The margin, in raw pixel units, that is left free to the left of every
/// glyph: eight pixels.
pub const LEFT_MARGIN: i32 = 512;

/// A scaler that turns the glyphs of a font into outlines in pixels, with
/// the y axis pointing down.
pub struct SimpleGlyphScaler<'f> {
    pub glyph_table: &'f GlyphDataTable,
    pub output_dpi: u32,
    pub units_per_em: u16,
}

/// What a `SimpleGlyphScaler` holds.
pub struct SimpleScalerView {
    pub glyphs: Seq<GlyphDescriptionView>,
    pub output_dpi: u32,
    pub units_per_em: u16,
}

impl<'f> View for SimpleGlyphScaler<'f> {
    type V = SimpleScalerView;

    open spec fn view(&self) -> SimpleScalerView {
        SimpleScalerView {
            glyphs: self.glyph_table@,
            output_dpi: self.output_dpi,
            units_per_em: self.units_per_em,
        }
    }
}

/// The stored point `p` on the device: x is scaled and moved right by the
/// margin and the offset; y is counted down from the top of the em square,
/// scaled, and moved by the offset.
pub open spec fn device_point(p: GlyphPoint, units_per_em: u16, num: u64, den: u64, offset: Point) -> Point {
    Point {
        x: plus(
            plus(F26d6(scaled(p.x as int, num as int, den as int) as i32), LEFT_MARGIN as int),
            offset.x.0 as int,
        ),
        y: plus(
            F26d6(
                scaled(
                    wrap_i32(units_per_em - p.y),
                    num as int,
                    den as int,
                ) as i32,
            ),
            offset.y.0 as int,
        ),
    }
}

/// The points of a glyph on the device.
pub open spec fn device_points(
    points: Seq<GlyphPoint>,
    units_per_em: u16,
    num: u64,
    den: u64,
    offset: Point,
) -> Seq<Point> {
    Seq::new(points.len(), |i: int| device_point(points[i], units_per_em, num, den, offset))
}

/// The simple scaler of `font` for a device of `dpi` dots per inch. The font
/// must have a header and glyph data, which are asked for in this order, and
/// an em square that is not empty.
pub open spec fn simple_scaler_of(font: SfntFontView, dpi: u32) -> Result<
    SimpleScalerView,
    ScalerError,
> {
    if font.head_table is None {
        Err(ScalerError::MissingTable(TableTag::FontHeader))
    } else if font.glyf_table is None {
        Err(ScalerError::MissingTable(TableTag::GlyphData))
    } else if font.head_table->Some_0.units_per_em == 0 {
        Err(ScalerError::InvalidGlyph)
    } else {
        Ok(
            SimpleScalerView {
                glyphs: font.glyf_table->Some_0,
                output_dpi: dpi,
                units_per_em: font.head_table->Some_0.units_per_em,
            },
        )
    }
}

/// The outline of the glyph number `glyph_index` at `point_size` points,
/// moved by `offset`. A glyph that the font does not have, one without
/// contours of its own, and one whose outline cannot be assembled are
/// invalid, and so is a scaler whose em square is empty.
pub open spec fn simple_outline(
    s: SimpleScalerView,
    point_size: u32,
    glyph_index: int,
    offset: Point,
) -> Result<Outline, ScalerError> {
    if 0 <= glyph_index < s.glyphs.len() && s.units_per_em > 0 {
        match s.glyphs[glyph_index] {
            GlyphDescriptionView::Simple { points, .. } => match assemble(
                s.glyphs[glyph_index],
                device_points(
                    points,
                    s.units_per_em,
                    scale_numerator(point_size, s.output_dpi),
                    scale_denominator(s.units_per_em),
                    offset,
                ),
            ) {
                Some(outline) => Ok(outline),
                None => Err(ScalerError::InvalidGlyph),
            },
            _ => Err(ScalerError::InvalidGlyph),
        }
    } else {
        Err(ScalerError::InvalidGlyph)
    }
}

fn scale_of(point_size: u32, dpi: u32, units_per_em: u16) -> (r: (u64, u64))
    ensures
        r.0 == scale_numerator(point_size, dpi),
        r.1 == scale_denominator(units_per_em),
{
    let a: u64 = point_size as u64;
    let b: u64 = dpi as u64;
    assert(a * b <= 0xFFFF_FFFF * 0xFFFF_FFFF) by (nonlinear_arith)
        requires
            a <= 0xFFFF_FFFF,
            b <= 0xFFFF_FFFF,
    ;
    (a * b, 72 * (units_per_em as u64))
}

impl<'f> SimpleGlyphScaler<'f> {
    /// Sets the scaler up for `font` on a device of `dpi` dots per inch.
    pub fn new(font: &'f SfntFont, dpi: u32) -> (r: Result<SimpleGlyphScaler<'f>, ScalerError>)
        ensures
            match r {
                Ok(s) => simple_scaler_of(font@, dpi) == Ok::<SimpleScalerView, ScalerError>(s@),
                Err(e) => simple_scaler_of(font@, dpi) == Err::<SimpleScalerView, ScalerError>(e),
            },
    {
        let head = match font.head_table {
            Some(t) => t,
            None => { return Err(ScalerError::MissingTable(TableTag::FontHeader)); },
        };
        let glyph_table = match &font.glyf_table {
            Some(t) => t,
            None => { return Err(ScalerError::MissingTable(TableTag::GlyphData)); },
        };
        if head.units_per_em == 0 {
            return Err(ScalerError::InvalidGlyph);
        }
        Ok(SimpleGlyphScaler { glyph_table, output_dpi: dpi, units_per_em: head.units_per_em })
    }

    /// The scale at `point_size` points as a fraction: one font unit is so
    /// many pixels.
    pub fn uniform_scale(&self, point_size: u32) -> (r: (u64, u64))
        ensures
            r.0 == scale_numerator(point_size, self.output_dpi),
            r.1 == scale_denominator(self.units_per_em),
    {
        scale_of(point_size, self.output_dpi, self.units_per_em)
    }

    /// Scales the glyph number `glyph_index` to `point_size` points and moves
    /// it by `offset`.
    pub fn scale_glyph(&self, point_size: u32, glyph_index: usize, offset: Point) -> (r: Result<
        Glyph,
        ScalerError,
    >)
        ensures
            match r {
                Ok(g) => simple_outline(self@, point_size, glyph_index as int, offset) == Ok::<
                    Outline,
                    ScalerError,
                >(g@),
                Err(e) => simple_outline(self@, point_size, glyph_index as int, offset) == Err::<
                    Outline,
                    ScalerError,
                >(e),
            },
    {
        if glyph_index >= self.glyph_table.glyphs.len() || self.units_per_em == 0 {
            return Err(ScalerError::InvalidGlyph);
        }
        let glyph = &self.glyph_table.glyphs[glyph_index];
        assert(self@.glyphs[glyph_index as int] == glyph@);
        let (num, den) = scale_of(point_size, self.output_dpi, self.units_per_em);
        match glyph {
            GlyphDescription::Simple { points, .. } => {
                let upem = self.units_per_em;
                let mut device: Vec<Point> = Vec::new();
                let mut i: usize = 0;
                while i < points.len()
                    invariant
                        i <= points@.len(),
                        den > 0,
                        device@.len() == i,
                        forall|j: int|
                            0 <= j < i ==> device@[j] == device_point(
                                points@[j],
                                upem,
                                num,
                                den,
                                offset,
                            ),
                    decreases points.len() - i,
                {
                    let p = points[i];
                    let x = F26d6(scale_funits(p.x, num, den)) + F26d6(LEFT_MARGIN) + offset.x;
                    let down = wrap_to_i32(upem as i64 - p.y as i64);
                    let y = F26d6(scale_funits(down, num, den)) + offset.y;
                    device.push(Point { x, y });
                    i = i + 1;
                }
                assert(device@ =~= device_points(points@, upem, num, den, offset));
                match Glyph::from_truetype_with_points(glyph, device) {
                    Some(g) => Ok(g),
                    None => Err(ScalerError::InvalidGlyph),
                }
            },
            _ => Err(ScalerError::InvalidGlyph),
        }
    }
}

} // verus!

//! Loading of TrueType outline fonts and grid-fitting of their glyphs.
//!
//! The crate decodes the tables of an `sfnt` container from a byte slice,
//! assembles glyph outlines into lines and quadratic curves, and runs the
//! font's hinting programs on scaled outlines.

pub mod char_map;
pub mod interp_instructor;
pub mod numerics;
pub mod outline;
pub mod raster;
pub mod simple_scaler;
pub mod truetype_loader;

pub use char_map::CharMap;
pub use outline::wrap;
pub use outline::Curve;
pub use outline::Glyph;
pub use outline::Point;
pub use simple_scaler::SimpleGlyphScaler;

//! Decoder for SFNT/TrueType font containers: locates the embedded data
//! tables, resolves character-to-glyph mappings through the cmap table,
//! finds a glyph's outline bytes through loca, and decodes them into
//! contours of on/off-curve points.

pub mod error;
pub mod reader;
pub mod head;
pub mod maxp;
pub mod loca;
pub mod cmap;
pub mod glyf;
pub mod glyph;
pub mod outline;
pub mod raster;
pub mod directory;

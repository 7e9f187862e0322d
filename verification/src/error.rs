//! The error taxonomy shared by every table parser and lookup.
//!
//! All errors are terminal for the single parse or lookup that raised
//! them: they stem from deterministic structural properties of the
//! input bytes, never from transient conditions.

use vstd::prelude::*;

verus! {

/// The kind of glyph whose decoding is not supported.
#[derive(Clone, Copy, Debug, PartialEq, Eq, Structural)]
pub enum GlyphKind {
    /// A glyph composed of transformed references to other glyphs.
    Composite,
    /// A glyph stored as an embedded color bitmap.
    ColorBitmap,
}

/// Every way a parse or lookup can fail.
#[derive(Clone, Copy, Debug, PartialEq, Eq, Structural)]
pub enum FontError {
    /// The buffer is shorter than a field or array being read.
    TruncatedData,
    /// A required table is absent from the directory; carries the
    /// four-byte tag packed big-endian into a `u32`.
    TableNotFound(u32),
    /// No acceptable cmap platform/encoding pair exists.
    UnsupportedEncoding,
    /// The selected cmap subtable has a format other than 4.
    UnsupportedCmapFormat(u16),
    /// A composite or color-bitmap glyph was requested.
    UnsupportedGlyphType(GlyphKind),
    /// An illegal `index_to_loc_format` or similarly out-of-range
    /// discriminant or declared length.
    InvalidFormat,
    /// The requested glyph identifier is beyond the decoded glyph count.
    GlyphNotFound(usize),
}

} // verus!

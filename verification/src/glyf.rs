//! The glyf table: one raw glyph per loca range.
//!
//! Each glyph's byte range is sliced out of the table; a zero-length
//! range is an intentionally empty glyph, any other range carries a
//! 10-byte header (contour count and bounding box) followed by the
//! outline data bytes.

use vstd::prelude::*;
use crate::error::{FontError, GlyphKind};
use crate::glyph::{parse_simple_spec, GlyphType, SimpleGlyph, SimpleGlyphView};
use crate::loca::{LocaTable, LocaTableView};
use crate::reader::{be_i16_at, Reader};

verus! {

/// One raw glyph: the header fields and the undecoded outline bytes.
#[derive(Debug, PartialEq, Eq)]
pub struct Glyph {
    /// Positive for a simple glyph, negative for a composite one,
    /// zero for an empty one.
    pub number_of_contours: i16,
    pub x_min: i16,
    pub y_min: i16,
    pub x_max: i16,
    pub y_max: i16,
    /// The outline bytes following the 10-byte header.
    pub data: Vec<u8>,
}

/// Mathematical image of a [`Glyph`].
pub struct GlyphView {
    pub number_of_contours: i16,
    pub x_min: i16,
    pub y_min: i16,
    pub x_max: i16,
    pub y_max: i16,
    pub data: Seq<u8>,
}

impl View for Glyph {
    type V = GlyphView;

    open spec fn view(&self) -> GlyphView {
        GlyphView {
            number_of_contours: self.number_of_contours,
            x_min: self.x_min,
            y_min: self.y_min,
            x_max: self.x_max,
            y_max: self.y_max,
            data: self.data@,
        }
    }
}

/// The decoded glyf table: one raw glyph per loca range.
#[derive(Debug, PartialEq, Eq)]
pub struct GlyfTable {
    pub glyphs: Vec<Glyph>,
}

/// Mathematical image of a [`GlyfTable`].
pub struct GlyfTableView {
    pub glyphs: Seq<GlyphView>,
}

impl View for GlyfTable {
    type V = GlyfTableView;

    open spec fn view(&self) -> GlyfTableView {
        GlyfTableView { glyphs: self.glyphs@.map_values(|g: Glyph| g@) }
    }
}

/// The glyph whose bytes span `[start, end)` of the glyf table: the
/// zeroed empty glyph for an empty range, else the decoded header and
/// the remaining outline bytes.
pub open spec fn glyph_at(d: Seq<u8>, start: int, end: int) -> GlyphView {
    if end == start {
        GlyphView {
            number_of_contours: 0,
            x_min: 0,
            y_min: 0,
            x_max: 0,
            y_max: 0,
            data: Seq::empty(),
        }
    } else {
        GlyphView {
            number_of_contours: be_i16_at(d, start),
            x_min: be_i16_at(d, start + 2),
            y_min: be_i16_at(d, start + 4),
            x_max: be_i16_at(d, start + 6),
            y_max: be_i16_at(d, start + 8),
            data: d.subrange(start + 10, end),
        }
    }
}

/// Every glyph range fits inside the glyf bytes, and a non-empty one
/// is at least as long as the 10-byte header.
pub open spec fn glyf_ranges_ok(d: Seq<u8>, loca: LocaTableView) -> bool {
    forall|i: int|
        0 <= i < loca.offsets.len() - 1 ==> (#[trigger] loca.range_end(i)) <= d.len() && (
        loca.range_end(i) == loca.range_start(i) || loca.range_end(i) - loca.range_start(i) >= 10)
}

/// What slicing `d` into glyphs along `loca`'s ranges yields: one
/// glyph per range, or `TruncatedData` as soon as a range leaves the
/// buffer or is too short for its header.
pub open spec fn parse_glyf_spec(d: Seq<u8>, loca: LocaTableView) -> Result<
    GlyfTableView,
    FontError,
> {
    if glyf_ranges_ok(d, loca) {
        Ok(
            (GlyfTableView {
                glyphs: Seq::new(
                    (loca.offsets.len() - 1) as nat,
                    |i: int| glyph_at(d, loca.range_start(i), loca.range_end(i)),
                ),
            }),
        )
    } else {
        Err(FontError::TruncatedData)
    }
}

/// The empty decoded glyph: no contours, no instructions, no points.
pub open spec fn empty_simple_glyph() -> SimpleGlyphView {
    SimpleGlyphView {
        end_pts_of_contours: Seq::empty(),
        instruction_length: 0,
        instructions: Seq::empty(),
        flags: Seq::empty(),
        x_coordinates: Seq::empty(),
        y_coordinates: Seq::empty(),
        points: Seq::empty(),
    }
}

/// What requesting glyph `glyph_id` from the decoded table yields:
/// the decoded simple glyph, the empty glyph, `UnsupportedGlyphType`
/// for a composite one, or `GlyphNotFound` past the table's end.
pub open spec fn get_glyph_spec(glyphs: Seq<GlyphView>, glyph_id: usize) -> Result<
    SimpleGlyphView,
    FontError,
> {
    if glyph_id >= glyphs.len() {
        Err(FontError::GlyphNotFound(glyph_id))
    } else {
        let g = glyphs[glyph_id as int];
        if g.number_of_contours > 0 {
            parse_simple_spec(g)
        } else if g.number_of_contours < 0 {
            Err(FontError::UnsupportedGlyphType(GlyphKind::Composite))
        } else {
            Ok(empty_simple_glyph())
        }
    }
}

/// A glyph whose loca byte range is empty always decodes to the empty
/// glyph: zero contours and zero points.
pub proof fn lemma_empty_range_empty_glyph(d: Seq<u8>, loca: LocaTableView, glyph_id: usize)
    requires
        parse_glyf_spec(d, loca) is Ok,
        glyph_id < loca.offsets.len() - 1,
        loca.range_end(glyph_id as int) == loca.range_start(glyph_id as int),
    ensures
        get_glyph_spec(parse_glyf_spec(d, loca).unwrap().glyphs, glyph_id) == Ok::<
            SimpleGlyphView,
            FontError,
        >(empty_simple_glyph()),
        empty_simple_glyph().end_pts_of_contours.len() == 0,
        empty_simple_glyph().points.len() == 0,
{
    let glyphs = parse_glyf_spec(d, loca).unwrap().glyphs;
    assert(glyphs[glyph_id as int] == glyph_at(
        d,
        loca.range_start(glyph_id as int),
        loca.range_end(glyph_id as int),
    ));
}

/// Requesting a composite glyph always fails with
/// `UnsupportedGlyphType`; no partial decode is attempted.
pub proof fn lemma_composite_rejected(glyphs: Seq<GlyphView>, glyph_id: usize)
    requires
        glyph_id < glyphs.len(),
        glyphs[glyph_id as int].number_of_contours < 0,
    ensures
        get_glyph_spec(glyphs, glyph_id) == Err::<SimpleGlyphView, FontError>(
            FontError::UnsupportedGlyphType(GlyphKind::Composite),
        ),
{
}

impl GlyfTable {
    /// Slices the glyf table into raw glyphs along the loca ranges.
    pub fn parse(data: &[u8], loca_table: &LocaTable) -> (r: Result<GlyfTable, FontError>)
        requires
            loca_table@.wf(),
        ensures
            match r {
                Ok(t) => parse_glyf_spec(data@, loca_table@) == Ok::<GlyfTableView, FontError>(t@),
                Err(e) => parse_glyf_spec(data@, loca_table@) == Err::<GlyfTableView, FontError>(e),
            },
            r is Ok ==> r.unwrap()@.glyphs.len() == loca_table@.offsets.len() - 1,
    {
        let n = loca_table.offsets.len();
        let mut glyphs: Vec<Glyph> = Vec::new();
        let mut i: usize = 0;
        while i < n - 1
            invariant
                loca_table@.wf(),
                n == loca_table@.offsets.len(),
                n >= 1,
                i <= n - 1,
                glyphs@.len() == i,
                forall|j: int|
                    0 <= j < i ==> (#[trigger] loca_table@.range_end(j)) <= data@.len() && (
                    loca_table@.range_end(j) == loca_table@.range_start(j) || loca_table@.range_end(
                        j,
                    ) - loca_table@.range_start(j) >= 10),
                forall|j: int|
                    0 <= j < i ==> (#[trigger] glyphs@[j])@ == glyph_at(
                        data@,
                        loca_table@.range_start(j),
                        loca_table@.range_end(j),
                    ),
            decreases n - 1 - i,
        {
            let (start32, end32) = loca_table.glyph_range(i);
            let start = start32 as usize;
            let end = end32 as usize;
            if end > data.len() {
                return Err(FontError::TruncatedData);
            }
            let size = end - start;
            let glyph: Glyph = if size == 0 {
                Glyph {
                    number_of_contours: 0,
                    x_min: 0,
                    y_min: 0,
                    x_max: 0,
                    y_max: 0,
                    data: Vec::new(),
                }
            } else if size < 10 {
                return Err(FontError::TruncatedData);
            } else {
                let mut rd = Reader::new(data);
                match rd.set_position(start) {
                    Ok(()) => (),
                    Err(e) => {
                        proof {
                            assert(false);
                        }
                        return Err(e);
                    },
                };
                let number_of_contours = match rd.read_i16() {
                    Ok(v) => v,
                    Err(e) => {
                        proof {
                            assert(false);
                        }
                        return Err(e);
                    },
                };
                let x_min = match rd.read_i16() {
                    Ok(v) => v,
                    Err(e) => {
                        proof {
                            assert(false);
                        }
                        return Err(e);
                    },
                };
                let y_min = match rd.read_i16() {
                    Ok(v) => v,
                    Err(e) => {
                        proof {
                            assert(false);
                        }
                        return Err(e);
                    },
                };
                let x_max = match rd.read_i16() {
                    Ok(v) => v,
                    Err(e) => {
                        proof {
                            assert(false);
                        }
                        return Err(e);
                    },
                };
                let y_max = match rd.read_i16() {
                    Ok(v) => v,
                    Err(e) => {
                        proof {
                            assert(false);
                        }
                        return Err(e);
                    },
                };
                let outline = match rd.read_bytes(size - 10) {
                    Ok(v) => v,
                    Err(e) => {
                        proof {
                            assert(false);
                        }
                        return Err(e);
                    },
                };
                Glyph { number_of_contours, x_min, y_min, x_max, y_max, data: outline }
            };
            proof {
                assert(glyph@ == glyph_at(
                    data@,
                    loca_table@.range_start(i as int),
                    loca_table@.range_end(i as int),
                )) by {
                    if end != start {
                        assert(glyph@.data =~= data@.subrange(start + 10, end as int));
                    } else {
                        assert(glyph@.data =~= Seq::<u8>::empty());
                    }
                };
            }
            let ghost old_glyphs = glyphs@;
            glyphs.push(glyph);
            proof {
                assert(glyphs@.map_values(|g: Glyph| g@) =~= old_glyphs.map_values(
                    |g: Glyph| g@,
                ).push(glyph@));
            }
            i = i + 1;
        }
        let result = GlyfTable { glyphs };
        proof {
            assert(glyf_ranges_ok(data@, loca_table@));
            assert(result@.glyphs =~= parse_glyf_spec(data@, loca_table@).unwrap().glyphs);
        }
        Ok(result)
    }

    /// Looks a glyph up by identifier and decodes it: the decoded
    /// simple glyph, the empty glyph for an empty range, an
    /// `UnsupportedGlyphType` error for a composite glyph (never a
    /// partial decode), or `GlyphNotFound` past the table's end.
    pub fn get_glyph_data(&self, glyph_id: usize) -> (r: Result<SimpleGlyph, FontError>)
        ensures
            match r {
                Ok(t) => get_glyph_spec(self@.glyphs, glyph_id) == Ok::<SimpleGlyphView, FontError>(
                    t@,
                ),
                Err(e) => get_glyph_spec(self@.glyphs, glyph_id) == Err::<
                    SimpleGlyphView,
                    FontError,
                >(e),
            },
            r is Ok ==> r.unwrap()@.wf(),
    {
        if glyph_id >= self.glyphs.len() {
            return Err(FontError::GlyphNotFound(glyph_id));
        }
        let glyph = &self.glyphs[glyph_id];
        match Glyph::get_glyph_type(glyph) {
            GlyphType::Simple => SimpleGlyph::parse(glyph),
            GlyphType::Composite => Err(FontError::UnsupportedGlyphType(GlyphKind::Composite)),
            GlyphType::Empty => {
                let empty = SimpleGlyph {
                    end_pts_of_contours: Vec::new(),
                    instruction_length: 0,
                    instructions: Vec::new(),
                    flags: Vec::new(),
                    x_coordinates: Vec::new(),
                    y_coordinates: Vec::new(),
                    points: Vec::new(),
                };
                proof {
                    assert(empty@.end_pts_of_contours =~= empty_simple_glyph().end_pts_of_contours);
                    assert(empty@.instructions =~= empty_simple_glyph().instructions);
                    assert(empty@.flags =~= empty_simple_glyph().flags);
                    assert(empty@.x_coordinates =~= empty_simple_glyph().x_coordinates);
                    assert(empty@.y_coordinates =~= empty_simple_glyph().y_coordinates);
                    assert(empty@.points =~= empty_simple_glyph().points);
                }
                Ok(empty)
            },
        }
    }
}

impl Glyph {
    /// Classifies a raw glyph by the sign of its contour count.
    fn get_glyph_type(glyph: &Glyph) -> (r: GlyphType)
        ensures
            r == GlyphType::Simple <==> glyph@.number_of_contours > 0,
            r == GlyphType::Composite <==> glyph@.number_of_contours < 0,
            r == GlyphType::Empty <==> glyph@.number_of_contours == 0,
    {
        if glyph.number_of_contours > 0 {
            GlyphType::Simple
        } else if glyph.number_of_contours < 0 {
            GlyphType::Composite
        } else {
            GlyphType::Empty
        }
    }
}

} // verus!

//! The loca table: the glyph offset array, in either the compact
//! (`u16`, halved) or the full-width (`u32`) encoding.
//!
//! A well-formed table holds exactly `num_glyphs + 1` non-decreasing
//! offsets; glyph `i` owns the half-open byte range
//! `[offsets[i], offsets[i+1])` of the glyf table, scaled by two in the
//! compact encoding. A zero-length range denotes an intentionally
//! empty glyph, not an error.

use vstd::prelude::*;
use crate::error::FontError;
use crate::reader::{be_u16_at, be_u32_at, Reader};

verus! {

/// The two offset encodings, selected by head's `index_to_loc_format`.
#[derive(Clone, Copy, Debug, PartialEq, Eq, Structural)]
pub enum LocaFormat {
    /// Stored offsets are `u16` values, each half the true byte offset.
    Offset16,
    /// Stored offsets are the true byte offsets.
    Offset32,
}

/// The decoded loca table.
#[derive(Debug, PartialEq, Eq)]
pub struct LocaTable {
    /// The stored offsets, unscaled.
    pub offsets: Vec<u32>,
    /// The encoding the offsets were read in.
    pub format: LocaFormat,
}

/// Mathematical image of a [`LocaTable`].
pub struct LocaTableView {
    pub offsets: Seq<u32>,
    pub format: LocaFormat,
}

impl View for LocaTable {
    type V = LocaTableView;

    open spec fn view(&self) -> LocaTableView {
        LocaTableView { offsets: self.offsets@, format: self.format }
    }
}

/// Every offset is at most every later one.
pub open spec fn non_decreasing(s: Seq<u32>) -> bool {
    forall|i: int, j: int| 0 <= i <= j < s.len() ==> s[i] <= s[j]
}

impl LocaTableView {
    /// A well-formed loca table: at least one offset, offsets
    /// non-decreasing, and compact offsets small enough that doubling
    /// them cannot wrap.
    pub open spec fn wf(self) -> bool {
        &&& self.offsets.len() >= 1
        &&& non_decreasing(self.offsets)
        &&& (self.format == LocaFormat::Offset16 ==> forall|i: int|
            0 <= i < self.offsets.len() ==> self.offsets[i] <= 0xFFFF)
    }

    /// The scale from a stored offset to a byte offset.
    pub open spec fn scale(self) -> int {
        match self.format {
            LocaFormat::Offset16 => 2,
            LocaFormat::Offset32 => 1,
        }
    }

    /// Start of glyph `i`'s byte range within the glyf table.
    pub open spec fn range_start(self, i: int) -> int {
        self.offsets[i] * self.scale()
    }

    /// End of glyph `i`'s byte range within the glyf table.
    pub open spec fn range_end(self, i: int) -> int {
        self.offsets[i + 1] * self.scale()
    }
}

/// What parsing `d` as a loca table yields. Any `index_to_loc_format`
/// other than 0 or 1 is `InvalidFormat`; too few bytes for
/// `num_glyphs + 1` offsets is `TruncatedData`; offsets that decrease
/// are `InvalidFormat`.
pub open spec fn parse_loca_spec(d: Seq<u8>, num_glyphs: u16, index_to_loc_format: i16) -> Result<
    LocaTableView,
    FontError,
> {
    if index_to_loc_format != 0 && index_to_loc_format != 1 {
        Err(FontError::InvalidFormat)
    } else {
        let n = num_glyphs + 1;
        let w: int = if index_to_loc_format == 0 {
            2
        } else {
            4
        };
        if d.len() < n * w {
            Err(FontError::TruncatedData)
        } else {
            let offsets = Seq::new(
                n as nat,
                |i: int|
                    if index_to_loc_format == 0 {
                        be_u16_at(d, 2 * i) as u32
                    } else {
                        be_u32_at(d, 4 * i)
                    },
            );
            if !non_decreasing(offsets) {
                Err(FontError::InvalidFormat)
            } else {
                Ok(
                    (LocaTableView {
                        offsets,
                        format: if index_to_loc_format == 0 {
                            LocaFormat::Offset16
                        } else {
                            LocaFormat::Offset32
                        },
                    }),
                )
            }
        }
    }
}

/// What extracting glyph `glyph_id`'s raw byte offset from loca bytes
/// yields: the stored value, doubled in the compact encoding.
pub open spec fn glyph_offset_spec(d: Seq<u8>, glyph_id: u16, index_to_loc_format: i16) -> Result<
    u32,
    FontError,
> {
    if index_to_loc_format == 0 {
        if d.len() < 2 * glyph_id + 2 {
            Err(FontError::TruncatedData)
        } else {
            Ok(((be_u16_at(d, 2 * glyph_id) as int) * 2) as u32)
        }
    } else if index_to_loc_format == 1 {
        if d.len() < 4 * glyph_id + 4 {
            Err(FontError::TruncatedData)
        } else {
            Ok(be_u32_at(d, 4 * glyph_id))
        }
    } else {
        Err(FontError::InvalidFormat)
    }
}

/// Every successfully parsed loca table is well-formed: its offsets
/// are non-decreasing and number exactly `num_glyphs + 1`.
pub proof fn lemma_parse_loca_wf(d: Seq<u8>, num_glyphs: u16, index_to_loc_format: i16)
    ensures
        parse_loca_spec(d, num_glyphs, index_to_loc_format) is Ok ==> {
            let t = parse_loca_spec(d, num_glyphs, index_to_loc_format).unwrap();
            &&& t.wf()
            &&& non_decreasing(t.offsets)
            &&& t.offsets.len() == num_glyphs + 1
        },
{
    if parse_loca_spec(d, num_glyphs, index_to_loc_format) is Ok {
        let t = parse_loca_spec(d, num_glyphs, index_to_loc_format).unwrap();
        assert forall|i: int| 0 <= i < t.offsets.len() && t.format == LocaFormat::Offset16
            implies t.offsets[i] <= 0xFFFF by {
            assert(t.offsets[i] == be_u16_at(d, 2 * i) as u32);
        }
    }
}

/// Any `index_to_loc_format` other than 0 or 1 fails with
/// `InvalidFormat`, both for table parsing and for raw offset
/// extraction.
pub proof fn lemma_invalid_loc_format(
    d: Seq<u8>,
    num_glyphs: u16,
    glyph_id: u16,
    index_to_loc_format: i16,
)
    requires
        index_to_loc_format != 0,
        index_to_loc_format != 1,
    ensures
        parse_loca_spec(d, num_glyphs, index_to_loc_format) == Err::<LocaTableView, FontError>(
            FontError::InvalidFormat,
        ),
        glyph_offset_spec(d, glyph_id, index_to_loc_format) == Err::<u32, FontError>(
            FontError::InvalidFormat,
        ),
{
}

impl LocaTable {
    /// Parses the loca table from its own byte slice, given the glyph
    /// count from maxp and the offset format from head.
    ///
    /// A successful parse always yields a well-formed table with
    /// exactly `num_glyphs + 1` non-decreasing offsets.
    pub fn parse(data: &[u8], num_glyphs: u16, index_to_loc_format: i16) -> (r: Result<
        LocaTable,
        FontError,
    >)
        ensures
            match r {
                Ok(t) => parse_loca_spec(data@, num_glyphs, index_to_loc_format) == Ok::<
                    LocaTableView,
                    FontError,
                >(t@),
                Err(e) => parse_loca_spec(data@, num_glyphs, index_to_loc_format) == Err::<
                    LocaTableView,
                    FontError,
                >(e),
            },
            r is Ok ==> r.unwrap()@.wf() && r.unwrap()@.offsets.len() == num_glyphs + 1,
    {
        if index_to_loc_format != 0 && index_to_loc_format != 1 {
            return Err(FontError::InvalidFormat);
        }
        let format = if index_to_loc_format == 0 {
            LocaFormat::Offset16
        } else {
            LocaFormat::Offset32
        };
        let n: usize = num_glyphs as usize + 1;
        let w: usize = if index_to_loc_format == 0 {
            2
        } else {
            4
        };
        proof {
            assert(n * w <= 0x40000) by (nonlinear_arith)
                requires
                    n <= 0x10000,
                    w <= 4,
            ;
        }
        let need: usize = n * w;
        if data.len() < need {
            return Err(FontError::TruncatedData);
        }
        let ghost spec_offsets = Seq::new(
            n as nat,
            |i: int|
                if index_to_loc_format == 0 {
                    be_u16_at(data@, 2 * i) as u32
                } else {
                    be_u32_at(data@, 4 * i)
                },
        );
        let mut rd = Reader::new(data);
        let mut offsets: Vec<u32> = Vec::new();
        let mut i: usize = 0;
        while i < n
            invariant
                rd.wf(),
                rd.bytes() == data@,
                i <= n,
                n * w <= data@.len(),
                w == (if index_to_loc_format == 0 { 2int } else { 4int }),
                index_to_loc_format == 0 || index_to_loc_format == 1,
                rd.position_spec() == i * w,
                offsets@.len() == i,
                forall|j: int| 0 <= j < i ==> offsets@[j] == spec_offsets[j],
                spec_offsets == Seq::new(
                    n as nat,
                    |k: int|
                        if index_to_loc_format == 0 {
                            be_u16_at(data@, 2 * k) as u32
                        } else {
                            be_u32_at(data@, 4 * k)
                        },
                ),
            decreases n - i,
        {
            proof {
                assert((i + 1) * w <= n * w) by (nonlinear_arith)
                    requires
                        i + 1 <= n,
                        w >= 2,
                ;
                assert(i * w + w == (i + 1) * w) by (nonlinear_arith);
            }
            let v: u32 = if index_to_loc_format == 0 {
                match rd.read_u16() {
                    Ok(x) => x as u32,
                    Err(e) => {
                        proof {
                            assert(false);
                        }
                        return Err(e);
                    },
                }
            } else {
                match rd.read_u32() {
                    Ok(x) => x,
                    Err(e) => {
                        proof {
                            assert(false);
                        }
                        return Err(e);
                    },
                }
            };
            offsets.push(v);
            i = i + 1;
        }
        let mut k: usize = 1;
        while k < n
            invariant
                offsets@.len() == n,
                n == num_glyphs + 1,
                k >= 1,
                k <= n,
                index_to_loc_format == 0 || index_to_loc_format == 1,
                w == (if index_to_loc_format == 0 { 2int } else { 4int }),
                n * w <= data@.len(),
                offsets@ == spec_offsets,
                spec_offsets == Seq::new(
                    n as nat,
                    |j: int|
                        if index_to_loc_format == 0 {
                            be_u16_at(data@, 2 * j) as u32
                        } else {
                            be_u32_at(data@, 4 * j)
                        },
                ),
                forall|a: int, b: int| 0 <= a <= b < k ==> offsets@[a] <= offsets@[b],
            decreases n - k,
        {
            if offsets[k - 1] > offsets[k] {
                return Err(FontError::InvalidFormat);
            }
            k = k + 1;
        }
        proof {
            assert(offsets@ =~= spec_offsets);
        }
        Ok(LocaTable { offsets, format })
    }

    /// The scaled byte range of glyph `i` within the glyf table.
    pub fn glyph_range(&self, i: usize) -> (r: (u32, u32))
        requires
            self@.wf(),
            i + 1 < self@.offsets.len(),
        ensures
            r.0 == self@.range_start(i as int),
            r.1 == self@.range_end(i as int),
            r.0 <= r.1,
    {
        let _len = self.offsets.len();
        match self.format {
            LocaFormat::Offset16 => (self.offsets[i] * 2, self.offsets[i + 1] * 2),
            LocaFormat::Offset32 => (self.offsets[i], self.offsets[i + 1]),
        }
    }

    /// Extracts glyph `glyph_id`'s raw byte offset straight from loca
    /// bytes, without decoding the whole table.
    pub fn get_glyph_offset(loca_table: &[u8], glyph_id: u16, index_to_loc_format: i16) -> (r:
        Result<u32, FontError>)
        ensures
            r == glyph_offset_spec(loca_table@, glyph_id, index_to_loc_format),
    {
        if index_to_loc_format == 0 {
            let base: usize = 2 * (glyph_id as usize);
            if loca_table.len() < base + 2 {
                Err(FontError::TruncatedData)
            } else {
                let hi = loca_table[base];
                let lo = loca_table[base + 1];
                Ok(((hi as u32) * 0x100 + (lo as u32)) * 2)
            }
        } else if index_to_loc_format == 1 {
            let base: usize = 4 * (glyph_id as usize);
            if loca_table.len() < base + 4 {
                Err(FontError::TruncatedData)
            } else {
                let b0 = loca_table[base];
                let b1 = loca_table[base + 1];
                let b2 = loca_table[base + 2];
                let b3 = loca_table[base + 3];
                Ok(
                    (b0 as u32) * 0x1000000 + (b1 as u32) * 0x10000 + (b2 as u32) * 0x100 + (
                    b3 as u32),
                )
            }
        } else {
            Err(FontError::InvalidFormat)
        }
    }
}

} // verus!

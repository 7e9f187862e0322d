//! The cmap table: the encoding-record list and the format-4 segment
//! subtable, with codepoint-to-glyph lookup.
//!
//! Lookup scans the segments in order for the first one whose range
//! holds the codepoint. A segment with `id_range_offset == 0` maps
//! through `id_delta` modulo 65536; otherwise the glyph comes from
//! `glyph_id_array`, indexed by `id_range_offset / 2 + (codepoint -
//! start_code) + segment index`, the extra term accounting for the
//! array's interleaving with the remaining offset entries in the
//! original layout. An index past the array's end, or a codepoint in
//! no segment, means "no mapping", not an error.

use vstd::prelude::*;
use crate::error::FontError;
use crate::reader::{be_i16_at, be_u16_at, be_u32_at, Reader};

verus! {

/// Header of the cmap table: version and the encoding-record list.
#[derive(Debug)]
pub struct CmapTable {
    pub version: u16,
    pub num_tables: u16,
    pub encoding_records: Vec<EncodingRecord>,
}

/// One platform/encoding entry of the cmap header; `offset` is
/// relative to the cmap table's own start.
#[derive(Clone, Copy, Debug, PartialEq, Eq, Structural)]
pub struct EncodingRecord {
    pub platform_id: u16,
    pub encoding_id: u16,
    pub offset: u32,
}

/// Mathematical image of a [`CmapTable`].
pub struct CmapTableView {
    pub version: u16,
    pub num_tables: u16,
    pub encoding_records: Seq<EncodingRecord>,
}

impl View for CmapTable {
    type V = CmapTableView;

    open spec fn view(&self) -> CmapTableView {
        CmapTableView {
            version: self.version,
            num_tables: self.num_tables,
            encoding_records: self.encoding_records@,
        }
    }
}

/// The encoding record stored at byte offset `off` of `d`.
pub open spec fn encoding_record_at(d: Seq<u8>, off: int) -> EncodingRecord {
    EncodingRecord {
        platform_id: be_u16_at(d, off),
        encoding_id: be_u16_at(d, off + 2),
        offset: be_u32_at(d, off + 4),
    }
}

/// What parsing `d` as a cmap header yields: version, record count
/// and exactly that many 8-byte encoding records, or `TruncatedData`.
pub open spec fn parse_cmap_spec(d: Seq<u8>) -> Result<CmapTableView, FontError> {
    if d.len() < 4 {
        Err(FontError::TruncatedData)
    } else {
        let n = be_u16_at(d, 2) as int;
        if d.len() < 4 + 8 * n {
            Err(FontError::TruncatedData)
        } else {
            Ok(
                (CmapTableView {
                    version: be_u16_at(d, 0),
                    num_tables: be_u16_at(d, 2),
                    encoding_records: Seq::new(n as nat, |i: int| encoding_record_at(d, 4 + 8 * i)),
                }),
            )
        }
    }
}

/// The first encoding record with the given platform and encoding,
/// searched from index `i` on.
pub open spec fn find_encoding_from(
    records: Seq<EncodingRecord>,
    platform_id: u16,
    encoding_id: u16,
    i: int,
) -> Option<EncodingRecord>
    decreases records.len() - i,
{
    if i < 0 || i >= records.len() {
        None
    } else if records[i].platform_id == platform_id && records[i].encoding_id == encoding_id {
        Some(records[i])
    } else {
        find_encoding_from(records, platform_id, encoding_id, i + 1)
    }
}

/// The first encoding record with the given platform and encoding.
pub open spec fn find_encoding(
    records: Seq<EncodingRecord>,
    platform_id: u16,
    encoding_id: u16,
) -> Option<EncodingRecord> {
    find_encoding_from(records, platform_id, encoding_id, 0)
}

/// The decoded format-4 segment subtable. The four segment arrays are
/// parallel, all of length `seg_count_x2 / 2`.
#[derive(Debug, PartialEq, Eq)]
pub struct CmapFormat4 {
    format: u16,
    length: u16,
    language: u16,
    seg_count_x2: u16,
    search_range: u16,
    entry_selector: u16,
    range_shift: u16,
    end_code: Vec<u16>,
    reserved_pad: u16,
    start_code: Vec<u16>,
    id_delta: Vec<i16>,
    id_range_offset: Vec<u16>,
    glyph_id_array: Vec<u16>,
}

/// Mathematical image of a [`CmapFormat4`].
pub struct CmapFormat4View {
    pub format: u16,
    pub length: u16,
    pub language: u16,
    pub seg_count_x2: u16,
    pub search_range: u16,
    pub entry_selector: u16,
    pub range_shift: u16,
    pub end_code: Seq<u16>,
    pub reserved_pad: u16,
    pub start_code: Seq<u16>,
    pub id_delta: Seq<i16>,
    pub id_range_offset: Seq<u16>,
    pub glyph_id_array: Seq<u16>,
}

impl View for CmapFormat4 {
    type V = CmapFormat4View;

    closed spec fn view(&self) -> CmapFormat4View {
        CmapFormat4View {
            format: self.format,
            length: self.length,
            language: self.language,
            seg_count_x2: self.seg_count_x2,
            search_range: self.search_range,
            entry_selector: self.entry_selector,
            range_shift: self.range_shift,
            end_code: self.end_code@,
            reserved_pad: self.reserved_pad,
            start_code: self.start_code@,
            id_delta: self.id_delta@,
            id_range_offset: self.id_range_offset@,
            glyph_id_array: self.glyph_id_array@,
        }
    }
}

impl CmapFormat4View {
    /// Number of segments.
    pub open spec fn seg_count(self) -> int {
        self.seg_count_x2 as int / 2
    }

    /// The four segment arrays are parallel with `seg_count` entries.
    pub open spec fn wf(self) -> bool {
        &&& self.end_code.len() == self.seg_count()
        &&& self.start_code.len() == self.seg_count()
        &&& self.id_delta.len() == self.seg_count()
        &&& self.id_range_offset.len() == self.seg_count()
    }
}

/// `(code + delta) mod 65536`, the glyph identifier a delta-mapped
/// segment yields.
pub open spec fn delta_glyph_id(code: u16, delta: i16) -> u16 {
    let s = code + delta;
    if s < 0 {
        (s + 0x10000) as u16
    } else if s >= 0x10000 {
        (s - 0x10000) as u16
    } else {
        s as u16
    }
}

/// The glyph identifier for `code`, scanning segments from index `i`
/// on for the first whose range holds it.
pub open spec fn glyph_id_lookup_from(c: CmapFormat4View, code: u16, i: int) -> Option<u16>
    decreases c.seg_count() - i,
{
    if i < 0 || i >= c.seg_count() {
        None
    } else if c.start_code[i] <= code && code <= c.end_code[i] {
        if c.id_range_offset[i] == 0 {
            Some(delta_glyph_id(code, c.id_delta[i]))
        } else {
            let idx = c.id_range_offset[i] as int / 2 + (code - c.start_code[i]) + i;
            if idx < c.glyph_id_array.len() {
                Some(c.glyph_id_array[idx])
            } else {
                None
            }
        }
    } else {
        glyph_id_lookup_from(c, code, i + 1)
    }
}

/// The glyph identifier the subtable maps `code` to, if any.
pub open spec fn glyph_id_lookup(c: CmapFormat4View, code: u16) -> Option<u16> {
    glyph_id_lookup_from(c, code, 0)
}

/// What parsing `d` as the body of a format-4 subtable yields.
///
/// `d` holds the bytes after the 2-byte format tag and 2-byte length
/// field; `subtable_length` is the declared length including those
/// two fields. The trailing `glyph_id_array` length is computed as
/// `(subtable_length - 16 - 8 * seg_count) / 2`, which must be
/// non-negative, else `InvalidFormat`; running out of bytes at any
/// step is `TruncatedData`.
pub open spec fn parse_format4_spec(d: Seq<u8>, subtable_length: u16) -> Result<
    CmapFormat4View,
    FontError,
> {
    if d.len() < 10 {
        Err(FontError::TruncatedData)
    } else {
        let s = be_u16_at(d, 2) as int / 2;
        if d.len() < 12 + 8 * s {
            Err(FontError::TruncatedData)
        } else if subtable_length < 16 + 8 * s {
            Err(FontError::InvalidFormat)
        } else {
            let g = (subtable_length - 16 - 8 * s) / 2;
            if d.len() < 12 + 8 * s + 2 * g {
                Err(FontError::TruncatedData)
            } else {
                Ok(
                    (CmapFormat4View {
                        format: 4,
                        length: subtable_length,
                        language: be_u16_at(d, 0),
                        seg_count_x2: be_u16_at(d, 2),
                        search_range: be_u16_at(d, 4),
                        entry_selector: be_u16_at(d, 6),
                        range_shift: be_u16_at(d, 8),
                        end_code: Seq::new(s as nat, |i: int| be_u16_at(d, 10 + 2 * i)),
                        reserved_pad: be_u16_at(d, 10 + 2 * s),
                        start_code: Seq::new(s as nat, |i: int| be_u16_at(d, 12 + 2 * s + 2 * i)),
                        id_delta: Seq::new(s as nat, |i: int| be_i16_at(d, 12 + 4 * s + 2 * i)),
                        id_range_offset: Seq::new(
                            s as nat,
                            |i: int| be_u16_at(d, 12 + 6 * s + 2 * i),
                        ),
                        glyph_id_array: Seq::new(
                            g as nat,
                            |i: int| be_u16_at(d, 12 + 8 * s + 2 * i),
                        ),
                    }),
                )
            }
        }
    }
}

impl CmapTable {
    /// Parses the cmap header and encoding-record list from the cmap
    /// table's own byte slice.
    pub fn parse(data: &[u8]) -> (r: Result<CmapTable, FontError>)
        ensures
            match r {
                Ok(t) => parse_cmap_spec(data@) == Ok::<CmapTableView, FontError>(t@),
                Err(e) => parse_cmap_spec(data@) == Err::<CmapTableView, FontError>(e),
            },
    {
        let mut rd = Reader::new(data);
        if data.len() < 4 {
            return Err(FontError::TruncatedData);
        }
        let version = match rd.read_u16() {
            Ok(v) => v,
            Err(e) => { return Err(e); },
        };
        let num_tables = match rd.read_u16() {
            Ok(v) => v,
            Err(e) => { return Err(e); },
        };
        let n = num_tables as usize;
        proof {
            assert(8 * n <= 0x80000) by (nonlinear_arith)
                requires
                    n <= 0x10000,
            ;
        }
        if (data.len() - 4) / 8 < n {
            proof {
                assert(data@.len() < 4 + 8 * n) by (nonlinear_arith)
                    requires
                        (data@.len() - 4) / 8 < n,
                        data@.len() >= 4,
                ;
            }
            return Err(FontError::TruncatedData);
        }
        proof {
            assert(data@.len() >= 4 + 8 * n) by (nonlinear_arith)
                requires
                    (data@.len() - 4) / 8 >= n,
                    data@.len() >= 4,
            ;
        }
        let mut encoding_records: Vec<EncodingRecord> = Vec::new();
        let mut i: usize = 0;
        while i < n
            invariant
                rd.wf(),
                rd.bytes() == data@,
                i <= n,
                data@.len() >= 4 + 8 * n,
                rd.position_spec() == 4 + 8 * i,
                encoding_records@.len() == i,
                forall|j: int|
                    0 <= j < i ==> encoding_records@[j] == encoding_record_at(data@, 4 + 8 * j),
            decreases n - i,
        {
            proof {
                assert(4 + 8 * (i + 1) <= 4 + 8 * n) by (nonlinear_arith)
                    requires
                        i + 1 <= n,
                ;
            }
            let platform_id = match rd.read_u16() {
                Ok(v) => v,
                Err(e) => {
                    proof {
                        assert(false);
                    }
                    return Err(e);
                },
            };
            let encoding_id = match rd.read_u16() {
                Ok(v) => v,
                Err(e) => {
                    proof {
                        assert(false);
                    }
                    return Err(e);
                },
            };
            let offset = match rd.read_u32() {
                Ok(v) => v,
                Err(e) => {
                    proof {
                        assert(false);
                    }
                    return Err(e);
                },
            };
            encoding_records.push(EncodingRecord { platform_id, encoding_id, offset });
            i = i + 1;
        }
        let result = CmapTable { version, num_tables, encoding_records };
        proof {
            assert(result@.encoding_records =~= parse_cmap_spec(data@).unwrap().encoding_records);
        }
        Ok(result)
    }

    /// Looks up the first encoding record with the given platform and
    /// encoding identifiers.
    pub fn find_encoding_record(&self, platform_id: u16, encoding_id: u16) -> (r: Option<
        EncodingRecord,
    >)
        ensures
            r == find_encoding(self@.encoding_records, platform_id, encoding_id),
    {
        let n = self.encoding_records.len();
        let mut i: usize = 0;
        while i < n
            invariant
                n == self.encoding_records@.len(),
                i <= n,
                find_encoding(self@.encoding_records, platform_id, encoding_id) == find_encoding_from(
                    self@.encoding_records,
                    platform_id,
                    encoding_id,
                    i as int,
                ),
            decreases n - i,
        {
            let rec = self.encoding_records[i];
            if rec.platform_id == platform_id && rec.encoding_id == encoding_id {
                return Some(rec);
            }
            i = i + 1;
        }
        None
    }

    /// Parses the body of a format-4 subtable.
    ///
    /// `data` holds the bytes after the format and length fields;
    /// `subtable_length` is the declared length including them. A
    /// successful parse yields parallel segment arrays.
    pub fn parse_format4(data: &[u8], subtable_length: u16) -> (r: Result<CmapFormat4, FontError>)
        ensures
            match r {
                Ok(t) => parse_format4_spec(data@, subtable_length) == Ok::<
                    CmapFormat4View,
                    FontError,
                >(t@),
                Err(e) => parse_format4_spec(data@, subtable_length) == Err::<
                    CmapFormat4View,
                    FontError,
                >(e),
            },
            r is Ok ==> r.unwrap()@.wf(),
    {
        let mut rd = Reader::new(data);
        if data.len() < 10 {
            return Err(FontError::TruncatedData);
        }
        let language = match rd.read_u16() {
            Ok(v) => v,
            Err(e) => { return Err(e); },
        };
        let seg_count_x2 = match rd.read_u16() {
            Ok(v) => v,
            Err(e) => { return Err(e); },
        };
        let search_range = match rd.read_u16() {
            Ok(v) => v,
            Err(e) => { return Err(e); },
        };
        let entry_selector = match rd.read_u16() {
            Ok(v) => v,
            Err(e) => { return Err(e); },
        };
        let range_shift = match rd.read_u16() {
            Ok(v) => v,
            Err(e) => { return Err(e); },
        };
        let s = (seg_count_x2 as usize) / 2;
        if (data.len() - 10) / 8 < s || data.len() < 12 {
            proof {
                assert(data@.len() < 12 + 8 * s) by (nonlinear_arith)
                    requires
                        (data@.len() - 10) / 8 < s || data@.len() < 12,
                        data@.len() >= 10,
                ;
            }
            return Err(FontError::TruncatedData);
        }
        proof {
            assert(8 * s <= 0x80000) by (nonlinear_arith)
                requires
                    s <= 0x10000,
            ;
            assert(data@.len() >= 10 + 8 * s) by (nonlinear_arith)
                requires
                    (data@.len() - 10) / 8 >= s,
                    data@.len() >= 10,
            ;
        }
        if data.len() - 10 - 8 * s < 2 {
            return Err(FontError::TruncatedData);
        }
        if (subtable_length as usize) < 16 + 8 * s {
            return Err(FontError::InvalidFormat);
        }
        let g = ((subtable_length as usize) - 16 - 8 * s) / 2;
        if (data.len() - 12 - 8 * s) / 2 < g {
            proof {
                assert(data@.len() < 12 + 8 * s + 2 * g) by (nonlinear_arith)
                    requires
                        (data@.len() - 12 - 8 * s) / 2 < g,
                        data@.len() >= 12 + 8 * s,
                ;
            }
            return Err(FontError::TruncatedData);
        }
        proof {
            assert(data@.len() >= 12 + 8 * s + 2 * g) by (nonlinear_arith)
                requires
                    (data@.len() - 12 - 8 * s) / 2 >= g,
                    data@.len() >= 12 + 8 * s,
            ;
            assert(2 * g <= subtable_length) by (nonlinear_arith)
                requires
                    g == ((subtable_length as int) - 16 - 8 * s) / 2,
                    subtable_length >= 16 + 8 * s,
            ;
        }
        let end_code = match rd.read_u16_array(s) {
            Ok(v) => v,
            Err(e) => {
                proof {
                    assert(false);
                }
                return Err(e);
            },
        };
        let reserved_pad = match rd.read_u16() {
            Ok(v) => v,
            Err(e) => {
                proof {
                    assert(false);
                }
                return Err(e);
            },
        };
        let start_code = match rd.read_u16_array(s) {
            Ok(v) => v,
            Err(e) => {
                proof {
                    assert(false);
                }
                return Err(e);
            },
        };
        let id_delta = match rd.read_i16_array(s) {
            Ok(v) => v,
            Err(e) => {
                proof {
                    assert(false);
                }
                return Err(e);
            },
        };
        let id_range_offset = match rd.read_u16_array(s) {
            Ok(v) => v,
            Err(e) => {
                proof {
                    assert(false);
                }
                return Err(e);
            },
        };
        let glyph_id_array = match rd.read_u16_array(g) {
            Ok(v) => v,
            Err(e) => {
                proof {
                    assert(false);
                }
                return Err(e);
            },
        };
        let result = CmapFormat4 {
            format: 4,
            length: subtable_length,
            language,
            seg_count_x2,
            search_range,
            entry_selector,
            range_shift,
            end_code,
            reserved_pad,
            start_code,
            id_delta,
            id_range_offset,
            glyph_id_array,
        };
        proof {
            let spec_v = parse_format4_spec(data@, subtable_length).unwrap();
            assert(result@.end_code =~= spec_v.end_code);
            assert(result@.start_code =~= spec_v.start_code);
            assert(result@.id_delta =~= spec_v.id_delta);
            assert(result@.id_range_offset =~= spec_v.id_range_offset);
            assert(result@.glyph_id_array =~= spec_v.glyph_id_array);
        }
        Ok(result)
    }

    /// Maps a codepoint to its glyph identifier through a format-4
    /// subtable; `None` means the font maps no glyph to it.
    pub fn get_glyph_id(char_code: u16, cmap_format4: &CmapFormat4) -> (r: Option<u16>)
        requires
            cmap_format4@.wf(),
        ensures
            r == glyph_id_lookup(cmap_format4@, char_code),
    {
        let s = (cmap_format4.seg_count_x2 as usize) / 2;
        let mut i: usize = 0;
        while i < s
            invariant
                cmap_format4@.wf(),
                s == cmap_format4@.seg_count(),
                i <= s,
                glyph_id_lookup(cmap_format4@, char_code) == glyph_id_lookup_from(
                    cmap_format4@,
                    char_code,
                    i as int,
                ),
            decreases s - i,
        {
            if cmap_format4.start_code[i] <= char_code && char_code <= cmap_format4.end_code[i] {
                if cmap_format4.id_range_offset[i] == 0 {
                    let sum: i32 = char_code as i32 + cmap_format4.id_delta[i] as i32;
                    let id: u16 = if sum < 0 {
                        (sum + 0x10000) as u16
                    } else if sum >= 0x10000 {
                        (sum - 0x10000) as u16
                    } else {
                        sum as u16
                    };
                    return Some(id);
                } else {
                    let idx: usize = (cmap_format4.id_range_offset[i] as usize) / 2 + ((char_code
                        - cmap_format4.start_code[i]) as usize) + i;
                    if idx < cmap_format4.glyph_id_array.len() {
                        return Some(cmap_format4.glyph_id_array[idx]);
                    } else {
                        return None;
                    }
                }
            }
            i = i + 1;
        }
        None
    }
}

} // verus!

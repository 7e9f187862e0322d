//! The top-level SFNT container: the offset header and the table
//! record list (tag, checksum, offset, length), plus lookup of a
//! table by tag.

use vstd::prelude::*;
use crate::cmap::{
    find_encoding, glyph_id_lookup, parse_cmap_spec, parse_format4_spec, CmapTable, EncodingRecord,
};
use crate::error::{FontError, GlyphKind};
use crate::glyf::{get_glyph_spec, parse_glyf_spec, GlyfTable};
use crate::glyph::SimpleGlyph;
use crate::glyph::SimpleGlyphView;
use crate::head::{parse_head_spec, HeadTable};
use crate::loca::{parse_loca_spec, LocaTable};
use crate::maxp::{parse_maxp_spec, MaxpTable};
use crate::reader::{be_u16_at, be_u32_at, Reader};
use vstd::slice::slice_subrange;

verus! {

/// Tag of the head table, packed big-endian.
pub const TAG_HEAD: u32 = 0x68656164;

/// Tag of the loca table, packed big-endian.
pub const TAG_LOCA: u32 = 0x6C6F6361;

/// Tag of the glyf table, packed big-endian.
pub const TAG_GLYF: u32 = 0x676C7966;

/// Tag of the cmap table, packed big-endian.
pub const TAG_CMAP: u32 = 0x636D6170;

/// Tag of the maxp table, packed big-endian.
pub const TAG_MAXP: u32 = 0x6D617870;

/// Tag of the color-bitmap data table, packed big-endian.
pub const TAG_CBDT: u32 = 0x43424454;

/// Parses a structure out of its raw bytes.
pub trait Parse where Self: Sized {
    /// Decodes `data` into the structure, or reports the first
    /// structural fault found.
    fn from_bytes(data: &[u8]) -> Result<Self, FontError>;
}

/// One entry of the table directory.
#[derive(Clone, Copy, Debug, PartialEq, Eq, Structural)]
pub struct TableRecord {
    /// Four ASCII bytes packed big-endian.
    pub tag: u32,
    pub checksum: u32,
    /// Byte offset of the table from the start of the font file.
    pub offset: u32,
    /// Byte length of the table.
    pub length: u32,
}

/// The parsed top-level container: version, record counts and the
/// table record list.
#[derive(Debug)]
pub struct Sfnt {
    pub version: u32,
    pub tables: u16,
    pub search_range: u16,
    pub entry_selector: u16,
    pub range_shift: u16,
    pub records: Vec<TableRecord>,
}

/// Mathematical image of an [`Sfnt`].
pub struct SfntView {
    pub version: u32,
    pub tables: u16,
    pub search_range: u16,
    pub entry_selector: u16,
    pub range_shift: u16,
    pub records: Seq<TableRecord>,
}

impl View for Sfnt {
    type V = SfntView;

    open spec fn view(&self) -> SfntView {
        SfntView {
            version: self.version,
            tables: self.tables,
            search_range: self.search_range,
            entry_selector: self.entry_selector,
            range_shift: self.range_shift,
            records: self.records@,
        }
    }
}

/// The table record stored at byte offset `off` of `d`.
pub open spec fn record_at(d: Seq<u8>, off: int) -> TableRecord {
    TableRecord {
        tag: be_u32_at(d, off),
        checksum: be_u32_at(d, off + 4),
        offset: be_u32_at(d, off + 8),
        length: be_u32_at(d, off + 12),
    }
}

/// What parsing `d` as a table directory yields: the 12-byte offset
/// header followed by exactly `tables` 16-byte records, or
/// `TruncatedData` when the buffer ends before the last record.
pub open spec fn parse_sfnt_spec(d: Seq<u8>) -> Result<SfntView, FontError> {
    if d.len() < 12 {
        Err(FontError::TruncatedData)
    } else {
        let n = be_u16_at(d, 4) as int;
        if d.len() < 12 + 16 * n {
            Err(FontError::TruncatedData)
        } else {
            Ok(
                (SfntView {
                    version: be_u32_at(d, 0),
                    tables: be_u16_at(d, 4),
                    search_range: be_u16_at(d, 6),
                    entry_selector: be_u16_at(d, 8),
                    range_shift: be_u16_at(d, 10),
                    records: Seq::new(n as nat, |i: int| record_at(d, 12 + 16 * i)),
                }),
            )
        }
    }
}

/// The first record carrying `tag`, searched from index `i` on.
pub open spec fn find_record_from(records: Seq<TableRecord>, tag: u32, i: int) -> Option<
    TableRecord,
>
    decreases records.len() - i,
{
    if i < 0 || i >= records.len() {
        None
    } else if records[i].tag == tag {
        Some(records[i])
    } else {
        find_record_from(records, tag, i + 1)
    }
}

/// The first record carrying `tag`, if any.
pub open spec fn find_record(records: Seq<TableRecord>, tag: u32) -> Option<TableRecord> {
    find_record_from(records, tag, 0)
}

/// Whether some record carries `tag`.
pub open spec fn has_record(records: Seq<TableRecord>, tag: u32) -> bool {
    exists|i: int| 0 <= i < records.len() && records[i].tag == tag
}

/// A found record is a genuine member of the list; an absent tag has
/// no member carrying it.
pub proof fn lemma_find_record_from(records: Seq<TableRecord>, tag: u32, i: int)
    requires
        0 <= i <= records.len(),
    ensures
        match find_record_from(records, tag, i) {
            Some(r) => exists|j: int| i <= j < records.len() && records[j] == r && r.tag == tag,
            None => forall|j: int| i <= j < records.len() ==> records[j].tag != tag,
        },
    decreases records.len() - i,
{
    if i < records.len() && records[i].tag != tag {
        lemma_find_record_from(records, tag, i + 1);
    }
}

/// `find_record` succeeds exactly when some record carries the tag.
pub proof fn lemma_find_record_some_iff_has(records: Seq<TableRecord>, tag: u32)
    ensures
        find_record(records, tag) is Some <==> has_record(records, tag),
        find_record(records, tag) is Some ==> find_record(records, tag).unwrap().tag == tag,
{
    lemma_find_record_from(records, tag, 0);
}

impl Parse for Sfnt {
    /// Parses the table directory from the whole font buffer.
    fn from_bytes(data: &[u8]) -> (r: Result<Sfnt, FontError>)
        ensures
            match r {
                Ok(t) => parse_sfnt_spec(data@) == Ok::<SfntView, FontError>(t@),
                Err(e) => parse_sfnt_spec(data@) == Err::<SfntView, FontError>(e),
            },
    {
        let mut rd = Reader::new(data);
        if data.len() < 12 {
            return Err(FontError::TruncatedData);
        }
        let version = match rd.read_u32() {
            Ok(v) => v,
            Err(e) => { return Err(e); },
        };
        let num_tables = match rd.read_u16() {
            Ok(v) => v,
            Err(e) => { return Err(e); },
        };
        let search_range = match rd.read_u16() {
            Ok(v) => v,
            Err(e) => { return Err(e); },
        };
        let entry_selector = match rd.read_u16() {
            Ok(v) => v,
            Err(e) => { return Err(e); },
        };
        let range_shift = match rd.read_u16() {
            Ok(v) => v,
            Err(e) => { return Err(e); },
        };
        let n = num_tables as usize;
        proof {
            assert(16 * n <= 0x100000) by (nonlinear_arith)
                requires
                    n <= 0x10000,
            ;
        }
        if (data.len() - 12) / 16 < n {
            proof {
                assert(data@.len() < 12 + 16 * n) by (nonlinear_arith)
                    requires
                        (data@.len() - 12) / 16 < n,
                        data@.len() >= 12,
                ;
            }
            return Err(FontError::TruncatedData);
        }
        proof {
            assert(data@.len() >= 12 + 16 * n) by (nonlinear_arith)
                requires
                    (data@.len() - 12) / 16 >= n,
                    data@.len() >= 12,
            ;
        }
        let mut records: Vec<TableRecord> = Vec::new();
        let mut i: usize = 0;
        while i < n
            invariant
                rd.wf(),
                rd.bytes() == data@,
                i <= n,
                data@.len() >= 12 + 16 * n,
                rd.position_spec() == 12 + 16 * i,
                records@.len() == i,
                forall|j: int| 0 <= j < i ==> records@[j] == record_at(data@, 12 + 16 * j),
            decreases n - i,
        {
            proof {
                assert(12 + 16 * (i + 1) <= 12 + 16 * n) by (nonlinear_arith)
                    requires
                        i + 1 <= n,
                ;
            }
            let tag = match rd.read_u32() {
                Ok(v) => v,
                Err(e) => {
                    proof {
                        assert(false);
                    }
                    return Err(e);
                },
            };
            let checksum = match rd.read_u32() {
                Ok(v) => v,
                Err(e) => {
                    proof {
                        assert(false);
                    }
                    return Err(e);
                },
            };
            let offset = match rd.read_u32() {
                Ok(v) => v,
                Err(e) => {
                    proof {
                        assert(false);
                    }
                    return Err(e);
                },
            };
            let length = match rd.read_u32() {
                Ok(v) => v,
                Err(e) => {
                    proof {
                        assert(false);
                    }
                    return Err(e);
                },
            };
            records.push(TableRecord { tag, checksum, offset, length });
            i = i + 1;
        }
        let result = Sfnt { version, tables: num_tables, search_range, entry_selector, range_shift, records };
        proof {
            assert(result@.records =~= parse_sfnt_spec(data@).unwrap().records);
        }
        Ok(result)
    }
}

/// Whether `rec`'s byte range lies inside the font buffer.
pub open spec fn table_in_bounds(d: Seq<u8>, rec: TableRecord) -> bool {
    rec.offset + rec.length <= d.len()
}

/// The byte slice of table `rec` within the font buffer.
pub open spec fn table_slice(d: Seq<u8>, rec: TableRecord) -> Seq<u8> {
    d.subrange(rec.offset as int, rec.offset + rec.length)
}

/// The encoding record the resolver prefers: Windows Unicode BMP
/// (platform 3, encoding 1), falling back to Unicode 2.0+ (platform
/// 0, encoding 3).
pub open spec fn preferred_encoding(records: Seq<EncodingRecord>) -> Option<EncodingRecord> {
    match find_encoding(records, 3, 1) {
        Some(r) => Some(r),
        None => find_encoding(records, 0, 3),
    }
}

/// The glyph identifier for character `c`: the format-4 lookup for a
/// BMP codepoint, glyph 0 (notdef) for an unmapped codepoint or one
/// beyond the BMP.
pub open spec fn glyph_id_for_char(f4: crate::cmap::CmapFormat4View, c: char) -> u16 {
    let code = c as u32;
    if code <= 0xFFFF {
        match glyph_id_lookup(f4, code as u16) {
            Some(g) => g,
            None => 0,
        }
    } else {
        0
    }
}

/// What resolving `name`'s first character to a glyph identifier
/// through the cmap table yields: the table is sliced and parsed, the
/// preferred encoding record picked (`UnsupportedEncoding` when
/// neither exists), its subtable's format checked (only format 4 is
/// supported), the declared subtable length validated, the subtable
/// parsed, and the character looked up; an empty `name` is
/// `InvalidFormat`.
pub open spec fn resolve_glyph_id_spec(d: Seq<u8>, cmap_rec: TableRecord, name: Seq<char>) -> Result<
    u16,
    FontError,
> {
    if !table_in_bounds(d, cmap_rec) {
        Err(FontError::TruncatedData)
    } else {
        let cd = table_slice(d, cmap_rec);
        match parse_cmap_spec(cd) {
            Err(e) => Err(e),
            Ok(ct) => match preferred_encoding(ct.encoding_records) {
                None => Err(FontError::UnsupportedEncoding),
                Some(rec) => {
                    let off = rec.offset as int;
                    if off + 4 > cd.len() {
                        Err(FontError::TruncatedData)
                    } else {
                        let fmt = be_u16_at(cd, off);
                        let sublen = be_u16_at(cd, off + 2);
                        if fmt != 4 {
                            Err(FontError::UnsupportedCmapFormat(fmt))
                        } else if sublen < 4 {
                            Err(FontError::InvalidFormat)
                        } else if off + sublen > cd.len() {
                            Err(FontError::TruncatedData)
                        } else {
                            match parse_format4_spec(cd.subrange(off + 4, off + sublen), sublen) {
                                Err(e) => Err(e),
                                Ok(f4) => if name.len() == 0 {
                                    Err(FontError::InvalidFormat)
                                } else {
                                    Ok(glyph_id_for_char(f4, name[0]))
                                },
                            }
                        }
                    }
                },
            },
        }
    }
}

/// What decoding glyph `glyph_id` through the head, maxp, loca and
/// glyf tables yields: each table is sliced (`TruncatedData` when its
/// range leaves the buffer) and parsed in turn, loca with maxp's
/// glyph count and head's offset format, and the glyph is decoded
/// out of the glyf slice.
pub open spec fn decode_glyph_spec(
    d: Seq<u8>,
    head_rec: TableRecord,
    maxp_rec: TableRecord,
    loca_rec: TableRecord,
    glyf_rec: TableRecord,
    glyph_id: u16,
) -> Result<SimpleGlyphView, FontError> {
    if !table_in_bounds(d, head_rec) {
        Err(FontError::TruncatedData)
    } else {
        match parse_head_spec(table_slice(d, head_rec)) {
            Err(e) => Err(e),
            Ok(head) => if !table_in_bounds(d, maxp_rec) {
                Err(FontError::TruncatedData)
            } else {
                match parse_maxp_spec(table_slice(d, maxp_rec)) {
                    Err(e) => Err(e),
                    Ok(maxp) => if !table_in_bounds(d, loca_rec) {
                        Err(FontError::TruncatedData)
                    } else {
                        match parse_loca_spec(
                            table_slice(d, loca_rec),
                            maxp.num_glyphs,
                            head.index_to_loc_format,
                        ) {
                            Err(e) => Err(e),
                            Ok(loca) => if !table_in_bounds(d, glyf_rec) {
                                Err(FontError::TruncatedData)
                            } else {
                                match parse_glyf_spec(table_slice(d, glyf_rec), loca) {
                                    Err(e) => Err(e),
                                    Ok(gt) => get_glyph_spec(gt.glyphs, glyph_id as usize),
                                }
                            },
                        }
                    },
                }
            },
        }
    }
}

/// What requesting the outline of `name`'s first character from the
/// whole font buffer yields. The five required tables are looked up
/// (`TableNotFound` for an absent one); a font carrying a
/// color-bitmap table is rejected as `UnsupportedGlyphType`; then the
/// character is resolved through cmap and the glyph decoded through
/// head, maxp, loca and glyf.
pub open spec fn glyph_data_spec(s: SfntView, d: Seq<u8>, name: Seq<char>) -> Result<
    SimpleGlyphView,
    FontError,
> {
    match find_record(s.records, TAG_HEAD) {
        None => Err(FontError::TableNotFound(TAG_HEAD)),
        Some(head_rec) => {
            if has_record(s.records, TAG_CBDT) {
                Err(FontError::UnsupportedGlyphType(GlyphKind::ColorBitmap))
            } else {
                match find_record(s.records, TAG_LOCA) {
                    None => Err(FontError::TableNotFound(TAG_LOCA)),
                    Some(loca_rec) => match find_record(s.records, TAG_GLYF) {
                        None => Err(FontError::TableNotFound(TAG_GLYF)),
                        Some(glyf_rec) => match find_record(s.records, TAG_CMAP) {
                            None => Err(FontError::TableNotFound(TAG_CMAP)),
                            Some(cmap_rec) => match find_record(s.records, TAG_MAXP) {
                                None => Err(FontError::TableNotFound(TAG_MAXP)),
                                Some(maxp_rec) => match resolve_glyph_id_spec(d, cmap_rec, name) {
                                    Err(e) => Err(e),
                                    Ok(gid) => decode_glyph_spec(
                                        d,
                                        head_rec,
                                        maxp_rec,
                                        loca_rec,
                                        glyf_rec,
                                        gid,
                                    ),
                                },
                            },
                        },
                    },
                }
            }
        },
    }
}

impl Sfnt {
    /// Looks up the first directory record carrying `tag`.
    pub fn find_table(&self, tag: u32) -> (r: Option<TableRecord>)
        ensures
            r == find_record(self@.records, tag),
    {
        let n = self.records.len();
        let mut i: usize = 0;
        while i < n
            invariant
                n == self.records@.len(),
                i <= n,
                find_record(self@.records, tag) == find_record_from(self@.records, tag, i as int),
            decreases n - i,
        {
            if self.records[i].tag == tag {
                return Some(self.records[i]);
            }
            i = i + 1;
        }
        None
    }

    /// Decodes the outline of `glyph_name`'s first character from the
    /// whole font buffer, resolving it through cmap and decoding it
    /// through head, maxp, loca and glyf.
    pub fn get_glyph_data(&self, glyph_name: &str, data: &[u8]) -> (r: Result<
        SimpleGlyph,
        FontError,
    >)
        ensures
            match r {
                Ok(t) => glyph_data_spec(self@, data@, glyph_name@) == Ok::<
                    SimpleGlyphView,
                    FontError,
                >(t@),
                Err(e) => glyph_data_spec(self@, data@, glyph_name@) == Err::<
                    SimpleGlyphView,
                    FontError,
                >(e),
            },
            r is Ok ==> r.unwrap()@.wf(),
    {
        let head_rec = match self.find_table(TAG_HEAD) {
            Some(rec) => rec,
            None => { return Err(FontError::TableNotFound(TAG_HEAD)); },
        };
        proof {
            lemma_find_record_some_iff_has(self@.records, TAG_CBDT);
        }
        match self.find_table(TAG_CBDT) {
            Some(_) => { return Err(FontError::UnsupportedGlyphType(GlyphKind::ColorBitmap)); },
            None => (),
        };
        let loca_rec = match self.find_table(TAG_LOCA) {
            Some(rec) => rec,
            None => { return Err(FontError::TableNotFound(TAG_LOCA)); },
        };
        let glyf_rec = match self.find_table(TAG_GLYF) {
            Some(rec) => rec,
            None => { return Err(FontError::TableNotFound(TAG_GLYF)); },
        };
        let cmap_rec = match self.find_table(TAG_CMAP) {
            Some(rec) => rec,
            None => { return Err(FontError::TableNotFound(TAG_CMAP)); },
        };
        let maxp_rec = match self.find_table(TAG_MAXP) {
            Some(rec) => rec,
            None => { return Err(FontError::TableNotFound(TAG_MAXP)); },
        };
        // Resolve the character through cmap.
        if cmap_rec.offset as u64 + cmap_rec.length as u64 > data.len() as u64 {
            return Err(FontError::TruncatedData);
        }
        let cd = slice_subrange(
            data,
            cmap_rec.offset as usize,
            cmap_rec.offset as usize + cmap_rec.length as usize,
        );
        let cmap_table = match CmapTable::parse(cd) {
            Ok(t) => t,
            Err(e) => { return Err(e); },
        };
        let enc = match cmap_table.find_encoding_record(3, 1) {
            Some(rec) => rec,
            None => match cmap_table.find_encoding_record(0, 3) {
                Some(rec) => rec,
                None => { return Err(FontError::UnsupportedEncoding); },
            },
        };
        if enc.offset as u64 + 4 > cd.len() as u64 {
            return Err(FontError::TruncatedData);
        }
        let soff = enc.offset as usize;
        let mut crd = Reader::new(cd);
        match crd.set_position(soff) {
            Ok(()) => (),
            Err(e) => {
                proof {
                    assert(false);
                }
                return Err(e);
            },
        };
        let format = match crd.read_u16() {
            Ok(v) => v,
            Err(e) => {
                proof {
                    assert(false);
                }
                return Err(e);
            },
        };
        let subtable_length = match crd.read_u16() {
            Ok(v) => v,
            Err(e) => {
                proof {
                    assert(false);
                }
                return Err(e);
            },
        };
        if format != 4 {
            return Err(FontError::UnsupportedCmapFormat(format));
        }
        if subtable_length < 4 {
            return Err(FontError::InvalidFormat);
        }
        if soff as u64 + subtable_length as u64 > cd.len() as u64 {
            return Err(FontError::TruncatedData);
        }
        let sd = slice_subrange(cd, soff + 4, soff + subtable_length as usize);
        let subtable = match CmapTable::parse_format4(sd, subtable_length) {
            Ok(t) => t,
            Err(e) => { return Err(e); },
        };
        if glyph_name.unicode_len() == 0 {
            return Err(FontError::InvalidFormat);
        }
        let c = glyph_name.get_char(0);
        let code_point = c as u32;
        let glyph_id: u16 = if code_point <= 0xFFFF {
            match CmapTable::get_glyph_id(code_point as u16, &subtable) {
                Some(g) => g,
                None => 0,
            }
        } else {
            0
        };
        // Decode the glyph through head, maxp, loca and glyf.
        if head_rec.offset as u64 + head_rec.length as u64 > data.len() as u64 {
            return Err(FontError::TruncatedData);
        }
        let hd = slice_subrange(
            data,
            head_rec.offset as usize,
            head_rec.offset as usize + head_rec.length as usize,
        );
        let head_table = match HeadTable::parse(hd) {
            Ok(t) => t,
            Err(e) => { return Err(e); },
        };
        if maxp_rec.offset as u64 + maxp_rec.length as u64 > data.len() as u64 {
            return Err(FontError::TruncatedData);
        }
        let md = slice_subrange(
            data,
            maxp_rec.offset as usize,
            maxp_rec.offset as usize + maxp_rec.length as usize,
        );
        let maxp_table = match MaxpTable::parse(md) {
            Ok(t) => t,
            Err(e) => { return Err(e); },
        };
        if loca_rec.offset as u64 + loca_rec.length as u64 > data.len() as u64 {
            return Err(FontError::TruncatedData);
        }
        let ld = slice_subrange(
            data,
            loca_rec.offset as usize,
            loca_rec.offset as usize + loca_rec.length as usize,
        );
        let loca_table = match LocaTable::parse(
            ld,
            maxp_table.num_glyphs,
            head_table.index_to_loc_format,
        ) {
            Ok(t) => t,
            Err(e) => { return Err(e); },
        };
        if glyf_rec.offset as u64 + glyf_rec.length as u64 > data.len() as u64 {
            return Err(FontError::TruncatedData);
        }
        let gd = slice_subrange(
            data,
            glyf_rec.offset as usize,
            glyf_rec.offset as usize + glyf_rec.length as usize,
        );
        let glyf_table = match GlyfTable::parse(gd, &loca_table) {
            Ok(t) => t,
            Err(e) => { return Err(e); },
        };
        glyf_table.get_glyph_data(glyph_id as usize)
    }
}

} // verus!

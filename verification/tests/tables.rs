use sfnt::error::FontError;
use sfnt::head::HeadTable;
use sfnt::loca::{LocaFormat, LocaTable};
use sfnt::maxp::MaxpTable;
use sfnt::directory::{Parse, Sfnt, TAG_GLYF, TAG_HEAD};

fn push_u16(v: &mut Vec<u8>, x: u16) {
    v.push((x >> 8) as u8);
    v.push(x as u8);
}

fn push_u32(v: &mut Vec<u8>, x: u32) {
    v.push((x >> 24) as u8);
    v.push((x >> 16) as u8);
    v.push((x >> 8) as u8);
    v.push(x as u8);
}

fn head_bytes(index_to_loc_format: i16) -> Vec<u8> {
    let mut d = Vec::new();
    push_u32(&mut d, 0x0001_0000); // version 1.0
    push_u32(&mut d, 0x0002_8000); // font revision 2.5
    push_u32(&mut d, 0xDEAD_BEEF); // checksum adjustment
    push_u32(&mut d, 0x5F0F_3CF5); // magic
    push_u16(&mut d, 0x0003); // flags
    push_u16(&mut d, 1000); // units per em
    for _ in 0..8 {
        d.push(0); // created
    }
    for _ in 0..7 {
        d.push(0); // modified (high bytes)
    }
    d.push(9); // modified = 9
    push_u16(&mut d, 0xFFF6); // x_min = -10
    push_u16(&mut d, 0); // y_min
    push_u16(&mut d, 100); // x_max
    push_u16(&mut d, 200); // y_max
    push_u16(&mut d, 0); // mac style
    push_u16(&mut d, 8); // lowest rec ppem
    push_u16(&mut d, 2); // font direction hint
    push_u16(&mut d, index_to_loc_format as u16);
    push_u16(&mut d, 0); // glyph data format
    d
}

#[test]
fn head_parses_fixed_record() {
    let d = head_bytes(1);
    assert_eq!(d.len(), 54);
    let h = HeadTable::parse(&d).unwrap();
    assert_eq!(h.version, 0x0001_0000);
    assert_eq!(h.font_revision, 0x0002_8000);
    assert_eq!(h.checksum_adjustment, 0xDEAD_BEEF);
    assert_eq!(h.magic_number, 0x5F0F_3CF5);
    assert_eq!(h.flags, 3);
    assert_eq!(h.units_per_em, 1000);
    assert_eq!(h.created, 0);
    assert_eq!(h.modified, 9);
    assert_eq!(h.x_min, -10);
    assert_eq!(h.y_min, 0);
    assert_eq!(h.x_max, 100);
    assert_eq!(h.y_max, 200);
    assert_eq!(h.lowest_rec_ppem, 8);
    assert_eq!(h.font_direction_hint, 2);
    assert_eq!(h.index_to_loc_format, 1);
    assert_eq!(h.glyph_data_format, 0);
}

#[test]
fn head_reads_negative_timestamps() {
    let mut d = head_bytes(0);
    // created (bytes 20..28) = -2 in two's complement.
    for b in d[20..28].iter_mut() {
        *b = 0xFF;
    }
    d[27] = 0xFE;
    let h = HeadTable::parse(&d).unwrap();
    assert_eq!(h.created, -2);
    assert_eq!(h.index_to_loc_format, 0);
}

#[test]
fn head_truncated_is_rejected() {
    let d = head_bytes(0);
    assert_eq!(HeadTable::parse(&d[..53]), Err(FontError::TruncatedData));
    assert_eq!(HeadTable::parse(&[]), Err(FontError::TruncatedData));
}

#[test]
fn maxp_version_half_has_no_limits() {
    let mut d = Vec::new();
    push_u32(&mut d, 0x0000_5000); // version 0.5
    push_u16(&mut d, 17);
    let m = MaxpTable::parse(&d).unwrap();
    assert_eq!(m.version, 0x0000_5000);
    assert_eq!(m.num_glyphs, 17);
    assert_eq!(m.max_points, None);
    assert_eq!(m.max_component_depth, None);
}

#[test]
fn maxp_version_one_reads_limits() {
    let mut d = Vec::new();
    push_u32(&mut d, 0x0001_0000); // version 1.0
    push_u16(&mut d, 2);
    for k in 0..13u16 {
        push_u16(&mut d, 100 + k);
    }
    assert_eq!(d.len(), 32);
    let m = MaxpTable::parse(&d).unwrap();
    assert_eq!(m.num_glyphs, 2);
    assert_eq!(m.max_points, Some(100));
    assert_eq!(m.max_contours, Some(101));
    assert_eq!(m.max_component_depth, Some(112));
}

#[test]
fn maxp_version_just_below_one_has_no_limits() {
    let mut d = Vec::new();
    push_u32(&mut d, 0x0000_FFFF);
    push_u16(&mut d, 3);
    let m = MaxpTable::parse(&d).unwrap();
    assert_eq!(m.num_glyphs, 3);
    assert_eq!(m.max_points, None);
}

#[test]
fn maxp_truncated_is_rejected() {
    let mut d = Vec::new();
    push_u32(&mut d, 0x0001_0000);
    push_u16(&mut d, 2);
    // Version 1.0 needs 32 bytes; only 6 are given.
    assert_eq!(MaxpTable::parse(&d), Err(FontError::TruncatedData));
    assert_eq!(MaxpTable::parse(&d[..5]), Err(FontError::TruncatedData));
}

#[test]
fn loca_compact_offsets_are_stored_raw() {
    let mut d = Vec::new();
    push_u16(&mut d, 0);
    push_u16(&mut d, 6);
    push_u16(&mut d, 6);
    let t = LocaTable::parse(&d, 2, 0).unwrap();
    assert_eq!(t.offsets, vec![0, 6, 6]);
    assert!(matches!(t.format, LocaFormat::Offset16));
    // The byte range doubles the stored values.
    assert_eq!(t.glyph_range(0), (0, 12));
    assert_eq!(t.glyph_range(1), (12, 12));
}

#[test]
fn loca_full_offsets_are_byte_offsets() {
    let mut d = Vec::new();
    push_u32(&mut d, 0);
    push_u32(&mut d, 70000);
    let t = LocaTable::parse(&d, 1, 1).unwrap();
    assert_eq!(t.offsets, vec![0, 70000]);
    assert!(matches!(t.format, LocaFormat::Offset32));
    assert_eq!(t.glyph_range(0), (0, 70000));
}

#[test]
fn loca_has_num_glyphs_plus_one_entries() {
    let mut d = Vec::new();
    for k in 0..5u16 {
        push_u16(&mut d, k);
    }
    let t = LocaTable::parse(&d, 4, 0).unwrap();
    assert_eq!(t.offsets.len(), 5);
    for w in t.offsets.windows(2) {
        assert!(w[0] <= w[1]);
    }
}

#[test]
fn loca_invalid_format_is_rejected() {
    let mut d = Vec::new();
    push_u16(&mut d, 0);
    push_u16(&mut d, 1);
    assert_eq!(LocaTable::parse(&d, 1, 2), Err(FontError::InvalidFormat));
    assert_eq!(LocaTable::parse(&d, 1, -1), Err(FontError::InvalidFormat));
}

#[test]
fn loca_decreasing_offsets_are_rejected() {
    let mut d = Vec::new();
    push_u16(&mut d, 4);
    push_u16(&mut d, 2);
    assert_eq!(LocaTable::parse(&d, 1, 0), Err(FontError::InvalidFormat));
}

#[test]
fn loca_truncated_is_rejected() {
    let mut d = Vec::new();
    push_u16(&mut d, 0);
    push_u16(&mut d, 2);
    // num_glyphs 2 wants three u16 entries.
    assert_eq!(LocaTable::parse(&d, 2, 0), Err(FontError::TruncatedData));
}

#[test]
fn raw_offset_extraction_matches_format() {
    let mut d = Vec::new();
    push_u16(&mut d, 5);
    push_u16(&mut d, 9);
    assert_eq!(LocaTable::get_glyph_offset(&d, 0, 0), Ok(10));
    assert_eq!(LocaTable::get_glyph_offset(&d, 1, 0), Ok(18));
    assert_eq!(LocaTable::get_glyph_offset(&d, 2, 0), Err(FontError::TruncatedData));
    let mut w = Vec::new();
    push_u32(&mut w, 256);
    assert_eq!(LocaTable::get_glyph_offset(&w, 0, 1), Ok(256));
    assert_eq!(LocaTable::get_glyph_offset(&w, 1, 1), Err(FontError::TruncatedData));
}

#[test]
fn raw_offset_extraction_rejects_invalid_format() {
    let mut d = Vec::new();
    push_u32(&mut d, 0);
    assert_eq!(LocaTable::get_glyph_offset(&d, 0, 2), Err(FontError::InvalidFormat));
    assert_eq!(LocaTable::get_glyph_offset(&d, 0, -3), Err(FontError::InvalidFormat));
}

fn directory_bytes(tags: &[&[u8; 4]]) -> Vec<u8> {
    let mut d = Vec::new();
    push_u32(&mut d, 0x0001_0000);
    push_u16(&mut d, tags.len() as u16);
    push_u16(&mut d, 0);
    push_u16(&mut d, 0);
    push_u16(&mut d, 0);
    for (k, tag) in tags.iter().enumerate() {
        d.extend_from_slice(*tag);
        push_u32(&mut d, 0); // checksum
        push_u32(&mut d, 1000 + 10 * k as u32); // offset
        push_u32(&mut d, 10); // length
    }
    d
}

#[test]
fn directory_parses_records() {
    let d = directory_bytes(&[b"head", b"glyf"]);
    let s = Sfnt::from_bytes(&d).unwrap();
    assert_eq!(s.version, 0x0001_0000);
    assert_eq!(s.tables, 2);
    assert_eq!(s.records.len(), 2);
    assert_eq!(s.records[0].tag, TAG_HEAD);
    assert_eq!(s.records[0].offset, 1000);
    assert_eq!(s.records[0].length, 10);
    assert_eq!(s.records[1].tag, TAG_GLYF);
    assert_eq!(s.records[1].offset, 1010);
}

#[test]
fn directory_truncated_before_last_record() {
    let d = directory_bytes(&[b"head", b"glyf"]);
    let cut = &d[..d.len() - 1];
    assert!(matches!(Sfnt::from_bytes(cut), Err(FontError::TruncatedData)));
}

#[test]
fn directory_random_bytes_only_error() {
    // Arbitrary byte soup must come back as a structured error or a
    // directory, never a crash.
    let mut junk = Vec::new();
    let mut x: u32 = 0x12345678;
    for _ in 0..300 {
        x = x.wrapping_mul(1664525).wrapping_add(1013904223);
        junk.push((x >> 24) as u8);
    }
    let _ = Sfnt::from_bytes(&junk);
    for cut in [0usize, 1, 7, 11, 12, 40] {
        let _ = Sfnt::from_bytes(&junk[..cut]);
    }
}

#[test]
fn find_table_returns_first_match() {
    let d = directory_bytes(&[b"glyf", b"head"]);
    let s = Sfnt::from_bytes(&d).unwrap();
    let rec = s.find_table(TAG_HEAD).unwrap();
    assert_eq!(rec.offset, 1010);
    assert!(s.find_table(0x6D617870).is_none()); // maxp absent
}

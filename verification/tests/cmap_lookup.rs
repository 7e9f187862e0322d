use sfnt::cmap::CmapTable;
use sfnt::error::FontError;

fn push_u16(v: &mut Vec<u8>, x: u16) {
    v.push((x >> 8) as u8);
    v.push(x as u8);
}

fn push_u32(v: &mut Vec<u8>, x: u32) {
    v.push((x >> 24) as u8);
    v.push((x >> 16) as u8);
    v.push((x >> 8) as u8);
    v.push(x as u8);
}

fn push_i16(v: &mut Vec<u8>, x: i16) {
    push_u16(v, x as u16);
}

/// Body of a format-4 subtable (after the format and length fields)
/// from parallel segment arrays and a trailing glyph id array.
fn format4_body(
    end: &[u16],
    start: &[u16],
    delta: &[i16],
    iro: &[u16],
    gia: &[u16],
) -> (Vec<u8>, u16) {
    let seg = end.len();
    let mut d = Vec::new();
    push_u16(&mut d, 0); // language
    push_u16(&mut d, 2 * seg as u16); // segCountX2
    push_u16(&mut d, 0); // searchRange
    push_u16(&mut d, 0); // entrySelector
    push_u16(&mut d, 0); // rangeShift
    for &e in end {
        push_u16(&mut d, e);
    }
    push_u16(&mut d, 0); // reserved pad
    for &s in start {
        push_u16(&mut d, s);
    }
    for &x in delta {
        push_i16(&mut d, x);
    }
    for &x in iro {
        push_u16(&mut d, x);
    }
    for &g in gia {
        push_u16(&mut d, g);
    }
    let length = (16 + 8 * seg + 2 * gia.len()) as u16;
    assert_eq!(d.len() + 4, length as usize);
    (d, length)
}

#[test]
fn cmap_header_parses_records() {
    let mut d = Vec::new();
    push_u16(&mut d, 0); // version
    push_u16(&mut d, 2); // record count
    push_u16(&mut d, 3);
    push_u16(&mut d, 1);
    push_u32(&mut d, 12);
    push_u16(&mut d, 0);
    push_u16(&mut d, 3);
    push_u32(&mut d, 40);
    let t = CmapTable::parse(&d).unwrap();
    assert_eq!(t.version, 0);
    assert_eq!(t.num_tables, 2);
    assert_eq!(t.encoding_records.len(), 2);
    assert_eq!(t.encoding_records[0].platform_id, 3);
    assert_eq!(t.encoding_records[0].encoding_id, 1);
    assert_eq!(t.encoding_records[0].offset, 12);
    assert_eq!(t.encoding_records[1].offset, 40);
    let windows = t.find_encoding_record(3, 1).unwrap();
    assert_eq!(windows.offset, 12);
    let unicode = t.find_encoding_record(0, 3).unwrap();
    assert_eq!(unicode.offset, 40);
    assert!(t.find_encoding_record(1, 0).is_none());
}

#[test]
fn cmap_header_truncated_is_rejected() {
    let mut d = Vec::new();
    push_u16(&mut d, 0);
    push_u16(&mut d, 1);
    push_u16(&mut d, 3);
    assert!(matches!(CmapTable::parse(&d), Err(FontError::TruncatedData)));
    assert!(matches!(CmapTable::parse(&d[..3]), Err(FontError::TruncatedData)));
}

#[test]
fn format4_single_segment_lookup() {
    // One segment 0x41..=0x5A with id_delta 0: the glyph id is the
    // codepoint itself.
    let (d, len) = format4_body(&[0x5A], &[0x41], &[0], &[0], &[]);
    let sub = CmapTable::parse_format4(&d, len).unwrap();
    assert_eq!(CmapTable::get_glyph_id(0x41, &sub), Some(0x41));
    assert_eq!(CmapTable::get_glyph_id(0x5A, &sub), Some(0x5A));
    assert_eq!(CmapTable::get_glyph_id(0x5B, &sub), None);
    assert_eq!(CmapTable::get_glyph_id(0x40, &sub), None);
}

#[test]
fn format4_delta_wraps_modulo_65536() {
    let (d, len) = format4_body(&[0x10], &[0x05], &[-10], &[0], &[]);
    let sub = CmapTable::parse_format4(&d, len).unwrap();
    // 5 - 10 wraps to 65531.
    assert_eq!(CmapTable::get_glyph_id(0x05, &sub), Some(65531));
    // 10 - 10 = 0.
    assert_eq!(CmapTable::get_glyph_id(0x0A, &sub), Some(0));
}

#[test]
fn format4_range_offset_indexes_glyph_array() {
    // One mapped segment with id_range_offset, then the sentinel.
    // For segment 0: index = iro/2 + (code - start) + segment index.
    // iro = 4 gives index 2 + (code - 0x30) + 0.
    let (d, len) = format4_body(
        &[0x32, 0xFFFF],
        &[0x30, 0xFFFF],
        &[0, 1],
        &[4, 0],
        &[7, 8, 9, 10, 11],
    );
    let sub = CmapTable::parse_format4(&d, len).unwrap();
    assert_eq!(CmapTable::get_glyph_id(0x30, &sub), Some(9));
    assert_eq!(CmapTable::get_glyph_id(0x31, &sub), Some(10));
    assert_eq!(CmapTable::get_glyph_id(0x32, &sub), Some(11));
}

#[test]
fn format4_range_offset_out_of_bounds_is_no_mapping() {
    let (d, len) = format4_body(&[0x32, 0xFFFF], &[0x30, 0xFFFF], &[0, 1], &[4, 0], &[7]);
    let sub = CmapTable::parse_format4(&d, len).unwrap();
    // Index 2 + (code - 0x30) lands beyond the one-entry array.
    assert_eq!(CmapTable::get_glyph_id(0x30, &sub), None);
}

#[test]
fn format4_first_matching_segment_wins() {
    let (d, len) = format4_body(
        &[0x50, 0x60],
        &[0x40, 0x40],
        &[1, 2],
        &[0, 0],
        &[],
    );
    let sub = CmapTable::parse_format4(&d, len).unwrap();
    // 0x45 lies in both segments; the first one maps it.
    assert_eq!(CmapTable::get_glyph_id(0x45, &sub), Some(0x46));
    // 0x55 lies only in the second.
    assert_eq!(CmapTable::get_glyph_id(0x55, &sub), Some(0x57));
}

#[test]
fn format4_undeclared_array_length_is_rejected() {
    let (d, _) = format4_body(&[0x5A], &[0x41], &[0], &[0], &[]);
    // A declared length smaller than the fixed part makes the
    // computed glyph array length negative.
    assert_eq!(CmapTable::parse_format4(&d, 23), Err(FontError::InvalidFormat));
    assert_eq!(CmapTable::parse_format4(&d, 0), Err(FontError::InvalidFormat));
}

#[test]
fn format4_truncated_is_rejected() {
    let (d, len) = format4_body(&[0x5A], &[0x41], &[0], &[0], &[]);
    assert_eq!(CmapTable::parse_format4(&d[..9], len), Err(FontError::TruncatedData));
    assert_eq!(CmapTable::parse_format4(&d[..d.len() - 1], len), Err(FontError::TruncatedData));
    // A declared length promising more trailing entries than the
    // buffer holds.
    let (d2, _) = format4_body(&[0x5A], &[0x41], &[0], &[0], &[]);
    assert_eq!(CmapTable::parse_format4(&d2, 28), Err(FontError::TruncatedData));
}

use sfnt::error::{FontError, GlyphKind};
use sfnt::glyf::{GlyfTable, Glyph};
use sfnt::glyph::SimpleGlyph;
use sfnt::loca::LocaTable;
use sfnt::outline::{simple_glyph_to_svg, Outline, PathCommand, Point};

fn push_u16(v: &mut Vec<u8>, x: u16) {
    v.push((x >> 8) as u8);
    v.push(x as u8);
}

/// A raw simple glyph with the given outline bytes after the header.
fn raw_glyph(number_of_contours: i16, data: Vec<u8>) -> Glyph {
    Glyph { number_of_contours, x_min: 0, y_min: 0, x_max: 0, y_max: 0, data }
}

/// Outline bytes of one contour of three points mixing short and
/// long coordinate encodings:
///   point 0: on-curve,  dx = +10 (short), dy = +20 (short)
///   point 1: off-curve, dx = -5 (short, negative), dy = +7 (short)
///   point 2: on-curve,  dx = +300 (long), dy repeats (delta 0)
fn three_point_outline() -> Vec<u8> {
    let mut d = Vec::new();
    push_u16(&mut d, 2); // end point of the single contour
    push_u16(&mut d, 0); // no instructions
    d.push(0x37); // on | x short | x positive | y short | y positive
    d.push(0x26); // x short negative | y short positive
    d.push(0x21); // on | x long | y same
    d.push(10); // dx point 0
    d.push(5); // dx point 1 (negated)
    push_u16(&mut d, 300); // dx point 2
    d.push(20); // dy point 0
    d.push(7); // dy point 1
    d
}

#[test]
fn simple_glyph_round_trip() {
    let g = raw_glyph(1, three_point_outline());
    let s = SimpleGlyph::parse(&g).unwrap();
    assert_eq!(s.end_pts_of_contours, vec![2]);
    assert_eq!(s.instruction_length, 0);
    assert_eq!(s.instructions, Vec::<u8>::new());
    assert_eq!(s.flags, vec![0x37, 0x26, 0x21]);
    // Manual delta accumulation: x = 10, 10-5, 5+300; y = 20, 27, 27.
    assert_eq!(s.x_coordinates, vec![10, 5, 305]);
    assert_eq!(s.y_coordinates, vec![20, 27, 27]);
    assert_eq!(s.points.len(), 3);
    assert_eq!(s.points[0], Point { x: 10, y: 20, on_curve: true });
    assert_eq!(s.points[1], Point { x: 5, y: 27, on_curve: false });
    assert_eq!(s.points[2], Point { x: 305, y: 27, on_curve: true });
}

#[test]
fn flag_repeat_expands_run() {
    // Five points; the flag byte 0x39 (on, repeat, x same, y same)
    // with repeat count 4 stands for all five.
    let mut d = Vec::new();
    push_u16(&mut d, 4);
    push_u16(&mut d, 0);
    d.push(0x39);
    d.push(4);
    let s = SimpleGlyph::parse(&raw_glyph(1, d)).unwrap();
    assert_eq!(s.flags, vec![0x39, 0x39, 0x39, 0x39, 0x39]);
    assert_eq!(s.x_coordinates, vec![0, 0, 0, 0, 0]);
    assert_eq!(s.y_coordinates, vec![0, 0, 0, 0, 0]);
}

#[test]
fn flag_repeat_stops_at_point_count() {
    // Three points but a declared repeat count of 200: decoding must
    // stop exactly at three flags and go on with the coordinates.
    let mut d = Vec::new();
    push_u16(&mut d, 2);
    push_u16(&mut d, 0);
    d.push(0x39);
    d.push(200);
    let s = SimpleGlyph::parse(&raw_glyph(1, d)).unwrap();
    assert_eq!(s.flags.len(), 3);
    assert_eq!(s.flags, vec![0x39, 0x39, 0x39]);
    assert_eq!(s.points.len(), 3);
}

#[test]
fn glyph_two_contours_with_negative_long_deltas() {
    let mut d = Vec::new();
    push_u16(&mut d, 0); // first contour: point 0
    push_u16(&mut d, 2); // second contour: points 1..=2
    push_u16(&mut d, 0); // no instructions
    d.push(0x01); // p0: on, x long, y long
    d.push(0x01); // p1: on, x long, y long
    d.push(0x31); // p2: on, x same, y same
    push_u16(&mut d, 0xFF38); // p0 dx = -200
    push_u16(&mut d, 100); // p1 dx = +100
    push_u16(&mut d, 50); // p0 dy = +50
    push_u16(&mut d, 0xFFFF); // p1 dy = -1
    let s = SimpleGlyph::parse(&raw_glyph(2, d)).unwrap();
    assert_eq!(s.end_pts_of_contours, vec![0, 2]);
    assert_eq!(s.x_coordinates, vec![-200, -100, -100]);
    assert_eq!(s.y_coordinates, vec![50, 49, 49]);
    let o = Outline::from_simple_glyph(&s);
    assert_eq!(o.contours.len(), 2);
    assert_eq!(o.contours[0].points.len(), 1);
    assert_eq!(o.contours[1].points.len(), 2);
}

#[test]
fn glyph_instructions_are_preserved() {
    let mut d = Vec::new();
    push_u16(&mut d, 0); // one contour ending at point 0
    push_u16(&mut d, 3);
    d.extend_from_slice(&[0xAA, 0xBB, 0xCC]);
    d.push(0x31); // on, x same, y same
    let s = SimpleGlyph::parse(&raw_glyph(1, d)).unwrap();
    assert_eq!(s.instruction_length, 3);
    assert_eq!(s.instructions, vec![0xAA, 0xBB, 0xCC]);
    assert_eq!(s.points, vec![Point { x: 0, y: 0, on_curve: true }]);
}

#[test]
fn glyph_truncated_is_rejected() {
    let whole = three_point_outline();
    for cut in 0..whole.len() {
        let g = raw_glyph(1, whole[..cut].to_vec());
        assert_eq!(SimpleGlyph::parse(&g), Err(FontError::TruncatedData), "cut {}", cut);
    }
}

#[test]
fn glyph_decreasing_end_points_are_rejected() {
    let mut d = Vec::new();
    push_u16(&mut d, 5);
    push_u16(&mut d, 3);
    let g = raw_glyph(2, d);
    assert_eq!(SimpleGlyph::parse(&g), Err(FontError::InvalidFormat));
}

#[test]
fn glyf_slices_ranges() {
    // Two glyphs: a three-point simple glyph, then an empty range.
    let mut glyf = Vec::new();
    glyf.push(0x00);
    glyf.push(0x01); // 1 contour
    for _ in 0..8 {
        glyf.push(0); // bounding box
    }
    glyf.extend_from_slice(&three_point_outline());
    let glyph_len = glyf.len() as u32;
    let mut loca_bytes = Vec::new();
    for off in [0u32, glyph_len, glyph_len] {
        loca_bytes.push((off >> 24) as u8);
        loca_bytes.push((off >> 16) as u8);
        loca_bytes.push((off >> 8) as u8);
        loca_bytes.push(off as u8);
    }
    let loca = LocaTable::parse(&loca_bytes, 2, 1).unwrap();
    let table = GlyfTable::parse(&glyf, &loca).unwrap();
    assert_eq!(table.glyphs.len(), 2);
    assert_eq!(table.glyphs[0].number_of_contours, 1);
    assert_eq!(table.glyphs[0].data.len(), glyph_len as usize - 10);
    assert_eq!(table.glyphs[1].number_of_contours, 0);
    assert_eq!(table.glyphs[1].data.len(), 0);
    // The empty range decodes to the empty glyph.
    let empty = table.get_glyph_data(1).unwrap();
    assert_eq!(empty.end_pts_of_contours.len(), 0);
    assert_eq!(empty.points.len(), 0);
    // The simple glyph decodes fully.
    let simple = table.get_glyph_data(0).unwrap();
    assert_eq!(simple.points.len(), 3);
}

#[test]
fn glyf_range_beyond_buffer_is_rejected() {
    let mut loca_bytes = Vec::new();
    for off in [0u32, 50] {
        loca_bytes.push((off >> 24) as u8);
        loca_bytes.push((off >> 16) as u8);
        loca_bytes.push((off >> 8) as u8);
        loca_bytes.push(off as u8);
    }
    let loca = LocaTable::parse(&loca_bytes, 1, 1).unwrap();
    let glyf = vec![0u8; 20];
    assert!(matches!(GlyfTable::parse(&glyf, &loca), Err(FontError::TruncatedData)));
}

#[test]
fn composite_glyph_is_rejected() {
    let table = GlyfTable { glyphs: vec![raw_glyph(-1, Vec::new())] };
    assert_eq!(
        table.get_glyph_data(0),
        Err(FontError::UnsupportedGlyphType(GlyphKind::Composite))
    );
}

#[test]
fn missing_glyph_id_is_rejected() {
    let table = GlyfTable { glyphs: vec![raw_glyph(0, Vec::new())] };
    assert_eq!(table.get_glyph_data(3), Err(FontError::GlyphNotFound(3)));
}

fn on(x: i16, y: i16) -> Point {
    Point { x, y, on_curve: true }
}

fn off(x: i16, y: i16) -> Point {
    Point { x, y, on_curve: false }
}

/// A decoded glyph built straight from its contours.
fn glyph_of(end_pts: Vec<u16>, points: Vec<Point>) -> SimpleGlyph {
    let flags: Vec<u8> = points.iter().map(|p| if p.on_curve { 1 } else { 0 }).collect();
    let xs: Vec<i16> = points.iter().map(|p| p.x).collect();
    let ys: Vec<i16> = points.iter().map(|p| p.y).collect();
    SimpleGlyph {
        end_pts_of_contours: end_pts,
        instruction_length: 0,
        instructions: Vec::new(),
        flags,
        x_coordinates: xs,
        y_coordinates: ys,
        points,
    }
}

#[test]
fn outline_splits_contours() {
    let pts = vec![on(0, 0), on(1, 0), on(1, 1), on(5, 5), on(6, 5)];
    let g = glyph_of(vec![2, 4], pts.clone());
    let o = Outline::from_simple_glyph(&g);
    assert_eq!(o.contours.len(), 2);
    assert_eq!(o.contours[0].points, pts[0..3].to_vec());
    assert_eq!(o.contours[1].points, pts[3..5].to_vec());
}

#[test]
fn path_groups_lines_quads_and_cubics() {
    // on, off+on (quad), off+off+on (cubic), trailing off (skipped).
    let pts = vec![
        on(0, 0),
        on(1, 0),
        off(2, 0),
        on(3, 0),
        off(4, 0),
        off(5, 0),
        on(6, 0),
        off(7, 0),
    ];
    let g = glyph_of(vec![7], pts.clone());
    let cmds = sfnt::outline::path_commands(&g);
    assert_eq!(
        cmds,
        vec![
            PathCommand::MoveTo(pts[0]),
            PathCommand::LineTo(pts[1]),
            PathCommand::QuadTo(pts[2], pts[3]),
            PathCommand::CubicTo(pts[4], pts[5], pts[6]),
            PathCommand::ClosePath,
        ]
    );
}

#[test]
fn path_does_not_cross_contour_boundary() {
    // The first contour ends in an off-curve point; the next contour
    // starts with an on-curve point. No quadratic segment may join
    // them across the boundary.
    let pts = vec![on(0, 0), off(1, 1), on(9, 9), on(10, 9)];
    let g = glyph_of(vec![1, 3], pts.clone());
    let cmds = sfnt::outline::path_commands(&g);
    assert_eq!(
        cmds,
        vec![
            PathCommand::MoveTo(pts[0]),
            PathCommand::ClosePath,
            PathCommand::MoveTo(pts[2]),
            PathCommand::LineTo(pts[3]),
            PathCommand::ClosePath,
        ]
    );
}

#[test]
fn svg_renders_exact_path() {
    let g = glyph_of(vec![2], vec![on(0, 0), on(10, 0), on(10, -5)]);
    let svg = simple_glyph_to_svg(&g);
    assert_eq!(
        svg,
        "<svg viewBox='0 0 1468 1468' xmlns='http://www.w3.org/2000/svg'>\
         <path d='M0 0 L 10 0 L 10 -5 Z' /></svg>"
    );
}

#[test]
fn svg_renders_curves() {
    let g = glyph_of(vec![3], vec![on(0, 0), off(128, 300), off(-4, -1), on(7, 7)]);
    let svg = simple_glyph_to_svg(&g);
    assert_eq!(
        svg,
        "<svg viewBox='0 0 1468 1468' xmlns='http://www.w3.org/2000/svg'>\
         <path d='M0 0 C 128 300, -4 -1, 7 7 Z' /></svg>"
    );
}

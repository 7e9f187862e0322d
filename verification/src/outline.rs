//! Grouping of decoded points into contours.
//!
//! Contour `k` of a simple glyph spans the points from one past the
//! previous contour's end index up to and including its own end index,
//! the first contour starting at point 0.

use vstd::prelude::*;
use crate::glyph::{SimpleGlyph, SimpleGlyphView};

verus! {

/// One decoded outline point with its on-/off-curve flag.
#[derive(Clone, Copy, Debug, PartialEq, Eq, Structural)]
pub struct Point {
    pub x: i16,
    pub y: i16,
    pub on_curve: bool,
}

/// One closed contour of points.
pub struct Contour {
    pub points: Vec<Point>,
}

/// Mathematical image of a [`Contour`].
pub struct ContourView {
    pub points: Seq<Point>,
}

impl View for Contour {
    type V = ContourView;

    open spec fn view(&self) -> ContourView {
        ContourView { points: self.points@ }
    }
}

/// All contours of one glyph, in declaration order.
pub struct Outline {
    pub contours: Vec<Contour>,
}

/// Mathematical image of an [`Outline`].
pub struct OutlineView {
    pub contours: Seq<ContourView>,
}

impl View for Outline {
    type V = OutlineView;

    open spec fn view(&self) -> OutlineView {
        OutlineView { contours: self.contours@.map_values(|c: Contour| c@) }
    }
}

/// Index of the first point of contour `k`: 0 for the first contour,
/// one past the previous contour's end for the rest.
pub open spec fn contour_start(end_pts: Seq<u16>, k: int) -> int {
    if k == 0 {
        0
    } else {
        end_pts[k - 1] + 1
    }
}

/// The points of contour `k`: the slice of the flat point sequence
/// from the contour's start through its end index.
pub open spec fn contour_points(g: SimpleGlyphView, k: int) -> Seq<Point> {
    g.points.subrange(contour_start(g.end_pts_of_contours, k), g.end_pts_of_contours[k] + 1)
}

impl Outline {
    /// Splits a decoded glyph's flat point sequence into its contours
    /// along the end-point index boundaries.
    pub fn from_simple_glyph(glyph_data: &SimpleGlyph) -> (r: Outline)
        requires
            glyph_data@.wf(),
        ensures
            r@.contours.len() == glyph_data@.end_pts_of_contours.len(),
            forall|k: int|
                0 <= k < r@.contours.len() ==> (#[trigger] r@.contours[k]).points
                    == contour_points(glyph_data@, k),
    {
        let nc = glyph_data.end_pts_of_contours.len();
        let mut contours: Vec<Contour> = Vec::new();
        let mut start: usize = 0;
        let mut k: usize = 0;
        while k < nc
            invariant
                glyph_data@.wf(),
                nc == glyph_data@.end_pts_of_contours.len(),
                k <= nc,
                start == contour_start(glyph_data@.end_pts_of_contours, k as int),
                start <= glyph_data@.points.len(),
                contours@.len() == k,
                forall|j: int|
                    0 <= j < k ==> (#[trigger] contours@[j])@.points == contour_points(
                        glyph_data@,
                        j,
                    ),
            decreases nc - k,
        {
            let end = glyph_data.end_pts_of_contours[k] as usize;
            proof {
                lemma_end_in_range(glyph_data@, k as int);
            }
            let mut points: Vec<Point> = Vec::new();
            let mut i: usize = start;
            while i <= end
                invariant
                    glyph_data@.wf(),
                    start <= i <= end + 1,
                    end < glyph_data@.points.len(),
                    points@.len() == i - start,
                    forall|j: int|
                        0 <= j < i - start ==> points@[j] == glyph_data@.points[start + j],
                decreases end + 1 - i,
            {
                points.push(glyph_data.points[i]);
                i = i + 1;
            }
            let ghost old_contours = contours@;
            let contour = Contour { points };
            proof {
                assert(contour@.points =~= contour_points(glyph_data@, k as int));
            }
            contours.push(contour);
            proof {
                assert(contours@.map_values(|c: Contour| c@) =~= old_contours.map_values(
                    |c: Contour| c@,
                ).push(contour@));
            }
            start = end + 1;
            k = k + 1;
        }
        Outline { contours }
    }
}

/// One drawing command of a glyph's path description.
#[derive(Clone, Copy, Debug, PartialEq, Eq, Structural)]
pub enum PathCommand {
    /// Open a contour at this point.
    MoveTo(Point),
    /// A straight segment to this on-curve point.
    LineTo(Point),
    /// A quadratic segment through one off-curve control point.
    QuadTo(Point, Point),
    /// A segment through two consecutive off-curve control points.
    CubicTo(Point, Point, Point),
    /// Close the contour back to its starting point.
    ClosePath,
}

/// The drawing commands for the points of one contour from index `i`
/// on: two off-curve points followed by an on-curve one form a cubic
/// segment, a single off-curve point followed by an on-curve one a
/// quadratic segment, an on-curve point a line; an off-curve point
/// with no qualifying successors inside the contour is passed over.
pub open spec fn contour_cmds(pts: Seq<Point>, i: int) -> Seq<PathCommand>
    decreases pts.len() - i,
{
    if i < 0 || i >= pts.len() {
        Seq::empty()
    } else if i + 2 < pts.len() && !pts[i].on_curve && !pts[i + 1].on_curve && pts[
        i + 2
    ].on_curve {
        seq![PathCommand::CubicTo(pts[i], pts[i + 1], pts[i + 2])] + contour_cmds(pts, i + 3)
    } else if i + 1 < pts.len() && !pts[i].on_curve && pts[i + 1].on_curve {
        seq![PathCommand::QuadTo(pts[i], pts[i + 1])] + contour_cmds(pts, i + 2)
    } else if pts[i].on_curve {
        seq![PathCommand::LineTo(pts[i])] + contour_cmds(pts, i + 1)
    } else {
        contour_cmds(pts, i + 1)
    }
}

/// The full command run of one contour: a move to its first point,
/// the grouped segments, and a close.
pub open spec fn contour_full_cmds(pts: Seq<Point>) -> Seq<PathCommand> {
    seq![PathCommand::MoveTo(pts[0])] + contour_cmds(pts, 1) + seq![PathCommand::ClosePath]
}

/// The drawing commands of contours `k` onward.
pub open spec fn commands_from(g: SimpleGlyphView, k: int) -> Seq<PathCommand>
    decreases g.end_pts_of_contours.len() - k,
{
    if k < 0 || k >= g.end_pts_of_contours.len() {
        Seq::empty()
    } else {
        contour_full_cmds(contour_points(g, k)) + commands_from(g, k + 1)
    }
}

/// The whole glyph's path description, contour by contour.
pub open spec fn glyph_commands(g: SimpleGlyphView) -> Seq<PathCommand> {
    commands_from(g, 0)
}

/// Builds the renderer-agnostic path description of a decoded glyph.
pub fn path_commands(glyph: &SimpleGlyph) -> (r: Vec<PathCommand>)
    requires
        glyph@.wf(),
    ensures
        r@ == glyph_commands(glyph@),
{
    let nc = glyph.end_pts_of_contours.len();
    let mut cmds: Vec<PathCommand> = Vec::new();
    let mut start: usize = 0;
    let mut k: usize = 0;
    while k < nc
        invariant
            glyph@.wf(),
            nc == glyph@.end_pts_of_contours.len(),
            k <= nc,
            start == contour_start(glyph@.end_pts_of_contours, k as int),
            start <= glyph@.points.len(),
            glyph_commands(glyph@) == cmds@ + commands_from(glyph@, k as int),
        decreases nc - k,
    {
        let end = glyph.end_pts_of_contours[k] as usize;
        proof {
            lemma_end_in_range(glyph@, k as int);
        }
        let ghost ptsl = contour_points(glyph@, k as int);
        proof {
            assert(ptsl.len() == end + 1 - start);
            assert(forall|j: int| 0 <= j < ptsl.len() ==> ptsl[j] == glyph@.points[start + j]);
        }
        let ghost acc0 = cmds@;
        cmds.push(PathCommand::MoveTo(glyph.points[start]));
        proof {
            assert(commands_from(glyph@, k as int) == contour_full_cmds(ptsl) + commands_from(
                glyph@,
                k as int + 1,
            ));
            assert(cmds@ + (contour_cmds(ptsl, 1) + seq![PathCommand::ClosePath] + commands_from(
                glyph@,
                k as int + 1,
            )) =~= acc0 + commands_from(glyph@, k as int));
        }
        let mut li: usize = 1;
        while li < end + 1 - start
            invariant
                glyph@.wf(),
                nc == glyph@.end_pts_of_contours.len(),
                k < nc,
                end == glyph@.end_pts_of_contours[k as int],
                end < glyph@.points.len(),
                start == contour_start(glyph@.end_pts_of_contours, k as int),
                start <= end,
                1 <= li <= end + 1 - start,
                ptsl == contour_points(glyph@, k as int),
                ptsl.len() == end + 1 - start,
                glyph_commands(glyph@) == cmds@ + (contour_cmds(ptsl, li as int) + seq![
                    PathCommand::ClosePath
                ] + commands_from(glyph@, k as int + 1)),
            decreases end + 1 - start - li,
        {
            let ghost acc = cmds@;
            let llen = end + 1 - start;
            let p0 = glyph.points[start + li];
            proof {
                assert(ptsl[li as int] == glyph@.points[start + li]);
            }
            if li + 2 < llen {
                proof {
                    assert(ptsl[li as int + 1] == glyph@.points[start + li + 1]);
                    assert(ptsl[li as int + 2] == glyph@.points[start + li + 2]);
                }
            } else if li + 1 < llen {
                proof {
                    assert(ptsl[li as int + 1] == glyph@.points[start + li + 1]);
                }
            }
            if li + 2 < llen && !p0.on_curve && !glyph.points[start + li + 1].on_curve
                && glyph.points[start + li + 2].on_curve {
                let cmd = PathCommand::CubicTo(
                    p0,
                    glyph.points[start + li + 1],
                    glyph.points[start + li + 2],
                );
                cmds.push(cmd);
                proof {
                    assert(contour_cmds(ptsl, li as int) == seq![cmd] + contour_cmds(
                        ptsl,
                        li as int + 3,
                    ));
                    assert(cmds@ + (contour_cmds(ptsl, li as int + 3) + seq![
                        PathCommand::ClosePath
                    ] + commands_from(glyph@, k as int + 1)) =~= acc + (contour_cmds(
                        ptsl,
                        li as int,
                    ) + seq![PathCommand::ClosePath] + commands_from(glyph@, k as int + 1)));
                }
                li = li + 3;
            } else if li + 1 < llen && !p0.on_curve && glyph.points[start + li + 1].on_curve {
                let cmd = PathCommand::QuadTo(p0, glyph.points[start + li + 1]);
                cmds.push(cmd);
                proof {
                    assert(contour_cmds(ptsl, li as int) == seq![cmd] + contour_cmds(
                        ptsl,
                        li as int + 2,
                    ));
                    assert(cmds@ + (contour_cmds(ptsl, li as int + 2) + seq![
                        PathCommand::ClosePath
                    ] + commands_from(glyph@, k as int + 1)) =~= acc + (contour_cmds(
                        ptsl,
                        li as int,
                    ) + seq![PathCommand::ClosePath] + commands_from(glyph@, k as int + 1)));
                }
                li = li + 2;
            } else if p0.on_curve {
                let cmd = PathCommand::LineTo(p0);
                cmds.push(cmd);
                proof {
                    assert(contour_cmds(ptsl, li as int) == seq![cmd] + contour_cmds(
                        ptsl,
                        li as int + 1,
                    ));
                    assert(cmds@ + (contour_cmds(ptsl, li as int + 1) + seq![
                        PathCommand::ClosePath
                    ] + commands_from(glyph@, k as int + 1)) =~= acc + (contour_cmds(
                        ptsl,
                        li as int,
                    ) + seq![PathCommand::ClosePath] + commands_from(glyph@, k as int + 1)));
                }
                li = li + 1;
            } else {
                proof {
                    assert(contour_cmds(ptsl, li as int) == contour_cmds(ptsl, li as int + 1));
                }
                li = li + 1;
            }
        }
        let ghost accz = cmds@;
        cmds.push(PathCommand::ClosePath);
        proof {
            assert(contour_cmds(ptsl, li as int) == Seq::<PathCommand>::empty());
            assert(cmds@ + commands_from(glyph@, k as int + 1) =~= accz + (contour_cmds(
                ptsl,
                li as int,
            ) + seq![PathCommand::ClosePath] + commands_from(glyph@, k as int + 1)));
        }
        start = end + 1;
        k = k + 1;
    }
    proof {
        assert(commands_from(glyph@, nc as int) == Seq::<PathCommand>::empty());
        assert(cmds@ + Seq::<PathCommand>::empty() =~= cmds@);
    }
    cmds
}

/// The decimal digit character for `d`.
pub open spec fn digit_char(d: int) -> char {
    if d == 0 {
        '0'
    } else if d == 1 {
        '1'
    } else if d == 2 {
        '2'
    } else if d == 3 {
        '3'
    } else if d == 4 {
        '4'
    } else if d == 5 {
        '5'
    } else if d == 6 {
        '6'
    } else if d == 7 {
        '7'
    } else if d == 8 {
        '8'
    } else {
        '9'
    }
}

/// The decimal rendering of a non-negative integer.
pub open spec fn spec_udec(n: int) -> Seq<char>
    recommends
        n >= 0,
    decreases n,
{
    if n < 10 {
        seq![digit_char(n)]
    } else {
        spec_udec(n / 10).push(digit_char(n % 10))
    }
}

/// The decimal rendering of a signed 16-bit value, with a leading
/// minus sign when negative.
pub open spec fn spec_i16_dec(v: i16) -> Seq<char> {
    if v < 0 {
        seq!['-'] + spec_udec(-(v as int))
    } else {
        spec_udec(v as int)
    }
}

/// The character run one drawing command contributes to the path
/// data string.
pub open spec fn cmd_chars(c: PathCommand) -> Seq<char> {
    match c {
        PathCommand::MoveTo(p) => seq!['M'] + spec_i16_dec(p.x) + seq![' '] + spec_i16_dec(p.y)
            + seq![' '],
        PathCommand::LineTo(p) => seq!['L', ' '] + spec_i16_dec(p.x) + seq![' '] + spec_i16_dec(
            p.y,
        ) + seq![' '],
        PathCommand::QuadTo(a, b) => seq!['Q', ' '] + spec_i16_dec(a.x) + seq![' ']
            + spec_i16_dec(a.y) + seq![',', ' '] + spec_i16_dec(b.x) + seq![' '] + spec_i16_dec(
            b.y,
        ) + seq![' '],
        PathCommand::CubicTo(a, b, c) => seq!['C', ' '] + spec_i16_dec(a.x) + seq![' ']
            + spec_i16_dec(a.y) + seq![',', ' '] + spec_i16_dec(b.x) + seq![' '] + spec_i16_dec(
            b.y,
        ) + seq![',', ' '] + spec_i16_dec(c.x) + seq![' '] + spec_i16_dec(c.y) + seq![' '],
        PathCommand::ClosePath => seq!['Z'],
    }
}

/// The path data string for the commands from index `i` on.
pub open spec fn path_chars_from(cmds: Seq<PathCommand>, i: int) -> Seq<char>
    decreases cmds.len() - i,
{
    if i < 0 || i >= cmds.len() {
        Seq::empty()
    } else {
        cmd_chars(cmds[i]) + path_chars_from(cmds, i + 1)
    }
}

/// The scalable-vector markup for a decoded glyph: the fixed document
/// frame around the glyph's path data.
pub open spec fn svg_chars(g: SimpleGlyphView) -> Seq<char> {
    "<svg viewBox='0 0 1468 1468' xmlns='http://www.w3.org/2000/svg'><path d='"@ + path_chars_from(
        glyph_commands(g),
        0,
    ) + "' /></svg>"@
}

/// Appends one decimal digit character.
fn push_digit(s: &mut String, d: u32)
    requires
        d < 10,
    ensures
        final(s)@ == old(s)@.push(digit_char(d as int)),
{
    proof {
        reveal_strlit("0");
        reveal_strlit("1");
        reveal_strlit("2");
        reveal_strlit("3");
        reveal_strlit("4");
        reveal_strlit("5");
        reveal_strlit("6");
        reveal_strlit("7");
        reveal_strlit("8");
        reveal_strlit("9");
    }
    let ghost before = s@;
    match d {
        0 => s.append("0"),
        1 => s.append("1"),
        2 => s.append("2"),
        3 => s.append("3"),
        4 => s.append("4"),
        5 => s.append("5"),
        6 => s.append("6"),
        7 => s.append("7"),
        8 => s.append("8"),
        _ => s.append("9"),
    }
    proof {
        assert(s@ =~= before.push(digit_char(d as int)));
    }
}

/// Appends the decimal rendering of `n`.
fn append_u32_dec(s: &mut String, n: u32)
    ensures
        final(s)@ == old(s)@ + spec_udec(n as int),
    decreases n,
{
    let ghost before = s@;
    if n < 10 {
        push_digit(s, n);
        proof {
            assert(s@ =~= before + spec_udec(n as int));
        }
    } else {
        append_u32_dec(s, n / 10);
        push_digit(s, n % 10);
        proof {
            assert(s@ =~= before + spec_udec(n as int));
        }
    }
}

/// Appends the decimal rendering of `v`, minus sign included.
fn append_i16_dec(s: &mut String, v: i16)
    ensures
        final(s)@ == old(s)@ + spec_i16_dec(v),
{
    let ghost before = s@;
    if v < 0 {
        proof {
            reveal_strlit("-");
        }
        s.append("-");
        let mag: u32 = (0 - (v as i32)) as u32;
        append_u32_dec(s, mag);
        proof {
            assert(s@ =~= before + spec_i16_dec(v));
        }
    } else {
        append_u32_dec(s, v as u32);
    }
}

/// Appends the character run of one drawing command.
#[verifier::rlimit(60)]
fn append_cmd(s: &mut String, cmd: &PathCommand)
    ensures
        final(s)@ == old(s)@ + cmd_chars(*cmd),
{
    proof {
        reveal_strlit("M");
        reveal_strlit("L ");
        reveal_strlit("Q ");
        reveal_strlit("C ");
        reveal_strlit("Z");
        reveal_strlit(" ");
        reveal_strlit(", ");
    }
    let ghost before = s@;
    match cmd {
        PathCommand::MoveTo(p) => {
            s.append("M");
            append_i16_dec(s, p.x);
            s.append(" ");
            append_i16_dec(s, p.y);
            s.append(" ");
        },
        PathCommand::LineTo(p) => {
            s.append("L ");
            append_i16_dec(s, p.x);
            s.append(" ");
            append_i16_dec(s, p.y);
            s.append(" ");
        },
        PathCommand::QuadTo(a, b) => {
            s.append("Q ");
            append_i16_dec(s, a.x);
            s.append(" ");
            append_i16_dec(s, a.y);
            s.append(", ");
            append_i16_dec(s, b.x);
            s.append(" ");
            append_i16_dec(s, b.y);
            s.append(" ");
        },
        PathCommand::CubicTo(a, b, c) => {
            s.append("C ");
            append_i16_dec(s, a.x);
            s.append(" ");
            append_i16_dec(s, a.y);
            s.append(", ");
            append_i16_dec(s, b.x);
            s.append(" ");
            append_i16_dec(s, b.y);
            s.append(", ");
            append_i16_dec(s, c.x);
            s.append(" ");
            append_i16_dec(s, c.y);
            s.append(" ");
        },
        PathCommand::ClosePath => {
            s.append("Z");
        },
    }
    proof {
        assert(s@ =~= before + cmd_chars(*cmd));
    }
}

/// Renders a decoded glyph's path data as drawing-command characters.
fn points_to_svg_path(glyph: &SimpleGlyph) -> (r: String)
    requires
        glyph@.wf(),
    ensures
        r@ == path_chars_from(glyph_commands(glyph@), 0),
{
    let cmds = path_commands(glyph);
    let mut s = String::new();
    let n = cmds.len();
    let mut i: usize = 0;
    while i < n
        invariant
            n == cmds@.len(),
            i <= n,
            cmds@ == glyph_commands(glyph@),
            path_chars_from(cmds@, 0) == s@ + path_chars_from(cmds@, i as int),
        decreases n - i,
    {
        let ghost before = s@;
        append_cmd(&mut s, &cmds[i]);
        proof {
            assert(path_chars_from(cmds@, i as int) == cmd_chars(cmds@[i as int])
                + path_chars_from(cmds@, i as int + 1));
            assert(s@ + path_chars_from(cmds@, i as int + 1) =~= before + path_chars_from(
                cmds@,
                i as int,
            ));
        }
        i = i + 1;
    }
    proof {
        assert(path_chars_from(cmds@, n as int) == Seq::<char>::empty());
        assert(s@ + Seq::<char>::empty() =~= s@);
    }
    s
}

/// Renders a decoded glyph as a scalable-vector document around its
/// path data.
pub fn simple_glyph_to_svg(glyph: &SimpleGlyph) -> (r: String)
    requires
        glyph@.wf(),
    ensures
        r@ == svg_chars(glyph@),
{
    let path_data = points_to_svg_path(glyph);
    let mut s = String::new();
    s.append("<svg viewBox='0 0 1468 1468' xmlns='http://www.w3.org/2000/svg'><path d='");
    s.append(path_data.as_str());
    s.append("' /></svg>");
    proof {
        assert(s@ =~= svg_chars(glyph@));
    }
    s
}

/// In a well-formed glyph every contour's end index, and its start,
/// stay inside the flat point sequence.
proof fn lemma_end_in_range(g: SimpleGlyphView, k: int)
    requires
        g.wf(),
        0 <= k < g.end_pts_of_contours.len(),
    ensures
        g.end_pts_of_contours[k] < g.points.len(),
        contour_start(g.end_pts_of_contours, k) <= g.end_pts_of_contours[k] + 1,
{
    let ep = g.end_pts_of_contours;
    assert(ep[k] <= ep[ep.len() - 1]);
}

} // verus!

//! Decoding of a simple glyph's outline bytes: end-point indices,
//! instructions, run-length-encoded flags and delta-encoded
//! coordinates, accumulated into absolute points.
//!
//! A flag byte with the repeat bit set is followed by a repeat count
//! `n` and stands for `n + 1` occurrences of itself; decoding stops
//! exactly at the glyph's point count even mid-run. Each coordinate
//! is a delta against the previous point's absolute value: a short
//! flag selects a one-byte magnitude whose sign the same-or-positive
//! bit gives, a clear short flag selects either a repeat of the
//! previous value (delta zero) or a signed two-byte delta. Sums wrap
//! modulo 2^16 into the `i16` range.

use vstd::prelude::*;
use crate::error::FontError;
use crate::glyf::{Glyph, GlyphView};
use crate::outline::Point;
use crate::reader::{be_i16_at, be_u16_at, Reader};

verus! {

/// Flag bit: the point lies on the curve.
pub const ON_CURVE_POINT: u8 = 0x01;

/// Flag bit: the x delta is one unsigned byte.
pub const X_SHORT_VECTOR: u8 = 0x02;

/// Flag bit: the y delta is one unsigned byte.
pub const Y_SHORT_VECTOR: u8 = 0x04;

/// Flag bit: the next byte repeats this flag that many more times.
pub const REPEAT_FLAG: u8 = 0x08;

/// Flag bit: a short x delta is positive; a long one is absent.
pub const X_IS_SAME_OR_POSITIVE_X_SHORT_VECTOR: u8 = 0x10;

/// Flag bit: a short y delta is positive; a long one is absent.
pub const Y_IS_SAME_OR_POSITIVE_Y_SHORT_VECTOR: u8 = 0x20;

/// Classification of a raw glyph by the sign of its contour count.
#[derive(Clone, Copy, Debug, PartialEq, Eq, Structural)]
pub enum GlyphType {
    Simple,
    Composite,
    Empty,
}

/// A fully decoded simple glyph.
#[derive(Debug, PartialEq, Eq)]
pub struct SimpleGlyph {
    /// Index of each contour's last point, strictly increasing.
    pub end_pts_of_contours: Vec<u16>,
    pub instruction_length: u16,
    /// Hinting bytecode, preserved opaquely.
    pub instructions: Vec<u8>,
    /// One decoded flag byte per point.
    pub flags: Vec<u8>,
    /// Absolute x coordinate per point.
    pub x_coordinates: Vec<i16>,
    /// Absolute y coordinate per point.
    pub y_coordinates: Vec<i16>,
    /// The assembled points.
    pub points: Vec<Point>,
}

/// Mathematical image of a [`SimpleGlyph`].
pub struct SimpleGlyphView {
    pub end_pts_of_contours: Seq<u16>,
    pub instruction_length: u16,
    pub instructions: Seq<u8>,
    pub flags: Seq<u8>,
    pub x_coordinates: Seq<i16>,
    pub y_coordinates: Seq<i16>,
    pub points: Seq<Point>,
}

impl View for SimpleGlyph {
    type V = SimpleGlyphView;

    open spec fn view(&self) -> SimpleGlyphView {
        SimpleGlyphView {
            end_pts_of_contours: self.end_pts_of_contours@,
            instruction_length: self.instruction_length,
            instructions: self.instructions@,
            flags: self.flags@,
            x_coordinates: self.x_coordinates@,
            y_coordinates: self.y_coordinates@,
            points: self.points@,
        }
    }
}

/// Every entry is less than every later one.
pub open spec fn strictly_increasing(s: Seq<u16>) -> bool {
    forall|i: int, j: int| 0 <= i < j < s.len() ==> s[i] < s[j]
}

impl SimpleGlyphView {
    /// Total point count: one past the last contour's end index.
    pub open spec fn num_points(self) -> int {
        if self.end_pts_of_contours.len() > 0 {
            self.end_pts_of_contours.last() + 1
        } else {
            0
        }
    }

    /// A well-formed decoded glyph: strictly increasing contour ends,
    /// and flags, coordinates and points all of the point count's
    /// length.
    pub open spec fn wf(self) -> bool {
        &&& strictly_increasing(self.end_pts_of_contours)
        &&& self.flags.len() == self.num_points()
        &&& self.x_coordinates.len() == self.num_points()
        &&& self.y_coordinates.len() == self.num_points()
        &&& self.points.len() == self.num_points()
    }
}

/// `a + b` wrapped modulo 2^16 into the `i16` range.
pub open spec fn wrap_add_i16(a: i16, b: i16) -> i16 {
    let s = a + b;
    if s > 0x7FFF {
        (s - 0x10000) as i16
    } else if s < -0x8000 {
        (s + 0x10000) as i16
    } else {
        s as i16
    }
}

/// Run-length decoding of `rem` flag bytes starting at `pos`: the
/// decoded flags and the position one past the bytes consumed, or
/// `None` when the buffer runs out first. A repeat count that would
/// overshoot is clamped to the flags still wanted.
pub open spec fn decode_flags(d: Seq<u8>, pos: int, rem: nat) -> Option<(Seq<u8>, int)>
    decreases rem,
{
    if rem == 0 {
        Some((Seq::empty(), pos))
    } else if pos + 1 > d.len() {
        None
    } else {
        let f = d[pos];
        if f & REPEAT_FLAG != 0 {
            if pos + 2 > d.len() {
                None
            } else {
                let rc = d[pos + 1] as int;
                let take = if rc + 1 <= rem {
                    (rc + 1) as nat
                } else {
                    rem
                };
                match decode_flags(d, pos + 2, (rem - take) as nat) {
                    None => None,
                    Some(t) => Some((Seq::new(take, |k: int| f) + t.0, t.1)),
                }
            }
        } else {
            match decode_flags(d, pos + 1, (rem - 1) as nat) {
                None => None,
                Some(t) => Some((seq![f] + t.0, t.1)),
            }
        }
    }
}

/// A successful flag decode yields exactly `rem` flags.
pub proof fn lemma_decode_flags_len(d: Seq<u8>, pos: int, rem: nat)
    ensures
        decode_flags(d, pos, rem) is Some ==> decode_flags(d, pos, rem).unwrap().0.len() == rem,
    decreases rem,
{
    if rem > 0 && pos + 1 <= d.len() {
        let f = d[pos];
        if f & REPEAT_FLAG != 0 {
            if pos + 2 <= d.len() {
                let rc = d[pos + 1] as int;
                let take = if rc + 1 <= rem {
                    (rc + 1) as nat
                } else {
                    rem
                };
                lemma_decode_flags_len(d, pos + 2, (rem - take) as nat);
            }
        } else {
            lemma_decode_flags_len(d, pos + 1, (rem - 1) as nat);
        }
    }
}

/// A flag byte with the repeat bit set and repeat count `rc` yields
/// `rc + 1` occurrences of itself, clamped so that decoding stops
/// exactly at the wanted count even when the declared run would
/// overshoot: a successful decode always has exactly `rem` flags.
pub proof fn lemma_flag_run_length(d: Seq<u8>, pos: int, rem: nat)
    requires
        rem > 0,
        0 <= pos,
        pos + 2 <= d.len(),
        d[pos] & REPEAT_FLAG != 0,
    ensures
        ({
            let f = d[pos];
            let rc = d[pos + 1] as int;
            let take = if rc + 1 <= rem {
                (rc + 1) as nat
            } else {
                rem
            };
            decode_flags(d, pos, rem) == flags_compose(
                Seq::new(take, |k: int| f),
                decode_flags(d, pos + 2, (rem - take) as nat),
            )
        }),
        decode_flags(d, pos, rem) is Some ==> decode_flags(d, pos, rem).unwrap().0.len() == rem,
{
    lemma_decode_flags_len(d, pos, rem);
}

/// One coordinate delta for flag `f`: the value read (or zero) and
/// the position after it, or `None` when the buffer runs out.
pub open spec fn coord_step(d: Seq<u8>, pos: int, f: u8, short_bit: u8, same_bit: u8) -> Option<
    (i16, int),
> {
    if f & short_bit != 0 {
        if pos + 1 > d.len() {
            None
        } else if f & same_bit != 0 {
            Some((d[pos] as i16, pos + 1))
        } else {
            Some(((0 - d[pos]) as i16, pos + 1))
        }
    } else if f & same_bit != 0 {
        Some((0, pos))
    } else if pos + 2 > d.len() {
        None
    } else {
        Some((be_i16_at(d, pos), pos + 2))
    }
}

/// Delta decoding of one coordinate stream, from flag index `k` on
/// with previous absolute value `prev`: the absolute coordinates per
/// remaining point and the position after the bytes consumed, or
/// `None` when the buffer runs out.
pub open spec fn decode_coords(
    d: Seq<u8>,
    pos: int,
    flags: Seq<u8>,
    k: int,
    prev: i16,
    short_bit: u8,
    same_bit: u8,
) -> Option<(Seq<i16>, int)>
    decreases flags.len() - k,
{
    if k < 0 || k >= flags.len() {
        Some((Seq::empty(), pos))
    } else {
        match coord_step(d, pos, flags[k], short_bit, same_bit) {
            None => None,
            Some(st) => {
                let v = wrap_add_i16(prev, st.0);
                match decode_coords(d, st.1, flags, k + 1, v, short_bit, same_bit) {
                    None => None,
                    Some(t) => Some((seq![v] + t.0, t.1)),
                }
            },
        }
    }
}

/// What decoding the outline bytes of raw glyph `g` yields.
///
/// In order: `number_of_contours` end-point indices, which must be
/// strictly increasing (`InvalidFormat` otherwise); the instruction
/// length and that many instruction bytes; the run-length-decoded
/// flags; the x deltas, then the y deltas, each accumulated into
/// absolute values. Running out of bytes at any step is
/// `TruncatedData`.
pub open spec fn parse_simple_spec(g: GlyphView) -> Result<SimpleGlyphView, FontError>
    recommends
        g.number_of_contours >= 0,
{
    let d = g.data;
    let n = g.number_of_contours as int;
    if d.len() < 2 * n {
        Err(FontError::TruncatedData)
    } else {
        let end_pts = Seq::new(n as nat, |i: int| be_u16_at(d, 2 * i));
        if !strictly_increasing(end_pts) {
            Err(FontError::InvalidFormat)
        } else if d.len() < 2 * n + 2 {
            Err(FontError::TruncatedData)
        } else {
            let il = be_u16_at(d, 2 * n) as int;
            if d.len() < 2 * n + 2 + il {
                Err(FontError::TruncatedData)
            } else {
                let np: nat = if n > 0 {
                    (end_pts[n - 1] + 1) as nat
                } else {
                    0
                };
                let pos0 = 2 * n + 2 + il;
                match decode_flags(d, pos0, np) {
                    None => Err(FontError::TruncatedData),
                    Some(fl) => match decode_coords(
                        d,
                        fl.1,
                        fl.0,
                        0,
                        0,
                        X_SHORT_VECTOR,
                        X_IS_SAME_OR_POSITIVE_X_SHORT_VECTOR,
                    ) {
                        None => Err(FontError::TruncatedData),
                        Some(xs) => match decode_coords(
                            d,
                            xs.1,
                            fl.0,
                            0,
                            0,
                            Y_SHORT_VECTOR,
                            Y_IS_SAME_OR_POSITIVE_Y_SHORT_VECTOR,
                        ) {
                            None => Err(FontError::TruncatedData),
                            Some(ys) => Ok(
                                (SimpleGlyphView {
                                    end_pts_of_contours: end_pts,
                                    instruction_length: be_u16_at(d, 2 * n),
                                    instructions: d.subrange(2 * n + 2, 2 * n + 2 + il),
                                    flags: fl.0,
                                    x_coordinates: xs.0,
                                    y_coordinates: ys.0,
                                    points: Seq::new(
                                        np,
                                        |i: int|
                                            Point {
                                                x: xs.0[i],
                                                y: ys.0[i],
                                                on_curve: fl.0[i] & ON_CURVE_POINT != 0,
                                            },
                                    ),
                                }),
                            ),
                        },
                    },
                }
            }
        }
    }
}

/// Whether the entries of `v` are strictly increasing.
fn is_strictly_increasing(v: &Vec<u16>) -> (r: bool)
    ensures
        r == strictly_increasing(v@),
{
    let n = v.len();
    let mut i: usize = 1;
    while i < n
        invariant
            n == v@.len(),
            1 <= i,
            i <= n || n == 0,
            forall|a: int, b: int| 0 <= a < b < i ==> v@[a] < v@[b],
        decreases n - i,
    {
        if v[i - 1] >= v[i] {
            return false;
        }
        i = i + 1;
    }
    true
}

/// Composition of an already-decoded flag prefix with the decode of
/// the rest.
pub open spec fn flags_compose(acc: Seq<u8>, t: Option<(Seq<u8>, int)>) -> Option<(Seq<u8>, int)> {
    match t {
        None => None,
        Some(p) => Some((acc + p.0, p.1)),
    }
}

/// Composition of an already-decoded coordinate prefix with the
/// decode of the rest.
pub open spec fn coords_compose(acc: Seq<i16>, t: Option<(Seq<i16>, int)>) -> Option<
    (Seq<i16>, int),
> {
    match t {
        None => None,
        Some(p) => Some((acc + p.0, p.1)),
    }
}

/// Reads `num_points` run-length-encoded flag bytes.
fn read_flags(rd: &mut Reader, num_points: usize) -> (r: Result<Vec<u8>, FontError>)
    requires
        old(rd).wf(),
    ensures
        final(rd).bytes() == old(rd).bytes(),
        final(rd).wf(),
        match r {
            Ok(v) => {
                &&& decode_flags(old(rd).bytes(), old(rd).position_spec(), num_points as nat)
                    == Some((v@, final(rd).position_spec()))
                &&& v@.len() == num_points
            },
            Err(e) => e == FontError::TruncatedData && decode_flags(
                old(rd).bytes(),
                old(rd).position_spec(),
                num_points as nat,
            ) is None,
        },
{
    let ghost d = rd.bytes();
    let ghost pos0 = rd.position_spec();
    let mut flags: Vec<u8> = Vec::new();
    while flags.len() < num_points
        invariant
            rd.wf(),
            rd.bytes() == d,
            pos0 == old(rd).position_spec(),
            d == old(rd).bytes(),
            flags@.len() <= num_points,
            decode_flags(d, pos0, num_points as nat) == flags_compose(
                flags@,
                decode_flags(d, rd.position_spec(), (num_points - flags@.len()) as nat),
            ),
        decreases num_points - flags@.len(),
    {
        let ghost pos = rd.position_spec();
        let ghost rem = (num_points - flags@.len()) as nat;
        let ghost acc = flags@;
        let f = match rd.read_u8() {
            Ok(v) => v,
            Err(_) => {
                proof {
                    assert(decode_flags(d, pos, rem) is None);
                }
                return Err(FontError::TruncatedData);
            },
        };
        if f & REPEAT_FLAG != 0 {
            let rc = match rd.read_u8() {
                Ok(v) => v,
                Err(_) => {
                    proof {
                        assert(decode_flags(d, pos, rem) is None);
                    }
                    return Err(FontError::TruncatedData);
                },
            };
            let remaining = num_points - flags.len();
            let take: usize = if rc as usize + 1 <= remaining {
                rc as usize + 1
            } else {
                remaining
            };
            let mut t: usize = 0;
            while t < take
                invariant
                    t <= take,
                    flags@.len() == acc.len() + t,
                    flags@ == acc + Seq::new(t as nat, |k: int| f),
                decreases take - t,
            {
                let ghost before = flags@;
                flags.push(f);
                proof {
                    assert(flags@ =~= acc + Seq::new((t + 1) as nat, |k: int| f));
                }
                t = t + 1;
            }
            proof {
                let rest = decode_flags(d, pos + 2, (rem - take) as nat);
                assert(decode_flags(d, pos, rem) == (match rest {
                    None => None,
                    Some(tt) => Some((Seq::new(take as nat, |k: int| f) + tt.0, tt.1)),
                }));
                match rest {
                    None => {},
                    Some(tt) => {
                        assert(acc + (Seq::new(take as nat, |k: int| f) + tt.0) =~= (acc + Seq::new(
                            take as nat,
                            |k: int| f,
                        )) + tt.0);
                    },
                }
            }
        } else {
            let ghost before = flags@;
            flags.push(f);
            proof {
                let rest = decode_flags(d, pos + 1, (rem - 1) as nat);
                match rest {
                    None => {},
                    Some(tt) => {
                        assert(flags@ =~= acc + seq![f]);
                        assert(acc + (seq![f] + tt.0) =~= (acc + seq![f]) + tt.0);
                    },
                }
            }
        }
    }
    proof {
        assert(decode_flags(d, rd.position_spec(), (num_points - flags@.len()) as nat) == Some(
            (Seq::<u8>::empty(), rd.position_spec()),
        ));
        assert(flags@ + Seq::<u8>::empty() =~= flags@);
    }
    Ok(flags)
}

/// Reads one delta-encoded coordinate stream, one value per flag.
fn read_coords(rd: &mut Reader, flags: &Vec<u8>, short_bit: u8, same_bit: u8) -> (r: Result<
    Vec<i16>,
    FontError,
>)
    requires
        old(rd).wf(),
    ensures
        final(rd).bytes() == old(rd).bytes(),
        final(rd).wf(),
        match r {
            Ok(v) => {
                &&& decode_coords(
                    old(rd).bytes(),
                    old(rd).position_spec(),
                    flags@,
                    0,
                    0,
                    short_bit,
                    same_bit,
                ) == Some((v@, final(rd).position_spec()))
                &&& v@.len() == flags@.len()
            },
            Err(e) => e == FontError::TruncatedData && decode_coords(
                old(rd).bytes(),
                old(rd).position_spec(),
                flags@,
                0,
                0,
                short_bit,
                same_bit,
            ) is None,
        },
{
    let ghost d = rd.bytes();
    let ghost pos0 = rd.position_spec();
    let n = flags.len();
    let mut coords: Vec<i16> = Vec::new();
    let mut prev: i16 = 0;
    let mut k: usize = 0;
    while k < n
        invariant
            rd.wf(),
            rd.bytes() == d,
            pos0 == old(rd).position_spec(),
            d == old(rd).bytes(),
            n == flags@.len(),
            k <= n,
            coords@.len() == k,
            prev == (if k == 0 {
                0i16
            } else {
                coords@[k - 1]
            }),
            decode_coords(d, pos0, flags@, 0, 0, short_bit, same_bit) == coords_compose(
                coords@,
                decode_coords(d, rd.position_spec(), flags@, k as int, prev, short_bit, same_bit),
            ),
        decreases n - k,
    {
        let ghost pos = rd.position_spec();
        let ghost acc = coords@;
        let f = flags[k];
        let delta: i16 = if f & short_bit != 0 {
            let b = match rd.read_u8() {
                Ok(v) => v,
                Err(_) => {
                    proof {
                        assert(coord_step(d, pos, f, short_bit, same_bit) is None);
                    }
                    return Err(FontError::TruncatedData);
                },
            };
            if f & same_bit != 0 {
                b as i16
            } else {
                0 - (b as i16)
            }
        } else if f & same_bit != 0 {
            0
        } else {
            match rd.read_i16() {
                Ok(v) => v,
                Err(_) => {
                    proof {
                        assert(coord_step(d, pos, f, short_bit, same_bit) is None);
                    }
                    return Err(FontError::TruncatedData);
                },
            }
        };
        let sum: i32 = prev as i32 + delta as i32;
        let val: i16 = if sum > 0x7FFF {
            (sum - 0x10000) as i16
        } else if sum < -0x8000 {
            (sum + 0x10000) as i16
        } else {
            sum as i16
        };
        proof {
            assert(coord_step(d, pos, f, short_bit, same_bit) == Some(
                (delta, rd.position_spec()),
            ));
            assert(val == wrap_add_i16(prev, delta));
            let rest = decode_coords(
                d,
                rd.position_spec(),
                flags@,
                k + 1,
                val,
                short_bit,
                same_bit,
            );
            match rest {
                None => {},
                Some(tt) => {
                    assert(acc + (seq![val] + tt.0) =~= (acc + seq![val]) + tt.0);
                },
            }
        }
        coords.push(val);
        proof {
            assert(coords@ =~= acc + seq![val]);
        }
        prev = val;
        k = k + 1;
    }
    proof {
        assert(decode_coords(d, rd.position_spec(), flags@, n as int, prev, short_bit, same_bit)
            == Some((Seq::<i16>::empty(), rd.position_spec())));
        assert(coords@ + Seq::<i16>::empty() =~= coords@);
    }
    Ok(coords)
}

impl SimpleGlyph {
    /// Decodes a raw simple glyph's outline bytes.
    ///
    /// A successful decode is well-formed: its contour ends are
    /// strictly increasing and flags, coordinates and points all have
    /// one entry per point.
    pub fn parse(glyph: &Glyph) -> (r: Result<SimpleGlyph, FontError>)
        requires
            glyph@.number_of_contours >= 0,
        ensures
            match r {
                Ok(t) => parse_simple_spec(glyph@) == Ok::<SimpleGlyphView, FontError>(t@),
                Err(e) => parse_simple_spec(glyph@) == Err::<SimpleGlyphView, FontError>(e),
            },
            r is Ok ==> r.unwrap()@.wf(),
    {
        let ghost d = glyph.data@;
        let mut rd = Reader::new(glyph.data.as_slice());
        let n = glyph.number_of_contours as usize;
        let end_pts_of_contours = match rd.read_u16_array(n) {
            Ok(v) => v,
            Err(e) => { return Err(e); },
        };
        proof {
            assert(end_pts_of_contours@ =~= Seq::new(n as nat, |i: int| be_u16_at(d, 2 * i)));
        }
        if !is_strictly_increasing(&end_pts_of_contours) {
            return Err(FontError::InvalidFormat);
        }
        let instruction_length = match rd.read_u16() {
            Ok(v) => v,
            Err(e) => { return Err(e); },
        };
        let instructions = match rd.read_bytes(instruction_length as usize) {
            Ok(v) => v,
            Err(e) => { return Err(e); },
        };
        let num_points: usize = if n > 0 {
            end_pts_of_contours[n - 1] as usize + 1
        } else {
            0
        };
        let flags = match read_flags(&mut rd, num_points) {
            Ok(v) => v,
            Err(e) => { return Err(e); },
        };
        let x_coordinates = match read_coords(
            &mut rd,
            &flags,
            X_SHORT_VECTOR,
            X_IS_SAME_OR_POSITIVE_X_SHORT_VECTOR,
        ) {
            Ok(v) => v,
            Err(e) => { return Err(e); },
        };
        let y_coordinates = match read_coords(
            &mut rd,
            &flags,
            Y_SHORT_VECTOR,
            Y_IS_SAME_OR_POSITIVE_Y_SHORT_VECTOR,
        ) {
            Ok(v) => v,
            Err(e) => { return Err(e); },
        };
        let mut points: Vec<Point> = Vec::new();
        let mut i: usize = 0;
        while i < num_points
            invariant
                i <= num_points,
                flags@.len() == num_points,
                x_coordinates@.len() == num_points,
                y_coordinates@.len() == num_points,
                points@.len() == i,
                forall|j: int|
                    0 <= j < i ==> points@[j] == (Point {
                        x: x_coordinates@[j],
                        y: y_coordinates@[j],
                        on_curve: flags@[j] & ON_CURVE_POINT != 0,
                    }),
            decreases num_points - i,
        {
            points.push(
                Point {
                    x: x_coordinates[i],
                    y: y_coordinates[i],
                    on_curve: flags[i] & ON_CURVE_POINT != 0,
                },
            );
            i = i + 1;
        }
        let result = SimpleGlyph {
            end_pts_of_contours,
            instruction_length,
            instructions,
            flags,
            x_coordinates,
            y_coordinates,
            points,
        };
        proof {
            let spec_v = parse_simple_spec(glyph@).unwrap();
            assert(result@.points =~= spec_v.points);
        }
        Ok(result)
    }
}

} // verus!

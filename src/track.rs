use vstd::prelude::*;
use vstd::arithmetic::div_mod::lemma_hoist_over_denominator;
use crate::sensors::{lemma_product_bound, Frame, LinePiece, LineShape, DIR_SCALE};
use crate::side::Side;

verus! {

/// The tracks a run can be set on.
#[derive(Debug, Clone, Copy, PartialEq, Eq, Structural)]
pub enum TrackId {
    Line,
    Angle,
    Turn,
    Simple,
    Race,
}

/// One piece of a track, placed after the previous one.
#[derive(Debug, Clone, Copy, PartialEq, Eq, Structural)]
pub enum TrackSegment {
    /// The start marker.
    Start,
    /// The end marker.
    End,
    /// A straight run of the given length, in millimetres.
    Straight { length_mm: u32 },
    /// A turn of fixed radius (millimetres) through `angle_deg` degrees towards `side`.
    Turn { radius_mm: u32, angle_deg: u32, side: Side },
}

/// Where a track's first segment starts, relative to the track's own origin:
/// an offset in millimetres and a heading in degrees.
#[derive(Debug, Clone, Copy, PartialEq, Eq, Structural)]
pub struct SegmentTransform {
    pub x_mm: i64,
    pub y_mm: i64,
    pub angle_deg: i64,
}

/// A track: the size of its ground in millimetres, the placement of its first
/// segment, and its segments in driving order.
#[derive(Debug, Clone)]
pub struct Track {
    pub size_x_mm: u32,
    pub size_y_mm: u32,
    pub origin: SegmentTransform,
    pub segments: Vec<TrackSegment>,
}

/// A segment that makes sense on its own: a positive length or radius, and a
/// turn of more than nothing and at most half a circle.
pub open spec fn segment_ok(s: TrackSegment) -> bool {
    match s {
        TrackSegment::Straight { length_mm } => length_mm > 0,
        TrackSegment::Turn { radius_mm, angle_deg, .. } => radius_mm > 0 && 0 < angle_deg <= 180,
        _ => true,
    }
}

/// A well-formed track: it opens with the start marker, closes with the end
/// marker, has no marker in between, and each segment makes sense.
pub open spec fn track_ok(segments: Seq<TrackSegment>) -> bool {
    &&& segments.len() >= 2
    &&& segments[0] is Start
    &&& segments.last() is End
    &&& forall|i: int| 0 < i < segments.len() - 1 ==> !(#[trigger] segments[i] is Start) && !(segments[i] is End)
    &&& forall|i: int| 0 <= i < segments.len() ==> segment_ok(#[trigger] segments[i])
}

impl TrackSegment {
    pub fn start() -> (r: TrackSegment)
        ensures
            r == TrackSegment::Start,
    {
        TrackSegment::Start
    }

    pub fn end() -> (r: TrackSegment)
        ensures
            r == TrackSegment::End,
    {
        TrackSegment::End
    }

    pub fn straight(length_mm: u32) -> (r: TrackSegment)
        ensures
            r == (TrackSegment::Straight { length_mm }),
    {
        TrackSegment::Straight { length_mm }
    }

    pub fn ninety_deg_turn(radius_mm: u32, side: Side) -> (r: TrackSegment)
        ensures
            r == (TrackSegment::Turn { radius_mm, angle_deg: 90, side }),
    {
        TrackSegment::Turn { radius_mm, angle_deg: 90, side }
    }

    pub fn circle_turn(radius_mm: u32, angle_deg: u32, side: Side) -> (r: TrackSegment)
        ensures
            r == (TrackSegment::Turn { radius_mm, angle_deg, side }),
    {
        TrackSegment::Turn { radius_mm, angle_deg, side }
    }
}

impl SegmentTransform {
    pub fn new(x_mm: i64, y_mm: i64, angle_deg: i64) -> (r: SegmentTransform)
        ensures
            r == (SegmentTransform { x_mm, y_mm, angle_deg }),
    {
        SegmentTransform { x_mm, y_mm, angle_deg }
    }
}

impl Track {
    pub fn new(size_x_mm: u32, size_y_mm: u32, origin: SegmentTransform, segments: Vec<TrackSegment>) -> (r: Track)
        ensures
            r.size_x_mm == size_x_mm,
            r.size_y_mm == size_y_mm,
            r.origin == origin,
            r.segments@ == segments@,
    {
        Track { size_x_mm, size_y_mm, origin, segments }
    }
}

/// The start marker.
pub fn start() -> (r: TrackSegment)
    ensures
        r == TrackSegment::Start,
{
    TrackSegment::start()
}

/// The end marker.
pub fn end() -> (r: TrackSegment)
    ensures
        r == TrackSegment::End,
{
    TrackSegment::end()
}

fn straight(length_mm: u32) -> (r: TrackSegment)
    ensures
        r == (TrackSegment::Straight { length_mm }),
{
    TrackSegment::straight(length_mm)
}

fn t90(side: Side, radius_mm: u32) -> (r: TrackSegment)
    ensures
        r == (TrackSegment::Turn { radius_mm, angle_deg: 90, side }),
{
    TrackSegment::ninety_deg_turn(radius_mm, side)
}

fn turn(angle_deg: u32, side: Side, radius_mm: u32) -> (r: TrackSegment)
    ensures
        r == (TrackSegment::Turn { radius_mm, angle_deg, side }),
{
    TrackSegment::circle_turn(radius_mm, angle_deg, side)
}

/// The segments of the simple track: a straight, a tight right turn, then
/// alternating wider turns.
pub open spec fn simple_track_segments() -> Seq<TrackSegment> {
    seq![
        TrackSegment::Start,
        TrackSegment::Straight { length_mm: 2000 },
        TrackSegment::Turn { radius_mm: 500, angle_deg: 90, side: Side::Right },
        TrackSegment::Turn { radius_mm: 1000, angle_deg: 120, side: Side::Left },
        TrackSegment::Turn { radius_mm: 1000, angle_deg: 90, side: Side::Left },
        TrackSegment::Turn { radius_mm: 2000, angle_deg: 60, side: Side::Right },
        TrackSegment::End,
    ]
}

fn build_simple_track() -> (r: Track)
    ensures
        r.size_x_mm == 5000,
        r.size_y_mm == 6500,
        r.origin == (SegmentTransform { x_mm: 500i64, y_mm: -2300i64, angle_deg: 0i64 }),
        r.segments@ == simple_track_segments(),
{
    let segments = vec![
        start(),
        straight(2000),
        t90(Side::Right, 500),
        turn(120, Side::Left, 1000),
        t90(Side::Left, 1000),
        turn(60, Side::Right, 2000),
        end(),
    ];
    assert(segments@ =~= simple_track_segments());
    Track::new(5000, 6500, SegmentTransform::new(500, -2300, 0), segments)
}

/// The track with the given id. Only the simple track is laid out.
pub fn build_track(id: TrackId) -> (r: Track)
    requires
        id == TrackId::Simple,
    ensures
        r.size_x_mm == 5000,
        r.size_y_mm == 6500,
        r.origin == (SegmentTransform { x_mm: 500i64, y_mm: -2300i64, angle_deg: 0i64 }),
        r.segments@ == simple_track_segments(),
        track_ok(r.segments@),
{
    let r = build_simple_track();
    assert(track_ok(r.segments@)) by {
        let s = simple_track_segments();
        assert(s.len() == 7);
        assert(s.last() == TrackSegment::End);
        assert forall|i: int| 0 <= i < s.len() implies segment_ok(#[trigger] s[i]) by {}
    }
    r
}

/// Largest length or radius of a segment, and largest offset of a track's
/// origin, in millimetres, that a layout takes.
pub const SEGMENT_LIMIT_MM: u32 = 1_000_000;
/// Largest number of segments a layout takes.
pub const MAX_SEGMENTS: usize = 10_000;

/// The track can be laid out: well-formed, within the size limits, and with
/// its origin heading a whole number of degrees in `[0, 360)`.
pub open spec fn track_fits(t: Track) -> bool {
    &&& track_ok(t.segments@)
    &&& t.segments@.len() <= MAX_SEGMENTS
    &&& forall|i: int| 0 <= i < t.segments@.len() ==> segment_fits(#[trigger] t.segments@[i])
    &&& -SEGMENT_LIMIT_MM <= t.origin.x_mm <= SEGMENT_LIMIT_MM
    &&& -SEGMENT_LIMIT_MM <= t.origin.y_mm <= SEGMENT_LIMIT_MM
    &&& 0 <= t.origin.angle_deg < 360
}

pub open spec fn segment_fits(s: TrackSegment) -> bool {
    match s {
        TrackSegment::Straight { length_mm } => length_mm <= SEGMENT_LIMIT_MM,
        TrackSegment::Turn { radius_mm, .. } => radius_mm <= SEGMENT_LIMIT_MM,
        _ => true,
    }
}

/// A table of headings: entry `d` is the direction of `d` degrees
/// (counterclockwise from +x), scaled by `DIR_SCALE`.
pub open spec fn directions_ok(dirs: Seq<(i64, i64)>) -> bool {
    &&& dirs.len() == 360
    &&& forall|d: int| 0 <= d < 360 ==> -DIR_SCALE <= (#[trigger] dirs[d]).0 <= DIR_SCALE && -DIR_SCALE <= dirs[d].1 <= DIR_SCALE
}

pub open spec fn dir_of(dirs: Seq<(i64, i64)>, deg: int) -> (int, int) {
    (dirs[deg % 360].0 as int, dirs[deg % 360].1 as int)
}

pub open spec fn um(mm: int) -> int {
    mm * 1000
}

/// Where laying out begins: the track's origin, in micrometres scaled by
/// `DIR_SCALE`, and its heading in degrees.
pub open spec fn start_cursor(t: Track) -> (int, int, int) {
    (um(t.origin.x_mm as int) * DIR_SCALE, um(t.origin.y_mm as int) * DIR_SCALE, t.origin.angle_deg as int)
}

/// Centre of a turn of radius `r` towards `side`, from position `(x, y)` heading `h`.
pub open spec fn turn_centre(dirs: Seq<(i64, i64)>, x: int, y: int, h: int, r: int, side: Side) -> (int, int) {
    let (dx, dy) = dir_of(dirs, h);
    match side {
        Side::Left => (x - r * dy, y + r * dx),
        Side::Right => (x + r * dy, y - r * dx),
    }
}

/// Heading, seen from a turn's centre, at which the arc starts when read
/// counterclockwise.
pub open spec fn arc_start(h: int, angle: int, side: Side) -> int {
    match side {
        Side::Left => h + 270,
        Side::Right => h + 450 - angle,
    }
}

/// Position and heading after driving along `s`.
pub open spec fn advance_spec(dirs: Seq<(i64, i64)>, c: (int, int, int), s: TrackSegment) -> (int, int, int) {
    let (x, y, h) = c;
    let (dx, dy) = dir_of(dirs, h);
    match s {
        TrackSegment::Straight { length_mm } => (x + um(length_mm as int) * dx, y + um(length_mm as int) * dy, h),
        TrackSegment::Turn { radius_mm, angle_deg, side } => {
            let r = um(radius_mm as int);
            let (cx, cy) = turn_centre(dirs, x, y, h, r, side);
            let out = match side {
                Side::Left => h + 270 + angle_deg,
                Side::Right => h + 450 - angle_deg,
            };
            let (ex, ey) = dir_of(dirs, out);
            let heading = match side {
                Side::Left => (h + angle_deg) % 360,
                Side::Right => (h + 360 - angle_deg) % 360,
            };
            (cx + r * ex, cy + r * ey, heading)
        },
        _ => c,
    }
}

/// The line piece that `s` paints when laid out from `c`; markers paint none.
pub open spec fn piece_spec(dirs: Seq<(i64, i64)>, c: (int, int, int), s: TrackSegment, width_um: i64) -> Option<LinePiece> {
    let (x, y, h) = c;
    let (dx, dy) = dir_of(dirs, h);
    match s {
        TrackSegment::Straight { length_mm } => Some(LinePiece {
            frame: Frame { x: (x / DIR_SCALE as int) as i64, y: (y / DIR_SCALE as int) as i64, dir_x: dx as i64, dir_y: dy as i64 },
            shape: LineShape::Strip { length_um: um(length_mm as int) as i64 },
            width_um,
        }),
        TrackSegment::Turn { radius_mm, angle_deg, side } => {
            let r = um(radius_mm as int);
            let (cx, cy) = turn_centre(dirs, x, y, h, r, side);
            let (fx, fy) = dir_of(dirs, arc_start(h, angle_deg as int, side));
            let (ex, ey) = dir_of(dirs, angle_deg as int);
            Some(LinePiece {
                frame: Frame { x: (cx / DIR_SCALE as int) as i64, y: (cy / DIR_SCALE as int) as i64, dir_x: fx as i64, dir_y: fy as i64 },
                shape: LineShape::Arc { radius_um: r as i64, end_dir_x: ex as i64, end_dir_y: ey as i64 },
                width_um,
            })
        },
        _ => None,
    }
}

/// Position and heading after the first `k` segments.
pub open spec fn cursor_after(dirs: Seq<(i64, i64)>, t: Track, k: nat) -> (int, int, int)
    decreases k,
{
    if k == 0 {
        start_cursor(t)
    } else {
        advance_spec(dirs, cursor_after(dirs, t, (k - 1) as nat), t.segments@[k - 1])
    }
}

/// The line pieces of the first `k` segments, in order.
pub open spec fn pieces_upto(dirs: Seq<(i64, i64)>, t: Track, width_um: i64, k: nat) -> Seq<LinePiece>
    decreases k,
{
    if k == 0 {
        Seq::empty()
    } else {
        let before = pieces_upto(dirs, t, width_um, (k - 1) as nat);
        match piece_spec(dirs, cursor_after(dirs, t, (k - 1) as nat), t.segments@[k - 1], width_um) {
            Some(p) => before.push(p),
            None => before,
        }
    }
}

fn segment_in_range(s: TrackSegment) -> (r: bool)
    ensures
        r == (segment_ok(s) && segment_fits(s)),
{
    match s {
        TrackSegment::Straight { length_mm } => 0 < length_mm && length_mm <= SEGMENT_LIMIT_MM,
        TrackSegment::Turn { radius_mm, angle_deg, .. } => 0 < radius_mm && radius_mm <= SEGMENT_LIMIT_MM
            && 0 < angle_deg && angle_deg <= 180,
        _ => true,
    }
}

impl Track {
    /// Whether the track can be laid out by [`line_pieces`].
    pub fn fits(&self) -> (r: bool)
        ensures
            r == track_fits(*self),
    {
        let n = self.segments.len();
        if n < 2 || n > MAX_SEGMENTS {
            return false;
        }
        if !matches!(self.segments[0], TrackSegment::Start) || !matches!(self.segments[n - 1], TrackSegment::End) {
            return false;
        }
        if !(-(SEGMENT_LIMIT_MM as i64) <= self.origin.x_mm && self.origin.x_mm <= SEGMENT_LIMIT_MM as i64
            && -(SEGMENT_LIMIT_MM as i64) <= self.origin.y_mm && self.origin.y_mm <= SEGMENT_LIMIT_MM as i64
            && 0 <= self.origin.angle_deg && self.origin.angle_deg < 360) {
            return false;
        }
        let mut i: usize = 0;
        while i < n
            invariant
                n == self.segments@.len(),
                i <= n,
                forall|j: int| 0 <= j < i ==> segment_ok(#[trigger] self.segments@[j]) && segment_fits(self.segments@[j]),
                forall|j: int| 0 < j < i && j < n - 1 ==> !(#[trigger] self.segments@[j] is Start) && !(self.segments@[j] is End),
            decreases n - i,
        {
            let seg = self.segments[i];
            if !segment_in_range(seg) {
                return false;
            }
            if 0 < i && i < n - 1 && matches!(seg, TrackSegment::Start | TrackSegment::End) {
                return false;
            }
            i = i + 1;
        }
        true
    }
}

/// Whether `dirs` is a heading table [`line_pieces`] takes.
pub fn directions_fit(dirs: &Vec<(i64, i64)>) -> (r: bool)
    ensures
        r == directions_ok(dirs@),
{
    if dirs.len() != 360 {
        return false;
    }
    let mut d: usize = 0;
    while d < 360
        invariant
            dirs@.len() == 360,
            d <= 360,
            forall|e: int| 0 <= e < d ==> -DIR_SCALE <= (#[trigger] dirs@[e]).0 <= DIR_SCALE && -DIR_SCALE <= dirs@[e].1 <= DIR_SCALE,
        decreases 360 - d,
    {
        let (x, y) = dirs[d];
        if !(-DIR_SCALE <= x && x <= DIR_SCALE && -DIR_SCALE <= y && y <= DIR_SCALE) {
            return false;
        }
        d = d + 1;
    }
    true
}

/// Bound on the scaled position after `k` segments.
pub open spec fn reach(k: int) -> int {
    (um(SEGMENT_LIMIT_MM as int) + k * 2 * um(SEGMENT_LIMIT_MM as int)) * DIR_SCALE
}

const FLOOR_SHIFT: i128 = 100_000_000_000_000;

/// `v / DIR_SCALE`, rounded down.
fn floor_scaled(v: i128) -> (r: i64)
    requires
        -reach(MAX_SEGMENTS as int) <= v <= reach(MAX_SEGMENTS as int),
    ensures
        r as int == v as int / DIR_SCALE as int,
{
    let s = DIR_SCALE as i128;
    assert(reach(MAX_SEGMENTS as int) == 81_924_096_000_000_000) by (nonlinear_arith);
    assert(FLOOR_SHIFT * s == 409_600_000_000_000_000);
    let shifted = v + FLOOR_SHIFT * s;
    proof {
        lemma_hoist_over_denominator(v as int, FLOOR_SHIFT as int, DIR_SCALE as nat);
        assert(v as int / DIR_SCALE as int + FLOOR_SHIFT == (v + FLOOR_SHIFT * DIR_SCALE) / DIR_SCALE as int);
        assert(0 <= shifted);
    }
    let q = shifted / s;
    assert(q as int == shifted as int / DIR_SCALE as int);
    proof {
        vstd::arithmetic::div_mod::lemma_div_is_ordered(
            -reach(MAX_SEGMENTS as int), v as int, DIR_SCALE as int);
        vstd::arithmetic::div_mod::lemma_div_is_ordered(
            v as int, reach(MAX_SEGMENTS as int), DIR_SCALE as int);
        assert(-reach(MAX_SEGMENTS as int) / DIR_SCALE as int == -20_001_000_000_000);
        assert(reach(MAX_SEGMENTS as int) / DIR_SCALE as int == 20_001_000_000_000);
    }
    (q - FLOOR_SHIFT) as i64
}

proof fn lemma_step_bound(a: int, dir: int, x: int, lim: int)
    requires
        0 <= a <= um(SEGMENT_LIMIT_MM as int),
        -DIR_SCALE <= dir <= DIR_SCALE,
        -lim <= x <= lim,
    ensures
        -lim - um(SEGMENT_LIMIT_MM as int) * DIR_SCALE <= x + a * dir <= lim + um(SEGMENT_LIMIT_MM as int) * DIR_SCALE,
        -lim - um(SEGMENT_LIMIT_MM as int) * DIR_SCALE <= x - a * dir <= lim + um(SEGMENT_LIMIT_MM as int) * DIR_SCALE,
{
    lemma_product_bound(a, dir, um(SEGMENT_LIMIT_MM as int), DIR_SCALE as int);
}

/// Lays out one segment from `(x, y, h)`: the piece it paints, if any, and the
/// position and heading where the next segment starts.
fn lay_segment(dirs: &Vec<(i64, i64)>, x: i128, y: i128, h: u32, seg: TrackSegment, width_um: i64, k: Ghost<int>)
    -> (r: (Option<LinePiece>, i128, i128, u32))
    requires
        directions_ok(dirs@),
        segment_ok(seg),
        segment_fits(seg),
        0 <= h < 360,
        0 <= k@ < MAX_SEGMENTS,
        -reach(k@) <= x <= reach(k@),
        -reach(k@) <= y <= reach(k@),
    ensures
        r.0 == piece_spec(dirs@, (x as int, y as int, h as int), seg, width_um),
        (r.1 as int, r.2 as int, r.3 as int) == advance_spec(dirs@, (x as int, y as int, h as int), seg),
        0 <= r.3 < 360,
        -reach(k@ + 1) <= r.1 <= reach(k@ + 1),
        -reach(k@ + 1) <= r.2 <= reach(k@ + 1),
{
    let (dx, dy) = dirs[h as usize];
    let ghost lim = um(SEGMENT_LIMIT_MM as int) * DIR_SCALE;
    assert(um(SEGMENT_LIMIT_MM as int) == 1_000_000_000);
    assert(reach(k@) + 2 * lim == reach(k@ + 1)) by (nonlinear_arith)
        requires
            lim == um(SEGMENT_LIMIT_MM as int) * DIR_SCALE,
    ;
    assert(reach(k@) <= reach(MAX_SEGMENTS as int)) by (nonlinear_arith)
        requires
            k@ <= MAX_SEGMENTS,
    ;
    assert(0 <= reach(k@)) by (nonlinear_arith)
        requires
            k@ >= 0,
    ;
    match seg {
        TrackSegment::Straight { length_mm } => {
            let l = (length_mm as i128) * 1000;
            proof {
                lemma_step_bound(l as int, dx as int, x as int, reach(k@));
                lemma_step_bound(l as int, dy as int, y as int, reach(k@));
            }
            let piece = LinePiece {
                frame: Frame { x: floor_scaled(x), y: floor_scaled(y), dir_x: dx, dir_y: dy },
                shape: LineShape::Strip { length_um: length_mm as i64 * 1000 },
                width_um,
            };
            (Some(piece), x + l * (dx as i128), y + l * (dy as i128), h)
        },
        TrackSegment::Turn { radius_mm, angle_deg, side } => {
            let r = (radius_mm as i128) * 1000;
            proof {
                lemma_step_bound(r as int, dy as int, x as int, reach(k@));
                lemma_step_bound(r as int, dx as int, y as int, reach(k@));
            }
            let (cx, cy) = match side {
                Side::Left => (x - r * (dy as i128), y + r * (dx as i128)),
                Side::Right => (x + r * (dy as i128), y - r * (dx as i128)),
            };
            let (start_deg, out_deg, heading) = match side {
                Side::Left => (h + 270, h + 270 + angle_deg, (h + angle_deg) % 360),
                Side::Right => (h + 450 - angle_deg, h + 450 - angle_deg, (h + 360 - angle_deg) % 360),
            };
            let (fx, fy) = dirs[(start_deg % 360) as usize];
            let (ex, ey) = dirs[(angle_deg % 360) as usize];
            let (ox, oy) = dirs[(out_deg % 360) as usize];
            proof {
                lemma_step_bound(r as int, ox as int, cx as int, reach(k@) + lim);
                lemma_step_bound(r as int, oy as int, cy as int, reach(k@) + lim);
            }
            let piece = LinePiece {
                frame: Frame { x: floor_scaled(cx), y: floor_scaled(cy), dir_x: fx, dir_y: fy },
                shape: LineShape::Arc { radius_um: radius_mm as i64 * 1000, end_dir_x: ex, end_dir_y: ey },
                width_um,
            };
            (Some(piece), cx + r * (ox as i128), cy + r * (oy as i128), heading)
        },
        _ => (None, x, y, h),
    }
}

/// Lays the track out in the ground plane: one line piece per straight or
/// turn, in driving order, each placed where the previous one ended.
/// `dirs` gives the direction of each whole-degree heading.
pub fn line_pieces(t: &Track, dirs: &Vec<(i64, i64)>, width_um: i64) -> (r: Vec<LinePiece>)
    requires
        track_fits(*t),
        directions_ok(dirs@),
    ensures
        r@ == pieces_upto(dirs@, *t, width_um, t.segments@.len()),
{
    assert(-1_000_000 <= t.origin.x_mm <= 1_000_000 && -1_000_000 <= t.origin.y_mm <= 1_000_000);
    let mut x: i128 = (t.origin.x_mm as i128) * 4_096_000;
    let mut y: i128 = (t.origin.y_mm as i128) * 4_096_000;
    let mut h: u32 = t.origin.angle_deg as u32;
    let mut out: Vec<LinePiece> = Vec::new();
    let mut k: usize = 0;
    let n = t.segments.len();
    assert(reach(0) == 4_096_000_000_000) by (nonlinear_arith);
    assert(start_cursor(*t) == (x as int, y as int, h as int));
    while k < n
        invariant
            n == t.segments@.len(),
            k <= n,
            track_fits(*t),
            directions_ok(dirs@),
            (x as int, y as int, h as int) == cursor_after(dirs@, *t, k as nat),
            0 <= h < 360,
            -reach(k as int) <= x <= reach(k as int),
            -reach(k as int) <= y <= reach(k as int),
            out@ == pieces_upto(dirs@, *t, width_um, k as nat),
        decreases n - k,
    {
        let seg = t.segments[k];
        assert(segment_fits(seg) && segment_ok(seg));
        let (piece, nx, ny, nh) = lay_segment(dirs, x, y, h, seg, width_um, Ghost(k as int));
        match piece {
            Some(p) => out.push(p),
            None => {},
        }
        x = nx;
        y = ny;
        h = nh;
        k = k + 1;
    }
    out
}

} // verus!
